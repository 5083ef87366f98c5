//! Rule-evaluation core of a static analyzer for SQL schema-migration
//! scripts: a typed model of parsed DDL statements, independent rule
//! checkers over that model, and an orchestrator that runs a configured
//! set of rules and merges their findings.

pub mod orchestrator;
pub mod rules;
pub mod syntax;
pub mod violations;
