//! Typed model of one parsed DDL program: an ordered sequence of
//! statements, each a closed tagged variant with nested sub-structures
//! (ALTER TABLE sub-commands, column definitions, inline constraints).
//! The model is built once by an external parser front-end and is
//! read-only thereafter; rules only traverse it.

use vstd::prelude::*;

verus! {

/// An inline constraint attached to a column definition, tagged by
/// constraint kind. Kinds that carry structural detail the rules may
/// inspect keep it as a payload; for the others the tag alone suffices.
#[derive(Clone, Debug)]
pub enum Constraint {
    NotNull,
    DefaultValue { expr: String },
    Check { expr: String },
    PrimaryKey,
    Unique,
    ForeignKey { referenced_table: String },
}

/// One column of a CREATE TABLE or ADD COLUMN, with its declared type
/// and the ordered inline constraints attached to it.
#[derive(Clone, Debug)]
pub struct ColumnDefinition {
    pub name: String,
    pub data_type: String,
    pub constraints: Vec<Constraint>,
}

/// One operation within an ALTER TABLE statement, tagged by operation
/// kind. A payload may be absent: absence is a valid state meaning
/// "no further structural detail to inspect", never an error.
#[derive(Clone, Debug)]
pub enum AlterTableCommand {
    AddColumn { def: Option<ColumnDefinition> },
    DropColumn { column_name: Option<String> },
    AlterColumnType { def: Option<ColumnDefinition> },
}

/// An ALTER TABLE statement: the target table and the ordered
/// sub-commands it bundles, each evaluated independently by a rule.
#[derive(Clone, Debug)]
pub struct AlterTableStatement {
    pub table_name: String,
    pub cmds: Vec<AlterTableCommand>,
}

/// A CREATE TABLE statement: the new table and its column definitions.
#[derive(Clone, Debug)]
pub struct CreateTableStatement {
    pub table_name: String,
    pub columns: Vec<ColumnDefinition>,
}

/// A CREATE INDEX statement: the index and the table it covers.
#[derive(Clone, Debug)]
pub struct CreateIndexStatement {
    pub index_name: String,
    pub table_name: String,
}

/// One parsed statement, a closed tagged variant over the DDL statement
/// kinds the model represents. Exactly one variant is active; a rule
/// matches the variants relevant to it and must treat every other
/// variant as "not applicable", never as an error.
#[derive(Clone, Debug)]
pub enum Statement {
    AlterTable { alter: AlterTableStatement },
    CreateTable { create: CreateTableStatement },
    CreateIndex { index: CreateIndexStatement },
    TransactionBegin,
    TransactionCommit,
}

/// One statement of a program together with its positional metadata,
/// kept for later reporting: the byte offset where the statement starts
/// and its length in the source text.
#[derive(Clone, Debug)]
pub struct RawStatement {
    pub stmt: Statement,
    pub stmt_location: usize,
    pub stmt_len: usize,
}

} // verus!
