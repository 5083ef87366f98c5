//! Violation model: the closed enumeration of rule identifiers and the
//! diagnostic record a rule emits for each place it matches. A
//! violation refers to the offending statement by its position in the
//! program that produced it, so it never outlives or escapes that
//! program's indexing.

use vstd::prelude::*;

verus! {

/// The closed set of rule identifiers. Each rule owns the kinds it may
/// emit; the enumeration grows only by recompilation.
#[derive(Clone, Copy, Debug, PartialEq, Eq, Structural)]
pub enum RuleViolationKind {
    AddingNotNullableField,
}

/// One finding of one rule: the kind of violation, the index of the
/// offending statement within the program the rule was run on, and an
/// optional free-form detail message.
#[derive(Clone, Debug, PartialEq)]
pub struct RuleViolation {
    pub kind: RuleViolationKind,
    pub stmt_index: usize,
    pub detail: Option<String>,
}

impl RuleViolation {
    /// Builds the diagnostic record for one finding.
    pub fn new(kind: RuleViolationKind, stmt_index: usize, detail: Option<String>) -> (r:
        RuleViolation)
        ensures
            r.kind == kind,
            r.stmt_index == stmt_index,
            r.detail == detail,
    {
        RuleViolation { kind, stmt_index, detail }
    }
}

} // verus!
