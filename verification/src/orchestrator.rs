//! Orchestration: resolves enabled rule names against the static
//! registry, runs each resolved checker over the full program, and
//! returns the merged violation list. Violations are grouped by rule in
//! the order the rules were enabled, and within a rule in the order the
//! checker produced them (statement order); the orchestrator does not
//! re-sort globally — a caller wanting strict source-order interleaving
//! across rules re-sorts by the statement index each violation carries.
//!
//! The orchestrator fails only on configuration problems: a name that
//! does not resolve is reported as an error, never silently skipped, so
//! a typo cannot silently disable checking. Program content never makes
//! it fail — content handling is wholly the rule checkers' concern.

use vstd::prelude::*;

use crate::rules::{adding_not_nullable_field, not_null_field_violations};
use crate::syntax::RawStatement;
use crate::violations::RuleViolation;

verus! {

/// The closed set of checkers the registry can resolve a name to.
#[derive(Clone, Copy, Debug, PartialEq, Eq, Structural)]
pub enum RuleName {
    AddingNotNullableField,
}

/// The static registry, as a mapping from rule name to checker: a name
/// resolves to at most one checker, and the mapping never changes.
pub open spec fn registry_entry(name: Seq<char>) -> Option<RuleName> {
    if name == "adding-not-nullable-field"@ {
        Option::Some(RuleName::AddingNotNullableField)
    } else {
        Option::None
    }
}

/// Whether a rule name resolves in the registry.
pub open spec fn is_known_rule(name: Seq<char>) -> bool {
    registry_entry(name) is Some
}

/// What one resolved checker produces over a program.
pub open spec fn checker_output(rule: RuleName, prog: Seq<RawStatement>) -> Seq<RuleViolation> {
    match rule {
        RuleName::AddingNotNullableField => not_null_field_violations(prog),
    }
}

/// What the checker registered under `name` produces over a program;
/// an unresolvable name contributes nothing.
pub open spec fn rule_output(name: Seq<char>, prog: Seq<RawStatement>) -> Seq<RuleViolation> {
    match registry_entry(name) {
        Option::Some(rule) => checker_output(rule, prog),
        Option::None => Seq::empty(),
    }
}

/// The merged violation list: per enabled rule, in enabling order, the
/// full output of that rule over the program.
pub open spec fn merged_output(names: Seq<Seq<char>>, prog: Seq<RawStatement>) -> Seq<
    RuleViolation,
>
    decreases names.len(),
{
    if names.len() == 0 {
        Seq::empty()
    } else {
        merged_output(names.drop_last(), prog) + rule_output(names.last(), prog)
    }
}

/// A configuration problem reported to the caller: an enabled rule name
/// that does not resolve in the registry.
#[derive(Clone, Debug, PartialEq)]
pub enum ConfigError {
    UnknownRuleName { name: String },
}

proof fn lemma_merged_output_push(names: Seq<Seq<char>>, name: Seq<char>, prog: Seq<RawStatement>)
    ensures
        merged_output(names.push(name), prog) == merged_output(names, prog) + rule_output(
            name,
            prog,
        ),
{
    assert(names.push(name).drop_last() =~= names);
}

/// Resolves one rule name against the static registry.
fn resolve_rule(name: &String) -> (r: Option<RuleName>)
    ensures
        r == registry_entry(name@),
{
    let target: String = "adding-not-nullable-field".to_owned();
    if *name == target {
        Option::Some(RuleName::AddingNotNullableField)
    } else {
        Option::None
    }
}

/// Runs one resolved checker over the full program.
fn run_one(rule: RuleName, program: &Vec<RawStatement>) -> (r: Vec<RuleViolation>)
    ensures
        r@ == checker_output(rule, program@),
{
    match rule {
        RuleName::AddingNotNullableField => adding_not_nullable_field(program),
    }
}

/// Runs the enabled rules over the program and merges their findings.
/// Every enabled name is resolved first: if any name is unknown, the
/// run aborts with a configuration error naming the first unknown name
/// and returns no partial result. Otherwise the result is the merged
/// output of the enabled rules, grouped by rule in enabling order.
/// Enabling no rules succeeds with an empty violation list.
pub fn run_rules(program: &Vec<RawStatement>, enabled: &Vec<String>) -> (r: Result<
    Vec<RuleViolation>,
    ConfigError,
>)
    ensures
        (r is Err) <==> (exists|k: int|
            0 <= k < enabled@.len() && !is_known_rule(#[trigger] enabled@[k]@)),
        r matches Result::Ok(vs) ==> vs@ == merged_output(
            enabled@.map_values(|s: String| s@),
            program@,
        ),
        r matches Result::Err(e) ==> (e matches ConfigError::UnknownRuleName { name }
            && (exists|k: int|
            {
                &&& 0 <= k < enabled@.len()
                &&& name@ == #[trigger] enabled@[k]@
                &&& !is_known_rule(enabled@[k]@)
                &&& forall|l: int| 0 <= l < k ==> is_known_rule(#[trigger] enabled@[l]@)
            })),
{
    let ghost names = enabled@.map_values(|s: String| s@);
    let n: usize = enabled.len();
    let mut resolved: Vec<RuleName> = Vec::new();
    let mut k: usize = 0;
    while k < n
        invariant
            n == enabled@.len(),
            k <= n,
            resolved@.len() == k,
            forall|l: int| 0 <= l < k ==> is_known_rule(#[trigger] enabled@[l]@),
            forall|l: int|
                0 <= l < k ==> Option::Some(#[trigger] resolved@[l]) == registry_entry(
                    enabled@[l]@,
                ),
        decreases n - k,
    {
        match resolve_rule(&enabled[k]) {
            Option::Some(rule) => {
                resolved.push(rule);
            },
            Option::None => {
                return Result::Err(ConfigError::UnknownRuleName { name: enabled[k].clone() });
            },
        }
        k = k + 1;
    }
    let mut out: Vec<RuleViolation> = Vec::new();
    let mut j: usize = 0;
    while j < n
        invariant
            n == enabled@.len(),
            names == enabled@.map_values(|s: String| s@),
            j <= n,
            resolved@.len() == n,
            forall|l: int| 0 <= l < n ==> is_known_rule(#[trigger] enabled@[l]@),
            forall|l: int|
                0 <= l < n ==> Option::Some(#[trigger] resolved@[l]) == registry_entry(
                    enabled@[l]@,
                ),
            out@ == merged_output(names.take(j as int), program@),
        decreases n - j,
    {
        let ghost prefix = names.take(j as int);
        let rule: RuleName = resolved[j];
        let mut found: Vec<RuleViolation> = run_one(rule, program);
        out.append(&mut found);
        proof {
            assert(names.take(j + 1 as int) =~= prefix.push(names[j as int]));
            lemma_merged_output_push(prefix, names[j as int], program@);
            assert(names[j as int] == enabled@[j as int]@);
            assert(rule_output(names[j as int], program@) == checker_output(rule, program@));
        }
        j = j + 1;
    }
    proof {
        assert(names.take(n as int) =~= names);
    }
    Result::Ok(out)
}

} // verus!
