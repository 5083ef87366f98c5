//! Rule checkers: independent, pure, stateless passes over the syntax
//! model, each answering one narrow safety question and emitting zero
//! or more violations. A checker never mutates the program and never
//! fails on program content; statement, command and constraint shapes
//! it does not care about are matched explicitly and skipped.
//!
//! The rule implemented here flags adding a non-nullable column to an
//! existing table: on a live database every existing row violates the
//! new constraint unless a backfill is orchestrated separately, so the
//! pattern is unsafe to apply as-is. Deliberately, the rule flags a
//! NOT NULL constraint even when the same command carries a DEFAULT:
//! correlating the surrounding default-drop pattern is the concern of
//! a different, separately named rule.

use vstd::prelude::*;

use crate::syntax::{AlterTableCommand, ColumnDefinition, Constraint, RawStatement, Statement};
use crate::violations::{RuleViolation, RuleViolationKind};

verus! {

/// Whether one inline constraint is the shape this rule flags: NOT NULL.
pub open spec fn constraint_offends(c: Constraint) -> bool {
    c is NotNull
}

/// Number of NOT NULL constraints among the inline constraints of one
/// column definition.
pub open spec fn not_null_count(cs: Seq<Constraint>) -> nat
    decreases cs.len(),
{
    if cs.len() == 0 {
        0
    } else {
        not_null_count(cs.drop_last()) + if constraint_offends(cs.last()) {
            1nat
        } else {
            0nat
        }
    }
}

/// Number of findings one ALTER TABLE sub-command yields: one per
/// NOT NULL constraint of an added column, none for any other command
/// shape, and none when the command carries no column definition.
pub open spec fn cmd_offense_count(cmd: AlterTableCommand) -> nat {
    match cmd {
        AlterTableCommand::AddColumn { def } => match def {
            Option::Some(d) => not_null_count(d.constraints@),
            Option::None => 0,
        },
        AlterTableCommand::DropColumn { .. } => 0,
        AlterTableCommand::AlterColumnType { .. } => 0,
    }
}

/// Total findings over an ordered sequence of ALTER TABLE sub-commands.
pub open spec fn cmds_offense_count(cmds: Seq<AlterTableCommand>) -> nat
    decreases cmds.len(),
{
    if cmds.len() == 0 {
        0
    } else {
        cmds_offense_count(cmds.drop_last()) + cmd_offense_count(cmds.last())
    }
}

/// Number of findings one statement yields: only ALTER TABLE statements
/// can offend; every other statement kind yields none.
pub open spec fn stmt_offense_count(s: Statement) -> nat {
    match s {
        Statement::AlterTable { alter } => cmds_offense_count(alter.cmds@),
        Statement::CreateTable { .. } => 0,
        Statement::CreateIndex { .. } => 0,
        Statement::TransactionBegin => 0,
        Statement::TransactionCommit => 0,
    }
}

/// The one violation record this rule emits for the statement at
/// `stmt_index`.
pub open spec fn not_null_violation(stmt_index: usize) -> RuleViolation {
    RuleViolation {
        kind: RuleViolationKind::AddingNotNullableField,
        stmt_index,
        detail: Option::None,
    }
}

/// `n` copies of this rule's violation for the statement at
/// `stmt_index` — one per offending (command, constraint) pair.
pub open spec fn repeated_violation(stmt_index: usize, n: nat) -> Seq<RuleViolation> {
    Seq::new(n, |k: int| not_null_violation(stmt_index))
}

/// The full violation sequence of this rule over a program: statements
/// in source order, each contributing one violation per offending
/// (command, constraint) pair.
pub open spec fn not_null_field_violations(prog: Seq<RawStatement>) -> Seq<RuleViolation>
    decreases prog.len(),
{
    if prog.len() == 0 {
        Seq::empty()
    } else {
        not_null_field_violations(prog.drop_last()) + repeated_violation(
            (prog.len() - 1) as usize,
            stmt_offense_count(prog.last().stmt),
        )
    }
}

proof fn lemma_not_null_count_push(cs: Seq<Constraint>, c: Constraint)
    ensures
        not_null_count(cs.push(c)) == not_null_count(cs) + if constraint_offends(c) {
            1nat
        } else {
            0nat
        },
{
    assert(cs.push(c).drop_last() =~= cs);
}

proof fn lemma_cmds_offense_count_push(cmds: Seq<AlterTableCommand>, cmd: AlterTableCommand)
    ensures
        cmds_offense_count(cmds.push(cmd)) == cmds_offense_count(cmds) + cmd_offense_count(cmd),
{
    assert(cmds.push(cmd).drop_last() =~= cmds);
}

proof fn lemma_repeated_violation_add(stmt_index: usize, a: nat, b: nat)
    ensures
        repeated_violation(stmt_index, a) + repeated_violation(stmt_index, b)
            == repeated_violation(stmt_index, a + b),
{
    assert(repeated_violation(stmt_index, a) + repeated_violation(stmt_index, b)
        =~= repeated_violation(stmt_index, a + b));
}

proof fn lemma_violations_push(prog: Seq<RawStatement>, s: RawStatement)
    requires
        prog.len() <= usize::MAX,
    ensures
        not_null_field_violations(prog.push(s)) == not_null_field_violations(prog)
            + repeated_violation(prog.len() as usize, stmt_offense_count(s.stmt)),
{
    assert(prog.push(s).drop_last() =~= prog);
}

/// Number of violations in `vs` that reference the statement at
/// `stmt_index`.
pub open spec fn count_referencing(vs: Seq<RuleViolation>, stmt_index: usize) -> nat
    decreases vs.len(),
{
    if vs.len() == 0 {
        0
    } else {
        count_referencing(vs.drop_last(), stmt_index) + if vs.last().stmt_index == stmt_index {
            1nat
        } else {
            0nat
        }
    }
}

/// Number of sub-commands that yield at least one finding.
pub open spec fn offending_cmd_count(cmds: Seq<AlterTableCommand>) -> nat
    decreases cmds.len(),
{
    if cmds.len() == 0 {
        0
    } else {
        offending_cmd_count(cmds.drop_last()) + if cmd_offense_count(cmds.last()) > 0 {
            1nat
        } else {
            0nat
        }
    }
}

proof fn lemma_count_referencing_add(a: Seq<RuleViolation>, b: Seq<RuleViolation>, i: usize)
    ensures
        count_referencing(a + b, i) == count_referencing(a, i) + count_referencing(b, i),
    decreases b.len(),
{
    if b.len() == 0 {
        assert(a + b =~= a);
    } else {
        assert((a + b).drop_last() =~= a + b.drop_last());
        lemma_count_referencing_add(a, b.drop_last(), i);
    }
}

proof fn lemma_count_referencing_repeated(j: usize, n: nat, i: usize)
    ensures
        count_referencing(repeated_violation(j, n), i) == if i == j {
            n
        } else {
            0nat
        },
    decreases n,
{
    if n > 0 {
        assert(repeated_violation(j, n).drop_last() =~= repeated_violation(j, (n - 1) as nat));
        lemma_count_referencing_repeated(j, (n - 1) as nat, i);
    }
}

proof fn lemma_count_referencing_none(vs: Seq<RuleViolation>, i: usize)
    requires
        forall|m: int| 0 <= m < vs.len() ==> (#[trigger] vs[m]).stmt_index != i,
    ensures
        count_referencing(vs, i) == 0,
    decreases vs.len(),
{
    if vs.len() > 0 {
        lemma_count_referencing_none(vs.drop_last(), i);
    }
}

/// Law: every violation this rule produces carries the rule's own kind,
/// no detail message, and a statement index inside the program — a
/// violation never references a statement outside the program that
/// produced it.
pub proof fn lemma_violations_reference_program(prog: Seq<RawStatement>)
    requires
        prog.len() <= usize::MAX,
    ensures
        forall|m: int|
            0 <= m < not_null_field_violations(prog).len()
                ==> (#[trigger] not_null_field_violations(prog)[m])
                == not_null_violation(not_null_field_violations(prog)[m].stmt_index)
                && not_null_field_violations(prog)[m].stmt_index < prog.len(),
    decreases prog.len(),
{
    if prog.len() > 0 {
        lemma_violations_reference_program(prog.drop_last());
    }
}

/// Law: for every statement of the program, the rule produces exactly
/// one violation per offending (command, constraint) pair of that
/// statement — `stmt_offense_count` many, each referencing it; a
/// statement of any non-ALTER TABLE kind is referenced by none.
pub proof fn lemma_exactly_one_violation_per_offense(prog: Seq<RawStatement>, i: usize)
    requires
        prog.len() <= usize::MAX,
        i < prog.len(),
    ensures
        count_referencing(not_null_field_violations(prog), i) == stmt_offense_count(
            prog[i as int].stmt,
        ),
    decreases prog.len(),
{
    let head = not_null_field_violations(prog.drop_last());
    let last_index: usize = (prog.len() - 1) as usize;
    let tail = repeated_violation(last_index, stmt_offense_count(prog.last().stmt));
    lemma_count_referencing_add(head, tail, i);
    lemma_count_referencing_repeated(last_index, stmt_offense_count(prog.last().stmt), i);
    if i == last_index {
        lemma_violations_reference_program(prog.drop_last());
        lemma_count_referencing_none(head, i);
    } else {
        lemma_exactly_one_violation_per_offense(prog.drop_last(), i);
    }
}

/// Law: a constraint that is not NOT NULL — e.g. an accompanying
/// DEFAULT on the same column — never changes the number of findings
/// for that column: detection is regardless of the other constraints.
pub proof fn lemma_other_constraints_do_not_count(cs: Seq<Constraint>, c: Constraint)
    requires
        !constraint_offends(c),
    ensures
        not_null_count(cs.push(c)) == not_null_count(cs),
{
    lemma_not_null_count_push(cs, c);
}

/// Law: a program without any ALTER TABLE statement yields the empty
/// violation sequence under this rule.
pub proof fn lemma_no_alter_table_no_violations(prog: Seq<RawStatement>)
    requires
        forall|i: int| 0 <= i < prog.len() ==> !((#[trigger] prog[i]).stmt is AlterTable),
    ensures
        not_null_field_violations(prog) == Seq::<RuleViolation>::empty(),
    decreases prog.len(),
{
    if prog.len() > 0 {
        assert(forall|i: int|
            0 <= i < prog.drop_last().len() ==> (#[trigger] prog.drop_last()[i]) == prog[i]);
        lemma_no_alter_table_no_violations(prog.drop_last());
        assert(stmt_offense_count(prog.last().stmt) == 0);
        assert(not_null_field_violations(prog) =~= Seq::<RuleViolation>::empty());
    }
}

proof fn lemma_no_not_null_count_zero(cs: Seq<Constraint>)
    requires
        forall|k: int| 0 <= k < cs.len() ==> !constraint_offends(#[trigger] cs[k]),
    ensures
        not_null_count(cs) == 0,
    decreases cs.len(),
{
    if cs.len() > 0 {
        assert(forall|k: int|
            0 <= k < cs.drop_last().len() ==> (#[trigger] cs.drop_last()[k]) == cs[k]);
        lemma_no_not_null_count_zero(cs.drop_last());
    }
}

/// Law: an ADD COLUMN command whose column definition has no NOT NULL
/// constraint — or no definition at all — yields no finding.
pub proof fn lemma_add_column_without_not_null_unflagged(def: Option<ColumnDefinition>)
    requires
        def matches Option::Some(d) ==> forall|k: int|
            0 <= k < d.constraints@.len() ==> !constraint_offends(#[trigger] d.constraints@[k]),
    ensures
        cmd_offense_count(AlterTableCommand::AddColumn { def }) == 0,
{
    match def {
        Option::Some(d) => lemma_no_not_null_count_zero(d.constraints@),
        Option::None => {},
    }
}

/// Law: the rule misses no danger — a column definition yields at least
/// one finding exactly when one of its constraints is NOT NULL.
pub proof fn lemma_not_null_detected(cs: Seq<Constraint>)
    ensures
        not_null_count(cs) > 0 <==> exists|k: int|
            0 <= k < cs.len() && constraint_offends(#[trigger] cs[k]),
    decreases cs.len(),
{
    if cs.len() > 0 {
        lemma_not_null_detected(cs.drop_last());
        assert(forall|k: int|
            0 <= k < cs.len() - 1 ==> (#[trigger] cs.drop_last()[k]) == cs[k]);
        if constraint_offends(cs.last()) {
            assert(constraint_offends(cs[cs.len() - 1]));
        } else {
            if not_null_count(cs) > 0 {
                let k = choose|k: int|
                    0 <= k < cs.drop_last().len() && constraint_offends(
                        #[trigger] cs.drop_last()[k],
                    );
                assert(constraint_offends(cs[k]));
            }
            if exists|k: int| 0 <= k < cs.len() && constraint_offends(#[trigger] cs[k]) {
                let k = choose|k: int| 0 <= k < cs.len() && constraint_offends(#[trigger] cs[k]);
                assert(k < cs.len() - 1);
                assert(constraint_offends(cs.drop_last()[k]));
            }
        }
    }
}

/// Law: the rule is idempotent — its output is a function of the
/// program alone, so two runs over the same, unmutated program yield
/// identical violation sequences. Any two results that satisfy the
/// checker's contract for the same program are equal.
pub proof fn lemma_rule_idempotent(
    prog: Seq<RawStatement>,
    first: Seq<RuleViolation>,
    second: Seq<RuleViolation>,
)
    requires
        first == not_null_field_violations(prog),
        second == not_null_field_violations(prog),
    ensures
        first == second,
{
}

/// Law: an ALTER TABLE statement with several ADD COLUMN sub-commands
/// is flagged once per offending sub-command, not once per statement:
/// when each sub-command carries at most one NOT NULL constraint, its
/// total findings equal the number of its offending sub-commands.
pub proof fn lemma_cardinality_counts_offending_commands(cmds: Seq<AlterTableCommand>)
    requires
        forall|k: int| 0 <= k < cmds.len() ==> #[trigger] cmd_offense_count(cmds[k]) <= 1,
    ensures
        cmds_offense_count(cmds) == offending_cmd_count(cmds),
    decreases cmds.len(),
{
    if cmds.len() > 0 {
        assert(forall|k: int|
            0 <= k < cmds.drop_last().len() ==> (#[trigger] cmds.drop_last()[k]) == cmds[k]);
        lemma_cardinality_counts_offending_commands(cmds.drop_last());
        assert(cmd_offense_count(cmds[cmds.len() - 1]) <= 1);
    }
}

/// Appends one violation per NOT NULL constraint of `def`, in
/// constraint order, each referencing the statement at `stmt_index`.
fn check_column_def(def: &ColumnDefinition, stmt_index: usize, errs: &mut Vec<RuleViolation>)
    ensures
        final(errs)@ == old(errs)@ + repeated_violation(
            stmt_index,
            not_null_count(def.constraints@),
        ),
{
    let n: usize = def.constraints.len();
    let mut k: usize = 0;
    while k < n
        invariant
            n == def.constraints@.len(),
            k <= n,
            errs@ == old(errs)@ + repeated_violation(
                stmt_index,
                not_null_count(def.constraints@.take(k as int)),
            ),
        decreases n - k,
    {
        let ghost prefix = def.constraints@.take(k as int);
        let ghost count = not_null_count(prefix);
        match &def.constraints[k] {
            Constraint::NotNull => {
                errs.push(RuleViolation {
                    kind: RuleViolationKind::AddingNotNullableField,
                    stmt_index,
                    detail: Option::None,
                });
                proof {
                    assert(errs@ =~= old(errs)@ + repeated_violation(stmt_index, count + 1));
                }
            },
            Constraint::DefaultValue { .. } => {},
            Constraint::Check { .. } => {},
            Constraint::PrimaryKey => {},
            Constraint::Unique => {},
            Constraint::ForeignKey { .. } => {},
        }
        proof {
            assert(def.constraints@.take(k + 1 as int) =~= prefix.push(def.constraints@[k as int]));
            lemma_not_null_count_push(prefix, def.constraints@[k as int]);
        }
        k = k + 1;
    }
    proof {
        assert(def.constraints@.take(n as int) =~= def.constraints@);
    }
}

/// Appends the findings of one ALTER TABLE sub-command: only an added
/// column with a present definition is inspected; every other command
/// shape is explicitly skipped.
fn check_cmd(cmd: &AlterTableCommand, stmt_index: usize, errs: &mut Vec<RuleViolation>)
    ensures
        final(errs)@ == old(errs)@ + repeated_violation(stmt_index, cmd_offense_count(*cmd)),
{
    match cmd {
        AlterTableCommand::AddColumn { def } => {
            match def {
                Option::Some(column_def) => {
                    check_column_def(column_def, stmt_index, errs);
                },
                Option::None => {
                    proof {
                        assert(errs@ =~= errs@ + repeated_violation(stmt_index, 0));
                    }
                },
            }
        },
        AlterTableCommand::DropColumn { .. } => {
            proof {
                assert(errs@ =~= errs@ + repeated_violation(stmt_index, 0));
            }
        },
        AlterTableCommand::AlterColumnType { .. } => {
            proof {
                assert(errs@ =~= errs@ + repeated_violation(stmt_index, 0));
            }
        },
    }
}

/// Appends the findings of one statement: an ALTER TABLE statement is
/// traversed sub-command by sub-command in order; every other statement
/// kind is explicitly skipped as not applicable.
fn check_statement(s: &Statement, stmt_index: usize, errs: &mut Vec<RuleViolation>)
    ensures
        final(errs)@ == old(errs)@ + repeated_violation(stmt_index, stmt_offense_count(*s)),
{
    match s {
        Statement::AlterTable { alter } => {
            let n: usize = alter.cmds.len();
            let mut j: usize = 0;
            while j < n
                invariant
                    n == alter.cmds@.len(),
                    j <= n,
                    errs@ == old(errs)@ + repeated_violation(
                        stmt_index,
                        cmds_offense_count(alter.cmds@.take(j as int)),
                    ),
                decreases n - j,
            {
                let ghost prefix = alter.cmds@.take(j as int);
                check_cmd(&alter.cmds[j], stmt_index, errs);
                proof {
                    assert(alter.cmds@.take(j + 1 as int) =~= prefix.push(alter.cmds@[j as int]));
                    lemma_cmds_offense_count_push(prefix, alter.cmds@[j as int]);
                    lemma_repeated_violation_add(
                        stmt_index,
                        cmds_offense_count(prefix),
                        cmd_offense_count(alter.cmds@[j as int]),
                    );
                    assert(errs@ =~= old(errs)@ + repeated_violation(
                        stmt_index,
                        cmds_offense_count(alter.cmds@.take(j + 1 as int)),
                    ));
                }
                j = j + 1;
            }
            proof {
                assert(alter.cmds@.take(n as int) =~= alter.cmds@);
            }
        },
        Statement::CreateTable { .. } => {
            proof {
                assert(errs@ =~= errs@ + repeated_violation(stmt_index, 0));
            }
        },
        Statement::CreateIndex { .. } => {
            proof {
                assert(errs@ =~= errs@ + repeated_violation(stmt_index, 0));
            }
        },
        Statement::TransactionBegin => {
            proof {
                assert(errs@ =~= errs@ + repeated_violation(stmt_index, 0));
            }
        },
        Statement::TransactionCommit => {
            proof {
                assert(errs@ =~= errs@ + repeated_violation(stmt_index, 0));
            }
        },
    }
}

/// The "adding a not-nullable column" rule checker: for each ALTER
/// TABLE statement of the program, in order, one violation per NOT NULL
/// constraint of each added column, referencing the enclosing
/// statement. The result is exactly `not_null_field_violations` of the
/// program, so two runs over the same program return equal sequences.
pub fn adding_not_nullable_field(tree: &Vec<RawStatement>) -> (r: Vec<RuleViolation>)
    ensures
        r@ == not_null_field_violations(tree@),
{
    let mut errs: Vec<RuleViolation> = Vec::new();
    let n: usize = tree.len();
    let mut i: usize = 0;
    while i < n
        invariant
            n == tree@.len(),
            i <= n,
            errs@ == not_null_field_violations(tree@.take(i as int)),
        decreases n - i,
    {
        check_statement(&tree[i].stmt, i, &mut errs);
        proof {
            assert(tree@.take(i + 1 as int) =~= tree@.take(i as int).push(tree@[i as int]));
            lemma_violations_push(tree@.take(i as int), tree@[i as int]);
        }
        i = i + 1;
    }
    proof {
        assert(tree@.take(n as int) =~= tree@);
    }
    errs
}

} // verus!
