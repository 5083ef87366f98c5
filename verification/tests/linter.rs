use squawk_linter::orchestrator::{run_rules, ConfigError};
use squawk_linter::rules::adding_not_nullable_field;
use squawk_linter::syntax::{
    AlterTableCommand, AlterTableStatement, ColumnDefinition, Constraint, RawStatement, Statement,
};
use squawk_linter::violations::{RuleViolation, RuleViolationKind};

fn column(name: &str, data_type: &str, constraints: Vec<Constraint>) -> ColumnDefinition {
    ColumnDefinition { name: name.to_owned(), data_type: data_type.to_owned(), constraints }
}

fn alter_table(table_name: &str, cmds: Vec<AlterTableCommand>) -> Statement {
    Statement::AlterTable {
        alter: AlterTableStatement { table_name: table_name.to_owned(), cmds },
    }
}

fn raw(stmt: Statement, location: usize) -> RawStatement {
    RawStatement { stmt, stmt_location: location, stmt_len: 1 }
}

fn program(stmts: Vec<Statement>) -> Vec<RawStatement> {
    stmts.into_iter().enumerate().map(|(i, s)| raw(s, i)).collect()
}

fn not_null_violation(stmt_index: usize) -> RuleViolation {
    RuleViolation {
        kind: RuleViolationKind::AddingNotNullableField,
        stmt_index,
        detail: None,
    }
}

#[test]
fn test_adding_field_that_is_not_nullable() {
    // BEGIN;
    // ALTER TABLE "core_recipe" ADD COLUMN "foo" integer DEFAULT 10 NOT NULL;
    // ALTER TABLE "core_recipe" ALTER COLUMN "foo" DROP DEFAULT;
    // COMMIT;
    let bad = program(vec![
        Statement::TransactionBegin,
        alter_table(
            "core_recipe",
            vec![AlterTableCommand::AddColumn {
                def: Some(column(
                    "foo",
                    "integer",
                    vec![
                        Constraint::DefaultValue { expr: "10".to_owned() },
                        Constraint::NotNull,
                    ],
                )),
            }],
        ),
        alter_table("core_recipe", vec![AlterTableCommand::AlterColumnType { def: None }]),
        Statement::TransactionCommit,
    ]);
    assert_eq!(adding_not_nullable_field(&bad), vec![not_null_violation(1)]);

    // ALTER TABLE "core_recipe" ADD COLUMN "foo" integer NOT NULL;
    let bad = program(vec![alter_table(
        "core_recipe",
        vec![AlterTableCommand::AddColumn {
            def: Some(column("foo", "integer", vec![Constraint::NotNull])),
        }],
    )]);
    assert_eq!(adding_not_nullable_field(&bad), vec![not_null_violation(0)]);
}

#[test]
fn add_column_with_default_and_not_null_is_flagged_once() {
    // ALTER TABLE "core_recipe" ADD COLUMN "foo" integer DEFAULT 10 NOT NULL;
    let prog = program(vec![alter_table(
        "core_recipe",
        vec![AlterTableCommand::AddColumn {
            def: Some(column(
                "foo",
                "integer",
                vec![Constraint::DefaultValue { expr: "10".to_owned() }, Constraint::NotNull],
            )),
        }],
    )]);
    let errs = adding_not_nullable_field(&prog);
    assert_eq!(errs.len(), 1);
    assert_eq!(errs[0].kind, RuleViolationKind::AddingNotNullableField);
    assert_eq!(errs[0].stmt_index, 0);
    assert_eq!(errs[0].detail, None);
}

#[test]
fn add_column_not_null_outside_transaction_is_flagged() {
    // ALTER TABLE "core_recipe" ADD COLUMN "foo" integer NOT NULL;
    // No surrounding BEGIN/COMMIT: detection is unchanged.
    let prog = program(vec![alter_table(
        "core_recipe",
        vec![AlterTableCommand::AddColumn {
            def: Some(column("foo", "integer", vec![Constraint::NotNull])),
        }],
    )]);
    assert_eq!(adding_not_nullable_field(&prog), vec![not_null_violation(0)]);
}

#[test]
fn nullable_add_column_is_not_flagged() {
    // ALTER TABLE "core_recipe" ADD COLUMN "foo" integer;
    let prog = program(vec![alter_table(
        "core_recipe",
        vec![AlterTableCommand::AddColumn { def: Some(column("foo", "integer", vec![])) }],
    )]);
    assert_eq!(adding_not_nullable_field(&prog), vec![]);
}

#[test]
fn other_constraints_alone_are_not_flagged() {
    let prog = program(vec![alter_table(
        "accounts",
        vec![
            AlterTableCommand::AddColumn {
                def: Some(column(
                    "bar",
                    "text",
                    vec![
                        Constraint::DefaultValue { expr: "'x'".to_owned() },
                        Constraint::Unique,
                        Constraint::PrimaryKey,
                        Constraint::Check { expr: "bar <> ''".to_owned() },
                        Constraint::ForeignKey { referenced_table: "other".to_owned() },
                    ],
                )),
            },
            AlterTableCommand::AddColumn { def: None },
            AlterTableCommand::DropColumn { column_name: Some("baz".to_owned()) },
        ],
    )]);
    assert_eq!(adding_not_nullable_field(&prog), vec![]);
}

#[test]
fn only_offending_add_columns_are_flagged() {
    // One ALTER TABLE bundling several ADD COLUMNs: cardinality follows
    // the offending commands, not the statement.
    let prog = program(vec![alter_table(
        "core_recipe",
        vec![
            AlterTableCommand::AddColumn {
                def: Some(column("a", "integer", vec![Constraint::NotNull])),
            },
            AlterTableCommand::AddColumn { def: Some(column("b", "integer", vec![])) },
            AlterTableCommand::AddColumn {
                def: Some(column(
                    "c",
                    "integer",
                    vec![Constraint::NotNull, Constraint::DefaultValue { expr: "0".to_owned() }],
                )),
            },
        ],
    )]);
    let errs = adding_not_nullable_field(&prog);
    assert_eq!(errs, vec![not_null_violation(0), not_null_violation(0)]);
}

#[test]
fn statements_without_alter_table_yield_nothing() {
    let prog = program(vec![
        Statement::TransactionBegin,
        Statement::CreateTable {
            create: squawk_linter::syntax::CreateTableStatement {
                table_name: "t".to_owned(),
                columns: vec![column("id", "serial", vec![Constraint::NotNull])],
            },
        },
        Statement::CreateIndex {
            index: squawk_linter::syntax::CreateIndexStatement {
                index_name: "t_idx".to_owned(),
                table_name: "t".to_owned(),
            },
        },
        Statement::TransactionCommit,
    ]);
    assert_eq!(adding_not_nullable_field(&prog), vec![]);
}

#[test]
fn running_the_rule_twice_yields_identical_violations() {
    let prog = program(vec![
        alter_table(
            "a",
            vec![AlterTableCommand::AddColumn {
                def: Some(column("x", "integer", vec![Constraint::NotNull])),
            }],
        ),
        alter_table(
            "b",
            vec![AlterTableCommand::AddColumn {
                def: Some(column("y", "integer", vec![Constraint::NotNull])),
            }],
        ),
    ]);
    let first = adding_not_nullable_field(&prog);
    let second = adding_not_nullable_field(&prog);
    assert_eq!(first, second);
}

#[test]
fn unknown_rule_name_is_a_configuration_error() {
    let prog = program(vec![alter_table(
        "core_recipe",
        vec![AlterTableCommand::AddColumn {
            def: Some(column("foo", "integer", vec![Constraint::NotNull])),
        }],
    )]);
    let enabled = vec!["not-a-rule".to_owned()];
    let result = run_rules(&prog, &enabled);
    assert_eq!(
        result,
        Err(ConfigError::UnknownRuleName { name: "not-a-rule".to_owned() })
    );
}

#[test]
fn first_unknown_rule_name_is_reported() {
    let prog = program(vec![]);
    let enabled = vec![
        "adding-not-nullable-field".to_owned(),
        "first-typo".to_owned(),
        "second-typo".to_owned(),
    ];
    let result = run_rules(&prog, &enabled);
    assert_eq!(
        result,
        Err(ConfigError::UnknownRuleName { name: "first-typo".to_owned() })
    );
}

#[test]
fn zero_enabled_rules_yield_empty_result_without_error() {
    let prog = program(vec![alter_table(
        "core_recipe",
        vec![AlterTableCommand::AddColumn {
            def: Some(column("foo", "integer", vec![Constraint::NotNull])),
        }],
    )]);
    let result = run_rules(&prog, &vec![]);
    assert_eq!(result, Ok(vec![]));
}

#[test]
fn enabled_rule_runs_over_the_program() {
    let prog = program(vec![
        Statement::TransactionBegin,
        alter_table(
            "core_recipe",
            vec![AlterTableCommand::AddColumn {
                def: Some(column("foo", "integer", vec![Constraint::NotNull])),
            }],
        ),
        Statement::TransactionCommit,
    ]);
    let enabled = vec!["adding-not-nullable-field".to_owned()];
    let result = run_rules(&prog, &enabled);
    assert_eq!(result, Ok(adding_not_nullable_field(&prog)));
    assert_eq!(result, Ok(vec![not_null_violation(1)]));
}

#[test]
fn violation_builder_records_its_arguments() {
    let v = RuleViolation::new(
        RuleViolationKind::AddingNotNullableField,
        3,
        Some("added without a safe default".to_owned()),
    );
    assert_eq!(v.kind, RuleViolationKind::AddingNotNullableField);
    assert_eq!(v.stmt_index, 3);
    assert_eq!(v.detail, Some("added without a safe default".to_owned()));
}
