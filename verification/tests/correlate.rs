use pg_ddl::ddl;
use pg_ddl::ir;
use pg_ddl::schema::{
    All, Column, ConstraintColumnUsage, Table, TableConstraint,
};
use pg_ddl::yes_no::YesNo;

fn empty_all() -> All {
    All {
        tables: vec![],
        columns: vec![],
        views: vec![],
        table_constraints: vec![],
        constraint_column_usage: vec![],
        key_column_usage: vec![],
        constraint_table_usage: vec![],
        element_types: vec![],
        check_constraints: vec![],
    }
}

fn table_row(schema: Option<&str>, name: &str, kind: &str) -> Table {
    Table {
        table_catalog: None,
        table_schema: schema.map(|s| s.to_string()),
        table_name: name.to_string(),
        table_type: Some(kind.to_string()),
        self_referencing_column_name: None,
        reference_generation: None,
        user_defined_type_catalog: None,
        user_defined_type_schema: None,
        user_defined_type_name: None,
        is_insertable_into: None,
        is_typed: None,
        commit_action: None,
    }
}

fn column_row(
    schema: Option<&str>,
    table: &str,
    name: &str,
    ordinal: i32,
    data_type: &str,
) -> Column {
    Column {
        table_catalog: None,
        table_schema: schema.map(|s| s.to_string()),
        table_name: table.to_string(),
        column_name: name.to_string(),
        ordinal_position: ordinal,
        column_default: None,
        is_nullable: None,
        data_type: data_type.to_string(),
        character_maximum_length: None,
        character_octet_length: None,
        numeric_precision: None,
        numeric_precision_radix: None,
        numeric_scale: None,
        datetime_precision: None,
        interval_type: None,
        interval_precision: None,
        character_set_catalog: None,
        character_set_schema: None,
        character_set_name: None,
        collation_catalog: None,
        collation_schema: None,
        collation_name: None,
        domain_catalog: None,
        domain_schema: None,
        domain_name: None,
        udt_catalog: None,
        udt_schema: None,
        udt_name: None,
        scope_catalog: None,
        scope_schema: None,
        scope_name: None,
        maximum_cardinality: None,
        dtd_identifier: None,
        is_self_referencing: None,
        is_identity: None,
        identity_generation: None,
        identity_start: None,
        identity_increment: None,
        identity_maximum: None,
        identity_minimum: None,
        identity_cycle: None,
        is_generated: None,
        generation_expression: None,
        is_updatable: None,
    }
}

fn constraint_row(schema: Option<&str>, name: &str, table: &str, kind: &str) -> TableConstraint {
    TableConstraint {
        constraint_catalog: None,
        constraint_schema: schema.map(|s| s.to_string()),
        constraint_name: name.to_string(),
        table_catalog: None,
        table_schema: schema.map(|s| s.to_string()),
        table_name: table.to_string(),
        constraint_type: kind.to_string(),
        is_deferrable: None,
        initially_deferred: None,
        enforced: None,
    }
}

fn ccu_row(schema: Option<&str>, constraint: &str, table: &str, column: &str) -> ConstraintColumnUsage {
    ConstraintColumnUsage {
        table_catalog: None,
        table_schema: schema.map(|s| s.to_string()),
        table_name: table.to_string(),
        column_name: column.to_string(),
        constraint_catalog: None,
        constraint_schema: schema.map(|s| s.to_string()),
        constraint_name: constraint.to_string(),
    }
}

fn render_all(all: &All) -> Vec<String> {
    let graph = ir::get_all(all);
    let mut out: Vec<String> = vec![];
    for t in graph.tables.iter() {
        out.push(ddl::table(all, t).unwrap());
    }
    out
}

#[test]
fn two_runs_are_byte_identical() {
    let mut all = empty_all();
    all.tables.push(table_row(Some("public"), "b", "BASE TABLE"));
    all.tables.push(table_row(Some("public"), "a", "BASE TABLE"));
    all.columns.push(column_row(Some("public"), "a", "y", 2, "text"));
    all.columns.push(column_row(Some("public"), "a", "x", 1, "integer"));
    all.columns.push(column_row(Some("public"), "b", "z", 1, "text"));
    all.table_constraints.push(constraint_row(Some("public"), "a_pkey", "a", "PRIMARY KEY"));
    all.constraint_column_usage.push(ccu_row(Some("public"), "a_pkey", "a", "x"));

    let first = render_all(&all);
    let second = render_all(&all);
    assert_eq!(first, second);
}

#[test]
fn tables_are_ordered_by_schema_then_name() {
    let mut all = empty_all();
    all.tables.push(table_row(Some("public"), "z", "BASE TABLE"));
    all.tables.push(table_row(Some("app"), "z", "BASE TABLE"));
    all.tables.push(table_row(Some("app"), "a", "BASE TABLE"));
    let out = render_all(&all);
    assert_eq!(
        out,
        vec![
            "CREATE TABLE \"app\".\"a\" (\n);".to_string(),
            "CREATE TABLE \"app\".\"z\" (\n);".to_string(),
            "CREATE TABLE \"z\" (\n);".to_string(),
        ]
    );
}

#[test]
fn absent_schema_sorts_first() {
    let mut all = empty_all();
    all.tables.push(table_row(Some("app"), "t", "BASE TABLE"));
    all.tables.push(table_row(None, "t", "BASE TABLE"));
    let out = render_all(&all);
    assert_eq!(
        out,
        vec![
            "CREATE TABLE \"t\" (\n);".to_string(),
            "CREATE TABLE \"app\".\"t\" (\n);".to_string(),
        ]
    );
}

#[test]
fn columns_are_ordered_by_ordinal_position() {
    let mut all = empty_all();
    all.tables.push(table_row(Some("public"), "t", "BASE TABLE"));
    all.columns.push(column_row(Some("public"), "t", "zz", 1, "text"));
    all.columns.push(column_row(Some("public"), "t", "aa", 2, "text"));
    let out = render_all(&all);
    assert_eq!(
        out,
        vec!["CREATE TABLE \"t\" (\n\t\"zz\" text,\n\t\"aa\" text\n);".to_string()]
    );
}

#[test]
fn constraints_are_ordered_by_name() {
    let mut all = empty_all();
    all.tables.push(table_row(Some("public"), "t", "BASE TABLE"));
    all.columns.push(column_row(Some("public"), "t", "a", 1, "text"));
    all.columns.push(column_row(Some("public"), "t", "b", 2, "text"));
    all.table_constraints.push(constraint_row(Some("public"), "zz_key", "t", "UNIQUE"));
    all.table_constraints.push(constraint_row(Some("public"), "aa_key", "t", "UNIQUE"));
    all.constraint_column_usage.push(ccu_row(Some("public"), "zz_key", "t", "a"));
    all.constraint_column_usage.push(ccu_row(Some("public"), "aa_key", "t", "b"));
    let out = render_all(&all);
    assert_eq!(
        out,
        vec![
            "CREATE TABLE \"t\" (\n\t\"a\" text,\n\t\"b\" text,\n\tUNIQUE (\"b\"),\n\tUNIQUE (\"a\")\n);"
                .to_string()
        ]
    );
}

#[test]
fn equal_constraint_names_keep_row_order() {
    // The constraint sort is stable: two constraints sharing a name stay
    // in snapshot row order, so the output is still deterministic.
    let mut all = empty_all();
    all.tables.push(table_row(Some("public"), "t", "BASE TABLE"));
    all.columns.push(column_row(Some("public"), "t", "a", 1, "text"));
    all.columns.push(column_row(Some("public"), "t", "b", 2, "text"));
    all.table_constraints.push(constraint_row(Some("public"), "t_key", "t", "UNIQUE"));
    all.table_constraints.push(constraint_row(Some("public"), "t_key", "t", "PRIMARY KEY"));
    // Both constraints resolve the same usage rows, keyed by name.
    all.constraint_column_usage.push(ccu_row(Some("public"), "t_key", "t", "a"));
    let out = render_all(&all);
    assert_eq!(
        out,
        vec![
            "CREATE TABLE \"t\" (\n\t\"a\" text,\n\t\"b\" text,\n\tUNIQUE (\"a\"),\n\tPRIMARY KEY (\"a\")\n);"
                .to_string()
        ]
    );
}

#[test]
fn usage_row_naming_missing_column_is_dropped() {
    let mut all = empty_all();
    all.tables.push(table_row(Some("public"), "t", "BASE TABLE"));
    all.columns.push(column_row(Some("public"), "t", "id", 1, "integer"));
    all.table_constraints.push(constraint_row(Some("public"), "t_pkey", "t", "PRIMARY KEY"));
    all.constraint_column_usage.push(ccu_row(Some("public"), "t_pkey", "t", "id"));
    all.constraint_column_usage.push(ccu_row(Some("public"), "t_pkey", "t", "ghost"));
    let out = render_all(&all);
    assert_eq!(
        out,
        vec!["CREATE TABLE \"t\" (\n\t\"id\" integer,\n\tPRIMARY KEY (\"id\")\n);".to_string()]
    );
}

#[test]
fn columns_attach_to_their_own_table_only() {
    let mut all = empty_all();
    all.tables.push(table_row(Some("public"), "s", "BASE TABLE"));
    all.tables.push(table_row(Some("public"), "t", "BASE TABLE"));
    all.columns.push(column_row(Some("public"), "t", "x", 1, "text"));
    all.columns.push(column_row(Some("other"), "t", "y", 1, "text"));
    all.columns.push(column_row(Some("public"), "s", "w", 1, "text"));
    let out = render_all(&all);
    assert_eq!(
        out,
        vec![
            "CREATE TABLE \"s\" (\n\t\"w\" text\n);".to_string(),
            "CREATE TABLE \"t\" (\n\t\"x\" text\n);".to_string(),
        ]
    );
}

#[test]
fn constraint_schema_scopes_check_clauses() {
    // Two constraints share a name in different schemas; each table keeps
    // only the clauses of its own schema's constraint.
    let mut all = empty_all();
    all.tables.push(table_row(Some("app"), "t", "BASE TABLE"));
    all.columns.push(column_row(Some("app"), "t", "a", 1, "text"));
    {
        let mut c = column_row(Some("app"), "t", "a", 1, "text");
        c.is_nullable = Some(YesNo::No);
        all.columns[0] = c;
    }
    all.table_constraints.push(constraint_row(Some("app"), "c1", "t", "CHECK"));
    all.check_constraints.push(pg_ddl::schema::CheckConstraint {
        constraint_catalog: None,
        constraint_schema: Some("app".to_string()),
        constraint_name: "c1".to_string(),
        check_clause: "\"a\" IS NOT NULL".to_string(),
    });
    all.check_constraints.push(pg_ddl::schema::CheckConstraint {
        constraint_catalog: None,
        constraint_schema: Some("public".to_string()),
        constraint_name: "c1".to_string(),
        check_clause: "a > 0".to_string(),
    });
    let out = render_all(&all);
    // The foreign-schema clause does not attach, so the constraint is
    // wholly explained by the NOT NULL column and suppressed.
    assert_eq!(
        out,
        vec!["CREATE TABLE \"app\".\"t\" (\n\t\"a\" text NOT NULL\n);".to_string()]
    );
}
