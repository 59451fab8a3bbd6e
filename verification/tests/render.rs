use pg_ddl::ddl::{self, DdlError};
use pg_ddl::ir;
use pg_ddl::schema::{
    All, CheckConstraint, Column, ConstraintColumnUsage, ConstraintTableUsage, ElementType, Table,
    TableConstraint,
};
use pg_ddl::yes_no::YesNo;

fn empty_all() -> All {
    All {
        tables: vec![],
        columns: vec![],
        views: vec![],
        table_constraints: vec![],
        constraint_column_usage: vec![],
        key_column_usage: vec![],
        constraint_table_usage: vec![],
        element_types: vec![],
        check_constraints: vec![],
    }
}

fn table_row(schema: Option<&str>, name: &str, kind: &str) -> Table {
    Table {
        table_catalog: None,
        table_schema: schema.map(|s| s.to_string()),
        table_name: name.to_string(),
        table_type: Some(kind.to_string()),
        self_referencing_column_name: None,
        reference_generation: None,
        user_defined_type_catalog: None,
        user_defined_type_schema: None,
        user_defined_type_name: None,
        is_insertable_into: None,
        is_typed: None,
        commit_action: None,
    }
}

#[allow(clippy::too_many_arguments)]
fn column_row(
    schema: Option<&str>,
    table: &str,
    name: &str,
    ordinal: i32,
    data_type: &str,
    default: Option<&str>,
    nullable: Option<YesNo>,
    dtd: Option<&str>,
) -> Column {
    Column {
        table_catalog: None,
        table_schema: schema.map(|s| s.to_string()),
        table_name: table.to_string(),
        column_name: name.to_string(),
        ordinal_position: ordinal,
        column_default: default.map(|s| s.to_string()),
        is_nullable: nullable,
        data_type: data_type.to_string(),
        character_maximum_length: None,
        character_octet_length: None,
        numeric_precision: None,
        numeric_precision_radix: None,
        numeric_scale: None,
        datetime_precision: None,
        interval_type: None,
        interval_precision: None,
        character_set_catalog: None,
        character_set_schema: None,
        character_set_name: None,
        collation_catalog: None,
        collation_schema: None,
        collation_name: None,
        domain_catalog: None,
        domain_schema: None,
        domain_name: None,
        udt_catalog: None,
        udt_schema: None,
        udt_name: None,
        scope_catalog: None,
        scope_schema: None,
        scope_name: None,
        maximum_cardinality: None,
        dtd_identifier: dtd.map(|s| s.to_string()),
        is_self_referencing: None,
        is_identity: None,
        identity_generation: None,
        identity_start: None,
        identity_increment: None,
        identity_maximum: None,
        identity_minimum: None,
        identity_cycle: None,
        is_generated: None,
        generation_expression: None,
        is_updatable: None,
    }
}

fn constraint_row(schema: Option<&str>, name: &str, table: &str, kind: &str) -> TableConstraint {
    TableConstraint {
        constraint_catalog: None,
        constraint_schema: schema.map(|s| s.to_string()),
        constraint_name: name.to_string(),
        table_catalog: None,
        table_schema: schema.map(|s| s.to_string()),
        table_name: table.to_string(),
        constraint_type: kind.to_string(),
        is_deferrable: None,
        initially_deferred: None,
        enforced: None,
    }
}

fn ccu_row(schema: Option<&str>, constraint: &str, table: &str, column: &str) -> ConstraintColumnUsage {
    ConstraintColumnUsage {
        table_catalog: None,
        table_schema: schema.map(|s| s.to_string()),
        table_name: table.to_string(),
        column_name: column.to_string(),
        constraint_catalog: None,
        constraint_schema: schema.map(|s| s.to_string()),
        constraint_name: constraint.to_string(),
    }
}

fn ctu_row(schema: Option<&str>, constraint: &str, table: &str) -> ConstraintTableUsage {
    ConstraintTableUsage {
        table_catalog: None,
        table_schema: schema.map(|s| s.to_string()),
        table_name: table.to_string(),
        constraint_catalog: None,
        constraint_schema: schema.map(|s| s.to_string()),
        constraint_name: constraint.to_string(),
    }
}

fn element_row(
    schema: Option<&str>,
    object: &str,
    object_type: &str,
    dtd: Option<&str>,
    data_type: Option<&str>,
) -> ElementType {
    ElementType {
        object_catalog: None,
        object_schema: schema.map(|s| s.to_string()),
        object_name: object.to_string(),
        object_type: object_type.to_string(),
        collection_type_identifier: dtd.map(|s| s.to_string()),
        data_type: data_type.map(|s| s.to_string()),
        character_maximum_length: None,
        character_octet_length: None,
        character_set_catalog: None,
        character_set_schema: None,
        character_set_name: None,
        collation_catalog: None,
        collation_schema: None,
        collation_name: None,
        numeric_precision: None,
        numeric_precision_radix: None,
        numeric_scale: None,
        datetime_precision: None,
        interval_type: None,
        interval_precision: None,
        domain_default: None,
        udt_catalog: None,
        udt_schema: None,
        udt_name: None,
        scope_catalog: None,
        scope_schema: None,
        scope_name: None,
        maximum_cardinality: None,
        dtd_identifier: None,
    }
}

fn check_row(schema: Option<&str>, constraint: &str, clause: &str) -> CheckConstraint {
    CheckConstraint {
        constraint_catalog: None,
        constraint_schema: schema.map(|s| s.to_string()),
        constraint_name: constraint.to_string(),
        check_clause: clause.to_string(),
    }
}

fn render_only_table(all: &All) -> Result<String, DdlError> {
    let graph = ir::get_all(all);
    assert_eq!(graph.tables.len(), all.tables.len());
    ddl::table(all, &graph.tables[0])
}

#[test]
fn end_to_end_users_table() {
    let mut all = empty_all();
    all.tables.push(table_row(Some("public"), "users", "BASE TABLE"));
    all.columns.push(column_row(
        Some("public"),
        "users",
        "id",
        1,
        "integer",
        Some("nextval('users_id_seq'::regclass)"),
        Some(YesNo::No),
        None,
    ));
    all.columns.push(column_row(
        Some("public"),
        "users",
        "email",
        2,
        "text",
        None,
        Some(YesNo::No),
        None,
    ));
    all.table_constraints.push(constraint_row(Some("public"), "users_pkey", "users", "PRIMARY KEY"));
    all.constraint_column_usage.push(ccu_row(Some("public"), "users_pkey", "users", "id"));
    all.constraint_table_usage.push(ctu_row(Some("public"), "users_pkey", "users"));

    let text = render_only_table(&all).unwrap();
    assert_eq!(
        text,
        "CREATE TABLE \"users\" (\n\t\"id\" serial NOT NULL,\n\t\"email\" text NOT NULL,\n\tPRIMARY KEY (\"id\")\n);"
    );
}

#[test]
fn default_schema_is_omitted() {
    let mut all = empty_all();
    all.tables.push(table_row(Some("public"), "t", "BASE TABLE"));
    all.columns.push(column_row(Some("public"), "t", "x", 1, "text", None, None, None));
    let text = render_only_table(&all).unwrap();
    assert_eq!(text, "CREATE TABLE \"t\" (\n\t\"x\" text\n);");
}

#[test]
fn other_schema_is_qualified() {
    let mut all = empty_all();
    all.tables.push(table_row(Some("app"), "t", "BASE TABLE"));
    all.columns.push(column_row(Some("app"), "t", "x", 1, "text", None, None, None));
    let text = render_only_table(&all).unwrap();
    assert_eq!(text, "CREATE TABLE \"app\".\"t\" (\n\t\"x\" text\n);");
}

#[test]
fn absent_schema_renders_bare_name() {
    let mut all = empty_all();
    all.tables.push(table_row(None, "t", "BASE TABLE"));
    all.columns.push(column_row(None, "t", "x", 1, "text", None, None, None));
    let text = render_only_table(&all).unwrap();
    assert_eq!(text, "CREATE TABLE \"t\" (\n\t\"x\" text\n);");
}

#[test]
fn serial_detected_on_owning_table() {
    let mut all = empty_all();
    all.tables.push(table_row(Some("public"), "orders", "BASE TABLE"));
    all.columns.push(column_row(
        Some("public"),
        "orders",
        "id",
        1,
        "integer",
        Some("nextval('orders_id_seq'::regclass)"),
        None,
        None,
    ));
    let text = render_only_table(&all).unwrap();
    assert_eq!(text, "CREATE TABLE \"orders\" (\n\t\"id\" serial\n);");
}

#[test]
fn serial_not_detected_on_other_table() {
    let mut all = empty_all();
    all.tables.push(table_row(Some("public"), "shipments", "BASE TABLE"));
    all.columns.push(column_row(
        Some("public"),
        "shipments",
        "id",
        1,
        "integer",
        Some("nextval('orders_id_seq'::regclass)"),
        None,
        None,
    ));
    let text = render_only_table(&all).unwrap();
    assert_eq!(
        text,
        "CREATE TABLE \"shipments\" (\n\t\"id\" integer DEFAULT nextval('orders_id_seq'::regclass)\n);"
    );
}

#[test]
fn serial_needs_integer_type() {
    let mut all = empty_all();
    all.tables.push(table_row(Some("public"), "orders", "BASE TABLE"));
    all.columns.push(column_row(
        Some("public"),
        "orders",
        "id",
        1,
        "bigint",
        Some("nextval('orders_id_seq'::regclass)"),
        None,
        None,
    ));
    let text = render_only_table(&all).unwrap();
    assert_eq!(
        text,
        "CREATE TABLE \"orders\" (\n\t\"id\" bigint DEFAULT nextval('orders_id_seq'::regclass)\n);"
    );
}

#[test]
fn nullability_tri_state() {
    let mut all = empty_all();
    all.tables.push(table_row(Some("public"), "t", "BASE TABLE"));
    all.columns.push(column_row(Some("public"), "t", "a", 1, "text", None, Some(YesNo::No), None));
    all.columns.push(column_row(Some("public"), "t", "b", 2, "text", None, Some(YesNo::Yes), None));
    all.columns.push(column_row(Some("public"), "t", "c", 3, "text", None, None, None));
    let text = render_only_table(&all).unwrap();
    assert_eq!(
        text,
        "CREATE TABLE \"t\" (\n\t\"a\" text NOT NULL,\n\t\"b\" text,\n\t\"c\" text\n);"
    );
}

#[test]
fn array_renders_element_type() {
    let mut all = empty_all();
    all.tables.push(table_row(Some("public"), "t", "BASE TABLE"));
    all.columns.push(column_row(Some("public"), "t", "tags", 1, "ARRAY", None, None, Some("1")));
    all.element_types.push(element_row(Some("public"), "t", "TABLE", Some("1"), Some("text")));
    let text = render_only_table(&all).unwrap();
    assert_eq!(text, "CREATE TABLE \"t\" (\n\t\"tags\" []text\n);");
}

#[test]
fn array_without_element_type_fails() {
    let mut all = empty_all();
    all.tables.push(table_row(Some("public"), "t", "BASE TABLE"));
    all.columns.push(column_row(Some("public"), "t", "tags", 1, "ARRAY", None, None, Some("1")));
    let err = render_only_table(&all).unwrap_err();
    assert_eq!(err, DdlError::MissingElementType);
}

#[test]
fn array_element_join_requires_table_object() {
    let mut all = empty_all();
    all.tables.push(table_row(Some("public"), "t", "BASE TABLE"));
    all.columns.push(column_row(Some("public"), "t", "tags", 1, "ARRAY", None, None, Some("1")));
    all.element_types.push(element_row(Some("public"), "t", "DOMAIN", Some("1"), Some("text")));
    let err = render_only_table(&all).unwrap_err();
    assert_eq!(err, DdlError::MissingElementType);
}

#[test]
fn array_element_without_data_type_fails() {
    let mut all = empty_all();
    all.tables.push(table_row(Some("public"), "t", "BASE TABLE"));
    all.columns.push(column_row(Some("public"), "t", "tags", 1, "ARRAY", None, None, Some("1")));
    all.element_types.push(element_row(Some("public"), "t", "TABLE", Some("1"), None));
    let err = render_only_table(&all).unwrap_err();
    assert_eq!(err, DdlError::MissingElementType);
}

#[test]
fn user_defined_column_fails_table() {
    let mut all = empty_all();
    all.tables.push(table_row(Some("public"), "t", "BASE TABLE"));
    all.columns.push(column_row(Some("public"), "t", "x", 1, "USER-DEFINED", None, None, None));
    let err = render_only_table(&all).unwrap_err();
    assert_eq!(err, DdlError::UnsupportedColumnType);
}

#[test]
fn view_is_rejected() {
    let mut all = empty_all();
    all.tables.push(table_row(Some("public"), "v", "VIEW"));
    let err = render_only_table(&all).unwrap_err();
    assert_eq!(err, DdlError::UnsupportedTableKind);
}

#[test]
fn missing_table_type_is_rejected() {
    let mut all = empty_all();
    let mut row = table_row(Some("public"), "t", "BASE TABLE");
    row.table_type = None;
    all.tables.push(row);
    let err = render_only_table(&all).unwrap_err();
    assert_eq!(err, DdlError::UnsupportedTableKind);
}

#[test]
fn redundant_check_is_suppressed() {
    let mut all = empty_all();
    all.tables.push(table_row(Some("public"), "t", "BASE TABLE"));
    all.columns.push(column_row(Some("public"), "t", "a", 1, "text", None, Some(YesNo::No), None));
    all.columns.push(column_row(Some("public"), "t", "b", 2, "text", None, Some(YesNo::No), None));
    all.table_constraints.push(constraint_row(Some("public"), "t_not_null", "t", "CHECK"));
    all.check_constraints.push(check_row(Some("public"), "t_not_null", "\"a\" IS NOT NULL"));
    all.check_constraints.push(check_row(Some("public"), "t_not_null", "\"b\" IS NOT NULL"));
    let text = render_only_table(&all).unwrap();
    assert_eq!(
        text,
        "CREATE TABLE \"t\" (\n\t\"a\" text NOT NULL,\n\t\"b\" text NOT NULL\n);"
    );
}

#[test]
fn check_with_other_clause_is_not_suppressed() {
    // A CHECK whose clauses are not all explained by NOT NULL columns is
    // kept for constraint rendering; a kept CHECK has no rendering, so it
    // is skipped there rather than silently suppressed, and the output
    // holds the columns alone either way.
    let mut all = empty_all();
    all.tables.push(table_row(Some("public"), "t", "BASE TABLE"));
    all.columns.push(column_row(Some("public"), "t", "a", 1, "integer", None, Some(YesNo::No), None));
    all.table_constraints.push(constraint_row(Some("public"), "t_check", "t", "CHECK"));
    all.check_constraints.push(check_row(Some("public"), "t_check", "\"a\" IS NOT NULL"));
    all.check_constraints.push(check_row(Some("public"), "t_check", "a > 0"));
    let text = render_only_table(&all).unwrap();
    assert_eq!(text, "CREATE TABLE \"t\" (\n\t\"a\" integer NOT NULL\n);");
}

#[test]
fn unique_constraint_renders_columns_in_order() {
    let mut all = empty_all();
    all.tables.push(table_row(Some("public"), "t", "BASE TABLE"));
    all.columns.push(column_row(Some("public"), "t", "a", 1, "text", None, None, None));
    all.columns.push(column_row(Some("public"), "t", "b", 2, "text", None, None, None));
    all.table_constraints.push(constraint_row(Some("public"), "t_ab_key", "t", "UNIQUE"));
    // Usage rows arrive out of ordinal order; the resolved list is sorted.
    all.constraint_column_usage.push(ccu_row(Some("public"), "t_ab_key", "t", "b"));
    all.constraint_column_usage.push(ccu_row(Some("public"), "t_ab_key", "t", "a"));
    let text = render_only_table(&all).unwrap();
    assert_eq!(
        text,
        "CREATE TABLE \"t\" (\n\t\"a\" text,\n\t\"b\" text,\n\tUNIQUE (\"a\", \"b\")\n);"
    );
}

#[test]
fn foreign_key_is_skipped() {
    let mut all = empty_all();
    all.tables.push(table_row(Some("public"), "t", "BASE TABLE"));
    all.columns.push(column_row(Some("public"), "t", "x", 1, "integer", None, None, None));
    all.table_constraints.push(constraint_row(Some("public"), "t_x_fkey", "t", "FOREIGN KEY"));
    all.constraint_column_usage.push(ccu_row(Some("public"), "t_x_fkey", "t", "x"));
    let text = render_only_table(&all).unwrap();
    assert_eq!(text, "CREATE TABLE \"t\" (\n\t\"x\" integer\n);");
}

#[test]
fn empty_table_renders_empty_body() {
    let mut all = empty_all();
    all.tables.push(table_row(Some("public"), "t", "BASE TABLE"));
    let text = render_only_table(&all).unwrap();
    assert_eq!(text, "CREATE TABLE \"t\" (\n);");
}

#[test]
fn quoting_is_verbatim() {
    let mut all = empty_all();
    all.tables.push(table_row(Some("public"), "Order Items", "BASE TABLE"));
    all.columns
        .push(column_row(Some("public"), "Order Items", "Unit Price", 1, "numeric", None, None, None));
    let text = render_only_table(&all).unwrap();
    assert_eq!(
        text,
        "CREATE TABLE \"Order Items\" (\n\t\"Unit Price\" numeric\n);"
    );
}
