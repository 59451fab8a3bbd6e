use pg_ddl::schema::Table;
use pg_ddl::yes_no::YesNo;

fn table_in(schema: Option<&str>) -> Table {
    Table {
        table_catalog: None,
        table_schema: schema.map(|s| s.to_string()),
        table_name: "t".to_string(),
        table_type: Some("BASE TABLE".to_string()),
        self_referencing_column_name: None,
        reference_generation: None,
        user_defined_type_catalog: None,
        user_defined_type_schema: None,
        user_defined_type_name: None,
        is_insertable_into: None,
        is_typed: None,
        commit_action: None,
    }
}

#[test]
fn yes_no_decode() {
    assert!(matches!(YesNo::decode("YES"), Some(YesNo::Yes)));
    assert!(matches!(YesNo::decode("NO"), Some(YesNo::No)));
    assert!(YesNo::decode("yes").is_none());
    assert!(YesNo::decode("maybe").is_none());
    assert!(YesNo::decode("").is_none());
}

#[test]
fn yes_no_predicates() {
    assert!(YesNo::Yes.is_yes());
    assert!(!YesNo::Yes.is_no());
    assert!(YesNo::No.is_no());
    assert!(!YesNo::No.is_yes());
}

#[test]
fn yes_no_default_is_no() {
    assert!(YesNo::default().is_no());
}

#[test]
fn system_schemas_are_recognized() {
    assert!(table_in(Some("pg_catalog")).is_system_schema());
    assert!(table_in(Some("information_schema")).is_system_schema());
    assert!(!table_in(Some("public")).is_system_schema());
    assert!(!table_in(Some("app")).is_system_schema());
    assert!(!table_in(None).is_system_schema());
}
