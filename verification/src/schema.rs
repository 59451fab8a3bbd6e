//! The metadata snapshot: flat record sets mirroring the catalog views from
//! which a schema is introspected. Pure data; the correlation stage joins
//! these sets into a navigable graph.
use vstd::prelude::*;
use crate::text::{opt_view, str_eq};

pub use crate::yes_no::YesNo;

verus! {

/// The full snapshot: every record set of one introspection run.
#[derive(Clone, Debug)]
pub struct All {
    pub tables: Vec<Table>,
    pub columns: Vec<Column>,
    pub views: Vec<ViewRecord>,
    pub table_constraints: Vec<TableConstraint>,
    pub constraint_column_usage: Vec<ConstraintColumnUsage>,
    pub key_column_usage: Vec<KeyColumnUsage>,
    pub constraint_table_usage: Vec<ConstraintTableUsage>,
    pub element_types: Vec<ElementType>,
    pub check_constraints: Vec<CheckConstraint>,
}

/// One table descriptor.
#[derive(Clone, Debug)]
pub struct Table {
    /// Name of the database that contains the table.
    pub table_catalog: Option<String>,
    /// Name of the schema that contains the table.
    pub table_schema: Option<String>,
    /// Name of the table.
    pub table_name: String,
    /// Kind of the table: `BASE TABLE`, `VIEW`, `FOREIGN`, or `LOCAL TEMPORARY`.
    pub table_type: Option<String>,
    /// Applies to a feature not available in PostgreSQL.
    pub self_referencing_column_name: Option<String>,
    /// Applies to a feature not available in PostgreSQL.
    pub reference_generation: Option<String>,
    /// For a typed table, the database of the underlying data type.
    pub user_defined_type_catalog: Option<String>,
    /// For a typed table, the schema of the underlying data type.
    pub user_defined_type_schema: Option<String>,
    /// For a typed table, the name of the underlying data type.
    pub user_defined_type_name: Option<String>,
    /// `YES` if the table is insertable into.
    pub is_insertable_into: Option<YesNo>,
    /// `YES` if the table is a typed table.
    pub is_typed: Option<YesNo>,
    /// Not yet implemented by PostgreSQL.
    pub commit_action: Option<String>,
}

impl Table {
    /// Whether the table lives in one of the two system schemas, which a
    /// driver must filter out before synthesis.
    pub fn is_system_schema(&self) -> (r: bool)
        ensures
            r == (opt_view(self.table_schema) == Some("pg_catalog"@) || opt_view(
                self.table_schema,
            ) == Some("information_schema"@)),
    {
        match &self.table_schema {
            Some(s) => str_eq(s.as_str(), "pg_catalog") || str_eq(s.as_str(), "information_schema"),
            None => false,
        }
    }
}

/// One view descriptor.
#[derive(Clone, Debug)]
pub struct ViewRecord {
    /// Name of the database that contains the view.
    pub table_catalog: Option<String>,
    /// Name of the schema that contains the view.
    pub table_schema: Option<String>,
    /// Name of the view.
    pub table_name: Option<String>,
    /// Query expression defining the view.
    pub view_definition: Option<String>,
    /// `CASCADED` or `LOCAL` if the view has a check option, else `NONE`.
    pub check_option: Option<String>,
    /// `YES` if the view is updatable.
    pub is_updatable: Option<YesNo>,
    /// `YES` if the view is insertable into.
    pub is_insertable_into: Option<YesNo>,
    /// `YES` if the view has an `INSTEAD OF UPDATE` trigger.
    pub is_trigger_updatable: Option<YesNo>,
    /// `YES` if the view has an `INSTEAD OF DELETE` trigger.
    pub is_trigger_deletable: Option<YesNo>,
    /// `YES` if the view has an `INSTEAD OF INSERT` trigger.
    pub is_trigger_insertable_into: Option<YesNo>,
}

/// One trigger descriptor. The creation instant is held as plain epoch
/// microseconds so the record stays pure data.
#[derive(Clone, Debug)]
pub struct Trigger {
    /// Name of the database that contains the trigger.
    pub trigger_catalog: Option<String>,
    /// Name of the schema that contains the trigger.
    pub trigger_schema: Option<String>,
    /// Name of the trigger.
    pub trigger_name: Option<String>,
    /// Event that fires the trigger: `INSERT`, `UPDATE`, or `DELETE`.
    pub event_manipulation: Option<String>,
    /// Database of the table the trigger is defined on.
    pub event_object_catalog: Option<String>,
    /// Schema of the table the trigger is defined on.
    pub event_object_schema: Option<String>,
    /// Table the trigger is defined on.
    pub event_object_table: Option<String>,
    /// Firing order among like triggers on the same table.
    pub action_order: Option<i32>,
    /// `WHEN` condition of the trigger, if any.
    pub action_condition: Option<String>,
    /// Statement executed by the trigger.
    pub action_statement: Option<String>,
    /// `ROW` or `STATEMENT` firing orientation.
    pub action_orientation: Option<String>,
    /// `BEFORE`, `AFTER`, or `INSTEAD OF`.
    pub action_timing: Option<String>,
    /// Name of the old transition table, if any.
    pub action_reference_old_table: Option<String>,
    /// Name of the new transition table, if any.
    pub action_reference_new_table: Option<String>,
    /// Applies to a feature not available in PostgreSQL.
    pub action_reference_old_row: Option<String>,
    /// Applies to a feature not available in PostgreSQL.
    pub action_reference_new_row: Option<String>,
    /// Creation instant, as microseconds since the Unix epoch.
    pub created: i64,
}

/// One table-constraint descriptor.
#[derive(Clone, Debug)]
pub struct TableConstraint {
    /// Name of the database that contains the constraint.
    pub constraint_catalog: Option<String>,
    /// Name of the schema that contains the constraint.
    pub constraint_schema: Option<String>,
    /// Name of the constraint.
    pub constraint_name: String,
    /// Name of the database that contains the table.
    pub table_catalog: Option<String>,
    /// Name of the schema that contains the table.
    pub table_schema: Option<String>,
    /// Name of the table.
    pub table_name: String,
    /// Kind of the constraint: `CHECK`, `FOREIGN KEY`, `PRIMARY KEY`, or `UNIQUE`.
    pub constraint_type: String,
    /// `YES` if the constraint is deferrable.
    pub is_deferrable: Option<YesNo>,
    /// `YES` if the constraint is deferrable and initially deferred.
    pub initially_deferred: Option<YesNo>,
    /// Applies to a feature not available in PostgreSQL (always `YES`).
    pub enforced: Option<YesNo>,
}

/// One column descriptor.
#[derive(Clone, Debug)]
pub struct Column {
    /// Name of the database containing the table.
    pub table_catalog: Option<String>,
    /// Name of the schema containing the table.
    pub table_schema: Option<String>,
    /// Name of the table.
    pub table_name: String,
    /// Name of the column.
    pub column_name: String,
    /// Ordinal position of the column within the table (count starts at 1).
    pub ordinal_position: i32,
    /// Default expression of the column.
    pub column_default: Option<String>,
    /// `YES` if the column is possibly nullable, `NO` if known not nullable.
    pub is_nullable: Option<YesNo>,
    /// Data type if built-in, `ARRAY` for arrays, else `USER-DEFINED`.
    pub data_type: String,
    /// Declared maximum length for character or bit string types.
    pub character_maximum_length: Option<i32>,
    /// Maximum possible length in octets for character types.
    pub character_octet_length: Option<i32>,
    /// Declared or implicit precision for numeric types.
    pub numeric_precision: Option<i32>,
    /// Base (2 or 10) of `numeric_precision` and `numeric_scale`.
    pub numeric_precision_radix: Option<i32>,
    /// Declared or implicit scale for exact numeric types.
    pub numeric_scale: Option<i32>,
    /// Fractional-seconds precision for date/time types.
    pub datetime_precision: Option<i32>,
    /// Field restriction of an interval type, if any.
    pub interval_type: Option<String>,
    /// Applies to a feature not available in PostgreSQL.
    pub interval_precision: Option<i32>,
    /// Applies to a feature not available in PostgreSQL.
    pub character_set_catalog: Option<String>,
    /// Applies to a feature not available in PostgreSQL.
    pub character_set_schema: Option<String>,
    /// Applies to a feature not available in PostgreSQL.
    pub character_set_name: Option<String>,
    /// Database containing the collation of the column.
    pub collation_catalog: Option<String>,
    /// Schema containing the collation of the column.
    pub collation_schema: Option<String>,
    /// Name of the collation of the column.
    pub collation_name: Option<String>,
    /// For a domain type, the database the domain is defined in.
    pub domain_catalog: Option<String>,
    /// For a domain type, the schema the domain is defined in.
    pub domain_schema: Option<String>,
    /// For a domain type, the name of the domain.
    pub domain_name: Option<String>,
    /// Database the column data type is defined in.
    pub udt_catalog: Option<String>,
    /// Schema the column data type is defined in.
    pub udt_schema: Option<String>,
    /// Name of the column data type.
    pub udt_name: Option<String>,
    /// Applies to a feature not available in PostgreSQL.
    pub scope_catalog: Option<String>,
    /// Applies to a feature not available in PostgreSQL.
    pub scope_schema: Option<String>,
    /// Applies to a feature not available in PostgreSQL.
    pub scope_name: Option<String>,
    /// Always null: arrays have unlimited maximum cardinality here.
    pub maximum_cardinality: Option<i32>,
    /// Identifier of the column's data type descriptor, for joins.
    pub dtd_identifier: Option<String>,
    /// Applies to a feature not available in PostgreSQL.
    pub is_self_referencing: Option<String>,
    /// `YES` if the column is an identity column.
    pub is_identity: Option<YesNo>,
    /// `ALWAYS` or `BY DEFAULT` for identity columns.
    pub identity_generation: Option<String>,
    /// Start value of the identity sequence, if any.
    pub identity_start: Option<String>,
    /// Increment of the identity sequence, if any.
    pub identity_increment: Option<String>,
    /// Maximum of the identity sequence, if any.
    pub identity_maximum: Option<String>,
    /// Minimum of the identity sequence, if any.
    pub identity_minimum: Option<String>,
    /// Whether the identity sequence cycles, if any.
    pub identity_cycle: Option<YesNo>,
    /// `ALWAYS` for generated columns, else `NEVER`.
    pub is_generated: Option<String>,
    /// Generation expression of a generated column, if any.
    pub generation_expression: Option<String>,
    /// `YES` if the column is updatable.
    pub is_updatable: Option<YesNo>,
}

/// Links a constraint to one column it uses.
#[derive(Clone, Debug)]
pub struct ConstraintColumnUsage {
    /// Database of the table containing the used column.
    pub table_catalog: Option<String>,
    /// Schema of the table containing the used column.
    pub table_schema: Option<String>,
    /// Table containing the used column.
    pub table_name: String,
    /// Name of the used column.
    pub column_name: String,
    /// Name of the database that contains the constraint.
    pub constraint_catalog: Option<String>,
    /// Name of the schema that contains the constraint.
    pub constraint_schema: Option<String>,
    /// Name of the constraint.
    pub constraint_name: String,
}

/// Links a key constraint to one column it restricts.
#[derive(Clone, Debug)]
pub struct KeyColumnUsage {
    /// Name of the database that contains the constraint.
    pub constraint_catalog: Option<String>,
    /// Name of the schema that contains the constraint.
    pub constraint_schema: Option<String>,
    /// Name of the constraint.
    pub constraint_name: String,
    /// Database of the table containing the restricted column.
    pub table_catalog: Option<String>,
    /// Schema of the table containing the restricted column.
    pub table_schema: Option<String>,
    /// Table containing the restricted column.
    pub table_name: String,
    /// Name of the restricted column.
    pub column_name: String,
    /// Position of the column within the constraint key (starts at 1).
    pub ordinal_position: i32,
    /// For foreign keys, position of the referenced column.
    pub position_in_unique_constraint: Option<i32>,
}

/// Links a constraint to one table it uses.
#[derive(Clone, Debug)]
pub struct ConstraintTableUsage {
    /// Database of the used table.
    pub table_catalog: Option<String>,
    /// Schema of the used table.
    pub table_schema: Option<String>,
    /// Name of the used table.
    pub table_name: String,
    /// Name of the database that contains the constraint.
    pub constraint_catalog: Option<String>,
    /// Name of the schema that contains the constraint.
    pub constraint_schema: Option<String>,
    /// Name of the constraint.
    pub constraint_name: String,
}

/// The data type descriptor of the elements of an array.
#[derive(Clone, Debug)]
pub struct ElementType {
    /// Database of the object using the array.
    pub object_catalog: Option<String>,
    /// Schema of the object using the array.
    pub object_schema: Option<String>,
    /// Name of the object using the array.
    pub object_name: String,
    /// Kind of that object: `TABLE`, `USER-DEFINED TYPE`, `DOMAIN`, or `ROUTINE`.
    pub object_type: String,
    /// Identifier of the array's data type descriptor, for joins.
    pub collection_type_identifier: Option<String>,
    /// Data type of the elements if built-in, else `USER-DEFINED`.
    pub data_type: Option<String>,
    /// Always null for array element types here.
    pub character_maximum_length: Option<i32>,
    /// Always null for array element types here.
    pub character_octet_length: Option<i32>,
    /// Applies to a feature not available in PostgreSQL.
    pub character_set_catalog: Option<String>,
    /// Applies to a feature not available in PostgreSQL.
    pub character_set_schema: Option<String>,
    /// Applies to a feature not available in PostgreSQL.
    pub character_set_name: Option<String>,
    /// Database containing the collation of the element type.
    pub collation_catalog: Option<String>,
    /// Schema containing the collation of the element type.
    pub collation_schema: Option<String>,
    /// Name of the collation of the element type.
    pub collation_name: Option<String>,
    /// Always null for array element types here.
    pub numeric_precision: Option<i32>,
    /// Always null for array element types here.
    pub numeric_precision_radix: Option<i32>,
    /// Always null for array element types here.
    pub numeric_scale: Option<i32>,
    /// Always null for array element types here.
    pub datetime_precision: Option<i32>,
    /// Always null for array element types here.
    pub interval_type: Option<String>,
    /// Always null for array element types here.
    pub interval_precision: Option<i32>,
    /// Not yet implemented by PostgreSQL.
    pub domain_default: Option<String>,
    /// Database the element data type is defined in.
    pub udt_catalog: Option<String>,
    /// Schema the element data type is defined in.
    pub udt_schema: Option<String>,
    /// Name of the element data type.
    pub udt_name: Option<String>,
    /// Applies to a feature not available in PostgreSQL.
    pub scope_catalog: Option<String>,
    /// Applies to a feature not available in PostgreSQL.
    pub scope_schema: Option<String>,
    /// Applies to a feature not available in PostgreSQL.
    pub scope_name: Option<String>,
    /// Always null: arrays have unlimited maximum cardinality here.
    pub maximum_cardinality: Option<i32>,
    /// Identifier of the element's data type descriptor.
    pub dtd_identifier: Option<String>,
}

/// One check-constraint clause.
#[derive(Clone, Debug)]
pub struct CheckConstraint {
    /// Name of the database containing the constraint.
    pub constraint_catalog: Option<String>,
    /// Name of the schema containing the constraint.
    pub constraint_schema: Option<String>,
    /// Name of the constraint.
    pub constraint_name: String,
    /// The check expression of the check constraint.
    pub check_clause: String,
}

} // verus!
