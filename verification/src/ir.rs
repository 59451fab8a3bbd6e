//! Correlation: joins the flat snapshot record sets into a navigable graph.
//!
//! Nodes of the graph reference snapshot rows by index into the snapshot's
//! own vectors (arena-and-index instead of borrowed pointers), so the
//! snapshot outlives and fully determines the graph. `get_all` builds every
//! table node: its columns sorted by ordinal position, its constraints
//! sorted by constraint name, and the tables themselves sorted by
//! (schema, name), so a run over the same snapshot is reproducible.
use vstd::prelude::*;
use crate::order::{
    ins_ins, ins_sort, kv3_le, kv_le, lemma_ins_sort_map, sel, Kv,
};
use crate::schema;
use crate::text::{opt_str_eq, opt_view, str_eq};

verus! {

/// A correlated column: a snapshot column row plus its resolved array
/// element type, if any matched.
#[derive(Clone, Copy, Debug)]
pub struct Column {
    /// Index of the column row in the snapshot.
    pub column: usize,
    /// Index of the resolved element-type row in the snapshot.
    pub element_type: Option<usize>,
}

/// A correlated check clause.
#[derive(Clone, Copy, Debug)]
pub struct CheckConstraint {
    /// Index of the check-constraint row in the snapshot.
    pub check_constraint: usize,
}

/// A correlated table constraint: the snapshot constraint row plus its
/// resolved columns, referenced tables, and check clauses.
#[derive(Clone, Debug)]
pub struct TableConstraint {
    /// Index of the table-constraint row in the snapshot.
    pub table_constraint: usize,
    /// Resolved check clauses, sorted by constraint name.
    pub check_constraints: Vec<CheckConstraint>,
    /// Resolved constrained columns, sorted by (schema, table, ordinal).
    pub columns: Vec<Column>,
    /// Indices of the snapshot tables the constraint touches, sorted by
    /// (schema, name); expected to be a singleton except for foreign keys.
    pub tables: Vec<usize>,
}

/// A correlated table: the snapshot table row plus its columns and
/// constraints.
#[derive(Clone, Debug)]
pub struct Table {
    /// Index of the table row in the snapshot.
    pub table: usize,
    /// The table's constraints, sorted by constraint name.
    pub table_constraints: Vec<TableConstraint>,
    /// The table's columns, sorted by ordinal position.
    pub columns: Vec<Column>,
}

/// The correlated graph over one snapshot: every table, sorted by
/// (schema, name).
#[derive(Clone, Debug)]
pub struct All {
    pub tables: Vec<Table>,
}

// ------------------------------------------------------------------
// Ghost views of the graph nodes, with vectors abstracted to sequences.
// ------------------------------------------------------------------

/// The mathematical content of a correlated constraint.
#[verifier::ext_equal]
pub struct ConstraintView {
    pub constraint: usize,
    pub columns: Seq<Column>,
    pub tables: Seq<usize>,
    pub checks: Seq<CheckConstraint>,
}

/// The mathematical content of a correlated table.
#[verifier::ext_equal]
pub struct TableView {
    pub table: usize,
    pub columns: Seq<Column>,
    pub constraints: Seq<ConstraintView>,
}

pub open spec fn constraint_view(c: TableConstraint) -> ConstraintView {
    ConstraintView {
        constraint: c.table_constraint,
        columns: c.columns@,
        tables: c.tables@,
        checks: c.check_constraints@,
    }
}

pub open spec fn table_view(t: Table) -> TableView {
    TableView {
        table: t.table,
        columns: t.columns@,
        constraints: t.table_constraints@.map_values(|c: TableConstraint| constraint_view(c)),
    }
}

pub open spec fn ir_view(a: All) -> Seq<TableView> {
    a.tables@.map_values(|t: Table| table_view(t))
}

// ------------------------------------------------------------------
// Well-formedness: every held index is in bounds for the snapshot.
// ------------------------------------------------------------------

pub open spec fn wf_column(all: schema::All, c: Column) -> bool {
    &&& c.column < all.columns@.len()
    &&& match c.element_type {
        Some(e) => e < all.element_types@.len(),
        None => true,
    }
}

pub open spec fn wf_constraint_view(all: schema::All, c: ConstraintView) -> bool {
    &&& c.constraint < all.table_constraints@.len()
    &&& forall|i: int| 0 <= i < c.columns.len() ==> wf_column(all, #[trigger] c.columns[i])
    &&& forall|i: int| 0 <= i < c.tables.len() ==> (#[trigger] c.tables[i]) < all.tables@.len()
    &&& forall|i: int|
        0 <= i < c.checks.len() ==> (#[trigger] c.checks[i]).check_constraint
            < all.check_constraints@.len()
}

pub open spec fn wf_table_view(all: schema::All, t: TableView) -> bool {
    &&& t.table < all.tables@.len()
    &&& forall|i: int| 0 <= i < t.columns.len() ==> wf_column(all, #[trigger] t.columns[i])
    &&& forall|i: int|
        0 <= i < t.constraints.len() ==> wf_constraint_view(all, #[trigger] t.constraints[i])
}

// ------------------------------------------------------------------
// Sort keys and orders.
// ------------------------------------------------------------------

/// The sort key of a correlated column: its table's schema and name, then
/// the column's ordinal position.
pub open spec fn column_key(all: schema::All, c: Column) -> Kv {
    let row = all.columns@[c.column as int];
    Kv {
        schema: opt_view(row.table_schema),
        name: row.table_name@,
        pos: row.ordinal_position as int,
    }
}

pub open spec fn column_le(all: schema::All) -> spec_fn(Column, Column) -> bool {
    |a: Column, b: Column| kv_le(column_key(all, a), column_key(all, b))
}

/// The sort key of a correlated constraint: its name.
pub open spec fn constraint_key(all: schema::All, c: ConstraintView) -> Kv {
    Kv {
        schema: None,
        name: all.table_constraints@[c.constraint as int].constraint_name@,
        pos: 0,
    }
}

pub open spec fn constraint_view_le(all: schema::All) -> spec_fn(
    ConstraintView,
    ConstraintView,
) -> bool {
    |a: ConstraintView, b: ConstraintView| kv_le(constraint_key(all, a), constraint_key(all, b))
}

pub open spec fn constraint_le(all: schema::All) -> spec_fn(
    TableConstraint,
    TableConstraint,
) -> bool {
    |a: TableConstraint, b: TableConstraint| kv_le(
        constraint_key(all, constraint_view(a)),
        constraint_key(all, constraint_view(b)),
    )
}

/// The sort key of a referenced snapshot table: its schema and name.
pub open spec fn table_ref_key(all: schema::All, t: usize) -> Kv {
    let row = all.tables@[t as int];
    Kv { schema: opt_view(row.table_schema), name: row.table_name@, pos: 0 }
}

pub open spec fn table_ref_le(all: schema::All) -> spec_fn(usize, usize) -> bool {
    |a: usize, b: usize| kv_le(table_ref_key(all, a), table_ref_key(all, b))
}

/// The sort key of a correlated check clause: its constraint name.
pub open spec fn check_key(all: schema::All, c: CheckConstraint) -> Kv {
    Kv {
        schema: None,
        name: all.check_constraints@[c.check_constraint as int].constraint_name@,
        pos: 0,
    }
}

pub open spec fn check_le(all: schema::All) -> spec_fn(CheckConstraint, CheckConstraint) -> bool {
    |a: CheckConstraint, b: CheckConstraint| kv_le(check_key(all, a), check_key(all, b))
}

pub open spec fn table_view_le(all: schema::All) -> spec_fn(TableView, TableView) -> bool {
    |a: TableView, b: TableView| kv_le(table_ref_key(all, a.table), table_ref_key(all, b.table))
}

pub open spec fn ir_table_le(all: schema::All) -> spec_fn(Table, Table) -> bool {
    |a: Table, b: Table| kv_le(table_ref_key(all, a.table), table_ref_key(all, b.table))
}

// ------------------------------------------------------------------
// First-match search.
// ------------------------------------------------------------------

/// Index of the first element of `s` at or after `i` satisfying `p`.
pub open spec fn find_from<P>(p: spec_fn(P) -> bool, s: Seq<P>, i: int) -> Option<int>
    decreases s.len() - i,
{
    if i < 0 || i >= s.len() {
        None
    } else if p(s[i]) {
        Some(i)
    } else {
        find_from(p, s, i + 1)
    }
}

/// Index of the first element of `s` satisfying `p`.
pub open spec fn find_index<P>(p: spec_fn(P) -> bool, s: Seq<P>) -> Option<int> {
    find_from(p, s, 0)
}

// ------------------------------------------------------------------
// The correlation model: what each piece of the graph must equal.
// ------------------------------------------------------------------

/// Whether an element-type row describes the array elements of column `c`:
/// the join is on (object schema, object name, object type `TABLE`, type
/// descriptor id).
pub open spec fn element_row_matches(all: schema::All, row: schema::ElementType, c: int) -> bool {
    let col = all.columns@[c];
    &&& opt_view(row.object_schema) == opt_view(col.table_schema)
    &&& row.object_name@ == col.table_name@
    &&& row.object_type@ == "TABLE"@
    &&& opt_view(row.collection_type_identifier) == opt_view(col.dtd_identifier)
}

/// The first element-type row matching column `c`, if any.
pub open spec fn element_for(all: schema::All, c: int) -> Option<usize> {
    match find_index(
        |row: schema::ElementType| element_row_matches(all, row, c),
        all.element_types@,
    ) {
        Some(i) => Some(i as usize),
        None => None,
    }
}

/// One correlated column per snapshot column row, in row order.
pub open spec fn unsorted_columns(all: schema::All) -> Seq<Column> {
    Seq::new(
        all.columns@.len(),
        |i: int| Column { column: i as usize, element_type: element_for(all, i) },
    )
}

/// All correlated columns, sorted by (schema, table, ordinal).
pub open spec fn correlated_columns(all: schema::All) -> Seq<Column> {
    ins_sort(column_le(all), unsorted_columns(all))
}

/// Whether a usage row names the constraint of snapshot row `j`, by
/// (constraint schema, constraint name).
pub open spec fn usage_names_constraint(
    all: schema::All,
    u_schema: Option<String>,
    u_name: String,
    j: int,
) -> bool {
    let crow = all.table_constraints@[j];
    opt_view(u_schema) == opt_view(crow.constraint_schema) && u_name@ == crow.constraint_name@
}

/// Whether correlated column `c` is the column a usage row names, by
/// (table schema, table name, column name).
pub open spec fn column_named(all: schema::All, c: Column, u: schema::ConstraintColumnUsage) -> bool {
    let row = all.columns@[c.column as int];
    &&& opt_view(row.table_schema) == opt_view(u.table_schema)
    &&& row.table_name@ == u.table_name@
    &&& row.column_name@ == u.column_name@
}

/// The first correlated column matching a column-usage row, if any; a miss
/// is a correlation anomaly and the row is dropped.
pub open spec fn resolve_usage_column(
    all: schema::All,
    cols: Seq<Column>,
    u: schema::ConstraintColumnUsage,
) -> Option<Column> {
    match find_index(|c: Column| column_named(all, c, u), cols) {
        Some(i) => Some(cols[i]),
        None => None,
    }
}

/// Whether snapshot table `t` is the table a table-usage row names.
pub open spec fn table_named(all: schema::All, t: int, u: schema::ConstraintTableUsage) -> bool {
    let row = all.tables@[t];
    opt_view(row.table_schema) == opt_view(u.table_schema) && row.table_name@ == u.table_name@
}

/// The first snapshot table matching a table-usage row, if any.
pub open spec fn resolve_usage_table(all: schema::All, u: schema::ConstraintTableUsage) -> Option<
    usize,
> {
    match find_index(|i: int| table_named(all, i, u), Seq::new(all.tables@.len(), |i: int| i)) {
        Some(i) => Some(i as usize),
        None => None,
    }
}

/// The columns resolved for constraint `j` from the first `n` column-usage
/// rows, in row order, anomalies dropped.
pub open spec fn constraint_columns_unsorted(
    all: schema::All,
    cols: Seq<Column>,
    j: int,
    n: int,
) -> Seq<Column>
    decreases n,
{
    if n <= 0 {
        Seq::empty()
    } else {
        let prev = constraint_columns_unsorted(all, cols, j, n - 1);
        let u = all.constraint_column_usage@[n - 1];
        if usage_names_constraint(all, u.constraint_schema, u.constraint_name, j) {
            match resolve_usage_column(all, cols, u) {
                Some(c) => prev.push(c),
                None => prev,
            }
        } else {
            prev
        }
    }
}

/// The tables resolved for constraint `j` from the first `n` table-usage
/// rows, in row order, anomalies dropped.
pub open spec fn constraint_tables_unsorted(all: schema::All, j: int, n: int) -> Seq<usize>
    decreases n,
{
    if n <= 0 {
        Seq::empty()
    } else {
        let prev = constraint_tables_unsorted(all, j, n - 1);
        let u = all.constraint_table_usage@[n - 1];
        if usage_names_constraint(all, u.constraint_schema, u.constraint_name, j) {
            match resolve_usage_table(all, u) {
                Some(t) => prev.push(t),
                None => prev,
            }
        } else {
            prev
        }
    }
}

/// The check clauses of constraint `j` among the first `n` check rows, in
/// row order.
pub open spec fn constraint_checks_unsorted(all: schema::All, j: int, n: int) -> Seq<
    CheckConstraint,
>
    decreases n,
{
    if n <= 0 {
        Seq::empty()
    } else {
        let prev = constraint_checks_unsorted(all, j, n - 1);
        let row = all.check_constraints@[n - 1];
        if usage_names_constraint(all, row.constraint_schema, row.constraint_name, j) {
            prev.push(CheckConstraint { check_constraint: (n - 1) as usize })
        } else {
            prev
        }
    }
}

/// The fully correlated constraint for snapshot row `j`, given the
/// correlated columns.
pub open spec fn correlated_constraint(all: schema::All, cols: Seq<Column>, j: int) -> ConstraintView {
    ConstraintView {
        constraint: j as usize,
        columns: ins_sort(
            column_le(all),
            constraint_columns_unsorted(all, cols, j, all.constraint_column_usage@.len() as int),
        ),
        tables: ins_sort(
            table_ref_le(all),
            constraint_tables_unsorted(all, j, all.constraint_table_usage@.len() as int),
        ),
        checks: ins_sort(
            check_le(all),
            constraint_checks_unsorted(all, j, all.check_constraints@.len() as int),
        ),
    }
}

/// One correlated constraint per snapshot constraint row, in row order.
pub open spec fn correlated_constraints(all: schema::All, cols: Seq<Column>) -> Seq<ConstraintView> {
    Seq::new(all.table_constraints@.len(), |j: int| correlated_constraint(all, cols, j))
}

/// Whether correlated column `c` belongs to snapshot table `i`, by
/// (schema, table name).
pub open spec fn column_on_table(all: schema::All, c: Column, i: int) -> bool {
    let row = all.columns@[c.column as int];
    let trow = all.tables@[i];
    opt_view(row.table_schema) == opt_view(trow.table_schema) && row.table_name@ == trow.table_name@
}

/// Whether a correlated constraint belongs to snapshot table `i`, by
/// (schema, table name).
pub open spec fn constraint_on_table(all: schema::All, c: ConstraintView, i: int) -> bool {
    let crow = all.table_constraints@[c.constraint as int];
    let trow = all.tables@[i];
    opt_view(crow.table_schema) == opt_view(trow.table_schema) && crow.table_name@ == trow.table_name@
}

/// The fully correlated table for snapshot row `i`: its columns sorted by
/// ordinal position, its constraints sorted by name.
pub open spec fn correlated_table(
    all: schema::All,
    cols: Seq<Column>,
    cvs: Seq<ConstraintView>,
    i: int,
) -> TableView {
    TableView {
        table: i as usize,
        columns: ins_sort(column_le(all), sel(|c: Column| column_on_table(all, c, i), cols)),
        constraints: ins_sort(
            constraint_view_le(all),
            sel(|c: ConstraintView| constraint_on_table(all, c, i), cvs),
        ),
    }
}

/// The whole correlated graph: every snapshot table, correlated and sorted
/// by (schema, name).
pub open spec fn correlated_tables(all: schema::All) -> Seq<TableView> {
    let cols = correlated_columns(all);
    let cvs = correlated_constraints(all, cols);
    ins_sort(
        table_view_le(all),
        Seq::new(all.tables@.len(), |i: int| correlated_table(all, cols, cvs, i)),
    )
}

// ------------------------------------------------------------------
// Ordering laws.
// ------------------------------------------------------------------

proof fn lemma_table_view_le_preorder(all: schema::All)
    ensures
        crate::order::total_preorder(table_view_le(all)),
{
    let le = table_view_le(all);
    assert forall|a: TableView| #[trigger] le(a, a) by {
        crate::order::lemma_kv_le_order(
            table_ref_key(all, a.table),
            table_ref_key(all, a.table),
            table_ref_key(all, a.table),
        );
    }
    assert forall|a: TableView, b: TableView| #[trigger] le(a, b) || #[trigger] le(b, a) by {
        crate::order::lemma_kv_le_order(
            table_ref_key(all, a.table),
            table_ref_key(all, b.table),
            table_ref_key(all, a.table),
        );
    }
    assert forall|a: TableView, b: TableView, c: TableView|
        #[trigger] le(a, b) && #[trigger] le(b, c) implies le(a, c) by {
        crate::order::lemma_kv_le_order(
            table_ref_key(all, a.table),
            table_ref_key(all, b.table),
            table_ref_key(all, c.table),
        );
    }
}

proof fn lemma_column_le_preorder(all: schema::All)
    ensures
        crate::order::total_preorder(column_le(all)),
{
    let le = column_le(all);
    assert forall|a: Column| #[trigger] le(a, a) by {
        crate::order::lemma_kv_le_order(
            column_key(all, a),
            column_key(all, a),
            column_key(all, a),
        );
    }
    assert forall|a: Column, b: Column| #[trigger] le(a, b) || #[trigger] le(b, a) by {
        crate::order::lemma_kv_le_order(
            column_key(all, a),
            column_key(all, b),
            column_key(all, a),
        );
    }
    assert forall|a: Column, b: Column, c: Column|
        #[trigger] le(a, b) && #[trigger] le(b, c) implies le(a, c) by {
        crate::order::lemma_kv_le_order(
            column_key(all, a),
            column_key(all, b),
            column_key(all, c),
        );
    }
}

proof fn lemma_constraint_view_le_preorder(all: schema::All)
    ensures
        crate::order::total_preorder(constraint_view_le(all)),
{
    let le = constraint_view_le(all);
    assert forall|a: ConstraintView| #[trigger] le(a, a) by {
        crate::order::lemma_kv_le_order(
            constraint_key(all, a),
            constraint_key(all, a),
            constraint_key(all, a),
        );
    }
    assert forall|a: ConstraintView, b: ConstraintView|
        #[trigger] le(a, b) || #[trigger] le(b, a) by {
        crate::order::lemma_kv_le_order(
            constraint_key(all, a),
            constraint_key(all, b),
            constraint_key(all, a),
        );
    }
    assert forall|a: ConstraintView, b: ConstraintView, c: ConstraintView|
        #[trigger] le(a, b) && #[trigger] le(b, c) implies le(a, c) by {
        crate::order::lemma_kv_le_order(
            constraint_key(all, a),
            constraint_key(all, b),
            constraint_key(all, c),
        );
    }
}

/// The correlated graph is fully ordered, which is what makes a run
/// reproducible: the tables stand sorted by (schema, name); within every
/// table the columns stand sorted by (schema, table, ordinal position) —
/// within one table, by ordinal position — and the constraints sorted by
/// constraint name.
pub proof fn lemma_correlated_tables_ordered(all: schema::All)
    ensures
        crate::order::sorted_by(table_view_le(all), correlated_tables(all)),
        forall|i: int|
            0 <= i < correlated_tables(all).len() ==> crate::order::sorted_by(
                column_le(all),
                (#[trigger] correlated_tables(all)[i]).columns,
            ),
        forall|i: int|
            0 <= i < correlated_tables(all).len() ==> crate::order::sorted_by(
                constraint_view_le(all),
                (#[trigger] correlated_tables(all)[i]).constraints,
            ),
{
    let cols = correlated_columns(all);
    let cvs = correlated_constraints(all, cols);
    let unsorted = Seq::new(all.tables@.len(), |i: int| correlated_table(all, cols, cvs, i));
    lemma_table_view_le_preorder(all);
    lemma_column_le_preorder(all);
    lemma_constraint_view_le_preorder(all);
    crate::order::lemma_ins_sort_sorted(table_view_le(all), unsorted);
    let p = |tv: TableView|
        crate::order::sorted_by(column_le(all), tv.columns) && crate::order::sorted_by(
            constraint_view_le(all),
            tv.constraints,
        );
    assert forall|i: int| 0 <= i < unsorted.len() implies p(#[trigger] unsorted[i]) by {
        crate::order::lemma_ins_sort_sorted(
            column_le(all),
            sel(|c: Column| column_on_table(all, c, i), cols),
        );
        crate::order::lemma_ins_sort_sorted(
            constraint_view_le(all),
            sel(|c: ConstraintView| constraint_on_table(all, c, i), cvs),
        );
    }
    crate::order::lemma_ins_sort_all(table_view_le(all), unsorted, p);
}

// ------------------------------------------------------------------
// Executable correlation.
// ------------------------------------------------------------------

/// Copies a vector of plain values.
fn copy_vec<T: Copy>(v: &Vec<T>) -> (r: Vec<T>)
    ensures
        r@ == v@,
{
    let mut r: Vec<T> = Vec::new();
    let n = v.len();
    let mut i: usize = 0;
    while i < n
        invariant
            i <= n,
            r@ == v@.take(i as int),
        decreases n - i,
    {
        r.push(v[i]);
        proof {
            assert(v@.take(i + 1) =~= v@.take(i as int).push(v@[i as int]));
        }
        i = i + 1;
    }
    proof {
        assert(v@.take(n as int) =~= v@);
    }
    r
}

/// The first element-type row matching column `c`, by (object schema,
/// object name, object type `TABLE`, type descriptor id).
fn find_element_type(all: &schema::All, c: usize) -> (r: Option<usize>)
    requires
        c < all.columns@.len(),
    ensures
        r == element_for(*all, c as int),
        r matches Some(e) ==> e < all.element_types@.len(),
{
    let ghost pred = |row: schema::ElementType| element_row_matches(*all, row, c as int);
    let col = &all.columns[c];
    let n = all.element_types.len();
    let mut i: usize = 0;
    while i < n
        invariant
            i <= n,
            find_index(pred, all.element_types@) == find_from(pred, all.element_types@, i as int),
        decreases n - i,
    {
        let row = &all.element_types[i];
        let m = opt_str_eq(&row.object_schema, &col.table_schema) && str_eq(
            row.object_name.as_str(),
            col.table_name.as_str(),
        ) && str_eq(row.object_type.as_str(), "TABLE") && opt_str_eq(
            &row.collection_type_identifier,
            &col.dtd_identifier,
        );
        proof {
            assert(m == pred(all.element_types@[i as int]));
        }
        if m {
            return Some(i);
        }
        i = i + 1;
    }
    None
}

/// Inserts a correlated column into a run sorted by `column_le`.
fn insert_column(all: &schema::All, v: Vec<Column>, x: Column) -> (r: Vec<Column>)
    requires
        forall|k: int| 0 <= k < v@.len() ==> wf_column(*all, #[trigger] v@[k]),
        wf_column(*all, x),
    ensures
        r@ == ins_ins(column_le(*all), v@, x),
        forall|k: int| 0 <= k < r@.len() ==> wf_column(*all, #[trigger] r@[k]),
    decreases v@.len(),
{
    let mut v = v;
    if v.len() == 0 {
        v.push(x);
        proof {
            assert(v@ =~= ins_ins(column_le(*all), Seq::<Column>::empty(), x));
        }
        v
    } else {
        let last = v[v.len() - 1];
        let lrow = &all.columns[last.column];
        let xrow = &all.columns[x.column];
        let le = kv3_le(
            &lrow.table_schema,
            lrow.table_name.as_str(),
            lrow.ordinal_position,
            &xrow.table_schema,
            xrow.table_name.as_str(),
            xrow.ordinal_position,
        );
        proof {
            assert(le == column_le(*all)(last, x));
        }
        if le {
            v.push(x);
            v
        } else {
            let ghost oldv = v@;
            let popped = v.pop().unwrap();
            let mut r = insert_column(all, v, x);
            r.push(popped);
            proof {
                assert(oldv.drop_last() =~= oldv.take(oldv.len() - 1));
            }
            r
        }
    }
}

/// Stable insertion sort of correlated columns by (schema, table, ordinal).
fn sort_columns(all: &schema::All, v: Vec<Column>) -> (r: Vec<Column>)
    requires
        forall|k: int| 0 <= k < v@.len() ==> wf_column(*all, #[trigger] v@[k]),
    ensures
        r@ == ins_sort(column_le(*all), v@),
        forall|k: int| 0 <= k < r@.len() ==> wf_column(*all, #[trigger] r@[k]),
{
    let mut r: Vec<Column> = Vec::new();
    let n = v.len();
    let mut i: usize = 0;
    while i < n
        invariant
            i <= n,
            r@ == ins_sort(column_le(*all), v@.take(i as int)),
            forall|k: int| 0 <= k < r@.len() ==> wf_column(*all, #[trigger] r@[k]),
        decreases n - i,
    {
        r = insert_column(all, r, v[i]);
        proof {
            assert(v@.take(i + 1).drop_last() =~= v@.take(i as int));
            assert(v@.take(i + 1).last() == v@[i as int]);
        }
        i = i + 1;
    }
    proof {
        assert(v@.take(n as int) =~= v@);
    }
    r
}

/// Correlates every snapshot column with its element type and sorts the
/// result by (schema, table, ordinal).
fn get_all_columns(all: &schema::All) -> (r: Vec<Column>)
    ensures
        r@ == correlated_columns(*all),
        forall|k: int| 0 <= k < r@.len() ==> wf_column(*all, #[trigger] r@[k]),
{
    let mut v: Vec<Column> = Vec::new();
    let n = all.columns.len();
    let mut i: usize = 0;
    while i < n
        invariant
            i <= n,
            v@ == unsorted_columns(*all).take(i as int),
            forall|k: int| 0 <= k < v@.len() ==> wf_column(*all, #[trigger] v@[k]),
        decreases n - i,
    {
        let e = find_element_type(all, i);
        v.push(Column { column: i, element_type: e });
        proof {
            assert(unsorted_columns(*all).take(i + 1) =~= unsorted_columns(*all).take(
                i as int,
            ).push(unsorted_columns(*all)[i as int]));
        }
        i = i + 1;
    }
    proof {
        assert(unsorted_columns(*all).take(n as int) =~= unsorted_columns(*all));
    }
    sort_columns(all, v)
}

/// The first correlated column a column-usage row names, if any.
fn find_column(all: &schema::All, cols: &Vec<Column>, u: &schema::ConstraintColumnUsage) -> (r:
    Option<Column>)
    requires
        forall|k: int| 0 <= k < cols@.len() ==> wf_column(*all, #[trigger] cols@[k]),
    ensures
        r == resolve_usage_column(*all, cols@, *u),
        r matches Some(c) ==> wf_column(*all, c),
{
    let ghost pred = |c: Column| column_named(*all, c, *u);
    let n = cols.len();
    let mut i: usize = 0;
    while i < n
        invariant
            i <= n,
            find_index(pred, cols@) == find_from(pred, cols@, i as int),
        decreases n - i,
    {
        let c = cols[i];
        let row = &all.columns[c.column];
        let m = opt_str_eq(&row.table_schema, &u.table_schema) && str_eq(
            row.table_name.as_str(),
            u.table_name.as_str(),
        ) && str_eq(row.column_name.as_str(), u.column_name.as_str());
        proof {
            assert(m == pred(cols@[i as int]));
        }
        if m {
            return Some(c);
        }
        i = i + 1;
    }
    None
}

/// The first snapshot table a table-usage row names, if any.
fn find_ref_table(all: &schema::All, u: &schema::ConstraintTableUsage) -> (r: Option<usize>)
    ensures
        r == resolve_usage_table(*all, *u),
        r matches Some(t) ==> t < all.tables@.len(),
{
    let ghost idxs = Seq::new(all.tables@.len(), |i: int| i);
    let ghost pred = |i: int| table_named(*all, i, *u);
    let n = all.tables.len();
    let mut i: usize = 0;
    while i < n
        invariant
            i <= n,
            find_index(pred, idxs) == find_from(pred, idxs, i as int),
        decreases n - i,
    {
        let row = &all.tables[i];
        let m = opt_str_eq(&row.table_schema, &u.table_schema) && str_eq(
            row.table_name.as_str(),
            u.table_name.as_str(),
        );
        proof {
            assert(m == pred(idxs[i as int]));
        }
        if m {
            return Some(i);
        }
        i = i + 1;
    }
    None
}

/// Inserts a referenced table index into a run sorted by `table_ref_le`.
fn insert_ref_table(all: &schema::All, v: Vec<usize>, x: usize) -> (r: Vec<usize>)
    requires
        forall|k: int| 0 <= k < v@.len() ==> (#[trigger] v@[k]) < all.tables@.len(),
        x < all.tables@.len(),
    ensures
        r@ == ins_ins(table_ref_le(*all), v@, x),
        forall|k: int| 0 <= k < r@.len() ==> (#[trigger] r@[k]) < all.tables@.len(),
    decreases v@.len(),
{
    let mut v = v;
    if v.len() == 0 {
        v.push(x);
        proof {
            assert(v@ =~= ins_ins(table_ref_le(*all), Seq::<usize>::empty(), x));
        }
        v
    } else {
        let last = v[v.len() - 1];
        let lrow = &all.tables[last];
        let xrow = &all.tables[x];
        let le = kv3_le(
            &lrow.table_schema,
            lrow.table_name.as_str(),
            0,
            &xrow.table_schema,
            xrow.table_name.as_str(),
            0,
        );
        proof {
            assert(le == table_ref_le(*all)(last, x));
        }
        if le {
            v.push(x);
            v
        } else {
            let ghost oldv = v@;
            let popped = v.pop().unwrap();
            let mut r = insert_ref_table(all, v, x);
            r.push(popped);
            proof {
                assert(oldv.drop_last() =~= oldv.take(oldv.len() - 1));
            }
            r
        }
    }
}

/// Stable insertion sort of referenced table indices by (schema, name).
fn sort_ref_tables(all: &schema::All, v: Vec<usize>) -> (r: Vec<usize>)
    requires
        forall|k: int| 0 <= k < v@.len() ==> (#[trigger] v@[k]) < all.tables@.len(),
    ensures
        r@ == ins_sort(table_ref_le(*all), v@),
        forall|k: int| 0 <= k < r@.len() ==> (#[trigger] r@[k]) < all.tables@.len(),
{
    let mut r: Vec<usize> = Vec::new();
    let n = v.len();
    let mut i: usize = 0;
    while i < n
        invariant
            i <= n,
            r@ == ins_sort(table_ref_le(*all), v@.take(i as int)),
            forall|k: int| 0 <= k < r@.len() ==> (#[trigger] r@[k]) < all.tables@.len(),
        decreases n - i,
    {
        r = insert_ref_table(all, r, v[i]);
        proof {
            assert(v@.take(i + 1).drop_last() =~= v@.take(i as int));
            assert(v@.take(i + 1).last() == v@[i as int]);
        }
        i = i + 1;
    }
    proof {
        assert(v@.take(n as int) =~= v@);
    }
    r
}

/// Inserts a check clause into a run sorted by `check_le`.
fn insert_check(all: &schema::All, v: Vec<CheckConstraint>, x: CheckConstraint) -> (r: Vec<
    CheckConstraint,
>)
    requires
        forall|k: int|
            0 <= k < v@.len() ==> (#[trigger] v@[k]).check_constraint
                < all.check_constraints@.len(),
        x.check_constraint < all.check_constraints@.len(),
    ensures
        r@ == ins_ins(check_le(*all), v@, x),
        forall|k: int|
            0 <= k < r@.len() ==> (#[trigger] r@[k]).check_constraint
                < all.check_constraints@.len(),
    decreases v@.len(),
{
    let mut v = v;
    if v.len() == 0 {
        v.push(x);
        proof {
            assert(v@ =~= ins_ins(check_le(*all), Seq::<CheckConstraint>::empty(), x));
        }
        v
    } else {
        let last = v[v.len() - 1];
        let lrow = &all.check_constraints[last.check_constraint];
        let xrow = &all.check_constraints[x.check_constraint];
        let none: Option<String> = None;
        let le = kv3_le(
            &none,
            lrow.constraint_name.as_str(),
            0,
            &none,
            xrow.constraint_name.as_str(),
            0,
        );
        proof {
            assert(le == check_le(*all)(last, x));
        }
        if le {
            v.push(x);
            v
        } else {
            let ghost oldv = v@;
            let popped = v.pop().unwrap();
            let mut r = insert_check(all, v, x);
            r.push(popped);
            proof {
                assert(oldv.drop_last() =~= oldv.take(oldv.len() - 1));
            }
            r
        }
    }
}

/// Stable insertion sort of check clauses by constraint name.
fn sort_checks(all: &schema::All, v: Vec<CheckConstraint>) -> (r: Vec<CheckConstraint>)
    requires
        forall|k: int|
            0 <= k < v@.len() ==> (#[trigger] v@[k]).check_constraint
                < all.check_constraints@.len(),
    ensures
        r@ == ins_sort(check_le(*all), v@),
        forall|k: int|
            0 <= k < r@.len() ==> (#[trigger] r@[k]).check_constraint
                < all.check_constraints@.len(),
{
    let mut r: Vec<CheckConstraint> = Vec::new();
    let n = v.len();
    let mut i: usize = 0;
    while i < n
        invariant
            i <= n,
            r@ == ins_sort(check_le(*all), v@.take(i as int)),
            forall|k: int|
                0 <= k < r@.len() ==> (#[trigger] r@[k]).check_constraint
                    < all.check_constraints@.len(),
        decreases n - i,
    {
        r = insert_check(all, r, v[i]);
        proof {
            assert(v@.take(i + 1).drop_last() =~= v@.take(i as int));
            assert(v@.take(i + 1).last() == v@[i as int]);
        }
        i = i + 1;
    }
    proof {
        assert(v@.take(n as int) =~= v@);
    }
    r
}

/// Correlates every snapshot constraint row: resolves its columns, its
/// referenced tables, and its check clauses, each sorted.
fn get_all_table_constraints(all: &schema::All, columns: &Vec<Column>) -> (r: Vec<TableConstraint>)
    requires
        forall|k: int| 0 <= k < columns@.len() ==> wf_column(*all, #[trigger] columns@[k]),
    ensures
        r@.len() == all.table_constraints@.len(),
        forall|j: int|
            0 <= j < r@.len() ==> constraint_view(#[trigger] r@[j]) == correlated_constraint(
                *all,
                columns@,
                j,
            ),
        forall|j: int|
            0 <= j < r@.len() ==> wf_constraint_view(*all, constraint_view(#[trigger] r@[j])),
{
    let mut r: Vec<TableConstraint> = Vec::new();
    let n = all.table_constraints.len();
    let mut j: usize = 0;
    while j < n
        invariant
            j <= n,
            r@.len() == j,
            forall|k: int|
                0 <= k < j ==> constraint_view(#[trigger] r@[k]) == correlated_constraint(
                    *all,
                    columns@,
                    k,
                ),
            forall|k: int|
                0 <= k < j ==> wf_constraint_view(*all, constraint_view(#[trigger] r@[k])),
        decreases n - j,
    {
        let crow = &all.table_constraints[j];

        // Resolve the constrained columns from the column-usage rows.
        let mut ccols: Vec<Column> = Vec::new();
        let nu = all.constraint_column_usage.len();
        let mut i: usize = 0;
        while i < nu
            invariant
                i <= nu,
                j < all.table_constraints@.len(),
                ccols@ == constraint_columns_unsorted(*all, columns@, j as int, i as int),
                forall|k: int| 0 <= k < ccols@.len() ==> wf_column(*all, #[trigger] ccols@[k]),
            decreases nu - i,
        {
            let u = &all.constraint_column_usage[i];
            let m = opt_str_eq(&u.constraint_schema, &crow.constraint_schema) && str_eq(
                u.constraint_name.as_str(),
                crow.constraint_name.as_str(),
            );
            proof {
                assert(m == usage_names_constraint(
                    *all,
                    all.constraint_column_usage@[i as int].constraint_schema,
                    all.constraint_column_usage@[i as int].constraint_name,
                    j as int,
                ));
            }
            if m {
                // A usage row naming a column absent from the index is a
                // correlation anomaly: the row is dropped.
                match find_column(all, columns, u) {
                    Some(c) => ccols.push(c),
                    None => (),
                }
            }
            i = i + 1;
        }
        let ccols = sort_columns(all, ccols);

        // Resolve the referenced tables from the table-usage rows.
        let mut ctabs: Vec<usize> = Vec::new();
        let nt = all.constraint_table_usage.len();
        let mut i2: usize = 0;
        while i2 < nt
            invariant
                i2 <= nt,
                j < all.table_constraints@.len(),
                ctabs@ == constraint_tables_unsorted(*all, j as int, i2 as int),
                forall|k: int| 0 <= k < ctabs@.len() ==> (#[trigger] ctabs@[k]) < all.tables@.len(),
            decreases nt - i2,
        {
            let u = &all.constraint_table_usage[i2];
            let m = opt_str_eq(&u.constraint_schema, &crow.constraint_schema) && str_eq(
                u.constraint_name.as_str(),
                crow.constraint_name.as_str(),
            );
            proof {
                assert(m == usage_names_constraint(
                    *all,
                    all.constraint_table_usage@[i2 as int].constraint_schema,
                    all.constraint_table_usage@[i2 as int].constraint_name,
                    j as int,
                ));
            }
            if m {
                match find_ref_table(all, u) {
                    Some(t) => ctabs.push(t),
                    None => (),
                }
            }
            i2 = i2 + 1;
        }
        let ctabs = sort_ref_tables(all, ctabs);

        // Collect the check clauses named after this constraint.
        let mut cchecks: Vec<CheckConstraint> = Vec::new();
        let nc = all.check_constraints.len();
        let mut i3: usize = 0;
        while i3 < nc
            invariant
                i3 <= nc,
                j < all.table_constraints@.len(),
                cchecks@ == constraint_checks_unsorted(*all, j as int, i3 as int),
                forall|k: int|
                    0 <= k < cchecks@.len() ==> (#[trigger] cchecks@[k]).check_constraint
                        < all.check_constraints@.len(),
            decreases nc - i3,
        {
            let row = &all.check_constraints[i3];
            let m = opt_str_eq(&row.constraint_schema, &crow.constraint_schema) && str_eq(
                row.constraint_name.as_str(),
                crow.constraint_name.as_str(),
            );
            proof {
                assert(m == usage_names_constraint(
                    *all,
                    all.check_constraints@[i3 as int].constraint_schema,
                    all.check_constraints@[i3 as int].constraint_name,
                    j as int,
                ));
            }
            if m {
                cchecks.push(CheckConstraint { check_constraint: i3 });
            }
            i3 = i3 + 1;
        }
        let cchecks = sort_checks(all, cchecks);

        r.push(
            TableConstraint {
                table_constraint: j,
                check_constraints: cchecks,
                columns: ccols,
                tables: ctabs,
            },
        );
        j = j + 1;
    }
    r
}

impl TableConstraint {
    /// Rebuilds an identical constraint node; the same constraint may be
    /// attached to several tables.
    fn duplicate(&self) -> (r: TableConstraint)
        ensures
            constraint_view(r) == constraint_view(*self),
    {
        let r = TableConstraint {
            table_constraint: self.table_constraint,
            check_constraints: copy_vec(&self.check_constraints),
            columns: copy_vec(&self.columns),
            tables: copy_vec(&self.tables),
        };
        proof {
            assert(constraint_view(r) =~= constraint_view(*self));
        }
        r
    }
}

/// Inserts a correlated constraint into a run sorted by name.
fn insert_constraint(all: &schema::All, v: Vec<TableConstraint>, x: TableConstraint) -> (r: Vec<
    TableConstraint,
>)
    requires
        forall|k: int|
            0 <= k < v@.len() ==> wf_constraint_view(*all, constraint_view(#[trigger] v@[k])),
        wf_constraint_view(*all, constraint_view(x)),
    ensures
        r@ == ins_ins(constraint_le(*all), v@, x),
        forall|k: int|
            0 <= k < r@.len() ==> wf_constraint_view(*all, constraint_view(#[trigger] r@[k])),
    decreases v@.len(),
{
    let mut v = v;
    if v.len() == 0 {
        v.push(x);
        proof {
            assert(v@ =~= ins_ins(constraint_le(*all), Seq::<TableConstraint>::empty(), x));
        }
        v
    } else {
        let lrow = &all.table_constraints[v[v.len() - 1].table_constraint];
        let xrow = &all.table_constraints[x.table_constraint];
        let none: Option<String> = None;
        let le = kv3_le(
            &none,
            lrow.constraint_name.as_str(),
            0,
            &none,
            xrow.constraint_name.as_str(),
            0,
        );
        proof {
            assert(le == constraint_le(*all)(v@.last(), x));
        }
        if le {
            v.push(x);
            v
        } else {
            let ghost oldv = v@;
            let popped = v.pop().unwrap();
            let mut r = insert_constraint(all, v, x);
            r.push(popped);
            proof {
                assert(oldv.drop_last() =~= oldv.take(oldv.len() - 1));
            }
            r
        }
    }
}

/// Stable insertion sort of correlated constraints by constraint name.
fn sort_constraints(all: &schema::All, v: Vec<TableConstraint>) -> (r: Vec<TableConstraint>)
    requires
        forall|k: int|
            0 <= k < v@.len() ==> wf_constraint_view(*all, constraint_view(#[trigger] v@[k])),
    ensures
        r@ == ins_sort(constraint_le(*all), v@),
        forall|k: int|
            0 <= k < r@.len() ==> wf_constraint_view(*all, constraint_view(#[trigger] r@[k])),
{
    let mut r: Vec<TableConstraint> = Vec::new();
    let n = v.len();
    let mut v = v;
    let mut i: usize = 0;
    let ghost orig = v@;
    while i < n
        invariant
            i <= n,
            n == orig.len(),
            v@ == orig.skip(i as int),
            r@ == ins_sort(constraint_le(*all), orig.take(i as int)),
            forall|k: int|
                0 <= k < r@.len() ==> wf_constraint_view(*all, constraint_view(#[trigger] r@[k])),
            forall|k: int|
                0 <= k < v@.len() ==> wf_constraint_view(*all, constraint_view(#[trigger] v@[k])),
        decreases n - i,
    {
        let x = v.remove(0);
        proof {
            assert(x == orig[i as int]);
            assert(orig.skip(i as int).skip(1) =~= orig.skip(i + 1));
            assert(orig.take(i + 1).drop_last() =~= orig.take(i as int));
            assert(orig.take(i + 1).last() == orig[i as int]);
        }
        r = insert_constraint(all, r, x);
        i = i + 1;
    }
    proof {
        assert(orig.take(n as int) =~= orig);
    }
    r
}

/// Inserts a correlated table into a run sorted by (schema, name).
fn insert_ir_table(all: &schema::All, v: Vec<Table>, x: Table) -> (r: Vec<Table>)
    requires
        forall|k: int|
            0 <= k < v@.len() ==> wf_table_view(*all, table_view(#[trigger] v@[k])),
        wf_table_view(*all, table_view(x)),
    ensures
        r@ == ins_ins(ir_table_le(*all), v@, x),
        forall|k: int|
            0 <= k < r@.len() ==> wf_table_view(*all, table_view(#[trigger] r@[k])),
    decreases v@.len(),
{
    let mut v = v;
    if v.len() == 0 {
        v.push(x);
        proof {
            assert(v@ =~= ins_ins(ir_table_le(*all), Seq::<Table>::empty(), x));
        }
        v
    } else {
        let lrow = &all.tables[v[v.len() - 1].table];
        let xrow = &all.tables[x.table];
        let le = kv3_le(
            &lrow.table_schema,
            lrow.table_name.as_str(),
            0,
            &xrow.table_schema,
            xrow.table_name.as_str(),
            0,
        );
        proof {
            assert(le == ir_table_le(*all)(v@.last(), x));
        }
        if le {
            v.push(x);
            v
        } else {
            let ghost oldv = v@;
            let popped = v.pop().unwrap();
            let mut r = insert_ir_table(all, v, x);
            r.push(popped);
            proof {
                assert(oldv.drop_last() =~= oldv.take(oldv.len() - 1));
            }
            r
        }
    }
}

/// Stable insertion sort of correlated tables by (schema, name).
fn sort_ir_tables(all: &schema::All, v: Vec<Table>) -> (r: Vec<Table>)
    requires
        forall|k: int|
            0 <= k < v@.len() ==> wf_table_view(*all, table_view(#[trigger] v@[k])),
    ensures
        r@ == ins_sort(ir_table_le(*all), v@),
        forall|k: int|
            0 <= k < r@.len() ==> wf_table_view(*all, table_view(#[trigger] r@[k])),
{
    let mut r: Vec<Table> = Vec::new();
    let n = v.len();
    let mut v = v;
    let mut i: usize = 0;
    let ghost orig = v@;
    while i < n
        invariant
            i <= n,
            n == orig.len(),
            v@ == orig.skip(i as int),
            r@ == ins_sort(ir_table_le(*all), orig.take(i as int)),
            forall|k: int|
                0 <= k < r@.len() ==> wf_table_view(*all, table_view(#[trigger] r@[k])),
            forall|k: int|
                0 <= k < v@.len() ==> wf_table_view(*all, table_view(#[trigger] v@[k])),
        decreases n - i,
    {
        let x = v.remove(0);
        proof {
            assert(x == orig[i as int]);
            assert(orig.skip(i as int).skip(1) =~= orig.skip(i + 1));
            assert(orig.take(i + 1).drop_last() =~= orig.take(i as int));
            assert(orig.take(i + 1).last() == orig[i as int]);
        }
        r = insert_ir_table(all, r, x);
        i = i + 1;
    }
    proof {
        assert(orig.take(n as int) =~= orig);
    }
    r
}

/// Attaches to every snapshot table its columns and its constraints, each
/// sorted.
fn get_all_tables(
    all: &schema::All,
    columns: &Vec<Column>,
    table_constraints: &Vec<TableConstraint>,
) -> (r: Vec<Table>)
    requires
        forall|k: int| 0 <= k < columns@.len() ==> wf_column(*all, #[trigger] columns@[k]),
        forall|k: int|
            0 <= k < table_constraints@.len() ==> wf_constraint_view(
                *all,
                constraint_view(#[trigger] table_constraints@[k]),
            ),
    ensures
        r@.len() == all.tables@.len(),
        forall|i: int|
            0 <= i < r@.len() ==> table_view(#[trigger] r@[i]) == correlated_table(
                *all,
                columns@,
                table_constraints@.map_values(|c: TableConstraint| constraint_view(c)),
                i,
            ),
        forall|i: int| 0 <= i < r@.len() ==> wf_table_view(*all, table_view(#[trigger] r@[i])),
{
    let ghost cvs = table_constraints@.map_values(|c: TableConstraint| constraint_view(c));
    let mut r: Vec<Table> = Vec::new();
    let n = all.tables.len();
    let mut i: usize = 0;
    while i < n
        invariant
            i <= n,
            r@.len() == i,
            cvs == table_constraints@.map_values(|c: TableConstraint| constraint_view(c)),
            forall|k: int|
                0 <= k < i ==> table_view(#[trigger] r@[k]) == correlated_table(
                    *all,
                    columns@,
                    cvs,
                    k,
                ),
            forall|k: int| 0 <= k < i ==> wf_table_view(*all, table_view(#[trigger] r@[k])),
        decreases n - i,
    {
        let trow = &all.tables[i];
        let ghost pcol = |c: Column| column_on_table(*all, c, i as int);
        let ghost pcv = |c: ConstraintView| constraint_on_table(*all, c, i as int);

        // The table's own columns, by (schema, table name).
        let mut tcols: Vec<Column> = Vec::new();
        let ncols = columns.len();
        let mut k: usize = 0;
        while k < ncols
            invariant
                k <= ncols,
                i < all.tables@.len(),
                tcols@ == sel(pcol, columns@.take(k as int)),
                forall|m: int| 0 <= m < tcols@.len() ==> wf_column(*all, #[trigger] tcols@[m]),
            decreases ncols - k,
        {
            let c = columns[k];
            let row = &all.columns[c.column];
            let m = opt_str_eq(&row.table_schema, &trow.table_schema) && str_eq(
                row.table_name.as_str(),
                trow.table_name.as_str(),
            );
            proof {
                assert(m == pcol(columns@[k as int]));
                assert(columns@.take(k + 1).drop_last() =~= columns@.take(k as int));
                assert(columns@.take(k + 1).last() == columns@[k as int]);
            }
            if m {
                tcols.push(c);
            }
            k = k + 1;
        }
        proof {
            assert(columns@.take(ncols as int) =~= columns@);
        }
        let tcols = sort_columns(all, tcols);

        // The table's own constraints, by (schema, table name).
        let mut tcons: Vec<TableConstraint> = Vec::new();
        let ncons = table_constraints.len();
        let mut k2: usize = 0;
        while k2 < ncons
            invariant
                k2 <= ncons,
                i < all.tables@.len(),
                cvs == table_constraints@.map_values(|c: TableConstraint| constraint_view(c)),
                tcons@.map_values(|c: TableConstraint| constraint_view(c)) == sel(
                    pcv,
                    cvs.take(k2 as int),
                ),
                forall|m: int|
                    0 <= m < tcons@.len() ==> wf_constraint_view(
                        *all,
                        constraint_view(#[trigger] tcons@[m]),
                    ),
            decreases ncons - k2,
        {
            let c = &table_constraints[k2];
            let crow = &all.table_constraints[c.table_constraint];
            let m = opt_str_eq(&crow.table_schema, &trow.table_schema) && str_eq(
                crow.table_name.as_str(),
                trow.table_name.as_str(),
            );
            proof {
                assert(cvs[k2 as int] == constraint_view(table_constraints@[k2 as int]));
                assert(m == pcv(cvs[k2 as int]));
                assert(cvs.take(k2 + 1).drop_last() =~= cvs.take(k2 as int));
                assert(cvs.take(k2 + 1).last() == cvs[k2 as int]);
            }
            if m {
                let dup = c.duplicate();
                let ghost before = tcons@;
                tcons.push(dup);
                proof {
                    assert(tcons@.map_values(|c: TableConstraint| constraint_view(c)) =~= before
                        .map_values(|c: TableConstraint| constraint_view(c)).push(
                        constraint_view(dup),
                    ));
                }
            }
            k2 = k2 + 1;
        }
        proof {
            assert(cvs.take(ncons as int) =~= cvs);
        }
        let ghost presort = tcons@;
        let tcons = sort_constraints(all, tcons);

        let t = Table { table: i, table_constraints: tcons, columns: tcols };
        proof {
            let g = |c: TableConstraint| constraint_view(c);
            // The sort commutes with taking constraint views, because both
            // orders compare the constraint name alone.
            assert(forall|a: TableConstraint, b: TableConstraint|
                #[trigger] constraint_le(*all)(a, b) == constraint_view_le(*all)(g(a), g(b)));
            lemma_ins_sort_map(constraint_le(*all), constraint_view_le(*all), g, presort);
            assert(table_view(t).constraints == ins_sort(constraint_view_le(*all), sel(pcv, cvs)));
            assert(table_view(t) =~= correlated_table(*all, columns@, cvs, i as int));
        }
        r.push(t);
        i = i + 1;
    }
    r
}

/// Correlates the whole snapshot: every table with its columns and
/// constraints, the tables sorted by (schema, name) for reproducible
/// output.
pub fn get_all(all: &schema::All) -> (r: All)
    ensures
        ir_view(r) == correlated_tables(*all),
        forall|i: int|
            0 <= i < ir_view(r).len() ==> wf_table_view(*all, #[trigger] ir_view(r)[i]),
{
    let columns = get_all_columns(all);
    let tcs = get_all_table_constraints(all, &columns);
    let tables = get_all_tables(all, &columns, &tcs);
    let sorted = sort_ir_tables(all, tables);
    proof {
        let g = |t: Table| table_view(t);
        let cols = correlated_columns(*all);
        let cvs = correlated_constraints(*all, cols);
        assert(tcs@.map_values(|c: TableConstraint| constraint_view(c)) =~= cvs);
        let unsorted = Seq::new(
            all.tables@.len(),
            |i: int| correlated_table(*all, cols, cvs, i),
        );
        assert(tables@.map_values(g) =~= unsorted);
        lemma_ins_sort_map(ir_table_le(*all), table_view_le(*all), g, tables@);
        assert(forall|a: Table, b: Table|
            #[trigger] ir_table_le(*all)(a, b) == table_view_le(*all)(g(a), g(b)));
        assert(ir_view(All { tables: sorted }) == correlated_tables(*all));
    }
    All { tables: sorted }
}

} // verus!
