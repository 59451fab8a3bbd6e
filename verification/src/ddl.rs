//! Synthesis: renders one correlated table as a `CREATE TABLE` statement.
//!
//! Rendering is deterministic: identifiers are always double-quoted, the
//! schema prefix is omitted for the default schema `public`, an `integer`
//! column whose default follows the `nextval('<table>_<column>_seq'
//! ::regclass)` convention becomes `serial` with the default suppressed,
//! and `CHECK` constraints that merely restate column-level `NOT NULL`
//! are dropped. A column that cannot be rendered fails the whole table:
//! the caller reports it per table and goes on with the rest.
use vstd::prelude::*;
use crate::ir;
use crate::ir::{constraint_view, table_view, ConstraintView, TableView};
use crate::schema;
use crate::text::{opt_view, str_eq};
use crate::yes_no::YesNo;

verus! {

/// Why a table or column cannot be rendered.
#[derive(Clone, Copy, Debug, PartialEq, Eq, Structural)]
pub enum DdlError {
    /// The table's kind is not `BASE TABLE`: views, foreign tables and
    /// temporary tables are out of scope.
    UnsupportedTableKind,
    /// The column's declared type is `USER-DEFINED`: domain and composite
    /// types are out of scope.
    UnsupportedColumnType,
    /// An `ARRAY` column resolved no element type, or the resolved element
    /// carries no data type.
    MissingElementType,
}

// ------------------------------------------------------------------
// The rendering model.
// ------------------------------------------------------------------

/// An identifier is wrapped in double quotes verbatim.
pub open spec fn sp_identifier(s: Seq<char>) -> Seq<char> {
    "\""@ + s + "\""@
}

/// The schema prefix: empty for the default schema `public` and for an
/// absent schema, else the quoted schema name.
pub open spec fn sp_schema(o: Option<Seq<char>>) -> Seq<char> {
    match o {
        Some(s) => if s == "public"@ {
            Seq::empty()
        } else {
            sp_identifier(s)
        },
        None => Seq::empty(),
    }
}

/// The qualified table name: `"schema"."table"`, with the schema prefix
/// omitted entirely for the default schema.
pub open spec fn sp_table_identifier(o: Option<Seq<char>>, name: Seq<char>) -> Seq<char> {
    match o {
        Some(s) => if s == "public"@ {
            sp_identifier(name)
        } else {
            sp_identifier(s) + "."@ + sp_identifier(name)
        },
        None => sp_identifier(name),
    }
}

/// The default expression that marks a serial column of `table.column`.
pub open spec fn sp_serial_default(table: Seq<char>, column: Seq<char>) -> Seq<char> {
    "nextval('"@ + table + "_"@ + column + "_seq'::regclass)"@
}

/// Whether a default expression follows the serial-sequence naming
/// convention for `table.column`.
pub open spec fn sp_is_serial(table: Seq<char>, column: Seq<char>, dflt: Seq<char>) -> bool {
    dflt == sp_serial_default(table, column)
}

/// The rendered type of a column: `USER-DEFINED` fails, `ARRAY` renders as
/// `[]<element type>` from the resolved element, an `integer` column with
/// a serial-convention default renders as `serial`, anything else renders
/// verbatim.
pub open spec fn sp_column_type(all: schema::All, c: ir::Column) -> Result<Seq<char>, DdlError> {
    let row = all.columns@[c.column as int];
    if row.data_type@ == "USER-DEFINED"@ {
        Err(DdlError::UnsupportedColumnType)
    } else if row.data_type@ == "ARRAY"@ {
        match c.element_type {
            Some(e) => match all.element_types@[e as int].data_type {
                Some(dt) => Ok("[]"@ + dt@),
                None => Err(DdlError::MissingElementType),
            },
            None => Err(DdlError::MissingElementType),
        }
    } else {
        match row.column_default {
            Some(d) => if row.data_type@ == "integer"@ && sp_is_serial(
                row.table_name@,
                row.column_name@,
                d@,
            ) {
                Ok("serial"@)
            } else {
                Ok(row.data_type@)
            },
            None => Ok(row.data_type@),
        }
    }
}

/// A column is rendered `NOT NULL` exactly when its nullability flag is
/// present and `NO`; an absent flag means nullable.
pub open spec fn sp_not_null(row: schema::Column) -> bool {
    row.is_nullable == Some(YesNo::No)
}

/// The ` NOT NULL` suffix, when owed.
pub open spec fn sp_nn_suffix(row: schema::Column) -> Seq<char> {
    if sp_not_null(row) {
        " NOT NULL"@
    } else {
        Seq::empty()
    }
}

/// The ` DEFAULT <expr>` suffix: present when the column has a default and
/// was not rendered as `serial` (whose sequence default is implied).
pub open spec fn sp_default_suffix(row: schema::Column, rendered: Seq<char>) -> Seq<char> {
    match row.column_default {
        Some(d) => if rendered == "serial"@ {
            Seq::empty()
        } else {
            " DEFAULT "@ + d@
        },
        None => Seq::empty(),
    }
}

/// One rendered column definition.
pub open spec fn sp_column_line(all: schema::All, c: ir::Column) -> Result<Seq<char>, DdlError> {
    let row = all.columns@[c.column as int];
    match sp_column_type(all, c) {
        Ok(t) => Ok(
            sp_identifier(row.column_name@) + " "@ + t + sp_nn_suffix(row) + sp_default_suffix(
                row,
                t,
            ),
        ),
        Err(e) => Err(e),
    }
}

/// All rendered column definitions, in order; the first failing column
/// fails the table.
pub open spec fn sp_column_lines(all: schema::All, cols: Seq<ir::Column>) -> Result<
    Seq<Seq<char>>,
    DdlError,
>
    decreases cols.len(),
{
    if cols.len() == 0 {
        Ok(Seq::empty())
    } else {
        match sp_column_lines(all, cols.drop_last()) {
            Ok(ls) => match sp_column_line(all, cols.last()) {
                Ok(l) => Ok(ls.push(l)),
                Err(e) => Err(e),
            },
            Err(e) => Err(e),
        }
    }
}

/// The check clause this engine itself would write for a `NOT NULL`
/// column.
pub open spec fn sp_nn_clause(row: schema::Column) -> Seq<char> {
    sp_identifier(row.column_name@) + " IS NOT NULL"@
}

/// The clauses this engine would write for every `NOT NULL` column among
/// `cols`, in column order.
pub open spec fn sp_nn_clauses(all: schema::All, cols: Seq<ir::Column>) -> Seq<Seq<char>>
    decreases cols.len(),
{
    if cols.len() == 0 {
        Seq::empty()
    } else {
        let prev = sp_nn_clauses(all, cols.drop_last());
        let row = all.columns@[cols.last().column as int];
        if sp_not_null(row) {
            prev.push(sp_nn_clause(row))
        } else {
            prev
        }
    }
}

/// A `CHECK` constraint is redundant when it has at least one clause and
/// every clause restates the `NOT NULL` of one of the table's own columns;
/// such a constraint is suppressed, since the column definitions already
/// carry `NOT NULL`.
pub open spec fn sp_is_redundant_check(
    all: schema::All,
    c: ConstraintView,
    nn: Seq<Seq<char>>,
) -> bool {
    let crow = all.table_constraints@[c.constraint as int];
    &&& crow.constraint_type@ == "CHECK"@
    &&& c.checks.len() > 0
    &&& forall|k: int|
        0 <= k < c.checks.len() ==> nn.contains(
            all.check_constraints@[(#[trigger] c.checks[k]).check_constraint as int].check_clause@,
        )
}

/// The constraint's columns, quoted and comma-joined in resolved order.
pub open spec fn sp_join_idents(all: schema::All, cols: Seq<ir::Column>) -> Seq<char>
    decreases cols.len(),
{
    if cols.len() == 0 {
        Seq::empty()
    } else if cols.len() == 1 {
        sp_identifier(all.columns@[cols[0].column as int].column_name@)
    } else {
        sp_join_idents(all, cols.drop_last()) + ", "@ + sp_identifier(
            all.columns@[cols.last().column as int].column_name@,
        )
    }
}

/// One rendered table-level constraint: `PRIMARY KEY` and `UNIQUE` render
/// their column lists; any other kind is skipped (foreign keys are a
/// non-goal, and a kept `CHECK` has no rendering here), reported by the
/// caller as a diagnostic.
pub open spec fn sp_constraint_line(all: schema::All, c: ConstraintView) -> Option<Seq<char>> {
    let crow = all.table_constraints@[c.constraint as int];
    if crow.constraint_type@ == "PRIMARY KEY"@ {
        Some("PRIMARY KEY ("@ + sp_join_idents(all, c.columns) + ")"@)
    } else if crow.constraint_type@ == "UNIQUE"@ {
        Some("UNIQUE ("@ + sp_join_idents(all, c.columns) + ")"@)
    } else {
        None
    }
}

/// All rendered constraint lines, in order: redundant checks suppressed,
/// unrenderable kinds skipped.
pub open spec fn sp_constraint_lines(
    all: schema::All,
    cs: Seq<ConstraintView>,
    nn: Seq<Seq<char>>,
) -> Seq<Seq<char>>
    decreases cs.len(),
{
    if cs.len() == 0 {
        Seq::empty()
    } else {
        let prev = sp_constraint_lines(all, cs.drop_last(), nn);
        let c = cs.last();
        if sp_is_redundant_check(all, c, nn) {
            prev
        } else {
            match sp_constraint_line(all, c) {
                Some(l) => prev.push(l),
                None => prev,
            }
        }
    }
}

/// The statement body: each line tab-indented on its own line, lines
/// separated by commas.
pub open spec fn sp_body(lines: Seq<Seq<char>>) -> Seq<char>
    decreases lines.len(),
{
    if lines.len() == 0 {
        Seq::empty()
    } else {
        sp_body(lines.drop_last()) + (if lines.len() == 1 {
            "\n\t"@
        } else {
            ",\n\t"@
        }) + lines.last()
    }
}

/// The whole statement for one correlated table: fails unless the table is
/// a `BASE TABLE`; the body holds all columns (by ordinal), then all
/// rendered constraints (by name).
pub open spec fn sp_table_text(all: schema::All, t: TableView) -> Result<Seq<char>, DdlError> {
    let trow = all.tables@[t.table as int];
    if opt_view(trow.table_type) != Some("BASE TABLE"@) {
        Err(DdlError::UnsupportedTableKind)
    } else {
        match sp_column_lines(all, t.columns) {
            Ok(cls) => Ok(
                "CREATE TABLE "@ + sp_table_identifier(
                    opt_view(trow.table_schema),
                    trow.table_name@,
                ) + " ("@ + sp_body(
                    cls + sp_constraint_lines(all, t.constraints, sp_nn_clauses(all, t.columns)),
                ) + "\n);"@,
            ),
            Err(e) => Err(e),
        }
    }
}

// ------------------------------------------------------------------
// Executable rendering.
// ------------------------------------------------------------------

/// Quotes one identifier.
fn identifier(data: &str) -> (r: String)
    ensures
        r@ == sp_identifier(data@),
{
    let mut r = String::new();
    r.append("\"");
    r.append(data);
    r.append("\"");
    proof {
        assert(r@ =~= sp_identifier(data@));
    }
    r
}

/// The schema prefix, empty for the default schema.
fn schema(data: &Option<String>) -> (r: String)
    ensures
        r@ == sp_schema(opt_view(*data)),
{
    match data {
        Some(s) => {
            if str_eq(s.as_str(), "public") {
                String::new()
            } else {
                identifier(s.as_str())
            }
        },
        None => String::new(),
    }
}

/// The qualified table name.
fn table_identifier(table_schema: &Option<String>, table_name: &str) -> (r: String)
    ensures
        r@ == sp_table_identifier(opt_view(*table_schema), table_name@),
{
    let mut res = schema(table_schema);
    if !res.as_str().is_empty() {
        proof {
            reveal_strlit("\"");
            assert(match opt_view(*table_schema) {
                Some(s) => s != "public"@,
                None => false,
            });
        }
        res.append(".");
        let q = identifier(table_name);
        res.append(q.as_str());
        proof {
            assert(res@ =~= sp_table_identifier(opt_view(*table_schema), table_name@));
        }
        res
    } else {
        proof {
            reveal_strlit("\"");
            assert(match opt_view(*table_schema) {
                Some(s) => s == "public"@,
                None => true,
            });
        }
        let q = identifier(table_name);
        res.append(q.as_str());
        proof {
            assert(res@ =~= sp_identifier(table_name@));
        }
        res
    }
}

/// Whether a default expression is the serial-sequence default for
/// `table_name.column_name`.
fn is_serial_expression(table_name: &str, column_name: &str, default_expression: &str) -> (r: bool)
    ensures
        r == sp_is_serial(table_name@, column_name@, default_expression@),
{
    let mut expected = String::from_str("nextval('");
    expected.append(table_name);
    expected.append("_");
    expected.append(column_name);
    expected.append("_seq'::regclass)");
    proof {
        assert(expected@ =~= sp_serial_default(table_name@, column_name@));
    }
    str_eq(expected.as_str(), default_expression)
}

/// Renders one column definition.
fn column(all: &schema::All, col: &ir::Column) -> (r: Result<String, DdlError>)
    requires
        ir::wf_column(*all, *col),
    ensures
        match r {
            Ok(s) => sp_column_line(*all, *col) == Ok::<Seq<char>, DdlError>(s@),
            Err(e) => sp_column_line(*all, *col) == Err::<Seq<char>, DdlError>(e),
        },
{
    let row = &all.columns[col.column];
    let mut res = identifier(row.column_name.as_str());

    let data_type: String;
    if str_eq(row.data_type.as_str(), "USER-DEFINED") {
        return Err(DdlError::UnsupportedColumnType);
    } else if str_eq(row.data_type.as_str(), "ARRAY") {
        match col.element_type {
            Some(e) => {
                let et = &all.element_types[e];
                match &et.data_type {
                    Some(dt) => {
                        let mut t = String::from_str("[]");
                        t.append(dt.as_str());
                        data_type = t;
                    },
                    None => {
                        return Err(DdlError::MissingElementType);
                    },
                }
            },
            None => {
                return Err(DdlError::MissingElementType);
            },
        }
    } else {
        let mut is_serial = false;
        match &row.column_default {
            Some(d) => {
                if str_eq(row.data_type.as_str(), "integer") && is_serial_expression(
                    row.table_name.as_str(),
                    row.column_name.as_str(),
                    d.as_str(),
                ) {
                    is_serial = true;
                }
            },
            None => {},
        }
        if is_serial {
            data_type = String::from_str("serial");
        } else {
            data_type = row.data_type.clone();
        }
    }
    proof {
        assert(sp_column_type(*all, *col) == Ok::<Seq<char>, DdlError>(data_type@));
    }

    res.append(" ");
    res.append(data_type.as_str());
    if matches!(row.is_nullable, Some(YesNo::No)) {
        res.append(" NOT NULL");
    }
    match &row.column_default {
        Some(d) => {
            if !str_eq(data_type.as_str(), "serial") {
                res.append(" DEFAULT ");
                res.append(d.as_str());
            }
        },
        None => {},
    }
    proof {
        let rowg = all.columns@[col.column as int];
        assert(res@ =~= sp_identifier(rowg.column_name@) + " "@ + data_type@ + sp_nn_suffix(rowg)
            + sp_default_suffix(rowg, data_type@));
    }
    Ok(res)
}

/// Joins the quoted column names of a constraint with `, `.
fn join(all: &schema::All, cols: &Vec<ir::Column>) -> (r: String)
    requires
        forall|k: int| 0 <= k < cols@.len() ==> ir::wf_column(*all, #[trigger] cols@[k]),
    ensures
        r@ == sp_join_idents(*all, cols@),
{
    let mut res = String::new();
    let n = cols.len();
    let mut i: usize = 0;
    while i < n
        invariant
            i <= n,
            res@ == sp_join_idents(*all, cols@.take(i as int)),
        decreases n - i,
    {
        if i > 0 {
            res.append(", ");
        }
        let row = &all.columns[cols[i].column];
        let q = identifier(row.column_name.as_str());
        res.append(q.as_str());
        proof {
            assert(cols@.take(i + 1).drop_last() =~= cols@.take(i as int));
            assert(cols@.take(i + 1).last() == cols@[i as int]);
            assert(cols@.take(i + 1)[0] == cols@[0]);
            assert(res@ =~= sp_join_idents(*all, cols@.take(i + 1)));
        }
        i = i + 1;
    }
    proof {
        assert(cols@.take(n as int) =~= cols@);
    }
    res
}

/// Renders one table-level constraint, or skips it: only `PRIMARY KEY`
/// and `UNIQUE` have a rendering; any other kind is dropped here and
/// reported by the caller.
fn table_constraint(all: &schema::All, item: &ir::TableConstraint) -> (r: Option<String>)
    requires
        ir::wf_constraint_view(*all, constraint_view(*item)),
    ensures
        match r {
            Some(s) => sp_constraint_line(*all, constraint_view(*item)) == Some(s@),
            None => sp_constraint_line(*all, constraint_view(*item)) is None,
        },
{
    let crow = &all.table_constraints[item.table_constraint];
    if str_eq(crow.constraint_type.as_str(), "PRIMARY KEY") {
        let mut res = String::from_str("PRIMARY KEY (");
        let cols = join(all, &item.columns);
        res.append(cols.as_str());
        res.append(")");
        proof {
            assert(res@ =~= "PRIMARY KEY ("@ + sp_join_idents(*all, item.columns@) + ")"@);
        }
        Some(res)
    } else if str_eq(crow.constraint_type.as_str(), "UNIQUE") {
        let mut res = String::from_str("UNIQUE (");
        let cols = join(all, &item.columns);
        res.append(cols.as_str());
        res.append(")");
        proof {
            assert(res@ =~= "UNIQUE ("@ + sp_join_idents(*all, item.columns@) + ")"@);
        }
        Some(res)
    } else {
        None
    }
}

/// The check clause owed to one `NOT NULL` column, if the column is one.
fn non_nullable_check_constraint(all: &schema::All, col: &ir::Column) -> (r: Option<String>)
    requires
        ir::wf_column(*all, *col),
    ensures
        match r {
            Some(s) => sp_not_null(all.columns@[col.column as int]) && s@ == sp_nn_clause(
                all.columns@[col.column as int],
            ),
            None => !sp_not_null(all.columns@[col.column as int]),
        },
{
    let row = &all.columns[col.column];
    if matches!(row.is_nullable, Some(YesNo::No)) {
        let mut res = identifier(row.column_name.as_str());
        res.append(" IS NOT NULL");
        proof {
            assert(res@ =~= sp_nn_clause(all.columns@[col.column as int]));
        }
        Some(res)
    } else {
        None
    }
}

/// The clauses this engine would write for the table's `NOT NULL` columns.
fn non_nullable_clauses(all: &schema::All, cols: &Vec<ir::Column>) -> (r: Vec<String>)
    requires
        forall|k: int| 0 <= k < cols@.len() ==> ir::wf_column(*all, #[trigger] cols@[k]),
    ensures
        r@.map_values(|s: String| s@) == sp_nn_clauses(*all, cols@),
{
    let mut r: Vec<String> = Vec::new();
    let n = cols.len();
    let mut i: usize = 0;
    while i < n
        invariant
            i <= n,
            r@.map_values(|s: String| s@) == sp_nn_clauses(*all, cols@.take(i as int)),
        decreases n - i,
    {
        let ghost before = r@;
        match non_nullable_check_constraint(all, &cols[i]) {
            Some(s) => {
                r.push(s);
                proof {
                    assert(r@.map_values(|s: String| s@) =~= before.map_values(|s: String| s@)
                        .push(r@.last()@));
                }
            },
            None => {},
        }
        proof {
            assert(cols@.take(i + 1).drop_last() =~= cols@.take(i as int));
            assert(cols@.take(i + 1).last() == cols@[i as int]);
        }
        i = i + 1;
    }
    proof {
        assert(cols@.take(n as int) =~= cols@);
    }
    r
}

/// Whether `clauses` holds a string equal to `x`.
fn contains_str(clauses: &Vec<String>, x: &str) -> (r: bool)
    ensures
        r == clauses@.map_values(|s: String| s@).contains(x@),
{
    let n = clauses.len();
    let mut i: usize = 0;
    while i < n
        invariant
            i <= n,
            forall|k: int| 0 <= k < i ==> (#[trigger] clauses@[k])@ != x@,
        decreases n - i,
    {
        if str_eq(clauses[i].as_str(), x) {
            proof {
                assert(clauses@.map_values(|s: String| s@)[i as int] == x@);
            }
            return true;
        }
        i = i + 1;
    }
    proof {
        let m = clauses@.map_values(|s: String| s@);
        assert forall|k: int| 0 <= k < m.len() implies m[k] != x@ by {
            assert(m[k] == clauses@[k]@);
        }
    }
    false
}

/// Whether a constraint is a `CHECK` wholly explained by the table's own
/// `NOT NULL` columns, and so suppressed.
fn is_redundant_check_constraint(
    all: &schema::All,
    clauses: &Vec<String>,
    c: &ir::TableConstraint,
) -> (r: bool)
    requires
        ir::wf_constraint_view(*all, constraint_view(*c)),
    ensures
        r == sp_is_redundant_check(
            *all,
            constraint_view(*c),
            clauses@.map_values(|s: String| s@),
        ),
{
    let crow = &all.table_constraints[c.table_constraint];
    if !str_eq(crow.constraint_type.as_str(), "CHECK") {
        return false;
    }
    let n = c.check_constraints.len();
    if n == 0 {
        return false;
    }
    let mut i: usize = 0;
    while i < n
        invariant
            i <= n,
            forall|k: int|
                0 <= k < i ==> clauses@.map_values(|s: String| s@).contains(
                    all.check_constraints@[(#[trigger] c.check_constraints@[k]).check_constraint
                        as int].check_clause@,
                ),
        decreases n - i,
    {
        proof {
            assert(constraint_view(*c).checks[i as int] == c.check_constraints@[i as int]);
        }
        let row = &all.check_constraints[c.check_constraints[i].check_constraint];
        if !contains_str(clauses, row.check_clause.as_str()) {
            return false;
        }
        i = i + 1;
    }
    true
}

// ------------------------------------------------------------------
// Laws of the rendering.
// ------------------------------------------------------------------

/// Correlation and synthesis are functions of the snapshot: two correlated
/// graphs built from the same snapshot have the same view, and rendering
/// them yields identical text, table for table.
pub proof fn lemma_run_deterministic(all: schema::All, r1: ir::All, r2: ir::All)
    requires
        ir::ir_view(r1) == ir::correlated_tables(all),
        ir::ir_view(r2) == ir::correlated_tables(all),
    ensures
        ir::ir_view(r1) == ir::ir_view(r2),
        forall|i: int|
            0 <= i < ir::ir_view(r1).len() ==> sp_table_text(all, #[trigger] ir::ir_view(r1)[i])
                == sp_table_text(all, ir::ir_view(r2)[i]),
{
}

/// A table in the default schema `public` renders without any schema
/// prefix, exactly as a table with no schema at all.
pub proof fn lemma_default_schema_omitted(name: Seq<char>)
    ensures
        sp_table_identifier(Some("public"@), name) == sp_identifier(name),
        sp_table_identifier(None, name) == sp_identifier(name),
{
}

/// A table in any other schema renders with the quoted schema prefix and
/// a dot.
pub proof fn lemma_schema_qualifies(s: Seq<char>, name: Seq<char>)
    requires
        s != "public"@,
    ensures
        sp_table_identifier(Some(s), name) == sp_identifier(s) + "."@ + sp_identifier(name),
{
}

/// An `integer` column whose default follows the serial-sequence naming
/// convention for its own table renders as `serial`, and its `DEFAULT`
/// clause is suppressed; only the nullability suffix may follow.
pub proof fn lemma_serial_column(all: schema::All, c: ir::Column)
    requires
        all.columns@[c.column as int].data_type@ == "integer"@,
        all.columns@[c.column as int].column_default matches Some(d) && d@ == sp_serial_default(
            all.columns@[c.column as int].table_name@,
            all.columns@[c.column as int].column_name@,
        ),
    ensures
        sp_column_type(all, c) == Ok::<Seq<char>, DdlError>("serial"@),
        sp_column_line(all, c) == Ok::<Seq<char>, DdlError>(
            sp_identifier(all.columns@[c.column as int].column_name@) + " "@ + "serial"@
                + sp_nn_suffix(all.columns@[c.column as int]),
        ),
{
    let row = all.columns@[c.column as int];
    proof_strlit_distinct();
    assert(sp_column_type(all, c) == Ok::<Seq<char>, DdlError>("serial"@));
    assert(sp_default_suffix(row, "serial"@) == Seq::<char>::empty());
    assert(sp_identifier(row.column_name@) + " "@ + "serial"@ + sp_nn_suffix(row)
        + sp_default_suffix(row, "serial"@) =~= sp_identifier(row.column_name@) + " "@
        + "serial"@ + sp_nn_suffix(row));
}

/// The serial convention names the owning table: the same default
/// expression on a table of another name does not trigger serial
/// rendering.
pub proof fn lemma_serial_needs_owning_table(
    t1: Seq<char>,
    t2: Seq<char>,
    column: Seq<char>,
    dflt: Seq<char>,
)
    requires
        dflt == sp_serial_default(t1, column),
        t1 != t2,
    ensures
        !sp_is_serial(t2, column, dflt),
{
    if sp_is_serial(t2, column, dflt) {
        let p = "nextval('"@;
        let a = sp_serial_default(t1, column);
        let b = sp_serial_default(t2, column);
        assert(a.len() == p.len() + t1.len() + "_"@.len() + column.len()
            + "_seq'::regclass)"@.len());
        assert(b.len() == p.len() + t2.len() + "_"@.len() + column.len()
            + "_seq'::regclass)"@.len());
        assert(t1.len() == t2.len());
        assert(t1 =~= a.subrange(p.len() as int, p.len() as int + t1.len() as int));
        assert(t2 =~= b.subrange(p.len() as int, p.len() as int + t2.len() as int));
        assert(false);
    }
}

/// A column renders `NOT NULL` exactly when its nullability flag is
/// present and `NO`; an absent or `YES` flag adds nothing.
pub proof fn lemma_nullability(all: schema::All, c: ir::Column, t: Seq<char>)
    requires
        sp_column_type(all, c) == Ok::<Seq<char>, DdlError>(t),
    ensures
        sp_column_line(all, c) == Ok::<Seq<char>, DdlError>(
            sp_identifier(all.columns@[c.column as int].column_name@) + " "@ + t + sp_nn_suffix(
                all.columns@[c.column as int],
            ) + sp_default_suffix(all.columns@[c.column as int], t),
        ),
        all.columns@[c.column as int].is_nullable == Some(YesNo::No) ==> sp_nn_suffix(
            all.columns@[c.column as int],
        ) == " NOT NULL"@,
        all.columns@[c.column as int].is_nullable != Some(YesNo::No) ==> sp_nn_suffix(
            all.columns@[c.column as int],
        ) == Seq::<char>::empty(),
{
}

/// An `ARRAY` column renders as `[]` followed by the resolved element's
/// data type, and fails with `MissingElementType` when no element type
/// resolved (or the resolved element carries none).
pub proof fn lemma_array_column(all: schema::All, c: ir::Column)
    requires
        all.columns@[c.column as int].data_type@ == "ARRAY"@,
    ensures
        match c.element_type {
            Some(e) => match all.element_types@[e as int].data_type {
                Some(dt) => sp_column_type(all, c) == Ok::<Seq<char>, DdlError>("[]"@ + dt@),
                None => sp_column_type(all, c) == Err::<Seq<char>, DdlError>(
                    DdlError::MissingElementType,
                ),
            },
            None => sp_column_type(all, c) == Err::<Seq<char>, DdlError>(
                DdlError::MissingElementType,
            ),
        },
{
    proof_strlit_distinct();
}

/// A redundant `CHECK` constraint contributes nothing to the rendered
/// body: the lines are those of the list with it removed.
pub proof fn lemma_redundant_check_suppressed(
    all: schema::All,
    cs: Seq<ConstraintView>,
    nn: Seq<Seq<char>>,
    k: int,
)
    requires
        0 <= k < cs.len(),
        sp_is_redundant_check(all, cs[k], nn),
    ensures
        sp_constraint_lines(all, cs, nn) == sp_constraint_lines(all, cs.remove(k), nn),
    decreases cs.len(),
{
    if k == cs.len() - 1 {
        assert(cs.remove(k) =~= cs.drop_last());
    } else {
        lemma_redundant_check_suppressed(all, cs.drop_last(), nn, k);
        assert(cs.drop_last().remove(k) =~= cs.remove(k).drop_last());
        assert(cs.drop_last()[k] == cs[k]);
        assert(cs.remove(k).last() == cs.last());
        assert(cs.remove(k).len() > 0);
    }
}

/// A `CHECK` constraint with any clause that no `NOT NULL` column of the
/// table explains is not redundant: it is kept and handed to constraint
/// rendering (which skips it with a diagnostic, since a kept `CHECK` has
/// no rendering here).
pub proof fn lemma_foreign_clause_keeps_check(
    all: schema::All,
    c: ConstraintView,
    nn: Seq<Seq<char>>,
    k: int,
)
    requires
        0 <= k < c.checks.len(),
        !nn.contains(
            all.check_constraints@[c.checks[k].check_constraint as int].check_clause@,
        ),
    ensures
        !sp_is_redundant_check(all, c, nn),
{
}

/// A table whose kind is `VIEW` (or anything but `BASE TABLE`) fails
/// synthesis with `UnsupportedTableKind`.
pub proof fn lemma_non_base_table_rejected(all: schema::All, t: TableView)
    requires
        opt_view(all.tables@[t.table as int].table_type) == Some("VIEW"@) || opt_view(
            all.tables@[t.table as int].table_type,
        ) != Some("BASE TABLE"@),
    ensures
        sp_table_text(all, t) == Err::<Seq<char>, DdlError>(DdlError::UnsupportedTableKind),
{
    proof_strlit_distinct();
}

/// The catalog literals the renderer distinguishes are pairwise distinct.
proof fn proof_strlit_distinct()
    ensures
        "USER-DEFINED"@ != "ARRAY"@,
        "USER-DEFINED"@ != "integer"@,
        "ARRAY"@ != "integer"@,
        "VIEW"@ != "BASE TABLE"@,
{
    reveal_strlit("USER-DEFINED");
    reveal_strlit("ARRAY");
    reveal_strlit("integer");
    reveal_strlit("VIEW");
    reveal_strlit("BASE TABLE");
    assert("USER-DEFINED"@.len() == 12);
    assert("ARRAY"@.len() == 5);
    assert("integer"@.len() == 7);
    assert("VIEW"@.len() == 4);
    assert("BASE TABLE"@.len() == 10);
}

/// The column list renders exactly when every single column does.
pub proof fn lemma_column_lines_ok_condition(all: schema::All, cols: Seq<ir::Column>)
    ensures
        sp_column_lines(all, cols) is Ok <==> forall|i: int|
            0 <= i < cols.len() ==> sp_column_line(all, #[trigger] cols[i]) is Ok,
    decreases cols.len(),
{
    if cols.len() > 0 {
        lemma_column_lines_ok_condition(all, cols.drop_last());
        assert(cols.last() == cols[cols.len() - 1]);
        assert(forall|i: int|
            0 <= i < cols.len() - 1 ==> #[trigger] cols[i] == cols.drop_last()[i]);
    }
}

/// Synthesis of a table succeeds exactly when the table is a `BASE TABLE`
/// and every one of its columns renders; constraints never fail it.
pub proof fn lemma_table_text_ok_condition(all: schema::All, t: TableView)
    ensures
        sp_table_text(all, t) is Ok <==> (opt_view(all.tables@[t.table as int].table_type)
            == Some("BASE TABLE"@) && forall|i: int|
            0 <= i < t.columns.len() ==> sp_column_line(all, #[trigger] t.columns[i]) is Ok),
{
    lemma_column_lines_ok_condition(all, t.columns);
}

/// The first column that fails to render fails the whole list.
proof fn lemma_column_lines_err(all: schema::All, cols: Seq<ir::Column>, k: int, e: DdlError)
    requires
        0 <= k < cols.len(),
        sp_column_lines(all, cols.take(k)) is Ok,
        sp_column_line(all, cols[k]) == Err::<Seq<char>, DdlError>(e),
    ensures
        sp_column_lines(all, cols) == Err::<Seq<Seq<char>>, DdlError>(e),
    decreases cols.len(),
{
    if cols.len() == k + 1 {
        assert(cols.drop_last() =~= cols.take(k));
    } else {
        assert(cols.drop_last().take(k) =~= cols.take(k));
        assert(cols.drop_last()[k] == cols[k]);
        lemma_column_lines_err(all, cols.drop_last(), k, e);
    }
}

/// Renders one correlated table as a complete `CREATE TABLE` statement.
///
/// Fails with `UnsupportedTableKind` unless the table is a `BASE TABLE`,
/// and with the first failing column's error otherwise; a constraint never
/// fails the table (unrenderable kinds are skipped, redundant checks
/// suppressed).
pub fn table(all: &schema::All, tbl: &ir::Table) -> (r: Result<String, DdlError>)
    requires
        ir::wf_table_view(*all, table_view(*tbl)),
    ensures
        match r {
            Ok(s) => sp_table_text(*all, table_view(*tbl)) == Ok::<Seq<char>, DdlError>(s@),
            Err(e) => sp_table_text(*all, table_view(*tbl)) == Err::<Seq<char>, DdlError>(e),
        },
{
    let ghost tv = table_view(*tbl);
    let trow = &all.tables[tbl.table];
    let is_base = match &trow.table_type {
        Some(tt) => str_eq(tt.as_str(), "BASE TABLE"),
        None => false,
    };
    proof {
        assert(is_base == (opt_view(trow.table_type) == Some("BASE TABLE"@)));
    }
    if !is_base {
        return Err(DdlError::UnsupportedTableKind);
    }

    // Column definitions, in ordinal order; the first failure is the
    // table's failure.
    let mut lines: Vec<String> = Vec::new();
    let ncols = tbl.columns.len();
    let mut i: usize = 0;
    proof {
        assert(lines@.map_values(|s: String| s@) =~= Seq::<Seq<char>>::empty());
    }
    while i < ncols
        invariant
            i <= ncols,
            sp_column_lines(*all, tv.columns.take(i as int)) == Ok::<Seq<Seq<char>>, DdlError>(
                lines@.map_values(|s: String| s@),
            ),
        decreases ncols - i,
    {
        proof {
            assert(tv.columns[i as int] == tbl.columns@[i as int]);
        }
        let ghost before = lines@;
        match column(all, &tbl.columns[i]) {
            Ok(s) => {
                lines.push(s);
                proof {
                    assert(lines@.map_values(|s: String| s@) =~= before.map_values(
                        |s: String| s@,
                    ).push(lines@.last()@));
                    assert(tv.columns.take(i + 1).drop_last() =~= tv.columns.take(i as int));
                    assert(tv.columns.take(i + 1).last() == tv.columns[i as int]);
                }
            },
            Err(e) => {
                proof {
                    lemma_column_lines_err(*all, tv.columns, i as int, e);
                }
                return Err(e);
            },
        }
        i = i + 1;
    }
    proof {
        assert(tv.columns.take(ncols as int) =~= tv.columns);
    }
    let ghost cls = lines@.map_values(|s: String| s@);

    // Constraint lines, in name order: redundant checks suppressed, other
    // unrenderable kinds skipped.
    let nn = non_nullable_clauses(all, &tbl.columns);
    let ghost nnv = nn@.map_values(|s: String| s@);
    proof {
        assert(cls + sp_constraint_lines(*all, tv.constraints.take(0), nnv) =~= cls);
    }
    let ncons = tbl.table_constraints.len();
    let mut k: usize = 0;
    while k < ncons
        invariant
            k <= ncons,
            lines@.map_values(|s: String| s@) == cls + sp_constraint_lines(
                *all,
                tv.constraints.take(k as int),
                nnv,
            ),
        decreases ncons - k,
    {
        let c = &tbl.table_constraints[k];
        proof {
            assert(tv.constraints[k as int] == constraint_view(*c));
            assert(tv.constraints.take(k + 1).drop_last() =~= tv.constraints.take(k as int));
            assert(tv.constraints.take(k + 1).last() == tv.constraints[k as int]);
        }
        let ghost before = lines@;
        if !is_redundant_check_constraint(all, &nn, c) {
            match table_constraint(all, c) {
                Some(s) => {
                    lines.push(s);
                    proof {
                        assert(lines@.map_values(|s: String| s@) =~= before.map_values(
                            |s: String| s@,
                        ).push(lines@.last()@));
                    }
                },
                None => {},
            }
        }
        k = k + 1;
    }
    proof {
        assert(tv.constraints.take(ncons as int) =~= tv.constraints);
    }

    // Assemble the statement.
    let mut res = String::from_str("CREATE TABLE ");
    let tid = table_identifier(&trow.table_schema, trow.table_name.as_str());
    res.append(tid.as_str());
    res.append(" (");
    let ghost head = res@;
    let ghost lv = lines@.map_values(|s: String| s@);
    proof {
        assert(head + sp_body(lv.take(0)) =~= head);
    }
    let nl = lines.len();
    let mut m: usize = 0;
    while m < nl
        invariant
            m <= nl,
            lv == lines@.map_values(|s: String| s@),
            res@ == head + sp_body(lv.take(m as int)),
        decreases nl - m,
    {
        if m == 0 {
            res.append("\n\t");
        } else {
            res.append(",\n\t");
        }
        res.append(lines[m].as_str());
        proof {
            assert(lv.take(m + 1).drop_last() =~= lv.take(m as int));
            assert(lv.take(m + 1).last() == lv[m as int]);
            assert(lv[m as int] == lines@[m as int]@);
            assert(res@ =~= head + sp_body(lv.take(m + 1)));
        }
        m = m + 1;
    }
    res.append("\n);");
    proof {
        assert(lv.take(nl as int) =~= lv);
        assert(res@ =~= "CREATE TABLE "@ + sp_table_identifier(
            opt_view(trow.table_schema),
            trow.table_name@,
        ) + " ("@ + sp_body(cls + sp_constraint_lines(*all, tv.constraints, sp_nn_clauses(*all, tv.columns)))
            + "\n);"@);
    }
    Ok(res)
}

} // verus!
