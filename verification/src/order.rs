//! Deterministic ordering machinery for the correlation stage: a composite
//! sort key over (schema, name, position), a stable insertion-sort spec with
//! its selection (filter) companion, and the lemmas the correlator leans
//! on: the sort commutes with mapping the element type, keeps every
//! element property, and sorts under any total preorder.
use vstd::prelude::*;
use crate::text::{lex_lt, opt_lex_lt, opt_view, opt_str_eq, opt_str_lt, str_eq, str_lt};

verus! {

/// A composite sort key: optional schema, a name, and a numeric position.
/// Joins that need fewer components leave the rest at `None` / empty / zero.
#[verifier::ext_equal]
pub struct Kv {
    pub schema: Option<Seq<char>>,
    pub name: Seq<char>,
    pub pos: int,
}

/// Non-strict lexicographic order on composite keys: schema, then name,
/// then position; an absent schema sorts first.
pub open spec fn kv_le(a: Kv, b: Kv) -> bool {
    if a.schema != b.schema {
        opt_lex_lt(a.schema, b.schema)
    } else if a.name != b.name {
        lex_lt(a.name, b.name)
    } else {
        a.pos <= b.pos
    }
}

/// Decides `kv_le` on two keys given as plain parts.
pub fn kv3_le(
    a_schema: &Option<String>,
    a_name: &str,
    a_pos: i32,
    b_schema: &Option<String>,
    b_name: &str,
    b_pos: i32,
) -> (r: bool)
    ensures
        r == kv_le(
            Kv { schema: opt_view(*a_schema), name: a_name@, pos: a_pos as int },
            Kv { schema: opt_view(*b_schema), name: b_name@, pos: b_pos as int },
        ),
{
    if !opt_str_eq(a_schema, b_schema) {
        opt_str_lt(a_schema, b_schema)
    } else if !str_eq(a_name, b_name) {
        str_lt(a_name, b_name)
    } else {
        a_pos <= b_pos
    }
}

/// The subsequence of `s` whose elements satisfy `p`, in order.
pub open spec fn sel<P>(p: spec_fn(P) -> bool, s: Seq<P>) -> Seq<P>
    decreases s.len(),
{
    if s.len() == 0 {
        Seq::empty()
    } else {
        let r = sel(p, s.drop_last());
        if p(s.last()) {
            r.push(s.last())
        } else {
            r
        }
    }
}

/// Inserts `x` into `s` from the right, after every element `e` with
/// `le(e, x)`; on a sorted sequence this is one step of a stable
/// insertion sort.
pub open spec fn ins_ins<P>(le: spec_fn(P, P) -> bool, s: Seq<P>, x: P) -> Seq<P>
    decreases s.len(),
{
    if s.len() == 0 {
        seq![x]
    } else if le(s.last(), x) {
        s.push(x)
    } else {
        ins_ins(le, s.drop_last(), x).push(s.last())
    }
}

/// Stable insertion sort of `s` under `le`: elements that compare equal
/// keep their relative order from the input.
pub open spec fn ins_sort<P>(le: spec_fn(P, P) -> bool, s: Seq<P>) -> Seq<P>
    decreases s.len(),
{
    if s.len() == 0 {
        Seq::empty()
    } else {
        ins_ins(le, ins_sort(le, s.drop_last()), s.last())
    }
}

/// `kv_le` is reflexive, total, and transitive: a total preorder.
pub proof fn lemma_kv_le_order(a: Kv, b: Kv, c: Kv)
    ensures
        kv_le(a, a),
        kv_le(a, b) || kv_le(b, a),
        kv_le(a, b) && kv_le(b, c) ==> kv_le(a, c),
{
    if a.schema != b.schema {
        crate::text::lemma_opt_lex_lt_total(a.schema, b.schema);
    } else if a.name != b.name {
        crate::text::lemma_lex_lt_total(a.name, b.name);
    }
    if kv_le(a, b) && kv_le(b, c) {
        if a.schema != b.schema && b.schema != c.schema {
            crate::text::lemma_opt_lex_lt_trans(a.schema, b.schema, c.schema);
            if a.schema == c.schema {
                crate::text::lemma_opt_lex_lt_asym(a.schema, b.schema);
            }
        } else if a.schema == b.schema && b.schema == c.schema {
            if a.name != b.name && b.name != c.name {
                crate::text::lemma_lex_lt_trans(a.name, b.name, c.name);
                if a.name == c.name {
                    crate::text::lemma_lex_lt_asym(a.name, b.name);
                }
            }
        }
    }
}

/// Whether `s` is sorted under `le`: every earlier element compares at or
/// below every later one.
pub open spec fn sorted_by<P>(le: spec_fn(P, P) -> bool, s: Seq<P>) -> bool {
    forall|i: int, j: int| 0 <= i < j < s.len() ==> le(#[trigger] s[i], #[trigger] s[j])
}

/// Whether `le` is a total preorder: reflexive, total, and transitive.
pub open spec fn total_preorder<P>(le: spec_fn(P, P) -> bool) -> bool {
    &&& forall|a: P| #[trigger] le(a, a)
    &&& forall|a: P, b: P| #[trigger] le(a, b) || #[trigger] le(b, a)
    &&& forall|a: P, b: P, c: P| #[trigger] le(a, b) && #[trigger] le(b, c) ==> le(a, c)
}

/// Every element of an insertion is the inserted element or one of the
/// input's.
pub proof fn lemma_ins_ins_all<P>(le: spec_fn(P, P) -> bool, s: Seq<P>, x: P, p: spec_fn(P) -> bool)
    requires
        forall|i: int| 0 <= i < s.len() ==> p(#[trigger] s[i]),
        p(x),
    ensures
        forall|i: int|
            0 <= i < ins_ins(le, s, x).len() ==> p(#[trigger] ins_ins(le, s, x)[i]),
    decreases s.len(),
{
    let r = ins_ins(le, s, x);
    if s.len() == 0 {
        assert(r[0] == x);
    } else if le(s.last(), x) {
        assert forall|i: int| 0 <= i < r.len() implies p(r[i]) by {
            if i < s.len() {
                assert(r[i] == s[i]);
            } else {
                assert(r[i] == x);
            }
        }
    } else {
        lemma_ins_ins_all(le, s.drop_last(), x, p);
        let inner = ins_ins(le, s.drop_last(), x);
        assert forall|i: int| 0 <= i < r.len() implies p(r[i]) by {
            if i < inner.len() {
                assert(r[i] == inner[i]);
            } else {
                assert(r[i] == s.last());
            }
        }
    }
}

/// Every element of the sorted sequence is one of the input's.
pub proof fn lemma_ins_sort_all<P>(le: spec_fn(P, P) -> bool, s: Seq<P>, p: spec_fn(P) -> bool)
    requires
        forall|i: int| 0 <= i < s.len() ==> p(#[trigger] s[i]),
    ensures
        forall|i: int|
            0 <= i < ins_sort(le, s).len() ==> p(#[trigger] ins_sort(le, s)[i]),
    decreases s.len(),
{
    if s.len() > 0 {
        lemma_ins_sort_all(le, s.drop_last(), p);
        lemma_ins_ins_all(le, ins_sort(le, s.drop_last()), s.last(), p);
    }
}

/// Inserting into a sorted sequence keeps it sorted, for a total preorder.
pub proof fn lemma_ins_ins_sorted<P>(le: spec_fn(P, P) -> bool, s: Seq<P>, x: P)
    requires
        total_preorder(le),
        sorted_by(le, s),
    ensures
        sorted_by(le, ins_ins(le, s, x)),
    decreases s.len(),
{
    let r = ins_ins(le, s, x);
    if s.len() == 0 {
    } else if le(s.last(), x) {
        assert forall|i: int, j: int| 0 <= i < j < r.len() implies le(r[i], r[j]) by {
            if j < s.len() {
                assert(le(s[i], s[j]));
            } else {
                assert(r[j] == x);
                if i < s.len() - 1 {
                    assert(le(s[i], s.last()));
                }
            }
        }
    } else {
        assert(sorted_by(le, s.drop_last()));
        lemma_ins_ins_sorted(le, s.drop_last(), x);
        let inner = ins_ins(le, s.drop_last(), x);
        // x sorts below the old last element, and so does everything that
        // was already there.
        lemma_ins_ins_all(le, s.drop_last(), x, |e: P| le(e, s.last()));
        assert forall|i: int, j: int| 0 <= i < j < r.len() implies le(r[i], r[j]) by {
            if j < inner.len() {
                assert(r[i] == inner[i] && r[j] == inner[j]);
            } else {
                assert(r[j] == s.last());
                assert(r[i] == inner[i]);
            }
        }
    }
}

/// Insertion sort sorts, for a total preorder.
pub proof fn lemma_ins_sort_sorted<P>(le: spec_fn(P, P) -> bool, s: Seq<P>)
    requires
        total_preorder(le),
    ensures
        sorted_by(le, ins_sort(le, s)),
    decreases s.len(),
{
    if s.len() > 0 {
        lemma_ins_sort_sorted(le, s.drop_last());
        lemma_ins_ins_sorted(le, ins_sort(le, s.drop_last()), s.last());
    }
}

/// Insertion commutes with mapping when the orders agree across the map.
pub proof fn lemma_ins_ins_map<P, Q>(
    lep: spec_fn(P, P) -> bool,
    leq: spec_fn(Q, Q) -> bool,
    g: spec_fn(P) -> Q,
    s: Seq<P>,
    x: P,
)
    requires
        forall|a: P, b: P| #[trigger] lep(a, b) == leq(g(a), g(b)),
    ensures
        ins_ins(lep, s, x).map_values(g) == ins_ins(leq, s.map_values(g), g(x)),
    decreases s.len(),
{
    let sm = s.map_values(g);
    if s.len() == 0 {
        assert(ins_ins(lep, s, x).map_values(g) =~= ins_ins(leq, sm, g(x)));
    } else {
        assert(sm.last() == g(s.last()));
        assert(sm.drop_last() =~= s.drop_last().map_values(g));
        if lep(s.last(), x) {
            assert(s.push(x).map_values(g) =~= sm.push(g(x)));
        } else {
            lemma_ins_ins_map(lep, leq, g, s.drop_last(), x);
            assert(ins_ins(lep, s.drop_last(), x).push(s.last()).map_values(g) =~= ins_ins(
                lep,
                s.drop_last(),
                x,
            ).map_values(g).push(g(s.last())));
        }
    }
}

/// Stable sorting commutes with mapping when the orders agree across the map.
pub proof fn lemma_ins_sort_map<P, Q>(
    lep: spec_fn(P, P) -> bool,
    leq: spec_fn(Q, Q) -> bool,
    g: spec_fn(P) -> Q,
    s: Seq<P>,
)
    requires
        forall|a: P, b: P| #[trigger] lep(a, b) == leq(g(a), g(b)),
    ensures
        ins_sort(lep, s).map_values(g) == ins_sort(leq, s.map_values(g)),
    decreases s.len(),
{
    let sm = s.map_values(g);
    if s.len() == 0 {
        assert(ins_sort(lep, s).map_values(g) =~= ins_sort(leq, sm));
    } else {
        assert(sm.last() == g(s.last()));
        assert(sm.drop_last() =~= s.drop_last().map_values(g));
        lemma_ins_sort_map(lep, leq, g, s.drop_last());
        lemma_ins_ins_map(lep, leq, g, ins_sort(lep, s.drop_last()), s.last());
    }
}

} // verus!
