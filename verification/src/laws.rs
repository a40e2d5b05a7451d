//! The laws the library states of itself, beyond the contracts of its
//! functions: value round trips through the column mapper, composite
//! decomposition, table deduplication, and where the caller's filter
//! condition ends up.

use vstd::prelude::*;
use crate::sql_struct::{Reconstruct, ReconstructError, ReconstructResult, SpecJoin, SpecJoinClause};
use crate::statement::{
    spec_condition_claimed, spec_condition_text, spec_dedup, spec_from_tables, spec_join_line,
    spec_join_tables, spec_where_text, lemma_dedup_membership, lemma_dedup_no_repeats,
};
use crate::types::{Drive, Person, Registration};
use crate::value::{lemma_option_roundtrip, SqlScalar, SqlValue};

verus! {

/// Round trip for a drive: storing its cells and reconstructing from them
/// yields the drive unchanged, field for field.
pub proof fn lemma_drive_roundtrip(d: Drive)
    ensures
        Drive::spec_from_row(d.spec_to_row()) == ReconstructResult::<Drive>::Ok(d),
{
    <crate::dates::Timestamp as SqlScalar>::lemma_roundtrip(d.date);
    lemma_option_roundtrip::<crate::dates::Timestamp>(d.deadline);
    lemma_option_roundtrip::<u32>(d.registration_cap);
    assert(d.spec_to_row().len() == 4);
}

/// Round trip for a person: storing a well-formed person's cells and
/// reconstructing from them yields the person unchanged. Well-formed means
/// the email has passed validation, which is the only way the library builds
/// one.
pub proof fn lemma_person_roundtrip(p: Person)
    requires
        p.wf(),
    ensures
        Person::spec_from_row(p.spec_to_row()) == ReconstructResult::<Person>::Ok(p),
{
    <crate::email::Address as SqlScalar>::lemma_roundtrip(p.email);
    lemma_option_roundtrip::<String>(p.token);
    lemma_option_roundtrip::<i64>(p.token_expiration);
    assert(p.spec_to_row().len() == 8);
}

/// Round trip for a registration: storing a well-formed registration's cells
/// and reconstructing from them yields it unchanged, the nested person and
/// drive included.
pub proof fn lemma_registration_roundtrip(r: Registration)
    requires
        r.wf(),
    ensures
        Registration::spec_from_row(r.spec_to_row()) == ReconstructResult::<Registration>::Ok(r),
{
    lemma_person_roundtrip(r.person);
    lemma_drive_roundtrip(r.drive);
    let row = r.spec_to_row();
    assert(row.len() == 13);
    assert(row.subrange(0, 8) =~= r.person.spec_to_row());
    assert(row.subrange(8, 12) =~= r.drive.spec_to_row());
    assert(row[12] == SqlValue::Integer(if r.registered { 1 } else { 0 }));
}

/// Composite decomposition for a pair: the grouped metadata is the
/// concatenation of the members' metadata in order, and reconstructing the
/// pair from a flat sequence of the concatenated length reconstructs each
/// member exactly as that member's own reconstruction on its sub-slice in
/// isolation. Every other arity follows the same construction, one sub-slice
/// per member.
pub proof fn lemma_pair_decomposition<A: Reconstruct, B: Reconstruct>(values: Seq<SqlValue>)
    ensures
        <(A, B)>::spec_tables() == A::spec_tables() + B::spec_tables(),
        <(A, B)>::spec_joins() == A::spec_joins() + B::spec_joins(),
        <(A, B)>::spec_exprs() == A::spec_exprs() + B::spec_exprs(),
        values.len() == A::spec_exprs().len() + B::spec_exprs().len() ==> <(A, B)>::spec_from_row(
            values,
        ) == (match (
            A::spec_from_row(values.take(A::spec_exprs().len() as int)),
            B::spec_from_row(values.skip(A::spec_exprs().len() as int)),
        ) {
            (Err(e), _) => Err::<(A, B), ReconstructError>(e),
            (Ok(_), Err(e)) => Err(e),
            (Ok(a), Ok(b)) => Ok((a, b)),
        }),
{
    let na = A::spec_exprs().len() as int;
    let nb = B::spec_exprs().len() as int;
    if values.len() == na + nb {
        assert(values.take(na) =~= values.subrange(0, na));
        assert(values.skip(na) =~= values.subrange(na, na + nb));
    }
}

/// Composite decomposition for a triple, the same way: three consecutive
/// sub-slices, one per member.
pub proof fn lemma_triple_decomposition<A: Reconstruct, B: Reconstruct, C: Reconstruct>(
    values: Seq<SqlValue>,
)
    ensures
        <(A, B, C)>::spec_tables() == A::spec_tables() + B::spec_tables() + C::spec_tables(),
        <(A, B, C)>::spec_joins() == A::spec_joins() + B::spec_joins() + C::spec_joins(),
        <(A, B, C)>::spec_exprs() == A::spec_exprs() + B::spec_exprs() + C::spec_exprs(),
        values.len() == A::spec_exprs().len() + B::spec_exprs().len() + C::spec_exprs().len()
            ==> <(A, B, C)>::spec_from_row(values) == (match (
            A::spec_from_row(values.subrange(0, A::spec_exprs().len() as int)),
            B::spec_from_row(
                values.subrange(
                    A::spec_exprs().len() as int,
                    (A::spec_exprs().len() + B::spec_exprs().len()) as int,
                ),
            ),
            C::spec_from_row(
                values.subrange(
                    (A::spec_exprs().len() + B::spec_exprs().len()) as int,
                    values.len() as int,
                ),
            ),
        ) {
            (Err(e), _, _) => Err::<(A, B, C), ReconstructError>(e),
            (Ok(_), Err(e), _) => Err(e),
            (Ok(_), Ok(_), Err(e)) => Err(e),
            (Ok(a), Ok(b), Ok(c)) => Ok((a, b, c)),
        }),
{
}

/// An element stays in a filtered sequence only if it stood in the original
/// and satisfies the predicate.
proof fn lemma_filter_subset<T>(s: Seq<T>, pred: spec_fn(T) -> bool, x: T)
    ensures
        s.filter(pred).contains(x) ==> s.contains(x) && pred(x),
    decreases s.len(),
{
    reveal(Seq::filter);
    if s.len() > 0 {
        lemma_filter_subset(s.drop_last(), pred, x);
        if s.filter(pred).contains(x) {
            let f = s.filter(pred);
            let i = choose|i: int| 0 <= i < f.len() && f[i] == x;
            if pred(s.last()) && i == f.len() - 1 {
                assert(x == s.last());
                assert(s[s.len() - 1] == x);
            } else {
                assert(s.drop_last().filter(pred)[i] == x);
                assert(s.drop_last().filter(pred).contains(x));
                if s.drop_last().contains(x) {
                    let j = choose|j: int| 0 <= j < s.drop_last().len() && s.drop_last()[j] == x;
                    assert(s[j] == x);
                }
            }
        }
    }
}

/// Table deduplication: the plain `FROM` list never holds a table twice, and
/// it holds a table exactly when that table is required and no join supplies
/// it — a join's table leaves the `FROM` list, while [`super::statement::spec_statement`]
/// still emits one join line per declared join. So a nested table that is
/// also a top-level required table stands in the statement exactly once.
pub proof fn lemma_table_dedup(tables: Seq<Seq<char>>, joins: Seq<SpecJoin>, t: Seq<char>)
    ensures
        forall|i: int, j: int|
            0 <= i < j < spec_from_tables(tables, joins).len() ==> spec_from_tables(tables, joins)[i]
                != spec_from_tables(tables, joins)[j],
        spec_from_tables(tables, joins).contains(t) <==> (tables.contains(t) && !spec_join_tables(
            joins,
        ).contains(t)),
{
    let pred = |x: Seq<char>| !spec_join_tables(joins).contains(x);
    let deduped = spec_dedup(tables);
    lemma_dedup_no_repeats(tables);
    lemma_dedup_membership(tables, t);
    lemma_filter_subset(deduped, pred, t);
    assert forall|i: int, j: int|
        0 <= i < j < spec_from_tables(tables, joins).len() implies spec_from_tables(tables, joins)[i]
        != spec_from_tables(tables, joins)[j] by {
        let f = deduped.filter(pred);
        deduped.lemma_filter_pred(pred, i);
        deduped.lemma_filter_pred(pred, j);
        lemma_filter_distinct(deduped, pred, i, j);
    }
    if tables.contains(t) && !spec_join_tables(joins).contains(t) {
        let i = choose|i: int| 0 <= i < deduped.len() && deduped[i] == t;
        deduped.lemma_filter_contains(pred, i);
    }
}

/// A filtered sequence of pairwise distinct elements stays pairwise distinct.
proof fn lemma_filter_distinct<T>(s: Seq<T>, pred: spec_fn(T) -> bool, i: int, j: int)
    requires
        forall|a: int, b: int| 0 <= a < b < s.len() ==> s[a] != s[b],
        0 <= i < j < s.filter(pred).len(),
    ensures
        s.filter(pred)[i] != s.filter(pred)[j],
    decreases s.len(),
{
    reveal(Seq::filter);
    if s.len() > 0 {
        let f = s.filter(pred);
        let rest = s.drop_last().filter(pred);
        if pred(s.last()) && j == f.len() - 1 {
            assert(f[j] == s.last());
            assert(rest[i] == f[i]);
            lemma_filter_member_of(s.drop_last(), pred, i);
            let k = choose|k: int| 0 <= k < s.drop_last().len() && s.drop_last()[k] == rest[i];
            assert(s[k] == rest[i]);
            assert(s[s.len() - 1] == s.last());
        } else {
            assert(f[i] == rest[i]);
            assert(f[j] == rest[j]);
            lemma_filter_distinct(s.drop_last(), pred, i, j);
        }
    }
}

/// Every element of a filtered sequence stands in the original.
proof fn lemma_filter_member_of<T>(s: Seq<T>, pred: spec_fn(T) -> bool, i: int)
    requires
        0 <= i < s.filter(pred).len(),
    ensures
        s.contains(s.filter(pred)[i]),
    decreases s.len(),
{
    reveal(Seq::filter);
    if s.len() > 0 {
        let f = s.filter(pred);
        if pred(s.last()) && i == f.len() - 1 {
            assert(s[s.len() - 1] == f[i]);
        } else {
            lemma_filter_member_of(s.drop_last(), pred, i);
            let j = choose|j: int|
                0 <= j < s.drop_last().len() && s.drop_last()[j] == s.drop_last().filter(pred)[i];
            assert(s[j] == f[i]);
        }
    }
}

/// Where the caller's filter condition ends up: a join that claims it gets it
/// verbatim in its `ON` clause and the `WHERE` clause reverts to always-true;
/// without such a join every join keeps its own static `ON` expression and
/// the `WHERE` clause carries the caller's condition — itself always-true
/// where none was supplied.
pub proof fn lemma_filter_placement(joins: Seq<SpecJoin>, condition: Option<Seq<char>>, i: int)
    ensures
        spec_condition_claimed(joins) ==> spec_where_text(joins, condition) == "true"@,
        !spec_condition_claimed(joins) ==> spec_where_text(joins, condition)
            == spec_condition_text(condition),
        (0 <= i < joins.len() && joins[i].clause == SpecJoinClause::Condition) ==> spec_join_line(
            joins[i],
            spec_condition_text(condition),
        ) == "LEFT OUTER JOIN "@ + joins[i].table + " ON ("@ + spec_condition_text(condition)
            + ")"@,
        (0 <= i < joins.len() && joins[i].clause is On) ==> spec_join_line(
            joins[i],
            spec_condition_text(condition),
        ) == "LEFT OUTER JOIN "@ + joins[i].table + " ON ("@ + joins[i].clause->On_0 + ")"@,
{
}

} // verus!
