//! The query executor: assembles one `SELECT` statement from a record type's
//! declared metadata — deduplicating tables, attaching the declared joins,
//! placing the caller's filter — runs it, and maps every result row back into
//! a typed record, surfacing the first error.

use vstd::prelude::*;
use vstd::string::StringExecFns;
use crate::engine;
use crate::sql_struct::{
    Join, JoinClause, Reconstruct, ReconstructError, ReconstructResult, SpecJoin, SpecJoinClause,
};
use crate::value::SqlValue;

verus! {

/// How to order the results.
#[derive(Clone, Debug, PartialEq, Eq)]
pub enum OrderBy {
    /// Highest results are listed last.
    Ascending(String),
    /// Highest results are listed first.
    Descending(String),
}

/// The mathematical content of an `OrderBy`.
pub ghost enum SpecOrderBy {
    Ascending(Seq<char>),
    Descending(Seq<char>),
}

impl View for OrderBy {
    type V = SpecOrderBy;

    open spec fn view(&self) -> SpecOrderBy {
        match self {
            OrderBy::Ascending(e) => SpecOrderBy::Ascending(e@),
            OrderBy::Descending(e) => SpecOrderBy::Descending(e@),
        }
    }
}

/// The parts, joined with the separator between consecutive parts.
pub open spec fn spec_join_parts(parts: Seq<Seq<char>>, sep: Seq<char>) -> Seq<char>
    decreases parts.len(),
{
    if parts.len() == 0 {
        Seq::empty()
    } else if parts.len() == 1 {
        parts[0]
    } else {
        spec_join_parts(parts.drop_last(), sep) + sep + parts.last()
    }
}

/// Joins the parts with the separator between consecutive parts.
pub fn join_parts(parts: &Vec<String>, sep: &str) -> (r: String)
    ensures
        r@ == spec_join_parts(parts@.map_values(|s: String| s@), sep@),
{
    let ghost viewed = parts@.map_values(|s: String| s@);
    let mut r = String::new();
    let mut i: usize = 0;
    while i < parts.len()
        invariant
            0 <= i <= parts@.len(),
            viewed == parts@.map_values(|s: String| s@),
            r@ == spec_join_parts(viewed.take(i as int), sep@),
        decreases parts@.len() - i,
    {
        if i > 0 {
            r.append(sep);
        }
        r.append(parts[i].as_str());
        proof {
            assert(viewed.take(i + 1 as int).drop_last() =~= viewed.take(i as int));
            assert(viewed.take(i + 1 as int).last() == viewed[i as int]);
        }
        i = i + 1;
    }
    proof {
        assert(viewed.take(parts@.len() as int) =~= viewed);
    }
    r
}

/// The sequence with every later repetition of an element removed: each
/// element keeps its first position.
pub open spec fn spec_dedup(s: Seq<Seq<char>>) -> Seq<Seq<char>>
    decreases s.len(),
{
    if s.len() == 0 {
        Seq::empty()
    } else {
        let rest = spec_dedup(s.drop_last());
        if rest.contains(s.last()) {
            rest
        } else {
            rest.push(s.last())
        }
    }
}

/// Deduplication keeps exactly the elements of its input.
pub proof fn lemma_dedup_membership(s: Seq<Seq<char>>, x: Seq<char>)
    ensures
        spec_dedup(s).contains(x) <==> s.contains(x),
    decreases s.len(),
{
    if s.len() > 0 {
        let rest = spec_dedup(s.drop_last());
        lemma_dedup_membership(s.drop_last(), x);
        if s.contains(x) {
            let i = choose|i: int| 0 <= i < s.len() && s[i] == x;
            if i < s.len() - 1 {
                assert(s.drop_last()[i] == x);
                assert(s.drop_last().contains(x));
                assert(rest.contains(x));
                if !rest.contains(s.last()) {
                    let j = choose|j: int| 0 <= j < rest.len() && rest[j] == x;
                    assert(rest.push(s.last())[j] == x);
                    assert(spec_dedup(s).contains(x));
                }
            } else {
                assert(s.last() == x);
                if rest.contains(x) {
                } else {
                    assert(rest.push(s.last())[rest.len() as int] == x);
                    assert(spec_dedup(s).contains(x));
                }
            }
        }
        if spec_dedup(s).contains(x) {
            let i = choose|i: int| 0 <= i < spec_dedup(s).len() && spec_dedup(s)[i] == x;
            if rest.contains(s.last()) {
                assert(rest.contains(x));
            } else {
                if i < rest.len() {
                    assert(rest[i] == x);
                    assert(rest.contains(x));
                } else {
                    assert(x == s.last());
                }
            }
            if rest.contains(x) {
                assert(s.drop_last().contains(x));
                let j = choose|j: int| 0 <= j < s.drop_last().len() && s.drop_last()[j] == x;
                assert(s[j] == x);
            } else {
                assert(x == s.last());
                assert(s[s.len() - 1] == x);
            }
        }
    }
}

/// Deduplication never repeats an element.
pub proof fn lemma_dedup_no_repeats(s: Seq<Seq<char>>)
    ensures
        forall|i: int, j: int|
            0 <= i < j < spec_dedup(s).len() ==> spec_dedup(s)[i] != spec_dedup(s)[j],
    decreases s.len(),
{
    if s.len() > 0 {
        lemma_dedup_no_repeats(s.drop_last());
        let rest = spec_dedup(s.drop_last());
        if !rest.contains(s.last()) {
            assert forall|i: int, j: int|
                0 <= i < j < spec_dedup(s).len() implies spec_dedup(s)[i] != spec_dedup(s)[j] by {
                if j < rest.len() {
                } else {
                    assert(spec_dedup(s)[j] == s.last());
                    assert(rest.contains(rest[i]));
                }
            }
        }
    }
}

/// Whether one of the strings is `x`.
fn contains_string(v: &Vec<String>, x: &String) -> (r: bool)
    ensures
        r == v@.map_values(|s: String| s@).contains(x@),
{
    let ghost viewed = v@.map_values(|s: String| s@);
    let mut i: usize = 0;
    while i < v.len()
        invariant
            0 <= i <= v@.len(),
            viewed == v@.map_values(|s: String| s@),
            forall|j: int| 0 <= j < i ==> viewed[j] != x@,
        decreases v@.len() - i,
    {
        proof {
            assert(viewed[i as int] == v@[i as int]@);
        }
        if v[i].eq(x) {
            assert(viewed[i as int] == x@);
            return true;
        }
        i = i + 1;
    }
    false
}

/// Returns the strings with every later repetition removed.
pub fn dedup_strings(v: &Vec<String>) -> (r: Vec<String>)
    ensures
        r@.map_values(|s: String| s@) == spec_dedup(v@.map_values(|s: String| s@)),
{
    let ghost viewed = v@.map_values(|s: String| s@);
    let mut r: Vec<String> = Vec::new();
    let mut i: usize = 0;
    while i < v.len()
        invariant
            0 <= i <= v@.len(),
            viewed == v@.map_values(|s: String| s@),
            r@.map_values(|s: String| s@) == spec_dedup(viewed.take(i as int)),
        decreases v@.len() - i,
    {
        proof {
            assert(viewed.take(i + 1 as int).drop_last() =~= viewed.take(i as int));
            assert(viewed.take(i + 1 as int).last() == viewed[i as int]);
        }
        if !contains_string(&r, &v[i]) {
            let ghost before = r@.map_values(|s: String| s@);
            r.push(v[i].clone());
            proof {
                assert(r@.drop_last() =~= r@.subrange(0, r@.len() - 1));
                assert(r@.map_values(|s: String| s@) =~= before.push(viewed[i as int]));
            }
        }
        i = i + 1;
    }
    proof {
        assert(viewed.take(v@.len() as int) =~= viewed);
    }
    r
}

/// The tables of the joins, in join order.
pub open spec fn spec_join_tables(joins: Seq<SpecJoin>) -> Seq<Seq<char>> {
    joins.map_values(|j: SpecJoin| j.table)
}

/// The tables kept in the plain `FROM` list: every deduplicated required
/// table that no join supplies.
pub open spec fn spec_from_tables(tables: Seq<Seq<char>>, joins: Seq<SpecJoin>) -> Seq<Seq<char>> {
    spec_dedup(tables).filter(|t: Seq<char>| !spec_join_tables(joins).contains(t))
}

/// Whether some join claims the caller's filter condition for its `ON`
/// clause.
pub open spec fn spec_condition_claimed(joins: Seq<SpecJoin>) -> bool {
    exists|i: int|
        0 <= i < joins.len() && joins[i].clause == SpecJoinClause::Condition
}

/// The filter text that applies: the caller's condition, or always-true
/// where none was supplied.
pub open spec fn spec_condition_text(condition: Option<Seq<char>>) -> Seq<char> {
    match condition {
        Some(c) => c,
        None => "true"@,
    }
}

/// One join clause line: `LEFT OUTER JOIN <table> ON (<clause>)`, where the
/// clause is the join's static expression, or the caller's filter for a join
/// that claims it.
pub open spec fn spec_join_line(j: SpecJoin, cond: Seq<char>) -> Seq<char> {
    "LEFT OUTER JOIN "@ + j.table + " ON ("@ + (match j.clause {
        SpecJoinClause::On(e) => e,
        SpecJoinClause::Condition => cond,
    }) + ")"@
}

/// The complete statement text for the given metadata, filter and ordering:
/// `SELECT <exprs> FROM <deduplicated tables not supplied by a join>`, one
/// `LEFT OUTER JOIN` line per declared join, a `WHERE` holding the caller's
/// condition — or always-true where a join claimed it or none was given —
/// and the ordering clause, if any.
/// The text of the `WHERE` clause: always-true where some join claimed the
/// caller's condition, else the caller's condition — itself always-true where
/// none was supplied.
pub open spec fn spec_where_text(joins: Seq<SpecJoin>, condition: Option<Seq<char>>) -> Seq<char> {
    if spec_condition_claimed(joins) {
        "true"@
    } else {
        spec_condition_text(condition)
    }
}

/// The text of the ordering clause, empty where no ordering was asked for.
pub open spec fn spec_order_text(order: Option<SpecOrderBy>) -> Seq<char> {
    match order {
        None => Seq::<char>::empty(),
        Some(SpecOrderBy::Ascending(e)) => "\nORDER BY "@ + e + " ASC"@,
        Some(SpecOrderBy::Descending(e)) => "\nORDER BY "@ + e + " DESC"@,
    }
}

pub open spec fn spec_statement(
    exprs: Seq<Seq<char>>,
    tables: Seq<Seq<char>>,
    joins: Seq<SpecJoin>,
    condition: Option<Seq<char>>,
    order: Option<SpecOrderBy>,
) -> Seq<char> {
    let cond = spec_condition_text(condition);
    let select_line = "SELECT "@ + spec_join_parts(exprs, ", "@);
    let from_line = "FROM "@ + spec_join_parts(spec_from_tables(tables, joins), ", "@);
    let join_lines = spec_join_parts(
        joins.map_values(|j: SpecJoin| spec_join_line(j, cond)),
        "\n"@,
    );
    let where_line = "WHERE "@ + spec_where_text(joins, condition);
    select_line + "\n"@ + from_line + (if joins.len() == 0 {
        Seq::<char>::empty()
    } else {
        "\n"@ + join_lines
    }) + "\n"@ + where_line + spec_order_text(order)
}

/// Returns the join tables, in join order.
fn join_tables(joins: &Vec<Join>) -> (r: Vec<String>)
    ensures
        r@.map_values(|s: String| s@) == spec_join_tables(joins@.map_values(|j: Join| j@)),
{
    let ghost viewed = joins@.map_values(|j: Join| j@);
    let mut r: Vec<String> = Vec::new();
    let mut i: usize = 0;
    while i < joins.len()
        invariant
            0 <= i <= joins@.len(),
            viewed == joins@.map_values(|j: Join| j@),
            r@.map_values(|s: String| s@) =~= spec_join_tables(viewed).take(i as int),
        decreases joins@.len() - i,
    {
        let ghost before = r@.map_values(|s: String| s@);
        r.push(joins[i].table.clone());
        proof {
            assert(r@.drop_last() =~= r@.subrange(0, r@.len() - 1));
            assert(r@.map_values(|s: String| s@) =~= before.push(viewed[i as int].table));
            assert(r@.map_values(|s: String| s@) =~= spec_join_tables(viewed).take(i + 1 as int));
        }
        i = i + 1;
    }
    proof {
        assert(spec_join_tables(viewed).take(joins@.len() as int) =~= spec_join_tables(viewed));
    }
    r
}

/// Returns the plain `FROM` list: the deduplicated tables that no join
/// supplies, each at its first position.
pub fn from_tables(tables: &Vec<String>, joins: &Vec<Join>) -> (r: Vec<String>)
    ensures
        r@.map_values(|s: String| s@) == spec_from_tables(
            tables@.map_values(|s: String| s@),
            joins@.map_values(|j: Join| j@),
        ),
{
    let ghost tables_viewed = tables@.map_values(|s: String| s@);
    let ghost joins_viewed = joins@.map_values(|j: Join| j@);
    let ghost pred = |t: Seq<char>| !spec_join_tables(joins_viewed).contains(t);
    let deduped = dedup_strings(tables);
    let jt = join_tables(joins);
    let ghost d = deduped@.map_values(|s: String| s@);
    let mut r: Vec<String> = Vec::new();
    let mut i: usize = 0;
    proof {
        reveal(Seq::filter);
        assert(d.take(0).filter(pred) =~= Seq::<Seq<char>>::empty());
    }
    while i < deduped.len()
        invariant
            0 <= i <= deduped@.len(),
            d == deduped@.map_values(|s: String| s@),
            jt@.map_values(|s: String| s@) == spec_join_tables(joins_viewed),
            pred == (|t: Seq<char>| !spec_join_tables(joins_viewed).contains(t)),
            r@.map_values(|s: String| s@) == d.take(i as int).filter(pred),
        decreases deduped@.len() - i,
    {
        proof {
            reveal(Seq::filter);
            assert(d.take(i + 1 as int).drop_last() =~= d.take(i as int));
            assert(d.take(i + 1 as int).last() == d[i as int]);
        }
        let ghost before = r@.map_values(|s: String| s@);
        if !contains_string(&jt, &deduped[i]) {
            r.push(deduped[i].clone());
            proof {
                assert(r@.drop_last() =~= r@.subrange(0, r@.len() - 1));
                assert(r@.map_values(|s: String| s@) =~= before.push(d[i as int]));
            }
        }
        i = i + 1;
    }
    proof {
        assert(d.take(deduped@.len() as int) =~= d);
    }
    r
}

/// Whether one of the joins claims the caller's filter condition.
fn condition_claimed(joins: &Vec<Join>) -> (r: bool)
    ensures
        r == spec_condition_claimed(joins@.map_values(|j: Join| j@)),
{
    let ghost viewed = joins@.map_values(|j: Join| j@);
    let mut i: usize = 0;
    while i < joins.len()
        invariant
            0 <= i <= joins@.len(),
            viewed == joins@.map_values(|j: Join| j@),
            forall|j: int| 0 <= j < i ==> viewed[j].clause != SpecJoinClause::Condition,
        decreases joins@.len() - i,
    {
        proof {
            assert(viewed[i as int] == joins@[i as int]@);
        }
        match &joins[i].clause {
            JoinClause::Condition => {
                assert(viewed[i as int].clause == SpecJoinClause::Condition);
                return true;
            },
            JoinClause::On(_) => {},
        }
        i = i + 1;
    }
    false
}

/// Returns the join clause lines, one per declared join.
fn join_lines(joins: &Vec<Join>, cond: &String) -> (r: Vec<String>)
    ensures
        r@.map_values(|s: String| s@) == joins@.map_values(|j: Join| j@).map_values(
            |j: SpecJoin| spec_join_line(j, cond@),
        ),
{
    let ghost viewed = joins@.map_values(|j: Join| j@);
    let ghost lined = viewed.map_values(|j: SpecJoin| spec_join_line(j, cond@));
    let mut r: Vec<String> = Vec::new();
    let mut i: usize = 0;
    while i < joins.len()
        invariant
            0 <= i <= joins@.len(),
            viewed == joins@.map_values(|j: Join| j@),
            lined == viewed.map_values(|j: SpecJoin| spec_join_line(j, cond@)),
            r@.map_values(|s: String| s@) =~= lined.take(i as int),
        decreases joins@.len() - i,
    {
        let mut line = String::new();
        line.append("LEFT OUTER JOIN ");
        line.append(joins[i].table.as_str());
        line.append(" ON (");
        match &joins[i].clause {
            JoinClause::On(e) => line.append(e.as_str()),
            JoinClause::Condition => line.append(cond.as_str()),
        }
        line.append(")");
        proof {
            assert(viewed[i as int] == joins@[i as int]@);
            assert(line@ == spec_join_line(viewed[i as int], cond@));
        }
        let ghost before = r@.map_values(|s: String| s@);
        r.push(line);
        proof {
            assert(r@.drop_last() =~= r@.subrange(0, r@.len() - 1));
            assert(r@.map_values(|s: String| s@) =~= before.push(lined[i as int]));
        }
        i = i + 1;
    }
    proof {
        assert(lined.take(joins@.len() as int) =~= lined);
    }
    r
}

/// The view of an optional condition.
pub open spec fn spec_opt_text(condition: Option<String>) -> Option<Seq<char>> {
    match condition {
        Some(c) => Some(c@),
        None => None,
    }
}

/// The view of an optional ordering.
pub open spec fn spec_opt_order(order: Option<OrderBy>) -> Option<SpecOrderBy> {
    match order {
        Some(o) => Some(o@),
        None => None,
    }
}

/// Assembles the complete statement text for the given metadata, filter and
/// ordering: exactly [`spec_statement`] of them.
#[verifier::rlimit(30)]
pub fn assemble_statement(
    exprs: &Vec<String>,
    tables: &Vec<String>,
    joins: &Vec<Join>,
    condition: &Option<String>,
    order: &Option<OrderBy>,
) -> (r: String)
    ensures
        r@ == spec_statement(
            exprs@.map_values(|s: String| s@),
            tables@.map_values(|s: String| s@),
            joins@.map_values(|j: Join| j@),
            spec_opt_text(*condition),
            spec_opt_order(*order),
        ),
{
    let cond: String = match condition {
        Some(c) => c.clone(),
        None => "true".to_owned(),
    };
    let mut r = String::new();
    r.append("SELECT ");
    r.append(join_parts(exprs, ", ").as_str());
    r.append("\n");
    r.append("FROM ");
    r.append(join_parts(&from_tables(tables, joins), ", ").as_str());
    if joins.len() > 0 {
        r.append("\n");
        r.append(join_parts(&join_lines(joins, &cond), "\n").as_str());
    }
    r.append("\n");
    r.append("WHERE ");
    if condition_claimed(joins) {
        r.append("true");
    } else {
        r.append(cond.as_str());
    }
    match order {
        None => {},
        Some(OrderBy::Ascending(e)) => {
            r.append("\nORDER BY ");
            r.append(e.as_str());
            r.append(" ASC");
        },
        Some(OrderBy::Descending(e)) => {
            r.append("\nORDER BY ");
            r.append(e.as_str());
            r.append(" DESC");
        },
    }
    r
}

/// What reconstructing every row yields: the records in row order, or the
/// first error; a failed row discards the whole result.
pub open spec fn spec_reconstruct_rows<T: Reconstruct>(rows: Seq<Seq<SqlValue>>) -> Result<
    Seq<T>,
    ReconstructError,
>
    decreases rows.len(),
{
    if rows.len() == 0 {
        Ok(Seq::empty())
    } else {
        match spec_reconstruct_rows::<T>(rows.drop_last()) {
            Err(e) => Err(e),
            Ok(prefix) => match T::spec_from_row(rows.last()) {
                Err(e) => Err(e),
                Ok(x) => Ok(prefix.push(x)),
            },
        }
    }
}

/// A successful reconstruction of a row set reconstructs each row on its own.
pub proof fn lemma_reconstruct_rows_ok<T: Reconstruct>(rows: Seq<Seq<SqlValue>>)
    ensures
        spec_reconstruct_rows::<T>(rows) matches Ok(s) ==> s.len() == rows.len()
            && forall|i: int| 0 <= i < rows.len() ==> T::spec_from_row(rows[i]) == Ok::<
            T,
            ReconstructError,
        >(s[i]),
    decreases rows.len(),
{
    if rows.len() > 0 {
        lemma_reconstruct_rows_ok::<T>(rows.drop_last());
        if spec_reconstruct_rows::<T>(rows) is Ok {
            let s = spec_reconstruct_rows::<T>(rows)->Ok_0;
            let sp = spec_reconstruct_rows::<T>(rows.drop_last())->Ok_0;
            assert forall|i: int| 0 <= i < rows.len() implies T::spec_from_row(rows[i]) == Ok::<
                T,
                ReconstructError,
            >(s[i]) by {
                if i < rows.len() - 1 {
                    assert(rows.drop_last()[i] == rows[i]);
                    assert(s[i] == sp[i]);
                } else {
                    assert(s[i] == s.last());
                }
            }
        }
    }
}

/// A failed reconstruction of a row set carries the reconstruction error of
/// one of its rows.
pub proof fn lemma_reconstruct_rows_err<T: Reconstruct>(rows: Seq<Seq<SqlValue>>)
    ensures
        spec_reconstruct_rows::<T>(rows) matches Err(e) ==> exists|i: int|
            0 <= i < rows.len() && #[trigger] T::spec_from_row(rows[i]) == Err::<
                T,
                ReconstructError,
            >(e),
    decreases rows.len(),
{
    if rows.len() > 0 {
        lemma_reconstruct_rows_err::<T>(rows.drop_last());
        if spec_reconstruct_rows::<T>(rows) is Err {
            let e = spec_reconstruct_rows::<T>(rows)->Err_0;
            match spec_reconstruct_rows::<T>(rows.drop_last()) {
                Err(ep) => {
                    let i = choose|i: int|
                        0 <= i < rows.drop_last().len() && #[trigger] T::spec_from_row(
                            rows.drop_last()[i],
                        ) == Err::<T, ReconstructError>(ep);
                    assert(rows.drop_last()[i] == rows[i]);
                    assert(T::spec_from_row(rows[i]) == Err::<T, ReconstructError>(e));
                },
                Ok(_) => {
                    assert(T::spec_from_row(rows.last()) == Err::<T, ReconstructError>(e));
                    assert(rows[rows.len() - 1] == rows.last());
                },
            }
        }
    }
}

/// Reconstructs one record per raw row, in row order; the first failing row
/// aborts the whole call and its error is returned, with every
/// already-reconstructed record discarded.
pub fn reconstruct_rows<T: Reconstruct>(rows: &Vec<Vec<SqlValue>>) -> (r: ReconstructResult<
    Vec<T>,
>)
    ensures
        (match (r, spec_reconstruct_rows::<T>(rows@.map_values(|v: Vec<SqlValue>| v@))) {
            (Ok(out), Ok(s)) => out@ == s,
            (Err(e1), Err(e2)) => e1 == e2,
            _ => false,
        }),
{
    let ghost viewed = rows@.map_values(|v: Vec<SqlValue>| v@);
    let mut out: Vec<T> = Vec::new();
    let mut i: usize = 0;
    while i < rows.len()
        invariant
            0 <= i <= rows@.len(),
            viewed == rows@.map_values(|v: Vec<SqlValue>| v@),
            spec_reconstruct_rows::<T>(viewed.take(i as int)) matches Ok(s) && out@ == s,
        decreases rows@.len() - i,
    {
        proof {
            assert(viewed.take(i + 1 as int).drop_last() =~= viewed.take(i as int));
            assert(viewed.take(i + 1 as int).last() == viewed[i as int]);
            assert(viewed[i as int] == rows@[i as int]@);
        }
        match T::from_row(rows[i].as_slice()) {
            Ok(x) => out.push(x),
            Err(e) => {
                proof {
                    lemma_first_error::<T>(viewed, i as int, e);
                }
                return Err(e);
            },
        }
        i = i + 1;
    }
    proof {
        assert(viewed.take(rows@.len() as int) =~= viewed);
    }
    Ok(out)
}

/// If every row before `i` reconstructs and row `i` fails with `e`, the whole
/// row set fails with `e`: the first error wins.
proof fn lemma_first_error<T: Reconstruct>(rows: Seq<Seq<SqlValue>>, i: int, e: ReconstructError)
    requires
        0 <= i < rows.len(),
        spec_reconstruct_rows::<T>(rows.take(i)) is Ok,
        T::spec_from_row(rows[i]) == Err::<T, ReconstructError>(e),
    ensures
        spec_reconstruct_rows::<T>(rows) == Err::<Seq<T>, ReconstructError>(e),
    decreases rows.len(),
{
    if rows.len() - 1 == i {
        assert(rows.take(i) =~= rows.drop_last());
    } else {
        assert(rows.drop_last().take(i) =~= rows.take(i));
        assert(rows.drop_last()[i] == rows[i]);
        lemma_first_error::<T>(rows.drop_last(), i, e);
    }
}

/// One query: an optional filter condition (a raw boolean SQL fragment; the
/// caller parameterizes values through `params`), the named parameters to
/// bind, and an optional ordering.
#[derive(Clone, Debug)]
pub struct Select {
    /// What should go into the `WHERE` clause, unless a join claims it.
    pub condition: Option<String>,

    /// Which named parameters to bind in the query.
    pub params: Vec<(String, SqlValue)>,

    /// How to order the results.
    pub order: Option<OrderBy>,
}

impl Select {
    /// The statement this query runs against the record type `T`: exactly
    /// [`spec_statement`] of `T`'s declared metadata and this query's filter
    /// and ordering.
    pub fn statement_for<T: Reconstruct>(&self) -> (r: String)
        ensures
            r@ == spec_statement(
                T::spec_exprs(),
                T::spec_tables(),
                T::spec_joins(),
                spec_opt_text(self.condition),
                spec_opt_order(self.order),
            ),
    {
        assemble_statement(
            &T::select_exprs(),
            &T::required_tables(),
            &T::required_joins(),
            &self.condition,
            &self.order,
        )
    }

    /// Builds the statement for `T`, runs it with the bound parameters, and
    /// maps every result row back into a `T`, in row order. The first error —
    /// from the engine or from reconstruction — aborts the call and discards
    /// every partial result. Each returned record is the reconstruction of
    /// one engine row of exactly `T`'s advertised width; a returned error is
    /// either the driver's, or the reconstruction error of such a row.
    pub fn run<T: Reconstruct>(&self, conn: &mut rusqlite::Connection) -> (r: ReconstructResult<
        Vec<T>,
    >)
        ensures
            r matches Ok(out) ==> forall|i: int|
                0 <= i < out@.len() ==> exists|row: Seq<SqlValue>|
                    row.len() == T::spec_exprs().len() && #[trigger] T::spec_from_row(row)
                        == Ok::<T, ReconstructError>(#[trigger] out@[i]),
            r matches Err(e) ==> e matches ReconstructError::RusqliteError(_) || exists|
                row: Seq<SqlValue>,
            |
                row.len() == T::spec_exprs().len() && #[trigger] T::spec_from_row(row) == Err::<
                    T,
                    ReconstructError,
                >(e),
    {
        let sql = self.statement_for::<T>();
        let exprs = T::select_exprs();
        proof {
            assert(exprs@.map_values(|s: String| s@).len() == exprs@.len());
        }
        let width = exprs.len();
        let raw = match engine::run_query(conn, sql.as_str(), &self.params, width) {
            Ok(raw) => raw,
            Err(e) => {
                return Err(ReconstructError::RusqliteError(e));
            },
        };
        let r = reconstruct_rows::<T>(&raw);
        proof {
            let viewed = raw@.map_values(|v: Vec<SqlValue>| v@);
            lemma_reconstruct_rows_ok::<T>(viewed);
            lemma_reconstruct_rows_err::<T>(viewed);
            if r is Err {
                let e = r->Err_0;
                assert(spec_reconstruct_rows::<T>(viewed) == Err::<Seq<T>, ReconstructError>(e));
                let i = choose|i: int|
                    0 <= i < viewed.len() && #[trigger] T::spec_from_row(viewed[i]) == Err::<
                        T,
                        ReconstructError,
                    >(e);
                assert(viewed[i] == raw@[i]@);
                assert(viewed[i].len() == T::spec_exprs().len());
            }
            if r is Ok {
                assert forall|i: int| 0 <= i < r->Ok_0@.len() implies exists|row: Seq<SqlValue>|
                    row.len() == T::spec_exprs().len() && #[trigger] T::spec_from_row(row)
                        == Ok::<T, ReconstructError>(#[trigger] r->Ok_0@[i]) by {
                    T::lemma_column_count(viewed[i]);
                    assert(T::spec_from_row(viewed[i]) == Ok::<T, ReconstructError>(r->Ok_0@[i]));
                }
            }
        }
        r
    }
}

} // verus!
