//! Any fixed-size ordered group of record types is itself a record: its
//! tables, joins and select expressions are the concatenation of its
//! members', and its reconstruction splits the row into consecutive
//! sub-slices, one per member, each sized by that member's own expression
//! count.

use vstd::prelude::*;
use vstd::slice::slice_subrange;
use crate::sql_struct::{Join, Reconstruct, ReconstructError, ReconstructResult, SpecJoin};
use crate::value::SqlValue;

verus! {

/// Appends `tail` to `acc`, concatenating the views.
fn concat_part<T>(acc: &mut Vec<T>, tail: Vec<T>)
    ensures
        final(acc)@ == old(acc)@ + tail@,
{
    let mut tail = tail;
    acc.append(&mut tail);
}

/// Mapping a view over a concatenation is the concatenation of the mapped
/// views.
proof fn lemma_map_values_concat<A, B>(x: Seq<A>, y: Seq<A>, f: spec_fn(A) -> B)
    ensures
        (x + y).map_values(f) == x.map_values(f) + y.map_values(f),
{
    assert((x + y).map_values(f) =~= x.map_values(f) + y.map_values(f));
}

impl<A: Reconstruct, B: Reconstruct> Reconstruct for (A, B) {
    open spec fn spec_tables() -> Seq<Seq<char>> {
        A::spec_tables() + B::spec_tables()
    }

    open spec fn spec_joins() -> Seq<SpecJoin> {
        A::spec_joins() + B::spec_joins()
    }

    open spec fn spec_exprs() -> Seq<Seq<char>> {
        A::spec_exprs() + B::spec_exprs()
    }

    open spec fn spec_from_row(values: Seq<SqlValue>) -> ReconstructResult<(A, B)> {
        let na = A::spec_exprs().len() as int;
        let nb = B::spec_exprs().len() as int;
        if values.len() != na + nb {
            Err(ReconstructError::NotEnoughValues)
        } else {
            match A::spec_from_row(values.subrange(0, na)) {
                Err(e) => Err(e),
                Ok(a) => match B::spec_from_row(values.subrange(na, na + nb)) {
                    Err(e) => Err(e),
                    Ok(b) => Ok((a, b)),
                },
            }
        }
    }

    proof fn lemma_column_count(values: Seq<SqlValue>) {
    }

    fn required_tables() -> (r: Vec<String>) {
        let mut r = A::required_tables();
        let tail = B::required_tables();
        let ghost before = r@;
        let ghost t = tail@;
        concat_part(&mut r, tail);
        proof {
            lemma_map_values_concat(before, t, |s: String| s@);
        }
        r
    }

    fn required_joins() -> (r: Vec<Join>) {
        let mut r = A::required_joins();
        let tail = B::required_joins();
        let ghost before = r@;
        let ghost t = tail@;
        concat_part(&mut r, tail);
        proof {
            lemma_map_values_concat(before, t, |j: Join| j@);
        }
        r
    }

    fn select_exprs() -> (r: Vec<String>) {
        let mut r = A::select_exprs();
        let tail = B::select_exprs();
        let ghost before = r@;
        let ghost t = tail@;
        concat_part(&mut r, tail);
        proof {
            lemma_map_values_concat(before, t, |s: String| s@);
        }
        r
    }

    fn from_row(values: &[SqlValue]) -> (r: ReconstructResult<(A, B)>) {
        let ea = A::select_exprs();
        let eb = B::select_exprs();
        let na = ea.len();
        let nb = eb.len();
        proof {
            assert(ea@.map_values(|s: String| s@).len() == ea@.len());
            assert(eb@.map_values(|s: String| s@).len() == eb@.len());
        }
        let n = values.len();
        if na > usize::MAX - nb || n != na + nb {
            return Err(ReconstructError::NotEnoughValues);
        }
        let a = match A::from_row(slice_subrange(values, 0, na)) {
            Ok(a) => a,
            Err(e) => return Err(e),
        };
        let b = match B::from_row(slice_subrange(values, na, na + nb)) {
            Ok(b) => b,
            Err(e) => return Err(e),
        };
        Ok((a, b))
    }
}

impl<A: Reconstruct> Reconstruct for (A,) {
    open spec fn spec_tables() -> Seq<Seq<char>> {
        A::spec_tables()
    }

    open spec fn spec_joins() -> Seq<SpecJoin> {
        A::spec_joins()
    }

    open spec fn spec_exprs() -> Seq<Seq<char>> {
        A::spec_exprs()
    }

    open spec fn spec_from_row(values: Seq<SqlValue>) -> ReconstructResult<(A,)> {
        let n0 = A::spec_exprs().len() as int;
        if values.len() != n0 {
            Err(ReconstructError::NotEnoughValues)
        } else {
            match A::spec_from_row(values.subrange(0, n0)) {
                Err(e) => Err(e),
                Ok(x0) =>
                Ok((x0,)),
            }
        }
    }

    proof fn lemma_column_count(values: Seq<SqlValue>) {
    }

    fn required_tables() -> (r: Vec<String>) {
        let mut r = A::required_tables();
        r
    }

    fn required_joins() -> (r: Vec<Join>) {
        let mut r = A::required_joins();
        r
    }

    fn select_exprs() -> (r: Vec<String>) {
        let mut r = A::select_exprs();
        r
    }

    fn from_row(values: &[SqlValue]) -> (r: ReconstructResult<(A,)>) {
        let e0 = A::select_exprs();
        let n0 = e0.len();
        proof {
            assert(e0@.map_values(|s: String| s@).len() == e0@.len());
        }
        let n = values.len();
        if n0 != n {
            return Err(ReconstructError::NotEnoughValues);
        }
        let x0 = match A::from_row(slice_subrange(values, 0, n0)) {
            Ok(x) => x,
            Err(e) => return Err(e),
        };
        Ok((x0,))
    }
}

impl<A: Reconstruct, B: Reconstruct, C: Reconstruct> Reconstruct for (A, B, C) {
    open spec fn spec_tables() -> Seq<Seq<char>> {
        A::spec_tables() + B::spec_tables() + C::spec_tables()
    }

    open spec fn spec_joins() -> Seq<SpecJoin> {
        A::spec_joins() + B::spec_joins() + C::spec_joins()
    }

    open spec fn spec_exprs() -> Seq<Seq<char>> {
        A::spec_exprs() + B::spec_exprs() + C::spec_exprs()
    }

    open spec fn spec_from_row(values: Seq<SqlValue>) -> ReconstructResult<(A, B, C)> {
        let n0 = A::spec_exprs().len() as int;
        let n1 = B::spec_exprs().len() as int;
        let n2 = C::spec_exprs().len() as int;
        if values.len() != n0 + n1 + n2 {
            Err(ReconstructError::NotEnoughValues)
        } else {
            match A::spec_from_row(values.subrange(0, n0)) {
                Err(e) => Err(e),
                Ok(x0) =>
                match B::spec_from_row(values.subrange(n0, n0 + n1)) {
                    Err(e) => Err(e),
                    Ok(x1) =>
                    match C::spec_from_row(values.subrange(n0 + n1, n0 + n1 + n2)) {
                        Err(e) => Err(e),
                        Ok(x2) =>
                        Ok((x0, x1, x2)),
                    },
                },
            }
        }
    }

    proof fn lemma_column_count(values: Seq<SqlValue>) {
    }

    fn required_tables() -> (r: Vec<String>) {
        let mut r = A::required_tables();
        let tail = B::required_tables();
        let ghost before = r@;
        let ghost t = tail@;
        concat_part(&mut r, tail);
        proof {
            lemma_map_values_concat(before, t, |s: String| s@);
        }
        let tail = C::required_tables();
        let ghost before = r@;
        let ghost t = tail@;
        concat_part(&mut r, tail);
        proof {
            lemma_map_values_concat(before, t, |s: String| s@);
        }
        r
    }

    fn required_joins() -> (r: Vec<Join>) {
        let mut r = A::required_joins();
        let tail = B::required_joins();
        let ghost before = r@;
        let ghost t = tail@;
        concat_part(&mut r, tail);
        proof {
            lemma_map_values_concat(before, t, |j: Join| j@);
        }
        let tail = C::required_joins();
        let ghost before = r@;
        let ghost t = tail@;
        concat_part(&mut r, tail);
        proof {
            lemma_map_values_concat(before, t, |j: Join| j@);
        }
        r
    }

    fn select_exprs() -> (r: Vec<String>) {
        let mut r = A::select_exprs();
        let tail = B::select_exprs();
        let ghost before = r@;
        let ghost t = tail@;
        concat_part(&mut r, tail);
        proof {
            lemma_map_values_concat(before, t, |s: String| s@);
        }
        let tail = C::select_exprs();
        let ghost before = r@;
        let ghost t = tail@;
        concat_part(&mut r, tail);
        proof {
            lemma_map_values_concat(before, t, |s: String| s@);
        }
        r
    }

    fn from_row(values: &[SqlValue]) -> (r: ReconstructResult<(A, B, C)>) {
        let e0 = A::select_exprs();
        let n0 = e0.len();
        let e1 = B::select_exprs();
        let n1 = e1.len();
        let e2 = C::select_exprs();
        let n2 = e2.len();
        proof {
            assert(e0@.map_values(|s: String| s@).len() == e0@.len());
            assert(e1@.map_values(|s: String| s@).len() == e1@.len());
            assert(e2@.map_values(|s: String| s@).len() == e2@.len());
        }
        let n = values.len();
        if n0 > n || n1 > n - n0 || n2 != n - n0 - n1 {
            return Err(ReconstructError::NotEnoughValues);
        }
        let x0 = match A::from_row(slice_subrange(values, 0, n0)) {
            Ok(x) => x,
            Err(e) => return Err(e),
        };
        let x1 = match B::from_row(slice_subrange(values, n0, n0 + n1)) {
            Ok(x) => x,
            Err(e) => return Err(e),
        };
        let x2 = match C::from_row(slice_subrange(values, n0 + n1, n0 + n1 + n2)) {
            Ok(x) => x,
            Err(e) => return Err(e),
        };
        Ok((x0, x1, x2))
    }
}

impl<A: Reconstruct, B: Reconstruct, C: Reconstruct, D: Reconstruct> Reconstruct for (A, B, C, D) {
    open spec fn spec_tables() -> Seq<Seq<char>> {
        A::spec_tables() + B::spec_tables() + C::spec_tables() + D::spec_tables()
    }

    open spec fn spec_joins() -> Seq<SpecJoin> {
        A::spec_joins() + B::spec_joins() + C::spec_joins() + D::spec_joins()
    }

    open spec fn spec_exprs() -> Seq<Seq<char>> {
        A::spec_exprs() + B::spec_exprs() + C::spec_exprs() + D::spec_exprs()
    }

    open spec fn spec_from_row(values: Seq<SqlValue>) -> ReconstructResult<(A, B, C, D)> {
        let n0 = A::spec_exprs().len() as int;
        let n1 = B::spec_exprs().len() as int;
        let n2 = C::spec_exprs().len() as int;
        let n3 = D::spec_exprs().len() as int;
        if values.len() != n0 + n1 + n2 + n3 {
            Err(ReconstructError::NotEnoughValues)
        } else {
            match A::spec_from_row(values.subrange(0, n0)) {
                Err(e) => Err(e),
                Ok(x0) =>
                match B::spec_from_row(values.subrange(n0, n0 + n1)) {
                    Err(e) => Err(e),
                    Ok(x1) =>
                    match C::spec_from_row(values.subrange(n0 + n1, n0 + n1 + n2)) {
                        Err(e) => Err(e),
                        Ok(x2) =>
                        match D::spec_from_row(values.subrange(n0 + n1 + n2, n0 + n1 + n2 + n3)) {
                            Err(e) => Err(e),
                            Ok(x3) =>
                            Ok((x0, x1, x2, x3)),
                        },
                    },
                },
            }
        }
    }

    proof fn lemma_column_count(values: Seq<SqlValue>) {
    }

    fn required_tables() -> (r: Vec<String>) {
        let mut r = A::required_tables();
        let tail = B::required_tables();
        let ghost before = r@;
        let ghost t = tail@;
        concat_part(&mut r, tail);
        proof {
            lemma_map_values_concat(before, t, |s: String| s@);
        }
        let tail = C::required_tables();
        let ghost before = r@;
        let ghost t = tail@;
        concat_part(&mut r, tail);
        proof {
            lemma_map_values_concat(before, t, |s: String| s@);
        }
        let tail = D::required_tables();
        let ghost before = r@;
        let ghost t = tail@;
        concat_part(&mut r, tail);
        proof {
            lemma_map_values_concat(before, t, |s: String| s@);
        }
        r
    }

    fn required_joins() -> (r: Vec<Join>) {
        let mut r = A::required_joins();
        let tail = B::required_joins();
        let ghost before = r@;
        let ghost t = tail@;
        concat_part(&mut r, tail);
        proof {
            lemma_map_values_concat(before, t, |j: Join| j@);
        }
        let tail = C::required_joins();
        let ghost before = r@;
        let ghost t = tail@;
        concat_part(&mut r, tail);
        proof {
            lemma_map_values_concat(before, t, |j: Join| j@);
        }
        let tail = D::required_joins();
        let ghost before = r@;
        let ghost t = tail@;
        concat_part(&mut r, tail);
        proof {
            lemma_map_values_concat(before, t, |j: Join| j@);
        }
        r
    }

    fn select_exprs() -> (r: Vec<String>) {
        let mut r = A::select_exprs();
        let tail = B::select_exprs();
        let ghost before = r@;
        let ghost t = tail@;
        concat_part(&mut r, tail);
        proof {
            lemma_map_values_concat(before, t, |s: String| s@);
        }
        let tail = C::select_exprs();
        let ghost before = r@;
        let ghost t = tail@;
        concat_part(&mut r, tail);
        proof {
            lemma_map_values_concat(before, t, |s: String| s@);
        }
        let tail = D::select_exprs();
        let ghost before = r@;
        let ghost t = tail@;
        concat_part(&mut r, tail);
        proof {
            lemma_map_values_concat(before, t, |s: String| s@);
        }
        r
    }

    fn from_row(values: &[SqlValue]) -> (r: ReconstructResult<(A, B, C, D)>) {
        let e0 = A::select_exprs();
        let n0 = e0.len();
        let e1 = B::select_exprs();
        let n1 = e1.len();
        let e2 = C::select_exprs();
        let n2 = e2.len();
        let e3 = D::select_exprs();
        let n3 = e3.len();
        proof {
            assert(e0@.map_values(|s: String| s@).len() == e0@.len());
            assert(e1@.map_values(|s: String| s@).len() == e1@.len());
            assert(e2@.map_values(|s: String| s@).len() == e2@.len());
            assert(e3@.map_values(|s: String| s@).len() == e3@.len());
        }
        let n = values.len();
        if n0 > n || n1 > n - n0 || n2 > n - n0 - n1 || n3 != n - n0 - n1 - n2 {
            return Err(ReconstructError::NotEnoughValues);
        }
        let x0 = match A::from_row(slice_subrange(values, 0, n0)) {
            Ok(x) => x,
            Err(e) => return Err(e),
        };
        let x1 = match B::from_row(slice_subrange(values, n0, n0 + n1)) {
            Ok(x) => x,
            Err(e) => return Err(e),
        };
        let x2 = match C::from_row(slice_subrange(values, n0 + n1, n0 + n1 + n2)) {
            Ok(x) => x,
            Err(e) => return Err(e),
        };
        let x3 = match D::from_row(slice_subrange(values, n0 + n1 + n2, n0 + n1 + n2 + n3)) {
            Ok(x) => x,
            Err(e) => return Err(e),
        };
        Ok((x0, x1, x2, x3))
    }
}

impl<A: Reconstruct, B: Reconstruct, C: Reconstruct, D: Reconstruct, E: Reconstruct> Reconstruct for (A, B, C, D, E) {
    open spec fn spec_tables() -> Seq<Seq<char>> {
        A::spec_tables() + B::spec_tables() + C::spec_tables() + D::spec_tables() + E::spec_tables()
    }

    open spec fn spec_joins() -> Seq<SpecJoin> {
        A::spec_joins() + B::spec_joins() + C::spec_joins() + D::spec_joins() + E::spec_joins()
    }

    open spec fn spec_exprs() -> Seq<Seq<char>> {
        A::spec_exprs() + B::spec_exprs() + C::spec_exprs() + D::spec_exprs() + E::spec_exprs()
    }

    open spec fn spec_from_row(values: Seq<SqlValue>) -> ReconstructResult<(A, B, C, D, E)> {
        let n0 = A::spec_exprs().len() as int;
        let n1 = B::spec_exprs().len() as int;
        let n2 = C::spec_exprs().len() as int;
        let n3 = D::spec_exprs().len() as int;
        let n4 = E::spec_exprs().len() as int;
        if values.len() != n0 + n1 + n2 + n3 + n4 {
            Err(ReconstructError::NotEnoughValues)
        } else {
            match A::spec_from_row(values.subrange(0, n0)) {
                Err(e) => Err(e),
                Ok(x0) =>
                match B::spec_from_row(values.subrange(n0, n0 + n1)) {
                    Err(e) => Err(e),
                    Ok(x1) =>
                    match C::spec_from_row(values.subrange(n0 + n1, n0 + n1 + n2)) {
                        Err(e) => Err(e),
                        Ok(x2) =>
                        match D::spec_from_row(values.subrange(n0 + n1 + n2, n0 + n1 + n2 + n3)) {
                            Err(e) => Err(e),
                            Ok(x3) =>
                            match E::spec_from_row(values.subrange(n0 + n1 + n2 + n3, n0 + n1 + n2 + n3 + n4)) {
                                Err(e) => Err(e),
                                Ok(x4) =>
                                Ok((x0, x1, x2, x3, x4)),
                            },
                        },
                    },
                },
            }
        }
    }

    proof fn lemma_column_count(values: Seq<SqlValue>) {
    }

    fn required_tables() -> (r: Vec<String>) {
        let mut r = A::required_tables();
        let tail = B::required_tables();
        let ghost before = r@;
        let ghost t = tail@;
        concat_part(&mut r, tail);
        proof {
            lemma_map_values_concat(before, t, |s: String| s@);
        }
        let tail = C::required_tables();
        let ghost before = r@;
        let ghost t = tail@;
        concat_part(&mut r, tail);
        proof {
            lemma_map_values_concat(before, t, |s: String| s@);
        }
        let tail = D::required_tables();
        let ghost before = r@;
        let ghost t = tail@;
        concat_part(&mut r, tail);
        proof {
            lemma_map_values_concat(before, t, |s: String| s@);
        }
        let tail = E::required_tables();
        let ghost before = r@;
        let ghost t = tail@;
        concat_part(&mut r, tail);
        proof {
            lemma_map_values_concat(before, t, |s: String| s@);
        }
        r
    }

    fn required_joins() -> (r: Vec<Join>) {
        let mut r = A::required_joins();
        let tail = B::required_joins();
        let ghost before = r@;
        let ghost t = tail@;
        concat_part(&mut r, tail);
        proof {
            lemma_map_values_concat(before, t, |j: Join| j@);
        }
        let tail = C::required_joins();
        let ghost before = r@;
        let ghost t = tail@;
        concat_part(&mut r, tail);
        proof {
            lemma_map_values_concat(before, t, |j: Join| j@);
        }
        let tail = D::required_joins();
        let ghost before = r@;
        let ghost t = tail@;
        concat_part(&mut r, tail);
        proof {
            lemma_map_values_concat(before, t, |j: Join| j@);
        }
        let tail = E::required_joins();
        let ghost before = r@;
        let ghost t = tail@;
        concat_part(&mut r, tail);
        proof {
            lemma_map_values_concat(before, t, |j: Join| j@);
        }
        r
    }

    fn select_exprs() -> (r: Vec<String>) {
        let mut r = A::select_exprs();
        let tail = B::select_exprs();
        let ghost before = r@;
        let ghost t = tail@;
        concat_part(&mut r, tail);
        proof {
            lemma_map_values_concat(before, t, |s: String| s@);
        }
        let tail = C::select_exprs();
        let ghost before = r@;
        let ghost t = tail@;
        concat_part(&mut r, tail);
        proof {
            lemma_map_values_concat(before, t, |s: String| s@);
        }
        let tail = D::select_exprs();
        let ghost before = r@;
        let ghost t = tail@;
        concat_part(&mut r, tail);
        proof {
            lemma_map_values_concat(before, t, |s: String| s@);
        }
        let tail = E::select_exprs();
        let ghost before = r@;
        let ghost t = tail@;
        concat_part(&mut r, tail);
        proof {
            lemma_map_values_concat(before, t, |s: String| s@);
        }
        r
    }

    fn from_row(values: &[SqlValue]) -> (r: ReconstructResult<(A, B, C, D, E)>) {
        let e0 = A::select_exprs();
        let n0 = e0.len();
        let e1 = B::select_exprs();
        let n1 = e1.len();
        let e2 = C::select_exprs();
        let n2 = e2.len();
        let e3 = D::select_exprs();
        let n3 = e3.len();
        let e4 = E::select_exprs();
        let n4 = e4.len();
        proof {
            assert(e0@.map_values(|s: String| s@).len() == e0@.len());
            assert(e1@.map_values(|s: String| s@).len() == e1@.len());
            assert(e2@.map_values(|s: String| s@).len() == e2@.len());
            assert(e3@.map_values(|s: String| s@).len() == e3@.len());
            assert(e4@.map_values(|s: String| s@).len() == e4@.len());
        }
        let n = values.len();
        if n0 > n || n1 > n - n0 || n2 > n - n0 - n1 || n3 > n - n0 - n1 - n2 || n4 != n - n0 - n1 - n2 - n3 {
            return Err(ReconstructError::NotEnoughValues);
        }
        let x0 = match A::from_row(slice_subrange(values, 0, n0)) {
            Ok(x) => x,
            Err(e) => return Err(e),
        };
        let x1 = match B::from_row(slice_subrange(values, n0, n0 + n1)) {
            Ok(x) => x,
            Err(e) => return Err(e),
        };
        let x2 = match C::from_row(slice_subrange(values, n0 + n1, n0 + n1 + n2)) {
            Ok(x) => x,
            Err(e) => return Err(e),
        };
        let x3 = match D::from_row(slice_subrange(values, n0 + n1 + n2, n0 + n1 + n2 + n3)) {
            Ok(x) => x,
            Err(e) => return Err(e),
        };
        let x4 = match E::from_row(slice_subrange(values, n0 + n1 + n2 + n3, n0 + n1 + n2 + n3 + n4)) {
            Ok(x) => x,
            Err(e) => return Err(e),
        };
        Ok((x0, x1, x2, x3, x4))
    }
}

impl<A: Reconstruct, B: Reconstruct, C: Reconstruct, D: Reconstruct, E: Reconstruct, F: Reconstruct> Reconstruct for (A, B, C, D, E, F) {
    open spec fn spec_tables() -> Seq<Seq<char>> {
        A::spec_tables() + B::spec_tables() + C::spec_tables() + D::spec_tables() + E::spec_tables() + F::spec_tables()
    }

    open spec fn spec_joins() -> Seq<SpecJoin> {
        A::spec_joins() + B::spec_joins() + C::spec_joins() + D::spec_joins() + E::spec_joins() + F::spec_joins()
    }

    open spec fn spec_exprs() -> Seq<Seq<char>> {
        A::spec_exprs() + B::spec_exprs() + C::spec_exprs() + D::spec_exprs() + E::spec_exprs() + F::spec_exprs()
    }

    open spec fn spec_from_row(values: Seq<SqlValue>) -> ReconstructResult<(A, B, C, D, E, F)> {
        let n0 = A::spec_exprs().len() as int;
        let n1 = B::spec_exprs().len() as int;
        let n2 = C::spec_exprs().len() as int;
        let n3 = D::spec_exprs().len() as int;
        let n4 = E::spec_exprs().len() as int;
        let n5 = F::spec_exprs().len() as int;
        if values.len() != n0 + n1 + n2 + n3 + n4 + n5 {
            Err(ReconstructError::NotEnoughValues)
        } else {
            match A::spec_from_row(values.subrange(0, n0)) {
                Err(e) => Err(e),
                Ok(x0) =>
                match B::spec_from_row(values.subrange(n0, n0 + n1)) {
                    Err(e) => Err(e),
                    Ok(x1) =>
                    match C::spec_from_row(values.subrange(n0 + n1, n0 + n1 + n2)) {
                        Err(e) => Err(e),
                        Ok(x2) =>
                        match D::spec_from_row(values.subrange(n0 + n1 + n2, n0 + n1 + n2 + n3)) {
                            Err(e) => Err(e),
                            Ok(x3) =>
                            match E::spec_from_row(values.subrange(n0 + n1 + n2 + n3, n0 + n1 + n2 + n3 + n4)) {
                                Err(e) => Err(e),
                                Ok(x4) =>
                                match F::spec_from_row(values.subrange(n0 + n1 + n2 + n3 + n4, n0 + n1 + n2 + n3 + n4 + n5)) {
                                    Err(e) => Err(e),
                                    Ok(x5) =>
                                    Ok((x0, x1, x2, x3, x4, x5)),
                                },
                            },
                        },
                    },
                },
            }
        }
    }

    proof fn lemma_column_count(values: Seq<SqlValue>) {
    }

    fn required_tables() -> (r: Vec<String>) {
        let mut r = A::required_tables();
        let tail = B::required_tables();
        let ghost before = r@;
        let ghost t = tail@;
        concat_part(&mut r, tail);
        proof {
            lemma_map_values_concat(before, t, |s: String| s@);
        }
        let tail = C::required_tables();
        let ghost before = r@;
        let ghost t = tail@;
        concat_part(&mut r, tail);
        proof {
            lemma_map_values_concat(before, t, |s: String| s@);
        }
        let tail = D::required_tables();
        let ghost before = r@;
        let ghost t = tail@;
        concat_part(&mut r, tail);
        proof {
            lemma_map_values_concat(before, t, |s: String| s@);
        }
        let tail = E::required_tables();
        let ghost before = r@;
        let ghost t = tail@;
        concat_part(&mut r, tail);
        proof {
            lemma_map_values_concat(before, t, |s: String| s@);
        }
        let tail = F::required_tables();
        let ghost before = r@;
        let ghost t = tail@;
        concat_part(&mut r, tail);
        proof {
            lemma_map_values_concat(before, t, |s: String| s@);
        }
        r
    }

    fn required_joins() -> (r: Vec<Join>) {
        let mut r = A::required_joins();
        let tail = B::required_joins();
        let ghost before = r@;
        let ghost t = tail@;
        concat_part(&mut r, tail);
        proof {
            lemma_map_values_concat(before, t, |j: Join| j@);
        }
        let tail = C::required_joins();
        let ghost before = r@;
        let ghost t = tail@;
        concat_part(&mut r, tail);
        proof {
            lemma_map_values_concat(before, t, |j: Join| j@);
        }
        let tail = D::required_joins();
        let ghost before = r@;
        let ghost t = tail@;
        concat_part(&mut r, tail);
        proof {
            lemma_map_values_concat(before, t, |j: Join| j@);
        }
        let tail = E::required_joins();
        let ghost before = r@;
        let ghost t = tail@;
        concat_part(&mut r, tail);
        proof {
            lemma_map_values_concat(before, t, |j: Join| j@);
        }
        let tail = F::required_joins();
        let ghost before = r@;
        let ghost t = tail@;
        concat_part(&mut r, tail);
        proof {
            lemma_map_values_concat(before, t, |j: Join| j@);
        }
        r
    }

    fn select_exprs() -> (r: Vec<String>) {
        let mut r = A::select_exprs();
        let tail = B::select_exprs();
        let ghost before = r@;
        let ghost t = tail@;
        concat_part(&mut r, tail);
        proof {
            lemma_map_values_concat(before, t, |s: String| s@);
        }
        let tail = C::select_exprs();
        let ghost before = r@;
        let ghost t = tail@;
        concat_part(&mut r, tail);
        proof {
            lemma_map_values_concat(before, t, |s: String| s@);
        }
        let tail = D::select_exprs();
        let ghost before = r@;
        let ghost t = tail@;
        concat_part(&mut r, tail);
        proof {
            lemma_map_values_concat(before, t, |s: String| s@);
        }
        let tail = E::select_exprs();
        let ghost before = r@;
        let ghost t = tail@;
        concat_part(&mut r, tail);
        proof {
            lemma_map_values_concat(before, t, |s: String| s@);
        }
        let tail = F::select_exprs();
        let ghost before = r@;
        let ghost t = tail@;
        concat_part(&mut r, tail);
        proof {
            lemma_map_values_concat(before, t, |s: String| s@);
        }
        r
    }

    fn from_row(values: &[SqlValue]) -> (r: ReconstructResult<(A, B, C, D, E, F)>) {
        let e0 = A::select_exprs();
        let n0 = e0.len();
        let e1 = B::select_exprs();
        let n1 = e1.len();
        let e2 = C::select_exprs();
        let n2 = e2.len();
        let e3 = D::select_exprs();
        let n3 = e3.len();
        let e4 = E::select_exprs();
        let n4 = e4.len();
        let e5 = F::select_exprs();
        let n5 = e5.len();
        proof {
            assert(e0@.map_values(|s: String| s@).len() == e0@.len());
            assert(e1@.map_values(|s: String| s@).len() == e1@.len());
            assert(e2@.map_values(|s: String| s@).len() == e2@.len());
            assert(e3@.map_values(|s: String| s@).len() == e3@.len());
            assert(e4@.map_values(|s: String| s@).len() == e4@.len());
            assert(e5@.map_values(|s: String| s@).len() == e5@.len());
        }
        let n = values.len();
        if n0 > n || n1 > n - n0 || n2 > n - n0 - n1 || n3 > n - n0 - n1 - n2 || n4 > n - n0 - n1 - n2 - n3 || n5 != n - n0 - n1 - n2 - n3 - n4 {
            return Err(ReconstructError::NotEnoughValues);
        }
        let x0 = match A::from_row(slice_subrange(values, 0, n0)) {
            Ok(x) => x,
            Err(e) => return Err(e),
        };
        let x1 = match B::from_row(slice_subrange(values, n0, n0 + n1)) {
            Ok(x) => x,
            Err(e) => return Err(e),
        };
        let x2 = match C::from_row(slice_subrange(values, n0 + n1, n0 + n1 + n2)) {
            Ok(x) => x,
            Err(e) => return Err(e),
        };
        let x3 = match D::from_row(slice_subrange(values, n0 + n1 + n2, n0 + n1 + n2 + n3)) {
            Ok(x) => x,
            Err(e) => return Err(e),
        };
        let x4 = match E::from_row(slice_subrange(values, n0 + n1 + n2 + n3, n0 + n1 + n2 + n3 + n4)) {
            Ok(x) => x,
            Err(e) => return Err(e),
        };
        let x5 = match F::from_row(slice_subrange(values, n0 + n1 + n2 + n3 + n4, n0 + n1 + n2 + n3 + n4 + n5)) {
            Ok(x) => x,
            Err(e) => return Err(e),
        };
        Ok((x0, x1, x2, x3, x4, x5))
    }
}

impl<A: Reconstruct, B: Reconstruct, C: Reconstruct, D: Reconstruct, E: Reconstruct, F: Reconstruct, G: Reconstruct> Reconstruct for (A, B, C, D, E, F, G) {
    open spec fn spec_tables() -> Seq<Seq<char>> {
        A::spec_tables() + B::spec_tables() + C::spec_tables() + D::spec_tables() + E::spec_tables() + F::spec_tables() + G::spec_tables()
    }

    open spec fn spec_joins() -> Seq<SpecJoin> {
        A::spec_joins() + B::spec_joins() + C::spec_joins() + D::spec_joins() + E::spec_joins() + F::spec_joins() + G::spec_joins()
    }

    open spec fn spec_exprs() -> Seq<Seq<char>> {
        A::spec_exprs() + B::spec_exprs() + C::spec_exprs() + D::spec_exprs() + E::spec_exprs() + F::spec_exprs() + G::spec_exprs()
    }

    open spec fn spec_from_row(values: Seq<SqlValue>) -> ReconstructResult<(A, B, C, D, E, F, G)> {
        let n0 = A::spec_exprs().len() as int;
        let n1 = B::spec_exprs().len() as int;
        let n2 = C::spec_exprs().len() as int;
        let n3 = D::spec_exprs().len() as int;
        let n4 = E::spec_exprs().len() as int;
        let n5 = F::spec_exprs().len() as int;
        let n6 = G::spec_exprs().len() as int;
        if values.len() != n0 + n1 + n2 + n3 + n4 + n5 + n6 {
            Err(ReconstructError::NotEnoughValues)
        } else {
            match A::spec_from_row(values.subrange(0, n0)) {
                Err(e) => Err(e),
                Ok(x0) =>
                match B::spec_from_row(values.subrange(n0, n0 + n1)) {
                    Err(e) => Err(e),
                    Ok(x1) =>
                    match C::spec_from_row(values.subrange(n0 + n1, n0 + n1 + n2)) {
                        Err(e) => Err(e),
                        Ok(x2) =>
                        match D::spec_from_row(values.subrange(n0 + n1 + n2, n0 + n1 + n2 + n3)) {
                            Err(e) => Err(e),
                            Ok(x3) =>
                            match E::spec_from_row(values.subrange(n0 + n1 + n2 + n3, n0 + n1 + n2 + n3 + n4)) {
                                Err(e) => Err(e),
                                Ok(x4) =>
                                match F::spec_from_row(values.subrange(n0 + n1 + n2 + n3 + n4, n0 + n1 + n2 + n3 + n4 + n5)) {
                                    Err(e) => Err(e),
                                    Ok(x5) =>
                                    match G::spec_from_row(values.subrange(n0 + n1 + n2 + n3 + n4 + n5, n0 + n1 + n2 + n3 + n4 + n5 + n6)) {
                                        Err(e) => Err(e),
                                        Ok(x6) =>
                                        Ok((x0, x1, x2, x3, x4, x5, x6)),
                                    },
                                },
                            },
                        },
                    },
                },
            }
        }
    }

    proof fn lemma_column_count(values: Seq<SqlValue>) {
    }

    fn required_tables() -> (r: Vec<String>) {
        let mut r = A::required_tables();
        let tail = B::required_tables();
        let ghost before = r@;
        let ghost t = tail@;
        concat_part(&mut r, tail);
        proof {
            lemma_map_values_concat(before, t, |s: String| s@);
        }
        let tail = C::required_tables();
        let ghost before = r@;
        let ghost t = tail@;
        concat_part(&mut r, tail);
        proof {
            lemma_map_values_concat(before, t, |s: String| s@);
        }
        let tail = D::required_tables();
        let ghost before = r@;
        let ghost t = tail@;
        concat_part(&mut r, tail);
        proof {
            lemma_map_values_concat(before, t, |s: String| s@);
        }
        let tail = E::required_tables();
        let ghost before = r@;
        let ghost t = tail@;
        concat_part(&mut r, tail);
        proof {
            lemma_map_values_concat(before, t, |s: String| s@);
        }
        let tail = F::required_tables();
        let ghost before = r@;
        let ghost t = tail@;
        concat_part(&mut r, tail);
        proof {
            lemma_map_values_concat(before, t, |s: String| s@);
        }
        let tail = G::required_tables();
        let ghost before = r@;
        let ghost t = tail@;
        concat_part(&mut r, tail);
        proof {
            lemma_map_values_concat(before, t, |s: String| s@);
        }
        r
    }

    fn required_joins() -> (r: Vec<Join>) {
        let mut r = A::required_joins();
        let tail = B::required_joins();
        let ghost before = r@;
        let ghost t = tail@;
        concat_part(&mut r, tail);
        proof {
            lemma_map_values_concat(before, t, |j: Join| j@);
        }
        let tail = C::required_joins();
        let ghost before = r@;
        let ghost t = tail@;
        concat_part(&mut r, tail);
        proof {
            lemma_map_values_concat(before, t, |j: Join| j@);
        }
        let tail = D::required_joins();
        let ghost before = r@;
        let ghost t = tail@;
        concat_part(&mut r, tail);
        proof {
            lemma_map_values_concat(before, t, |j: Join| j@);
        }
        let tail = E::required_joins();
        let ghost before = r@;
        let ghost t = tail@;
        concat_part(&mut r, tail);
        proof {
            lemma_map_values_concat(before, t, |j: Join| j@);
        }
        let tail = F::required_joins();
        let ghost before = r@;
        let ghost t = tail@;
        concat_part(&mut r, tail);
        proof {
            lemma_map_values_concat(before, t, |j: Join| j@);
        }
        let tail = G::required_joins();
        let ghost before = r@;
        let ghost t = tail@;
        concat_part(&mut r, tail);
        proof {
            lemma_map_values_concat(before, t, |j: Join| j@);
        }
        r
    }

    fn select_exprs() -> (r: Vec<String>) {
        let mut r = A::select_exprs();
        let tail = B::select_exprs();
        let ghost before = r@;
        let ghost t = tail@;
        concat_part(&mut r, tail);
        proof {
            lemma_map_values_concat(before, t, |s: String| s@);
        }
        let tail = C::select_exprs();
        let ghost before = r@;
        let ghost t = tail@;
        concat_part(&mut r, tail);
        proof {
            lemma_map_values_concat(before, t, |s: String| s@);
        }
        let tail = D::select_exprs();
        let ghost before = r@;
        let ghost t = tail@;
        concat_part(&mut r, tail);
        proof {
            lemma_map_values_concat(before, t, |s: String| s@);
        }
        let tail = E::select_exprs();
        let ghost before = r@;
        let ghost t = tail@;
        concat_part(&mut r, tail);
        proof {
            lemma_map_values_concat(before, t, |s: String| s@);
        }
        let tail = F::select_exprs();
        let ghost before = r@;
        let ghost t = tail@;
        concat_part(&mut r, tail);
        proof {
            lemma_map_values_concat(before, t, |s: String| s@);
        }
        let tail = G::select_exprs();
        let ghost before = r@;
        let ghost t = tail@;
        concat_part(&mut r, tail);
        proof {
            lemma_map_values_concat(before, t, |s: String| s@);
        }
        r
    }

    fn from_row(values: &[SqlValue]) -> (r: ReconstructResult<(A, B, C, D, E, F, G)>) {
        let e0 = A::select_exprs();
        let n0 = e0.len();
        let e1 = B::select_exprs();
        let n1 = e1.len();
        let e2 = C::select_exprs();
        let n2 = e2.len();
        let e3 = D::select_exprs();
        let n3 = e3.len();
        let e4 = E::select_exprs();
        let n4 = e4.len();
        let e5 = F::select_exprs();
        let n5 = e5.len();
        let e6 = G::select_exprs();
        let n6 = e6.len();
        proof {
            assert(e0@.map_values(|s: String| s@).len() == e0@.len());
            assert(e1@.map_values(|s: String| s@).len() == e1@.len());
            assert(e2@.map_values(|s: String| s@).len() == e2@.len());
            assert(e3@.map_values(|s: String| s@).len() == e3@.len());
            assert(e4@.map_values(|s: String| s@).len() == e4@.len());
            assert(e5@.map_values(|s: String| s@).len() == e5@.len());
            assert(e6@.map_values(|s: String| s@).len() == e6@.len());
        }
        let n = values.len();
        if n0 > n || n1 > n - n0 || n2 > n - n0 - n1 || n3 > n - n0 - n1 - n2 || n4 > n - n0 - n1 - n2 - n3 || n5 > n - n0 - n1 - n2 - n3 - n4 || n6 != n - n0 - n1 - n2 - n3 - n4 - n5 {
            return Err(ReconstructError::NotEnoughValues);
        }
        let x0 = match A::from_row(slice_subrange(values, 0, n0)) {
            Ok(x) => x,
            Err(e) => return Err(e),
        };
        let x1 = match B::from_row(slice_subrange(values, n0, n0 + n1)) {
            Ok(x) => x,
            Err(e) => return Err(e),
        };
        let x2 = match C::from_row(slice_subrange(values, n0 + n1, n0 + n1 + n2)) {
            Ok(x) => x,
            Err(e) => return Err(e),
        };
        let x3 = match D::from_row(slice_subrange(values, n0 + n1 + n2, n0 + n1 + n2 + n3)) {
            Ok(x) => x,
            Err(e) => return Err(e),
        };
        let x4 = match E::from_row(slice_subrange(values, n0 + n1 + n2 + n3, n0 + n1 + n2 + n3 + n4)) {
            Ok(x) => x,
            Err(e) => return Err(e),
        };
        let x5 = match F::from_row(slice_subrange(values, n0 + n1 + n2 + n3 + n4, n0 + n1 + n2 + n3 + n4 + n5)) {
            Ok(x) => x,
            Err(e) => return Err(e),
        };
        let x6 = match G::from_row(slice_subrange(values, n0 + n1 + n2 + n3 + n4 + n5, n0 + n1 + n2 + n3 + n4 + n5 + n6)) {
            Ok(x) => x,
            Err(e) => return Err(e),
        };
        Ok((x0, x1, x2, x3, x4, x5, x6))
    }
}

impl<A: Reconstruct, B: Reconstruct, C: Reconstruct, D: Reconstruct, E: Reconstruct, F: Reconstruct, G: Reconstruct, H: Reconstruct> Reconstruct for (A, B, C, D, E, F, G, H) {
    open spec fn spec_tables() -> Seq<Seq<char>> {
        A::spec_tables() + B::spec_tables() + C::spec_tables() + D::spec_tables() + E::spec_tables() + F::spec_tables() + G::spec_tables() + H::spec_tables()
    }

    open spec fn spec_joins() -> Seq<SpecJoin> {
        A::spec_joins() + B::spec_joins() + C::spec_joins() + D::spec_joins() + E::spec_joins() + F::spec_joins() + G::spec_joins() + H::spec_joins()
    }

    open spec fn spec_exprs() -> Seq<Seq<char>> {
        A::spec_exprs() + B::spec_exprs() + C::spec_exprs() + D::spec_exprs() + E::spec_exprs() + F::spec_exprs() + G::spec_exprs() + H::spec_exprs()
    }

    open spec fn spec_from_row(values: Seq<SqlValue>) -> ReconstructResult<(A, B, C, D, E, F, G, H)> {
        let n0 = A::spec_exprs().len() as int;
        let n1 = B::spec_exprs().len() as int;
        let n2 = C::spec_exprs().len() as int;
        let n3 = D::spec_exprs().len() as int;
        let n4 = E::spec_exprs().len() as int;
        let n5 = F::spec_exprs().len() as int;
        let n6 = G::spec_exprs().len() as int;
        let n7 = H::spec_exprs().len() as int;
        if values.len() != n0 + n1 + n2 + n3 + n4 + n5 + n6 + n7 {
            Err(ReconstructError::NotEnoughValues)
        } else {
            match A::spec_from_row(values.subrange(0, n0)) {
                Err(e) => Err(e),
                Ok(x0) =>
                match B::spec_from_row(values.subrange(n0, n0 + n1)) {
                    Err(e) => Err(e),
                    Ok(x1) =>
                    match C::spec_from_row(values.subrange(n0 + n1, n0 + n1 + n2)) {
                        Err(e) => Err(e),
                        Ok(x2) =>
                        match D::spec_from_row(values.subrange(n0 + n1 + n2, n0 + n1 + n2 + n3)) {
                            Err(e) => Err(e),
                            Ok(x3) =>
                            match E::spec_from_row(values.subrange(n0 + n1 + n2 + n3, n0 + n1 + n2 + n3 + n4)) {
                                Err(e) => Err(e),
                                Ok(x4) =>
                                match F::spec_from_row(values.subrange(n0 + n1 + n2 + n3 + n4, n0 + n1 + n2 + n3 + n4 + n5)) {
                                    Err(e) => Err(e),
                                    Ok(x5) =>
                                    match G::spec_from_row(values.subrange(n0 + n1 + n2 + n3 + n4 + n5, n0 + n1 + n2 + n3 + n4 + n5 + n6)) {
                                        Err(e) => Err(e),
                                        Ok(x6) =>
                                        match H::spec_from_row(values.subrange(n0 + n1 + n2 + n3 + n4 + n5 + n6, n0 + n1 + n2 + n3 + n4 + n5 + n6 + n7)) {
                                            Err(e) => Err(e),
                                            Ok(x7) =>
                                            Ok((x0, x1, x2, x3, x4, x5, x6, x7)),
                                        },
                                    },
                                },
                            },
                        },
                    },
                },
            }
        }
    }

    proof fn lemma_column_count(values: Seq<SqlValue>) {
    }

    fn required_tables() -> (r: Vec<String>) {
        let mut r = A::required_tables();
        let tail = B::required_tables();
        let ghost before = r@;
        let ghost t = tail@;
        concat_part(&mut r, tail);
        proof {
            lemma_map_values_concat(before, t, |s: String| s@);
        }
        let tail = C::required_tables();
        let ghost before = r@;
        let ghost t = tail@;
        concat_part(&mut r, tail);
        proof {
            lemma_map_values_concat(before, t, |s: String| s@);
        }
        let tail = D::required_tables();
        let ghost before = r@;
        let ghost t = tail@;
        concat_part(&mut r, tail);
        proof {
            lemma_map_values_concat(before, t, |s: String| s@);
        }
        let tail = E::required_tables();
        let ghost before = r@;
        let ghost t = tail@;
        concat_part(&mut r, tail);
        proof {
            lemma_map_values_concat(before, t, |s: String| s@);
        }
        let tail = F::required_tables();
        let ghost before = r@;
        let ghost t = tail@;
        concat_part(&mut r, tail);
        proof {
            lemma_map_values_concat(before, t, |s: String| s@);
        }
        let tail = G::required_tables();
        let ghost before = r@;
        let ghost t = tail@;
        concat_part(&mut r, tail);
        proof {
            lemma_map_values_concat(before, t, |s: String| s@);
        }
        let tail = H::required_tables();
        let ghost before = r@;
        let ghost t = tail@;
        concat_part(&mut r, tail);
        proof {
            lemma_map_values_concat(before, t, |s: String| s@);
        }
        r
    }

    fn required_joins() -> (r: Vec<Join>) {
        let mut r = A::required_joins();
        let tail = B::required_joins();
        let ghost before = r@;
        let ghost t = tail@;
        concat_part(&mut r, tail);
        proof {
            lemma_map_values_concat(before, t, |j: Join| j@);
        }
        let tail = C::required_joins();
        let ghost before = r@;
        let ghost t = tail@;
        concat_part(&mut r, tail);
        proof {
            lemma_map_values_concat(before, t, |j: Join| j@);
        }
        let tail = D::required_joins();
        let ghost before = r@;
        let ghost t = tail@;
        concat_part(&mut r, tail);
        proof {
            lemma_map_values_concat(before, t, |j: Join| j@);
        }
        let tail = E::required_joins();
        let ghost before = r@;
        let ghost t = tail@;
        concat_part(&mut r, tail);
        proof {
            lemma_map_values_concat(before, t, |j: Join| j@);
        }
        let tail = F::required_joins();
        let ghost before = r@;
        let ghost t = tail@;
        concat_part(&mut r, tail);
        proof {
            lemma_map_values_concat(before, t, |j: Join| j@);
        }
        let tail = G::required_joins();
        let ghost before = r@;
        let ghost t = tail@;
        concat_part(&mut r, tail);
        proof {
            lemma_map_values_concat(before, t, |j: Join| j@);
        }
        let tail = H::required_joins();
        let ghost before = r@;
        let ghost t = tail@;
        concat_part(&mut r, tail);
        proof {
            lemma_map_values_concat(before, t, |j: Join| j@);
        }
        r
    }

    fn select_exprs() -> (r: Vec<String>) {
        let mut r = A::select_exprs();
        let tail = B::select_exprs();
        let ghost before = r@;
        let ghost t = tail@;
        concat_part(&mut r, tail);
        proof {
            lemma_map_values_concat(before, t, |s: String| s@);
        }
        let tail = C::select_exprs();
        let ghost before = r@;
        let ghost t = tail@;
        concat_part(&mut r, tail);
        proof {
            lemma_map_values_concat(before, t, |s: String| s@);
        }
        let tail = D::select_exprs();
        let ghost before = r@;
        let ghost t = tail@;
        concat_part(&mut r, tail);
        proof {
            lemma_map_values_concat(before, t, |s: String| s@);
        }
        let tail = E::select_exprs();
        let ghost before = r@;
        let ghost t = tail@;
        concat_part(&mut r, tail);
        proof {
            lemma_map_values_concat(before, t, |s: String| s@);
        }
        let tail = F::select_exprs();
        let ghost before = r@;
        let ghost t = tail@;
        concat_part(&mut r, tail);
        proof {
            lemma_map_values_concat(before, t, |s: String| s@);
        }
        let tail = G::select_exprs();
        let ghost before = r@;
        let ghost t = tail@;
        concat_part(&mut r, tail);
        proof {
            lemma_map_values_concat(before, t, |s: String| s@);
        }
        let tail = H::select_exprs();
        let ghost before = r@;
        let ghost t = tail@;
        concat_part(&mut r, tail);
        proof {
            lemma_map_values_concat(before, t, |s: String| s@);
        }
        r
    }

    fn from_row(values: &[SqlValue]) -> (r: ReconstructResult<(A, B, C, D, E, F, G, H)>) {
        let e0 = A::select_exprs();
        let n0 = e0.len();
        let e1 = B::select_exprs();
        let n1 = e1.len();
        let e2 = C::select_exprs();
        let n2 = e2.len();
        let e3 = D::select_exprs();
        let n3 = e3.len();
        let e4 = E::select_exprs();
        let n4 = e4.len();
        let e5 = F::select_exprs();
        let n5 = e5.len();
        let e6 = G::select_exprs();
        let n6 = e6.len();
        let e7 = H::select_exprs();
        let n7 = e7.len();
        proof {
            assert(e0@.map_values(|s: String| s@).len() == e0@.len());
            assert(e1@.map_values(|s: String| s@).len() == e1@.len());
            assert(e2@.map_values(|s: String| s@).len() == e2@.len());
            assert(e3@.map_values(|s: String| s@).len() == e3@.len());
            assert(e4@.map_values(|s: String| s@).len() == e4@.len());
            assert(e5@.map_values(|s: String| s@).len() == e5@.len());
            assert(e6@.map_values(|s: String| s@).len() == e6@.len());
            assert(e7@.map_values(|s: String| s@).len() == e7@.len());
        }
        let n = values.len();
        if n0 > n || n1 > n - n0 || n2 > n - n0 - n1 || n3 > n - n0 - n1 - n2 || n4 > n - n0 - n1 - n2 - n3 || n5 > n - n0 - n1 - n2 - n3 - n4 || n6 > n - n0 - n1 - n2 - n3 - n4 - n5 || n7 != n - n0 - n1 - n2 - n3 - n4 - n5 - n6 {
            return Err(ReconstructError::NotEnoughValues);
        }
        let x0 = match A::from_row(slice_subrange(values, 0, n0)) {
            Ok(x) => x,
            Err(e) => return Err(e),
        };
        let x1 = match B::from_row(slice_subrange(values, n0, n0 + n1)) {
            Ok(x) => x,
            Err(e) => return Err(e),
        };
        let x2 = match C::from_row(slice_subrange(values, n0 + n1, n0 + n1 + n2)) {
            Ok(x) => x,
            Err(e) => return Err(e),
        };
        let x3 = match D::from_row(slice_subrange(values, n0 + n1 + n2, n0 + n1 + n2 + n3)) {
            Ok(x) => x,
            Err(e) => return Err(e),
        };
        let x4 = match E::from_row(slice_subrange(values, n0 + n1 + n2 + n3, n0 + n1 + n2 + n3 + n4)) {
            Ok(x) => x,
            Err(e) => return Err(e),
        };
        let x5 = match F::from_row(slice_subrange(values, n0 + n1 + n2 + n3 + n4, n0 + n1 + n2 + n3 + n4 + n5)) {
            Ok(x) => x,
            Err(e) => return Err(e),
        };
        let x6 = match G::from_row(slice_subrange(values, n0 + n1 + n2 + n3 + n4 + n5, n0 + n1 + n2 + n3 + n4 + n5 + n6)) {
            Ok(x) => x,
            Err(e) => return Err(e),
        };
        let x7 = match H::from_row(slice_subrange(values, n0 + n1 + n2 + n3 + n4 + n5 + n6, n0 + n1 + n2 + n3 + n4 + n5 + n6 + n7)) {
            Ok(x) => x,
            Err(e) => return Err(e),
        };
        Ok((x0, x1, x2, x3, x4, x5, x6, x7))
    }
}

impl<A: Reconstruct, B: Reconstruct, C: Reconstruct, D: Reconstruct, E: Reconstruct, F: Reconstruct, G: Reconstruct, H: Reconstruct, I: Reconstruct> Reconstruct for (A, B, C, D, E, F, G, H, I) {
    open spec fn spec_tables() -> Seq<Seq<char>> {
        A::spec_tables() + B::spec_tables() + C::spec_tables() + D::spec_tables() + E::spec_tables() + F::spec_tables() + G::spec_tables() + H::spec_tables() + I::spec_tables()
    }

    open spec fn spec_joins() -> Seq<SpecJoin> {
        A::spec_joins() + B::spec_joins() + C::spec_joins() + D::spec_joins() + E::spec_joins() + F::spec_joins() + G::spec_joins() + H::spec_joins() + I::spec_joins()
    }

    open spec fn spec_exprs() -> Seq<Seq<char>> {
        A::spec_exprs() + B::spec_exprs() + C::spec_exprs() + D::spec_exprs() + E::spec_exprs() + F::spec_exprs() + G::spec_exprs() + H::spec_exprs() + I::spec_exprs()
    }

    open spec fn spec_from_row(values: Seq<SqlValue>) -> ReconstructResult<(A, B, C, D, E, F, G, H, I)> {
        let n0 = A::spec_exprs().len() as int;
        let n1 = B::spec_exprs().len() as int;
        let n2 = C::spec_exprs().len() as int;
        let n3 = D::spec_exprs().len() as int;
        let n4 = E::spec_exprs().len() as int;
        let n5 = F::spec_exprs().len() as int;
        let n6 = G::spec_exprs().len() as int;
        let n7 = H::spec_exprs().len() as int;
        let n8 = I::spec_exprs().len() as int;
        if values.len() != n0 + n1 + n2 + n3 + n4 + n5 + n6 + n7 + n8 {
            Err(ReconstructError::NotEnoughValues)
        } else {
            match A::spec_from_row(values.subrange(0, n0)) {
                Err(e) => Err(e),
                Ok(x0) =>
                match B::spec_from_row(values.subrange(n0, n0 + n1)) {
                    Err(e) => Err(e),
                    Ok(x1) =>
                    match C::spec_from_row(values.subrange(n0 + n1, n0 + n1 + n2)) {
                        Err(e) => Err(e),
                        Ok(x2) =>
                        match D::spec_from_row(values.subrange(n0 + n1 + n2, n0 + n1 + n2 + n3)) {
                            Err(e) => Err(e),
                            Ok(x3) =>
                            match E::spec_from_row(values.subrange(n0 + n1 + n2 + n3, n0 + n1 + n2 + n3 + n4)) {
                                Err(e) => Err(e),
                                Ok(x4) =>
                                match F::spec_from_row(values.subrange(n0 + n1 + n2 + n3 + n4, n0 + n1 + n2 + n3 + n4 + n5)) {
                                    Err(e) => Err(e),
                                    Ok(x5) =>
                                    match G::spec_from_row(values.subrange(n0 + n1 + n2 + n3 + n4 + n5, n0 + n1 + n2 + n3 + n4 + n5 + n6)) {
                                        Err(e) => Err(e),
                                        Ok(x6) =>
                                        match H::spec_from_row(values.subrange(n0 + n1 + n2 + n3 + n4 + n5 + n6, n0 + n1 + n2 + n3 + n4 + n5 + n6 + n7)) {
                                            Err(e) => Err(e),
                                            Ok(x7) =>
                                            match I::spec_from_row(values.subrange(n0 + n1 + n2 + n3 + n4 + n5 + n6 + n7, n0 + n1 + n2 + n3 + n4 + n5 + n6 + n7 + n8)) {
                                                Err(e) => Err(e),
                                                Ok(x8) =>
                                                Ok((x0, x1, x2, x3, x4, x5, x6, x7, x8)),
                                            },
                                        },
                                    },
                                },
                            },
                        },
                    },
                },
            }
        }
    }

    proof fn lemma_column_count(values: Seq<SqlValue>) {
    }

    fn required_tables() -> (r: Vec<String>) {
        let mut r = A::required_tables();
        let tail = B::required_tables();
        let ghost before = r@;
        let ghost t = tail@;
        concat_part(&mut r, tail);
        proof {
            lemma_map_values_concat(before, t, |s: String| s@);
        }
        let tail = C::required_tables();
        let ghost before = r@;
        let ghost t = tail@;
        concat_part(&mut r, tail);
        proof {
            lemma_map_values_concat(before, t, |s: String| s@);
        }
        let tail = D::required_tables();
        let ghost before = r@;
        let ghost t = tail@;
        concat_part(&mut r, tail);
        proof {
            lemma_map_values_concat(before, t, |s: String| s@);
        }
        let tail = E::required_tables();
        let ghost before = r@;
        let ghost t = tail@;
        concat_part(&mut r, tail);
        proof {
            lemma_map_values_concat(before, t, |s: String| s@);
        }
        let tail = F::required_tables();
        let ghost before = r@;
        let ghost t = tail@;
        concat_part(&mut r, tail);
        proof {
            lemma_map_values_concat(before, t, |s: String| s@);
        }
        let tail = G::required_tables();
        let ghost before = r@;
        let ghost t = tail@;
        concat_part(&mut r, tail);
        proof {
            lemma_map_values_concat(before, t, |s: String| s@);
        }
        let tail = H::required_tables();
        let ghost before = r@;
        let ghost t = tail@;
        concat_part(&mut r, tail);
        proof {
            lemma_map_values_concat(before, t, |s: String| s@);
        }
        let tail = I::required_tables();
        let ghost before = r@;
        let ghost t = tail@;
        concat_part(&mut r, tail);
        proof {
            lemma_map_values_concat(before, t, |s: String| s@);
        }
        r
    }

    fn required_joins() -> (r: Vec<Join>) {
        let mut r = A::required_joins();
        let tail = B::required_joins();
        let ghost before = r@;
        let ghost t = tail@;
        concat_part(&mut r, tail);
        proof {
            lemma_map_values_concat(before, t, |j: Join| j@);
        }
        let tail = C::required_joins();
        let ghost before = r@;
        let ghost t = tail@;
        concat_part(&mut r, tail);
        proof {
            lemma_map_values_concat(before, t, |j: Join| j@);
        }
        let tail = D::required_joins();
        let ghost before = r@;
        let ghost t = tail@;
        concat_part(&mut r, tail);
        proof {
            lemma_map_values_concat(before, t, |j: Join| j@);
        }
        let tail = E::required_joins();
        let ghost before = r@;
        let ghost t = tail@;
        concat_part(&mut r, tail);
        proof {
            lemma_map_values_concat(before, t, |j: Join| j@);
        }
        let tail = F::required_joins();
        let ghost before = r@;
        let ghost t = tail@;
        concat_part(&mut r, tail);
        proof {
            lemma_map_values_concat(before, t, |j: Join| j@);
        }
        let tail = G::required_joins();
        let ghost before = r@;
        let ghost t = tail@;
        concat_part(&mut r, tail);
        proof {
            lemma_map_values_concat(before, t, |j: Join| j@);
        }
        let tail = H::required_joins();
        let ghost before = r@;
        let ghost t = tail@;
        concat_part(&mut r, tail);
        proof {
            lemma_map_values_concat(before, t, |j: Join| j@);
        }
        let tail = I::required_joins();
        let ghost before = r@;
        let ghost t = tail@;
        concat_part(&mut r, tail);
        proof {
            lemma_map_values_concat(before, t, |j: Join| j@);
        }
        r
    }

    fn select_exprs() -> (r: Vec<String>) {
        let mut r = A::select_exprs();
        let tail = B::select_exprs();
        let ghost before = r@;
        let ghost t = tail@;
        concat_part(&mut r, tail);
        proof {
            lemma_map_values_concat(before, t, |s: String| s@);
        }
        let tail = C::select_exprs();
        let ghost before = r@;
        let ghost t = tail@;
        concat_part(&mut r, tail);
        proof {
            lemma_map_values_concat(before, t, |s: String| s@);
        }
        let tail = D::select_exprs();
        let ghost before = r@;
        let ghost t = tail@;
        concat_part(&mut r, tail);
        proof {
            lemma_map_values_concat(before, t, |s: String| s@);
        }
        let tail = E::select_exprs();
        let ghost before = r@;
        let ghost t = tail@;
        concat_part(&mut r, tail);
        proof {
            lemma_map_values_concat(before, t, |s: String| s@);
        }
        let tail = F::select_exprs();
        let ghost before = r@;
        let ghost t = tail@;
        concat_part(&mut r, tail);
        proof {
            lemma_map_values_concat(before, t, |s: String| s@);
        }
        let tail = G::select_exprs();
        let ghost before = r@;
        let ghost t = tail@;
        concat_part(&mut r, tail);
        proof {
            lemma_map_values_concat(before, t, |s: String| s@);
        }
        let tail = H::select_exprs();
        let ghost before = r@;
        let ghost t = tail@;
        concat_part(&mut r, tail);
        proof {
            lemma_map_values_concat(before, t, |s: String| s@);
        }
        let tail = I::select_exprs();
        let ghost before = r@;
        let ghost t = tail@;
        concat_part(&mut r, tail);
        proof {
            lemma_map_values_concat(before, t, |s: String| s@);
        }
        r
    }

    fn from_row(values: &[SqlValue]) -> (r: ReconstructResult<(A, B, C, D, E, F, G, H, I)>) {
        let e0 = A::select_exprs();
        let n0 = e0.len();
        let e1 = B::select_exprs();
        let n1 = e1.len();
        let e2 = C::select_exprs();
        let n2 = e2.len();
        let e3 = D::select_exprs();
        let n3 = e3.len();
        let e4 = E::select_exprs();
        let n4 = e4.len();
        let e5 = F::select_exprs();
        let n5 = e5.len();
        let e6 = G::select_exprs();
        let n6 = e6.len();
        let e7 = H::select_exprs();
        let n7 = e7.len();
        let e8 = I::select_exprs();
        let n8 = e8.len();
        proof {
            assert(e0@.map_values(|s: String| s@).len() == e0@.len());
            assert(e1@.map_values(|s: String| s@).len() == e1@.len());
            assert(e2@.map_values(|s: String| s@).len() == e2@.len());
            assert(e3@.map_values(|s: String| s@).len() == e3@.len());
            assert(e4@.map_values(|s: String| s@).len() == e4@.len());
            assert(e5@.map_values(|s: String| s@).len() == e5@.len());
            assert(e6@.map_values(|s: String| s@).len() == e6@.len());
            assert(e7@.map_values(|s: String| s@).len() == e7@.len());
            assert(e8@.map_values(|s: String| s@).len() == e8@.len());
        }
        let n = values.len();
        if n0 > n || n1 > n - n0 || n2 > n - n0 - n1 || n3 > n - n0 - n1 - n2 || n4 > n - n0 - n1 - n2 - n3 || n5 > n - n0 - n1 - n2 - n3 - n4 || n6 > n - n0 - n1 - n2 - n3 - n4 - n5 || n7 > n - n0 - n1 - n2 - n3 - n4 - n5 - n6 || n8 != n - n0 - n1 - n2 - n3 - n4 - n5 - n6 - n7 {
            return Err(ReconstructError::NotEnoughValues);
        }
        let x0 = match A::from_row(slice_subrange(values, 0, n0)) {
            Ok(x) => x,
            Err(e) => return Err(e),
        };
        let x1 = match B::from_row(slice_subrange(values, n0, n0 + n1)) {
            Ok(x) => x,
            Err(e) => return Err(e),
        };
        let x2 = match C::from_row(slice_subrange(values, n0 + n1, n0 + n1 + n2)) {
            Ok(x) => x,
            Err(e) => return Err(e),
        };
        let x3 = match D::from_row(slice_subrange(values, n0 + n1 + n2, n0 + n1 + n2 + n3)) {
            Ok(x) => x,
            Err(e) => return Err(e),
        };
        let x4 = match E::from_row(slice_subrange(values, n0 + n1 + n2 + n3, n0 + n1 + n2 + n3 + n4)) {
            Ok(x) => x,
            Err(e) => return Err(e),
        };
        let x5 = match F::from_row(slice_subrange(values, n0 + n1 + n2 + n3 + n4, n0 + n1 + n2 + n3 + n4 + n5)) {
            Ok(x) => x,
            Err(e) => return Err(e),
        };
        let x6 = match G::from_row(slice_subrange(values, n0 + n1 + n2 + n3 + n4 + n5, n0 + n1 + n2 + n3 + n4 + n5 + n6)) {
            Ok(x) => x,
            Err(e) => return Err(e),
        };
        let x7 = match H::from_row(slice_subrange(values, n0 + n1 + n2 + n3 + n4 + n5 + n6, n0 + n1 + n2 + n3 + n4 + n5 + n6 + n7)) {
            Ok(x) => x,
            Err(e) => return Err(e),
        };
        let x8 = match I::from_row(slice_subrange(values, n0 + n1 + n2 + n3 + n4 + n5 + n6 + n7, n0 + n1 + n2 + n3 + n4 + n5 + n6 + n7 + n8)) {
            Ok(x) => x,
            Err(e) => return Err(e),
        };
        Ok((x0, x1, x2, x3, x4, x5, x6, x7, x8))
    }
}

impl<A: Reconstruct, B: Reconstruct, C: Reconstruct, D: Reconstruct, E: Reconstruct, F: Reconstruct, G: Reconstruct, H: Reconstruct, I: Reconstruct, J: Reconstruct> Reconstruct for (A, B, C, D, E, F, G, H, I, J) {
    open spec fn spec_tables() -> Seq<Seq<char>> {
        A::spec_tables() + B::spec_tables() + C::spec_tables() + D::spec_tables() + E::spec_tables() + F::spec_tables() + G::spec_tables() + H::spec_tables() + I::spec_tables() + J::spec_tables()
    }

    open spec fn spec_joins() -> Seq<SpecJoin> {
        A::spec_joins() + B::spec_joins() + C::spec_joins() + D::spec_joins() + E::spec_joins() + F::spec_joins() + G::spec_joins() + H::spec_joins() + I::spec_joins() + J::spec_joins()
    }

    open spec fn spec_exprs() -> Seq<Seq<char>> {
        A::spec_exprs() + B::spec_exprs() + C::spec_exprs() + D::spec_exprs() + E::spec_exprs() + F::spec_exprs() + G::spec_exprs() + H::spec_exprs() + I::spec_exprs() + J::spec_exprs()
    }

    open spec fn spec_from_row(values: Seq<SqlValue>) -> ReconstructResult<(A, B, C, D, E, F, G, H, I, J)> {
        let n0 = A::spec_exprs().len() as int;
        let n1 = B::spec_exprs().len() as int;
        let n2 = C::spec_exprs().len() as int;
        let n3 = D::spec_exprs().len() as int;
        let n4 = E::spec_exprs().len() as int;
        let n5 = F::spec_exprs().len() as int;
        let n6 = G::spec_exprs().len() as int;
        let n7 = H::spec_exprs().len() as int;
        let n8 = I::spec_exprs().len() as int;
        let n9 = J::spec_exprs().len() as int;
        if values.len() != n0 + n1 + n2 + n3 + n4 + n5 + n6 + n7 + n8 + n9 {
            Err(ReconstructError::NotEnoughValues)
        } else {
            match A::spec_from_row(values.subrange(0, n0)) {
                Err(e) => Err(e),
                Ok(x0) =>
                match B::spec_from_row(values.subrange(n0, n0 + n1)) {
                    Err(e) => Err(e),
                    Ok(x1) =>
                    match C::spec_from_row(values.subrange(n0 + n1, n0 + n1 + n2)) {
                        Err(e) => Err(e),
                        Ok(x2) =>
                        match D::spec_from_row(values.subrange(n0 + n1 + n2, n0 + n1 + n2 + n3)) {
                            Err(e) => Err(e),
                            Ok(x3) =>
                            match E::spec_from_row(values.subrange(n0 + n1 + n2 + n3, n0 + n1 + n2 + n3 + n4)) {
                                Err(e) => Err(e),
                                Ok(x4) =>
                                match F::spec_from_row(values.subrange(n0 + n1 + n2 + n3 + n4, n0 + n1 + n2 + n3 + n4 + n5)) {
                                    Err(e) => Err(e),
                                    Ok(x5) =>
                                    match G::spec_from_row(values.subrange(n0 + n1 + n2 + n3 + n4 + n5, n0 + n1 + n2 + n3 + n4 + n5 + n6)) {
                                        Err(e) => Err(e),
                                        Ok(x6) =>
                                        match H::spec_from_row(values.subrange(n0 + n1 + n2 + n3 + n4 + n5 + n6, n0 + n1 + n2 + n3 + n4 + n5 + n6 + n7)) {
                                            Err(e) => Err(e),
                                            Ok(x7) =>
                                            match I::spec_from_row(values.subrange(n0 + n1 + n2 + n3 + n4 + n5 + n6 + n7, n0 + n1 + n2 + n3 + n4 + n5 + n6 + n7 + n8)) {
                                                Err(e) => Err(e),
                                                Ok(x8) =>
                                                match J::spec_from_row(values.subrange(n0 + n1 + n2 + n3 + n4 + n5 + n6 + n7 + n8, n0 + n1 + n2 + n3 + n4 + n5 + n6 + n7 + n8 + n9)) {
                                                    Err(e) => Err(e),
                                                    Ok(x9) =>
                                                    Ok((x0, x1, x2, x3, x4, x5, x6, x7, x8, x9)),
                                                },
                                            },
                                        },
                                    },
                                },
                            },
                        },
                    },
                },
            }
        }
    }

    proof fn lemma_column_count(values: Seq<SqlValue>) {
    }

    fn required_tables() -> (r: Vec<String>) {
        let mut r = A::required_tables();
        let tail = B::required_tables();
        let ghost before = r@;
        let ghost t = tail@;
        concat_part(&mut r, tail);
        proof {
            lemma_map_values_concat(before, t, |s: String| s@);
        }
        let tail = C::required_tables();
        let ghost before = r@;
        let ghost t = tail@;
        concat_part(&mut r, tail);
        proof {
            lemma_map_values_concat(before, t, |s: String| s@);
        }
        let tail = D::required_tables();
        let ghost before = r@;
        let ghost t = tail@;
        concat_part(&mut r, tail);
        proof {
            lemma_map_values_concat(before, t, |s: String| s@);
        }
        let tail = E::required_tables();
        let ghost before = r@;
        let ghost t = tail@;
        concat_part(&mut r, tail);
        proof {
            lemma_map_values_concat(before, t, |s: String| s@);
        }
        let tail = F::required_tables();
        let ghost before = r@;
        let ghost t = tail@;
        concat_part(&mut r, tail);
        proof {
            lemma_map_values_concat(before, t, |s: String| s@);
        }
        let tail = G::required_tables();
        let ghost before = r@;
        let ghost t = tail@;
        concat_part(&mut r, tail);
        proof {
            lemma_map_values_concat(before, t, |s: String| s@);
        }
        let tail = H::required_tables();
        let ghost before = r@;
        let ghost t = tail@;
        concat_part(&mut r, tail);
        proof {
            lemma_map_values_concat(before, t, |s: String| s@);
        }
        let tail = I::required_tables();
        let ghost before = r@;
        let ghost t = tail@;
        concat_part(&mut r, tail);
        proof {
            lemma_map_values_concat(before, t, |s: String| s@);
        }
        let tail = J::required_tables();
        let ghost before = r@;
        let ghost t = tail@;
        concat_part(&mut r, tail);
        proof {
            lemma_map_values_concat(before, t, |s: String| s@);
        }
        r
    }

    fn required_joins() -> (r: Vec<Join>) {
        let mut r = A::required_joins();
        let tail = B::required_joins();
        let ghost before = r@;
        let ghost t = tail@;
        concat_part(&mut r, tail);
        proof {
            lemma_map_values_concat(before, t, |j: Join| j@);
        }
        let tail = C::required_joins();
        let ghost before = r@;
        let ghost t = tail@;
        concat_part(&mut r, tail);
        proof {
            lemma_map_values_concat(before, t, |j: Join| j@);
        }
        let tail = D::required_joins();
        let ghost before = r@;
        let ghost t = tail@;
        concat_part(&mut r, tail);
        proof {
            lemma_map_values_concat(before, t, |j: Join| j@);
        }
        let tail = E::required_joins();
        let ghost before = r@;
        let ghost t = tail@;
        concat_part(&mut r, tail);
        proof {
            lemma_map_values_concat(before, t, |j: Join| j@);
        }
        let tail = F::required_joins();
        let ghost before = r@;
        let ghost t = tail@;
        concat_part(&mut r, tail);
        proof {
            lemma_map_values_concat(before, t, |j: Join| j@);
        }
        let tail = G::required_joins();
        let ghost before = r@;
        let ghost t = tail@;
        concat_part(&mut r, tail);
        proof {
            lemma_map_values_concat(before, t, |j: Join| j@);
        }
        let tail = H::required_joins();
        let ghost before = r@;
        let ghost t = tail@;
        concat_part(&mut r, tail);
        proof {
            lemma_map_values_concat(before, t, |j: Join| j@);
        }
        let tail = I::required_joins();
        let ghost before = r@;
        let ghost t = tail@;
        concat_part(&mut r, tail);
        proof {
            lemma_map_values_concat(before, t, |j: Join| j@);
        }
        let tail = J::required_joins();
        let ghost before = r@;
        let ghost t = tail@;
        concat_part(&mut r, tail);
        proof {
            lemma_map_values_concat(before, t, |j: Join| j@);
        }
        r
    }

    fn select_exprs() -> (r: Vec<String>) {
        let mut r = A::select_exprs();
        let tail = B::select_exprs();
        let ghost before = r@;
        let ghost t = tail@;
        concat_part(&mut r, tail);
        proof {
            lemma_map_values_concat(before, t, |s: String| s@);
        }
        let tail = C::select_exprs();
        let ghost before = r@;
        let ghost t = tail@;
        concat_part(&mut r, tail);
        proof {
            lemma_map_values_concat(before, t, |s: String| s@);
        }
        let tail = D::select_exprs();
        let ghost before = r@;
        let ghost t = tail@;
        concat_part(&mut r, tail);
        proof {
            lemma_map_values_concat(before, t, |s: String| s@);
        }
        let tail = E::select_exprs();
        let ghost before = r@;
        let ghost t = tail@;
        concat_part(&mut r, tail);
        proof {
            lemma_map_values_concat(before, t, |s: String| s@);
        }
        let tail = F::select_exprs();
        let ghost before = r@;
        let ghost t = tail@;
        concat_part(&mut r, tail);
        proof {
            lemma_map_values_concat(before, t, |s: String| s@);
        }
        let tail = G::select_exprs();
        let ghost before = r@;
        let ghost t = tail@;
        concat_part(&mut r, tail);
        proof {
            lemma_map_values_concat(before, t, |s: String| s@);
        }
        let tail = H::select_exprs();
        let ghost before = r@;
        let ghost t = tail@;
        concat_part(&mut r, tail);
        proof {
            lemma_map_values_concat(before, t, |s: String| s@);
        }
        let tail = I::select_exprs();
        let ghost before = r@;
        let ghost t = tail@;
        concat_part(&mut r, tail);
        proof {
            lemma_map_values_concat(before, t, |s: String| s@);
        }
        let tail = J::select_exprs();
        let ghost before = r@;
        let ghost t = tail@;
        concat_part(&mut r, tail);
        proof {
            lemma_map_values_concat(before, t, |s: String| s@);
        }
        r
    }

    fn from_row(values: &[SqlValue]) -> (r: ReconstructResult<(A, B, C, D, E, F, G, H, I, J)>) {
        let e0 = A::select_exprs();
        let n0 = e0.len();
        let e1 = B::select_exprs();
        let n1 = e1.len();
        let e2 = C::select_exprs();
        let n2 = e2.len();
        let e3 = D::select_exprs();
        let n3 = e3.len();
        let e4 = E::select_exprs();
        let n4 = e4.len();
        let e5 = F::select_exprs();
        let n5 = e5.len();
        let e6 = G::select_exprs();
        let n6 = e6.len();
        let e7 = H::select_exprs();
        let n7 = e7.len();
        let e8 = I::select_exprs();
        let n8 = e8.len();
        let e9 = J::select_exprs();
        let n9 = e9.len();
        proof {
            assert(e0@.map_values(|s: String| s@).len() == e0@.len());
            assert(e1@.map_values(|s: String| s@).len() == e1@.len());
            assert(e2@.map_values(|s: String| s@).len() == e2@.len());
            assert(e3@.map_values(|s: String| s@).len() == e3@.len());
            assert(e4@.map_values(|s: String| s@).len() == e4@.len());
            assert(e5@.map_values(|s: String| s@).len() == e5@.len());
            assert(e6@.map_values(|s: String| s@).len() == e6@.len());
            assert(e7@.map_values(|s: String| s@).len() == e7@.len());
            assert(e8@.map_values(|s: String| s@).len() == e8@.len());
            assert(e9@.map_values(|s: String| s@).len() == e9@.len());
        }
        let n = values.len();
        if n0 > n || n1 > n - n0 || n2 > n - n0 - n1 || n3 > n - n0 - n1 - n2 || n4 > n - n0 - n1 - n2 - n3 || n5 > n - n0 - n1 - n2 - n3 - n4 || n6 > n - n0 - n1 - n2 - n3 - n4 - n5 || n7 > n - n0 - n1 - n2 - n3 - n4 - n5 - n6 || n8 > n - n0 - n1 - n2 - n3 - n4 - n5 - n6 - n7 || n9 != n - n0 - n1 - n2 - n3 - n4 - n5 - n6 - n7 - n8 {
            return Err(ReconstructError::NotEnoughValues);
        }
        let x0 = match A::from_row(slice_subrange(values, 0, n0)) {
            Ok(x) => x,
            Err(e) => return Err(e),
        };
        let x1 = match B::from_row(slice_subrange(values, n0, n0 + n1)) {
            Ok(x) => x,
            Err(e) => return Err(e),
        };
        let x2 = match C::from_row(slice_subrange(values, n0 + n1, n0 + n1 + n2)) {
            Ok(x) => x,
            Err(e) => return Err(e),
        };
        let x3 = match D::from_row(slice_subrange(values, n0 + n1 + n2, n0 + n1 + n2 + n3)) {
            Ok(x) => x,
            Err(e) => return Err(e),
        };
        let x4 = match E::from_row(slice_subrange(values, n0 + n1 + n2 + n3, n0 + n1 + n2 + n3 + n4)) {
            Ok(x) => x,
            Err(e) => return Err(e),
        };
        let x5 = match F::from_row(slice_subrange(values, n0 + n1 + n2 + n3 + n4, n0 + n1 + n2 + n3 + n4 + n5)) {
            Ok(x) => x,
            Err(e) => return Err(e),
        };
        let x6 = match G::from_row(slice_subrange(values, n0 + n1 + n2 + n3 + n4 + n5, n0 + n1 + n2 + n3 + n4 + n5 + n6)) {
            Ok(x) => x,
            Err(e) => return Err(e),
        };
        let x7 = match H::from_row(slice_subrange(values, n0 + n1 + n2 + n3 + n4 + n5 + n6, n0 + n1 + n2 + n3 + n4 + n5 + n6 + n7)) {
            Ok(x) => x,
            Err(e) => return Err(e),
        };
        let x8 = match I::from_row(slice_subrange(values, n0 + n1 + n2 + n3 + n4 + n5 + n6 + n7, n0 + n1 + n2 + n3 + n4 + n5 + n6 + n7 + n8)) {
            Ok(x) => x,
            Err(e) => return Err(e),
        };
        let x9 = match J::from_row(slice_subrange(values, n0 + n1 + n2 + n3 + n4 + n5 + n6 + n7 + n8, n0 + n1 + n2 + n3 + n4 + n5 + n6 + n7 + n8 + n9)) {
            Ok(x) => x,
            Err(e) => return Err(e),
        };
        Ok((x0, x1, x2, x3, x4, x5, x6, x7, x8, x9))
    }
}

impl<A: Reconstruct, B: Reconstruct, C: Reconstruct, D: Reconstruct, E: Reconstruct, F: Reconstruct, G: Reconstruct, H: Reconstruct, I: Reconstruct, J: Reconstruct, K: Reconstruct> Reconstruct for (A, B, C, D, E, F, G, H, I, J, K) {
    open spec fn spec_tables() -> Seq<Seq<char>> {
        A::spec_tables() + B::spec_tables() + C::spec_tables() + D::spec_tables() + E::spec_tables() + F::spec_tables() + G::spec_tables() + H::spec_tables() + I::spec_tables() + J::spec_tables() + K::spec_tables()
    }

    open spec fn spec_joins() -> Seq<SpecJoin> {
        A::spec_joins() + B::spec_joins() + C::spec_joins() + D::spec_joins() + E::spec_joins() + F::spec_joins() + G::spec_joins() + H::spec_joins() + I::spec_joins() + J::spec_joins() + K::spec_joins()
    }

    open spec fn spec_exprs() -> Seq<Seq<char>> {
        A::spec_exprs() + B::spec_exprs() + C::spec_exprs() + D::spec_exprs() + E::spec_exprs() + F::spec_exprs() + G::spec_exprs() + H::spec_exprs() + I::spec_exprs() + J::spec_exprs() + K::spec_exprs()
    }

    open spec fn spec_from_row(values: Seq<SqlValue>) -> ReconstructResult<(A, B, C, D, E, F, G, H, I, J, K)> {
        let n0 = A::spec_exprs().len() as int;
        let n1 = B::spec_exprs().len() as int;
        let n2 = C::spec_exprs().len() as int;
        let n3 = D::spec_exprs().len() as int;
        let n4 = E::spec_exprs().len() as int;
        let n5 = F::spec_exprs().len() as int;
        let n6 = G::spec_exprs().len() as int;
        let n7 = H::spec_exprs().len() as int;
        let n8 = I::spec_exprs().len() as int;
        let n9 = J::spec_exprs().len() as int;
        let n10 = K::spec_exprs().len() as int;
        if values.len() != n0 + n1 + n2 + n3 + n4 + n5 + n6 + n7 + n8 + n9 + n10 {
            Err(ReconstructError::NotEnoughValues)
        } else {
            match A::spec_from_row(values.subrange(0, n0)) {
                Err(e) => Err(e),
                Ok(x0) =>
                match B::spec_from_row(values.subrange(n0, n0 + n1)) {
                    Err(e) => Err(e),
                    Ok(x1) =>
                    match C::spec_from_row(values.subrange(n0 + n1, n0 + n1 + n2)) {
                        Err(e) => Err(e),
                        Ok(x2) =>
                        match D::spec_from_row(values.subrange(n0 + n1 + n2, n0 + n1 + n2 + n3)) {
                            Err(e) => Err(e),
                            Ok(x3) =>
                            match E::spec_from_row(values.subrange(n0 + n1 + n2 + n3, n0 + n1 + n2 + n3 + n4)) {
                                Err(e) => Err(e),
                                Ok(x4) =>
                                match F::spec_from_row(values.subrange(n0 + n1 + n2 + n3 + n4, n0 + n1 + n2 + n3 + n4 + n5)) {
                                    Err(e) => Err(e),
                                    Ok(x5) =>
                                    match G::spec_from_row(values.subrange(n0 + n1 + n2 + n3 + n4 + n5, n0 + n1 + n2 + n3 + n4 + n5 + n6)) {
                                        Err(e) => Err(e),
                                        Ok(x6) =>
                                        match H::spec_from_row(values.subrange(n0 + n1 + n2 + n3 + n4 + n5 + n6, n0 + n1 + n2 + n3 + n4 + n5 + n6 + n7)) {
                                            Err(e) => Err(e),
                                            Ok(x7) =>
                                            match I::spec_from_row(values.subrange(n0 + n1 + n2 + n3 + n4 + n5 + n6 + n7, n0 + n1 + n2 + n3 + n4 + n5 + n6 + n7 + n8)) {
                                                Err(e) => Err(e),
                                                Ok(x8) =>
                                                match J::spec_from_row(values.subrange(n0 + n1 + n2 + n3 + n4 + n5 + n6 + n7 + n8, n0 + n1 + n2 + n3 + n4 + n5 + n6 + n7 + n8 + n9)) {
                                                    Err(e) => Err(e),
                                                    Ok(x9) =>
                                                    match K::spec_from_row(values.subrange(n0 + n1 + n2 + n3 + n4 + n5 + n6 + n7 + n8 + n9, n0 + n1 + n2 + n3 + n4 + n5 + n6 + n7 + n8 + n9 + n10)) {
                                                        Err(e) => Err(e),
                                                        Ok(x10) =>
                                                        Ok((x0, x1, x2, x3, x4, x5, x6, x7, x8, x9, x10)),
                                                    },
                                                },
                                            },
                                        },
                                    },
                                },
                            },
                        },
                    },
                },
            }
        }
    }

    proof fn lemma_column_count(values: Seq<SqlValue>) {
    }

    fn required_tables() -> (r: Vec<String>) {
        let mut r = A::required_tables();
        let tail = B::required_tables();
        let ghost before = r@;
        let ghost t = tail@;
        concat_part(&mut r, tail);
        proof {
            lemma_map_values_concat(before, t, |s: String| s@);
        }
        let tail = C::required_tables();
        let ghost before = r@;
        let ghost t = tail@;
        concat_part(&mut r, tail);
        proof {
            lemma_map_values_concat(before, t, |s: String| s@);
        }
        let tail = D::required_tables();
        let ghost before = r@;
        let ghost t = tail@;
        concat_part(&mut r, tail);
        proof {
            lemma_map_values_concat(before, t, |s: String| s@);
        }
        let tail = E::required_tables();
        let ghost before = r@;
        let ghost t = tail@;
        concat_part(&mut r, tail);
        proof {
            lemma_map_values_concat(before, t, |s: String| s@);
        }
        let tail = F::required_tables();
        let ghost before = r@;
        let ghost t = tail@;
        concat_part(&mut r, tail);
        proof {
            lemma_map_values_concat(before, t, |s: String| s@);
        }
        let tail = G::required_tables();
        let ghost before = r@;
        let ghost t = tail@;
        concat_part(&mut r, tail);
        proof {
            lemma_map_values_concat(before, t, |s: String| s@);
        }
        let tail = H::required_tables();
        let ghost before = r@;
        let ghost t = tail@;
        concat_part(&mut r, tail);
        proof {
            lemma_map_values_concat(before, t, |s: String| s@);
        }
        let tail = I::required_tables();
        let ghost before = r@;
        let ghost t = tail@;
        concat_part(&mut r, tail);
        proof {
            lemma_map_values_concat(before, t, |s: String| s@);
        }
        let tail = J::required_tables();
        let ghost before = r@;
        let ghost t = tail@;
        concat_part(&mut r, tail);
        proof {
            lemma_map_values_concat(before, t, |s: String| s@);
        }
        let tail = K::required_tables();
        let ghost before = r@;
        let ghost t = tail@;
        concat_part(&mut r, tail);
        proof {
            lemma_map_values_concat(before, t, |s: String| s@);
        }
        r
    }

    fn required_joins() -> (r: Vec<Join>) {
        let mut r = A::required_joins();
        let tail = B::required_joins();
        let ghost before = r@;
        let ghost t = tail@;
        concat_part(&mut r, tail);
        proof {
            lemma_map_values_concat(before, t, |j: Join| j@);
        }
        let tail = C::required_joins();
        let ghost before = r@;
        let ghost t = tail@;
        concat_part(&mut r, tail);
        proof {
            lemma_map_values_concat(before, t, |j: Join| j@);
        }
        let tail = D::required_joins();
        let ghost before = r@;
        let ghost t = tail@;
        concat_part(&mut r, tail);
        proof {
            lemma_map_values_concat(before, t, |j: Join| j@);
        }
        let tail = E::required_joins();
        let ghost before = r@;
        let ghost t = tail@;
        concat_part(&mut r, tail);
        proof {
            lemma_map_values_concat(before, t, |j: Join| j@);
        }
        let tail = F::required_joins();
        let ghost before = r@;
        let ghost t = tail@;
        concat_part(&mut r, tail);
        proof {
            lemma_map_values_concat(before, t, |j: Join| j@);
        }
        let tail = G::required_joins();
        let ghost before = r@;
        let ghost t = tail@;
        concat_part(&mut r, tail);
        proof {
            lemma_map_values_concat(before, t, |j: Join| j@);
        }
        let tail = H::required_joins();
        let ghost before = r@;
        let ghost t = tail@;
        concat_part(&mut r, tail);
        proof {
            lemma_map_values_concat(before, t, |j: Join| j@);
        }
        let tail = I::required_joins();
        let ghost before = r@;
        let ghost t = tail@;
        concat_part(&mut r, tail);
        proof {
            lemma_map_values_concat(before, t, |j: Join| j@);
        }
        let tail = J::required_joins();
        let ghost before = r@;
        let ghost t = tail@;
        concat_part(&mut r, tail);
        proof {
            lemma_map_values_concat(before, t, |j: Join| j@);
        }
        let tail = K::required_joins();
        let ghost before = r@;
        let ghost t = tail@;
        concat_part(&mut r, tail);
        proof {
            lemma_map_values_concat(before, t, |j: Join| j@);
        }
        r
    }

    fn select_exprs() -> (r: Vec<String>) {
        let mut r = A::select_exprs();
        let tail = B::select_exprs();
        let ghost before = r@;
        let ghost t = tail@;
        concat_part(&mut r, tail);
        proof {
            lemma_map_values_concat(before, t, |s: String| s@);
        }
        let tail = C::select_exprs();
        let ghost before = r@;
        let ghost t = tail@;
        concat_part(&mut r, tail);
        proof {
            lemma_map_values_concat(before, t, |s: String| s@);
        }
        let tail = D::select_exprs();
        let ghost before = r@;
        let ghost t = tail@;
        concat_part(&mut r, tail);
        proof {
            lemma_map_values_concat(before, t, |s: String| s@);
        }
        let tail = E::select_exprs();
        let ghost before = r@;
        let ghost t = tail@;
        concat_part(&mut r, tail);
        proof {
            lemma_map_values_concat(before, t, |s: String| s@);
        }
        let tail = F::select_exprs();
        let ghost before = r@;
        let ghost t = tail@;
        concat_part(&mut r, tail);
        proof {
            lemma_map_values_concat(before, t, |s: String| s@);
        }
        let tail = G::select_exprs();
        let ghost before = r@;
        let ghost t = tail@;
        concat_part(&mut r, tail);
        proof {
            lemma_map_values_concat(before, t, |s: String| s@);
        }
        let tail = H::select_exprs();
        let ghost before = r@;
        let ghost t = tail@;
        concat_part(&mut r, tail);
        proof {
            lemma_map_values_concat(before, t, |s: String| s@);
        }
        let tail = I::select_exprs();
        let ghost before = r@;
        let ghost t = tail@;
        concat_part(&mut r, tail);
        proof {
            lemma_map_values_concat(before, t, |s: String| s@);
        }
        let tail = J::select_exprs();
        let ghost before = r@;
        let ghost t = tail@;
        concat_part(&mut r, tail);
        proof {
            lemma_map_values_concat(before, t, |s: String| s@);
        }
        let tail = K::select_exprs();
        let ghost before = r@;
        let ghost t = tail@;
        concat_part(&mut r, tail);
        proof {
            lemma_map_values_concat(before, t, |s: String| s@);
        }
        r
    }

    fn from_row(values: &[SqlValue]) -> (r: ReconstructResult<(A, B, C, D, E, F, G, H, I, J, K)>) {
        let e0 = A::select_exprs();
        let n0 = e0.len();
        let e1 = B::select_exprs();
        let n1 = e1.len();
        let e2 = C::select_exprs();
        let n2 = e2.len();
        let e3 = D::select_exprs();
        let n3 = e3.len();
        let e4 = E::select_exprs();
        let n4 = e4.len();
        let e5 = F::select_exprs();
        let n5 = e5.len();
        let e6 = G::select_exprs();
        let n6 = e6.len();
        let e7 = H::select_exprs();
        let n7 = e7.len();
        let e8 = I::select_exprs();
        let n8 = e8.len();
        let e9 = J::select_exprs();
        let n9 = e9.len();
        let e10 = K::select_exprs();
        let n10 = e10.len();
        proof {
            assert(e0@.map_values(|s: String| s@).len() == e0@.len());
            assert(e1@.map_values(|s: String| s@).len() == e1@.len());
            assert(e2@.map_values(|s: String| s@).len() == e2@.len());
            assert(e3@.map_values(|s: String| s@).len() == e3@.len());
            assert(e4@.map_values(|s: String| s@).len() == e4@.len());
            assert(e5@.map_values(|s: String| s@).len() == e5@.len());
            assert(e6@.map_values(|s: String| s@).len() == e6@.len());
            assert(e7@.map_values(|s: String| s@).len() == e7@.len());
            assert(e8@.map_values(|s: String| s@).len() == e8@.len());
            assert(e9@.map_values(|s: String| s@).len() == e9@.len());
            assert(e10@.map_values(|s: String| s@).len() == e10@.len());
        }
        let n = values.len();
        if n0 > n || n1 > n - n0 || n2 > n - n0 - n1 || n3 > n - n0 - n1 - n2 || n4 > n - n0 - n1 - n2 - n3 || n5 > n - n0 - n1 - n2 - n3 - n4 || n6 > n - n0 - n1 - n2 - n3 - n4 - n5 || n7 > n - n0 - n1 - n2 - n3 - n4 - n5 - n6 || n8 > n - n0 - n1 - n2 - n3 - n4 - n5 - n6 - n7 || n9 > n - n0 - n1 - n2 - n3 - n4 - n5 - n6 - n7 - n8 || n10 != n - n0 - n1 - n2 - n3 - n4 - n5 - n6 - n7 - n8 - n9 {
            return Err(ReconstructError::NotEnoughValues);
        }
        let x0 = match A::from_row(slice_subrange(values, 0, n0)) {
            Ok(x) => x,
            Err(e) => return Err(e),
        };
        let x1 = match B::from_row(slice_subrange(values, n0, n0 + n1)) {
            Ok(x) => x,
            Err(e) => return Err(e),
        };
        let x2 = match C::from_row(slice_subrange(values, n0 + n1, n0 + n1 + n2)) {
            Ok(x) => x,
            Err(e) => return Err(e),
        };
        let x3 = match D::from_row(slice_subrange(values, n0 + n1 + n2, n0 + n1 + n2 + n3)) {
            Ok(x) => x,
            Err(e) => return Err(e),
        };
        let x4 = match E::from_row(slice_subrange(values, n0 + n1 + n2 + n3, n0 + n1 + n2 + n3 + n4)) {
            Ok(x) => x,
            Err(e) => return Err(e),
        };
        let x5 = match F::from_row(slice_subrange(values, n0 + n1 + n2 + n3 + n4, n0 + n1 + n2 + n3 + n4 + n5)) {
            Ok(x) => x,
            Err(e) => return Err(e),
        };
        let x6 = match G::from_row(slice_subrange(values, n0 + n1 + n2 + n3 + n4 + n5, n0 + n1 + n2 + n3 + n4 + n5 + n6)) {
            Ok(x) => x,
            Err(e) => return Err(e),
        };
        let x7 = match H::from_row(slice_subrange(values, n0 + n1 + n2 + n3 + n4 + n5 + n6, n0 + n1 + n2 + n3 + n4 + n5 + n6 + n7)) {
            Ok(x) => x,
            Err(e) => return Err(e),
        };
        let x8 = match I::from_row(slice_subrange(values, n0 + n1 + n2 + n3 + n4 + n5 + n6 + n7, n0 + n1 + n2 + n3 + n4 + n5 + n6 + n7 + n8)) {
            Ok(x) => x,
            Err(e) => return Err(e),
        };
        let x9 = match J::from_row(slice_subrange(values, n0 + n1 + n2 + n3 + n4 + n5 + n6 + n7 + n8, n0 + n1 + n2 + n3 + n4 + n5 + n6 + n7 + n8 + n9)) {
            Ok(x) => x,
            Err(e) => return Err(e),
        };
        let x10 = match K::from_row(slice_subrange(values, n0 + n1 + n2 + n3 + n4 + n5 + n6 + n7 + n8 + n9, n0 + n1 + n2 + n3 + n4 + n5 + n6 + n7 + n8 + n9 + n10)) {
            Ok(x) => x,
            Err(e) => return Err(e),
        };
        Ok((x0, x1, x2, x3, x4, x5, x6, x7, x8, x9, x10))
    }
}

impl<A: Reconstruct, B: Reconstruct, C: Reconstruct, D: Reconstruct, E: Reconstruct, F: Reconstruct, G: Reconstruct, H: Reconstruct, I: Reconstruct, J: Reconstruct, K: Reconstruct, L: Reconstruct> Reconstruct for (A, B, C, D, E, F, G, H, I, J, K, L) {
    open spec fn spec_tables() -> Seq<Seq<char>> {
        A::spec_tables() + B::spec_tables() + C::spec_tables() + D::spec_tables() + E::spec_tables() + F::spec_tables() + G::spec_tables() + H::spec_tables() + I::spec_tables() + J::spec_tables() + K::spec_tables() + L::spec_tables()
    }

    open spec fn spec_joins() -> Seq<SpecJoin> {
        A::spec_joins() + B::spec_joins() + C::spec_joins() + D::spec_joins() + E::spec_joins() + F::spec_joins() + G::spec_joins() + H::spec_joins() + I::spec_joins() + J::spec_joins() + K::spec_joins() + L::spec_joins()
    }

    open spec fn spec_exprs() -> Seq<Seq<char>> {
        A::spec_exprs() + B::spec_exprs() + C::spec_exprs() + D::spec_exprs() + E::spec_exprs() + F::spec_exprs() + G::spec_exprs() + H::spec_exprs() + I::spec_exprs() + J::spec_exprs() + K::spec_exprs() + L::spec_exprs()
    }

    open spec fn spec_from_row(values: Seq<SqlValue>) -> ReconstructResult<(A, B, C, D, E, F, G, H, I, J, K, L)> {
        let n0 = A::spec_exprs().len() as int;
        let n1 = B::spec_exprs().len() as int;
        let n2 = C::spec_exprs().len() as int;
        let n3 = D::spec_exprs().len() as int;
        let n4 = E::spec_exprs().len() as int;
        let n5 = F::spec_exprs().len() as int;
        let n6 = G::spec_exprs().len() as int;
        let n7 = H::spec_exprs().len() as int;
        let n8 = I::spec_exprs().len() as int;
        let n9 = J::spec_exprs().len() as int;
        let n10 = K::spec_exprs().len() as int;
        let n11 = L::spec_exprs().len() as int;
        if values.len() != n0 + n1 + n2 + n3 + n4 + n5 + n6 + n7 + n8 + n9 + n10 + n11 {
            Err(ReconstructError::NotEnoughValues)
        } else {
            match A::spec_from_row(values.subrange(0, n0)) {
                Err(e) => Err(e),
                Ok(x0) =>
                match B::spec_from_row(values.subrange(n0, n0 + n1)) {
                    Err(e) => Err(e),
                    Ok(x1) =>
                    match C::spec_from_row(values.subrange(n0 + n1, n0 + n1 + n2)) {
                        Err(e) => Err(e),
                        Ok(x2) =>
                        match D::spec_from_row(values.subrange(n0 + n1 + n2, n0 + n1 + n2 + n3)) {
                            Err(e) => Err(e),
                            Ok(x3) =>
                            match E::spec_from_row(values.subrange(n0 + n1 + n2 + n3, n0 + n1 + n2 + n3 + n4)) {
                                Err(e) => Err(e),
                                Ok(x4) =>
                                match F::spec_from_row(values.subrange(n0 + n1 + n2 + n3 + n4, n0 + n1 + n2 + n3 + n4 + n5)) {
                                    Err(e) => Err(e),
                                    Ok(x5) =>
                                    match G::spec_from_row(values.subrange(n0 + n1 + n2 + n3 + n4 + n5, n0 + n1 + n2 + n3 + n4 + n5 + n6)) {
                                        Err(e) => Err(e),
                                        Ok(x6) =>
                                        match H::spec_from_row(values.subrange(n0 + n1 + n2 + n3 + n4 + n5 + n6, n0 + n1 + n2 + n3 + n4 + n5 + n6 + n7)) {
                                            Err(e) => Err(e),
                                            Ok(x7) =>
                                            match I::spec_from_row(values.subrange(n0 + n1 + n2 + n3 + n4 + n5 + n6 + n7, n0 + n1 + n2 + n3 + n4 + n5 + n6 + n7 + n8)) {
                                                Err(e) => Err(e),
                                                Ok(x8) =>
                                                match J::spec_from_row(values.subrange(n0 + n1 + n2 + n3 + n4 + n5 + n6 + n7 + n8, n0 + n1 + n2 + n3 + n4 + n5 + n6 + n7 + n8 + n9)) {
                                                    Err(e) => Err(e),
                                                    Ok(x9) =>
                                                    match K::spec_from_row(values.subrange(n0 + n1 + n2 + n3 + n4 + n5 + n6 + n7 + n8 + n9, n0 + n1 + n2 + n3 + n4 + n5 + n6 + n7 + n8 + n9 + n10)) {
                                                        Err(e) => Err(e),
                                                        Ok(x10) =>
                                                        match L::spec_from_row(values.subrange(n0 + n1 + n2 + n3 + n4 + n5 + n6 + n7 + n8 + n9 + n10, n0 + n1 + n2 + n3 + n4 + n5 + n6 + n7 + n8 + n9 + n10 + n11)) {
                                                            Err(e) => Err(e),
                                                            Ok(x11) =>
                                                            Ok((x0, x1, x2, x3, x4, x5, x6, x7, x8, x9, x10, x11)),
                                                        },
                                                    },
                                                },
                                            },
                                        },
                                    },
                                },
                            },
                        },
                    },
                },
            }
        }
    }

    proof fn lemma_column_count(values: Seq<SqlValue>) {
    }

    fn required_tables() -> (r: Vec<String>) {
        let mut r = A::required_tables();
        let tail = B::required_tables();
        let ghost before = r@;
        let ghost t = tail@;
        concat_part(&mut r, tail);
        proof {
            lemma_map_values_concat(before, t, |s: String| s@);
        }
        let tail = C::required_tables();
        let ghost before = r@;
        let ghost t = tail@;
        concat_part(&mut r, tail);
        proof {
            lemma_map_values_concat(before, t, |s: String| s@);
        }
        let tail = D::required_tables();
        let ghost before = r@;
        let ghost t = tail@;
        concat_part(&mut r, tail);
        proof {
            lemma_map_values_concat(before, t, |s: String| s@);
        }
        let tail = E::required_tables();
        let ghost before = r@;
        let ghost t = tail@;
        concat_part(&mut r, tail);
        proof {
            lemma_map_values_concat(before, t, |s: String| s@);
        }
        let tail = F::required_tables();
        let ghost before = r@;
        let ghost t = tail@;
        concat_part(&mut r, tail);
        proof {
            lemma_map_values_concat(before, t, |s: String| s@);
        }
        let tail = G::required_tables();
        let ghost before = r@;
        let ghost t = tail@;
        concat_part(&mut r, tail);
        proof {
            lemma_map_values_concat(before, t, |s: String| s@);
        }
        let tail = H::required_tables();
        let ghost before = r@;
        let ghost t = tail@;
        concat_part(&mut r, tail);
        proof {
            lemma_map_values_concat(before, t, |s: String| s@);
        }
        let tail = I::required_tables();
        let ghost before = r@;
        let ghost t = tail@;
        concat_part(&mut r, tail);
        proof {
            lemma_map_values_concat(before, t, |s: String| s@);
        }
        let tail = J::required_tables();
        let ghost before = r@;
        let ghost t = tail@;
        concat_part(&mut r, tail);
        proof {
            lemma_map_values_concat(before, t, |s: String| s@);
        }
        let tail = K::required_tables();
        let ghost before = r@;
        let ghost t = tail@;
        concat_part(&mut r, tail);
        proof {
            lemma_map_values_concat(before, t, |s: String| s@);
        }
        let tail = L::required_tables();
        let ghost before = r@;
        let ghost t = tail@;
        concat_part(&mut r, tail);
        proof {
            lemma_map_values_concat(before, t, |s: String| s@);
        }
        r
    }

    fn required_joins() -> (r: Vec<Join>) {
        let mut r = A::required_joins();
        let tail = B::required_joins();
        let ghost before = r@;
        let ghost t = tail@;
        concat_part(&mut r, tail);
        proof {
            lemma_map_values_concat(before, t, |j: Join| j@);
        }
        let tail = C::required_joins();
        let ghost before = r@;
        let ghost t = tail@;
        concat_part(&mut r, tail);
        proof {
            lemma_map_values_concat(before, t, |j: Join| j@);
        }
        let tail = D::required_joins();
        let ghost before = r@;
        let ghost t = tail@;
        concat_part(&mut r, tail);
        proof {
            lemma_map_values_concat(before, t, |j: Join| j@);
        }
        let tail = E::required_joins();
        let ghost before = r@;
        let ghost t = tail@;
        concat_part(&mut r, tail);
        proof {
            lemma_map_values_concat(before, t, |j: Join| j@);
        }
        let tail = F::required_joins();
        let ghost before = r@;
        let ghost t = tail@;
        concat_part(&mut r, tail);
        proof {
            lemma_map_values_concat(before, t, |j: Join| j@);
        }
        let tail = G::required_joins();
        let ghost before = r@;
        let ghost t = tail@;
        concat_part(&mut r, tail);
        proof {
            lemma_map_values_concat(before, t, |j: Join| j@);
        }
        let tail = H::required_joins();
        let ghost before = r@;
        let ghost t = tail@;
        concat_part(&mut r, tail);
        proof {
            lemma_map_values_concat(before, t, |j: Join| j@);
        }
        let tail = I::required_joins();
        let ghost before = r@;
        let ghost t = tail@;
        concat_part(&mut r, tail);
        proof {
            lemma_map_values_concat(before, t, |j: Join| j@);
        }
        let tail = J::required_joins();
        let ghost before = r@;
        let ghost t = tail@;
        concat_part(&mut r, tail);
        proof {
            lemma_map_values_concat(before, t, |j: Join| j@);
        }
        let tail = K::required_joins();
        let ghost before = r@;
        let ghost t = tail@;
        concat_part(&mut r, tail);
        proof {
            lemma_map_values_concat(before, t, |j: Join| j@);
        }
        let tail = L::required_joins();
        let ghost before = r@;
        let ghost t = tail@;
        concat_part(&mut r, tail);
        proof {
            lemma_map_values_concat(before, t, |j: Join| j@);
        }
        r
    }

    fn select_exprs() -> (r: Vec<String>) {
        let mut r = A::select_exprs();
        let tail = B::select_exprs();
        let ghost before = r@;
        let ghost t = tail@;
        concat_part(&mut r, tail);
        proof {
            lemma_map_values_concat(before, t, |s: String| s@);
        }
        let tail = C::select_exprs();
        let ghost before = r@;
        let ghost t = tail@;
        concat_part(&mut r, tail);
        proof {
            lemma_map_values_concat(before, t, |s: String| s@);
        }
        let tail = D::select_exprs();
        let ghost before = r@;
        let ghost t = tail@;
        concat_part(&mut r, tail);
        proof {
            lemma_map_values_concat(before, t, |s: String| s@);
        }
        let tail = E::select_exprs();
        let ghost before = r@;
        let ghost t = tail@;
        concat_part(&mut r, tail);
        proof {
            lemma_map_values_concat(before, t, |s: String| s@);
        }
        let tail = F::select_exprs();
        let ghost before = r@;
        let ghost t = tail@;
        concat_part(&mut r, tail);
        proof {
            lemma_map_values_concat(before, t, |s: String| s@);
        }
        let tail = G::select_exprs();
        let ghost before = r@;
        let ghost t = tail@;
        concat_part(&mut r, tail);
        proof {
            lemma_map_values_concat(before, t, |s: String| s@);
        }
        let tail = H::select_exprs();
        let ghost before = r@;
        let ghost t = tail@;
        concat_part(&mut r, tail);
        proof {
            lemma_map_values_concat(before, t, |s: String| s@);
        }
        let tail = I::select_exprs();
        let ghost before = r@;
        let ghost t = tail@;
        concat_part(&mut r, tail);
        proof {
            lemma_map_values_concat(before, t, |s: String| s@);
        }
        let tail = J::select_exprs();
        let ghost before = r@;
        let ghost t = tail@;
        concat_part(&mut r, tail);
        proof {
            lemma_map_values_concat(before, t, |s: String| s@);
        }
        let tail = K::select_exprs();
        let ghost before = r@;
        let ghost t = tail@;
        concat_part(&mut r, tail);
        proof {
            lemma_map_values_concat(before, t, |s: String| s@);
        }
        let tail = L::select_exprs();
        let ghost before = r@;
        let ghost t = tail@;
        concat_part(&mut r, tail);
        proof {
            lemma_map_values_concat(before, t, |s: String| s@);
        }
        r
    }

    fn from_row(values: &[SqlValue]) -> (r: ReconstructResult<(A, B, C, D, E, F, G, H, I, J, K, L)>) {
        let e0 = A::select_exprs();
        let n0 = e0.len();
        let e1 = B::select_exprs();
        let n1 = e1.len();
        let e2 = C::select_exprs();
        let n2 = e2.len();
        let e3 = D::select_exprs();
        let n3 = e3.len();
        let e4 = E::select_exprs();
        let n4 = e4.len();
        let e5 = F::select_exprs();
        let n5 = e5.len();
        let e6 = G::select_exprs();
        let n6 = e6.len();
        let e7 = H::select_exprs();
        let n7 = e7.len();
        let e8 = I::select_exprs();
        let n8 = e8.len();
        let e9 = J::select_exprs();
        let n9 = e9.len();
        let e10 = K::select_exprs();
        let n10 = e10.len();
        let e11 = L::select_exprs();
        let n11 = e11.len();
        proof {
            assert(e0@.map_values(|s: String| s@).len() == e0@.len());
            assert(e1@.map_values(|s: String| s@).len() == e1@.len());
            assert(e2@.map_values(|s: String| s@).len() == e2@.len());
            assert(e3@.map_values(|s: String| s@).len() == e3@.len());
            assert(e4@.map_values(|s: String| s@).len() == e4@.len());
            assert(e5@.map_values(|s: String| s@).len() == e5@.len());
            assert(e6@.map_values(|s: String| s@).len() == e6@.len());
            assert(e7@.map_values(|s: String| s@).len() == e7@.len());
            assert(e8@.map_values(|s: String| s@).len() == e8@.len());
            assert(e9@.map_values(|s: String| s@).len() == e9@.len());
            assert(e10@.map_values(|s: String| s@).len() == e10@.len());
            assert(e11@.map_values(|s: String| s@).len() == e11@.len());
        }
        let n = values.len();
        if n0 > n || n1 > n - n0 || n2 > n - n0 - n1 || n3 > n - n0 - n1 - n2 || n4 > n - n0 - n1 - n2 - n3 || n5 > n - n0 - n1 - n2 - n3 - n4 || n6 > n - n0 - n1 - n2 - n3 - n4 - n5 || n7 > n - n0 - n1 - n2 - n3 - n4 - n5 - n6 || n8 > n - n0 - n1 - n2 - n3 - n4 - n5 - n6 - n7 || n9 > n - n0 - n1 - n2 - n3 - n4 - n5 - n6 - n7 - n8 || n10 > n - n0 - n1 - n2 - n3 - n4 - n5 - n6 - n7 - n8 - n9 || n11 != n - n0 - n1 - n2 - n3 - n4 - n5 - n6 - n7 - n8 - n9 - n10 {
            return Err(ReconstructError::NotEnoughValues);
        }
        let x0 = match A::from_row(slice_subrange(values, 0, n0)) {
            Ok(x) => x,
            Err(e) => return Err(e),
        };
        let x1 = match B::from_row(slice_subrange(values, n0, n0 + n1)) {
            Ok(x) => x,
            Err(e) => return Err(e),
        };
        let x2 = match C::from_row(slice_subrange(values, n0 + n1, n0 + n1 + n2)) {
            Ok(x) => x,
            Err(e) => return Err(e),
        };
        let x3 = match D::from_row(slice_subrange(values, n0 + n1 + n2, n0 + n1 + n2 + n3)) {
            Ok(x) => x,
            Err(e) => return Err(e),
        };
        let x4 = match E::from_row(slice_subrange(values, n0 + n1 + n2 + n3, n0 + n1 + n2 + n3 + n4)) {
            Ok(x) => x,
            Err(e) => return Err(e),
        };
        let x5 = match F::from_row(slice_subrange(values, n0 + n1 + n2 + n3 + n4, n0 + n1 + n2 + n3 + n4 + n5)) {
            Ok(x) => x,
            Err(e) => return Err(e),
        };
        let x6 = match G::from_row(slice_subrange(values, n0 + n1 + n2 + n3 + n4 + n5, n0 + n1 + n2 + n3 + n4 + n5 + n6)) {
            Ok(x) => x,
            Err(e) => return Err(e),
        };
        let x7 = match H::from_row(slice_subrange(values, n0 + n1 + n2 + n3 + n4 + n5 + n6, n0 + n1 + n2 + n3 + n4 + n5 + n6 + n7)) {
            Ok(x) => x,
            Err(e) => return Err(e),
        };
        let x8 = match I::from_row(slice_subrange(values, n0 + n1 + n2 + n3 + n4 + n5 + n6 + n7, n0 + n1 + n2 + n3 + n4 + n5 + n6 + n7 + n8)) {
            Ok(x) => x,
            Err(e) => return Err(e),
        };
        let x9 = match J::from_row(slice_subrange(values, n0 + n1 + n2 + n3 + n4 + n5 + n6 + n7 + n8, n0 + n1 + n2 + n3 + n4 + n5 + n6 + n7 + n8 + n9)) {
            Ok(x) => x,
            Err(e) => return Err(e),
        };
        let x10 = match K::from_row(slice_subrange(values, n0 + n1 + n2 + n3 + n4 + n5 + n6 + n7 + n8 + n9, n0 + n1 + n2 + n3 + n4 + n5 + n6 + n7 + n8 + n9 + n10)) {
            Ok(x) => x,
            Err(e) => return Err(e),
        };
        let x11 = match L::from_row(slice_subrange(values, n0 + n1 + n2 + n3 + n4 + n5 + n6 + n7 + n8 + n9 + n10, n0 + n1 + n2 + n3 + n4 + n5 + n6 + n7 + n8 + n9 + n10 + n11)) {
            Ok(x) => x,
            Err(e) => return Err(e),
        };
        Ok((x0, x1, x2, x3, x4, x5, x6, x7, x8, x9, x10, x11))
    }
}

} // verus!
