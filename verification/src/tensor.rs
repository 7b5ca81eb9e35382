//! Tensor-ingestion adapter: turns a two-dimensional numeric block into one
//! coordinate sequence per row or per column, preserving count and order.

use vstd::prelude::*;

use crate::common::NumOrString;

verus! {

/// How the traces are arranged in a two-dimensional block: one trace per
/// column, or one trace per row.
#[derive(Clone, Copy, Debug, PartialEq, Eq, Structural)]
pub enum ArrayTraces {
    OverColumns,
    OverRows,
}

/// Every row has the first row's length.
pub open spec fn rectangular(m: Seq<Vec<NumOrString>>) -> bool {
    forall|i: int| 0 <= i < m.len() ==> #[trigger] m[i]@.len() == m[0]@.len()
}

/// Column `c` of the block, top to bottom.
pub open spec fn column(m: Seq<Vec<NumOrString>>, c: int) -> Seq<NumOrString> {
    Seq::new(m.len() as nat, |r: int| m[r]@[c])
}

/// The coordinate sequence of trace `i` of the block: row `i` as it stands,
/// or — over columns — column `i`.
pub open spec fn trace_data(m: Seq<Vec<NumOrString>>, at: ArrayTraces, i: int) -> Seq<NumOrString> {
    match at {
        ArrayTraces::OverRows => m[i]@,
        ArrayTraces::OverColumns => column(m, i),
    }
}

/// An exact copy of one coordinate value.
fn nos_dup(x: &NumOrString) -> (r: NumOrString)
    ensures
        r == *x,
{
    match x {
        NumOrString::Num(n) => NumOrString::Num(*n),
        NumOrString::Text(s) => NumOrString::Text(s.clone()),
    }
}

/// An exact copy of one coordinate sequence.
pub fn dup_coords(v: &Vec<NumOrString>) -> (r: Vec<NumOrString>)
    ensures
        r@ == v@,
{
    let mut out: Vec<NumOrString> = Vec::new();
    let mut i: usize = 0;
    while i < v.len()
        invariant
            i <= v.len(),
            out@.len() == i,
            forall|j: int| 0 <= j < i ==> out@[j] == v@[j],
        decreases v.len() - i,
    {
        let e = nos_dup(&v[i]);
        out.push(e);
        i = i + 1;
    }
    proof {
        assert(out@ =~= v@);
    }
    out
}

/// One coordinate sequence per trace, in original order: the rows as they
/// stand, or — over columns — the columns of the rectangular block, left to
/// right, each top to bottom.
pub fn trace_vectors_from(traces_matrix: Vec<Vec<NumOrString>>, array_traces: ArrayTraces) -> (r:
    Vec<Vec<NumOrString>>)
    requires
        array_traces == ArrayTraces::OverColumns ==> rectangular(traces_matrix@),
    ensures
        array_traces == ArrayTraces::OverRows ==> r == traces_matrix,
        array_traces == ArrayTraces::OverColumns ==> {
            &&& r@.len() == (if traces_matrix@.len() == 0 {
                0int
            } else {
                traces_matrix@[0]@.len() as int
            })
            &&& forall|c: int| 0 <= c < r@.len() ==> #[trigger] r@[c]@ == column(traces_matrix@, c)
        },
{
    match array_traces {
        ArrayTraces::OverRows => traces_matrix,
        ArrayTraces::OverColumns => {
            let m = traces_matrix;
            let mut out: Vec<Vec<NumOrString>> = Vec::new();
            if m.len() == 0 {
                return out;
            }
            let ncols = m[0].len();
            let mut c: usize = 0;
            while c < ncols
                invariant
                    c <= ncols,
                    rectangular(m@),
                    m@.len() > 0,
                    ncols == m@[0]@.len(),
                    out@.len() == c,
                    forall|k: int| 0 <= k < c ==> #[trigger] out@[k]@ == column(m@, k),
                decreases ncols - c,
            {
                let mut col: Vec<NumOrString> = Vec::new();
                let mut r0: usize = 0;
                while r0 < m.len()
                    invariant
                        r0 <= m@.len(),
                        rectangular(m@),
                        m@.len() > 0,
                        c < ncols,
                        ncols == m@[0]@.len(),
                        col@.len() == r0,
                        forall|j: int| 0 <= j < r0 ==> col@[j] == m@[j]@[c as int],
                    decreases m@.len() - r0,
                {
                    let e = nos_dup(&m[r0][c]);
                    col.push(e);
                    r0 = r0 + 1;
                }
                proof {
                    assert(col@ =~= column(m@, c as int));
                }
                out.push(col);
                c = c + 1;
            }
            out
        },
    }
}

} // verus!
