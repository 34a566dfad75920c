//! What the fused kernels compute, for the parts that need no floating-point
//! arithmetic: picking the largest logit and gathering embeddings.

use crate::ids::F32Bits;
use vstd::prelude::*;

verus! {

/// The position of the largest value of a row: the first of equals. A value
/// that cannot be compared never takes the place of another.
pub open spec fn argmax_of(row: Seq<F32Bits>) -> int
    decreases row.len(),
{
    if row.len() <= 1 {
        0
    } else {
        let best = argmax_of(row.drop_last());
        if row[best].less(row.last()) {
            row.len() - 1
        } else {
            best
        }
    }
}

/// Among numbers the largest is found, at its first place.
pub proof fn argmax_is_first_maximum(row: Seq<F32Bits>)
    requires
        row.len() > 0,
        forall|i: int| 0 <= i < row.len() ==> !(#[trigger] row[i]).is_nan(),
    ensures
        0 <= argmax_of(row) < row.len(),
        forall|i: int| 0 <= i < row.len() ==> !row[argmax_of(row)].less(#[trigger] row[i]),
        forall|i: int|
            0 <= i < argmax_of(row) ==> (#[trigger] row[i]).less(row[argmax_of(row)]),
    decreases row.len(),
{
    if row.len() > 1 {
        let rest = row.drop_last();
        assert forall|i: int| 0 <= i < rest.len() implies !(#[trigger] rest[i]).is_nan() by {
            assert(rest[i] == row[i]);
        }
        argmax_is_first_maximum(rest);
        let best = argmax_of(rest);
        assert forall|i: int| 0 <= i < row.len() implies !row[argmax_of(row)].less(
            #[trigger] row[i],
        ) by {
            if i < rest.len() {
                assert(rest[i] == row[i]);
            }
        }
        assert forall|i: int| 0 <= i < argmax_of(row) implies (#[trigger] row[i]).less(
            row[argmax_of(row)],
        ) by {
            assert(rest[i] == row[i]);
            if argmax_of(row) == row.len() - 1 {
                assert(!rest[best].less(rest[i]));
            }
        }
    }
}

proof fn argmax_in_range(row: Seq<F32Bits>)
    requires
        row.len() > 0,
    ensures
        0 <= argmax_of(row) < row.len(),
    decreases row.len(),
{
    if row.len() > 1 {
        argmax_in_range(row.drop_last());
    }
}

/// Row `i` of a row-major matrix with `cols` columns.
pub open spec fn row_of<T>(m: Seq<T>, i: int, cols: int) -> Seq<T> {
    m.subrange(i * cols, i * cols + cols)
}

proof fn row_is_inside(i: int, rows: int, cols: int)
    requires
        0 <= i < rows,
        0 <= cols,
    ensures
        0 <= i * cols,
        i * cols + cols <= rows * cols,
{
    assert(0 <= i * cols && i * cols + cols <= rows * cols) by (nonlinear_arith)
        requires
            0 <= i < rows,
            0 <= cols,
    ;
}

fn argmax_row(logits: &[F32Bits], start: usize, cols: usize) -> (r: usize)
    requires
        cols > 0,
        start + cols <= logits@.len(),
    ensures
        r == argmax_of(logits@.subrange(start as int, start + cols)),
        r < cols,
{
    let ghost row = logits@.subrange(start as int, start + cols);
    let total: usize = logits.len();
    let mut best: usize = 0;
    let mut j: usize = 1;
    proof {
        assert(row.take(1).len() == 1);
    }
    while j < cols
        invariant
            total == logits@.len(),
            start + cols <= total,
            row == logits@.subrange(start as int, start + cols),
            1 <= j <= cols,
            best < j,
            best == argmax_of(row.take(j as int)),
        decreases cols - j,
    {
        proof {
            assert(row.take(j + 1).drop_last() =~= row.take(j as int));
            assert(row.take(j + 1).last() == logits@[start + j]);
            assert(row.take(j + 1)[best as int] == logits@[start + best]);
        }
        if logits[start + best].less_than(&logits[start + j]) {
            best = j;
        }
        j = j + 1;
    }
    proof {
        assert(row.take(j as int) =~= row);
    }
    best
}

/// The position of the largest value of each row.
pub fn argmax_ref(logits: &[F32Bits], rows: usize, cols: usize, out: &mut [i32])
    requires
        cols > 0,
        logits@.len() == rows * cols,
        old(out)@.len() == rows,
    ensures
        final(out)@.len() == rows,
        forall|i: int|
            0 <= i < rows ==> #[trigger] final(out)@[i] == argmax_of(
                row_of(logits@, i, cols as int),
            ) as i32,
{
    let total: usize = logits.len();
    let mut i: usize = 0;
    while i < rows
        invariant
            cols > 0,
            total == logits@.len(),
            logits@.len() == rows * cols,
            out@.len() == rows,
            i <= rows,
            forall|k: int|
                0 <= k < i ==> #[trigger] out@[k] == argmax_of(
                    row_of(logits@, k, cols as int),
                ) as i32,
        decreases rows - i,
    {
        proof {
            row_is_inside(i as int, rows as int, cols as int);
        }
        out[i] = argmax_row(logits, i * cols, cols) as i32;
        i = i + 1;
    }
}

/// Whether every row is the row of a table that its token names.
pub open spec fn is_gathered<T>(rows: Seq<T>, token_ids: Seq<u32>, weight: Seq<T>, hidden: int)
    -> bool {
    forall|t: int|
        0 <= t < token_ids.len() ==> #[trigger] row_of(rows, t, hidden) == row_of(
            weight,
            token_ids[t] as int,
            hidden,
        )
}

/// Gathers rows of a table: row `t` of the result is row `token_ids[t]` of
/// `weight`.
pub fn embedding_gather_ref<T: Copy>(
    token_ids: &[u32],
    weight: &[T],
    hidden: usize,
    vocab: usize,
    out: &mut [T],
)
    requires
        weight@.len() == hidden * vocab,
        old(out)@.len() == hidden * token_ids@.len(),
        forall|t: int| 0 <= t < token_ids@.len() ==> #[trigger] token_ids@[t] < vocab,
    ensures
        final(out)@.len() == old(out)@.len(),
        is_gathered(final(out)@, token_ids@, weight@, hidden as int),
        forall|t: int|
            0 <= t < token_ids@.len() ==> #[trigger] row_of(final(out)@, t, hidden as int)
                == row_of(weight@, token_ids@[t] as int, hidden as int),
{
    let n: usize = token_ids.len();
    let total: usize = out.len();
    let available: usize = weight.len();
    proof {
        assert(hidden * vocab == vocab * hidden) by (nonlinear_arith);
        assert(hidden * n == n * hidden) by (nonlinear_arith);
    }
    let mut t: usize = 0;
    while t < n
        invariant
            n == token_ids@.len(),
            total == out@.len(),
            total == old(out)@.len(),
            available == weight@.len(),
            available == vocab * hidden,
            total == n * hidden,
            t <= n,
            forall|k: int| 0 <= k < n ==> #[trigger] token_ids@[k] < vocab,
            forall|k: int|
                0 <= k < t ==> #[trigger] row_of(out@, k, hidden as int) == row_of(
                    weight@,
                    token_ids@[k] as int,
                    hidden as int,
                ),
        decreases n - t,
    {
        let tid: usize = token_ids[t] as usize;
        let ghost before = out@;
        proof {
            assert(token_ids@[t as int] < vocab);
            row_is_inside(t as int, n as int, hidden as int);
            row_is_inside(tid as int, vocab as int, hidden as int);
        }
        let dst: usize = t * hidden;
        let src: usize = tid * hidden;
        let mut i: usize = 0;
        while i < hidden
            invariant
                i <= hidden,
                total == out@.len(),
                total == before.len(),
                available == weight@.len(),
                dst + hidden <= total,
                src + hidden <= available,
                forall|j: int|
                    0 <= j < total ==> #[trigger] out@[j] == if dst <= j < dst + i {
                        weight@[src + (j - dst)]
                    } else {
                        before[j]
                    },
            decreases hidden - i,
        {
            out[dst + i] = weight[src + i];
            i = i + 1;
        }
        proof {
            assert(row_of(out@, t as int, hidden as int) =~= row_of(
                weight@,
                tid as int,
                hidden as int,
            ));
            assert forall|k: int| 0 <= k < t + 1 implies #[trigger] row_of(out@, k, hidden as int)
                == row_of(weight@, token_ids@[k] as int, hidden as int) by {
                if k < t {
                    row_is_inside(k, t as int, hidden as int);
                    assert(row_of(out@, k, hidden as int) =~= row_of(before, k, hidden as int));
                }
            }
        }
        t = t + 1;
    }
}

} // verus!
