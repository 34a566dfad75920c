//! The one function that fills the packed metadata buffer.
//!
//! There is no patching and no path that skips the block tables: what a step
//! does not set is padding.

use crate::error::{RvllmError, SampleCtx, SamplingError};
use crate::ids::{BlockId, TokenId};
use crate::metadata::layout::{fields_tile_the_buffer, MetadataLayout};
use crate::metadata::plan::BatchPlan;
use vstd::prelude::*;

verus! {

/// Entry `i` of a list, or zero beyond its end.
pub open spec fn or_zero(list: Seq<u32>, i: int) -> i32 {
    if 0 <= i < list.len() {
        list[i] as i32
    } else {
        0i32
    }
}

/// Entry `i` of the tokens, or zero beyond their end.
pub open spec fn token_or_zero(list: Seq<TokenId>, i: int) -> i32 {
    if 0 <= i < list.len() {
        list[i].0 as i32
    } else {
        0i32
    }
}

/// Block `i` of sequence `s`, or zero where the plan has none.
pub open spec fn block_or_zero(plan: BatchPlan, s: int, i: int) -> i32 {
    let k = s * plan.max_blocks_input + i;
    if 0 <= s < plan.num_seqs && 0 <= i < plan.max_blocks_input && k
        < plan.block_tables_flat@.len() {
        plan.block_tables_flat@[k].0 as i32
    } else {
        0i32
    }
}

/// Slot of sequence `i`, or minus one for padding.
pub open spec fn slot_or_padding(plan: BatchPlan, i: int) -> i32 {
    if 0 <= i < plan.num_seqs {
        plan.slot_mapping@[i]
    } else {
        -1i32
    }
}

/// Whether `buf` is the packed form of a plan: every field at its offset, zeros
/// behind the entries of the plan, and minus one for the slots of padding.
pub open spec fn is_packed(layout: MetadataLayout, plan: BatchPlan, buf: Seq<i32>) -> bool {
    &&& buf.len() == layout.total_elements
    &&& forall|i: int|
        #![trigger buf[layout.token_ids_off + i]]
        0 <= i < layout.bucket ==> buf[layout.token_ids_off + i] == token_or_zero(
            plan.token_ids@,
            i,
        )
    &&& forall|i: int|
        #![trigger buf[layout.positions_off + i]]
        0 <= i < layout.bucket ==> buf[layout.positions_off + i] == or_zero(plan.positions@, i)
    &&& forall|i: int|
        #![trigger buf[layout.context_lens_off + i]]
        0 <= i < layout.bucket ==> buf[layout.context_lens_off + i] == or_zero(
            plan.context_lens@,
            i,
        )
    &&& forall|s: int, i: int|
        #![trigger buf[layout.block_tables_off + s * layout.max_blocks + i]]
        0 <= s < layout.bucket && 0 <= i < layout.max_blocks ==> buf[layout.block_tables_off + s
            * layout.max_blocks + i] == block_or_zero(plan, s, i)
    &&& forall|i: int|
        #![trigger buf[layout.slot_mapping_off + i]]
        0 <= i < layout.bucket ==> buf[layout.slot_mapping_off + i] == slot_or_padding(plan, i)
    &&& forall|i: int|
        #![trigger buf[layout.seq_start_pos_off + i]]
        0 <= i <= layout.bucket ==> buf[layout.seq_start_pos_off + i] == or_zero(
            plan.seq_start_pos@,
            i,
        )
}

/// Whether `e` refuses a parameter for this reason.
pub open spec fn is_invalid(e: RvllmError, reason: Seq<char>) -> bool {
    e matches RvllmError::Sampling { err: SamplingError::InvalidParams { reason: r }, ctx } && r@
        == reason && ctx == (SampleCtx { op: "metadata::upload", stream: 0 })
}

fn invalid(field: &'static str, reason: &'static str) -> (r: RvllmError)
    ensures
        is_invalid(r, field@ + ": "@ + reason@),
{
    let mut text = field.to_owned();
    text.append(": ");
    text.append(reason);
    RvllmError::Sampling {
        err: SamplingError::InvalidParams { reason: text },
        ctx: SampleCtx { op: "metadata::upload", stream: 0 },
    }
}

fn fill_zero(buf: &mut [i32])
    ensures
        final(buf)@.len() == old(buf)@.len(),
        forall|j: int| 0 <= j < final(buf)@.len() ==> final(buf)@[j] == 0,
{
    let n: usize = buf.len();
    let mut i: usize = 0;
    while i < n
        invariant
            i <= n,
            n == buf@.len(),
            n == old(buf)@.len(),
            forall|j: int| 0 <= j < i ==> buf@[j] == 0,
        decreases n - i,
    {
        buf[i] = 0;
        i = i + 1;
    }
}

/// Writes `list` at `off`, as far as there is room, and nothing else.
fn write_list(buf: &mut [i32], off: usize, list: &[u32])
    requires
        off <= old(buf)@.len(),
    ensures
        final(buf)@.len() == old(buf)@.len(),
        forall|j: int|
            0 <= j < final(buf)@.len() ==> #[trigger] final(buf)@[j] == if off <= j < off
                + list@.len() {
                list@[j - off] as i32
            } else {
                old(buf)@[j]
            },
{
    let n: usize = buf.len();
    let mut i: usize = 0;
    while i < list.len() && off + i < n
        invariant
            n == buf@.len(),
            n == old(buf)@.len(),
            off <= n,
            i <= list@.len(),
            off + i <= n,
            forall|j: int|
                0 <= j < n ==> #[trigger] buf@[j] == if off <= j < off + i {
                    list@[j - off] as i32
                } else {
                    old(buf)@[j]
                },
        decreases list@.len() - i,
    {
        buf[off + i] = list[i] as i32;
        i = i + 1;
    }
}

/// Writes the tokens at `off` and nothing else.
fn write_tokens(buf: &mut [i32], off: usize, list: &[TokenId])
    requires
        off + list@.len() <= old(buf)@.len(),
    ensures
        final(buf)@.len() == old(buf)@.len(),
        forall|j: int|
            0 <= j < final(buf)@.len() ==> #[trigger] final(buf)@[j] == if off <= j < off
                + list@.len() {
                list@[j - off].0 as i32
            } else {
                old(buf)@[j]
            },
{
    let total: usize = buf.len();
    let mut i: usize = 0;
    while i < list.len()
        invariant
            total == buf@.len(),
            buf@.len() == old(buf)@.len(),
            off + list@.len() <= buf@.len(),
            i <= list@.len(),
            forall|j: int|
                0 <= j < buf@.len() ==> #[trigger] buf@[j] == if off <= j < off + i {
                    list@[j - off].0 as i32
                } else {
                    old(buf)@[j]
                },
        decreases list@.len() - i,
    {
        buf[off + i] = list[i].0 as i32;
        i = i + 1;
    }
}

/// Writes the slots at `off`, minus one up to `bucket`, and nothing else.
fn write_slots(buf: &mut [i32], off: usize, list: &[i32], bucket: usize)
    requires
        off + bucket <= old(buf)@.len(),
        list@.len() <= bucket,
    ensures
        final(buf)@.len() == old(buf)@.len(),
        forall|j: int|
            0 <= j < final(buf)@.len() ==> #[trigger] final(buf)@[j] == if off <= j < off
                + list@.len() {
                list@[j - off]
            } else if off <= j < off + bucket {
                -1i32
            } else {
                old(buf)@[j]
            },
{
    let total: usize = buf.len();
    let mut i: usize = 0;
    while i < bucket
        invariant
            total == buf@.len(),
            buf@.len() == old(buf)@.len(),
            off + bucket <= buf@.len(),
            list@.len() <= bucket,
            i <= bucket,
            forall|j: int|
                0 <= j < buf@.len() ==> #[trigger] buf@[j] == if off <= j < off + i {
                    if j - off < list@.len() {
                        list@[j - off]
                    } else {
                        -1i32
                    }
                } else {
                    old(buf)@[j]
                },
        decreases bucket - i,
    {
        if i < list.len() {
            buf[off + i] = list[i];
        } else {
            buf[off + i] = -1;
        }
        i = i + 1;
    }
}

/// Writes `n` blocks from `start` on at `off`, and nothing else.
fn write_row(buf: &mut [i32], off: usize, blocks: &[BlockId], start: usize, n: usize)
    requires
        off + n <= old(buf)@.len(),
        start + n <= blocks@.len(),
    ensures
        final(buf)@.len() == old(buf)@.len(),
        forall|j: int|
            0 <= j < final(buf)@.len() ==> #[trigger] final(buf)@[j] == if off <= j < off + n {
                blocks@[start + (j - off)].0 as i32
            } else {
                old(buf)@[j]
            },
{
    let total: usize = buf.len();
    let available: usize = blocks.len();
    let mut i: usize = 0;
    while i < n
        invariant
            total == buf@.len(),
            available == blocks@.len(),
            buf@.len() == old(buf)@.len(),
            off + n <= buf@.len(),
            start + n <= blocks@.len(),
            i <= n,
            forall|j: int|
                0 <= j < buf@.len() ==> #[trigger] buf@[j] == if off <= j < off + i {
                    blocks@[start + (j - off)].0 as i32
                } else {
                    old(buf)@[j]
                },
        decreases n - i,
    {
        buf[off + i] = blocks[start + i].0 as i32;
        i = i + 1;
    }
}

/// An entry of a row lies inside it: before the next row and not before its
/// start, and inside the table.
proof fn row_entry_is_inside(s: int, i: int, rows: int, width: int)
    requires
        0 <= s < rows,
        0 <= i < width,
    ensures
        0 <= s * width,
        s * width + i < (s + 1) * width <= rows * width,
{
    assert(0 <= s * width && s * width + i < (s + 1) * width && (s + 1) * width <= rows * width)
        by (nonlinear_arith)
        requires
            0 <= s < rows,
            0 <= i < width,
    ;
}

/// Entries of different rows are different.
proof fn rows_are_apart(s: int, t: int, i: int, width: int)
    requires
        0 <= s,
        0 <= t,
        s != t,
        0 <= i < width,
    ensures
        !(s * width <= t * width + i < s * width + width),
{
    assert(t < s ==> t * width + i < s * width) by (nonlinear_arith)
        requires
            0 <= t,
            0 <= i < width,
    ;
    assert(t > s ==> t * width + i >= s * width + width) by (nonlinear_arith)
        requires
            0 <= s,
            0 <= i < width,
    ;
}

/// What is required of a plan's block tables: every sequence's row starts inside
/// the list.
pub open spec fn rows_start_inside(plan: BatchPlan) -> bool {
    plan.num_seqs > 0 ==> (plan.num_seqs - 1) * plan.max_blocks_input
        <= plan.block_tables_flat@.len()
}

fn write_block_tables(layout: &MetadataLayout, plan: &BatchPlan<'_>, buf: &mut [i32])
    requires
        layout.wf(),
        plan.fits(*layout),
        rows_start_inside(*plan),
        old(buf)@.len() == layout.total_elements,
        forall|j: int|
            layout.block_tables_off <= j < layout.slot_mapping_off ==> #[trigger] old(buf)@[j] == 0,
    ensures
        final(buf)@.len() == old(buf)@.len(),
        forall|j: int|
            0 <= j < final(buf)@.len() && !(layout.block_tables_off <= j < layout.slot_mapping_off)
                ==> #[trigger] final(buf)@[j] == old(buf)@[j],
        forall|s: int, i: int|
            #![trigger final(buf)@[layout.block_tables_off + s * layout.max_blocks + i]]
            0 <= s < layout.bucket && 0 <= i < layout.max_blocks
                ==> final(buf)@[layout.block_tables_off + s * layout.max_blocks + i]
                == block_or_zero(*plan, s, i),
{
    let max_blocks: usize = layout.max_blocks as usize;
    let max_in: usize = plan.max_blocks_input as usize;
    let actual: usize = plan.num_seqs as usize;
    let base: usize = layout.block_tables_off as usize;
    let available: usize = plan.block_tables_flat.len();
    let ghost rows = layout.bucket as int;
    let ghost width = layout.max_blocks as int;
    proof {
        fields_tile_the_buffer(*layout);
        assert forall|s: int, i: int| 0 <= s < rows && 0 <= i < width implies (
        #[trigger] buf@[base + s * width + i]) == 0 by {
            row_entry_is_inside(s, i, rows, width);
        }
    }
    let mut s: usize = 0;
    while s < actual
        invariant
            layout.wf(),
            plan.fits(*layout),
            rows_start_inside(*plan),
            rows == layout.bucket,
            width == layout.max_blocks,
            max_blocks == width,
            max_in == plan.max_blocks_input,
            actual == plan.num_seqs,
            base == layout.block_tables_off,
            available == plan.block_tables_flat@.len(),
            s <= actual,
            buf@.len() == old(buf)@.len(),
            buf@.len() == layout.total_elements,
            forall|j: int|
                0 <= j < buf@.len() && !(layout.block_tables_off <= j < layout.slot_mapping_off)
                    ==> #[trigger] buf@[j] == old(buf)@[j],
            forall|t: int, i: int|
                #![trigger buf@[base + t * width + i]]
                0 <= t < rows && 0 <= i < width ==> buf@[base + t * width + i] == if t < s {
                    block_or_zero(*plan, t, i)
                } else {
                    0i32
                },
        decreases actual - s,
    {
        let ghost before = buf@;
        proof {
            fields_tile_the_buffer(*layout);
            source_row_is_inside(s as int, plan.num_seqs as int, max_in as int);
            row_end_is_inside(s as int, rows, width);
        }
        let src_start: usize = s * max_in;
        let dst_start: usize = base + s * max_blocks;
        let copy_len: usize = if max_in < max_blocks {
            max_in
        } else {
            max_blocks
        };
        let left: usize = available - src_start;
        let n: usize = if copy_len < left {
            copy_len
        } else {
            left
        };
        write_row(buf, dst_start, plan.block_tables_flat, src_start, n);
        proof {
            assert forall|t: int, i: int| 0 <= t < rows && 0 <= i < width implies (
            #[trigger] buf@[base + t * width + i]) == if t < s + 1 {
                block_or_zero(*plan, t, i)
            } else {
                0i32
            } by {
                row_entry_is_inside(t, i, rows, width);
                assert(before[base + t * width + i] == if t < s {
                    block_or_zero(*plan, t, i)
                } else {
                    0i32
                });
                if t != s {
                    rows_are_apart(s as int, t, i, width);
                }
            }
        }
        s = s + 1;
    }
    proof {
        assert forall|t: int, i: int| 0 <= t < rows && 0 <= i < width implies (
        #[trigger] buf@[base + t * width + i]) == block_or_zero(*plan, t, i) by {}
    }
}

proof fn source_row_is_inside(s: int, n: int, width: int)
    requires
        0 <= s < n,
        0 <= width,
    ensures
        0 <= s * width <= (n - 1) * width,
{
    assert(0 <= s * width <= (n - 1) * width) by (nonlinear_arith)
        requires
            0 <= s < n,
            0 <= width,
    ;
}

proof fn row_end_is_inside(s: int, rows: int, width: int)
    requires
        0 <= s < rows,
        0 <= width,
    ensures
        0 <= s * width,
        s * width + width <= rows * width,
{
    assert(0 <= s * width && s * width + width <= rows * width) by (nonlinear_arith)
        requires
            0 <= s < rows,
            0 <= width,
    ;
}

/// Fills `pinned_host` with the packed metadata of a plan. A buffer of another
/// length than the layout's and a plan that does not fit the layout are refused,
/// and the buffer stays as it was.
pub fn upload(layout: &MetadataLayout, plan: &BatchPlan<'_>, pinned_host: &mut [i32]) -> (r: Result<
    (),
    RvllmError,
>)
    requires
        layout.wf(),
        old(pinned_host)@.len() == layout.total_elements && plan.fits(*layout)
            ==> rows_start_inside(*plan),
    ensures
        match r {
            Ok(()) => old(pinned_host)@.len() == layout.total_elements && plan.fits(*layout)
                && is_packed(*layout, *plan, final(pinned_host)@),
            Err(e) => final(pinned_host)@ == old(pinned_host)@ && if old(pinned_host)@.len()
                != layout.total_elements {
                is_invalid(e, "pinned_host.len"@ + ": "@ + "must equal layout.total_elements"@)
            } else {
                !plan.fits(*layout) && is_invalid(
                    e,
                    "plan"@ + ": "@ + "does not fit layout bucket/max_blocks"@,
                )
            },
        },
{
    if pinned_host.len() != layout.total_elements as usize {
        return Err(invalid("pinned_host.len", "must equal layout.total_elements"));
    }
    if !plan.fits_layout(layout) {
        return Err(invalid("plan", "does not fit layout bucket/max_blocks"));
    }
    proof {
        fields_tile_the_buffer(*layout);
    }
    fill_zero(pinned_host);
    write_tokens(pinned_host, layout.token_ids_off as usize, plan.token_ids);
    write_list(pinned_host, layout.positions_off as usize, plan.positions);
    write_list(pinned_host, layout.context_lens_off as usize, plan.context_lens);
    write_block_tables(layout, plan, pinned_host);
    let ghost tables = pinned_host@;
    write_slots(
        pinned_host,
        layout.slot_mapping_off as usize,
        plan.slot_mapping,
        layout.bucket as usize,
    );
    write_list(pinned_host, layout.seq_start_pos_off as usize, plan.seq_start_pos);
    proof {
        let buf = pinned_host@;
        let rows = layout.bucket as int;
        let width = layout.max_blocks as int;
        assert forall|s: int, i: int| 0 <= s < rows && 0 <= i < width implies (
        #[trigger] buf[layout.block_tables_off + s * layout.max_blocks + i]) == block_or_zero(
            *plan,
            s,
            i,
        ) by {
            row_entry_is_inside(s, i, rows, width);
            assert(tables[layout.block_tables_off + s * layout.max_blocks + i] == block_or_zero(
                *plan,
                s,
                i,
            ));
        }
    }
    Ok(())
}

/// The packed form of a plan is unique: whatever was in the buffer before, the
/// same plan packs to the same contents.
pub proof fn packing_is_deterministic(
    layout: MetadataLayout,
    plan: BatchPlan,
    a: Seq<i32>,
    b: Seq<i32>,
)
    requires
        layout.wf(),
        is_packed(layout, plan, a),
        is_packed(layout, plan, b),
    ensures
        a == b,
{
    fields_tile_the_buffer(layout);
    let width = layout.max_blocks as int;
    assert forall|x: int| 0 <= x < a.len() implies a[x] == b[x] by {
        if x < layout.positions_off {
            assert(a[layout.token_ids_off + x] == b[layout.token_ids_off + x]);
        } else if x < layout.context_lens_off {
            let i = x - layout.positions_off;
            assert(a[layout.positions_off + i] == b[layout.positions_off + i]);
        } else if x < layout.block_tables_off {
            let i = x - layout.context_lens_off;
            assert(a[layout.context_lens_off + i] == b[layout.context_lens_off + i]);
        } else if x < layout.slot_mapping_off {
            let o = x - layout.block_tables_off;
            let s = o / width;
            let i = o % width;
            assert(width > 0 && 0 <= s < layout.bucket && 0 <= i < width && o == s * width + i)
                by (nonlinear_arith)
                requires
                    0 <= o < layout.bucket * width,
                    width >= 0,
                    layout.bucket >= 0,
                    s == o / width,
                    i == o % width,
            ;
            assert(a[layout.block_tables_off + s * layout.max_blocks + i]
                == b[layout.block_tables_off + s * layout.max_blocks + i]);
        } else if x < layout.seq_start_pos_off {
            let i = x - layout.slot_mapping_off;
            assert(a[layout.slot_mapping_off + i] == b[layout.slot_mapping_off + i]);
        } else {
            let i = x - layout.seq_start_pos_off;
            assert(a[layout.seq_start_pos_off + i] == b[layout.seq_start_pos_off + i]);
        }
    }
    assert(a =~= b);
}

/// Sequences beyond the batch are padding: no context, no token, no block, and a
/// slot of minus one.
pub proof fn padding_is_inert(layout: MetadataLayout, plan: BatchPlan, buf: Seq<i32>, i: int)
    requires
        layout.wf(),
        plan.fits(layout),
        is_packed(layout, plan, buf),
        plan.num_seqs <= i < layout.bucket,
    ensures
        buf[layout.context_lens_off + i] == 0,
        buf[layout.token_ids_off + i] == 0,
        buf[layout.positions_off + i] == 0,
        buf[layout.slot_mapping_off + i] == -1,
        forall|b: int|
            #![trigger buf[layout.block_tables_off + i * layout.max_blocks + b]]
            0 <= b < layout.max_blocks ==> buf[layout.block_tables_off + i * layout.max_blocks + b]
                == 0,
{
}

} // verus!
