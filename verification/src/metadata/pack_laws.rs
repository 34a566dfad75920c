//! What a reader of the packed buffer finds, said of the batch and of positions
//! in the buffer alone.

use crate::error::{RvllmError, SamplingError};
use crate::ids::MetaLayoutHash;
use crate::metadata::layout::{fields_tile_the_buffer, le_bytes, sha256, MetadataLayout};
use crate::metadata::pack::upload;
use crate::metadata::plan::BatchPlan;
use vstd::prelude::*;

verus! {

/// Whether every list of a plan has one entry per sequence, and the sequences
/// and their blocks have room in a buffer for `bucket` sequences of `max_blocks`
/// blocks.
pub open spec fn has_room_for(bucket: u32, max_blocks: u32, plan: BatchPlan) -> bool {
    &&& plan.num_seqs <= bucket
    &&& plan.max_blocks_input <= max_blocks
    &&& plan.token_ids@.len() == plan.num_seqs
    &&& plan.positions@.len() == plan.num_seqs
    &&& plan.context_lens@.len() == plan.num_seqs
    &&& plan.slot_mapping@.len() == plan.num_seqs
}

/// A batch is packed exactly where the buffer has the length that was asked for
/// and the batch has room in it; else the buffer stays as it was, and the error
/// starts with what was wrong.
pub proof fn batches_with_room_are_packed(
    bucket: u32,
    max_blocks: u32,
    layout: MetadataLayout,
    plan: BatchPlan,
    host: &mut [i32],
    r: Result<(), RvllmError>,
)
    requires
        bucket * max_blocks + 5 * bucket + 1 <= u32::MAX,
        call_ensures(MetadataLayout::compute, (bucket, max_blocks), layout),
        call_ensures(upload, (&layout, &plan, host), r),
    ensures
        r is Ok <==> old(host)@.len() == bucket * max_blocks + 5 * bucket + 1 && has_room_for(
            bucket,
            max_blocks,
            plan,
        ),
        r is Err ==> final(host)@ == old(host)@,
        final(host)@.len() == old(host)@.len(),
        r matches Err(e) ==> (e matches RvllmError::Sampling {
            err: SamplingError::InvalidParams { reason },
            ..
        } && if old(host)@.len() != bucket * max_blocks + 5 * bucket + 1 {
            "pinned_host.len"@.is_prefix_of(reason@)
        } else {
            "plan"@.is_prefix_of(reason@)
        }),
{
    fields_tile_the_buffer(layout);
}

/// The three lists at the head of a packed buffer are the tokens, the positions
/// and the context lengths, one entry per sequence of the bucket, with zeros
/// behind the batch.
pub proof fn packed_lists_read_back(
    bucket: u32,
    max_blocks: u32,
    layout: MetadataLayout,
    plan: BatchPlan,
    host: &mut [i32],
    i: int,
)
    requires
        bucket * max_blocks + 5 * bucket + 1 <= u32::MAX,
        call_ensures(MetadataLayout::compute, (bucket, max_blocks), layout),
        call_ensures(upload, (&layout, &plan, host), Ok::<(), RvllmError>(())),
        0 <= i < bucket,
    ensures
        i < plan.num_seqs ==> {
            &&& final(host)@[i] == plan.token_ids@[i].0 as i32
            &&& final(host)@[bucket + i] == plan.positions@[i] as i32
            &&& final(host)@[2 * bucket + i] == plan.context_lens@[i] as i32
        },
        i >= plan.num_seqs ==> {
            &&& final(host)@[i] == 0
            &&& final(host)@[bucket + i] == 0
            &&& final(host)@[2 * bucket + i] == 0
        },
{
    fields_tile_the_buffer(layout);
    let buf = final(host)@;
    assert(buf[layout.token_ids_off + i] == buf[i]);
    assert(buf[layout.positions_off + i] == buf[bucket + i]);
    assert(buf[layout.context_lens_off + i] == buf[2 * bucket + i]);
}

/// Behind the lists stand the block tables, one row of `max_blocks` per sequence:
/// block `b` of sequence `s` is the batch's, and zeros stand where the batch has
/// no block.
pub proof fn packed_block_tables_read_back(
    bucket: u32,
    max_blocks: u32,
    layout: MetadataLayout,
    plan: BatchPlan,
    host: &mut [i32],
    s: int,
    b: int,
)
    requires
        bucket * max_blocks + 5 * bucket + 1 <= u32::MAX,
        call_ensures(MetadataLayout::compute, (bucket, max_blocks), layout),
        call_ensures(upload, (&layout, &plan, host), Ok::<(), RvllmError>(())),
        0 <= s < bucket,
        0 <= b < max_blocks,
    ensures
        final(host)@[3 * bucket + s * max_blocks + b] == if s < plan.num_seqs && b
            < plan.max_blocks_input && s * plan.max_blocks_input + b
            < plan.block_tables_flat@.len() {
            plan.block_tables_flat@[s * plan.max_blocks_input + b].0 as i32
        } else {
            0i32
        },
{
    fields_tile_the_buffer(layout);
    let buf = final(host)@;
    assert(buf[layout.block_tables_off + s * layout.max_blocks + b] == buf[3 * bucket + s
        * max_blocks + b]);
    assert(0 <= s * plan.max_blocks_input) by (nonlinear_arith)
        requires
            0 <= s,
            plan.max_blocks_input >= 0,
    ;
}

/// Last come the slots, with minus one behind the batch, and the starts of the
/// sequences, of which there is one more.
pub proof fn packed_slots_and_starts_read_back(
    bucket: u32,
    max_blocks: u32,
    layout: MetadataLayout,
    plan: BatchPlan,
    host: &mut [i32],
    i: int,
)
    requires
        bucket * max_blocks + 5 * bucket + 1 <= u32::MAX,
        call_ensures(MetadataLayout::compute, (bucket, max_blocks), layout),
        call_ensures(upload, (&layout, &plan, host), Ok::<(), RvllmError>(())),
        0 <= i <= bucket,
    ensures
        i < plan.num_seqs ==> final(host)@[3 * bucket + bucket * max_blocks + i]
            == plan.slot_mapping@[i],
        plan.num_seqs <= i < bucket ==> final(host)@[3 * bucket + bucket * max_blocks + i] == -1,
        final(host)@[4 * bucket + bucket * max_blocks + i] == if i < plan.seq_start_pos@.len() {
            plan.seq_start_pos@[i] as i32
        } else {
            0i32
        },
{
    fields_tile_the_buffer(layout);
    let buf = final(host)@;
    assert(buf[layout.slot_mapping_off + i] == buf[3 * bucket + bucket * max_blocks + i]);
    assert(buf[layout.seq_start_pos_off + i] == buf[4 * bucket + bucket * max_blocks + i]);
}

/// The number that stands at place `i` of a run of little-endian 32-bit numbers.
pub open spec fn number_at(bytes: Seq<u8>, i: int) -> int {
    bytes[4 * i] + 256 * bytes[4 * i + 1] + 65536 * bytes[4 * i + 2] + 16777216 * bytes[4 * i + 3]
}

/// The descriptor that a layout's digest is taken of is nine little-endian
/// numbers: bucket, block count, the six offsets and the length.
pub proof fn descriptors_hold_the_layout(layout: MetadataLayout, bytes: Vec<u8>)
    requires
        call_ensures(MetadataLayout::descriptor_bytes, (&layout,), bytes),
    ensures
        bytes@.len() == 36,
        number_at(bytes@, 0) == layout.bucket,
        number_at(bytes@, 1) == layout.max_blocks,
        number_at(bytes@, 2) == layout.token_ids_off,
        number_at(bytes@, 3) == layout.positions_off,
        number_at(bytes@, 4) == layout.context_lens_off,
        number_at(bytes@, 5) == layout.block_tables_off,
        number_at(bytes@, 6) == layout.slot_mapping_off,
        number_at(bytes@, 7) == layout.seq_start_pos_off,
        number_at(bytes@, 8) == layout.total_elements,
{
    bytes_make_their_number(layout.bucket);
    bytes_make_their_number(layout.max_blocks);
    bytes_make_their_number(layout.token_ids_off);
    bytes_make_their_number(layout.positions_off);
    bytes_make_their_number(layout.context_lens_off);
    bytes_make_their_number(layout.block_tables_off);
    bytes_make_their_number(layout.slot_mapping_off);
    bytes_make_their_number(layout.seq_start_pos_off);
    bytes_make_their_number(layout.total_elements);
}

proof fn bytes_make_their_number(n: u32)
    ensures
        le_bytes(n).len() == 4,
        n == le_bytes(n)[0] + 256 * le_bytes(n)[1] + 65536 * le_bytes(n)[2] + 16777216
            * le_bytes(n)[3],
{
    assert((n / 256) / 256 == n / 65536);
    assert((n / 65536) / 256 == n / 16777216);
}

/// The digest is that of the descriptor, and the buffer takes four bytes per
/// element.
pub proof fn digests_are_of_the_descriptor(
    layout: MetadataLayout,
    bytes: Vec<u8>,
    digest: MetaLayoutHash,
    size: usize,
)
    requires
        call_ensures(MetadataLayout::descriptor_bytes, (&layout,), bytes),
        call_ensures(MetadataLayout::hash, (&layout,), digest),
        call_ensures(MetadataLayout::bytes, (&layout,), size),
    ensures
        digest.0@ == sha256(bytes@),
        size == layout.total_elements * 4,
{
}

/// A plan fits a layout exactly where it has room in it.
pub proof fn plans_fit_where_there_is_room(layout: MetadataLayout, plan: BatchPlan, r: bool)
    requires
        call_ensures(BatchPlan::fits_layout, (&plan, &layout), r),
    ensures
        r == has_room_for(layout.bucket, layout.max_blocks, plan),
{
}

} // verus!
