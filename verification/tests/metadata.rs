use rvllm::error::{RvllmError, SamplingError};
use rvllm::ids::{BlockId, TokenId};
use rvllm::metadata::layout::MetadataLayout;
use rvllm::metadata::pack::upload;
use rvllm::metadata::plan::BatchPlan;

#[test]
fn layout_is_deterministic_for_bucket_maxblocks() {
    let a = MetadataLayout::compute(128, 129);
    let b = MetadataLayout::compute(128, 129);
    assert_eq!(a, b);
    assert_eq!(a.hash(), b.hash());
}

#[test]
fn layout_differs_across_buckets() {
    let a = MetadataLayout::compute(1, 129);
    let b = MetadataLayout::compute(128, 129);
    assert_ne!(a.hash(), b.hash());
    // block_tables_off scales with bucket
    assert!(b.block_tables_off > a.block_tables_off);
}

#[test]
fn qwen_decode_128_fits_in_under_100kb() {
    let l = MetadataLayout::compute(128, 129);
    assert!(l.bytes() < 100 * 1024);
}

#[test]
fn layout_offsets_and_digest() {
    let l = MetadataLayout::compute(128, 129);
    assert_eq!(l.token_ids_off, 0);
    assert_eq!(l.positions_off, 128);
    assert_eq!(l.context_lens_off, 256);
    assert_eq!(l.block_tables_off, 384);
    assert_eq!(l.slot_mapping_off, 16896);
    assert_eq!(l.seq_start_pos_off, 17024);
    assert_eq!(l.total_elements, 17153);
    assert_eq!(l.bytes(), 4 * 17153);
    let d = l.descriptor_bytes();
    assert_eq!(d.len(), 36);
    assert_eq!(&d[..8], &[128, 0, 0, 0, 129, 0, 0, 0]);
    assert_eq!(&d[32..], &17153u32.to_le_bytes());
    assert_eq!(
        l.hash().0,
        [
            83, 208, 73, 36, 71, 98, 155, 162, 114, 245, 11, 51, 70, 14, 178, 130, 179, 164, 128,
            86, 221, 175, 31, 233, 200, 189, 35, 175, 153, 126, 130, 183
        ]
    );
}

#[test]
fn empty_bucket_has_one_sequence_start() {
    let l = MetadataLayout::compute(0, 77);
    assert_eq!(l.total_elements, 1);
    assert_eq!(l.bytes(), 4);
}

#[test]
fn upload_fills_fields_and_uses_safe_decode_padding() {
    let layout = MetadataLayout::compute(4, 8);
    let mut buf = vec![0i32; layout.total_elements as usize];
    let token_ids = [TokenId(10), TokenId(20)];
    let positions = [5u32, 6];
    let context_lens = [12u32, 13];
    let block_tables_flat = [BlockId(100), BlockId(101), BlockId(200), BlockId(201)];
    let slot_mapping = [42i32, 43];
    let seq_start_pos = [0u32, 1, 2];
    let plan = BatchPlan {
        num_seqs: 2,
        token_ids: &token_ids,
        positions: &positions,
        context_lens: &context_lens,
        block_tables_flat: &block_tables_flat,
        max_blocks_input: 2,
        slot_mapping: &slot_mapping,
        seq_start_pos: &seq_start_pos,
    };
    upload(&layout, &plan, &mut buf).unwrap();

    // token_ids
    assert_eq!(buf[layout.token_ids_off as usize], 10);
    assert_eq!(buf[layout.token_ids_off as usize + 1], 20);
    assert_eq!(buf[layout.token_ids_off as usize + 2], 0);
    // slot_mapping padding uses -1
    let smo = layout.slot_mapping_off as usize;
    assert_eq!(buf[smo], 42);
    assert_eq!(buf[smo + 1], 43);
    assert_eq!(buf[smo + 2], -1);
    assert_eq!(buf[smo + 3], -1);
    // padded decode entries remain empty, so replayed attention skips them
    let clo = layout.context_lens_off as usize;
    assert_eq!(buf[clo + 2], 0);
    assert_eq!(buf[clo + 3], 0);
    // block_tables: stride = layout.max_blocks, not plan's max_blocks_input
    let bto = layout.block_tables_off as usize;
    assert_eq!(buf[bto], 100);
    assert_eq!(buf[bto + 1], 101);
    // second seq starts at stride 8 (layout.max_blocks)
    assert_eq!(buf[bto + 8], 200);
    assert_eq!(buf[bto + 9], 201);
    // padded block-table rows stay zero rather than aliasing a live seq row
    assert!(buf[bto + 16..bto + 32].iter().all(|&x| x == 0));
}

#[test]
fn plan_exceeding_bucket_is_err() {
    let layout = MetadataLayout::compute(1, 8);
    let mut buf = vec![0i32; layout.total_elements as usize];
    let tok = [TokenId(1), TokenId(2)]; // 2 > bucket=1
    let plan = BatchPlan {
        num_seqs: 2,
        token_ids: &tok,
        positions: &[0, 0],
        context_lens: &[1, 1],
        block_tables_flat: &[],
        max_blocks_input: 0,
        slot_mapping: &[0, 0],
        seq_start_pos: &[0, 1, 2],
    };
    assert!(!plan.fits_layout(&layout));
    match upload(&layout, &plan, &mut buf) {
        Err(RvllmError::Sampling { err: SamplingError::InvalidParams { .. }, .. }) => {}
        other => panic!("{other:?}"),
    }
}

#[test]
fn packing_does_not_depend_on_what_the_buffer_held() {
    let layout = MetadataLayout::compute(3, 2);
    let plan = BatchPlan {
        num_seqs: 1,
        token_ids: &[TokenId(9)],
        positions: &[4],
        context_lens: &[5],
        block_tables_flat: &[BlockId(6), BlockId(7)],
        max_blocks_input: 2,
        slot_mapping: &[8],
        seq_start_pos: &[0, 1],
    };
    let n = layout.total_elements as usize;
    let mut clean = vec![0i32; n];
    let mut dirty = vec![-99i32; n];
    upload(&layout, &plan, &mut clean).unwrap();
    upload(&layout, &plan, &mut dirty).unwrap();
    assert_eq!(clean, dirty);
    assert_eq!(
        clean,
        vec![9, 0, 0, 4, 0, 0, 5, 0, 0, 6, 7, 0, 0, 0, 0, 8, -1, -1, 0, 1, 0, 0]
    );
}
