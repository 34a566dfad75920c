//! The layout of the packed metadata buffer.

use crate::ids::MetaLayoutHash;
use sha2::Digest;
use vstd::prelude::*;

verus! {

/// Offsets into the packed buffer, in 32-bit elements. Every field has one
/// entry per sequence of the bucket; the block tables have `max_blocks` each,
/// and the sequence starts have one entry more.
#[derive(Copy, Clone, Debug, PartialEq, Eq, Hash, Structural)]
pub struct MetadataLayout {
    pub bucket: u32,
    pub max_blocks: u32,
    pub token_ids_off: u32,
    pub positions_off: u32,
    pub context_lens_off: u32,
    pub block_tables_off: u32,
    pub slot_mapping_off: u32,
    pub seq_start_pos_off: u32,
    /// Length of the packed buffer.
    pub total_elements: u32,
}

/// Length of the packed buffer for a bucket and a block count.
pub open spec fn total_for(bucket: int, max_blocks: int) -> int {
    bucket * max_blocks + 5 * bucket + 1
}

/// The layout for a bucket and a block count: the fields follow one another
/// without gaps.
pub open spec fn canonical(bucket: u32, max_blocks: u32) -> MetadataLayout {
    MetadataLayout {
        bucket,
        max_blocks,
        token_ids_off: 0,
        positions_off: bucket,
        context_lens_off: (2 * bucket) as u32,
        block_tables_off: (3 * bucket) as u32,
        slot_mapping_off: (3 * bucket + bucket * max_blocks) as u32,
        seq_start_pos_off: (4 * bucket + bucket * max_blocks) as u32,
        total_elements: total_for(bucket as int, max_blocks as int) as u32,
    }
}

/// The bytes of a 32-bit number, least significant first.
pub open spec fn le_bytes(n: u32) -> Seq<u8> {
    seq![
        (n % 256) as u8,
        ((n / 256) % 256) as u8,
        ((n / 65536) % 256) as u8,
        (n / 16777216) as u8,
    ]
}

/// The digest that SHA-256 gives of a message.
pub uninterp spec fn sha256(message: Seq<u8>) -> Seq<u8>;

/// `sha2::Sha256::digest`: the SHA-256 digest of `message`, as the 32 bytes that
/// the crate's fixed-size output holds. What the digest is, is left to the crate;
/// the name `sha256` stands for it.
#[verifier::external_body]
fn sha256_digest(message: &[u8]) -> (r: [u8; 32])
    ensures
        r@ == sha256(message@),
{
    sha2::Sha256::digest(message).into()
}

/// Every byte string of four determines its number.
pub proof fn le_bytes_are_injective(a: u32, b: u32)
    requires
        le_bytes(a) == le_bytes(b),
    ensures
        a == b,
{
    assert(le_bytes(a)[0] == (a % 256) as u8);
    assert(le_bytes(a)[1] == ((a / 256) % 256) as u8);
    assert(le_bytes(a)[2] == ((a / 65536) % 256) as u8);
    assert(le_bytes(a)[3] == (a / 16777216) as u8);
    assert(le_bytes(b)[0] == (b % 256) as u8);
    assert(le_bytes(b)[1] == ((b / 256) % 256) as u8);
    assert(le_bytes(b)[2] == ((b / 65536) % 256) as u8);
    assert(le_bytes(b)[3] == (b / 16777216) as u8);
    recombine(a);
    recombine(b);
}

proof fn recombine(n: u32)
    ensures
        n == n % 256 + 256 * ((n / 256) % 256) + 65536 * ((n / 65536) % 256) + 16777216 * (n
            / 16777216),
        n / 16777216 < 256,
{
    assert((n / 256) / 256 == n / 65536);
    assert((n / 65536) / 256 == n / 16777216);
}

fn push_le(out: &mut Vec<u8>, n: u32)
    ensures
        final(out)@ == old(out)@ + le_bytes(n),
{
    let ghost before = out@;
    out.push((n % 256) as u8);
    out.push(((n / 256) % 256) as u8);
    out.push(((n / 65536) % 256) as u8);
    out.push((n / 16777216) as u8);
    assert(out@ =~= before + le_bytes(n));
}

impl MetadataLayout {
    /// A layout is the one of its bucket and block count, and its length can be
    /// represented.
    pub open spec fn wf(self) -> bool {
        self == canonical(self.bucket, self.max_blocks) && total_for(
            self.bucket as int,
            self.max_blocks as int,
        ) <= u32::MAX
    }

    /// The layout for a bucket and a block count.
    pub fn compute(bucket: u32, max_blocks: u32) -> (r: MetadataLayout)
        requires
            total_for(bucket as int, max_blocks as int) <= u32::MAX,
        ensures
            r == canonical(bucket, max_blocks),
            r.wf(),
    {
        proof {
            assert(bucket * max_blocks >= 0) by (nonlinear_arith)
                requires
                    bucket >= 0,
                    max_blocks >= 0,
            ;
        }
        let token_ids_off: u32 = 0;
        let positions_off: u32 = token_ids_off + bucket;
        let context_lens_off: u32 = positions_off + bucket;
        let block_tables_off: u32 = context_lens_off + bucket;
        let slot_mapping_off: u32 = block_tables_off + bucket * max_blocks;
        let seq_start_pos_off: u32 = slot_mapping_off + bucket;
        let total_elements: u32 = seq_start_pos_off + bucket + 1;
        MetadataLayout {
            bucket,
            max_blocks,
            token_ids_off,
            positions_off,
            context_lens_off,
            block_tables_off,
            slot_mapping_off,
            seq_start_pos_off,
            total_elements,
        }
    }

    /// The numbers of the layout as bytes, in the order of the fields.
    pub open spec fn descriptor(self) -> Seq<u8> {
        le_bytes(self.bucket) + le_bytes(self.max_blocks) + le_bytes(self.token_ids_off)
            + le_bytes(self.positions_off) + le_bytes(self.context_lens_off) + le_bytes(
            self.block_tables_off,
        ) + le_bytes(self.slot_mapping_off) + le_bytes(self.seq_start_pos_off) + le_bytes(
            self.total_elements,
        )
    }

    /// The numbers of the layout as bytes, in the order of the fields.
    pub fn descriptor_bytes(&self) -> (r: Vec<u8>)
        ensures
            r@ == self.descriptor(),
    {
        let mut out: Vec<u8> = Vec::new();
        push_le(&mut out, self.bucket);
        push_le(&mut out, self.max_blocks);
        push_le(&mut out, self.token_ids_off);
        push_le(&mut out, self.positions_off);
        push_le(&mut out, self.context_lens_off);
        push_le(&mut out, self.block_tables_off);
        push_le(&mut out, self.slot_mapping_off);
        push_le(&mut out, self.seq_start_pos_off);
        push_le(&mut out, self.total_elements);
        assert(out@ =~= self.descriptor());
        out
    }

    /// SHA-256 of the layout. Captured graphs carry it, so that a replay can
    /// tell whether the layout has drifted.
    pub fn hash(&self) -> (r: MetaLayoutHash)
        ensures
            r.0@ == sha256(self.descriptor()),
    {
        let bytes = self.descriptor_bytes();
        MetaLayoutHash(sha256_digest(bytes.as_slice()))
    }

    /// Bytes of the packed buffer.
    pub fn bytes(&self) -> (r: usize)
        requires
            self.total_elements * 4 <= usize::MAX,
        ensures
            r == self.total_elements * 4,
    {
        (self.total_elements as usize) * 4
    }
}

/// The layout is a function of bucket and block count: computing it twice gives
/// the same layout and the same digest.
pub proof fn layout_is_deterministic(a: MetadataLayout, b: MetadataLayout)
    requires
        a.wf(),
        b.wf(),
        a.bucket == b.bucket,
        a.max_blocks == b.max_blocks,
    ensures
        a == b,
        sha256(a.descriptor()) == sha256(b.descriptor()),
{
}

/// Different layouts have different descriptors.
pub proof fn descriptors_are_injective(a: MetadataLayout, b: MetadataLayout)
    requires
        a.descriptor() == b.descriptor(),
    ensures
        a == b,
{
    let a1 = le_bytes(a.bucket) + le_bytes(a.max_blocks);
    let a2 = a1 + le_bytes(a.token_ids_off);
    let a3 = a2 + le_bytes(a.positions_off);
    let a4 = a3 + le_bytes(a.context_lens_off);
    let a5 = a4 + le_bytes(a.block_tables_off);
    let a6 = a5 + le_bytes(a.slot_mapping_off);
    let a7 = a6 + le_bytes(a.seq_start_pos_off);
    let b1 = le_bytes(b.bucket) + le_bytes(b.max_blocks);
    let b2 = b1 + le_bytes(b.token_ids_off);
    let b3 = b2 + le_bytes(b.positions_off);
    let b4 = b3 + le_bytes(b.context_lens_off);
    let b5 = b4 + le_bytes(b.block_tables_off);
    let b6 = b5 + le_bytes(b.slot_mapping_off);
    let b7 = b6 + le_bytes(b.seq_start_pos_off);
    last_number_is_determined(a7, b7, a.total_elements, b.total_elements);
    last_number_is_determined(a6, b6, a.seq_start_pos_off, b.seq_start_pos_off);
    last_number_is_determined(a5, b5, a.slot_mapping_off, b.slot_mapping_off);
    last_number_is_determined(a4, b4, a.block_tables_off, b.block_tables_off);
    last_number_is_determined(a3, b3, a.context_lens_off, b.context_lens_off);
    last_number_is_determined(a2, b2, a.positions_off, b.positions_off);
    last_number_is_determined(a1, b1, a.token_ids_off, b.token_ids_off);
    last_number_is_determined(
        le_bytes(a.bucket),
        le_bytes(b.bucket),
        a.max_blocks,
        b.max_blocks,
    );
    le_bytes_are_injective(a.bucket, b.bucket);
}

proof fn last_number_is_determined(x: Seq<u8>, y: Seq<u8>, m: u32, n: u32)
    requires
        x + le_bytes(m) == y + le_bytes(n),
    ensures
        x == y,
        m == n,
{
    let s = x + le_bytes(m);
    assert(s.len() == x.len() + 4 && s.len() == y.len() + 4);
    assert(s.take(x.len() as int) =~= x);
    assert(s.take(x.len() as int) =~= y);
    assert(s.skip(x.len() as int) =~= le_bytes(m));
    assert(s.skip(x.len() as int) =~= le_bytes(n));
    le_bytes_are_injective(m, n);
}

/// The fields of a layout are in order, do not overlap and fill the buffer.
pub proof fn fields_tile_the_buffer(l: MetadataLayout)
    requires
        l.wf(),
    ensures
        l.token_ids_off == 0,
        l.positions_off == l.token_ids_off + l.bucket,
        l.context_lens_off == l.positions_off + l.bucket,
        l.block_tables_off == l.context_lens_off + l.bucket,
        l.slot_mapping_off == l.block_tables_off + l.bucket * l.max_blocks,
        l.seq_start_pos_off == l.slot_mapping_off + l.bucket,
        l.total_elements == l.seq_start_pos_off + l.bucket + 1,
        l.bucket * l.max_blocks >= 0,
{
    let b = l.bucket as int;
    let m = l.max_blocks as int;
    assert(b * m >= 0) by (nonlinear_arith)
        requires
            b >= 0,
            m >= 0,
    ;
}

} // verus!
