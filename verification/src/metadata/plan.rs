//! What a step hands to the metadata packer.

use crate::ids::{BlockId, TokenId};
use crate::metadata::layout::MetadataLayout;
use vstd::prelude::*;

verus! {

/// One step's batch, borrowed from the scheduler.
#[derive(Debug)]
pub struct BatchPlan<'s> {
    /// Active sequences, at most the bucket.
    pub num_seqs: u32,
    /// Current token of each sequence.
    pub token_ids: &'s [TokenId],
    /// Position of each sequence's current token.
    pub positions: &'s [u32],
    /// Valid KV tokens of each sequence.
    pub context_lens: &'s [u32],
    /// Block tables, `max_blocks_input` entries per sequence, one behind the
    /// other.
    pub block_tables_flat: &'s [BlockId],
    pub max_blocks_input: u32,
    /// KV slot of each sequence's new token.
    pub slot_mapping: &'s [i32],
    /// Where each sequence's query tokens start, and where the last ones end.
    pub seq_start_pos: &'s [u32],
}

impl<'s> BatchPlan<'s> {
    /// Every list has one entry per sequence, and sequences and blocks fit the
    /// layout.
    pub open spec fn fits(self, layout: MetadataLayout) -> bool {
        &&& self.num_seqs <= layout.bucket
        &&& self.token_ids@.len() == self.num_seqs
        &&& self.positions@.len() == self.num_seqs
        &&& self.context_lens@.len() == self.num_seqs
        &&& self.slot_mapping@.len() == self.num_seqs
        &&& self.max_blocks_input <= layout.max_blocks
    }

    /// Whether the plan fits the layout.
    pub fn fits_layout(&self, layout: &MetadataLayout) -> (r: bool)
        ensures
            r == self.fits(*layout),
    {
        self.num_seqs <= layout.bucket && self.token_ids.len() == self.num_seqs as usize
            && self.positions.len() == self.num_seqs as usize && self.context_lens.len()
            == self.num_seqs as usize && self.slot_mapping.len() == self.num_seqs as usize
            && self.max_blocks_input <= layout.max_blocks
    }
}

} // verus!
