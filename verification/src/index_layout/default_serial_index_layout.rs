//! The index layout of a single process.

use crate::traits::index_layout::IndexLayout;
use crate::types::{IndexType, RlstError, RlstResult};
use vstd::prelude::*;

verus! {

/// All of the global indices `0..size` on the one rank `0`, where global
/// and local indices coincide.
pub struct DefaultSerialIndexLayout {
    size: IndexType,
}

impl DefaultSerialIndexLayout {
    /// The number of indices.
    pub closed spec fn spec_size(&self) -> nat {
        self.size as nat
    }

    /// Creates the layout of `size` indices.
    pub fn new(size: IndexType) -> (layout: Self)
        ensures
            layout.spec_size() == size,
    {
        Self { size }
    }
}

impl IndexLayout for DefaultSerialIndexLayout {
    open spec fn spec_number_of_global_indices(&self) -> nat {
        self.spec_size()
    }

    open spec fn spec_local_range(&self) -> (nat, nat) {
        (0, self.spec_size())
    }

    open spec fn spec_index_range(&self, rank: nat) -> Option<(nat, nat)> {
        if rank == 0 {
            Some((0, self.spec_size()))
        } else {
            None
        }
    }

    fn number_of_local_indices(&self) -> (n: IndexType) {
        self.number_of_global_indices()
    }

    fn local_range(&self) -> (range: (IndexType, IndexType)) {
        (0, self.size)
    }

    fn number_of_global_indices(&self) -> (n: IndexType) {
        self.size
    }

    fn index_range(&self, rank: IndexType) -> (result: RlstResult<(IndexType, IndexType)>) {
        if rank == 0 {
            Ok((0, self.size))
        } else {
            Err(RlstError::MpiRankError(#[verifier::truncate] (rank as i32)))
        }
    }

    fn local2global(&self, index: IndexType) -> (global: Option<IndexType>) {
        if index < self.number_of_local_indices() {
            Some(index)
        } else {
            None
        }
    }

    fn global2local(&self, rank: IndexType, index: IndexType) -> (local: Option<IndexType>) {
        if rank == 0 && index < self.number_of_global_indices() {
            Some(index)
        } else {
            None
        }
    }

    fn rank_from_index(&self, index: IndexType) -> (rank: Option<IndexType>) {
        if index < self.number_of_global_indices() {
            Some(0)
        } else {
            None
        }
    }
}

} // verus!
