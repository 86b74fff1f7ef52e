//! The distribution of a range of global indices over ranks.

use crate::types::{IndexType, RlstError, RlstResult};
use vstd::prelude::*;

verus! {

/// `true` exactly when `index` lies in the half-open range `range`.
pub open spec fn in_range(index: nat, range: (nat, nat)) -> bool {
    range.0 <= index < range.1
}

/// A distribution of the global indices `0..n` over ranks. Each rank owns a
/// half-open range of global indices; the ranges of different ranks do
/// not overlap. One of the ranks is the local one, and its indices are also
/// numbered locally from zero.
pub trait IndexLayout {
    /// The number of global indices.
    spec fn spec_number_of_global_indices(&self) -> nat;

    /// The range of global indices that the local rank owns.
    spec fn spec_local_range(&self) -> (nat, nat);

    /// The range of global indices that `rank` owns, or `None` if there is
    /// no such rank.
    spec fn spec_index_range(&self, rank: nat) -> Option<(nat, nat)>;

    /// Returns the range of global indices that the local rank owns.
    fn local_range(&self) -> (range: (IndexType, IndexType))
        ensures
            range.0 == self.spec_local_range().0,
            range.1 == self.spec_local_range().1,
            range.0 <= range.1,
    ;

    /// Returns the number of global indices.
    fn number_of_global_indices(&self) -> (n: IndexType)
        ensures
            n == self.spec_number_of_global_indices(),
    ;

    /// Returns the number of indices that the local rank owns.
    fn number_of_local_indices(&self) -> (n: IndexType)
        ensures
            n == self.spec_local_range().1 - self.spec_local_range().0,
    ;

    /// Returns the range of global indices that `rank` owns, or an error
    /// that names the rank if there is no such rank.
    fn index_range(&self, rank: IndexType) -> (result: RlstResult<(IndexType, IndexType)>)
        ensures
            match result {
                Ok(range) => self.spec_index_range(rank as nat) == Some(
                    (range.0 as nat, range.1 as nat),
                ),
                Err(error) => self.spec_index_range(rank as nat) is None && error
                    == RlstError::MpiRankError(rank as i32),
            },
    ;

    /// Converts a local index into the global index of the same entry, or
    /// returns `None` if the local rank owns no such index.
    fn local2global(&self, index: IndexType) -> (global: Option<IndexType>)
        ensures
            global is Some <==> index < self.spec_local_range().1 - self.spec_local_range().0,
            global matches Some(g) ==> g == self.spec_local_range().0 + index,
    ;

    /// Converts a global index into the local index that it has on `rank`,
    /// or returns `None` if `rank` does not exist or does not own the index.
    fn global2local(&self, rank: IndexType, index: IndexType) -> (local: Option<IndexType>)
        ensures
            local is Some <==> (self.spec_index_range(rank as nat) matches Some(range) && in_range(
                index as nat,
                range,
            )),
            local matches Some(l) ==> l == index - self.spec_index_range(rank as nat).unwrap().0,
    ;

    /// Returns the rank that owns the global index `index`, or `None` if
    /// there is no such global index.
    fn rank_from_index(&self, index: IndexType) -> (rank: Option<IndexType>)
        ensures
            rank is Some <==> index < self.spec_number_of_global_indices(),
            rank matches Some(r) ==> (self.spec_index_range(r as nat) matches Some(range)
                && in_range(index as nat, range)),
    ;
}

} // verus!
