//! The buffer state record, its mathematical view, its well-formedness
//! invariant, and the specification-level transition functions that the
//! executable operations are proved against.

use vstd::prelude::*;
use std::collections::VecDeque;
use crate::error::NFTError;
use crate::error::GenerateMoreNFTsEvent;

verus! {

/// An account identity: a principal (the authority, a payer) or a referenced
/// account (the collection mint). Compared only for equality.
#[derive(Clone, Copy, Debug, PartialEq, Eq, Structural)]
pub struct AccountId {
    pub value: u64,
}

/// A pending, not-yet-minted descriptor: the text and royalty data for one
/// future asset. Lives only inside the queue; ownership is transferred out,
/// never duplicated, at the moment of minting.
pub struct NFTMetadata {
    /// Free-form metadata location, caller-supplied, not validated here.
    pub uri: String,
    /// Free-form display name, caller-supplied, not validated here.
    pub name: String,
    /// Free-form ticker symbol, caller-supplied, not validated here.
    pub symbol: String,
    /// Royalty rate proposed by the producer, in basis points. Stored, but
    /// not the value applied at mint time: the mint fixes the applied rate
    /// independently (a known inconsistency, kept for behavioural fidelity).
    pub seller_fee_basis_points: u16,
    /// Vestigial flag: no operation ever sets it true while a descriptor is
    /// queued, but the consumer still validates it before minting. Retained
    /// for record-schema compatibility.
    pub minted: bool,
}

/// Mathematical view of a descriptor.
#[verifier::ext_equal]
pub ghost struct NFTMetadataView {
    pub uri: Seq<char>,
    pub name: Seq<char>,
    pub symbol: Seq<char>,
    pub seller_fee_basis_points: u16,
    pub minted: bool,
}

impl View for NFTMetadata {
    type V = NFTMetadataView;

    open spec fn view(&self) -> NFTMetadataView {
        NFTMetadataView {
            uri: self.uri@,
            name: self.name@,
            symbol: self.symbol@,
            seller_fee_basis_points: self.seller_fee_basis_points,
            minted: self.minted,
        }
    }
}

/// The one shared state record: configuration fixed at creation, the FIFO
/// queue of pending descriptors, and the monotonically non-decreasing minted
/// counter.
pub struct BufferState {
    /// The sole principal permitted to add pending descriptors. Set once.
    pub authority: AccountId,
    /// Maximum number of pending descriptors the queue may hold. Fixed.
    pub buffer_size: u64,
    /// Inclusive low watermark: when the queue length falls to or below this
    /// after a mint, a replenishment signal fires. Fixed.
    pub min_buffer_threshold: u64,
    /// The collection every minted asset is associated with. Fixed.
    pub collection_mint: AccountId,
    /// FIFO queue of pending descriptors; insertion order is mint order.
    pub pending_nfts: VecDeque<NFTMetadata>,
    /// Count of successfully minted items. Starts at 0, never decreases.
    pub minted_count: u64,
}

/// Mathematical view of the buffer state.
#[verifier::ext_equal]
pub ghost struct BufferStateView {
    pub authority: AccountId,
    pub buffer_size: u64,
    pub min_buffer_threshold: u64,
    pub collection_mint: AccountId,
    pub pending_nfts: Seq<NFTMetadataView>,
    pub minted_count: u64,
}

impl View for BufferState {
    type V = BufferStateView;

    open spec fn view(&self) -> BufferStateView {
        BufferStateView {
            authority: self.authority,
            buffer_size: self.buffer_size,
            min_buffer_threshold: self.min_buffer_threshold,
            collection_mint: self.collection_mint,
            pending_nfts: self.pending_nfts@.map_values(|d: NFTMetadata| d@),
            minted_count: self.minted_count,
        }
    }
}

impl BufferStateView {
    /// Well-formedness: the queue never holds more than `buffer_size`
    /// descriptors. Established at initialization and preserved by every
    /// operation.
    pub open spec fn wf(self) -> bool {
        self.pending_nfts.len() <= self.buffer_size
    }
}

/// Outcome of a producer call: the authority check comes first, then the
/// capacity check; the first failure wins.
pub open spec fn add_outcome(s: BufferStateView, caller: AccountId) -> Result<(), NFTError> {
    if caller != s.authority {
        Err(NFTError::UnauthorizedAccess)
    } else if s.pending_nfts.len() >= s.buffer_size {
        Err(NFTError::BufferFull)
    } else {
        Ok(())
    }
}

/// State after a producer call: the descriptor is appended to the tail on
/// success; a failed call mutates nothing.
pub open spec fn add_next(s: BufferStateView, caller: AccountId, d: NFTMetadataView) -> BufferStateView {
    if add_outcome(s, caller) is Ok {
        BufferStateView { pending_nfts: s.pending_nfts.push(d), ..s }
    } else {
        s
    }
}

/// Outcome of the consuming phase of a mint: the head descriptor, provided
/// the queue is non-empty and the head is not already marked minted.
pub open spec fn mint_outcome(s: BufferStateView) -> Result<NFTMetadataView, NFTError> {
    if s.pending_nfts.len() == 0 {
        Err(NFTError::EmptyBuffer)
    } else if s.pending_nfts[0].minted {
        Err(NFTError::InvalidMetadata)
    } else {
        Ok(s.pending_nfts[0])
    }
}

/// State after the consuming phase: the head descriptor leaves the queue on
/// success; a failed call mutates nothing.
pub open spec fn begin_next(s: BufferStateView) -> BufferStateView {
    if mint_outcome(s) is Ok {
        BufferStateView { pending_nfts: s.pending_nfts.drop_first(), ..s }
    } else {
        s
    }
}

/// State after the committing phase of a successful mint: only the minted
/// counter moves, by exactly one.
pub open spec fn commit_next(s: BufferStateView) -> BufferStateView {
    BufferStateView { minted_count: (s.minted_count + 1) as u64, ..s }
}

/// The replenishment signal a state raises after a mint has committed:
/// `Some` exactly when the remaining queue length is at or below the
/// configured threshold.
pub open spec fn replenish_signal(s: BufferStateView) -> Option<GenerateMoreNFTsEvent> {
    if s.pending_nfts.len() <= s.min_buffer_threshold {
        Some(GenerateMoreNFTsEvent {
            current_buffer_size: s.pending_nfts.len() as u64,
            required_size: s.buffer_size,
        })
    } else {
        None
    }
}

/// State after a whole consumer call: pop then commit on success; a failed
/// call mutates nothing.
pub open spec fn mint_next(s: BufferStateView) -> BufferStateView {
    if mint_outcome(s) is Ok {
        commit_next(begin_next(s))
    } else {
        s
    }
}

} // verus!
