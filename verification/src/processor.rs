//! The executable operations over the buffer state, each proved against the
//! specification-level transition functions in `state`.

use vstd::prelude::*;
use std::collections::VecDeque;
use crate::error::NFTError;
use crate::state::AccountId;
use crate::state::BufferState;
use crate::state::BufferStateView;
use crate::state::NFTMetadata;
use crate::state::NFTMetadataView;
use crate::state::add_next;
use crate::state::add_outcome;
use crate::state::begin_next;
use crate::state::commit_next;
use crate::state::mint_next;
use crate::state::mint_outcome;
use crate::state::replenish_signal;
use crate::error::GenerateMoreNFTsEvent;

verus! {

/// Royalty rate, in basis points, applied to every minted asset. The mint
/// fixes this value and never reads the descriptor's stored
/// `seller_fee_basis_points` (kept so for behavioural fidelity; flagged as a
/// probable defect rather than silently changed).
pub const APPLIED_SELLER_FEE_BASIS_POINTS: u16 = 500;

/// The request the host hands to the external asset-issuance collaborator:
/// create a unique supply-of-one asset owned by `owner`.
pub struct IssuanceRequest {
    /// The identity that receives the sole unit of the new asset.
    pub owner: AccountId,
    /// Opaque value the issuance collaborator uses to derive its signing
    /// authority; not read by this crate's logic.
    pub creator_bump: u8,
}

/// One creator entry of a descriptive record.
#[derive(Clone, Copy, Debug, PartialEq, Eq, Structural)]
pub struct CreatorShare {
    pub address: AccountId,
    pub verified: bool,
    /// Royalty share percentage of this creator.
    pub share: u8,
}

/// The collection association of a descriptive record.
#[derive(Clone, Copy, Debug, PartialEq, Eq, Structural)]
pub struct CollectionRef {
    pub key: AccountId,
    pub verified: bool,
}

/// The request the host hands to the external descriptive-record
/// collaborator: the durable metadata to attach to the newly issued asset.
pub struct MetadataRecord {
    pub name: String,
    pub symbol: String,
    pub uri: String,
    /// Always `APPLIED_SELLER_FEE_BASIS_POINTS`, regardless of the rate the
    /// popped descriptor carried.
    pub seller_fee_basis_points: u16,
    /// The single verified creator record: the paying caller, full share.
    pub creator: CreatorShare,
    /// Association to the configured collection, left unverified.
    pub collection: CollectionRef,
}

/// Everything a successful consumer call produces for the surrounding host:
/// the consumed descriptor, the two collaborator requests, and the
/// replenishment signal, if one fired.
pub struct MintReceipt {
    /// The descriptor popped from the head of the queue.
    pub descriptor: NFTMetadata,
    /// Request for the asset-issuance collaborator.
    pub issuance: IssuanceRequest,
    /// Request for the descriptive-record collaborator.
    pub metadata: MetadataRecord,
    /// The replenishment signal: `Some` exactly when the remaining queue
    /// length is at or below the configured threshold.
    pub signal: Option<GenerateMoreNFTsEvent>,
}

/// Creates a fresh buffer state: chosen configuration, empty queue, minted
/// counter at zero. Runs once per instance; guarding against a duplicate
/// instance is the surrounding host's concern.
pub fn initialize(
    buffer_size: u64,
    min_buffer_threshold: u64,
    collection_mint: AccountId,
    authority: AccountId,
) -> (s: BufferState)
    ensures
        s@ == (BufferStateView {
            authority,
            buffer_size,
            min_buffer_threshold,
            collection_mint,
            pending_nfts: Seq::<NFTMetadataView>::empty(),
            minted_count: 0,
        }),
        s@.wf(),
{
    let s = BufferState {
        authority,
        buffer_size,
        min_buffer_threshold,
        collection_mint,
        pending_nfts: VecDeque::new(),
        minted_count: 0,
    };
    proof {
        assert(s@.pending_nfts =~= Seq::<NFTMetadataView>::empty());
    }
    s
}

/// The producer: validates caller authority and remaining capacity, then
/// appends a new pending descriptor (with the `minted` flag down) to the
/// tail of the queue. A failed call mutates nothing.
pub fn add_to_buffer(
    state: &mut BufferState,
    caller: AccountId,
    metadata_uri: String,
    name: String,
    symbol: String,
    seller_fee_basis_points: u16,
) -> (r: Result<(), NFTError>)
    requires
        old(state)@.wf(),
    ensures
        final(state)@.wf(),
        r == add_outcome(old(state)@, caller),
        final(state)@ == add_next(old(state)@, caller, (NFTMetadataView {
            uri: metadata_uri@,
            name: name@,
            symbol: symbol@,
            seller_fee_basis_points,
            minted: false,
        })),
{
    if caller != state.authority {
        return Err(NFTError::UnauthorizedAccess);
    }
    if state.pending_nfts.len() as u64 >= state.buffer_size {
        return Err(NFTError::BufferFull);
    }
    let descriptor = NFTMetadata {
        uri: metadata_uri,
        name,
        symbol,
        seller_fee_basis_points,
        minted: false,
    };
    let ghost dv = descriptor@;
    state.pending_nfts.push_back(descriptor);
    proof {
        assert(state@.pending_nfts =~= old(state)@.pending_nfts.push(dv));
    }
    Ok(())
}

/// The consuming phase of a mint: validates that the queue is non-empty and
/// that the head descriptor is not already marked minted, then pops the head.
/// A failed call mutates nothing; the minted counter is untouched either way.
pub fn begin_mint(state: &mut BufferState) -> (r: Result<NFTMetadata, NFTError>)
    requires
        old(state)@.wf(),
    ensures
        final(state)@.wf(),
        final(state)@ == begin_next(old(state)@),
        (match r {
            Ok(d) => mint_outcome(old(state)@) == Ok::<NFTMetadataView, NFTError>(d@),
            Err(e) => mint_outcome(old(state)@) == Err::<NFTMetadataView, NFTError>(e),
        }),
{
    if state.pending_nfts.len() == 0 {
        return Err(NFTError::EmptyBuffer);
    }
    if state.pending_nfts[0].minted {
        return Err(NFTError::InvalidMetadata);
    }
    match state.pending_nfts.pop_front() {
        Some(descriptor) => {
            proof {
                assert(state@.pending_nfts =~= old(state)@.pending_nfts.drop_first());
            }
            Ok(descriptor)
        },
        // A pop that finds the queue emptied under it fails like an empty
        // queue does; the checks above keep this arm from being reached.
        None => Err(NFTError::EmptyBuffer),
    }
}

/// Rolls the consuming phase back: puts the popped descriptor back at the
/// head of the queue, restoring the state `begin_mint` consumed it from. The
/// host calls this when an external collaborator fails mid-mint, so that a
/// failed consumer call leaves no partial state behind.
pub fn abort_mint(state: &mut BufferState, descriptor: NFTMetadata)
    requires
        old(state)@.wf(),
        old(state)@.pending_nfts.len() < old(state)@.buffer_size,
    ensures
        final(state)@.wf(),
        final(state)@ == (BufferStateView {
            pending_nfts: seq![descriptor@] + old(state)@.pending_nfts,
            ..old(state)@
        }),
{
    state.pending_nfts.push_front(descriptor);
    proof {
        assert(state@.pending_nfts =~= seq![descriptor@] + old(state)@.pending_nfts);
    }
}

/// The committing phase of a mint: increments the minted counter by exactly
/// one and reports the replenishment signal, `Some` exactly when the
/// remaining queue length is at or below the configured threshold.
pub fn commit_mint(state: &mut BufferState) -> (signal: Option<GenerateMoreNFTsEvent>)
    requires
        old(state)@.wf(),
        old(state)@.minted_count < u64::MAX,
    ensures
        final(state)@.wf(),
        final(state)@ == commit_next(old(state)@),
        signal == replenish_signal(final(state)@),
{
    state.minted_count = state.minted_count + 1;
    if state.pending_nfts.len() as u64 <= state.min_buffer_threshold {
        Some(GenerateMoreNFTsEvent {
            current_buffer_size: state.pending_nfts.len() as u64,
            required_size: state.buffer_size,
        })
    } else {
        None
    }
}

/// Prepares the two collaborator requests for one mint: the asset-issuance
/// request for the paying caller, and the descriptive record carrying the
/// caller-supplied title, symbol and uri, the fixed applied royalty, a
/// single verified full-share creator entry for the caller, and the
/// unverified association to the configured collection.
pub fn mint_requests(
    payer: AccountId,
    creator_bump: u8,
    metadata_title: String,
    metadata_symbol: String,
    metadata_uri: String,
    collection_mint: AccountId,
) -> (r: (IssuanceRequest, MetadataRecord))
    ensures
        r.0.owner == payer,
        r.0.creator_bump == creator_bump,
        r.1.name@ == metadata_title@,
        r.1.symbol@ == metadata_symbol@,
        r.1.uri@ == metadata_uri@,
        r.1.seller_fee_basis_points == APPLIED_SELLER_FEE_BASIS_POINTS,
        r.1.creator == (CreatorShare { address: payer, verified: true, share: 100 }),
        r.1.collection == (CollectionRef { key: collection_mint, verified: false }),
{
    let issuance = IssuanceRequest { owner: payer, creator_bump };
    let metadata = MetadataRecord {
        name: metadata_title,
        symbol: metadata_symbol,
        uri: metadata_uri,
        seller_fee_basis_points: APPLIED_SELLER_FEE_BASIS_POINTS,
        creator: CreatorShare { address: payer, verified: true, share: 100 },
        collection: CollectionRef { key: collection_mint, verified: false },
    };
    (issuance, metadata)
}

/// The consumer: pops the oldest pending descriptor, prepares the two
/// collaborator requests (asset issuance for the paying caller, and the
/// descriptive record carrying the caller-supplied title, symbol and uri, a
/// fixed applied royalty, a single verified full-share creator entry for the
/// caller, and the unverified collection association), increments the minted
/// counter, and reports the replenishment signal. A failed call mutates
/// nothing.
pub fn mint_nft(
    state: &mut BufferState,
    payer: AccountId,
    creator_bump: u8,
    metadata_title: String,
    metadata_symbol: String,
    metadata_uri: String,
) -> (r: Result<MintReceipt, NFTError>)
    requires
        old(state)@.wf(),
        old(state)@.minted_count < u64::MAX,
    ensures
        final(state)@.wf(),
        final(state)@ == mint_next(old(state)@),
        (match r {
            Ok(receipt) => {
                &&& mint_outcome(old(state)@) == Ok::<NFTMetadataView, NFTError>(receipt.descriptor@)
                &&& receipt.issuance.owner == payer
                &&& receipt.issuance.creator_bump == creator_bump
                &&& receipt.metadata.name@ == metadata_title@
                &&& receipt.metadata.symbol@ == metadata_symbol@
                &&& receipt.metadata.uri@ == metadata_uri@
                &&& receipt.metadata.seller_fee_basis_points == APPLIED_SELLER_FEE_BASIS_POINTS
                &&& receipt.metadata.creator == (CreatorShare { address: payer, verified: true, share: 100 })
                &&& receipt.metadata.collection == (CollectionRef {
                    key: old(state)@.collection_mint,
                    verified: false,
                })
                &&& receipt.signal == replenish_signal(final(state)@)
            },
            Err(e) => mint_outcome(old(state)@) == Err::<NFTMetadataView, NFTError>(e),
        }),
{
    let descriptor = match begin_mint(state) {
        Ok(d) => d,
        Err(e) => {
            return Err(e);
        },
    };
    let (issuance, metadata) = mint_requests(
        payer,
        creator_bump,
        metadata_title,
        metadata_symbol,
        metadata_uri,
        state.collection_mint,
    );
    let signal = commit_mint(state);
    Ok(MintReceipt { descriptor, issuance, metadata, signal })
}

} // verus!
