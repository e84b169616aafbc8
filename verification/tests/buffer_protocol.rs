//! End-to-end tests of the buffer protocol through its public operations.

use nft_minter::error::GenerateMoreNFTsEvent;
use nft_minter::error::NFTError;
use nft_minter::processor::abort_mint;
use nft_minter::processor::add_to_buffer;
use nft_minter::processor::begin_mint;
use nft_minter::processor::commit_mint;
use nft_minter::processor::initialize;
use nft_minter::processor::mint_nft;
use nft_minter::processor::mint_requests;
use nft_minter::processor::APPLIED_SELLER_FEE_BASIS_POINTS;
use nft_minter::state::AccountId;
use nft_minter::state::BufferState;
use nft_minter::state::NFTMetadata;

fn authority() -> AccountId {
    AccountId { value: 7 }
}

fn collection() -> AccountId {
    AccountId { value: 9 }
}

fn add(state: &mut BufferState, caller: AccountId, uri: &str, fee: u16) -> Result<(), NFTError> {
    add_to_buffer(
        state,
        caller,
        uri.to_string(),
        format!("name-{}", uri),
        format!("sym-{}", uri),
        fee,
    )
}

#[test]
fn initialize_sets_fields_and_empty_queue() {
    let s = initialize(4, 2, collection(), authority());
    assert_eq!(s.authority, authority());
    assert_eq!(s.buffer_size, 4);
    assert_eq!(s.min_buffer_threshold, 2);
    assert_eq!(s.collection_mint, collection());
    assert_eq!(s.pending_nfts.len(), 0);
    assert_eq!(s.minted_count, 0);
}

#[test]
fn add_stores_descriptor_fields() {
    let mut s = initialize(2, 0, collection(), authority());
    let r = add_to_buffer(
        &mut s,
        authority(),
        "uri-a".to_string(),
        "name-a".to_string(),
        "sym-a".to_string(),
        250,
    );
    assert_eq!(r, Ok(()));
    assert_eq!(s.pending_nfts.len(), 1);
    let d = &s.pending_nfts[0];
    assert_eq!(d.uri, "uri-a");
    assert_eq!(d.name, "name-a");
    assert_eq!(d.symbol, "sym-a");
    assert_eq!(d.seller_fee_basis_points, 250);
    assert!(!d.minted);
}

#[test]
fn add_rejects_foreign_identity() {
    let mut s = initialize(3, 1, collection(), authority());
    let intruder = AccountId { value: 8 };
    let r = add(&mut s, intruder, "uri1", 250);
    assert_eq!(r, Err(NFTError::UnauthorizedAccess));
    assert_eq!(s.pending_nfts.len(), 0);
    assert_eq!(s.minted_count, 0);
}

#[test]
fn add_rejects_when_full_and_leaves_queue_unchanged() {
    let mut s = initialize(2, 0, collection(), authority());
    assert_eq!(add(&mut s, authority(), "uri1", 1), Ok(()));
    assert_eq!(add(&mut s, authority(), "uri2", 2), Ok(()));
    let r = add(&mut s, authority(), "uri3", 3);
    assert_eq!(r, Err(NFTError::BufferFull));
    assert_eq!(s.pending_nfts.len(), 2);
    assert_eq!(s.pending_nfts[0].uri, "uri1");
    assert_eq!(s.pending_nfts[1].uri, "uri2");
}

#[test]
fn zero_capacity_buffer_rejects_every_add() {
    let mut s = initialize(0, 0, collection(), authority());
    let r = add(&mut s, authority(), "uri1", 1);
    assert_eq!(r, Err(NFTError::BufferFull));
    assert_eq!(s.pending_nfts.len(), 0);
}

#[test]
fn fifo_mint_order() {
    let mut s = initialize(3, 0, collection(), authority());
    assert_eq!(add(&mut s, authority(), "uri1", 1), Ok(()));
    assert_eq!(add(&mut s, authority(), "uri2", 2), Ok(()));
    assert_eq!(add(&mut s, authority(), "uri3", 3), Ok(()));
    let payer = AccountId { value: 11 };
    for expected in ["uri1", "uri2", "uri3"] {
        let receipt = mint_nft(
            &mut s,
            payer,
            255,
            "t".to_string(),
            "sy".to_string(),
            "ur".to_string(),
        )
        .unwrap();
        assert_eq!(receipt.descriptor.uri, expected);
    }
    assert_eq!(s.pending_nfts.len(), 0);
    assert_eq!(s.minted_count, 3);
}

#[test]
fn empty_buffer_guard() {
    let mut s = initialize(3, 1, collection(), authority());
    let r = mint_nft(
        &mut s,
        authority(),
        255,
        "t".to_string(),
        "sy".to_string(),
        "ur".to_string(),
    );
    let e = r.err().unwrap();
    assert_eq!(e, NFTError::EmptyBuffer);
    assert_eq!(s.minted_count, 0);
    assert_eq!(s.pending_nfts.len(), 0);
}

#[test]
fn replenishment_signal_threshold() {
    let mut s = initialize(5, 2, collection(), authority());
    for uri in ["u1", "u2", "u3", "u4", "u5"] {
        assert_eq!(add(&mut s, authority(), uri, 1), Ok(()));
    }
    let payer = AccountId { value: 11 };
    let first = mint_nft(&mut s, payer, 0, "t".to_string(), "s".to_string(), "u".to_string()).unwrap();
    assert_eq!(first.signal, None);
    let second = mint_nft(&mut s, payer, 0, "t".to_string(), "s".to_string(), "u".to_string()).unwrap();
    assert_eq!(second.signal, None);
    let third = mint_nft(&mut s, payer, 0, "t".to_string(), "s".to_string(), "u".to_string()).unwrap();
    assert_eq!(
        third.signal,
        Some(GenerateMoreNFTsEvent {
            current_buffer_size: 2,
            required_size: 5,
        })
    );
}

#[test]
fn minted_counter_moves_only_on_success() {
    let mut s = initialize(2, 0, collection(), authority());
    assert_eq!(add(&mut s, authority(), "uri1", 1), Ok(()));
    let payer = AccountId { value: 11 };
    let before = s.minted_count;
    mint_nft(&mut s, payer, 0, "t".to_string(), "s".to_string(), "u".to_string()).unwrap();
    assert_eq!(s.minted_count, before + 1);
    let failed = mint_nft(&mut s, payer, 0, "t".to_string(), "s".to_string(), "u".to_string());
    assert_eq!(failed.err().unwrap(), NFTError::EmptyBuffer);
    assert_eq!(s.minted_count, before + 1);
    let rejected = add(&mut s, AccountId { value: 8 }, "uri2", 2);
    assert_eq!(rejected, Err(NFTError::UnauthorizedAccess));
    assert_eq!(s.minted_count, before + 1);
}

#[test]
fn end_to_end_scenario() {
    let a = authority();
    let c = collection();
    let mut s = initialize(3, 1, c, a);
    assert_eq!(add(&mut s, a, "uri1", 250), Ok(()));
    assert_eq!(add(&mut s, a, "uri2", 250), Ok(()));
    let payer = AccountId { value: 11 };
    let receipt = mint_nft(
        &mut s,
        payer,
        255,
        "title".to_string(),
        "sym".to_string(),
        "uri-minted".to_string(),
    )
    .unwrap();
    assert_eq!(receipt.descriptor.uri, "uri1");
    assert_eq!(s.pending_nfts.len(), 1);
    assert_eq!(s.pending_nfts[0].uri, "uri2");
    assert_eq!(s.minted_count, 1);
    assert_eq!(
        receipt.signal,
        Some(GenerateMoreNFTsEvent {
            current_buffer_size: 1,
            required_size: 3,
        })
    );
}

#[test]
fn mint_receipt_carries_fixed_royalty_and_creator() {
    let a = authority();
    let c = collection();
    let mut s = initialize(2, 0, c, a);
    assert_eq!(add(&mut s, a, "uri1", 250), Ok(()));
    let payer = AccountId { value: 11 };
    let receipt = mint_nft(
        &mut s,
        payer,
        42,
        "title".to_string(),
        "sym".to_string(),
        "uri-minted".to_string(),
    )
    .unwrap();
    assert_eq!(receipt.issuance.owner, payer);
    assert_eq!(receipt.issuance.creator_bump, 42);
    assert_eq!(receipt.metadata.name, "title");
    assert_eq!(receipt.metadata.symbol, "sym");
    assert_eq!(receipt.metadata.uri, "uri-minted");
    // The applied royalty is fixed; the descriptor's stored rate (250) is not read.
    assert_eq!(receipt.metadata.seller_fee_basis_points, 500);
    assert_eq!(receipt.metadata.seller_fee_basis_points, APPLIED_SELLER_FEE_BASIS_POINTS);
    assert_eq!(receipt.metadata.creator.address, payer);
    assert!(receipt.metadata.creator.verified);
    assert_eq!(receipt.metadata.creator.share, 100);
    assert_eq!(receipt.metadata.collection.key, c);
    assert!(!receipt.metadata.collection.verified);
    assert_eq!(receipt.descriptor.seller_fee_basis_points, 250);
}

#[test]
fn mint_requests_match_mint_receipt() {
    let payer = AccountId { value: 11 };
    let (issuance, metadata) = mint_requests(
        payer,
        42,
        "title".to_string(),
        "sym".to_string(),
        "uri-minted".to_string(),
        collection(),
    );
    assert_eq!(issuance.owner, payer);
    assert_eq!(issuance.creator_bump, 42);
    assert_eq!(metadata.name, "title");
    assert_eq!(metadata.symbol, "sym");
    assert_eq!(metadata.uri, "uri-minted");
    assert_eq!(metadata.seller_fee_basis_points, 500);
    assert_eq!(metadata.creator.address, payer);
    assert!(metadata.creator.verified);
    assert_eq!(metadata.creator.share, 100);
    assert_eq!(metadata.collection.key, collection());
    assert!(!metadata.collection.verified);
}

#[test]
fn two_phase_abort_restores_the_queue() {
    let mut s = initialize(3, 0, collection(), authority());
    assert_eq!(add(&mut s, authority(), "uri1", 1), Ok(()));
    assert_eq!(add(&mut s, authority(), "uri2", 2), Ok(()));
    let popped = begin_mint(&mut s).unwrap();
    assert_eq!(popped.uri, "uri1");
    assert_eq!(s.pending_nfts.len(), 1);
    assert_eq!(s.minted_count, 0);
    abort_mint(&mut s, popped);
    assert_eq!(s.pending_nfts.len(), 2);
    assert_eq!(s.pending_nfts[0].uri, "uri1");
    assert_eq!(s.pending_nfts[1].uri, "uri2");
    assert_eq!(s.minted_count, 0);
}

#[test]
fn two_phase_commit_counts_and_signals() {
    let mut s = initialize(2, 1, collection(), authority());
    assert_eq!(add(&mut s, authority(), "uri1", 1), Ok(()));
    assert_eq!(add(&mut s, authority(), "uri2", 2), Ok(()));
    let popped = begin_mint(&mut s).unwrap();
    assert_eq!(popped.uri, "uri1");
    let signal = commit_mint(&mut s);
    assert_eq!(s.minted_count, 1);
    assert_eq!(
        signal,
        Some(GenerateMoreNFTsEvent {
            current_buffer_size: 1,
            required_size: 2,
        })
    );
}

#[test]
fn minted_flag_is_still_validated() {
    let mut s = initialize(2, 0, collection(), authority());
    // No operation raises the vestigial flag while a descriptor is queued,
    // but the consumer must still validate it; plant one directly.
    s.pending_nfts.push_back(NFTMetadata {
        uri: "uri1".to_string(),
        name: "n".to_string(),
        symbol: "s".to_string(),
        seller_fee_basis_points: 1,
        minted: true,
    });
    let r = mint_nft(
        &mut s,
        authority(),
        0,
        "t".to_string(),
        "s".to_string(),
        "u".to_string(),
    );
    assert_eq!(r.err().unwrap(), NFTError::InvalidMetadata);
    assert_eq!(s.pending_nfts.len(), 1);
    assert_eq!(s.minted_count, 0);
}

#[test]
fn begin_mint_on_empty_queue_fails() {
    let mut s = initialize(2, 1, collection(), authority());
    let r = begin_mint(&mut s);
    assert_eq!(r.err().unwrap(), NFTError::EmptyBuffer);
    assert_eq!(s.minted_count, 0);
    assert_eq!(s.pending_nfts.len(), 0);
}
