//! The laws of the buffer protocol, stated over the specification-level
//! transition functions and proved once for all states and inputs.

use vstd::prelude::*;
use crate::error::NFTError;
use crate::state::AccountId;
use crate::state::BufferStateView;
use crate::state::NFTMetadataView;
use crate::state::add_next;
use crate::state::add_outcome;
use crate::state::begin_next;
use crate::state::mint_next;
use crate::state::mint_outcome;

verus! {

/// The state after a whole sequence of producer calls, all from `caller`,
/// enqueuing the descriptors of `ds` in order.
pub open spec fn add_all(s: BufferStateView, caller: AccountId, ds: Seq<NFTMetadataView>) -> BufferStateView
    decreases ds.len(),
{
    if ds.len() == 0 {
        s
    } else {
        add_all(add_next(s, caller, ds.first()), caller, ds.drop_first())
    }
}

/// The state after `n` consumer calls in a row.
pub open spec fn mint_many(s: BufferStateView, n: nat) -> BufferStateView
    decreases n,
{
    if n == 0 {
        s
    } else {
        mint_many(mint_next(s), (n - 1) as nat)
    }
}

/// While capacity remains, authorized producer calls append their
/// descriptors in order and touch nothing else.
proof fn lemma_add_all_appends(s: BufferStateView, caller: AccountId, ds: Seq<NFTMetadataView>)
    requires
        s.wf(),
        caller == s.authority,
        s.pending_nfts.len() + ds.len() <= s.buffer_size,
    ensures
        add_all(s, caller, ds) == (BufferStateView { pending_nfts: s.pending_nfts + ds, ..s }),
    decreases ds.len(),
{
    if ds.len() == 0 {
        assert(s.pending_nfts + ds =~= s.pending_nfts);
        assert(add_all(s, caller, ds) =~= (BufferStateView { pending_nfts: s.pending_nfts + ds, ..s }));
    } else {
        let s1 = add_next(s, caller, ds.first());
        lemma_add_all_appends(s1, caller, ds.drop_first());
        assert(s.pending_nfts.push(ds.first()) + ds.drop_first() =~= s.pending_nfts + ds);
        assert(add_all(s, caller, ds) =~= (BufferStateView { pending_nfts: s.pending_nfts + ds, ..s }));
    }
}

/// While the queue holds only descriptors whose `minted` flag is down,
/// consumer calls succeed one after the other: `n` of them drop the first
/// `n` descriptors and raise the minted counter by exactly `n`.
proof fn lemma_mint_many_pops(s: BufferStateView, n: nat)
    requires
        s.wf(),
        n <= s.pending_nfts.len(),
        forall|j: int| 0 <= j < s.pending_nfts.len() ==> !s.pending_nfts[j].minted,
        s.minted_count + n <= u64::MAX,
    ensures
        mint_many(s, n) == (BufferStateView {
            pending_nfts: s.pending_nfts.skip(n as int),
            minted_count: (s.minted_count + n) as u64,
            ..s
        }),
    decreases n,
{
    if n == 0 {
        assert(s.pending_nfts.skip(0) =~= s.pending_nfts);
        assert(mint_many(s, n) =~= (BufferStateView {
            pending_nfts: s.pending_nfts.skip(0),
            minted_count: (s.minted_count + 0) as u64,
            ..s
        }));
    } else {
        let s1 = mint_next(s);
        assert(mint_outcome(s) is Ok);
        assert forall|j: int| 0 <= j < s1.pending_nfts.len() implies !s1.pending_nfts[j].minted by {
            assert(s1.pending_nfts[j] == s.pending_nfts[j + 1]);
        }
        lemma_mint_many_pops(s1, (n - 1) as nat);
        assert(s.pending_nfts.drop_first().skip(n - 1) =~= s.pending_nfts.skip(n as int));
        assert(mint_many(s, n) =~= (BufferStateView {
            pending_nfts: s.pending_nfts.skip(n as int),
            minted_count: (s.minted_count + n) as u64,
            ..s
        }));
    }
}

/// The queue never exceeds the configured capacity: every operation
/// preserves the length bound, and once the length has reached
/// `buffer_size`, the next producer call fails — with `BufferFull` when it
/// came from the authority — and changes nothing.
pub proof fn lemma_queue_never_exceeds_capacity(s: BufferStateView, caller: AccountId, d: NFTMetadataView)
    requires
        s.wf(),
    ensures
        add_next(s, caller, d).wf(),
        mint_next(s).wf(),
        s.pending_nfts.len() == s.buffer_size ==> add_outcome(s, caller) is Err
            && add_next(s, caller, d) == s,
        s.pending_nfts.len() == s.buffer_size && caller == s.authority
            ==> add_outcome(s, caller) == Err::<(), NFTError>(NFTError::BufferFull),
{
}

/// For every sequence of producer calls, however long and whether or not
/// each call succeeds, the queue length stays within the configured
/// capacity.
pub proof fn lemma_add_all_preserves_bound(s: BufferStateView, caller: AccountId, ds: Seq<NFTMetadataView>)
    requires
        s.wf(),
    ensures
        add_all(s, caller, ds).wf(),
    decreases ds.len(),
{
    if ds.len() != 0 {
        lemma_add_all_preserves_bound(add_next(s, caller, ds.first()), caller, ds.drop_first());
    }
}

/// Authority enforcement: a producer call from any identity other than the
/// stored authority fails with `UnauthorizedAccess` and mutates nothing.
pub proof fn lemma_authority_enforced(s: BufferStateView, caller: AccountId, d: NFTMetadataView)
    requires
        caller != s.authority,
    ensures
        add_outcome(s, caller) == Err::<(), NFTError>(NFTError::UnauthorizedAccess),
        add_next(s, caller, d) == s,
{
}

/// FIFO order: starting from an empty queue, after the authority enqueues
/// the descriptors of `ds` (no more than the capacity), the consumer call
/// number `i` consumes exactly `ds[i]` — the oldest descriptors leave first.
pub proof fn lemma_fifo_order(s0: BufferStateView, caller: AccountId, ds: Seq<NFTMetadataView>, i: int)
    requires
        s0.wf(),
        s0.pending_nfts.len() == 0,
        caller == s0.authority,
        ds.len() <= s0.buffer_size,
        forall|j: int| 0 <= j < ds.len() ==> !ds[j].minted,
        s0.minted_count + i <= u64::MAX,
        0 <= i < ds.len(),
    ensures
        mint_outcome(mint_many(add_all(s0, caller, ds), i as nat))
            == Ok::<NFTMetadataView, NFTError>(ds[i]),
{
    lemma_add_all_appends(s0, caller, ds);
    let s_full = add_all(s0, caller, ds);
    assert(s_full.pending_nfts =~= ds);
    lemma_mint_many_pops(s_full, i as nat);
    assert(mint_many(s_full, i as nat).pending_nfts[0] == ds[i]);
}

/// EmptyBuffer guard: a consumer call against an empty queue fails with
/// `EmptyBuffer` and mutates nothing — in particular, the minted counter
/// keeps its value.
pub proof fn lemma_empty_buffer_guard(s: BufferStateView)
    requires
        s.pending_nfts.len() == 0,
    ensures
        mint_outcome(s) == Err::<NFTMetadataView, NFTError>(NFTError::EmptyBuffer),
        mint_next(s) == s,
{
}

/// Minted counter monotonicity: a successful consumer call raises the
/// counter by exactly one, a failed one leaves the whole state unchanged,
/// and no producer call ever touches the counter.
pub proof fn lemma_minted_count_monotonic(s: BufferStateView, caller: AccountId, d: NFTMetadataView)
    requires
        s.minted_count < u64::MAX,
    ensures
        mint_next(s).minted_count >= s.minted_count,
        mint_outcome(s) is Ok ==> mint_next(s).minted_count == s.minted_count + 1,
        mint_outcome(s) is Err ==> mint_next(s) == s,
        add_next(s, caller, d).minted_count == s.minted_count,
{
}

/// Atomicity of an aborted mint: when the consuming phase has popped
/// descriptor `d`, restoring `d` to the head of the shortened queue yields
/// exactly the state the phase started from — a failed consumer call leaves
/// no partial state behind.
pub proof fn lemma_abort_restores_state(s: BufferStateView, d: NFTMetadataView)
    requires
        mint_outcome(s) == Ok::<NFTMetadataView, NFTError>(d),
    ensures
        (BufferStateView {
            pending_nfts: seq![d] + begin_next(s).pending_nfts,
            ..begin_next(s)
        }) == s,
{
    assert(seq![d] + s.pending_nfts.drop_first() =~= s.pending_nfts);
}

} // verus!
