//! Error kinds and the replenishment signal event.

use vstd::prelude::*;

verus! {

/// The terminal error kinds an operation can surface. There is no internal
/// recovery or retry: every kind aborts the invoking call as a whole.
#[derive(Clone, Copy, Debug, PartialEq, Eq, Structural)]
pub enum NFTError {
    /// A producer call came from an identity other than the stored authority.
    UnauthorizedAccess,
    /// A producer call was attempted while the queue already holds
    /// `buffer_size` descriptors.
    BufferFull,
    /// A consumer call was attempted while the queue is empty.
    EmptyBuffer,
    /// The popped descriptor was already marked minted.
    InvalidMetadata,
    /// An external collaborator reported failure during a mint; the host maps
    /// such failures to this kind after rolling the queue back.
    MintFailed,
}

/// The replenishment signal: raised after a mint when the remaining queue
/// length has dropped to or below `min_buffer_threshold`. Fire-and-forget
/// notification, not a state mutation.
#[derive(Clone, Copy, Debug, PartialEq, Eq, Structural)]
pub struct GenerateMoreNFTsEvent {
    /// Queue length remaining after the pop.
    pub current_buffer_size: u64,
    /// The configured capacity the producer should refill towards.
    pub required_size: u64,
}

} // verus!
