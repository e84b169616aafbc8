//! A bounded FIFO buffer of pending mintable items and the bookkeeping state
//! machine that turns a pending item into a permanently minted, uniquely
//! identified asset.
//!
//! An authority-controlled producer fills the buffer with metadata
//! descriptors; the minting operation consumes the oldest descriptor,
//! prepares the requests for the external asset-issuance and
//! descriptive-record collaborators, increments the minted counter, and
//! raises a low-watermark replenishment signal so the producer can refill the
//! buffer before it runs empty.
//!
//! The external collaborators themselves (asset issuance and durable metadata
//! storage) are outside this crate: the minting operation returns the exact
//! requests to hand them, and the surrounding host performs the calls.

pub mod error;
pub mod state;
pub mod processor;
pub mod laws;
