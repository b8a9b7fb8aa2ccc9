//! Proof-of-work nonce search for Bitmessage-style messages.
//!
//! A nonce proves work for a 64-byte message digest when its trial value
//! does not exceed a target. The trial value is the double SHA-512 of the
//! big-endian nonce followed by the digest, read as a big-endian 64-bit
//! number from its first eight bytes.
//!
//! * [`encoding`]: the big-endian byte order of nonces and trial values.
//! * [`trial`]: the trial value of a nonce, and the test against a target.
//! * [`partition`]: the division of the nonce space among workers.
//! * [`worker`]: one worker's cancellable walk along its share.
//! * [`search`]: the size of the pool, and the coordinator's bookkeeping of
//!   what the workers report.
//!
//! The library does not start threads. A caller runs [`worker::bmpow`] once
//! per share of [`partition::partition`], feeds the outcomes to a
//! [`search::SearchState`], and raises the shared flag when it has a winner.

pub mod encoding;
pub mod partition;
pub mod search;
pub mod trial;
pub mod worker;
