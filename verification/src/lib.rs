//! Verified core of a clipboard change-watching library.
//!
//! The library models the lifecycle of a watch session: a one-shot shutdown
//! slot shared between the caller-side handle and the watcher loop
//! ([`session`]), the decision table the watcher loop follows on each
//! observation ([`watcher`]), the order-preserving bridge that carries change
//! notifications into the caller's context ([`bridge`]), and the base64 codec
//! used when clipboard images are shipped as text ([`codec`]).
//!
//! The OS clipboard itself is reached through `clipboard_rs`; the loop that
//! blocks on the OS change source and the caller-facing plumbing live outside
//! this crate and drive the verified pieces here.

pub mod session;
pub mod watcher;
pub mod bridge;
pub mod codec;
