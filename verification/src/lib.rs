//! On-demand screen and window capture: surface discovery, frame encoding,
//! and a capture session state machine with pull and push frame delivery.
//!
//! The platform pixel-grab primitives (enumerating monitors and windows,
//! reading raw framebuffers, clocks, threads and the transport layer) live
//! outside this library; they hand in plain values — surface descriptions,
//! raw RGBA buffers, clock readings in milliseconds — and take plain values
//! back. Image compression and base64 rendering are delegated to their
//! crates through a few trusted wrappers in `codec`.

pub mod codec;
pub mod error;
pub mod mobile;
pub mod order;
pub mod session;
pub mod targets;
pub mod text;
