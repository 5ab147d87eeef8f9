//! Encode terminal control sequences (ECMA-48 / ANSI escape codes) as typed
//! values that serialize to exact byte sequences: cursor movement, screen and
//! line erasure, and Select Graphic Rendition (SGR) attributes.
//!
//! Every byte that can reach an escape sequence is held by a range-constrained
//! wrapper type, so only legally-placed bytes are ever emitted; the encoders
//! carry proofs that their output follows the ECMA-48 framing exactly.

pub mod byte_range;
pub mod csi;
pub mod decimal;
pub mod fe_seq;
pub mod sgr;
pub mod helpers;
