//! ICMP message header: wire layout, Internet checksum, and the decoding of
//! the `type` and `code` bytes into named message kinds.

pub mod inet;
pub mod text;
pub mod icmp;
