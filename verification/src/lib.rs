//! Generation of random IPv6 Unique Local Address (ULA) prefixes in the
//! `fd00::/8` range, rendered in CIDR notation with a `/64` suffix.

pub mod address;
pub mod hex;
mod rng;
