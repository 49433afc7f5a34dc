//! Raw sockets for IPv4, IPv6 and link-layer frames: the translation between
//! portable socket addresses and the OS's socket address structures, and the
//! decisions that each socket operation makes on what the OS reported.
use vstd::prelude::*;

pub mod addr;
pub mod error;
pub mod order;
pub mod raw;

verus! {

} // verus!
