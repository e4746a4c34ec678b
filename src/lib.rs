use vstd::prelude::*;

pub mod pool;
pub mod channel;
pub mod link;
pub mod device;
pub mod pump;
pub mod echo;
pub mod sched;

verus! {

/// Largest Ethernet frame carried over the link: 1500 payload bytes and a 14-byte header.
pub const MAX_TRANSMISSION_UNIT: u16 = 1514;

} // verus!
