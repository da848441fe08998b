//! Storage-and-scheduling core of a small kernel: a byte cursor over a
//! sector device, the DMA page provider handed to the block transport, and
//! a threshold wait driven by a tick counter with its wake queue.

pub mod cursor;
pub mod hal;
pub mod wait;
pub mod startup;
