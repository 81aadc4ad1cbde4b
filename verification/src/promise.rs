//! Things that can be waited for.
pub mod latch;
