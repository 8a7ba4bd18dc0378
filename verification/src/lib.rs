//! A fixed-capacity ping-pong (double) buffer.
//!
//! Two slots of `N` elements each take turns: the *active* slot accepts
//! writes while the *reserve* slot holds a completed batch that waits to be
//! read. When the active slot fills up the two exchange roles.
//!
//! Every operation of [`PingpongBuffer`] is specified against the
//! mathematical state [`PingpongState`], and the module `laws` proves what
//! follows from those specifications.

pub mod flags;
pub mod laws;
pub mod model;
pub mod pingpong;

pub use flags::{Buffer, BufferCapacity, PingpongBufferError};
pub use model::PingpongState;
pub use pingpong::PingpongBuffer;
