//! Blocking multi-producer, single-consumer channels, bounded and unbounded, whose state steps
//! are verified; with in-place integer sorts and small helpers that take closures.
pub mod channel;
pub mod func;
pub mod sort;

pub use channel::{
    bounded, unbounded, BoundedReceiver, BoundedSender, UnboundedReceiver, UnboundedSender,
};
