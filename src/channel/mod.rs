pub mod laws;
pub mod state;
mod sync;
mod bounded;
mod unbounded;

pub use bounded::{bounded, BoundedReceiver, BoundedSender};
pub use unbounded::{unbounded, UnboundedReceiver, UnboundedSender};
