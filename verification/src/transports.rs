//! The backends that come with the library.

pub mod crossbeam;
pub mod futures;

pub use crossbeam::Crossbeam;
pub use futures::FuturesChannel;
