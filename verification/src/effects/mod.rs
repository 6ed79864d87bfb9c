//! Building blocks of the effect chain.

pub mod buffer;
pub mod waver;
pub mod room;
