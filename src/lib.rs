pub mod link;
pub mod memory;
pub mod mmap;

pub use link::{Cable, Gameboy};
