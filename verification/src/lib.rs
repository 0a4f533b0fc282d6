//! A CHIP-8 virtual machine with a verified fetch-decode-execute core.
//!
//! `Chip8` is the machine. `model::State` is what its contracts speak of, `laws` holds
//! what is proved of every machine, and `buffers` and `utils` hold the few calls into
//! `smallvec` and `rand` that are taken on trust.

pub mod buffers;
pub mod chip8;
pub mod display;
pub mod font;
pub mod instruction;
pub mod laws;
pub mod model;
pub mod utils;

pub use crate::chip8::{Chip8, LoadError};
pub use crate::instruction::{decode, Instruction};
pub use crate::model::Report;
pub use crate::utils::random;
