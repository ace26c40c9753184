//! The Grøstl hash function: the permutations P and Q, the compression
//! function, the output transformation and a hasher that takes a message
//! in pieces, with the contracts of all of them proved.

pub mod buffer;
pub mod consts;
pub mod endian;
pub mod field;
pub mod hash;
pub mod hasher;
pub mod inverse;
pub mod laws;
pub mod matrix;
pub mod mds;
pub mod permutation;
pub mod rotation;
pub mod state;

pub use hasher::Groestl;
pub use state::{ConfigError, GroestlState};
