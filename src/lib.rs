//! Structure-aware fuzz-data engine: generation, mutation and binary encoding of
//! values under numeric-range and byte-budget constraints.

pub mod bitfield;
pub mod buffer;
pub mod composite;
pub mod dangerous_numbers;
pub mod driver;
pub mod hexdump;
pub mod mode;
pub mod mutatable;
pub mod mutator;
pub mod new_fuzzed;
pub mod rng;
pub mod scalar;
pub mod strings;
pub mod traits;
pub mod types;

pub use hexdump::hexdump;
