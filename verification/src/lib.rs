//! A deterministic registry of uniquely identified, breedable digital
//! assets ("kitties"): each carries an immutable 16-byte genetic code and
//! exactly one owner, and can be combined with another asset to derive a
//! new one. The registry is mutated only by the three atomic operations
//! `create`, `transfer` and `breed`.

pub mod dna;
pub mod origin;
pub mod registry;

pub use dna::{combine_dna, combined_code, spec_combine_dna, Kitty};
pub use origin::{EnsureDumbo, RawOrigin};
pub use registry::{Error, Event, Registry, RegistryView};
