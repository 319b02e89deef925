//! Difficulty and performance calculation for rhythm-game beatmaps.
//!
//! The crate models the integer core of the pipeline: gameplay modifier
//! flags, per-mode difficulty attributes, hit-result bookkeeping for the
//! Catch mode, hit-count reconstruction for the Taiko mode, combo
//! counting for the Standard mode, and score scaling for the Mania
//! mode. The
//! floating-point strain engines and performance formulas that consume
//! these values live outside the verified library.

pub mod fruits;
pub mod mania;
pub mod mods;
pub mod osu;
pub mod result;
pub mod taiko;

pub use fruits::DifficultyAttributes;
pub use fruits::FruitsAttributeProvider;
pub use fruits::FruitsPP;
pub use mods::Mods;
pub use result::PpResult;
pub use result::StarResult;
