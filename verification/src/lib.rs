//! Verified core of the Turbine engine: run-length compressed triangle masks,
//! tile scheduling arithmetic, virtual triangle lists and the reactive geometry
//! document.

pub mod index_flag;
pub mod mask;
pub mod geometry;
pub mod tile;
pub mod produce;
pub mod triangle;
pub mod consume;
pub mod profile;
pub mod reactive;
pub mod scene;
pub mod world;

pub use index_flag::IndexFlag;
pub use mask::CompressedMasks;
