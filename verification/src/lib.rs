//! A skinned, procedurally built character and the rules that drive it.
//!
//! All geometry here is exact integer geometry: rig positions and part
//! dimensions are whole millimetres, and mesh vertex positions are whole
//! half-millimetres, so that halving a part's extent never rounds. The
//! rendering front end turns these into metres.
pub mod geometry;
pub mod skeleton;
pub mod mesh;
pub mod character;
pub mod animation;
pub mod controls;
pub mod ui;
