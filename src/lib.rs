//! Data structures for the glTF extensions of the VRM avatar format, with
//! verified decoders from JSON values and encoders back to them.
//!
//! Four extensions are covered: the legacy `VRM` 0.0 extension and the 1.0
//! extensions `VRMC_vrm`, `VRMC_springBone` and `VRMC_materials_mtoon`. Each
//! entity implements [`codec::Codec`]: its decoder succeeds exactly on the JSON
//! values that it accepts and returns the entity that the value denotes, and
//! decoding what its encoder writes gives the entity back.
pub mod json;
pub mod codec;
pub mod normalize;
pub mod vrm_0_0;
pub mod vrmc_vrm_1_0;
pub mod vrmc_spring_bone_1_0;
pub mod vrmc_materials_mtoon_1_0;
