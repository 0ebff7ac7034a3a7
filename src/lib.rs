//! A one-layer tile map scene and the texture-usage patch applied to
//! freshly created images, modelled with plain values and verified.

pub mod usage;
pub mod layer;
pub mod scene;
pub mod normalizer;
