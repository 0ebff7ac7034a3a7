//! Texture usage flags as raw bits, with the set that the tile atlas needs.

use vstd::prelude::*;
use bevy::render::render_resource::TextureUsages;

verus! {

/// Bit of a texture that may be the source of a copy.
pub const COPY_SRC: u32 = 1;

/// Bit of a texture that may be the destination of a copy.
pub const COPY_DST: u32 = 2;

/// Bit of a texture that may be bound as a sampled texture.
pub const TEXTURE_BINDING: u32 = 4;

/// The usage set given to every newly created image: bindable as a
/// texture, copyable from and copyable to (see `lemma_render_usage_bits`).
pub open spec fn render_usage_spec() -> u32 {
    7
}

/// The render usage is exactly the union of the three flags.
pub proof fn lemma_render_usage_bits()
    ensures
        render_usage_spec() == TEXTURE_BINDING | COPY_SRC | COPY_DST,
        render_usage_spec() & TEXTURE_BINDING != 0,
        render_usage_spec() & COPY_SRC != 0,
        render_usage_spec() & COPY_DST != 0,
        render_usage_spec() & !(TEXTURE_BINDING | COPY_SRC | COPY_DST) == 0,
{
    assert(4u32 | 1u32 | 2u32 == 7u32) by (bit_vector);
    assert(7u32 & 4u32 != 0u32) by (bit_vector);
    assert(7u32 & 1u32 != 0u32) by (bit_vector);
    assert(7u32 & 2u32 != 0u32) by (bit_vector);
    assert(7u32 & !(4u32 | 1u32 | 2u32) == 0u32) by (bit_vector);
}

/// Relies on bevy's `TextureUsages` (from wgpu-types): the union of the
/// `TEXTURE_BINDING`, `COPY_SRC` and `COPY_DST` flags, read back by `bits`.
#[verifier::external_body]
fn render_usage_bits() -> (r: u32)
    ensures
        r == TEXTURE_BINDING | COPY_SRC | COPY_DST,
{
    (TextureUsages::TEXTURE_BINDING | TextureUsages::COPY_SRC | TextureUsages::COPY_DST).bits()
}

/// The raw bits of the usage set given to every newly created image.
pub fn render_usage() -> (r: u32)
    ensures
        r == render_usage_spec(),
{
    let r = render_usage_bits();
    proof {
        lemma_render_usage_bits();
    }
    r
}

} // verus!
