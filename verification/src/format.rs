//! Texture formats that a skybox pass renders to or tests depth against.

use vstd::prelude::*;

verus! {

/// The texel formats a skybox pipeline is built with.
#[derive(Clone, Copy, Debug, PartialEq, Eq, Hash, Structural)]
pub enum TextureFormat {
    /// Four 8-bit normalized channels, sRGB encoded.
    Rgba8UnormSrgb,
    /// Four 16-bit floating channels.
    Rgba16Float,
    /// One 32-bit floating depth channel.
    Depth32Float,
}

/// Format of the main texture of a view that renders in high dynamic range.
pub const TEXTURE_FORMAT_HDR: TextureFormat = TextureFormat::Rgba16Float;

/// Format of the depth texture that the 3D passes share.
pub const CORE_3D_DEPTH_FORMAT: TextureFormat = TextureFormat::Depth32Float;

impl TextureFormat {
    /// Format of the main texture of a view that does not render in high
    /// dynamic range.
    pub open spec fn spec_bevy_default() -> TextureFormat {
        TextureFormat::Rgba8UnormSrgb
    }

    #[verifier::when_used_as_spec(spec_bevy_default)]
    pub fn bevy_default() -> (format: TextureFormat)
        ensures
            format == Self::spec_bevy_default(),
    {
        TextureFormat::Rgba8UnormSrgb
    }

    /// The main texture format of a view, by whether it renders in high
    /// dynamic range.
    pub open spec fn spec_of_view(hdr: bool) -> TextureFormat {
        if hdr {
            TEXTURE_FORMAT_HDR
        } else {
            Self::spec_bevy_default()
        }
    }
}

} // verus!
