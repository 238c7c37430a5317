//! Plain configuration values exchanged with a host embedding the
//! emulated device.

use vstd::prelude::*;

verus! {

/// Samples buffered internally before audio is pushed to the host.
pub const DEFAULT_AUDIO_BUFFER_SIZE: u32 = 64;

/// Color depth of the displayed frame buffer area.
#[derive(Debug, Clone, Copy, PartialEq, Eq, Structural)]
pub enum ColorDepthBits {
    Fifteen,
    TwentyFour,
}

/// The depth's 1-bit encoding, as it appears in the GPU status word.
pub open spec fn spec_color_depth_bit(d: ColorDepthBits) -> u32 {
    match d {
        ColorDepthBits::Fifteen => 0,
        ColorDepthBits::TwentyFour => 1,
    }
}

impl ColorDepthBits {
    /// The depth's 1-bit encoding.
    pub fn to_bit(self) -> (r: u32)
        ensures
            r == spec_color_depth_bit(self),
    {
        match self {
            Self::Fifteen => 0,
            Self::TwentyFour => 1,
        }
    }

    /// Decodes the depth from one bit.
    pub fn from_bit(bit: bool) -> (r: Self)
        ensures
            r == (if bit { ColorDepthBits::TwentyFour } else { ColorDepthBits::Fifteen }),
    {
        if bit {
            Self::TwentyFour
        } else {
            Self::Fifteen
        }
    }
}

/// How frames are rendered and displayed.
#[derive(Debug, Clone, Copy, PartialEq, Eq, Structural)]
pub struct DisplayConfig {
    pub crop_vertical_overscan: bool,
    pub dump_vram: bool,
    pub rasterizer_type: crate::rasterizer::RasterizerType,
    pub hardware_resolution_scale: u32,
    pub high_color: bool,
    pub dithering_allowed: bool,
}

/// Everything the emulator core takes from the host configuration.
#[derive(Debug, Clone, Copy, PartialEq, Eq, Structural)]
pub struct Ps1EmulatorConfig {
    pub display: DisplayConfig,
    /// Never zero.
    pub internal_audio_buffer_size: u32,
}

} // verus!
