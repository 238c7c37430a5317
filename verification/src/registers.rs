//! The GPU's display and DMA control registers, and the status word the
//! CPU reads back.

use vstd::prelude::*;

verus! {

use crate::api::spec_color_depth_bit;
use crate::api::ColorDepthBits;
use crate::gp0::spec_semi_transparency_bits;
use crate::gp0::spec_texture_color_depth_bits;
use crate::gp0::Gp0CommandState;
use crate::gp0::Gp0State;
use crate::gp0::Gp0View;

/// How the GPU's DMA channel is wired.
#[derive(Debug, Clone, Copy, PartialEq, Eq, Structural)]
pub enum DmaMode {
    Off,
    Fifo,
    CpuToGpu,
    GpuToCpu,
}

/// The DMA mode selected by the low 2 bits.
pub open spec fn spec_dma_mode(bits: u32) -> DmaMode {
    if bits & 3 == 0 {
        DmaMode::Off
    } else if bits & 3 == 1 {
        DmaMode::Fifo
    } else if bits & 3 == 2 {
        DmaMode::CpuToGpu
    } else {
        DmaMode::GpuToCpu
    }
}

/// The mode's 2-bit encoding, the inverse of [`spec_dma_mode`].
pub open spec fn spec_dma_mode_bits(m: DmaMode) -> u32 {
    match m {
        DmaMode::Off => 0,
        DmaMode::Fifo => 1,
        DmaMode::CpuToGpu => 2,
        DmaMode::GpuToCpu => 3,
    }
}

impl DmaMode {
    /// Decodes the DMA mode from the low 2 bits.
    pub fn from_bits(bits: u32) -> (r: Self)
        ensures
            r == spec_dma_mode(bits),
    {
        proof {
            crate::lemma_word_mask_bound(bits, 3);
        }
        match bits & 3 {
            0 => Self::Off,
            1 => Self::Fifo,
            2 => Self::CpuToGpu,
            _ => Self::GpuToCpu,
        }
    }

    /// The mode's 2-bit encoding.
    pub fn to_bits(self) -> (r: u32)
        ensures
            r == spec_dma_mode_bits(self),
    {
        match self {
            Self::Off => 0,
            Self::Fifo => 1,
            Self::CpuToGpu => 2,
            Self::GpuToCpu => 3,
        }
    }
}

/// The horizontal display resolution.
#[derive(Debug, Clone, Copy, PartialEq, Eq, Structural)]
pub enum HorizontalResolution {
    /// 256 pixels
    TwoFiftySix,
    /// 320 pixels
    ThreeTwenty,
    /// 512 pixels
    FiveTwelve,
    /// 640 pixels
    SixForty,
}

/// The horizontal resolution selected by the low 2 bits.
pub open spec fn spec_h_resolution(bits: u32) -> HorizontalResolution {
    if bits & 3 == 0 {
        HorizontalResolution::TwoFiftySix
    } else if bits & 3 == 1 {
        HorizontalResolution::ThreeTwenty
    } else if bits & 3 == 2 {
        HorizontalResolution::FiveTwelve
    } else {
        HorizontalResolution::SixForty
    }
}

/// The resolution's 2-bit encoding, the inverse of
/// [`spec_h_resolution`].
pub open spec fn spec_h_resolution_bits(r: HorizontalResolution) -> u32 {
    match r {
        HorizontalResolution::TwoFiftySix => 0,
        HorizontalResolution::ThreeTwenty => 1,
        HorizontalResolution::FiveTwelve => 2,
        HorizontalResolution::SixForty => 3,
    }
}

/// CPU cycles per dot at each horizontal resolution.
pub open spec fn spec_h_resolution_divider(r: HorizontalResolution) -> u16 {
    match r {
        HorizontalResolution::TwoFiftySix => 10,
        HorizontalResolution::ThreeTwenty => 8,
        HorizontalResolution::FiveTwelve => 5,
        HorizontalResolution::SixForty => 4,
    }
}

/// CPU cycles per dot when the 368-pixel override is active.
pub const H368_DOT_CLOCK_DIVIDER: u16 = 7;

impl HorizontalResolution {
    /// Decodes the resolution from the low 2 bits.
    pub fn from_bits(bits: u32) -> (r: Self)
        ensures
            r == spec_h_resolution(bits),
    {
        proof {
            crate::lemma_word_mask_bound(bits, 3);
        }
        match bits & 3 {
            0 => Self::TwoFiftySix,
            1 => Self::ThreeTwenty,
            2 => Self::FiveTwelve,
            _ => Self::SixForty,
        }
    }

    /// The resolution's 2-bit encoding.
    pub fn to_bits(self) -> (r: u32)
        ensures
            r == spec_h_resolution_bits(self),
    {
        match self {
            Self::TwoFiftySix => 0,
            Self::ThreeTwenty => 1,
            Self::FiveTwelve => 2,
            Self::SixForty => 3,
        }
    }

    /// The dot clock divider this resolution runs the display at.
    pub fn dot_clock_divider(self) -> (d: u16)
        ensures
            d == spec_h_resolution_divider(self),
    {
        match self {
            Self::TwoFiftySix => 10,
            Self::ThreeTwenty => 8,
            Self::FiveTwelve => 5,
            Self::SixForty => 4,
        }
    }
}

/// The vertical display resolution.
#[derive(Debug, Clone, Copy, PartialEq, Eq, Structural)]
pub enum VerticalResolution {
    /// 240 pixels
    Single,
    /// 480 pixels, interlaced
    Double,
}

/// The resolution's 1-bit encoding.
pub open spec fn spec_v_resolution_bit(r: VerticalResolution) -> u32 {
    match r {
        VerticalResolution::Single => 0,
        VerticalResolution::Double => 1,
    }
}

impl VerticalResolution {
    /// Decodes the resolution from one bit.
    pub fn from_bit(bit: bool) -> (r: Self)
        ensures
            r == (if bit { VerticalResolution::Double } else { VerticalResolution::Single }),
    {
        if bit {
            Self::Double
        } else {
            Self::Single
        }
    }

    /// The resolution's 1-bit encoding.
    pub fn to_bit(self) -> (r: u32)
        ensures
            r == spec_v_resolution_bit(self),
    {
        match self {
            Self::Single => 0,
            Self::Double => 1,
        }
    }
}

/// The television signal standard the display drives.
#[derive(Debug, Clone, Copy, PartialEq, Eq, Structural)]
pub enum VideoMode {
    /// 60 Hz
    Ntsc,
    /// 50 Hz
    Pal,
}

/// The mode's 1-bit encoding.
pub open spec fn spec_video_mode_bit(m: VideoMode) -> u32 {
    match m {
        VideoMode::Ntsc => 0,
        VideoMode::Pal => 1,
    }
}

impl VideoMode {
    /// Decodes the mode from one bit.
    pub fn from_bit(bit: bool) -> (r: Self)
        ensures
            r == (if bit { VideoMode::Pal } else { VideoMode::Ntsc }),
    {
        if bit {
            Self::Pal
        } else {
            Self::Ntsc
        }
    }

    /// The mode's 1-bit encoding.
    pub fn to_bit(self) -> (r: u32)
        ensures
            r == spec_video_mode_bit(self),
    {
        match self {
            Self::Ntsc => 0,
            Self::Pal => 1,
        }
    }
}

/// Display timing facts supplied by the timer unit for one status read.
#[derive(Debug, Clone, Copy, PartialEq, Eq, Structural)]
pub struct GpuStatus {
    pub in_vblank: bool,
    pub odd_scanline: bool,
    pub odd_frame: bool,
}

/// The GPU's display control registers.
#[derive(Debug, Clone, Copy, PartialEq, Eq)]
pub struct Registers {
    pub irq: bool,
    pub display_enabled: bool,
    pub dma_mode: DmaMode,
    pub display_area_x: u32,
    pub display_area_y: u32,
    pub x_display_range: (u32, u32),
    pub y_display_range: (u32, u32),
    pub h_resolution: HorizontalResolution,
    pub v_resolution: VerticalResolution,
    pub video_mode: VideoMode,
    pub display_area_color_depth: ColorDepthBits,
    pub interlaced: bool,
    pub force_h_368px: bool,
}

/// The display registers at reset: display disabled, default ranges.
pub open spec fn spec_registers_reset() -> Registers {
    Registers {
        irq: false,
        display_enabled: false,
        dma_mode: DmaMode::Off,
        display_area_x: 0,
        display_area_y: 0,
        x_display_range: (0x200, 0xC00),
        y_display_range: (0x010, 0x100),
        h_resolution: HorizontalResolution::TwoFiftySix,
        v_resolution: VerticalResolution::Single,
        video_mode: VideoMode::Ntsc,
        display_area_color_depth: ColorDepthBits::Fifteen,
        interlaced: false,
        force_h_368px: false,
    }
}

/// Whether the engine state reports "ready to receive a command".
pub open spec fn spec_ready_to_receive_command(gp0: Gp0View) -> bool {
    gp0.command_state is WaitingForCommand
}

/// Whether the engine state reports "ready to send VRAM to the CPU".
pub open spec fn spec_ready_to_send_vram(gp0: Gp0View) -> bool {
    gp0.command_state is SendingToCpu
}

/// Whether the engine state reports "ready to receive a DMA block".
pub open spec fn spec_ready_to_receive_dma(gp0: Gp0View) -> bool {
    gp0.command_state is WaitingForCommand || gp0.command_state is SendingToCpu
        || gp0.command_state is ReceivingFromCpu
}

/// The status word's DMA request bit, which follows the DMA mode.
pub open spec fn spec_dma_request(regs: Registers, gp0: Gp0View) -> u32 {
    match regs.dma_mode {
        DmaMode::Off => 0,
        DmaMode::Fifo => 1,
        DmaMode::CpuToGpu => if spec_ready_to_receive_dma(gp0) { 1 } else { 0 },
        DmaMode::GpuToCpu => if spec_ready_to_send_vram(gp0) { 1 } else { 0 },
    }
}

/// The status word's interlaced field bit for this read.
pub open spec fn spec_interlaced_bit(regs: Registers, status: GpuStatus) -> bool {
    if regs.interlaced {
        !status.in_vblank && status.odd_frame
    } else {
        !status.in_vblank && status.odd_scanline
    }
}

/// The GPU status word: texture page and draw settings in the low bits,
/// display configuration and readiness flags above them.
pub open spec fn spec_read_status(regs: Registers, gp0: Gp0View, status: GpuStatus) -> u32 {
    (gp0.global_texture_page.x_base
        | ((gp0.global_texture_page.y_base / 256) << 4)
        | (spec_semi_transparency_bits(gp0.global_texture_page.semi_transparency_mode) << 5)
        | (spec_texture_color_depth_bits(gp0.global_texture_page.color_depth) << 7)
        | ((if gp0.draw_settings.dithering_enabled { 1u32 } else { 0u32 }) << 9)
        | ((if gp0.draw_settings.drawing_in_display_allowed { 1u32 } else { 0u32 }) << 10)
        | ((if gp0.draw_settings.force_mask_bit { 1u32 } else { 0u32 }) << 11)
        | ((if gp0.draw_settings.check_mask_bit { 1u32 } else { 0u32 }) << 12)
        | (1u32 << 13)
        | ((if regs.force_h_368px { 1u32 } else { 0u32 }) << 16)
        | (spec_h_resolution_bits(regs.h_resolution) << 17)
        | (spec_v_resolution_bit(regs.v_resolution) << 19)
        | (spec_video_mode_bit(regs.video_mode) << 20)
        | (spec_color_depth_bit(regs.display_area_color_depth) << 21)
        | ((if regs.interlaced { 1u32 } else { 0u32 }) << 22)
        | ((if !regs.display_enabled { 1u32 } else { 0u32 }) << 23)
        | ((if regs.irq { 1u32 } else { 0u32 }) << 24)
        | (spec_dma_request(regs, gp0) << 25)
        | ((if spec_ready_to_receive_command(gp0) { 1u32 } else { 0u32 }) << 26)
        | ((if spec_ready_to_send_vram(gp0) { 1u32 } else { 0u32 }) << 27)
        | ((if spec_ready_to_receive_dma(gp0) { 1u32 } else { 0u32 }) << 28)
        | (spec_dma_mode_bits(regs.dma_mode) << 29)
        | ((if spec_interlaced_bit(regs, status) { 1u32 } else { 0u32 }) << 31)) as u32
}

impl Registers {
    /// The display registers at reset.
    pub fn new() -> (r: Self)
        ensures
            r == spec_registers_reset(),
    {
        Self {
            irq: false,
            display_enabled: false,
            dma_mode: DmaMode::Off,
            display_area_x: 0,
            display_area_y: 0,
            x_display_range: (0x200, 0xC00),
            y_display_range: (0x010, 0x100),
            h_resolution: HorizontalResolution::TwoFiftySix,
            v_resolution: VerticalResolution::Single,
            video_mode: VideoMode::Ntsc,
            display_area_color_depth: ColorDepthBits::Fifteen,
            interlaced: false,
            force_h_368px: false,
        }
    }

    /// Assembles the GPU status word out of the display registers, the
    /// command engine's state, and the timer unit's display position.
    pub fn read_status(&self, gp0_state: &Gp0State, status: GpuStatus) -> (r: u32)
        requires
            gp0_state@.global_texture_page.x_base <= 0xF,
            gp0_state@.global_texture_page.y_base == 0 || gp0_state@.global_texture_page.y_base == 256,
        ensures
            r == spec_read_status(*self, gp0_state@, status),
    {
        let ready_to_receive_command = matches!(gp0_state.command_state, Gp0CommandState::WaitingForCommand);
        let ready_to_send_vram = matches!(gp0_state.command_state, Gp0CommandState::SendingToCpu(_));
        let ready_to_receive_dma = matches!(
            gp0_state.command_state,
            Gp0CommandState::WaitingForCommand
                | Gp0CommandState::SendingToCpu(_)
                | Gp0CommandState::ReceivingFromCpu(_),
        );

        let dma_request: u32 = match self.dma_mode {
            DmaMode::Off => 0,
            DmaMode::Fifo => 1,
            DmaMode::CpuToGpu => if ready_to_receive_dma { 1 } else { 0 },
            DmaMode::GpuToCpu => if ready_to_send_vram { 1 } else { 0 },
        };

        let interlaced_bit = if self.interlaced {
            !status.in_vblank && status.odd_frame
        } else {
            !status.in_vblank && status.odd_scanline
        };

        gp0_state.global_texture_page.x_base
            | ((gp0_state.global_texture_page.y_base / 256) << 4)
            | (gp0_state.global_texture_page.semi_transparency_mode.to_bits() << 5)
            | (gp0_state.global_texture_page.color_depth.to_bits() << 7)
            | ((if gp0_state.draw_settings.dithering_enabled { 1u32 } else { 0u32 }) << 9)
            | ((if gp0_state.draw_settings.drawing_in_display_allowed { 1u32 } else { 0u32 }) << 10)
            | ((if gp0_state.draw_settings.force_mask_bit { 1u32 } else { 0u32 }) << 11)
            | ((if gp0_state.draw_settings.check_mask_bit { 1u32 } else { 0u32 }) << 12)
            | (1u32 << 13)
            | ((if self.force_h_368px { 1u32 } else { 0u32 }) << 16)
            | (self.h_resolution.to_bits() << 17)
            | (self.v_resolution.to_bit() << 19)
            | (self.video_mode.to_bit() << 20)
            | (self.display_area_color_depth.to_bit() << 21)
            | ((if self.interlaced { 1u32 } else { 0u32 }) << 22)
            | ((if !self.display_enabled { 1u32 } else { 0u32 }) << 23)
            | ((if self.irq { 1u32 } else { 0u32 }) << 24)
            | (dma_request << 25)
            | ((if ready_to_receive_command { 1u32 } else { 0u32 }) << 26)
            | ((if ready_to_send_vram { 1u32 } else { 0u32 }) << 27)
            | ((if ready_to_receive_dma { 1u32 } else { 0u32 }) << 28)
            | (self.dma_mode.to_bits() << 29)
            | ((if interlaced_bit { 1u32 } else { 0u32 }) << 31)
    }

    /// The dot clock divider in force: the 368-pixel override wins over
    /// the selected horizontal resolution.
    pub fn dot_clock_divider(&self) -> (d: u16)
        ensures
            d == (if self.force_h_368px { H368_DOT_CLOCK_DIVIDER } else { spec_h_resolution_divider(self.h_resolution) }),
    {
        if self.force_h_368px {
            H368_DOT_CLOCK_DIVIDER
        } else {
            self.h_resolution.dot_clock_divider()
        }
    }
}

} // verus!
