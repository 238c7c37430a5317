//! The host application's configuration model: plain values with the
//! documented defaults, validation rules, and the conversion to the
//! emulator core's own configuration.

use vstd::prelude::*;

verus! {

use crate::api::DisplayConfig;
use crate::api::Ps1EmulatorConfig;
use crate::api::DEFAULT_AUDIO_BUFFER_SIZE;
use crate::rasterizer::RasterizerType;

/// How presentation is synchronized to the display.
#[derive(Debug, Clone, Copy, PartialEq, Eq, Structural)]
pub enum VSyncMode {
    Enabled,
    Disabled,
    Fast,
}

impl Default for VSyncMode {
    /// VSync is enabled by default.
    fn default() -> (r: Self)
        ensures
            r == VSyncMode::Enabled,
    {
        Self::Enabled
    }
}

/// How the frame texture is filtered when scaled.
#[derive(Debug, Clone, Copy, PartialEq, Eq, Structural)]
pub enum FilterMode {
    Linear,
    Nearest,
}

impl Default for FilterMode {
    /// Bilinear filtering by default.
    fn default() -> (r: Self)
        ensures
            r == FilterMode::Linear,
    {
        Self::Linear
    }
}

/// Which rasterizer family the host runs.
#[derive(Debug, Clone, Copy, PartialEq, Eq, Structural)]
pub enum Rasterizer {
    Software,
    Hardware,
}

impl Default for Rasterizer {
    /// The software rasterizer by default.
    fn default() -> (r: Self)
        ensures
            r == Rasterizer::Software,
    {
        Self::Software
    }
}

/// Which graphics backend the hardware rasterizer asks for.
#[derive(Debug, Clone, Copy, PartialEq, Eq, Structural)]
pub enum WgpuBackend {
    Auto,
    Vulkan,
    DirectX12,
    Metal,
}

impl Default for WgpuBackend {
    /// Automatic backend selection by default.
    fn default() -> (r: Self)
        ensures
            r == WgpuBackend::Auto,
    {
        Self::Auto
    }
}

/// Video and rasterizer settings.
#[derive(Debug, Clone, Copy, PartialEq, Eq, Structural)]
pub struct VideoConfig {
    pub vsync_mode: VSyncMode,
    pub filter_mode: FilterMode,
    pub crop_vertical_overscan: bool,
    pub vram_display: bool,
    pub window_width: u32,
    pub window_height: u32,
    pub rasterizer: Rasterizer,
    pub avx2_software_rasterizer: bool,
    pub wgpu_backend: WgpuBackend,
    pub hardware_resolution_scale: u32,
    pub hardware_high_color: bool,
    pub hardware_15bpp_dithering: bool,
    pub async_swap_chain_rendering: bool,
}

/// The video settings every field defaults to.
pub open spec fn spec_video_config_default() -> VideoConfig {
    VideoConfig {
        vsync_mode: VSyncMode::Enabled,
        filter_mode: FilterMode::Linear,
        crop_vertical_overscan: true,
        vram_display: false,
        window_width: 586,
        window_height: 448,
        rasterizer: Rasterizer::Software,
        avx2_software_rasterizer: true,
        wgpu_backend: WgpuBackend::Auto,
        hardware_resolution_scale: 1,
        hardware_high_color: true,
        hardware_15bpp_dithering: true,
        async_swap_chain_rendering: false,
    }
}

impl Default for VideoConfig {
    /// The documented video defaults: a 586 by 448 window, overscan
    /// cropped, software rasterizer with its fast path allowed.
    fn default() -> (r: Self)
        ensures
            r == spec_video_config_default(),
    {
        Self {
            vsync_mode: VSyncMode::Enabled,
            filter_mode: FilterMode::Linear,
            crop_vertical_overscan: true,
            vram_display: false,
            window_width: 586,
            window_height: 448,
            rasterizer: Rasterizer::Software,
            avx2_software_rasterizer: true,
            wgpu_backend: WgpuBackend::Auto,
            hardware_resolution_scale: 1,
            hardware_high_color: true,
            hardware_15bpp_dithering: true,
            async_swap_chain_rendering: false,
        }
    }
}

/// The rasterizer backend a video configuration selects, given whether
/// this machine supports the vectorized software fast path.
pub open spec fn spec_rasterizer_type(c: VideoConfig, avx2_supported: bool) -> RasterizerType {
    let use_simd = c.avx2_software_rasterizer && avx2_supported;
    match c.rasterizer {
        Rasterizer::Software => if use_simd {
            RasterizerType::SimdSoftware
        } else {
            RasterizerType::NaiveSoftware
        },
        Rasterizer::Hardware => RasterizerType::WgpuHardware,
    }
}

impl VideoConfig {
    /// Selects the rasterizer backend; `avx2_supported` says whether
    /// this machine can run the vectorized software rasterizer.
    pub fn rasterizer_type(&self, avx2_supported: bool) -> (r: RasterizerType)
        ensures
            r == spec_rasterizer_type(*self, avx2_supported),
    {
        let use_avx2_software = self.avx2_software_rasterizer && avx2_supported;
        match (self.rasterizer, use_avx2_software) {
            (Rasterizer::Software, false) => RasterizerType::NaiveSoftware,
            (Rasterizer::Software, true) => RasterizerType::SimdSoftware,
            (Rasterizer::Hardware, _) => RasterizerType::WgpuHardware,
        }
    }
}

/// Audio buffering settings.
#[derive(Debug, Clone, Copy, PartialEq, Eq, Structural)]
pub struct AudioConfig {
    pub sync_threshold: u32,
    pub device_queue_size: u16,
    /// Never zero.
    pub internal_buffer_size: u32,
}

/// The audio settings every field defaults to.
pub open spec fn spec_audio_config_default() -> AudioConfig {
    AudioConfig { sync_threshold: 1536, device_queue_size: 1024, internal_buffer_size: DEFAULT_AUDIO_BUFFER_SIZE }
}

impl Default for AudioConfig {
    /// The documented audio defaults.
    fn default() -> (r: Self)
        ensures
            r == spec_audio_config_default(),
            r.internal_buffer_size != 0,
    {
        Self { sync_threshold: 1536, device_queue_size: 1024, internal_buffer_size: DEFAULT_AUDIO_BUFFER_SIZE }
    }
}

/// Whether a value is accepted for the audio sync threshold: any
/// positive sample count.
pub fn is_valid_sync_threshold(value: u32) -> (r: bool)
    ensures
        r == (value != 0),
{
    value != 0
}

/// Whether a value is accepted for the audio device queue size: a power
/// of two of at least 8 samples.
pub fn is_valid_device_queue_size(value: u16) -> (r: bool)
    ensures
        r == (value >= 8 && value & (value - 1) as u16 == 0),
{
    value >= 8 && value & (value - 1) == 0
}

/// Where the host looks for its files.
#[derive(Debug, Clone, PartialEq, Eq)]
pub struct PathsConfig {
    pub bios: Option<String>,
    pub search: Vec<String>,
    pub search_recursively: bool,
}

impl Default for PathsConfig {
    /// No paths configured; recursive search on.
    fn default() -> (r: Self)
        ensures
            r.bios is None,
            r.search@.len() == 0,
            r.search_recursively == true,
    {
        Self { bios: None, search: Vec::new(), search_recursively: true }
    }
}

/// Which file types the file browser lists.
#[derive(Debug, Clone, Copy, PartialEq, Eq, Structural)]
pub struct FiltersConfig {
    pub exe: bool,
    pub cue: bool,
    pub chd: bool,
}

impl Default for FiltersConfig {
    /// Every supported file type listed.
    fn default() -> (r: Self)
        ensures
            r == (FiltersConfig { exe: true, cue: true, chd: true }),
    {
        Self { exe: true, cue: true, chd: true }
    }
}

/// The host application's whole configuration.
#[derive(Debug, Clone, PartialEq, Eq)]
pub struct AppConfig {
    pub video: VideoConfig,
    pub audio: AudioConfig,
    pub paths: PathsConfig,
    pub filters: FiltersConfig,
}

impl Default for AppConfig {
    /// Every section at its documented defaults.
    fn default() -> (r: Self)
        ensures
            r.video == spec_video_config_default(),
            r.audio == spec_audio_config_default(),
            r.paths.bios is None && r.paths.search@.len() == 0 && r.paths.search_recursively,
            r.filters == (FiltersConfig { exe: true, cue: true, chd: true }),
    {
        Self {
            video: VideoConfig::default(),
            audio: AudioConfig::default(),
            paths: PathsConfig::default(),
            filters: FiltersConfig::default(),
        }
    }
}

/// The emulator core configuration an application configuration selects.
pub open spec fn spec_emulator_config(c: AppConfig, avx2_supported: bool) -> Ps1EmulatorConfig {
    Ps1EmulatorConfig {
        display: DisplayConfig {
            crop_vertical_overscan: c.video.crop_vertical_overscan,
            dump_vram: c.video.vram_display,
            rasterizer_type: spec_rasterizer_type(c.video, avx2_supported),
            hardware_resolution_scale: c.video.hardware_resolution_scale,
            high_color: c.video.hardware_high_color,
            dithering_allowed: c.video.hardware_15bpp_dithering,
        },
        internal_audio_buffer_size: c.audio.internal_buffer_size,
    }
}

impl AppConfig {
    /// Builds the emulator core's configuration; `avx2_supported` says
    /// whether this machine can run the vectorized software rasterizer.
    pub fn to_emulator_config(&self, avx2_supported: bool) -> (r: Ps1EmulatorConfig)
        ensures
            r == spec_emulator_config(*self, avx2_supported),
    {
        Ps1EmulatorConfig {
            display: DisplayConfig {
                crop_vertical_overscan: self.video.crop_vertical_overscan,
                dump_vram: self.video.vram_display,
                rasterizer_type: self.video.rasterizer_type(avx2_supported),
                hardware_resolution_scale: self.video.hardware_resolution_scale,
                high_color: self.video.hardware_high_color,
                dithering_allowed: self.video.hardware_15bpp_dithering,
            },
            internal_audio_buffer_size: self.audio.internal_buffer_size,
        }
    }
}

} // verus!
