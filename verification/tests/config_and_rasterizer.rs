//! Tests of the host configuration model and the rasterizer interface
//! helpers.

use ps1_core::config::AppConfig;
use ps1_core::config::Rasterizer as RasterizerChoice;
use ps1_core::config::VideoConfig;
use ps1_core::config::is_valid_device_queue_size;
use ps1_core::config::is_valid_sync_threshold;
use ps1_core::gp0::Color;
use ps1_core::gp0::VRAM_LEN;
use ps1_core::rasterizer::Rasterizer;
use ps1_core::rasterizer::RasterizerType;
use ps1_core::rasterizer::Shading;
use ps1_core::rasterizer::Vertex;
use ps1_core::rasterizer::cross_product_z;
use ps1_core::rasterizer::swap_vertices;
use ps1_core::rasterizer::vertices_valid;

#[test]
fn gui_config_default_does_not_panic() {
    let _ = AppConfig::default();
}

#[test]
fn config_defaults_match_their_documentation() {
    let config = AppConfig::default();
    assert_eq!(config.video.window_width, 586);
    assert_eq!(config.video.window_height, 448);
    assert!(config.video.crop_vertical_overscan);
    assert!(config.video.avx2_software_rasterizer);
    assert_eq!(config.video.hardware_resolution_scale, 1);
    assert_eq!(config.audio.sync_threshold, 1536);
    assert_eq!(config.audio.device_queue_size, 1024);
    assert_ne!(config.audio.internal_buffer_size, 0);
    assert!(config.paths.bios.is_none());
    assert!(config.paths.search.is_empty());
    assert!(config.paths.search_recursively);
    assert!(config.filters.exe && config.filters.cue && config.filters.chd);
}

#[test]
fn rasterizer_type_follows_choice_and_avx2() {
    let mut video = VideoConfig::default();
    assert_eq!(video.rasterizer_type(false), RasterizerType::NaiveSoftware);
    assert_eq!(video.rasterizer_type(true), RasterizerType::SimdSoftware);
    video.avx2_software_rasterizer = false;
    assert_eq!(video.rasterizer_type(true), RasterizerType::NaiveSoftware);
    video.rasterizer = RasterizerChoice::Hardware;
    assert_eq!(video.rasterizer_type(true), RasterizerType::WgpuHardware);
}

#[test]
fn emulator_config_copies_the_display_fields() {
    let config = AppConfig::default();
    let core = config.to_emulator_config(false);
    assert!(core.display.crop_vertical_overscan);
    assert!(!core.display.dump_vram);
    assert_eq!(core.display.rasterizer_type, RasterizerType::NaiveSoftware);
    assert_eq!(core.internal_audio_buffer_size, config.audio.internal_buffer_size);
}

#[test]
fn audio_setting_validators() {
    assert!(is_valid_sync_threshold(1));
    assert!(!is_valid_sync_threshold(0));
    assert!(is_valid_device_queue_size(8));
    assert!(is_valid_device_queue_size(1024));
    assert!(!is_valid_device_queue_size(4));
    assert!(!is_valid_device_queue_size(1000));
}

#[test]
fn cross_product_and_distance_limits() {
    let v0 = Vertex { x: 0, y: 0 };
    let v1 = Vertex { x: 10, y: 0 };
    let v2 = Vertex { x: 0, y: 10 };
    assert_eq!(cross_product_z(v0, v1, v2), 100);
    assert_eq!(cross_product_z(v0, v2, v1), -100);

    assert!(vertices_valid(v0, v1));
    assert!(!vertices_valid(Vertex { x: -1000, y: 0 }, Vertex { x: 1023, y: 0 }));
    assert!(!vertices_valid(Vertex { x: 0, y: -500 }, Vertex { x: 0, y: 100 }));
}

#[test]
fn swapping_vertices_keeps_data_per_vertex() {
    let mut vertices = [
        Vertex { x: 1, y: 1 },
        Vertex { x: 2, y: 2 },
        Vertex { x: 3, y: 3 },
    ];
    let mut shading = Shading::Gouraud([
        Color { r: 1, g: 0, b: 0 },
        Color { r: 2, g: 0, b: 0 },
        Color { r: 3, g: 0, b: 0 },
    ]);
    let mut mapping = None;
    swap_vertices(&mut vertices, &mut shading, &mut mapping);
    assert_eq!(vertices[0], Vertex { x: 2, y: 2 });
    assert_eq!(vertices[1], Vertex { x: 1, y: 1 });
    assert_eq!(vertices[2], Vertex { x: 3, y: 3 });
    match shading {
        Shading::Gouraud(colors) => {
            assert_eq!(colors[0], Color { r: 2, g: 0, b: 0 });
            assert_eq!(colors[1], Color { r: 1, g: 0, b: 0 });
            assert_eq!(colors[2], Color { r: 3, g: 0, b: 0 });
        },
        Shading::Flat(_) => panic!("expected Gouraud shading"),
    }
}

#[test]
fn rasterizer_state_round_trips_vram() {
    let mut vram = vec![0u8; VRAM_LEN];
    vram[123] = 45;
    let rasterizer = Rasterizer::from_vram(RasterizerType::NaiveSoftware, vram.clone());
    assert_eq!(rasterizer.clone_vram(), vram);
    let state = rasterizer.to_state();
    assert_eq!(state.vram[123], 45);
    let simd = Rasterizer::from_vram(RasterizerType::SimdSoftware, vram.clone());
    assert!(matches!(simd, Rasterizer::SimdSoftware(_)));
}
