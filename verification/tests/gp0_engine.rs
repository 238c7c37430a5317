//! Tests of the GP0 command engine: framing, parameter counts, dispatch,
//! settings, and the streamed VRAM transfer paths.

use ps1_core::gp0::Color;
use ps1_core::gp0::DrawCommand;
use ps1_core::gp0::Gp0CommandState;
use ps1_core::gp0::Gpu;
use ps1_core::rasterizer::RasterizerCommand;
use ps1_core::rasterizer::Vertex;
use ps1_core::rasterizer::Shading;
use ps1_core::rasterizer::TextureMappingMode;

fn remaining_of(state: Gp0CommandState) -> u8 {
    match state {
        Gp0CommandState::WaitingForParameters { remaining, .. } => remaining,
        _ => panic!("expected WaitingForParameters"),
    }
}

#[test]
fn polygon_parameter_counts_match_formula() {
    for gouraud in [false, true] {
        for quad in [false, true] {
            for textured in [false, true] {
                let word = 0x2000_0000
                    | (u32::from(gouraud) << 28)
                    | (u32::from(quad) << 27)
                    | (u32::from(textured) << 26)
                    | 0x123456;
                let vertex_count: u8 = if quad { 4 } else { 3 };
                let expected = vertex_count * (1 + u8::from(textured))
                    + (vertex_count - 1) * u8::from(gouraud);
                let state = Gp0CommandState::draw_polygon(word);
                assert_eq!(remaining_of(state), expected);
            }
        }
    }
}

#[test]
fn rectangle_parameter_counts_match_formula() {
    for size_bits in 0u32..4 {
        for textured in [false, true] {
            let word = 0x6000_0000 | (size_bits << 27) | (u32::from(textured) << 26) | 0x654321;
            let variable = size_bits == 0;
            let expected = 1 + u8::from(textured) + u8::from(variable);
            let state = Gp0CommandState::draw_rectangle(word);
            assert_eq!(remaining_of(state), expected);
        }
    }
}

#[test]
fn line_parameter_counts_match_gouraud_flag() {
    let flat = Gp0CommandState::draw_line(0x4000_0000);
    assert_eq!(remaining_of(flat), 2);
    let gouraud = Gp0CommandState::draw_line(0x5000_0000);
    assert_eq!(remaining_of(gouraud), 3);
}

#[test]
fn fill_returns_to_waiting_after_exactly_two_words() {
    let mut gpu = Gpu::new();
    let ops = gpu.handle_gp0_write(0x0200_8040);
    assert!(ops.is_empty());
    assert!(matches!(gpu.gp0.command_state, Gp0CommandState::WaitingForParameters { command: DrawCommand::Fill(_), remaining: 2, .. }));

    let ops = gpu.handle_gp0_write(0xDEAD_BEEF);
    assert!(ops.is_empty());
    assert!(matches!(gpu.gp0.command_state, Gp0CommandState::WaitingForParameters { remaining: 1, .. }));

    let ops = gpu.handle_gp0_write(0x1234_5678);
    assert_eq!(ops.len(), 1);
    assert_eq!(gpu.gp0.command_state, Gp0CommandState::WaitingForCommand);

    match ops[0] {
        RasterizerCommand::VramFill { x, y, width, height, color } => {
            assert_eq!(x, 0xBEEF);
            assert_eq!(y, 0xDEAD);
            assert_eq!(width, 0x5678);
            assert_eq!(height, 0x1234);
            assert_eq!(color, Color { r: 0x40, g: 0x80, b: 0x00 });
        },
        _ => panic!("expected a fill dispatch"),
    }
}

fn vertex_word(x: i32, y: i32) -> u32 {
    ((x as u32) & 0xFFFF) | (((y as u32) & 0xFFFF) << 16)
}

#[test]
fn quad_gouraud_textured_dispatches_two_triangles_after_eleven_words() {
    let mut gpu = Gpu::new();
    // Gouraud, quad, textured polygon with inline color (10, 20, 30).
    let command = 0x2000_0000 | (1 << 28) | (1 << 27) | (1 << 26) | 0x1E140A;
    assert!(gpu.handle_gp0_write(command).is_empty());

    let vertices = [(0, 0), (100, 0), (0, 100), (100, 100)];
    let colors = [0x0000FFu32, 0x00FF00, 0xFF0000];
    let tex_words = [0x0000_0201u32, 0x0000_0403, 0x0000_0605, 0x0000_0807];

    let mut words: Vec<u32> = Vec::new();
    for (index, &(x, y)) in vertices.iter().enumerate() {
        if index > 0 {
            words.push(colors[index - 1]);
        }
        words.push(vertex_word(x, y));
        words.push(tex_words[index]);
    }
    assert_eq!(words.len(), 11);

    let mut dispatched: Vec<RasterizerCommand> = Vec::new();
    for (index, &word) in words.iter().enumerate() {
        let ops = gpu.handle_gp0_write(word);
        if index < 10 {
            assert!(ops.is_empty(), "dispatched early at word {index}");
        } else {
            dispatched = ops;
        }
    }

    assert_eq!(gpu.gp0.command_state, Gp0CommandState::WaitingForCommand);
    assert_eq!(dispatched.len(), 2, "a quad must dispatch exactly two triangles");

    let first = match &dispatched[0] {
        RasterizerCommand::DrawTriangle(args, _) => args,
        _ => panic!("expected a triangle dispatch"),
    };
    let second = match &dispatched[1] {
        RasterizerCommand::DrawTriangle(args, _) => args,
        _ => panic!("expected a triangle dispatch"),
    };

    // The first triangle covers vertices 0-2; the second reuses 1-3.
    for i in 0..3 {
        assert_eq!((first.vertices[i].x, first.vertices[i].y), vertices[i]);
        assert_eq!((second.vertices[i].x, second.vertices[i].y), vertices[i + 1]);
    }

    // Colors: vertex 0 from the command word, 1-3 from parameters; the
    // second triangle reuses colors 1-3.
    let expected_colors = [
        Color { r: 10, g: 20, b: 30 },
        Color { r: 0xFF, g: 0, b: 0 },
        Color { r: 0, g: 0xFF, b: 0 },
        Color { r: 0, g: 0, b: 0xFF },
    ];
    match first.shading {
        Shading::Gouraud(cs) => assert_eq!(cs, [expected_colors[0], expected_colors[1], expected_colors[2]]),
        Shading::Flat(_) => panic!("expected Gouraud shading"),
    }
    match second.shading {
        Shading::Gouraud(cs) => assert_eq!(cs, [expected_colors[1], expected_colors[2], expected_colors[3]]),
        Shading::Flat(_) => panic!("expected Gouraud shading"),
    }

    // Texel coordinates follow the vertices the same way.
    let mapping = first.texture_mapping.as_ref().expect("textured polygon");
    assert_eq!(mapping.mode, TextureMappingMode::Modulated);
    assert_eq!(mapping.u, [0x01, 0x03, 0x05]);
    assert_eq!(mapping.v, [0x02, 0x04, 0x06]);
    let mapping2 = second.texture_mapping.as_ref().expect("textured polygon");
    assert_eq!(mapping2.u, [0x03, 0x05, 0x07]);
    assert_eq!(mapping2.v, [0x04, 0x06, 0x08]);
}

#[test]
fn gouraud_polyline_draws_first_segment_with_both_colors() {
    let mut gpu = Gpu::new();
    // Gouraud polyline with first color Ca = (1, 2, 3).
    let command = 0x4000_0000 | (1 << 28) | (1 << 27) | 0x030201;
    assert!(gpu.handle_gp0_write(command).is_empty());

    assert!(gpu.handle_gp0_write(vertex_word(10, 20)).is_empty()); // vertex A
    assert!(gpu.handle_gp0_write(0x060504).is_empty()); // color Cb
    let ops = gpu.handle_gp0_write(vertex_word(30, 40)); // vertex B

    assert_eq!(ops.len(), 1);
    match &ops[0] {
        RasterizerCommand::DrawLine(args, _) => {
            assert_eq!((args.vertices[0].x, args.vertices[0].y), (10, 20));
            assert_eq!((args.vertices[1].x, args.vertices[1].y), (30, 40));
            match args.shading {
                Shading::Gouraud(cs) => {
                    assert_eq!(cs[0], Color { r: 1, g: 2, b: 3 });
                    assert_eq!(cs[1], Color { r: 4, g: 5, b: 6 });
                },
                Shading::Flat(_) => panic!("expected Gouraud shading"),
            }
        },
        _ => panic!("expected a line dispatch"),
    }

    // The engine now waits for the next segment, carrying color Cb.
    match gpu.gp0.command_state {
        Gp0CommandState::WaitingForPolyline(p) => {
            assert_eq!(p.color, Color { r: 4, g: 5, b: 6 });
            assert!(p.gouraud_shading);
        },
        _ => panic!("expected WaitingForPolyline"),
    }

    // The terminator ends the polyline without drawing.
    let ops = gpu.handle_gp0_write(0x5000_5000);
    assert!(ops.is_empty());
    assert_eq!(gpu.gp0.command_state, Gp0CommandState::WaitingForCommand);
}

#[test]
fn flat_polyline_chains_segments_with_carried_vertex_and_color() {
    let mut gpu = Gpu::new();
    // Flat polyline with color (7, 8, 9).
    let command = 0x4000_0000 | (1 << 27) | 0x090807;
    assert!(gpu.handle_gp0_write(command).is_empty());

    assert!(gpu.handle_gp0_write(vertex_word(-5, -6)).is_empty()); // vertex A
    let ops = gpu.handle_gp0_write(vertex_word(7, 8)); // vertex B
    assert_eq!(ops.len(), 1);

    // Feeding vertex C directly draws B -> C with the carried color.
    let ops = gpu.handle_gp0_write(vertex_word(-9, 10));
    assert_eq!(ops.len(), 1);
    match &ops[0] {
        RasterizerCommand::DrawLine(args, _) => {
            assert_eq!((args.vertices[0].x, args.vertices[0].y), (7, 8));
            assert_eq!((args.vertices[1].x, args.vertices[1].y), (-9, 10));
            match args.shading {
                Shading::Flat(c) => assert_eq!(c, Color { r: 7, g: 8, b: 9 }),
                Shading::Gouraud(_) => panic!("expected flat shading"),
            }
        },
        _ => panic!("expected a line dispatch"),
    }

    // A terminator anywhere in the polyline state ends it, whatever its
    // low 12 bits hold.
    assert!(gpu.handle_gp0_write(0x5ABC_5DEF).is_empty());
    assert_eq!(gpu.gp0.command_state, Gp0CommandState::WaitingForCommand);
}

#[test]
fn cpu_blit_two_by_two_lands_in_raster_order() {
    let mut gpu = Gpu::new();
    assert!(gpu.handle_gp0_write(0xA000_0000).is_empty()); // CPU-to-VRAM blit
    assert!(gpu.handle_gp0_write(0x0000_0000).is_empty()); // destination (0, 0)
    assert!(gpu.handle_gp0_write(0x0002_0002).is_empty()); // size 2 x 2

    assert!(matches!(gpu.gp0.command_state, Gp0CommandState::ReceivingFromCpu(_)));

    // Two words carry the four pixels.
    assert!(gpu.handle_gp0_write(0xBBBB_AAAA).is_empty());
    assert!(matches!(gpu.gp0.command_state, Gp0CommandState::ReceivingFromCpu(_)));
    assert!(gpu.handle_gp0_write(0xDDDD_CCCC).is_empty());
    assert_eq!(gpu.gp0.command_state, Gp0CommandState::WaitingForCommand);

    // Raster order: (0,0), (1,0), (0,1), (1,1); 2 bytes per pixel,
    // 2048 bytes per row, low byte first.
    assert_eq!([gpu.vram[0], gpu.vram[1]], [0xAA, 0xAA]);
    assert_eq!([gpu.vram[2], gpu.vram[3]], [0xBB, 0xBB]);
    assert_eq!([gpu.vram[2048], gpu.vram[2049]], [0xCC, 0xCC]);
    assert_eq!([gpu.vram[2050], gpu.vram[2051]], [0xDD, 0xDD]);
}

#[test]
fn vram_copy_moves_pixels_with_wraparound_coordinates() {
    let mut gpu = Gpu::new();
    // Put two pixels at (0, 0) and (1, 0) via a CPU blit.
    gpu.handle_gp0_write(0xA000_0000);
    gpu.handle_gp0_write(0x0000_0000);
    gpu.handle_gp0_write(0x0001_0002);
    gpu.handle_gp0_write(0x2222_1111);

    // Copy the 2x1 region to (4, 1).
    gpu.handle_gp0_write(0x8000_0000);
    gpu.handle_gp0_write(0x0000_0000); // source (0, 0)
    gpu.handle_gp0_write(0x0001_0004); // destination (4, 1)
    let ops = gpu.handle_gp0_write(0x0001_0002); // size 2 x 1
    assert!(ops.is_empty());
    assert_eq!(gpu.gp0.command_state, Gp0CommandState::WaitingForCommand);

    let base = 2048 + 8;
    assert_eq!([gpu.vram[base], gpu.vram[base + 1]], [0x11, 0x11]);
    assert_eq!([gpu.vram[base + 2], gpu.vram[base + 3]], [0x22, 0x22]);
}

#[test]
fn vram_to_cpu_blit_reads_back_written_pixels() {
    let mut gpu = Gpu::new();
    // Write 4 pixels at (0, 0).
    gpu.handle_gp0_write(0xA000_0000);
    gpu.handle_gp0_write(0x0000_0000);
    gpu.handle_gp0_write(0x0002_0002);
    gpu.handle_gp0_write(0xBBBB_AAAA);
    gpu.handle_gp0_write(0xDDDD_CCCC);

    // Start a VRAM-to-CPU blit over the same region.
    gpu.handle_gp0_write(0xC000_0000);
    gpu.handle_gp0_write(0x0000_0000);
    gpu.handle_gp0_write(0x0002_0002);

    let fields = match gpu.gp0.command_state {
        Gp0CommandState::SendingToCpu(fields) => fields,
        _ => panic!("expected SendingToCpu"),
    };
    let word1 = gpu.read_vram_word_for_cpu(fields);
    assert_eq!(word1, 0xBBBB_AAAA);
    let fields = match gpu.gp0.command_state {
        Gp0CommandState::SendingToCpu(fields) => fields,
        _ => panic!("expected SendingToCpu"),
    };
    let word2 = gpu.read_vram_word_for_cpu(fields);
    assert_eq!(word2, 0xDDDD_CCCC);
    assert_eq!(gpu.gp0.command_state, Gp0CommandState::WaitingForCommand);
}

#[test]
fn draw_offset_sign_extends_eleven_bit_fields() {
    let mut gpu = Gpu::new();
    gpu.handle_gp0_write(0xE500_0000 | 0x400);
    assert_eq!(gpu.gp0.draw_settings.draw_offset.0, -1024);

    gpu.handle_gp0_write(0xE500_0000 | 0x3FF);
    assert_eq!(gpu.gp0.draw_settings.draw_offset.0, 1023);

    // The Y offset sits in bits 11-21.
    gpu.handle_gp0_write(0xE500_0000 | (0x400 << 11));
    assert_eq!(gpu.gp0.draw_settings.draw_offset.1, -1024);
    gpu.handle_gp0_write(0xE500_0000 | (0x3FF << 11));
    assert_eq!(gpu.gp0.draw_settings.draw_offset.1, 1023);
}

#[test]
fn texture_page_settings_are_idempotent() {
    let command = 0xE100_0000 | 0x1EBF; // arbitrary texture page fields
    let mut once = Gpu::new();
    once.handle_gp0_write(command);
    let mut twice = Gpu::new();
    twice.handle_gp0_write(command);
    twice.handle_gp0_write(command);

    assert_eq!(once.gp0.global_texture_page, twice.gp0.global_texture_page);
    assert_eq!(once.gp0.draw_settings, twice.gp0.draw_settings);
    assert_eq!(once.gp0.texture_window, twice.gp0.texture_window);
    assert_eq!(once.gp0.command_state, twice.gp0.command_state);
}

#[test]
fn settings_commands_decode_their_fields() {
    let mut gpu = Gpu::new();

    // Texture page: x base 5, y base 256, blend mode 2, depth 1, flips.
    gpu.handle_gp0_write(0xE100_0000 | 5 | (1 << 4) | (2 << 5) | (1 << 7) | (1 << 12) | (1 << 13));
    assert_eq!(gpu.gp0.global_texture_page.x_base, 5);
    assert_eq!(gpu.gp0.global_texture_page.y_base, 256);
    assert!(gpu.gp0.global_texture_page.rectangle_x_flip);
    assert!(gpu.gp0.global_texture_page.rectangle_y_flip);

    // Texture window fields are 5 bits each.
    gpu.handle_gp0_write(0xE200_0000 | 1 | (2 << 5) | (3 << 10) | (4 << 15));
    assert_eq!(gpu.gp0.texture_window.x_mask, 1);
    assert_eq!(gpu.gp0.texture_window.y_mask, 2);
    assert_eq!(gpu.gp0.texture_window.x_offset, 3);
    assert_eq!(gpu.gp0.texture_window.y_offset, 4);

    // Drawing area corners: X is 10 bits, Y is 9.
    gpu.handle_gp0_write(0xE300_0000 | 16 | (32 << 10));
    assert_eq!(gpu.gp0.draw_settings.draw_area_top_left, (16, 32));
    gpu.handle_gp0_write(0xE400_0000 | 639 | (479 << 10));
    assert_eq!(gpu.gp0.draw_settings.draw_area_bottom_right, (639, 479));

    // Mask bit settings.
    gpu.handle_gp0_write(0xE600_0003);
    assert!(gpu.gp0.draw_settings.force_mask_bit);
    assert!(gpu.gp0.draw_settings.check_mask_bit);
}

#[test]
fn color_truncates_to_fifteen_bits() {
    let white = Color { r: 0xFF, g: 0xFF, b: 0xFF };
    assert_eq!(white.truncate_to_15_bit(), 0x7FFF);
    let red = Color { r: 0xFF, g: 0, b: 0 };
    assert_eq!(red.truncate_to_15_bit(), 0x001F);
    let mixed = Color { r: 8, g: 16, b: 24 };
    assert_eq!(mixed.truncate_to_15_bit(), 1 | (2 << 5) | (3 << 10));
}

#[test]
fn rectangle_sizes_decode_from_command_word() {
    let mut gpu = Gpu::new();
    // A 16x16 flat rectangle takes one parameter: the position.
    let ops = {
        gpu.handle_gp0_write(0x6000_0000 | (3 << 27) | 0x101010);
        gpu.handle_gp0_write(vertex_word(5, 6))
    };
    assert_eq!(ops.len(), 1);
    match &ops[0] {
        RasterizerCommand::DrawRectangle(args, _) => {
            assert_eq!((args.top_left.x, args.top_left.y), (5, 6));
            assert_eq!((args.width, args.height), (16, 16));
            assert!(args.texture_mapping.is_none());
        },
        _ => panic!("expected a rectangle dispatch"),
    }

    // A variable-size rectangle reads its size word.
    gpu.handle_gp0_write(0x6000_0000 | 0x0A0B0C);
    gpu.handle_gp0_write(vertex_word(1, 2));
    let ops = gpu.handle_gp0_write(100 | (50 << 16));
    assert_eq!(ops.len(), 1);
    match &ops[0] {
        RasterizerCommand::DrawRectangle(args, _) => {
            assert_eq!((args.width, args.height), (100, 50));
        },
        _ => panic!("expected a rectangle dispatch"),
    }
}

#[test]
fn noop_words_leave_the_engine_idle() {
    let mut gpu = Gpu::new();
    assert!(gpu.handle_gp0_write(0x0000_0000).is_empty());
    assert_eq!(gpu.gp0.command_state, Gp0CommandState::WaitingForCommand);
    assert!(gpu.handle_gp0_write(0x0100_0000).is_empty());
    assert_eq!(gpu.gp0.command_state, Gp0CommandState::WaitingForCommand);
}

#[test]
fn engine_refuses_undefined_words_and_blit_phase_writes() {
    let mut gpu = Gpu::new();
    // Unsupported codes in the miscellaneous family, including the
    // IRQ-flag command, are protocol failures.
    assert!(gpu.accepts_gp0_word(0x0000_0000));
    assert!(gpu.accepts_gp0_word(0x0100_0000));
    assert!(gpu.accepts_gp0_word(0x0200_0000));
    assert!(!gpu.accepts_gp0_word(0x1F00_0000));
    assert!(!gpu.accepts_gp0_word(0x0300_0000));

    // Settings commands outside E1-E6 are undefined.
    assert!(gpu.accepts_gp0_word(0xE100_0000));
    assert!(gpu.accepts_gp0_word(0xE600_0000));
    assert!(!gpu.accepts_gp0_word(0xE000_0000));
    assert!(!gpu.accepts_gp0_word(0xE700_0000));

    // Draw and blit families are always classifiable.
    assert!(gpu.accepts_gp0_word(0x2000_0000));
    assert!(gpu.accepts_gp0_word(0xC000_0000));

    // A write during a VRAM-to-CPU transfer violates the protocol.
    gpu.handle_gp0_write(0xC000_0000);
    gpu.handle_gp0_write(0x0000_0000);
    gpu.handle_gp0_write(0x0001_0001);
    assert!(matches!(gpu.gp0.command_state, Gp0CommandState::SendingToCpu(_)));
    assert!(!gpu.accepts_gp0_word(0x0000_0000));
}

#[test]
fn drawing_area_checks() {
    let mut gpu = Gpu::new();
    gpu.handle_gp0_write(0xE300_0000 | 10 | (20 << 10));
    gpu.handle_gp0_write(0xE400_0000 | 100 | (200 << 10));
    let settings = gpu.gp0.draw_settings;
    assert!(settings.is_drawing_area_valid());
    assert!(settings.drawing_area_contains_vertex(Vertex { x: 10, y: 20 }));
    assert!(settings.drawing_area_contains_vertex(Vertex { x: 100, y: 200 }));
    assert!(!settings.drawing_area_contains_vertex(Vertex { x: 9, y: 20 }));
    assert!(!settings.drawing_area_contains_vertex(Vertex { x: 10, y: 201 }));
    assert!(!settings.drawing_area_contains_vertex(Vertex { x: -1, y: 30 }));
}
