//! Tests of the geometry engine's perspective transform, the fixed-point
//! helpers, and the GPU status register.

use ps1_core::api::ColorDepthBits;
use ps1_core::fixedpoint::division_result;
use ps1_core::fixedpoint::matrix_component;
use ps1_core::fixedpoint::rgb;
use ps1_core::fixedpoint::vector16_component;
use ps1_core::fixedpoint::FixedPointDecimal;
use ps1_core::gp0::Gp0State;
use ps1_core::gte::Flag;
use ps1_core::gte::GeometryTransformationEngine;
use ps1_core::gte::Register;
use ps1_core::registers::GpuStatus;
use ps1_core::registers::HorizontalResolution;
use ps1_core::registers::Registers;

#[test]
fn fixed_point_shift_and_clip() {
    let v = FixedPointDecimal::<0>::new(3);
    let up: FixedPointDecimal<12> = v.shift_to();
    assert_eq!(up.0, 3 << 12);
    let down: FixedPointDecimal<0> = up.shift_to();
    assert_eq!(down.0, 3);

    // Scaling down rounds toward minus infinity, as an arithmetic shift
    // does.
    let negative = FixedPointDecimal::<12>::new(-5);
    let down: FixedPointDecimal<0> = negative.shift_to();
    assert_eq!(down.0, -1);

    let wide = FixedPointDecimal::<0>::new(0x1_2345_6789);
    assert_eq!(wide.clip_to_i32().0, 0x2345_6789);
    let wrapped = FixedPointDecimal::<0>::new(0xFFFF_FFFF);
    assert_eq!(wrapped.clip_to_i32().0, -1);
}

#[test]
fn fixed_point_constructors_sign_extend() {
    assert_eq!(vector16_component(0x8000).0, -0x8000);
    assert_eq!(vector16_component(0x7FFF).0, 0x7FFF);
    assert_eq!(matrix_component(0xFFFF).0, -1);
    assert_eq!(division_result(0x1FFFF).0, 0x1FFFF);
    let [r, g, b] = rgb(0x00C08040);
    assert_eq!((r.0, g.0, b.0), (0x40, 0x80, 0xC0));
}

#[test]
fn fixed_point_arithmetic() {
    let a = FixedPointDecimal::<12>::new(100);
    let b = FixedPointDecimal::<12>::new(23);
    assert_eq!(a.plus(b).0, 123);
    assert_eq!(a.minus(b).0, 77);
    let m = FixedPointDecimal::<12>::new(3);
    let v = FixedPointDecimal::<0>::new(-7);
    let p: FixedPointDecimal<12> = m.times(v);
    assert_eq!(p.0, -21);
    let re: FixedPointDecimal<4> = a.reinterpret();
    assert_eq!(re.0, 100);
}

fn identity_gte() -> GeometryTransformationEngine {
    let mut gte = GeometryTransformationEngine { r: [0; 64] };
    // Identity rotation matrix: 1.0 is 0x1000 at 12 fraction bits.
    gte.r[Register::RT1112] = 0x1000; // R11 low, R12 high
    gte.r[Register::RT1112 + 2] = 0x1000; // R22 low, R23 high
    gte.r[Register::RT1112 + 4] = 0x1000; // R33
    gte
}

#[test]
fn rtps_projects_a_vertex_through_the_hardware_divide() {
    let mut gte = identity_gte();
    gte.r[Register::VXY0] = 1 | (2 << 16);
    gte.r[Register::VZ0] = 100;
    gte.r[Register::H] = 100;

    // sf set: MAC results are shifted down 12 bits.
    gte.rtps(1 << 19);

    assert_eq!(gte.r[Register::MAC1], 1);
    assert_eq!(gte.r[Register::MAC2], 2);
    assert_eq!(gte.r[Register::MAC3], 100);
    assert_eq!(gte.r[Register::IR1], 1);
    assert_eq!(gte.r[Register::IR2], 2);
    assert_eq!(gte.r[Register::IR3], 100);
    assert_eq!(gte.r[Register::SZ3], 100);
    // H / SZ3 is exactly 1.0 here, so the screen position is the vertex.
    assert_eq!(gte.r[Register::SXY2], 1 | (2 << 16));
    assert_eq!(gte.r[Register::FLAG], 0);
}

#[test]
fn rtps_flags_a_divide_overflow() {
    let mut gte = identity_gte();
    gte.r[Register::VZ0] = 1;
    gte.r[Register::H] = 0xFFFF;

    gte.rtps(1 << 19);

    assert_ne!(gte.r[Register::FLAG] & Flag::DIVIDE_OVERFLOW, 0);
    assert_ne!(gte.r[Register::FLAG] & Flag::ERROR, 0);
}

#[test]
fn rtpt_pushes_three_vertices_through_the_fifos() {
    let mut gte = identity_gte();
    gte.r[Register::VXY0] = 1 | (1 << 16);
    gte.r[Register::VZ0] = 100;
    gte.r[Register::VXY1] = 2 | (2 << 16);
    gte.r[Register::VZ1] = 100;
    gte.r[Register::VXY2] = 3 | (3 << 16);
    gte.r[Register::VZ2] = 100;
    gte.r[Register::H] = 100;

    gte.rtpt(1 << 19);

    assert_eq!(gte.r[Register::SXY0], 1 | (1 << 16));
    assert_eq!(gte.r[Register::SXY1], 2 | (2 << 16));
    assert_eq!(gte.r[Register::SXY2], 3 | (3 << 16));
    assert_eq!(gte.r[Register::SZ1], 100);
    assert_eq!(gte.r[Register::SZ2], 100);
    assert_eq!(gte.r[Register::SZ3], 100);
}

#[test]
fn status_register_assembles_its_bits() {
    let registers = Registers::new();
    let gp0 = Gp0State::new();
    let status = GpuStatus { in_vblank: false, odd_scanline: false, odd_frame: false };
    let value = registers.read_status(&gp0, status);
    // Hardcoded bit 13, display disabled (bit 23), ready to receive a
    // command (bit 26) and DMA (bit 28).
    assert_eq!(value, (1 << 13) | (1 << 23) | (1 << 26) | (1 << 28));
}

#[test]
fn dot_clock_divider_follows_resolution_and_override() {
    let mut registers = Registers::new();
    assert_eq!(registers.dot_clock_divider(), 10);
    registers.h_resolution = HorizontalResolution::SixForty;
    assert_eq!(registers.dot_clock_divider(), 4);
    registers.force_h_368px = true;
    assert_eq!(registers.dot_clock_divider(), 7);
}

#[test]
fn display_register_decoders() {
    assert_eq!(HorizontalResolution::from_bits(2), HorizontalResolution::FiveTwelve);
    assert_eq!(ColorDepthBits::from_bit(true), ColorDepthBits::TwentyFour);
    let registers = Registers::new();
    assert_eq!(registers.x_display_range, (0x200, 0xC00));
    assert_eq!(registers.y_display_range, (0x010, 0x100));
}
