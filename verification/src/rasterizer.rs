//! The rasterizer interface: the data a completed draw command hands to a
//! pixel-filling backend, and small geometry helpers shared with one.
//!
//! The pixel pipelines themselves (scanline conversion, texture sampling,
//! blending) live outside this crate; the engine describes each completed
//! draw as a [`RasterizerCommand`] value.

use vstd::prelude::*;

verus! {

use crate::gp0::Color;
use crate::gp0::DrawSettings;
use crate::gp0::SemiTransparencyMode;
use crate::gp0::TexturePage;
use crate::gp0::TextureWindow;
use crate::gp0::VRAM_LEN;

/// A screen-space vertex; coordinates decoded from command parameters lie
/// in the signed 11-bit range.
#[derive(Debug, Clone, Copy, PartialEq, Eq, Structural)]
pub struct Vertex {
    pub x: i32,
    pub y: i32,
}

impl Color {
    /// Builds a color from its three channels.
    pub fn rgb(r: u8, g: u8, b: u8) -> (c: Self)
        ensures
            c == (Color { r, g, b }),
    {
        Self { r, g, b }
    }
}

/// How a primitive is shaded: one flat color, or one color per vertex
/// interpolated across the primitive.
#[derive(Debug, Clone, Copy)]
pub enum Shading<const N: usize> {
    Flat(Color),
    Gouraud([Color; N]),
}

pub type LineShading = Shading<2>;

pub type TriangleShading = Shading<3>;

/// Whether texels are drawn as read or modulated by the shading color.
#[derive(Debug, Clone, Copy, PartialEq, Eq, Structural)]
pub enum TextureMappingMode {
    Raw,
    Modulated,
}

/// Everything a backend needs to sample a texture for one primitive:
/// page, window, palette location, and per-vertex texel coordinates.
#[derive(Debug, Clone, Copy)]
pub struct TextureMapping<const N: usize> {
    pub mode: TextureMappingMode,
    pub texpage: TexturePage,
    pub window: TextureWindow,
    pub clut_x: u16,
    pub clut_y: u16,
    pub u: [u8; N],
    pub v: [u8; N],
}

pub type TriangleTextureMapping = TextureMapping<3>;

pub type RectangleTextureMapping = TextureMapping<1>;

/// One triangle, ready to rasterize.
#[derive(Debug, Clone, Copy)]
pub struct DrawTriangleArgs {
    pub vertices: [Vertex; 3],
    pub shading: TriangleShading,
    pub semi_transparent: bool,
    pub semi_transparency_mode: SemiTransparencyMode,
    pub texture_mapping: Option<TriangleTextureMapping>,
}

/// One line segment, ready to rasterize.
#[derive(Debug, Clone, Copy)]
pub struct DrawLineArgs {
    pub vertices: [Vertex; 2],
    pub shading: LineShading,
    pub semi_transparent: bool,
    pub semi_transparency_mode: SemiTransparencyMode,
}

/// One axis-aligned rectangle, ready to rasterize.
#[derive(Debug, Clone, Copy)]
pub struct DrawRectangleArgs {
    pub top_left: Vertex,
    pub width: u32,
    pub height: u32,
    pub color: Color,
    pub semi_transparent: bool,
    pub semi_transparency_mode: SemiTransparencyMode,
    pub texture_mapping: Option<RectangleTextureMapping>,
}

/// A rectangular CPU-to-VRAM transfer, described for a backend that owns
/// its own copy of VRAM.
#[derive(Debug, Clone, Copy, PartialEq, Eq, Structural)]
pub struct CpuVramBlitArgs {
    pub x: u32,
    pub y: u32,
    pub width: u32,
    pub height: u32,
    pub force_mask_bit: bool,
    pub check_mask_bit: bool,
}

/// A rectangular VRAM-to-VRAM copy, described for a backend that owns its
/// own copy of VRAM.
#[derive(Debug, Clone, Copy, PartialEq, Eq, Structural)]
pub struct VramVramBlitArgs {
    pub source_x: u32,
    pub source_y: u32,
    pub dest_x: u32,
    pub dest_y: u32,
    pub width: u32,
    pub height: u32,
    pub force_mask_bit: bool,
    pub check_mask_bit: bool,
}

/// One call against the rasterizer interface, as dispatched by the
/// engine for a completed draw command. Draw calls carry a snapshot of
/// the persistent draw settings taken at dispatch time.
#[derive(Debug, Clone, Copy)]
pub enum RasterizerCommand {
    DrawTriangle(DrawTriangleArgs, DrawSettings),
    DrawLine(DrawLineArgs, DrawSettings),
    DrawRectangle(DrawRectangleArgs, DrawSettings),
    VramFill { x: u32, y: u32, width: u32, height: u32, color: Color },
}

/// Whether two vertices are close enough to draw: the hardware rejects
/// lines and polygons wider than 1023 or taller than 511 pixels.
pub open spec fn spec_vertices_valid(v0: Vertex, v1: Vertex) -> bool {
    -1024 < v0.x - v1.x < 1024 && -512 < v0.y - v1.y < 512
}

/// Tests the hardware's distance limit between two vertices.
pub fn vertices_valid(v0: Vertex, v1: Vertex) -> (r: bool)
    requires
        -1024 <= v0.x < 1024 && -1024 <= v1.x < 1024,
        -1024 <= v0.y < 1024 && -1024 <= v1.y < 1024,
    ensures
        r == spec_vertices_valid(v0, v1),
{
    let dx = v0.x - v1.x;
    let dy = v0.y - v1.y;
    -1024 < dx && dx < 1024 && -512 < dy && dy < 512
}

/// The Z component of the cross product of `v0 -> v1` and `v0 -> v2`:
/// positive when the triangle winds counter-clockwise in screen space.
pub open spec fn spec_cross_product_z(v0: Vertex, v1: Vertex, v2: Vertex) -> int {
    (v1.x - v0.x) * (v2.y - v0.y) - (v1.y - v0.y) * (v2.x - v0.x)
}

/// Computes the triangle's winding as the Z component of a cross
/// product.
pub fn cross_product_z(v0: Vertex, v1: Vertex, v2: Vertex) -> (z: i32)
    requires
        -1024 <= v0.x < 1024 && -1024 <= v1.x < 1024 && -1024 <= v2.x < 1024,
        -1024 <= v0.y < 1024 && -1024 <= v1.y < 1024 && -1024 <= v2.y < 1024,
    ensures
        z == spec_cross_product_z(v0, v1, v2),
{
    let ax = v1.x - v0.x;
    let ay = v1.y - v0.y;
    let bx = v2.x - v0.x;
    let by = v2.y - v0.y;
    assert(ax * by <= 2047 * 2047 && ax * by >= -(2047 * 2047) && ay * bx <= 2047 * 2047 && ay * bx >= -(2047 * 2047)) by (nonlinear_arith)
        requires
            -2048 < ax < 2048 && -2048 < ay < 2048 && -2048 < bx < 2048 && -2048 < by < 2048,
    ;
    ax * by - ay * bx
}

/// Swaps the first two vertices of a triangle together with their
/// shading colors and texel coordinates, keeping the data per-vertex.
pub fn swap_vertices(
    vertices: &mut [Vertex; 3],
    shading: &mut TriangleShading,
    texture_mapping: &mut Option<TriangleTextureMapping>,
)
    ensures
        final(vertices)@ == old(vertices)@.update(0, old(vertices)[1]).update(1, old(vertices)[0]),
        match *old(shading) {
            Shading::Flat(c) => *final(shading) == Shading::<3>::Flat(c),
            Shading::Gouraud(colors) => *final(shading) == Shading::<3>::Gouraud([colors[1], colors[0], colors[2]]),
        },
        match *old(texture_mapping) {
            Option::None => *final(texture_mapping) matches Option::None,
            Option::Some(m) => *final(texture_mapping) == Some(TextureMapping::<3> {
                u: [m.u[1], m.u[0], m.u[2]],
                v: [m.v[1], m.v[0], m.v[2]],
                ..m
            }),
        },
{
    let v0 = vertices[0];
    let v1 = vertices[1];
    vertices[0] = v1;
    vertices[1] = v0;

    if let Some(mapping) = texture_mapping {
        let u0 = mapping.u[0];
        let u1 = mapping.u[1];
        mapping.u[0] = u1;
        mapping.u[1] = u0;
        let t0 = mapping.v[0];
        let t1 = mapping.v[1];
        mapping.v[0] = t1;
        mapping.v[1] = t0;
        assert(mapping.u =~= [old(texture_mapping)->Some_0.u[1], old(texture_mapping)->Some_0.u[0], old(texture_mapping)->Some_0.u[2]]);
        assert(mapping.v =~= [old(texture_mapping)->Some_0.v[1], old(texture_mapping)->Some_0.v[0], old(texture_mapping)->Some_0.v[2]]);
    }

    if let Shading::Gouraud(colors) = shading {
        let c0 = colors[0];
        let c1 = colors[1];
        colors[0] = c1;
        colors[1] = c0;
        assert(*colors =~= [old(shading)->Gouraud_0[1], old(shading)->Gouraud_0[0], old(shading)->Gouraud_0[2]]);
    }
}

/// Which backend rasterizes frames.
#[derive(Debug, Clone, Copy, PartialEq, Eq, Structural)]
pub enum RasterizerType {
    NaiveSoftware,
    SimdSoftware,
    WgpuHardware,
}

/// A snapshot of rasterizer state: the VRAM contents, as saved and
/// restored around backend changes.
#[derive(Debug, Clone)]
pub struct RasterizerState {
    pub vram: Vec<u8>,
}

/// A software rasterizer backend. The pixel pipelines live outside this
/// crate; here a backend is the VRAM snapshot it owns.
#[derive(Debug, Clone)]
pub enum Rasterizer {
    NaiveSoftware(RasterizerState),
    SimdSoftware(RasterizerState),
}

/// The VRAM snapshot a rasterizer holds.
pub open spec fn spec_rasterizer_vram(r: Rasterizer) -> Seq<u8> {
    match r {
        Rasterizer::NaiveSoftware(state) => state.vram@,
        Rasterizer::SimdSoftware(state) => state.vram@,
    }
}

impl Rasterizer {
    /// Builds the requested software backend around a VRAM snapshot; the
    /// hardware backend is not constructed here, so it falls back to the
    /// naive one.
    pub fn from_vram(rasterizer_type: RasterizerType, vram: Vec<u8>) -> (r: Self)
        requires
            vram@.len() == VRAM_LEN,
        ensures
            spec_rasterizer_vram(r) == vram@,
    {
        match rasterizer_type {
            RasterizerType::SimdSoftware => Self::SimdSoftware(RasterizerState { vram }),
            _ => Self::NaiveSoftware(RasterizerState { vram }),
        }
    }

    /// Saves the backend's state: a copy of its VRAM.
    pub fn to_state(&self) -> (state: RasterizerState)
        ensures
            state.vram@ == spec_rasterizer_vram(*self),
    {
        let vram = self.clone_vram();
        RasterizerState { vram }
    }

    /// Copies out the backend's VRAM.
    pub fn clone_vram(&self) -> (vram: Vec<u8>)
        ensures
            vram@ == spec_rasterizer_vram(*self),
    {
        match self {
            Self::NaiveSoftware(state) => state.vram.clone(),
            Self::SimdSoftware(state) => state.vram.clone(),
        }
    }
}

} // verus!
