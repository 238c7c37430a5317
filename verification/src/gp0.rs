//! The GP0 primitive command engine: framing, classification, parameter
//! accumulation, dispatch, and the streamed VRAM transfer paths.
//!
//! The engine consumes one 32-bit command word per call. A word arriving
//! while the engine waits for a command selects a command family from its
//! top 3 bits and determines, from decoded flags alone, how many trailing
//! parameter words the command needs. Completed commands either mutate the
//! persistent draw settings, move pixels between the CPU and VRAM, or are
//! dispatched to a rasterizer as plain data.

use vstd::prelude::*;

verus! {

use crate::bit_set;
use crate::word_bit;
use vstd::arithmetic::div_mod::lemma_fundamental_div_mod_converse;
use crate::rasterizer::DrawLineArgs;
use crate::rasterizer::DrawRectangleArgs;
use crate::rasterizer::DrawTriangleArgs;
use crate::rasterizer::RasterizerCommand;
use crate::rasterizer::Shading;
use crate::rasterizer::TextureMapping;
use crate::rasterizer::TextureMappingMode;
use crate::rasterizer::TriangleTextureMapping;
use crate::rasterizer::Vertex;

/// Bytes of VRAM: 1024 by 512 pixels, 2 bytes per pixel.
pub const VRAM_LEN: usize = 0x100000;

/// An 8-bit-per-channel color, as carried in command and parameter words.
#[derive(Debug, Clone, Copy, PartialEq, Eq, Structural)]
pub struct Color {
    pub r: u8,
    pub g: u8,
    pub b: u8,
}

/// `c` reduced to the 15-bit VRAM pixel format: 5 bits per channel,
/// red lowest.
pub open spec fn spec_color_15_bit(c: Color) -> u16 {
    ((c.r >> 3) as u16) | (((c.g >> 3) as u16) << 5) | (((c.b >> 3) as u16) << 10)
}

impl Color {
    /// Drops each channel to 5 bits and packs the channels into one
    /// halfword, red in the low bits.
    pub fn truncate_to_15_bit(self) -> (p: u16)
        ensures
            p == spec_color_15_bit(self),
    {
        let gc: u8 = self.g;
        let bc: u8 = self.b;
        let r: u16 = (self.r >> 3) as u16;
        let g: u16 = (gc >> 3) as u16;
        let b: u16 = (bc >> 3) as u16;
        assert(g < 32 && b < 32 && g << 5 <= 0x3E0 && b << 10 <= 0x7C00) by (bit_vector)
            requires
                g == (gc >> 3) as u16 && b == (bc >> 3) as u16,
        ;
        r | (g << 5) | (b << 10)
    }
}

/// The color packed into the low 24 bits of a word: red in bits 0-7,
/// green in bits 8-15, blue in bits 16-23.
pub open spec fn spec_command_color(value: u32) -> Color {
    Color { r: (value & 0xFF) as u8, g: ((value >> 8) & 0xFF) as u8, b: ((value >> 16) & 0xFF) as u8 }
}

/// Decodes the inline color out of a command or parameter word.
pub fn parse_command_color(value: u32) -> (c: Color)
    ensures
        c == spec_command_color(value),
{
    assert(value & 0xFF < 256 && (value >> 8) & 0xFF < 256 && (value >> 16) & 0xFF < 256) by (bit_vector);
    let r = (value & 0xFF) as u8;
    let g = ((value >> 8) & 0xFF) as u8;
    let b = ((value >> 16) & 0xFF) as u8;
    Color { r, g, b }
}

/// The low 11 bits of `word` read as a two's-complement value in
/// `-1024 ..= 1023`.
pub open spec fn spec_signed_11_bit(word: u32) -> int {
    if word & 0x400 == 0 {
        (word & 0x7FF) as int
    } else {
        (word & 0x7FF) - 0x800
    }
}

/// Sign-extends an 11-bit field out of the low bits of a word.
pub fn parse_signed_11_bit(word: u32) -> (r: i32)
    ensures
        r == spec_signed_11_bit(word),
        -1024 <= r < 1024,
{
    let low = word & 0x7FF;
    assert(low < 0x800 && (word & 0x400 == 0 ==> low < 0x400) && (word & 0x400 != 0 ==> low >= 0x400)) by (bit_vector)
        requires
            low == word & 0x7FF,
    ;
    if word & 0x400 == 0 {
        low as i32
    } else {
        (low as i32) - 0x800
    }
}

/// How many vertices a polygon command carries.
#[derive(Debug, Clone, Copy, PartialEq, Eq, Structural)]
pub enum PolygonVertices {
    Three,
    Four,
}

impl PolygonVertices {
    /// Decodes the quad flag: set means four vertices.
    pub fn from_bit(bit: bool) -> (r: Self)
        ensures
            r == (if bit { PolygonVertices::Four } else { PolygonVertices::Three }),
    {
        if bit {
            Self::Four
        } else {
            Self::Three
        }
    }

    /// The number of vertices as an integer, 3 or 4.
    pub fn vertex_count(self) -> (n: u8)
        ensures
            n == spec_vertex_count(self),
    {
        match self {
            Self::Three => 3,
            Self::Four => 4,
        }
    }
}

/// The number of vertices a polygon command carries, 3 or 4.
pub open spec fn spec_vertex_count(v: PolygonVertices) -> u8 {
    match v {
        PolygonVertices::Three => 3,
        PolygonVertices::Four => 4,
    }
}

/// The size class of a rectangle command.
#[derive(Debug, Clone, Copy, PartialEq, Eq, Structural)]
pub enum RectangleSize {
    Variable,
    One,
    Eight,
    Sixteen,
}

/// The rectangle size class selected by the low 2 bits.
pub open spec fn spec_rectangle_size(bits: u32) -> RectangleSize {
    if bits & 3 == 0 {
        RectangleSize::Variable
    } else if bits & 3 == 1 {
        RectangleSize::One
    } else if bits & 3 == 2 {
        RectangleSize::Eight
    } else {
        RectangleSize::Sixteen
    }
}

impl RectangleSize {
    /// Decodes the size class from the low 2 bits.
    pub fn from_bits(bits: u32) -> (r: Self)
        ensures
            r == spec_rectangle_size(bits),
    {
        assert(bits & 3 < 4) by (bit_vector);
        match bits & 3 {
            0 => Self::Variable,
            1 => Self::One,
            2 => Self::Eight,
            _ => Self::Sixteen,
        }
    }
}

/// How a semi-transparent pixel is blended with the background.
#[derive(Debug, Clone, Copy, PartialEq, Eq, Structural)]
pub enum SemiTransparencyMode {
    /// B/2 + F/2
    Average,
    /// B + F
    Add,
    /// B - F
    Subtract,
    /// B + F/4
    AddQuarter,
}

/// The blend mode selected by the low 2 bits.
pub open spec fn spec_semi_transparency_mode(bits: u32) -> SemiTransparencyMode {
    if bits & 3 == 0 {
        SemiTransparencyMode::Average
    } else if bits & 3 == 1 {
        SemiTransparencyMode::Add
    } else if bits & 3 == 2 {
        SemiTransparencyMode::Subtract
    } else {
        SemiTransparencyMode::AddQuarter
    }
}

/// The blend mode's 2-bit encoding, the inverse of
/// [`spec_semi_transparency_mode`].
pub open spec fn spec_semi_transparency_bits(m: SemiTransparencyMode) -> u32 {
    match m {
        SemiTransparencyMode::Average => 0,
        SemiTransparencyMode::Add => 1,
        SemiTransparencyMode::Subtract => 2,
        SemiTransparencyMode::AddQuarter => 3,
    }
}

impl SemiTransparencyMode {
    /// Decodes the blend mode from the low 2 bits.
    pub fn from_bits(bits: u32) -> (r: Self)
        ensures
            r == spec_semi_transparency_mode(bits),
    {
        assert(bits & 3 < 4) by (bit_vector);
        match bits & 3 {
            0 => Self::Average,
            1 => Self::Add,
            2 => Self::Subtract,
            _ => Self::AddQuarter,
        }
    }

    /// The mode's 2-bit encoding, as it appears in the status register.
    pub fn to_bits(self) -> (r: u32)
        ensures
            r == spec_semi_transparency_bits(self),
    {
        match self {
            Self::Average => 0,
            Self::Add => 1,
            Self::Subtract => 2,
            Self::AddQuarter => 3,
        }
    }
}

/// Bits per texel of the selected texture page.
#[derive(Debug, Clone, Copy, PartialEq, Eq, Structural)]
pub enum TextureColorDepthBits {
    Four,
    Eight,
    Fifteen,
}

/// The texture color depth selected by the low 2 bits; the reserved
/// value 3 behaves as 15-bit.
pub open spec fn spec_texture_color_depth(bits: u32) -> TextureColorDepthBits {
    if bits & 3 == 0 {
        TextureColorDepthBits::Four
    } else if bits & 3 == 1 {
        TextureColorDepthBits::Eight
    } else {
        TextureColorDepthBits::Fifteen
    }
}

/// The depth's 2-bit encoding, as it appears in the status register.
pub open spec fn spec_texture_color_depth_bits(d: TextureColorDepthBits) -> u32 {
    match d {
        TextureColorDepthBits::Four => 0,
        TextureColorDepthBits::Eight => 1,
        TextureColorDepthBits::Fifteen => 2,
    }
}

impl TextureColorDepthBits {
    /// Decodes the texture color depth from the low 2 bits.
    pub fn from_bits(bits: u32) -> (r: Self)
        ensures
            r == spec_texture_color_depth(bits),
    {
        assert(bits & 3 < 4) by (bit_vector);
        match bits & 3 {
            0 => Self::Four,
            1 => Self::Eight,
            _ => Self::Fifteen,
        }
    }

    /// The depth's 2-bit encoding.
    pub fn to_bits(self) -> (r: u32)
        ensures
            r == spec_texture_color_depth_bits(self),
    {
        match self {
            Self::Four => 0,
            Self::Eight => 1,
            Self::Fifteen => 2,
        }
    }
}

/// The global texture page register: where in VRAM textures are read from
/// and how rectangle texels are flipped and blended.
#[derive(Debug, Clone, Copy, PartialEq, Eq, Structural)]
pub struct TexturePage {
    /// In 64-halfword steps, 0-15.
    pub x_base: u32,
    /// 0 or 256.
    pub y_base: u32,
    pub semi_transparency_mode: SemiTransparencyMode,
    pub color_depth: TextureColorDepthBits,
    pub rectangle_x_flip: bool,
    pub rectangle_y_flip: bool,
}

/// The texture page encoded in the low 14 bits of a draw-mode settings
/// word (or of a polygon texture parameter's high halfword).
pub open spec fn spec_texture_page(command: u32) -> TexturePage {
    TexturePage {
        x_base: command & 0xF,
        y_base: (256 * ((command >> 4) & 1)) as u32,
        semi_transparency_mode: spec_semi_transparency_mode(command >> 5),
        color_depth: spec_texture_color_depth(command >> 7),
        rectangle_x_flip: bit_set(command, 12),
        rectangle_y_flip: bit_set(command, 13),
    }
}

impl TexturePage {
    /// A texture page with every field zero, as at reset.
    pub fn new() -> (r: Self)
        ensures
            r == spec_texture_page(0),
    {
        Self::from_command_word(0)
    }

    /// Decodes a texture page out of a settings command word.
    pub fn from_command_word(command: u32) -> (r: Self)
        ensures
            r == spec_texture_page(command),
    {
        assert((command >> 4) & 1 < 2) by (bit_vector);
        Self {
            x_base: command & 0xF,
            y_base: 256 * ((command >> 4) & 1),
            semi_transparency_mode: SemiTransparencyMode::from_bits(command >> 5),
            color_depth: TextureColorDepthBits::from_bits(command >> 7),
            rectangle_x_flip: word_bit(command, 12),
            rectangle_y_flip: word_bit(command, 13),
        }
    }
}

/// The texture window register: mask and offset applied to texture
/// coordinates, all in 8-pixel steps.
#[derive(Debug, Clone, Copy, PartialEq, Eq, Structural)]
pub struct TextureWindow {
    pub x_mask: u32,
    pub y_mask: u32,
    pub x_offset: u32,
    pub y_offset: u32,
}

/// The texture window encoded in the low 20 bits of a settings word.
pub open spec fn spec_texture_window(command: u32) -> TextureWindow {
    TextureWindow {
        x_mask: command & 0x1F,
        y_mask: (command >> 5) & 0x1F,
        x_offset: (command >> 10) & 0x1F,
        y_offset: (command >> 15) & 0x1F,
    }
}

impl TextureWindow {
    /// A texture window with every field zero, as at reset.
    pub fn new() -> (r: Self)
        ensures
            r == spec_texture_window(0),
    {
        Self::from_command_word(0)
    }

    /// Decodes a texture window out of a settings command word.
    pub fn from_command_word(command: u32) -> (r: Self)
        ensures
            r == spec_texture_window(command),
    {
        Self {
            x_mask: command & 0x1F,
            y_mask: (command >> 5) & 0x1F,
            x_offset: (command >> 10) & 0x1F,
            y_offset: (command >> 15) & 0x1F,
        }
    }
}

/// Persistent draw settings, mutated only by dedicated settings commands
/// and read by every dispatched draw.
#[derive(Debug, Clone, Copy, PartialEq, Eq)]
pub struct DrawSettings {
    pub drawing_in_display_allowed: bool,
    pub dithering_enabled: bool,
    pub draw_area_top_left: (u32, u32),
    pub draw_area_bottom_right: (u32, u32),
    pub draw_offset: (i32, i32),
    pub force_mask_bit: bool,
    pub check_mask_bit: bool,
}

impl DrawSettings {
    /// All-zero draw settings, as at reset.
    pub fn new() -> (r: Self)
        ensures
            r == spec_draw_settings_default(),
    {
        Self {
            drawing_in_display_allowed: false,
            dithering_enabled: false,
            draw_area_top_left: (0, 0),
            draw_area_bottom_right: (0, 0),
            draw_offset: (0, 0),
            force_mask_bit: false,
            check_mask_bit: false,
        }
    }

    /// Whether a vertex lies inside the drawing area, both corners
    /// included.
    pub fn drawing_area_contains_vertex(&self, vertex: Vertex) -> (r: bool)
        ensures
            r == (self.draw_area_top_left.0 <= vertex.x <= self.draw_area_bottom_right.0
                && self.draw_area_top_left.1 <= vertex.y <= self.draw_area_bottom_right.1),
    {
        let x = vertex.x as i64;
        let y = vertex.y as i64;
        (self.draw_area_top_left.0 as i64) <= x && x <= (self.draw_area_bottom_right.0 as i64)
            && (self.draw_area_top_left.1 as i64) <= y && y <= (self.draw_area_bottom_right.1 as i64)
    }

    /// Whether the drawing area's top-left is at or before its
    /// bottom-right on both axes.
    pub fn is_drawing_area_valid(&self) -> (r: bool)
        ensures
            r == (self.draw_area_top_left.0 <= self.draw_area_bottom_right.0
                && self.draw_area_top_left.1 <= self.draw_area_bottom_right.1),
    {
        self.draw_area_top_left.0 <= self.draw_area_bottom_right.0
            && self.draw_area_top_left.1 <= self.draw_area_bottom_right.1
    }
}

/// The draw settings at reset: everything zero or off.
pub open spec fn spec_draw_settings_default() -> DrawSettings {
    DrawSettings {
        drawing_in_display_allowed: false,
        dithering_enabled: false,
        draw_area_top_left: (0, 0),
        draw_area_bottom_right: (0, 0),
        draw_offset: (0, 0),
        force_mask_bit: false,
        check_mask_bit: false,
    }
}

/// Flags of a line command, decoded from its command word.
#[derive(Debug, Clone, Copy, PartialEq, Eq, Structural)]
pub struct LineCommandParameters {
    pub gouraud_shading: bool,
    pub polyline: bool,
    pub semi_transparent: bool,
    pub color: Color,
}

/// Flags of a polygon command, decoded from its command word.
#[derive(Debug, Clone, Copy, PartialEq, Eq, Structural)]
pub struct PolygonCommandParameters {
    pub vertices: PolygonVertices,
    pub gouraud_shading: bool,
    pub textured: bool,
    pub semi_transparent: bool,
    pub raw_texture: bool,
    pub color: Color,
}

/// Flags of a rectangle command, decoded from its command word.
#[derive(Debug, Clone, Copy, PartialEq, Eq, Structural)]
pub struct RectangleCommandParameters {
    pub size: RectangleSize,
    pub textured: bool,
    pub semi_transparent: bool,
    pub raw_texture: bool,
    pub color: Color,
}

/// A framed command whose parameter words are still being accumulated.
#[derive(Debug, Clone, Copy, PartialEq, Eq, Structural)]
pub enum DrawCommand {
    Fill(Color),
    DrawLine(LineCommandParameters),
    DrawPolygon(PolygonCommandParameters),
    DrawRectangle(RectangleCommandParameters),
    VramToVramBlit,
    CpuToVramBlit,
    VramToCpuBlit,
}

/// Raster-order position within a rectangular VRAM region being streamed
/// one pixel at a time.
#[derive(Debug, Clone, Copy, PartialEq, Eq, Structural)]
pub struct VramTransferFields {
    pub destination_x: u32,
    pub destination_y: u32,
    pub x_size: u32,
    pub y_size: u32,
    pub row: u32,
    pub col: u32,
}

/// Whether advancing a transfer cursor consumed the region's last cell.
#[derive(Debug, Clone, Copy, PartialEq, Eq, Structural)]
pub enum IncrementEffect {
    InProgress,
    Finished,
}

/// A transfer cursor whose region fits VRAM's wrap moduli and whose
/// position is inside the region.
pub open spec fn spec_transfer_wf(f: VramTransferFields) -> bool {
    &&& f.destination_x <= 0x3FF
    &&& f.destination_y <= 0x1FF
    &&& 1 <= f.x_size <= 0x400
    &&& 1 <= f.y_size <= 0x200
    &&& f.col < f.x_size
    &&& f.row < f.y_size
}

/// The VRAM byte address of the cursor's pixel: destination plus offset,
/// wrapped to 1024 columns and 512 rows, 2 bytes per pixel, 2048 bytes
/// per row.
pub open spec fn spec_vram_addr(f: VramTransferFields) -> int {
    let vram_x = (f.destination_x + f.col) % 0x400;
    let vram_y = (f.destination_y + f.row) % 0x200;
    2048 * vram_y + 2 * vram_x
}

/// The cursor one pixel further in raster order, column first.
pub open spec fn spec_cursor_next(f: VramTransferFields) -> VramTransferFields {
    if f.col + 1 < f.x_size {
        VramTransferFields { col: (f.col + 1) as u32, ..f }
    } else {
        VramTransferFields { col: 0, row: (f.row + 1) as u32, ..f }
    }
}

/// Whether the cursor sits on the last cell of its region.
pub open spec fn spec_cursor_last(f: VramTransferFields) -> bool {
    f.col + 1 == f.x_size && f.row + 1 == f.y_size
}

impl VramTransferFields {
    /// The VRAM byte address of the cursor's current pixel.
    pub fn vram_addr(&self) -> (addr: u32)
        requires
            spec_transfer_wf(*self),
        ensures
            addr == spec_vram_addr(*self),
            addr + 1 < VRAM_LEN,
    {
        let sum_x = self.destination_x + self.col;
        let sum_y = self.destination_y + self.row;
        let vram_x = sum_x & 0x3FF;
        let vram_y = sum_y & 0x1FF;
        assert(vram_x == sum_x % 0x400 && vram_x < 0x400) by (bit_vector)
            requires
                vram_x == sum_x & 0x3FF,
        ;
        assert(vram_y == sum_y % 0x200 && vram_y < 0x200) by (bit_vector)
            requires
                vram_y == sum_y & 0x1FF,
        ;
        2048 * vram_y + 2 * vram_x
    }

    /// Advances the cursor one pixel in raster order and reports whether
    /// the region is now exhausted.
    pub fn increment(&mut self) -> (effect: IncrementEffect)
        requires
            spec_transfer_wf(*old(self)),
        ensures
            effect == (if spec_cursor_last(*old(self)) { IncrementEffect::Finished } else { IncrementEffect::InProgress }),
            effect == IncrementEffect::InProgress ==> *final(self) == spec_cursor_next(*old(self)) && spec_transfer_wf(*final(self)),
    {
        self.col = self.col + 1;
        if self.col == self.x_size {
            self.col = 0;
            self.row = self.row + 1;
            if self.row == self.y_size {
                return IncrementEffect::Finished;
            }
        }
        IncrementEffect::InProgress
    }
}

/// The control state of the primitive command engine.
#[derive(Debug, Clone, Copy, PartialEq, Eq, Structural)]
pub enum Gp0CommandState {
    /// Idle; the next word starts a new command.
    WaitingForCommand,
    /// Accumulating `remaining` more parameter words at buffer position
    /// `index` for the framed `command`.
    WaitingForParameters { command: DrawCommand, index: u8, remaining: u8 },
    /// After a polyline segment: the next word is either the terminator
    /// or the start of another segment chained onto the carried one.
    WaitingForPolyline(LineCommandParameters),
    /// Mid CPU-to-VRAM transfer; each written word carries two pixels.
    ReceivingFromCpu(VramTransferFields),
    /// Mid VRAM-to-CPU transfer; drained by reads, not writes.
    SendingToCpu(VramTransferFields),
}

/// The line command decoded from a family-`010` command word.
pub open spec fn spec_line_command(value: u32) -> LineCommandParameters {
    LineCommandParameters {
        gouraud_shading: bit_set(value, 28),
        polyline: bit_set(value, 27),
        semi_transparent: bit_set(value, 25),
        color: spec_command_color(value),
    }
}

/// The polygon command decoded from a family-`001` command word.
pub open spec fn spec_polygon_command(value: u32) -> PolygonCommandParameters {
    PolygonCommandParameters {
        vertices: if bit_set(value, 27) { PolygonVertices::Four } else { PolygonVertices::Three },
        gouraud_shading: bit_set(value, 28),
        textured: bit_set(value, 26),
        semi_transparent: bit_set(value, 25),
        raw_texture: bit_set(value, 24),
        color: spec_command_color(value),
    }
}

/// The rectangle command decoded from a family-`011` command word.
pub open spec fn spec_rectangle_command(value: u32) -> RectangleCommandParameters {
    RectangleCommandParameters {
        size: spec_rectangle_size(value >> 27),
        textured: bit_set(value, 26),
        semi_transparent: bit_set(value, 25),
        raw_texture: bit_set(value, 24),
        color: spec_command_color(value),
    }
}

/// How many parameter words a polygon command consumes: one coordinate
/// word per vertex, one texture word per vertex if textured, and one
/// color word per vertex after the first if Gouraud-shaded.
pub open spec fn spec_polygon_param_count(p: PolygonCommandParameters) -> u8 {
    (spec_vertex_count(p.vertices) * (1 + if p.textured { 1u8 } else { 0u8 })
        + (spec_vertex_count(p.vertices) - 1) * (if p.gouraud_shading { 1u8 } else { 0u8 })) as u8
}

/// A polygon command always takes between 3 and 11 parameter words.
pub proof fn lemma_polygon_param_count_range(p: PolygonCommandParameters)
    ensures
        3 <= spec_polygon_param_count(p) <= 11,
{
    if p.vertices == PolygonVertices::Three {
        assert(spec_vertex_count(p.vertices) == 3);
    } else {
        assert(spec_vertex_count(p.vertices) == 4);
    }
}

/// How many parameter words a line command consumes for its first
/// segment: two vertices plus a second color if Gouraud-shaded.
pub open spec fn spec_line_param_count(p: LineCommandParameters) -> u8 {
    (2 + if p.gouraud_shading { 1u8 } else { 0u8 }) as u8
}

/// How many parameter words a rectangle command consumes: position, a
/// texture word if textured, and a size word only for the variable class.
pub open spec fn spec_rectangle_param_count(p: RectangleCommandParameters) -> u8 {
    (1 + (if p.textured { 1u8 } else { 0u8 })
        + (if p.size == RectangleSize::Variable { 1u8 } else { 0u8 })) as u8
}

impl Gp0CommandState {
    /// Frames a VRAM fill command: 2 parameters, position then size.
    pub fn fill(value: u32) -> (r: Self)
        ensures
            r == (Gp0CommandState::WaitingForParameters {
                command: DrawCommand::Fill(spec_command_color(value)),
                index: 0,
                remaining: 2,
            }),
    {
        let color = parse_command_color(value);
        Self::WaitingForParameters { command: DrawCommand::Fill(color), index: 0, remaining: 2 }
    }

    /// Frames a line command; the parameter count follows the Gouraud
    /// flag.
    pub fn draw_line(value: u32) -> (r: Self)
        ensures
            r == (Gp0CommandState::WaitingForParameters {
                command: DrawCommand::DrawLine(spec_line_command(value)),
                index: 0,
                remaining: spec_line_param_count(spec_line_command(value)),
            }),
    {
        let color = parse_command_color(value);
        let gouraud_shading = word_bit(value, 28);
        let polyline = word_bit(value, 27);
        let semi_transparent = word_bit(value, 25);

        let parameters: u8 = 2 + if gouraud_shading { 1 } else { 0 };

        Self::WaitingForParameters {
            command: DrawCommand::DrawLine(LineCommandParameters {
                gouraud_shading,
                polyline,
                semi_transparent,
                color,
            }),
            index: 0,
            remaining: parameters,
        }
    }

    /// Frames a polygon command; the parameter count follows the vertex
    /// count and the texture and Gouraud flags.
    pub fn draw_polygon(value: u32) -> (r: Self)
        ensures
            r == (Gp0CommandState::WaitingForParameters {
                command: DrawCommand::DrawPolygon(spec_polygon_command(value)),
                index: 0,
                remaining: spec_polygon_param_count(spec_polygon_command(value)),
            }),
    {
        let gouraud_shading = word_bit(value, 28);
        let vertices = PolygonVertices::from_bit(word_bit(value, 27));
        let textured = word_bit(value, 26);
        let semi_transparent = word_bit(value, 25);
        let raw_texture = word_bit(value, 24);
        let color = parse_command_color(value);

        let vertex_count: u8 = vertices.vertex_count();

        // Each vertex requires 1-3 parameters:
        // - 1 word for the coordinates
        // - 1 word for the color (only under Gouraud shading, and not for
        //   the first vertex, whose color comes from the command word)
        // - 1 word for the U/V texture coordinates (only when textured)
        let parameters: u8 = vertex_count * (1 + if textured { 1 } else { 0 })
            + (vertex_count - 1) * (if gouraud_shading { 1 } else { 0 });

        let command = DrawCommand::DrawPolygon(PolygonCommandParameters {
            vertices,
            gouraud_shading,
            textured,
            semi_transparent,
            raw_texture,
            color,
        });

        Self::WaitingForParameters { command, index: 0, remaining: parameters }
    }

    /// Frames a rectangle command; only textured and variable-size
    /// rectangles take extra parameters.
    pub fn draw_rectangle(value: u32) -> (r: Self)
        ensures
            r == (Gp0CommandState::WaitingForParameters {
                command: DrawCommand::DrawRectangle(spec_rectangle_command(value)),
                index: 0,
                remaining: spec_rectangle_param_count(spec_rectangle_command(value)),
            }),
    {
        let size = RectangleSize::from_bits(value >> 27);
        let textured = word_bit(value, 26);
        let semi_transparent = word_bit(value, 25);
        let raw_texture = word_bit(value, 24);
        let color = parse_command_color(value);

        let parameters: u8 = 1 + (if textured { 1 } else { 0 })
            + (if matches!(size, RectangleSize::Variable) { 1 } else { 0 });

        let command = DrawCommand::DrawRectangle(RectangleCommandParameters {
            size,
            textured,
            semi_transparent,
            raw_texture,
            color,
        });

        Self::WaitingForParameters { command, index: 0, remaining: parameters }
    }
}

/// The X position in the low halfword (wrapped to 1024) and the Y
/// position in the high halfword (wrapped to 512) of a blit position
/// parameter.
pub open spec fn spec_vram_position(value: u32) -> (u32, u32) {
    ((value & 0x3FF) as u32, ((value >> 16) & 0x1FF) as u32)
}

/// Decodes a blit position parameter.
pub fn parse_vram_position(value: u32) -> (r: (u32, u32))
    ensures
        r == spec_vram_position(value),
        r.0 <= 0x3FF && r.1 <= 0x1FF,
{
    let x = value & 0x3FF;
    let y = (value >> 16) & 0x1FF;
    assert(x <= 0x3FF && y <= 0x1FF) by (bit_vector)
        requires
            x == value & 0x3FF && y == (value >> 16) & 0x1FF,
    ;
    (x, y)
}

/// The blit width from the low halfword's low 10 bits, where zero means
/// the full 1024, and the height from the high halfword's low 9 bits,
/// where zero means the full 512.
pub open spec fn spec_vram_size(value: u32) -> (u32, u32) {
    (
        if value & 0x3FF == 0 { 0x400u32 } else { (value & 0x3FF) as u32 },
        if (value >> 16) & 0x1FF == 0 { 0x200u32 } else { ((value >> 16) & 0x1FF) as u32 },
    )
}

/// Decodes a blit size parameter.
pub fn parse_vram_size(value: u32) -> (r: (u32, u32))
    ensures
        r == spec_vram_size(value),
        1 <= r.0 <= 0x400 && 1 <= r.1 <= 0x200,
{
    let x_bits = value & 0x3FF;
    let y_bits = (value >> 16) & 0x1FF;
    assert(x_bits <= 0x3FF && y_bits <= 0x1FF) by (bit_vector)
        requires
            x_bits == value & 0x3FF && y_bits == (value >> 16) & 0x1FF,
    ;
    let x = if x_bits == 0 { 0x400 } else { x_bits };
    let y = if y_bits == 0 { 0x200 } else { y_bits };
    (x, y)
}


/// The vertex packed into one parameter word: signed 11-bit X in the low
/// halfword, signed 11-bit Y in the high halfword.
pub open spec fn spec_vertex(w: u32) -> Vertex {
    Vertex { x: spec_signed_11_bit(w) as i32, y: spec_signed_11_bit(w >> 16) as i32 }
}

/// Decodes a vertex out of a parameter word.
pub fn parse_vertex_coordinates(parameter: u32) -> (v: Vertex)
    ensures
        v == spec_vertex(parameter),
        -1024 <= v.x < 1024 && -1024 <= v.y < 1024,
{
    let x = parse_signed_11_bit(parameter);
    let y = parse_signed_11_bit(parameter >> 16);
    Vertex { x, y }
}

/// A vertex in the signed 11-bit range packed back into one parameter
/// word, the inverse of [`spec_vertex`] on decoded vertices.
pub open spec fn spec_pack_vertex(v: Vertex) -> u32 {
    (spec_low_16(v.x as int) + 0x10000 * spec_low_16(v.y as int)) as u32
}

/// The low 16 bits of `x` as an unsigned value, for `x` in the signed
/// 16-bit range.
pub open spec fn spec_low_16(x: int) -> int {
    if x >= 0 {
        x
    } else {
        x + 0x10000
    }
}

/// Packs a decoded vertex back into a parameter word, as the polyline
/// path does when it carries a segment's second vertex over as the next
/// segment's first.
pub fn pack_vertex(v: Vertex) -> (w: u32)
    requires
        -1024 <= v.x < 1024 && -1024 <= v.y < 1024,
    ensures
        w == spec_pack_vertex(v),
        spec_vertex(w) == v,
{
    let xb: u32 = if v.x >= 0 { v.x as u32 } else { (v.x + 0x10000) as u32 };
    let yb: u32 = if v.y >= 0 { v.y as u32 } else { (v.y + 0x10000) as u32 };
    let w = xb + 0x10000 * yb;
    proof {
        lemma_low16_signed11_roundtrip(xb, yb, w);
    }
    w
}

/// A word built out of two 16-bit halves decodes back to the 11-bit
/// signed values the halves were built from.
proof fn lemma_low16_signed11_roundtrip(xb: u32, yb: u32, w: u32)
    requires
        xb < 0x10000 && yb < 0x10000,
        xb < 0x400 || 0x10000 - 0x400 <= xb,
        yb < 0x400 || 0x10000 - 0x400 <= yb,
        w == xb + 0x10000 * yb,
    ensures
        spec_signed_11_bit(w) == spec_low_16_inverse(xb as int),
        spec_signed_11_bit(w >> 16) == spec_low_16_inverse(yb as int),
{
    assert(w & 0x7FF == xb % 0x800 && w & 0x400 == xb % 0x800 & 0x400 && (w >> 16) == yb && (w >> 16) & 0x7FF == yb % 0x800 && (w >> 16) & 0x400 == yb % 0x800 & 0x400) by (bit_vector)
        requires
            xb < 0x10000 && yb < 0x10000 && w == xb + 0x10000 * yb,
    ;
    assert(xb % 0x800 & 0x400 == if xb % 0x800 >= 0x400 { 0x400u32 } else { 0u32 }) by (bit_vector)
        requires
            xb < 0x10000,
    ;
    assert(yb % 0x800 & 0x400 == if yb % 0x800 >= 0x400 { 0x400u32 } else { 0u32 }) by (bit_vector)
        requires
            yb < 0x10000,
    ;
}

/// What an unsigned 16-bit half decodes to under 11-bit sign extension,
/// for halves that came from the signed 11-bit range.
pub open spec fn spec_low_16_inverse(b: int) -> int {
    if b < 0x400 {
        b
    } else {
        b - 0x10000
    }
}

/// The line-draw arguments decoded from the parameter buffer: the first
/// vertex and (under Gouraud shading) the second color come from the
/// buffer; the first color comes from the command word.
pub open spec fn spec_line_args(
    cmd: LineCommandParameters,
    params: Seq<u32>,
    stm: SemiTransparencyMode,
) -> DrawLineArgs {
    DrawLineArgs {
        vertices: [
            spec_vertex(params[0]),
            spec_vertex(params[if cmd.gouraud_shading { 2int } else { 1int }]),
        ],
        shading: if cmd.gouraud_shading {
            Shading::Gouraud([cmd.color, spec_command_color(params[1])])
        } else {
            Shading::Flat(cmd.color)
        },
        semi_transparent: cmd.semi_transparent,
        semi_transparency_mode: stm,
    }
}

/// Decodes one line segment out of the parameter buffer. The blend mode
/// is the global texture page's, taken at dispatch time.
pub fn parse_draw_line_parameters(
    command_parameters: LineCommandParameters,
    parameters: &[u32; 11],
    semi_transparency_mode: SemiTransparencyMode,
) -> (args: DrawLineArgs)
    ensures
        args == spec_line_args(command_parameters, parameters@, semi_transparency_mode),
{
    let v0 = parse_vertex_coordinates(parameters[0]);
    let (shading, v1) = if command_parameters.gouraud_shading {
        let second_color = parse_command_color(parameters[1]);
        (Shading::Gouraud([command_parameters.color, second_color]), parse_vertex_coordinates(parameters[2]))
    } else {
        (Shading::Flat(command_parameters.color), parse_vertex_coordinates(parameters[1]))
    };
    let args = DrawLineArgs {
        vertices: [v0, v1],
        shading,
        semi_transparent: command_parameters.semi_transparent,
        semi_transparency_mode,
    };
    proof {
        let spec_args = spec_line_args(command_parameters, parameters@, semi_transparency_mode);
        assert(args.vertices =~= spec_args.vertices);
        if command_parameters.gouraud_shading {
            assert(args.shading->Gouraud_0 =~= spec_args.shading->Gouraud_0);
        }
    }
    args
}

/// Words consumed by each vertex of a polygon command: the coordinate
/// word, a texture word when textured, a color word when Gouraud-shaded.
pub open spec fn spec_poly_stride(p: PolygonCommandParameters) -> int {
    1 + (if p.gouraud_shading { 1int } else { 0int }) + (if p.textured { 1int } else { 0int })
}

/// Index of vertex `v`'s coordinate word in the parameter buffer.
pub open spec fn spec_poly_coord_idx(p: PolygonCommandParameters, v: int) -> int {
    if v == 0 {
        0
    } else {
        1 + (if p.textured { 1int } else { 0int }) + (v - 1) * spec_poly_stride(p) + (if p.gouraud_shading { 1int } else { 0int })
    }
}

/// Vertex `v` of a polygon command, decoded from the parameter buffer.
pub open spec fn spec_poly_vertex(p: PolygonCommandParameters, params: Seq<u32>, v: int) -> Vertex {
    spec_vertex(params[spec_poly_coord_idx(p, v)])
}

/// Color of vertex `v`: the command word's inline color for vertex 0 and
/// for every vertex of a flat-shaded polygon, else the color word before
/// the vertex's coordinate word.
pub open spec fn spec_poly_color(p: PolygonCommandParameters, params: Seq<u32>, v: int) -> Color {
    if p.gouraud_shading && v > 0 {
        spec_command_color(params[spec_poly_coord_idx(p, v) - 1])
    } else {
        p.color
    }
}

/// The texture word of vertex `v`: the word after its coordinate word.
pub open spec fn spec_poly_tex_word(p: PolygonCommandParameters, params: Seq<u32>, v: int) -> u32 {
    params[spec_poly_coord_idx(p, v) + 1]
}

/// Texel coordinates of vertex `v`: U in the texture word's low byte,
/// V in its second byte.
pub open spec fn spec_poly_u(p: PolygonCommandParameters, params: Seq<u32>, v: int) -> u8 {
    (spec_poly_tex_word(p, params, v) & 0xFF) as u8
}

/// See [`spec_poly_u`].
pub open spec fn spec_poly_v(p: PolygonCommandParameters, params: Seq<u32>, v: int) -> u8 {
    ((spec_poly_tex_word(p, params, v) >> 8) & 0xFF) as u8
}

/// The texture page a textured polygon samples from: encoded in the high
/// halfword of vertex 1's texture word.
pub open spec fn spec_poly_texpage(p: PolygonCommandParameters, params: Seq<u32>) -> TexturePage {
    spec_texture_page(spec_poly_tex_word(p, params, 1) >> 16)
}

/// The palette location of a textured polygon: encoded in the high
/// halfword of vertex 0's texture word.
pub open spec fn spec_poly_clut(p: PolygonCommandParameters, params: Seq<u32>) -> (u16, u16) {
    (
        ((spec_poly_tex_word(p, params, 0) >> 16) & 0x3F) as u16,
        ((spec_poly_tex_word(p, params, 0) >> 22) & 0x1FF) as u16,
    )
}

/// The blend mode a polygon dispatch carries: from the polygon's own
/// texture page when textured, else from the global one.
pub open spec fn spec_poly_stm(
    p: PolygonCommandParameters,
    params: Seq<u32>,
    global_texpage: TexturePage,
) -> SemiTransparencyMode {
    if p.textured {
        spec_poly_texpage(p, params).semi_transparency_mode
    } else {
        global_texpage.semi_transparency_mode
    }
}

/// The texture mapping of the triangle whose first vertex is polygon
/// vertex `base`, or nothing when the polygon is untextured.
pub open spec fn spec_poly_texture_mapping(
    p: PolygonCommandParameters,
    params: Seq<u32>,
    window: TextureWindow,
    base: int,
) -> Option<TriangleTextureMapping> {
    if p.textured {
        Some(TextureMapping {
            mode: if p.raw_texture { TextureMappingMode::Raw } else { TextureMappingMode::Modulated },
            texpage: spec_poly_texpage(p, params),
            window,
            clut_x: spec_poly_clut(p, params).0,
            clut_y: spec_poly_clut(p, params).1,
            u: [spec_poly_u(p, params, base), spec_poly_u(p, params, base + 1), spec_poly_u(p, params, base + 2)],
            v: [spec_poly_v(p, params, base), spec_poly_v(p, params, base + 1), spec_poly_v(p, params, base + 2)],
        })
    } else {
        None
    }
}

/// The triangle dispatch whose first vertex is polygon vertex `base`
/// (0 for the first triangle of any polygon, 1 for the second triangle
/// of a quad).
pub open spec fn spec_poly_triangle(
    p: PolygonCommandParameters,
    params: Seq<u32>,
    global_texpage: TexturePage,
    window: TextureWindow,
    base: int,
) -> DrawTriangleArgs {
    DrawTriangleArgs {
        vertices: [
            spec_poly_vertex(p, params, base),
            spec_poly_vertex(p, params, base + 1),
            spec_poly_vertex(p, params, base + 2),
        ],
        shading: if p.gouraud_shading {
            Shading::Gouraud([
                spec_poly_color(p, params, base),
                spec_poly_color(p, params, base + 1),
                spec_poly_color(p, params, base + 2),
            ])
        } else {
            Shading::Flat(p.color)
        },
        semi_transparent: p.semi_transparent,
        semi_transparency_mode: spec_poly_stm(p, params, global_texpage),
        texture_mapping: spec_poly_texture_mapping(p, params, window, base),
    }
}

/// What a completed polygon command dispatches: one triangle over
/// vertices 0-2, and for a quad a second triangle over vertices 1-3.
pub open spec fn spec_polygon_args(
    p: PolygonCommandParameters,
    params: Seq<u32>,
    global_texpage: TexturePage,
    window: TextureWindow,
) -> (DrawTriangleArgs, Option<DrawTriangleArgs>) {
    (
        spec_poly_triangle(p, params, global_texpage, window, 0),
        if p.vertices == PolygonVertices::Four {
            Some(spec_poly_triangle(p, params, global_texpage, window, 1))
        } else {
            None
        },
    )
}

/// Reads the low byte of a word.
fn word_low_byte(w: u32) -> (r: u8)
    ensures
        r == (w & 0xFF) as u8,
{
    assert(w & 0xFF < 0x100) by (bit_vector);
    (w & 0xFF) as u8
}

/// Reads the second byte of a word.
fn word_second_byte(w: u32) -> (r: u8)
    ensures
        r == ((w >> 8) & 0xFF) as u8,
{
    assert((w >> 8) & 0xFF < 0x100) by (bit_vector);
    ((w >> 8) & 0xFF) as u8
}

/// Decodes a completed polygon command into one or two triangle
/// dispatches. A quad becomes two triangles that share vertices 1 and 2;
/// the second triangle reuses vertices and colors 1-3, not 0-2. The
/// texture window and, for untextured polygons, the blend mode are the
/// global settings at dispatch time.
pub fn parse_draw_polygon_parameters(
    command_parameters: PolygonCommandParameters,
    parameters: &[u32; 11],
    global_texpage: TexturePage,
    window: TextureWindow,
) -> (r: (DrawTriangleArgs, Option<DrawTriangleArgs>))
    ensures
        r == spec_polygon_args(command_parameters, parameters@, global_texpage, window),
{
    let p = command_parameters;
    let g: usize = if p.gouraud_shading { 1 } else { 0 };
    let t: usize = if p.textured { 1 } else { 0 };
    let stride: usize = 1 + g + t;
    let quad = matches!(p.vertices, PolygonVertices::Four);

    let coord1: usize = 1 + t + g;
    let coord2: usize = coord1 + stride;
    let coord3: usize = coord2 + stride;

    assert(coord1 == spec_poly_coord_idx(p, 1) && coord2 == spec_poly_coord_idx(p, 2) && coord3 == spec_poly_coord_idx(p, 3));

    let v0 = parse_vertex_coordinates(parameters[0]);
    let v1 = parse_vertex_coordinates(parameters[coord1]);
    let v2 = parse_vertex_coordinates(parameters[coord2]);
    let v3 = if quad { parse_vertex_coordinates(parameters[coord3]) } else { v0 };

    let c0 = p.color;
    let c1 = if p.gouraud_shading { parse_command_color(parameters[coord1 - 1]) } else { c0 };
    let c2 = if p.gouraud_shading { parse_command_color(parameters[coord2 - 1]) } else { c0 };
    let c3 = if quad && p.gouraud_shading { parse_command_color(parameters[coord3 - 1]) } else { c0 };

    let tex0 = parameters[1];
    let tex1 = parameters[coord1 + 1];
    let tex2 = parameters[coord2 + 1];
    let tex3 = parameters[coord3 + 1];

    let texpage = TexturePage::from_command_word(tex1 >> 16);
    let clut_x_bits = (tex0 >> 16) & 0x3F;
    let clut_y_bits = (tex0 >> 22) & 0x1FF;
    assert(clut_x_bits <= 0x3F && clut_y_bits <= 0x1FF) by (bit_vector)
        requires
            clut_x_bits == (tex0 >> 16) & 0x3F && clut_y_bits == (tex0 >> 22) & 0x1FF,
    ;
    let clut_x = clut_x_bits as u16;
    let clut_y = clut_y_bits as u16;

    let u0 = word_low_byte(tex0);
    let u1 = word_low_byte(tex1);
    let u2 = word_low_byte(tex2);
    let u3 = word_low_byte(tex3);
    let w0 = word_second_byte(tex0);
    let w1 = word_second_byte(tex1);
    let w2 = word_second_byte(tex2);
    let w3 = word_second_byte(tex3);

    let semi_transparency_mode = if p.textured {
        texpage.semi_transparency_mode
    } else {
        global_texpage.semi_transparency_mode
    };

    let first_mapping = if p.textured {
        Some(TextureMapping {
            mode: if p.raw_texture { TextureMappingMode::Raw } else { TextureMappingMode::Modulated },
            texpage,
            window,
            clut_x,
            clut_y,
            u: [u0, u1, u2],
            v: [w0, w1, w2],
        })
    } else {
        None
    };

    let first = DrawTriangleArgs {
        vertices: [v0, v1, v2],
        shading: if p.gouraud_shading { Shading::Gouraud([c0, c1, c2]) } else { Shading::Flat(c0) },
        semi_transparent: p.semi_transparent,
        semi_transparency_mode,
        texture_mapping: first_mapping,
    };

    let second = if quad {
        let second_mapping = if p.textured {
            Some(TextureMapping {
                mode: if p.raw_texture { TextureMappingMode::Raw } else { TextureMappingMode::Modulated },
                texpage,
                window,
                clut_x,
                clut_y,
                u: [u1, u2, u3],
                v: [w1, w2, w3],
            })
        } else {
            None
        };
        Some(DrawTriangleArgs {
            vertices: [v1, v2, v3],
            shading: if p.gouraud_shading { Shading::Gouraud([c1, c2, c3]) } else { Shading::Flat(c0) },
            semi_transparent: p.semi_transparent,
            semi_transparency_mode,
            texture_mapping: second_mapping,
        })
    } else {
        None
    };

    proof {
        let params = parameters@;
        let spec_first = spec_poly_triangle(p, params, global_texpage, window, 0);
        assert(first.vertices =~= spec_first.vertices);
        if p.gouraud_shading {
            assert(first.shading->Gouraud_0 =~= spec_first.shading->Gouraud_0);
        }
        if p.textured {
            assert(first.texture_mapping->Some_0.u =~= spec_first.texture_mapping->Some_0.u);
            assert(first.texture_mapping->Some_0.v =~= spec_first.texture_mapping->Some_0.v);
        }
        if quad {
            let spec_second = spec_poly_triangle(p, params, global_texpage, window, 1);
            assert(second->Some_0.vertices =~= spec_second.vertices);
            if p.gouraud_shading {
                assert(second->Some_0.shading->Gouraud_0 =~= spec_second.shading->Gouraud_0);
            }
            if p.textured {
                assert(second->Some_0.texture_mapping->Some_0.u =~= spec_second.texture_mapping->Some_0.u);
                assert(second->Some_0.texture_mapping->Some_0.v =~= spec_second.texture_mapping->Some_0.v);
            }
        }
    }

    (first, second)
}

/// The rectangle's width and height: fixed for the 1x1, 8x8, and 16x16
/// classes, read from the size word for the variable class.
pub open spec fn spec_rect_dims(cmd: RectangleCommandParameters, params: Seq<u32>) -> (u32, u32) {
    let size_idx = 1 + (if cmd.textured { 1int } else { 0int });
    match cmd.size {
        RectangleSize::One => (1u32, 1u32),
        RectangleSize::Eight => (8u32, 8u32),
        RectangleSize::Sixteen => (16u32, 16u32),
        RectangleSize::Variable => (
            (params[size_idx] & 0x3FF) as u32,
            ((params[size_idx] >> 16) & 0x1FF) as u32,
        ),
    }
}

/// The rectangle-draw arguments decoded from the parameter buffer. A
/// textured rectangle reads its palette location and texel coordinates
/// from the word after the position; its texture page is the global one.
pub open spec fn spec_rectangle_args(
    cmd: RectangleCommandParameters,
    params: Seq<u32>,
    texpage: TexturePage,
    window: TextureWindow,
) -> DrawRectangleArgs {
    DrawRectangleArgs {
        top_left: spec_vertex(params[0]),
        width: spec_rect_dims(cmd, params).0,
        height: spec_rect_dims(cmd, params).1,
        color: cmd.color,
        semi_transparent: cmd.semi_transparent,
        semi_transparency_mode: texpage.semi_transparency_mode,
        texture_mapping: if cmd.textured {
            Some(TextureMapping {
                mode: if cmd.raw_texture { TextureMappingMode::Raw } else { TextureMappingMode::Modulated },
                texpage,
                window,
                clut_x: ((params[1] >> 16) & 0x3FF) as u16,
                clut_y: ((params[1] >> 22) & 0x1FF) as u16,
                u: [(params[1] & 0xFF) as u8],
                v: [((params[1] >> 8) & 0xFF) as u8],
            })
        } else {
            None
        },
    }
}

/// Decodes a completed rectangle command into a rectangle dispatch. The
/// texture page, texture window, and blend mode are the global settings
/// at dispatch time.
pub fn parse_draw_rectangle_parameters(
    command_parameters: RectangleCommandParameters,
    parameters: &[u32; 11],
    texpage: TexturePage,
    window: TextureWindow,
) -> (args: DrawRectangleArgs)
    ensures
        args == spec_rectangle_args(command_parameters, parameters@, texpage, window),
{
    let cmd = command_parameters;
    let position = parse_vertex_coordinates(parameters[0]);

    let texture_mapping = if cmd.textured {
        let tex = parameters[1];
        let clut_x_bits = (tex >> 16) & 0x3FF;
        let clut_y_bits = (tex >> 22) & 0x1FF;
        assert(clut_x_bits <= 0x3FF && clut_y_bits <= 0x1FF) by (bit_vector)
            requires
                clut_x_bits == (tex >> 16) & 0x3FF && clut_y_bits == (tex >> 22) & 0x1FF,
        ;
        Some(TextureMapping {
            mode: if cmd.raw_texture { TextureMappingMode::Raw } else { TextureMappingMode::Modulated },
            texpage,
            window,
            clut_x: clut_x_bits as u16,
            clut_y: clut_y_bits as u16,
            u: [word_low_byte(tex)],
            v: [word_second_byte(tex)],
        })
    } else {
        None
    };

    let size_idx: usize = if cmd.textured { 2 } else { 1 };
    let (width, height) = match cmd.size {
        RectangleSize::One => (1, 1),
        RectangleSize::Eight => (8, 8),
        RectangleSize::Sixteen => (16, 16),
        RectangleSize::Variable => {
            let size_word = parameters[size_idx];
            let w_bits = size_word & 0x3FF;
            let h_bits = (size_word >> 16) & 0x1FF;
            assert(w_bits <= 0x3FF && h_bits <= 0x1FF) by (bit_vector)
                requires
                    w_bits == size_word & 0x3FF && h_bits == (size_word >> 16) & 0x1FF,
            ;
            (w_bits, h_bits)
        },
    };

    let args = DrawRectangleArgs {
        top_left: position,
        width,
        height,
        color: cmd.color,
        semi_transparent: cmd.semi_transparent,
        semi_transparency_mode: texpage.semi_transparency_mode,
        texture_mapping,
    };
    proof {
        let spec_args = spec_rectangle_args(cmd, parameters@, texpage, window);
        if cmd.textured {
            assert(args.texture_mapping->Some_0.u =~= spec_args.texture_mapping->Some_0.u);
            assert(args.texture_mapping->Some_0.v =~= spec_args.texture_mapping->Some_0.v);
        }
    }
    args
}



/// The primitive command engine's state apart from VRAM: control state,
/// the parameter accumulation buffer, and the persistent GPU settings.
#[derive(Debug, Clone)]
pub struct Gp0State {
    pub command_state: Gp0CommandState,
    pub parameters: [u32; 11],
    pub global_texture_page: TexturePage,
    pub texture_window: TextureWindow,
    pub draw_settings: DrawSettings,
}

/// The mathematical view of [`Gp0State`]: the same fields with the
/// parameter buffer as a sequence.
#[verifier::ext_equal]
pub struct Gp0View {
    pub command_state: Gp0CommandState,
    pub parameters: Seq<u32>,
    pub global_texture_page: TexturePage,
    pub texture_window: TextureWindow,
    pub draw_settings: DrawSettings,
}

impl View for Gp0State {
    type V = Gp0View;

    open spec fn view(&self) -> Gp0View {
        Gp0View {
            command_state: self.command_state,
            parameters: self.parameters@,
            global_texture_page: self.global_texture_page,
            texture_window: self.texture_window,
            draw_settings: self.draw_settings,
        }
    }
}

/// The engine state at reset: idle, zeroed buffer, zeroed settings.
pub open spec fn spec_gp0_reset() -> Gp0View {
    Gp0View {
        command_state: Gp0CommandState::WaitingForCommand,
        parameters: Seq::new(11, |i: int| 0u32),
        global_texture_page: spec_texture_page(0),
        texture_window: spec_texture_window(0),
        draw_settings: spec_draw_settings_default(),
    }
}

/// A well-formed engine state: the buffer holds 11 words, an in-flight
/// command's parameters fit the buffer, and a streaming cursor sits
/// inside its region.
pub open spec fn spec_gp0_wf(gp0: Gp0View) -> bool {
    &&& gp0.parameters.len() == 11
    &&& match gp0.command_state {
        Gp0CommandState::WaitingForParameters { command, index, remaining } =>
            index + remaining <= 11 && remaining >= 1,
        Gp0CommandState::ReceivingFromCpu(f) => spec_transfer_wf(f),
        Gp0CommandState::SendingToCpu(f) => spec_transfer_wf(f),
        _ => true,
    }
}

impl Gp0State {
    /// The engine state at reset.
    pub fn new() -> (r: Self)
        ensures
            r@ == spec_gp0_reset(),
            spec_gp0_wf(r@),
    {
        let r = Self {
            command_state: Gp0CommandState::WaitingForCommand,
            parameters: [0; 11],
            global_texture_page: TexturePage::new(),
            texture_window: TextureWindow::new(),
            draw_settings: DrawSettings::new(),
        };
        proof {
            assert(r@.parameters =~= spec_gp0_reset().parameters);
            assert(r@ =~= spec_gp0_reset());
        }
        r
    }
}

/// Whether a settings command word names one of the six recognized
/// settings registers.
pub open spec fn spec_settings_command_recognized(command: u32) -> bool {
    0xE1 <= command >> 24 <= 0xE6
}

/// What a recognized settings command does to the persistent settings:
/// each command rewrites exactly one settings area from its own bit
/// fields and touches nothing else.
pub open spec fn spec_settings_applied(gp0: Gp0View, command: u32) -> Gp0View {
    let op = command >> 24;
    if op == 0xE1 {
        // Texture page and draw mode
        Gp0View {
            global_texture_page: spec_texture_page(command),
            draw_settings: DrawSettings {
                drawing_in_display_allowed: bit_set(command, 10),
                dithering_enabled: bit_set(command, 9),
                ..gp0.draw_settings
            },
            ..gp0
        }
    } else if op == 0xE2 {
        // Texture window
        Gp0View { texture_window: spec_texture_window(command), ..gp0 }
    } else if op == 0xE3 {
        // Drawing area top-left
        Gp0View {
            draw_settings: DrawSettings {
                draw_area_top_left: ((command & 0x3FF) as u32, ((command >> 10) & 0x1FF) as u32),
                ..gp0.draw_settings
            },
            ..gp0
        }
    } else if op == 0xE4 {
        // Drawing area bottom-right
        Gp0View {
            draw_settings: DrawSettings {
                draw_area_bottom_right: ((command & 0x3FF) as u32, ((command >> 10) & 0x1FF) as u32),
                ..gp0.draw_settings
            },
            ..gp0
        }
    } else if op == 0xE5 {
        // Signed draw offset: two 11-bit two's-complement fields
        Gp0View {
            draw_settings: DrawSettings {
                draw_offset: (spec_signed_11_bit(command) as i32, spec_signed_11_bit(command >> 11) as i32),
                ..gp0.draw_settings
            },
            ..gp0
        }
    } else {
        // Mask bit settings
        Gp0View {
            draw_settings: DrawSettings {
                force_mask_bit: bit_set(command, 0),
                check_mask_bit: bit_set(command, 1),
                ..gp0.draw_settings
            },
            ..gp0
        }
    }
}

/// Whether the engine accepts `value` in its current state. A command
/// word with no defined classifier branch, and any write while a
/// VRAM-to-CPU transfer is draining, are protocol failures: the original
/// hardware's behavior is undefined and the engine refuses to guess.
pub open spec fn spec_word_accepted(gp0: Gp0View, value: u32) -> bool {
    match gp0.command_state {
        Gp0CommandState::WaitingForCommand => {
            let family = value >> 29;
            if family == 0 {
                value >> 24 == 0x00 || value >> 24 == 0x01 || value >> 24 == 0x02
            } else if family == 7 {
                spec_settings_command_recognized(value)
            } else {
                true
            }
        },
        Gp0CommandState::SendingToCpu(_) => false,
        _ => true,
    }
}

/// The state a fresh command word puts the engine in, by its top 3 bits:
/// `000` no-ops and fill, `001` polygon, `010` line, `011` rectangle,
/// `100`-`110` the three blits. (Settings words, family `111`, act on
/// the settings instead; see [`spec_settings_applied`].)
pub open spec fn spec_classify(value: u32) -> Gp0CommandState {
    let family = value >> 29;
    if family == 0 {
        if value >> 24 == 0x02 {
            Gp0CommandState::WaitingForParameters {
                command: DrawCommand::Fill(spec_command_color(value)),
                index: 0,
                remaining: 2,
            }
        } else {
            Gp0CommandState::WaitingForCommand
        }
    } else if family == 1 {
        Gp0CommandState::WaitingForParameters {
            command: DrawCommand::DrawPolygon(spec_polygon_command(value)),
            index: 0,
            remaining: spec_polygon_param_count(spec_polygon_command(value)),
        }
    } else if family == 2 {
        Gp0CommandState::WaitingForParameters {
            command: DrawCommand::DrawLine(spec_line_command(value)),
            index: 0,
            remaining: spec_line_param_count(spec_line_command(value)),
        }
    } else if family == 3 {
        Gp0CommandState::WaitingForParameters {
            command: DrawCommand::DrawRectangle(spec_rectangle_command(value)),
            index: 0,
            remaining: spec_rectangle_param_count(spec_rectangle_command(value)),
        }
    } else if family == 4 {
        Gp0CommandState::WaitingForParameters { command: DrawCommand::VramToVramBlit, index: 0, remaining: 3 }
    } else if family == 5 {
        Gp0CommandState::WaitingForParameters { command: DrawCommand::CpuToVramBlit, index: 0, remaining: 2 }
    } else if family == 6 {
        Gp0CommandState::WaitingForParameters { command: DrawCommand::VramToCpuBlit, index: 0, remaining: 2 }
    } else {
        Gp0CommandState::WaitingForCommand
    }
}

/// The transfer cursor a completed blit command starts with: destination
/// from the first parameter, size from the second, position at the
/// region's first cell.
pub open spec fn spec_blit_fields(params: Seq<u32>) -> VramTransferFields {
    VramTransferFields {
        destination_x: spec_vram_position(params[0]).0,
        destination_y: spec_vram_position(params[0]).1,
        x_size: spec_vram_size(params[1]).0,
        y_size: spec_vram_size(params[1]).1,
        row: 0,
        col: 0,
    }
}

/// The color a polyline carries into its next segment: the completed
/// segment's second color.
pub open spec fn spec_line_second_color(p: LineCommandParameters, params: Seq<u32>) -> Color {
    if p.gouraud_shading {
        spec_command_color(params[1])
    } else {
        p.color
    }
}

/// What drawing one line segment does: dispatch the segment, and for a
/// polyline command carry the segment's second vertex and color over as
/// the next segment's first by rewriting the buffer's first word -- the
/// decoded values are carried, not re-read, because the buffer cell is
/// about to be overwritten by the next segment's data.
pub open spec fn spec_draw_line(gp0: Gp0View, p: LineCommandParameters) -> (Gp0View, Seq<RasterizerCommand>) {
    let args = spec_line_args(p, gp0.parameters, gp0.global_texture_page.semi_transparency_mode);
    let ops = seq![RasterizerCommand::DrawLine(args, gp0.draw_settings)];
    if p.polyline {
        (
            Gp0View {
                command_state: Gp0CommandState::WaitingForPolyline(
                    LineCommandParameters { color: spec_line_second_color(p, gp0.parameters), ..p },
                ),
                parameters: gp0.parameters.update(0, spec_pack_vertex(args.vertices[1])),
                ..gp0
            },
            ops,
        )
    } else {
        (Gp0View { command_state: Gp0CommandState::WaitingForCommand, ..gp0 }, ops)
    }
}

/// What a completed command does to the engine state and what it
/// dispatches. (The two VRAM-writing completions' effect on VRAM itself
/// is stated by [`spec_vram_effect`].)
pub open spec fn spec_execute_command(gp0: Gp0View, command: DrawCommand) -> (Gp0View, Seq<RasterizerCommand>) {
    match command {
        DrawCommand::Fill(color) => (
            Gp0View { command_state: Gp0CommandState::WaitingForCommand, ..gp0 },
            seq![
                RasterizerCommand::VramFill {
                    x: (gp0.parameters[0] & 0xFFFF) as u32,
                    y: (gp0.parameters[0] >> 16) as u32,
                    width: (gp0.parameters[1] & 0xFFFF) as u32,
                    height: (gp0.parameters[1] >> 16) as u32,
                    color,
                },
            ],
        ),
        DrawCommand::DrawLine(p) => spec_draw_line(gp0, p),
        DrawCommand::DrawPolygon(p) => {
            let (first, second) = spec_polygon_args(p, gp0.parameters, gp0.global_texture_page, gp0.texture_window);
            (
                Gp0View { command_state: Gp0CommandState::WaitingForCommand, ..gp0 },
                match second {
                    Some(second) => seq![
                        RasterizerCommand::DrawTriangle(first, gp0.draw_settings),
                        RasterizerCommand::DrawTriangle(second, gp0.draw_settings),
                    ],
                    None => seq![RasterizerCommand::DrawTriangle(first, gp0.draw_settings)],
                },
            )
        },
        DrawCommand::DrawRectangle(p) => (
            Gp0View { command_state: Gp0CommandState::WaitingForCommand, ..gp0 },
            seq![
                RasterizerCommand::DrawRectangle(
                    spec_rectangle_args(p, gp0.parameters, gp0.global_texture_page, gp0.texture_window),
                    gp0.draw_settings,
                ),
            ],
        ),
        DrawCommand::VramToVramBlit => (
            Gp0View { command_state: Gp0CommandState::WaitingForCommand, ..gp0 },
            seq![],
        ),
        DrawCommand::CpuToVramBlit => (
            Gp0View { command_state: Gp0CommandState::ReceivingFromCpu(spec_blit_fields(gp0.parameters)), ..gp0 },
            seq![],
        ),
        DrawCommand::VramToCpuBlit => (
            Gp0View { command_state: Gp0CommandState::SendingToCpu(spec_blit_fields(gp0.parameters)), ..gp0 },
            seq![],
        ),
    }
}

/// The control state after one word of a CPU-to-VRAM transfer: two
/// pixels ahead, idle as soon as the region's last cell was consumed --
/// the second pixel of the final word, if any, is discarded.
pub open spec fn spec_transfer_next_state(f: VramTransferFields) -> Gp0CommandState {
    if spec_cursor_last(f) {
        Gp0CommandState::WaitingForCommand
    } else {
        let f1 = spec_cursor_next(f);
        if spec_cursor_last(f1) {
            Gp0CommandState::WaitingForCommand
        } else {
            Gp0CommandState::ReceivingFromCpu(spec_cursor_next(f1))
        }
    }
}

/// The engine's transition function on everything but VRAM: one word in,
/// the next state and the dispatched rasterizer calls out.
pub open spec fn spec_gp0_step(gp0: Gp0View, value: u32) -> (Gp0View, Seq<RasterizerCommand>) {
    match gp0.command_state {
        Gp0CommandState::WaitingForCommand => {
            if value >> 29 == 7 {
                (spec_settings_applied(gp0, value), seq![])
            } else {
                (Gp0View { command_state: spec_classify(value), ..gp0 }, seq![])
            }
        },
        Gp0CommandState::WaitingForParameters { command, index, remaining } => {
            let stored = Gp0View { parameters: gp0.parameters.update(index as int, value), ..gp0 };
            if remaining == 1 {
                spec_execute_command(stored, command)
            } else {
                (
                    Gp0View {
                        command_state: Gp0CommandState::WaitingForParameters {
                            command,
                            index: (index + 1) as u8,
                            remaining: (remaining - 1) as u8,
                        },
                        ..stored
                    },
                    seq![],
                )
            }
        },
        Gp0CommandState::WaitingForPolyline(p) => {
            if value & 0xF000F000 == 0x50005000 {
                (Gp0View { command_state: Gp0CommandState::WaitingForCommand, ..gp0 }, seq![])
            } else {
                let stored = Gp0View { parameters: gp0.parameters.update(1, value), ..gp0 };
                if p.gouraud_shading {
                    (
                        Gp0View {
                            command_state: Gp0CommandState::WaitingForParameters {
                                command: DrawCommand::DrawLine(p),
                                index: 2,
                                remaining: 1,
                            },
                            ..stored
                        },
                        seq![],
                    )
                } else {
                    spec_draw_line(stored, p)
                }
            }
        },
        Gp0CommandState::ReceivingFromCpu(f) => (
            Gp0View { command_state: spec_transfer_next_state(f), ..gp0 },
            seq![],
        ),
        Gp0CommandState::SendingToCpu(_) => (gp0, seq![]),
    }
}

/// VRAM with one 16-bit pixel written at byte address `addr`, low byte
/// first.
pub open spec fn spec_write_pixel(vram: Seq<u8>, addr: int, pixel: u32) -> Seq<u8> {
    vram.update(addr, (pixel & 0xFF) as u8).update(addr + 1, ((pixel >> 8) & 0xFF) as u8)
}

/// VRAM after one word of a CPU-to-VRAM transfer: the word's low
/// halfword lands at the cursor, the high halfword at the next cell
/// unless the low one was the region's last.
pub open spec fn spec_receive_vram(vram: Seq<u8>, f: VramTransferFields, value: u32) -> Seq<u8> {
    let first = spec_write_pixel(vram, spec_vram_addr(f), value & 0xFFFF);
    if spec_cursor_last(f) {
        first
    } else {
        spec_write_pixel(first, spec_vram_addr(spec_cursor_next(f)), value >> 16)
    }
}

/// VRAM with one pixel copied from `(sx, sy)` to `(dx, dy)`, both
/// already wrapped.
pub open spec fn spec_copy_one(vram: Seq<u8>, sx: int, sy: int, dx: int, dy: int) -> Seq<u8> {
    let saddr = 2048 * sy + 2 * sx;
    let daddr = 2048 * dy + 2 * dx;
    vram.update(daddr, vram[saddr]).update(daddr + 1, vram[saddr + 1])
}

/// VRAM after the first `k` pixels of a VRAM-to-VRAM copy, taken in
/// raster order; reads see earlier writes, as on hardware, because the
/// copy runs cell by cell.
pub open spec fn spec_copy_upto(
    vram: Seq<u8>,
    sx0: int,
    sy0: int,
    dx0: int,
    dy0: int,
    width: int,
    k: nat,
) -> Seq<u8>
    decreases k,
{
    if k == 0 {
        vram
    } else {
        let prev = spec_copy_upto(vram, sx0, sy0, dx0, dy0, width, (k - 1) as nat);
        let r = (k - 1) / width;
        let c = (k - 1) % width;
        spec_copy_one(prev, (sx0 + c) % 0x400, (sy0 + r) % 0x200, (dx0 + c) % 0x400, (dy0 + r) % 0x200)
    }
}

/// VRAM after a whole VRAM-to-VRAM copy whose three parameters sit in
/// the buffer: source position, destination position, size.
pub open spec fn spec_vram_copy(vram: Seq<u8>, params: Seq<u32>) -> Seq<u8> {
    let sx0 = (params[0] & 0x3FF) as int;
    let sy0 = ((params[0] >> 16) & 0x1FF) as int;
    let dx0 = (params[1] & 0x3FF) as int;
    let dy0 = ((params[1] >> 16) & 0x1FF) as int;
    let width = spec_vram_size(params[2]).0 as int;
    let height = spec_vram_size(params[2]).1 as int;
    spec_copy_upto(vram, sx0, sy0, dx0, dy0, width, (width * height) as nat)
}

/// What one incoming word does to VRAM: nothing, unless it completes a
/// VRAM-to-VRAM copy or streams two pixels of a CPU-to-VRAM transfer.
pub open spec fn spec_vram_effect(gp0: Gp0View, vram: Seq<u8>, value: u32) -> Seq<u8> {
    match gp0.command_state {
        Gp0CommandState::WaitingForParameters { command, index, remaining } => {
            if remaining == 1 && command == DrawCommand::VramToVramBlit {
                spec_vram_copy(vram, gp0.parameters.update(index as int, value))
            } else {
                vram
            }
        },
        Gp0CommandState::ReceivingFromCpu(f) => spec_receive_vram(vram, f, value),
        _ => vram,
    }
}



/// The signed 11-bit decode always lands in `-1024 ..= 1023`.
pub proof fn lemma_signed_11_bit_range(w: u32)
    ensures
        -1024 <= spec_signed_11_bit(w) < 1024,
{
    assert(w & 0x7FF < 0x800 && (w & 0x400 == 0 ==> w & 0x7FF < 0x400) && (w & 0x400 != 0 ==> w & 0x7FF >= 0x400)) by (bit_vector);
}

/// Both coordinates of a decoded vertex lie in the signed 11-bit range.
pub proof fn lemma_vertex_range(w: u32)
    ensures
        -1024 <= spec_vertex(w).x < 1024,
        -1024 <= spec_vertex(w).y < 1024,
{
    lemma_signed_11_bit_range(w);
    lemma_signed_11_bit_range(w >> 16);
}

/// One 16-bit pixel read out of VRAM at byte address `addr`, low byte
/// first.
pub open spec fn spec_pixel_16(vram: Seq<u8>, addr: int) -> u32 {
    (vram[addr] as u32) | ((vram[addr + 1] as u32) << 8)
}

/// The control state after one word of a VRAM-to-CPU transfer is
/// drained: two pixels ahead, idle as soon as the region is exhausted.
pub open spec fn spec_send_next_state(f: VramTransferFields) -> Gp0CommandState {
    if spec_cursor_last(f) {
        Gp0CommandState::WaitingForCommand
    } else {
        let f1 = spec_cursor_next(f);
        if spec_cursor_last(f1) {
            Gp0CommandState::WaitingForCommand
        } else {
            Gp0CommandState::SendingToCpu(spec_cursor_next(f1))
        }
    }
}

/// The word one read drains from a VRAM-to-CPU transfer: the cursor's
/// pixel in the low halfword and, unless that pixel was the region's
/// last, the next pixel in the high halfword.
pub open spec fn spec_read_word(vram: Seq<u8>, f: VramTransferFields) -> u32 {
    let lo = spec_pixel_16(vram, spec_vram_addr(f));
    if spec_cursor_last(f) {
        lo
    } else {
        (lo | (spec_pixel_16(vram, spec_vram_addr(spec_cursor_next(f))) << 16)) as u32
    }
}

/// The whole device as the engine sees it: the command engine state and
/// the VRAM buffer it streams pixels into.
#[derive(Debug, Clone)]
pub struct Gpu {
    pub gp0: Gp0State,
    pub vram: Vec<u8>,
}

/// The mathematical view of [`Gpu`].
#[verifier::ext_equal]
pub struct GpuView {
    pub gp0: Gp0View,
    pub vram: Seq<u8>,
}

impl View for Gpu {
    type V = GpuView;

    open spec fn view(&self) -> GpuView {
        GpuView { gp0: self.gp0@, vram: self.vram@ }
    }
}

/// A well-formed device: well-formed engine state and full-size VRAM.
pub open spec fn spec_gpu_wf(g: GpuView) -> bool {
    spec_gp0_wf(g.gp0) && g.vram.len() == VRAM_LEN
}

/// The device's full transition on one incoming command word: engine
/// state, dispatched rasterizer calls, and VRAM.
pub open spec fn spec_gpu_step(g: GpuView, value: u32) -> (GpuView, Seq<RasterizerCommand>) {
    let (gp0_next, ops) = spec_gp0_step(g.gp0, value);
    (GpuView { gp0: gp0_next, vram: spec_vram_effect(g.gp0, g.vram, value) }, ops)
}

impl Gpu {
    /// A device at reset: idle engine and zeroed VRAM.
    pub fn new() -> (r: Self)
        ensures
            spec_gpu_wf(r@),
            r@.gp0 == spec_gp0_reset(),
            forall|i: int| 0 <= i < VRAM_LEN ==> r@.vram[i] == 0,
    {
        let mut vram: Vec<u8> = Vec::new();
        while vram.len() < VRAM_LEN
            invariant
                vram@.len() <= VRAM_LEN,
                forall|i: int| 0 <= i < vram@.len() ==> vram@[i] == 0,
            decreases VRAM_LEN - vram@.len(),
        {
            vram.push(0);
        }
        Gpu { gp0: Gp0State::new(), vram }
    }

    /// Describes a completed fill command for the rasterizer: position
    /// from the first parameter, size from the second, nothing masked.
    fn vram_fill(&self, color: Color) -> (op: RasterizerCommand)
        requires
            self.gp0@.parameters.len() == 11,
        ensures
            op == (RasterizerCommand::VramFill {
                x: self.gp0@.parameters[0] & 0xFFFF,
                y: self.gp0@.parameters[0] >> 16,
                width: self.gp0@.parameters[1] & 0xFFFF,
                height: self.gp0@.parameters[1] >> 16,
                color,
            }),
    {
        let x = self.gp0.parameters[0] & 0xFFFF;
        let y = self.gp0.parameters[0] >> 16;
        let width = self.gp0.parameters[1] & 0xFFFF;
        let height = self.gp0.parameters[1] >> 16;
        RasterizerCommand::VramFill { x, y, width, height, color }
    }

    /// Draws one line segment: decodes it against the current settings
    /// and, for a polyline, carries the segment's second vertex and
    /// color over as the next segment's first.
    fn draw_line(&mut self, command_parameters: LineCommandParameters) -> (r: (
        Gp0CommandState,
        RasterizerCommand,
    ))
        requires
            spec_gpu_wf(old(self)@),
        ensures
            ({
                let (sv, sops) = spec_draw_line(old(self).gp0@, command_parameters);
                &&& final(self).gp0@ == (Gp0View { command_state: old(self).gp0@.command_state, ..sv })
                &&& r.0 == sv.command_state
                &&& sops == seq![r.1]
                &&& final(self).vram == old(self).vram
                &&& spec_gpu_wf(GpuView { gp0: Gp0View { command_state: r.0, ..final(self).gp0@ }, vram: final(self).vram@ })
            }),
    {
        let stm = self.gp0.global_texture_page.semi_transparency_mode;
        let args = parse_draw_line_parameters(command_parameters, &self.gp0.parameters, stm);
        let v1 = args.vertices[1];
        let op = RasterizerCommand::DrawLine(args, self.gp0.draw_settings);

        if command_parameters.polyline {
            // Pretend that the previous second vertex/color is now the
            // first vertex/color.
            proof {
                let widx = if command_parameters.gouraud_shading { 2int } else { 1int };
                lemma_vertex_range(old(self).gp0@.parameters[widx]);
            }
            self.gp0.parameters[0] = pack_vertex(v1);
            let new_first_color = match args.shading {
                Shading::Flat(color) => color,
                Shading::Gouraud(colors) => colors[1],
            };
            proof {
                assert(self.gp0@ =~= (Gp0View {
                    command_state: old(self).gp0@.command_state,
                    ..spec_draw_line(old(self).gp0@, command_parameters).0
                }));
            }
            (
                Gp0CommandState::WaitingForPolyline(LineCommandParameters {
                    color: new_first_color,
                    ..command_parameters
                }),
                op,
            )
        } else {
            proof {
                assert(self.gp0@ =~= (Gp0View {
                    command_state: old(self).gp0@.command_state,
                    ..spec_draw_line(old(self).gp0@, command_parameters).0
                }));
            }
            (Gp0CommandState::WaitingForCommand, op)
        }
    }

    /// Describes a completed polygon command for the rasterizer: one
    /// triangle, or two for a quad.
    fn draw_polygon(&self, command_parameters: PolygonCommandParameters) -> (r: (
        RasterizerCommand,
        Option<RasterizerCommand>,
    ))
        requires
            self.gp0@.parameters.len() == 11,
        ensures
            ({
                let (first, second) = spec_polygon_args(
                    command_parameters,
                    self.gp0@.parameters,
                    self.gp0@.global_texture_page,
                    self.gp0@.texture_window,
                );
                &&& r.0 == RasterizerCommand::DrawTriangle(first, self.gp0@.draw_settings)
                &&& match second {
                    Some(second) => r.1 == Some(RasterizerCommand::DrawTriangle(second, self.gp0@.draw_settings)),
                    None => r.1 is None,
                }
            }),
    {
        let (first_params, second_params) = parse_draw_polygon_parameters(
            command_parameters,
            &self.gp0.parameters,
            self.gp0.global_texture_page,
            self.gp0.texture_window,
        );
        let first = RasterizerCommand::DrawTriangle(first_params, self.gp0.draw_settings);
        let second = match second_params {
            Some(second_params) => Some(RasterizerCommand::DrawTriangle(second_params, self.gp0.draw_settings)),
            None => None,
        };
        (first, second)
    }

    /// Describes a completed rectangle command for the rasterizer.
    fn draw_rectangle(&self, command_parameters: RectangleCommandParameters) -> (op: RasterizerCommand)
        requires
            self.gp0@.parameters.len() == 11,
        ensures
            op == RasterizerCommand::DrawRectangle(
                spec_rectangle_args(
                    command_parameters,
                    self.gp0@.parameters,
                    self.gp0@.global_texture_page,
                    self.gp0@.texture_window,
                ),
                self.gp0@.draw_settings,
            ),
    {
        let args = parse_draw_rectangle_parameters(
            command_parameters,
            &self.gp0.parameters,
            self.gp0.global_texture_page,
            self.gp0.texture_window,
        );
        RasterizerCommand::DrawRectangle(args, self.gp0.draw_settings)
    }

    /// Applies a recognized settings command: each one rewrites exactly
    /// one settings area from its own bit fields.
    fn execute_settings_command(&mut self, command: u32)
        requires
            spec_settings_command_recognized(command),
        ensures
            final(self).gp0@ == spec_settings_applied(old(self).gp0@, command),
            final(self).vram == old(self).vram,
    {
        let op = command >> 24;
        if op == 0xE1 {
            // Texture page and draw mode
            self.gp0.global_texture_page = TexturePage::from_command_word(command);
            self.gp0.draw_settings.drawing_in_display_allowed = word_bit(command, 10);
            self.gp0.draw_settings.dithering_enabled = word_bit(command, 9);
        } else if op == 0xE2 {
            // Texture window
            self.gp0.texture_window = TextureWindow::from_command_word(command);
        } else if op == 0xE3 {
            // Drawing area top-left
            let x1 = command & 0x3FF;
            let y1 = (command >> 10) & 0x1FF;
            self.gp0.draw_settings.draw_area_top_left = (x1, y1);
        } else if op == 0xE4 {
            // Drawing area bottom-right
            let x2 = command & 0x3FF;
            let y2 = (command >> 10) & 0x1FF;
            self.gp0.draw_settings.draw_area_bottom_right = (x2, y2);
        } else if op == 0xE5 {
            // Drawing offset: two signed 11-bit fields
            let x_offset = parse_signed_11_bit(command);
            let y_offset = parse_signed_11_bit(command >> 11);
            self.gp0.draw_settings.draw_offset = (x_offset, y_offset);
        } else {
            // Mask bit settings
            self.gp0.draw_settings.force_mask_bit = word_bit(command, 0);
            self.gp0.draw_settings.check_mask_bit = word_bit(command, 1);
        }
    }
}



impl Gpu {
    /// Runs a completed VRAM-to-VRAM copy: three parameters give source
    /// position, destination position, and size; pixels are copied cell
    /// by cell in raster order with both axes wrapped, so an overlapping
    /// copy reads earlier writes, as the hardware does.
    fn execute_vram_copy(&mut self)
        requires
            spec_gpu_wf(old(self)@),
        ensures
            final(self).gp0 == old(self).gp0,
            final(self).vram@ == spec_vram_copy(old(self).vram@, old(self).gp0@.parameters),
            final(self).vram@.len() == VRAM_LEN,
    {
        let source_x_base = self.gp0.parameters[0] & 0x3FF;
        let source_y_base = (self.gp0.parameters[0] >> 16) & 0x1FF;
        let dest_x_base = self.gp0.parameters[1] & 0x3FF;
        let dest_y_base = (self.gp0.parameters[1] >> 16) & 0x1FF;
        let (width, height) = parse_vram_size(self.gp0.parameters[2]);

        proof {
            let p0 = old(self).gp0@.parameters[0];
            let p1 = old(self).gp0@.parameters[1];
            assert(p0 & 0x3FF <= 0x3FF && (p0 >> 16) & 0x1FF <= 0x1FF && p1 & 0x3FF <= 0x3FF && (p1 >> 16) & 0x1FF <= 0x1FF) by (bit_vector);
        }

        let mut row: u32 = 0;
        while row < height
            invariant
                spec_gpu_wf(old(self)@),
                self.gp0 == old(self).gp0,
                row <= height,
                source_x_base <= 0x3FF && dest_x_base <= 0x3FF,
                source_y_base <= 0x1FF && dest_y_base <= 0x1FF,
                source_x_base == old(self).gp0@.parameters[0] & 0x3FF,
                source_y_base == (old(self).gp0@.parameters[0] >> 16) & 0x1FF,
                dest_x_base == old(self).gp0@.parameters[1] & 0x3FF,
                dest_y_base == (old(self).gp0@.parameters[1] >> 16) & 0x1FF,
                (width, height) == spec_vram_size(old(self).gp0@.parameters[2]),
                1 <= width <= 0x400 && 1 <= height <= 0x200,
                self.vram@.len() == VRAM_LEN,
                self.vram@ == spec_copy_upto(
                    old(self).vram@,
                    source_x_base as int,
                    source_y_base as int,
                    dest_x_base as int,
                    dest_y_base as int,
                    width as int,
                    (row * width) as nat,
                ),
            decreases height - row,
        {
            let mut col: u32 = 0;
            while col < width
                invariant
                    spec_gpu_wf(old(self)@),
                    self.gp0 == old(self).gp0,
                    row < height,
                    col <= width,
                    source_x_base <= 0x3FF && dest_x_base <= 0x3FF,
                    source_y_base <= 0x1FF && dest_y_base <= 0x1FF,
                    source_x_base == old(self).gp0@.parameters[0] & 0x3FF,
                    source_y_base == (old(self).gp0@.parameters[0] >> 16) & 0x1FF,
                    dest_x_base == old(self).gp0@.parameters[1] & 0x3FF,
                    dest_y_base == (old(self).gp0@.parameters[1] >> 16) & 0x1FF,
                    (width, height) == spec_vram_size(old(self).gp0@.parameters[2]),
                    1 <= width <= 0x400 && 1 <= height <= 0x200,
                    self.vram@.len() == VRAM_LEN,
                    self.vram@ == spec_copy_upto(
                        old(self).vram@,
                        source_x_base as int,
                        source_y_base as int,
                        dest_x_base as int,
                        dest_y_base as int,
                        width as int,
                        (row * width + col) as nat,
                    ),
                decreases width - col,
            {
                let source_x = (source_x_base + col) & 0x3FF;
                let source_y = (source_y_base + row) & 0x1FF;
                let dest_x = (dest_x_base + col) & 0x3FF;
                let dest_y = (dest_y_base + row) & 0x1FF;

                proof {
                    let sxs: u32 = (source_x_base + col) as u32;
                    let sys: u32 = (source_y_base + row) as u32;
                    let dxs: u32 = (dest_x_base + col) as u32;
                    let dys: u32 = (dest_y_base + row) as u32;
                    assert(sxs & 0x3FF == sxs % 0x400 && sxs % 0x400 < 0x400) by (bit_vector);
                    assert(dxs & 0x3FF == dxs % 0x400 && dxs % 0x400 < 0x400) by (bit_vector);
                    assert(sys & 0x1FF == sys % 0x200 && sys % 0x200 < 0x200) by (bit_vector);
                    assert(dys & 0x1FF == dys % 0x200 && dys % 0x200 < 0x200) by (bit_vector);
                }

                let source_addr = (2048 * source_y + 2 * source_x) as usize;
                let dest_addr = (2048 * dest_y + 2 * dest_x) as usize;

                let b0 = self.vram[source_addr];
                let b1 = self.vram[source_addr + 1];
                self.vram[dest_addr] = b0;
                self.vram[dest_addr + 1] = b1;

                proof {
                    let k = row as int * width as int + col as int;
                    lemma_fundamental_div_mod_converse(k, width as int, row as int, col as int);
                    assert(self.vram@ =~= spec_copy_upto(
                        old(self).vram@,
                        source_x_base as int,
                        source_y_base as int,
                        dest_x_base as int,
                        dest_y_base as int,
                        width as int,
                        (k + 1) as nat,
                    ));
                }

                col = col + 1;
            }

            proof {
                assert((row + 1) as int * width as int == row as int * width as int + width as int) by (nonlinear_arith);
            }
            row = row + 1;
        }

        proof {
            assert(height as int * width as int == width as int * height as int) by (nonlinear_arith);
        }
    }

    /// Streams one written word of a CPU-to-VRAM transfer into VRAM: two
    /// packed pixels land at consecutive cursor cells, and the engine
    /// settles back to idle as soon as the region's last cell is
    /// consumed -- the second pixel of the final word is discarded.
    fn receive_vram_word_from_cpu(&mut self, value: u32, fields: VramTransferFields) -> (st: Gp0CommandState)
        requires
            spec_gpu_wf(old(self)@),
            spec_transfer_wf(fields),
        ensures
            st == spec_transfer_next_state(fields),
            final(self).gp0 == old(self).gp0,
            final(self).vram@ == spec_receive_vram(old(self).vram@, fields, value),
            final(self).vram@.len() == VRAM_LEN,
            match st {
                Gp0CommandState::ReceivingFromCpu(f) => spec_transfer_wf(f),
                _ => st == Gp0CommandState::WaitingForCommand,
            },
    {
        let mut f = fields;
        let lo = value & 0xFFFF;
        let hi = value >> 16;
        proof {
            assert(lo & 0xFF < 0x100 && (lo >> 8) & 0xFF < 0x100 && hi & 0xFF < 0x100 && (hi >> 8) & 0xFF < 0x100) by (bit_vector)
                requires
                    lo == value & 0xFFFF && hi == value >> 16,
            ;
        }

        let addr = f.vram_addr() as usize;
        self.vram[addr] = (lo & 0xFF) as u8;
        self.vram[addr + 1] = ((lo >> 8) & 0xFF) as u8;

        if matches!(f.increment(), IncrementEffect::Finished) {
            return Gp0CommandState::WaitingForCommand;
        }

        let addr2 = f.vram_addr() as usize;
        self.vram[addr2] = (hi & 0xFF) as u8;
        self.vram[addr2 + 1] = ((hi >> 8) & 0xFF) as u8;

        if matches!(f.increment(), IncrementEffect::Finished) {
            Gp0CommandState::WaitingForCommand
        } else {
            Gp0CommandState::ReceivingFromCpu(f)
        }
    }

    /// Drains one word of a VRAM-to-CPU transfer: two pixels read at
    /// consecutive cursor cells, packed low halfword first; the engine
    /// settles back to idle once the region is exhausted. Reads drive
    /// this transfer, so the engine's own state is rewritten here.
    pub fn read_vram_word_for_cpu(&mut self, fields: VramTransferFields) -> (word: u32)
        requires
            spec_gpu_wf(old(self)@),
            spec_transfer_wf(fields),
        ensures
            word == spec_read_word(old(self).vram@, fields),
            final(self).vram == old(self).vram,
            final(self).gp0@ == (Gp0View { command_state: spec_send_next_state(fields), ..old(self).gp0@ }),
            spec_gpu_wf(final(self)@),
    {
        let mut f = fields;

        let addr = f.vram_addr() as usize;
        let b0 = self.vram[addr];
        let b1 = self.vram[addr + 1];
        let lo = (b0 as u32) | ((b1 as u32) << 8);
        proof {
            let b1g = b1;
            assert((b1g as u32) << 8 <= 0xFF00) by (bit_vector);
        }

        if matches!(f.increment(), IncrementEffect::Finished) {
            self.gp0.command_state = Gp0CommandState::WaitingForCommand;
            proof {
                assert(self.gp0@ =~= (Gp0View { command_state: spec_send_next_state(fields), ..old(self).gp0@ }));
            }
            return lo;
        }

        let addr2 = f.vram_addr() as usize;
        let b2 = self.vram[addr2];
        let b3 = self.vram[addr2 + 1];
        let hi = (b2 as u32) | ((b3 as u32) << 8);
        proof {
            let b3g = b3;
            let hig = hi;
            assert((b3g as u32) << 8 <= 0xFF00) by (bit_vector);
            assert(hig <= 0xFFFF ==> hig << 16 <= 0xFFFF0000) by (bit_vector);
        }
        let word = lo | (hi << 16);

        if matches!(f.increment(), IncrementEffect::Finished) {
            self.gp0.command_state = Gp0CommandState::WaitingForCommand;
        } else {
            self.gp0.command_state = Gp0CommandState::SendingToCpu(f);
        }
        proof {
            assert(self.gp0@ =~= (Gp0View { command_state: spec_send_next_state(fields), ..old(self).gp0@ }));
        }
        word
    }

    /// Executes a command whose last parameter word just arrived:
    /// dispatches draws, runs the VRAM copy, or opens a streaming
    /// transfer. Returns the engine's next control state and the
    /// dispatched rasterizer calls.
    fn execute_draw_command(&mut self, command: DrawCommand) -> (r: (
        Gp0CommandState,
        Vec<RasterizerCommand>,
    ))
        requires
            spec_gpu_wf(old(self)@),
        ensures
            ({
                let (sv, sops) = spec_execute_command(old(self).gp0@, command);
                &&& final(self).gp0@ == (Gp0View { command_state: old(self).gp0@.command_state, ..sv })
                &&& r.0 == sv.command_state
                &&& r.1@ == sops
                &&& final(self).vram@ == (if command == DrawCommand::VramToVramBlit {
                    spec_vram_copy(old(self).vram@, old(self).gp0@.parameters)
                } else {
                    old(self).vram@
                })
                &&& spec_gpu_wf(GpuView {
                    gp0: Gp0View { command_state: r.0, ..final(self).gp0@ },
                    vram: final(self).vram@,
                })
            }),
    {
        let mut ops: Vec<RasterizerCommand> = Vec::new();
        match command {
            DrawCommand::Fill(color) => {
                let op = self.vram_fill(color);
                ops.push(op);
                proof {
                    assert(ops@ =~= spec_execute_command(old(self).gp0@, command).1);
                }
                (Gp0CommandState::WaitingForCommand, ops)
            },
            DrawCommand::DrawLine(parameters) => {
                let (st, op) = self.draw_line(parameters);
                ops.push(op);
                proof {
                    assert(ops@ =~= spec_execute_command(old(self).gp0@, command).1);
                }
                (st, ops)
            },
            DrawCommand::DrawPolygon(parameters) => {
                let (first, second) = self.draw_polygon(parameters);
                ops.push(first);
                if let Some(second) = second {
                    ops.push(second);
                }
                proof {
                    assert(ops@ =~= spec_execute_command(old(self).gp0@, command).1);
                }
                (Gp0CommandState::WaitingForCommand, ops)
            },
            DrawCommand::DrawRectangle(parameters) => {
                let op = self.draw_rectangle(parameters);
                ops.push(op);
                proof {
                    assert(ops@ =~= spec_execute_command(old(self).gp0@, command).1);
                }
                (Gp0CommandState::WaitingForCommand, ops)
            },
            DrawCommand::VramToVramBlit => {
                self.execute_vram_copy();
                (Gp0CommandState::WaitingForCommand, ops)
            },
            DrawCommand::CpuToVramBlit => {
                let (destination_x, destination_y) = parse_vram_position(self.gp0.parameters[0]);
                let (x_size, y_size) = parse_vram_size(self.gp0.parameters[1]);
                (
                    Gp0CommandState::ReceivingFromCpu(VramTransferFields {
                        destination_x,
                        destination_y,
                        x_size,
                        y_size,
                        row: 0,
                        col: 0,
                    }),
                    ops,
                )
            },
            DrawCommand::VramToCpuBlit => {
                let (destination_x, destination_y) = parse_vram_position(self.gp0.parameters[0]);
                let (x_size, y_size) = parse_vram_size(self.gp0.parameters[1]);
                (
                    Gp0CommandState::SendingToCpu(VramTransferFields {
                        destination_x,
                        destination_y,
                        x_size,
                        y_size,
                        row: 0,
                        col: 0,
                    }),
                    ops,
                )
            },
        }
    }

    /// Whether the engine accepts `value` in its current state, as
    /// [`spec_word_accepted`] states: a host must refuse the word as a
    /// protocol failure when this returns false.
    pub fn accepts_gp0_word(&self, value: u32) -> (r: bool)
        ensures
            r == spec_word_accepted(self.gp0@, value),
    {
        match self.gp0.command_state {
            Gp0CommandState::WaitingForCommand => {
                let family = value >> 29;
                if family == 0 {
                    value >> 24 == 0x00 || value >> 24 == 0x01 || value >> 24 == 0x02
                } else if family == 7 {
                    let op = value >> 24;
                    0xE1 <= op && op <= 0xE6
                } else {
                    true
                }
            },
            Gp0CommandState::SendingToCpu(_) => false,
            _ => true,
        }
    }

    /// Consumes one command word, in arrival order: classifies it when
    /// idle, accumulates it as a parameter, chains or ends a polyline,
    /// or streams it into VRAM, exactly as [`spec_gpu_step`] states.
    /// Returns the rasterizer calls this word's command dispatched.
    ///
    /// A word the engine does not accept -- an unrecognized command code
    /// or a write during a VRAM-to-CPU transfer -- is a protocol failure
    /// the caller must refuse beforehand; see [`spec_word_accepted`].
    pub fn handle_gp0_write(&mut self, value: u32) -> (ops: Vec<RasterizerCommand>)
        requires
            spec_gpu_wf(old(self)@),
            spec_word_accepted(old(self).gp0@, value),
        ensures
            spec_gpu_wf(final(self)@),
            final(self)@ == spec_gpu_step(old(self)@, value).0,
            ops@ == spec_gpu_step(old(self)@, value).1,
    {
        let mut ops: Vec<RasterizerCommand> = Vec::new();
        match self.gp0.command_state {
            Gp0CommandState::WaitingForCommand => {
                let family = value >> 29;
                if family == 0 {
                    if value >> 24 == 0x02 {
                        // VRAM fill
                        self.gp0.command_state = Gp0CommandState::fill(value);
                    }
                    // 0x00 is a no-op; 0x01 clears the texture cache,
                    // which this engine does not model.
                } else if family == 1 {
                    self.gp0.command_state = Gp0CommandState::draw_polygon(value);
                    proof {
                        lemma_polygon_param_count_range(spec_polygon_command(value));
                    }
                } else if family == 2 {
                    self.gp0.command_state = Gp0CommandState::draw_line(value);
                } else if family == 3 {
                    self.gp0.command_state = Gp0CommandState::draw_rectangle(value);
                } else if family == 4 {
                    self.gp0.command_state = Gp0CommandState::WaitingForParameters {
                        command: DrawCommand::VramToVramBlit,
                        index: 0,
                        remaining: 3,
                    };
                } else if family == 5 {
                    self.gp0.command_state = Gp0CommandState::WaitingForParameters {
                        command: DrawCommand::CpuToVramBlit,
                        index: 0,
                        remaining: 2,
                    };
                } else if family == 6 {
                    self.gp0.command_state = Gp0CommandState::WaitingForParameters {
                        command: DrawCommand::VramToCpuBlit,
                        index: 0,
                        remaining: 2,
                    };
                } else {
                    // Family 111: settings commands, no parameters.
                    proof {
                        assert(family == 7) by (bit_vector)
                            requires
                                family == value >> 29 && !(family == 0 || family == 1 || family == 2
                                    || family == 3 || family == 4 || family == 5 || family == 6),
                        ;
                    }
                    self.execute_settings_command(value);
                }
            },
            Gp0CommandState::WaitingForParameters { command, index, remaining } => {
                self.gp0.parameters[index as usize] = value;
                if remaining == 1 {
                    let (next_state, command_ops) = self.execute_draw_command(command);
                    self.gp0.command_state = next_state;
                    ops = command_ops;
                } else {
                    self.gp0.command_state = Gp0CommandState::WaitingForParameters {
                        command,
                        index: index + 1,
                        remaining: remaining - 1,
                    };
                }
            },
            Gp0CommandState::WaitingForPolyline(parameters) => {
                if value & 0xF000F000 == 0x50005000 {
                    // Polyline end marker
                    self.gp0.command_state = Gp0CommandState::WaitingForCommand;
                } else {
                    self.gp0.parameters[1] = value;
                    if parameters.gouraud_shading {
                        // One more word is needed: the second vertex.
                        self.gp0.command_state = Gp0CommandState::WaitingForParameters {
                            command: DrawCommand::DrawLine(parameters),
                            index: 2,
                            remaining: 1,
                        };
                    } else {
                        let (next_state, op) = self.draw_line(parameters);
                        self.gp0.command_state = next_state;
                        ops.push(op);
                    }
                }
            },
            Gp0CommandState::ReceivingFromCpu(fields) => {
                let next_state = self.receive_vram_word_from_cpu(value, fields);
                self.gp0.command_state = next_state;
            },
            Gp0CommandState::SendingToCpu(_) => {
                // A write here is a protocol violation; the requires
                // clause rules it out.
                proof {
                    assert(false);
                }
            },
        }
        proof {
            assert(self@.gp0 =~= spec_gpu_step(old(self)@, value).0.gp0);
            assert(self@ =~= spec_gpu_step(old(self)@, value).0);
            assert(ops@ =~= spec_gpu_step(old(self)@, value).1);
        }
        ops
    }
}



/// Packing a decoded vertex and decoding it again gives the vertex back,
/// for coordinates in the signed 11-bit range.
pub proof fn lemma_pack_vertex_roundtrip(v: Vertex)
    requires
        -1024 <= v.x < 1024,
        -1024 <= v.y < 1024,
    ensures
        spec_vertex(spec_pack_vertex(v)) == v,
{
    let xb: u32 = if v.x >= 0 { v.x as u32 } else { (v.x + 0x10000) as u32 };
    let yb: u32 = if v.y >= 0 { v.y as u32 } else { (v.y + 0x10000) as u32 };
    lemma_low16_signed11_roundtrip(xb, yb, (xb + 0x10000 * yb) as u32);
}

/// For every polygon command word, the classifier demands exactly
/// `vertex_count * (1 + textured) + (vertex_count - 1) * gouraud`
/// parameter words, whatever the flag combination.
pub proof fn lemma_polygon_parameter_count(value: u32)
    requires
        value >> 29 == 1,
    ensures
        ({
            let p = spec_polygon_command(value);
            let vc = spec_vertex_count(p.vertices) as int;
            let textured = if p.textured { 1int } else { 0int };
            let gouraud = if p.gouraud_shading { 1int } else { 0int };
            spec_classify(value) == (Gp0CommandState::WaitingForParameters {
                command: DrawCommand::DrawPolygon(p),
                index: 0,
                remaining: (vc * (1 + textured) + (vc - 1) * gouraud) as u8,
            })
        }),
{
    lemma_polygon_param_count_range(spec_polygon_command(value));
    let p = spec_polygon_command(value);
    if p.vertices == PolygonVertices::Three {
        assert(spec_vertex_count(p.vertices) == 3);
    } else {
        assert(spec_vertex_count(p.vertices) == 4);
    }
}

/// For every rectangle command word, the classifier demands exactly
/// `1 + textured + (size class is variable)` parameter words, whatever
/// the flag combination.
pub proof fn lemma_rectangle_parameter_count(value: u32)
    requires
        value >> 29 == 3,
    ensures
        ({
            let p = spec_rectangle_command(value);
            let textured = if p.textured { 1int } else { 0int };
            let variable = if p.size == RectangleSize::Variable { 1int } else { 0int };
            spec_classify(value) == (Gp0CommandState::WaitingForParameters {
                command: DrawCommand::DrawRectangle(p),
                index: 0,
                remaining: (1 + textured + variable) as u8,
            })
        }),
{
}

/// A fill command word puts the engine back in `WaitingForCommand` after
/// exactly two further words, whatever their values: the first two steps
/// leave it accumulating, the third step of the sequence executes the
/// fill.
pub proof fn lemma_fill_two_words(g: GpuView, command: u32, w1: u32, w2: u32)
    requires
        spec_gpu_wf(g),
        g.gp0.command_state == Gp0CommandState::WaitingForCommand,
        command >> 29 == 0,
        command >> 24 == 0x02,
    ensures
        ({
            let s1 = spec_gpu_step(g, command).0;
            let s2 = spec_gpu_step(s1, w1).0;
            let s3 = spec_gpu_step(s2, w2).0;
            &&& s1.gp0.command_state is WaitingForParameters
            &&& s2.gp0.command_state is WaitingForParameters
            &&& s3.gp0.command_state == Gp0CommandState::WaitingForCommand
        }),
{
}

/// The polyline terminator word returns the engine to
/// `WaitingForCommand` from any polyline state, without drawing and
/// without touching VRAM.
pub proof fn lemma_polyline_terminator(g: GpuView, value: u32)
    requires
        spec_gpu_wf(g),
        g.gp0.command_state is WaitingForPolyline,
        value & 0xF000F000 == 0x50005000,
    ensures
        spec_gpu_step(g, value).0.gp0.command_state == Gp0CommandState::WaitingForCommand,
        spec_gpu_step(g, value).1 == Seq::<RasterizerCommand>::empty(),
        spec_gpu_step(g, value).0.vram == g.vram,
{
    assert(spec_gpu_step(g, value).1 =~= Seq::<RasterizerCommand>::empty());
}

/// A flat-shaded polyline continuation word draws one segment from the
/// carried vertex to the word's vertex, with the carried color at both
/// ends, and the engine then waits for the next segment with the word's
/// vertex carried over as the new first vertex.
pub proof fn lemma_polyline_continuation(g: GpuView, value: u32)
    requires
        spec_gpu_wf(g),
        g.gp0.command_state is WaitingForPolyline,
        g.gp0.command_state->WaitingForPolyline_0.polyline,
        !g.gp0.command_state->WaitingForPolyline_0.gouraud_shading,
        value & 0xF000F000 != 0x50005000,
    ensures
        ({
            let p = g.gp0.command_state->WaitingForPolyline_0;
            let (s1, ops) = spec_gpu_step(g, value);
            &&& ops.len() == 1
            &&& ops[0] is DrawLine
            &&& ops[0]->DrawLine_0.vertices[0] == spec_vertex(g.gp0.parameters[0])
            &&& ops[0]->DrawLine_0.vertices[1] == spec_vertex(value)
            &&& ops[0]->DrawLine_0.shading == Shading::<2>::Flat(p.color)
            &&& s1.gp0.command_state == Gp0CommandState::WaitingForPolyline(p)
            &&& spec_vertex(s1.gp0.parameters[0]) == spec_vertex(value)
        }),
{
    let p = g.gp0.command_state->WaitingForPolyline_0;
    let stored = Gp0View { parameters: g.gp0.parameters.update(1, value), ..g.gp0 };
    let args = spec_line_args(p, stored.parameters, g.gp0.global_texture_page.semi_transparency_mode);
    assert(args.vertices[1] == spec_vertex(value));
    lemma_vertex_range(value);
    lemma_pack_vertex_roundtrip(args.vertices[1]);
    let carried = LineCommandParameters { color: spec_line_second_color(p, stored.parameters), ..p };
    assert(carried == p);
}

/// Issuing the same settings command twice in a row leaves the
/// persistent settings exactly as issuing it once does: each settings
/// command rewrites its whole settings area from the command word alone.
pub proof fn lemma_settings_idempotent(gp0: Gp0View, command: u32)
    requires
        spec_settings_command_recognized(command),
    ensures
        spec_settings_applied(spec_settings_applied(gp0, command), command) == spec_settings_applied(gp0, command),
{
    assert(spec_settings_applied(spec_settings_applied(gp0, command), command) =~= spec_settings_applied(gp0, command));
}

/// A quad polygon command dispatches exactly two triangles; the first
/// covers polygon vertices 0-2, the second reuses vertices 1-3 and, when
/// Gouraud-shaded, colors 1-3 -- not vertices or colors 0-2.
pub proof fn lemma_quad_two_triangles(
    p: PolygonCommandParameters,
    params: Seq<u32>,
    global_texpage: TexturePage,
    window: TextureWindow,
)
    requires
        p.vertices == PolygonVertices::Four,
    ensures
        ({
            let (first, second) = spec_polygon_args(p, params, global_texpage, window);
            &&& second is Some
            &&& first.vertices =~= [
                spec_poly_vertex(p, params, 0),
                spec_poly_vertex(p, params, 1),
                spec_poly_vertex(p, params, 2),
            ]
            &&& second->Some_0.vertices =~= [
                spec_poly_vertex(p, params, 1),
                spec_poly_vertex(p, params, 2),
                spec_poly_vertex(p, params, 3),
            ]
            &&& p.gouraud_shading ==> second->Some_0.shading->Gouraud_0 =~= [
                spec_poly_color(p, params, 1),
                spec_poly_color(p, params, 2),
                spec_poly_color(p, params, 3),
            ]
        }),
{
}



/// A settings command mutates persistent settings only: the control
/// state and the parameter buffer come through unchanged.
pub proof fn lemma_settings_leave_control_state(gp0: Gp0View, command: u32)
    requires
        spec_settings_command_recognized(command),
    ensures
        spec_settings_applied(gp0, command).command_state == gp0.command_state,
        spec_settings_applied(gp0, command).parameters == gp0.parameters,
{
}

/// Only a settings command word mutates the persistent settings: every
/// other accepted word leaves the texture page, texture window, and
/// draw settings exactly as they were.
pub proof fn lemma_persistent_settings_stable(g: GpuView, value: u32)
    requires
        spec_gpu_wf(g),
        spec_word_accepted(g.gp0, value),
        !(g.gp0.command_state is WaitingForCommand && value >> 29 == 7),
    ensures
        ({
            let next = spec_gpu_step(g, value).0.gp0;
            &&& next.global_texture_page == g.gp0.global_texture_page
            &&& next.texture_window == g.gp0.texture_window
            &&& next.draw_settings == g.gp0.draw_settings
        }),
{
}


} // verus!
