//! The pixel processor: its memory and registers, the clock that walks it
//! through the modes of a frame, and the drawing of one line at a time.
//!
//! `VideoModel` says what the pixel processor does. Of its functions,
//! `tick`, `tick_interrupts` and `draw_scanline` are opaque: a proof that
//! needs what they say reveals them.

use vstd::prelude::*;
use crate::address::Address;
use crate::fault::Fault;
use crate::framebuffer::{FrameBuffer, FrameModel, RgbColor};
use crate::utils::{get_bit, set_bit_mut, spec_get_bit, spec_set_bit, lemma_bits_as_arithmetic};

verus! {

pub const SCREEN_WIDTH: u8 = 160;

pub const SCREEN_HEIGHT: u8 = 144;

pub const VRAM_START: u16 = 0x8000;

pub const VRAM_SIZE: usize = 0x4000;

pub const OAM_START: u16 = 0xFE00;

pub const OAM_SIZE: usize = 0xA0;

pub const TILE_BYTE_COUNT: u16 = 16;

pub const SPRITE_TILE_START: u16 = 0x8000;

pub const SPRITE_COUNT: u8 = 40;

pub const SPRITES_PER_LINE: usize = 10;

pub const DOTS_PER_MODE2: usize = 80;

pub const DOTS_PER_MODE3: usize = 172;

pub const DOTS_PER_MODE0: usize = 204;

pub const DOTS_PER_MODE1_ROW: usize = 456;

pub const LAST_VISIBLE_LINE: u8 = 143;

pub const LAST_LINE: u8 = 153;

/// The dots of one frame: 154 lines of 456 dots.
pub const DOTS_PER_FRAME: usize = 70224;

#[derive(Debug, PartialEq, Eq, Structural, Copy, Clone)]
pub enum VideoMode {
    Mode2OamScan,
    Mode3DrawPixels,
    Mode0HorizontalBlank,
    Mode1VerticalBlank,
}

impl VideoMode {
    /// The number under which the status register shows the mode.
    pub open spec fn spec_number(self) -> u8 {
        match self {
            VideoMode::Mode2OamScan => 2,
            VideoMode::Mode3DrawPixels => 3,
            VideoMode::Mode0HorizontalBlank => 0,
            VideoMode::Mode1VerticalBlank => 1,
        }
    }

    pub fn number(self) -> (r: u8)
        ensures
            r == self.spec_number(),
    {
        match self {
            VideoMode::Mode2OamScan => 2,
            VideoMode::Mode3DrawPixels => 3,
            VideoMode::Mode0HorizontalBlank => 0,
            VideoMode::Mode1VerticalBlank => 1,
        }
    }

    /// The dots that the mode lasts; for the vertical blank, on each of its
    /// lines.
    pub open spec fn spec_dots(self) -> int {
        match self {
            VideoMode::Mode2OamScan => DOTS_PER_MODE2 as int,
            VideoMode::Mode3DrawPixels => DOTS_PER_MODE3 as int,
            VideoMode::Mode0HorizontalBlank => DOTS_PER_MODE0 as int,
            VideoMode::Mode1VerticalBlank => DOTS_PER_MODE1_ROW as int,
        }
    }
}

#[derive(Debug, PartialEq, Eq, Structural, Copy, Clone)]
pub enum LcdStatusBit {
    LyCompare,
    Mode0IntSelect,
    Mode1IntSelect,
    Mode2IntSelect,
    LycIntSelect,
}

impl LcdStatusBit {
    pub open spec fn spec_index(self) -> u8 {
        match self {
            LcdStatusBit::LyCompare => 2,
            LcdStatusBit::Mode0IntSelect => 3,
            LcdStatusBit::Mode1IntSelect => 4,
            LcdStatusBit::Mode2IntSelect => 5,
            LcdStatusBit::LycIntSelect => 6,
        }
    }

    pub fn index(self) -> (r: u8)
        ensures
            r == self.spec_index(),
            r < 8,
    {
        match self {
            LcdStatusBit::LyCompare => 2,
            LcdStatusBit::Mode0IntSelect => 3,
            LcdStatusBit::Mode1IntSelect => 4,
            LcdStatusBit::Mode2IntSelect => 5,
            LcdStatusBit::LycIntSelect => 6,
        }
    }
}

#[derive(Debug, PartialEq, Eq, Structural, Copy, Clone)]
pub struct LcdStatus {
    pub data: u8,
    pub ppu_mode: VideoMode,
}

impl LcdStatus {
    pub open spec fn spec_new() -> LcdStatus {
        LcdStatus { data: 0, ppu_mode: VideoMode::Mode2OamScan }
    }

    pub open spec fn spec_get_field(self, bit: LcdStatusBit) -> bool {
        spec_get_bit(self.data, bit.spec_index())
    }

    pub open spec fn spec_set_lyc_condition(self, lyc_is_ly: bool) -> LcdStatus {
        LcdStatus { data: spec_set_bit(self.data, 2, lyc_is_ly), ..self }
    }

    /// The register as read: the stored bits with the mode number in the
    /// lowest two.
    pub open spec fn spec_read_as_byte(self) -> u8 {
        self.data | self.ppu_mode.spec_number()
    }

    /// Of a write only the four interrupt selections, bits 3 to 6, are kept.
    pub open spec fn spec_write_as_byte(self, value: u8) -> LcdStatus {
        LcdStatus { data: value & 0b0111_1000, ..self }
    }

    pub fn new() -> (r: Self)
        ensures
            r == LcdStatus::spec_new(),
    {
        Self { data: 0, ppu_mode: VideoMode::Mode2OamScan }
    }

    pub fn get_field(&self, bit: LcdStatusBit) -> (r: bool)
        ensures
            r == self.spec_get_field(bit),
    {
        get_bit(self.data, bit.index())
    }

    pub fn get_ppu_mode(&self) -> (r: VideoMode)
        ensures
            r == self.ppu_mode,
    {
        self.ppu_mode
    }

    pub fn set_ppu_mode(&mut self, mode: VideoMode)
        ensures
            *final(self) == (LcdStatus { ppu_mode: mode, ..*old(self) }),
    {
        self.ppu_mode = mode;
    }

    pub fn set_lyc_condition(&mut self, lyc_is_ly: bool)
        ensures
            *final(self) == old(self).spec_set_lyc_condition(lyc_is_ly),
    {
        set_bit_mut(&mut self.data, LcdStatusBit::LyCompare.index(), lyc_is_ly)
    }

    pub fn read_as_byte(&self) -> (r: u8)
        ensures
            r == self.spec_read_as_byte(),
    {
        self.data | self.ppu_mode.number()
    }

    pub fn write_as_byte(&mut self, value: u8)
        ensures
            *final(self) == old(self).spec_write_as_byte(value),
    {
        let masked_value = value & 0b0111_1000;
        self.data = masked_value;
    }
}

#[derive(Debug, PartialEq, Eq, Structural, Copy, Clone)]
pub enum ObjectSize {
    Size8x8,
    Size8x16,
}

impl ObjectSize {
    pub open spec fn spec_height_pixels(self) -> u8 {
        match self {
            ObjectSize::Size8x8 => 8,
            ObjectSize::Size8x16 => 16,
        }
    }

    pub fn height_pixels(&self) -> (r: u8)
        ensures
            r == self.spec_height_pixels(),
    {
        match self {
            ObjectSize::Size8x8 => 8,
            ObjectSize::Size8x16 => 16,
        }
    }
}

#[derive(Debug, PartialEq, Eq, Structural, Copy, Clone)]
pub enum LcdControlBit {
    BgWindowEnable,
    ObjEnable,
    ObjSize,
    BgTileMapArea,
    BgAndWindowTileDataArea,
    WindowEnable,
    WindowTileMapArea,
    LcdEnable,
}

impl LcdControlBit {
    pub open spec fn spec_index(self) -> u8 {
        match self {
            LcdControlBit::BgWindowEnable => 0,
            LcdControlBit::ObjEnable => 1,
            LcdControlBit::ObjSize => 2,
            LcdControlBit::BgTileMapArea => 3,
            LcdControlBit::BgAndWindowTileDataArea => 4,
            LcdControlBit::WindowEnable => 5,
            LcdControlBit::WindowTileMapArea => 6,
            LcdControlBit::LcdEnable => 7,
        }
    }

    pub fn index(self) -> (r: u8)
        ensures
            r == self.spec_index(),
            r < 8,
    {
        match self {
            LcdControlBit::BgWindowEnable => 0,
            LcdControlBit::ObjEnable => 1,
            LcdControlBit::ObjSize => 2,
            LcdControlBit::BgTileMapArea => 3,
            LcdControlBit::BgAndWindowTileDataArea => 4,
            LcdControlBit::WindowEnable => 5,
            LcdControlBit::WindowTileMapArea => 6,
            LcdControlBit::LcdEnable => 7,
        }
    }
}

#[derive(Debug, PartialEq, Eq, Structural, Copy, Clone)]
pub struct LcdControl {
    pub data: u8,
}

impl LcdControl {
    pub open spec fn spec_get_field(self, field: LcdControlBit) -> bool {
        spec_get_bit(self.data, field.spec_index())
    }

    pub open spec fn spec_object_size(self) -> ObjectSize {
        if self.spec_get_field(LcdControlBit::ObjSize) {
            ObjectSize::Size8x16
        } else {
            ObjectSize::Size8x8
        }
    }

    pub fn new() -> (r: Self)
        ensures
            r == (LcdControl { data: 0 }),
    {
        Self { data: 0 }
    }

    pub fn get_field(&self, field: LcdControlBit) -> (r: bool)
        ensures
            r == self.spec_get_field(field),
    {
        get_bit(self.data, field.index())
    }

    pub fn get_object_size(&self) -> (r: ObjectSize)
        ensures
            r == self.spec_object_size(),
    {
        if self.get_field(LcdControlBit::ObjSize) {
            ObjectSize::Size8x16
        } else {
            ObjectSize::Size8x8
        }
    }
}

#[derive(Debug, Copy, Clone, PartialEq, Eq, Structural)]
pub enum PaletteColor {
    White,
    LightGray,
    DarkGray,
    Black,
}

impl PaletteColor {
    pub open spec fn spec_number(self) -> u8 {
        match self {
            PaletteColor::White => 0,
            PaletteColor::LightGray => 1,
            PaletteColor::DarkGray => 2,
            PaletteColor::Black => 3,
        }
    }

    pub fn number(self) -> (r: u8)
        ensures
            r == self.spec_number(),
            r < 4,
    {
        match self {
            PaletteColor::White => 0,
            PaletteColor::LightGray => 1,
            PaletteColor::DarkGray => 2,
            PaletteColor::Black => 3,
        }
    }
}

pub open spec fn spec_map_palette_color(value: u8) -> PaletteColor {
    if value == 0 {
        PaletteColor::White
    } else if value == 1 {
        PaletteColor::LightGray
    } else if value == 2 {
        PaletteColor::DarkGray
    } else {
        PaletteColor::Black
    }
}

pub fn map_palette_color(value: u8) -> (r: PaletteColor)
    requires
        value < 4,
    ensures
        r == spec_map_palette_color(value),
        r.spec_number() == value,
{
    if value == 0 {
        PaletteColor::White
    } else if value == 1 {
        PaletteColor::LightGray
    } else if value == 2 {
        PaletteColor::DarkGray
    } else {
        PaletteColor::Black
    }
}

/// The shade that each of the four colour ids stands for.
#[derive(Debug, Copy, Clone, PartialEq, Eq, Structural)]
pub struct Palette {
    pub id0: PaletteColor,
    pub id1: PaletteColor,
    pub id2: PaletteColor,
    pub id3: PaletteColor,
}

impl Palette {
    pub open spec fn spec_new() -> Palette {
        Palette {
            id0: PaletteColor::White,
            id1: PaletteColor::White,
            id2: PaletteColor::White,
            id3: PaletteColor::White,
        }
    }

    /// The palette that the register byte `value` describes: two bits for
    /// each id, id 0 in the lowest two.
    pub open spec fn spec_from_byte(value: u8) -> Palette {
        Palette {
            id0: spec_map_palette_color(value % 4),
            id1: spec_map_palette_color((value / 4) % 4),
            id2: spec_map_palette_color((value / 16) % 4),
            id3: spec_map_palette_color(value / 64),
        }
    }

    pub open spec fn spec_read_as_byte(self) -> u8 {
        (self.id3.spec_number() * 64 + self.id2.spec_number() * 16 + self.id1.spec_number() * 4
            + self.id0.spec_number()) as u8
    }

    pub open spec fn spec_resolve_for_bg(self, color_id: u8) -> PaletteColor {
        if color_id == 0 {
            self.id0
        } else if color_id == 1 {
            self.id1
        } else if color_id == 2 {
            self.id2
        } else {
            self.id3
        }
    }

    /// For a sprite, colour id 0 is no colour: the pixel is see-through.
    pub open spec fn spec_resolve_for_sprite(self, color_id: u8) -> Option<PaletteColor> {
        if color_id == 0 {
            None
        } else {
            Some(self.spec_resolve_for_bg(color_id))
        }
    }

    pub fn new() -> (r: Self)
        ensures
            r == Palette::spec_new(),
    {
        Self {
            id0: PaletteColor::White,
            id1: PaletteColor::White,
            id2: PaletteColor::White,
            id3: PaletteColor::White,
        }
    }

    pub fn write_as_byte(&mut self, value: u8)
        ensures
            *final(self) == Palette::spec_from_byte(value),
    {
        proof {
            lemma_bits_as_arithmetic(value);
        }
        self.id0 = map_palette_color(value & 0b0000_0011);
        self.id1 = map_palette_color((value & 0b0000_1100) >> 2);
        self.id2 = map_palette_color((value & 0b0011_0000) >> 4);
        self.id3 = map_palette_color((value & 0b1100_0000) >> 6);
    }

    pub fn read_as_byte(&self) -> (r: u8)
        ensures
            r == self.spec_read_as_byte(),
    {
        self.id3.number() * 64 + self.id2.number() * 16 + self.id1.number() * 4
            + self.id0.number()
    }

    pub fn resolve_for_bg_from_color_id(&self, color_id: u8) -> (r: PaletteColor)
        requires
            color_id < 4,
        ensures
            r == self.spec_resolve_for_bg(color_id),
    {
        if color_id == 0 {
            self.id0
        } else if color_id == 1 {
            self.id1
        } else if color_id == 2 {
            self.id2
        } else {
            self.id3
        }
    }

    pub fn resolve_for_sprite_from_color_id(&self, color_id: u8) -> (r: Option<PaletteColor>)
        requires
            color_id < 4,
        ensures
            r == self.spec_resolve_for_sprite(color_id),
    {
        if color_id == 0 {
            None
        } else if color_id == 1 {
            Some(self.id1)
        } else if color_id == 2 {
            Some(self.id2)
        } else {
            Some(self.id3)
        }
    }
}

/// A palette register reads back as it was written.
pub proof fn lemma_palette_round_trip(value: u8)
    ensures
        Palette::spec_from_byte(value).spec_read_as_byte() == value,
{
    lemma_bits_as_arithmetic(value);
    let p = Palette::spec_from_byte(value);
    assert(p.id0.spec_number() == value % 4);
    assert(p.id1.spec_number() == (value / 4) % 4);
    assert(p.id2.spec_number() == (value / 16) % 4);
    assert(p.id3.spec_number() == value / 64);
}

pub open spec fn spec_to_screen_color(palette_color: PaletteColor) -> RgbColor {
    match palette_color {
        PaletteColor::White => RgbColor { r: 255, g: 255, b: 255 },
        PaletteColor::LightGray => RgbColor { r: 160, g: 160, b: 160 },
        PaletteColor::DarkGray => RgbColor { r: 90, g: 90, b: 90 },
        PaletteColor::Black => RgbColor { r: 0, g: 0, b: 0 },
    }
}

pub fn to_screen_color(palette_color: PaletteColor) -> (r: RgbColor)
    ensures
        r == spec_to_screen_color(palette_color),
{
    match palette_color {
        PaletteColor::White => RgbColor::new_gray(255),
        PaletteColor::LightGray => RgbColor::new_gray(160),
        PaletteColor::DarkGray => RgbColor::new_gray(90),
        PaletteColor::Black => RgbColor::new_gray(0),
    }
}

#[derive(Debug, Copy, Clone, PartialEq, Eq, Structural)]
pub enum SpritePalette {
    OBP0,
    OBP1,
}

/// One of the forty entries of the object attribute memory.
#[derive(Debug, Copy, Clone, PartialEq, Eq, Structural)]
pub struct SpriteObject {
    /// The sprite's top line on the screen, plus 16.
    pub y_pos: u8,
    /// The sprite's left column on the screen, plus 8.
    pub x_pos: u8,
    pub tile_index: u8,
    pub attributes: u8,
    /// The entry's place in the memory.
    pub index: u8,
}

impl SpriteObject {
    pub open spec fn spec_priority(self) -> bool {
        spec_get_bit(self.attributes, 7)
    }

    pub open spec fn spec_y_flip(self) -> bool {
        spec_get_bit(self.attributes, 6)
    }

    pub open spec fn spec_x_flip(self) -> bool {
        spec_get_bit(self.attributes, 5)
    }

    pub open spec fn spec_dmg_palette(self) -> SpritePalette {
        if spec_get_bit(self.attributes, 4) {
            SpritePalette::OBP1
        } else {
            SpritePalette::OBP0
        }
    }

    /// The row of the sprite that falls on screen line `line`, if the sprite
    /// reaches over that line. A sprite flipped top to bottom shows its last
    /// row on its first line.
    pub open spec fn spec_row_in_sprite(self, line: u8, size: ObjectSize) -> Option<u8> {
        let line_with_offset = line + 16;
        if line_with_offset < self.y_pos || line_with_offset >= self.y_pos
            + size.spec_height_pixels() {
            None
        } else if self.spec_y_flip() {
            Some((size.spec_height_pixels() - 1 - (line_with_offset - self.y_pos)) as u8)
        } else {
            Some((line_with_offset - self.y_pos) as u8)
        }
    }

    /// Whether `self` is drawn before `other`: the one further left first,
    /// and of two in one column the one that comes first in memory.
    pub open spec fn spec_draws_before(self, other: SpriteObject) -> bool {
        self.x_pos < other.x_pos || (self.x_pos == other.x_pos && self.index < other.index)
    }

    /// Which of the sprite's eight columns falls on screen column `x`, if
    /// one does.
    pub open spec fn spec_column_at(self, x: int) -> Option<int> {
        let column = (x + 8 - self.x_pos) % 256;
        if column < 8 {
            Some(if self.spec_x_flip() {
                7 - column
            } else {
                column
            })
        } else {
            None
        }
    }

    pub fn resolve_row_in_sprite(&self, line: u8, size: &ObjectSize) -> (r: Option<u8>)
        ensures
            r == self.spec_row_in_sprite(line, *size),
            r matches Some(row) ==> row < size.spec_height_pixels(),
    {
        let line_with_offset: u16 = line as u16 + 16;
        let top: u16 = self.y_pos as u16;
        let height: u16 = size.height_pixels() as u16;

        if line_with_offset < top {
            return None;
        }
        if line_with_offset >= top + height {
            return None;
        }
        let row_in_sprite = line_with_offset - top;

        Some(
            if self.y_flip() {
                (height - 1 - row_in_sprite) as u8
            } else {
                row_in_sprite as u8
            },
        )
    }

    pub fn priority(&self) -> (r: bool)
        ensures
            r == self.spec_priority(),
    {
        get_bit(self.attributes, 7)
    }

    pub fn y_flip(&self) -> (r: bool)
        ensures
            r == self.spec_y_flip(),
    {
        get_bit(self.attributes, 6)
    }

    pub fn x_flip(&self) -> (r: bool)
        ensures
            r == self.spec_x_flip(),
    {
        get_bit(self.attributes, 5)
    }

    pub fn dmg_palette(&self) -> (r: SpritePalette)
        ensures
            r == self.spec_dmg_palette(),
    {
        if get_bit(self.attributes, 4) {
            SpritePalette::OBP1
        } else {
            SpritePalette::OBP0
        }
    }

    /// Whether `self` is drawn before `other`.
    pub fn draws_before(&self, other: &SpriteObject) -> (r: bool)
        ensures
            r == self.spec_draws_before(*other),
    {
        self.x_pos < other.x_pos || (self.x_pos == other.x_pos && self.index < other.index)
    }

    /// Which of the sprite's eight columns falls on screen column `x`.
    pub fn column_at(&self, x: u8) -> (r: Option<u8>)
        ensures
            self.spec_column_at(x as int) == match r {
                Some(c) => Some(c as int),
                None => None,
            },
            r matches Some(c) ==> c < 8,
    {
        let column = x.wrapping_add(8).wrapping_sub(self.x_pos);
        if column < 8 {
            Some(
                if self.x_flip() {
                    7 - column
                } else {
                    column
                },
            )
        } else {
            None
        }
    }
}

/// A sprite that reaches over the line being drawn, with the row of it that
/// falls on that line.
#[derive(Debug, Copy, Clone, PartialEq, Eq, Structural)]
pub struct VisibleSprite {
    pub sprite: SpriteObject,
    pub row: u8,
}

#[derive(Debug, Copy, Clone, PartialEq, Eq, Structural)]
pub enum VideoInterrupt {
    Stat,
    VBlank,
}


/// The state of the pixel processor.
pub struct VideoModel {
    pub vram: Seq<u8>,
    pub oam: Seq<u8>,
    pub lyc: u8,
    pub lcd_status: LcdStatus,
    pub lcd_control: LcdControl,
    pub scy: u8,
    pub scx: u8,
    pub bg_palette: Palette,
    pub obj_palette_0: Palette,
    pub obj_palette_1: Palette,
    pub window_y: u8,
    pub window_x: u8,
    /// The line being drawn or blanked, 0 to 153.
    pub current_line: u8,
    /// The dots spent in the current mode; in the vertical blank, on the
    /// current line.
    pub dot_in_current_mode: int,
    pub frame: FrameModel,
    /// Set when a frame is complete, cleared when the host takes it.
    pub is_frame_ready: bool,
}

/// `frame` with the first `upto` pixels of line `line` replaced by what
/// `pixel` gives for their columns.
pub open spec fn spec_with_line(
    frame: FrameModel,
    line: int,
    upto: int,
    pixel: spec_fn(int) -> RgbColor,
) -> FrameModel {
    FrameModel {
        pixels: Seq::new(
            frame.pixels.len(),
            |i: int|
                if line * SCREEN_WIDTH <= i < line * SCREEN_WIDTH + upto {
                    pixel(i - line * SCREEN_WIDTH)
                } else {
                    frame.pixels[i]
                },
        ),
        ..frame
    }
}

impl VideoModel {
    pub open spec fn inv(self) -> bool {
        &&& self.vram.len() == VRAM_SIZE
        &&& self.oam.len() == OAM_SIZE
        &&& self.frame.inv()
        &&& self.frame.width == SCREEN_WIDTH
        &&& self.frame.height == SCREEN_HEIGHT
        &&& 0 <= self.dot_in_current_mode < self.lcd_status.ppu_mode.spec_dots()
        &&& match self.lcd_status.ppu_mode {
            VideoMode::Mode1VerticalBlank => LAST_VISIBLE_LINE < self.current_line <= LAST_LINE,
            _ => self.current_line <= LAST_VISIBLE_LINE,
        }
    }

    pub open spec fn fresh() -> VideoModel {
        VideoModel {
            vram: Seq::new(VRAM_SIZE as nat, |i: int| 0u8),
            oam: Seq::new(OAM_SIZE as nat, |i: int| 0u8),
            lyc: 0,
            lcd_status: LcdStatus::spec_new(),
            lcd_control: LcdControl { data: 0 },
            scy: 0,
            scx: 0,
            bg_palette: Palette::spec_new(),
            obj_palette_0: Palette::spec_new(),
            obj_palette_1: Palette::spec_new(),
            window_y: 0,
            window_x: 0,
            current_line: 0,
            dot_in_current_mode: 0,
            frame: FrameModel {
                width: SCREEN_WIDTH as nat,
                height: SCREEN_HEIGHT as nat,
                pixels: Seq::new(
                    (SCREEN_WIDTH * SCREEN_HEIGHT) as nat,
                    |i: int| RgbColor { r: 0xFF, g: 0xFF, b: 0xFF },
                ),
            },
            is_frame_ready: false,
        }
    }

    pub open spec fn read_vram(self, addr: u16) -> u8 {
        self.vram[addr - VRAM_START]
    }

    pub open spec fn write_vram(self, addr: u16, value: u8) -> VideoModel {
        VideoModel { vram: self.vram.update(addr - VRAM_START, value), ..self }
    }

    pub open spec fn read_oam(self, addr: u16) -> u8 {
        self.oam[addr - OAM_START]
    }

    pub open spec fn write_oam(self, addr: u16, value: u8) -> VideoModel {
        VideoModel { oam: self.oam.update(addr - OAM_START, value), ..self }
    }

    /// What a read of the register at `addr` gives. The line register reads
    /// zero while the display is off, and the transfer register at `0xFF46`
    /// is not the pixel processor's to answer.
    pub open spec fn read_register(self, addr: u16) -> Result<u8, Fault> {
        if addr == 0xFF40 {
            Ok(self.lcd_control.data)
        } else if addr == 0xFF41 {
            Ok(self.lcd_status.spec_read_as_byte())
        } else if addr == 0xFF42 {
            Ok(self.scy)
        } else if addr == 0xFF43 {
            Ok(self.scx)
        } else if addr == 0xFF44 {
            Ok(
                if self.lcd_control.spec_get_field(LcdControlBit::LcdEnable) {
                    self.current_line
                } else {
                    0
                },
            )
        } else if addr == 0xFF45 {
            Ok(self.lyc)
        } else if addr == 0xFF47 {
            Ok(self.bg_palette.spec_read_as_byte())
        } else if addr == 0xFF48 {
            Ok(self.obj_palette_0.spec_read_as_byte())
        } else if addr == 0xFF49 {
            Ok(self.obj_palette_1.spec_read_as_byte())
        } else if addr == 0xFF4A {
            Ok(self.window_y)
        } else if addr == 0xFF4B {
            Ok(self.window_x)
        } else {
            Err(Fault::UnmappedRead(addr))
        }
    }

    /// The state after `value` is written to the register at `addr`. The
    /// line register takes no write, and neither does the transfer register
    /// on this path.
    pub open spec fn write_register(self, addr: u16, value: u8) -> Result<VideoModel, Fault> {
        if addr == 0xFF40 {
            Ok(VideoModel { lcd_control: LcdControl { data: value }, ..self })
        } else if addr == 0xFF41 {
            Ok(VideoModel { lcd_status: self.lcd_status.spec_write_as_byte(value), ..self })
        } else if addr == 0xFF42 {
            Ok(VideoModel { scy: value, ..self })
        } else if addr == 0xFF43 {
            Ok(VideoModel { scx: value, ..self })
        } else if addr == 0xFF45 {
            Ok(VideoModel { lyc: value, ..self })
        } else if addr == 0xFF47 {
            Ok(VideoModel { bg_palette: Palette::spec_from_byte(value), ..self })
        } else if addr == 0xFF48 {
            Ok(VideoModel { obj_palette_0: Palette::spec_from_byte(value), ..self })
        } else if addr == 0xFF49 {
            Ok(VideoModel { obj_palette_1: Palette::spec_from_byte(value), ..self })
        } else if addr == 0xFF4A {
            Ok(VideoModel { window_y: value, ..self })
        } else if addr == 0xFF4B {
            Ok(VideoModel { window_x: value, ..self })
        } else {
            Err(Fault::UnmappedWrite(addr))
        }
    }

    /// The frame, if one is ready, and the state after the host has asked:
    /// a frame can be taken once.
    pub open spec fn try_take_frame(self) -> (VideoModel, Option<FrameModel>) {
        if self.is_frame_ready {
            (VideoModel { is_frame_ready: false, ..self }, Some(self.frame))
        } else {
            (self, None)
        }
    }

    // ------------------------------------------------------------------
    // Drawing
    // ------------------------------------------------------------------
    pub open spec fn control(self, field: LcdControlBit) -> bool {
        self.lcd_control.spec_get_field(field)
    }

    /// Where the sixteen bytes of tile `tile_index` start: counted up from
    /// `0x8000`, or as a signed number around `0x9000`.
    pub open spec fn tile_addr(self, tile_index: u8) -> int {
        if self.control(LcdControlBit::BgAndWindowTileDataArea) {
            0x8000 + TILE_BYTE_COUNT * tile_index
        } else if tile_index < 128 {
            0x9000 + TILE_BYTE_COUNT * tile_index
        } else {
            0x9000 + TILE_BYTE_COUNT * (tile_index - 256)
        }
    }

    /// The colour id of column `x_in_tile` of the tile row whose two bytes
    /// start at `tile_row_addr`: the first byte holds the low bits, the
    /// second the high bits, the leftmost column in bit 7.
    pub open spec fn color_id(self, tile_row_addr: int, x_in_tile: int) -> u8 {
        let first_byte = self.vram[tile_row_addr - VRAM_START];
        let second_byte = self.vram[(tile_row_addr + 1) % 0x1_0000 - VRAM_START];
        ((if spec_get_bit(second_byte, (7 - x_in_tile) as u8) {
            2int
        } else {
            0
        }) + (if spec_get_bit(first_byte, (7 - x_in_tile) as u8) {
            1int
        } else {
            0
        })) as u8
    }

    /// The colour id at pixel (`px`, `py`) of the 32 by 32 tile map that
    /// starts at `map_start`.
    pub open spec fn map_color_id(self, map_start: int, px: int, py: int) -> u8 {
        let tile_index = self.vram[map_start + (py / 8) * 32 + px / 8 - VRAM_START];
        self.color_id(self.tile_addr(tile_index) + (py % 8) * 2, px % 8)
    }

    pub open spec fn bg_map_start(self) -> int {
        if self.control(LcdControlBit::BgTileMapArea) {
            0x9C00
        } else {
            0x9800
        }
    }

    pub open spec fn window_map_start(self) -> int {
        if self.control(LcdControlBit::WindowTileMapArea) {
            0x9C00
        } else {
            0x9800
        }
    }

    /// Whether the window covers column `x` of line `line`.
    pub open spec fn in_window(self, x: int, line: int) -> bool {
        self.control(LcdControlBit::WindowEnable) && line >= self.window_y && x + 7
            >= self.window_x
    }

    /// The colour id that background and window give column `x` of line
    /// `line`: the window's where it covers the pixel, else the scrolled
    /// background's.
    pub open spec fn bg_color_id(self, x: int, line: int) -> u8 {
        if self.in_window(x, line) {
            self.map_color_id(self.window_map_start(), x + 7 - self.window_x, line - self.window_y)
        } else {
            self.map_color_id(self.bg_map_start(), (self.scx + x) % 256, (self.scy + line) % 256)
        }
    }

    /// The colour ids of line `line` that sprites are weighed against: zero
    /// everywhere while the background is off.
    pub open spec fn bg_ids(self, line: int) -> Seq<u8> {
        Seq::new(
            SCREEN_WIDTH as nat,
            |x: int|
                if self.control(LcdControlBit::BgWindowEnable) {
                    self.bg_color_id(x, line)
                } else {
                    0u8
                },
        )
    }

    pub open spec fn bg_pixel(self, x: int, line: int) -> RgbColor {
        spec_to_screen_color(self.bg_palette.spec_resolve_for_bg(self.bg_color_id(x, line)))
    }

    /// The state after background and window are drawn into line `line`.
    pub open spec fn bg_pass(self, line: int) -> VideoModel {
        VideoModel {
            frame: spec_with_line(
                self.frame,
                line,
                SCREEN_WIDTH as int,
                |x: int| self.bg_pixel(x, line),
            ),
            ..self
        }
    }

    /// Entry `index` of the object attribute memory.
    pub open spec fn sprite(self, index: int) -> SpriteObject {
        SpriteObject {
            y_pos: self.oam[4 * index],
            x_pos: self.oam[4 * index + 1],
            tile_index: self.oam[4 * index + 2],
            attributes: self.oam[4 * index + 3],
            index: index as u8,
        }
    }

    /// The sprites among the first `upto` entries that reach over line
    /// `line`, in the order in which they are drawn.
    pub open spec fn visible_sprites(self, line: u8, upto: int) -> Seq<VisibleSprite>
        decreases upto,
    {
        if upto <= 0 {
            Seq::empty()
        } else {
            let before = self.visible_sprites(line, upto - 1);
            let sprite = self.sprite(upto - 1);
            match sprite.spec_row_in_sprite(line, self.lcd_control.spec_object_size()) {
                None => before,
                Some(row) => {
                    let item = VisibleSprite { sprite, row };
                    before.insert(spec_insert_position(before, sprite, 0), item)
                },
            }
        }
    }

    /// The sprites drawn on line `line`: of those that reach over it, the
    /// first ten in drawing order.
    pub open spec fn line_sprites(self, line: u8) -> Seq<VisibleSprite> {
        let all = self.visible_sprites(line, SPRITE_COUNT as int);
        if all.len() > SPRITES_PER_LINE {
            all.subrange(0, SPRITES_PER_LINE as int)
        } else {
            all
        }
    }

    pub open spec fn sprite_row_addr(self, item: VisibleSprite) -> int {
        SPRITE_TILE_START + item.sprite.tile_index * TILE_BYTE_COUNT + item.row * 2
    }

    /// The colour that `item` puts on column `x`, if it puts one there.
    pub open spec fn sprite_color(self, item: VisibleSprite, x: int) -> Option<PaletteColor> {
        match item.sprite.spec_column_at(x) {
            None => None,
            Some(column) => {
                let palette = match item.sprite.spec_dmg_palette() {
                    SpritePalette::OBP0 => self.obj_palette_0,
                    SpritePalette::OBP1 => self.obj_palette_1,
                };
                palette.spec_resolve_for_sprite(self.color_id(self.sprite_row_addr(item), column))
            },
        }
    }

    /// The colour of column `x` after the first `count` of `sprites` are
    /// drawn over `under`. A later sprite covers an earlier one; a sprite
    /// that yields to the background shows only where the background has
    /// colour id zero.
    pub open spec fn paint_sprites(
        self,
        sprites: Seq<VisibleSprite>,
        count: int,
        x: int,
        under: RgbColor,
        bg_id: u8,
    ) -> RgbColor
        decreases count,
    {
        if count <= 0 {
            under
        } else {
            let below = self.paint_sprites(sprites, count - 1, x, under, bg_id);
            let item = sprites[count - 1];
            match self.sprite_color(item, x) {
                Some(color) => if !item.sprite.spec_priority() || bg_id == 0 {
                    spec_to_screen_color(color)
                } else {
                    below
                },
                None => below,
            }
        }
    }

    pub open spec fn sprite_pixel(self, line: u8, bg_ids: Seq<u8>, x: int) -> RgbColor {
        let sprites = self.line_sprites(line);
        self.paint_sprites(
            sprites,
            sprites.len() as int,
            x,
            self.frame.pixel(x, line as int),
            bg_ids[x],
        )
    }

    /// The state after the sprites are drawn into line `line`, over
    /// background pixels whose colour ids are `bg_ids`.
    pub open spec fn sprite_pass(self, line: u8, bg_ids: Seq<u8>) -> VideoModel {
        VideoModel {
            frame: spec_with_line(
                self.frame,
                line as int,
                SCREEN_WIDTH as int,
                |x: int| self.sprite_pixel(line, bg_ids, x),
            ),
            ..self
        }
    }

    /// The state after line `line` is drawn: nothing while the display is
    /// off; else the background and window if they are on, then the sprites
    /// if they are on.
    #[verifier::opaque]
    pub open spec fn draw_scanline(self, line: u8) -> VideoModel {
        if !self.control(LcdControlBit::LcdEnable) {
            self
        } else {
            let with_bg = if self.control(LcdControlBit::BgWindowEnable) {
                self.bg_pass(line as int)
            } else {
                self
            };
            if self.control(LcdControlBit::ObjEnable) {
                with_bg.sprite_pass(line, self.bg_ids(line as int))
            } else {
                with_bg
            }
        }
    }

    // ------------------------------------------------------------------
    // The clock
    // ------------------------------------------------------------------
    /// The state after the current mode has run its dots: the next mode is
    /// entered, or, in the vertical blank, the next line.
    pub open spec fn end_of_mode(self) -> VideoModel {
        let v = VideoModel { dot_in_current_mode: 0, ..self };
        match self.lcd_status.ppu_mode {
            VideoMode::Mode2OamScan => v.enter(VideoMode::Mode3DrawPixels),
            VideoMode::Mode3DrawPixels => v.draw_scanline(self.current_line).enter(
                VideoMode::Mode0HorizontalBlank,
            ),
            VideoMode::Mode0HorizontalBlank => {
                let next = VideoModel { current_line: (self.current_line + 1) as u8, ..v };
                if next.current_line > LAST_VISIBLE_LINE {
                    next.enter(VideoMode::Mode1VerticalBlank)
                } else {
                    next.enter(VideoMode::Mode2OamScan)
                }
            },
            VideoMode::Mode1VerticalBlank => if self.current_line >= LAST_LINE {
                (VideoModel { current_line: 0, is_frame_ready: true, ..v }).enter(
                    VideoMode::Mode2OamScan,
                )
            } else {
                VideoModel { current_line: (self.current_line + 1) as u8, ..v }
            },
        }
    }

    pub open spec fn enter(self, mode: VideoMode) -> VideoModel {
        VideoModel { lcd_status: LcdStatus { ppu_mode: mode, ..self.lcd_status }, ..self }
    }

    /// Whether this dot ends the current mode (in the vertical blank, the
    /// current line).
    pub open spec fn at_end_of_mode(self) -> bool {
        self.dot_in_current_mode + 1 >= self.lcd_status.ppu_mode.spec_dots()
    }

    /// Whether this dot moves on to another line.
    pub open spec fn at_end_of_line(self) -> bool {
        self.at_end_of_mode() && (self.lcd_status.ppu_mode == VideoMode::Mode0HorizontalBlank
            || self.lcd_status.ppu_mode == VideoMode::Mode1VerticalBlank)
    }

    /// The interrupts that this dot raises: the line-compare interrupt where
    /// a new line begins that the compare register names, then those of the
    /// mode that is entered.
    #[verifier::opaque]
    pub open spec fn tick_interrupts(self) -> Seq<VideoInterrupt> {
        let after = self.tick();
        let select = |bit: LcdStatusBit| after.lcd_status.spec_get_field(bit);
        let compare = if self.at_end_of_line() && after.current_line == self.lyc
            && self.lcd_status.spec_get_field(LcdStatusBit::LycIntSelect) {
            seq![VideoInterrupt::Stat]
        } else {
            Seq::empty()
        };
        let stat = seq![VideoInterrupt::Stat];
        let entered = if !self.at_end_of_mode() || after.lcd_status.ppu_mode
            == self.lcd_status.ppu_mode {
            Seq::empty()
        } else {
            match after.lcd_status.ppu_mode {
                VideoMode::Mode2OamScan => if select(LcdStatusBit::Mode2IntSelect) {
                    stat
                } else {
                    Seq::empty()
                },
                VideoMode::Mode3DrawPixels => Seq::empty(),
                VideoMode::Mode0HorizontalBlank => if select(LcdStatusBit::Mode0IntSelect) {
                    stat
                } else {
                    Seq::empty()
                },
                VideoMode::Mode1VerticalBlank => if select(LcdStatusBit::Mode1IntSelect) {
                    seq![VideoInterrupt::VBlank, VideoInterrupt::Stat]
                } else {
                    seq![VideoInterrupt::VBlank]
                },
            }
        };
        compare + entered
    }

    /// The state one dot later. The compare bit of the status register
    /// follows the line at every dot.
    #[verifier::opaque]
    pub open spec fn tick(self) -> VideoModel {
        let v = if self.at_end_of_mode() {
            self.end_of_mode()
        } else {
            VideoModel { dot_in_current_mode: self.dot_in_current_mode + 1, ..self }
        };
        VideoModel {
            lcd_status: v.lcd_status.spec_set_lyc_condition(v.current_line == v.lyc),
            ..v
        }
    }

    /// The state `dots` dots later.
    pub open spec fn ticks(self, dots: nat) -> VideoModel
        decreases dots,
    {
        if dots == 0 {
            self
        } else {
            self.tick().ticks((dots - 1) as nat)
        }
    }

    /// The dots that have passed since the current frame began.
    pub open spec fn dot_in_frame(self) -> int {
        self.current_line * DOTS_PER_MODE1_ROW + self.dot_in_current_mode
            + match self.lcd_status.ppu_mode {
            VideoMode::Mode2OamScan => 0int,
            VideoMode::Mode3DrawPixels => DOTS_PER_MODE2 as int,
            VideoMode::Mode0HorizontalBlank => DOTS_PER_MODE2 + DOTS_PER_MODE3,
            VideoMode::Mode1VerticalBlank => 0,
        }
    }
}

/// Where `sprite` goes into `sorted`, searching from `from`: before the
/// first entry that it is drawn before.
pub open spec fn spec_insert_position(sorted: Seq<VisibleSprite>, sprite: SpriteObject, from: int) -> int
    decreases sorted.len() - from,
{
    if from < 0 || from >= sorted.len() || sprite.spec_draws_before(sorted[from].sprite) {
        from
    } else {
        spec_insert_position(sorted, sprite, from + 1)
    }
}


pub struct Video {
    vram: Vec<u8>,
    oam: Vec<u8>,
    lyc: u8,
    lcd_status: LcdStatus,
    lcd_control: LcdControl,
    scy: u8,
    scx: u8,
    bg_palette: Palette,
    obj_palette_0: Palette,
    obj_palette_1: Palette,
    window_y: u8,
    window_x: u8,
    current_line: u8,
    dot_in_current_mode: usize,
    frame_buffer: FrameBuffer,
    is_frame_ready: bool,
}

impl View for Video {
    type V = VideoModel;

    closed spec fn view(&self) -> VideoModel {
        VideoModel {
            vram: self.vram@,
            oam: self.oam@,
            lyc: self.lyc,
            lcd_status: self.lcd_status,
            lcd_control: self.lcd_control,
            scy: self.scy,
            scx: self.scx,
            bg_palette: self.bg_palette,
            obj_palette_0: self.obj_palette_0,
            obj_palette_1: self.obj_palette_1,
            window_y: self.window_y,
            window_x: self.window_x,
            current_line: self.current_line,
            dot_in_current_mode: self.dot_in_current_mode as int,
            frame: self.frame_buffer@,
            is_frame_ready: self.is_frame_ready,
        }
    }
}

impl Video {
    pub open spec fn wf(&self) -> bool {
        self@.inv()
    }

    pub fn new() -> (r: Self)
        ensures
            r.wf(),
            r@ == VideoModel::fresh(),
    {
        let r = Self {
            vram: vec![0x00u8; 0x4000],
            oam: vec![0x00u8; 0xA0],
            lcd_status: LcdStatus::new(),
            lcd_control: LcdControl::new(),
            lyc: 0,
            scy: 0,
            scx: 0,
            bg_palette: Palette::new(),
            obj_palette_0: Palette::new(),
            obj_palette_1: Palette::new(),
            window_y: 0,
            window_x: 0,
            current_line: 0,
            dot_in_current_mode: 0,
            frame_buffer: FrameBuffer::new(SCREEN_WIDTH as usize, SCREEN_HEIGHT as usize),
            is_frame_ready: false,
        };
        assert(r@.vram =~= VideoModel::fresh().vram);
        assert(r@.oam =~= VideoModel::fresh().oam);
        assert(r@.frame.pixels =~= VideoModel::fresh().frame.pixels);
        r
    }

    /// Hands out the frame if one became ready since the last call.
    pub fn try_take_frame(&mut self) -> (r: Option<&FrameBuffer>)
        requires
            old(self).wf(),
        ensures
            final(self).wf(),
            final(self)@ == old(self)@.try_take_frame().0,
            r is Some <==> old(self)@.is_frame_ready,
            r matches Some(frame) ==> frame.wf() && frame@ == old(self)@.frame,
    {
        if !self.is_frame_ready {
            return None;
        }
        self.is_frame_ready = false;
        Some(&self.frame_buffer)
    }

    /// Advances the pixel processor by one dot and reports the interrupts
    /// that the dot raises.
    #[verifier::rlimit(30)]
    pub fn tick(&mut self) -> (interrupts: Vec<VideoInterrupt>)
        requires
            old(self).wf(),
        ensures
            final(self).wf(),
            final(self)@ == old(self)@.tick(),
            interrupts@ == old(self)@.tick_interrupts(),
    {
        proof {
            reveal(VideoModel::tick);
            reveal(VideoModel::tick_interrupts);
        }
        self.dot_in_current_mode += 1;

        let mut interrupts: Vec<VideoInterrupt> = Vec::new();
        let mut maybe_next_mode: Option<VideoMode> = None;
        let mut line_changed = false;

        match self.lcd_status.get_ppu_mode() {
            VideoMode::Mode2OamScan => {
                if self.dot_in_current_mode >= DOTS_PER_MODE2 {
                    self.dot_in_current_mode = 0;
                    maybe_next_mode = Some(VideoMode::Mode3DrawPixels);
                }
            },
            VideoMode::Mode3DrawPixels => {
                if self.dot_in_current_mode >= DOTS_PER_MODE3 {
                    self.dot_in_current_mode = 0;
                    let line = self.current_line;
                    self.draw_scanline(line);
                    maybe_next_mode = Some(VideoMode::Mode0HorizontalBlank);
                }
            },
            VideoMode::Mode0HorizontalBlank => {
                if self.dot_in_current_mode >= DOTS_PER_MODE0 {
                    self.dot_in_current_mode = 0;
                    self.current_line += 1;
                    line_changed = true;
                    if self.current_line > LAST_VISIBLE_LINE {
                        maybe_next_mode = Some(VideoMode::Mode1VerticalBlank);
                    } else {
                        maybe_next_mode = Some(VideoMode::Mode2OamScan);
                    }
                }
            },
            VideoMode::Mode1VerticalBlank => {
                if self.dot_in_current_mode >= DOTS_PER_MODE1_ROW {
                    self.dot_in_current_mode = 0;
                    self.current_line += 1;
                    line_changed = true;
                    if self.current_line > LAST_LINE {
                        self.is_frame_ready = true;
                        self.current_line = 0;
                        maybe_next_mode = Some(VideoMode::Mode2OamScan);
                    }
                }
            },
        }

        if line_changed && self.current_line == self.lyc && self.lcd_status.get_field(
            LcdStatusBit::LycIntSelect,
        ) {
            interrupts.push(VideoInterrupt::Stat);
        }
        self.lcd_status.set_lyc_condition(self.current_line == self.lyc);

        if let Some(next_mode) = maybe_next_mode {
            self.lcd_status.set_ppu_mode(next_mode);

            match next_mode {
                VideoMode::Mode2OamScan => {
                    if self.lcd_status.get_field(LcdStatusBit::Mode2IntSelect) {
                        interrupts.push(VideoInterrupt::Stat);
                    }
                },
                // Video memory stays open to the program while the line is
                // drawn: closing it off breaks the logo of the start-up
                // program.
                VideoMode::Mode3DrawPixels => {},
                VideoMode::Mode0HorizontalBlank => {
                    if self.lcd_status.get_field(LcdStatusBit::Mode0IntSelect) {
                        interrupts.push(VideoInterrupt::Stat);
                    }
                },
                VideoMode::Mode1VerticalBlank => {
                    interrupts.push(VideoInterrupt::VBlank);
                    if self.lcd_status.get_field(LcdStatusBit::Mode1IntSelect) {
                        interrupts.push(VideoInterrupt::Stat);
                    }
                },
            }
        }
        assert(interrupts@ =~= old(self)@.tick_interrupts());
        interrupts
    }

    pub fn write_vram(&mut self, address: Address, value: u8)
        requires
            old(self).wf(),
            VRAM_START <= address.addr < VRAM_START + VRAM_SIZE,
        ensures
            final(self).wf(),
            final(self)@ == old(self)@.write_vram(address.addr, value),
    {
        let index = address.index_value() - 0x8000;
        self.vram.set(index, value);
    }

    pub fn read_vram(&self, address: Address) -> (r: u8)
        requires
            self.wf(),
            VRAM_START <= address.addr < VRAM_START + VRAM_SIZE,
        ensures
            r == self@.read_vram(address.addr),
    {
        let index = address.index_value() - 0x8000;
        self.vram[index]
    }

    pub fn write_oam(&mut self, address: Address, value: u8)
        requires
            old(self).wf(),
            OAM_START <= address.addr < OAM_START + OAM_SIZE,
        ensures
            final(self).wf(),
            final(self)@ == old(self)@.write_oam(address.addr, value),
    {
        let index = address.index_value() - 0xFE00;
        self.oam.set(index, value);
    }

    pub fn read_oam(&self, address: Address) -> (r: u8)
        requires
            self.wf(),
            OAM_START <= address.addr < OAM_START + OAM_SIZE,
        ensures
            r == self@.read_oam(address.addr),
    {
        let index = address.index_value() - 0xFE00;
        self.oam[index]
    }

    #[verifier::rlimit(30)]
    pub fn read_register(&self, address: Address) -> (r: Result<u8, Fault>)
        ensures
            r == self@.read_register(address.addr),
    {
        let addr = address.value();
        if addr == 0xFF40 {
            Ok(self.lcd_control.data)
        } else if addr == 0xFF41 {
            Ok(self.lcd_status.read_as_byte())
        } else if addr == 0xFF42 {
            Ok(self.scy)
        } else if addr == 0xFF43 {
            Ok(self.scx)
        } else if addr == 0xFF44 {
            if self.lcd_control.get_field(LcdControlBit::LcdEnable) {
                Ok(self.current_line)
            } else {
                Ok(0)
            }
        } else if addr == 0xFF45 {
            Ok(self.lyc)
        } else if addr == 0xFF47 {
            Ok(self.bg_palette.read_as_byte())
        } else if addr == 0xFF48 {
            Ok(self.obj_palette_0.read_as_byte())
        } else if addr == 0xFF49 {
            Ok(self.obj_palette_1.read_as_byte())
        } else if addr == 0xFF4A {
            Ok(self.window_y)
        } else if addr == 0xFF4B {
            Ok(self.window_x)
        } else {
            Err(Fault::UnmappedRead(addr))
        }
    }

    #[verifier::rlimit(30)]
    pub fn write_register(&mut self, address: Address, value: u8) -> (r: Result<(), Fault>)
        requires
            old(self).wf(),
        ensures
            final(self).wf(),
            match old(self)@.write_register(address.addr, value) {
                Ok(v) => r == Ok::<(), Fault>(()) && final(self)@ == v,
                Err(e) => r == Err::<(), Fault>(e) && final(self)@ == old(self)@,
            },
    {
        let addr = address.value();
        if addr == 0xFF40 {
            self.lcd_control.data = value;
        } else if addr == 0xFF41 {
            self.lcd_status.write_as_byte(value);
        } else if addr == 0xFF42 {
            self.scy = value;
        } else if addr == 0xFF43 {
            self.scx = value;
        } else if addr == 0xFF45 {
            self.lyc = value;
        } else if addr == 0xFF47 {
            self.bg_palette.write_as_byte(value);
        } else if addr == 0xFF48 {
            self.obj_palette_0.write_as_byte(value);
        } else if addr == 0xFF49 {
            self.obj_palette_1.write_as_byte(value);
        } else if addr == 0xFF4A {
            self.window_y = value;
        } else if addr == 0xFF4B {
            self.window_x = value;
        } else {
            return Err(Fault::UnmappedWrite(addr));
        }
        Ok(())
    }

    #[verifier::rlimit(30)]
    fn draw_scanline(&mut self, line: u8)
        requires
            old(self).wf(),
            line <= LAST_VISIBLE_LINE,
        ensures
            final(self).wf(),
            final(self)@ == old(self)@.draw_scanline(line),
            final(self)@ == (VideoModel { frame: final(self)@.frame, ..old(self)@ }),
    {
        proof {
            reveal(VideoModel::draw_scanline);
        }
        if !self.lcd_control.get_field(LcdControlBit::LcdEnable) {
            return ;
        }
        let bg_ids = if self.lcd_control.get_field(LcdControlBit::BgWindowEnable) {
            self.draw_bg_for_current_line(line)
        } else {
            let ids = vec![0u8; 160];
            assert(ids@ =~= self@.bg_ids(line as int));
            ids
        };
        if self.lcd_control.get_field(LcdControlBit::ObjEnable) {
            self.draw_sprites_for_current_line(line, &bg_ids);
        }
    }

    /// Draws background and window into line `line` and gives back the
    /// colour id of each of its pixels.
    #[verifier::rlimit(30)]
    fn draw_bg_for_current_line(&mut self, line: u8) -> (ids: Vec<u8>)
        requires
            old(self).wf(),
            line <= LAST_VISIBLE_LINE,
        ensures
            final(self).wf(),
            final(self)@ == old(self)@.bg_pass(line as int),
            old(self)@.control(LcdControlBit::BgWindowEnable) ==> ids@ == old(self)@.bg_ids(
                line as int,
            ),
    {
        let ghost start = self@;
        let mut ids: Vec<u8> = Vec::new();
        let mut x: u8 = 0;
        assert(start.frame.pixels =~= spec_with_line(
            start.frame,
            line as int,
            0,
            |c: int| start.bg_pixel(c, line as int),
        ).pixels);
        while x < SCREEN_WIDTH
            invariant
                x <= SCREEN_WIDTH,
                line <= LAST_VISIBLE_LINE,
                self.wf(),
                start.inv(),
                self@ == (VideoModel { frame: self@.frame, ..start }),
                self@.frame == spec_with_line(
                    start.frame,
                    line as int,
                    x as int,
                    |c: int| start.bg_pixel(c, line as int),
                ),
                ids@.len() == x,
                forall|c: int| 0 <= c < x ==> ids@[c] == start.bg_color_id(c, line as int),
            decreases SCREEN_WIDTH - x,
        {
            let color_id = self.read_bg_color_id(x, line);
            let color = self.bg_palette.resolve_for_bg_from_color_id(color_id);
            let ghost before = self@.frame;
            self.frame_buffer.set_pixel(x, line, to_screen_color(color));
            ids.push(color_id);
            assert(self@.frame.pixels =~= spec_with_line(
                start.frame,
                line as int,
                x + 1,
                |c: int| start.bg_pixel(c, line as int),
            ).pixels);
            x += 1;
        }
        assert(ids@ =~= Seq::new(SCREEN_WIDTH as nat, |c: int| start.bg_color_id(c, line as int)));
        ids
    }

    /// The colour id that background and window give column `x` of line
    /// `line`.
    #[verifier::rlimit(40)]
    fn read_bg_color_id(&self, x: u8, line: u8) -> (r: u8)
        requires
            self.wf(),
            x < SCREEN_WIDTH,
            line <= LAST_VISIBLE_LINE,
        ensures
            r == self@.bg_color_id(x as int, line as int),
            r < 4,
    {
        let in_window = self.lcd_control.get_field(LcdControlBit::WindowEnable) && line
            >= self.window_y && x + 7 >= self.window_x;
        let (map_start, px, py): (u16, u8, u8) = if in_window {
            let start: u16 = if self.lcd_control.get_field(LcdControlBit::WindowTileMapArea) {
                0x9C00
            } else {
                0x9800
            };
            (start, x + 7 - self.window_x, line - self.window_y)
        } else {
            let start: u16 = if self.lcd_control.get_field(LcdControlBit::BgTileMapArea) {
                0x9C00
            } else {
                0x9800
            };
            (start, self.scx.wrapping_add(x), self.scy.wrapping_add(line))
        };
        let tile_index = self.resolve_tile_index(map_start, px, py);
        let tile_start_addr = self.resolve_tile_addr(tile_index);
        let x_in_tile = px % 8;
        let y_in_tile = py % 8;
        let tile_row_byte_count: u16 = 2;
        let tile_row_addr = Address::new(
            tile_start_addr.value() + (y_in_tile as u16) * tile_row_byte_count,
        );
        self.read_color_id(tile_row_addr, x_in_tile)
    }

    #[verifier::rlimit(30)]
    fn draw_sprites_for_current_line(&mut self, line: u8, bg_ids: &Vec<u8>)
        requires
            old(self).wf(),
            line <= LAST_VISIBLE_LINE,
            bg_ids@.len() == SCREEN_WIDTH,
        ensures
            final(self).wf(),
            final(self)@ == old(self)@.sprite_pass(line, bg_ids@),
    {
        let ghost start = self@;
        let sprites = self.select_sprites(line);
        let mut x: u8 = 0;
        assert(start.frame.pixels =~= spec_with_line(
            start.frame,
            line as int,
            0,
            |c: int| start.sprite_pixel(line, bg_ids@, c),
        ).pixels);
        while x < SCREEN_WIDTH
            invariant
                x <= SCREEN_WIDTH,
                line <= LAST_VISIBLE_LINE,
                bg_ids@.len() == SCREEN_WIDTH,
                self.wf(),
                start.inv(),
                sprites@ == start.line_sprites(line),
                forall|k: int| 0 <= k < sprites@.len() ==> (#[trigger] sprites@[k]).row < 16,
                self@ == (VideoModel { frame: self@.frame, ..start }),
                self@.frame == spec_with_line(
                    start.frame,
                    line as int,
                    x as int,
                    |c: int| start.sprite_pixel(line, bg_ids@, c),
                ),
            decreases SCREEN_WIDTH - x,
        {
            let under = self.frame_buffer.get_pixel(x as usize, line as usize);
            let bg_id = bg_ids[x as usize];
            let mut color = under;
            let mut k: usize = 0;
            while k < sprites.len()
                invariant
                    k <= sprites.len(),
                    x < SCREEN_WIDTH,
                    self.wf(),
                    forall|k: int| 0 <= k < sprites@.len() ==> (#[trigger] sprites@[k]).row < 16,
                    self@ == (VideoModel { frame: self@.frame, ..start }),
                    color == start.paint_sprites(sprites@, k as int, x as int, under, bg_id),
                decreases sprites.len() - k,
            {
                let item = sprites[k];
                if let Some(sprite_color) = self.read_sprite_color(&item, x) {
                    if !item.sprite.priority() || bg_id == 0 {
                        color = to_screen_color(sprite_color);
                    }
                }
                assert(self@.sprite_color(item, x as int) == start.sprite_color(item, x as int));
                k += 1;
            }
            self.frame_buffer.set_pixel(x, line, color);
            assert(self@.frame.pixels =~= spec_with_line(
                start.frame,
                line as int,
                x + 1,
                |c: int| start.sprite_pixel(line, bg_ids@, c),
            ).pixels);
            x += 1;
        }
    }

    /// The sprites to draw on line `line`, in drawing order.
    #[verifier::rlimit(30)]
    fn select_sprites(&self, line: u8) -> (sprites: Vec<VisibleSprite>)
        requires
            self.wf(),
        ensures
            sprites@ == self@.line_sprites(line),
            forall|k: int| 0 <= k < sprites@.len() ==> (#[trigger] sprites@[k]).row < 16,
    {
        let sprite_size = self.lcd_control.get_object_size();
        let mut visible: Vec<VisibleSprite> = Vec::new();
        let mut index: u8 = 0;
        while index < SPRITE_COUNT
            invariant
                index <= SPRITE_COUNT,
                self.wf(),
                sprite_size == self@.lcd_control.spec_object_size(),
                visible@ == self@.visible_sprites(line, index as int),
                visible@.len() <= index,
                forall|k: int| 0 <= k < visible@.len() ==> (#[trigger] visible@[k]).row < 16,
            decreases SPRITE_COUNT - index,
        {
            let sprite = self.read_sprite_object(index);
            if let Some(row) = sprite.resolve_row_in_sprite(line, &sprite_size) {
                let mut position: usize = 0;
                while position < visible.len() && !sprite.draws_before(&visible[position].sprite)
                    invariant
                        position <= visible.len(),
                        spec_insert_position(visible@, sprite, 0) == spec_insert_position(
                            visible@,
                            sprite,
                            position as int,
                        ),
                    decreases visible.len() - position,
                {
                    position += 1;
                }
                visible.insert(position, VisibleSprite { sprite, row });
            }
            index += 1;
        }
        visible.truncate(SPRITES_PER_LINE);
        visible
    }

    /// The colour that `item` puts on column `x`, if it puts one there.
    fn read_sprite_color(&self, item: &VisibleSprite, x: u8) -> (r: Option<PaletteColor>)
        requires
            self.wf(),
            item.row < 16,
        ensures
            r == self@.sprite_color(*item, x as int),
    {
        match item.sprite.column_at(x) {
            None => None,
            Some(column) => {
                let sprite_row_start_addr = self.resolve_sprite_row_addr(&item.sprite, item.row);
                let color_id = self.read_color_id(sprite_row_start_addr, column);
                match item.sprite.dmg_palette() {
                    SpritePalette::OBP0 => self.obj_palette_0.resolve_for_sprite_from_color_id(
                        color_id,
                    ),
                    SpritePalette::OBP1 => self.obj_palette_1.resolve_for_sprite_from_color_id(
                        color_id,
                    ),
                }
            },
        }
    }

    fn resolve_sprite_row_addr(&self, sprite: &SpriteObject, row: u8) -> (r: Address)
        requires
            row < 16,
        ensures
            r.addr == self@.sprite_row_addr(VisibleSprite { sprite: *sprite, row }),
            VRAM_START <= r.addr < 0xA000,
    {
        let row_byte_count: u16 = 2;
        Address::new(
            SPRITE_TILE_START + (sprite.tile_index as u16) * TILE_BYTE_COUNT + (row as u16)
                * row_byte_count,
        )
    }

    fn read_sprite_object(&self, index: u8) -> (r: SpriteObject)
        requires
            self.wf(),
            index < SPRITE_COUNT,
        ensures
            r == self@.sprite(index as int),
    {
        // An entry is four bytes long.
        let oam_addr = Address::new(OAM_START + (index as u16 * 4));
        let y_pos = self.read_oam(oam_addr.plus(0));
        let x_pos = self.read_oam(oam_addr.plus(1));
        let tile_index = self.read_oam(oam_addr.plus(2));
        let attributes = self.read_oam(oam_addr.plus(3));

        SpriteObject { y_pos, x_pos, tile_index, attributes, index }
    }

    /// The tile that the map starting at `map_start` shows at its pixel
    /// (`px`, `py`).
    fn resolve_tile_index(&self, map_start: u16, px: u8, py: u8) -> (r: u8)
        requires
            self.wf(),
            map_start == 0x9800 || map_start == 0x9C00,
        ensures
            r == self@.vram[map_start + (py / 8) * 32 + px / 8 - VRAM_START],
    {
        let tile_x = px / 8;
        let tile_y = py / 8;
        let tile_addr_offset = (tile_y as u16) * 32 + tile_x as u16;
        let tile_index_addr = Address::new(map_start + tile_addr_offset);
        self.read_vram(tile_index_addr)
    }

    fn resolve_tile_addr(&self, tile_index: u8) -> (r: Address)
        ensures
            r.addr == self@.tile_addr(tile_index),
            VRAM_START <= r.addr <= 0x97F0,
    {
        if self.lcd_control.get_field(LcdControlBit::BgAndWindowTileDataArea) {
            let tile_data_start: u16 = 0x8000;
            Address::new(tile_data_start + TILE_BYTE_COUNT * (tile_index as u16))
        } else if tile_index < 128 {
            Address::new(0x9000 + TILE_BYTE_COUNT * (tile_index as u16))
        } else {
            Address::new(0x8800 + TILE_BYTE_COUNT * ((tile_index - 128) as u16))
        }
    }

    fn read_color_id(&self, tile_row_addr: Address, x_in_tile: u8) -> (r: u8)
        requires
            self.wf(),
            x_in_tile < 8,
            VRAM_START <= tile_row_addr.addr < 0xA000,
        ensures
            r == self@.color_id(tile_row_addr.addr as int, x_in_tile as int),
            r < 4,
    {
        let first_byte = self.read_vram(tile_row_addr);
        let second_byte = self.read_vram(tile_row_addr.next());

        let ls_bit_color_id: u8 = if get_bit(first_byte, 7 - x_in_tile) {
            1
        } else {
            0
        };
        let ms_bit_color_id: u8 = if get_bit(second_byte, 7 - x_in_tile) {
            2
        } else {
            0
        };
        ms_bit_color_id + ls_bit_color_id
    }
}

/// Drawing a line changes nothing but the picture, and leaves the picture
/// its size.
pub proof fn lemma_draw_scanline_keeps_state(v: VideoModel, line: u8)
    requires
        v.inv(),
    ensures
        v.draw_scanline(line) == (VideoModel { frame: v.draw_scanline(line).frame, ..v }),
        v.draw_scanline(line).inv(),
{
    reveal(VideoModel::draw_scanline);
}

/// Every dot moves the frame's clock on by one, and past its last dot back
/// to zero; the dot that does so, and no other, sets the frame-ready latch.
pub proof fn lemma_tick_advances_frame_clock(v: VideoModel)
    requires
        v.inv(),
    ensures
        v.tick().inv(),
        0 <= v.dot_in_frame() < DOTS_PER_FRAME,
        v.tick().dot_in_frame() == (v.dot_in_frame() + 1) % (DOTS_PER_FRAME as int),
        v.tick().is_frame_ready == (v.is_frame_ready || v.dot_in_frame() == DOTS_PER_FRAME - 1),
{
    reveal(VideoModel::tick);
    lemma_draw_scanline_keeps_state(
        VideoModel { dot_in_current_mode: 0, ..v },
        v.current_line,
    );
}

impl VideoModel {
    /// How many of the next `dots` dots complete a frame.
    pub open spec fn frames_completed(self, dots: nat) -> nat
        decreases dots,
    {
        if dots == 0 {
            0
        } else {
            (if self.dot_in_frame() == DOTS_PER_FRAME - 1 {
                1nat
            } else {
                0
            }) + self.tick().frames_completed((dots - 1) as nat)
        }
    }
}

/// A frame takes 70224 dots: after any number of dots the frame's clock has
/// moved on by that number, round 70224, and the frames completed on the way
/// are the times it came round. From the start of a frame, the latch is
/// therefore set once, by the last of 70224 dots.
pub proof fn lemma_frame_takes_70224_dots(v: VideoModel, dots: nat)
    requires
        v.inv(),
    ensures
        v.ticks(dots).inv(),
        v.ticks(dots).dot_in_frame() == (v.dot_in_frame() + dots) % (DOTS_PER_FRAME as int),
        v.frames_completed(dots) == (v.dot_in_frame() + dots) / (DOTS_PER_FRAME as int),
        v.ticks(dots).is_frame_ready == (v.is_frame_ready || v.frames_completed(dots) > 0),
        v.dot_in_frame() == 0 && dots < DOTS_PER_FRAME ==> v.frames_completed(dots) == 0,
        v.dot_in_frame() == 0 && dots == DOTS_PER_FRAME ==> v.frames_completed(dots) == 1
            && v.ticks(dots).dot_in_frame() == 0,
    decreases dots,
{
    lemma_tick_advances_frame_clock(v);
    if dots > 0 {
        lemma_frame_takes_70224_dots(v.tick(), (dots - 1) as nat);
    }
}

} // verus!
