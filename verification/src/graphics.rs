//! The registers and picture elements of the picture processing unit: the
//! LCD control and status registers, the four shades, palettes and tiles.

use vstd::prelude::*;
use crate::bitty::{bit_at, bit_value, BitFlags};
use crate::text::{decimal, push_decimal, string_of};

pub mod display;

verus! {

/// The bit 0 or 1 for a boolean.
fn bool_bit(b: bool) -> (bit: u8)
    ensures
        bit == bit_value(b),
{
    if b {
        1
    } else {
        0
    }
}

/// The LCD control register (0xFF40), one field per bit.
#[derive(Clone, Copy, Debug, PartialEq, Eq, Structural)]
pub struct Control {
    /// Bit 7: the LCD is on.
    pub lcd_enable: bool,
    /// Bit 6: the window takes its tile map from 0x9C00 rather than 0x9800.
    pub tilemap_select: bool,
    /// Bit 5: the window is shown.
    pub display_enable: bool,
    /// Bit 4: tile data is at 0x8000 with unsigned tile numbers, rather
    /// than around 0x9000 with signed ones.
    pub bg_data_select: bool,
    /// Bit 3: the background takes its tile map from 0x9C00 rather than
    /// 0x9800.
    pub bg_tilemap_select: bool,
    /// Bit 2: sprites are 8x16 rather than 8x8.
    pub obj_size: bool,
    /// Bit 1: sprites are shown.
    pub obj_enable: bool,
    /// Bit 0: the background is shown.
    pub bg_display: bool,
}

impl Control {
    /// The register as a byte.
    pub open spec fn byte(self) -> u8 {
        (128 * bit_value(self.lcd_enable) + 64 * bit_value(self.tilemap_select) + 32 * bit_value(
            self.display_enable,
        ) + 16 * bit_value(self.bg_data_select) + 8 * bit_value(self.bg_tilemap_select) + 4
            * bit_value(self.obj_size) + 2 * bit_value(self.obj_enable) + bit_value(
            self.bg_display,
        )) as u8
    }

    /// The register that holds `byte`.
    pub open spec fn of_byte(byte: u8) -> Control {
        Control {
            lcd_enable: bit_at(byte, 7) == 1,
            tilemap_select: bit_at(byte, 6) == 1,
            display_enable: bit_at(byte, 5) == 1,
            bg_data_select: bit_at(byte, 4) == 1,
            bg_tilemap_select: bit_at(byte, 3) == 1,
            obj_size: bit_at(byte, 2) == 1,
            obj_enable: bit_at(byte, 1) == 1,
            bg_display: bit_at(byte, 0) == 1,
        }
    }

    pub fn new() -> (control: Control)
        ensures
            control == Control::of_byte(0),
    {
        Control {
            lcd_enable: false,
            tilemap_select: false,
            display_enable: false,
            bg_data_select: false,
            bg_tilemap_select: false,
            obj_size: false,
            obj_enable: false,
            bg_display: false,
        }
    }

    pub fn read_u8(&self) -> (byte: u8)
        ensures
            byte == self.byte(),
    {
        let mut byte: u8 = bool_bit(self.bg_display);
        byte = byte + 2 * bool_bit(self.obj_enable);
        byte = byte + 4 * bool_bit(self.obj_size);
        byte = byte + 8 * bool_bit(self.bg_tilemap_select);
        byte = byte + 16 * bool_bit(self.bg_data_select);
        assert(byte < 32);
        byte = byte + 32 * bool_bit(self.display_enable);
        byte = byte + 64 * bool_bit(self.tilemap_select);
        assert(byte < 128);
        byte = byte + 128 * bool_bit(self.lcd_enable);
        byte
    }

    pub fn write_u8(&mut self, byte: u8)
        ensures
            *final(self) == Control::of_byte(byte),
    {
        self.lcd_enable = byte.get_bit(7) == 1;
        self.tilemap_select = byte.get_bit(6) == 1;
        self.display_enable = byte.get_bit(5) == 1;
        self.bg_data_select = byte.get_bit(4) == 1;
        self.bg_tilemap_select = byte.get_bit(3) == 1;
        self.obj_size = byte.get_bit(2) == 1;
        self.obj_enable = byte.get_bit(1) == 1;
        self.bg_display = byte.get_bit(0) == 1;
    }
}

/// The color index, 0 to 3, of pixel `col` (0 is the leftmost) in a tile
/// row stored as the byte pair `lo`, `hi`: the bit of `lo` gives the low
/// bit of the index, the bit of `hi` the high bit; the leftmost pixel is in
/// bit 7.
pub open spec fn color_index(lo: u8, hi: u8, col: int) -> int {
    bit_at(lo, 7 - col) + 2 * bit_at(hi, 7 - col)
}

/// An 8x8 tile, decoded: a color index for every pixel, row by row.
pub struct Tile {
    pub lines: Vec<[u8; 8]>,
}

/// A color index as it is drawn: `_` for 0, otherwise the number.
pub open spec fn cell_text(index: u8) -> Seq<char> {
    if index == 0 {
        seq!['_']
    } else {
        decimal(index as int)
    }
}

/// The first `n` pixels of a tile row as they are drawn, a space between
/// one and the next.
pub open spec fn row_text(line: Seq<u8>, n: nat) -> Seq<char>
    decreases n,
{
    if n == 0 {
        Seq::<char>::empty()
    } else if n == 1 {
        cell_text(line[0])
    } else {
        row_text(line, (n - 1) as nat) + seq![' '] + cell_text(line[n - 1])
    }
}

/// The first `n` rows of a tile as they are drawn, one to a line.
pub open spec fn tile_text(lines: Seq<[u8; 8]>, n: nat) -> Seq<char>
    decreases n,
{
    if n == 0 {
        Seq::<char>::empty()
    } else if n == 1 {
        row_text(lines[0]@, 8)
    } else {
        tile_text(lines, (n - 1) as nat) + seq!['\n'] + row_text(lines[n - 1]@, 8)
    }
}

impl Tile {
    /// The tile drawn as text: a line for every row, the color index of
    /// every pixel, `_` for index 0.
    pub fn render(&self) -> (text: String)
        ensures
            text@ == tile_text(self.lines@, self.lines@.len()),
    {
        let mut text: Vec<char> = Vec::new();
        let mut r: usize = 0;
        while r < self.lines.len()
            invariant
                r <= self.lines@.len(),
                text@ == tile_text(self.lines@, r as nat),
            decreases self.lines@.len() - r,
        {
            if r > 0 {
                text.push('\n');
            }
            let ghost head = text@;
            let line: [u8; 8] = self.lines[r];
            let mut c: usize = 0;
            while c < 8
                invariant
                    c <= 8,
                    text@ == head + row_text(line@, c as nat),
                decreases 8 - c,
            {
                if c > 0 {
                    text.push(' ');
                }
                if line[c] == 0 {
                    text.push('_');
                } else {
                    push_decimal(&mut text, line[c] as u16);
                }
                assert(text@ =~= head + row_text(line@, (c + 1) as nat));
                c += 1;
            }
            assert(text@ =~= tile_text(self.lines@, (r + 1) as nat));
            r += 1;
        }
        string_of(&text)
    }

    /// Whether this is the tile that `bytes` encodes, two bytes per row.
    pub open spec fn decodes(&self, bytes: Seq<u8>) -> bool {
        &&& self.lines@.len() == bytes.len() / 2
        &&& forall|r: int, c: int|
            0 <= r < self.lines@.len() && 0 <= c < 8 ==> (#[trigger] self.lines@[r]@[c])
                == color_index(bytes[2 * r], bytes[2 * r + 1], c)
    }

    /// Decodes a tile from its bytes, two for each row; a last byte
    /// without a partner is left out.
    pub fn new(slice: &[u8]) -> (tile: Tile)
        ensures
            tile.decodes(slice@),
    {
        let mut vec: Vec<[u8; 8]> = Vec::new();
        let rows: usize = slice.len() / 2;
        let mut r: usize = 0;
        while r < rows
            invariant
                rows == slice@.len() / 2,
                slice@.len() <= usize::MAX,
                r <= rows,
                vec@.len() == r,
                forall|k: int, c: int|
                    0 <= k < r && 0 <= c < 8 ==> (#[trigger] vec@[k]@[c]) == color_index(
                        slice@[2 * k],
                        slice@[2 * k + 1],
                        c,
                    ),
            decreases rows - r,
        {
            assert(2 * r + 1 < slice@.len());
            let lo: u8 = slice[2 * r];
            let hi: u8 = slice[2 * r + 1];
            let mut line: [u8; 8] = [0; 8];
            let mut i: usize = 0;
            while i < 8
                invariant
                    i <= 8,
                    forall|c: int|
                        8 - i <= c < 8 ==> (#[trigger] line@[c]) == color_index(lo, hi, c),
                decreases 8 - i,
            {
                line[7 - i] = lo.get_bit(i) + 2 * hi.get_bit(i);
                i += 1;
            }
            vec.push(line);
            r += 1;
        }
        Tile { lines: vec }
    }
}

/// The activity of the LCD controller, as the status register reports it.
#[derive(Clone, Copy, Debug, PartialEq, Eq, Structural)]
pub enum StatMode {
    /// Horizontal blank.
    Hblank,
    /// Vertical blank.
    Vblank,
    /// Searching the sprite table.
    Search,
    /// Transferring pixels to the LCD.
    Transfer,
}

impl StatMode {
    /// The mode as the two-bit number in the status register.
    pub open spec fn code(self) -> u8 {
        match self {
            StatMode::Hblank => 0,
            StatMode::Vblank => 1,
            StatMode::Search => 2,
            StatMode::Transfer => 3,
        }
    }

    /// The mode for a two-bit number.
    pub fn from_u8(byte: u8) -> (mode: StatMode)
        requires
            byte <= 3,
        ensures
            mode.code() == byte,
    {
        match byte {
            0 => StatMode::Hblank,
            1 => StatMode::Vblank,
            2 => StatMode::Search,
            _ => StatMode::Transfer,
        }
    }

    pub fn to_u8(&self) -> (byte: u8)
        ensures
            byte == self.code(),
    {
        match *self {
            StatMode::Hblank => 0,
            StatMode::Vblank => 1,
            StatMode::Search => 2,
            StatMode::Transfer => 3,
        }
    }
}

/// The LCD status register (0xFF41). The four interrupt enables can be
/// written; the coincidence flag and the mode are kept by the picture unit.
#[derive(Clone, Copy, Debug, PartialEq, Eq, Structural)]
pub struct Stat {
    /// Bit 6: interrupt when the current line equals the compare line.
    pub lyc_int_enable: bool,
    /// Bit 5: interrupt on entering the sprite search.
    pub oam_int_enable: bool,
    /// Bit 4: interrupt on entering the vertical blank.
    pub vblank_int_enable: bool,
    /// Bit 3: interrupt on entering the horizontal blank.
    pub hblank_int_enable: bool,
    /// Bit 2: the current line equals the compare line.
    pub coincidence_flag: bool,
    /// Bits 1 and 0.
    pub mode: StatMode,
}

impl Stat {
    /// The register as a byte.
    pub open spec fn byte(self) -> u8 {
        (64 * bit_value(self.lyc_int_enable) + 32 * bit_value(self.oam_int_enable) + 16
            * bit_value(self.vblank_int_enable) + 8 * bit_value(self.hblank_int_enable) + 4
            * bit_value(self.coincidence_flag) + self.mode.code()) as u8
    }

    /// The register after `byte` is written to it: the four enables come
    /// from bits 6 to 3 of `byte`, the low three bits keep their value.
    pub open spec fn written(self, byte: u8) -> Stat {
        Stat {
            lyc_int_enable: bit_at(byte, 6) == 1,
            oam_int_enable: bit_at(byte, 5) == 1,
            vblank_int_enable: bit_at(byte, 4) == 1,
            hblank_int_enable: bit_at(byte, 3) == 1,
            ..self
        }
    }

    /// The register after reset: nothing enabled, no coincidence,
    /// horizontal blank.
    pub open spec fn initial() -> Stat {
        Stat {
            lyc_int_enable: false,
            oam_int_enable: false,
            vblank_int_enable: false,
            hblank_int_enable: false,
            coincidence_flag: false,
            mode: StatMode::Hblank,
        }
    }

    pub fn new() -> (stat: Stat)
        ensures
            stat == Stat::initial(),
    {
        Stat {
            lyc_int_enable: false,
            oam_int_enable: false,
            vblank_int_enable: false,
            hblank_int_enable: false,
            coincidence_flag: false,
            mode: StatMode::Hblank,
        }
    }

    pub fn read_u8(&self) -> (byte: u8)
        ensures
            byte == self.byte(),
    {
        bool_bit(self.lyc_int_enable) * 64 + bool_bit(self.oam_int_enable) * 32 + bool_bit(
            self.vblank_int_enable,
        ) * 16 + bool_bit(self.hblank_int_enable) * 8 + bool_bit(self.coincidence_flag) * 4
            + self.mode.to_u8()
    }

    pub fn write_u8(&mut self, byte: u8)
        ensures
            *final(self) == old(self).written(byte),
    {
        self.lyc_int_enable = byte.get_bit(6) == 1;
        self.oam_int_enable = byte.get_bit(5) == 1;
        self.vblank_int_enable = byte.get_bit(4) == 1;
        self.hblank_int_enable = byte.get_bit(3) == 1;
    }
}

/// One of the four shades of the LCD, from lightest to darkest.
#[derive(Clone, Copy, Debug, PartialEq, Eq, Structural)]
pub enum Shade {
    White,
    LightGray,
    DarkGray,
    Black,
}

impl Shade {
    /// The shade as the two-bit number in a palette: 0 is white, 3 is
    /// black.
    pub open spec fn code(self) -> u8 {
        match self {
            Shade::White => 0,
            Shade::LightGray => 1,
            Shade::DarkGray => 2,
            Shade::Black => 3,
        }
    }

    /// The shade with the code `code`; white for a number above 3.
    pub open spec fn of_code(code: int) -> Shade {
        if code == 3 {
            Shade::Black
        } else if code == 2 {
            Shade::DarkGray
        } else if code == 1 {
            Shade::LightGray
        } else {
            Shade::White
        }
    }

    /// The red, green and blue levels of the shade on the LCD.
    pub open spec fn rgb(self) -> (u8, u8, u8) {
        match self {
            Shade::Black => (0, 0, 0),
            Shade::DarkGray => (80, 80, 80),
            Shade::LightGray => (140, 140, 140),
            Shade::White => (155, 188, 15),
        }
    }

    /// The shade as a 32-bit pixel for the display: alpha 0xFF in the top
    /// byte, then red, green and blue.
    pub open spec fn argb(self) -> u32 {
        (0xFF00_0000 + self.rgb().0 * 0x1_0000 + self.rgb().1 * 0x100 + self.rgb().2) as u32
    }

    /// The shade for a two-bit number.
    pub fn from_u8(byte: u8) -> (shade: Shade)
        requires
            byte <= 3,
        ensures
            shade == Shade::of_code(byte as int),
            shade.code() == byte,
    {
        match byte {
            0 => Shade::White,
            1 => Shade::LightGray,
            2 => Shade::DarkGray,
            _ => Shade::Black,
        }
    }

    pub fn to_u8(&self) -> (byte: u8)
        ensures
            byte == self.code(),
    {
        match *self {
            Shade::White => 0,
            Shade::LightGray => 1,
            Shade::DarkGray => 2,
            Shade::Black => 3,
        }
    }

    pub fn to_rgb(&self) -> (rgb: (u8, u8, u8))
        ensures
            rgb == self.rgb(),
    {
        match *self {
            Shade::Black => (0, 0, 0),
            Shade::DarkGray => (80, 80, 80),
            Shade::LightGray => (140, 140, 140),
            Shade::White => (155, 188, 15),
        }
    }

    /// The pixel that the display gets for this shade.
    pub fn to_argb(&self) -> (pixel: u32)
        ensures
            pixel == self.argb(),
    {
        let (r, g, b) = self.to_rgb();
        0xFF00_0000u32 + (r as u32) * 0x1_0000 + (g as u32) * 0x100 + (b as u32)
    }
}

impl From<Shade> for u8 {
    /// The code of the shade.
    fn from(shade: Shade) -> (code: u8) {
        shade.to_u8()
    }
}

impl vstd::std_specs::convert::FromSpecImpl<Shade> for u8 {
    open spec fn obeys_from_spec() -> bool {
        true
    }

    open spec fn from_spec(shade: Shade) -> u8 {
        shade.code()
    }
}

impl From<Shade> for u32 {
    /// The pixel of the shade.
    fn from(shade: Shade) -> (pixel: u32) {
        shade.to_argb()
    }
}

impl vstd::std_specs::convert::FromSpecImpl<Shade> for u32 {
    open spec fn obeys_from_spec() -> bool {
        true
    }

    open spec fn from_spec(shade: Shade) -> u32 {
        shade.argb()
    }
}

/// A palette register: the shade for each of the four color indices.
#[derive(Clone, Copy, Debug, PartialEq, Eq, Structural)]
pub struct Palette {
    pub(crate) color_3: Shade,
    pub(crate) color_2: Shade,
    pub(crate) color_1: Shade,
    pub(crate) color_0: Shade,
}

impl Palette {
    /// The register as a byte: two bits for each index, index 0 lowest.
    pub closed spec fn byte(self) -> u8 {
        (64 * self.color_3.code() + 16 * self.color_2.code() + 4 * self.color_1.code()
            + self.color_0.code()) as u8
    }

    /// The shade of the color index `index`, 0 to 3.
    pub closed spec fn shade_of(self, index: int) -> Shade {
        if index == 3 {
            self.color_3
        } else if index == 2 {
            self.color_2
        } else if index == 1 {
            self.color_1
        } else {
            self.color_0
        }
    }

    /// The palette that holds `byte`: index `i` has the shade whose code is
    /// in bits `2i + 1` and `2i`.
    pub closed spec fn of_byte(byte: u8) -> Palette {
        Palette {
            color_3: Shade::of_code(byte as int / 64),
            color_2: Shade::of_code((byte as int / 16) % 4),
            color_1: Shade::of_code((byte as int / 4) % 4),
            color_0: Shade::of_code(byte as int % 4),
        }
    }

    pub fn new() -> (palette: Palette)
        ensures
            palette == Palette::of_byte(0),
    {
        Palette {
            color_3: Shade::White,
            color_2: Shade::White,
            color_1: Shade::White,
            color_0: Shade::White,
        }
    }

    pub fn write_u8(&mut self, byte: u8)
        ensures
            *final(self) == Palette::of_byte(byte),
    {
        self.color_3 = Shade::from_u8(byte / 64);
        self.color_2 = Shade::from_u8((byte / 16) % 4);
        self.color_1 = Shade::from_u8((byte / 4) % 4);
        self.color_0 = Shade::from_u8(byte % 4);
    }

    pub fn read_u8(&self) -> (byte: u8)
        ensures
            byte == self.byte(),
    {
        let c3: u8 = self.color_3.to_u8();
        let c2: u8 = self.color_2.to_u8();
        let c1: u8 = self.color_1.to_u8();
        let c0: u8 = self.color_0.to_u8();
        c3 * 64 + c2 * 16 + c1 * 4 + c0
    }

    /// The shade that the palette gives to a color index.
    pub fn shade(&self, index: u8) -> (shade: Shade)
        requires
            index <= 3,
        ensures
            shade == self.shade_of(index as int),
    {
        match index {
            0 => self.color_0,
            1 => self.color_1,
            2 => self.color_2,
            _ => self.color_3,
        }
    }
}

/// The control register reads back the byte that was written to it.
pub proof fn lemma_control_reads_back(byte: u8)
    ensures
        Control::of_byte(byte).byte() == byte,
{
    let c = Control::of_byte(byte);
    assert(bit_value(c.lcd_enable) == (byte / 128) % 2);
    assert(bit_value(c.tilemap_select) == (byte / 64) % 2);
    assert(bit_value(c.display_enable) == (byte / 32) % 2);
    assert(bit_value(c.bg_data_select) == (byte / 16) % 2);
    assert(bit_value(c.bg_tilemap_select) == (byte / 8) % 2);
    assert(bit_value(c.obj_size) == (byte / 4) % 2);
    assert(bit_value(c.obj_enable) == (byte / 2) % 2);
    assert(bit_value(c.bg_display) == (byte / 1) % 2);
    assert(128 * ((byte / 128) % 2) + 64 * ((byte / 64) % 2) + 32 * ((byte / 32) % 2) + 16 * ((byte
        / 16) % 2) + 8 * ((byte / 8) % 2) + 4 * ((byte / 4) % 2) + 2 * ((byte / 2) % 2) + (byte / 1)
        % 2 == byte) by (bit_vector);
}

/// A palette reads back the byte that was written to it.
pub proof fn lemma_palette_reads_back(byte: u8)
    ensures
        Palette::of_byte(byte).byte() == byte,
{
    let p = Palette::of_byte(byte);
    assert(p.color_3.code() == byte / 64);
    assert(p.color_2.code() == (byte / 16) % 4);
    assert(p.color_1.code() == (byte / 4) % 4);
    assert(p.color_0.code() == byte % 4);
    assert(64 * (byte / 64) + 16 * ((byte / 16) % 4) + 4 * ((byte / 4) % 4) + byte % 4 == byte)
        by (bit_vector);
}

/// The status register reads back bits 6 to 3 of the byte that was
/// written to it; its low three bits are as they were before the write.
pub proof fn lemma_stat_reads_back(stat: Stat, byte: u8)
    ensures
        stat.written(byte).byte() == ((byte as int / 8) % 16) * 8 + stat.byte() % 8,
{
    let w = stat.written(byte);
    assert(bit_value(w.lyc_int_enable) == (byte / 64) % 2);
    assert(bit_value(w.oam_int_enable) == (byte / 32) % 2);
    assert(bit_value(w.vblank_int_enable) == (byte / 16) % 2);
    assert(bit_value(w.hblank_int_enable) == (byte / 8) % 2);
    assert(64 * ((byte / 64) % 2) + 32 * ((byte / 32) % 2) + 16 * ((byte / 16) % 2) + 8 * ((byte
        / 8) % 2) == ((byte / 8) % 16) * 8) by (bit_vector);
    let low = 4 * bit_value(stat.coincidence_flag) + stat.mode.code();
    assert(0 <= low < 8);
    assert(w.byte() == ((byte / 8) % 16) * 8 + low);
    let high = 64 * bit_value(stat.lyc_int_enable) + 32 * bit_value(stat.oam_int_enable) + 16
        * bit_value(stat.vblank_int_enable) + 8 * bit_value(stat.hblank_int_enable);
    assert(stat.byte() == high + low);
    assert(high % 8 == 0);
    assert(stat.byte() % 8 == low);
}

} // verus!
