//! The picture processing unit: video memory, the sprite table, the LCD
//! registers, and the production of the picture one scanline at a time.
//!
//! The unit is described by [`PpuView`], a record of plain values, and by
//! the functions on it: [`PpuView::read`] and [`PpuView::write`] for the
//! bus, [`PpuView::step`] for one scanline and [`PpuView::tick`] for one
//! machine cycle. The methods of [`Ppu`] compute exactly those functions.

use vstd::prelude::*;
use vstd::slice::slice_subrange;
use crate::bitty::BitFlags;
use crate::graphics::{color_index, Control, Palette, Shade, Stat, StatMode, Tile};

verus! {

/// The size of video memory in bytes.
pub const VRAM_SIZE: usize = 0x2000;

/// The size of the sprite table in bytes.
pub const OAM_SIZE: usize = 0xA0;

/// The width of the picture in pixels.
pub const SCREEN_WIDTH: usize = 160;

/// The number of scanlines that show on the LCD.
pub const VISIBLE_LINES: u8 = 144;

/// The number of scanlines of a frame, the ten of the vertical blank
/// included.
pub const TOTAL_LINES: u8 = 154;

/// The number of pixels of a picture.
pub const FRAME_PIXELS: usize = 23040;

/// The number of machine cycles that one scanline takes (456 T-states).
pub const LINE_CYCLES: u8 = 114;

/// The state of the picture unit as plain values.
pub struct PpuView {
    /// Video memory, 0x8000 to 0x9FFF on the bus.
    pub vram: Seq<u8>,
    /// The sprite table, 0xFE00 to 0xFE9F on the bus.
    pub oam: Seq<u8>,
    /// The picture, row by row, 160 shades to a row.
    pub framebuffer: Seq<Shade>,
    /// 0xFF40.
    pub control: Control,
    /// 0xFF41.
    pub stat: Stat,
    /// 0xFF42.
    pub scroll_y: u8,
    /// 0xFF43.
    pub scroll_x: u8,
    /// 0xFF44: the scanline that the next step works on.
    pub ly: u8,
    /// 0xFF45: the line that `ly` is compared with.
    pub lyc: u8,
    /// 0xFF46: the source page of the last transfer into the sprite table.
    pub dma_address: u8,
    /// 0xFF47.
    pub bg_palette: Palette,
    /// 0xFF48.
    pub obj0_palette: Palette,
    /// 0xFF49.
    pub obj1_palette: Palette,
    /// 0xFF4A.
    pub window_y: u8,
    /// 0xFF4B.
    pub window_x: u8,
    /// The machine cycles spent on the current scanline.
    pub line_clock: u8,
}

/// Whether `addr` belongs to the picture unit: video memory, the sprite
/// table, or one of the registers 0xFF40 to 0xFF4B.
pub open spec fn ppu_maps(addr: u16) -> bool {
    0x8000 <= addr <= 0x9FFF || 0xFE00 <= addr <= 0xFE9F || 0xFF40 <= addr <= 0xFF4B
}

/// Where in video memory the 16 bytes of tile `tile_no` start. With
/// `unsigned` the tiles are numbered 0 to 255 from 0x8000; without it they
/// are numbered -128 to 127 around 0x9000.
pub open spec fn tile_address(unsigned: bool, tile_no: u8) -> int {
    if unsigned {
        tile_no as int * 16
    } else if tile_no < 128 {
        0x1000 + tile_no as int * 16
    } else {
        0x0800 + (tile_no as int - 128) * 16
    }
}

/// Where in video memory the selected background tile map starts.
pub open spec fn tilemap_base(select: bool) -> int {
    if select {
        0x1C00
    } else {
        0x1800
    }
}

impl PpuView {
    /// The invariant of the unit: the sizes of its memories, the range of
    /// the scanline counter, and the two read-only parts of the status
    /// register, which follow the counter.
    pub open spec fn wf(self) -> bool {
        &&& self.vram.len() == VRAM_SIZE
        &&& self.oam.len() == OAM_SIZE
        &&& self.framebuffer.len() == FRAME_PIXELS
        &&& self.ly <= 153
        &&& (self.stat.mode is Vblank) == (self.ly >= 144)
        &&& self.stat.coincidence_flag == (self.ly == self.lyc)
        &&& self.line_clock < LINE_CYCLES
    }

    /// What the bus reads at `addr`, an address of the unit.
    pub open spec fn read(self, addr: u16) -> u8 {
        if 0x8000 <= addr <= 0x9FFF {
            self.vram[addr - 0x8000]
        } else if 0xFE00 <= addr <= 0xFE9F {
            self.oam[addr - 0xFE00]
        } else if addr == 0xFF40 {
            self.control.byte()
        } else if addr == 0xFF41 {
            self.stat.byte()
        } else if addr == 0xFF42 {
            self.scroll_y
        } else if addr == 0xFF43 {
            self.scroll_x
        } else if addr == 0xFF44 {
            self.ly
        } else if addr == 0xFF45 {
            self.lyc
        } else if addr == 0xFF46 {
            self.dma_address
        } else if addr == 0xFF47 {
            self.bg_palette.byte()
        } else if addr == 0xFF48 {
            self.obj0_palette.byte()
        } else if addr == 0xFF49 {
            self.obj1_palette.byte()
        } else if addr == 0xFF4A {
            self.window_y
        } else {
            self.window_x
        }
    }

    /// The unit after the bus writes `value` to `addr`, an address of the
    /// unit. The scanline counter is read-only; a write to the compare line
    /// updates the coincidence flag; a write to the status register changes
    /// the interrupt enables only.
    pub open spec fn write(self, addr: u16, value: u8) -> PpuView {
        if 0x8000 <= addr <= 0x9FFF {
            PpuView { vram: self.vram.update(addr - 0x8000, value), ..self }
        } else if 0xFE00 <= addr <= 0xFE9F {
            PpuView { oam: self.oam.update(addr - 0xFE00, value), ..self }
        } else if addr == 0xFF40 {
            PpuView { control: Control::of_byte(value), ..self }
        } else if addr == 0xFF41 {
            PpuView { stat: self.stat.written(value), ..self }
        } else if addr == 0xFF42 {
            PpuView { scroll_y: value, ..self }
        } else if addr == 0xFF43 {
            PpuView { scroll_x: value, ..self }
        } else if addr == 0xFF44 {
            self
        } else if addr == 0xFF45 {
            PpuView {
                lyc: value,
                stat: Stat { coincidence_flag: self.ly == value, ..self.stat },
                ..self
            }
        } else if addr == 0xFF46 {
            PpuView { dma_address: value, ..self }
        } else if addr == 0xFF47 {
            PpuView { bg_palette: Palette::of_byte(value), ..self }
        } else if addr == 0xFF48 {
            PpuView { obj0_palette: Palette::of_byte(value), ..self }
        } else if addr == 0xFF49 {
            PpuView { obj1_palette: Palette::of_byte(value), ..self }
        } else if addr == 0xFF4A {
            PpuView { window_y: value, ..self }
        } else {
            PpuView { window_x: value, ..self }
        }
    }

    /// The row of the background tile map that the current scanline falls
    /// in.
    pub open spec fn tile_row(self) -> int {
        ((self.scroll_y as int + self.ly as int) / 8) % 32
    }

    /// The row inside its tiles that the current scanline shows.
    pub open spec fn row_in_tile(self) -> int {
        (self.scroll_y as int + self.ly as int) % 8
    }

    /// The number of the background tile that covers pixel `x` of the
    /// current scanline.
    pub open spec fn tile_number(self, x: int) -> u8 {
        self.vram[tilemap_base(self.control.bg_tilemap_select) + self.tile_row() * 32 + x / 8]
    }

    /// The color index of the background at pixel `x` of the current
    /// scanline.
    pub open spec fn bg_color(self, x: int) -> int {
        let at = tile_address(self.control.bg_data_select, self.tile_number(x)) + 2
            * self.row_in_tile();
        color_index(self.vram[at], self.vram[at + 1], x % 8)
    }

    /// The shade of the background at pixel `x` of the current scanline:
    /// its color index seen through the background palette.
    pub open spec fn bg_shade(self, x: int) -> Shade {
        self.bg_palette.shade_of(self.bg_color(x))
    }

    /// The picture after the current scanline is drawn into its row.
    pub open spec fn drawn(self) -> Seq<Shade> {
        Seq::new(
            self.framebuffer.len(),
            |i: int|
                if self.ly as int * 160 <= i < self.ly as int * 160 + 160 {
                    self.bg_shade(i - self.ly as int * 160)
                } else {
                    self.framebuffer[i]
                },
        )
    }

    /// The picture as the display gets it: one 32-bit pixel per shade.
    pub open spec fn pixels(self) -> Seq<u32> {
        Seq::new(self.framebuffer.len(), |i: int| self.framebuffer[i].argb())
    }

    /// Whether the next step hands out a finished picture: it does at the
    /// start of line 0, before that line is drawn.
    pub open spec fn emits_frame(self) -> bool {
        self.ly == 0
    }

    /// Whether the next step is the one that enters the vertical blank and
    /// requests its interrupt.
    pub open spec fn enters_vblank(self) -> bool {
        self.ly == 144
    }

    /// The scanline after the current one.
    pub open spec fn next_line(self) -> u8 {
        if self.ly >= 153 {
            0
        } else {
            (self.ly + 1) as u8
        }
    }

    /// The unit after one scanline's work: a visible line is drawn, the
    /// counter moves on and wraps after line 153, and the status register
    /// follows it.
    pub open spec fn step(self) -> PpuView {
        let next = self.next_line();
        PpuView {
            framebuffer: if self.ly < 144 {
                self.drawn()
            } else {
                self.framebuffer
            },
            ly: next,
            stat: Stat {
                mode: if next >= 144 {
                    StatMode::Vblank
                } else {
                    StatMode::Hblank
                },
                coincidence_flag: next == self.lyc,
                ..self.stat
            },
            ..self
        }
    }

    /// Whether the next machine cycle completes the current scanline.
    pub open spec fn line_ends(self) -> bool {
        self.line_clock + 1 >= LINE_CYCLES
    }

    /// The unit after one machine cycle: the line clock advances, and at
    /// the end of the line the scanline's work is done.
    pub open spec fn tick(self) -> PpuView {
        if self.line_ends() {
            (PpuView { line_clock: 0, ..self }).step()
        } else {
            PpuView { line_clock: (self.line_clock + 1) as u8, ..self }
        }
    }

    /// The number of machine cycles until a picture is handed out.
    pub open spec fn cycles_to_frame(self) -> int {
        (if self.ly == 0 {
            0int
        } else {
            (154 - self.ly) * 114
        }) + (114 - self.line_clock)
    }
}

impl PpuView {
    /// The unit after `n` steps.
    pub open spec fn steps(self, n: nat) -> PpuView
        decreases n,
    {
        if n == 0 {
            self
        } else {
            self.step().steps((n - 1) as nat)
        }
    }

    /// The number of pictures that the next `n` steps hand out.
    pub open spec fn frames_in(self, n: nat) -> nat
        decreases n,
    {
        if n == 0 {
            0
        } else {
            (if self.emits_frame() {
                1nat
            } else {
                0nat
            }) + self.step().frames_in((n - 1) as nat)
        }
    }
}

/// From a line other than 0, the steps up to the end of the frame hand out
/// no picture and move the line counter on by one each.
pub proof fn lemma_rest_of_frame(p: PpuView, n: nat)
    requires
        1 <= p.ly <= 153,
        n <= 154 - p.ly,
    ensures
        p.frames_in(n) == 0,
        p.steps(n).ly == (if p.ly + n == 154 {
            0
        } else {
            p.ly + n
        }),
    decreases n,
{
    if n > 0 {
        if p.ly < 153 {
            lemma_rest_of_frame(p.step(), (n - 1) as nat);
        } else {
            assert(p.step().frames_in(0) == 0);
            assert(p.step().steps(0) == p.step());
        }
    }
}

/// A frame takes 154 steps, and one picture is handed out in the course of
/// it: from line 0, 154 steps in a row hand out exactly one picture and
/// end on line 0 again.
pub proof fn lemma_one_frame_per_154_steps(p: PpuView)
    requires
        p.ly == 0,
    ensures
        p.frames_in(154) == 1,
        p.steps(154).ly == 0,
{
    lemma_rest_of_frame(p.step(), 153);
}

/// A write from the bus keeps the invariant of the unit.
pub proof fn lemma_ppu_write_wf(p: PpuView, addr: u16, value: u8)
    requires
        p.wf(),
        ppu_maps(addr),
    ensures
        p.write(addr, value).wf(),
{
    if addr <= 0x9FFF {
    } else if addr <= 0xFE9F {
    } else if addr <= 0xFF44 {
    } else if addr == 0xFF45 {
    } else if addr <= 0xFF48 {
    } else {
    }
}

/// A write to video memory or to the sprite table changes the byte written
/// and nothing else that the bus can read from the unit.
pub proof fn lemma_ppu_memory_write(p: PpuView, addr: u16, value: u8, other: u16)
    requires
        p.wf(),
        0x8000 <= addr <= 0x9FFF || 0xFE00 <= addr <= 0xFE9F,
        ppu_maps(other),
    ensures
        p.write(addr, value).read(addr) == value,
        other != addr ==> p.write(addr, value).read(other) == p.read(other),
{
    if addr <= 0x9FFF {
        if other <= 0x9FFF {
        } else if other <= 0xFE9F {
        } else {
        }
    } else {
        if other <= 0x9FFF {
        } else if other <= 0xFE9F {
        } else {
        }
    }
}

/// A step keeps the invariant of the unit.
pub proof fn lemma_step_wf(p: PpuView)
    requires
        p.wf(),
    ensures
        p.step().wf(),
        p.tick().wf(),
{
}

/// What one step of the picture unit asks of its owner.
pub struct LineEvent {
    /// The finished picture for the display, when there is one.
    pub frame: Option<Vec<u32>>,
    /// Whether the vertical-blank interrupt is to be requested.
    pub vblank: bool,
}

impl LineEvent {
    /// Whether this is what a step from the state `pre` asks for.
    pub open spec fn follows(self, pre: PpuView) -> bool {
        &&& self.vblank == pre.enters_vblank()
        &&& match self.frame {
            Some(frame) => pre.emits_frame() && frame@ == pre.pixels(),
            None => !pre.emits_frame(),
        }
    }
}

/// The picture processing unit.
pub struct Ppu {
    framebuffer: [Shade; 23040],
    vram: [u8; 0x2000],
    oam: [u8; 0xA0],
    control: Control,
    stat: Stat,
    scroll_y: u8,
    scroll_x: u8,
    ly: u8,
    lyc: u8,
    dma_address: u8,
    bg_palette: Palette,
    obj0_palette: Palette,
    obj1_palette: Palette,
    window_y: u8,
    window_x: u8,
    line_clock: u8,
}

impl View for Ppu {
    type V = PpuView;

    closed spec fn view(&self) -> PpuView {
        PpuView {
            vram: self.vram@,
            oam: self.oam@,
            framebuffer: self.framebuffer@,
            control: self.control,
            stat: self.stat,
            scroll_y: self.scroll_y,
            scroll_x: self.scroll_x,
            ly: self.ly,
            lyc: self.lyc,
            dma_address: self.dma_address,
            bg_palette: self.bg_palette,
            obj0_palette: self.obj0_palette,
            obj1_palette: self.obj1_palette,
            window_y: self.window_y,
            window_x: self.window_x,
            line_clock: self.line_clock,
        }
    }
}

/// Moves the scanline counter on by one line and lets the status register
/// follow it.
fn advance_line(ly: &mut u8, stat: &mut Stat, lyc: u8)
    ensures
        *final(ly) == (if *old(ly) >= 153 {
            0u8
        } else {
            (*old(ly) + 1) as u8
        }),
        *final(stat) == (Stat {
            mode: if *final(ly) >= 144 {
                StatMode::Vblank
            } else {
                StatMode::Hblank
            },
            coincidence_flag: *final(ly) == lyc,
            ..*old(stat)
        }),
    no_unwind
{
    *ly = if *ly >= 153 {
        0
    } else {
        *ly + 1
    };
    stat.mode = if *ly >= 144 {
        StatMode::Vblank
    } else {
        StatMode::Hblank
    };
    stat.coincidence_flag = *ly == lyc;
}

/// Sets the compare line and the coincidence flag that follows from it.
fn set_compare(lyc: &mut u8, stat: &mut Stat, ly: u8, value: u8)
    ensures
        *final(lyc) == value,
        *final(stat) == (Stat { coincidence_flag: ly == value, ..*old(stat) }),
    no_unwind
{
    *lyc = value;
    stat.coincidence_flag = ly == value;
}

impl Ppu {
    #[verifier::type_invariant]
    closed spec fn inv(&self) -> bool {
        &&& self.ly <= 153
        &&& (self.stat.mode is Vblank) == (self.ly >= 144)
        &&& self.stat.coincidence_flag == (self.ly == self.lyc)
        &&& self.line_clock < LINE_CYCLES
    }

    /// The unit after reset: memories cleared, a white picture, line 0.
    pub open spec fn initial() -> PpuView {
        PpuView {
            vram: Seq::new(VRAM_SIZE as nat, |i: int| 0u8),
            oam: Seq::new(OAM_SIZE as nat, |i: int| 0u8),
            framebuffer: Seq::new(FRAME_PIXELS as nat, |i: int| Shade::White),
            control: Control::of_byte(0),
            stat: Stat { coincidence_flag: true, ..Stat::initial() },
            scroll_y: 0,
            scroll_x: 0,
            ly: 0,
            lyc: 0,
            dma_address: 0,
            bg_palette: Palette::of_byte(0),
            obj0_palette: Palette::of_byte(0),
            obj1_palette: Palette::of_byte(0),
            window_y: 0,
            window_x: 0,
            line_clock: 0,
        }
    }

    pub fn new() -> (ppu: Ppu)
        ensures
            ppu@ == Ppu::initial(),
            ppu@.wf(),
    {
        let mut stat = Stat::new();
        stat.coincidence_flag = true;
        let ppu = Ppu {
            framebuffer: [Shade::White; 23040],
            vram: [0u8; 0x2000],
            oam: [0u8; 0xA0],
            control: Control::new(),
            stat,
            scroll_x: 0,
            scroll_y: 0,
            ly: 0,
            lyc: 0,
            dma_address: 0,
            bg_palette: Palette::new(),
            obj0_palette: Palette::new(),
            obj1_palette: Palette::new(),
            window_y: 0,
            window_x: 0,
            line_clock: 0,
        };
        assert(ppu@.vram =~= Ppu::initial().vram);
        assert(ppu@.oam =~= Ppu::initial().oam);
        assert(ppu@.framebuffer =~= Ppu::initial().framebuffer);
        ppu
    }

    /// Makes the invariant of the unit known to the caller.
    pub fn well_formed(&self)
        ensures
            self@.wf(),
    {
        proof {
            use_type_invariant(self);
        }
    }

    /// The scanline that the next step works on.
    pub fn ly(&self) -> (ly: u8)
        ensures
            ly == self@.ly,
            ly <= 153,
    {
        proof {
            use_type_invariant(self);
        }
        self.ly
    }

    /// The decoded tile of number `tile_no`, taken from the tile data that
    /// the control register selects.
    pub fn get_tile(&self, tile_no: u8) -> (tile: Tile)
        ensures
            tile.decodes(
                self@.vram.subrange(
                    tile_address(self@.control.bg_data_select, tile_no),
                    tile_address(self@.control.bg_data_select, tile_no) + 16,
                ),
            ),
    {
        let idx: usize = if self.control.bg_data_select {
            tile_no as usize * 16
        } else if tile_no < 128 {
            0x1000 + tile_no as usize * 16
        } else {
            0x0800 + (tile_no as usize - 128) * 16
        };
        let slice = slice_subrange(self.vram.as_slice(), idx, idx + 16);
        Tile::new(slice)
    }

    /// What the bus reads at `loc`.
    pub fn read_u8(&self, loc: u16) -> (value: u8)
        requires
            ppu_maps(loc),
        ensures
            value == self@.read(loc),
    {
        if 0x8000 <= loc && loc <= 0x9FFF {
            self.vram[(loc - 0x8000) as usize]
        } else if 0xFE00 <= loc && loc <= 0xFE9F {
            self.oam[(loc - 0xFE00) as usize]
        } else {
            match loc {
                0xFF40 => self.control.read_u8(),
                0xFF41 => self.stat.read_u8(),
                0xFF42 => self.scroll_y,
                0xFF43 => self.scroll_x,
                0xFF44 => self.ly,
                0xFF45 => self.lyc,
                0xFF46 => self.dma_address,
                0xFF47 => self.bg_palette.read_u8(),
                0xFF48 => self.obj0_palette.read_u8(),
                0xFF49 => self.obj1_palette.read_u8(),
                0xFF4A => self.window_y,
                _ => self.window_x,
            }
        }
    }

    /// A write from the bus to the control register.
    fn write_control(&mut self, value: u8)
        ensures
            final(self)@ == old(self)@.write(0xFF40, value),
    {
        proof {
            use_type_invariant(&*self);
        }
        let mut control = self.control;
        control.write_u8(value);
        self.control = control;
    }

    /// A write from the bus to the status register.
    fn write_stat(&mut self, value: u8)
        ensures
            final(self)@ == old(self)@.write(0xFF41, value),
    {
        proof {
            use_type_invariant(&*self);
        }
        let mut stat = self.stat;
        stat.write_u8(value);
        self.stat = stat;
    }

    /// A write from the bus to the vertical scroll.
    fn write_scroll_y(&mut self, value: u8)
        ensures
            final(self)@ == old(self)@.write(0xFF42, value),
    {
        proof {
            use_type_invariant(&*self);
        }
        self.scroll_y = value;
    }

    /// A write from the bus to the horizontal scroll.
    fn write_scroll_x(&mut self, value: u8)
        ensures
            final(self)@ == old(self)@.write(0xFF43, value),
    {
        proof {
            use_type_invariant(&*self);
        }
        self.scroll_x = value;
    }

    /// A write from the bus to the compare line.
    fn write_lyc(&mut self, value: u8)
        ensures
            final(self)@ == old(self)@.write(0xFF45, value),
    {
        proof {
            use_type_invariant(&*self);
        }
        set_compare(&mut self.lyc, &mut self.stat, self.ly, value);
    }

    /// A write from the bus to the transfer source page.
    fn write_dma_address(&mut self, value: u8)
        ensures
            final(self)@ == old(self)@.write(0xFF46, value),
    {
        proof {
            use_type_invariant(&*self);
        }
        self.dma_address = value;
    }

    /// A write from the bus to the background palette.
    fn write_bg_palette(&mut self, value: u8)
        ensures
            final(self)@ == old(self)@.write(0xFF47, value),
    {
        proof {
            use_type_invariant(&*self);
        }
        let mut palette = self.bg_palette;
        palette.write_u8(value);
        self.bg_palette = palette;
    }

    /// A write from the bus to the first sprite palette.
    fn write_obj0_palette(&mut self, value: u8)
        ensures
            final(self)@ == old(self)@.write(0xFF48, value),
    {
        proof {
            use_type_invariant(&*self);
        }
        let mut palette = self.obj0_palette;
        palette.write_u8(value);
        self.obj0_palette = palette;
    }

    /// A write from the bus to the second sprite palette.
    fn write_obj1_palette(&mut self, value: u8)
        ensures
            final(self)@ == old(self)@.write(0xFF49, value),
    {
        proof {
            use_type_invariant(&*self);
        }
        let mut palette = self.obj1_palette;
        palette.write_u8(value);
        self.obj1_palette = palette;
    }

    /// A write from the bus to the window row.
    fn write_window_y(&mut self, value: u8)
        ensures
            final(self)@ == old(self)@.write(0xFF4A, value),
    {
        proof {
            use_type_invariant(&*self);
        }
        self.window_y = value;
    }

    /// A write from the bus to the window column.
    fn write_window_x(&mut self, value: u8)
        ensures
            final(self)@ == old(self)@.write(0xFF4B, value),
    {
        proof {
            use_type_invariant(&*self);
        }
        self.window_x = value;
    }

    /// A write from the bus to one of the registers 0xFF40 to 0xFF4B.
    fn write_register(&mut self, loc: u16, value: u8)
        requires
            0xFF40 <= loc <= 0xFF4B,
        ensures
            final(self)@ == old(self)@.write(loc, value),
    {
        match loc {
            0xFF40 => self.write_control(value),
            0xFF41 => self.write_stat(value),
            0xFF42 => self.write_scroll_y(value),
            0xFF43 => self.write_scroll_x(value),
            0xFF44 => {},
            0xFF45 => self.write_lyc(value),
            0xFF46 => self.write_dma_address(value),
            0xFF47 => self.write_bg_palette(value),
            0xFF48 => self.write_obj0_palette(value),
            0xFF49 => self.write_obj1_palette(value),
            0xFF4A => self.write_window_y(value),
            _ => self.write_window_x(value),
        }
    }

    /// A write from the bus to `loc`.
    pub fn write_u8(&mut self, loc: u16, value: u8)
        requires
            ppu_maps(loc),
        ensures
            final(self)@ == old(self)@.write(loc, value),
    {
        proof {
            use_type_invariant(&*self);
        }
        if 0x8000 <= loc && loc <= 0x9FFF {
            self.vram[(loc - 0x8000) as usize] = value;
        } else if 0xFE00 <= loc && loc <= 0xFE9F {
            self.oam[(loc - 0xFE00) as usize] = value;
        } else {
            self.write_register(loc, value);
        }
    }

    /// Replaces the sprite table by the 160 bytes of `source`.
    pub fn load_oam(&mut self, source: &Vec<u8>)
        requires
            source@.len() == OAM_SIZE,
        ensures
            final(self)@ == (PpuView { oam: source@, ..old(self)@ }),
    {
        proof {
            use_type_invariant(&*self);
        }
        let mut i: usize = 0;
        while i < OAM_SIZE
            invariant
                i <= OAM_SIZE,
                source@.len() == OAM_SIZE,
                self.inv(),
                self@ == (PpuView { oam: self@.oam, ..old(self)@ }),
                self@.oam.len() == OAM_SIZE,
                forall|k: int| 0 <= k < i ==> self@.oam[k] == source@[k],
            decreases OAM_SIZE - i,
        {
            self.oam[i] = source[i];
            i += 1;
        }
        assert(self@.oam =~= source@);
    }

    /// Twenty tile numbers from the entry `x` of the selected background
    /// tile map on, as far as video memory reaches.
    pub fn tile_line(&self, x: usize) -> (tiles: &[u8])
        requires
            tilemap_base(self@.control.bg_tilemap_select) + x + 20 <= VRAM_SIZE,
        ensures
            tiles@ == self@.vram.subrange(
                tilemap_base(self@.control.bg_tilemap_select) + x,
                tilemap_base(self@.control.bg_tilemap_select) + x + 20,
            ),
    {
        let base: usize = if self.control.bg_tilemap_select {
            0x1C00 + x
        } else {
            0x1800 + x
        };
        slice_subrange(self.vram.as_slice(), base, base + 20)
    }

    /// Draws the current scanline, a visible one, into its row of the
    /// picture.
    fn update_framebuffer(&mut self)
        requires
            old(self)@.ly < 144,
        ensures
            final(self)@ == (PpuView { framebuffer: old(self)@.drawn(), ..old(self)@ }),
    {
        proof {
            use_type_invariant(&*self);
        }
        let ghost pre = self@;
        let y: usize = self.scroll_y as usize + self.ly as usize;
        let tile_row: usize = (y / 8) % 32;
        let row_in_tile: usize = y % 8;
        let map: usize = if self.control.bg_tilemap_select {
            0x1C00
        } else {
            0x1800
        };
        let offset: usize = self.ly as usize * SCREEN_WIDTH;
        let mut x: usize = 0;
        while x < SCREEN_WIDTH
            invariant
                x <= SCREEN_WIDTH,
                self.inv(),
                pre.wf(),
                pre.ly < 144,
                tile_row == pre.tile_row(),
                row_in_tile == pre.row_in_tile(),
                map == tilemap_base(pre.control.bg_tilemap_select),
                offset == pre.ly * 160,
                self@ == (PpuView { framebuffer: self@.framebuffer, ..pre }),
                self@.framebuffer.len() == FRAME_PIXELS,
                forall|i: int|
                    offset <= i < offset + x ==> self@.framebuffer[i] == pre.bg_shade(i - offset),
                forall|i: int|
                    0 <= i < FRAME_PIXELS && !(offset <= i < offset + x)
                        ==> self@.framebuffer[i] == pre.framebuffer[i],
            decreases SCREEN_WIDTH - x,
        {
            let tile_no: u8 = self.vram[map + tile_row * 32 + x / 8];
            let tile: usize = if self.control.bg_data_select {
                tile_no as usize * 16
            } else if tile_no < 128 {
                0x1000 + tile_no as usize * 16
            } else {
                0x0800 + (tile_no as usize - 128) * 16
            };
            let at: usize = tile + 2 * row_in_tile;
            let lo: u8 = self.vram[at];
            let hi: u8 = self.vram[at + 1];
            let col: usize = x % 8;
            let color: u8 = lo.get_bit(7 - col) + 2 * hi.get_bit(7 - col);
            let shade = self.bg_palette.shade(color);
            assert(shade == pre.bg_shade(x as int));
            self.framebuffer[offset + x] = shade;
            x += 1;
        }
        assert(self@.framebuffer =~= pre.drawn());
    }

    /// The picture as pixels for the display.
    pub fn frame(&self) -> (pixels: Vec<u32>)
        ensures
            pixels@ == self@.pixels(),
    {
        let mut pixels: Vec<u32> = Vec::with_capacity(FRAME_PIXELS);
        let mut i: usize = 0;
        while i < FRAME_PIXELS
            invariant
                i <= FRAME_PIXELS,
                self@.framebuffer.len() == FRAME_PIXELS,
                pixels@.len() == i,
                forall|k: int| 0 <= k < i ==> pixels@[k] == self@.framebuffer[k].argb(),
            decreases FRAME_PIXELS - i,
        {
            pixels.push(self.framebuffer[i].to_argb());
            i += 1;
        }
        assert(pixels@ =~= self@.pixels());
        pixels
    }

    /// Does the work of one scanline. At line 0 the finished picture is
    /// handed out first; a visible line is then drawn; at line 144 the
    /// vertical-blank interrupt is asked for; then the line counter moves
    /// on, and wraps to 0 after line 153.
    pub fn step(&mut self) -> (event: LineEvent)
        ensures
            final(self)@ == old(self)@.step(),
            final(self)@.wf(),
            event.follows(old(self)@),
    {
        proof {
            use_type_invariant(&*self);
        }
        let frame = if self.ly == 0 {
            Some(self.frame())
        } else {
            None
        };
        let vblank = self.ly == 144;
        if self.ly < VISIBLE_LINES {
            self.update_framebuffer();
        }
        advance_line(&mut self.ly, &mut self.stat, self.lyc);
        LineEvent { frame, vblank }
    }

    /// Does the work of one machine cycle: at the end of each scanline,
    /// every 114 cycles, that of [`Ppu::step`].
    pub fn tick(&mut self) -> (event: LineEvent)
        ensures
            final(self)@ == old(self)@.tick(),
            final(self)@.wf(),
            old(self)@.line_ends() ==> event.follows(old(self)@),
            !old(self)@.line_ends() ==> event.frame is None && !event.vblank,
    {
        proof {
            use_type_invariant(&*self);
        }
        if self.line_clock + 1 >= LINE_CYCLES {
            self.line_clock = 0;
            let event = self.step();
            assert(event.follows(old(self)@)) by {
                assert((PpuView { line_clock: 0, ..old(self)@ }).pixels() =~= old(self)@.pixels());
            }
            event
        } else {
            self.line_clock = self.line_clock + 1;
            LineEvent { frame: None, vblank: false }
        }
    }
}

} // verus!
