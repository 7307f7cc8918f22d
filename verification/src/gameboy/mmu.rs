//! The memory bus: the decoder that routes every 16-bit address to the
//! cartridge, the work and high memories, the picture unit, the I/O page
//! or the interrupt registers.
//!
//! The bus is described by [`MmuView`], a record of plain values, and by
//! [`MmuView::read`], [`MmuView::write`] and [`MmuView::tick`]; the methods
//! of [`Mmu`] compute exactly those functions.

use vstd::prelude::*;
use crate::bitty::{high_byte, lemma_join_bytes, lemma_split_word, low_byte, word_of};
use crate::gameboy::ppu::{
    lemma_ppu_memory_write, lemma_ppu_write_wf, ppu_maps, Ppu, PpuView, OAM_SIZE,
};
use crate::gameboy::rom::{addressable, Rom};

verus! {

/// The program that runs at power-on, mapped over the first 256 bytes of
/// the cartridge until it hands over.
pub const BOOT_ROM: [u8; 256] = [
    0x31, 0xfe, 0xff, 0xaf, 0x21, 0xff, 0x9f, 0x32,
    0xcb, 0x7c, 0x20, 0xfb, 0x21, 0x26, 0xff, 0x0e,
    0x11, 0x3e, 0x80, 0x32, 0xe2, 0x0c, 0x3e, 0xf3,
    0xe2, 0x32, 0x3e, 0x77, 0x77, 0x3e, 0xfc, 0xe0,
    0x47, 0x11, 0x04, 0x01, 0x21, 0x10, 0x80, 0x1a,
    0xcd, 0x95, 0x00, 0xcd, 0x96, 0x00, 0x13, 0x7b,
    0xfe, 0x34, 0x20, 0xf3, 0x11, 0xd8, 0x00, 0x06,
    0x08, 0x1a, 0x13, 0x22, 0x23, 0x05, 0x20, 0xf9,
    0x3e, 0x19, 0xea, 0x10, 0x99, 0x21, 0x2f, 0x99,
    0x0e, 0x0c, 0x3d, 0x28, 0x08, 0x32, 0x0d, 0x20,
    0xf9, 0x2e, 0x0f, 0x18, 0xf3, 0x67, 0x3e, 0x64,
    0x57, 0xe0, 0x42, 0x3e, 0x91, 0xe0, 0x40, 0x04,
    0x1e, 0x02, 0x0e, 0x0c, 0xf0, 0x44, 0xfe, 0x90,
    0x20, 0xfa, 0x0d, 0x20, 0xf7, 0x1d, 0x20, 0xf2,
    0x0e, 0x13, 0x24, 0x7c, 0x1e, 0x83, 0xfe, 0x62,
    0x28, 0x06, 0x1e, 0xc1, 0xfe, 0x64, 0x20, 0x06,
    0x7b, 0xe2, 0x0c, 0x3e, 0x87, 0xe2, 0xf0, 0x42,
    0x90, 0xe0, 0x42, 0x15, 0x20, 0xd2, 0x05, 0x20,
    0x4f, 0x16, 0x20, 0x18, 0xcb, 0x4f, 0x06, 0x04,
    0xc5, 0xcb, 0x11, 0x17, 0xc1, 0xcb, 0x11, 0x17,
    0x05, 0x20, 0xf5, 0x22, 0x23, 0x22, 0x23, 0xc9,
    0xce, 0xed, 0x66, 0x66, 0xcc, 0x0d, 0x00, 0x0b,
    0x03, 0x73, 0x00, 0x83, 0x00, 0x0c, 0x00, 0x0d,
    0x00, 0x08, 0x11, 0x1f, 0x88, 0x89, 0x00, 0x0e,
    0xdc, 0xcc, 0x6e, 0xe6, 0xdd, 0xdd, 0xd9, 0x99,
    0xbb, 0xbb, 0x67, 0x63, 0x6e, 0x0e, 0xec, 0xcc,
    0xdd, 0xdc, 0x99, 0x9f, 0xbb, 0xb9, 0x33, 0x3e,
    0x3c, 0x42, 0xb9, 0xa5, 0xb9, 0xa5, 0x42, 0x3c,
    0x21, 0x04, 0x01, 0x11, 0xa8, 0x00, 0x1a, 0x13,
    0xbe, 0x20, 0xfe, 0x23, 0x7d, 0xfe, 0x34, 0x20,
    0xf5, 0x06, 0x19, 0x78, 0x86, 0x23, 0x05, 0x20,
    0xfb, 0x86, 0x20, 0xfe, 0x3e, 0x01, 0xe0, 0x50,
];

/// The address of the interrupt flag register IF inside the I/O page.
pub const IF_OFFSET: usize = 0x0F;

/// The state of the bus as plain values.
pub struct MmuView {
    /// The cartridge image.
    pub rom: Seq<u8>,
    /// The picture unit.
    pub ppu: PpuView,
    /// External memory, 0xA000 to 0xBFFF.
    pub sram: Seq<u8>,
    /// Work memory, 0xC000 to 0xDFFF, and again at 0xE000 to 0xFDFF.
    pub wram: Seq<u8>,
    /// The I/O page, 0xFF00 to 0xFF7F.
    pub io: Seq<u8>,
    /// High memory, 0xFF80 to 0xFFFE.
    pub hram: Seq<u8>,
    /// Whether the boot program is still mapped at 0x0000 to 0x00FF.
    pub in_boot: bool,
    /// The interrupt enable register, 0xFFFF.
    pub ie: u8,
    /// The interrupt master enable.
    pub ime: bool,
    /// The last finished picture that the display has not collected yet.
    pub frame: Option<Seq<u32>>,
}

impl MmuView {
    /// The sizes of the memories, and the invariant of the picture unit.
    pub open spec fn wf(self) -> bool {
        &&& self.ppu.wf()
        &&& self.sram.len() == 0x2000
        &&& self.wram.len() == 0x2000
        &&& self.io.len() == 0x80
        &&& self.hram.len() == 0x7F
    }

    /// What a read of `addr` gives.
    pub open spec fn read(self, addr: u16) -> u8 {
        if addr <= 0x00FF && self.in_boot {
            BOOT_ROM[addr as int]
        } else if addr <= 0x7FFF {
            if addressable(self.rom.len(), addr as int) {
                self.rom[addr as int]
            } else {
                0xFF
            }
        } else if ppu_maps(addr) {
            self.ppu.read(addr)
        } else if addr <= 0xBFFF {
            self.sram[addr - 0xA000]
        } else if addr <= 0xDFFF {
            self.wram[addr - 0xC000]
        } else if addr <= 0xFDFF {
            self.wram[addr - 0xE000]
        } else if addr <= 0xFEFF {
            0xFF
        } else if addr <= 0xFF7F {
            self.io[addr - 0xFF00]
        } else if addr <= 0xFFFE {
            self.hram[addr - 0xFF80]
        } else {
            self.ie
        }
    }

    /// The 160 bytes that a transfer from page `page` puts into the sprite
    /// table: those that the bus reads from `page * 0x100` on.
    pub open spec fn dma_source(self, page: u8) -> Seq<u8> {
        Seq::new(OAM_SIZE as nat, |i: int| self.read((page as int * 0x100 + i) as u16))
    }

    /// The bus after `byte` is written to `addr`. Writes to the cartridge
    /// and to the unusable range are dropped. A write to 0xFF46 also copies
    /// 160 bytes into the sprite table; a write of anything but zero to
    /// 0xFF50 also unmaps the boot program.
    pub open spec fn write(self, addr: u16, byte: u8) -> MmuView {
        if addr <= 0x7FFF {
            self
        } else if addr == 0xFF46 {
            MmuView {
                ppu: PpuView { oam: self.dma_source(byte), ..self.ppu.write(addr, byte) },
                ..self
            }
        } else if ppu_maps(addr) {
            MmuView { ppu: self.ppu.write(addr, byte), ..self }
        } else if addr <= 0xBFFF {
            MmuView { sram: self.sram.update(addr - 0xA000, byte), ..self }
        } else if addr <= 0xDFFF {
            MmuView { wram: self.wram.update(addr - 0xC000, byte), ..self }
        } else if addr <= 0xFDFF {
            MmuView { wram: self.wram.update(addr - 0xE000, byte), ..self }
        } else if addr <= 0xFEFF {
            self
        } else if addr <= 0xFF7F {
            MmuView {
                io: self.io.update(addr - 0xFF00, byte),
                in_boot: self.in_boot && !(addr == 0xFF50 && byte != 0),
                ..self
            }
        } else if addr <= 0xFFFE {
            MmuView { hram: self.hram.update(addr - 0xFF80, byte), ..self }
        } else {
            MmuView { ie: byte, ..self }
        }
    }

    /// The word at `addr`: its low byte is at `addr`, its high byte at the
    /// address after it.
    pub open spec fn read16(self, addr: u16) -> u16 {
        word_of(self.read(addr.wrapping_add(1)), self.read(addr))
    }

    /// The bus after `value` is written at `addr`, low byte first.
    pub open spec fn write16(self, addr: u16, value: u16) -> MmuView {
        self.write(addr, low_byte(value)).write(addr.wrapping_add(1), high_byte(value))
    }

    /// The bytes that the bus reads at the addresses from `low` up to, not
    /// including, `high`; none where `high` is below `low`.
    pub open spec fn read_range(self, low: int, high: int) -> Seq<u8> {
        Seq::new(
            (if high >= low {
                high - low
            } else {
                0
            }) as nat,
            |i: int| self.read((low + i) as u16),
        )
    }

    /// The interrupt flag register IF, 0xFF0F.
    pub open spec fn interrupt_flags(self) -> u8 {
        self.io[IF_OFFSET as int]
    }

    /// The bus with IF holding `flags`.
    pub open spec fn with_interrupt_flags(self, flags: u8) -> MmuView {
        MmuView { io: self.io.update(IF_OFFSET as int, flags), ..self }
    }

    /// The interrupts that are both requested and enabled, one bit each,
    /// in the low five bits.
    pub open spec fn pending(self) -> u8 {
        self.ie & self.interrupt_flags() & 0x1F
    }

    /// Whether the next machine cycle requests the vertical-blank
    /// interrupt.
    pub open spec fn raises_vblank(self) -> bool {
        self.ppu.line_ends() && self.ppu.enters_vblank()
    }

    /// Whether the next machine cycle hands out a finished picture.
    pub open spec fn emits_frame(self) -> bool {
        self.ppu.line_ends() && self.ppu.emits_frame()
    }

    /// The bus after one machine cycle: the picture unit does the work of
    /// that cycle; on entering the vertical blank bit 0 of IF is set; a
    /// picture that the cycle finishes is kept for the display.
    pub open spec fn tick(self) -> MmuView {
        MmuView {
            ppu: self.ppu.tick(),
            io: if self.raises_vblank() {
                self.io.update(IF_OFFSET as int, self.interrupt_flags() | 0x01)
            } else {
                self.io
            },
            frame: if self.emits_frame() {
                Some(self.ppu.pixels())
            } else {
                self.frame
            },
            ..self
        }
    }

    /// The bus after `n` machine cycles.
    pub open spec fn ticks(self, n: nat) -> MmuView
        decreases n,
    {
        if n == 0 {
            self
        } else {
            self.ticks((n - 1) as nat).tick()
        }
    }

    /// Where the picture unit stands in its frame, and the picture that
    /// waits for the display: what only the passing of time changes.
    pub open spec fn timing(self) -> (u8, u8, Option<Seq<u32>>) {
        (self.ppu.ly, self.ppu.line_clock, self.frame)
    }
}

/// Whether `addr` is plain memory: a byte of video, external, work or high
/// memory or of the sprite table, which holds what was last written to it.
pub open spec fn is_ram(addr: u16) -> bool {
    0x8000 <= addr <= 0xFE9F || 0xFF80 <= addr <= 0xFFFE
}

/// Whether `a` and `b` name the same byte of work memory, one of them
/// through the echo at 0xE000 to 0xFDFF.
pub open spec fn echoes(a: u16, b: u16) -> bool {
    (0xC000 <= a <= 0xDDFF && b == a + 0x2000) || (0xC000 <= b <= 0xDDFF && a == b + 0x2000)
}

/// A write keeps the invariant of the bus.
pub proof fn lemma_write_wf(m: MmuView, addr: u16, byte: u8)
    requires
        m.wf(),
    ensures
        m.write(addr, byte).wf(),
        m.write(addr, byte).rom == m.rom,
        m.write(addr, byte).ime == m.ime,
{
    if addr <= 0x7FFF {
    } else if ppu_maps(addr) {
        lemma_ppu_write_wf(m.ppu, addr, byte);
    } else if addr <= 0xBFFF {
    } else if addr <= 0xDFFF {
    } else if addr <= 0xFDFF {
    } else if addr <= 0xFEFF {
    } else if addr <= 0xFF7F {
    } else if addr <= 0xFFFE {
    } else {
    }
}

/// A write leaves the timing of the picture unit alone.
pub proof fn lemma_write_timing(m: MmuView, addr: u16, byte: u8)
    ensures
        m.write(addr, byte).timing() == m.timing(),
{
    if addr <= 0x7FFF {
    } else if ppu_maps(addr) {
        if addr <= 0x9FFF {
        } else if addr <= 0xFE9F {
        } else if addr <= 0xFF44 {
        } else if addr == 0xFF45 {
        } else if addr <= 0xFF48 {
        } else {
        }
    } else if addr <= 0xBFFF {
    } else if addr <= 0xDFFF {
    } else if addr <= 0xFDFF {
    } else if addr <= 0xFEFF {
    } else if addr <= 0xFF7F {
    } else if addr <= 0xFFFE {
    } else {
    }
}

/// Whether time has moved on from `before` to `after` towards a picture:
/// a picture waits for the display, or the next one is nearer than it was.
pub open spec fn progressed(before: MmuView, after: MmuView) -> bool {
    after.frame is Some || after.ppu.cycles_to_frame() < before.ppu.cycles_to_frame()
}

/// A machine cycle brings the next picture one cycle nearer, until the
/// picture is there; a picture that waits keeps waiting.
pub proof fn lemma_tick_progress(m: MmuView)
    requires
        m.wf(),
    ensures
        m.tick().wf(),
        m.tick().frame is Some || m.tick().ppu.cycles_to_frame() == m.ppu.cycles_to_frame() - 1,
        m.frame is Some ==> m.tick().frame is Some,
{
}

/// One or more machine cycles make progress towards a picture.
pub proof fn lemma_ticks_progress(m: MmuView, n: nat)
    requires
        m.wf(),
        n >= 1,
    ensures
        m.ticks(n).wf(),
        progressed(m, m.ticks(n)),
    decreases n,
{
    if n > 1 {
        lemma_ticks_progress(m, (n - 1) as nat);
    }
    lemma_tick_progress(m.ticks((n - 1) as nat));
}

/// A machine cycle keeps the invariant of the bus.
pub proof fn lemma_tick_wf(m: MmuView)
    requires
        m.wf(),
    ensures
        m.tick().wf(),
        m.tick().rom == m.rom,
        m.tick().ime == m.ime,
        m.tick().ie == m.ie,
        m.tick().in_boot == m.in_boot,
        m.tick().frame is Some <==> m.frame is Some || m.emits_frame(),
{
}

/// Video memory holds what is written to it: after a write to an address
/// from 0x8000 to 0x9FFF, a read of that address gives the byte written.
pub proof fn lemma_vram_write_read(m: MmuView, addr: u16, byte: u8)
    requires
        m.wf(),
        0x8000 <= addr <= 0x9FFF,
    ensures
        m.write(addr, byte).read(addr) == byte,
{
}

/// The range 0xE000 to 0xFDFF echoes work memory: a read there gives what
/// a read 0x2000 below gives, and a write there is seen 0x2000 below.
pub proof fn lemma_echo(m: MmuView, addr: u16, byte: u8)
    requires
        0xE000 <= addr <= 0xFDFF,
    ensures
        m.read(addr) == m.read((addr - 0x2000) as u16),
        m.wf() ==> m.write(addr, byte).read((addr - 0x2000) as u16) == byte,
        m.wf() ==> m.write((addr - 0x2000) as u16, byte).read(addr) == byte,
{
}

/// Plain memory holds what is written to it, and a write to it leaves
/// every other byte of the address space as it was, but for the byte's own
/// echo.
pub proof fn lemma_ram_write(m: MmuView, addr: u16, byte: u8, other: u16)
    requires
        m.wf(),
        is_ram(addr),
    ensures
        m.write(addr, byte).read(addr) == byte,
        other != addr && !echoes(addr, other) ==> m.write(addr, byte).read(other) == m.read(other),
{
    let after = m.write(addr, byte);
    if ppu_maps(addr) {
        lemma_ppu_memory_write(m.ppu, addr, byte, addr);
        if ppu_maps(other) {
            lemma_ppu_memory_write(m.ppu, addr, byte, other);
        }
        assert(after == (MmuView { ppu: m.ppu.write(addr, byte), ..m }));
    } else if addr <= 0xBFFF {
        assert(after == (MmuView { sram: m.sram.update(addr - 0xA000, byte), ..m }));
    } else if addr <= 0xDFFF {
        assert(after == (MmuView { wram: m.wram.update(addr - 0xC000, byte), ..m }));
    } else if addr <= 0xFDFF {
        assert(after == (MmuView { wram: m.wram.update(addr - 0xE000, byte), ..m }));
    } else {
        assert(after == (MmuView { hram: m.hram.update(addr - 0xFF80, byte), ..m }));
    }
}

/// The memory bus.
pub struct Mmu {
    rom: Rom,
    ppu: Ppu,
    sram: [u8; 0x2000],
    wram: [u8; 0x2000],
    io: [u8; 0x80],
    hram: [u8; 0x7F],
    in_boot: bool,
    ie: u8,
    ime: bool,
    frame: Option<Vec<u32>>,
}

/// The picture in `frame`, if any, as a sequence of pixels.
pub open spec fn frame_view(frame: Option<Vec<u32>>) -> Option<Seq<u32>> {
    match frame {
        Some(pixels) => Some(pixels@),
        None => None,
    }
}

impl View for Mmu {
    type V = MmuView;

    closed spec fn view(&self) -> MmuView {
        MmuView {
            rom: self.rom@,
            ppu: self.ppu@,
            sram: self.sram@,
            wram: self.wram@,
            io: self.io@,
            hram: self.hram@,
            in_boot: self.in_boot,
            ie: self.ie,
            ime: self.ime,
            frame: frame_view(self.frame),
        }
    }
}

impl Mmu {
    /// The bus at power-on around the cartridge `rom`: the boot program
    /// mapped, interrupts off, memories cleared.
    pub open spec fn initial(rom: Seq<u8>) -> MmuView {
        MmuView {
            rom,
            ppu: Ppu::initial(),
            sram: Seq::new(0x2000, |i: int| 0u8),
            wram: Seq::new(0x2000, |i: int| 0u8),
            io: Seq::new(0x80, |i: int| 0u8),
            hram: Seq::new(0x7F, |i: int| 0u8),
            in_boot: true,
            ie: 0,
            ime: false,
            frame: None,
        }
    }

    pub fn new(rom: Rom) -> (mmu: Mmu)
        ensures
            mmu@ == Mmu::initial(rom@),
            mmu@.wf(),
    {
        let mmu = Mmu {
            rom,
            ppu: Ppu::new(),
            sram: [0u8; 0x2000],
            wram: [0u8; 0x2000],
            io: [0u8; 0x80],
            hram: [0u8; 0x7F],
            in_boot: true,
            ie: 0,
            ime: false,
            frame: None,
        };
        assert(mmu@.sram =~= Mmu::initial(rom@).sram);
        assert(mmu@.wram =~= Mmu::initial(rom@).wram);
        assert(mmu@.io =~= Mmu::initial(rom@).io);
        assert(mmu@.hram =~= Mmu::initial(rom@).hram);
        mmu
    }

    /// Makes the invariant of the bus known to the caller.
    pub fn well_formed(&self)
        ensures
            self@.wf(),
    {
        self.ppu.well_formed();
    }

    /// The picture unit.
    pub fn ppu(&self) -> (ppu: &Ppu)
        ensures
            ppu@ == self@.ppu,
    {
        &self.ppu
    }

    /// The interrupt master enable.
    pub fn ime(&self) -> (ime: bool)
        ensures
            ime == self@.ime,
    {
        self.ime
    }

    /// Sets the interrupt master enable.
    pub fn set_ime(&mut self, ime: bool)
        ensures
            final(self)@ == (MmuView { ime, ..old(self)@ }),
            final(self)@.timing() == old(self)@.timing(),
    {
        self.ime = ime;
    }

    /// Whether the boot program is still mapped.
    pub fn in_boot(&self) -> (mapped: bool)
        ensures
            mapped == self@.in_boot,
    {
        self.in_boot
    }

    /// Reads the byte at `address`. Every address reads as something:
    /// where nothing is mapped, and in a cartridge beyond its image, as
    /// 0xFF.
    pub fn read(&self, address: u16) -> (byte: u8)
        ensures
            byte == self@.read(address),
    {
        if address <= 0x00FF && self.in_boot {
            BOOT_ROM[address as usize]
        } else if address <= 0x7FFF {
            match self.rom.read(address as usize) {
                Ok(byte) => byte,
                Err(_) => 0xFF,
            }
        } else if address <= 0x9FFF {
            self.ppu.read_u8(address)
        } else if address <= 0xBFFF {
            self.sram[(address - 0xA000) as usize]
        } else if address <= 0xDFFF {
            self.wram[(address - 0xC000) as usize]
        } else if address <= 0xFDFF {
            self.wram[(address - 0xE000) as usize]
        } else if address <= 0xFE9F {
            self.ppu.read_u8(address)
        } else if address <= 0xFEFF {
            0xFF
        } else if 0xFF40 <= address && address <= 0xFF4B {
            self.ppu.read_u8(address)
        } else if address <= 0xFF7F {
            self.io[(address - 0xFF00) as usize]
        } else if address <= 0xFFFE {
            self.hram[(address - 0xFF80) as usize]
        } else {
            self.ie
        }
    }

    /// A write to the cartridge: dropped.
    fn write_rom(&mut self, address: u16, byte: u8)
        requires
            address <= 0x7FFF,
        ensures
            final(self)@ == old(self)@.write(address, byte),
    {
        let _ = self.rom.write(address as usize, byte);
    }

    /// A write to the picture unit, the transfer register apart.
    fn write_ppu(&mut self, address: u16, byte: u8)
        requires
            ppu_maps(address),
            address != 0xFF46,
        ensures
            final(self)@ == old(self)@.write(address, byte),
    {
        self.ppu.write_u8(address, byte);
    }

    /// A write to the transfer register: the page is recorded and 160
    /// bytes are copied from it into the sprite table.
    fn write_dma(&mut self, byte: u8)
        ensures
            final(self)@ == old(self)@.write(0xFF46, byte),
    {
        let source: usize = byte as usize * 0x100;
        let bytes = self.read_range(source, source + OAM_SIZE);
        assert(bytes@ =~= self@.dma_source(byte));
        self.ppu.write_u8(0xFF46, byte);
        self.ppu.load_oam(&bytes);
    }

    /// A write to external memory.
    fn write_sram(&mut self, address: u16, byte: u8)
        requires
            0xA000 <= address <= 0xBFFF,
        ensures
            final(self)@ == old(self)@.write(address, byte),
    {
        self.sram[(address - 0xA000) as usize] = byte;
    }

    /// A write to work memory, directly or through its echo.
    fn write_wram(&mut self, address: u16, byte: u8)
        requires
            0xC000 <= address <= 0xFDFF,
        ensures
            final(self)@ == old(self)@.write(address, byte),
    {
        if address <= 0xDFFF {
            self.wram[(address - 0xC000) as usize] = byte;
        } else {
            self.wram[(address - 0xE000) as usize] = byte;
        }
    }

    /// A write to the I/O page outside the picture unit's registers.
    fn write_io(&mut self, address: u16, byte: u8)
        requires
            0xFF00 <= address <= 0xFF7F,
            !ppu_maps(address),
        ensures
            final(self)@ == old(self)@.write(address, byte),
    {
        self.io[(address - 0xFF00) as usize] = byte;
        if address == 0xFF50 && byte != 0 {
            self.in_boot = false;
        }
    }

    /// A write to high memory.
    fn write_hram(&mut self, address: u16, byte: u8)
        requires
            0xFF80 <= address <= 0xFFFE,
        ensures
            final(self)@ == old(self)@.write(address, byte),
    {
        self.hram[(address - 0xFF80) as usize] = byte;
    }

    /// A write to the interrupt enable register.
    fn write_ie(&mut self, byte: u8)
        ensures
            final(self)@ == old(self)@.write(0xFFFF, byte),
    {
        self.ie = byte;
    }

    /// Writes `byte` to `address`. Writes to the cartridge and to the
    /// unusable range have no effect.
    pub fn write(&mut self, address: u16, byte: u8)
        ensures
            final(self)@ == old(self)@.write(address, byte),
            final(self)@.timing() == old(self)@.timing(),
    {
        proof {
            lemma_write_timing(self@, address, byte);
        }
        if address <= 0x7FFF {
            self.write_rom(address, byte)
        } else if address <= 0x9FFF {
            self.write_ppu(address, byte)
        } else if address <= 0xBFFF {
            self.write_sram(address, byte)
        } else if address <= 0xFDFF {
            self.write_wram(address, byte)
        } else if address <= 0xFE9F {
            self.write_ppu(address, byte)
        } else if address <= 0xFEFF {
        } else if address == 0xFF46 {
            self.write_dma(byte)
        } else if 0xFF40 <= address && address <= 0xFF4B {
            self.write_ppu(address, byte)
        } else if address <= 0xFF7F {
            self.write_io(address, byte)
        } else if address <= 0xFFFE {
            self.write_hram(address, byte)
        } else {
            self.write_ie(byte)
        }
    }

    /// The bytes at the addresses from `low` up to, not including, `high`.
    pub fn read_range(&self, low: usize, high: usize) -> (bytes: Vec<u8>)
        requires
            high <= 0x1_0000,
        ensures
            bytes@ == self@.read_range(low as int, high as int),
    {
        let mut bytes: Vec<u8> = Vec::new();
        if high < low {
            assert(bytes@ =~= self@.read_range(low as int, high as int));
            return bytes;
        }
        let mut at: usize = low;
        while at < high
            invariant
                low <= at <= high <= 0x1_0000,
                bytes@.len() == at - low,
                forall|i: int| 0 <= i < at - low ==> bytes@[i] == self@.read((low + i) as u16),
            decreases high - at,
        {
            bytes.push(self.read(at as u16));
            at += 1;
        }
        assert(bytes@ =~= self@.read_range(low as int, high as int));
        bytes
    }

    /// Reads the word at `address`, low byte first.
    pub fn read_u16(&self, address: u16) -> (word: u16)
        ensures
            word == self@.read16(address),
    {
        let first = self.read(address) as u16;
        let second = self.read(address.wrapping_add(1)) as u16;
        proof {
            lemma_join_bytes(second as u8, first as u8);
        }
        (second << 8) | first
    }

    /// Writes the word `value` at `address`, low byte first.
    pub fn write_u16(&mut self, address: u16, value: u16)
        ensures
            final(self)@ == old(self)@.write16(address, value),
            final(self)@.timing() == old(self)@.timing(),
    {
        proof {
            lemma_split_word(value);
        }
        let first = (value & 0xFF) as u8;
        let second = (value >> 8) as u8;
        self.write(address, first);
        self.write(address.wrapping_add(1), second);
    }

    /// The interrupt flag register IF.
    pub fn interrupt_flags(&self) -> (flags: u8)
        ensures
            flags == self@.interrupt_flags(),
    {
        self.io[IF_OFFSET]
    }

    /// Sets the interrupt flag register IF.
    pub fn set_interrupt_flags(&mut self, flags: u8)
        ensures
            final(self)@ == old(self)@.with_interrupt_flags(flags),
            final(self)@.timing() == old(self)@.timing(),
    {
        self.io[IF_OFFSET] = flags;
    }

    /// The interrupt enable register IE.
    pub fn interrupt_enable(&self) -> (ie: u8)
        ensures
            ie == self@.ie,
    {
        self.ie
    }

    /// Advances the machine by one machine cycle (four T-states): the
    /// picture unit does the work of that cycle; when it enters the
    /// vertical blank, bit 0 of IF is set; when it finishes a picture, the
    /// picture is kept until the display takes it.
    pub fn step(&mut self)
        ensures
            final(self)@ == old(self)@.tick(),
            final(self)@.wf(),
    {
        let event = self.ppu.tick();
        if event.vblank {
            let flags = self.io[IF_OFFSET];
            self.io[IF_OFFSET] = flags | 0x01;
        }
        if event.frame.is_some() {
            self.frame = event.frame;
        }
    }

    /// Whether a finished picture waits for the display.
    pub fn has_frame(&self) -> (waiting: bool)
        ensures
            waiting == self@.frame is Some,
    {
        self.frame.is_some()
    }

    /// Hands the waiting picture, if any, to the display.
    pub fn take_frame(&mut self) -> (frame: Option<Vec<u32>>)
        ensures
            frame_view(frame) == old(self)@.frame,
            final(self)@ == (MmuView { frame: None, ..old(self)@ }),
    {
        self.frame.take()
    }
}

} // verus!
