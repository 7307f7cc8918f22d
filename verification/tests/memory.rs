use gbcore::bitty::{flag, BigEndian, BitFlags, LittleEndian};
use gbcore::gameboy::mmu::{Mmu, BOOT_ROM};
use gbcore::gameboy::registers::{FlagRegister, Registers};
use gbcore::gameboy::rom::{BusError, Rom};

fn bus() -> Mmu {
    let mut image = vec![0u8; 0x8000];
    for (i, byte) in image.iter_mut().enumerate() {
        *byte = (i % 251) as u8;
    }
    Mmu::new(Rom::new(image))
}

#[test]
fn bits_are_numbered_from_the_least_significant() {
    let byte: u8 = 0b1000_0101;
    assert_eq!(byte.get_bit(0), 1);
    assert_eq!(byte.get_bit(1), 0);
    assert_eq!(byte.get_bit(2), 1);
    assert_eq!(byte.get_bit(7), 1);
    let mut byte: u8 = 0;
    byte.set_bit(3, 1);
    assert_eq!(byte, 0b0000_1000);
    byte.set_bit(3, 1);
    assert_eq!(byte, 0b0000_1000);
    byte.set_bit(3, 0);
    assert_eq!(byte, 0);
    byte.flip_bit(7);
    assert_eq!(byte, 0x80);
    byte.flip_bit(7);
    assert_eq!(byte, 0);
    assert_eq!((flag::Z, flag::N, flag::H, flag::C), (7, 6, 5, 4));
}

#[test]
fn words_split_into_bytes() {
    let word: u16 = 0xABCD;
    assert_eq!(BigEndian::get_msb(&word), 0xAB);
    assert_eq!(BigEndian::get_lsb(&word), 0xCD);
    assert_eq!(LittleEndian::get_msb(&word), 0xCD);
    assert_eq!(LittleEndian::get_lsb(&word), 0xAB);
    let mut word: u16 = 0xABCD;
    BigEndian::set_msb(&mut word, 0x12);
    assert_eq!(word, 0x12CD);
    BigEndian::set_lsb(&mut word, 0x34);
    assert_eq!(word, 0x1234);
    LittleEndian::set_msb(&mut word, 0x56);
    assert_eq!(word, 0x1256);
    LittleEndian::set_lsb(&mut word, 0x78);
    assert_eq!(word, 0x7856);
}

#[test]
fn registers_start_cleared() {
    let regs = Registers::new();
    assert_eq!(regs.pc, 0x0000);
    assert_eq!(regs.sp, 0xFFFE);
    assert_eq!((regs.a, regs.b, regs.c, regs.d, regs.e, regs.h, regs.l), (0, 0, 0, 0, 0, 0, 0));
    assert_eq!(regs.flags, FlagRegister { z: false, n: false, h: false, c: false });
    assert_eq!(regs.af(), 0);
}

#[test]
fn pairs_read_back_what_was_written() {
    for v in [0x0000u16, 0x0001, 0x00FF, 0x0100, 0x1234, 0x8000, 0xABCD, 0xFFFF] {
        let mut regs = Registers::new();
        regs.set_bc(v);
        assert_eq!(regs.bc(), v);
        assert_eq!((regs.b, regs.c), ((v >> 8) as u8, v as u8));
        regs.set_de(v);
        assert_eq!(regs.de(), v);
        regs.set_hl(v);
        assert_eq!(regs.hl(), v);
        regs.set_af(v);
        assert_eq!(regs.af(), v & 0xFFF0);
        assert_eq!(regs.a, (v >> 8) as u8);
    }
}

#[test]
fn flags_live_in_the_high_nibble() {
    let flags = FlagRegister { z: true, n: false, h: true, c: false };
    assert_eq!(flags.as_u8(), 0b1010_0000);
    let mut flags = FlagRegister::new();
    flags.set_u8(0b0101_1111);
    assert_eq!(flags, FlagRegister { z: false, n: true, h: false, c: true });
    assert_eq!(flags.as_u8(), 0b0101_0000);
}

#[test]
fn the_stack_pointer_moves_by_one() {
    let mut regs = Registers::new();
    regs.sp = 0x0000;
    regs.inc_sp();
    assert_eq!(regs.sp, 0xFFFF);
    regs.dec_sp();
    assert_eq!(regs.sp, 0x0000);
}

#[test]
fn rom_access_is_bounded() {
    let mut rom = Rom::new(vec![1, 2, 3]);
    assert_eq!(rom.size(), 3);
    assert_eq!(rom.read(0), Ok(1));
    assert_eq!(rom.read(2), Ok(3));
    assert_eq!(rom.read(3), Err(BusError { address: 3 }));
    assert_eq!(rom.read_raw(2), Ok(3));
    assert_eq!(rom.read_raw(3), Err(BusError { address: 3 }));
    assert_eq!(rom.write(1, 9), Ok(()));
    assert_eq!(rom.read(1), Ok(2));
    assert_eq!(rom.write(3, 9), Err(BusError { address: 3 }));

    let rom = Rom::new(vec![7; 0x9000]);
    assert_eq!(rom.read(0x7FFF), Ok(7));
    assert_eq!(rom.read(0x8000), Err(BusError { address: 0x8000 }));
    assert_eq!(rom.read_raw(0x8000), Ok(7));
}

#[test]
fn video_memory_holds_what_is_written() {
    let mut mmu = bus();
    for (addr, byte) in [(0x8000u16, 0x12u8), (0x8001, 0x34), (0x9234, 0x56), (0x9FFF, 0x78)] {
        mmu.write(addr, byte);
        assert_eq!(mmu.read(addr), byte);
    }
    assert_eq!(mmu.read(0x8000), 0x12);
}

#[test]
fn work_memory_is_echoed() {
    let mut mmu = bus();
    mmu.write(0xC000, 0x11);
    mmu.write(0xDDFF, 0x22);
    assert_eq!(mmu.read(0xE000), 0x11);
    assert_eq!(mmu.read(0xFDFF), 0x22);
    mmu.write(0xE123, 0x33);
    assert_eq!(mmu.read(0xC123), 0x33);
    for addr in [0xE000u16, 0xE123, 0xF000, 0xFDFF] {
        assert_eq!(mmu.read(addr), mmu.read(addr - 0x2000));
    }
}

#[test]
fn every_region_is_routed() {
    let mut mmu = bus();
    mmu.write(0xA000, 0x01);
    mmu.write(0xBFFF, 0x02);
    mmu.write(0xFE00, 0x03);
    mmu.write(0xFE9F, 0x04);
    mmu.write(0xFF00, 0x05);
    mmu.write(0xFF7F, 0x06);
    mmu.write(0xFF80, 0x07);
    mmu.write(0xFFFE, 0x08);
    mmu.write(0xFFFF, 0x09);
    assert_eq!(mmu.read(0xA000), 0x01);
    assert_eq!(mmu.read(0xBFFF), 0x02);
    assert_eq!(mmu.read(0xFE00), 0x03);
    assert_eq!(mmu.read(0xFE9F), 0x04);
    assert_eq!(mmu.read(0xFF00), 0x05);
    assert_eq!(mmu.read(0xFF7F), 0x06);
    assert_eq!(mmu.read(0xFF80), 0x07);
    assert_eq!(mmu.read(0xFFFE), 0x08);
    assert_eq!(mmu.read(0xFFFF), 0x09);
    assert_eq!(mmu.interrupt_enable(), 0x09);
}

#[test]
fn the_unusable_range_reads_ff_and_ignores_writes() {
    let mut mmu = bus();
    for addr in [0xFEA0u16, 0xFEC0, 0xFEFF] {
        mmu.write(addr, 0x12);
        assert_eq!(mmu.read(addr), 0xFF);
    }
}

#[test]
fn writes_to_the_cartridge_are_dropped() {
    let mut mmu = bus();
    mmu.write(0xFF50, 1);
    for addr in [0x0000u16, 0x0100, 0x3FFF, 0x4000, 0x7FFF] {
        let before = mmu.read(addr);
        mmu.write(addr, before.wrapping_add(1));
        assert_eq!(mmu.read(addr), before);
        assert_eq!(before, (addr as usize % 251) as u8);
    }
}

#[test]
fn a_short_cartridge_reads_ff_beyond_its_end() {
    let mut mmu = Mmu::new(Rom::new(vec![0x42; 0x200]));
    mmu.write(0xFF50, 1);
    assert_eq!(mmu.read(0x01FF), 0x42);
    assert_eq!(mmu.read(0x0200), 0xFF);
    assert_eq!(mmu.read(0x7FFF), 0xFF);
}

#[test]
fn the_boot_program_is_mapped_until_it_hands_over() {
    let mut mmu = bus();
    assert!(mmu.in_boot());
    for addr in [0x0000u16, 0x0001, 0x0080, 0x00FF] {
        assert_eq!(mmu.read(addr), BOOT_ROM[addr as usize]);
    }
    assert_eq!(mmu.read(0x0000), 0x31);
    assert_eq!(mmu.read(0x00FF), 0x50);
    assert_eq!(mmu.read(0x0100), (0x100 % 251) as u8);
    mmu.write(0xFF50, 0);
    assert!(mmu.in_boot());
    mmu.write(0xFF50, 1);
    assert!(!mmu.in_boot());
    assert_eq!(mmu.read(0x0000), 0x00);
    assert_eq!(mmu.read(0x00FF), 0xFF % 251);
    mmu.write(0xFF50, 0);
    assert!(!mmu.in_boot());
}

#[test]
fn words_are_stored_low_byte_first() {
    let mut mmu = bus();
    mmu.write_u16(0xC000, 0xABCD);
    assert_eq!(mmu.read(0xC000), 0xCD);
    assert_eq!(mmu.read(0xC001), 0xAB);
    assert_eq!(mmu.read_u16(0xC000), 0xABCD);
    mmu.write(0xFFFF, 0x12);
    assert_eq!(mmu.read_u16(0xFFFF), 0x3112);
}

#[test]
fn ranges_are_read_byte_by_byte() {
    let mut mmu = bus();
    mmu.write(0xC010, 1);
    mmu.write(0xC011, 2);
    mmu.write(0xC012, 3);
    assert_eq!(mmu.read_range(0xC010, 0xC013), vec![1, 2, 3]);
    assert_eq!(mmu.read_range(0xC010, 0xC010), Vec::<u8>::new());
    assert_eq!(mmu.read_range(0xFFFF, 0x10000).len(), 1);
}

#[test]
fn a_write_to_the_transfer_register_fills_the_sprite_table() {
    let mut mmu = bus();
    for i in 0..160u16 {
        mmu.write(0xC100 + i, (i as u8) ^ 0x5A);
    }
    mmu.write(0xFF46, 0xC1);
    assert_eq!(mmu.read(0xFF46), 0xC1);
    for i in 0..160u16 {
        assert_eq!(mmu.read(0xFE00 + i), (i as u8) ^ 0x5A);
    }
}

#[test]
fn the_interrupt_registers() {
    let mut mmu = bus();
    assert!(!mmu.ime());
    mmu.set_ime(true);
    assert!(mmu.ime());
    mmu.write(0xFF0F, 0x15);
    assert_eq!(mmu.interrupt_flags(), 0x15);
    mmu.set_interrupt_flags(0x02);
    assert_eq!(mmu.read(0xFF0F), 0x02);
}

#[test]
fn the_boot_program_is_the_known_one() {
    assert_eq!(BOOT_ROM.len(), 256);
    assert_eq!(BOOT_ROM.iter().map(|byte| *byte as u32).sum::<u32>(), 25198);
    let mut hash: u32 = 0x811C_9DC5;
    for byte in BOOT_ROM.iter() {
        hash ^= *byte as u32;
        hash = hash.wrapping_mul(0x0100_0193);
    }
    assert_eq!(hash, 0xCB33_FDE5);
    assert_eq!(&BOOT_ROM[0..4], &[0x31, 0xFE, 0xFF, 0xAF]);
    assert_eq!(&BOOT_ROM[0xFC..0x100], &[0x3E, 0x01, 0xE0, 0x50]);
}
