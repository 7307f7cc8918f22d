use gbcore::gameboy::cpu::RunState;
use gbcore::gameboy::operations::DecodeError;
use gbcore::gameboy::rom::Rom;
use gbcore::gameboy::Gameboy;

/// A machine with `program` in work memory at 0xC000 and the program
/// counter there.
fn machine(program: &[u8]) -> Gameboy {
    machine_with_rom(vec![0; 0x8000], program)
}

fn machine_with_rom(rom: Vec<u8>, program: &[u8]) -> Gameboy {
    let mut gb = Gameboy::new(Rom::new(rom));
    for (i, byte) in program.iter().enumerate() {
        gb.mmu.write(0xC000 + i as u16, *byte);
    }
    gb.cpu.regs.pc = 0xC000;
    gb
}

#[test]
fn xor_a_clears() {
    for flags in 0..16u8 {
        let mut gb = machine(&[0xAF]);
        gb.cpu.regs.a = 0x5A;
        gb.cpu.regs.flags.set_u8(flags << 4);
        assert_eq!(gb.step(), Ok(4));
        assert_eq!(gb.cpu.regs.a, 0x00);
        assert!(gb.cpu.regs.flags.z);
        assert!(!gb.cpu.regs.flags.n);
        assert!(!gb.cpu.regs.flags.h);
        assert!(!gb.cpu.regs.flags.c);
        assert_eq!(gb.cpu.regs.pc, 0xC001);
    }
}

#[test]
fn ld_hl_d16_then_ld_hl_dec_a() {
    let mut gb = machine(&[0x21, 0xFF, 0x9F, 0x32]);
    gb.cpu.regs.a = 0x00;
    gb.mmu.write(0x9FFF, 0x77);
    assert_eq!(gb.step(), Ok(12));
    assert_eq!(gb.cpu.regs.hl(), 0x9FFF);
    assert_eq!(gb.step(), Ok(8));
    assert_eq!(gb.cpu.regs.hl(), 0x9FFE);
    assert_eq!(gb.mmu.read(0x9FFF), 0x00);
    assert_eq!(gb.cpu.regs.pc, 0xC004);
}

#[test]
fn jr_nz_taken() {
    let mut gb = machine(&[0x20, 0xFB]);
    gb.cpu.regs.flags.z = false;
    assert_eq!(gb.step(), Ok(12));
    assert_eq!(gb.cpu.regs.pc, 0xC000 - 3);
}

#[test]
fn jr_nz_not_taken() {
    let mut gb = machine(&[0x20, 0xFB]);
    gb.cpu.regs.flags.z = true;
    assert_eq!(gb.step(), Ok(8));
    assert_eq!(gb.cpu.regs.pc, 0xC002);
}

#[test]
fn call_ret_round_trip() {
    let mut rom = vec![0; 0x8000];
    rom[0x1234] = 0xC9;
    let mut gb = machine_with_rom(rom, &[0xCD, 0x34, 0x12]);
    gb.cpu.regs.sp = 0xFFFE;
    assert_eq!(gb.step(), Ok(24));
    assert_eq!(gb.cpu.regs.pc, 0x1234);
    assert_eq!(gb.cpu.regs.sp, 0xFFFC);
    assert_eq!(gb.mmu.read(0xFFFC), 0x03);
    assert_eq!(gb.mmu.read(0xFFFD), 0xC0);
    assert_eq!(gb.mmu.read_u16(0xFFFC), 0xC003);
    assert_eq!(gb.step(), Ok(16));
    assert_eq!(gb.cpu.regs.pc, 0xC003);
    assert_eq!(gb.cpu.regs.sp, 0xFFFE);
}

#[test]
fn cp_d8_equality() {
    let mut gb = machine(&[0xFE, 0x42]);
    gb.cpu.regs.a = 0x42;
    assert_eq!(gb.step(), Ok(8));
    assert_eq!(gb.cpu.regs.a, 0x42);
    assert!(gb.cpu.regs.flags.z);
    assert!(gb.cpu.regs.flags.n);
    assert!(!gb.cpu.regs.flags.h);
    assert!(!gb.cpu.regs.flags.c);
    assert_eq!(gb.cpu.regs.pc, 0xC002);
}

#[test]
fn bit_7_h_sets_and_clears_z() {
    for carry in [false, true] {
        let mut gb = machine(&[0xCB, 0x7C]);
        gb.cpu.regs.h = 0x80;
        gb.cpu.regs.flags.c = carry;
        gb.cpu.regs.flags.n = true;
        assert_eq!(gb.step(), Ok(8));
        assert!(!gb.cpu.regs.flags.z);
        assert!(!gb.cpu.regs.flags.n);
        assert!(gb.cpu.regs.flags.h);
        assert_eq!(gb.cpu.regs.flags.c, carry);
        assert_eq!(gb.cpu.regs.pc, 0xC002);

        let mut gb = machine(&[0xCB, 0x7C]);
        gb.cpu.regs.h = 0x7F;
        gb.cpu.regs.flags.c = carry;
        assert_eq!(gb.step(), Ok(8));
        assert!(gb.cpu.regs.flags.z);
        assert!(!gb.cpu.regs.flags.n);
        assert!(gb.cpu.regs.flags.h);
        assert_eq!(gb.cpu.regs.flags.c, carry);
    }
}

#[test]
fn add_then_sub_restores_the_accumulator() {
    for a in [0x00u8, 0x01, 0x0F, 0x7F, 0x80, 0xFF] {
        for b in [0x00u8, 0x01, 0x0F, 0xF0, 0xFF] {
            let mut gb = machine(&[0x80, 0x90]);
            gb.cpu.regs.a = a;
            gb.cpu.regs.b = b;
            assert_eq!(gb.step(), Ok(4));
            assert_eq!(gb.cpu.regs.a, a.wrapping_add(b));
            assert_eq!(gb.step(), Ok(4));
            assert_eq!(gb.cpu.regs.a, a);
            assert_eq!(gb.cpu.regs.flags.z, a == 0);
            assert!(gb.cpu.regs.flags.n);
        }
    }
}

#[test]
fn add_sets_half_carry_and_carry() {
    let mut gb = machine(&[0x80, 0x80, 0x80]);
    gb.cpu.regs.a = 0x0F;
    gb.cpu.regs.b = 0x01;
    gb.step().unwrap();
    assert_eq!(gb.cpu.regs.a, 0x10);
    assert!(gb.cpu.regs.flags.h);
    assert!(!gb.cpu.regs.flags.c);
    assert!(!gb.cpu.regs.flags.z);
    gb.cpu.regs.a = 0xFF;
    gb.step().unwrap();
    assert_eq!(gb.cpu.regs.a, 0x00);
    assert!(gb.cpu.regs.flags.h);
    assert!(gb.cpu.regs.flags.c);
    assert!(gb.cpu.regs.flags.z);
    gb.cpu.regs.a = 0xF0;
    gb.cpu.regs.b = 0x20;
    gb.step().unwrap();
    assert_eq!(gb.cpu.regs.a, 0x10);
    assert!(!gb.cpu.regs.flags.h);
    assert!(gb.cpu.regs.flags.c);
}

#[test]
fn adc_and_sbc_use_the_carry() {
    let mut gb = machine(&[0xCE, 0x0F, 0xDE, 0x01]);
    gb.cpu.regs.a = 0x00;
    gb.cpu.regs.flags.c = true;
    assert_eq!(gb.step(), Ok(8));
    assert_eq!(gb.cpu.regs.a, 0x10);
    assert!(gb.cpu.regs.flags.h);
    assert!(!gb.cpu.regs.flags.c);
    gb.cpu.regs.a = 0x00;
    gb.cpu.regs.flags.c = true;
    assert_eq!(gb.step(), Ok(8));
    assert_eq!(gb.cpu.regs.a, 0xFE);
    assert!(gb.cpu.regs.flags.h);
    assert!(gb.cpu.regs.flags.c);
    assert!(gb.cpu.regs.flags.n);
}

#[test]
fn and_or_xor_set_their_flags() {
    let mut gb = machine(&[0xE6, 0x0F, 0xF6, 0x00, 0xEE, 0xFF]);
    gb.cpu.regs.a = 0xF0;
    gb.step().unwrap();
    assert_eq!(gb.cpu.regs.a, 0x00);
    assert!(gb.cpu.regs.flags.z && gb.cpu.regs.flags.h);
    assert!(!gb.cpu.regs.flags.n && !gb.cpu.regs.flags.c);
    gb.step().unwrap();
    assert_eq!(gb.cpu.regs.a, 0x00);
    assert!(gb.cpu.regs.flags.z);
    assert!(!gb.cpu.regs.flags.h && !gb.cpu.regs.flags.n && !gb.cpu.regs.flags.c);
    gb.step().unwrap();
    assert_eq!(gb.cpu.regs.a, 0xFF);
    assert!(!gb.cpu.regs.flags.z);
}

#[test]
fn inc_and_dec_keep_the_carry() {
    let mut gb = machine(&[0x04, 0x05, 0x05]);
    gb.cpu.regs.b = 0xFF;
    gb.cpu.regs.flags.c = true;
    gb.step().unwrap();
    assert_eq!(gb.cpu.regs.b, 0x00);
    assert!(gb.cpu.regs.flags.z && gb.cpu.regs.flags.h && gb.cpu.regs.flags.c);
    assert!(!gb.cpu.regs.flags.n);
    gb.step().unwrap();
    assert_eq!(gb.cpu.regs.b, 0xFF);
    assert!(gb.cpu.regs.flags.n && gb.cpu.regs.flags.h && gb.cpu.regs.flags.c);
    assert!(!gb.cpu.regs.flags.z);
    gb.step().unwrap();
    assert_eq!(gb.cpu.regs.b, 0xFE);
    assert!(!gb.cpu.regs.flags.h);
}

#[test]
fn inc_hl_indirect_goes_through_memory() {
    let mut gb = machine(&[0x34, 0x35]);
    gb.cpu.regs.set_hl(0xC100);
    gb.mmu.write(0xC100, 0x0F);
    assert_eq!(gb.step(), Ok(12));
    assert_eq!(gb.mmu.read(0xC100), 0x10);
    assert!(gb.cpu.regs.flags.h);
    assert_eq!(gb.step(), Ok(12));
    assert_eq!(gb.mmu.read(0xC100), 0x0F);
}

#[test]
fn sixteen_bit_arithmetic() {
    let mut gb = machine(&[0x03, 0x0B, 0x09, 0xE8, 0xFE, 0xF8, 0x02]);
    gb.cpu.regs.set_bc(0xFFFF);
    gb.cpu.regs.flags.z = true;
    assert_eq!(gb.step(), Ok(8));
    assert_eq!(gb.cpu.regs.bc(), 0x0000);
    assert!(gb.cpu.regs.flags.z);
    assert_eq!(gb.step(), Ok(8));
    assert_eq!(gb.cpu.regs.bc(), 0xFFFF);
    gb.cpu.regs.set_hl(0x0FFF);
    gb.cpu.regs.set_bc(0x0001);
    assert_eq!(gb.step(), Ok(8));
    assert_eq!(gb.cpu.regs.hl(), 0x1000);
    assert!(gb.cpu.regs.flags.h && !gb.cpu.regs.flags.c && !gb.cpu.regs.flags.n);
    assert!(gb.cpu.regs.flags.z);
    gb.cpu.regs.sp = 0x0100;
    assert_eq!(gb.step(), Ok(16));
    assert_eq!(gb.cpu.regs.sp, 0x00FE);
    assert!(!gb.cpu.regs.flags.z && !gb.cpu.regs.flags.n);
    assert_eq!(gb.step(), Ok(12));
    assert_eq!(gb.cpu.regs.hl(), 0x0100);
    assert_eq!(gb.cpu.regs.sp, 0x00FE);
    assert!(gb.cpu.regs.flags.h && gb.cpu.regs.flags.c);
}

#[test]
fn accumulator_rotates_clear_z() {
    let mut gb = machine(&[0x07, 0x0F, 0x17, 0x1F]);
    gb.cpu.regs.a = 0x80;
    gb.cpu.regs.flags.z = true;
    gb.step().unwrap();
    assert_eq!(gb.cpu.regs.a, 0x01);
    assert!(gb.cpu.regs.flags.c && !gb.cpu.regs.flags.z);
    gb.step().unwrap();
    assert_eq!(gb.cpu.regs.a, 0x80);
    assert!(gb.cpu.regs.flags.c);
    gb.step().unwrap();
    assert_eq!(gb.cpu.regs.a, 0x01);
    assert!(gb.cpu.regs.flags.c);
    gb.cpu.regs.a = 0x00;
    gb.cpu.regs.flags.c = false;
    gb.step().unwrap();
    assert_eq!(gb.cpu.regs.a, 0x00);
    assert!(!gb.cpu.regs.flags.z);
}

#[test]
fn prefixed_rotates_and_shifts() {
    let mut gb = machine(&[
        0xCB, 0x00, 0xCB, 0x08, 0xCB, 0x10, 0xCB, 0x18, 0xCB, 0x20, 0xCB, 0x28, 0xCB, 0x30, 0xCB,
        0x38,
    ]);
    gb.cpu.regs.b = 0x81;
    assert_eq!(gb.step(), Ok(8));
    assert_eq!(gb.cpu.regs.b, 0x03);
    assert!(gb.cpu.regs.flags.c);
    gb.step().unwrap();
    assert_eq!(gb.cpu.regs.b, 0x81);
    assert!(gb.cpu.regs.flags.c);
    gb.step().unwrap();
    assert_eq!(gb.cpu.regs.b, 0x03);
    assert!(gb.cpu.regs.flags.c);
    gb.step().unwrap();
    assert_eq!(gb.cpu.regs.b, 0x81);
    assert!(gb.cpu.regs.flags.c);
    gb.step().unwrap();
    assert_eq!(gb.cpu.regs.b, 0x02);
    assert!(gb.cpu.regs.flags.c);
    gb.cpu.regs.b = 0x81;
    gb.step().unwrap();
    assert_eq!(gb.cpu.regs.b, 0xC0);
    assert!(gb.cpu.regs.flags.c);
    gb.cpu.regs.b = 0xA5;
    gb.step().unwrap();
    assert_eq!(gb.cpu.regs.b, 0x5A);
    assert!(!gb.cpu.regs.flags.c);
    gb.cpu.regs.b = 0x01;
    gb.step().unwrap();
    assert_eq!(gb.cpu.regs.b, 0x00);
    assert!(gb.cpu.regs.flags.c && gb.cpu.regs.flags.z);
}

#[test]
fn res_and_set_change_one_bit() {
    let mut gb = machine(&[0xCB, 0x87, 0xCB, 0xFF, 0xCB, 0xBE, 0xCB, 0xC6]);
    gb.cpu.regs.a = 0x0F;
    gb.cpu.regs.flags.set_u8(0xF0);
    assert_eq!(gb.step(), Ok(8));
    assert_eq!(gb.cpu.regs.a, 0x0E);
    assert_eq!(gb.cpu.regs.flags.as_u8(), 0xF0);
    gb.step().unwrap();
    assert_eq!(gb.cpu.regs.a, 0x8E);
    gb.cpu.regs.set_hl(0xC200);
    gb.mmu.write(0xC200, 0xFE);
    assert_eq!(gb.step(), Ok(16));
    assert_eq!(gb.mmu.read(0xC200), 0x7E);
    assert_eq!(gb.step(), Ok(16));
    assert_eq!(gb.mmu.read(0xC200), 0x7F);
}

#[test]
fn daa_adjusts_after_addition_and_subtraction() {
    let mut gb = machine(&[0x80, 0x27, 0x90, 0x27]);
    gb.cpu.regs.a = 0x15;
    gb.cpu.regs.b = 0x27;
    gb.step().unwrap();
    assert_eq!(gb.cpu.regs.a, 0x3C);
    gb.step().unwrap();
    assert_eq!(gb.cpu.regs.a, 0x42);
    assert!(!gb.cpu.regs.flags.c && !gb.cpu.regs.flags.h);
    gb.cpu.regs.a = 0x42;
    gb.cpu.regs.b = 0x15;
    gb.step().unwrap();
    assert_eq!(gb.cpu.regs.a, 0x2D);
    gb.step().unwrap();
    assert_eq!(gb.cpu.regs.a, 0x27);
    assert!(gb.cpu.regs.flags.n);
}

#[test]
fn cpl_scf_ccf() {
    let mut gb = machine(&[0x2F, 0x37, 0x3F, 0x3F]);
    gb.cpu.regs.a = 0x35;
    gb.step().unwrap();
    assert_eq!(gb.cpu.regs.a, 0xCA);
    assert!(gb.cpu.regs.flags.n && gb.cpu.regs.flags.h);
    gb.step().unwrap();
    assert!(gb.cpu.regs.flags.c && !gb.cpu.regs.flags.n && !gb.cpu.regs.flags.h);
    gb.step().unwrap();
    assert!(!gb.cpu.regs.flags.c);
    gb.step().unwrap();
    assert!(gb.cpu.regs.flags.c);
}

#[test]
fn loads_through_the_high_page() {
    let mut gb = machine(&[0xE0, 0x80, 0xF0, 0x80, 0xE2, 0xF2, 0xEA, 0x00, 0xC1, 0xFA, 0x00, 0xC1]);
    gb.cpu.regs.a = 0x12;
    assert_eq!(gb.step(), Ok(12));
    assert_eq!(gb.mmu.read(0xFF80), 0x12);
    gb.cpu.regs.a = 0;
    assert_eq!(gb.step(), Ok(12));
    assert_eq!(gb.cpu.regs.a, 0x12);
    gb.cpu.regs.c = 0x81;
    gb.cpu.regs.a = 0x34;
    assert_eq!(gb.step(), Ok(8));
    assert_eq!(gb.mmu.read(0xFF81), 0x34);
    gb.cpu.regs.a = 0;
    assert_eq!(gb.step(), Ok(8));
    assert_eq!(gb.cpu.regs.a, 0x34);
    assert_eq!(gb.step(), Ok(16));
    assert_eq!(gb.mmu.read(0xC100), 0x34);
    gb.cpu.regs.a = 0;
    assert_eq!(gb.step(), Ok(16));
    assert_eq!(gb.cpu.regs.a, 0x34);
    assert_eq!(gb.cpu.regs.pc, 0xC00C);
}

#[test]
fn ld_a16_sp_stores_both_bytes() {
    let mut gb = machine(&[0x08, 0x00, 0xC1]);
    gb.cpu.regs.sp = 0xABCD;
    assert_eq!(gb.step(), Ok(20));
    assert_eq!(gb.mmu.read(0xC100), 0xCD);
    assert_eq!(gb.mmu.read(0xC101), 0xAB);
    assert_eq!(gb.cpu.regs.pc, 0xC003);
}

#[test]
fn push_and_pop_pairs() {
    let mut gb = machine(&[0xC5, 0xD1, 0xF5, 0xF1]);
    gb.cpu.regs.sp = 0xD000;
    gb.cpu.regs.set_bc(0x1234);
    assert_eq!(gb.step(), Ok(16));
    assert_eq!(gb.cpu.regs.sp, 0xCFFE);
    assert_eq!(gb.mmu.read(0xCFFF), 0x12);
    assert_eq!(gb.mmu.read(0xCFFE), 0x34);
    assert_eq!(gb.step(), Ok(12));
    assert_eq!(gb.cpu.regs.de(), 0x1234);
    assert_eq!(gb.cpu.regs.sp, 0xD000);
    gb.cpu.regs.set_af(0x56FF);
    gb.step().unwrap();
    assert_eq!(gb.mmu.read(0xCFFE), 0xF0);
    gb.mmu.write(0xCFFE, 0xAF);
    gb.step().unwrap();
    assert_eq!(gb.cpu.regs.af(), 0x56A0);
}

#[test]
fn conditional_jumps_calls_and_returns() {
    let mut gb = machine(&[0xC2, 0x00, 0xD0, 0xCA, 0x10, 0xC0]);
    gb.cpu.regs.flags.z = true;
    assert_eq!(gb.step(), Ok(12));
    assert_eq!(gb.cpu.regs.pc, 0xC003);
    assert_eq!(gb.step(), Ok(16));
    assert_eq!(gb.cpu.regs.pc, 0xC010);

    let mut gb = machine(&[0xDC, 0x00, 0xC1, 0xD4, 0x00, 0xC1]);
    gb.cpu.regs.sp = 0xD000;
    gb.mmu.write(0xC100, 0xD8);
    gb.mmu.write(0xC101, 0xD0);
    assert_eq!(gb.step(), Ok(12));
    assert_eq!(gb.cpu.regs.pc, 0xC003);
    assert_eq!(gb.cpu.regs.sp, 0xD000);
    assert_eq!(gb.step(), Ok(24));
    assert_eq!(gb.cpu.regs.pc, 0xC100);
    assert_eq!(gb.cpu.regs.sp, 0xCFFE);
    assert_eq!(gb.step(), Ok(8));
    assert_eq!(gb.cpu.regs.pc, 0xC101);
    assert_eq!(gb.step(), Ok(20));
    assert_eq!(gb.cpu.regs.pc, 0xC006);
    assert_eq!(gb.cpu.regs.sp, 0xD000);
}

#[test]
fn rst_calls_its_fixed_address() {
    for (opcode, target) in [
        (0xC7u8, 0x00u16),
        (0xCF, 0x08),
        (0xD7, 0x10),
        (0xDF, 0x18),
        (0xE7, 0x20),
        (0xEF, 0x28),
        (0xF7, 0x30),
        (0xFF, 0x38),
    ] {
        let mut gb = machine(&[opcode]);
        gb.cpu.regs.sp = 0xD000;
        assert_eq!(gb.step(), Ok(16));
        assert_eq!(gb.cpu.regs.pc, target);
        assert_eq!(gb.cpu.regs.sp, 0xCFFE);
        assert_eq!(gb.mmu.read_u16(0xCFFE), 0xC001);
    }
}

#[test]
fn jp_hl_and_ld_sp_hl() {
    let mut gb = machine(&[0xF9, 0xE9]);
    gb.cpu.regs.set_hl(0xC123);
    assert_eq!(gb.step(), Ok(8));
    assert_eq!(gb.cpu.regs.sp, 0xC123);
    assert_eq!(gb.step(), Ok(4));
    assert_eq!(gb.cpu.regs.pc, 0xC123);
}

#[test]
fn illegal_opcodes_fail_to_decode() {
    for opcode in [0xD3u8, 0xDB, 0xDD, 0xE3, 0xE4, 0xEB, 0xEC, 0xED, 0xF4, 0xFC, 0xFD] {
        let mut gb = machine(&[opcode]);
        assert_eq!(gb.step(), Err(DecodeError { code: opcode as u16 }));
        assert_eq!(gb.cpu.regs.pc, 0xC001);
    }
}

#[test]
fn non_branch_instructions_advance_pc_by_their_length() {
    for (program, length) in [
        (vec![0x00u8], 1u16),
        (vec![0x3E, 0x01], 2),
        (vec![0x01, 0x34, 0x12], 3),
        (vec![0xCB, 0x37], 2),
        (vec![0xEA, 0x00, 0xC1], 3),
        (vec![0xE8, 0x01], 2),
        (vec![0x76], 1),
    ] {
        let mut gb = machine(&program);
        gb.step().unwrap();
        assert_eq!(gb.cpu.regs.pc, 0xC000 + length);
    }
}

#[test]
fn halt_waits_for_an_interrupt() {
    let mut gb = machine(&[0x76, 0x04]);
    assert_eq!(gb.step(), Ok(4));
    assert_eq!(gb.cpu.state, RunState::Halted);
    assert_eq!(gb.step(), Ok(4));
    assert_eq!(gb.step(), Ok(4));
    assert_eq!(gb.cpu.state, RunState::Halted);
    assert_eq!(gb.cpu.regs.pc, 0xC001);
    gb.mmu.write(0xFFFF, 0x04);
    gb.mmu.write(0xFF0F, 0x04);
    assert_eq!(gb.step(), Ok(4));
    assert_eq!(gb.cpu.state, RunState::Running);
    assert_eq!(gb.cpu.regs.pc, 0xC001);
    assert_eq!(gb.step(), Ok(4));
    assert_eq!(gb.cpu.regs.b, 1);
}

#[test]
fn halt_is_left_through_the_handler_when_interrupts_are_on() {
    let mut gb = machine(&[0x76]);
    gb.cpu.regs.sp = 0xD000;
    gb.mmu.set_ime(true);
    gb.step().unwrap();
    assert_eq!(gb.cpu.state, RunState::Halted);
    gb.mmu.write(0xFFFF, 0x1F);
    gb.mmu.write(0xFF0F, 0x10);
    gb.step().unwrap();
    assert_eq!(gb.cpu.state, RunState::Running);
    assert_eq!(gb.cpu.regs.pc, 0x0060);
    assert!(!gb.mmu.ime());
    assert_eq!(gb.mmu.read(0xFF0F), 0x00);
    assert_eq!(gb.mmu.read_u16(0xCFFE), 0xC001);
}

#[test]
fn stop_waits_for_the_joypad() {
    let mut gb = machine(&[0x10, 0x04]);
    assert_eq!(gb.step(), Ok(4));
    assert_eq!(gb.cpu.state, RunState::Stopped);
    gb.mmu.write(0xFFFF, 0x01);
    gb.mmu.write(0xFF0F, 0x01);
    gb.step().unwrap();
    assert_eq!(gb.cpu.state, RunState::Stopped);
    gb.mmu.write(0xFF0F, 0x10);
    gb.step().unwrap();
    assert_eq!(gb.cpu.state, RunState::Running);
}

#[test]
fn the_lowest_pending_interrupt_is_serviced() {
    let mut gb = machine(&[0x00, 0x00]);
    gb.cpu.regs.sp = 0xD000;
    gb.mmu.set_ime(true);
    gb.mmu.write(0xFFFF, 0x1E);
    gb.mmu.write(0xFF0F, 0x0D);
    gb.step().unwrap();
    assert_eq!(gb.cpu.regs.pc, 0x0050);
    assert_eq!(gb.mmu.read(0xFF0F), 0x09);
    assert!(!gb.mmu.ime());
    assert_eq!(gb.cpu.regs.sp, 0xCFFE);
    assert_eq!(gb.mmu.read_u16(0xCFFE), 0xC001);
}

#[test]
fn interrupts_wait_for_the_master_enable() {
    let mut gb = machine(&[0x00, 0x00]);
    gb.mmu.write(0xFFFF, 0x01);
    gb.mmu.write(0xFF0F, 0x01);
    gb.step().unwrap();
    assert_eq!(gb.cpu.regs.pc, 0xC001);
    assert_eq!(gb.mmu.read(0xFF0F), 0x01);
}

#[test]
fn ei_takes_effect_after_the_next_instruction() {
    let mut gb = machine(&[0xFB, 0x00, 0x00]);
    gb.cpu.regs.sp = 0xD000;
    gb.mmu.write(0xFFFF, 0x01);
    gb.mmu.write(0xFF0F, 0x01);
    gb.step().unwrap();
    assert!(!gb.mmu.ime());
    assert_eq!(gb.cpu.regs.pc, 0xC001);
    gb.step().unwrap();
    assert_eq!(gb.cpu.regs.pc, 0x0040);
    assert_eq!(gb.mmu.read_u16(0xCFFE), 0xC002);
    assert!(!gb.mmu.ime());
}

#[test]
fn di_is_immediate_and_cancels_a_pending_ei() {
    let mut gb = machine(&[0xFB, 0xF3, 0x00]);
    gb.mmu.write(0xFFFF, 0x01);
    gb.mmu.write(0xFF0F, 0x01);
    gb.step().unwrap();
    gb.step().unwrap();
    gb.step().unwrap();
    assert!(!gb.mmu.ime());
    assert_eq!(gb.cpu.regs.pc, 0xC003);

    let mut gb = machine(&[0xF3]);
    gb.mmu.set_ime(true);
    gb.step().unwrap();
    assert!(!gb.mmu.ime());
}

#[test]
fn reti_returns_and_enables_interrupts() {
    let mut gb = machine(&[0xD9]);
    gb.cpu.regs.sp = 0xCFFE;
    gb.mmu.write_u16(0xCFFE, 0xC123);
    assert_eq!(gb.step(), Ok(16));
    assert_eq!(gb.cpu.regs.pc, 0xC123);
    assert_eq!(gb.cpu.regs.sp, 0xD000);
    assert!(gb.mmu.ime());
}

#[test]
fn the_boot_program_starts_at_reset() {
    let mut gb = Gameboy::new(Rom::new(vec![0; 0x8000]));
    assert_eq!(gb.cpu.regs.pc, 0x0000);
    assert_eq!(gb.cpu.regs.sp, 0xFFFE);
    assert!(gb.mmu.in_boot());
    assert!(!gb.mmu.ime());
    assert_eq!(gb.step(), Ok(12));
    assert_eq!(gb.cpu.regs.sp, 0xFFFE);
    assert_eq!(gb.step(), Ok(4));
    assert_eq!(gb.cpu.regs.a, 0);
    assert_eq!(gb.step(), Ok(12));
    assert_eq!(gb.cpu.regs.hl(), 0x9FFF);
    assert_eq!(gb.cpu.regs.pc, 0x0007);
}

#[test]
fn the_boot_program_clears_video_memory() {
    let mut gb = Gameboy::new(Rom::new(vec![0; 0x8000]));
    gb.mmu.write(0x8000, 0x55);
    gb.mmu.write(0x9ABC, 0x55);
    let mut steps = 0;
    while gb.cpu.regs.pc != 0x000C {
        gb.step().unwrap();
        steps += 1;
        assert!(steps < 100_000);
    }
    assert_eq!(gb.mmu.read(0x8000), 0x00);
    assert_eq!(gb.mmu.read(0x9ABC), 0x00);
    assert_eq!(gb.cpu.regs.hl(), 0x7FFF);
}

#[test]
fn run_frame_hands_out_one_picture() {
    let mut gb = machine(&[0x18, 0xFE]);
    let frame = gb.run_frame().unwrap();
    assert_eq!(frame.len(), 160 * 144);
    assert!(frame.iter().all(|pixel| *pixel == 0xFF9BBC0F));
    assert_eq!(gb.mmu.read(0xFF44), 1);
    assert!(!gb.mmu.has_frame());
    let again = gb.run_frame().unwrap();
    assert_eq!(again.len(), 160 * 144);
    assert_eq!(gb.mmu.read(0xFF44), 1);
}

#[test]
fn run_frame_stops_at_a_code_without_instruction() {
    let mut gb = machine(&[0x00, 0xDD]);
    assert_eq!(gb.run_frame(), Err(DecodeError { code: 0x00DD }));
    assert_eq!(gb.cpu.regs.pc, 0xC002);
}

/// A cartridge that the boot program accepts: the logo that it compares
/// with its own copy, and a header whose check sum comes out as zero.
fn accepted_cartridge() -> Vec<u8> {
    let mut rom = vec![0u8; 0x8000];
    for i in 0..48 {
        rom[0x0104 + i] = gbcore::gameboy::mmu::BOOT_ROM[0xA8 + i];
    }
    rom[0x014D] = 0xE7;
    rom[0x0100] = 0x18;
    rom[0x0101] = 0xFE;
    rom
}

#[test]
fn the_boot_program_hands_over_to_the_cartridge() {
    let mut gb = Gameboy::new(Rom::new(accepted_cartridge()));
    let mut frames = 0;
    let mut steps: u64 = 0;
    while gb.cpu.regs.pc != 0x0100 {
        gb.step().unwrap();
        if gb.mmu.take_frame().is_some() {
            frames += 1;
        }
        steps += 1;
        assert!(steps < 50_000_000);
    }
    assert!(!gb.mmu.in_boot());
    assert_eq!(gb.cpu.regs.af(), 0x01B0);
    assert_eq!(gb.cpu.regs.bc(), 0x0013);
    assert_eq!(gb.cpu.regs.de(), 0x00D8);
    assert_eq!(gb.cpu.regs.hl(), 0x014D);
    assert_eq!(gb.cpu.regs.sp, 0xFFFE);
    assert_eq!(gb.mmu.read(0xFF40), 0x91);
    assert_eq!(gb.mmu.read(0xFF47), 0xFC);
    assert_eq!(gb.mmu.read(0xFF42), 0x00);
    assert_eq!(gb.mmu.read(0xFF50), 0x01);
    assert_eq!(gb.mmu.read(0x0000), 0x00);
    assert!(frames > 60);
    let picture = gb.run_frame().unwrap();
    assert_eq!(gb.cpu.regs.pc, 0x0100);
    assert!(picture.iter().any(|pixel| *pixel == 0xFF000000));
    assert!(picture.iter().any(|pixel| *pixel == 0xFF9BBC0F));
    assert!(picture[0..160 * 60].iter().all(|pixel| *pixel == 0xFF9BBC0F));
}

#[test]
fn the_boot_program_stops_at_a_cartridge_without_logo() {
    let mut gb = Gameboy::new(Rom::new(vec![0; 0x8000]));
    let mut steps: u64 = 0;
    while gb.cpu.regs.pc != 0x00E9 {
        gb.step().unwrap();
        steps += 1;
        assert!(steps < 50_000_000);
    }
    gb.step().unwrap();
    assert_eq!(gb.cpu.regs.pc, 0x00E9);
    assert!(gb.mmu.in_boot());
}
