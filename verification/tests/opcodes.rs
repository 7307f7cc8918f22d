use gbcore::gameboy::cpu::Cpu;
use gbcore::gameboy::mmu::Mmu;
use gbcore::gameboy::operations::alu::{
    add_a_x, add_c_u16, add_c_u8, add_hc_u16, add_hc_u8, add_hl, and_x, ld_x_y, or_x, restart,
    srl, swap, xor_a,
};
use gbcore::gameboy::operations::base::{
    opx00, opx01, opx04, opx05, opx06, opx18, opx20, opx21, opx32, opx77, opxAF, opxC3, opxC9,
    opxCD, opxE0, opxF3, opxFB, opxFE,
};
use gbcore::gameboy::operations::execute::execute;
use gbcore::gameboy::operations::prefixed::{cbx11, cbx37, cbx7C, cbx87, cbxBE};
use gbcore::gameboy::operations::{AluOp, Instr, Operand8, Reg16, Reg8, RotOp};
use gbcore::gameboy::registers::FlagRegister;
use gbcore::gameboy::rom::Rom;

fn machine(program: &[u8]) -> (Cpu, Mmu) {
    let mut mmu = Mmu::new(Rom::new(vec![0; 0x8000]));
    let mut cpu = Cpu::new();
    for (i, byte) in program.iter().enumerate() {
        mmu.write(0xC000 + i as u16, *byte);
    }
    cpu.regs.pc = 0xC000;
    (cpu, mmu)
}

#[test]
fn carries() {
    assert!(add_hc_u8(0x0F, 0x01));
    assert!(!add_hc_u8(0x0E, 0x01));
    assert!(!add_hc_u8(0xF0, 0x10));
    assert!(add_c_u8(0xFF, 0x01));
    assert!(!add_c_u8(0xFE, 0x01));
    assert!(add_hc_u16(0x0FFF, 0x0001));
    assert!(!add_hc_u16(0x00FF, 0x0001));
    assert!(add_c_u16(0xFFFF, 0x0001));
    assert!(!add_c_u16(0xFFFE, 0x0001));
}

#[test]
fn helpers_on_registers() {
    let mut reg = 0u8;
    ld_x_y(&mut reg, 0x42);
    assert_eq!(reg, 0x42);
    let mut flags = FlagRegister { z: true, n: true, h: true, c: true };
    swap(&mut reg, &mut flags);
    assert_eq!(reg, 0x24);
    assert_eq!(flags, FlagRegister { z: false, n: false, h: false, c: false });
    let mut reg = 0x01u8;
    srl(&mut reg, &mut flags);
    assert_eq!(reg, 0);
    assert_eq!(flags, FlagRegister { z: true, n: false, h: false, c: true });
}

#[test]
fn helpers_on_the_accumulator() {
    let mut cpu = Cpu::new();
    cpu.regs.a = 0x3C;
    add_a_x(0xC4, &mut cpu);
    assert_eq!(cpu.regs.a, 0x00);
    assert_eq!(cpu.regs.flags, FlagRegister { z: true, n: false, h: true, c: true });
    cpu.regs.a = 0x5A;
    and_x(0x3F, &mut cpu);
    assert_eq!(cpu.regs.a, 0x1A);
    assert_eq!(cpu.regs.flags, FlagRegister { z: false, n: false, h: true, c: false });
    or_x(0x05, &mut cpu);
    assert_eq!(cpu.regs.a, 0x1F);
    xor_a(0x1F, &mut cpu);
    assert_eq!(cpu.regs.a, 0x00);
    assert!(cpu.regs.flags.z);
    cpu.regs.set_hl(0x8A23);
    add_hl(&mut cpu, 0x8A23);
    assert_eq!(cpu.regs.hl(), 0x1446);
    assert_eq!(cpu.regs.flags, FlagRegister { z: true, n: false, h: true, c: true });
}

#[test]
fn opcode_functions_work_after_the_fetch() {
    let (mut cpu, mut mmu) = machine(&[0x34, 0x12]);
    opx00(&mut cpu, &mut mmu);
    assert_eq!(cpu.regs.pc, 0xC000);
    opx01(&mut cpu, &mut mmu);
    assert_eq!(cpu.regs.bc(), 0x1234);
    assert_eq!(cpu.regs.pc, 0xC002);

    let (mut cpu, mut mmu) = machine(&[0x77]);
    opx04(&mut cpu, &mut mmu);
    assert_eq!(cpu.regs.b, 1);
    opx05(&mut cpu, &mut mmu);
    assert_eq!(cpu.regs.b, 0);
    assert!(cpu.regs.flags.z && cpu.regs.flags.n);
    opx06(&mut cpu, &mut mmu);
    assert_eq!(cpu.regs.b, 0x77);

    let (mut cpu, mut mmu) = machine(&[0xFF, 0x9F]);
    opx21(&mut cpu, &mut mmu);
    cpu.regs.a = 0xAA;
    opx32(&mut cpu, &mut mmu);
    assert_eq!(mmu.read(0x9FFF), 0xAA);
    assert_eq!(cpu.regs.hl(), 0x9FFE);
    cpu.regs.a = 0xBB;
    opx77(&mut cpu, &mut mmu);
    assert_eq!(mmu.read(0x9FFE), 0xBB);
    opxAF(&mut cpu, &mut mmu);
    assert_eq!(cpu.regs.a, 0);
    assert!(cpu.regs.flags.z);
}

#[test]
fn opcode_functions_for_jumps() {
    let (mut cpu, mut mmu) = machine(&[0x05]);
    opx18(&mut cpu, &mut mmu);
    assert_eq!(cpu.regs.pc, 0xC006);

    let (mut cpu, mut mmu) = machine(&[0xFB]);
    cpu.regs.pc = 0xC000;
    cpu.regs.flags.z = false;
    opx20(&mut cpu, &mut mmu);
    assert_eq!(cpu.regs.pc, 0xC001 - 5);

    let (mut cpu, mut mmu) = machine(&[0x00, 0xD0]);
    opxC3(&mut cpu, &mut mmu);
    assert_eq!(cpu.regs.pc, 0xD000);

    let (mut cpu, mut mmu) = machine(&[0x00, 0xD0]);
    cpu.regs.sp = 0xCFFF;
    opxCD(&mut cpu, &mut mmu);
    assert_eq!(cpu.regs.pc, 0xD000);
    assert_eq!(cpu.regs.sp, 0xCFFD);
    assert_eq!(mmu.read_u16(0xCFFD), 0xC002);
    opxC9(&mut cpu, &mut mmu);
    assert_eq!(cpu.regs.pc, 0xC002);
    assert_eq!(cpu.regs.sp, 0xCFFF);
    restart(&mut cpu, &mut mmu, 0x0038);
    assert_eq!(cpu.regs.pc, 0x0038);
    assert_eq!(mmu.read_u16(0xCFFD), 0xC002);
}

#[test]
fn opcode_functions_for_the_rest() {
    let (mut cpu, mut mmu) = machine(&[0x47, 0x42]);
    cpu.regs.a = 0x99;
    opxE0(&mut cpu, &mut mmu);
    assert_eq!(mmu.read(0xFF47), 0x99);
    cpu.regs.a = 0x42;
    opxFE(&mut cpu, &mut mmu);
    assert!(cpu.regs.flags.z && cpu.regs.flags.n);
    mmu.set_ime(true);
    opxF3(&mut cpu, &mut mmu);
    assert!(!mmu.ime());
    opxFB(&mut cpu, &mut mmu);
    assert!(!mmu.ime());
    assert!(cpu.ime_pending);

    cpu.regs.c = 0x80;
    cpu.regs.flags.c = true;
    cbx11(&mut cpu, &mut mmu);
    assert_eq!(cpu.regs.c, 0x01);
    assert!(cpu.regs.flags.c);
    cpu.regs.a = 0xF1;
    cbx37(&mut cpu, &mut mmu);
    assert_eq!(cpu.regs.a, 0x1F);
    cpu.regs.h = 0x80;
    cbx7C(&mut cpu, &mut mmu);
    assert!(!cpu.regs.flags.z && cpu.regs.flags.h);
    cbx87(&mut cpu, &mut mmu);
    assert_eq!(cpu.regs.a, 0x1E);
    cpu.regs.set_hl(0xC100);
    mmu.write(0xC100, 0xFF);
    cbxBE(&mut cpu, &mut mmu);
    assert_eq!(mmu.read(0xC100), 0x7F);
}

#[test]
fn execute_takes_operands_from_the_instruction() {
    let (mut cpu, mut mmu) = machine(&[0x12, 0x34]);
    cpu.regs.d = 7;
    execute(Instr::Ld(Operand8::Reg(Reg8::E), Operand8::Reg(Reg8::D)), &mut cpu, &mut mmu);
    assert_eq!(cpu.regs.e, 7);
    execute(Instr::Alu(AluOp::Add, Operand8::Reg(Reg8::E)), &mut cpu, &mut mmu);
    assert_eq!(cpu.regs.a, 7);
    execute(Instr::Rot(RotOp::Swap, Operand8::Reg(Reg8::A)), &mut cpu, &mut mmu);
    assert_eq!(cpu.regs.a, 0x70);
    execute(Instr::Ld16Imm(Reg16::SP), &mut cpu, &mut mmu);
    assert_eq!(cpu.regs.sp, 0x3412);
    execute(Instr::SetBit(0, Operand8::Reg(Reg8::L)), &mut cpu, &mut mmu);
    assert_eq!(cpu.regs.l, 1);
    execute(Instr::Halt, &mut cpu, &mut mmu);
    assert_eq!(cpu.state, gbcore::gameboy::cpu::RunState::Halted);
}

#[test]
fn stack_helpers_of_the_processor() {
    let (mut cpu, mut mmu) = machine(&[0xAB, 0xCD, 0xEF]);
    assert_eq!(cpu.immediate_u8(&mmu), 0xCD);
    assert_eq!(cpu.immediate_u16(&mmu), 0xEFCD);
    assert_eq!(cpu.immediate_u8_pc(&mmu), 0xAB);
    assert_eq!(cpu.immediate_u16_pc(&mmu), 0xEFCD);
    assert_eq!(cpu.regs.pc, 0xC003);
    cpu.regs.sp = 0xD000;
    cpu.stack_push_u8(0x11, &mut mmu);
    assert_eq!(cpu.regs.sp, 0xCFFF);
    assert_eq!(mmu.read(0xCFFF), 0x11);
    cpu.stack_push_u16(0x2233, &mut mmu);
    assert_eq!(cpu.regs.sp, 0xCFFD);
    assert_eq!(mmu.read(0xCFFE), 0x22);
    assert_eq!(mmu.read(0xCFFD), 0x33);
    assert_eq!(cpu.stack_pop_u16(&mut mmu), 0x2233);
    assert_eq!(cpu.stack_pop_u8(&mut mmu), 0x11);
    assert_eq!(cpu.regs.sp, 0xD000);
}

#[test]
fn the_processor_fetches_one_or_two_opcode_bytes() {
    let (mut cpu, mmu) = machine(&[0x00, 0xCB, 0x7C, 0xD3]);
    assert_eq!(cpu.fetch(&mmu), 0x0000);
    assert_eq!(cpu.fetch(&mmu), 0xCB7C);
    assert_eq!(cpu.regs.pc, 0xC003);
    assert!(cpu.get_operation(&mmu).is_err());
    assert_eq!(cpu.regs.pc, 0xC004);
}
