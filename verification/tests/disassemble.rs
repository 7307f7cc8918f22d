use gbcore::debugger::dis::{disassemble_code, Disassembler, Inst};
use gbcore::gameboy::cpu::Cpu;
use gbcore::gameboy::mmu::Mmu;
use gbcore::gameboy::operations::{get_operation, DecodeError, Instr, Operand8, Reg8, ValueMode};
use gbcore::gameboy::rom::Rom;

#[test]
fn test_op_disassemble() {
    let ff = disassemble_code(0x00FF).unwrap();
    assert_eq!("RST 38H".to_owned(), ff.0);
}

#[test]
fn test_cb_disassemble() {
    let ff = disassemble_code(0xCBFF).unwrap();
    assert_eq!("SET 7, A".to_owned(), ff.0);
}

#[test]
fn disassemble_code_marks_operands() {
    assert_eq!(disassemble_code(0x0001), Some(("LD BC, {$4}".to_owned(), 2)));
    assert_eq!(disassemble_code(0x0006), Some(("LD B, {$2}".to_owned(), 1)));
    assert_eq!(disassemble_code(0x0020), Some(("JR NZ, {r}".to_owned(), 1)));
    assert_eq!(disassemble_code(0x00E0), Some(("LDH ({$2h}), A".to_owned(), 1)));
    assert_eq!(disassemble_code(0x0008), Some(("LD ({$4}), SP".to_owned(), 2)));
    assert_eq!(disassemble_code(0x0000), Some(("NOP".to_owned(), 0)));
    assert_eq!(disassemble_code(0xCB11), Some(("RL C".to_owned(), 0)));
    assert_eq!(disassemble_code(0xCB46), Some(("BIT 0, (HL)".to_owned(), 0)));
}

#[test]
fn disassemble_code_rejects_codes_without_instruction() {
    for code in [0x00D3u16, 0x00DB, 0x00DD, 0x00E3, 0x00E4, 0x00EB, 0x00EC, 0x00ED, 0x00F4, 0x00FC, 0x00FD] {
        assert_eq!(disassemble_code(code), None);
    }
    assert_eq!(disassemble_code(0x00CB), None);
    assert_eq!(disassemble_code(0x0100), None);
    assert_eq!(disassemble_code(0xCC00), None);
}

#[test]
fn decoder_reports_the_code_it_cannot_decode() {
    for code in [0x00D3u16, 0x00DB, 0x00DD, 0x00E3, 0x00E4, 0x00EB, 0x00EC, 0x00ED, 0x00F4, 0x00FC, 0x00FD, 0x00CB, 0x1234] {
        match get_operation(code) {
            Err(error) => assert_eq!(error, DecodeError { code }),
            Ok(_) => panic!("code {:04X} decoded", code),
        }
    }
}

#[test]
fn decoder_knows_every_other_code() {
    let illegal = [0xD3u16, 0xDB, 0xDD, 0xE3, 0xE4, 0xEB, 0xEC, 0xED, 0xF4, 0xFC, 0xFD, 0xCB];
    let mut known = 0;
    for low in 0..=0xFFu16 {
        if !illegal.contains(&low) {
            assert!(get_operation(low).is_ok());
            known += 1;
        }
        assert!(get_operation(0xCB00 | low).is_ok());
    }
    assert_eq!(known, 244);
}

#[test]
fn descriptors_carry_action_cost_mode_and_text() {
    let op = get_operation(0x0041).unwrap();
    assert_eq!(op.action, Instr::Ld(Operand8::Reg(Reg8::B), Operand8::Reg(Reg8::C)));
    assert_eq!(op.cycles, 4);
    assert_eq!(op.mode, ValueMode::Implied);
    assert_eq!(op.dis, "LD B, C");

    let op = get_operation(0x0046).unwrap();
    assert_eq!(op.action, Instr::Ld(Operand8::Reg(Reg8::B), Operand8::HlInd));
    assert_eq!(op.cycles, 8);

    let op = get_operation(0x00CD).unwrap();
    assert_eq!(op.action, Instr::Call);
    assert_eq!(op.cycles, 24);
    assert_eq!(op.mode, ValueMode::A16);
    assert_eq!(op.dis, "CALL {}");

    let op = get_operation(0x0020).unwrap();
    assert_eq!(op.cycles, 8);
    assert_eq!(op.mode, ValueMode::R8);
    assert_eq!(op.dis, "JR NZ, {}");

    let op = get_operation(0x0076).unwrap();
    assert_eq!(op.action, Instr::Halt);

    let op = get_operation(0xCB7C).unwrap();
    assert_eq!(op.action, Instr::TestBit(7, Operand8::Reg(Reg8::H)));
    assert_eq!(op.cycles, 8);
    assert_eq!(op.dis, "BIT 7, H");

    let op = get_operation(0xCB46).unwrap();
    assert_eq!(op.cycles, 12);
    let op = get_operation(0xCB86).unwrap();
    assert_eq!(op.cycles, 16);
}

fn machine_with(program: &[u8]) -> (Cpu, Mmu) {
    let mut mmu = Mmu::new(Rom::new(vec![0; 0x8000]));
    let mut cpu = Cpu::new();
    for (i, byte) in program.iter().enumerate() {
        mmu.write(0xC000 + i as u16, *byte);
    }
    cpu.regs.pc = 0xC000;
    (cpu, mmu)
}

#[test]
fn operation_disassemble_writes_the_operand() {
    let (cpu, mmu) = machine_with(&[0x21, 0xFF, 0x9F]);
    let op = get_operation(0x0021).unwrap();
    assert_eq!(op.disassemble(&cpu, &mmu), "LD HL, $9FFF");

    let (cpu, mmu) = machine_with(&[0x20, 0xFB]);
    let op = get_operation(0x0020).unwrap();
    assert_eq!(op.disassemble(&cpu, &mmu), "JR NZ, -5");

    let (cpu, mmu) = machine_with(&[0x18, 0x7F]);
    let op = get_operation(0x0018).unwrap();
    assert_eq!(op.disassemble(&cpu, &mmu), "JR 127");

    let (cpu, mmu) = machine_with(&[0xE0, 0x47]);
    let op = get_operation(0x00E0).unwrap();
    assert_eq!(op.disassemble(&cpu, &mmu), "LDH ($FF47), A");

    let (cpu, mmu) = machine_with(&[0x3E, 0x0A]);
    let op = get_operation(0x003E).unwrap();
    assert_eq!(op.disassemble(&cpu, &mmu), "LD A, $0A");

    let (cpu, mmu) = machine_with(&[0x00]);
    let op = get_operation(0x0000).unwrap();
    assert_eq!(op.disassemble(&cpu, &mmu), "NOP");
}

#[test]
fn listing_walks_the_image() {
    let rom = Rom::new(vec![0x31, 0xFE, 0xFF, 0xAF, 0xD3, 0xCB, 0x7C, 0x20, 0xFB]);
    let mut reader = Disassembler::new(rom);
    let listing = reader.disassemble().unwrap();
    let lines: Vec<String> = listing.lines();
    assert_eq!(
        lines,
        vec![
            "0000 | FE FF     LD SP, $FFFE".to_owned(),
            "0003 |           XOR A".to_owned(),
            "0005 |           BIT 7, H".to_owned(),
            "0007 | FB        JR NZ, -5".to_owned(),
        ]
    );
    assert_eq!(listing.instructions[0].code, 0x0031);
    assert_eq!(listing.instructions[0].values, vec![0xFE, 0xFF]);
    assert_eq!(listing.instructions[0].dis, "LD SP, {$4}");
    assert_eq!(listing.instructions[2].code, 0xCB7C);
    assert_eq!(listing.instructions[2].loc, 5);
}

#[test]
fn listing_fails_where_the_image_ends_inside_an_instruction() {
    let mut reader = Disassembler::new(Rom::new(vec![0x00, 0x21, 0xFF]));
    assert!(reader.disassemble().is_err());
    let mut reader = Disassembler::new(Rom::new(vec![0x00, 0xCB]));
    assert!(reader.disassemble().is_err());
    let mut reader = Disassembler::new(Rom::new(vec![]));
    assert_eq!(reader.disassemble().unwrap().instructions.len(), 0);
}

#[test]
fn line_of_a_single_instruction() {
    let inst = Inst::new(0x00EA, 0x1234, "LD ({$4}), A".to_owned(), vec![0x10, 0x99]);
    assert_eq!(inst.render(), "1234 | 10 99     LD ($9910), A");
    let inst = Inst::new(0x00D3, 0x0001, "??".to_owned(), vec![]);
    assert_eq!(inst.render(), "0001 |           ??");
}
