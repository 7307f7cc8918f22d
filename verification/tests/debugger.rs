use gbcore::debugger::command::{
    build_set, build_show, build_step, Command, SetType, ShowType, _build_memory_set,
};
use gbcore::debugger::{parse_input, str_to_u16};

#[test]
fn numbers_are_decimal_or_hexadecimal() {
    assert_eq!(str_to_u16("0"), Ok(0));
    assert_eq!(str_to_u16("65535"), Ok(65535));
    assert_eq!(str_to_u16("+12"), Ok(12));
    assert_eq!(str_to_u16("0x1F"), Ok(0x1F));
    assert_eq!(str_to_u16("0xffff"), Ok(0xFFFF));
    assert_eq!(str_to_u16("0xC000"), Ok(0xC000));
    assert_eq!(str_to_u16("0012"), Ok(12));
}

#[test]
fn numbers_out_of_range_or_malformed_are_rejected() {
    assert_eq!(str_to_u16("65536"), Err("Could not convert to u16 from string."));
    assert_eq!(str_to_u16(""), Err("Could not convert to u16 from string."));
    assert_eq!(str_to_u16("12a"), Err("Could not convert to u16 from string."));
    assert_eq!(str_to_u16("-1"), Err("Could not convert to u16 from string."));
    assert_eq!(str_to_u16("+"), Err("Could not convert to u16 from string."));
    assert_eq!(str_to_u16("99999999999999999999"), Err("Could not convert to u16 from string."));
    assert_eq!(str_to_u16("0x"), Err("Could not convert to u16 from hex string."));
    assert_eq!(str_to_u16("0x10000"), Err("Could not convert to u16 from hex string."));
    assert_eq!(str_to_u16("0xG"), Err("Could not convert to u16 from hex string."));
    assert_eq!(str_to_u16("0X10"), Err("Could not convert to u16 from string."));
}

#[test]
fn step_takes_a_count() {
    assert_eq!(parse_input("step 10"), Ok(Command::Step(10)));
    assert_eq!(parse_input("step 4294967295"), Ok(Command::Step(4294967295)));
    assert_eq!(parse_input("step 4294967296"), Err("Invalid arguments for 'step'."));
    assert_eq!(parse_input("step"), Err("Invalid arguments for 'step'."));
    assert_eq!(parse_input("step x"), Err("Invalid arguments for 'step'."));
    assert_eq!(parse_input("step 0x10"), Ok(Command::Step(16)));
    assert_eq!(parse_input("step 0xFFFFFFFF"), Ok(Command::Step(0xFFFF_FFFF)));
    assert_eq!(parse_input("step 0x100000000"), Err("Invalid arguments for 'step'."));
    assert_eq!(build_step(&vec!["7"]), Ok(Command::Step(7)));
    assert_eq!(build_step(&vec![]), Err("Invalid arguments for 'step'."));
}

#[test]
fn an_empty_line_steps_once() {
    assert_eq!(parse_input(""), Ok(Command::Step(1)));
}

#[test]
fn commands_have_aliases() {
    assert_eq!(parse_input("resume"), Ok(Command::Resume));
    assert_eq!(parse_input("go"), Ok(Command::Resume));
    assert_eq!(parse_input("start"), Ok(Command::Resume));
    assert_eq!(parse_input("restart"), Ok(Command::Restart));
    assert_eq!(parse_input("r"), Ok(Command::Restart));
    assert_eq!(parse_input("quit"), Ok(Command::Quit));
    assert_eq!(parse_input("exit"), Ok(Command::Quit));
    assert_eq!(parse_input("q"), Ok(Command::Quit));
    assert_eq!(parse_input("help"), Ok(Command::Help));
    assert_eq!(parse_input("h"), Ok(Command::Help));
    assert_eq!(parse_input("jump"), Err("Invalid command."));
    assert_eq!(parse_input(" step 1"), Ok(Command::Step(1)));
}

#[test]
fn show_names_what_to_show() {
    assert_eq!(parse_input("show regs"), Ok(Command::Show(ShowType::Registers)));
    assert_eq!(parse_input("show registers"), Ok(Command::Show(ShowType::Registers)));
    assert_eq!(parse_input("print regs"), Ok(Command::Show(ShowType::Registers)));
    assert_eq!(parse_input("show tps"), Ok(Command::Show(ShowType::Tracepoints)));
    assert_eq!(parse_input("show mem 0x100"), Ok(Command::Show(ShowType::Memory(0x100, 0x100))));
    assert_eq!(
        parse_input("show memory 16 0xFF"),
        Ok(Command::Show(ShowType::Memory(16, 0xFF)))
    );
    assert_eq!(parse_input("show"), Err("That is not a valid 'show' type."));
    assert_eq!(parse_input("show all"), Err("That is not a valid 'show' type."));
    assert_eq!(parse_input("show mem"), Err("Invalid argument for memory type."));
    assert_eq!(parse_input("show mem x"), Err("Invalid argument for memory type."));
    assert_eq!(parse_input("show mem 1 y"), Err("Invalid argument for memory type."));
    assert_eq!(build_show(&vec!["regs"]), Ok(Command::Show(ShowType::Registers)));
}

#[test]
fn set_names_what_to_set() {
    assert_eq!(parse_input("set bp 0x150"), Ok(Command::Assign(SetType::Breakpoint(0x150))));
    assert_eq!(parse_input("set break 336"), Ok(Command::Assign(SetType::Breakpoint(336))));
    assert_eq!(
        parse_input("set mem 0xC000 0x3E"),
        Ok(Command::Assign(SetType::Memory(0xC000, 0x3E)))
    );
    assert_eq!(
        parse_input("set mem 0xC000 0x1234"),
        Ok(Command::Assign(SetType::Memory(0xC000, 0x34)))
    );
    assert_eq!(parse_input("set"), Err("Invalid argument for 'set'."));
    assert_eq!(parse_input("set speed 3"), Err("Invalid argument for 'set'."));
    assert_eq!(parse_input("set bp"), Err("Breakpoint requires an address argument."));
    assert_eq!(parse_input("set bp zz"), Err("Invalid argument for set type."));
    assert_eq!(parse_input("set mem 1"), Err("Set mem requires two arguments."));
    assert_eq!(parse_input("set mem x 1"), Err("Invalid argument 1 for memory set."));
    assert_eq!(parse_input("set mem 1 x"), Err("Invalid argument 2 for memory set."));
    assert_eq!(build_set(&vec!["bp", "1"]), Ok(Command::Assign(SetType::Breakpoint(1))));
    assert_eq!(_build_memory_set(&vec!["mem", "2", "3"]), Ok(SetType::Memory(2, 3)));
}

use gbcore::debugger::session::{memory_rows, registers_report, DebugMode, Output, Session};
use gbcore::gameboy::registers::Registers;
use gbcore::gameboy::rom::Rom;
use gbcore::gameboy::Gameboy;

fn looping_machine() -> Gameboy {
    let mut gb = Gameboy::new(Rom::new(vec![0; 0x8000]));
    for (i, byte) in [0x04u8, 0x04, 0x18, 0xFC, 0xDD].iter().enumerate() {
        gb.mmu.write(0xC000 + i as u16, *byte);
    }
    gb.cpu.regs.pc = 0xC000;
    gb
}

#[test]
fn a_session_starts_at_the_prompt() {
    let session = Session::new();
    assert_eq!(session.mode, DebugMode::Repl);
    assert_eq!(session.step_distance, 10);
    assert!(session.breakpoints.is_empty());
}

#[test]
fn commands_change_the_session() {
    let mut gb = looping_machine();
    let mut session = Session::new();
    assert_eq!(session.handle_command(Command::Step(3), &mut gb.mmu), Output::Nothing);
    assert_eq!((session.mode, session.step_distance), (DebugMode::Stepping, 3));
    session.handle_command(Command::Resume, &mut gb.mmu);
    assert_eq!(session.mode, DebugMode::Running);
    session.handle_command(Command::Restart, &mut gb.mmu);
    assert_eq!(session.mode, DebugMode::Restarting);
    session.handle_command(Command::Quit, &mut gb.mmu);
    assert_eq!(session.mode, DebugMode::Quitting);
    session.handle_command(Command::Assign(SetType::Breakpoint(0xC002)), &mut gb.mmu);
    assert_eq!(session.breakpoints, vec![0xC002]);
    assert_eq!(session.mode, DebugMode::Quitting);
    assert_eq!(
        session.handle_command(Command::Assign(SetType::Memory(0xC123, 0x42)), &mut gb.mmu),
        Output::Poked(0xC123, 0x42)
    );
    assert_eq!(gb.mmu.read(0xC123), 0x42);
    assert_eq!(session.handle_command(Command::Help, &mut gb.mmu), Output::Help);
    assert_eq!(
        session.handle_command(Command::Show(ShowType::Registers), &mut gb.mmu),
        Output::Registers
    );
    assert_eq!(
        session.handle_command(Command::Show(ShowType::Tracepoints), &mut gb.mmu),
        Output::Tracepoints
    );
    assert_eq!(
        session.handle_command(Command::Show(ShowType::Memory(1, 2)), &mut gb.mmu),
        Output::Memory(1, 2)
    );
    assert_eq!(session.step_distance, 3);
}

#[test]
fn a_breakpoint_brings_the_prompt_back() {
    let mut gb = looping_machine();
    let mut session = Session::new();
    session.breakpoints.push(0xC002);
    session.mode = DebugMode::Running;
    assert_eq!(session.cycle(&mut gb), Ok(4));
    assert_eq!(session.mode, DebugMode::Running);
    assert_eq!(session.cycle(&mut gb), Ok(4));
    assert_eq!(gb.cpu.regs.pc, 0xC002);
    assert_eq!(session.mode, DebugMode::Repl);
    session.mode = DebugMode::Running;
    session.check_breakpoints(0xC003);
    assert_eq!(session.mode, DebugMode::Running);
    session.check_breakpoints(0xC002);
    assert_eq!(session.mode, DebugMode::Repl);
}

#[test]
fn step_runs_the_step_distance() {
    let mut gb = looping_machine();
    let mut session = Session::new();
    session.step_distance = 6;
    session.mode = DebugMode::Stepping;
    assert_eq!(session.step(&mut gb), 6);
    assert_eq!(session.mode, DebugMode::Repl);
    assert_eq!(gb.cpu.regs.b, 4);
    assert_eq!(gb.cpu.regs.pc, 0xC000);

    let mut gb = looping_machine();
    gb.cpu.regs.pc = 0xC004;
    assert_eq!(session.step(&mut gb), 1);
    assert_eq!(gb.cpu.regs.pc, 0xC005);

    session.step_distance = 0;
    assert_eq!(session.step(&mut gb), 0);
    assert_eq!(gb.cpu.regs.pc, 0xC005);
}

#[test]
fn the_registers_view() {
    let mut regs = Registers::new();
    regs.set_bc(0x1234);
    regs.set_de(0x5678);
    regs.set_hl(0x9ABC);
    regs.set_af(0xDEF0);
    regs.pc = 0x0150;
    assert_eq!(
        registers_report(&regs),
        vec![
            "-----8-bit Registers-----",
            "B: 12 | C: 34 || BC: 1234",
            "D: 56 | E: 78 || DE: 5678",
            "H: 9A | L: BC || HL: 9ABC",
            "A: DE | F: F0 || AF: DEF0",
            "----Address Registers----",
            "  PC: 0150 | SP: FFFE",
            "----------Flags----------",
            "Z: 1 | N: 1 | H: 1 | C: 1",
        ]
    );
}

#[test]
fn the_memory_view_shows_whole_rows() {
    let mut gb = looping_machine();
    for i in 0..32u16 {
        gb.mmu.write(0xC100 + i, i as u8);
    }
    assert_eq!(
        memory_rows(&gb.mmu, 0xC105, 0xC105),
        vec!["0xC100 | 00 01 02 03 04 05 06 07 08 09 0A 0B 0C 0D 0E 0F"]
    );
    assert_eq!(
        memory_rows(&gb.mmu, 0xC10F, 0xC110),
        vec![
            "0xC100 | 00 01 02 03 04 05 06 07 08 09 0A 0B 0C 0D 0E 0F",
            "0xC110 | 10 11 12 13 14 15 16 17 18 19 1A 1B 1C 1D 1E 1F",
        ]
    );
    assert_eq!(memory_rows(&gb.mmu, 0xC110, 0xC100), Vec::<String>::new());
    assert_eq!(memory_rows(&gb.mmu, 0xFFF0, 0xFFFF).len(), 1);
    assert_eq!(memory_rows(&gb.mmu, 0x0000, 0xFFFF).len(), 0x1000);
}
