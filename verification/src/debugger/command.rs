//! The commands of the debugger prompt and their arguments.
//!
//! A line is split at its spaces; the first word names the command, the
//! words after it are its arguments. Numbers are decimal, or hexadecimal
//! behind the prefix `0x`.

use vstd::prelude::*;
use crate::text::{chars_of, is_word};

verus! {

/// What `show` can show.
#[derive(Clone, Copy, Debug, PartialEq, Eq, Structural)]
pub enum ShowType {
    /// The memory from the first address to the second.
    Memory(u16, u16),
    Tracepoints,
    Registers,
}

/// What `set` can set.
#[derive(Clone, Copy, Debug, PartialEq, Eq, Structural)]
pub enum SetType {
    /// A byte of memory: the address and the value.
    Memory(usize, u8),
    /// A breakpoint at an address.
    Breakpoint(usize),
}

/// A command of the prompt.
#[derive(Clone, Copy, Debug, PartialEq, Eq, Structural)]
pub enum Command {
    Show(ShowType),
    Assign(SetType),
    /// Run so many instructions.
    Step(u32),
    Restart,
    Resume,
    Quit,
    Help,
}

/// The value of the digit `c` in the base `radix`, 10 or 16, if it is one.
pub open spec fn digit_value(c: char, radix: int) -> Option<int> {
    if '0' <= c <= '9' {
        Some(c as int - '0' as int)
    } else if radix == 16 && 'a' <= c <= 'f' {
        Some(c as int - 'a' as int + 10)
    } else if radix == 16 && 'A' <= c <= 'F' {
        Some(c as int - 'A' as int + 10)
    } else {
        None
    }
}

/// The number that the digits `digits` spell in the base `radix`; none
/// for no digits and where a character is no digit.
pub open spec fn number(digits: Seq<char>, radix: int) -> Option<int>
    decreases digits.len(),
{
    if digits.len() == 0 {
        None
    } else {
        match digit_value(digits.last(), radix) {
            None => None,
            Some(d) => if digits.len() == 1 {
                Some(d)
            } else {
                match number(digits.drop_last(), radix) {
                    None => None,
                    Some(v) => Some(v * radix + d),
                }
            },
        }
    }
}

/// The number that `text` spells in the base `radix`: digits, with `+` in
/// front of them or without.
pub open spec fn unsigned(text: Seq<char>, radix: int) -> Option<int> {
    if text.len() > 0 && text[0] == '+' {
        number(text.skip(1), radix)
    } else {
        number(text, radix)
    }
}

/// The number that `text` spells in the base `radix`, if it spells one
/// that is at most `limit`.
pub open spec fn bounded(text: Seq<char>, radix: int, limit: int) -> Option<int> {
    match unsigned(text, radix) {
        Some(v) => if v <= limit {
            Some(v)
        } else {
            None
        },
        None => None,
    }
}

/// The value of the digit `c` in the base `radix`.
fn digit_of(c: char, radix: u32) -> (res: Option<u32>)
    requires
        radix == 10 || radix == 16,
    ensures
        match digit_value(c, radix as int) {
            Some(d) => res == Some(d as u32) && d < radix,
            None => res is None,
        },
{
    if '0' <= c && c <= '9' {
        Some(c as u32 - '0' as u32)
    } else if radix == 16 && 'a' <= c && c <= 'f' {
        Some(c as u32 - 'a' as u32 + 10)
    } else if radix == 16 && 'A' <= c && c <= 'F' {
        Some(c as u32 - 'A' as u32 + 10)
    } else {
        None
    }
}

/// Reads `text` as a number in the base `radix` that is at most `limit`.
pub fn parse_bounded(text: &Vec<char>, radix: u32, limit: u32) -> (res: Option<u32>)
    requires
        radix == 10 || radix == 16,
    ensures
        match bounded(text@, radix as int, limit as int) {
            Some(v) => res == Some(v as u32) && 0 <= v <= limit,
            None => res is None,
        },
{
    let start: usize = if text.len() > 0 && text[0] == '+' {
        1
    } else {
        0
    };
    let ghost digits = text@.skip(start as int);
    proof {
        assert(text@.skip(0) =~= text@);
        assert(unsigned(text@, radix as int) == number(digits, radix as int));
    }
    if start == text.len() {
        return None;
    }
    let mut value: u64 = 0;
    let mut over = false;
    let mut i: usize = start;
    while i < text.len()
        invariant
            radix == 10 || radix == 16,
            start <= i <= text@.len(),
            start < text@.len(),
            digits == text@.skip(start as int),
            unsigned(text@, radix as int) == number(digits, radix as int),
            value <= limit,
            i > start ==> (number(digits.take(i - start), radix as int) matches Some(v) && (if over {
                v > limit
            } else {
                v == value
            })),
            i == start ==> value == 0 && !over,
        decreases text@.len() - i,
    {
        let ghost before = digits.take(i - start);
        let ghost now = digits.take(i - start + 1);
        assert(now.drop_last() =~= before);
        assert(now.last() == text@[i as int]);
        match digit_of(text[i], radix) {
            None => {
                proof {
                    lemma_bad_digit(digits, i - start, radix as int);
                }
                return None;
            },
            Some(d) => {
                if !over {
                    let next: u64 = value * (radix as u64) + d as u64;
                    if next > limit as u64 {
                        over = true;
                    } else {
                        value = next;
                    }
                } else {
                    assert(number(before, radix as int)->Some_0 * radix + d > limit) by (nonlinear_arith)
                        requires
                            number(before, radix as int)->Some_0 > limit,
                            radix >= 10,
                            d >= 0,
                            limit >= 0,
                    ;
                }
            },
        }
        i += 1;
    }
    assert(digits.take(digits.len() as int) =~= digits);
    if over {
        None
    } else {
        Some(value as u32)
    }
}

/// A character that is no digit spoils the number, wherever it stands.
pub proof fn lemma_bad_digit(digits: Seq<char>, at: int, radix: int)
    requires
        0 <= at < digits.len(),
        digit_value(digits[at], radix) is None,
    ensures
        number(digits, radix) is None,
    decreases digits.len(),
{
    if at < digits.len() - 1 {
        lemma_bad_digit(digits.drop_last(), at, radix);
    }
}

/// The words of a command line as sequences of characters.
pub open spec fn texts(parts: &Vec<&str>) -> Seq<Seq<char>> {
    Seq::new(parts@.len(), |i: int| parts@[i]@)
}

/// The message of a failure as a sequence of characters.
pub open spec fn reply<T>(res: Result<T, &'static str>) -> Result<T, Seq<char>> {
    match res {
        Ok(value) => Ok(value),
        Err(message) => Err(message@),
    }
}

/// Whether `text` starts with the prefix `0x` of a hexadecimal number.
pub open spec fn hex_prefixed(text: Seq<char>) -> bool {
    text.len() >= 2 && text[0] == '0' && text[1] == 'x'
}

/// The number that `text` spells, if it is at most `limit`: hexadecimal
/// behind the prefix `0x`, decimal without it.
pub open spec fn numeral(text: Seq<char>, limit: int) -> Option<int> {
    if hex_prefixed(text) {
        bounded(text.skip(2), 16, limit)
    } else {
        bounded(text, 10, limit)
    }
}

/// Reads `text` as a number that is at most `limit`, decimal or
/// hexadecimal behind `0x`.
pub fn parse_numeral(text: &Vec<char>, limit: u32) -> (res: Option<u32>)
    ensures
        match numeral(text@, limit as int) {
            Some(v) => res == Some(v as u32) && 0 <= v <= limit,
            None => res is None,
        },
{
    if text.len() >= 2 && text[0] == '0' && text[1] == 'x' {
        let mut digits: Vec<char> = Vec::new();
        let mut i: usize = 2;
        while i < text.len()
            invariant
                2 <= i <= text@.len(),
                digits@ == text@.subrange(2, i as int),
            decreases text@.len() - i,
        {
            digits.push(text[i]);
            assert(digits@ =~= text@.subrange(2, i + 1));
            i += 1;
        }
        assert(digits@ =~= text@.skip(2));
        parse_bounded(&digits, 16, limit)
    } else {
        parse_bounded(text, 10, limit)
    }
}

/// The 16-bit number that `text` spells. The failure says whether a
/// hexadecimal or a decimal number was tried.
pub open spec fn u16_of(text: Seq<char>) -> Result<u16, Seq<char>> {
    match numeral(text, 0xFFFF) {
        Some(v) => Ok(v as u16),
        None => if hex_prefixed(text) {
            Err("Could not convert to u16 from hex string."@)
        } else {
            Err("Could not convert to u16 from string."@)
        },
    }
}

/// Reads a 16-bit number, decimal or hexadecimal behind `0x`.
pub fn str_to_u16(string: &str) -> (res: Result<u16, &'static str>)
    ensures
        reply(res) == u16_of(string@),
{
    let text = chars_of(string);
    match parse_numeral(&text, 0xFFFF) {
        Some(v) => Ok(v as u16),
        None => if text.len() >= 2 && text[0] == '0' && text[1] == 'x' {
            Err("Could not convert to u16 from hex string.")
        } else {
            Err("Could not convert to u16 from string.")
        },
    }
}

/// `step N`: the argument is the number of instructions.
pub open spec fn step_of(parts: Seq<Seq<char>>) -> Result<Command, Seq<char>> {
    if parts.len() == 0 {
        Err("Invalid arguments for 'step'."@)
    } else {
        match numeral(parts[0], 0xFFFF_FFFF) {
            Some(n) => Ok(Command::Step(n as u32)),
            None => Err("Invalid arguments for 'step'."@),
        }
    }
}

pub fn build_step(parts: &Vec<&str>) -> (res: Result<Command, &'static str>)
    ensures
        reply(res) == step_of(texts(parts)),
{
    if parts.len() == 0 {
        return Err("Invalid arguments for 'step'.");
    }
    match parse_numeral(&chars_of(parts[0]), 0xFFFF_FFFF) {
        Some(val) => Ok(Command::Step(val)),
        None => Err("Invalid arguments for 'step'."),
    }
}

/// The range of `show mem LO [HI]`, from the words after `mem`: one
/// address stands for the range of that address alone.
pub open spec fn memory_type_of(parts: Seq<Seq<char>>) -> Result<ShowType, Seq<char>> {
    if parts.len() == 0 {
        Err("Invalid argument for memory type."@)
    } else {
        match u16_of(parts[0]) {
            Err(_) => Err("Invalid argument for memory type."@),
            Ok(low) => if parts.len() > 1 {
                match u16_of(parts[1]) {
                    Err(_) => Err("Invalid argument for memory type."@),
                    Ok(high) => Ok(ShowType::Memory(low, high)),
                }
            } else {
                Ok(ShowType::Memory(low, low))
            },
        }
    }
}

/// Reads the range of `show mem` from the words `from` on.
pub fn _build_memory_type(parts: &Vec<&str>, from: usize) -> (res: Result<ShowType, &'static str>)
    requires
        from <= parts@.len(),
    ensures
        reply(res) == memory_type_of(texts(parts).skip(from as int)),
{
    if parts.len() == from {
        return Err("Invalid argument for memory type.");
    }
    let loc1 = match str_to_u16(parts[from]) {
        Ok(val) => val,
        Err(_) => {
            return Err("Invalid argument for memory type.");
        },
    };
    let mut loc2: u16 = loc1;
    if parts.len() - from > 1 {
        loc2 =
        match str_to_u16(parts[from + 1]) {
            Ok(val) => val,
            Err(_) => {
                return Err("Invalid argument for memory type.");
            },
        };
    }
    Ok(ShowType::Memory(loc1, loc2))
}

/// Whether `word` is one of the names of the registers view.
pub open spec fn names_registers(word: Seq<char>) -> bool {
    word == "regs"@ || word == "registers"@
}

/// Whether `word` is one of the names of the tracepoints view.
pub open spec fn names_tracepoints(word: Seq<char>) -> bool {
    word == "tracepoints"@ || word == "tps"@ || word == "traces"@
}

/// Whether `word` is one of the names of memory.
pub open spec fn names_memory(word: Seq<char>) -> bool {
    word == "mem"@ || word == "memory"@
}

/// Whether `word` is one of the names of a breakpoint.
pub open spec fn names_breakpoint(word: Seq<char>) -> bool {
    word == "bp"@ || word == "breakpoint"@ || word == "break"@
}

/// `show WHAT ...`, from the words after `show`.
pub open spec fn show_of(parts: Seq<Seq<char>>) -> Result<Command, Seq<char>> {
    if parts.len() == 0 {
        Err("That is not a valid 'show' type."@)
    } else if names_registers(parts[0]) {
        Ok(Command::Show(ShowType::Registers))
    } else if names_tracepoints(parts[0]) {
        Ok(Command::Show(ShowType::Tracepoints))
    } else if names_memory(parts[0]) {
        match memory_type_of(parts.skip(1)) {
            Ok(range) => Ok(Command::Show(range)),
            Err(message) => Err(message),
        }
    } else {
        Err("That is not a valid 'show' type."@)
    }
}

pub fn build_show(parts: &Vec<&str>) -> (res: Result<Command, &'static str>)
    ensures
        reply(res) == show_of(texts(parts)),
{
    if parts.len() == 0 {
        return Err("That is not a valid 'show' type.");
    }
    let st = chars_of(parts[0]);
    if is_word(&st, "regs") || is_word(&st, "registers") {
        Ok(Command::Show(ShowType::Registers))
    } else if is_word(&st, "tracepoints") || is_word(&st, "tps") || is_word(&st, "traces") {
        Ok(Command::Show(ShowType::Tracepoints))
    } else if is_word(&st, "mem") || is_word(&st, "memory") {
        match _build_memory_type(parts, 1) {
            Ok(memtype) => Ok(Command::Show(memtype)),
            Err(err) => Err(err),
        }
    } else {
        Err("That is not a valid 'show' type.")
    }
}

/// `set mem ADDR VAL`, from the words after `set`: the value is the low
/// byte of the number given.
pub open spec fn memory_set_of(parts: Seq<Seq<char>>) -> Result<SetType, Seq<char>> {
    if parts.len() < 3 {
        Err("Set mem requires two arguments."@)
    } else {
        match u16_of(parts[1]) {
            Err(_) => Err("Invalid argument 1 for memory set."@),
            Ok(addr) => match u16_of(parts[2]) {
                Err(_) => Err("Invalid argument 2 for memory set."@),
                Ok(val) => Ok(SetType::Memory(addr as usize, (val % 256) as u8)),
            },
        }
    }
}

pub fn _build_memory_set(parts: &Vec<&str>) -> (res: Result<SetType, &'static str>)
    ensures
        reply(res) == memory_set_of(texts(parts)),
{
    if parts.len() < 3 {
        return Err("Set mem requires two arguments.");
    }
    let arg1 = match str_to_u16(parts[1]) {
        Ok(val) => val as usize,
        Err(_) => {
            return Err("Invalid argument 1 for memory set.");
        },
    };
    let arg2 = match str_to_u16(parts[2]) {
        Ok(val) => (val % 256) as u8,
        Err(_) => {
            return Err("Invalid argument 2 for memory set.");
        },
    };
    Ok(SetType::Memory(arg1, arg2))
}

/// `set bp ADDR`, from the words after `set`.
pub open spec fn breakpoint_of(parts: Seq<Seq<char>>) -> Result<SetType, Seq<char>> {
    if parts.len() < 2 {
        Err("Breakpoint requires an address argument."@)
    } else {
        match u16_of(parts[1]) {
            Ok(addr) => Ok(SetType::Breakpoint(addr as usize)),
            Err(_) => Err("Invalid argument for set type."@),
        }
    }
}

pub fn _build_breakpoint(parts: &Vec<&str>) -> (res: Result<SetType, &'static str>)
    ensures
        reply(res) == breakpoint_of(texts(parts)),
{
    if parts.len() < 2 {
        return Err("Breakpoint requires an address argument.");
    }
    match str_to_u16(parts[1]) {
        Ok(val) => Ok(SetType::Breakpoint(val as usize)),
        Err(_) => Err("Invalid argument for set type."),
    }
}

/// `set WHAT ...`, from the words after `set`.
pub open spec fn set_of(parts: Seq<Seq<char>>) -> Result<Command, Seq<char>> {
    if parts.len() == 0 {
        Err("Invalid argument for 'set'."@)
    } else if names_breakpoint(parts[0]) {
        match breakpoint_of(parts) {
            Ok(what) => Ok(Command::Assign(what)),
            Err(message) => Err(message),
        }
    } else if names_memory(parts[0]) || parts[0] == "m"@ {
        match memory_set_of(parts) {
            Ok(what) => Ok(Command::Assign(what)),
            Err(message) => Err(message),
        }
    } else {
        Err("Invalid argument for 'set'."@)
    }
}

pub fn build_set(parts: &Vec<&str>) -> (res: Result<Command, &'static str>)
    ensures
        reply(res) == set_of(texts(parts)),
{
    if parts.len() == 0 {
        return Err("Invalid argument for 'set'.");
    }
    let st = chars_of(parts[0]);
    if is_word(&st, "bp") || is_word(&st, "breakpoint") || is_word(&st, "break") {
        match _build_breakpoint(parts) {
            Ok(settype) => Ok(Command::Assign(settype)),
            Err(err) => Err(err),
        }
    } else if is_word(&st, "mem") || is_word(&st, "memory") || is_word(&st, "m") {
        match _build_memory_set(parts) {
            Ok(settype) => Ok(Command::Assign(settype)),
            Err(err) => Err(err),
        }
    } else {
        Err("Invalid argument for 'set'.")
    }
}

} // verus!
