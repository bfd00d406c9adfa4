//! The commands of the debugger prompt and how a line of input is read as
//! one of them.

use vstd::prelude::*;
use vstd::string::StrSliceExecFns;

verus! {

/// A command of the debugger prompt.
#[derive(Clone, Copy, Debug, PartialEq, Eq, Structural)]
pub enum DebugCommand {
    /// `quit` or `q`: leave the debugger.
    Quit,
    /// `reset`: reset the processor.
    Reset,
    /// `set a XX`: put a value into A.
    SetA(u8),
    /// `d`: show the state of the processor.
    Dump,
    /// `mem 0xADDR`: show a byte of memory.
    ReadMemory(u16),
    /// `memset 0xADDR 0xVV`: write a byte of memory.
    WriteMemory(u16, u8),
    /// `step` or `n`: execute one instruction and come back to the prompt.
    Step,
    /// `c`, or anything that starts with `cont`: run on.
    Continue,
    /// `m`: switch breaking on a mismatch on or off.
    ToggleMismatch,
    /// `b`: list the breakpoints.
    ListBreakpoints,
    /// `rb N`: remove the breakpoint with number N.
    RemoveBreakpoint(usize),
    /// A command whose arguments are missing or are no numbers in range.
    Invalid,
    /// A line that is no command: the prompt passes over it.
    Nothing,
}

/// The value of `c` as a digit in `radix`, if it is one: `0` to `9`, then
/// letters in either case.
pub open spec fn digit_value(c: char, radix: nat) -> Option<nat> {
    let value: int = if '0' <= c <= '9' {
        c as int - '0' as int
    } else if 'a' <= c <= 'z' {
        c as int - 'a' as int + 10
    } else if 'A' <= c <= 'Z' {
        c as int - 'A' as int + 10
    } else {
        radix as int
    };
    if value < radix {
        Some(value as nat)
    } else {
        None
    }
}

/// Whether every character of `text` is a digit in `radix`.
pub open spec fn all_digits(text: Seq<char>, radix: nat) -> bool {
    forall|i: int| 0 <= i < text.len() ==> (#[trigger] digit_value(text[i], radix)).is_some()
}

/// The number that the digits of `text` write in `radix`.
pub open spec fn digits_value(text: Seq<char>, radix: nat) -> nat
    decreases text.len(),
{
    if text.len() == 0 {
        0
    } else {
        digits_value(text.drop_last(), radix) * radix + match digit_value(text.last(), radix) {
            Some(value) => value,
            None => 0,
        }
    }
}

/// The digits of a number: the text without a leading plus sign.
pub open spec fn unsigned_digits(text: Seq<char>) -> Seq<char> {
    if text.len() > 0 && text[0] == '+' {
        text.subrange(1, text.len() as int)
    } else {
        text
    }
}

/// The number that `text` writes in `radix`: an optional plus sign and at
/// least one digit, and nothing else; and no number above `limit`.
pub open spec fn number(text: Seq<char>, radix: nat, limit: nat) -> Option<nat> {
    let digits = unsigned_digits(text);
    if digits.len() > 0 && all_digits(digits, radix) && digits_value(digits, radix) <= limit {
        Some(digits_value(digits, radix))
    } else {
        None
    }
}

/// The index of the first space of `text` at or after `from`, or the length
/// of `text` if there is none.
pub open spec fn space_from(text: Seq<char>, from: int) -> int
    decreases text.len() - from,
{
    if from < 0 || from >= text.len() {
        text.len() as int
    } else if text[from] == ' ' {
        from
    } else {
        space_from(text, from + 1)
    }
}

/// The first word of `text` from `from` on: what stands before the next
/// space.
pub open spec fn word_at(text: Seq<char>, from: int) -> Seq<char> {
    text.subrange(from, space_from(text, from))
}

/// Whether `text` starts with `prefix`.
pub open spec fn starts_with(text: Seq<char>, prefix: Seq<char>) -> bool {
    prefix.len() <= text.len() && text.subrange(0, prefix.len() as int) == prefix
}

/// `set`: the first argument names the register, and only A can be set; the
/// second is its value in hexadecimal.
pub open spec fn set_command(text: Seq<char>, from: int) -> DebugCommand {
    let end = space_from(text, from);
    if word_at(text, from) != "a"@ {
        DebugCommand::Nothing
    } else if end >= text.len() {
        DebugCommand::Invalid
    } else {
        match number(word_at(text, end + 1), 16, 0xFF) {
            Some(value) => DebugCommand::SetA(value as u8),
            None => DebugCommand::Invalid,
        }
    }
}

/// `mem`: the argument is an address, written as `0x` and hexadecimal digits.
pub open spec fn mem_command(text: Seq<char>, from: int) -> DebugCommand {
    let first = word_at(text, from);
    if !starts_with(first, "0x"@) {
        DebugCommand::Nothing
    } else {
        match number(first.subrange(2, first.len() as int), 16, 0xFFFF) {
            Some(address) => DebugCommand::ReadMemory(address as u16),
            None => DebugCommand::Invalid,
        }
    }
}

/// `memset`: the first argument is an address, written as `0x` and
/// hexadecimal digits; the second is the byte, in hexadecimal behind two
/// characters that are passed over.
pub open spec fn memset_command(text: Seq<char>, from: int) -> DebugCommand {
    let end = space_from(text, from);
    let first = word_at(text, from);
    if !starts_with(first, "0x"@) {
        DebugCommand::Nothing
    } else if end >= text.len() {
        DebugCommand::Invalid
    } else {
        let second = word_at(text, end + 1);
        if second.len() < 2 {
            DebugCommand::Invalid
        } else {
            match (
                number(first.subrange(2, first.len() as int), 16, 0xFFFF),
                number(second.subrange(2, second.len() as int), 16, 0xFF),
            ) {
                (Some(address), Some(value)) => DebugCommand::WriteMemory(
                    address as u16,
                    value as u8,
                ),
                _ => DebugCommand::Invalid,
            }
        }
    }
}

/// `rb`: the argument is the number of a breakpoint, in decimal; one that
/// starts with `0x` is passed over.
pub open spec fn remove_command(text: Seq<char>, from: int) -> DebugCommand {
    let first = word_at(text, from);
    if starts_with(first, "0x"@) {
        DebugCommand::Nothing
    } else {
        match number(first, 10, usize::MAX as nat) {
            Some(index) => DebugCommand::RemoveBreakpoint(index as usize),
            None => DebugCommand::Invalid,
        }
    }
}

/// The command that the line `text` stands for.
pub open spec fn command_of(text: Seq<char>) -> DebugCommand {
    if text == "quit"@ || text == "q"@ {
        DebugCommand::Quit
    } else if text == "reset"@ {
        DebugCommand::Reset
    } else if starts_with(text, "set "@) {
        set_command(text, 4)
    } else if text == "d"@ {
        DebugCommand::Dump
    } else if starts_with(text, "mem "@) {
        mem_command(text, 4)
    } else if starts_with(text, "memset "@) {
        memset_command(text, 7)
    } else if text == "step"@ || text == "n"@ {
        DebugCommand::Step
    } else if text == "c"@ || starts_with(text, "cont"@) {
        DebugCommand::Continue
    } else if text == "m"@ {
        DebugCommand::ToggleMismatch
    } else if text == "b"@ {
        DebugCommand::ListBreakpoints
    } else if starts_with(text, "rb "@) {
        remove_command(text, 3)
    } else {
        DebugCommand::Nothing
    }
}

/// The characters of `text`.
pub fn chars_of(text: &str) -> (chars: Vec<char>)
    ensures
        chars@ == text@,
{
    let count = text.unicode_len();
    let mut chars: Vec<char> = Vec::new();
    let mut index: usize = 0;
    while index < count
        invariant
            index <= count,
            count == text@.len(),
            chars@ == text@.subrange(0, index as int),
        decreases count - index,
    {
        chars.push(text.get_char(index));
        index = index + 1;
        assert(chars@ =~= text@.subrange(0, index as int));
    }
    assert(text@.subrange(0, count as int) =~= text@);
    chars
}

/// The value of `c` as a digit in `radix`.
pub fn digit_of(c: char, radix: u8) -> (digit: Option<u8>)
    requires
        radix <= 36,
    ensures
        match digit {
            Some(value) => digit_value(c, radix as nat) == Some(value as nat) && value < radix,
            None => digit_value(c, radix as nat).is_none(),
        },
{
    let code = c as u32;
    let value: u32 = if '0' <= c && c <= '9' {
        code - '0' as u32
    } else if 'a' <= c && c <= 'z' {
        code - 'a' as u32 + 10
    } else if 'A' <= c && c <= 'Z' {
        code - 'A' as u32 + 10
    } else {
        radix as u32
    };
    if value < radix as u32 {
        Some(value as u8)
    } else {
        None
    }
}

/// With more digits a number does not get smaller.
pub proof fn lemma_digits_value_grows(text: Seq<char>, radix: nat, count: int)
    requires
        radix >= 1,
        0 <= count <= text.len(),
    ensures
        digits_value(text.subrange(0, count), radix) <= digits_value(text, radix),
    decreases text.len() - count,
{
    if count < text.len() {
        let longer = text.subrange(0, count + 1);
        assert(longer.drop_last() =~= text.subrange(0, count));
        assert(digits_value(longer, radix) >= digits_value(text.subrange(0, count), radix) * radix)
            by (nonlinear_arith)
            requires
                digits_value(longer, radix) == digits_value(text.subrange(0, count), radix)
                    * radix + match digit_value(longer.last(), radix) {
                    Some(value) => value,
                    None => 0,
                },
        ;
        assert(digits_value(text.subrange(0, count), radix) * radix >= digits_value(
            text.subrange(0, count),
            radix,
        )) by (nonlinear_arith)
            requires
                radix >= 1,
        ;
        lemma_digits_value_grows(text, radix, count + 1);
    } else {
        assert(text.subrange(0, count) =~= text);
    }
}

/// Reads the characters of `chars` from `from` up to `to` as a number in
/// `radix` that is no larger than `limit`.
pub fn parse_number(chars: &Vec<char>, from: usize, to: usize, radix: u8, limit: u64) -> (value:
    Option<u64>)
    requires
        from <= to <= chars@.len(),
        2 <= radix <= 36,
    ensures
        match value {
            Some(value) => number(chars@.subrange(from as int, to as int), radix as nat, limit as nat)
                == Some(value as nat),
            None => number(
                chars@.subrange(from as int, to as int),
                radix as nat,
                limit as nat,
            ).is_none(),
        },
{
    let ghost text = chars@.subrange(from as int, to as int);
    let start = if from < to && chars[from] == '+' {
        from + 1
    } else {
        from
    };
    let ghost digits = unsigned_digits(text);
    assert(digits =~= chars@.subrange(start as int, to as int)) by {
        if from < to {
            assert(text[0] == chars@[from as int]);
        }
    }
    if start == to {
        return None;
    }
    let mut value: u64 = 0;
    let mut index = start;
    assert(digits.subrange(0, 0) =~= Seq::<char>::empty());
    while index < to
        invariant
            start <= index <= to <= chars@.len(),
            2 <= radix <= 36,
            from <= start,
            digits == chars@.subrange(start as int, to as int),
            digits == unsigned_digits(chars@.subrange(from as int, to as int)),
            value <= limit,
            value == digits_value(digits.subrange(0, index - start), radix as nat),
            all_digits(digits.subrange(0, index - start), radix as nat),
        decreases to - index,
    {
        let ghost shorter = digits.subrange(0, index - start);
        let ghost longer = digits.subrange(0, index - start + 1);
        assert(longer.drop_last() =~= shorter);
        assert(longer.last() == chars@[index as int]);
        match digit_of(chars[index], radix) {
            None => {
                assert(!all_digits(digits, radix as nat)) by {
                    assert(digits[index - start] == chars@[index as int]);
                }
                return None;
            },
            Some(digit) => {
                assert(value * radix <= 0xFFFF_FFFF_FFFF_FFFF * 36) by (nonlinear_arith)
                    requires
                        value <= 0xFFFF_FFFF_FFFF_FFFF,
                        radix <= 36,
                ;
                let next: u128 = value as u128 * (radix as u128) + digit as u128;
                assert(next == digits_value(longer, radix as nat));
                if next > limit as u128 {
                    proof {
                        lemma_digits_value_grows(digits, radix as nat, index - start + 1);
                    }
                    return None;
                }
                assert(all_digits(longer, radix as nat)) by {
                    assert forall|i: int| 0 <= i < longer.len() implies (#[trigger] digit_value(
                        longer[i],
                        radix as nat,
                    )).is_some() by {
                        if i < shorter.len() {
                            assert(longer[i] == shorter[i]);
                        }
                    }
                }
                value = next as u64;
            },
        }
        index = index + 1;
    }
    assert(digits.subrange(0, to - start) =~= digits);
    Some(value)
}

/// The index of the first space at or after `from`.
pub fn find_space(chars: &Vec<char>, from: usize) -> (end: usize)
    requires
        from <= chars@.len(),
    ensures
        end == space_from(chars@, from as int),
        from <= end <= chars@.len(),
{
    let mut index = from;
    while index < chars.len()
        invariant
            from <= index <= chars@.len(),
            space_from(chars@, from as int) == space_from(chars@, index as int),
        decreases chars@.len() - index,
    {
        if chars[index] == ' ' {
            return index;
        }
        index = index + 1;
    }
    index
}

/// Whether the characters of `chars` from `from` on start with `prefix`.
pub fn has_prefix(chars: &Vec<char>, from: usize, to: usize, prefix: &Vec<char>) -> (found: bool)
    requires
        from <= to <= chars@.len(),
    ensures
        found == starts_with(chars@.subrange(from as int, to as int), prefix@),
{
    if prefix.len() > to - from {
        return false;
    }
    let ghost text = chars@.subrange(from as int, to as int);
    let mut index: usize = 0;
    while index < prefix.len()
        invariant
            index <= prefix@.len() <= to - from,
            from <= to <= chars@.len(),
            text == chars@.subrange(from as int, to as int),
            forall|k: int| 0 <= k < index ==> text[k] == prefix@[k],
        decreases prefix@.len() - index,
    {
        if chars[from + index] != prefix[index] {
            assert(text.subrange(0, prefix@.len() as int)[index as int] != prefix@[index as int]);
            return false;
        }
        index = index + 1;
    }
    assert(text.subrange(0, prefix@.len() as int) =~= prefix@);
    true
}

/// Whether the characters of `chars` are those of `word`.
pub fn is_word(chars: &Vec<char>, word: &Vec<char>) -> (same: bool)
    ensures
        same == (chars@ == word@),
{
    if chars.len() != word.len() {
        return false;
    }
    assert(chars@.subrange(0, chars@.len() as int) =~= chars@);
    let same = has_prefix(chars, 0, chars.len(), word);
    assert(same ==> chars@ =~= word@);
    same
}

fn hex_prefix() -> (prefix: Vec<char>)
    ensures
        prefix@ == "0x"@,
        prefix@.len() == 2,
{
    proof {
        reveal_strlit("0x");
    }
    chars_of("0x")
}

fn parse_set(chars: &Vec<char>) -> (command: DebugCommand)
    requires
        chars@.len() >= 4,
    ensures
        command == set_command(chars@, 4),
{
    let end = find_space(chars, 4);
    let ghost first = word_at(chars@, 4);
    proof {
        reveal_strlit("a");
    }
    if !(end == 5 && chars[4] == 'a') {
        assert(first != "a"@) by {
            assert("a"@.len() == 1 && "a"@[0] == 'a');
            assert(first.len() == end - 4);
            if end == 5 {
                assert(first[0] == chars@[4]);
            }
        }
        return DebugCommand::Nothing;
    }
    assert(first =~= "a"@);
    if end >= chars.len() {
        return DebugCommand::Invalid;
    }
    let second_end = find_space(chars, end + 1);
    match parse_number(chars, end + 1, second_end, 16, 0xFF) {
        Some(value) => DebugCommand::SetA(value as u8),
        None => DebugCommand::Invalid,
    }
}

fn parse_mem(chars: &Vec<char>) -> (command: DebugCommand)
    requires
        chars@.len() >= 4,
    ensures
        command == mem_command(chars@, 4),
{
    let end = find_space(chars, 4);
    let prefix = hex_prefix();
    if !has_prefix(chars, 4, end, &prefix) {
        return DebugCommand::Nothing;
    }
    let ghost first = word_at(chars@, 4);
    assert(first.subrange(2, first.len() as int) =~= chars@.subrange(6, end as int));
    match parse_number(chars, 6, end, 16, 0xFFFF) {
        Some(address) => DebugCommand::ReadMemory(address as u16),
        None => DebugCommand::Invalid,
    }
}

fn parse_memset(chars: &Vec<char>) -> (command: DebugCommand)
    requires
        chars@.len() >= 7,
    ensures
        command == memset_command(chars@, 7),
{
    let end = find_space(chars, 7);
    let prefix = hex_prefix();
    if !has_prefix(chars, 7, end, &prefix) {
        return DebugCommand::Nothing;
    }
    if end >= chars.len() {
        return DebugCommand::Invalid;
    }
    let second_end = find_space(chars, end + 1);
    if second_end - (end + 1) < 2 {
        return DebugCommand::Invalid;
    }
    let ghost first = word_at(chars@, 7);
    let ghost second = word_at(chars@, end + 1);
    assert(first.subrange(2, first.len() as int) =~= chars@.subrange(9, end as int));
    assert(second.subrange(2, second.len() as int) =~= chars@.subrange(
        end + 3,
        second_end as int,
    ));
    let address = parse_number(chars, 9, end, 16, 0xFFFF);
    let value = parse_number(chars, end + 3, second_end, 16, 0xFF);
    match (address, value) {
        (Some(address), Some(value)) => DebugCommand::WriteMemory(address as u16, value as u8),
        _ => DebugCommand::Invalid,
    }
}

fn parse_remove(chars: &Vec<char>) -> (command: DebugCommand)
    requires
        chars@.len() >= 3,
    ensures
        command == remove_command(chars@, 3),
{
    let end = find_space(chars, 3);
    let prefix = hex_prefix();
    if has_prefix(chars, 3, end, &prefix) {
        return DebugCommand::Nothing;
    }
    match parse_number(chars, 3, end, 10, usize::MAX as u64) {
        Some(index) => DebugCommand::RemoveBreakpoint(index as usize),
        None => DebugCommand::Invalid,
    }
}

impl DebugCommand {
    /// Reads a line of input as a command.
    pub fn parse(line: &str) -> (command: DebugCommand)
        ensures
            command == command_of(line@),
    {
        let chars = chars_of(line);
        let count = chars.len();
        proof {
            reveal_strlit("set ");
            reveal_strlit("mem ");
            reveal_strlit("memset ");
            reveal_strlit("rb ");
            assert(chars@.subrange(0, count as int) =~= chars@);
        }
        if is_word(&chars, &chars_of("quit")) || is_word(&chars, &chars_of("q")) {
            DebugCommand::Quit
        } else if is_word(&chars, &chars_of("reset")) {
            DebugCommand::Reset
        } else if has_prefix(&chars, 0, count, &chars_of("set ")) {
            parse_set(&chars)
        } else if is_word(&chars, &chars_of("d")) {
            DebugCommand::Dump
        } else if has_prefix(&chars, 0, count, &chars_of("mem ")) {
            parse_mem(&chars)
        } else if has_prefix(&chars, 0, count, &chars_of("memset ")) {
            parse_memset(&chars)
        } else if is_word(&chars, &chars_of("step")) || is_word(&chars, &chars_of("n")) {
            DebugCommand::Step
        } else if is_word(&chars, &chars_of("c")) || has_prefix(
            &chars,
            0,
            count,
            &chars_of("cont"),
        ) {
            DebugCommand::Continue
        } else if is_word(&chars, &chars_of("m")) {
            DebugCommand::ToggleMismatch
        } else if is_word(&chars, &chars_of("b")) {
            DebugCommand::ListBreakpoints
        } else if has_prefix(&chars, 0, count, &chars_of("rb ")) {
            parse_remove(&chars)
        } else {
            DebugCommand::Nothing
        }
    }
}

/// Reads an address given as two characters, which are passed over, and
/// hexadecimal digits, as the command line gives breakpoints.
pub fn parse_address(text: &str) -> (address: Option<u16>)
    ensures
        address == (if text@.len() < 2 {
            None
        } else {
            match number(text@.subrange(2, text@.len() as int), 16, 0xFFFF) {
                Some(value) => Some(value as u16),
                None => None,
            }
        }),
{
    let chars = chars_of(text);
    if chars.len() < 2 {
        return None;
    }
    match parse_number(&chars, 2, chars.len(), 16, 0xFFFF) {
        Some(value) => Some(value as u16),
        None => None,
    }
}

} // verus!
