use msx_emulator::components::cpu::{InternalState, Z80};
use msx_emulator::components::memory::Memory;
use msx_emulator::debugger::{chars_of, parse_address, parse_number, DebugCommand};
use msx_emulator::msx::Msx;
use msx_emulator::open_msx::{
    is_ok_result, is_reply_name, ReplyError, ReplyEvent, ReplyReader, Response,
};

fn start(name: &str, result: Option<&str>) -> ReplyEvent {
    ReplyEvent::Start { name: name.to_string(), result: result.map(|text| text.to_string()) }
}

fn end(name: &str) -> ReplyEvent {
    ReplyEvent::End { name: name.to_string() }
}

fn characters(text: &str) -> ReplyEvent {
    ReplyEvent::Characters(text.to_string())
}

fn feed_all(events: Vec<ReplyEvent>) -> ReplyReader {
    let mut reader = ReplyReader::new();
    for event in events {
        reader = reader.feed(event);
    }
    reader
}

#[test]
fn reply_with_ok_result() {
    let reader = feed_all(vec![
        ReplyEvent::Other,
        characters("noise"),
        start("log", Some("ok")),
        end("reply"),
        start("reply", Some("ok")),
        characters("12"),
        start("nested", None),
        characters("34"),
        end("nested"),
        ReplyEvent::Other,
        end("reply"),
    ]);
    assert!(reader.is_finished());
    match reader {
        ReplyReader::Done(Response::Success(data)) => assert_eq!(data, "1234"),
        other => panic!("unexpected {:?}", other),
    }
}

#[test]
fn reply_with_another_result() {
    let reader = feed_all(vec![start("reply", Some("nok")), characters("bad"), end("reply")]);
    match reader {
        ReplyReader::Done(Response::Failure(data)) => assert_eq!(data, "bad"),
        other => panic!("unexpected {:?}", other),
    }
    let reader = feed_all(vec![start("reply", Some("OK")), end("reply")]);
    assert!(matches!(reader, ReplyReader::Done(Response::Failure(_))));
}

#[test]
fn reply_without_result_fails() {
    let reader = feed_all(vec![start("reply", None), characters("x"), end("reply")]);
    assert!(reader.is_finished());
    assert!(matches!(reader, ReplyReader::Failed(ReplyError::ResultUndefined)));
}

#[test]
fn unfinished_reply() {
    let reader = feed_all(vec![start("reply", Some("ok")), characters("x")]);
    assert!(!reader.is_finished());
    assert!(!ReplyReader::new().is_finished());
    let reader = feed_all(vec![start("reply", Some("ok")), end("reply"), characters("late")]);
    match reader {
        ReplyReader::Done(Response::Success(data)) => assert_eq!(data, ""),
        other => panic!("unexpected {:?}", other),
    }
}

#[test]
fn response_as_result() {
    assert_eq!(Response::from_reply("ok", "7".to_string()).into_result(), Ok("7".to_string()));
    assert_eq!(Response::from_reply("", "7".to_string()).into_result(), Err("7".to_string()));
    assert!(is_ok_result("ok"));
    assert!(!is_ok_result("okay"));
    assert!(!is_ok_result("no"));
    assert!(is_reply_name("reply"));
    assert!(!is_reply_name("repl"));
    assert!(!is_reply_name("Reply"));
}

#[test]
fn observable_state() {
    let mut memory = Memory::new();
    memory.load_rom(0x0100, &[0x7E]);
    let mut cpu = Z80::new(memory);
    cpu.pc = 0x0100;
    cpu.a = 1;
    cpu.f = 2;
    cpu.b = 3;
    cpu.c = 4;
    cpu.d = 5;
    cpu.e = 6;
    cpu.set_hl(0xC000);
    cpu.memory.data[0xC000] = 0x99;
    assert_eq!(
        cpu.get_internal_state(),
        InternalState {
            pc: 0x0100,
            sp: 0xF000,
            a: 1,
            f: 2,
            b: 3,
            c: 4,
            d: 5,
            e: 6,
            h: 0xC0,
            l: 0x00,
            hl: 0xC000,
            hl_contents: 0x99,
            opcode: 0x7E,
        }
    );
}

#[test]
fn prompt_decision() {
    let mut msx = Msx::new();
    assert!(!msx.stops_for_prompt(false, false));
    assert!(msx.stops_for_prompt(false, true));
    assert!(!msx.stops_for_prompt(true, false));
    msx.break_on_mismatch = true;
    assert!(msx.stops_for_prompt(true, false));
    assert!(!msx.stops_for_prompt(false, false));
    msx.break_on_mismatch = false;
    msx.add_breakpoint(0x0000);
    assert!(msx.stops_for_prompt(false, false));
    msx.cpu.pc = 1;
    assert!(!msx.stops_for_prompt(false, false));
}

#[test]
fn program_listing_follows_instruction_lengths() {
    let mut msx = Msx::new();
    assert_eq!(msx.load_bios(&[0x3E, 0x05, 0xC3, 0x00, 0x10, 0x00]), Ok(()));
    let listing = msx.program_listing();
    assert_eq!(listing.len(), 101);
    assert_eq!(listing[0].pc, 0);
    assert_eq!(listing[0].name(), "LD A, n");
    assert_eq!(listing[1].pc, 2);
    assert_eq!(listing[1].name(), "JP nn");
    assert_eq!(listing[2].pc, 5);
    assert_eq!(listing[2].name(), "NOP");
    // The rest of memory holds 0xFF, which is RST 38H, one byte each.
    assert_eq!(listing[3].pc, 6);
    assert_eq!(listing[100].pc, 103);
    assert_eq!(listing[100].name(), "RST 38H");
}

#[test]
fn program_listing_stops_at_the_end_of_memory() {
    let mut msx = Msx::new();
    msx.cpu.pc = 0xFFFD;
    let listing = msx.program_listing();
    assert_eq!(listing.iter().map(|i| i.pc).collect::<Vec<u16>>(), vec![0xFFFD, 0xFFFE]);
    msx.cpu.pc = 0xFFFF;
    assert!(msx.program_listing().is_empty());
    msx.cpu.memory.data[0xFFFD] = 0xC3;
    msx.cpu.pc = 0xFFFC;
    let listing = msx.program_listing();
    assert_eq!(listing.iter().map(|i| i.pc).collect::<Vec<u16>>(), vec![0xFFFC, 0xFFFD]);
}

#[test]
fn commands_without_arguments() {
    assert_eq!(DebugCommand::parse("quit"), DebugCommand::Quit);
    assert_eq!(DebugCommand::parse("q"), DebugCommand::Quit);
    assert_eq!(DebugCommand::parse("reset"), DebugCommand::Reset);
    assert_eq!(DebugCommand::parse("d"), DebugCommand::Dump);
    assert_eq!(DebugCommand::parse("step"), DebugCommand::Step);
    assert_eq!(DebugCommand::parse("n"), DebugCommand::Step);
    assert_eq!(DebugCommand::parse("c"), DebugCommand::Continue);
    assert_eq!(DebugCommand::parse("cont"), DebugCommand::Continue);
    assert_eq!(DebugCommand::parse("continue"), DebugCommand::Continue);
    assert_eq!(DebugCommand::parse("m"), DebugCommand::ToggleMismatch);
    assert_eq!(DebugCommand::parse("b"), DebugCommand::ListBreakpoints);
    assert_eq!(DebugCommand::parse(""), DebugCommand::Nothing);
    assert_eq!(DebugCommand::parse("quit "), DebugCommand::Nothing);
    assert_eq!(DebugCommand::parse("Q"), DebugCommand::Nothing);
    assert_eq!(DebugCommand::parse("help"), DebugCommand::Nothing);
    assert_eq!(DebugCommand::parse("con"), DebugCommand::Nothing);
}

#[test]
fn set_command() {
    assert_eq!(DebugCommand::parse("set a 1F"), DebugCommand::SetA(0x1F));
    assert_eq!(DebugCommand::parse("set a ff"), DebugCommand::SetA(0xFF));
    assert_eq!(DebugCommand::parse("set a +7"), DebugCommand::SetA(0x07));
    assert_eq!(DebugCommand::parse("set a 000012 rest"), DebugCommand::SetA(0x12));
    assert_eq!(DebugCommand::parse("set a 100"), DebugCommand::Invalid);
    assert_eq!(DebugCommand::parse("set a 0x12"), DebugCommand::Invalid);
    assert_eq!(DebugCommand::parse("set a"), DebugCommand::Invalid);
    assert_eq!(DebugCommand::parse("set a "), DebugCommand::Invalid);
    assert_eq!(DebugCommand::parse("set a  12"), DebugCommand::Invalid);
    assert_eq!(DebugCommand::parse("set a +"), DebugCommand::Invalid);
    assert_eq!(DebugCommand::parse("set b 12"), DebugCommand::Nothing);
    assert_eq!(DebugCommand::parse("set "), DebugCommand::Nothing);
    assert_eq!(DebugCommand::parse("set"), DebugCommand::Nothing);
}

#[test]
fn memory_commands() {
    assert_eq!(DebugCommand::parse("mem 0xC000"), DebugCommand::ReadMemory(0xC000));
    assert_eq!(DebugCommand::parse("mem 0xffff and more"), DebugCommand::ReadMemory(0xFFFF));
    assert_eq!(DebugCommand::parse("mem 0x10000"), DebugCommand::Invalid);
    assert_eq!(DebugCommand::parse("mem 0x"), DebugCommand::Invalid);
    assert_eq!(DebugCommand::parse("mem 0xG"), DebugCommand::Invalid);
    assert_eq!(DebugCommand::parse("mem C000"), DebugCommand::Nothing);
    assert_eq!(DebugCommand::parse("mem "), DebugCommand::Nothing);
    assert_eq!(
        DebugCommand::parse("memset 0xC000 0x5A"),
        DebugCommand::WriteMemory(0xC000, 0x5A)
    );
    // The first two characters of the value are passed over, whatever they are.
    assert_eq!(DebugCommand::parse("memset 0x1 ##7"), DebugCommand::WriteMemory(0x0001, 0x07));
    assert_eq!(DebugCommand::parse("memset 0xC000 0x100"), DebugCommand::Invalid);
    assert_eq!(DebugCommand::parse("memset 0xC000 5"), DebugCommand::Invalid);
    assert_eq!(DebugCommand::parse("memset 0xC000 0x"), DebugCommand::Invalid);
    assert_eq!(DebugCommand::parse("memset 0xC000"), DebugCommand::Invalid);
    assert_eq!(DebugCommand::parse("memset 0xZZ 0x00"), DebugCommand::Invalid);
    assert_eq!(DebugCommand::parse("memset C000 0x00"), DebugCommand::Nothing);
}

#[test]
fn remove_breakpoint_command() {
    assert_eq!(DebugCommand::parse("rb 0"), DebugCommand::RemoveBreakpoint(0));
    assert_eq!(DebugCommand::parse("rb 12"), DebugCommand::RemoveBreakpoint(12));
    assert_eq!(DebugCommand::parse("rb 0012 x"), DebugCommand::RemoveBreakpoint(12));
    assert_eq!(
        DebugCommand::parse(&format!("rb {}", usize::MAX)),
        DebugCommand::RemoveBreakpoint(usize::MAX)
    );
    assert_eq!(DebugCommand::parse("rb 99999999999999999999999999"), DebugCommand::Invalid);
    assert_eq!(DebugCommand::parse("rb a"), DebugCommand::Invalid);
    assert_eq!(DebugCommand::parse("rb "), DebugCommand::Invalid);
    assert_eq!(DebugCommand::parse("rb -1"), DebugCommand::Invalid);
    assert_eq!(DebugCommand::parse("rb 0x10"), DebugCommand::Nothing);
    assert_eq!(DebugCommand::parse("rb"), DebugCommand::Nothing);
}

#[test]
fn breakpoint_addresses() {
    assert_eq!(parse_address("0x0000"), Some(0x0000));
    assert_eq!(parse_address("0xC00a"), Some(0xC00A));
    assert_eq!(parse_address("0xFFFF"), Some(0xFFFF));
    assert_eq!(parse_address("##12"), Some(0x0012));
    assert_eq!(parse_address("0x10000"), None);
    assert_eq!(parse_address("0x"), None);
    assert_eq!(parse_address("0"), None);
    assert_eq!(parse_address(""), None);
    assert_eq!(parse_address("0x12 "), None);
    assert_eq!(parse_address("0x-1"), None);
}

#[test]
fn numbers_agree_with_the_standard_parsers() {
    for text in ["0", "7f", "7F", "+ff", "ffff", "10000", "", "+", "++1", "-1", "1 ", "g", "é1"] {
        let chars = chars_of(text);
        assert_eq!(
            parse_number(&chars, 0, chars.len(), 16, 0xFFFF),
            u16::from_str_radix(text, 16).ok().map(u64::from),
            "{:?}",
            text
        );
    }
    for text in ["0", "18446744073709551615", "18446744073709551616", "a", "+12", "1_000"] {
        let chars = chars_of(text);
        assert_eq!(
            parse_number(&chars, 0, chars.len(), 10, u64::MAX),
            text.parse::<u64>().ok(),
            "{:?}",
            text
        );
    }
}
