use pixel_canvas::command::{split_words, Command, PixelBody};
use pixel_canvas::number::parse_u32;

fn parse(line: &str) -> Result<Command, String> {
    Command::try_from(line.to_string())
}

#[test]
fn pixel_command() {
    assert_eq!(parse("pixel FF0000 5 7"), Ok(Command::SendPixel(PixelBody { x: 5, y: 7, rgba: 0xFF0000 })));
    assert_eq!(parse("  pixel\t+a1b2 4294967295 0 "), Ok(Command::SendPixel(PixelBody { x: u32::MAX, y: 0, rgba: 0xA1B2 })));
}

#[test]
fn pixel_command_errors() {
    assert_eq!(parse("pixel zz 1 2"), Err("RGBA is not a number".to_string()));
    assert_eq!(parse("pixel 100000000 1 2"), Err("RGBA is not a number".to_string()));
    assert_eq!(parse("pixel 1 a 2"), Err("X is not a number".to_string()));
    assert_eq!(parse("pixel 1 4294967296 2"), Err("X is not a number".to_string()));
    assert_eq!(parse("pixel 1 2 -3"), Err("X is not a number".to_string()));
    let usage = "Invalid arguments for send, expected: send <rgba> <x> <y>".to_string();
    assert_eq!(parse("pixel 1 2"), Err(usage.clone()));
    assert_eq!(parse("pixel"), Err(usage.clone()));
    assert_eq!(parse("pixel 1 2 3 4"), Err(usage));
}

#[test]
fn exit_and_unknown_commands() {
    assert_eq!(parse("Exit"), Ok(Command::Exit));
    assert_eq!(parse(" Exit "), Ok(Command::Exit));
    assert_eq!(parse("exit"), Err("Invalid command [\"exit\"]".to_string()));
    assert_eq!(parse("foo bar"), Err("Invalid command [\"foo\", \"bar\"]".to_string()));
    assert_eq!(parse(""), Err("Invalid command []".to_string()));
    assert_eq!(parse("Exit now"), Err("Invalid command [\"Exit\", \"now\"]".to_string()));
}

#[test]
fn numbers() {
    assert_eq!(parse_u32("ff", 16), Some(255));
    assert_eq!(parse_u32("FFFFFFFF", 16), Some(u32::MAX));
    assert_eq!(parse_u32("100000000", 16), None);
    assert_eq!(parse_u32("+12", 10), Some(12));
    assert_eq!(parse_u32("+", 10), None);
    assert_eq!(parse_u32("", 10), None);
    assert_eq!(parse_u32("-1", 10), None);
    assert_eq!(parse_u32("1a", 10), None);
    assert_eq!(parse_u32("007", 10), Some(7));
    assert_eq!(parse_u32("4294967295", 10), Some(u32::MAX));
    assert_eq!(parse_u32("99999999999", 10), None);
}

#[test]
fn words_split_on_unicode_spaces() {
    assert_eq!(split_words("  a \t b\u{3000}c \n"), vec!["a", "b", "c"]);
    assert_eq!(split_words(""), Vec::<String>::new());
    assert_eq!(split_words("   "), Vec::<String>::new());
    assert_eq!(split_words("one"), vec!["one"]);
}

#[test]
fn rendered_color_reads_back_as_low_bits() {
    for c in [0u32, 0x00A1B2, 0xFFFFFF, 0x0100_0001, u32::MAX, 0x0012_3456] {
        let text = pixel_canvas::color::render_color(c);
        assert_eq!(parse_u32(&text, 16), Some(c & 0xFF_FFFF));
    }
}
