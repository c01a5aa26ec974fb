use vstd::prelude::*;
use crate::text::push_char;

verus! {

/// Colour given to every cell of a new grid: white.
pub const DEFAULT_COLOR: u32 = 0xFF_FF_FF;

/// The upper-case character for a hexadecimal digit.
pub open spec fn hex_digit(d: nat) -> char {
    seq!['0', '1', '2', '3', '4', '5', '6', '7', '8', '9', 'A', 'B', 'C', 'D', 'E', 'F'][d as int]
}

/// How a colour is shown outside: the six upper-case hexadecimal digits of its
/// low 24 bits (0xRRGGBB). The top byte carries nothing and is left out.
pub open spec fn color_hex(c: u32) -> Seq<char> {
    let n = c as nat;
    seq![
        hex_digit((n / 0x10_0000) % 16),
        hex_digit((n / 0x1_0000) % 16),
        hex_digit((n / 0x1000) % 16),
        hex_digit((n / 0x100) % 16),
        hex_digit((n / 0x10) % 16),
        hex_digit(n % 16),
    ]
}

fn hex_char(d: u32) -> (c: char)
    requires
        d < 16,
    ensures
        c == hex_digit(d as nat),
{
    match d {
        0 => '0',
        1 => '1',
        2 => '2',
        3 => '3',
        4 => '4',
        5 => '5',
        6 => '6',
        7 => '7',
        8 => '8',
        9 => '9',
        10 => 'A',
        11 => 'B',
        12 => 'C',
        13 => 'D',
        14 => 'E',
        _ => 'F',
    }
}

/// Renders a colour as six upper-case hexadecimal digits (`0x00A1B2` gives "00A1B2").
pub fn render_color(c: u32) -> (r: String)
    ensures
        r@ == color_hex(c),
{
    let mut r = String::new();
    push_char(&mut r, hex_char((c / 0x10_0000) % 16));
    push_char(&mut r, hex_char((c / 0x1_0000) % 16));
    push_char(&mut r, hex_char((c / 0x1000) % 16));
    push_char(&mut r, hex_char((c / 0x100) % 16));
    push_char(&mut r, hex_char((c / 0x10) % 16));
    push_char(&mut r, hex_char(c % 16));
    assert(r@ =~= color_hex(c));
    r
}

} // verus!
