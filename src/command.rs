use crate::number::{parse_u32, parse_u32_spec};
use crate::text::{char_at, char_count, owned, push_char};
use vstd::string::StringExecFns;
use vstd::prelude::*;

verus! {

/// The characters that have the Unicode `White_Space` property.
pub open spec fn is_space(c: char) -> bool {
    let n = c as u32;
    (0x09 <= n <= 0x0D) || n == 0x20 || n == 0x85 || n == 0xA0 || n == 0x1680 || (0x2000 <= n
        <= 0x200A) || n == 0x2028 || n == 0x2029 || n == 0x202F || n == 0x205F || n == 0x3000
}

fn space(c: char) -> (r: bool)
    ensures
        r == is_space(c),
{
    let n = c as u32;
    (0x09 <= n && n <= 0x0D) || n == 0x20 || n == 0x85 || n == 0xA0 || n == 0x1680 || (0x2000
        <= n && n <= 0x200A) || n == 0x2028 || n == 0x2029 || n == 0x202F || n == 0x205F || n
        == 0x3000
}

/// The words finished so far in `s`, and the word still open at its end.
pub open spec fn split_state(s: Seq<char>) -> (Seq<Seq<char>>, Seq<char>)
    decreases s.len(),
{
    if s.len() == 0 {
        (seq![], seq![])
    } else {
        let (done, cur) = split_state(s.drop_last());
        if is_space(s.last()) {
            if cur.len() > 0 {
                (done.push(cur), seq![])
            } else {
                (done, seq![])
            }
        } else {
            (done, cur.push(s.last()))
        }
    }
}

/// The maximal runs of non-space characters of `s`, in order.
pub open spec fn words(s: Seq<char>) -> Seq<Seq<char>> {
    let (done, cur) = split_state(s);
    if cur.len() > 0 {
        done.push(cur)
    } else {
        done
    }
}

/// The characters of each string.
pub open spec fn string_views(v: Seq<String>) -> Seq<Seq<char>> {
    v.map_values(|w: String| w@)
}

/// Splits `s` into its words (see [`words`]).
pub fn split_words(s: &str) -> (r: Vec<String>)
    ensures
        string_views(r@) == words(s@),
{
    let n = char_count(s);
    let mut done: Vec<String> = Vec::new();
    let mut cur = String::new();
    let mut cur_len: usize = 0;
    let mut i: usize = 0;
    while i < n
        invariant
            i <= n,
            n == s@.len(),
            (string_views(done@), cur@) == split_state(s@.take(i as int)),
            cur_len == cur@.len(),
            cur_len <= i,
        decreases n - i,
    {
        let c = char_at(s, i);
        assert(s@.take(i + 1).drop_last() =~= s@.take(i as int));
        assert(s@.take(i + 1).last() == c);
        if space(c) {
            if cur_len > 0 {
                let ghost before = done@;
                done.push(cur);
                assert(string_views(done@) =~= string_views(before).push(
                    split_state(s@.take(i as int)).1,
                ));
                cur = String::new();
            } else {
                cur = String::new();
            }
            cur_len = 0;
        } else {
            push_char(&mut cur, c);
            cur_len = cur_len + 1;
        }
        i = i + 1;
    }
    assert(s@.take(n as int) =~= s@);
    if cur_len > 0 {
        let ghost before = done@;
        let ghost last = cur@;
        done.push(cur);
        assert(string_views(done@) =~= string_views(before).push(last));
    }
    done
}

/// The pixel that a `pixel` command asks to set.
#[derive(Clone, Copy, Debug, PartialEq, Eq, Structural)]
pub struct PixelBody {
    pub x: u32,
    pub y: u32,
    pub rgba: u32,
}

/// A command of the interactive client.
#[derive(Clone, Copy, Debug, PartialEq, Eq, Structural)]
pub enum Command {
    /// `pixel <rgba> <x> <y>`: set one pixel; the colour is hexadecimal, the
    /// coordinates decimal.
    SendPixel(PixelBody),
    /// `Exit`: leave the client.
    Exit,
}

pub uninterp spec fn debug_text(words: Seq<Seq<char>>) -> Seq<char>;

/// Relies on the `Debug` formatting of `Vec<String>`: a bracketed list of the
/// quoted, escaped words; it depends on the words alone.
#[verifier::external_body]
fn debug_words(words: &Vec<String>) -> (r: String)
    ensures
        r@ == debug_text(string_views(words@)),
{
    format!("{:?}", words)
}

/// What a line typed at the client means: the command, or the message that says
/// why it means none.
pub open spec fn command_spec(line: Seq<char>) -> Result<Command, Seq<char>> {
    let w = words(line);
    if w.len() == 4 && w[0] == "pixel"@ {
        match parse_u32_spec(w[1], 16) {
            None => Err("RGBA is not a number"@),
            Some(rgba) => match parse_u32_spec(w[2], 10) {
                None => Err("X is not a number"@),
                Some(x) => match parse_u32_spec(w[3], 10) {
                    None => Err("X is not a number"@),
                    Some(y) => Ok(Command::SendPixel(PixelBody { x, y, rgba })),
                },
            },
        }
    } else if w.len() > 0 && w[0] == "pixel"@ {
        Err("Invalid arguments for send, expected: send <rgba> <x> <y>"@)
    } else if w.len() == 1 && w[0] == "Exit"@ {
        Ok(Command::Exit)
    } else {
        Err("Invalid command "@ + debug_text(w))
    }
}

impl Command {
    /// Reads one line typed at the client (see [`command_spec`]).
    pub fn try_from(value: String) -> (r: Result<Command, String>)
        ensures
            match (r, command_spec(value@)) {
                (Ok(c), Ok(d)) => c == d,
                (Err(m), Err(e)) => m@ == e,
                _ => false,
            },
    {
        let args = split_words(value.as_str());
        let ghost w = words(value@);
        assert(args@.len() == w.len());
        let pixel = owned("pixel");
        let exit = owned("Exit");
        if args.len() == 4 && args[0] == pixel {
            assert(args@[0]@ == w[0]);
            assert(args@[1]@ == w[1] && args@[2]@ == w[2] && args@[3]@ == w[3]);
            let rgba = match parse_u32(args[1].as_str(), 16) {
                Some(v) => v,
                None => return Err(owned("RGBA is not a number")),
            };
            let x = match parse_u32(args[2].as_str(), 10) {
                Some(v) => v,
                None => return Err(owned("X is not a number")),
            };
            let y = match parse_u32(args[3].as_str(), 10) {
                Some(v) => v,
                None => return Err(owned("X is not a number")),
            };
            Ok(Command::SendPixel(PixelBody { x, y, rgba }))
        } else if args.len() > 0 && args[0] == pixel {
            assert(args@[0]@ == w[0]);
            Err(owned("Invalid arguments for send, expected: send <rgba> <x> <y>"))
        } else if args.len() == 1 && args[0] == exit {
            assert(args@[0]@ == w[0]);
            Ok(Command::Exit)
        } else {
            proof {
                if args@.len() > 0 {
                    assert(args@[0]@ == w[0]);
                }
            }
            let mut m = owned("Invalid command ");
            let d = debug_words(&args);
            m.append(d.as_str());
            Err(m)
        }
    }
}

} // verus!
