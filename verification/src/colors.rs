//! Color arithmetic shared by the styling code: averaging two colors and
//! reading a color back out of a `#rrggbb` style string.

use vstd::prelude::*;

verus! {

/// An RGB color, one byte per channel.
pub type Color = (u8, u8, u8);

/// The channel-wise average of two colors, each channel rounded down.
pub fn calc_mean_color(c1: &Color, c2: &Color) -> (r: Color)
    ensures
        r.0 == (c1.0 + c2.0) / 2,
        r.1 == (c1.1 + c2.1) / 2,
        r.2 == (c1.2 + c2.2) / 2,
{
    (
        ((c1.0 as u16 + c2.0 as u16) / 2) as u8,
        ((c1.1 as u16 + c2.1 as u16) / 2) as u8,
        ((c1.2 as u16 + c2.2 as u16) / 2) as u8,
    )
}

/// Value of `c` as a hexadecimal digit, or -1 when `c` is not one.
pub open spec fn spec_hex_val(c: char) -> int {
    let i = c as int;
    if '0' as int <= i && i <= '9' as int {
        i - '0' as int
    } else if 'a' as int <= i && i <= 'f' as int {
        i - 'a' as int + 10
    } else if 'A' as int <= i && i <= 'F' as int {
        i - 'A' as int + 10
    } else {
        -1
    }
}

pub open spec fn spec_is_hex(c: char) -> bool {
    spec_hex_val(c) >= 0
}

/// What parsing a two-character string as a base-16 `u8` yields, with parse
/// failures read as zero: either two hexadecimal digits, or a plus sign
/// followed by a single digit.
pub open spec fn spec_hex_pair(c1: char, c2: char) -> int {
    if c1 == '+' && spec_is_hex(c2) {
        spec_hex_val(c2)
    } else if spec_is_hex(c1) && spec_is_hex(c2) {
        16 * spec_hex_val(c1) + spec_hex_val(c2)
    } else {
        0
    }
}

/// The string with every leading number sign removed.
pub open spec fn spec_strip_hash_marks(s: Seq<char>) -> Seq<char>
    decreases s.len(),
{
    if s.len() > 0 && s[0] == '#' {
        spec_strip_hash_marks(s.subrange(1, s.len() as int))
    } else {
        s
    }
}

/// The color denoted by a style string: the string with leading number signs
/// removed must consist of exactly six characters, read as three hexadecimal
/// pairs; any malformed pair reads as zero, and any other shape denotes black.
pub open spec fn spec_parse_color(s: Seq<char>) -> Color {
    let t = spec_strip_hash_marks(s);
    if t.len() == 6 {
        (
            spec_hex_pair(t[0], t[1]) as u8,
            spec_hex_pair(t[2], t[3]) as u8,
            spec_hex_pair(t[4], t[5]) as u8,
        )
    } else {
        (0u8, 0u8, 0u8)
    }
}

proof fn lemma_strip_hash_marks(s: Seq<char>, i: int)
    requires
        0 <= i <= s.len(),
        forall|j: int| 0 <= j < i ==> s[j] == '#',
        i == s.len() || s[i] != '#',
    ensures
        spec_strip_hash_marks(s) == s.subrange(i, s.len() as int),
    decreases i,
{
    if i == 0 {
        assert(s.subrange(0, s.len() as int) =~= s);
    } else {
        let t = s.subrange(1, s.len() as int);
        lemma_strip_hash_marks(t, i - 1);
        assert(t.subrange(i - 1, t.len() as int) =~= s.subrange(i, s.len() as int));
    }
}

fn hex_digit(c: char) -> (r: Option<u8>)
    ensures
        r matches Some(v) ==> spec_hex_val(c) == v,
        r is None <==> !spec_is_hex(c),
{
    let u = c as u32;
    if 48 <= u && u <= 57 {
        Some((u - 48) as u8)
    } else if 97 <= u && u <= 102 {
        Some((u - 87) as u8)
    } else if 65 <= u && u <= 70 {
        Some((u - 55) as u8)
    } else {
        None
    }
}

fn hex_pair(c1: char, c2: char) -> (r: u8)
    ensures
        r == spec_hex_pair(c1, c2),
{
    if c1 == '+' {
        match hex_digit(c2) {
            Some(v) => v,
            None => 0,
        }
    } else {
        match (hex_digit(c1), hex_digit(c2)) {
            (Some(a), Some(b)) => 16 * a + b,
            _ => 0,
        }
    }
}

/// Reads a color out of a `#rrggbb`-style string, tolerating any number of
/// leading number signs; a string of any other shape reads as black, and a
/// malformed channel pair reads as zero, as lenient parsing would give.
///
/// The callers hand in hex colors and style fragments, which are ASCII; the
/// contract holds for exactly those strings, on which characters and bytes
/// coincide, so the six-character test is the byte-length test and each
/// channel pair is a two-byte slice.
pub fn parse_color(color_str: &str) -> (r: Color)
    requires
        color_str.is_ascii(),
    ensures
        r == spec_parse_color(color_str@),
{
    let n = color_str.unicode_len();
    let mut i: usize = 0;
    while i < n && color_str.get_char(i) == '#'
        invariant
            i <= n,
            n == color_str@.len(),
            forall|j: int| 0 <= j < i ==> color_str@[j] == '#',
        decreases n - i,
    {
        i = i + 1;
    }
    proof {
        lemma_strip_hash_marks(color_str@, i as int);
    }
    if n - i == 6 {
        let red = hex_pair(color_str.get_char(i), color_str.get_char(i + 1));
        let green = hex_pair(color_str.get_char(i + 2), color_str.get_char(i + 3));
        let blue = hex_pair(color_str.get_char(i + 4), color_str.get_char(i + 5));
        (red, green, blue)
    } else {
        (0, 0, 0)
    }
}

} // verus!
