//! The palette document parser.
//!
//! A palette is loaded from a text document of this shape, with any amount
//! of blank space (space, tab, line feed, carriage return) between tokens:
//!
//! ```text
//! { "colors": [
//!   { "colorId": 0, "rgb": { "r": 0, "g": 0, "b": 0 }, "name": "Black" },
//!   ...
//! ] }
//! ```
//!
//! Ids and channels are decimal numbers in `[0, 255]`; names are quoted
//! printable characters without escapes. The grammar is stated once, as the
//! specification functions below, and the executable parser is proved to
//! accept exactly the documents the grammar admits and to return exactly the
//! records the grammar denotes, in document order.

use vstd::prelude::*;

use crate::color256::{Color, Rgb};

verus! {

/// One parsed record: id, color, and the raw bytes of the name.
pub type SpecEntry = (u8, Rgb, Seq<u8>);

pub const QUOTE: u8 = 34;

pub const COMMA: u8 = 44;

pub const COLON: u8 = 58;

pub const LBRACKET: u8 = 91;

pub const RBRACKET: u8 = 93;

pub const LBRACE: u8 = 123;

pub const RBRACE: u8 = 125;

/// Blank space between tokens: space, tab, line feed, carriage return.
pub open spec fn is_ws(b: u8) -> bool {
    b == 32 || b == 9 || b == 10 || b == 13
}

pub open spec fn is_digit(b: u8) -> bool {
    48 <= b <= 57
}

/// A byte allowed inside a name: printable, not a quote, not a backslash.
pub open spec fn is_name_byte(b: u8) -> bool {
    32 <= b <= 126 && b != QUOTE && b != 92
}

/// The first position at or after `i` that does not hold blank space.
pub open spec fn spec_skip_ws(s: Seq<u8>, i: int) -> int
    decreases s.len() - i,
{
    if 0 <= i < s.len() && is_ws(s[i]) {
        spec_skip_ws(s, i + 1)
    } else {
        i
    }
}

/// The position after the byte `b` at `i`, if it stands there.
pub open spec fn spec_expect_byte(s: Seq<u8>, i: int, b: u8) -> Option<int> {
    if 0 <= i < s.len() && s[i] == b {
        Some(i + 1)
    } else {
        None
    }
}

/// The position after `ws b ws` starting at `i`.
pub open spec fn spec_after_byte(s: Seq<u8>, i: int, b: u8) -> Option<int> {
    match spec_expect_byte(s, spec_skip_ws(s, i), b) {
        Some(k) => Some(spec_skip_ws(s, k)),
        None => None,
    }
}

/// Decimal digits continuing the value `acc`, stopping before the first
/// non-digit; refuses a value above 255.
pub open spec fn spec_digits(s: Seq<u8>, i: int, acc: int) -> Option<(int, int)>
    decreases s.len() - i,
{
    if 0 <= i < s.len() && is_digit(s[i]) {
        let v = acc * 10 + (s[i] - 48);
        if v > 255 {
            None
        } else {
            spec_digits(s, i + 1, v)
        }
    } else {
        Some((acc, i))
    }
}

/// A number in `[0, 255]`: one or more decimal digits at `i`.
pub open spec fn spec_parse_u8(s: Seq<u8>, i: int) -> Option<(int, int)> {
    if 0 <= i < s.len() && is_digit(s[i]) {
        spec_digits(s, i, 0)
    } else {
        None
    }
}

/// The bytes of a name up to and including its closing quote.
pub open spec fn spec_name_bytes(s: Seq<u8>, i: int) -> Option<(Seq<u8>, int)>
    decreases s.len() - i,
{
    if !(0 <= i < s.len()) {
        None
    } else if s[i] == QUOTE {
        Some((Seq::empty(), i + 1))
    } else if is_name_byte(s[i]) {
        match spec_name_bytes(s, i + 1) {
            Some((t, j)) => Some((seq![s[i]] + t, j)),
            None => None,
        }
    } else {
        None
    }
}

/// The quoted key `"colors"` at `i`.
pub open spec fn spec_key_colors(s: Seq<u8>, i: int) -> Option<int> {
    if i + 8 <= s.len() && s[i] == QUOTE && s[i + 1] == 99 && s[i + 2] == 111 && s[i + 3]
        == 108 && s[i + 4] == 111 && s[i + 5] == 114 && s[i + 6] == 115 && s[i + 7] == QUOTE {
        Some(i + 8)
    } else {
        None
    }
}

/// The quoted key `"colorId"` at `i`.
pub open spec fn spec_key_color_id(s: Seq<u8>, i: int) -> Option<int> {
    if i + 9 <= s.len() && s[i] == QUOTE && s[i + 1] == 99 && s[i + 2] == 111 && s[i + 3]
        == 108 && s[i + 4] == 111 && s[i + 5] == 114 && s[i + 6] == 73 && s[i + 7] == 100 && s[
        i + 8] == QUOTE {
        Some(i + 9)
    } else {
        None
    }
}

/// The quoted key `"rgb"` at `i`.
pub open spec fn spec_key_rgb(s: Seq<u8>, i: int) -> Option<int> {
    if i + 5 <= s.len() && s[i] == QUOTE && s[i + 1] == 114 && s[i + 2] == 103 && s[i + 3] == 98
        && s[i + 4] == QUOTE {
        Some(i + 5)
    } else {
        None
    }
}

/// The quoted key `"name"` at `i`.
pub open spec fn spec_key_name(s: Seq<u8>, i: int) -> Option<int> {
    if i + 6 <= s.len() && s[i] == QUOTE && s[i + 1] == 110 && s[i + 2] == 97 && s[i + 3] == 109
        && s[i + 4] == 101 && s[i + 5] == QUOTE {
        Some(i + 6)
    } else {
        None
    }
}

/// A quoted single-letter key holding exactly the byte `c` at `i`.
pub open spec fn spec_key1(s: Seq<u8>, i: int, c: u8) -> Option<int> {
    if i + 3 <= s.len() && s[i] == QUOTE && s[i + 1] == c && s[i + 2] == QUOTE {
        Some(i + 3)
    } else {
        None
    }
}

/// An `{ "r": n, "g": n, "b": n }` object at `i`.
pub open spec fn spec_parse_rgb(s: Seq<u8>, i: int) -> Option<(Rgb, int)> {
    match spec_expect_byte(s, i, LBRACE) {
        None => None,
        Some(k0) => match spec_key1(s, spec_skip_ws(s, k0), 114) {
            None => None,
            Some(k1) => match spec_after_byte(s, k1, COLON) {
                None => None,
                Some(k2) => match spec_parse_u8(s, k2) {
                    None => None,
                    Some((rv, k3)) => match spec_after_byte(s, k3, COMMA) {
                        None => None,
                        Some(k4) => match spec_key1(s, k4, 103) {
                            None => None,
                            Some(k5) => match spec_after_byte(s, k5, COLON) {
                                None => None,
                                Some(k6) => match spec_parse_u8(s, k6) {
                                    None => None,
                                    Some((gv, k7)) => match spec_after_byte(s, k7, COMMA) {
                                        None => None,
                                        Some(k8) => match spec_key1(s, k8, 98) {
                                            None => None,
                                            Some(k9) => match spec_after_byte(s, k9, COLON) {
                                                None => None,
                                                Some(k10) => match spec_parse_u8(s, k10) {
                                                    None => None,
                                                    Some((bv, k11)) => match spec_expect_byte(
                                                        s,
                                                        spec_skip_ws(s, k11),
                                                        RBRACE,
                                                    ) {
                                                        None => None,
                                                        Some(k12) => Some(
                                                            (
                                                                Rgb {
                                                                    r: rv as u8,
                                                                    g: gv as u8,
                                                                    b: bv as u8,
                                                                },
                                                                k12,
                                                            ),
                                                        ),
                                                    },
                                                },
                                            },
                                        },
                                    },
                                },
                            },
                        },
                    },
                },
            },
        },
    }
}

/// One palette record at `i`:
/// `{ "colorId": n, "rgb": {...}, "name": "..." }`.
pub open spec fn spec_parse_entry(s: Seq<u8>, i: int) -> Option<(SpecEntry, int)> {
    match spec_expect_byte(s, i, LBRACE) {
        None => None,
        Some(j0) => match spec_key_color_id(s, spec_skip_ws(s, j0)) {
            None => None,
            Some(j1) => match spec_after_byte(s, j1, COLON) {
                None => None,
                Some(j2) => match spec_parse_u8(s, j2) {
                    None => None,
                    Some((id, j3)) => match spec_after_byte(s, j3, COMMA) {
                        None => None,
                        Some(j4) => match spec_key_rgb(s, j4) {
                            None => None,
                            Some(j5) => match spec_after_byte(s, j5, COLON) {
                                None => None,
                                Some(j6) => match spec_parse_rgb(s, j6) {
                                    None => None,
                                    Some((rgb, j7)) => match spec_after_byte(s, j7, COMMA) {
                                        None => None,
                                        Some(j8) => match spec_key_name(s, j8) {
                                            None => None,
                                            Some(j9) => match spec_after_byte(s, j9, COLON) {
                                                None => None,
                                                Some(j10) => match spec_expect_byte(
                                                    s,
                                                    j10,
                                                    QUOTE,
                                                ) {
                                                    None => None,
                                                    Some(j11) => match spec_name_bytes(s, j11) {
                                                        None => None,
                                                        Some((name, j12)) => match spec_expect_byte(
                                                            s,
                                                            spec_skip_ws(s, j12),
                                                            RBRACE,
                                                        ) {
                                                            None => None,
                                                            Some(j13) => Some(
                                                                ((id as u8, rgb, name), j13),
                                                            ),
                                                        },
                                                    },
                                                },
                                            },
                                        },
                                    },
                                },
                            },
                        },
                    },
                },
            },
        },
    }
}

/// One or more records separated by `ws , ws`, with trailing blank space
/// consumed. The bound checks on the position after a comma keep the
/// recursion well-founded; they cannot fail on a position a record was
/// actually parsed from.
pub open spec fn spec_parse_entries(s: Seq<u8>, i: int) -> Option<(Seq<SpecEntry>, int)>
    decreases s.len() - i,
{
    match spec_parse_entry(s, i) {
        None => None,
        Some((e, j)) => {
            let k = spec_skip_ws(s, j);
            if 0 <= k < s.len() && s[k] == COMMA {
                let m = spec_skip_ws(s, k + 1);
                if m <= i || m > s.len() {
                    None
                } else {
                    match spec_parse_entries(s, m) {
                        None => None,
                        Some((rest, end)) => Some((seq![e] + rest, end)),
                    }
                }
            } else {
                Some((seq![e], k))
            }
        },
    }
}

/// A whole palette document: `{ "colors": [ ... ] }` with nothing but blank
/// space around it, denoting its records in order. `None` means the document
/// is malformed.
pub open spec fn spec_parse_doc(s: Seq<u8>) -> Option<Seq<SpecEntry>> {
    match spec_expect_byte(s, spec_skip_ws(s, 0), LBRACE) {
        None => None,
        Some(d0) => match spec_key_colors(s, spec_skip_ws(s, d0)) {
            None => None,
            Some(d1) => match spec_after_byte(s, d1, COLON) {
                None => None,
                Some(d2) => match spec_expect_byte(s, d2, LBRACKET) {
                    None => None,
                    Some(d3) => {
                        let d4 = spec_skip_ws(s, d3);
                        let inner: Option<(Seq<SpecEntry>, int)> = if 0 <= d4 < s.len() && s[d4]
                            == RBRACKET {
                            Some((Seq::empty(), d4 + 1))
                        } else {
                            match spec_parse_entries(s, d4) {
                                None => None,
                                Some((es, p)) => match spec_expect_byte(s, p, RBRACKET) {
                                    None => None,
                                    Some(q) => Some((es, q)),
                                },
                            }
                        };
                        match inner {
                            None => None,
                            Some((es, q)) => match spec_expect_byte(
                                s,
                                spec_skip_ws(s, q),
                                RBRACE,
                            ) {
                                None => None,
                                Some(t) => if spec_skip_ws(s, t) == s.len() {
                                    Some(es)
                                } else {
                                    None
                                },
                            },
                        }
                    },
                },
            },
        },
    }
}

/// The parsed entries and the palette they were turned into agree record by
/// record; a name's characters are its bytes, decoded one character per byte.
pub open spec fn colors_match(cs: Seq<Color>, es: Seq<SpecEntry>) -> bool {
    &&& cs.len() == es.len()
    &&& forall|i: int|
        0 <= i < cs.len() ==> (#[trigger] cs[i]).id == es[i].0 && cs[i].rgb == es[i].1
            && cs[i].name@ == es[i].2.map_values(|b: u8| b as char)
}

fn skip_ws(s: &Vec<u8>, i: usize) -> (r: usize)
    requires
        i <= s@.len(),
    ensures
        r == spec_skip_ws(s@, i as int),
        i <= r <= s@.len(),
    decreases s@.len() - i,
{
    if i < s.len() {
        let b = s[i];
        if b == 32 || b == 9 || b == 10 || b == 13 {
            return skip_ws(s, i + 1);
        }
    }
    i
}

fn expect_byte(s: &Vec<u8>, i: usize, b: u8) -> (r: Option<usize>)
    requires
        i <= s@.len(),
    ensures
        match r {
            Some(j) => spec_expect_byte(s@, i as int, b) == Some(j as int) && i < j <= s@.len(),
            None => spec_expect_byte(s@, i as int, b) is None,
        },
{
    if i < s.len() && s[i] == b {
        Some(i + 1)
    } else {
        None
    }
}

fn after_byte(s: &Vec<u8>, i: usize, b: u8) -> (r: Option<usize>)
    requires
        i <= s@.len(),
    ensures
        match r {
            Some(j) => spec_after_byte(s@, i as int, b) == Some(j as int) && i <= j <= s@.len(),
            None => spec_after_byte(s@, i as int, b) is None,
        },
{
    let j = skip_ws(s, i);
    match expect_byte(s, j, b) {
        Some(k) => Some(skip_ws(s, k)),
        None => None,
    }
}

fn parse_digits(s: &Vec<u8>, i: usize, acc: u16) -> (r: Option<(u8, usize)>)
    requires
        i <= s@.len(),
        acc <= 255,
    ensures
        match r {
            Some((v, j)) => spec_digits(s@, i as int, acc as int) == Some((v as int, j as int))
                && i <= j <= s@.len(),
            None => spec_digits(s@, i as int, acc as int) is None,
        },
    decreases s@.len() - i,
{
    if i < s.len() && s[i] >= 48 && s[i] <= 57 {
        let v: u16 = acc * 10 + (s[i] - 48) as u16;
        if v > 255 {
            None
        } else {
            parse_digits(s, i + 1, v)
        }
    } else {
        Some((acc as u8, i))
    }
}

fn parse_u8(s: &Vec<u8>, i: usize) -> (r: Option<(u8, usize)>)
    requires
        i <= s@.len(),
    ensures
        match r {
            Some((v, j)) => spec_parse_u8(s@, i as int) == Some((v as int, j as int)) && i <= j
                <= s@.len(),
            None => spec_parse_u8(s@, i as int) is None,
        },
{
    if i < s.len() && s[i] >= 48 && s[i] <= 57 {
        parse_digits(s, i, 0)
    } else {
        None
    }
}

fn parse_name_bytes(s: &Vec<u8>, i: usize) -> (r: Option<(Vec<u8>, usize)>)
    requires
        i <= s@.len(),
    ensures
        match r {
            Some((v, j)) => spec_name_bytes(s@, i as int) == Some((v@, j as int)) && i < j
                <= s@.len() && forall|k: int| 0 <= k < v@.len() ==> v@[k] < 0x80,
            None => spec_name_bytes(s@, i as int) is None,
        },
    decreases s@.len() - i,
{
    if i >= s.len() {
        return None;
    }
    let b = s[i];
    if b == QUOTE {
        let v: Vec<u8> = Vec::new();
        proof {
            assert(v@ =~= Seq::<u8>::empty());
        }
        Some((v, i + 1))
    } else if b >= 32 && b <= 126 && b != 92 {
        match parse_name_bytes(s, i + 1) {
            Some((mut v, j)) => {
                let ghost v0 = v@;
                v.insert(0, b);
                proof {
                    assert(v@ =~= seq![b] + v0);
                }
                Some((v, j))
            },
            None => None,
        }
    } else {
        None
    }
}

fn key_colors(s: &Vec<u8>, i: usize) -> (r: Option<usize>)
    requires
        i <= s@.len(),
    ensures
        match r {
            Some(j) => spec_key_colors(s@, i as int) == Some(j as int) && i < j <= s@.len(),
            None => spec_key_colors(s@, i as int) is None,
        },
{
    if s.len() - i >= 8 && s[i] == QUOTE && s[i + 1] == 99 && s[i + 2] == 111 && s[i + 3] == 108
        && s[i + 4] == 111 && s[i + 5] == 114 && s[i + 6] == 115 && s[i + 7] == QUOTE {
        Some(i + 8)
    } else {
        None
    }
}

fn key_color_id(s: &Vec<u8>, i: usize) -> (r: Option<usize>)
    requires
        i <= s@.len(),
    ensures
        match r {
            Some(j) => spec_key_color_id(s@, i as int) == Some(j as int) && i < j <= s@.len(),
            None => spec_key_color_id(s@, i as int) is None,
        },
{
    if s.len() - i >= 9 && s[i] == QUOTE && s[i + 1] == 99 && s[i + 2] == 111 && s[i + 3] == 108
        && s[i + 4] == 111 && s[i + 5] == 114 && s[i + 6] == 73 && s[i + 7] == 100 && s[i + 8]
        == QUOTE {
        Some(i + 9)
    } else {
        None
    }
}

fn key_rgb(s: &Vec<u8>, i: usize) -> (r: Option<usize>)
    requires
        i <= s@.len(),
    ensures
        match r {
            Some(j) => spec_key_rgb(s@, i as int) == Some(j as int) && i < j <= s@.len(),
            None => spec_key_rgb(s@, i as int) is None,
        },
{
    if s.len() - i >= 5 && s[i] == QUOTE && s[i + 1] == 114 && s[i + 2] == 103 && s[i + 3] == 98
        && s[i + 4] == QUOTE {
        Some(i + 5)
    } else {
        None
    }
}

fn key_name(s: &Vec<u8>, i: usize) -> (r: Option<usize>)
    requires
        i <= s@.len(),
    ensures
        match r {
            Some(j) => spec_key_name(s@, i as int) == Some(j as int) && i < j <= s@.len(),
            None => spec_key_name(s@, i as int) is None,
        },
{
    if s.len() - i >= 6 && s[i] == QUOTE && s[i + 1] == 110 && s[i + 2] == 97 && s[i + 3] == 109
        && s[i + 4] == 101 && s[i + 5] == QUOTE {
        Some(i + 6)
    } else {
        None
    }
}

fn key1(s: &Vec<u8>, i: usize, c: u8) -> (r: Option<usize>)
    requires
        i <= s@.len(),
    ensures
        match r {
            Some(j) => spec_key1(s@, i as int, c) == Some(j as int) && i < j <= s@.len(),
            None => spec_key1(s@, i as int, c) is None,
        },
{
    if s.len() - i >= 3 && s[i] == QUOTE && s[i + 1] == c && s[i + 2] == QUOTE {
        Some(i + 3)
    } else {
        None
    }
}

fn parse_rgb(s: &Vec<u8>, i: usize) -> (r: Option<(Rgb, usize)>)
    requires
        i <= s@.len(),
    ensures
        match r {
            Some((c, j)) => spec_parse_rgb(s@, i as int) == Some((c, j as int)) && i < j
                <= s@.len(),
            None => spec_parse_rgb(s@, i as int) is None,
        },
{
    let k0 = match expect_byte(s, i, LBRACE) {
        Some(x) => x,
        None => {
            return None;
        },
    };
    let k0w = skip_ws(s, k0);
    let k1 = match key1(s, k0w, 114) {
        Some(x) => x,
        None => {
            return None;
        },
    };
    let k2 = match after_byte(s, k1, COLON) {
        Some(x) => x,
        None => {
            return None;
        },
    };
    let (rv, k3) = match parse_u8(s, k2) {
        Some(x) => x,
        None => {
            return None;
        },
    };
    let k4 = match after_byte(s, k3, COMMA) {
        Some(x) => x,
        None => {
            return None;
        },
    };
    let k5 = match key1(s, k4, 103) {
        Some(x) => x,
        None => {
            return None;
        },
    };
    let k6 = match after_byte(s, k5, COLON) {
        Some(x) => x,
        None => {
            return None;
        },
    };
    let (gv, k7) = match parse_u8(s, k6) {
        Some(x) => x,
        None => {
            return None;
        },
    };
    let k8 = match after_byte(s, k7, COMMA) {
        Some(x) => x,
        None => {
            return None;
        },
    };
    let k9 = match key1(s, k8, 98) {
        Some(x) => x,
        None => {
            return None;
        },
    };
    let k10 = match after_byte(s, k9, COLON) {
        Some(x) => x,
        None => {
            return None;
        },
    };
    let (bv, k11) = match parse_u8(s, k10) {
        Some(x) => x,
        None => {
            return None;
        },
    };
    let k11w = skip_ws(s, k11);
    let k12 = match expect_byte(s, k11w, RBRACE) {
        Some(x) => x,
        None => {
            return None;
        },
    };
    Some((Rgb { r: rv, g: gv, b: bv }, k12))
}

/// Relies on `String::from_utf8`: bytes below 0x80 are valid UTF-8 and
/// decode to exactly one character each, the character with that code.
#[verifier::external_body]
fn ascii_string(bytes: Vec<u8>) -> (s: String)
    requires
        forall|k: int| 0 <= k < bytes@.len() ==> bytes@[k] < 0x80,
    ensures
        s@ == bytes@.map_values(|b: u8| b as char),
{
    String::from_utf8(bytes).unwrap()
}

fn parse_entry(s: &Vec<u8>, i: usize) -> (r: Option<(Color, usize)>)
    requires
        i <= s@.len(),
    ensures
        match r {
            Some((c, j)) => {
                &&& spec_parse_entry(s@, i as int) matches Some(p) && p.1 == j && c.id == p.0.0
                    && c.rgb == p.0.1 && c.name@ == p.0.2.map_values(|b: u8| b as char)
                &&& i < j <= s@.len()
            },
            None => spec_parse_entry(s@, i as int) is None,
        },
{
    let j0 = match expect_byte(s, i, LBRACE) {
        Some(x) => x,
        None => {
            return None;
        },
    };
    let j0w = skip_ws(s, j0);
    let j1 = match key_color_id(s, j0w) {
        Some(x) => x,
        None => {
            return None;
        },
    };
    let j2 = match after_byte(s, j1, COLON) {
        Some(x) => x,
        None => {
            return None;
        },
    };
    let (id, j3) = match parse_u8(s, j2) {
        Some(x) => x,
        None => {
            return None;
        },
    };
    let j4 = match after_byte(s, j3, COMMA) {
        Some(x) => x,
        None => {
            return None;
        },
    };
    let j5 = match key_rgb(s, j4) {
        Some(x) => x,
        None => {
            return None;
        },
    };
    let j6 = match after_byte(s, j5, COLON) {
        Some(x) => x,
        None => {
            return None;
        },
    };
    let (rgb, j7) = match parse_rgb(s, j6) {
        Some(x) => x,
        None => {
            return None;
        },
    };
    let j8 = match after_byte(s, j7, COMMA) {
        Some(x) => x,
        None => {
            return None;
        },
    };
    let j9 = match key_name(s, j8) {
        Some(x) => x,
        None => {
            return None;
        },
    };
    let j10 = match after_byte(s, j9, COLON) {
        Some(x) => x,
        None => {
            return None;
        },
    };
    let j11 = match expect_byte(s, j10, QUOTE) {
        Some(x) => x,
        None => {
            return None;
        },
    };
    let (name, j12) = match parse_name_bytes(s, j11) {
        Some(x) => x,
        None => {
            return None;
        },
    };
    let j12w = skip_ws(s, j12);
    let j13 = match expect_byte(s, j12w, RBRACE) {
        Some(x) => x,
        None => {
            return None;
        },
    };
    let name = ascii_string(name);
    Some((Color { id, rgb, name }, j13))
}

fn parse_entries(s: &Vec<u8>, i: usize) -> (r: Option<(Vec<Color>, usize)>)
    requires
        i <= s@.len(),
    ensures
        match r {
            Some((v, j)) => {
                &&& spec_parse_entries(s@, i as int) matches Some(p) && p.1 == j
                    && colors_match(v@, p.0)
                &&& i < j <= s@.len()
            },
            None => spec_parse_entries(s@, i as int) is None,
        },
    decreases s@.len() - i,
{
    let (e, j) = match parse_entry(s, i) {
        Some(x) => x,
        None => {
            return None;
        },
    };
    let k = skip_ws(s, j);
    if k < s.len() && s[k] == COMMA {
        let m = skip_ws(s, k + 1);
        if m <= i {
            // The record just parsed consumed at least one byte, so this
            // cannot happen; the check keeps the recursion well-founded.
            return None;
        }
        match parse_entries(s, m) {
            Some((mut rest, end)) => {
                let ghost rest0 = rest@;
                rest.insert(0, e);
                proof {
                    let p = spec_parse_entries(s@, i as int).unwrap();
                    assert(rest@ =~= seq![rest@[0]] + rest0);
                    assert forall|q: int| 0 <= q < rest@.len() implies (
                        #[trigger] rest@[q]).id == p.0[q].0 && rest@[q].rgb == p.0[q].1
                        && rest@[q].name@ == p.0[q].2.map_values(|b: u8| b as char) by {
                        if q > 0 {
                            assert(rest@[q] == rest0[q - 1]);
                        }
                    }
                }
                Some((rest, end))
            },
            None => None,
        }
    } else {
        let mut v: Vec<Color> = Vec::new();
        v.push(e);
        proof {
            let p = spec_parse_entries(s@, i as int).unwrap();
            assert(p.0 =~= seq![p.0[0]]);
        }
        Some((v, k))
    }
}

/// Parses a whole palette document into its records, in document order.
/// Returns `None` exactly when the document is not in the palette grammar.
pub fn parse_doc(s: &Vec<u8>) -> (r: Option<Vec<Color>>)
    ensures
        match r {
            Some(v) => spec_parse_doc(s@) matches Some(es) && colors_match(v@, es),
            None => spec_parse_doc(s@) is None,
        },
{
    let d0w = skip_ws(s, 0);
    let d0 = match expect_byte(s, d0w, LBRACE) {
        Some(x) => x,
        None => {
            return None;
        },
    };
    let d0x = skip_ws(s, d0);
    let d1 = match key_colors(s, d0x) {
        Some(x) => x,
        None => {
            return None;
        },
    };
    let d2 = match after_byte(s, d1, COLON) {
        Some(x) => x,
        None => {
            return None;
        },
    };
    let d3 = match expect_byte(s, d2, LBRACKET) {
        Some(x) => x,
        None => {
            return None;
        },
    };
    let d4 = skip_ws(s, d3);
    let (es, q) = if d4 < s.len() && s[d4] == RBRACKET {
        (Vec::new(), d4 + 1)
    } else {
        let (es, p) = match parse_entries(s, d4) {
            Some(x) => x,
            None => {
                return None;
            },
        };
        match expect_byte(s, p, RBRACKET) {
            Some(q) => (es, q),
            None => {
                return None;
            },
        }
    };
    let qw = skip_ws(s, q);
    let t = match expect_byte(s, qw, RBRACE) {
        Some(x) => x,
        None => {
            return None;
        },
    };
    if skip_ws(s, t) == s.len() {
        Some(es)
    } else {
        None
    }
}

} // verus!
