//! A small JSON reader for the client control protocol.
//!
//! The grammar is the JSON object grammar, read only as deeply as the
//! protocol needs it: the values of the top-level object are materialised
//! (strings, unsigned integers, null, and one nested object whose own values
//! are materialised the same way); everything else — arrays, booleans,
//! fractional or signed numbers, deeper objects — is skipped and reported as
//! [`TopVal::Other`] / [`LeafVal::Other`]. Text that does not follow the
//! grammar is rejected as a whole, which the session actor then treats as raw
//! terminal input. Nesting is bounded by [`MAX_DEPTH`]; deeper documents are
//! rejected.

use vstd::prelude::*;

use crate::text::{
    digit_char, digit_val, digits_val, is_digit_char, is_space_char, space_char,
};

verus! {

/// Containers nested more deeply than this are rejected.
pub const MAX_DEPTH: u32 = 128;

/// A materialised value of the object nested inside the top-level object.
pub enum LeafVal {
    /// A JSON string.
    Str(Vec<char>),
    /// A number that is a plain unsigned integer.
    UInt(u64),
    /// The JSON `null`.
    Null,
    /// Any other well-formed value (skipped).
    Other,
}

/// A materialised value of the top-level object.
pub enum TopVal {
    /// A JSON string.
    Str(Vec<char>),
    /// A number that is a plain unsigned integer.
    UInt(u64),
    /// The JSON `null`.
    Null,
    /// A nested object and its members.
    Obj(Vec<(Vec<char>, LeafVal)>),
    /// Any other well-formed value (skipped).
    Other,
}

/// Specification counterpart of [`LeafVal`].
pub enum LeafValS {
    Str(Seq<char>),
    UInt(u64),
    Null,
    Other,
}

/// Specification counterpart of [`TopVal`].
pub enum TopValS {
    Str(Seq<char>),
    UInt(u64),
    Null,
    Obj(Seq<(Seq<char>, LeafValS)>),
    Other,
}

impl View for LeafVal {
    type V = LeafValS;

    open spec fn view(&self) -> LeafValS {
        match self {
            LeafVal::Str(v) => LeafValS::Str(v@),
            LeafVal::UInt(n) => LeafValS::UInt(*n),
            LeafVal::Null => LeafValS::Null,
            LeafVal::Other => LeafValS::Other,
        }
    }
}

impl View for TopVal {
    type V = TopValS;

    open spec fn view(&self) -> TopValS {
        match self {
            TopVal::Str(v) => TopValS::Str(v@),
            TopVal::UInt(n) => TopValS::UInt(*n),
            TopVal::Null => TopValS::Null,
            TopVal::Obj(ms) => TopValS::Obj(
                Seq::new(ms@.len(), |k: int| (ms@[k].0@, ms@[k].1@)),
            ),
            TopVal::Other => TopValS::Other,
        }
    }
}

/// The first position at or after `i` holding a non-whitespace character.
pub open spec fn spec_skip_ws(s: Seq<char>, i: int) -> int
    decreases s.len() - i,
{
    if 0 <= i && i < s.len() && is_space_char(s[i]) {
        spec_skip_ws(s, i + 1)
    } else {
        i
    }
}

/// Hexadecimal digits.
pub open spec fn is_hex_char(c: char) -> bool {
    is_digit_char(c) || ('a' <= c && c <= 'f') || ('A' <= c && c <= 'F')
}

/// Numeric value of a hexadecimal digit.
pub open spec fn hex_val(c: char) -> int {
    if is_digit_char(c) {
        digit_val(c)
    } else if 'a' <= c && c <= 'f' {
        (c as int) - ('a' as int) + 10
    } else {
        (c as int) - ('A' as int) + 10
    }
}

/// Four hexadecimal digits stand at `i`.
pub open spec fn hex4_ok(s: Seq<char>, i: int) -> bool {
    &&& 0 <= i
    &&& i + 4 <= s.len()
    &&& is_hex_char(s[i])
    &&& is_hex_char(s[i + 1])
    &&& is_hex_char(s[i + 2])
    &&& is_hex_char(s[i + 3])
}

/// The value of the four hexadecimal digits at `i`.
pub open spec fn hex4_val(s: Seq<char>, i: int) -> int {
    hex_val(s[i]) * 0x1000 + hex_val(s[i + 1]) * 0x100 + hex_val(s[i + 2]) * 16 + hex_val(
        s[i + 3],
    )
}

/// The body of a string literal, read from just after the opening quote:
/// the decoded characters together with the position after the closing
/// quote. `None` when the literal is malformed.
pub open spec fn spec_str_body(s: Seq<char>, i: int) -> Option<(Seq<char>, int)>
    decreases s.len() - i,
{
    if !(0 <= i && i < s.len()) {
        None
    } else {
        let c = s[i];
        if c == '"' {
            Some((Seq::<char>::empty(), i + 1))
        } else if c == '\\' {
            if i + 1 >= s.len() {
                None
            } else {
                let e = s[i + 1];
                if e == '"' || e == '\\' || e == '/' {
                    match spec_str_body(s, i + 2) {
                        Some((t, j)) => Some((seq![e] + t, j)),
                        None => None,
                    }
                } else if e == 'b' || e == 'f' || e == 'n' || e == 'r' || e == 't' {
                    let d = if e == 'b' {
                        '\u{8}'
                    } else if e == 'f' {
                        '\u{c}'
                    } else if e == 'n' {
                        '\n'
                    } else if e == 'r' {
                        '\r'
                    } else {
                        '\t'
                    };
                    match spec_str_body(s, i + 2) {
                        Some((t, j)) => Some((seq![d] + t, j)),
                        None => None,
                    }
                } else if e == 'u' {
                    if !hex4_ok(s, i + 2) {
                        None
                    } else {
                        let v = hex4_val(s, i + 2);
                        if 0xD800 <= v && v < 0xDC00 {
                            if i + 8 <= s.len() && s[i + 6] == '\\' && s[i + 7] == 'u' && hex4_ok(
                                s,
                                i + 8,
                            ) {
                                let w = hex4_val(s, i + 8);
                                if 0xDC00 <= w && w < 0xE000 {
                                    let cp = 0x10000 + (v - 0xD800) * 0x400 + (w - 0xDC00);
                                    match spec_str_body(s, i + 12) {
                                        Some((t, j)) => Some((seq![(cp as u32) as char] + t, j)),
                                        None => None,
                                    }
                                } else {
                                    None
                                }
                            } else {
                                None
                            }
                        } else if 0xDC00 <= v && v < 0xE000 {
                            None
                        } else {
                            match spec_str_body(s, i + 6) {
                                Some((t, j)) => Some((seq![(v as u32) as char] + t, j)),
                                None => None,
                            }
                        }
                    }
                } else {
                    None
                }
            }
        } else if (c as u32) < 0x20 {
            None
        } else {
            match spec_str_body(s, i + 1) {
                Some((t, j)) => Some((seq![c] + t, j)),
                None => None,
            }
        }
    }
}

/// The position after the run of decimal digits that starts at `i`.
pub open spec fn spec_digits_end(s: Seq<char>, i: int) -> int
    decreases s.len() - i,
{
    if 0 <= i && i < s.len() && is_digit_char(s[i]) {
        spec_digits_end(s, i + 1)
    } else {
        i
    }
}

/// A number read at `i`: `Some((Some(n), j))` when it is a plain unsigned
/// integer with value `n` representable in 64 bits, `Some((None, j))` when it
/// is some other well-formed JSON number, `None` when no number stands here.
pub open spec fn spec_number(s: Seq<char>, i: int) -> Option<(Option<u64>, int)> {
    if !(0 <= i && i <= s.len()) {
        None
    } else {
        let start = if i < s.len() && s[i] == '-' {
            i + 1
        } else {
            i
        };
        let d_end = spec_digits_end(s, start);
        if d_end == start {
            None
        } else if s[start] == '0' && d_end > start + 1 {
            None
        } else {
            let frac_end = if d_end < s.len() && s[d_end] == '.' {
                let f = spec_digits_end(s, d_end + 1);
                if f == d_end + 1 {
                    -1
                } else {
                    f
                }
            } else {
                d_end
            };
            if frac_end < 0 {
                None
            } else {
                let exp_end = if frac_end < s.len() && (s[frac_end] == 'e' || s[frac_end]
                    == 'E') {
                    let es = if frac_end + 1 < s.len() && (s[frac_end + 1] == '+' || s[frac_end
                        + 1] == '-') {
                        frac_end + 2
                    } else {
                        frac_end + 1
                    };
                    let e = spec_digits_end(s, es);
                    if e == es {
                        -1
                    } else {
                        e
                    }
                } else {
                    frac_end
                };
                if exp_end < 0 {
                    None
                } else if start == i && frac_end == d_end && exp_end == frac_end && digits_val(
                    s.subrange(start, d_end),
                ) <= u64::MAX {
                    Some((Some(digits_val(s.subrange(start, d_end)) as u64), exp_end))
                } else {
                    Some((None, exp_end))
                }
            }
        }
    }
}

/// The exact keyword `w` stands at `i`.
pub open spec fn spec_keyword_at(s: Seq<char>, i: int, w: Seq<char>) -> bool {
    &&& 0 <= i
    &&& i + w.len() <= s.len()
    &&& s.subrange(i, i + w.len()) == w
}

/// Position after a skipped value, `None` when the value is malformed or
/// nested more deeply than `depth` allows.
pub open spec fn spec_skip_value(s: Seq<char>, i: int, depth: nat) -> Option<int>
    decreases depth, s.len() - i, 0int,
{
    if !(0 <= i && i <= s.len()) {
        None
    } else {
        let j = spec_skip_ws(s, i);
        if !(i <= j && j < s.len()) {
            None
        } else {
            let c = s[j];
            if c == '"' {
                match spec_str_body(s, j + 1) {
                    Some((_t, k)) => Some(k),
                    None => None,
                }
            } else if c == '{' {
                if depth == 0 {
                    None
                } else {
                    spec_skip_object(s, j + 1, (depth - 1) as nat)
                }
            } else if c == '[' {
                if depth == 0 {
                    None
                } else {
                    spec_skip_array(s, j + 1, (depth - 1) as nat)
                }
            } else if c == 't' {
                if spec_keyword_at(s, j, seq!['t', 'r', 'u', 'e']) {
                    Some(j + 4)
                } else {
                    None
                }
            } else if c == 'f' {
                if spec_keyword_at(s, j, seq!['f', 'a', 'l', 's', 'e']) {
                    Some(j + 5)
                } else {
                    None
                }
            } else if c == 'n' {
                if spec_keyword_at(s, j, seq!['n', 'u', 'l', 'l']) {
                    Some(j + 4)
                } else {
                    None
                }
            } else if c == '-' || is_digit_char(c) {
                match spec_number(s, j) {
                    Some((_n, k)) => Some(k),
                    None => None,
                }
            } else {
                None
            }
        }
    }
}

/// Position after the members and closing brace of a skipped object, read
/// from just after the opening brace.
pub open spec fn spec_skip_object(s: Seq<char>, i: int, depth: nat) -> Option<int>
    decreases depth, s.len() - i, 1int,
{
    if !(0 <= i && i <= s.len()) {
        None
    } else {
        let j = spec_skip_ws(s, i);
        if !(i <= j && j < s.len()) {
            None
        } else if s[j] == '}' {
            Some(j + 1)
        } else if s[j] == '"' {
            match spec_str_body(s, j + 1) {
                Some((_key, k)) => {
                    let l = spec_skip_ws(s, k);
                    if !(j + 1 < k && k <= l && l < s.len() && s[l] == ':') {
                        None
                    } else {
                        match spec_skip_value(s, l + 1, depth) {
                            Some(m) => {
                                let p = spec_skip_ws(s, m);
                                if !(j < p && m <= p && p < s.len()) {
                                    None
                                } else if s[p] == '}' {
                                    Some(p + 1)
                                } else if s[p] == ',' {
                                    spec_skip_object(s, p + 1, depth)
                                } else {
                                    None
                                }
                            },
                            None => None,
                        }
                    }
                },
                None => None,
            }
        } else {
            None
        }
    }
}

/// Position after the elements and closing bracket of a skipped array, read
/// from just after the opening bracket.
pub open spec fn spec_skip_array(s: Seq<char>, i: int, depth: nat) -> Option<int>
    decreases depth, s.len() - i, 1int,
{
    if !(0 <= i && i <= s.len()) {
        None
    } else {
        let j = spec_skip_ws(s, i);
        if !(i <= j && j < s.len()) {
            None
        } else if s[j] == ']' {
            Some(j + 1)
        } else {
            match spec_skip_value(s, j, depth) {
                Some(m) => {
                    let p = spec_skip_ws(s, m);
                    if !(i < p && m <= p && p < s.len()) {
                        None
                    } else if s[p] == ']' {
                        Some(p + 1)
                    } else if s[p] == ',' {
                        spec_skip_array(s, p + 1, depth)
                    } else {
                        None
                    }
                },
                None => None,
            }
        }
    }
}

/// A value of the nested object: strings, unsigned integers and `null` are
/// materialised, containers and everything else are skipped as `Other`.
pub open spec fn spec_leaf_value(s: Seq<char>, i: int, depth: nat) -> Option<(LeafValS, int)> {
    if !(0 <= i && i <= s.len()) {
        None
    } else {
        let j = spec_skip_ws(s, i);
        if !(i <= j && j < s.len()) {
            None
        } else {
            let c = s[j];
            if c == '"' {
                match spec_str_body(s, j + 1) {
                    Some((t, k)) => Some((LeafValS::Str(t), k)),
                    None => None,
                }
            } else if c == 'n' && spec_keyword_at(s, j, seq!['n', 'u', 'l', 'l']) {
                Some((LeafValS::Null, j + 4))
            } else if c == '-' || is_digit_char(c) {
                match spec_number(s, j) {
                    Some((Some(n), k)) => Some((LeafValS::UInt(n), k)),
                    Some((None, k)) => Some((LeafValS::Other, k)),
                    None => None,
                }
            } else {
                match spec_skip_value(s, j, depth) {
                    Some(k) => Some((LeafValS::Other, k)),
                    None => None,
                }
            }
        }
    }
}

/// The members of the nested object, read from just after its opening brace.
pub open spec fn spec_leaf_members(s: Seq<char>, i: int, depth: nat) -> Option<
    (Seq<(Seq<char>, LeafValS)>, int),
>
    decreases s.len() - i,
{
    if !(0 <= i && i <= s.len()) {
        None
    } else {
        let j = spec_skip_ws(s, i);
        if !(i <= j && j < s.len()) {
            None
        } else if s[j] == '}' {
            Some((Seq::empty(), j + 1))
        } else if s[j] == '"' {
            match spec_str_body(s, j + 1) {
                Some((key, k)) => {
                    let l = spec_skip_ws(s, k);
                    if !(k <= l && l < s.len() && s[l] == ':') {
                        None
                    } else {
                        match spec_leaf_value(s, l + 1, depth) {
                            Some((v, m)) => {
                                let p = spec_skip_ws(s, m);
                                if !(i < p && m <= p && p < s.len()) {
                                    None
                                } else if s[p] == '}' {
                                    Some((seq![(key, v)], p + 1))
                                } else if s[p] == ',' {
                                    match spec_leaf_members(s, p + 1, depth) {
                                        Some((rest, q)) => Some((seq![(key, v)] + rest, q)),
                                        None => None,
                                    }
                                } else {
                                    None
                                }
                            },
                            None => None,
                        }
                    }
                },
                None => None,
            }
        } else {
            None
        }
    }
}

/// A value of the top-level object: like a leaf value, but one nested object
/// is materialised member by member.
pub open spec fn spec_top_value(s: Seq<char>, i: int, depth: nat) -> Option<(TopValS, int)> {
    if !(0 <= i && i <= s.len()) {
        None
    } else {
        let j = spec_skip_ws(s, i);
        if !(i <= j && j < s.len()) {
            None
        } else {
            let c = s[j];
            if c == '{' {
                if depth == 0 {
                    None
                } else {
                    match spec_leaf_members(s, j + 1, (depth - 1) as nat) {
                        Some((ms, k)) => Some((TopValS::Obj(ms), k)),
                        None => None,
                    }
                }
            } else if c == '"' {
                match spec_str_body(s, j + 1) {
                    Some((t, k)) => Some((TopValS::Str(t), k)),
                    None => None,
                }
            } else if c == 'n' && spec_keyword_at(s, j, seq!['n', 'u', 'l', 'l']) {
                Some((TopValS::Null, j + 4))
            } else if c == '-' || is_digit_char(c) {
                match spec_number(s, j) {
                    Some((Some(n), k)) => Some((TopValS::UInt(n), k)),
                    Some((None, k)) => Some((TopValS::Other, k)),
                    None => None,
                }
            } else {
                match spec_skip_value(s, j, depth) {
                    Some(k) => Some((TopValS::Other, k)),
                    None => None,
                }
            }
        }
    }
}

/// The members of the top-level object, read from just after its opening
/// brace.
pub open spec fn spec_top_members(s: Seq<char>, i: int, depth: nat) -> Option<
    (Seq<(Seq<char>, TopValS)>, int),
>
    decreases s.len() - i,
{
    if !(0 <= i && i <= s.len()) {
        None
    } else {
        let j = spec_skip_ws(s, i);
        if !(i <= j && j < s.len()) {
            None
        } else if s[j] == '}' {
            Some((Seq::empty(), j + 1))
        } else if s[j] == '"' {
            match spec_str_body(s, j + 1) {
                Some((key, k)) => {
                    let l = spec_skip_ws(s, k);
                    if !(k <= l && l < s.len() && s[l] == ':') {
                        None
                    } else {
                        match spec_top_value(s, l + 1, depth) {
                            Some((v, m)) => {
                                let p = spec_skip_ws(s, m);
                                if !(i < p && m <= p && p < s.len()) {
                                    None
                                } else if s[p] == '}' {
                                    Some((seq![(key, v)], p + 1))
                                } else if s[p] == ',' {
                                    match spec_top_members(s, p + 1, depth) {
                                        Some((rest, q)) => Some((seq![(key, v)] + rest, q)),
                                        None => None,
                                    }
                                } else {
                                    None
                                }
                            },
                            None => None,
                        }
                    }
                },
                None => None,
            }
        } else {
            None
        }
    }
}

/// The whole document: optional whitespace, one object, optional whitespace,
/// end of text. The members of the object, in order of appearance.
pub open spec fn spec_document(s: Seq<char>) -> Option<Seq<(Seq<char>, TopValS)>> {
    let j = spec_skip_ws(s, 0);
    if !(j < s.len() && s[j] == '{') {
        None
    } else {
        match spec_top_members(s, j + 1, (MAX_DEPTH - 1) as nat) {
            Some((ms, k)) => {
                if spec_skip_ws(s, k) == s.len() {
                    Some(ms)
                } else {
                    None
                }
            },
            None => None,
        }
    }
}


/// Skips whitespace, returning the first interesting position.
pub fn skip_ws_x(s: &Vec<char>, i: usize) -> (j: usize)
    requires
        i <= s@.len(),
    ensures
        j as int == spec_skip_ws(s@, i as int),
        i <= j <= s@.len(),
{
    let mut j = i;
    while j < s.len() && space_char(s[j])
        invariant
            i <= j <= s@.len(),
            spec_skip_ws(s@, i as int) == spec_skip_ws(s@, j as int),
        decreases s@.len() - j,
    {
        j = j + 1;
    }
    j
}

/// Tests for a hexadecimal digit.
pub fn hex_char_x(c: char) -> (r: bool)
    ensures
        r == is_hex_char(c),
{
    digit_char(c) || ('a' <= c && c <= 'f') || ('A' <= c && c <= 'F')
}

/// Numeric value of a hexadecimal digit.
pub fn hex_val_x(c: char) -> (r: u32)
    requires
        is_hex_char(c),
    ensures
        r as int == hex_val(c),
        r < 16,
{
    if digit_char(c) {
        (c as u32) - ('0' as u32)
    } else if 'a' <= c && c <= 'f' {
        (c as u32) - ('a' as u32) + 10
    } else {
        (c as u32) - ('A' as u32) + 10
    }
}

/// Reads four hexadecimal digits at `i`, when they stand there.
pub fn hex4_x(s: &Vec<char>, i: usize) -> (r: Option<u32>)
    requires
        i <= s@.len(),
    ensures
        (r is Some) == hex4_ok(s@, i as int),
        r is Some ==> r->Some_0 as int == hex4_val(s@, i as int),
        r is Some ==> r->Some_0 < 0x10000,
{
    if s.len() >= 4 && i <= s.len() - 4 && hex_char_x(s[i]) && hex_char_x(s[i + 1])
        && hex_char_x(s[i + 2]) && hex_char_x(s[i + 3]) {
        Some(
            hex_val_x(s[i]) * 0x1000 + hex_val_x(s[i + 1]) * 0x100 + hex_val_x(s[i + 2]) * 16
                + hex_val_x(s[i + 3]),
        )
    } else {
        None
    }
}

/// Reads a string-literal body from just after the opening quote.
pub fn str_body_x(s: &Vec<char>, i: usize) -> (r: Option<(Vec<char>, usize)>)
    requires
        i <= s@.len(),
    ensures
        (r is Some) == (spec_str_body(s@, i as int) is Some),
        r is Some ==> {
            let (t, j) = spec_str_body(s@, i as int)->Some_0;
            r->Some_0.0@ == t && r->Some_0.1 as int == j && i < r->Some_0.1 <= s@.len()
        },
    decreases s@.len() - i,
{
    if i >= s.len() {
        return None;
    }
    let c = s[i];
    if c == '"' {
        Some((Vec::new(), i + 1))
    } else if c == '\\' {
        if i + 1 >= s.len() {
            return None;
        }
        let e = s[i + 1];
        if e == '"' || e == '\\' || e == '/' {
            match str_body_x(s, i + 2) {
                Some((t, j)) => {
                    let mut out: Vec<char> = Vec::new();
                    out.push(e);
                    let mut t = t;
                    out.append(&mut t);
                    Some((out, j))
                },
                None => None,
            }
        } else if e == 'b' || e == 'f' || e == 'n' || e == 'r' || e == 't' {
            let d: char = if e == 'b' {
                '\u{8}'
            } else if e == 'f' {
                '\u{c}'
            } else if e == 'n' {
                '\n'
            } else if e == 'r' {
                '\r'
            } else {
                '\t'
            };
            match str_body_x(s, i + 2) {
                Some((t, j)) => {
                    let mut out: Vec<char> = Vec::new();
                    out.push(d);
                    let mut t = t;
                    out.append(&mut t);
                    Some((out, j))
                },
                None => None,
            }
        } else if e == 'u' {
            match hex4_x(s, i + 2) {
                None => None,
                Some(v) => {
                    if 0xD800 <= v && v < 0xDC00 {
                        if s.len() >= 8 && i <= s.len() - 8 && s[i + 6] == '\\' && s[i + 7]
                            == 'u' {
                            match hex4_x(s, i + 8) {
                                None => None,
                                Some(w) => {
                                    if 0xDC00 <= w && w < 0xE000 {
                                        let cp: u32 = 0x10000 + (v - 0xD800) * 0x400 + (w
                                            - 0xDC00);
                                        let ch: char = match char::from_u32(cp) {
                                            Some(ch) => ch,
                                            None => {
                                                return None;
                                            },
                                        };
                                        proof {
                                            vstd::utf8::char_u32_cast(ch, cp);
                                        }
                                        match str_body_x(s, i + 12) {
                                            Some((t, j)) => {
                                                let mut out: Vec<char> = Vec::new();
                                                out.push(ch);
                                                let mut t = t;
                                                out.append(&mut t);
                                                Some((out, j))
                                            },
                                            None => None,
                                        }
                                    } else {
                                        None
                                    }
                                },
                            }
                        } else {
                            None
                        }
                    } else if 0xDC00 <= v && v < 0xE000 {
                        None
                    } else {
                        let ch: char = match char::from_u32(v) {
                            Some(ch) => ch,
                            None => {
                                return None;
                            },
                        };
                        proof {
                            vstd::utf8::char_u32_cast(ch, v);
                        }
                        match str_body_x(s, i + 6) {
                            Some((t, j)) => {
                                let mut out: Vec<char> = Vec::new();
                                out.push(ch);
                                let mut t = t;
                                out.append(&mut t);
                                Some((out, j))
                            },
                            None => None,
                        }
                    }
                },
            }
        } else {
            None
        }
    } else if (c as u32) < 0x20 {
        None
    } else {
        match str_body_x(s, i + 1) {
            Some((t, j)) => {
                let mut out: Vec<char> = Vec::new();
                out.push(c);
                let mut t = t;
                out.append(&mut t);
                Some((out, j))
            },
            None => None,
        }
    }
}

/// Finds the end of the digit run starting at `i`.
pub fn digits_end_x(s: &Vec<char>, i: usize) -> (j: usize)
    requires
        i <= s@.len(),
    ensures
        j as int == spec_digits_end(s@, i as int),
        i <= j <= s@.len(),
{
    let mut j = i;
    while j < s.len() && digit_char(s[j])
        invariant
            i <= j <= s@.len(),
            spec_digits_end(s@, i as int) == spec_digits_end(s@, j as int),
        decreases s@.len() - j,
    {
        j = j + 1;
    }
    j
}


/// Every character of the digit run is a digit.
pub proof fn lemma_digits_end_digits(s: Seq<char>, i: int)
    requires
        0 <= i <= s.len(),
    ensures
        forall|k: int| i <= k < spec_digits_end(s, i) ==> is_digit_char(s[k]),
    decreases s.len() - i,
{
    if i < s.len() && is_digit_char(s[i]) {
        lemma_digits_end_digits(s, i + 1);
    }
}

/// Appending one digit multiplies the value by ten and adds the digit.
pub proof fn lemma_digits_val_step(s: Seq<char>, start: int, i: int)
    requires
        0 <= start <= i < s.len(),
    ensures
        digits_val(s.subrange(start, i + 1)) == digits_val(s.subrange(start, i)) * 10
            + digit_val(s[i]),
{
    let w = s.subrange(start, i + 1);
    assert(w.drop_last() =~= s.subrange(start, i));
    assert(w.last() == s[i]);
}

/// Reads a JSON number at `i`.
pub fn number_x(s: &Vec<char>, i: usize) -> (r: Option<(Option<u64>, usize)>)
    requires
        i <= s@.len(),
    ensures
        (r is Some) == (spec_number(s@, i as int) is Some),
        r is Some ==> {
            let (n, j) = spec_number(s@, i as int)->Some_0;
            r->Some_0.0 == n && r->Some_0.1 as int == j && i < r->Some_0.1 <= s@.len()
        },
{
    let start: usize = if i < s.len() && s[i] == '-' {
        i + 1
    } else {
        i
    };
    let d_end = digits_end_x(s, start);
    if d_end == start {
        return None;
    }
    if s[start] == '0' && d_end > start + 1 {
        return None;
    }
    let frac_end: usize = if d_end < s.len() && s[d_end] == '.' {
        let f = digits_end_x(s, d_end + 1);
        if f == d_end + 1 {
            return None;
        }
        f
    } else {
        d_end
    };
    let exp_end: usize = if frac_end < s.len() && (s[frac_end] == 'e' || s[frac_end] == 'E') {
        let es: usize = if frac_end + 1 < s.len() && (s[frac_end + 1] == '+' || s[frac_end + 1]
            == '-') {
            frac_end + 2
        } else {
            frac_end + 1
        };
        let e = digits_end_x(s, es);
        if e == es {
            return None;
        }
        e
    } else {
        frac_end
    };
    if start == i && frac_end == d_end && exp_end == frac_end {
        proof {
            lemma_digits_end_digits(s@, start as int);
        }
        let mut val: u64 = 0;
        let mut ok: bool = true;
        let mut k: usize = start;
        while k < d_end
            invariant
                start <= k <= d_end,
                d_end <= s@.len(),
                d_end as int == spec_digits_end(s@, start as int),
                forall|m: int| start <= m < d_end ==> is_digit_char(#[trigger] s@[m]),
                ok ==> val as int == digits_val(s@.subrange(start as int, k as int)),
                !ok ==> digits_val(s@.subrange(start as int, k as int)) > u64::MAX,
            decreases d_end - k,
        {
            let d: u64 = ((s[k] as u32) - ('0' as u32)) as u64;
            proof {
                lemma_digits_val_step(s@, start as int, k as int);
                assert(d as int == digit_val(s@[k as int]));
            }
            if ok {
                if val > (u64::MAX - d) / 10 {
                    proof {
                        let v = val as int;
                        let dd = d as int;
                        assert(v * 10 + dd > u64::MAX) by {
                            assert(v >= (u64::MAX - dd) / 10 + 1);
                            assert(((u64::MAX - dd) / 10 + 1) * 10 == ((u64::MAX - dd) / 10) * 10
                                + 10);
                            assert(((u64::MAX - dd) / 10) * 10 > u64::MAX - dd - 10);
                            assert(v * 10 >= ((u64::MAX - dd) / 10 + 1) * 10) by (nonlinear_arith)
                                requires
                                    v >= (u64::MAX - dd) / 10 + 1,
                            ;
                        };
                    }
                    ok = false;
                } else {
                    proof {
                        let v = val as int;
                        let dd = d as int;
                        assert(v * 10 + dd <= u64::MAX) by {
                            assert(v <= (u64::MAX - dd) / 10);
                            assert(v * 10 <= ((u64::MAX - dd) / 10) * 10) by (nonlinear_arith)
                                requires
                                    v <= (u64::MAX - dd) / 10,
                            ;
                            assert(((u64::MAX - dd) / 10) * 10 <= u64::MAX - dd);
                        };
                    }
                    val = val * 10 + d;
                }
            } else {
                proof {
                    let prev = digits_val(s@.subrange(start as int, k as int));
                    assert(prev * 10 >= prev) by (nonlinear_arith)
                        requires
                            prev >= 0 || prev > 0xffff_ffff_ffff_ffff,
                    ;
                    assert(prev * 10 > u64::MAX) by (nonlinear_arith)
                        requires
                            prev > u64::MAX,
                    ;
                }
            }
            k = k + 1;
        }
        proof {
            assert(s@.subrange(start as int, d_end as int) == s@.subrange(
                start as int,
                k as int,
            ));
        }
        if ok {
            Some((Some(val), exp_end))
        } else {
            Some((None, exp_end))
        }
    } else {
        Some((None, exp_end))
    }
}


/// Tests for a four-character keyword at `j`.
pub fn kw4_x(s: &Vec<char>, j: usize, c0: char, c1: char, c2: char, c3: char) -> (r: bool)
    requires
        j <= s@.len(),
    ensures
        r == spec_keyword_at(s@, j as int, seq![c0, c1, c2, c3]),
{
    if s.len() >= 4 && j <= s.len() - 4 && s[j] == c0 && s[j + 1] == c1 && s[j + 2] == c2 && s[j
        + 3] == c3 {
        proof {
            assert(s@.subrange(j as int, j as int + 4) =~= seq![c0, c1, c2, c3]);
        }
        true
    } else {
        proof {
            if spec_keyword_at(s@, j as int, seq![c0, c1, c2, c3]) {
                let w = s@.subrange(j as int, j as int + 4);
                assert(s@[j as int] == w[0]);
                assert(s@[j as int + 1] == w[1]);
                assert(s@[j as int + 2] == w[2]);
                assert(s@[j as int + 3] == w[3]);
            }
        }
        false
    }
}

/// Tests for a five-character keyword at `j`.
pub fn kw5_x(s: &Vec<char>, j: usize, c0: char, c1: char, c2: char, c3: char, c4: char) -> (r:
    bool)
    requires
        j <= s@.len(),
    ensures
        r == spec_keyword_at(s@, j as int, seq![c0, c1, c2, c3, c4]),
{
    if s.len() >= 5 && j <= s.len() - 5 && s[j] == c0 && s[j + 1] == c1 && s[j + 2] == c2 && s[j
        + 3] == c3 && s[j + 4] == c4 {
        proof {
            assert(s@.subrange(j as int, j as int + 5) =~= seq![c0, c1, c2, c3, c4]);
        }
        true
    } else {
        proof {
            if spec_keyword_at(s@, j as int, seq![c0, c1, c2, c3, c4]) {
                let w = s@.subrange(j as int, j as int + 5);
                assert(s@[j as int] == w[0]);
                assert(s@[j as int + 1] == w[1]);
                assert(s@[j as int + 2] == w[2]);
                assert(s@[j as int + 3] == w[3]);
                assert(s@[j as int + 4] == w[4]);
            }
        }
        false
    }
}

/// Skips one value.
pub fn skip_value_x(s: &Vec<char>, i: usize, depth: u32) -> (r: Option<usize>)
    requires
        i <= s@.len(),
    ensures
        (r is Some) == (spec_skip_value(s@, i as int, depth as nat) is Some),
        r is Some ==> r->Some_0 as int == spec_skip_value(s@, i as int, depth as nat)->Some_0,
        r is Some ==> i < r->Some_0 <= s@.len(),
    decreases depth, s@.len() - i, 0int,
{
    let j = skip_ws_x(s, i);
    if j >= s.len() {
        return None;
    }
    let c = s[j];
    if c == '"' {
        match str_body_x(s, j + 1) {
            Some((_t, k)) => Some(k),
            None => None,
        }
    } else if c == '{' {
        if depth == 0 {
            None
        } else {
            skip_object_x(s, j + 1, depth - 1)
        }
    } else if c == '[' {
        if depth == 0 {
            None
        } else {
            skip_array_x(s, j + 1, depth - 1)
        }
    } else if c == 't' {
        if kw4_x(s, j, 't', 'r', 'u', 'e') {
            Some(j + 4)
        } else {
            None
        }
    } else if c == 'f' {
        if kw5_x(s, j, 'f', 'a', 'l', 's', 'e') {
            Some(j + 5)
        } else {
            None
        }
    } else if c == 'n' {
        if kw4_x(s, j, 'n', 'u', 'l', 'l') {
            Some(j + 4)
        } else {
            None
        }
    } else if c == '-' || digit_char(c) {
        match number_x(s, j) {
            Some((_n, k)) => Some(k),
            None => None,
        }
    } else {
        None
    }
}

/// Skips the members of an object, from just after the opening brace.
pub fn skip_object_x(s: &Vec<char>, i: usize, depth: u32) -> (r: Option<usize>)
    requires
        i <= s@.len(),
    ensures
        (r is Some) == (spec_skip_object(s@, i as int, depth as nat) is Some),
        r is Some ==> r->Some_0 as int == spec_skip_object(s@, i as int, depth as nat)->Some_0,
        r is Some ==> i < r->Some_0 <= s@.len(),
    decreases depth, s@.len() - i, 1int,
{
    let j = skip_ws_x(s, i);
    if j >= s.len() {
        return None;
    }
    if s[j] == '}' {
        Some(j + 1)
    } else if s[j] == '"' {
        match str_body_x(s, j + 1) {
            Some((_key, k)) => {
                let l = skip_ws_x(s, k);
                if !(j + 1 < k && l < s.len()) {
                    return None;
                }
                if s[l] != ':' {
                    return None;
                }
                match skip_value_x(s, l + 1, depth) {
                    Some(m) => {
                        let p = skip_ws_x(s, m);
                        if !(j < p && p < s.len()) {
                            return None;
                        }
                        if s[p] == '}' {
                            Some(p + 1)
                        } else if s[p] == ',' {
                            skip_object_x(s, p + 1, depth)
                        } else {
                            None
                        }
                    },
                    None => None,
                }
            },
            None => None,
        }
    } else {
        None
    }
}

/// Skips the elements of an array, from just after the opening bracket.
pub fn skip_array_x(s: &Vec<char>, i: usize, depth: u32) -> (r: Option<usize>)
    requires
        i <= s@.len(),
    ensures
        (r is Some) == (spec_skip_array(s@, i as int, depth as nat) is Some),
        r is Some ==> r->Some_0 as int == spec_skip_array(s@, i as int, depth as nat)->Some_0,
        r is Some ==> i < r->Some_0 <= s@.len(),
    decreases depth, s@.len() - i, 1int,
{
    let j = skip_ws_x(s, i);
    if j >= s.len() {
        return None;
    }
    if s[j] == ']' {
        Some(j + 1)
    } else {
        match skip_value_x(s, j, depth) {
            Some(m) => {
                let p = skip_ws_x(s, m);
                if !(i < p && p < s.len()) {
                    return None;
                }
                if s[p] == ']' {
                    Some(p + 1)
                } else if s[p] == ',' {
                    skip_array_x(s, p + 1, depth)
                } else {
                    None
                }
            },
            None => None,
        }
    }
}

/// Reads one value of the nested object.
pub fn leaf_value_x(s: &Vec<char>, i: usize, depth: u32) -> (r: Option<(LeafVal, usize)>)
    requires
        i <= s@.len(),
    ensures
        (r is Some) == (spec_leaf_value(s@, i as int, depth as nat) is Some),
        r is Some ==> {
            let (v, j) = spec_leaf_value(s@, i as int, depth as nat)->Some_0;
            r->Some_0.0@ == v && r->Some_0.1 as int == j && i < r->Some_0.1 <= s@.len()
        },
{
    let j = skip_ws_x(s, i);
    if j >= s.len() {
        return None;
    }
    let c = s[j];
    if c == '"' {
        match str_body_x(s, j + 1) {
            Some((t, k)) => Some((LeafVal::Str(t), k)),
            None => None,
        }
    } else if c == 'n' && kw4_x(s, j, 'n', 'u', 'l', 'l') {
        Some((LeafVal::Null, j + 4))
    } else if c == '-' || digit_char(c) {
        match number_x(s, j) {
            Some((Some(n), k)) => Some((LeafVal::UInt(n), k)),
            Some((None, k)) => Some((LeafVal::Other, k)),
            None => None,
        }
    } else {
        match skip_value_x(s, j, depth) {
            Some(k) => Some((LeafVal::Other, k)),
            None => None,
        }
    }
}

/// The member list of the nested object as the specification sees it.
pub open spec fn leaf_members_view(ms: Seq<(Vec<char>, LeafVal)>) -> Seq<(Seq<char>, LeafValS)> {
    Seq::new(ms.len(), |k: int| (ms[k].0@, ms[k].1@))
}

/// Reads the members of the nested object, from just after the opening
/// brace.
pub fn leaf_members_x(s: &Vec<char>, i: usize, depth: u32) -> (r: Option<
    (Vec<(Vec<char>, LeafVal)>, usize),
>)
    requires
        i <= s@.len(),
    ensures
        (r is Some) == (spec_leaf_members(s@, i as int, depth as nat) is Some),
        r is Some ==> {
            let (ms, j) = spec_leaf_members(s@, i as int, depth as nat)->Some_0;
            leaf_members_view(r->Some_0.0@) == ms && r->Some_0.1 as int == j && i < r->Some_0.1
                <= s@.len()
        },
    decreases s@.len() - i,
{
    let j = skip_ws_x(s, i);
    if j >= s.len() {
        return None;
    }
    if s[j] == '}' {
        proof {
            assert(leaf_members_view(Seq::<(Vec<char>, LeafVal)>::empty()) =~= Seq::<
                (Seq<char>, LeafValS),
            >::empty());
        }
        Some((Vec::new(), j + 1))
    } else if s[j] == '"' {
        match str_body_x(s, j + 1) {
            Some((key, k)) => {
                let l = skip_ws_x(s, k);
                if !(l < s.len()) {
                    return None;
                }
                if s[l] != ':' {
                    return None;
                }
                match leaf_value_x(s, l + 1, depth) {
                    Some((v, m)) => {
                        let p = skip_ws_x(s, m);
                        if !(i < p && p < s.len()) {
                            return None;
                        }
                        if s[p] == '}' {
                            let mut out: Vec<(Vec<char>, LeafVal)> = Vec::new();
                            out.push((key, v));
                            proof {
                                let ghost sm = spec_leaf_members(
                                    s@,
                                    i as int,
                                    depth as nat,
                                )->Some_0.0;
                                assert(leaf_members_view(out@) =~= sm);
                            }
                            Some((out, p + 1))
                        } else if s[p] == ',' {
                            match leaf_members_x(s, p + 1, depth) {
                                Some((rest, q)) => {
                                    let mut out: Vec<(Vec<char>, LeafVal)> = Vec::new();
                                    out.push((key, v));
                                    let mut rest = rest;
                                    out.append(&mut rest);
                                    proof {
                                        let ghost sm = spec_leaf_members(
                                            s@,
                                            i as int,
                                            depth as nat,
                                        )->Some_0.0;
                                        assert(leaf_members_view(out@) =~= sm);
                                    }
                                    Some((out, q))
                                },
                                None => None,
                            }
                        } else {
                            None
                        }
                    },
                    None => None,
                }
            },
            None => None,
        }
    } else {
        None
    }
}

/// Reads one value of the top-level object.
pub fn top_value_x(s: &Vec<char>, i: usize, depth: u32) -> (r: Option<(TopVal, usize)>)
    requires
        i <= s@.len(),
    ensures
        (r is Some) == (spec_top_value(s@, i as int, depth as nat) is Some),
        r is Some ==> {
            let (v, j) = spec_top_value(s@, i as int, depth as nat)->Some_0;
            r->Some_0.0@ == v && r->Some_0.1 as int == j && i < r->Some_0.1 <= s@.len()
        },
{
    let j = skip_ws_x(s, i);
    if j >= s.len() {
        return None;
    }
    let c = s[j];
    if c == '{' {
        if depth == 0 {
            None
        } else {
            match leaf_members_x(s, j + 1, depth - 1) {
                Some((ms, k)) => {
                    let v = TopVal::Obj(ms);
                    proof {
                        let (sv, sk) = spec_top_value(s@, i as int, depth as nat)->Some_0;
                        assert(v@ =~= sv);
                    }
                    Some((v, k))
                },
                None => None,
            }
        }
    } else if c == '"' {
        match str_body_x(s, j + 1) {
            Some((t, k)) => Some((TopVal::Str(t), k)),
            None => None,
        }
    } else if c == 'n' && kw4_x(s, j, 'n', 'u', 'l', 'l') {
        Some((TopVal::Null, j + 4))
    } else if c == '-' || digit_char(c) {
        match number_x(s, j) {
            Some((Some(n), k)) => Some((TopVal::UInt(n), k)),
            Some((None, k)) => Some((TopVal::Other, k)),
            None => None,
        }
    } else {
        match skip_value_x(s, j, depth) {
            Some(k) => Some((TopVal::Other, k)),
            None => None,
        }
    }
}

/// The member list of the top-level object as the specification sees it.
pub open spec fn top_members_view(ms: Seq<(Vec<char>, TopVal)>) -> Seq<(Seq<char>, TopValS)> {
    Seq::new(ms.len(), |k: int| (ms[k].0@, ms[k].1@))
}

/// Reads the members of the top-level object, from just after the opening
/// brace.
pub fn top_members_x(s: &Vec<char>, i: usize, depth: u32) -> (r: Option<
    (Vec<(Vec<char>, TopVal)>, usize),
>)
    requires
        i <= s@.len(),
    ensures
        (r is Some) == (spec_top_members(s@, i as int, depth as nat) is Some),
        r is Some ==> {
            let (ms, j) = spec_top_members(s@, i as int, depth as nat)->Some_0;
            top_members_view(r->Some_0.0@) == ms && r->Some_0.1 as int == j && i < r->Some_0.1
                <= s@.len()
        },
    decreases s@.len() - i,
{
    let j = skip_ws_x(s, i);
    if j >= s.len() {
        return None;
    }
    if s[j] == '}' {
        proof {
            assert(top_members_view(Seq::<(Vec<char>, TopVal)>::empty()) =~= Seq::<
                (Seq<char>, TopValS),
            >::empty());
        }
        Some((Vec::new(), j + 1))
    } else if s[j] == '"' {
        match str_body_x(s, j + 1) {
            Some((key, k)) => {
                let l = skip_ws_x(s, k);
                if !(l < s.len()) {
                    return None;
                }
                if s[l] != ':' {
                    return None;
                }
                match top_value_x(s, l + 1, depth) {
                    Some((v, m)) => {
                        let p = skip_ws_x(s, m);
                        if !(i < p && p < s.len()) {
                            return None;
                        }
                        if s[p] == '}' {
                            let mut out: Vec<(Vec<char>, TopVal)> = Vec::new();
                            out.push((key, v));
                            proof {
                                let ghost sm = spec_top_members(
                                    s@,
                                    i as int,
                                    depth as nat,
                                )->Some_0.0;
                                assert(top_members_view(out@) =~= sm);
                            }
                            Some((out, p + 1))
                        } else if s[p] == ',' {
                            match top_members_x(s, p + 1, depth) {
                                Some((rest, q)) => {
                                    let mut out: Vec<(Vec<char>, TopVal)> = Vec::new();
                                    out.push((key, v));
                                    let mut rest = rest;
                                    out.append(&mut rest);
                                    proof {
                                        let ghost sm = spec_top_members(
                                            s@,
                                            i as int,
                                            depth as nat,
                                        )->Some_0.0;
                                        assert(top_members_view(out@) =~= sm);
                                    }
                                    Some((out, q))
                                },
                                None => None,
                            }
                        } else {
                            None
                        }
                    },
                    None => None,
                }
            },
            None => None,
        }
    } else {
        None
    }
}

/// Reads a whole document: one object covering the entire text, up to
/// surrounding whitespace.
pub fn document_x(s: &Vec<char>) -> (r: Option<Vec<(Vec<char>, TopVal)>>)
    ensures
        (r is Some) == (spec_document(s@) is Some),
        r is Some ==> top_members_view(r->Some_0@) == spec_document(s@)->Some_0,
{
    let j = skip_ws_x(s, 0);
    if !(j < s.len()) {
        return None;
    }
    if s[j] != '{' {
        return None;
    }
    match top_members_x(s, j + 1, MAX_DEPTH - 1) {
        Some((ms, k)) => {
            let e = skip_ws_x(s, k);
            if e == s.len() {
                Some(ms)
            } else {
                None
            }
        },
        None => None,
    }
}

} // verus!
