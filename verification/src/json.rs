//! A small JSON reader, specified against a mathematical grammar.
//!
//! The scripting interpreter hands its answers back as one JSON value on
//! standard output, and the enrichment index answers with a JSON object, so
//! decoding JSON text is part of this crate's own logic. The executable
//! parser below is proved equal to the specification-level parser
//! (`sp_value` and friends): it succeeds exactly on the texts the grammar
//! admits, and returns exactly the value the grammar denotes.

use vstd::prelude::*;

use crate::text::char_from_code;
use crate::text::char_vec_to_string;
use crate::text::str_to_char_vec;

verus! {

broadcast use vstd::std_specs::vec::axiom_vec_index_decreases;

/// The mathematical shape of a JSON value. Number tokens are kept as their
/// raw text, so that integer fields can be read exactly and non-integer
/// numbers can be carried without a floating-point representation.
pub enum JsonModel {
    Null,
    Bool(bool),
    Num(Seq<char>),
    Str(Seq<char>),
    Arr(Seq<JsonModel>),
    Obj(Seq<(Seq<char>, JsonModel)>),
}

/// A parsed JSON value.
///
/// `Num` holds the raw number token; [`num_to_i64`] reads it as an integer
/// where one is expected. `Obj` keeps its members in source order.
pub enum JsonValue {
    Null,
    Bool(bool),
    Num(String),
    Str(String),
    Arr(Vec<JsonValue>),
    Obj(Vec<(String, JsonValue)>),
}

/// The model of one parsed object member.
pub open spec fn member_model(p: (String, JsonValue)) -> (Seq<char>, JsonModel)
    decreases p,
{
    (p.0@, p.1@)
}

impl View for JsonValue {
    type V = JsonModel;

    open spec fn view(&self) -> JsonModel
        decreases self,
    {
        match self {
            JsonValue::Null => JsonModel::Null,
            JsonValue::Bool(b) => JsonModel::Bool(*b),
            JsonValue::Num(t) => JsonModel::Num(t@),
            JsonValue::Str(t) => JsonModel::Str(t@),
            JsonValue::Arr(items) => JsonModel::Arr(
                Seq::new(
                    items@.len(),
                    |i: int|
                        if 0 <= i < items.len() {
                            items[i]@
                        } else {
                            JsonModel::Null
                        },
                ),
            ),
            JsonValue::Obj(fields) => JsonModel::Obj(
                Seq::new(
                    fields@.len(),
                    |i: int|
                        if 0 <= i < fields.len() {
                            member_model(fields[i])
                        } else {
                            (Seq::empty(), JsonModel::Null)
                        },
                ),
            ),
        }
    }
}

/// The models of a sequence of parsed values, element by element.
pub open spec fn model_seq(items: Seq<JsonValue>) -> Seq<JsonModel> {
    Seq::new(
        items.len(),
        |i: int|
            if 0 <= i < items.len() {
                items[i]@
            } else {
                JsonModel::Null
            },
    )
}

/// The models of a sequence of parsed object members, element by element.
pub open spec fn model_fields(fields: Seq<(String, JsonValue)>) -> Seq<(Seq<char>, JsonModel)> {
    Seq::new(
        fields.len(),
        |i: int|
            if 0 <= i < fields.len() {
                member_model(fields[i])
            } else {
                (Seq::empty(), JsonModel::Null)
            },
    )
}

/// JSON insignificant whitespace.
pub open spec fn is_ws(c: char) -> bool {
    c == ' ' || c == '\t' || c == '\n' || c == '\r'
}

/// An ASCII decimal digit.
pub open spec fn is_digit(c: char) -> bool {
    '0' <= c && c <= '9'
}

/// The first position at or after `i` holding no whitespace.
pub open spec fn sp_ws(s: Seq<char>, i: int) -> int
    decreases s.len() - i,
{
    if 0 <= i < s.len() && is_ws(s[i]) {
        sp_ws(s, i + 1)
    } else {
        i
    }
}

/// The end of the digit run starting at `i`.
pub open spec fn sp_digits_end(s: Seq<char>, i: int) -> int
    decreases s.len() - i,
{
    if 0 <= i < s.len() && is_digit(s[i]) {
        sp_digits_end(s, i + 1)
    } else {
        i
    }
}

/// The number token starting at `i`, per the JSON grammar: an optional
/// minus, an integer part with no leading zero, an optional fraction, an
/// optional exponent. Yields the raw token text and the position after it.
pub open spec fn sp_num(s: Seq<char>, i: int) -> Option<(Seq<char>, int)> {
    let d = if 0 <= i < s.len() && s[i] == '-' {
        i + 1
    } else {
        i
    };
    let e1 = sp_digits_end(s, d);
    if !(d < e1) {
        None
    } else if s[d] == '0' && e1 != d + 1 {
        None
    } else {
        let e2 = if e1 < s.len() && s[e1] == '.' {
            sp_digits_end(s, e1 + 1)
        } else {
            e1
        };
        if e1 < s.len() && s[e1] == '.' && !(e1 + 1 < e2) {
            None
        } else {
            let x = if e2 < s.len() && (s[e2] == 'e' || s[e2] == 'E') {
                if e2 + 1 < s.len() && (s[e2 + 1] == '+' || s[e2 + 1] == '-') {
                    e2 + 2
                } else {
                    e2 + 1
                }
            } else {
                e2
            };
            let e3 = sp_digits_end(s, x);
            if e2 < s.len() && (s[e2] == 'e' || s[e2] == 'E') && !(x < e3) {
                None
            } else if e2 < s.len() && (s[e2] == 'e' || s[e2] == 'E') {
                Some((s.subrange(i, e3), e3))
            } else {
                Some((s.subrange(i, e2), e2))
            }
        }
    }
}

/// The value of one hexadecimal digit character.
pub open spec fn hex_val(c: char) -> Option<u32> {
    let d = c as u32;
    if 48 <= d && d <= 57 {
        Some((d - 48) as u32)
    } else if 97 <= d && d <= 102 {
        Some((d - 87) as u32)
    } else if 65 <= d && d <= 70 {
        Some((d - 55) as u32)
    } else {
        None
    }
}

/// The value of the four hexadecimal digits at `i`.
pub open spec fn hex4(s: Seq<char>, i: int) -> Option<u32> {
    if !(0 <= i && i + 4 <= s.len()) {
        None
    } else {
        match (hex_val(s[i]), hex_val(s[i + 1]), hex_val(s[i + 2]), hex_val(s[i + 3])) {
            (Some(a), Some(b), Some(c), Some(d)) => Some(
                (a * 4096 + b * 256 + c * 16 + d) as u32,
            ),
            _ => None,
        }
    }
}

/// The character a single-letter escape denotes, if it is a legal one.
pub open spec fn esc_char(e: char) -> Option<char> {
    match e {
        '"' => Some('"'),
        '\\' => Some('\\'),
        '/' => Some('/'),
        'b' => Some('\u{0008}'),
        'f' => Some('\u{000C}'),
        'n' => Some('\n'),
        'r' => Some('\r'),
        't' => Some('\t'),
        _ => None,
    }
}

/// The decoded content of a string body starting at `i` (just after the
/// opening quote), and the position after the closing quote. Handles the
/// single-letter escapes and `\u` escapes, including surrogate pairs;
/// rejects unpaired surrogates, raw control characters and unterminated
/// strings.
pub open spec fn sp_str_chars(s: Seq<char>, i: int) -> Option<(Seq<char>, int)>
    decreases s.len() - i,
{
    if !(0 <= i < s.len()) {
        None
    } else {
        let c = s[i];
        if c == '"' {
            Some((Seq::empty(), i + 1))
        } else if c == '\\' {
            if !(i + 1 < s.len()) {
                None
            } else if s[i + 1] == 'u' {
                match hex4(s, i + 2) {
                    None => None,
                    Some(code) => if code < 0xD800 || code >= 0xE000 {
                        match sp_str_chars(s, i + 6) {
                            None => None,
                            Some((rest, j)) => Some((seq![code as char] + rest, j)),
                        }
                    } else if code < 0xDC00 {
                        if !(s.len() - i >= 8 && s[i + 6] == '\\' && s[i + 7] == 'u') {
                            None
                        } else {
                            match hex4(s, i + 8) {
                                None => None,
                                Some(lo) => if !(0xDC00 <= lo && lo < 0xE000) {
                                    None
                                } else {
                                    let cp = 0x10000 + (code - 0xD800) * 0x400 + (lo - 0xDC00);
                                    match sp_str_chars(s, i + 12) {
                                        None => None,
                                        Some((rest, j)) => Some((seq![cp as char] + rest, j)),
                                    }
                                },
                            }
                        }
                    } else {
                        None
                    },
                }
            } else {
                match esc_char(s[i + 1]) {
                    None => None,
                    Some(dc) => match sp_str_chars(s, i + 2) {
                        None => None,
                        Some((rest, j)) => Some((seq![dc] + rest, j)),
                    },
                }
            }
        } else if (c as u32) < 0x20 {
            None
        } else {
            match sp_str_chars(s, i + 1) {
                None => None,
                Some((rest, j)) => Some((seq![c] + rest, j)),
            }
        }
    }
}

fn hex_val_exec(c: char) -> (r: Option<u32>)
    ensures
        r == hex_val(c),
{
    let d = c as u32;
    if 48 <= d && d <= 57 {
        Some(d - 48)
    } else if 97 <= d && d <= 102 {
        Some(d - 87)
    } else if 65 <= d && d <= 70 {
        Some(d - 55)
    } else {
        None
    }
}

fn hex4_exec(s: &Vec<char>, i: usize) -> (r: Option<u32>)
    requires
        i + 4 <= s.len(),
    ensures
        r == hex4(s@, i as int),
        r matches Some(code) ==> code < 0x1_0000,
{
    let a = hex_val_exec(s[i]);
    let b = hex_val_exec(s[i + 1]);
    let c = hex_val_exec(s[i + 2]);
    let d = hex_val_exec(s[i + 3]);
    match (a, b, c, d) {
        (Some(a), Some(b), Some(c), Some(d)) => Some(a * 4096 + b * 256 + c * 16 + d),
        _ => None,
    }
}

/// Decodes a string body; the executable mirror of [`sp_str_chars`].
/// Appends the decoded content to `out`.
fn scan_str_chars(s: &Vec<char>, i: usize, out: &mut Vec<char>) -> (r: Option<usize>)
    requires
        i <= s.len(),
    ensures
        match r {
            Some(j) => {
                &&& sp_str_chars(s@, i as int) matches Some((content, jj)) && jj == j as int
                    && final(out)@ == old(out)@ + content
                &&& i < j <= s.len()
            },
            None => sp_str_chars(s@, i as int) is None,
        },
    decreases s.len() - i,
{
    if !(i < s.len()) {
        return None;
    }
    let c = s[i];
    if c == '"' {
        assert(out@ =~= out@ + Seq::<char>::empty());
        return Some(i + 1);
    }
    if c == '\\' {
        if !(i + 1 < s.len()) {
            return None;
        }
        if s[i + 1] == 'u' {
            if !(s.len() - i >= 6) {
                assert(hex4(s@, i + 2 as int) is None);
                return None;
            }
            let code = match hex4_exec(s, i + 2) {
                None => {
                    return None;
                },
                Some(code) => code,
            };
            if code < 0xD800 || code >= 0xE000 {
                let ch = match char_from_code(code) {
                    None => {
                        assert(false);
                        return None;
                    },
                    Some(ch) => ch,
                };
                let ghost out0 = out@;
                out.push(ch);
                let r = scan_str_chars(s, i + 6, out);
                match r {
                    None => {
                        return None;
                    },
                    Some(j) => {
                        proof {
                            let (rest, jj) = sp_str_chars(s@, i + 6 as int)->Some_0;
                            assert(out@ =~= out0 + (seq![code as char] + rest));
                        }
                        return Some(j);
                    },
                }
            } else if code < 0xDC00 {
                if !(s.len() - i >= 8 && s[i + 6] == '\\' && s[i + 7] == 'u') {
                    return None;
                }
                if !(s.len() - i >= 12) {
                    assert(hex4(s@, i + 8 as int) is None);
                    return None;
                }
                let lo = match hex4_exec(s, i + 8) {
                    None => {
                        return None;
                    },
                    Some(lo) => lo,
                };
                if !(0xDC00 <= lo && lo < 0xE000) {
                    return None;
                }
                let cp: u32 = 0x10000 + (code - 0xD800) * 0x400 + (lo - 0xDC00);
                let ch = match char_from_code(cp) {
                    None => {
                        assert(false);
                        return None;
                    },
                    Some(ch) => ch,
                };
                let ghost out0 = out@;
                out.push(ch);
                let r = scan_str_chars(s, i + 12, out);
                match r {
                    None => {
                        return None;
                    },
                    Some(j) => {
                        proof {
                            let (rest, jj) = sp_str_chars(s@, i + 12 as int)->Some_0;
                            let code_sp = hex4(s@, i + 2 as int)->Some_0;
                            let lo_sp = hex4(s@, i + 8 as int)->Some_0;
                            let cp_sp = 0x10000 + (code_sp - 0xD800) * 0x400 + (lo_sp - 0xDC00);
                            assert(cp == cp_sp);
                            assert(out@ =~= out0 + (seq![cp_sp as char] + rest));
                        }
                        return Some(j);
                    },
                }
            } else {
                return None;
            }
        }
        let dc = match esc_char_exec(s[i + 1]) {
            None => {
                return None;
            },
            Some(dc) => dc,
        };
        let ghost out0 = out@;
        out.push(dc);
        let r = scan_str_chars(s, i + 2, out);
        match r {
            None => {
                return None;
            },
            Some(j) => {
                proof {
                    let (rest, jj) = sp_str_chars(s@, i + 2 as int)->Some_0;
                    assert(out@ =~= out0 + (seq![dc] + rest));
                }
                return Some(j);
            },
        }
    }
    if (c as u32) < 0x20 {
        return None;
    }
    let ghost out0 = out@;
    out.push(c);
    let r = scan_str_chars(s, i + 1, out);
    match r {
        None => None,
        Some(j) => {
            proof {
                let (rest, jj) = sp_str_chars(s@, i + 1 as int)->Some_0;
                assert(out@ =~= out0 + (seq![c] + rest));
            }
            Some(j)
        },
    }
}

fn esc_char_exec(e: char) -> (r: Option<char>)
    ensures
        r == esc_char(e),
{
    match e {
        '"' => Some('"'),
        '\\' => Some('\\'),
        '/' => Some('/'),
        'b' => Some('\u{0008}'),
        'f' => Some('\u{000C}'),
        'n' => Some('\n'),
        'r' => Some('\r'),
        't' => Some('\t'),
        _ => None,
    }
}

/// Skips whitespace; the executable mirror of [`sp_ws`].
fn skip_ws(s: &Vec<char>, i: usize) -> (r: usize)
    requires
        i <= s.len(),
    ensures
        r == sp_ws(s@, i as int),
        i <= r <= s.len(),
{
    let mut j = i;
    while j < s.len() && (s[j] == ' ' || s[j] == '\t' || s[j] == '\n' || s[j] == '\r')
        invariant
            i <= j <= s.len(),
            sp_ws(s@, i as int) == sp_ws(s@, j as int),
        decreases s.len() - j,
    {
        j += 1;
    }
    j
}

/// Scans a digit run; the executable mirror of [`sp_digits_end`].
fn scan_digits(s: &Vec<char>, i: usize) -> (r: usize)
    requires
        i <= s.len(),
    ensures
        r == sp_digits_end(s@, i as int),
        i <= r <= s.len(),
{
    let mut j = i;
    while j < s.len() && '0' <= s[j] && s[j] <= '9'
        invariant
            i <= j <= s.len(),
            sp_digits_end(s@, i as int) == sp_digits_end(s@, j as int),
        decreases s.len() - j,
    {
        j += 1;
    }
    j
}

/// Copies `s[a..b]` into a fresh string.
fn subrange_string(s: &Vec<char>, a: usize, b: usize) -> (r: String)
    requires
        a <= b <= s.len(),
    ensures
        r@ == s@.subrange(a as int, b as int),
{
    let mut out: Vec<char> = Vec::new();
    let mut j = a;
    while j < b
        invariant
            a <= j <= b <= s.len(),
            out@ == s@.subrange(a as int, j as int),
        decreases b - j,
    {
        out.push(s[j]);
        assert(out@ =~= s@.subrange(a as int, j + 1 as int));
        j += 1;
    }
    char_vec_to_string(&out)
}

/// Scans a number token; the executable mirror of [`sp_num`].
fn scan_num(s: &Vec<char>, i: usize) -> (r: Option<(String, usize)>)
    requires
        i <= s.len(),
    ensures
        match r {
            Some((t, j)) => sp_num(s@, i as int) == Some((t@, j as int)) && i < j <= s.len(),
            None => sp_num(s@, i as int) is None,
        },
{
    let d = if i < s.len() && s[i] == '-' {
        i + 1
    } else {
        i
    };
    let e1 = scan_digits(s, d);
    if !(d < e1) {
        return None;
    }
    if s[d] == '0' && e1 != d + 1 {
        return None;
    }
    let e2 = if e1 < s.len() && s[e1] == '.' {
        scan_digits(s, e1 + 1)
    } else {
        e1
    };
    if e1 < s.len() && s[e1] == '.' && !(e1 + 1 < e2) {
        return None;
    }
    if e2 < s.len() && (s[e2] == 'e' || s[e2] == 'E') {
        let x = if e2 + 1 < s.len() && (s[e2 + 1] == '+' || s[e2 + 1] == '-') {
            e2 + 2
        } else {
            e2 + 1
        };
        let e3 = scan_digits(s, x);
        if !(x < e3) {
            return None;
        }
        Some((subrange_string(s, i, e3), e3))
    } else {
        Some((subrange_string(s, i, e2), e2))
    }
}

/// The JSON value starting at `i` (no leading whitespace), and the position
/// after it.
pub open spec fn sp_value(s: Seq<char>, i: int) -> Option<(JsonModel, int)>
    decreases s.len() - i,
{
    if !(0 <= i < s.len()) {
        None
    } else {
        let c = s[i];
        if c == 'n' {
            if i + 4 <= s.len() && s[i + 1] == 'u' && s[i + 2] == 'l' && s[i + 3] == 'l' {
                Some((JsonModel::Null, i + 4))
            } else {
                None
            }
        } else if c == 't' {
            if i + 4 <= s.len() && s[i + 1] == 'r' && s[i + 2] == 'u' && s[i + 3] == 'e' {
                Some((JsonModel::Bool(true), i + 4))
            } else {
                None
            }
        } else if c == 'f' {
            if i + 5 <= s.len() && s[i + 1] == 'a' && s[i + 2] == 'l' && s[i + 3] == 's' && s[i + 4]
                == 'e' {
                Some((JsonModel::Bool(false), i + 5))
            } else {
                None
            }
        } else if c == '"' {
            match sp_str_chars(s, i + 1) {
                None => None,
                Some((content, j)) => Some((JsonModel::Str(content), j)),
            }
        } else if c == '-' || is_digit(c) {
            match sp_num(s, i) {
                None => None,
                Some((raw, j)) => Some((JsonModel::Num(raw), j)),
            }
        } else if c == '[' {
            let k = sp_ws(s, i + 1);
            if !(i < k <= s.len()) {
                None
            } else if k < s.len() && s[k] == ']' {
                Some((JsonModel::Arr(Seq::empty()), k + 1))
            } else {
                match sp_value(s, k) {
                    None => None,
                    Some((v0, j0)) => if !(k < j0 <= s.len()) {
                        None
                    } else {
                        match sp_arr_rest(s, j0, seq![v0]) {
                            None => None,
                            Some((items, j)) => Some((JsonModel::Arr(items), j)),
                        }
                    },
                }
            }
        } else if c == '{' {
            let k = sp_ws(s, i + 1);
            if !(i < k <= s.len()) {
                None
            } else if k < s.len() && s[k] == '}' {
                Some((JsonModel::Obj(Seq::empty()), k + 1))
            } else {
                match sp_member(s, k) {
                    None => None,
                    Some(((key, v0), j0)) => if !(k < j0 <= s.len()) {
                        None
                    } else {
                        match sp_obj_rest(s, j0, seq![(key, v0)]) {
                            None => None,
                            Some((fields, j)) => Some((JsonModel::Obj(fields), j)),
                        }
                    },
                }
            }
        } else {
            None
        }
    }
}

/// One object member (`"key" : value`) starting at `i`, and the position
/// after its value.
pub open spec fn sp_member(s: Seq<char>, i: int) -> Option<((Seq<char>, JsonModel), int)>
    decreases s.len() - i,
{
    if !(0 <= i < s.len() && s[i] == '"') {
        None
    } else {
        match sp_str_chars(s, i + 1) {
            None => None,
            Some((key, jk)) => {
                let kc = sp_ws(s, jk);
                if !(i < kc && kc < s.len() && s[kc] == ':') {
                    None
                } else {
                    let p = sp_ws(s, kc + 1);
                    if !(i < p <= s.len()) {
                        None
                    } else {
                        match sp_value(s, p) {
                            None => None,
                            Some((v, j)) => Some(((key, v), j)),
                        }
                    }
                }
            },
        }
    }
}

/// The remainder of an array after `acc`'s elements: either `]`, or a comma
/// and one more element, repeated.
pub open spec fn sp_arr_rest(s: Seq<char>, i: int, acc: Seq<JsonModel>) -> Option<
    (Seq<JsonModel>, int),
>
    decreases s.len() - i,
{
    if !(0 <= i <= s.len()) {
        None
    } else {
        let k = sp_ws(s, i);
        if !(i <= k < s.len()) {
            None
        } else if s[k] == ']' {
            Some((acc, k + 1))
        } else if s[k] == ',' {
            let m = sp_ws(s, k + 1);
            if !(i < m <= s.len()) {
                None
            } else {
                match sp_value(s, m) {
                    None => None,
                    Some((v, j)) => if !(m < j <= s.len()) {
                        None
                    } else {
                        sp_arr_rest(s, j, acc.push(v))
                    },
                }
            }
        } else {
            None
        }
    }
}

/// The remainder of an object after `acc`'s members: either `}`, or a comma
/// and one more member, repeated.
pub open spec fn sp_obj_rest(s: Seq<char>, i: int, acc: Seq<(Seq<char>, JsonModel)>) -> Option<
    (Seq<(Seq<char>, JsonModel)>, int),
>
    decreases s.len() - i,
{
    if !(0 <= i <= s.len()) {
        None
    } else {
        let k = sp_ws(s, i);
        if !(i <= k < s.len()) {
            None
        } else if s[k] == '}' {
            Some((acc, k + 1))
        } else if s[k] == ',' {
            let m = sp_ws(s, k + 1);
            if !(i < m <= s.len()) {
                None
            } else {
                match sp_member(s, m) {
                    None => None,
                    Some(((key, v), j)) => if !(m < j <= s.len()) {
                        None
                    } else {
                        sp_obj_rest(s, j, acc.push((key, v)))
                    },
                }
            }
        } else {
            None
        }
    }
}

/// A complete JSON text: one value with nothing but whitespace around it.
pub open spec fn sp_text(s: Seq<char>) -> Option<JsonModel> {
    let i = sp_ws(s, 0);
    match sp_value(s, i) {
        None => None,
        Some((v, j)) => if sp_ws(s, j) == s.len() {
            Some(v)
        } else {
            None
        },
    }
}

/// Parses one JSON value; the executable mirror of [`sp_value`].
fn parse_value(s: &Vec<char>, i: usize) -> (r: Option<(JsonValue, usize)>)
    requires
        i <= s.len(),
    ensures
        match r {
            Some((v, j)) => sp_value(s@, i as int) == Some((v@, j as int)) && i < j <= s.len(),
            None => sp_value(s@, i as int) is None,
        },
    decreases s.len() - i,
{
    if !(i < s.len()) {
        return None;
    }
    let c = s[i];
    if c == 'n' {
        if s.len() - i >= 4 && s[i + 1] == 'u' && s[i + 2] == 'l' && s[i + 3] == 'l' {
            Some((JsonValue::Null, i + 4))
        } else {
            None
        }
    } else if c == 't' {
        if s.len() - i >= 4 && s[i + 1] == 'r' && s[i + 2] == 'u' && s[i + 3] == 'e' {
            Some((JsonValue::Bool(true), i + 4))
        } else {
            None
        }
    } else if c == 'f' {
        if s.len() - i >= 5 && s[i + 1] == 'a' && s[i + 2] == 'l' && s[i + 3] == 's' && s[i + 4]
            == 'e' {
            Some((JsonValue::Bool(false), i + 5))
        } else {
            None
        }
    } else if c == '"' {
        let mut content: Vec<char> = Vec::new();
        match scan_str_chars(s, i + 1, &mut content) {
            None => None,
            Some(j) => {
                let text = char_vec_to_string(&content);
                Some((JsonValue::Str(text), j))
            },
        }
    } else if c == '-' || ('0' <= c && c <= '9') {
        match scan_num(s, i) {
            None => None,
            Some((raw, j)) => Some((JsonValue::Num(raw), j)),
        }
    } else if c == '[' {
        let k = skip_ws(s, i + 1);
        if k < s.len() && s[k] == ']' {
            let items: Vec<JsonValue> = Vec::new();
            let v = JsonValue::Arr(items);
            proof {
                assert(v@->Arr_0 =~= Seq::<JsonModel>::empty());
            }
            return Some((v, k + 1));
        }
        match parse_value(s, k) {
            None => None,
            Some((v0, j0)) => {
                let mut items: Vec<JsonValue> = Vec::new();
                let ghost m0 = v0@;
                items.push(v0);
                proof {
                    assert(model_seq(items@) =~= seq![m0]);
                }
                match parse_arr_rest(s, j0, &mut items) {
                    None => None,
                    Some(j) => {
                        let v = JsonValue::Arr(items);
                        proof {
                            let (elems, jj) = sp_arr_rest(s@, j0 as int, seq![m0])->Some_0;
                            assert(v@->Arr_0 =~= elems);
                        }
                        Some((v, j))
                    },
                }
            },
        }
    } else if c == '{' {
        let k = skip_ws(s, i + 1);
        if k < s.len() && s[k] == '}' {
            let fields: Vec<(String, JsonValue)> = Vec::new();
            let v = JsonValue::Obj(fields);
            proof {
                assert(v@->Obj_0 =~= Seq::<(Seq<char>, JsonModel)>::empty());
            }
            return Some((v, k + 1));
        }
        match parse_member(s, k) {
            None => None,
            Some(((key, v0), j0)) => {
                let mut fields: Vec<(String, JsonValue)> = Vec::new();
                let ghost km = key@;
                let ghost m0 = v0@;
                fields.push((key, v0));
                proof {
                    assert(model_fields(fields@) =~~= seq![(km, m0)]);
                }
                match parse_obj_rest(s, j0, &mut fields) {
                    None => None,
                    Some(j) => {
                        let ghost ff = fields@;
                        let v = JsonValue::Obj(fields);
                        proof {
                            let (mems, jj) = sp_obj_rest(s@, j0 as int, seq![(km, m0)])->Some_0;
                            assert(mems == model_fields(ff));
                            assert(v@->Obj_0 =~~= model_fields(ff));
                        }
                        Some((v, j))
                    },
                }
            },
        }
    } else {
        None
    }
}

/// Parses one object member; the executable mirror of [`sp_member`].
fn parse_member(s: &Vec<char>, i: usize) -> (r: Option<((String, JsonValue), usize)>)
    requires
        i <= s.len(),
    ensures
        match r {
            Some(((key, v), j)) => sp_member(s@, i as int) == Some(((key@, v@), j as int)) && i < j
                <= s.len(),
            None => sp_member(s@, i as int) is None,
        },
    decreases s.len() - i,
{
    if !(i < s.len() && s[i] == '"') {
        return None;
    }
    let mut keybuf: Vec<char> = Vec::new();
    let jk = match scan_str_chars(s, i + 1, &mut keybuf) {
        None => {
            return None;
        },
        Some(jk) => jk,
    };
    let kc = skip_ws(s, jk);
    if !(kc < s.len() && s[kc] == ':') {
        return None;
    }
    let p = skip_ws(s, kc + 1);
    match parse_value(s, p) {
        None => None,
        Some((v, j)) => {
            let key = char_vec_to_string(&keybuf);
            Some(((key, v), j))
        },
    }
}

/// Parses the remainder of an array; the executable mirror of
/// [`sp_arr_rest`]. Appends the further elements to `items`.
fn parse_arr_rest(s: &Vec<char>, i: usize, items: &mut Vec<JsonValue>) -> (r: Option<usize>)
    requires
        i <= s.len(),
    ensures
        match r {
            Some(j) => sp_arr_rest(s@, i as int, model_seq(old(items)@)) == Some(
                (model_seq(final(items)@), j as int),
            ) && i < j <= s.len(),
            None => sp_arr_rest(s@, i as int, model_seq(old(items)@)) is None,
        },
    decreases s.len() - i,
{
    let k = skip_ws(s, i);
    if !(k < s.len()) {
        return None;
    }
    if s[k] == ']' {
        return Some(k + 1);
    }
    if !(s[k] == ',') {
        return None;
    }
    let m = skip_ws(s, k + 1);
    match parse_value(s, m) {
        None => None,
        Some((v, j1)) => {
            let ghost mid = model_seq(items@).push(v@);
            items.push(v);
            proof {
                assert(model_seq(items@) =~= mid);
            }
            parse_arr_rest(s, j1, items)
        },
    }
}

/// Parses the remainder of an object; the executable mirror of
/// [`sp_obj_rest`]. Appends the further members to `fields`.
fn parse_obj_rest(s: &Vec<char>, i: usize, fields: &mut Vec<(String, JsonValue)>) -> (r: Option<
    usize,
>)
    requires
        i <= s.len(),
    ensures
        match r {
            Some(j) => sp_obj_rest(s@, i as int, model_fields(old(fields)@)) == Some(
                (model_fields(final(fields)@), j as int),
            ) && i < j <= s.len(),
            None => sp_obj_rest(s@, i as int, model_fields(old(fields)@)) is None,
        },
    decreases s.len() - i,
{
    let k = skip_ws(s, i);
    if !(k < s.len()) {
        return None;
    }
    if s[k] == '}' {
        return Some(k + 1);
    }
    if !(s[k] == ',') {
        return None;
    }
    let m = skip_ws(s, k + 1);
    match parse_member(s, m) {
        None => None,
        Some(((key, v), j1)) => {
            let ghost mid = model_fields(fields@).push((key@, v@));
            fields.push((key, v));
            proof {
                assert(model_fields(fields@) =~~= mid);
            }
            parse_obj_rest(s, j1, fields)
        },
    }
}

/// Parses a complete JSON text: exactly one value, surrounded only by
/// whitespace. Returns the value the grammar denotes for the text, and
/// `None` exactly when the text is not a JSON value.
pub fn parse_json(text: &str) -> (r: Option<JsonValue>)
    ensures
        match r {
            Some(v) => sp_text(text@) == Some(v@),
            None => sp_text(text@) is None,
        },
{
    let cs = str_to_char_vec(text);
    let i = skip_ws(&cs, 0);
    match parse_value(&cs, i) {
        None => None,
        Some((v, j)) => {
            let e = skip_ws(&cs, j);
            if e == cs.len() {
                Some(v)
            } else {
                None
            }
        },
    }
}

/// The numeric value of a run of decimal digit characters.
pub open spec fn digits_val(ds: Seq<char>) -> nat
    decreases ds.len(),
{
    if ds.len() == 0 {
        0
    } else {
        (digits_val(ds.drop_last()) * 10 + (ds.last() as int - 48)) as nat
    }
}

/// Every character of the sequence is a decimal digit.
pub open spec fn all_digits(ds: Seq<char>) -> bool {
    forall|i: int| 0 <= i < ds.len() ==> is_digit(ds[i])
}

/// The exact integer a number token denotes, when it is a plain integer
/// token: an optional minus followed by digits only. A token with a
/// fraction or an exponent denotes no integer here.
pub open spec fn int_of_num_text(t: Seq<char>) -> Option<int> {
    if t.len() > 0 && t[0] == '-' {
        let ds = t.subrange(1, t.len() as int);
        if ds.len() > 0 && all_digits(ds) {
            Some(-(digits_val(ds) as int))
        } else {
            None
        }
    } else {
        if t.len() > 0 && all_digits(t) {
            Some(digits_val(t) as int)
        } else {
            None
        }
    }
}

proof fn lemma_digits_val_grows(ds: Seq<char>, k: int)
    requires
        0 <= k <= ds.len(),
        all_digits(ds),
    ensures
        digits_val(ds.subrange(0, k)) <= digits_val(ds),
    decreases ds.len() - k,
{
    if k == ds.len() {
        assert(ds.subrange(0, k) =~= ds);
    } else {
        let a = ds.subrange(0, k);
        let b = ds.subrange(0, k + 1);
        assert(b.drop_last() =~= a);
        assert(is_digit(ds[k]));
        assert(digits_val(b) == digits_val(a) * 10 + (b.last() as int - 48));
        assert(b.last() as int - 48 >= 0);
        lemma_digits_val_grows(ds, k + 1);
    }
}

/// Reads a number token as an `i64`: the executable counterpart of
/// [`int_of_num_text`], failing also when the value does not fit.
pub fn num_to_i64(t: &str) -> (r: Option<i64>)
    ensures
        match r {
            Some(v) => int_of_num_text(t@) == Some(v as int),
            None => int_of_num_text(t@) is None || (int_of_num_text(t@) matches Some(v) && !(
            i64::MIN <= v <= i64::MAX)),
        },
{
    let cs = str_to_char_vec(t);
    if cs.len() == 0 {
        return None;
    }
    let neg = cs[0] == '-';
    let start: usize = if neg {
        1
    } else {
        0
    };
    let ghost ds = cs@.subrange(start as int, cs@.len() as int);
    if cs.len() == start {
        assert(ds.len() == 0);
        return None;
    }
    let mut acc: u128 = 0;
    let mut j = start;
    while j < cs.len()
        invariant
            start <= j <= cs.len(),
            start < cs.len(),
            cs@ == t@,
            ds == cs@.subrange(start as int, cs@.len() as int),
            neg == (cs@[0] == '-'),
            start == (if neg { 1int } else { 0int }),
            all_digits(cs@.subrange(start as int, j as int)),
            acc == digits_val(cs@.subrange(start as int, j as int)),
            acc <= 0x8000_0000_0000_0000,
        decreases cs.len() - j,
    {
        let c = cs[j];
        if !('0' <= c && c <= '9') {
            assert(!is_digit(ds[j - start]));
            return None;
        }
        let d: u128 = (c as u32) as u128 - 48;
        proof {
            let pre = cs@.subrange(start as int, j as int);
            let nxt = cs@.subrange(start as int, j + 1 as int);
            assert(nxt.drop_last() =~= pre);
            assert(nxt.last() == c);
        }
        acc = acc * 10 + d;
        j += 1;
        if acc > 0x8000_0000_0000_0000 {
            proof {
                assert(cs@.subrange(start as int, j as int) =~= ds.subrange(0, j - start));
                if all_digits(ds) {
                    lemma_digits_val_grows(ds, j - start);
                    assert(digits_val(ds) >= acc);
                }
                if start == 0 {
                    assert(ds =~= t@);
                } else {
                    assert(ds == t@.subrange(1, t@.len() as int));
                }
            }
            return None;
        }
    }
    assert(cs@.subrange(start as int, j as int) =~= ds);
    proof {
        if start == 0 {
            assert(ds =~= t@);
        } else {
            assert(ds == t@.subrange(1, t@.len() as int));
        }
    }
    if neg {
        let v: i64 = if acc == 0x8000_0000_0000_0000 {
            i64::MIN
        } else {
            let m: i64 = acc as i64;
            -m
        };
        Some(v)
    } else {
        if acc > 0x7FFF_FFFF_FFFF_FFFF {
            return None;
        }
        Some(acc as i64)
    }
}

/// The member of an object with the given key, first occurrence winning.
pub open spec fn obj_lookup(fields: Seq<(Seq<char>, JsonModel)>, key: Seq<char>) -> Option<
    JsonModel,
>
    decreases fields.len(),
{
    if fields.len() == 0 {
        None
    } else if fields[0].0 == key {
        Some(fields[0].1)
    } else {
        obj_lookup(fields.drop_first(), key)
    }
}

/// Looks a member up in a parsed object's field list; the executable
/// mirror of [`obj_lookup`].
pub fn obj_get<'a>(fields: &'a Vec<(String, JsonValue)>, key: &str) -> (r: Option<&'a JsonValue>)
    ensures
        match r {
            Some(v) => obj_lookup(model_fields(fields@), key@) == Some(v@),
            None => obj_lookup(model_fields(fields@), key@) is None,
        },
{
    let ghost m = model_fields(fields@);
    proof {
        assert(m.skip(0) =~= m);
    }
    let mut i: usize = 0;
    while i < fields.len()
        invariant
            i <= fields.len(),
            m == model_fields(fields@),
            obj_lookup(m, key@) == obj_lookup(m.skip(i as int), key@),
        decreases fields.len() - i,
    {
        proof {
            assert(member_model(fields@[i as int]) == (fields@[i as int].0@, fields@[i as int].1@));
            assert(m.skip(i as int)[0] == m[i as int]);
        }
        if crate::text::str_eq(fields[i].0.as_str(), key) {
            return Some(&fields[i].1);
        }
        proof {
            assert(m.skip(i as int).drop_first() =~= m.skip(i + 1));
        }
        i += 1;
    }
    proof {
        assert(m.skip(i as int).len() == 0);
    }
    None
}

/// An object has a string member under the key.
pub open spec fn str_field_ok(o: Seq<(Seq<char>, JsonModel)>, key: Seq<char>) -> bool {
    obj_lookup(o, key) matches Some(JsonModel::Str(_))
}

/// The string member under the key.
pub open spec fn str_field(o: Seq<(Seq<char>, JsonModel)>, key: Seq<char>) -> Seq<char> {
    obj_lookup(o, key)->Some_0->Str_0
}

/// The member under the key is a string, null, or absent.
pub open spec fn opt_str_field_ok(o: Seq<(Seq<char>, JsonModel)>, key: Seq<char>) -> bool {
    match obj_lookup(o, key) {
        None => true,
        Some(JsonModel::Null) => true,
        Some(JsonModel::Str(_)) => true,
        _ => false,
    }
}

/// The string member under the key, if one is present and not null.
pub open spec fn opt_str_field(o: Seq<(Seq<char>, JsonModel)>, key: Seq<char>) -> Option<
    Seq<char>,
> {
    match obj_lookup(o, key) {
        Some(JsonModel::Str(sx)) => Some(sx),
        _ => None,
    }
}

/// An object has an integer member under the key, within the bounds.
pub open spec fn int_field_ok(
    o: Seq<(Seq<char>, JsonModel)>,
    key: Seq<char>,
    lo: int,
    hi: int,
) -> bool {
    &&& obj_lookup(o, key) matches Some(JsonModel::Num(tx))
    &&& int_of_num_text(obj_lookup(o, key)->Some_0->Num_0) matches Some(n) && lo <= n <= hi
}

/// The integer member under the key.
pub open spec fn int_field(o: Seq<(Seq<char>, JsonModel)>, key: Seq<char>) -> int {
    int_of_num_text(obj_lookup(o, key)->Some_0->Num_0)->Some_0
}

/// The member under the key is an in-bounds integer, null, or absent.
pub open spec fn opt_int_field_ok(
    o: Seq<(Seq<char>, JsonModel)>,
    key: Seq<char>,
    lo: int,
    hi: int,
) -> bool {
    match obj_lookup(o, key) {
        None => true,
        Some(JsonModel::Null) => true,
        Some(JsonModel::Num(tx)) => int_of_num_text(tx) matches Some(n) && lo <= n <= hi,
        _ => false,
    }
}

/// The integer member under the key, if one is present and not null.
pub open spec fn opt_int_field(o: Seq<(Seq<char>, JsonModel)>, key: Seq<char>) -> Option<int> {
    match obj_lookup(o, key) {
        Some(JsonModel::Num(tx)) => int_of_num_text(tx),
        _ => None,
    }
}

/// An object has a boolean member under the key.
pub open spec fn bool_field_ok(o: Seq<(Seq<char>, JsonModel)>, key: Seq<char>) -> bool {
    obj_lookup(o, key) matches Some(JsonModel::Bool(_))
}

/// The boolean member under the key.
pub open spec fn bool_field(o: Seq<(Seq<char>, JsonModel)>, key: Seq<char>) -> bool {
    obj_lookup(o, key)->Some_0->Bool_0
}

/// The member under the key is a boolean, null, or absent.
pub open spec fn opt_bool_field_ok(o: Seq<(Seq<char>, JsonModel)>, key: Seq<char>) -> bool {
    match obj_lookup(o, key) {
        None => true,
        Some(JsonModel::Null) => true,
        Some(JsonModel::Bool(_)) => true,
        _ => false,
    }
}

/// The boolean member under the key, if one is present and not null.
pub open spec fn opt_bool_field(o: Seq<(Seq<char>, JsonModel)>, key: Seq<char>) -> Option<bool> {
    match obj_lookup(o, key) {
        Some(JsonModel::Bool(b)) => Some(b),
        _ => None,
    }
}

/// An object has a number member under the key; its raw token is kept.
pub open spec fn numtext_field_ok(o: Seq<(Seq<char>, JsonModel)>, key: Seq<char>) -> bool {
    obj_lookup(o, key) matches Some(JsonModel::Num(_))
}

/// The raw number token under the key.
pub open spec fn numtext_field(o: Seq<(Seq<char>, JsonModel)>, key: Seq<char>) -> Seq<char> {
    obj_lookup(o, key)->Some_0->Num_0
}

/// The member under the key is a number, null, or absent.
pub open spec fn opt_numtext_field_ok(o: Seq<(Seq<char>, JsonModel)>, key: Seq<char>) -> bool {
    match obj_lookup(o, key) {
        None => true,
        Some(JsonModel::Null) => true,
        Some(JsonModel::Num(_)) => true,
        _ => false,
    }
}

/// The raw number token under the key, if one is present and not null.
pub open spec fn opt_numtext_field(o: Seq<(Seq<char>, JsonModel)>, key: Seq<char>) -> Option<
    Seq<char>,
> {
    match obj_lookup(o, key) {
        Some(JsonModel::Num(tx)) => Some(tx),
        _ => None,
    }
}

/// Reads a required string member.
pub fn get_string(fields: &Vec<(String, JsonValue)>, key: &str) -> (r: Option<String>)
    ensures
        match r {
            Some(sv) => str_field_ok(model_fields(fields@), key@) && sv@ == str_field(
                model_fields(fields@),
                key@,
            ),
            None => !str_field_ok(model_fields(fields@), key@),
        },
{
    match obj_get(fields, key) {
        Some(JsonValue::Str(sv)) => Some(sv.clone()),
        _ => None,
    }
}

/// Reads an optional string member; `Some(None)` when it is null or
/// absent, `None` when it is present with another type.
pub fn get_string_opt(fields: &Vec<(String, JsonValue)>, key: &str) -> (r: Option<Option<String>>)
    ensures
        match r {
            Some(fv) => opt_str_field_ok(model_fields(fields@), key@) && (match fv {
                Some(sv) => opt_str_field(model_fields(fields@), key@) == Some(sv@),
                None => opt_str_field(model_fields(fields@), key@) is None,
            }),
            None => !opt_str_field_ok(model_fields(fields@), key@),
        },
{
    match obj_get(fields, key) {
        None => Some(None),
        Some(JsonValue::Null) => Some(None),
        Some(JsonValue::Str(sv)) => Some(Some(sv.clone())),
        _ => None,
    }
}

/// Reads a required integer member within the bounds.
pub fn get_i64(fields: &Vec<(String, JsonValue)>, key: &str, lo: i64, hi: i64) -> (r: Option<i64>)
    ensures
        match r {
            Some(n) => int_field_ok(model_fields(fields@), key@, lo as int, hi as int) && n as int
                == int_field(model_fields(fields@), key@),
            None => !int_field_ok(model_fields(fields@), key@, lo as int, hi as int),
        },
{
    match obj_get(fields, key) {
        Some(JsonValue::Num(tx)) => match num_to_i64(tx.as_str()) {
            Some(n) => if lo <= n && n <= hi {
                Some(n)
            } else {
                None
            },
            None => None,
        },
        _ => None,
    }
}

/// Reads an optional integer member within the bounds; `Some(None)` when it
/// is null or absent.
pub fn get_i64_opt(fields: &Vec<(String, JsonValue)>, key: &str, lo: i64, hi: i64) -> (r: Option<
    Option<i64>,
>)
    ensures
        match r {
            Some(fv) => opt_int_field_ok(model_fields(fields@), key@, lo as int, hi as int) && (
            match fv {
                Some(n) => opt_int_field(model_fields(fields@), key@) == Some(n as int),
                None => opt_int_field(model_fields(fields@), key@) is None,
            }),
            None => !opt_int_field_ok(model_fields(fields@), key@, lo as int, hi as int),
        },
{
    match obj_get(fields, key) {
        None => Some(None),
        Some(JsonValue::Null) => Some(None),
        Some(JsonValue::Num(tx)) => match num_to_i64(tx.as_str()) {
            Some(n) => if lo <= n && n <= hi {
                Some(Some(n))
            } else {
                None
            },
            None => None,
        },
        _ => None,
    }
}

/// Reads a required boolean member.
pub fn get_bool(fields: &Vec<(String, JsonValue)>, key: &str) -> (r: Option<bool>)
    ensures
        match r {
            Some(b) => bool_field_ok(model_fields(fields@), key@) && b == bool_field(
                model_fields(fields@),
                key@,
            ),
            None => !bool_field_ok(model_fields(fields@), key@),
        },
{
    match obj_get(fields, key) {
        Some(JsonValue::Bool(b)) => Some(*b),
        _ => None,
    }
}

/// Reads an optional boolean member; `Some(None)` when it is null or
/// absent.
pub fn get_bool_opt(fields: &Vec<(String, JsonValue)>, key: &str) -> (r: Option<Option<bool>>)
    ensures
        match r {
            Some(fv) => opt_bool_field_ok(model_fields(fields@), key@) && (match fv {
                Some(b) => opt_bool_field(model_fields(fields@), key@) == Some(b),
                None => opt_bool_field(model_fields(fields@), key@) is None,
            }),
            None => !opt_bool_field_ok(model_fields(fields@), key@),
        },
{
    match obj_get(fields, key) {
        None => Some(None),
        Some(JsonValue::Null) => Some(None),
        Some(JsonValue::Bool(b)) => Some(Some(*b)),
        _ => None,
    }
}

/// Reads a required number member, keeping its raw token text.
pub fn get_numtext(fields: &Vec<(String, JsonValue)>, key: &str) -> (r: Option<String>)
    ensures
        match r {
            Some(tv) => numtext_field_ok(model_fields(fields@), key@) && tv@ == numtext_field(
                model_fields(fields@),
                key@,
            ),
            None => !numtext_field_ok(model_fields(fields@), key@),
        },
{
    match obj_get(fields, key) {
        Some(JsonValue::Num(tx)) => Some(tx.clone()),
        _ => None,
    }
}

/// Reads an optional number member, keeping its raw token text;
/// `Some(None)` when it is null or absent.
pub fn get_numtext_opt(fields: &Vec<(String, JsonValue)>, key: &str) -> (r: Option<Option<String>>)
    ensures
        match r {
            Some(fv) => opt_numtext_field_ok(model_fields(fields@), key@) && (match fv {
                Some(tv) => opt_numtext_field(model_fields(fields@), key@) == Some(tv@),
                None => opt_numtext_field(model_fields(fields@), key@) is None,
            }),
            None => !opt_numtext_field_ok(model_fields(fields@), key@),
        },
{
    match obj_get(fields, key) {
        None => Some(None),
        Some(JsonValue::Null) => Some(None),
        Some(JsonValue::Num(tx)) => Some(Some(tx.clone())),
        _ => None,
    }
}

/// An optional string field of a record agrees with an optional string
/// member of an object.
pub open spec fn opt_str_matches(a: Option<String>, b: Option<Seq<char>>) -> bool {
    match (a, b) {
        (None, None) => true,
        (Some(s), Some(sx)) => s@ == sx,
        _ => false,
    }
}

/// A record type with a JSON schema: `json_ok` says which values parse,
/// `matches_json` relates a parsed record to the value it came from, and
/// `from_json` decodes, succeeding exactly on the values `json_ok` admits.
pub trait JsonRecord: Sized {
    /// The JSON values that decode into this record type.
    spec fn json_ok(v: JsonModel) -> bool;

    /// The record holds exactly the data of the JSON value.
    spec fn matches_json(self, v: JsonModel) -> bool;

    /// Decodes a parsed JSON value into this record type.
    fn from_json(v: &JsonValue) -> (r: Option<Self>)
        ensures
            match r {
                Some(t) => Self::json_ok(v@) && t.matches_json(v@),
                None => !Self::json_ok(v@),
            },
    ;
}

impl<T: JsonRecord> JsonRecord for Vec<T> {
    open spec fn json_ok(v: JsonModel) -> bool {
        &&& v matches JsonModel::Arr(items)
        &&& forall|i: int| 0 <= i < v->Arr_0.len() ==> T::json_ok(#[trigger] v->Arr_0[i])
    }

    open spec fn matches_json(self, v: JsonModel) -> bool {
        &&& v matches JsonModel::Arr(items)
        &&& self@.len() == v->Arr_0.len()
        &&& forall|i: int|
            0 <= i < self@.len() ==> (#[trigger] self@[i]).matches_json(v->Arr_0[i])
    }

    fn from_json(v: &JsonValue) -> (r: Option<Self>) {
        let items = match v {
            JsonValue::Arr(items) => items,
            _ => {
                return None;
            },
        };
        proof {
            assert(v@->Arr_0 =~= model_seq(items@));
        }
        let mut out: Vec<T> = Vec::new();
        let mut i: usize = 0;
        while i < items.len()
            invariant
                i <= items.len(),
                v@ is Arr,
                v@->Arr_0 == model_seq(items@),
                out@.len() == i,
                forall|j: int| 0 <= j < i ==> T::json_ok(#[trigger] v@->Arr_0[j]),
                forall|j: int|
                    0 <= j < i ==> (#[trigger] out@[j]).matches_json(v@->Arr_0[j]),
            decreases items.len() - i,
        {
            match T::from_json(&items[i]) {
                None => {
                    proof {
                        assert(!T::json_ok(v@->Arr_0[i as int]));
                    }
                    return None;
                },
                Some(t) => {
                    out.push(t);
                },
            }
            i += 1;
        }
        Some(out)
    }
}

impl<T: JsonRecord> JsonRecord for Box<T> {
    open spec fn json_ok(v: JsonModel) -> bool {
        T::json_ok(v)
    }

    open spec fn matches_json(self, v: JsonModel) -> bool {
        (*self).matches_json(v)
    }

    fn from_json(v: &JsonValue) -> (r: Option<Self>) {
        match T::from_json(v) {
            None => None,
            Some(t) => Some(Box::new(t)),
        }
    }
}

/// The member under the key decodes as a `T`, or is null or absent.
pub open spec fn opt_rec_ok<T: JsonRecord>(o: Seq<(Seq<char>, JsonModel)>, key: Seq<char>) -> bool {
    match obj_lookup(o, key) {
        None => true,
        Some(JsonModel::Null) => true,
        Some(m) => T::json_ok(m),
    }
}

/// An optional record field agrees with the member under the key.
pub open spec fn opt_rec_matches<T: JsonRecord>(
    f: Option<T>,
    o: Seq<(Seq<char>, JsonModel)>,
    key: Seq<char>,
) -> bool {
    match obj_lookup(o, key) {
        None => f is None,
        Some(JsonModel::Null) => f is None,
        Some(m) => f matches Some(t) && t.matches_json(m),
    }
}

/// The member under the key decodes as a `T`.
pub open spec fn rec_field_ok<T: JsonRecord>(
    o: Seq<(Seq<char>, JsonModel)>,
    key: Seq<char>,
) -> bool {
    obj_lookup(o, key) matches Some(m) && T::json_ok(m)
}

/// A record field agrees with the member under the key.
pub open spec fn rec_field_matches<T: JsonRecord>(
    f: T,
    o: Seq<(Seq<char>, JsonModel)>,
    key: Seq<char>,
) -> bool {
    obj_lookup(o, key) matches Some(m) && f.matches_json(m)
}

/// Reads an optional record member; `Some(None)` when it is null or
/// absent.
pub fn get_rec_opt<T: JsonRecord>(fields: &Vec<(String, JsonValue)>, key: &str) -> (r: Option<
    Option<T>,
>)
    ensures
        match r {
            Some(f) => opt_rec_ok::<T>(model_fields(fields@), key@) && opt_rec_matches(
                f,
                model_fields(fields@),
                key@,
            ),
            None => !opt_rec_ok::<T>(model_fields(fields@), key@),
        },
{
    match obj_get(fields, key) {
        None => Some(None),
        Some(JsonValue::Null) => Some(None),
        Some(av) => match T::from_json(av) {
            Some(t) => Some(Some(t)),
            None => None,
        },
    }
}

/// Reads a required record member.
pub fn get_rec<T: JsonRecord>(fields: &Vec<(String, JsonValue)>, key: &str) -> (r: Option<T>)
    ensures
        match r {
            Some(f) => rec_field_ok::<T>(model_fields(fields@), key@) && rec_field_matches(
                f,
                model_fields(fields@),
                key@,
            ),
            None => !rec_field_ok::<T>(model_fields(fields@), key@),
        },
{
    match obj_get(fields, key) {
        None => None,
        Some(av) => match T::from_json(av) {
            Some(t) => Some(t),
            None => None,
        },
    }
}

/// The height of a member found by lookup is below the field list's, so a
/// schema may recurse into the member it looks up.
pub proof fn lemma_obj_lookup_decreases(fs: Seq<(Seq<char>, JsonModel)>, key: Seq<char>)
    requires
        obj_lookup(fs, key) is Some,
    ensures
        decreases_to!(fs => obj_lookup(fs, key)->Some_0),
    decreases fs.len(),
{
    broadcast use vstd::seq::axiom_seq_index_decreases;
    broadcast use vstd::seq::axiom_seq_subrange_decreases;

    if fs.len() == 0 {
    } else if fs[0].0 == key {
        assert(decreases_to!(fs => fs[0]));
        assert(decreases_to!(fs[0] => fs[0].1));
    } else {
        lemma_obj_lookup_decreases(fs.drop_first(), key);
        assert(fs.drop_first() == fs.subrange(1, fs.len() as int));
        assert(decreases_to!(fs => fs.drop_first()));
    }
}

/// Looks a member up in a parsed object's field list, yielding its index,
/// so that a caller can recurse into the member in place.
pub fn obj_get_idx(fields: &Vec<(String, JsonValue)>, key: &str) -> (r: Option<usize>)
    ensures
        match r {
            Some(i) => i < fields@.len() && obj_lookup(model_fields(fields@), key@) == Some(
                fields@[i as int].1@,
            ),
            None => obj_lookup(model_fields(fields@), key@) is None,
        },
{
    let ghost m = model_fields(fields@);
    proof {
        assert(m.skip(0) =~= m);
    }
    let mut i: usize = 0;
    while i < fields.len()
        invariant
            i <= fields.len(),
            m == model_fields(fields@),
            obj_lookup(m, key@) == obj_lookup(m.skip(i as int), key@),
        decreases fields.len() - i,
    {
        proof {
            assert(member_model(fields@[i as int]) == (fields@[i as int].0@, fields@[i as int].1@));
            assert(m.skip(i as int)[0] == m[i as int]);
        }
        if crate::text::str_eq(fields[i].0.as_str(), key) {
            return Some(i);
        }
        proof {
            assert(m.skip(i as int).drop_first() =~= m.skip(i + 1));
        }
        i += 1;
    }
    proof {
        assert(m.skip(i as int).len() == 0);
    }
    None
}

} // verus!
