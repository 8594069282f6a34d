//! Token-level reading of the vendor's JSON text: whitespace, strings with
//! escapes, numbers, and skipping of arbitrary values. Every reader has a
//! spec-level twin that pins down exactly which texts are accepted and what
//! they denote; the executable readers are proved to match their twins.

use vstd::prelude::*;

verus! {

/// JSON whitespace.
pub open spec fn is_json_ws(c: char) -> bool {
    c == ' ' || c == '\t' || c == '\n' || c == '\r'
}

/// First index at or after `pos` holding a non-whitespace character.
pub open spec fn sp_ws(s: Seq<char>, pos: int) -> int
    decreases s.len() - pos,
    when 0 <= pos <= s.len()
{
    if pos >= s.len() {
        s.len() as int
    } else if is_json_ws(s[pos]) {
        sp_ws(s, pos + 1)
    } else {
        pos
    }
}

pub(crate) fn skip_ws(s: &Vec<char>, pos: usize) -> (r: usize)
    requires
        pos <= s@.len(),
    ensures
        r == sp_ws(s@, pos as int),
        pos <= r <= s@.len(),
{
    let mut i = pos;
    while i < s.len() && (s[i] == ' ' || s[i] == '\t' || s[i] == '\n' || s[i] == '\r')
        invariant
            pos <= i <= s@.len(),
            sp_ws(s@, pos as int) == sp_ws(s@, i as int),
        decreases s@.len() - i,
    {
        i += 1;
    }
    i
}

/// First index at or after `pos` holding a non-digit character.
pub open spec fn sp_digits_end(s: Seq<char>, pos: int) -> int
    decreases s.len() - pos,
    when 0 <= pos <= s.len()
{
    if pos >= s.len() {
        s.len() as int
    } else if crate::numeric::is_digit_char(s[pos]) {
        sp_digits_end(s, pos + 1)
    } else {
        pos
    }
}

fn is_digit_exec(c: char) -> (r: bool)
    ensures
        r == crate::numeric::is_digit_char(c),
{
    let cv = c as u32;
    48 <= cv && cv <= 57
}

pub(crate) fn digits_end(s: &Vec<char>, pos: usize) -> (r: usize)
    requires
        pos <= s@.len(),
    ensures
        r == sp_digits_end(s@, pos as int),
        pos <= r <= s@.len(),
{
    let mut i = pos;
    while i < s.len() && is_digit_exec(s[i])
        invariant
            pos <= i <= s@.len(),
            sp_digits_end(s@, pos as int) == sp_digits_end(s@, i as int),
        decreases s@.len() - i,
    {
        i += 1;
    }
    i
}

pub proof fn lemma_digits_end_bounds(s: Seq<char>, pos: int)
    requires
        0 <= pos <= s.len(),
    ensures
        pos <= sp_digits_end(s, pos) <= s.len(),
    decreases s.len() - pos,
{
    if pos < s.len() && crate::numeric::is_digit_char(s[pos]) {
        lemma_digits_end_bounds(s, pos + 1);
    }
}

pub proof fn lemma_digits_end_chars(s: Seq<char>, pos: int)
    requires
        0 <= pos <= s.len(),
    ensures
        forall|j: int|
            pos <= j < sp_digits_end(s, pos) ==> crate::numeric::is_digit_char(#[trigger] s[j]),
        sp_digits_end(s, pos) < s.len() ==> !crate::numeric::is_digit_char(
            s[sp_digits_end(s, pos)],
        ),
    decreases s.len() - pos,
{
    lemma_digits_end_bounds(s, pos);
    if pos < s.len() && crate::numeric::is_digit_char(s[pos]) {
        lemma_digits_end_chars(s, pos + 1);
    }
}

/// Value of a hexadecimal digit, or -1.
pub open spec fn hex_val(c: char) -> int {
    let v = c as u32;
    if 48 <= v <= 57 {
        v - 48
    } else if 97 <= v <= 102 {
        v - 87
    } else if 65 <= v <= 70 {
        v - 55
    } else {
        -1
    }
}

/// Value of the four hex digits at `pos`, when present.
pub open spec fn sp_hex4(s: Seq<char>, pos: int) -> Option<int> {
    if pos + 4 <= s.len() && hex_val(s[pos]) >= 0 && hex_val(s[pos + 1]) >= 0 && hex_val(
        s[pos + 2],
    ) >= 0 && hex_val(s[pos + 3]) >= 0 {
        Some(
            hex_val(s[pos]) * 4096 + hex_val(s[pos + 1]) * 256 + hex_val(s[pos + 2]) * 16
                + hex_val(s[pos + 3]),
        )
    } else {
        None
    }
}

fn hex_digit(c: char) -> (r: Option<u32>)
    ensures
        match r {
            Some(v) => hex_val(c) == v && v < 16,
            None => hex_val(c) < 0,
        },
{
    let v = c as u32;
    if 48 <= v && v <= 57 {
        Some(v - 48)
    } else if 97 <= v && v <= 102 {
        Some(v - 87)
    } else if 65 <= v && v <= 70 {
        Some(v - 55)
    } else {
        None
    }
}

fn parse_hex4(s: &Vec<char>, pos: usize) -> (r: Option<u32>)
    requires
        pos <= s@.len(),
    ensures
        match r {
            Some(v) => sp_hex4(s@, pos as int) == Some(v as int) && v < 0x10000 && pos + 4
                <= s@.len(),
            None => sp_hex4(s@, pos as int) is None,
        },
{
    if s.len() - pos < 4 {
        return None;
    }
    let a = hex_digit(s[pos]);
    let b = hex_digit(s[pos + 1]);
    let c = hex_digit(s[pos + 2]);
    let d = hex_digit(s[pos + 3]);
    match (a, b, c, d) {
        (Some(a), Some(b), Some(c), Some(d)) => Some(a * 4096 + b * 256 + c * 16 + d),
        _ => None,
    }
}

/// Relies on std's `char::from_u32`: `Some` exactly for Unicode scalar values
/// (below the surrogate range, or above it and at most 0x10FFFF), and the
/// returned character carries the given code.
#[verifier::external_body]
fn char_from_u32(u: u32) -> (r: Option<char>)
    ensures
        (r is Some) == (u < 0xD800 || (0xE000 <= u && u <= 0x10FFFF)),
        r matches Some(c) ==> c as u32 == u,
{
    char::from_u32(u)
}

fn push_c(acc: String, c: char) -> (r: String)
    ensures
        r@ == acc@.push(c),
{
    let mut a = acc;
    crate::strutil::push_char(&mut a, c);
    proof {
        assert(a@ =~= acc@.push(c));
    }
    a
}

/// Body of a JSON string, read from just after the opening quote with `acc`
/// already holding the characters seen. Handles the short escapes and
/// \uXXXX, including surrogate pairs; rejects raw control characters.
pub open spec fn sp_str_body(s: Seq<char>, pos: int, acc: Seq<char>) -> Option<(Seq<char>, int)>
    decreases s.len() - pos,
    when 0 <= pos <= s.len()
{
    if pos >= s.len() {
        None
    } else {
        let c = s[pos];
        if c == '"' {
            Some((acc, pos + 1))
        } else if c == '\\' {
            if pos + 1 >= s.len() {
                None
            } else {
                let e = s[pos + 1];
                if e == '"' {
                    sp_str_body(s, pos + 2, acc.push('"'))
                } else if e == '\\' {
                    sp_str_body(s, pos + 2, acc.push('\\'))
                } else if e == '/' {
                    sp_str_body(s, pos + 2, acc.push('/'))
                } else if e == 'b' {
                    sp_str_body(s, pos + 2, acc.push('\u{8}'))
                } else if e == 'f' {
                    sp_str_body(s, pos + 2, acc.push('\u{c}'))
                } else if e == 'n' {
                    sp_str_body(s, pos + 2, acc.push('\n'))
                } else if e == 'r' {
                    sp_str_body(s, pos + 2, acc.push('\r'))
                } else if e == 't' {
                    sp_str_body(s, pos + 2, acc.push('\t'))
                } else if e == 'u' {
                    match sp_hex4(s, pos + 2) {
                        Some(h) => if 0xD800 <= h < 0xDC00 {
                            if pos + 12 <= s.len() && s[pos + 6] == '\\' && s[pos + 7] == 'u' {
                                match sp_hex4(s, pos + 8) {
                                    Some(l) => if 0xDC00 <= l < 0xE000 {
                                        let code = 0x10000 + (h - 0xD800) * 0x400 + (l - 0xDC00);
                                        sp_str_body(s, pos + 12, acc.push((code as u32) as char))
                                    } else {
                                        None
                                    },
                                    None => None,
                                }
                            } else {
                                None
                            }
                        } else if 0xDC00 <= h < 0xE000 {
                            None
                        } else if pos + 6 <= s.len() {
                            sp_str_body(s, pos + 6, acc.push((h as u32) as char))
                        } else {
                            None
                        },
                        None => None,
                    }
                } else {
                    None
                }
            }
        } else if (c as u32) < 0x20 {
            None
        } else {
            sp_str_body(s, pos + 1, acc.push(c))
        }
    }
}

/// A JSON string at `pos` (the opening quote) and its denoted text.
pub open spec fn sp_string(s: Seq<char>, pos: int) -> Option<(Seq<char>, int)> {
    if 0 <= pos < s.len() && s[pos] == '"' {
        sp_str_body(s, pos + 1, Seq::<char>::empty())
    } else {
        None
    }
}

fn parse_str_body(s: &Vec<char>, pos: usize, acc: String) -> (r: Option<(String, usize)>)
    requires
        pos <= s@.len(),
    ensures
        match r {
            Some((v, np)) => sp_str_body(s@, pos as int, acc@) == Some((v@, np as int)) && pos < np
                <= s@.len(),
            None => sp_str_body(s@, pos as int, acc@) is None,
        },
    decreases s@.len() - pos,
{
    if pos >= s.len() {
        return None;
    }
    let c = s[pos];
    if c == '"' {
        Some((acc, pos + 1))
    } else if c == '\\' {
        if pos + 1 >= s.len() {
            return None;
        }
        let e = s[pos + 1];
        if e == '"' || e == '\\' || e == '/' {
            parse_str_body(s, pos + 2, push_c(acc, e))
        } else if e == 'b' {
            parse_str_body(s, pos + 2, push_c(acc, '\u{8}'))
        } else if e == 'f' {
            parse_str_body(s, pos + 2, push_c(acc, '\u{c}'))
        } else if e == 'n' {
            parse_str_body(s, pos + 2, push_c(acc, '\n'))
        } else if e == 'r' {
            parse_str_body(s, pos + 2, push_c(acc, '\r'))
        } else if e == 't' {
            parse_str_body(s, pos + 2, push_c(acc, '\t'))
        } else if e == 'u' {
            match parse_hex4(s, pos + 2) {
                Some(h) => {
                    if 0xD800 <= h && h < 0xDC00 {
                        if s.len() - pos >= 12 && s[pos + 6] == '\\' && s[pos + 7] == 'u' {
                            match parse_hex4(s, pos + 8) {
                                Some(l) => {
                                    if 0xDC00 <= l && l < 0xE000 {
                                        let code: u32 = 0x10000 + (h - 0xD800) * 0x400 + (l
                                            - 0xDC00);
                                        match char_from_u32(code) {
                                            Some(ch) => {
                                                proof {
                                                    vstd::utf8::char_u32_cast(ch, code);
                                                }
                                                parse_str_body(s, pos + 12, push_c(acc, ch))
                                            },
                                            None => None,  // unreachable: the combined code is a scalar value
                                        }
                                    } else {
                                        None
                                    }
                                },
                                None => None,
                            }
                        } else {
                            None
                        }
                    } else if 0xDC00 <= h && h < 0xE000 {
                        None
                    } else {
                        match char_from_u32(h) {
                            Some(ch) => {
                                proof {
                                    vstd::utf8::char_u32_cast(ch, h);
                                }
                                parse_str_body(s, pos + 6, push_c(acc, ch))
                            },
                            None => None,  // unreachable: h is below the surrogate range
                        }
                    }
                },
                None => None,
            }
        } else {
            None
        }
    } else if (c as u32) < 0x20 {
        None
    } else {
        parse_str_body(s, pos + 1, push_c(acc, c))
    }
}

pub(crate) fn parse_string(s: &Vec<char>, pos: usize) -> (r: Option<(String, usize)>)
    requires
        pos <= s@.len(),
    ensures
        match r {
            Some((v, np)) => sp_string(s@, pos as int) == Some((v@, np as int)) && pos < np
                <= s@.len(),
            None => sp_string(s@, pos as int) is None,
        },
{
    if pos < s.len() && s[pos] == '"' {
        parse_str_body(s, pos + 1, String::new())
    } else {
        None
    }
}

/// End of the fraction part, if any, starting at `pos`.
pub open spec fn sp_frac(s: Seq<char>, pos: int) -> Option<int> {
    if 0 <= pos < s.len() && s[pos] == '.' {
        let d = sp_digits_end(s, pos + 1);
        if d > pos + 1 {
            Some(d)
        } else {
            None
        }
    } else {
        Some(pos)
    }
}

/// End of the exponent part, if any, starting at `pos`.
pub open spec fn sp_exp(s: Seq<char>, pos: int) -> Option<int> {
    if 0 <= pos < s.len() && (s[pos] == 'e' || s[pos] == 'E') {
        let q = if pos + 1 < s.len() && (s[pos + 1] == '+' || s[pos + 1] == '-') {
            pos + 2
        } else {
            pos + 1
        };
        let d = sp_digits_end(s, q);
        if d > q {
            Some(d)
        } else {
            None
        }
    } else {
        Some(pos)
    }
}

/// A JSON number starting at `pos`: its end position when well-formed.
pub open spec fn sp_number(s: Seq<char>, pos: int) -> Option<int> {
    let p = if 0 <= pos < s.len() && s[pos] == '-' {
        pos + 1
    } else {
        pos
    };
    if 0 <= p < s.len() && s[p] == '0' {
        match sp_frac(s, p + 1) {
            Some(f) => sp_exp(s, f),
            None => None,
        }
    } else if 0 <= p < s.len() && crate::numeric::is_digit_char(s[p]) {
        match sp_frac(s, sp_digits_end(s, p)) {
            Some(f) => sp_exp(s, f),
            None => None,
        }
    } else {
        None
    }
}

pub(crate) fn parse_number(s: &Vec<char>, pos: usize) -> (r: Option<usize>)
    requires
        pos <= s@.len(),
    ensures
        match r {
            Some(np) => sp_number(s@, pos as int) == Some(np as int) && pos < np <= s@.len(),
            None => sp_number(s@, pos as int) is None,
        },
{
    let p = if pos < s.len() && s[pos] == '-' {
        pos + 1
    } else {
        pos
    };
    let ip: usize = if p < s.len() && s[p] == '0' {
        p + 1
    } else if p < s.len() && is_digit_exec(s[p]) {
        proof {
            lemma_digits_end_bounds(s@, p + 1);
        }
        digits_end(s, p)
    } else {
        return None;
    };
    // fraction
    let fp: usize = if ip < s.len() && s[ip] == '.' {
        let d = digits_end(s, ip + 1);
        if d > ip + 1 {
            d
        } else {
            return None;
        }
    } else {
        ip
    };
    // exponent
    let ep: usize = if fp < s.len() && (s[fp] == 'e' || s[fp] == 'E') {
        let q = if fp + 1 < s.len() && (s[fp + 1] == '+' || s[fp + 1] == '-') {
            fp + 2
        } else {
            fp + 1
        };
        let d = digits_end(s, q);
        if d > q {
            d
        } else {
            return None;
        }
    } else {
        fp
    };
    Some(ep)
}

/// Position after the JSON value starting at `pos` (leading whitespace
/// allowed), when a well-formed one stands there.
pub open spec fn sp_skip_value(s: Seq<char>, pos: int) -> Option<int>
    decreases s.len() - pos, 1int,
    when 0 <= pos <= s.len()
{
    let p = sp_ws(s, pos);
    if pos <= p && p < s.len() {
        let c = s[p];
        if c == '{' {
            sp_skip_members(s, p + 1, true)
        } else if c == '[' {
            sp_skip_elems(s, p + 1, true)
        } else if c == '"' {
            match sp_string(s, p) {
                Some(t) => Some(t.1),
                None => None,
            }
        } else if c == 't' {
            if p + 4 <= s.len() && s[p + 1] == 'r' && s[p + 2] == 'u' && s[p + 3] == 'e' {
                Some(p + 4)
            } else {
                None
            }
        } else if c == 'f' {
            if p + 5 <= s.len() && s[p + 1] == 'a' && s[p + 2] == 'l' && s[p + 3] == 's' && s[p + 4]
                == 'e' {
                Some(p + 5)
            } else {
                None
            }
        } else if c == 'n' {
            if p + 4 <= s.len() && s[p + 1] == 'u' && s[p + 2] == 'l' && s[p + 3] == 'l' {
                Some(p + 4)
            } else {
                None
            }
        } else {
            sp_number(s, p)
        }
    } else {
        None
    }
}

/// Position after the remaining elements of an array, `pos` standing after
/// the opening bracket (when `first`) or after a comma.
pub open spec fn sp_skip_elems(s: Seq<char>, pos: int, first: bool) -> Option<int>
    decreases s.len() - pos, 2int,
    when 0 <= pos <= s.len()
{
    let p = sp_ws(s, pos);
    if first && pos <= p && p < s.len() && s[p] == ']' {
        Some(p + 1)
    } else {
        match sp_skip_value(s, pos) {
            Some(q) => if pos < q && q <= s.len() {
                let r = sp_ws(s, q);
                if q <= r && r < s.len() {
                    if s[r] == ',' {
                        sp_skip_elems(s, r + 1, false)
                    } else if s[r] == ']' {
                        Some(r + 1)
                    } else {
                        None
                    }
                } else {
                    None
                }
            } else {
                None
            },
            None => None,
        }
    }
}

/// Position after the remaining members of an object, `pos` standing after
/// the opening brace (when `first`) or after a comma.
pub open spec fn sp_skip_members(s: Seq<char>, pos: int, first: bool) -> Option<int>
    decreases s.len() - pos, 2int,
    when 0 <= pos <= s.len()
{
    let p = sp_ws(s, pos);
    if first && pos <= p && p < s.len() && s[p] == '}' {
        Some(p + 1)
    } else if pos <= p && p < s.len() && s[p] == '"' {
        match sp_string(s, p) {
            Some(kq) => if p < kq.1 && kq.1 <= s.len() {
                let r = sp_ws(s, kq.1);
                if kq.1 <= r && r < s.len() && s[r] == ':' {
                    match sp_skip_value(s, r + 1) {
                        Some(v) => if pos < v && v <= s.len() {
                            let w = sp_ws(s, v);
                            if v <= w && w < s.len() {
                                if s[w] == ',' {
                                    sp_skip_members(s, w + 1, false)
                                } else if s[w] == '}' {
                                    Some(w + 1)
                                } else {
                                    None
                                }
                            } else {
                                None
                            }
                        } else {
                            None
                        },
                        None => None,
                    }
                } else {
                    None
                }
            } else {
                None
            },
            None => None,
        }
    } else {
        None
    }
}

pub(crate) fn skip_value(s: &Vec<char>, pos: usize) -> (r: Option<usize>)
    requires
        pos <= s@.len(),
    ensures
        match r {
            Some(np) => sp_skip_value(s@, pos as int) == Some(np as int) && pos < np <= s@.len(),
            None => sp_skip_value(s@, pos as int) is None,
        },
    decreases s@.len() - pos, 1int,
{
    let p = skip_ws(s, pos);
    if p < s.len() {
        let c = s[p];
        if c == '{' {
            skip_members(s, p + 1, true)
        } else if c == '[' {
            skip_elems(s, p + 1, true)
        } else if c == '"' {
            match parse_string(s, p) {
                Some((_, np)) => Some(np),
                None => None,
            }
        } else if c == 't' {
            if s.len() - p >= 4 && s[p + 1] == 'r' && s[p + 2] == 'u' && s[p + 3] == 'e' {
                Some(p + 4)
            } else {
                None
            }
        } else if c == 'f' {
            if s.len() - p >= 5 && s[p + 1] == 'a' && s[p + 2] == 'l' && s[p + 3] == 's' && s[p + 4]
                == 'e' {
                Some(p + 5)
            } else {
                None
            }
        } else if c == 'n' {
            if s.len() - p >= 4 && s[p + 1] == 'u' && s[p + 2] == 'l' && s[p + 3] == 'l' {
                Some(p + 4)
            } else {
                None
            }
        } else {
            parse_number(s, p)
        }
    } else {
        None
    }
}

fn skip_elems(s: &Vec<char>, pos: usize, first: bool) -> (r: Option<usize>)
    requires
        pos <= s@.len(),
    ensures
        match r {
            Some(np) => sp_skip_elems(s@, pos as int, first) == Some(np as int) && pos < np
                <= s@.len(),
            None => sp_skip_elems(s@, pos as int, first) is None,
        },
    decreases s@.len() - pos, 2int,
{
    let p = skip_ws(s, pos);
    if first && p < s.len() && s[p] == ']' {
        return Some(p + 1);
    }
    match skip_value(s, pos) {
        Some(q) => {
            let r2 = skip_ws(s, q);
            if r2 < s.len() {
                if s[r2] == ',' {
                    skip_elems(s, r2 + 1, false)
                } else if s[r2] == ']' {
                    Some(r2 + 1)
                } else {
                    None
                }
            } else {
                None
            }
        },
        None => None,
    }
}

fn skip_members(s: &Vec<char>, pos: usize, first: bool) -> (r: Option<usize>)
    requires
        pos <= s@.len(),
    ensures
        match r {
            Some(np) => sp_skip_members(s@, pos as int, first) == Some(np as int) && pos < np
                <= s@.len(),
            None => sp_skip_members(s@, pos as int, first) is None,
        },
    decreases s@.len() - pos, 2int,
{
    let p = skip_ws(s, pos);
    if first && p < s.len() && s[p] == '}' {
        return Some(p + 1);
    }
    if p < s.len() && s[p] == '"' {
        match parse_string(s, p) {
            Some((_, q)) => {
                let r2 = skip_ws(s, q);
                if r2 < s.len() && s[r2] == ':' {
                    match skip_value(s, r2 + 1) {
                        Some(v) => {
                            let w = skip_ws(s, v);
                            if w < s.len() {
                                if s[w] == ',' {
                                    skip_members(s, w + 1, false)
                                } else if s[w] == '}' {
                                    Some(w + 1)
                                } else {
                                    None
                                }
                            } else {
                                None
                            }
                        },
                        None => None,
                    }
                } else {
                    None
                }
            },
            None => None,
        }
    } else {
        None
    }
}

} // verus!
