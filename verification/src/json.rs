use vstd::prelude::*;

use crate::util::char_from_u32;
use crate::util::chars_eq_str;
use crate::util::chars_of;
use crate::util::string_of;

verus! {

// --- Encoding: the JSON string-literal form of a text. ---
/// The character standing for a hexadecimal digit value.
pub open spec fn hex_digit_spec(d: int) -> char {
    if d == 0 {
        '0'
    } else if d == 1 {
        '1'
    } else if d == 2 {
        '2'
    } else if d == 3 {
        '3'
    } else if d == 4 {
        '4'
    } else if d == 5 {
        '5'
    } else if d == 6 {
        '6'
    } else if d == 7 {
        '7'
    } else if d == 8 {
        '8'
    } else if d == 9 {
        '9'
    } else if d == 10 {
        'a'
    } else if d == 11 {
        'b'
    } else if d == 12 {
        'c'
    } else if d == 13 {
        'd'
    } else if d == 14 {
        'e'
    } else {
        'f'
    }
}

fn hex_digit(d: u32) -> (r: char)
    requires
        d < 16,
    ensures
        r == hex_digit_spec(d as int),
{
    match d {
        0 => '0',
        1 => '1',
        2 => '2',
        3 => '3',
        4 => '4',
        5 => '5',
        6 => '6',
        7 => '7',
        8 => '8',
        9 => '9',
        10 => 'a',
        11 => 'b',
        12 => 'c',
        13 => 'd',
        14 => 'e',
        _ => 'f',
    }
}

/// How one character appears inside a JSON string literal: quote,
/// backslash and the named control characters get a two-character escape,
/// any other control character a `\u00XX` escape, and everything else
/// stands for itself.
pub open spec fn esc_char(c: char) -> Seq<char> {
    if c == '"' {
        seq!['\\', '"']
    } else if c == '\\' {
        seq!['\\', '\\']
    } else if c == '\n' {
        seq!['\\', 'n']
    } else if c == '\r' {
        seq!['\\', 'r']
    } else if c == '\t' {
        seq!['\\', 't']
    } else if (c as u32) < 0x20 {
        seq![
            '\\',
            'u',
            '0',
            '0',
            hex_digit_spec((c as u32) as int / 16),
            hex_digit_spec((c as u32) as int % 16),
        ]
    } else {
        seq![c]
    }
}

/// The escaped form of the first `n` characters of `s`.
pub open spec fn json_escape_prefix(s: Seq<char>, n: int) -> Seq<char>
    decreases n,
{
    if n <= 0 {
        Seq::empty()
    } else {
        json_escape_prefix(s, n - 1) + esc_char(s[n - 1])
    }
}

/// The JSON string-literal encoding of a text, without the surrounding
/// quotes.
pub open spec fn json_escape(s: Seq<char>) -> Seq<char> {
    json_escape_prefix(s, s.len() as int)
}

/// Appends the JSON string-literal encoding of `text` to `out`.
pub fn append_escaped(out: &mut Vec<char>, text: &str)
    ensures
        final(out)@ == old(out)@ + json_escape(text@),
{
    let chars = chars_of(text);
    let n = chars.len();
    let mut i: usize = 0;
    while i < n
        invariant
            i <= n,
            n == chars@.len(),
            chars@ == text@,
            out@ == old(out)@ + json_escape_prefix(text@, i as int),
        decreases n - i,
    {
        let c = chars[i];
        if c == '"' {
            out.push('\\');
            out.push('"');
        } else if c == '\\' {
            out.push('\\');
            out.push('\\');
        } else if c == '\n' {
            out.push('\\');
            out.push('n');
        } else if c == '\r' {
            out.push('\\');
            out.push('r');
        } else if c == '\t' {
            out.push('\\');
            out.push('t');
        } else {
            let u = c as u32;
            if u < 0x20 {
                out.push('\\');
                out.push('u');
                out.push('0');
                out.push('0');
                out.push(hex_digit(u / 16));
                out.push(hex_digit(u % 16));
            } else {
                out.push(c);
            }
        }
        proof {
            assert(out@ =~= old(out)@ + json_escape_prefix(text@, i + 1));
        }
        i = i + 1;
    }
}

// --- Decoding: a strict parser for the expected response shape. ---
/// JSON insignificant whitespace.
pub open spec fn is_ws(c: char) -> bool {
    c == ' ' || c == '\t' || c == '\n' || c == '\r'
}

/// The first position at or after `i` holding no whitespace.
pub open spec fn skip_ws(s: Seq<char>, i: int) -> int
    decreases s.len() - i,
{
    if 0 <= i < s.len() && is_ws(s[i]) {
        skip_ws(s, i + 1)
    } else {
        i
    }
}

/// The value of a hexadecimal digit character.
pub open spec fn hex_val(c: char) -> Option<int> {
    let n = (c as u32) as int;
    if 0x30 <= n && n <= 0x39 {
        Some(n - 0x30)
    } else if 0x61 <= n && n <= 0x66 {
        Some(n - 0x61 + 10)
    } else if 0x41 <= n && n <= 0x46 {
        Some(n - 0x41 + 10)
    } else {
        None
    }
}

/// The value of the four hexadecimal digits at `i`.
pub open spec fn hex4(s: Seq<char>, i: int) -> Option<int> {
    if 0 <= i && i + 4 <= s.len() {
        match (hex_val(s[i]), hex_val(s[i + 1]), hex_val(s[i + 2]), hex_val(s[i + 3])) {
            (Some(a), Some(b), Some(c), Some(d)) => Some(a * 4096 + b * 256 + c * 16 + d),
            _ => None,
        }
    } else {
        None
    }
}

/// The character named by a single-character JSON escape.
pub open spec fn simple_escape(e: char) -> Option<char> {
    if e == '"' {
        Some('"')
    } else if e == '\\' {
        Some('\\')
    } else if e == '/' {
        Some('/')
    } else if e == 'b' {
        Some('\u{0008}')
    } else if e == 'f' {
        Some('\u{000C}')
    } else if e == 'n' {
        Some('\n')
    } else if e == 'r' {
        Some('\r')
    } else if e == 't' {
        Some('\t')
    } else {
        None
    }
}

/// Prepends one decoded character to a parse result.
pub open spec fn opt_cons(c: char, rest: Option<(Seq<char>, int)>) -> Option<(Seq<char>, int)> {
    match rest {
        None => None,
        Some(p) => Some((seq![c] + p.0, p.1)),
    }
}

/// Parses the body of a JSON string literal starting at `i` (just after
/// the opening quote): the decoded text and the position just after the
/// closing quote.  `\uXXXX` escapes are decoded, surrogate pairs
/// combined; a lone surrogate, an unescaped control character or a
/// missing closing quote is a parse failure.
pub open spec fn parse_string_body(s: Seq<char>, i: int) -> Option<(Seq<char>, int)>
    decreases s.len() - i,
{
    if i < 0 || i >= s.len() {
        None
    } else if s[i] == '"' {
        Some((Seq::empty(), i + 1))
    } else if s[i] == '\\' {
        if i + 1 >= s.len() {
            None
        } else if s[i + 1] == 'u' {
            match hex4(s, i + 2) {
                None => None,
                Some(n) => {
                    if 0xD800 <= n < 0xDC00 {
                        if i + 12 <= s.len() && s[i + 6] == '\\' && s[i + 7] == 'u' {
                            match hex4(s, i + 8) {
                                None => None,
                                Some(m) => {
                                    if 0xDC00 <= m < 0xE000 {
                                        opt_cons(
                                            (0x10000 + (n - 0xD800) * 0x400 + (m - 0xDC00)) as char,
                                            parse_string_body(s, i + 12),
                                        )
                                    } else {
                                        None
                                    }
                                },
                            }
                        } else {
                            None
                        }
                    } else if 0xDC00 <= n < 0xE000 {
                        None
                    } else {
                        opt_cons(n as char, parse_string_body(s, i + 6))
                    }
                },
            }
        } else {
            match simple_escape(s[i + 1]) {
                None => None,
                Some(c) => opt_cons(c, parse_string_body(s, i + 2)),
            }
        }
    } else if (s[i] as u32) < 0x20 {
        None
    } else {
        opt_cons(s[i], parse_string_body(s, i + 1))
    }
}

/// A whole JSON string literal at `i`, opening quote included.
pub open spec fn parse_json_string(s: Seq<char>, i: int) -> Option<(Seq<char>, int)> {
    if 0 <= i < s.len() && s[i] == '"' {
        parse_string_body(s, i + 1)
    } else {
        None
    }
}

/// The decoding of the whole string-literal body from `start` continues
/// the decoding from `i`, with `acc` already decoded.
pub open spec fn psb_continues(s: Seq<char>, start: int, i: int, acc: Seq<char>) -> bool {
    match parse_string_body(s, i) {
        None => parse_string_body(s, start) is None,
        Some(p) => parse_string_body(s, start) == Some((acc + p.0, p.1)),
    }
}

proof fn lemma_psb_step(s: Seq<char>, start: int, i: int, acc: Seq<char>, c: char, i2: int)
    requires
        psb_continues(s, start, i, acc),
        parse_string_body(s, i) == opt_cons(c, parse_string_body(s, i2)),
    ensures
        psb_continues(s, start, i2, acc.push(c)),
{
    match parse_string_body(s, i2) {
        None => {},
        Some(p) => {
            assert(acc + (seq![c] + p.0) =~= acc.push(c) + p.0);
        },
    }
}

/// The value of four hexadecimal digit characters at `at`.
fn hex4_exec(v: &Vec<char>, at: usize) -> (r: Option<u32>)
    requires
        at + 4 <= v@.len(),
    ensures
        match r {
            Some(n) => hex4(v@, at as int) == Some(n as int) && n < 0x10000,
            None => hex4(v@, at as int) is None,
        },
{
    // Binding the length shows the solver that the indices fit in usize.
    let _n = v.len();
    let a = hex_val_exec(v[at]);
    let b = hex_val_exec(v[at + 1]);
    let c = hex_val_exec(v[at + 2]);
    let d = hex_val_exec(v[at + 3]);
    match (a, b, c, d) {
        (Some(a), Some(b), Some(c), Some(d)) => Some(a * 4096 + b * 256 + c * 16 + d),
        _ => None,
    }
}

fn hex_val_exec(c: char) -> (r: Option<u32>)
    ensures
        match r {
            Some(n) => hex_val(c) == Some(n as int) && n < 16,
            None => hex_val(c) is None,
        },
{
    let u = c as u32;
    if 0x30 <= u && u <= 0x39 {
        Some(u - 0x30)
    } else if 0x61 <= u && u <= 0x66 {
        Some(u - 0x61 + 10)
    } else if 0x41 <= u && u <= 0x46 {
        Some(u - 0x41 + 10)
    } else {
        None
    }
}

fn simple_escape_exec(e: char) -> (r: Option<char>)
    ensures
        r == simple_escape(e),
{
    if e == '"' {
        Some('"')
    } else if e == '\\' {
        Some('\\')
    } else if e == '/' {
        Some('/')
    } else if e == 'b' {
        Some('\u{0008}')
    } else if e == 'f' {
        Some('\u{000C}')
    } else if e == 'n' {
        Some('\n')
    } else if e == 'r' {
        Some('\r')
    } else if e == 't' {
        Some('\t')
    } else {
        None
    }
}

/// Decodes the string-literal body beginning at `start` (just after the
/// opening quote).
fn parse_string_at(v: &Vec<char>, start: usize) -> (r: Option<(Vec<char>, usize)>)
    requires
        start <= v@.len(),
    ensures
        match r {
            Some(p) => parse_string_body(v@, start as int) == Some((p.0@, p.1 as int)) && p.1
                <= v@.len(),
            None => parse_string_body(v@, start as int) is None,
        },
{
    let mut i: usize = start;
    let mut out: Vec<char> = Vec::new();
    loop
        invariant
            start <= i <= v@.len(),
            psb_continues(v@, start as int, i as int, out@),
        decreases v@.len() - i,
    {
        if i >= v.len() {
            return None;
        }
        let c = v[i];
        let rem = v.len() - i;
        if c == '"' {
            proof {
                assert(out@ + Seq::<char>::empty() =~= out@);
            }
            return Some((out, i + 1));
        } else if c == '\\' {
            if rem < 2 {
                return None;
            }
            let e = v[i + 1];
            if e == 'u' {
                if rem < 6 {
                    return None;
                }
                match hex4_exec(v, i + 2) {
                    None => {
                        return None;
                    },
                    Some(n) => {
                        if 0xD800 <= n && n < 0xDC00 {
                            if rem >= 12 && v[i + 6] == '\\' && v[i + 7] == 'u' {
                                match hex4_exec(v, i + 8) {
                                    None => {
                                        return None;
                                    },
                                    Some(m) => {
                                        if 0xDC00 <= m && m < 0xE000 {
                                            let cp: u32 = 0x10000 + (n - 0xD800) * 0x400 + (m
                                                - 0xDC00);
                                            let c2 = match char_from_u32(cp) {
                                                Some(c2) => c2,
                                                None => {
                                                    proof {
                                                        assert(false);
                                                    }
                                                    ' '
                                                },
                                            };
                                            proof {
                                                lemma_psb_step(
                                                    v@,
                                                    start as int,
                                                    i as int,
                                                    out@,
                                                    c2,
                                                    i + 12,
                                                );
                                            }
                                            out.push(c2);
                                            i = i + 12;
                                        } else {
                                            return None;
                                        }
                                    },
                                }
                            } else {
                                return None;
                            }
                        } else if 0xDC00 <= n && n < 0xE000 {
                            return None;
                        } else {
                            let c2 = match char_from_u32(n) {
                                Some(c2) => c2,
                                None => {
                                    proof {
                                        assert(false);
                                    }
                                    ' '
                                },
                            };
                            proof {
                                lemma_psb_step(v@, start as int, i as int, out@, c2, i + 6);
                            }
                            out.push(c2);
                            i = i + 6;
                        }
                    },
                }
            } else {
                match simple_escape_exec(e) {
                    None => {
                        return None;
                    },
                    Some(c2) => {
                        proof {
                            lemma_psb_step(v@, start as int, i as int, out@, c2, i + 2);
                        }
                        out.push(c2);
                        i = i + 2;
                    },
                }
            }
        } else if (c as u32) < 0x20 {
            return None;
        } else {
            proof {
                lemma_psb_step(v@, start as int, i as int, out@, c, i + 1);
            }
            out.push(c);
            i = i + 1;
        }
    }
}

/// A whole string literal at `i`, opening quote included.
fn parse_json_string_at(v: &Vec<char>, i: usize) -> (r: Option<(Vec<char>, usize)>)
    requires
        i <= v@.len(),
    ensures
        match r {
            Some(p) => parse_json_string(v@, i as int) == Some((p.0@, p.1 as int)) && p.1
                <= v@.len(),
            None => parse_json_string(v@, i as int) is None,
        },
{
    if i < v.len() && v[i] == '"' {
        parse_string_at(v, i + 1)
    } else {
        None
    }
}

fn skip_ws_exec(v: &Vec<char>, from: usize) -> (r: usize)
    requires
        from <= v@.len(),
    ensures
        r as int == skip_ws(v@, from as int),
        from <= r <= v@.len(),
{
    let mut i: usize = from;
    while i < v.len() && (v[i] == ' ' || v[i] == '\t' || v[i] == '\n' || v[i] == '\r')
        invariant
            from <= i <= v@.len(),
            skip_ws(v@, from as int) == skip_ws(v@, i as int),
        decreases v@.len() - i,
    {
        i = i + 1;
    }
    i
}

/// The text carried by a response body of the expected shape: a JSON
/// object with the single member `translatedText` holding a string.
/// Anything else - other top-level shapes, another key, a non-string
/// value, malformed text - carries nothing.
pub open spec fn response_text(s: Seq<char>) -> Option<Seq<char>> {
    let i0 = skip_ws(s, 0);
    if i0 < s.len() && s[i0] == '{' {
        let i1 = skip_ws(s, i0 + 1);
        match parse_json_string(s, i1) {
            None => None,
            Some(kp) => {
                let i2 = skip_ws(s, kp.1);
                if i2 < s.len() && s[i2] == ':' {
                    let i3 = skip_ws(s, i2 + 1);
                    match parse_json_string(s, i3) {
                        None => None,
                        Some(vp) => {
                            let i4 = skip_ws(s, vp.1);
                            if i4 < s.len() && s[i4] == '}' && skip_ws(s, i4 + 1) == s.len() && kp.0
                                == "translatedText"@ {
                                Some(vp.0)
                            } else {
                                None
                            }
                        },
                    }
                } else {
                    None
                }
            },
        }
    } else {
        None
    }
}

/// Extracts the translated text from a response body of the expected
/// shape; `None` for a body of any other shape.
pub fn extract_translated_text(body: &str) -> (r: Option<String>)
    ensures
        match r {
            Some(t) => response_text(body@) == Some(t@),
            None => response_text(body@) is None,
        },
{
    let v = chars_of(body);
    let i0 = skip_ws_exec(&v, 0);
    if i0 >= v.len() || v[i0] != '{' {
        return None;
    }
    let i1 = skip_ws_exec(&v, i0 + 1);
    let kp = match parse_json_string_at(&v, i1) {
        None => {
            return None;
        },
        Some(kp) => kp,
    };
    let i2 = skip_ws_exec(&v, kp.1);
    if i2 >= v.len() || v[i2] != ':' {
        return None;
    }
    let i3 = skip_ws_exec(&v, i2 + 1);
    let vp = match parse_json_string_at(&v, i3) {
        None => {
            return None;
        },
        Some(vp) => vp,
    };
    let i4 = skip_ws_exec(&v, vp.1);
    if i4 >= v.len() || v[i4] != '}' {
        return None;
    }
    if skip_ws_exec(&v, i4 + 1) != v.len() {
        return None;
    }
    if !chars_eq_str(&kp.0, "translatedText") {
        return None;
    }
    Some(string_of(&vp.0))
}

} // verus!
