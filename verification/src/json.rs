//! A small JSON reader, specified as a recursive-descent grammar over
//! character sequences and executed by functions proved equal to that
//! grammar. It covers what the provider wire formats and the persisted
//! configuration need: objects, arrays, strings with the standard escapes
//! (including surrogate pairs), numbers (skipped, never interpreted),
//! booleans and null.

use vstd::prelude::*;

verus! {

/// Relies on std's `char::from_u32`: `Some` exactly for valid Unicode scalar
/// values, carrying that value.
pub assume_specification[ char::from_u32 ](v: u32) -> (r: Option<char>)
    ensures
        r is Some <==> (v < 0xD800 || (0xE000 <= v && v <= 0x10FFFF)),
        r matches Some(c) ==> c == v as char,
;

/// The four JSON whitespace characters.
pub open spec fn json_ws(c: char) -> bool {
    c == ' ' || c == '\t' || c == '\n' || c == '\r'
}

/// First position at or after `i` holding no whitespace.
pub open spec fn spec_skip_ws(s: Seq<char>, i: int) -> int
    decreases s.len() - i,
{
    if 0 <= i < s.len() && json_ws(s[i]) {
        spec_skip_ws(s, i + 1)
    } else {
        i
    }
}

/// ASCII decimal digit.
pub open spec fn json_digit(c: char) -> bool {
    '0' <= c && c <= '9'
}

/// Value of one hexadecimal digit.
pub open spec fn hex_val(c: char) -> Option<int> {
    if '0' <= c && c <= '9' {
        Some(c as int - '0' as int)
    } else if 'a' <= c && c <= 'f' {
        Some(c as int - 'a' as int + 10)
    } else if 'A' <= c && c <= 'F' {
        Some(c as int - 'A' as int + 10)
    } else {
        None
    }
}

/// Value of the four hexadecimal digits at `i`.
pub open spec fn spec_hex4(s: Seq<char>, i: int) -> Option<int> {
    if 0 <= i && i + 4 <= s.len() {
        match (hex_val(s[i]), hex_val(s[i + 1]), hex_val(s[i + 2]), hex_val(s[i + 3])) {
            (Some(a), Some(b), Some(c), Some(d)) => Some(a * 4096 + b * 256 + c * 16 + d),
            _ => None,
        }
    } else {
        None
    }
}

/// The character a single-character escape stands for.
pub open spec fn esc_char(e: char) -> Option<char> {
    if e == '"' {
        Some('"')
    } else if e == '\\' {
        Some('\\')
    } else if e == '/' {
        Some('/')
    } else if e == 'b' {
        Some('\u{0008}')
    } else if e == 'f' {
        Some('\u{000C}')
    } else if e == 'n' {
        Some('\n')
    } else if e == 'r' {
        Some('\r')
    } else if e == 't' {
        Some('\t')
    } else {
        None
    }
}

/// The scalar a surrogate pair encodes.
pub open spec fn surrogate_scalar(h: int, l: int) -> int {
    0x10000 + (h - 0xD800) * 0x400 + (l - 0xDC00)
}

/// Parses a string body starting just after the opening quote: the decoded
/// content and the position just after the closing quote. Unescaped control
/// characters, bad escapes and lone surrogates are rejected.
pub open spec fn spec_string_body(s: Seq<char>, i: int) -> Option<(Seq<char>, int)>
    decreases s.len() - i,
{
    if i < 0 || i >= s.len() {
        None
    } else {
        let c = s[i];
        if c == '"' {
            Some((Seq::empty(), i + 1))
        } else if c == '\\' {
            if i + 1 >= s.len() {
                None
            } else {
                let e = s[i + 1];
                if e == 'u' {
                    match spec_hex4(s, i + 2) {
                        Some(h) => {
                            if 0xD800 <= h < 0xDC00 {
                                if i + 8 <= s.len() && s[i + 6] == '\\' && s[i + 7] == 'u' {
                                    match spec_hex4(s, i + 8) {
                                        Some(l) => {
                                            if 0xDC00 <= l < 0xE000 {
                                                match spec_string_body(s, i + 12) {
                                                    Some((rest, j)) => Some(
                                                        (
                                                            seq![
                                                                surrogate_scalar(h, l) as char,
                                                            ] + rest,
                                                            j,
                                                        ),
                                                    ),
                                                    None => None,
                                                }
                                            } else {
                                                None
                                            }
                                        },
                                        None => None,
                                    }
                                } else {
                                    None
                                }
                            } else if 0xDC00 <= h < 0xE000 {
                                None
                            } else {
                                match spec_string_body(s, i + 6) {
                                    Some((rest, j)) => Some((seq![h as char] + rest, j)),
                                    None => None,
                                }
                            }
                        },
                        None => None,
                    }
                } else {
                    match esc_char(e) {
                        Some(x) => match spec_string_body(s, i + 2) {
                            Some((rest, j)) => Some((seq![x] + rest, j)),
                            None => None,
                        },
                        None => None,
                    }
                }
            }
        } else if (c as int) < 0x20 {
            None
        } else {
            match spec_string_body(s, i + 1) {
                Some((rest, j)) => Some((seq![c] + rest, j)),
                None => None,
            }
        }
    }
}

/// First position at or after `i` holding no digit.
pub open spec fn spec_skip_digits(s: Seq<char>, i: int) -> int
    decreases s.len() - i,
{
    if 0 <= i < s.len() && json_digit(s[i]) {
        spec_skip_digits(s, i + 1)
    } else {
        i
    }
}

pub proof fn lemma_skip_digits_bounds(s: Seq<char>, i: int)
    requires
        0 <= i <= s.len(),
    ensures
        i <= spec_skip_digits(s, i) <= s.len(),
    decreases s.len() - i,
{
    if i < s.len() && json_digit(s[i]) {
        lemma_skip_digits_bounds(s, i + 1);
    }
}

/// Skips one number token (optional sign, integer part, optional fraction
/// and exponent); leading zeros are tolerated.
pub open spec fn spec_skip_number(s: Seq<char>, i: int) -> Option<int> {
    if i < 0 || i > s.len() {
        None
    } else {
        let j0 = if i < s.len() && s[i] == '-' {
            i + 1
        } else {
            i
        };
        if j0 < s.len() && json_digit(s[j0]) {
            let j1 = spec_skip_digits(s, j0);
            let j2 = if j1 + 1 < s.len() && s[j1] == '.' && json_digit(s[j1 + 1]) {
                spec_skip_digits(s, j1 + 1)
            } else {
                j1
            };
            if j2 < s.len() && (s[j2] == 'e' || s[j2] == 'E') {
                let k = if j2 + 1 < s.len() && (s[j2 + 1] == '+' || s[j2 + 1] == '-') {
                    j2 + 2
                } else {
                    j2 + 1
                };
                if k < s.len() && json_digit(s[k]) {
                    Some(spec_skip_digits(s, k))
                } else {
                    None
                }
            } else {
                Some(j2)
            }
        } else {
            None
        }
    }
}

/// Skips one JSON value starting exactly at `i` (no leading whitespace),
/// returning the position just after it.
pub open spec fn spec_skip_value(s: Seq<char>, i: int) -> Option<int>
    decreases s.len() - i, 0int,
{
    if i < 0 || i >= s.len() {
        None
    } else {
        let c = s[i];
        if c == '"' {
            match spec_string_body(s, i + 1) {
                Some((_content, j)) => Some(j),
                None => None,
            }
        } else if c == '{' {
            let j = spec_skip_ws(s, i + 1);
            if i < j <= s.len() {
                spec_skip_members(s, j, true)
            } else {
                None
            }
        } else if c == '[' {
            let j = spec_skip_ws(s, i + 1);
            if i < j <= s.len() {
                spec_skip_elems(s, j, true)
            } else {
                None
            }
        } else if c == 't' {
            if i + 4 <= s.len() && s.subrange(i, i + 4) == "true"@ {
                Some(i + 4)
            } else {
                None
            }
        } else if c == 'f' {
            if i + 5 <= s.len() && s.subrange(i, i + 5) == "false"@ {
                Some(i + 5)
            } else {
                None
            }
        } else if c == 'n' {
            if i + 4 <= s.len() && s.subrange(i, i + 4) == "null"@ {
                Some(i + 4)
            } else {
                None
            }
        } else {
            spec_skip_number(s, i)
        }
    }
}

/// Skips the members of an object, starting after the opening brace with
/// whitespace already skipped; `first` is true until a member was read.
pub open spec fn spec_skip_members(s: Seq<char>, i: int, first: bool) -> Option<int>
    decreases s.len() - i, 1int,
{
    if i < 0 || i >= s.len() {
        None
    } else if first && s[i] == '}' {
        Some(i + 1)
    } else if s[i] != '"' {
        None
    } else {
        match spec_string_body(s, i + 1) {
            Some((_key, j1)) => {
                let j2 = spec_skip_ws(s, j1);
                if 0 <= j2 && j2 < s.len() && s[j2] == ':' {
                    let v = spec_skip_ws(s, j2 + 1);
                    if i < v && v <= s.len() {
                        match spec_skip_value(s, v) {
                            Some(w) => {
                                let j3 = spec_skip_ws(s, w);
                                if 0 <= j3 && j3 < s.len() && s[j3] == '}' {
                                    Some(j3 + 1)
                                } else if 0 <= j3 && j3 < s.len() && s[j3] == ',' {
                                    let k = spec_skip_ws(s, j3 + 1);
                                    if i < k && k <= s.len() {
                                        spec_skip_members(s, k, false)
                                    } else {
                                        None
                                    }
                                } else {
                                    None
                                }
                            },
                            None => None,
                        }
                    } else {
                        None
                    }
                } else {
                    None
                }
            },
            None => None,
        }
    }
}

/// Skips the elements of an array, starting after the opening bracket with
/// whitespace already skipped.
pub open spec fn spec_skip_elems(s: Seq<char>, i: int, first: bool) -> Option<int>
    decreases s.len() - i, 1int,
{
    if i < 0 || i >= s.len() {
        None
    } else if first && s[i] == ']' {
        Some(i + 1)
    } else {
        match spec_skip_value(s, i) {
            Some(w) => {
                let j = spec_skip_ws(s, w);
                if 0 <= j && j < s.len() && s[j] == ']' {
                    Some(j + 1)
                } else if 0 <= j && j < s.len() && s[j] == ',' {
                    let k = spec_skip_ws(s, j + 1);
                    if i < k && k <= s.len() {
                        spec_skip_elems(s, k, false)
                    } else {
                        None
                    }
                } else {
                    None
                }
            },
            None => None,
        }
    }
}


/// Executable whitespace skip.
pub fn skip_ws(s: &Vec<char>, i: usize) -> (r: usize)
    requires
        i <= s@.len(),
    ensures
        r == spec_skip_ws(s@, i as int),
        i <= r <= s@.len(),
    decreases s@.len() - i,
{
    if i < s.len() {
        let c = s[i];
        if c == ' ' || c == '\t' || c == '\n' || c == '\r' {
            return skip_ws(s, i + 1);
        }
    }
    i
}

/// Executable hexadecimal digit value.
pub fn hex_digit(c: char) -> (r: Option<u32>)
    ensures
        (match r {
            Some(v) => hex_val(c) == Some(v as int) && v < 16,
            None => hex_val(c) is None,
        }),
{
    if '0' <= c && c <= '9' {
        Some(c as u32 - '0' as u32)
    } else if 'a' <= c && c <= 'f' {
        Some(c as u32 - 'a' as u32 + 10)
    } else if 'A' <= c && c <= 'F' {
        Some(c as u32 - 'A' as u32 + 10)
    } else {
        None
    }
}

/// Executable four-digit hexadecimal value.
pub fn hex4(s: &Vec<char>, i: usize) -> (r: Option<u32>)
    requires
        i <= s@.len(),
    ensures
        (match r {
            Some(v) => spec_hex4(s@, i as int) == Some(v as int) && v < 0x10000,
            None => spec_hex4(s@, i as int) is None,
        }),
{
    if s.len() >= 4 && i <= s.len() - 4 {
        let a = hex_digit(s[i]);
        let b = hex_digit(s[i + 1]);
        let c = hex_digit(s[i + 2]);
        let d = hex_digit(s[i + 3]);
        match (a, b, c, d) {
            (Some(a), Some(b), Some(c), Some(d)) => Some(a * 4096 + b * 256 + c * 16 + d),
            _ => None,
        }
    } else {
        None
    }
}

/// Executable single-character escape.
pub fn esc_char_exec(e: char) -> (r: Option<char>)
    ensures
        r == esc_char(e),
{
    if e == '"' {
        Some('"')
    } else if e == '\\' {
        Some('\\')
    } else if e == '/' {
        Some('/')
    } else if e == 'b' {
        Some('\u{0008}')
    } else if e == 'f' {
        Some('\u{000C}')
    } else if e == 'n' {
        Some('\n')
    } else if e == 'r' {
        Some('\r')
    } else if e == 't' {
        Some('\t')
    } else {
        None
    }
}

/// Executable string-body parse; returns the decoded content and the
/// position just after the closing quote.
pub fn string_body(s: &Vec<char>, i: usize) -> (r: Option<(Vec<char>, usize)>)
    requires
        i <= s@.len(),
    ensures
        (match r {
            Some(p) => spec_string_body(s@, i as int) == Some((p.0@, p.1 as int)) && p.1
                <= s@.len(),
            None => spec_string_body(s@, i as int) is None,
        }),
    decreases s@.len() - i,
{
    if i >= s.len() {
        return None;
    }
    let c = s[i];
    let code = crate::text::char_code(c);
    if c == '"' {
        let v: Vec<char> = Vec::new();
        proof {
            assert(v@ =~= Seq::<char>::empty());
        }
        return Some((v, i + 1));
    }
    if c == '\\' {
        if s.len() - i < 2 {
            return None;
        }
        let e = s[i + 1];
        if e == 'u' {
            match hex4(s, i + 2) {
                Some(h) => {
                    if 0xD800 <= h && h < 0xDC00 {
                        if s.len() - i >= 8 && s[i + 6] == '\\' && s[i + 7] == 'u' {
                            match hex4(s, i + 8) {
                                Some(l) => {
                                    if 0xDC00 <= l && l < 0xE000 {
                                        match string_body(s, i + 12) {
                                            Some((rest, j)) => {
                                                let scalar: u32 = 0x10000 + (h - 0xD800) * 0x400
                                                    + (l - 0xDC00);
                                                match char::from_u32(scalar) {
                                                    Some(ch) => {
                                                        let ghost r0 = rest@;
                                                        let mut out = rest;
                                                        out.insert(0, ch);
                                                        proof {
                                                            assert(ch == scalar as char);
                                                            assert(scalar as int
                                                                == surrogate_scalar(
                                                                h as int,
                                                                l as int,
                                                            ));
                                                            assert(ch == (scalar as int) as char);
                                                            assert(ch == surrogate_scalar(
                                                                h as int,
                                                                l as int,
                                                            ) as char);
                                                            assert(out@ =~= seq![ch] + r0);
                                                        }
                                                        Some((out, j))
                                                    },
                                                    None => {
                                                        proof {
                                                            assert(false);
                                                        }
                                                        None
                                                    },
                                                }
                                            },
                                            None => None,
                                        }
                                    } else {
                                        None
                                    }
                                },
                                None => None,
                            }
                        } else {
                            None
                        }
                    } else if 0xDC00 <= h && h < 0xE000 {
                        None
                    } else {
                        match string_body(s, i + 6) {
                            Some((rest, j)) => {
                                match char::from_u32(h) {
                                    Some(ch) => {
                                        let ghost r0 = rest@;
                                        let mut out = rest;
                                        out.insert(0, ch);
                                        proof {
                                            assert(ch == h as char);
                                            assert(ch == (h as int) as char);
                                            assert(out@ =~= seq![ch] + r0);
                                        }
                                        Some((out, j))
                                    },
                                    None => {
                                        proof {
                                            assert(false);
                                        }
                                        None
                                    },
                                }
                            },
                            None => None,
                        }
                    }
                },
                None => None,
            }
        } else {
            match esc_char_exec(e) {
                Some(x) => {
                    match string_body(s, i + 2) {
                        Some((rest, j)) => {
                            let ghost r0 = rest@;
                            let mut out = rest;
                            out.insert(0, x);
                            proof {
                                assert(out@ =~= seq![x] + r0);
                            }
                            Some((out, j))
                        },
                        None => None,
                    }
                },
                None => None,
            }
        }
    } else if code < 0x20 {
        None
    } else {
        match string_body(s, i + 1) {
            Some((rest, j)) => {
                let ghost r0 = rest@;
                let mut out = rest;
                out.insert(0, c);
                proof {
                    assert(out@ =~= seq![c] + r0);
                }
                Some((out, j))
            },
            None => None,
        }
    }
}

/// Executable digit skip.
pub fn skip_digits(s: &Vec<char>, i: usize) -> (r: usize)
    requires
        i <= s@.len(),
    ensures
        r == spec_skip_digits(s@, i as int),
        i <= r <= s@.len(),
    decreases s@.len() - i,
{
    if i < s.len() {
        let c = s[i];
        if '0' <= c && c <= '9' {
            return skip_digits(s, i + 1);
        }
    }
    i
}

/// Executable number skip.
pub fn skip_number(s: &Vec<char>, i: usize) -> (r: Option<usize>)
    requires
        i <= s@.len(),
    ensures
        (match r {
            Some(j) => spec_skip_number(s@, i as int) == Some(j as int) && j <= s@.len(),
            None => spec_skip_number(s@, i as int) is None,
        }),
{
    let j0 = if i < s.len() && s[i] == '-' {
        i + 1
    } else {
        i
    };
    if j0 < s.len() && { let c = s[j0]; '0' <= c && c <= '9' } {
        let j1 = skip_digits(s, j0);
        let j2 = if s.len() - j1 >= 2 && s[j1] == '.' && {
            let c = s[j1 + 1];
            '0' <= c && c <= '9'
        } {
            skip_digits(s, j1 + 1)
        } else {
            j1
        };
        if j2 < s.len() && (s[j2] == 'e' || s[j2] == 'E') {
            let k = if s.len() - j2 >= 2 && (s[j2 + 1] == '+' || s[j2 + 1] == '-') {
                j2 + 2
            } else {
                j2 + 1
            };
            if k < s.len() && { let c = s[k]; '0' <= c && c <= '9' } {
                Some(skip_digits(s, k))
            } else {
                None
            }
        } else {
            Some(j2)
        }
    } else {
        None
    }
}

/// Executable value skip.
pub fn skip_value(s: &Vec<char>, i: usize) -> (r: Option<usize>)
    requires
        i <= s@.len(),
    ensures
        (match r {
            Some(j) => spec_skip_value(s@, i as int) == Some(j as int) && j <= s@.len(),
            None => spec_skip_value(s@, i as int) is None,
        }),
    decreases s@.len() - i, 0int,
{
    if i >= s.len() {
        return None;
    }
    let c = s[i];
    if c == '"' {
        match string_body(s, i + 1) {
            Some((_content, j)) => Some(j),
            None => None,
        }
    } else if c == '{' {
        let j = skip_ws(s, i + 1);
        skip_members(s, j, true)
    } else if c == '[' {
        let j = skip_ws(s, i + 1);
        skip_elems(s, j, true)
    } else if c == 't' {
        if s.len() - i >= 4 && s[i + 1] == 'r' && s[i + 2] == 'u' && s[i + 3] == 'e' {
            proof {
                reveal_strlit("true");
                assert(s@.subrange(i as int, i + 4) =~= "true"@);
            }
            Some(i + 4)
        } else {
            proof {
                reveal_strlit("true");
                if i + 4 <= s@.len() && s@.subrange(i as int, i + 4) == "true"@ {
                    assert(s@[i + 1] == 'r' && s@[i + 2] == 'u' && s@[i + 3] == 'e') by {
                        assert(s@.subrange(i as int, i + 4)[1] == s@[i + 1]);
                        assert(s@.subrange(i as int, i + 4)[2] == s@[i + 2]);
                        assert(s@.subrange(i as int, i + 4)[3] == s@[i + 3]);
                    }
                }
            }
            None
        }
    } else if c == 'f' {
        if s.len() - i >= 5 && s[i + 1] == 'a' && s[i + 2] == 'l' && s[i + 3] == 's' && s[i + 4]
            == 'e' {
            proof {
                reveal_strlit("false");
                assert(s@.subrange(i as int, i + 5) =~= "false"@);
            }
            Some(i + 5)
        } else {
            proof {
                reveal_strlit("false");
                if i + 5 <= s@.len() && s@.subrange(i as int, i + 5) == "false"@ {
                    assert(s@[i + 1] == 'a' && s@[i + 2] == 'l' && s@[i + 3] == 's' && s@[i + 4]
                        == 'e') by {
                        assert(s@.subrange(i as int, i + 5)[1] == s@[i + 1]);
                        assert(s@.subrange(i as int, i + 5)[2] == s@[i + 2]);
                        assert(s@.subrange(i as int, i + 5)[3] == s@[i + 3]);
                        assert(s@.subrange(i as int, i + 5)[4] == s@[i + 4]);
                    }
                }
            }
            None
        }
    } else if c == 'n' {
        if s.len() - i >= 4 && s[i + 1] == 'u' && s[i + 2] == 'l' && s[i + 3] == 'l' {
            proof {
                reveal_strlit("null");
                assert(s@.subrange(i as int, i + 4) =~= "null"@);
            }
            Some(i + 4)
        } else {
            proof {
                reveal_strlit("null");
                if i + 4 <= s@.len() && s@.subrange(i as int, i + 4) == "null"@ {
                    assert(s@[i + 1] == 'u' && s@[i + 2] == 'l' && s@[i + 3] == 'l') by {
                        assert(s@.subrange(i as int, i + 4)[1] == s@[i + 1]);
                        assert(s@.subrange(i as int, i + 4)[2] == s@[i + 2]);
                        assert(s@.subrange(i as int, i + 4)[3] == s@[i + 3]);
                    }
                }
            }
            None
        }
    } else {
        skip_number(s, i)
    }
}

/// Executable object-member skip.
pub fn skip_members(s: &Vec<char>, i: usize, first: bool) -> (r: Option<usize>)
    requires
        i <= s@.len(),
    ensures
        (match r {
            Some(j) => spec_skip_members(s@, i as int, first) == Some(j as int) && j <= s@.len(),
            None => spec_skip_members(s@, i as int, first) is None,
        }),
    decreases s@.len() - i, 1int,
{
    if i >= s.len() {
        return None;
    }
    if first && s[i] == '}' {
        return Some(i + 1);
    }
    if s[i] != '"' {
        return None;
    }
    match string_body(s, i + 1) {
        Some((_key, j1)) => {
            let j2 = skip_ws(s, j1);
            if j2 < s.len() && s[j2] == ':' {
                let v = skip_ws(s, j2 + 1);
                if i < v && v <= s.len() {
                    match skip_value(s, v) {
                        Some(w) => {
                            let j3 = skip_ws(s, w);
                            if j3 < s.len() && s[j3] == '}' {
                                Some(j3 + 1)
                            } else if j3 < s.len() && s[j3] == ',' {
                                let k = skip_ws(s, j3 + 1);
                                if i < k && k <= s.len() {
                                    skip_members(s, k, false)
                                } else {
                                    None
                                }
                            } else {
                                None
                            }
                        },
                        None => None,
                    }
                } else {
                    None
                }
            } else {
                None
            }
        },
        None => None,
    }
}

/// Executable array-element skip.
pub fn skip_elems(s: &Vec<char>, i: usize, first: bool) -> (r: Option<usize>)
    requires
        i <= s@.len(),
    ensures
        (match r {
            Some(j) => spec_skip_elems(s@, i as int, first) == Some(j as int) && j <= s@.len(),
            None => spec_skip_elems(s@, i as int, first) is None,
        }),
    decreases s@.len() - i, 1int,
{
    if i >= s.len() {
        return None;
    }
    if first && s[i] == ']' {
        return Some(i + 1);
    }
    match skip_value(s, i) {
        Some(w) => {
            let j = skip_ws(s, w);
            if j < s.len() && s[j] == ']' {
                Some(j + 1)
            } else if j < s.len() && s[j] == ',' {
                let k = skip_ws(s, j + 1);
                if i < k && k <= s.len() {
                    skip_elems(s, k, false)
                } else {
                    None
                }
            } else {
                None
            }
        },
        None => None,
    }
}


/// Position of the value of the first member named `key`, scanning members
/// from `i` (at a key quote or the closing brace, whitespace skipped).
pub open spec fn spec_find_field(s: Seq<char>, i: int, key: Seq<char>) -> Option<int>
    decreases s.len() - i,
{
    if i < 0 || i >= s.len() {
        None
    } else if s[i] == '}' {
        None
    } else if s[i] != '"' {
        None
    } else {
        match spec_string_body(s, i + 1) {
            Some((k, j1)) => {
                let j2 = spec_skip_ws(s, j1);
                if 0 <= j2 && j2 < s.len() && s[j2] == ':' {
                    let v = spec_skip_ws(s, j2 + 1);
                    if k == key {
                        Some(v)
                    } else if i < v && v <= s.len() {
                        match spec_skip_value(s, v) {
                            Some(w) => {
                                let j3 = spec_skip_ws(s, w);
                                if 0 <= j3 && j3 < s.len() && s[j3] == ',' {
                                    let nxt = spec_skip_ws(s, j3 + 1);
                                    if i < nxt && nxt <= s.len() {
                                        spec_find_field(s, nxt, key)
                                    } else {
                                        None
                                    }
                                } else {
                                    None
                                }
                            },
                            None => None,
                        }
                    } else {
                        None
                    }
                } else {
                    None
                }
            },
            None => None,
        }
    }
}

/// The decoded content of the string value starting at `p`.
pub open spec fn spec_string_at(s: Seq<char>, p: int) -> Option<Seq<char>> {
    if 0 <= p && p < s.len() && s[p] == '"' {
        match spec_string_body(s, p + 1) {
            Some((content, _j)) => Some(content),
            None => None,
        }
    } else {
        None
    }
}

/// The boolean value starting at `p`, if any.
pub open spec fn spec_bool_at(s: Seq<char>, p: int) -> Option<bool> {
    if 0 <= p && p + 4 <= s.len() && s.subrange(p, p + 4) == "true"@ {
        Some(true)
    } else if 0 <= p && p + 5 <= s.len() && s.subrange(p, p + 5) == "false"@ {
        Some(false)
    } else {
        None
    }
}

/// Position of the first element of the array starting at `p`; `None` when
/// `p` holds no array or the array is empty.
pub open spec fn spec_first_elem(s: Seq<char>, p: int) -> Option<int> {
    if 0 <= p && p < s.len() && s[p] == '[' {
        let e = spec_skip_ws(s, p + 1);
        if 0 <= e && e < s.len() && s[e] != ']' {
            Some(e)
        } else {
            None
        }
    } else {
        None
    }
}

/// Position of the value of member `key` of the object starting at `p`.
pub open spec fn spec_member_at(s: Seq<char>, p: int, key: Seq<char>) -> Option<int> {
    if 0 <= p && p < s.len() && s[p] == '{' {
        spec_find_field(s, spec_skip_ws(s, p + 1), key)
    } else {
        None
    }
}

/// Position of the top-level object, whitespace skipped.
pub open spec fn spec_doc_start(s: Seq<char>) -> int {
    spec_skip_ws(s, 0)
}

/// The document is one well-formed JSON object and nothing else.
pub open spec fn spec_valid_object_doc(s: Seq<char>) -> bool {
    let i = spec_doc_start(s);
    &&& 0 <= i < s.len()
    &&& s[i] == '{'
    &&& match spec_skip_value(s, i) {
        Some(e) => spec_skip_ws(s, e) == s.len(),
        None => false,
    }
}

/// Position of the value of member `key` of the top-level object.
pub open spec fn spec_doc_member(s: Seq<char>, key: Seq<char>) -> Option<int> {
    spec_member_at(s, spec_doc_start(s), key)
}

/// Executable member search.
pub fn find_field(s: &Vec<char>, i: usize, key: &Vec<char>) -> (r: Option<usize>)
    requires
        i <= s@.len(),
    ensures
        (match r {
            Some(v) => spec_find_field(s@, i as int, key@) == Some(v as int) && v <= s@.len(),
            None => spec_find_field(s@, i as int, key@) is None,
        }),
    decreases s@.len() - i,
{
    if i >= s.len() {
        return None;
    }
    if s[i] == '}' {
        return None;
    }
    if s[i] != '"' {
        return None;
    }
    match string_body(s, i + 1) {
        Some((k, j1)) => {
            let j2 = skip_ws(s, j1);
            if j2 < s.len() && s[j2] == ':' {
                let v = skip_ws(s, j2 + 1);
                if crate::text::chars_eq(&k, key) {
                    Some(v)
                } else if i < v && v <= s.len() {
                    match skip_value(s, v) {
                        Some(w) => {
                            let j3 = skip_ws(s, w);
                            if j3 < s.len() && s[j3] == ',' {
                                let nxt = skip_ws(s, j3 + 1);
                                if i < nxt && nxt <= s.len() {
                                    find_field(s, nxt, key)
                                } else {
                                    None
                                }
                            } else {
                                None
                            }
                        },
                        None => None,
                    }
                } else {
                    None
                }
            } else {
                None
            }
        },
        None => None,
    }
}

/// Executable string extraction at a value position.
pub fn string_at(s: &Vec<char>, p: usize) -> (r: Option<Vec<char>>)
    requires
        p <= s@.len(),
    ensures
        (match r {
            Some(v) => spec_string_at(s@, p as int) == Some(v@),
            None => spec_string_at(s@, p as int) is None,
        }),
{
    if p < s.len() && s[p] == '"' {
        match string_body(s, p + 1) {
            Some((content, _j)) => Some(content),
            None => None,
        }
    } else {
        None
    }
}

/// Executable boolean extraction at a value position.
pub fn bool_at(s: &Vec<char>, p: usize) -> (r: Option<bool>)
    requires
        p <= s@.len(),
    ensures
        r == spec_bool_at(s@, p as int),
{
    proof {
        reveal_strlit("true");
        reveal_strlit("false");
    }
    if s.len() - p >= 4 && s[p] == 't' && s[p + 1] == 'r' && s[p + 2] == 'u' && s[p + 3] == 'e' {
        proof {
            assert(s@.subrange(p as int, p + 4) =~= "true"@);
        }
        Some(true)
    } else if s.len() - p >= 5 && s[p] == 'f' && s[p + 1] == 'a' && s[p + 2] == 'l' && s[p + 3]
        == 's' && s[p + 4] == 'e' {
        proof {
            assert(s@.subrange(p as int, p + 5) =~= "false"@);
            if p + 4 <= s@.len() && s@.subrange(p as int, p + 4) == "true"@ {
                assert(s@.subrange(p as int, p + 4)[0] == s@[p as int]);
                assert(false);
            }
        }
        Some(false)
    } else {
        proof {
            if p + 4 <= s@.len() && s@.subrange(p as int, p + 4) == "true"@ {
                assert(s@.subrange(p as int, p + 4)[0] == s@[p as int]);
                assert(s@.subrange(p as int, p + 4)[1] == s@[p + 1]);
                assert(s@.subrange(p as int, p + 4)[2] == s@[p + 2]);
                assert(s@.subrange(p as int, p + 4)[3] == s@[p + 3]);
                assert(false);
            }
            if p + 5 <= s@.len() && s@.subrange(p as int, p + 5) == "false"@ {
                assert(s@.subrange(p as int, p + 5)[0] == s@[p as int]);
                assert(s@.subrange(p as int, p + 5)[1] == s@[p + 1]);
                assert(s@.subrange(p as int, p + 5)[2] == s@[p + 2]);
                assert(s@.subrange(p as int, p + 5)[3] == s@[p + 3]);
                assert(s@.subrange(p as int, p + 5)[4] == s@[p + 4]);
                assert(false);
            }
        }
        None
    }
}

/// Executable first-element search.
pub fn first_elem(s: &Vec<char>, p: usize) -> (r: Option<usize>)
    requires
        p <= s@.len(),
    ensures
        (match r {
            Some(e) => spec_first_elem(s@, p as int) == Some(e as int) && e <= s@.len(),
            None => spec_first_elem(s@, p as int) is None,
        }),
{
    if p < s.len() && s[p] == '[' {
        let e = skip_ws(s, p + 1);
        if e < s.len() && s[e] != ']' {
            Some(e)
        } else {
            None
        }
    } else {
        None
    }
}

/// Executable object-member lookup at a value position.
pub fn member_at(s: &Vec<char>, p: usize, key: &Vec<char>) -> (r: Option<usize>)
    requires
        p <= s@.len(),
    ensures
        (match r {
            Some(v) => spec_member_at(s@, p as int, key@) == Some(v as int) && v <= s@.len(),
            None => spec_member_at(s@, p as int, key@) is None,
        }),
{
    if p < s.len() && s[p] == '{' {
        let m = skip_ws(s, p + 1);
        find_field(s, m, key)
    } else {
        None
    }
}

/// Executable check that the document is one well-formed JSON object, and
/// the position of that object.
pub fn valid_object_doc(s: &Vec<char>) -> (r: Option<usize>)
    ensures
        (match r {
            Some(i) => spec_valid_object_doc(s@) && i == spec_doc_start(s@) && i < s@.len(),
            None => !spec_valid_object_doc(s@),
        }),
{
    let i = skip_ws(s, 0);
    if i < s.len() && s[i] == '{' {
        match skip_value(s, i) {
            Some(e) => {
                let t = skip_ws(s, e);
                if t == s.len() {
                    Some(i)
                } else {
                    None
                }
            },
            None => None,
        }
    } else {
        None
    }
}

/// Executable top-level member lookup.
pub fn doc_member(s: &Vec<char>, key: &Vec<char>) -> (r: Option<usize>)
    ensures
        (match r {
            Some(v) => spec_doc_member(s@, key@) == Some(v as int) && v <= s@.len(),
            None => spec_doc_member(s@, key@) is None,
        }),
{
    let i = skip_ws(s, 0);
    member_at(s, i, key)
}


/// Lower-case hexadecimal digit character for a value in `0 ..= 15`.
pub open spec fn hex_char(d: int) -> char {
    if d < 10 {
        ((48 + d) as u8) as char
    } else {
        ((87 + d) as u8) as char
    }
}

/// The JSON escape of one character: quote and backslash escaped, control
/// characters as `\u00XX`, everything else kept as is.
pub open spec fn esc_of(c: char) -> Seq<char> {
    if c == '"' {
        seq!['\\', '"']
    } else if c == '\\' {
        seq!['\\', '\\']
    } else if (c as int) < 0x20 {
        seq!['\\', 'u', '0', '0', hex_char(c as int / 16), hex_char(c as int % 16)]
    } else {
        seq![c]
    }
}

/// The JSON escape of a whole sequence.
pub open spec fn json_escape(s: Seq<char>) -> Seq<char>
    decreases s.len(),
{
    if s.len() == 0 {
        Seq::empty()
    } else {
        esc_of(s[0]) + json_escape(s.drop_first())
    }
}

pub proof fn lemma_json_escape_push(s: Seq<char>, x: char)
    ensures
        json_escape(s.push(x)) == json_escape(s) + esc_of(x),
    decreases s.len(),
{
    if s.len() == 0 {
        assert(s.push(x).drop_first().len() == 0);
        assert(json_escape(s.push(x).drop_first()) =~= Seq::<char>::empty());
        assert(s.push(x)[0] == x);
        assert(json_escape(s) =~= Seq::<char>::empty());
        assert(json_escape(s.push(x)) =~= json_escape(s) + esc_of(x));
    } else {
        assert(s.push(x).drop_first() =~= s.drop_first().push(x));
        lemma_json_escape_push(s.drop_first(), x);
        assert(json_escape(s.push(x)) =~= json_escape(s) + esc_of(x));
    }
}

/// Executable JSON escaping of a character vector.
pub fn escape_chars(v: &Vec<char>) -> (r: Vec<char>)
    ensures
        r@ == json_escape(v@),
{
    let mut r: Vec<char> = Vec::new();
    proof {
        assert(json_escape(v@.take(0)) =~= Seq::<char>::empty());
        assert(r@ =~= json_escape(v@.take(0)));
    }
    let mut i: usize = 0;
    while i < v.len()
        invariant
            i <= v@.len(),
            r@ == json_escape(v@.take(i as int)),
        decreases v@.len() - i,
    {
        let c = v[i];
        let code = crate::text::char_code(c);
        let ghost before = r@;
        if c == '"' {
            r.push('\\');
            r.push('"');
        } else if c == '\\' {
            r.push('\\');
            r.push('\\');
        } else if code < 0x20 {
            r.push('\\');
            r.push('u');
            r.push('0');
            r.push('0');
            let hi = code / 16;
            let lo = code % 16;
            r.push(if hi < 10 {
                ((48 + hi) as u8) as char
            } else {
                ((87 + hi) as u8) as char
            });
            r.push(if lo < 10 {
                ((48 + lo) as u8) as char
            } else {
                ((87 + lo) as u8) as char
            });
        } else {
            r.push(c);
        }
        proof {
            assert(r@ =~= before + esc_of(v@[i as int]));
            lemma_json_escape_push(v@.take(i as int), v@[i as int]);
            assert(v@.take(i as int).push(v@[i as int]) =~= v@.take(i + 1));
        }
        i += 1;
    }
    proof {
        assert(v@.take(v@.len() as int) =~= v@);
    }
    r
}


/// A character that the string grammar passes through unescaped and that the
/// escaper leaves alone.
pub open spec fn plain_char(c: char) -> bool {
    c != '"' && c != '\\' && (c as int) >= 0x20
}

/// Decoding the escaper's digit gives the digit back.
pub proof fn lemma_hex_char_val(d: int)
    requires
        0 <= d < 16,
    ensures
        hex_val(hex_char(d)) == Some(d),
{
}

/// A run of plain characters up to a closing quote parses as itself.
pub proof fn lemma_string_body_plain(s: Seq<char>, i: int, n: int)
    requires
        0 <= i,
        0 <= n,
        i + n < s.len(),
        forall|k: int| i <= k < i + n ==> plain_char(#[trigger] s[k]),
        s[i + n] == '"',
    ensures
        spec_string_body(s, i) == Some((s.subrange(i, i + n), i + n + 1)),
    decreases n,
{
    if n == 0 {
        assert(s.subrange(i, i) =~= Seq::<char>::empty());
    } else {
        assert(plain_char(s[i]));
        lemma_string_body_plain(s, i + 1, n - 1);
        assert(seq![s[i]] + s.subrange(i + 1, i + n) =~= s.subrange(i, i + n));
    }
}

/// A genuine Unicode scalar value, as any character of a real string is.
pub open spec fn valid_char(c: char) -> bool {
    0 <= c as int && c as int <= 0x10FFFF && ((c as int) < 0xD800 || 0xE000 <= c as int)
}

/// Every element is a genuine Unicode scalar value.
pub open spec fn valid_chars(s: Seq<char>) -> bool {
    forall|k: int| 0 <= k < s.len() ==> valid_char(#[trigger] s[k])
}

/// The escape of a sequence, followed by a closing quote, parses back to the
/// sequence.
pub proof fn lemma_string_body_escaped(s: Seq<char>, i: int, x: Seq<char>)
    requires
        valid_chars(x),
        0 <= i,
        i + json_escape(x).len() < s.len(),
        s.subrange(i, i + json_escape(x).len()) == json_escape(x),
        s[i + json_escape(x).len()] == '"',
    ensures
        spec_string_body(s, i) == Some((x, i + json_escape(x).len() + 1)),
    decreases x.len(),
{
    let e = json_escape(x);
    if x.len() == 0 {
        assert(e.len() == 0);
        assert(s[i] == '"');
    } else {
        let c = x[0];
        let rest = x.drop_first();
        let e0 = esc_of(c);
        let er = json_escape(rest);
        assert(e == e0 + er);
        assert(e.len() == e0.len() + er.len());
        assert forall|k: int| 0 <= k < e0.len() implies s[i + k] == e0[k] by {
            assert(s.subrange(i, i + e.len())[k] == s[i + k]);
            assert((e0 + er)[k] == e0[k]);
        }
        let i2 = i + e0.len();
        assert(s.subrange(i2, i2 + er.len()) =~= er) by {
            assert forall|k: int| 0 <= k < er.len() implies s.subrange(i2, i2 + er.len())[k]
                == er[k] by {
                assert(s.subrange(i, i + e.len())[e0.len() + k] == s[i2 + k]);
                assert((e0 + er)[e0.len() + k] == er[k]);
            }
        }
        assert(valid_chars(rest)) by {
            assert forall|k: int| 0 <= k < rest.len() implies valid_char(#[trigger] rest[k]) by {
                assert(rest[k] == x[k + 1]);
            }
        }
        lemma_string_body_escaped(s, i2, rest);
        assert(0 <= c as int <= 0x10FFFF) by {
            assert(x[0] == c);
        }
        if c == '"' {
            assert(s[i + 0] == e0[0] && s[i + 1] == e0[1]);
            assert(s[i] == '\\' && s[i + 1] == '"');
            assert(esc_char('"') == Some('"'));
            assert(seq!['"'] + rest =~= x);
        } else if c == '\\' {
            assert(s[i + 0] == e0[0] && s[i + 1] == e0[1]);
            assert(s[i] == '\\' && s[i + 1] == '\\');
            assert(esc_char('\\') == Some('\\'));
            assert(seq!['\\'] + rest =~= x);
        } else if (c as int) < 0x20 {
            let ci = c as int;
            let hi = ci / 16;
            let lo = ci % 16;
            assert(s[i + 0] == e0[0] && s[i + 1] == e0[1] && s[i + 2] == e0[2] && s[i + 3] == e0[3]
                && s[i + 4] == e0[4] && s[i + 5] == e0[5]);
            assert(s[i] == '\\' && s[i + 1] == 'u' && s[i + 2] == '0' && s[i + 3] == '0' && s[i
                + 4] == hex_char(hi) && s[i + 5] == hex_char(lo));
            assert(hex_val('0') == Some(0int));
            assert(0 <= hi < 2) by {
                assert(0 <= ci < 0x20);
            }
            assert(0 <= lo < 16);
            lemma_hex_char_val(hi);
            lemma_hex_char_val(lo);
            assert(spec_hex4(s, i + 2) == Some(hi * 16 + lo));
            assert(hi * 16 + lo == ci) by {
                vstd::arithmetic::div_mod::lemma_fundamental_div_mod(ci, 16);
            }
            assert(!(0xD800 <= ci < 0xDC00) && !(0xDC00 <= ci < 0xE000));
            assert((ci as char) == c);
            assert(seq![c] + rest =~= x);
        } else {
            assert(plain_char(c));
            assert(s[i + 0] == e0[0]);
            assert(s[i] == c);
            assert(seq![c] + rest =~= x);
        }
    }
}
} // verus!
