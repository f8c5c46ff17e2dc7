//! A parser from the engine's serialized reply into a dynamic value.
//!
//! The engine hands its value graph over as JSON text (serialized without
//! insignificant whitespace). This layer reads exactly that: the literals,
//! integral numbers, strings with the standard escapes (including `\u`
//! escapes and surrogate pairs), arrays and objects. A number with a
//! fraction, an exponent or more than eighteen digits has no integral
//! reading here: it is carried through as its lexeme, and degrades locally —
//! only reading it as a field of a node is a conversion error.

use vstd::prelude::*;
use vstd::string::StrSliceExecFns;
use vstd::string::StringExecFns;
use crate::dynvalue::{Dyn, DynV, seq_view, fields_view, push_char};
use crate::error::{UnlatexError, UnlatexErrorV, rv};

verus! {

/// The error reported for text that is not a serialized value graph.
pub open spec fn malformed() -> UnlatexErrorV {
    UnlatexErrorV::FromJs { from: "json"@, to: "value"@, message: None }
}

/// The malformed-reply error.
pub fn malformed_error() -> (r: UnlatexError)
    ensures
        r@ == malformed(),
{
    UnlatexError::FromJs { from: String::from_str("json"), to: String::from_str("value"), message: None }
}

/// The value of a hexadecimal digit.
pub open spec fn sp_hexd(c: char) -> Option<u32> {
    if '0' <= c <= '9' {
        Some((c as u32 - '0' as u32) as u32)
    } else if 'a' <= c <= 'f' {
        Some((c as u32 - 'a' as u32 + 10) as u32)
    } else if 'A' <= c <= 'F' {
        Some((c as u32 - 'A' as u32 + 10) as u32)
    } else {
        None
    }
}

/// The value of the four hexadecimal digits at `i`.
pub open spec fn sp_hex4(s: Seq<char>, i: int) -> Option<u32> {
    if i + 4 <= s.len() {
        match (sp_hexd(s[i]), sp_hexd(s[i + 1]), sp_hexd(s[i + 2]), sp_hexd(s[i + 3])) {
            (Some(a), Some(b), Some(c), Some(d)) => Some(
                ((a * 0x1000 + b * 0x100 + c * 0x10 + d) as u32),
            ),
            _ => None,
        }
    } else {
        None
    }
}

/// The characters of a string body starting at `i` (after the opening
/// quote), up to and past the closing quote.
pub open spec fn sp_str_chars(s: Seq<char>, i: int, acc: Seq<char>) -> Option<(Seq<char>, int)>
    decreases s.len() - i, 1int,
{
    if i < 0 || i >= s.len() {
        None
    } else if s[i] == '"' {
        Some((acc, i + 1))
    } else if s[i] == '\\' {
        if i + 1 >= s.len() {
            None
        } else {
            let e = s[i + 1];
            if e == '"' {
                sp_str_chars(s, i + 2, acc.push('"'))
            } else if e == '\\' {
                sp_str_chars(s, i + 2, acc.push('\\'))
            } else if e == '/' {
                sp_str_chars(s, i + 2, acc.push('/'))
            } else if e == 'b' {
                sp_str_chars(s, i + 2, acc.push('\u{8}'))
            } else if e == 'f' {
                sp_str_chars(s, i + 2, acc.push('\u{c}'))
            } else if e == 'n' {
                sp_str_chars(s, i + 2, acc.push('\n'))
            } else if e == 'r' {
                sp_str_chars(s, i + 2, acc.push('\r'))
            } else if e == 't' {
                sp_str_chars(s, i + 2, acc.push('\t'))
            } else if e == 'u' {
                sp_unicode(s, i + 2, acc)
            } else {
                None
            }
        }
    } else {
        sp_str_chars(s, i + 1, acc.push(s[i]))
    }
}

/// The character of a `\u` escape whose four digits start at `i`: a plain
/// scalar stands alone, a high surrogate must pair with a following `\u`
/// low surrogate, and a lone low surrogate does not convert.
pub open spec fn sp_unicode(s: Seq<char>, i: int, acc: Seq<char>) -> Option<(Seq<char>, int)>
    decreases s.len() - i, 0int,
{
    if i < 0 {
        None
    } else {
        match sp_hex4(s, i) {
            None => None,
            Some(hi) => {
                if 0xD800 <= hi < 0xDC00 {
                    if i + 10 <= s.len() && s[i + 4] == '\\' && s[i + 5] == 'u' {
                        match sp_hex4(s, i + 6) {
                            None => None,
                            Some(lo) => {
                                if 0xDC00 <= lo < 0xE000 {
                                    let code = (0x10000 + (hi - 0xD800) * 0x400 + (lo
                                        - 0xDC00)) as u32;
                                    sp_str_chars(s, i + 10, acc.push(code as char))
                                } else {
                                    None
                                }
                            },
                        }
                    } else {
                        None
                    }
                } else if 0xDC00 <= hi < 0xE000 {
                    None
                } else {
                    sp_str_chars(s, i + 4, acc.push(hi as char))
                }
            },
        }
    }
}

/// Powers of ten.
pub open spec fn p10(n: nat) -> int
    decreases n,
{
    if n == 0 {
        1
    } else {
        10 * p10((n - 1) as nat)
    }
}

/// The value and end of the digit run at `i`, given `acc` read over `cnt`
/// digits already; a run longer than eighteen digits does not convert.
pub open spec fn sp_digits(s: Seq<char>, i: int, acc: int, cnt: nat) -> Option<(int, int)>
    decreases s.len() - i,
{
    if 0 <= i < s.len() && '0' <= s[i] <= '9' {
        if cnt >= 18 {
            None
        } else {
            sp_digits(s, i + 1, acc * 10 + (s[i] as int - '0' as int), cnt + 1)
        }
    } else {
        if cnt == 0 {
            None
        } else {
            Some((acc, i))
        }
    }
}

/// The end of the digit run at `i`.
pub open spec fn digits_end(s: Seq<char>, i: int) -> int
    decreases s.len() - i,
{
    if 0 <= i < s.len() && '0' <= s[i] <= '9' {
        digits_end(s, i + 1)
    } else {
        i
    }
}

/// The end of the optional fraction part at `j`: a point must be followed by
/// at least one digit.
pub open spec fn frac_end(s: Seq<char>, j: int) -> Option<int> {
    if 0 <= j < s.len() && s[j] == '.' {
        let k = digits_end(s, j + 1);
        if k == j + 1 {
            None
        } else {
            Some(k)
        }
    } else {
        Some(j)
    }
}

/// The end of the optional exponent part at `j`: an exponent mark and an
/// optional sign must be followed by at least one digit.
pub open spec fn exp_end(s: Seq<char>, j: int) -> Option<int> {
    if 0 <= j < s.len() && (s[j] == 'e' || s[j] == 'E') {
        let k0 = if j + 1 < s.len() && (s[j + 1] == '+' || s[j + 1] == '-') {
            j + 2
        } else {
            j + 1
        };
        let k = digits_end(s, k0);
        if k == k0 {
            None
        } else {
            Some(k)
        }
    } else {
        Some(j)
    }
}

/// The number at `i`: an integral number of up to eighteen digits is read as
/// a value, and any other well-formed number (a fraction, an exponent, or a
/// longer digit run) is carried as its lexeme.
pub open spec fn sp_number(s: Seq<char>, i: int) -> Option<(DynV, int)> {
    if 0 <= i < s.len() && s[i] == '-' {
        sp_magnitude(s, i, i + 1, true)
    } else {
        sp_magnitude(s, i, i, false)
    }
}

/// The number token starting at `start` whose digits start at `j0`.
pub open spec fn sp_magnitude(s: Seq<char>, start: int, j0: int, neg: bool) -> Option<
    (DynV, int),
> {
    let j1 = digits_end(s, j0);
    if j1 == j0 {
        None
    } else {
        match frac_end(s, j1) {
            None => None,
            Some(j2) => match exp_end(s, j2) {
                None => None,
                Some(j3) => {
                    if j3 == j1 && j1 - j0 <= 18 {
                        match sp_digits(s, j0, 0, 0) {
                            Some((m, j)) => Some(
                                (
                                    DynV::Int(
                                        if neg {
                                            -m
                                        } else {
                                            m
                                        },
                                    ),
                                    j,
                                ),
                            ),
                            None => None,
                        }
                    } else {
                        Some((DynV::Float(s.subrange(start, j3)), j3))
                    }
                },
            },
        }
    }
}

/// The serialized value at `i`. The fuel bounds the recursion; the top-level
/// entry supplies more than any reply can use up.
pub open spec fn sp_value(s: Seq<char>, i: int, fuel: nat) -> Option<(DynV, int)>
    decreases fuel, 2int,
{
    if fuel == 0 || i < 0 || i >= s.len() {
        None
    } else {
        let c = s[i];
        if c == 'n' {
            if i + 4 <= s.len() && s[i + 1] == 'u' && s[i + 2] == 'l' && s[i + 3] == 'l' {
                Some((DynV::Null, i + 4))
            } else {
                None
            }
        } else if c == 't' {
            if i + 4 <= s.len() && s[i + 1] == 'r' && s[i + 2] == 'u' && s[i + 3] == 'e' {
                Some((DynV::Bool(true), i + 4))
            } else {
                None
            }
        } else if c == 'f' {
            if i + 5 <= s.len() && s[i + 1] == 'a' && s[i + 2] == 'l' && s[i + 3] == 's' && s[i
                + 4] == 'e' {
                Some((DynV::Bool(false), i + 5))
            } else {
                None
            }
        } else if c == '"' {
            match sp_str_chars(s, i + 1, Seq::empty()) {
                Some((cs, j)) => Some((DynV::Str(cs), j)),
                None => None,
            }
        } else if c == '-' || '0' <= c <= '9' {
            sp_number(s, i)
        } else if c == '[' {
            if i + 1 < s.len() && s[i + 1] == ']' {
                Some((DynV::Arr(Seq::empty()), i + 2))
            } else {
                match sp_arr_items(s, i + 1, Seq::empty(), (fuel - 1) as nat) {
                    Some((xs, j)) => Some((DynV::Arr(xs), j)),
                    None => None,
                }
            }
        } else if c == '{' {
            if i + 1 < s.len() && s[i + 1] == '}' {
                Some((DynV::Obj(Seq::empty()), i + 2))
            } else {
                match sp_obj_items(s, i + 1, Seq::empty(), (fuel - 1) as nat) {
                    Some((fs, j)) => Some((DynV::Obj(fs), j)),
                    None => None,
                }
            }
        } else {
            None
        }
    }
}

/// The elements of an array from `i` on, appended to `acc`.
pub open spec fn sp_arr_items(s: Seq<char>, i: int, acc: Seq<DynV>, fuel: nat) -> Option<
    (Seq<DynV>, int),
>
    decreases fuel, 1int,
{
    if fuel == 0 {
        None
    } else {
        match sp_value(s, i, (fuel - 1) as nat) {
            None => None,
            Some((v, j)) => {
                if j < s.len() && s[j] == ',' {
                    sp_arr_items(s, j + 1, acc.push(v), (fuel - 1) as nat)
                } else if j < s.len() && s[j] == ']' {
                    Some((acc.push(v), j + 1))
                } else {
                    None
                }
            },
        }
    }
}

/// The fields of an object from `i` on, appended to `acc`.
pub open spec fn sp_obj_items(
    s: Seq<char>,
    i: int,
    acc: Seq<(Seq<char>, DynV)>,
    fuel: nat,
) -> Option<(Seq<(Seq<char>, DynV)>, int)>
    decreases fuel, 1int,
{
    if fuel == 0 {
        None
    } else if i < 0 || i >= s.len() || s[i] != '"' {
        None
    } else {
        match sp_str_chars(s, i + 1, Seq::empty()) {
            None => None,
            Some((k, j)) => {
                if j < s.len() && s[j] == ':' {
                    match sp_value(s, j + 1, (fuel - 1) as nat) {
                        None => None,
                        Some((v, j2)) => {
                            if j2 < s.len() && s[j2] == ',' {
                                sp_obj_items(s, j2 + 1, acc.push((k, v)), (fuel - 1) as nat)
                            } else if j2 < s.len() && s[j2] == '}' {
                                Some((acc.push((k, v)), j2 + 1))
                            } else {
                                None
                            }
                        },
                    }
                } else {
                    None
                }
            },
        }
    }
}

/// The dynamic value serialized as the whole of `s`.
pub open spec fn parse_json(s: Seq<char>) -> Result<DynV, UnlatexErrorV> {
    match sp_value(s, 0, (2 * s.len() + 2) as nat) {
        Some((v, j)) => if j == s.len() {
            Ok(v)
        } else {
            Err(malformed())
        },
        None => Err(malformed()),
    }
}


/// Relies on char::from_u32: `Some` exactly for Unicode scalar values, and
/// the returned character has the given value.
#[verifier::external_body]
fn char_from_u32(u: u32) -> (r: Option<char>)
    ensures
        r is Some <==> vstd::utf8::is_scalar(u),
        r matches Some(c) ==> c as u32 == u,
{
    char::from_u32(u)
}

/// The characters of a string slice, in order.
pub fn chars_vec(s: &str) -> (r: Vec<char>)
    ensures
        r@ == s@,
{
    let n = s.unicode_len();
    let mut out: Vec<char> = Vec::new();
    let mut i: usize = 0;
    while i < n
        invariant
            n == s@.len(),
            i <= n,
            out@ == s@.subrange(0, i as int),
        decreases n - i,
    {
        let c = s.get_char(i);
        out.push(c);
        proof {
            assert(out@ =~= s@.subrange(0, i as int + 1));
        }
        i += 1;
    }
    proof {
        assert(out@ =~= s@);
    }
    out
}

/// The value of a hexadecimal digit.
fn hexd(c: char) -> (r: Option<u32>)
    ensures
        r == sp_hexd(c),
{
    if '0' <= c && c <= '9' {
        Some(c as u32 - '0' as u32)
    } else if 'a' <= c && c <= 'f' {
        Some(c as u32 - 'a' as u32 + 10)
    } else if 'A' <= c && c <= 'F' {
        Some(c as u32 - 'A' as u32 + 10)
    } else {
        None
    }
}

/// The value of the four hexadecimal digits at `i`.
fn hex4(s: &Vec<char>, i: usize) -> (r: Option<u32>)
    ensures
        r == sp_hex4(s@, i as int),
{
    if i <= s.len() && s.len() - i >= 4 {
        let a = match hexd(s[i]) {
            Some(v) => v,
            None => return None,
        };
        let b = match hexd(s[i + 1]) {
            Some(v) => v,
            None => return None,
        };
        let c = match hexd(s[i + 2]) {
            Some(v) => v,
            None => return None,
        };
        let d = match hexd(s[i + 3]) {
            Some(v) => v,
            None => return None,
        };
        Some(a * 0x1000 + b * 0x100 + c * 0x10 + d)
    } else {
        None
    }
}

/// Read a string body from index `i` (after the opening quote) into `acc`.
fn str_chars(s: &Vec<char>, i: usize, acc: String) -> (r: Option<(String, usize)>)
    ensures
        ({
            let sp = sp_str_chars(s@, i as int, acc@);
            match r {
                Some((cs, j)) => sp == Some((cs@, j as int)) && j <= s@.len(),
                None => sp is None,
            }
        }),
    decreases s@.len() - i, 1int,
{
    if i >= s.len() {
        None
    } else if s[i] == '"' {
        Some((acc, i + 1))
    } else if s[i] == '\\' {
        if i + 1 >= s.len() {
            None
        } else {
            let e = s[i + 1];
            let mut acc2 = acc;
            if e == '"' {
                push_char(&mut acc2, '"');
                str_chars(s, i + 2, acc2)
            } else if e == '\\' {
                push_char(&mut acc2, '\\');
                str_chars(s, i + 2, acc2)
            } else if e == '/' {
                push_char(&mut acc2, '/');
                str_chars(s, i + 2, acc2)
            } else if e == 'b' {
                push_char(&mut acc2, '\u{8}');
                str_chars(s, i + 2, acc2)
            } else if e == 'f' {
                push_char(&mut acc2, '\u{c}');
                str_chars(s, i + 2, acc2)
            } else if e == 'n' {
                push_char(&mut acc2, '\n');
                str_chars(s, i + 2, acc2)
            } else if e == 'r' {
                push_char(&mut acc2, '\r');
                str_chars(s, i + 2, acc2)
            } else if e == 't' {
                push_char(&mut acc2, '\t');
                str_chars(s, i + 2, acc2)
            } else if e == 'u' {
                unicode(s, i + 2, acc2)
            } else {
                None
            }
        }
    } else {
        let c = s[i];
        let mut acc2 = acc;
        push_char(&mut acc2, c);
        str_chars(s, i + 1, acc2)
    }
}

/// Read a `\u` escape whose four digits start at `i`, then the rest of the
/// string body.
fn unicode(s: &Vec<char>, i: usize, acc: String) -> (r: Option<(String, usize)>)
    ensures
        ({
            let sp = sp_unicode(s@, i as int, acc@);
            match r {
                Some((cs, j)) => sp == Some((cs@, j as int)) && j <= s@.len(),
                None => sp is None,
            }
        }),
    decreases s@.len() - i, 0int,
{
    let hi = match hex4(s, i) {
        Some(v) => v,
        None => return None,
    };
    if 0xD800 <= hi && hi < 0xDC00 {
        if i <= s.len() && s.len() - i >= 10 && s[i + 4] == '\\' && s[i + 5] == 'u' {
            let lo = match hex4(s, i + 6) {
                Some(v) => v,
                None => return None,
            };
            if 0xDC00 <= lo && lo < 0xE000 {
                let code: u32 = 0x10000 + (hi - 0xD800) * 0x400 + (lo - 0xDC00);
                let c = match char_from_u32(code) {
                    Some(c) => c,
                    None => {
                        proof {
                            assert(vstd::utf8::is_scalar(code));
                        }
                        return None;
                    },
                };
                proof {
                    vstd::utf8::char_u32_cast(c, code);
                }
                let mut acc2 = acc;
                push_char(&mut acc2, c);
                str_chars(s, i + 10, acc2)
            } else {
                None
            }
        } else {
            None
        }
    } else if 0xDC00 <= hi && hi < 0xE000 {
        None
    } else {
        let n = s.len();
        proof {
            assert(sp_hex4(s@, i as int) is Some);
            assert(i + 4 <= n);
        }
        let c = match char_from_u32(hi) {
            Some(c) => c,
            None => {
                proof {
                    assert(vstd::utf8::is_scalar(hi));
                }
                return None;
            },
        };
        proof {
            vstd::utf8::char_u32_cast(c, hi);
        }
        let mut acc2 = acc;
        push_char(&mut acc2, c);
        str_chars(s, i + 4, acc2)
    }
}

proof fn lemma_p10_pos(n: nat)
    ensures
        p10(n) >= 1,
    decreases n,
{
    if n > 0 {
        lemma_p10_pos((n - 1) as nat);
    }
}

proof fn lemma_p10_mono(a: nat, b: nat)
    requires
        a <= b,
    ensures
        p10(a) <= p10(b),
    decreases b,
{
    if a < b {
        lemma_p10_mono(a, (b - 1) as nat);
        lemma_p10_pos((b - 1) as nat);
    }
}

/// Powers of ten up to the digit cap stay within the 64-bit signed range.
proof fn lemma_p10_bound(n: nat)
    requires
        n <= 18,
    ensures
        1 <= p10(n) <= 1000000000000000000,
{
    lemma_p10_pos(n);
    lemma_p10_mono(n, 18);
    assert(p10(18) == 1000000000000000000) by {
        reveal_with_fuel(p10, 19);
    }
}

/// Read the digit run at `i`, given `acc` read over `cnt` digits already.
fn digits(s: &Vec<char>, i: usize, acc: i64, cnt: u32) -> (r: Option<(i64, usize)>)
    requires
        i <= s@.len(),
        0 <= acc < p10(cnt as nat),
        cnt <= 18,
    ensures
        ({
            let sp = sp_digits(s@, i as int, acc as int, cnt as nat);
            match r {
                Some((m, j)) => sp == Some((m as int, j as int)) && j <= s@.len() && 0 <= m,
                None => sp is None,
            }
        }),
    decreases s@.len() - i,
{
    if i < s.len() && '0' <= s[i] && s[i] <= '9' {
        if cnt >= 18 {
            None
        } else {
            let d: i64 = (s[i] as u32 - '0' as u32) as i64;
            proof {
                lemma_p10_bound(cnt as nat + 1);
                assert(p10(cnt as nat + 1) == 10 * p10(cnt as nat));
            }
            let acc2: i64 = acc * 10 + d;
            digits(s, i + 1, acc2, cnt + 1)
        }
    } else {
        if cnt == 0 {
            None
        } else {
            Some((acc, i))
        }
    }
}

/// Find the end of the digit run at `i`.
fn digits_end_from(s: &Vec<char>, i: usize) -> (r: usize)
    requires
        i <= s@.len(),
    ensures
        r == digits_end(s@, i as int),
        i <= r <= s@.len(),
    decreases s@.len() - i,
{
    if i < s.len() && '0' <= s[i] && s[i] <= '9' {
        digits_end_from(s, i + 1)
    } else {
        i
    }
}

/// Collect the characters of `s` between `from` and `to`.
fn span_string(s: &Vec<char>, from: usize, to: usize) -> (r: String)
    requires
        from <= to <= s@.len(),
    ensures
        r@ == s@.subrange(from as int, to as int),
{
    let mut out = String::new();
    proof {
        assert(out@ =~= s@.subrange(from as int, from as int));
    }
    let mut i: usize = from;
    while i < to
        invariant
            from <= i <= to <= s@.len(),
            out@ == s@.subrange(from as int, i as int),
        decreases to - i,
    {
        let c = s[i];
        push_char(&mut out, c);
        proof {
            assert(out@ =~= s@.subrange(from as int, i as int + 1));
        }
        i += 1;
    }
    out
}

/// Read the number at `i`.
fn number(s: &Vec<char>, i: usize) -> (r: Option<(Dyn, usize)>)
    requires
        i <= s@.len(),
    ensures
        ({
            let sp = sp_number(s@, i as int);
            match r {
                Some((v, j)) => sp == Some((v@, j as int)) && j <= s@.len(),
                None => sp is None,
            }
        }),
{
    if i < s.len() && s[i] == '-' {
        magnitude(s, i, i + 1, true)
    } else {
        magnitude(s, i, i, false)
    }
}

/// Read the number token starting at `start` whose digits start at `j0`.
fn magnitude(s: &Vec<char>, start: usize, j0: usize, neg: bool) -> (r: Option<(Dyn, usize)>)
    requires
        start <= j0 <= s@.len(),
    ensures
        ({
            let sp = sp_magnitude(s@, start as int, j0 as int, neg);
            match r {
                Some((v, j)) => sp == Some((v@, j as int)) && j <= s@.len(),
                None => sp is None,
            }
        }),
{
    let j1 = digits_end_from(s, j0);
    if j1 == j0 {
        return None;
    }
    let j2 = if j1 < s.len() && s[j1] == '.' {
        let k = digits_end_from(s, j1 + 1);
        if k == j1 + 1 {
            return None;
        }
        k
    } else {
        j1
    };
    let j3 = if j2 < s.len() && (s[j2] == 'e' || s[j2] == 'E') {
        let k0 = if j2 + 1 < s.len() && (s[j2 + 1] == '+' || s[j2 + 1] == '-') {
            j2 + 2
        } else {
            j2 + 1
        };
        let k = digits_end_from(s, k0);
        if k == k0 {
            return None;
        }
        k
    } else {
        j2
    };
    if j3 == j1 && j1 - j0 <= 18 {
        match digits(s, j0, 0, 0) {
            Some((m, j)) => Some((Dyn::Int(if neg { -m } else { m }), j)),
            None => None,
        }
    } else {
        Some((Dyn::Float(span_string(s, start, j3)), j3))
    }
}

/// Read the serialized value at `i`.
fn value(s: &Vec<char>, i: usize, fuel: u128) -> (r: Option<(Dyn, usize)>)
    ensures
        ({
            let sp = sp_value(s@, i as int, fuel as nat);
            match r {
                Some((v, j)) => sp == Some((v@, j as int)) && j <= s@.len(),
                None => sp is None,
            }
        }),
    decreases fuel as nat, 2int,
{
    if fuel == 0 || i >= s.len() {
        None
    } else {
        let c = s[i];
        if c == 'n' {
            if i <= s.len() && s.len() - i >= 4 && s[i + 1] == 'u' && s[i + 2] == 'l' && s[i + 3]
                == 'l' {
                Some((Dyn::Null, i + 4))
            } else {
                None
            }
        } else if c == 't' {
            if i <= s.len() && s.len() - i >= 4 && s[i + 1] == 'r' && s[i + 2] == 'u' && s[i + 3]
                == 'e' {
                Some((Dyn::Bool(true), i + 4))
            } else {
                None
            }
        } else if c == 'f' {
            if i <= s.len() && s.len() - i >= 5 && s[i + 1] == 'a' && s[i + 2] == 'l' && s[i + 3]
                == 's' && s[i + 4] == 'e' {
                Some((Dyn::Bool(false), i + 5))
            } else {
                None
            }
        } else if c == '"' {
            match str_chars(s, i + 1, String::new()) {
                Some((cs, j)) => Some((Dyn::Str(cs), j)),
                None => None,
            }
        } else if c == '-' || ('0' <= c && c <= '9') {
            number(s, i)
        } else if c == '[' {
            if i + 1 < s.len() && s[i + 1] == ']' {
                let out: Vec<Dyn> = Vec::new();
                proof {
                    assert(seq_view(out@) =~= Seq::<DynV>::empty());
                }
                Some((Dyn::Arr(out), i + 2))
            } else {
                let acc0: Vec<Dyn> = Vec::new();
                proof {
                    assert(seq_view(acc0@) =~= Seq::<DynV>::empty());
                }
                match arr_items(s, i + 1, acc0, fuel - 1) {
                    Some((xs, j)) => Some((Dyn::Arr(xs), j)),
                    None => None,
                }
            }
        } else if c == '{' {
            if i + 1 < s.len() && s[i + 1] == '}' {
                let out: Vec<(String, Dyn)> = Vec::new();
                proof {
                    assert(fields_view(out@) =~= Seq::<(Seq<char>, DynV)>::empty());
                }
                Some((Dyn::Obj(out), i + 2))
            } else {
                let acc0: Vec<(String, Dyn)> = Vec::new();
                proof {
                    assert(fields_view(acc0@) =~= Seq::<(Seq<char>, DynV)>::empty());
                }
                match obj_items(s, i + 1, acc0, fuel - 1) {
                    Some((fs, j)) => Some((Dyn::Obj(fs), j)),
                    None => None,
                }
            }
        } else {
            None
        }
    }
}

/// Read the elements of an array from `i` on, appended to `acc`.
fn arr_items(s: &Vec<char>, i: usize, acc: Vec<Dyn>, fuel: u128) -> (r: Option<(Vec<Dyn>, usize)>)
    ensures
        ({
            let sp = sp_arr_items(s@, i as int, seq_view(acc@), fuel as nat);
            match r {
                Some((xs, j)) => sp == Some((seq_view(xs@), j as int)) && j <= s@.len(),
                None => sp is None,
            }
        }),
    decreases fuel as nat, 1int,
{
    if fuel == 0 {
        None
    } else {
        match value(s, i, fuel - 1) {
            None => None,
            Some((v, j)) => {
                let ghost vv = v@;
                let ghost accv = acc@;
                if j < s.len() && s[j] == ',' {
                    let mut acc2 = acc;
                    acc2.push(v);
                    proof {
                        assert(seq_view(acc2@) =~= seq_view(accv).push(vv));
                    }
                    arr_items(s, j + 1, acc2, fuel - 1)
                } else if j < s.len() && s[j] == ']' {
                    let mut acc2 = acc;
                    acc2.push(v);
                    proof {
                        assert(seq_view(acc2@) =~= seq_view(accv).push(vv));
                    }
                    Some((acc2, j + 1))
                } else {
                    None
                }
            },
        }
    }
}

/// Read the fields of an object from `i` on, appended to `acc`.
fn obj_items(s: &Vec<char>, i: usize, acc: Vec<(String, Dyn)>, fuel: u128) -> (r: Option<
    (Vec<(String, Dyn)>, usize),
>)
    ensures
        ({
            let sp = sp_obj_items(s@, i as int, fields_view(acc@), fuel as nat);
            match r {
                Some((fs, j)) => sp == Some((fields_view(fs@), j as int)) && j <= s@.len(),
                None => sp is None,
            }
        }),
    decreases fuel as nat, 1int,
{
    if fuel == 0 {
        None
    } else if i >= s.len() || s[i] != '"' {
        None
    } else {
        match str_chars(s, i + 1, String::new()) {
            None => None,
            Some((k, j)) => {
                if j < s.len() && s[j] == ':' {
                    match value(s, j + 1, fuel - 1) {
                        None => None,
                        Some((v, j2)) => {
                            let ghost kv = k@;
                            let ghost vv = v@;
                            let ghost accv = acc@;
                            if j2 < s.len() && s[j2] == ',' {
                                let mut acc2 = acc;
                                acc2.push((k, v));
                                proof {
                                    assert(fields_view(acc2@) =~= fields_view(accv).push(
                                        (kv, vv),
                                    ));
                                }
                                obj_items(s, j2 + 1, acc2, fuel - 1)
                            } else if j2 < s.len() && s[j2] == '}' {
                                let mut acc2 = acc;
                                acc2.push((k, v));
                                proof {
                                    assert(fields_view(acc2@) =~= fields_view(accv).push(
                                        (kv, vv),
                                    ));
                                }
                                Some((acc2, j2 + 1))
                            } else {
                                None
                            }
                        },
                    }
                } else {
                    None
                }
            },
        }
    }
}

/// Read a whole serialized reply into a dynamic value.
pub fn parse_dyn(text: &str) -> (r: Result<Dyn, UnlatexError>)
    ensures
        rv(r) == parse_json(text@),
{
    let s = chars_vec(text);
    let fuel: u128 = 2 * (s.len() as u128) + 2;
    match value(&s, 0, fuel) {
        Some((v, j)) => {
            if j == s.len() {
                Ok(v)
            } else {
                Err(malformed_error())
            }
        },
        None => Err(malformed_error()),
    }
}

} // verus!
