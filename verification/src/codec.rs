//! The message codec: raw inbound text to typed requests, typed responses
//! back to raw text.
//!
//! The wire form is a tagged object with a `type` discriminator, string
//! keys and string values, in any key order, with JSON whitespace and JSON
//! string escapes. Anything else — wrong structure, an unknown tag, a
//! missing, duplicated or extra field — decodes to `None`, which the state
//! machine turns into an `InvalidRequest` response; malformed input never
//! fails the connection.
//!
//! The accepted grammar is written out below as spec functions over the
//! character sequence ([`decode_spec`]), and the printed form likewise
//! ([`encode_spec`]); the executable codec returns exactly what they say.

use vstd::prelude::*;

use vstd::string::StrSliceExecFns;
use vstd::utf8::is_scalar;

use crate::session::Message;
use crate::session::MessageV;
use crate::session::Response;
use crate::session::ResponseV;

verus! {

broadcast use vstd::utf8::char_u32_cast;

/// JSON whitespace.
pub open spec fn is_ws(c: char) -> bool {
    c == ' ' || c == '\t' || c == '\n' || c == '\r'
}

/// The first index at or after `i` holding no whitespace.
pub open spec fn ws_end(s: Seq<char>, i: int) -> int
    decreases s.len() - i,
{
    if i < s.len() && is_ws(s[i]) {
        ws_end(s, i + 1)
    } else {
        i
    }
}

/// The value of a hexadecimal digit, `None` for any other character.
pub open spec fn hex_val(c: char) -> Option<u32> {
    let v = c as u32;
    if 48 <= v && v <= 57 {
        Some((v - 48) as u32)
    } else if 97 <= v && v <= 102 {
        Some((v - 87) as u32)
    } else if 65 <= v && v <= 70 {
        Some((v - 55) as u32)
    } else {
        None
    }
}

/// The character a one-letter JSON escape stands for, `None` for any other
/// letter (`\u` is handled separately).
pub open spec fn simple_escape(c: char) -> Option<char> {
    if c == '"' {
        Some('"')
    } else if c == '\\' {
        Some('\\')
    } else if c == '/' {
        Some('/')
    } else if c == 'b' {
        Some('\u{8}')
    } else if c == 'f' {
        Some('\u{c}')
    } else if c == 'n' {
        Some('\n')
    } else if c == 'r' {
        Some('\r')
    } else if c == 't' {
        Some('\t')
    } else {
        None
    }
}

/// The code point of four hexadecimal digits starting at `i`, `None` when
/// they are not there.
pub open spec fn hex4_val(s: Seq<char>, i: int) -> Option<u32> {
    if i + 4 <= s.len() {
        match (hex_val(s[i]), hex_val(s[i + 1]), hex_val(s[i + 2]), hex_val(s[i + 3])) {
            (Some(a), Some(b), Some(c), Some(d)) => Some(
                (a * 4096 + b * 256 + c * 16 + d) as u32,
            ),
            _ => None,
        }
    } else {
        None
    }
}

/// The body of a JSON string starting at `i` (just after the opening
/// quote): the unescaped content and the index after the closing quote.
/// Unescaped control characters and surrogate `\u` escapes are refused.
pub open spec fn str_body(s: Seq<char>, i: int) -> Option<(Seq<char>, int)>
    decreases s.len() - i,
{
    if i < s.len() {
        let c = s[i];
        if c == '"' {
            Some((Seq::empty(), i + 1))
        } else if c == '\\' {
            if i + 1 < s.len() && s[i + 1] == 'u' {
                match hex4_val(s, i + 2) {
                    Some(v) => if is_scalar(v) {
                        match str_body(s, i + 6) {
                            Some(p) => Some((seq![(v as char)] + p.0, p.1)),
                            None => None,
                        }
                    } else {
                        None
                    },
                    None => None,
                }
            } else if i + 1 < s.len() && simple_escape(s[i + 1]) is Some {
                match str_body(s, i + 2) {
                    Some(p) => Some((seq![simple_escape(s[i + 1])->Some_0] + p.0, p.1)),
                    None => None,
                }
            } else {
                None
            }
        } else if (c as u32) < 0x20 {
            None
        } else {
            match str_body(s, i + 1) {
                Some(p) => Some((seq![c] + p.0, p.1)),
                None => None,
            }
        }
    } else {
        None
    }
}

/// One `"key" : "value"` member starting at `i`: the key, the value and the
/// index after the value's closing quote.
pub open spec fn member_at(s: Seq<char>, i: int) -> Option<(Seq<char>, Seq<char>, int)> {
    if i < s.len() && s[i] == '"' {
        match str_body(s, i + 1) {
            Some(kp) => {
                let j = ws_end(s, kp.1);
                if j < s.len() && s[j] == ':' {
                    let j2 = ws_end(s, j + 1);
                    if j2 < s.len() && s[j2] == '"' {
                        match str_body(s, j2 + 1) {
                            Some(vp) => Some((kp.0, vp.0, vp.1)),
                            None => None,
                        }
                    } else {
                        None
                    }
                } else {
                    None
                }
            },
            None => None,
        }
    } else {
        None
    }
}

/// A whole object starting at `i`: its members in order and the index after
/// the closing brace. The accepted requests have at most three members, so
/// a fourth is refused here — it could only be an unknown or duplicated
/// field.
pub open spec fn obj_at(s: Seq<char>, i: int) -> Option<(Seq<(Seq<char>, Seq<char>)>, int)> {
    if i < s.len() && s[i] == '{' {
        let j = ws_end(s, i + 1);
        if j < s.len() && s[j] == '}' {
            Some((Seq::empty(), j + 1))
        } else {
            match member_at(s, j) {
                Some((k1, v1, e1)) => {
                    let j1 = ws_end(s, e1);
                    if j1 < s.len() && s[j1] == '}' {
                        Some((seq![(k1, v1)], j1 + 1))
                    } else if j1 < s.len() && s[j1] == ',' {
                        match member_at(s, ws_end(s, j1 + 1)) {
                            Some((k2, v2, e2)) => {
                                let j2 = ws_end(s, e2);
                                if j2 < s.len() && s[j2] == '}' {
                                    Some((seq![(k1, v1), (k2, v2)], j2 + 1))
                                } else if j2 < s.len() && s[j2] == ',' {
                                    match member_at(s, ws_end(s, j2 + 1)) {
                                        Some((k3, v3, e3)) => {
                                            let j3 = ws_end(s, e3);
                                            if j3 < s.len() && s[j3] == '}' {
                                                Some(
                                                    (seq![(k1, v1), (k2, v2), (k3, v3)], j3 + 1),
                                                )
                                            } else {
                                                None
                                            }
                                        },
                                        None => None,
                                    }
                                } else {
                                    None
                                }
                            },
                            None => None,
                        }
                    } else {
                        None
                    }
                },
                None => None,
            }
        }
    } else {
        None
    }
}

/// First-match lookup of key `k` among the members from index `i` on.
pub open spec fn lookup_from(ps: Seq<(Seq<char>, Seq<char>)>, i: int, k: Seq<char>) -> Option<
    Seq<char>,
>
    decreases ps.len() - i,
{
    if 0 <= i < ps.len() {
        if ps[i].0 == k {
            Some(ps[i].1)
        } else {
            lookup_from(ps, i + 1, k)
        }
    } else {
        None
    }
}

/// No two members share a key.
pub open spec fn keys_unique(ps: Seq<(Seq<char>, Seq<char>)>) -> bool {
    forall|a: int, b: int| #![auto] 0 <= a < b < ps.len() ==> ps[a].0 != ps[b].0
}

/// The typed request an object's members stand for: dispatch on the `type`
/// member, demand exactly the fields of that shape — no duplicate, missing,
/// or extra field — and accept nothing else.
pub open spec fn interp(ps: Seq<(Seq<char>, Seq<char>)>) -> Option<MessageV> {
    if !keys_unique(ps) {
        None
    } else {
        match lookup_from(ps, 0, "type"@) {
            Some(t) => if t == "Login"@ {
                if ps.len() == 3 {
                    match (lookup_from(ps, 0, "username"@), lookup_from(ps, 0, "password"@)) {
                        (Some(u), Some(p)) => Some(MessageV::Login { username: u, password: p }),
                        _ => None,
                    }
                } else {
                    None
                }
            } else if t == "Logout"@ {
                if ps.len() == 1 {
                    Some(MessageV::Logout)
                } else {
                    None
                }
            } else if t == "RefreshToken"@ {
                if ps.len() == 2 {
                    match lookup_from(ps, 0, "token"@) {
                        Some(tk) => Some(MessageV::RefreshToken { token: tk }),
                        None => None,
                    }
                } else {
                    None
                }
            } else {
                None
            },
            None => None,
        }
    }
}

/// What a whole inbound frame decodes to: one object, surrounded by nothing
/// but whitespace, interpreted as a typed request.
pub open spec fn decode_spec(s: Seq<char>) -> Option<MessageV> {
    match obj_at(s, ws_end(s, 0)) {
        Some((ps, j)) => if ws_end(s, j) == s.len() {
            interp(ps)
        } else {
            None
        },
        None => None,
    }
}

/// Relies on String::push: appends exactly the one character.
#[verifier::external_body]
fn push_char(out: &mut String, c: char)
    ensures
        final(out)@ == old(out)@.push(c),
{
    out.push(c);
}

/// Relies on char::from_u32: `Some` holding the character with that code
/// exactly for non-surrogate values up to 0x10FFFF, which is what
/// `is_scalar` admits.
#[verifier::external_body]
fn char_from_code(v: u32) -> (c: char)
    requires
        is_scalar(v),
    ensures
        c as u32 == v,
{
    char::from_u32(v).unwrap()
}

/// The characters of `s`, one by one.
fn to_chars(s: &str) -> (v: Vec<char>)
    ensures
        v@ == s@,
{
    let n = s.unicode_len();
    let mut v: Vec<char> = Vec::new();
    let mut i: usize = 0;
    while i < n
        invariant
            n == s@.len(),
            i <= n,
            v@ == s@.take(i as int),
        decreases n - i,
    {
        let c = s.get_char(i);
        v.push(c);
        i += 1;
        proof {
            assert(s@.take(i as int) =~= s@.take(i - 1).push(s@[i - 1]));
        }
    }
    proof {
        assert(s@.take(n as int) =~= s@);
    }
    v
}

/// The first index at or after `i` holding no whitespace.
fn skip_ws(s: &Vec<char>, i: usize) -> (r: usize)
    requires
        i <= s@.len(),
    ensures
        r == ws_end(s@, i as int),
        i <= r <= s@.len(),
{
    let mut j = i;
    while j < s.len() && (s[j] == ' ' || s[j] == '\t' || s[j] == '\n' || s[j] == '\r')
        invariant
            i <= j <= s@.len(),
            ws_end(s@, i as int) == ws_end(s@, j as int),
        decreases s@.len() - j,
    {
        j += 1;
    }
    j
}

/// The value of a hexadecimal digit.
fn hex_digit(c: char) -> (r: Option<u32>)
    ensures
        r == hex_val(c),
{
    let v = c as u32;
    if 48 <= v && v <= 57 {
        Some(v - 48)
    } else if 97 <= v && v <= 102 {
        Some(v - 87)
    } else if 65 <= v && v <= 70 {
        Some(v - 55)
    } else {
        None
    }
}

/// The character a one-letter JSON escape stands for.
fn simple_unescape(c: char) -> (r: Option<char>)
    ensures
        r == simple_escape(c),
{
    if c == '"' {
        Some('"')
    } else if c == '\\' {
        Some('\\')
    } else if c == '/' {
        Some('/')
    } else if c == 'b' {
        Some('\u{8}')
    } else if c == 'f' {
        Some('\u{c}')
    } else if c == 'n' {
        Some('\n')
    } else if c == 'r' {
        Some('\r')
    } else if c == 't' {
        Some('\t')
    } else {
        None
    }
}

/// Parse a string body starting at `i` (just after the opening quote),
/// appending the unescaped content to `out`; the result is the index after
/// the closing quote.
#[verifier::rlimit(60)]
fn parse_str_body(s: &Vec<char>, i: usize, out: &mut String) -> (r: Option<usize>)
    requires
        i <= s@.len(),
    ensures
        match r {
            Some(j) => str_body(s@, i as int) matches Some(p) && final(out)@ == old(out)@ + p.0
                && j == p.1 && i < j <= s@.len(),
            None => str_body(s@, i as int) is None,
        },
    decreases s@.len() - i,
{
    if i >= s.len() {
        return None;
    }
    let c = s[i];
    if c == '"' {
        proof {
            assert(out@ =~= out@ + Seq::<char>::empty());
        }
        return Some(i + 1);
    }
    if c == '\\' {
        if i + 1 < s.len() && s[i + 1] == 'u' {
            if s.len() - i < 6 {
                return None;
            }
            let a = match hex_digit(s[i + 2]) {
                Some(x) => x,
                None => return None,
            };
            let b = match hex_digit(s[i + 3]) {
                Some(x) => x,
                None => return None,
            };
            let c2 = match hex_digit(s[i + 4]) {
                Some(x) => x,
                None => return None,
            };
            let d = match hex_digit(s[i + 5]) {
                Some(x) => x,
                None => return None,
            };
            let v = a * 4096 + b * 256 + c2 * 16 + d;
            if !(v < 0xD800 || 0xE000 <= v) {
                proof {
                    assert(!is_scalar(v));
                }
                return None;
            }
            proof {
                assert(is_scalar(v));
            }
            let uc = char_from_code(v);
            push_char(out, uc);
            match parse_str_body(s, i + 6, out) {
                Some(j) => {
                    proof {
                        let p = str_body(s@, (i + 6) as int)->Some_0;
                        assert(out@ =~= old(out)@ + (seq![(v as char)] + p.0));
                    }
                    Some(j)
                },
                None => None,
            }
        } else if i + 1 < s.len() {
            match simple_unescape(s[i + 1]) {
                Some(uc) => {
                    push_char(out, uc);
                    match parse_str_body(s, i + 2, out) {
                        Some(j) => {
                            proof {
                                let p = str_body(s@, (i + 2) as int)->Some_0;
                                assert(out@ =~= old(out)@ + (seq![uc] + p.0));
                            }
                            Some(j)
                        },
                        None => None,
                    }
                },
                None => None,
            }
        } else {
            None
        }
    } else {
        let cu = c as u32;
        if cu < 0x20 {
            return None;
        }
        push_char(out, c);
        match parse_str_body(s, i + 1, out) {
            Some(j) => {
                proof {
                    let p = str_body(s@, (i + 1) as int)->Some_0;
                    assert(out@ =~= old(out)@ + (seq![c] + p.0));
                }
                Some(j)
            },
            None => None,
        }
    }
}

/// Parse one `"key" : "value"` member starting at `i`.
fn parse_member(s: &Vec<char>, i: usize) -> (r: Option<(String, String, usize)>)
    requires
        i <= s@.len(),
    ensures
        match r {
            Some(kvj) => member_at(s@, i as int) == Some((kvj.0@, kvj.1@, kvj.2 as int)) && i
                < kvj.2 <= s@.len(),
            None => member_at(s@, i as int) is None,
        },
{
    if i >= s.len() || s[i] != '"' {
        return None;
    }
    let mut key = String::new();
    let j = match parse_str_body(s, i + 1, &mut key) {
        Some(j) => j,
        None => return None,
    };
    let j2 = skip_ws(s, j);
    if j2 >= s.len() || s[j2] != ':' {
        return None;
    }
    let j3 = skip_ws(s, j2 + 1);
    if j3 >= s.len() || s[j3] != '"' {
        return None;
    }
    let mut val = String::new();
    let j4 = match parse_str_body(s, j3 + 1, &mut val) {
        Some(j) => j,
        None => return None,
    };
    proof {
        let kp = str_body(s@, (i + 1) as int)->Some_0;
        let vp = str_body(s@, (j3 + 1) as int)->Some_0;
        assert(key@ =~= kp.0);
        assert(val@ =~= vp.0);
    }
    Some((key, val, j4))
}

/// The members as the spec sees them.
pub open spec fn pairs_view(ps: Seq<(String, String)>) -> Seq<(Seq<char>, Seq<char>)> {
    Seq::new(ps.len(), |i: int| (ps[i].0@, ps[i].1@))
}

/// First-match lookup of `key` among the members from index `i` on.
fn lookup_pair_from(ps: &Vec<(String, String)>, i: usize, key: &String) -> (r: Option<String>)
    requires
        i <= ps@.len(),
    ensures
        match r {
            Some(v) => lookup_from(pairs_view(ps@), i as int, key@) == Some(v@),
            None => lookup_from(pairs_view(ps@), i as int, key@) is None,
        },
    decreases ps@.len() - i,
{
    if i >= ps.len() {
        return None;
    }
    if ps[i].0 == *key {
        Some(ps[i].1.clone())
    } else {
        lookup_pair_from(ps, i + 1, key)
    }
}

/// Interpret at most three members as a typed request.
fn interp_members(ps: &Vec<(String, String)>) -> (r: Option<Message>)
    requires
        ps@.len() <= 3,
    ensures
        match r {
            Some(m) => interp(pairs_view(ps@)) == Some(m@),
            None => interp(pairs_view(ps@)) is None,
        },
{
    let n = ps.len();
    let d01 = if n >= 2 {
        ps[0].0 == ps[1].0
    } else {
        false
    };
    let d02 = if n >= 3 {
        ps[0].0 == ps[2].0
    } else {
        false
    };
    let d12 = if n >= 3 {
        ps[1].0 == ps[2].0
    } else {
        false
    };
    let unique = !(d01 || d02 || d12);
    proof {
        let psv = pairs_view(ps@);
        assert forall|a: int, b: int| 0 <= a < b < psv.len() && unique implies psv[a].0
            != psv[b].0 by {
            assert(psv[a].0 == ps@[a].0@);
            assert(psv[b].0 == ps@[b].0@);
        }
        if unique {
            assert(keys_unique(psv));
        }
        if d01 {
            assert(psv[0].0 == psv[1].0);
            assert(!keys_unique(psv));
        }
        if d02 {
            assert(psv[0].0 == psv[2].0);
            assert(!keys_unique(psv));
        }
        if d12 {
            assert(psv[1].0 == psv[2].0);
            assert(!keys_unique(psv));
        }
    }
    if !unique {
        return None;
    }
    let tkey = "type".to_owned();
    let t = match lookup_pair_from(ps, 0, &tkey) {
        Some(t) => t,
        None => return None,
    };
    if t == "Login".to_owned() {
        if ps.len() == 3 {
            let ukey = "username".to_owned();
            let pkey = "password".to_owned();
            match (lookup_pair_from(ps, 0, &ukey), lookup_pair_from(ps, 0, &pkey)) {
                (Some(u), Some(p)) => Some(Message::Login { username: u, password: p }),
                _ => None,
            }
        } else {
            None
        }
    } else if t == "Logout".to_owned() {
        if ps.len() == 1 {
            Some(Message::Logout)
        } else {
            None
        }
    } else if t == "RefreshToken".to_owned() {
        if ps.len() == 2 {
            let kkey = "token".to_owned();
            match lookup_pair_from(ps, 0, &kkey) {
                Some(tk) => Some(Message::RefreshToken { token: tk }),
                None => None,
            }
        } else {
            None
        }
    } else {
        None
    }
}

/// Decode one raw inbound frame into a typed request: exactly what
/// [`decode_spec`] accepts, and `None` on everything else.
pub fn decode_message(input: &str) -> (r: Option<Message>)
    ensures
        match r {
            Some(m) => decode_spec(input@) == Some(m@),
            None => decode_spec(input@) is None,
        },
{
    let s = to_chars(input);
    let i = skip_ws(&s, 0);
    if i >= s.len() || s[i] != '{' {
        return None;
    }
    let j = skip_ws(&s, i + 1);
    let mut pairs: Vec<(String, String)> = Vec::new();
    let end: usize;
    if j < s.len() && s[j] == '}' {
        end = j + 1;
    } else {
        let (k1, v1, e1) = match parse_member(&s, j) {
            Some(m) => m,
            None => return None,
        };
        pairs.push((k1, v1));
        let j1 = skip_ws(&s, e1);
        if j1 < s.len() && s[j1] == '}' {
            end = j1 + 1;
        } else if j1 < s.len() && s[j1] == ',' {
            let (k2, v2, e2) = match parse_member(&s, skip_ws(&s, j1 + 1)) {
                Some(m) => m,
                None => return None,
            };
            pairs.push((k2, v2));
            let j2 = skip_ws(&s, e2);
            if j2 < s.len() && s[j2] == '}' {
                end = j2 + 1;
            } else if j2 < s.len() && s[j2] == ',' {
                let (k3, v3, e3) = match parse_member(&s, skip_ws(&s, j2 + 1)) {
                    Some(m) => m,
                    None => return None,
                };
                pairs.push((k3, v3));
                let j3 = skip_ws(&s, e3);
                if j3 < s.len() && s[j3] == '}' {
                    end = j3 + 1;
                } else {
                    return None;
                }
            } else {
                return None;
            }
        } else {
            return None;
        }
    }
    proof {
        assert(obj_at(s@, i as int) matches Some(op) && op.0 == pairs_view(pairs@) && op.1 == end
            as int) by {
            assert(pairs_view(pairs@) =~= obj_at(s@, i as int)->Some_0.0);
        }
    }
    let tail = skip_ws(&s, end);
    if tail != s.len() {
        return None;
    }
    interp_members(&pairs)
}

/// The decimal digits of `n`, most significant first.
pub open spec fn dec_digits(n: u64) -> Seq<char>
    decreases n,
{
    if n < 10 {
        seq![digit_char(n)]
    } else {
        dec_digits(n / 10).push(digit_char(n % 10))
    }
}

/// The character of one decimal digit.
pub open spec fn digit_char(d: u64) -> char {
    if d == 0 {
        '0'
    } else if d == 1 {
        '1'
    } else if d == 2 {
        '2'
    } else if d == 3 {
        '3'
    } else if d == 4 {
        '4'
    } else if d == 5 {
        '5'
    } else if d == 6 {
        '6'
    } else if d == 7 {
        '7'
    } else if d == 8 {
        '8'
    } else {
        '9'
    }
}

/// The character of one hexadecimal digit, lower case.
pub open spec fn hex_char(d: u32) -> char {
    if d < 10 {
        digit_char(d as u64)
    } else if d == 10 {
        'a'
    } else if d == 11 {
        'b'
    } else if d == 12 {
        'c'
    } else if d == 13 {
        'd'
    } else if d == 14 {
        'e'
    } else {
        'f'
    }
}

/// How one character is written inside a JSON string: itself, a one-letter
/// escape, or a `\u00..` escape for the remaining control characters.
pub open spec fn esc_char(c: char) -> Seq<char> {
    if c == '"' {
        seq!['\\', '"']
    } else if c == '\\' {
        seq!['\\', '\\']
    } else if c == '\n' {
        seq!['\\', 'n']
    } else if c == '\r' {
        seq!['\\', 'r']
    } else if c == '\t' {
        seq!['\\', 't']
    } else if (c as u32) < 0x20 {
        seq!['\\', 'u', '0', '0', hex_char((c as u32) / 16), hex_char((c as u32) % 16)]
    } else {
        seq![c]
    }
}

/// The JSON-escaped writing of the characters from `i` on.
pub open spec fn esc_from(s: Seq<char>, i: int) -> Seq<char>
    decreases s.len() - i,
{
    if i < s.len() {
        esc_char(s[i]) + esc_from(s, i + 1)
    } else {
        Seq::empty()
    }
}

/// The whole escaped writing of a string.
pub open spec fn esc(s: Seq<char>) -> Seq<char> {
    esc_from(s, 0)
}

/// The wire text of a typed response: a tagged object mirroring the decode
/// vocabulary, with `token` and `expires_at` payloads on the success
/// shapes.
pub open spec fn encode_spec(r: ResponseV) -> Seq<char> {
    match r {
        ResponseV::InvalidRequest => "{\"type\":\"InvalidRequest\"}"@,
        ResponseV::InvalidToken => "{\"type\":\"InvalidToken\"}"@,
        ResponseV::InvalidPassword => "{\"type\":\"InvalidPassword\"}"@,
        ResponseV::LoggedOut => "{\"type\":\"LoggedOut\"}"@,
        ResponseV::NotLoggedIn => "{\"type\":\"NotLoggedIn\"}"@,
        ResponseV::Success { token, expires_at } => "{\"type\":\"Success\",\"token\":\""@ + esc(
            token,
        ) + "\",\"expires_at\":"@ + dec_digits(expires_at) + "}"@,
        ResponseV::Registered { token, expires_at } => "{\"type\":\"Registered\",\"token\":\""@
            + esc(token) + "\",\"expires_at\":"@ + dec_digits(expires_at) + "}"@,
        ResponseV::AlreadyAuthorized { username } => "{\"type\":\"AlreadyAuthorized\",\"username\":\""@
            + esc(username) + "\"}"@,
    }
}

/// Append the escaped writing of the characters of `s` from `i` on.
fn esc_push(out: &mut String, s: &Vec<char>, i: usize)
    requires
        i <= s@.len(),
    ensures
        final(out)@ == old(out)@ + esc_from(s@, i as int),
    decreases s@.len() - i,
{
    if i >= s.len() {
        proof {
            assert(out@ =~= out@ + Seq::<char>::empty());
        }
        return ;
    }
    let c = s[i];
    let cu = c as u32;
    if c == '"' {
        push_char(out, '\\');
        push_char(out, '"');
    } else if c == '\\' {
        push_char(out, '\\');
        push_char(out, '\\');
    } else if c == '\n' {
        push_char(out, '\\');
        push_char(out, 'n');
    } else if c == '\r' {
        push_char(out, '\\');
        push_char(out, 'r');
    } else if c == '\t' {
        push_char(out, '\\');
        push_char(out, 't');
    } else if cu < 0x20 {
        push_char(out, '\\');
        push_char(out, 'u');
        push_char(out, '0');
        push_char(out, '0');
        push_char(out, hex_digit_char(cu / 16));
        push_char(out, hex_digit_char(cu % 16));
    } else {
        push_char(out, c);
    }
    proof {
        assert(out@ =~= old(out)@ + esc_char(c));
    }
    esc_push(out, s, i + 1);
    proof {
        assert(out@ =~= old(out)@ + (esc_char(c) + esc_from(s@, i + 1)));
    }
}

/// The character of one hexadecimal digit, lower case.
fn hex_digit_char(d: u32) -> (r: char)
    ensures
        r == hex_char(d),
{
    if d == 0 {
        '0'
    } else if d == 1 {
        '1'
    } else if d == 2 {
        '2'
    } else if d == 3 {
        '3'
    } else if d == 4 {
        '4'
    } else if d == 5 {
        '5'
    } else if d == 6 {
        '6'
    } else if d == 7 {
        '7'
    } else if d == 8 {
        '8'
    } else if d == 9 {
        '9'
    } else if d == 10 {
        'a'
    } else if d == 11 {
        'b'
    } else if d == 12 {
        'c'
    } else if d == 13 {
        'd'
    } else if d == 14 {
        'e'
    } else {
        'f'
    }
}

/// Append the decimal digits of `n`, most significant first.
fn push_u64(out: &mut String, n: u64)
    ensures
        final(out)@ == old(out)@ + dec_digits(n),
    decreases n,
{
    if n < 10 {
        push_char(out, digit_char_exec(n));
        proof {
            assert(out@ =~= old(out)@ + dec_digits(n));
        }
    } else {
        push_u64(out, n / 10);
        push_char(out, digit_char_exec(n % 10));
        proof {
            assert(out@ =~= old(out)@ + dec_digits(n));
        }
    }
}

/// The character of one decimal digit.
fn digit_char_exec(d: u64) -> (r: char)
    ensures
        r == digit_char(d),
{
    if d == 0 {
        '0'
    } else if d == 1 {
        '1'
    } else if d == 2 {
        '2'
    } else if d == 3 {
        '3'
    } else if d == 4 {
        '4'
    } else if d == 5 {
        '5'
    } else if d == 6 {
        '6'
    } else if d == 7 {
        '7'
    } else if d == 8 {
        '8'
    } else {
        '9'
    }
}

/// Encode a typed response as wire text: exactly [`encode_spec`].
pub fn encode_response(r: &Response) -> (out: String)
    ensures
        out@ == encode_spec(r@),
{
    match r {
        Response::InvalidRequest => "{\"type\":\"InvalidRequest\"}".to_owned(),
        Response::InvalidToken => "{\"type\":\"InvalidToken\"}".to_owned(),
        Response::InvalidPassword => "{\"type\":\"InvalidPassword\"}".to_owned(),
        Response::LoggedOut => "{\"type\":\"LoggedOut\"}".to_owned(),
        Response::NotLoggedIn => "{\"type\":\"NotLoggedIn\"}".to_owned(),
        Response::Success(s) => {
            let mut out = "{\"type\":\"Success\",\"token\":\"".to_owned();
            let tok = to_chars(s.token.as_str());
            esc_push(&mut out, &tok, 0);
            out.append("\",\"expires_at\":");
            push_u64(&mut out, s.expires_at);
            out.append("}");
            proof {
                assert(out@ =~= encode_spec(r@));
            }
            out
        },
        Response::Registered(s) => {
            let mut out = "{\"type\":\"Registered\",\"token\":\"".to_owned();
            let tok = to_chars(s.token.as_str());
            esc_push(&mut out, &tok, 0);
            out.append("\",\"expires_at\":");
            push_u64(&mut out, s.expires_at);
            out.append("}");
            proof {
                assert(out@ =~= encode_spec(r@));
            }
            out
        },
        Response::AlreadyAuthorized { username } => {
            let mut out = "{\"type\":\"AlreadyAuthorized\",\"username\":\"".to_owned();
            let name = to_chars(username.as_str());
            esc_push(&mut out, &name, 0);
            out.append("\"}");
            proof {
                assert(out@ =~= encode_spec(r@));
            }
            out
        },
    }
}

} // verus!
