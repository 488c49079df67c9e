//! Verified emission of the fixed JSON response bodies.
//!
//! The service surface is three fixed JSON object shapes. The emitters here
//! produce the exact body text for each payload type, with string contents
//! escaped as the JSON grammar requires: `"` and `\` get a backslash escape,
//! control characters become a `\u00` hexadecimal escape, and every other
//! character stands for itself.

use vstd::prelude::*;
use vstd::string::*;
use crate::responses::{Health, Message, UsersResponse};

verus! {

/// The lower-case hexadecimal digit for a value below sixteen.
pub open spec fn hex_digit(d: u32) -> char {
    if d == 0 { '0' } else if d == 1 { '1' } else if d == 2 { '2' } else if d == 3 { '3' }
    else if d == 4 { '4' } else if d == 5 { '5' } else if d == 6 { '6' } else if d == 7 { '7' }
    else if d == 8 { '8' } else if d == 9 { '9' } else if d == 10 { 'a' } else if d == 11 { 'b' }
    else if d == 12 { 'c' } else if d == 13 { 'd' } else if d == 14 { 'e' } else { 'f' }
}

/// How a single character appears inside a JSON string literal.
pub open spec fn escape_char(c: char) -> Seq<char> {
    if c == '"' {
        seq!['\\', '"']
    } else if c == '\\' {
        seq!['\\', '\\']
    } else if (c as u32) < 32 {
        seq!['\\', 'u', '0', '0', hex_digit(c as u32 / 16), hex_digit(c as u32 % 16)]
    } else {
        seq![c]
    }
}

/// The body of a JSON string literal holding the characters of `s`.
pub open spec fn json_escaped(s: Seq<char>) -> Seq<char>
    decreases s.len(),
{
    if s.len() == 0 {
        Seq::empty()
    } else {
        json_escaped(s.drop_last()) + escape_char(s.last())
    }
}

/// Whether a character stands for itself inside a JSON string literal.
pub open spec fn unescaped_char(c: char) -> bool {
    c != '"' && c != '\\' && c as u32 >= 32
}

/// Law: escaping a string whose characters all stand for themselves leaves
/// it unchanged.
pub proof fn lemma_escape_identity(s: Seq<char>)
    requires
        forall|i: int| 0 <= i < s.len() ==> unescaped_char(#[trigger] s[i]),
    ensures
        json_escaped(s) == s,
    decreases s.len(),
{
    if s.len() == 0 {
        assert(json_escaped(s) =~= s);
    } else {
        lemma_escape_identity(s.drop_last());
        assert(escape_char(s.last()) =~= seq![s.last()]);
        assert(json_escaped(s) =~= s);
    }
}

/// Relies on String::push: appends the given character to the end.
#[verifier::external_body]
fn push_char(out: &mut String, c: char)
    ensures
        final(out)@ == old(out)@.push(c),
{
    out.push(c)
}

/// The lower-case hexadecimal digit for a value below sixteen.
fn hex_digit_exec(d: u32) -> (c: char)
    requires
        d < 16,
    ensures
        c == hex_digit(d),
{
    if d == 0 { '0' } else if d == 1 { '1' } else if d == 2 { '2' } else if d == 3 { '3' }
    else if d == 4 { '4' } else if d == 5 { '5' } else if d == 6 { '6' } else if d == 7 { '7' }
    else if d == 8 { '8' } else if d == 9 { '9' } else if d == 10 { 'a' } else if d == 11 { 'b' }
    else if d == 12 { 'c' } else if d == 13 { 'd' } else if d == 14 { 'e' } else { 'f' }
}

/// Escapes the characters of `s` for use inside a JSON string literal.
pub fn escape_json(s: &str) -> (r: String)
    ensures
        r@ == json_escaped(s@),
{
    let n = s.unicode_len();
    let mut out = String::new();
    let mut i: usize = 0;
    while i < n
        invariant
            n == s@.len(),
            i <= n,
            out@ == json_escaped(s@.subrange(0, i as int)),
        decreases n - i,
    {
        let c = s.get_char(i);
        proof {
            assert(s@.subrange(0, i + 1).drop_last() =~= s@.subrange(0, i as int));
            assert(s@.subrange(0, i + 1).last() == c);
        }
        if c == '"' {
            out.append("\\\"");
            proof {
                reveal_strlit("\\\"");
                assert("\\\""@ =~= escape_char(c));
            }
        } else if c == '\\' {
            out.append("\\\\");
            proof {
                reveal_strlit("\\\\");
                assert("\\\\"@ =~= escape_char(c));
            }
        } else if (c as u32) < 32 {
            out.append("\\u00");
            let hi = hex_digit_exec(c as u32 / 16);
            let lo = hex_digit_exec(c as u32 % 16);
            push_char(&mut out, hi);
            push_char(&mut out, lo);
            proof {
                reveal_strlit("\\u00");
                assert("\\u00"@.push(hi).push(lo) =~= escape_char(c));
            }
        } else {
            push_char(&mut out, c);
            proof {
                assert(Seq::<char>::empty().push(c) =~= escape_char(c));
            }
        }
        i = i + 1;
        proof {
            assert(out@ =~= json_escaped(s@.subrange(0, i as int)));
        }
    }
    proof {
        assert(s@.subrange(0, n as int) =~= s@);
    }
    out
}

/// The JSON body of the greeting payload.
pub open spec fn message_body(msg: Seq<char>) -> Seq<char> {
    "{\"message\":\""@ + json_escaped(msg) + "\"}"@
}

/// The JSON body of the health payload.
pub open spec fn health_body(status: Seq<char>, timestamp: Seq<char>) -> Seq<char> {
    "{\"status\":\""@ + json_escaped(status) + "\",\"timestamp\":\""@ + json_escaped(timestamp)
        + "\"}"@
}

/// The JSON body of the user listing payload while the store has no write
/// path: the listing is empty, so the array holds no elements.
pub open spec fn users_body() -> Seq<char> {
    "{\"users\":[]}"@
}

/// Serializes the greeting payload.
pub fn message_json(m: &Message) -> (r: String)
    ensures
        r@ == message_body(m.message@),
{
    let mut out = String::from_str("{\"message\":\"");
    let esc = escape_json(m.message.as_str());
    out.append(esc.as_str());
    out.append("\"}");
    proof {
        assert(out@ =~= message_body(m.message@));
    }
    out
}

/// Serializes the health payload.
pub fn health_json(h: &Health) -> (r: String)
    ensures
        r@ == health_body(h.status@, h.timestamp@),
{
    let mut out = String::from_str("{\"status\":\"");
    let esc_status = escape_json(h.status.as_str());
    out.append(esc_status.as_str());
    out.append("\",\"timestamp\":\"");
    let esc_ts = escape_json(h.timestamp.as_str());
    out.append(esc_ts.as_str());
    out.append("\"}");
    proof {
        assert(out@ =~= health_body(h.status@, h.timestamp@));
    }
    out
}

/// Serializes the user listing payload.
pub fn users_json(u: &UsersResponse) -> (r: String)
    requires
        u.users@.len() == 0,
    ensures
        r@ == users_body(),
{
    String::from_str("{\"users\":[]}")
}

} // verus!
