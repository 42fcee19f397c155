//! Serializing events for the live connection: each event becomes one
//! self-describing record — a JSON object with a `type` tag and the
//! variant's payload. The exact character sequence of every record is
//! specified, including the escaping of text payloads.

use vstd::prelude::*;
use vstd::string::StrSliceExecFns;
use crate::events::{Event, StreamKind};

verus! {

/// The sixteen hexadecimal digits, lower case.
pub open spec fn hex_digit(n: int) -> char {
    if n == 0 {
        '0'
    } else if n == 1 {
        '1'
    } else if n == 2 {
        '2'
    } else if n == 3 {
        '3'
    } else if n == 4 {
        '4'
    } else if n == 5 {
        '5'
    } else if n == 6 {
        '6'
    } else if n == 7 {
        '7'
    } else if n == 8 {
        '8'
    } else if n == 9 {
        '9'
    } else if n == 10 {
        'a'
    } else if n == 11 {
        'b'
    } else if n == 12 {
        'c'
    } else if n == 13 {
        'd'
    } else if n == 14 {
        'e'
    } else {
        'f'
    }
}

/// How one character appears inside a JSON string: quote, backslash and
/// the named control characters get two-character escapes, other control
/// characters a `\u00..` escape, everything else stands for itself.
pub open spec fn escape_char(c: char) -> Seq<char> {
    if c == '"' {
        seq!['\\', '"']
    } else if c == '\\' {
        seq!['\\', '\\']
    } else if c == '\n' {
        seq!['\\', 'n']
    } else if c == '\r' {
        seq!['\\', 'r']
    } else if c == '\t' {
        seq!['\\', 't']
    } else if (c as u32) < 32 {
        seq!['\\', 'u', '0', '0', hex_digit(c as int / 16), hex_digit(c as int % 16)]
    } else {
        seq![c]
    }
}

/// A whole text payload, escaped character by character.
pub open spec fn escape_string(s: Seq<char>) -> Seq<char>
    decreases s.len(),
{
    if s.len() == 0 {
        Seq::empty()
    } else {
        escape_char(s[0]) + escape_string(s.skip(1))
    }
}

/// Escaping one more character appends its escape.
pub proof fn lemma_escape_string_push(s: Seq<char>, c: char)
    ensures
        escape_string(s.push(c)) == escape_string(s) + escape_char(c),
    decreases s.len(),
{
    if s.len() == 0 {
        assert(s.push(c).skip(1) =~= Seq::<char>::empty());
        assert(s.push(c)[0] == c);
        assert(escape_char(c) + escape_string(Seq::<char>::empty()) =~= escape_string(s)
            + escape_char(c));
    } else {
        assert(s.push(c).skip(1) =~= s.skip(1).push(c));
        lemma_escape_string_push(s.skip(1), c);
        assert(s.push(c)[0] == s[0]);
        assert(escape_char(s[0]) + (escape_string(s.skip(1)) + escape_char(c)) =~= (escape_char(
            s[0],
        ) + escape_string(s.skip(1))) + escape_char(c));
    }
}

/// The decimal digits of `n`, most significant first.
pub open spec fn dec_digits(n: nat) -> Seq<char>
    decreases n,
{
    if n < 10 {
        seq![hex_digit(n as int)]
    } else {
        dec_digits(n / 10).push(hex_digit((n % 10) as int))
    }
}

/// A (possibly negative) integer in decimal notation.
pub open spec fn int_chars(v: int) -> Seq<char> {
    if v < 0 {
        seq!['-'] + dec_digits((-v) as nat)
    } else {
        dec_digits(v as nat)
    }
}

/// The JSON spelling of a boolean.
pub open spec fn bool_chars(b: bool) -> Seq<char> {
    if b {
        "true"@
    } else {
        "false"@
    }
}

/// An optional exit code: its decimal digits, or `null` when the process
/// ended without one.
pub open spec fn exit_code_chars(c: Option<i32>) -> Seq<char> {
    match c {
        Some(v) => int_chars(v as int),
        None => "null"@,
    }
}

/// The name of a captured stream on the wire.
pub open spec fn stream_name(s: StreamKind) -> Seq<char> {
    match s {
        StreamKind::Stdout => "stdout"@,
        StreamKind::Stderr => "stderr"@,
    }
}

/// The exact record for each event: a `type` tag plus the variant's
/// payload, text payloads escaped.
pub open spec fn encoded_event(e: Event) -> Seq<char> {
    match e {
        Event::Output { stream, text } => "{\"type\":\"output\",\"stream\":\""@ + stream_name(
            stream,
        ) + "\",\"text\":\""@ + escape_string(text@) + "\"}"@,
        Event::Completed { exit_success, exit_code } => "{\"type\":\"complete\",\"success\":"@
            + bool_chars(exit_success) + ",\"code\":"@ + exit_code_chars(exit_code) + "}"@,
        Event::Failed { message } => "{\"type\":\"error\",\"message\":\""@ + escape_string(
            message@,
        ) + "\"}"@,
        Event::Cancelled => "{\"type\":\"cancelled\"}"@,
    }
}

/// Relies on collecting an iterator of `char` into a `String`: the result
/// is the string of exactly those characters, in order.
#[verifier::external_body]
pub(crate) fn chars_to_string(v: &Vec<char>) -> (r: String)
    ensures
        r@ == v@,
{
    v.iter().collect()
}

/// One hexadecimal digit, lower case.
fn hex_digit_char(n: u32) -> (r: char)
    requires
        n < 16,
    ensures
        r == hex_digit(n as int),
{
    match n {
        0 => '0',
        1 => '1',
        2 => '2',
        3 => '3',
        4 => '4',
        5 => '5',
        6 => '6',
        7 => '7',
        8 => '8',
        9 => '9',
        10 => 'a',
        11 => 'b',
        12 => 'c',
        13 => 'd',
        14 => 'e',
        _ => 'f',
    }
}

/// Append the characters of `s` unchanged.
pub(crate) fn append_str(out: &mut Vec<char>, s: &str)
    ensures
        final(out)@ == old(out)@ + s@,
{
    let n = s.unicode_len();
    for i in 0..n
        invariant
            n == s@.len(),
            out@ == old(out)@ + s@.subrange(0, i as int),
    {
        let c = s.get_char(i);
        out.push(c);
        proof {
            assert(old(out)@ + s@.subrange(0, i + 1) =~= (old(out)@ + s@.subrange(0, i as int)).push(
                c,
            ));
        }
    }
    proof {
        assert(s@.subrange(0, n as int) =~= s@);
        assert(old(out)@ + s@ =~= out@);
    }
}

/// Append the characters of `s`, escaped for a JSON string.
pub(crate) fn append_escaped(out: &mut Vec<char>, s: &str)
    ensures
        final(out)@ == old(out)@ + escape_string(s@),
{
    let n = s.unicode_len();
    for i in 0..n
        invariant
            n == s@.len(),
            out@ == old(out)@ + escape_string(s@.subrange(0, i as int)),
    {
        let c = s.get_char(i);
        let ghost prefix = s@.subrange(0, i as int);
        if c == '"' {
            out.push('\\');
            out.push('"');
        } else if c == '\\' {
            out.push('\\');
            out.push('\\');
        } else if c == '\n' {
            out.push('\\');
            out.push('n');
        } else if c == '\r' {
            out.push('\\');
            out.push('r');
        } else if c == '\t' {
            out.push('\\');
            out.push('t');
        } else if (c as u32) < 32 {
            out.push('\\');
            out.push('u');
            out.push('0');
            out.push('0');
            out.push(hex_digit_char(c as u32 / 16));
            out.push(hex_digit_char(c as u32 % 16));
        } else {
            out.push(c);
        }
        proof {
            lemma_escape_string_push(prefix, c);
            assert(s@.subrange(0, i + 1) =~= prefix.push(c));
            assert(out@ =~= old(out)@ + escape_string(s@.subrange(0, i + 1)));
        }
    }
    proof {
        assert(s@.subrange(0, n as int) =~= s@);
    }
}

/// Append the decimal digits of `n`, most significant first.
pub(crate) fn append_u64_digits(out: &mut Vec<char>, n: u64)
    ensures
        final(out)@ == old(out)@ + dec_digits(n as nat),
    decreases n,
{
    if n >= 10 {
        append_u64_digits(out, n / 10);
    }
    out.push(hex_digit_char((n % 10) as u32));
    proof {
        if n < 10 {
            assert(old(out)@ + dec_digits(n as nat) =~= old(out)@.push(hex_digit(n as int)));
        }
    }
}

/// Append a (possibly negative) 32-bit integer in decimal notation.
pub(crate) fn append_i32(out: &mut Vec<char>, v: i32)
    ensures
        final(out)@ == old(out)@ + int_chars(v as int),
{
    let w: i64 = v as i64;
    if w < 0 {
        out.push('-');
        let m: u64 = (-w) as u64;
        append_u64_digits(out, m);
        proof {
            assert(old(out)@ + int_chars(v as int) =~= (old(out)@.push('-')) + dec_digits(
                m as nat,
            ));
        }
    } else {
        append_u64_digits(out, w as u64);
    }
}

/// Serialize one event to the exact record `encoded_event` specifies.
pub fn encode_event(e: &Event) -> (r: String)
    ensures
        r@ == encoded_event(*e),
{
    let mut out: Vec<char> = Vec::new();
    match e {
        Event::Output { stream, text } => {
            append_str(&mut out, "{\"type\":\"output\",\"stream\":\"");
            match stream {
                StreamKind::Stdout => append_str(&mut out, "stdout"),
                StreamKind::Stderr => append_str(&mut out, "stderr"),
            }
            append_str(&mut out, "\",\"text\":\"");
            append_escaped(&mut out, text.as_str());
            append_str(&mut out, "\"}");
        },
        Event::Completed { exit_success, exit_code } => {
            append_str(&mut out, "{\"type\":\"complete\",\"success\":");
            if *exit_success {
                append_str(&mut out, "true");
            } else {
                append_str(&mut out, "false");
            }
            append_str(&mut out, ",\"code\":");
            match exit_code {
                Some(v) => append_i32(&mut out, *v),
                None => append_str(&mut out, "null"),
            }
            append_str(&mut out, "}");
        },
        Event::Failed { message } => {
            append_str(&mut out, "{\"type\":\"error\",\"message\":\"");
            append_escaped(&mut out, message.as_str());
            append_str(&mut out, "\"}");
        },
        Event::Cancelled => {
            append_str(&mut out, "{\"type\":\"cancelled\"}");
        },
    }
    proof {
        assert(out@ =~= encoded_event(*e));
    }
    chars_to_string(&out)
}

} // verus!
