//! The rendezvous-over-HTTP wire format: the JSON body of a `POST /blpop`
//! request, `{"key": <string>, "timeout": <integer seconds>}`, built from a
//! key and a timeout. The key is JSON-escaped; the timeout is written in
//! decimal.

use vstd::prelude::*;

verus! {

/// The decimal digit character for `d`.
pub open spec fn spec_digit_char(d: nat) -> char {
    if d == 0 {
        '0'
    } else if d == 1 {
        '1'
    } else if d == 2 {
        '2'
    } else if d == 3 {
        '3'
    } else if d == 4 {
        '4'
    } else if d == 5 {
        '5'
    } else if d == 6 {
        '6'
    } else if d == 7 {
        '7'
    } else if d == 8 {
        '8'
    } else {
        '9'
    }
}

/// The lower-case hexadecimal digit character for `d`.
pub open spec fn spec_hex_char(d: nat) -> char {
    if d < 10 {
        spec_digit_char(d)
    } else if d == 10 {
        'a'
    } else if d == 11 {
        'b'
    } else if d == 12 {
        'c'
    } else if d == 13 {
        'd'
    } else if d == 14 {
        'e'
    } else {
        'f'
    }
}

/// The decimal notation of `n`, most significant digit first, no leading
/// zeros except for `n == 0` itself.
pub open spec fn spec_dec_digits(n: nat) -> Seq<char>
    decreases n,
{
    if n < 10 {
        seq![spec_digit_char(n)]
    } else {
        spec_dec_digits(n / 10).push(spec_digit_char(n % 10))
    }
}

/// The JSON escape of one character of a string value: quote and backslash
/// get a backslash, control characters become `\u00XX`, everything else
/// stands as it is.
pub open spec fn spec_escape_char(c: char) -> Seq<char> {
    if c == '"' {
        seq!['\\', '"']
    } else if c == '\\' {
        seq!['\\', '\\']
    } else if (c as u32) < 32 {
        seq!['\\', 'u', '0', '0', spec_hex_char(((c as u32) / 16) as nat), spec_hex_char(((c as u32) % 16) as nat)]
    } else {
        seq![c]
    }
}

/// The JSON escape of a whole string value.
pub open spec fn spec_escape(s: Seq<char>) -> Seq<char>
    decreases s.len(),
{
    if s.len() == 0 {
        Seq::<char>::empty()
    } else {
        spec_escape_char(s[0]) + spec_escape(s.skip(1))
    }
}

/// Escaping a concatenation escapes the parts in place.
proof fn lemma_escape_append(a: Seq<char>, b: Seq<char>)
    ensures
        spec_escape(a + b) == spec_escape(a) + spec_escape(b),
    decreases a.len(),
{
    if a.len() == 0 {
        assert(a + b =~= b);
        assert(spec_escape(a) + spec_escape(b) =~= spec_escape(b));
    } else {
        assert((a + b)[0] == a[0]);
        assert((a + b).skip(1) =~= a.skip(1) + b);
        lemma_escape_append(a.skip(1), b);
        assert(spec_escape_char(a[0]) + (spec_escape(a.skip(1)) + spec_escape(b))
            =~= (spec_escape_char(a[0]) + spec_escape(a.skip(1))) + spec_escape(b));
    }
}

/// The full request body: `{"key":"<escaped key>","timeout":<seconds>}`.
pub open spec fn spec_blpop_request_body(key: Seq<char>, timeout_secs: nat) -> Seq<char> {
    "{\"key\":\""@ + spec_escape(key) + "\",\"timeout\":"@ + spec_dec_digits(timeout_secs) + "}"@
}

/// Relies on String::push of std: appends the character to the string.
pub assume_specification[ String::push ](s: &mut String, c: char)
    ensures
        final(s)@ == old(s)@.push(c),
;

/// The decimal digit character for `d`.
fn digit_char(d: u64) -> (c: char)
    requires
        d < 10,
    ensures
        c == spec_digit_char(d as nat),
{
    if d == 0 {
        '0'
    } else if d == 1 {
        '1'
    } else if d == 2 {
        '2'
    } else if d == 3 {
        '3'
    } else if d == 4 {
        '4'
    } else if d == 5 {
        '5'
    } else if d == 6 {
        '6'
    } else if d == 7 {
        '7'
    } else if d == 8 {
        '8'
    } else {
        '9'
    }
}

/// The lower-case hexadecimal digit character for `d`.
fn hex_char(d: u32) -> (c: char)
    requires
        d < 16,
    ensures
        c == spec_hex_char(d as nat),
{
    if d < 10 {
        digit_char(d as u64)
    } else if d == 10 {
        'a'
    } else if d == 11 {
        'b'
    } else if d == 12 {
        'c'
    } else if d == 13 {
        'd'
    } else if d == 14 {
        'e'
    } else {
        'f'
    }
}

/// Appends the decimal notation of `n` to `out`.
fn append_dec(out: &mut String, n: u64)
    ensures
        final(out)@ == old(out)@ + spec_dec_digits(n as nat),
    decreases n,
{
    if n < 10 {
        out.push(digit_char(n));
        assert(out@ =~= old(out)@ + spec_dec_digits(n as nat));
    } else {
        append_dec(out, n / 10);
        out.push(digit_char(n % 10));
        assert(out@ =~= old(out)@ + spec_dec_digits(n as nat));
    }
}

/// Appends the JSON escape of `c` to `out`.
fn append_escaped_char(out: &mut String, c: char)
    ensures
        final(out)@ == old(out)@ + spec_escape_char(c),
{
    let code = c as u32;
    if c == '"' {
        out.push('\\');
        out.push('"');
    } else if c == '\\' {
        out.push('\\');
        out.push('\\');
    } else if code < 32 {
        out.push('\\');
        out.push('u');
        out.push('0');
        out.push('0');
        out.push(hex_char(code / 16));
        out.push(hex_char(code % 16));
    } else {
        out.push(c);
    }
    assert(out@ =~= old(out)@ + spec_escape_char(c));
}

/// Appends the JSON escape of `s` to `out`.
fn append_escaped(out: &mut String, s: &str)
    ensures
        final(out)@ == old(out)@ + spec_escape(s@),
{
    let ghost base = out@;
    let n = s.unicode_len();
    let mut i: usize = 0;
    while i < n
        invariant
            n == s@.len(),
            i <= n,
            out@ == base + spec_escape(s@.take(i as int)),
        decreases n - i,
    {
        let c = s.get_char(i);
        append_escaped_char(out, c);
        proof {
            let pre = s@.take(i as int);
            let one = seq![s@[i as int]];
            assert(pre + one =~= s@.take(i as int + 1));
            lemma_escape_append(pre, one);
            assert(one.skip(1) =~= Seq::<char>::empty());
            assert(spec_escape(Seq::<char>::empty()) == Seq::<char>::empty());
            assert(spec_escape(one) == spec_escape_char(one[0]) + spec_escape(one.skip(1)));
            assert(spec_escape(one) =~= spec_escape_char(s@[i as int]));
            assert((base + spec_escape(pre)) + spec_escape_char(c) =~= base + (spec_escape(pre)
                + spec_escape_char(c)));
            assert(base + spec_escape(s@.take(i as int)) + spec_escape_char(c) =~= base
                + spec_escape(s@.take(i as int + 1)));
        }
        i = i + 1;
    }
    proof {
        assert(s@.take(n as int) =~= s@);
    }
}

/// Builds the JSON body of a `POST /blpop` request for the given key and
/// timeout: `{"key":"<escaped key>","timeout":<seconds>}`.
pub fn blpop_request_body(key: &str, timeout_secs: u64) -> (body: String)
    ensures
        body@ == spec_blpop_request_body(key@, timeout_secs as nat),
{
    let mut body = String::from_str("{\"key\":\"");
    append_escaped(&mut body, key);
    body.append("\",\"timeout\":");
    append_dec(&mut body, timeout_secs);
    body.append("}");
    assert(body@ =~= spec_blpop_request_body(key@, timeout_secs as nat));
    body
}

} // verus!
