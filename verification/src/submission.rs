//! The submission payload: a JSON object holding the extraction result, in
//! order, under the fixed key `alive_ssns`. The library builds the JSON text
//! itself, so its exact shape is stated and proved; values are escaped as
//! JSON strings require (quote, backslash, and control characters).

use vstd::prelude::*;
use vstd::string::StringExecFns;
use vstd::string::StrSliceExecFns;

verus! {

/// The lower-case hexadecimal digit for a value below 16.
pub open spec fn hex_digit(n: int) -> char {
    if n == 0 {
        '0'
    } else if n == 1 {
        '1'
    } else if n == 2 {
        '2'
    } else if n == 3 {
        '3'
    } else if n == 4 {
        '4'
    } else if n == 5 {
        '5'
    } else if n == 6 {
        '6'
    } else if n == 7 {
        '7'
    } else if n == 8 {
        '8'
    } else if n == 9 {
        '9'
    } else if n == 10 {
        'a'
    } else if n == 11 {
        'b'
    } else if n == 12 {
        'c'
    } else if n == 13 {
        'd'
    } else if n == 14 {
        'e'
    } else {
        'f'
    }
}

/// How one character appears inside a JSON string: quote and backslash get a
/// backslash escape, control characters a `\u00..` escape, everything else
/// stands as it is.
pub open spec fn escaped_char(c: char) -> Seq<char> {
    if c == '"' {
        seq!['\\', '"']
    } else if c == '\\' {
        seq!['\\', '\\']
    } else if (c as u32) < 32 {
        seq!['\\', 'u', '0', '0', hex_digit((c as u32) as int / 16), hex_digit((c as u32) as int % 16)]
    } else {
        seq![c]
    }
}

/// A text with each character escaped for a JSON string.
pub open spec fn escaped_str(s: Seq<char>) -> Seq<char>
    decreases s.len(),
{
    if s.len() == 0 {
        Seq::<char>::empty()
    } else {
        escaped_str(s.drop_last()) + escaped_char(s.last())
    }
}

/// A text as a JSON string: escaped and quoted.
pub open spec fn json_string_of(s: Seq<char>) -> Seq<char> {
    seq!['"'] + escaped_str(s) + seq!['"']
}

/// The values as a comma-separated list of JSON strings, in order.
pub open spec fn joined_strings(vals: Seq<Seq<char>>) -> Seq<char>
    decreases vals.len(),
{
    if vals.len() == 0 {
        Seq::<char>::empty()
    } else if vals.len() == 1 {
        json_string_of(vals[0])
    } else {
        joined_strings(vals.drop_last()) + seq![','] + json_string_of(vals.last())
    }
}

/// The submission payload for an extraction result: a JSON object with the
/// values, in order, as an array under the fixed key.
pub open spec fn submission_json(vals: Seq<Seq<char>>) -> Seq<char> {
    "{\"alive_ssns\":["@ + joined_strings(vals) + "]}"@
}

/// Relies on std's `String::push`: appends the one character.
#[verifier::external_body]
fn push_char(s: &mut String, c: char)
    ensures
        final(s)@ == old(s)@ + seq![c],
{
    s.push(c);
}

/// Appends the lower-case hexadecimal digit of a value below 16.
fn push_hex_digit(out: &mut String, n: u32)
    requires
        n < 16,
    ensures
        final(out)@ == old(out)@ + seq![hex_digit(n as int)],
{
    let c = match n {
        0 => '0',
        1 => '1',
        2 => '2',
        3 => '3',
        4 => '4',
        5 => '5',
        6 => '6',
        7 => '7',
        8 => '8',
        9 => '9',
        10 => 'a',
        11 => 'b',
        12 => 'c',
        13 => 'd',
        14 => 'e',
        _ => 'f',
    };
    push_char(out, c);
}

/// Appends one character in its escaped form.
fn push_escaped_char(out: &mut String, c: char)
    ensures
        final(out)@ == old(out)@ + escaped_char(c),
{
    if c == '"' {
        push_char(out, '\\');
        push_char(out, '"');
        assert(final(out)@ =~= old(out)@ + escaped_char(c));
    } else if c == '\\' {
        push_char(out, '\\');
        push_char(out, '\\');
        assert(final(out)@ =~= old(out)@ + escaped_char(c));
    } else if (c as u32) < 32 {
        let n = c as u32;
        push_char(out, '\\');
        push_char(out, 'u');
        push_char(out, '0');
        push_char(out, '0');
        push_hex_digit(out, n / 16);
        push_hex_digit(out, n % 16);
        assert(final(out)@ =~= old(out)@ + escaped_char(c));
    } else {
        push_char(out, c);
        assert(final(out)@ =~= old(out)@ + escaped_char(c));
    }
}

/// Appends a text as a JSON string: quoted, with each character escaped.
fn push_json_string(out: &mut String, s: &String)
    ensures
        final(out)@ == old(out)@ + json_string_of(s@),
{
    push_char(out, '"');
    let n = s.as_str().unicode_len();
    let mut i: usize = 0;
    while i < n
        invariant
            n == s@.len(),
            i <= n,
            out@ == old(out)@ + seq!['"'] + escaped_str(s@.take(i as int)),
        decreases n - i,
    {
        let c = s.as_str().get_char(i);
        push_escaped_char(out, c);
        proof {
            assert(s@.take(i as int + 1).drop_last() =~= s@.take(i as int));
            assert(s@.take(i as int + 1).last() == s@[i as int]);
        }
        i = i + 1;
    }
    push_char(out, '"');
    proof {
        assert(s@.take(n as int) =~= s@);
        assert(final(out)@ =~= old(out)@ + json_string_of(s@));
    }
}

/// Builds the submission payload from an extraction result, preserving its
/// order; the result is exactly the JSON text `submission_json` describes.
pub fn build_submission(vals: &Vec<String>) -> (r: String)
    ensures
        r@ == submission_json(vals.deep_view()),
{
    let ghost gvals = vals.deep_view();
    let mut out = "{\"alive_ssns\":[".to_owned();
    let mut i: usize = 0;
    while i < vals.len()
        invariant
            gvals == vals.deep_view(),
            gvals.len() == vals@.len(),
            forall|j: int| 0 <= j < gvals.len() ==> gvals[j] == vals@[j]@,
            i <= vals.len(),
            out@ == "{\"alive_ssns\":["@ + joined_strings(gvals.take(i as int)),
        decreases vals.len() - i,
    {
        if i > 0 {
            push_char(&mut out, ',');
        }
        push_json_string(&mut out, &vals[i]);
        proof {
            assert(gvals.take(i as int + 1).drop_last() =~= gvals.take(i as int));
            assert(gvals.take(i as int + 1).last() == gvals[i as int]);
            assert(out@ =~= "{\"alive_ssns\":["@ + joined_strings(gvals.take(i as int + 1)));
        }
        i = i + 1;
    }
    out.append("]}");
    proof {
        assert(gvals.take(vals@.len() as int) =~= gvals);
        assert(out@ =~= submission_json(vals.deep_view()));
    }
    out
}

} // verus!
