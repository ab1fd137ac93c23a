//! A small, total JSON writer.
//!
//! Every query result crosses the boundary as a serialized document, so
//! the encoding itself is part of the library: string escaping, decimal
//! rendering of numbers, and the array/object framing are specified as
//! functions on character sequences and the writers are proved to
//! produce exactly those sequences.

use vstd::prelude::*;

verus! {

/// The hexadecimal digit character for `d` (lower case), for `d < 16`.
pub open spec fn hex_digit(d: nat) -> char {
    if d == 0 {
        '0'
    } else if d == 1 {
        '1'
    } else if d == 2 {
        '2'
    } else if d == 3 {
        '3'
    } else if d == 4 {
        '4'
    } else if d == 5 {
        '5'
    } else if d == 6 {
        '6'
    } else if d == 7 {
        '7'
    } else if d == 8 {
        '8'
    } else if d == 9 {
        '9'
    } else if d == 10 {
        'a'
    } else if d == 11 {
        'b'
    } else if d == 12 {
        'c'
    } else if d == 13 {
        'd'
    } else if d == 14 {
        'e'
    } else {
        'f'
    }
}

/// The decimal digit character for `d`, for `d < 10`.
pub open spec fn dec_digit(d: nat) -> char {
    hex_digit(if d < 10 { d } else { 0 })
}

/// The decimal rendering of `n`, most significant digit first, no sign,
/// no leading zeros (a single `'0'` for zero).
pub open spec fn dec_str(n: nat) -> Seq<char>
    decreases n,
{
    if n < 10 {
        seq![dec_digit(n)]
    } else {
        dec_str(n / 10).push(dec_digit(n % 10))
    }
}

/// How one character is written inside a JSON string literal: the two
/// quote and backslash escapes, the short control escapes, `\u00XX` for
/// the remaining control characters, and every other character as
/// itself.
pub open spec fn escaped_char(c: char) -> Seq<char> {
    if c == '"' {
        seq!['\\', '"']
    } else if c == '\\' {
        seq!['\\', '\\']
    } else if c == '\u{8}' {
        seq!['\\', 'b']
    } else if c == '\t' {
        seq!['\\', 't']
    } else if c == '\n' {
        seq!['\\', 'n']
    } else if c == '\u{c}' {
        seq!['\\', 'f']
    } else if c == '\r' {
        seq!['\\', 'r']
    } else if (c as u32) < 32 {
        seq!['\\', 'u', '0', '0', hex_digit((c as u32 / 16) as nat), hex_digit((c as u32 % 16) as nat)]
    } else {
        seq![c]
    }
}

/// The body of a JSON string literal: each character escaped in turn.
pub open spec fn escaped_seq(s: Seq<char>) -> Seq<char>
    decreases s.len(),
{
    if s.len() == 0 {
        Seq::<char>::empty()
    } else {
        escaped_seq(s.drop_last()) + escaped_char(s.last())
    }
}

/// A complete JSON string literal for `s`.
pub open spec fn json_str(s: Seq<char>) -> Seq<char> {
    seq!['"'] + escaped_seq(s) + seq!['"']
}

/// No character of `s` is the NUL character, so a NUL-terminated copy
/// of `s` can cross a C boundary without truncation.
pub open spec fn nul_free(s: Seq<char>) -> bool {
    forall|i: int| 0 <= i < s.len() ==> s[i] != '\u{0}'
}

/// Concatenation keeps NUL-freedom.
pub proof fn lemma_nul_free_concat(a: Seq<char>, b: Seq<char>)
    requires
        nul_free(a),
        nul_free(b),
    ensures
        nul_free(a + b),
{
    assert forall|i: int| 0 <= i < (a + b).len() implies (a + b)[i] != '\u{0}' by {
        if i < a.len() {
            assert((a + b)[i] == a[i]);
        } else {
            assert((a + b)[i] == b[i - a.len()]);
        }
    }
}

/// Escaping never produces the NUL character: the NUL input itself is
/// rewritten to its `\u0000` escape.
pub proof fn lemma_escaped_char_nul_free(c: char)
    ensures
        nul_free(escaped_char(c)),
{
    let e = escaped_char(c);
    if c == '"' || c == '\\' || c == '\u{8}' || c == '\t' || c == '\n' || c == '\u{c}' || c
        == '\r' {
        assert(e.len() == 2 && e[0] == '\\' && e[1] != '\u{0}');
    } else if (c as u32) < 32 {
        assert(e.len() == 6);
        assert(e[0] == '\\' && e[1] == 'u' && e[2] == '0' && e[3] == '0');
        assert(e[4] == hex_digit((c as u32 / 16) as nat) && e[4] != '\u{0}');
        assert(e[5] == hex_digit((c as u32 % 16) as nat) && e[5] != '\u{0}');
    } else {
        assert(e.len() == 1 && e[0] == c && c != '\u{0}');
    }
}

/// The escaped body of a JSON string literal is NUL-free.
pub proof fn lemma_escaped_seq_nul_free(s: Seq<char>)
    ensures
        nul_free(escaped_seq(s)),
    decreases s.len(),
{
    if s.len() > 0 {
        lemma_escaped_seq_nul_free(s.drop_last());
        lemma_escaped_char_nul_free(s.last());
        lemma_nul_free_concat(escaped_seq(s.drop_last()), escaped_char(s.last()));
    }
}

/// A complete JSON string literal is NUL-free.
pub proof fn lemma_json_str_nul_free(s: Seq<char>)
    ensures
        nul_free(json_str(s)),
{
    lemma_escaped_seq_nul_free(s);
    lemma_nul_free_concat(seq!['"'], escaped_seq(s));
    lemma_nul_free_concat(seq!['"'] + escaped_seq(s), seq!['"']);
}

/// A decimal rendering is NUL-free.
pub proof fn lemma_dec_str_nul_free(n: nat)
    ensures
        nul_free(dec_str(n)),
    decreases n,
{
    if n >= 10 {
        lemma_dec_str_nul_free(n / 10);
        assert(dec_str(n).drop_last() == dec_str(n / 10));
    }
}

/// A JSON array of string literals is NUL-free.
pub proof fn lemma_string_array_nul_free(xs: Seq<String>)
    ensures
        nul_free(string_array_body(xs)),
        nul_free(string_array_doc(xs)),
    decreases xs.len(),
{
    if xs.len() == 1 {
        lemma_json_str_nul_free(xs[0]@);
    } else if xs.len() > 1 {
        lemma_string_array_nul_free(xs.drop_last());
        lemma_json_str_nul_free(xs.last()@);
        lemma_nul_free_concat(string_array_body(xs.drop_last()), seq![',']);
        lemma_nul_free_concat(
            string_array_body(xs.drop_last()) + seq![','],
            json_str(xs.last()@),
        );
    }
    lemma_nul_free_concat(seq!['['], string_array_body(xs));
    lemma_nul_free_concat(seq!['['] + string_array_body(xs), seq![']']);
}

/// Relies on `String::push`: appends exactly the one character.
#[verifier::external_body]
pub(crate) fn push_char(out: &mut String, c: char)
    ensures
        final(out)@ == old(out)@.push(c),
{
    out.push(c);
}

/// The hexadecimal digit character for `d` (lower case).
fn hex_char(d: u32) -> (c: char)
    requires
        d < 16,
    ensures
        c == hex_digit(d as nat),
{
    if d == 0 {
        '0'
    } else if d == 1 {
        '1'
    } else if d == 2 {
        '2'
    } else if d == 3 {
        '3'
    } else if d == 4 {
        '4'
    } else if d == 5 {
        '5'
    } else if d == 6 {
        '6'
    } else if d == 7 {
        '7'
    } else if d == 8 {
        '8'
    } else if d == 9 {
        '9'
    } else if d == 10 {
        'a'
    } else if d == 11 {
        'b'
    } else if d == 12 {
        'c'
    } else if d == 13 {
        'd'
    } else if d == 14 {
        'e'
    } else {
        'f'
    }
}

/// Appends the decimal rendering of `n` to `out`.
pub fn write_u32(out: &mut String, n: u32)
    ensures
        final(out)@ == old(out)@ + dec_str(n as nat),
    decreases n,
{
    if n < 10 {
        push_char(out, hex_char(n));
        proof {
            assert(out@ =~= old(out)@ + dec_str(n as nat));
        }
    } else {
        write_u32(out, n / 10);
        push_char(out, hex_char(n % 10));
        proof {
            assert(out@ =~= old(out)@ + dec_str(n as nat));
        }
    }
}

/// Appends one character of a JSON string body, escaped as `escaped_char`.
fn write_escaped_char(out: &mut String, c: char)
    ensures
        final(out)@ == old(out)@ + escaped_char(c),
{
    if c == '"' {
        push_char(out, '\\');
        push_char(out, '"');
    } else if c == '\\' {
        push_char(out, '\\');
        push_char(out, '\\');
    } else if c == '\u{8}' {
        push_char(out, '\\');
        push_char(out, 'b');
    } else if c == '\t' {
        push_char(out, '\\');
        push_char(out, 't');
    } else if c == '\n' {
        push_char(out, '\\');
        push_char(out, 'n');
    } else if c == '\u{c}' {
        push_char(out, '\\');
        push_char(out, 'f');
    } else if c == '\r' {
        push_char(out, '\\');
        push_char(out, 'r');
    } else if (c as u32) < 32 {
        let v = c as u32;
        push_char(out, '\\');
        push_char(out, 'u');
        push_char(out, '0');
        push_char(out, '0');
        push_char(out, hex_char(v / 16));
        push_char(out, hex_char(v % 16));
    } else {
        push_char(out, c);
    }
    proof {
        assert(out@ =~= old(out)@ + escaped_char(c));
    }
}

/// Appends the escaped body of a JSON string literal for `s`.
fn write_escaped(out: &mut String, s: &str)
    ensures
        final(out)@ == old(out)@ + escaped_seq(s@),
{
    let ghost start = out@;
    let n = s.unicode_len();
    let mut i: usize = 0;
    while i < n
        invariant
            i <= n,
            n == s@.len(),
            out@ == start + escaped_seq(s@.take(i as int)),
        decreases n - i,
    {
        let c = s.get_char(i);
        write_escaped_char(out, c);
        proof {
            assert(s@.take(i + 1 as int).drop_last() =~= s@.take(i as int));
            assert(s@.take(i + 1 as int).last() == c);
            assert(out@ =~= start + escaped_seq(s@.take(i + 1 as int)));
        }
        i = i + 1;
    }
    proof {
        assert(s@.take(n as int) =~= s@);
    }
}

/// The comma-separated body of a JSON array of string literals.
pub open spec fn string_array_body(xs: Seq<String>) -> Seq<char>
    decreases xs.len(),
{
    if xs.len() == 0 {
        Seq::<char>::empty()
    } else if xs.len() == 1 {
        json_str(xs[0]@)
    } else {
        string_array_body(xs.drop_last()) + seq![','] + json_str(xs.last()@)
    }
}

/// A complete JSON array of string literals, in the order given.
pub open spec fn string_array_doc(xs: Seq<String>) -> Seq<char> {
    seq!['['] + string_array_body(xs) + seq![']']
}

/// Appends the JSON array holding every string of `xs`, in order.
pub fn write_string_array(out: &mut String, xs: &Vec<String>)
    ensures
        final(out)@ == old(out)@ + string_array_doc(xs@),
{
    let ghost start = out@;
    push_char(out, '[');
    let mut i: usize = 0;
    while i < xs.len()
        invariant
            i <= xs@.len(),
            out@ == start + seq!['['] + string_array_body(xs@.take(i as int)),
        decreases xs@.len() - i,
    {
        if i > 0 {
            push_char(out, ',');
        }
        write_json_str(out, xs[i].as_str());
        proof {
            assert(xs@.take(i + 1 as int).drop_last() =~= xs@.take(i as int));
            assert(xs@.take(i + 1 as int).last() == xs@[i as int]);
            assert(out@ =~= start + seq!['['] + string_array_body(xs@.take(i + 1 as int)));
        }
        i = i + 1;
    }
    push_char(out, ']');
    proof {
        assert(xs@.take(xs@.len() as int) =~= xs@);
        assert(out@ =~= old(out)@ + string_array_doc(xs@));
    }
}

/// Appends the complete JSON string literal for `s`.
pub fn write_json_str(out: &mut String, s: &str)
    ensures
        final(out)@ == old(out)@ + json_str(s@),
{
    push_char(out, '"');
    write_escaped(out, s);
    push_char(out, '"');
    proof {
        assert(out@ =~= old(out)@ + json_str(s@));
    }
}

} // verus!
