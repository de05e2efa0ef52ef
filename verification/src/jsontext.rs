//! Verified construction of JSON request-body text from plain values:
//! string escaping, quoting, and comma-joined lists.
//!
//! The endpoints that POST a body send exactly the text these functions
//! build, so the wire framing of outgoing requests is stated here in one
//! place.

use vstd::prelude::*;

use crate::decimal::{dec_str, digit_char, format_u64};

verus! {

/// The lowercase hexadecimal character for a nibble.
pub open spec fn hex_char(d: nat) -> char {
    if d < 10 {
        digit_char(d)
    } else if d == 10 {
        'a'
    } else if d == 11 {
        'b'
    } else if d == 12 {
        'c'
    } else if d == 13 {
        'd'
    } else if d == 14 {
        'e'
    } else {
        'f'
    }
}

/// How one character appears inside a JSON string literal: quotes and
/// backslashes are escaped, the control characters with short escapes use
/// them, any other control character becomes a `\u00XX` escape, and
/// everything else stands for itself.
pub open spec fn json_escape_char(c: char) -> Seq<char> {
    if c == '"' {
        seq!['\\', '"']
    } else if c == '\\' {
        seq!['\\', '\\']
    } else if c == '\u{8}' {
        seq!['\\', 'b']
    } else if c == '\t' {
        seq!['\\', 't']
    } else if c == '\n' {
        seq!['\\', 'n']
    } else if c == '\u{c}' {
        seq!['\\', 'f']
    } else if c == '\r' {
        seq!['\\', 'r']
    } else if (c as nat) < 32 {
        seq!['\\', 'u', '0', '0', hex_char((c as nat) / 16), hex_char((c as nat) % 16)]
    } else {
        seq![c]
    }
}

/// The body of a JSON string literal for `s`: each character escaped.
pub open spec fn json_escape(s: Seq<char>) -> Seq<char>
    decreases s.len(),
{
    if s.len() == 0 {
        Seq::<char>::empty()
    } else {
        json_escape(s.drop_last()) + json_escape_char(s.last())
    }
}

/// The JSON string literal for `s`: the escaped body in double quotes.
pub open spec fn json_quoted(s: Seq<char>) -> Seq<char> {
    seq!['"'] + json_escape(s) + seq!['"']
}

/// The elements of a JSON array of numbers: decimal renderings joined by
/// commas, no brackets.
pub open spec fn join_dec(ids: Seq<u64>) -> Seq<char>
    decreases ids.len(),
{
    if ids.len() == 0 {
        Seq::<char>::empty()
    } else if ids.len() == 1 {
        dec_str(ids[0] as nat)
    } else {
        join_dec(ids.drop_last()) + seq![','] + dec_str(ids.last() as nat)
    }
}

/// The elements of a JSON array of strings: quoted literals joined by
/// commas, no brackets.
pub open spec fn join_quoted(names: Seq<Seq<char>>) -> Seq<char>
    decreases names.len(),
{
    if names.len() == 0 {
        Seq::<char>::empty()
    } else if names.len() == 1 {
        json_quoted(names[0])
    } else {
        join_quoted(names.drop_last()) + seq![','] + json_quoted(names.last())
    }
}

/// Appends the single character for nibble `d` to `out`.
fn push_hex_digit(out: &mut String, d: u32)
    requires
        d < 16,
    ensures
        final(out)@ == old(out)@ + seq![hex_char(d as nat)],
{
    let s: &str = if d == 0 {
        "0"
    } else if d == 1 {
        "1"
    } else if d == 2 {
        "2"
    } else if d == 3 {
        "3"
    } else if d == 4 {
        "4"
    } else if d == 5 {
        "5"
    } else if d == 6 {
        "6"
    } else if d == 7 {
        "7"
    } else if d == 8 {
        "8"
    } else if d == 9 {
        "9"
    } else if d == 10 {
        "a"
    } else if d == 11 {
        "b"
    } else if d == 12 {
        "c"
    } else if d == 13 {
        "d"
    } else if d == 14 {
        "e"
    } else {
        "f"
    };
    proof {
        reveal_strlit("0");
        reveal_strlit("1");
        reveal_strlit("2");
        reveal_strlit("3");
        reveal_strlit("4");
        reveal_strlit("5");
        reveal_strlit("6");
        reveal_strlit("7");
        reveal_strlit("8");
        reveal_strlit("9");
        reveal_strlit("a");
        reveal_strlit("b");
        reveal_strlit("c");
        reveal_strlit("d");
        reveal_strlit("e");
        reveal_strlit("f");
        assert(s@ =~= seq![hex_char(d as nat)]);
    }
    out.append(s);
}

/// Appends the escape of the character at position `i` of `s` to `out`.
fn append_escaped_char(out: &mut String, s: &str, i: usize)
    requires
        i < s@.len(),
        i < usize::MAX,
    ensures
        final(out)@ == old(out)@ + json_escape_char(s@[i as int]),
{
    let c = s.get_char(i);
    let code: u32 = c as u32;
    if c == '"' {
        out.append("\\\"");
        proof {
            reveal_strlit("\\\"");
            assert("\\\""@ =~= json_escape_char(c));
        }
    } else if c == '\\' {
        out.append("\\\\");
        proof {
            reveal_strlit("\\\\");
            assert("\\\\"@ =~= json_escape_char(c));
        }
    } else if c == '\u{8}' {
        out.append("\\b");
        proof {
            reveal_strlit("\\b");
            assert("\\b"@ =~= json_escape_char(c));
        }
    } else if c == '\t' {
        out.append("\\t");
        proof {
            reveal_strlit("\\t");
            assert("\\t"@ =~= json_escape_char(c));
        }
    } else if c == '\n' {
        out.append("\\n");
        proof {
            reveal_strlit("\\n");
            assert("\\n"@ =~= json_escape_char(c));
        }
    } else if c == '\u{c}' {
        out.append("\\f");
        proof {
            reveal_strlit("\\f");
            assert("\\f"@ =~= json_escape_char(c));
        }
    } else if c == '\r' {
        out.append("\\r");
        proof {
            reveal_strlit("\\r");
            assert("\\r"@ =~= json_escape_char(c));
        }
    } else if code < 32 {
        out.append("\\u00");
        proof {
            reveal_strlit("\\u00");
        }
        push_hex_digit(out, code / 16);
        push_hex_digit(out, code % 16);
        proof {
            assert("\\u00"@ =~= seq!['\\', 'u', '0', '0']);
            assert(old(out)@ + "\\u00"@ + seq![hex_char((code / 16) as nat)] + seq![
                hex_char((code % 16) as nat),
            ] =~= old(out)@ + json_escape_char(c));
        }
    } else {
        let one = s.substring_char(i, i + 1);
        out.append(one);
        proof {
            assert(s@.subrange(i as int, i + 1) =~= seq![c]);
            assert(old(out)@ + seq![c] =~= old(out)@ + json_escape_char(c));
        }
    }
}

/// Appends the JSON string literal for `s` to `out`: opening quote, each
/// character escaped, closing quote.
pub fn append_json_string(out: &mut String, s: &str)
    ensures
        final(out)@ == old(out)@ + json_quoted(s@),
{
    out.append("\"");
    proof {
        reveal_strlit("\"");
        assert("\""@ =~= seq!['"']);
    }
    let n = s.unicode_len();
    let mut i: usize = 0;
    while i < n
        invariant
            n == s@.len(),
            i <= n,
            out@ == old(out)@ + seq!['"'] + json_escape(s@.subrange(0, i as int)),
        decreases n - i,
    {
        append_escaped_char(out, s, i);
        proof {
            assert(s@.subrange(0, i + 1).drop_last() =~= s@.subrange(0, i as int));
            assert(s@.subrange(0, i + 1).last() == s@[i as int]);
        }
        i = i + 1;
    }
    out.append("\"");
    proof {
        assert(s@.subrange(0, n as int) =~= s@);
        assert(old(out)@ + seq!['"'] + json_escape(s@) + "\""@ =~= old(out)@ + json_quoted(s@));
    }
}

/// Appends the comma-joined decimal renderings of `ids` to `out`.
pub fn append_joined_dec(out: &mut String, ids: &Vec<u64>)
    ensures
        final(out)@ == old(out)@ + join_dec(ids@),
{
    let mut i: usize = 0;
    while i < ids.len()
        invariant
            i <= ids@.len(),
            out@ == old(out)@ + join_dec(ids@.subrange(0, i as int)),
        decreases ids@.len() - i,
    {
        if i > 0 {
            out.append(",");
            proof {
                reveal_strlit(",");
                assert(","@ =~= seq![',']);
            }
        }
        let rendered = format_u64(ids[i]);
        out.append(rendered.as_str());
        proof {
            assert(ids@.subrange(0, i + 1).drop_last() =~= ids@.subrange(0, i as int));
            assert(ids@.subrange(0, i + 1).last() == ids@[i as int]);
            if i == 0 {
                assert(out@ =~= old(out)@ + join_dec(ids@.subrange(0, i + 1)));
            } else {
                assert(out@ =~= old(out)@ + join_dec(ids@.subrange(0, i + 1)));
            }
        }
        i = i + 1;
    }
    proof {
        assert(ids@.subrange(0, ids@.len() as int) =~= ids@);
    }
}

/// Appends the comma-joined JSON string literals for `names` to `out`.
pub fn append_joined_quoted(out: &mut String, names: &Vec<String>)
    ensures
        final(out)@ == old(out)@ + join_quoted(names.deep_view()),
{
    let mut i: usize = 0;
    while i < names.len()
        invariant
            i <= names@.len(),
            names.deep_view().len() == names@.len(),
            forall|j: int|
                0 <= j < names@.len() ==> names.deep_view()[j] == names@[j]@,
            out@ == old(out)@ + join_quoted(names.deep_view().subrange(0, i as int)),
        decreases names@.len() - i,
    {
        if i > 0 {
            out.append(",");
            proof {
                reveal_strlit(",");
                assert(","@ =~= seq![',']);
            }
        }
        append_json_string(out, names[i].as_str());
        proof {
            let dv = names.deep_view();
            assert(dv.subrange(0, i + 1).drop_last() =~= dv.subrange(0, i as int));
            assert(dv.subrange(0, i + 1).last() == dv[i as int]);
            assert(out@ =~= old(out)@ + join_quoted(dv.subrange(0, i + 1)));
        }
        i = i + 1;
    }
    proof {
        assert(names.deep_view().subrange(0, names@.len() as int) =~= names.deep_view());
    }
}

} // verus!
