use vstd::prelude::*;
use vstd::string::{StrSliceExecFns, StringExecFns};

use crate::data::{attrs_view, OpenSeaAttributes};

verus! {

/// The lower-case hex digit for a value below 16.
pub open spec fn hex_digit_char(v: int) -> char {
    if v == 0 {
        '0'
    } else if v == 1 {
        '1'
    } else if v == 2 {
        '2'
    } else if v == 3 {
        '3'
    } else if v == 4 {
        '4'
    } else if v == 5 {
        '5'
    } else if v == 6 {
        '6'
    } else if v == 7 {
        '7'
    } else if v == 8 {
        '8'
    } else if v == 9 {
        '9'
    } else if v == 10 {
        'a'
    } else if v == 11 {
        'b'
    } else if v == 12 {
        'c'
    } else if v == 13 {
        'd'
    } else if v == 14 {
        'e'
    } else {
        'f'
    }
}

/// How one character is written inside a JSON string literal: quote and
/// backslash get a two-character escape, control characters get their short
/// escape or a `\u00` escape, and every other character stands as itself.
pub open spec fn escape_char(c: char) -> Seq<char> {
    if c == '"' {
        "\\\""@
    } else if c == '\\' {
        "\\\\"@
    } else if c == '\u{8}' {
        "\\b"@
    } else if c == '\t' {
        "\\t"@
    } else if c == '\n' {
        "\\n"@
    } else if c == '\u{c}' {
        "\\f"@
    } else if c == '\r' {
        "\\r"@
    } else if (c as int) < 0x20 {
        "\\u00"@ + seq![hex_digit_char(c as int / 16), hex_digit_char(c as int % 16)]
    } else {
        seq![c]
    }
}

/// The body of a JSON string literal holding `s`.
pub open spec fn escape_str(s: Seq<char>) -> Seq<char>
    decreases s.len(),
{
    if s.len() == 0 {
        Seq::empty()
    } else {
        escape_str(s.drop_last()) + escape_char(s.last())
    }
}

/// The JSON object for one trait/value attribute pair.
pub open spec fn attr_json(t: Seq<char>, v: Seq<char>) -> Seq<char> {
    "{\"trait_type\":\""@ + escape_str(t) + "\",\"value\":\""@ + escape_str(v) + "\"}"@
}

/// The comma-separated JSON objects for a list of attribute pairs.
pub open spec fn attrs_items_json(l: Seq<(Seq<char>, Seq<char>)>) -> Seq<char>
    decreases l.len(),
{
    if l.len() == 0 {
        Seq::empty()
    } else if l.len() == 1 {
        attr_json(l[0].0, l[0].1)
    } else {
        attrs_items_json(l.drop_last()) + ","@ + attr_json(l.last().0, l.last().1)
    }
}

/// The JSON array for a list of attribute pairs.
pub open spec fn attrs_json(l: Seq<(Seq<char>, Seq<char>)>) -> Seq<char> {
    "["@ + attrs_items_json(l) + "]"@
}

/// Appends the lower-case hex digit of `v`.
fn append_hex_digit(out: &mut String, v: u32)
    requires
        v < 16,
    ensures
        final(out)@ == old(out)@.push(hex_digit_char(v as int)),
{
    if v == 0 {
        out.append("0");
        proof {
            reveal_strlit("0");
            assert(final(out)@ =~= old(out)@.push(hex_digit_char(v as int)));
        }
    } else if v == 1 {
        out.append("1");
        proof {
            reveal_strlit("1");
            assert(final(out)@ =~= old(out)@.push(hex_digit_char(v as int)));
        }
    } else if v == 2 {
        out.append("2");
        proof {
            reveal_strlit("2");
            assert(final(out)@ =~= old(out)@.push(hex_digit_char(v as int)));
        }
    } else if v == 3 {
        out.append("3");
        proof {
            reveal_strlit("3");
            assert(final(out)@ =~= old(out)@.push(hex_digit_char(v as int)));
        }
    } else if v == 4 {
        out.append("4");
        proof {
            reveal_strlit("4");
            assert(final(out)@ =~= old(out)@.push(hex_digit_char(v as int)));
        }
    } else if v == 5 {
        out.append("5");
        proof {
            reveal_strlit("5");
            assert(final(out)@ =~= old(out)@.push(hex_digit_char(v as int)));
        }
    } else if v == 6 {
        out.append("6");
        proof {
            reveal_strlit("6");
            assert(final(out)@ =~= old(out)@.push(hex_digit_char(v as int)));
        }
    } else if v == 7 {
        out.append("7");
        proof {
            reveal_strlit("7");
            assert(final(out)@ =~= old(out)@.push(hex_digit_char(v as int)));
        }
    } else if v == 8 {
        out.append("8");
        proof {
            reveal_strlit("8");
            assert(final(out)@ =~= old(out)@.push(hex_digit_char(v as int)));
        }
    } else if v == 9 {
        out.append("9");
        proof {
            reveal_strlit("9");
            assert(final(out)@ =~= old(out)@.push(hex_digit_char(v as int)));
        }
    } else if v == 10 {
        out.append("a");
        proof {
            reveal_strlit("a");
            assert(final(out)@ =~= old(out)@.push(hex_digit_char(v as int)));
        }
    } else if v == 11 {
        out.append("b");
        proof {
            reveal_strlit("b");
            assert(final(out)@ =~= old(out)@.push(hex_digit_char(v as int)));
        }
    } else if v == 12 {
        out.append("c");
        proof {
            reveal_strlit("c");
            assert(final(out)@ =~= old(out)@.push(hex_digit_char(v as int)));
        }
    } else if v == 13 {
        out.append("d");
        proof {
            reveal_strlit("d");
            assert(final(out)@ =~= old(out)@.push(hex_digit_char(v as int)));
        }
    } else if v == 14 {
        out.append("e");
        proof {
            reveal_strlit("e");
            assert(final(out)@ =~= old(out)@.push(hex_digit_char(v as int)));
        }
    } else {
        out.append("f");
        proof {
            reveal_strlit("f");
            assert(final(out)@ =~= old(out)@.push(hex_digit_char(v as int)));
        }
    }
}

/// Writes `s` as it stands inside a JSON string literal.
pub fn escape_json_str(s: &str) -> (r: String)
    ensures
        r@ == escape_str(s@),
{
    let n = s.unicode_len();
    let mut out = String::new();
    let mut i: usize = 0;
    while i < n
        invariant
            n == s@.len(),
            i <= n,
            out@ == escape_str(s@.take(i as int)),
        decreases n - i,
    {
        let c = s.get_char(i);
        proof {
            assert(s@.take(i as int + 1).drop_last() =~= s@.take(i as int));
            assert(s@.take(i as int + 1).last() == s@[i as int]);
        }
        if c == '"' {
            out.append("\\\"");
        } else if c == '\\' {
            out.append("\\\\");
        } else if c == '\u{8}' {
            out.append("\\b");
        } else if c == '\t' {
            out.append("\\t");
        } else if c == '\n' {
            out.append("\\n");
        } else if c == '\u{c}' {
            out.append("\\f");
        } else if c == '\r' {
            out.append("\\r");
        } else if (c as u32) < 0x20 {
            let v = c as u32;
            out.append("\\u00");
            append_hex_digit(&mut out, v / 16);
            append_hex_digit(&mut out, v % 16);
        } else {
            let piece = s.substring_char(i, i + 1);
            out.append(piece);
            proof {
                assert(piece@ =~= seq![s@[i as int]]);
            }
        }
        proof {
            assert(out@ =~= escape_str(s@.take(i as int + 1)));
        }
        i += 1;
    }
    proof {
        assert(s@.take(n as int) =~= s@);
    }
    out
}

/// Serializes a list of attribute pairs as a compact JSON array of
/// `{"trait_type": ..., "value": ...}` objects.
pub fn attributes_json(attrs: &Vec<OpenSeaAttributes>) -> (r: String)
    ensures
        r@ == attrs_json(attrs_view(attrs@)),
{
    let ghost av = attrs_view(attrs@);
    let mut out = String::from_str("[");
    let mut i: usize = 0;
    while i < attrs.len()
        invariant
            av == attrs_view(attrs@),
            av.len() == attrs@.len(),
            i <= attrs.len(),
            out@ == "["@ + attrs_items_json(av.take(i as int)),
        decreases attrs.len() - i,
    {
        proof {
            assert(av.take(i as int + 1).drop_last() =~= av.take(i as int));
            assert(av.take(i as int + 1).last() == av[i as int]);
        }
        if i > 0 {
            out.append(",");
        }
        let a = &attrs[i];
        out.append("{\"trait_type\":\"");
        let t = escape_json_str(a.trait_type.as_str());
        out.append(t.as_str());
        out.append("\",\"value\":\"");
        let v = escape_json_str(a.value.as_str());
        out.append(v.as_str());
        out.append("\"}");
        proof {
            assert(out@ =~= "["@ + attrs_items_json(av.take(i as int + 1)));
        }
        i += 1;
    }
    out.append("]");
    proof {
        assert(av.take(attrs@.len() as int) =~= av);
        assert(out@ =~= attrs_json(av));
    }
    out
}

} // verus!
