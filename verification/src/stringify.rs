//! Serialization of values into deterministic, source-embeddable literals.
//!
//! The runtime parameters are embedded in generated chunk source text, so the
//! rendering here is a wire contract: strings become quoted literals with the
//! usual escapes, numeric module ids become decimal literals, and lists
//! become bracketed, comma-separated literals.

use vstd::prelude::*;
use vstd::string::StrSliceExecFns;
use vstd::string::StringExecFns;
use crate::model::ModuleId;
use crate::model::ModuleIdView;
use crate::model::strings_view;

verus! {

/// The hexadecimal digit for a value below sixteen.
pub open spec fn hex_digit(d: nat) -> Seq<char> {
    if d == 0 {
        "0"@
    } else if d == 1 {
        "1"@
    } else if d == 2 {
        "2"@
    } else if d == 3 {
        "3"@
    } else if d == 4 {
        "4"@
    } else if d == 5 {
        "5"@
    } else if d == 6 {
        "6"@
    } else if d == 7 {
        "7"@
    } else if d == 8 {
        "8"@
    } else if d == 9 {
        "9"@
    } else if d == 10 {
        "a"@
    } else if d == 11 {
        "b"@
    } else if d == 12 {
        "c"@
    } else if d == 13 {
        "d"@
    } else if d == 14 {
        "e"@
    } else {
        "f"@
    }
}

/// How one character is written inside a quoted literal: quote and backslash
/// are escaped, the named control characters take their short escapes, any
/// other control character takes a `\u00` escape, and everything else stands
/// as itself.
pub open spec fn escaped_char(c: char) -> Seq<char> {
    if c == '"' {
        "\\\""@
    } else if c == '\\' {
        "\\\\"@
    } else if c == '\n' {
        "\\n"@
    } else if c == '\r' {
        "\\r"@
    } else if c == '\t' {
        "\\t"@
    } else if c == '\u{8}' {
        "\\b"@
    } else if c == '\u{c}' {
        "\\f"@
    } else if (c as u32) < 32 {
        "\\u00"@ + hex_digit((c as u32 / 16) as nat) + hex_digit((c as u32 % 16) as nat)
    } else {
        seq![c]
    }
}

/// A string's characters written inside a quoted literal, in order.
pub open spec fn escaped(s: Seq<char>) -> Seq<char>
    decreases s.len(),
{
    if s.len() == 0 {
        Seq::<char>::empty()
    } else {
        escaped(s.drop_last()) + escaped_char(s.last())
    }
}

/// A quoted string literal: the escaped characters between two quotes.
pub open spec fn quoted(s: Seq<char>) -> Seq<char> {
    seq!['"'] + escaped(s) + seq!['"']
}

/// The decimal digit for a value below ten.
pub open spec fn dec_digit(d: nat) -> Seq<char> {
    if d == 0 {
        "0"@
    } else if d == 1 {
        "1"@
    } else if d == 2 {
        "2"@
    } else if d == 3 {
        "3"@
    } else if d == 4 {
        "4"@
    } else if d == 5 {
        "5"@
    } else if d == 6 {
        "6"@
    } else if d == 7 {
        "7"@
    } else if d == 8 {
        "8"@
    } else {
        "9"@
    }
}

/// The decimal representation of a number, without leading zeros.
pub open spec fn dec_rep(n: nat) -> Seq<char>
    decreases n,
{
    if n < 10 {
        dec_digit(n)
    } else {
        dec_rep(n / 10) + dec_digit(n % 10)
    }
}

/// The elements joined by commas, in order.
pub open spec fn comma_joined(elems: Seq<Seq<char>>) -> Seq<char>
    decreases elems.len(),
{
    if elems.len() == 0 {
        Seq::<char>::empty()
    } else if elems.len() == 1 {
        elems[0]
    } else {
        comma_joined(elems.drop_last()) + seq![','] + elems.last()
    }
}

/// A bracketed list literal of already-rendered elements.
pub open spec fn array_literal(elems: Seq<Seq<char>>) -> Seq<char> {
    seq!['['] + comma_joined(elems) + seq![']']
}

/// How one module id is written: numeric ids as decimal literals, textual ids
/// as quoted literals.
pub open spec fn id_literal(id: ModuleIdView) -> Seq<char> {
    match id {
        ModuleIdView::Number(n) => dec_rep(n as nat),
        ModuleIdView::Str(s) => quoted(s),
    }
}

fn hex_digit_str(d: u32) -> (r: &'static str)
    requires
        d < 16,
    ensures
        r@ == hex_digit(d as nat),
{
    match d {
        0 => "0",
        1 => "1",
        2 => "2",
        3 => "3",
        4 => "4",
        5 => "5",
        6 => "6",
        7 => "7",
        8 => "8",
        9 => "9",
        10 => "a",
        11 => "b",
        12 => "c",
        13 => "d",
        14 => "e",
        _ => "f",
    }
}

fn dec_digit_str(d: u64) -> (r: &'static str)
    requires
        d < 10,
    ensures
        r@ == dec_digit(d as nat),
{
    match d {
        0 => "0",
        1 => "1",
        2 => "2",
        3 => "3",
        4 => "4",
        5 => "5",
        6 => "6",
        7 => "7",
        8 => "8",
        _ => "9",
    }
}

/// Renders a number as its decimal literal.
pub fn u64_literal(n: u64) -> (r: String)
    ensures
        r@ == dec_rep(n as nat),
    decreases n,
{
    if n < 10 {
        String::from_str(dec_digit_str(n))
    } else {
        let mut r = u64_literal(n / 10);
        r.append(dec_digit_str(n % 10));
        r
    }
}

/// Renders a string as a quoted, escaped literal.
pub fn quote_string(s: &str) -> (r: String)
    ensures
        r@ == quoted(s@),
{
    let n = s.unicode_len();
    let mut out = String::from_str("\"");
    proof {
        reveal_strlit("\"");
        assert(out@ =~= seq!['"'] + escaped(s@.take(0)));
    }
    let mut i: usize = 0;
    while i < n
        invariant
            i <= n,
            n == s@.len(),
            out@ == seq!['"'] + escaped(s@.take(i as int)),
        decreases n - i,
    {
        let c = s.get_char(i);
        if c == '"' {
            out.append("\\\"");
        } else if c == '\\' {
            out.append("\\\\");
        } else if c == '\n' {
            out.append("\\n");
        } else if c == '\r' {
            out.append("\\r");
        } else if c == '\t' {
            out.append("\\t");
        } else if c == '\u{8}' {
            out.append("\\b");
        } else if c == '\u{c}' {
            out.append("\\f");
        } else if (c as u32) < 32 {
            let v = c as u32;
            out.append("\\u00");
            out.append(hex_digit_str(v / 16));
            out.append(hex_digit_str(v % 16));
        } else {
            let piece = s.substring_char(i, i + 1);
            proof {
                assert(piece@ =~= seq![c]);
            }
            out.append(piece);
        }
        proof {
            assert(s@.take(i as int + 1).drop_last() =~= s@.take(i as int));
            assert(s@.take(i as int + 1).last() == s@[i as int]);
            assert(out@ =~= seq!['"'] + escaped(s@.take(i as int + 1)));
        }
        i += 1;
    }
    proof {
        assert(s@.take(n as int) =~= s@);
    }
    out.append("\"");
    proof {
        assert(out@ =~= quoted(s@));
    }
    out
}

/// Renders a module id as its literal.
pub fn render_module_id(id: &ModuleId) -> (r: String)
    ensures
        r@ == id_literal(id@),
{
    match id {
        ModuleId::Number(n) => u64_literal(*n),
        ModuleId::Str(s) => quote_string(s.as_str()),
    }
}

/// Renders already-rendered elements as a bracketed, comma-separated list.
pub fn render_array(elems: &Vec<String>) -> (r: String)
    ensures
        r@ == array_literal(strings_view(elems@)),
{
    let mut out = String::from_str("[");
    proof {
        reveal_strlit("[");
        assert(out@ =~= seq!['['] + comma_joined(strings_view(elems@).take(0)));
    }
    let mut i: usize = 0;
    while i < elems.len()
        invariant
            i <= elems.len(),
            out@ == seq!['['] + comma_joined(strings_view(elems@).take(i as int)),
        decreases elems.len() - i,
    {
        if i > 0 {
            out.append(",");
        }
        out.append(elems[i].as_str());
        proof {
            reveal_strlit(",");
            let ev = strings_view(elems@);
            assert(ev[i as int] == elems@[i as int]@);
            assert(ev.take(i as int + 1).drop_last() =~= ev.take(i as int));
            assert(ev.take(i as int + 1).last() == ev[i as int]);
            assert(out@ =~= seq!['['] + comma_joined(ev.take(i as int + 1)));
        }
        i += 1;
    }
    out.append("]");
    proof {
        reveal_strlit("]");
        assert(strings_view(elems@).take(elems@.len() as int) =~= strings_view(elems@));
        assert(out@ =~= array_literal(strings_view(elems@)));
    }
    out
}

} // verus!
