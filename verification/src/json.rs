//! Verified JSON rendering of interface records and error texts.
//!
//! The wire shape is fixed: an interface serializes to
//! `{"name":...,"addr":...,"netmask":...}` and a listing to a JSON array of
//! those objects.  String literals escape the quote, the backslash and the
//! control characters, which take the `\u00XX` form.

use vstd::prelude::*;
use vstd::string::{StrSliceExecFns, StringExecFns};
use crate::iface::{Interface, InterfaceView};

verus! {

/// Hexadecimal digit for a value below sixteen.
pub open spec fn spec_hex_digit(d: int) -> char {
    if d == 0 {
        '0'
    } else if d == 1 {
        '1'
    } else if d == 2 {
        '2'
    } else if d == 3 {
        '3'
    } else if d == 4 {
        '4'
    } else if d == 5 {
        '5'
    } else if d == 6 {
        '6'
    } else if d == 7 {
        '7'
    } else if d == 8 {
        '8'
    } else if d == 9 {
        '9'
    } else if d == 10 {
        'a'
    } else if d == 11 {
        'b'
    } else if d == 12 {
        'c'
    } else if d == 13 {
        'd'
    } else if d == 14 {
        'e'
    } else {
        'f'
    }
}

/// How one character reads inside a JSON string literal.
pub open spec fn spec_escape_char(c: char) -> Seq<char> {
    if c == '"' {
        "\\\""@
    } else if c == '\\' {
        "\\\\"@
    } else if (c as u32) < 32 {
        "\\u00"@ + seq![
            spec_hex_digit((c as u32) as int / 16),
            spec_hex_digit((c as u32) as int % 16),
        ]
    } else {
        seq![c]
    }
}

/// The whole character sequence, escaped for a JSON string literal.
pub open spec fn spec_escape(s: Seq<char>) -> Seq<char>
    decreases s.len(),
{
    if s.len() == 0 {
        Seq::empty()
    } else {
        spec_escape(s.drop_last()) + spec_escape_char(s.last())
    }
}

/// A JSON string literal: the escaped text between double quotes.
pub open spec fn spec_json_string(s: Seq<char>) -> Seq<char> {
    "\""@ + spec_escape(s) + "\""@
}

/// The JSON object for one interface record.
pub open spec fn spec_json_interface(v: InterfaceView) -> Seq<char> {
    "{\"name\":"@ + spec_json_string(v.name) + ",\"addr\":"@ + spec_json_string(v.addr)
        + ",\"netmask\":"@ + spec_json_string(v.netmask) + "}"@
}

/// The comma-separated members of a JSON array of interface objects.
pub open spec fn spec_json_items(vs: Seq<InterfaceView>) -> Seq<char>
    decreases vs.len(),
{
    if vs.len() == 0 {
        Seq::empty()
    } else if vs.len() == 1 {
        spec_json_interface(vs[0])
    } else {
        spec_json_items(vs.drop_last()) + ","@ + spec_json_interface(vs.last())
    }
}

/// The JSON array for a listing of interface records.
pub open spec fn spec_json_interface_list(vs: Seq<InterfaceView>) -> Seq<char> {
    "["@ + spec_json_items(vs) + "]"@
}

/// Append the hexadecimal digit of a value below sixteen.
fn append_hex_digit(out: &mut String, d: u32)
    requires
        d < 16,
    ensures
        final(out)@ == old(out)@ + seq![spec_hex_digit(d as int)],
{
    if d == 0 {
        out.append("0");
        proof {
            reveal_strlit("0");
            assert("0"@ =~= seq![spec_hex_digit(0)]);
        }
    } else if d == 1 {
        out.append("1");
        proof {
            reveal_strlit("1");
            assert("1"@ =~= seq![spec_hex_digit(1)]);
        }
    } else if d == 2 {
        out.append("2");
        proof {
            reveal_strlit("2");
            assert("2"@ =~= seq![spec_hex_digit(2)]);
        }
    } else if d == 3 {
        out.append("3");
        proof {
            reveal_strlit("3");
            assert("3"@ =~= seq![spec_hex_digit(3)]);
        }
    } else if d == 4 {
        out.append("4");
        proof {
            reveal_strlit("4");
            assert("4"@ =~= seq![spec_hex_digit(4)]);
        }
    } else if d == 5 {
        out.append("5");
        proof {
            reveal_strlit("5");
            assert("5"@ =~= seq![spec_hex_digit(5)]);
        }
    } else if d == 6 {
        out.append("6");
        proof {
            reveal_strlit("6");
            assert("6"@ =~= seq![spec_hex_digit(6)]);
        }
    } else if d == 7 {
        out.append("7");
        proof {
            reveal_strlit("7");
            assert("7"@ =~= seq![spec_hex_digit(7)]);
        }
    } else if d == 8 {
        out.append("8");
        proof {
            reveal_strlit("8");
            assert("8"@ =~= seq![spec_hex_digit(8)]);
        }
    } else if d == 9 {
        out.append("9");
        proof {
            reveal_strlit("9");
            assert("9"@ =~= seq![spec_hex_digit(9)]);
        }
    } else if d == 10 {
        out.append("a");
        proof {
            reveal_strlit("a");
            assert("a"@ =~= seq![spec_hex_digit(10)]);
        }
    } else if d == 11 {
        out.append("b");
        proof {
            reveal_strlit("b");
            assert("b"@ =~= seq![spec_hex_digit(11)]);
        }
    } else if d == 12 {
        out.append("c");
        proof {
            reveal_strlit("c");
            assert("c"@ =~= seq![spec_hex_digit(12)]);
        }
    } else if d == 13 {
        out.append("d");
        proof {
            reveal_strlit("d");
            assert("d"@ =~= seq![spec_hex_digit(13)]);
        }
    } else if d == 14 {
        out.append("e");
        proof {
            reveal_strlit("e");
            assert("e"@ =~= seq![spec_hex_digit(14)]);
        }
    } else {
        out.append("f");
        proof {
            reveal_strlit("f");
            assert("f"@ =~= seq![spec_hex_digit(d as int)]);
        }
    }
}

/// Append the escaped form of `s` to `out`.
fn escape_into(out: &mut String, s: &str)
    ensures
        final(out)@ == old(out)@ + spec_escape(s@),
{
    let n = s.unicode_len();
    let mut i: usize = 0;
    while i < n
        invariant
            n == s@.len(),
            i <= n,
            out@ == old(out)@ + spec_escape(s@.subrange(0, i as int)),
        decreases n - i,
    {
        let c = s.get_char(i);
        let ghost prefix = s@.subrange(0, i as int);
        if c == '"' {
            out.append("\\\"");
        } else if c == '\\' {
            out.append("\\\\");
        } else if (c as u32) < 32 {
            let code: u32 = c as u32;
            out.append("\\u00");
            append_hex_digit(out, code / 16);
            append_hex_digit(out, code % 16);
        } else {
            let piece = s.substring_char(i, i + 1);
            proof {
                assert(piece@ =~= seq![c]);
            }
            out.append(piece);
        }
        proof {
            assert(out@ =~= old(out)@ + spec_escape(prefix) + spec_escape_char(c));
            assert(s@.subrange(0, i + 1).drop_last() =~= prefix);
            assert(s@.subrange(0, i + 1).last() == c);
            assert(out@ =~= old(out)@ + spec_escape(s@.subrange(0, i + 1)));
        }
        i = i + 1;
    }
    proof {
        assert(s@.subrange(0, n as int) =~= s@);
    }
}

/// Render text as a JSON string literal.
pub fn json_string(s: &str) -> (r: String)
    ensures
        r@ == spec_json_string(s@),
{
    let mut out = String::from_str("\"");
    escape_into(&mut out, s);
    out.append("\"");
    out
}

/// Render one interface record as its JSON object.
pub fn json_interface(iface: &Interface) -> (r: String)
    ensures
        r@ == spec_json_interface(iface@),
{
    let mut out = String::from_str("{\"name\":");
    let name = json_string(iface.name());
    out.append(name.as_str());
    out.append(",\"addr\":");
    let addr = json_string(iface.addr());
    out.append(addr.as_str());
    out.append(",\"netmask\":");
    let mask = json_string(iface.netmask());
    out.append(mask.as_str());
    out.append("}");
    out
}

/// Render a listing of interface records as a JSON array.
pub fn json_interface_list(ifaces: &Vec<Interface>) -> (r: String)
    ensures
        r@ == spec_json_interface_list(ifaces.deep_view()),
{
    let mut out = String::from_str("[");
    proof {
        assert(out@ =~= "["@ + spec_json_items(ifaces.deep_view().subrange(0, 0)));
    }
    let n = ifaces.len();
    let mut i: usize = 0;
    while i < n
        invariant
            n == ifaces@.len(),
            i <= n,
            out@ == "["@ + spec_json_items(ifaces.deep_view().subrange(0, i as int)),
        decreases n - i,
    {
        if i > 0 {
            out.append(",");
        }
        let item = json_interface(&ifaces[i]);
        out.append(item.as_str());
        proof {
            let dv = ifaces.deep_view();
            assert(dv[i as int] == ifaces@[i as int]@);
            assert(dv.subrange(0, i + 1).drop_last() =~= dv.subrange(0, i as int));
            assert(dv.subrange(0, i + 1).last() == dv[i as int]);
            assert(out@ =~= "["@ + spec_json_items(dv.subrange(0, i + 1)));
        }
        i = i + 1;
    }
    out.append("]");
    proof {
        assert(ifaces.deep_view().subrange(0, n as int) =~= ifaces.deep_view());
    }
    out
}

} // verus!
