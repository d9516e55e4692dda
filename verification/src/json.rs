//! Verified rendering of the JSON documents the pipeline persists:
//! string escaping, quoted strings, and the pretty-printed array block
//! shared by the audit records and the paper ledger.

use vstd::prelude::*;
use vstd::string::StrSliceExecFns;
use vstd::string::StringExecFns;
use crate::numfmt::digit_char;

verus! {

/// Lower-case hexadecimal digit character for `d` (`d < 16`).
pub open spec fn hex_char(d: int) -> char {
    if d < 10 {
        digit_char(d)
    } else if d == 10 {
        'a'
    } else if d == 11 {
        'b'
    } else if d == 12 {
        'c'
    } else if d == 13 {
        'd'
    } else if d == 14 {
        'e'
    } else {
        'f'
    }
}

/// The escape sequence a character contributes inside a JSON string:
/// quote, backslash and the common control characters get two-character
/// escapes, other control characters get `\u00XX`, everything else
/// stands for itself.
pub open spec fn escape_char(c: char) -> Seq<char> {
    if c == '"' {
        seq!['\\', '"']
    } else if c == '\\' {
        seq!['\\', '\\']
    } else if c == '\n' {
        seq!['\\', 'n']
    } else if c == '\r' {
        seq!['\\', 'r']
    } else if c == '\t' {
        seq!['\\', 't']
    } else if (c as int) < 32 {
        seq!['\\', 'u', '0', '0', hex_char((c as int) / 16), hex_char((c as int) % 16)]
    } else {
        seq![c]
    }
}

/// JSON escaping of a whole character sequence.
pub open spec fn json_escape(s: Seq<char>) -> Seq<char>
    decreases s.len(),
{
    if s.len() == 0 {
        Seq::empty()
    } else {
        json_escape(s.drop_last()) + escape_char(s.last())
    }
}

/// A JSON string token: the escaped text between double quotes.
pub open spec fn json_string(s: Seq<char>) -> Seq<char> {
    seq!['"'] + json_escape(s) + seq!['"']
}

fn hex_digit_str(d: u32) -> (r: &'static str)
    requires
        d < 16,
    ensures
        r@ == seq![hex_char(d as int)],
{
    proof {
        reveal_strlit("0");
        reveal_strlit("1");
        reveal_strlit("2");
        reveal_strlit("3");
        reveal_strlit("4");
        reveal_strlit("5");
        reveal_strlit("6");
        reveal_strlit("7");
        reveal_strlit("8");
        reveal_strlit("9");
        reveal_strlit("a");
        reveal_strlit("b");
        reveal_strlit("c");
        reveal_strlit("d");
        reveal_strlit("e");
        reveal_strlit("f");
    }
    let r = match d {
        0 => "0",
        1 => "1",
        2 => "2",
        3 => "3",
        4 => "4",
        5 => "5",
        6 => "6",
        7 => "7",
        8 => "8",
        9 => "9",
        10 => "a",
        11 => "b",
        12 => "c",
        13 => "d",
        14 => "e",
        _ => "f",
    };
    proof {
        assert(r@ =~= seq![hex_char(d as int)]);
    }
    r
}

/// Escapes `s` for inclusion in a JSON string token.
pub fn escape_json(s: &str) -> (r: String)
    ensures
        r@ == json_escape(s@),
{
    let len = s.unicode_len();
    let mut acc = String::new();
    let mut i: usize = 0;
    while i < len
        invariant
            len == s@.len(),
            i <= len,
            acc@ == json_escape(s@.subrange(0, i as int)),
        decreases len - i,
    {
        let c = s.get_char(i);
        if c == '"' {
            acc.append("\\\"");
            proof {
                reveal_strlit("\\\"");
                assert("\\\""@ =~= escape_char(c));
            }
        } else if c == '\\' {
            acc.append("\\\\");
            proof {
                reveal_strlit("\\\\");
                assert("\\\\"@ =~= escape_char(c));
            }
        } else if c == '\n' {
            acc.append("\\n");
            proof {
                reveal_strlit("\\n");
                assert("\\n"@ =~= escape_char(c));
            }
        } else if c == '\r' {
            acc.append("\\r");
            proof {
                reveal_strlit("\\r");
                assert("\\r"@ =~= escape_char(c));
            }
        } else if c == '\t' {
            acc.append("\\t");
            proof {
                reveal_strlit("\\t");
                assert("\\t"@ =~= escape_char(c));
            }
        } else if (c as u32) < 32 {
            let code = c as u32;
            acc.append("\\u00");
            acc.append(hex_digit_str(code / 16));
            acc.append(hex_digit_str(code % 16));
            proof {
                reveal_strlit("\\u00");
                assert("\\u00"@ + seq![hex_char((c as int) / 16)] + seq![
                    hex_char((c as int) % 16),
                ] =~= escape_char(c));
            }
        } else {
            let piece = s.substring_char(i, i + 1);
            acc.append(piece);
            proof {
                assert(piece@ =~= escape_char(c));
            }
        }
        proof {
            let pre = s@.subrange(0, i as int);
            let cur = s@.subrange(0, i + 1 as int);
            assert(cur.drop_last() =~= pre);
            assert(cur.last() == c);
            assert(acc@ =~= json_escape(cur));
        }
        i += 1;
    }
    proof {
        assert(s@.subrange(0, len as int) =~= s@);
    }
    acc
}

/// Renders `s` as a JSON string token.
pub fn render_json_string(s: &str) -> (r: String)
    ensures
        r@ == json_string(s@),
{
    let mut acc = String::from_str("\"");
    acc.append(escape_json(s).as_str());
    acc.append("\"");
    proof {
        reveal_strlit("\"");
        assert(acc@ =~= json_string(s@));
    }
    acc
}

/// The pre-rendered array items up to index `i`, joined by the
/// separator used inside a pretty-printed array block.
pub open spec fn joined_items(items: Seq<Seq<char>>, i: int) -> Seq<char>
    decreases i,
{
    if i <= 0 {
        Seq::empty()
    } else if i == 1 {
        items[0]
    } else {
        joined_items(items, i - 1) + ",\n    "@ + items[i - 1]
    }
}

/// A pretty-printed array block holding the pre-rendered `items`:
/// `[]` when empty, otherwise one item per line, indented for a field
/// at the top level of a document.
pub open spec fn array_block(items: Seq<Seq<char>>) -> Seq<char> {
    if items.len() == 0 {
        "[]"@
    } else {
        "[\n    "@ + joined_items(items, items.len() as int) + "\n  ]"@
    }
}

/// Renders an array block from already-rendered item texts.
pub fn render_array_block(rendered: &Vec<String>) -> (r: String)
    ensures
        r@ == array_block(rendered.deep_view()),
{
    if rendered.len() == 0 {
        return String::from_str("[]");
    }
    let ghost dv = rendered.deep_view();
    let mut acc = String::from_str("[\n    ");
    let mut i: usize = 0;
    while i < rendered.len()
        invariant
            0 < rendered.len() == dv.len(),
            dv == rendered.deep_view(),
            i <= rendered.len(),
            acc@ == "[\n    "@ + joined_items(dv, i as int),
        decreases rendered.len() - i,
    {
        if i > 0 {
            acc.append(",\n    ");
        }
        acc.append(rendered[i].as_str());
        proof {
            assert(dv[i as int] == rendered@[i as int]@);
            assert(acc@ =~= "[\n    "@ + joined_items(dv, i + 1 as int));
        }
        i += 1;
    }
    acc.append("\n  ]");
    proof {
        assert(acc@ =~= array_block(dv));
    }
    acc
}

/// The items of a string array: each element as a JSON string token.
pub open spec fn json_string_items(items: Seq<Seq<char>>) -> Seq<Seq<char>> {
    items.map_values(|s: Seq<char>| json_string(s))
}

/// Renders an array block whose items are the given strings, each as a
/// JSON string token.
pub fn render_string_array(items: &Vec<String>) -> (r: String)
    ensures
        r@ == array_block(json_string_items(items.deep_view())),
{
    let ghost dv = items.deep_view();
    let mut rendered: Vec<String> = Vec::new();
    let mut i: usize = 0;
    while i < items.len()
        invariant
            items.len() == dv.len(),
            dv == items.deep_view(),
            i <= items.len(),
            rendered.deep_view() =~= json_string_items(dv).take(i as int),
        decreases items.len() - i,
    {
        let token = render_json_string(items[i].as_str());
        let ghost prev = rendered.deep_view();
        let ghost token_view = token@;
        rendered.push(token);
        proof {
            assert(dv[i as int] == items@[i as int]@);
            assert forall|j: int| 0 <= j < prev.len() implies rendered.deep_view()[j] == prev[j] by {
                assert(rendered@[j] == rendered@.drop_last()[j]);
            }
            assert(rendered.deep_view() =~= prev.push(token_view));
            assert(rendered.deep_view() =~= json_string_items(dv).take(i + 1 as int));
        }
        i += 1;
    }
    proof {
        assert(rendered.deep_view() =~= json_string_items(dv));
    }
    render_array_block(&rendered)
}

} // verus!
