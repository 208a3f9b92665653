//! The JSON texts that the repositories store: strings as `serde_json` writes them,
//! and arrays and objects framed around them in its compact layout.

use vstd::prelude::*;
use crate::text::string_from_str;

verus! {

/// The lower-case hexadecimal digit of `d` (for `0 <= d < 16`).
pub open spec fn hex_digit(d: int) -> char {
    if d < 10 {
        (d + 48) as char
    } else {
        (d + 87) as char
    }
}

/// How `serde_json` writes one character inside a string: the quote and the backslash
/// escaped, the control characters as `\b`, `\t`, `\n`, `\f`, `\r` or `\u00xx`, every
/// other character as it is.
pub open spec fn json_char(c: char) -> Seq<char> {
    let v = c as u32;
    if c == '"' {
        seq!['\\', '"']
    } else if c == '\\' {
        seq!['\\', '\\']
    } else if v == 8 {
        seq!['\\', 'b']
    } else if v == 9 {
        seq!['\\', 't']
    } else if v == 10 {
        seq!['\\', 'n']
    } else if v == 12 {
        seq!['\\', 'f']
    } else if v == 13 {
        seq!['\\', 'r']
    } else if v < 32 {
        seq!['\\', 'u', '0', '0', hex_digit(v as int / 16), hex_digit(v as int % 16)]
    } else {
        seq![c]
    }
}

/// The characters of `s`, each written as `json_char` says.
pub open spec fn json_escape(s: Seq<char>) -> Seq<char>
    decreases s.len(),
{
    if s.len() == 0 {
        Seq::empty()
    } else {
        json_escape(s.drop_last()) + json_char(s.last())
    }
}

/// The JSON string of `s`.
pub open spec fn json_string(s: Seq<char>) -> Seq<char> {
    seq!['"'] + json_escape(s) + seq!['"']
}

/// JSON texts joined by commas.
pub open spec fn json_list(items: Seq<Seq<char>>) -> Seq<char>
    decreases items.len(),
{
    if items.len() == 0 {
        Seq::empty()
    } else if items.len() == 1 {
        items[0]
    } else {
        json_list(items.drop_last()) + seq![','] + items.last()
    }
}

/// The compact JSON array of the given element texts.
pub open spec fn json_array(items: Seq<Seq<char>>) -> Seq<char> {
    seq!['['] + json_list(items) + seq![']']
}

/// The JSON array of strings, as `serde_json::to_string` writes a `Vec<String>`.
pub open spec fn json_string_array(v: Seq<Seq<char>>) -> Seq<char> {
    json_array(v.map_values(|s: Seq<char>| json_string(s)))
}

/// The views of a list of strings.
pub open spec fn strings_view(v: Seq<String>) -> Seq<Seq<char>> {
    v.map_values(|s: String| s@)
}

/// `serde_json::to_string(s)` for a string: its JSON string. The crate writes a quote,
/// the characters with the quote, the backslash and the control characters escaped
/// through its `ESCAPE` table (`\b \t \n \f \r`, other controls as `\u00` and two
/// lower-case hexadecimal digits), and a quote; serialising a string cannot fail.
#[verifier::external_body]
pub(crate) fn json_encode_string(s: &str) -> (r: String)
    ensures
        r@ == json_string(s@),
{
    match serde_json::to_string(s) {
        Ok(t) => t,
        Err(e) => e.to_string(),
    }
}

/// The strings that `serde_json` reads from a JSON array of strings, or `None` where
/// `s` is not one.
pub uninterp spec fn json_strings_parse(s: Seq<char>) -> Option<Seq<Seq<char>>>;

/// `serde_json::from_str::<Vec<String>>(s).ok()`. The result is named; the crate reads
/// back what it writes, so the array of strings `v` written as `json_string_array`
/// says is read as `v`.
#[verifier::external_body]
pub fn json_decode_strings(s: &str) -> (r: Option<Vec<String>>)
    ensures
        json_strings_parse(s@) == match r {
            Some(x) => Some(strings_view(x@)),
            None => None,
        },
        forall|v: Seq<Seq<char>>|
            #[trigger] json_string_array(v) == s@ ==> r is Some && strings_view(r->0@) == v,
{
    serde_json::from_str::<Vec<String>>(s).ok()
}

/// What `serde_json` reads from `s` as a JSON value: `Some(true)` for an array,
/// `Some(false)` for any other value, `None` where `s` is not JSON.
pub uninterp spec fn json_kind(s: Seq<char>) -> Option<bool>;

/// `serde_json::from_str::<serde_json::Value>(s)`, telling an array from the other
/// values. The result is named. (A `Vec<serde_json::Value>` reads from exactly the
/// texts that read as an array.)
#[verifier::external_body]
pub fn json_value_kind(s: &str) -> (r: Option<bool>)
    ensures
        r == json_kind(s@),
{
    match serde_json::from_str::<serde_json::Value>(s) {
        Ok(serde_json::Value::Array(_)) => Some(true),
        Ok(_) => Some(false),
        Err(_) => None,
    }
}

pub proof fn lemma_json_list_step(items: Seq<Seq<char>>, i: int)
    requires
        0 <= i < items.len(),
    ensures
        json_list(items.take(i + 1)) == if i == 0 {
            items[0]
        } else {
            json_list(items.take(i)) + seq![','] + items[i]
        },
{
    let t = items.take(i + 1);
    assert(t.drop_last() =~= items.take(i));
    assert(t.last() == items[i]);
    if i == 0 {
        assert(t.len() == 1);
        assert(t[0] == items[0]);
    }
}

/// Appends `text` to `out`, preceded by a comma where `out` already holds an element.
pub(crate) fn push_element(out: &mut String, text: &str, first: bool)
    ensures
        final(out)@ == if first {
            old(out)@ + text@
        } else {
            old(out)@ + seq![','] + text@
        },
{
    if !first {
        out.append(",");
        proof {
            reveal_strlit(",");
        }
    }
    out.append(text);
}

/// The JSON array of the strings, as `serde_json::to_string` writes a `Vec<String>`:
/// each string through `serde_json`, framed as a compact array.
pub fn encode_string_array(items: &Vec<String>) -> (r: String)
    ensures
        r@ == json_string_array(strings_view(items@)),
{
    let ghost texts = strings_view(items@).map_values(|s: Seq<char>| json_string(s));
    let mut out = string_from_str("[");
    proof {
        reveal_strlit("[");
        reveal_strlit("]");
        assert(texts.take(0) =~= Seq::<Seq<char>>::empty());
    }
    let mut i: usize = 0;
    while i < items.len()
        invariant
            i <= items@.len(),
            texts.len() == items@.len(),
            forall|j: int| 0 <= j < items@.len() ==> #[trigger] texts[j] == json_string(items@[j]@),
            out@ == seq!['['] + json_list(texts.take(i as int)),
        decreases items@.len() - i,
    {
        let e = json_encode_string(items[i].as_str());
        proof {
            lemma_json_list_step(texts, i as int);
        }
        push_element(&mut out, e.as_str(), i == 0);
        i = i + 1;
    }
    out.append("]");
    assert(texts.take(items@.len() as int) =~= texts);
    out
}

} // verus!
