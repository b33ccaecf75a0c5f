//! Writing JSON.

use vstd::prelude::*;
#[allow(unused_imports)]
use vstd::string::*;

use crate::outside::json_quote;
#[allow(unused_imports)]
use crate::outside;
use crate::text::join;
#[allow(unused_imports)]
use crate::text;

verus! {

proof fn lemma_char_one_line(c: char)
    ensures
        text::one_line(outside::json_char(c)),
{
    reveal_strlit("\\\"");
    reveal_strlit("\\\\");
    reveal_strlit("\\b");
    reveal_strlit("\\t");
    reveal_strlit("\\n");
    reveal_strlit("\\f");
    reveal_strlit("\\r");
    reveal_strlit("\\u00");
    reveal_strlit("0123456789abcdef");
}

proof fn lemma_chars_one_line(text: Seq<char>)
    ensures
        text::one_line(outside::json_chars(text)),
    decreases text.len(),
{
    if text.len() > 0 {
        lemma_chars_one_line(text.drop_last());
        lemma_char_one_line(text.last());
        text::lemma_lines_joined(
            outside::json_chars(text.drop_last()),
            outside::json_char(text.last()),
        );
    }
}

/// A text as a JSON string is a single line, whatever lines the text has.
pub broadcast proof fn lemma_string_one_line(text: Seq<char>)
    ensures
        text::one_line(#[trigger] outside::json_string(text)),
{
    reveal_strlit("\"");
    lemma_chars_one_line(text);
    text::lemma_lines_joined("\""@, outside::json_chars(text));
    text::lemma_lines_joined("\""@ + outside::json_chars(text), "\""@);
}

/// A list of texts as a JSON array of strings.
pub open spec fn string_array(list: Seq<Seq<char>>) -> Seq<char> {
    "["@ + text::joined(list.map_values(|t: Seq<char>| outside::json_string(t)), ","@) + "]"@
}

/// A truth value in JSON.
pub open spec fn truth(value: bool) -> Seq<char> {
    if value {
        "true"@
    } else {
        "false"@
    }
}

/// The list as a JSON array of strings.
pub fn string_array_text(list: &Vec<String>) -> (json: String)
    ensures
        json@ == string_array(text::texts(list@)),
{
    let mut items: Vec<String> = Vec::new();
    let mut i: usize = 0;
    let ghost all = text::texts(list@).map_values(|t: Seq<char>| outside::json_string(t));
    while i < list.len()
        invariant
            i <= list@.len(),
            all == text::texts(list@).map_values(|t: Seq<char>| outside::json_string(t)),
            text::texts(items@) == all.take(i as int),
        decreases list@.len() - i,
    {
        let ghost before = items@;
        items.push(json_quote(list[i].as_str()));
        proof {
            assert(text::texts(items@) =~= text::texts(before).push(all[i as int]));
            assert(all.take(i + 1) =~= all.take(i as int).push(all[i as int]));
        }
        i = i + 1;
    }
    proof {
        assert(all.take(i as int) =~= all);
    }
    "[".to_owned().concat(join(&items, ",").as_str()).concat("]")
}

/// The truth value in JSON.
pub fn truth_text(value: bool) -> (json: String)
    ensures
        json@ == truth(value),
{
    if value {
        "true".to_owned()
    } else {
        "false".to_owned()
    }
}

} // verus!
