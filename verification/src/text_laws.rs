//! What operations on text are for.

use vstd::prelude::*;
#[allow(unused_imports)]
use vstd::string::*;

#[allow(unused_imports)]
use crate::outside;
#[allow(unused_imports)]
use crate::text;

verus! {

// ---------------------------------------------------------------- white space

/// Whether a text holds nothing but white space.
pub open spec fn all_space(text: Seq<char>) -> bool {
    forall|i: int| 0 <= i < text.len() ==> text::is_space(#[trigger] text[i])
}

/// Whether a text neither begins nor ends with white space.
pub open spec fn bare(text: Seq<char>) -> bool {
    text.len() > 0 ==> !text::is_space(text[0]) && !text::is_space(text[text.len() - 1])
}

/// White space is the space, the tabulators, the line ends and the wider spaces; nothing else that
/// can be typed is: no letter, no digit and no sign of ASCII.
pub proof fn lemma_white_space(c: char)
    ensures
        text::is_space(c) <==> c == ' ' || c == '\t' || c == '\n' || c == '\u{b}' || c == '\u{c}' || c
            == '\r' || c == '\u{85}' || c == '\u{a0}' || c == '\u{1680}' || ('\u{2000}' <= c
            <= '\u{200a}') || c == '\u{2028}' || c == '\u{2029}' || c == '\u{202f}' || c
            == '\u{205f}' || c == '\u{3000}',
        '!' <= c <= '~' ==> !text::is_space(c),
{
}

proof fn lemma_front_goes(front: Seq<char>, rest: Seq<char>)
    requires
        all_space(front),
    ensures
        text::trim_front(front + rest) == text::trim_front(rest),
    decreases front.len(),
{
    if front.len() == 0 {
        assert(front + rest =~= rest);
    } else {
        let less = front.skip(1);
        assert forall|i: int| 0 <= i < less.len() implies text::is_space(#[trigger] less[i]) by {
            assert(less[i] == front[i + 1]);
        }
        assert((front + rest)[0] == front[0]);
        assert((front + rest).skip(1) =~= less + rest);
        lemma_front_goes(less, rest);
    }
}

proof fn lemma_back_goes(rest: Seq<char>, back: Seq<char>)
    requires
        all_space(back),
    ensures
        text::trim_back(rest + back) == text::trim_back(rest),
    decreases back.len(),
{
    if back.len() == 0 {
        assert(rest + back =~= rest);
    } else {
        let less = back.drop_last();
        assert forall|i: int| 0 <= i < less.len() implies text::is_space(#[trigger] less[i]) by {
            assert(less[i] == back[i]);
        }
        assert((rest + back).last() == back[back.len() - 1]);
        assert((rest + back).drop_last() =~= rest + less);
        lemma_back_goes(rest, less);
    }
}

/// Whatever white space stands around a text, it is the text that is left without it.
pub proof fn lemma_trimmed_is_what_stands_between(
    front: Seq<char>,
    inner: Seq<char>,
    back: Seq<char>,
)
    requires
        all_space(front),
        all_space(back),
        bare(inner),
    ensures
        text::trimmed(front + inner + back) == inner,
        text::blank(front + inner + back) <==> inner.len() == 0,
{
    assert(front + inner + back =~= front + (inner + back));
    lemma_front_goes(front, inner + back);
    if inner.len() == 0 {
        assert(inner + back =~= back + Seq::<char>::empty());
        lemma_front_goes(back, Seq::empty());
    } else {
        assert((inner + back)[0] == inner[0]);
        lemma_back_goes(inner, back);
        assert(inner.last() == inner[inner.len() - 1]);
    }
}

proof fn lemma_front_parts(text: Seq<char>) -> (at: int)
    ensures
        0 <= at <= text.len(),
        text::trim_front(text) == text.skip(at),
        all_space(text.take(at)),
        at < text.len() ==> !text::is_space(text[at]),
    decreases text.len(),
{
    if text.len() > 0 && text::is_space(text[0]) {
        let at = lemma_front_parts(text.skip(1));
        assert(text.skip(1).skip(at) =~= text.skip(at + 1));
        assert forall|i: int| 0 <= i < at + 1 implies text::is_space(
            #[trigger] text.take(at + 1)[i],
        ) by {
            if i > 0 {
                assert(text.take(at + 1)[i] == text.skip(1).take(at)[i - 1]);
            }
        }
        at + 1
    } else {
        assert(text.skip(0) =~= text);
        0
    }
}

proof fn lemma_back_parts(text: Seq<char>) -> (at: int)
    ensures
        0 <= at <= text.len(),
        text::trim_back(text) == text.take(at),
        all_space(text.skip(at)),
        at > 0 ==> !text::is_space(text[at - 1]),
    decreases text.len(),
{
    if text.len() > 0 && text::is_space(text.last()) {
        let at = lemma_back_parts(text.drop_last());
        assert(text.drop_last().take(at) =~= text.take(at));
        assert forall|i: int| 0 <= i < text.len() - at implies text::is_space(
            #[trigger] text.skip(at)[i],
        ) by {
            if i < text.len() - 1 - at {
                assert(text.skip(at)[i] == text.drop_last().skip(at)[i]);
            }
        }
        at
    } else {
        assert(text.take(text.len() as int) =~= text);
        text.len() as int
    }
}

/// Every text is what is left without the white space around it, between two stretches of white
/// space.
pub proof fn lemma_trimmed_parts(text: Seq<char>) -> (parts: (Seq<char>, Seq<char>))
    ensures
        text == parts.0 + text::trimmed(text) + parts.1,
        all_space(parts.0),
        all_space(parts.1),
        bare(text::trimmed(text)),
{
    let from = lemma_front_parts(text);
    let rest = text.skip(from);
    let to = lemma_back_parts(rest);
    let inner = rest.take(to);
    assert(text =~= text.take(from) + inner + rest.skip(to));
    if inner.len() > 0 {
        assert(inner[0] == rest[0]);
        assert(rest[0] == text[from]);
    }
    (text.take(from), rest.skip(to))
}

// ---------------------------------------------------------------- numbers

/// The number that a run of digits stands for, each digit by its place among the digits.
pub open spec fn value_of(digits: Seq<char>) -> int
    decreases digits.len(),
{
    if digits.len() == 0 {
        0
    } else {
        10 * value_of(digits.drop_last()) + (digits.last() as int - '0' as int)
    }
}

/// Whether a text holds nothing but digits, and one at least.
pub open spec fn all_digits(text: Seq<char>) -> bool {
    text.len() > 0 && forall|i: int| 0 <= i < text.len() ==> '0' <= #[trigger] text[i] <= '9'
}

/// The decimal form of a number is made of digits, stands for that number, and has no zero in front
/// that it does not need.
pub proof fn lemma_decimal_stands_for_the_number(n: nat)
    ensures
        all_digits(text::decimal(n)),
        value_of(text::decimal(n)) == n,
        text::decimal(n).len() > 1 ==> text::decimal(n)[0] != '0',
    decreases n,
{
    let shown = text::decimal(n);
    if n >= 10 {
        lemma_decimal_stands_for_the_number(n / 10);
        let front = text::decimal(n / 10);
        assert(shown.drop_last() =~= front);
        assert forall|i: int| 0 <= i < shown.len() implies '0' <= #[trigger] shown[i] <= '9' by {
            if i < front.len() {
                assert(shown[i] == front[i]);
            }
        }
        assert(shown[0] == front[0]);
        if front.len() == 1 {
            assert(value_of(front.drop_last()) == 0);
            assert(n / 10 > 0);
        }
    } else {
        assert(shown.drop_last() =~= Seq::<char>::empty());
        assert(value_of(shown.drop_last()) == 0);
    }
}

proof fn lemma_same_value(digits: Seq<char>)
    requires
        forall|i: int| 0 <= i < digits.len() ==> '0' <= #[trigger] digits[i] <= '9',
    ensures
        text::digits_value(digits) == value_of(digits),
        value_of(digits) >= 0,
    decreases digits.len(),
{
    if digits.len() > 0 {
        let less = digits.drop_last();
        assert forall|i: int| 0 <= i < less.len() implies '0' <= #[trigger] less[i] <= '9' by {
            assert(less[i] == digits[i]);
        }
        lemma_same_value(less);
        assert('0' <= digits[digits.len() - 1] <= '9');
    }
}

/// A number that is written out, with or without a plus sign, is read as that number where it is
/// not too great; what is not made of digits is no number.
pub proof fn lemma_numbers_are_read(digits: Seq<char>, max: nat)
    ensures
        all_digits(digits) && value_of(digits) <= max ==> {
            &&& text::unsigned_reading(digits, max) == Some(value_of(digits) as nat)
            &&& text::unsigned_reading(seq!['+'] + digits, max) == Some(value_of(digits) as nat)
        },
        all_digits(digits) && value_of(digits) > max ==> {
            &&& text::unsigned_reading(digits, max) is None
            &&& text::unsigned_reading(seq!['+'] + digits, max) is None
        },
        !all_digits(digits) ==> text::unsigned_reading(seq!['+'] + digits, max) is None,
        !all_digits(digits) && !(digits.len() > 0 && digits[0] == '+') ==> text::unsigned_reading(
            digits,
            max,
        ) is None,
{
    let signed = seq!['+'] + digits;
    assert(signed.skip(1) =~= digits);
    if all_digits(digits) {
        lemma_same_value(digits);
        assert forall|i: int| 0 <= i < digits.len() implies text::is_digit(
            #[trigger] digits[i],
        ) by {}
        assert('0' <= digits[0] <= '9');
    } else if digits.len() > 0 {
        let i = choose|i: int| 0 <= i < digits.len() && !('0' <= #[trigger] digits[i] <= '9');
        assert(!text::is_digit(digits[i]));
    }
}

// ---------------------------------------------------------------- splitting, joining, replacing

/// Whether a character does not stand in a text.
pub open spec fn free_of(text: Seq<char>, c: char) -> bool {
    forall|i: int| 0 <= i < text.len() ==> #[trigger] text[i] != c
}

/// The pieces of a text hold no separator, and with a separator between each two they are the text
/// again.
pub proof fn lemma_pieces_make_the_text(text: Seq<char>, separator: char)
    ensures
        text::pieces(text, separator).len() > 0,
        forall|i: int|
            0 <= i < text::pieces(text, separator).len() ==> free_of(
                #[trigger] text::pieces(text, separator)[i],
                separator,
            ),
        text::joined(text::pieces(text, separator), seq![separator]) == text,
    decreases text.len(),
{
    let all = text::pieces(text, separator);
    let between = seq![separator];
    if text.len() > 0 {
        let less = text.drop_last();
        let front = text::pieces(less, separator);
        lemma_pieces_make_the_text(less, separator);
        if text.last() == separator {
            assert(all.drop_last() =~= front);
            assert(all.last() =~= Seq::<char>::empty());
            assert(text::joined(all, between) =~= less + between);
            assert(text =~= less + between);
        } else {
            let piece = front.last();
            let longer = piece.push(text.last());
            assert(all.drop_last() =~= front.drop_last());
            assert(free_of(front[front.len() - 1], separator));
            assert forall|i: int| 0 <= i < longer.len() implies #[trigger] longer[i]
                != separator by {
                if i < piece.len() {
                    assert(longer[i] == piece[i]);
                }
            }
            assert forall|i: int| 0 <= i < all.len() implies free_of(
                #[trigger] all[i],
                separator,
            ) by {
                if i < front.len() - 1 {
                    assert(all[i] == front[i]);
                }
            }
            if front.len() == 1 {
                assert(front[0] == piece);
                assert(all.len() == 1 && all[0] == longer);
                assert(text::joined(front, between) == piece);
                assert(longer =~= text);
            } else {
                let others = text::joined(front.drop_last(), between);
                assert(text::joined(front, between) == others + between + piece);
                assert(all.len() > 1 && all.last() == longer);
                assert(text::joined(all, between) == others + between + longer);
                assert(others + between + longer =~= (others + between + piece).push(text.last()));
                assert(text =~= less.push(text.last()));
            }
        }
    }
}

/// A text is joined to the others behind the separator, and to none without it.
pub proof fn lemma_joining(parts: Seq<Seq<char>>, separator: Seq<char>, last: Seq<char>)
    ensures
        parts.len() > 0 ==> text::joined(parts.push(last), separator) == text::joined(
            parts,
            separator,
        ) + separator + last,
        parts.len() == 0 ==> text::joined(parts.push(last), separator) == last,
{
    assert(parts.push(last).drop_last() =~= parts);
}

/// Where a character is replaced by another, every other character stays in its place.
pub proof fn lemma_replacing(text: Seq<char>, c: char, with: char)
    ensures
        text::replaced(text, c, seq![with]).len() == text.len(),
        forall|i: int|
            0 <= i < text.len() ==> #[trigger] text::replaced(text, c, seq![with])[i] == if text[i]
                == c {
                with
            } else {
                text[i]
            },
    decreases text.len(),
{
    if text.len() > 0 {
        let less = text.drop_last();
        lemma_replacing(less, c, with);
        let all = text::replaced(text, c, seq![with]);
        assert forall|i: int| 0 <= i < text.len() implies #[trigger] all[i] == if text[i] == c {
            with
        } else {
            text[i]
        } by {
            if i < less.len() {
                assert(all[i] == text::replaced(less, c, seq![with])[i]);
                assert(less[i] == text[i]);
            }
        }
    }
}

/// A text stands in every text that is made by putting something in front of it and behind it.
pub proof fn lemma_stands_between(front: Seq<char>, part: Seq<char>, back: Seq<char>)
    ensures
        text::stands_at(front + part + back, part, front.len() as int),
        text::holds_text(front + part + back, part),
{
    assert((front + part + back).subrange(front.len() as int, (front.len() + part.len()) as int)
        =~= part);
    assert(text::stands_at(front + part + back, part, front.len() as int));
}

/// What is behind a prefix, is what was put behind it.
pub proof fn lemma_behind_what_is_in_front(prefix: Seq<char>, rest: Seq<char>)
    ensures
        text::behind_prefix(prefix + rest, prefix) == Some(rest),
{
    assert((prefix + rest).subrange(0, prefix.len() as int) =~= prefix);
    assert((prefix + rest).skip(prefix.len() as int) =~= rest);
}

// ---------------------------------------------------------------- JSON strings

proof fn lemma_json_words()
    ensures
        "\\\""@ == seq!['\\', '"'],
        "\\\\"@ == seq!['\\', '\\'],
        "\\b"@ == seq!['\\', 'b'],
        "\\t"@ == seq!['\\', 't'],
        "\\n"@ == seq!['\\', 'n'],
        "\\f"@ == seq!['\\', 'f'],
        "\\r"@ == seq!['\\', 'r'],
        "\\u00"@ == seq!['\\', 'u', '0', '0'],
        "0123456789abcdef"@ == seq![
            '0', '1', '2', '3', '4', '5', '6', '7', '8', '9', 'a', 'b', 'c', 'd', 'e', 'f',
        ],
        "\""@ == seq!['"'],
{
    reveal_strlit("\\\"");
    reveal_strlit("\\\\");
    reveal_strlit("\\b");
    reveal_strlit("\\t");
    reveal_strlit("\\n");
    reveal_strlit("\\f");
    reveal_strlit("\\r");
    reveal_strlit("\\u00");
    reveal_strlit("0123456789abcdef");
    reveal_strlit("\"");
    assert("\\\""@ =~= seq!['\\', '"']);
    assert("\\\\"@ =~= seq!['\\', '\\']);
    assert("\\b"@ =~= seq!['\\', 'b']);
    assert("\\t"@ =~= seq!['\\', 't']);
    assert("\\n"@ =~= seq!['\\', 'n']);
    assert("\\f"@ =~= seq!['\\', 'f']);
    assert("\\r"@ =~= seq!['\\', 'r']);
    assert("\\u00"@ =~= seq!['\\', 'u', '0', '0']);
    assert("0123456789abcdef"@ =~= seq![
        '0', '1', '2', '3', '4', '5', '6', '7', '8', '9', 'a', 'b', 'c', 'd', 'e', 'f',
    ]);
    assert("\""@ =~= seq!['"']);
}

/// Whether nothing in a text has to be escaped in a JSON string.
pub open spec fn json_plain(text: Seq<char>) -> bool {
    forall|i: int|
        0 <= i < text.len() ==> #[trigger] text[i] != '"' && text[i] != '\\' && text[i] >= ' '
}

/// A text in which nothing has to be escaped stands in its JSON string as it is.
pub proof fn lemma_plain_json(text: Seq<char>)
    requires
        json_plain(text),
    ensures
        outside::json_string(text) == seq!['"'] + text + seq!['"'],
{
    lemma_json_words();
    lemma_plain_chars(text);
}

proof fn lemma_plain_char(c: char)
    requires
        c != '"',
        c != '\\',
        c >= ' ',
    ensures
        outside::json_char(c) == seq![c],
{
}

proof fn lemma_plain_chars(text: Seq<char>)
    requires
        json_plain(text),
    ensures
        outside::json_chars(text) == text,
    decreases text.len(),
{
    if text.len() > 0 {
        let less = text.drop_last();
        assert forall|i: int| 0 <= i < less.len() implies #[trigger] less[i] != '"' && less[i]
            != '\\' && less[i] >= ' ' by {
            assert(less[i] == text[i]);
        }
        lemma_plain_chars(less);
        assert(text[text.len() - 1] == text.last());
        lemma_plain_char(text.last());
        assert(outside::json_chars(text) =~= text);
    } else {
        assert(outside::json_chars(text) =~= text);
    }
}

proof fn lemma_chars_front(text: Seq<char>)
    requires
        text.len() > 0,
    ensures
        outside::json_chars(text) == outside::json_char(text[0]) + outside::json_chars(
            text.skip(1),
        ),
    decreases text.len(),
{
    if text.len() == 1 {
        assert(text.drop_last() =~= Seq::<char>::empty());
        assert(text.skip(1) =~= Seq::<char>::empty());
        assert(outside::json_chars(text) =~= outside::json_char(text[0]) + outside::json_chars(
            text.skip(1),
        ));
    } else {
        lemma_chars_front(text.drop_last());
        assert(text.skip(1).drop_last() =~= text.drop_last().skip(1));
        assert(outside::json_chars(text) =~= outside::json_char(text[0]) + outside::json_chars(
            text.skip(1),
        ));
    }
}

proof fn lemma_char_tells(a: char, b: char, x: Seq<char>, y: Seq<char>)
    requires
        outside::json_char(a) + x == outside::json_char(b) + y,
    ensures
        a == b,
        x == y,
{
    lemma_json_words();
    let left = outside::json_char(a) + x;
    let right = outside::json_char(b) + y;
    assert(outside::json_char(a).len() > 0);
    assert(outside::json_char(b).len() > 0);
    assert(left[0] == outside::json_char(a)[0]);
    assert(right[0] == outside::json_char(b)[0]);
    if outside::json_char(a).len() > 1 && outside::json_char(b).len() > 1 {
        assert(left[1] == outside::json_char(a)[1]);
        assert(right[1] == outside::json_char(b)[1]);
        if outside::json_char(a).len() > 2 && outside::json_char(b).len() > 2 {
            assert(left[4] == outside::json_char(a)[4]);
            assert(right[4] == outside::json_char(b)[4]);
            assert(left[5] == outside::json_char(a)[5]);
            assert(right[5] == outside::json_char(b)[5]);
        }
    }
    assert(a == b);
    assert(x =~= left.skip(outside::json_char(a).len() as int));
    assert(y =~= right.skip(outside::json_char(b).len() as int));
}

proof fn lemma_chars_tell(a: Seq<char>, b: Seq<char>)
    requires
        outside::json_chars(a) == outside::json_chars(b),
    ensures
        a == b,
    decreases a.len() + b.len(),
{
    lemma_json_words();
    if a.len() == 0 || b.len() == 0 {
        if a.len() > 0 {
            lemma_chars_front(a);
            assert(outside::json_chars(a).len() > 0);
        }
        if b.len() > 0 {
            lemma_chars_front(b);
            assert(outside::json_chars(b).len() > 0);
        }
        assert(a =~= b);
    } else {
        lemma_chars_front(a);
        lemma_chars_front(b);
        lemma_char_tells(
            a[0],
            b[0],
            outside::json_chars(a.skip(1)),
            outside::json_chars(b.skip(1)),
        );
        lemma_chars_tell(a.skip(1), b.skip(1));
        assert(a =~= seq![a[0]] + a.skip(1));
        assert(b =~= seq![b[0]] + b.skip(1));
    }
}

/// Different texts have different JSON strings.
pub proof fn lemma_json_strings_tell_apart(a: Seq<char>, b: Seq<char>)
    requires
        outside::json_string(a) == outside::json_string(b),
    ensures
        a == b,
{
    lemma_json_words();
    let left = outside::json_string(a);
    let right = outside::json_string(b);
    assert(outside::json_chars(a) =~= left.subrange(1, left.len() - 1));
    assert(outside::json_chars(b) =~= right.subrange(1, right.len() - 1));
    lemma_chars_tell(a, b);
}

} // verus!
