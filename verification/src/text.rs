//! Operations on text, stated over sequences of characters.

use vstd::prelude::*;
#[allow(unused_imports)]
use vstd::string::*;
#[allow(unused_imports)]
use vstd::utf8::*;

use crate::outside::utf8_text;

verus! {

// ---------------------------------------------------------------- characters and copies

/// The characters of a text, in order.
pub fn chars_of(text: &str) -> (chars: Vec<char>)
    ensures
        chars@ == text@,
{
    let mut chars: Vec<char> = Vec::new();
    for c in it: text.chars()
        invariant
            it.seq() == text@,
            chars@ == text@.take(it.index()),
    {
        proof {
            assert(text@.take(it.index() + 1) =~= text@.take(it.index()).push(c));
        }
        chars.push(c);
    }
    proof {
        assert(text@.take(text@.len() as int) =~= text@);
    }
    chars
}

/// The text made of a stretch of characters.
pub fn text_of(chars: &Vec<char>, from: usize, to: usize) -> (text: String)
    requires
        from <= to <= chars@.len(),
    ensures
        text@ == chars@.subrange(from as int, to as int),
{
    let mut text: String = String::new();
    let mut i: usize = from;
    proof {
        assert(chars@.subrange(from as int, from as int) =~= text@);
    }
    while i < to
        invariant
            from <= i <= to <= chars@.len(),
            text@ == chars@.subrange(from as int, i as int),
        decreases to - i,
    {
        proof {
            assert(chars@.subrange(from as int, i + 1) =~= chars@.subrange(
                from as int,
                i as int,
            ).push(chars@[i as int]));
        }
        text.push(chars[i]);
        i = i + 1;
    }
    text
}

/// Whether two texts are the same.
pub fn same_text(a: &str, b: &str) -> (same: bool)
    ensures
        same == (a@ == b@),
{
    let x: Vec<char> = chars_of(a);
    let y: Vec<char> = chars_of(b);
    if x.len() != y.len() {
        return false;
    }
    let mut i: usize = 0;
    while i < x.len()
        invariant
            i <= x@.len(),
            x@ == a@,
            y@ == b@,
            x@.len() == y@.len(),
            forall|k: int| 0 <= k < i ==> x@[k] == y@[k],
        decreases x@.len() - i,
    {
        if x[i] != y[i] {
            return false;
        }
        i = i + 1;
    }
    proof {
        assert(a@ =~= b@);
    }
    true
}

// ---------------------------------------------------------------- white space

/// Whether a character is white space.
pub open spec fn is_space(c: char) -> bool {
    let code = c as u32;
    ||| 0x9 <= code <= 0xd
    ||| code == 0x20
    ||| code == 0x85
    ||| code == 0xa0
    ||| code == 0x1680
    ||| 0x2000 <= code <= 0x200a
    ||| code == 0x2028
    ||| code == 0x2029
    ||| code == 0x202f
    ||| code == 0x205f
    ||| code == 0x3000
}

fn is_space_char(c: char) -> (space: bool)
    ensures
        space == is_space(c),
{
    let code: u32 = c as u32;
    (0x9 <= code && code <= 0xd) || code == 0x20 || code == 0x85 || code == 0xa0 || code == 0x1680
        || (0x2000 <= code && code <= 0x200a) || code == 0x2028 || code == 0x2029 || code == 0x202f
        || code == 0x205f || code == 0x3000
}

/// A text without the white space at its front.
pub open spec fn trim_front(text: Seq<char>) -> Seq<char>
    decreases text.len(),
{
    if text.len() > 0 && is_space(text[0]) {
        trim_front(text.skip(1))
    } else {
        text
    }
}

/// A text without the white space at its back.
pub open spec fn trim_back(text: Seq<char>) -> Seq<char>
    decreases text.len(),
{
    if text.len() > 0 && is_space(text.last()) {
        trim_back(text.drop_last())
    } else {
        text
    }
}

/// A text without the white space around it.
pub open spec fn trimmed(text: Seq<char>) -> Seq<char> {
    trim_back(trim_front(text))
}

/// Whether a text holds nothing but white space.
pub open spec fn blank(text: Seq<char>) -> bool {
    trimmed(text).len() == 0
}

/// The text without the white space around it.
pub fn trim(text: &str) -> (inner: String)
    ensures
        inner@ == trimmed(text@),
{
    let chars: Vec<char> = chars_of(text);
    let mut from: usize = 0;
    proof {
        assert(chars@.skip(0) =~= chars@);
    }
    while from < chars.len() && is_space_char(chars[from])
        invariant
            from <= chars@.len(),
            trim_front(chars@) == trim_front(chars@.skip(from as int)),
        decreases chars@.len() - from,
    {
        proof {
            assert(chars@.skip(from as int).skip(1) =~= chars@.skip(from + 1));
        }
        from = from + 1;
    }
    proof {
        assert(trim_front(chars@) == chars@.skip(from as int));
    }
    let mut to: usize = chars.len();
    proof {
        assert(chars@.subrange(from as int, to as int) =~= chars@.skip(from as int));
    }
    while to > from && is_space_char(chars[to - 1])
        invariant
            from <= to <= chars@.len(),
            trim_back(chars@.skip(from as int)) == trim_back(
                chars@.subrange(from as int, to as int),
            ),
        decreases to - from,
    {
        proof {
            assert(chars@.subrange(from as int, to as int).drop_last() =~= chars@.subrange(
                from as int,
                to - 1,
            ));
        }
        to = to - 1;
    }
    text_of(&chars, from, to)
}

/// Whether the text holds nothing but white space.
pub fn is_blank(text: &str) -> (yes: bool)
    ensures
        yes == blank(text@),
{
    trim(text).as_str().is_empty()
}

// ---------------------------------------------------------------- looking inside

/// Whether `part` stands in `text` at the position `at`.
pub open spec fn stands_at(text: Seq<char>, part: Seq<char>, at: int) -> bool {
    0 <= at && at + part.len() <= text.len() && text.subrange(at, at + part.len()) == part
}

/// Whether `part` stands somewhere in `text`.
pub open spec fn holds_text(text: Seq<char>, part: Seq<char>) -> bool {
    exists|at: int| stands_at(text, part, at)
}

fn stands_here(text: &Vec<char>, part: &Vec<char>, at: usize) -> (here: bool)
    requires
        at <= text@.len(),
    ensures
        here == stands_at(text@, part@, at as int),
{
    let length: usize = text.len();
    if length - at < part.len() {
        return false;
    }
    let mut i: usize = 0;
    while i < part.len()
        invariant
            i <= part@.len(),
            at + part@.len() <= length,
            length == text@.len(),
            forall|k: int| 0 <= k < i ==> text@[at + k] == part@[k],
        decreases part@.len() - i,
    {
        if text[at + i] != part[i] {
            proof {
                assert(text@.subrange(at as int, at + part@.len())[i as int] != part@[i as int]);
            }
            return false;
        }
        i = i + 1;
    }
    proof {
        assert(text@.subrange(at as int, at + part@.len()) =~= part@);
    }
    true
}

/// Whether `part` stands somewhere in `text`.
pub fn contains(text: &str, part: &str) -> (found: bool)
    ensures
        found == holds_text(text@, part@),
{
    let whole: Vec<char> = chars_of(text);
    let piece: Vec<char> = chars_of(part);
    let mut at: usize = 0;
    loop
        invariant
            at <= whole@.len(),
            whole@ == text@,
            piece@ == part@,
            forall|k: int| 0 <= k < at ==> !stands_at(text@, part@, k),
        decreases whole@.len() - at,
    {
        if stands_here(&whole, &piece, at) {
            return true;
        }
        if at == whole.len() {
            return false;
        }
        at = at + 1;
    }
}

/// The rest of a text behind a prefix; nothing where it does not begin with it.
pub open spec fn behind_prefix(text: Seq<char>, prefix: Seq<char>) -> Option<Seq<char>> {
    if stands_at(text, prefix, 0) {
        Some(text.skip(prefix.len() as int))
    } else {
        None
    }
}

/// The rest of `text` behind `prefix`, if it begins with it.
pub fn strip_prefix(text: &str, prefix: &str) -> (rest: Option<String>)
    ensures
        rest is Some == behind_prefix(text@, prefix@) is Some,
        rest matches Some(r) ==> r@ == behind_prefix(text@, prefix@)->0,
{
    let whole: Vec<char> = chars_of(text);
    let piece: Vec<char> = chars_of(prefix);
    if stands_here(&whole, &piece, 0) {
        proof {
            assert(whole@.subrange(piece@.len() as int, whole@.len() as int) =~= whole@.skip(
                piece@.len() as int,
            ));
        }
        Some(text_of(&whole, piece.len(), whole.len()))
    } else {
        None
    }
}

/// Whether `text` begins with the character `c`.
pub fn begins_with_char(text: &str, c: char) -> (yes: bool)
    ensures
        yes == (text@.len() > 0 && text@[0] == c),
{
    let whole: Vec<char> = chars_of(text);
    whole.len() > 0 && whole[0] == c
}

/// Whether a character of a text ends behind so many bytes.
pub open spec fn ends_behind(text: Seq<char>, count: int) -> bool {
    0 <= count <= encode_utf8(text).len() && is_char_boundary(encode_utf8(text), count)
}

/// The text that the first bytes of a text make.
pub open spec fn front_bytes(text: Seq<char>, count: int) -> Seq<char> {
    decode_utf8(encode_utf8(text).take(count))
}

/// The text that the first bytes of the text make.
pub fn front_text(text: &str, count: usize) -> (front: String)
    requires
        ends_behind(text@, count as int),
    ensures
        front@ == front_bytes(text@, count as int),
{
    broadcast use {encode_utf8_valid_utf8, encode_utf8_decode_utf8};

    let bytes: &[u8] = text.as_bytes();
    let mut first: Vec<u8> = Vec::new();
    let mut i: usize = 0;
    while i < count
        invariant
            i <= count <= bytes@.len(),
            first@ == bytes@.take(i as int),
        decreases count - i,
    {
        first.push(bytes[i]);
        proof {
            assert(bytes@.take(i + 1) =~= bytes@.take(i as int).push(bytes@[i as int]));
        }
        i = i + 1;
    }
    proof {
        valid_utf8_split(encode_utf8(text@), count as int);
        assert(first@ =~= encode_utf8(text@).subrange(0, count as int));
        assert(first@ =~= encode_utf8(text@).take(count as int));
    }
    match utf8_text(first.as_slice()) {
        Some(front) => front,
        None => String::new(),
    }
}

// ---------------------------------------------------------------- numbers

/// The character of a decimal digit.
pub open spec fn digit(d: nat) -> char {
    if d == 0 {
        '0'
    } else if d == 1 {
        '1'
    } else if d == 2 {
        '2'
    } else if d == 3 {
        '3'
    } else if d == 4 {
        '4'
    } else if d == 5 {
        '5'
    } else if d == 6 {
        '6'
    } else if d == 7 {
        '7'
    } else if d == 8 {
        '8'
    } else {
        '9'
    }
}

fn digit_char(d: u64) -> (c: char)
    requires
        d < 10,
    ensures
        c == digit(d as nat),
{
    match d {
        0 => '0',
        1 => '1',
        2 => '2',
        3 => '3',
        4 => '4',
        5 => '5',
        6 => '6',
        7 => '7',
        8 => '8',
        _ => '9',
    }
}

/// The decimal form of a number.
pub open spec fn decimal(n: nat) -> Seq<char>
    decreases n,
{
    if n < 10 {
        seq![digit(n)]
    } else {
        decimal(n / 10).push(digit(n % 10))
    }
}

/// The number in decimal form.
pub fn decimal_text(n: u64) -> (text: String)
    ensures
        text@ == decimal(n as nat),
    decreases n,
{
    if n < 10 {
        let mut text: String = String::new();
        text.push(digit_char(n));
        proof {
            assert(text@ =~= seq![digit(n as nat)]);
        }
        text
    } else {
        let mut text: String = decimal_text(n / 10);
        text.push(digit_char(n % 10));
        text
    }
}

/// Whether a character is a decimal digit of ASCII.
pub open spec fn is_digit(c: char) -> bool {
    '0' <= c <= '9'
}

/// The number that a run of digits stands for.
pub open spec fn digits_value(digits: Seq<char>) -> nat
    decreases digits.len(),
{
    if digits.len() == 0 {
        0
    } else {
        (digits_value(digits.drop_last()) * 10 + (digits.last() as u32 - 48)) as nat
    }
}

/// The digits of a number that is written with or without a plus sign.
pub open spec fn unsigned_digits(text: Seq<char>) -> Seq<char> {
    if text.len() > 0 && text[0] == '+' {
        text.skip(1)
    } else {
        text
    }
}

/// The unsigned number, no greater than `max`, that a text writes out: one digit at least, and
/// nothing but digits behind an optional plus sign.
pub open spec fn unsigned_reading(text: Seq<char>, max: nat) -> Option<nat> {
    let digits = unsigned_digits(text);
    if digits.len() > 0 && (forall|i: int| 0 <= i < digits.len() ==> is_digit(#[trigger] digits[i]))
        && digits_value(digits) <= max {
        Some(digits_value(digits))
    } else {
        None
    }
}

proof fn lemma_digits_grow(digits: Seq<char>, upto: int)
    requires
        0 <= upto <= digits.len(),
        forall|i: int| 0 <= i < digits.len() ==> is_digit(#[trigger] digits[i]),
    ensures
        digits_value(digits.take(upto)) <= digits_value(digits),
    decreases digits.len(),
{
    if upto == digits.len() {
        assert(digits.take(upto) =~= digits);
    } else {
        let less = digits.drop_last();
        assert forall|i: int| 0 <= i < less.len() implies is_digit(#[trigger] less[i]) by {
            assert(less[i] == digits[i]);
        }
        lemma_digits_grow(less, upto);
        assert(less.take(upto) =~= digits.take(upto));
        assert(is_digit(digits[digits.len() - 1]));
    }
}

/// The unsigned number, no greater than `max`, that the text writes out.
pub fn parse_unsigned(text: &str, max: u64) -> (number: Option<u64>)
    ensures
        number is Some == unsigned_reading(text@, max as nat) is Some,
        number matches Some(n) ==> n as nat == unsigned_reading(text@, max as nat)->0,
{
    let chars: Vec<char> = chars_of(text);
    let start: usize = if chars.len() > 0 && chars[0] == '+' {
        1
    } else {
        0
    };
    let ghost digits = unsigned_digits(text@);
    proof {
        assert(digits =~= chars@.skip(start as int));
    }
    if start == chars.len() {
        return None;
    }
    let mut value: u64 = 0;
    let mut i: usize = start;
    proof {
        assert(digits.take(0) =~= Seq::<char>::empty());
    }
    while i < chars.len()
        invariant
            start <= i <= chars@.len(),
            digits == chars@.skip(start as int),
            digits == unsigned_digits(text@),
            digits.len() == chars@.len() - start,
            digits.len() > 0,
            forall|k: int| 0 <= k < i - start ==> is_digit(#[trigger] digits[k]),
            value as nat == digits_value(digits.take(i - start)),
            value <= max,
        decreases chars@.len() - i,
    {
        let c: char = chars[i];
        proof {
            assert(digits[i - start] == c);
            assert(digits.take(i - start + 1).drop_last() =~= digits.take(i - start));
        }
        if c < '0' || c > '9' {
            return None;
        }
        let d: u64 = (c as u32 - 48) as u64;
        if value > (max - d.min(max)) / 10 || d > max {
            proof {
                let next = digits_value(digits.take(i - start + 1));
                assert(next == value * 10 + d);
                assert(next > max) by {
                    if d <= max {
                        assert(value >= (max - d) / 10 + 1);
                    }
                }
                if forall|k: int| 0 <= k < digits.len() ==> is_digit(#[trigger] digits[k]) {
                    lemma_digits_grow(digits, i - start + 1);
                }
            }
            return None;
        }
        value = value * 10 + d;
        i = i + 1;
    }
    proof {
        assert(digits.take(i - start) =~= digits);
    }
    Some(value)
}

// ---------------------------------------------------------------- replacing, splitting, joining

/// A text with each character `c` of it replaced.
pub open spec fn replaced(text: Seq<char>, c: char, with: Seq<char>) -> Seq<char>
    decreases text.len(),
{
    if text.len() == 0 {
        Seq::empty()
    } else if text.last() == c {
        replaced(text.drop_last(), c, with) + with
    } else {
        replaced(text.drop_last(), c, with).push(text.last())
    }
}

/// The text with each character `c` replaced.
pub fn replace_char(text: &str, c: char, with: &str) -> (out: String)
    ensures
        out@ == replaced(text@, c, with@),
{
    let chars: Vec<char> = chars_of(text);
    let mut out: String = String::new();
    let mut i: usize = 0;
    proof {
        assert(out@ =~= replaced(chars@.take(0), c, with@));
    }
    while i < chars.len()
        invariant
            i <= chars@.len(),
            out@ == replaced(chars@.take(i as int), c, with@),
        decreases chars@.len() - i,
    {
        proof {
            assert(chars@.take(i + 1).drop_last() =~= chars@.take(i as int));
            assert(chars@.take(i + 1).last() == chars@[i as int]);
        }
        if chars[i] == c {
            out.append(with);
        } else {
            out.push(chars[i]);
        }
        i = i + 1;
    }
    proof {
        assert(chars@.take(i as int) =~= text@);
    }
    out
}

/// A text with each stretch `part` of it replaced by a character, from the front on.
pub open spec fn part_replaced(text: Seq<char>, part: Seq<char>, with: char) -> Seq<char>
    decreases text.len(),
{
    if text.len() == 0 || part.len() == 0 {
        text
    } else if stands_at(text, part, 0) {
        seq![with] + part_replaced(text.skip(part.len() as int), part, with)
    } else {
        seq![text[0]] + part_replaced(text.skip(1), part, with)
    }
}

/// A stretch in which the part never begins stays as it is.
pub proof fn lemma_part_passes(front: Seq<char>, back: Seq<char>, part: Seq<char>, with: char)
    requires
        part.len() > 0,
        forall|i: int| 0 <= i < front.len() ==> front[i] != part[0],
    ensures
        part_replaced(front + back, part, with) == front + part_replaced(back, part, with),
    decreases front.len(),
{
    if front.len() == 0 {
        assert(front + back =~= back);
        assert(front + part_replaced(back, part, with) =~= part_replaced(back, part, with));
    } else {
        let whole = front + back;
        let rest = front.skip(1);
        if stands_at(whole, part, 0) {
            assert(whole.subrange(0, part.len() as int)[0] == whole[0]);
        }
        assert(whole.skip(1) =~= rest + back);
        lemma_part_passes(rest, back, part, with);
        assert(seq![front[0]] + (rest + part_replaced(back, part, with)) =~= front + part_replaced(
            back,
            part,
            with,
        ));
    }
}

/// The pieces of a text between the separators in it.
pub open spec fn pieces(text: Seq<char>, separator: char) -> Seq<Seq<char>>
    decreases text.len(),
{
    if text.len() == 0 {
        seq![Seq::<char>::empty()]
    } else {
        let front = pieces(text.drop_last(), separator);
        if text.last() == separator {
            front.push(Seq::<char>::empty())
        } else {
            front.drop_last().push(front.last().push(text.last()))
        }
    }
}

/// The pieces of the text between the separators in it.
pub fn split_char(text: &str, separator: char) -> (parts: Vec<String>)
    ensures
        texts(parts@) == pieces(text@, separator),
{
    let chars: Vec<char> = chars_of(text);
    let mut parts: Vec<String> = Vec::new();
    let mut piece: String = String::new();
    let mut i: usize = 0;
    proof {
        assert(chars@.take(0) =~= Seq::<char>::empty());
        assert(texts(parts@).push(piece@) =~= seq![Seq::<char>::empty()]);
    }
    while i < chars.len()
        invariant
            i <= chars@.len(),
            texts(parts@).push(piece@) == pieces(chars@.take(i as int), separator),
        decreases chars@.len() - i,
    {
        let ghost before = texts(parts@).push(piece@);
        proof {
            assert(chars@.take(i + 1).drop_last() =~= chars@.take(i as int));
            assert(chars@.take(i + 1).last() == chars@[i as int]);
            assert(before.drop_last() =~= texts(parts@));
            assert(before.last() == piece@);
        }
        if chars[i] == separator {
            parts.push(piece);
            piece = String::new();
            proof {
                assert(texts(parts@) =~= before);
            }
        } else {
            piece.push(chars[i]);
        }
        i = i + 1;
    }
    let ghost before = texts(parts@).push(piece@);
    parts.push(piece);
    proof {
        assert(texts(parts@) =~= before);
        assert(chars@.take(i as int) =~= text@);
    }
    parts
}

/// The texts of a list of strings.
pub open spec fn texts(list: Seq<String>) -> Seq<Seq<char>> {
    list.map_values(|s: String| s@)
}

/// The pieces one behind the other, with a separator between each two.
pub open spec fn joined(parts: Seq<Seq<char>>, separator: Seq<char>) -> Seq<char>
    decreases parts.len(),
{
    if parts.len() == 0 {
        Seq::empty()
    } else if parts.len() == 1 {
        parts[0]
    } else {
        joined(parts.drop_last(), separator) + separator + parts.last()
    }
}

/// The strings one behind the other, with a separator between each two.
pub fn join(parts: &Vec<String>, separator: &str) -> (out: String)
    ensures
        out@ == joined(texts(parts@), separator@),
{
    let mut out: String = String::new();
    let mut i: usize = 0;
    let ghost all = texts(parts@);
    while i < parts.len()
        invariant
            i <= parts@.len(),
            all == texts(parts@),
            out@ == joined(all.take(i as int), separator@),
        decreases parts@.len() - i,
    {
        proof {
            assert(all.take(i + 1).drop_last() =~= all.take(i as int));
            assert(all.take(i + 1).last() == parts@[i as int]@);
            assert(Seq::<char>::empty() + parts@[i as int]@ =~= parts@[i as int]@);
        }
        if i > 0 {
            out.append(separator);
        }
        out.append(parts[i].as_str());
        i = i + 1;
    }
    proof {
        assert(all.take(i as int) =~= all);
    }
    out
}

/// A copy of a list of strings.
pub fn copy_texts(list: &Vec<String>) -> (copy: Vec<String>)
    ensures
        copy@ == list@,
{
    let mut copy: Vec<String> = Vec::new();
    let mut i: usize = 0;
    while i < list.len()
        invariant
            i <= list@.len(),
            copy@ == list@.take(i as int),
        decreases list@.len() - i,
    {
        proof {
            assert(list@.take(i + 1) =~= list@.take(i as int).push(list@[i as int]));
        }
        copy.push(list[i].clone());
        i = i + 1;
    }
    proof {
        assert(list@.take(i as int) =~= list@);
    }
    copy
}

// ---------------------------------------------------------------- lines

/// Whether a text is a single line: no line feed stands in it.
pub open spec fn one_line(text: Seq<char>) -> bool {
    forall|i: int| 0 <= i < text.len() ==> #[trigger] text[i] != '\n'
}

/// Two single lines one behind the other are a single line.
pub broadcast proof fn lemma_lines_joined(front: Seq<char>, back: Seq<char>)
    requires
        one_line(front),
        one_line(back),
    ensures
        #[trigger] one_line(front + back),
{
    assert forall|i: int| 0 <= i < (front + back).len() implies #[trigger] (front + back)[i]
        != '\n' by {
        if i < front.len() {
            assert((front + back)[i] == front[i]);
        } else {
            assert((front + back)[i] == back[i - front.len()]);
        }
    }
}

/// The decimal form of a number is a single line.
pub proof fn lemma_decimal_one_line(n: nat)
    ensures
        one_line(decimal(n)),
    decreases n,
{
    if n >= 10 {
        lemma_decimal_one_line(n / 10);
        let front = decimal(n / 10);
        assert forall|i: int| 0 <= i < decimal(n).len() implies #[trigger] decimal(n)[i]
            != '\n' by {
            if i < front.len() {
                assert(decimal(n)[i] == front[i]);
            }
        }
    }
}

// ---------------------------------------------------------------- absent texts

/// A copy of a string that may be absent.
pub fn copy_text(text: &Option<String>) -> (copy: Option<String>)
    ensures
        copy == *text,
{
    match text {
        Some(t) => Some(t.clone()),
        None => None,
    }
}

/// The text of a string that may be absent.
pub open spec fn some_text(text: Option<String>) -> Option<Seq<char>> {
    match text {
        Some(t) => Some(t@),
        None => None,
    }
}

} // verus!
