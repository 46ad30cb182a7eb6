//! Text building blocks shared by the other modules.
//!
//! The model of a string is its sequence of characters.

use vstd::prelude::*;

verus! {

/// Whether two texts hold the same characters in the same order.
pub(crate) fn same(a: &str, b: &str) -> (result: bool)
    ensures
        result == (a@ == b@),
{
    let left: Vec<char> = chars_of(a);
    let right: Vec<char> = chars_of(b);
    if left.len() != right.len() {
        return false;
    }
    let mut i: usize = 0;
    while i < left.len()
        invariant
            left@ == a@,
            right@ == b@,
            left@.len() == right@.len(),
            i <= left@.len(),
            forall|k: int| 0 <= k < i ==> #[trigger] a@[k] == b@[k],
        decreases left@.len() - i,
    {
        if left[i] != right[i] {
            assert(a@[i as int] != b@[i as int]);
            return false;
        }
        i = i + 1;
    }
    assert(a@ =~= b@);
    true
}

/// The text that `{:?}` gives for a string: quoted, with escapes for quotes,
/// control characters and everything that is not printable.
pub uninterp spec fn quoted_text(text: Seq<char>) -> Seq<char>;

/// Quotes a string for an error message.
///
/// Formats with `str`'s `Debug` impl. The escape rules follow the Unicode
/// tables of the standard library, so the result is only named here.
#[verifier::external_body]
pub(crate) fn quoted(text: &str) -> (result: String)
    ensures
        result@ == quoted_text(text@),
{
    format!("{:?}", text)
}

/// `String::push` appends one character.
pub assume_specification[ String::push ](text: &mut String, c: char)
    ensures
        final(text)@ == old(text)@.push(c),
;

/// Puts a text behind a prefix.
pub fn prefixed(prefix: &str, text: &str) -> (result: String)
    ensures
        result@ == prefix@ + text@,
{
    let mut whole: String = String::from_str(prefix);
    whole.append(text);
    whole
}

/// The character of a decimal digit.
pub open spec fn digit_char(digit: nat) -> char {
    if digit == 0 {
        '0'
    } else if digit == 1 {
        '1'
    } else if digit == 2 {
        '2'
    } else if digit == 3 {
        '3'
    } else if digit == 4 {
        '4'
    } else if digit == 5 {
        '5'
    } else if digit == 6 {
        '6'
    } else if digit == 7 {
        '7'
    } else if digit == 8 {
        '8'
    } else {
        '9'
    }
}

/// The decimal notation of a natural number, without leading zeros.
pub open spec fn decimal(value: nat) -> Seq<char>
    decreases value,
{
    if value < 10 {
        seq![digit_char(value)]
    } else {
        decimal(value / 10).push(digit_char(value % 10))
    }
}

/// The decimal notation of an integer, with a leading minus sign below zero.
pub open spec fn signed_decimal(value: int) -> Seq<char> {
    if value < 0 {
        seq!['-'] + decimal((-value) as nat)
    } else {
        decimal(value as nat)
    }
}

fn digit_text(digit: u128) -> (result: &'static str)
    requires
        digit < 10,
    ensures
        result@ == seq![digit_char(digit as nat)],
{
    proof {
        reveal_strlit("0");
        reveal_strlit("1");
        reveal_strlit("2");
        reveal_strlit("3");
        reveal_strlit("4");
        reveal_strlit("5");
        reveal_strlit("6");
        reveal_strlit("7");
        reveal_strlit("8");
        reveal_strlit("9");
    }
    if digit == 0 {
        "0"
    } else if digit == 1 {
        "1"
    } else if digit == 2 {
        "2"
    } else if digit == 3 {
        "3"
    } else if digit == 4 {
        "4"
    } else if digit == 5 {
        "5"
    } else if digit == 6 {
        "6"
    } else if digit == 7 {
        "7"
    } else if digit == 8 {
        "8"
    } else {
        "9"
    }
}

/// Formats an unsigned number in decimal.
pub fn decimal_text(value: u128) -> (result: String)
    ensures
        result@ == decimal(value as nat),
    decreases value,
{
    if value < 10 {
        String::from_str(digit_text(value))
    } else {
        let mut text: String = decimal_text(value / 10);
        text.append(digit_text(value % 10));
        assert(text@ == decimal(value as nat));
        text
    }
}

/// Formats a signed number in decimal.
pub fn signed_decimal_text(value: i64) -> (result: String)
    ensures
        result@ == signed_decimal(value as int),
{
    if value >= 0 {
        decimal_text(value as u128)
    } else {
        proof {
            reveal_strlit("-");
        }
        let mut text: String = String::from_str("-");
        let magnitude: u128 = (-(value as i128)) as u128;
        text.append(decimal_text(magnitude).as_str());
        text
    }
}

/// Collects the characters of a string slice.
pub fn chars_of(text: &str) -> (result: Vec<char>)
    ensures
        result@ == text@,
{
    let mut chars: Vec<char> = Vec::new();
    for c in it: text.chars()
        invariant
            chars@ == text@.take(it.index()),
            it.seq() == text@,
    {
        chars.push(c);
        assert(chars@ =~= text@.take(it.index() + 1));
    }
    assert(chars@ =~= text@);
    chars
}

/// The characters with the Unicode property `White_Space`.
pub open spec fn is_white_space(c: char) -> bool {
    let code = c as u32;
    ||| 0x9 <= code <= 0xd
    ||| code == 0x20
    ||| code == 0x85
    ||| code == 0xa0
    ||| code == 0x1680
    ||| 0x2000 <= code <= 0x200a
    ||| code == 0x2028
    ||| code == 0x2029
    ||| code == 0x202f
    ||| code == 0x205f
    ||| code == 0x3000
}

/// Whether a character has the Unicode property `White_Space`.
pub fn white_space(c: char) -> (result: bool)
    ensures
        result == is_white_space(c),
{
    let code: u32 = c as u32;
    (0x9 <= code && code <= 0xd) || code == 0x20 || code == 0x85 || code == 0xa0 || code == 0x1680
        || (0x2000 <= code && code <= 0x200a) || code == 0x2028 || code == 0x2029 || code == 0x202f
        || code == 0x205f || code == 0x3000
}

/// A text that holds white space only, or nothing.
pub open spec fn is_blank(text: Seq<char>) -> bool {
    forall|i: int| 0 <= i < text.len() ==> is_white_space(#[trigger] text[i])
}

/// Whether a text holds white space only, or nothing.
pub fn blank(text: &str) -> (result: bool)
    ensures
        result == is_blank(text@),
{
    let chars: Vec<char> = chars_of(text);
    let mut i: usize = 0;
    while i < chars.len()
        invariant
            chars@ == text@,
            i <= chars@.len(),
            forall|k: int| 0 <= k < i ==> is_white_space(#[trigger] chars@[k]),
        decreases chars@.len() - i,
    {
        if !white_space(chars[i]) {
            assert(!is_white_space(text@[i as int]));
            return false;
        }
        i = i + 1;
    }
    true
}

proof fn lemma_decimal_is_not_empty(value: nat)
    ensures
        decimal(value).len() >= 1,
        value >= 10 ==> decimal(value).len() >= 2,
    decreases value,
{
    if value >= 10 {
        lemma_decimal_is_not_empty(value / 10);
    }
}

/// Different numbers have different decimal notations.
pub proof fn lemma_decimal_is_injective(a: nat, b: nat)
    requires
        decimal(a) == decimal(b),
    ensures
        a == b,
    decreases a,
{
    lemma_decimal_is_not_empty(a);
    lemma_decimal_is_not_empty(b);
    if a < 10 && b < 10 {
        assert(decimal(a)[0] == digit_char(a));
        assert(decimal(b)[0] == digit_char(b));
    } else if a >= 10 && b >= 10 {
        assert(decimal(a).last() == digit_char(a % 10));
        assert(decimal(b).last() == digit_char(b % 10));
        assert(decimal(a).drop_last() =~= decimal(a / 10));
        assert(decimal(b).drop_last() =~= decimal(b / 10));
        lemma_decimal_is_injective(a / 10, b / 10);
        assert(a % 10 == b % 10);
    } else {
        assert(decimal(a).len() != decimal(b).len());
    }
}

// ---------------------------------------------------------------------------
// Trimming
// ---------------------------------------------------------------------------

/// A text without its leading white space.
pub open spec fn trim_start_of(text: Seq<char>) -> Seq<char>
    decreases text.len(),
{
    if text.len() > 0 && is_white_space(text[0]) {
        trim_start_of(text.drop_first())
    } else {
        text
    }
}

/// A text without its trailing white space.
pub open spec fn trim_end_of(text: Seq<char>) -> Seq<char>
    decreases text.len(),
{
    if text.len() > 0 && is_white_space(text.last()) {
        trim_end_of(text.drop_last())
    } else {
        text
    }
}

/// A text without its leading and trailing white space.
pub open spec fn trim_of(text: Seq<char>) -> Seq<char> {
    trim_end_of(trim_start_of(text))
}

/// Removes trailing white space.
pub fn trim_end(text: &str) -> (result: &str)
    ensures
        result@ == trim_end_of(text@),
{
    let chars: Vec<char> = chars_of(text);
    let mut end: usize = chars.len();
    assert(text@.take(end as int) =~= text@);
    while end > 0 && white_space(chars[end - 1])
        invariant
            chars@ == text@,
            end <= chars@.len(),
            trim_end_of(text@) == trim_end_of(text@.take(end as int)),
        decreases end,
    {
        assert(text@.take(end as int).drop_last() =~= text@.take(end - 1));
        end = end - 1;
    }
    assert(text@.subrange(0, end as int) =~= text@.take(end as int));
    text.substring_char(0, end)
}

/// Removes leading and trailing white space.
pub fn trim(text: &str) -> (result: &str)
    ensures
        result@ == trim_of(text@),
{
    let chars: Vec<char> = chars_of(text);
    let mut start: usize = 0;
    assert(text@.skip(0) =~= text@);
    while start < chars.len() && white_space(chars[start])
        invariant
            chars@ == text@,
            start <= chars@.len(),
            trim_start_of(text@) == trim_start_of(text@.skip(start as int)),
        decreases chars@.len() - start,
    {
        assert(text@.skip(start as int).drop_first() =~= text@.skip(start + 1));
        start = start + 1;
    }
    assert(text@.subrange(start as int, text@.len() as int) =~= text@.skip(start as int));
    trim_end(text.substring_char(start, chars.len()))
}

proof fn lemma_trim_start_skips(before: Seq<char>, rest: Seq<char>)
    requires
        is_blank(before),
    ensures
        trim_start_of(before + rest) == trim_start_of(rest),
    decreases before.len(),
{
    if before.len() == 0 {
        assert(before + rest =~= rest);
    } else {
        assert(is_white_space(before[0]));
        assert((before + rest).drop_first() =~= before.drop_first() + rest);
        assert forall|i: int| 0 <= i < before.drop_first().len() implies is_white_space(
            #[trigger] before.drop_first()[i],
        ) by {
            assert(before.drop_first()[i] == before[i + 1]);
        }
        lemma_trim_start_skips(before.drop_first(), rest);
    }
}

proof fn lemma_trim_end_skips(rest: Seq<char>, after: Seq<char>)
    requires
        is_blank(after),
    ensures
        trim_end_of(rest + after) == trim_end_of(rest),
    decreases after.len(),
{
    if after.len() == 0 {
        assert(rest + after =~= rest);
    } else {
        assert(is_white_space(after[after.len() - 1]));
        assert((rest + after).drop_last() =~= rest + after.drop_last());
        assert forall|i: int| 0 <= i < after.drop_last().len() implies is_white_space(
            #[trigger] after.drop_last()[i],
        ) by {
            assert(after.drop_last()[i] == after[i]);
        }
        lemma_trim_end_skips(rest, after.drop_last());
    }
}

/// Trimming takes the white space on both sides and nothing else.
pub proof fn law_trimming_takes_the_white_space_around(
    before: Seq<char>,
    core: Seq<char>,
    after: Seq<char>,
)
    requires
        is_blank(before),
        is_blank(after),
        core.len() > 0 ==> !is_white_space(core[0]) && !is_white_space(core.last()),
    ensures
        trim_of(before + core + after) == core,
        trim_end_of(core + after) == core,
{
    assert(before + core + after =~= before + (core + after));
    lemma_trim_start_skips(before, core + after);
    if core.len() == 0 {
        assert(core + after =~= after + core);
        lemma_trim_start_skips(after, core);
        lemma_trim_end_skips(core, after);
        assert(core =~= Seq::empty());
    } else {
        assert((core + after)[0] == core[0]);
        lemma_trim_end_skips(core, after);
    }
}

/// Blanks, tabs and line ends are white space; letters, digits and signs that are
/// printed are not.
pub proof fn law_white_space_is_not_printed(c: char)
    ensures
        c == ' ' || c == '\t' || c == '\n' || c == '\r' ==> is_white_space(c),
        '!' <= c <= '~' ==> !is_white_space(c),
{
}

// ---------------------------------------------------------------------------
// Comparing and searching
// ---------------------------------------------------------------------------

/// The lower-case form of an ASCII letter; other characters are kept.
pub open spec fn lower_char(c: char) -> char {
    if 'A' <= c <= 'Z' {
        ((c as u32 + 32) as u8) as char
    } else {
        c
    }
}

/// A text with its ASCII letters in lower case.
pub open spec fn lower_of(text: Seq<char>) -> Seq<char> {
    text.map_values(|c: char| lower_char(c))
}

/// Lowers an ASCII letter; other characters are kept.
pub fn to_lower(c: char) -> (result: char)
    ensures
        result == lower_char(c),
{
    if 'A' <= c && c <= 'Z' {
        ((c as u32 + 32) as u8) as char
    } else {
        c
    }
}

/// A text with its ASCII letters in lower case.
pub fn lowered(text: &str) -> (result: String)
    ensures
        result@ == lower_of(text@),
{
    let chars: Vec<char> = chars_of(text);
    let mut lower: String = String::new();
    let mut i: usize = 0;
    while i < chars.len()
        invariant
            chars@ == text@,
            i <= chars@.len(),
            lower@ == lower_of(text@).take(i as int),
        decreases chars@.len() - i,
    {
        lower.push(to_lower(chars[i]));
        assert(lower@ =~= lower_of(text@).take(i + 1));
        i = i + 1;
    }
    assert(lower@ =~= lower_of(text@));
    lower
}

/// Whether a text reads `wanted` once its ASCII letters are in lower case.
pub fn lowers_to(text: &str, wanted: &str) -> (result: bool)
    ensures
        result == (lower_of(text@) == wanted@),
{
    let chars: Vec<char> = chars_of(text);
    let target: Vec<char> = chars_of(wanted);
    if chars.len() != target.len() {
        assert(lower_of(text@).len() != wanted@.len());
        return false;
    }
    let mut i: usize = 0;
    while i < chars.len()
        invariant
            chars@ == text@,
            target@ == wanted@,
            chars@.len() == target@.len(),
            i <= chars@.len(),
            forall|k: int| 0 <= k < i ==> lower_char(#[trigger] text@[k]) == wanted@[k],
        decreases chars@.len() - i,
    {
        if to_lower(chars[i]) != target[i] {
            assert(lower_of(text@)[i as int] != wanted@[i as int]);
            return false;
        }
        i = i + 1;
    }
    assert(lower_of(text@) =~= wanted@);
    true
}

/// The lower case of a text changes its capital letters, each into its own small
/// one, and nothing else.
pub proof fn law_lower_case_changes_capitals_alone(text: Seq<char>, i: int)
    requires
        0 <= i < text.len(),
    ensures
        lower_of(text).len() == text.len(),
        'A' <= text[i] <= 'Z' ==> lower_of(text)[i] as u32 - 'a' as u32 == text[i] as u32
            - 'A' as u32,
        !('A' <= text[i] <= 'Z') ==> lower_of(text)[i] == text[i],
        lower_of(lower_of(text)) == lower_of(text),
{
    let again = lower_of(lower_of(text));
    assert forall|k: int| 0 <= k < text.len() implies #[trigger] again[k] == lower_of(text)[k] by {
        lemma_lower_twice(text[k]);
    }
    assert(again =~= lower_of(text));
    lemma_lower_twice(text[i]);
}

proof fn lemma_lower_twice(c: char)
    ensures
        lower_char(lower_char(c)) == lower_char(c),
        'A' <= c <= 'Z' ==> lower_char(c) as u32 == c as u32 + 32,
{
}

/// Whether `part` stands in `text` at `at`.
pub open spec fn occurs_at(text: Seq<char>, part: Seq<char>, at: int) -> bool {
    0 <= at && at + part.len() <= text.len() && text.subrange(at, at + part.len()) == part
}

/// Whether `part` stands somewhere in `text`.
pub open spec fn contains_part(text: Seq<char>, part: Seq<char>) -> bool {
    exists|at: int| #[trigger] occurs_at(text, part, at)
}

fn stands_at(text: &Vec<char>, part: &Vec<char>, at: usize) -> (result: bool)
    requires
        at + part@.len() <= text@.len(),
    ensures
        result == occurs_at(text@, part@, at as int),
{
    let length: usize = text.len();
    let mut i: usize = 0;
    while i < part.len()
        invariant
            length == text@.len(),
            at + part@.len() <= length,
            i <= part@.len(),
            forall|k: int| 0 <= k < i ==> text@[at + k] == #[trigger] part@[k],
        decreases part@.len() - i,
    {
        if text[at + i] != part[i] {
            assert(text@.subrange(at as int, at + part@.len())[i as int] == text@[at + i]);
            return false;
        }
        i = i + 1;
    }
    assert(text@.subrange(at as int, at + part@.len()) =~= part@);
    true
}

/// Whether `part` stands somewhere in `text`, both given as characters.
pub fn chars_contain(text: &Vec<char>, part: &Vec<char>) -> (result: bool)
    ensures
        result == contains_part(text@, part@),
{
    if part.len() > text.len() {
        return false;
    }
    let last: usize = text.len() - part.len();
    let mut at: usize = 0;
    while at <= last
        invariant
            last == text@.len() - part@.len(),
            at <= last + 1,
            forall|k: int| 0 <= k < at ==> !#[trigger] occurs_at(text@, part@, k),
        decreases last + 1 - at,
    {
        if stands_at(text, part, at) {
            return true;
        }
        if at == last {
            assert forall|k: int| !#[trigger] occurs_at(text@, part@, k) by {}
            return false;
        }
        at = at + 1;
    }
    false
}

/// Whether `part` stands somewhere in `text`.
pub fn contains_text(text: &str, part: &str) -> (result: bool)
    ensures
        result == contains_part(text@, part@),
{
    chars_contain(&chars_of(text), &chars_of(part))
}

/// Whether a text starts with a prefix.
pub fn starts_with(text: &str, prefix: &str) -> (result: bool)
    ensures
        result == occurs_at(text@, prefix@, 0),
{
    let chars: Vec<char> = chars_of(text);
    let part: Vec<char> = chars_of(prefix);
    part.len() <= chars.len() && stands_at(&chars, &part, 0)
}

/// Whether a text ends with a suffix.
pub fn ends_with(text: &str, suffix: &str) -> (result: bool)
    ensures
        result == occurs_at(text@, suffix@, text@.len() - suffix@.len()),
{
    let chars: Vec<char> = chars_of(text);
    let part: Vec<char> = chars_of(suffix);
    part.len() <= chars.len() && stands_at(&chars, &part, chars.len() - part.len())
}

/// Whether all of a text's characters are decimal digits.
pub open spec fn all_digits(text: Seq<char>) -> bool {
    forall|i: int| 0 <= i < text.len() ==> '0' <= #[trigger] text[i] <= '9'
}

/// Whether all of a text's characters are decimal digits.
pub fn only_digits(text: &str) -> (result: bool)
    ensures
        result == all_digits(text@),
{
    let chars: Vec<char> = chars_of(text);
    let mut i: usize = 0;
    while i < chars.len()
        invariant
            chars@ == text@,
            i <= chars@.len(),
            forall|k: int| 0 <= k < i ==> '0' <= #[trigger] text@[k] <= '9',
        decreases chars@.len() - i,
    {
        let c: char = chars[i];
        if !('0' <= c && c <= '9') {
            assert(!('0' <= text@[i as int] <= '9'));
            return false;
        }
        i = i + 1;
    }
    true
}

/// The parts of a text between separators; a text without one is its only part.
pub open spec fn split_of(text: Seq<char>, separator: char) -> Seq<Seq<char>>
    decreases text.len(),
{
    if text.len() == 0 {
        seq![Seq::empty()]
    } else {
        let before = split_of(text.drop_last(), separator);
        if text.last() == separator {
            before.push(Seq::empty())
        } else {
            before.drop_last().push(before.last().push(text.last()))
        }
    }
}

/// Splits a text at a separator.
pub fn split(text: &str, separator: char) -> (result: Vec<String>)
    ensures
        result.deep_view() == split_of(text@, separator),
        result@.len() >= 1,
{
    let chars: Vec<char> = chars_of(text);
    let mut parts: Vec<String> = Vec::new();
    let mut part: String = String::new();
    let mut i: usize = 0;
    assert(parts.deep_view().push(part@) =~= split_of(text@.take(0), separator));
    while i < chars.len()
        invariant
            chars@ == text@,
            i <= chars@.len(),
            parts.deep_view().push(part@) == split_of(text@.take(i as int), separator),
        decreases chars@.len() - i,
    {
        let ghost before = parts.deep_view();
        let ghost open_part = part@;
        proof {
            assert(text@.take(i + 1).drop_last() =~= text@.take(i as int));
            assert(before.push(open_part).drop_last() =~= before);
        }
        if chars[i] == separator {
            parts.push(part);
            part = String::new();
            assert(parts.deep_view() =~= before.push(open_part));
        } else {
            part.push(chars[i]);
        }
        i = i + 1;
    }
    let ghost before = parts.deep_view();
    let ghost open_part = part@;
    parts.push(part);
    assert(parts.deep_view() =~= before.push(open_part));
    assert(text@.take(i as int) =~= text@);
    parts
}

/// The path of a relative name below a directory.
pub open spec fn below(directory: Seq<char>, name: Seq<char>) -> Seq<char> {
    if directory.len() == 0 || directory.last() == '/' {
        directory + name
    } else {
        directory + seq!['/'] + name
    }
}

/// The path of a relative name below a directory.
pub fn path_below(directory: &str, name: &str) -> (result: String)
    ensures
        result@ == below(directory@, name@),
{
    let length: usize = directory.unicode_len();
    if length == 0 || directory.get_char(length - 1) == '/' {
        return prefixed(directory, name);
    }
    let mut path: String = String::from_str(directory);
    path.push('/');
    path.append(name);
    assert(path@ =~= below(directory@, name@));
    path
}

// ---------------------------------------------------------------------------
// Joining and ordering
// ---------------------------------------------------------------------------

/// Texts with a separator between them.
pub open spec fn joined_with(parts: Seq<Seq<char>>, separator: Seq<char>) -> Seq<char>
    decreases parts.len(),
{
    if parts.len() == 0 {
        Seq::empty()
    } else if parts.len() == 1 {
        parts[0]
    } else {
        joined_with(parts.drop_last(), separator) + separator + parts.last()
    }
}

/// Joins texts with a separator between them.
pub fn join(parts: &Vec<String>, separator: &str) -> (result: String)
    ensures
        result@ == joined_with(parts.deep_view(), separator@),
{
    let ghost all = parts.deep_view();
    let mut whole: String = String::new();
    let mut i: usize = 0;
    while i < parts.len()
        invariant
            all == parts.deep_view(),
            i <= parts@.len(),
            whole@ == joined_with(all.take(i as int), separator@),
        decreases parts@.len() - i,
    {
        assert(all[i as int] == parts@[i as int]@);
        let ghost before = whole@;
        if i > 0 {
            whole.append(separator);
        }
        whole.append(parts[i].as_str());
        proof {
            let next = all.take(i + 1);
            assert(next.drop_last() =~= all.take(i as int));
            assert(next.last() == all[i as int]);
            if i == 0 {
                assert(whole@ =~= next[0]);
            } else {
                assert(whole@ =~= before + separator@ + next.last());
            }
        }
        i = i + 1;
    }
    assert(all.take(i as int) =~= all);
    whole
}

/// A joined text is its parts in order with the separator between them.
pub proof fn law_joining_puts_the_separator_between(
    parts: Seq<Seq<char>>,
    part: Seq<char>,
    separator: Seq<char>,
)
    ensures
        joined_with(seq![part], separator) == part,
        parts.len() > 0 ==> joined_with(parts.push(part), separator) == joined_with(
            parts,
            separator,
        ) + separator + part,
{
    assert(parts.push(part).drop_last() =~= parts);
}

/// The parts of a split text hold no separator, and the text is those parts with the
/// separator between them.
pub proof fn law_splitting_is_undone_by_joining(text: Seq<char>, separator: char)
    ensures
        split_of(text, separator).len() > 0,
        joined_with(split_of(text, separator), seq![separator]) == text,
        forall|i: int|
            0 <= i < split_of(text, separator).len() ==> !(#[trigger] split_of(
                text,
                separator,
            )[i]).contains(separator),
    decreases text.len(),
{
    if text.len() > 0 {
        let shorter = text.drop_last();
        let before = split_of(shorter, separator);
        let parts = split_of(text, separator);
        law_splitting_is_undone_by_joining(shorter, separator);
        if text.last() == separator {
            law_joining_puts_the_separator_between(before, Seq::empty(), seq![separator]);
            assert(joined_with(parts, seq![separator]) =~= text);
            assert forall|i: int| 0 <= i < parts.len() implies !(#[trigger] parts[i]).contains(
                separator,
            ) by {
                if i < before.len() {
                    assert(parts[i] == before[i]);
                }
            }
        } else {
            let front = before.drop_last();
            let last = before.last();
            let longer = last.push(text.last());
            assert(before =~= front.push(last));
            assert(parts =~= front.push(longer));
            law_joining_puts_the_separator_between(front, last, seq![separator]);
            law_joining_puts_the_separator_between(front, longer, seq![separator]);
            let joined = joined_with(parts, seq![separator]);
            if front.len() == 0 {
                assert(before =~= seq![last]);
                assert(parts =~= seq![longer]);
                assert(joined == longer);
                assert(last == shorter);
            } else {
                let start = joined_with(front, seq![separator]) + seq![separator];
                assert(joined == start + longer);
                assert(shorter == start + last);
                assert(start + longer =~= (start + last).push(text.last()));
            }
            assert(joined =~= shorter.push(text.last()));
            assert(text =~= shorter.push(text.last()));
            assert forall|i: int| 0 <= i < parts.len() implies !(#[trigger] parts[i]).contains(
                separator,
            ) by {
                if i < front.len() {
                    assert(parts[i] == before[i]);
                } else {
                    assert(!before[before.len() - 1].contains(separator));
                    if longer.contains(separator) {
                        let k = choose|k: int| 0 <= k < longer.len() && longer[k] == separator;
                        assert(last[k] == separator);
                    }
                }
            }
        }
    } else {
        let parts = split_of(text, separator);
        assert(parts =~= seq![Seq::<char>::empty()]);
        law_joining_puts_the_separator_between(Seq::empty(), Seq::empty(), seq![separator]);
        assert(text =~= Seq::empty());
    }
}

proof fn lemma_split_behind(front: Seq<char>, part: Seq<char>, separator: char)
    requires
        !part.contains(separator),
    ensures
        split_of(front + seq![separator] + part, separator) == split_of(front, separator).push(part),
    decreases part.len(),
{
    let text = front + seq![separator] + part;
    if part.len() == 0 {
        assert(text.drop_last() =~= front);
        assert(part =~= Seq::empty());
    } else {
        let shorter = part.drop_last();
        assert(part[part.len() - 1] != separator) by {
            assert(part.contains(part[part.len() - 1]));
        }
        assert forall|i: int| 0 <= i < shorter.len() implies shorter[i] != separator by {
            assert(part.contains(part[i]));
        }
        lemma_split_behind(front, shorter, separator);
        assert(text.drop_last() =~= front + seq![separator] + shorter);
        assert(text.last() == part.last());
        let before = split_of(text.drop_last(), separator);
        assert(before.drop_last() =~= split_of(front, separator));
        assert(shorter.push(part.last()) =~= part);
    }
}

proof fn lemma_split_plain(part: Seq<char>, separator: char)
    requires
        !part.contains(separator),
    ensures
        split_of(part, separator) == seq![part],
    decreases part.len(),
{
    if part.len() == 0 {
        assert(part =~= Seq::empty());
    } else {
        let shorter = part.drop_last();
        assert(part[part.len() - 1] != separator) by {
            assert(part.contains(part[part.len() - 1]));
        }
        assert forall|i: int| 0 <= i < shorter.len() implies shorter[i] != separator by {
            assert(part.contains(part[i]));
        }
        lemma_split_plain(shorter, separator);
        assert(shorter.push(part.last()) =~= part);
        assert(split_of(part, separator) =~= seq![part]);
    }
}

/// Splitting a joined text gives its parts back, as long as none holds the separator.
pub proof fn law_joining_is_undone_by_splitting(parts: Seq<Seq<char>>, separator: char)
    requires
        parts.len() > 0,
        forall|i: int| 0 <= i < parts.len() ==> !(#[trigger] parts[i]).contains(separator),
    ensures
        split_of(joined_with(parts, seq![separator]), separator) == parts,
    decreases parts.len(),
{
    let last = parts[parts.len() - 1];
    assert(!last.contains(separator));
    if parts.len() == 1 {
        lemma_split_plain(last, separator);
        assert(parts =~= seq![last]);
    } else {
        let front = parts.drop_last();
        assert forall|i: int| 0 <= i < front.len() implies !(#[trigger] front[i]).contains(
            separator,
        ) by {
            assert(front[i] == parts[i]);
        }
        law_joining_is_undone_by_splitting(front, separator);
        lemma_split_behind(joined_with(front, seq![separator]), last, separator);
        assert(front.push(last) =~= parts);
    }
}

/// A name below a directory is separated from it by one slash, unless the directory
/// ends in one or is the working directory.
pub proof fn law_names_stand_below_their_directory(directory: Seq<char>, name: Seq<char>)
    ensures
        directory.len() == 0 ==> below(directory, name) == name,
        directory.len() > 0 && directory.last() != '/' ==> below(directory, name) == directory
            + seq!['/'] + name,
        directory.len() > 0 && directory.last() == '/' ==> below(directory, name) == directory
            + name,
{
    if directory.len() == 0 {
        assert(directory + name =~= name);
    }
}

/// The order of texts by their characters, as in a dictionary.
pub open spec fn text_before(a: Seq<char>, b: Seq<char>) -> bool
    decreases a.len(),
{
    if b.len() == 0 {
        false
    } else if a.len() == 0 {
        true
    } else if a[0] != b[0] {
        a[0] < b[0]
    } else {
        text_before(a.drop_first(), b.drop_first())
    }
}

/// Whether a text stands before another one.
pub fn stands_before(a: &str, b: &str) -> (result: bool)
    ensures
        result == text_before(a@, b@),
{
    let left: Vec<char> = chars_of(a);
    let right: Vec<char> = chars_of(b);
    let mut i: usize = 0;
    assert(a@.skip(0) =~= a@);
    assert(b@.skip(0) =~= b@);
    while i < left.len() && i < right.len()
        invariant
            left@ == a@,
            right@ == b@,
            i <= left@.len(),
            i <= right@.len(),
            text_before(a@, b@) == text_before(a@.skip(i as int), b@.skip(i as int)),
        decreases left@.len() - i,
    {
        assert(a@.skip(i as int).drop_first() =~= a@.skip(i + 1));
        assert(b@.skip(i as int).drop_first() =~= b@.skip(i + 1));
        if left[i] != right[i] {
            return left[i] < right[i];
        }
        i = i + 1;
    }
    i < right.len()
}

/// The order of texts is total and transitive, and no text stands before itself.
pub proof fn lemma_text_order(a: Seq<char>, b: Seq<char>, c: Seq<char>)
    ensures
        !text_before(a, a),
        a != b ==> text_before(a, b) || text_before(b, a),
        text_before(a, b) && text_before(b, c) ==> text_before(a, c),
    decreases a.len() + b.len() + c.len(),
{
    if a.len() > 0 && b.len() > 0 && c.len() > 0 {
        lemma_text_order(a.drop_first(), b.drop_first(), c.drop_first());
        if a.drop_first() == b.drop_first() && a[0] == b[0] {
            assert(a =~= seq![a[0]] + a.drop_first());
            assert(b =~= seq![b[0]] + b.drop_first());
        }
    } else if a.len() > 0 && b.len() > 0 {
        lemma_text_order(a.drop_first(), b.drop_first(), c);
        if a.drop_first() == b.drop_first() && a[0] == b[0] {
            assert(a =~= seq![a[0]] + a.drop_first());
            assert(b =~= seq![b[0]] + b.drop_first());
        }
    } else if a.len() > 0 {
        lemma_text_order(a.drop_first(), b, c);
    } else if a.len() == 0 && b.len() == 0 {
        assert(a =~= b);
    }
}

/// Texts are ordered by the first character in which they differ, and one that goes
/// on stands behind one that ends.
pub proof fn law_texts_are_ordered_by_their_first_difference(
    common: Seq<char>,
    a: char,
    b: char,
    rest: Seq<char>,
    other: Seq<char>,
)
    requires
        a != b,
    ensures
        text_before(common + seq![a] + rest, common + seq![b] + other) <==> a < b,
        text_before(common, common + seq![a] + rest),
        !text_before(common + seq![a] + rest, common),
    decreases common.len(),
{
    let first = common + seq![a] + rest;
    let second = common + seq![b] + other;
    if common.len() > 0 {
        let shorter = common.drop_first();
        law_texts_are_ordered_by_their_first_difference(shorter, a, b, rest, other);
        assert(first.drop_first() =~= shorter + seq![a] + rest);
        assert(second.drop_first() =~= shorter + seq![b] + other);
    } else {
        assert(first[0] == a && second[0] == b);
    }
}

/// Texts in their order, each once.
pub open spec fn ascending_texts(texts: Seq<Seq<char>>) -> bool {
    forall|i: int, j: int|
        0 <= i < j < texts.len() ==> text_before(#[trigger] texts[i], #[trigger] texts[j])
}

/// Texts in their order are determined by which texts there are.
pub proof fn lemma_ascending_is_unique(a: Seq<Seq<char>>, b: Seq<Seq<char>>)
    requires
        ascending_texts(a),
        ascending_texts(b),
        forall|t: Seq<char>| #[trigger] a.contains(t) == b.contains(t),
    ensures
        a == b,
    decreases a.len(),
{
    if a.len() == 0 {
        if b.len() > 0 {
            assert(b.contains(b[0]));
            assert(a.contains(b[0]));
        }
        assert(a =~= b);
    } else {
        assert(a.contains(a[0]));
        assert(b.contains(a[0]));
        assert(b.contains(b[0]));
        assert(a.contains(b[0]));
        let i = b.index_of(a[0]);
        let j = a.index_of(b[0]);
        lemma_text_order(a[0], b[0], a[0]);
        assert(a[0] == b[0]);
        let x = a.drop_first();
        let y = b.drop_first();
        assert forall|t: Seq<char>| #[trigger] x.contains(t) == y.contains(t) by {
            lemma_text_order(t, t, t);
            if x.contains(t) {
                let k = x.index_of(t);
                assert(a[k + 1] == t && text_before(a[0], a[k + 1]));
                assert(a.contains(t));
                let m = b.index_of(t);
                assert(y[m - 1] == t);
            }
            if y.contains(t) {
                let k = y.index_of(t);
                assert(b[k + 1] == t && text_before(b[0], b[k + 1]));
                assert(b.contains(t) && a.contains(t));
                let m = a.index_of(t);
                assert(x[m - 1] == t);
            }
        }
        lemma_ascending_is_unique(x, y);
        assert(a =~= seq![a[0]] + x);
        assert(b =~= seq![b[0]] + y);
    }
}

/// Adds a text to texts in their order, unless it is among them.
pub fn insert_text(texts: &mut Vec<String>, text: &str)
    requires
        ascending_texts(old(texts).deep_view()),
    ensures
        ascending_texts(final(texts).deep_view()),
        forall|t: Seq<char>| #[trigger]
            final(texts).deep_view().contains(t) == (old(texts).deep_view().contains(t) || t
                == text@),
{
    let ghost before = texts.deep_view();
    let mut at: usize = 0;
    while at < texts.len() && stands_before(texts[at].as_str(), text)
        invariant
            before == texts.deep_view(),
            at <= texts@.len(),
            forall|k: int| 0 <= k < at ==> text_before(#[trigger] before[k], text@),
        decreases texts@.len() - at,
    {
        assert(before[at as int] == texts@[at as int]@);
        at = at + 1;
    }
    assert(at < texts@.len() ==> before[at as int] == texts@[at as int]@);
    if at < texts.len() && same(texts[at].as_str(), text) {
        assert(before[at as int] == text@);
        return;
    }
    let added: String = String::from_str(text);
    texts.insert(at, added);
    proof {
        let after = texts.deep_view();
        assert(after =~= before.insert(at as int, text@));
        assert forall|i: int, j: int| 0 <= i < j < after.len() implies text_before(
            #[trigger] after[i],
            #[trigger] after[j],
        ) by {
            let old_i = if i < at {
                i
            } else {
                i - 1
            };
            let old_j = if j < at {
                j
            } else {
                j - 1
            };
            if i != at && j != at {
                assert(text_before(before[old_i], before[old_j]));
            } else if j == at {
                assert(after[i] == before[i]);
            } else {
                lemma_text_order(before[at as int], text@, before[old_j]);
                lemma_text_order(text@, before[at as int], before[old_j]);
                if old_j > at {
                    assert(text_before(before[at as int], before[old_j]));
                }
            }
        }
        assert forall|t: Seq<char>| #[trigger] after.contains(t) == (before.contains(t) || t
            == text@) by {
            if before.contains(t) {
                let k = before.index_of(t);
                if k < at {
                    assert(after[k] == t);
                } else {
                    assert(after[k + 1] == t);
                }
            }
            if t == text@ {
                assert(after[at as int] == t);
            }
            if after.contains(t) && t != text@ {
                let k = after.index_of(t);
                if k < at {
                    assert(before[k] == t);
                } else {
                    assert(before[k - 1] == t);
                }
            }
        }
    }
}

/// The upper-case form of an ASCII letter; other characters are kept.
pub open spec fn upper_char(c: char) -> char {
    if 'a' <= c <= 'z' {
        ((c as u32 - 32) as u8) as char
    } else {
        c
    }
}

/// A text with its ASCII letters in upper case.
pub open spec fn upper_of(text: Seq<char>) -> Seq<char> {
    text.map_values(|c: char| upper_char(c))
}

/// The characters of a text, its ASCII letters in upper case.
pub fn upper_chars(text: &str) -> (result: Vec<char>)
    ensures
        result@ == upper_of(text@),
{
    let chars: Vec<char> = chars_of(text);
    let mut upper: Vec<char> = Vec::new();
    let mut i: usize = 0;
    while i < chars.len()
        invariant
            chars@ == text@,
            i <= chars@.len(),
            upper@ == upper_of(text@).take(i as int),
        decreases chars@.len() - i,
    {
        let c: char = chars[i];
        let raised: char = if 'a' <= c && c <= 'z' {
            ((c as u32 - 32) as u8) as char
        } else {
            c
        };
        upper.push(raised);
        assert(upper@ =~= upper_of(text@).take(i + 1));
        i = i + 1;
    }
    assert(upper@ =~= upper_of(text@));
    upper
}

/// The upper case of a text changes its small letters, each into its own capital,
/// and nothing else.
pub proof fn law_upper_case_changes_small_letters_alone(text: Seq<char>, i: int)
    requires
        0 <= i < text.len(),
    ensures
        upper_of(text).len() == text.len(),
        'a' <= text[i] <= 'z' ==> upper_of(text)[i] as u32 - 'A' as u32 == text[i] as u32
            - 'a' as u32,
        !('a' <= text[i] <= 'z') ==> upper_of(text)[i] == text[i],
{
}

} // verus!
