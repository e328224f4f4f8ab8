//! Text building blocks: comparison, normalisation and decimal rendering of
//! strings, stated over their characters.
use vstd::prelude::*;
use vstd::string::*;

verus! {

/// `String::push` appends one character and changes nothing else.
pub assume_specification[ String::push ](string: &mut String, ch: char)
    ensures
        final(string)@ == old(string)@.push(ch),
;

/// Whether two strings hold the same characters.
pub fn str_eq(a: &str, b: &str) -> (same: bool)
    ensures
        same == (a@ == b@),
{
    let left = a.as_bytes();
    let right = b.as_bytes();
    proof {
        vstd::utf8::encode_utf8_decode_utf8(a@);
        vstd::utf8::encode_utf8_decode_utf8(b@);
    }
    if left.len() != right.len() {
        return false;
    }
    let mut i: usize = 0;
    while i < left.len()
        invariant
            i <= left.len(),
            left@.len() == right@.len(),
            left@ == a.spec_bytes(),
            right@ == b.spec_bytes(),
            forall|k: int| 0 <= k < i ==> left@[k] == right@[k],
        decreases left.len() - i,
    {
        if left[i] != right[i] {
            return false;
        }
        i += 1;
    }
    assert(left@ =~= right@);
    true
}

/// The characters of a string, in order.
pub fn to_chars(text: &str) -> (chars: Vec<char>)
    ensures
        chars@ == text@,
{
    let mut chars: Vec<char> = Vec::new();
    for c in it: text.chars()
        invariant
            it.seq() == text@,
            chars@ == text@.take(it.index() as int),
    {
        chars.push(c);
        assert(text@.take(it.index() + 1) =~= text@.take(it.index() as int).push(c));
    }
    assert(text@.take(text@.len() as int) =~= text@);
    chars
}

/// The string that holds the given characters.
pub fn from_chars(chars: &[char]) -> (text: String)
    ensures
        text@ == chars@,
{
    let mut text = String::new();
    let mut i: usize = 0;
    while i < chars.len()
        invariant
            i <= chars.len(),
            text@ == chars@.take(i as int),
        decreases chars.len() - i,
    {
        text.push(chars[i]);
        i += 1;
        assert(chars@.take(i as int) =~= chars@.take(i - 1).push(chars@[i - 1]));
    }
    assert(chars@.take(chars@.len() as int) =~= chars@);
    text
}

/// Whether a character has the Unicode `White_Space` property.
pub open spec fn white_space(c: char) -> bool {
    ||| '\u{9}' <= c <= '\u{d}'
    ||| c == ' '
    ||| c == '\u{85}'
    ||| c == '\u{a0}'
    ||| c == '\u{1680}'
    ||| '\u{2000}' <= c <= '\u{200a}'
    ||| c == '\u{2028}'
    ||| c == '\u{2029}'
    ||| c == '\u{202f}'
    ||| c == '\u{205f}'
    ||| c == '\u{3000}'
}

/// Whether a character has the Unicode `White_Space` property.
pub fn is_white_space(c: char) -> (yes: bool)
    ensures
        yes == white_space(c),
{
    ('\u{9}' <= c && c <= '\u{d}') || c == ' ' || c == '\u{85}' || c == '\u{a0}' || c == '\u{1680}' || (
    '\u{2000}' <= c && c <= '\u{200a}') || c == '\u{2028}' || c == '\u{2029}' || c == '\u{202f}' || c
        == '\u{205f}' || c == '\u{3000}'
}

/// The text without its leading white space.
pub open spec fn trimmed_start(s: Seq<char>) -> Seq<char>
    decreases s.len(),
{
    if s.len() > 0 && white_space(s[0]) {
        trimmed_start(s.drop_first())
    } else {
        s
    }
}

/// The text without its trailing white space.
pub open spec fn trimmed_end(s: Seq<char>) -> Seq<char>
    decreases s.len(),
{
    if s.len() > 0 && white_space(s.last()) {
        trimmed_end(s.drop_last())
    } else {
        s
    }
}

/// The text without white space at either end.
pub open spec fn trimmed(s: Seq<char>) -> Seq<char> {
    trimmed_end(trimmed_start(s))
}

/// The text without white space at either end.
pub fn trim(text: &str) -> (result: String)
    ensures
        result@ == trimmed(text@),
{
    let chars = to_chars(text);
    let mut start: usize = 0;
    assert(chars@.skip(0) =~= chars@);
    while start < chars.len() && is_white_space(chars[start])
        invariant
            start <= chars.len(),
            trimmed_start(chars@) == trimmed_start(chars@.skip(start as int)),
        decreases chars.len() - start,
    {
        assert(chars@.skip(start as int).drop_first() =~= chars@.skip(start + 1));
        start += 1;
    }
    let ghost rest = chars@.skip(start as int);
    assert(trimmed_start(chars@) == rest);
    let mut end: usize = chars.len();
    assert(chars@.subrange(start as int, end as int) =~= rest);
    while end > start && is_white_space(chars[end - 1])
        invariant
            start <= end <= chars.len(),
            trimmed_end(rest) == trimmed_end(chars@.subrange(start as int, end as int)),
        decreases end,
    {
        assert(chars@.subrange(start as int, end as int).drop_last() =~= chars@.subrange(
            start as int,
            end - 1,
        ));
        end -= 1;
    }
    from_chars(&chars.as_slice()[start..end])
}

/// ASCII lower case of one character.
pub open spec fn ascii_lower(c: char) -> char {
    if 'A' <= c <= 'Z' {
        (c as u32 + 32) as char
    } else {
        c
    }
}

/// ASCII lower case of one character.
pub fn to_ascii_lower(c: char) -> (lower: char)
    ensures
        lower == ascii_lower(c),
{
    if 'A' <= c && c <= 'Z' {
        (c as u8 + 32u8) as char
    } else {
        c
    }
}

/// ASCII lower case of a whole text.
pub open spec fn lowercased(s: Seq<char>) -> Seq<char> {
    s.map_values(|c: char| ascii_lower(c))
}

/// ASCII lower case of a whole text.
pub fn to_lowercase(text: &str) -> (result: String)
    ensures
        result@ == lowercased(text@),
{
    let chars = to_chars(text);
    let mut result = String::new();
    let mut i: usize = 0;
    while i < chars.len()
        invariant
            i <= chars.len(),
            chars@ == text@,
            result@ =~= lowercased(text@).take(i as int),
        decreases chars.len() - i,
    {
        result.push(to_ascii_lower(chars[i]));
        i += 1;
    }
    assert(lowercased(text@).take(i as int) =~= lowercased(text@));
    result
}

/// The character of one decimal digit.
pub open spec fn digit(d: nat) -> char {
    (48 + d) as char
}

/// The decimal digits of a number, without leading zeros.
pub open spec fn decimal(n: nat) -> Seq<char>
    decreases n,
{
    if n < 10 {
        seq![digit(n)]
    } else {
        decimal(n / 10).push(digit(n % 10))
    }
}

/// The decimal digits of a number.
pub fn to_decimal(value: u64) -> (result: String)
    ensures
        result@ == decimal(value as nat),
    decreases value,
{
    let last: char = (48u8 + (value % 10) as u8) as char;
    if value < 10 {
        let mut result = String::new();
        result.push(last);
        assert(result@ =~= seq![digit(value as nat)]);
        result
    } else {
        let mut result = to_decimal(value / 10);
        result.push(last);
        result
    }
}

/// A text filled with zeros on the left up to a width.
pub open spec fn zero_padded(s: Seq<char>, width: nat) -> Seq<char>
    decreases width - s.len(),
{
    if s.len() >= width {
        s
    } else {
        zero_padded(seq!['0'] + s, width)
    }
}

/// The decimal digits of a number, filled with zeros on the left up to a width.
pub fn to_padded_decimal(value: u64, width: usize) -> (result: String)
    ensures
        result@ == zero_padded(decimal(value as nat), width as nat),
{
    let digits = to_decimal(value);
    let mut chars = to_chars(digits.as_str());
    while chars.len() < width
        invariant
            zero_padded(decimal(value as nat), width as nat) == zero_padded(chars@, width as nat),
        decreases width - chars.len(),
    {
        let ghost before = chars@;
        chars.insert(0, '0');
        assert(chars@ =~= seq!['0'] + before);
    }
    from_chars(chars.as_slice())
}

/// Whether `s` begins with `prefix`.
pub open spec fn begins_with(s: Seq<char>, prefix: Seq<char>) -> bool {
    prefix.len() <= s.len() && s.take(prefix.len() as int) == prefix
}

/// Whether `text` begins with `prefix`.
pub fn starts_with(text: &str, prefix: &str) -> (yes: bool)
    ensures
        yes == begins_with(text@, prefix@),
{
    let chars = to_chars(text);
    let head = to_chars(prefix);
    occurs_at(chars.as_slice(), head.as_slice(), 0)
}

/// Whether `needle` stands in `s` at position `at`.
pub open spec fn stands_at(s: Seq<char>, needle: Seq<char>, at: int) -> bool {
    at + needle.len() <= s.len() && s.subrange(at, at + needle.len()) == needle
}

fn occurs_at(chars: &[char], needle: &[char], at: usize) -> (yes: bool)
    requires
        at <= chars.len(),
    ensures
        yes == stands_at(chars@, needle@, at as int),
{
    if chars.len() - at < needle.len() {
        return false;
    }
    let mut k: usize = 0;
    while k < needle.len()
        invariant
            k <= needle.len(),
            at + needle.len() <= chars.len(),
            forall|j: int| 0 <= j < k ==> chars@[at + j] == needle@[j],
        decreases needle.len() - k,
    {
        if chars[at + k] != needle[k] {
            assert(chars@.subrange(at as int, at + needle@.len())[k as int] != needle@[k as int]);
            return false;
        }
        k += 1;
    }
    assert(chars@.subrange(at as int, at + needle@.len()) =~= needle@);
    true
}

/// Whether `needle` stands somewhere in `s`.
pub open spec fn occurs(s: Seq<char>, needle: Seq<char>) -> bool {
    exists|at: int| 0 <= at <= s.len() && #[trigger] stands_at(s, needle, at)
}

/// Whether `needle` stands somewhere in `text`.
pub fn contains_str(text: &str, needle: &str) -> (yes: bool)
    ensures
        yes == occurs(text@, needle@),
{
    let chars = to_chars(text);
    let pattern = to_chars(needle);
    let mut at: usize = 0;
    while at <= chars.len()
        invariant
            at <= chars.len() + 1,
            chars@ == text@,
            pattern@ == needle@,
            forall|j: int| 0 <= j < at ==> !#[trigger] stands_at(text@, needle@, j),
        decreases chars.len() + 1 - at,
    {
        if occurs_at(chars.as_slice(), pattern.as_slice(), at) {
            return true;
        }
        if at == chars.len() {
            return false;
        }
        at += 1;
    }
    false
}

/// A text with one character replaced by another wherever it stands.
pub open spec fn replaced(s: Seq<char>, from: char, to: char) -> Seq<char> {
    s.map_values(
        |c: char|
            if c == from {
                to
            } else {
                c
            },
    )
}

/// A text with one character replaced by another wherever it stands.
pub fn replace_char(text: &str, from: char, to: char) -> (result: String)
    ensures
        result@ == replaced(text@, from, to),
{
    let chars = to_chars(text);
    let mut result = String::new();
    let mut i: usize = 0;
    while i < chars.len()
        invariant
            i <= chars@.len(),
            chars@ == text@,
            result@ =~= replaced(text@, from, to).take(i as int),
        decreases chars@.len() - i,
    {
        if chars[i] == from {
            result.push(to);
        } else {
            result.push(chars[i]);
        }
        i += 1;
    }
    assert(replaced(text@, from, to).take(i as int) =~= replaced(text@, from, to));
    result
}

/// ASCII upper case of one character.
pub open spec fn ascii_upper(c: char) -> char {
    if 'a' <= c <= 'z' {
        (c as u32 - 32) as char
    } else {
        c
    }
}

/// ASCII upper case of a whole text.
pub open spec fn uppercased(s: Seq<char>) -> Seq<char> {
    s.map_values(|c: char| ascii_upper(c))
}

/// ASCII upper case of a whole text.
pub fn to_uppercase(text: &str) -> (result: String)
    ensures
        result@ == uppercased(text@),
{
    let chars = to_chars(text);
    let mut result = String::new();
    let mut i: usize = 0;
    while i < chars.len()
        invariant
            i <= chars@.len(),
            chars@ == text@,
            result@ =~= uppercased(text@).take(i as int),
        decreases chars@.len() - i,
    {
        let c = chars[i];
        if 'a' <= c && c <= 'z' {
            result.push((c as u8 - 32u8) as char);
        } else {
            result.push(c);
        }
        i += 1;
    }
    assert(uppercased(text@).take(i as int) =~= uppercased(text@));
    result
}

/// What stands before a suffix, if the text ends with it.
pub open spec fn before_suffix(s: Seq<char>, suffix: Seq<char>) -> Option<Seq<char>> {
    if suffix.len() <= s.len() && s.skip(s.len() - suffix.len()) == suffix {
        Some(s.take(s.len() - suffix.len()))
    } else {
        None
    }
}

/// What stands before a suffix, if the text ends with it.
pub fn strip_suffix(text: &str, suffix: &str) -> (rest: Option<String>)
    ensures
        optional_view(rest) == before_suffix(text@, suffix@),
{
    let chars = to_chars(text);
    let tail = to_chars(suffix);
    if chars.len() < tail.len() {
        return None;
    }
    let at: usize = chars.len() - tail.len();
    assert(text@.skip(at as int) =~= text@.subrange(at as int, at + tail@.len()));
    if !occurs_at(chars.as_slice(), tail.as_slice(), at) {
        return None;
    }
    assert(chars@.subrange(0, at as int) =~= text@.take(at as int));
    Some(from_chars(&chars.as_slice()[0..at]))
}

/// What stands behind a prefix, if the text begins with it.
pub open spec fn behind_prefix(s: Seq<char>, prefix: Seq<char>) -> Option<Seq<char>> {
    if begins_with(s, prefix) {
        Some(s.skip(prefix.len() as int))
    } else {
        None
    }
}

/// What stands behind a prefix, if the text begins with it.
pub fn strip_prefix(text: &str, prefix: &str) -> (rest: Option<String>)
    ensures
        optional_view(rest) == behind_prefix(text@, prefix@),
{
    let chars = to_chars(text);
    let head = to_chars(prefix);
    if !occurs_at(chars.as_slice(), head.as_slice(), 0) {
        return None;
    }
    assert(chars@.subrange(head@.len() as int, chars@.len() as int) =~= text@.skip(
        head@.len() as int,
    ));
    Some(from_chars(&chars.as_slice()[head.len()..chars.len()]))
}

/// What stands behind the last separator, or the whole text if there is none.
pub open spec fn last_segment(s: Seq<char>, separator: char) -> Seq<char>
    decreases s.len(),
{
    if s.len() == 0 || s.last() == separator {
        Seq::empty()
    } else {
        last_segment(s.drop_last(), separator).push(s.last())
    }
}

/// What stands behind the last separator, or the whole text if there is none.
pub fn after_last(text: &str, separator: char) -> (segment: String)
    ensures
        segment@ == last_segment(text@, separator),
{
    let chars = to_chars(text);
    let mut start: usize = chars.len();
    assert(chars@.subrange(start as int, chars@.len() as int) =~= Seq::empty());
    assert(chars@.take(start as int) =~= chars@);
    assert(last_segment(chars@, separator) =~= last_segment(chars@.take(start as int), separator)
        + chars@.subrange(start as int, chars@.len() as int));
    while start > 0 && chars[start - 1] != separator
        invariant
            start <= chars@.len(),
            last_segment(chars@, separator) == last_segment(chars@.take(start as int), separator)
                + chars@.subrange(start as int, chars@.len() as int),
        decreases start,
    {
        let ghost head = chars@.take(start as int);
        assert(head.drop_last() =~= chars@.take(start - 1));
        assert(last_segment(head.drop_last(), separator).push(head.last()) + chars@.subrange(
            start as int,
            chars@.len() as int,
        ) =~= last_segment(chars@.take(start - 1), separator) + chars@.subrange(
            start - 1,
            chars@.len() as int,
        ));
        start -= 1;
    }
    assert(last_segment(chars@.take(start as int), separator) =~= Seq::empty());
    from_chars(&chars.as_slice()[start..chars.len()])
}

/// The text of an optional string.
pub open spec fn optional_view(value: Option<String>) -> Option<Seq<char>> {
    match value {
        Some(text) => Some(text@),
        None => None,
    }
}

/// The texts of a list of strings.
pub open spec fn texts(list: Seq<String>) -> Seq<Seq<char>> {
    Seq::new(list.len(), |i: int| list[i]@)
}

/// The texts of a list of string slices.
pub open spec fn str_texts(list: Seq<&str>) -> Seq<Seq<char>> {
    Seq::new(list.len(), |i: int| list[i]@)
}

/// Owned copies of a list of string slices.
pub fn to_strings(list: &[&str]) -> (strings: Vec<String>)
    ensures
        texts(strings@) == str_texts(list@),
{
    let mut strings: Vec<String> = Vec::new();
    let mut i: usize = 0;
    while i < list.len()
        invariant
            i <= list@.len(),
            strings@.len() == i,
            forall|k: int| 0 <= k < i ==> #[trigger] strings@[k]@ == list@[k]@,
        decreases list.len() - i,
    {
        strings.push(list[i].to_owned());
        i += 1;
    }
    assert(texts(strings@) =~= str_texts(list@));
    strings
}

/// A copy of a list of strings.
pub fn copy_strings(list: &[String]) -> (strings: Vec<String>)
    ensures
        texts(strings@) == texts(list@),
{
    let mut strings: Vec<String> = Vec::new();
    let mut i: usize = 0;
    while i < list.len()
        invariant
            i <= list@.len(),
            strings@.len() == i,
            forall|k: int| 0 <= k < i ==> #[trigger] strings@[k]@ == list@[k]@,
        decreases list.len() - i,
    {
        strings.push(list[i].clone());
        i += 1;
    }
    assert(texts(strings@) =~= texts(list@));
    strings
}

/// Whether a text is in a list of strings.
pub fn contains_text(list: &[String], item: &str) -> (found: bool)
    ensures
        found == texts(list@).contains(item@),
{
    let mut i: usize = 0;
    while i < list.len()
        invariant
            i <= list@.len(),
            forall|k: int| 0 <= k < i ==> #[trigger] list@[k]@ != item@,
        decreases list.len() - i,
    {
        if str_eq(list[i].as_str(), item) {
            assert(texts(list@)[i as int] == item@);
            return true;
        }
        i += 1;
    }
    assert forall|k: int| 0 <= k < texts(list@).len() implies texts(list@)[k] != item@ by {
        assert(list@[k]@ != item@);
    }
    false
}

/// A list with an item added at the end unless the list holds it already.
pub open spec fn with_distinct<A>(list: Seq<A>, item: A) -> Seq<A> {
    if list.contains(item) {
        list
    } else {
        list.push(item)
    }
}

/// A list with the items of another added, in order, each unless it is there
/// already.
pub open spec fn with_all_distinct<A>(list: Seq<A>, items: Seq<A>) -> Seq<A>
    decreases items.len(),
{
    if items.len() == 0 {
        list
    } else {
        with_distinct(with_all_distinct(list, items.drop_last()), items.last())
    }
}

/// Adds a text at the end of a list unless the list holds it already.
pub fn push_distinct(list: &mut Vec<String>, item: &str)
    ensures
        texts(final(list)@) == with_distinct(texts(old(list)@), item@),
{
    if !contains_text(list.as_slice(), item) {
        list.push(item.to_owned());
        assert(texts(list@) =~= texts(old(list)@).push(item@));
    }
}

/// Adds texts at the end of a list, in order, each unless it is there already.
pub fn push_all_distinct(list: &mut Vec<String>, items: &[String])
    ensures
        texts(final(list)@) == with_all_distinct(texts(old(list)@), texts(items@)),
{
    let ghost before = texts(list@);
    let ghost all = texts(items@);
    let mut i: usize = 0;
    assert(all.take(0) =~= Seq::empty());
    while i < items.len()
        invariant
            i <= items@.len(),
            all == texts(items@),
            texts(list@) == with_all_distinct(before, all.take(i as int)),
        decreases items.len() - i,
    {
        assert(all.take(i + 1).drop_last() =~= all.take(i as int));
        push_distinct(list, items[i].as_str());
        i += 1;
    }
    assert(all.take(i as int) =~= all);
}

/// Adding items without repeating any keeps what was there in front, holds every
/// item of both lists and nothing else, and repeats nothing if the first list
/// does not.
pub proof fn lemma_with_all_distinct<A>(list: Seq<A>, items: Seq<A>)
    ensures
        list.len() <= with_all_distinct(list, items).len(),
        with_all_distinct(list, items).take(list.len() as int) == list,
        forall|x: A|
            with_all_distinct(list, items).contains(x) <==> list.contains(x) || items.contains(x),
        list.no_duplicates() ==> with_all_distinct(list, items).no_duplicates(),
    decreases items.len(),
{
    if items.len() == 0 {
        assert(list.take(list.len() as int) =~= list);
    } else {
        let init = items.drop_last();
        lemma_with_all_distinct(list, init);
        let before = with_all_distinct(list, init);
        let after = with_all_distinct(list, items);
        assert(after.take(list.len() as int) =~= before.take(list.len() as int));
        assert forall|x: A| after.contains(x) <==> list.contains(x) || items.contains(x) by {
            if items.contains(x) {
                let k = choose|k: int| 0 <= k < items.len() && items[k] == x;
                if k < init.len() {
                    assert(init.contains(init[k]));
                    assert(before.contains(x));
                    let j = choose|j: int| 0 <= j < before.len() && before[j] == x;
                    assert(after[j] == x);
                } else {
                    if before.contains(x) {
                    } else {
                        assert(after[before.len() as int] == x);
                    }
                }
            }
            if list.contains(x) {
                assert(before.contains(x));
                let j = choose|j: int| 0 <= j < before.len() && before[j] == x;
                assert(after[j] == x);
            }
            if after.contains(x) {
                let j = choose|j: int| 0 <= j < after.len() && after[j] == x;
                if j < before.len() {
                    assert(before[j] == x);
                    assert(before.contains(x));
                    if init.contains(x) {
                        let k = choose|k: int| 0 <= k < init.len() && init[k] == x;
                        assert(items[k] == x);
                    }
                } else {
                    assert(items[items.len() - 1] == x);
                }
            }
        }
    }
}

} // verus!
