//! How numbers are written and read.
use crate::numbers;
use crate::text;
use vstd::prelude::*;

verus! {

proof fn lemma_decimal(n: nat)
    ensures
        text::decimal(n).len() > 0,
        forall|i: int|
            0 <= i < text::decimal(n).len() ==> numbers::is_digit(#[trigger] text::decimal(n)[i]),
        numbers::digits_value(text::decimal(n)) == n,
    decreases n,
{
    let written = text::decimal(n);
    if n < 10 {
        assert(written.drop_last() =~= Seq::<char>::empty());
        assert(written.last() == text::digit(n));
        assert(numbers::digits_value(written.drop_last()) == 0);
    } else {
        lemma_decimal(n / 10);
        assert(written.drop_last() =~= text::decimal(n / 10));
        assert(written.last() == text::digit(n % 10));
    }
}

proof fn lemma_leading_zero(s: Seq<char>)
    ensures
        numbers::digits_value(seq!['0'] + s) == numbers::digits_value(s),
    decreases s.len(),
{
    let longer = seq!['0'] + s;
    if s.len() == 0 {
        assert(longer.drop_last() =~= Seq::<char>::empty());
        assert(longer.last() == '0');
        assert(numbers::digits_value(longer.drop_last()) == 0);
    } else {
        lemma_leading_zero(s.drop_last());
        assert(longer.drop_last() =~= seq!['0'] + s.drop_last());
        assert(longer.last() == s.last());
    }
}

/// A number that is written in decimal digits is read back, with or without a plus
/// sign before it, if it is within the limit, and refused otherwise.
pub proof fn law_written_numbers_are_read_back(n: nat, max: nat)
    ensures
        n <= max ==> numbers::parsed(text::decimal(n), max) == Some(n),
        n <= max ==> numbers::parsed(seq!['+'] + text::decimal(n), max) == Some(n),
        n > max ==> numbers::parsed(text::decimal(n), max) is None,
        n > max ==> numbers::parsed(seq!['+'] + text::decimal(n), max) is None,
{
    lemma_decimal(n);
    let written = text::decimal(n);
    assert(numbers::is_digit(written[0]));
    assert(numbers::without_plus(written) == written);
    assert(numbers::without_plus(seq!['+'] + written) =~= written);
}

/// Two numbers that are written alike are one.
pub proof fn law_numbers_are_written_apart(a: nat, b: nat)
    requires
        text::decimal(a) == text::decimal(b),
    ensures
        a == b,
{
    lemma_decimal(a);
    lemma_decimal(b);
}

/// A number that is padded has at least the width, and is still read as itself. One
/// that is wide enough is left alone.
pub proof fn law_padding_keeps_the_number(s: Seq<char>, width: nat)
    ensures
        text::zero_padded(s, width).len() >= width,
        s.len() >= width ==> text::zero_padded(s, width) == s,
        s.len() < width ==> text::zero_padded(s, width).len() == width,
        numbers::digits_value(text::zero_padded(s, width)) == numbers::digits_value(s),
        text::before_suffix(text::zero_padded(s, width), s) is Some,
    decreases width - s.len(),
{
    let padded = text::zero_padded(s, width);
    if s.len() < width {
        let longer = seq!['0'] + s;
        law_padding_keeps_the_number(longer, width);
        lemma_leading_zero(s);
        assert(padded.skip(padded.len() - longer.len()) == longer);
        assert(padded.skip(padded.len() - s.len()) =~= longer.skip(1));
        assert(longer.skip(1) =~= s);
    } else {
        assert(s.skip(0) =~= s);
    }
}

/// What is no number is refused: an empty text, a sign alone, and a text with
/// anything but digits behind its sign.
pub proof fn law_only_digits_are_read(s: Seq<char>, max: nat, i: int)
    ensures
        s.len() == 0 ==> numbers::parsed(s, max) is None,
        s == seq!['+'] ==> numbers::parsed(s, max) is None,
        0 < i < s.len() && !numbers::is_digit(s[i]) ==> numbers::parsed(s, max) is None,
        s.len() > 0 && s[0] != '+' && !numbers::is_digit(s[0]) ==> numbers::parsed(s, max) is None,
        numbers::parsed(s, max) matches Some(number) ==> number <= max,
{
    let digits = numbers::without_plus(s);
    if 0 < i < s.len() && !numbers::is_digit(s[i]) {
        if s[0] == '+' {
            assert(digits[i - 1] == s[i]);
        } else {
            assert(digits[i] == s[i]);
        }
    }
    if s.len() > 0 && s[0] != '+' && !numbers::is_digit(s[0]) {
        assert(digits[0] == s[0]);
    }
}

/// A text without white space at its ends is left alone by trimming, and trimming
/// leaves such a text.
pub proof fn law_trimming_leaves_no_white_space_outside(s: Seq<char>)
    ensures
        ({
            let rest = text::trimmed(s);
            &&& rest.len() > 0 ==> !text::white_space(rest[0]) && !text::white_space(rest.last())
            &&& s.len() == 0 || (!text::white_space(s[0]) && !text::white_space(s.last())) ==> rest
                == s
            &&& text::trimmed(rest) == rest
        }),
{
    lemma_trimmed_start(s);
    let inner = text::trimmed_start(s);
    lemma_trimmed_end(inner);
    let rest = text::trimmed(s);
    if rest.len() > 0 {
        assert(rest[0] == inner[0]);
    }
}

proof fn lemma_trimmed_start(s: Seq<char>)
    ensures
        text::trimmed_start(s).len() > 0 ==> !text::white_space(text::trimmed_start(s)[0]),
    decreases s.len(),
{
    if s.len() > 0 && text::white_space(s[0]) {
        lemma_trimmed_start(s.drop_first());
    }
}

proof fn lemma_trimmed_end(s: Seq<char>)
    ensures
        text::trimmed_end(s).len() > 0 ==> !text::white_space(text::trimmed_end(s).last())
            && text::trimmed_end(s)[0] == s[0],
    decreases s.len(),
{
    if s.len() > 0 && text::white_space(s.last()) {
        lemma_trimmed_end(s.drop_last());
    }
}

/// White space round a text does not matter once it is trimmed.
pub proof fn law_white_space_outside_does_not_matter(s: Seq<char>, c: char)
    requires
        text::white_space(c),
    ensures
        text::trimmed(seq![c] + s) == text::trimmed(s),
{
    assert((seq![c] + s).drop_first() =~= s);
}

} // verus!
