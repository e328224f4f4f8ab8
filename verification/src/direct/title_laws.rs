//! What the titles of direct maps tell of their products.
use crate::derived::presentation;
use crate::direct::titles;
use crate::direct::types;
use crate::text;
use vstd::prelude::*;

verus! {

/// A statistic is called by what its name is short for: the label begins with the
/// letters that the name begins with. Of a probability-matched mean, the label says
/// that it is one.
pub proof fn law_statistics_are_called_by_their_names(token: Seq<char>)
    requires
        titles::token_label(token) is Some,
    ensures
        ({
            let label = titles::token_label(token)->Some_0;
            let spelled = text::lowercased(label);
            &&& label.len() >= 2 && token.len() >= 2
            &&& spelled[0] == token[0]
            &&& text::begins_with(token, "av"@) ==> label == "Average"@
            &&& text::begins_with(token, "pmm"@) || text::begins_with(token, "lpmm"@) || (
            spelled[1] == token[1] && (token.len() > 2 && label != "Average"@ ==> label.len() > 2
                && spelled[2] == token[2]))
            &&& text::begins_with(token, "pmm"@) ==> label == "Probability-Matched Mean"@
            &&& text::begins_with(token, "lpmm"@) ==> label == "Localized PMM"@
            &&& titles::percentile(token) ==> label == text::uppercased(token)
        }),
{
    reveal_strlit("mean");
    reveal_strlit("Mean");
    reveal_strlit("avg");
    reveal_strlit("avrg");
    reveal_strlit("Average");
    reveal_strlit("spread");
    reveal_strlit("sprd");
    reveal_strlit("Spread");
    reveal_strlit("std");
    reveal_strlit("stddev");
    reveal_strlit("stdev");
    reveal_strlit("Std Dev");
    reveal_strlit("min");
    reveal_strlit("minimum");
    reveal_strlit("Min");
    reveal_strlit("max");
    reveal_strlit("maximum");
    reveal_strlit("Max");
    reveal_strlit("prob");
    reveal_strlit("probability");
    reveal_strlit("Probability");
    reveal_strlit("eas");
    reveal_strlit("EAS");
    reveal_strlit("lpmm");
    reveal_strlit("Localized PMM");
    reveal_strlit("pmmn");
    reveal_strlit("pmm");
    reveal_strlit("Probability-Matched Mean");
    reveal_strlit("ffri");
    reveal_strlit("FFRI");
    reveal_strlit("av");
    let label = titles::token_label(token)->Some_0;
    lemma_prefix(token, "av"@);
    lemma_prefix(token, "pmm"@);
    lemma_prefix(token, "lpmm"@);
    let spelled = text::lowercased(label);
    if token == "mean"@ {
        assert(spelled[0] == 'm' && spelled[1] == 'e' && spelled[2] == 'a');
        assert(token[0] == 'm' && token[1] == 'e' && token[2] == 'a');
    } else if token == "avg"@ || token == "avrg"@ {
        assert(spelled[0] == 'a' && spelled[1] == 'v');
        assert(token[0] == 'a' && token[1] == 'v');
    } else if token == "spread"@ || token == "sprd"@ {
        assert(spelled[0] == 's' && spelled[1] == 'p' && spelled[2] == 'r');
        assert(token[0] == 's' && token[1] == 'p' && token[2] == 'r');
    } else if token == "std"@ || token == "stddev"@ || token == "stdev"@ {
        assert(spelled[0] == 's' && spelled[1] == 't' && spelled[2] == 'd');
        assert(token[0] == 's' && token[1] == 't' && token[2] == 'd');
    } else if token == "min"@ || token == "minimum"@ {
        assert(spelled[0] == 'm' && spelled[1] == 'i' && spelled[2] == 'n');
        assert(token[0] == 'm' && token[1] == 'i' && token[2] == 'n');
    } else if token == "max"@ || token == "maximum"@ {
        assert(spelled[0] == 'm' && spelled[1] == 'a' && spelled[2] == 'x');
        assert(token[0] == 'm' && token[1] == 'a' && token[2] == 'x');
    } else if token == "prob"@ || token == "probability"@ {
        assert(spelled[0] == 'p' && spelled[1] == 'r' && spelled[2] == 'o');
        assert(token[0] == 'p' && token[1] == 'r' && token[2] == 'o');
    } else if token == "eas"@ {
        assert(spelled[0] == 'e' && spelled[1] == 'a' && spelled[2] == 's');
        assert(token[0] == 'e' && token[1] == 'a' && token[2] == 's');
    } else if token == "lpmm"@ {
        assert(spelled[0] == 'l' && token[0] == 'l' && token[1] == 'p');
    } else if token == "pmmn"@ || token == "pmm"@ {
        assert(spelled[0] == 'p' && token[0] == 'p' && token[1] == 'm');
        assert(text::begins_with(token, "pmm"@));
    } else if token == "ffri"@ {
        assert(spelled[0] == 'f' && spelled[1] == 'f' && spelled[2] == 'r');
        assert(token[0] == 'f' && token[1] == 'f' && token[2] == 'r');
    } else {
        assert(titles::percentile(token) && label == text::uppercased(token));
        assert(spelled[0] == 'p');
        assert('0' <= token[1] <= '9');
        assert(spelled[1] == token[1]);
        if token.len() > 2 {
            assert('0' <= token[2] <= '9');
            assert(spelled[2] == token[2]);
        }
    }
}

proof fn lemma_prefix(s: Seq<char>, prefix: Seq<char>)
    ensures
        text::begins_with(s, prefix) ==> forall|i: int|
            0 <= i < prefix.len() ==> #[trigger] s[i] == prefix[i],
        prefix.len() <= s.len() && (forall|i: int|
            0 <= i < prefix.len() ==> #[trigger] s[i] == prefix[i]) ==> text::begins_with(s, prefix),
{
    if text::begins_with(s, prefix) {
        assert forall|i: int| 0 <= i < prefix.len() implies #[trigger] s[i] == prefix[i] by {
            assert(s.take(prefix.len() as int)[i] == s[i]);
        }
    }
    if prefix.len() <= s.len() && (forall|i: int|
        0 <= i < prefix.len() ==> #[trigger] s[i] == prefix[i]) {
        assert(s.take(prefix.len() as int) =~= prefix);
    }
}

/// A title goes by the planned product before any other, and by the override of a
/// planned product before the product itself. Only a planned product that names no
/// statistic leaves that to the other overrides.
pub proof fn law_planned_products_come_before_overrides(
    overrides: Seq<(String, String)>,
    planned: Seq<char>,
)
    ensures
        titles::planned_label(overrides, planned) is Some ==> titles::request_label(
            overrides,
            Some(planned),
        ) == titles::planned_label(overrides, planned),
        types::overriding(overrides, planned) is None ==> titles::planned_label(overrides, planned)
            == titles::stat_label(planned),
        types::overriding(overrides, planned) matches Some(product) && titles::stat_label(product)
            is Some ==> titles::planned_label(overrides, planned) == titles::stat_label(
            types::overriding(overrides, planned)->Some_0,
        ),
        titles::planned_label(overrides, planned) is None ==> titles::request_label(
            overrides,
            Some(planned),
        ) == titles::request_label(overrides, None),
        types::overriding(overrides, planned) matches Some(product) && presentation::dataset_of(
            product,
        ) is Some ==> titles::title_dataset(overrides, Some(planned)) == presentation::dataset_of(
            types::overriding(overrides, planned)->Some_0,
        )->Some_0,
        types::overriding(overrides, planned) is None && presentation::dataset_of(planned) is Some
            ==> titles::title_dataset(overrides, Some(planned)) == presentation::dataset_of(
            planned,
        )->Some_0,
{
}

} // verus!
