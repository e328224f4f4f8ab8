//! How direct maps are titled.
use crate::derived::presentation;
use crate::derived::presentation::dataset_token_from_product;
use crate::direct::types;
use crate::direct::types::{product_override, DirectBatchRequest};
use crate::model::ModelId;
use crate::numbers;
use crate::text;
use crate::text::{
    after_last, contains_str, replace_char, starts_with, str_eq, strip_prefix, strip_suffix, to_chars,
    to_lowercase, to_uppercase, trim,
};
use vstd::prelude::*;
use vstd::string::*;

verus! {

/// A text without the cadence at its end.
pub open spec fn without_cadence(s: Seq<char>) -> Seq<char> {
    match text::before_suffix(s, "_3hrly"@) {
        Some(rest) => rest,
        None => match text::before_suffix(s, "_hourly"@) {
            Some(rest) => rest,
            None => match text::before_suffix(s, "_1hrly"@) {
                Some(rest) => rest,
                None => s,
            },
        },
    }
}

/// A text without the region at its end.
pub open spec fn without_region(s: Seq<char>) -> Seq<char> {
    match text::before_suffix(s, "_conus"@) {
        Some(rest) => rest,
        None => match text::before_suffix(s, "_ak"@) {
            Some(rest) => rest,
            None => match text::before_suffix(s, "_hi"@) {
                Some(rest) => rest,
                None => match text::before_suffix(s, "_pr"@) {
                    Some(rest) => rest,
                    None => s,
                },
            },
        },
    }
}

/// The part of a product's name that may name a statistic.
pub open spec fn stat_token(product: Seq<char>) -> Seq<char> {
    let last = text::lowercased(text::trimmed(text::last_segment(product, '/')));
    without_region(text::replaced(without_cadence(last), '-', '_'))
}

/// Whether a token names a percentile: a `p` and one or more digits.
pub open spec fn percentile(token: Seq<char>) -> bool {
    &&& token.len() >= 2
    &&& token[0] == 'p'
    &&& forall|i: int| 1 <= i < token.len() ==> numbers::is_digit(#[trigger] token[i])
}

/// What a token is called in a title, if it names a statistic.
pub open spec fn token_label(token: Seq<char>) -> Option<Seq<char>> {
    if token == "mean"@ {
        Some("Mean"@)
    } else if token == "avg"@ || token == "avrg"@ {
        Some("Average"@)
    } else if token == "spread"@ || token == "sprd"@ {
        Some("Spread"@)
    } else if token == "std"@ || token == "stddev"@ || token == "stdev"@ {
        Some("Std Dev"@)
    } else if token == "min"@ || token == "minimum"@ {
        Some("Min"@)
    } else if token == "max"@ || token == "maximum"@ {
        Some("Max"@)
    } else if token == "prob"@ || token == "probability"@ {
        Some("Probability"@)
    } else if token == "eas"@ {
        Some("EAS"@)
    } else if token == "lpmm"@ {
        Some("Localized PMM"@)
    } else if token == "pmmn"@ || token == "pmm"@ {
        Some("Probability-Matched Mean"@)
    } else if token == "ffri"@ {
        Some("FFRI"@)
    } else if percentile(token) {
        Some(text::uppercased(token))
    } else {
        None
    }
}

/// The statistic that a product's name names, as a title calls it.
pub open spec fn stat_label(product: Seq<char>) -> Option<Seq<char>> {
    token_label(stat_token(product))
}

fn drop_cadence(token: String) -> (rest: String)
    ensures
        rest@ == without_cadence(token@),
{
    if let Some(rest) = strip_suffix(token.as_str(), "_3hrly") {
        return rest;
    }
    if let Some(rest) = strip_suffix(token.as_str(), "_hourly") {
        return rest;
    }
    if let Some(rest) = strip_suffix(token.as_str(), "_1hrly") {
        return rest;
    }
    token
}

fn drop_region(token: String) -> (rest: String)
    ensures
        rest@ == without_region(token@),
{
    if let Some(rest) = strip_suffix(token.as_str(), "_conus") {
        return rest;
    }
    if let Some(rest) = strip_suffix(token.as_str(), "_ak") {
        return rest;
    }
    if let Some(rest) = strip_suffix(token.as_str(), "_hi") {
        return rest;
    }
    if let Some(rest) = strip_suffix(token.as_str(), "_pr") {
        return rest;
    }
    token
}

fn is_percentile(token: &str) -> (yes: bool)
    ensures
        yes == percentile(token@),
{
    let chars = to_chars(token);
    if chars.len() < 2 || chars[0] != 'p' {
        return false;
    }
    let mut i: usize = 1;
    while i < chars.len()
        invariant
            1 <= i <= chars@.len(),
            chars@ == token@,
            forall|k: int| 1 <= k < i ==> numbers::is_digit(#[trigger] chars@[k]),
        decreases chars@.len() - i,
    {
        if !('0' <= chars[i] && chars[i] <= '9') {
            return false;
        }
        i = i + 1;
    }
    true
}

/// The statistic that a product's name names, as a title calls it.
pub fn native_stat_label_from_product(product: &str) -> (label: Option<String>)
    ensures
        text::optional_view(label) == stat_label(product@),
{
    let segment = after_last(product, '/');
    let trimmed = trim(segment.as_str());
    let lowered = to_lowercase(trimmed.as_str());
    let plain = drop_cadence(lowered);
    let token = drop_region(replace_char(plain.as_str(), '-', '_'));
    let name = token.as_str();
    if str_eq(name, "mean") {
        Some("Mean".to_owned())
    } else if str_eq(name, "avg") || str_eq(name, "avrg") {
        Some("Average".to_owned())
    } else if str_eq(name, "spread") || str_eq(name, "sprd") {
        Some("Spread".to_owned())
    } else if str_eq(name, "std") || str_eq(name, "stddev") || str_eq(name, "stdev") {
        Some("Std Dev".to_owned())
    } else if str_eq(name, "min") || str_eq(name, "minimum") {
        Some("Min".to_owned())
    } else if str_eq(name, "max") || str_eq(name, "maximum") {
        Some("Max".to_owned())
    } else if str_eq(name, "prob") || str_eq(name, "probability") {
        Some("Probability".to_owned())
    } else if str_eq(name, "eas") {
        Some("EAS".to_owned())
    } else if str_eq(name, "lpmm") {
        Some("Localized PMM".to_owned())
    } else if str_eq(name, "pmmn") || str_eq(name, "pmm") {
        Some("Probability-Matched Mean".to_owned())
    } else if str_eq(name, "ffri") {
        Some("FFRI".to_owned())
    } else if is_percentile(name) {
        Some(to_uppercase(name))
    } else {
        None
    }
}

/// The first statistic that the replacements of a list of overrides name.
pub open spec fn overrides_label(overrides: Seq<(String, String)>) -> Option<Seq<char>>
    decreases overrides.len(),
{
    if overrides.len() == 0 {
        None
    } else {
        match stat_label(overrides[0].1@) {
            Some(label) => Some(label),
            None => overrides_label(overrides.drop_first()),
        }
    }
}

/// The statistic that a planned product stands for: that of its override, then
/// its own.
pub open spec fn planned_label(overrides: Seq<(String, String)>, planned: Seq<char>) -> Option<
    Seq<char>,
> {
    match types::overriding(overrides, planned) {
        Some(product) => match stat_label(product) {
            Some(label) => Some(label),
            None => stat_label(planned),
        },
        None => stat_label(planned),
    }
}

/// The statistic that a title names: that of the planned product, then that of
/// any override.
pub open spec fn request_label(
    overrides: Seq<(String, String)>,
    planned: Option<Seq<char>>,
) -> Option<Seq<char>> {
    match planned {
        Some(product) => match planned_label(overrides, product) {
            Some(label) => Some(label),
            None => overrides_label(overrides),
        },
        None => overrides_label(overrides),
    }
}

fn find_overrides_label(overrides: &[(String, String)]) -> (label: Option<String>)
    ensures
        text::optional_view(label) == overrides_label(overrides@),
{
    let mut i: usize = 0;
    proof {
        assert(overrides@.skip(0) == overrides@);
    }
    while i < overrides.len()
        invariant
            i <= overrides@.len(),
            overrides_label(overrides@) == overrides_label(overrides@.skip(i as int)),
        decreases overrides@.len() - i,
    {
        proof {
            assert(overrides@.skip(i as int).drop_first() == overrides@.skip(i + 1));
        }
        let label = native_stat_label_from_product(overrides[i].1.as_str());
        if label.is_some() {
            return label;
        }
        i = i + 1;
    }
    None
}

/// The statistic that the title of a planned product names.
pub fn native_stat_label_for_request<B, O>(
    request: &DirectBatchRequest<B, O>,
    planned_product: Option<&str>,
) -> (label: Option<String>)
    ensures
        text::optional_view(label) == request_label(
            request.product_overrides@,
            presentation::optional(planned_product),
        ),
{
    if let Some(planned) = planned_product {
        if let Some(product) = product_override(request.product_overrides.as_slice(), planned) {
            let label = native_stat_label_from_product(product.as_str());
            if label.is_some() {
                return label;
            }
        }
        let label = native_stat_label_from_product(planned);
        if label.is_some() {
            return label;
        }
    }
    find_overrides_label(request.product_overrides.as_slice())
}

/// How titles call a model.
pub open spec fn title_prefix(model: Seq<char>) -> Seq<char> {
    text::uppercased(text::replaced(model, '-', ' '))
}

/// A title with the statistic behind the model's name. The model's name is put
/// in front where it is not there already, and the statistic is not repeated.
pub open spec fn stat_title(model: Seq<char>, label: Seq<char>, base: Seq<char>) -> Seq<char> {
    let name = title_prefix(model);
    if text::begins_with(base, name + " "@ + label + " "@) {
        base
    } else {
        match text::behind_prefix(base, name + " "@) {
            Some(rest) => name + " "@ + label + " "@ + rest,
            None => name + " "@ + label + " "@ + base,
        }
    }
}

/// A title with the statistic behind the model's name.
pub fn apply_native_stat_title_prefix(model: &str, stat_label: &str, base_title: &str) -> (title:
    String)
    ensures
        title@ == stat_title(model@, stat_label@, base_title@),
{
    let spaced = replace_char(model, '-', ' ');
    let name = to_uppercase(spaced.as_str());
    let stat_prefix = name.clone().concat(" ").concat(stat_label).concat(" ");
    if starts_with(base_title, stat_prefix.as_str()) {
        return base_title.to_owned();
    }
    let model_prefix = name.concat(" ");
    match strip_prefix(base_title, model_prefix.as_str()) {
        Some(rest) => stat_prefix.concat(rest.as_str()),
        None => stat_prefix.concat(base_title),
    }
}

/// The first dataset that the replacements of a list of overrides name.
pub open spec fn overrides_dataset(overrides: Seq<(String, String)>) -> Option<Seq<char>>
    decreases overrides.len(),
{
    if overrides.len() == 0 {
        None
    } else {
        match presentation::dataset_of(overrides[0].1@) {
            Some(dataset) => Some(dataset),
            None => overrides_dataset(overrides.drop_first()),
        }
    }
}

/// The dataset that a planned product belongs to: that of its override, then its
/// own.
pub open spec fn planned_dataset(overrides: Seq<(String, String)>, planned: Seq<char>) -> Option<
    Seq<char>,
> {
    match types::overriding(overrides, planned) {
        Some(product) => match presentation::dataset_of(product) {
            Some(dataset) => Some(dataset),
            None => presentation::dataset_of(planned),
        },
        None => presentation::dataset_of(planned),
    }
}

/// The dataset that a title names: that of the planned product, then that of any
/// override, then the default.
pub open spec fn title_dataset(
    overrides: Seq<(String, String)>,
    planned: Option<Seq<char>>,
) -> Seq<char> {
    let found = match planned {
        Some(product) => match planned_dataset(overrides, product) {
            Some(dataset) => Some(dataset),
            None => overrides_dataset(overrides),
        },
        None => overrides_dataset(overrides),
    };
    match found {
        Some(dataset) => dataset,
        None => presentation::default_dataset(),
    }
}

fn find_overrides_dataset(overrides: &[(String, String)]) -> (dataset: Option<String>)
    ensures
        text::optional_view(dataset) == overrides_dataset(overrides@),
{
    let mut i: usize = 0;
    proof {
        assert(overrides@.skip(0) == overrides@);
    }
    while i < overrides.len()
        invariant
            i <= overrides@.len(),
            overrides_dataset(overrides@) == overrides_dataset(overrides@.skip(i as int)),
        decreases overrides@.len() - i,
    {
        proof {
            assert(overrides@.skip(i as int).drop_first() == overrides@.skip(i + 1));
        }
        let dataset = dataset_token_from_product(overrides[i].1.as_str());
        if dataset.is_some() {
            return dataset;
        }
        i = i + 1;
    }
    None
}

fn dataset_for_request<B, O>(request: &DirectBatchRequest<B, O>, planned_product: Option<&str>) -> (dataset:
    String)
    ensures
        dataset@ == title_dataset(
            request.product_overrides@,
            presentation::optional(planned_product),
        ),
{
    if let Some(planned) = planned_product {
        if let Some(product) = product_override(request.product_overrides.as_slice(), planned) {
            if let Some(dataset) = dataset_token_from_product(product.as_str()) {
                return dataset;
            }
        }
        if let Some(dataset) = dataset_token_from_product(planned) {
            return dataset;
        }
    }
    match find_overrides_dataset(request.product_overrides.as_slice()) {
        Some(dataset) => dataset,
        None => "d612005".to_owned(),
    }
}

/// Whether a subtitle says that the data is a local WRF file. Case does not
/// matter.
pub open spec fn names_local_wrf(subtitle: Option<Seq<char>>) -> bool {
    match subtitle {
        Some(subtitle) => text::occurs(text::lowercased(subtitle), "local wrf netcdf"@),
        None => false,
    }
}

fn is_local_wrf_netcdf_request<B, O>(request: &DirectBatchRequest<B, O>) -> (yes: bool)
    ensures
        yes == names_local_wrf(text::optional_view(request.subtitle_right_override)),
{
    match &request.subtitle_right_override {
        Some(subtitle) => {
            let lowered = to_lowercase(subtitle.as_str());
            contains_str(lowered.as_str(), "local wrf netcdf")
        },
        None => false,
    }
}

/// The title of a map. A statistic goes behind the model's name, a map of the WRF
/// archive names its dataset, and the suffix of all titles comes last.
pub open spec fn map_title<B, O>(
    request: DirectBatchRequest<B, O>,
    model: Seq<char>,
    planned: Option<Seq<char>>,
    base: Seq<char>,
    suffix: Seq<char>,
) -> Seq<char> {
    let title = match request_label(request.product_overrides@, planned) {
        Some(label) => stat_title(model, label, base),
        None => base,
    };
    if request.model != ModelId::WrfGdex || names_local_wrf(
        text::optional_view(request.subtitle_right_override),
    ) {
        title + suffix
    } else {
        title + " ("@ + title_dataset(request.product_overrides@, planned) + ")"@ + suffix
    }
}

fn direct_title_for_request<B, O>(
    request: &DirectBatchRequest<B, O>,
    model: &str,
    planned_product: Option<&str>,
    base_title: &str,
    suffix: &str,
) -> (title: String)
    ensures
        title@ == map_title(
            *request,
            model@,
            presentation::optional(planned_product),
            base_title@,
            suffix@,
        ),
{
    let title = match native_stat_label_for_request(request, planned_product) {
        Some(label) => apply_native_stat_title_prefix(model, label.as_str(), base_title),
        None => base_title.to_owned(),
    };
    if request.model != ModelId::WrfGdex || is_local_wrf_netcdf_request(request) {
        return title.concat(suffix);
    }
    let dataset = dataset_for_request(request, planned_product);
    title.concat(" (").concat(dataset.as_str()).concat(")").concat(suffix)
}

/// The title of a map of a planned product.
pub fn direct_title_for_planned_product<B, O>(
    request: &DirectBatchRequest<B, O>,
    model: &str,
    planned_product: &str,
    base_title: &str,
    suffix: &str,
) -> (title: String)
    ensures
        title@ == map_title(*request, model@, Some(planned_product@), base_title@, suffix@),
{
    direct_title_for_request(request, model, Some(planned_product), base_title, suffix)
}

/// The title of a map that is made of panels.
pub fn direct_panel_title_for_request<B, O>(
    request: &DirectBatchRequest<B, O>,
    model: &str,
    base_title: &str,
    suffix: &str,
) -> (title: String)
    ensures
        title@ == map_title(*request, model@, None, base_title@, suffix@),
{
    direct_title_for_request(request, model, None, base_title, suffix)
}

/// A statistic is put into a title once: doing it again changes nothing.
pub proof fn law_statistic_is_not_repeated(model: Seq<char>, label: Seq<char>, base: Seq<char>)
    ensures
        stat_title(model, label, stat_title(model, label, base)) == stat_title(model, label, base),
{
    let name = title_prefix(model);
    let prefix = name + " "@ + label + " "@;
    if !text::begins_with(base, prefix) {
        match text::behind_prefix(base, name + " "@) {
            Some(rest) => {
                assert((prefix + rest).take(prefix.len() as int) =~= prefix);
            },
            None => {
                assert((prefix + base).take(prefix.len() as int) =~= prefix);
            },
        }
    }
}

} // verus!
