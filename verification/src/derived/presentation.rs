//! How derived products are titled and how their files are named.
use crate::model::ModelId;
use crate::numbers;
use crate::text;
use crate::text::{from_chars, str_eq, to_ascii_lower, to_chars, to_lowercase};
use vstd::prelude::*;
use vstd::string::*;

verus! {

/// Whether a text names a dataset: a `d` and one or more digits.
pub open spec fn dataset_token(s: Seq<char>) -> bool {
    &&& s.len() > 1
    &&& s[0] == 'd'
    &&& forall|i: int| 1 <= i < s.len() ==> numbers::is_digit(#[trigger] s[i])
}

pub(crate) fn is_dataset_token(chars: &[char]) -> (yes: bool)
    ensures
        yes == dataset_token(chars@),
{
    if chars.len() <= 1 || chars[0] != 'd' {
        return false;
    }
    let mut i: usize = 1;
    while i < chars.len()
        invariant
            1 <= i <= chars@.len(),
            forall|k: int| 1 <= k < i ==> numbers::is_digit(#[trigger] chars@[k]),
        decreases chars@.len() - i,
    {
        if !('0' <= chars[i] && chars[i] <= '9') {
            return false;
        }
        i = i + 1;
    }
    true
}

/// Whether a token names a dataset.
pub fn is_gdex_dataset_token(token: &str) -> (yes: bool)
    ensures
        yes == dataset_token(token@),
{
    let chars = to_chars(token);
    is_dataset_token(chars.as_slice())
}

/// Whether a character separates a dataset from what follows it.
pub open spec fn separator(c: char) -> bool {
    c == '-' || c == '_'
}

/// Where the first separator stands, or the end.
pub open spec fn first_separator(s: Seq<char>) -> int
    decreases s.len(),
{
    if s.len() == 0 || separator(s[0]) {
        0
    } else {
        1 + first_separator(s.drop_first())
    }
}

proof fn lemma_first_separator(s: Seq<char>, at: int)
    requires
        0 <= at <= s.len(),
        forall|k: int| 0 <= k < at ==> !separator(#[trigger] s[k]),
        at < s.len() ==> separator(s[at]),
    ensures
        first_separator(s) == at,
    decreases s.len(),
{
    if at > 0 {
        assert(!separator(s[0]));
        let rest = s.drop_first();
        assert forall|k: int| 0 <= k < at - 1 implies !separator(#[trigger] rest[k]) by {
            assert(rest[k] == s[k + 1]);
        }
        lemma_first_separator(rest, at - 1);
    }
}

pub(crate) fn find_separator(chars: &[char]) -> (at: usize)
    ensures
        at == first_separator(chars@),
        at <= chars@.len(),
{
    let mut i: usize = 0;
    while i < chars.len() && !(chars[i] == '-' || chars[i] == '_')
        invariant
            i <= chars@.len(),
            forall|k: int| 0 <= k < i ==> !separator(#[trigger] chars@[k]),
        decreases chars@.len() - i,
    {
        i = i + 1;
    }
    proof {
        lemma_first_separator(chars@, i as int);
    }
    i
}

pub(crate) fn copy_chars(chars: &[char], start: usize, end: usize) -> (part: Vec<char>)
    requires
        start <= end <= chars@.len(),
    ensures
        part@ == chars@.subrange(start as int, end as int),
{
    let mut part: Vec<char> = Vec::new();
    crate::gridded::crop::append_range(&mut part, chars, start, end);
    part
}

/// The dataset that a product belongs to: the product's name up to its first
/// separator, if that names a dataset.
pub open spec fn dataset_of(product: Seq<char>) -> Option<Seq<char>> {
    let head = product.take(first_separator(product));
    if dataset_token(head) {
        Some(head)
    } else {
        None
    }
}

/// The dataset that a product belongs to.
pub fn dataset_token_from_product(product: &str) -> (dataset: Option<String>)
    ensures
        match dataset {
            Some(dataset) => dataset_of(product@) == Some(dataset@),
            None => dataset_of(product@) is None,
        },
{
    let chars = to_chars(product);
    let at: usize = find_separator(chars.as_slice());
    let head = copy_chars(chars.as_slice(), 0, at);
    proof {
        assert(head@ =~= product@.take(first_separator(product@)));
    }
    if is_dataset_token(head.as_slice()) {
        Some(from_chars(head.as_slice()))
    } else {
        None
    }
}

/// Whether what follows the dataset names a two-dimensional history or future
/// product, or a domain: a `d` and two digits.
pub open spec fn surface_suffix(s: Seq<char>) -> bool {
    ||| s == "hist2d"@
    ||| s == "future2d"@
    ||| s.len() == 3 && dataset_token(s)
}

/// Whether a product of the WRF archive holds native surface diagnostics. Case
/// does not matter, nor does which separator follows the dataset.
pub open spec fn native_surface_product(product: Seq<char>) -> bool {
    let at = first_separator(product);
    &&& at < product.len()
    &&& dataset_token(text::lowercased(product.take(at)))
    &&& surface_suffix(hyphenated(text::lowercased(product.skip(at + 1))))
}

/// A text with every underscore replaced by a hyphen.
pub open spec fn hyphenated(s: Seq<char>) -> Seq<char> {
    Seq::new(
        s.len(),
        |i: int|
            if s[i] == '_' {
                '-'
            } else {
                s[i]
            },
    )
}

pub(crate) fn lower_chars(chars: &[char]) -> (lowered: Vec<char>)
    ensures
        lowered@ == text::lowercased(chars@),
{
    let mut lowered: Vec<char> = Vec::new();
    let mut i: usize = 0;
    while i < chars.len()
        invariant
            i <= chars@.len(),
            lowered@ =~= text::lowercased(chars@).take(i as int),
        decreases chars@.len() - i,
    {
        lowered.push(to_ascii_lower(chars[i]));
        i = i + 1;
    }
    proof {
        assert(text::lowercased(chars@).take(i as int) =~= text::lowercased(chars@));
    }
    lowered
}

pub(crate) fn hyphenate(chars: &[char]) -> (result: Vec<char>)
    ensures
        result@ == hyphenated(chars@),
{
    let mut result: Vec<char> = Vec::new();
    let mut i: usize = 0;
    while i < chars.len()
        invariant
            i <= chars@.len(),
            result@ =~= hyphenated(chars@).take(i as int),
        decreases chars@.len() - i,
    {
        if chars[i] == '_' {
            result.push('-');
        } else {
            result.push(chars[i]);
        }
        i = i + 1;
    }
    proof {
        assert(hyphenated(chars@).take(i as int) =~= hyphenated(chars@));
    }
    result
}

/// Whether a product of the WRF archive holds native surface diagnostics.
pub fn wrf_gdex_native_surface_product(product: &str) -> (yes: bool)
    ensures
        yes == native_surface_product(product@),
{
    let chars = to_chars(product);
    let at: usize = find_separator(chars.as_slice());
    if at == chars.len() {
        return false;
    }
    let head = copy_chars(chars.as_slice(), 0, at);
    let tail = copy_chars(chars.as_slice(), at + 1, chars.len());
    proof {
        assert(head@ =~= product@.take(at as int));
        assert(tail@ =~= product@.skip(at + 1));
    }
    let dataset = lower_chars(head.as_slice());
    if !is_dataset_token(dataset.as_slice()) {
        return false;
    }
    let lowered = lower_chars(tail.as_slice());
    let suffix = hyphenate(lowered.as_slice());
    let name = from_chars(suffix.as_slice());
    str_eq(name.as_str(), "hist2d") || str_eq(name.as_str(), "future2d") || (suffix.len() == 3
        && is_dataset_token(suffix.as_slice()))
}

/// Whether a request is for a local WRF file, which is read as a product of the
/// WRF archive.
pub open spec fn local_wrf(
    model: ModelId,
    surface_product: Option<Seq<char>>,
    pressure_product: Option<Seq<char>>,
) -> bool {
    model == ModelId::WrfGdex && ((surface_product matches Some(product) && text::lowercased(
        product,
    ) == "local_wrf_netcdf"@) || (pressure_product matches Some(product) && text::lowercased(
        product,
    ) == "local_wrf_netcdf"@))
}

/// The text of an optional string slice.
pub open spec fn optional(value: Option<&str>) -> Option<Seq<char>> {
    match value {
        Some(value) => Some(value@),
        None => None,
    }
}

fn names_local_wrf(product: Option<&str>) -> (yes: bool)
    ensures
        yes == (optional(product) matches Some(product) && text::lowercased(product)
            == "local_wrf_netcdf"@),
{
    match product {
        Some(product) => {
            let lowered = to_lowercase(product);
            str_eq(lowered.as_str(), "local_wrf_netcdf")
        },
        None => false,
    }
}

/// Whether a request is for a local WRF file.
pub fn is_local_wrf_netcdf_request(
    model: ModelId,
    surface_product: Option<&str>,
    pressure_product: Option<&str>,
) -> (yes: bool)
    ensures
        yes == local_wrf(model, optional(surface_product), optional(pressure_product)),
{
    model == ModelId::WrfGdex && (names_local_wrf(surface_product) || names_local_wrf(
        pressure_product,
    ))
}

/// The dataset that titles of the WRF archive name unless a product says
/// otherwise.
pub open spec fn default_dataset() -> Seq<char> {
    "d612005"@
}

/// The dataset that the products of a request name: that of the surface product
/// first, then that of the pressure product, then the default.
pub open spec fn request_dataset(
    surface_product: Option<Seq<char>>,
    pressure_product: Option<Seq<char>>,
) -> Seq<char> {
    match surface_product {
        Some(product) if dataset_of(product) is Some => dataset_of(product)->Some_0,
        _ => match pressure_product {
            Some(product) if dataset_of(product) is Some => dataset_of(product)->Some_0,
            _ => default_dataset(),
        },
    }
}

/// The title of a product in a request. Only titles of the WRF archive name
/// their dataset. The suffix of all titles comes last.
pub open spec fn request_title(
    model: ModelId,
    surface_product: Option<Seq<char>>,
    pressure_product: Option<Seq<char>>,
    base: Seq<char>,
    suffix: Seq<char>,
) -> Seq<char> {
    if model != ModelId::WrfGdex || local_wrf(model, surface_product, pressure_product) {
        base + suffix
    } else {
        base + " ("@ + request_dataset(surface_product, pressure_product) + ")"@ + suffix
    }
}

fn dataset_of_optional(product: Option<&str>) -> (dataset: Option<String>)
    ensures
        match dataset {
            Some(dataset) => product is Some && dataset_of(product->Some_0@) == Some(dataset@),
            None => product is None || dataset_of(product->Some_0@) is None,
        },
{
    match product {
        Some(product) => dataset_token_from_product(product),
        None => None,
    }
}

/// The title of a product in a request.
pub fn derived_title_for_request(
    model: ModelId,
    surface_product: Option<&str>,
    pressure_product: Option<&str>,
    base_title: &str,
    suffix: &str,
) -> (title: String)
    ensures
        title@ == request_title(
            model,
            optional(surface_product),
            optional(pressure_product),
            base_title@,
            suffix@,
        ),
{
    if is_local_wrf_netcdf_request(model, surface_product, pressure_product) || model
        != ModelId::WrfGdex {
        return base_title.to_owned().concat(suffix);
    }
    let dataset = match dataset_of_optional(surface_product) {
        Some(dataset) => dataset,
        None => match dataset_of_optional(pressure_product) {
            Some(dataset) => dataset,
            None => "d612005".to_owned(),
        },
    };
    base_title.to_owned().concat(" (").concat(dataset.as_str()).concat(")").concat(suffix)
}

/// The title of a product of a model, where no request is at hand.
pub fn derived_title_for_model(model: ModelId, base_title: &str, suffix: &str) -> (title: String)
    ensures
        title@ == (if model == ModelId::WrfGdex {
            base_title@ + " ("@ + default_dataset() + ")"@ + suffix@
        } else {
            base_title@ + suffix@
        }),
{
    if model == ModelId::WrfGdex {
        base_title.to_owned().concat(" (").concat("d612005").concat(")").concat(suffix)
    } else {
        base_title.to_owned().concat(suffix)
    }
}

/// Whether a character is an ASCII letter or digit.
pub open spec fn alphanumeric(c: char) -> bool {
    numbers::is_digit(c) || 'a' <= c <= 'z' || 'A' <= c <= 'Z'
}

/// Whether a character may stand in a suffix, but not at its ends.
pub open spec fn joint(c: char) -> bool {
    c == '_' || c == '-' || c == '.'
}

/// What one character becomes in a suffix: letters are lowered, white space
/// becomes an underscore, and what is neither that nor a letter, a digit or a
/// joint is dropped.
pub open spec fn suffix_part(c: char) -> Seq<char> {
    if alphanumeric(c) {
        seq![text::ascii_lower(c)]
    } else if joint(c) {
        seq![c]
    } else if text::white_space(c) {
        seq!['_']
    } else {
        Seq::empty()
    }
}

/// What a text becomes in a suffix, before its ends are trimmed.
pub open spec fn suffix_parts(s: Seq<char>) -> Seq<char>
    decreases s.len(),
{
    if s.len() == 0 {
        Seq::empty()
    } else {
        suffix_parts(s.drop_last()) + suffix_part(s.last())
    }
}

/// A text without the joints at its start.
pub open spec fn without_leading_joints(s: Seq<char>) -> Seq<char>
    decreases s.len(),
{
    if s.len() > 0 && joint(s[0]) {
        without_leading_joints(s.drop_first())
    } else {
        s
    }
}

/// A text without the joints at its end.
pub open spec fn without_trailing_joints(s: Seq<char>) -> Seq<char>
    decreases s.len(),
{
    if s.len() > 0 && joint(s.last()) {
        without_trailing_joints(s.drop_last())
    } else {
        s
    }
}

/// The suffix that a text gives.
pub open spec fn sanitized(s: Seq<char>) -> Seq<char> {
    without_trailing_joints(without_leading_joints(suffix_parts(s)))
}

fn is_joint(c: char) -> (yes: bool)
    ensures
        yes == joint(c),
{
    c == '_' || c == '-' || c == '.'
}

/// The suffix that a text gives.
pub fn sanitize_output_suffix(value: &str) -> (suffix: String)
    ensures
        suffix@ == sanitized(value@),
{
    let chars = to_chars(value);
    let mut parts: Vec<char> = Vec::new();
    let mut i: usize = 0;
    while i < chars.len()
        invariant
            i <= chars@.len(),
            chars@ == value@,
            parts@ == suffix_parts(value@.take(i as int)),
        decreases chars@.len() - i,
    {
        let c = chars[i];
        let ghost before = parts@;
        proof {
            assert(value@.take(i + 1).drop_last() == value@.take(i as int));
        }
        if ('0' <= c && c <= '9') || ('a' <= c && c <= 'z') || ('A' <= c && c <= 'Z') {
            parts.push(to_ascii_lower(c));
        } else if is_joint(c) {
            parts.push(c);
        } else if crate::text::is_white_space(c) {
            parts.push('_');
        }
        proof {
            assert(parts@ =~= before + suffix_part(c));
        }
        i = i + 1;
    }
    proof {
        assert(value@.take(i as int) == value@);
    }
    let len: usize = parts.len();
    let mut start: usize = 0;
    proof {
        assert(parts@.subrange(0, len as int) == parts@);
    }
    while start < len && is_joint(parts[start])
        invariant
            start <= len,
            len == parts@.len(),
            without_leading_joints(parts@) == without_leading_joints(
                parts@.subrange(start as int, len as int),
            ),
        decreases len - start,
    {
        proof {
            assert(parts@.subrange(start as int, len as int).drop_first() == parts@.subrange(
                start + 1,
                len as int,
            ));
        }
        start = start + 1;
    }
    let mut end: usize = len;
    while start < end && is_joint(parts[end - 1])
        invariant
            start <= end <= len,
            len == parts@.len(),
            without_trailing_joints(parts@.subrange(start as int, len as int))
                == without_trailing_joints(parts@.subrange(start as int, end as int)),
        decreases end - start,
    {
        proof {
            assert(parts@.subrange(start as int, end as int).drop_last() == parts@.subrange(
                start as int,
                end - 1,
            ));
        }
        end = end - 1;
    }
    let kept = copy_chars(parts.as_slice(), start, end);
    from_chars(kept.as_slice())
}

/// What is added to a file name: an underscore and the suffix, or nothing where
/// there is no suffix.
pub open spec fn file_suffix(value: Option<Seq<char>>) -> Seq<char> {
    match value {
        Some(value) => if sanitized(value).len() > 0 {
            "_"@ + sanitized(value)
        } else {
            ""@
        },
        None => ""@,
    }
}

/// What is added to a file name.
pub fn derived_output_suffix(output_suffix: Option<&str>) -> (suffix: String)
    ensures
        suffix@ == file_suffix(optional(output_suffix)),
{
    match output_suffix {
        Some(value) => {
            let sanitized_value = sanitize_output_suffix(value);
            let chars = to_chars(sanitized_value.as_str());
            if chars.len() > 0 {
                "_".to_owned().concat(sanitized_value.as_str())
            } else {
                "".to_owned()
            }
        },
        None => "".to_owned(),
    }
}

/// A suffix is made of lower-case letters, digits and joints, and neither begins
/// nor ends with a joint.
pub proof fn law_suffix_is_clean(value: Seq<char>)
    ensures
        forall|i: int|
            0 <= i < sanitized(value).len() ==> {
                ||| numbers::is_digit(#[trigger] sanitized(value)[i])
                ||| 'a' <= sanitized(value)[i] <= 'z'
                ||| joint(sanitized(value)[i])
            },
        sanitized(value).len() > 0 ==> !joint(sanitized(value)[0]) && !joint(
            sanitized(value).last(),
        ),
{
    lemma_parts_are_clean(value);
    let parts = suffix_parts(value);
    lemma_leading(parts);
    lemma_trailing(without_leading_joints(parts));
}

spec fn clean(s: Seq<char>) -> bool {
    forall|i: int|
        0 <= i < s.len() ==> numbers::is_digit(#[trigger] s[i]) || 'a' <= s[i] <= 'z' || joint(s[i])
}

proof fn lemma_parts_are_clean(value: Seq<char>)
    ensures
        clean(suffix_parts(value)),
    decreases value.len(),
{
    if value.len() > 0 {
        lemma_parts_are_clean(value.drop_last());
    }
}

proof fn lemma_leading(s: Seq<char>)
    ensures
        clean(s) ==> clean(without_leading_joints(s)),
        without_leading_joints(s).len() > 0 ==> !joint(without_leading_joints(s)[0]),
    decreases s.len(),
{
    if s.len() > 0 && joint(s[0]) {
        lemma_leading(s.drop_first());
    }
}

proof fn lemma_trailing(s: Seq<char>)
    ensures
        clean(s) ==> clean(without_trailing_joints(s)),
        without_trailing_joints(s).len() > 0 ==> !joint(without_trailing_joints(s).last())
            && without_trailing_joints(s)[0] == s[0],
    decreases s.len(),
{
    if s.len() > 0 && joint(s.last()) {
        lemma_trailing(s.drop_last());
    }
}

} // verus!
