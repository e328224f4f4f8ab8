//! What titles and file names of derived maps tell of their products.
use crate::derived::presentation;
use crate::model::ModelId;
use crate::text;
use vstd::prelude::*;

verus! {

/// A title begins with what it is given and ends with the suffix of all titles.
/// Nothing stands between them but the dataset of the WRF archive in brackets, and
/// not even that for a local file.
pub proof fn law_titles_name_the_dataset_of_the_archive_alone(
    model: ModelId,
    surface_product: Option<Seq<char>>,
    pressure_product: Option<Seq<char>>,
    base: Seq<char>,
    suffix: Seq<char>,
)
    ensures
        ({
            let title = presentation::request_title(
                model,
                surface_product,
                pressure_product,
                base,
                suffix,
            );
            let dataset = presentation::request_dataset(surface_product, pressure_product);
            let between = title.len() - base.len() - suffix.len();
            &&& text::begins_with(title, base)
            &&& text::before_suffix(title, suffix) is Some
            &&& between == 0 || between == dataset.len() + 3
            &&& model != ModelId::WrfGdex ==> between == 0
            &&& model == ModelId::WrfGdex && between == 0 ==> {
                ||| surface_product matches Some(product) && text::lowercased(product)
                    == "local_wrf_netcdf"@
                ||| pressure_product matches Some(product) && text::lowercased(product)
                    == "local_wrf_netcdf"@
            }
            &&& between > 0 ==> text::occurs(title, "("@ + dataset + ")"@)
        }),
{
    reveal_strlit(" (");
    reveal_strlit("(");
    reveal_strlit(")");
    let title = presentation::request_title(
        model,
        surface_product,
        pressure_product,
        base,
        suffix,
    );
    let dataset = presentation::request_dataset(surface_product, pressure_product);
    assert(title.take(base.len() as int) =~= base);
    assert(title.skip(title.len() - suffix.len()) =~= suffix);
    if title.len() > base.len() + suffix.len() {
        let at = base.len() + 1;
        let bracket = "("@ + dataset + ")"@;
        assert(title.subrange(at as int, (at + bracket.len()) as int) =~= bracket);
        assert(text::stands_at(title, bracket, at as int));
    }
}

/// The dataset is that of the surface product before that of the pressure product,
/// and each is named by a `d` with digits behind it that the product begins with.
pub proof fn law_surface_product_names_the_dataset_first(
    surface_product: Option<Seq<char>>,
    pressure_product: Option<Seq<char>>,
    product: Seq<char>,
)
    ensures
        surface_product == Some(product) && presentation::dataset_of(product) is Some
            ==> presentation::request_dataset(surface_product, pressure_product)
            == presentation::dataset_of(product)->Some_0,
        surface_product == Some(product) && presentation::dataset_of(product) is None
            ==> presentation::request_dataset(surface_product, pressure_product)
            == presentation::request_dataset(None, pressure_product),
        pressure_product == Some(product) && presentation::dataset_of(product) is Some
            ==> presentation::request_dataset(None, pressure_product) == presentation::dataset_of(
            product,
        )->Some_0,
        presentation::dataset_of(product) matches Some(dataset) ==> {
            &&& text::begins_with(product, dataset)
            &&& dataset.len() >= 2
            &&& dataset[0] == 'd'
            &&& product.len() == dataset.len() || product[dataset.len() as int] == '-'
                || product[dataset.len() as int] == '_'
        },
{
    lemma_first_separator(product);
}

proof fn lemma_first_separator(s: Seq<char>)
    ensures
        0 <= presentation::first_separator(s) <= s.len(),
        presentation::first_separator(s) < s.len() ==> presentation::separator(
            s[presentation::first_separator(s)],
        ),
    decreases s.len(),
{
    if s.len() > 0 && !presentation::separator(s[0]) {
        lemma_first_separator(s.drop_first());
    }
}

} // verus!
