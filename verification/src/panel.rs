//! Fields shown on panels of heavy products.
use crate::derived::recipes::DerivedRecipe;
use crate::text::str_eq;
use vstd::prelude::*;
use vstd::string::*;

verus! {

/// A product of the heavy computation.
#[derive(Debug, Clone, Copy, PartialEq, Eq, Structural)]
pub enum WeatherProduct {
    Sbecape,
    Mlecape,
    Muecape,
    SbEcapeDerivedCapeRatio,
    MlEcapeDerivedCapeRatio,
    MuEcapeDerivedCapeRatio,
    SbEcapeNativeCapeRatio,
    MlEcapeNativeCapeRatio,
    MuEcapeNativeCapeRatio,
    Sbncape,
    Sbecin,
    Mlecin,
    EcapeScpExperimental,
    EcapeEhi01kmExperimental,
    EcapeEhi03kmExperimental,
    EcapeStpExperimental,
    StpFixed,
}

impl WeatherProduct {
    pub open spec fn spec_slug(self) -> &'static str {
        match self {
            WeatherProduct::Sbecape => "sbecape",
            WeatherProduct::Mlecape => "mlecape",
            WeatherProduct::Muecape => "muecape",
            WeatherProduct::SbEcapeDerivedCapeRatio => "sb_ecape_derived_cape_ratio",
            WeatherProduct::MlEcapeDerivedCapeRatio => "ml_ecape_derived_cape_ratio",
            WeatherProduct::MuEcapeDerivedCapeRatio => "mu_ecape_derived_cape_ratio",
            WeatherProduct::SbEcapeNativeCapeRatio => "sb_ecape_native_cape_ratio",
            WeatherProduct::MlEcapeNativeCapeRatio => "ml_ecape_native_cape_ratio",
            WeatherProduct::MuEcapeNativeCapeRatio => "mu_ecape_native_cape_ratio",
            WeatherProduct::Sbncape => "sbncape",
            WeatherProduct::Sbecin => "sbecin",
            WeatherProduct::Mlecin => "mlecin",
            WeatherProduct::EcapeScpExperimental => "ecape_scp",
            WeatherProduct::EcapeEhi01kmExperimental => "ecape_ehi_0_1km",
            WeatherProduct::EcapeEhi03kmExperimental => "ecape_ehi_0_3km",
            WeatherProduct::EcapeStpExperimental => "ecape_stp",
            WeatherProduct::StpFixed => "stp_fixed",
        }
    }

    /// The name under which the product is stored and drawn.
    pub fn slug(self) -> (slug: &'static str)
        ensures
            slug == self.spec_slug(),
    {
        match self {
            WeatherProduct::Sbecape => "sbecape",
            WeatherProduct::Mlecape => "mlecape",
            WeatherProduct::Muecape => "muecape",
            WeatherProduct::SbEcapeDerivedCapeRatio => "sb_ecape_derived_cape_ratio",
            WeatherProduct::MlEcapeDerivedCapeRatio => "ml_ecape_derived_cape_ratio",
            WeatherProduct::MuEcapeDerivedCapeRatio => "mu_ecape_derived_cape_ratio",
            WeatherProduct::SbEcapeNativeCapeRatio => "sb_ecape_native_cape_ratio",
            WeatherProduct::MlEcapeNativeCapeRatio => "ml_ecape_native_cape_ratio",
            WeatherProduct::MuEcapeNativeCapeRatio => "mu_ecape_native_cape_ratio",
            WeatherProduct::Sbncape => "sbncape",
            WeatherProduct::Sbecin => "sbecin",
            WeatherProduct::Mlecin => "mlecin",
            WeatherProduct::EcapeScpExperimental => "ecape_scp",
            WeatherProduct::EcapeEhi01kmExperimental => "ecape_ehi_0_1km",
            WeatherProduct::EcapeEhi03kmExperimental => "ecape_ehi_0_3km",
            WeatherProduct::EcapeStpExperimental => "ecape_stp",
            WeatherProduct::StpFixed => "stp_fixed",
        }
    }
}

/// The product of a heavy recipe.
pub open spec fn product_of(recipe: DerivedRecipe) -> Option<WeatherProduct> {
    match recipe {
        DerivedRecipe::Sbecape => Some(WeatherProduct::Sbecape),
        DerivedRecipe::Mlecape => Some(WeatherProduct::Mlecape),
        DerivedRecipe::Muecape => Some(WeatherProduct::Muecape),
        DerivedRecipe::SbEcapeDerivedCapeRatio => Some(WeatherProduct::SbEcapeDerivedCapeRatio),
        DerivedRecipe::MlEcapeDerivedCapeRatio => Some(WeatherProduct::MlEcapeDerivedCapeRatio),
        DerivedRecipe::MuEcapeDerivedCapeRatio => Some(WeatherProduct::MuEcapeDerivedCapeRatio),
        DerivedRecipe::SbEcapeNativeCapeRatio => Some(WeatherProduct::SbEcapeNativeCapeRatio),
        DerivedRecipe::MlEcapeNativeCapeRatio => Some(WeatherProduct::MlEcapeNativeCapeRatio),
        DerivedRecipe::MuEcapeNativeCapeRatio => Some(WeatherProduct::MuEcapeNativeCapeRatio),
        DerivedRecipe::Sbncape => Some(WeatherProduct::Sbncape),
        DerivedRecipe::Sbecin => Some(WeatherProduct::Sbecin),
        DerivedRecipe::Mlecin => Some(WeatherProduct::Mlecin),
        DerivedRecipe::EcapeScp => Some(WeatherProduct::EcapeScpExperimental),
        DerivedRecipe::EcapeEhi01km => Some(WeatherProduct::EcapeEhi01kmExperimental),
        DerivedRecipe::EcapeEhi03km => Some(WeatherProduct::EcapeEhi03kmExperimental),
        DerivedRecipe::EcapeStp => Some(WeatherProduct::EcapeStpExperimental),
        _ => None,
    }
}

/// The product that a heavy recipe's panel field carries.
pub fn weather_product_for_heavy_recipe(recipe: DerivedRecipe) -> (product: Result<
    WeatherProduct,
    String,
>)
    ensures
        match product_of(recipe) {
            Some(expected) => product == Ok::<WeatherProduct, String>(expected),
            None => product is Err && product->Err_0@ == "recipe '"@ + recipe.spec_slug()@
                + "' is not a heavy ECAPE-class recipe"@,
        },
{
    match recipe {
        DerivedRecipe::Sbecape => Ok(WeatherProduct::Sbecape),
        DerivedRecipe::Mlecape => Ok(WeatherProduct::Mlecape),
        DerivedRecipe::Muecape => Ok(WeatherProduct::Muecape),
        DerivedRecipe::SbEcapeDerivedCapeRatio => Ok(WeatherProduct::SbEcapeDerivedCapeRatio),
        DerivedRecipe::MlEcapeDerivedCapeRatio => Ok(WeatherProduct::MlEcapeDerivedCapeRatio),
        DerivedRecipe::MuEcapeDerivedCapeRatio => Ok(WeatherProduct::MuEcapeDerivedCapeRatio),
        DerivedRecipe::SbEcapeNativeCapeRatio => Ok(WeatherProduct::SbEcapeNativeCapeRatio),
        DerivedRecipe::MlEcapeNativeCapeRatio => Ok(WeatherProduct::MlEcapeNativeCapeRatio),
        DerivedRecipe::MuEcapeNativeCapeRatio => Ok(WeatherProduct::MuEcapeNativeCapeRatio),
        DerivedRecipe::Sbncape => Ok(WeatherProduct::Sbncape),
        DerivedRecipe::Sbecin => Ok(WeatherProduct::Sbecin),
        DerivedRecipe::Mlecin => Ok(WeatherProduct::Mlecin),
        DerivedRecipe::EcapeScp => Ok(WeatherProduct::EcapeScpExperimental),
        DerivedRecipe::EcapeEhi01km => Ok(WeatherProduct::EcapeEhi01kmExperimental),
        DerivedRecipe::EcapeEhi03km => Ok(WeatherProduct::EcapeEhi03kmExperimental),
        DerivedRecipe::EcapeStp => Ok(WeatherProduct::EcapeStpExperimental),
        other => Err(
            "recipe '".to_owned().concat(other.slug()).concat(
                "' is not a heavy ECAPE-class recipe",
            ),
        ),
    }
}

/// Exactly the heavy recipes have a product, and the product goes by the
/// recipe's own slug.
pub proof fn law_heavy_products_keep_the_recipe_slug(recipe: DerivedRecipe)
    ensures
        product_of(recipe) is Some <==> recipe.spec_is_heavy(),
        product_of(recipe) matches Some(product) ==> product.spec_slug() == recipe.spec_slug(),
{
}

/// One field of a panel.
pub struct WeatherPanelField<T> {
    pub product: WeatherProduct,
    pub units: String,
    pub values: Vec<T>,
    /// The title, where it is not the product's.
    pub title_override: Option<String>,
    /// The name of the artifact, where it is not the product's slug.
    pub artifact_slug: Option<String>,
}

impl<T> WeatherPanelField<T> {
    pub open spec fn spec_artifact_slug(self) -> Seq<char> {
        match self.artifact_slug {
            Some(slug) => slug@,
            None => self.product.spec_slug()@,
        }
    }

    /// A field under its product's own title and slug.
    pub fn new(product: WeatherProduct, units: &str, values: Vec<T>) -> (field: Self)
        ensures
            field.product == product,
            field.units@ == units@,
            field.values == values,
            field.title_override is None,
            field.artifact_slug is None,
    {
        WeatherPanelField {
            product,
            units: units.to_owned(),
            values,
            title_override: None,
            artifact_slug: None,
        }
    }

    /// The field under a title of its own.
    pub fn with_title_override(self, title: &str) -> (field: Self)
        ensures
            field.title_override is Some,
            field.title_override->Some_0@ == title@,
            field.product == self.product,
            field.units@ == self.units@,
            field.values == self.values,
            field.artifact_slug == self.artifact_slug,
    {
        WeatherPanelField { title_override: Some(title.to_owned()), ..self }
    }

    /// The name of the field's artifact.
    pub fn artifact_slug(&self) -> (slug: &str)
        ensures
            slug@ == self.spec_artifact_slug(),
    {
        match &self.artifact_slug {
            Some(slug) => slug.as_str(),
            None => self.product.slug(),
        }
    }
}

/// The first field with an artifact slug.
pub open spec fn first_with_slug<T>(fields: Seq<WeatherPanelField<T>>, slug: Seq<char>) -> Option<
    int,
>
    decreases fields.len(),
{
    if fields.len() == 0 {
        None
    } else {
        match first_with_slug(fields.drop_last(), slug) {
            Some(index) => Some(index),
            None => if fields.last().spec_artifact_slug() == slug {
                Some(fields.len() - 1)
            } else {
                None
            },
        }
    }
}

/// The first field with a slug has it, and no field before it does.
pub proof fn lemma_first_with_slug<T>(fields: Seq<WeatherPanelField<T>>, slug: Seq<char>)
    ensures
        match first_with_slug(fields, slug) {
            Some(index) => {
                &&& 0 <= index < fields.len()
                &&& fields[index].spec_artifact_slug() == slug
                &&& forall|k: int|
                    0 <= k < index ==> (#[trigger] fields[k]).spec_artifact_slug() != slug
            },
            None => forall|k: int|
                0 <= k < fields.len() ==> (#[trigger] fields[k]).spec_artifact_slug() != slug,
        },
    decreases fields.len(),
{
    if fields.len() > 0 {
        let rest = fields.drop_last();
        lemma_first_with_slug(rest, slug);
        assert forall|k: int| 0 <= k < rest.len() implies rest[k] == #[trigger] fields[k] by {}
    }
}

/// The place of the first field with an artifact slug.
pub fn find_by_slug<T>(fields: &Vec<WeatherPanelField<T>>, slug: &str) -> (index: Option<usize>)
    ensures
        match index {
            Some(index) => first_with_slug(fields@, slug@) == Some(index as int),
            None => first_with_slug(fields@, slug@) is None,
        },
{
    let mut i: usize = 0;
    while i < fields.len()
        invariant
            i <= fields@.len(),
            first_with_slug(fields@.take(i as int), slug@) is None,
        decreases fields@.len() - i,
    {
        proof {
            assert(fields@.take(i + 1).drop_last() == fields@.take(i as int));
        }
        if str_eq(fields[i].artifact_slug(), slug) {
            proof {
                assert(first_with_slug(fields@.take(i + 1), slug@) == Some(i as int));
                lemma_first_stays(fields@, slug@, i + 1);
            }
            return Some(i);
        }
        i = i + 1;
    }
    proof {
        assert(fields@.take(i as int) == fields@);
    }
    None
}

proof fn lemma_first_stays<T>(fields: Seq<WeatherPanelField<T>>, slug: Seq<char>, len: int)
    requires
        0 <= len <= fields.len(),
        first_with_slug(fields.take(len), slug) is Some,
    ensures
        first_with_slug(fields, slug) == first_with_slug(fields.take(len), slug),
    decreases fields.len(),
{
    if len == fields.len() {
        assert(fields.take(len) == fields);
    } else {
        assert(fields.drop_last().take(len) == fields.take(len));
        lemma_first_stays(fields.drop_last(), slug, len);
    }
}

} // verus!
