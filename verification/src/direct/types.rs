//! What a direct batch is asked for and what it reports.
use crate::derived::types::NativeContourRenderMode;
use crate::heavy::DomainSpec;
use crate::model::{ModelId, SourceId};
use crate::text;
use crate::text::str_eq;
use vstd::prelude::*;
use vstd::string::*;

verus! {

/// The width of a direct map.
pub const OUTPUT_WIDTH: u32 = 1600;

/// The height of a direct map.
pub const OUTPUT_HEIGHT: u32 = 900;

/// A batch of maps drawn straight from a model file. `B` is the type of the
/// domain's bounds, and `O` that of an overlay of place labels. The overrides replace
/// a planned product by another, and name each planned product once.
pub struct DirectBatchRequest<B, O> {
    pub model: ModelId,
    pub date_yyyymmdd: String,
    pub cycle_override_utc: Option<u8>,
    pub forecast_hour: u16,
    pub source: SourceId,
    pub domain: DomainSpec<B>,
    pub use_cache: bool,
    pub recipe_slugs: Vec<String>,
    pub product_overrides: Vec<(String, String)>,
    pub contour_mode: NativeContourRenderMode,
    pub native_fill_level_multiplier: usize,
    pub output_width: u32,
    pub output_height: u32,
    pub place_label_overlay: Option<O>,
    pub output_suffix: Option<String>,
    pub subtitle_left_override: Option<String>,
    pub subtitle_right_override: Option<String>,
}

/// A batch of maps of the HRRR model.
pub struct HrrrDirectBatchRequest<B, O> {
    pub date_yyyymmdd: String,
    pub cycle_override_utc: Option<u8>,
    pub forecast_hour: u16,
    pub source: SourceId,
    pub domain: DomainSpec<B>,
    pub use_cache: bool,
    pub recipe_slugs: Vec<String>,
    pub contour_mode: NativeContourRenderMode,
    pub native_fill_level_multiplier: usize,
    pub output_width: u32,
    pub output_height: u32,
    pub place_label_overlay: Option<O>,
}

impl<B, O> DirectBatchRequest<B, O> {
    /// The batch that a batch of the HRRR model stands for: nothing overridden,
    /// no suffix and no subtitles of its own.
    pub fn from_hrrr_for_planner(request: HrrrDirectBatchRequest<B, O>) -> (generic: Self)
        ensures
            generic.model == ModelId::Hrrr,
            generic.date_yyyymmdd == request.date_yyyymmdd,
            generic.cycle_override_utc == request.cycle_override_utc,
            generic.forecast_hour == request.forecast_hour,
            generic.source == request.source,
            generic.domain == request.domain,
            generic.use_cache == request.use_cache,
            generic.recipe_slugs == request.recipe_slugs,
            generic.product_overrides@.len() == 0,
            generic.contour_mode == request.contour_mode,
            generic.native_fill_level_multiplier == request.native_fill_level_multiplier,
            generic.output_width == request.output_width,
            generic.output_height == request.output_height,
            generic.place_label_overlay == request.place_label_overlay,
            generic.output_suffix is None,
            generic.subtitle_left_override is None,
            generic.subtitle_right_override is None,
    {
        DirectBatchRequest {
            model: ModelId::Hrrr,
            date_yyyymmdd: request.date_yyyymmdd,
            cycle_override_utc: request.cycle_override_utc,
            forecast_hour: request.forecast_hour,
            source: request.source,
            domain: request.domain,
            use_cache: request.use_cache,
            recipe_slugs: request.recipe_slugs,
            product_overrides: Vec::new(),
            contour_mode: request.contour_mode,
            native_fill_level_multiplier: request.native_fill_level_multiplier,
            output_width: request.output_width,
            output_height: request.output_height,
            place_label_overlay: request.place_label_overlay,
            output_suffix: None,
            subtitle_left_override: None,
            subtitle_right_override: None,
        }
    }
}

/// The request that a sampling run plans with. The bounds are those of the whole
/// globe.
pub fn sampling_direct_request<B, O>(
    model: ModelId,
    source: SourceId,
    forecast_hour: u16,
    use_cache: bool,
    globe: B,
) -> (request: DirectBatchRequest<B, O>)
    ensures
        request.model == model,
        request.date_yyyymmdd@.len() == 0,
        request.cycle_override_utc is None,
        request.forecast_hour == forecast_hour,
        request.source == source,
        request.domain.slug@ == "sampling"@,
        request.domain.bounds == globe,
        request.use_cache == use_cache,
        request.recipe_slugs@.len() == 0,
        request.product_overrides@.len() == 0,
        request.contour_mode == NativeContourRenderMode::Automatic,
        request.native_fill_level_multiplier == 1,
        request.output_width == OUTPUT_WIDTH,
        request.output_height == OUTPUT_HEIGHT,
        request.place_label_overlay is None,
        request.output_suffix is None,
        request.subtitle_left_override is None,
        request.subtitle_right_override is None,
{
    DirectBatchRequest {
        model,
        date_yyyymmdd: String::new(),
        cycle_override_utc: None,
        forecast_hour,
        source,
        domain: DomainSpec { slug: "sampling".to_owned(), bounds: globe },
        use_cache,
        recipe_slugs: Vec::new(),
        product_overrides: Vec::new(),
        contour_mode: NativeContourRenderMode::Automatic,
        native_fill_level_multiplier: 1,
        output_width: OUTPUT_WIDTH,
        output_height: OUTPUT_HEIGHT,
        place_label_overlay: None,
        output_suffix: None,
        subtitle_left_override: None,
        subtitle_right_override: None,
    }
}

/// What a list of overrides puts in the place of a product: the first entry for
/// it.
pub open spec fn overriding(list: Seq<(String, String)>, product: Seq<char>) -> Option<Seq<char>>
    decreases list.len(),
{
    if list.len() == 0 {
        None
    } else if list[0].0@ == product {
        Some(list[0].1@)
    } else {
        overriding(list.drop_first(), product)
    }
}

/// What a list of overrides puts in the place of a product.
pub fn product_override(list: &[(String, String)], product: &str) -> (replacement: Option<String>)
    ensures
        text::optional_view(replacement) == overriding(list@, product@),
{
    let mut i: usize = 0;
    proof {
        assert(list@.skip(0) == list@);
    }
    while i < list.len()
        invariant
            i <= list@.len(),
            overriding(list@, product@) == overriding(list@.skip(i as int), product@),
        decreases list@.len() - i,
    {
        proof {
            assert(list@.skip(i as int).drop_first() == list@.skip(i + 1));
        }
        if str_eq(list[i].0.as_str(), product) {
            return Some(list[i].1.clone());
        }
        i = i + 1;
    }
    None
}

/// What was fetched for a canonical product family, and the logical families
/// that were planned onto it, in dictionary order.
pub struct DirectFetchRuntimeInfo {
    pub fetch_key: String,
    pub planned_product: String,
    pub fetched_product: String,
    pub planned_family_aliases: Vec<String>,
    pub requested_source: SourceId,
    pub resolved_source: SourceId,
    pub resolved_url: String,
}

/// A recipe that could not be drawn, and why.
#[derive(Debug)]
pub struct DirectRecipeBlocker {
    pub recipe_slug: String,
    pub reason: String,
}

/// A blocker as the contracts speak of it.
pub struct Blocked {
    pub recipe_slug: Seq<char>,
    pub reason: Seq<char>,
}

impl View for DirectRecipeBlocker {
    type V = Blocked;

    open spec fn view(&self) -> Blocked {
        Blocked { recipe_slug: self.recipe_slug@, reason: self.reason@ }
    }
}

/// The blockers of a list as the contracts speak of them.
pub open spec fn blocked(list: Seq<DirectRecipeBlocker>) -> Seq<Blocked> {
    Seq::new(list.len(), |i: int| list[i]@)
}

} // verus!
