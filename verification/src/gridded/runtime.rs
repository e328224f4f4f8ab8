//! What is recorded of a load: which run it took, what was fetched, and where
//! its time went.
use crate::model::{CanonicalBundleDescriptor, SourceId};
use crate::text;
use vstd::prelude::*;
use vstd::string::*;

verus! {

/// How a run is found.
pub enum RunLookup {
    /// The run of the given cycle, without asking what is available.
    Pinned { hour_utc: u8 },
    /// The latest run that has the forecast hour.
    LatestAtForecastHour,
    /// The latest run that has the given products at the forecast hour.
    LatestForProducts { products: Vec<String> },
}

/// Decides how the run of a model is found.
pub fn resolve_model_run(cycle_override: Option<u8>) -> (lookup: RunLookup)
    ensures
        lookup == match cycle_override {
            Some(hour) => RunLookup::Pinned { hour_utc: hour },
            None => RunLookup::LatestAtForecastHour,
        },
{
    match cycle_override {
        Some(hour_utc) => RunLookup::Pinned { hour_utc },
        None => RunLookup::LatestAtForecastHour,
    }
}

/// Decides how the run of a surface and pressure pair is found: it must have
/// both products, the surface product first.
pub fn resolve_thermo_pair_run(
    cycle_override: Option<u8>,
    surface_product: &str,
    pressure_product: &str,
) -> (lookup: RunLookup)
    ensures
        match cycle_override {
            Some(hour) => lookup == RunLookup::Pinned { hour_utc: hour },
            None => lookup matches RunLookup::LatestForProducts { products } && text::texts(
                products@,
            ) == seq![surface_product@, pressure_product@],
        },
{
    match cycle_override {
        Some(hour_utc) => RunLookup::Pinned { hour_utc },
        None => {
            let mut products: Vec<String> = Vec::new();
            products.push(surface_product.to_owned());
            products.push(pressure_product.to_owned());
            proof {
                assert(text::texts(products@) =~= seq![surface_product@, pressure_product@]);
            }
            RunLookup::LatestForProducts { products }
        },
    }
}

/// What was planned and what was fetched. `F` is the family of the bundle.
pub struct FetchRuntimeInfo<F> {
    pub planned_bundle: CanonicalBundleDescriptor,
    pub planned_family: F,
    pub planned_product: String,
    pub resolved_native_product: String,
    pub fetched_product: String,
    pub requested_source: SourceId,
    pub resolved_source: SourceId,
    pub resolved_url: String,
}

/// Records a fetch. The requested source is the one that was asked for, or the
/// one that answered where none was.
pub fn runtime_info<F>(
    planned_bundle: CanonicalBundleDescriptor,
    planned_family: F,
    native_product: &str,
    fetched_product: &str,
    source_override: Option<SourceId>,
    resolved_source: SourceId,
    resolved_url: &str,
) -> (info: FetchRuntimeInfo<F>)
    ensures
        info.planned_bundle == planned_bundle,
        info.planned_family == planned_family,
        info.planned_product@ == native_product@,
        info.resolved_native_product@ == native_product@,
        info.fetched_product@ == fetched_product@,
        info.requested_source == (match source_override {
            Some(source) => source,
            None => resolved_source,
        }),
        info.resolved_source == resolved_source,
        info.resolved_url@ == resolved_url@,
{
    FetchRuntimeInfo {
        planned_bundle,
        planned_family,
        planned_product: native_product.to_owned(),
        resolved_native_product: native_product.to_owned(),
        fetched_product: fetched_product.to_owned(),
        requested_source: match source_override {
            Some(source) => source,
            None => resolved_source,
        },
        resolved_source,
        resolved_url: resolved_url.to_owned(),
    }
}

/// The times of a load, and what came from a cache.
pub struct SharedTiming<F> {
    pub fetch_surface_ms: u128,
    pub fetch_pressure_ms: u128,
    pub decode_surface_ms: u128,
    pub decode_pressure_ms: u128,
    pub fetch_surface_cache_hit: bool,
    pub fetch_pressure_cache_hit: bool,
    pub decode_surface_cache_hit: bool,
    pub decode_pressure_cache_hit: bool,
    pub surface_fetch: FetchRuntimeInfo<F>,
    pub pressure_fetch: FetchRuntimeInfo<F>,
}

/// Whether each of four stages came from a cache.
#[derive(Debug, Clone, Copy, PartialEq, Eq, Structural)]
pub struct CacheFlags {
    pub fetch_surface: bool,
    pub fetch_pressure: bool,
    pub decode_surface: bool,
    pub decode_pressure: bool,
}

impl<F> SharedTiming<F> {
    /// The same times with other cache flags.
    pub fn with_cache_flags(self, flags: CacheFlags) -> (timing: Self)
        ensures
            timing == (SharedTiming {
                fetch_surface_cache_hit: flags.fetch_surface,
                fetch_pressure_cache_hit: flags.fetch_pressure,
                decode_surface_cache_hit: flags.decode_surface,
                decode_pressure_cache_hit: flags.decode_pressure,
                ..self
            }),
    {
        SharedTiming {
            fetch_surface_ms: self.fetch_surface_ms,
            fetch_pressure_ms: self.fetch_pressure_ms,
            decode_surface_ms: self.decode_surface_ms,
            decode_pressure_ms: self.decode_pressure_ms,
            fetch_surface_cache_hit: flags.fetch_surface,
            fetch_pressure_cache_hit: flags.fetch_pressure,
            decode_surface_cache_hit: flags.decode_surface,
            decode_pressure_cache_hit: flags.decode_pressure,
            surface_fetch: self.surface_fetch,
            pressure_fetch: self.pressure_fetch,
        }
    }
}

/// A decoded value, whether it came from the cache, and the cache's path.
pub struct CachedDecode<T> {
    pub value: T,
    pub cache_hit: bool,
    pub path: String,
}

/// What is done for a value that may be in the cache.
pub enum DecodeStep<T> {
    /// The cached value is used.
    Cached(CachedDecode<T>),
    /// The value is decoded.
    Decode,
}

/// Decides whether a cached value is used. `cached` is what the cache holds;
/// it is not used where the cache is not.
pub fn decode_step<T>(use_cache: bool, cached: Option<T>, path: &str) -> (step: DecodeStep<T>)
    ensures
        match step {
            DecodeStep::Cached(found) => {
                &&& use_cache
                &&& cached == Some(found.value)
                &&& found.cache_hit
                &&& found.path@ == path@
            },
            DecodeStep::Decode => !use_cache || cached is None,
        },
{
    if use_cache {
        if let Some(value) = cached {
            return DecodeStep::Cached(
                CachedDecode { value, cache_hit: true, path: path.to_owned() },
            );
        }
    }
    DecodeStep::Decode
}

/// The map sizes that are projected: those with an extent in both directions,
/// in the order in which they are first seen, each once.
pub open spec fn projected_sizes(sizes: Seq<(u32, u32)>) -> Seq<(u32, u32)>
    decreases sizes.len(),
{
    if sizes.len() == 0 {
        Seq::empty()
    } else {
        let before = projected_sizes(sizes.drop_last());
        let size = sizes.last();
        if size.0 == 0 || size.1 == 0 || before.contains(size) {
            before
        } else {
            before.push(size)
        }
    }
}

/// Whether a size is in a list.
pub(crate) fn has_size(sizes: &Vec<(u32, u32)>, width: u32, height: u32) -> (found: bool)
    ensures
        found == sizes@.contains((width, height)),
{
    let mut i: usize = 0;
    while i < sizes.len()
        invariant
            i <= sizes@.len(),
            forall|k: int| 0 <= k < i ==> sizes@[k] != (width, height),
        decreases sizes@.len() - i,
    {
        let (w, h) = sizes[i];
        if w == width && h == height {
            proof {
                assert(sizes@[i as int] == (width, height));
            }
            return true;
        }
        i = i + 1;
    }
    false
}

/// Selects the map sizes that are projected.
pub fn sizes_to_project(sizes: &[(u32, u32)]) -> (selected: Vec<(u32, u32)>)
    ensures
        selected@ == projected_sizes(sizes@),
{
    let mut selected: Vec<(u32, u32)> = Vec::new();
    let mut i: usize = 0;
    while i < sizes.len()
        invariant
            i <= sizes@.len(),
            selected@ == projected_sizes(sizes@.take(i as int)),
        decreases sizes@.len() - i,
    {
        proof {
            assert(sizes@.take(i + 1).drop_last() == sizes@.take(i as int));
        }
        let (width, height) = sizes[i];
        if !(width == 0 || height == 0 || has_size(&selected, width, height)) {
            selected.push((width, height));
        }
        i = i + 1;
    }
    proof {
        assert(sizes@.take(i as int) == sizes@);
    }
    selected
}

} // verus!
