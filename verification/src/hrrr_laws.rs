//! What the report of a batch of panels tells of its load.
use crate::hrrr;
use crate::hrrr::{BundleFetch, HrrrFetchRuntimeInfo, HrrrSharedTiming, LoadedBundle};
use crate::text;
use vstd::prelude::*;
use vstd::string::*;

verus! {

/// What a report tells of the surface does not depend on the pressure levels, and
/// what it tells of the pressure levels does not depend on the surface. If the two
/// bundles change places, so does what is told of them.
pub proof fn law_each_bundle_is_timed_for_itself(
    surface: LoadedBundle,
    pressure: LoadedBundle,
    other: LoadedBundle,
    timing: HrrrSharedTiming,
    beside: HrrrSharedTiming,
    swapped: HrrrSharedTiming,
)
    requires
        hrrr::times_load(surface, pressure, timing),
        hrrr::times_load(surface, other, beside),
        hrrr::times_load(pressure, surface, swapped),
    ensures
        timing.fetch_surface_ms == beside.fetch_surface_ms,
        timing.fetch_surface_cache_hit == beside.fetch_surface_cache_hit,
        timing.decode_surface_cache_hit == beside.decode_surface_cache_hit,
        timing.surface_fetch == beside.surface_fetch,
        timing.fetch_surface_ms == swapped.fetch_pressure_ms,
        timing.fetch_surface_cache_hit == swapped.fetch_pressure_cache_hit,
        timing.decode_surface_cache_hit == swapped.decode_pressure_cache_hit,
        timing.surface_fetch == swapped.pressure_fetch,
        timing.fetch_pressure_ms == swapped.fetch_surface_ms,
        timing.fetch_pressure_cache_hit == swapped.fetch_surface_cache_hit,
        timing.decode_pressure_cache_hit == swapped.decode_surface_cache_hit,
        timing.pressure_fetch == swapped.surface_fetch,
        timing.decode_surface_ms == 0,
        timing.decode_pressure_ms == 0,
{
}

/// A fetch and a decode are told apart: the time and the first hit are those of
/// the fetch, the other hit is that of the decode.
pub proof fn law_fetch_and_decode_are_told_apart(
    surface: LoadedBundle,
    pressure: LoadedBundle,
    fetched: BundleFetch,
    decoded: bool,
    timing: HrrrSharedTiming,
)
    requires
        surface.fetched == Some(fetched),
        surface.decode_cache_hit == Some(decoded),
        hrrr::times_load(surface, pressure, timing),
    ensures
        timing.fetch_surface_ms == fetched.fetch_ms,
        timing.fetch_surface_cache_hit == fetched.cache_hit,
        timing.decode_surface_cache_hit == decoded,
{
}

/// A fetch without an override was asked of the source that it came from, and one
/// with an override of that. What was asked for does not change where the data came
/// from.
pub proof fn law_a_fetch_tells_asked_and_used_source(
    info: HrrrFetchRuntimeInfo,
    planned: String,
    fetched: BundleFetch,
)
    requires
        hrrr::describes(info, planned, fetched),
    ensures
        info.resolved_source == fetched.resolved_source,
        fetched.source_override is None ==> info.requested_source == info.resolved_source,
        fetched.source_override is Some ==> Some(info.requested_source) == fetched.source_override,
        info.planned_product@ == planned@,
        info.fetched_product@ == fetched.fetched_product@,
        info.resolved_url@ == fetched.resolved_url@,
{
}

/// Whether a load lacks a part of a bundle.
pub open spec fn lacks_part(bundle: LoadedBundle) -> bool {
    bundle.planned_product is None || bundle.fetched is None || bundle.decode_cache_hit is None
}

/// A load is reported on if and only if both bundles are whole. Else the message
/// names a bundle that is not.
pub proof fn law_gaps_name_their_bundle(surface: LoadedBundle, pressure: LoadedBundle)
    ensures
        hrrr::load_gap(surface, pressure) is Some <==> lacks_part(surface) || lacks_part(pressure),
        hrrr::load_gap(surface, pressure) matches Some(message) ==> {
            &&& text::occurs(message, "surface"@) || text::occurs(message, "pressure"@)
            &&& !lacks_part(pressure) ==> text::occurs(message, "surface"@)
            &&& !lacks_part(surface) ==> text::occurs(message, "pressure"@)
            &&& surface.planned_product is Some && pressure.planned_product is Some && (
            surface.fetched is None || pressure.fetched is None) ==> text::occurs(message, "fetch"@)
            &&& surface.fetched is Some && pressure.fetched is Some && surface.planned_product
                is Some && pressure.planned_product is Some ==> text::occurs(message, "decode"@)
        },
{
    reveal_strlit("loaded bundle set missing surface analysis for HRRR shared timing");
    reveal_strlit("loaded bundle set missing pressure analysis for HRRR shared timing");
    reveal_strlit("loader missing surface fetch for HRRR shared timing");
    reveal_strlit("loader missing pressure fetch for HRRR shared timing");
    reveal_strlit("loader missing surface decode for HRRR shared timing");
    reveal_strlit("loader missing pressure decode for HRRR shared timing");
    reveal_strlit("surface");
    reveal_strlit("pressure");
    reveal_strlit("fetch");
    reveal_strlit("decode");
    let message = hrrr::load_gap(surface, pressure)->Some_0;
    if surface.planned_product is None {
        assert(message.subrange(26, 33) =~= "surface"@);
        assert(text::stands_at(message, "surface"@, 26));
    } else if pressure.planned_product is None {
        assert(message.subrange(26, 34) =~= "pressure"@);
        assert(text::stands_at(message, "pressure"@, 26));
    } else if surface.fetched is None {
        assert(message.subrange(15, 22) =~= "surface"@);
        assert(text::stands_at(message, "surface"@, 15));
        assert(message.subrange(23, 28) =~= "fetch"@);
        assert(text::stands_at(message, "fetch"@, 23));
    } else if pressure.fetched is None {
        assert(message.subrange(15, 23) =~= "pressure"@);
        assert(text::stands_at(message, "pressure"@, 15));
        assert(message.subrange(24, 29) =~= "fetch"@);
        assert(text::stands_at(message, "fetch"@, 24));
    } else if surface.decode_cache_hit is None {
        assert(message.subrange(15, 22) =~= "surface"@);
        assert(text::stands_at(message, "surface"@, 15));
        assert(message.subrange(23, 29) =~= "decode"@);
        assert(text::stands_at(message, "decode"@, 23));
    } else if pressure.decode_cache_hit is None {
        assert(message.subrange(15, 23) =~= "pressure"@);
        assert(text::stands_at(message, "pressure"@, 15));
        assert(message.subrange(24, 30) =~= "decode"@);
        assert(text::stands_at(message, "decode"@, 24));
    }
}

} // verus!
