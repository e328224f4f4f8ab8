//! An hour of heavy panels, from a decoded pair of analyses to the maps of both
//! families: the domain is cropped and guarded, its volumes are prepared once, and the
//! ECAPE and the severe fields are computed from them.
//!
//! The projection of a grid and the kernels come as functions.
use crate::ecape_compute;
use crate::ecape_compute::{
    compute_ecape_map_fields_with_prepared_volume, EcapeAnswer, EcapeCall,
};
use crate::gridded::fields::{PressureFields, SurfaceFields};
use crate::gridded::heavy_volume;
use crate::gridded::heavy_volume::{prepare_heavy_volume, HeightRules, PreparedHeavyVolume};
use crate::heavy::model_slug;
use crate::heavy_batch;
use crate::heavy_batch::{
    plan_heavy_map_group, EcapeBatchRequest, HeavyFamily, HeavyMapPlan, RunNames,
};
use crate::heavy_stage;
use crate::heavy_stage::{stage_heavy_domain, HeavyProjection, HeavyStage};
use crate::panel::WeatherPanelField;
use vstd::prelude::*;

verus! {

/// What the severe fields are computed from.
pub struct SevereCall<'a, T, P> {
    pub surface: &'a SurfaceFields<T, P>,
    pub pressure: &'a PressureFields<T>,
    pub prepared: &'a PreparedHeavyVolume<T>,
}

/// The fields of both families on their domain.
pub struct PanelFields<T, P, M> {
    pub stage: HeavyStage<T, P, M>,
    pub ecape: Vec<WeatherPanelField<T>>,
    pub failure_count: usize,
    pub severe: Vec<WeatherPanelField<T>>,
}

/// The fields of both families on their domain, and the maps that show them.
pub struct PanelHour<T, P, M> {
    pub fields: PanelFields<T, P, M>,
    pub ecape_maps: Vec<HeavyMapPlan>,
    pub severe_maps: Vec<HeavyMapPlan>,
}

/// Whether the severe fields end as computed after the ECAPE fields, from the same
/// prepared volume.
pub open spec fn severe_ends<
    T,
    P,
    M,
    W: for<'a> Fn(SevereCall<'a, T, P>) -> Result<Vec<WeatherPanelField<T>>, String>,
>(
    stage: HeavyStage<T, P, M>,
    surface: SurfaceFields<T, P>,
    pressure: PressureFields<T>,
    prepared: PreparedHeavyVolume<T>,
    ecape: Vec<WeatherPanelField<T>>,
    failure_count: usize,
    severe: W,
    result: Result<PanelFields<T, P, M>, String>,
) -> bool {
    exists|fields: Result<Vec<WeatherPanelField<T>>, String>|
        #[trigger] call_ensures(
            severe,
            (SevereCall { surface: &surface, pressure: &pressure, prepared: &prepared },),
            fields,
        ) && match fields {
            Err(message) => result == Err::<PanelFields<T, P, M>, String>(message),
            Ok(fields) => result == Ok::<PanelFields<T, P, M>, String>(
                PanelFields { stage, ecape, failure_count, severe: fields },
            ),
        }
}

/// Whether the fields of both families end as computed on a domain: one volume is
/// prepared, and the ECAPE fields come first.
pub open spec fn fields_computed<
    T,
    P,
    M,
    K: for<'a> Fn(EcapeCall<'a, T>) -> Result<EcapeAnswer<T>, String>,
    W: for<'a> Fn(SevereCall<'a, T, P>) -> Result<Vec<WeatherPanelField<T>>, String>,
    R: Fn(T, T) -> T,
    A: Fn(T, T) -> T,
    S: Fn(T, T) -> T,
    L: Fn(T, T) -> T,
    E: Fn(T) -> T,
    C: Fn(T) -> T,
>(
    stage: HeavyStage<T, P, M>,
    surface: SurfaceFields<T, P>,
    pressure: PressureFields<T>,
    heights: HeightRules<T, A, S, L, E, C>,
    run: K,
    severe: W,
    ratio: R,
    result: Result<PanelFields<T, P, M>, String>,
) -> bool {
    exists|
        prepared: PreparedHeavyVolume<T>,
        ecape: Result<(Vec<WeatherPanelField<T>>, usize), String>,
    |
        #[trigger] ecape_compute::outcome(surface, pressure, prepared, run, ratio, ecape)
            && ecape_compute::prepared_from(surface, pressure, heights, prepared) && match ecape {
            Err(message) => result == Err::<PanelFields<T, P, M>, String>(message),
            Ok((fields, failure_count)) => severe_ends(
                stage,
                surface,
                pressure,
                prepared,
                fields,
                failure_count,
                severe,
                result,
            ),
        }
}

/// Whether the fields of an hour end as computed: the domain is staged first.
pub open spec fn hour_computed<
    T,
    P,
    M,
    B,
    J: for<'a> Fn(&'a SurfaceFields<T, P>) -> Result<HeavyProjection<M>, String>,
    K: for<'a> Fn(EcapeCall<'a, T>) -> Result<EcapeAnswer<T>, String>,
    W: for<'a> Fn(SevereCall<'a, T, P>) -> Result<Vec<WeatherPanelField<T>>, String>,
    R: Fn(T, T) -> T,
    A: Fn(T, T) -> T,
    S: Fn(T, T) -> T,
    L: Fn(T, T) -> T,
    E: Fn(T) -> T,
    C: Fn(T) -> T,
>(
    request: EcapeBatchRequest<B>,
    surface: SurfaceFields<T, P>,
    pressure: PressureFields<T>,
    limit: int,
    project: J,
    heights: HeightRules<T, A, S, L, E, C>,
    run: K,
    severe: W,
    ratio: R,
    result: Result<PanelFields<T, P, M>, String>,
) -> bool {
    exists|stage: Result<HeavyStage<T, P, M>, String>|
        #[trigger] heavy_stage::staged(
            surface,
            pressure,
            request.domain,
            request.allow_large_heavy_domain,
            limit,
            project,
            stage,
        ) && match stage {
            Err(message) => result == Err::<PanelFields<T, P, M>, String>(message),
            Ok(stage) => fields_computed(
                stage,
                stage.surface(surface),
                stage.pressure(pressure),
                heights,
                run,
                severe,
                ratio,
                result,
            ),
        }
}

/// Whether maps are those of the fields of a family, one for each field in order.
pub open spec fn shows_family<'a, T>(
    maps: Seq<HeavyMapPlan>,
    fields: Seq<WeatherPanelField<T>>,
    family: HeavyFamily,
    run: RunNames<'a>,
    source_label: Seq<char>,
) -> bool {
    &&& maps.len() == fields.len()
    &&& forall|i: int|
        0 <= i < fields.len() ==> heavy_batch::plans_map(
            #[trigger] maps[i],
            fields[i],
            family,
            run,
            source_label,
        )
}

/// Whether the maps of an hour are those of its fields, under the names of its run.
pub open spec fn shows_hour<'a, B, T, P, M>(
    request: EcapeBatchRequest<B>,
    model: Seq<char>,
    cycle_utc: u8,
    source_label: Seq<char>,
    given: PanelFields<T, P, M>,
    shown: PanelHour<T, P, M>,
) -> bool {
    &&& shown.fields == given
    &&& exists|run: RunNames<'a>|
        #[trigger] heavy_stage::names_run(request, model, cycle_utc, run) && shows_family(
            shown.ecape_maps@,
            given.ecape@,
            HeavyFamily::Ecape,
            run,
            source_label,
        ) && shows_family(
            shown.severe_maps@,
            given.severe@,
            HeavyFamily::Severe,
            run,
            source_label,
        )
}

fn compute_both<
    T: Copy,
    P,
    K: for<'a> Fn(EcapeCall<'a, T>) -> Result<EcapeAnswer<T>, String>,
    W: for<'a> Fn(SevereCall<'a, T, P>) -> Result<Vec<WeatherPanelField<T>>, String>,
    R: Fn(T, T) -> T,
    A: Fn(T, T) -> T,
    S: Fn(T, T) -> T,
    L: Fn(T, T) -> T,
    E: Fn(T) -> T,
    C: Fn(T) -> T,
>(
    surface: &SurfaceFields<T, P>,
    pressure: &PressureFields<T>,
    heights: &HeightRules<T, A, S, L, E, C>,
    run: &K,
    severe: &W,
    ratio: &R,
) -> (result: Result<(Vec<WeatherPanelField<T>>, usize, Vec<WeatherPanelField<T>>), String>)
    requires
        ecape_compute::usable(*run),
        heavy_volume::has_heights(*surface, *pressure),
        forall|call: SevereCall<T, P>| #[trigger] call_requires(*severe, (call,)),
        forall|a: T, b: T| #[trigger] call_requires(*ratio, (a, b)),
        forall|a: T, b: T| #[trigger] call_requires(heights.above, (a, b)),
        forall|a: T, b: T| #[trigger] call_requires(heights.raise, (a, b)),
        forall|a: T, b: T| #[trigger] call_requires(heights.lower, (a, b)),
        forall|a: T| #[trigger] call_requires(heights.settle, (a,)),
        forall|a: T| #[trigger] call_requires(heights.to_pa, (a,)),
    ensures
        exists|
            prepared: PreparedHeavyVolume<T>,
            ecape: Result<(Vec<WeatherPanelField<T>>, usize), String>,
        |
            #[trigger] ecape_compute::outcome(*surface, *pressure, prepared, *run, *ratio, ecape)
                && ecape_compute::prepared_from(*surface, *pressure, *heights, prepared)
                && both_end(*surface, *pressure, prepared, ecape, *severe, result),
{
    let prepared = prepare_heavy_volume(surface, pressure, false, heights);
    proof {
        assert(ecape_compute::prepared_from(*surface, *pressure, *heights, prepared));
    }
    let ecape = compute_ecape_map_fields_with_prepared_volume(
        surface,
        pressure,
        &prepared,
        run,
        ratio,
    );
    let ghost told = ecape;
    proof {
        assert(ecape_compute::outcome(*surface, *pressure, prepared, *run, *ratio, told));
    }
    let (fields, failure_count) = match ecape {
        Ok(computed) => computed,
        Err(message) => {
            return Err(message);
        },
    };
    match severe(SevereCall { surface, pressure, prepared: &prepared }) {
        Ok(others) => Ok((fields, failure_count, others)),
        Err(message) => Err(message),
    }
}

/// Whether two families of fields end as computed, given what came of the first.
pub open spec fn both_end<
    T,
    P,
    W: for<'a> Fn(SevereCall<'a, T, P>) -> Result<Vec<WeatherPanelField<T>>, String>,
>(
    surface: SurfaceFields<T, P>,
    pressure: PressureFields<T>,
    prepared: PreparedHeavyVolume<T>,
    ecape: Result<(Vec<WeatherPanelField<T>>, usize), String>,
    severe: W,
    result: Result<(Vec<WeatherPanelField<T>>, usize, Vec<WeatherPanelField<T>>), String>,
) -> bool {
    match ecape {
        Err(message) => result is Err && result->Err_0 == message,
        Ok((fields, failure_count)) => exists|others: Result<Vec<WeatherPanelField<T>>, String>|
            #[trigger] call_ensures(
                severe,
                (SevereCall { surface: &surface, pressure: &pressure, prepared: &prepared },),
                others,
            ) && match others {
                Err(message) => result is Err && result->Err_0 == message,
                Ok(others) => result is Ok && result->Ok_0 == (fields, failure_count, others),
            },
    }
}

/// Computes an hour of heavy panels from a decoded pair of analyses, and plans the maps
/// of both families.
pub fn run_heavy_panel_hour<
    T: Copy,
    P: Copy,
    M,
    B,
    J: for<'a> Fn(&'a SurfaceFields<T, P>) -> Result<HeavyProjection<M>, String>,
    K: for<'a> Fn(EcapeCall<'a, T>) -> Result<EcapeAnswer<T>, String>,
    W: for<'a> Fn(SevereCall<'a, T, P>) -> Result<Vec<WeatherPanelField<T>>, String>,
    R: Fn(T, T) -> T,
    A: Fn(T, T) -> T,
    S: Fn(T, T) -> T,
    L: Fn(T, T) -> T,
    E: Fn(T) -> T,
    C: Fn(T) -> T,
>(
    request: &EcapeBatchRequest<B>,
    model: &str,
    cycle_utc: u8,
    source_label: &str,
    surface: &SurfaceFields<T, P>,
    pressure: &PressureFields<T>,
    cell_limit: usize,
    project: &J,
    heights: &HeightRules<T, A, S, L, E, C>,
    run: &K,
    severe: &W,
    ratio: &R,
) -> (result: Result<PanelHour<T, P, M>, String>)
    requires
        heavy_stage::computable(*surface, *pressure, *project, *heights, *run, *ratio),
        forall|call: SevereCall<T, P>| #[trigger] call_requires(*severe, (call,)),
    ensures
        exists|computed: Result<PanelFields<T, P, M>, String>|
            #[trigger] hour_computed(
                *request,
                *surface,
                *pressure,
                cell_limit as int,
                *project,
                *heights,
                *run,
                *severe,
                *ratio,
                computed,
            ) && match (computed, result) {
                (Ok(given), Ok(shown)) => shows_hour(
                    *request,
                    model@,
                    cycle_utc,
                    source_label@,
                    given,
                    shown,
                ),
                (Err(message), Err(told)) => told == message,
                _ => false,
            },
{
    let staged_domain = stage_heavy_domain(
        surface,
        pressure,
        &request.domain,
        request.allow_large_heavy_domain,
        cell_limit,
        project,
    );
    let ghost told = staged_domain;
    proof {
        assert(heavy_stage::staged(
            *surface,
            *pressure,
            request.domain,
            request.allow_large_heavy_domain,
            cell_limit as int,
            *project,
            told,
        ));
    }
    let stage = match staged_domain {
        Ok(stage) => stage,
        Err(message) => {
            let ghost ended = Err::<PanelFields<T, P, M>, String>(message);
            proof {
                assert(hour_computed(
                    *request,
                    *surface,
                    *pressure,
                    cell_limit as int,
                    *project,
                    *heights,
                    *run,
                    *severe,
                    *ratio,
                    ended,
                ));
            }
            return Err(message);
        },
    };
    let ghost own = stage.surface(*surface);
    let ghost levels = stage.pressure(*pressure);
    let both = match &stage.cropped {
        Some(cropped) => compute_both(
            &cropped.surface,
            &cropped.pressure,
            heights,
            run,
            severe,
            ratio,
        ),
        None => compute_both(surface, pressure, heights, run, severe, ratio),
    };
    let ghost seen = both;
    let ghost (prepared, ecape_told) = choose|
        prepared: PreparedHeavyVolume<T>,
        ecape: Result<(Vec<WeatherPanelField<T>>, usize), String>,
    |
        #[trigger] ecape_compute::outcome(own, levels, prepared, *run, *ratio, ecape)
            && ecape_compute::prepared_from(own, levels, *heights, prepared) && both_end(
            own,
            levels,
            prepared,
            ecape,
            *severe,
            seen,
        );
    let (ecape, failure_count, others) = match both {
        Ok(fields) => fields,
        Err(message) => {
            let ghost ended = Err::<PanelFields<T, P, M>, String>(message);
            proof {
                assert(ecape_compute::outcome(own, levels, prepared, *run, *ratio, ecape_told));
                assert(fields_computed(
                    stage,
                    own,
                    levels,
                    *heights,
                    *run,
                    *severe,
                    *ratio,
                    ended,
                ));
                assert(hour_computed(
                    *request,
                    *surface,
                    *pressure,
                    cell_limit as int,
                    *project,
                    *heights,
                    *run,
                    *severe,
                    *ratio,
                    ended,
                ));
            }
            return Err(message);
        },
    };
    let slug = model_slug(model);
    let names = RunNames {
        model_slug: slug.as_str(),
        date_yyyymmdd: request.date_yyyymmdd.as_str(),
        cycle_utc,
        forecast_hour: request.forecast_hour,
        domain_slug: request.domain.slug.as_str(),
    };
    let ghost run_names = names;
    let ecape_maps = plan_heavy_map_group(&ecape, HeavyFamily::Ecape, names, source_label);
    let names = RunNames {
        model_slug: slug.as_str(),
        date_yyyymmdd: request.date_yyyymmdd.as_str(),
        cycle_utc,
        forecast_hour: request.forecast_hour,
        domain_slug: request.domain.slug.as_str(),
    };
    let severe_maps = plan_heavy_map_group(&others, HeavyFamily::Severe, names, source_label);
    let fields = PanelFields { stage, ecape, failure_count, severe: others };
    let ghost given = fields;
    let shown = PanelHour { fields, ecape_maps, severe_maps };
    proof {
        let ended = Ok::<PanelFields<T, P, M>, String>(given);
        assert(severe_ends(
            given.stage,
            own,
            levels,
            prepared,
            given.ecape,
            failure_count,
            *severe,
            ended,
        ));
        assert(ecape_compute::outcome(own, levels, prepared, *run, *ratio, ecape_told));
        assert(fields_computed(
            given.stage,
            own,
            levels,
            *heights,
            *run,
            *severe,
            *ratio,
            ended,
        ));
        assert(hour_computed(
            *request,
            *surface,
            *pressure,
            cell_limit as int,
            *project,
            *heights,
            *run,
            *severe,
            *ratio,
            ended,
        ));
        assert(heavy_stage::names_run(*request, model@, cycle_utc, run_names));
        assert(shows_hour(*request, model@, cycle_utc, source_label@, given, shown));
    }
    Ok(shown)
}

} // verus!
