//! A batch of ECAPE maps, from a decoded pair of analyses to the maps that are
//! drawn: the domain is cropped and guarded, the fields are computed, and each map
//! gets its name and its subtitle.
//!
//! The projection of a grid and the kernels come as functions.
use crate::ecape;
use crate::ecape_compute;
use crate::ecape_compute::{compute_ecape_map_fields, EcapeAnswer, EcapeCall};
use crate::gridded::bounds;
use crate::gridded::crop;
use crate::gridded::crop::{GridCrop, ProjectedGridIntersection};
use crate::gridded::domain;
use crate::gridded::domain::CroppedHeavyDomain;
use crate::gridded::fields;
use crate::gridded::fields::{PressureFields, SurfaceFields};
use crate::gridded::heavy_volume::{HeightRules, PreparedHeavyVolume};
use crate::heavy;
use crate::heavy::{crop_and_guard_heavy_domain, model_slug, DomainSpec, HeavyDomainStats};
use crate::heavy_batch;
use crate::heavy_batch::{
    plan_heavy_map_group, plan_ratio_display_group, EcapeBatchRequest, HeavyFamily, HeavyMapPlan,
    RatioDisplayMap, RunNames,
};
use crate::panel::WeatherPanelField;
use vstd::prelude::*;

verus! {

/// By how many cells a domain is widened before anything is computed on it.
pub const HEAVY_PAD_CELLS: usize = 2;

/// A projected grid: a handle by which it is known, and for each cell whether each
/// of its coordinates lies in the extent of the map.
pub struct HeavyProjection<M> {
    pub handle: M,
    pub inside_x: Vec<bool>,
    pub inside_y: Vec<bool>,
}

impl<M> HeavyProjection<M> {
    /// Which cells lie in the extent of the map.
    pub open spec fn inside(self) -> Seq<bool> {
        Seq::new(
            self.inside_x@.len(),
            |i: int| self.inside_x@[i] && i < self.inside_y@.len() && self.inside_y@[i],
        )
    }
}

/// Which cells lie in the extent of the map.
pub fn cells_inside<M>(projected: &HeavyProjection<M>) -> (inside: Vec<bool>)
    ensures
        inside@ == projected.inside(),
{
    let mut inside: Vec<bool> = Vec::new();
    let mut i: usize = 0;
    while i < projected.inside_x.len()
        invariant
            i <= projected.inside_x@.len(),
            inside@ == projected.inside().take(i as int),
        decreases projected.inside_x@.len() - i,
    {
        inside.push(
            projected.inside_x[i] && i < projected.inside_y.len() && projected.inside_y[i],
        );
        i = i + 1;
        assert(projected.inside().take(i as int) =~= projected.inside().take(i - 1).push(
            projected.inside()[i - 1],
        ));
    }
    assert(projected.inside().take(i as int) =~= projected.inside());
    inside
}

/// Whether a surface analysis has cells, and one value per cell in each field.
pub open spec fn fills_grid<T, P>(surface: SurfaceFields<T, P>) -> bool {
    let cells = surface.nx * surface.ny;
    &&& 0 < cells <= usize::MAX
    &&& surface.lat@.len() == cells
    &&& surface.lon@.len() == cells
    &&& surface.psfc_pa@.len() == cells
    &&& surface.orog_m@.len() == cells
    &&& surface.t2_k@.len() == cells
    &&& surface.q2_kgkg@.len() == cells
    &&& surface.u10_ms@.len() == cells
    &&& surface.v10_ms@.len() == cells
    &&& surface.native_sbcape_jkg is Some ==> fields::len_of(surface.native_sbcape_jkg) == cells
    &&& surface.native_mlcape_jkg is Some ==> fields::len_of(surface.native_mlcape_jkg) == cells
    &&& surface.native_mucape_jkg is Some ==> fields::len_of(surface.native_mucape_jkg) == cells
    &&& surface.native_pblh_m is Some ==> fields::len_of(surface.native_pblh_m) == cells
}

/// A rectangle on a grid can be cut out of a field of that grid.
pub proof fn lemma_crop_fits(rect: GridCrop, nx: int, ny: int)
    requires
        rect.within(nx, ny),
        0 <= nx,
        0 <= ny,
        nx * ny <= usize::MAX,
    ensures
        rect.fits(nx, nx * ny),
{
    let w = rect.spec_width();
    let h = rect.spec_height();
    assert(w * h <= nx * ny) by (nonlinear_arith)
        requires
            0 <= w <= nx,
            0 <= h <= ny,
    ;
    if rect.y_start < rect.y_end {
        let y = rect.y_end as int;
        assert((y - 1) * nx + nx <= nx * ny) by (nonlinear_arith)
            requires
                0 <= nx,
                y <= ny,
        ;
    }
}

proof fn lemma_padded_box_fits<T, P>(
    surface: SurfaceFields<T, P>,
    inside: Seq<bool>,
    pad: int,
    rect: GridCrop,
)
    requires
        fills_grid(surface),
        0 <= pad,
        bounds::is_padded_box(inside, surface.nx as int, surface.ny as int, pad, rect),
    ensures
        rect.within(surface.nx as int, surface.ny as int),
        fields::surface_crop_fits(surface, rect),
        0 < rect.spec_width(),
        0 < rect.spec_height(),
{
    let nx = surface.nx as int;
    let ny = surface.ny as int;
    let inner = choose|inner: GridCrop|
        bounds::is_marked_box(inside, nx, ny, inner) && #[trigger] bounds::is_padded(
            inner,
            pad,
            nx,
            ny,
            rect,
        );
    bounds::lemma_padded_box_marks_a_cell(inside, nx, ny, pad, rect);
    let (x, y) = choose|x: int, y: int|
        0 <= x < nx && 0 <= y < ny && #[trigger] bounds::marked(inside, nx, x, y);
    assert(inner.holds(x, y));
    lemma_crop_fits(rect, nx, ny);
}

/// Whether a domain ends as cropped and guarded, given the projection of the whole
/// grid.
pub open spec fn guards<T, P, M, B>(
    surface: SurfaceFields<T, P>,
    pressure: PressureFields<T>,
    projected: HeavyProjection<M>,
    domain: DomainSpec<B>,
    allow_large: bool,
    limit: int,
    outcome: Result<(Option<CroppedHeavyDomain<T, P>>, HeavyDomainStats), String>,
) -> bool {
    let cells = surface.nx * surface.ny;
    if projected.inside_x@.len() != cells || projected.inside_y@.len() != cells {
        outcome matches Err(message) && message@
            == "projected crop inputs did not match surface grid size"@
    } else {
        exists|intersection: ProjectedGridIntersection, stats: HeavyDomainStats|
            #![trigger heavy::stats_of(
                intersection,
                cells,
                pressure.pressure_levels_hpa@.len() as int,
                stats,
            )]
            {
                &&& heavy::intersects(
                    surface,
                    projected.inside(),
                    HEAVY_PAD_CELLS as int,
                    intersection,
                )
                &&& heavy::stats_of(
                    intersection,
                    cells,
                    pressure.pressure_levels_hpa@.len() as int,
                    stats,
                )
                &&& heavy::guarded_outcome(
                    surface,
                    pressure,
                    domain.slug@,
                    allow_large,
                    limit,
                    intersection,
                    stats,
                    outcome,
                )
            }
    }
}

/// A domain on which heavy fields are computed: what is left of the grid, unless it
/// is all of it, and the projection that its maps are drawn in.
pub struct HeavyStage<T, P, M> {
    pub cropped: Option<CroppedHeavyDomain<T, P>>,
    pub stats: HeavyDomainStats,
    pub projected: M,
}

impl<T, P, M> HeavyStage<T, P, M> {
    /// The surface analysis of the domain.
    pub open spec fn surface(self, full: SurfaceFields<T, P>) -> SurfaceFields<T, P> {
        match self.cropped {
            Some(cropped) => cropped.surface,
            None => full,
        }
    }

    /// The pressure analysis of the domain.
    pub open spec fn pressure(self, full: PressureFields<T>) -> PressureFields<T> {
        match self.cropped {
            Some(cropped) => cropped.pressure,
            None => full,
        }
    }
}

/// Whether a domain ends as staged once its whole grid is projected: it is cropped
/// and guarded, and what was cropped is projected again.
pub open spec fn staged_on<
    T,
    P,
    M,
    B,
    J: for<'a> Fn(&'a SurfaceFields<T, P>) -> Result<HeavyProjection<M>, String>,
>(
    surface: SurfaceFields<T, P>,
    pressure: PressureFields<T>,
    whole: HeavyProjection<M>,
    domain: DomainSpec<B>,
    allow_large: bool,
    limit: int,
    project: J,
    stage: Result<HeavyStage<T, P, M>, String>,
) -> bool {
    exists|outcome: Result<(Option<CroppedHeavyDomain<T, P>>, HeavyDomainStats), String>|
        #[trigger] guards(surface, pressure, whole, domain, allow_large, limit, outcome)
            && match outcome {
            Err(message) => stage == Err::<HeavyStage<T, P, M>, String>(message),
            Ok((Some(cropped), stats)) => exists|answer: Result<HeavyProjection<M>, String>|
                #[trigger] call_ensures(project, (&cropped.surface,), answer) && match answer {
                    Err(message) => stage == Err::<HeavyStage<T, P, M>, String>(message),
                    Ok(again) => stage == Ok::<HeavyStage<T, P, M>, String>(
                        HeavyStage { cropped: Some(cropped), stats, projected: again.handle },
                    ),
                },
            Ok((None, stats)) => stage == Ok::<HeavyStage<T, P, M>, String>(
                HeavyStage { cropped: None, stats, projected: whole.handle },
            ),
        }
}

/// Whether a domain ends as staged: its whole grid is projected first.
pub open spec fn staged<
    T,
    P,
    M,
    B,
    J: for<'a> Fn(&'a SurfaceFields<T, P>) -> Result<HeavyProjection<M>, String>,
>(
    surface: SurfaceFields<T, P>,
    pressure: PressureFields<T>,
    domain: DomainSpec<B>,
    allow_large: bool,
    limit: int,
    project: J,
    stage: Result<HeavyStage<T, P, M>, String>,
) -> bool {
    exists|answer: Result<HeavyProjection<M>, String>|
        #[trigger] call_ensures(project, (&surface,), answer) && match answer {
            Err(message) => stage == Err::<HeavyStage<T, P, M>, String>(message),
            Ok(whole) => staged_on(
                surface,
                pressure,
                whole,
                domain,
                allow_large,
                limit,
                project,
                stage,
            ),
        }
}

/// Crops and guards a domain, given the projection of its whole grid.
pub fn crop_projected_domain<T: Copy, P: Copy, M, B>(
    surface: &SurfaceFields<T, P>,
    pressure: &PressureFields<T>,
    whole: &HeavyProjection<M>,
    domain: &DomainSpec<B>,
    allow_large_heavy_domain: bool,
    cell_limit: usize,
) -> (outcome: Result<(Option<CroppedHeavyDomain<T, P>>, HeavyDomainStats), String>)
    requires
        fills_grid(*surface),
    ensures
        guards(
            *surface,
            *pressure,
            *whole,
            *domain,
            allow_large_heavy_domain,
            cell_limit as int,
            outcome,
        ),
        outcome matches Ok(found) ==> ready(
            (HeavyStage { cropped: found.0, stats: found.1, projected: whole.handle }),
            *surface,
            *pressure,
        ),
{
    let inside = cells_inside(whole);
    proof {
        assert forall|rect: GridCrop|
            #[trigger] bounds::is_padded_box(
                inside@,
                surface.nx as int,
                surface.ny as int,
                HEAVY_PAD_CELLS as int,
                rect,
            ) implies fields::surface_crop_fits(*surface, rect) by {
            lemma_padded_box_fits(*surface, inside@, HEAVY_PAD_CELLS as int, rect);
        }
    }
    let outcome = crop_and_guard_heavy_domain(
        surface,
        pressure,
        whole.inside_x.len(),
        whole.inside_y.len(),
        inside.as_slice(),
        domain,
        HEAVY_PAD_CELLS,
        allow_large_heavy_domain,
        cell_limit,
    );
    proof {
        assert(guards(
            *surface,
            *pressure,
            *whole,
            *domain,
            allow_large_heavy_domain,
            cell_limit as int,
            outcome,
        ));
        if outcome is Ok && outcome->Ok_0.0 is Some {
            lemma_cropped_domain_is_ready(
                *surface,
                *pressure,
                *whole,
                *domain,
                allow_large_heavy_domain,
                cell_limit as int,
                outcome->Ok_0.0->Some_0,
                outcome->Ok_0.1,
            );
        }
    }
    outcome
}

/// Crops and guards the domain of a batch, and projects what its maps are drawn on.
pub fn stage_heavy_domain<
    T: Copy,
    P: Copy,
    M,
    B,
    J: for<'a> Fn(&'a SurfaceFields<T, P>) -> Result<HeavyProjection<M>, String>,
>(
    surface: &SurfaceFields<T, P>,
    pressure: &PressureFields<T>,
    domain: &DomainSpec<B>,
    allow_large_heavy_domain: bool,
    cell_limit: usize,
    project: &J,
) -> (stage: Result<HeavyStage<T, P, M>, String>)
    requires
        fills_grid(*surface),
        forall|s: SurfaceFields<T, P>| #[trigger] call_requires(*project, (&s,)),
    ensures
        staged(
            *surface,
            *pressure,
            *domain,
            allow_large_heavy_domain,
            cell_limit as int,
            *project,
            stage,
        ),
        stage matches Ok(stage) ==> ready(stage, *surface, *pressure),
{
    let answer = project(surface);
    let ghost told = answer;
    let whole = match answer {
        Ok(whole) => whole,
        Err(message) => {
            return Err(message);
        },
    };
    let ghost first = whole;
    let outcome = crop_projected_domain(
        surface,
        pressure,
        &whole,
        domain,
        allow_large_heavy_domain,
        cell_limit,
    );
    let ghost guarded = outcome;
    proof {
        assert(guards(
            *surface,
            *pressure,
            first,
            *domain,
            allow_large_heavy_domain,
            cell_limit as int,
            guarded,
        ));
    }
    let stage = match outcome {
        Err(message) => Err(message),
        Ok((Some(cropped), stats)) => match project(&cropped.surface) {
            Err(message) => Err(message),
            Ok(again) => Ok(
                HeavyStage { cropped: Some(cropped), stats, projected: again.handle },
            ),
        },
        Ok((None, stats)) => Ok(
            HeavyStage { cropped: None, stats, projected: whole.handle },
        ),
    };
    proof {
        assert(staged_on(
            *surface,
            *pressure,
            first,
            *domain,
            allow_large_heavy_domain,
            cell_limit as int,
            *project,
            stage,
        ));
        assert(call_ensures(*project, (surface,), told));
    }
    stage
}

/// Whether heavy fields can be computed on the domain of a stage: it has cells, and
/// if it was cropped its heights fill the volume.
pub open spec fn ready<T, P, M>(
    stage: HeavyStage<T, P, M>,
    surface: SurfaceFields<T, P>,
    pressure: PressureFields<T>,
) -> bool {
    let own = stage.surface(surface);
    let levels = stage.pressure(pressure);
    &&& own.nx * own.ny == own.orog_m@.len()
    &&& 0 < own.orog_m@.len()
    &&& stage.cropped is Some ==> own.orog_m@.len() * levels.pressure_levels_hpa@.len()
        == levels.gh_m_3d@.len()
}

proof fn lemma_cropped_domain_is_ready<T, P, M, B>(
    surface: SurfaceFields<T, P>,
    pressure: PressureFields<T>,
    projected: HeavyProjection<M>,
    domain: DomainSpec<B>,
    allow_large: bool,
    limit: int,
    cropped: CroppedHeavyDomain<T, P>,
    stats: HeavyDomainStats,
)
    requires
        fills_grid(surface),
        guards(
            surface,
            pressure,
            projected,
            domain,
            allow_large,
            limit,
            Ok::<(Option<CroppedHeavyDomain<T, P>>, HeavyDomainStats), String>(
                (Some(cropped), stats),
            ),
        ),
    ensures
        cropped.surface.nx * cropped.surface.ny == cropped.surface.orog_m@.len(),
        0 < cropped.surface.orog_m@.len(),
        cropped.surface.orog_m@.len() * cropped.pressure.pressure_levels_hpa@.len()
            == cropped.pressure.gh_m_3d@.len(),
{
    let nx = surface.nx as int;
    let ny = surface.ny as int;
    let levels = pressure.pressure_levels_hpa@.len() as int;
    let outcome = Ok::<(Option<CroppedHeavyDomain<T, P>>, HeavyDomainStats), String>(
        (Some(cropped), stats),
    );
    let (intersection, found) = choose|
        intersection: ProjectedGridIntersection,
        found: HeavyDomainStats,
    |
        #![trigger heavy::stats_of(intersection, surface.nx * surface.ny, levels, found)]
        {
            &&& heavy::intersects(
                surface,
                projected.inside(),
                HEAVY_PAD_CELLS as int,
                intersection,
            )
            &&& heavy::stats_of(intersection, surface.nx * surface.ny, levels, found)
            &&& heavy::guarded_outcome(
                surface,
                pressure,
                domain.slug@,
                allow_large,
                limit,
                intersection,
                found,
                outcome,
            )
        };
    let rect = intersection->Crop_0;
    lemma_padded_box_fits(surface, projected.inside(), HEAVY_PAD_CELLS as int, rect);
    crop::lemma_cropped_len(surface.orog_m@, nx, rect);
    fields::lemma_volumes_on_size(pressure, fields::source_volume_len(pressure, nx, ny));
    crop::lemma_cropped_levels_len(pressure.gh_m_3d@, nx, ny, levels, rect);
    let w = rect.spec_width();
    let h = rect.spec_height();
    assert(0 < w * h) by (nonlinear_arith)
        requires
            0 < w,
            0 < h,
    ;
}

/// Whether the fields of a domain end as computed, with their count of failures.
pub open spec fn computes<
    T,
    P,
    K: for<'a> Fn(EcapeCall<'a, T>) -> Result<EcapeAnswer<T>, String>,
    R: Fn(T, T) -> T,
    A: Fn(T, T) -> T,
    S: Fn(T, T) -> T,
    L: Fn(T, T) -> T,
    E: Fn(T) -> T,
    C: Fn(T) -> T,
>(
    surface: SurfaceFields<T, P>,
    pressure: PressureFields<T>,
    heights: HeightRules<T, A, S, L, E, C>,
    run: K,
    ratio: R,
    result: Result<(Vec<WeatherPanelField<T>>, usize), String>,
) -> bool {
    exists|prepared: PreparedHeavyVolume<T>|
        #[trigger] ecape_compute::prepared_from(surface, pressure, heights, prepared)
            && ecape_compute::outcome(surface, pressure, prepared, run, ratio, result)
}

/// Whether the names of a run are those of a request.
pub open spec fn names_run<'a, B>(
    request: EcapeBatchRequest<B>,
    model: Seq<char>,
    cycle_utc: u8,
    run: RunNames<'a>,
) -> bool {
    &&& run.model_slug@ == heavy::underscored(model)
    &&& run.date_yyyymmdd@ == request.date_yyyymmdd@
    &&& run.cycle_utc == cycle_utc
    &&& run.forecast_hour == request.forecast_hour
    &&& run.domain_slug@ == request.domain.slug@
}

/// The fields of a batch on its domain, and the maps that show them.
pub struct EcapeMaps<T, P, M, D> {
    pub stage: HeavyStage<T, P, M>,
    pub fields: Vec<WeatherPanelField<T>>,
    pub failure_count: usize,
    pub maps: Vec<D>,
}

/// What the maps of a batch are drawn from: the domain and its computed fields.
pub struct EcapeFields<T, P, M> {
    pub stage: HeavyStage<T, P, M>,
    pub fields: Vec<WeatherPanelField<T>>,
    pub failure_count: usize,
}

/// Whether the fields of a batch end as computed on its domain.
pub open spec fn fields_end<
    T,
    P,
    M,
    B,
    J: for<'a> Fn(&'a SurfaceFields<T, P>) -> Result<HeavyProjection<M>, String>,
    K: for<'a> Fn(EcapeCall<'a, T>) -> Result<EcapeAnswer<T>, String>,
    R: Fn(T, T) -> T,
    A: Fn(T, T) -> T,
    S: Fn(T, T) -> T,
    L: Fn(T, T) -> T,
    E: Fn(T) -> T,
    C: Fn(T) -> T,
>(
    request: EcapeBatchRequest<B>,
    surface: SurfaceFields<T, P>,
    pressure: PressureFields<T>,
    limit: int,
    project: J,
    heights: HeightRules<T, A, S, L, E, C>,
    run: K,
    ratio: R,
    result: Result<EcapeFields<T, P, M>, String>,
) -> bool {
    exists|stage: Result<HeavyStage<T, P, M>, String>|
        #[trigger] staged(
            surface,
            pressure,
            request.domain,
            request.allow_large_heavy_domain,
            limit,
            project,
            stage,
        ) && match stage {
            Err(message) => result == Err::<EcapeFields<T, P, M>, String>(message),
            Ok(stage) => exists|computed: Result<(Vec<WeatherPanelField<T>>, usize), String>|
                #[trigger] computes(
                    stage.surface(surface),
                    stage.pressure(pressure),
                    heights,
                    run,
                    ratio,
                    computed,
                ) && match computed {
                    Err(message) => result == Err::<EcapeFields<T, P, M>, String>(message),
                    Ok((fields, failure_count)) => result == Ok::<EcapeFields<T, P, M>, String>(
                        EcapeFields { stage, fields, failure_count },
                    ),
                },
        }
}

fn compute_batch_fields<
    T: Copy,
    P: Copy,
    M,
    B,
    J: for<'a> Fn(&'a SurfaceFields<T, P>) -> Result<HeavyProjection<M>, String>,
    K: for<'a> Fn(EcapeCall<'a, T>) -> Result<EcapeAnswer<T>, String>,
    R: Fn(T, T) -> T,
    A: Fn(T, T) -> T,
    S: Fn(T, T) -> T,
    L: Fn(T, T) -> T,
    E: Fn(T) -> T,
    C: Fn(T) -> T,
>(
    request: &EcapeBatchRequest<B>,
    surface: &SurfaceFields<T, P>,
    pressure: &PressureFields<T>,
    cell_limit: usize,
    project: &J,
    heights: &HeightRules<T, A, S, L, E, C>,
    run: &K,
    ratio: &R,
) -> (result: Result<EcapeFields<T, P, M>, String>)
    requires
        computable(*surface, *pressure, *project, *heights, *run, *ratio),
    ensures
        fields_end(
            *request,
            *surface,
            *pressure,
            cell_limit as int,
            *project,
            *heights,
            *run,
            *ratio,
            result,
        ),
{
    let staged_domain = stage_heavy_domain(
        surface,
        pressure,
        &request.domain,
        request.allow_large_heavy_domain,
        cell_limit,
        project,
    );
    let ghost told = staged_domain;
    let stage = match staged_domain {
        Ok(stage) => stage,
        Err(message) => {
            return Err(message);
        },
    };
    let computed = match &stage.cropped {
        Some(cropped) => compute_ecape_map_fields(
            &cropped.surface,
            &cropped.pressure,
            heights,
            run,
            ratio,
        ),
        None => compute_ecape_map_fields(surface, pressure, heights, run, ratio),
    };
    proof {
        assert(computes(
            stage.surface(*surface),
            stage.pressure(*pressure),
            *heights,
            *run,
            *ratio,
            computed,
        ));
        assert(staged(
            *surface,
            *pressure,
            request.domain,
            request.allow_large_heavy_domain,
            cell_limit as int,
            *project,
            told,
        ));
    }
    match computed {
        Ok((fields, failure_count)) => Ok(EcapeFields { stage, fields, failure_count }),
        Err(message) => Err(message),
    }
}

/// Whether a decoded pair and the rules of a batch can be worked with: the surface
/// fills its grid, there is a height for every cell and level, and each rule takes
/// every argument.
pub open spec fn computable<
    T,
    P,
    M,
    J: for<'a> Fn(&'a SurfaceFields<T, P>) -> Result<HeavyProjection<M>, String>,
    K: for<'a> Fn(EcapeCall<'a, T>) -> Result<EcapeAnswer<T>, String>,
    R: Fn(T, T) -> T,
    A: Fn(T, T) -> T,
    S: Fn(T, T) -> T,
    L: Fn(T, T) -> T,
    E: Fn(T) -> T,
    C: Fn(T) -> T,
>(
    surface: SurfaceFields<T, P>,
    pressure: PressureFields<T>,
    project: J,
    heights: HeightRules<T, A, S, L, E, C>,
    run: K,
    ratio: R,
) -> bool {
    &&& fills_grid(surface)
    &&& surface.orog_m@.len() * pressure.pressure_levels_hpa@.len() <= pressure.gh_m_3d@.len()
    &&& forall|s: SurfaceFields<T, P>| #[trigger] call_requires(project, (&s,))
    &&& ecape_compute::usable(run)
    &&& forall|a: T, b: T| #[trigger] call_requires(ratio, (a, b))
    &&& forall|a: T, b: T| #[trigger] call_requires(heights.above, (a, b))
    &&& forall|a: T, b: T| #[trigger] call_requires(heights.raise, (a, b))
    &&& forall|a: T, b: T| #[trigger] call_requires(heights.lower, (a, b))
    &&& forall|a: T| #[trigger] call_requires(heights.settle, (a,))
    &&& forall|a: T| #[trigger] call_requires(heights.to_pa, (a,))
}

/// Whether maps show the computed fields of a batch, one for each field in order.
pub open spec fn shows_fields<'a, B, T, P, M>(
    request: EcapeBatchRequest<B>,
    model: Seq<char>,
    cycle_utc: u8,
    source_label: Seq<char>,
    given: EcapeFields<T, P, M>,
    shown: EcapeMaps<T, P, M, HeavyMapPlan>,
) -> bool {
    &&& shown.stage == given.stage
    &&& shown.fields == given.fields
    &&& shown.failure_count == given.failure_count
    &&& shown.maps@.len() == shown.fields@.len()
    &&& exists|run: RunNames<'a>|
        #[trigger] names_run(request, model, cycle_utc, run) && forall|i: int|
            0 <= i < shown.fields@.len() ==> heavy_batch::plans_map(
                #[trigger] shown.maps@[i],
                shown.fields@[i],
                HeavyFamily::Ecape,
                run,
                source_label,
            )
}

/// Computes a batch of ECAPE maps from a decoded pair of analyses. The maps are those
/// of every computed field, in order.
pub fn run_ecape_batch<
    T: Copy,
    P: Copy,
    M,
    B,
    J: for<'a> Fn(&'a SurfaceFields<T, P>) -> Result<HeavyProjection<M>, String>,
    K: for<'a> Fn(EcapeCall<'a, T>) -> Result<EcapeAnswer<T>, String>,
    R: Fn(T, T) -> T,
    A: Fn(T, T) -> T,
    S: Fn(T, T) -> T,
    L: Fn(T, T) -> T,
    E: Fn(T) -> T,
    C: Fn(T) -> T,
>(
    request: &EcapeBatchRequest<B>,
    model: &str,
    cycle_utc: u8,
    source_label: &str,
    surface: &SurfaceFields<T, P>,
    pressure: &PressureFields<T>,
    cell_limit: usize,
    project: &J,
    heights: &HeightRules<T, A, S, L, E, C>,
    run: &K,
    ratio: &R,
) -> (result: Result<EcapeMaps<T, P, M, HeavyMapPlan>, String>)
    requires
        computable(*surface, *pressure, *project, *heights, *run, *ratio),
    ensures
        exists|computed: Result<EcapeFields<T, P, M>, String>|
            #[trigger] fields_end(
                *request,
                *surface,
                *pressure,
                cell_limit as int,
                *project,
                *heights,
                *run,
                *ratio,
                computed,
            ) && match (computed, result) {
                (Ok(given), Ok(shown)) => shows_fields(
                    *request,
                    model@,
                    cycle_utc,
                    source_label@,
                    given,
                    shown,
                ),
                (Err(message), Err(told)) => told == message,
                _ => false,
            },
{
    let computed = compute_batch_fields(
        request,
        surface,
        pressure,
        cell_limit,
        project,
        heights,
        run,
        ratio,
    );
    let ghost told = computed;
    let given = match computed {
        Ok(given) => given,
        Err(message) => {
            return Err(message);
        },
    };
    let ghost held = given;
    let slug = model_slug(model);
    let names = RunNames {
        model_slug: slug.as_str(),
        date_yyyymmdd: request.date_yyyymmdd.as_str(),
        cycle_utc,
        forecast_hour: request.forecast_hour,
        domain_slug: request.domain.slug.as_str(),
    };
    let ghost run_names = names;
    let maps = plan_heavy_map_group(&given.fields, HeavyFamily::Ecape, names, source_label);
    let shown = EcapeMaps {
        stage: given.stage,
        fields: given.fields,
        failure_count: given.failure_count,
        maps,
    };
    proof {
        assert(names_run(*request, model@, cycle_utc, run_names));
        assert(shows_fields(*request, model@, cycle_utc, source_label@, held, shown));
        assert(fields_end(
            *request,
            *surface,
            *pressure,
            cell_limit as int,
            *project,
            *heights,
            *run,
            *ratio,
            told,
        ));
    }
    Ok(shown)
}

/// Whether the ratio maps of a batch end as planned from its computed fields: two for
/// each parcel, or else with the first field that is missing.
pub open spec fn shows_ratios<'a, B, T, P, M>(
    request: EcapeBatchRequest<B>,
    model: Seq<char>,
    cycle_utc: u8,
    source_label: Seq<char>,
    given: EcapeFields<T, P, M>,
    result: Result<EcapeMaps<T, P, M, RatioDisplayMap>, String>,
) -> bool {
    match result {
        Ok(shown) => {
            &&& shown.stage == given.stage
            &&& shown.fields == given.fields
            &&& shown.failure_count == given.failure_count
            &&& exists|run: RunNames<'a>|
                #[trigger] names_run(request, model, cycle_utc, run) && heavy_batch::shows_parcels(
                    shown.maps@,
                    3,
                    shown.fields@,
                    run,
                    source_label,
                )
        },
        Err(message) => exists|p: int|
            0 <= p < 3 && #[trigger] heavy_batch::parcel_gap(
                heavy_batch::shown_parcels()[p],
                given.fields@,
            ) is Some && message@ == ecape::missing_field(
                heavy_batch::parcel_gap(heavy_batch::shown_parcels()[p], given.fields@)->Some_0,
            ) && forall|q: int|
                0 <= q < p ==> heavy_batch::parcel_gap(
                    #[trigger] heavy_batch::shown_parcels()[q],
                    given.fields@,
                ) is None,
    }
}

/// Computes a batch of ECAPE maps that show ratios, from a decoded pair of analyses.
pub fn run_ecape_ratio_display_batch<
    T: Copy,
    P: Copy,
    M,
    B,
    J: for<'a> Fn(&'a SurfaceFields<T, P>) -> Result<HeavyProjection<M>, String>,
    K: for<'a> Fn(EcapeCall<'a, T>) -> Result<EcapeAnswer<T>, String>,
    R: Fn(T, T) -> T,
    A: Fn(T, T) -> T,
    S: Fn(T, T) -> T,
    L: Fn(T, T) -> T,
    E: Fn(T) -> T,
    C: Fn(T) -> T,
>(
    request: &EcapeBatchRequest<B>,
    model: &str,
    cycle_utc: u8,
    source_label: &str,
    surface: &SurfaceFields<T, P>,
    pressure: &PressureFields<T>,
    cell_limit: usize,
    project: &J,
    heights: &HeightRules<T, A, S, L, E, C>,
    run: &K,
    ratio: &R,
) -> (result: Result<EcapeMaps<T, P, M, RatioDisplayMap>, String>)
    requires
        computable(*surface, *pressure, *project, *heights, *run, *ratio),
    ensures
        exists|computed: Result<EcapeFields<T, P, M>, String>|
            #[trigger] fields_end(
                *request,
                *surface,
                *pressure,
                cell_limit as int,
                *project,
                *heights,
                *run,
                *ratio,
                computed,
            ) && match computed {
                Ok(given) => shows_ratios(
                    *request,
                    model@,
                    cycle_utc,
                    source_label@,
                    given,
                    result,
                ),
                Err(message) => result == Err::<EcapeMaps<T, P, M, RatioDisplayMap>, String>(
                    message,
                ),
            },
{
    let computed = compute_batch_fields(
        request,
        surface,
        pressure,
        cell_limit,
        project,
        heights,
        run,
        ratio,
    );
    let ghost told = computed;
    let given = match computed {
        Ok(given) => given,
        Err(message) => {
            return Err(message);
        },
    };
    let ghost held = given;
    let slug = model_slug(model);
    let names = RunNames {
        model_slug: slug.as_str(),
        date_yyyymmdd: request.date_yyyymmdd.as_str(),
        cycle_utc,
        forecast_hour: request.forecast_hour,
        domain_slug: request.domain.slug.as_str(),
    };
    let ghost run_names = names;
    let planned = plan_ratio_display_group(&given.fields, names, source_label);
    let result = match planned {
        Ok(maps) => Ok(
            EcapeMaps {
                stage: given.stage,
                fields: given.fields,
                failure_count: given.failure_count,
                maps,
            },
        ),
        Err(message) => Err(message),
    };
    proof {
        assert(names_run(*request, model@, cycle_utc, run_names));
        assert(shows_ratios(*request, model@, cycle_utc, source_label@, held, result));
        assert(fields_end(
            *request,
            *surface,
            *pressure,
            cell_limit as int,
            *project,
            *heights,
            *run,
            *ratio,
            told,
        ));
    }
    result
}

} // verus!
