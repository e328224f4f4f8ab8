//! Decoding a surface analysis: the planes that were planned for it, converted into
//! the quantities that it holds.
//!
//! The conversions of single values come as functions.
use crate::gridded::crop;
use crate::gridded::crop::{crop_2d_values, GridCrop};
use crate::gridded::fields::SurfaceFields;
use crate::gridded::records;
use crate::gridded::records::{GribRecord, LevelTable};
use crate::gridded::surface;
use crate::gridded::surface::{
    plan_native_cape_planes, plan_surface_decode, MoistureSource, NativeCapePlan, OrographySource,
    SurfaceLevels, SurfacePlan,
};
use crate::gridded::surface_laws;
use crate::gridded::volumes;
use vstd::prelude::*;
use vstd::slice::slice_to_vec;

verus! {

/// The grid of a surface analysis.
pub struct SurfaceGridLayout<T, P> {
    pub lat: Vec<T>,
    pub lon: Vec<T>,
    pub nx: usize,
    pub ny: usize,
    pub projection: Option<P>,
}

/// How values of messages become values of the analysis.
pub struct SurfaceRules<T, G, Q, D, H> {
    /// A height from geopotential.
    pub to_height: G,
    /// A mixing ratio from specific humidity.
    pub from_specific_humidity: Q,
    /// A mixing ratio from surface pressure and dewpoint.
    pub from_dewpoint: D,
    /// A mixing ratio from surface pressure, temperature and relative humidity.
    pub from_relative_humidity: H,
    /// The height that stands in for an orography.
    pub ground: T,
}

/// Whether the rules can be called on all values.
pub open spec fn convertible<
    T,
    G: Fn(T) -> T,
    Q: Fn(T) -> T,
    D: Fn(T, T) -> T,
    H: Fn(T, T, T) -> T,
>(rules: SurfaceRules<T, G, Q, D, H>) -> bool {
    &&& forall|a: T| #[trigger] call_requires(rules.to_height, (a,))
    &&& forall|a: T| #[trigger] call_requires(rules.from_specific_humidity, (a,))
    &&& forall|a: T, b: T| #[trigger] call_requires(rules.from_dewpoint, (a, b))
    &&& forall|a: T, b: T, c: T| #[trigger] call_requires(rules.from_relative_humidity, (a, b, c))
}

/// Whether each value was converted from the one at its place.
pub open spec fn converted<T, F: Fn(T) -> T>(before: Seq<T>, convert: F, after: Seq<T>) -> bool {
    &&& after.len() == before.len()
    &&& forall|i: int|
        0 <= i < before.len() ==> call_ensures(convert, (before[i],), #[trigger] after[i])
}

/// The smaller of two lengths.
pub open spec fn shorter(a: nat, b: nat) -> nat {
    if a <= b {
        a
    } else {
        b
    }
}

/// Whether the heights of a surface are those of its orography, or zeros that
/// stand in for one.
pub open spec fn is_orography<T, G: Fn(T) -> T>(
    source: OrographySource,
    planes: Seq<Result<Vec<T>, String>>,
    to_height: G,
    ground: T,
    cells: int,
    heights: Seq<T>,
    is_proxy: bool,
) -> bool {
    match source {
        OrographySource::Height(m) => !is_proxy && heights == volumes::plane_of(planes, m as int),
        OrographySource::Geopotential(m) => !is_proxy && converted(
            volumes::plane_of(planes, m as int),
            to_height,
            heights,
        ),
        OrographySource::Proxy => {
            &&& is_proxy
            &&& heights.len() == cells
            &&& forall|i: int| 0 <= i < cells ==> #[trigger] heights[i] == ground
        },
    }
}

/// Whether mixing ratios are had from the moisture of a surface, as far as the
/// planes that they are computed from reach.
pub open spec fn is_moisture<
    T,
    G: Fn(T) -> T,
    Q: Fn(T) -> T,
    D: Fn(T, T) -> T,
    H: Fn(T, T, T) -> T,
>(
    source: MoistureSource,
    planes: Seq<Result<Vec<T>, String>>,
    psfc: Seq<T>,
    t2: Seq<T>,
    rules: SurfaceRules<T, G, Q, D, H>,
    ratios: Seq<T>,
) -> bool {
    match source {
        MoistureSource::SpecificHumidity(m) => converted(
            volumes::plane_of(planes, m as int),
            rules.from_specific_humidity,
            ratios,
        ),
        MoistureSource::Dewpoint(m) => {
            let dewpoint = volumes::plane_of(planes, m as int);
            &&& ratios.len() == shorter(psfc.len(), dewpoint.len())
            &&& forall|i: int|
                0 <= i < ratios.len() ==> call_ensures(
                    rules.from_dewpoint,
                    (psfc[i], dewpoint[i]),
                    #[trigger] ratios[i],
                )
        },
        MoistureSource::RelativeHumidity(m) => {
            let humidity = volumes::plane_of(planes, m as int);
            &&& ratios.len() == shorter(shorter(psfc.len(), t2.len()), humidity.len())
            &&& forall|i: int|
                0 <= i < ratios.len() ==> call_ensures(
                    rules.from_relative_humidity,
                    (psfc[i], t2[i], humidity[i]),
                    #[trigger] ratios[i],
                )
        },
    }
}

/// Whether a plane is that of a message, if there is one.
pub open spec fn is_optional_plane<T>(
    message: Option<usize>,
    planes: Seq<Result<Vec<T>, String>>,
    plane: Option<Vec<T>>,
) -> bool {
    match message {
        Some(m) => plane is Some && plane->Some_0@ == volumes::plane_of(planes, m as int),
        None => plane is None,
    }
}

/// Whether a surface analysis is what was planned for it.
pub open spec fn decodes<
    T,
    P,
    G: Fn(T) -> T,
    Q: Fn(T) -> T,
    D: Fn(T, T) -> T,
    H: Fn(T, T, T) -> T,
>(
    plan: SurfacePlan,
    planes: Seq<Result<Vec<T>, String>>,
    layout: SurfaceGridLayout<T, P>,
    rules: SurfaceRules<T, G, Q, D, H>,
    fields: SurfaceFields<T, P>,
) -> bool {
    &&& fields.lat == layout.lat
    &&& fields.lon == layout.lon
    &&& fields.nx == layout.nx
    &&& fields.ny == layout.ny
    &&& fields.projection == layout.projection
    &&& fields.psfc_pa@ == volumes::plane_of(planes, plan.psfc as int)
    &&& is_orography(
        plan.orography,
        planes,
        rules.to_height,
        rules.ground,
        layout.nx * layout.ny,
        fields.orog_m@,
        fields.orog_is_proxy,
    )
    &&& fields.t2_k@ == volumes::plane_of(planes, plan.t2 as int)
    &&& is_moisture(
        plan.moisture,
        planes,
        fields.psfc_pa@,
        fields.t2_k@,
        rules,
        fields.q2_kgkg@,
    )
    &&& fields.u10_ms@ == volumes::plane_of(planes, plan.u10 as int)
    &&& fields.v10_ms@ == volumes::plane_of(planes, plan.v10 as int)
    &&& is_optional_plane(plan.native_cape.surface_based, planes, fields.native_sbcape_jkg)
    &&& is_optional_plane(plan.native_cape.mixed_layer, planes, fields.native_mlcape_jkg)
    &&& is_optional_plane(plan.native_cape.most_unstable, planes, fields.native_mucape_jkg)
    &&& is_optional_plane(plan.native_pblh, planes, fields.native_pblh_m)
}

/// Whether a message was unpacked.
pub open spec fn unpacked(planes: Seq<Result<nat, Seq<char>>>, m: usize) -> bool {
    m < planes.len() && planes[m as int] is Ok
}

/// Whether a message was unpacked, if there is one.
pub open spec fn unpacked_if_there(planes: Seq<Result<nat, Seq<char>>>, m: Option<usize>) -> bool {
    m matches Some(m) ==> unpacked(planes, m)
}

proof fn lemma_found_is_there(
    messages: Seq<GribRecord>,
    table: LevelTable,
    candidates: Seq<surface::Candidate>,
)
    ensures
        surface::found(messages, table, candidates) matches Some(m) ==> 0 <= m < messages.len(),
    decreases candidates.len(),
{
    if candidates.len() > 0 {
        lemma_suiting_is_there(messages, table, candidates[0], 0);
        lemma_found_is_there(messages, table, candidates.drop_first());
    }
}

proof fn lemma_suiting_is_there(
    messages: Seq<GribRecord>,
    table: LevelTable,
    candidate: surface::Candidate,
    m: int,
)
    requires
        0 <= m,
    ensures
        surface::first_suiting(messages, table, candidate, m) matches Some(k) ==> 0 <= k
            < messages.len(),
    decreases messages.len() - m,
{
    if m < messages.len() {
        lemma_suiting_is_there(messages, table, candidate, m + 1);
    }
}

proof fn lemma_native_plan_is_unpacked(
    messages: Seq<GribRecord>,
    table: LevelTable,
    planes: Seq<Result<nat, Seq<char>>>,
    levels: SurfaceLevels,
    plan: NativeCapePlan,
)
    requires
        messages.len() == planes.len(),
        messages.len() <= usize::MAX,
        surface::native_cape_plan(messages, table, planes, levels) == Ok::<
            NativeCapePlan,
            Seq<char>,
        >(plan),
    ensures
        unpacked_if_there(planes, plan.surface_based),
        unpacked_if_there(planes, plan.mixed_layer),
        unpacked_if_there(planes, plan.most_unstable),
{
    lemma_found_is_there(
        messages,
        table,
        surface::cape_candidates(surface::NativeCapeLayer::Surface, levels),
    );
    lemma_found_is_there(
        messages,
        table,
        surface::cape_candidates(surface::NativeCapeLayer::MixedLayer, levels),
    );
    lemma_found_is_there(
        messages,
        table,
        surface::cape_candidates(surface::NativeCapeLayer::MostUnstable, levels),
    );
}

proof fn lemma_plan_is_unpacked(
    messages: Seq<GribRecord>,
    table: LevelTable,
    planes: Seq<Result<nat, Seq<char>>>,
    levels: SurfaceLevels,
    plan: SurfacePlan,
)
    requires
        messages.len() == planes.len(),
        messages.len() <= usize::MAX,
        surface::surface_plan(messages, table, planes, levels) == Ok::<SurfacePlan, Seq<char>>(
            plan,
        ),
    ensures
        unpacked(planes, plan.psfc),
        match plan.orography {
            OrographySource::Height(m) => unpacked(planes, m),
            OrographySource::Geopotential(m) => unpacked(planes, m),
            OrographySource::Proxy => true,
        },
        unpacked(planes, plan.t2),
        match plan.moisture {
            MoistureSource::SpecificHumidity(m) => unpacked(planes, m),
            MoistureSource::Dewpoint(m) => unpacked(planes, m),
            MoistureSource::RelativeHumidity(m) => unpacked(planes, m),
        },
        unpacked(planes, plan.u10),
        unpacked(planes, plan.v10),
        unpacked_if_there(planes, plan.native_cape.surface_based),
        unpacked_if_there(planes, plan.native_cape.mixed_layer),
        unpacked_if_there(planes, plan.native_cape.most_unstable),
        unpacked_if_there(planes, plan.native_pblh),
{
    lemma_found_is_there(messages, table, surface::at_surface(3, 0, levels));
    lemma_found_is_there(messages, table, surface::at_surface(3, 5, levels));
    lemma_found_is_there(messages, table, surface::at_surface(3, 4, levels));
    lemma_found_is_there(messages, table, surface::above_ground(0, 0, levels.two_metres));
    lemma_found_is_there(messages, table, surface::above_ground(1, 0, levels.two_metres));
    lemma_found_is_there(messages, table, surface::above_ground(0, 6, levels.two_metres));
    lemma_found_is_there(messages, table, surface::above_ground(1, 1, levels.two_metres));
    lemma_found_is_there(messages, table, surface::above_ground(2, 2, levels.ten_metres));
    lemma_found_is_there(messages, table, surface::above_ground(2, 3, levels.ten_metres));
    lemma_found_is_there(messages, table, surface::pblh_candidates(levels));
    lemma_native_plan_is_unpacked(messages, table, planes, levels, plan.native_cape);
}

fn copy_plane<T: Copy>(planes: &[Result<Vec<T>, String>], m: usize) -> (plane: Vec<T>)
    requires
        unpacked(volumes::outcomes(planes@), m),
    ensures
        plane@ == volumes::plane_of(planes@, m as int),
{
    match &planes[m] {
        Ok(values) => slice_to_vec(values.as_slice()),
        Err(_) => vstd::pervasive::unreached(),
    }
}

fn copy_optional_plane<T: Copy>(planes: &[Result<Vec<T>, String>], m: Option<usize>) -> (plane:
    Option<Vec<T>>)
    requires
        unpacked_if_there(volumes::outcomes(planes@), m),
    ensures
        is_optional_plane(m, planes@, plane),
{
    match m {
        Some(m) => Some(copy_plane(planes, m)),
        None => None,
    }
}

pub(crate) fn convert_plane<T: Copy, F: Fn(T) -> T>(before: &[T], convert: &F) -> (after: Vec<T>)
    requires
        forall|a: T| #[trigger] call_requires(*convert, (a,)),
    ensures
        converted(before@, *convert, after@),
{
    let mut after: Vec<T> = Vec::new();
    let mut i: usize = 0;
    while i < before.len()
        invariant
            i <= before@.len(),
            after@.len() == i,
            forall|a: T| #[trigger] call_requires(*convert, (a,)),
            forall|k: int|
                0 <= k < i ==> call_ensures(*convert, (before@[k],), #[trigger] after@[k]),
        decreases before@.len() - i,
    {
        let value = convert(before[i]);
        after.push(value);
        i = i + 1;
    }
    after
}

fn decode_orography<T: Copy, G: Fn(T) -> T>(
    source: OrographySource,
    planes: &[Result<Vec<T>, String>],
    to_height: &G,
    ground: T,
    cells: usize,
) -> (orography: (Vec<T>, bool))
    requires
        match source {
            OrographySource::Height(m) => unpacked(volumes::outcomes(planes@), m),
            OrographySource::Geopotential(m) => unpacked(volumes::outcomes(planes@), m),
            OrographySource::Proxy => true,
        },
        forall|a: T| #[trigger] call_requires(*to_height, (a,)),
    ensures
        is_orography(
            source,
            planes@,
            *to_height,
            ground,
            cells as int,
            orography.0@,
            orography.1,
        ),
{
    match source {
        OrographySource::Height(m) => (copy_plane(planes, m), false),
        OrographySource::Geopotential(m) => {
            let geopotential = copy_plane(planes, m);
            (convert_plane(geopotential.as_slice(), to_height), false)
        },
        OrographySource::Proxy => {
            let mut zeros: Vec<T> = Vec::new();
            let mut i: usize = 0;
            while i < cells
                invariant
                    i <= cells,
                    zeros@.len() == i,
                    forall|k: int| 0 <= k < i ==> #[trigger] zeros@[k] == ground,
                decreases cells - i,
            {
                zeros.push(ground);
                i = i + 1;
            }
            (zeros, true)
        },
    }
}

fn decode_surface_mixing_ratio<
    T: Copy,
    G: Fn(T) -> T,
    Q: Fn(T) -> T,
    D: Fn(T, T) -> T,
    H: Fn(T, T, T) -> T,
>(
    source: MoistureSource,
    planes: &[Result<Vec<T>, String>],
    psfc: &[T],
    t2: &[T],
    rules: &SurfaceRules<T, G, Q, D, H>,
) -> (ratios: Vec<T>)
    requires
        match source {
            MoistureSource::SpecificHumidity(m) => unpacked(volumes::outcomes(planes@), m),
            MoistureSource::Dewpoint(m) => unpacked(volumes::outcomes(planes@), m),
            MoistureSource::RelativeHumidity(m) => unpacked(volumes::outcomes(planes@), m),
        },
        convertible(*rules),
    ensures
        is_moisture(source, planes@, psfc@, t2@, *rules, ratios@),
{
    match source {
        MoistureSource::SpecificHumidity(m) => {
            let humidity = copy_plane(planes, m);
            convert_plane(humidity.as_slice(), &rules.from_specific_humidity)
        },
        MoistureSource::Dewpoint(m) => {
            let dewpoint = copy_plane(planes, m);
            let mut ratios: Vec<T> = Vec::new();
            let mut i: usize = 0;
            while i < psfc.len() && i < dewpoint.len()
                invariant
                    i <= psfc@.len(),
                    i <= dewpoint@.len(),
                    ratios@.len() == i,
                    convertible(*rules),
                    forall|k: int|
                        0 <= k < i ==> call_ensures(
                            rules.from_dewpoint,
                            (psfc@[k], dewpoint@[k]),
                            #[trigger] ratios@[k],
                        ),
                decreases psfc@.len() - i,
            {
                let ratio = (rules.from_dewpoint)(psfc[i], dewpoint[i]);
                ratios.push(ratio);
                i = i + 1;
            }
            ratios
        },
        MoistureSource::RelativeHumidity(m) => {
            let humidity = copy_plane(planes, m);
            let mut ratios: Vec<T> = Vec::new();
            let mut i: usize = 0;
            while i < psfc.len() && i < t2.len() && i < humidity.len()
                invariant
                    i <= psfc@.len(),
                    i <= t2@.len(),
                    i <= humidity@.len(),
                    ratios@.len() == i,
                    convertible(*rules),
                    forall|k: int|
                        0 <= k < i ==> call_ensures(
                            rules.from_relative_humidity,
                            (psfc@[k], t2@[k], humidity@[k]),
                            #[trigger] ratios@[k],
                        ),
                decreases psfc@.len() - i,
            {
                let ratio = (rules.from_relative_humidity)(psfc[i], t2[i], humidity[i]);
                ratios.push(ratio);
                i = i + 1;
            }
            ratios
        },
    }
}

/// Decodes a surface analysis from the messages of a file and the planes that were
/// unpacked of them. The first field that must be there and is not, or was not
/// unpacked, fails the whole; an orography is stood in for.
pub fn decode_surface<
    T: Copy,
    P,
    G: Fn(T) -> T,
    Q: Fn(T) -> T,
    D: Fn(T, T) -> T,
    H: Fn(T, T, T) -> T,
>(
    messages: &[GribRecord],
    table: &LevelTable,
    planes: &[Result<Vec<T>, String>],
    levels: SurfaceLevels,
    layout: SurfaceGridLayout<T, P>,
    rules: &SurfaceRules<T, G, Q, D, H>,
) -> (fields: Result<SurfaceFields<T, P>, String>)
    requires
        table.wf(),
        records::levels_known(messages@, *table),
        levels.known(*table),
        planes@.len() == messages@.len(),
        layout.nx * layout.ny <= usize::MAX,
        convertible(*rules),
    ensures
        match surface::surface_plan(messages@, *table, volumes::outcomes(planes@), levels) {
            Ok(plan) => fields is Ok && decodes(plan, planes@, layout, *rules, fields->Ok_0),
            Err(message) => fields is Err && fields->Err_0@ == message,
        },
{
    let plan = match plan_surface_decode(messages, table, planes, levels) {
        Ok(plan) => plan,
        Err(message) => {
            return Err(message);
        },
    };
    proof {
        assert(messages.len() <= usize::MAX);
        lemma_plan_is_unpacked(messages@, *table, volumes::outcomes(planes@), levels, plan);
    }
    let psfc_pa = copy_plane(planes, plan.psfc);
    let (orog_m, orog_is_proxy) = decode_orography(
        plan.orography,
        planes,
        &rules.to_height,
        rules.ground,
        layout.nx * layout.ny,
    );
    let t2_k = copy_plane(planes, plan.t2);
    let q2_kgkg = decode_surface_mixing_ratio(
        plan.moisture,
        planes,
        psfc_pa.as_slice(),
        t2_k.as_slice(),
        rules,
    );
    Ok(
        SurfaceFields {
            lat: layout.lat,
            lon: layout.lon,
            nx: layout.nx,
            ny: layout.ny,
            projection: layout.projection,
            psfc_pa,
            orog_m,
            orog_is_proxy,
            t2_k,
            q2_kgkg,
            u10_ms: copy_plane(planes, plan.u10),
            v10_ms: copy_plane(planes, plan.v10),
            native_sbcape_jkg: copy_optional_plane(planes, plan.native_cape.surface_based),
            native_mlcape_jkg: copy_optional_plane(planes, plan.native_cape.mixed_layer),
            native_mucape_jkg: copy_optional_plane(planes, plan.native_cape.most_unstable),
            native_pblh_m: copy_optional_plane(planes, plan.native_pblh),
        },
    )
}

/// Whether a grid is the part of another that a rectangle cuts out.
pub open spec fn cut_out<T, P>(
    whole: SurfaceGridLayout<T, P>,
    window: GridCrop,
    part: SurfaceGridLayout<T, P>,
) -> bool {
    &&& part.lat@ == crop::cropped(whole.lat@, whole.nx as int, window)
    &&& part.lon@ == crop::cropped(whole.lon@, whole.nx as int, window)
    &&& part.nx == window.spec_width()
    &&& part.ny == window.spec_height()
    &&& part.projection == whole.projection
}

/// Decodes the part of a surface analysis that a rectangle cuts out. The planes are
/// those of the rectangle, the grid is the whole.
pub fn decode_surface_cropped<
    T: Copy,
    P,
    G: Fn(T) -> T,
    Q: Fn(T) -> T,
    D: Fn(T, T) -> T,
    H: Fn(T, T, T) -> T,
>(
    messages: &[GribRecord],
    table: &LevelTable,
    planes: &[Result<Vec<T>, String>],
    levels: SurfaceLevels,
    layout: SurfaceGridLayout<T, P>,
    window: GridCrop,
    rules: &SurfaceRules<T, G, Q, D, H>,
) -> (fields: Result<SurfaceFields<T, P>, String>)
    requires
        table.wf(),
        records::levels_known(messages@, *table),
        levels.known(*table),
        planes@.len() == messages@.len(),
        window.fits(layout.nx as int, layout.lat@.len() as int),
        window.fits(layout.nx as int, layout.lon@.len() as int),
        convertible(*rules),
    ensures
        match surface::surface_plan(messages@, *table, volumes::outcomes(planes@), levels) {
            Ok(plan) => fields is Ok && exists|part: SurfaceGridLayout<T, P>|
                #[trigger] cut_out(layout, window, part) && decodes(
                    plan,
                    planes@,
                    part,
                    *rules,
                    fields->Ok_0,
                ),
            Err(message) => fields is Err && fields->Err_0@ == message,
        },
{
    let lat = crop_2d_values(layout.lat.as_slice(), layout.nx, window);
    let lon = crop_2d_values(layout.lon.as_slice(), layout.nx, window);
    let part = SurfaceGridLayout {
        lat,
        lon,
        nx: window.width(),
        ny: window.height(),
        projection: layout.projection,
    };
    proof {
        assert(cut_out(layout, window, part));
    }
    decode_surface(messages, table, planes, levels, part, rules)
}

/// The native CAPE planes of a surface file: surface-based, mixed-layer and
/// most-unstable, as far as there are any.
pub fn decode_native_cape_planes<T: Copy>(
    messages: &[GribRecord],
    table: &LevelTable,
    planes: &[Result<Vec<T>, String>],
    levels: SurfaceLevels,
) -> (capes: Result<(Option<Vec<T>>, Option<Vec<T>>, Option<Vec<T>>), String>)
    requires
        table.wf(),
        records::levels_known(messages@, *table),
        levels.known(*table),
        planes@.len() == messages@.len(),
    ensures
        match surface::native_cape_plan(messages@, *table, volumes::outcomes(planes@), levels) {
            Ok(plan) => {
                &&& capes is Ok
                &&& is_optional_plane(plan.surface_based, planes@, capes->Ok_0.0)
                &&& is_optional_plane(plan.mixed_layer, planes@, capes->Ok_0.1)
                &&& is_optional_plane(plan.most_unstable, planes@, capes->Ok_0.2)
            },
            Err(message) => capes is Err && capes->Err_0@ == message,
        },
        capes matches Ok(found) ==> match found.0 {
            Some(plane) => exists|m: int|
                #[trigger] surface_laws::is_first(
                    messages@,
                    *table,
                    7,
                    6,
                    1,
                    Some(levels.surface),
                    m,
                ) && plane@ == volumes::plane_of(planes@, m),
            None => surface_laws::has_none(messages@, *table, 7, 6, 1, Some(levels.surface)),
        },
        capes matches Ok(found) ==> match found.1 {
            Some(plane) => exists|m: int|
                #[trigger] surface_laws::is_first(
                    messages@,
                    *table,
                    7,
                    6,
                    108,
                    Some(levels.mixed_layer),
                    m,
                ) && plane@ == volumes::plane_of(planes@, m),
            None => surface_laws::has_none(messages@, *table, 7, 6, 108, Some(levels.mixed_layer)),
        },
        capes matches Ok(found) ==> match found.2 {
            Some(plane) => exists|m: int|
                #[trigger] surface_laws::is_first(
                    messages@,
                    *table,
                    7,
                    6,
                    108,
                    Some(levels.most_unstable),
                    m,
                ) && plane@ == volumes::plane_of(planes@, m),
            None => surface_laws::has_none(messages@, *table, 7, 6, 108, Some(levels.most_unstable)),
        },
{
    let plan = match plan_native_cape_planes(messages, table, planes, levels) {
        Ok(plan) => plan,
        Err(message) => {
            return Err(message);
        },
    };
    proof {
        assert(messages.len() <= usize::MAX);
        lemma_native_plan_is_unpacked(
            messages@,
            *table,
            volumes::outcomes(planes@),
            levels,
            plan,
        );
        surface_laws::law_native_cape_comes_from_its_own_message(
            messages@,
            *table,
            volumes::outcomes(planes@),
            levels,
            plan,
        );
    }
    Ok(
        (
            copy_optional_plane(planes, plan.surface_based),
            copy_optional_plane(planes, plan.mixed_layer),
            copy_optional_plane(planes, plan.most_unstable),
        ),
    )
}

/// A surface analysis that was decoded on a rectangle has all its planes on that
/// rectangle's cells, if the planes were unpacked there.
pub proof fn law_decoded_surface_fills_its_grid<
    T,
    P,
    G: Fn(T) -> T,
    Q: Fn(T) -> T,
    D: Fn(T, T) -> T,
    H: Fn(T, T, T) -> T,
>(
    messages: Seq<GribRecord>,
    table: LevelTable,
    levels: SurfaceLevels,
    plan: SurfacePlan,
    planes: Seq<Result<Vec<T>, String>>,
    layout: SurfaceGridLayout<T, P>,
    rules: SurfaceRules<T, G, Q, D, H>,
    fields: SurfaceFields<T, P>,
    cells: int,
)
    requires
        messages.len() == planes.len(),
        messages.len() <= usize::MAX,
        surface::surface_plan(messages, table, volumes::outcomes(planes), levels) == Ok::<
            SurfacePlan,
            Seq<char>,
        >(plan),
        decodes(plan, planes, layout, rules, fields),
        cells == layout.nx * layout.ny,
        forall|m: int|
            0 <= m < planes.len() ==> ((#[trigger] planes[m]) matches Ok(plane) ==> plane@.len()
                == cells),
    ensures
        fields.psfc_pa@.len() == cells,
        fields.orog_m@.len() == cells,
        fields.t2_k@.len() == cells,
        fields.q2_kgkg@.len() == cells,
        fields.u10_ms@.len() == cells,
        fields.v10_ms@.len() == cells,
        fields.native_sbcape_jkg matches Some(plane) ==> plane@.len() == cells,
        fields.native_mlcape_jkg matches Some(plane) ==> plane@.len() == cells,
        fields.native_mucape_jkg matches Some(plane) ==> plane@.len() == cells,
        fields.native_pblh_m matches Some(plane) ==> plane@.len() == cells,
{
    let outcomes = volumes::outcomes(planes);
    lemma_plan_is_unpacked(messages, table, outcomes, levels, plan);
    assert forall|m: usize| #[trigger] unpacked(outcomes, m) implies volumes::plane_of(
        planes,
        m as int,
    ).len() == cells by {
        assert(planes[m as int] is Ok);
    }
}

} // verus!
