//! Laws of decoding a surface and a pressure analysis that belong together.
use crate::gridded::collect;
use crate::gridded::collect::OptionalVolumes;
use crate::gridded::crop_laws;
use crate::gridded::decode;
use crate::gridded::decode::{DecodedRequiredVolumes, RequiredPlan};
use crate::gridded::domain;
use crate::gridded::fields::{PressureFields, SurfaceFields};
use crate::gridded::pressure_fields;
use crate::gridded::pressure_fields::PressureRules;
use crate::gridded::records::{GribRecord, LevelTable};
use crate::gridded::surface::{MoistureSource, OrographySource, SurfaceLevels, SurfacePlan};
use crate::gridded::surface_decode;
use crate::gridded::surface_decode::{SurfaceGridLayout, SurfaceRules};
use crate::gridded::thermo_pair;
use crate::gridded::thermo_pair::{OwnedFile, UnpackedFile};
use crate::gridded::volumes;
use crate::gridded::volumes::{DecodeError, MoistureBranch};
use vstd::prelude::*;

verus! {

/// Whether a conversion has one result.
pub open spec fn converts_once<T, F: Fn(T) -> T>(convert: F) -> bool {
    forall|a: T, x: T, y: T|
        #![trigger call_ensures(convert, (a,), x), call_ensures(convert, (a,), y)]
        call_ensures(convert, (a,), x) && call_ensures(convert, (a,), y) ==> x == y
}

/// Whether each conversion of a surface analysis answers by its arguments alone.
pub open spec fn surface_settled<
    T,
    G: Fn(T) -> T,
    Q: Fn(T) -> T,
    D: Fn(T, T) -> T,
    H: Fn(T, T, T) -> T,
>(rules: SurfaceRules<T, G, Q, D, H>) -> bool {
    &&& converts_once(rules.to_height)
    &&& converts_once(rules.from_specific_humidity)
    &&& forall|a: T, b: T, x: T, y: T|
        #![trigger call_ensures(rules.from_dewpoint, (a, b), x), call_ensures(
            rules.from_dewpoint,
            (a, b),
            y,
        )]
        call_ensures(rules.from_dewpoint, (a, b), x) && call_ensures(
            rules.from_dewpoint,
            (a, b),
            y,
        ) ==> x == y
    &&& forall|a: T, b: T, c: T, x: T, y: T|
        #![trigger call_ensures(rules.from_relative_humidity, (a, b, c), x), call_ensures(
            rules.from_relative_humidity,
            (a, b, c),
            y,
        )]
        call_ensures(rules.from_relative_humidity, (a, b, c), x) && call_ensures(
            rules.from_relative_humidity,
            (a, b, c),
            y,
        ) ==> x == y
}

/// Whether two optional planes hold the same values, or are both missing.
pub open spec fn same_plane<T>(a: Option<Vec<T>>, b: Option<Vec<T>>) -> bool {
    match (a, b) {
        (Some(a), Some(b)) => a@ == b@,
        (None, None) => true,
        _ => false,
    }
}

/// Whether two surface analyses hold the same values on the same grid.
pub open spec fn same_surface<T, P>(a: SurfaceFields<T, P>, b: SurfaceFields<T, P>) -> bool {
    &&& a.lat@ == b.lat@
    &&& a.lon@ == b.lon@
    &&& a.nx == b.nx
    &&& a.ny == b.ny
    &&& a.projection == b.projection
    &&& a.psfc_pa@ == b.psfc_pa@
    &&& a.orog_m@ == b.orog_m@
    &&& a.orog_is_proxy == b.orog_is_proxy
    &&& a.t2_k@ == b.t2_k@
    &&& a.q2_kgkg@ == b.q2_kgkg@
    &&& a.u10_ms@ == b.u10_ms@
    &&& a.v10_ms@ == b.v10_ms@
    &&& same_plane(a.native_sbcape_jkg, b.native_sbcape_jkg)
    &&& same_plane(a.native_mlcape_jkg, b.native_mlcape_jkg)
    &&& same_plane(a.native_mucape_jkg, b.native_mucape_jkg)
    &&& same_plane(a.native_pblh_m, b.native_pblh_m)
}

/// Whether a pressure analysis has no optional volume.
pub open spec fn nothing_optional<T>(fields: PressureFields<T>) -> bool {
    &&& fields.pressure_3d_pa is None
    &&& fields.omega_pa_s_3d is None
    &&& fields.absolute_vorticity_s_3d is None
    &&& fields.cloud_liquid_kgkg_3d is None
    &&& fields.cloud_ice_kgkg_3d is None
    &&& fields.rain_kgkg_3d is None
    &&& fields.snow_kgkg_3d is None
    &&& fields.graupel_kgkg_3d is None
}

/// Whether two pressure analyses without optional volumes hold the same values.
pub open spec fn same_pressure<T>(a: PressureFields<T>, b: PressureFields<T>) -> bool {
    &&& a.pressure_levels_hpa@ == b.pressure_levels_hpa@
    &&& a.temperature_c_3d@ == b.temperature_c_3d@
    &&& a.qvapor_kgkg_3d@ == b.qvapor_kgkg_3d@
    &&& a.u_ms_3d@ == b.u_ms_3d@
    &&& a.v_ms_3d@ == b.v_ms_3d@
    &&& a.gh_m_3d@ == b.gh_m_3d@
    &&& nothing_optional(a)
    &&& nothing_optional(b)
}

/// Whether two pairs of analyses hold the same values, or were refused for the same
/// reason.
pub open spec fn same_pair<T, P>(
    a: Result<(SurfaceFields<T, P>, PressureFields<T>), DecodeError>,
    b: Result<(SurfaceFields<T, P>, PressureFields<T>), DecodeError>,
) -> bool {
    match (a, b) {
        (Ok(a), Ok(b)) => same_surface(a.0, b.0) && same_pressure(a.1, b.1),
        (Err(a), Err(b)) => a@ == b@,
        _ => false,
    }
}

proof fn lemma_converted_once<T, F: Fn(T) -> T>(before: Seq<T>, convert: F, a: Seq<T>, b: Seq<T>)
    requires
        converts_once(convert),
        surface_decode::converted(before, convert, a),
        surface_decode::converted(before, convert, b),
    ensures
        a == b,
{
    assert forall|i: int| 0 <= i < a.len() implies a[i] == b[i] by {
        assert(call_ensures(convert, (before[i],), a[i]));
        assert(call_ensures(convert, (before[i],), b[i]));
    }
    assert(a =~= b);
}

proof fn lemma_moisture_once<
    T,
    G: Fn(T) -> T,
    Q: Fn(T) -> T,
    D: Fn(T, T) -> T,
    H: Fn(T, T, T) -> T,
>(
    source: MoistureSource,
    planes: Seq<Result<Vec<T>, String>>,
    psfc: Seq<T>,
    t2: Seq<T>,
    rules: SurfaceRules<T, G, Q, D, H>,
    a: Seq<T>,
    b: Seq<T>,
)
    requires
        surface_settled(rules),
        surface_decode::is_moisture(source, planes, psfc, t2, rules, a),
        surface_decode::is_moisture(source, planes, psfc, t2, rules, b),
    ensures
        a == b,
{
    match source {
        MoistureSource::SpecificHumidity(m) => {
            lemma_converted_once(
                volumes::plane_of(planes, m as int),
                rules.from_specific_humidity,
                a,
                b,
            );
        },
        MoistureSource::Dewpoint(m) => {
            let dewpoint = volumes::plane_of(planes, m as int);
            assert forall|i: int| 0 <= i < a.len() implies a[i] == b[i] by {
                assert(call_ensures(rules.from_dewpoint, (psfc[i], dewpoint[i]), a[i]));
                assert(call_ensures(rules.from_dewpoint, (psfc[i], dewpoint[i]), b[i]));
            }
            assert(a =~= b);
        },
        MoistureSource::RelativeHumidity(m) => {
            let humidity = volumes::plane_of(planes, m as int);
            assert forall|i: int| 0 <= i < a.len() implies a[i] == b[i] by {
                assert(call_ensures(
                    rules.from_relative_humidity,
                    (psfc[i], t2[i], humidity[i]),
                    a[i],
                ));
                assert(call_ensures(
                    rules.from_relative_humidity,
                    (psfc[i], t2[i], humidity[i]),
                    b[i],
                ));
            }
            assert(a =~= b);
        },
    }
}

/// A surface analysis that is planned once is decoded alike each time.
pub proof fn law_surface_decodes_alike<
    T,
    P,
    G: Fn(T) -> T,
    Q: Fn(T) -> T,
    D: Fn(T, T) -> T,
    H: Fn(T, T, T) -> T,
>(
    plan: SurfacePlan,
    planes: Seq<Result<Vec<T>, String>>,
    layout: SurfaceGridLayout<T, P>,
    rules: SurfaceRules<T, G, Q, D, H>,
    a: SurfaceFields<T, P>,
    b: SurfaceFields<T, P>,
)
    requires
        surface_settled(rules),
        surface_decode::decodes(plan, planes, layout, rules, a),
        surface_decode::decodes(plan, planes, layout, rules, b),
    ensures
        same_surface(a, b),
{
    match plan.orography {
        OrographySource::Height(_) => {},
        OrographySource::Geopotential(m) => {
            lemma_converted_once(
                volumes::plane_of(planes, m as int),
                rules.to_height,
                a.orog_m@,
                b.orog_m@,
            );
        },
        OrographySource::Proxy => {
            assert(a.orog_m@ =~= b.orog_m@);
        },
    }
    lemma_moisture_once(
        plan.moisture,
        planes,
        a.psfc_pa@,
        a.t2_k@,
        rules,
        a.q2_kgkg@,
        b.q2_kgkg@,
    );
}

proof fn lemma_ratios_once<
    T,
    V: Fn(usize) -> T,
    C: Fn(T) -> T,
    G: Fn(T) -> T,
    Q: Fn(T) -> T,
    D: Fn(T, T) -> T,
    H: Fn(T, T, T) -> T,
>(
    v: DecodedRequiredVolumes<T>,
    w: DecodedRequiredVolumes<T>,
    cells: int,
    rules: PressureRules<V, C, G, Q, D, H>,
    p: Seq<T>,
    q: Seq<T>,
    a: Seq<T>,
    b: Seq<T>,
)
    requires
        crop_laws::settled(rules),
        v.moisture_branch == w.moisture_branch,
        v.moisture_levels@ == w.moisture_levels@,
        v.moisture_3d@ == w.moisture_3d@,
        v.moisture_temperature_k_3d@ == w.moisture_temperature_k_3d@,
        pressure_fields::are_ratios(v, cells, p, rules, a),
        pressure_fields::are_ratios(w, cells, q, rules, b),
    ensures
        a == b,
{
    crop_laws::lemma_pressures_once(v.moisture_levels@, rules.level_hpa, p, q);
    let moisture = v.moisture_3d@;
    let temperature = v.moisture_temperature_k_3d@;
    assert forall|i: int| 0 <= i < a.len() implies a[i] == b[i] by {
        let x = a[i];
        let y = b[i];
        match v.moisture_branch {
            MoistureBranch::SpecificHumidity => {
                assert(call_ensures(rules.from_specific_humidity, (moisture[i],), x));
                assert(call_ensures(rules.from_specific_humidity, (moisture[i],), y));
            },
            MoistureBranch::Dewpoint => {
                assert(call_ensures(rules.from_dewpoint, (p[i / cells], moisture[i]), x));
                assert(call_ensures(rules.from_dewpoint, (p[i / cells], moisture[i]), y));
            },
            MoistureBranch::RelativeHumidity => {
                assert(call_ensures(
                    rules.from_relative_humidity,
                    (p[i / cells], temperature[i], moisture[i]),
                    x,
                ));
                assert(call_ensures(
                    rules.from_relative_humidity,
                    (p[i / cells], temperature[i], moisture[i]),
                    y,
                ));
            },
        }
    }
    assert(a =~= b);
}

/// A pressure analysis that is planned once, without its optional volumes, is decoded
/// alike each time.
pub proof fn law_pressure_decodes_alike<
    T,
    V: Fn(usize) -> T,
    C: Fn(T) -> T,
    G: Fn(T) -> T,
    Q: Fn(T) -> T,
    D: Fn(T, T) -> T,
    H: Fn(T, T, T) -> T,
>(
    plan: RequiredPlan,
    messages: Seq<GribRecord>,
    table: LevelTable,
    planes: Seq<Result<Vec<T>, String>>,
    cells: int,
    rules: PressureRules<V, C, G, Q, D, H>,
    a: PressureFields<T>,
    b: PressureFields<T>,
)
    requires
        crop_laws::settled(rules),
        pressure_fields::planned_analysis(plan, messages, table, planes, false, cells, rules, a),
        pressure_fields::planned_analysis(plan, messages, table, planes, false, cells, rules, b),
    ensures
        same_pressure(a, b),
{
    let (v, ov) = choose|volumes: DecodedRequiredVolumes<T>, optional: OptionalVolumes<T>|
        decode::gathered_by(volumes, plan, planes, cells) && decode::sized(volumes, cells)
            && collect::are_optional_volumes(
            optional,
            false,
            messages,
            table,
            planes,
            volumes.levels@,
            cells,
        ) && #[trigger] pressure_fields::analyses(volumes, optional, cells, rules, a);
    let (w, ow) = choose|volumes: DecodedRequiredVolumes<T>, optional: OptionalVolumes<T>|
        decode::gathered_by(volumes, plan, planes, cells) && decode::sized(volumes, cells)
            && collect::are_optional_volumes(
            optional,
            false,
            messages,
            table,
            planes,
            volumes.levels@,
            cells,
        ) && #[trigger] pressure_fields::analyses(volumes, optional, cells, rules, b);
    crop_laws::lemma_pressures_once(
        plan.levels,
        rules.level_hpa,
        a.pressure_levels_hpa@,
        b.pressure_levels_hpa@,
    );
    lemma_converted_once(
        v.temperature_k_3d@,
        rules.to_celsius,
        a.temperature_c_3d@,
        b.temperature_c_3d@,
    );
    if plan.height_branch is Geopotential {
        lemma_converted_once(v.height_3d@, rules.to_height, a.gh_m_3d@, b.gh_m_3d@);
    }
    let p = choose|p: Seq<T>|
        #[trigger] pressure_fields::are_ratios(v, cells, p, rules, a.qvapor_kgkg_3d@);
    let q = choose|q: Seq<T>|
        #[trigger] pressure_fields::are_ratios(w, cells, q, rules, b.qvapor_kgkg_3d@);
    lemma_ratios_once(v, w, cells, rules, p, q, a.qvapor_kgkg_3d@, b.qvapor_kgkg_3d@);
}

/// Files that are given up can be decoded into exactly what the same files lent out can be
/// decoded into, whatever the conversions answer.
pub proof fn law_owned_files_decode_as_lent_ones<
    'a,
    T,
    P,
    G: Fn(T) -> T,
    Q: Fn(T) -> T,
    D: Fn(T, T) -> T,
    H: Fn(T, T, T) -> T,
    V: Fn(usize) -> T,
    C: Fn(T) -> T,
    I: Fn(T) -> T,
    J: Fn(T) -> T,
    K: Fn(T, T) -> T,
    L: Fn(T, T, T) -> T,
>(
    surface_file: OwnedFile<T>,
    levels: SurfaceLevels,
    layout: SurfaceGridLayout<T, P>,
    surface_rules: SurfaceRules<T, G, Q, D, H>,
    pressure_file: OwnedFile<T>,
    pressure_rules: PressureRules<V, C, I, J, K, L>,
    lent_surface: UnpackedFile<'a, T>,
    lent_pressure: UnpackedFile<'a, T>,
    pair: Result<(SurfaceFields<T, P>, PressureFields<T>), DecodeError>,
)
    requires
        surface_file.lends(lent_surface),
        pressure_file.lends(lent_pressure),
    ensures
        thermo_pair::owned_pair_decoded(
            surface_file,
            levels,
            layout,
            surface_rules,
            pressure_file,
            pressure_rules,
            pair,
        ) <==> thermo_pair::pair_decoded(
            lent_surface,
            levels,
            layout,
            surface_rules,
            lent_pressure,
            pressure_rules,
            pair,
        ),
{
    if thermo_pair::owned_pair_decoded(
        surface_file,
        levels,
        layout,
        surface_rules,
        pressure_file,
        pressure_rules,
        pair,
    ) {
        let (s, p) = choose|s: UnpackedFile<T>, p: UnpackedFile<T>|
            surface_file.lends(s) && pressure_file.lends(p)
                && #[trigger] thermo_pair::pair_decoded(
                s,
                levels,
                layout,
                surface_rules,
                p,
                pressure_rules,
                pair,
            );
        assert(s.surface_plan(levels) == lent_surface.surface_plan(levels));
        assert(p.pressure_plan(layout.nx, layout.ny) == lent_pressure.pressure_plan(
            layout.nx,
            layout.ny,
        ));
        assert(thermo_pair::pair_error(s, levels, layout.nx, layout.ny, p)
            == thermo_pair::pair_error(
            lent_surface,
            levels,
            layout.nx,
            layout.ny,
            lent_pressure,
        ));
    }
}

/// A pair of analyses that is decoded from files that are given up is the pair that is
/// decoded from the same files lent out, and where one is refused the other is refused
/// for the same reason. Each conversion has to answer by its arguments alone.
pub proof fn law_owned_pair_is_the_lent_pair<
    'a,
    T,
    P,
    G: Fn(T) -> T,
    Q: Fn(T) -> T,
    D: Fn(T, T) -> T,
    H: Fn(T, T, T) -> T,
    V: Fn(usize) -> T,
    C: Fn(T) -> T,
    I: Fn(T) -> T,
    J: Fn(T) -> T,
    K: Fn(T, T) -> T,
    L: Fn(T, T, T) -> T,
>(
    surface_file: OwnedFile<T>,
    levels: SurfaceLevels,
    layout: SurfaceGridLayout<T, P>,
    surface_rules: SurfaceRules<T, G, Q, D, H>,
    pressure_file: OwnedFile<T>,
    pressure_rules: PressureRules<V, C, I, J, K, L>,
    lent_surface: UnpackedFile<'a, T>,
    lent_pressure: UnpackedFile<'a, T>,
    owned: Result<(SurfaceFields<T, P>, PressureFields<T>), DecodeError>,
    lent: Result<(SurfaceFields<T, P>, PressureFields<T>), DecodeError>,
)
    requires
        surface_settled(surface_rules),
        crop_laws::settled(pressure_rules),
        surface_file.lends(lent_surface),
        pressure_file.lends(lent_pressure),
        thermo_pair::owned_pair_decoded(
            surface_file,
            levels,
            layout,
            surface_rules,
            pressure_file,
            pressure_rules,
            owned,
        ),
        thermo_pair::pair_decoded(
            lent_surface,
            levels,
            layout,
            surface_rules,
            lent_pressure,
            pressure_rules,
            lent,
        ),
    ensures
        same_pair(owned, lent),
{
    let (s, p) = choose|s: UnpackedFile<T>, p: UnpackedFile<T>|
        surface_file.lends(s) && pressure_file.lends(p) && #[trigger] thermo_pair::pair_decoded(
            s,
            levels,
            layout,
            surface_rules,
            p,
            pressure_rules,
            owned,
        );
    assert(s.surface_plan(levels) == lent_surface.surface_plan(levels));
    assert(p.pressure_plan(layout.nx, layout.ny) == lent_pressure.pressure_plan(
        layout.nx,
        layout.ny,
    ));
    assert(thermo_pair::pair_error(s, levels, layout.nx, layout.ny, p) == thermo_pair::pair_error(
        lent_surface,
        levels,
        layout.nx,
        layout.ny,
        lent_pressure,
    ));
    if owned is Ok && lent is Ok {
        let x = owned->Ok_0;
        let y = lent->Ok_0;
        law_surface_decodes_alike(
            s.surface_plan(levels)->Ok_0,
            s.planes@,
            layout,
            surface_rules,
            x.0,
            y.0,
        );
        law_pressure_decodes_alike(
            p.pressure_plan(layout.nx, layout.ny)->Ok_0,
            p.messages@,
            *p.table,
            p.planes@,
            layout.nx * layout.ny,
            pressure_rules,
            x.1,
            y.1,
        );
    }
}

/// The pressure analysis of a decoded pair fills the grid of its surface level by level,
/// and has no optional volume, whatever the conversions answer.
pub proof fn law_decoded_pair_fills_its_grid<
    'a,
    T,
    P,
    G: Fn(T) -> T,
    Q: Fn(T) -> T,
    D: Fn(T, T) -> T,
    H: Fn(T, T, T) -> T,
    V: Fn(usize) -> T,
    C: Fn(T) -> T,
    I: Fn(T) -> T,
    J: Fn(T) -> T,
    K: Fn(T, T) -> T,
    L: Fn(T, T, T) -> T,
>(
    surface_file: UnpackedFile<'a, T>,
    levels: SurfaceLevels,
    layout: SurfaceGridLayout<T, P>,
    surface_rules: SurfaceRules<T, G, Q, D, H>,
    pressure_file: UnpackedFile<'a, T>,
    pressure_rules: PressureRules<V, C, I, J, K, L>,
    surface: SurfaceFields<T, P>,
    pressure: PressureFields<T>,
)
    requires
        thermo_pair::pair_decoded(
            surface_file,
            levels,
            layout,
            surface_rules,
            pressure_file,
            pressure_rules,
            Ok::<(SurfaceFields<T, P>, PressureFields<T>), DecodeError>((surface, pressure)),
        ),
    ensures
        surface.nx == layout.nx,
        surface.ny == layout.ny,
        !domain::required_off_size(
            pressure,
            surface.nx * surface.ny * pressure.pressure_levels_hpa@.len(),
        ),
        nothing_optional(pressure),
{
    let plan = pressure_file.pressure_plan(layout.nx, layout.ny)->Ok_0;
    let cells = layout.nx * layout.ny;
    let (v, ov) = choose|volumes: DecodedRequiredVolumes<T>, optional: OptionalVolumes<T>|
        decode::gathered_by(volumes, plan, pressure_file.planes@, cells) && decode::sized(
            volumes,
            cells,
        ) && collect::are_optional_volumes(
            optional,
            false,
            pressure_file.messages@,
            *pressure_file.table,
            pressure_file.planes@,
            volumes.levels@,
            cells,
        ) && #[trigger] pressure_fields::analyses(
            volumes,
            optional,
            cells,
            pressure_rules,
            pressure,
        );
    assert(ov.omega_pa_s_3d is None);
}

} // verus!
