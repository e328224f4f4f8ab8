//! Pressure analyses from decoded volumes.
//!
//! The conversions of single values come as functions.
use crate::gridded::collect;
use crate::gridded::collect::{decode_pressure_file_with_shape_opts, OptionalVolumes};
use crate::gridded::crop::GridCrop;
use crate::gridded::cropped_decode;
use crate::gridded::cropped_decode::decode_pressure_cropped_with_shape;
use crate::gridded::decode;
use crate::gridded::decode::{DecodedRequiredVolumes, RequiredPlan};
use crate::gridded::fields::PressureFields;
use crate::gridded::records;
use crate::gridded::records::{GribRecord, LevelTable};
use crate::gridded::surface_decode;
use crate::gridded::surface_decode::convert_plane;
use crate::gridded::volumes;
use crate::gridded::volumes::{DecodeError, DecodeErrorView, HeightBranch, MoistureBranch};
use vstd::prelude::*;

verus! {

/// How values of messages become values of the analysis.
pub struct PressureRules<V, C, G, Q, D, H> {
    /// The pressure of a level, in hPa.
    pub level_hpa: V,
    /// A temperature in degrees Celsius from one in Kelvin.
    pub to_celsius: C,
    /// A height from geopotential.
    pub to_height: G,
    /// A mixing ratio from specific humidity.
    pub from_specific_humidity: Q,
    /// A mixing ratio from a pressure in hPa and dewpoint.
    pub from_dewpoint: D,
    /// A mixing ratio from a pressure in hPa, temperature and relative humidity.
    pub from_relative_humidity: H,
}

/// Whether the rules can be called on all values.
pub open spec fn convertible<
    T,
    V: Fn(usize) -> T,
    C: Fn(T) -> T,
    G: Fn(T) -> T,
    Q: Fn(T) -> T,
    D: Fn(T, T) -> T,
    H: Fn(T, T, T) -> T,
>(rules: PressureRules<V, C, G, Q, D, H>) -> bool {
    &&& forall|level: usize| #[trigger] call_requires(rules.level_hpa, (level,))
    &&& forall|a: T| #[trigger] call_requires(rules.to_celsius, (a,))
    &&& forall|a: T| #[trigger] call_requires(rules.to_height, (a,))
    &&& forall|a: T| #[trigger] call_requires(rules.from_specific_humidity, (a,))
    &&& forall|a: T, b: T| #[trigger] call_requires(rules.from_dewpoint, (a, b))
    &&& forall|a: T, b: T, c: T| #[trigger] call_requires(rules.from_relative_humidity, (a, b, c))
}

/// Whether values are the pressures of levels.
pub open spec fn are_pressures<T, V: Fn(usize) -> T>(
    levels: Seq<usize>,
    level_hpa: V,
    values: Seq<T>,
) -> bool {
    &&& values.len() == levels.len()
    &&& forall|k: int|
        0 <= k < levels.len() ==> call_ensures(level_hpa, (levels[k],), #[trigger] values[k])
}

/// Whether heights are had from the branch that was taken.
pub open spec fn are_heights<T, G: Fn(T) -> T>(
    branch: HeightBranch,
    before: Seq<T>,
    to_height: G,
    after: Seq<T>,
) -> bool {
    match branch {
        HeightBranch::Height => after == before,
        HeightBranch::Geopotential => surface_decode::converted(before, to_height, after),
    }
}

/// Whether mixing ratios are had from the branch that was taken. Dewpoints and
/// relative humidities are converted at the pressure of their own level.
pub open spec fn are_ratios<
    T,
    V: Fn(usize) -> T,
    C: Fn(T) -> T,
    G: Fn(T) -> T,
    Q: Fn(T) -> T,
    D: Fn(T, T) -> T,
    H: Fn(T, T, T) -> T,
>(
    volumes: DecodedRequiredVolumes<T>,
    cells: int,
    pressures: Seq<T>,
    rules: PressureRules<V, C, G, Q, D, H>,
    ratios: Seq<T>,
) -> bool {
    let moisture = volumes.moisture_3d@;
    let temperature = volumes.moisture_temperature_k_3d@;
    &&& ratios.len() == moisture.len()
    &&& are_pressures(volumes.moisture_levels@, rules.level_hpa, pressures)
    &&& forall|i: int|
        0 <= i < moisture.len() ==> match volumes.moisture_branch {
            MoistureBranch::SpecificHumidity => call_ensures(
                rules.from_specific_humidity,
                (moisture[i],),
                #[trigger] ratios[i],
            ),
            MoistureBranch::Dewpoint => call_ensures(
                rules.from_dewpoint,
                (pressures[i / cells], moisture[i]),
                ratios[i],
            ),
            MoistureBranch::RelativeHumidity => call_ensures(
                rules.from_relative_humidity,
                (pressures[i / cells], temperature[i], moisture[i]),
                ratios[i],
            ),
        }
}

/// Whether a pressure analysis is that of decoded volumes.
pub open spec fn analyses<
    T,
    V: Fn(usize) -> T,
    C: Fn(T) -> T,
    G: Fn(T) -> T,
    Q: Fn(T) -> T,
    D: Fn(T, T) -> T,
    H: Fn(T, T, T) -> T,
>(
    volumes: DecodedRequiredVolumes<T>,
    optional: OptionalVolumes<T>,
    cells: int,
    rules: PressureRules<V, C, G, Q, D, H>,
    fields: PressureFields<T>,
) -> bool {
    &&& are_pressures(volumes.levels@, rules.level_hpa, fields.pressure_levels_hpa@)
    &&& fields.pressure_3d_pa is None
    &&& surface_decode::converted(
        volumes.temperature_k_3d@,
        rules.to_celsius,
        fields.temperature_c_3d@,
    )
    &&& exists|pressures: Seq<T>|
        #[trigger] are_ratios(volumes, cells, pressures, rules, fields.qvapor_kgkg_3d@)
    &&& fields.u_ms_3d == volumes.u_ms_3d
    &&& fields.v_ms_3d == volumes.v_ms_3d
    &&& are_heights(
        volumes.height_branch,
        volumes.height_3d@,
        rules.to_height,
        fields.gh_m_3d@,
    )
    &&& fields.omega_pa_s_3d == optional.omega_pa_s_3d
    &&& fields.absolute_vorticity_s_3d == optional.absolute_vorticity_s_3d
    &&& fields.cloud_liquid_kgkg_3d == optional.cloud_liquid_kgkg_3d
    &&& fields.cloud_ice_kgkg_3d == optional.cloud_ice_kgkg_3d
    &&& fields.rain_kgkg_3d == optional.rain_kgkg_3d
    &&& fields.snow_kgkg_3d == optional.snow_kgkg_3d
    &&& fields.graupel_kgkg_3d == optional.graupel_kgkg_3d
}

fn list_pressures<T, V: Fn(usize) -> T>(levels: &[usize], level_hpa: &V) -> (values: Vec<T>)
    requires
        forall|level: usize| #[trigger] call_requires(*level_hpa, (level,)),
    ensures
        are_pressures(levels@, *level_hpa, values@),
{
    let mut values: Vec<T> = Vec::new();
    let mut k: usize = 0;
    while k < levels.len()
        invariant
            k <= levels@.len(),
            values@.len() == k,
            forall|level: usize| #[trigger] call_requires(*level_hpa, (level,)),
            forall|j: int|
                0 <= j < k ==> call_ensures(*level_hpa, (levels@[j],), #[trigger] values@[j]),
        decreases levels@.len() - k,
    {
        let value = level_hpa(levels[k]);
        values.push(value);
        k = k + 1;
    }
    values
}

fn convert_moisture<
    T: Copy,
    V: Fn(usize) -> T,
    C: Fn(T) -> T,
    G: Fn(T) -> T,
    Q: Fn(T) -> T,
    D: Fn(T, T) -> T,
    H: Fn(T, T, T) -> T,
>(
    volumes: &DecodedRequiredVolumes<T>,
    cells: usize,
    rules: &PressureRules<V, C, G, Q, D, H>,
) -> (ratios: Vec<T>)
    requires
        convertible(*rules),
        decode::sized(*volumes, cells as int),
    ensures
        exists|pressures: Seq<T>|
            #[trigger] are_ratios(*volumes, cells as int, pressures, *rules, ratios@),
{
    let pressures = list_pressures(volumes.moisture_levels.as_slice(), &rules.level_hpa);
    let mut ratios: Vec<T> = Vec::new();
    let mut i: usize = 0;
    let count: usize = volumes.moisture_3d.len();
    let levels: usize = volumes.moisture_levels.len();
    while i < count
        invariant
            i <= count,
            count == volumes.moisture_3d@.len(),
            levels == volumes.moisture_levels@.len(),
            pressures@.len() == levels,
            convertible(*rules),
            decode::sized(*volumes, cells as int),
            ratios@.len() == i,
            forall|j: int|
                0 <= j < i ==> match volumes.moisture_branch {
                    MoistureBranch::SpecificHumidity => call_ensures(
                        rules.from_specific_humidity,
                        (volumes.moisture_3d@[j],),
                        #[trigger] ratios@[j],
                    ),
                    MoistureBranch::Dewpoint => call_ensures(
                        rules.from_dewpoint,
                        (pressures@[j / (cells as int)], volumes.moisture_3d@[j]),
                        ratios@[j],
                    ),
                    MoistureBranch::RelativeHumidity => call_ensures(
                        rules.from_relative_humidity,
                        (
                            pressures@[j / (cells as int)],
                            volumes.moisture_temperature_k_3d@[j],
                            volumes.moisture_3d@[j],
                        ),
                        ratios@[j],
                    ),
                },
        decreases count - i,
    {
        proof {
            assert(cells > 0) by {
                if cells == 0 {
                    assert(levels * 0 == 0) by (nonlinear_arith);
                }
            }
            assert(i / cells < levels) by (nonlinear_arith)
                requires
                    0 <= i < levels * cells,
                    cells > 0,
            ;
        }
        let value = volumes.moisture_3d[i];
        let ratio = match volumes.moisture_branch {
            MoistureBranch::SpecificHumidity => (rules.from_specific_humidity)(value),
            MoistureBranch::Dewpoint => (rules.from_dewpoint)(pressures[i / cells], value),
            MoistureBranch::RelativeHumidity => (rules.from_relative_humidity)(
                pressures[i / cells],
                volumes.moisture_temperature_k_3d[i],
                value,
            ),
        };
        ratios.push(ratio);
        i = i + 1;
    }
    proof {
        assert(are_ratios(*volumes, cells as int, pressures@, *rules, ratios@));
    }
    ratios
}

/// Turns decoded volumes into a pressure analysis.
pub fn pressure_fields<
    T: Copy,
    V: Fn(usize) -> T,
    C: Fn(T) -> T,
    G: Fn(T) -> T,
    Q: Fn(T) -> T,
    D: Fn(T, T) -> T,
    H: Fn(T, T, T) -> T,
>(
    volumes: DecodedRequiredVolumes<T>,
    optional: OptionalVolumes<T>,
    cells: usize,
    rules: &PressureRules<V, C, G, Q, D, H>,
) -> (fields: PressureFields<T>)
    requires
        convertible(*rules),
        decode::sized(volumes, cells as int),
    ensures
        analyses(volumes, optional, cells as int, *rules, fields),
{
    let ghost given = volumes;
    let qvapor_kgkg_3d = convert_moisture(&volumes, cells, rules);
    let ghost pressures = choose|pressures: Seq<T>|
        #[trigger] are_ratios(given, cells as int, pressures, *rules, qvapor_kgkg_3d@);
    let gh_m_3d = match volumes.height_branch {
        HeightBranch::Height => volumes.height_3d,
        HeightBranch::Geopotential => convert_plane(
            volumes.height_3d.as_slice(),
            &rules.to_height,
        ),
    };
    let fields = PressureFields {
        pressure_levels_hpa: list_pressures(volumes.levels.as_slice(), &rules.level_hpa),
        pressure_3d_pa: None,
        temperature_c_3d: convert_plane(volumes.temperature_k_3d.as_slice(), &rules.to_celsius),
        qvapor_kgkg_3d,
        u_ms_3d: volumes.u_ms_3d,
        v_ms_3d: volumes.v_ms_3d,
        gh_m_3d,
        omega_pa_s_3d: optional.omega_pa_s_3d,
        absolute_vorticity_s_3d: optional.absolute_vorticity_s_3d,
        cloud_liquid_kgkg_3d: optional.cloud_liquid_kgkg_3d,
        cloud_ice_kgkg_3d: optional.cloud_ice_kgkg_3d,
        rain_kgkg_3d: optional.rain_kgkg_3d,
        snow_kgkg_3d: optional.snow_kgkg_3d,
        graupel_kgkg_3d: optional.graupel_kgkg_3d,
    };
    proof {
        assert(are_ratios(given, cells as int, pressures, *rules, fields.qvapor_kgkg_3d@));
    }
    fields
}

/// Whether a pressure analysis comes of the volumes that a plan gathers.
pub open spec fn planned_analysis<
    T,
    V: Fn(usize) -> T,
    C: Fn(T) -> T,
    G: Fn(T) -> T,
    Q: Fn(T) -> T,
    D: Fn(T, T) -> T,
    H: Fn(T, T, T) -> T,
>(
    plan: RequiredPlan,
    messages: Seq<GribRecord>,
    table: LevelTable,
    planes: Seq<Result<Vec<T>, String>>,
    want_optional: bool,
    cells: int,
    rules: PressureRules<V, C, G, Q, D, H>,
    fields: PressureFields<T>,
) -> bool {
    exists|volumes: DecodedRequiredVolumes<T>, optional: OptionalVolumes<T>|
        decode::gathered_by(volumes, plan, planes, cells) && decode::sized(volumes, cells)
            && collect::are_optional_volumes(
            optional,
            want_optional,
            messages,
            table,
            planes,
            volumes.levels@,
            cells,
        ) && #[trigger] analyses(volumes, optional, cells, rules, fields)
}

/// Decodes a pressure analysis from the messages of a file and the planes that
/// were unpacked of them. Returned beside it is the shape of its grid.
pub fn decode_pressure_with_shape_opts<
    T: Copy,
    V: Fn(usize) -> T,
    C: Fn(T) -> T,
    G: Fn(T) -> T,
    Q: Fn(T) -> T,
    D: Fn(T, T) -> T,
    H: Fn(T, T, T) -> T,
>(
    messages: &[GribRecord],
    table: &LevelTable,
    planes: &[Result<Vec<T>, String>],
    want_optional: bool,
    rules: &PressureRules<V, C, G, Q, D, H>,
) -> (decoded: Result<(PressureFields<T>, usize, usize), DecodeError>)
    requires
        table.wf(),
        table.consistent(),
        records::levels_known(messages@, *table),
        planes@.len() == messages@.len(),
        collect::pressure_shape(messages@) matches Ok((nx, ny)) ==> nx * ny <= usize::MAX,
        convertible(*rules),
    ensures
        match (collect::pressure_shape(messages@), decoded) {
            (Err(message), Err(error)) => error@ == DecodeErrorView::Message(message),
            (Err(_), Ok(_)) => false,
            (Ok((nx, ny)), decoded) => {
                let plan = decode::decode_plan(
                    messages@,
                    *table,
                    volumes::outcomes(planes@),
                    nx * ny,
                    decode::no_failures(),
                );
                match decoded {
                    Err(error) => plan == Err::<RequiredPlan, DecodeErrorView>(error@),
                    Ok((fields, shape_x, shape_y)) => {
                        &&& plan is Ok
                        &&& shape_x == nx
                        &&& shape_y == ny
                        &&& planned_analysis(
                            plan->Ok_0,
                            messages@,
                            *table,
                            planes@,
                            want_optional,
                            nx * ny,
                            *rules,
                            fields,
                        )
                    },
                }
            },
        },
{
    match decode_pressure_file_with_shape_opts(messages, table, planes, want_optional) {
        Ok(file) => {
            let cells: usize = file.nx * file.ny;
            let ghost required = file.required;
            let ghost optional = file.optional;
            let fields = pressure_fields(file.required, file.optional, cells, rules);
            proof {
                assert(analyses(required, optional, cells as int, *rules, fields));
            }
            Ok((fields, file.nx, file.ny))
        },
        Err(error) => Err(error),
    }
}

/// Decodes the part of a pressure analysis that a rectangle cuts out. The planes
/// are those of the rectangle.
pub fn decode_pressure_crop<
    T: Copy,
    V: Fn(usize) -> T,
    C: Fn(T) -> T,
    G: Fn(T) -> T,
    Q: Fn(T) -> T,
    D: Fn(T, T) -> T,
    H: Fn(T, T, T) -> T,
>(
    messages: &[GribRecord],
    table: &LevelTable,
    planes: &[Result<Vec<T>, String>],
    window: GridCrop,
    want_optional: bool,
    rules: &PressureRules<V, C, G, Q, D, H>,
) -> (decoded: Result<(PressureFields<T>, usize, usize), DecodeError>)
    requires
        table.wf(),
        table.consistent(),
        records::levels_known(messages@, *table),
        planes@.len() == messages@.len(),
        window.ordered(),
        window.cell_count() <= usize::MAX,
        convertible(*rules),
    ensures
        match (collect::pressure_shape(messages@), decoded) {
            (Err(message), Err(error)) => error@ == DecodeErrorView::Message(message),
            (Err(_), Ok(_)) => false,
            (Ok(_), decoded) => {
                let plan = cropped_decode::cropped_plan(
                    messages@,
                    *table,
                    volumes::outcomes(planes@),
                    window.cell_count(),
                );
                match decoded {
                    Err(error) => plan == Err::<RequiredPlan, DecodeErrorView>(error@),
                    Ok((fields, shape_x, shape_y)) => {
                        &&& plan is Ok
                        &&& shape_x == window.spec_width()
                        &&& shape_y == window.spec_height()
                        &&& planned_analysis(
                            plan->Ok_0,
                            messages@,
                            *table,
                            planes@,
                            want_optional,
                            window.cell_count(),
                            *rules,
                            fields,
                        )
                    },
                }
            },
        },
{
    match decode_pressure_cropped_with_shape(messages, table, planes, window, want_optional) {
        Ok(file) => {
            let cells: usize = file.nx * file.ny;
            let ghost required = file.required;
            let ghost optional = file.optional;
            let fields = pressure_fields(file.required, file.optional, cells, rules);
            proof {
                assert(analyses(required, optional, cells as int, *rules, fields));
            }
            Ok((fields, file.nx, file.ny))
        },
        Err(error) => Err(error),
    }
}

} // verus!
