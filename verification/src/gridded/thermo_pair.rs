//! A surface and a pressure analysis that belong together.
use crate::gridded::collect;
use crate::gridded::decode;
use crate::gridded::decode::RequiredPlan;
use crate::gridded::domain;
use crate::gridded::domain::validate_store_thermo_pair;
use crate::gridded::fields::{PressureFields, SurfaceFields};
use crate::gridded::pressure_fields;
use crate::gridded::pressure_fields::{decode_pressure_with_shape_opts, PressureRules};
use crate::gridded::records;
use crate::gridded::records::{GribRecord, LevelTable};
use crate::gridded::surface;
use crate::gridded::surface::{SurfaceLevels, SurfacePlan};
use crate::gridded::surface_decode;
use crate::gridded::surface_decode::{decode_surface, SurfaceGridLayout, SurfaceRules};
use crate::gridded::volumes;
use crate::gridded::volumes::{DecodeError, DecodeErrorView};
use vstd::prelude::*;

verus! {

/// The messages of a file, their levels, and the planes that were unpacked of
/// them.
pub struct UnpackedFile<'a, T> {
    pub messages: &'a [GribRecord],
    pub table: &'a LevelTable,
    pub planes: &'a [Result<Vec<T>, String>],
}

impl<'a, T> UnpackedFile<'a, T> {
    /// Whether every message has a level and a plane.
    pub open spec fn sound(self) -> bool {
        &&& self.table.wf()
        &&& self.table.consistent()
        &&& records::levels_known(self.messages@, *self.table)
        &&& self.planes@.len() == self.messages@.len()
    }

    /// The plan of a surface analysis.
    pub open spec fn surface_plan(self, levels: SurfaceLevels) -> Result<SurfacePlan, Seq<char>> {
        surface::surface_plan(
            self.messages@,
            *self.table,
            volumes::outcomes(self.planes@),
            levels,
        )
    }

    /// The plan of a pressure analysis on `nx` by `ny` cells.
    pub open spec fn pressure_plan(self, nx: usize, ny: usize) -> Result<
        RequiredPlan,
        DecodeErrorView,
    > {
        decode::decode_plan(
            self.messages@,
            *self.table,
            volumes::outcomes(self.planes@),
            nx * ny,
            decode::no_failures(),
        )
    }
}

/// Why no pair of analyses can be decoded: the surface cannot, the pressure levels
/// cannot, or they are on another grid than the surface.
pub open spec fn pair_error<'a, T>(
    surface_file: UnpackedFile<'a, T>,
    levels: SurfaceLevels,
    surface_nx: usize,
    surface_ny: usize,
    pressure_file: UnpackedFile<'a, T>,
) -> Option<DecodeErrorView> {
    match surface_file.surface_plan(levels) {
        Err(message) => Some(DecodeErrorView::Message(message)),
        Ok(_) => match collect::pressure_shape(pressure_file.messages@) {
            Err(message) => Some(DecodeErrorView::Message(message)),
            Ok((nx, ny)) => match pressure_file.pressure_plan(nx, ny) {
                Err(error) => Some(error),
                Ok(_) => if nx != surface_nx || ny != surface_ny {
                    Some(
                        DecodeErrorView::Message(
                            domain::shape_mismatch(
                                nx as nat,
                                ny as nat,
                                surface_nx as nat,
                                surface_ny as nat,
                            ),
                        ),
                    )
                } else {
                    None
                },
            },
        },
    }
}

proof fn lemma_analysis_fills_its_grid<
    T,
    V: Fn(usize) -> T,
    C: Fn(T) -> T,
    I: Fn(T) -> T,
    J: Fn(T) -> T,
    K: Fn(T, T) -> T,
    L: Fn(T, T, T) -> T,
>(
    required: decode::DecodedRequiredVolumes<T>,
    optional: collect::OptionalVolumes<T>,
    cells: int,
    rules: PressureRules<V, C, I, J, K, L>,
    fields: PressureFields<T>,
)
    requires
        decode::sized(required, cells),
        pressure_fields::analyses(required, optional, cells, rules, fields),
    ensures
        !domain::required_off_size(fields, cells * fields.pressure_levels_hpa@.len()),
{
    assert(cells * required.levels@.len() == required.levels@.len() * cells) by (nonlinear_arith);
}

/// Whether a pair of analyses ends as decoded from two files.
pub open spec fn pair_decoded<
    'a,
    T,
    P,
    G: Fn(T) -> T,
    Q: Fn(T) -> T,
    D: Fn(T, T) -> T,
    H: Fn(T, T, T) -> T,
    V: Fn(usize) -> T,
    C: Fn(T) -> T,
    I: Fn(T) -> T,
    J: Fn(T) -> T,
    K: Fn(T, T) -> T,
    L: Fn(T, T, T) -> T,
>(
    surface_file: UnpackedFile<'a, T>,
    levels: SurfaceLevels,
    layout: SurfaceGridLayout<T, P>,
    surface_rules: SurfaceRules<T, G, Q, D, H>,
    pressure_file: UnpackedFile<'a, T>,
    pressure_rules: PressureRules<V, C, I, J, K, L>,
    pair: Result<(SurfaceFields<T, P>, PressureFields<T>), DecodeError>,
) -> bool {
    match pair {
        Ok((surface_fields, pressure)) => {
            &&& pair_error(surface_file, levels, layout.nx, layout.ny, pressure_file) is None
            &&& surface_decode::decodes(
                surface_file.surface_plan(levels)->Ok_0,
                surface_file.planes@,
                layout,
                surface_rules,
                surface_fields,
            )
            &&& pressure_fields::planned_analysis(
                pressure_file.pressure_plan(layout.nx, layout.ny)->Ok_0,
                pressure_file.messages@,
                *pressure_file.table,
                pressure_file.planes@,
                false,
                layout.nx * layout.ny,
                pressure_rules,
                pressure,
            )
            &&& !domain::required_off_size(
                pressure,
                layout.nx * layout.ny * pressure.pressure_levels_hpa@.len(),
            )
        },
        Err(error) => pair_error(
            surface_file,
            levels,
            layout.nx,
            layout.ny,
            pressure_file,
        ) == Some(error@),
    }
}

/// Decodes a surface and a pressure analysis that the store is computed from. The
/// optional volumes are left out.
pub fn decode_store_thermo_pair<
    'a,
    T: Copy,
    P,
    G: Fn(T) -> T,
    Q: Fn(T) -> T,
    D: Fn(T, T) -> T,
    H: Fn(T, T, T) -> T,
    V: Fn(usize) -> T,
    C: Fn(T) -> T,
    I: Fn(T) -> T,
    J: Fn(T) -> T,
    K: Fn(T, T) -> T,
    L: Fn(T, T, T) -> T,
>(
    surface_file: UnpackedFile<'a, T>,
    levels: SurfaceLevels,
    layout: SurfaceGridLayout<T, P>,
    surface_rules: &SurfaceRules<T, G, Q, D, H>,
    pressure_file: UnpackedFile<'a, T>,
    pressure_rules: &PressureRules<V, C, I, J, K, L>,
) -> (pair: Result<(SurfaceFields<T, P>, PressureFields<T>), DecodeError>)
    requires
        surface_file.sound(),
        pressure_file.sound(),
        levels.known(*surface_file.table),
        layout.nx * layout.ny <= usize::MAX,
        collect::pressure_shape(pressure_file.messages@) matches Ok((nx, ny)) ==> nx * ny
            <= usize::MAX,
        surface_decode::convertible(*surface_rules),
        pressure_fields::convertible(*pressure_rules),
    ensures
        pair_decoded(
            surface_file,
            levels,
            layout,
            *surface_rules,
            pressure_file,
            *pressure_rules,
            pair,
        ),
{
    let surface_fields = match decode_surface(
        surface_file.messages,
        surface_file.table,
        surface_file.planes,
        levels,
        layout,
        surface_rules,
    ) {
        Ok(fields) => fields,
        Err(message) => {
            return Err(DecodeError::Message(message));
        },
    };
    let (pressure, nx, ny) = match decode_pressure_with_shape_opts(
        pressure_file.messages,
        pressure_file.table,
        pressure_file.planes,
        false,
        pressure_rules,
    ) {
        Ok(decoded) => decoded,
        Err(error) => {
            return Err(error);
        },
    };
    proof {
        assert(pressure.temperature_c_3d.len() <= usize::MAX);
        let plan = pressure_file.pressure_plan(nx, ny)->Ok_0;
        let (required, optional) = choose|
            required: decode::DecodedRequiredVolumes<T>,
            optional: collect::OptionalVolumes<T>,
        |
            decode::gathered_by(required, plan, pressure_file.planes@, nx * ny) && decode::sized(
                required,
                nx * ny,
            ) && collect::are_optional_volumes(
                optional,
                false,
                pressure_file.messages@,
                *pressure_file.table,
                pressure_file.planes@,
                required.levels@,
                nx * ny,
            ) && #[trigger] pressure_fields::analyses(
                required,
                optional,
                nx * ny,
                *pressure_rules,
                pressure,
            );
        lemma_analysis_fills_its_grid(required, optional, nx * ny, *pressure_rules, pressure);
        assert(!domain::required_off_size(pressure, nx * ny * pressure.pressure_levels_hpa@.len()));
    }
    match validate_store_thermo_pair(&surface_fields, &pressure, nx, ny) {
        Ok(_) => Ok((surface_fields, pressure)),
        Err(message) => Err(DecodeError::Message(message)),
    }
}

/// The messages of a file, their levels, and the planes that were unpacked of them, to
/// be given up once they are decoded.
pub struct OwnedFile<T> {
    pub messages: Vec<GribRecord>,
    pub table: LevelTable,
    pub planes: Vec<Result<Vec<T>, String>>,
}

impl<T> OwnedFile<T> {
    /// Whether every message has a level and a plane.
    pub open spec fn sound(self) -> bool {
        &&& self.table.wf()
        &&& self.table.consistent()
        &&& records::levels_known(self.messages@, self.table)
        &&& self.planes@.len() == self.messages@.len()
    }

    /// Whether a file is this one, lent out.
    pub open spec fn lends<'a>(self, file: UnpackedFile<'a, T>) -> bool {
        &&& file.messages@ == self.messages@
        &&& *file.table == self.table
        &&& file.planes@ == self.planes@
    }
}

/// Whether a pair of analyses ends as decoded from two files that are given up: as from
/// the files lent out.
pub open spec fn owned_pair_decoded<
    T,
    P,
    G: Fn(T) -> T,
    Q: Fn(T) -> T,
    D: Fn(T, T) -> T,
    H: Fn(T, T, T) -> T,
    V: Fn(usize) -> T,
    C: Fn(T) -> T,
    I: Fn(T) -> T,
    J: Fn(T) -> T,
    K: Fn(T, T) -> T,
    L: Fn(T, T, T) -> T,
>(
    surface_file: OwnedFile<T>,
    levels: SurfaceLevels,
    layout: SurfaceGridLayout<T, P>,
    surface_rules: SurfaceRules<T, G, Q, D, H>,
    pressure_file: OwnedFile<T>,
    pressure_rules: PressureRules<V, C, I, J, K, L>,
    pair: Result<(SurfaceFields<T, P>, PressureFields<T>), DecodeError>,
) -> bool {
    exists|s: UnpackedFile<T>, p: UnpackedFile<T>|
        surface_file.lends(s) && pressure_file.lends(p) && #[trigger] pair_decoded(
            s,
            levels,
            layout,
            surface_rules,
            p,
            pressure_rules,
            pair,
        )
}

/// Decodes a surface and a pressure analysis that the store is computed from, and gives
/// the files up: what comes out is what the files lent out would give.
pub fn decode_store_thermo_pair_owned<
    T: Copy,
    P,
    G: Fn(T) -> T,
    Q: Fn(T) -> T,
    D: Fn(T, T) -> T,
    H: Fn(T, T, T) -> T,
    V: Fn(usize) -> T,
    C: Fn(T) -> T,
    I: Fn(T) -> T,
    J: Fn(T) -> T,
    K: Fn(T, T) -> T,
    L: Fn(T, T, T) -> T,
>(
    surface_file: OwnedFile<T>,
    levels: SurfaceLevels,
    layout: SurfaceGridLayout<T, P>,
    surface_rules: &SurfaceRules<T, G, Q, D, H>,
    pressure_file: OwnedFile<T>,
    pressure_rules: &PressureRules<V, C, I, J, K, L>,
) -> (pair: Result<(SurfaceFields<T, P>, PressureFields<T>), DecodeError>)
    requires
        surface_file.sound(),
        pressure_file.sound(),
        levels.known(surface_file.table),
        layout.nx * layout.ny <= usize::MAX,
        collect::pressure_shape(pressure_file.messages@) matches Ok((nx, ny)) ==> nx * ny
            <= usize::MAX,
        surface_decode::convertible(*surface_rules),
        pressure_fields::convertible(*pressure_rules),
    ensures
        owned_pair_decoded(
            surface_file,
            levels,
            layout,
            *surface_rules,
            pressure_file,
            *pressure_rules,
            pair,
        ),
{
    let lent_surface = UnpackedFile {
        messages: surface_file.messages.as_slice(),
        table: &surface_file.table,
        planes: surface_file.planes.as_slice(),
    };
    let lent_pressure = UnpackedFile {
        messages: pressure_file.messages.as_slice(),
        table: &pressure_file.table,
        planes: pressure_file.planes.as_slice(),
    };
    let ghost s = lent_surface;
    let ghost p = lent_pressure;
    let pair = decode_store_thermo_pair(
        lent_surface,
        levels,
        layout,
        surface_rules,
        lent_pressure,
        pressure_rules,
    );
    proof {
        assert(surface_file.lends(s) && pressure_file.lends(p));
        assert(pair_decoded(s, levels, layout, *surface_rules, p, *pressure_rules, pair));
    }
    pair
}

} // verus!
