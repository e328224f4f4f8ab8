//! Row wraps kept for the messages of one grid.
use crate::gridded::records::GribRecord;
use vstd::prelude::*;

verus! {

/// The definition of a grid. Coordinates and angles are held by their bits.
pub struct GridDefinition {
    pub template: u16,
    pub nx: u32,
    pub ny: u32,
    pub lat1: u64,
    pub lon1: u64,
    pub lat2: u64,
    pub lon2: u64,
    pub dx: u64,
    pub dy: u64,
    pub latin1: u64,
    pub latin2: u64,
    pub lov: u64,
    pub scan_mode: u8,
    pub lad: u64,
    pub projection_center_flag: u8,
    pub n_parallel: u32,
    pub south_pole_lat: u64,
    pub south_pole_lon: u64,
    pub rotation_angle: u64,
    pub satellite_lat: u64,
    pub satellite_lon: u64,
    pub xp: u64,
    pub yp: u64,
    pub altitude: u64,
    /// The number of points of each row of a reduced grid.
    pub pl: Vec<u32>,
    pub is_reduced: bool,
    pub num_data_points: u32,
    pub shape_of_earth: u8,
    pub resolution_flags: u8,
}

/// Whether two definitions are the same in every field.
pub open spec fn identical(a: GridDefinition, b: GridDefinition) -> bool {
    &&& a.template == b.template
    &&& a.nx == b.nx
    &&& a.ny == b.ny
    &&& a.lat1 == b.lat1
    &&& a.lon1 == b.lon1
    &&& a.lat2 == b.lat2
    &&& a.lon2 == b.lon2
    &&& a.dx == b.dx
    &&& a.dy == b.dy
    &&& a.latin1 == b.latin1
    &&& a.latin2 == b.latin2
    &&& a.lov == b.lov
    &&& a.scan_mode == b.scan_mode
    &&& a.lad == b.lad
    &&& a.projection_center_flag == b.projection_center_flag
    &&& a.n_parallel == b.n_parallel
    &&& a.south_pole_lat == b.south_pole_lat
    &&& a.south_pole_lon == b.south_pole_lon
    &&& a.rotation_angle == b.rotation_angle
    &&& a.satellite_lat == b.satellite_lat
    &&& a.satellite_lon == b.satellite_lon
    &&& a.xp == b.xp
    &&& a.yp == b.yp
    &&& a.altitude == b.altitude
    &&& a.pl@ == b.pl@
    &&& a.is_reduced == b.is_reduced
    &&& a.num_data_points == b.num_data_points
    &&& a.shape_of_earth == b.shape_of_earth
    &&& a.resolution_flags == b.resolution_flags
}

fn same_rows(a: &Vec<u32>, b: &Vec<u32>) -> (same: bool)
    ensures
        same == (a@ == b@),
{
    if a.len() != b.len() {
        return false;
    }
    let mut i: usize = 0;
    while i < a.len()
        invariant
            i <= a@.len(),
            a@.len() == b@.len(),
            forall|k: int| 0 <= k < i ==> a@[k] == b@[k],
        decreases a@.len() - i,
    {
        if a[i] != b[i] {
            return false;
        }
        i = i + 1;
    }
    proof {
        assert(a@ =~= b@);
    }
    true
}

/// Whether two definitions are the same in every field.
pub fn grid_definitions_identical(a: &GridDefinition, b: &GridDefinition) -> (same: bool)
    ensures
        same == identical(*a, *b),
{
    a.template == b.template && a.nx == b.nx && a.ny == b.ny && a.lat1 == b.lat1 && a.lon1 == b.lon1
        && a.lat2 == b.lat2 && a.lon2 == b.lon2 && a.dx == b.dx && a.dy == b.dy && a.latin1
        == b.latin1 && a.latin2 == b.latin2 && a.lov == b.lov && a.scan_mode == b.scan_mode && a.lad
        == b.lad && a.projection_center_flag == b.projection_center_flag && a.n_parallel
        == b.n_parallel && a.south_pole_lat == b.south_pole_lat && a.south_pole_lon
        == b.south_pole_lon && a.rotation_angle == b.rotation_angle && a.satellite_lat
        == b.satellite_lat && a.satellite_lon == b.satellite_lon && a.xp == b.xp && a.yp == b.yp
        && a.altitude == b.altitude && same_rows(&a.pl, &b.pl) && a.is_reduced == b.is_reduced
        && a.num_data_points == b.num_data_points && a.shape_of_earth == b.shape_of_earth
        && a.resolution_flags == b.resolution_flags
}

/// The row wraps of one grid, valid for every message on an identical grid.
pub struct RowWrapCache {
    pub definition: Option<GridDefinition>,
    pub wraps: Vec<usize>,
}

impl RowWrapCache {
    /// Whether the cache holds the wraps of a grid.
    pub open spec fn covers(self, grid: GridDefinition) -> bool {
        self.definition matches Some(held) && identical(held, grid)
    }

    /// A cache that holds nothing.
    pub fn new() -> (cache: Self)
        ensures
            cache.definition is None,
            cache.wraps@.len() == 0,
    {
        RowWrapCache { definition: None, wraps: Vec::new() }
    }

    /// Makes the cache hold the wraps of a grid. They are derived only where the
    /// cache does not hold them already.
    pub fn prime<D: Fn(&GridDefinition) -> Vec<usize>>(&mut self, grid: GridDefinition, derive: &D)
        requires
            call_requires(*derive, (&grid,)),
        ensures
            final(self).covers(grid),
            if old(self).covers(grid) {
                *final(self) == *old(self)
            } else {
                call_ensures(*derive, (&grid,), final(self).wraps) && final(self).definition
                    == Some(grid)
            },
    {
        if let Some(held) = &self.definition {
            if grid_definitions_identical(held, &grid) {
                return ;
            }
        }
        let wraps = derive(&grid);
        self.wraps = wraps;
        self.definition = Some(grid);
    }

    /// The wraps of a grid, where the cache holds them.
    pub fn get(&self, grid: &GridDefinition) -> (wraps: Option<&Vec<usize>>)
        ensures
            match wraps {
                Some(wraps) => self.covers(*grid) && *wraps == self.wraps,
                None => !self.covers(*grid),
            },
    {
        match &self.definition {
            Some(held) => if grid_definitions_identical(held, grid) {
                Some(&self.wraps)
            } else {
                None
            },
            None => None,
        }
    }
}

/// Being identical is an equivalence: wraps that are valid for one grid are
/// valid for every grid that is identical to it, and for no other.
pub proof fn law_identity_is_an_equivalence(
    a: GridDefinition,
    b: GridDefinition,
    c: GridDefinition,
)
    ensures
        identical(a, a),
        identical(a, b) ==> identical(b, a),
        identical(a, b) && identical(b, c) ==> identical(a, c),
{
}

/// Whether a message can take part in the decode of the volumes that are always
/// there: it lies on a pressure level and holds temperature, wind, height or
/// moisture in one of their forms.
pub open spec fn feeds_required_volumes(record: GribRecord) -> bool {
    &&& record.level_type == 100
    &&& record.discipline == 0
    &&& {
        ||| record.category == 0 && (record.number == 0 || record.number == 6)
        ||| record.category == 2 && (record.number == 2 || record.number == 3)
        ||| record.category == 3 && (record.number == 5 || record.number == 4)
        ||| record.category == 1 && (record.number == 0 || record.number == 1)
    }
}

/// Marks the messages whose packed values are kept once the optional volumes
/// have been decoded.
pub fn keep_required_records(records: &[GribRecord]) -> (kept: Vec<bool>)
    ensures
        kept@.len() == records@.len(),
        forall|i: int|
            0 <= i < records@.len() ==> #[trigger] kept@[i] == feeds_required_volumes(records@[i]),
{
    let mut kept: Vec<bool> = Vec::new();
    let mut i: usize = 0;
    while i < records.len()
        invariant
            i <= records@.len(),
            kept@.len() == i,
            forall|k: int| 0 <= k < i ==> #[trigger] kept@[k] == feeds_required_volumes(records@[k]),
        decreases records@.len() - i,
    {
        let record = &records[i];
        let (category, number) = (record.category, record.number);
        kept.push(
            record.level_type == 100 && record.discipline == 0 && ((category == 0 && (number == 0
                || number == 6)) || (category == 2 && (number == 2 || number == 3)) || (category
                == 3 && (number == 5 || number == 4)) || (category == 1 && (number == 0 || number
                == 1))),
        );
        i = i + 1;
    }
    kept
}

/// The message whose grid row wraps are taken from: the first on a pressure
/// level, or else the first of all.
pub open spec fn wrap_sample(records: Seq<GribRecord>, index: int) -> bool {
    &&& 0 <= index < records.len()
    &&& {
        ||| records[index].level_type == 100 && forall|k: int|
            0 <= k < index ==> (#[trigger] records[k]).level_type != 100
        ||| index == 0 && forall|k: int|
            0 <= k < records.len() ==> (#[trigger] records[k]).level_type != 100
    }
}

/// Picks the message whose grid row wraps are taken from.
pub fn row_wrap_sample(records: &[GribRecord]) -> (index: Result<usize, String>)
    ensures
        match index {
            Ok(index) => wrap_sample(records@, index as int),
            Err(message) => records@.len() == 0 && message@
                == "GRIB family had no messages for row-wrap detection"@,
        },
{
    let mut i: usize = 0;
    while i < records.len()
        invariant
            i <= records@.len(),
            forall|k: int| 0 <= k < i ==> (#[trigger] records@[k]).level_type != 100,
        decreases records@.len() - i,
    {
        if records[i].level_type == 100 {
            return Ok(i);
        }
        i = i + 1;
    }
    if records.len() > 0 {
        Ok(0)
    } else {
        Err("GRIB family had no messages for row-wrap detection".to_owned())
    }
}

} // verus!
