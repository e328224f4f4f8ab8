//! Which messages of a surface file give the fields of a surface analysis.
use crate::gridded::records;
use crate::gridded::records::{message_holds, FieldId, GribRecord, LevelTable};
use crate::gridded::volumes;
use vstd::prelude::*;
use vstd::string::*;

verus! {

/// A kind of field, at a level if one is given.
#[derive(Debug, Clone, Copy, PartialEq, Eq, Structural)]
pub struct Candidate {
    pub id: FieldId,
    /// The place of the level in the level table.
    pub level: Option<usize>,
}

/// The places of the levels that a surface decode asks for.
#[derive(Debug, Clone, Copy, PartialEq, Eq, Structural)]
pub struct SurfaceLevels {
    /// The surface itself.
    pub surface: usize,
    /// Two metres above the ground.
    pub two_metres: usize,
    /// Ten metres above the ground.
    pub ten_metres: usize,
    /// The top of the mixed layer, 9000 Pa above the ground.
    pub mixed_layer: usize,
    /// The top of the most-unstable search, 25500 Pa above the ground.
    pub most_unstable: usize,
}

impl SurfaceLevels {
    /// Whether all levels are in the table.
    pub open spec fn known(self, table: LevelTable) -> bool {
        &&& self.surface < table.count()
        &&& self.two_metres < table.count()
        &&& self.ten_metres < table.count()
        &&& self.mixed_layer < table.count()
        &&& self.most_unstable < table.count()
    }
}

/// The parcel that a native CAPE field is for.
#[derive(Debug, Clone, Copy, PartialEq, Eq, Structural)]
pub enum NativeCapeLayer {
    Surface,
    MixedLayer,
    MostUnstable,
}

/// Whether a message is what a candidate asks for.
pub open spec fn suits(message: GribRecord, table: LevelTable, candidate: Candidate) -> bool {
    records::holds_field(message, candidate.id) && (candidate.level matches Some(level)
        ==> table.counts_as(message.level as int, level as int))
}

/// The first message, from `m` on, that is what a candidate asks for.
pub open spec fn first_suiting(
    messages: Seq<GribRecord>,
    table: LevelTable,
    candidate: Candidate,
    m: int,
) -> Option<int>
    decreases messages.len() - m,
{
    if m >= messages.len() {
        None
    } else if suits(messages[m], table, candidate) {
        Some(m)
    } else {
        first_suiting(messages, table, candidate, m + 1)
    }
}

/// The first message for the first candidate that there is a message for.
pub open spec fn found(
    messages: Seq<GribRecord>,
    table: LevelTable,
    candidates: Seq<Candidate>,
) -> Option<int>
    decreases candidates.len(),
{
    if candidates.len() == 0 {
        None
    } else {
        match first_suiting(messages, table, candidates[0], 0) {
            Some(m) => Some(m),
            None => found(messages, table, candidates.drop_first()),
        }
    }
}

/// Whether the levels of all candidates are in the table.
pub open spec fn candidates_known(candidates: Seq<Candidate>, table: LevelTable) -> bool {
    forall|c: int|
        0 <= c < candidates.len() ==> ((#[trigger] candidates[c]).level matches Some(level)
            ==> level < table.count())
}

fn find_suiting(messages: &[GribRecord], table: &LevelTable, candidate: Candidate) -> (at: Option<
    usize,
>)
    requires
        table.wf(),
        records::levels_known(messages@, *table),
        candidate.level matches Some(level) ==> level < table.count(),
    ensures
        match at {
            Some(m) => m < messages@.len() && first_suiting(messages@, *table, candidate, 0)
                == Some(m as int),
            None => first_suiting(messages@, *table, candidate, 0) is None,
        },
{
    let mut m: usize = 0;
    while m < messages.len()
        invariant
            m <= messages@.len(),
            table.wf(),
            records::levels_known(messages@, *table),
            candidate.level matches Some(level) ==> level < table.count(),
            first_suiting(messages@, *table, candidate, 0) == first_suiting(
                messages@,
                *table,
                candidate,
                m as int,
            ),
        decreases messages.len() - m,
    {
        assert(messages@[m as int].level < table.count());
        let at_level = match candidate.level {
            Some(level) => table.is_near(messages[m].level, level),
            None => true,
        };
        if message_holds(&messages[m], candidate.id) && at_level {
            return Some(m);
        }
        m += 1;
    }
    None
}

/// The first message for the first candidate that there is a message for.
pub fn find_optional_message(
    messages: &[GribRecord],
    table: &LevelTable,
    candidates: &[Candidate],
) -> (at: Option<usize>)
    requires
        table.wf(),
        records::levels_known(messages@, *table),
        candidates_known(candidates@, *table),
    ensures
        match at {
            Some(m) => m < messages@.len() && found(messages@, *table, candidates@) == Some(
                m as int,
            ),
            None => found(messages@, *table, candidates@) is None,
        },
{
    let mut c: usize = 0;
    assert(candidates@.skip(0) =~= candidates@);
    while c < candidates.len()
        invariant
            c <= candidates@.len(),
            table.wf(),
            records::levels_known(messages@, *table),
            candidates_known(candidates@, *table),
            found(messages@, *table, candidates@) == found(
                messages@,
                *table,
                candidates@.skip(c as int),
            ),
        decreases candidates.len() - c,
    {
        assert(candidates@.skip(c as int)[0] == candidates@[c as int]);
        assert(candidates@.skip(c as int).drop_first() =~= candidates@.skip(c + 1));
        match find_suiting(messages, table, candidates[c]) {
            Some(m) => {
                return Some(m);
            },
            None => {},
        }
        c += 1;
    }
    None
}

/// The first message for the first candidate that there is a message for, or an
/// error if there is none.
pub fn find_message(
    messages: &[GribRecord],
    table: &LevelTable,
    candidates: &[Candidate],
) -> (at: Result<usize, String>)
    requires
        table.wf(),
        records::levels_known(messages@, *table),
        candidates_known(candidates@, *table),
    ensures
        match at {
            Ok(m) => m < messages@.len() && found(messages@, *table, candidates@) == Some(
                m as int,
            ),
            Err(message) => found(messages@, *table, candidates@) is None && message@
                == "missing GRIB message for requested candidates"@,
        },
{
    match find_optional_message(messages, table, candidates) {
        Some(m) => Ok(m),
        None => Err("missing GRIB message for requested candidates".to_owned()),
    }
}

pub open spec fn field(category: u8, number: u8, level_type: u8, level: Option<usize>) -> Candidate {
    Candidate { id: FieldId { discipline: 0, category, number, level_type }, level }
}

fn make_field(category: u8, number: u8, level_type: u8, level: Option<usize>) -> (candidate:
    Candidate)
    ensures
        candidate == field(category, number, level_type, level),
{
    Candidate { id: FieldId { discipline: 0, category, number, level_type }, level }
}

/// At the surface, or anywhere on that type of level.
pub open spec fn at_surface(category: u8, number: u8, levels: SurfaceLevels) -> Seq<Candidate> {
    seq![field(category, number, 1, Some(levels.surface)), field(category, number, 1, None)]
}

fn make_at_surface(category: u8, number: u8, levels: SurfaceLevels) -> (candidates: Vec<Candidate>)
    ensures
        candidates@ == at_surface(category, number, levels),
{
    let candidates = vec![
        make_field(category, number, 1, Some(levels.surface)),
        make_field(category, number, 1, None),
    ];
    assert(candidates@ =~= at_surface(category, number, levels));
    candidates
}

/// At a height above the ground.
pub open spec fn above_ground(category: u8, number: u8, level: usize) -> Seq<Candidate> {
    seq![field(category, number, 103, Some(level))]
}

fn make_above_ground(category: u8, number: u8, level: usize) -> (candidates: Vec<Candidate>)
    ensures
        candidates@ == above_ground(category, number, level),
{
    let candidates = vec![make_field(category, number, 103, Some(level))];
    assert(candidates@ =~= above_ground(category, number, level));
    candidates
}

/// What is asked for to get the native CAPE of a parcel.
pub open spec fn cape_candidates(layer: NativeCapeLayer, levels: SurfaceLevels) -> Seq<Candidate> {
    match layer {
        NativeCapeLayer::Surface => seq![field(7, 6, 1, Some(levels.surface))],
        NativeCapeLayer::MixedLayer => seq![field(7, 6, 108, Some(levels.mixed_layer))],
        NativeCapeLayer::MostUnstable => seq![field(7, 6, 108, Some(levels.most_unstable))],
    }
}

fn make_cape_candidates(layer: NativeCapeLayer, levels: SurfaceLevels) -> (candidates: Vec<
    Candidate,
>)
    ensures
        candidates@ == cape_candidates(layer, levels),
{
    let candidates = match layer {
        NativeCapeLayer::Surface => vec![make_field(7, 6, 1, Some(levels.surface))],
        NativeCapeLayer::MixedLayer => vec![make_field(7, 6, 108, Some(levels.mixed_layer))],
        NativeCapeLayer::MostUnstable => vec![make_field(7, 6, 108, Some(levels.most_unstable))],
    };
    assert(candidates@ =~= cape_candidates(layer, levels));
    candidates
}

/// What is asked for to get the native boundary-layer height.
pub open spec fn pblh_candidates(levels: SurfaceLevels) -> Seq<Candidate> {
    seq![
        field(3, 18, 1, Some(levels.surface)),
        field(3, 18, 1, None),
        field(3, 196, 1, Some(levels.surface)),
        field(3, 196, 1, None),
    ]
}

fn make_pblh_candidates(levels: SurfaceLevels) -> (candidates: Vec<Candidate>)
    ensures
        candidates@ == pblh_candidates(levels),
{
    let candidates = vec![
        make_field(3, 18, 1, Some(levels.surface)),
        make_field(3, 18, 1, None),
        make_field(3, 196, 1, Some(levels.surface)),
        make_field(3, 196, 1, None),
    ];
    assert(candidates@ =~= pblh_candidates(levels));
    candidates
}

/// A message that has to be there and to be unpacked.
pub open spec fn required(
    messages: Seq<GribRecord>,
    table: LevelTable,
    planes: Seq<Result<nat, Seq<char>>>,
    candidates: Seq<Candidate>,
) -> Result<int, Seq<char>> {
    match found(messages, table, candidates) {
        None => Err("missing GRIB message for requested candidates"@),
        Some(m) => match planes[m] {
            Ok(_) => Ok(m),
            Err(message) => Err(message),
        },
    }
}

/// A message that may be absent, but has to be unpacked if it is there.
pub open spec fn optional(
    messages: Seq<GribRecord>,
    table: LevelTable,
    planes: Seq<Result<nat, Seq<char>>>,
    candidates: Seq<Candidate>,
) -> Result<Option<int>, Seq<char>> {
    match found(messages, table, candidates) {
        None => Ok(None),
        Some(m) => match planes[m] {
            Ok(_) => Ok(Some(m)),
            Err(message) => Err(message),
        },
    }
}

/// Where the orography of a surface comes from.
#[derive(Debug, Clone, Copy, PartialEq, Eq, Structural)]
pub enum OrographySource {
    /// A height in metres.
    Height(usize),
    /// Geopotential, to be divided by gravity.
    Geopotential(usize),
    /// None: zeros stand in for it.
    Proxy,
}

/// Where the two-metre moisture of a surface comes from.
#[derive(Debug, Clone, Copy, PartialEq, Eq, Structural)]
pub enum MoistureSource {
    SpecificHumidity(usize),
    Dewpoint(usize),
    RelativeHumidity(usize),
}

/// The orography of a surface: the height if there is a message for it, else
/// geopotential; a proxy if there is neither, or the message was not unpacked.
pub open spec fn orography_source(
    messages: Seq<GribRecord>,
    table: LevelTable,
    planes: Seq<Result<nat, Seq<char>>>,
    levels: SurfaceLevels,
) -> OrographySource {
    match (
        found(messages, table, at_surface(3, 5, levels)),
        found(messages, table, at_surface(3, 4, levels)),
    ) {
        (Some(m), _) => if planes[m] is Ok {
            OrographySource::Height(m as usize)
        } else {
            OrographySource::Proxy
        },
        (None, Some(m)) => if planes[m] is Ok {
            OrographySource::Geopotential(m as usize)
        } else {
            OrographySource::Proxy
        },
        (None, None) => OrographySource::Proxy,
    }
}

/// The two-metre moisture of a surface: the first of specific humidity, dewpoint
/// and relative humidity that there is a message for.
pub open spec fn moisture_source(
    messages: Seq<GribRecord>,
    table: LevelTable,
    planes: Seq<Result<nat, Seq<char>>>,
    levels: SurfaceLevels,
) -> Result<MoistureSource, Seq<char>> {
    match (
        found(messages, table, above_ground(1, 0, levels.two_metres)),
        found(messages, table, above_ground(0, 6, levels.two_metres)),
        found(messages, table, above_ground(1, 1, levels.two_metres)),
    ) {
        (Some(m), _, _) => match planes[m] {
            Ok(_) => Ok(MoistureSource::SpecificHumidity(m as usize)),
            Err(message) => Err(message),
        },
        (None, Some(m), _) => match planes[m] {
            Ok(_) => Ok(MoistureSource::Dewpoint(m as usize)),
            Err(message) => Err(message),
        },
        (None, None, Some(m)) => match planes[m] {
            Ok(_) => Ok(MoistureSource::RelativeHumidity(m as usize)),
            Err(message) => Err(message),
        },
        (None, None, None) => Err(
            "missing 2m specific humidity/dewpoint/RH field for surface thermodynamics"@,
        ),
    }
}

/// Which message gives each field of a surface analysis.
#[derive(Debug, Clone, Copy, PartialEq, Eq, Structural)]
pub struct SurfacePlan {
    pub psfc: usize,
    pub orography: OrographySource,
    pub t2: usize,
    pub moisture: MoistureSource,
    pub u10: usize,
    pub v10: usize,
    pub native_cape: NativeCapePlan,
    pub native_pblh: Option<usize>,
}

/// Which message gives each native CAPE field, as far as there are any.
#[derive(Debug, Clone, Copy, PartialEq, Eq, Structural)]
pub struct NativeCapePlan {
    pub surface_based: Option<usize>,
    pub mixed_layer: Option<usize>,
    pub most_unstable: Option<usize>,
}

pub open spec fn as_index(m: Option<int>) -> Option<usize> {
    match m {
        Some(m) => Some(m as usize),
        None => None,
    }
}

/// The native CAPE messages of a file, or the error of the first that was not
/// unpacked.
pub open spec fn native_cape_plan(
    messages: Seq<GribRecord>,
    table: LevelTable,
    planes: Seq<Result<nat, Seq<char>>>,
    levels: SurfaceLevels,
) -> Result<NativeCapePlan, Seq<char>> {
    match (
        optional(messages, table, planes, cape_candidates(NativeCapeLayer::Surface, levels)),
        optional(messages, table, planes, cape_candidates(NativeCapeLayer::MixedLayer, levels)),
        optional(messages, table, planes, cape_candidates(NativeCapeLayer::MostUnstable, levels)),
    ) {
        (Err(message), _, _) => Err(message),
        (Ok(_), Err(message), _) => Err(message),
        (Ok(_), Ok(_), Err(message)) => Err(message),
        (Ok(sb), Ok(ml), Ok(mu)) => Ok(
            NativeCapePlan {
                surface_based: as_index(sb),
                mixed_layer: as_index(ml),
                most_unstable: as_index(mu),
            },
        ),
    }
}

/// The messages of a surface analysis, or why it cannot be decoded.
pub open spec fn surface_plan(
    messages: Seq<GribRecord>,
    table: LevelTable,
    planes: Seq<Result<nat, Seq<char>>>,
    levels: SurfaceLevels,
) -> Result<SurfacePlan, Seq<char>> {
    let psfc = required(messages, table, planes, at_surface(3, 0, levels));
    let t2 = required(messages, table, planes, above_ground(0, 0, levels.two_metres));
    let moisture = moisture_source(messages, table, planes, levels);
    let u10 = required(messages, table, planes, above_ground(2, 2, levels.ten_metres));
    let v10 = required(messages, table, planes, above_ground(2, 3, levels.ten_metres));
    let native_cape = native_cape_plan(messages, table, planes, levels);
    let pblh = optional(messages, table, planes, pblh_candidates(levels));
    if messages.len() == 0 {
        Err("surface family GRIB had no messages"@)
    } else if psfc is Err {
        Err(psfc->Err_0)
    } else if t2 is Err {
        Err(t2->Err_0)
    } else if moisture is Err {
        Err(moisture->Err_0)
    } else if u10 is Err {
        Err(u10->Err_0)
    } else if v10 is Err {
        Err(v10->Err_0)
    } else if native_cape is Err {
        Err(native_cape->Err_0)
    } else if pblh is Err {
        Err(pblh->Err_0)
    } else {
        Ok(
            SurfacePlan {
                psfc: psfc->Ok_0 as usize,
                orography: orography_source(messages, table, planes, levels),
                t2: t2->Ok_0 as usize,
                moisture: moisture->Ok_0,
                u10: u10->Ok_0 as usize,
                v10: v10->Ok_0 as usize,
                native_cape: native_cape->Ok_0,
                native_pblh: as_index(pblh->Ok_0),
            },
        )
    }
}

fn find_required<T>(
    messages: &[GribRecord],
    table: &LevelTable,
    planes: &[Result<Vec<T>, String>],
    candidates: &[Candidate],
) -> (at: Result<usize, String>)
    requires
        table.wf(),
        records::levels_known(messages@, *table),
        candidates_known(candidates@, *table),
        planes@.len() == messages@.len(),
    ensures
        match at {
            Ok(m) => required(messages@, *table, volumes::outcomes(planes@), candidates@) == Ok::<
                int,
                Seq<char>,
            >(m as int),
            Err(message) => required(messages@, *table, volumes::outcomes(planes@), candidates@)
                == Err::<int, Seq<char>>(message@),
        },
{
    match find_message(messages, table, candidates) {
        Err(message) => Err(message),
        Ok(m) => match &planes[m] {
            Ok(_) => Ok(m),
            Err(message) => Err(message.clone()),
        },
    }
}

fn find_optional<T>(
    messages: &[GribRecord],
    table: &LevelTable,
    planes: &[Result<Vec<T>, String>],
    candidates: &[Candidate],
) -> (at: Result<Option<usize>, String>)
    requires
        table.wf(),
        records::levels_known(messages@, *table),
        candidates_known(candidates@, *table),
        planes@.len() == messages@.len(),
    ensures
        match at {
            Ok(m) => {
                let wanted = optional(messages@, *table, volumes::outcomes(planes@), candidates@);
                wanted is Ok && as_index(wanted->Ok_0) == m
            },
            Err(message) => optional(messages@, *table, volumes::outcomes(planes@), candidates@)
                == Err::<Option<int>, Seq<char>>(message@),
        },
{
    match find_optional_message(messages, table, candidates) {
        None => Ok(None),
        Some(m) => match &planes[m] {
            Ok(_) => Ok(Some(m)),
            Err(message) => Err(message.clone()),
        },
    }
}

fn find_orography<T>(
    messages: &[GribRecord],
    table: &LevelTable,
    planes: &[Result<Vec<T>, String>],
    levels: SurfaceLevels,
) -> (source: OrographySource)
    requires
        table.wf(),
        records::levels_known(messages@, *table),
        levels.known(*table),
        planes@.len() == messages@.len(),
    ensures
        source == orography_source(messages@, *table, volumes::outcomes(planes@), levels),
{
    let height = make_at_surface(3, 5, levels);
    match find_optional_message(messages, table, height.as_slice()) {
        Some(m) => {
            return match &planes[m] {
                Ok(_) => OrographySource::Height(m),
                Err(_) => OrographySource::Proxy,
            };
        },
        None => {},
    }
    let geopotential = make_at_surface(3, 4, levels);
    match find_optional_message(messages, table, geopotential.as_slice()) {
        Some(m) => match &planes[m] {
            Ok(_) => OrographySource::Geopotential(m),
            Err(_) => OrographySource::Proxy,
        },
        None => OrographySource::Proxy,
    }
}

fn find_moisture<T>(
    messages: &[GribRecord],
    table: &LevelTable,
    planes: &[Result<Vec<T>, String>],
    levels: SurfaceLevels,
) -> (source: Result<MoistureSource, String>)
    requires
        table.wf(),
        records::levels_known(messages@, *table),
        levels.known(*table),
        planes@.len() == messages@.len(),
    ensures
        match source {
            Ok(source) => moisture_source(messages@, *table, volumes::outcomes(planes@), levels)
                == Ok::<MoistureSource, Seq<char>>(source),
            Err(message) => moisture_source(messages@, *table, volumes::outcomes(planes@), levels)
                == Err::<MoistureSource, Seq<char>>(message@),
        },
{
    let q = make_above_ground(1, 0, levels.two_metres);
    match find_optional_message(messages, table, q.as_slice()) {
        Some(m) => {
            return match &planes[m] {
                Ok(_) => Ok(MoistureSource::SpecificHumidity(m)),
                Err(message) => Err(message.clone()),
            };
        },
        None => {},
    }
    let dewpoint = make_above_ground(0, 6, levels.two_metres);
    match find_optional_message(messages, table, dewpoint.as_slice()) {
        Some(m) => {
            return match &planes[m] {
                Ok(_) => Ok(MoistureSource::Dewpoint(m)),
                Err(message) => Err(message.clone()),
            };
        },
        None => {},
    }
    let rh = make_above_ground(1, 1, levels.two_metres);
    match find_optional_message(messages, table, rh.as_slice()) {
        Some(m) => match &planes[m] {
            Ok(_) => Ok(MoistureSource::RelativeHumidity(m)),
            Err(message) => Err(message.clone()),
        },
        None => Err(
            "missing 2m specific humidity/dewpoint/RH field for surface thermodynamics".to_owned(),
        ),
    }
}

/// The native CAPE messages of a surface file.
pub fn plan_native_cape_planes<T>(
    messages: &[GribRecord],
    table: &LevelTable,
    planes: &[Result<Vec<T>, String>],
    levels: SurfaceLevels,
) -> (plan: Result<NativeCapePlan, String>)
    requires
        table.wf(),
        records::levels_known(messages@, *table),
        levels.known(*table),
        planes@.len() == messages@.len(),
    ensures
        match plan {
            Ok(plan) => native_cape_plan(messages@, *table, volumes::outcomes(planes@), levels)
                == Ok::<NativeCapePlan, Seq<char>>(plan),
            Err(message) => native_cape_plan(
                messages@,
                *table,
                volumes::outcomes(planes@),
                levels,
            ) == Err::<NativeCapePlan, Seq<char>>(message@),
        },
{
    let sb = make_cape_candidates(NativeCapeLayer::Surface, levels);
    let surface_based = match find_optional(messages, table, planes, sb.as_slice()) {
        Ok(m) => m,
        Err(message) => {
            return Err(message);
        },
    };
    let ml = make_cape_candidates(NativeCapeLayer::MixedLayer, levels);
    let mixed_layer = match find_optional(messages, table, planes, ml.as_slice()) {
        Ok(m) => m,
        Err(message) => {
            return Err(message);
        },
    };
    let mu = make_cape_candidates(NativeCapeLayer::MostUnstable, levels);
    let most_unstable = match find_optional(messages, table, planes, mu.as_slice()) {
        Ok(m) => m,
        Err(message) => {
            return Err(message);
        },
    };
    Ok(NativeCapePlan { surface_based, mixed_layer, most_unstable })
}

/// The messages of a surface analysis, or why it cannot be decoded.
pub fn plan_surface_decode<T>(
    messages: &[GribRecord],
    table: &LevelTable,
    planes: &[Result<Vec<T>, String>],
    levels: SurfaceLevels,
) -> (plan: Result<SurfacePlan, String>)
    requires
        table.wf(),
        records::levels_known(messages@, *table),
        levels.known(*table),
        planes@.len() == messages@.len(),
    ensures
        match plan {
            Ok(plan) => surface_plan(messages@, *table, volumes::outcomes(planes@), levels) == Ok::<
                SurfacePlan,
                Seq<char>,
            >(plan),
            Err(message) => surface_plan(messages@, *table, volumes::outcomes(planes@), levels)
                == Err::<SurfacePlan, Seq<char>>(message@),
        },
{
    if messages.len() == 0 {
        return Err("surface family GRIB had no messages".to_owned());
    }
    let psfc_candidates = make_at_surface(3, 0, levels);
    let psfc = match find_required(messages, table, planes, psfc_candidates.as_slice()) {
        Ok(m) => m,
        Err(message) => {
            return Err(message);
        },
    };
    let orography = find_orography(messages, table, planes, levels);
    let t2_candidates = make_above_ground(0, 0, levels.two_metres);
    let t2 = match find_required(messages, table, planes, t2_candidates.as_slice()) {
        Ok(m) => m,
        Err(message) => {
            return Err(message);
        },
    };
    let moisture = match find_moisture(messages, table, planes, levels) {
        Ok(source) => source,
        Err(message) => {
            return Err(message);
        },
    };
    let u10_candidates = make_above_ground(2, 2, levels.ten_metres);
    let u10 = match find_required(messages, table, planes, u10_candidates.as_slice()) {
        Ok(m) => m,
        Err(message) => {
            return Err(message);
        },
    };
    let v10_candidates = make_above_ground(2, 3, levels.ten_metres);
    let v10 = match find_required(messages, table, planes, v10_candidates.as_slice()) {
        Ok(m) => m,
        Err(message) => {
            return Err(message);
        },
    };
    let native_cape = match plan_native_cape_planes(messages, table, planes, levels) {
        Ok(plan) => plan,
        Err(message) => {
            return Err(message);
        },
    };
    let pblh = make_pblh_candidates(levels);
    let native_pblh = match find_optional(messages, table, planes, pblh.as_slice()) {
        Ok(m) => m,
        Err(message) => {
            return Err(message);
        },
    };
    Ok(SurfacePlan { psfc, orography, t2, moisture, u10, v10, native_cape, native_pblh })
}

} // verus!
