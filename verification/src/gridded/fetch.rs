//! What is fetched for a surface and pressure analysis: the variable patterns of
//! each bundle, and whether both come out of one file.
use crate::model::{CanonicalBundleDescriptor, ModelId};
use crate::text;
use crate::text::{push_all_distinct, str_eq, to_decimal, to_lowercase, to_strings, trim};
use vstd::prelude::*;
use vstd::string::*;

verus! {

/// The models whose surface bundle is fetched by variable patterns.
pub open spec fn has_grib_surface_bundle(model: ModelId) -> bool {
    match model {
        ModelId::Hrrr
        | ModelId::HrrrAk
        | ModelId::Gfs
        | ModelId::Gdas
        | ModelId::Gefs
        | ModelId::Aigfs
        | ModelId::Aigefs
        | ModelId::Rap
        | ModelId::Nam
        | ModelId::Hiresw
        | ModelId::Sref
        | ModelId::Rtma
        | ModelId::Urma
        | ModelId::Nbm
        | ModelId::RrfsA => true,
        _ => false,
    }
}

/// The models whose pressure bundle is fetched by variable patterns.
pub open spec fn has_grib_pressure_bundle(model: ModelId) -> bool {
    match model {
        ModelId::Hrrr
        | ModelId::HrrrAk
        | ModelId::Gfs
        | ModelId::Gdas
        | ModelId::Gefs
        | ModelId::Aigfs
        | ModelId::Aigefs
        | ModelId::Rap
        | ModelId::Nam
        | ModelId::Hiresw
        | ModelId::Sref
        | ModelId::RrfsA => true,
        _ => false,
    }
}

/// The models whose surface moisture may come as dewpoint or relative humidity.
pub open spec fn has_moisture_fallback(model: ModelId) -> bool {
    has_grib_surface_bundle(model) && model != ModelId::Hrrr && model != ModelId::HrrrAk
}

/// The variable patterns of a surface analysis.
pub open spec fn surface_patterns(model: ModelId) -> Seq<Seq<char>> {
    let core = seq![
        "PRES:surface"@,
        "HGT:surface"@,
        "GP:surface"@,
        "TMP:2 m above ground"@,
        "SPFH:2 m above ground"@,
        "UGRD:10 m above ground"@,
        "VGRD:10 m above ground"@,
    ];
    if has_moisture_fallback(model) {
        core.push("DPT:2 m above ground"@).push("RH:2 m above ground"@)
    } else {
        core
    }
}

/// The pressure-level variables that HRRR is fetched with.
pub open spec fn hrrr_pressure_patterns(with_optional: bool) -> Seq<Seq<char>> {
    let core = seq!["HGT"@, "TMP"@, "SPFH"@, "UGRD"@, "VGRD"@];
    if with_optional {
        core + seq!["VVEL"@, "ABSV"@, "CLWMR"@, "CIMIXR"@, "ICMR"@, "RWMR"@, "SNMR"@, "GRLE"@]
    } else {
        core
    }
}

/// The variable patterns of a pressure analysis. No pattern stands for the whole
/// family file; RAP is fetched that way.
pub open spec fn pressure_patterns(model: ModelId, with_optional: bool) -> Seq<Seq<char>> {
    match model {
        ModelId::Hrrr | ModelId::HrrrAk => hrrr_pressure_patterns(with_optional),
        ModelId::Gfs
        | ModelId::Gdas
        | ModelId::Gefs
        | ModelId::Aigfs
        | ModelId::Aigefs
        | ModelId::Nam
        | ModelId::Hiresw
        | ModelId::Sref => seq!["HGT"@, "TMP"@, "RH"@, "UGRD"@, "VGRD"@],
        ModelId::RrfsA => seq![
            "HGT"@,
            "GP"@,
            "TMP"@,
            "SPFH"@,
            "DPT"@,
            "RH"@,
            "UGRD"@,
            "VGRD"@,
        ],
        _ => Seq::empty(),
    }
}

/// The variable patterns of the native product of the RRFS.
pub open spec fn rrfs_native_patterns() -> Seq<Seq<char>> {
    seq![
        "CAPE:surface"@,
        "CIN:surface"@,
        "LFTX:500-1000 mb"@,
        "CAPE:90-0 mb above ground"@,
        "CIN:90-0 mb above ground"@,
        "CAPE:255-0 mb above ground"@,
        "CIN:255-0 mb above ground"@,
        "HGT:cloud base"@,
        "PRES:cloud base"@,
    ]
}

/// The variable patterns of the native surface product of the HRRR.
pub open spec fn hrrr_native_surface_patterns() -> Seq<Seq<char>> {
    seq![
        "PRES:surface"@,
        "APCP:surface"@,
        "TMP:2 m above ground"@,
        "DPT:2 m above ground"@,
        "RH:2 m above ground"@,
        "UGRD:10 m above ground"@,
        "VGRD:10 m above ground"@,
        "GUST:surface"@,
        "GUST:10 m above ground"@,
        "MSLMA:mean sea level"@,
        "PRMSL:mean sea level"@,
        "MSLET:mean sea level"@,
        "LCDC:low cloud layer"@,
        "MCDC:middle cloud layer"@,
        "HCDC:high cloud layer"@,
        "MXUPHL:5000-2000 m above ground"@,
        "WIND:10 m above ground"@,
        "VIS:surface"@,
    ]
}

/// The variable patterns that a bundle of a native product is fetched with.
pub open spec fn bundle_patterns(
    model: ModelId,
    bundle: CanonicalBundleDescriptor,
    native_product: Seq<char>,
    with_optional: bool,
) -> Seq<Seq<char>> {
    if bundle == CanonicalBundleDescriptor::SurfaceAnalysis && has_grib_surface_bundle(model) {
        surface_patterns(model)
    } else if bundle == CanonicalBundleDescriptor::PressureAnalysis && has_grib_pressure_bundle(
        model,
    ) {
        pressure_patterns(model, with_optional)
    } else if bundle == CanonicalBundleDescriptor::NativeAnalysis && native_product == "nat-na"@ {
        rrfs_native_patterns()
    } else if bundle == CanonicalBundleDescriptor::NativeAnalysis && native_product == "sfc"@
        && model == ModelId::Hrrr {
        hrrr_native_surface_patterns()
    } else {
        Seq::empty()
    }
}

fn model_has_grib_surface_bundle(model: ModelId) -> (yes: bool)
    ensures
        yes == has_grib_surface_bundle(model),
{
    match model {
        ModelId::Hrrr
        | ModelId::HrrrAk
        | ModelId::Gfs
        | ModelId::Gdas
        | ModelId::Gefs
        | ModelId::Aigfs
        | ModelId::Aigefs
        | ModelId::Rap
        | ModelId::Nam
        | ModelId::Hiresw
        | ModelId::Sref
        | ModelId::Rtma
        | ModelId::Urma
        | ModelId::Nbm
        | ModelId::RrfsA => true,
        _ => false,
    }
}

fn model_has_grib_pressure_bundle(model: ModelId) -> (yes: bool)
    ensures
        yes == has_grib_pressure_bundle(model),
{
    match model {
        ModelId::Hrrr
        | ModelId::HrrrAk
        | ModelId::Gfs
        | ModelId::Gdas
        | ModelId::Gefs
        | ModelId::Aigfs
        | ModelId::Aigefs
        | ModelId::Rap
        | ModelId::Nam
        | ModelId::Hiresw
        | ModelId::Sref
        | ModelId::RrfsA => true,
        _ => false,
    }
}

/// The variable patterns of a surface analysis.
pub fn surface_analysis_fetch_patterns(model: ModelId) -> (patterns: Vec<String>)
    ensures
        text::texts(patterns@) == surface_patterns(model),
{
    let mut patterns: Vec<&'static str> = vec![
        "PRES:surface",
        "HGT:surface",
        "GP:surface",
        "TMP:2 m above ground",
        "SPFH:2 m above ground",
        "UGRD:10 m above ground",
        "VGRD:10 m above ground",
    ];
    if model_has_grib_surface_bundle(model) && model != ModelId::Hrrr && model != ModelId::HrrrAk {
        patterns.push("DPT:2 m above ground");
        patterns.push("RH:2 m above ground");
    }
    assert(text::str_texts(patterns@) =~= surface_patterns(model));
    to_strings(patterns.as_slice())
}

/// The pressure-level variables that HRRR is fetched with, with or without those
/// of the optional volumes.
pub fn hrrr_pressure_analysis_fetch_patterns(include_optional: bool) -> (patterns: Vec<
    &'static str,
>)
    ensures
        text::str_texts(patterns@) == hrrr_pressure_patterns(include_optional),
{
    let mut patterns: Vec<&'static str> = vec!["HGT", "TMP", "SPFH", "UGRD", "VGRD"];
    if include_optional {
        patterns.push("VVEL");
        patterns.push("ABSV");
        patterns.push("CLWMR");
        patterns.push("CIMIXR");
        patterns.push("ICMR");
        patterns.push("RWMR");
        patterns.push("SNMR");
        patterns.push("GRLE");
    }
    assert(text::str_texts(patterns@) =~= hrrr_pressure_patterns(include_optional));
    patterns
}

/// The variable patterns of a pressure analysis.
pub fn pressure_analysis_fetch_patterns(model: ModelId, include_optional: bool) -> (patterns: Vec<
    String,
>)
    ensures
        text::texts(patterns@) == pressure_patterns(model, include_optional),
{
    let patterns: Vec<&'static str> = match model {
        ModelId::Hrrr | ModelId::HrrrAk => hrrr_pressure_analysis_fetch_patterns(include_optional),
        ModelId::Gfs
        | ModelId::Gdas
        | ModelId::Gefs
        | ModelId::Aigfs
        | ModelId::Aigefs
        | ModelId::Nam
        | ModelId::Hiresw
        | ModelId::Sref => vec!["HGT", "TMP", "RH", "UGRD", "VGRD"],
        ModelId::RrfsA => vec!["HGT", "GP", "TMP", "SPFH", "DPT", "RH", "UGRD", "VGRD"],
        _ => Vec::new(),
    };
    assert(text::str_texts(patterns@) =~= pressure_patterns(model, include_optional));
    to_strings(patterns.as_slice())
}

/// The variable patterns that a bundle of a native product is fetched with. No
/// pattern stands for the whole file.
pub fn bundle_fetch_variable_patterns(
    model: ModelId,
    bundle: CanonicalBundleDescriptor,
    native_product: &str,
    include_optional: bool,
) -> (patterns: Vec<String>)
    ensures
        text::texts(patterns@) == bundle_patterns(model, bundle, native_product@, include_optional),
{
    if bundle == CanonicalBundleDescriptor::SurfaceAnalysis && model_has_grib_surface_bundle(
        model,
    ) {
        return surface_analysis_fetch_patterns(model);
    }
    if bundle == CanonicalBundleDescriptor::PressureAnalysis && model_has_grib_pressure_bundle(
        model,
    ) {
        return pressure_analysis_fetch_patterns(model, include_optional);
    }
    let patterns: Vec<&'static str> = if bundle == CanonicalBundleDescriptor::NativeAnalysis
        && str_eq(native_product, "nat-na") {
        vec![
            "CAPE:surface",
            "CIN:surface",
            "LFTX:500-1000 mb",
            "CAPE:90-0 mb above ground",
            "CIN:90-0 mb above ground",
            "CAPE:255-0 mb above ground",
            "CIN:255-0 mb above ground",
            "HGT:cloud base",
            "PRES:cloud base",
        ]
    } else if bundle == CanonicalBundleDescriptor::NativeAnalysis && str_eq(native_product, "sfc")
        && model == ModelId::Hrrr {
        vec![
            "PRES:surface",
            "APCP:surface",
            "TMP:2 m above ground",
            "DPT:2 m above ground",
            "RH:2 m above ground",
            "UGRD:10 m above ground",
            "VGRD:10 m above ground",
            "GUST:surface",
            "GUST:10 m above ground",
            "MSLMA:mean sea level",
            "PRMSL:mean sea level",
            "MSLET:mean sea level",
            "LCDC:low cloud layer",
            "MCDC:middle cloud layer",
            "HCDC:high cloud layer",
            "MXUPHL:5000-2000 m above ground",
            "WIND:10 m above ground",
            "VIS:surface",
        ]
    } else {
        Vec::new()
    };
    assert(text::str_texts(patterns@) =~= bundle_patterns(
        model,
        bundle,
        native_product@,
        include_optional,
    ));
    to_strings(patterns.as_slice())
}

/// The texts of groups of patterns.
pub open spec fn group_texts(groups: Seq<Vec<String>>) -> Seq<Seq<Seq<char>>> {
    Seq::new(groups.len(), |g: int| text::texts(groups[g]@))
}

/// The patterns of all groups, each once, in the order in which they come up. A
/// group without patterns asks for the whole file, and so does the merge then.
pub open spec fn merged_patterns(groups: Seq<Seq<Seq<char>>>) -> Seq<Seq<char>> {
    if exists|g: int| 0 <= g < groups.len() && (#[trigger] groups[g]).len() == 0 {
        Seq::empty()
    } else {
        joined_patterns(groups)
    }
}

/// The patterns of all groups, each once, in the order in which they come up.
pub open spec fn joined_patterns(groups: Seq<Seq<Seq<char>>>) -> Seq<Seq<char>>
    decreases groups.len(),
{
    if groups.len() == 0 {
        Seq::empty()
    } else {
        text::with_all_distinct(joined_patterns(groups.drop_last()), groups.last())
    }
}

/// The patterns of all groups, each once; none if a group has none.
pub fn merge_variable_patterns(pattern_groups: &[Vec<String>]) -> (merged: Vec<String>)
    ensures
        text::texts(merged@) == merged_patterns(group_texts(pattern_groups@)),
{
    let ghost groups = group_texts(pattern_groups@);
    let mut merged: Vec<String> = Vec::new();
    let mut g: usize = 0;
    assert(groups.take(0) =~= Seq::empty());
    assert(text::texts(merged@) =~= Seq::empty());
    while g < pattern_groups.len()
        invariant
            g <= pattern_groups@.len(),
            groups == group_texts(pattern_groups@),
            text::texts(merged@) == joined_patterns(groups.take(g as int)),
            forall|j: int| 0 <= j < g ==> (#[trigger] groups[j]).len() > 0,
        decreases pattern_groups.len() - g,
    {
        if pattern_groups[g].len() == 0 {
            assert(groups[g as int].len() == 0);
            let none: Vec<String> = Vec::new();
            assert(text::texts(none@) =~= Seq::empty());
            return none;
        }
        assert(groups.take(g + 1).drop_last() =~= groups.take(g as int));
        push_all_distinct(&mut merged, pattern_groups[g].as_slice());
        g += 1;
    }
    assert(groups.take(g as int) =~= groups);
    merged
}

/// How the surface and pressure analyses of a run are fetched.
pub enum ThermoFetchPlan {
    /// Both from one file, fetched once with the merged patterns.
    Shared { patterns: Vec<String> },
    /// Each from a file of its own.
    Split { surface_patterns: Vec<String>, pressure_patterns: Vec<String> },
}

/// How the surface and pressure analyses of a run are fetched: once, with the
/// patterns of both, if both are in the same product; else one by one.
pub fn plan_thermo_fetch(
    model: ModelId,
    surface_product: &str,
    pressure_product: &str,
    include_optional: bool,
) -> (plan: ThermoFetchPlan)
    ensures
        ({
            let surface = bundle_patterns(
                model,
                CanonicalBundleDescriptor::SurfaceAnalysis,
                surface_product@,
                include_optional,
            );
            let pressure = bundle_patterns(
                model,
                CanonicalBundleDescriptor::PressureAnalysis,
                pressure_product@,
                include_optional,
            );
            match plan {
                ThermoFetchPlan::Shared { patterns } => surface_product@ == pressure_product@
                    && text::texts(patterns@) == merged_patterns(seq![surface, pressure]),
                ThermoFetchPlan::Split { surface_patterns, pressure_patterns } => surface_product@
                    != pressure_product@ && text::texts(surface_patterns@) == surface
                    && text::texts(pressure_patterns@) == pressure,
            }
        }),
{
    let surface_patterns = bundle_fetch_variable_patterns(
        model,
        CanonicalBundleDescriptor::SurfaceAnalysis,
        surface_product,
        include_optional,
    );
    let pressure_patterns = bundle_fetch_variable_patterns(
        model,
        CanonicalBundleDescriptor::PressureAnalysis,
        pressure_product,
        include_optional,
    );
    if str_eq(surface_product, pressure_product) {
        let ghost surface = text::texts(surface_patterns@);
        let ghost pressure = text::texts(pressure_patterns@);
        let groups: Vec<Vec<String>> = vec![surface_patterns, pressure_patterns];
        assert(group_texts(groups@) =~= seq![surface, pressure]);
        ThermoFetchPlan::Shared { patterns: merge_variable_patterns(groups.as_slice()) }
    } else {
        ThermoFetchPlan::Split { surface_patterns, pressure_patterns }
    }
}

/// Whether the optional pressure volumes are decoded, by the value of the
/// setting: they are unless it says no.
pub open spec fn optional_decode_enabled(value: Option<Seq<char>>) -> bool {
    match value {
        None => true,
        Some(value) => {
            let word = text::lowercased(text::trimmed(value));
            !(word == "0"@ || word == "false"@ || word == "no"@ || word == "off"@)
        },
    }
}

/// Whether the optional pressure volumes are decoded, by the value of the
/// setting.
pub fn pressure_optional_decode_enabled_from_env_value(value: Option<String>) -> (enabled: bool)
    ensures
        enabled == optional_decode_enabled(
            match value {
                Some(value) => Some(value@),
                None => None,
            },
        ),
{
    match value {
        None => true,
        Some(value) => {
            let trimmed = trim(value.as_str());
            let word = to_lowercase(trimmed.as_str());
            !(str_eq(word.as_str(), "0") || str_eq(word.as_str(), "false") || str_eq(
                word.as_str(),
                "no",
            ) || str_eq(word.as_str(), "off"))
        },
    }
}

/// The name under which a decoded pressure analysis is cached.
pub fn pressure_decode_cache_name_from_optional_enabled(include_optional: bool) -> (name:
    &'static str)
    ensures
        name@ == if include_optional {
            "pressure_optional"@
        } else {
            "pressure_core"@
        },
{
    if include_optional {
        "pressure_optional"
    } else {
        "pressure_core"
    }
}

/// The file name under which a decode is cached.
pub fn decode_cache_file_name(name: &str) -> (file_name: String)
    ensures
        file_name@ == name@ + ".bin"@,
{
    name.to_owned().concat(".bin")
}

/// The file name under which a decode of a rectangle is cached.
pub fn cropped_decode_cache_file_name(
    stem: &str,
    crop: crate::gridded::crop::GridCrop,
) -> (file_name: String)
    ensures
        file_name@ == stem@ + "_crop_"@ + text::decimal(crop.x_start as nat) + "_"@ + text::decimal(
            crop.x_end as nat,
        ) + "_"@ + text::decimal(crop.y_start as nat) + "_"@ + text::decimal(crop.y_end as nat)
            + ".bin"@,
{
    let x_start = to_decimal(crop.x_start as u64);
    let x_end = to_decimal(crop.x_end as u64);
    let y_start = to_decimal(crop.y_start as u64);
    let y_end = to_decimal(crop.y_end as u64);
    stem.to_owned().concat("_crop_").concat(x_start.as_str()).concat("_").concat(
        x_end.as_str(),
    ).concat("_").concat(y_start.as_str()).concat("_").concat(y_end.as_str()).concat(".bin")
}

/// A merge holds every pattern of every group and repeats none, unless a group
/// asks for the whole file.
pub proof fn law_merge_keeps_every_pattern(groups: Seq<Seq<Seq<char>>>, g: int, p: int)
    requires
        0 <= g < groups.len(),
        0 <= p < groups[g].len(),
        forall|j: int| 0 <= j < groups.len() ==> (#[trigger] groups[j]).len() > 0,
    ensures
        merged_patterns(groups).contains(groups[g][p]),
        merged_patterns(groups).no_duplicates(),
{
    lemma_joined_patterns(groups, g, p);
}

proof fn lemma_joined_patterns(groups: Seq<Seq<Seq<char>>>, g: int, p: int)
    requires
        0 <= g < groups.len(),
        0 <= p < groups[g].len(),
    ensures
        joined_patterns(groups).contains(groups[g][p]),
        joined_patterns(groups).no_duplicates(),
    decreases groups.len(),
{
    let init = groups.drop_last();
    let before = joined_patterns(init);
    text::lemma_with_all_distinct(before, groups.last());
    lemma_joined_no_duplicates(init);
    if g < init.len() {
        lemma_joined_patterns(init, g, p);
    } else {
        assert(groups.last().contains(groups[g][p]));
    }
}

proof fn lemma_joined_no_duplicates(groups: Seq<Seq<Seq<char>>>)
    ensures
        joined_patterns(groups).no_duplicates(),
    decreases groups.len(),
{
    if groups.len() > 0 {
        lemma_joined_no_duplicates(groups.drop_last());
        text::lemma_with_all_distinct(joined_patterns(groups.drop_last()), groups.last());
    }
}

} // verus!
