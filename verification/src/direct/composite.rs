//! Maps that are made of several panels.
use crate::direct::types::{OUTPUT_HEIGHT, OUTPUT_WIDTH};
use crate::text;
use crate::text::str_eq;
use vstd::prelude::*;
use vstd::string::*;

verus! {

/// A grid of panels and the recipe that each panel draws, row by row.
#[derive(Debug)]
pub struct CompositePanelSpec {
    pub rows: u32,
    pub columns: u32,
    pub panel_width: u32,
    pub panel_height: u32,
    pub top_padding: u32,
    pub component_slugs: Vec<&'static str>,
}

/// A grid of panels as the contracts speak of it.
pub struct Panels {
    pub rows: u32,
    pub columns: u32,
    pub panel_width: u32,
    pub panel_height: u32,
    pub top_padding: u32,
    pub component_slugs: Seq<Seq<char>>,
}

impl View for CompositePanelSpec {
    type V = Panels;

    open spec fn view(&self) -> Panels {
        Panels {
            rows: self.rows,
            columns: self.columns,
            panel_width: self.panel_width,
            panel_height: self.panel_height,
            top_padding: self.top_padding,
            component_slugs: text::str_texts(self.component_slugs@),
        }
    }
}

/// The panels of low, middle and high clouds.
pub open spec fn cloud_levels() -> Panels {
    Panels {
        rows: 1,
        columns: 3,
        panel_width: 420,
        panel_height: 320,
        top_padding: 64,
        component_slugs: seq!["low_cloud_cover"@, "middle_cloud_cover"@, "high_cloud_cover"@],
    }
}

/// The panels of the kinds of precipitation.
pub open spec fn precipitation_types() -> Panels {
    Panels {
        rows: 2,
        columns: 2,
        panel_width: 600,
        panel_height: 415,
        top_padding: 70,
        component_slugs: seq![
            "categorical_rain"@,
            "categorical_freezing_rain"@,
            "categorical_ice_pellets"@,
            "categorical_snow"@,
        ],
    }
}

/// The panels that a recipe is made of, if it is made of panels.
pub open spec fn panels_of(slug: Seq<char>) -> Option<Panels> {
    if slug == "cloud_cover_levels"@ {
        Some(cloud_levels())
    } else if slug == "precipitation_type"@ {
        Some(precipitation_types())
    } else {
        None
    }
}

/// The panels that a recipe is made of, if it is made of panels.
pub fn composite_panel_spec(slug: &str) -> (spec: Option<CompositePanelSpec>)
    ensures
        match spec {
            Some(spec) => panels_of(slug@) == Some(spec@),
            None => panels_of(slug@) is None,
        },
{
    if str_eq(slug, "cloud_cover_levels") {
        let spec = CompositePanelSpec {
            rows: 1,
            columns: 3,
            panel_width: 420,
            panel_height: 320,
            top_padding: 64,
            component_slugs: vec!["low_cloud_cover", "middle_cloud_cover", "high_cloud_cover"],
        };
        proof {
            assert(spec@.component_slugs =~= cloud_levels().component_slugs);
        }
        Some(spec)
    } else if str_eq(slug, "precipitation_type") {
        let spec = CompositePanelSpec {
            rows: 2,
            columns: 2,
            panel_width: 600,
            panel_height: 415,
            top_padding: 70,
            component_slugs: vec![
                "categorical_rain",
                "categorical_freezing_rain",
                "categorical_ice_pellets",
                "categorical_snow",
            ],
        };
        proof {
            assert(spec@.component_slugs =~= precipitation_types().component_slugs);
        }
        Some(spec)
    } else {
        None
    }
}

impl CompositePanelSpec {
    /// The panels for an output of another size. `scaled` gives the share of a
    /// length for an output length against the usual one.
    pub fn scaled_for_output<S: Fn(u32, u32, u32) -> u32>(
        self,
        output_width: u32,
        output_height: u32,
        scaled: &S,
    ) -> (spec: Self)
        requires
            forall|length: u32, output: u32, usual: u32| #[trigger]
                call_requires(*scaled, (length, output, usual)),
        ensures
            spec.rows == self.rows,
            spec.columns == self.columns,
            spec.component_slugs == self.component_slugs,
            call_ensures(*scaled, (self.panel_width, output_width, OUTPUT_WIDTH), spec.panel_width),
            call_ensures(
                *scaled,
                (self.panel_height, output_height, OUTPUT_HEIGHT),
                spec.panel_height,
            ),
            call_ensures(
                *scaled,
                (self.top_padding, output_height, OUTPUT_HEIGHT),
                spec.top_padding,
            ),
    {
        CompositePanelSpec {
            rows: self.rows,
            columns: self.columns,
            panel_width: scaled(self.panel_width, output_width, OUTPUT_WIDTH),
            panel_height: scaled(self.panel_height, output_height, OUTPUT_HEIGHT),
            top_padding: scaled(self.top_padding, output_height, OUTPUT_HEIGHT),
            component_slugs: self.component_slugs,
        }
    }
}

/// A grid of panels has one component for each of its cells.
pub proof fn law_every_panel_has_a_component(slug: Seq<char>)
    ensures
        match panels_of(slug) {
            Some(panels) => panels.component_slugs.len() == panels.rows * panels.columns,
            None => true,
        },
{
    let clouds = cloud_levels();
    assert(clouds.rows == 1 && clouds.columns == 3 && clouds.component_slugs.len() == 3);
    assert(clouds.rows * clouds.columns == 3) by (nonlinear_arith)
        requires
            clouds.rows == 1,
            clouds.columns == 3,
    ;
    let kinds = precipitation_types();
    assert(kinds.rows == 2 && kinds.columns == 2 && kinds.component_slugs.len() == 4);
    assert(kinds.rows * kinds.columns == 4) by (nonlinear_arith)
        requires
            kinds.rows == 2,
            kinds.columns == 2,
    ;
}

/// The panels of a composite fill its grid row by row with the parts of one whole: covers
/// of the three layers of clouds from the lowest up, and kinds of precipitation. The kinds
/// of precipitation and what stands above them are as high as the usual output.
pub proof fn law_panels_are_parts_of_one_whole(slug: Seq<char>)
    ensures
        match panels_of(slug) {
            Some(panels) => {
                &&& slug == "cloud_cover_levels"@ ==> {
                    &&& panels.rows == 1
                    &&& panels.component_slugs == seq![
                        "low"@ + "_cloud_cover"@,
                        "middle"@ + "_cloud_cover"@,
                        "high"@ + "_cloud_cover"@,
                    ]
                }
                &&& slug == "precipitation_type"@ ==> {
                    &&& panels.component_slugs == seq![
                        "categorical_"@ + "rain"@,
                        "categorical_"@ + "freezing_rain"@,
                        "categorical_"@ + "ice_pellets"@,
                        "categorical_"@ + "snow"@,
                    ]
                    &&& panels.rows == 2
                    &&& 2 * panels.panel_height + panels.top_padding == OUTPUT_HEIGHT
                }
                &&& panels.component_slugs.no_duplicates()
            },
            None => slug != "cloud_cover_levels"@ && slug != "precipitation_type"@,
        },
{
    reveal_strlit("cloud_cover_levels");
    reveal_strlit("precipitation_type");
    assert("cloud_cover_levels"@[0] == 'c' && "precipitation_type"@[0] == 'p');
    reveal_strlit("low");
    reveal_strlit("middle");
    reveal_strlit("high");
    reveal_strlit("_cloud_cover");
    reveal_strlit("low_cloud_cover");
    reveal_strlit("middle_cloud_cover");
    reveal_strlit("high_cloud_cover");
    reveal_strlit("categorical_");
    reveal_strlit("rain");
    reveal_strlit("freezing_rain");
    reveal_strlit("ice_pellets");
    reveal_strlit("snow");
    reveal_strlit("categorical_rain");
    reveal_strlit("categorical_freezing_rain");
    reveal_strlit("categorical_ice_pellets");
    reveal_strlit("categorical_snow");
    assert("low_cloud_cover"@ =~= "low"@ + "_cloud_cover"@);
    assert("middle_cloud_cover"@ =~= "middle"@ + "_cloud_cover"@);
    assert("high_cloud_cover"@ =~= "high"@ + "_cloud_cover"@);
    assert("categorical_rain"@ =~= "categorical_"@ + "rain"@);
    assert("categorical_freezing_rain"@ =~= "categorical_"@ + "freezing_rain"@);
    assert("categorical_ice_pellets"@ =~= "categorical_"@ + "ice_pellets"@);
    assert("categorical_snow"@ =~= "categorical_"@ + "snow"@);
    assert("low_cloud_cover"@[0] == 'l' && "middle_cloud_cover"@[0] == 'm' && "high_cloud_cover"@[0]
        == 'h');
    assert("categorical_rain"@[12] == 'r' && "categorical_freezing_rain"@[12] == 'f'
        && "categorical_ice_pellets"@[12] == 'i' && "categorical_snow"@[12] == 's');
}

/// A composite map has at least one component.
pub proof fn lemma_panels_have_components(slug: Seq<char>)
    ensures
        match panels_of(slug) {
            Some(panels) => panels.component_slugs.len() > 0,
            None => true,
        },
{
    assert(cloud_levels().component_slugs.len() == 3);
    assert(precipitation_types().component_slugs.len() == 4);
}

} // verus!
