//! How densely wind is drawn, and the settings for lines and barbs.
use crate::derived::presentation;
use crate::direct::projection;
use crate::direct::recipe::FieldSelector;
use crate::numbers;
use crate::numbers::parse_usize;
use crate::text;
use crate::text::{str_eq, to_lowercase, trim};
use vstd::prelude::*;
use vstd::string::*;

verus! {

/// A number kept between two others.
pub open spec fn kept_between(value: int, least: int, most: int) -> int {
    if value < least {
        least
    } else if value > most {
        most
    } else {
        value
    }
}

fn keep_between(value: usize, least: usize, most: usize) -> (kept: usize)
    requires
        least <= most,
    ensures
        kept == kept_between(value as int, least as int, most as int),
{
    if value < least {
        least
    } else if value > most {
        most
    } else {
        value
    }
}

/// The number that a setting holds once white space round it is gone, if it is at
/// most `max`.
pub open spec fn number_setting(setting: Option<Seq<char>>, max: nat) -> Option<nat> {
    match setting {
        Some(value) => numbers::parsed(text::trimmed(value), max),
        None => None,
    }
}

fn parse_setting(setting: Option<&str>) -> (number: Option<usize>)
    ensures
        match number {
            Some(number) => number_setting(presentation::optional(setting), usize::MAX as nat)
                == Some(number as nat),
            None => number_setting(presentation::optional(setting), usize::MAX as nat) is None,
        },
{
    match setting {
        Some(value) => {
            let trimmed = trim(value);
            parse_usize(trimmed.as_str())
        },
        None => None,
    }
}

/// How often pressure contours are smoothed: as often as the setting says, at most
/// twelve times, and by default not at all.
pub fn pressure_contour_smoothing_passes(setting: Option<&str>) -> (passes: usize)
    ensures
        passes == (match number_setting(presentation::optional(setting), usize::MAX as nat) {
            Some(number) => kept_between(number as int, 0, 12),
            None => 0,
        }),
{
    match parse_setting(setting) {
        Some(number) => keep_between(number, 0, 12),
        None => 0,
    }
}

/// The width of a wind barb: the positive number of the setting, or one, and at
/// most eight.
pub fn barb_width(setting: Option<&str>) -> (width: u32)
    ensures
        width == (match number_setting(presentation::optional(setting), u32::MAX as nat) {
            Some(number) => kept_between(number as int, 1, 8),
            None => 1,
        }),
{
    match parse_setting(setting) {
        Some(number) => {
            if number > 8 {
                if number <= u32::MAX as usize {
                    8
                } else {
                    1
                }
            } else if number < 1 {
                1
            } else {
                number as u32
            }
        },
        None => 1,
    }
}

/// The width of the halo of a wind barb: the number of the setting, or one, and at
/// most eight.
pub fn barb_halo_width(setting: Option<&str>) -> (width: u32)
    ensures
        width == (match number_setting(presentation::optional(setting), u32::MAX as nat) {
            Some(number) => kept_between(number as int, 0, 8),
            None => 1,
        }),
{
    match parse_setting(setting) {
        Some(number) => {
            if number > 8 {
                if number <= u32::MAX as usize {
                    8
                } else {
                    1
                }
            } else {
                number as u32
            }
        },
        None => 1,
    }
}

/// How a setting asks for streamlines.
#[derive(Debug, Clone, Copy, PartialEq, Eq, Structural)]
pub enum StreamlineSetting {
    Auto,
    Enabled,
    Disabled,
}

/// What a setting says of streamlines.
pub open spec fn asked_streamlines(setting: Option<Seq<char>>) -> StreamlineSetting {
    match setting {
        Some(value) => {
            let name = projection::plain(value);
            if name == "0"@ || name == "false"@ || name == "off"@ || name == "no"@ {
                StreamlineSetting::Disabled
            } else if name == "1"@ || name == "true"@ || name == "on"@ || name == "yes"@ || name
                == "force"@ {
                StreamlineSetting::Enabled
            } else {
                StreamlineSetting::Auto
            }
        },
        None => StreamlineSetting::Auto,
    }
}

/// What a setting says of streamlines.
pub fn streamline_setting(setting: Option<&str>) -> (asked: StreamlineSetting)
    ensures
        asked == asked_streamlines(presentation::optional(setting)),
{
    match setting {
        Some(value) => {
            let trimmed = trim(value);
            let lowered = to_lowercase(trimmed.as_str());
            let name = lowered.as_str();
            if str_eq(name, "0") || str_eq(name, "false") || str_eq(name, "off") || str_eq(
                name,
                "no",
            ) {
                StreamlineSetting::Disabled
            } else if str_eq(name, "1") || str_eq(name, "true") || str_eq(name, "on") || str_eq(
                name,
                "yes",
            ) || str_eq(name, "force") {
                StreamlineSetting::Enabled
            } else {
                StreamlineSetting::Auto
            }
        },
        None => StreamlineSetting::Auto,
    }
}

/// Whether streamlines are drawn on a grid. Left open, they are drawn unless the
/// grid is a regular mesh.
pub fn streamlines_enabled_for_grid(setting: StreamlineSetting, rectilinear: bool) -> (yes: bool)
    ensures
        yes == (setting is Enabled || (setting is Auto && !rectilinear)),
{
    match setting {
        StreamlineSetting::Disabled => false,
        StreamlineSetting::Enabled => true,
        StreamlineSetting::Auto => !rectilinear,
    }
}

/// Whether a stride is a share of a number of cells, kept between limits.
pub open spec fn is_stride<R: Fn(usize, u32) -> usize>(
    share: R,
    cells: usize,
    target: u32,
    most: int,
    stride: usize,
) -> bool {
    exists|raw: usize|
        #[trigger] call_ensures(share, (cells, target), raw) && stride == kept_between(
            raw as int,
            2,
            most,
        )
}

/// How many cells apart wind barbs are drawn. `share` gives how many cells there
/// are for one of a number of targets, rounded.
pub fn barb_strides<R: Fn(usize, u32) -> usize>(
    visible: (usize, usize),
    targets: (u32, u32),
    share: &R,
) -> (strides: (usize, usize))
    requires
        forall|cells: usize, target: u32| #[trigger] call_requires(*share, (cells, target)),
    ensures
        is_stride(*share, visible.0, targets.0, 128, strides.0),
        is_stride(*share, visible.1, targets.1, 96, strides.1),
{
    let x: usize = share(visible.0, targets.0);
    let y: usize = share(visible.1, targets.1);
    (keep_between(x, 2, 128), keep_between(y, 2, 96))
}

/// Whether a stride is another thinned out, kept between limits.
pub open spec fn is_thinned<R: Fn(usize) -> usize>(
    thin: R,
    stride: usize,
    most: int,
    thinned: usize,
) -> bool {
    exists|raw: usize|
        #[trigger] call_ensures(thin, (stride,), raw) && thinned == kept_between(raw as int, 2, most)
}

/// How many cells apart streamlines begin. `thin` changes a stride of barbs by the
/// density of streamlines, rounded.
pub fn streamline_strides<R: Fn(usize) -> usize>(barbs: (usize, usize), thin: &R) -> (strides: (
    usize,
    usize,
))
    requires
        forall|stride: usize| #[trigger] call_requires(*thin, (stride,)),
    ensures
        is_thinned(*thin, barbs.0, 96, strides.0),
        is_thinned(*thin, barbs.1, 64, strides.1),
{
    let x: usize = thin(barbs.0);
    let y: usize = thin(barbs.1);
    (keep_between(x, 2, 96), keep_between(y, 2, 64))
}

/// What a drawn layer depends on: a field and the size of its grid, or two wind
/// components and the bits of the bounds.
#[derive(Debug, Clone, Copy, PartialEq, Eq, Structural)]
pub enum LayerKey {
    Contour { selector: FieldSelector, nx: usize, ny: usize },
    Wind {
        u_selector: FieldSelector,
        v_selector: FieldSelector,
        west_bits: u64,
        east_bits: u64,
        south_bits: u64,
        north_bits: u64,
    },
}

/// Layers that were built, by what they depend on.
pub struct LayerCache<V> {
    pub entries: Vec<(LayerKey, V)>,
}

/// The layer of a key in a list of entries: the first one.
pub open spec fn layer_of<V>(entries: Seq<(LayerKey, V)>, key: LayerKey) -> Option<V>
    decreases entries.len(),
{
    if entries.len() == 0 {
        None
    } else {
        match layer_of(entries.drop_last(), key) {
            Some(layer) => Some(layer),
            None => if entries.last().0 == key {
                Some(entries.last().1)
            } else {
                None
            },
        }
    }
}

proof fn lemma_first_layer<V>(entries: Seq<(LayerKey, V)>, key: LayerKey, at: int)
    requires
        0 <= at <= entries.len(),
        forall|k: int| 0 <= k < at ==> (#[trigger] entries[k]).0 != key,
    ensures
        at == entries.len() ==> layer_of(entries, key) is None,
        at < entries.len() && entries[at].0 == key ==> layer_of(entries, key) == Some(entries[at].1),
    decreases entries.len(),
{
    if entries.len() > 0 {
        let init = entries.drop_last();
        assert forall|k: int| 0 <= k < init.len() implies #[trigger] entries[k] == init[k] by {}
        if at < entries.len() {
            lemma_first_layer(init, key, at);
        } else {
            assert(entries[at - 1].0 != key);
            lemma_first_layer(init, key, at - 1);
        }
    }
}

impl<V> LayerCache<V> {
    /// The layer that was built for a key.
    pub open spec fn layer(self, key: LayerKey) -> Option<V> {
        layer_of(self.entries@, key)
    }

    /// A cache without layers.
    pub fn new() -> (cache: Self)
        ensures
            forall|key: LayerKey| #[trigger] cache.layer(key) is None,
    {
        LayerCache { entries: Vec::new() }
    }

    /// The layer that was built for a key.
    pub fn get(&self, key: LayerKey) -> (layer: Option<&V>)
        ensures
            match layer {
                Some(layer) => self.layer(key) == Some(*layer),
                None => self.layer(key) is None,
            },
    {
        let mut i: usize = 0;
        while i < self.entries.len()
            invariant
                i <= self.entries@.len(),
                forall|k: int| 0 <= k < i ==> (#[trigger] self.entries@[k]).0 != key,
            decreases self.entries@.len() - i,
        {
            if self.entries[i].0 == key {
                proof {
                    lemma_first_layer(self.entries@, key, i as int);
                }
                return Some(&self.entries[i].1);
            }
            i = i + 1;
        }
        proof {
            lemma_first_layer(self.entries@, key, i as int);
        }
        None
    }

    /// Keeps a layer for a key, unless one is there already.
    pub fn keep(&mut self, key: LayerKey, layer: V)
        ensures
            final(self).layer(key) == (match old(self).layer(key) {
                Some(kept) => Some(kept),
                None => Some(layer),
            }),
            forall|other: LayerKey|
                other != key ==> #[trigger] final(self).layer(other) == old(self).layer(other),
    {
        let there = self.get(key).is_some();
        if !there {
            let ghost before = self.entries@;
            self.entries.push((key, layer));
            proof {
                assert(self.entries@.drop_last() =~= before);
            }
        }
    }
}

} // verus!
