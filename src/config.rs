use vstd::prelude::*;

verus! {

broadcast use vstd::string::to_string_from_display_ensures_for_str;

/// A configuration entry: its value and a human-readable description.
#[derive(Clone, Debug)]
pub struct ConfigValue<T> {
    pub value: T,
    pub description: String,
}

/// Animation timing. Durations are in milliseconds; the curves are cubic
/// bezier control points `[x1, y1, x2, y2]` in thousandths. Descriptions
/// speak of the configuration file, which gives durations in seconds.
#[derive(Clone, Debug)]
pub struct AnimationConfig {
    pub expand_duration: ConfigValue<u64>,
    pub collapse_duration: ConfigValue<u64>,
    pub expand_timing: ConfigValue<Vec<i64>>,
    pub collapse_timing: ConfigValue<Vec<i64>>,
}

/// Capsule geometry, in milli-points.
#[derive(Clone, Debug)]
pub struct DimensionsConfig {
    pub corner_radius: ConfigValue<i64>,
    pub collapsed_width: ConfigValue<i64>,
    pub collapsed_height: ConfigValue<i64>,
    pub expanded_width: ConfigValue<i64>,
    pub expanded_height: ConfigValue<i64>,
}

/// Hover zones (milli-points) and the hover timing (milliseconds).
#[derive(Clone, Debug)]
pub struct HoverConfig {
    pub collapsed_zone_width: ConfigValue<i64>,
    pub collapsed_zone_height: ConfigValue<i64>,
    pub expanded_zone_width: ConfigValue<i64>,
    pub expanded_zone_height: ConfigValue<i64>,
    pub expand_delay_ms: ConfigValue<u64>,
    pub collapse_delay_ms: ConfigValue<u64>,
    pub poll_interval_ms: ConfigValue<u64>,
}

/// Placement of the capsule window among the system's window levels.
#[derive(Clone, Debug)]
pub struct WindowConfig {
    pub level_offset: ConfigValue<i32>,
}

/// The whole configuration snapshot.
#[derive(Clone, Debug)]
pub struct NotchConfig {
    pub animation: AnimationConfig,
    pub dimensions: DimensionsConfig,
    pub hover: HoverConfig,
    pub window: WindowConfig,
}

fn entry<T>(value: T, description: &str) -> (r: ConfigValue<T>)
    ensures
        r.value == value,
        r.description@ == description@,
{
    ConfigValue { value, description: description.to_string() }
}

/// The compiled-in configuration, used when no configuration file loads.
pub open spec fn is_default_config(c: NotchConfig) -> bool {
    &&& c.animation.expand_duration.value == 500
    &&& c.animation.expand_duration.description@
        == "Duration in seconds for the expand animation"@
    &&& c.animation.collapse_duration.value == 350
    &&& c.animation.collapse_duration.description@
        == "Duration in seconds for the collapse animation"@
    &&& c.animation.expand_timing.value@ == seq![160i64, 1000, 300, 1000]
    &&& c.animation.expand_timing.description@
        == "Cubic bezier control points for expand animation"@
    &&& c.animation.collapse_timing.value@ == seq![250i64, 100, 250, 1000]
    &&& c.animation.collapse_timing.description@
        == "Cubic bezier control points for collapse animation"@
    &&& c.dimensions.corner_radius.value == 12000
    &&& c.dimensions.corner_radius.description@ == "Corner radius in points"@
    &&& c.dimensions.collapsed_width.value == 460000
    &&& c.dimensions.collapsed_width.description@ == "Width when collapsed"@
    &&& c.dimensions.collapsed_height.value == 50000
    &&& c.dimensions.collapsed_height.description@ == "Height when collapsed"@
    &&& c.dimensions.expanded_width.value == 700000
    &&& c.dimensions.expanded_width.description@ == "Width when expanded"@
    &&& c.dimensions.expanded_height.value == 200000
    &&& c.dimensions.expanded_height.description@ == "Height when expanded"@
    &&& c.hover.collapsed_zone_width.value == 460000
    &&& c.hover.collapsed_zone_width.description@ == "Hover zone width when collapsed"@
    &&& c.hover.collapsed_zone_height.value == 50000
    &&& c.hover.collapsed_zone_height.description@ == "Hover zone height when collapsed"@
    &&& c.hover.expanded_zone_width.value == 700000
    &&& c.hover.expanded_zone_width.description@ == "Hover zone width when expanded"@
    &&& c.hover.expanded_zone_height.value == 200000
    &&& c.hover.expanded_zone_height.description@ == "Hover zone height when expanded"@
    &&& c.hover.expand_delay_ms.value == 250
    &&& c.hover.expand_delay_ms.description@
        == "Milliseconds to wait before expanding when hovering over the notch area"@
    &&& c.hover.collapse_delay_ms.value == 150
    &&& c.hover.collapse_delay_ms.description@
        == "Milliseconds to wait before collapsing when leaving the hover area"@
    &&& c.hover.poll_interval_ms.value == 50
    &&& c.hover.poll_interval_ms.description@ == "Mouse polling interval in milliseconds"@
    &&& c.window.level_offset.value == 3
    &&& c.window.level_offset.description@ == "Window level offset above main menu"@
}

impl Default for NotchConfig {
    fn default() -> (r: Self)
        ensures
            is_default_config(r),
    {
        NotchConfig {
            animation: AnimationConfig {
                expand_duration: entry(500, "Duration in seconds for the expand animation"),
                collapse_duration: entry(350, "Duration in seconds for the collapse animation"),
                expand_timing: entry(
                    vec![160, 1000, 300, 1000],
                    "Cubic bezier control points for expand animation",
                ),
                collapse_timing: entry(
                    vec![250, 100, 250, 1000],
                    "Cubic bezier control points for collapse animation",
                ),
            },
            dimensions: DimensionsConfig {
                corner_radius: entry(12000, "Corner radius in points"),
                collapsed_width: entry(460000, "Width when collapsed"),
                collapsed_height: entry(50000, "Height when collapsed"),
                expanded_width: entry(700000, "Width when expanded"),
                expanded_height: entry(200000, "Height when expanded"),
            },
            hover: HoverConfig {
                collapsed_zone_width: entry(460000, "Hover zone width when collapsed"),
                collapsed_zone_height: entry(50000, "Hover zone height when collapsed"),
                expanded_zone_width: entry(700000, "Hover zone width when expanded"),
                expanded_zone_height: entry(200000, "Hover zone height when expanded"),
                expand_delay_ms: entry(
                    250,
                    "Milliseconds to wait before expanding when hovering over the notch area",
                ),
                collapse_delay_ms: entry(
                    150,
                    "Milliseconds to wait before collapsing when leaving the hover area",
                ),
                poll_interval_ms: entry(50, "Mouse polling interval in milliseconds"),
            },
            window: WindowConfig {
                level_offset: entry(3, "Window level offset above main menu"),
            },
        }
    }
}

/// The first candidate that loaded, if any.
pub open spec fn first_loaded(cs: Seq<Option<NotchConfig>>) -> Option<NotchConfig>
    decreases cs.len(),
{
    if cs.len() == 0 {
        None
    } else if cs[0] is Some {
        cs[0]
    } else {
        first_loaded(cs.drop_first())
    }
}

impl NotchConfig {
    /// Picks the configuration from candidate sources in priority order (one
    /// entry per candidate location, `None` where nothing readable and
    /// parseable was found there): the first that loaded wins, and the
    /// compiled-in defaults stand in when none did.
    pub fn resolve(candidates: Vec<Option<NotchConfig>>) -> (r: NotchConfig)
        ensures
            first_loaded(candidates@) matches Some(c) ==> r == c,
            first_loaded(candidates@) is None ==> is_default_config(r),
    {
        let mut pending = candidates;
        let ghost all = pending@;
        let n = pending.len();
        let mut i: usize = 0;
        assert(all.subrange(0, n as int) =~= all);
        while i < n
            invariant
                pending@ == all,
                all == candidates@,
                n == all.len(),
                0 <= i <= n,
                first_loaded(all) == first_loaded(all.subrange(i as int, n as int)),
            decreases n - i,
        {
            assert(all.subrange(i as int + 1, n as int) =~= all.subrange(i as int, n as int).drop_first());
            if pending[i].is_some() {
                assert(all.subrange(i as int, n as int)[0] == all[i as int]);
                let found = pending.swap_remove(i);
                match found {
                    Some(c) => {
                        return c;
                    },
                    None => {},
                }
            }
            i = i + 1;
        }
        assert(all.subrange(n as int, n as int).len() == 0);
        NotchConfig::default()
    }
}

} // verus!
