use vstd::prelude::*;

use crate::config::HoverConfig;
use crate::geometry::{COORD_LIMIT, Point, Rect, half_down};

verus! {

/// The first display, in the order given, whose frame holds `p`.
pub open spec fn first_display(displays: Seq<Rect>, p: Point) -> Option<Rect>
    decreases displays.len(),
{
    if displays.len() == 0 {
        None
    } else if displays[0].holds(p) {
        Some(displays[0])
    } else {
        first_display(displays.drop_first(), p)
    }
}

/// The zone's width for the given mode.
pub open spec fn zone_width(expanded: bool, hover: HoverConfig) -> i64 {
    if expanded {
        hover.expanded_zone_width.value
    } else {
        hover.collapsed_zone_width.value
    }
}

/// The zone's height for the given mode.
pub open spec fn zone_height(expanded: bool, hover: HoverConfig) -> i64 {
    if expanded {
        hover.expanded_zone_height.value
    } else {
        hover.collapsed_zone_height.value
    }
}

/// A `width` x `height` rectangle, centred horizontally in `frame` (rounded
/// down to the milli-point) with its top edge on the frame's top edge.
pub open spec fn top_centered(frame: Rect, width: i64, height: i64) -> Rect {
    Rect {
        x: (frame.x + (frame.width - width) / 2) as i64,
        y: (frame.y + frame.height - height) as i64,
        width,
        height,
    }
}

/// The hover zone for a pointer: on the display that holds it, sized for the
/// current mode; none where no display holds the pointer.
pub open spec fn hover_zone(
    pointer: Point,
    expanded: bool,
    displays: Seq<Rect>,
    hover: HoverConfig,
) -> Option<Rect> {
    match first_display(displays, pointer) {
        Some(frame) => Some(
            top_centered(frame, zone_width(expanded, hover), zone_height(expanded, hover)),
        ),
        None => None,
    }
}

/// Whether the pointer counts as hovering: it lies in its hover zone.
pub open spec fn in_hover_zone(
    pointer: Point,
    expanded: bool,
    displays: Seq<Rect>,
    hover: HoverConfig,
) -> bool {
    match hover_zone(pointer, expanded, displays, hover) {
        Some(zone) => zone.holds(pointer),
        None => false,
    }
}

/// Every display frame is within the representable range.
pub open spec fn displays_valid(displays: Seq<Rect>) -> bool {
    forall|i: int| 0 <= i < displays.len() ==> #[trigger] displays[i].valid()
}

/// The configured zone sizes are within the representable range.
pub open spec fn zone_sizes_valid(hover: HoverConfig) -> bool {
    &&& 0 <= hover.collapsed_zone_width.value <= COORD_LIMIT
    &&& 0 <= hover.collapsed_zone_height.value <= COORD_LIMIT
    &&& 0 <= hover.expanded_zone_width.value <= COORD_LIMIT
    &&& 0 <= hover.expanded_zone_height.value <= COORD_LIMIT
}

/// Whether every display frame is within the representable range.
pub fn displays_in_range(displays: &Vec<Rect>) -> (r: bool)
    ensures
        r == displays_valid(displays@),
{
    let mut i: usize = 0;
    while i < displays.len()
        invariant
            0 <= i <= displays@.len(),
            forall|j: int| 0 <= j < i ==> #[trigger] displays@[j].valid(),
        decreases displays@.len() - i,
    {
        let d = displays[i];
        if !(-COORD_LIMIT <= d.x && d.x <= COORD_LIMIT && -COORD_LIMIT <= d.y && d.y <= COORD_LIMIT
            && 0 <= d.width && d.width <= COORD_LIMIT && 0 <= d.height && d.height
            <= COORD_LIMIT) {
            assert(!displays@[i as int].valid());
            return false;
        }
        i = i + 1;
    }
    true
}

/// Whether the configured zone sizes are within the representable range.
pub fn zone_sizes_in_range(hover: &HoverConfig) -> (r: bool)
    ensures
        r == zone_sizes_valid(*hover),
{
    let in_range = |v: i64| -> (r: bool)
        ensures
            r == (0 <= v <= COORD_LIMIT),
        { 0 <= v && v <= COORD_LIMIT };
    in_range(hover.collapsed_zone_width.value) && in_range(hover.collapsed_zone_height.value)
        && in_range(hover.expanded_zone_width.value) && in_range(hover.expanded_zone_height.value)
}

/// Finds the first display whose frame holds the pointer.
pub fn display_at(pointer: Point, displays: &Vec<Rect>) -> (r: Option<Rect>)
    ensures
        r == first_display(displays@, pointer),
{
    let n = displays.len();
    let mut i: usize = 0;
    assert(displays@.subrange(0, n as int) =~= displays@);
    while i < n
        invariant
            n == displays@.len(),
            0 <= i <= n,
            first_display(displays@, pointer) == first_display(
                displays@.subrange(i as int, n as int),
                pointer,
            ),
        decreases n - i,
    {
        assert(displays@.subrange(i as int + 1, n as int) =~= displays@.subrange(
            i as int,
            n as int,
        ).drop_first());
        if displays[i].contains(pointer) {
            return Some(displays[i]);
        }
        i = i + 1;
    }
    None
}

/// Computes the hover zone for a pointer sample and the current mode.
pub fn resolve_hover_zone(
    pointer: Point,
    expanded: bool,
    displays: &Vec<Rect>,
    hover: &HoverConfig,
) -> (r: Option<Rect>)
    requires
        displays_valid(displays@),
        zone_sizes_valid(*hover),
    ensures
        r == hover_zone(pointer, expanded, displays@, *hover),
{
    let frame = match display_at(pointer, displays) {
        Some(f) => f,
        None => {
            return None;
        },
    };
    proof {
        lemma_first_display_valid(displays@, pointer);
    }
    let (width, height) = if expanded {
        (hover.expanded_zone_width.value, hover.expanded_zone_height.value)
    } else {
        (hover.collapsed_zone_width.value, hover.collapsed_zone_height.value)
    };
    let half = half_down(frame.width - width);
    Some(Rect { x: frame.x + half, y: frame.y + frame.height - height, width, height })
}

proof fn lemma_first_display_valid(displays: Seq<Rect>, p: Point)
    requires
        displays_valid(displays),
    ensures
        first_display(displays, p) matches Some(f) ==> f.valid(),
    decreases displays.len(),
{
    if displays.len() > 0 {
        assert(displays[0].valid());
        if !displays[0].holds(p) {
            assert forall|i: int| 0 <= i < displays.drop_first().len() implies #[trigger] displays.drop_first()[i].valid() by {
                assert(displays[i + 1].valid());
            }
            lemma_first_display_valid(displays.drop_first(), p);
        }
    }
}

/// Whether the pointer lies in its hover zone for the current mode.
pub fn pointer_in_zone(
    pointer: Point,
    expanded: bool,
    displays: &Vec<Rect>,
    hover: &HoverConfig,
) -> (r: bool)
    requires
        displays_valid(displays@),
        zone_sizes_valid(*hover),
    ensures
        r == in_hover_zone(pointer, expanded, displays@, *hover),
{
    match resolve_hover_zone(pointer, expanded, displays, hover) {
        Some(zone) => zone.contains(pointer),
        None => false,
    }
}

/// The hover zone depends on its inputs alone: the same pointer, mode,
/// displays and configuration always give the same zone, or no zone.
pub proof fn hover_zone_is_pure(
    pointer: Point,
    expanded: bool,
    displays_a: Seq<Rect>,
    displays_b: Seq<Rect>,
    hover_a: HoverConfig,
    hover_b: HoverConfig,
)
    requires
        displays_a == displays_b,
        hover_a == hover_b,
    ensures
        hover_zone(pointer, expanded, displays_a, hover_a) == hover_zone(
            pointer,
            expanded,
            displays_b,
            hover_b,
        ),
        in_hover_zone(pointer, expanded, displays_a, hover_a) == in_hover_zone(
            pointer,
            expanded,
            displays_b,
            hover_b,
        ),
{
}

} // verus!
