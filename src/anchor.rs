use vstd::prelude::*;

use crate::geometry::{Point, Rect, Size};

verus! {

/// The corner of a floating surface that is pinned to the same corner of its
/// trigger.
#[derive(Clone, Copy, Debug, PartialEq, Eq, Structural)]
pub enum AnchorCorner {
    TopLeft,
    TopRight,
    BottomLeft,
    BottomRight,
}

/// Where a floating surface goes: its top-left corner in window coordinates,
/// or a region docked inside the trigger's window, laid out by the host.
#[derive(Clone, Copy, Debug, PartialEq, Eq, Structural)]
pub enum Placement {
    At(Point),
    Docked,
}

/// The corner `corner` of the box with top-left `(x, y)` and extent `(w, h)`.
pub open spec fn corner_of(x: int, y: int, w: int, h: int, corner: AnchorCorner) -> (int, int) {
    match corner {
        AnchorCorner::TopLeft => (x, y),
        AnchorCorner::TopRight => (x + w, y),
        AnchorCorner::BottomLeft => (x, y + h),
        AnchorCorner::BottomRight => (x + w, y + h),
    }
}

/// The top-left corner that puts the surface's `corner` on the trigger's `corner`.
pub open spec fn anchored_origin(trigger: Rect, corner: AnchorCorner, surface: Size) -> Point {
    match corner {
        AnchorCorner::TopLeft => Point { x: trigger.x as i64, y: trigger.y as i64 },
        AnchorCorner::TopRight => Point {
            x: (trigger.x + trigger.width - surface.width) as i64,
            y: trigger.y as i64,
        },
        AnchorCorner::BottomLeft => Point {
            x: trigger.x as i64,
            y: (trigger.y + trigger.height - surface.height) as i64,
        },
        AnchorCorner::BottomRight => Point {
            x: (trigger.x + trigger.width - surface.width) as i64,
            y: (trigger.y + trigger.height - surface.height) as i64,
        },
    }
}

/// The window's origin, where a surface goes when its trigger has no usable bounds.
pub open spec fn window_origin() -> Point {
    Point { x: 0, y: 0 }
}

/// The placement of a surface anchored by `corner` to a trigger whose bounds
/// were queried as `trigger`.
pub open spec fn resolve_spec(
    trigger: Option<Rect>,
    corner: AnchorCorner,
    surface: Size,
    window_embedded: bool,
) -> Placement {
    if window_embedded {
        Placement::Docked
    } else {
        match trigger {
            Some(t) => if t.is_empty_spec() {
                Placement::At(window_origin())
            } else {
                Placement::At(anchored_origin(t, corner, surface))
            },
            None => Placement::At(window_origin()),
        }
    }
}

/// Places a surface of size `surface` against its trigger so that the
/// surface's `corner` coincides with the trigger's `corner`. A window-embedded
/// surface is docked instead; a trigger whose bounds are missing or empty
/// puts the surface at the window's origin.
pub fn resolve(trigger: Option<Rect>, corner: AnchorCorner, surface: Size, window_embedded: bool) -> (r:
    Placement)
    ensures
        r == resolve_spec(trigger, corner, surface, window_embedded),
{
    if window_embedded {
        return Placement::Docked;
    }
    match trigger {
        None => Placement::At(Point { x: 0, y: 0 }),
        Some(t) => {
            if t.is_empty() {
                return Placement::At(Point { x: 0, y: 0 });
            }
            let left = t.x as i64;
            let top = t.y as i64;
            let right = t.x as i64 + t.width as i64 - surface.width as i64;
            let bottom = t.y as i64 + t.height as i64 - surface.height as i64;
            let p = match corner {
                AnchorCorner::TopLeft => Point { x: left, y: top },
                AnchorCorner::TopRight => Point { x: right, y: top },
                AnchorCorner::BottomLeft => Point { x: left, y: bottom },
                AnchorCorner::BottomRight => Point { x: right, y: bottom },
            };
            Placement::At(p)
        },
    }
}

/// A context menu opened by the pointer ignores any anchor corner: its
/// top-left corner goes where the pointer was pressed, unless it is docked.
pub open spec fn pointer_placement_spec(pointer: Point, window_embedded: bool) -> Placement {
    if window_embedded {
        Placement::Docked
    } else {
        Placement::At(pointer)
    }
}

pub fn pointer_placement(pointer: Point, window_embedded: bool) -> (r: Placement)
    ensures
        r == pointer_placement_spec(pointer, window_embedded),
{
    if window_embedded {
        Placement::Docked
    } else {
        Placement::At(pointer)
    }
}

/// A submenu opens to the right of its row: the submenu's top-left corner
/// meets the row's top-right corner.
pub open spec fn submenu_placement_spec(row: Rect) -> Placement {
    Placement::At(Point { x: (row.x + row.width) as i64, y: row.y as i64 })
}

pub fn submenu_placement(row: Rect) -> (r: Placement)
    ensures
        r == submenu_placement_spec(row),
{
    Placement::At(Point { x: row.x as i64 + row.width as i64, y: row.y as i64 })
}

/// For each of the four corners and any trigger with usable bounds, the
/// surface's chosen corner lands exactly on the same corner of the trigger.
pub proof fn lemma_resolved_corner_meets_trigger(trigger: Rect, corner: AnchorCorner, surface: Size)
    requires
        !trigger.is_empty_spec(),
    ensures
        resolve_spec(Some(trigger), corner, surface, false) matches Placement::At(p) && corner_of(
            p.x as int,
            p.y as int,
            surface.width as int,
            surface.height as int,
            corner,
        ) == corner_of(
            trigger.x as int,
            trigger.y as int,
            trigger.width as int,
            trigger.height as int,
            corner,
        ),
{
}

} // verus!
