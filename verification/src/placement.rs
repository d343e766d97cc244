//! Where the overlay goes: on which monitor, and at which pixel.
//!
//! A position on a monitor is given as a pair of ratios of the free space,
//! the space that is left of the monitor when the overlay's size is taken
//! off. The ratio 0 puts the overlay at the monitor's left or top edge, the
//! ratio 1 at its right or bottom edge.

use crate::pointer::Point;
use crate::rational::{
    clamp_i32, clamp_u32, lemma_round_half_away_is_nearest, lemma_round_half_away_whole,
    round_div, round_half_away, saturate_i32, saturate_u32, Rational, Scale,
};
use crate::sizing::{PhysicalSize, TARGET_HEIGHT_LOGICAL, TARGET_WIDTH_LOGICAL};
use vstd::prelude::*;

verus! {

/// A monitor as the window system describes it: its name, if it has one, the
/// position of its top left corner on the virtual screen, its size in
/// physical pixels, and its scale factor.
#[derive(Clone, Debug, PartialEq, Eq)]
pub struct Monitor {
    pub name: Option<String>,
    pub x: i32,
    pub y: i32,
    pub width: u32,
    pub height: u32,
    pub scale: Scale,
}

/// A size and a position for the overlay, in physical pixels.
#[derive(Clone, Copy, Debug, PartialEq, Eq, Structural)]
pub struct Placement {
    pub width: u32,
    pub height: u32,
    pub x: i32,
    pub y: i32,
}

/// A position as a pair of ratios of the free space, first across, then down.
#[derive(Clone, Copy, Debug, PartialEq, Eq, Structural)]
pub struct RelativePosition {
    pub rx: Rational,
    pub ry: Rational,
}

/// A monitor picked for the overlay: one of the enumerated monitors, by its
/// index, or the primary monitor.
#[derive(Clone, Copy, Debug, PartialEq, Eq, Structural)]
pub enum MonitorChoice {
    Listed(usize),
    Primary,
}

/// What restoring a saved position does to the window.
#[derive(Clone, Copy, Debug, PartialEq, Eq, Structural)]
pub enum RestorePlan {
    /// Resize the window and put it at a place on the chosen monitor.
    Place(Placement),
    /// Move the window to a point of the virtual screen; its size stays.
    MoveTo(Point),
}

impl RelativePosition {
    pub open spec fn wf(self) -> bool {
        self.rx.wf() && self.ry.wf()
    }

    /// The place that is taken when none is given: the top right corner.
    pub open spec fn spec_top_right() -> RelativePosition {
        RelativePosition {
            rx: Rational { numer: 1, denom: 1 },
            ry: Rational { numer: 0, denom: 1 },
        }
    }

    pub fn top_right() -> (r: RelativePosition)
        ensures
            r == Self::spec_top_right(),
            r.wf(),
    {
        RelativePosition { rx: Rational::whole(1), ry: Rational::whole(0) }
    }
}

impl Monitor {
    pub open spec fn wf(self) -> bool {
        self.scale.wf()
    }

    /// The name by which a monitor is found and announced; a monitor without
    /// a name goes by the empty name.
    pub open spec fn label(self) -> Seq<char> {
        match self.name {
            Some(name) => name@,
            None => Seq::<char>::empty(),
        }
    }

    /// Whether the monitor goes by the given name.
    pub fn has_label(&self, name: &String) -> (b: bool)
        ensures
            b == (self.label() == name@),
    {
        match &self.name {
            Some(own) => *own == *name,
            None => {
                let empty: bool = name.as_str().is_empty();
                assert(empty == (Seq::<char>::empty() =~= name@));
                empty
            },
        }
    }

    /// The name to announce for this monitor.
    pub fn label_text(&self) -> (text: String)
        ensures
            text@ == self.label(),
    {
        match &self.name {
            Some(own) => own.clone(),
            None => String::new(),
        }
    }
}

/// The pixel nearest to `origin + (extent - window) * ratio`: the coordinate
/// of a window of length `window` on a monitor that begins at `origin` and is
/// `extent` long, at the given ratio of the free space.
pub open spec fn placed_coordinate(origin: int, extent: int, window: int, ratio: Rational) -> int {
    round_half_away(origin * ratio.denom + (extent - window) * ratio.numer, ratio.denom as int)
}

/// The overlay's size and position on a monitor. The size is the fixed
/// logical size at the monitor's scale, rounded to whole pixels. The position
/// is the given ratio of the free space, or the top right corner if no ratio
/// is given. What does not fit the range of a coordinate is brought to the
/// nearest value that does.
pub open spec fn spec_move_window_to_monitor(
    monitor: Monitor,
    relative: Option<RelativePosition>,
) -> Placement {
    let at = match relative {
        Some(r) => r,
        None => RelativePosition::spec_top_right(),
    };
    let w = monitor.scale.spec_to_physical(TARGET_WIDTH_LOGICAL as int);
    let h = monitor.scale.spec_to_physical(TARGET_HEIGHT_LOGICAL as int);
    Placement {
        width: saturate_u32(w) as u32,
        height: saturate_u32(h) as u32,
        x: saturate_i32(placed_coordinate(monitor.x as int, monitor.width as int, w, at.rx)) as i32,
        y: saturate_i32(
            placed_coordinate(monitor.y as int, monitor.height as int, h, at.ry),
        ) as i32,
    }
}

fn place_along(origin: i32, extent: u32, window: i128, ratio: Rational) -> (r: i32)
    requires
        ratio.wf(),
        0 <= window <= 0x100_0000_0000,
    ensures
        r == saturate_i32(placed_coordinate(origin as int, extent as int, window as int, ratio)),
{
    let space: i128 = extent as i128 - window;
    let denom: i128 = ratio.denom as i128;
    let numer: i128 = ratio.numer as i128;
    assert(-0x8000_0000 * 0x8000_0000_0000_0000 <= origin * denom <= 0x8000_0000
        * 0x8000_0000_0000_0000) by (nonlinear_arith)
        requires
            -0x8000_0000 <= origin <= 0x8000_0000,
            0 <= denom <= 0x8000_0000_0000_0000,
    ;
    assert(-0x100_0000_0000 * 0x8000_0000_0000_0000 <= space * numer <= 0x100_0000_0000
        * 0x8000_0000_0000_0000) by (nonlinear_arith)
        requires
            -0x100_0000_0000 <= space <= 0x100_0000_0000,
            -0x8000_0000_0000_0000 <= numer <= 0x8000_0000_0000_0000,
    ;
    let total: i128 = (origin as i128) * denom + space * numer;
    clamp_i32(round_div(total, denom))
}

/// Computes the overlay's size and position on `monitor`.
pub fn move_window_to_monitor(
    monitor: &Monitor,
    relative: Option<RelativePosition>,
) -> (p: Placement)
    requires
        monitor.wf(),
        relative matches Some(r) ==> r.wf(),
    ensures
        p == spec_move_window_to_monitor(*monitor, relative),
{
    let at: RelativePosition = match relative {
        Some(r) => r,
        None => RelativePosition::top_right(),
    };
    let w: i128 = monitor.scale.to_physical(TARGET_WIDTH_LOGICAL);
    let h: i128 = monitor.scale.to_physical(TARGET_HEIGHT_LOGICAL);
    assert(TARGET_WIDTH_LOGICAL * monitor.scale.numer <= 0x100_0000_0000) by (nonlinear_arith)
        requires
            TARGET_WIDTH_LOGICAL == 160,
            monitor.scale.numer <= 0xffff_ffff,
    ;
    assert(TARGET_HEIGHT_LOGICAL * monitor.scale.numer <= 0x100_0000_0000) by (nonlinear_arith)
        requires
            TARGET_HEIGHT_LOGICAL == 60,
            monitor.scale.numer <= 0xffff_ffff,
    ;
    Placement {
        width: clamp_u32(w),
        height: clamp_u32(h),
        x: place_along(monitor.x, monitor.width, w, at.rx),
        y: place_along(monitor.y, monitor.height, h, at.ry),
    }
}

/// The ratio at which a window of length `window` that begins at `position`
/// stands on a monitor that begins at `origin` and is `extent` long: its
/// offset on the monitor over the free space. Free space of less than one
/// pixel counts as one pixel.
pub open spec fn ratio_along(origin: int, extent: int, position: int, window: int) -> Rational {
    Rational {
        numer: (position - origin) as i64,
        denom: (if extent - window >= 1 {
            extent - window
        } else {
            1
        }) as i64,
    }
}

/// Where the window stands on the monitor it is on, as ratios of the free
/// space; nothing if the monitor, the window's position or its size is not
/// known.
pub open spec fn spec_get_current_relative_position(
    monitor: Option<Monitor>,
    position: Option<Point>,
    size: Option<PhysicalSize>,
) -> Option<RelativePosition> {
    match (monitor, position, size) {
        (Some(m), Some(p), Some(s)) => Some(
            RelativePosition {
                rx: ratio_along(m.x as int, m.width as int, p.x as int, s.width as int),
                ry: ratio_along(m.y as int, m.height as int, p.y as int, s.height as int),
            },
        ),
        _ => None,
    }
}

fn measure_along(origin: i32, extent: u32, position: i32, window: u32) -> (r: Rational)
    ensures
        r == ratio_along(origin as int, extent as int, position as int, window as int),
        r.wf(),
{
    let offset: i64 = position as i64 - origin as i64;
    let space: i64 = extent as i64 - window as i64;
    Rational {
        numer: offset,
        denom: if space >= 1 {
            space
        } else {
            1
        },
    }
}

/// Measures where the window stands on its monitor.
pub fn get_current_relative_position(
    monitor: Option<&Monitor>,
    position: Option<Point>,
    size: Option<PhysicalSize>,
) -> (r: Option<RelativePosition>)
    ensures
        r == spec_get_current_relative_position(
            match monitor {
                Some(m) => Some(*m),
                None => None,
            },
            position,
            size,
        ),
        r matches Some(at) ==> at.wf(),
{
    match (monitor, position, size) {
        (Some(m), Some(p), Some(s)) => Some(
            RelativePosition {
                rx: measure_along(m.x, m.width, p.x, s.width),
                ry: measure_along(m.y, m.height, p.y, s.height),
            },
        ),
        _ => None,
    }
}

/// Whether the monitor at `i` is the first that goes by `name`.
pub open spec fn first_labelled(monitors: Seq<Monitor>, name: Seq<char>, i: int) -> bool {
    &&& 0 <= i < monitors.len()
    &&& monitors[i].label() == name
    &&& forall|j: int| 0 <= j < i ==> (#[trigger] monitors[j]).label() != name
}

pub open spec fn none_labelled(monitors: Seq<Monitor>, name: Seq<char>) -> bool {
    forall|j: int| 0 <= j < monitors.len() ==> (#[trigger] monitors[j]).label() != name
}

/// Whether `choice` is the monitor to take: the first enumerated monitor
/// that goes by the saved name, if a name was saved and a monitor goes by
/// it; else the primary monitor, if there is one; else the first enumerated
/// monitor, if there is any; else none.
pub open spec fn resolves_to(
    monitors: Seq<Monitor>,
    has_primary: bool,
    saved_name: Option<Seq<char>>,
    choice: Option<MonitorChoice>,
) -> bool {
    if saved_name is Some && !none_labelled(monitors, saved_name->0) {
        choice matches Some(MonitorChoice::Listed(i)) && first_labelled(
            monitors,
            saved_name->0,
            i as int,
        )
    } else if has_primary {
        choice == Some(MonitorChoice::Primary)
    } else if monitors.len() > 0 {
        choice == Some(MonitorChoice::Listed(0))
    } else {
        choice is None
    }
}

/// The index of the first monitor that goes by `name`.
pub fn find_monitor(monitors: &Vec<Monitor>, name: &String) -> (r: Option<usize>)
    ensures
        match r {
            Some(i) => first_labelled(monitors@, name@, i as int),
            None => none_labelled(monitors@, name@),
        },
{
    let mut i: usize = 0;
    while i < monitors.len()
        invariant
            i <= monitors.len(),
            forall|j: int| 0 <= j < i ==> (#[trigger] monitors@[j]).label() != name@,
        decreases monitors.len() - i,
    {
        if monitors[i].has_label(name) {
            return Some(i);
        }
        i = i + 1;
    }
    None
}

/// Picks the monitor on which to restore the window.
pub fn resolve_monitor(
    monitors: &Vec<Monitor>,
    has_primary: bool,
    saved_name: Option<&String>,
) -> (choice: Option<MonitorChoice>)
    ensures
        resolves_to(
            monitors@,
            has_primary,
            match saved_name {
                Some(name) => Some(name@),
                None => None,
            },
            choice,
        ),
{
    if let Some(name) = saved_name {
        if let Some(i) = find_monitor(monitors, name) {
            return Some(MonitorChoice::Listed(i));
        }
    }
    if has_primary {
        Some(MonitorChoice::Primary)
    } else if monitors.len() > 0 {
        Some(MonitorChoice::Listed(0))
    } else {
        None
    }
}

/// A saved coordinate as a physical one: multiplied by the scale and rounded
/// to the nearest pixel.
pub open spec fn scaled_coordinate(saved: Rational, scale: Scale) -> int {
    round_half_away(saved.numer * scale.numer, saved.denom * scale.denom)
}

/// What to do with a saved position on the chosen monitor.
///
/// Two saved coordinates that both lie between -1 and 1 are ratios: the
/// window is placed at that ratio of the monitor's free space. Two saved
/// coordinates of which one lies outside are logical coordinates on the
/// virtual screen: the window is moved to them, multiplied by the monitor's
/// scale. With fewer than two saved coordinates the window is placed at the
/// top right corner of the monitor.
pub open spec fn spec_restore_plan(
    monitor: Monitor,
    saved_x: Option<Rational>,
    saved_y: Option<Rational>,
) -> RestorePlan {
    match (saved_x, saved_y) {
        (Some(x), Some(y)) => {
            if x.spec_within_unit() && y.spec_within_unit() {
                RestorePlan::Place(
                    spec_move_window_to_monitor(monitor, Some(RelativePosition { rx: x, ry: y })),
                )
            } else {
                RestorePlan::MoveTo(
                    Point {
                        x: saturate_i32(scaled_coordinate(x, monitor.scale)) as i32,
                        y: saturate_i32(scaled_coordinate(y, monitor.scale)) as i32,
                    },
                )
            }
        },
        _ => RestorePlan::Place(spec_move_window_to_monitor(monitor, None)),
    }
}

fn scale_saved(saved: Rational, scale: Scale) -> (r: i32)
    requires
        saved.wf(),
        scale.wf(),
    ensures
        r == saturate_i32(scaled_coordinate(saved, scale)),
{
    let n: i128 = saved.numer as i128;
    let d: i128 = saved.denom as i128;
    let sn: i128 = scale.numer as i128;
    let sd: i128 = scale.denom as i128;
    assert(-0x8000_0000_0000_0000 * 0x1_0000_0000 <= n * sn <= 0x8000_0000_0000_0000
        * 0x1_0000_0000) by (nonlinear_arith)
        requires
            -0x8000_0000_0000_0000 <= n <= 0x8000_0000_0000_0000,
            0 <= sn <= 0x1_0000_0000,
    ;
    assert(0 < d * sd <= 0x8000_0000_0000_0000 * 0x1_0000_0000) by (nonlinear_arith)
        requires
            0 < d <= 0x8000_0000_0000_0000,
            0 < sd <= 0x1_0000_0000,
    ;
    clamp_i32(round_div(n * sn, d * sd))
}

/// Decides what to do with a saved position on the chosen monitor.
pub fn restore_plan(
    monitor: &Monitor,
    saved_x: Option<Rational>,
    saved_y: Option<Rational>,
) -> (plan: RestorePlan)
    requires
        monitor.wf(),
        saved_x matches Some(x) ==> x.wf(),
        saved_y matches Some(y) ==> y.wf(),
    ensures
        plan == spec_restore_plan(*monitor, saved_x, saved_y),
{
    match (saved_x, saved_y) {
        (Some(x), Some(y)) => {
            if x.within_unit() && y.within_unit() {
                RestorePlan::Place(
                    move_window_to_monitor(monitor, Some(RelativePosition { rx: x, ry: y })),
                )
            } else {
                RestorePlan::MoveTo(
                    Point { x: scale_saved(x, monitor.scale), y: scale_saved(y, monitor.scale) },
                )
            }
        },
        _ => RestorePlan::Place(move_window_to_monitor(monitor, None)),
    }
}

/// The monitor that a choice stands for.
pub open spec fn chosen_monitor(
    monitors: Seq<Monitor>,
    primary: Option<Monitor>,
    choice: MonitorChoice,
) -> Monitor {
    match choice {
        MonitorChoice::Listed(i) => monitors[i as int],
        MonitorChoice::Primary => primary->0,
    }
}

/// Restores the window from what was saved: picks the monitor, then decides
/// what to do with the saved position on it. Without any monitor nothing is
/// done. After the plan is carried out, the window's size is to be checked
/// once more against the fixed logical size.
pub fn restore_window(
    monitors: &Vec<Monitor>,
    primary: Option<&Monitor>,
    saved_name: Option<&String>,
    saved_x: Option<Rational>,
    saved_y: Option<Rational>,
) -> (r: Option<(MonitorChoice, RestorePlan)>)
    requires
        forall|i: int| 0 <= i < monitors.len() ==> (#[trigger] monitors[i]).wf(),
        primary matches Some(m) ==> m.wf(),
        saved_x matches Some(x) ==> x.wf(),
        saved_y matches Some(y) ==> y.wf(),
    ensures
        resolves_to(
            monitors@,
            primary is Some,
            match saved_name {
                Some(name) => Some(name@),
                None => None,
            },
            match r {
                Some((choice, _)) => Some(choice),
                None => None,
            },
        ),
        r matches Some((choice, plan)) ==> plan == spec_restore_plan(
            chosen_monitor(
                monitors@,
                match primary {
                    Some(m) => Some(*m),
                    None => None,
                },
                choice,
            ),
            saved_x,
            saved_y,
        ),
{
    match resolve_monitor(monitors, primary.is_some(), saved_name) {
        None => None,
        Some(MonitorChoice::Listed(i)) => {
            assert(monitors[i as int].wf());
            Some((MonitorChoice::Listed(i), restore_plan(&monitors[i], saved_x, saved_y)))
        },
        Some(MonitorChoice::Primary) => {
            match primary {
                Some(m) => Some((MonitorChoice::Primary, restore_plan(m, saved_x, saved_y))),
                None => None,
            }
        },
    }
}

/// The placed coordinate is the pixel nearest to the exact place: it is off
/// by at most half a pixel.
pub proof fn lemma_placed_is_nearest(origin: int, extent: int, window: int, ratio: Rational)
    requires
        ratio.wf(),
    ensures
        ({
            let exact = origin * ratio.denom + (extent - window) * ratio.numer;
            let placed = placed_coordinate(origin, extent, window, ratio);
            &&& 2 * (placed * ratio.denom - exact) <= ratio.denom
            &&& 2 * (exact - placed * ratio.denom) <= ratio.denom
        }),
{
    lemma_round_half_away_is_nearest(
        origin * ratio.denom + (extent - window) * ratio.numer,
        ratio.denom as int,
    );
}

/// The ratio one half is the midpoint of the free space: twice the offset
/// from the monitor's origin differs from the free space by at most one.
pub proof fn lemma_half_is_midpoint(origin: int, extent: int, window: int)
    ensures
        ({
            let placed = placed_coordinate(
                origin,
                extent,
                window,
                Rational { numer: 1, denom: 2 },
            );
            -1 <= 2 * (placed - origin) - (extent - window) <= 1
        }),
{
    lemma_placed_is_nearest(origin, extent, window, Rational { numer: 1, denom: 2 });
}

/// The ratio 0 is the monitor's origin, the ratio 1 the far end of the free
/// space.
pub proof fn lemma_ends_of_free_space(origin: int, extent: int, window: int)
    ensures
        placed_coordinate(origin, extent, window, Rational { numer: 0, denom: 1 }) == origin,
        placed_coordinate(origin, extent, window, Rational { numer: 1, denom: 1 }) == origin
            + extent - window,
{
    lemma_round_half_away_whole(origin, 1);
    lemma_round_half_away_whole(origin + extent - window, 1);
}

/// With room to spare and a ratio between 0 and 1 the window lies on the
/// monitor.
pub proof fn lemma_placed_on_monitor(origin: int, extent: int, window: int, ratio: Rational)
    requires
        ratio.wf(),
        0 <= ratio.numer <= ratio.denom,
        window <= extent,
    ensures
        origin <= placed_coordinate(origin, extent, window, ratio) <= origin + extent - window,
{
    let d = ratio.denom as int;
    let n = ratio.numer as int;
    let space = extent - window;
    let placed = placed_coordinate(origin, extent, window, ratio);
    lemma_placed_is_nearest(origin, extent, window, ratio);
    assert(0 <= space * n <= space * d) by (nonlinear_arith)
        requires
            0 <= n <= d,
            0 <= space,
    ;
    assert(placed * d - origin * d == (placed - origin) * d) by (nonlinear_arith);
    assert(placed - origin >= 0) by (nonlinear_arith)
        requires
            d > 0,
            2 * (space * n - (placed - origin) * d) <= d,
            0 <= space * n,
    ;
    assert((placed - origin) * d - space * d == (placed - origin - space) * d)
        by (nonlinear_arith);
    assert(placed - origin - space <= 0) by (nonlinear_arith)
        requires
            d > 0,
            2 * ((placed - origin - space) * d + space * d - space * n) <= d,
            space * n <= space * d,
    ;
}

/// Measuring a window's place and placing a window of the same length there
/// gives the position back, as long as the monitor has free space.
pub proof fn lemma_measure_then_place(origin: int, extent: int, position: int, window: int)
    requires
        extent - window >= 1,
        i64::MIN <= position - origin <= i64::MAX,
        extent - window <= i64::MAX,
    ensures
        placed_coordinate(origin, extent, window, ratio_along(origin, extent, position, window))
            == position,
{
    let space = extent - window;
    let ratio = ratio_along(origin, extent, position, window);
    assert(ratio.denom == space);
    assert(ratio.numer == position - origin);
    assert(origin * space + space * (position - origin) == position * space)
        by (nonlinear_arith);
    lemma_round_half_away_whole(position, space);
}

} // verus!
