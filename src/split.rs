use vstd::prelude::*;

use crate::geometry::{Point, Rect, Size};

verus! {

/// Ratios are fixed-point fractions: `RATIO_SCALE` stands for the whole extent.
pub const RATIO_SCALE: u32 = 10000;

/// The smallest ratio a split widget lays out or reports while dragging.
pub const SPLIT_MIN_RATIO: u32 = 1000;

/// The largest ratio a split widget lays out or reports while dragging.
pub const SPLIT_MAX_RATIO: u32 = 9000;

/// Width in pixels of the divider band that starts a drag (and that is drawn).
pub const DRAG_HANDLE_THICKNESS: u32 = 5;

/// Width in pixels of the divider band that shows a resize cursor.
pub const CURSOR_HANDLE_THICKNESS: u32 = 10;

/// Minimum size, along the split axis, given to each child unless set otherwise.
pub const DEFAULT_MIN_SIZE: u16 = 50;

pub open spec fn clamp(v: int, lo: int, hi: int) -> int {
    if v < lo {
        lo
    } else if v > hi {
        hi
    } else {
        v
    }
}

pub open spec fn in_split_band(r: int) -> bool {
    SPLIT_MIN_RATIO <= r <= SPLIT_MAX_RATIO
}

/// The abstract state of a split widget.
pub struct SplitSpec {
    /// `true`: first child above the second; `false`: first child left of the second.
    pub horizontal: bool,
    pub ratio: int,
    pub min_first: int,
    pub min_second: int,
}

/// A two-pane split: how the available space is divided between two children,
/// and how pointer input on the divider between them changes that division.
pub struct ResizableSplit {
    is_horizontal: bool,
    ratio: u32,
    min_size: (u16, u16),
}

impl View for ResizableSplit {
    type V = SplitSpec;

    closed spec fn view(&self) -> SplitSpec {
        SplitSpec {
            horizontal: self.is_horizontal,
            ratio: self.ratio as int,
            min_first: self.min_size.0 as int,
            min_second: self.min_size.1 as int,
        }
    }
}

/// Lower and upper bounds on the size of a child.
#[derive(Clone, Copy, Debug, PartialEq, Eq, Structural)]
pub struct Limits {
    pub min: Size,
    pub max: Size,
}

/// The outcome of laying out a split: its own size, the limits handed to each
/// child, and where each child is placed relative to the split's origin.
#[derive(Clone, Copy, Debug, PartialEq, Eq, Structural)]
pub struct SplitLayout {
    pub size: Size,
    pub first_limits: Limits,
    pub second_limits: Limits,
    pub first_origin: Point,
    pub second_origin: Point,
}

/// The extent of `s` along the split axis.
pub open spec fn along(s: Size, horizontal: bool) -> int {
    if horizontal {
        s.height as int
    } else {
        s.width as int
    }
}

/// The extent of `s` across the split axis.
pub open spec fn across(s: Size, horizontal: bool) -> int {
    if horizontal {
        s.width as int
    } else {
        s.height as int
    }
}

/// The part of `extent` given to the first child: `floor(extent * ratio)`.
pub open spec fn first_extent(extent: int, ratio: int) -> int {
    extent * ratio / RATIO_SCALE as int
}

/// What laying out `s` within `max` produces.
pub open spec fn lays_out(s: SplitSpec, max: Size, l: SplitLayout) -> bool {
    let h = s.horizontal;
    let first = first_extent(along(max, h), s.ratio);
    &&& l.size == max
    &&& along(l.first_limits.max, h) == first
    &&& along(l.second_limits.max, h) == along(max, h) - first
    &&& along(l.first_limits.min, h) == s.min_first
    &&& along(l.second_limits.min, h) == s.min_second
    &&& across(l.first_limits.max, h) == across(max, h)
    &&& across(l.second_limits.max, h) == across(max, h)
    &&& across(l.first_limits.min, h) == 0
    &&& across(l.second_limits.min, h) == 0
    &&& l.first_origin == (Point { x: 0, y: 0 })
    &&& l.second_origin == (if h {
        Point { x: 0, y: first as i64 }
    } else {
        Point { x: first as i64, y: 0 }
    })
}

/// `floor(extent * ratio)`, for a ratio of at most one.
pub fn first_part(extent: u32, ratio: u32) -> (r: u32)
    requires
        ratio <= RATIO_SCALE,
    ensures
        r == first_extent(extent as int, ratio as int),
        r <= extent,
{
    proof {
        assert((extent as int) * (ratio as int) <= (extent as int) * 10000) by (nonlinear_arith)
            requires
                ratio <= 10000,
                extent >= 0,
        ;
        assert((extent as int) * (ratio as int) / 10000 <= extent as int) by (nonlinear_arith)
            requires
                (extent as int) * (ratio as int) <= (extent as int) * 10000,
        ;
    }
    let product: u64 = extent as u64 * ratio as u64;
    (product / RATIO_SCALE as u64) as u32
}

impl ResizableSplit {
    #[verifier::type_invariant]
    spec fn ratio_in_band(self) -> bool {
        in_split_band(self.ratio as int)
    }

    /// A left/right split with the given ratio, clamped into the split band,
    /// and the default minimum child sizes.
    pub fn new(ratio: u32) -> (r: ResizableSplit)
        ensures
            r@ == (SplitSpec {
                horizontal: false,
                ratio: clamp(ratio as int, SPLIT_MIN_RATIO as int, SPLIT_MAX_RATIO as int),
                min_first: DEFAULT_MIN_SIZE as int,
                min_second: DEFAULT_MIN_SIZE as int,
            }),
    {
        let clamped: u32 = if ratio < SPLIT_MIN_RATIO {
            SPLIT_MIN_RATIO
        } else if ratio > SPLIT_MAX_RATIO {
            SPLIT_MAX_RATIO
        } else {
            ratio
        };
        ResizableSplit {
            is_horizontal: false,
            ratio: clamped,
            min_size: (DEFAULT_MIN_SIZE, DEFAULT_MIN_SIZE),
        }
    }

    /// The same split, with the first child above the second.
    pub fn horizontal(self) -> (r: ResizableSplit)
        ensures
            r@ == (SplitSpec { horizontal: true, ..self@ }),
    {
        proof {
            use_type_invariant(&self);
        }
        let mut s = self;
        s.is_horizontal = true;
        s
    }

    /// The same split, with the given minimum sizes for the first and second child.
    pub fn min_size(self, first: u16, second: u16) -> (r: ResizableSplit)
        ensures
            r@ == (SplitSpec { min_first: first as int, min_second: second as int, ..self@ }),
    {
        proof {
            use_type_invariant(&self);
        }
        let mut s = self;
        s.min_size = (first, second);
        s
    }

    pub fn is_horizontal(&self) -> (r: bool)
        ensures
            r == self@.horizontal,
    {
        self.is_horizontal
    }

    /// The ratio the split lays out with; it always lies in the split band.
    pub fn ratio(&self) -> (r: u32)
        ensures
            r == self@.ratio,
            in_split_band(r as int),
    {
        proof {
            use_type_invariant(self);
        }
        self.ratio
    }

    pub fn min_sizes(&self) -> (r: (u16, u16))
        ensures
            r.0 == self@.min_first,
            r.1 == self@.min_second,
    {
        self.min_size
    }

    /// Divides `max` along the split axis: the first child may grow up to
    /// `floor(extent * ratio)`, the second up to the rest; the second child
    /// starts where the first one's share ends.
    pub fn layout(&self, max: Size) -> (r: SplitLayout)
        ensures
            lays_out(self@, max, r),
            in_split_band(self@.ratio),
    {
        proof {
            use_type_invariant(self);
        }
        let h = self.is_horizontal;
        let extent: u32 = if h {
            max.height
        } else {
            max.width
        };
        let first = first_part(extent, self.ratio);
        let second = extent - first;
        let min_first = self.min_size.0 as u32;
        let min_second = self.min_size.1 as u32;
        if h {
            SplitLayout {
                size: max,
                first_limits: Limits {
                    min: Size { width: 0, height: min_first },
                    max: Size { width: max.width, height: first },
                },
                second_limits: Limits {
                    min: Size { width: 0, height: min_second },
                    max: Size { width: max.width, height: second },
                },
                first_origin: Point { x: 0, y: 0 },
                second_origin: Point { x: 0, y: first as i64 },
            }
        } else {
            SplitLayout {
                size: max,
                first_limits: Limits {
                    min: Size { width: min_first, height: 0 },
                    max: Size { width: first, height: max.height },
                },
                second_limits: Limits {
                    min: Size { width: min_second, height: 0 },
                    max: Size { width: second, height: max.height },
                },
                first_origin: Point { x: 0, y: 0 },
                second_origin: Point { x: first as i64, y: 0 },
            }
        }
    }
}

/// Where the first child ends along the split axis: the divider's centre line.
pub open spec fn boundary(horizontal: bool, first: Rect) -> int {
    if horizontal {
        first.y + first.height
    } else {
        first.x + first.width
    }
}

/// Whether `p` lies in the divider band: `thickness` pixels wide, centred on
/// the boundary after `first`, and spanning the split's whole cross extent.
/// Coordinates are doubled so that a band of odd thickness is exact.
pub open spec fn on_divider(horizontal: bool, bounds: Rect, first: Rect, thickness: int, p: Point) -> bool {
    let b = boundary(horizontal, first);
    if horizontal {
        &&& bounds.x <= p.x < bounds.x + bounds.width
        &&& 2 * b - thickness <= 2 * p.y < 2 * b + thickness
    } else {
        &&& bounds.y <= p.y < bounds.y + bounds.height
        &&& 2 * b - thickness <= 2 * p.x < 2 * b + thickness
    }
}

/// The cursor a split asks for.
#[derive(Clone, Copy, Debug, PartialEq, Eq, Structural)]
pub enum Interaction {
    /// Over the divider of a top/bottom split.
    ResizingVertically,
    /// Over the divider of a left/right split.
    ResizingHorizontally,
    /// Elsewhere: whichever cursor the children ask for.
    FromChildren,
}

pub open spec fn interaction_for(
    horizontal: bool,
    bounds: Rect,
    first: Option<Rect>,
    cursor: Option<Point>,
) -> Interaction {
    match (first, cursor) {
        (Some(f), Some(p)) => if on_divider(horizontal, bounds, f, CURSOR_HANDLE_THICKNESS as int, p) {
            if horizontal {
                Interaction::ResizingVertically
            } else {
                Interaction::ResizingHorizontally
            }
        } else {
            Interaction::FromChildren
        },
        _ => Interaction::FromChildren,
    }
}

/// The ratio that a pointer at `p` asks for while dragging: its offset from
/// the split's origin over the split's extent, clamped into the split band.
/// An offset at or before the origin gives the smallest ratio; a positive
/// offset over an empty extent gives the largest.
pub open spec fn drag_ratio(horizontal: bool, bounds: Rect, p: Point) -> int {
    let offset = if horizontal {
        p.y - bounds.y
    } else {
        p.x - bounds.x
    };
    let extent = if horizontal {
        bounds.height as int
    } else {
        bounds.width as int
    };
    if offset <= 0 {
        SPLIT_MIN_RATIO as int
    } else if extent == 0 {
        SPLIT_MAX_RATIO as int
    } else {
        clamp(offset * RATIO_SCALE / extent, SPLIT_MIN_RATIO as int, SPLIT_MAX_RATIO as int)
    }
}

/// Whether a split is following the pointer.
#[derive(Clone, Copy, Debug, PartialEq, Eq, Structural)]
pub enum DragState {
    Idle,
    Dragging,
}

impl Default for DragState {
    fn default() -> (r: DragState)
        ensures
            r == DragState::Idle,
    {
        DragState::Idle
    }
}

/// The pointer events a split reacts to; everything else is `Other`.
#[derive(Clone, Copy, Debug, PartialEq, Eq, Structural)]
pub enum MouseEvent {
    LeftPressed,
    LeftReleased,
    CursorMoved,
    Other,
}

/// What a split does with an event.
#[derive(Clone, Copy, Debug, PartialEq, Eq, Structural)]
pub enum EventOutcome {
    /// The event is consumed and the split asks to be resized to this ratio.
    Resize(u32),
    /// The event is consumed.
    Captured,
    /// The event goes on to the first child, then, unless it consumes it, to the second.
    Forward,
}

/// One step of the drag state machine. Pointer logic applies only once the
/// first child has been laid out (`first` is its bounds).
pub open spec fn event_step(
    horizontal: bool,
    state: DragState,
    event: MouseEvent,
    bounds: Rect,
    first: Option<Rect>,
    cursor: Option<Point>,
) -> (DragState, EventOutcome) {
    match first {
        None => (state, EventOutcome::Forward),
        Some(f) => match event {
            MouseEvent::LeftPressed => match cursor {
                Some(p) => if on_divider(horizontal, bounds, f, DRAG_HANDLE_THICKNESS as int, p) {
                    (DragState::Dragging, EventOutcome::Captured)
                } else {
                    (state, EventOutcome::Forward)
                },
                None => (state, EventOutcome::Forward),
            },
            MouseEvent::CursorMoved => match (state, cursor) {
                (DragState::Dragging, Some(p)) => (
                    state,
                    EventOutcome::Resize(drag_ratio(horizontal, bounds, p) as u32),
                ),
                _ => (state, EventOutcome::Forward),
            },
            MouseEvent::LeftReleased => match state {
                DragState::Dragging => (DragState::Idle, EventOutcome::Captured),
                DragState::Idle => (state, EventOutcome::Forward),
            },
            MouseEvent::Other => (state, EventOutcome::Forward),
        },
    }
}

/// The drag state a rebuilt split starts from: the one kept for it, if any.
pub open spec fn reconciled(kept: Option<DragState>) -> DragState {
    match kept {
        Some(s) => s,
        None => DragState::Idle,
    }
}

/// How many child trees must be created for a split whose tree holds
/// `existing` of them: both when there are none, the second when only the
/// first exists, none otherwise.
pub open spec fn child_trees_missing(existing: int) -> int {
    if existing == 0 {
        2
    } else if existing == 1 {
        1
    } else {
        0
    }
}

impl ResizableSplit {
    /// Whether `p` lies in the divider band of the given thickness.
    pub fn hits_divider(&self, bounds: Rect, first: Rect, thickness: u32, p: Point) -> (r: bool)
        ensures
            r == on_divider(self@.horizontal, bounds, first, thickness as int, p),
    {
        let t: i128 = thickness as i128;
        if self.is_horizontal {
            let b: i128 = first.y as i128 + first.height as i128;
            let right: i128 = bounds.x as i128 + bounds.width as i128;
            let py: i128 = 2 * (p.y as i128);
            bounds.x <= p.x && (p.x as i128) < right && 2 * b - t <= py && py < 2 * b + t
        } else {
            let b: i128 = first.x as i128 + first.width as i128;
            let bottom: i128 = bounds.y as i128 + bounds.height as i128;
            let px: i128 = 2 * (p.x as i128);
            bounds.y <= p.y && (p.y as i128) < bottom && 2 * b - t <= px && px < 2 * b + t
        }
    }

    /// The cursor to show: a resize cursor over the divider band, otherwise
    /// the children's choice.
    pub fn mouse_interaction(&self, bounds: Rect, first: Option<Rect>, cursor: Option<Point>) -> (r: Interaction)
        ensures
            r == interaction_for(self@.horizontal, bounds, first, cursor),
    {
        match (first, cursor) {
            (Some(f), Some(p)) => {
                if self.hits_divider(bounds, f, CURSOR_HANDLE_THICKNESS, p) {
                    if self.is_horizontal {
                        Interaction::ResizingVertically
                    } else {
                        Interaction::ResizingHorizontally
                    }
                } else {
                    Interaction::FromChildren
                }
            },
            _ => Interaction::FromChildren,
        }
    }

    /// The ratio asked for by a drag to `p` within `bounds`.
    pub fn drag_ratio(&self, bounds: Rect, p: Point) -> (r: u32)
        ensures
            r == drag_ratio(self@.horizontal, bounds, p),
            in_split_band(r as int),
    {
        let (offset, extent): (i128, i128) = if self.is_horizontal {
            (p.y as i128 - bounds.y as i128, bounds.height as i128)
        } else {
            (p.x as i128 - bounds.x as i128, bounds.width as i128)
        };
        if offset <= 0 {
            SPLIT_MIN_RATIO
        } else if extent == 0 {
            SPLIT_MAX_RATIO
        } else {
            proof {
                assert(offset * 10000 <= 0x1_0000_0000_0000_0000 * 10000) by (nonlinear_arith)
                    requires
                        0 < offset <= 0x1_0000_0000_0000_0000,
                ;
            }
            let q: i128 = offset * (RATIO_SCALE as i128) / extent;
            if q < SPLIT_MIN_RATIO as i128 {
                SPLIT_MIN_RATIO
            } else if q > SPLIT_MAX_RATIO as i128 {
                SPLIT_MAX_RATIO
            } else {
                q as u32
            }
        }
    }

    /// Handles one event, given the drag state kept for this split, its
    /// bounds, the bounds of its first child (if laid out) and the pointer
    /// position (if known). Returns the next drag state and what to do.
    pub fn on_event(
        &self,
        state: DragState,
        event: MouseEvent,
        bounds: Rect,
        first: Option<Rect>,
        cursor: Option<Point>,
    ) -> (r: (DragState, EventOutcome))
        ensures
            r == event_step(self@.horizontal, state, event, bounds, first, cursor),
    {
        match first {
            None => (state, EventOutcome::Forward),
            Some(f) => match event {
                MouseEvent::LeftPressed => match cursor {
                    Some(p) => {
                        if self.hits_divider(bounds, f, DRAG_HANDLE_THICKNESS, p) {
                            (DragState::Dragging, EventOutcome::Captured)
                        } else {
                            (state, EventOutcome::Forward)
                        }
                    },
                    None => (state, EventOutcome::Forward),
                },
                MouseEvent::CursorMoved => match (state, cursor) {
                    (DragState::Dragging, Some(p)) => {
                        let ratio = self.drag_ratio(bounds, p);
                        (state, EventOutcome::Resize(ratio))
                    },
                    _ => (state, EventOutcome::Forward),
                },
                MouseEvent::LeftReleased => match state {
                    DragState::Dragging => (DragState::Idle, EventOutcome::Captured),
                    DragState::Idle => (state, EventOutcome::Forward),
                },
                MouseEvent::Other => (state, EventOutcome::Forward),
            },
        }
    }

    /// The bar drawn over the divider: `DRAG_HANDLE_THICKNESS` pixels wide,
    /// starting half that (rounded down) before the boundary, across the
    /// split's whole cross extent.
    pub fn handle_rect(&self, bounds: Rect, first: Rect) -> (r: Rect)
        requires
            i64::MIN + 2 <= boundary(self@.horizontal, first) <= i64::MAX,
        ensures
            r == (if self@.horizontal {
                Rect {
                    x: bounds.x,
                    y: (boundary(true, first) - 2) as i64,
                    width: bounds.width,
                    height: DRAG_HANDLE_THICKNESS,
                }
            } else {
                Rect {
                    x: (boundary(false, first) - 2) as i64,
                    y: bounds.y,
                    width: DRAG_HANDLE_THICKNESS,
                    height: bounds.height,
                }
            }),
    {
        let half: i128 = (DRAG_HANDLE_THICKNESS / 2) as i128;
        if self.is_horizontal {
            let b: i128 = first.y as i128 + first.height as i128;
            Rect { x: bounds.x, y: (b - half) as i64, width: bounds.width, height: DRAG_HANDLE_THICKNESS }
        } else {
            let b: i128 = first.x as i128 + first.width as i128;
            Rect { x: (b - half) as i64, y: bounds.y, width: DRAG_HANDLE_THICKNESS, height: bounds.height }
        }
    }
}

/// The drag state of a rebuilt split: the one kept across the rebuild, or
/// `Idle` when none was kept.
pub fn reconcile(kept: Option<DragState>) -> (r: DragState)
    ensures
        r == reconciled(kept),
{
    match kept {
        Some(s) => s,
        None => DragState::Idle,
    }
}

/// How many child trees a split must create, given how many it has.
pub fn missing_child_trees(existing: usize) -> (r: usize)
    ensures
        r == child_trees_missing(existing as int),
{
    if existing == 0 {
        2
    } else if existing == 1 {
        1
    } else {
        0
    }
}

} // verus!
