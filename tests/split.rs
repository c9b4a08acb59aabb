use tnet_dispatcher::geometry::{Point, Rect, Size};
use tnet_dispatcher::split::{
    missing_child_trees, reconcile, DragState, EventOutcome, Interaction, MouseEvent, ResizableSplit,
    CURSOR_HANDLE_THICKNESS, DRAG_HANDLE_THICKNESS,
};

fn bounds() -> Rect {
    Rect { x: 0, y: 0, width: 1000, height: 600 }
}

fn first_box() -> Rect {
    Rect { x: 0, y: 0, width: 800, height: 600 }
}

fn at(x: i64, y: i64) -> Option<Point> {
    Some(Point { x, y })
}

#[test]
fn new_clamps_ratio_into_split_band() {
    assert_eq!(ResizableSplit::new(0).ratio(), 1000);
    assert_eq!(ResizableSplit::new(500).ratio(), 1000);
    assert_eq!(ResizableSplit::new(9500).ratio(), 9000);
    assert_eq!(ResizableSplit::new(u32::MAX).ratio(), 9000);
    assert_eq!(ResizableSplit::new(4321).ratio(), 4321);
}

#[test]
fn builders_set_axis_and_minimum_sizes() {
    let s = ResizableSplit::new(5000);
    assert!(!s.is_horizontal());
    assert_eq!(s.min_sizes(), (50, 50));
    let s = s.horizontal().min_size(10, 20);
    assert!(s.is_horizontal());
    assert_eq!(s.min_sizes(), (10, 20));
    assert_eq!(s.ratio(), 5000);
}

#[test]
fn end_to_end_width_1000_ratio_08() {
    let s = ResizableSplit::new(8000);
    let l = s.layout(Size { width: 1000, height: 600 });
    assert_eq!(l.size, Size { width: 1000, height: 600 });
    assert_eq!(l.first_limits.max, Size { width: 800, height: 600 });
    assert_eq!(l.second_limits.max, Size { width: 200, height: 600 });
    assert_eq!(l.first_limits.min, Size { width: 50, height: 0 });
    assert_eq!(l.second_limits.min, Size { width: 50, height: 0 });
    assert_eq!(l.first_origin, Point { x: 0, y: 0 });
    assert_eq!(l.second_origin, Point { x: 800, y: 0 });

    // The drag band is centred on x = 800 and 5 pixels wide: 797.5 .. 802.5.
    for x in 798..=802 {
        assert!(s.hits_divider(bounds(), first_box(), DRAG_HANDLE_THICKNESS, Point { x, y: 300 }));
    }
    assert!(!s.hits_divider(bounds(), first_box(), DRAG_HANDLE_THICKNESS, Point { x: 797, y: 300 }));
    assert!(!s.hits_divider(bounds(), first_box(), DRAG_HANDLE_THICKNESS, Point { x: 803, y: 300 }));

    let (state, outcome) = s.on_event(DragState::Idle, MouseEvent::LeftPressed, bounds(), Some(first_box()), at(800, 300));
    assert_eq!((state, outcome), (DragState::Dragging, EventOutcome::Captured));
    let (state, outcome) = s.on_event(state, MouseEvent::CursorMoved, bounds(), Some(first_box()), at(300, 300));
    assert_eq!(state, DragState::Dragging);
    assert_eq!(outcome, EventOutcome::Resize(3000));
}

#[test]
fn drag_to_negative_position_clamps_to_minimum() {
    let s = ResizableSplit::new(8000);
    let (state, outcome) = s.on_event(DragState::Dragging, MouseEvent::CursorMoved, bounds(), Some(first_box()), at(-50, 300));
    assert_eq!(state, DragState::Dragging);
    assert_eq!(outcome, EventOutcome::Resize(1000));
}

#[test]
fn drag_past_the_end_clamps_to_maximum() {
    let s = ResizableSplit::new(8000);
    assert_eq!(s.drag_ratio(bounds(), Point { x: 5000, y: 0 }), 9000);
    assert_eq!(s.drag_ratio(bounds(), Point { x: 950, y: 0 }), 9000);
    assert_eq!(s.drag_ratio(bounds(), Point { x: 0, y: 0 }), 1000);
    assert_eq!(s.drag_ratio(bounds(), Point { x: 455, y: 0 }), 4550);
}

#[test]
fn drag_ratio_uses_the_split_origin() {
    let s = ResizableSplit::new(5000);
    let b = Rect { x: 100, y: 40, width: 400, height: 200 };
    // (300 - 100) / 400 = 0.5
    assert_eq!(s.drag_ratio(b, Point { x: 300, y: 0 }), 5000);
    let h = ResizableSplit::new(5000).horizontal();
    // (90 - 40) / 200 = 0.25
    assert_eq!(h.drag_ratio(b, Point { x: 0, y: 90 }), 2500);
}

#[test]
fn drag_ratio_over_empty_extent() {
    let s = ResizableSplit::new(5000);
    let b = Rect { x: 10, y: 10, width: 0, height: 0 };
    assert_eq!(s.drag_ratio(b, Point { x: 20, y: 20 }), 9000);
    assert_eq!(s.drag_ratio(b, Point { x: 10, y: 10 }), 1000);
    assert_eq!(s.drag_ratio(b, Point { x: 0, y: 0 }), 1000);
}

#[test]
fn press_off_divider_then_moves_never_drags() {
    let s = ResizableSplit::new(8000);
    let (mut state, outcome) = s.on_event(DragState::Idle, MouseEvent::LeftPressed, bounds(), Some(first_box()), at(400, 300));
    assert_eq!(state, DragState::Idle);
    assert_eq!(outcome, EventOutcome::Forward);
    for x in [100, 500, 800, 801, -20, 2000] {
        let (next, outcome) = s.on_event(state, MouseEvent::CursorMoved, bounds(), Some(first_box()), at(x, 300));
        assert_eq!(next, DragState::Idle);
        assert_eq!(outcome, EventOutcome::Forward);
        state = next;
    }
}

#[test]
fn drag_lifecycle_press_moves_release() {
    let s = ResizableSplit::new(8000);
    let (mut state, outcome) = s.on_event(DragState::Idle, MouseEvent::LeftPressed, bounds(), Some(first_box()), at(799, 10));
    assert_eq!((state, outcome), (DragState::Dragging, EventOutcome::Captured));
    let expected = [(700, 7000), (50, 1000), (990, 9000), (250, 2500)];
    for (x, ratio) in expected {
        let (next, outcome) = s.on_event(state, MouseEvent::CursorMoved, bounds(), Some(first_box()), at(x, 10));
        assert_eq!(next, DragState::Dragging);
        assert_eq!(outcome, EventOutcome::Resize(ratio));
        state = next;
    }
    let (next, outcome) = s.on_event(state, MouseEvent::LeftReleased, bounds(), Some(first_box()), at(250, 10));
    assert_eq!((next, outcome), (DragState::Idle, EventOutcome::Captured));
    let (next, outcome) = s.on_event(next, MouseEvent::CursorMoved, bounds(), Some(first_box()), at(600, 10));
    assert_eq!((next, outcome), (DragState::Idle, EventOutcome::Forward));
    let (next, outcome) = s.on_event(next, MouseEvent::LeftReleased, bounds(), Some(first_box()), at(600, 10));
    assert_eq!((next, outcome), (DragState::Idle, EventOutcome::Forward));
}

#[test]
fn other_events_and_missing_layout_are_forwarded() {
    let s = ResizableSplit::new(8000);
    for state in [DragState::Idle, DragState::Dragging] {
        let r = s.on_event(state, MouseEvent::Other, bounds(), Some(first_box()), at(800, 10));
        assert_eq!(r, (state, EventOutcome::Forward));
        let r = s.on_event(state, MouseEvent::LeftPressed, bounds(), None, at(800, 10));
        assert_eq!(r, (state, EventOutcome::Forward));
        let r = s.on_event(state, MouseEvent::LeftPressed, bounds(), Some(first_box()), None);
        assert_eq!(r, (state, EventOutcome::Forward));
    }
    let r = s.on_event(DragState::Dragging, MouseEvent::CursorMoved, bounds(), Some(first_box()), None);
    assert_eq!(r, (DragState::Dragging, EventOutcome::Forward));
}

#[test]
fn horizontal_split_lays_out_top_and_bottom() {
    let s = ResizableSplit::new(7000).horizontal().min_size(30, 40);
    let l = s.layout(Size { width: 500, height: 333 });
    // floor(333 * 0.7) = 233
    assert_eq!(l.first_limits.max, Size { width: 500, height: 233 });
    assert_eq!(l.second_limits.max, Size { width: 500, height: 100 });
    assert_eq!(l.first_limits.min, Size { width: 0, height: 30 });
    assert_eq!(l.second_limits.min, Size { width: 0, height: 40 });
    assert_eq!(l.second_origin, Point { x: 0, y: 233 });
}

#[test]
fn partition_adds_up_for_many_extents() {
    for ratio in [0, 1000, 3333, 5000, 6667, 9000, 10000] {
        let s = ResizableSplit::new(ratio);
        for width in [0u32, 1, 7, 999, 1000, 1001, 4095, u32::MAX] {
            let l = s.layout(Size { width, height: 10 });
            assert_eq!(l.first_limits.max.width as u64 + l.second_limits.max.width as u64, width as u64);
        }
    }
}

#[test]
fn zero_size_container_gives_empty_children() {
    let l = ResizableSplit::new(8000).layout(Size { width: 0, height: 0 });
    assert_eq!(l.first_limits.max, Size { width: 0, height: 0 });
    assert_eq!(l.second_limits.max, Size { width: 0, height: 0 });
}

#[test]
fn cursor_band_is_wider_than_drag_band() {
    let s = ResizableSplit::new(8000);
    assert!(s.hits_divider(bounds(), first_box(), CURSOR_HANDLE_THICKNESS, Point { x: 795, y: 0 }));
    assert!(s.hits_divider(bounds(), first_box(), CURSOR_HANDLE_THICKNESS, Point { x: 804, y: 0 }));
    assert!(!s.hits_divider(bounds(), first_box(), CURSOR_HANDLE_THICKNESS, Point { x: 805, y: 0 }));
    assert_eq!(s.mouse_interaction(bounds(), Some(first_box()), at(796, 5)), Interaction::ResizingHorizontally);
    assert_eq!(s.mouse_interaction(bounds(), Some(first_box()), at(700, 5)), Interaction::FromChildren);
    assert_eq!(s.mouse_interaction(bounds(), Some(first_box()), None), Interaction::FromChildren);
    assert_eq!(s.mouse_interaction(bounds(), None, at(800, 5)), Interaction::FromChildren);
    // Outside the split's cross extent.
    assert_eq!(s.mouse_interaction(bounds(), Some(first_box()), at(800, 600)), Interaction::FromChildren);

    let h = ResizableSplit::new(5000).horizontal();
    let top = Rect { x: 0, y: 0, width: 1000, height: 300 };
    assert_eq!(h.mouse_interaction(bounds(), Some(top), at(10, 303)), Interaction::ResizingVertically);
    assert_eq!(h.mouse_interaction(bounds(), Some(top), at(10, 305)), Interaction::FromChildren);
}

#[test]
fn handle_is_drawn_over_the_boundary() {
    let s = ResizableSplit::new(8000);
    assert_eq!(s.handle_rect(bounds(), first_box()), Rect { x: 798, y: 0, width: 5, height: 600 });
    let h = ResizableSplit::new(5000).horizontal();
    let b = Rect { x: 10, y: 20, width: 300, height: 200 };
    let top = Rect { x: 10, y: 20, width: 300, height: 100 };
    assert_eq!(h.handle_rect(b, top), Rect { x: 10, y: 118, width: 300, height: 5 });
}

#[test]
fn rebuild_keeps_drag_state() {
    assert_eq!(reconcile(Some(DragState::Dragging)), DragState::Dragging);
    assert_eq!(reconcile(Some(DragState::Idle)), DragState::Idle);
    assert_eq!(reconcile(None), DragState::Idle);
    assert_eq!(DragState::default(), DragState::Idle);
}

#[test]
fn child_trees_are_completed() {
    assert_eq!(missing_child_trees(0), 2);
    assert_eq!(missing_child_trees(1), 1);
    assert_eq!(missing_child_trees(2), 0);
    assert_eq!(missing_child_trees(5), 0);
}
