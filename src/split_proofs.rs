use vstd::prelude::*;

use crate::geometry::{Point, Rect, Size};
use crate::split::{
    drag_ratio, event_step, first_extent, in_split_band, lays_out, on_divider, reconciled, along,
    DragState, EventOutcome, MouseEvent, SplitLayout, SplitSpec, DRAG_HANDLE_THICKNESS,
    SPLIT_MAX_RATIO, SPLIT_MIN_RATIO,
};

verus! {

/// The drag state and the outcomes after feeding `inputs` (an event and the
/// pointer position at that moment), one by one, to a laid-out split.
pub open spec fn run(
    horizontal: bool,
    state: DragState,
    bounds: Rect,
    first: Rect,
    inputs: Seq<(MouseEvent, Option<Point>)>,
) -> (DragState, Seq<EventOutcome>)
    decreases inputs.len(),
{
    if inputs.len() == 0 {
        (state, Seq::empty())
    } else {
        let (next, outcome) = event_step(horizontal, state, inputs[0].0, bounds, Some(first), inputs[0].1);
        let rest = run(horizontal, next, bounds, first, inputs.drop_first());
        (rest.0, seq![outcome] + rest.1)
    }
}

pub open spec fn all_moves(inputs: Seq<(MouseEvent, Option<Point>)>) -> bool {
    forall|i: int| 0 <= i < inputs.len() ==> (#[trigger] inputs[i]).0 == MouseEvent::CursorMoved
}

pub open spec fn forwards(n: nat) -> Seq<EventOutcome> {
    Seq::new(n, |i: int| EventOutcome::Forward)
}

pub open spec fn resizes(horizontal: bool, bounds: Rect, moves: Seq<(MouseEvent, Option<Point>)>) -> Seq<EventOutcome> {
    Seq::new(moves.len(), |i: int| EventOutcome::Resize(drag_ratio(horizontal, bounds, moves[i].1->0) as u32))
}

/// Feeding `a` then `b` is feeding `a + b`.
pub proof fn lemma_run_append(
    horizontal: bool,
    state: DragState,
    bounds: Rect,
    first: Rect,
    a: Seq<(MouseEvent, Option<Point>)>,
    b: Seq<(MouseEvent, Option<Point>)>,
)
    ensures
        ({
            let ra = run(horizontal, state, bounds, first, a);
            let rb = run(horizontal, ra.0, bounds, first, b);
            run(horizontal, state, bounds, first, a + b) == (rb.0, ra.1 + rb.1)
        }),
    decreases a.len(),
{
    if a.len() == 0 {
        assert(a + b =~= b);
        assert(Seq::<EventOutcome>::empty() + run(horizontal, state, bounds, first, b).1
            =~= run(horizontal, state, bounds, first, b).1);
    } else {
        let (next, outcome) = event_step(horizontal, state, a[0].0, bounds, Some(first), a[0].1);
        assert((a + b).drop_first() =~= a.drop_first() + b);
        lemma_run_append(horizontal, next, bounds, first, a.drop_first(), b);
        let ra1 = run(horizontal, next, bounds, first, a.drop_first());
        let rb = run(horizontal, ra1.0, bounds, first, b);
        assert(seq![outcome] + (ra1.1 + rb.1) =~= (seq![outcome] + ra1.1) + rb.1);
    }
}

/// Feeding a single input is one step of the state machine.
pub proof fn lemma_run_single(
    horizontal: bool,
    state: DragState,
    bounds: Rect,
    first: Rect,
    input: (MouseEvent, Option<Point>),
)
    ensures
        ({
            let (next, outcome) = event_step(horizontal, state, input.0, bounds, Some(first), input.1);
            run(horizontal, state, bounds, first, seq![input]) == (next, seq![outcome])
        }),
{
    let (next, outcome) = event_step(horizontal, state, input.0, bounds, Some(first), input.1);
    let empty = Seq::<(MouseEvent, Option<Point>)>::empty();
    assert(seq![input].drop_first() =~= empty);
    assert(run(horizontal, next, bounds, first, empty) == (next, Seq::<EventOutcome>::empty()));
    assert(seq![outcome] + Seq::<EventOutcome>::empty() =~= seq![outcome]);
}

/// While idle, pointer moves are all passed on to the children.
pub proof fn lemma_idle_moves(
    horizontal: bool,
    bounds: Rect,
    first: Rect,
    moves: Seq<(MouseEvent, Option<Point>)>,
)
    requires
        all_moves(moves),
    ensures
        run(horizontal, DragState::Idle, bounds, first, moves) == (DragState::Idle, forwards(moves.len())),
    decreases moves.len(),
{
    if moves.len() == 0 {
        assert(forwards(0) =~= Seq::<EventOutcome>::empty());
    } else {
        assert(moves[0].0 == MouseEvent::CursorMoved);
        let rest = moves.drop_first();
        assert(all_moves(rest)) by {
            assert forall|i: int| 0 <= i < rest.len() implies (#[trigger] rest[i]).0 == MouseEvent::CursorMoved by {
                assert(rest[i] == moves[i + 1]);
            }
        }
        lemma_idle_moves(horizontal, bounds, first, rest);
        assert(seq![EventOutcome::Forward] + forwards(rest.len()) =~= forwards(moves.len()));
    }
}

/// While dragging, each pointer move with a known position asks for exactly
/// one resize, to the ratio of that position, and the drag goes on.
pub proof fn lemma_dragging_moves(
    horizontal: bool,
    bounds: Rect,
    first: Rect,
    moves: Seq<(MouseEvent, Option<Point>)>,
)
    requires
        all_moves(moves),
        forall|i: int| 0 <= i < moves.len() ==> (#[trigger] moves[i]).1 is Some,
    ensures
        run(horizontal, DragState::Dragging, bounds, first, moves) == (
            DragState::Dragging,
            resizes(horizontal, bounds, moves),
        ),
    decreases moves.len(),
{
    if moves.len() == 0 {
        assert(resizes(horizontal, bounds, moves) =~= Seq::<EventOutcome>::empty());
    } else {
        assert(moves[0].0 == MouseEvent::CursorMoved);
        assert(moves[0].1 is Some);
        let rest = moves.drop_first();
        assert forall|i: int| 0 <= i < rest.len() implies (#[trigger] rest[i]).0 == MouseEvent::CursorMoved
            && rest[i].1 is Some by {
            assert(rest[i] == moves[i + 1]);
        }
        lemma_dragging_moves(horizontal, bounds, first, rest);
        assert(seq![EventOutcome::Resize(drag_ratio(horizontal, bounds, moves[0].1->0) as u32)]
            + resizes(horizontal, bounds, rest) =~= resizes(horizontal, bounds, moves));
    }
}

/// Every ratio asked for by a drag lies in the split band.
pub proof fn lemma_drag_ratio_in_band(horizontal: bool, bounds: Rect, p: Point)
    ensures
        in_split_band(drag_ratio(horizontal, bounds, p)),
{
}

/// Splitting an extent loses nothing: the first child's share and the
/// second's add up to the whole extent, and neither is negative.
pub proof fn lemma_partition(s: SplitSpec, max: Size, l: SplitLayout)
    requires
        in_split_band(s.ratio),
        lays_out(s, max, l),
    ensures
        along(l.first_limits.max, s.horizontal) + along(l.second_limits.max, s.horizontal)
            == along(max, s.horizontal),
        0 <= along(l.first_limits.max, s.horizontal) <= along(max, s.horizontal),
{
    let e = along(max, s.horizontal);
    assert(e * s.ratio <= e * 10000) by (nonlinear_arith)
        requires
            0 <= e,
            s.ratio <= 10000,
    ;
    assert(0 <= e * s.ratio) by (nonlinear_arith)
        requires
            0 <= e,
            0 <= s.ratio,
    ;
    assert(e * s.ratio / 10000 <= e) by (nonlinear_arith)
        requires
            e * s.ratio <= e * 10000,
    ;
}

/// Layout never gives the first child a share outside the split band: it
/// gets at least `floor(extent * min)` and at most `floor(extent * max)`.
pub proof fn lemma_layout_within_band(s: SplitSpec, max: Size, l: SplitLayout)
    requires
        in_split_band(s.ratio),
        lays_out(s, max, l),
    ensures
        first_extent(along(max, s.horizontal), SPLIT_MIN_RATIO as int) <= along(
            l.first_limits.max,
            s.horizontal,
        ) <= first_extent(along(max, s.horizontal), SPLIT_MAX_RATIO as int),
{
    let e = along(max, s.horizontal);
    assert(e * 1000 <= e * s.ratio <= e * 9000) by (nonlinear_arith)
        requires
            0 <= e,
            1000 <= s.ratio <= 9000,
    ;
    vstd::arithmetic::div_mod::lemma_div_is_ordered(e * 1000, e * s.ratio, 10000);
    vstd::arithmetic::div_mod::lemma_div_is_ordered(e * s.ratio, e * 9000, 10000);
}

/// A press off the divider (or with no known position), followed by any
/// number of pointer moves, never starts a drag and never asks for a resize.
pub proof fn lemma_press_off_divider_then_moves(
    horizontal: bool,
    bounds: Rect,
    first: Rect,
    press_at: Option<Point>,
    moves: Seq<(MouseEvent, Option<Point>)>,
)
    requires
        match press_at {
            Some(p) => !on_divider(horizontal, bounds, first, DRAG_HANDLE_THICKNESS as int, p),
            None => true,
        },
        all_moves(moves),
    ensures
        run(horizontal, DragState::Idle, bounds, first, seq![(MouseEvent::LeftPressed, press_at)] + moves)
            == (DragState::Idle, forwards(moves.len() + 1)),
{
    let press = seq![(MouseEvent::LeftPressed, press_at)];
    lemma_run_append(horizontal, DragState::Idle, bounds, first, press, moves);
    lemma_run_single(horizontal, DragState::Idle, bounds, first, (MouseEvent::LeftPressed, press_at));
    lemma_idle_moves(horizontal, bounds, first, moves);
    assert(seq![EventOutcome::Forward] + forwards(moves.len()) =~= forwards(moves.len() + 1));
}

/// A press on the divider starts a drag; each following move asks for one
/// resize, to a ratio in the split band; a release ends the drag; after
/// that, moves are passed on until the next press.
pub proof fn lemma_drag_lifecycle(
    horizontal: bool,
    bounds: Rect,
    first: Rect,
    press_at: Point,
    moves: Seq<(MouseEvent, Option<Point>)>,
    release_at: Option<Point>,
    after: Seq<(MouseEvent, Option<Point>)>,
)
    requires
        on_divider(horizontal, bounds, first, DRAG_HANDLE_THICKNESS as int, press_at),
        all_moves(moves),
        forall|i: int| 0 <= i < moves.len() ==> (#[trigger] moves[i]).1 is Some,
        all_moves(after),
    ensures
        run(horizontal, DragState::Idle, bounds, first, seq![(MouseEvent::LeftPressed, Some(press_at))])
            == (DragState::Dragging, seq![EventOutcome::Captured]),
        run(
            horizontal,
            DragState::Idle,
            bounds,
            first,
            seq![(MouseEvent::LeftPressed, Some(press_at))] + moves + seq![
                (MouseEvent::LeftReleased, release_at),
            ] + after,
        ) == (
            DragState::Idle,
            seq![EventOutcome::Captured] + resizes(horizontal, bounds, moves) + seq![
                EventOutcome::Captured,
            ] + forwards(after.len()),
        ),
        forall|i: int| 0 <= i < moves.len() ==> in_split_band(drag_ratio(horizontal, bounds, (#[trigger] moves[i]).1->0)),
{
    let press = seq![(MouseEvent::LeftPressed, Some(press_at))];
    let release = seq![(MouseEvent::LeftReleased, release_at)];
    lemma_run_single(horizontal, DragState::Idle, bounds, first, (MouseEvent::LeftPressed, Some(press_at)));
    lemma_dragging_moves(horizontal, bounds, first, moves);
    lemma_run_single(horizontal, DragState::Dragging, bounds, first, (MouseEvent::LeftReleased, release_at));
    lemma_idle_moves(horizontal, bounds, first, after);
    lemma_run_append(horizontal, DragState::Idle, bounds, first, press, moves);
    lemma_run_append(horizontal, DragState::Idle, bounds, first, press + moves, release);
    lemma_run_append(horizontal, DragState::Idle, bounds, first, press + moves + release, after);
    assert forall|i: int| 0 <= i < moves.len() implies in_split_band(drag_ratio(horizontal, bounds, (#[trigger] moves[i]).1->0)) by {
        lemma_drag_ratio_in_band(horizontal, bounds, moves[i].1->0);
    }
}

/// Rebuilding a split keeps the drag state it had, so a drag in progress
/// survives an unrelated rebuild.
pub proof fn lemma_rebuild_keeps_drag_state(state: DragState)
    ensures
        reconciled(Some(state)) == state,
{
}

} // verus!
