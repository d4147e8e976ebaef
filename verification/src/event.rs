//! Input events delivered to views, and what a view answers to them.

use vstd::prelude::*;
use crate::focus::{FocusAction, FocusGroup, Groups};
use crate::primitives::Point;

verus! {

/// The phase of a touch.
#[derive(Debug, Clone, Copy, PartialEq, Eq, Structural)]
pub enum TouchPhase {
    /// The touch began.
    Started,
    /// The touch moved.
    Moved,
    /// The touch was lifted.
    Ended,
    /// The touch was interrupted.
    Cancelled,
    /// A pointer hovers without touching, at an optional distance.
    Hovering(Option<u16>),
}

/// A touch reported by a touch screen.
#[derive(Debug, Clone, Copy, PartialEq, Eq, Structural)]
pub struct Touch {
    /// Identifies the finger or stylus across the phases of one touch.
    pub id: u8,
    /// Where the touch is.
    pub location: Point,
    /// The phase of the touch.
    pub phase: TouchPhase,
}

/// A key of a keyboard.
#[derive(Debug, Clone, Copy, PartialEq, Eq, Structural)]
pub enum Key {
    UpArrow,
    DownArrow,
    LeftArrow,
    RightArrow,
    Enter,
    Escape,
}

/// What a keyboard event asks for.
#[derive(Debug, Clone, Copy, PartialEq, Eq, Structural)]
pub enum KeyboardEventKind {
    Up,
    Down,
    Left,
    Right,
    Click,
    LongPress,
    Cancel,
}

impl KeyboardEventKind {
    /// Whether the event moves in a direction.
    pub fn is_movement(self) -> (r: bool)
        ensures
            r == (self is Up || self is Down || self is Left || self is Right),
    {
        matches!(self, KeyboardEventKind::Up | KeyboardEventKind::Down | KeyboardEventKind::Left | KeyboardEventKind::Right)
    }
}

/// A keyboard event delivered to input groups.
#[derive(Debug, Clone, Copy, PartialEq, Eq, Structural)]
pub struct KeyboardEvent {
    /// What the event asks for.
    pub kind: KeyboardEventKind,
    /// The input groups the event is delivered to.
    pub groups: Groups,
}

/// An input event.
#[derive(Debug, Clone, Copy, PartialEq, Eq, Structural)]
pub enum Event {
    /// A touch in any phase.
    Touch(Touch),
    /// A touch began at a point.
    TouchDown(Point),
    /// A touch moved to a point.
    TouchMoved(Point),
    /// A touch ended at a point.
    TouchUp(Point),
    /// The current touch was interrupted.
    TouchCancelled,
    /// A scroll by a distance along each axis.
    Scroll(Point),
    /// Move to the next item.
    Next,
    /// Move to the previous item.
    Previous,
    /// A key was pressed.
    KeyDown(Key),
    /// A key was released.
    KeyUp(Key),
    /// A keyboard event for input groups.
    Keyboard(KeyboardEvent),
    /// A request to the focus tree of a group.
    Focus { action: FocusAction, group: FocusGroup },
}

/// Shifts a point by the negation of an offset.
pub open spec fn point_sub(p: Point, o: Point) -> Point {
    Point { x: (p.x - o.x) as i32, y: (p.y - o.y) as i32 }
}

/// Whether subtracting `o` from `p` stays in range.
pub open spec fn point_sub_fits(p: Point, o: Point) -> bool {
    &&& i32::MIN <= p.x - o.x <= i32::MAX
    &&& i32::MIN <= p.y - o.y <= i32::MAX
}

/// The event as seen from a view placed at `offset`: points move by `-offset`.
pub open spec fn event_offset(e: Event, offset: Point) -> Event {
    match e {
        Event::Touch(t) => Event::Touch(Touch { location: point_sub(t.location, offset), ..t }),
        Event::TouchDown(p) => Event::TouchDown(point_sub(p, offset)),
        Event::TouchMoved(p) => Event::TouchMoved(point_sub(p, offset)),
        Event::TouchUp(p) => Event::TouchUp(point_sub(p, offset)),
        _ => e,
    }
}

/// Whether every point of the event can be moved by `-offset`.
pub open spec fn event_offset_fits(e: Event, offset: Point) -> bool {
    match e {
        Event::Touch(t) => point_sub_fits(t.location, offset),
        Event::TouchDown(p) => point_sub_fits(p, offset),
        Event::TouchMoved(p) => point_sub_fits(p, offset),
        Event::TouchUp(p) => point_sub_fits(p, offset),
        _ => true,
    }
}

/// `p - o`, coordinate-wise.
pub fn sub_point(p: Point, o: Point) -> (r: Point)
    requires
        point_sub_fits(p, o),
    ensures
        r == point_sub(p, o),
{
    Point { x: p.x - o.x, y: p.y - o.y }
}

impl Event {
    /// The event as seen from a view placed at `offset`.
    pub fn offset(self, offset: Point) -> (r: Event)
        requires
            event_offset_fits(self, offset),
        ensures
            r == event_offset(self, offset),
    {
        match self {
            Event::Touch(t) => Event::Touch(Touch { location: sub_point(t.location, offset), ..t }),
            Event::TouchDown(p) => Event::TouchDown(sub_point(p, offset)),
            Event::TouchMoved(p) => Event::TouchMoved(sub_point(p, offset)),
            Event::TouchUp(p) => Event::TouchUp(sub_point(p, offset)),
            _ => self,
        }
    }
}

/// What a view answers to an event.
#[derive(Debug, Clone, Copy, PartialEq, Eq, Structural)]
pub struct EventResult {
    /// The event was consumed.
    pub handled: bool,
    /// The view must be rebuilt to show the outcome.
    pub recompute_view: bool,
}

impl EventResult {
    /// A result with the given flags.
    pub fn new(handled: bool, recompute_view: bool) -> (r: EventResult)
        ensures
            r == (EventResult { handled, recompute_view }),
    {
        EventResult { handled, recompute_view }
    }

    /// Neither handled nor in need of a rebuild.
    pub fn default() -> (r: EventResult)
        ensures
            r == (EventResult { handled: false, recompute_view: false }),
    {
        EventResult { handled: false, recompute_view: false }
    }

    /// Both results combined: handled or rebuilt if either is.
    pub open spec fn merging_spec(self, other: EventResult) -> EventResult {
        EventResult {
            handled: self.handled || other.handled,
            recompute_view: self.recompute_view || other.recompute_view,
        }
    }

    /// Both results combined: handled or rebuilt if either is.
    pub fn merging(self, other: EventResult) -> (r: EventResult)
        ensures
            r == self.merging_spec(other),
    {
        EventResult {
            handled: self.handled || other.handled,
            recompute_view: self.recompute_view || other.recompute_view,
        }
    }

    /// Combines another result into this one.
    pub fn merge(&mut self, other: EventResult)
        ensures
            final(self).handled == (old(self).handled || other.handled),
            final(self).recompute_view == (old(self).recompute_view || other.recompute_view),
    {
        self.handled = self.handled || other.handled;
        self.recompute_view = self.recompute_view || other.recompute_view;
    }
}

/// What a view of two layers answers once its front layer answered, and the back layer
/// too if it was asked: the front answer if the front layer handled the event; otherwise
/// nothing until the back layer answers, and then both answers combined.
pub open spec fn layered_answer(front: EventResult, back: Option<EventResult>) -> Option<EventResult> {
    if front.handled {
        Some(front)
    } else {
        match back {
            Some(b) => Some(b.merging_spec(front)),
            None => None,
        }
    }
}

/// The answer of views asked in turn, each only while none before it handled the event:
/// the answers up to the first that handled it, combined.
pub open spec fn answer_in_turn(answers: Seq<EventResult>) -> EventResult
    decreases answers.len(),
{
    if answers.len() == 0 {
        EventResult { handled: false, recompute_view: false }
    } else {
        let before = answer_in_turn(answers.drop_last());
        if before.handled {
            before
        } else {
            before.merging_spec(answers.last())
        }
    }
}

/// What views asked in turn answer together, given the answers so far of the first of
/// `count` views: the combined answer once one handled the event or all answered, and
/// nothing while the next must be asked.
pub open spec fn views_in_turn(answers: Seq<EventResult>, count: int) -> Option<EventResult> {
    let n = if answers.len() < count { answers.len() as int } else { count };
    let combined = answer_in_turn(answers.take(n));
    if combined.handled || answers.len() >= count {
        Some(combined)
    } else {
        None
    }
}

/// Combines the answers of a view of two layers, front first: see [`layered_answer`].
pub fn answer_layers(front: EventResult, back: Option<EventResult>) -> (r: Option<EventResult>)
    ensures
        r == layered_answer(front, back),
{
    if front.handled {
        Some(front)
    } else {
        match back {
            Some(b) => Some(b.merging(front)),
            None => None,
        }
    }
}

/// Once an answer in turn is handled, later answers do not change it.
proof fn lemma_handled_answer_stays(answers: Seq<EventResult>, i: int, n: int)
    requires
        0 <= i <= n <= answers.len(),
        answer_in_turn(answers.take(i)).handled,
    ensures
        answer_in_turn(answers.take(n)) == answer_in_turn(answers.take(i)),
    decreases n - i,
{
    if n > i {
        lemma_handled_answer_stays(answers, i, n - 1);
        assert(answers.take(n).drop_last() =~= answers.take(n - 1));
    }
}

/// An answer of views asked in turn is final: answers of views asked after it do not
/// change it.
pub proof fn lemma_answer_in_turn_is_final(answers: Seq<EventResult>, later: Seq<EventResult>, count: int)
    requires
        0 <= count,
        views_in_turn(answers, count) is Some,
    ensures
        views_in_turn(answers + later, count) == views_in_turn(answers, count),
{
    let all = answers + later;
    let n1 = if answers.len() < count { answers.len() as int } else { count };
    let n2 = if all.len() < count { all.len() as int } else { count };
    assert(all.take(n1) =~= answers.take(n1));
    if answer_in_turn(answers.take(n1)).handled {
        lemma_handled_answer_stays(all, n1, n2);
    } else {
        assert(n1 == n2);
    }
}

/// Combines the answers of views asked in turn: the combined answer once a view handled
/// the event or all `count` views answered, and nothing while the next view must be asked.
/// Answers past the first `count` are not views' and are not looked at.
pub fn answer_views_in_turn(answers: &Vec<EventResult>, count: usize) -> (r: Option<EventResult>)
    ensures
        r == views_in_turn(answers@, count as int),
{
    let n: usize = if answers.len() < count { answers.len() } else { count };
    let mut acc = EventResult::default();
    let mut i: usize = 0;
    assert(answers@.take(0) =~= Seq::<EventResult>::empty());
    while i < n
        invariant
            i <= n,
            n == (if answers@.len() < count { answers@.len() as int } else { count as int }),
            acc == answer_in_turn(answers@.take(i as int)),
            !acc.handled,
        decreases n - i,
    {
        assert(answers@.take(i + 1).drop_last() =~= answers@.take(i as int));
        assert(answers@.take(i + 1).last() == answers@[i as int]);
        acc = acc.merging(answers[i]);
        i = i + 1;
        assert(acc == answer_in_turn(answers@.take(i as int)));
        if acc.handled {
            proof {
                lemma_handled_answer_stays(answers@, i as int, n as int);
            }
            return Some(acc);
        }
    }
    if answers.len() >= count {
        Some(acc)
    } else {
        None
    }
}

} // verus!
