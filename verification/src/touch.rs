//! The handling of touches on the player view, as a state machine: the
//! view performs each action on the player and reports back whether the
//! player handled the mouse events it was given.
use vstd::prelude::*;

verus! {

/// The phases of a touch that UIKit reports.
#[derive(Clone, Copy, Debug, PartialEq, Eq, Structural)]
pub enum TouchPhase {
    Began,
    Moved,
    Stationary,
    Ended,
    Cancelled,
    RegionEntered,
    RegionMoved,
    RegionExited,
}

/// A mouse event for the player; the view adds the position of the touch.
/// A touch always counts as the left button.
#[derive(Clone, Copy, Debug, PartialEq, Eq, Structural)]
pub enum MouseEventKind {
    MouseDown { tap_count: usize },
    MouseMove,
    MouseUp,
    MouseLeave,
}

/// The next thing the view does while it handles a touch.
#[derive(Clone, Copy, Debug, PartialEq, Eq, Structural)]
pub enum TouchAction {
    /// Tell the player whether the mouse is over the stage.
    SetMouseInStage(bool),
    /// Give the player a mouse event, and report whether it handled it.
    Dispatch(MouseEventKind),
    /// Ask for a redraw of the layer if the player needs to render.
    RedrawIfNeeded,
    /// Stop, answering whether the touch was handled.
    Finish(bool),
}

/// Where the handling of one touch stands.
#[derive(Clone, Copy, Debug, PartialEq, Eq, Structural)]
pub enum TouchStage {
    Start,
    EnteredStage,
    FirstDispatched,
    LeftStage,
    LeaveDispatched,
    Redrawn,
    Done,
}

/// The handling of one touch.
#[derive(Clone, Copy, Debug, PartialEq, Eq, Structural)]
pub struct TouchHandler {
    pub phase: TouchPhase,
    pub tap_count: usize,
    pub stage: TouchStage,
    pub handled: bool,
}

/// Whether the player gets any event for a touch in this phase.
pub open spec fn phase_is_handled(phase: TouchPhase) -> bool {
    match phase {
        TouchPhase::Began | TouchPhase::Moved | TouchPhase::Ended | TouchPhase::Cancelled => true,
        _ => false,
    }
}

/// The first mouse event that a touch in a handled phase gives the player.
pub open spec fn first_event(phase: TouchPhase, tap_count: usize) -> MouseEventKind {
    match phase {
        TouchPhase::Began => MouseEventKind::MouseDown { tap_count },
        TouchPhase::Moved => MouseEventKind::MouseMove,
        TouchPhase::Ended => MouseEventKind::MouseUp,
        _ => MouseEventKind::MouseLeave,
    }
}

/// The handler of a touch before anything was done.
pub open spec fn spec_touch_start(phase: TouchPhase, tap_count: usize) -> TouchHandler {
    TouchHandler { phase, tap_count, stage: TouchStage::Start, handled: false }
}

/// One step of the handling of a touch: from the handler and the player's
/// answer to the last dispatched event (ignored after other actions), the
/// next handler and the action to perform.
pub open spec fn touch_transition(h: TouchHandler, reply: bool) -> (TouchHandler, TouchAction) {
    match h.stage {
        TouchStage::Start => if phase_is_handled(h.phase) {
            (TouchHandler { stage: TouchStage::EnteredStage, ..h }, TouchAction::SetMouseInStage(true))
        } else {
            (TouchHandler { stage: TouchStage::Done, handled: false, ..h }, TouchAction::Finish(false))
        },
        TouchStage::EnteredStage => (
            TouchHandler { stage: TouchStage::FirstDispatched, ..h },
            TouchAction::Dispatch(first_event(h.phase, h.tap_count)),
        ),
        TouchStage::FirstDispatched => if h.phase == TouchPhase::Ended {
            (TouchHandler { stage: TouchStage::LeftStage, handled: reply, ..h }, TouchAction::SetMouseInStage(false))
        } else {
            (TouchHandler { stage: TouchStage::Redrawn, handled: reply, ..h }, TouchAction::RedrawIfNeeded)
        },
        TouchStage::LeftStage => if h.handled {
            (TouchHandler { stage: TouchStage::Redrawn, ..h }, TouchAction::RedrawIfNeeded)
        } else {
            (TouchHandler { stage: TouchStage::LeaveDispatched, ..h }, TouchAction::Dispatch(MouseEventKind::MouseLeave))
        },
        TouchStage::LeaveDispatched => (
            TouchHandler { stage: TouchStage::Redrawn, handled: reply, ..h },
            TouchAction::RedrawIfNeeded,
        ),
        TouchStage::Redrawn => (TouchHandler { stage: TouchStage::Done, ..h }, TouchAction::Finish(h.handled)),
        TouchStage::Done => (h, TouchAction::Finish(h.handled)),
    }
}

/// What the view does for a touch in `phase` when the player answers the
/// first mouse event with `first` and a second one, if any, with `second`:
/// a touch that begins, moves, ends or is cancelled puts the mouse on the
/// stage and gives the player a mouse down, move, up or leave; an ended
/// touch then takes the mouse off the stage and, when the mouse up was not
/// handled, gives the player a mouse leave; the view then redraws if needed
/// and answers whether the last event was handled. Touches in other phases
/// are not handled.
pub open spec fn touch_script(phase: TouchPhase, tap_count: usize, first: bool, second: bool) -> Seq<TouchAction> {
    if !phase_is_handled(phase) {
        seq![TouchAction::Finish(false)]
    } else if phase == TouchPhase::Ended {
        if first {
            seq![
                TouchAction::SetMouseInStage(true),
                TouchAction::Dispatch(MouseEventKind::MouseUp),
                TouchAction::SetMouseInStage(false),
                TouchAction::RedrawIfNeeded,
                TouchAction::Finish(true),
            ]
        } else {
            seq![
                TouchAction::SetMouseInStage(true),
                TouchAction::Dispatch(MouseEventKind::MouseUp),
                TouchAction::SetMouseInStage(false),
                TouchAction::Dispatch(MouseEventKind::MouseLeave),
                TouchAction::RedrawIfNeeded,
                TouchAction::Finish(second),
            ]
        }
    } else {
        seq![
            TouchAction::SetMouseInStage(true),
            TouchAction::Dispatch(first_event(phase, tap_count)),
            TouchAction::RedrawIfNeeded,
            TouchAction::Finish(first),
        ]
    }
}

/// The answer that the view hands to the next step: the answer to the mouse
/// leave after an ended touch, the answer to the first event otherwise.
pub open spec fn reply_for(h: TouchHandler, first: bool, second: bool) -> bool {
    if h.stage == TouchStage::LeaveDispatched { second } else { first }
}

/// The actions the handler performs from `h` on, at most `fuel` of them,
/// up to and including the first `Finish`.
pub open spec fn touch_run(h: TouchHandler, first: bool, second: bool, fuel: nat) -> Seq<TouchAction>
    decreases fuel,
{
    if fuel == 0 {
        Seq::empty()
    } else {
        let (next, action) = touch_transition(h, reply_for(h, first, second));
        if action is Finish {
            seq![action]
        } else {
            seq![action] + touch_run(next, first, second, (fuel - 1) as nat)
        }
    }
}

impl TouchHandler {
    /// Starts the handling of a touch in `phase`, tapped `tap_count` times.
    pub fn new(phase: TouchPhase, tap_count: usize) -> (h: TouchHandler)
        ensures
            h == spec_touch_start(phase, tap_count),
    {
        TouchHandler { phase, tap_count, stage: TouchStage::Start, handled: false }
    }

    /// Takes the player's answer to the last dispatched event (any value
    /// after other actions) and gives the next action.
    pub fn next_action(&mut self, reply: bool) -> (action: TouchAction)
        ensures
            (*final(self), action) == touch_transition(*old(self), reply),
    {
        match self.stage {
            TouchStage::Start => {
                if matches!(self.phase, TouchPhase::Began | TouchPhase::Moved | TouchPhase::Ended | TouchPhase::Cancelled) {
                    self.stage = TouchStage::EnteredStage;
                    TouchAction::SetMouseInStage(true)
                } else {
                    self.stage = TouchStage::Done;
                    self.handled = false;
                    TouchAction::Finish(false)
                }
            },
            TouchStage::EnteredStage => {
                self.stage = TouchStage::FirstDispatched;
                let event = match self.phase {
                    TouchPhase::Began => MouseEventKind::MouseDown { tap_count: self.tap_count },
                    TouchPhase::Moved => MouseEventKind::MouseMove,
                    TouchPhase::Ended => MouseEventKind::MouseUp,
                    _ => MouseEventKind::MouseLeave,
                };
                TouchAction::Dispatch(event)
            },
            TouchStage::FirstDispatched => {
                self.handled = reply;
                if self.phase == TouchPhase::Ended {
                    self.stage = TouchStage::LeftStage;
                    TouchAction::SetMouseInStage(false)
                } else {
                    self.stage = TouchStage::Redrawn;
                    TouchAction::RedrawIfNeeded
                }
            },
            TouchStage::LeftStage => {
                if self.handled {
                    self.stage = TouchStage::Redrawn;
                    TouchAction::RedrawIfNeeded
                } else {
                    self.stage = TouchStage::LeaveDispatched;
                    TouchAction::Dispatch(MouseEventKind::MouseLeave)
                }
            },
            TouchStage::LeaveDispatched => {
                self.handled = reply;
                self.stage = TouchStage::Redrawn;
                TouchAction::RedrawIfNeeded
            },
            TouchStage::Redrawn => {
                self.stage = TouchStage::Done;
                TouchAction::Finish(self.handled)
            },
            TouchStage::Done => TouchAction::Finish(self.handled),
        }
    }
}

/// Whatever the player answers, a handler started on a touch performs
/// exactly the actions of `touch_script` and then finishes, within six steps.
pub proof fn touch_handling_follows_script(phase: TouchPhase, tap_count: usize, first: bool, second: bool)
    ensures
        touch_run(spec_touch_start(phase, tap_count), first, second, 6) == touch_script(phase, tap_count, first, second),
{
    reveal_with_fuel(touch_run, 7);
    assert(touch_run(spec_touch_start(phase, tap_count), first, second, 6)
        =~= touch_script(phase, tap_count, first, second));
}

/// What each phase of a touch gives the player, whatever it answers: a
/// touch that begins gives a mouse down with its tap count, one that moves
/// a mouse move, one that is cancelled a mouse leave, each with the mouse
/// on the stage, then a redraw and the player's answer; a touch that ends
/// gives a mouse up, takes the mouse off the stage and, when the mouse up
/// was not handled, gives a mouse leave; a touch in any other phase gives
/// nothing and is not handled.
pub proof fn touches_give_their_mouse_events(tap_count: usize, first: bool, second: bool)
    ensures
        touch_run(spec_touch_start(TouchPhase::Began, tap_count), first, second, 6) == seq![
            TouchAction::SetMouseInStage(true),
            TouchAction::Dispatch(MouseEventKind::MouseDown { tap_count }),
            TouchAction::RedrawIfNeeded,
            TouchAction::Finish(first),
        ],
        touch_run(spec_touch_start(TouchPhase::Moved, tap_count), first, second, 6) == seq![
            TouchAction::SetMouseInStage(true),
            TouchAction::Dispatch(MouseEventKind::MouseMove),
            TouchAction::RedrawIfNeeded,
            TouchAction::Finish(first),
        ],
        touch_run(spec_touch_start(TouchPhase::Cancelled, tap_count), first, second, 6) == seq![
            TouchAction::SetMouseInStage(true),
            TouchAction::Dispatch(MouseEventKind::MouseLeave),
            TouchAction::RedrawIfNeeded,
            TouchAction::Finish(first),
        ],
        first ==> touch_run(spec_touch_start(TouchPhase::Ended, tap_count), first, second, 6) == seq![
            TouchAction::SetMouseInStage(true),
            TouchAction::Dispatch(MouseEventKind::MouseUp),
            TouchAction::SetMouseInStage(false),
            TouchAction::RedrawIfNeeded,
            TouchAction::Finish(true),
        ],
        !first ==> touch_run(spec_touch_start(TouchPhase::Ended, tap_count), first, second, 6) == seq![
            TouchAction::SetMouseInStage(true),
            TouchAction::Dispatch(MouseEventKind::MouseUp),
            TouchAction::SetMouseInStage(false),
            TouchAction::Dispatch(MouseEventKind::MouseLeave),
            TouchAction::RedrawIfNeeded,
            TouchAction::Finish(second),
        ],
        touch_run(spec_touch_start(TouchPhase::Stationary, tap_count), first, second, 6) == seq![
            TouchAction::Finish(false),
        ],
        touch_run(spec_touch_start(TouchPhase::RegionEntered, tap_count), first, second, 6) == seq![
            TouchAction::Finish(false),
        ],
        touch_run(spec_touch_start(TouchPhase::RegionMoved, tap_count), first, second, 6) == seq![
            TouchAction::Finish(false),
        ],
        touch_run(spec_touch_start(TouchPhase::RegionExited, tap_count), first, second, 6) == seq![
            TouchAction::Finish(false),
        ],
{
    touch_handling_follows_script(TouchPhase::Began, tap_count, first, second);
    touch_handling_follows_script(TouchPhase::Moved, tap_count, first, second);
    touch_handling_follows_script(TouchPhase::Cancelled, tap_count, first, second);
    touch_handling_follows_script(TouchPhase::Ended, tap_count, first, second);
    touch_handling_follows_script(TouchPhase::Stationary, tap_count, first, second);
    touch_handling_follows_script(TouchPhase::RegionEntered, tap_count, first, second);
    touch_handling_follows_script(TouchPhase::RegionMoved, tap_count, first, second);
    touch_handling_follows_script(TouchPhase::RegionExited, tap_count, first, second);
}

} // verus!
