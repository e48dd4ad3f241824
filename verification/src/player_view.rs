//! The life cycle of the view that shows a player: it is given its timer
//! once and its player once, and then starts, stops and flushes the player
//! and turns touches and key presses into its events. Each operation answers
//! with the commands that the view performs on the player and the timer.
use vstd::prelude::*;

use crate::keys::{press_events, spec_press_events, KeyEvent, Press};
use crate::touch::{spec_touch_start, TouchHandler, TouchPhase};

verus! {

/// A command that the view performs.
#[derive(Clone, Copy, Debug, PartialEq, Eq, Structural)]
pub enum ViewCommand {
    /// Create the frame timer, registered for all run loop modes, firing
    /// only once it is started.
    ScheduleTimer,
    /// Remember the current time as that of the last frame.
    MarkFrameTime,
    /// Tell the player whether it plays.
    SetIsPlaying(bool),
    /// Fire the frame timer now.
    FireTimer,
    /// Let the frame timer wait for ever.
    PauseTimer,
    /// Have the player write the data that movies stored.
    FlushSharedObjects,
    /// Invalidate the frame timer.
    InvalidateTimer,
}

/// What the view knows of itself: whether it has its timer and its player,
/// and whether it plays (the player plays and the frame timer runs).
#[derive(Clone, Copy, Debug, PartialEq, Eq, Structural)]
pub struct PlayerView {
    pub has_timer: bool,
    pub has_player: bool,
    pub playing: bool,
}

/// The view once started.
pub open spec fn started(v: PlayerView) -> PlayerView {
    PlayerView { playing: true, ..v }
}

/// The view once stopped.
pub open spec fn stopped(v: PlayerView) -> PlayerView {
    PlayerView { playing: false, ..v }
}

/// Whether the player handled a presses event, given its answer to each
/// key event that the event gave it: whether it handled any of them.
pub open spec fn presses_handled(replies: Seq<bool>) -> bool {
    exists|i: int| 0 <= i < replies.len() && replies[i]
}

/// An operation of the view that gives commands.
#[derive(Clone, Copy, Debug, PartialEq, Eq, Structural)]
pub enum ViewOp {
    Init,
    SetPlayer,
    Start,
    Stop,
    Flush,
    Teardown,
}

/// A view before its initialization.
pub open spec fn new_view() -> PlayerView {
    PlayerView { has_timer: false, has_player: false, playing: false }
}

/// The commands that the operation `op` gives on the view `v`.
pub open spec fn op_commands(v: PlayerView, op: ViewOp) -> Seq<ViewCommand> {
    match op {
        ViewOp::Init => seq![ViewCommand::ScheduleTimer],
        ViewOp::SetPlayer => seq![ViewCommand::MarkFrameTime],
        ViewOp::Start => seq![ViewCommand::SetIsPlaying(true), ViewCommand::FireTimer],
        ViewOp::Stop => seq![ViewCommand::SetIsPlaying(false), ViewCommand::PauseTimer],
        ViewOp::Flush => seq![ViewCommand::FlushSharedObjects],
        ViewOp::Teardown => if v.has_timer { seq![ViewCommand::InvalidateTimer] } else { Seq::empty() },
    }
}

/// The view after the operation `op` on the view `v`.
pub open spec fn op_after(v: PlayerView, op: ViewOp) -> PlayerView {
    match op {
        ViewOp::Init => PlayerView { has_timer: true, ..v },
        ViewOp::SetPlayer => PlayerView { has_player: true, ..v },
        ViewOp::Start => started(v),
        ViewOp::Stop => stopped(v),
        ViewOp::Flush | ViewOp::Teardown => v,
    }
}

/// The commands that the operations `ops`, in turn, give from the view `v`.
pub open spec fn run_commands(v: PlayerView, ops: Seq<ViewOp>) -> Seq<ViewCommand>
    decreases ops.len(),
{
    if ops.len() == 0 {
        Seq::empty()
    } else {
        op_commands(v, ops[0]) + run_commands(op_after(v, ops[0]), ops.drop_first())
    }
}

/// The view after the operations `ops`, in turn, from the view `v`.
pub open spec fn run_after(v: PlayerView, ops: Seq<ViewOp>) -> PlayerView
    decreases ops.len(),
{
    if ops.len() == 0 {
        v
    } else {
        run_after(op_after(v, ops[0]), ops.drop_first())
    }
}

impl PlayerView {
    /// A view before its initialization.
    pub fn new() -> (view: PlayerView)
        ensures
            !view.has_timer,
            !view.has_player,
            !view.playing,
            view == new_view(),
    {
        PlayerView { has_timer: false, has_player: false, playing: false }
    }

    /// Initializes the view: it gets its frame timer, once.
    pub fn init(&mut self) -> (commands: Vec<ViewCommand>)
        requires
            !old(self).has_timer,
        ensures
            final(self).has_timer,
            final(self).has_player == old(self).has_player,
            final(self).playing == old(self).playing,
            commands@ == seq![ViewCommand::ScheduleTimer],
            *final(self) == op_after(*old(self), ViewOp::Init),
            commands@ == op_commands(*old(self), ViewOp::Init),
    {
        self.has_timer = true;
        vec![ViewCommand::ScheduleTimer]
    }

    /// Gives the view its player, once; the time of the last frame starts
    /// now.
    pub fn set_player(&mut self) -> (commands: Vec<ViewCommand>)
        requires
            !old(self).has_player,
        ensures
            final(self).has_player,
            final(self).has_timer == old(self).has_timer,
            final(self).playing == old(self).playing,
            commands@ == seq![ViewCommand::MarkFrameTime],
            *final(self) == op_after(*old(self), ViewOp::SetPlayer),
            commands@ == op_commands(*old(self), ViewOp::SetPlayer),
    {
        self.has_player = true;
        vec![ViewCommand::MarkFrameTime]
    }

    /// Starts playing: the player plays and the timer fires at once.
    pub fn start(&mut self) -> (commands: Vec<ViewCommand>)
        requires
            old(self).has_player,
            old(self).has_timer,
        ensures
            *final(self) == started(*old(self)),
            commands@ == seq![ViewCommand::SetIsPlaying(true), ViewCommand::FireTimer],
            commands@ == op_commands(*old(self), ViewOp::Start),
    {
        self.playing = true;
        vec![ViewCommand::SetIsPlaying(true), ViewCommand::FireTimer]
    }

    /// Stops playing: the player pauses and the timer does not fire while
    /// it is stopped.
    pub fn stop(&mut self) -> (commands: Vec<ViewCommand>)
        requires
            old(self).has_player,
            old(self).has_timer,
        ensures
            *final(self) == stopped(*old(self)),
            commands@ == seq![ViewCommand::SetIsPlaying(false), ViewCommand::PauseTimer],
            commands@ == op_commands(*old(self), ViewOp::Stop),
    {
        self.playing = false;
        vec![ViewCommand::SetIsPlaying(false), ViewCommand::PauseTimer]
    }

    /// Has the player write the data that movies stored.
    pub fn flush(&self) -> (commands: Vec<ViewCommand>)
        requires
            self.has_player,
        ensures
            commands@ == seq![ViewCommand::FlushSharedObjects],
            commands@ == op_commands(*self, ViewOp::Flush),
    {
        vec![ViewCommand::FlushSharedObjects]
    }

    /// The commands when the view goes away: its timer, if it has one, is
    /// invalidated.
    pub fn teardown(&self) -> (commands: Vec<ViewCommand>)
        ensures
            commands@ == if self.has_timer { seq![ViewCommand::InvalidateTimer] } else { Seq::empty() },
            commands@ == op_commands(*self, ViewOp::Teardown),
    {
        if self.has_timer {
            vec![ViewCommand::InvalidateTimer]
        } else {
            Vec::new()
        }
    }

    /// Starts the handling of a touch in `phase`, tapped `tap_count` times.
    pub fn handle_touches(&self, phase: TouchPhase, tap_count: usize) -> (handler: TouchHandler)
        requires
            self.has_player,
        ensures
            handler == spec_touch_start(phase, tap_count),
    {
        TouchHandler::new(phase, tap_count)
    }

    /// The key events that a presses event gives the player.
    pub fn handle_presses(&self, presses: &Vec<Press>) -> (events: Vec<KeyEvent>)
        requires
            self.has_player,
        ensures
            events@ == spec_press_events(presses@),
    {
        press_events(presses)
    }
}

/// The answer to a presses event, given the player's answer to each key
/// event that it was given (every one of them was given): whether the
/// player handled any.
pub fn any_handled(replies: &Vec<bool>) -> (handled: bool)
    ensures
        handled == presses_handled(replies@),
{
    let mut i: usize = 0;
    while i < replies.len()
        invariant
            i <= replies.len(),
            forall|j: int| 0 <= j < i ==> !replies@[j],
        decreases replies.len() - i,
    {
        if replies[i] {
            return true;
        }
        i = i + 1;
    }
    false
}

/// Stopping pauses the view until it is started again: a stopped view does
/// not play (its player is paused and its timer does not fire), starting
/// makes it play, and stopping a started view leaves it as stopping alone
/// would; nothing else about the view changes.
pub proof fn stop_pauses_until_start(v: PlayerView)
    ensures
        !stopped(v).playing,
        started(stopped(v)).playing,
        stopped(started(v)) == stopped(v),
        started(stopped(v)) == started(v),
        stopped(v).has_player == v.has_player && stopped(v).has_timer == v.has_timer,
{
}

proof fn lemma_no_fire_without_start(v: PlayerView, ops: Seq<ViewOp>)
    requires
        !v.playing,
        forall|i: int| 0 <= i < ops.len() ==> ops[i] != ViewOp::Start,
    ensures
        !run_commands(v, ops).contains(ViewCommand::FireTimer),
        !run_after(v, ops).playing,
    decreases ops.len(),
{
    if ops.len() > 0 {
        let rest = ops.drop_first();
        assert forall|i: int| 0 <= i < rest.len() implies rest[i] != ViewOp::Start by {
            assert(rest[i] == ops[i + 1]);
        }
        lemma_no_fire_without_start(op_after(v, ops[0]), rest);
        let first = op_commands(v, ops[0]);
        let later = run_commands(op_after(v, ops[0]), rest);
        assert(!first.contains(ViewCommand::FireTimer));
        assert forall|k: int| 0 <= k < (first + later).len() implies (first + later)[k] != ViewCommand::FireTimer by {
            if k < first.len() {
                assert((first + later)[k] == first[k]);
            } else {
                assert((first + later)[k] == later[k - first.len()]);
            }
        }
    }
}

/// The frame timer does not fire before the view is first started: from a
/// new view, operations among which is no start give no command that fires
/// the timer, and leave the view not playing. (The timer that `init`
/// schedules waits for ever until it is fired.)
pub proof fn timer_waits_for_first_start(ops: Seq<ViewOp>)
    requires
        forall|i: int| 0 <= i < ops.len() ==> ops[i] != ViewOp::Start,
    ensures
        !run_commands(new_view(), ops).contains(ViewCommand::FireTimer),
        !run_after(new_view(), ops).playing,
{
    lemma_no_fire_without_start(new_view(), ops);
}

} // verus!
