//! The main loop as a state machine: from its phase and what just happened,
//! the next phase and what the program is to do.
use vstd::prelude::*;

use crate::input::{
    in_key_table, input_meaning, lemma_unmapped_press_ignored, translate_input, KeyEventKind,
    NavigationEvent, TermInput,
};

verus! {

/// What the application state answered to a dispatched navigation event.
#[derive(Clone, Copy, Debug, PartialEq, Eq, Structural)]
pub enum DispatchResult {
    /// The event was applied; the loop goes on.
    Applied,
    /// The application asks to end the program: a clean exit, not a failure.
    Exit,
    /// Any other error of the application: the program ends with a failure.
    Failed,
}

/// How the process terminates.
#[derive(Clone, Copy, Debug, PartialEq, Eq, Structural)]
pub enum Status {
    Success,
    Failure,
}

/// The phase of the main loop. `Exiting` is entered once, when the terminal
/// is released, and never left.
#[derive(Clone, Copy, Debug, PartialEq, Eq, Structural)]
pub enum Phase {
    Running,
    Exiting(Status),
}

/// What happened since the last step.
#[derive(Clone, Copy, Debug, PartialEq, Eq, Structural)]
pub enum LoopEvent {
    /// An event was read from the terminal.
    Input(TermInput),
    /// The application state answered a dispatched navigation event.
    Dispatched(DispatchResult),
    /// An unrecoverable fault: the terminal could not be set up, read or
    /// drawn, or the program panicked.
    Fault,
}

/// What the program is to do next.
#[derive(Clone, Copy, Debug, PartialEq, Eq, Structural)]
pub enum Action {
    /// Let the application draw the viewport, then block on the next input.
    Render,
    /// Hand this event to the application state and report its answer.
    Dispatch(NavigationEvent),
    /// Restore the terminal (best effort), then terminate with this status.
    Release(Status),
    /// Nothing: the loop has already ended and the terminal was released.
    Idle,
}

/// One transition of the main loop.
pub open spec fn next(phase: Phase, event: LoopEvent) -> (Phase, Action) {
    match phase {
        Phase::Exiting(_) => (phase, Action::Idle),
        Phase::Running => match event {
            LoopEvent::Input(input) => match input_meaning(input) {
                Some(nav) => (Phase::Running, Action::Dispatch(nav)),
                None => (Phase::Running, Action::Render),
            },
            LoopEvent::Dispatched(DispatchResult::Applied) => (Phase::Running, Action::Render),
            LoopEvent::Dispatched(DispatchResult::Exit) => (
                Phase::Exiting(Status::Success),
                Action::Release(Status::Success),
            ),
            LoopEvent::Dispatched(DispatchResult::Failed) => (
                Phase::Exiting(Status::Failure),
                Action::Release(Status::Failure),
            ),
            LoopEvent::Fault => (Phase::Exiting(Status::Failure), Action::Release(Status::Failure)),
        },
    }
}

/// The phase reached from `phase` after the events `events`, in order.
pub open spec fn phase_after(phase: Phase, events: Seq<LoopEvent>) -> Phase
    decreases events.len(),
{
    if events.len() == 0 {
        phase
    } else {
        phase_after(next(phase, events[0]).0, events.drop_first())
    }
}

/// The actions asked for, in order, while the events `events` are handled
/// from `phase`.
pub open spec fn actions_of(phase: Phase, events: Seq<LoopEvent>) -> Seq<Action>
    decreases events.len(),
{
    if events.len() == 0 {
        Seq::empty()
    } else {
        let (p, a) = next(phase, events[0]);
        seq![a].add(actions_of(p, events.drop_first()))
    }
}

/// How many of `actions` release the terminal.
pub open spec fn release_count(actions: Seq<Action>) -> nat
    decreases actions.len(),
{
    if actions.len() == 0 {
        0
    } else {
        (if actions[0] is Release { 1nat } else { 0nat }) + release_count(actions.drop_first())
    }
}

/// Whether an event ends the loop, whenever it comes while it runs.
pub open spec fn ends_loop(event: LoopEvent) -> bool {
    ||| event == LoopEvent::Dispatched(DispatchResult::Exit)
    ||| event == LoopEvent::Dispatched(DispatchResult::Failed)
    ||| event == LoopEvent::Fault
}

/// Once the loop has ended it stays ended and asks for no release.
pub proof fn lemma_exiting_absorbs(status: Status, events: Seq<LoopEvent>)
    ensures
        phase_after(Phase::Exiting(status), events) == Phase::Exiting(status),
        release_count(actions_of(Phase::Exiting(status), events)) == 0,
    decreases events.len(),
{
    if events.len() > 0 {
        lemma_exiting_absorbs(status, events.drop_first());
        lemma_release_count_prepend(Action::Idle, actions_of(Phase::Exiting(status), events.drop_first()));
    }
}

/// Counting releases of one action followed by others.
proof fn lemma_release_count_prepend(a: Action, rest: Seq<Action>)
    ensures
        release_count(seq![a].add(rest)) == (if a is Release { 1nat } else { 0nat }) + release_count(rest),
{
    let s = seq![a].add(rest);
    assert(s.drop_first() =~= rest);
}

/// Handling events in two runs reaches the same phase as handling them in one.
pub proof fn lemma_phase_after_concat(phase: Phase, first: Seq<LoopEvent>, second: Seq<LoopEvent>)
    ensures
        phase_after(phase, first.add(second)) == phase_after(phase_after(phase, first), second),
    decreases first.len(),
{
    if first.len() > 0 {
        let all = first.add(second);
        assert(all[0] == first[0]);
        assert(all.drop_first() =~= first.drop_first().add(second));
        lemma_phase_after_concat(next(phase, first[0]).0, first.drop_first(), second);
    } else {
        assert(first.add(second) =~= second);
    }
}

/// Handling events in two runs asks for the actions of the first run, then
/// those of the second.
pub proof fn lemma_actions_of_concat(phase: Phase, first: Seq<LoopEvent>, second: Seq<LoopEvent>)
    ensures
        actions_of(phase, first.add(second))
            == actions_of(phase, first).add(actions_of(phase_after(phase, first), second)),
    decreases first.len(),
{
    if first.len() == 0 {
        assert(first.add(second) =~= second);
        assert(Seq::<Action>::empty().add(actions_of(phase, second)) =~= actions_of(phase, second));
    } else {
        let all = first.add(second);
        let (p, a) = next(phase, first[0]);
        assert(all[0] == first[0]);
        assert(all.drop_first() =~= first.drop_first().add(second));
        lemma_actions_of_concat(p, first.drop_first(), second);
        assert(seq![a].add(actions_of(p, first.drop_first())).add(
            actions_of(phase_after(p, first.drop_first()), second),
        ) =~= seq![a].add(
            actions_of(p, first.drop_first()).add(actions_of(phase_after(p, first.drop_first()), second)),
        ));
    }
}

/// The terminal is released exactly once on every run that ends the loop
/// and never on one that does not: from a running loop, the actions ask
/// for one release if the loop ends and for none if it goes on.
pub proof fn lemma_release_exactly_once(phase: Phase, events: Seq<LoopEvent>)
    ensures
        release_count(actions_of(phase, events)) == (if phase == Phase::Running
            && phase_after(phase, events) is Exiting { 1nat } else { 0nat }),
    decreases events.len(),
{
    if events.len() == 0 {
    } else {
        let (p, a) = next(phase, events[0]);
        lemma_release_count_prepend(a, actions_of(p, events.drop_first()));
        lemma_release_exactly_once(p, events.drop_first());
        if let Phase::Exiting(s) = p {
            lemma_exiting_absorbs(s, events.drop_first());
        }
    }
}

/// Every exit path ends the loop: an exit request, an application error or
/// a fault, wherever it comes, leaves the loop ended with the terminal
/// released exactly once.
pub proof fn lemma_every_exit_path_releases(events: Seq<LoopEvent>, i: int)
    requires
        0 <= i < events.len(),
        ends_loop(events[i]),
    ensures
        phase_after(Phase::Running, events) is Exiting,
        release_count(actions_of(Phase::Running, events)) == 1,
{
    let before = events.take(i);
    let after = events.skip(i);
    assert(events =~= before.add(after));
    lemma_phase_after_concat(Phase::Running, before, after);
    let p = phase_after(Phase::Running, before);
    match p {
        Phase::Running => {
            assert(after[0] == events[i]);
            let q = next(p, after[0]).0;
            assert(q is Exiting);
            if let Phase::Exiting(s) = q {
                lemma_exiting_absorbs(s, after.drop_first());
            }
        },
        Phase::Exiting(s) => {
            lemma_exiting_absorbs(s, after);
        },
    }
    lemma_release_exactly_once(Phase::Running, events);
}

/// The exit request of the application, answered while the loop runs, ends
/// it with success and one release; any other application error ends it
/// with failure and one release. What comes afterwards changes nothing.
pub proof fn lemma_dispatch_outcome(prefix: Seq<LoopEvent>, result: DispatchResult, rest: Seq<LoopEvent>)
    requires
        phase_after(Phase::Running, prefix) == Phase::Running,
        result != DispatchResult::Applied,
    ensures
        ({
            let events = prefix.push(LoopEvent::Dispatched(result)).add(rest);
            &&& phase_after(Phase::Running, events) == Phase::Exiting(
                if result == DispatchResult::Exit { Status::Success } else { Status::Failure },
            )
            &&& release_count(actions_of(Phase::Running, events)) == 1
            &&& actions_of(Phase::Running, events)[prefix.len() as int] == Action::Release(
                if result == DispatchResult::Exit { Status::Success } else { Status::Failure },
            )
        }),
{
    let ev = LoopEvent::Dispatched(result);
    let tail = seq![ev].add(rest);
    let events = prefix.push(ev).add(rest);
    assert(events =~= prefix.add(tail));
    let status = if result == DispatchResult::Exit { Status::Success } else { Status::Failure };
    lemma_phase_after_concat(Phase::Running, prefix, tail);
    lemma_actions_of_concat(Phase::Running, prefix, tail);
    assert(tail[0] == ev);
    assert(tail.drop_first() =~= rest);
    lemma_exiting_absorbs(status, rest);
    lemma_release_exactly_once(Phase::Running, events);
    lemma_actions_len(Phase::Running, prefix);
}

/// One action per event.
proof fn lemma_actions_len(phase: Phase, events: Seq<LoopEvent>)
    ensures
        actions_of(phase, events).len() == events.len(),
    decreases events.len(),
{
    if events.len() > 0 {
        lemma_actions_len(next(phase, events[0]).0, events.drop_first());
    }
}

/// An input that translates to no navigation event, in particular a key
/// press outside the key table, makes the running loop render and read
/// again, dispatching nothing.
pub proof fn lemma_ignored_input_renders(input: TermInput)
    ensures
        input_meaning(input) is None ==> next(Phase::Running, LoopEvent::Input(input)) == (
            Phase::Running,
            Action::Render,
        ),
        input matches TermInput::Key(key) && key.kind == KeyEventKind::Press && !in_key_table(
            key.code,
            key.modifiers,
        ) ==> next(Phase::Running, LoopEvent::Input(input)) == (Phase::Running, Action::Render),
{
    if let TermInput::Key(key) = input {
        if key.kind == KeyEventKind::Press {
            lemma_unmapped_press_ignored(key);
        }
    }
}

/// The main loop's state.
#[derive(Debug)]
pub struct EventLoop {
    phase: Phase,
}

impl EventLoop {
    /// The phase the loop is in.
    pub closed spec fn view_phase(&self) -> Phase {
        self.phase
    }

    /// A loop that runs and has not released the terminal.
    pub fn new() -> (r: EventLoop)
        ensures
            r.view_phase() == Phase::Running,
    {
        EventLoop { phase: Phase::Running }
    }

    /// The phase the loop is in.
    pub fn phase(&self) -> (r: Phase)
        ensures
            r == self.view_phase(),
    {
        self.phase
    }

    /// Whether the loop still runs.
    pub fn is_running(&self) -> (r: bool)
        ensures
            r == (self.view_phase() == Phase::Running),
    {
        match self.phase {
            Phase::Running => true,
            Phase::Exiting(_) => false,
        }
    }

    /// Takes one event and says what to do next.
    pub fn step(&mut self, event: &LoopEvent) -> (r: Action)
        ensures
            (final(self).view_phase(), r) == next(old(self).view_phase(), *event),
    {
        match self.phase {
            Phase::Exiting(_) => Action::Idle,
            Phase::Running => match event {
                LoopEvent::Input(input) => match translate_input(input) {
                    Some(nav) => Action::Dispatch(nav),
                    None => Action::Render,
                },
                LoopEvent::Dispatched(DispatchResult::Applied) => Action::Render,
                LoopEvent::Dispatched(DispatchResult::Exit) => {
                    self.phase = Phase::Exiting(Status::Success);
                    Action::Release(Status::Success)
                },
                LoopEvent::Dispatched(DispatchResult::Failed) => {
                    self.phase = Phase::Exiting(Status::Failure);
                    Action::Release(Status::Failure)
                },
                LoopEvent::Fault => {
                    self.phase = Phase::Exiting(Status::Failure);
                    Action::Release(Status::Failure)
                },
            },
        }
    }
}

} // verus!
