//! The start/stop state machine.
//!
//! The machine is idle until the first key press, which starts the load
//! workers; `q` while the load runs stops them and ends the program.

use vstd::prelude::*;

verus! {

/// Whether the load is running.
#[derive(Debug, Clone, Copy, PartialEq, Eq, Structural)]
pub enum State {
    WaitingToStart,
    Stressing,
}

/// A key that a keyboard event reports.
#[derive(Debug, Clone, Copy, PartialEq, Eq, Structural)]
pub enum Key {
    Q,
    Other,
}

/// The window events that the machine reacts to.
#[derive(Debug, Clone, Copy, PartialEq, Eq, Structural)]
pub enum Event {
    /// The window's close control was used.
    CloseRequested,
    /// A key press; `None` when the platform reported no key code. Any key
    /// press starts the load; only `q` stops it.
    Key(Option<Key>),
    /// The event queue has been drained for this round.
    EventsCleared,
    /// The window asks to be drawn.
    RedrawRequested,
    /// Any other event.
    Other,
}

/// What the driver of the machine must do after an event.
#[derive(Debug, Clone, Copy, PartialEq, Eq, Structural)]
pub enum Action {
    /// Nothing; wait for the next event.
    Idle,
    /// Leave the event loop at once, whatever workers run.
    Exit,
    /// Clear the stop signal, then start `cpu_workers` arithmetic workers
    /// and one memory worker.
    StartWorkers { cpu_workers: usize },
    /// Raise the stop signal, wait for every worker to finish, then leave
    /// the event loop.
    StopWorkersAndExit,
    /// Ask the window for a new frame.
    RequestRedraw,
    /// Clear the frame; draw the fractal quad when `fractal` holds; present.
    Redraw { fractal: bool },
}

/// The next state and the action for `event` in state `s`, where `cpus` is
/// the number of logical processors when the load starts.
pub open spec fn transition(s: State, event: Event, cpus: usize) -> (State, Action) {
    match event {
        Event::CloseRequested => (s, Action::Exit),
        Event::Key(k) => match s {
            State::WaitingToStart => (State::Stressing, Action::StartWorkers { cpu_workers: cpus }),
            State::Stressing => if k == Some(Key::Q) {
                (State::WaitingToStart, Action::StopWorkersAndExit)
            } else {
                (State::Stressing, Action::Idle)
            },
        },
        Event::EventsCleared => (s, Action::RequestRedraw),
        Event::RedrawRequested => (s, Action::Redraw { fractal: s == State::Stressing }),
        Event::Other => (s, Action::Idle),
    }
}

/// The next state and the action for `event` in state `state`, given the
/// number of logical processors `cpu_count`.
pub fn decide(state: State, event: Event, cpu_count: usize) -> (r: (State, Action))
    ensures
        r == transition(state, event, cpu_count),
{
    match event {
        Event::CloseRequested => (state, Action::Exit),
        Event::Key(k) => match state {
            State::WaitingToStart => (State::Stressing, Action::StartWorkers { cpu_workers: cpu_count }),
            State::Stressing => match k {
                Some(Key::Q) => (State::WaitingToStart, Action::StopWorkersAndExit),
                _ => (State::Stressing, Action::Idle),
            },
        },
        Event::EventsCleared => (state, Action::RequestRedraw),
        Event::RedrawRequested => {
            let fractal = match state {
                State::WaitingToStart => false,
                State::Stressing => true,
            };
            (state, Action::Redraw { fractal })
        },
        Event::Other => (state, Action::Idle),
    }
}

/// What a `Controller` holds: its state, and the value that the stop signal
/// shared with the workers must have.
pub struct ControllerView {
    pub state: State,
    pub stop: bool,
}

/// The start/stop machine together with the stop signal that it owns.
pub struct Controller {
    state: State,
    stop: bool,
}

impl View for Controller {
    type V = ControllerView;

    closed spec fn view(&self) -> ControllerView {
        ControllerView { state: self.state, stop: self.stop }
    }
}

impl Controller {
    /// The stop signal is clear exactly while the load runs.
    pub open spec fn wf(&self) -> bool {
        self@.stop == (self@.state != State::Stressing)
    }

    /// A machine waiting for the first key press, with the stop signal raised.
    pub fn new() -> (c: Controller)
        ensures
            c.wf(),
            c@.state == State::WaitingToStart,
            c@.stop,
    {
        Controller { state: State::WaitingToStart, stop: true }
    }

    /// The current state.
    pub fn state(&self) -> (r: State)
        ensures
            r == self@.state,
    {
        self.state
    }

    /// The value that the stop signal shared with the workers must have.
    pub fn stop_signal(&self) -> (r: bool)
        ensures
            r == self@.stop,
    {
        self.stop
    }

    /// Reacts to `event`: moves to the next state and returns what the driver
    /// must do. When the load starts, the number of arithmetic workers is the
    /// number of logical processors, which is at least one.
    pub fn handle(&mut self, event: Event) -> (r: Action)
        requires
            old(self).wf(),
        ensures
            final(self).wf(),
            exists|cpus: usize|
                cpus >= 1 && #[trigger] transition(old(self)@.state, event, cpus) == (
                final(self)@.state,
                r,
            ),
    {
        let cpus: usize = match (self.state, event) {
            (State::WaitingToStart, Event::Key(_)) => logical_cpu_count(),
            _ => 1,
        };
        let (next, action) = decide(self.state, event, cpus);
        self.state = next;
        self.stop = match next {
            State::WaitingToStart => true,
            State::Stressing => false,
        };
        action
    }
}

/// Relies on num_cpus::get: the number of logical processors available to
/// this process, which its documentation promises is at least one.
#[verifier::external_body]
fn logical_cpu_count() -> (r: usize)
    ensures
        r >= 1,
{
    num_cpus::get()
}

} // verus!
