use vstd::prelude::*;

verus! {

/// The three tasks of the server.
#[derive(Clone, Copy, Debug, PartialEq, Eq, Structural)]
pub enum Task {
    Listener,
    Sender,
    Handler,
}

/// Where the server is in its life.
#[derive(Clone, Copy, Debug, PartialEq, Eq, Structural)]
pub enum State {
    /// The store, the channels, the socket and the tasks are being set up.
    Starting,
    /// The three tasks run.
    Running,
    /// The socket and the channels are being closed.
    ShuttingDown,
    /// Nothing is left to do.
    Stopped,
}

/// What the supervisor is told.
#[derive(Clone, Copy, Debug, PartialEq, Eq, Structural)]
pub enum Event {
    /// All three tasks have been started.
    Started,
    /// Something could not be set up.
    StartFailed,
    /// A task has ended.
    Exited(Task),
    /// The socket and the channels are closed.
    Closed,
}

/// What the supervisor does next.
#[derive(Clone, Copy, Debug, PartialEq, Eq, Structural)]
pub enum Action {
    /// Wait for the first of the three tasks to end.
    Watch,
    /// Close the socket and the channels.
    Close,
    /// End the process.
    Exit,
    /// Nothing: the event does not concern the state.
    Ignore,
}

impl State {
    /// How far along a state is.
    pub open spec fn rank(self) -> nat {
        match self {
            State::Starting => 0,
            State::Running => 1,
            State::ShuttingDown => 2,
            State::Stopped => 3,
        }
    }

    /// The state that an event leads to.
    ///
    /// Starting leads to Running once the tasks are started. A failed start,
    /// and the end of any task while they run, lead to ShuttingDown. From there
    /// the closing of the socket and the channels leads to Stopped. Every
    /// other event leaves the state as it is.
    pub open spec fn after(self, event: Event) -> State {
        match (self, event) {
            (State::Starting, Event::Started) => State::Running,
            (State::Starting, Event::StartFailed) => State::ShuttingDown,
            (State::Running, Event::Exited(_)) => State::ShuttingDown,
            (State::ShuttingDown, Event::Closed) => State::Stopped,
            _ => self,
        }
    }

    /// What is to be done on entering a state from another.
    pub open spec fn entering(self) -> Action {
        match self {
            State::Starting => Action::Ignore,
            State::Running => Action::Watch,
            State::ShuttingDown => Action::Close,
            State::Stopped => Action::Exit,
        }
    }

    /// What an event calls for: what entering the next state asks, or
    /// nothing where the state stays.
    pub open spec fn reaction(self, event: Event) -> Action {
        if self.after(event) == self {
            Action::Ignore
        } else {
            self.after(event).entering()
        }
    }

    /// Takes an event: the next state, and what to do.
    pub fn on_event(self, event: Event) -> (next: (State, Action))
        ensures
            next.0 == self.after(event),
            next.1 == self.reaction(event),
    {
        match (self, event) {
            (State::Starting, Event::Started) => (State::Running, Action::Watch),
            (State::Starting, Event::StartFailed) => (State::ShuttingDown, Action::Close),
            (State::Running, Event::Exited(_)) => (State::ShuttingDown, Action::Close),
            (State::ShuttingDown, Event::Closed) => (State::Stopped, Action::Exit),
            _ => (self, Action::Ignore),
        }
    }

    /// No event takes the server back: the next state is the same or
    /// further along.
    pub proof fn never_goes_back(self, event: Event)
        ensures
            self.rank() <= self.after(event).rank(),
    {
    }

    /// While the tasks run, the end of any one of them starts the shutdown,
    /// whichever it is.
    pub proof fn any_exit_shuts_down(task: Task)
        ensures
            State::Running.after(Event::Exited(task)) == State::ShuttingDown,
            State::Running.reaction(Event::Exited(task)) == Action::Close,
    {
    }

    /// Once stopped, the server stays stopped and does nothing more.
    pub proof fn stopped_is_final(event: Event)
        ensures
            State::Stopped.after(event) == State::Stopped,
            State::Stopped.reaction(event) == Action::Ignore,
    {
    }
}

} // verus!
