//! The lifecycle of the backend process, as a state machine.
//!
//! The host drives a [`Supervisor`] by reporting what happened (the executable
//! was found, the process was created, a line arrived on standard output) and
//! doing what the returned [`Action`] asks next. The supervisor itself touches
//! neither files nor processes: it owns the process handle and the port, and
//! decides.
//!
//! The rules are stated once, on the plain model [`State`], by [`State::next`]
//! and [`State::action`]; every method of [`Supervisor`] is proved to follow
//! them.

use crate::handshake::{announced_port, read_announcement};
use crate::launcher::{needs_permissions, LaunchError, Platform, EXECUTABLE_MODE};
use vstd::prelude::*;

verus! {

/// Where the supervisor stands.
#[derive(Clone, Copy, Debug, PartialEq, Eq, Structural)]
pub enum Phase {
    /// No backend: none was started yet, or the last one was shut down.
    Idle,
    /// A launch has begun; the host is looking for the executable.
    Locating,
    /// The executable exists; the host is marking it runnable.
    Preparing,
    /// The host is creating the process.
    Spawning,
    /// The process runs; the host reads its standard output for the port.
    Handshaking,
    /// The process runs and the handshake is over, with or without a port.
    Serving,
    /// The launch was given up.
    Failed(LaunchError),
}

/// What the host must do next.
#[derive(Clone, Copy, Debug, PartialEq, Eq, Structural)]
pub enum Action {
    /// Nothing: the report did not apply in the current phase.
    Nothing,
    /// Check that the executable exists in the install directory.
    Locate,
    /// Set the executable's permission bits to `mode`.
    MakeExecutable { mode: u32 },
    /// Start the executable in the install directory, with standard output and
    /// standard error redirected into pipes.
    Spawn,
    /// Read the next line of the process's standard output.
    ReadLine,
    /// Stop reading standard output and start draining standard error in the
    /// background.
    StartDrain,
    /// Give up startup with this error.
    Abort(LaunchError),
}

/// What the host can report.
pub enum Event {
    /// Startup asks for the backend.
    Launch,
    /// The executable was looked for.
    Located { exists: bool },
    /// The executable's permission bits were set, or could not be.
    Prepared { ok: bool },
    /// The process was created, or could not be.
    Spawned { ok: bool },
    /// A line arrived on standard output.
    Line(Seq<char>),
    /// Standard output ended.
    Closed,
    /// The application is closing.
    Shutdown,
}

/// The supervisor without its process handle.
pub struct State {
    pub platform: Platform,
    pub phase: Phase,
    pub port: Option<u16>,
}

impl Phase {
    /// Whether a process exists in this phase.
    pub open spec fn holds_process(self) -> bool {
        self is Handshaking || self is Serving
    }
}

impl State {
    /// The state before anything was asked for.
    pub open spec fn initial(platform: Platform) -> State {
        State { platform, phase: Phase::Idle, port: None }
    }

    /// A port is known only while a process exists and its handshake is over.
    pub open spec fn valid(self) -> bool {
        self.port is Some ==> self.phase is Serving
    }

    /// The state in `phase`, with no port.
    pub open spec fn at(self, phase: Phase) -> State {
        State { platform: self.platform, phase, port: None }
    }

    /// The state after `event`. A report that does not apply in the current
    /// phase changes nothing.
    pub open spec fn next(self, event: Event) -> State {
        match (self.phase, event) {
            (_, Event::Shutdown) => self.at(Phase::Idle),
            (Phase::Idle, Event::Launch) => self.at(Phase::Locating),
            (Phase::Locating, Event::Located { exists }) => if !exists {
                self.at(Phase::Failed(LaunchError::NotFound))
            } else if needs_permissions(self.platform) {
                self.at(Phase::Preparing)
            } else {
                self.at(Phase::Spawning)
            },
            (Phase::Preparing, Event::Prepared { ok }) => if ok {
                self.at(Phase::Spawning)
            } else {
                self.at(Phase::Failed(LaunchError::PermissionError))
            },
            (Phase::Spawning, Event::Spawned { ok }) => if ok {
                self.at(Phase::Handshaking)
            } else {
                self.at(Phase::Failed(LaunchError::SpawnError))
            },
            (Phase::Handshaking, Event::Line(line)) => match announced_port(line) {
                Some(port) => State {
                    platform: self.platform,
                    phase: Phase::Serving,
                    port: Some(port),
                },
                None => self,
            },
            (Phase::Handshaking, Event::Closed) => self.at(Phase::Serving),
            _ => self,
        }
    }

    /// What the host is asked to do after `event`.
    pub open spec fn action(self, event: Event) -> Action {
        match (self.phase, event) {
            (_, Event::Shutdown) => Action::Nothing,
            (Phase::Idle, Event::Launch) => Action::Locate,
            (Phase::Locating, Event::Located { exists }) => if !exists {
                Action::Abort(LaunchError::NotFound)
            } else if needs_permissions(self.platform) {
                Action::MakeExecutable { mode: EXECUTABLE_MODE }
            } else {
                Action::Spawn
            },
            (Phase::Preparing, Event::Prepared { ok }) => if ok {
                Action::Spawn
            } else {
                Action::Abort(LaunchError::PermissionError)
            },
            (Phase::Spawning, Event::Spawned { ok }) => if ok {
                Action::ReadLine
            } else {
                Action::Abort(LaunchError::SpawnError)
            },
            (Phase::Handshaking, Event::Line(line)) => match announced_port(line) {
                Some(_) => Action::StartDrain,
                None => Action::ReadLine,
            },
            (Phase::Handshaking, Event::Closed) => Action::StartDrain,
            _ => Action::Nothing,
        }
    }

    /// The state after each of `events` in turn.
    pub open spec fn run(self, events: Seq<Event>) -> State
        decreases events.len(),
    {
        if events.len() == 0 {
            self
        } else {
            self.run(events.drop_last()).next(events.last())
        }
    }
}

/// Owner of the backend process and of the port it announced. `H` is the
/// host's handle to the process.
pub struct Supervisor<H> {
    platform: Platform,
    phase: Phase,
    port: Option<u16>,
    process: Option<H>,
}

impl<H> View for Supervisor<H> {
    type V = State;

    closed spec fn view(&self) -> State {
        State { platform: self.platform, phase: self.phase, port: self.port }
    }
}

impl<H> Supervisor<H> {
    /// The process handle that the supervisor owns, if it owns one.
    pub closed spec fn process(&self) -> Option<H> {
        self.process
    }

    #[verifier::type_invariant]
    spec fn inv(&self) -> bool {
        &&& self@.valid()
        &&& self.process is Some <==> self.phase.holds_process()
    }

    /// A supervisor that has started nothing yet.
    pub fn new(platform: Platform) -> (supervisor: Self)
        ensures
            supervisor@ == State::initial(platform),
            supervisor.process() is None,
    {
        Supervisor { platform, phase: Phase::Idle, port: None, process: None }
    }

    /// The platform the supervisor was made for.
    pub fn platform(&self) -> (platform: Platform)
        ensures
            platform == self@.platform,
    {
        self.platform
    }

    /// The current phase. A process is owned exactly in the phases that hold
    /// one.
    pub fn phase(&self) -> (phase: Phase)
        ensures
            phase == self@.phase,
            self.process() is Some <==> phase.holds_process(),
    {
        proof {
            use_type_invariant(self);
        }
        self.phase
    }

    /// The port the backend listens on, if it has announced one and has not
    /// been shut down since. Never blocks.
    pub fn query_port(&self) -> (port: Option<u16>)
        ensures
            port == self@.port,
            port is Some ==> self@.phase is Serving,
    {
        proof {
            use_type_invariant(self);
        }
        self.port
    }

    /// Whether the supervisor owns a process.
    pub fn has_process(&self) -> (held: bool)
        ensures
            held == self.process() is Some,
            held == self@.phase.holds_process(),
    {
        proof {
            use_type_invariant(self);
        }
        self.process.is_some()
    }

    /// Begins a launch.
    pub fn launch(&mut self) -> (action: Action)
        ensures
            final(self)@ == old(self)@.next(Event::Launch),
            action == old(self)@.action(Event::Launch),
            final(self).process() == old(self).process(),
    {
        proof {
            use_type_invariant(&*self);
        }
        match self.phase {
            Phase::Idle => {
                self.phase = Phase::Locating;
                Action::Locate
            },
            _ => Action::Nothing,
        }
    }

    /// Reports whether the executable exists in the install directory.
    pub fn located(&mut self, exists: bool) -> (action: Action)
        ensures
            final(self)@ == old(self)@.next(Event::Located { exists }),
            action == old(self)@.action(Event::Located { exists }),
            final(self).process() == old(self).process(),
    {
        proof {
            use_type_invariant(&*self);
        }
        match self.phase {
            Phase::Locating => {
                if !exists {
                    self.phase = Phase::Failed(LaunchError::NotFound);
                    Action::Abort(LaunchError::NotFound)
                } else {
                    match self.platform {
                        Platform::Unix => {
                            self.phase = Phase::Preparing;
                            Action::MakeExecutable { mode: EXECUTABLE_MODE }
                        },
                        Platform::Windows => {
                            self.phase = Phase::Spawning;
                            Action::Spawn
                        },
                    }
                }
            },
            _ => Action::Nothing,
        }
    }

    /// Reports whether the executable could be marked runnable.
    pub fn prepared(&mut self, ok: bool) -> (action: Action)
        ensures
            final(self)@ == old(self)@.next(Event::Prepared { ok }),
            action == old(self)@.action(Event::Prepared { ok }),
            final(self).process() == old(self).process(),
    {
        proof {
            use_type_invariant(&*self);
        }
        match self.phase {
            Phase::Preparing => {
                if ok {
                    self.phase = Phase::Spawning;
                    Action::Spawn
                } else {
                    self.phase = Phase::Failed(LaunchError::PermissionError);
                    Action::Abort(LaunchError::PermissionError)
                }
            },
            _ => Action::Nothing,
        }
    }

    /// Hands over the process that was created. The supervisor takes it only
    /// while it waits for one; otherwise it changes nothing and gives the
    /// handle back, and the process stays the caller's to stop.
    pub fn spawned(&mut self, process: H) -> (outcome: Result<Action, H>)
        ensures
            final(self)@ == old(self)@.next(Event::Spawned { ok: true }),
            outcome == (if old(self)@.phase is Spawning {
                Ok::<Action, H>(Action::ReadLine)
            } else {
                Err::<Action, H>(process)
            }),
            final(self).process() == (if old(self)@.phase is Spawning {
                Some(process)
            } else {
                old(self).process()
            }),
    {
        proof {
            use_type_invariant(&*self);
        }
        match self.phase {
            Phase::Spawning => {
                *self = Supervisor {
                    platform: self.platform,
                    phase: Phase::Handshaking,
                    port: None,
                    process: Some(process),
                };
                Ok(Action::ReadLine)
            },
            _ => Err(process),
        }
    }

    /// Reports that the process could not be created.
    pub fn spawn_failed(&mut self) -> (action: Action)
        ensures
            final(self)@ == old(self)@.next(Event::Spawned { ok: false }),
            action == old(self)@.action(Event::Spawned { ok: false }),
            final(self).process() == old(self).process(),
    {
        proof {
            use_type_invariant(&*self);
        }
        match self.phase {
            Phase::Spawning => {
                self.phase = Phase::Failed(LaunchError::SpawnError);
                Action::Abort(LaunchError::SpawnError)
            },
            _ => Action::Nothing,
        }
    }

    /// Reports one line of the process's standard output, without its line
    /// ending. During the handshake the first line that announces a port ends
    /// it; any other line is log text and reading goes on.
    pub fn stdout_line(&mut self, line: &str) -> (action: Action)
        ensures
            final(self)@ == old(self)@.next(Event::Line(line@)),
            action == old(self)@.action(Event::Line(line@)),
            final(self).process() == old(self).process(),
    {
        proof {
            use_type_invariant(&*self);
        }
        match self.phase {
            Phase::Handshaking => {
                match read_announcement(line) {
                    Some(port) => {
                        self.phase = Phase::Serving;
                        self.port = Some(port);
                        Action::StartDrain
                    },
                    None => Action::ReadLine,
                }
            },
            _ => Action::Nothing,
        }
    }

    /// Reports that standard output has ended: the pipe was closed, or reading
    /// it failed. During the handshake this ends it without a port, which is
    /// no failure of startup.
    pub fn stdout_closed(&mut self) -> (action: Action)
        ensures
            final(self)@ == old(self)@.next(Event::Closed),
            action == old(self)@.action(Event::Closed),
            final(self).process() == old(self).process(),
    {
        proof {
            use_type_invariant(&*self);
        }
        match self.phase {
            Phase::Handshaking => {
                self.phase = Phase::Serving;
                Action::StartDrain
            },
            _ => Action::Nothing,
        }
    }

    /// Ends supervision. Returns the process, if one is owned, for the caller
    /// to kill and reap; afterwards no process is owned and no port is known.
    /// Where nothing was started, nothing changes.
    pub fn shutdown(&mut self) -> (process: Option<H>)
        ensures
            final(self)@ == old(self)@.next(Event::Shutdown),
            final(self)@.port is None,
            final(self).process() is None,
            process == old(self).process(),
            process is Some <==> old(self)@.phase.holds_process(),
            old(self)@.phase is Idle ==> final(self)@ == old(self)@,
    {
        proof {
            use_type_invariant(&*self);
        }
        let mut previous = Supervisor {
            platform: self.platform,
            phase: Phase::Idle,
            port: None,
            process: None,
        };
        std::mem::swap(self, &mut previous);
        previous.process
    }
}

} // verus!
