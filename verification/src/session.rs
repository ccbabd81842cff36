//! The rules that a session follows once its two streams are open.
//!
//! A session has two streams: events flow from the simulator to the frontend,
//! commands flow the other way. Each stream opens with a handshake, and no
//! other message is valid until both handshakes have passed. The session is a
//! pure state machine: it is told what passed on which stream and answers
//! whether that was in order.

use vstd::prelude::*;

verus! {

/// Where a session stands.
#[derive(Clone, Copy, Debug, PartialEq, Eq, Structural)]
pub enum Phase {
    /// No handshake has passed.
    Uninitialized,
    /// One handshake has passed; the other peer's is awaited.
    AwaitingPeerHandshake,
    /// Both handshakes have passed with the same version.
    Active,
    /// The session is over: the simulator exited or a fatal error occurred.
    Terminated,
}

/// A structurally valid message that arrived in the wrong state.
#[derive(Clone, Copy, Debug, PartialEq, Eq, Structural)]
pub enum ProtocolError {
    /// The peer implements another schema revision.
    IncompatibleVersion { local: i32, peer: i32 },
    /// A message other than a handshake passed before negotiation completed.
    HandshakeExpected,
    /// A second handshake on a stream: renegotiation is not supported.
    UnexpectedHandshake,
    /// `StartExecution` before the simulator reported `Ready`.
    NotReady,
    /// `StartExecution` for the second time.
    AlreadyStarted,
    /// A message after the session was over.
    SessionTerminated,
}

impl ProtocolError {
    /// A fatal error ends the session; the others are reported to the sender
    /// and the stream goes on.
    pub open spec fn fatal(self) -> bool {
        !(self is NotReady || self is AlreadyStarted)
    }

    /// Executable form of `fatal`.
    pub fn is_fatal(&self) -> (fatal: bool)
        ensures
            fatal == self.fatal(),
    {
        match self {
            ProtocolError::NotReady => false,
            ProtocolError::AlreadyStarted => false,
            _ => true,
        }
    }
}

/// What the session needs to know of an event.
#[derive(Clone, Copy, Debug, PartialEq, Eq, Structural)]
pub enum EventSignal {
    Handshake { version: i32 },
    Ready,
    Exited,
    Other,
}

/// What the session needs to know of a command.
#[derive(Clone, Copy, Debug, PartialEq, Eq, Structural)]
pub enum CommandSignal {
    Handshake { version: i32 },
    StartExecution,
    Other,
}

/// A message on either stream.
#[derive(Clone, Copy, Debug, PartialEq, Eq, Structural)]
pub enum Signal {
    Event(EventSignal),
    Command(CommandSignal),
}

/// The state of one session.
#[derive(Clone, Copy, Debug, PartialEq, Eq, Structural)]
pub struct Session {
    /// The schema revision that this side implements.
    pub version: i32,
    /// The handshake of the event stream has passed.
    pub events_open: bool,
    /// The handshake of the command stream has passed.
    pub commands_open: bool,
    /// The simulator has reported `Ready`.
    pub ready: bool,
    /// `StartExecution` has been accepted.
    pub started: bool,
    /// The session is over.
    pub terminated: bool,
}

impl Session {
    /// The phase that the state stands for.
    pub open spec fn phase_of(self) -> Phase {
        if self.terminated {
            Phase::Terminated
        } else if self.events_open && self.commands_open {
            Phase::Active
        } else if self.events_open || self.commands_open {
            Phase::AwaitingPeerHandshake
        } else {
            Phase::Uninitialized
        }
    }

    /// The states that a session can reach from `Session::new`.
    pub open spec fn well_formed(self) -> bool {
        &&& self.started ==> self.ready
        &&& self.ready ==> self.events_open && self.commands_open
    }

    /// The same state, with the session over.
    pub open spec fn ended(self) -> Session {
        Session { terminated: true, ..self }
    }

    /// The verdict on an event in this state.
    pub open spec fn event_verdict(self, signal: EventSignal) -> Result<(), ProtocolError> {
        if self.terminated {
            Err(ProtocolError::SessionTerminated)
        } else if let EventSignal::Handshake { version } = signal {
            if self.events_open {
                Err(ProtocolError::UnexpectedHandshake)
            } else if version != self.version {
                Err(ProtocolError::IncompatibleVersion { local: self.version, peer: version })
            } else {
                Ok(())
            }
        } else if !(self.events_open && self.commands_open) {
            Err(ProtocolError::HandshakeExpected)
        } else {
            Ok(())
        }
    }

    /// The state after an event. A fatal verdict ends the session, another
    /// refusal leaves the state as it was.
    pub open spec fn after_event(self, signal: EventSignal) -> Session {
        match self.event_verdict(signal) {
            Err(e) => if e.fatal() {
                self.ended()
            } else {
                self
            },
            Ok(_) => match signal {
                EventSignal::Handshake { .. } => Session { events_open: true, ..self },
                EventSignal::Ready => Session { ready: true, ..self },
                EventSignal::Exited => self.ended(),
                EventSignal::Other => self,
            },
        }
    }

    /// The verdict on a command in this state.
    pub open spec fn command_verdict(self, signal: CommandSignal) -> Result<(), ProtocolError> {
        if self.terminated {
            Err(ProtocolError::SessionTerminated)
        } else if let CommandSignal::Handshake { version } = signal {
            if self.commands_open {
                Err(ProtocolError::UnexpectedHandshake)
            } else if version != self.version {
                Err(ProtocolError::IncompatibleVersion { local: self.version, peer: version })
            } else {
                Ok(())
            }
        } else if !(self.events_open && self.commands_open) {
            Err(ProtocolError::HandshakeExpected)
        } else if signal is StartExecution && !self.ready {
            Err(ProtocolError::NotReady)
        } else if signal is StartExecution && self.started {
            Err(ProtocolError::AlreadyStarted)
        } else {
            Ok(())
        }
    }

    /// The state after a command. A fatal verdict ends the session, another
    /// refusal leaves the state as it was.
    pub open spec fn after_command(self, signal: CommandSignal) -> Session {
        match self.command_verdict(signal) {
            Err(e) => if e.fatal() {
                self.ended()
            } else {
                self
            },
            Ok(_) => match signal {
                CommandSignal::Handshake { .. } => Session { commands_open: true, ..self },
                CommandSignal::StartExecution => Session { started: true, ..self },
                CommandSignal::Other => self,
            },
        }
    }

    /// The verdict on a message of either stream.
    pub open spec fn verdict(self, signal: Signal) -> Result<(), ProtocolError> {
        match signal {
            Signal::Event(e) => self.event_verdict(e),
            Signal::Command(c) => self.command_verdict(c),
        }
    }

    /// The state after a message of either stream.
    pub open spec fn after(self, signal: Signal) -> Session {
        match signal {
            Signal::Event(e) => self.after_event(e),
            Signal::Command(c) => self.after_command(c),
        }
    }

    /// The state after a whole sequence of messages, in their order.
    pub open spec fn after_all(self, signals: Seq<Signal>) -> Session
        decreases signals.len(),
    {
        if signals.len() == 0 {
            self
        } else {
            self.after_all(signals.drop_last()).after(signals.last())
        }
    }

    /// A session in which nothing has passed yet.
    pub fn new(version: i32) -> (session: Session)
        ensures
            session == (Session {
                version,
                events_open: false,
                commands_open: false,
                ready: false,
                started: false,
                terminated: false,
            }),
            session.well_formed(),
            session.phase_of() == Phase::Uninitialized,
    {
        Session {
            version,
            events_open: false,
            commands_open: false,
            ready: false,
            started: false,
            terminated: false,
        }
    }

    /// Executable form of `phase_of`.
    pub fn phase(&self) -> (phase: Phase)
        ensures
            phase == self.phase_of(),
    {
        if self.terminated {
            Phase::Terminated
        } else if self.events_open && self.commands_open {
            Phase::Active
        } else if self.events_open || self.commands_open {
            Phase::AwaitingPeerHandshake
        } else {
            Phase::Uninitialized
        }
    }

    /// Takes note of an event and says whether it was in order.
    pub fn on_event(&mut self, signal: EventSignal) -> (verdict: Result<(), ProtocolError>)
        ensures
            verdict == old(self).event_verdict(signal),
            *final(self) == old(self).after_event(signal),
    {
        if self.terminated {
            return Err(ProtocolError::SessionTerminated);
        }
        match signal {
            EventSignal::Handshake { version } => {
                if self.events_open {
                    self.terminated = true;
                    Err(ProtocolError::UnexpectedHandshake)
                } else if version != self.version {
                    self.terminated = true;
                    Err(ProtocolError::IncompatibleVersion { local: self.version, peer: version })
                } else {
                    self.events_open = true;
                    Ok(())
                }
            },
            _ => {
                if !(self.events_open && self.commands_open) {
                    self.terminated = true;
                    return Err(ProtocolError::HandshakeExpected);
                }
                match signal {
                    EventSignal::Ready => {
                        self.ready = true;
                    },
                    EventSignal::Exited => {
                        self.terminated = true;
                    },
                    _ => {},
                }
                Ok(())
            },
        }
    }

    /// Takes note of a command and says whether it was in order.
    pub fn on_command(&mut self, signal: CommandSignal) -> (verdict: Result<(), ProtocolError>)
        ensures
            verdict == old(self).command_verdict(signal),
            *final(self) == old(self).after_command(signal),
    {
        if self.terminated {
            return Err(ProtocolError::SessionTerminated);
        }
        match signal {
            CommandSignal::Handshake { version } => {
                if self.commands_open {
                    self.terminated = true;
                    Err(ProtocolError::UnexpectedHandshake)
                } else if version != self.version {
                    self.terminated = true;
                    Err(ProtocolError::IncompatibleVersion { local: self.version, peer: version })
                } else {
                    self.commands_open = true;
                    Ok(())
                }
            },
            CommandSignal::StartExecution => {
                if !(self.events_open && self.commands_open) {
                    self.terminated = true;
                    Err(ProtocolError::HandshakeExpected)
                } else if !self.ready {
                    Err(ProtocolError::NotReady)
                } else if self.started {
                    Err(ProtocolError::AlreadyStarted)
                } else {
                    self.started = true;
                    Ok(())
                }
            },
            CommandSignal::Other => {
                if !(self.events_open && self.commands_open) {
                    self.terminated = true;
                    Err(ProtocolError::HandshakeExpected)
                } else {
                    Ok(())
                }
            },
        }
    }

    /// Ends the session from outside the streams: the transport failed or was
    /// closed.
    pub fn close(&mut self)
        ensures
            *final(self) == old(self).ended(),
            final(self).phase_of() == Phase::Terminated,
    {
        self.terminated = true;
    }

    /// Takes note of a message of either stream.
    pub fn on_signal(&mut self, signal: Signal) -> (verdict: Result<(), ProtocolError>)
        ensures
            verdict == old(self).verdict(signal),
            *final(self) == old(self).after(signal),
    {
        match signal {
            Signal::Event(e) => self.on_event(e),
            Signal::Command(c) => self.on_command(c),
        }
    }
}

/// The place of a phase in the order in which a session passes through them.
pub open spec fn phase_rank(phase: Phase) -> int {
    match phase {
        Phase::Uninitialized => 0,
        Phase::AwaitingPeerHandshake => 1,
        Phase::Active => 2,
        Phase::Terminated => 3,
    }
}

/// No message takes a session back to an earlier phase, and every message
/// leaves a reachable state reachable.
pub proof fn phase_never_goes_back(session: Session, signal: Signal)
    ensures
        phase_rank(session.phase_of()) <= phase_rank(session.after(signal).phase_of()),
        session.well_formed() ==> session.after(signal).well_formed(),
        session.after(signal).version == session.version,
{
}

/// A message is accepted before the session is active only if it is a
/// handshake of the session's own version, and a fatal refusal ends the
/// session.
pub proof fn handshakes_gate_the_session(session: Session, signal: Signal)
    ensures
        session.verdict(signal) is Ok && session.phase_of() != Phase::Active ==> signal
            == Signal::Event(EventSignal::Handshake { version: session.version }) || signal
            == Signal::Command(CommandSignal::Handshake { version: session.version }),
        session.verdict(signal) matches Err(e) && e.fatal() ==> session.after(signal).phase_of()
            == Phase::Terminated,
        session.verdict(signal) matches Err(e) && !e.fatal() ==> session.after(signal) == session,
{
}

/// Whatever passes, what a session has once reached stays: a stream that is
/// open stays open, and so do `ready`, `started` and `terminated`.
pub proof fn progress_is_kept(session: Session, signals: Seq<Signal>)
    ensures
        session.events_open ==> session.after_all(signals).events_open,
        session.commands_open ==> session.after_all(signals).commands_open,
        session.ready ==> session.after_all(signals).ready,
        session.started ==> session.after_all(signals).started,
        session.terminated ==> session.after_all(signals) == session,
        session.after_all(signals).version == session.version,
    decreases signals.len(),
{
    if signals.len() > 0 {
        progress_is_kept(session, signals.drop_last());
    }
}

/// `StartExecution` is a one-shot: once it has been accepted, it is refused
/// for the rest of the session, whatever passes in between.
pub proof fn start_execution_is_accepted_once(session: Session, between: Seq<Signal>)
    requires
        session.command_verdict(CommandSignal::StartExecution) is Ok,
    ensures
        session.after_command(CommandSignal::StartExecution).after_all(between).command_verdict(
            CommandSignal::StartExecution,
        ) is Err,
{
    progress_is_kept(session.after_command(CommandSignal::StartExecution), between);
}

/// `StartExecution` is refused as long as the simulator has not reported
/// `Ready`, and the refusal does not end the session.
pub proof fn start_execution_waits_for_ready(session: Session)
    requires
        session.phase_of() == Phase::Active,
        !session.ready,
    ensures
        session.command_verdict(CommandSignal::StartExecution) == Err::<(), ProtocolError>(
            ProtocolError::NotReady,
        ),
        session.after_command(CommandSignal::StartExecution) == session,
{
}

/// `Exited` is the last event: once it has been accepted, every message that
/// follows, on either stream and after whatever passed in between, is refused
/// because the session is over.
pub proof fn nothing_follows_exit(session: Session, between: Seq<Signal>, late: Signal)
    requires
        session.event_verdict(EventSignal::Exited) is Ok,
    ensures
        session.after_event(EventSignal::Exited).phase_of() == Phase::Terminated,
        session.after_event(EventSignal::Exited).after_all(between).verdict(late) == Err::<
            (),
            ProtocolError,
        >(ProtocolError::SessionTerminated),
{
    progress_is_kept(session.after_event(EventSignal::Exited), between);
}

} // verus!
