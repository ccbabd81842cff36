//! The two ends of a session: what to do with a message that arrived, and
//! whether a message may be sent.
//!
//! A line that was framed and parsed comes here as a tree. It is read as a
//! message and held against the state of the session. The outcome says what
//! the caller does next: deliver the message, pass over it, report it to the
//! sender, or end the session.

use crate::command::{Command, CommandView};
use crate::device::{Device, DeviceTable, Port};
use crate::event::{Event, EventView};
use crate::handshake::{Handshake, HandshakeView};
use crate::session::{CommandSignal, EventSignal, ProtocolError, Session};
use crate::wire::{as_variant, read_variant, same_text, DecodeError, Json, JsonView};
use vstd::prelude::*;

verus! {

impl EventView {
    /// What the session needs to know of the event.
    pub open spec fn signal(self) -> EventSignal {
        match self {
            EventView::Handshake { version, .. } => EventSignal::Handshake { version },
            EventView::Ready => EventSignal::Ready,
            EventView::Exited => EventSignal::Exited,
            _ => EventSignal::Other,
        }
    }
}

impl Event {
    /// What the session needs to know of the event.
    pub fn signal(&self) -> (signal: EventSignal)
        ensures
            signal == self@.signal(),
    {
        match self {
            Event::Handshake { version, .. } => EventSignal::Handshake { version: *version },
            Event::Ready => EventSignal::Ready,
            Event::Exited => EventSignal::Exited,
            _ => EventSignal::Other,
        }
    }
}

impl CommandView {
    /// What the session needs to know of the command.
    pub open spec fn signal(self) -> CommandSignal {
        match self {
            CommandView::Handshake { version, .. } => CommandSignal::Handshake { version },
            CommandView::StartExecution => CommandSignal::StartExecution,
            _ => CommandSignal::Other,
        }
    }
}

impl Command {
    /// What the session needs to know of the command.
    pub fn signal(&self) -> (signal: CommandSignal)
        ensures
            signal == self@.signal(),
    {
        match self {
            Command::Handshake { version, .. } => CommandSignal::Handshake { version: *version },
            Command::StartExecution => CommandSignal::StartExecution,
            _ => CommandSignal::Other,
        }
    }
}

/// The tree is written as a variant that controls the session: a handshake
/// or `StartExecution`. A tree of that name that cannot be read leaves the
/// two peers with different views of the session.
pub open spec fn session_control(tree: JsonView) -> bool {
    match read_variant(tree) {
        Ok((name, _)) => name == "Handshake"@ || name == "StartExecution"@,
        Err(_) => false,
    }
}

/// Executable form of `session_control`.
pub fn names_session_control(tree: &Json) -> (yes: bool)
    ensures
        yes == session_control(tree@),
{
    match as_variant(tree) {
        Ok((name, _)) => same_text(name, "Handshake") || same_text(name, "StartExecution"),
        Err(_) => false,
    }
}

/// Why a session ends.
#[derive(Clone, Copy, Debug, PartialEq, Eq, Structural)]
pub enum Failure {
    /// A message that controls the session could not be read.
    Decode(DecodeError),
    /// A message arrived that the state of the session forbids.
    Protocol(ProtocolError),
}

/// What became of a message that arrived.
#[derive(Clone, Debug, PartialEq, Eq)]
pub enum Reception<M> {
    /// The message is in order: act on it.
    Delivered(M),
    /// The tree is no message that this revision knows, or one that breaks an
    /// invariant. Log it and go on with the next line.
    Skipped(DecodeError),
    /// The message is out of order. Report it to the sender and go on.
    Refused(ProtocolError),
    /// The session is over.
    Fatal(Failure),
}

/// What an event stream owes for `tree` in the state `session`.
pub open spec fn event_outcome(session: Session, tree: JsonView) -> Reception<EventView> {
    match EventView::read(tree) {
        Ok(event) => match session.event_verdict(event.signal()) {
            Ok(_) => Reception::Delivered(event),
            Err(e) => if e.fatal() {
                Reception::Fatal(Failure::Protocol(e))
            } else {
                Reception::Refused(e)
            },
        },
        Err(e) => if session_control(tree) {
            Reception::Fatal(Failure::Decode(e))
        } else {
            Reception::Skipped(e)
        },
    }
}

/// The state of the session after `tree` arrived on the event stream. A tree
/// that is passed over leaves the session as it was.
pub open spec fn session_after_event(session: Session, tree: JsonView) -> Session {
    match EventView::read(tree) {
        Ok(event) => session.after_event(event.signal()),
        Err(_) => if session_control(tree) {
            session.ended()
        } else {
            session
        },
    }
}

/// What a command stream owes for `tree` in the state `session`.
pub open spec fn command_outcome(session: Session, tree: JsonView) -> Reception<CommandView> {
    match CommandView::read(tree) {
        Ok(command) => match session.command_verdict(command.signal()) {
            Ok(_) => Reception::Delivered(command),
            Err(e) => if e.fatal() {
                Reception::Fatal(Failure::Protocol(e))
            } else {
                Reception::Refused(e)
            },
        },
        Err(e) => if session_control(tree) {
            Reception::Fatal(Failure::Decode(e))
        } else {
            Reception::Skipped(e)
        },
    }
}

/// The state of the session after `tree` arrived on the command stream. A
/// tree that is passed over leaves the session as it was.
pub open spec fn session_after_command(session: Session, tree: JsonView) -> Session {
    match CommandView::read(tree) {
        Ok(command) => session.after_command(command.signal()),
        Err(_) => if session_control(tree) {
            session.ended()
        } else {
            session
        },
    }
}

/// An executable reception holds what the model `owed` holds.
pub open spec fn reception_is<M: View>(got: Reception<M>, owed: Reception<M::V>) -> bool {
    match got {
        Reception::Delivered(message) => owed == Reception::<M::V>::Delivered(message@),
        Reception::Skipped(e) => owed == Reception::<M::V>::Skipped(e),
        Reception::Refused(e) => owed == Reception::<M::V>::Refused(e),
        Reception::Fatal(f) => owed == Reception::<M::V>::Fatal(f),
    }
}

/// Takes a tree that arrived on the event stream: reads it, holds it against
/// the session and moves the session on.
pub fn receive_event(session: &mut Session, tree: &Json) -> (got: Reception<Event>)
    ensures
        reception_is(got, event_outcome(*old(session), tree@)),
        *final(session) == session_after_event(*old(session), tree@),
{
    match Event::from_json(tree) {
        Ok(event) => match session.on_event(event.signal()) {
            Ok(_) => Reception::Delivered(event),
            Err(e) => if e.is_fatal() {
                Reception::Fatal(Failure::Protocol(e))
            } else {
                Reception::Refused(e)
            },
        },
        Err(e) => if names_session_control(tree) {
            session.terminated = true;
            Reception::Fatal(Failure::Decode(e))
        } else {
            Reception::Skipped(e)
        },
    }
}

/// Takes a tree that arrived on the command stream: reads it, holds it
/// against the session and moves the session on.
pub fn receive_command(session: &mut Session, tree: &Json) -> (got: Reception<Command>)
    ensures
        reception_is(got, command_outcome(*old(session), tree@)),
        *final(session) == session_after_command(*old(session), tree@),
{
    match Command::from_json(tree) {
        Ok(command) => match session.on_command(command.signal()) {
            Ok(_) => Reception::Delivered(command),
            Err(e) => if e.is_fatal() {
                Reception::Fatal(Failure::Protocol(e))
            } else {
                Reception::Refused(e)
            },
        },
        Err(e) => if names_session_control(tree) {
            session.terminated = true;
            Reception::Fatal(Failure::Decode(e))
        } else {
            Reception::Skipped(e)
        },
    }
}

/// Writes an event for sending, if the session allows it now, and moves the
/// session on. An event that is refused is not written.
pub fn send_event(session: &mut Session, event: &Event) -> (sent: Result<Json, ProtocolError>)
    ensures
        *final(session) == old(session).after_event(event@.signal()),
        match sent {
            Ok(tree) => old(session).event_verdict(event@.signal()) is Ok && tree@
                == event@.wire(),
            Err(e) => old(session).event_verdict(event@.signal()) == Err::<(), ProtocolError>(e),
        },
{
    match session.on_event(event.signal()) {
        Ok(_) => Ok(event.to_json()),
        Err(e) => Err(e),
    }
}

/// Writes a command for sending, if the session allows it now, and moves the
/// session on. A command that is refused is not written.
pub fn send_command(session: &mut Session, command: &Command) -> (sent: Result<
    Json,
    ProtocolError,
>)
    ensures
        *final(session) == old(session).after_command(command@.signal()),
        match sent {
            Ok(tree) => old(session).command_verdict(command@.signal()) is Ok && tree@
                == command@.wire(),
            Err(e) => old(session).command_verdict(command@.signal()) == Err::<
                (),
                ProtocolError,
            >(e),
        },
{
    match session.on_command(command.signal()) {
        Ok(_) => Ok(command.to_json()),
        Err(e) => Err(e),
    }
}

/// What one peer sends in order, the other receives: a well-formed event
/// that the session allows is delivered as the same event, and both ends
/// move their session to the same state.
pub proof fn sent_event_is_delivered(session: Session, event: EventView)
    requires
        event.well_formed(),
    ensures
        session.event_verdict(event.signal()) is Ok ==> event_outcome(session, event.wire())
            == Reception::<EventView>::Delivered(event),
        session_after_event(session, event.wire()) == session.after_event(event.signal()),
{
    event.wire_round_trip();
}

/// What one peer sends in order, the other receives: a well-formed command
/// that the session allows is delivered as the same command, and both ends
/// move their session to the same state.
pub proof fn sent_command_is_delivered(session: Session, command: CommandView)
    requires
        command.well_formed(),
    ensures
        session.command_verdict(command.signal()) is Ok ==> command_outcome(
            session,
            command.wire(),
        ) == Reception::<CommandView>::Delivered(command),
        session_after_command(session, command.wire()) == session.after_command(
            command.signal(),
        ),
{
    command.wire_round_trip();
}

/// Two well-formed events that are written alike are the same event, and so
/// are two commands: nothing is lost on the wire.
pub proof fn the_wire_tells_messages_apart(
    event: EventView,
    other_event: EventView,
    command: CommandView,
    other_command: CommandView,
)
    requires
        event.well_formed(),
        other_event.well_formed(),
        command.well_formed(),
        other_command.well_formed(),
    ensures
        event.wire() == other_event.wire() ==> event == other_event,
        command.wire() == other_command.wire() ==> command == other_command,
{
    event.wire_round_trip();
    other_event.wire_round_trip();
    command.wire_round_trip();
    other_command.wire_round_trip();
}

/// A tree that is passed over changes nothing: the lines that follow are
/// treated as if it had never arrived.
pub proof fn skipped_tree_changes_nothing(session: Session, tree: JsonView)
    ensures
        event_outcome(session, tree) is Skipped ==> session_after_event(session, tree) == session,
        command_outcome(session, tree) is Skipped ==> session_after_command(session, tree)
            == session,
        event_outcome(session, tree) is Fatal ==> session_after_event(session, tree).terminated,
        command_outcome(session, tree) is Fatal ==> session_after_command(
            session,
            tree,
        ).terminated,
{
}

/// The table of devices after `command`: a `ConfigureDevice` replaces what is
/// configured at its port, any other command leaves the table as it was.
pub open spec fn devices_after(table: Map<Port, Device>, command: CommandView) -> Map<
    Port,
    Device,
> {
    match command {
        CommandView::ConfigureDevice { port, device } => table.insert(port, device),
        _ => table,
    }
}

/// Takes note of a command that was delivered, in the table of devices.
pub fn note_devices(table: &mut DeviceTable, command: &Command)
    ensures
        final(table)@ == devices_after(old(table)@, command@),
{
    match command {
        Command::ConfigureDevice { port, device } => {
            table.configure(*port, *device);
        },
        _ => {},
    }
}

impl EventView {
    /// The handshake that the event carries, if it is one.
    pub open spec fn handshake(self) -> Option<HandshakeView> {
        match self {
            EventView::Handshake { version, extensions } => Some(
                HandshakeView { version, extensions },
            ),
            _ => None,
        }
    }
}

impl CommandView {
    /// The handshake that the command carries, if it is one.
    pub open spec fn handshake(self) -> Option<HandshakeView> {
        match self {
            CommandView::Handshake { version, extensions } => Some(
                HandshakeView { version, extensions },
            ),
            _ => None,
        }
    }
}

/// What an optional handshake holds.
pub open spec fn optional_handshake(handshake: Option<Handshake>) -> Option<HandshakeView> {
    match handshake {
        Some(h) => Some(h@),
        None => None,
    }
}

/// A copy of a list of extensions.
fn copy_of(extensions: &Vec<String>) -> (copy: Vec<String>)
    ensures
        copy.deep_view() == extensions.deep_view(),
{
    let mut copy: Vec<String> = Vec::new();
    let mut i: usize = 0;
    while i < extensions.len()
        invariant
            i <= extensions.len(),
            copy@.len() == i,
            forall|k: int| 0 <= k < i ==> (#[trigger] copy@[k])@ == extensions@[k]@,
        decreases extensions.len() - i,
    {
        copy.push(extensions[i].clone());
        i += 1;
    }
    assert(copy.deep_view() =~= extensions.deep_view());
    copy
}

impl Handshake {
    /// The event that opens the event stream with this handshake.
    pub fn to_event(&self) -> (event: Event)
        ensures
            event@.handshake() == Some(self@),
    {
        Event::Handshake { version: self.version, extensions: copy_of(&self.extensions) }
    }

    /// The command that opens the command stream with this handshake.
    pub fn to_command(&self) -> (command: Command)
        ensures
            command@.handshake() == Some(self@),
    {
        Command::Handshake { version: self.version, extensions: copy_of(&self.extensions) }
    }

    /// The handshake of the peer, out of the event that carries it.
    pub fn of_event(event: &Event) -> (handshake: Option<Handshake>)
        ensures
            optional_handshake(handshake) == event@.handshake(),
    {
        match event {
            Event::Handshake { version, extensions } => Some(
                Handshake { version: *version, extensions: copy_of(extensions) },
            ),
            _ => None,
        }
    }

    /// The handshake of the peer, out of the command that carries it.
    pub fn of_command(command: &Command) -> (handshake: Option<Handshake>)
        ensures
            optional_handshake(handshake) == command@.handshake(),
    {
        match command {
            Command::Handshake { version, extensions } => Some(
                Handshake { version: *version, extensions: copy_of(extensions) },
            ),
            _ => None,
        }
    }
}

} // verus!
