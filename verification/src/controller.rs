//! Device controller: the protocol of one toggle.
//!
//! Opening a device and writing to it are the front end's work. The
//! controller decides what is to be done next: it hands out one [`Action`] at
//! a time and takes the [`Event`] that came of it. A toggle opens the device,
//! sends the command, records the outcome in the session and has the handle
//! released, in this order and on every path.

use vstd::prelude::*;

use crate::catalog::identity_of;
use crate::catalog::DeviceIdentity;
use crate::catalog::DeviceInfo;
use crate::catalog::DeviceInfoView;
use crate::codec::command_for;
use crate::codec::encode;
use crate::codec::payload_bytes;
use crate::codec::Command;
use crate::codec::Payload;
use crate::error::Error;
use crate::error::ErrorKind;
use crate::error::ErrorView;
use crate::session::record_spec;
use crate::session::SessionEntryView;
use crate::session::SessionState;

verus! {

/// How far a toggle has come.
#[derive(Clone, Copy, Debug, PartialEq, Eq, Structural)]
pub enum Phase {
    /// The device is being opened.
    Opening,
    /// The device is open and the command is being written.
    Sending,
    /// The toggle has ended; no handle is left open.
    Done,
}

/// What the front end reports back to the controller.
#[derive(Debug)]
pub enum Event {
    /// The device was opened.
    Opened,
    /// The device could not be opened; the platform's words are attached.
    OpenFailed(String),
    /// The command was written.
    Sent,
    /// The write failed; the platform's words are attached.
    SendFailed(String),
}

/// An [`Event`] as contracts see it.
pub enum EventView {
    Opened,
    OpenFailed(Seq<char>),
    Sent,
    SendFailed(Seq<char>),
}

impl View for Event {
    type V = EventView;

    open spec fn view(&self) -> EventView {
        match self {
            Event::Opened => EventView::Opened,
            Event::OpenFailed(detail) => EventView::OpenFailed(detail@),
            Event::Sent => EventView::Sent,
            Event::SendFailed(detail) => EventView::SendFailed(detail@),
        }
    }
}

/// What the controller asks the front end to do next.
#[derive(Debug)]
pub enum Action {
    /// Open the interface that the platform keeps under `handle`.
    Open { handle: u64 },
    /// Write `payload` to the device that was opened.
    Send { payload: Payload },
    /// Release the handle. The toggle has ended with `result`.
    Close { result: Result<(), Error> },
    /// The toggle has ended with `error` before any handle existed.
    Report { error: Error },
    /// Leave the event loop.
    Quit,
    /// Nothing is to be done.
    Nothing,
}

/// An [`Action`] as contracts see it.
pub enum ActionView {
    Open { handle: u64 },
    Send { payload: Seq<u8> },
    Close { result: Result<(), ErrorView> },
    Report { error: ErrorView },
    Quit,
    Nothing,
}

impl View for Action {
    type V = ActionView;

    open spec fn view(&self) -> ActionView {
        match self {
            Action::Open { handle } => ActionView::Open { handle: *handle },
            Action::Send { payload } => ActionView::Send { payload: payload@ },
            Action::Close { result } => ActionView::Close {
                result: match result {
                    Ok(_) => Ok(()),
                    Err(error) => Err(error@),
                },
            },
            Action::Report { error } => ActionView::Report { error: error@ },
            Action::Quit => ActionView::Quit,
            Action::Nothing => ActionView::Nothing,
        }
    }
}

/// One toggle of one device, from the operator's request to its end.
#[derive(Debug)]
pub struct Toggle {
    identity: DeviceIdentity,
    handle: u64,
    command: Command,
    phase: Phase,
}

/// A [`Toggle`] as contracts see it.
pub struct ToggleView {
    pub identity: DeviceIdentity,
    pub handle: u64,
    pub command: Command,
    pub phase: Phase,
}

impl View for Toggle {
    type V = ToggleView;

    closed spec fn view(&self) -> ToggleView {
        ToggleView {
            identity: self.identity,
            handle: self.handle,
            command: self.command,
            phase: self.phase,
        }
    }
}

/// The toggle that `command` on `device` at `position` begins with.
pub open spec fn begin_spec(device: DeviceInfoView, position: usize, command: Command) -> ToggleView {
    ToggleView {
        identity: identity_of(device, position),
        handle: device.handle,
        command,
        phase: Phase::Opening,
    }
}

/// The failure of kind `kind` that the platform described as `detail`.
pub open spec fn failure(kind: ErrorKind, detail: Seq<char>) -> ErrorView {
    ErrorView { kind, detail }
}

/// What is to be written to a device that was opened, if one was.
pub open spec fn fnlock_spec(opened_device: Option<u64>, to_be_locked: bool) -> ActionView {
    match opened_device {
        Some(_) => ActionView::Send { payload: payload_bytes(command_for(to_be_locked)) },
        None => ActionView::Nothing,
    }
}

/// The phase that follows `phase` on `event`. An event that the phase does
/// not wait for changes nothing.
pub open spec fn next_phase(phase: Phase, event: EventView) -> Phase {
    match (phase, event) {
        (Phase::Opening, EventView::Opened) => Phase::Sending,
        (Phase::Opening, EventView::OpenFailed(_)) => Phase::Done,
        (Phase::Sending, EventView::Sent) => Phase::Done,
        (Phase::Sending, EventView::SendFailed(_)) => Phase::Done,
        _ => phase,
    }
}

/// What `toggle` asks for on `event`.
pub open spec fn next_action(toggle: ToggleView, event: EventView) -> ActionView {
    match (toggle.phase, event) {
        (Phase::Opening, EventView::Opened) => fnlock_spec(
            Some(toggle.handle),
            toggle.command == Command::Lock,
        ),
        (Phase::Opening, EventView::OpenFailed(detail)) => ActionView::Report {
            error: failure(ErrorKind::OpenFailed, detail),
        },
        (Phase::Sending, EventView::Sent) => ActionView::Close { result: Ok(()) },
        (Phase::Sending, EventView::SendFailed(detail)) => ActionView::Close {
            result: Err(failure(ErrorKind::WriteFailed, detail)),
        },
        _ => ActionView::Nothing,
    }
}

/// The session after `toggle` took `event`: the outcome of a write is
/// recorded, and nothing else is.
pub open spec fn session_after(
    toggle: ToggleView,
    event: EventView,
    session: Map<DeviceIdentity, SessionEntryView>,
) -> Map<DeviceIdentity, SessionEntryView> {
    match (toggle.phase, event) {
        (Phase::Sending, EventView::Sent) => record_spec(
            session,
            toggle.identity,
            toggle.command,
            Ok(()),
        ),
        (Phase::Sending, EventView::SendFailed(detail)) => record_spec(
            session,
            toggle.identity,
            toggle.command,
            Err(failure(ErrorKind::WriteFailed, detail)),
        ),
        _ => session,
    }
}

/// A write is asked for in answer to a successful open, and to nothing else:
/// after a failure to open, and after the toggle has ended, no event leads to
/// a write.
pub proof fn lemma_send_only_after_open(toggle: ToggleView, event: EventView)
    ensures
        next_action(toggle, event) is Send <==> (toggle.phase == Phase::Opening
            && event is Opened),
        next_action(toggle, event) is Send ==> next_action(toggle, event)->payload
            == payload_bytes(toggle.command),
{
}

/// A failure to open ends the toggle with a report, asks for no write and
/// leaves the session as it was; whatever is reported afterwards is answered
/// with nothing and changes nothing.
pub proof fn lemma_open_failure_ends_toggle(
    toggle: ToggleView,
    detail: Seq<char>,
    later: EventView,
    session: Map<DeviceIdentity, SessionEntryView>,
)
    requires
        toggle.phase == Phase::Opening,
    ensures
        ({
            let failed = EventView::OpenFailed(detail);
            let ended = ToggleView { phase: next_phase(toggle.phase, failed), ..toggle };
            &&& ended.phase == Phase::Done
            &&& next_action(toggle, failed) == (ActionView::Report {
                error: failure(ErrorKind::OpenFailed, detail),
            })
            &&& session_after(toggle, failed, session) == session
            &&& next_phase(ended.phase, later) == Phase::Done
            &&& next_action(ended, later) == ActionView::Nothing
            &&& session_after(ended, later, session) == session
        }),
{
}

/// A handle that was opened is released: the event that ends a toggle whose
/// device is open is answered with `Close`, after success and after failure,
/// and `Close` is asked for at no other time.
pub proof fn lemma_open_handle_is_released(toggle: ToggleView, event: EventView)
    ensures
        toggle.phase == Phase::Sending && next_phase(toggle.phase, event) == Phase::Done
            ==> next_action(toggle, event) is Close,
        next_action(toggle, event) is Close ==> toggle.phase == Phase::Sending && next_phase(
            toggle.phase,
            event,
        ) == Phase::Done,
{
}

/// The session changes with the outcome of a write and with nothing else, and
/// then in the entry of the toggled device alone.
pub proof fn lemma_session_changes_with_write_outcome(
    toggle: ToggleView,
    event: EventView,
    session: Map<DeviceIdentity, SessionEntryView>,
)
    ensures
        !(toggle.phase == Phase::Sending && (event is Sent || event is SendFailed))
            ==> session_after(toggle, event, session) == session,
        forall|other: DeviceIdentity|
            other != toggle.identity ==> (session_after(toggle, event, session).contains_key(other)
                <==> session.contains_key(other)),
        forall|other: DeviceIdentity|
            other != toggle.identity && session.contains_key(other) ==> session_after(
                toggle,
                event,
                session,
            )[other] == session[other],
{
}

/// Decides what to write to a device once the attempt to open it has ended:
/// the report that locks or unlocks where `opened_device` holds the handle of
/// an open device, and nothing where it holds none.
pub fn fnlock(opened_device: Option<u64>, to_be_locked: bool) -> (action: Action)
    ensures
        action@ == fnlock_spec(opened_device, to_be_locked),
{
    match opened_device {
        Some(_) => Action::Send { payload: encode(Command::from_lock_flag(to_be_locked)) },
        None => Action::Nothing,
    }
}

impl Toggle {
    /// Begins a toggle of `device`, which stands at `position` of its
    /// enumeration: the first thing to do is to open it.
    pub fn begin(device: &DeviceInfo, position: usize, command: Command) -> (started: (
        Toggle,
        Action,
    ))
        ensures
            started.0@ == begin_spec(device@, position, command),
            started.1@ == (ActionView::Open { handle: device@.handle }),
    {
        let toggle = Toggle {
            identity: device.identity(position),
            handle: device.handle(),
            command,
            phase: Phase::Opening,
        };
        (toggle, Action::Open { handle: device.handle() })
    }

    /// The device that is toggled.
    pub fn identity(&self) -> (identity: DeviceIdentity)
        ensures
            identity == self@.identity,
    {
        self.identity
    }

    /// The key of the platform's reference to the device.
    pub fn handle(&self) -> (handle: u64)
        ensures
            handle == self@.handle,
    {
        self.handle
    }

    /// What is asked of the device.
    pub fn command(&self) -> (command: Command)
        ensures
            command == self@.command,
    {
        self.command
    }

    /// How far the toggle has come.
    pub fn phase(&self) -> (phase: Phase)
        ensures
            phase == self@.phase,
    {
        self.phase
    }

    /// Takes what came of the last action and says what to do next. The
    /// outcome of a write goes into `session`; a failure to open leaves the
    /// session as it was and asks for no write.
    pub fn step(&mut self, event: Event, session: &mut SessionState) -> (action: Action)
        ensures
            final(self)@ == (ToggleView {
                phase: next_phase(old(self)@.phase, event@),
                ..old(self)@
            }),
            action@ == next_action(old(self)@, event@),
            final(session)@ == session_after(old(self)@, event@, old(session)@),
    {
        match self.phase {
            Phase::Opening => match event {
                Event::Opened => {
                    self.phase = Phase::Sending;
                    fnlock(Some(self.handle), self.command.is_lock())
                },
                Event::OpenFailed(detail) => {
                    self.phase = Phase::Done;
                    Action::Report { error: Error { kind: ErrorKind::OpenFailed, detail } }
                },
                _ => Action::Nothing,
            },
            Phase::Sending => match event {
                Event::Sent => {
                    self.phase = Phase::Done;
                    session.record(self.identity, self.command, Ok(()));
                    Action::Close { result: Ok(()) }
                },
                Event::SendFailed(detail) => {
                    self.phase = Phase::Done;
                    let error = Error { kind: ErrorKind::WriteFailed, detail };
                    session.record(self.identity, self.command, Err(error.clone()));
                    Action::Close { result: Err(error) }
                },
                _ => Action::Nothing,
            },
            Phase::Done => Action::Nothing,
        }
    }
}

} // verus!
