//! Command codec: the operator's intent and the output report that carries it.

use vstd::prelude::*;

verus! {

/// Length of the output report that carries a command.
pub const PAYLOAD_LEN: usize = 7;

/// Output report that switches the function keys on (Fn-lock engaged).
pub const K380_SEQ_FKEYS_ON: [u8; 7] = [0x10, 0xff, 0x0b, 0x1e, 0x00, 0x00, 0x00];

/// Output report that switches the function keys off (Fn-lock released).
pub const K380_SEQ_FKEYS_OFF: [u8; 7] = [0x10, 0xff, 0x0b, 0x1e, 0x01, 0x00, 0x00];

/// What the operator asks of a device.
#[derive(Clone, Copy, Debug, PartialEq, Eq, Structural)]
pub enum Command {
    Lock,
    Unlock,
}

/// The command that a one-shot run issues: to lock, unless told to unlock.
pub open spec fn command_for(to_be_locked: bool) -> Command {
    if to_be_locked {
        Command::Lock
    } else {
        Command::Unlock
    }
}

impl Command {
    /// The command for a lock flag: `Lock` when it is set, `Unlock` when not.
    pub fn from_lock_flag(to_be_locked: bool) -> (command: Command)
        ensures
            command == command_for(to_be_locked),
    {
        if to_be_locked {
            Command::Lock
        } else {
            Command::Unlock
        }
    }

    /// Whether this is the command to lock.
    pub fn is_lock(self) -> (lock: bool)
        ensures
            lock == (self == Command::Lock),
    {
        match self {
            Command::Lock => true,
            Command::Unlock => false,
        }
    }
}

/// The bytes of the output report for `command`.
pub open spec fn payload_bytes(command: Command) -> Seq<u8> {
    match command {
        Command::Lock => seq![0x10u8, 0xffu8, 0x0bu8, 0x1eu8, 0x00u8, 0x00u8, 0x00u8],
        Command::Unlock => seq![0x10u8, 0xffu8, 0x0bu8, 0x1eu8, 0x01u8, 0x00u8, 0x00u8],
    }
}

/// An encoded command. Only [`encode`] makes one.
#[derive(Clone, Copy, Debug)]
pub struct Payload {
    bytes: [u8; 7],
}

impl View for Payload {
    type V = Seq<u8>;

    closed spec fn view(&self) -> Seq<u8> {
        self.bytes@
    }
}

impl Payload {
    #[verifier::type_invariant]
    spec fn is_known(self) -> bool {
        self.bytes@ == payload_bytes(Command::Lock) || self.bytes@ == payload_bytes(Command::Unlock)
    }

    /// The report as it goes over the wire.
    pub fn as_bytes(&self) -> (bytes: &[u8; 7])
        ensures
            bytes@ == self@,
    {
        &self.bytes
    }
}

/// Encodes `command` as the output report that the firmware understands.
pub fn encode(command: Command) -> (payload: Payload)
    ensures
        payload@ == payload_bytes(command),
{
    match command {
        Command::Lock => Payload { bytes: K380_SEQ_FKEYS_ON },
        Command::Unlock => Payload { bytes: K380_SEQ_FKEYS_OFF },
    }
}

/// The two reports have the same length and differ in the fifth byte alone,
/// which is `0x00` to lock and `0x01` to unlock.
pub proof fn lemma_payloads_differ_in_fifth_byte_only()
    ensures
        payload_bytes(Command::Lock).len() == PAYLOAD_LEN,
        payload_bytes(Command::Unlock).len() == PAYLOAD_LEN,
        forall|i: int|
            0 <= i < PAYLOAD_LEN ==> ((#[trigger] payload_bytes(Command::Lock)[i]) != payload_bytes(
                Command::Unlock,
            )[i] <==> i == 4),
        payload_bytes(Command::Lock)[4] == 0x00,
        payload_bytes(Command::Unlock)[4] == 0x01,
{
}

/// A report tells which command it carries: two commands with the same
/// report are the same command.
pub proof fn lemma_payload_determines_command(a: Command, b: Command)
    requires
        payload_bytes(a) == payload_bytes(b),
    ensures
        a == b,
{
    if a != b {
        assert(payload_bytes(Command::Lock)[4] != payload_bytes(Command::Unlock)[4]);
    }
}

} // verus!
