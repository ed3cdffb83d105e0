//! The command channel to the overlay producer: framed commands over a
//! named duplex pipe.
//!
//! The pipe itself is the caller's. What is decided here is the name of
//! the pipe, the handshake that opens a session, and what each turn of
//! the pump loop does with what the pipe and the queues gave.

pub mod cmd;
pub mod wire;

use crate::ipc::cmd::{
    frame_bytes, lemma_frame_round_trip, parse_frame, CommandError, GameWindowCommand,
    GameWindowCommandParams, GameWindowCommandType, GameWindowMagic, HandshakeEventParams,
};
use vstd::prelude::*;
use vstd::string::StringExecFns;

verus! {

/// Why a session could not be opened.
#[derive(PartialEq, Eq, Copy, Clone, Debug, Structural)]
pub enum IpcConnectError {
    InvalidHandshake,
}

impl IpcConnectError {
    /// The error in words.
    pub fn message(&self) -> (text: &'static str)
        ensures
            text@ == "Invalid handshake"@,
    {
        match self {
            IpcConnectError::InvalidHandshake => "Invalid handshake",
        }
    }
}

/// `16` to the power `n`.
pub open spec fn pow16(n: nat) -> nat
    decreases n,
{
    if n == 0 {
        1
    } else {
        16 * pow16((n - 1) as nat)
    }
}

/// The lower-case hexadecimal digit of a value below sixteen.
pub open spec fn hex_digit(value: nat) -> char {
    if value < 10 {
        (('0' as u8) + value) as u8 as char
    } else {
        (('a' as u8) + (value - 10)) as u8 as char
    }
}

/// A UUID in simple form: its thirty-two hexadecimal digits in lower
/// case, most significant first, with no hyphens or braces.
pub open spec fn simple_form(uuid: u128) -> Seq<char> {
    Seq::new(32, |i: int| hex_digit(((uuid as nat) / pow16((31 - i) as nat)) % 16))
}

/// `Uuid::from_u128` followed by the `Display` of `Uuid::to_simple`: the
/// bytes of the UUID, first byte most significant, each as two lower-case
/// hexadecimal digits.
#[verifier::external_body]
fn uuid_to_simple(uuid: u128) -> (text: String)
    ensures
        text@ == simple_form(uuid),
{
    uuid::Uuid::from_u128(uuid).to_simple().to_string()
}

/// The name of the pipe of a session.
pub open spec fn spec_pipe_name(pipeid: u128) -> Seq<char> {
    r"\\.\pipe\Snowflake.Orchestration.Renderer-"@ + simple_form(pipeid)
}

/// The name of the pipe of the session `pipeid`.
pub fn pipe_name(pipeid: u128) -> (name: String)
    ensures
        name@ == spec_pipe_name(pipeid),
{
    let id = uuid_to_simple(pipeid);
    String::from_str(r"\\.\pipe\Snowflake.Orchestration.Renderer-").concat(id.as_str())
}

/// The system's error code for a pipe whose instances are all busy.
pub const ERROR_PIPE_BUSY: i32 = 231;

/// How long to wait before a busy pipe is tried again, in milliseconds.
pub const CONNECT_RETRY_MS: u64 = 50;

/// What to do after an attempt to open the pipe.
#[derive(PartialEq, Eq, Copy, Clone, Debug, Structural)]
pub enum ConnectStep {
    /// The pipe is open.
    Connected,
    /// The pipe is busy: sleep this many milliseconds and try again.
    Retry(u64),
    /// Give up with the error of the attempt.
    Fail,
}

/// Judges an attempt to open the pipe. `error` is `None` where the pipe
/// was opened, and else holds the system's error code, if there is one.
pub fn connect(error: Option<Option<i32>>) -> (step: ConnectStep)
    ensures
        step == match error {
            None => ConnectStep::Connected,
            Some(Some(code)) if code == ERROR_PIPE_BUSY => ConnectStep::Retry(CONNECT_RETRY_MS),
            Some(_) => ConnectStep::Fail,
        },
{
    match error {
        None => ConnectStep::Connected,
        Some(Some(code)) => {
            if code == ERROR_PIPE_BUSY {
                ConnectStep::Retry(CONNECT_RETRY_MS)
            } else {
                ConnectStep::Fail
            }
        },
        Some(None) => ConnectStep::Fail,
    }
}

/// Why the reply to a handshake opens no session.
#[derive(PartialEq, Eq, Copy, Clone, Debug, Structural)]
pub enum HandshakeError {
    /// The reply is no frame.
    Frame(CommandError),
    /// The reply is a frame, but not the handshake of this session.
    Connect(IpcConnectError),
}

/// The handshake command of a session.
pub open spec fn handshake_command(pipeid: u128) -> GameWindowCommand {
    GameWindowCommand {
        magic: GameWindowMagic(GameWindowMagic::MAGIC),
        ty: GameWindowCommandType(GameWindowCommandType::HANDSHAKE),
        params: GameWindowCommandParams::HandshakeEvent(HandshakeEventParams { uuid: pipeid }),
    }
}

/// What the reply to the handshake of session `pipeid` amounts to: it
/// has to be a frame, of type handshake, and carry the UUID of the
/// session. Anything else violates the protocol.
pub open spec fn handshake_verdict(pipeid: u128, reply: Seq<u8>) -> Result<(), HandshakeError> {
    match parse_frame(reply) {
        Err(error) => Err(HandshakeError::Frame(error)),
        Ok(command) => if command.ty.0 == GameWindowCommandType::HANDSHAKE && command.params
            == GameWindowCommandParams::HandshakeEvent(HandshakeEventParams { uuid: pipeid }) {
            Ok(())
        } else {
            Err(HandshakeError::Connect(IpcConnectError::InvalidHandshake))
        },
    }
}

/// Opens a session on a pipe.
pub struct IpcConnectionBuilder {
    uuid: u128,
}

impl IpcConnectionBuilder {
    /// The UUID of the session.
    pub closed spec fn spec_uuid(&self) -> u128 {
        self.uuid
    }

    pub fn new(uuid: u128) -> (builder: IpcConnectionBuilder)
        ensures
            builder.uuid() == uuid,
    {
        IpcConnectionBuilder { uuid }
    }

    /// The UUID of the session.
    #[verifier::when_used_as_spec(spec_uuid)]
    pub fn uuid(&self) -> (uuid: u128)
        ensures
            uuid == self.spec_uuid(),
    {
        self.uuid
    }

    /// The name of the pipe to open.
    pub fn pipe_name(&self) -> (name: String)
        ensures
            name@ == spec_pipe_name(self.uuid()),
    {
        pipe_name(self.uuid)
    }

    /// The frame that the client sends first.
    pub fn handshake(&self) -> (frame: Vec<u8>)
        ensures
            frame@ == frame_bytes(handshake_command(self.uuid())),
    {
        GameWindowCommand::handshake(self.uuid).to_bytes()
    }

    /// Takes in the frame that was read back after the handshake was
    /// sent. The session is open where that frame is the handshake of
    /// this session; every other reply aborts the connection.
    pub fn connect(self, reply: &[u8]) -> (connection: Result<IpcConnection, HandshakeError>)
        ensures
            match handshake_verdict(self.uuid(), reply@) {
                Ok(_) => connection matches Ok(opened) && opened@ == PumpState::Top,
                Err(error) => connection matches Err(e) && e == error,
            },
    {
        let handshake = match GameWindowCommand::from_bytes(reply) {
            Ok(command) => command,
            Err(error) => {
                return Err(HandshakeError::Frame(error));
            },
        };
        if handshake.ty.0 != GameWindowCommandType::HANDSHAKE {
            return Err(HandshakeError::Connect(IpcConnectError::InvalidHandshake));
        }
        match handshake.params {
            GameWindowCommandParams::HandshakeEvent(params) => {
                if params.uuid != self.uuid {
                    return Err(HandshakeError::Connect(IpcConnectError::InvalidHandshake));
                }
            },
            _ => {
                return Err(HandshakeError::Connect(IpcConnectError::InvalidHandshake));
            },
        }
        Ok(IpcConnection { state: PumpState::Top })
    }
}

/// Where a turn of the pump loop stands.
#[derive(PartialEq, Eq, Copy, Clone, Debug, Structural)]
pub enum PumpState {
    /// At the top of a turn: the kill signal is looked at first.
    Top,
    /// Waiting for the pipe to become readable or writable.
    Polling,
    /// Reading a frame; `writable` is what the poll said of writing.
    Reading { writable: bool },
    /// Taking a command from the outbound queue.
    Taking,
    /// Writing the frame of a command.
    Writing(GameWindowCommand),
    /// The loop has ended: in good order, or with the system's error
    /// code.
    Finished(Option<i32>),
}

/// What the pump asks its caller to do next.
#[derive(PartialEq, Eq, Debug)]
pub enum PumpRequest {
    /// Look whether the kill signal has been given.
    CheckKill,
    /// Wait until the pipe is readable or writable.
    AwaitReady,
    /// Try to read one frame into a zeroed buffer of this many bytes.
    Read(usize),
    /// Try to take one command from the outbound queue.
    TakeOutbound,
    /// Try to write this frame.
    Write(Vec<u8>),
    /// Leave the loop: in good order, or with the system's error code.
    Finish(Result<(), i32>),
}

/// How a read or a write that must not block went.
#[derive(PartialEq, Eq, Copy, Clone, Debug, Structural)]
pub enum IoOutcome {
    Done,
    WouldBlock,
    /// Failed with the system's error code.
    Failed(i32),
}

/// What the caller reports back to the pump.
pub enum PumpEvent<'a> {
    /// Whether the kill signal has been given.
    Kill(bool),
    /// What the poll said, or the system's error code.
    Ready(Result<(bool, bool), i32>),
    /// How the read went, and the buffer that it read into.
    Read(IoOutcome, &'a [u8]),
    /// What the outbound queue gave.
    Outbound(Option<GameWindowCommand>),
    /// How the write went.
    Written(IoOutcome),
}

/// One step of the pump: what came in, and what to do next.
#[derive(PartialEq, Eq, Debug)]
pub struct PumpStep {
    /// A command that arrived and goes to the inbound queue.
    pub deliver: Option<GameWindowCommand>,
    /// Why what arrived was dropped instead.
    pub rejected: Option<CommandError>,
    pub next: PumpRequest,
}

/// Whether a request is the one that a state waits on.
pub open spec fn state_asks(state: PumpState, request: PumpRequest) -> bool {
    match state {
        PumpState::Top => request == PumpRequest::CheckKill,
        PumpState::Polling => request == PumpRequest::AwaitReady,
        PumpState::Reading { .. } => request == PumpRequest::Read(cmd::frame_len() as usize),
        PumpState::Taking => request == PumpRequest::TakeOutbound,
        PumpState::Writing(command) => request matches PumpRequest::Write(frame) && frame@
            == frame_bytes(command),
        PumpState::Finished(None) => request == PumpRequest::Finish(Ok(())),
        PumpState::Finished(Some(code)) => request == PumpRequest::Finish(Err(code)),
    }
}

/// The state after an event. An event that does not answer what the
/// state waits on changes nothing.
pub open spec fn pump_next(state: PumpState, event: PumpEvent) -> PumpState {
    match (state, event) {
        (PumpState::Top, PumpEvent::Kill(true)) => PumpState::Finished(None),
        (PumpState::Top, PumpEvent::Kill(false)) => PumpState::Polling,
        (PumpState::Polling, PumpEvent::Ready(Err(code))) => PumpState::Finished(Some(code)),
        (PumpState::Polling, PumpEvent::Ready(Ok((true, writable)))) => PumpState::Reading {
            writable,
        },
        (PumpState::Polling, PumpEvent::Ready(Ok((false, true)))) => PumpState::Taking,
        (PumpState::Polling, PumpEvent::Ready(Ok((false, false)))) => PumpState::Top,
        (PumpState::Reading { writable }, PumpEvent::Read(IoOutcome::Done, _)) => if writable {
            PumpState::Taking
        } else {
            PumpState::Top
        },
        (PumpState::Reading { .. }, PumpEvent::Read(IoOutcome::WouldBlock, _)) => PumpState::Top,
        (PumpState::Reading { .. }, PumpEvent::Read(IoOutcome::Failed(code), _)) => PumpState::Finished(
            Some(code),
        ),
        (PumpState::Taking, PumpEvent::Outbound(Some(command))) => PumpState::Writing(command),
        (PumpState::Taking, PumpEvent::Outbound(None)) => PumpState::Top,
        (PumpState::Writing(_), PumpEvent::Written(IoOutcome::Failed(code))) => PumpState::Finished(
            Some(code),
        ),
        (PumpState::Writing(_), PumpEvent::Written(_)) => PumpState::Top,
        _ => state,
    }
}

/// What an event delivers to the inbound queue: the command of a frame
/// that was read and is well formed.
pub open spec fn pump_delivers(state: PumpState, event: PumpEvent) -> Option<GameWindowCommand> {
    match (state, event) {
        (PumpState::Reading { .. }, PumpEvent::Read(IoOutcome::Done, buffer)) => match parse_frame(
            buffer@,
        ) {
            Ok(command) => Some(command),
            Err(_) => None,
        },
        _ => None,
    }
}

/// Why an event drops what was read: the frame is malformed. The loop
/// goes on all the same.
pub open spec fn pump_rejects(state: PumpState, event: PumpEvent) -> Option<CommandError> {
    match (state, event) {
        (PumpState::Reading { .. }, PumpEvent::Read(IoOutcome::Done, buffer)) => match parse_frame(
            buffer@,
        ) {
            Ok(_) => None,
            Err(error) => Some(error),
        },
        _ => None,
    }
}

/// An open session: the pump between the pipe and the two queues.
pub struct IpcConnection {
    state: PumpState,
}

impl View for IpcConnection {
    type V = PumpState;

    closed spec fn view(&self) -> PumpState {
        self.state
    }
}

impl IpcConnection {
    /// Where the loop stands.
    pub fn state(&self) -> (state: PumpState)
        ensures
            state == self@,
    {
        self.state
    }

    /// The request that is open: what the caller has to do next.
    pub fn listen(&self) -> (request: PumpRequest)
        ensures
            state_asks(self@, request),
    {
        match self.state {
            PumpState::Top => PumpRequest::CheckKill,
            PumpState::Polling => PumpRequest::AwaitReady,
            PumpState::Reading { .. } => PumpRequest::Read(cmd::frame_size()),
            PumpState::Taking => PumpRequest::TakeOutbound,
            PumpState::Writing(command) => PumpRequest::Write(command.to_bytes()),
            PumpState::Finished(None) => PumpRequest::Finish(Ok(())),
            PumpState::Finished(Some(code)) => PumpRequest::Finish(Err(code)),
        }
    }

    /// Takes in what the caller reports and says what to do next. An
    /// event that does not answer the request that is open changes
    /// nothing and has that request stated again.
    ///
    /// A turn looks at the kill signal, polls the pipe, reads one frame
    /// where the pipe is readable and writes one queued command where it
    /// is writable. A frame that is malformed is dropped and the loop
    /// goes on; a read or a write that would block ends the turn; any
    /// other failure of the pipe ends the loop.
    pub fn step(&mut self, event: PumpEvent<'_>) -> (step: PumpStep)
        ensures
            final(self)@ == pump_next(old(self)@, event),
            step.deliver == pump_delivers(old(self)@, event),
            step.rejected == pump_rejects(old(self)@, event),
            state_asks(final(self)@, step.next),
    {
        let mut deliver: Option<GameWindowCommand> = None;
        let mut rejected: Option<CommandError> = None;
        let state = self.state;
        let next = match (state, event) {
            (PumpState::Top, PumpEvent::Kill(killed)) => {
                if killed {
                    PumpState::Finished(None)
                } else {
                    PumpState::Polling
                }
            },
            (PumpState::Polling, PumpEvent::Ready(Err(code))) => PumpState::Finished(Some(code)),
            (PumpState::Polling, PumpEvent::Ready(Ok((readable, writable)))) => {
                if readable {
                    PumpState::Reading { writable }
                } else if writable {
                    PumpState::Taking
                } else {
                    PumpState::Top
                }
            },
            (PumpState::Reading { writable }, PumpEvent::Read(outcome, buffer)) => {
                match outcome {
                    IoOutcome::Done => {
                        match GameWindowCommand::from_bytes(buffer) {
                            Ok(command) => {
                                deliver = Some(command);
                            },
                            Err(error) => {
                                rejected = Some(error);
                            },
                        }
                        if writable {
                            PumpState::Taking
                        } else {
                            PumpState::Top
                        }
                    },
                    IoOutcome::WouldBlock => PumpState::Top,
                    IoOutcome::Failed(code) => PumpState::Finished(Some(code)),
                }
            },
            (PumpState::Taking, PumpEvent::Outbound(command)) => {
                match command {
                    Some(command) => PumpState::Writing(command),
                    None => PumpState::Top,
                }
            },
            (PumpState::Writing(_), PumpEvent::Written(outcome)) => {
                match outcome {
                    IoOutcome::Failed(code) => PumpState::Finished(Some(code)),
                    _ => PumpState::Top,
                }
            },
            (state, _) => state,
        };
        self.state = next;
        PumpStep { deliver, rejected, next: self.listen() }
    }
}

/// The handshake. The echo of a session's own handshake opens the
/// session. A well-formed frame of any other type, sent first, violates
/// the protocol, and so does the handshake of another session.
pub proof fn lemma_handshake_echo(pipeid: u128, reply: GameWindowCommand)
    requires
        reply.wf(),
    ensures
        handshake_verdict(pipeid, frame_bytes(handshake_command(pipeid))) == Ok::<
            (),
            HandshakeError,
        >(()),
        reply != handshake_command(pipeid) ==> handshake_verdict(pipeid, frame_bytes(reply))
            == Err::<(), HandshakeError>(
            HandshakeError::Connect(IpcConnectError::InvalidHandshake),
        ),
{
    lemma_frame_round_trip(handshake_command(pipeid));
    lemma_frame_round_trip(reply);
}

/// A malformed frame never ends the loop: whatever buffer a read hands
/// in, the pump goes on, to the outbound queue or to the next turn.
pub proof fn lemma_malformed_frame_is_not_fatal(writable: bool, buffer: &[u8])
    ensures
        pump_next(PumpState::Reading { writable }, PumpEvent::Read(IoOutcome::Done, buffer))
            == if writable {
            PumpState::Taking
        } else {
            PumpState::Top
        },
        parse_frame(buffer@).is_err() ==> pump_delivers(
            PumpState::Reading { writable },
            PumpEvent::Read(IoOutcome::Done, buffer),
        ).is_none(),
{
}

/// How far a state is into a turn of the loop.
pub open spec fn turn_progress(state: PumpState) -> nat {
    match state {
        PumpState::Top => 0,
        PumpState::Polling => 1,
        PumpState::Reading { .. } => 2,
        PumpState::Taking => 3,
        PumpState::Writing(_) => 4,
        PumpState::Finished(_) => 5,
    }
}

/// Whether an event answers what a state waits on.
pub open spec fn answers(state: PumpState, event: PumpEvent) -> bool {
    match (state, event) {
        (PumpState::Top, PumpEvent::Kill(_)) => true,
        (PumpState::Polling, PumpEvent::Ready(_)) => true,
        (PumpState::Reading { .. }, PumpEvent::Read(_, _)) => true,
        (PumpState::Taking, PumpEvent::Outbound(_)) => true,
        (PumpState::Writing(_), PumpEvent::Written(_)) => true,
        _ => false,
    }
}

/// A turn of the loop is short. Every event that answers the open
/// request ends the turn, so that the kill signal is looked at again, or
/// moves the pump further into the turn: a turn reads at most one frame
/// and writes at most one, and takes five requests at most. The loop
/// ends only on the kill signal or on a failure of the pipe.
pub proof fn lemma_turn_makes_progress(state: PumpState, event: PumpEvent)
    requires
        answers(state, event),
    ensures
        pump_next(state, event) == PumpState::Top || turn_progress(pump_next(state, event))
            > turn_progress(state),
        pump_next(state, event) is Finished ==> (event matches PumpEvent::Kill(true))
            || pump_next(state, event) matches PumpState::Finished(Some(_)),
{
}

/// An event that does not answer the open request changes nothing and
/// brings nothing in.
pub proof fn lemma_event_out_of_turn(state: PumpState, event: PumpEvent)
    requires
        !answers(state, event),
    ensures
        pump_next(state, event) == state,
        pump_delivers(state, event).is_none(),
        pump_rejects(state, event).is_none(),
{
}

} // verus!
