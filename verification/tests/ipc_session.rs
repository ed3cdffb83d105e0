use snowflake_ingame::ipc::cmd::{
    frame_size, CommandError, GameWindowCommand, GameWindowCommandParams, GameWindowCommandType,
    GameWindowMagic, Size,
};
use snowflake_ingame::ipc::{
    connect, pipe_name, ConnectStep, HandshakeError, IoOutcome, IpcConnectError, IpcConnection,
    IpcConnectionBuilder, PumpEvent, PumpRequest, PumpState, PumpStep, CONNECT_RETRY_MS,
    ERROR_PIPE_BUSY,
};

const SESSION: u128 = 0x936d_a01f_9abd_4d9d_80c7_02af_85c8_22a8;

fn open_session() -> IpcConnection {
    let builder = IpcConnectionBuilder::new(SESSION);
    let echo = GameWindowCommand::handshake(SESSION).to_bytes();
    builder.connect(&echo).unwrap()
}

fn quiet(next: PumpRequest) -> PumpStep {
    PumpStep { deliver: None, rejected: None, next }
}

#[test]
fn pipe_name_is_prefix_and_simple_uuid() {
    assert_eq!(
        pipe_name(SESSION),
        r"\\.\pipe\Snowflake.Orchestration.Renderer-936da01f9abd4d9d80c702af85c822a8"
    );
}

#[test]
fn pipe_name_of_the_nil_session() {
    assert_eq!(
        IpcConnectionBuilder::new(0).pipe_name(),
        r"\\.\pipe\Snowflake.Orchestration.Renderer-00000000000000000000000000000000"
    );
}

#[test]
fn pipe_name_is_lower_case_and_most_significant_digit_first() {
    assert_eq!(
        pipe_name(0xABCD_EF00_0000_0000_0000_0000_0000_0001),
        r"\\.\pipe\Snowflake.Orchestration.Renderer-abcdef00000000000000000000000001"
    );
    assert_eq!(
        pipe_name(u128::MAX),
        r"\\.\pipe\Snowflake.Orchestration.Renderer-ffffffffffffffffffffffffffffffff"
    );
}

#[test]
fn busy_pipe_is_tried_again_after_fifty_milliseconds() {
    assert_eq!(ERROR_PIPE_BUSY, 231);
    assert_eq!(CONNECT_RETRY_MS, 50);
    assert_eq!(connect(None), ConnectStep::Connected);
    assert_eq!(connect(Some(Some(231))), ConnectStep::Retry(50));
    assert_eq!(connect(Some(Some(2))), ConnectStep::Fail);
    assert_eq!(connect(Some(Some(0))), ConnectStep::Fail);
    assert_eq!(connect(Some(None)), ConnectStep::Fail);
}

#[test]
fn builder_sends_the_handshake_of_its_session() {
    let builder = IpcConnectionBuilder::new(SESSION);
    assert_eq!(builder.uuid(), SESSION);
    let frame = builder.handshake();
    assert_eq!(frame.len(), frame_size());
    assert_eq!(
        GameWindowCommand::from_bytes(&frame),
        Ok(GameWindowCommand::handshake(SESSION))
    );
}

#[test]
fn echoed_handshake_opens_the_session() {
    let builder = IpcConnectionBuilder::new(SESSION);
    let echo = builder.handshake();
    let connection = builder.connect(&echo).unwrap();
    assert_eq!(connection.state(), PumpState::Top);
    assert_eq!(connection.listen(), PumpRequest::CheckKill);
}

#[test]
fn handshake_of_another_session_is_a_protocol_violation() {
    let reply = GameWindowCommand::handshake(SESSION + 1).to_bytes();
    let outcome = IpcConnectionBuilder::new(SESSION).connect(&reply);
    assert_eq!(
        outcome.err(),
        Some(HandshakeError::Connect(IpcConnectError::InvalidHandshake))
    );
}

#[test]
fn any_other_frame_first_is_a_protocol_violation() {
    let replies = vec![
        GameWindowCommand::window_resize(&Size::new(1, 1)),
        GameWindowCommand {
            magic: GameWindowMagic(GameWindowMagic::MAGIC),
            ty: GameWindowCommandType(GameWindowCommandType::SHUTDOWN),
            params: GameWindowCommandParams::Empty,
        },
    ];
    for reply in replies {
        let outcome = IpcConnectionBuilder::new(SESSION).connect(&reply.to_bytes());
        assert_eq!(
            outcome.err(),
            Some(HandshakeError::Connect(IpcConnectError::InvalidHandshake))
        );
    }
    // The right UUID under another type tag is no handshake either.
    let mut frame = GameWindowCommand::handshake(SESSION).to_bytes();
    frame[1] = GameWindowCommandType::CURSOR;
    assert_eq!(
        IpcConnectionBuilder::new(SESSION).connect(&frame).err(),
        Some(HandshakeError::Connect(IpcConnectError::InvalidHandshake))
    );
}

#[test]
fn malformed_reply_is_no_handshake() {
    let mut frame = GameWindowCommand::handshake(SESSION).to_bytes();
    frame[0] = 0;
    assert_eq!(
        IpcConnectionBuilder::new(SESSION).connect(&frame).err(),
        Some(HandshakeError::Frame(CommandError::BadMagic))
    );
    assert_eq!(
        IpcConnectionBuilder::new(SESSION).connect(&frame[..45]).err(),
        Some(HandshakeError::Frame(CommandError::Misaligned))
    );
}

#[test]
fn connect_error_speaks() {
    assert_eq!(IpcConnectError::InvalidHandshake.message(), "Invalid handshake");
}

#[test]
fn kill_signal_ends_the_loop_in_good_order() {
    let mut connection = open_session();
    assert_eq!(
        connection.step(PumpEvent::Kill(true)),
        quiet(PumpRequest::Finish(Ok(())))
    );
    assert_eq!(connection.state(), PumpState::Finished(None));
    // The loop stays ended.
    assert_eq!(
        connection.step(PumpEvent::Kill(false)),
        quiet(PumpRequest::Finish(Ok(())))
    );
}

#[test]
fn turn_reads_one_frame_and_writes_one_command() {
    let mut connection = open_session();
    let inbound = GameWindowCommand::window_resize(&Size::new(640, 480));
    let outbound = GameWindowCommand::window_resize(&Size::new(800, 600));
    assert_eq!(connection.step(PumpEvent::Kill(false)), quiet(PumpRequest::AwaitReady));
    assert_eq!(
        connection.step(PumpEvent::Ready(Ok((true, true)))),
        quiet(PumpRequest::Read(46))
    );
    assert_eq!(
        connection.step(PumpEvent::Read(IoOutcome::Done, &inbound.to_bytes())),
        PumpStep { deliver: Some(inbound), rejected: None, next: PumpRequest::TakeOutbound }
    );
    assert_eq!(
        connection.step(PumpEvent::Outbound(Some(outbound))),
        quiet(PumpRequest::Write(outbound.to_bytes()))
    );
    assert_eq!(connection.state(), PumpState::Writing(outbound));
    assert_eq!(
        connection.step(PumpEvent::Written(IoOutcome::Done)),
        quiet(PumpRequest::CheckKill)
    );
    assert_eq!(connection.state(), PumpState::Top);
}

#[test]
fn malformed_frame_is_dropped_and_the_loop_goes_on() {
    let mut connection = open_session();
    connection.step(PumpEvent::Kill(false));
    connection.step(PumpEvent::Ready(Ok((true, false))));
    assert_eq!(connection.state(), PumpState::Reading { writable: false });
    // Nothing was read into the zeroed buffer.
    assert_eq!(
        connection.step(PumpEvent::Read(IoOutcome::Done, &[0u8; 46])),
        PumpStep {
            deliver: None,
            rejected: Some(CommandError::BadMagic),
            next: PumpRequest::CheckKill
        }
    );
    connection.step(PumpEvent::Kill(false));
    connection.step(PumpEvent::Ready(Ok((true, true))));
    assert_eq!(
        connection.step(PumpEvent::Read(IoOutcome::Done, &[0x9f; 12])),
        PumpStep {
            deliver: None,
            rejected: Some(CommandError::Misaligned),
            next: PumpRequest::TakeOutbound
        }
    );
}

#[test]
fn blocking_read_or_write_ends_the_turn() {
    let mut connection = open_session();
    connection.step(PumpEvent::Kill(false));
    connection.step(PumpEvent::Ready(Ok((true, true))));
    assert_eq!(
        connection.step(PumpEvent::Read(IoOutcome::WouldBlock, &[])),
        quiet(PumpRequest::CheckKill)
    );
    connection.step(PumpEvent::Kill(false));
    connection.step(PumpEvent::Ready(Ok((false, true))));
    assert_eq!(connection.state(), PumpState::Taking);
    connection.step(PumpEvent::Outbound(Some(GameWindowCommand::handshake(1))));
    assert_eq!(
        connection.step(PumpEvent::Written(IoOutcome::WouldBlock)),
        quiet(PumpRequest::CheckKill)
    );
}

#[test]
fn empty_outbound_queue_and_idle_pipe_end_the_turn() {
    let mut connection = open_session();
    connection.step(PumpEvent::Kill(false));
    assert_eq!(
        connection.step(PumpEvent::Ready(Ok((false, false)))),
        quiet(PumpRequest::CheckKill)
    );
    connection.step(PumpEvent::Kill(false));
    assert_eq!(
        connection.step(PumpEvent::Ready(Ok((false, true)))),
        quiet(PumpRequest::TakeOutbound)
    );
    assert_eq!(
        connection.step(PumpEvent::Outbound(None)),
        quiet(PumpRequest::CheckKill)
    );
}

#[test]
fn pipe_failures_end_the_loop_with_their_code() {
    let mut polling = open_session();
    polling.step(PumpEvent::Kill(false));
    assert_eq!(
        polling.step(PumpEvent::Ready(Err(109))),
        quiet(PumpRequest::Finish(Err(109)))
    );
    assert_eq!(polling.state(), PumpState::Finished(Some(109)));
    assert_eq!(polling.listen(), PumpRequest::Finish(Err(109)));

    let mut reading = open_session();
    reading.step(PumpEvent::Kill(false));
    reading.step(PumpEvent::Ready(Ok((true, true))));
    assert_eq!(
        reading.step(PumpEvent::Read(IoOutcome::Failed(232), &[])),
        quiet(PumpRequest::Finish(Err(232)))
    );

    let mut writing = open_session();
    writing.step(PumpEvent::Kill(false));
    writing.step(PumpEvent::Ready(Ok((false, true))));
    writing.step(PumpEvent::Outbound(Some(GameWindowCommand::handshake(1))));
    assert_eq!(
        writing.step(PumpEvent::Written(IoOutcome::Failed(-5))),
        quiet(PumpRequest::Finish(Err(-5)))
    );
}

#[test]
fn event_out_of_turn_changes_nothing() {
    let mut connection = open_session();
    assert_eq!(
        connection.step(PumpEvent::Written(IoOutcome::Done)),
        quiet(PumpRequest::CheckKill)
    );
    assert_eq!(connection.state(), PumpState::Top);
    connection.step(PumpEvent::Kill(false));
    assert_eq!(
        connection.step(PumpEvent::Read(IoOutcome::Done, &[0u8; 46])),
        quiet(PumpRequest::AwaitReady)
    );
    assert_eq!(connection.state(), PumpState::Polling);
    connection.step(PumpEvent::Ready(Ok((false, true))));
    connection.step(PumpEvent::Outbound(Some(GameWindowCommand::handshake(9))));
    assert_eq!(
        connection.step(PumpEvent::Kill(true)),
        quiet(PumpRequest::Write(GameWindowCommand::handshake(9).to_bytes()))
    );
}
