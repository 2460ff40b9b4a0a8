//! The client controller driven against a scripted module side: the tests
//! queue the module's replies into the channel before each blocking call.

use std::sync::mpsc::channel;
use std::sync::mpsc::{Receiver, Sender};

use tsffs_module::client::Client;
use tsffs_module::messages::{
    ClientMessage, InputConfig, Magic, ModuleMessage, OutputConfig, ProtocolError, StopReason,
};
use tsffs_module::state::{Event, ProtocolState};

fn test_config() -> InputConfig {
    InputConfig {
        faults: vec![13, -1],
        timeout_micros: 3_000_000,
        log_level: 2,
    }
}

fn client_setup() -> (Client, Receiver<ClientMessage>, Sender<ModuleMessage>) {
    let (ctx, crx) = channel();
    let (mtx, mrx) = channel();
    (Client::new(ctx, mrx), crx, mtx)
}

#[test]
fn initialize_round_trip() {
    let (mut client, crx, mtx) = client_setup();
    let layout = OutputConfig {
        buffer_address: 0,
        buffer_size: 0,
    };
    mtx.send(ModuleMessage::Initialized(layout.clone())).unwrap();
    let out = client.initialize(test_config()).unwrap();
    assert_eq!(out, layout);
    assert_eq!(client.current_state(), ProtocolState::Initialized);
    let seen = crx.recv().unwrap();
    assert_eq!(seen, ClientMessage::Initialize(test_config()));
}

#[test]
fn run_before_reset_fails_locally() {
    let (mut client, crx, mtx) = client_setup();
    mtx.send(ModuleMessage::Initialized(OutputConfig {
        buffer_address: 0,
        buffer_size: 0,
    }))
    .unwrap();
    client.initialize(test_config()).unwrap();
    crx.recv().unwrap();

    let r = client.run(vec![1, 2, 3]);
    assert_eq!(
        r,
        Err(ProtocolError::ProtocolViolation(
            ProtocolState::Initialized,
            Event::Run
        ))
    );
    assert_eq!(client.current_state(), ProtocolState::Initialized);
    // The malformed call never touched the transport.
    assert!(crx.try_recv().is_err());
}

#[test]
fn reset_then_run_delivers_stop_reason() {
    let (mut client, crx, mtx) = client_setup();
    mtx.send(ModuleMessage::Initialized(OutputConfig {
        buffer_address: 0x8000,
        buffer_size: 64,
    }))
    .unwrap();
    client.initialize(test_config()).unwrap();

    mtx.send(ModuleMessage::Ready).unwrap();
    client.reset().unwrap();
    assert_eq!(client.current_state(), ProtocolState::Ready);

    let reason = StopReason::Magic(Magic::Stop(2, Some(42)), 0);
    mtx.send(ModuleMessage::Stopped(reason)).unwrap();
    let got = client.run(vec![0x41; 64]).unwrap();
    assert_eq!(got, reason);
    assert_eq!(client.current_state(), ProtocolState::Stopped);

    // The module side saw the three requests in order.
    assert_eq!(
        crx.recv().unwrap(),
        ClientMessage::Initialize(test_config())
    );
    assert_eq!(crx.recv().unwrap(), ClientMessage::Reset);
    assert_eq!(crx.recv().unwrap(), ClientMessage::Run(vec![0x41; 64]));
}

#[test]
fn unexpected_reply_variant_is_rejected() {
    let (mut client, _crx, mtx) = client_setup();
    mtx.send(ModuleMessage::Ready).unwrap();
    let r = client.initialize(test_config());
    assert_eq!(r, Err(ProtocolError::UnexpectedReply));
    assert_eq!(client.current_state(), ProtocolState::HalfInitialized);

    // The same for a pending `run`: a reply that is not `Stopped` fails the
    // call without faking a stop reason.
    let (mut client, _crx, mtx) = client_setup();
    mtx.send(ModuleMessage::Initialized(OutputConfig {
        buffer_address: 0,
        buffer_size: 0,
    }))
    .unwrap();
    client.initialize(test_config()).unwrap();
    mtx.send(ModuleMessage::Ready).unwrap();
    client.reset().unwrap();
    mtx.send(ModuleMessage::Ready).unwrap();
    let r = client.run(vec![1, 2, 3]);
    assert_eq!(r, Err(ProtocolError::UnexpectedReply));
    assert_eq!(client.current_state(), ProtocolState::Running);
}

#[test]
fn exit_from_any_state_then_everything_is_rejected() {
    let (mut client, crx, _mtx) = client_setup();
    client.exit().unwrap();
    assert_eq!(client.current_state(), ProtocolState::Done);
    assert_eq!(crx.recv().unwrap(), ClientMessage::Exit);

    let r = client.reset();
    assert_eq!(
        r,
        Err(ProtocolError::ProtocolViolation(
            ProtocolState::Done,
            Event::Reset
        ))
    );
    let r = client.run(vec![1]);
    assert_eq!(
        r,
        Err(ProtocolError::ProtocolViolation(
            ProtocolState::Done,
            Event::Run
        ))
    );
    let r = client.initialize(test_config());
    assert_eq!(
        r,
        Err(ProtocolError::ProtocolViolation(
            ProtocolState::Done,
            Event::Initialize
        ))
    );
    let r = client.exit();
    assert_eq!(
        r,
        Err(ProtocolError::ProtocolViolation(
            ProtocolState::Done,
            Event::Exit
        ))
    );
    // Nothing further was transmitted.
    assert!(crx.try_recv().is_err());
}

#[test]
fn elapsed_budget_surfaces_as_ok_timeout() {
    let (mut client, _crx, mtx) = client_setup();
    mtx.send(ModuleMessage::Initialized(OutputConfig {
        buffer_address: 0x8000,
        buffer_size: 64,
    }))
    .unwrap();
    client.initialize(test_config()).unwrap();
    mtx.send(ModuleMessage::Ready).unwrap();
    client.reset().unwrap();

    // The module classified the run as a timeout: the client sees it as an
    // ordinary stop reason, not as an error.
    mtx.send(ModuleMessage::Stopped(StopReason::TimeOut)).unwrap();
    let r = client.run(vec![0x41; 8]);
    assert_eq!(r, Ok(StopReason::TimeOut));
    assert_eq!(client.current_state(), ProtocolState::Stopped);
}

#[test]
fn disconnected_module_is_a_transport_failure() {
    let (ctx, crx) = channel();
    let (_mtx, mrx) = channel::<ModuleMessage>();
    let mut client = Client::new(ctx, mrx);
    drop(crx);
    let r = client.exit();
    assert_eq!(r, Err(ProtocolError::TransportFailure));
    // The send transition was applied before the failure surfaced.
    assert_eq!(client.current_state(), ProtocolState::Done);
}

#[test]
fn full_session_over_channels_ends_done() {
    let (mut client, crx, mtx) = client_setup();
    mtx.send(ModuleMessage::Initialized(OutputConfig {
        buffer_address: 0x8000,
        buffer_size: 64,
    }))
    .unwrap();
    client.initialize(test_config()).unwrap();
    for i in 0..5u8 {
        mtx.send(ModuleMessage::Ready).unwrap();
        client.reset().unwrap();
        mtx.send(ModuleMessage::Stopped(StopReason::SimulationExit(0)))
            .unwrap();
        let reason = client.run(vec![i; 8]).unwrap();
        assert_eq!(reason, StopReason::SimulationExit(0));
    }
    client.exit().unwrap();
    assert_eq!(client.current_state(), ProtocolState::Done);

    // 1 initialize + 5 resets + 5 runs + 1 exit crossed the channel.
    let mut count: u32 = 0;
    while crx.try_recv().is_ok() {
        count += 1;
    }
    assert_eq!(count, 12);
}
