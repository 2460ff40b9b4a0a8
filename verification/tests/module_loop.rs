//! The module run loop driven against a scripted client side: the tests
//! queue the client's messages before each handler call and read the
//! module's replies off the other channel end.

use std::sync::mpsc::channel;
use std::sync::mpsc::{Receiver, Sender};

use tsffs_module::messages::{
    ClientMessage, InputConfig, Magic, ModuleMessage, OutputConfig, ProtocolError, StopReason,
};
use tsffs_module::module::{Action, Module, TargetRegister};
use tsffs_module::state::ProtocolState;

fn test_config() -> InputConfig {
    InputConfig {
        faults: vec![],
        timeout_micros: 3_000_000,
        log_level: 2,
    }
}

fn module_setup() -> (Module, Sender<ClientMessage>, Receiver<ModuleMessage>) {
    let (ctx, crx) = channel();
    let (mtx, mrx) = channel();
    (Module::new(mtx, crx), ctx, mrx)
}

/// Initialize the session, register processor 0, and drive it through the
/// first harness start marker, with one queued `Reset`/`Run(input)` round.
/// Returns the actions of the first-start classification.
fn drive_to_first_run(
    module: &mut Module,
    ctx: &Sender<ClientMessage>,
    mrx: &Receiver<ModuleMessage>,
    config: InputConfig,
    input: Vec<u8>,
    buffer_address: u64,
    buffer_size: u64,
) -> Vec<Action> {
    ctx.send(ClientMessage::Initialize(config)).unwrap();
    let acts = module.on_start(false).unwrap();
    assert!(acts.is_empty());
    assert_eq!(
        mrx.recv().unwrap(),
        ModuleMessage::Initialized(OutputConfig {
            buffer_address: 0,
            buffer_size: 0,
        })
    );
    module.on_add_processor(0);

    let acts = module.on_magic_instruction(0, 1);
    assert_eq!(acts, vec![Action::Break]);

    ctx.send(ClientMessage::Reset).unwrap();
    ctx.send(ClientMessage::Run(input)).unwrap();
    let acts = module.on_simulation_stopped(buffer_address, buffer_size).unwrap();
    assert_eq!(mrx.recv().unwrap(), ModuleMessage::Ready);
    acts
}

#[test]
fn on_start_initializes_and_resumes() {
    let (mut module, ctx, mrx) = module_setup();
    ctx.send(ClientMessage::Initialize(test_config())).unwrap();
    let acts = module.on_start(true).unwrap();
    assert_eq!(acts, vec![Action::Resume]);
    assert_eq!(
        mrx.recv().unwrap(),
        ModuleMessage::Initialized(OutputConfig {
            buffer_address: 0,
            buffer_size: 0,
        })
    );
    assert_eq!(module.current_state(), ProtocolState::Initialized);
    assert_eq!(module.timeout_micros(), 3_000_000);
}

#[test]
fn first_start_snapshots_once_and_truncates_input() {
    let (mut module, ctx, mrx) = module_setup();
    // 128-byte input against a 64-byte buffer: exactly the first 64 bytes
    // are staged for the write.
    let mut input = vec![0x41; 64];
    input.extend(vec![0x42; 64]);
    let acts = drive_to_first_run(&mut module, &ctx, &mrx, test_config(), input, 0x8000, 64);

    assert_eq!(acts.len(), 6);
    assert_eq!(acts[0], Action::SaveSnapshot);
    assert_eq!(acts[1], Action::RestoreSnapshot);
    assert_eq!(acts[2], Action::DiscardFuture);
    assert_eq!(
        acts[3],
        Action::WriteMemory {
            processor: 0,
            address: 0x8000,
            bytes: vec![0x41; 64],
        }
    );
    assert_eq!(
        acts[4],
        Action::WriteRegister {
            processor: 0,
            register: TargetRegister::Rdi,
            value: 64,
        }
    );
    assert_eq!(acts[5], Action::Resume);

    assert_eq!(module.iterations(), 1);
    assert_eq!(module.buffer_address(), 0x8000);
    assert_eq!(module.buffer_size(), 64);
    assert_eq!(module.current_state(), ProtocolState::Running);
}

#[test]
fn subsequent_start_takes_no_snapshot() {
    let (mut module, ctx, mrx) = module_setup();
    drive_to_first_run(
        &mut module,
        &ctx,
        &mrx,
        test_config(),
        vec![1, 2, 3],
        0x8000,
        64,
    );

    let acts = module.on_magic_instruction(0, 1);
    assert_eq!(acts, vec![Action::Break]);
    let acts = module.on_simulation_stopped(0, 0).unwrap();
    assert_eq!(acts, vec![Action::Resume]);
    assert_eq!(module.iterations(), 2);
    assert!(!acts.contains(&Action::SaveSnapshot));
    // No further message reached the client.
    assert!(mrx.try_recv().is_err());
}

#[test]
fn magic_stop_is_enriched_and_reported() {
    let (mut module, ctx, mrx) = module_setup();
    drive_to_first_run(
        &mut module,
        &ctx,
        &mrx,
        test_config(),
        vec![7; 16],
        0x8000,
        64,
    );

    let acts = module.on_magic_instruction(0, 2);
    assert_eq!(acts, vec![Action::Break]);
    ctx.send(ClientMessage::Reset).unwrap();
    ctx.send(ClientMessage::Run(vec![8; 16])).unwrap();
    // rsi carries the target's result value at classification time.
    let acts = module.on_simulation_stopped(42, 0).unwrap();
    assert_eq!(
        mrx.recv().unwrap(),
        ModuleMessage::Stopped(StopReason::Magic(Magic::Stop(2, Some(42)), 0))
    );
    assert_eq!(mrx.recv().unwrap(), ModuleMessage::Ready);
    assert!(!acts.contains(&Action::SaveSnapshot));
    assert_eq!(acts[acts.len() - 1], Action::Resume);
}

#[test]
fn crash_reported_only_for_registered_fault() {
    let (mut module, ctx, mrx) = module_setup();
    drive_to_first_run(
        &mut module,
        &ctx,
        &mrx,
        test_config(),
        vec![7; 16],
        0x8000,
        64,
    );
    module.on_add_fault(13);

    let acts = module.on_exception(13, 0);
    assert_eq!(acts, vec![Action::Break]);
    ctx.send(ClientMessage::Reset).unwrap();
    ctx.send(ClientMessage::Run(vec![9; 16])).unwrap();
    module.on_simulation_stopped(0, 0).unwrap();
    assert_eq!(
        mrx.recv().unwrap(),
        ModuleMessage::Stopped(StopReason::Crash(13, 0))
    );
    assert_eq!(mrx.recv().unwrap(), ModuleMessage::Ready);
}

#[test]
fn unregistered_fault_never_surfaces_as_crash() {
    let (mut module, ctx, mrx) = module_setup();
    drive_to_first_run(
        &mut module,
        &ctx,
        &mrx,
        test_config(),
        vec![7; 16],
        0x8000,
        64,
    );

    // Interrupt 99 was never registered: the detector ignores it.
    let acts = module.on_exception(99, 0);
    assert!(acts.is_empty());
    // With no recorded reason at all, a stop is an invariant violation.
    let r = module.on_simulation_stopped(0, 0);
    assert_eq!(r, Err(ProtocolError::MissingStopReason));
    assert!(mrx.try_recv().is_err());
}

#[test]
fn timeout_reports_then_rewinds_and_resumes() {
    let (mut module, ctx, mrx) = module_setup();
    // The campaign budget is 3.0 seconds; the harness start is never hit, so
    // the host fires the timeout callback.
    drive_to_first_run(
        &mut module,
        &ctx,
        &mrx,
        test_config(),
        vec![7; 16],
        0x8000,
        64,
    );
    assert_eq!(module.timeout_micros(), 3_000_000);

    let acts = module.on_timeout();
    assert_eq!(acts, vec![Action::Break]);
    ctx.send(ClientMessage::Reset).unwrap();
    ctx.send(ClientMessage::Run(vec![5; 4])).unwrap();
    let acts = module.on_simulation_stopped(0, 0).unwrap();

    // The client sees the timeout, and the very next reset observes Ready
    // after a single snapshot restore.
    assert_eq!(
        mrx.recv().unwrap(),
        ModuleMessage::Stopped(StopReason::TimeOut)
    );
    assert_eq!(mrx.recv().unwrap(), ModuleMessage::Ready);
    let restores = acts
        .iter()
        .filter(|a| matches!(a, Action::RestoreSnapshot))
        .count();
    assert_eq!(restores, 1);
    assert!(!acts.contains(&Action::SaveSnapshot));
    assert_eq!(acts[acts.len() - 1], Action::Resume);
}

#[test]
fn error_reason_quits_without_reporting() {
    let (mut module, ctx, mrx) = module_setup();
    drive_to_first_run(
        &mut module,
        &ctx,
        &mrx,
        test_config(),
        vec![7; 16],
        0x8000,
        64,
    );

    let acts = module.on_error(7, 0);
    assert_eq!(acts, vec![Action::Break]);
    let acts = module.on_simulation_stopped(0, 0).unwrap();
    assert_eq!(acts, vec![Action::Quit(1)]);
    assert!(mrx.try_recv().is_err());
}

#[test]
fn exit_during_reset_quits_cleanly() {
    let (mut module, ctx, mrx) = module_setup();
    ctx.send(ClientMessage::Initialize(test_config())).unwrap();
    module.on_start(false).unwrap();
    mrx.recv().unwrap();

    ctx.send(ClientMessage::Exit).unwrap();
    let acts = module.reset_and_run(0).unwrap();
    assert_eq!(acts, vec![Action::Quit(0)]);
}

#[test]
fn unexpected_message_during_reset_is_rejected() {
    let (mut module, ctx, _mrx) = module_setup();
    ctx.send(ClientMessage::Initialize(test_config())).unwrap();
    let r = module.reset_and_run(0);
    assert_eq!(r, Err(ProtocolError::UnexpectedReply));
}

#[test]
fn prepare_run_requires_a_registered_processor() {
    let (mut module, _ctx, _mrx) = module_setup();
    let r = module.prepare_run(vec![1, 2, 3], 5);
    assert_eq!(r, Err(ProtocolError::UnknownProcessor(5)));
}

#[test]
fn prepare_run_stages_exact_bytes() {
    let (mut module, ctx, mrx) = module_setup();
    drive_to_first_run(
        &mut module,
        &ctx,
        &mrx,
        test_config(),
        vec![7; 16],
        0x9000,
        4,
    );

    // Oversized input: exactly the first four bytes.
    let acts = module.prepare_run(vec![1, 2, 3, 4, 5, 6], 0).unwrap();
    assert_eq!(
        acts,
        vec![
            Action::WriteMemory {
                processor: 0,
                address: 0x9000,
                bytes: vec![1, 2, 3, 4],
            },
            Action::WriteRegister {
                processor: 0,
                register: TargetRegister::Rdi,
                value: 4,
            },
        ]
    );

    // Undersized input: handed through unchanged.
    let acts = module.prepare_run(vec![9], 0).unwrap();
    assert_eq!(
        acts,
        vec![
            Action::WriteMemory {
                processor: 0,
                address: 0x9000,
                bytes: vec![9],
            },
            Action::WriteRegister {
                processor: 0,
                register: TargetRegister::Rdi,
                value: 1,
            },
        ]
    );

    // Empty input: an empty write and a zero length.
    let acts = module.prepare_run(vec![], 0).unwrap();
    assert_eq!(
        acts,
        vec![
            Action::WriteMemory {
                processor: 0,
                address: 0x9000,
                bytes: vec![],
            },
            Action::WriteRegister {
                processor: 0,
                register: TargetRegister::Rdi,
                value: 0,
            },
        ]
    );
}

#[test]
fn config_faults_register_crash_classes_with_duplicates_collapsed() {
    let (mut module, ctx, mrx) = module_setup();
    // The campaign configuration lists fault 13 twice and the special
    // triple-fault code once; registration is idempotent.
    let config = InputConfig {
        faults: vec![13, -1, 13],
        timeout_micros: 3_000_000,
        log_level: 0,
    };
    drive_to_first_run(&mut module, &ctx, &mrx, config, vec![7; 8], 0x8000, 64);
    module.on_add_fault(-1);

    let acts = module.on_exception(-1, 0);
    assert_eq!(acts, vec![Action::Break]);
    ctx.send(ClientMessage::Reset).unwrap();
    ctx.send(ClientMessage::Run(vec![7; 8])).unwrap();
    module.on_simulation_stopped(0, 0).unwrap();
    assert_eq!(
        mrx.recv().unwrap(),
        ModuleMessage::Stopped(StopReason::Crash(-1, 0))
    );
    assert_eq!(mrx.recv().unwrap(), ModuleMessage::Ready);
}

#[test]
fn first_start_requires_a_registered_processor() {
    let (mut module, ctx, mrx) = module_setup();
    ctx.send(ClientMessage::Initialize(test_config())).unwrap();
    module.on_start(false).unwrap();
    mrx.recv().unwrap();

    // No processor was registered: the first start marker fails before
    // learning the buffer layout or taking a snapshot.
    let acts = module.on_magic_instruction(0, 1);
    assert_eq!(acts, vec![Action::Break]);
    let r = module.on_simulation_stopped(0x8000, 64);
    assert_eq!(r, Err(ProtocolError::UnknownProcessor(0)));
    assert_eq!(module.iterations(), 0);
    assert_eq!(module.buffer_address(), 0);
    assert_eq!(module.buffer_size(), 0);
    assert!(mrx.try_recv().is_err());
}

#[test]
fn unknown_magic_marker_is_ignored() {
    let (mut module, _ctx, _mrx) = module_setup();
    assert_eq!(Magic::from_code(1), Some(Magic::Start(1)));
    assert_eq!(Magic::from_code(2), Some(Magic::Stop(2, None)));
    assert_eq!(Magic::from_code(77), None);

    let acts = module.on_magic_instruction(0, 77);
    assert!(acts.is_empty());
    let r = module.on_simulation_stopped(0, 0);
    assert_eq!(r, Err(ProtocolError::MissingStopReason));
}
