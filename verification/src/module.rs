//! The target-facing half of the protocol: the module embedded in the
//! simulation host.
//!
//! The module validates every received client message against the protocol
//! state machine and decides which privileged simulator operations to
//! perform. Operations on the simulated target are not performed here: each
//! handler returns the ordered list of [`Action`] values it decided on, and
//! the hosting glue carries them out against the simulator and hands the
//! resulting callbacks (magic marker, exception, timeout, stop) back in as
//! plain values.

use vstd::prelude::*;

use crate::channel::{channel_recv, channel_send};
use crate::messages::{ClientMessage, InputConfig, Magic, ModuleMessage, OutputConfig,
    ProtocolError, StopReason, MAGIC_START_CODE, MAGIC_STOP_CODE};
use crate::state::{client_event, event_of_client, event_of_module, module_event, step, Event,
    ProtocolState, StateMachine};
use std::sync::mpsc::Receiver;
use std::sync::mpsc::Sender;

verus! {

/// A named general-purpose register of the harness ABI: the target reads the
/// input length from `Rdi`, and reports the buffer location, buffer size and
/// its result value through `Rsi`/`Rdi`.
#[derive(Debug, Clone, Copy, PartialEq, Eq, Structural)]
pub enum TargetRegister {
    Rsi,
    Rdi,
}

/// One privileged simulator operation the module has decided on. The host
/// glue performs these in order; the module itself never touches the
/// simulator.
#[derive(Debug, Clone, PartialEq)]
pub enum Action {
    /// Capture the baseline snapshot of the target's machine state.
    SaveSnapshot,
    /// Restore the target to the baseline snapshot.
    RestoreSnapshot,
    /// Discard pending speculative/future simulation state.
    DiscardFuture,
    /// Write the bytes into guest memory at the given address, on behalf of
    /// the given processor.
    WriteMemory { processor: i32, address: u64, bytes: Vec<u8> },
    /// Write a register of the given processor.
    WriteRegister { processor: i32, register: TargetRegister, value: u64 },
    /// Resume target execution.
    Resume,
    /// Ask the host to stop the simulation so the stop can be classified.
    Break,
    /// Terminate the hosting process with the given exit code.
    Quit(u64),
}

/// The mathematical model of a [`Module`].
pub ghost struct ModuleView {
    /// The module's copy of the protocol state machine.
    pub state: ProtocolState,
    /// Fault codes registered as crash classes, without duplicates.
    pub faults: Seq<i64>,
    /// Registered processor ids, without duplicates.
    pub processors: Seq<i32>,
    /// A pending harness-marker reason recorded by the magic callback.
    pub stop_reason: Option<StopReason>,
    /// A pending reason recorded by the detector callbacks (crash, timeout,
    /// normal exit, internal error); takes priority over `stop_reason`.
    pub detector_reason: Option<StopReason>,
    /// How many harness start markers have been observed this session.
    pub iterations: nat,
    /// Guest address of the input buffer, learned at the first start marker.
    pub buffer_address: u64,
    /// Capacity of the input buffer, learned at the first start marker.
    pub buffer_size: u64,
    /// The processor that executed the most recent start marker.
    pub last_start_processor: i32,
    /// Every message this module has successfully sent, in order.
    pub sent: Seq<ModuleMessage>,
    /// Per-run virtual-time budget from the campaign configuration.
    pub timeout_micros: u64,
    /// Logger verbosity from the campaign configuration.
    pub log_level: u64,
}

/// The module-side controller and run loop.
pub struct Module {
    state: StateMachine,
    tx: Sender<ModuleMessage>,
    rx: Receiver<ClientMessage>,
    faults: Vec<i64>,
    processors: Vec<i32>,
    stop_reason: Option<StopReason>,
    detector_reason: Option<StopReason>,
    iterations: usize,
    buffer_address: u64,
    buffer_size: u64,
    last_start_processor: i32,
    sent: Ghost<Seq<ModuleMessage>>,
    timeout_micros: u64,
    log_level: u64,
}

impl View for Module {
    type V = ModuleView;

    closed spec fn view(&self) -> ModuleView {
        ModuleView {
            state: self.state.current(),
            faults: self.faults@,
            processors: self.processors@,
            stop_reason: self.stop_reason,
            detector_reason: self.detector_reason,
            iterations: self.iterations as nat,
            buffer_address: self.buffer_address,
            buffer_size: self.buffer_size,
            last_start_processor: self.last_start_processor,
            sent: self.sent@,
            timeout_micros: self.timeout_micros,
            log_level: self.log_level,
        }
    }
}

/// What of a test case actually reaches target memory: the input as given
/// when it fits the negotiated buffer, and exactly its first `capacity`
/// bytes otherwise.
pub open spec fn truncated(input: Seq<u8>, capacity: u64) -> Seq<u8> {
    if input.len() <= capacity {
        input
    } else {
        input.take(capacity as int)
    }
}

/// A run's input is cut to exactly the negotiated buffer size and never
/// reaches past it: an oversized input is reduced to precisely its first
/// `capacity` bytes, an input that fits is written unchanged.
pub proof fn lemma_run_input_truncation(input: Seq<u8>, capacity: u64)
    ensures
        truncated(input, capacity).len()
            == (if input.len() <= capacity { input.len() } else { capacity as nat }),
        input.len() > capacity ==> truncated(input, capacity) == input.take(capacity as int),
        input.len() <= capacity ==> truncated(input, capacity) == input,
        forall |i: int| 0 <= i < truncated(input, capacity).len()
            ==> #[trigger] truncated(input, capacity)[i] == input[i],
{
}

/// The module fields the reset/run message cycle never touches: it only
/// advances the protocol state, sends `Ready`, and clears the pending
/// harness-marker reason.
pub open spec fn keeps_campaign_fields(pre: ModuleView, post: ModuleView) -> bool {
    &&& post.faults == pre.faults
    &&& post.processors == pre.processors
    &&& post.iterations == pre.iterations
    &&& post.buffer_address == pre.buffer_address
    &&& post.buffer_size == pre.buffer_size
    &&& post.last_start_processor == pre.last_start_processor
    &&& post.detector_reason == pre.detector_reason
    &&& post.timeout_micros == pre.timeout_micros
    &&& post.log_level == pre.log_level
}

/// The effective stop reason the module would act on: a detector-supplied
/// reason takes priority over a pending harness-marker reason.
pub open spec fn resolved_reason(v: ModuleView) -> Option<StopReason> {
    if v.detector_reason is Some {
        v.detector_reason
    } else {
        v.stop_reason
    }
}

/// Whether the stop about to be classified resolves to a harness start
/// marker.
pub open spec fn resolved_is_start(v: ModuleView) -> bool {
    resolved_reason(v) matches Some(StopReason::Magic(m, _)) && m is Start
}

/// Whether the module stands at the session's very first harness start
/// marker: the stop about to be classified resolves to `Magic::Start` and no
/// start marker has been counted yet.
pub open spec fn is_first_start(v: ModuleView) -> bool {
    resolved_is_start(v) && v.iterations == 0
}

/// Whether the processor named in the resolved harness start marker stands
/// in the registry.
pub open spec fn start_processor_registered(v: ModuleView) -> bool {
    resolved_reason(v) matches Some(StopReason::Magic(m, pn)) && m is Start
        && v.processors.contains(pn)
}

impl Module {
    /// Well-formedness: registries hold no duplicates, the magic callback
    /// only ever records harness-marker reasons, and the detector only
    /// records crashes for registered faults (never a harness marker).
    pub open spec fn inv(&self) -> bool {
        &&& self@.faults.no_duplicates()
        &&& self@.processors.no_duplicates()
        &&& (self@.stop_reason matches Some(r) ==> r is Magic)
        &&& (self@.detector_reason matches Some(r) ==> match r {
            StopReason::Crash(f, _) => self@.faults.contains(f),
            StopReason::Magic(_, _) => false,
            _ => true,
        })
    }

    /// Build a module around the two channel endpoints that lead to a
    /// client; the session starts uninitialized, with empty registries.
    pub fn new(tx: Sender<ModuleMessage>, rx: Receiver<ClientMessage>) -> (m: Module)
        ensures
            m.inv(),
            m@.state == ProtocolState::Uninitialized,
            m@.faults == Seq::<i64>::empty(),
            m@.processors == Seq::<i32>::empty(),
            m@.stop_reason is None,
            m@.detector_reason is None,
            m@.iterations == 0,
            m@.buffer_address == 0,
            m@.buffer_size == 0,
            m@.last_start_processor == -1,
            m@.sent == Seq::<ModuleMessage>::empty(),
    {
        Module {
            state: StateMachine::new(),
            tx,
            rx,
            faults: Vec::new(),
            processors: Vec::new(),
            stop_reason: None,
            detector_reason: None,
            iterations: 0,
            buffer_address: 0,
            buffer_size: 0,
            last_start_processor: -1,
            sent: Ghost(Seq::empty()),
            timeout_micros: 0,
            log_level: 0,
        }
    }

    /// The protocol state, readable by unverified callers.
    pub fn current_state(&self) -> (s: ProtocolState)
        ensures
            s == self@.state,
    {
        self.state.current_state()
    }

    /// The per-run virtual-time budget the campaign configured, in
    /// microseconds; the host arms its run timer with this value.
    pub fn timeout_micros(&self) -> (t: u64)
        ensures
            t == self@.timeout_micros,
    {
        self.timeout_micros
    }

    /// The logger verbosity the campaign configured; the host hands this to
    /// its logging backend once, at session start.
    pub fn log_level(&self) -> (l: u64)
        ensures
            l == self@.log_level,
    {
        self.log_level
    }

    /// How many harness start markers the session has observed.
    pub fn iterations(&self) -> (n: usize)
        ensures
            n == self@.iterations,
    {
        self.iterations
    }

    /// The negotiated capacity of the target's input buffer.
    pub fn buffer_size(&self) -> (n: u64)
        ensures
            n == self@.buffer_size,
    {
        self.buffer_size
    }

    /// The guest address of the target's input buffer.
    pub fn buffer_address(&self) -> (a: u64)
        ensures
            a == self@.buffer_address,
    {
        self.buffer_address
    }

    /// Validate the send transition, then transmit to the client. On a
    /// violation nothing is transmitted and nothing changes; on success the
    /// message is appended to the record of sent messages.
    pub fn send_msg(&mut self, msg: ModuleMessage) -> (r: Result<(), ProtocolError>)
        ensures
            match step(old(self)@.state, module_event(msg)) {
                Some(next) => {
                    &&& (r is Ok ==> final(self)@ == ModuleView {
                        state: next,
                        sent: old(self)@.sent.push(msg),
                        ..old(self)@
                    })
                    &&& (r matches Err(e) ==> e == ProtocolError::TransportFailure
                        && final(self)@ == ModuleView { state: next, ..old(self)@ })
                },
                None => {
                    &&& r == Err::<(), ProtocolError>(ProtocolError::ProtocolViolation(
                        old(self)@.state,
                        module_event(msg),
                    ))
                    &&& final(self)@ == old(self)@
                },
            },
    {
        let event = event_of_module(&msg);
        self.state.consume(event)?;
        let ghost sent_msg = msg;
        match channel_send(&self.tx, msg) {
            Ok(()) => {
                self.sent = Ghost(self.sent@.push(sent_msg));
                Ok(())
            }
            Err(e) => Err(e),
        }
    }

    /// Receive one message from the client and validate the receive
    /// transition. `Exit` bypasses the state machine entirely: the caller
    /// tears the session down instead.
    fn recv_msg(&mut self) -> (r: Result<ClientMessage, ProtocolError>)
        ensures
            r matches Ok(m) ==> {
                &&& (client_event(m) == Event::Exit ==> final(self)@ == old(self)@)
                &&& (client_event(m) != Event::Exit ==> {
                    &&& step(old(self)@.state, client_event(m)) == Some(final(self)@.state)
                    &&& final(self)@ == ModuleView { state: final(self)@.state, ..old(self)@ }
                })
            },
            r is Err ==> final(self)@ == old(self)@,
    {
        let msg = channel_recv(&self.rx)?;
        if let ClientMessage::Exit = &msg {
            return Ok(msg);
        }
        let event = event_of_client(&msg);
        self.state.consume(event)?;
        Ok(msg)
    }

    /// Register a fault code as a crash class; registering a code twice is a
    /// no-op.
    pub fn on_add_fault(&mut self, fault: i64)
        requires
            old(self).inv(),
        ensures
            final(self).inv(),
            final(self)@ == (ModuleView { faults: final(self)@.faults, ..old(self)@ }),
            old(self)@.faults.contains(fault) ==> final(self)@.faults == old(self)@.faults,
            !old(self)@.faults.contains(fault) ==> final(self)@.faults
                == old(self)@.faults.push(fault),
            forall |g: i64| #[trigger] final(self)@.faults.contains(g)
                <==> (old(self)@.faults.contains(g) || g == fault),
    {
        if !contains_fault(&self.faults, fault) {
            self.faults.push(fault);
            assert forall |g: i64| final(self)@.faults.contains(g)
                implies (old(self)@.faults.contains(g) || g == fault) by {
                let i = choose |i: int| 0 <= i < self@.faults.len() && self@.faults[i] == g;
                if i < old(self)@.faults.len() {
                    assert(old(self)@.faults[i] == g);
                }
            }
            assert forall |g: i64| (old(self)@.faults.contains(g) || g == fault)
                implies final(self)@.faults.contains(g) by {
                if g == fault {
                    assert(self@.faults[self@.faults.len() - 1] == g);
                } else {
                    let i = choose |i: int|
                        0 <= i < old(self)@.faults.len() && old(self)@.faults[i] == g;
                    assert(self@.faults[i] == g);
                }
            }
            assert(final(self)@.faults.no_duplicates()) by {
                assert forall |i: int, j: int|
                    0 <= i < j < self@.faults.len() implies self@.faults[i] != self@.faults[j] by {
                    if j == self@.faults.len() - 1 {
                        assert(old(self)@.faults[i] == self@.faults[i]);
                    }
                }
            }
        }
    }

    /// Register a processor id for the session; registering an id twice is
    /// a no-op. Ids are never removed during a session.
    pub fn on_add_processor(&mut self, processor_number: i32)
        requires
            old(self).inv(),
        ensures
            final(self).inv(),
            final(self)@ == (ModuleView { processors: final(self)@.processors, ..old(self)@ }),
            old(self)@.processors.contains(processor_number) ==> final(self)@.processors
                == old(self)@.processors,
            !old(self)@.processors.contains(processor_number) ==> final(self)@.processors
                == old(self)@.processors.push(processor_number),
            forall |p: i32| #[trigger] final(self)@.processors.contains(p)
                <==> (old(self)@.processors.contains(p) || p == processor_number),
    {
        if !contains_processor(&self.processors, processor_number) {
            self.processors.push(processor_number);
            assert forall |p: i32| final(self)@.processors.contains(p)
                implies (old(self)@.processors.contains(p) || p == processor_number) by {
                let i = choose |i: int|
                    0 <= i < self@.processors.len() && self@.processors[i] == p;
                if i < old(self)@.processors.len() {
                    assert(old(self)@.processors[i] == p);
                }
            }
            assert forall |p: i32| (old(self)@.processors.contains(p) || p == processor_number)
                implies final(self)@.processors.contains(p) by {
                if p == processor_number {
                    assert(self@.processors[self@.processors.len() - 1] == p);
                } else {
                    let i = choose |i: int|
                        0 <= i < old(self)@.processors.len() && old(self)@.processors[i] == p;
                    assert(self@.processors[i] == p);
                }
            }
            assert(final(self)@.processors.no_duplicates()) by {
                assert forall |i: int, j: int|
                    0 <= i < j < self@.processors.len()
                    implies self@.processors[i] != self@.processors[j] by {
                    if j == self@.processors.len() - 1 {
                        assert(old(self)@.processors[i] == self@.processors[i]);
                    }
                }
            }
        }
    }

    /// The magic-marker callback: decode the marker parameter; a harness
    /// marker records a pending `Magic` stop reason and asks the host to
    /// stop, any other marker is ignored. Classification itself happens
    /// later, in `on_simulation_stopped`.
    pub fn on_magic_instruction(&mut self, processor_number: i32, parameter: i64)
        -> (acts: Vec<Action>)
        requires
            old(self).inv(),
        ensures
            final(self).inv(),
            parameter == MAGIC_START_CODE ==> {
                &&& final(self)@ == (ModuleView {
                    stop_reason: Some(StopReason::Magic(Magic::Start(parameter),
                        processor_number)),
                    ..old(self)@
                })
                &&& acts@ =~= seq![Action::Break]
            },
            parameter == MAGIC_STOP_CODE ==> {
                &&& final(self)@ == (ModuleView {
                    stop_reason: Some(StopReason::Magic(Magic::Stop(parameter, None::<u64>),
                        processor_number)),
                    ..old(self)@
                })
                &&& acts@ =~= seq![Action::Break]
            },
            parameter != MAGIC_START_CODE && parameter != MAGIC_STOP_CODE ==> {
                &&& final(self)@ == old(self)@
                &&& acts@ =~= Seq::<Action>::empty()
            },
    {
        let mut acts: Vec<Action> = Vec::new();
        if let Some(magic) = Magic::from_code(parameter) {
            self.stop_reason = Some(StopReason::Magic(magic, processor_number));
            acts.push(Action::Break);
        }
        acts
    }

    /// The detector observed an exception or interrupt. A code previously
    /// registered as a fault is classified as a crash and the host is asked
    /// to stop; an unregistered code never surfaces as `Crash`. A reason
    /// already recorded is kept.
    pub fn on_exception(&mut self, exception: i64, processor_number: i32) -> (acts: Vec<Action>)
        requires
            old(self).inv(),
        ensures
            final(self).inv(),
            old(self)@.faults.contains(exception) && old(self)@.detector_reason is None ==> {
                &&& final(self)@ == (ModuleView {
                    detector_reason: Some(StopReason::Crash(exception, processor_number)),
                    ..old(self)@
                })
                &&& acts@ =~= seq![Action::Break]
            },
            !old(self)@.faults.contains(exception) || old(self)@.detector_reason is Some ==> {
                &&& final(self)@ == old(self)@
                &&& acts@ =~= Seq::<Action>::empty()
            },
    {
        let mut acts: Vec<Action> = Vec::new();
        if self.detector_reason.is_none() && contains_fault(&self.faults, exception) {
            self.detector_reason = Some(StopReason::Crash(exception, processor_number));
            acts.push(Action::Break);
        }
        acts
    }

    /// The detector's per-run time budget elapsed without any other stop:
    /// classify the run as `TimeOut` and ask the host to stop. A reason
    /// already recorded is kept.
    pub fn on_timeout(&mut self) -> (acts: Vec<Action>)
        requires
            old(self).inv(),
        ensures
            final(self).inv(),
            old(self)@.detector_reason is None ==> {
                &&& final(self)@ == (ModuleView {
                    detector_reason: Some(StopReason::TimeOut),
                    ..old(self)@
                })
                &&& acts@ =~= seq![Action::Break]
            },
            old(self)@.detector_reason is Some ==> {
                &&& final(self)@ == old(self)@
                &&& acts@ =~= Seq::<Action>::empty()
            },
    {
        let mut acts: Vec<Action> = Vec::new();
        if self.detector_reason.is_none() {
            self.detector_reason = Some(StopReason::TimeOut);
            acts.push(Action::Break);
        }
        acts
    }

    /// The target terminated normally on the given processor: classify the
    /// run as `SimulationExit` and ask the host to stop. A reason already
    /// recorded is kept.
    pub fn on_simulation_exit(&mut self, processor_number: i32) -> (acts: Vec<Action>)
        requires
            old(self).inv(),
        ensures
            final(self).inv(),
            old(self)@.detector_reason is None ==> {
                &&& final(self)@ == (ModuleView {
                    detector_reason: Some(StopReason::SimulationExit(processor_number)),
                    ..old(self)@
                })
                &&& acts@ =~= seq![Action::Break]
            },
            old(self)@.detector_reason is Some ==> {
                &&& final(self)@ == old(self)@
                &&& acts@ =~= Seq::<Action>::empty()
            },
    {
        let mut acts: Vec<Action> = Vec::new();
        if self.detector_reason.is_none() {
            self.detector_reason = Some(StopReason::SimulationExit(processor_number));
            acts.push(Action::Break);
        }
        acts
    }

    /// An unrecoverable internal condition was detected: record it so that
    /// the stop callback tears the session down. A reason already recorded
    /// is kept.
    pub fn on_error(&mut self, code: i64, processor_number: i32) -> (acts: Vec<Action>)
        requires
            old(self).inv(),
        ensures
            final(self).inv(),
            old(self)@.detector_reason is None ==> {
                &&& final(self)@ == (ModuleView {
                    detector_reason: Some(StopReason::Error(code, processor_number)),
                    ..old(self)@
                })
                &&& acts@ =~= seq![Action::Break]
            },
            old(self)@.detector_reason is Some ==> {
                &&& final(self)@ == old(self)@
                &&& acts@ =~= Seq::<Action>::empty()
            },
    {
        let mut acts: Vec<Action> = Vec::new();
        if self.detector_reason.is_none() {
            self.detector_reason = Some(StopReason::Error(code, processor_number));
            acts.push(Action::Break);
        }
        acts
    }

    /// Apply a received campaign configuration: register every fault code
    /// it lists and record its timeout and log level. Returns the
    /// memory-layout echo owed to the client.
    pub fn apply_initialize(&mut self, config: &InputConfig) -> (out: OutputConfig)
        requires
            old(self).inv(),
        ensures
            final(self).inv(),
            final(self)@ == (ModuleView {
                faults: final(self)@.faults,
                timeout_micros: config.timeout_micros,
                log_level: config.log_level,
                ..old(self)@
            }),
            forall |g: i64| #[trigger] final(self)@.faults.contains(g)
                <==> (old(self)@.faults.contains(g) || config.faults@.contains(g)),
            out == (OutputConfig {
                buffer_address: old(self)@.buffer_address,
                buffer_size: old(self)@.buffer_size,
            }),
    {
        let ghost orig: Module = *self;
        let mut i: usize = 0;
        while i < config.faults.len()
            invariant
                self.inv(),
                i <= config.faults@.len(),
                self@ == (ModuleView { faults: self@.faults, ..orig@ }),
                forall |g: i64| self@.faults.contains(g)
                    <==> (orig@.faults.contains(g) || config.faults@.take(i as int).contains(g)),
            decreases config.faults@.len() - i,
        {
            let f = config.faults[i];
            self.on_add_fault(f);
            proof {
                let pre = config.faults@.take(i as int);
                let post = config.faults@.take(i as int + 1);
                assert(post =~= pre.push(f));
                assert(post[i as int] == f);
                assert forall |g: i64| self@.faults.contains(g)
                    implies (orig@.faults.contains(g) || post.contains(g)) by {
                    if g == f {
                        assert(post[i as int] == g);
                    } else if !orig@.faults.contains(g) {
                        let k = choose |k: int|
                            0 <= k < pre.len() && #[trigger] pre[k] == g;
                        assert(post[k] == pre.push(f)[k]);
                        assert(post[k] == g);
                    }
                }
                assert forall |g: i64| (orig@.faults.contains(g) || post.contains(g))
                    implies self@.faults.contains(g) by {
                    if !orig@.faults.contains(g) {
                        let k = choose |k: int|
                            0 <= k < post.len() && #[trigger] post[k] == g;
                        if k < i {
                            assert(pre[k] == pre.push(f)[k]);
                            assert(pre[k] == g);
                        } else {
                            assert(g == f);
                        }
                    }
                }
            }
            i = i + 1;
        }
        self.timeout_micros = config.timeout_micros;
        self.log_level = config.log_level;
        assert forall |g: i64| self@.faults.contains(g)
            implies (old(self)@.faults.contains(g) || config.faults@.contains(g)) by {
            assert(config.faults@.take(i as int) =~= config.faults@);
        }
        assert forall |g: i64| (old(self)@.faults.contains(g) || config.faults@.contains(g))
            implies self@.faults.contains(g) by {
            assert(config.faults@.take(i as int) =~= config.faults@);
        }
        OutputConfig { buffer_address: self.buffer_address, buffer_size: self.buffer_size }
    }

    /// Receive and validate the `Initialize` message, configure the
    /// detector's fault and timeout settings from it, and reply
    /// `Initialized`. Receiving `Exit` instead tears the session down
    /// (`Quit(0)`); any other message is a protocol violation.
    pub fn initialize(&mut self) -> (r: Result<Vec<Action>, ProtocolError>)
        requires
            old(self).inv(),
        ensures
            final(self).inv(),
            final(self)@.iterations == old(self)@.iterations,
            final(self)@.processors == old(self)@.processors,
            final(self)@.buffer_address == old(self)@.buffer_address,
            final(self)@.buffer_size == old(self)@.buffer_size,
            r matches Ok(acts) ==> {
                ||| {
                    &&& acts@.len() == 1
                    &&& acts@[0] matches Action::Quit(c) && c == 0
                    &&& final(self)@ == old(self)@
                }
                ||| {
                    &&& acts@.len() == 0
                    &&& final(self)@.state == ProtocolState::Initialized
                    &&& final(self)@.sent == old(self)@.sent.push(ModuleMessage::Initialized(
                        OutputConfig {
                            buffer_address: old(self)@.buffer_address,
                            buffer_size: old(self)@.buffer_size,
                        },
                    ))
                    &&& forall |g: i64| old(self)@.faults.contains(g)
                        ==> #[trigger] final(self)@.faults.contains(g)
                }
            },
    {
        let msg = self.recv_msg()?;
        let config = match msg {
            ClientMessage::Initialize(config) => config,
            ClientMessage::Exit => {
                let mut acts: Vec<Action> = Vec::new();
                acts.push(Action::Quit(0));
                return Ok(acts);
            }
            _ => {
                return Err(ProtocolError::UnexpectedReply);
            }
        };
        let ghost before = self@;
        let out = self.apply_initialize(&config);
        assert forall |g: i64| old(self)@.faults.contains(g)
            implies self@.faults.contains(g) by {
            assert(before.faults.contains(g));
        }
        self.send_msg(ModuleMessage::Initialized(out))?;
        Ok(Vec::new())
    }

    /// The simulation-stopped callback: classify why the target stopped and
    /// drive the session on. `rsi` and `rdi` are the current values of the
    /// harness registers of the processor named in the pending reason, read
    /// by the host right before this call.
    ///
    /// The detector's reason takes priority over the pending harness-marker
    /// reason; stopping with neither is an internal invariant violation
    /// (`MissingStopReason`). The first start marker of the session requires
    /// its processor to be registered, then captures the buffer layout from
    /// the registers and the one baseline snapshot; later start markers only
    /// resume. A finished iteration (`Magic::Stop`
    /// enriched with the result register, `SimulationExit`, `Crash`,
    /// `TimeOut`) is reported to the client as `Stopped` and followed by the
    /// next reset/run cycle. An `Error` reason tears the session down.
    pub fn on_simulation_stopped(&mut self, rsi: u64, rdi: u64)
        -> (r: Result<Vec<Action>, ProtocolError>)
        requires
            old(self).inv(),
            old(self)@.iterations < usize::MAX,
        ensures
            final(self).inv(),
            final(self)@.detector_reason is None,
            final(self)@.iterations >= old(self)@.iterations,
            final(self)@.faults == old(self)@.faults,
            final(self)@.processors == old(self)@.processors,
            resolved_reason(old(self)@) is None ==> {
                &&& r == Err::<Vec<Action>, ProtocolError>(ProtocolError::MissingStopReason)
                &&& final(self)@ == old(self)@
            },
            r matches Ok(acts) ==> forall |i: int| 0 <= i < acts@.len()
                ==> (#[trigger] acts@[i] is SaveSnapshot
                    <==> (i == 0 && is_first_start(old(self)@))),
            forall |i: int| old(self)@.sent.len() <= i < final(self)@.sent.len()
                ==> ((#[trigger] final(self)@.sent[i])
                        matches ModuleMessage::Stopped(StopReason::Crash(f, _))
                    ==> old(self)@.faults.contains(f)),
            resolved_is_start(old(self)@) ==> final(self)@.sent == old(self)@.sent
                || final(self)@.sent == old(self)@.sent.push(ModuleMessage::Ready),
            resolved_is_start(old(self)@)
                && (old(self)@.iterations > 0 || start_processor_registered(old(self)@))
                ==> final(self)@.iterations == old(self)@.iterations + 1,
            resolved_is_start(old(self)@) && old(self)@.iterations == 0
                && !start_processor_registered(old(self)@) ==> {
                &&& (resolved_reason(old(self)@) matches Some(StopReason::Magic(m, pn))
                    && r == Err::<Vec<Action>, ProtocolError>(
                        ProtocolError::UnknownProcessor(pn)))
                &&& final(self)@ == (ModuleView { detector_reason: None, ..old(self)@ })
            },
            resolved_is_start(old(self)@) && old(self)@.iterations == 0
                && start_processor_registered(old(self)@) ==> {
                &&& final(self)@.buffer_address == rsi
                &&& final(self)@.buffer_size == rdi
                &&& (resolved_reason(old(self)@) matches Some(StopReason::Magic(m, pn))
                    && final(self)@.last_start_processor == pn)
                &&& (r matches Ok(acts) ==> acts@.len() >= 1 && acts@[0] is SaveSnapshot)
            },
            resolved_is_start(old(self)@) && old(self)@.iterations > 0 ==> {
                &&& (r matches Ok(acts) && acts@ =~= seq![Action::Resume])
                &&& (resolved_reason(old(self)@) matches Some(StopReason::Magic(m, pn))
                    && final(self)@ == (ModuleView {
                        stop_reason: None,
                        detector_reason: None,
                        iterations: old(self)@.iterations + 1,
                        last_start_processor: pn,
                        ..old(self)@
                    }))
            },
            resolved_reason(old(self)@)
                matches Some(StopReason::Magic(Magic::Stop(code, v0), pn)) ==> {
                &&& (!old(self)@.processors.contains(pn)
                    ==> r == Err::<Vec<Action>, ProtocolError>(
                        ProtocolError::UnknownProcessor(pn)))
                &&& (r is Ok ==> {
                    &&& final(self)@.sent.len() > old(self)@.sent.len()
                    &&& final(self)@.sent[old(self)@.sent.len() as int]
                        == ModuleMessage::Stopped(StopReason::Magic(
                            Magic::Stop(code, Some(rsi)), pn))
                })
            },
            resolved_reason(old(self)@) matches Some(StopReason::SimulationExit(pn))
                ==> (r is Ok ==> {
                &&& final(self)@.sent.len() > old(self)@.sent.len()
                &&& final(self)@.sent[old(self)@.sent.len() as int]
                    == ModuleMessage::Stopped(StopReason::SimulationExit(pn))
            }),
            resolved_reason(old(self)@) matches Some(StopReason::Crash(f, pn))
                ==> (r is Ok ==> {
                &&& final(self)@.sent.len() > old(self)@.sent.len()
                &&& final(self)@.sent[old(self)@.sent.len() as int]
                    == ModuleMessage::Stopped(StopReason::Crash(f, pn))
            }),
            resolved_reason(old(self)@) == Some(StopReason::TimeOut) ==> (r is Ok ==> {
                &&& final(self)@.sent.len() > old(self)@.sent.len()
                &&& final(self)@.sent[old(self)@.sent.len() as int]
                    == ModuleMessage::Stopped(StopReason::TimeOut)
            }),
            resolved_reason(old(self)@) matches Some(StopReason::Error(c, pn)) ==> {
                &&& (r matches Ok(acts) && acts@ =~= seq![Action::Quit(1)])
                &&& final(self)@ == (ModuleView { detector_reason: None, ..old(self)@ })
            },
    {
        let pending = if let Some(d) = self.detector_reason {
            Some(d)
        } else {
            self.stop_reason
        };
        let reason = match pending {
            Some(reason) => reason,
            None => {
                return Err(ProtocolError::MissingStopReason);
            }
        };
        self.detector_reason = None;
        match reason {
            StopReason::Magic(magic, processor_number) => {
                match magic {
                    Magic::Start(_) => {
                        if self.iterations == 0 {
                            if !contains_processor(&self.processors, processor_number) {
                                return Err(ProtocolError::UnknownProcessor(processor_number));
                            }
                            self.iterations = self.iterations + 1;
                            self.buffer_address = rsi;
                            self.buffer_size = rdi;
                            self.last_start_processor = processor_number;
                            let mut acts: Vec<Action> = Vec::new();
                            acts.push(Action::SaveSnapshot);
                            let mut rest = self.reset_and_run(processor_number)?;
                            acts.append(&mut rest);
                            Ok(acts)
                        } else {
                            self.iterations = self.iterations + 1;
                            self.stop_reason = None;
                            self.last_start_processor = processor_number;
                            let mut acts: Vec<Action> = Vec::new();
                            acts.push(Action::Resume);
                            Ok(acts)
                        }
                    }
                    Magic::Stop(code, _) => {
                        if !contains_processor(&self.processors, processor_number) {
                            return Err(ProtocolError::UnknownProcessor(processor_number));
                        }
                        let enriched = StopReason::Magic(
                            Magic::Stop(code, Some(rsi)),
                            processor_number,
                        );
                        self.send_msg(ModuleMessage::Stopped(enriched))?;
                        self.reset_and_run(processor_number)
                    }
                }
            }
            StopReason::SimulationExit(processor_number) => {
                self.send_msg(ModuleMessage::Stopped(StopReason::SimulationExit(
                    processor_number,
                )))?;
                self.reset_and_run(processor_number)
            }
            StopReason::Crash(fault, processor_number) => {
                self.send_msg(ModuleMessage::Stopped(StopReason::Crash(
                    fault,
                    processor_number,
                )))?;
                self.reset_and_run(processor_number)
            }
            StopReason::TimeOut => {
                self.send_msg(ModuleMessage::Stopped(StopReason::TimeOut))?;
                let processor_number = self.last_start_processor;
                self.reset_and_run(processor_number)
            }
            StopReason::Error(_, _) => {
                let mut acts: Vec<Action> = Vec::new();
                acts.push(Action::Quit(1));
                Ok(acts)
            }
        }
    }

    /// Stage one test case for the target: truncate the input to the
    /// negotiated buffer capacity (a deliberate, documented truncation of
    /// oversized inputs, not an error), stage the write of the truncated
    /// bytes into the buffer and of their length into the length register,
    /// and clear any stale stop reason.
    pub fn prepare_run(&mut self, input: Vec<u8>, processor_number: i32)
        -> (r: Result<Vec<Action>, ProtocolError>)
        requires
            old(self).inv(),
        ensures
            final(self).inv(),
            !old(self)@.processors.contains(processor_number) ==> {
                &&& r == Err::<Vec<Action>, ProtocolError>(ProtocolError::UnknownProcessor(
                    processor_number,
                ))
                &&& final(self)@ == old(self)@
            },
            old(self)@.processors.contains(processor_number) ==> {
                &&& final(self)@ == (ModuleView { stop_reason: None, ..old(self)@ })
                &&& r matches Ok(acts)
                &&& acts@.len() == 2
                &&& (acts@[0] matches Action::WriteMemory { processor, address, bytes } ==> {
                    &&& processor == processor_number
                    &&& address == old(self)@.buffer_address
                    &&& bytes@ == truncated(input@, old(self)@.buffer_size)
                })
                &&& acts@[0] is WriteMemory
                &&& (acts@[1] matches Action::WriteRegister { processor, register, value } ==> {
                    &&& processor == processor_number
                    &&& register == TargetRegister::Rdi
                    &&& value == truncated(input@, old(self)@.buffer_size).len()
                })
                &&& acts@[1] is WriteRegister
            },
    {
        if !contains_processor(&self.processors, processor_number) {
            return Err(ProtocolError::UnknownProcessor(processor_number));
        }
        let mut input = input;
        let ghost input0 = input@;
        if self.buffer_size < input.len() as u64 {
            assert(self.buffer_size as int <= usize::MAX) by {
                assert(input0.len() <= usize::MAX);
            }
            let cap: usize = self.buffer_size as usize;
            input.truncate(cap);
            assert(input@ =~= truncated(input0, self.buffer_size));
        }
        assert(input@ == truncated(input0, self.buffer_size));
        let value: u64 = input.len() as u64;
        let mut acts: Vec<Action> = Vec::new();
        acts.push(Action::WriteMemory {
            processor: processor_number,
            address: self.buffer_address,
            bytes: input,
        });
        acts.push(Action::WriteRegister {
            processor: processor_number,
            register: TargetRegister::Rdi,
            value,
        });
        self.stop_reason = None;
        Ok(acts)
    }

    /// One reset/run cycle: receive and validate `Reset`, rewind the target
    /// (restore the baseline snapshot, discard speculative state), reply
    /// `Ready`, receive and validate `Run(input)`, stage the truncated input
    /// and its length for the target, and resume execution. Receiving `Exit`
    /// at either point tears the session down instead (`Quit(0)`).
    ///
    /// Never creates a snapshot, and never sends anything but one `Ready`.
    pub fn reset_and_run(&mut self, processor_number: i32)
        -> (r: Result<Vec<Action>, ProtocolError>)
        requires
            old(self).inv(),
        ensures
            final(self).inv(),
            keeps_campaign_fields(old(self)@, final(self)@),
            final(self)@.sent == old(self)@.sent
                || final(self)@.sent == old(self)@.sent.push(ModuleMessage::Ready),
            r matches Ok(acts) ==> {
                ||| {
                    &&& acts@.len() == 1
                    &&& (acts@[0] matches Action::Quit(c) && c == 0)
                    &&& final(self)@ == old(self)@
                }
                ||| {
                    &&& acts@.len() == 3
                    &&& acts@[0] is RestoreSnapshot
                    &&& acts@[1] is DiscardFuture
                    &&& (acts@[2] matches Action::Quit(c) && c == 0)
                }
                ||| {
                    &&& acts@.len() == 5
                    &&& acts@[0] is RestoreSnapshot
                    &&& acts@[1] is DiscardFuture
                    &&& (acts@[2] matches Action::WriteMemory { processor, address, bytes }
                        && processor == processor_number
                        && address == old(self)@.buffer_address
                        && bytes@.len() <= old(self)@.buffer_size)
                    &&& (acts@[3] matches Action::WriteRegister { processor, register, value }
                        && processor == processor_number
                        && register == TargetRegister::Rdi
                        && value == acts@[2]->WriteMemory_bytes@.len())
                    &&& acts@[4] is Resume
                    &&& old(self)@.processors.contains(processor_number)
                    &&& final(self)@.state == ProtocolState::Running
                    &&& final(self)@.stop_reason is None
                    &&& final(self)@.sent == old(self)@.sent.push(ModuleMessage::Ready)
                }
            },
            r matches Ok(acts) ==> forall |i: int| 0 <= i < acts@.len()
                ==> !(#[trigger] acts@[i] is SaveSnapshot),
    {
        let msg = self.recv_msg()?;
        match msg {
            ClientMessage::Reset => {}
            ClientMessage::Exit => {
                let mut acts: Vec<Action> = Vec::new();
                acts.push(Action::Quit(0));
                return Ok(acts);
            }
            _ => {
                return Err(ProtocolError::UnexpectedReply);
            }
        }
        let mut acts: Vec<Action> = Vec::new();
        acts.push(Action::RestoreSnapshot);
        acts.push(Action::DiscardFuture);
        self.send_msg(ModuleMessage::Ready)?;
        let msg = self.recv_msg()?;
        let input = match msg {
            ClientMessage::Run(input) => input,
            ClientMessage::Exit => {
                acts.push(Action::Quit(0));
                return Ok(acts);
            }
            _ => {
                return Err(ProtocolError::UnexpectedReply);
            }
        };
        let mut run_acts = self.prepare_run(input, processor_number)?;
        acts.append(&mut run_acts);
        acts.push(Action::Resume);
        Ok(acts)
    }

    /// The administrative start entry point: initialize the session and, if
    /// asked to, resume target execution so that it runs to the first
    /// harness start marker.
    pub fn on_start(&mut self, run: bool) -> (r: Result<Vec<Action>, ProtocolError>)
        requires
            old(self).inv(),
        ensures
            final(self).inv(),
            final(self)@.iterations == old(self)@.iterations,
            r matches Ok(acts) ==> {
                ||| {
                    &&& acts@.len() == 1
                    &&& acts@[0] matches Action::Quit(c) && c == 0
                    &&& final(self)@ == old(self)@
                }
                ||| {
                    &&& final(self)@.state == ProtocolState::Initialized
                    &&& (run ==> acts@.len() == 1 && acts@[0] is Resume)
                    &&& (!run ==> acts@.len() == 0)
                }
            },
    {
        let mut acts = self.initialize()?;
        if run && acts.len() == 0 {
            acts.push(Action::Resume);
        }
        Ok(acts)
    }
}

/// Whether the fault registry holds the given code.
fn contains_fault(v: &Vec<i64>, x: i64) -> (r: bool)
    ensures
        r == v@.contains(x),
{
    let mut i: usize = 0;
    while i < v.len()
        invariant
            i <= v@.len(),
            forall |j: int| 0 <= j < i ==> v@[j] != x,
        decreases v@.len() - i,
    {
        if v[i] == x {
            assert(v@[i as int] == x);
            return true;
        }
        i = i + 1;
    }
    assert(!v@.contains(x));
    false
}

/// Whether the processor registry holds the given id.
fn contains_processor(v: &Vec<i32>, x: i32) -> (r: bool)
    ensures
        r == v@.contains(x),
{
    let mut i: usize = 0;
    while i < v.len()
        invariant
            i <= v@.len(),
            forall |j: int| 0 <= j < i ==> v@[j] != x,
        decreases v@.len() - i,
    {
        if v[i] == x {
            assert(v@[i as int] == x);
            return true;
        }
        i = i + 1;
    }
    assert(!v@.contains(x));
    false
}

} // verus!
