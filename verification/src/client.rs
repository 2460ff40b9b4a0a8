//! The driver-facing half of the protocol: blocking `initialize`, `reset`,
//! `run` and `exit` calls, each a strict send-then-receive pair.
//!
//! Every operation first applies the send transition to the local state
//! machine, so a malformed call sequence (for example `run` before `reset`)
//! fails locally with `ProtocolViolation` without touching the transport.
//! The client keeps a ghost transcript of every message it hands to the
//! transport and of every reply it takes off it, so each operation's
//! contract pins down exactly what crosses the channel and how the returned
//! value relates to the received reply.

use vstd::prelude::*;

use crate::channel::{channel_recv, channel_send};
use crate::messages::{ClientMessage, InputConfig, ModuleMessage, OutputConfig, ProtocolError,
    StopReason};
use crate::state::{client_event, event_of_client, step, Event, ProtocolState, StateMachine};
use std::sync::mpsc::Receiver;
use std::sync::mpsc::Sender;

verus! {

/// The mathematical model of a [`Client`]: its protocol state and the two
/// channel transcripts.
pub ghost struct ClientView {
    /// The client's copy of the protocol state machine.
    pub state: ProtocolState,
    /// Every message this client has successfully handed to the transport,
    /// in order.
    pub sent: Seq<ClientMessage>,
    /// Every reply this client has taken off the transport, in order.
    pub received: Seq<ModuleMessage>,
}

/// The client-side controller. It owns one end of each message channel and
/// the client's copy of the protocol state machine.
pub struct Client {
    state: StateMachine,
    tx: Sender<ClientMessage>,
    rx: Receiver<ModuleMessage>,
    sent: Ghost<Seq<ClientMessage>>,
    received: Ghost<Seq<ModuleMessage>>,
}

impl View for Client {
    type V = ClientView;

    closed spec fn view(&self) -> ClientView {
        ClientView {
            state: self.state.current(),
            sent: self.sent@,
            received: self.received@,
        }
    }
}

impl Client {
    /// Build a client around the two channel endpoints that lead to a
    /// module; the session starts uninitialized with empty transcripts.
    pub fn new(tx: Sender<ClientMessage>, rx: Receiver<ModuleMessage>) -> (c: Client)
        ensures
            c@.state == ProtocolState::Uninitialized,
            c@.sent == Seq::<ClientMessage>::empty(),
            c@.received == Seq::<ModuleMessage>::empty(),
    {
        Client {
            state: StateMachine::new(),
            tx,
            rx,
            sent: Ghost(Seq::empty()),
            received: Ghost(Seq::empty()),
        }
    }

    /// The protocol state, readable by unverified callers.
    pub fn current_state(&self) -> (s: ProtocolState)
        ensures
            s == self@.state,
    {
        self.state.current_state()
    }

    /// Validate the send transition, then transmit. On a violation nothing
    /// is transmitted and nothing changes; on success the message is
    /// appended to the transcript of sent messages.
    fn send_msg(&mut self, msg: ClientMessage) -> (r: Result<(), ProtocolError>)
        ensures
            final(self)@.received == old(self)@.received,
            match step(old(self)@.state, client_event(msg)) {
                Some(next) => {
                    &&& (r is Ok ==> final(self)@ == ClientView {
                        state: next,
                        sent: old(self)@.sent.push(msg),
                        ..old(self)@
                    })
                    &&& (r matches Err(e) ==> e == ProtocolError::TransportFailure
                        && final(self)@ == ClientView { state: next, ..old(self)@ })
                },
                None => {
                    &&& r == Err::<(), ProtocolError>(ProtocolError::ProtocolViolation(
                        old(self)@.state,
                        client_event(msg),
                    ))
                    &&& final(self)@ == old(self)@
                },
            },
    {
        let event = event_of_client(&msg);
        self.state.consume(event)?;
        let ghost sent_msg = msg;
        match channel_send(&self.tx, msg) {
            Ok(()) => {
                self.sent = Ghost(self.sent@.push(sent_msg));
                Ok(())
            }
            Err(e) => Err(e),
        }
    }

    /// Take one reply off the channel and record it in the transcript;
    /// which variant was owed is checked at the call sites.
    fn recv_reply(&mut self) -> (r: Result<ModuleMessage, ProtocolError>)
        ensures
            final(self)@.state == old(self)@.state,
            final(self)@.sent == old(self)@.sent,
            r matches Ok(m) ==> final(self)@.received == old(self)@.received.push(m),
            r is Err ==> r == Err::<ModuleMessage, ProtocolError>(
                ProtocolError::TransportFailure,
            ) && final(self)@.received == old(self)@.received,
    {
        let msg = channel_recv(&self.rx)?;
        let ghost received_msg = msg;
        self.received = Ghost(self.received@.push(received_msg));
        Ok(msg)
    }

    /// Send `Initialize(config)` and block for the `Initialized` reply,
    /// returning the configuration the module echoed back.
    ///
    /// Admitted only in `Uninitialized`; anywhere else the call fails
    /// locally and nothing crosses the channel. From there exactly one
    /// `Initialize(config)` is transmitted; a structurally valid reply of
    /// any other variant fails the call with `UnexpectedReply`; on success
    /// the result is exactly the payload of the received `Initialized` and
    /// the session stands in `Initialized`.
    pub fn initialize(&mut self, config: InputConfig) -> (r: Result<OutputConfig, ProtocolError>)
        ensures
            old(self)@.state != ProtocolState::Uninitialized ==> {
                &&& r == Err::<OutputConfig, ProtocolError>(ProtocolError::ProtocolViolation(
                    old(self)@.state,
                    Event::Initialize,
                ))
                &&& final(self)@ == old(self)@
            },
            old(self)@.state == ProtocolState::Uninitialized ==> {
                &&& (r is Ok <==> final(self)@.state == ProtocolState::Initialized)
                &&& (r is Err ==> final(self)@.state == ProtocolState::HalfInitialized)
                &&& (final(self)@.sent == old(self)@.sent || final(self)@.sent
                    == old(self)@.sent.push(ClientMessage::Initialize(config)))
                &&& (r matches Ok(out) ==> {
                    &&& final(self)@.sent
                        == old(self)@.sent.push(ClientMessage::Initialize(config))
                    &&& final(self)@.received
                        == old(self)@.received.push(ModuleMessage::Initialized(out))
                })
                &&& (r matches Err(e) ==> e == ProtocolError::TransportFailure
                    || e == ProtocolError::UnexpectedReply)
                &&& (r == Err::<OutputConfig, ProtocolError>(ProtocolError::TransportFailure)
                    ==> final(self)@.received == old(self)@.received)
                &&& (r == Err::<OutputConfig, ProtocolError>(ProtocolError::UnexpectedReply)
                    ==> {
                    &&& final(self)@.sent
                        == old(self)@.sent.push(ClientMessage::Initialize(config))
                    &&& final(self)@.received
                        == old(self)@.received.push(final(self)@.received.last())
                    &&& !(final(self)@.received.last() is Initialized)
                })
            },
    {
        self.send_msg(ClientMessage::Initialize(config))?;
        match self.recv_reply()? {
            ModuleMessage::Initialized(output) => {
                self.state.consume(Event::Initialized)?;
                Ok(output)
            }
            _ => Err(ProtocolError::UnexpectedReply),
        }
    }

    /// Send `Reset` and block for the `Ready` reply.
    ///
    /// Admitted in `Initialized` and `Stopped`; anywhere else the call
    /// fails locally and nothing crosses the channel. From those exactly
    /// one `Reset` is transmitted; a reply of any other variant fails the
    /// call with `UnexpectedReply`; on success exactly one `Ready` was
    /// consumed and the session stands in `Ready`.
    pub fn reset(&mut self) -> (r: Result<(), ProtocolError>)
        ensures
            old(self)@.state != ProtocolState::Initialized
                && old(self)@.state != ProtocolState::Stopped ==> {
                &&& r == Err::<(), ProtocolError>(ProtocolError::ProtocolViolation(
                    old(self)@.state,
                    Event::Reset,
                ))
                &&& final(self)@ == old(self)@
            },
            old(self)@.state == ProtocolState::Initialized
                || old(self)@.state == ProtocolState::Stopped ==> {
                &&& (r is Ok <==> final(self)@.state == ProtocolState::Ready)
                &&& (r is Err ==> final(self)@.state == ProtocolState::HalfReady)
                &&& (final(self)@.sent == old(self)@.sent || final(self)@.sent
                    == old(self)@.sent.push(ClientMessage::Reset))
                &&& (r is Ok ==> {
                    &&& final(self)@.sent == old(self)@.sent.push(ClientMessage::Reset)
                    &&& final(self)@.received
                        == old(self)@.received.push(ModuleMessage::Ready)
                })
                &&& (r matches Err(e) ==> e == ProtocolError::TransportFailure
                    || e == ProtocolError::UnexpectedReply)
                &&& (r == Err::<(), ProtocolError>(ProtocolError::TransportFailure)
                    ==> final(self)@.received == old(self)@.received)
                &&& (r == Err::<(), ProtocolError>(ProtocolError::UnexpectedReply) ==> {
                    &&& final(self)@.sent == old(self)@.sent.push(ClientMessage::Reset)
                    &&& final(self)@.received
                        == old(self)@.received.push(final(self)@.received.last())
                    &&& !(final(self)@.received.last() is Ready)
                })
            },
    {
        self.send_msg(ClientMessage::Reset)?;
        match self.recv_reply()? {
            ModuleMessage::Ready => {
                self.state.consume(Event::Ready)?;
                Ok(())
            }
            _ => Err(ProtocolError::UnexpectedReply),
        }
    }

    /// Send `Run(input)` carrying the caller's bytes unmodified and block
    /// for the `Stopped(reason)` reply, returning why the run concluded.
    /// The wait has no client-side bound: the only timeout is the module's
    /// own `TimeOut` classification, which arrives here as an ordinary
    /// `Ok(TimeOut)`.
    ///
    /// Admitted only in `Ready`; anywhere else the call fails locally and
    /// nothing crosses the channel. From there exactly one `Run(input)` is
    /// transmitted; a reply of any other variant fails the call with
    /// `UnexpectedReply`; on success the result is exactly the reason the
    /// received `Stopped` carried and the session stands in `Stopped`.
    pub fn run(&mut self, input: Vec<u8>) -> (r: Result<StopReason, ProtocolError>)
        ensures
            old(self)@.state != ProtocolState::Ready ==> {
                &&& r == Err::<StopReason, ProtocolError>(ProtocolError::ProtocolViolation(
                    old(self)@.state,
                    Event::Run,
                ))
                &&& final(self)@ == old(self)@
            },
            old(self)@.state == ProtocolState::Ready ==> {
                &&& (r is Ok <==> final(self)@.state == ProtocolState::Stopped)
                &&& (r is Err ==> final(self)@.state == ProtocolState::Running)
                &&& (final(self)@.sent == old(self)@.sent || final(self)@.sent
                    == old(self)@.sent.push(ClientMessage::Run(input)))
                &&& (r matches Ok(reason) ==> {
                    &&& final(self)@.sent == old(self)@.sent.push(ClientMessage::Run(input))
                    &&& final(self)@.received
                        == old(self)@.received.push(ModuleMessage::Stopped(reason))
                })
                &&& (r matches Err(e) ==> e == ProtocolError::TransportFailure
                    || e == ProtocolError::UnexpectedReply)
                &&& (r == Err::<StopReason, ProtocolError>(ProtocolError::TransportFailure)
                    ==> final(self)@.received == old(self)@.received)
                &&& (r == Err::<StopReason, ProtocolError>(ProtocolError::UnexpectedReply)
                    ==> {
                    &&& final(self)@.sent == old(self)@.sent.push(ClientMessage::Run(input))
                    &&& final(self)@.received
                        == old(self)@.received.push(final(self)@.received.last())
                    &&& !(final(self)@.received.last() is Stopped)
                })
            },
    {
        self.send_msg(ClientMessage::Run(input))?;
        match self.recv_reply()? {
            ModuleMessage::Stopped(reason) => {
                self.state.consume(Event::Stopped)?;
                Ok(reason)
            }
            _ => Err(ProtocolError::UnexpectedReply),
        }
    }

    /// Send `Exit` without waiting for a reply; the module is expected to
    /// terminate its process. From every state but `Done` exactly one
    /// `Exit` is transmitted and the session moves to `Done`, after which
    /// every further call is rejected.
    pub fn exit(&mut self) -> (r: Result<(), ProtocolError>)
        ensures
            old(self)@.state == ProtocolState::Done ==> {
                &&& r == Err::<(), ProtocolError>(ProtocolError::ProtocolViolation(
                    ProtocolState::Done,
                    Event::Exit,
                ))
                &&& final(self)@ == old(self)@
            },
            old(self)@.state != ProtocolState::Done ==> {
                &&& final(self)@.state == ProtocolState::Done
                &&& final(self)@.received == old(self)@.received
                &&& (r is Ok ==> final(self)@.sent
                    == old(self)@.sent.push(ClientMessage::Exit))
                &&& (r matches Err(e) ==> e == ProtocolError::TransportFailure
                    && final(self)@.sent == old(self)@.sent)
            },
    {
        self.send_msg(ClientMessage::Exit)?;
        Ok(())
    }
}

} // verus!
