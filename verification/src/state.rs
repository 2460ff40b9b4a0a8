//! The protocol state machine shared by the client and the module.
//!
//! Both sides advance one instance of [`StateMachine`] using the same
//! transition table, parameterized only by which message variant was sent or
//! received, so that after every successful round trip the two sides stand in
//! the same named state.

use vstd::prelude::*;

use crate::messages::{ClientMessage, ModuleMessage, ProtocolError};

verus! {

/// The named protocol states. `Uninitialized` is initial; `Done` is terminal
/// and absorbing: once entered, no further event is accepted.
#[derive(Debug, Clone, Copy, PartialEq, Eq, Structural)]
pub enum ProtocolState {
    Uninitialized,
    HalfInitialized,
    Initialized,
    HalfReady,
    Ready,
    Running,
    Stopped,
    Done,
}

/// The events that drive the state machine: one per message variant,
/// regardless of whether the variant was sent or received.
#[derive(Debug, Clone, Copy, PartialEq, Eq, Structural)]
pub enum Event {
    Initialize,
    Initialized,
    Reset,
    Ready,
    Run,
    Stopped,
    Exit,
}

/// The single source of truth for legal message ordering: the next state for
/// an event admitted in the given state, or `None` where the event is a
/// protocol violation.
pub open spec fn step(s: ProtocolState, e: Event) -> Option<ProtocolState> {
    match (s, e) {
        (ProtocolState::Done, _) => None,
        (_, Event::Exit) => Some(ProtocolState::Done),
        (ProtocolState::Uninitialized, Event::Initialize) => Some(ProtocolState::HalfInitialized),
        (ProtocolState::HalfInitialized, Event::Initialized) => Some(ProtocolState::Initialized),
        (ProtocolState::Initialized, Event::Reset) => Some(ProtocolState::HalfReady),
        (ProtocolState::Stopped, Event::Reset) => Some(ProtocolState::HalfReady),
        (ProtocolState::HalfReady, Event::Ready) => Some(ProtocolState::Ready),
        (ProtocolState::Ready, Event::Run) => Some(ProtocolState::Running),
        (ProtocolState::Running, Event::Stopped) => Some(ProtocolState::Stopped),
        _ => None,
    }
}

/// The event a client-to-module message stands for.
pub open spec fn client_event(m: ClientMessage) -> Event {
    match m {
        ClientMessage::Initialize(_) => Event::Initialize,
        ClientMessage::Run(_) => Event::Run,
        ClientMessage::Reset => Event::Reset,
        ClientMessage::Exit => Event::Exit,
    }
}

/// The event a module-to-client message stands for.
pub open spec fn module_event(m: ModuleMessage) -> Event {
    match m {
        ModuleMessage::Initialized(_) => Event::Initialized,
        ModuleMessage::Ready => Event::Ready,
        ModuleMessage::Stopped(_) => Event::Stopped,
    }
}

/// Executable counterpart of [`client_event`].
pub fn event_of_client(m: &ClientMessage) -> (e: Event)
    ensures
        e == client_event(*m),
{
    match m {
        ClientMessage::Initialize(_) => Event::Initialize,
        ClientMessage::Run(_) => Event::Run,
        ClientMessage::Reset => Event::Reset,
        ClientMessage::Exit => Event::Exit,
    }
}

/// Executable counterpart of [`module_event`].
pub fn event_of_module(m: &ModuleMessage) -> (e: Event)
    ensures
        e == module_event(*m),
{
    match m {
        ModuleMessage::Initialized(_) => Event::Initialized,
        ModuleMessage::Ready => Event::Ready,
        ModuleMessage::Stopped(_) => Event::Stopped,
    }
}

/// Executable counterpart of [`step`].
pub fn transition(s: ProtocolState, e: Event) -> (r: Option<ProtocolState>)
    ensures
        r == step(s, e),
{
    match (s, e) {
        (ProtocolState::Done, _) => None,
        (_, Event::Exit) => Some(ProtocolState::Done),
        (ProtocolState::Uninitialized, Event::Initialize) => Some(ProtocolState::HalfInitialized),
        (ProtocolState::HalfInitialized, Event::Initialized) => Some(ProtocolState::Initialized),
        (ProtocolState::Initialized, Event::Reset) => Some(ProtocolState::HalfReady),
        (ProtocolState::Stopped, Event::Reset) => Some(ProtocolState::HalfReady),
        (ProtocolState::HalfReady, Event::Ready) => Some(ProtocolState::Ready),
        (ProtocolState::Ready, Event::Run) => Some(ProtocolState::Running),
        (ProtocolState::Running, Event::Stopped) => Some(ProtocolState::Stopped),
        _ => None,
    }
}

/// One side's protocol state, advanced exclusively through [`StateMachine::consume`].
pub struct StateMachine {
    state: ProtocolState,
}

impl StateMachine {
    /// The state this side currently stands in.
    pub closed spec fn current(&self) -> ProtocolState {
        self.state
    }

    /// A fresh machine in the initial state.
    pub fn new() -> (m: StateMachine)
        ensures
            m.current() == ProtocolState::Uninitialized,
    {
        StateMachine { state: ProtocolState::Uninitialized }
    }

    /// The state, readable by unverified callers.
    pub fn current_state(&self) -> (s: ProtocolState)
        ensures
            s == self.current(),
    {
        self.state
    }

    /// Advance by one event. An event not admitted in the current state is
    /// always rejected with `ProtocolViolation`, naming the state and the
    /// event, and the state is left unchanged.
    pub fn consume(&mut self, event: Event) -> (r: Result<(), ProtocolError>)
        ensures
            match step(old(self).current(), event) {
                Some(next) => r is Ok && final(self).current() == next,
                None => {
                    &&& r == Err::<(), ProtocolError>(
                        ProtocolError::ProtocolViolation(old(self).current(), event),
                    )
                    &&& final(self).current() == old(self).current()
                },
            },
    {
        match transition(self.state, event) {
            Some(next) => {
                self.state = next;
                Ok(())
            }
            None => Err(ProtocolError::ProtocolViolation(self.state, event)),
        }
    }
}

/// Fold a sequence of events through [`step`], failing if any single step is
/// a violation.
pub open spec fn run_events(s: ProtocolState, events: Seq<Event>) -> Option<ProtocolState>
    decreases events.len(),
{
    if events.len() == 0 {
        Some(s)
    } else {
        match step(s, events[0]) {
            Some(next) => run_events(next, events.drop_first()),
            None => None,
        }
    }
}

/// The four events of one reset/run round, as seen by either side.
pub open spec fn round_events() -> Seq<Event> {
    seq![Event::Reset, Event::Ready, Event::Run, Event::Stopped]
}

/// The tail of a session after initialization: some number of reset/run
/// rounds followed by `Exit`.
pub open spec fn session_tail(rounds: nat) -> Seq<Event>
    decreases rounds,
{
    if rounds == 0 {
        seq![Event::Exit]
    } else {
        round_events() + session_tail((rounds - 1) as nat)
    }
}

/// The event trace of a full session with the given number of reset/run
/// rounds.
pub open spec fn session_events(rounds: nat) -> Seq<Event> {
    seq![Event::Initialize, Event::Initialized] + session_tail(rounds)
}

/// Folding a concatenation is folding the parts in order.
pub proof fn lemma_run_events_concat(s: ProtocolState, a: Seq<Event>, b: Seq<Event>)
    ensures
        run_events(s, a + b) == (match run_events(s, a) {
            Some(mid) => run_events(mid, b),
            None => None::<ProtocolState>,
        }),
    decreases a.len(),
{
    if a.len() == 0 {
        assert(a + b =~= b);
    } else {
        assert((a + b)[0] == a[0]);
        match step(s, a[0]) {
            Some(next) => {
                assert((a + b).drop_first() =~= a.drop_first() + b);
                lemma_run_events_concat(next, a.drop_first(), b);
            }
            None => {}
        }
    }
}

/// One reset/run round takes either of its two admitted starting states to
/// `Stopped`.
proof fn lemma_run_round(s: ProtocolState)
    requires
        s == ProtocolState::Initialized || s == ProtocolState::Stopped,
    ensures
        run_events(s, round_events()) == Some(ProtocolState::Stopped),
{
    reveal_with_fuel(run_events, 5);
    let evs = round_events();
    assert(evs.drop_first() =~= seq![Event::Ready, Event::Run, Event::Stopped]);
    assert(evs.drop_first().drop_first() =~= seq![Event::Run, Event::Stopped]);
    assert(evs.drop_first().drop_first().drop_first() =~= seq![Event::Stopped]);
    assert(evs.drop_first().drop_first().drop_first().drop_first() =~= Seq::<Event>::empty());
}

/// From `Initialized` or `Stopped`, any number of reset/run rounds followed
/// by `Exit` ends in `Done`.
proof fn lemma_session_tail_ends_done(s: ProtocolState, rounds: nat)
    requires
        s == ProtocolState::Initialized || s == ProtocolState::Stopped,
    ensures
        run_events(s, session_tail(rounds)) == Some(ProtocolState::Done),
    decreases rounds,
{
    if rounds == 0 {
        reveal_with_fuel(run_events, 2);
        assert(seq![Event::Exit].drop_first() =~= Seq::<Event>::empty());
    } else {
        lemma_run_events_concat(s, round_events(), session_tail((rounds - 1) as nat));
        lemma_run_round(s);
        lemma_session_tail_ends_done(ProtocolState::Stopped, (rounds - 1) as nat);
    }
}

/// A full session `Initialize -> (Reset -> Run)* -> Exit` always ends in
/// `Done`, regardless of how many reset/run rounds occur.
pub proof fn lemma_full_session_ends_done(rounds: nat)
    ensures
        run_events(ProtocolState::Uninitialized, session_events(rounds))
            == Some(ProtocolState::Done),
{
    let prefix = seq![Event::Initialize, Event::Initialized];
    lemma_run_events_concat(ProtocolState::Uninitialized, prefix, session_tail(rounds));
    assert(run_events(ProtocolState::Uninitialized, prefix)
        == Some(ProtocolState::Initialized)) by {
        reveal_with_fuel(run_events, 3);
        assert(prefix.drop_first() =~= seq![Event::Initialized]);
        assert(prefix.drop_first().drop_first() =~= Seq::<Event>::empty());
    }
    lemma_session_tail_ends_done(ProtocolState::Initialized, rounds);
}

/// `Exit` is accepted from every state but the terminal one and always leads
/// to `Done`; from `Done`, nothing at all is accepted.
pub proof fn lemma_exit_absorbing(s: ProtocolState, e: Event)
    ensures
        s != ProtocolState::Done ==> step(s, Event::Exit) == Some(ProtocolState::Done),
        step(ProtocolState::Done, e) is None,
{
}

} // verus!
