//! One call's retry state, and the step that takes it from one event to the
//! next.
//!
//! The caller owns the loop: it hands the connector an event, carries out the
//! action it gets back (negotiate a connection, sleep), and reports what came
//! of it as the next event. Everything that is decided is decided here: when
//! an attempt starts, which failure is kept, whether to pause or to give up.

use crate::client::{is_store_uri, open_client, opened};
use crate::error::ConnectError;
use crate::policy::{MAX_RETRIES, RETRY_DELAY_SECS};
use crate::settings::{connection_uri, Settings};
use vstd::prelude::*;

verus! {

/// Where a call stands.
#[derive(Clone, Copy, Debug, PartialEq, Eq, Structural)]
pub enum Phase {
    /// An attempt may start: none was made yet, or the last one failed and
    /// was not the final one.
    Ready,
    /// A client handle was built and handed out; its connection is awaited.
    Connecting,
    /// A connection was negotiated. The call is over.
    Connected,
    /// Every attempt failed. The call is over.
    Failed,
}

/// What the store answered to one connection attempt.
#[derive(Debug)]
pub enum Reply {
    /// A connection was negotiated.
    Established,
    /// No connection came about, for the reason given.
    Refused(redis::RedisError),
}

/// What the caller reports to the connector.
#[derive(Debug)]
pub enum Event {
    /// The next attempt is due: the call has just begun, or the pause after a
    /// failed attempt is over.
    AttemptDue,
    /// The connection attempt that was asked for has been answered.
    Replied(Reply),
}

/// A line of progress for the caller to print.
#[derive(Clone, Copy, Debug, PartialEq, Eq, Structural)]
pub enum Notice {
    /// An attempt starts: its number, and how many there are at most.
    Attempting { attempt: u32, of: u32 },
    /// The connection stands.
    Established,
    /// The attempt failed; the connector holds the error as its last one.
    Failed,
    /// Another attempt follows after a pause of so many seconds.
    Retrying { secs: u64 },
}

/// What the caller is to do next.
#[derive(Debug)]
pub enum Action {
    /// Negotiate a connection through this handle and report the reply.
    Connect(redis::Client),
    /// Sleep for so many seconds and report that the next attempt is due.
    Sleep { secs: u64 },
    /// Return the connection that was just negotiated.
    Finish,
    /// Return the connector's final error.
    GiveUp,
}

/// The answer to one event: what to print, then what to do.
#[derive(Debug)]
pub struct Step {
    pub notices: Vec<Notice>,
    pub action: Action,
}

/// An event arrived that the phase has no use for.
#[derive(Clone, Copy, Debug, PartialEq, Eq, Structural)]
pub struct OutOfTurn {
    /// The phase in which the event arrived, and in which the call still is.
    pub phase: Phase,
}

/// A call's state as contracts speak of it.
pub struct State {
    /// The store's address.
    pub address: Seq<char>,
    /// The store's port.
    pub port: Seq<char>,
    /// How many attempts have been started.
    pub attempt: nat,
    /// The failure of the latest attempt that failed.
    pub last_error: Option<ConnectError>,
    pub phase: Phase,
}

/// What one event does to a state.
pub struct Moved {
    pub state: State,
    pub notices: Seq<Notice>,
    pub action: Action,
}

impl State {
    /// A call before its first attempt.
    pub open spec fn initial(address: Seq<char>, port: Seq<char>) -> State {
        State { address, port, attempt: 0, last_error: None, phase: Phase::Ready }
    }

    /// The address every attempt of this call goes to.
    pub open spec fn uri(self) -> Seq<char> {
        connection_uri(self.address, self.port)
    }

    /// The error the call ends with when it gives up: the last failure, or,
    /// had no attempt left one, that the attempts ran out.
    pub open spec fn final_error(self) -> ConnectError {
        match self.last_error {
            Some(e) => e,
            None => ConnectError::AttemptsExhausted,
        }
    }

    /// What holds of every state that a call passes through. No more
    /// attempts are started than there may be. The last error is that of the
    /// latest failed attempt, so there is one exactly when an attempt has
    /// failed, and it names a stage. A call is ready only while attempts are
    /// left, and has failed only after the final attempt.
    pub open spec fn wf(self) -> bool {
        &&& self.attempt <= MAX_RETRIES
        &&& (self.last_error matches Some(e) ==> !(e is AttemptsExhausted))
        &&& match self.phase {
            Phase::Ready => self.attempt < MAX_RETRIES && (self.attempt == 0 <==> self.last_error
                is None),
            Phase::Connecting => self.attempt >= 1 && (self.attempt == 1 <==> self.last_error
                is None),
            Phase::Connected => self.attempt >= 1 && (self.attempt == 1 <==> self.last_error
                is None),
            Phase::Failed => self.attempt == MAX_RETRIES && self.last_error is Some,
        }
    }
}

/// An attempt of `s` has failed with `error`, after `notices` were issued for
/// it. The error replaces the last one. If attempts remain, a pause is
/// ordered and the call is ready for the next; after the final attempt the
/// call gives up at once, without a pause.
pub open spec fn failed(s: State, notices: Seq<Notice>, error: ConnectError) -> Moved {
    if s.attempt < MAX_RETRIES {
        Moved {
            state: State { last_error: Some(error), phase: Phase::Ready, ..s },
            notices: notices.push(Notice::Failed).push(Notice::Retrying { secs: RETRY_DELAY_SECS }),
            action: Action::Sleep { secs: RETRY_DELAY_SECS },
        }
    } else {
        Moved {
            state: State { last_error: Some(error), phase: Phase::Failed, ..s },
            notices: notices.push(Notice::Failed),
            action: Action::GiveUp,
        }
    }
}

/// An attempt is due in `s`, and building the client handle gives `client`.
/// With no attempt left the call gives up. Otherwise the attempt is counted
/// and announced; a handle goes out to be connected, a failure to build one
/// fails the attempt.
pub open spec fn begun(s: State, client: Result<redis::Client, redis::RedisError>) -> Result<
    Moved,
    OutOfTurn,
> {
    if s.phase != Phase::Ready {
        Err(OutOfTurn { phase: s.phase })
    } else if s.attempt >= MAX_RETRIES {
        Ok(
            Moved {
                state: State { phase: Phase::Failed, ..s },
                notices: Seq::empty(),
                action: Action::GiveUp,
            },
        )
    } else {
        let counted = State { attempt: s.attempt + 1, ..s };
        let notices = seq![
            Notice::Attempting { attempt: (s.attempt + 1) as u32, of: MAX_RETRIES },
        ];
        match client {
            Ok(handle) => Ok(
                Moved {
                    state: State { phase: Phase::Connecting, ..counted },
                    notices,
                    action: Action::Connect(handle),
                },
            ),
            Err(e) => Ok(failed(counted, notices, ConnectError::ClientConstruction(e))),
        }
    }
}

/// The store has answered the attempt that `s` awaits. A connection ends the
/// call at once; a refusal fails the attempt.
pub open spec fn replied(s: State, reply: Reply) -> Result<Moved, OutOfTurn> {
    if s.phase != Phase::Connecting {
        Err(OutOfTurn { phase: s.phase })
    } else {
        match reply {
            Reply::Established => Ok(
                Moved {
                    state: State { phase: Phase::Connected, ..s },
                    notices: seq![Notice::Established],
                    action: Action::Finish,
                },
            ),
            Reply::Refused(e) => Ok(
                failed(s, Seq::empty(), ConnectError::ConnectionNegotiation(e)),
            ),
        }
    }
}

/// What an event does to a state, where building a client handle for the
/// call's address gives `client`.
pub open spec fn next_with(
    s: State,
    event: Event,
    client: Result<redis::Client, redis::RedisError>,
) -> Result<Moved, OutOfTurn> {
    match event {
        Event::AttemptDue => begun(s, client),
        Event::Replied(reply) => replied(s, reply),
    }
}

/// What an event does to a state. A due attempt builds its client handle
/// from the call's address.
pub open spec fn next(s: State, event: Event) -> Result<Moved, OutOfTurn> {
    next_with(s, event, opened(s.uri()))
}

/// The state an event leaves: the new one, or the old one where the event
/// was out of turn.
pub open spec fn state_after(
    s: State,
    event: Event,
    client: Result<redis::Client, redis::RedisError>,
) -> State {
    match next_with(s, event, client) {
        Ok(m) => m.state,
        Err(_) => s,
    }
}

/// Two calls side by side, of which the first takes an event.
pub open spec fn stepped_first(
    pair: (State, State),
    event: Event,
    client: Result<redis::Client, redis::RedisError>,
) -> (State, State) {
    (state_after(pair.0, event, client), pair.1)
}

/// Two calls side by side, of which the second takes an event.
pub open spec fn stepped_second(
    pair: (State, State),
    event: Event,
    client: Result<redis::Client, redis::RedisError>,
) -> (State, State) {
    (pair.0, state_after(pair.1, event, client))
}

/// An executed step as the model writes it: the state it left and what it
/// returned.
pub open spec fn done(after: State, r: Result<Step, OutOfTurn>) -> Result<Moved, OutOfTurn> {
    match r {
        Ok(step) => Ok(Moved { state: after, notices: step.notices@, action: step.action }),
        Err(e) => Err(e),
    }
}

/// Every address built from an address and a port has the store's scheme.
pub proof fn lemma_uri_has_scheme(address: Seq<char>, port: Seq<char>)
    ensures
        is_store_uri(connection_uri(address, port)),
{
    let scheme = "redis://"@;
    let uri = connection_uri(address, port);
    assert(uri.subrange(0, scheme.len() as int) =~= scheme);
}

/// A call starts out well-formed.
pub proof fn lemma_initial_is_wf(address: Seq<char>, port: Seq<char>)
    ensures
        State::initial(address, port).wf(),
{
}

/// Every step keeps a call well-formed and leaves its address alone,
/// whatever the event and whatever building the client handle gives.
pub proof fn lemma_step_keeps_wf(
    s: State,
    event: Event,
    client: Result<redis::Client, redis::RedisError>,
)
    requires
        s.wf(),
    ensures
        next_with(s, event, client) matches Ok(m) ==> m.state.wf() && m.state.address == s.address
            && m.state.port == s.port,
{
}

/// A call that has given up has a failure to show: its final error names
/// the stage at which the final attempt failed, never that the attempts
/// merely ran out.
pub proof fn lemma_giving_up_names_a_stage(s: State)
    requires
        s.wf(),
        s.phase == Phase::Failed,
    ensures
        s.last_error == Some(s.final_error()),
        !(s.final_error() is AttemptsExhausted),
{
}

/// Calls do not touch one another: a step of one call leaves every other
/// call as it was, so two calls end up the same whichever of them steps
/// first, and each as if it had stepped alone.
pub proof fn lemma_calls_are_independent(
    a: State,
    b: State,
    event_a: Event,
    event_b: Event,
    client_a: Result<redis::Client, redis::RedisError>,
    client_b: Result<redis::Client, redis::RedisError>,
)
    ensures
        stepped_second(stepped_first((a, b), event_a, client_a), event_b, client_b)
            == stepped_first(stepped_second((a, b), event_b, client_b), event_a, client_a),
        stepped_first((a, b), event_a, client_a).1 == b,
        stepped_second((a, b), event_b, client_b).0 == a,
        stepped_first((a, b), event_a, client_a).0 == state_after(a, event_a, client_a),
        stepped_second((a, b), event_b, client_b).1 == state_after(b, event_b, client_b),
{
}

/// The retry state of one call.
#[derive(Debug)]
pub struct Connector {
    settings: Settings,
    attempt: u32,
    last_error: Option<ConnectError>,
    phase: Phase,
}

impl View for Connector {
    type V = State;

    closed spec fn view(&self) -> State {
        State {
            address: self.settings.address_view(),
            port: self.settings.port_view(),
            attempt: self.attempt as nat,
            last_error: self.last_error,
            phase: self.phase,
        }
    }
}

impl Connector {
    /// A call to the store of `settings`, before its first attempt.
    pub fn new(settings: Settings) -> (c: Connector)
        ensures
            c@ == State::initial(settings.address_view(), settings.port_view()),
            c@.wf(),
    {
        Connector { settings, attempt: 0, last_error: None, phase: Phase::Ready }
    }

    /// How many attempts have been started.
    pub fn attempt(&self) -> (n: u32)
        ensures
            n == self@.attempt,
    {
        self.attempt
    }

    /// Where the call stands.
    pub fn phase(&self) -> (p: Phase)
        ensures
            p == self@.phase,
    {
        self.phase
    }

    /// The failure of the latest attempt that failed, if any did.
    pub fn last_error(&self) -> (e: Option<&ConnectError>)
        ensures
            match e {
                Some(e) => self@.last_error == Some(*e),
                None => self@.last_error is None,
            },
    {
        self.last_error.as_ref()
    }

    /// Ends the call with its error: the last failure, or, if no attempt
    /// left one, that the attempts ran out.
    pub fn into_error(self) -> (e: ConnectError)
        ensures
            e == self@.final_error(),
    {
        match self.last_error {
            Some(e) => e,
            None => ConnectError::AttemptsExhausted,
        }
    }

    /// Records that the attempt under way has failed with `error`, and
    /// decides between a pause and giving up.
    fn fail(&mut self, issued: Vec<Notice>, error: ConnectError) -> (step: Step)
        ensures
            failed(old(self)@, issued@, error) == (Moved {
                state: final(self)@,
                notices: step.notices@,
                action: step.action,
            }),
    {
        let mut notices = issued;
        self.last_error = Some(error);
        notices.push(Notice::Failed);
        if self.attempt < MAX_RETRIES {
            self.phase = Phase::Ready;
            notices.push(Notice::Retrying { secs: RETRY_DELAY_SECS });
            Step { notices, action: Action::Sleep { secs: RETRY_DELAY_SECS } }
        } else {
            self.phase = Phase::Failed;
            Step { notices, action: Action::GiveUp }
        }
    }

    /// Whether an attempt would start now: the call is ready and has
    /// attempts left.
    pub fn attempt_is_due(&self) -> (b: bool)
        ensures
            b == (self@.phase == Phase::Ready && self@.attempt < MAX_RETRIES),
    {
        match self.phase {
            Phase::Ready => self.attempt < MAX_RETRIES,
            _ => false,
        }
    }

    /// Starts the next attempt with the client handle, or the failure to
    /// build one, that the caller brings. Out of turn unless the call is
    /// ready; the state is then left as it was. With no attempt left the
    /// call gives up instead.
    pub fn begin_attempt(&mut self, client: Result<redis::Client, redis::RedisError>) -> (r: Result<
        Step,
        OutOfTurn,
    >)
        ensures
            done(final(self)@, r) == begun(old(self)@, client),
            r is Err ==> final(self)@ == old(self)@,
            old(self)@.wf() ==> final(self)@.wf(),
    {
        if !self.attempt_is_due() {
            return self.pass();
        }
        self.attempt = self.attempt + 1;
        let mut notices: Vec<Notice> = Vec::new();
        notices.push(Notice::Attempting { attempt: self.attempt, of: MAX_RETRIES });
        match client {
            Ok(handle) => {
                self.phase = Phase::Connecting;
                Ok(Step { notices, action: Action::Connect(handle) })
            },
            Err(e) => Ok(self.fail(notices, ConnectError::ClientConstruction(e))),
        }
    }

    /// Takes the store's answer to the attempt under way. Out of turn unless
    /// a connection is awaited; the state is then left as it was.
    pub fn reply(&mut self, reply: Reply) -> (r: Result<Step, OutOfTurn>)
        ensures
            done(final(self)@, r) == replied(old(self)@, reply),
            r is Err ==> final(self)@ == old(self)@,
            old(self)@.wf() ==> final(self)@.wf(),
    {
        match self.phase {
            Phase::Connecting => {},
            _ => {
                return Err(OutOfTurn { phase: self.phase });
            },
        }
        match reply {
            Reply::Established => {
                self.phase = Phase::Connected;
                let mut notices: Vec<Notice> = Vec::new();
                notices.push(Notice::Established);
                Ok(Step { notices, action: Action::Finish })
            },
            Reply::Refused(e) => Ok(self.fail(Vec::new(), ConnectError::ConnectionNegotiation(e))),
        }
    }

    /// Takes one event and answers with what to print and what to do next.
    /// When an attempt is due and one is left, the client handle is built
    /// from the call's address. An event that the phase has no use for is
    /// out of turn, and leaves the state as it was.
    pub fn step(&mut self, event: Event) -> (r: Result<Step, OutOfTurn>)
        ensures
            done(final(self)@, r) == next(old(self)@, event),
            r is Err ==> final(self)@ == old(self)@,
            old(self)@.wf() ==> final(self)@.wf(),
    {
        match event {
            Event::AttemptDue => {
                if self.attempt_is_due() {
                    let uri = self.settings.connection_string();
                    proof {
                        lemma_uri_has_scheme(self@.address, self@.port);
                    }
                    let client = open_client(uri.as_str());
                    self.begin_attempt(client)
                } else {
                    self.pass()
                }
            },
            Event::Replied(reply) => self.reply(reply),
        }
    }

    /// An attempt is due and none starts: with none left the call gives up,
    /// in any phase but the ready one the event is out of turn.
    fn pass(&mut self) -> (r: Result<Step, OutOfTurn>)
        requires
            !(old(self)@.phase == Phase::Ready && old(self)@.attempt < MAX_RETRIES),
        ensures
            forall|client: Result<redis::Client, redis::RedisError>|
                done(final(self)@, r) == #[trigger] begun(old(self)@, client),
            r is Err ==> final(self)@ == old(self)@,
            old(self)@.wf() ==> final(self)@.wf(),
    {
        match self.phase {
            Phase::Ready => {
                self.phase = Phase::Failed;
                Ok(Step { notices: Vec::new(), action: Action::GiveUp })
            },
            _ => Err(OutOfTurn { phase: self.phase }),
        }
    }
}

} // verus!
