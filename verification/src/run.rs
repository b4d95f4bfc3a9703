//! A whole call, played against a store whose answers are known in advance,
//! and what holds of every such call.
//!
//! What building a client handle gives is taken as given too. It is the same
//! at every attempt of a call, since the address never changes; the laws
//! hold whatever it is, and so for what the client library really returns.

use crate::connector::{next_with, Action, Event, Moved, Notice, Phase, Reply, State};
use crate::error::ConnectError;
use crate::policy::MAX_RETRIES;
use vstd::prelude::*;

verus! {

/// What a call did from some state on: the state it ended in, and every
/// notice and action it issued, in order.
pub struct Run {
    pub end: State,
    pub notices: Seq<Notice>,
    pub actions: Seq<Action>,
}

/// A notice that an attempt starts.
pub open spec fn announces_attempt(n: Notice) -> bool {
    n is Attempting
}

/// A notice that an attempt failed.
pub open spec fn reports_failure(n: Notice) -> bool {
    n is Failed
}

/// An order to pause.
pub open spec fn orders_delay(a: Action) -> bool {
    a is Sleep
}

/// An order to negotiate a connection.
pub open spec fn orders_connection(a: Action) -> bool {
    a is Connect
}

/// How many items of a sequence are of one sort.
pub open spec fn count<T>(items: Seq<T>, sort: spec_fn(T) -> bool) -> nat
    decreases items.len(),
{
    if items.len() == 0 {
        0
    } else {
        count(items.drop_last(), sort) + if sort(items.last()) {
            1nat
        } else {
            0nat
        }
    }
}

impl Run {
    /// A run in which nothing more happens.
    pub open spec fn stopped(s: State) -> Run {
        Run { end: s, notices: Seq::empty(), actions: Seq::empty() }
    }

    /// One step, then the run that follows it.
    pub open spec fn after(m: Moved, rest: Run) -> Run {
        Run {
            end: rest.end,
            notices: m.notices + rest.notices,
            actions: seq![m.action] + rest.actions,
        }
    }

    /// How many attempts were announced.
    pub open spec fn attempts(self) -> nat {
        count(self.notices, |n: Notice| announces_attempt(n))
    }

    /// How many failed attempts were reported.
    pub open spec fn failures(self) -> nat {
        count(self.notices, |n: Notice| reports_failure(n))
    }

    /// How many pauses were ordered.
    pub open spec fn delays(self) -> nat {
        count(self.actions, |a: Action| orders_delay(a))
    }

    /// How many times the caller was sent to the store.
    pub open spec fn connections(self) -> nat {
        count(self.actions, |a: Action| orders_connection(a))
    }

    /// What the caller returns: nothing yet while the call is under way,
    /// success once a connection stands, and the final error once the call
    /// has given up.
    pub open spec fn outcome(self) -> Option<Result<(), ConnectError>> {
        match self.end.phase {
            Phase::Connected => Some(Ok(())),
            Phase::Failed => Some(Err(self.end.final_error())),
            _ => None,
        }
    }
}

/// A bound on the steps that a call can still take.
pub open spec fn budget(s: State, event: Event) -> nat {
    let left = if s.attempt < MAX_RETRIES {
        (MAX_RETRIES - s.attempt) as nat
    } else {
        0nat
    };
    match event {
        Event::AttemptDue => 2 * left,
        Event::Replied(_) => 2 * left + 1,
    }
}

/// The call from state `s` and event `event` on, as a caller plays it who
/// does what each action says: it answers a request to connect with the
/// store's next reply from `replies`, and a pause with the event that the
/// next attempt is due. Building a client handle gives `client` each time.
/// The run stops when the call finishes or gives up, when an event is out
/// of turn, or when the store's replies run out.
pub open spec fn run(
    s: State,
    event: Event,
    client: Result<redis::Client, redis::RedisError>,
    replies: Seq<Reply>,
) -> Run
    decreases budget(s, event),
{
    match next_with(s, event, client) {
        Err(_) => Run::stopped(s),
        Ok(m) => {
            let rest = match m.action {
                Action::Connect(_) => {
                    if replies.len() > 0 {
                        run(m.state, Event::Replied(replies.first()), client, replies.skip(1))
                    } else {
                        Run::stopped(m.state)
                    }
                },
                Action::Sleep { .. } => run(m.state, Event::AttemptDue, client, replies),
                Action::Finish => Run::stopped(m.state),
                Action::GiveUp => Run::stopped(m.state),
            };
            Run::after(m, rest)
        },
    }
}

/// A whole call to the store at `address` and `port`, from before its first
/// attempt, where building a client handle gives `client`.
pub open spec fn call(
    address: Seq<char>,
    port: Seq<char>,
    client: Result<redis::Client, redis::RedisError>,
    replies: Seq<Reply>,
) -> Run {
    run(State::initial(address, port), Event::AttemptDue, client, replies)
}

/// The cause of a refusal.
pub open spec fn refusal(reply: Reply) -> redis::RedisError
    recommends
        reply is Refused,
{
    reply->Refused_0
}

proof fn lemma_count_push<T>(items: Seq<T>, item: T, sort: spec_fn(T) -> bool)
    ensures
        count(items.push(item), sort) == count(items, sort) + if sort(item) {
            1nat
        } else {
            0nat
        },
{
    assert(items.push(item).drop_last() =~= items);
}

proof fn lemma_count_add<T>(a: Seq<T>, b: Seq<T>, sort: spec_fn(T) -> bool)
    ensures
        count(a + b, sort) == count(a, sort) + count(b, sort),
    decreases b.len(),
{
    if b.len() == 0 {
        assert(a + b =~= a);
    } else {
        assert((a + b).drop_last() =~= a + b.drop_last());
        lemma_count_add(a, b.drop_last(), sort);
    }
}

/// What one step adds to each of a run's four counts.
proof fn lemma_step_counts(m: Moved, rest: Run)
    ensures
        Run::after(m, rest).attempts() == count(m.notices, |n: Notice| announces_attempt(n))
            + rest.attempts(),
        Run::after(m, rest).failures() == count(m.notices, |n: Notice| reports_failure(n))
            + rest.failures(),
        Run::after(m, rest).delays() == rest.delays() + if m.action is Sleep {
            1nat
        } else {
            0nat
        },
        Run::after(m, rest).connections() == rest.connections() + if m.action is Connect {
            1nat
        } else {
            0nat
        },
{
    lemma_count_add(m.notices, rest.notices, |n: Notice| announces_attempt(n));
    lemma_count_add(m.notices, rest.notices, |n: Notice| reports_failure(n));
    lemma_count_add(seq![m.action], rest.actions, |a: Action| orders_delay(a));
    lemma_count_add(seq![m.action], rest.actions, |a: Action| orders_connection(a));
    lemma_count_push(Seq::empty(), m.action, |a: Action| orders_delay(a));
    lemma_count_push(Seq::empty(), m.action, |a: Action| orders_connection(a));
}

/// The event fits the phase: an attempt falls due on a call that is ready,
/// a reply comes to a call that awaits one.
pub open spec fn in_turn(s: State, event: Event) -> bool {
    match event {
        Event::AttemptDue => s.phase == Phase::Ready,
        Event::Replied(_) => s.phase == Phase::Connecting,
    }
}

/// What the notices of one step count to: an attempt is announced exactly
/// when one starts, and a failure reported exactly when the step orders a
/// pause or gives up.
proof fn lemma_notices_of_step(
    s: State,
    event: Event,
    client: Result<redis::Client, redis::RedisError>,
)
    requires
        s.wf(),
        in_turn(s, event),
    ensures
        ({
            let m = next_with(s, event, client)->Ok_0;
            &&& next_with(s, event, client) is Ok
            &&& count(m.notices, |n: Notice| announces_attempt(n)) == if event is AttemptDue {
                1nat
            } else {
                0nat
            }
            &&& count(m.notices, |n: Notice| reports_failure(n)) == if m.action is Sleep
                || m.action is GiveUp {
                1nat
            } else {
                0nat
            }
        }),
{
    let m = next_with(s, event, client)->Ok_0;
    let none = Seq::<Notice>::empty();
    let first = m.notices[0];
    assert(m.notices.len() >= 1);
    lemma_count_push(none, first, |n: Notice| announces_attempt(n));
    lemma_count_push(none, first, |n: Notice| reports_failure(n));
    if m.notices.len() >= 2 {
        let second = m.notices[1];
        lemma_count_push(none.push(first), second, |n: Notice| announces_attempt(n));
        lemma_count_push(none.push(first), second, |n: Notice| reports_failure(n));
        if m.notices.len() >= 3 {
            let third = m.notices[2];
            let two = none.push(first).push(second);
            lemma_count_push(two, third, |n: Notice| announces_attempt(n));
            lemma_count_push(two, third, |n: Notice| reports_failure(n));
            assert(m.notices =~= two.push(third));
        } else {
            assert(m.notices =~= none.push(first).push(second));
        }
    } else {
        assert(m.notices =~= none.push(first));
    }
}

/// The books of every run balance. However the store answers and whatever
/// building a client handle gives, a call played from a well-formed state
/// stays well-formed and keeps its address. Every attempt it starts is
/// announced once. Between two attempts lies exactly one pause, and none
/// follows the last. Every attempt but the last has failed; the last has
/// failed exactly if the call gave up. The caller is sent to the store once
/// for every attempt if a client handle can be built, and never if not.
pub proof fn lemma_run_balances(
    s: State,
    event: Event,
    client: Result<redis::Client, redis::RedisError>,
    replies: Seq<Reply>,
)
    requires
        s.wf(),
        in_turn(s, event),
    ensures
        ({
            let r = run(s, event, client, replies);
            let started = r.end.attempt - s.attempt;
            let pending: int = if event is Replied {
                1
            } else {
                0
            };
            let lost: int = if r.end.phase == Phase::Failed {
                1
            } else {
                0
            };
            &&& r.end.wf()
            &&& r.end.address == s.address
            &&& r.end.port == s.port
            &&& r.end.phase != Phase::Ready
            &&& started + pending >= 1
            &&& r.attempts() == started
            &&& r.delays() == started + pending - 1
            &&& r.failures() == started + pending - 1 + lost
            &&& r.connections() == if client is Ok {
                started
            } else {
                0
            }
        }),
    decreases budget(s, event),
{
    let r = run(s, event, client, replies);
    let m = next_with(s, event, client)->Ok_0;
    lemma_notices_of_step(s, event, client);
    match m.action {
        Action::Connect(_) if replies.len() > 0 => {
            let reply = Event::Replied(replies.first());
            let rest = run(m.state, reply, client, replies.skip(1));
            assert(r == Run::after(m, rest));
            lemma_step_counts(m, rest);
            lemma_run_balances(m.state, reply, client, replies.skip(1));
        },
        Action::Sleep { .. } => {
            let rest = run(m.state, Event::AttemptDue, client, replies);
            assert(r == Run::after(m, rest));
            lemma_step_counts(m, rest);
            lemma_run_balances(m.state, Event::AttemptDue, client, replies);
        },
        _ => {
            let rest = Run::stopped(m.state);
            assert(r == Run::after(m, rest));
            lemma_step_counts(m, rest);
        },
    }
}

/// From a call that is ready, `n` refusals and then a connection, with
/// attempts enough for all of them, end in a connection on the attempt after
/// the refusals.
proof fn lemma_refused_then_established(
    s: State,
    client: Result<redis::Client, redis::RedisError>,
    replies: Seq<Reply>,
    n: nat,
)
    requires
        s.wf(),
        s.phase == Phase::Ready,
        client is Ok,
        s.attempt + n < MAX_RETRIES,
        n < replies.len(),
        forall|i: int| 0 <= i < n ==> replies[i] is Refused,
        replies[n as int] is Established,
    ensures
        ({
            let r = run(s, Event::AttemptDue, client, replies);
            &&& r.end.phase == Phase::Connected
            &&& r.end.attempt == s.attempt + n + 1
            &&& r.end.last_error == if n == 0 {
                s.last_error
            } else {
                Some(ConnectError::ConnectionNegotiation(refusal(replies[n - 1])))
            }
            &&& r.actions.last() is Finish
        }),
    decreases n,
{
    let begun = next_with(s, Event::AttemptDue, client)->Ok_0;
    let answered = next_with(begun.state, Event::Replied(replies.first()), client)->Ok_0;
    let r = run(s, Event::AttemptDue, client, replies);
    let r1 = run(begun.state, Event::Replied(replies.first()), client, replies.skip(1));
    assert(r == Run::after(begun, r1));
    if n > 0 {
        assert(replies[0] is Refused);
        let r2 = run(answered.state, Event::AttemptDue, client, replies.skip(1));
        assert(r1 == Run::after(answered, r2));
        lemma_refused_then_established(answered.state, client, replies.skip(1), (n - 1) as nat);
        assert(r2.actions.len() > 0);
    } else {
        assert(r1 == Run::after(answered, Run::stopped(answered.state)));
    }
}

/// From a call that is ready, refusals up to the final attempt end in
/// giving up with the cause of the last refusal.
proof fn lemma_refused_to_the_end(
    s: State,
    client: Result<redis::Client, redis::RedisError>,
    replies: Seq<Reply>,
    n: nat,
)
    requires
        s.wf(),
        s.phase == Phase::Ready,
        client is Ok,
        s.attempt + n == MAX_RETRIES,
        1 <= n <= replies.len(),
        forall|i: int| 0 <= i < n ==> replies[i] is Refused,
    ensures
        ({
            let r = run(s, Event::AttemptDue, client, replies);
            &&& r.end.phase == Phase::Failed
            &&& r.end.last_error == Some(
                ConnectError::ConnectionNegotiation(refusal(replies[n - 1])),
            )
            &&& r.actions.last() is GiveUp
        }),
    decreases n,
{
    let begun = next_with(s, Event::AttemptDue, client)->Ok_0;
    let answered = next_with(begun.state, Event::Replied(replies.first()), client)->Ok_0;
    let r = run(s, Event::AttemptDue, client, replies);
    let r1 = run(begun.state, Event::Replied(replies.first()), client, replies.skip(1));
    assert(replies[0] is Refused);
    assert(r == Run::after(begun, r1));
    if n > 1 {
        let r2 = run(answered.state, Event::AttemptDue, client, replies.skip(1));
        assert(r1 == Run::after(answered, r2));
        lemma_refused_to_the_end(answered.state, client, replies.skip(1), (n - 1) as nat);
        assert(r2.actions.len() > 0);
    } else {
        assert(r1 == Run::after(answered, Run::stopped(answered.state)));
    }
}

/// From a call that is ready, an address that no client handle can be built
/// from ends in giving up with that failure.
proof fn lemma_never_opened(
    s: State,
    client: Result<redis::Client, redis::RedisError>,
    replies: Seq<Reply>,
)
    requires
        s.wf(),
        s.phase == Phase::Ready,
        client is Err,
    ensures
        ({
            let r = run(s, Event::AttemptDue, client, replies);
            &&& r.end.phase == Phase::Failed
            &&& r.end.last_error == Some(ConnectError::ClientConstruction(client->Err_0))
            &&& r.actions.last() is GiveUp
        }),
    decreases MAX_RETRIES - s.attempt,
{
    let begun = next_with(s, Event::AttemptDue, client)->Ok_0;
    let r = run(s, Event::AttemptDue, client, replies);
    if s.attempt + 1 < MAX_RETRIES {
        let rest = run(begun.state, Event::AttemptDue, client, replies);
        assert(r == Run::after(begun, rest));
        lemma_never_opened(begun.state, client, replies);
        assert(rest.actions.len() > 0);
    } else {
        assert(r == Run::after(begun, Run::stopped(begun.state)));
    }
}

/// A store that can be reached is connected to on the first attempt: one
/// attempt is made, nothing fails, and no pause is incurred.
pub proof fn lemma_reachable_store_connects_at_once(
    address: Seq<char>,
    port: Seq<char>,
    client: Result<redis::Client, redis::RedisError>,
    replies: Seq<Reply>,
)
    requires
        client is Ok,
        replies.len() > 0,
        replies[0] is Established,
    ensures
        ({
            let r = call(address, port, client, replies);
            &&& r.outcome() == Some(Ok::<(), ConnectError>(()))
            &&& r.end.attempt == 1
            &&& r.attempts() == 1
            &&& r.failures() == 0
            &&& r.delays() == 0
            &&& r.connections() == 1
        }),
{
    lemma_connects_after_failures(address, port, client, replies, 0);
}

/// A store that refuses the first `n` attempts, fewer than there may be, and
/// then accepts, is connected to on the attempt after them: exactly `n`
/// failures are reported and exactly `n` pauses incurred before the
/// connection stands.
pub proof fn lemma_connects_after_failures(
    address: Seq<char>,
    port: Seq<char>,
    client: Result<redis::Client, redis::RedisError>,
    replies: Seq<Reply>,
    n: nat,
)
    requires
        client is Ok,
        n < MAX_RETRIES,
        n < replies.len(),
        forall|i: int| 0 <= i < n ==> replies[i] is Refused,
        replies[n as int] is Established,
    ensures
        ({
            let r = call(address, port, client, replies);
            &&& r.outcome() == Some(Ok::<(), ConnectError>(()))
            &&& r.end.attempt == n + 1
            &&& r.attempts() == n + 1
            &&& r.failures() == n
            &&& r.delays() == n
            &&& r.connections() == n + 1
            &&& r.actions.last() is Finish
        }),
{
    let s = State::initial(address, port);
    lemma_refused_then_established(s, client, replies, n);
    lemma_run_balances(s, Event::AttemptDue, client, replies);
}

/// A store that refuses every attempt makes the call give up after the
/// final one: as many attempts and failures as there may be attempts, one
/// pause fewer, since none follows the final attempt, and the error that
/// is returned wraps the cause of the final refusal.
pub proof fn lemma_gives_up_after_final_attempt(
    address: Seq<char>,
    port: Seq<char>,
    client: Result<redis::Client, redis::RedisError>,
    replies: Seq<Reply>,
)
    requires
        client is Ok,
        replies.len() >= MAX_RETRIES,
        forall|i: int| 0 <= i < MAX_RETRIES ==> replies[i] is Refused,
    ensures
        ({
            let r = call(address, port, client, replies);
            &&& r.outcome() == Some(
                Err::<(), ConnectError>(
                    ConnectError::ConnectionNegotiation(refusal(replies[MAX_RETRIES - 1])),
                ),
            )
            &&& r.end.attempt == MAX_RETRIES
            &&& r.attempts() == MAX_RETRIES
            &&& r.failures() == MAX_RETRIES
            &&& r.delays() == MAX_RETRIES - 1
            &&& r.connections() == MAX_RETRIES
            &&& r.actions.last() is GiveUp
        }),
{
    let s = State::initial(address, port);
    lemma_refused_to_the_end(s, client, replies, MAX_RETRIES as nat);
    lemma_run_balances(s, Event::AttemptDue, client, replies);
}

/// An address that no client handle can be built from makes the call give
/// up after the final attempt as well, with that failure as its error and
/// without the caller ever being sent to the store.
pub proof fn lemma_gives_up_without_client(
    address: Seq<char>,
    port: Seq<char>,
    client: Result<redis::Client, redis::RedisError>,
    replies: Seq<Reply>,
)
    requires
        client is Err,
    ensures
        ({
            let r = call(address, port, client, replies);
            &&& r.outcome() == Some(
                Err::<(), ConnectError>(ConnectError::ClientConstruction(client->Err_0)),
            )
            &&& r.end.attempt == MAX_RETRIES
            &&& r.attempts() == MAX_RETRIES
            &&& r.failures() == MAX_RETRIES
            &&& r.delays() == MAX_RETRIES - 1
            &&& r.connections() == 0
            &&& r.actions.last() is GiveUp
        }),
{
    let s = State::initial(address, port);
    lemma_never_opened(s, client, replies);
    lemma_run_balances(s, Event::AttemptDue, client, replies);
}

} // verus!
