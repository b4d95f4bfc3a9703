//! Why a call gave up, and how that reads.

use crate::policy::MAX_RETRIES;
use vstd::prelude::*;
use vstd::string::*;

verus! {

/// The error a call ends with once every attempt has failed.
#[derive(Debug)]
pub enum ConnectError {
    /// No client handle could be built from the address.
    ClientConstruction(redis::RedisError),
    /// A handle was built, but no connection could be negotiated.
    ConnectionNegotiation(redis::RedisError),
    /// The attempts ran out and none of them left an error behind.
    AttemptsExhausted,
}

/// The character of one decimal digit.
pub open spec fn digit(d: nat) -> char {
    if d == 0 {
        '0'
    } else if d == 1 {
        '1'
    } else if d == 2 {
        '2'
    } else if d == 3 {
        '3'
    } else if d == 4 {
        '4'
    } else if d == 5 {
        '5'
    } else if d == 6 {
        '6'
    } else if d == 7 {
        '7'
    } else if d == 8 {
        '8'
    } else {
        '9'
    }
}

/// A number written in base ten, without leading zeros.
pub open spec fn decimal(n: nat) -> Seq<char>
    decreases n,
{
    if n < 10 {
        seq![digit(n)]
    } else {
        decimal(n / 10).push(digit(n % 10))
    }
}

/// What an error says of itself: the stage that failed, or that the
/// attempts ran out and how many there were.
pub open spec fn message_of(e: ConnectError) -> Seq<char> {
    match e {
        ConnectError::ClientConstruction(_) => "Failed to create Redis client"@,
        ConnectError::ConnectionNegotiation(_) => "Failed to get multiplexed connection"@,
        ConnectError::AttemptsExhausted => "Could not connect to Redis after "@ + decimal(
            MAX_RETRIES as nat,
        ) + " attempts."@,
    }
}

/// The failure underneath an error, where it has one.
pub open spec fn cause_of(e: ConnectError) -> Option<redis::RedisError> {
    match e {
        ConnectError::ClientConstruction(c) => Some(c),
        ConnectError::ConnectionNegotiation(c) => Some(c),
        ConnectError::AttemptsExhausted => None,
    }
}

fn digit_str(d: u32) -> (s: &'static str)
    requires
        d < 10,
    ensures
        s@ == seq![digit(d as nat)],
{
    proof {
        reveal_strlit("0");
        reveal_strlit("1");
        reveal_strlit("2");
        reveal_strlit("3");
        reveal_strlit("4");
        reveal_strlit("5");
        reveal_strlit("6");
        reveal_strlit("7");
        reveal_strlit("8");
        reveal_strlit("9");
    }
    let s = if d == 0 {
        "0"
    } else if d == 1 {
        "1"
    } else if d == 2 {
        "2"
    } else if d == 3 {
        "3"
    } else if d == 4 {
        "4"
    } else if d == 5 {
        "5"
    } else if d == 6 {
        "6"
    } else if d == 7 {
        "7"
    } else if d == 8 {
        "8"
    } else {
        "9"
    };
    assert(s@ =~= seq![digit(d as nat)]);
    s
}

/// Writes a number in base ten.
pub fn to_decimal(n: u32) -> (s: String)
    ensures
        s@ == decimal(n as nat),
    decreases n,
{
    if n < 10 {
        String::from_str(digit_str(n))
    } else {
        let mut s = to_decimal(n / 10);
        s.append(digit_str(n % 10));
        assert(s@ =~= decimal(n as nat));
        s
    }
}

impl ConnectError {
    /// The text that describes this error.
    pub fn message(&self) -> (s: String)
        ensures
            s@ == message_of(*self),
    {
        match self {
            ConnectError::ClientConstruction(_) => String::from_str("Failed to create Redis client"),
            ConnectError::ConnectionNegotiation(_) => String::from_str(
                "Failed to get multiplexed connection",
            ),
            ConnectError::AttemptsExhausted => {
                let mut s = String::from_str("Could not connect to Redis after ");
                let count = to_decimal(MAX_RETRIES);
                s.append(count.as_str());
                s.append(" attempts.");
                s
            },
        }
    }

    /// The failure underneath this error, where it has one.
    pub fn cause(&self) -> (c: Option<&redis::RedisError>)
        ensures
            match c {
                Some(c) => cause_of(*self) == Some(*c),
                None => cause_of(*self) is None,
            },
    {
        match self {
            ConnectError::ClientConstruction(c) => Some(c),
            ConnectError::ConnectionNegotiation(c) => Some(c),
            ConnectError::AttemptsExhausted => None,
        }
    }

    /// Gives up the error for the failure underneath it, where it has one.
    pub fn into_cause(self) -> (c: Option<redis::RedisError>)
        ensures
            c == cause_of(self),
    {
        match self {
            ConnectError::ClientConstruction(c) => Some(c),
            ConnectError::ConnectionNegotiation(c) => Some(c),
            ConnectError::AttemptsExhausted => None,
        }
    }
}

} // verus!
