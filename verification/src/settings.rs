//! The two settings a connection needs, and the address built from them.

use vstd::prelude::*;
use vstd::string::*;

verus! {

/// Which of the two required settings is absent.
#[derive(Clone, Copy, Debug, PartialEq, Eq, Structural)]
pub enum ConfigError {
    /// The store's address is not set.
    MissingAddress,
    /// The store's port is not set.
    MissingPort,
}

/// The name under which a setting is looked up.
pub open spec fn key_of(e: ConfigError) -> Seq<char> {
    match e {
        ConfigError::MissingAddress => "REDIS_ADDRESS"@,
        ConfigError::MissingPort => "REDIS_PORT"@,
    }
}

impl ConfigError {
    /// The name of the setting that is absent.
    pub fn key(&self) -> (k: &'static str)
        ensures
            k@ == key_of(*self),
    {
        match self {
            ConfigError::MissingAddress => "REDIS_ADDRESS",
            ConfigError::MissingPort => "REDIS_PORT",
        }
    }

    /// What to tell whoever started the process: the setting's name, and
    /// that it must be set.
    pub fn message(&self) -> (m: String)
        ensures
            m@ == key_of(*self) + " must be set"@,
    {
        let mut m = String::from_str(self.key());
        m.append(" must be set");
        m
    }
}

/// The address and the port of the store, both present.
#[derive(Debug)]
pub struct Settings {
    address: String,
    port: String,
}

/// The address of the store as a client takes it: scheme, host, port and the
/// root path.
pub open spec fn connection_uri(address: Seq<char>, port: Seq<char>) -> Seq<char> {
    "redis://"@ + address + ":"@ + port + "/"@
}

/// What looking up both settings yields: the address is looked at first, so
/// where both are absent it is the address that is reported.
pub open spec fn resolved(address: Option<String>, port: Option<String>) -> Result<
    (Seq<char>, Seq<char>),
    ConfigError,
> {
    match (address, port) {
        (None, _) => Err(ConfigError::MissingAddress),
        (Some(_), None) => Err(ConfigError::MissingPort),
        (Some(a), Some(p)) => Ok((a@, p@)),
    }
}

impl Settings {
    /// The address as it was given.
    pub closed spec fn address_view(&self) -> Seq<char> {
        self.address@
    }

    /// The port as it was given.
    pub closed spec fn port_view(&self) -> Seq<char> {
        self.port@
    }

    /// The address of the store built from these settings.
    pub open spec fn uri(&self) -> Seq<char> {
        connection_uri(self.address_view(), self.port_view())
    }

    /// Takes the two settings as a lookup returned them. Both must be there:
    /// the first one that is absent is reported, the address before the port.
    pub fn resolve(address: Option<String>, port: Option<String>) -> (r: Result<
        Settings,
        ConfigError,
    >)
        ensures
            match r {
                Ok(s) => resolved(address, port) == Ok::<(Seq<char>, Seq<char>), ConfigError>(
                    (s.address_view(), s.port_view()),
                ),
                Err(e) => resolved(address, port) == Err::<(Seq<char>, Seq<char>), ConfigError>(e),
            },
    {
        match address {
            None => Err(ConfigError::MissingAddress),
            Some(address) => match port {
                None => Err(ConfigError::MissingPort),
                Some(port) => Ok(Settings { address, port }),
            },
        }
    }

    /// The store's address.
    pub fn address(&self) -> (a: &str)
        ensures
            a@ == self.address_view(),
    {
        self.address.as_str()
    }

    /// The store's port.
    pub fn port(&self) -> (p: &str)
        ensures
            p@ == self.port_view(),
    {
        self.port.as_str()
    }

    /// Builds the address of the store: `redis://`, the host, a colon, the
    /// port and a closing slash.
    pub fn connection_string(&self) -> (s: String)
        ensures
            s@ == self.uri(),
    {
        let mut s = String::from_str("redis://");
        s.append(self.address.as_str());
        s.append(":");
        s.append(self.port.as_str());
        s.append("/");
        s
    }
}

} // verus!
