//! How a system reaches the service.

use vstd::prelude::*;
use crate::text::joined;
use crate::text::same_text;

verus! {

/// The network link a system reports over.
#[derive(Clone, Copy, Debug, PartialEq, Eq, Structural)]
pub enum ConnectionType {
    Ethernet,
    WiFi,
}

/// The connection type named by a wire token, if any.
pub open spec fn connection_type_of_token(s: Seq<char>) -> Option<ConnectionType> {
    if s == "ethernet"@ {
        Some(ConnectionType::Ethernet)
    } else if s == "wifi"@ {
        Some(ConnectionType::WiFi)
    } else {
        None
    }
}

/// A token that names no connection type; it keeps the token as received.
#[derive(Clone, Debug)]
pub struct InvalidConnectionType(pub String);

impl InvalidConnectionType {
    /// The human-readable message, `Invalid connection type "<token>"`.
    pub fn message(&self) -> (r: String)
        ensures
            r@ == "Invalid connection type \""@ + self.0@ + "\""@,
    {
        let mut s = joined("Invalid connection type \"", self.0.as_str());
        s.append("\"");
        s
    }
}

impl ConnectionType {
    /// Reads a wire token: `ethernet` or `wifi`; anything else is an error
    /// that carries it.
    pub fn parse(s: &str) -> (r: Result<ConnectionType, InvalidConnectionType>)
        ensures
            match connection_type_of_token(s@) {
                Some(c) => r == Ok::<ConnectionType, InvalidConnectionType>(c),
                None => r is Err && r->Err_0.0@ == s@,
            },
    {
        if same_text(s, "ethernet") {
            Ok(ConnectionType::Ethernet)
        } else if same_text(s, "wifi") {
            Ok(ConnectionType::WiFi)
        } else {
            Err(InvalidConnectionType(String::from_str(s)))
        }
    }
}

impl std::str::FromStr for ConnectionType {
    type Err = InvalidConnectionType;

    fn from_str(s: &str) -> (r: Result<ConnectionType, InvalidConnectionType>)
        ensures
            match connection_type_of_token(s@) {
                Some(c) => r == Ok::<ConnectionType, InvalidConnectionType>(c),
                None => r is Err && r->Err_0.0@ == s@,
            },
    {
        ConnectionType::parse(s)
    }
}

} // verus!
