//! The plain-data side of connection setup: the dotted address string and
//! the state behind the configuration form. Listening, connecting and the
//! form's widgets themselves live outside the crate.

use vstd::prelude::*;
use vstd::string::StringExecFns;

use crate::sync::Mode;

verus! {

/// Joins the four address fields with dots into one address string.
pub fn make_ip(ip1: String, ip2: String, ip3: String, ip4: String) -> (r: String)
    ensures
        r@ == ip1@ + "."@ + ip2@ + "."@ + ip3@ + "."@ + ip4@,
{
    let mut r = ip1;
    r.append(".");
    r.append(ip2.as_str());
    r.append(".");
    r.append(ip3.as_str());
    r.append(".");
    r.append(ip4.as_str());
    r
}

/// How far the connection attempt behind the form has come.
#[derive(Clone, Copy, PartialEq, Eq, Structural, Debug)]
pub enum ConnectionStatus {
    NoAction,
    Connecting,
    Connected,
}

impl ConnectionStatus {
    /// The status line the form shows.
    pub fn label(&self) -> (r: &'static str)
        ensures
            *self is NoAction ==> r@ == ""@,
            *self is Connecting ==> r@ == "waiting..."@,
            *self is Connected ==> r@ == "connected"@,
    {
        match self {
            ConnectionStatus::NoAction => "",
            ConnectionStatus::Connecting => "waiting...",
            ConnectionStatus::Connected => "connected",
        }
    }
}

/// What the configuration form edits before a match starts: the chosen
/// role, the peer address entered as four fields, and the port.
pub struct InitState {
    pub mode: Mode,
    pub connection_status: ConnectionStatus,
    pub ip1: String,
    pub ip2: String,
    pub ip3: String,
    pub ip4: String,
    pub port_nbr: String,
}

impl InitState {
    pub fn new() -> (r: Self)
        ensures
            r.mode == Mode::Server,
            r.connection_status == ConnectionStatus::NoAction,
            r.ip1@ == "0"@,
            r.ip2@ == "0"@,
            r.ip3@ == "0"@,
            r.ip4@ == "0"@,
            r.port_nbr@ == "9999"@,
    {
        InitState {
            mode: Mode::Server,
            connection_status: ConnectionStatus::NoAction,
            ip1: "0".to_owned(),
            ip2: "0".to_owned(),
            ip3: "0".to_owned(),
            ip4: "0".to_owned(),
            port_nbr: "9999".to_owned(),
        }
    }
}

} // verus!
