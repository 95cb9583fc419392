//! Server side of the SOCKS5 protocol (RFC 1928) with the username/password
//! sub-negotiation (RFC 1929): wire values, the per-connection protocol
//! state machine, and credential lookup in a CSV table.
pub mod socks5;
pub mod frame;
pub mod credentials;
pub mod session;
pub mod connection;

use vstd::prelude::*;

verus! {

} // verus!
