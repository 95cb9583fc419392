//! Wire values of SOCKS5 frames: protocol versions, authentication methods,
//! commands, address types and reply codes.
use vstd::prelude::*;

verus! {

/// Version octet of every SOCKS5 frame.
pub const VERSION: u8 = 0x05;

/// Version octet of the username/password sub-negotiation frames.
pub const AUTH_VERSION: u8 = 0x01;

/// Method octet that the server sends when no offered method is acceptable.
pub const NO_ACCEPTABLE: u8 = 0xFF;

/// Authentication methods that the server can select.
#[derive(Debug, PartialEq, Eq, Structural, Clone, Copy)]
pub enum AuthMethods {
    NoAuth,
    UserPass,
}

impl AuthMethods {
    /// The method's octet on the wire.
    pub open spec fn wire(self) -> u8 {
        match self {
            AuthMethods::NoAuth => 0x00,
            AuthMethods::UserPass => 0x02,
        }
    }

    /// Reads a method octet of a greeting; unknown octets give `None`.
    pub fn from(method: &u8) -> (r: Option<Self>)
        ensures
            *method == 0x00 ==> r == Some(AuthMethods::NoAuth),
            *method == 0x02 ==> r == Some(AuthMethods::UserPass),
            *method != 0x00 && *method != 0x02 ==> r is None,
    {
        match *method {
            0x00 => Some(AuthMethods::NoAuth),
            0x02 => Some(AuthMethods::UserPass),
            _ => None,
        }
    }

    pub fn code(&self) -> (r: u8)
        ensures
            r == self.wire(),
    {
        match self {
            AuthMethods::NoAuth => 0x00,
            AuthMethods::UserPass => 0x02,
        }
    }
}

/// Status of the username/password sub-negotiation reply.
#[derive(Debug, PartialEq, Eq, Structural, Clone, Copy)]
pub enum AuthResponseCode {
    Success,
    Failure,
}

impl AuthResponseCode {
    pub open spec fn wire(self) -> u8 {
        match self {
            AuthResponseCode::Success => 0x00,
            AuthResponseCode::Failure => 0x01,
        }
    }

    pub fn code(&self) -> (r: u8)
        ensures
            r == self.wire(),
    {
        match self {
            AuthResponseCode::Success => 0x00,
            AuthResponseCode::Failure => 0x01,
        }
    }
}

/// Request commands that the server carries out.
#[derive(Debug, PartialEq, Eq, Structural, Clone, Copy)]
pub enum Cmd {
    Connect,
}

impl Cmd {
    /// Reads the CMD octet of a request; only CONNECT is supported.
    pub fn from(cmd: &u8) -> (r: Option<Self>)
        ensures
            *cmd == 0x01 ==> r == Some(Cmd::Connect),
            *cmd != 0x01 ==> r is None,
    {
        match *cmd {
            0x01 => Some(Cmd::Connect),
            _ => None,
        }
    }
}

/// Address types of a request.
#[derive(Debug, PartialEq, Eq, Structural, Clone, Copy)]
pub enum Atyp {
    IpV4,
    Domain,
    IpV6,
}

impl Atyp {
    pub open spec fn wire(self) -> u8 {
        match self {
            Atyp::IpV4 => 0x01,
            Atyp::Domain => 0x03,
            Atyp::IpV6 => 0x04,
        }
    }

    /// Reads the ATYP octet of a request; unknown octets give `None`.
    pub fn from(atyp: &u8) -> (r: Option<Self>)
        ensures
            *atyp == 0x01 ==> r == Some(Atyp::IpV4),
            *atyp == 0x03 ==> r == Some(Atyp::Domain),
            *atyp == 0x04 ==> r == Some(Atyp::IpV6),
            *atyp != 0x01 && *atyp != 0x03 && *atyp != 0x04 ==> r is None,
    {
        match *atyp {
            0x01 => Some(Atyp::IpV4),
            0x03 => Some(Atyp::Domain),
            0x04 => Some(Atyp::IpV6),
            _ => None,
        }
    }

    pub fn code(&self) -> (r: u8)
        ensures
            r == self.wire(),
    {
        match self {
            Atyp::IpV4 => 0x01,
            Atyp::Domain => 0x03,
            Atyp::IpV6 => 0x04,
        }
    }
}

/// Reply codes of the server's answer to a request.
#[derive(Debug, PartialEq, Eq, Structural, Clone, Copy)]
pub enum Reply {
    Success,
    ServerFailure,
    ConnectionFailure,
    NetworkUnreachable,
    HostUnreachable,
    ConnectionRefused,
    TTLExpired,
    InvalidCommand,
    InvalidAddress,
    Other,
}

impl Reply {
    pub open spec fn wire(self) -> u8 {
        match self {
            Reply::Success => 0x00,
            Reply::ServerFailure => 0x01,
            Reply::ConnectionFailure => 0x02,
            Reply::NetworkUnreachable => 0x03,
            Reply::HostUnreachable => 0x04,
            Reply::ConnectionRefused => 0x05,
            Reply::TTLExpired => 0x06,
            Reply::InvalidCommand => 0x07,
            Reply::InvalidAddress => 0x08,
            Reply::Other => 0x09,
        }
    }

    pub fn code(&self) -> (r: u8)
        ensures
            r == self.wire(),
            r <= 0x09,
    {
        match self {
            Reply::Success => 0x00,
            Reply::ServerFailure => 0x01,
            Reply::ConnectionFailure => 0x02,
            Reply::NetworkUnreachable => 0x03,
            Reply::HostUnreachable => 0x04,
            Reply::ConnectionRefused => 0x05,
            Reply::TTLExpired => 0x06,
            Reply::InvalidCommand => 0x07,
            Reply::InvalidAddress => 0x08,
            Reply::Other => 0x09,
        }
    }
}

} // verus!
