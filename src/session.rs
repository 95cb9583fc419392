//! The per-connection SOCKS5 state machine.
//!
//! A `Session` consumes the client's bytes in exactly the chunks it asks for,
//! the verdict of the credential store, and the outcome of dialing the
//! destination. Each input yields a `Step`: the bytes to send to the client
//! (nothing, or one whole frame) and what to do next. The caller performs
//! the I/O; every decision of the protocol is taken here.
use vstd::prelude::*;
use vstd::slice::{slice_subrange, slice_to_vec};

use crate::socks5::{AuthMethods, AuthResponseCode, Reply, Atyp, Cmd, VERSION, AUTH_VERSION};
use crate::frame::{
    be16, offers, method_selection, auth_status, reply_bytes, to_u16, parse_methods,
    define_auth_method, method_frame, no_acceptable_frame, auth_reply_frame, reply_frame,
};
use crate::credentials::{utf8_lossy_of, decode_lossy};

verus! {

/// Where a connection stands, and what input it waits for.
#[derive(Debug, PartialEq, Eq, Structural, Clone, Copy)]
pub enum Phase {
    /// `VER` of the greeting.
    Greeting,
    /// `NMETHODS` of the greeting.
    MethodCount,
    /// The `count` method octets of the greeting.
    Methods { count: u8 },
    /// `VER | ULEN` of the username/password frame.
    AuthHeader,
    /// `UNAME` (`ulen` octets) and `PLEN`.
    AuthName { ulen: u8 },
    /// `PASSWD` (`plen` octets).
    AuthPass { plen: u8 },
    /// The verdict of the credential store.
    AuthCheck,
    /// `VER | CMD | RSV | ATYP` of the request.
    RequestHeader,
    /// The length octet of a domain name; `cmd` is the request's command.
    DomainLength { cmd: u8 },
    /// `DST.ADDR` (`len` octets) and `DST.PORT`.
    Destination { cmd: u8, atyp: Atyp, len: u8 },
    /// The outcome of dialing the destination; `port` is the one requested.
    Connecting { port: u16 },
    /// Bytes are relayed; the protocol is over.
    Relaying,
    /// The connection is to be closed.
    Closed,
}

/// Why a connection is closed.
#[derive(Debug, PartialEq, Eq, Structural, Clone, Copy)]
pub enum Fault {
    /// A SOCKS5 frame carried this version octet.
    UnsupportedVersion(u8),
    /// The greeting offered no method.
    NoAcceptableMethod,
    /// The username/password frame carried this version octet.
    UnsupportedAuthVersion(u8),
    /// The credentials are not in the store.
    UnknownClient,
    /// The request carried this command.
    UnsupportedCommand(u8),
    /// The request carried this address type.
    UnsupportedAddressType(u8),
    /// The request named a domain of length zero.
    EmptyDomain,
    /// The destination could not be reached.
    DialFailed(DialError),
    /// An input came that the session was not waiting for.
    OutOfTurn,
}

/// How dialing a destination failed.
#[derive(Debug, PartialEq, Eq, Structural, Clone, Copy)]
pub enum DialError {
    Refused,
    Reset,
    TimedOut,
    Other,
}

/// The outcome of dialing a destination.
#[derive(Debug, PartialEq, Eq, Structural, Clone, Copy)]
pub enum DialOutcome {
    /// Connected; `local_port` is the local port of the upstream socket.
    Connected { local_port: u16 },
    Failed(DialError),
}

/// The destination of a CONNECT request.
#[derive(Debug, PartialEq, Eq)]
pub struct Target {
    pub atyp: Atyp,
    /// Four octets for IPv4, sixteen for IPv6, the name's octets for a domain.
    pub addr: Vec<u8>,
    pub port: u16,
}

/// What the caller does after a step.
#[derive(Debug, PartialEq, Eq)]
pub enum Next {
    /// Read exactly this many bytes from the client and hand them to `on_bytes`.
    Read(usize),
    /// Look the credentials up and hand the verdict to `on_credentials`.
    CheckCredentials { name: Vec<u8>, pass: Vec<u8> },
    /// Dial the target and hand the outcome to `on_dial`.
    Dial(Target),
    /// Relay bytes in both directions until both sides close.
    Relay,
    /// Close the connection.
    Close(Fault),
}

/// Bytes to send to the client, then what to do.
#[derive(Debug, PartialEq, Eq)]
pub struct Step {
    pub send: Vec<u8>,
    pub next: Next,
}

/// The reply code that reports a failed dial.
pub open spec fn dial_reply(e: DialError) -> Reply {
    match e {
        DialError::Refused => Reply::ConnectionRefused,
        DialError::Reset => Reply::ConnectionFailure,
        DialError::TimedOut => Reply::HostUnreachable,
        DialError::Other => Reply::Other,
    }
}

/// The reply code that reports a dial failure.
pub fn reply_for_dial_error(e: DialError) -> (r: Reply)
    ensures
        r == dial_reply(e),
{
    match e {
        DialError::Refused => Reply::ConnectionRefused,
        DialError::Reset => Reply::ConnectionFailure,
        DialError::TimedOut => Reply::HostUnreachable,
        DialError::Other => Reply::Other,
    }
}

/// Every frame that the server sends to a client.
pub open spec fn server_frame(b: Seq<u8>) -> bool {
    ||| b == method_selection(0x00)
    ||| b == method_selection(0x02)
    ||| b == method_selection(0xFF)
    ||| b == auth_status(AuthResponseCode::Success)
    ||| b == auth_status(AuthResponseCode::Failure)
    ||| exists|r: Reply, p: u16| b == #[trigger] reply_bytes(r, p)
}

/// A step sends nothing or exactly one whole frame.
pub open spec fn frames_only(send: Seq<u8>) -> bool {
    send.len() == 0 || server_frame(send)
}

/// A reply to a request is followed by relaying when it reports success and
/// by closing otherwise; relaying comes only after a success reply.
pub open spec fn reply_then(s: Step) -> bool {
    &&& (s.send@.len() == 10 && s.send@[1] == 0x00) ==> s.next is Relay
    &&& (s.send@.len() == 10 && s.send@[1] != 0x00) ==> s.next is Close
    &&& s.next is Relay ==> s.send@.len() == 10 && s.send@[1] == 0x00
}

/// The number of bytes that a phase reads next; zero where it reads none.
pub open spec fn wanted(p: Phase) -> int {
    match p {
        Phase::Greeting => 1,
        Phase::MethodCount => 1,
        Phase::Methods { count } => count as int,
        Phase::AuthHeader => 2,
        Phase::AuthName { ulen } => ulen + 1,
        Phase::AuthPass { plen } => plen as int,
        Phase::RequestHeader => 4,
        Phase::DomainLength { .. } => 1,
        Phase::Destination { len, .. } => len + 2,
        _ => 0,
    }
}

/// The phases that wait for bytes from the client.
pub open spec fn reading(p: Phase) -> bool {
    match p {
        Phase::AuthCheck | Phase::Connecting { .. } | Phase::Relaying | Phase::Closed => false,
        _ => true,
    }
}

/// The method that the server selects for a greeting's method octets.
pub open spec fn chosen_for(octets: Seq<u8>) -> AuthMethods {
    if offers(octets, AuthMethods::UserPass) {
        AuthMethods::UserPass
    } else {
        AuthMethods::NoAuth
    }
}

/// The step sends nothing and closes for `f`.
pub open spec fn closes_silently(s: Step, after: Session, f: Fault) -> bool {
    &&& s.send@.len() == 0
    &&& s.next == Next::Close(f)
    &&& after.phase == Phase::Closed
}

/// The step sends `frame` and closes for `f`.
pub open spec fn closes_with(s: Step, after: Session, frame: Seq<u8>, f: Fault) -> bool {
    &&& s.send@ == frame
    &&& s.next == Next::Close(f)
    &&& after.phase == Phase::Closed
}

/// The step sends nothing, reads `n` bytes next, in phase `p`.
pub open spec fn reads(s: Step, after: Session, n: int, p: Phase) -> bool {
    &&& s.send@.len() == 0
    &&& s.next == Next::Read(n as usize)
    &&& after.phase == p
}

/// The outcome of the greeting's `VER`: any version but 5 closes at once.
pub open spec fn greeting_step(d: Seq<u8>, s: Step, after: Session) -> bool {
    if d[0] != 0x05 {
        closes_silently(s, after, Fault::UnsupportedVersion(d[0]))
    } else {
        reads(s, after, 1, Phase::MethodCount)
    }
}

/// The outcome of the greeting's `NMETHODS`: no method offered, no method
/// acceptable.
pub open spec fn method_count_step(d: Seq<u8>, s: Step, after: Session) -> bool {
    if d[0] == 0 {
        closes_with(s, after, method_selection(0xFF), Fault::NoAcceptableMethod)
    } else {
        reads(s, after, d[0] as int, Phase::Methods { count: d[0] })
    }
}

/// The outcome of the greeting's method octets: the method chosen is sent and
/// its sub-negotiation, or the request, is read next.
pub open spec fn methods_step(d: Seq<u8>, s: Step, after: Session) -> bool {
    let m = chosen_for(d);
    &&& s.send@ == method_selection(m.wire())
    &&& after.method == Some(m)
    &&& m == AuthMethods::UserPass ==> s.next == Next::Read(2) && after.phase == Phase::AuthHeader
    &&& m == AuthMethods::NoAuth ==> s.next == Next::Read(4) && after.phase == Phase::RequestHeader
}

/// The outcome of `VER | ULEN` of the username/password frame.
pub open spec fn auth_header_step(d: Seq<u8>, s: Step, after: Session) -> bool {
    if d[0] != 0x01 {
        closes_silently(s, after, Fault::UnsupportedAuthVersion(d[0]))
    } else {
        reads(s, after, d[1] + 1, Phase::AuthName { ulen: d[1] })
    }
}

/// The outcome of `UNAME | PLEN`: the name is kept and the password read.
pub open spec fn auth_name_step(ulen: u8, d: Seq<u8>, s: Step, after: Session) -> bool {
    &&& after.user@ == d.subrange(0, ulen as int)
    &&& reads(s, after, d[ulen as int] as int, Phase::AuthPass { plen: d[ulen as int] })
}

/// The outcome of `PASSWD`: the credentials go to the store.
pub open spec fn auth_pass_step(user: Seq<u8>, d: Seq<u8>, s: Step, after: Session) -> bool {
    &&& s.send@.len() == 0
    &&& s.next matches Next::CheckCredentials { name, pass } && name@ == user && pass@ == d
    &&& after.phase == Phase::AuthCheck
}

/// The outcome of `VER | CMD | RSV | ATYP`; RSV is ignored.
pub open spec fn request_header_step(d: Seq<u8>, s: Step, after: Session) -> bool {
    let cmd = d[1];
    let atyp = d[3];
    if d[0] != 0x05 {
        closes_silently(s, after, Fault::UnsupportedVersion(d[0]))
    } else if atyp == 0x01 {
        reads(s, after, 6, Phase::Destination { cmd, atyp: Atyp::IpV4, len: 4 })
    } else if atyp == 0x04 {
        reads(s, after, 18, Phase::Destination { cmd, atyp: Atyp::IpV6, len: 16 })
    } else if atyp == 0x03 {
        reads(s, after, 1, Phase::DomainLength { cmd })
    } else if cmd == 0x01 {
        closes_with(s, after, reply_bytes(Reply::InvalidAddress, 0), Fault::UnsupportedAddressType(atyp))
    } else {
        closes_with(s, after, reply_bytes(Reply::InvalidCommand, 0), Fault::UnsupportedCommand(cmd))
    }
}

/// The outcome of a domain's length octet.
pub open spec fn domain_length_step(cmd: u8, d: Seq<u8>, s: Step, after: Session) -> bool {
    let n = d[0];
    if n == 0 && cmd == 0x01 {
        closes_with(s, after, reply_bytes(Reply::InvalidAddress, 0), Fault::EmptyDomain)
    } else if n == 0 {
        closes_with(s, after, reply_bytes(Reply::InvalidCommand, 0), Fault::UnsupportedCommand(cmd))
    } else {
        reads(s, after, n + 2, Phase::Destination { cmd, atyp: Atyp::Domain, len: n })
    }
}

/// The outcome of `DST.ADDR | DST.PORT`: a CONNECT dials the destination,
/// another command is refused with the requested port.
pub open spec fn destination_step(cmd: u8, atyp: Atyp, len: u8, d: Seq<u8>, s: Step, after: Session) -> bool {
    let port = be16(d[len as int], d[len + 1]);
    if cmd != 0x01 {
        closes_with(s, after, reply_bytes(Reply::InvalidCommand, port), Fault::UnsupportedCommand(cmd))
    } else {
        &&& s.send@.len() == 0
        &&& s.next matches Next::Dial(t) && t.atyp == atyp && t.addr@ == d.subrange(0, len as int)
            && t.port == port
        &&& after.phase == Phase::Connecting { port }
    }
}

/// The outcome of `on_bytes` in each phase that reads.
pub open spec fn bytes_step(before: Session, d: Seq<u8>, s: Step, after: Session) -> bool {
    match before.phase {
        Phase::Greeting => greeting_step(d, s, after),
        Phase::MethodCount => method_count_step(d, s, after),
        Phase::Methods { .. } => methods_step(d, s, after),
        Phase::AuthHeader => auth_header_step(d, s, after),
        Phase::AuthName { ulen } => auth_name_step(ulen, d, s, after),
        Phase::AuthPass { .. } => auth_pass_step(before.user@, d, s, after),
        Phase::RequestHeader => request_header_step(d, s, after),
        Phase::DomainLength { cmd } => domain_length_step(cmd, d, s, after),
        Phase::Destination { cmd, atyp, len } => destination_step(cmd, atyp, len, d, s, after),
        _ => false,
    }
}

/// The state of one client connection.
pub struct Session {
    pub phase: Phase,
    /// The method selected, once the method-selection frame is sent.
    pub method: Option<AuthMethods>,
    /// The user name received in the sub-negotiation.
    pub user: Vec<u8>,
    /// The credential store accepted the client.
    pub authenticated: bool,
}

impl Session {
    /// The method-selection frame precedes every authentication or request
    /// byte read, and a request is read only once the client is authenticated
    /// or no authentication was selected.
    pub open spec fn wf(self) -> bool {
        match self.phase {
            Phase::Greeting | Phase::MethodCount | Phase::Methods { .. } => self.method is None && !self.authenticated,
            Phase::AuthHeader | Phase::AuthName { .. } | Phase::AuthPass { .. } | Phase::AuthCheck => {
                self.method == Some(AuthMethods::UserPass) && !self.authenticated
            },
            Phase::Closed => true,
            _ => {
                ||| self.method == Some(AuthMethods::NoAuth)
                ||| (self.method == Some(AuthMethods::UserPass) && self.authenticated)
            },
        }
    }

    /// A session that waits for the client's greeting.
    pub fn new() -> (r: Session)
        ensures
            r.wf(),
            r.phase == Phase::Greeting,
            r.method is None,
            !r.authenticated,
    {
        Session { phase: Phase::Greeting, method: None, user: Vec::new(), authenticated: false }
    }

    /// The number of bytes to read next; zero where the session reads none.
    pub fn bytes_wanted(&self) -> (r: usize)
        ensures
            r == wanted(self.phase),
    {
        match self.phase {
            Phase::Greeting => 1,
            Phase::MethodCount => 1,
            Phase::Methods { count } => count as usize,
            Phase::AuthHeader => 2,
            Phase::AuthName { ulen } => ulen as usize + 1,
            Phase::AuthPass { plen } => plen as usize,
            Phase::RequestHeader => 4,
            Phase::DomainLength { .. } => 1,
            Phase::Destination { len, .. } => len as usize + 2,
            _ => 0,
        }
    }

    fn is_reading(&self) -> (r: bool)
        ensures
            r == reading(self.phase),
    {
        match self.phase {
            Phase::AuthCheck | Phase::Connecting { .. } | Phase::Relaying | Phase::Closed => false,
            _ => true,
        }
    }

    fn close(&mut self, send: Vec<u8>, f: Fault) -> (s: Step)
        ensures
            final(self).phase == Phase::Closed,
            final(self).method == old(self).method,
            final(self).user == old(self).user,
            final(self).authenticated == old(self).authenticated,
            s.send == send,
            s.next == Next::Close(f),
    {
        self.phase = Phase::Closed;
        Step { send, next: Next::Close(f) }
    }

    fn read_next(&mut self, n: usize, p: Phase) -> (s: Step)
        ensures
            final(self).phase == p,
            final(self).method == old(self).method,
            final(self).user == old(self).user,
            final(self).authenticated == old(self).authenticated,
            s.send@.len() == 0,
            s.next == Next::Read(n),
    {
        self.phase = p;
        Step { send: Vec::new(), next: Next::Read(n) }
    }

    /// Hands over the bytes that the session asked for.
    pub fn on_bytes(&mut self, data: &[u8]) -> (s: Step)
        requires
            old(self).wf(),
        ensures
            final(self).wf(),
            frames_only(s.send@),
            reply_then(s),
            reading(old(self).phase) && data@.len() == wanted(old(self).phase)
                ==> bytes_step(*old(self), data@, s, *final(self)),
            !(reading(old(self).phase) && data@.len() == wanted(old(self).phase))
                ==> closes_silently(s, *final(self), Fault::OutOfTurn),
            !(old(self).phase is Methods) ==> final(self).method == old(self).method,
    {
        if !self.is_reading() || data.len() != self.bytes_wanted() {
            return self.close(Vec::new(), Fault::OutOfTurn);
        }
        match self.phase {
            Phase::Greeting => self.greeting(data),
            Phase::MethodCount => self.method_count(data),
            Phase::Methods { .. } => self.methods(data),
            Phase::AuthHeader => self.auth_header(data),
            Phase::AuthName { ulen } => self.auth_name(ulen, data),
            Phase::AuthPass { .. } => self.auth_pass(data),
            Phase::RequestHeader => self.request_header(data),
            Phase::DomainLength { cmd } => self.domain_length(cmd, data),
            Phase::Destination { cmd, atyp, len } => self.destination(cmd, atyp, len, data),
            _ => self.close(Vec::new(), Fault::OutOfTurn),
        }
    }

    fn greeting(&mut self, data: &[u8]) -> (s: Step)
        requires
            old(self).wf(),
            old(self).phase == Phase::Greeting,
            data@.len() == 1,
        ensures
            final(self).wf(),
            final(self).method == old(self).method,
            frames_only(s.send@),
            reply_then(s),
            greeting_step(data@, s, *final(self)),
    {
        if data[0] != VERSION {
            return self.close(Vec::new(), Fault::UnsupportedVersion(data[0]));
        }
        self.read_next(1, Phase::MethodCount)
    }

    fn method_count(&mut self, data: &[u8]) -> (s: Step)
        requires
            old(self).wf(),
            old(self).phase == Phase::MethodCount,
            data@.len() == 1,
        ensures
            final(self).wf(),
            final(self).method == old(self).method,
            frames_only(s.send@),
            reply_then(s),
            method_count_step(data@, s, *final(self)),
    {
        if data[0] == 0 {
            return self.close(no_acceptable_frame(), Fault::NoAcceptableMethod);
        }
        self.read_next(data[0] as usize, Phase::Methods { count: data[0] })
    }

    fn methods(&mut self, data: &[u8]) -> (s: Step)
        requires
            old(self).wf(),
            old(self).phase is Methods,
        ensures
            final(self).wf(),
            frames_only(s.send@),
            reply_then(s),
            methods_step(data@, s, *final(self)),
    {
        let offered = parse_methods(data);
        let method = define_auth_method(&offered);
        assert(offered@.contains(AuthMethods::UserPass) <==> offers(data@, AuthMethods::UserPass));
        self.method = Some(method);
        let send = method_frame(method);
        let next = match method {
            AuthMethods::UserPass => {
                self.phase = Phase::AuthHeader;
                Next::Read(2)
            },
            AuthMethods::NoAuth => {
                self.phase = Phase::RequestHeader;
                Next::Read(4)
            },
        };
        Step { send, next }
    }

    fn auth_header(&mut self, data: &[u8]) -> (s: Step)
        requires
            old(self).wf(),
            old(self).phase == Phase::AuthHeader,
            data@.len() == 2,
        ensures
            final(self).wf(),
            final(self).method == old(self).method,
            frames_only(s.send@),
            reply_then(s),
            auth_header_step(data@, s, *final(self)),
    {
        if data[0] != AUTH_VERSION {
            return self.close(Vec::new(), Fault::UnsupportedAuthVersion(data[0]));
        }
        self.read_next(data[1] as usize + 1, Phase::AuthName { ulen: data[1] })
    }

    fn auth_name(&mut self, ulen: u8, data: &[u8]) -> (s: Step)
        requires
            old(self).wf(),
            old(self).phase == (Phase::AuthName { ulen }),
            data@.len() == ulen + 1,
        ensures
            final(self).wf(),
            final(self).method == old(self).method,
            frames_only(s.send@),
            reply_then(s),
            auth_name_step(ulen, data@, s, *final(self)),
    {
        let n = ulen as usize;
        self.user = slice_to_vec(slice_subrange(data, 0, n));
        let plen = data[n];
        self.read_next(plen as usize, Phase::AuthPass { plen })
    }

    fn auth_pass(&mut self, data: &[u8]) -> (s: Step)
        requires
            old(self).wf(),
            old(self).phase is AuthPass,
        ensures
            final(self).wf(),
            final(self).method == old(self).method,
            frames_only(s.send@),
            reply_then(s),
            auth_pass_step(old(self).user@, data@, s, *final(self)),
    {
        self.phase = Phase::AuthCheck;
        Step { send: Vec::new(), next: Next::CheckCredentials { name: self.user.clone(), pass: slice_to_vec(data) } }
    }

    fn request_header(&mut self, data: &[u8]) -> (s: Step)
        requires
            old(self).wf(),
            old(self).phase == Phase::RequestHeader,
            data@.len() == 4,
        ensures
            final(self).wf(),
            final(self).method == old(self).method,
            frames_only(s.send@),
            reply_then(s),
            request_header_step(data@, s, *final(self)),
    {
        if data[0] != VERSION {
            return self.close(Vec::new(), Fault::UnsupportedVersion(data[0]));
        }
        let cmd = data[1];
        let atyp = data[3];
        match Atyp::from(&atyp) {
            Some(Atyp::IpV4) => self.read_next(6, Phase::Destination { cmd, atyp: Atyp::IpV4, len: 4 }),
            Some(Atyp::IpV6) => self.read_next(18, Phase::Destination { cmd, atyp: Atyp::IpV6, len: 16 }),
            Some(Atyp::Domain) => self.read_next(1, Phase::DomainLength { cmd }),
            None => {
                if Cmd::from(&cmd).is_some() {
                    let send = reply_frame(Reply::InvalidAddress, 0);
                    self.close(send, Fault::UnsupportedAddressType(atyp))
                } else {
                    let send = reply_frame(Reply::InvalidCommand, 0);
                    self.close(send, Fault::UnsupportedCommand(cmd))
                }
            },
        }
    }

    fn domain_length(&mut self, cmd: u8, data: &[u8]) -> (s: Step)
        requires
            old(self).wf(),
            old(self).phase == (Phase::DomainLength { cmd }),
            data@.len() == 1,
        ensures
            final(self).wf(),
            final(self).method == old(self).method,
            frames_only(s.send@),
            reply_then(s),
            domain_length_step(cmd, data@, s, *final(self)),
    {
        let n = data[0];
        if n == 0 {
            if Cmd::from(&cmd).is_some() {
                let send = reply_frame(Reply::InvalidAddress, 0);
                return self.close(send, Fault::EmptyDomain);
            } else {
                let send = reply_frame(Reply::InvalidCommand, 0);
                return self.close(send, Fault::UnsupportedCommand(cmd));
            }
        }
        self.read_next(n as usize + 2, Phase::Destination { cmd, atyp: Atyp::Domain, len: n })
    }

    fn destination(&mut self, cmd: u8, atyp: Atyp, len: u8, data: &[u8]) -> (s: Step)
        requires
            old(self).wf(),
            old(self).phase == (Phase::Destination { cmd, atyp, len }),
            data@.len() == len + 2,
        ensures
            final(self).wf(),
            final(self).method == old(self).method,
            frames_only(s.send@),
            reply_then(s),
            destination_step(cmd, atyp, len, data@, s, *final(self)),
    {
        let n = len as usize;
        let port = to_u16(&data[n], &data[n + 1]);
        if Cmd::from(&cmd).is_none() {
            let send = reply_frame(Reply::InvalidCommand, port);
            return self.close(send, Fault::UnsupportedCommand(cmd));
        }
        let addr = slice_to_vec(slice_subrange(data, 0, n));
        self.phase = Phase::Connecting { port };
        Step { send: Vec::new(), next: Next::Dial(Target { atyp, addr, port }) }
    }

    /// Hands over the verdict of the credential store on the credentials
    /// that the last step asked about.
    pub fn on_credentials(&mut self, accepted: bool) -> (s: Step)
        requires
            old(self).wf(),
        ensures
            final(self).wf(),
            frames_only(s.send@),
            reply_then(s),
            old(self).phase == Phase::AuthCheck && accepted ==> {
                &&& s.send@ == auth_status(AuthResponseCode::Success)
                &&& s.next == Next::Read(4)
                &&& final(self).phase == Phase::RequestHeader
                &&& final(self).authenticated
            },
            old(self).phase == Phase::AuthCheck && !accepted ==> closes_with(
                s,
                *final(self),
                auth_status(AuthResponseCode::Failure),
                Fault::UnknownClient,
            ),
            old(self).phase != Phase::AuthCheck ==> closes_silently(s, *final(self), Fault::OutOfTurn),
            final(self).method == old(self).method,
    {
        if self.phase != Phase::AuthCheck {
            return self.close(Vec::new(), Fault::OutOfTurn);
        }
        if accepted {
            self.authenticated = true;
            self.phase = Phase::RequestHeader;
            Step { send: auth_reply_frame(AuthResponseCode::Success), next: Next::Read(4) }
        } else {
            self.close(auth_reply_frame(AuthResponseCode::Failure), Fault::UnknownClient)
        }
    }

    /// Hands over the outcome of dialing the target of the last step.
    pub fn on_dial(&mut self, outcome: DialOutcome) -> (s: Step)
        requires
            old(self).wf(),
        ensures
            final(self).wf(),
            frames_only(s.send@),
            reply_then(s),
            old(self).phase matches Phase::Connecting { port } ==> match outcome {
                DialOutcome::Connected { local_port } => {
                    &&& s.send@ == reply_bytes(Reply::Success, local_port)
                    &&& s.next == Next::Relay
                    &&& final(self).phase == Phase::Relaying
                },
                DialOutcome::Failed(e) => closes_with(
                    s,
                    *final(self),
                    reply_bytes(dial_reply(e), port),
                    Fault::DialFailed(e),
                ),
            },
            !(old(self).phase is Connecting) ==> closes_silently(s, *final(self), Fault::OutOfTurn),
            final(self).method == old(self).method,
    {
        let port = match self.phase {
            Phase::Connecting { port } => port,
            _ => {
                return self.close(Vec::new(), Fault::OutOfTurn);
            },
        };
        match outcome {
            DialOutcome::Connected { local_port } => {
                self.phase = Phase::Relaying;
                Step { send: reply_frame(Reply::Success, local_port), next: Next::Relay }
            },
            DialOutcome::Failed(e) => {
                let send = reply_frame(reply_for_dial_error(e), port);
                self.close(send, Fault::DialFailed(e))
            },
        }
    }
}

/// Every frame the server sends that is ten octets long is a reply to a
/// request, and it carries version 5, RSV 0 and the IPv4 address type.
pub proof fn lemma_reply_header(send: Seq<u8>)
    requires
        server_frame(send),
        send.len() == 10,
    ensures
        send[0] == 0x05,
        send[2] == 0x00,
        send[3] == 0x01,
        exists|r: Reply| #[trigger] r.wire() == send[1],
{
    let (r, p) = choose|r: Reply, p: u16| send == #[trigger] reply_bytes(r, p);
    assert(send[1] == r.wire());
}

/// The method selected is NO_AUTH or USER/PASS, and its selection frame is
/// sent before any octet of the sub-negotiation or of the request is read:
/// a session reads those only once a method is selected, and reads a request
/// under USER/PASS only after the client is authenticated.
pub proof fn lemma_selection_precedes(s: Session)
    requires
        s.wf(),
    ensures
        s.method matches Some(m) ==> m == AuthMethods::NoAuth || m == AuthMethods::UserPass,
        s.phase is AuthHeader || s.phase is AuthName || s.phase is AuthPass || s.phase is AuthCheck
            ==> s.method == Some(AuthMethods::UserPass),
        s.phase is RequestHeader || s.phase is DomainLength || s.phase is Destination
            || s.phase is Connecting || s.phase is Relaying ==> {
            ||| s.method == Some(AuthMethods::NoAuth)
            ||| s.method == Some(AuthMethods::UserPass) && s.authenticated
        },
        s.phase is Greeting || s.phase is MethodCount || s.phase is Methods ==> s.method is None,
{
}

/// The method-selection frame of a greeting names NO_AUTH or USER/PASS, USER/PASS
/// exactly when the client offers it.
pub proof fn lemma_method_choice(octets: Seq<u8>)
    ensures
        method_selection(chosen_for(octets).wire()) == seq![0x05u8, 0x00u8]
            || method_selection(chosen_for(octets).wire()) == seq![0x05u8, 0x02u8],
        chosen_for(octets) == AuthMethods::UserPass <==> offers(octets, AuthMethods::UserPass),
{
    assert(method_selection(0x00) =~= seq![0x05u8, 0x00u8]);
    assert(method_selection(0x02) =~= seq![0x05u8, 0x02u8]);
}

impl Target {
    /// The host name of a domain target, its octets read as UTF-8 with
    /// invalid sequences replaced.
    pub fn host(&self) -> (r: String)
        ensures
            r@ == utf8_lossy_of(self.addr@),
    {
        decode_lossy(self.addr.as_slice())
    }
}

} // verus!
