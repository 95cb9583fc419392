//! Encoding and decoding of the fixed parts of SOCKS5 frames.
use vstd::prelude::*;

use crate::socks5::{AuthMethods, AuthResponseCode, Reply, Atyp, VERSION, AUTH_VERSION, NO_ACCEPTABLE};

verus! {

/// The 16-bit value of two octets in network byte order.
pub open spec fn be16(hi: u8, lo: u8) -> u16 {
    (hi as int * 256 + lo as int) as u16
}

/// The two octets of a port in network byte order.
pub open spec fn port_octets(port: u16) -> Seq<u8> {
    seq![(port / 256) as u8, (port % 256) as u8]
}

/// Method-selection frame: `VER | METHOD`.
pub open spec fn method_selection(method: u8) -> Seq<u8> {
    seq![0x05u8, method]
}

/// Username/password sub-negotiation reply: `VER | STATUS`.
pub open spec fn auth_status(status: AuthResponseCode) -> Seq<u8> {
    seq![0x01u8, status.wire()]
}

/// Reply to a request: `VER | REP | RSV | ATYP=IPv4 | 0.0.0.0 | BND.PORT`.
pub open spec fn reply_bytes(status: Reply, port: u16) -> Seq<u8> {
    seq![0x05u8, status.wire(), 0x00u8, 0x01u8, 0x00u8, 0x00u8, 0x00u8, 0x00u8]
        + port_octets(port)
}

/// The method a server picks from an offered set: USER/PASS where offered,
/// NO_AUTH otherwise.
pub open spec fn chosen_method(offered: Seq<AuthMethods>) -> AuthMethods {
    if offered.contains(AuthMethods::UserPass) {
        AuthMethods::UserPass
    } else {
        AuthMethods::NoAuth
    }
}

/// Joins two octets in network byte order.
pub fn to_u16(a: &u8, b: &u8) -> (r: u16)
    ensures
        r == be16(*a, *b),
        r as int == *a as int * 256 + *b as int,
{
    (*a as u16) * 256 + (*b as u16)
}

/// The two octets of `port` in network byte order.
pub fn port_to_octets(port: u16) -> (r: [u8; 2])
    ensures
        r@ == port_octets(port),
{
    [(port / 256) as u8, (port % 256) as u8]
}

/// Method-selection frame for the method chosen.
pub fn method_frame(method: AuthMethods) -> (r: Vec<u8>)
    ensures
        r@ == method_selection(method.wire()),
{
    vec![VERSION, method.code()]
}

/// Method-selection frame that tells the client that no method is acceptable.
pub fn no_acceptable_frame() -> (r: Vec<u8>)
    ensures
        r@ == method_selection(0xFF),
{
    vec![VERSION, NO_ACCEPTABLE]
}

/// Reply frame of the username/password sub-negotiation.
pub fn auth_reply_frame(status: AuthResponseCode) -> (r: Vec<u8>)
    ensures
        r@ == auth_status(status),
{
    vec![AUTH_VERSION, status.code()]
}

/// Reply frame to a request, bound address `0.0.0.0` and the port given.
pub fn reply_frame(status: Reply, port: u16) -> (r: Vec<u8>)
    ensures
        r@ == reply_bytes(status, port),
        r@.len() == 10,
        r@[0] == VERSION,
        r@[2] == 0x00,
        be16(r@[8], r@[9]) == port,
{
    let p = port_to_octets(port);
    let r = vec![VERSION, status.code(), 0x00, Atyp::IpV4.code(), 0x00, 0x00, 0x00, 0x00, p[0], p[1]];
    proof {
        assert(r@ =~= reply_bytes(status, port));
    }
    r
}

/// Whether the octet of method `m` occurs among `octets`.
pub open spec fn offers(octets: Seq<u8>, m: AuthMethods) -> bool {
    exists|i: int| 0 <= i < octets.len() && octets[i] == m.wire()
}

/// The method that a greeting octet names, if the server knows it.
pub open spec fn method_of(octet: u8) -> Option<AuthMethods> {
    if octet == 0x00 {
        Some(AuthMethods::NoAuth)
    } else if octet == 0x02 {
        Some(AuthMethods::UserPass)
    } else {
        None
    }
}

/// The known methods among `octets`, in order, repeats kept.
pub open spec fn known_methods(octets: Seq<u8>) -> Seq<AuthMethods>
    decreases octets.len(),
{
    if octets.len() == 0 {
        Seq::empty()
    } else {
        let init = known_methods(octets.drop_last());
        match method_of(octets.last()) {
            Some(m) => init.push(m),
            None => init,
        }
    }
}

/// Reads the METHODS octets of a greeting, dropping those it does not know.
pub fn parse_methods(octets: &[u8]) -> (r: Vec<AuthMethods>)
    ensures
        r@ == known_methods(octets@),
        r@.len() <= octets@.len(),
        forall|m: AuthMethods| #[trigger] r@.contains(m) <==> offers(octets@, m),
{
    let mut methods: Vec<AuthMethods> = Vec::new();
    let mut i: usize = 0;
    while i < octets.len()
        invariant
            i <= octets@.len(),
            methods@.len() <= i,
            methods@ == known_methods(octets@.subrange(0, i as int)),
            forall|m: AuthMethods| #[trigger] methods@.contains(m) <==> offers(octets@.subrange(0, i as int), m),
        decreases octets@.len() - i,
    {
        let octet = octets[i];
        let parsed = AuthMethods::from(&octet);
        let ghost before = methods@;
        let ghost prefix = octets@.subrange(0, i as int);
        let ghost next = octets@.subrange(0, i + 1);
        if let Some(m) = parsed {
            methods.push(m);
            assert(methods@ == before.push(m));
        }
        proof {
            assert(next =~= prefix.push(octet));
            assert(next.drop_last() =~= prefix);
            assert(methods@ == known_methods(next));
            assert forall|m: AuthMethods| #[trigger] methods@.contains(m) <==> offers(next, m) by {
                if methods@.contains(m) {
                    let j = choose|j: int| 0 <= j < methods@.len() && methods@[j] == m;
                    if j < before.len() {
                        assert(before.contains(m));
                        let k = choose|k: int| 0 <= k < prefix.len() && prefix[k] == m.wire();
                        assert(next[k] == m.wire());
                    } else {
                        assert(next[i as int] == m.wire());
                    }
                }
                if offers(next, m) {
                    let k = choose|k: int| 0 <= k < next.len() && next[k] == m.wire();
                    if k < i {
                        assert(prefix[k] == m.wire());
                        assert(before.contains(m));
                        let j = choose|j: int| 0 <= j < before.len() && before[j] == m;
                        assert(methods@[j] == m);
                    } else {
                        assert(parsed == Some(m));
                        assert(methods@[methods@.len() - 1] == m);
                    }
                }
            }
        }
        i += 1;
    }
    assert(octets@.subrange(0, i as int) =~= octets@);
    methods
}

/// Chooses the authentication method from the methods a client offers.
pub fn define_auth_method(methods: &Vec<AuthMethods>) -> (r: AuthMethods)
    ensures
        r == chosen_method(methods@),
        r == AuthMethods::NoAuth || r == AuthMethods::UserPass,
{
    let mut i: usize = 0;
    while i < methods.len()
        invariant
            i <= methods@.len(),
            forall|k: int| 0 <= k < i ==> methods@[k] != AuthMethods::UserPass,
        decreases methods@.len() - i,
    {
        if methods[i] == AuthMethods::UserPass {
            assert(methods@.contains(AuthMethods::UserPass));
            return AuthMethods::UserPass;
        }
        i += 1;
    }
    AuthMethods::NoAuth
}

/// A port written by the server is read back unchanged: ports are sent and
/// received as two octets in network byte order.
pub proof fn lemma_port_round_trip(port: u16)
    ensures
        be16(port_octets(port)[0], port_octets(port)[1]) == port,
{
}

/// Two octets read as a port are written back unchanged: the high octet
/// comes first in both directions.
pub proof fn lemma_octets_round_trip(hi: u8, lo: u8)
    ensures
        port_octets(be16(hi, lo)) == seq![hi, lo],
        be16(hi, lo) as int == hi as int * 256 + lo as int,
{
    assert(port_octets(be16(hi, lo)) =~= seq![hi, lo]);
}

} // verus!
