//! A whole connection, run from inputs known in advance: the client's bytes,
//! the credentials table and the outcome of dialing. What it states holds of
//! every exchange that the state machine of `session` can carry out.
use vstd::prelude::*;
use vstd::slice::slice_subrange;

use crate::socks5::{AuthMethods, AuthResponseCode, Reply, Atyp};
use crate::frame::{be16, offers, method_selection, auth_status, reply_bytes};
use crate::credentials::{csv_records_of, utf8_lossy_of, listed, lookup};
use crate::session::{
    Session, Phase, Next, Target, DialOutcome, wanted, reading, dial_reply, server_frame,
};

verus! {

/// What a connection did.
#[derive(Debug, PartialEq, Eq)]
pub struct Transcript {
    /// The frames sent to the client, in order.
    pub frames: Vec<Vec<u8>>,
    /// The number of client bytes read.
    pub consumed: usize,
    /// How it ended: `Relay`, `Close`, or `Read(n)` where the client's bytes
    /// ran out before `n` more could be read.
    pub end: Next,
    /// The user name and password looked up, if any.
    pub checked: Option<(Vec<u8>, Vec<u8>)>,
    /// The destination dialed, if any.
    pub dialed: Option<Target>,
}

/// The frames as byte sequences.
pub open spec fn frames_view(frames: Seq<Vec<u8>>) -> Seq<Seq<u8>> {
    frames.map_values(|f: Vec<u8>| f@)
}

/// A reply to a request.
pub open spec fn is_reply(f: Seq<u8>) -> bool {
    exists|r: Reply, p: u16| f == #[trigger] reply_bytes(r, p)
}

/// The frames a connection may send before relaying: nothing; `05 FF`; or
/// `05 00` then at most a reply; or `05 02`, then at most one sub-negotiation
/// status, then a reply only after status success.
pub open spec fn connection_frames(fs: Seq<Seq<u8>>) -> bool {
    ||| fs.len() == 0
    ||| fs.len() == 1 && fs[0] == method_selection(0xFF)
    ||| fs.len() >= 1 && fs[0] == method_selection(0x00) && (fs.len() == 1 || fs.len() == 2 && is_reply(fs[1]))
    ||| fs.len() >= 1 && fs[0] == method_selection(0x02) && {
        ||| fs.len() == 1
        ||| fs.len() == 2 && fs[1] == auth_status(AuthResponseCode::Failure)
        ||| fs.len() == 2 && fs[1] == auth_status(AuthResponseCode::Success)
        ||| fs.len() == 3 && fs[1] == auth_status(AuthResponseCode::Success) && is_reply(fs[2])
    }
}

/// The username/password frame `01 | ULEN | UNAME | PLEN | PASSWD` stands in
/// `input` at offset `a`.
pub open spec fn auth_frame_at(input: Seq<u8>, a: int, u: Seq<u8>, p: Seq<u8>) -> bool {
    &&& 0 <= a
    &&& u.len() < 256
    &&& p.len() < 256
    &&& a + 3 + u.len() + p.len() <= input.len()
    &&& input.subrange(a, a + 3 + u.len() + p.len()) == seq![0x01u8, u.len() as u8] + u + seq![p.len() as u8] + p
}

/// The destination `t` was read from the octets just before offset `c`:
/// its address, then its port in network byte order; a domain is preceded
/// by its length octet, which is not zero.
pub open spec fn dialed_from(input: Seq<u8>, c: int, t: Target) -> bool {
    &&& c <= input.len()
    &&& c >= 2 + t.addr@.len()
    &&& t.port == be16(input[c - 2], input[c - 1])
    &&& t.addr@ == input.subrange(c - 2 - t.addr@.len(), c - 2)
    &&& t.atyp == Atyp::Domain ==> {
        &&& c >= 3 + t.addr@.len()
        &&& t.addr@.len() >= 1
        &&& input[c - 3 - t.addr@.len()] == t.addr@.len()
    }
}

/// The client greets with version 5 and at least one method, USER/PASS not
/// among them, then asks to CONNECT to a domain whose length octet `n` is not
/// zero, and all `n` octets and the port are there.
pub open spec fn domain_connect_no_auth(input: Seq<u8>) -> bool {
    let g = 2 + input[1];
    &&& input.len() >= 2
    &&& input[0] == 0x05
    &&& input[1] >= 1
    &&& input.len() >= g + 5
    &&& !offers(input.subrange(2, g), AuthMethods::UserPass)
    &&& input[g] == 0x05
    &&& input[g + 1] == 0x01
    &&& input[g + 3] == 0x03
    &&& input[g + 4] >= 1
    &&& input.len() >= g + 7 + input[g + 4]
}

/// Where a connection of `domain_connect_no_auth` input stands, phase by phase.
pub open spec fn domain_path(s: Session, next: Next, dialed: Option<Target>, input: Seq<u8>, c: int) -> bool {
    let g = 2 + input[1];
    let n = input[g + 4];
    match s.phase {
        Phase::Greeting => c == 0,
        Phase::MethodCount => c == 1,
        Phase::Methods { .. } => c == 2,
        Phase::RequestHeader => c == g && s.method == Some(AuthMethods::NoAuth),
        Phase::DomainLength { cmd } => cmd == 0x01 && c == g + 4,
        Phase::Destination { cmd, atyp, len } => cmd == 0x01 && atyp == Atyp::Domain && len == n && c == g + 5,
        Phase::Connecting { .. } => c == g + 7 + n && (next matches Next::Dial(tg) && tg.atyp == Atyp::Domain
            && tg.addr@.len() == n),
        Phase::Relaying | Phase::Closed => c == g + 7 + n && (dialed matches Some(tg) && tg.atyp == Atyp::Domain
            && tg.addr@.len() == n),
        _ => false,
    }
}

/// Phases in protocol order, later phases lower.
pub open spec fn rank(p: Phase) -> nat {
    match p {
        Phase::Greeting => 12,
        Phase::MethodCount => 11,
        Phase::Methods { .. } => 10,
        Phase::AuthHeader => 9,
        Phase::AuthName { .. } => 8,
        Phase::AuthPass { .. } => 7,
        Phase::AuthCheck => 6,
        Phase::RequestHeader => 5,
        Phase::DomainLength { .. } => 4,
        Phase::Destination { .. } => 3,
        Phase::Connecting { .. } => 2,
        Phase::Relaying => 1,
        Phase::Closed => 0,
    }
}

/// The phases between method selection and the end of the sub-negotiation.
pub open spec fn in_auth(p: Phase) -> bool {
    p is AuthHeader || p is AuthName || p is AuthPass || p is AuthCheck
}

/// The phases that handle the request.
pub open spec fn in_request(p: Phase) -> bool {
    p is RequestHeader || p is DomainLength || p is Destination || p is Connecting
}

/// The frames sent so far, for each phase.
pub open spec fn sent_so_far(s: Session, fs: Seq<Seq<u8>>) -> bool {
    &&& (s.phase is Greeting || s.phase is MethodCount || s.phase is Methods) ==> fs.len() == 0
    &&& in_auth(s.phase) ==> fs == seq![method_selection(0x02)]
    &&& in_request(s.phase) ==> {
        ||| s.method == Some(AuthMethods::NoAuth) && fs == seq![method_selection(0x00)]
        ||| s.method == Some(AuthMethods::UserPass) && fs == seq![
            method_selection(0x02),
            auth_status(AuthResponseCode::Success),
        ]
    }
    &&& connection_frames(fs)
}

/// Where the client's bytes stand, for each phase of the sub-negotiation.
pub open spec fn auth_read_so_far(s: Session, next: Next, input: Seq<u8>, c: int) -> bool {
    let a = 2 + input[1];
    &&& s.phase matches Phase::Methods { count } ==> c == 2 && input[1] == count
    &&& s.phase is AuthHeader ==> c == a
    &&& s.phase matches Phase::AuthName { ulen } ==> c == a + 2 && input[a] == 0x01 && input[a + 1] == ulen
    &&& s.phase matches Phase::AuthPass { plen } ==> {
        &&& s.user@.len() < 256
        &&& c == a + 3 + s.user@.len()
        &&& input.subrange(a, c) == seq![0x01u8, s.user@.len() as u8] + s.user@ + seq![plen]
    }
    &&& s.phase is AuthCheck ==> (next matches Next::CheckCredentials { name, pass } && auth_frame_at(
        input,
        a,
        name@,
        pass@,
    ))
}

/// Runs one connection on the client's bytes `input`, the credentials table
/// `users` and the outcome `dial` of dialing, until it relays, closes, or the
/// client's bytes run out.
pub fn serve(input: &[u8], users: &Vec<u8>, dial: DialOutcome) -> (t: Transcript)
    ensures
        t.consumed <= input@.len(),
        connection_frames(frames_view(t.frames@)),
        forall|i: int| 0 <= i < t.frames@.len() ==> server_frame(#[trigger] t.frames@[i]@),
        t.end matches Next::Read(n) ==> t.consumed + n > input@.len(),
        t.end is Read || t.end is Relay || t.end is Close,
        t.end is Relay ==> {
            &&& dial matches DialOutcome::Connected { local_port }
            &&& t.dialed is Some
            &&& t.frames@.len() >= 1
            &&& t.frames@.last()@ == reply_bytes(Reply::Success, local_port)
        },
        t.frames@.len() >= 1 && t.frames@.last()@.len() == 10 && t.frames@.last()@[1] != 0x00 ==> t.end is Close,
        t.checked matches Some((u, p)) ==> {
            &&& auth_frame_at(input@, 2 + input@[1], u@, p@)
            &&& t.frames@.len() >= 2
            &&& (t.frames@[1]@ == auth_status(AuthResponseCode::Success) <==> listed(
                csv_records_of(users@),
                utf8_lossy_of(u@),
                utf8_lossy_of(p@),
            ))
        },
        t.frames@.len() >= 2 && t.frames@[0]@ == method_selection(0x02) ==> t.checked is Some,
        domain_connect_no_auth(input@) ==> {
            let g = 2 + input@[1];
            let n = input@[g + 4];
            &&& t.frames@.len() >= 1
            &&& t.frames@[0]@ == method_selection(0x00)
            &&& t.consumed == g + 7 + n
            &&& t.dialed matches Some(tg) && tg.atyp == Atyp::Domain && tg.addr@ == input@.subrange(g + 5, g + 5 + n)
                && tg.port == be16(input@[g + 5 + n], input@[g + 6 + n])
        },
        t.dialed matches Some(tg) ==> {
            &&& dialed_from(input@, t.consumed as int, tg)
            &&& dial matches DialOutcome::Connected { local_port } ==> t.end is Relay
                && t.frames@.last()@ == reply_bytes(Reply::Success, local_port)
            &&& dial matches DialOutcome::Failed(e) ==> t.end is Close
                && t.frames@.last()@ == reply_bytes(dial_reply(e), tg.port)
                && t.frames@.last()@.subrange(8, 10) == input@.subrange(t.consumed - 2, t.consumed as int)
        },
{
    let mut sess = Session::new();
    let mut frames: Vec<Vec<u8>> = Vec::new();
    let mut consumed: usize = 0;
    let mut checked: Option<(Vec<u8>, Vec<u8>)> = None;
    let mut dialed: Option<Target> = None;
    let mut next = Next::Read(sess.bytes_wanted());
    loop
        invariant
            sess.wf(),
            consumed <= input@.len(),
            reading(sess.phase) ==> next == Next::Read(wanted(sess.phase) as usize),
            sess.phase is AuthCheck ==> next is CheckCredentials,
            sess.phase matches Phase::Connecting { port } ==> (next matches Next::Dial(tg) && tg.port == port
                && dialed_from(input@, consumed as int, tg)),
            sess.phase matches Phase::Destination { atyp, len, .. } ==> atyp == Atyp::Domain ==> {
                &&& consumed >= 1
                &&& len >= 1
                &&& input@[consumed - 1] == len
            },
            sess.phase is Relaying ==> {
                &&& next is Relay
                &&& dial matches DialOutcome::Connected { local_port }
                &&& dialed is Some
                &&& frames@.len() >= 1
                &&& frames@.last()@ == reply_bytes(Reply::Success, local_port)
            },
            sess.phase is Closed ==> next is Close,
            sent_so_far(sess, frames_view(frames@)),
            forall|i: int| 0 <= i < frames@.len() ==> server_frame(#[trigger] frames@[i]@),
            frames@.len() >= 1 && frames@.last()@.len() == 10 && frames@.last()@[1] != 0x00 ==> sess.phase
                is Closed,
            sess.phase is Greeting ==> consumed == 0,
            sess.phase is MethodCount ==> consumed == 1,
            sess.phase matches Phase::Methods { count } ==> consumed == 2 && input@.len() >= 2 && input@[1] == count,
            !(sess.phase is Greeting || sess.phase is MethodCount || sess.phase is Closed) ==> consumed >= 2
                && input@.len() >= 2,
            sess.method == Some(AuthMethods::UserPass) ==> auth_read_so_far(sess, next, input@, consumed as int),
            checked matches Some((u, p)) ==> {
                &&& auth_frame_at(input@, 2 + input@[1], u@, p@)
                &&& frames@.len() >= 2
                &&& (frames@[1]@ == auth_status(AuthResponseCode::Success) <==> listed(
                    csv_records_of(users@),
                    utf8_lossy_of(u@),
                    utf8_lossy_of(p@),
                ))
            },
            frames@.len() >= 2 && frames@[0]@ == method_selection(0x02) ==> checked is Some,
            dialed matches Some(tg) ==> {
                &&& dialed_from(input@, consumed as int, tg)
                &&& (sess.phase is Relaying || sess.phase is Closed)
                &&& dial matches DialOutcome::Connected { local_port } ==> sess.phase is Relaying
                    && frames@.last()@ == reply_bytes(Reply::Success, local_port)
                &&& dial matches DialOutcome::Failed(e) ==> sess.phase is Closed
                    && frames@.len() >= 1
                    && frames@.last()@ == reply_bytes(dial_reply(e), tg.port)
            },
            dialed is None ==> !(sess.phase is Relaying),
            domain_connect_no_auth(input@) ==> domain_path(sess, next, dialed, input@, consumed as int),
            domain_connect_no_auth(input@) && rank(sess.phase) <= 5 ==> frames@.len() >= 1 && frames@[0]@
                == method_selection(0x00),
        decreases rank(sess.phase),
    {
        let ghost before = sess;
        let ghost fs0 = frames_view(frames@);
        let ghost c0 = consumed;
        let step = match next {
            Next::Read(n) => {
                if n > input.len() - consumed {
                    assert(!domain_connect_no_auth(input@));
                    return Transcript { frames, consumed, end: Next::Read(n), checked, dialed };
                }
                let data = slice_subrange(input, consumed, consumed + n);
                consumed = consumed + n;
                let step = sess.on_bytes(data);
                proof {
                    let d = data@;
                    assert(d == input@.subrange(c0 as int, consumed as int));
                    match before.phase {
                        Phase::AuthName { ulen } => {
                            let a = 2 + input@[1];
                            assert(input@.subrange(a, consumed as int) =~= input@.subrange(a, c0 as int) + d);
                            assert(input@.subrange(a, c0 as int) =~= seq![input@[a], input@[a + 1]]);
                            assert(d =~= sess.user@ + seq![d[ulen as int]]);
                            assert(input@.subrange(a, consumed as int) =~= seq![0x01u8, sess.user@.len() as u8]
                                + sess.user@ + seq![d[ulen as int]]);
                        },
                        Phase::AuthPass { plen } => {
                            let a = 2 + input@[1];
                            if step.next is CheckCredentials {
                                let u = step.next->name@;
                                let pass = step.next->pass;
                                assert(input@.subrange(a, consumed as int) =~= input@.subrange(a, c0 as int) + d);
                                assert(input@.subrange(a, a + 3 + u.len() + pass@.len())
                                    == input@.subrange(a, consumed as int));
                                assert(input@.subrange(a, consumed as int) =~= seq![0x01u8, u.len() as u8] + u
                                    + seq![pass@.len() as u8] + pass@);
                            }
                        },
                        Phase::Destination { cmd, atyp, len } => {
                            if step.next is Dial {
                                let tg = step.next->Dial_0;
                                assert(tg.addr@ =~= input@.subrange(consumed - 2 - tg.addr@.len(), consumed - 2));
                                assert(d[len as int] == input@[consumed - 2]);
                                assert(d[len + 1] == input@[consumed - 1]);
                            }
                        },
                        _ => {},
                    }
                    if step.send@.len() == 10 {
                        assert(server_frame(step.send@));
                        assert(is_reply(step.send@));
                    }
                }
                step
            },
            Next::CheckCredentials { name, pass } => {
                let accepted = lookup(users, &name, &pass);
                checked = Some((name, pass));
                sess.on_credentials(accepted)
            },
            Next::Dial(target) => {
                dialed = Some(target);
                sess.on_dial(dial)
            },
            other => {
                return Transcript { frames, consumed, end: other, checked, dialed };
            },
        };
        let ghost sent = step.send@;
        if step.send.len() > 0 {
            frames.push(step.send);
            assert(frames_view(frames@) =~= fs0.push(sent));
        } else {
            assert(frames_view(frames@) =~= fs0);
        }
        next = step.next;
        proof {
            let fs = frames_view(frames@);
            match before.phase {
                Phase::Methods { .. } => {
                    assert(fs =~= seq![sent]);
                    assert(sent == method_selection(0x00) || sent == method_selection(0x02));
                },
                Phase::AuthCheck => {
                    if sent == auth_status(AuthResponseCode::Success) {
                        assert(fs =~= seq![method_selection(0x02), auth_status(AuthResponseCode::Success)]);
                    } else {
                        assert(fs =~= seq![method_selection(0x02), auth_status(AuthResponseCode::Failure)]);
                    }
                },
                _ => {},
            }
        }
    }
}

} // verus!
