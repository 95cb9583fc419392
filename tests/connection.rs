use socks5_proxy::connection::{serve, Transcript};
use socks5_proxy::session::{DialError, DialOutcome, Fault, Next, Target};
use socks5_proxy::socks5::Atyp;

const USERS: &[u8] = b"name,pass\nuser,pass\n";

fn users() -> Vec<u8> {
    USERS.to_vec()
}

#[test]
fn serve_no_auth_ipv4_relays() {
    let input = [0x05, 0x01, 0x00, 0x05, 0x01, 0x00, 0x01, 0x7F, 0x00, 0x00, 0x01, 0x1F, 0x90, 0xAA];
    let t = serve(&input, &users(), DialOutcome::Connected { local_port: 40000 });
    assert_eq!(
        t,
        Transcript {
            frames: vec![vec![0x05, 0x00], vec![0x05, 0x00, 0x00, 0x01, 0x00, 0x00, 0x00, 0x00, 0x9C, 0x40]],
            consumed: 13,
            end: Next::Relay,
            checked: None,
            dialed: Some(Target { atyp: Atyp::IpV4, addr: vec![127, 0, 0, 1], port: 8080 }),
        }
    );
}

#[test]
fn serve_user_pass_success() {
    let input = [
        0x05, 0x01, 0x02, 0x01, 0x04, 0x75, 0x73, 0x65, 0x72, 0x04, 0x70, 0x61, 0x73, 0x73, 0x05, 0x01, 0x00,
        0x01, 0x7F, 0x00, 0x00, 0x01, 0x1F, 0x90,
    ];
    let t = serve(&input, &users(), DialOutcome::Connected { local_port: 1080 });
    assert_eq!(t.frames[0], vec![0x05, 0x02]);
    assert_eq!(t.frames[1], vec![0x01, 0x00]);
    assert_eq!(t.frames[2], vec![0x05, 0x00, 0x00, 0x01, 0x00, 0x00, 0x00, 0x00, 0x04, 0x38]);
    assert_eq!(t.checked, Some((b"user".to_vec(), b"pass".to_vec())));
    assert_eq!(t.end, Next::Relay);
}

#[test]
fn serve_user_pass_failure_closes() {
    let input = [0x05, 0x01, 0x02, 0x01, 0x04, 0x75, 0x73, 0x65, 0x72, 0x04, 0x70, 0x61, 0x73, 0x73];
    let t = serve(&input, &b"name,pass\nother,pass\n".to_vec(), DialOutcome::Connected { local_port: 1 });
    assert_eq!(t.frames, vec![vec![0x05, 0x02], vec![0x01, 0x01]]);
    assert_eq!(t.end, Next::Close(Fault::UnknownClient));
    assert_eq!(t.dialed, None);
}

#[test]
fn serve_bind_refused() {
    let input = [0x05, 0x01, 0x00, 0x05, 0x02, 0x00, 0x01, 0x7F, 0x00, 0x00, 0x01, 0x00, 0x50];
    let t = serve(&input, &users(), DialOutcome::Connected { local_port: 1 });
    assert_eq!(
        t.frames,
        vec![vec![0x05, 0x00], vec![0x05, 0x07, 0x00, 0x01, 0x00, 0x00, 0x00, 0x00, 0x00, 0x50]]
    );
    assert_eq!(t.end, Next::Close(Fault::UnsupportedCommand(0x02)));
    assert_eq!(t.dialed, None);
}

#[test]
fn serve_refused_dial_echoes_port() {
    let input = [0x05, 0x01, 0x00, 0x05, 0x01, 0x00, 0x01, 0x7F, 0x00, 0x00, 0x01, 0x1F, 0x90];
    let t = serve(&input, &users(), DialOutcome::Failed(DialError::Refused));
    assert_eq!(t.frames[1], vec![0x05, 0x05, 0x00, 0x01, 0x00, 0x00, 0x00, 0x00, 0x1F, 0x90]);
    assert_eq!(t.end, Next::Close(Fault::DialFailed(DialError::Refused)));
}

#[test]
fn serve_domain_of_255_octets() {
    let mut input = vec![0x05, 0x01, 0x00, 0x05, 0x01, 0x00, 0x03, 0xFF];
    input.extend(vec![b'x'; 255]);
    input.extend_from_slice(&[0x01, 0xBB]);
    let t = serve(&input, &users(), DialOutcome::Failed(DialError::Other));
    assert_eq!(t.consumed, 265);
    assert_eq!(t.dialed, Some(Target { atyp: Atyp::Domain, addr: vec![b'x'; 255], port: 443 }));
    assert_eq!(t.frames[1], vec![0x05, 0x09, 0x00, 0x01, 0x00, 0x00, 0x00, 0x00, 0x01, 0xBB]);
}

#[test]
fn serve_bad_version_reads_one_byte() {
    let t = serve(&[0x04, 0x01, 0x00], &users(), DialOutcome::Connected { local_port: 1 });
    assert_eq!(t.consumed, 1);
    assert!(t.frames.is_empty());
    assert_eq!(t.end, Next::Close(Fault::UnsupportedVersion(0x04)));
}

#[test]
fn serve_zero_methods() {
    let t = serve(&[0x05, 0x00], &users(), DialOutcome::Connected { local_port: 1 });
    assert_eq!(t.frames, vec![vec![0x05, 0xFF]]);
    assert_eq!(t.end, Next::Close(Fault::NoAcceptableMethod));
}

#[test]
fn serve_short_input_stops_reading() {
    let t = serve(&[0x05, 0x02, 0x00], &users(), DialOutcome::Connected { local_port: 1 });
    assert_eq!(t.consumed, 2);
    assert_eq!(t.end, Next::Read(2));
    assert!(t.frames.is_empty());
}
