use socks5_proxy::frame::{
    auth_reply_frame, define_auth_method, method_frame, no_acceptable_frame, parse_methods,
    port_to_octets, reply_frame, to_u16,
};
use socks5_proxy::socks5::{AuthMethods, AuthResponseCode, Atyp, Cmd, Reply, VERSION};

#[test]
fn auth_methods_from_known_and_unknown() {
    assert_eq!(AuthMethods::from(&0x00), Some(AuthMethods::NoAuth));
    assert_eq!(AuthMethods::from(&0x02), Some(AuthMethods::UserPass));
    assert_eq!(AuthMethods::from(&0x01), None);
    assert_eq!(AuthMethods::from(&0xFF), None);
}

#[test]
fn cmd_from_only_connect() {
    assert_eq!(Cmd::from(&0x01), Some(Cmd::Connect));
    assert_eq!(Cmd::from(&0x02), None);
    assert_eq!(Cmd::from(&0x03), None);
    assert_eq!(Cmd::from(&0x00), None);
}

#[test]
fn atyp_from_known_and_unknown() {
    assert_eq!(Atyp::from(&0x01), Some(Atyp::IpV4));
    assert_eq!(Atyp::from(&0x03), Some(Atyp::Domain));
    assert_eq!(Atyp::from(&0x04), Some(Atyp::IpV6));
    assert_eq!(Atyp::from(&0x02), None);
    assert_eq!(Atyp::from(&0x05), None);
}

#[test]
fn wire_codes() {
    assert_eq!(VERSION, 0x05);
    assert_eq!(AuthMethods::NoAuth.code(), 0x00);
    assert_eq!(AuthMethods::UserPass.code(), 0x02);
    assert_eq!(AuthResponseCode::Success.code(), 0x00);
    assert_eq!(AuthResponseCode::Failure.code(), 0x01);
    assert_eq!(Atyp::IpV4.code(), 0x01);
    assert_eq!(Atyp::Domain.code(), 0x03);
    assert_eq!(Atyp::IpV6.code(), 0x04);
    assert_eq!(Reply::Success.code(), 0x00);
    assert_eq!(Reply::ConnectionFailure.code(), 0x02);
    assert_eq!(Reply::HostUnreachable.code(), 0x04);
    assert_eq!(Reply::ConnectionRefused.code(), 0x05);
    assert_eq!(Reply::InvalidCommand.code(), 0x07);
    assert_eq!(Reply::InvalidAddress.code(), 0x08);
    assert_eq!(Reply::Other.code(), 0x09);
}

#[test]
fn port_zero_and_max_parse() {
    assert_eq!(to_u16(&0x00, &0x00), 0);
    assert_eq!(to_u16(&0xFF, &0xFF), 65535);
    assert_eq!(to_u16(&0x1F, &0x90), 8080);
    assert_eq!(to_u16(&0x00, &0x50), 80);
}

#[test]
fn port_is_big_endian_both_ways() {
    assert_eq!(port_to_octets(8080), [0x1F, 0x90]);
    assert_eq!(port_to_octets(0), [0x00, 0x00]);
    assert_eq!(port_to_octets(65535), [0xFF, 0xFF]);
    let [hi, lo] = port_to_octets(40000);
    assert_eq!(to_u16(&hi, &lo), 40000);
}

#[test]
fn reply_frame_layout() {
    assert_eq!(
        reply_frame(Reply::InvalidCommand, 0x0050),
        vec![0x05, 0x07, 0x00, 0x01, 0x00, 0x00, 0x00, 0x00, 0x00, 0x50]
    );
    assert_eq!(
        reply_frame(Reply::Success, 0xABCD),
        vec![0x05, 0x00, 0x00, 0x01, 0x00, 0x00, 0x00, 0x00, 0xAB, 0xCD]
    );
}

#[test]
fn method_and_auth_frames() {
    assert_eq!(method_frame(AuthMethods::NoAuth), vec![0x05, 0x00]);
    assert_eq!(method_frame(AuthMethods::UserPass), vec![0x05, 0x02]);
    assert_eq!(no_acceptable_frame(), vec![0x05, 0xFF]);
    assert_eq!(auth_reply_frame(AuthResponseCode::Success), vec![0x01, 0x00]);
    assert_eq!(auth_reply_frame(AuthResponseCode::Failure), vec![0x01, 0x01]);
}

#[test]
fn parse_methods_drops_unknown() {
    assert_eq!(parse_methods(&[0x01, 0x02, 0x80, 0x00]), vec![AuthMethods::UserPass, AuthMethods::NoAuth]);
    assert_eq!(parse_methods(&[0x01, 0x00, 0x80, 0x02]), vec![AuthMethods::NoAuth, AuthMethods::UserPass]);
    assert_eq!(
        parse_methods(&[0x02, 0x00, 0x02]),
        vec![AuthMethods::UserPass, AuthMethods::NoAuth, AuthMethods::UserPass]
    );
    assert_eq!(parse_methods(&[0x03, 0xFE]), vec![]);
    assert_eq!(parse_methods(&[]), vec![]);
}

#[test]
fn user_pass_preferred_when_offered() {
    assert_eq!(define_auth_method(&vec![AuthMethods::NoAuth, AuthMethods::UserPass]), AuthMethods::UserPass);
    assert_eq!(define_auth_method(&vec![AuthMethods::NoAuth]), AuthMethods::NoAuth);
}

#[test]
fn all_unknown_methods_fall_back_to_no_auth() {
    let octets: Vec<u8> = (0..255u32).map(|i| if i % 2 == 0 { 0x01 } else { 0x80 + (i % 100) as u8 }).collect();
    assert_eq!(octets.len(), 255);
    let offered = parse_methods(&octets);
    assert!(offered.is_empty());
    assert_eq!(define_auth_method(&offered), AuthMethods::NoAuth);
    assert_eq!(define_auth_method(&vec![]), AuthMethods::NoAuth);
}
