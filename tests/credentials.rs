use socks5_proxy::credentials::{is_listed, lookup, Client};

fn csv(text: &str) -> Vec<u8> {
    text.as_bytes().to_vec()
}

#[test]
fn known_pair_is_accepted() {
    let data = csv("name,pass\nuser,pass\nalice,secret\n");
    assert!(lookup(&data, &b"user".to_vec(), &b"pass".to_vec()));
    assert!(lookup(&data, &b"alice".to_vec(), &b"secret".to_vec()));
}

#[test]
fn unknown_pair_is_refused() {
    let data = csv("name,pass\nuser,pass\nalice,secret\n");
    assert!(!lookup(&data, &b"user".to_vec(), &b"secret".to_vec()));
    assert!(!lookup(&data, &b"bob".to_vec(), &b"pass".to_vec()));
    assert!(!lookup(&data, &b"User".to_vec(), &b"pass".to_vec()));
}

#[test]
fn header_row_is_not_a_client() {
    let data = csv("name,pass\nuser,pass\n");
    assert!(!lookup(&data, &b"name".to_vec(), &b"pass".to_vec()));
}

#[test]
fn columns_are_found_by_header() {
    let data = csv("pass,name\nsecret,alice\n");
    assert!(lookup(&data, &b"alice".to_vec(), &b"secret".to_vec()));
    assert!(!lookup(&data, &b"secret".to_vec(), &b"alice".to_vec()));
    let extra = csv("id,name,pass\n1,carol,pw\n");
    assert!(lookup(&extra, &b"carol".to_vec(), &b"pw".to_vec()));
}

#[test]
fn empty_store_denies_everyone() {
    assert!(!lookup(&Vec::new(), &b"user".to_vec(), &b"pass".to_vec()));
    assert!(!lookup(&csv("name,pass\n"), &b"user".to_vec(), &b"pass".to_vec()));
}

#[test]
fn malformed_rows_are_skipped() {
    let data = csv("name,pass\nbroken\nuser,pass,extra\nuser,pass\n");
    assert!(lookup(&data, &b"user".to_vec(), &b"pass".to_vec()));
    assert!(!lookup(&data, &b"broken".to_vec(), &b"".to_vec()));
    let mut bad = csv("name,pass\n");
    bad.extend_from_slice(&[0xFF, b',', b'x', b'\n']);
    bad.extend_from_slice(b"dave,pw\n");
    assert!(lookup(&bad, &b"dave".to_vec(), &b"pw".to_vec()));
}

#[test]
fn header_without_both_columns_denies() {
    assert!(!lookup(&csv("user,password\nuser,pass\n"), &b"user".to_vec(), &b"pass".to_vec()));
    assert!(!lookup(&csv("name,name,pass\nuser,user,pass\n"), &b"user".to_vec(), &b"pass".to_vec()));
}

#[test]
fn invalid_utf8_name_is_read_lossily() {
    let data = csv("name,pass\n\u{FFFD},pw\n");
    assert!(lookup(&data, &vec![0xFF], &b"pw".to_vec()));
    assert!(!lookup(&csv("name,pass\nx,pw\n"), &vec![0xFF], &b"pw".to_vec()));
}

#[test]
fn is_listed_on_a_table() {
    let table = vec![
        Some(vec!["name".to_string(), "pass".to_string()]),
        None,
        Some(vec!["user".to_string(), "pass".to_string()]),
    ];
    let user = Client { name: "user".to_string(), pass: "pass".to_string() };
    let other = Client { name: "user".to_string(), pass: "nope".to_string() };
    assert!(is_listed(&table, &user));
    assert!(!is_listed(&table, &other));
    assert!(!is_listed(&vec![None, Some(vec!["user".to_string(), "pass".to_string()])], &user));
    assert!(!is_listed(&vec![], &user));
}

#[test]
fn clients_compare_by_fields() {
    let a = Client { name: "a".to_string(), pass: "b".to_string() };
    let b = Client { name: "a".to_string(), pass: "b".to_string() };
    let c = Client { name: "a".to_string(), pass: "c".to_string() };
    assert!(a == b);
    assert!(a != c);
}
