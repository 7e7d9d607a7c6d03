use dualoj_judge::id::ID;
use dualoj_judge::registry::{Param, RegistryParam};
use dualoj_judge::text::{push_decimal, push_signed_decimal};

#[test]
fn decimal_text() {
    let mut s = String::from("n=");
    push_decimal(&mut s, 0);
    assert_eq!(s, "n=0");
    let mut s = String::new();
    push_decimal(&mut s, 1048576);
    assert_eq!(s, "1048576");
    let mut s = String::new();
    push_decimal(&mut s, u64::MAX);
    assert_eq!(s, "18446744073709551615");
    let mut s = String::new();
    push_signed_decimal(&mut s, -137);
    assert_eq!(s, "-137");
    let mut s = String::new();
    push_signed_decimal(&mut s, i32::MIN);
    assert_eq!(s, "-2147483648");
}

fn is_hyphenated_lower_hex(s: &str) -> bool {
    s.len() == 36
        && s.chars().enumerate().all(|(i, c)| {
            if i == 8 || i == 13 || i == 18 || i == 23 {
                c == '-'
            } else {
                c.is_ascii_digit() || ('a'..='f').contains(&c)
            }
        })
}

#[test]
fn roll_gives_random_version_four_ids() {
    let a = ID::roll();
    let b = ID::roll();
    assert!(is_hyphenated_lower_hex(&a.content));
    assert_eq!(a.content.as_bytes()[14], b'4');
    assert!(matches!(a.content.as_bytes()[19], b'8' | b'9' | b'a' | b'b'));
    assert_ne!(a.content, b.content);
}

#[test]
fn roll_hash_is_the_url_namespace_v5_uuid() {
    assert_eq!(ID::roll_hash(b"hello").content, "074171de-bc84-5ea4-b636-1135477620e1");
    assert_eq!(ID::roll_hash(b"").content, "1b4db7eb-4057-5ddf-91e0-36dec72071f5");
    assert_eq!(ID::roll_hash(b"hello").content, ID::roll_hash(b"hello").content);
    assert_ne!(ID::roll_hash(b"hello").content, ID::roll_hash(b"hello!").content);
}

#[test]
fn id_from_bytes_and_slices() {
    let bytes: [u8; 16] = [
        0x55, 0x0e, 0x84, 0x00, 0xe2, 0x9b, 0x41, 0xd4, 0xa7, 0x16, 0x44, 0x66, 0x55, 0x44, 0x00, 0x00,
    ];
    assert_eq!(ID::from_bytes(bytes).content, "550e8400-e29b-41d4-a716-446655440000");
    match ID::from_slice(&bytes) {
        Ok(id) => assert_eq!(id.content, "550e8400-e29b-41d4-a716-446655440000"),
        Err(_) => panic!("16 bytes are a UUID"),
    }
    match ID::from_slice(&bytes[..3]) {
        Ok(_) => panic!("3 bytes are no UUID"),
        Err(m) => assert_eq!(m, "invalid length: expected 16 bytes, found 3"),
    }
    assert_eq!(ID::parse_bytes("550e8400-e29b-41d4-a716-446655440000").ok(), Some(bytes));
    assert!(ID::parse_bytes("not a uuid").is_err());
}

#[test]
fn id_from_string_and_back() {
    let id = ID::from(String::from("abc"));
    assert_eq!(id.content, "abc");
    assert_eq!(id.to_string(), "abc");
}

#[test]
fn registry_urls() {
    let p = Param {
        push_url: String::from("registry.local:5000"),
        pull_url: String::from("localhost:5000"),
        username: String::from("build"),
    };
    assert_eq!(p.push_url("abc"), "registry.local:5000/build/abc");
    assert_eq!(p.pull_url("abc"), "localhost:5000/build/abc");
    let r = RegistryParam { url: String::from("localhost"), username: String::from("build") };
    assert_eq!(r.get_image_url("x-y"), "localhost/build/x-y");
    assert_eq!(r.get_latest_image_url("x-y"), "localhost/build/x-y:latest");
}
