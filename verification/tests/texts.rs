use vultr::request::collection_address;
use vultr::request::item_address;
use vultr::request::part_address;
use vultr::request::part_item_address;
use vultr::text::decimal_string;
use vultr::text::dnssec_string;
use vultr::text::flag_string;
use vultr::VultrBody;

#[test]
fn decimal_numerals() {
    assert_eq!(decimal_string(0), "0");
    assert_eq!(decimal_string(7), "7");
    assert_eq!(decimal_string(9), "9");
    assert_eq!(decimal_string(10), "10");
    assert_eq!(decimal_string(42), "42");
    assert_eq!(decimal_string(100), "100");
    assert_eq!(decimal_string(1234567890), "1234567890");
    assert_eq!(decimal_string(4294967295), "4294967295");
}

#[test]
fn decimal_numerals_agree_with_std() {
    let mut n: u32 = 1;
    for _ in 0..200 {
        assert_eq!(decimal_string(n), n.to_string());
        n = n.wrapping_mul(7919).wrapping_add(13);
    }
}

#[test]
fn flag_words() {
    assert_eq!(flag_string(true), "true");
    assert_eq!(flag_string(false), "false");
}

#[test]
fn dnssec_words() {
    assert_eq!(dnssec_string(true), "enabled");
    assert_eq!(dnssec_string(false), "disabled");
}

#[test]
fn addresses() {
    assert_eq!(collection_address("domains"), "https://api.vultr.com/v2/domains");
    assert_eq!(item_address("domains", "example.com"), "https://api.vultr.com/v2/domains/example.com");
    assert_eq!(
        part_address("domains", "example.com", "records"),
        "https://api.vultr.com/v2/domains/example.com/records"
    );
    assert_eq!(
        part_item_address("domains", "example.com", "records", "r1"),
        "https://api.vultr.com/v2/domains/example.com/records/r1"
    );
    assert_eq!(item_address("ssh-keys", ""), "https://api.vultr.com/v2/ssh-keys/");
}

#[test]
fn empty_body() {
    let body = VultrBody::new();
    assert_eq!(body.len(), 0);
    assert_eq!(body.get("name"), None);
    assert!(!body.contains("name"));
    assert!(body.entries().is_empty());
}

#[test]
fn body_insert_adds_a_field() {
    let mut body = VultrBody::new();
    body.insert("name", String::from("www"));
    body.insert("data", String::from("10.0.0.8"));
    assert_eq!(body.len(), 2);
    assert_eq!(body.get("name"), Some(String::from("www")));
    assert_eq!(body.get("data"), Some(String::from("10.0.0.8")));
    assert_eq!(body.get("ttl"), None);
    assert!(body.contains("name"));
    assert!(!body.contains("nam"));
    assert!(!body.contains("name "));
}

#[test]
fn body_insert_replaces_an_earlier_value() {
    let mut body = VultrBody::new();
    body.insert("name", String::from("www"));
    body.insert("data", String::from("10.0.0.8"));
    body.insert("name", String::from("mail"));
    assert_eq!(body.len(), 2);
    assert_eq!(body.get("name"), Some(String::from("mail")));
    assert_eq!(body.get("data"), Some(String::from("10.0.0.8")));
    let mut entries = body.entries();
    entries.sort();
    assert_eq!(
        entries,
        vec![
            (String::from("data"), String::from("10.0.0.8")),
            (String::from("name"), String::from("mail")),
        ]
    );
}

#[test]
fn body_keeps_an_empty_value() {
    let mut body = VultrBody::new();
    body.insert("tag", String::new());
    assert_eq!(body.get("tag"), Some(String::new()));
    assert!(body.contains("tag"));
    assert_eq!(body.len(), 1);
}
