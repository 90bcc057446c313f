use pulumi_operator::kubernetes::object::SecretData;

fn secret(entries: &[(&str, &[u8])]) -> SecretData {
    SecretData { entries: entries.iter().map(|(k, v)| (k.to_string(), v.to_vec())).collect() }
}

#[test]
fn bytes_are_found_by_key() {
    let data = secret(&[("username", b"alice"), ("password", b"s3cret")]);
    assert_eq!(data.get("password"), Some(b"s3cret".to_vec()));
    assert_eq!(data.get("username"), Some(b"alice".to_vec()));
    assert_eq!(data.get("token"), None);
    assert_eq!(secret(&[]).get("username"), None);
}

#[test]
fn the_first_of_two_entries_under_one_key_counts() {
    let data = secret(&[("k", b"first"), ("k", b"second")]);
    assert_eq!(data.get("k"), Some(b"first".to_vec()));
}

#[test]
fn text_is_decoded_as_utf8() {
    let data = secret(&[("token", "gr\u{fc}n \u{2713}".as_bytes()), ("empty", b"")]);
    assert_eq!(data.get_text("token"), Ok(Some("gr\u{fc}n \u{2713}".to_string())));
    assert_eq!(data.get_text("empty"), Ok(Some(String::new())));
    assert_eq!(data.get_text("absent"), Ok(None));
}

#[test]
fn bytes_that_are_not_utf8_are_refused() {
    let data = secret(&[("token", &[0xff, 0xfe, 0x00]), ("cut", &[0xe2, 0x9c])]);
    assert_eq!(data.get_text("token"), Err(()));
    assert_eq!(data.get_text("cut"), Err(()));
}
