use decadog::secret::Secret;

#[test]
fn test_something() {}

#[test]
fn test_format() {
    let secret = Secret::new("secret_value".to_owned());
    assert_eq!(secret.masked(), "sec***");
    assert_eq!(secret.debug_text(), "Secret { value: sec*** }");
}

#[test]
fn secret_value_and_hint() {
    let secret = Secret::new("tok€n".to_owned());
    assert_eq!(secret.value(), "tok€n");
    assert_eq!(secret.hint(), "tok");
    let short = Secret::new("abc".to_owned());
    assert_eq!(short.masked(), "abc***");
}

#[test]
fn secret_hint_is_first_three_bytes() {
    let euro = Secret::new("€€€x".to_owned());
    assert_eq!(euro.hint(), "€");
    assert_eq!(euro.hint(), &"€€€x"[..3]);
    assert_eq!(euro.masked(), "€***");
    let a = Secret::new("€abc".to_owned());
    let c = Secret::new("€cde".to_owned());
    assert_eq!(a.masked(), "€***");
    assert_eq!(a.masked(), c.masked());
    assert_eq!(a.debug_text(), c.debug_text());
    let mixed = Secret::new("aé-z".to_owned());
    assert_eq!(mixed.hint(), &"aé-z"[..3]);
    assert_eq!(mixed.hint(), "aé");
}
