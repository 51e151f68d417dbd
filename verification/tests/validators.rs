use webadmin::validate::{check_str, Validator};

#[test]
fn required_asks_for_a_character() {
    assert!(Validator::Required.accepts_str("x"));
    assert!(Validator::Required.accepts_str(" "));
    assert!(!Validator::Required.accepts_str(""));
}

#[test]
fn socket_addresses() {
    let v = Validator::IsSocketAddr;
    assert!(v.accepts_str("0.0.0.0:25"));
    assert!(v.accepts_str("192.168.1.10:8080"));
    assert!(v.accepts_str("255.255.255.255:65535"));
    assert!(v.accepts_str("[::]:25"));
    assert!(v.accepts_str("[::1]:443"));
    assert!(v.accepts_str("[2001:db8::1]:993"));
    assert!(v.accepts_str("[1:2:3:4:5:6:7:8]:1"));
    assert!(!v.accepts_str("bad-address"));
    assert!(!v.accepts_str(" 0.0.0.0:25 "));
    assert!(!v.accepts_str("0.0.0.0"));
    assert!(!v.accepts_str("0.0.0.0:"));
    assert!(!v.accepts_str("0.0.0.0:65536"));
    assert!(!v.accepts_str("256.0.0.1:25"));
    assert!(!v.accepts_str("01.2.3.4:25"));
    assert!(!v.accepts_str("1.2.3:25"));
    assert!(!v.accepts_str("1.2.3.4.5:25"));
    assert!(!v.accepts_str("::1:25"));
    assert!(!v.accepts_str("[::1]"));
    assert!(!v.accepts_str("[1:2:3:4:5:6:7:8:9]:1"));
    assert!(!v.accepts_str("[1:::2]:1"));
    assert!(!v.accepts_str("[12345::]:1"));
    assert!(!v.accepts_str("[g::]:1"));
    assert!(!v.accepts_str(""));
}

#[test]
fn addresses_and_networks() {
    let v = Validator::IsIpOrMask;
    assert!(v.accepts_str("10.0.0.1"));
    assert!(v.accepts_str("10.0.0.0/8"));
    assert!(v.accepts_str("10.0.0.0/32"));
    assert!(v.accepts_str("::1"));
    assert!(v.accepts_str("fe80::/10"));
    assert!(v.accepts_str("2001:db8::/128"));
    assert!(!v.accepts_str("10.0.0.0/33"));
    assert!(!v.accepts_str("10.0.0.0/"));
    assert!(!v.accepts_str("fe80::/129"));
    assert!(!v.accepts_str("10.0.0/8"));
    assert!(!v.accepts_str("localhost"));
}

#[test]
fn web_addresses() {
    let v = Validator::IsUrl;
    assert!(v.accepts_str("https://mail.example.org"));
    assert!(v.accepts_str("http://localhost:8080/path"));
    assert!(!v.accepts_str("https://"));
    assert!(!v.accepts_str("http://"));
    assert!(!v.accepts_str("ftp://example.org"));
    assert!(!v.accepts_str("mail.example.org"));
    assert!(!v.accepts_str("https://mail example.org"));
    assert!(!v.accepts_str(""));
}

#[test]
fn mail_addresses() {
    let v = Validator::IsEmail;
    assert!(v.accepts_str("john.doe@example.org"));
    assert!(v.accepts_str("a@b.c"));
    assert!(!v.accepts_str("john.doe"));
    assert!(!v.accepts_str("@example.org"));
    assert!(!v.accepts_str("john@example"));
    assert!(!v.accepts_str("john@.org"));
    assert!(!v.accepts_str("john@example."));
    assert!(!v.accepts_str("john@doe@example.org"));
    assert!(!v.accepts_str("john doe@example.org"));
}

#[test]
fn lengths_count_characters() {
    assert!(Validator::MinLength(3).accepts_str("abc"));
    assert!(!Validator::MinLength(3).accepts_str("ab"));
    assert!(Validator::MaxLength(3).accepts_str("abc"));
    assert!(!Validator::MaxLength(3).accepts_str("abcd"));
    assert!(Validator::MaxLength(2).accepts_str("\u{e4}\u{f6}"));
}

#[test]
fn values_are_whole_numbers_within_bounds() {
    assert!(Validator::MinValue(1).accepts_str("1"));
    assert!(Validator::MinValue(1).accepts_str("1024"));
    assert!(!Validator::MinValue(1).accepts_str("0"));
    assert!(!Validator::MinValue(1).accepts_str("-5"));
    assert!(Validator::MinValue(-5).accepts_str("-5"));
    assert!(Validator::MaxValue(255).accepts_str("255"));
    assert!(Validator::MaxValue(255).accepts_str("-1"));
    assert!(!Validator::MaxValue(255).accepts_str("256"));
    assert!(!Validator::MaxValue(255).accepts_str("abc"));
    assert!(!Validator::MinValue(0).accepts_str("1.5"));
    assert!(!Validator::MinValue(0).accepts_str("-"));
    assert!(Validator::MinValue(0).accepts_str("999999999999999999"));
    assert!(!Validator::MinValue(0).accepts_str("1000000000000000000"));
}

#[test]
fn the_first_validator_that_fails_is_the_error() {
    let vs = vec![Validator::MinLength(3), Validator::IsUrl, Validator::MaxLength(5)];
    assert_eq!(check_str(&vs, "ab"), Some(Validator::MinLength(3)));
    assert_eq!(check_str(&vs, "abcdefgh"), Some(Validator::IsUrl));
    assert_eq!(check_str(&vs, "http://example.org"), Some(Validator::MaxLength(5)));
    let ok = vec![Validator::Required, Validator::IsUrl];
    assert_eq!(check_str(&ok, "http://example.org"), None);
}

#[test]
fn only_required_objects_to_an_empty_value() {
    assert_eq!(check_str(&vec![Validator::IsUrl], ""), None);
    assert_eq!(check_str(&vec![Validator::MinLength(3), Validator::IsEmail], ""), None);
    assert_eq!(check_str(&vec![Validator::IsUrl, Validator::Required], ""), Some(Validator::Required));
    assert_eq!(check_str(&Vec::new(), ""), None);
}

#[test]
fn each_validator_is_the_error_where_it_fails() {
    let cases = [
        (Validator::Required, ""),
        (Validator::IsEmail, "nobody"),
        (Validator::IsUrl, "nowhere"),
        (Validator::IsSocketAddr, "nothing"),
        (Validator::IsIpOrMask, "10.0.0.256"),
        (Validator::MinLength(4), "abc"),
        (Validator::MaxLength(2), "abc"),
        (Validator::MinValue(10), "9"),
        (Validator::MaxValue(10), "11"),
    ];
    for (validator, input) in cases {
        assert_eq!(check_str(&vec![validator], input), Some(validator));
        assert_eq!(check_str(&vec![Validator::MinLength(0), validator], input), Some(validator));
    }
}
