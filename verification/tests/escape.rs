use route_links::Escaped;

#[test]
fn plain_text_is_stored_unchanged() {
    assert_eq!(Escaped::from("foo").as_str(), "foo");
    assert_eq!(Escaped::from("pureascii").as_str(), "pureascii");
    assert_eq!(Escaped::from("A-Z.a_z~09").as_str(), "A-Z.a_z~09");
}

#[test]
fn empty_text_is_stored_empty() {
    assert_eq!(Escaped::from("").as_str(), "");
}

#[test]
fn space_is_escaped() {
    assert_eq!(Escaped::from("a b").as_str(), "a%20b");
    assert_eq!(Escaped::from("this that").as_str(), "this%20that");
}

#[test]
fn reserved_ascii_is_escaped_with_upper_case_digits() {
    assert_eq!(Escaped::from("&a%b!c.d?e").as_str(), "%26a%25b%21c.d%3Fe");
    assert_eq!(Escaped::from("/").as_str(), "%2F");
    assert_eq!(Escaped::from("\u{7f}").as_str(), "%7F");
    assert_eq!(Escaped::from("\0x").as_str(), "%00x");
}

#[test]
fn every_byte_of_a_wide_character_is_escaped() {
    assert_eq!(Escaped::from("\u{203d}").as_str(), "%E2%80%BD");
    assert_eq!(Escaped::from("\u{e9}").as_str(), "%C3%A9");
    assert_eq!(
        Escaped::from("\u{1f47e} Exterminate!").as_str(),
        "%F0%9F%91%BE%20Exterminate%21"
    );
}

#[test]
fn reading_a_segment_does_not_escape_it_again() {
    let seg = Escaped::from("50% off");
    assert_eq!(seg.as_str(), "50%25%20off");
    assert_eq!(seg.as_str(), "50%25%20off");
}

#[test]
fn escaping_twice_gives_another_text() {
    let once = Escaped::from("a b");
    let twice = Escaped::from(once.as_str());
    assert_eq!(twice.as_str(), "a%2520b");
    assert_ne!(once, twice);
    assert!(twice.as_str().len() > once.as_str().len());
}

#[test]
fn escaping_plain_text_twice_changes_nothing() {
    let once = Escaped::from("foo");
    let twice = Escaped::from(once.as_str());
    assert_eq!(once, twice);
}

#[test]
fn escaped_text_is_percent_and_unreserved_only() {
    let seg = Escaped::from("a/b c?d=e&f#g\u{20ac}");
    for c in seg.as_str().chars() {
        assert!(c == '%' || c.is_ascii_alphanumeric() || c == '-' || c == '.' || c == '_' || c == '~');
    }
}

#[test]
fn segments_are_equal_when_their_encoded_text_is() {
    assert_eq!(Escaped::from("a b"), Escaped::from("a b"));
    assert_ne!(Escaped::from("a b"), Escaped::from("a%20b"));
}

#[test]
fn segments_are_ordered_by_their_encoded_text() {
    // ' ' sorts before 'a', but its encoding "%20" sorts before "a" as well,
    // while '~' (kept) sorts after '\u{7f}' encoded as "%7F".
    assert!(Escaped::from("a") < Escaped::from("b"));
    assert!(Escaped::from("\u{7f}") < Escaped::from("~"));
    assert!(Escaped::from("~") > Escaped::from("\u{e9}"));
}
