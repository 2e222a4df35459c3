use hapi::fs::error::Error;
use hapi::fs::fslabel::FsLabel;

#[test]
fn extract_lower_case_label() {
    let l = FsLabel::extract_from_path("a:/hello.txt").unwrap();
    assert_eq!(l, FsLabel::A);
}

#[test]
fn extract_upper_case_label() {
    let l = FsLabel::extract_from_path("B:/hello.txt").unwrap();
    assert_eq!(l, FsLabel::B);
}

#[test]
fn extract_label_without_slash() {
    let l = FsLabel::extract_from_path("z:stuff").unwrap();
    assert_eq!(l, FsLabel::Z);
}

#[test]
fn extract_rejects_path_without_colon() {
    let e = FsLabel::extract_from_path("no-label-here").unwrap_err();
    assert!(matches!(e, Error::NoFsLabel(p) if p == "no-label-here"));
}

#[test]
fn extract_rejects_empty_path() {
    let e = FsLabel::extract_from_path("").unwrap_err();
    assert!(matches!(e, Error::NoFsLabel(_)));
}

#[test]
fn extract_rejects_leading_colon() {
    let e = FsLabel::extract_from_path(":/x").unwrap_err();
    assert!(matches!(e, Error::NotAFsLabel(p) if p == ":"));
}

#[test]
fn extract_rejects_digit_label() {
    let e = FsLabel::extract_from_path("1:/x").unwrap_err();
    assert!(matches!(e, Error::NotAFsLabel(p) if p == "1"));
}

#[test]
fn from_str_both_cases() {
    assert_eq!(FsLabel::from_str("a").unwrap(), FsLabel::A);
    assert_eq!(FsLabel::from_str("Q").unwrap(), FsLabel::Q);
    assert_eq!(FsLabel::from_str("z").unwrap(), FsLabel::Z);
}

#[test]
fn from_str_rejects_long_and_empty() {
    assert!(matches!(FsLabel::from_str("aa"), Err(Error::NotAFsLabel(p)) if p == "aa"));
    assert!(matches!(FsLabel::from_str(""), Err(Error::NotAFsLabel(_))));
    assert!(matches!(FsLabel::from_str("!"), Err(Error::NotAFsLabel(_))));
}

#[test]
fn label_to_byte_is_lower_case_letter() {
    assert_eq!(FsLabel::A.to_byte(), b'a');
    assert_eq!(FsLabel::M.to_byte(), b'm');
    assert_eq!(FsLabel::Z.to_byte(), b'z');
}

#[test]
fn label_name_is_upper_case_letter() {
    assert_eq!(FsLabel::A.name(), "A");
    assert_eq!(FsLabel::Z.name(), "Z");
}

#[test]
fn every_label_round_trips() {
    let labels = [
        (FsLabel::A, 'a'),
        (FsLabel::B, 'b'),
        (FsLabel::C, 'c'),
        (FsLabel::D, 'd'),
        (FsLabel::E, 'e'),
        (FsLabel::F, 'f'),
        (FsLabel::G, 'g'),
        (FsLabel::H, 'h'),
        (FsLabel::I, 'i'),
        (FsLabel::J, 'j'),
        (FsLabel::K, 'k'),
        (FsLabel::L, 'l'),
        (FsLabel::M, 'm'),
        (FsLabel::N, 'n'),
        (FsLabel::O, 'o'),
        (FsLabel::P, 'p'),
        (FsLabel::Q, 'q'),
        (FsLabel::R, 'r'),
        (FsLabel::S, 's'),
        (FsLabel::T, 't'),
        (FsLabel::U, 'u'),
        (FsLabel::V, 'v'),
        (FsLabel::W, 'w'),
        (FsLabel::X, 'x'),
        (FsLabel::Y, 'y'),
        (FsLabel::Z, 'z'),
    ];
    for (label, ch) in labels {
        assert_eq!(label.to_byte(), ch as u8);
        assert_eq!(FsLabel::from_str(&ch.to_string()).unwrap(), label);
        assert_eq!(
            FsLabel::from_str(&ch.to_ascii_uppercase().to_string()).unwrap(),
            label
        );
        assert_eq!(label.name(), ch.to_ascii_uppercase().to_string());
        let path = format!("{}:/x", ch);
        assert_eq!(FsLabel::extract_from_path(&path).unwrap(), label);
    }
}
