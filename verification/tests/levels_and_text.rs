use prismer::{copy_cstr, to_cstring, Error, Level};

const LEVELS: [(Level, i32); 6] = [
    (Level::Trace, 0),
    (Level::Debug, 1),
    (Level::Info, 2),
    (Level::Warn, 3),
    (Level::Error, 4),
    (Level::Off, 5),
];

#[test]
fn levels_have_prism_codes() {
    for (level, code) in LEVELS {
        assert_eq!(level.to_raw(), code);
    }
}

#[test]
fn levels_round_trip() {
    for (level, _) in LEVELS {
        assert_eq!(Level::from_raw(level.to_raw()), level);
    }
}

#[test]
fn unknown_level_codes_read_as_off() {
    assert_eq!(Level::from_raw(6), Level::Off);
    assert_eq!(Level::from_raw(-1), Level::Off);
    assert_eq!(Level::from_raw(i32::MAX), Level::Off);
}

#[test]
fn levels_are_ordered_by_severity() {
    assert!(Level::Trace < Level::Debug);
    assert!(Level::Debug < Level::Info);
    assert!(Level::Info < Level::Warn);
    assert!(Level::Warn < Level::Error);
    assert!(Level::Error < Level::Off);
    for (a, ca) in LEVELS {
        for (b, cb) in LEVELS {
            assert_eq!(a < b, ca < cb);
        }
    }
}

#[test]
fn to_cstring_appends_terminator() {
    assert_eq!(to_cstring("Hello"), Ok(b"Hello\0".to_vec()));
    assert_eq!(to_cstring(""), Ok(vec![0]));
    assert_eq!(to_cstring("é"), Ok(vec![0xc3, 0xa9, 0]));
}

#[test]
fn to_cstring_rejects_interior_nul() {
    assert_eq!(to_cstring("a\0b"), Err(Error::InvalidParam));
    assert_eq!(to_cstring("\0"), Err(Error::InvalidParam));
    assert_eq!(to_cstring("end\0"), Err(Error::InvalidParam));
}

#[test]
fn null_copies_as_empty() {
    assert_eq!(copy_cstr(None), "");
}

#[test]
fn copy_cstr_decodes_utf8() {
    assert_eq!(copy_cstr(Some(b"Orca")), "Orca");
    assert_eq!(copy_cstr(Some("Zhengdu 争渡".as_bytes())), "Zhengdu 争渡");
    assert_eq!(copy_cstr(Some(b"")), "");
}

#[test]
fn copy_cstr_replaces_invalid_bytes() {
    assert_eq!(copy_cstr(Some(b"ab\xffc")), "ab\u{fffd}c");
}

#[test]
fn text_round_trips_through_c() {
    let text = "Speech Dispatcher – voix française";
    let bytes = to_cstring(text).unwrap();
    assert_eq!(bytes.last(), Some(&0));
    assert_eq!(copy_cstr(Some(&bytes[..bytes.len() - 1])), text);
}
