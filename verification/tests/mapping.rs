use ditto::bencode::{BenValue, ConversionError};
use ditto::torrent::{Error, ErrorKind, File, Info, Timestamp, Torrent};

fn bytes(s: &str) -> BenValue {
    BenValue::Bytes(s.as_bytes().to_vec())
}

fn list(items: &[&str]) -> BenValue {
    BenValue::List(items.iter().map(|s| bytes(s)).collect())
}

fn dict(entries: Vec<(&str, BenValue)>) -> BenValue {
    BenValue::Dict(entries.into_iter().map(|(k, v)| (k.as_bytes().to_vec(), v)).collect())
}

fn without(d: BenValue, key: &str) -> BenValue {
    match d {
        BenValue::Dict(entries) => {
            BenValue::Dict(entries.into_iter().filter(|(k, _)| k != key.as_bytes()).collect())
        }
        other => other,
    }
}

fn with(d: BenValue, key: &str, v: BenValue) -> BenValue {
    match without(d, key) {
        BenValue::Dict(mut entries) => {
            entries.push((key.as_bytes().to_vec(), v));
            BenValue::Dict(entries)
        }
        other => other,
    }
}

fn pieces() -> Vec<u8> {
    (0u8..40).map(|i| i.wrapping_mul(37).wrapping_add(200)).collect()
}

fn single_info() -> BenValue {
    dict(vec![
        ("length", BenValue::Int(123456)),
        ("name", bytes("ubuntu.iso")),
        ("piece length", BenValue::Int(16384)),
        ("pieces", BenValue::Bytes(pieces())),
    ])
}

fn multi_info() -> BenValue {
    dict(vec![
        (
            "files",
            BenValue::List(vec![
                dict(vec![("length", BenValue::Int(2048)), ("path", list(&["cd1", "track1.flac"]))]),
                dict(vec![
                    ("length", BenValue::Int(1_024_000)),
                    ("md5sum", bytes("d41d8cd98f00b204e9800998ecf8427e")),
                    ("path", list(&["cover.jpg"])),
                ]),
            ]),
        ),
        ("name", bytes("album")),
        ("piece length", BenValue::Int(262144)),
        ("pieces", BenValue::Bytes(pieces())),
    ])
}

fn full_torrent() -> BenValue {
    dict(vec![
        ("announce", bytes("http://tracker.example/announce")),
        ("announce-list", BenValue::List(vec![list(&["http://a/", "http://b/"]), list(&["http://c/"])])),
        ("comment", bytes("hello")),
        ("created by", bytes("mktorrent 1.1")),
        ("creation date", BenValue::Int(1431648000)),
        ("info", multi_info()),
    ])
}

fn minimal_torrent() -> BenValue {
    dict(vec![("info", single_info())])
}

#[test]
fn full_torrent_maps_onto_every_field() {
    let t = Torrent::from_value(&full_torrent()).unwrap();
    assert_eq!(
        t,
        Torrent {
            creation_date: Some(Timestamp { seconds: 1431648000 }),
            announce_list: Some(vec![
                "http://a/".to_string(),
                "http://b/".to_string(),
                "http://c/".to_string()
            ]),
            created_by: Some("mktorrent 1.1".to_string()),
            announce: Some("http://tracker.example/announce".to_string()),
            info: Info {
                name: "album".to_string(),
                pieces: pieces(),
                piece_length: 262144,
                md5sum: None,
                length: None,
                files: Some(vec![
                    File { path: "cd1/track1.flac".to_string(), length: 2048, md5sum: None },
                    File {
                        path: "cover.jpg".to_string(),
                        length: 1_024_000,
                        md5sum: Some("d41d8cd98f00b204e9800998ecf8427e".to_string()),
                    },
                ]),
            },
            comment: Some("hello".to_string()),
        }
    );
}

#[test]
fn minimal_torrent_has_only_its_info() {
    let t = Torrent::from_value(&minimal_torrent()).unwrap();
    assert_eq!(
        t,
        Torrent {
            creation_date: None,
            announce_list: None,
            created_by: None,
            announce: None,
            info: Info {
                name: "ubuntu.iso".to_string(),
                pieces: pieces(),
                piece_length: 16384,
                md5sum: None,
                length: Some(123456),
                files: None,
            },
            comment: None,
        }
    );
}

#[test]
fn absent_optional_fields_are_absent_not_empty() {
    let t = Torrent::from_value(&minimal_torrent()).unwrap();
    assert_eq!(t.comment, None);
    assert_ne!(t.comment, Some(String::new()));
    assert_eq!(t.announce_list, None);
    assert_ne!(t.announce_list, Some(vec![]));
    assert_eq!(t.info.files, None);
    assert_eq!(t.info.md5sum, None);

    let t = Torrent::from_value(&with(minimal_torrent(), "comment", bytes(""))).unwrap();
    assert_eq!(t.comment, Some(String::new()));
    let t = Torrent::from_value(&with(minimal_torrent(), "announce-list", BenValue::List(vec![]))).unwrap();
    assert_eq!(t.announce_list, Some(vec![]));
}

#[test]
fn unknown_keys_are_ignored() {
    let raw = with(full_torrent(), "encoding", bytes("UTF-8"));
    let raw = with(raw, "nodes", BenValue::List(vec![BenValue::Int(1)]));
    let info = with(multi_info(), "private", BenValue::Int(1));
    let raw = with(raw, "info", info);
    assert_eq!(Torrent::from_value(&raw), Torrent::from_value(&full_torrent()));
    assert!(Torrent::from_value(&raw).is_ok());
}

#[test]
fn entry_order_does_not_matter() {
    let reversed = match full_torrent() {
        BenValue::Dict(mut entries) => {
            entries.reverse();
            BenValue::Dict(entries)
        }
        other => other,
    };
    assert_eq!(Torrent::from_value(&reversed), Torrent::from_value(&full_torrent()));
}

#[test]
fn missing_info_fails() {
    let raw = without(full_torrent(), "info");
    assert_eq!(Torrent::from_value(&raw), Err(ConversionError::missing_field("info")));
    assert_eq!(
        Torrent::from_value(&dict(vec![])),
        Err(ConversionError::MissingField("Missing Field: `info`".to_string()))
    );
}

#[test]
fn missing_name_pieces_or_piece_length_fails() {
    for key in ["name", "pieces", "piece length"] {
        let raw = with(full_torrent(), "info", without(multi_info(), key));
        assert_eq!(Torrent::from_value(&raw), Err(ConversionError::missing_field(key)));
        let raw = dict(vec![("info", without(single_info(), key))]);
        assert_eq!(Torrent::from_value(&raw), Err(ConversionError::missing_field(key)));
    }
}

#[test]
fn piece_length_is_read_under_the_key_with_the_space() {
    let info = with(without(single_info(), "piece length"), "piece_length", BenValue::Int(16384));
    let raw = dict(vec![("info", info)]);
    assert_eq!(Torrent::from_value(&raw), Err(ConversionError::missing_field("piece length")));

    let info = with(single_info(), "piece_length", BenValue::Int(1));
    let t = Torrent::from_value(&dict(vec![("info", info)])).unwrap();
    assert_eq!(t.info.piece_length, 16384);
}

#[test]
fn pieces_are_kept_byte_for_byte() {
    let t = Torrent::from_value(&minimal_torrent()).unwrap();
    assert_eq!(t.info.pieces, pieces());

    let odd: Vec<u8> = vec![0xff, 0x00, 0xc3, 0x28, 0x80, 0x0a, 0x7f];
    let info = with(single_info(), "pieces", BenValue::Bytes(odd.clone()));
    let t = Torrent::from_value(&dict(vec![("info", info)])).unwrap();
    assert_eq!(t.info.pieces, odd);

    let info = with(single_info(), "pieces", BenValue::Bytes(vec![]));
    let t = Torrent::from_value(&dict(vec![("info", info)])).unwrap();
    assert_eq!(t.info.pieces, Vec::<u8>::new());

    let all: Vec<u8> = (0..=255).collect();
    let info = with(single_info(), "pieces", BenValue::Bytes(all.clone()));
    let t = Torrent::from_value(&dict(vec![("info", info)])).unwrap();
    assert_eq!(t.info.pieces, all);
}

#[test]
fn both_or_neither_of_length_and_files_are_accepted() {
    let info = with(multi_info(), "length", BenValue::Int(5));
    let t = Torrent::from_value(&dict(vec![("info", info)])).unwrap();
    assert_eq!(t.info.length, Some(5));
    assert_eq!(t.info.files.as_ref().map(|f| f.len()), Some(2));

    let info = without(single_info(), "length");
    let t = Torrent::from_value(&dict(vec![("info", info)])).unwrap();
    assert_eq!(t.info.length, None);
    assert_eq!(t.info.files, None);
}

#[test]
fn values_of_the_wrong_type_fail() {
    let cases: Vec<(&str, BenValue, ConversionError)> = vec![
        ("creation date", bytes("today"), ConversionError::invalid_type("creation date", "integer")),
        ("announce-list", bytes("http://a/"), ConversionError::invalid_type("announce-list", "list")),
        ("created by", BenValue::Int(1), ConversionError::invalid_type("created by", "byte string")),
        ("announce", BenValue::List(vec![]), ConversionError::invalid_type("announce", "byte string")),
        ("info", bytes("info"), ConversionError::invalid_type("info", "dictionary")),
        ("comment", dict(vec![]), ConversionError::invalid_type("comment", "byte string")),
    ];
    for (key, v, expected) in cases {
        assert_eq!(Torrent::from_value(&with(full_torrent(), key, v)), Err(expected));
    }

    let cases: Vec<(&str, BenValue, ConversionError)> = vec![
        ("name", BenValue::Int(1), ConversionError::invalid_type("name", "byte string")),
        ("pieces", BenValue::Int(1), ConversionError::invalid_type("pieces", "byte string")),
        ("piece length", bytes("16384"), ConversionError::invalid_type("piece length", "integer")),
        ("md5sum", BenValue::Int(1), ConversionError::invalid_type("md5sum", "byte string")),
        ("length", bytes("1"), ConversionError::invalid_type("length", "integer")),
        ("files", dict(vec![]), ConversionError::invalid_type("files", "list")),
        ("files", BenValue::List(vec![bytes("f")]), ConversionError::invalid_type("files", "dictionary")),
    ];
    for (key, v, expected) in cases {
        let raw = dict(vec![("info", with(multi_info(), key, v))]);
        assert_eq!(Torrent::from_value(&raw), Err(expected));
    }
}

#[test]
fn text_that_is_no_utf8_fails() {
    let bad = BenValue::Bytes(vec![0xc3, 0x28]);
    for key in ["created by", "announce", "comment"] {
        let raw = with(full_torrent(), key, BenValue::Bytes(vec![0xc3, 0x28]));
        assert_eq!(
            Torrent::from_value(&raw),
            Err(ConversionError::invalid_value(key, "utf-8 string"))
        );
    }
    for key in ["name", "md5sum"] {
        let raw = dict(vec![("info", with(single_info(), key, BenValue::Bytes(vec![0xc3, 0x28])))]);
        assert_eq!(
            Torrent::from_value(&raw),
            Err(ConversionError::invalid_value(key, "utf-8 string"))
        );
    }
    let tiers = BenValue::List(vec![BenValue::List(vec![bad])]);
    assert_eq!(
        Torrent::from_value(&with(full_torrent(), "announce-list", tiers)),
        Err(ConversionError::invalid_value("announce-list", "utf-8 string"))
    );
}

#[test]
fn what_is_no_dictionary_is_no_torrent() {
    let expected = Err(ConversionError::invalid_type("torrent", "dictionary"));
    assert_eq!(Torrent::from_value(&BenValue::Int(1)), expected);
    assert_eq!(Torrent::from_value(&bytes("d4:infoe")), expected);
    assert_eq!(Torrent::from_value(&BenValue::List(vec![minimal_torrent()])), expected);
}

#[test]
fn the_first_field_that_fails_gives_the_error() {
    let raw = with(full_torrent(), "comment", BenValue::Int(1));
    let raw = with(raw, "creation date", bytes("x"));
    let raw = without(raw, "info");
    assert_eq!(
        Torrent::from_value(&raw),
        Err(ConversionError::invalid_type("creation date", "integer"))
    );
    let raw = with(full_torrent(), "comment", BenValue::Int(1));
    let raw = without(raw, "info");
    assert_eq!(Torrent::from_value(&raw), Err(ConversionError::missing_field("info")));

    let info = without(with(single_info(), "length", bytes("x")), "pieces");
    assert_eq!(
        Torrent::from_value(&dict(vec![("info", info)])),
        Err(ConversionError::missing_field("pieces"))
    );
}

#[test]
fn file_entries_are_read_field_by_field() {
    let entry = dict(vec![
        ("length", BenValue::Int(-7)),
        ("md5sum", bytes("abc")),
        ("path", list(&["a", "b", "c.txt"])),
    ]);
    assert_eq!(
        File::from_value(&entry),
        Ok(File { path: "a/b/c.txt".to_string(), length: -7, md5sum: Some("abc".to_string()) })
    );
    assert_eq!(File::from_value(&without(entry, "path")), Err(ConversionError::missing_field("path")));

    let entry = dict(vec![("path", list(&["a"]))]);
    assert_eq!(File::from_value(&entry), Err(ConversionError::missing_field("length")));

    let entry = dict(vec![("length", BenValue::Int(1)), ("path", bytes("a"))]);
    assert_eq!(File::from_value(&entry), Err(ConversionError::invalid_type("path", "list")));

    let entry = dict(vec![
        ("length", BenValue::Int(1)),
        ("path", BenValue::List(vec![BenValue::Bytes(vec![0xff])])),
    ]);
    assert_eq!(File::from_value(&entry), Err(ConversionError::invalid_value("path", "utf-8 string")));

    assert_eq!(
        File::from_value(&BenValue::Int(1)),
        Err(ConversionError::invalid_type("files", "dictionary"))
    );
}

#[test]
fn file_lists_are_read_in_order_and_fail_at_the_first_bad_entry() {
    assert_eq!(File::list_from_value(None), Ok(None));
    assert_eq!(File::list_from_value(Some(&BenValue::List(vec![]))), Ok(Some(vec![])));

    let good = dict(vec![("length", BenValue::Int(1)), ("path", list(&["x"]))]);
    let other = dict(vec![("length", BenValue::Int(2)), ("path", list(&["y", "z"]))]);
    let no_length = dict(vec![("path", list(&["x"]))]);
    let no_path = dict(vec![("length", BenValue::Int(1))]);

    let raw = BenValue::List(vec![good, other, no_length, no_path]);
    assert_eq!(File::list_from_value(Some(&raw)), Err(ConversionError::missing_field("length")));

    let good = dict(vec![("length", BenValue::Int(1)), ("path", list(&["x"]))]);
    let other = dict(vec![("length", BenValue::Int(2)), ("path", list(&["y", "z"]))]);
    let raw = BenValue::List(vec![good, other]);
    assert_eq!(
        File::list_from_value(Some(&raw)),
        Ok(Some(vec![
            File { path: "x".to_string(), length: 1, md5sum: None },
            File { path: "y/z".to_string(), length: 2, md5sum: None },
        ]))
    );
}

#[test]
fn info_is_read_from_its_dictionary() {
    let info = Info::from_value(&with(single_info(), "md5sum", bytes("0f"))).unwrap();
    assert_eq!(info.name, "ubuntu.iso");
    assert_eq!(info.piece_length, 16384);
    assert_eq!(info.length, Some(123456));
    assert_eq!(info.md5sum, Some("0f".to_string()));
    assert_eq!(
        Info::from_value(&BenValue::List(vec![])),
        Err(ConversionError::invalid_type("info", "dictionary"))
    );
}

#[test]
fn conversion_errors_surface_as_decode_failures() {
    let e = Error::from(ConversionError::missing_field("info"));
    assert_eq!(e, Error { kind: ErrorKind::DecodeFailure, msg: "Missing Field: `info`".to_string() });
    let e = Error::from(ConversionError::InvalidType("t".to_string()));
    assert_eq!(e, Error { kind: ErrorKind::DecodeFailure, msg: "t".to_string() });
    let e = Error::from(ConversionError::InvalidValue("v".to_string()));
    assert_eq!(e, Error { kind: ErrorKind::DecodeFailure, msg: "v".to_string() });
}

#[test]
fn error_kinds_have_their_labels() {
    assert_eq!(ErrorKind::IOError.as_str(), "io error");
    assert_eq!(ErrorKind::DecodeFailure.as_str(), "decode failure");
    let e = Error { kind: ErrorKind::IOError, msg: "No such file or directory (os error 2)".to_string() };
    assert_eq!(e.kind, ErrorKind::IOError);
    assert_ne!(e.kind, ErrorKind::DecodeFailure);
    assert!(!e.msg.is_empty());
}
