use serdeio::{dispatch, dispatch_extension, resolve, Cardinality, DataFormat, Error};

const CONCRETE: [DataFormat; 6] = [
    DataFormat::Json,
    DataFormat::JsonLines,
    DataFormat::Csv,
    DataFormat::Yaml,
    DataFormat::MessagePack,
    DataFormat::Toml,
];

#[test]
fn cardinality_table() {
    let one = [true, false, false, true, true, true];
    let many = [true, true, true, true, true, false];
    for ((f, single), list) in CONCRETE.iter().zip(one).zip(many) {
        assert_eq!(f.supports(Cardinality::One), single, "{:?}", f);
        assert_eq!(f.supports(Cardinality::Many), list, "{:?}", f);
    }
    assert!(!DataFormat::Auto.supports(Cardinality::One));
    assert!(!DataFormat::Auto.supports(Cardinality::Many));
}

#[test]
fn explicit_format_wins_over_extension() {
    assert_eq!(resolve(DataFormat::Json, Some("users.yaml")).unwrap(), DataFormat::Json);
    assert_eq!(resolve(DataFormat::Csv, Some("README")).unwrap(), DataFormat::Csv);
    assert_eq!(resolve(DataFormat::Toml, None).unwrap(), DataFormat::Toml);
    assert_eq!(
        dispatch(DataFormat::Yaml, Some("data.bin"), Cardinality::One).unwrap(),
        DataFormat::Yaml
    );
}

#[test]
fn auto_takes_the_extension() {
    assert_eq!(resolve(DataFormat::Auto, Some("a/b.JSL")).unwrap(), DataFormat::JsonLines);
    assert_eq!(
        dispatch(DataFormat::Auto, Some("rows.csv"), Cardinality::Many).unwrap(),
        DataFormat::Csv
    );
}

#[test]
fn auto_without_path_is_refused_for_every_operation() {
    for mode in [Cardinality::One, Cardinality::Many] {
        assert!(matches!(
            dispatch(DataFormat::Auto, None, mode),
            Err(Error::AutoNotSupported)
        ));
    }
    assert!(matches!(resolve(DataFormat::Auto, None), Err(Error::AutoNotSupported)));
}

#[test]
fn single_record_on_multi_only_formats_is_unsupported() {
    for f in [DataFormat::JsonLines, DataFormat::Csv] {
        match dispatch(f, None, Cardinality::One) {
            Err(Error::UnsupportedFormat(g)) => assert_eq!(g, f),
            other => panic!("unexpected result: {:?}", other),
        }
        assert_eq!(dispatch(f, None, Cardinality::Many).unwrap(), f);
    }
}

#[test]
fn single_record_through_auto_on_a_csv_path_is_unsupported() {
    match dispatch(DataFormat::Auto, Some("rows.CSV"), Cardinality::One) {
        Err(Error::UnsupportedFormat(g)) => assert_eq!(g, DataFormat::Csv),
        other => panic!("unexpected result: {:?}", other),
    }
}

#[test]
fn every_format_but_toml_reads_lists() {
    for f in CONCRETE {
        if f == DataFormat::Toml {
            continue;
        }
        assert_eq!(dispatch(f, None, Cardinality::Many).unwrap(), f);
    }
}

#[test]
fn toml_lists_are_unsupported() {
    assert!(matches!(
        dispatch(DataFormat::Auto, Some("config.toml"), Cardinality::Many),
        Err(Error::UnsupportedFormat(DataFormat::Toml))
    ));
    assert_eq!(
        dispatch(DataFormat::Auto, Some("config.toml"), Cardinality::One).unwrap(),
        DataFormat::Toml
    );
}

#[test]
fn auto_on_a_path_without_extension() {
    assert!(matches!(
        dispatch(DataFormat::Auto, Some("data"), Cardinality::One),
        Err(Error::NoExtension(p)) if p == "data"
    ));
}

#[test]
fn dispatch_on_a_taken_extension() {
    assert!(matches!(
        dispatch_extension(DataFormat::Auto, "odd.\u{FFFD}", Some(None), Cardinality::Many),
        Err(Error::InvalidExtension(p)) if p == "odd.\u{FFFD}"
    ));
    assert!(matches!(
        dispatch_extension(DataFormat::Auto, "a.JSONL", Some(Some("JSONL".to_string())), Cardinality::One),
        Err(Error::UnsupportedFormat(DataFormat::JsonLines))
    ));
    assert_eq!(
        dispatch_extension(DataFormat::Auto, "a.yml", Some(Some("yml".to_string())), Cardinality::One)
            .unwrap(),
        DataFormat::Yaml
    );
    assert_eq!(
        dispatch_extension(DataFormat::Csv, "a", None, Cardinality::Many).unwrap(),
        DataFormat::Csv
    );
    assert!(matches!(
        dispatch_extension(DataFormat::Auto, "a", None, Cardinality::Many),
        Err(Error::NoExtension(p)) if p == "a"
    ));
}

#[test]
fn resolution_errors_pass_through_dispatch() {
    assert!(matches!(
        dispatch(DataFormat::Auto, Some("noext"), Cardinality::Many),
        Err(Error::NoExtension(p)) if p == "noext"
    ));
    assert!(matches!(
        dispatch(DataFormat::Auto, Some("x.auto"), Cardinality::Many),
        Err(Error::UnknownFormat(e)) if e == "auto"
    ));
}

#[test]
fn codec_failures_keep_format_direction_and_native_error() {
    let native = serde_json::from_slice::<serde_json::Value>(b"{").unwrap_err();
    let outcome: Result<u8, serdeio::CodecError> = Err(serdeio::CodecError::Json(native));
    match serdeio::codec_outcome(DataFormat::JsonLines, serdeio::Direction::Decode, outcome) {
        Err(Error::Codec { format, direction, source: serdeio::CodecError::Json(e) }) => {
            assert_eq!(format, DataFormat::JsonLines);
            assert_eq!(direction, serdeio::Direction::Decode);
            assert!(e.is_eof());
        }
        other => panic!("unexpected result: {:?}", other),
    }
    let ok: Result<u8, serdeio::CodecError> = Ok(7);
    assert_eq!(
        serdeio::codec_outcome(DataFormat::Csv, serdeio::Direction::Encode, ok).unwrap(),
        7
    );
}

#[test]
fn io_failures_become_io_errors() {
    let failed: Result<(), std::io::Error> =
        Err(std::io::Error::new(std::io::ErrorKind::NotFound, "missing"));
    match serdeio::io_outcome(failed) {
        Err(Error::Io(e)) => assert_eq!(e.kind(), std::io::ErrorKind::NotFound),
        other => panic!("unexpected result: {:?}", other),
    }
    assert_eq!(serdeio::io_outcome(Ok::<u8, std::io::Error>(3)).unwrap(), 3);
}
