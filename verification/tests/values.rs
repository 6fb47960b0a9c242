use busbind::dates::DateTime;
use busbind::duration::Duration;
use busbind::mpris2::error::ValueKind;
use busbind::mpris2::metadata::{Metadata, MetadataValue};
use busbind::wire::WireValue;

fn dict(entries: Vec<(&str, WireValue)>) -> WireValue {
    WireValue::Dict(
        entries
            .into_iter()
            .map(|(k, v)| (WireValue::Str(k.to_owned()), v))
            .collect(),
    )
}

#[test]
fn decode_primitives_widen() {
    assert_eq!(MetadataValue::from(&WireValue::U8(7)), MetadataValue::UInt(7));
    assert_eq!(MetadataValue::from(&WireValue::U16(7)), MetadataValue::UInt(7));
    assert_eq!(MetadataValue::from(&WireValue::U32(7)), MetadataValue::UInt(7));
    assert_eq!(MetadataValue::from(&WireValue::U64(7)), MetadataValue::UInt(7));
    assert_eq!(MetadataValue::from(&WireValue::I16(-7)), MetadataValue::Int(-7));
    assert_eq!(MetadataValue::from(&WireValue::I32(-7)), MetadataValue::Int(-7));
    assert_eq!(MetadataValue::from(&WireValue::I64(-7)), MetadataValue::Int(-7));
    assert_eq!(MetadataValue::from(&WireValue::Bool(true)), MetadataValue::Bool(true));
    let bits = f64::to_bits(1.5);
    assert_eq!(
        MetadataValue::from(&WireValue::F64Bits(bits)),
        MetadataValue::Double(bits)
    );
}

#[test]
fn decode_strings_and_paths() {
    assert_eq!(
        MetadataValue::from(&WireValue::Str("hello".to_owned())),
        MetadataValue::Str("hello".to_owned())
    );
    assert_eq!(
        MetadataValue::from(&WireValue::ObjectPath("/org/a".to_owned())),
        MetadataValue::Str("/org/a".to_owned())
    );
}

#[test]
fn decode_nested_containers_total() {
    let w = WireValue::Array(vec![
        WireValue::Array(vec![]),
        WireValue::Array(vec![WireValue::U8(1), WireValue::Other]),
        dict(vec![("k", WireValue::Boxed(Box::new(WireValue::I64(-3))))]),
        WireValue::Structure(vec![WireValue::U8(1)]),
    ]);
    let d = MetadataValue::from(&w);
    match d {
        MetadataValue::Array(xs) => {
            assert_eq!(xs.len(), 4);
            assert_eq!(xs[0], MetadataValue::Array(vec![]));
            assert_eq!(
                xs[1],
                MetadataValue::Array(vec![
                    MetadataValue::UInt(1),
                    MetadataValue::__Unsupported
                ])
            );
            assert_eq!(
                xs[2],
                MetadataValue::Dict(vec![("k".to_owned(), MetadataValue::Int(-3))])
            );
            assert_eq!(xs[3], MetadataValue::__Unsupported);
        }
        other => panic!("expected an array, got {:?}", other),
    }
}

#[test]
fn decode_boxed_unwraps_one_level() {
    let w = WireValue::Boxed(Box::new(WireValue::Boxed(Box::new(WireValue::U64(9)))));
    assert_eq!(MetadataValue::from(&w), MetadataValue::UInt(9));
}

#[test]
fn decode_dict_with_non_string_key_is_unsupported() {
    let w = WireValue::Dict(vec![
        (WireValue::Str("ok".to_owned()), WireValue::U8(1)),
        (WireValue::U8(1), WireValue::U8(2)),
    ]);
    assert_eq!(MetadataValue::from(&w), MetadataValue::__Unsupported);
}

#[test]
fn decode_empty_dict_and_other() {
    assert_eq!(
        MetadataValue::from(&WireValue::Dict(vec![])),
        MetadataValue::Dict(vec![])
    );
    assert_eq!(MetadataValue::from(&WireValue::Other), MetadataValue::__Unsupported);
}

#[test]
fn try_into_readings() {
    assert_eq!(
        MetadataValue::Str("a".to_owned()).try_into_string().unwrap(),
        "a".to_owned()
    );
    assert_eq!(MetadataValue::Int(-4).try_into_int().unwrap(), -4);
    assert_eq!(MetadataValue::UInt(4).try_into_uint().unwrap(), 4);
    assert_eq!(MetadataValue::Bool(true).try_into_bool().unwrap(), true);
    let bits = f64::to_bits(0.25);
    assert_eq!(MetadataValue::Double(bits).try_into_double().unwrap(), bits);
    let err = MetadataValue::Int(1).try_into_string().unwrap_err();
    match err {
        busbind::mpris2::error::Error::IncorrectVariant { wanted, actual } => {
            assert_eq!(wanted, ValueKind::Str);
            assert_eq!(actual, ValueKind::Int);
        }
        other => panic!("unexpected error {:?}", other),
    }
    assert_eq!(MetadataValue::Int(1).variant(), ValueKind::Int);
}

#[test]
fn metadata_absent_key_reads_nothing() {
    let mut md = Metadata::new();
    md.insert("xesam:album".to_owned(), MetadataValue::Str("A".to_owned()));
    assert_eq!(md.title(), None);
    assert_eq!(md.artists(), None);
    assert_eq!(md.lyrics(), None);
    assert_eq!(md.album_artists(), None);
    assert_eq!(md.bpm(), None);
    assert_eq!(md.auto_rating(), None);
    assert_eq!(md.composer(), None);
    assert_eq!(md.created(), None);
    assert_eq!(md.disc_number(), None);
    assert_eq!(md.first_played(), None);
    assert_eq!(md.genre(), None);
    assert_eq!(md.last_played(), None);
    assert_eq!(md.lyricist(), None);
    assert_eq!(md.track_number(), None);
    assert_eq!(md.url(), None);
    assert_eq!(md.use_count(), None);
    assert_eq!(md.user_rating(), None);
    assert!(md.track_id().is_none());
    assert_eq!(md.length(), None);
    assert_eq!(md.art_url(), None);
    assert_eq!(md.album(), Some("A".to_owned()));
}

#[test]
fn metadata_wrong_shape_reads_nothing() {
    let mut md = Metadata::new();
    md.insert("xesam:title".to_owned(), MetadataValue::UInt(3));
    md.insert("xesam:audioBPM".to_owned(), MetadataValue::Str("x".to_owned()));
    md.insert("xesam:artist".to_owned(), MetadataValue::Bool(false));
    assert_eq!(md.title(), None);
    assert_eq!(md.bpm(), None);
    assert_eq!(md.artists(), None);
}

#[test]
fn metadata_typed_readings() {
    let mut md = Metadata::new();
    md.insert("xesam:title".to_owned(), MetadataValue::Str("Song".to_owned()));
    md.insert(
        "xesam:artist".to_owned(),
        MetadataValue::Array(vec![
            MetadataValue::Str("Ann".to_owned()),
            MetadataValue::UInt(4),
            MetadataValue::Str("Ben".to_owned()),
        ]),
    );
    md.insert("xesam:audioBPM".to_owned(), MetadataValue::UInt(128));
    let bits = f64::to_bits(0.75);
    md.insert("xesam:autoRating".to_owned(), MetadataValue::Double(bits));
    md.insert(
        "mpris:trackid".to_owned(),
        MetadataValue::Str("/org/mpris/tracks/t1".to_owned()),
    );
    assert_eq!(md.title(), Some("Song".to_owned()));
    assert_eq!(md.artists(), Some(vec!["Ann".to_owned(), "Ben".to_owned()]));
    assert_eq!(md.bpm(), Some(128));
    let rating = md.auto_rating().unwrap();
    assert_eq!(f64::from_bits(rating), 0.75);
    assert_eq!(md.track_id().unwrap().as_str(), "/org/mpris/tracks/t1");
}

#[test]
fn metadata_later_entry_shadows_earlier() {
    let mut md = Metadata::new();
    md.insert("xesam:title".to_owned(), MetadataValue::Str("Old".to_owned()));
    md.insert("xesam:title".to_owned(), MetadataValue::Str("New".to_owned()));
    assert_eq!(md.title(), Some("New".to_owned()));
}

#[test]
fn metadata_from_wire_decodes_values() {
    let md = Metadata::from(vec![
        ("xesam:title".to_owned(), WireValue::Str("Song".to_owned())),
        ("xesam:useCount".to_owned(), WireValue::U32(3)),
    ]);
    assert_eq!(md.len(), 2);
    assert_eq!(md.title(), Some("Song".to_owned()));
    assert_eq!(md.use_count(), Some(3));
}

#[test]
fn length_coercion_equivalence() {
    let mut from_str = Metadata::new();
    from_str.insert(
        "mpris:length".to_owned(),
        MetadataValue::Str("120000000".to_owned()),
    );
    let mut from_int = Metadata::new();
    from_int.insert("mpris:length".to_owned(), MetadataValue::Int(120_000_000));
    let mut from_uint = Metadata::new();
    from_uint.insert("mpris:length".to_owned(), MetadataValue::UInt(120_000_000));
    let a = from_str.length().unwrap();
    let b = from_int.length().unwrap();
    let c = from_uint.length().unwrap();
    assert_eq!(a, b);
    assert_eq!(b, c);
    assert_eq!(a.whole_seconds(), 120);
    assert_eq!(a.whole_microseconds(), 120_000_000);
}

#[test]
fn length_bad_text_reads_nothing() {
    let mut md = Metadata::new();
    md.insert("mpris:length".to_owned(), MetadataValue::Str("12x".to_owned()));
    assert_eq!(md.length(), None);
}

#[test]
fn date_readings_accept_only_valid_timestamps() {
    let mut md = Metadata::new();
    md.insert(
        "xesam:contentCreated".to_owned(),
        MetadataValue::Str("2007-04-05T14:30:00Z".to_owned()),
    );
    md.insert(
        "xesam:firstUsed".to_owned(),
        MetadataValue::Str("not a date".to_owned()),
    );
    assert_eq!(
        md.created(),
        Some(DateTime {
            unix_nanos: 1_175_783_400_000_000_000,
        })
    );
    assert_eq!(md.first_played(), None);
    let parsed = MetadataValue::Str("2007-04-05T14:30:00Z".to_owned())
        .try_into_date()
        .unwrap();
    assert_eq!(parsed.unix_nanos, 1_175_783_400_000_000_000);
    assert!(MetadataValue::UInt(3).try_into_date().is_err());
}

#[test]
fn duration_whole_seconds_truncates_towards_zero() {
    assert_eq!(Duration::microseconds(1_999_999).whole_seconds(), 1);
    assert_eq!(Duration::microseconds(-1_999_999).whole_seconds(), -1);
    assert_eq!(Duration::microseconds(0).whole_seconds(), 0);
    assert_eq!(Duration::microseconds(i64::MIN).whole_seconds(), i64::MIN / 1_000_000);
}
