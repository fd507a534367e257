use cea608_to_tt::format::{input_format, input_media_type, Format};

#[test]
fn media_type_of_each_format() {
    assert_eq!(Format::Vtt.media_type(), "application/x-subtitle-vtt");
    assert_eq!(Format::Srt.media_type(), "application/x-subtitle");
    assert_eq!(Format::Raw.media_type(), "text/x-raw");
}

#[test]
fn only_raw_text_names_an_encoding() {
    assert_eq!(Format::Raw.encoding(), Some("utf8"));
    assert_eq!(Format::Vtt.encoding(), None);
    assert_eq!(Format::Srt.encoding(), None);
}

#[test]
fn format_from_media_type() {
    assert_eq!(Format::from_media_type("application/x-subtitle-vtt"), Some(Format::Vtt));
    assert_eq!(Format::from_media_type("application/x-subtitle"), Some(Format::Srt));
    assert_eq!(Format::from_media_type("text/x-raw"), Some(Format::Raw));
}

#[test]
fn unknown_media_type_selects_nothing() {
    assert_eq!(Format::from_media_type(""), None);
    assert_eq!(Format::from_media_type("text/x-ra"), None);
    assert_eq!(Format::from_media_type("text/x-raww"), None);
    assert_eq!(Format::from_media_type("application/x-subtitle-vt"), None);
    assert_eq!(Format::from_media_type("Application/x-subtitle"), None);
    assert_eq!(Format::from_media_type("closedcaption/x-cea-608"), None);
}

#[test]
fn media_type_selects_its_own_format() {
    for format in [Format::Srt, Format::Vtt, Format::Raw] {
        assert_eq!(Format::from_media_type(format.media_type()), Some(format));
    }
}

#[test]
fn only_vtt_has_a_header() {
    assert!(Format::Vtt.has_header());
    assert!(!Format::Srt.has_header());
    assert!(!Format::Raw.has_header());
}

#[test]
fn input_is_raw_cea608() {
    assert_eq!(input_media_type(), "closedcaption/x-cea-608");
    assert_eq!(input_format(), "raw");
}
