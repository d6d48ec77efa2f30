use audiobook_tagger::chapters::{Chapter, ChapterList};
use audiobook_tagger::probe::wrap_millis;
use audiobook_tagger::tags::TagFields;
use audiobook_tagger::Error;

const TWO_CHAPTERS: &str = r#"{"chapters":[{"tags":{"title":"One"},"start":0,"end":1000},{"tags":{"title":"Two"},"start":1000,"end":2000}]}"#;

fn tag(title: Option<&str>, artist: Option<&str>) -> TagFields {
    let mut tag = TagFields::new();
    tag.title = title.map(|t| t.to_string());
    tag.artist = artist.map(|a| a.to_string());
    tag.album = Some("Album".to_string());
    tag.composer = Some("Narrator".to_string());
    tag
}

fn extract(text: &str) -> Result<ChapterList, Error> {
    ChapterList::from_chaptered_file(text.as_bytes(), &tag(Some("T"), Some("A")))
}

#[test]
fn probe_document_with_two_chapters() {
    let list = extract(TWO_CHAPTERS).unwrap();
    assert_eq!(list.len(), 2);
    assert_eq!(*list.index(0), Chapter::new("One".to_string(), 0, 1000));
    assert_eq!(*list.index(1), Chapter::new("Two".to_string(), 1000, 2000));
    assert_eq!(list.title(), "T");
    assert_eq!(list.author(), "A");
}

#[test]
fn missing_tag_fields_fall_back_to_placeholders() {
    let list =
        ChapterList::from_chaptered_file(TWO_CHAPTERS.as_bytes(), &TagFields::new()).unwrap();
    assert_eq!(list.title(), "Unknown title");
    assert_eq!(list.author(), "Unknown author");
    let list =
        ChapterList::from_chaptered_file(TWO_CHAPTERS.as_bytes(), &tag(None, Some("A"))).unwrap();
    assert_eq!(list.title(), "Unknown title");
    assert_eq!(list.author(), "A");
    let list =
        ChapterList::from_chaptered_file(TWO_CHAPTERS.as_bytes(), &tag(Some("T"), None)).unwrap();
    assert_eq!(list.title(), "T");
    assert_eq!(list.author(), "Unknown author");
}

#[test]
fn chapters_keep_the_order_of_the_array() {
    let list = extract(
        r#"{"chapters":[{"tags":{"title":"late"},"start":5000,"end":9000},{"tags":{"title":"early"},"start":0,"end":5000}]}"#,
    )
    .unwrap();
    assert_eq!(list.index(0).title(), "late");
    assert_eq!(list.index(1).title(), "early");
}

#[test]
fn empty_array_gives_an_empty_list() {
    let list = extract(r#"{"chapters":[]}"#).unwrap();
    assert_eq!(list.len(), 0);
}

#[test]
fn other_members_are_passed_over() {
    let list = extract(
        r#"{"format":{},"chapters":[{"id":0,"time_base":"1/1000","start":0,"start_time":"0.000000","end":1000,"end_time":"1.000000","tags":{"title":"One","artist":"x"}}]}"#,
    )
    .unwrap();
    assert_eq!(*list.index(0), Chapter::new("One".to_string(), 0, 1000));
}

#[test]
fn missing_array_is_refused() {
    assert_eq!(extract(r#"{}"#), Err(Error::ChapterReadError));
    assert_eq!(extract(r#"{"chapter":[]}"#), Err(Error::ChapterReadError));
    assert_eq!(extract(r#"[]"#), Err(Error::ChapterReadError));
    assert_eq!(extract(r#"null"#), Err(Error::ChapterReadError));
}

#[test]
fn array_of_another_type_is_refused() {
    assert_eq!(extract(r#"{"chapters":{}}"#), Err(Error::ChapterReadError));
    assert_eq!(extract(r#"{"chapters":"none"}"#), Err(Error::ChapterReadError));
    assert_eq!(extract(r#"{"chapters":3}"#), Err(Error::ChapterReadError));
}

#[test]
fn record_without_title_is_refused() {
    assert_eq!(
        extract(r#"{"chapters":[{"tags":{},"start":0,"end":1000}]}"#),
        Err(Error::ChapterReadError)
    );
    assert_eq!(
        extract(r#"{"chapters":[{"start":0,"end":1000}]}"#),
        Err(Error::ChapterReadError)
    );
    assert_eq!(
        extract(r#"{"chapters":[{"title":"One","start":0,"end":1000}]}"#),
        Err(Error::ChapterReadError)
    );
}

#[test]
fn record_without_start_or_end_is_refused() {
    assert_eq!(
        extract(r#"{"chapters":[{"tags":{"title":"One"},"end":1000}]}"#),
        Err(Error::ChapterReadError)
    );
    assert_eq!(
        extract(r#"{"chapters":[{"tags":{"title":"One"},"start":0}]}"#),
        Err(Error::ChapterReadError)
    );
}

#[test]
fn one_bad_record_refuses_the_whole_document() {
    assert_eq!(
        extract(
            r#"{"chapters":[{"tags":{"title":"One"},"start":0,"end":1000},{"tags":{"title":"Two"},"start":1000}]}"#
        ),
        Err(Error::ChapterReadError)
    );
}

#[test]
fn fields_of_the_wrong_type_are_refused() {
    assert_eq!(
        extract(r#"{"chapters":[{"tags":{"title":1},"start":0,"end":1000}]}"#),
        Err(Error::ChapterReadError)
    );
    assert_eq!(
        extract(r#"{"chapters":[{"tags":{"title":"One"},"start":"0","end":1000}]}"#),
        Err(Error::ChapterReadError)
    );
    assert_eq!(
        extract(r#"{"chapters":[{"tags":{"title":"One"},"start":0,"end":1000.5}]}"#),
        Err(Error::ChapterReadError)
    );
    assert_eq!(
        extract(r#"{"chapters":[{"tags":{"title":"One"},"start":0,"end":18446744073709551615}]}"#),
        Err(Error::ChapterReadError)
    );
    assert_eq!(
        extract(r#"{"chapters":[{"tags":"One","start":0,"end":1000}]}"#),
        Err(Error::ChapterReadError)
    );
    assert_eq!(extract(r#"{"chapters":[7]}"#), Err(Error::ChapterReadError));
}

#[test]
fn text_that_is_not_json_is_refused() {
    assert_eq!(extract(""), Err(Error::ChapterReadError));
    assert_eq!(extract("{\"chapters\":["), Err(Error::ChapterReadError));
    assert_eq!(extract("ffprobe: no such file"), Err(Error::ChapterReadError));
}

#[test]
fn bytes_that_are_not_utf8_are_refused() {
    let mut bytes = TWO_CHAPTERS.as_bytes().to_vec();
    bytes[30] = 0xff;
    assert_eq!(
        ChapterList::from_chaptered_file(&bytes, &TagFields::new()),
        Err(Error::ChapterReadError)
    );
    assert_eq!(
        ChapterList::from_chaptered_file(&[0xc3], &TagFields::new()),
        Err(Error::ChapterReadError)
    );
}

#[test]
fn titles_beyond_ascii_are_read() {
    let list = extract(r#"{"chapters":[{"tags":{"title":"Übergang é – 終"},"start":1,"end":2}]}"#)
        .unwrap();
    assert_eq!(list.index(0).title(), "Übergang é – 終");
}

#[test]
fn ends_are_cut_to_32_bits() {
    let list = extract(
        r#"{"chapters":[{"tags":{"title":"x"},"start":-1,"end":4294967296},{"tags":{"title":"y"},"start":4294967295,"end":-9223372036854775808},{"tags":{"title":"z"},"start":9223372036854775807,"end":-4294967297}]}"#,
    )
    .unwrap();
    assert_eq!((list.index(0).start(), list.index(0).end()), (4294967295, 0));
    assert_eq!((list.index(1).start(), list.index(1).end()), (4294967295, 0));
    assert_eq!((list.index(2).start(), list.index(2).end()), (4294967295, 4294967295));
}

#[test]
fn wrap_millis_agrees_with_the_cast() {
    for value in [
        0i64,
        1,
        -1,
        1000,
        4294967295,
        4294967296,
        4294967297,
        -4294967295,
        -4294967296,
        -4294967297,
        i64::MAX,
        i64::MIN,
        i64::MIN + 1,
        123456789012345,
        -123456789012345,
    ] {
        assert_eq!(wrap_millis(value), value as u32);
    }
    assert_eq!(wrap_millis(-2), 4294967294);
    assert_eq!(wrap_millis(4294968296), 1000);
}

#[test]
fn document_given_as_a_value() {
    let document: serde_json::Value = serde_json::from_str(TWO_CHAPTERS).unwrap();
    let list =
        ChapterList::from_probe_document(&document, "T".to_string(), "A".to_string()).unwrap();
    assert_eq!(list.len(), 2);
    assert_eq!(*list.index(1), Chapter::new("Two".to_string(), 1000, 2000));
    let document: serde_json::Value = serde_json::from_str(r#"{"chapters":[{}]}"#).unwrap();
    assert_eq!(
        ChapterList::from_probe_document(&document, "T".to_string(), "A".to_string()),
        Err(Error::ChapterReadError)
    );
}
