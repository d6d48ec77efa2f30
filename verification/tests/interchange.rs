use audiobook_tagger::chapters::{Chapter, ChapterList};
use audiobook_tagger::Error;

fn book() -> ChapterList {
    let mut list = ChapterList::new("Book".to_string(), "Author".to_string());
    list.push(Chapter::new("Intro".to_string(), 0, 60000));
    list.push(Chapter::new("Middle".to_string(), 60000, 105000));
    list.push(Chapter::new("End".to_string(), 105000, 135000));
    list
}

#[test]
fn document_text_of_a_list() {
    assert_eq!(
        book().toml().unwrap(),
        "title = \"Book\"\nauthor = \"Author\"\n\n[[chapters]]\ntitle = \"Intro\"\nstart = 0\nend = 60000\n\n[[chapters]]\ntitle = \"Middle\"\nstart = 60000\nend = 105000\n\n[[chapters]]\ntitle = \"End\"\nstart = 105000\nend = 135000\n"
    );
}

#[test]
fn document_text_of_an_empty_list() {
    let list = ChapterList::new("Book".to_string(), "Author".to_string());
    assert_eq!(list.toml().unwrap(), "title = \"Book\"\nauthor = \"Author\"\nchapters = []\n");
}

fn round_trip(list: &ChapterList) {
    let text = list.toml().unwrap();
    assert_eq!(ChapterList::from_toml(&text), Ok(list.clone()));
}

#[test]
fn reading_gives_back_what_was_written() {
    round_trip(&book());
    round_trip(&ChapterList::new(String::new(), String::new()));
    round_trip(&ChapterList::new("only a title".to_string(), String::new()));
}

#[test]
fn empty_titles_and_zero_length_chapters_come_back() {
    let mut list = ChapterList::new(String::new(), "A".to_string());
    list.push(Chapter::new(String::new(), 0, 0));
    list.push(Chapter::new(String::new(), 0, 0));
    list.push(Chapter::new("x".to_string(), 4294967295, 4294967295));
    round_trip(&list);
}

#[test]
fn titles_with_quotes_breaks_and_other_scripts_come_back() {
    let mut list = ChapterList::new("a \"quoted\" 'title'".to_string(), "Ünïcödé – 著者".to_string());
    list.push(Chapter::new("line\nbreak\ttab \\ backslash".to_string(), 1, 2));
    list.push(Chapter::new("key = value # not a comment [[chapters]]".to_string(), 2, 3));
    list.push(Chapter::new("'''\"\"\"".to_string(), 3, 4));
    list.push(Chapter::new("\u{0}\u{7f}\u{1f600}".to_string(), 4, 5));
    round_trip(&list);
}

#[test]
fn chapters_out_of_order_come_back_in_list_order() {
    let mut list = ChapterList::new("T".to_string(), "A".to_string());
    list.push(Chapter::new("late".to_string(), 9000, 100));
    list.push(Chapter::new("early".to_string(), 0, 5000));
    round_trip(&list);
    let read = ChapterList::from_toml(&list.toml().unwrap()).unwrap();
    assert_eq!(read.index(0).title(), "late");
    assert_eq!((read.index(0).start(), read.index(0).end()), (9000, 100));
}

#[test]
fn document_written_by_hand_is_read() {
    let text = r#"
# an audiobook
author = "Author"
title = "Book"
year = 1999

[[chapters]]
end = 1000
start = 0
title = "One"
note = "passed over"

[[chapters]]
title = "Two"
start = 1_000
end = 0x7d0
"#;
    let list = ChapterList::from_toml(text).unwrap();
    assert_eq!(list.title(), "Book");
    assert_eq!(list.author(), "Author");
    assert_eq!(list.len(), 2);
    assert_eq!(*list.index(0), Chapter::new("One".to_string(), 0, 1000));
    assert_eq!(*list.index(1), Chapter::new("Two".to_string(), 1000, 2000));
}

#[test]
fn inline_tables_are_read() {
    let list = ChapterList::from_toml(
        "title = 'T'\nauthor = 'A'\nchapters = [{ title = 'One', start = 0, end = 1 }]\n",
    )
    .unwrap();
    assert_eq!(*list.index(0), Chapter::new("One".to_string(), 0, 1));
}

const NO_TITLE: &str = "the document has no string `title`";
const NO_AUTHOR: &str = "the document has no string `author`";
const NO_CHAPTERS: &str = "the document has no array `chapters`";
const BAD_CHAPTER: &str =
    "a chapter lacks its string `title` or one of its integers `start` and `end` from 0 to 4294967295";

fn refused(text: &str, reason: &str) {
    assert_eq!(
        ChapterList::from_toml(text),
        Err(Error::TomlDeserializationError(reason.to_string()))
    );
}

fn not_toml(text: &str) {
    let reason = toml::from_str::<toml::Value>(text).unwrap_err().message().to_string();
    assert!(!reason.is_empty());
    refused(text, &reason);
}

#[test]
fn text_that_is_not_toml_is_refused() {
    not_toml("title = ");
    not_toml("title = \"T\"\ntitle = \"again\"\nauthor = \"A\"\nchapters = []\n");
    not_toml("{\"title\": \"T\"}");
    not_toml("[[chapters]\n");
}

#[test]
fn refusal_of_a_text_says_what_is_wrong_with_it() {
    match ChapterList::from_toml("title = \"T\"\ntitle = \"again\"\n") {
        Err(Error::TomlDeserializationError(reason)) => assert!(reason.contains("duplicate")),
        other => panic!("{:?}", other),
    }
}

#[test]
fn missing_fields_are_refused() {
    refused("", NO_TITLE);
    refused("author = 'A'\nchapters = []\n", NO_TITLE);
    refused("title = 'T'\nchapters = []\n", NO_AUTHOR);
    refused("title = 'T'\nauthor = 'A'\n", NO_CHAPTERS);
    refused("title = 'T'\nauthor = 'A'\n[[chapters]]\nstart = 0\nend = 1\n", BAD_CHAPTER);
    refused("title = 'T'\nauthor = 'A'\n[[chapters]]\ntitle = 'x'\nend = 1\n", BAD_CHAPTER);
    refused("title = 'T'\nauthor = 'A'\n[[chapters]]\ntitle = 'x'\nstart = 0\n", BAD_CHAPTER);
}

#[test]
fn the_first_fault_is_the_one_named() {
    refused("chapters = 3\n", NO_TITLE);
    refused("title = 'T'\nchapters = [1]\n", NO_AUTHOR);
    refused("title = 'T'\nauthor = 'A'\nchapters = 3\n", NO_CHAPTERS);
}

#[test]
fn fields_of_another_type_are_refused() {
    refused("title = 1\nauthor = 'A'\nchapters = []\n", NO_TITLE);
    refused("title = 'T'\nauthor = ['A']\nchapters = []\n", NO_AUTHOR);
    refused("title = 'T'\nauthor = 'A'\nchapters = 'none'\n", NO_CHAPTERS);
    refused(
        "title = 'T'\nauthor = 'A'\n[chapters]\ntitle = 'x'\nstart = 0\nend = 1\n",
        NO_CHAPTERS,
    );
    refused("title = 'T'\nauthor = 'A'\nchapters = [1, 2]\n", BAD_CHAPTER);
    refused(
        "title = 'T'\nauthor = 'A'\n[[chapters]]\ntitle = true\nstart = 0\nend = 1\n",
        BAD_CHAPTER,
    );
    refused(
        "title = 'T'\nauthor = 'A'\n[[chapters]]\ntitle = 'x'\nstart = '0'\nend = 1\n",
        BAD_CHAPTER,
    );
    refused(
        "title = 'T'\nauthor = 'A'\n[[chapters]]\ntitle = 'x'\nstart = 0\nend = 1.0\n",
        BAD_CHAPTER,
    );
    refused(
        "title = 'T'\nauthor = 'A'\n[[chapters]]\ntitle = 'x'\nstart = 0\nend = 1979-05-27\n",
        BAD_CHAPTER,
    );
}

#[test]
fn ends_outside_the_counter_are_refused() {
    refused(
        "title = 'T'\nauthor = 'A'\n[[chapters]]\ntitle = 'x'\nstart = -1\nend = 1\n",
        BAD_CHAPTER,
    );
    refused(
        "title = 'T'\nauthor = 'A'\n[[chapters]]\ntitle = 'x'\nstart = 0\nend = 4294967296\n",
        BAD_CHAPTER,
    );
    let list = ChapterList::from_toml(
        "title = 'T'\nauthor = 'A'\n[[chapters]]\ntitle = 'x'\nstart = 0\nend = 4294967295\n",
    )
    .unwrap();
    assert_eq!(list.index(0).end(), 4294967295);
}

#[test]
fn one_bad_chapter_refuses_the_whole_document() {
    refused(
        "title = 'T'\nauthor = 'A'\n[[chapters]]\ntitle = 'x'\nstart = 0\nend = 1\n[[chapters]]\ntitle = 'y'\nstart = 1\n",
        BAD_CHAPTER,
    );
}

#[test]
fn document_as_a_value() {
    let document = book().to_toml_document();
    assert_eq!(document.get("title").and_then(|v| v.as_str()), Some("Book"));
    assert_eq!(document.get("author").and_then(|v| v.as_str()), Some("Author"));
    let chapters = document.get("chapters").and_then(|v| v.as_array()).unwrap();
    assert_eq!(chapters.len(), 3);
    assert_eq!(chapters[1].get("title").and_then(|v| v.as_str()), Some("Middle"));
    assert_eq!(chapters[1].get("start").and_then(|v| v.as_integer()), Some(60000));
    assert_eq!(chapters[1].get("end").and_then(|v| v.as_integer()), Some(105000));
    let keys: Vec<&String> = document.as_table().unwrap().keys().collect();
    assert_eq!(keys, vec!["title", "author", "chapters"]);
    let keys: Vec<&String> = chapters[0].as_table().unwrap().keys().collect();
    assert_eq!(keys, vec!["title", "start", "end"]);
    assert_eq!(ChapterList::from_toml_document(&document), Ok(book()));
    assert_eq!(
        ChapterList::from_toml_document(&toml::Value::Integer(3)),
        Err(Error::TomlDeserializationError(NO_TITLE.to_string()))
    );
    assert_eq!(
        ChapterList::from_toml_document(&toml::Value::Array(vec![document])),
        Err(Error::TomlDeserializationError(NO_TITLE.to_string()))
    );
}
