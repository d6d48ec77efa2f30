use audiobook_tagger::chapters::{Chapter, ChapterList};
use audiobook_tagger::tags::{show_tags, TagFields, TaggedFile, TextTable};
use audiobook_tagger::Error;

fn full_tag() -> TagFields {
    TagFields {
        title: Some("Title".to_string()),
        album: Some("Album".to_string()),
        artist: Some("Artist".to_string()),
        album_artist: Some("Album Artist".to_string()),
        composer: Some("Composer".to_string()),
        disc: Some(2),
        track: Some(17),
    }
}

#[test]
fn tag_without_fields() {
    let tag = TagFields::new();
    assert_eq!(
        tag,
        TagFields {
            title: None,
            album: None,
            artist: None,
            album_artist: None,
            composer: None,
            disc: None,
            track: None
        }
    );
}

#[test]
fn table_of_tags_has_a_row_for_each_file() {
    let files = vec![
        TaggedFile { file_name: Some("one.mp3".to_string()), tag: full_tag() },
        TaggedFile { file_name: Some("two.mp3".to_string()), tag: TagFields::new() },
    ];
    let table = show_tags(&files).unwrap();
    assert_eq!(
        table.titles,
        vec![
            "File",
            "Title",
            "Album",
            "Author\n(Artist)",
            "Album Artist",
            "Narrator\n(Composer)",
            "Disc",
            "Track"
        ]
    );
    assert_eq!(
        table.rows,
        vec![
            vec!["one.mp3", "Title", "Album", "Artist", "Album Artist", "Composer", "2", "17"],
            vec!["two.mp3", "", "", "", "", "", "", ""],
        ]
    );
}

#[test]
fn table_of_no_files_has_titles_only() {
    let table = show_tags(&Vec::new()).unwrap();
    assert_eq!(table.titles.len(), 8);
    assert!(table.rows.is_empty());
}

#[test]
fn file_without_a_name_fails_the_table() {
    let files = vec![
        TaggedFile { file_name: Some("one.mp3".to_string()), tag: full_tag() },
        TaggedFile { file_name: None, tag: full_tag() },
        TaggedFile { file_name: Some("three.mp3".to_string()), tag: full_tag() },
    ];
    assert_eq!(show_tags(&files), Err(Error::NoFilesFountError));
}

#[test]
fn table_of_chapters() {
    let mut list = ChapterList::new("Book".to_string(), "Author".to_string());
    list.push(Chapter::new("Intro".to_string(), 0, 60000));
    list.push(Chapter::new("".to_string(), 60000, 4294967295));
    assert_eq!(
        list.table(),
        TextTable {
            titles: vec!["Title".to_string(), "Start (ms)".to_string(), "End (ms)".to_string()],
            rows: vec![
                vec!["Intro".to_string(), "0".to_string(), "60000".to_string()],
                vec!["".to_string(), "60000".to_string(), "4294967295".to_string()],
            ],
        }
    );
    let empty = ChapterList::new("Book".to_string(), "Author".to_string());
    assert!(empty.table().rows.is_empty());
    assert_eq!(empty.table().titles.len(), 3);
}
