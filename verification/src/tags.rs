//! What the tag of an audio file says, and the tables that show tags and
//! chapters to a reader.
//!
//! Nothing here reads a file or prints: a caller fills a [`TagFields`] from
//! the tag it read and lays out the [`TextTable`] it gets back.

use crate::chapters::{ChapterList, ChapterView};
use crate::decimal::{decimal, u32_to_decimal};
use crate::errors::{Error, ErrorView};
use crate::text::{optional_text, push_text, texts};
use vstd::prelude::*;

verus! {

/// The fields of a tag that this crate reads. A file without a tag has
/// none of them.
#[derive(Debug, Clone, PartialEq, Eq)]
pub struct TagFields {
    pub title: Option<String>,
    pub album: Option<String>,
    /// The artist, who is the author of a book.
    pub artist: Option<String>,
    pub album_artist: Option<String>,
    /// The composer, who is the narrator of a book.
    pub composer: Option<String>,
    pub disc: Option<u32>,
    pub track: Option<u32>,
}

/// The mathematical value of a [`TagFields`].
pub struct TagFieldsView {
    pub title: Option<Seq<char>>,
    pub album: Option<Seq<char>>,
    pub artist: Option<Seq<char>>,
    pub album_artist: Option<Seq<char>>,
    pub composer: Option<Seq<char>>,
    pub disc: Option<u32>,
    pub track: Option<u32>,
}

impl View for TagFields {
    type V = TagFieldsView;

    open spec fn view(&self) -> TagFieldsView {
        TagFieldsView {
            title: optional_text(self.title),
            album: optional_text(self.album),
            artist: optional_text(self.artist),
            album_artist: optional_text(self.album_artist),
            composer: optional_text(self.composer),
            disc: self.disc,
            track: self.track,
        }
    }
}

impl TagFields {
    /// The fields of a file without a tag.
    pub fn new() -> (tag: Self)
        ensures
            tag@ == (TagFieldsView {
                title: None,
                album: None,
                artist: None,
                album_artist: None,
                composer: None,
                disc: None,
                track: None,
            }),
    {
        Self {
            title: None,
            album: None,
            artist: None,
            album_artist: None,
            composer: None,
            disc: None,
            track: None,
        }
    }
}

/// A file of a set whose tags are shown: the last component of its path,
/// if the path has one, and the fields of its tag.
#[derive(Debug, Clone, PartialEq, Eq)]
pub struct TaggedFile {
    pub file_name: Option<String>,
    pub tag: TagFields,
}

/// A table of text: the titles of its columns and its rows, top to bottom.
#[derive(Debug, Clone, PartialEq, Eq)]
pub struct TextTable {
    pub titles: Vec<String>,
    pub rows: Vec<Vec<String>>,
}

/// The mathematical value of a [`TextTable`].
pub struct TextTableView {
    pub titles: Seq<Seq<char>>,
    pub rows: Seq<Seq<Seq<char>>>,
}

impl View for TextTable {
    type V = TextTableView;

    open spec fn view(&self) -> TextTableView {
        TextTableView {
            titles: texts(self.titles@),
            rows: Seq::new(self.rows@.len(), |i: int| texts(self.rows@[i]@)),
        }
    }
}

/// The cell for a field of text: empty where the tag lacks the field.
pub open spec fn text_cell(field: Option<Seq<char>>) -> Seq<char> {
    match field {
        Some(text) => text,
        None => Seq::empty(),
    }
}

/// The cell for a number: its decimal notation, and empty where the tag
/// lacks the field.
pub open spec fn number_cell(field: Option<u32>) -> Seq<char> {
    match field {
        Some(number) => decimal(number as nat),
        None => Seq::empty(),
    }
}

/// The titles of the columns of the table of tags.
pub open spec fn tag_titles() -> Seq<Seq<char>> {
    seq![
        "File"@,
        "Title"@,
        "Album"@,
        "Author\n(Artist)"@,
        "Album Artist"@,
        "Narrator\n(Composer)"@,
        "Disc"@,
        "Track"@,
    ]
}

/// The row of the table of tags for a file named `file_name`, cell by cell
/// under the titles of [`tag_titles`].
pub open spec fn tag_row(file_name: Seq<char>, tag: TagFieldsView) -> Seq<Seq<char>> {
    seq![
        file_name,
        text_cell(tag.title),
        text_cell(tag.album),
        text_cell(tag.artist),
        text_cell(tag.album_artist),
        text_cell(tag.composer),
        number_cell(tag.disc),
        number_cell(tag.track),
    ]
}

/// The table of the tags of `files`, one row for each file in order, if
/// every file has a name.
pub open spec fn tag_table(files: Seq<TaggedFile>) -> Result<TextTableView, ErrorView> {
    if forall|i: int| 0 <= i < files.len() ==> (#[trigger] files[i]).file_name is Some {
        Ok(
            TextTableView {
                titles: tag_titles(),
                rows: Seq::new(
                    files.len(),
                    |i: int| tag_row(files[i].file_name->0@, files[i].tag@),
                ),
            },
        )
    } else {
        Err(ErrorView::NoFilesFountError)
    }
}

/// The titles of the columns of the table of chapters.
pub open spec fn chapter_titles() -> Seq<Seq<char>> {
    seq!["Title"@, "Start (ms)"@, "End (ms)"@]
}

/// The row of the table of chapters for `chapter`.
pub open spec fn chapter_row(chapter: ChapterView) -> Seq<Seq<char>> {
    seq![chapter.title, decimal(chapter.start), decimal(chapter.end)]
}

/// The table of `chapters`, one row for each chapter in order.
pub open spec fn chapter_table(chapters: Seq<ChapterView>) -> TextTableView {
    TextTableView {
        titles: chapter_titles(),
        rows: Seq::new(chapters.len(), |i: int| chapter_row(chapters[i])),
    }
}

fn push_text_cell(row: &mut Vec<String>, field: &Option<String>)
    ensures
        texts(final(row)@) == texts(old(row)@).push(text_cell(optional_text(*field))),
{
    match field {
        Some(text) => push_text(row, text.as_str()),
        None => push_text(row, ""),
    }
    proof {
        reveal_strlit("");
        assert(""@ =~= Seq::<char>::empty());
    }
}

fn push_number_cell(row: &mut Vec<String>, field: Option<u32>)
    ensures
        texts(final(row)@) == texts(old(row)@).push(number_cell(field)),
{
    match field {
        Some(number) => {
            let digits = u32_to_decimal(number);
            push_text(row, digits.as_str());
        },
        None => {
            push_text(row, "");
            proof {
                reveal_strlit("");
                assert(""@ =~= Seq::<char>::empty());
            }
        },
    }
}

fn tag_row_of(file_name: &str, tag: &TagFields) -> (row: Vec<String>)
    ensures
        texts(row@) == tag_row(file_name@, tag@),
{
    let mut row: Vec<String> = Vec::new();
    push_text(&mut row, file_name);
    push_text_cell(&mut row, &tag.title);
    push_text_cell(&mut row, &tag.album);
    push_text_cell(&mut row, &tag.artist);
    push_text_cell(&mut row, &tag.album_artist);
    push_text_cell(&mut row, &tag.composer);
    push_number_cell(&mut row, tag.disc);
    push_number_cell(&mut row, tag.track);
    assert(texts(row@) =~= tag_row(file_name@, tag@));
    row
}

fn tag_titles_row() -> (titles: Vec<String>)
    ensures
        texts(titles@) == tag_titles(),
{
    let mut titles: Vec<String> = Vec::new();
    push_text(&mut titles, "File");
    push_text(&mut titles, "Title");
    push_text(&mut titles, "Album");
    push_text(&mut titles, "Author\n(Artist)");
    push_text(&mut titles, "Album Artist");
    push_text(&mut titles, "Narrator\n(Composer)");
    push_text(&mut titles, "Disc");
    push_text(&mut titles, "Track");
    assert(texts(titles@) =~= tag_titles());
    titles
}

/// The mathematical value of a table or of the failure to make one.
pub open spec fn table_result(result: Result<TextTable, Error>) -> Result<
    TextTableView,
    ErrorView,
> {
    match result {
        Ok(table) => Ok(table@),
        Err(error) => Err(error@),
    }
}

/// Lays out the common tags of `files` as a table: one row for each file
/// in order, with an empty cell for each field that a tag lacks. A file
/// without a name fails the whole table.
pub fn show_tags(files: &Vec<TaggedFile>) -> (table: Result<TextTable, Error>)
    ensures
        table_result(table) == tag_table(files@),
{
    let mut rows: Vec<Vec<String>> = Vec::new();
    let mut i: usize = 0;
    while i < files.len()
        invariant
            i <= files.len(),
            rows@.len() == i,
            forall|k: int| 0 <= k < i ==> (#[trigger] files@[k]).file_name is Some,
            forall|k: int|
                0 <= k < i ==> texts((#[trigger] rows@[k])@) == tag_row(
                    files@[k].file_name->0@,
                    files@[k].tag@,
                ),
        decreases files.len() - i,
    {
        match &files[i].file_name {
            Some(file_name) => {
                rows.push(tag_row_of(file_name.as_str(), &files[i].tag));
            },
            None => {
                assert(files@[i as int].file_name is None);
                return Err(Error::NoFilesFountError);
            },
        }
        i = i + 1;
    }
    let table = TextTable { titles: tag_titles_row(), rows };
    proof {
        assert(table@.rows =~= tag_table(files@)->Ok_0.rows);
    }
    Ok(table)
}

impl ChapterList {
    /// Lays out the chapters as a table: title, start and end of each
    /// chapter, in list order.
    pub fn table(&self) -> (table: TextTable)
        ensures
            table@ == chapter_table(self@.chapters),
    {
        let mut titles: Vec<String> = Vec::new();
        push_text(&mut titles, "Title");
        push_text(&mut titles, "Start (ms)");
        push_text(&mut titles, "End (ms)");
        assert(texts(titles@) =~= chapter_titles());
        let mut rows: Vec<Vec<String>> = Vec::new();
        let mut i: usize = 0;
        while i < self.len()
            invariant
                i <= self@.chapters.len(),
                rows@.len() == i,
                forall|k: int|
                    0 <= k < i ==> texts((#[trigger] rows@[k])@) == chapter_row(
                        self@.chapters[k],
                    ),
            decreases self@.chapters.len() - i,
        {
            let chapter = self.index(i);
            let mut row: Vec<String> = Vec::new();
            let title = chapter.title();
            push_text(&mut row, title.as_str());
            let start = u32_to_decimal(chapter.start());
            push_text(&mut row, start.as_str());
            let end = u32_to_decimal(chapter.end());
            push_text(&mut row, end.as_str());
            assert(texts(row@) =~= chapter_row(self@.chapters[i as int]));
            rows.push(row);
            i = i + 1;
        }
        let table = TextTable { titles, rows };
        assert(table@.rows =~= chapter_table(self@.chapters).rows);
        table
    }
}

} // verus!
