//! The interchange document: a chapter list as a TOML document that people
//! read and edit.
//!
//! The document has the strings `title` and `author` and the array
//! `chapters`. Each element of the array is a table with the string `title`
//! and the integers `start` and `end`, in milliseconds. Entries under other
//! keys are passed over when a document is read.

use crate::chapters::{list_result, Chapter, ChapterList, ChapterListView, ChapterView};
use crate::errors::{Error, ErrorView};
use crate::toml_model::{
    distinct_keys, entry_of, toml_array, toml_as_array, toml_as_integer, toml_as_str,
    toml_document, toml_entries, toml_from_str, toml_get, toml_integer, toml_model, toml_models,
    toml_string, toml_table, toml_text, toml_to_string, TomlModel,
};
use vstd::prelude::*;
use vstd::string::StringExecFns;

verus! {

/// The table that stands for `chapter` in the document.
pub open spec fn chapter_document(chapter: ChapterView) -> TomlModel {
    TomlModel::Table(
        seq![
            ("title"@, TomlModel::Text(chapter.title)),
            ("start"@, TomlModel::Integer(chapter.start as int)),
            ("end"@, TomlModel::Integer(chapter.end as int)),
        ],
    )
}

/// The document that stands for `list`.
pub open spec fn list_document(list: ChapterListView) -> TomlModel {
    TomlModel::Table(
        seq![
            ("title"@, TomlModel::Text(list.title)),
            ("author"@, TomlModel::Text(list.author)),
            (
                "chapters"@,
                TomlModel::Array(
                    Seq::new(list.chapters.len(), |i: int| chapter_document(list.chapters[i])),
                ),
            ),
        ],
    )
}

/// The string of `table` under `key`.
pub open spec fn text_member(table: TomlModel, key: Seq<char>) -> Option<Seq<char>> {
    match table.member(key) {
        Some(member) => member.text(),
        None => None,
    }
}

/// The millisecond counter of `table` under `key`: an integer that 32 bits
/// hold without a sign.
pub open spec fn millis_member(table: TomlModel, key: Seq<char>) -> Option<nat> {
    match table.member(key) {
        Some(member) => match member.integer() {
            Some(integer) => if 0 <= integer <= u32::MAX {
                Some(integer as nat)
            } else {
                None
            },
            None => None,
        },
        None => None,
    }
}

/// The chapter that `table` stands for, if it has a title and both ends in
/// the expected types.
pub open spec fn document_chapter(table: TomlModel) -> Option<ChapterView> {
    match (text_member(table, "title"@), millis_member(table, "start"@), millis_member(
        table,
        "end"@,
    )) {
        (Some(title), Some(start), Some(end)) => Some(ChapterView { title, start, end }),
        _ => None,
    }
}

/// The chapters that the array `elements` stands for, if each element
/// stands for one.
pub open spec fn document_chapters(elements: Seq<TomlModel>) -> Option<Seq<ChapterView>> {
    if forall|i: int| 0 <= i < elements.len() ==> document_chapter(#[trigger] elements[i]) is Some {
        Some(Seq::new(elements.len(), |i: int| document_chapter(elements[i])->0))
    } else {
        None
    }
}

/// The elements of the array `chapters` of `document`.
pub open spec fn chapter_elements(document: TomlModel) -> Option<Seq<TomlModel>> {
    match document.member("chapters"@) {
        Some(member) => member.elements(),
        None => None,
    }
}

/// The list that `document` stands for, if it has a title, an author and an
/// array of chapters in the expected types.
pub open spec fn document_list(document: TomlModel) -> Option<ChapterListView> {
    let chapters = match chapter_elements(document) {
        Some(elements) => document_chapters(elements),
        None => None,
    };
    match (text_member(document, "title"@), text_member(document, "author"@), chapters) {
        (Some(title), Some(author), Some(chapters)) => Some(
            ChapterListView { title, author, chapters },
        ),
        _ => None,
    }
}

/// What is wrong with a document that stands for no list: the first of
/// its title, its author, its array of chapters and the chapters in it
/// that is missing or of another type.
pub open spec fn document_fault(document: TomlModel) -> Seq<char> {
    if text_member(document, "title"@) is None {
        "the document has no string `title`"@
    } else if text_member(document, "author"@) is None {
        "the document has no string `author`"@
    } else if chapter_elements(document) is None {
        "the document has no array `chapters`"@
    } else {
        "a chapter lacks its string `title` or one of its integers `start` and `end` from 0 to 4294967295"@
    }
}

/// What reading gives: the list that the document stands for, or the
/// refusal, with its reason, of a text that is no document or of a
/// document that stands for no list.
pub open spec fn decoded(document: Result<TomlModel, Seq<char>>) -> Result<
    ChapterListView,
    ErrorView,
> {
    match document {
        Ok(document) => match document_list(document) {
            Some(list) => Ok(list),
            None => Err(ErrorView::TomlDeserializationError(document_fault(document))),
        },
        Err(reason) => Err(ErrorView::TomlDeserializationError(reason)),
    }
}

/// What writing gives: the text that `toml` writes for the document of
/// `list`, or its refusal with the reason that `toml` gives.
pub open spec fn encoded(list: ChapterListView) -> Result<Seq<char>, ErrorView> {
    match toml_text(list_document(list)) {
        Ok(text) => Ok(text),
        Err(reason) => Err(ErrorView::TomlSerializationError(reason)),
    }
}

/// The mathematical value of a text or of the failure to write one.
pub open spec fn text_result(result: Result<String, Error>) -> Result<Seq<char>, ErrorView> {
    match result {
        Ok(text) => Ok(text@),
        Err(error) => Err(error@),
    }
}

/// The keys of the document are distinct words.
pub proof fn lemma_keys_differ()
    ensures
        "title"@ != "author"@,
        "title"@ != "chapters"@,
        "author"@ != "chapters"@,
        "title"@ != "start"@,
        "title"@ != "end"@,
        "start"@ != "end"@,
{
    reveal_strlit("title");
    reveal_strlit("author");
    reveal_strlit("chapters");
    reveal_strlit("start");
    reveal_strlit("end");
    assert("title"@.len() == 5);
    assert("author"@.len() == 6);
    assert("chapters"@.len() == 8);
    assert("start"@[0] == 's');
    assert("title"@[0] == 't');
    assert("end"@.len() == 3);
}

/// A chapter is read back from its table as it was written.
pub proof fn lemma_chapter_round_trip(chapter: ChapterView)
    requires
        chapter.start <= u32::MAX,
        chapter.end <= u32::MAX,
    ensures
        document_chapter(chapter_document(chapter)) == Some(chapter),
        chapter_document(chapter).is_plain(),
{
    lemma_keys_differ();
    let entries = chapter_document(chapter)->Table_0;
    assert(entries.skip(1)[0] == entries[1]);
    assert(entries.skip(1).skip(1)[0] == entries[2]);
    assert(entry_of(entries, "title"@) == Some(entries[0].1));
    assert(entry_of(entries.skip(1), "start"@) == Some(entries[1].1));
    assert(entry_of(entries, "start"@) == Some(entries[1].1));
    assert(entry_of(entries.skip(1).skip(1), "end"@) == Some(entries[2].1));
    assert(entry_of(entries.skip(1), "end"@) == Some(entries[2].1));
    assert(entry_of(entries, "end"@) == Some(entries[2].1));
    assert(entries[0].1.is_plain() && entries[1].1.is_plain() && entries[2].1.is_plain());
    assert(distinct_keys(entries));
}

/// Reading gives back what writing was given: a list is read back from its
/// document field for field, whatever its titles and however many chapters
/// it has.
pub proof fn lemma_document_round_trip(list: ChapterListView)
    requires
        forall|i: int|
            0 <= i < list.chapters.len() ==> (#[trigger] list.chapters[i]).start <= u32::MAX
                && list.chapters[i].end <= u32::MAX,
    ensures
        document_list(list_document(list)) == Some(list),
        decoded(Ok(list_document(list))) == Ok::<ChapterListView, ErrorView>(list),
        list_document(list).is_plain(),
{
    lemma_keys_differ();
    let entries = list_document(list)->Table_0;
    let elements = entries[2].1->Array_0;
    assert(entries.skip(1)[0] == entries[1]);
    assert(entries.skip(1).skip(1)[0] == entries[2]);
    assert(entry_of(entries, "title"@) == Some(entries[0].1));
    assert(entry_of(entries.skip(1), "author"@) == Some(entries[1].1));
    assert(entry_of(entries, "author"@) == Some(entries[1].1));
    assert(entry_of(entries.skip(1).skip(1), "chapters"@) == Some(entries[2].1));
    assert(entry_of(entries.skip(1), "chapters"@) == Some(entries[2].1));
    assert(entry_of(entries, "chapters"@) == Some(entries[2].1));
    assert forall|i: int| 0 <= i < elements.len() implies document_chapter(
        #[trigger] elements[i],
    ) == Some(list.chapters[i]) && elements[i].is_plain() by {
        lemma_chapter_round_trip(list.chapters[i]);
    }
    assert(document_chapters(elements)->0 =~= list.chapters);
    assert(entries[0].1.is_plain() && entries[1].1.is_plain() && entries[2].1.is_plain());
    assert(distinct_keys(entries));
}

fn chapter_to_document(chapter: &Chapter) -> (table: toml::Value)
    ensures
        toml_model(table) == chapter_document(chapter@),
{
    let mut entries: Vec<(String, toml::Value)> = Vec::new();
    entries.push((String::from_str("title"), toml_string(chapter.title())));
    entries.push((String::from_str("start"), toml_integer(chapter.start() as i64)));
    entries.push((String::from_str("end"), toml_integer(chapter.end() as i64)));
    proof {
        lemma_keys_differ();
        assert(toml_entries(entries@) =~= chapter_document(chapter@)->Table_0);
    }
    toml_table(entries)
}

fn read_text(table: &toml::Value, key: &str) -> (text: Option<String>)
    ensures
        match text {
            Some(text) => text_member(toml_model(*table), key@) == Some(text@),
            None => text_member(toml_model(*table), key@) is None,
        },
{
    match toml_get(table, key) {
        Some(member) => match toml_as_str(member) {
            Some(text) => Some(String::from_str(text)),
            None => None,
        },
        None => None,
    }
}

fn read_millis(table: &toml::Value, key: &str) -> (millis: Option<u32>)
    ensures
        match millis {
            Some(millis) => millis_member(toml_model(*table), key@) == Some(millis as nat),
            None => millis_member(toml_model(*table), key@) is None,
        },
{
    match toml_get(table, key) {
        Some(member) => match toml_as_integer(member) {
            Some(integer) => if 0 <= integer && integer <= 0xffff_ffff {
                Some(integer as u32)
            } else {
                None
            },
            None => None,
        },
        None => None,
    }
}

fn read_chapter(table: &toml::Value) -> (chapter: Option<Chapter>)
    ensures
        match chapter {
            Some(chapter) => document_chapter(toml_model(*table)) == Some(chapter@),
            None => document_chapter(toml_model(*table)) is None,
        },
{
    let title = read_text(table, "title");
    let start = read_millis(table, "start");
    let end = read_millis(table, "end");
    match (title, start, end) {
        (Some(title), Some(start), Some(end)) => Some(Chapter::new(title, start, end)),
        _ => None,
    }
}

impl ChapterList {
    /// Writes the list as a document: the title, the author and the
    /// chapters in list order, each with its title and its two ends.
    pub fn to_toml_document(&self) -> (document: toml::Value)
        ensures
            toml_model(document) == list_document(self@),
    {
        let mut chapters: Vec<toml::Value> = Vec::new();
        let mut i: usize = 0;
        while i < self.len()
            invariant
                i <= self@.chapters.len(),
                chapters@.len() == i,
                forall|k: int|
                    0 <= k < i ==> toml_model(#[trigger] chapters@[k]) == chapter_document(
                        self@.chapters[k],
                    ),
            decreases self@.chapters.len() - i,
        {
            chapters.push(chapter_to_document(self.index(i)));
            i = i + 1;
        }
        let mut entries: Vec<(String, toml::Value)> = Vec::new();
        entries.push((String::from_str("title"), toml_string(self.title())));
        entries.push((String::from_str("author"), toml_string(self.author())));
        entries.push((String::from_str("chapters"), toml_array(chapters)));
        proof {
            lemma_keys_differ();
            assert(toml_models(chapters@) =~= list_document(self@)->Table_0[2].1->Array_0);
            assert(toml_entries(entries@) =~= list_document(self@)->Table_0);
        }
        toml_table(entries)
    }

    /// Writes the list as the text of its document. Writing fails only
    /// where `toml` itself refuses the document, and then with the reason
    /// that `toml` gives.
    pub fn toml(&self) -> (text: Result<String, Error>)
        ensures
            text_result(text) == encoded(self@),
    {
        let document = self.to_toml_document();
        proof {
            self.lemma_counters_fit();
            lemma_document_round_trip(self@);
        }
        match toml_to_string(&document) {
            Ok(text) => Ok(text),
            Err(reason) => Err(Error::TomlSerializationError(reason)),
        }
    }

    /// Reads the list that `document` stands for. A document that lacks
    /// the title, the author or the array of chapters, or has one of them
    /// or a field of a chapter in another type, or gives an end that is
    /// negative or beyond 32 bits, is refused as a whole, and the refusal
    /// names the first of these that is wrong.
    pub fn from_toml_document(document: &toml::Value) -> (result: Result<ChapterList, Error>)
        ensures
            list_result(result) == decoded(Ok(toml_model(*document))),
    {
        let ghost model = toml_model(*document);
        let title = match read_text(document, "title") {
            Some(title) => title,
            None => {
                return Err(
                    Error::TomlDeserializationError(
                        String::from_str("the document has no string `title`"),
                    ),
                );
            },
        };
        let author = match read_text(document, "author") {
            Some(author) => author,
            None => {
                return Err(
                    Error::TomlDeserializationError(
                        String::from_str("the document has no string `author`"),
                    ),
                );
            },
        };
        let member = match toml_get(document, "chapters") {
            Some(member) => member,
            None => {
                return Err(
                    Error::TomlDeserializationError(
                        String::from_str("the document has no array `chapters`"),
                    ),
                );
            },
        };
        let tables = match toml_as_array(member) {
            Some(tables) => tables,
            None => {
                return Err(
                    Error::TomlDeserializationError(
                        String::from_str("the document has no array `chapters`"),
                    ),
                );
            },
        };
        let ghost elements = toml_models(tables@);
        let mut list = ChapterList::new(title, author);
        let mut i: usize = 0;
        while i < tables.len()
            invariant
                i <= tables.len(),
                elements == toml_models(tables@),
                model == toml_model(*document),
                text_member(model, "title"@) == Some(title@),
                text_member(model, "author"@) == Some(author@),
                model.member("chapters"@) == Some(toml_model(*member)),
                toml_model(*member).elements() == Some(elements),
                list@.title == title@,
                list@.author == author@,
                list@.chapters.len() == i,
                forall|k: int|
                    0 <= k < i ==> document_chapter(#[trigger] elements[k]) == Some(
                        list@.chapters[k],
                    ),
            decreases tables.len() - i,
        {
            match read_chapter(&tables[i]) {
                Some(chapter) => {
                    list.push(chapter);
                },
                None => {
                    assert(document_chapter(elements[i as int]) is None);
                    return Err(
                        Error::TomlDeserializationError(
                            String::from_str(
                                "a chapter lacks its string `title` or one of its integers `start` and `end` from 0 to 4294967295",
                            ),
                        ),
                    );
                },
            }
            i = i + 1;
        }
        proof {
            assert(list@.chapters =~= document_chapters(elements)->0);
        }
        Ok(list)
    }

    /// Reads a list from the text of its document. Text that is no TOML
    /// document is refused with what `toml` says is wrong with it, and a
    /// document that stands for no list with what the list lacks.
    pub fn from_toml(toml: &str) -> (result: Result<ChapterList, Error>)
        ensures
            list_result(result) == decoded(toml_document(toml@)),
    {
        match toml_from_str(toml) {
            Ok(document) => ChapterList::from_toml_document(&document),
            Err(reason) => Err(Error::TomlDeserializationError(reason)),
        }
    }
}

} // verus!
