//! Reading the chapters of an already chaptered file from what a prober
//! prints of it.
//!
//! The prober prints a JSON document. Its member `chapters` is an array of
//! records; each record gives its title as the string `tags.title` and its
//! two ends as the integers `start` and `end`. The ends are taken as
//! milliseconds as they stand: nothing scales them by a time base.

use crate::chapters::{list_result, Chapter, ChapterList, ChapterListView, ChapterView};
use crate::errors::{Error, ErrorView};
use crate::json::{
    json_as_array, json_as_i64, json_as_str, json_document, json_from_str, json_get, json_model,
    json_models, JsonModel,
};
use crate::tags::TagFields;
use crate::text::{optional_text, utf8_text};
use vstd::prelude::*;
use vstd::string::StringExecFns;
use vstd::utf8::{decode_utf8, valid_utf8};

verus! {

/// The title of a list whose file names none.
pub open spec fn unknown_title() -> Seq<char> {
    "Unknown title"@
}

/// The author of a list whose file names none.
pub open spec fn unknown_author() -> Seq<char> {
    "Unknown author"@
}

/// An end of a chapter as the prober gives it, cut to the 32 bits of a
/// chapter's millisecond counter.
pub open spec fn wrapped_millis(value: int) -> nat {
    (value % 0x1_0000_0000) as nat
}

/// The title that a record of the prober gives: the string `title` of its
/// member `tags`.
pub open spec fn record_title(record: JsonModel) -> Option<Seq<char>> {
    match record.member("tags"@) {
        Some(tags) => match tags.member("title"@) {
            Some(title) => title.text(),
            None => None,
        },
        None => None,
    }
}

/// The end that a record of the prober gives under `key`: an integer.
pub open spec fn record_end(record: JsonModel, key: Seq<char>) -> Option<i64> {
    match record.member(key) {
        Some(end) => end.integer(),
        None => None,
    }
}

/// The chapter that a record of the prober stands for, if the record has a
/// title and both ends in the expected types.
pub open spec fn probe_chapter(record: JsonModel) -> Option<ChapterView> {
    match (record_title(record), record_end(record, "start"@), record_end(record, "end"@)) {
        (Some(title), Some(start), Some(end)) => Some(
            ChapterView {
                title,
                start: wrapped_millis(start as int),
                end: wrapped_millis(end as int),
            },
        ),
        _ => None,
    }
}

/// The records of a document of the prober: the elements of its array
/// `chapters`.
pub open spec fn probe_records(document: JsonModel) -> Option<Seq<JsonModel>> {
    match document.member("chapters"@) {
        Some(chapters) => chapters.elements(),
        None => None,
    }
}

/// The chapters that a document of the prober lists, in the order of its
/// array, if it has the array and every record of it stands for a chapter.
pub open spec fn probe_chapters(document: JsonModel) -> Option<Seq<ChapterView>> {
    match probe_records(document) {
        Some(records) => if forall|i: int|
            0 <= i < records.len() ==> probe_chapter(#[trigger] records[i]) is Some {
            Some(Seq::new(records.len(), |i: int| probe_chapter(records[i])->0))
        } else {
            None
        },
        None => None,
    }
}

/// The list that a document of the prober gives under `title` and `author`.
pub open spec fn probe_list(document: Option<JsonModel>, title: Seq<char>, author: Seq<char>)
    -> Result<ChapterListView, ErrorView> {
    match document {
        Some(document) => match probe_chapters(document) {
            Some(chapters) => Ok(ChapterListView { title, author, chapters }),
            None => Err(ErrorView::ChapterReadError),
        },
        None => Err(ErrorView::ChapterReadError),
    }
}

/// The document that the bytes printed by the prober denote: they are read
/// as UTF-8 and then as JSON.
pub open spec fn probe_document(output: Seq<u8>) -> Option<JsonModel> {
    if valid_utf8(output) {
        json_document(decode_utf8(output))
    } else {
        None
    }
}

/// A document without the array of chapters, and one with a record in
/// the array that lacks its title, its start or its end, gives an error
/// and no list, whatever the other records hold.
pub proof fn lemma_incomplete_document_is_refused(
    document: JsonModel,
    title: Seq<char>,
    author: Seq<char>,
)
    requires
        probe_records(document) matches Some(records) ==> exists|i: int|
            0 <= i < records.len() && (record_title(#[trigger] records[i]) is None || record_end(
                records[i],
                "start"@,
            ) is None || record_end(records[i], "end"@) is None),
    ensures
        probe_list(Some(document), title, author) == Err::<ChapterListView, ErrorView>(
            ErrorView::ChapterReadError,
        ),
{
    if let Some(records) = probe_records(document) {
        let i = choose|i: int|
            0 <= i < records.len() && (record_title(#[trigger] records[i]) is None || record_end(
                records[i],
                "start"@,
            ) is None || record_end(records[i], "end"@) is None);
        assert(probe_chapter(records[i]) is None);
    }
}

/// Cuts an end given by the prober to the 32 bits of a chapter's
/// millisecond counter.
pub fn wrap_millis(value: i64) -> (millis: u32)
    ensures
        millis == wrapped_millis(value as int),
{
    if value >= 0 {
        (value % 0x1_0000_0000) as u32
    } else {
        let below: i64 = -(value + 1);
        (0xffff_ffff - below % 0x1_0000_0000) as u32
    }
}

fn read_title(record: &serde_json::Value) -> (title: Option<String>)
    ensures
        optional_text(title) == record_title(json_model(*record)),
{
    match json_get(record, "tags") {
        Some(tags) => match json_get(tags, "title") {
            Some(title) => match json_as_str(title) {
                Some(title) => Some(String::from_str(title)),
                None => None,
            },
            None => None,
        },
        None => None,
    }
}

fn read_end(record: &serde_json::Value, key: &str) -> (end: Option<i64>)
    ensures
        end == record_end(json_model(*record), key@),
{
    match json_get(record, key) {
        Some(end) => json_as_i64(end),
        None => None,
    }
}

fn read_chapter(record: &serde_json::Value) -> (chapter: Option<Chapter>)
    ensures
        match chapter {
            Some(chapter) => probe_chapter(json_model(*record)) == Some(chapter@),
            None => probe_chapter(json_model(*record)) is None,
        },
{
    let title = read_title(record);
    let start = read_end(record, "start");
    let end = read_end(record, "end");
    match (title, start, end) {
        (Some(title), Some(start), Some(end)) => Some(
            Chapter::new(title, wrap_millis(start), wrap_millis(end)),
        ),
        _ => None,
    }
}

impl ChapterList {
    /// Reads the chapters that `document` lists into a list under `title`
    /// and `author`. The chapters keep the order of the document. A document
    /// without the array of chapters, or with a record in it that lacks its
    /// title or one of its ends or gives one in another type, is refused as
    /// a whole.
    pub fn from_probe_document(document: &serde_json::Value, title: String, author: String) -> (result:
        Result<ChapterList, Error>)
        ensures
            list_result(result) == probe_list(Some(json_model(*document)), title@, author@),
    {
        let ghost model = json_model(*document);
        let chapters = match json_get(document, "chapters") {
            Some(chapters) => chapters,
            None => {
                return Err(Error::ChapterReadError);
            },
        };
        let records = match json_as_array(chapters) {
            Some(records) => records,
            None => {
                return Err(Error::ChapterReadError);
            },
        };
        let ghost models = json_models(records@);
        assert(model.member("chapters"@) == Some(json_model(*chapters)));
        let mut list = ChapterList::new(title, author);
        let mut i: usize = 0;
        while i < records.len()
            invariant
                i <= records.len(),
                models == json_models(records@),
                model == json_model(*document),
                model.member("chapters"@) == Some(json_model(*chapters)),
                json_model(*chapters).elements() == Some(models),
                list@.title == title@,
                list@.author == author@,
                list@.chapters.len() == i,
                forall|k: int|
                    0 <= k < i ==> probe_chapter(#[trigger] models[k]) == Some(list@.chapters[k]),
            decreases records.len() - i,
        {
            match read_chapter(&records[i]) {
                Some(chapter) => {
                    list.push(chapter);
                },
                None => {
                    assert(probe_chapter(models[i as int]) is None);
                    return Err(Error::ChapterReadError);
                },
            }
            i = i + 1;
        }
        proof {
            assert(list@.chapters =~= probe_chapters(model)->0);
        }
        Ok(list)
    }

    /// Builds the list of an already chaptered file from the bytes that the
    /// prober printed of it and from the tag of the file, which gives the
    /// title and, as its artist, the author. Where the tag names no title
    /// or no artist, the list is titled "Unknown title" or ascribed to
    /// "Unknown author". Output that is not UTF-8, not JSON, or no
    /// well-formed list of chapters is refused.
    pub fn from_chaptered_file(probe_output: &[u8], tag: &TagFields) -> (result: Result<
        ChapterList,
        Error,
    >)
        ensures
            list_result(result) == probe_list(
                probe_document(probe_output@),
                match tag@.title {
                    Some(title) => title,
                    None => unknown_title(),
                },
                match tag@.artist {
                    Some(artist) => artist,
                    None => unknown_author(),
                },
            ),
    {
        let text = match utf8_text(probe_output) {
            Some(text) => text,
            None => {
                return Err(Error::ChapterReadError);
            },
        };
        let title = match &tag.title {
            Some(title) => title.clone(),
            None => String::from_str("Unknown title"),
        };
        let author = match &tag.artist {
            Some(artist) => artist.clone(),
            None => String::from_str("Unknown author"),
        };
        match json_from_str(text) {
            Some(document) => ChapterList::from_probe_document(&document, title, author),
            None => Err(Error::ChapterReadError),
        }
    }
}

} // verus!
