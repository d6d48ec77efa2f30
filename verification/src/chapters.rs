//! Chapters and the ordered timeline that owns them.

use crate::decimal::{decimal, u32_to_decimal, u64_to_decimal};
use crate::errors::{Error, ErrorView};
use vstd::prelude::*;
use vstd::std_specs::iter::IteratorSpec;
use vstd::string::StringExecFns;

verus! {

/// The mathematical value of a [`Chapter`]: a title and the two ends of its
/// interval, in milliseconds from the start of the combined media.
pub struct ChapterView {
    pub title: Seq<char>,
    pub start: nat,
    pub end: nat,
}

impl ChapterView {
    /// A chapter does not end before it starts.
    pub open spec fn is_ordered(self) -> bool {
        self.start <= self.end
    }

    /// The block that stands for this chapter in the multiplexer's metadata
    /// text: a blank line, the section header, the millisecond timebase, the
    /// two ends and the title, each on a line of its own.
    pub open spec fn ffmetadata(self) -> Seq<char> {
        "\n[CHAPTER]\nTIMEBASE=1/1000\nSTART="@ + decimal(self.start) + "\nEND="@ + decimal(
            self.end,
        ) + "\ntitle="@ + self.title + "\n"@
    }
}

/// A named interval of the timeline.
///
/// The two ends are not held to any order by the setters: whoever edits a
/// chapter keeps `start <= end` themselves.
#[derive(Debug, Clone, PartialEq, Eq)]
pub struct Chapter {
    title: String,
    start: u32,
    end: u32,
}

impl View for Chapter {
    type V = ChapterView;

    closed spec fn view(&self) -> ChapterView {
        ChapterView { title: self.title@, start: self.start as nat, end: self.end as nat }
    }
}

impl Chapter {
    /// A chapter titled `title` that runs from `start` to `end`.
    pub fn new(title: String, start: u32, end: u32) -> (chapter: Self)
        ensures
            chapter@ == (ChapterView { title: title@, start: start as nat, end: end as nat }),
    {
        Self { title, start, end }
    }

    /// A copy of the title.
    pub fn title(&self) -> (title: String)
        ensures
            title@ == self@.title,
    {
        self.title.clone()
    }

    /// Where the chapter starts.
    pub fn start(&self) -> (start: u32)
        ensures
            start == self@.start,
    {
        self.start
    }

    /// Where the chapter ends.
    pub fn end(&self) -> (end: u32)
        ensures
            end == self@.end,
    {
        self.end
    }

    /// Retitles the chapter.
    pub fn set_title(&mut self, title: String)
        ensures
            final(self)@ == (ChapterView { title: title@, ..old(self)@ }),
    {
        self.title = title;
    }

    /// Moves the start and leaves the end where it is.
    pub fn set_start(&mut self, start: u32)
        ensures
            final(self)@ == (ChapterView { start: start as nat, ..old(self)@ }),
    {
        self.start = start;
    }

    /// Moves the end and leaves the start where it is.
    pub fn set_end(&mut self, end: u32)
        ensures
            final(self)@ == (ChapterView { end: end as nat, ..old(self)@ }),
    {
        self.end = end;
    }

    /// Renders the chapter as a block of the multiplexer's metadata text.
    /// The title is written as it is: one that holds a line break or `=`
    /// breaks the format.
    pub fn ffmetadata(&self) -> (text: String)
        ensures
            text@ == self@.ffmetadata(),
    {
        let mut text = String::from_str("\n[CHAPTER]\nTIMEBASE=1/1000\nSTART=");
        let start = u32_to_decimal(self.start);
        text.append(start.as_str());
        text.append("\nEND=");
        let end = u32_to_decimal(self.end);
        text.append(end.as_str());
        text.append("\ntitle=");
        text.append(self.title.as_str());
        text.append("\n");
        text
    }
}

/// The mathematical value of a [`ChapterList`].
pub struct ChapterListView {
    pub title: Seq<char>,
    pub author: Seq<char>,
    pub chapters: Seq<ChapterView>,
}

/// The blocks of `chapters`, one after the other in the order of the
/// sequence.
pub open spec fn chapter_blocks(chapters: Seq<ChapterView>) -> Seq<char>
    decreases chapters.len(),
{
    if chapters.len() == 0 {
        Seq::empty()
    } else {
        chapter_blocks(chapters.drop_last()) + chapters.last().ffmetadata()
    }
}

/// Each of `chapters` ends where the next one starts.
pub open spec fn is_contiguous(chapters: Seq<ChapterView>) -> bool {
    forall|i: int, j: int|
        0 <= i && j == i + 1 && j < chapters.len() ==> (#[trigger] chapters[i]).end == (
        #[trigger] chapters[j]).start
}

/// None of `chapters` ends before it starts.
pub open spec fn is_ordered(chapters: Seq<ChapterView>) -> bool {
    forall|i: int| 0 <= i < chapters.len() ==> (#[trigger] chapters[i]).is_ordered()
}

/// The shape of a freshly built timeline: it starts at zero and has no gap,
/// no overlap and no chapter that runs backwards.
pub open spec fn is_timeline(chapters: Seq<ChapterView>) -> bool {
    &&& chapters.len() > 0 ==> chapters[0].start == 0
    &&& is_contiguous(chapters)
    &&& is_ordered(chapters)
}

impl ChapterListView {
    /// The chapters are a timeline: see [`is_timeline`].
    pub open spec fn is_timeline(self) -> bool {
        is_timeline(self.chapters)
    }

    /// The head of the multiplexer's metadata text: the marker line, the
    /// title, the author under the key `artist`, and the fixed genre.
    pub open spec fn ffmetadata_header(self) -> Seq<char> {
        ";FFMETADATA\ntitle="@ + self.title + "\nartist="@ + self.author
            + "\ngenre=AudioBook\n"@
    }

    /// The multiplexer's metadata text: the head, then the block of each
    /// chapter in list order.
    pub open spec fn ffmetadata(self) -> Seq<char> {
        self.ffmetadata_header() + chapter_blocks(self.chapters)
    }
}

/// What was measured of one audio file: the title its tag gives, if any,
/// and how long it plays, in milliseconds.
#[derive(Debug, Clone, PartialEq, Eq)]
pub struct Track {
    pub title: Option<String>,
    pub duration: u32,
}

/// The mathematical value of a [`Track`].
pub struct TrackView {
    pub title: Option<Seq<char>>,
    pub duration: nat,
}

impl View for Track {
    type V = TrackView;

    open spec fn view(&self) -> TrackView {
        TrackView {
            title: match self.title {
                Some(title) => Some(title@),
                None => None,
            },
            duration: self.duration as nat,
        }
    }
}

/// The tracks of `tracks`, each by its mathematical value.
pub open spec fn track_views(tracks: Seq<Track>) -> Seq<TrackView> {
    Seq::new(tracks.len(), |i: int| tracks[i]@)
}

/// How long `tracks` play one after the other.
pub open spec fn total_duration(tracks: Seq<TrackView>) -> nat
    decreases tracks.len(),
{
    if tracks.len() == 0 {
        0
    } else {
        total_duration(tracks.drop_last()) + tracks.last().duration
    }
}

/// The title of the chapter made from the track at `index`: the one its tag
/// gives, else the index in decimal notation.
pub open spec fn track_title(track: TrackView, index: int) -> Seq<char> {
    match track.title {
        Some(title) => title,
        None => decimal(index as nat),
    }
}

/// The chapter made from the track at `index`: it starts when all earlier
/// tracks have played and ends when this one has played too.
pub open spec fn track_chapter(tracks: Seq<TrackView>, index: int) -> ChapterView {
    ChapterView {
        title: track_title(tracks[index], index),
        start: total_duration(tracks.take(index)),
        end: total_duration(tracks.take(index + 1)),
    }
}

/// The chapters made from `tracks` played in order from zero.
pub open spec fn timeline(tracks: Seq<TrackView>) -> Seq<ChapterView> {
    Seq::new(tracks.len(), |i: int| track_chapter(tracks, i))
}

/// Playing one more track never shortens the total.
pub proof fn lemma_total_duration_prefix(tracks: Seq<TrackView>, n: int)
    requires
        0 <= n <= tracks.len(),
    ensures
        total_duration(tracks.take(n)) <= total_duration(tracks),
        n < tracks.len() ==> total_duration(tracks.take(n + 1)) == total_duration(tracks.take(n))
            + tracks[n].duration,
    decreases tracks.len() - n,
{
    if n < tracks.len() {
        assert(tracks.take(n + 1).drop_last() =~= tracks.take(n));
        lemma_total_duration_prefix(tracks, n + 1);
    } else {
        assert(tracks.take(n) =~= tracks);
    }
}

/// A timeline built from tracks starts at zero, each of its chapters is as
/// long as its track and ends where the next starts, and the last one ends
/// when all tracks have played.
pub proof fn lemma_timeline_is_contiguous(tracks: Seq<TrackView>)
    ensures
        timeline(tracks).len() == tracks.len(),
        tracks.len() > 0 ==> timeline(tracks)[0].start == 0,
        forall|i: int|
            0 <= i < tracks.len() - 1 ==> (#[trigger] timeline(tracks)[i]).end == timeline(
                tracks,
            )[i + 1].start,
        forall|i: int|
            0 <= i < tracks.len() ==> (#[trigger] timeline(tracks)[i]).end == timeline(
                tracks,
            )[i].start + tracks[i].duration,
        tracks.len() > 0 ==> timeline(tracks).last().end == total_duration(tracks),
        is_timeline(timeline(tracks)),
{
    let chapters = timeline(tracks);
    assert forall|i: int| 0 <= i < tracks.len() implies (#[trigger] chapters[i]).end
        == chapters[i].start + tracks[i].duration by {
        lemma_total_duration_prefix(tracks, i);
    }
    if tracks.len() > 0 {
        assert(tracks.take(0).len() == 0);
        assert(tracks.take(tracks.len() as int) =~= tracks);
    }
}

/// The blocks of two runs of chapters, one after the other, are the blocks
/// of the first run followed by the blocks of the second.
pub proof fn lemma_chapter_blocks_concat(first: Seq<ChapterView>, second: Seq<ChapterView>)
    ensures
        chapter_blocks(first + second) == chapter_blocks(first) + chapter_blocks(second),
    decreases second.len(),
{
    if second.len() == 0 {
        assert(first + second =~= first);
        assert(chapter_blocks(first) + chapter_blocks(second) =~= chapter_blocks(first));
    } else {
        lemma_chapter_blocks_concat(first, second.drop_last());
        assert((first + second).drop_last() =~= first + second.drop_last());
        assert((first + second).last() == second.last());
        assert(chapter_blocks(first + second) =~= chapter_blocks(first) + chapter_blocks(second));
    }
}

/// Rendering depends on nothing but the value of the list: two lists of
/// the same title, author and chapters render to the same text.
pub proof fn lemma_ffmetadata_is_deterministic(list: ChapterList, other: ChapterList)
    requires
        list@ == other@,
    ensures
        list@.ffmetadata() == other@.ffmetadata(),
{
}

/// The blocks stand in the rendered text in list order: after the head
/// come the blocks of all chapters before the one at `index`, then its own
/// block, then the blocks of all chapters after it.
pub proof fn lemma_ffmetadata_in_list_order(list: ChapterListView, index: int)
    requires
        0 <= index < list.chapters.len(),
    ensures
        list.ffmetadata() == list.ffmetadata_header() + chapter_blocks(list.chapters.take(index))
            + list.chapters[index].ffmetadata() + chapter_blocks(list.chapters.skip(index + 1)),
{
    let before = list.chapters.take(index);
    let one = seq![list.chapters[index]];
    let after = list.chapters.skip(index + 1);
    assert(list.chapters =~= (before + one) + after);
    lemma_chapter_blocks_concat(before + one, after);
    lemma_chapter_blocks_concat(before, one);
    assert(one.drop_last().len() == 0);
    assert(chapter_blocks(one.drop_last()) =~= Seq::<char>::empty());
    assert(one.last() == list.chapters[index]);
    assert(chapter_blocks(one) =~= list.chapters[index].ffmetadata());
    assert(list.ffmetadata() =~= list.ffmetadata_header() + chapter_blocks(before)
        + list.chapters[index].ffmetadata() + chapter_blocks(after));
}

/// An ordered timeline of chapters under a title and an author.
///
/// The order of the chapters is the order of playback. Nothing keeps the
/// chapters free of gaps and overlaps when they are edited one by one:
/// [`is_timeline`] says what a well-formed timeline is, and
/// [`ChapterList::from_path_set`] builds one.
#[derive(Debug, Clone, PartialEq, Eq)]
pub struct ChapterList {
    title: String,
    author: String,
    chapters: Vec<Chapter>,
}

impl View for ChapterList {
    type V = ChapterListView;

    closed spec fn view(&self) -> ChapterListView {
        ChapterListView {
            title: self.title@,
            author: self.author@,
            chapters: chapter_views(self.chapters@),
        }
    }
}

/// The chapters of `chapters`, each by its mathematical value.
pub open spec fn chapter_views(chapters: Seq<Chapter>) -> Seq<ChapterView> {
    Seq::new(chapters.len(), |i: int| chapters[i]@)
}

/// The mathematical value of a list or of the failure to make one.
pub open spec fn list_result(result: Result<ChapterList, Error>) -> Result<
    ChapterListView,
    ErrorView,
> {
    match result {
        Ok(list) => Ok(list@),
        Err(error) => Err(error@),
    }
}

impl ChapterList {
    /// An empty timeline.
    pub fn new(title: String, author: String) -> (list: Self)
        ensures
            list@ == (ChapterListView { title: title@, author: author@, chapters: Seq::empty() }),
    {
        let list = Self { title, author, chapters: Vec::new() };
        assert(list@.chapters =~= Seq::empty());
        list
    }

    /// Whether `tracks` played one after the other end within what a
    /// chapter's millisecond counter can hold.
    pub fn fits_timeline(tracks: &Vec<Track>) -> (fits: bool)
        ensures
            fits == (total_duration(track_views(tracks@)) <= u32::MAX),
    {
        let ghost views = track_views(tracks@);
        let mut playhead: u32 = 0;
        let mut i: usize = 0;
        while i < tracks.len()
            invariant
                i <= tracks.len(),
                views == track_views(tracks@),
                playhead == total_duration(views.take(i as int)),
            decreases tracks.len() - i,
        {
            proof {
                lemma_total_duration_prefix(views, i as int);
                lemma_total_duration_prefix(views, i as int + 1);
            }
            match playhead.checked_add(tracks[i].duration) {
                Some(end) => {
                    playhead = end;
                },
                None => {
                    return false;
                },
            }
            i = i + 1;
        }
        proof {
            assert(views.take(i as int) =~= views);
        }
        true
    }

    /// Builds the timeline of a set of audio files played in order: one
    /// chapter for each track, starting at zero, each as long as its track
    /// and titled by its tag, or by its zero-based index where the tag gives
    /// no title. The tracks together must end within what a chapter's
    /// millisecond counter can hold, which [`ChapterList::fits_timeline`]
    /// tells.
    pub fn from_path_set(tracks: &Vec<Track>, title: String, author: String) -> (list: Self)
        requires
            total_duration(track_views(tracks@)) <= u32::MAX,
        ensures
            list@ == (ChapterListView {
                title: title@,
                author: author@,
                chapters: timeline(track_views(tracks@)),
            }),
            list@.is_timeline(),
            tracks@.len() > 0 ==> list@.chapters.last().end == total_duration(
                track_views(tracks@),
            ),
    {
        let ghost views = track_views(tracks@);
        let mut chapters: Vec<Chapter> = Vec::new();
        let mut playhead: u32 = 0;
        let mut i: usize = 0;
        while i < tracks.len()
            invariant
                i <= tracks.len(),
                views == track_views(tracks@),
                total_duration(views) <= u32::MAX,
                playhead == total_duration(views.take(i as int)),
                chapters@.len() == i,
                forall|k: int| 0 <= k < i ==> (#[trigger] chapters@[k])@ == track_chapter(views, k),
            decreases tracks.len() - i,
        {
            proof {
                lemma_total_duration_prefix(views, i as int);
                lemma_total_duration_prefix(views, i as int + 1);
            }
            let chapter_title = match &tracks[i].title {
                Some(title) => title.clone(),
                None => u64_to_decimal(i as u64),
            };
            let start = playhead;
            let end = playhead + tracks[i].duration;
            chapters.push(Chapter::new(chapter_title, start, end));
            playhead = end;
            i = i + 1;
        }
        let list = Self { title, author, chapters };
        proof {
            assert(list@.chapters =~= timeline(views));
            lemma_timeline_is_contiguous(views);
        }
        list
    }

    /// Renders the timeline as the multiplexer's metadata text. Nothing is
    /// escaped: a title or an author that holds a line break or `=` breaks
    /// the format.
    pub fn ffmetadata(&self) -> (text: String)
        ensures
            text@ == self@.ffmetadata(),
    {
        let mut text = String::from_str(";FFMETADATA\ntitle=");
        text.append(self.title.as_str());
        text.append("\nartist=");
        text.append(self.author.as_str());
        text.append("\ngenre=AudioBook\n");
        let ghost header = text@;
        let mut i: usize = 0;
        while i < self.chapters.len()
            invariant
                i <= self.chapters.len(),
                header == self@.ffmetadata_header(),
                text@ == header + chapter_blocks(self@.chapters.take(i as int)),
            decreases self.chapters.len() - i,
        {
            let block = self.chapters[i].ffmetadata();
            text.append(block.as_str());
            proof {
                let done = self@.chapters.take(i as int + 1);
                assert(done.drop_last() =~= self@.chapters.take(i as int));
                assert(done.last() == self.chapters@[i as int]@);
                assert(text@ =~= header + chapter_blocks(done));
            }
            i = i + 1;
        }
        proof {
            assert(self@.chapters.take(i as int) =~= self@.chapters);
        }
        text
    }

    /// A copy of the title of the whole timeline.
    pub fn title(&self) -> (title: String)
        ensures
            title@ == self@.title,
    {
        self.title.clone()
    }

    /// A copy of the author's name.
    pub fn author(&self) -> (author: String)
        ensures
            author@ == self@.author,
    {
        self.author.clone()
    }

    /// The number of chapters.
    pub fn len(&self) -> (len: usize)
        ensures
            len == self@.chapters.len(),
    {
        self.chapters.len()
    }

    /// Appends a chapter at the end of the timeline.
    pub fn push(&mut self, new_chapter: Chapter)
        ensures
            final(self)@ == (ChapterListView {
                chapters: old(self)@.chapters.push(new_chapter@),
                ..old(self)@
            }),
    {
        self.chapters.push(new_chapter);
        assert(self@.chapters =~= old(self)@.chapters.push(new_chapter@));
    }

    /// Puts a chapter at `index` and moves the chapters from there on one
    /// place back.
    pub fn insert(&mut self, index: usize, new_chapter: Chapter)
        requires
            index <= old(self)@.chapters.len(),
        ensures
            final(self)@ == (ChapterListView {
                chapters: old(self)@.chapters.insert(index as int, new_chapter@),
                ..old(self)@
            }),
    {
        self.chapters.insert(index, new_chapter);
        assert(self@.chapters =~= old(self)@.chapters.insert(index as int, new_chapter@));
    }

    /// Takes the chapter at `index` out and moves the later ones one place
    /// forward.
    pub fn remove(&mut self, index: usize) -> (removed: Chapter)
        requires
            index < old(self)@.chapters.len(),
        ensures
            removed@ == old(self)@.chapters[index as int],
            final(self)@ == (ChapterListView {
                chapters: old(self)@.chapters.remove(index as int),
                ..old(self)@
            }),
    {
        let removed = self.chapters.remove(index);
        assert(self@.chapters =~= old(self)@.chapters.remove(index as int));
        removed
    }

    /// Every end of every chapter is a number that the 32 bits of the
    /// millisecond counter hold.
    pub proof fn lemma_counters_fit(&self)
        ensures
            forall|i: int|
                0 <= i < self@.chapters.len() ==> (#[trigger] self@.chapters[i]).start <= u32::MAX
                    && self@.chapters[i].end <= u32::MAX,
    {
    }

    /// The chapter at `index`.
    pub fn index(&self, index: usize) -> (chapter: &Chapter)
        requires
            index < self@.chapters.len(),
        ensures
            chapter@ == self@.chapters[index as int],
    {
        &self.chapters[index]
    }

    /// The chapter at `index`, to be edited in place.
    pub fn index_mut(&mut self, index: usize) -> (chapter: &mut Chapter)
        requires
            index < old(self)@.chapters.len(),
        ensures
            chapter@ == old(self)@.chapters[index as int],
            final(self)@.title == old(self)@.title,
            final(self)@.author == old(self)@.author,
            final(self)@.chapters =~= old(self)@.chapters.update(index as int, final(chapter)@),
    {
        &mut self.chapters[index]
    }

    /// Walks the chapters in list order.
    pub fn iter(&self) -> (iter: core::slice::Iter<'_, Chapter>)
        ensures
            iter.remaining().len() == self@.chapters.len(),
            forall|i: int|
                0 <= i < self@.chapters.len() ==> (#[trigger] iter.remaining()[i])@
                    == self@.chapters[i],
    {
        self.chapters.iter()
    }

    /// Walks the chapters in list order, each to be edited in place. The
    /// walk starts with every chapter of the list still to come, the first
    /// one first, and changes neither the title, nor the author, nor the
    /// number of chapters.
    pub fn iter_mut(&mut self) -> (iter: core::slice::IterMut<'_, Chapter>)
        ensures
            chapters_to_come(iter) == old(self)@.chapters,
            final(self)@.title == old(self)@.title,
            final(self)@.author == old(self)@.author,
            final(self)@.chapters.len() == old(self)@.chapters.len(),
    {
        slice_iter_mut(&mut self.chapters)
    }
}

#[verifier::external_type_specification]
#[verifier::external_body]
#[verifier::reject_recursive_types(T)]
pub struct ExSliceIterMut<'a, T: 'a>(core::slice::IterMut<'a, T>);

/// The chapters that a walk has yet to hand out, in the order in which it
/// hands them out.
pub uninterp spec fn chapters_to_come(iter: core::slice::IterMut<'_, Chapter>) -> Seq<ChapterView>;

/// `<[T]>::iter_mut`: an iterator that hands out each element to be
/// changed, all of them from the first to the last. It neither adds nor
/// removes one.
#[verifier::external_body]
fn slice_iter_mut(chapters: &mut Vec<Chapter>) -> (iter: core::slice::IterMut<'_, Chapter>)
    ensures
        chapters_to_come(iter) == chapter_views(old(chapters)@),
        final(chapters)@.len() == old(chapters)@.len(),
{
    chapters.iter_mut()
}

} // verus!
