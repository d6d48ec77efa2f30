//! The external tools: with which arguments they are run, and what the end
//! of a run means.
//!
//! Nothing here starts a process. A caller runs the tool with the arguments
//! that this module gives, reports what became of the run as a
//! [`RunOutcome`], and gets back the result of the operation.

use crate::decimal::{decimal, u32_to_decimal};
use crate::errors::{Error, ErrorView};
use crate::text::{push_text, texts};
use vstd::prelude::*;
use vstd::string::StringExecFns;

verus! {

/// The code reported for a multiplexer that ended without an exit code.
pub const NO_EXIT_CODE: i32 = -1;

/// What became of the attempt to run a tool.
#[derive(Debug, Clone, Copy, PartialEq, Eq)]
pub enum RunOutcome {
    /// The tool could not be started because no such program was found.
    NotFound,
    /// The tool could not be started for any other reason.
    Failed,
    /// The tool ran and ended with this exit code, or without one when it
    /// was ended from outside.
    Exited(Option<i32>),
}

/// The result of an operation that ran the multiplexer found at `path`.
pub open spec fn ffmpeg_verdict(outcome: RunOutcome, path: Seq<char>) -> Result<(), ErrorView> {
    match outcome {
        RunOutcome::NotFound => Err(ErrorView::FfmpegNotFoundError(path)),
        RunOutcome::Failed => Err(ErrorView::IoError),
        RunOutcome::Exited(Some(code)) => if code == 0 {
            Ok(())
        } else {
            Err(ErrorView::FfmpegError(code as int))
        },
        RunOutcome::Exited(None) => Err(ErrorView::FfmpegError(NO_EXIT_CODE as int)),
    }
}

/// Whether the prober's output can be read after a run that ended in
/// `outcome`: it can whenever the prober ran, whatever its exit code.
pub open spec fn ffprobe_verdict(outcome: RunOutcome) -> Result<(), ErrorView> {
    match outcome {
        RunOutcome::NotFound => Err(ErrorView::FfprobeNotFoundError),
        RunOutcome::Failed => Err(ErrorView::IoError),
        RunOutcome::Exited(_) => Ok(()),
    }
}

/// The mathematical value of the result of a run.
pub open spec fn verdict_view(result: Result<(), Error>) -> Result<(), ErrorView> {
    match result {
        Ok(()) => Ok(()),
        Err(error) => Err(error@),
    }
}

/// Judges a run of the multiplexer found at `ffmpeg_path`. Exit code 0 is
/// success. Any other exit code is a failure that carries the code, and a
/// run that ended without one carries [`NO_EXIT_CODE`]. A multiplexer that
/// was not found is told apart from every other failure to start it, and
/// named by its path.
pub fn ffmpeg_result(outcome: RunOutcome, ffmpeg_path: &str) -> (result: Result<(), Error>)
    ensures
        verdict_view(result) == ffmpeg_verdict(outcome, ffmpeg_path@),
{
    match outcome {
        RunOutcome::NotFound => Err(Error::FfmpegNotFoundError(String::from_str(ffmpeg_path))),
        RunOutcome::Failed => Err(Error::IoError),
        RunOutcome::Exited(Some(code)) => if code == 0 {
            Ok(())
        } else {
            Err(Error::FfmpegError(code))
        },
        RunOutcome::Exited(None) => Err(Error::FfmpegError(NO_EXIT_CODE)),
    }
}

/// Judges a run of the prober. A prober that was not found is told apart
/// from every other failure to start it; once it ran, its output is read
/// whatever its exit code.
pub fn ffprobe_result(outcome: RunOutcome) -> (result: Result<(), Error>)
    ensures
        verdict_view(result) == ffprobe_verdict(outcome),
{
    match outcome {
        RunOutcome::NotFound => Err(Error::FfprobeNotFoundError),
        RunOutcome::Failed => Err(Error::IoError),
        RunOutcome::Exited(_) => Ok(()),
    }
}

/// The arguments with which the prober prints the chapters of the file at
/// `path` as JSON and nothing else.
pub open spec fn probe_arguments_spec(path: Seq<char>) -> Seq<Seq<char>> {
    seq!["-v"@, "quiet"@, "-print_format"@, "json"@, "-show_chapters"@, path]
}

/// The arguments with which the prober prints the chapters of the file at
/// `path` as JSON and nothing else.
pub fn probe_arguments(path: &str) -> (arguments: Vec<String>)
    ensures
        texts(arguments@) == probe_arguments_spec(path@),
{
    let mut arguments: Vec<String> = Vec::new();
    push_text(&mut arguments, "-v");
    push_text(&mut arguments, "quiet");
    push_text(&mut arguments, "-print_format");
    push_text(&mut arguments, "json");
    push_text(&mut arguments, "-show_chapters");
    push_text(&mut arguments, path);
    assert(texts(arguments@) =~= probe_arguments_spec(path@));
    arguments
}

/// The arguments with which the multiplexer copies every stream of the
/// file at `input` to `output` and takes the metadata and the chapters
/// from the metadata text at `metadata`, and from nowhere else.
pub open spec fn mux_arguments_spec(input: Seq<char>, metadata: Seq<char>, output: Seq<char>)
    -> Seq<Seq<char>> {
    seq![
        "-i"@,
        input,
        "-i"@,
        metadata,
        "-map_metadata"@,
        "1"@,
        "-map_chapters"@,
        "1"@,
        "-c"@,
        "copy"@,
        output,
    ]
}

/// The arguments with which the multiplexer embeds the metadata text at
/// `metadata_path` into a copy of `input_path`, written to `output_path`:
/// the input comes first, the metadata text second, metadata and chapters
/// are taken from the second, and every stream is copied as it is.
pub fn mux_arguments(input_path: &str, metadata_path: &str, output_path: &str) -> (arguments:
    Vec<String>)
    ensures
        texts(arguments@) == mux_arguments_spec(input_path@, metadata_path@, output_path@),
{
    let mut arguments: Vec<String> = Vec::new();
    push_text(&mut arguments, "-i");
    push_text(&mut arguments, input_path);
    push_text(&mut arguments, "-i");
    push_text(&mut arguments, metadata_path);
    push_text(&mut arguments, "-map_metadata");
    push_text(&mut arguments, "1");
    push_text(&mut arguments, "-map_chapters");
    push_text(&mut arguments, "1");
    push_text(&mut arguments, "-c");
    push_text(&mut arguments, "copy");
    push_text(&mut arguments, output_path);
    assert(texts(arguments@) =~= mux_arguments_spec(
        input_path@,
        metadata_path@,
        output_path@,
    ));
    arguments
}

/// The bitrate argument for `bitrate` kilobits per second.
pub open spec fn bitrate_argument(bitrate: nat) -> Seq<char> {
    decimal(bitrate) + "k"@
}

/// The arguments with which the multiplexer joins the files listed at
/// `list` into `output`, encodes the audio as AAC at `bitrate` kilobits per
/// second and takes the metadata and the chapters from the metadata text
/// at `metadata`, and from nowhere else.
pub open spec fn combine_arguments_spec(
    list: Seq<char>,
    metadata: Seq<char>,
    bitrate: nat,
    output: Seq<char>,
) -> Seq<Seq<char>> {
    seq![
        "-f"@,
        "concat"@,
        "-safe"@,
        "0"@,
        "-i"@,
        list,
        "-i"@,
        metadata,
        "-map_metadata"@,
        "1"@,
        "-map_chapters"@,
        "1"@,
        "-c:a"@,
        "aac"@,
        "-b:a"@,
        bitrate_argument(bitrate),
        output,
    ]
}

/// The arguments with which the multiplexer joins the files listed at
/// `list_path` into `output_path`: the list is read in concatenation mode,
/// the metadata text at `metadata_path` comes second, metadata and
/// chapters are taken from the second as they are when chapters are
/// embedded, and the audio is encoded as AAC at `bitrate` kilobits per
/// second.
pub fn combine_arguments(list_path: &str, metadata_path: &str, bitrate: u32, output_path: &str)
    -> (arguments: Vec<String>)
    ensures
        texts(arguments@) == combine_arguments_spec(
            list_path@,
            metadata_path@,
            bitrate as nat,
            output_path@,
        ),
{
    let mut rate = u32_to_decimal(bitrate);
    rate.append("k");
    let mut arguments: Vec<String> = Vec::new();
    push_text(&mut arguments, "-f");
    push_text(&mut arguments, "concat");
    push_text(&mut arguments, "-safe");
    push_text(&mut arguments, "0");
    push_text(&mut arguments, "-i");
    push_text(&mut arguments, list_path);
    push_text(&mut arguments, "-i");
    push_text(&mut arguments, metadata_path);
    push_text(&mut arguments, "-map_metadata");
    push_text(&mut arguments, "1");
    push_text(&mut arguments, "-map_chapters");
    push_text(&mut arguments, "1");
    push_text(&mut arguments, "-c:a");
    push_text(&mut arguments, "aac");
    push_text(&mut arguments, "-b:a");
    push_text(&mut arguments, rate.as_str());
    push_text(&mut arguments, output_path);
    assert(texts(arguments@) =~= combine_arguments_spec(
        list_path@,
        metadata_path@,
        bitrate as nat,
        output_path@,
    ));
    arguments
}

/// How the list of files writes one character of a path: a single quote
/// ends the quoted stretch, stands escaped by a backslash and opens the
/// next stretch; every other character stands as it is.
pub open spec fn escaped_char(c: char) -> Seq<char> {
    if c == '\'' {
        seq!['\'', '\\', '\'', '\'']
    } else {
        seq![c]
    }
}

/// A path as it stands between the single quotes of the list of files:
/// each of its characters written as [`escaped_char`] says.
pub open spec fn escaped_path(path: Seq<char>) -> Seq<char>
    decreases path.len(),
{
    if path.len() == 0 {
        Seq::empty()
    } else {
        escaped_path(path.drop_last()) + escaped_char(path.last())
    }
}

/// One line of the list of files that the multiplexer joins: the escaped
/// path between single quotes after the word `file`.
pub open spec fn concat_line(path: Seq<char>) -> Seq<char> {
    "file '"@ + escaped_path(path) + "'"@
}

/// The list of files that the multiplexer joins: one line for each path, in
/// order, with a line break between two lines and none at the end.
pub open spec fn concat_list_spec(paths: Seq<Seq<char>>) -> Seq<char>
    decreases paths.len(),
{
    if paths.len() == 0 {
        Seq::empty()
    } else if paths.len() == 1 {
        concat_line(paths[0])
    } else {
        concat_list_spec(paths.drop_last()) + "\n"@ + concat_line(paths.last())
    }
}

/// Escapes `path` for the single quotes of the list of files: every
/// single quote of the path is written `'\''`.
pub fn escape_path(path: &str) -> (escaped: String)
    ensures
        escaped@ == escaped_path(path@),
{
    let ghost chars = path@;
    let mut escaped = String::new();
    for c in it: path.chars()
        invariant
            it.seq() == chars,
            chars == path@,
            escaped@ == escaped_path(chars.take(it.index() as int)),
    {
        let ghost at = it.index() as int;
        let ghost before = escaped@;
        if c == '\'' {
            escaped.append("'\\''");
            proof {
                reveal_strlit("'\\''");
                assert("'\\''"@ =~= escaped_char(c));
            }
        } else {
            escaped.push(c);
            proof {
                assert(before.push(c) =~= before + escaped_char(c));
            }
        }
        proof {
            let done = chars.take(at + 1);
            assert(done.drop_last() =~= chars.take(at));
            assert(done.last() == c);
        }
    }
    proof {
        assert(chars.take(chars.len() as int) =~= chars);
    }
    escaped
}

/// Writes the list of files that the multiplexer joins in concatenation
/// mode. Each path stands between single quotes, and a single quote of
/// the path itself is written `'\''`, so that the multiplexer reads the
/// path back as it is.
pub fn concat_list(paths: &Vec<String>) -> (list: String)
    ensures
        list@ == concat_list_spec(texts(paths@)),
{
    let mut list = String::new();
    let mut i: usize = 0;
    while i < paths.len()
        invariant
            i <= paths.len(),
            list@ == concat_list_spec(texts(paths@).take(i as int)),
        decreases paths.len() - i,
    {
        let ghost before = texts(paths@).take(i as int);
        let ghost after = texts(paths@).take(i as int + 1);
        if i > 0 {
            list.append("\n");
        }
        list.append("file '");
        let escaped = escape_path(paths[i].as_str());
        list.append(escaped.as_str());
        list.append("'");
        proof {
            assert(after.drop_last() =~= before);
            assert(after.last() == paths@[i as int]@);
            assert(list@ =~= concat_list_spec(after));
        }
        i = i + 1;
    }
    proof {
        assert(texts(paths@).take(i as int) =~= texts(paths@));
    }
    list
}

} // verus!
