//! Classifies the lines that the downloader writes, and decides how each is
//! shown to the operator.

use crate::error::{parse_error_line, ErrorRecord, YtdlpError, ITEM_TAG, UNAVAILABLE_ID};
use crate::parser::Verbosity;
use crate::text::{
    contains, is_space, is_word, join_words, lemma_words_of_join, occurs_at, str_contains, words,
};
use vstd::prelude::*;

verus! {

/// Marks a line that reports a failure.
pub const ERROR_MARKER: &'static str = "ERROR:";

/// Marks a line that reports the progress of a download.
pub const DOWNLOAD_MARKER: &'static str = "[download]";

/// Marks a line that says that a file is written anew.
pub const DELETING_MARKER: &'static str = "Deleting existing file ";

/// Marks a line that describes the item.
pub const INFO_MARKER: &'static str = "[info]";

/// Marks a line of the post-processor that converts a file.
pub const CONVERTOR_MARKER: &'static str = "[VideoConvertor]";

/// The usage line that the downloader prints when it does not understand its
/// arguments.
pub const USAGE_MARKER: &'static str = "Usage: yt-dlp [OPTIONS] URL [URL...]";

/// The kinds of informational line.
#[derive(Debug, Clone, Copy, PartialEq, Eq, Structural)]
pub enum InfoKind {
    /// An existing file is replaced.
    Overwrite,
    /// A description of the item.
    Metadata,
    /// A file is converted.
    Conversion,
    /// The downloader rejected its arguments.
    Usage,
}

/// The class of a line, as a mathematical value.
pub ghost enum LineClass {
    Progress,
    Info(InfoKind),
    Error(ErrorRecord),
    Unclassified,
}

/// One line of the downloader's output, classified.
pub enum OutputLine {
    /// A download moves on.
    Progress,
    /// Something the operator may want to know.
    Info(InfoKind),
    /// A failure, with what the line says of it.
    Error(YtdlpError),
    /// Anything else.
    Unclassified,
}

impl View for OutputLine {
    type V = LineClass;

    open spec fn view(&self) -> LineClass {
        match self {
            OutputLine::Progress => LineClass::Progress,
            OutputLine::Info(kind) => LineClass::Info(*kind),
            OutputLine::Error(e) => LineClass::Error(e@),
            OutputLine::Unclassified => LineClass::Unclassified,
        }
    }
}

/// The class of `line`.
///
/// A line that holds the error marker is an error, whatever else it holds.
/// The other markers are tried in a fixed order, and a line with none of them
/// is unclassified.
pub open spec fn classify(line: Seq<char>) -> LineClass {
    if contains(line, ERROR_MARKER@) {
        LineClass::Error(parse_error_line(line))
    } else if contains(line, DOWNLOAD_MARKER@) {
        LineClass::Progress
    } else if contains(line, DELETING_MARKER@) {
        LineClass::Info(InfoKind::Overwrite)
    } else if contains(line, INFO_MARKER@) {
        LineClass::Info(InfoKind::Metadata)
    } else if contains(line, CONVERTOR_MARKER@) {
        LineClass::Info(InfoKind::Conversion)
    } else if contains(line, USAGE_MARKER@) {
        LineClass::Info(InfoKind::Usage)
    } else {
        LineClass::Unclassified
    }
}

/// An error line about one item gives the item and the reason.
///
/// Let the line hold the error marker. Where its second word is the item
/// tag and its third word is `id` with a colon behind it, the line is
/// classified as an error of the item `id`, and the message is what the
/// words after the third give when they are joined by single spaces.
pub proof fn law_item_error_line(line: Seq<char>, id: Seq<char>)
    requires
        contains(line, ERROR_MARKER@),
        words(line).len() >= 3,
        words(line)[1] == ITEM_TAG@,
        words(line)[2] == id.push(':'),
    ensures
        classify(line) == LineClass::Error(
            ErrorRecord { item_identifier: id, message: join_words(words(line).skip(3)) },
        ),
{
    assert(id.push(':').drop_last() =~= id);
}

/// A line that is written as the downloader writes its errors about items
/// is read back as it was written.
///
/// Let `id` hold no space and let `reason` be words. Then the line made of
/// the error marker, the item tag, `id` with a colon behind it and the words
/// of `reason`, with single spaces between them, is classified as an error of
/// the item `id` with the words of `reason` as its message.
pub proof fn law_written_item_line(id: Seq<char>, reason: Seq<Seq<char>>)
    requires
        forall|i: int| 0 <= i < id.len() ==> !is_space(#[trigger] id[i]),
        forall|i: int| 0 <= i < reason.len() ==> is_word(#[trigger] reason[i]),
    ensures
        classify(join_words(seq![ERROR_MARKER@, ITEM_TAG@, id.push(':')] + reason))
            == LineClass::Error(
            ErrorRecord { item_identifier: id, message: join_words(reason) },
        ),
{
    reveal_strlit("ERROR:");
    reveal_strlit("[youtube]");
    let ws = seq![ERROR_MARKER@, ITEM_TAG@, id.push(':')] + reason;
    let line = join_words(ws);
    assert(is_word(ERROR_MARKER@));
    assert(is_word(ITEM_TAG@));
    assert(is_word(id.push(':'))) by {
        assert forall|i: int| 0 <= i < id.push(':').len() implies !is_space(
            #[trigger] id.push(':')[i],
        ) by {
            if i < id.len() {
                assert(id.push(':')[i] == id[i]);
            }
        }
    }
    assert forall|i: int| 0 <= i < ws.len() implies is_word(#[trigger] ws[i]) by {
        if i >= 3 {
            assert(ws[i] == reason[i - 3]);
        }
    }
    lemma_words_of_join(ws);
    assert(ws.skip(3) =~= reason);
    assert(line =~= ERROR_MARKER@ + seq![' '] + join_words(ws.drop_first()));
    assert(line.subrange(0, ERROR_MARKER@.len() as int) =~= ERROR_MARKER@);
    assert(occurs_at(line, ERROR_MARKER@, 0));
    law_item_error_line(line, id);
}

/// An error line without the item tag names no item.
///
/// Let the line hold the error marker. Where its second word is not the item
/// tag, the line is classified as an error of the sentinel item, and the
/// message is all of the line after its first word, joined by single spaces.
pub proof fn law_collection_error_line(line: Seq<char>)
    requires
        contains(line, ERROR_MARKER@),
        words(line).len() >= 2,
        words(line)[1] != ITEM_TAG@,
    ensures
        classify(line) == LineClass::Error(
            ErrorRecord {
                item_identifier: UNAVAILABLE_ID@,
                message: join_words(words(line).skip(1)),
            },
        ),
{
}

/// Classifies one line of the downloader's output.
pub fn classify_line(line: &str) -> (r: OutputLine)
    ensures
        r@ == classify(line@),
{
    if str_contains(line, ERROR_MARKER) {
        OutputLine::Error(YtdlpError::from_error_output(line))
    } else if str_contains(line, DOWNLOAD_MARKER) {
        OutputLine::Progress
    } else if str_contains(line, DELETING_MARKER) {
        OutputLine::Info(InfoKind::Overwrite)
    } else if str_contains(line, INFO_MARKER) {
        OutputLine::Info(InfoKind::Metadata)
    } else if str_contains(line, CONVERTOR_MARKER) {
        OutputLine::Info(InfoKind::Conversion)
    } else if str_contains(line, USAGE_MARKER) {
        OutputLine::Info(InfoKind::Usage)
    } else {
        OutputLine::Unclassified
    }
}

/// The markers that are shown in colour in front of the rest of their line.
#[derive(Debug, Clone, Copy, PartialEq, Eq, Structural)]
pub enum Highlight {
    Download,
    Info,
    Convertor,
}

/// The text of a highlighted marker.
pub open spec fn highlight_marker(kind: Highlight) -> Seq<char> {
    match kind {
        Highlight::Download => DOWNLOAD_MARKER@,
        Highlight::Info => INFO_MARKER@,
        Highlight::Convertor => CONVERTOR_MARKER@,
    }
}

/// What stands in `line` behind the first characters, as many as the marker
/// of `kind` has.
pub open spec fn after_marker(line: Seq<char>, kind: Highlight) -> Seq<char> {
    let m = highlight_marker(kind).len() as int;
    if m <= line.len() {
        line.skip(m)
    } else {
        Seq::empty()
    }
}

/// How a line is shown, as a mathematical value.
pub ghost enum Shown {
    Hidden,
    Plain,
    Failure,
    Highlighted { kind: Highlight, rest: Seq<char> },
    InvalidCommand,
    Undecodable,
}

/// How the operator gets to see one line.
#[derive(Debug)]
pub enum LineDisplay {
    /// The line is not shown.
    Hidden,
    /// The line is shown as it is.
    Plain,
    /// The line is shown as it is, in the colour of errors.
    Failure,
    /// The coloured marker of `kind` is shown, and `rest` behind it.
    Highlighted { kind: Highlight, rest: String },
    /// A notice that the downloader rejected the command is shown instead.
    InvalidCommand,
    /// A notice that the line was not valid text is shown instead.
    Undecodable,
}

impl View for LineDisplay {
    type V = Shown;

    open spec fn view(&self) -> Shown {
        match self {
            LineDisplay::Hidden => Shown::Hidden,
            LineDisplay::Plain => Shown::Plain,
            LineDisplay::Failure => Shown::Failure,
            LineDisplay::Highlighted { kind, rest } => Shown::Highlighted {
                kind: *kind,
                rest: rest@,
            },
            LineDisplay::InvalidCommand => Shown::InvalidCommand,
            LineDisplay::Undecodable => Shown::Undecodable,
        }
    }
}

/// How a line of class `class` is shown at `verbosity`.
///
/// Nothing is shown when quiet. When verbose every line is shown, errors in
/// their colour. Otherwise errors are shown in their colour, progress and
/// information behind their coloured marker, and unclassified lines not at
/// all.
pub open spec fn display_of(class: LineClass, line: Seq<char>, verbosity: Verbosity) -> Shown {
    match verbosity {
        Verbosity::Quiet => Shown::Hidden,
        Verbosity::Verbose => match class {
            LineClass::Error(_) => Shown::Failure,
            _ => Shown::Plain,
        },
        Verbosity::Default => match class {
            LineClass::Error(_) => Shown::Failure,
            LineClass::Progress => Shown::Highlighted {
                kind: Highlight::Download,
                rest: after_marker(line, Highlight::Download),
            },
            LineClass::Info(InfoKind::Overwrite) => Shown::Plain,
            LineClass::Info(InfoKind::Metadata) => Shown::Highlighted {
                kind: Highlight::Info,
                rest: after_marker(line, Highlight::Info),
            },
            LineClass::Info(InfoKind::Conversion) => Shown::Highlighted {
                kind: Highlight::Convertor,
                rest: after_marker(line, Highlight::Convertor),
            },
            LineClass::Info(InfoKind::Usage) => Shown::InvalidCommand,
            LineClass::Unclassified => Shown::Hidden,
        },
    }
}

/// How a line that is not valid text is reported at `verbosity`.
pub open spec fn undecodable_display_of(verbosity: Verbosity) -> Shown {
    match verbosity {
        Verbosity::Quiet => Shown::Hidden,
        _ => Shown::Undecodable,
    }
}

/// The error that a line of class `class` adds to the collected ones.
pub open spec fn error_of(class: LineClass) -> Option<ErrorRecord> {
    match class {
        LineClass::Error(record) => Some(record),
        _ => None,
    }
}

/// The record inside an optional error.
pub open spec fn record_of(error: Option<YtdlpError>) -> Option<ErrorRecord> {
    match error {
        Some(e) => Some(e@),
        None => None,
    }
}

/// What one line of output leads to: what is shown, and the error to keep.
pub struct Observation {
    pub display: LineDisplay,
    pub error: Option<YtdlpError>,
}

/// The marker of `kind`.
pub fn marker_text(kind: Highlight) -> (r: &'static str)
    ensures
        r@ == highlight_marker(kind),
{
    match kind {
        Highlight::Download => DOWNLOAD_MARKER,
        Highlight::Info => INFO_MARKER,
        Highlight::Convertor => CONVERTOR_MARKER,
    }
}

/// Cuts the marker of `kind` off the front of `line`.
fn highlighted(line: &str, kind: Highlight) -> (r: LineDisplay)
    ensures
        r@ == (Shown::Highlighted { kind, rest: after_marker(line@, kind) }),
{
    let skip = marker_text(kind).unicode_len();
    let len = line.unicode_len();
    let rest = if skip <= len {
        line.substring_char(skip, len).to_owned()
    } else {
        String::new()
    };
    LineDisplay::Highlighted { kind, rest }
}

/// Classifies one line of the downloader's output and decides how it is
/// shown at `verbosity`.
pub fn observe_line(line: &str, verbosity: Verbosity) -> (r: Observation)
    ensures
        r.display@ == display_of(classify(line@), line@, verbosity),
        record_of(r.error) == error_of(classify(line@)),
{
    let class = classify_line(line);
    let display = match verbosity {
        Verbosity::Quiet => LineDisplay::Hidden,
        Verbosity::Verbose => match &class {
            OutputLine::Error(_) => LineDisplay::Failure,
            _ => LineDisplay::Plain,
        },
        Verbosity::Default => match &class {
            OutputLine::Error(_) => LineDisplay::Failure,
            OutputLine::Progress => highlighted(line, Highlight::Download),
            OutputLine::Info(InfoKind::Overwrite) => LineDisplay::Plain,
            OutputLine::Info(InfoKind::Metadata) => highlighted(line, Highlight::Info),
            OutputLine::Info(InfoKind::Conversion) => highlighted(line, Highlight::Convertor),
            OutputLine::Info(InfoKind::Usage) => LineDisplay::InvalidCommand,
            OutputLine::Unclassified => LineDisplay::Hidden,
        },
    };
    let error = match class {
        OutputLine::Error(e) => Some(e),
        _ => None,
    };
    Observation { display, error }
}

/// Decides how a line that could not be decoded as text is reported.
pub fn observe_undecodable(verbosity: Verbosity) -> (r: LineDisplay)
    ensures
        r@ == undecodable_display_of(verbosity),
{
    match verbosity {
        Verbosity::Quiet => LineDisplay::Hidden,
        _ => LineDisplay::Undecodable,
    }
}

} // verus!
