//! What can go wrong: the errors of the program itself, and the failures
//! that the downloader reports line by line.

use crate::text::{join_from, join_words, split_words, words, words_from};
use vstd::prelude::*;

verus! {

pub const BROKEN_URL_ERR: &'static str =
    "The URL you provided wasn't recognized, try using a regular youtube URL";

pub const UNSUPPORTED_WEBSITE_ERR: &'static str =
    "Currently blob-dl only supports downloading youtube videos or playlists, not content from other websites";

pub const UNKNOWN_ISSUE_ERR: &'static str =
    "Congrats! You ran into an unknown issue, please file a report on blob-dl's github page :)";

pub const MISSING_ARGUMENT_ERR: &'static str = "You must provide 1 URL";

pub const JSON_SERIALIZATION_ERR: &'static str =
    "There was a problem serializing this video's format information";

pub const UTF8_ERR: &'static str =
    "This video's format information contained non-UTF8 characters and broke the parser, best and smallest quality should still work!";

pub const SERDE_ERR: &'static str =
    "Serde ran into a problem when serializing this video's format information.\nThis most likely happened because the video you are trying to download is private/copyright claimed\nJson-y reason:";

pub const IO_ERR: &'static str = "There was an IO error: ";

pub const URL_QUERY_COULD_NOT_BE_PARSED: &'static str =
    "This URL's query could not be parsed, try using a regular youtube URL";

pub const URL_INDEX_PARSING_ERR: &'static str =
    "The video's index in the playlist couldn't be parsed, please report this issue to the github page";

pub const PLAYLIST_URL_ERROR: &'static str =
    "The index/id for the video that you want to download in the playlist could not be parsed.\nTo download just this video try using a URL which links directly to it instead of going through a playlist";

pub const URL_NOT_PROVIDED_ERROR: &'static str =
    "You didn't provide a URL for the video you want to download. The issue most likely has to do with a configuration file.\nTo report this error or learn more about config files please visit the GitHub page";

pub const FORMAT_PREFERENCE_NOT_PROVIDED_ERROR: &'static str =
    "You didn't provide a format preference for the video you want to download. The issue most likely has to do with a configuration file.\nTo report this error or learn more about config files please visit the GitHub page";

pub const OUTPUT_PATH_NOT_PROVIDED_ERROR: &'static str =
    "You didn't provide an output path for the video you want to download. The issue most likely has to do with a configuration file.\nTo report this error or learn more about config files please visit the GitHub page";

pub const INCLUDE_INDEXES_NOT_PROVIDED_ERROR: &'static str =
    "You didn't specify whether indexes should be included in the title of the videos you want to download. The issue most likely has to do with a configuration file.\nTo report this error or learn more about config files please visit the GitHub page";

pub const DOWNLOAD_TARGET_NOT_PROVIDED_ERROR: &'static str =
    "There was an issue figuring out the download target (whether your link refers to a single video or playlist).\nTo report this error please visit the GitHub page";

pub const MEDIA_SELECTION_NOT_PROVIDED_ERROR: &'static str =
    "You didn't provide a media selection for the video you want to download (media selection means whether you want to download audio only/video only/full video). The issue most likely has to do with a configuration file.\nTo report this error or learn more about config files please visit the GitHub page";

pub const CHOSEN_FORMAT_NOT_PROVIDED_ERROR: &'static str =
    "You didn't provide a download format for the video you want to download. The issue most likely has to do with a configuration file.\nTo report this error or learn more about config files please visit the GitHub page";

pub const CONFIG_FILE_NOT_FOUND_ERR: &'static str =
    "No valid home directory path could be retrieved from the operating system. (this problem has to do with the default location of your config file)";

pub const JSON_GENERATION_ERR: &'static str =
    "yt-dlp didn't generate the json needed to parse formats for your video.\nThis most likely happened because the video you are trying to download is private/copyright claimed\nIf you are running the recommended version of yt-dlp please report this to the GitHub page.";

/// Everything that can go wrong between the command line and the downloader.
#[derive(Debug, PartialEq, Eq)]
pub enum BlobdlError {
    QueryNotFound,
    UnknownUrl,
    UnsupportedWebsite,
    DomainNotFound,
    UrlParsingError,
    UnknownIssue,
    MissingArgument,
    JsonSerializationError,
    Utf8Error,
    UrlIndexParsingError,
    /// The format information could not be read; the text says why.
    SerdeError(String),
    /// Reading or writing failed; the text says why.
    IoError(String),
    QueryCouldNotBeParsed,
    PlaylistUrlError,
    /// The downloader could not be started to ask for its version. This does
    /// not stop the program.
    CommandNotSpawned,
    UrlNotProvided,
    FormatPreferenceNotProvided,
    OutputPathNotProvided,
    DownloadTargetNotProvided,
    IncludeIndexesNotProvided,
    MediaSelectedNotProvided,
    ChosenFormatNotProvided,
    ConfigFileNotFound,
    JsonGenerationError,
}

/// What the operator is told about an error. Nothing is told about a
/// downloader that could not be asked for its version.
pub open spec fn report_of(error: BlobdlError) -> Option<Seq<char>> {
    match error {
        BlobdlError::QueryNotFound => Some(BROKEN_URL_ERR@),
        BlobdlError::UnknownUrl => Some(BROKEN_URL_ERR@),
        BlobdlError::UnsupportedWebsite => Some(UNSUPPORTED_WEBSITE_ERR@),
        BlobdlError::DomainNotFound => Some(BROKEN_URL_ERR@),
        BlobdlError::UrlParsingError => Some(BROKEN_URL_ERR@),
        BlobdlError::UnknownIssue => Some(UNKNOWN_ISSUE_ERR@),
        BlobdlError::MissingArgument => Some(MISSING_ARGUMENT_ERR@),
        BlobdlError::JsonSerializationError => Some(JSON_SERIALIZATION_ERR@),
        BlobdlError::Utf8Error => Some(UTF8_ERR@),
        BlobdlError::UrlIndexParsingError => Some(URL_INDEX_PARSING_ERR@),
        BlobdlError::SerdeError(reason) => Some(SERDE_ERR@ + seq![' '] + reason@),
        BlobdlError::IoError(reason) => Some(IO_ERR@ + seq![' '] + reason@),
        BlobdlError::QueryCouldNotBeParsed => Some(URL_QUERY_COULD_NOT_BE_PARSED@),
        BlobdlError::PlaylistUrlError => Some(PLAYLIST_URL_ERROR@),
        BlobdlError::CommandNotSpawned => None,
        BlobdlError::UrlNotProvided => Some(URL_NOT_PROVIDED_ERROR@),
        BlobdlError::FormatPreferenceNotProvided => Some(FORMAT_PREFERENCE_NOT_PROVIDED_ERROR@),
        BlobdlError::OutputPathNotProvided => Some(OUTPUT_PATH_NOT_PROVIDED_ERROR@),
        BlobdlError::DownloadTargetNotProvided => Some(DOWNLOAD_TARGET_NOT_PROVIDED_ERROR@),
        BlobdlError::IncludeIndexesNotProvided => Some(INCLUDE_INDEXES_NOT_PROVIDED_ERROR@),
        BlobdlError::MediaSelectedNotProvided => Some(MEDIA_SELECTION_NOT_PROVIDED_ERROR@),
        BlobdlError::ChosenFormatNotProvided => Some(CHOSEN_FORMAT_NOT_PROVIDED_ERROR@),
        BlobdlError::ConfigFileNotFound => Some(CONFIG_FILE_NOT_FOUND_ERR@),
        BlobdlError::JsonGenerationError => Some(JSON_GENERATION_ERR@),
    }
}

/// The text with a reason behind it, parted by a space.
fn with_reason(text: &str, reason: &String) -> (r: String)
    ensures
        r@ == text@ + seq![' '] + reason@,
{
    let mut r = text.to_owned();
    r.append(" ");
    r.append(reason.as_str());
    proof {
        reveal_strlit(" ");
        assert(" "@ =~= seq![' ']);
    }
    r
}

impl BlobdlError {
    /// What the operator is told about this error.
    pub fn report(&self) -> (r: Option<String>)
        ensures
            match r {
                Some(text) => report_of(*self) == Some(text@),
                None => report_of(*self) is None,
            },
    {
        let text = match self {
            BlobdlError::QueryNotFound => BROKEN_URL_ERR,
            BlobdlError::UnknownUrl => BROKEN_URL_ERR,
            BlobdlError::UnsupportedWebsite => UNSUPPORTED_WEBSITE_ERR,
            BlobdlError::DomainNotFound => BROKEN_URL_ERR,
            // The link appears to be completely broken
            BlobdlError::UrlParsingError => BROKEN_URL_ERR,
            BlobdlError::UnknownIssue => UNKNOWN_ISSUE_ERR,
            BlobdlError::MissingArgument => MISSING_ARGUMENT_ERR,
            BlobdlError::JsonSerializationError => JSON_SERIALIZATION_ERR,
            BlobdlError::Utf8Error => UTF8_ERR,
            BlobdlError::SerdeError(err) => return Some(with_reason(SERDE_ERR, err)),
            BlobdlError::IoError(err) => return Some(with_reason(IO_ERR, err)),
            BlobdlError::QueryCouldNotBeParsed => URL_QUERY_COULD_NOT_BE_PARSED,
            BlobdlError::UrlIndexParsingError => URL_INDEX_PARSING_ERR,
            BlobdlError::PlaylistUrlError => PLAYLIST_URL_ERROR,
            // This is not treated as an error that ends the program
            BlobdlError::CommandNotSpawned => return None,
            BlobdlError::UrlNotProvided => URL_NOT_PROVIDED_ERROR,
            BlobdlError::FormatPreferenceNotProvided => FORMAT_PREFERENCE_NOT_PROVIDED_ERROR,
            BlobdlError::OutputPathNotProvided => OUTPUT_PATH_NOT_PROVIDED_ERROR,
            BlobdlError::DownloadTargetNotProvided => DOWNLOAD_TARGET_NOT_PROVIDED_ERROR,
            BlobdlError::IncludeIndexesNotProvided => INCLUDE_INDEXES_NOT_PROVIDED_ERROR,
            BlobdlError::MediaSelectedNotProvided => MEDIA_SELECTION_NOT_PROVIDED_ERROR,
            BlobdlError::ChosenFormatNotProvided => CHOSEN_FORMAT_NOT_PROVIDED_ERROR,
            BlobdlError::ConfigFileNotFound => CONFIG_FILE_NOT_FOUND_ERR,
            BlobdlError::JsonGenerationError => JSON_GENERATION_ERR,
        };
        Some(text.to_owned())
    }
}

/// The tag that the downloader puts in front of an error about one item.
pub const ITEM_TAG: &'static str = "[youtube]";

/// The identifier given to an error that names no item.
pub const UNAVAILABLE_ID: &'static str = "unavailable";

/// What an error line says: the item it is about, and why it failed.
pub ghost struct ErrorRecord {
    pub item_identifier: Seq<char>,
    pub message: Seq<char>,
}

/// `tok` without its last character, where that is a colon.
pub open spec fn strip_colon(tok: Seq<char>) -> Seq<char> {
    if tok.len() > 0 && tok.last() == ':' {
        tok.drop_last()
    } else {
        tok
    }
}

/// The record that an error line stands for.
///
/// The first word, the error marker, is dropped. Where the second word is
/// the item tag and a third word follows, the third word without its trailing
/// colon names the item and the words after it are the message. Any other
/// line names no item, and all of it after the first word is the message.
pub open spec fn parse_error_line(line: Seq<char>) -> ErrorRecord {
    let toks = words(line);
    if toks.len() >= 3 && toks[1] == ITEM_TAG@ {
        ErrorRecord {
            item_identifier: strip_colon(toks[2]),
            message: join_words(words_from(toks, 3)),
        }
    } else {
        ErrorRecord { item_identifier: UNAVAILABLE_ID@, message: join_words(words_from(toks, 1)) }
    }
}

/// How a failure is described to the operator: the item, and below it the
/// reason.
pub open spec fn description(record: ErrorRecord) -> Seq<char> {
    "yt-video id: "@ + record.item_identifier + "\n   Reason: "@ + record.message + "\n"@
}

/// One failure reported by the downloader.
#[derive(Debug)]
pub struct YtdlpError {
    video_id: String,
    error_msg: String,
}

impl View for YtdlpError {
    type V = ErrorRecord;

    closed spec fn view(&self) -> ErrorRecord {
        ErrorRecord { item_identifier: self.video_id@, message: self.error_msg@ }
    }
}

impl DeepView for YtdlpError {
    type V = ErrorRecord;

    open spec fn deep_view(&self) -> ErrorRecord {
        self@
    }
}

impl Clone for YtdlpError {
    fn clone(&self) -> (r: Self)
        ensures
            r == *self,
    {
        YtdlpError { video_id: self.video_id.clone(), error_msg: self.error_msg.clone() }
    }
}

impl YtdlpError {
    /// The item that failed, or the sentinel where the line named none.
    pub fn video_id(&self) -> (r: &String)
        ensures
            r@ == self@.item_identifier,
    {
        &self.video_id
    }

    /// Why the item failed.
    pub fn error_msg(&self) -> (r: &String)
        ensures
            r@ == self@.message,
    {
        &self.error_msg
    }

    /// Describes the failure to the operator.
    pub fn describe(&self) -> (r: String)
        ensures
            r@ == description(self@),
    {
        let mut r = String::new();
        r.append("yt-video id: ");
        r.append(self.video_id.as_str());
        r.append("\n   Reason: ");
        r.append(self.error_msg.as_str());
        r.append("\n");
        assert(r@ =~= description(self@));
        r
    }

    /// Reads the record out of an error line of the downloader.
    pub fn from_error_output(error_line: &str) -> (r: YtdlpError)
        ensures
            r@ == parse_error_line(error_line@),
    {
        let toks = split_words(error_line);
        let tag = ITEM_TAG.to_owned();
        if toks.len() >= 3 && toks[1] == tag {
            let raw = toks[2].as_str();
            let len = raw.unicode_len();
            let video_id = if len > 0 && raw.get_char(len - 1) == ':' {
                raw.substring_char(0, len - 1).to_owned()
            } else {
                raw.to_owned()
            };
            assert(raw@.drop_last() =~= raw@.subrange(0, len - 1));
            YtdlpError { video_id, error_msg: join_from(&toks, 3) }
        } else {
            YtdlpError { video_id: UNAVAILABLE_ID.to_owned(), error_msg: join_from(&toks, 1) }
        }
    }
}

} // verus!
