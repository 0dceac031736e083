//! The questions that settle a download, one after the other.
//!
//! The module decides which question comes next and what an answer means; it
//! asks nothing itself. What a file of preferences has settled already is not
//! asked again.

use crate::analyzer::DownloadOption;
use crate::config::{Choices, DownloadConfig};
use crate::error::BlobdlError;
use crate::formats::{FormatChoice, MediaSelection, VideoQualityAndFormatPreferences};
use crate::text::{trim_text, trimmed};
use vstd::prelude::*;

verus! {

pub const BEST_QUALITY_PROMPT_PLAYLIST: &'static str = "Best possible quality for each video";

pub const BEST_QUALITY_PROMPT_SINGLE_VIDEO: &'static str = "Best possible quality";

pub const SMALLEST_QUALITY_PROMPT_PLAYLIST: &'static str = "Smallest file size for each video";

pub const SMALLEST_QUALITY_PROMPT_SINGLE_VIDEO: &'static str = "Smallest file size";

pub const YT_FORMAT_PROMPT_PLAYLIST: &'static str =
    "Choose a format to download every video in (only the formats which are available for all videos are shown)";

pub const YT_FORMAT_PROMPT_SINGLE_VIDEO: &'static str = "Choose a format to download the video in";

pub const CONVERT_FORMAT_PROMPT_VIDEO_PLAYLIST: &'static str =
    "Choose a format to recode all the videos to";

pub const CONVERT_FORMAT_PROMPT_VIDEO_SINGLE_VIDEO: &'static str =
    "Choose a format to recode the video to";

pub const CONVERT_FORMAT_PROMPT_AUDIO: &'static str =
    "Choose an audio format to convert the audios to";

/// A question to the operator.
#[derive(Debug, Clone, Copy, PartialEq, Eq, Structural)]
pub enum Question {
    /// Video with sound, video alone or sound alone?
    Media,
    /// Which quality and format?
    Format,
    /// Where do the files go?
    OutputPath,
    /// Do the names of the files start with their index in the playlist?
    IncludeIndexes,
    /// Everything is settled.
    Nothing,
}

/// Where the format comes from, as the operator chose in the menu.
#[derive(Debug, Clone, Copy, PartialEq, Eq, Structural)]
pub enum FormatSource {
    BestQuality,
    SmallestSize,
    /// The operator picks a container to convert to.
    Convert,
    /// The operator picks one of the formats that the site offers.
    FromSite,
}

/// Whether `target` is a whole playlist.
pub open spec fn is_playlist(target: DownloadOption) -> bool {
    target == DownloadOption::YtPlaylist
}

/// The question that comes next.
///
/// The kind of media comes first, then the format, then the path, and for a
/// playlist the choice about indexes. For a playlist, a format that needs a
/// conversion counts as not settled while the converter is not installed.
pub open spec fn next_question_of(c: Choices, target: DownloadOption, ffmpeg: bool) -> Question {
    if c.media_selected is None {
        Question::Media
    } else if c.chosen_format is None || (is_playlist(target) && c.chosen_format->0 is ConvertTo
        && !ffmpeg) {
        Question::Format
    } else if c.output_path is None {
        Question::OutputPath
    } else if is_playlist(target) && c.include_indexes is None {
        Question::IncludeIndexes
    } else {
        Question::Nothing
    }
}

/// The error that stands for an open question.
pub open spec fn open_question_error(question: Question) -> BlobdlError {
    match question {
        Question::Media => BlobdlError::MediaSelectedNotProvided,
        Question::Format => BlobdlError::ChosenFormatNotProvided,
        Question::OutputPath => BlobdlError::OutputPathNotProvided,
        Question::IncludeIndexes => BlobdlError::IncludeIndexesNotProvided,
        Question::Nothing => BlobdlError::UnknownIssue,
    }
}

/// The configuration of the download of `url`, once every question is
/// answered.
///
/// Of a playlist the whole is downloaded. A video is downloaded by itself,
/// without an index in its name.
pub open spec fn assembled(url: Seq<char>, target: DownloadOption, c: Choices) -> Choices {
    if is_playlist(target) {
        Choices {
            url: Some(url),
            output_path: c.output_path,
            include_indexes: c.include_indexes,
            chosen_format: c.chosen_format,
            media_selected: c.media_selected,
            download_target: Some(DownloadOption::YtPlaylist),
        }
    } else {
        Choices {
            url: Some(url),
            output_path: c.output_path,
            include_indexes: Some(false),
            chosen_format: c.chosen_format,
            media_selected: c.media_selected,
            download_target: Some(DownloadOption::YtVideo(0)),
        }
    }
}

/// The kind of media that stands behind an option of its menu: the first for
/// video with sound, the second for sound alone, any other for video alone.
pub open spec fn media_of(selection: usize) -> MediaSelection {
    if selection == 0 {
        MediaSelection::FullVideo
    } else if selection == 1 {
        MediaSelection::AudioOnly
    } else {
        MediaSelection::VideoOnly
    }
}

/// Where the format comes from for an option of the format menu. The
/// conversion is only on the menu where the converter is installed.
pub open spec fn format_source_of(selection: usize, ffmpeg: bool) -> FormatSource {
    if selection == 0 {
        FormatSource::BestQuality
    } else if selection == 1 {
        FormatSource::SmallestSize
    } else if selection == 2 && ffmpeg {
        FormatSource::Convert
    } else {
        FormatSource::FromSite
    }
}

/// The menu from which the operator chooses where the format comes from.
pub open spec fn format_menu_of(target: DownloadOption, media: MediaSelection, ffmpeg: bool) -> Seq<
    Seq<char>,
> {
    let fixed = if is_playlist(target) {
        seq![BEST_QUALITY_PROMPT_PLAYLIST@, SMALLEST_QUALITY_PROMPT_PLAYLIST@]
    } else {
        seq![BEST_QUALITY_PROMPT_SINGLE_VIDEO@, SMALLEST_QUALITY_PROMPT_SINGLE_VIDEO@]
    };
    let convert = if !ffmpeg {
        Seq::empty()
    } else if !is_playlist(target) {
        seq![CONVERT_FORMAT_PROMPT_VIDEO_SINGLE_VIDEO@]
    } else if media == MediaSelection::AudioOnly {
        seq![CONVERT_FORMAT_PROMPT_AUDIO@]
    } else {
        seq![CONVERT_FORMAT_PROMPT_VIDEO_PLAYLIST@]
    };
    let site = if is_playlist(target) {
        seq![YT_FORMAT_PROMPT_PLAYLIST@]
    } else {
        seq![YT_FORMAT_PROMPT_SINGLE_VIDEO@]
    };
    fixed + convert + site
}

/// The containers into which a download of `media` can be converted.
pub open spec fn conversion_formats_of(media: MediaSelection) -> Seq<Seq<char>> {
    match media {
        MediaSelection::AudioOnly => seq![
            "mp3"@,
            "m4a"@,
            "wav"@,
            "aac"@,
            "alac"@,
            "flac"@,
            "opus"@,
            "vorbis"@,
        ],
        MediaSelection::VideoOnly => seq![
            "mp4"@,
            "mkv"@,
            "mov"@,
            "avi"@,
            "flv"@,
            "gif"@,
            "webm"@,
            "aiff"@,
            "mka"@,
            "ogg"@,
        ],
        MediaSelection::FullVideo => seq![
            "mp4"@,
            "mkv"@,
            "mov"@,
            "avi"@,
            "flv"@,
            "gif"@,
            "webm"@,
            "aac"@,
            "aiff"@,
            "alac"@,
            "flac"@,
            "m4a"@,
            "mka"@,
            "mp3"@,
            "ogg"@,
            "opus"@,
            "vorbis"@,
            "wav"@,
        ],
    }
}

/// The view of an optional preference.
pub open spec fn preference_of(p: Option<VideoQualityAndFormatPreferences>) -> Option<
    FormatChoice,
> {
    match p {
        Some(p) => Some(p@),
        None => None,
    }
}

/// Decides which question comes next.
pub fn next_question(config: &DownloadConfig, target: &DownloadOption, ffmpeg_installed: bool) -> (r:
    Question)
    ensures
        r == next_question_of(config@, *target, ffmpeg_installed),
{
    let playlist = match target {
        DownloadOption::YtPlaylist => true,
        DownloadOption::YtVideo(_) => false,
    };
    if config.media_selected.is_none() {
        return Question::Media;
    }
    match &config.chosen_format {
        None => return Question::Format,
        Some(VideoQualityAndFormatPreferences::ConvertTo(_)) => {
            // The conversion cannot be performed without the converter
            if playlist && !ffmpeg_installed {
                return Question::Format;
            }
        },
        Some(_) => {},
    }
    if config.output_path.is_none() {
        Question::OutputPath
    } else if playlist && config.include_indexes.is_none() {
        Question::IncludeIndexes
    } else {
        Question::Nothing
    }
}

/// Settles the kind of media.
pub fn answer_media(config: DownloadConfig, media: MediaSelection) -> (r: DownloadConfig)
    ensures
        r@ == (Choices { media_selected: Some(media), ..config@ }),
{
    let mut config = config;
    config.media_selected = Some(media);
    config
}

/// Settles quality and format.
pub fn answer_format(config: DownloadConfig, format: VideoQualityAndFormatPreferences) -> (r:
    DownloadConfig)
    ensures
        r@ == (Choices { chosen_format: Some(format@), ..config@ }),
{
    let mut config = config;
    config.chosen_format = Some(format);
    config
}

/// Settles where the files go. Spaces around what the operator typed do not
/// count.
pub fn answer_output_path(config: DownloadConfig, typed: &str) -> (r: DownloadConfig)
    ensures
        r@ == (Choices { output_path: Some(trimmed(typed@)), ..config@ }),
{
    let mut config = config;
    config.output_path = Some(trim_text(typed));
    config
}

/// Settles whether the names of the files start with their index.
pub fn answer_include_indexes(config: DownloadConfig, include_indexes: bool) -> (r: DownloadConfig)
    ensures
        r@ == (Choices { include_indexes: Some(include_indexes), ..config@ }),
{
    let mut config = config;
    config.include_indexes = Some(include_indexes);
    config
}

/// Puts the configuration of the download together once every question is
/// answered. While a question is open, the error says which.
pub fn assemble_data(
    url: &str,
    target: &DownloadOption,
    user_config: DownloadConfig,
    ffmpeg_installed: bool,
) -> (r: Result<DownloadConfig, BlobdlError>)
    ensures
        match r {
            Ok(config) => next_question_of(user_config@, *target, ffmpeg_installed)
                == Question::Nothing && config@ == assembled(url@, *target, user_config@),
            Err(e) => next_question_of(user_config@, *target, ffmpeg_installed)
                != Question::Nothing && e == open_question_error(
                next_question_of(user_config@, *target, ffmpeg_installed),
            ),
        },
{
    match next_question(&user_config, target, ffmpeg_installed) {
        Question::Media => return Err(BlobdlError::MediaSelectedNotProvided),
        Question::Format => return Err(BlobdlError::ChosenFormatNotProvided),
        Question::OutputPath => return Err(BlobdlError::OutputPathNotProvided),
        Question::IncludeIndexes => return Err(BlobdlError::IncludeIndexesNotProvided),
        Question::Nothing => {},
    }
    let DownloadConfig { output_path, include_indexes, chosen_format, media_selected, .. } =
        user_config;
    match target {
        DownloadOption::YtPlaylist => Ok(
            DownloadConfig::new_playlist(
                url,
                output_path.unwrap(),
                include_indexes.unwrap(),
                chosen_format.unwrap(),
                media_selected.unwrap(),
            ),
        ),
        DownloadOption::YtVideo(_) => Ok(
            DownloadConfig::new_video(
                url,
                chosen_format.unwrap(),
                output_path.unwrap(),
                media_selected.unwrap(),
            ),
        ),
    }
}

/// Reads the kind of media off the option that the operator chose.
pub fn get_media_selection(selection: usize) -> (r: MediaSelection)
    ensures
        r == media_of(selection),
{
    match selection {
        0 => MediaSelection::FullVideo,
        1 => MediaSelection::AudioOnly,
        _ => MediaSelection::VideoOnly,
    }
}

/// Reads off the option that the operator chose whether the names of the
/// files start with their index: the first option says yes, any other no.
pub fn get_index_preference(selection: usize) -> (r: bool)
    ensures
        r == (selection == 0),
{
    selection == 0
}

/// Adds one line to a menu.
fn push_line(menu: &mut Vec<String>, line: &str)
    ensures
        final(menu).deep_view() == old(menu).deep_view().push(line@),
{
    menu.push(line.to_owned());
    assert(menu.deep_view() =~= old(menu).deep_view().push(line@));
}

/// Lists the menu from which the operator chooses where the format comes
/// from.
pub fn format_menu(target: &DownloadOption, media_selected: &MediaSelection, ffmpeg_installed: bool) -> (r:
    Vec<String>)
    ensures
        r.deep_view() == format_menu_of(*target, *media_selected, ffmpeg_installed),
{
    let mut format_options: Vec<String> = Vec::new();
    assert(format_options.deep_view() =~= Seq::<Seq<char>>::empty());
    match target {
        DownloadOption::YtPlaylist => {
            push_line(&mut format_options, BEST_QUALITY_PROMPT_PLAYLIST);
            push_line(&mut format_options, SMALLEST_QUALITY_PROMPT_PLAYLIST);
            if ffmpeg_installed {
                match media_selected {
                    MediaSelection::AudioOnly => push_line(
                        &mut format_options,
                        CONVERT_FORMAT_PROMPT_AUDIO,
                    ),
                    _ => push_line(&mut format_options, CONVERT_FORMAT_PROMPT_VIDEO_PLAYLIST),
                }
            }
            push_line(&mut format_options, YT_FORMAT_PROMPT_PLAYLIST);
        },
        DownloadOption::YtVideo(_) => {
            push_line(&mut format_options, BEST_QUALITY_PROMPT_SINGLE_VIDEO);
            push_line(&mut format_options, SMALLEST_QUALITY_PROMPT_SINGLE_VIDEO);
            if ffmpeg_installed {
                push_line(&mut format_options, CONVERT_FORMAT_PROMPT_VIDEO_SINGLE_VIDEO);
            }
            push_line(&mut format_options, YT_FORMAT_PROMPT_SINGLE_VIDEO);
        },
    }
    assert(format_options.deep_view() =~= format_menu_of(
        *target,
        *media_selected,
        ffmpeg_installed,
    ));
    format_options
}

/// Reads off the option that the operator chose in the format menu where
/// the format comes from.
pub fn get_format(selection: usize, ffmpeg_installed: bool) -> (r: FormatSource)
    ensures
        r == format_source_of(selection, ffmpeg_installed),
{
    if selection == 0 {
        FormatSource::BestQuality
    } else if selection == 1 {
        FormatSource::SmallestSize
    } else if selection == 2 && ffmpeg_installed {
        FormatSource::Convert
    } else {
        FormatSource::FromSite
    }
}

/// Lists the containers into which a download of `media_selected` can be
/// converted.
pub fn conversion_formats(media_selected: &MediaSelection) -> (r: Vec<String>)
    ensures
        r.deep_view() == conversion_formats_of(*media_selected),
{
    let mut options: Vec<String> = Vec::new();
    assert(options.deep_view() =~= Seq::<Seq<char>>::empty());
    match media_selected {
        // Only audio formats
        MediaSelection::AudioOnly => {
            push_line(&mut options, "mp3");
            push_line(&mut options, "m4a");
            push_line(&mut options, "wav");
            push_line(&mut options, "aac");
            push_line(&mut options, "alac");
            push_line(&mut options, "flac");
            push_line(&mut options, "opus");
            push_line(&mut options, "vorbis");
        },
        // Only formats which aren't audio-only
        MediaSelection::VideoOnly => {
            push_line(&mut options, "mp4");
            push_line(&mut options, "mkv");
            push_line(&mut options, "mov");
            push_line(&mut options, "avi");
            push_line(&mut options, "flv");
            push_line(&mut options, "gif");
            push_line(&mut options, "webm");
            push_line(&mut options, "aiff");
            push_line(&mut options, "mka");
            push_line(&mut options, "ogg");
        },
        // All the formats
        MediaSelection::FullVideo => {
            push_line(&mut options, "mp4");
            push_line(&mut options, "mkv");
            push_line(&mut options, "mov");
            push_line(&mut options, "avi");
            push_line(&mut options, "flv");
            push_line(&mut options, "gif");
            push_line(&mut options, "webm");
            push_line(&mut options, "aac");
            push_line(&mut options, "aiff");
            push_line(&mut options, "alac");
            push_line(&mut options, "flac");
            push_line(&mut options, "m4a");
            push_line(&mut options, "mka");
            push_line(&mut options, "mp3");
            push_line(&mut options, "ogg");
            push_line(&mut options, "opus");
            push_line(&mut options, "vorbis");
            push_line(&mut options, "wav");
        },
    }
    assert(options.deep_view() =~= conversion_formats_of(*media_selected));
    options
}

/// Reads off the option that the operator chose the container to convert
/// to. An option that is not on the list gives nothing.
pub fn convert_to_format(media_selected: &MediaSelection, selection: usize) -> (r: Option<
    VideoQualityAndFormatPreferences,
>)
    ensures
        preference_of(r) == if selection < conversion_formats_of(*media_selected).len() {
            Some(FormatChoice::ConvertTo(conversion_formats_of(*media_selected)[selection as int]))
        } else {
            None
        },
{
    let format_options = conversion_formats(media_selected);
    if selection < format_options.len() {
        let chosen = format_options[selection].clone();
        assert(chosen@ == format_options.deep_view()[selection as int]);
        Some(VideoQualityAndFormatPreferences::ConvertTo(chosen))
    } else {
        None
    }
}

/// Reads off the option that the operator chose the format of the site
/// among the offered ones. An option that is not on the list gives nothing.
pub fn get_format_from_yt(correct_ids: &Vec<String>, selection: usize) -> (r: Option<
    VideoQualityAndFormatPreferences,
>)
    ensures
        preference_of(r) == if selection < correct_ids.len() {
            Some(FormatChoice::UniqueFormat(correct_ids.deep_view()[selection as int]))
        } else {
            None
        },
{
    if selection < correct_ids.len() {
        let chosen = correct_ids[selection].clone();
        assert(chosen@ == correct_ids.deep_view()[selection as int]);
        Some(VideoQualityAndFormatPreferences::UniqueFormat(chosen))
    } else {
        None
    }
}

} // verus!
