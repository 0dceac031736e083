//! The operator's choices for one download, and the downloader's arguments
//! that follow from them.

use crate::analyzer::DownloadOption;
use crate::error::BlobdlError;
use crate::formats::{FormatChoice, MediaSelection, VideoQualityAndFormatPreferences};
use vstd::pervasive::unreached;
use vstd::prelude::*;

verus! {

/// The program that downloads.
pub const DOWNLOADER: &'static str = "yt-dlp";

/// How paths are written on the machine that runs the downloader.
#[derive(Debug, Clone, Copy, PartialEq, Eq, Structural)]
pub enum PathStyle {
    /// Directories are parted by `/`.
    Unix,
    /// Directories are parted by `\`.
    Windows,
}

/// The choices for one download, as a mathematical value.
pub ghost struct Choices {
    pub url: Option<Seq<char>>,
    pub output_path: Option<Seq<char>>,
    pub include_indexes: Option<bool>,
    pub chosen_format: Option<FormatChoice>,
    pub media_selected: Option<MediaSelection>,
    pub download_target: Option<DownloadOption>,
}

/// Everything that is needed to download a video or a playlist. A field is
/// `None` until the operator, or a file of preferences, has settled it.
#[derive(Debug)]
pub struct DownloadConfig {
    pub url: Option<String>,
    pub output_path: Option<String>,
    /// Whether a file's name starts with its index in the playlist.
    pub include_indexes: Option<bool>,
    /// The quality and format of the downloaded files.
    pub chosen_format: Option<VideoQualityAndFormatPreferences>,
    /// Whether the files hold video with sound, video alone or sound alone.
    pub media_selected: Option<MediaSelection>,
    /// Whether the link refers to a playlist or to a single video.
    pub download_target: Option<DownloadOption>,
}

/// The view of an optional text.
pub open spec fn text_of(s: Option<String>) -> Option<Seq<char>> {
    match s {
        Some(s) => Some(s@),
        None => None,
    }
}

impl View for DownloadConfig {
    type V = Choices;

    open spec fn view(&self) -> Choices {
        Choices {
            url: text_of(self.url),
            output_path: text_of(self.output_path),
            include_indexes: self.include_indexes,
            chosen_format: match self.chosen_format {
                Some(f) => Some(f@),
                None => None,
            },
            media_selected: self.media_selected,
            download_target: self.download_target,
        }
    }
}

/// One run of the downloader, as a mathematical value.
pub ghost struct Command {
    pub program: Seq<char>,
    pub args: Seq<Seq<char>>,
}

/// One run of the downloader: the program and its arguments, in order.
#[derive(Debug)]
pub struct Invocation {
    pub program: String,
    pub args: Vec<String>,
}

impl View for Invocation {
    type V = Command;

    open spec fn view(&self) -> Command {
        Command { program: self.program@, args: self.args.deep_view() }
    }
}

impl DeepView for Invocation {
    type V = Command;

    open spec fn deep_view(&self) -> Command {
        self@
    }
}

/// The choices for the download of a playlist with none left open, as a
/// mathematical value.
pub ghost struct PlaylistChoices {
    pub url: Seq<char>,
    pub output_path: Seq<char>,
    pub include_indexes: bool,
    pub chosen_format: FormatChoice,
    pub media_selected: MediaSelection,
}

/// Everything that is needed to download a playlist, with nothing left
/// open.
#[derive(Debug)]
pub struct YtPlaylistConfig<'a> {
    /// The link, which stays where the command line put it.
    url: &'a String,
    output_path: String,
    /// Whether a file's name starts with its index in the playlist.
    include_indexes: bool,
    /// The quality and format of the downloaded files.
    chosen_format: VideoQualityAndFormatPreferences,
    /// Whether the files hold video with sound, video alone or sound alone.
    media_selected: MediaSelection,
}

impl<'a> View for YtPlaylistConfig<'a> {
    type V = PlaylistChoices;

    closed spec fn view(&self) -> PlaylistChoices {
        PlaylistChoices {
            url: self.url@,
            output_path: self.output_path@,
            include_indexes: self.include_indexes,
            chosen_format: self.chosen_format@,
            media_selected: self.media_selected,
        }
    }
}

/// The same choices in the form in which some may be open.
pub open spec fn settled(p: PlaylistChoices) -> Choices {
    Choices {
        url: Some(p.url),
        output_path: Some(p.output_path),
        include_indexes: Some(p.include_indexes),
        chosen_format: Some(p.chosen_format),
        media_selected: Some(p.media_selected),
        download_target: Some(DownloadOption::YtPlaylist),
    }
}

/// The naming scheme of a file that is downloaded from a playlist: a
/// directory named after the playlist, then the index where it is asked for,
/// then the title.
pub open spec fn playlist_scheme(include_indexes: bool, style: PathStyle) -> Seq<char> {
    let directory = match style {
        PathStyle::Unix => "/%(playlist)s/"@,
        PathStyle::Windows => "\\%(playlist)s\\"@,
    };
    let index = if include_indexes {
        "%(playlist_index)s_"@
    } else {
        Seq::empty()
    };
    directory + index + "%(title)s"@
}

/// The naming scheme of a file that is downloaded by itself: the title and
/// the extension.
pub open spec fn video_scheme(style: PathStyle) -> Seq<char> {
    match style {
        PathStyle::Unix => "/%(title)s.%(ext)s"@,
        PathStyle::Windows => "\\%(title)s.%(ext)s"@,
    }
}

/// The arguments that say where the files go and how they are named. There
/// are none until the path, the target and the choice about indexes are all
/// settled.
pub open spec fn output_args(c: Choices, style: PathStyle) -> Seq<Seq<char>> {
    if c.output_path is Some && c.download_target is Some && c.include_indexes is Some {
        let scheme = match c.download_target->0 {
            DownloadOption::YtPlaylist => playlist_scheme(c.include_indexes->0, style),
            DownloadOption::YtVideo(_) => video_scheme(style),
        };
        seq!["-o"@, c.output_path->0 + scheme]
    } else {
        Seq::empty()
    }
}

/// The error that stands for the first of the three settings behind
/// `output_args` that is missing.
pub open spec fn output_error(c: Choices) -> BlobdlError {
    if c.output_path is None {
        BlobdlError::OutputPathNotProvided
    } else if c.download_target is None {
        BlobdlError::DownloadTargetNotProvided
    } else {
        BlobdlError::IncludeIndexesNotProvided
    }
}

/// The arguments that select quality and format for `media` and `choice`.
/// Where a picture is downloaded, subtitles are embedded too.
pub open spec fn selection_args(media: MediaSelection, choice: FormatChoice) -> Seq<Seq<char>> {
    match media {
        MediaSelection::FullVideo => (match choice {
            FormatChoice::BestQuality => Seq::empty(),
            FormatChoice::SmallestSize => seq!["-S"@, "+size,+br"@],
            FormatChoice::UniqueFormat(id) => seq!["-f"@, id],
            FormatChoice::ConvertTo(ext) => seq!["--recode-video"@, ext],
        }) + seq!["--embed-subs"@],
        MediaSelection::AudioOnly => match choice {
            FormatChoice::BestQuality => seq!["-f"@, "bestaudio"@],
            FormatChoice::SmallestSize => seq!["-f"@, "worstaudio"@],
            FormatChoice::UniqueFormat(id) => seq!["-f"@, id],
            FormatChoice::ConvertTo(ext) => seq!["-x"@, "--audio-format"@, ext],
        },
        MediaSelection::VideoOnly => (match choice {
            FormatChoice::BestQuality => seq!["-f"@, "bestvideo"@],
            FormatChoice::SmallestSize => seq!["-f"@, "worstvideo"@],
            FormatChoice::UniqueFormat(id) => seq!["-f"@, id],
            FormatChoice::ConvertTo(ext) => seq!["--recode-video"@, ext],
        }) + seq!["--embed-subs"@],
    }
}

/// The arguments that select quality and format. There are none until both
/// the kind of media and the format are settled.
pub open spec fn format_args(c: Choices) -> Seq<Seq<char>> {
    if c.media_selected is Some && c.chosen_format is Some {
        selection_args(c.media_selected->0, c.chosen_format->0)
    } else {
        Seq::empty()
    }
}

/// The error that stands for the first of the two settings behind
/// `format_args` that is missing.
pub open spec fn format_error(c: Choices) -> BlobdlError {
    if c.media_selected is None {
        BlobdlError::MediaSelectedNotProvided
    } else {
        BlobdlError::ChosenFormatNotProvided
    }
}

/// The run that downloads the single item `video_id` with the choices `c`:
/// where the files go, quality and format, never the rest of a playlist,
/// then the item.
pub open spec fn single_item_command(c: Choices, video_id: Seq<char>, style: PathStyle) -> Command {
    Command {
        program: DOWNLOADER@,
        args: output_args(c, style) + format_args(c) + seq!["--no-playlist"@, video_id],
    }
}

/// The run that downloads the video behind the link of `c`. The link has to
/// be settled.
pub open spec fn video_command(c: Choices, style: PathStyle) -> Command {
    Command {
        program: DOWNLOADER@,
        args: output_args(c, style) + format_args(c) + seq![
            "--no-playlist"@,
            "--embed-subs"@,
            c.url->0,
        ],
    }
}

/// The run that downloads the playlist behind the link of `c`: it goes on
/// after an item fails and takes the whole playlist. The link has to be
/// settled.
pub open spec fn playlist_command(c: Choices, style: PathStyle) -> Command {
    Command {
        program: DOWNLOADER@,
        args: seq!["-i"@, "--yes-playlist"@] + output_args(c, style) + format_args(c) + seq![
            c.url->0,
        ],
    }
}

/// The run for the main download with the choices `c`, or the error that
/// says which setting it lacks.
pub open spec fn main_command(c: Choices, style: PathStyle) -> Result<Command, BlobdlError> {
    match c.download_target {
        None => Err(BlobdlError::DownloadTargetNotProvided),
        Some(DownloadOption::YtPlaylist) => if c.url is None {
            Err(BlobdlError::UrlNotProvided)
        } else {
            Ok(playlist_command(c, style))
        },
        Some(DownloadOption::YtVideo(_)) => if c.chosen_format is None {
            Err(BlobdlError::FormatPreferenceNotProvided)
        } else if c.url is None {
            Err(BlobdlError::UrlNotProvided)
        } else {
            Ok(video_command(c, style))
        },
    }
}

/// Adds one argument at the end.
fn push_arg(args: &mut Vec<String>, arg: &str)
    ensures
        final(args).deep_view() == old(args).deep_view().push(arg@),
{
    args.push(arg.to_owned());
    assert(args.deep_view() =~= old(args).deep_view().push(arg@));
}

impl Clone for DownloadConfig {
    fn clone(&self) -> (r: Self)
        ensures
            r == *self,
    {
        DownloadConfig {
            url: match &self.url {
                Some(url) => Some(url.clone()),
                None => None,
            },
            output_path: match &self.output_path {
                Some(path) => Some(path.clone()),
                None => None,
            },
            include_indexes: self.include_indexes,
            chosen_format: match &self.chosen_format {
                Some(format) => Some(format.clone()),
                None => None,
            },
            media_selected: self.media_selected,
            download_target: self.download_target,
        }
    }
}

impl<'a> YtPlaylistConfig<'a> {
    /// The configuration of a playlist download.
    pub fn new(
        url: &'a String,
        output_path: String,
        include_indexes: bool,
        chosen_format: VideoQualityAndFormatPreferences,
        media_selected: MediaSelection,
    ) -> (r: YtPlaylistConfig<'a>)
        ensures
            r@ == (PlaylistChoices {
                url: url@,
                output_path: output_path@,
                include_indexes,
                chosen_format: chosen_format@,
                media_selected,
            }),
    {
        YtPlaylistConfig { url, output_path, include_indexes, chosen_format, media_selected }
    }

    /// Builds the run that downloads the playlist. With nothing left open,
    /// this cannot fail.
    pub fn build_command(&self, style: PathStyle) -> (r: Invocation)
        ensures
            r@ == playlist_command(settled(self@), style),
    {
        let config = DownloadConfig::new_playlist(
            self.url.as_str(),
            self.output_path.clone(),
            self.include_indexes,
            self.chosen_format.clone(),
            self.media_selected,
        );
        match config.build_yt_playlist_command(style) {
            Ok(invocation) => invocation,
            Err(_) => unreached(),
        }
    }
}

// Constructors
impl DownloadConfig {
    /// A configuration in which nothing is settled yet.
    pub fn empty() -> (r: DownloadConfig)
        ensures
            r@ == (Choices {
                url: None,
                output_path: None,
                include_indexes: None,
                chosen_format: None,
                media_selected: None,
                download_target: None,
            }),
    {
        DownloadConfig {
            url: None,
            output_path: None,
            include_indexes: None,
            chosen_format: None,
            media_selected: None,
            download_target: None,
        }
    }

    /// The configuration of a playlist download.
    pub fn new_playlist(
        url: &str,
        output_path: String,
        include_indexes: bool,
        chosen_format: VideoQualityAndFormatPreferences,
        media_selected: MediaSelection,
    ) -> (r: DownloadConfig)
        ensures
            r@ == (Choices {
                url: Some(url@),
                output_path: Some(output_path@),
                include_indexes: Some(include_indexes),
                chosen_format: Some(chosen_format@),
                media_selected: Some(media_selected),
                download_target: Some(DownloadOption::YtPlaylist),
            }),
    {
        DownloadConfig {
            url: Some(url.to_owned()),
            output_path: Some(output_path),
            include_indexes: Some(include_indexes),
            chosen_format: Some(chosen_format),
            media_selected: Some(media_selected),
            download_target: Some(DownloadOption::YtPlaylist),
        }
    }

    /// The configuration of the download of one video.
    pub fn new_video(
        url: &str,
        chosen_format: VideoQualityAndFormatPreferences,
        output_path: String,
        media_selected: MediaSelection,
    ) -> (r: DownloadConfig)
        ensures
            r@ == (Choices {
                url: Some(url@),
                output_path: Some(output_path@),
                include_indexes: Some(false),
                chosen_format: Some(chosen_format@),
                media_selected: Some(media_selected),
                download_target: Some(DownloadOption::YtVideo(0)),
            }),
    {
        DownloadConfig {
            url: Some(url.to_owned()),
            chosen_format: Some(chosen_format),
            output_path: Some(output_path),
            media_selected: Some(media_selected),
            include_indexes: Some(false),
            download_target: Some(DownloadOption::YtVideo(0)),
        }
    }
}

// Command generation
impl DownloadConfig {
    /// Adds the arguments that say where the files go and how they are named.
    /// Where a setting is missing nothing is added, and the error says which.
    fn choose_output_path(&self, args: &mut Vec<String>, style: PathStyle) -> (r: Result<
        (),
        BlobdlError,
    >)
        ensures
            final(args).deep_view() == old(args).deep_view() + output_args(self@, style),
            match r {
                Ok(_) => self@.output_path is Some && self@.download_target is Some
                    && self@.include_indexes is Some,
                Err(e) => e == output_error(self@) && !(self@.output_path is Some
                    && self@.download_target is Some && self@.include_indexes is Some),
            },
    {
        assert(args.deep_view() + Seq::<Seq<char>>::empty() =~= args.deep_view());
        if let Some(output_path) = &self.output_path {
            if let Some(download_target) = &self.download_target {
                if let Some(include_indexes) = self.include_indexes {
                    let ghost before = args.deep_view();
                    push_arg(args, "-o");
                    let mut path_and_scheme = String::new();
                    path_and_scheme.append(output_path.as_str());
                    match download_target {
                        DownloadOption::YtPlaylist => {
                            match style {
                                PathStyle::Unix => path_and_scheme.append("/%(playlist)s/"),
                                PathStyle::Windows => path_and_scheme.append("\\%(playlist)s\\"),
                            }
                            if include_indexes {
                                path_and_scheme.append("%(playlist_index)s_");
                            }
                            path_and_scheme.append("%(title)s");
                        },
                        DownloadOption::YtVideo(_) => {
                            match style {
                                PathStyle::Unix => path_and_scheme.append("/%(title)s.%(ext)s"),
                                PathStyle::Windows => path_and_scheme.append(
                                    "\\%(title)s.%(ext)s",
                                ),
                            }
                        },
                    }
                    assert(path_and_scheme@ =~= output_args(self@, style)[1]);
                    push_arg(args, path_and_scheme.as_str());
                    assert(args.deep_view() =~= before + output_args(self@, style));
                    Ok(())
                } else {
                    Err(BlobdlError::IncludeIndexesNotProvided)
                }
            } else {
                Err(BlobdlError::DownloadTargetNotProvided)
            }
        } else {
            Err(BlobdlError::OutputPathNotProvided)
        }
    }

    /// Adds the arguments that select quality and format. Where a setting is
    /// missing nothing is added, and the error says which.
    fn choose_format(&self, args: &mut Vec<String>) -> (r: Result<(), BlobdlError>)
        ensures
            final(args).deep_view() == old(args).deep_view() + format_args(self@),
            match r {
                Ok(_) => self@.media_selected is Some && self@.chosen_format is Some,
                Err(e) => e == format_error(self@) && !(self@.media_selected is Some
                    && self@.chosen_format is Some),
            },
    {
        let ghost before = args.deep_view();
        assert(before + Seq::<Seq<char>>::empty() =~= before);
        if let Some(media_selected) = &self.media_selected {
            if let Some(chosen_format) = &self.chosen_format {
                match media_selected {
                    MediaSelection::FullVideo => {
                        match chosen_format {
                            VideoQualityAndFormatPreferences::BestQuality => {},
                            VideoQualityAndFormatPreferences::SmallestSize => {
                                push_arg(args, "-S");
                                push_arg(args, "+size,+br");
                            },
                            VideoQualityAndFormatPreferences::UniqueFormat(id) => {
                                push_arg(args, "-f");
                                push_arg(args, id.as_str());
                            },
                            VideoQualityAndFormatPreferences::ConvertTo(f) => {
                                push_arg(args, "--recode-video");
                                push_arg(args, f.as_str());
                            },
                        }
                        // If they are available also download subtitles
                        push_arg(args, "--embed-subs");
                    },
                    MediaSelection::AudioOnly => {
                        match chosen_format {
                            VideoQualityAndFormatPreferences::BestQuality => {
                                push_arg(args, "-f");
                                push_arg(args, "bestaudio");
                            },
                            VideoQualityAndFormatPreferences::SmallestSize => {
                                push_arg(args, "-f");
                                push_arg(args, "worstaudio");
                            },
                            VideoQualityAndFormatPreferences::UniqueFormat(id) => {
                                push_arg(args, "-f");
                                push_arg(args, id.as_str());
                            },
                            VideoQualityAndFormatPreferences::ConvertTo(f) => {
                                push_arg(args, "-x");
                                push_arg(args, "--audio-format");
                                push_arg(args, f.as_str());
                            },
                        }
                    },
                    MediaSelection::VideoOnly => {
                        match chosen_format {
                            VideoQualityAndFormatPreferences::BestQuality => {
                                push_arg(args, "-f");
                                push_arg(args, "bestvideo");
                            },
                            VideoQualityAndFormatPreferences::SmallestSize => {
                                push_arg(args, "-f");
                                push_arg(args, "worstvideo");
                            },
                            VideoQualityAndFormatPreferences::UniqueFormat(id) => {
                                push_arg(args, "-f");
                                push_arg(args, id.as_str());
                            },
                            VideoQualityAndFormatPreferences::ConvertTo(f) => {
                                push_arg(args, "--recode-video");
                                push_arg(args, f.as_str());
                            },
                        }
                        // If they are available also download subtitles
                        push_arg(args, "--embed-subs");
                    },
                };
                assert(args.deep_view() =~= before + format_args(self@));
                Ok(())
            } else {
                Err(BlobdlError::ChosenFormatNotProvided)
            }
        } else {
            Err(BlobdlError::MediaSelectedNotProvided)
        }
    }

    /// Builds the run that downloads the whole playlist.
    fn build_yt_playlist_command(&self, style: PathStyle) -> (r: Result<Invocation, BlobdlError>)
        ensures
            match r {
                Ok(invocation) => self@.url is Some && invocation@ == playlist_command(
                    self@,
                    style,
                ),
                Err(e) => self@.url is None && e == BlobdlError::UrlNotProvided,
            },
    {
        let mut args: Vec<String> = Vec::new();
        assert(args.deep_view() =~= Seq::<Seq<char>>::empty());
        // Continue even when errors are encountered
        push_arg(&mut args, "-i");
        // If the url refers to a video in a playlist, download the whole playlist
        push_arg(&mut args, "--yes-playlist");
        // A setting that is missing leaves its arguments out
        let _ = self.choose_output_path(&mut args, style);
        let _ = self.choose_format(&mut args);
        if let Some(url) = &self.url {
            push_arg(&mut args, url.as_str());
            assert(args.deep_view() =~= playlist_command(self@, style).args);
            Ok(Invocation { program: DOWNLOADER.to_owned(), args })
        } else {
            Err(BlobdlError::UrlNotProvided)
        }
    }

    /// Builds the run that downloads the single video behind the link.
    fn build_yt_video_command(&self, style: PathStyle) -> (r: Result<Invocation, BlobdlError>)
        ensures
            match r {
                Ok(invocation) => self@.chosen_format is Some && self@.url is Some && invocation@
                    == video_command(self@, style),
                Err(e) => e == if self@.chosen_format is None {
                    BlobdlError::FormatPreferenceNotProvided
                } else {
                    BlobdlError::UrlNotProvided
                } && (self@.chosen_format is None || self@.url is None),
            },
    {
        let mut args: Vec<String> = Vec::new();
        assert(args.deep_view() =~= Seq::<Seq<char>>::empty());
        let _ = self.choose_output_path(&mut args, style);
        if self.chosen_format.is_some() {
            let _ = self.choose_format(&mut args);
            push_arg(&mut args, "--no-playlist");
            // If they are available also download subtitles
            push_arg(&mut args, "--embed-subs");
            if let Some(url) = &self.url {
                push_arg(&mut args, url.as_str());
            } else {
                return Err(BlobdlError::UrlNotProvided);
            }
            assert(args.deep_view() =~= video_command(self@, style).args);
            Ok(Invocation { program: DOWNLOADER.to_owned(), args })
        } else {
            Err(BlobdlError::FormatPreferenceNotProvided)
        }
    }

    /// Builds the run for the main download, and hands it out together with
    /// a copy of the configuration that it was built from.
    ///
    /// The target decides between a playlist and a single video; without a
    /// target nothing can be built. A playlist needs its link, a video its
    /// format and its link.
    pub fn build_command(&self, style: PathStyle) -> (r: Result<
        (Invocation, DownloadConfig),
        BlobdlError,
    >)
        ensures
            match r {
                Ok((invocation, config)) => config@ == self@ && main_command(self@, style) == Ok::<
                    Command,
                    BlobdlError,
                >(invocation@),
                Err(e) => main_command(self@, style) == Err::<Command, BlobdlError>(e),
            },
    {
        match &self.download_target {
            Some(DownloadOption::YtVideo(_)) => {
                let invocation = self.build_yt_video_command(style)?;
                Ok((invocation, self.clone()))
            },
            Some(DownloadOption::YtPlaylist) => {
                let invocation = self.build_yt_playlist_command(style)?;
                Ok((invocation, self.clone()))
            },
            None => Err(BlobdlError::DownloadTargetNotProvided),
        }
    }

    /// Builds the run that downloads one item anew with the preferences of
    /// this configuration. It is meant for items that failed for a reason
    /// that may have passed, such as a lost connection.
    ///
    /// The run never asks for the rest of a playlist. Without a format nothing
    /// can be built.
    pub fn build_command_for_video(&self, video_id: &str, style: PathStyle) -> (r: Result<
        Invocation,
        BlobdlError,
    >)
        ensures
            match r {
                Ok(invocation) => self@.chosen_format is Some && invocation@
                    == single_item_command(self@, video_id@, style),
                Err(e) => self@.chosen_format is None && e
                    == BlobdlError::FormatPreferenceNotProvided,
            },
    {
        let mut args: Vec<String> = Vec::new();
        assert(args.deep_view() =~= Seq::<Seq<char>>::empty());
        let _ = self.choose_output_path(&mut args, style);
        if self.chosen_format.is_some() {
            let _ = self.choose_format(&mut args);
            push_arg(&mut args, "--no-playlist");
            push_arg(&mut args, video_id);
            assert(args.deep_view() =~= single_item_command(self@, video_id@, style).args);
            Ok(Invocation { program: DOWNLOADER.to_owned(), args })
        } else {
            Err(BlobdlError::FormatPreferenceNotProvided)
        }
    }
}

} // verus!
