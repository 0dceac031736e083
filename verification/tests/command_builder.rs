use blob_dl::analyzer::DownloadOption;
use blob_dl::config::{DownloadConfig, Invocation, PathStyle, DOWNLOADER};
use blob_dl::error::BlobdlError;
use blob_dl::formats::MediaSelection::{AudioOnly, FullVideo, VideoOnly};
use blob_dl::formats::VideoQualityAndFormatPreferences::{
    BestQuality, ConvertTo, SmallestSize, UniqueFormat,
};
use blob_dl::formats::{MediaSelection, VideoQualityAndFormatPreferences};

fn playlist(format: VideoQualityAndFormatPreferences, media: MediaSelection, indexes: bool) -> DownloadConfig {
    DownloadConfig::new_playlist("https://youtube.com/playlist?list=PL1", "/out".to_string(), indexes, format, media)
}

fn video(format: VideoQualityAndFormatPreferences, media: MediaSelection) -> DownloadConfig {
    DownloadConfig::new_video("https://youtu.be/abc", format, "/out".to_string(), media)
}

fn args(invocation: &Invocation) -> Vec<&str> {
    invocation.args.iter().map(|a| a.as_str()).collect()
}

#[test]
fn empty_configuration_settles_nothing() {
    let c = DownloadConfig::empty();
    assert!(c.url.is_none());
    assert!(c.output_path.is_none());
    assert!(c.include_indexes.is_none());
    assert!(c.chosen_format.is_none());
    assert!(c.media_selected.is_none());
    assert!(c.download_target.is_none());
    assert_eq!(c.build_command(PathStyle::Unix).unwrap_err(), BlobdlError::DownloadTargetNotProvided);
}

#[test]
fn constructors_settle_everything() {
    let c = playlist(VideoQualityAndFormatPreferences::BestQuality, MediaSelection::AudioOnly, true);
    assert_eq!(c.url.as_deref(), Some("https://youtube.com/playlist?list=PL1"));
    assert_eq!(c.output_path.as_deref(), Some("/out"));
    assert_eq!(c.include_indexes, Some(true));
    assert_eq!(c.media_selected, Some(MediaSelection::AudioOnly));
    assert_eq!(c.download_target, Some(DownloadOption::YtPlaylist));
    let c = video(VideoQualityAndFormatPreferences::SmallestSize, MediaSelection::FullVideo);
    assert_eq!(c.include_indexes, Some(false));
    assert_eq!(c.download_target, Some(DownloadOption::YtVideo(0)));
    assert!(matches!(c.chosen_format, Some(VideoQualityAndFormatPreferences::SmallestSize)));
}

#[test]
fn playlist_command_with_indexes() {
    let c = playlist(VideoQualityAndFormatPreferences::BestQuality, MediaSelection::FullVideo, true);
    let (invocation, copy) = c.build_command(PathStyle::Unix).unwrap();
    assert_eq!(invocation.program, DOWNLOADER);
    assert_eq!(invocation.program, "yt-dlp");
    assert_eq!(
        args(&invocation),
        vec![
            "-i",
            "--yes-playlist",
            "-o",
            "/out/%(playlist)s/%(playlist_index)s_%(title)s",
            "--embed-subs",
            "https://youtube.com/playlist?list=PL1",
        ]
    );
    assert_eq!(copy.url, c.url);
    assert_eq!(copy.output_path, c.output_path);
    assert_eq!(copy.include_indexes, c.include_indexes);
    assert_eq!(copy.media_selected, c.media_selected);
    assert_eq!(copy.download_target, c.download_target);
    assert!(matches!(copy.chosen_format, Some(VideoQualityAndFormatPreferences::BestQuality)));
}

#[test]
fn playlist_command_without_indexes_on_windows() {
    let c = playlist(
        VideoQualityAndFormatPreferences::UniqueFormat("22".to_string()),
        MediaSelection::VideoOnly,
        false,
    );
    let (invocation, _) = c.build_command(PathStyle::Windows).unwrap();
    assert_eq!(
        args(&invocation),
        vec![
            "-i",
            "--yes-playlist",
            "-o",
            "/out\\%(playlist)s\\%(title)s",
            "-f",
            "22",
            "--embed-subs",
            "https://youtube.com/playlist?list=PL1",
        ]
    );
}

#[test]
fn video_command_embeds_subtitles_and_refuses_the_playlist() {
    let c = video(VideoQualityAndFormatPreferences::SmallestSize, MediaSelection::FullVideo);
    let (invocation, _) = c.build_command(PathStyle::Unix).unwrap();
    assert_eq!(
        args(&invocation),
        vec![
            "-o",
            "/out/%(title)s.%(ext)s",
            "-S",
            "+size,+br",
            "--embed-subs",
            "--no-playlist",
            "--embed-subs",
            "https://youtu.be/abc",
        ]
    );
    let (invocation, _) = c.build_command(PathStyle::Windows).unwrap();
    assert_eq!(invocation.args[1], "/out\\%(title)s.%(ext)s");
}

fn format_part(format: VideoQualityAndFormatPreferences, media: MediaSelection) -> Vec<String> {
    let invocation = video(format, media).build_command_for_video("id", PathStyle::Unix).unwrap();
    let n = invocation.args.len();
    invocation.args[2..n - 2].to_vec()
}

#[test]
fn every_format_choice_has_its_flags() {
    assert_eq!(format_part(BestQuality, FullVideo), vec!["--embed-subs"]);
    assert_eq!(format_part(SmallestSize, FullVideo), vec!["-S", "+size,+br", "--embed-subs"]);
    assert_eq!(format_part(UniqueFormat("18".into()), FullVideo), vec!["-f", "18", "--embed-subs"]);
    assert_eq!(format_part(ConvertTo("mkv".into()), FullVideo), vec!["--recode-video", "mkv", "--embed-subs"]);
    assert_eq!(format_part(BestQuality, AudioOnly), vec!["-f", "bestaudio"]);
    assert_eq!(format_part(SmallestSize, AudioOnly), vec!["-f", "worstaudio"]);
    assert_eq!(format_part(UniqueFormat("251".into()), AudioOnly), vec!["-f", "251"]);
    assert_eq!(format_part(ConvertTo("mp3".into()), AudioOnly), vec!["-x", "--audio-format", "mp3"]);
    assert_eq!(format_part(BestQuality, VideoOnly), vec!["-f", "bestvideo", "--embed-subs"]);
    assert_eq!(format_part(SmallestSize, VideoOnly), vec!["-f", "worstvideo", "--embed-subs"]);
    assert_eq!(format_part(UniqueFormat("137".into()), VideoOnly), vec!["-f", "137", "--embed-subs"]);
    assert_eq!(format_part(ConvertTo("webm".into()), VideoOnly), vec!["--recode-video", "webm", "--embed-subs"]);
}

#[test]
fn retry_command_targets_one_item_and_drops_playlist_flags() {
    let c = playlist(
        VideoQualityAndFormatPreferences::ConvertTo("mp3".to_string()),
        MediaSelection::AudioOnly,
        true,
    );
    let invocation = c.build_command_for_video("abc123", PathStyle::Unix).unwrap();
    assert_eq!(invocation.program, "yt-dlp");
    assert_eq!(
        args(&invocation),
        vec![
            "-o",
            "/out/%(playlist)s/%(playlist_index)s_%(title)s",
            "-x",
            "--audio-format",
            "mp3",
            "--no-playlist",
            "abc123",
        ]
    );
    assert!(!invocation.args.iter().any(|a| a == "--yes-playlist" || a == "-i"));
}

#[test]
fn retry_command_needs_a_format() {
    let mut c = playlist(VideoQualityAndFormatPreferences::BestQuality, MediaSelection::FullVideo, true);
    c.chosen_format = None;
    assert_eq!(
        c.build_command_for_video("abc", PathStyle::Unix).unwrap_err(),
        BlobdlError::FormatPreferenceNotProvided
    );
}

#[test]
fn missing_settings_leave_their_arguments_out() {
    let mut c = video(VideoQualityAndFormatPreferences::BestQuality, MediaSelection::AudioOnly);
    c.output_path = None;
    let invocation = c.build_command_for_video("abc", PathStyle::Unix).unwrap();
    assert_eq!(args(&invocation), vec!["-f", "bestaudio", "--no-playlist", "abc"]);
    let mut c = video(VideoQualityAndFormatPreferences::BestQuality, MediaSelection::AudioOnly);
    c.media_selected = None;
    let invocation = c.build_command_for_video("abc", PathStyle::Unix).unwrap();
    assert_eq!(args(&invocation), vec!["-o", "/out/%(title)s.%(ext)s", "--no-playlist", "abc"]);
    let mut c = video(VideoQualityAndFormatPreferences::BestQuality, MediaSelection::AudioOnly);
    c.include_indexes = None;
    let invocation = c.build_command_for_video("abc", PathStyle::Unix).unwrap();
    assert_eq!(args(&invocation), vec!["-f", "bestaudio", "--no-playlist", "abc"]);
}

#[test]
fn main_command_reports_what_is_missing() {
    let mut c = video(VideoQualityAndFormatPreferences::BestQuality, MediaSelection::FullVideo);
    c.url = None;
    assert_eq!(c.build_command(PathStyle::Unix).unwrap_err(), BlobdlError::UrlNotProvided);
    c.chosen_format = None;
    assert_eq!(c.build_command(PathStyle::Unix).unwrap_err(), BlobdlError::FormatPreferenceNotProvided);
    let mut c = playlist(VideoQualityAndFormatPreferences::BestQuality, MediaSelection::FullVideo, true);
    c.url = None;
    assert_eq!(c.build_command(PathStyle::Unix).unwrap_err(), BlobdlError::UrlNotProvided);
    let mut c = playlist(VideoQualityAndFormatPreferences::BestQuality, MediaSelection::FullVideo, true);
    c.chosen_format = None;
    let (invocation, _) = c.build_command(PathStyle::Unix).unwrap();
    assert_eq!(
        args(&invocation),
        vec![
            "-i",
            "--yes-playlist",
            "-o",
            "/out/%(playlist)s/%(playlist_index)s_%(title)s",
            "https://youtube.com/playlist?list=PL1",
        ]
    );
    c.download_target = None;
    assert_eq!(c.build_command(PathStyle::Unix).unwrap_err(), BlobdlError::DownloadTargetNotProvided);
}

#[test]
fn clone_keeps_every_setting() {
    let c = playlist(
        VideoQualityAndFormatPreferences::UniqueFormat("22".to_string()),
        MediaSelection::VideoOnly,
        true,
    );
    let d = c.clone();
    assert_eq!(d.url, c.url);
    assert_eq!(d.output_path, c.output_path);
    assert_eq!(d.include_indexes, c.include_indexes);
    assert_eq!(d.media_selected, c.media_selected);
    assert_eq!(d.download_target, c.download_target);
    match d.chosen_format {
        Some(VideoQualityAndFormatPreferences::UniqueFormat(id)) => assert_eq!(id, "22"),
        _ => panic!("format lost"),
    }
}
