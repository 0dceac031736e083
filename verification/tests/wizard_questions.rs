use blob_dl::analyzer::DownloadOption;
use blob_dl::config::DownloadConfig;
use blob_dl::error::BlobdlError;
use blob_dl::formats::{MediaSelection, VideoQualityAndFormatPreferences};
use blob_dl::wizard::{
    answer_format, answer_include_indexes, answer_media, answer_output_path, assemble_data,
    conversion_formats, convert_to_format, format_menu, get_format, get_format_from_yt,
    get_index_preference, get_media_selection, next_question, FormatSource, Question,
    BEST_QUALITY_PROMPT_PLAYLIST, BEST_QUALITY_PROMPT_SINGLE_VIDEO, CONVERT_FORMAT_PROMPT_AUDIO,
    CONVERT_FORMAT_PROMPT_VIDEO_PLAYLIST, CONVERT_FORMAT_PROMPT_VIDEO_SINGLE_VIDEO,
    SMALLEST_QUALITY_PROMPT_PLAYLIST, SMALLEST_QUALITY_PROMPT_SINGLE_VIDEO,
    YT_FORMAT_PROMPT_PLAYLIST, YT_FORMAT_PROMPT_SINGLE_VIDEO,
};

const PLAYLIST: DownloadOption = DownloadOption::YtPlaylist;
const VIDEO: DownloadOption = DownloadOption::YtVideo(4);

#[test]
fn questions_come_in_order_for_a_playlist() {
    let c = DownloadConfig::empty();
    assert_eq!(next_question(&c, &PLAYLIST, true), Question::Media);
    let c = answer_media(c, MediaSelection::AudioOnly);
    assert_eq!(next_question(&c, &PLAYLIST, true), Question::Format);
    let c = answer_format(c, VideoQualityAndFormatPreferences::BestQuality);
    assert_eq!(next_question(&c, &PLAYLIST, true), Question::OutputPath);
    let c = answer_output_path(c, "  /music  ");
    assert_eq!(c.output_path.as_deref(), Some("/music"));
    assert_eq!(next_question(&c, &PLAYLIST, true), Question::IncludeIndexes);
    let c = answer_include_indexes(c, true);
    assert_eq!(next_question(&c, &PLAYLIST, true), Question::Nothing);
    let done = assemble_data("https://youtube.com/playlist?list=PL1", &PLAYLIST, c, true).unwrap();
    assert_eq!(done.url.as_deref(), Some("https://youtube.com/playlist?list=PL1"));
    assert_eq!(done.output_path.as_deref(), Some("/music"));
    assert_eq!(done.include_indexes, Some(true));
    assert_eq!(done.media_selected, Some(MediaSelection::AudioOnly));
    assert_eq!(done.download_target, Some(DownloadOption::YtPlaylist));
    assert!(matches!(done.chosen_format, Some(VideoQualityAndFormatPreferences::BestQuality)));
}

#[test]
fn a_video_is_not_asked_about_indexes() {
    let c = DownloadConfig::empty();
    let c = answer_media(c, MediaSelection::FullVideo);
    let c = answer_format(c, VideoQualityAndFormatPreferences::ConvertTo("mkv".to_string()));
    assert_eq!(next_question(&c, &VIDEO, false), Question::OutputPath);
    let c = answer_output_path(c, "/videos");
    assert_eq!(next_question(&c, &VIDEO, false), Question::Nothing);
    let done = assemble_data("https://youtu.be/abc", &VIDEO, c, false).unwrap();
    assert_eq!(done.include_indexes, Some(false));
    assert_eq!(done.download_target, Some(DownloadOption::YtVideo(0)));
    match done.chosen_format {
        Some(VideoQualityAndFormatPreferences::ConvertTo(ext)) => assert_eq!(ext, "mkv"),
        _ => panic!("format lost"),
    }
}

#[test]
fn settled_preferences_are_not_asked_again() {
    let mut c = DownloadConfig::empty();
    c.output_path = Some(" kept as it is ".to_string());
    c.media_selected = Some(MediaSelection::VideoOnly);
    assert_eq!(next_question(&c, &PLAYLIST, true), Question::Format);
    let c = answer_format(c, VideoQualityAndFormatPreferences::SmallestSize);
    assert_eq!(next_question(&c, &PLAYLIST, true), Question::IncludeIndexes);
    let c = answer_include_indexes(c, false);
    let done = assemble_data("u", &PLAYLIST, c, true).unwrap();
    assert_eq!(done.output_path.as_deref(), Some(" kept as it is "));
    assert_eq!(done.include_indexes, Some(false));
}

#[test]
fn conversion_without_converter_is_asked_again_for_a_playlist() {
    let c = answer_media(DownloadConfig::empty(), MediaSelection::FullVideo);
    let c = answer_format(c, VideoQualityAndFormatPreferences::ConvertTo("mp4".to_string()));
    assert_eq!(next_question(&c, &PLAYLIST, false), Question::Format);
    assert_eq!(next_question(&c, &PLAYLIST, true), Question::OutputPath);
    assert_eq!(next_question(&c, &VIDEO, false), Question::OutputPath);
}

#[test]
fn open_questions_stop_the_assembly() {
    let c = DownloadConfig::empty();
    assert_eq!(assemble_data("u", &PLAYLIST, c, true).unwrap_err(), BlobdlError::MediaSelectedNotProvided);
    let c = answer_media(DownloadConfig::empty(), MediaSelection::FullVideo);
    assert_eq!(assemble_data("u", &VIDEO, c, true).unwrap_err(), BlobdlError::ChosenFormatNotProvided);
    let c = answer_media(DownloadConfig::empty(), MediaSelection::FullVideo);
    let c = answer_format(c, VideoQualityAndFormatPreferences::BestQuality);
    assert_eq!(assemble_data("u", &VIDEO, c, true).unwrap_err(), BlobdlError::OutputPathNotProvided);
    let c = answer_media(DownloadConfig::empty(), MediaSelection::FullVideo);
    let c = answer_format(c, VideoQualityAndFormatPreferences::BestQuality);
    let c = answer_output_path(c, "/x");
    assert_eq!(
        assemble_data("u", &PLAYLIST, c, true).unwrap_err(),
        BlobdlError::IncludeIndexesNotProvided
    );
}

#[test]
fn menu_options_have_their_meaning() {
    assert_eq!(get_media_selection(0), MediaSelection::FullVideo);
    assert_eq!(get_media_selection(1), MediaSelection::AudioOnly);
    assert_eq!(get_media_selection(2), MediaSelection::VideoOnly);
    assert_eq!(get_media_selection(17), MediaSelection::VideoOnly);
    assert!(get_index_preference(0));
    assert!(!get_index_preference(1));
    assert!(!get_index_preference(9));
    assert_eq!(get_format(0, true), FormatSource::BestQuality);
    assert_eq!(get_format(1, true), FormatSource::SmallestSize);
    assert_eq!(get_format(2, true), FormatSource::Convert);
    assert_eq!(get_format(3, true), FormatSource::FromSite);
    assert_eq!(get_format(0, false), FormatSource::BestQuality);
    assert_eq!(get_format(1, false), FormatSource::SmallestSize);
    assert_eq!(get_format(2, false), FormatSource::FromSite);
    assert_eq!(get_format(3, false), FormatSource::FromSite);
}

#[test]
fn format_menu_depends_on_target_media_and_converter() {
    assert_eq!(
        format_menu(&PLAYLIST, &MediaSelection::AudioOnly, true),
        vec![
            BEST_QUALITY_PROMPT_PLAYLIST,
            SMALLEST_QUALITY_PROMPT_PLAYLIST,
            CONVERT_FORMAT_PROMPT_AUDIO,
            YT_FORMAT_PROMPT_PLAYLIST
        ]
    );
    assert_eq!(
        format_menu(&PLAYLIST, &MediaSelection::FullVideo, true),
        vec![
            BEST_QUALITY_PROMPT_PLAYLIST,
            SMALLEST_QUALITY_PROMPT_PLAYLIST,
            CONVERT_FORMAT_PROMPT_VIDEO_PLAYLIST,
            YT_FORMAT_PROMPT_PLAYLIST
        ]
    );
    assert_eq!(
        format_menu(&PLAYLIST, &MediaSelection::VideoOnly, false),
        vec![BEST_QUALITY_PROMPT_PLAYLIST, SMALLEST_QUALITY_PROMPT_PLAYLIST, YT_FORMAT_PROMPT_PLAYLIST]
    );
    assert_eq!(
        format_menu(&VIDEO, &MediaSelection::AudioOnly, true),
        vec![
            BEST_QUALITY_PROMPT_SINGLE_VIDEO,
            SMALLEST_QUALITY_PROMPT_SINGLE_VIDEO,
            CONVERT_FORMAT_PROMPT_VIDEO_SINGLE_VIDEO,
            YT_FORMAT_PROMPT_SINGLE_VIDEO
        ]
    );
    assert_eq!(
        format_menu(&VIDEO, &MediaSelection::FullVideo, false),
        vec![
            BEST_QUALITY_PROMPT_SINGLE_VIDEO,
            SMALLEST_QUALITY_PROMPT_SINGLE_VIDEO,
            YT_FORMAT_PROMPT_SINGLE_VIDEO
        ]
    );
}

#[test]
fn conversion_targets_depend_on_the_media() {
    assert_eq!(
        conversion_formats(&MediaSelection::AudioOnly),
        vec!["mp3", "m4a", "wav", "aac", "alac", "flac", "opus", "vorbis"]
    );
    assert_eq!(
        conversion_formats(&MediaSelection::VideoOnly),
        vec!["mp4", "mkv", "mov", "avi", "flv", "gif", "webm", "aiff", "mka", "ogg"]
    );
    assert_eq!(
        conversion_formats(&MediaSelection::FullVideo),
        vec![
            "mp4", "mkv", "mov", "avi", "flv", "gif", "webm", "aac", "aiff", "alac", "flac", "m4a",
            "mka", "mp3", "ogg", "opus", "vorbis", "wav"
        ]
    );
    match convert_to_format(&MediaSelection::AudioOnly, 2) {
        Some(VideoQualityAndFormatPreferences::ConvertTo(ext)) => assert_eq!(ext, "wav"),
        _ => panic!("no conversion"),
    }
    match convert_to_format(&MediaSelection::FullVideo, 17) {
        Some(VideoQualityAndFormatPreferences::ConvertTo(ext)) => assert_eq!(ext, "wav"),
        _ => panic!("no conversion"),
    }
    assert!(convert_to_format(&MediaSelection::AudioOnly, 8).is_none());
    assert!(convert_to_format(&MediaSelection::FullVideo, 18).is_none());
}

#[test]
fn site_format_is_picked_by_its_position() {
    let ids: Vec<String> = vec!["22".into(), "18".into()];
    match get_format_from_yt(&ids, 1) {
        Some(VideoQualityAndFormatPreferences::UniqueFormat(id)) => assert_eq!(id, "18"),
        _ => panic!("no format"),
    }
    assert!(get_format_from_yt(&ids, 2).is_none());
    assert!(get_format_from_yt(&Vec::new(), 0).is_none());
}
