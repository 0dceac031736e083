use blob_dl::classifier::{
    classify_line, marker_text, observe_line, observe_undecodable, Highlight, InfoKind,
    LineDisplay, OutputLine,
};
use blob_dl::parser::Verbosity;

#[test]
fn error_marker_makes_an_error() {
    match classify_line("ERROR: [youtube] abc123: Video unavailable") {
        OutputLine::Error(e) => {
            assert_eq!(e.video_id(), "abc123");
            assert_eq!(e.error_msg(), "Video unavailable");
        }
        other => panic!("not an error: {:?}", matches!(other, OutputLine::Progress)),
    }
}

#[test]
fn error_marker_wins_over_every_other_marker() {
    assert!(matches!(
        classify_line("[download] ERROR: something broke"),
        OutputLine::Error(_)
    ));
    assert!(matches!(classify_line("[info] ERROR: x"), OutputLine::Error(_)));
}

#[test]
fn informational_markers_are_told_apart() {
    assert!(matches!(
        classify_line("[download]  12.5% of 3.00MiB at 1.00MiB/s"),
        OutputLine::Progress
    ));
    assert!(matches!(
        classify_line("Deleting existing file a.webm"),
        OutputLine::Info(InfoKind::Overwrite)
    ));
    assert!(matches!(
        classify_line("[info] abc: Downloading 1 format(s): 22"),
        OutputLine::Info(InfoKind::Metadata)
    ));
    assert!(matches!(
        classify_line("[VideoConvertor] Converting video from webm to mp4"),
        OutputLine::Info(InfoKind::Conversion)
    ));
    assert!(matches!(
        classify_line("Usage: yt-dlp [OPTIONS] URL [URL...]"),
        OutputLine::Info(InfoKind::Usage)
    ));
}

#[test]
fn markers_are_tried_in_a_fixed_order() {
    assert!(matches!(classify_line("[info] [download] x"), OutputLine::Progress));
    assert!(matches!(
        classify_line("[info] Deleting existing file x"),
        OutputLine::Info(InfoKind::Overwrite)
    ));
    assert!(matches!(
        classify_line("[VideoConvertor] [info]"),
        OutputLine::Info(InfoKind::Metadata)
    ));
}

#[test]
fn anything_else_is_unclassified() {
    assert!(matches!(classify_line("[youtube] abc: Downloading webpage"), OutputLine::Unclassified));
    assert!(matches!(classify_line(""), OutputLine::Unclassified));
    assert!(matches!(classify_line("error: lower case"), OutputLine::Unclassified));
    assert!(matches!(classify_line("ERROR without colon"), OutputLine::Unclassified));
}

#[test]
fn quiet_hides_everything_but_keeps_errors() {
    let seen = observe_line("ERROR: [youtube] abc: gone", Verbosity::Quiet);
    assert!(matches!(seen.display, LineDisplay::Hidden));
    assert_eq!(seen.error.unwrap().video_id(), "abc");
    let seen = observe_line("[download] 100%", Verbosity::Quiet);
    assert!(matches!(seen.display, LineDisplay::Hidden));
    assert!(seen.error.is_none());
}

#[test]
fn verbose_shows_every_line() {
    let seen = observe_line("some chatter", Verbosity::Verbose);
    assert!(matches!(seen.display, LineDisplay::Plain));
    assert!(seen.error.is_none());
    let seen = observe_line("[download] 100%", Verbosity::Verbose);
    assert!(matches!(seen.display, LineDisplay::Plain));
    let seen = observe_line("ERROR: [youtube] abc: gone", Verbosity::Verbose);
    assert!(matches!(seen.display, LineDisplay::Failure));
    assert_eq!(seen.error.unwrap().error_msg(), "gone");
}

#[test]
fn default_highlights_markers_and_hides_chatter() {
    let seen = observe_line("[download]  50% of 1MiB", Verbosity::Default);
    match seen.display {
        LineDisplay::Highlighted { kind, rest } => {
            assert_eq!(kind, Highlight::Download);
            assert_eq!(rest, "  50% of 1MiB");
        }
        _ => panic!("not highlighted"),
    }
    let seen = observe_line("[info] abc: Downloading", Verbosity::Default);
    match seen.display {
        LineDisplay::Highlighted { kind, rest } => {
            assert_eq!(kind, Highlight::Info);
            assert_eq!(rest, " abc: Downloading");
        }
        _ => panic!("not highlighted"),
    }
    let seen = observe_line("[VideoConvertor] Converting", Verbosity::Default);
    match seen.display {
        LineDisplay::Highlighted { kind, rest } => {
            assert_eq!(kind, Highlight::Convertor);
            assert_eq!(rest, " Converting");
        }
        _ => panic!("not highlighted"),
    }
    assert!(matches!(
        observe_line("Deleting existing file x", Verbosity::Default).display,
        LineDisplay::Plain
    ));
    assert!(matches!(
        observe_line("Usage: yt-dlp [OPTIONS] URL [URL...]", Verbosity::Default).display,
        LineDisplay::InvalidCommand
    ));
    assert!(matches!(
        observe_line("[youtube] abc: Downloading webpage", Verbosity::Default).display,
        LineDisplay::Hidden
    ));
    let seen = observe_line("ERROR: boom", Verbosity::Default);
    assert!(matches!(seen.display, LineDisplay::Failure));
    assert_eq!(seen.error.unwrap().error_msg(), "boom");
}

#[test]
fn highlighted_rest_counts_characters_not_bytes() {
    let seen = observe_line("é [info] x", Verbosity::Default);
    match seen.display {
        LineDisplay::Highlighted { kind, rest } => {
            assert_eq!(kind, Highlight::Info);
            assert_eq!(rest, "o] x");
        }
        _ => panic!("not highlighted"),
    }
}

#[test]
fn undecodable_lines_are_reported_unless_quiet() {
    assert!(matches!(observe_undecodable(Verbosity::Quiet), LineDisplay::Hidden));
    assert!(matches!(observe_undecodable(Verbosity::Default), LineDisplay::Undecodable));
    assert!(matches!(observe_undecodable(Verbosity::Verbose), LineDisplay::Undecodable));
}

#[test]
fn markers_have_their_text() {
    assert_eq!(marker_text(Highlight::Download), "[download]");
    assert_eq!(marker_text(Highlight::Info), "[info]");
    assert_eq!(marker_text(Highlight::Convertor), "[VideoConvertor]");
}
