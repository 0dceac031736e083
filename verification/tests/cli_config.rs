use blob_dl::error::BlobdlError;
use blob_dl::parser::{is_ytdlp_compatible, CliConfig, Verbosity, RECOMMENDED_YTDLP_VERSION};

#[test]
fn link_is_required() {
    assert_eq!(
        CliConfig::from(None, false, false, false).unwrap_err(),
        BlobdlError::MissingArgument
    );
    assert_eq!(
        CliConfig::from(None, true, true, true).unwrap_err(),
        BlobdlError::MissingArgument
    );
}

#[test]
fn flags_are_kept() {
    let c = CliConfig::from(Some("https://youtu.be/abc".to_string()), false, false, true).unwrap();
    assert_eq!(c.url(), "https://youtu.be/abc");
    assert_eq!(*c.verbosity(), Verbosity::Default);
    assert!(c.show_command());
    let c = CliConfig::from(Some("u".to_string()), false, true, false).unwrap();
    assert_eq!(*c.verbosity(), Verbosity::Verbose);
    assert!(!c.show_command());
}

#[test]
fn quiet_wins_over_verbose() {
    let c = CliConfig::from(Some("u".to_string()), true, true, false).unwrap();
    assert_eq!(*c.verbosity(), Verbosity::Quiet);
    let c = CliConfig::from(Some("u".to_string()), true, false, false).unwrap();
    assert_eq!(*c.verbosity(), Verbosity::Quiet);
}

#[test]
fn recommended_version_is_recognised() {
    assert_eq!(RECOMMENDED_YTDLP_VERSION, "2025.03.31");
    assert!(is_ytdlp_compatible("2025.03.31\n"));
    assert!(is_ytdlp_compatible(" 2025.03.31 "));
    assert!(!is_ytdlp_compatible("2024.11.18\n"));
    assert!(!is_ytdlp_compatible("2025.03.31.1"));
    assert!(!is_ytdlp_compatible(""));
}
