//! What the command line tells the program.

use crate::error::BlobdlError;
use crate::text::{str_eq, trim_text, trimmed};
use vstd::prelude::*;

verus! {

/// The version of the downloader that the program is known to work with.
pub const RECOMMENDED_YTDLP_VERSION: &'static str = "2025.03.31";

/// Whether the downloader, asked for its version, answered with the
/// recommended one. Spaces and line ends around the answer do not count.
pub fn is_ytdlp_compatible(reported: &str) -> (r: bool)
    ensures
        r == (trimmed(reported@) == RECOMMENDED_YTDLP_VERSION@),
{
    let version = trim_text(reported);
    str_eq(version.as_str(), RECOMMENDED_YTDLP_VERSION)
}

/// How much of the downloader's output is shown.
#[derive(Debug, Clone, Copy, PartialEq, Eq, Structural)]
pub enum Verbosity {
    /// Every line is shown.
    Verbose,
    /// Progress, information and errors are shown.
    Default,
    /// Nothing is shown while the downloader runs.
    Quiet,
}

/// The verbosity that the two flags ask for. Where both are given, quiet
/// wins.
pub open spec fn verbosity_of(quiet: bool, verbose: bool) -> Verbosity {
    if quiet {
        Verbosity::Quiet
    } else if verbose {
        Verbosity::Verbose
    } else {
        Verbosity::Default
    }
}

/// The command line, as a mathematical value.
pub ghost struct Arguments {
    pub url: Seq<char>,
    pub verbosity: Verbosity,
    pub show_command: bool,
}

/// Everything that the command line can tell.
#[derive(Debug)]
pub struct CliConfig {
    url: String,
    verbosity: Verbosity,
    // Whether the command that is handed to the downloader is printed first
    show_command: bool,
}

impl View for CliConfig {
    type V = Arguments;

    closed spec fn view(&self) -> Arguments {
        Arguments { url: self.url@, verbosity: self.verbosity, show_command: self.show_command }
    }
}

impl CliConfig {
    /// Puts together what was found on the command line. The link is the
    /// one thing that cannot be left out.
    pub fn from(url: Option<String>, quiet: bool, verbose: bool, show_command: bool) -> (r: Result<
        CliConfig,
        BlobdlError,
    >)
        ensures
            match r {
                Ok(config) => url is Some && config@ == (Arguments {
                    url: url->0@,
                    verbosity: verbosity_of(quiet, verbose),
                    show_command,
                }),
                Err(e) => url is None && e == BlobdlError::MissingArgument,
            },
    {
        let url = match url {
            Some(url) => url,
            None => return Err(BlobdlError::MissingArgument),
        };
        let verbosity = {
            if quiet {
                Verbosity::Quiet
            } else if verbose {
                Verbosity::Verbose
            } else {
                Verbosity::Default
            }
        };
        Ok(CliConfig { url, verbosity, show_command })
    }

    /// The link to download from.
    pub fn url(&self) -> (r: &String)
        ensures
            r@ == self@.url,
    {
        &self.url
    }

    /// How much of the downloader's output is shown.
    pub fn verbosity(&self) -> (r: &Verbosity)
        ensures
            *r == self@.verbosity,
    {
        &self.verbosity
    }

    /// Whether the command that is handed to the downloader is printed first.
    pub fn show_command(&self) -> (r: bool)
        ensures
            r == self@.show_command,
    {
        self.show_command
    }
}

} // verus!
