//! Preferences that are stated in one go, without a question being asked.

use vstd::prelude::*;

verus! {

/// What, in which format and where to, as a mathematical value.
pub ghost struct Wishes {
    pub url: Seq<char>,
    pub download_format: Seq<char>,
    pub output_path: Seq<char>,
}

/// What is downloaded, in which format, and where to.
#[derive(Debug)]
pub struct Preferences {
    url: String,
    download_format: String,
    output_path: String,
}

impl View for Preferences {
    type V = Wishes;

    closed spec fn view(&self) -> Wishes {
        Wishes {
            url: self.url@,
            download_format: self.download_format@,
            output_path: self.output_path@,
        }
    }
}

// Constructors
impl Preferences {
    /// Preferences that state nothing yet.
    pub fn new() -> (r: Preferences)
        ensures
            r@ == (Wishes {
                url: Seq::empty(),
                download_format: Seq::empty(),
                output_path: Seq::empty(),
            }),
    {
        Preferences {
            url: String::new(),
            download_format: String::new(),
            output_path: String::new(),
        }
    }

    /// The preferences with these three settings.
    pub fn build(url: String, download_format: String, output_path: String) -> (r: Preferences)
        ensures
            r@ == (Wishes { url: url@, download_format: download_format@, output_path: output_path@ }),
    {
        Preferences { url, download_format, output_path }
    }
}

// Getters and setters
impl Preferences {
    /// The link to download from.
    pub fn url(&self) -> (r: String)
        ensures
            r@ == self@.url,
    {
        self.url.clone()
    }

    /// Replaces the link.
    pub fn set_url(&mut self, url: String)
        ensures
            final(self)@ == (Wishes { url: url@, ..old(self)@ }),
    {
        self.url = url;
    }

    /// The directory where the files go.
    pub fn output_path(&self) -> (r: String)
        ensures
            r@ == self@.output_path,
    {
        self.output_path.clone()
    }

    /// Replaces the directory where the files go.
    pub fn set_output_path(&mut self, output_path: String)
        ensures
            final(self)@ == (Wishes { output_path: output_path@, ..old(self)@ }),
    {
        self.output_path = output_path;
    }

    /// The format of the downloaded files.
    pub fn download_format(&self) -> (r: String)
        ensures
            r@ == self@.download_format,
    {
        self.download_format.clone()
    }

    /// Replaces the format of the downloaded files.
    pub fn set_download_format(&mut self, download_format: String)
        ensures
            final(self)@ == (Wishes { download_format: download_format@, ..old(self)@ }),
    {
        self.download_format = download_format;
    }
}

/// The preferences together with how much is shown, as a mathematical
/// value.
pub ghost struct Settings {
    pub url: Seq<char>,
    pub download_format: Seq<char>,
    pub output_path: Seq<char>,
    pub verbose: bool,
}

/// The preferences together with how much is shown.
#[derive(Debug)]
pub struct Config {
    pub url: String,
    pub download_format: String,
    pub output_path: String,
    pub verbose: bool,
}

impl View for Config {
    type V = Settings;

    open spec fn view(&self) -> Settings {
        Settings {
            url: self.url@,
            download_format: self.download_format@,
            output_path: self.output_path@,
            verbose: self.verbose,
        }
    }
}

impl Config {
    /// The configuration with these four settings.
    pub fn new(url: String, download_format: String, output_path: String, verbose: bool) -> (r:
        Config)
        ensures
            r@ == (Settings {
                url: url@,
                download_format: download_format@,
                output_path: output_path@,
                verbose,
            }),
    {
        Config { url, download_format, output_path, verbose }
    }
}

} // verus!
