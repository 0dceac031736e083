//! Tells from a link what is to be downloaded.

use crate::error::BlobdlError;
use crate::text::{
    contains, find_chars, first_occurrence, occurs_at, parse_index, parsed_index, str_contains,
    to_chars,
};
use vstd::prelude::*;

verus! {

/// Every domain of the site holds this text.
pub const SITE_MARK: &'static str = "youtu";

/// Stands in the query of a link to a video that is shown inside a playlist,
/// in front of the video's index there.
pub const INDEX_KEY: &'static str = "&index=";

/// What a link refers to.
#[derive(Debug, Clone, Copy, PartialEq, Eq, PartialOrd, Structural)]
pub enum DownloadOption {
    /// A single video. Where the link shows it inside a playlist, the number is
    /// its index there, else 0.
    YtVideo(usize),
    /// A whole playlist.
    YtPlaylist,
}

/// The parts of a link that decide what it refers to, as a mathematical
/// value.
pub ghost struct LinkParts {
    pub domain: Option<Seq<char>>,
    pub path: Seq<char>,
    pub query: Option<Seq<char>>,
}

/// The parts of a link that decide what it refers to.
#[derive(Debug)]
pub struct UrlParts {
    /// The host, where it is a domain name.
    pub domain: Option<String>,
    pub path: String,
    /// What follows the question mark, where there is one.
    pub query: Option<String>,
}

impl View for UrlParts {
    type V = LinkParts;

    open spec fn view(&self) -> LinkParts {
        LinkParts {
            domain: match self.domain {
                Some(d) => Some(d@),
                None => None,
            },
            path: self.path@,
            query: match self.query {
                Some(q) => Some(q@),
                None => None,
            },
        }
    }
}

/// The parts of the absolute link that `text` writes, as the `url` crate
/// reads them; nothing where it reads no absolute link.
pub uninterp spec fn link_parts(text: Seq<char>) -> Option<LinkParts>;

/// The view of optional parts.
pub open spec fn parts_of(parts: Option<UrlParts>) -> Option<LinkParts> {
    match parts {
        Some(p) => Some(p@),
        None => None,
    }
}

/// Reads a link with `url::Url::parse` and hands out its domain, path and
/// query as `Url::domain`, `Url::path` and `Url::query` give them.
///
/// Nothing is claimed of what the parts are, only that they depend on the
/// text alone: `link_parts` is the name of that dependence.
#[verifier::external_body]
fn split_url(text: &str) -> (r: Option<UrlParts>)
    ensures
        parts_of(r) == link_parts(text@),
{
    match url::Url::parse(text) {
        Ok(parsed) => Some(
            UrlParts {
                domain: parsed.domain().map(String::from),
                path: parsed.path().to_string(),
                query: parsed.query().map(String::from),
            },
        ),
        Err(_) => None,
    }
}

/// What a link says about the download.
#[derive(Debug, Clone, Copy, PartialEq, Eq, Structural)]
pub enum LinkTarget {
    /// The link leaves no doubt.
    Settled(DownloadOption),
    /// The link shows a video inside a playlist: the operator has to say
    /// which of the two is meant.
    VideoInPlaylist,
}

/// What the parts of a link of the site say about the download.
///
/// A link without a query says nothing. A query with an index shows a video
/// inside a playlist. Otherwise the link refers to a playlist where its path
/// or its query says so, and to a single video else.
pub open spec fn inspected(parts: LinkParts) -> Result<LinkTarget, BlobdlError> {
    match parts.query {
        None => Err(BlobdlError::QueryCouldNotBeParsed),
        Some(query) => if contains(query, INDEX_KEY@) {
            Ok(LinkTarget::VideoInPlaylist)
        } else if contains(parts.path, "playlist"@) || contains(query, "list"@) {
            Ok(LinkTarget::Settled(DownloadOption::YtPlaylist))
        } else {
            Ok(LinkTarget::Settled(DownloadOption::YtVideo(0)))
        },
    }
}

/// What the parts of a link say about the download, or why the link cannot
/// be used.
pub open spec fn analyzed(parts: Option<LinkParts>) -> Result<LinkTarget, BlobdlError> {
    match parts {
        None => Err(BlobdlError::UrlParsingError),
        Some(parts) => match parts.domain {
            None => Err(BlobdlError::DomainNotFound),
            Some(domain) => if contains(domain, SITE_MARK@) {
                inspected(parts)
            } else {
                Err(BlobdlError::UnsupportedWebsite)
            },
        },
    }
}

/// The text of the index in a query: what stands behind the first index key,
/// up to the next `&` or to the end.
pub open spec fn index_text(query: Seq<char>) -> Option<Seq<char>> {
    match first_occurrence(query, INDEX_KEY@) {
        None => None,
        Some(at) => {
            let rest = query.skip(at + INDEX_KEY@.len());
            match first_occurrence(rest, seq!['&']) {
                Some(end) => Some(rest.take(end)),
                None => Some(rest),
            }
        },
    }
}

/// What is downloaded from a link that shows a video inside a playlist, once
/// the operator has chosen.
///
/// The first option stands for the video alone, whose index is read from the
/// query; every other option stands for the whole playlist.
pub open spec fn resolved(query: Seq<char>, selection: usize) -> Result<
    DownloadOption,
    BlobdlError,
> {
    if selection == 0 {
        match index_text(query) {
            None => Err(BlobdlError::PlaylistUrlError),
            Some(text) => match parsed_index(text) {
                Some(index) => Ok(DownloadOption::YtVideo(index)),
                None => Err(BlobdlError::UrlIndexParsingError),
            },
        }
    } else {
        Ok(DownloadOption::YtPlaylist)
    }
}

/// Decides what the parts of a link of the site say about the download.
pub fn inspect_yt_url(parts: &UrlParts) -> (r: Result<LinkTarget, BlobdlError>)
    ensures
        r == inspected(parts@),
{
    if let Some(query) = &parts.query {
        if str_contains(query.as_str(), INDEX_KEY) {
            return Ok(LinkTarget::VideoInPlaylist);
        }
        if str_contains(parts.path.as_str(), "playlist") || str_contains(query.as_str(), "list") {
            return Ok(LinkTarget::Settled(DownloadOption::YtPlaylist));
        }
        // This url is probably referring to a video or a short
        return Ok(LinkTarget::Settled(DownloadOption::YtVideo(0)));
    }
    Err(BlobdlError::QueryCouldNotBeParsed)
}

/// Decides what the parts of a link say about the download. `None` stands
/// for a text that is no absolute link.
pub fn analyze_parts(parts: &Option<UrlParts>) -> (r: Result<LinkTarget, BlobdlError>)
    ensures
        r == analyzed(parts_of(*parts)),
{
    match parts {
        Some(parts) => {
            if let Some(domain_name) = &parts.domain {
                if str_contains(domain_name.as_str(), SITE_MARK) {
                    inspect_yt_url(parts)
                } else {
                    Err(BlobdlError::UnsupportedWebsite)
                }
            } else {
                Err(BlobdlError::DomainNotFound)
            }
        },
        None => Err(BlobdlError::UrlParsingError),
    }
}

/// Analyzes the link that the operator gave and tells whether it refers to
/// a video or to a playlist of the site.
pub fn analyze_url(command_line_url: &str) -> (r: Result<LinkTarget, BlobdlError>)
    ensures
        r == analyzed(link_parts(command_line_url@)),
{
    let parts = split_url(command_line_url);
    analyze_parts(&parts)
}

/// The query of a link, where it has one.
pub fn query_of(command_line_url: &str) -> (r: Option<String>)
    ensures
        match link_parts(command_line_url@) {
            Some(parts) => match parts.query {
                Some(query) => r is Some && r->0@ == query,
                None => r is None,
            },
            None => r is None,
        },
{
    match split_url(command_line_url) {
        Some(parts) => parts.query,
        None => None,
    }
}

/// Settles what is downloaded from a link that shows a video inside a
/// playlist, once the operator has chosen between the two.
pub fn resolve_video_in_playlist(query: &str, selection: usize) -> (r: Result<
    DownloadOption,
    BlobdlError,
>)
    ensures
        r == resolved(query@, selection),
{
    if selection != 0 {
        return Ok(DownloadOption::YtPlaylist);
    }
    let chars = to_chars(query);
    let key = to_chars(INDEX_KEY);
    let at = match find_chars(&chars, &key) {
        Some(at) => at,
        None => return Err(BlobdlError::PlaylistUrlError),
    };
    // The key stands at `at`, so it ends inside the query.
    assert(occurs_at(chars@, key@, at as int));
    assert(at + key.len() <= chars.len());
    let from = at + key.len();
    let mut rest: Vec<char> = Vec::new();
    let mut i: usize = from;
    while i < chars.len()
        invariant
            from <= i <= chars.len(),
            rest@ == chars@.subrange(from as int, i as int),
        decreases chars.len() - i,
    {
        rest.push(chars[i]);
        assert(rest@ =~= chars@.subrange(from as int, i + 1));
        i += 1;
    }
    assert(rest@ =~= chars@.skip(from as int));
    let mut ampersand: Vec<char> = Vec::new();
    ampersand.push('&');
    assert(ampersand@ =~= seq!['&']);
    let end = match find_chars(&rest, &ampersand) {
        Some(end) => end,
        None => rest.len(),
    };
    let mut index: Vec<char> = Vec::new();
    let mut j: usize = 0;
    while j < end
        invariant
            j <= end <= rest.len(),
            index@ == rest@.take(j as int),
        decreases end - j,
    {
        index.push(rest[j]);
        assert(index@ =~= rest@.take(j + 1));
        j += 1;
    }
    assert(rest@.take(rest.len() as int) =~= rest@);
    match parse_index(&index) {
        Some(parsed) => Ok(DownloadOption::YtVideo(parsed)),
        None => Err(BlobdlError::UrlIndexParsingError),
    }
}

} // verus!
