//! Which failures are worth a second attempt.
//!
//! The table maps the exact text of a message of the downloader to whether
//! trying again can help. A message that the table does not hold falls
//! under the table's default; the documented table treats such a message as
//! not recoverable.

use crate::error::YtdlpError;
use crate::text::{contains, str_contains, str_eq};
use vstd::prelude::*;

verus! {

pub const PRIVATE_VIDEO: &'static str =
    "Private video. Sign in if you've been granted access to this video";

pub const NONEXISTENT_PLAYLIST: &'static str = "YouTube said: The playlist does not exist.";

pub const HOMEPAGE_REDIRECT: &'static str =
    "The channel/playlist does not exist and the URL redirected to youtube.com home page";

pub const NETWORK_FAIL: &'static str =
    "Unable to download API page: <urlopen error [Errno -3] Temporary failure in name resolution> (caused by URLError(gaierror(-3, 'Temporary failure in name resolution')))";

pub const VIOLENT_VIDEO: &'static str =
    "This video has been removed for violating YouTube's policy on violent or graphic content";

pub const REMOVED_VIDEO: &'static str =
    "Video unavailable. This video has been removed by the uploader";

pub const VIDEO_NOT_FOUND: &'static str = "not found, unable to continue";

pub const YTDLP_GAVE_UP: &'static str =
    "error: HTTP Error 403: Forbidden. Giving up after 10 retries";

pub const NO_API_PAGE: &'static str =
    "Unable to download API page: HTTP Error 404: Not Found (caused by <HTTPError 404: 'Not Found'>); please report this issue on https://github.com/yt-dlp/yt-dlp/issues?q= , filling out the appropriate issue template. Confirm you are on the latest version using yt-dlp -U";

pub const ENCODER_STREAM_ERROR: &'static str =
    "Postprocessing: Error selecting an encoder for stream 0:1";

pub const NONEXISTENT_VIDEO: &'static str = "Incomplete data received";

pub const NONEXISTENT_FORMAT: &'static str = "Requested format is not available";

/// Every message about a video that cannot be had at all holds this text.
pub const VIDEO_UNAVAILABLE: &'static str = "Video unavailable";

/// A policy as a mathematical value: the messages it knows, each with
/// whether trying again can help, and what holds of all others.
pub ghost struct Policy {
    pub known: Map<Seq<char>, bool>,
    pub default_recoverable: bool,
}

/// Whether a failure with `message` is worth a second attempt under
/// `policy`.
///
/// A message that says that the video is unavailable never is. Any other
/// message goes by the table where the table knows exactly this message, and
/// by the default where it does not.
pub open spec fn recoverable(policy: Policy, message: Seq<char>) -> bool {
    if contains(message, VIDEO_UNAVAILABLE@) {
        false
    } else if policy.known.contains_key(message) {
        policy.known[message]
    } else {
        policy.default_recoverable
    }
}

/// The documented messages of the site. Only a failed name resolution is
/// worth a second attempt, and a message that is not documented is not.
pub open spec fn documented_policy() -> Policy {
    Policy {
        known: Map::<Seq<char>, bool>::empty().insert(PRIVATE_VIDEO@, false).insert(
            NONEXISTENT_PLAYLIST@,
            false,
        ).insert(HOMEPAGE_REDIRECT@, false).insert(VIOLENT_VIDEO@, false).insert(
            REMOVED_VIDEO@,
            false,
        ).insert(YTDLP_GAVE_UP@, false).insert(VIDEO_NOT_FOUND@, false).insert(
            NETWORK_FAIL@,
            true,
        ).insert(NO_API_PAGE@, false).insert(ENCODER_STREAM_ERROR@, false).insert(
            NONEXISTENT_VIDEO@,
            false,
        ).insert(NONEXISTENT_FORMAT@, false),
        default_recoverable: false,
    }
}

/// What the table says of a message decides, unless the message says that
/// the video is unavailable.
///
/// A message that the table marks as final is never worth a second attempt.
/// A message that does not speak of an unavailable video is worth one where
/// the table marks it so, and where the table does not know it and the
/// default says so.
pub proof fn law_table_decides(policy: Policy, message: Seq<char>)
    ensures
        policy.known.contains_key(message) && !policy.known[message] ==> !recoverable(
            policy,
            message,
        ),
        !contains(message, VIDEO_UNAVAILABLE@) && policy.known.contains_key(message)
            && policy.known[message] ==> recoverable(policy, message),
        !contains(message, VIDEO_UNAVAILABLE@) && !policy.known.contains_key(message)
            ==> recoverable(policy, message) == policy.default_recoverable,
{
}

/// One line of the table.
#[derive(Debug)]
struct PolicyEntry {
    message: String,
    recoverable: bool,
}

impl View for PolicyEntry {
    type V = (Seq<char>, bool);

    closed spec fn view(&self) -> (Seq<char>, bool) {
        (self.message@, self.recoverable)
    }
}

impl DeepView for PolicyEntry {
    type V = (Seq<char>, bool);

    closed spec fn deep_view(&self) -> (Seq<char>, bool) {
        self@
    }
}

/// The map that a list of lines stands for. A later line replaces an
/// earlier one for the same message.
spec fn map_of(lines: Seq<(Seq<char>, bool)>) -> Map<Seq<char>, bool>
    decreases lines.len(),
{
    if lines.len() == 0 {
        Map::empty()
    } else {
        map_of(lines.drop_last()).insert(lines.last().0, lines.last().1)
    }
}

/// The last line for a message decides.
proof fn lemma_map_of_last_match(lines: Seq<(Seq<char>, bool)>, message: Seq<char>, i: int)
    requires
        0 <= i < lines.len(),
        lines[i].0 == message,
        forall|j: int| i < j < lines.len() ==> (#[trigger] lines[j]).0 != message,
    ensures
        map_of(lines).contains_key(message),
        map_of(lines)[message] == lines[i].1,
    decreases lines.len(),
{
    if i < lines.len() - 1 {
        lemma_map_of_last_match(lines.drop_last(), message, i);
    }
}

/// A message that no line holds is not in the map.
proof fn lemma_map_of_no_match(lines: Seq<(Seq<char>, bool)>, message: Seq<char>)
    requires
        forall|j: int| 0 <= j < lines.len() ==> (#[trigger] lines[j]).0 != message,
    ensures
        !map_of(lines).contains_key(message),
    decreases lines.len(),
{
    if lines.len() > 0 {
        lemma_map_of_no_match(lines.drop_last(), message);
    }
}

/// The table of known messages.
#[derive(Debug)]
pub struct ErrorPolicyTable {
    entries: Vec<PolicyEntry>,
    default_recoverable: bool,
}

impl View for ErrorPolicyTable {
    type V = Policy;

    closed spec fn view(&self) -> Policy {
        Policy {
            known: map_of(self.entries.deep_view()),
            default_recoverable: self.default_recoverable,
        }
    }
}

impl ErrorPolicyTable {
    /// A table that knows no message yet.
    pub fn new(default_recoverable: bool) -> (r: ErrorPolicyTable)
        ensures
            r@ == (Policy { known: Map::empty(), default_recoverable }),
    {
        let r = ErrorPolicyTable { entries: Vec::new(), default_recoverable };
        assert(r.entries.deep_view() =~= Seq::empty());
        r
    }

    /// Records whether `message` is worth a second attempt. What the table
    /// held for this message before is replaced.
    pub fn insert(&mut self, message: &str, recoverable: bool)
        ensures
            final(self)@ == (Policy {
                known: old(self)@.known.insert(message@, recoverable),
                default_recoverable: old(self)@.default_recoverable,
            }),
    {
        let ghost before = self.entries.deep_view();
        self.entries.push(PolicyEntry { message: message.to_owned(), recoverable });
        assert(self.entries.deep_view().drop_last() =~= before);
        assert(self.entries.deep_view().last() == (message@, recoverable));
    }

    /// What the table holds for exactly this message.
    pub fn get(&self, message: &str) -> (r: Option<bool>)
        ensures
            r == if self@.known.contains_key(message@) {
                Some(self@.known[message@])
            } else {
                None
            },
    {
        let ghost lines = self.entries.deep_view();
        let mut i: usize = self.entries.len();
        while i > 0
            invariant
                i <= self.entries.len(),
                lines == self.entries.deep_view(),
                forall|j: int| i <= j < lines.len() ==> (#[trigger] lines[j]).0 != message@,
            decreases i,
        {
            i -= 1;
            if str_eq(self.entries[i].message.as_str(), message) {
                proof {
                    assert(lines[i as int] == self.entries[i as int]@);
                    lemma_map_of_last_match(lines, message@, i as int);
                }
                return Some(self.entries[i].recoverable);
            }
            assert(lines[i as int] == self.entries[i as int]@);
        }
        proof {
            lemma_map_of_no_match(lines, message@);
        }
        None
    }

    /// What holds of a message that the table does not know.
    pub fn default_recoverable(&self) -> (r: bool)
        ensures
            r == self@.default_recoverable,
    {
        self.default_recoverable
    }

    /// Decides whether a failure with `message` is worth a second attempt.
    pub fn recoverable(&self, message: &str) -> (r: bool)
        ensures
            r == recoverable(self@, message@),
    {
        if str_contains(message, VIDEO_UNAVAILABLE) {
            return false;
        }
        match self.get(message) {
            Some(known) => known,
            None => self.default_recoverable,
        }
    }
}

/// Decides whether it makes sense to try downloading the item again.
pub fn is_recoverable(error: &YtdlpError, table: &ErrorPolicyTable) -> (r: bool)
    ensures
        r == recoverable(table@, error@.message),
{
    table.recoverable(error.error_msg().as_str())
}

/// The table of all the documented messages of the site and whether each is
/// worth a second attempt.
pub fn init_error_msg_lut() -> (r: ErrorPolicyTable)
    ensures
        r@ == documented_policy(),
{
    let mut table = ErrorPolicyTable::new(false);
    table.insert(PRIVATE_VIDEO, false);
    table.insert(NONEXISTENT_PLAYLIST, false);
    table.insert(HOMEPAGE_REDIRECT, false);
    table.insert(VIOLENT_VIDEO, false);
    table.insert(REMOVED_VIDEO, false);
    table.insert(YTDLP_GAVE_UP, false);
    table.insert(VIDEO_NOT_FOUND, false);
    table.insert(NETWORK_FAIL, true);
    table.insert(NO_API_PAGE, false);
    table.insert(ENCODER_STREAM_ERROR, false);
    table.insert(NONEXISTENT_VIDEO, false);
    table.insert(NONEXISTENT_FORMAT, false);
    table
}

} // verus!
