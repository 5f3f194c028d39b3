//! The log record and its mathematical view.

use vstd::prelude::*;
use vstd::string::*;
use crate::clock;
use crate::text::{hex_digits, simplify_timestamp, u64_to_hex};

verus! {

/// One stored record. `id` is store-assigned and unique; `timestamp`
/// is an ISO-8601 UTC string, sortable lexically; `directory` is an
/// absolute path or the sentinel "global"; `metadata` holds the
/// content-derived hex digest shown to users as the short identifier.
#[derive(Clone, Debug)]
pub struct Log {
    pub id: i64,
    pub timestamp: String,
    pub directory: String,
    pub content: String,
    pub tags: Option<String>,
    pub metadata: Option<String>,
    pub level: Option<String>,
}

/// Mathematical view of a record: every text field as a character
/// sequence.
pub struct LogV {
    pub id: int,
    pub timestamp: Seq<char>,
    pub directory: Seq<char>,
    pub content: Seq<char>,
    pub tags: Option<Seq<char>>,
    pub metadata: Option<Seq<char>>,
    pub level: Option<Seq<char>>,
}

impl View for Log {
    type V = LogV;

    open spec fn view(&self) -> LogV {
        LogV {
            id: self.id as int,
            timestamp: self.timestamp@,
            directory: self.directory@,
            content: self.content@,
            tags: match self.tags {
                Some(t) => Some(t@),
                None => None,
            },
            metadata: match self.metadata {
                Some(m) => Some(m@),
                None => None,
            },
            level: match self.level {
                Some(l) => Some(l@),
                None => None,
            },
        }
    }
}

impl Log {
    /// The user-facing stable identifier of the record: the stored
    /// digest when present, else the record id rendered in hex.
    pub fn get_short_hash(&self) -> (r: String)
        ensures
            match self@.metadata {
                Some(m) => r@ == m,
                None => r@ == hex_digits(self.id as u64 as nat),
            },
    {
        match &self.metadata {
            Some(metadata) => metadata.clone(),
            None => u64_to_hex(self.id as u64),
        }
    }

    /// The stored UTC timestamp rendered in the machine's local time
    /// zone, when it parses (over-precise fractions are cut first);
    /// what the rendering is depends on the machine, so callers fall
    /// back to the raw timestamp on `None`.
    pub fn get_local_time(&self) -> (r: Option<String>) {
        let simplified = simplify_timestamp(self.timestamp.as_str());
        clock::render_local(self.timestamp.as_str(), simplified.as_str())
    }
}

/// The short form of a stored digest: its first seven characters, or
/// all of it when it is shorter.
pub open spec fn spec_short_hash(m: Seq<char>) -> Seq<char> {
    m.take(
        if m.len() < 7 {
            m.len() as int
        } else {
            7
        },
    )
}

/// Cuts a stored digest to its short form.
pub fn short_hash_of(metadata: &str) -> (r: String)
    ensures
        r@ == spec_short_hash(metadata@),
{
    let len = metadata.unicode_len();
    let cut = if len < 7 {
        len
    } else {
        7
    };
    let s = metadata.substring_char(0, cut);
    s.to_owned()
}

} // verus!
