//! Plain option bundles that callers hand to the commands. The
//! binary's argument parser fills them; the library only reads them.

use vstd::prelude::*;

verus! {

/// Options of the `init` command.
pub struct InitArgs {
    /// Reserved for future schema upgrades driven from `init`.
    pub upgrade: bool,
}

/// Options of the `log` command.
pub struct LogArgs {
    /// Short message given directly; when absent the caller gathers
    /// the content interactively before calling the library.
    pub message: Option<String>,
    /// Comma-joined free-text tags to attach to the record.
    pub tags: Option<String>,
    /// Record under the sentinel directory "global" instead of the
    /// working directory.
    pub global: bool,
}

/// Options of the `get` command: one optional action, the filter
/// dimensions, and result shaping.
pub struct GetArgs {
    /// Action: append this tag to every matched record.
    pub add_tag: Option<String>,
    /// Action: overwrite the directory of every matched record.
    pub fix_path: Option<String>,
    /// Action: move every matched record to the archive.
    pub delete: bool,
    /// Confirmation required by `delete`.
    pub force: bool,
    /// Scope: match the working directory and all directories under it.
    pub recursive: bool,
    /// Scope: no directory condition at all.
    pub all: bool,
    /// Scope: also match records under the sentinel directory "global".
    pub global: bool,
    /// Time: records of the store's current local date.
    pub today: bool,
    /// Time: records of one exact date (YYYY-MM-DD).
    pub date: Option<String>,
    /// Time: records of the last N hours.
    pub hour: Option<u32>,
    /// Time: records of the last N minutes.
    pub minute: Option<u32>,
    /// Content: records whose tags contain this text.
    pub tag: Option<String>,
    /// Content: records whose content contains this text.
    pub keyword: Option<String>,
    /// Display: show each record's short identifier.
    pub identifier: bool,
    /// Display: show each record's tags.
    pub tags: bool,
    /// Shaping: oldest-first instead of newest-first.
    pub reverse: bool,
    /// Shaping: at most this many records.
    pub num: u32,
}

/// Options of the `fix` command (placeholder: targeted single-record
/// update by short identifier).
pub struct FixArgs {
    pub identifier: String,
    pub tag: Option<String>,
    pub content: Option<String>,
    pub directory: Option<String>,
}

/// Options of the `pop` command (targeted batch archival by short
/// identifier list).
pub struct PopArgs {
    pub identifiers: Vec<String>,
}

} // verus!
