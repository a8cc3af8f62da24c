//! The decisions of the monitoring loop: what to do with what the clipboard
//! and the file watch handed over.

use crate::config::AppConfig;
use crate::detect::calculate_hash;
use crate::detect::changed;
use crate::detect::fingerprint;
use crate::diff::changeset_diffs;
use crate::diff::diffable;
use crate::diff::render_chunks;
use crate::diff::try_highlight_diff;
use crate::text::format_spec;
use crate::text::format_text;
use crate::text::FormatError;
use vstd::prelude::*;
use vstd::string::StringExecFns;

verus! {

/// A failure of the clipboard, with the provider's own words.
#[derive(Clone, Debug)]
pub enum ClipboardError {
    /// No clipboard provider could be created.
    CreateContext(String),
    /// The clipboard could not be written.
    SetContents(String),
    /// The clipboard could not be read, or what was read could not be
    /// processed.
    GetContents(String),
}

/// A failure of the clipboard, as a mathematical value.
pub ghost enum ErrorView {
    CreateContext(Seq<char>),
    SetContents(Seq<char>),
    GetContents(Seq<char>),
}

impl View for ClipboardError {
    type V = ErrorView;

    open spec fn view(&self) -> ErrorView {
        match self {
            ClipboardError::CreateContext(detail) => ErrorView::CreateContext(detail@),
            ClipboardError::SetContents(detail) => ErrorView::SetContents(detail@),
            ClipboardError::GetContents(detail) => ErrorView::GetContents(detail@),
        }
    }
}

/// The words of a clipboard failure: what failed, then the provider's words.
pub open spec fn error_text(error: ErrorView) -> Seq<char> {
    match error {
        ErrorView::CreateContext(detail) => "Failed to create clipboard provider: "@ + detail,
        ErrorView::SetContents(detail) => "Failed to set clipboard contents: "@ + detail,
        ErrorView::GetContents(detail) => "Failed to get clipboard contents: "@ + detail,
    }
}

impl ClipboardError {
    /// The error in words.
    pub fn message(&self) -> (text: String)
        ensures
            text@ == error_text(self@),
    {
        match self {
            ClipboardError::CreateContext(detail) => String::from_str(
                "Failed to create clipboard provider: ",
            ).concat(detail.as_str()),
            ClipboardError::SetContents(detail) => String::from_str(
                "Failed to set clipboard contents: ",
            ).concat(detail.as_str()),
            ClipboardError::GetContents(detail) => String::from_str(
                "Failed to get clipboard contents: ",
            ).concat(detail.as_str()),
        }
    }
}

/// Judges a freshly created clipboard provider by a first read and, where
/// that failed, a write of the empty text: the provider is usable when either
/// went well.
pub fn judge_probe(read_ok: bool, write_empty_ok: bool) -> (usable: Result<(), ClipboardError>)
    ensures
        (read_ok || write_empty_ok) ==> usable is Ok,
        !(read_ok || write_empty_ok) ==> (usable matches Err(e) && e@ == ErrorView::CreateContext(
            "Failed to set empty contents"@,
        )),
{
    if read_ok || write_empty_ok {
        Ok(())
    } else {
        Err(ClipboardError::CreateContext("Failed to set empty contents".to_owned()))
    }
}

/// A text to put on the clipboard in place of the one found there.
#[derive(Clone, Debug)]
pub struct WriteBack {
    /// The transformed text.
    pub text: String,
    /// What changed, highlighted for the log; `None` where the texts are too
    /// long to compare.
    pub diff: Option<String>,
}

/// What `diff` must be for the texts `content` and `formatted`.
pub open spec fn diff_spec(content: Seq<char>, formatted: Seq<char>) -> Option<Seq<char>> {
    if diffable(content, formatted) {
        Some(render_chunks(changeset_diffs(content, formatted, Seq::empty())))
    } else {
        None
    }
}

impl WriteBack {
    /// Whether this is the write-back that leads from `content` to
    /// `formatted`.
    pub open spec fn leads(self, content: Seq<char>, formatted: Seq<char>) -> bool {
        &&& self.text@ == formatted
        &&& match diff_spec(content, formatted) {
            Some(shown) => self.diff matches Some(d) && d@ == shown,
            None => self.diff is None,
        }
    }
}

/// Decides on the write-back once the content has been transformed: none
/// where the transformation changed nothing, else the transformed text with
/// its highlighted difference. A failed transformation is reported as a
/// failure to get the clipboard's contents.
pub fn decide_write_back(content: &str, formatted: Result<String, FormatError>) -> (decision:
    Result<Option<WriteBack>, ClipboardError>)
    ensures
        match formatted {
            Ok(text) => if text@ == content@ {
                decision matches Ok(None)
            } else {
                decision matches Ok(Some(write)) && write.leads(content@, text@)
            },
            Err(_) => decision matches Err(e) && e@ == ErrorView::GetContents(
                "Failed to create regex pattern"@,
            ),
        },
{
    match formatted {
        Ok(text) => {
            let before = String::from_str(content);
            if before == text {
                Ok(None)
            } else {
                let diff = try_highlight_diff(content, text.as_str());
                Ok(Some(WriteBack { text, diff }))
            }
        },
        Err(e) => Err(ClipboardError::GetContents(e.message())),
    }
}

/// Transforms the clipboard's content under `config` and decides on the
/// write-back: none where the transformation changes nothing, else the
/// transformed text with its highlighted difference.
pub fn process_clipboard(content: &str, config: &AppConfig) -> (decision: Result<
    Option<WriteBack>,
    ClipboardError,
>)
    ensures
        ({
            let formatted = format_spec(content@, config@.rules, config@.exclusions.to_set());
            if formatted == content@ {
                decision matches Ok(None)
            } else {
                decision matches Ok(Some(write)) && write.leads(content@, formatted)
            }
        }),
{
    let formatted = format_text(
        content,
        config.replacements.as_slice(),
        config.exclusion_list(),
    );
    decide_write_back(content, formatted)
}

/// What the loop does after a look at the clipboard.
#[derive(Clone, Debug)]
pub enum ClipboardAction {
    /// The content is the one seen at the last look: nothing is done and
    /// nothing is logged.
    Skip,
    /// The content is new and the transformation leaves it as it is.
    Keep,
    /// The content is new: log the difference and write the text back.
    Write(WriteBack),
    /// The content could not be processed: report the failure.
    Warn(ClipboardError),
    /// The clipboard could not be read: report the failure and acquire the
    /// clipboard anew.
    Reacquire(ClipboardError),
}

/// The content that a look at the clipboard read, if it read any.
pub open spec fn content_read(read: Result<String, ClipboardError>) -> Option<Seq<char>> {
    match read {
        Ok(content) => Some(content@),
        Err(_) => None,
    }
}

/// Whether a look at the clipboard calls for processing: it does when content
/// was read and its fingerprint is not the one kept from the look before.
pub open spec fn needs_processing(content: Option<Seq<char>>, previous_hash: u64) -> bool {
    content matches Some(text) && fingerprint(text) != previous_hash
}

/// The fingerprint to keep after a look at the clipboard: that of the
/// content read, or the one kept before where nothing was read.
pub open spec fn next_hash(content: Option<Seq<char>>, previous_hash: u64) -> u64 {
    match content {
        Some(text) => fingerprint(text),
        None => previous_hash,
    }
}

/// Turns the decision on the write-back into the loop's action.
pub fn action_for(decision: Result<Option<WriteBack>, ClipboardError>) -> (action: ClipboardAction)
    ensures
        match decision {
            Ok(None) => action is Keep,
            Ok(Some(write)) => action == ClipboardAction::Write(write),
            Err(e) => action == ClipboardAction::Warn(e),
        },
{
    match decision {
        Ok(None) => ClipboardAction::Keep,
        Ok(Some(write)) => ClipboardAction::Write(write),
        Err(e) => ClipboardAction::Warn(e),
    }
}

/// One look at the clipboard: `read` is what reading it gave, `previous_hash`
/// the fingerprint kept from the look before. Returns the fingerprint to keep
/// and what to do. Content with the fingerprint kept is skipped; other
/// content is transformed under `config` and kept where that changes nothing,
/// written back where it does; a failed read keeps the fingerprint and asks
/// for the clipboard to be acquired anew.
pub fn handle_clipboard_processing(
    read: Result<String, ClipboardError>,
    config: &AppConfig,
    previous_hash: u64,
) -> (step: (u64, ClipboardAction))
    ensures
        step.0 == next_hash(content_read(read), previous_hash),
        match read {
            Err(e) => step.1 == ClipboardAction::Reacquire(e),
            Ok(content) => {
                let formatted = format_spec(content@, config@.rules, config@.exclusions.to_set());
                if !needs_processing(Some(content@), previous_hash) {
                    step.1 is Skip
                } else if formatted == content@ {
                    step.1 is Keep
                } else {
                    step.1 matches ClipboardAction::Write(write) && write.leads(
                        content@,
                        formatted,
                    )
                }
            },
        },
{
    match read {
        Ok(content) => {
            let current_hash = calculate_hash(content.as_str());
            if changed(previous_hash, current_hash) {
                (current_hash, action_for(process_clipboard(content.as_str(), config)))
            } else {
                (current_hash, ClipboardAction::Skip)
            }
        },
        Err(e) => (previous_hash, ClipboardAction::Reacquire(e)),
    }
}

/// A second look that finds the content of the first is skipped: after any
/// look that read `content`, the fingerprint kept is such that the same
/// content calls for no processing, and so for no write-back and no log line,
/// and the fingerprint kept stays.
pub proof fn repeated_content_is_skipped(content: Seq<char>, previous_hash: u64)
    ensures
        !needs_processing(Some(content), next_hash(Some(content), previous_hash)),
        next_hash(Some(content), next_hash(Some(content), previous_hash)) == next_hash(
            Some(content),
            previous_hash,
        ),
{
}

/// What the queue of the file watch gave at one look.
#[derive(Clone, Debug)]
pub enum WatchPoll {
    /// A change event, with the paths that it names.
    Event(Vec<String>),
    /// An error that the watch reported in place of an event.
    Failed,
    /// Nothing is waiting.
    Empty,
    /// The watch is gone.
    Disconnected,
}

/// What the loop does after a look at the queue of the file watch.
#[derive(Clone, Copy, Debug, PartialEq, Eq, Structural)]
pub enum WatchAction {
    /// Nothing.
    Idle,
    /// Read the configuration file again and hand it to the store.
    Reload,
    /// Report that the watch is gone and set it up anew.
    Rewatch,
}

/// The paths of a list, each by its view.
pub open spec fn paths_view(paths: Seq<String>) -> Seq<Seq<char>> {
    Seq::new(paths.len(), |i: int| paths[i]@)
}

/// The action that a look at the queue calls for: a reload where a change
/// event names the configuration file, a new watch where the watch is gone,
/// nothing otherwise.
pub open spec fn watch_action(config_path: Seq<char>, poll: WatchPoll) -> WatchAction {
    match poll {
        WatchPoll::Event(paths) => if paths_view(paths@).contains(config_path) {
            WatchAction::Reload
        } else {
            WatchAction::Idle
        },
        WatchPoll::Failed => WatchAction::Idle,
        WatchPoll::Empty => WatchAction::Idle,
        WatchPoll::Disconnected => WatchAction::Rewatch,
    }
}

/// Whether `path` is among `paths`.
pub fn names_path(paths: &[String], path: &String) -> (found: bool)
    ensures
        found == paths_view(paths@).contains(path@),
{
    let mut i: usize = 0;
    while i < paths.len()
        invariant
            i <= paths.len(),
            forall|j: int| 0 <= j < i ==> paths_view(paths@)[j] != path@,
        decreases paths.len() - i,
    {
        if paths[i] == *path {
            assert(paths_view(paths@)[i as int] == path@);
            return true;
        }
        i += 1;
    }
    false
}

/// One look at the queue of the file watch: decides what to do with what the
/// queue gave, for the configuration file at `config_path`.
pub fn handle_config_reload(config_path: &String, poll: &WatchPoll) -> (action: WatchAction)
    ensures
        action == watch_action(config_path@, *poll),
{
    match poll {
        WatchPoll::Event(paths) => if names_path(paths.as_slice(), config_path) {
            WatchAction::Reload
        } else {
            WatchAction::Idle
        },
        WatchPoll::Failed => WatchAction::Idle,
        WatchPoll::Empty => WatchAction::Idle,
        WatchPoll::Disconnected => WatchAction::Rewatch,
    }
}

} // verus!
