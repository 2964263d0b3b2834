//! One turn of the watcher loop: from a change notification to what the loop
//! does with it.

use vstd::prelude::*;
use vstd::string::*;
use crate::record::{LogRecord, Severity};

verus! {

/// The window, in seconds, within which repeated changes of one path count
/// as a single notification.
pub const DEBOUNCE_SECONDS: u64 = 5;

/// A path as the watcher reports it: its text for messages, and the name of
/// the file it ends in, if it ends in one.
#[derive(Clone, Debug, PartialEq, Eq)]
pub struct WatchedPath {
    pub display: String,
    pub file_name: Option<String>,
}

/// A notification from the filesystem watcher, after debouncing.
#[derive(Clone, Debug, PartialEq, Eq)]
pub enum ChangeEvent {
    Created(WatchedPath),
    Modified(WatchedPath),
    Removed(WatchedPath),
    Renamed(WatchedPath),
    /// The watcher itself failed; the path is given where it is known.
    WatchError(String, Option<WatchedPath>),
    /// Any other notification, by its description.
    Other(String),
}

/// What the loop does with one event: the record it logs, and the path it
/// hands to the dispatcher, if any. After either, the log is flushed and the
/// loop waits for the next event: there is no step that ends it.
#[derive(Debug, PartialEq, Eq)]
pub struct EventStep {
    pub record: LogRecord,
    pub dispatch: Option<WatchedPath>,
}

/// The extension of a save file, compared case-sensitively.
pub open spec fn save_extension() -> Seq<char> {
    "eu4"@
}

/// The place of the last dot in a file name, or -1 where it has none.
pub open spec fn last_dot(name: Seq<char>) -> int
    decreases name.len(),
{
    if name.len() == 0 {
        -1
    } else if name.last() == '.' {
        name.len() - 1
    } else {
        last_dot(name.drop_last())
    }
}

/// The extension of a file name: what follows its last dot. A name without a
/// dot has none, and neither has a name whose only dot is its first character.
pub open spec fn extension_of(name: Seq<char>) -> Option<Seq<char>> {
    let dot = last_dot(name);
    if dot <= 0 {
        None
    } else {
        Some(name.subrange(dot + 1, name.len() as int))
    }
}

/// Whether a path carries the save-file extension.
pub open spec fn is_save_path(path: WatchedPath) -> bool {
    path.file_name matches Some(name) && extension_of(name@) == Some(save_extension())
}

/// The last dot is the dot that no dot follows.
pub proof fn lemma_last_dot(name: Seq<char>, dot: int)
    requires
        -1 <= dot < name.len(),
        dot >= 0 ==> name[dot] == '.',
        forall|j: int| dot < j < name.len() ==> name[j] != '.',
    ensures
        last_dot(name) == dot,
    decreases name.len(),
{
    if name.len() > 0 && name.last() != '.' {
        lemma_last_dot(name.drop_last(), dot);
    }
}

/// Whether an event is handed to the dispatcher: a creation of, or a write to,
/// a path with the save-file extension.
pub open spec fn qualifies(event: ChangeEvent) -> bool {
    match event {
        ChangeEvent::Created(path) => is_save_path(path),
        ChangeEvent::Modified(path) => is_save_path(path),
        _ => false,
    }
}

/// The severity of the record that an event leaves in the log.
pub open spec fn severity_of(event: ChangeEvent) -> Severity {
    match event {
        ChangeEvent::WatchError(_, _) => Severity::Warn,
        _ => if qualifies(event) {
            Severity::Info
        } else {
            Severity::Debug
        },
    }
}

/// The message of the record that an event leaves in the log.
pub open spec fn message_of(event: ChangeEvent) -> Seq<char> {
    match event {
        ChangeEvent::WatchError(cause, Some(path)) => "watch error on "@ + path.display@ + ": "@
            + cause@,
        ChangeEvent::WatchError(cause, None) => "watch error: "@ + cause@,
        ChangeEvent::Created(path) => if is_save_path(path) {
            "detected write: "@ + path.display@
        } else {
            "ignored creation: "@ + path.display@
        },
        ChangeEvent::Modified(path) => if is_save_path(path) {
            "detected write: "@ + path.display@
        } else {
            "ignored write: "@ + path.display@
        },
        ChangeEvent::Removed(path) => "ignored removal: "@ + path.display@,
        ChangeEvent::Renamed(path) => "ignored rename: "@ + path.display@,
        ChangeEvent::Other(what) => "ignored event: "@ + what@,
    }
}

/// The path that an event is about, where it names one.
pub open spec fn subject_of(event: ChangeEvent) -> Option<WatchedPath> {
    match event {
        ChangeEvent::Created(path) => Some(path),
        ChangeEvent::Modified(path) => Some(path),
        ChangeEvent::Removed(path) => Some(path),
        ChangeEvent::Renamed(path) => Some(path),
        ChangeEvent::WatchError(_, path) => path,
        ChangeEvent::Other(_) => None,
    }
}

/// Where a name has a dot, its last dot is a dot and no dot follows it.
pub proof fn lemma_last_dot_found(name: Seq<char>)
    ensures
        -1 <= last_dot(name) < name.len(),
        last_dot(name) >= 0 ==> name[last_dot(name)] == '.',
        forall|j: int| last_dot(name) < j < name.len() ==> name[j] != '.',
    decreases name.len(),
{
    if name.len() > 0 && name.last() != '.' {
        let earlier = name.drop_last();
        lemma_last_dot_found(earlier);
        assert forall|j: int| last_dot(name) < j < name.len() implies name[j] != '.' by {
            if j < earlier.len() {
                assert(earlier[j] == name[j]);
            }
        }
    }
}

/// A file name has the save-file extension exactly if it is longer than
/// `.eu4` and ends in it.
pub proof fn lemma_save_names_end_in_the_extension(name: Seq<char>)
    ensures
        extension_of(name) == Some(save_extension()) <==> name.len() > 4 && name.subrange(
            name.len() - 4,
            name.len() as int,
        ) == ".eu4"@,
{
    reveal_strlit("eu4");
    reveal_strlit(".eu4");
    let n = name.len() as int;
    lemma_last_dot_found(name);
    if extension_of(name) == Some(save_extension()) {
        let dot = last_dot(name);
        let found = name.subrange(dot + 1, n);
        assert(found.len() == 3);
        assert(found[0] == 'e' && found[1] == 'u' && found[2] == '4');
        assert(name.subrange(n - 4, n) =~= ".eu4"@);
    }
    if n > 4 && name.subrange(n - 4, n) == ".eu4"@ {
        let tail = name.subrange(n - 4, n);
        assert(tail[0] == '.' && tail[1] == 'e' && tail[2] == 'u' && tail[3] == '4');
        lemma_last_dot(name, n - 4);
        assert(name.subrange(n - 3, n) =~= "eu4"@);
    }
}

/// What the loop does with one event, as plain values: the severity and the
/// message of its log record, and the path it dispatches, if any.
pub open spec fn step_of(event: ChangeEvent) -> (Severity, Seq<char>, Option<WatchedPath>) {
    (
        severity_of(event),
        message_of(event),
        if qualifies(event) {
            subject_of(event)
        } else {
            None
        },
    )
}

/// An event that is not a creation of, or a write to, a save file leads to
/// no dispatch, whatever the file holds.
pub proof fn lemma_other_paths_are_never_dispatched(event: ChangeEvent)
    requires
        !(subject_of(event) matches Some(path) && is_save_path(path)),
    ensures
        step_of(event).2 is None,
{
}

/// Tells whether a file name ends in the save-file extension.
pub fn has_save_extension(name: &str) -> (yes: bool)
    ensures
        yes == (extension_of(name@) == Some(save_extension())),
{
    let n: usize = name.unicode_len();
    let mut i: usize = n;
    while i > 0 && name.get_char(i - 1) != '.'
        invariant
            i <= n,
            n == name@.len(),
            forall|j: int| i <= j < n ==> name@[j] != '.',
        decreases i,
    {
        i = i - 1;
    }
    proof {
        lemma_last_dot(name@, i - 1);
    }
    if i <= 1 {
        false
    } else {
        let found = String::from_str(name.substring_char(i, n));
        let wanted = String::from_str("eu4");
        found == wanted
    }
}

impl WatchedPath {
    /// Tells whether the path has the save-file extension. A path without an
    /// extension, or with one that differs in case, has not.
    pub fn is_save(&self) -> (yes: bool)
        ensures
            yes == is_save_path(*self),
    {
        match &self.file_name {
            Some(name) => has_save_extension(name.as_str()),
            None => false,
        }
    }
}

fn labelled(label: &str, text: &String) -> (out: String)
    ensures
        out@ == label@ + text@,
{
    let mut out = String::from_str(label);
    out.append(text.as_str());
    out
}

/// Decides what the loop does with one event.
///
/// A watcher error is logged as a warning and nothing else happens. A creation
/// or a write of a save file is announced and handed to the dispatcher. Every
/// other event is logged at debug level and dropped.
pub fn on_event(event: ChangeEvent) -> (step: EventStep)
    ensures
        step.record.severity == severity_of(event),
        step.record.message@ == message_of(event),
        step.dispatch is Some <==> qualifies(event),
        step.dispatch == step_of(event).2,
{
    match event {
        ChangeEvent::WatchError(cause, Some(path)) => {
            let mut message = labelled("watch error on ", &path.display);
            message.append(": ");
            message.append(cause.as_str());
            EventStep { record: LogRecord { severity: Severity::Warn, message }, dispatch: None }
        },
        ChangeEvent::WatchError(cause, None) => {
            let message = labelled("watch error: ", &cause);
            EventStep { record: LogRecord { severity: Severity::Warn, message }, dispatch: None }
        },
        ChangeEvent::Created(path) => {
            if path.is_save() {
                announce(path)
            } else {
                discard("ignored creation: ", &path)
            }
        },
        ChangeEvent::Modified(path) => {
            if path.is_save() {
                announce(path)
            } else {
                discard("ignored write: ", &path)
            }
        },
        ChangeEvent::Removed(path) => discard("ignored removal: ", &path),
        ChangeEvent::Renamed(path) => discard("ignored rename: ", &path),
        ChangeEvent::Other(what) => {
            let message = labelled("ignored event: ", &what);
            EventStep { record: LogRecord { severity: Severity::Debug, message }, dispatch: None }
        },
    }
}

fn announce(path: WatchedPath) -> (step: EventStep)
    ensures
        step.record.severity == Severity::Info,
        step.record.message@ == "detected write: "@ + path.display@,
        step.dispatch == Some(path),
{
    let message = labelled("detected write: ", &path.display);
    EventStep { record: LogRecord { severity: Severity::Info, message }, dispatch: Some(path) }
}

fn discard(label: &str, path: &WatchedPath) -> (step: EventStep)
    ensures
        step.record.severity == Severity::Debug,
        step.record.message@ == label@ + path.display@,
        step.dispatch is None,
{
    let message = labelled(label, &path.display);
    EventStep { record: LogRecord { severity: Severity::Debug, message }, dispatch: None }
}

} // verus!
