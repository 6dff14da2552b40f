//! The file monitor as the render loop sees it: which file is watched, and
//! which of the monitor's reports mean that this file has changed.
//!
//! The monitor itself runs beside the render loop and belongs to the caller.
//! It is expected to hold back its reports for `DEBOUNCE_MILLIS`, so that a
//! burst of changes arrives as few reports.

use vstd::prelude::*;
use crate::argvalues::ShaderOrigin;

verus! {

/// For how long the monitor gathers changes before it reports them.
pub const DEBOUNCE_MILLIS: u64 = 250;

/// What the monitor says has happened to a path.
#[derive(Clone, Copy, Debug, PartialEq, Eq, Structural)]
pub enum ChangeKind {
    /// A file came into being.
    Create,
    /// A file was written to.
    Write,
    /// A file was renamed; the report is about its new path.
    Rename,
    /// Anything else: a notice, a removal, a change of mode, a rescan, an error.
    Other,
}

/// One report of the monitor: what happened, and the last component of the
/// path it happened to, where the path has one.
#[derive(Debug, PartialEq, Eq)]
pub struct ChangeEvent {
    pub kind: ChangeKind,
    pub file_name: Option<String>,
}

/// All that one look at the monitor's channel found: the reports that
/// waited there, oldest first, and whether the monitor has gone away.
#[derive(Debug, PartialEq, Eq)]
pub struct MonitorPoll {
    pub events: Vec<ChangeEvent>,
    pub disconnected: bool,
}

/// The one directory that is watched, and the name in it that matters.
#[derive(Debug, PartialEq, Eq)]
pub struct WatchTarget {
    pub directory: String,
    pub basename: String,
}

/// The directory part of `path`, as `std::path::Path::parent` gives it.
/// Nothing is claimed of the result: how a path divides depends on the
/// platform.
#[verifier::external_body]
fn path_parent(path: &str) -> (parent: Option<String>) {
    std::path::Path::new(path).parent().and_then(|p| p.to_str()).map(|p| p.to_string())
}

/// The last component of `path`, as `std::path::Path::file_name` gives it.
/// Nothing is claimed of the result: how a path divides depends on the
/// platform.
#[verifier::external_body]
fn path_file_name(path: &str) -> (name: Option<String>) {
    std::path::Path::new(path).file_name().and_then(|n| n.to_str()).map(|n| n.to_string())
}

impl ChangeEvent {
    /// The report that `kind` happened to `path`.
    pub fn for_path(kind: ChangeKind, path: &str) -> (event: ChangeEvent)
        ensures
            event.kind == kind,
    {
        ChangeEvent { kind, file_name: path_file_name(path) }
    }
}

impl WatchTarget {
    /// The target made of a directory and a file name, where both are there.
    pub open spec fn spec_from_parts(parent: Option<String>, file_name: Option<String>) -> Option<
        WatchTarget,
    > {
        match (parent, file_name) {
            (Some(directory), Some(basename)) => Some(WatchTarget { directory, basename }),
            _ => None,
        }
    }

    #[verifier::when_used_as_spec(spec_from_parts)]
    pub fn from_parts(parent: Option<String>, file_name: Option<String>) -> (target: Option<
        WatchTarget,
    >)
        ensures
            target == WatchTarget::spec_from_parts(parent, file_name),
    {
        match (parent, file_name) {
            (Some(directory), Some(basename)) => Some(WatchTarget { directory, basename }),
            _ => None,
        }
    }

    /// What to watch for a shader of the given origin. Only a shader that is
    /// read from a file is watched: its directory, for its own name. A path
    /// that has no directory part or no last component gives no target.
    pub fn for_origin(origin: &ShaderOrigin) -> (target: Option<WatchTarget>)
        ensures
            !(origin is File) ==> target is None,
    {
        match origin {
            ShaderOrigin::File(path) => {
                let parent = path_parent(path.as_str());
                let file_name = path_file_name(path.as_str());
                WatchTarget::from_parts(parent, file_name)
            },
            _ => None,
        }
    }

    /// Whether a report means that the watched file has changed: a file of
    /// the watched name was created, written, or put there by a rename.
    pub open spec fn matches(&self, event: &ChangeEvent) -> bool {
        &&& event.kind is Create || event.kind is Write || event.kind is Rename
        &&& event.file_name matches Some(name) && name@ == self.basename@
    }

    #[verifier::when_used_as_spec(matches)]
    pub fn is_match(&self, event: &ChangeEvent) -> (hit: bool)
        ensures
            hit == self.matches(event),
    {
        let relevant = match event.kind {
            ChangeKind::Create | ChangeKind::Write | ChangeKind::Rename => true,
            ChangeKind::Other => false,
        };
        match &event.file_name {
            Some(name) => relevant && *name == self.basename,
            None => false,
        }
    }

    /// Whether any of the reports means that the watched file has changed.
    /// How many do, and which, makes no difference.
    pub open spec fn changed_by(&self, events: Seq<ChangeEvent>) -> bool {
        exists|i: int| 0 <= i < events.len() && self.matches(&#[trigger] events[i])
    }

    pub fn is_changed_by(&self, events: &Vec<ChangeEvent>) -> (changed: bool)
        ensures
            changed == self.changed_by(events@),
    {
        let mut i: usize = 0;
        while i < events.len()
            invariant
                i <= events.len(),
                forall|j: int| 0 <= j < i ==> !self.matches(&#[trigger] events@[j]),
            decreases events.len() - i,
        {
            if self.is_match(&events[i]) {
                return true;
            }
            i = i + 1;
        }
        false
    }
}

} // verus!
