use vstd::prelude::*;

use crate::error::QueryError;

verus! {

/// The parent directory of a path, as `std::path::Path::parent` gives it.
pub uninterp spec fn parent_dir(path: Seq<char>) -> Option<Seq<char>>;

/// Relies on `std::path::Path::parent`: the path without its last component,
/// or `None` when the path ends in a root or prefix, or is empty.
#[verifier::external_body]
fn parent_of(path: &str) -> (r: Option<String>)
    ensures
        r is Some <==> parent_dir(path@) is Some,
        r matches Some(d) ==> parent_dir(path@) == Some(d@),
        path@.len() == 0 ==> r is None,
{
    match std::path::Path::new(path).parent() {
        Some(p) => Some(p.display().to_string()),
        None => None,
    }
}

/// The directory that holds the library file the loader resolved.
pub fn library_directory(resolved: &str) -> (r: Result<String, QueryError>)
    ensures
        parent_dir(resolved@) is Some <==> r is Ok,
        r matches Ok(d) ==> parent_dir(resolved@) == Some(d@),
        r is Err ==> r == Err::<String, QueryError>(QueryError::NoParentDirectory),
{
    match parent_of(resolved) {
        Some(d) => Ok(d),
        None => Err(QueryError::NoParentDirectory),
    }
}

/// A native step that the driver-shim lookup asks its caller to perform.
#[derive(Debug)]
pub enum LookupAction {
    /// Open the vendor library with immediate binding.
    OpenLibrary,
    /// Ask the loader for the path it resolved the open library to.
    QueryLinkMap,
    /// Close the library handle.
    CloseLibrary,
    /// Stop with this outcome; no handle is open.
    Finish(Result<String, QueryError>),
}

/// What came of the step last asked for.
#[derive(Debug)]
pub enum LookupEvent {
    Opened,
    OpenFailed,
    /// The loader resolved the library to this path.
    Resolved(String),
    QueryFailed,
    Closed,
}

/// Where the driver-shim lookup stands.
#[derive(Debug)]
pub enum LookupPhase {
    /// Waiting for the library to open.
    Opening,
    /// The handle is open; waiting for the resolved path.
    Querying,
    /// Waiting for the handle to close; the outcome is decided.
    Closing(Result<String, QueryError>),
    /// Finished.
    Done,
}

/// The decisions of the driver-shim lookup: open the library, ask where it was
/// found, and close the handle on every path before finishing.
#[derive(Debug)]
pub struct ShimLookup {
    pub phase: LookupPhase,
}

impl ShimLookup {
    /// Whether a library handle is open in this phase.
    pub open spec fn holds_handle(&self) -> bool {
        self.phase is Querying || self.phase is Closing
    }

    /// Whether `event` answers the step this phase waits for.
    pub open spec fn spec_awaits(&self, event: &LookupEvent) -> bool {
        match self.phase {
            LookupPhase::Opening => event is Opened || event is OpenFailed,
            LookupPhase::Querying => event is Resolved || event is QueryFailed,
            LookupPhase::Closing(_) => event is Closed,
            LookupPhase::Done => false,
        }
    }

    /// A new lookup, and its first step.
    pub fn start() -> (r: (ShimLookup, LookupAction))
        ensures
            r.0.phase is Opening,
            r.1 is OpenLibrary,
    {
        (ShimLookup { phase: LookupPhase::Opening }, LookupAction::OpenLibrary)
    }

    /// Whether `event` answers the step this phase waits for.
    #[verifier::when_used_as_spec(spec_awaits)]
    pub fn awaits(&self, event: &LookupEvent) -> (r: bool)
        ensures
            r == self.spec_awaits(event),
    {
        match self.phase {
            LookupPhase::Opening => matches!(event, LookupEvent::Opened | LookupEvent::OpenFailed),
            LookupPhase::Querying => matches!(event, LookupEvent::Resolved(_) | LookupEvent::QueryFailed),
            LookupPhase::Closing(_) => matches!(event, LookupEvent::Closed),
            LookupPhase::Done => false,
        }
    }

    /// Takes what came of the last step and returns the next one.
    pub fn step(&mut self, event: LookupEvent) -> (r: LookupAction)
        requires
            old(self).awaits(&event),
        ensures
            old(self).phase is Opening && event is Opened ==> final(self).phase is Querying
                && r is QueryLinkMap,
            old(self).phase is Opening && event is OpenFailed ==> final(self).phase is Done
                && r == LookupAction::Finish(Err(QueryError::LibraryOpen)),
            old(self).phase is Querying ==> r is CloseLibrary,
            old(self).phase is Querying ==> (event matches LookupEvent::Resolved(path) ==> (
            final(self).phase matches LookupPhase::Closing(o) && (o is Ok <==> parent_dir(path@) is Some)
                && (o matches Ok(d) ==> parent_dir(path@) == Some(d@))
                && (o is Err ==> o == Err::<String, QueryError>(QueryError::NoParentDirectory)))),
            old(self).phase is Querying && event is QueryFailed ==> final(self).phase
                == LookupPhase::Closing(Err(QueryError::LinkMapQuery)),
            old(self).phase matches LookupPhase::Closing(o) ==> final(self).phase is Done
                && r == LookupAction::Finish(o),
            // the handle is closed before the lookup finishes, on every path
            r is Finish ==> !final(self).holds_handle(),
            old(self).holds_handle() && !final(self).holds_handle() ==> event is Closed,
            final(self).holds_handle() ==> r is QueryLinkMap || r is CloseLibrary,
    {
        let mut phase = LookupPhase::Done;
        std::mem::swap(&mut phase, &mut self.phase);
        match phase {
            LookupPhase::Opening => match event {
                LookupEvent::Opened => {
                    self.phase = LookupPhase::Querying;
                    LookupAction::QueryLinkMap
                },
                _ => LookupAction::Finish(Err(QueryError::LibraryOpen)),
            },
            LookupPhase::Querying => {
                let outcome = match event {
                    LookupEvent::Resolved(path) => library_directory(path.as_str()),
                    _ => Err(QueryError::LinkMapQuery),
                };
                self.phase = LookupPhase::Closing(outcome);
                LookupAction::CloseLibrary
            },
            LookupPhase::Closing(outcome) => LookupAction::Finish(outcome),
            LookupPhase::Done => LookupAction::Finish(Err(QueryError::LinkMapQuery)),
        }
    }
}

} // verus!
