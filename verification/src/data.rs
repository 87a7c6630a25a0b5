//! Plain data carried between the orchestrator, the engine and the store:
//! version fingerprints, source configuration, reconciliation modes, the
//! parameters of an OUT step, and the error taxonomy.

use vstd::prelude::*;

verus! {

/// Fingerprint of a remote collection: the collection's identifier together
/// with the last-modification timestamp (in milliseconds) that the store
/// reported for it. Two equal fingerprints mean the collection was observed
/// in the same state, up to the store's timestamp resolution.
pub struct Version {
    pub id: String,
    pub last_edited_time: i64,
}

impl View for Version {
    type V = (Seq<char>, int);

    open spec fn view(&self) -> (Seq<char>, int) {
        (self.id@, self.last_edited_time as int)
    }
}

impl PartialEq for Version {
    fn eq(&self, other: &Version) -> (r: bool) {
        self.id == other.id && self.last_edited_time == other.last_edited_time
    }
}

impl vstd::std_specs::cmp::PartialEqSpecImpl for Version {
    open spec fn obeys_eq_spec() -> bool {
        true
    }

    open spec fn eq_spec(&self, other: &Version) -> bool {
        self@ == other@
    }
}

impl Version {
    /// A copy of the fingerprint observing the same collection state.
    pub fn duplicate(&self) -> (r: Version)
        ensures
            r@ == self@,
    {
        Version { id: self.id.clone(), last_edited_time: self.last_edited_time }
    }
}

/// Configuration handed to every verb: the credential for the remote store
/// and the collection reference (a raw identifier, or a name to resolve).
pub struct SourceConfig {
    pub api_token: String,
    pub database: String,
}

/// Reconciliation strategy for pushing a local batch to the collection.
pub enum Mode {
    /// Every local record becomes a new remote record; nothing is deleted.
    Append,
    /// All existing records are deleted first, then the batch is created.
    Replace,
    /// Per record: delete the remote records whose value at the key property
    /// equals the record's value there, then create the record.
    Update { primary_id_property: String },
}

impl Default for Mode {
    fn default() -> (r: Mode)
        ensures
            r matches Mode::Append,
    {
        Mode::Append
    }
}

/// Parameters of an OUT step: where the batch file sits and which mode to
/// reconcile with.
pub struct OutParams {
    pub path: String,
    pub mode: Mode,
}

impl Default for OutParams {
    fn default() -> (r: OutParams)
        ensures
            r.path@ == "out.json"@,
            r.mode matches Mode::Append,
    {
        OutParams {
            path: <String as vstd::string::StringExecFns>::from_str("out.json"),
            mode: Mode::Append,
        }
    }
}

/// Everything that can go wrong in one verb invocation. Errors are local to
/// the invocation; nothing is retried or rolled back.
#[derive(Debug)]
pub enum RecError {
    /// The reconciliation batch was empty; a silent no-op would mask a
    /// misconfiguration.
    NothingToUpdate,
    /// In update mode, the record at `index` lacks the key property; the
    /// record's actual property names are listed to aid debugging.
    MissingKeyProperty { index: usize, property: String, available: Vec<String> },
    /// The collection changed between fingerprint capture and retrieval.
    ConcurrentModification,
    /// The collection reference could not be parsed and no search was
    /// possible.
    Resolution,
    /// A name search yielded more than one matching collection.
    Ambiguous,
    /// A name search yielded no matching collection.
    NotFound,
    /// A remote call failed; the store's message is surfaced verbatim.
    Remote { message: String },
    /// The driver handed the engine an event it was not waiting for.
    UnexpectedEvent,
}

} // verus!
