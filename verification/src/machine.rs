//! The reconciliation engine as an event machine. One OUT invocation is a
//! linear run: the machine owns the batch and the mode, hands the driver one
//! remote action at a time, and consumes the driver's answer as the next
//! event. Every decision — rejecting an empty batch, the pre-deletion of
//! replace mode, the per-key filter-and-delete of update mode, the final
//! fingerprint refresh — is taken here; the driver only performs remote
//! calls and reports their outcomes.

use vstd::prelude::*;
use crate::data::Mode;
use crate::data::RecError;
use crate::data::Version;
use crate::jsontext::json_of;
use crate::jsontext::to_json_string;
use crate::record::Record;
use crate::record::find_val;
use crate::record::get_prop;
use crate::record::prop_names;

verus! {

/// What the driver must do next against the remote store.
pub enum Action {
    /// List every record of the collection, answering with their
    /// identifiers.
    ListAll,
    /// List the records whose value at `property` equals the value whose
    /// canonical JSON text is `value_json`, answering with their
    /// identifiers.
    ListByKey { property: String, value_json: String },
    /// Delete the listed records, one at a time, in the given order,
    /// aborting on the first failure.
    DeletePages { ids: Vec<String> },
    /// Create a new record from the batch record at `index`.
    CreateRecord { index: usize },
    /// Read the collection's metadata, answering with its fingerprint.
    FetchVersion,
}

/// The driver's answer to the previous action.
pub enum Event {
    /// Begin the run; the first event, before any action was issued.
    Start,
    /// Answer to a listing action: the identifiers found.
    Pages { ids: Vec<String> },
    /// Answer to a deletion action: every listed record is gone.
    Deleted,
    /// Answer to a creation action: the record exists remotely.
    Created,
    /// Answer to a fingerprint fetch.
    GotVersion { version: Version },
    /// Any remote call failed; the store's message, verbatim.
    RemoteFailed { message: String },
}

/// What the machine says after consuming an event.
pub enum Step {
    /// Perform this action and answer with an event.
    Act { action: Action },
    /// The run succeeded; this is the collection's new fingerprint.
    Done { version: Version },
    /// The run failed; nothing already applied is rolled back.
    Fail { error: RecError },
}

/// Where the machine stands in the run.
pub enum Phase {
    /// Waiting for `Start`.
    Init,
    /// Replace mode: asked for all records, waiting for their identifiers.
    Clearing,
    /// Replace mode: asked for the pre-deletion, waiting for completion.
    ClearWait,
    /// Update mode: asked for the records matching the current record's key
    /// value, waiting for their identifiers.
    Matching,
    /// Update mode: asked for the deletion of the matches, waiting for
    /// completion.
    MatchWait,
    /// Asked for the creation of the current record, waiting for it.
    CreateWait,
    /// Asked for the final fingerprint, waiting for it.
    VersionWait,
    /// The run ended in `Done`.
    Finished,
    /// The run ended in `Fail`.
    Failed,
}

/// One reconciliation run over a batch of records.
pub struct Reconciler {
    pub records: Vec<Record>,
    pub mode: Mode,
    pub idx: usize,
    pub phase: Phase,
}

/// The machine refused an event it was not waiting for.
pub open spec fn faulted(post: Reconciler, r: Step) -> bool {
    &&& post.phase is Failed
    &&& r matches Step::Fail { error: RecError::UnexpectedEvent }
}

/// The step that begins work on batch record `i`: create it directly in
/// append and replace mode; in update mode, read its key value — failing
/// with the record's property names when the key is absent — and ask for
/// the records sharing it.
pub open spec fn starts_record(pre: Reconciler, i: int, post: Reconciler, r: Step) -> bool {
    match pre.mode {
        Mode::Append | Mode::Replace => {
            &&& post.phase is CreateWait
            &&& post.idx == i
            &&& r matches Step::Act { action: Action::CreateRecord { index } } && index == i
        },
        Mode::Update { primary_id_property } => {
            match find_val(pre.records@[i].props@, primary_id_property@) {
                Some(x) => {
                    &&& post.phase is Matching
                    &&& post.idx == i
                    &&& r matches Step::Act { action: Action::ListByKey { property, value_json } }
                        && property@ == primary_id_property@ && value_json@ == json_of(x)
                },
                None => {
                    &&& post.phase is Failed
                    &&& r matches Step::Fail {
                        error: RecError::MissingKeyProperty { index, property, available },
                    } && index == i && property@ == primary_id_property@ && available@.len()
                        == pre.records@[i].props@.len() && (forall|m: int|
                        0 <= m < available@.len() ==> available@[m]@
                            == pre.records@[i].props@[m].name@)
                },
            }
        },
    }
}

/// The full transition relation of one `step` call: what the machine
/// answers and where it stands afterwards, for every prior phase and event.
pub open spec fn step_post(pre: Reconciler, ev: Event, post: Reconciler, r: Step) -> bool {
    &&& post.records == pre.records
    &&& post.mode == pre.mode
    &&& match ev {
        Event::RemoteFailed { message } => {
            &&& post.phase is Failed
            &&& r matches Step::Fail { error: RecError::Remote { message: m } } && m == message
        },
        Event::Start => {
            if !(pre.phase is Init) {
                faulted(post, r)
            } else if pre.records@.len() == 0 {
                &&& post.phase is Failed
                &&& r matches Step::Fail { error: RecError::NothingToUpdate }
            } else if pre.mode is Replace {
                &&& post.phase is Clearing
                &&& r matches Step::Act { action: Action::ListAll }
            } else {
                starts_record(pre, 0, post, r)
            }
        },
        Event::Pages { ids } => {
            if pre.phase is Clearing {
                &&& post.phase is ClearWait
                &&& post.idx == pre.idx
                &&& r matches Step::Act { action: Action::DeletePages { ids: out } } && out == ids
            } else if pre.phase is Matching {
                &&& post.phase is MatchWait
                &&& post.idx == pre.idx
                &&& r matches Step::Act { action: Action::DeletePages { ids: out } } && out == ids
            } else {
                faulted(post, r)
            }
        },
        Event::Deleted => {
            if pre.phase is ClearWait {
                if pre.records@.len() == 0 {
                    faulted(post, r)
                } else {
                    starts_record(pre, 0, post, r)
                }
            } else if pre.phase is MatchWait {
                if pre.idx < pre.records@.len() {
                    &&& post.phase is CreateWait
                    &&& post.idx == pre.idx
                    &&& r matches Step::Act { action: Action::CreateRecord { index } } && index
                        == pre.idx
                } else {
                    faulted(post, r)
                }
            } else {
                faulted(post, r)
            }
        },
        Event::Created => {
            if pre.phase is CreateWait && pre.idx < pre.records@.len() {
                if pre.idx + 1 < pre.records@.len() {
                    starts_record(pre, pre.idx + 1, post, r)
                } else {
                    &&& post.phase is VersionWait
                    &&& r matches Step::Act { action: Action::FetchVersion }
                }
            } else {
                faulted(post, r)
            }
        },
        Event::GotVersion { version } => {
            if pre.phase is VersionWait {
                &&& post.phase is Finished
                &&& r matches Step::Done { version: v } && v == version
            } else {
                faulted(post, r)
            }
        },
    }
}

impl Reconciler {
    /// A run over `records` in `mode`, waiting for `Start`.
    pub fn new(records: Vec<Record>, mode: Mode) -> (r: Reconciler)
        ensures
            r.records == records,
            r.mode == mode,
            r.idx == 0,
            r.phase is Init,
    {
        Reconciler { records, mode, idx: 0, phase: Phase::Init }
    }

    /// Refuse an event the machine was not waiting for.
    fn fail_unexpected(&mut self) -> (r: Step)
        ensures
            final(self).records == old(self).records,
            final(self).mode == old(self).mode,
            faulted(*final(self), r),
    {
        self.phase = Phase::Failed;
        Step::Fail { error: RecError::UnexpectedEvent }
    }

    /// Begin work on batch record `i`.
    fn begin_record(&mut self, i: usize) -> (r: Step)
        requires
            i < old(self).records@.len(),
        ensures
            final(self).records == old(self).records,
            final(self).mode == old(self).mode,
            starts_record(*old(self), i as int, *final(self), r),
    {
        let key_opt: Option<String> = match &self.mode {
            Mode::Update { primary_id_property } => Some(primary_id_property.clone()),
            _ => None,
        };
        match key_opt {
            None => {
                self.idx = i;
                self.phase = Phase::CreateWait;
                Step::Act { action: Action::CreateRecord { index: i } }
            },
            Some(key) => {
                let found: Option<String> = match get_prop(&self.records[i], &key) {
                    Some(v) => Some(to_json_string(v)),
                    None => None,
                };
                match found {
                    Some(value_json) => {
                        self.idx = i;
                        self.phase = Phase::Matching;
                        Step::Act { action: Action::ListByKey { property: key, value_json } }
                    },
                    None => {
                        let available = prop_names(&self.records[i]);
                        self.phase = Phase::Failed;
                        Step::Fail {
                            error: RecError::MissingKeyProperty {
                                index: i,
                                property: key,
                                available,
                            },
                        }
                    },
                }
            },
        }
    }

    /// Consume the driver's event and answer with the next action, the
    /// final fingerprint, or an error. Total: an event the machine is not
    /// waiting for fails the run rather than doing anything remote.
    pub fn step(&mut self, ev: Event) -> (r: Step)
        ensures
            step_post(*old(self), ev, *final(self), r),
    {
        match ev {
            Event::RemoteFailed { message } => {
                self.phase = Phase::Failed;
                Step::Fail { error: RecError::Remote { message } }
            },
            Event::Start => {
                match self.phase {
                    Phase::Init => {
                        if self.records.len() == 0 {
                            self.phase = Phase::Failed;
                            Step::Fail { error: RecError::NothingToUpdate }
                        } else {
                            let is_replace = match &self.mode {
                                Mode::Replace => true,
                                _ => false,
                            };
                            if is_replace {
                                self.phase = Phase::Clearing;
                                Step::Act { action: Action::ListAll }
                            } else {
                                self.begin_record(0)
                            }
                        }
                    },
                    _ => self.fail_unexpected(),
                }
            },
            Event::Pages { ids } => {
                match self.phase {
                    Phase::Clearing => {
                        self.phase = Phase::ClearWait;
                        Step::Act { action: Action::DeletePages { ids } }
                    },
                    Phase::Matching => {
                        self.phase = Phase::MatchWait;
                        Step::Act { action: Action::DeletePages { ids } }
                    },
                    _ => self.fail_unexpected(),
                }
            },
            Event::Deleted => {
                match self.phase {
                    Phase::ClearWait => {
                        if self.records.len() == 0 {
                            self.fail_unexpected()
                        } else {
                            self.begin_record(0)
                        }
                    },
                    Phase::MatchWait => {
                        if self.idx < self.records.len() {
                            self.phase = Phase::CreateWait;
                            Step::Act { action: Action::CreateRecord { index: self.idx } }
                        } else {
                            self.fail_unexpected()
                        }
                    },
                    _ => self.fail_unexpected(),
                }
            },
            Event::Created => {
                match self.phase {
                    Phase::CreateWait => {
                        if self.idx < self.records.len() {
                            if self.idx + 1 < self.records.len() {
                                let next = self.idx + 1;
                                self.begin_record(next)
                            } else {
                                self.phase = Phase::VersionWait;
                                Step::Act { action: Action::FetchVersion }
                            }
                        } else {
                            self.fail_unexpected()
                        }
                    },
                    _ => self.fail_unexpected(),
                }
            },
            Event::GotVersion { version } => {
                match self.phase {
                    Phase::VersionWait => {
                        self.phase = Phase::Finished;
                        Step::Done { version }
                    },
                    _ => self.fail_unexpected(),
                }
            },
        }
    }
}

} // verus!
