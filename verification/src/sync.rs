//! The sync orchestrator: one reconciliation pass as an explicit protocol.
//!
//! The engine owns every decision of a pass — what to collect, when to diff,
//! when to archive, what to upload, and that the transient archive is cleaned
//! up on every exit path — while the caller performs the outside work it is
//! handed: running the version-control query, calling the remote service,
//! prompting the operator, writing and removing the archive file. The caller
//! feeds each result back as an event; `step_rel` is the whole protocol, and
//! the laws at the bottom are proved of it.

use vstd::prelude::*;
use crate::archive::ArchiveError;
use crate::archive::archive_encodable;
use crate::archive::archive_encoding;
use crate::archive::build_archive_for_paths;
use crate::archive::subset_entries;
use crate::collector::CollectedFile;
use crate::collector::CollectionError;
use crate::collector::ExcludeGlobs;
use crate::collector::build_local_state;
use crate::collector::local_state_spec;
use crate::diff::StateMap;
use crate::diff::SyncPlan;
use crate::diff::delete_spec;
use crate::diff::diff;
use crate::diff::lemma_diff_identical;
use crate::diff::lemma_empty_plan;
use crate::diff::update_spec;

verus! {

/// Why a pass aborted before reaching the upload decision.
pub enum SyncError {
    /// No corpus identifier is on record; initialization must run first.
    NotInitialized,
    /// Tracked files could not be enumerated.
    Collection(CollectionError),
    /// The remote service could not be reached or reported failure.
    Api(String),
    /// The transfer archive could not be built.
    Archive(ArchiveError),
}

/// How a pass ended. Every terminal state is one of these, and every one is
/// reached only after the cleanup round.
pub enum SyncOutcome {
    /// Local and remote state already agree; nothing was sent.
    NoChanges,
    /// The operator declined the plan; nothing was sent.
    Declined,
    /// The remote service accepted the archive and the deletions.
    UploadSucceeded,
    /// The upload was attempted and failed, with the service's message.
    UploadFailed(String),
    /// The pass aborted before the upload decision.
    Aborted(SyncError),
}

/// Where one pass stands.
pub enum SyncState {
    /// Nothing has happened yet.
    Idle,
    /// The version-control query is running.
    Collecting {
        /// The corpus being reconciled.
        corpus_id: String,
    },
    /// The remote state map is being fetched; local state is already built.
    Fetching {
        /// The corpus being reconciled.
        corpus_id: String,
        /// The local state map, built from the collected files.
        local: StateMap,
        /// The collected files, kept for the archive step.
        files: Vec<CollectedFile>,
    },
    /// The plan is before the operator.
    Confirming {
        /// The corpus being reconciled.
        corpus_id: String,
        /// What the diff engine decided.
        plan: SyncPlan,
        /// The collected files, kept for the archive step.
        files: Vec<CollectedFile>,
    },
    /// The archive is written out and handed to the remote service.
    Uploading {
        /// The corpus being reconciled.
        corpus_id: String,
    },
    /// The transient archive is being removed; the outcome is already fixed.
    CleaningUp {
        /// How the pass will have ended once cleanup ran.
        outcome: SyncOutcome,
    },
    /// The pass is over.
    Done {
        /// How the pass ended.
        outcome: SyncOutcome,
    },
}

/// What the caller reports back to the engine.
pub enum SyncEvent {
    /// A pass begins; the corpus identifier on record, if any.
    Started {
        /// The recorded corpus identifier.
        corpus_id: Option<String>,
    },
    /// The version-control query finished: the listed files with the bytes
    /// that could be read for each, or the query's failure.
    Collected(Result<Vec<CollectedFile>, CollectionError>),
    /// The remote service answered the state-map fetch, or failed with a
    /// message.
    Fetched(Result<StateMap, String>),
    /// The operator's answer; a failed prompt must be reported as `false`.
    Confirmed(bool),
    /// The remote service answered the upload, or failed with a message.
    Uploaded(Result<(), String>),
    /// The archive file was removed, or the removal failed (a warning only).
    Cleaned(bool),
}

/// What the engine asks the caller to do next.
pub enum SyncAction {
    /// Run the version-control query and read each listed file.
    CollectFiles,
    /// Fetch the remote state map for the corpus.
    FetchRemote {
        /// The corpus being reconciled.
        corpus_id: String,
    },
    /// Present both sets to the operator and ask for confirmation.
    ConfirmPlan {
        /// Paths to upload or update.
        update: Vec<String>,
        /// Paths to delete remotely.
        delete: Vec<String>,
    },
    /// Write the archive bytes to a fresh transient file and send it, with
    /// the deletions, to the remote service in one call.
    Upload {
        /// The corpus being reconciled.
        corpus_id: String,
        /// The compressed archive of the update set.
        archive: Vec<u8>,
        /// Paths to delete remotely.
        delete: Vec<String>,
    },
    /// Remove the transient archive file, best effort.
    RemoveArchive,
    /// The pass is over; report the outcome.
    Finish,
}

/// Whether `e` is the event the state awaits.
pub open spec fn awaits(s: SyncState, e: SyncEvent) -> bool {
    match s {
        SyncState::Idle => e is Started,
        SyncState::Collecting { .. } => e is Collected,
        SyncState::Fetching { .. } => e is Fetched,
        SyncState::Confirming { .. } => e is Confirmed,
        SyncState::Uploading { .. } => e is Uploaded,
        SyncState::CleaningUp { .. } => e is Cleaned,
        SyncState::Done { .. } => false,
    }
}

/// A state map handed in by an event keeps each path once.
pub open spec fn event_wf(e: SyncEvent) -> bool {
    match e {
        SyncEvent::Fetched(Ok(remote)) => remote.wf(),
        _ => true,
    }
}

/// The states in which a transient archive file may exist on disk: from the
/// moment the engine hands out the archive until the cleanup round answered.
pub open spec fn archive_live(s: SyncState) -> bool {
    s is Uploading || s is CleaningUp
}

/// A state map's internal invariant holds wherever the engine stores one.
pub open spec fn state_wf(s: SyncState) -> bool {
    match s {
        SyncState::Fetching { local, .. } => local.wf(),
        _ => true,
    }
}

/// The whole protocol: which state and which action may follow `pre` on
/// event `e`, with `patterns` the configured exclusion patterns.
pub open spec fn step_rel(
    pre: SyncState,
    e: SyncEvent,
    post: SyncState,
    a: SyncAction,
    patterns: Seq<Seq<char>>,
) -> bool {
    match (pre, e) {
        (SyncState::Idle, SyncEvent::Started { corpus_id }) => match corpus_id {
            // Resolve identity first; fail fast when no identifier is on
            // record.
            Some(id) => {
                &&& post == (SyncState::Collecting { corpus_id: id })
                &&& a is CollectFiles
            },
            None => {
                &&& post == (SyncState::Done {
                    outcome: SyncOutcome::Aborted(SyncError::NotInitialized),
                })
                &&& a is Finish
            },
        },
        (SyncState::Collecting { corpus_id }, SyncEvent::Collected(res)) => match res {
            // Hash every kept file; a file that could not be read is left out
            // of the local state rather than aborting the pass.
            Ok(files) => {
                &&& post matches SyncState::Fetching { corpus_id: c2, local, files: f2 }
                    && c2 == corpus_id && f2 == files && local.wf() && local@ == local_state_spec(
                    files@,
                    patterns,
                )
                &&& a matches SyncAction::FetchRemote { corpus_id: c3 } && c3@ == corpus_id@
            },
            Err(err) => {
                &&& post == (SyncState::Done {
                    outcome: SyncOutcome::Aborted(SyncError::Collection(err)),
                })
                &&& a is Finish
            },
        },
        (SyncState::Fetching { corpus_id, local, files }, SyncEvent::Fetched(res)) => match res {
            Ok(remote) => {
                if update_spec(local@, remote@) =~= Set::<Seq<char>>::empty() && delete_spec(
                    local@,
                    remote@,
                ) =~= Set::<Seq<char>>::empty() {
                    // Short circuit: already synchronized — no archive is
                    // built and the remote service is not contacted again.
                    &&& post == (SyncState::Done { outcome: SyncOutcome::NoChanges })
                    &&& a is Finish
                } else {
                    // Report before any mutation, and ask.
                    &&& post matches SyncState::Confirming { corpus_id: c2, plan, files: f2 }
                        && c2 == corpus_id && f2 == files && plan.matches(local@, remote@)
                        && (a matches SyncAction::ConfirmPlan { update, delete } && update@
                        == plan.update@ && delete@ == plan.delete@)
                }
            },
            Err(err) => {
                // Abort, making no changes.
                &&& post == (SyncState::Done {
                    outcome: SyncOutcome::Aborted(SyncError::Api(err)),
                })
                &&& a is Finish
            },
        },
        (SyncState::Confirming { corpus_id, plan, files }, SyncEvent::Confirmed(yes)) => if !yes {
            // Declined: a no-op exit, still routed through the cleanup round.
            &&& post == (SyncState::CleaningUp { outcome: SyncOutcome::Declined })
            &&& a is RemoveArchive
        } else if archive_encodable(subset_entries(files@, plan.update.deep_view())) {
            // Archive exactly the update set; from here on a transient file
            // may exist on disk, so every path leads through cleanup.
            &&& post matches SyncState::Uploading { corpus_id: c2 } && c2 == corpus_id && (
            a matches SyncAction::Upload { corpus_id: c3, archive, delete } && c3@ == corpus_id@
                && archive@ == archive_encoding(subset_entries(files@, plan.update.deep_view()))
                && delete@ == plan.delete@)
        } else {
            // The packer refused the entries: abort, through the cleanup
            // round, since a partial file may exist on disk.
            &&& post matches SyncState::CleaningUp { outcome } && outcome matches
                SyncOutcome::Aborted(SyncError::Archive(_)) && a is RemoveArchive
        },
        (SyncState::Uploading { .. }, SyncEvent::Uploaded(res)) => {
            // Success or failure, the outcome is reported and the archive is
            // removed.
            &&& post matches SyncState::CleaningUp { outcome } && (match res {
                Ok(_) => outcome is UploadSucceeded,
                Err(err) => outcome == SyncOutcome::UploadFailed(err),
            })
            &&& a is RemoveArchive
        },
        (SyncState::CleaningUp { outcome }, SyncEvent::Cleaned(_)) => {
            // A cleanup failure is a warning, never an error: the outcome
            // stands either way.
            &&& post == (SyncState::Done { outcome })
            &&& a is Finish
        },
        _ => false,
    }
}

/// An element-for-element copy of a path list.
fn clone_paths(v: &Vec<String>) -> (r: Vec<String>)
    ensures
        r@ == v@,
{
    let mut r: Vec<String> = Vec::new();
    let n = v.len();
    for i in 0..n
        invariant
            n == v@.len(),
            r@ == v@.take(i as int),
    {
        r.push(v[i].clone());
        assert(r@ =~= v@.take(i + 1));
    }
    assert(v@.take(n as int) =~= v@);
    r
}

/// One reconciliation pass. Holds the compiled exclusion patterns and the
/// state of the pass; `step` is its only motion.
pub struct SyncEngine {
    /// Where the pass stands.
    pub state: SyncState,
    /// The configured exclusion patterns.
    pub excludes: ExcludeGlobs,
}

impl SyncEngine {
    /// The engine's invariant: patterns compiled, stored maps well formed.
    pub open spec fn wf(&self) -> bool {
        &&& self.excludes.wf()
        &&& state_wf(self.state)
    }

    /// A fresh pass with the given exclusion patterns.
    pub fn new(excludes: ExcludeGlobs) -> (r: SyncEngine)
        requires
            excludes.wf(),
        ensures
            r.wf(),
            r.state is Idle,
            r.excludes@ == excludes@,
    {
        SyncEngine { state: SyncState::Idle, excludes }
    }

    /// Drives the pass by one event: decides the next state and what the
    /// caller must do, as `step_rel` permits — and nothing else.
    pub fn step(self, event: SyncEvent) -> (r: (SyncEngine, SyncAction))
        requires
            self.wf(),
            awaits(self.state, event),
            event_wf(event),
        ensures
            r.0.wf(),
            r.0.excludes@ == self.excludes@,
            step_rel(self.state, event, r.0.state, r.1, self.excludes@),
    {
        let SyncEngine { state, excludes } = self;
        let (next, action): (SyncState, SyncAction) = match (state, event) {
            (SyncState::Idle, SyncEvent::Started { corpus_id }) => match corpus_id {
                Some(id) => (SyncState::Collecting { corpus_id: id }, SyncAction::CollectFiles),
                None => (
                    SyncState::Done { outcome: SyncOutcome::Aborted(SyncError::NotInitialized) },
                    SyncAction::Finish,
                ),
            },
            (SyncState::Collecting { corpus_id }, SyncEvent::Collected(res)) => match res {
                Ok(files) => {
                    let local = build_local_state(&files, &excludes);
                    let fetch = SyncAction::FetchRemote { corpus_id: corpus_id.clone() };
                    (SyncState::Fetching { corpus_id, local, files }, fetch)
                },
                Err(err) => (
                    SyncState::Done { outcome: SyncOutcome::Aborted(SyncError::Collection(err)) },
                    SyncAction::Finish,
                ),
            },
            (SyncState::Fetching { corpus_id, local, files }, SyncEvent::Fetched(res)) => match res {
                Ok(remote) => {
                    let plan = diff(&local, &remote);
                    proof {
                        lemma_empty_plan(plan, local@, remote@);
                    }
                    if plan.is_empty() {
                        (SyncState::Done { outcome: SyncOutcome::NoChanges }, SyncAction::Finish)
                    } else {
                        let ask = SyncAction::ConfirmPlan {
                            update: clone_paths(&plan.update),
                            delete: clone_paths(&plan.delete),
                        };
                        (SyncState::Confirming { corpus_id, plan, files }, ask)
                    }
                },
                Err(err) => (
                    SyncState::Done { outcome: SyncOutcome::Aborted(SyncError::Api(err)) },
                    SyncAction::Finish,
                ),
            },
            (SyncState::Confirming { corpus_id, plan, files }, SyncEvent::Confirmed(yes)) => {
                if !yes {
                    (
                        SyncState::CleaningUp { outcome: SyncOutcome::Declined },
                        SyncAction::RemoveArchive,
                    )
                } else {
                    match build_archive_for_paths(&files, &plan.update) {
                        Ok(archive) => {
                            let upload = SyncAction::Upload {
                                corpus_id: corpus_id.clone(),
                                archive,
                                delete: plan.delete,
                            };
                            (SyncState::Uploading { corpus_id }, upload)
                        },
                        Err(err) => (
                            SyncState::CleaningUp {
                                outcome: SyncOutcome::Aborted(SyncError::Archive(err)),
                            },
                            SyncAction::RemoveArchive,
                        ),
                    }
                }
            },
            (SyncState::Uploading { corpus_id: _ }, SyncEvent::Uploaded(res)) => {
                let outcome = match res {
                    Ok(_) => SyncOutcome::UploadSucceeded,
                    Err(err) => SyncOutcome::UploadFailed(err),
                };
                (SyncState::CleaningUp { outcome }, SyncAction::RemoveArchive)
            },
            (SyncState::CleaningUp { outcome }, SyncEvent::Cleaned(_)) => (
                SyncState::Done { outcome },
                SyncAction::Finish,
            ),
            _ => {
                proof {
                    assert(false);
                }
                vstd::pervasive::unreached()
            },
        };
        (SyncEngine { state: next, excludes }, action)
    }
}

/// Law (cleanup guarantee): every protocol transition keeps the transient
/// archive under discipline. Out of `Uploading` — success or failure — the
/// next state is the cleanup round and the remove action is issued; the
/// terminal state is never reached from a state with a live archive except
/// through the cleanup round's answer; and an archive is only ever handed out
/// by a transition into `Uploading`.
pub proof fn lemma_cleanup_guarantee(
    pre: SyncState,
    e: SyncEvent,
    post: SyncState,
    a: SyncAction,
    patterns: Seq<Seq<char>>,
)
    requires
        step_rel(pre, e, post, a, patterns),
    ensures
        pre is Uploading ==> post is CleaningUp && a is RemoveArchive,
        post is CleaningUp ==> a is RemoveArchive,
        archive_live(pre) && post is Done ==> e is Cleaned,
        a is Upload ==> post is Uploading,
{
}

/// A run of the protocol: `states` visited in order, driven by `events`, with
/// `actions` the engine's answers, every transition as `step_rel` permits.
pub open spec fn run_ok(
    states: Seq<SyncState>,
    events: Seq<SyncEvent>,
    actions: Seq<SyncAction>,
    patterns: Seq<Seq<char>>,
) -> bool {
    &&& states.len() == events.len() + 1
    &&& actions.len() == events.len()
    &&& forall|i: int|
        0 <= i < events.len() ==> step_rel(
            states[i],
            events[i],
            states[i + 1],
            #[trigger] actions[i],
            patterns,
        )
}

/// Law (cleanup guarantee, over whole runs): in any protocol run that hands an
/// archive out and reaches the terminal state, the very next action after the
/// upload's answer removes the archive — a pass that fails at the upload step
/// still removes the transient file before it is over.
pub proof fn lemma_run_cleanup(
    states: Seq<SyncState>,
    events: Seq<SyncEvent>,
    actions: Seq<SyncAction>,
    patterns: Seq<Seq<char>>,
    i: int,
)
    requires
        run_ok(states, events, actions, patterns),
        0 <= i < actions.len(),
        actions[i] is Upload,
        states.last() is Done,
    ensures
        i + 1 < actions.len(),
        actions[i + 1] is RemoveArchive,
{
    lemma_cleanup_guarantee(states[i], events[i], states[i + 1], actions[i], patterns);
    assert(states[i + 1] is Uploading);
    assert(i + 1 < actions.len()) by {
        if i + 1 == states.len() - 1 {
            assert(states[i + 1] is Done);
        }
    }
    lemma_cleanup_guarantee(states[i + 1], events[i + 1], states[i + 2], actions[i + 1], patterns);
}

/// Law (short circuit): when the fetched remote state equals the local state,
/// the pass terminates as `NoChanges` at once — no plan is shown, no archive
/// is built, no further call to the remote service is asked for.
pub proof fn lemma_short_circuit(
    corpus_id: String,
    local: StateMap,
    files: Vec<CollectedFile>,
    remote: StateMap,
    post: SyncState,
    a: SyncAction,
    patterns: Seq<Seq<char>>,
)
    requires
        step_rel(
            SyncState::Fetching { corpus_id, local, files },
            SyncEvent::Fetched(Ok(remote)),
            post,
            a,
            patterns,
        ),
        local@ == remote@,
    ensures
        post == (SyncState::Done { outcome: SyncOutcome::NoChanges }),
        a is Finish,
{
    lemma_diff_identical(local@);
}

} // verus!
