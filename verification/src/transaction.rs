//! The deployment protocol as a state machine.
//!
//! The machine decides; the caller carries out each action on the remote
//! host and reports what happened. The index is only ever replaced by a
//! rename: its new content is written to a temporary file next to it, after
//! every artifact has arrived in full.

use vstd::prelude::*;

verus! {

/// Where a deployment stands.
#[derive(Debug, Clone, Copy, PartialEq, Eq, Structural)]
pub enum DeployPhase {
    Start,
    Connecting,
    CreatingDirectory,
    CheckingDirectory,
    CheckingIndex,
    BackingUp,
    ClearingBackup,
    BackingUpAgain,
    Uploading,
    UploadingFallback,
    Verifying,
    MergingIndex,
    WritingTemp,
    Swapping,
    RemovingArtifacts,
    RestoringIndex,
    Done,
    Failed,
}

/// Why a deployment failed.
#[derive(Debug, Clone, Copy, PartialEq, Eq, Structural)]
pub enum DeployErrorKind {
    /// There is nothing to deploy.
    NoArtifacts,
    /// The host cannot be reached or a directory cannot be made.
    Transport,
    /// An artifact did not arrive.
    Transfer,
    /// An artifact arrived with another size than it has locally.
    SizeMismatch,
    /// The index could not be backed up, merged, written or swapped.
    Index,
    /// The caller reported something that does not answer the last action.
    Protocol,
}

/// The failure of a deployment.
#[derive(Debug)]
pub struct DeployError {
    pub kind: DeployErrorKind,
    /// What the caller reported of the failure, if anything.
    pub detail: Option<String>,
}

/// One artifact to transfer.
#[derive(Debug)]
pub struct PlannedUpload {
    pub local: String,
    pub remote: String,
    pub size: u64,
}

/// What a deployment works on; it does not change while the deployment
/// runs.
#[derive(Debug)]
pub struct DeployPlan {
    /// The directories to create, outermost first.
    pub directories: Vec<String>,
    pub index_path: String,
    pub backup_path: String,
    pub temp_path: String,
    pub artifacts: Vec<PlannedUpload>,
}

/// The state of one deployment.
#[derive(Debug)]
pub struct DeploymentTransaction {
    pub phase: DeployPhase,
    /// The directory being created.
    pub next_directory: usize,
    /// The artifact being transferred or verified.
    pub next_artifact: usize,
    /// How many artifacts, from the first on, have been transferred.
    pub uploaded: usize,
    /// How many artifacts, from the first on, have arrived with the right
    /// size.
    pub verified: usize,
    pub backup_created: bool,
    pub swap_completed: bool,
    /// The transferred artifact being removed again.
    pub next_removal: usize,
    pub error: Option<DeployError>,
}

/// What the caller reports.
#[derive(Debug)]
pub enum DeployEvent {
    /// The deployment is to begin.
    Begin,
    /// The last action succeeded; a check found what it looked for.
    Succeeded,
    /// The last action failed; a check did not find what it looked for.
    Failed { detail: String },
    /// The size of the remote file that was checked.
    Size { bytes: u64 },
    /// The index was read and merged; this is the merged text.
    Merged { text: String },
}

/// What the caller has to do next.
#[derive(Debug)]
pub enum DeployAction {
    Connect,
    /// Create the directory; it may exist already.
    CreateDirectory { path: String },
    /// Check that the directory exists.
    CheckDirectory { path: String },
    /// Check whether the index exists.
    CheckIndex { path: String },
    /// Rename a file, replacing what is at `to`.
    Rename { from: String, to: String },
    /// Remove a file.
    Remove { path: String },
    /// Transfer an artifact by the primary method.
    Upload { local: String, remote: String, size: u64 },
    /// Transfer an artifact by the secondary method.
    UploadFallback { local: String, remote: String },
    /// Report the size of the remote file.
    CheckSize { remote: String },
    /// Merge the new release into the index and report the merged text.
    /// The index is read from `source`: from its backup where this run
    /// moved it there, else from its own place. Where nothing was moved and
    /// there is no file, the merge starts from an empty index.
    MergeIndex { source: String, moved: bool },
    /// Write the merged text to the temporary file.
    WriteTemp { path: String, content: String },
    /// The deployment is complete.
    Finish,
    /// The deployment has failed with this error.
    Abort { kind: DeployErrorKind, detail: Option<String> },
}

/// `s` in phase `phase`.
pub open spec fn in_phase(s: DeploymentTransaction, phase: DeployPhase) -> DeploymentTransaction {
    DeploymentTransaction { phase, ..s }
}

/// The step that gives up for good.
pub open spec fn abort(s: DeploymentTransaction) -> (DeploymentTransaction, DeployAction) {
    (
        in_phase(s, DeployPhase::Failed),
        match s.error {
            Some(e) => DeployAction::Abort { kind: e.kind, detail: e.detail },
            None => DeployAction::Abort { kind: DeployErrorKind::Protocol, detail: None },
        },
    )
}

/// The step after the transferred artifacts are dealt with: the backup
/// goes back in place if there is one, then the failure is reported.
pub open spec fn restore_or_abort(plan: DeployPlan, s: DeploymentTransaction) -> (
    DeploymentTransaction,
    DeployAction,
) {
    if s.backup_created {
        (
            in_phase(s, DeployPhase::RestoringIndex),
            DeployAction::Rename { from: plan.backup_path, to: plan.index_path },
        )
    } else {
        abort(s)
    }
}

/// The step that removes transferred artifact `i`, or moves on when there
/// is none left.
pub open spec fn remove_from(plan: DeployPlan, s: DeploymentTransaction, i: usize) -> (
    DeploymentTransaction,
    DeployAction,
) {
    if i < s.uploaded && i < plan.artifacts@.len() {
        (
            DeploymentTransaction { phase: DeployPhase::RemovingArtifacts, next_removal: i, ..s },
            DeployAction::Remove { path: plan.artifacts@[i as int].remote },
        )
    } else {
        restore_or_abort(plan, s)
    }
}

/// The step that follows a failure, whatever failed: the failure is
/// remembered, what was transferred is removed and the backup restored,
/// and only then is the failure reported.
pub open spec fn fail(plan: DeployPlan, s: DeploymentTransaction, kind: DeployErrorKind, detail: Option<String>) -> (
    DeploymentTransaction,
    DeployAction,
) {
    let failed = DeploymentTransaction { error: Some(DeployError { kind, detail }), ..s };
    remove_from(plan, failed, 0)
}

/// The step that transfers artifact `i`, or merges the index when every
/// artifact has arrived.
pub open spec fn upload_from(plan: DeployPlan, s: DeploymentTransaction, i: usize) -> (
    DeploymentTransaction,
    DeployAction,
) {
    if i < plan.artifacts@.len() {
        (
            DeploymentTransaction { phase: DeployPhase::Uploading, next_artifact: i, ..s },
            DeployAction::Upload {
                local: plan.artifacts@[i as int].local,
                remote: plan.artifacts@[i as int].remote,
                size: plan.artifacts@[i as int].size,
            },
        )
    } else if s.verified == plan.artifacts@.len() {
        (
            DeploymentTransaction { phase: DeployPhase::MergingIndex, next_artifact: i, ..s },
            DeployAction::MergeIndex {
                source: if s.backup_created {
                    plan.backup_path
                } else {
                    plan.index_path
                },
                moved: s.backup_created,
            },
        )
    } else {
        fail(plan, s, DeployErrorKind::Protocol, None)
    }
}

/// The step that creates directory `i`, or looks for the index when every
/// directory is there.
pub open spec fn create_from(plan: DeployPlan, s: DeploymentTransaction, i: usize) -> (
    DeploymentTransaction,
    DeployAction,
) {
    if i < plan.directories@.len() {
        (
            DeploymentTransaction { phase: DeployPhase::CreatingDirectory, next_directory: i, ..s },
            DeployAction::CreateDirectory { path: plan.directories@[i as int] },
        )
    } else {
        (
            DeploymentTransaction { phase: DeployPhase::CheckingIndex, next_directory: i, ..s },
            DeployAction::CheckIndex { path: plan.index_path },
        )
    }
}

/// `n + 1`, held at the largest value.
pub open spec fn succ(n: usize) -> usize {
    if n < usize::MAX {
        (n + 1) as usize
    } else {
        n
    }
}

/// The step of the protocol: the state that follows `s` when the caller
/// reports `e`, and the action to carry out next.
pub open spec fn next(plan: DeployPlan, s: DeploymentTransaction, e: DeployEvent) -> (
    DeploymentTransaction,
    DeployAction,
) {
    match (s.phase, e) {
        (DeployPhase::Start, DeployEvent::Begin) => if plan.artifacts@.len() == 0 {
            abort(
                DeploymentTransaction {
                    error: Some(
                        DeployError { kind: DeployErrorKind::NoArtifacts, detail: None },
                    ),
                    ..s
                },
            )
        } else {
            (in_phase(s, DeployPhase::Connecting), DeployAction::Connect)
        },
        (DeployPhase::Connecting, DeployEvent::Succeeded) => create_from(plan, s, 0),
        (DeployPhase::Connecting, DeployEvent::Failed { detail }) => abort(
            DeploymentTransaction {
                error: Some(DeployError { kind: DeployErrorKind::Transport, detail: Some(detail) }),
                ..s
            },
        ),
        (DeployPhase::CreatingDirectory, DeployEvent::Succeeded) => create_from(
            plan,
            s,
            succ(s.next_directory),
        ),
        (DeployPhase::CreatingDirectory, DeployEvent::Failed { detail }) => if s.next_directory
            < plan.directories@.len() {
            (
                in_phase(s, DeployPhase::CheckingDirectory),
                DeployAction::CheckDirectory { path: plan.directories@[s.next_directory as int] },
            )
        } else {
            fail(plan, s, DeployErrorKind::Protocol, Some(detail))
        },
        (DeployPhase::CheckingDirectory, DeployEvent::Succeeded) => create_from(
            plan,
            s,
            succ(s.next_directory),
        ),
        (DeployPhase::CheckingDirectory, DeployEvent::Failed { detail }) => fail(
            plan,
            s,
            DeployErrorKind::Transport,
            Some(detail),
        ),
        (DeployPhase::CheckingIndex, DeployEvent::Succeeded) => (
            in_phase(s, DeployPhase::BackingUp),
            DeployAction::Rename { from: plan.index_path, to: plan.backup_path },
        ),
        (DeployPhase::CheckingIndex, DeployEvent::Failed { detail }) => upload_from(plan, s, 0),
        (DeployPhase::BackingUp, DeployEvent::Succeeded) => upload_from(
            plan,
            DeploymentTransaction { backup_created: true, ..s },
            0,
        ),
        (DeployPhase::BackingUp, DeployEvent::Failed { detail }) => (
            in_phase(s, DeployPhase::ClearingBackup),
            DeployAction::Remove { path: plan.backup_path },
        ),
        (DeployPhase::ClearingBackup, DeployEvent::Succeeded) => (
            in_phase(s, DeployPhase::BackingUpAgain),
            DeployAction::Rename { from: plan.index_path, to: plan.backup_path },
        ),
        (DeployPhase::ClearingBackup, DeployEvent::Failed { detail }) => (
            in_phase(s, DeployPhase::BackingUpAgain),
            DeployAction::Rename { from: plan.index_path, to: plan.backup_path },
        ),
        (DeployPhase::BackingUpAgain, DeployEvent::Succeeded) => upload_from(
            plan,
            DeploymentTransaction { backup_created: true, ..s },
            0,
        ),
        (DeployPhase::BackingUpAgain, DeployEvent::Failed { detail }) => fail(
            plan,
            s,
            DeployErrorKind::Index,
            Some(detail),
        ),
        (DeployPhase::Uploading, DeployEvent::Succeeded) => if s.next_artifact
            < plan.artifacts@.len() {
            (
                DeploymentTransaction {
                    phase: DeployPhase::Verifying,
                    uploaded: succ(s.next_artifact),
                    ..s
                },
                DeployAction::CheckSize { remote: plan.artifacts@[s.next_artifact as int].remote },
            )
        } else {
            fail(plan, s, DeployErrorKind::Protocol, None)
        },
        (DeployPhase::Uploading, DeployEvent::Failed { detail }) => if s.next_artifact
            < plan.artifacts@.len() {
            (
                in_phase(s, DeployPhase::UploadingFallback),
                DeployAction::UploadFallback {
                    local: plan.artifacts@[s.next_artifact as int].local,
                    remote: plan.artifacts@[s.next_artifact as int].remote,
                },
            )
        } else {
            fail(plan, s, DeployErrorKind::Protocol, Some(detail))
        },
        (DeployPhase::UploadingFallback, DeployEvent::Succeeded) => if s.next_artifact
            < plan.artifacts@.len() {
            (
                DeploymentTransaction {
                    phase: DeployPhase::Verifying,
                    uploaded: succ(s.next_artifact),
                    ..s
                },
                DeployAction::CheckSize { remote: plan.artifacts@[s.next_artifact as int].remote },
            )
        } else {
            fail(plan, s, DeployErrorKind::Protocol, None)
        },
        (DeployPhase::UploadingFallback, DeployEvent::Failed { detail }) => fail(
            plan,
            s,
            DeployErrorKind::Transfer,
            Some(detail),
        ),
        (DeployPhase::Verifying, DeployEvent::Size { bytes }) => if s.next_artifact
            < plan.artifacts@.len() && bytes == plan.artifacts@[s.next_artifact as int].size
            && s.verified == s.next_artifact {
            upload_from(
                plan,
                DeploymentTransaction { verified: succ(s.next_artifact), ..s },
                succ(s.next_artifact),
            )
        } else {
            fail(plan, s, DeployErrorKind::SizeMismatch, None)
        },
        (DeployPhase::Verifying, DeployEvent::Failed { detail }) => fail(
            plan,
            s,
            DeployErrorKind::Transfer,
            Some(detail),
        ),
        (DeployPhase::MergingIndex, DeployEvent::Merged { text }) => if s.verified
            == plan.artifacts@.len() {
            (
                in_phase(s, DeployPhase::WritingTemp),
                DeployAction::WriteTemp { path: plan.temp_path, content: text },
            )
        } else {
            fail(plan, s, DeployErrorKind::Protocol, None)
        },
        (DeployPhase::MergingIndex, DeployEvent::Failed { detail }) => fail(
            plan,
            s,
            DeployErrorKind::Index,
            Some(detail),
        ),
        (DeployPhase::WritingTemp, DeployEvent::Succeeded) => if s.verified
            == plan.artifacts@.len() {
            (
                in_phase(s, DeployPhase::Swapping),
                DeployAction::Rename { from: plan.temp_path, to: plan.index_path },
            )
        } else {
            fail(plan, s, DeployErrorKind::Protocol, None)
        },
        (DeployPhase::WritingTemp, DeployEvent::Failed { detail }) => fail(
            plan,
            s,
            DeployErrorKind::Index,
            Some(detail),
        ),
        (DeployPhase::Swapping, DeployEvent::Succeeded) => (
            DeploymentTransaction { phase: DeployPhase::Done, swap_completed: true, ..s },
            DeployAction::Finish,
        ),
        (DeployPhase::Swapping, DeployEvent::Failed { detail }) => fail(
            plan,
            s,
            DeployErrorKind::Index,
            Some(detail),
        ),
        (DeployPhase::RemovingArtifacts, DeployEvent::Succeeded) => remove_from(
            plan,
            s,
            succ(s.next_removal),
        ),
        (DeployPhase::RemovingArtifacts, DeployEvent::Failed { detail }) => remove_from(
            plan,
            s,
            succ(s.next_removal),
        ),
        (DeployPhase::RestoringIndex, _) => abort(s),
        (DeployPhase::Done, _) => (s, DeployAction::Finish),
        (DeployPhase::Failed, _) => abort(s),
        (DeployPhase::RemovingArtifacts, _) => remove_from(plan, s, succ(s.next_removal)),
        _ => fail(plan, s, DeployErrorKind::Protocol, None),
    }
}

/// The deployment has failed or is cleaning up after a failure.
pub open spec fn is_failing(s: DeploymentTransaction) -> bool {
    s.phase == DeployPhase::RemovingArtifacts || s.phase == DeployPhase::RestoringIndex || s.phase
        == DeployPhase::Failed
}

/// The deployment is working on the index: merging, writing or swapping.
pub open spec fn is_publishing(s: DeploymentTransaction) -> bool {
    s.phase == DeployPhase::MergingIndex || s.phase == DeployPhase::WritingTemp || s.phase
        == DeployPhase::Swapping || s.phase == DeployPhase::Done
}

/// What holds of every state that a deployment reaches: the counters are
/// in order; the index is worked on only after every artifact has arrived
/// in full and nothing has failed; a failure is remembered.
pub open spec fn consistent(plan: DeployPlan, s: DeploymentTransaction) -> bool {
    &&& s.verified <= s.uploaded <= plan.artifacts@.len()
    &&& is_publishing(s) ==> s.verified == plan.artifacts@.len() && s.error is None
    &&& is_failing(s) ==> s.error is Some
    &&& s.swap_completed ==> s.phase == DeployPhase::Done
    &&& s.phase == DeployPhase::Start ==> s.uploaded == 0 && !s.backup_created && s.error is None
    &&& (s.phase == DeployPhase::Uploading || s.phase == DeployPhase::UploadingFallback)
        ==> s.verified == s.next_artifact && s.uploaded == s.next_artifact && s.next_artifact
        < plan.artifacts@.len()
    &&& s.phase == DeployPhase::Verifying ==> s.verified == s.next_artifact && s.uploaded
        == s.next_artifact + 1
    &&& !is_failing(s) && !is_publishing(s) ==> s.error is None
    &&& (s.phase == DeployPhase::Connecting || s.phase == DeployPhase::CreatingDirectory || s.phase
        == DeployPhase::CheckingDirectory || s.phase == DeployPhase::CheckingIndex || s.phase
        == DeployPhase::BackingUp || s.phase == DeployPhase::ClearingBackup || s.phase
        == DeployPhase::BackingUpAgain) ==> s.uploaded == 0 && s.verified == 0
        && plan.artifacts@.len() > 0
}

/// The action changes the index or prepares its change: it merges, writes
/// the temporary file, or moves the temporary file over the index.
pub open spec fn publishes(plan: DeployPlan, a: DeployAction) -> bool {
    a is MergeIndex || a is WriteTemp || (a matches DeployAction::Rename { from, to } && from
        == plan.temp_path)
}

impl DeploymentTransaction {
    /// A deployment that has not begun.
    pub fn new() -> (r: Self)
        ensures
            r.phase == DeployPhase::Start,
            r.next_directory == 0,
            r.next_artifact == 0,
            r.next_removal == 0,
            r.uploaded == 0,
            r.verified == 0,
            !r.backup_created,
            !r.swap_completed,
            r.error is None,
            forall|plan: DeployPlan| consistent(plan, r),
    {
        DeploymentTransaction {
            phase: DeployPhase::Start,
            next_directory: 0,
            next_artifact: 0,
            uploaded: 0,
            verified: 0,
            backup_created: false,
            swap_completed: false,
            next_removal: 0,
            error: None,
        }
    }

    /// Takes the report `event` on the last action and returns the action
    /// to carry out next.
    pub fn step(&mut self, plan: &DeployPlan, event: DeployEvent) -> (action: DeployAction)
        ensures
            (*final(self), action) == next(*plan, *old(self), event),
    {
        let phase = self.phase;
        match (phase, event) {
            (DeployPhase::Start, DeployEvent::Begin) => {
                if plan.artifacts.len() == 0 {
                    self.error = Some(
                        DeployError { kind: DeployErrorKind::NoArtifacts, detail: None },
                    );
                    self.give_up()
                } else {
                    self.phase = DeployPhase::Connecting;
                    DeployAction::Connect
                }
            },
            (DeployPhase::Connecting, DeployEvent::Succeeded) => self.create_from(plan, 0),
            (DeployPhase::Connecting, DeployEvent::Failed { detail }) => {
                self.error = Some(DeployError { kind: DeployErrorKind::Transport, detail: Some(detail) });
                self.give_up()
            },
            (DeployPhase::CreatingDirectory, DeployEvent::Succeeded) => {
                let i = next_index(self.next_directory);
                self.create_from(plan, i)
            },
            (DeployPhase::CreatingDirectory, DeployEvent::Failed { detail }) => {
                if self.next_directory < plan.directories.len() {
                    self.phase = DeployPhase::CheckingDirectory;
                    DeployAction::CheckDirectory {
                        path: plan.directories[self.next_directory].clone(),
                    }
                } else {
                    self.fail(plan, DeployErrorKind::Protocol, Some(detail))
                }
            },
            (DeployPhase::CheckingDirectory, DeployEvent::Succeeded) => {
                let i = next_index(self.next_directory);
                self.create_from(plan, i)
            },
            (DeployPhase::CheckingDirectory, DeployEvent::Failed { detail }) => self.fail(
                plan,
                DeployErrorKind::Transport,
                Some(detail),
            ),
            (DeployPhase::CheckingIndex, DeployEvent::Succeeded) => {
                self.phase = DeployPhase::BackingUp;
                DeployAction::Rename {
                    from: plan.index_path.clone(),
                    to: plan.backup_path.clone(),
                }
            },
            (DeployPhase::CheckingIndex, DeployEvent::Failed { detail }) => self.upload_from(
                plan,
                0,
            ),
            (DeployPhase::BackingUp, DeployEvent::Succeeded) => {
                self.backup_created = true;
                self.upload_from(plan, 0)
            },
            (DeployPhase::BackingUp, DeployEvent::Failed { detail }) => {
                self.phase = DeployPhase::ClearingBackup;
                DeployAction::Remove { path: plan.backup_path.clone() }
            },
            (DeployPhase::ClearingBackup, DeployEvent::Succeeded) => {
                self.phase = DeployPhase::BackingUpAgain;
                DeployAction::Rename {
                    from: plan.index_path.clone(),
                    to: plan.backup_path.clone(),
                }
            },
            (DeployPhase::ClearingBackup, DeployEvent::Failed { detail }) => {
                self.phase = DeployPhase::BackingUpAgain;
                DeployAction::Rename {
                    from: plan.index_path.clone(),
                    to: plan.backup_path.clone(),
                }
            },
            (DeployPhase::BackingUpAgain, DeployEvent::Succeeded) => {
                self.backup_created = true;
                self.upload_from(plan, 0)
            },
            (DeployPhase::BackingUpAgain, DeployEvent::Failed { detail }) => self.fail(
                plan,
                DeployErrorKind::Index,
                Some(detail),
            ),
            (DeployPhase::Uploading, DeployEvent::Succeeded) => self.verify_next(plan),
            (DeployPhase::Uploading, DeployEvent::Failed { detail }) => {
                if self.next_artifact < plan.artifacts.len() {
                    self.phase = DeployPhase::UploadingFallback;
                    DeployAction::UploadFallback {
                        local: plan.artifacts[self.next_artifact].local.clone(),
                        remote: plan.artifacts[self.next_artifact].remote.clone(),
                    }
                } else {
                    self.fail(plan, DeployErrorKind::Protocol, Some(detail))
                }
            },
            (DeployPhase::UploadingFallback, DeployEvent::Succeeded) => self.verify_next(plan),
            (DeployPhase::UploadingFallback, DeployEvent::Failed { detail }) => self.fail(
                plan,
                DeployErrorKind::Transfer,
                Some(detail),
            ),
            (DeployPhase::Verifying, DeployEvent::Size { bytes }) => {
                if self.next_artifact < plan.artifacts.len() && bytes
                    == plan.artifacts[self.next_artifact].size && self.verified
                    == self.next_artifact {
                    let i = next_index(self.next_artifact);
                    self.verified = i;
                    self.upload_from(plan, i)
                } else {
                    self.fail(plan, DeployErrorKind::SizeMismatch, None)
                }
            },
            (DeployPhase::Verifying, DeployEvent::Failed { detail }) => self.fail(
                plan,
                DeployErrorKind::Transfer,
                Some(detail),
            ),
            (DeployPhase::MergingIndex, DeployEvent::Merged { text }) => {
                if self.verified == plan.artifacts.len() {
                    self.phase = DeployPhase::WritingTemp;
                    DeployAction::WriteTemp { path: plan.temp_path.clone(), content: text }
                } else {
                    self.fail(plan, DeployErrorKind::Protocol, None)
                }
            },
            (DeployPhase::MergingIndex, DeployEvent::Failed { detail }) => self.fail(
                plan,
                DeployErrorKind::Index,
                Some(detail),
            ),
            (DeployPhase::WritingTemp, DeployEvent::Succeeded) => {
                if self.verified == plan.artifacts.len() {
                    self.phase = DeployPhase::Swapping;
                    DeployAction::Rename {
                        from: plan.temp_path.clone(),
                        to: plan.index_path.clone(),
                    }
                } else {
                    self.fail(plan, DeployErrorKind::Protocol, None)
                }
            },
            (DeployPhase::WritingTemp, DeployEvent::Failed { detail }) => self.fail(
                plan,
                DeployErrorKind::Index,
                Some(detail),
            ),
            (DeployPhase::Swapping, DeployEvent::Succeeded) => {
                self.phase = DeployPhase::Done;
                self.swap_completed = true;
                DeployAction::Finish
            },
            (DeployPhase::Swapping, DeployEvent::Failed { detail }) => self.fail(
                plan,
                DeployErrorKind::Index,
                Some(detail),
            ),
            (DeployPhase::RemovingArtifacts, _) => {
                let i = next_index(self.next_removal);
                self.remove_from(plan, i)
            },
            (DeployPhase::RestoringIndex, _) => self.give_up(),
            (DeployPhase::Done, _) => DeployAction::Finish,
            (DeployPhase::Failed, _) => self.give_up(),
            _ => self.fail(plan, DeployErrorKind::Protocol, None),
        }
    }

    /// Moves on to the size check of the artifact that was transferred.
    fn verify_next(&mut self, plan: &DeployPlan) -> (action: DeployAction)
        ensures
            (*final(self), action) == if old(self).next_artifact < plan.artifacts@.len() {
                (
                    DeploymentTransaction {
                        phase: DeployPhase::Verifying,
                        uploaded: succ(old(self).next_artifact),
                        ..*old(self)
                    },
                    DeployAction::CheckSize {
                        remote: plan.artifacts@[old(self).next_artifact as int].remote,
                    },
                )
            } else {
                fail(*plan, *old(self), DeployErrorKind::Protocol, None)
            },
    {
        if self.next_artifact < plan.artifacts.len() {
            self.phase = DeployPhase::Verifying;
            self.uploaded = next_index(self.next_artifact);
            DeployAction::CheckSize { remote: plan.artifacts[self.next_artifact].remote.clone() }
        } else {
            self.fail(plan, DeployErrorKind::Protocol, None)
        }
    }

    /// Gives up for good.
    fn give_up(&mut self) -> (action: DeployAction)
        ensures
            (*final(self), action) == abort(*old(self)),
    {
        self.phase = DeployPhase::Failed;
        match &self.error {
            Some(e) => DeployAction::Abort { kind: e.kind, detail: e.detail.clone() },
            None => DeployAction::Abort { kind: DeployErrorKind::Protocol, detail: None },
        }
    }

    /// Puts the backup back in place if there is one, else gives up.
    fn restore_or_give_up(&mut self, plan: &DeployPlan) -> (action: DeployAction)
        ensures
            (*final(self), action) == restore_or_abort(*plan, *old(self)),
    {
        if self.backup_created {
            self.phase = DeployPhase::RestoringIndex;
            DeployAction::Rename { from: plan.backup_path.clone(), to: plan.index_path.clone() }
        } else {
            self.give_up()
        }
    }

    /// Removes transferred artifact `i`, or moves on.
    fn remove_from(&mut self, plan: &DeployPlan, i: usize) -> (action: DeployAction)
        ensures
            (*final(self), action) == remove_from(*plan, *old(self), i),
    {
        if i < self.uploaded && i < plan.artifacts.len() {
            self.phase = DeployPhase::RemovingArtifacts;
            self.next_removal = i;
            DeployAction::Remove { path: plan.artifacts[i].remote.clone() }
        } else {
            self.restore_or_give_up(plan)
        }
    }

    /// Records a failure and begins to clean up.
    fn fail(&mut self, plan: &DeployPlan, kind: DeployErrorKind, detail: Option<String>) -> (action:
        DeployAction)
        ensures
            (*final(self), action) == fail(*plan, *old(self), kind, detail),
    {
        self.error = Some(DeployError { kind, detail });
        self.remove_from(plan, 0)
    }

    /// Transfers artifact `i`, or merges the index.
    fn upload_from(&mut self, plan: &DeployPlan, i: usize) -> (action: DeployAction)
        ensures
            (*final(self), action) == upload_from(*plan, *old(self), i),
    {
        if i < plan.artifacts.len() {
            self.phase = DeployPhase::Uploading;
            self.next_artifact = i;
            DeployAction::Upload {
                local: plan.artifacts[i].local.clone(),
                remote: plan.artifacts[i].remote.clone(),
                size: plan.artifacts[i].size,
            }
        } else if self.verified == plan.artifacts.len() {
            self.phase = DeployPhase::MergingIndex;
            self.next_artifact = i;
            DeployAction::MergeIndex {
                source: if self.backup_created {
                    plan.backup_path.clone()
                } else {
                    plan.index_path.clone()
                },
                moved: self.backup_created,
            }
        } else {
            self.fail(plan, DeployErrorKind::Protocol, None)
        }
    }

    /// Creates directory `i`, or looks for the index.
    fn create_from(&mut self, plan: &DeployPlan, i: usize) -> (action: DeployAction)
        ensures
            (*final(self), action) == create_from(*plan, *old(self), i),
    {
        if i < plan.directories.len() {
            self.phase = DeployPhase::CreatingDirectory;
            self.next_directory = i;
            DeployAction::CreateDirectory { path: plan.directories[i].clone() }
        } else {
            self.phase = DeployPhase::CheckingIndex;
            self.next_directory = i;
            DeployAction::CheckIndex { path: plan.index_path.clone() }
        }
    }
}

/// `n + 1`, held at the largest value.
pub fn next_index(n: usize) -> (r: usize)
    ensures
        r == succ(n),
{
    if n < usize::MAX {
        n + 1
    } else {
        n
    }
}

/// The index, its backup and the temporary file are three different files.
pub open spec fn distinct_files(plan: DeployPlan) -> bool {
    plan.temp_path@ != plan.index_path@ && plan.backup_path@ != plan.index_path@
        && plan.temp_path@ != plan.backup_path@
}

/// Every step keeps the state consistent.
pub proof fn law_step_keeps_consistency(plan: DeployPlan, s: DeploymentTransaction, e: DeployEvent)
    requires
        consistent(plan, s),
    ensures
        consistent(plan, next(plan, s, e).0),
{
    assert(plan.artifacts.len() == plan.artifacts@.len());
}

/// The index is merged, written and swapped only when every artifact has
/// arrived with the size it has locally and nothing has failed.
pub proof fn law_index_changes_after_verification(
    plan: DeployPlan,
    s: DeploymentTransaction,
    e: DeployEvent,
)
    requires
        consistent(plan, s),
        distinct_files(plan),
    ensures
        publishes(plan, next(plan, s, e).1) ==> next(plan, s, e).0.verified
            == plan.artifacts@.len() && next(plan, s, e).0.error is None && s.error is None,
{
}

/// An artifact that arrived with another size than it has locally fails
/// the deployment on the spot: the failure is recorded as a size mismatch
/// and the next action does not touch the index.
pub proof fn law_size_mismatch_fails(
    plan: DeployPlan,
    s: DeploymentTransaction,
    bytes: u64,
)
    requires
        consistent(plan, s),
        distinct_files(plan),
        s.phase == DeployPhase::Verifying,
        s.next_artifact < plan.artifacts@.len(),
        bytes != plan.artifacts@[s.next_artifact as int].size,
    ensures
        ({
            let (t, a) = next(plan, s, DeployEvent::Size { bytes });
            is_failing(t) && (t.error matches Some(err) && err.kind
                == DeployErrorKind::SizeMismatch) && !publishes(plan, a) && t.verified
                == s.verified
        }),
{
}

/// After a size mismatch the clean-up begins at once, whatever the plan:
/// the next action removes the first artifact that was transferred in this
/// run.
pub proof fn law_size_mismatch_is_cleaned_up(
    plan: DeployPlan,
    s: DeploymentTransaction,
    bytes: u64,
)
    requires
        consistent(plan, s),
        s.phase == DeployPhase::Verifying,
        s.next_artifact < plan.artifacts@.len(),
        bytes != plan.artifacts@[s.next_artifact as int].size,
    ensures
        ({
            let (t, a) = next(plan, s, DeployEvent::Size { bytes });
            t.phase == DeployPhase::RemovingArtifacts && a == (DeployAction::Remove {
                path: plan.artifacts@[0].remote,
            })
        }),
{
    assert(plan.artifacts.len() == plan.artifacts@.len());
}

/// The clean-up goes on whether a removal succeeds or not. When the last
/// transferred artifact has been dealt with, the backup goes back in place
/// of the index where this run made one; otherwise the failure is reported.
/// After the attempt to restore, the failure that is reported is the one
/// that occurred, whatever came of the attempt.
pub proof fn law_clean_up_restores_the_backup(
    plan: DeployPlan,
    s: DeploymentTransaction,
    e: DeployEvent,
)
    requires
        s.error is Some,
    ensures
        s.phase == DeployPhase::RemovingArtifacts && (succ(s.next_removal) >= s.uploaded || succ(
            s.next_removal,
        ) >= plan.artifacts@.len()) && s.backup_created ==> next(plan, s, e) == (
            in_phase(s, DeployPhase::RestoringIndex),
            DeployAction::Rename { from: plan.backup_path, to: plan.index_path },
        ),
        s.phase == DeployPhase::RemovingArtifacts && succ(s.next_removal) < s.uploaded && succ(
            s.next_removal,
        ) < plan.artifacts@.len() ==> next(plan, s, e).1 == (DeployAction::Remove {
            path: plan.artifacts@[succ(s.next_removal) as int].remote,
        }),
        s.phase == DeployPhase::RestoringIndex ==> next(plan, s, e).0.phase == DeployPhase::Failed
            && next(plan, s, e).1 == (DeployAction::Abort {
            kind: s.error->Some_0.kind,
            detail: s.error->Some_0.detail,
        }),
{
    assert(plan.artifacts.len() == plan.artifacts@.len());
}

/// A failed deployment stays failed: whatever the caller reports, the
/// index is not merged, written or swapped any more, and the failure that
/// is reported in the end is the one that occurred first.
pub proof fn law_failure_is_final(plan: DeployPlan, s: DeploymentTransaction, e: DeployEvent)
    requires
        is_failing(s),
        distinct_files(plan),
    ensures
        is_failing(next(plan, s, e).0),
        !publishes(plan, next(plan, s, e).1),
        next(plan, s, e).0.error == s.error,
        next(plan, s, e).0.verified == s.verified,
        next(plan, s, e).1 matches DeployAction::Abort { kind, detail } ==> s.error == Some(
            DeployError { kind, detail },
        ) || s.error is None,
{
}

/// No action writes into the index itself: content is written to the
/// temporary file only; files are renamed only to back the index up, to put
/// the temporary file in its place, or to put the backup back; and only the
/// backup and transferred artifacts are ever removed.
pub proof fn law_index_is_replaced_by_rename(
    plan: DeployPlan,
    s: DeploymentTransaction,
    e: DeployEvent,
)
    ensures
        ({
            let (t, a) = next(plan, s, e);
            &&& a matches DeployAction::WriteTemp { path, content } ==> path == plan.temp_path
            &&& a matches DeployAction::Rename { from, to } ==> (from == plan.index_path && to
                == plan.backup_path) || (from == plan.temp_path && to == plan.index_path) || (from
                == plan.backup_path && to == plan.index_path)
            &&& a matches DeployAction::Remove { path } ==> path == plan.backup_path || exists|
                i: int,
            |
                0 <= i < t.uploaded && i < plan.artifacts@.len() && path
                    == #[trigger] plan.artifacts@[i].remote
        }),
{
    let (t, a) = next(plan, s, e);
    if a is Remove && a->Remove_path != plan.backup_path {
        assert(t.phase == DeployPhase::RemovingArtifacts);
        assert(a->Remove_path == plan.artifacts@[t.next_removal as int].remote);
    }
}

/// A deployment that completes has swapped the index after every artifact
/// was verified.
pub proof fn law_completion_means_swap(plan: DeployPlan, s: DeploymentTransaction, e: DeployEvent)
    requires
        consistent(plan, s),
        s.phase != DeployPhase::Done,
        next(plan, s, e).0.phase == DeployPhase::Done,
    ensures
        s.phase == DeployPhase::Swapping,
        e is Succeeded,
        next(plan, s, e).0.swap_completed,
        next(plan, s, e).0.verified == plan.artifacts@.len(),
{
}

} // verus!
