//! The release pipeline as a state machine: analysis, content, validation,
//! tag, publication, deployment, and the way back.
//!
//! The machine decides what comes next; the caller does the work and
//! reports how it went.

use vstd::prelude::*;

verus! {

/// How far a release has come.
#[derive(Debug, Clone, Copy, PartialEq, Eq, Structural)]
pub enum ReleaseStage {
    Draft,
    Analyzed,
    ContentGenerated,
    Validated,
    Tagged,
    Published,
    Deployed,
    RolledBack,
    Failed,
}

/// What the user asked for.
#[derive(Debug, Clone, Copy, PartialEq, Eq, Structural)]
pub struct ReleaseOptions {
    /// Go on although validation found issues.
    pub force: bool,
    /// Analyse and generate content, but create, publish and deploy
    /// nothing.
    pub dry_run: bool,
    /// Do not look at the validation issues at all.
    pub skip_validation: bool,
    /// Create the tag, but do not publish it.
    pub no_publish: bool,
    /// Deploy the artifact after the tag is published.
    pub deploy: bool,
}

/// Why a pipeline stopped.
#[derive(Debug, Clone, Copy, PartialEq, Eq, Structural)]
pub enum StopReason {
    /// The changelog could not be generated.
    ContentGeneration,
    /// Validation found issues and nothing overrides them.
    Validation,
    /// The tag exists already or could not be created.
    Tag,
    /// The tag could not be published; it stays where it is.
    Publication,
    /// The deployment failed.
    Deployment,
    /// The report does not fit the stage of the release.
    OutOfTurn,
}

/// What the caller reports.
#[derive(Debug, Clone, Copy, PartialEq, Eq, Structural)]
pub enum ReleaseEvent {
    /// The history was analysed.
    Analyzed,
    /// Content was requested; `changelog_ok` says whether a changelog came
    /// back.
    ContentGenerated { changelog_ok: bool },
    /// Readiness was checked and `issues` issues block the release;
    /// warnings are not counted.
    Validated { issues: usize },
    /// The tag was created, or could not be.
    TagCreated { ok: bool },
    /// The tag was published, or could not be.
    TagPublished { ok: bool },
    /// The artifact was deployed, or could not be.
    Deployed { ok: bool },
    /// The release is to be taken back.
    RollbackRequested,
}

/// What the caller has to do next.
#[derive(Debug, Clone, Copy, PartialEq, Eq, Structural)]
pub enum ReleaseAction {
    GenerateContent,
    Validate,
    CreateTag,
    PublishTag,
    Deploy,
    /// Delete the tag here and on the remote.
    DeleteTag,
    /// The pipeline ended well.
    Finish,
    /// The pipeline ended with a failure.
    Stop(StopReason),
}

/// Blocking issues hold the release back: there are some, they are looked
/// at, nothing forces the release, and it is no dry run.
pub open spec fn held_back(options: ReleaseOptions, issues: usize) -> bool {
    !options.skip_validation && issues > 0 && !options.force && !options.dry_run
}

/// The step of the pipeline: the stage that follows `stage` when the caller
/// reports `event`, and the action to carry out next.
pub open spec fn release_next(stage: ReleaseStage, options: ReleaseOptions, event: ReleaseEvent) -> (
    ReleaseStage,
    ReleaseAction,
) {
    match (stage, event) {
        (ReleaseStage::Draft, ReleaseEvent::Analyzed) => (
            ReleaseStage::Analyzed,
            ReleaseAction::GenerateContent,
        ),
        (ReleaseStage::Analyzed, ReleaseEvent::ContentGenerated { changelog_ok }) => if changelog_ok {
            (ReleaseStage::ContentGenerated, ReleaseAction::Validate)
        } else {
            (ReleaseStage::Failed, ReleaseAction::Stop(StopReason::ContentGeneration))
        },
        (ReleaseStage::ContentGenerated, ReleaseEvent::Validated { issues }) => if held_back(
            options,
            issues,
        ) {
            (ReleaseStage::Failed, ReleaseAction::Stop(StopReason::Validation))
        } else if options.dry_run {
            (ReleaseStage::Validated, ReleaseAction::Finish)
        } else {
            (ReleaseStage::Validated, ReleaseAction::CreateTag)
        },
        (ReleaseStage::Validated, ReleaseEvent::TagCreated { ok }) => if options.dry_run {
            (stage, ReleaseAction::Stop(StopReason::OutOfTurn))
        } else if !ok {
            (ReleaseStage::Failed, ReleaseAction::Stop(StopReason::Tag))
        } else if options.no_publish {
            (ReleaseStage::Tagged, ReleaseAction::Finish)
        } else {
            (ReleaseStage::Tagged, ReleaseAction::PublishTag)
        },
        (ReleaseStage::Tagged, ReleaseEvent::TagPublished { ok }) => if options.no_publish {
            (stage, ReleaseAction::Stop(StopReason::OutOfTurn))
        } else if !ok {
            (ReleaseStage::Tagged, ReleaseAction::Stop(StopReason::Publication))
        } else if options.deploy {
            (ReleaseStage::Published, ReleaseAction::Deploy)
        } else {
            (ReleaseStage::Published, ReleaseAction::Finish)
        },
        (ReleaseStage::Published, ReleaseEvent::Deployed { ok }) => if !options.deploy {
            (stage, ReleaseAction::Stop(StopReason::OutOfTurn))
        } else if ok {
            (ReleaseStage::Deployed, ReleaseAction::Finish)
        } else {
            (ReleaseStage::Published, ReleaseAction::Stop(StopReason::Deployment))
        },
        (ReleaseStage::Tagged, ReleaseEvent::RollbackRequested) => (
            ReleaseStage::RolledBack,
            ReleaseAction::DeleteTag,
        ),
        (ReleaseStage::Published, ReleaseEvent::RollbackRequested) => (
            ReleaseStage::RolledBack,
            ReleaseAction::DeleteTag,
        ),
        _ => (stage, ReleaseAction::Stop(StopReason::OutOfTurn)),
    }
}

/// The place of a stage on the way of a release.
pub open spec fn rank(stage: ReleaseStage) -> nat {
    match stage {
        ReleaseStage::Draft => 0,
        ReleaseStage::Analyzed => 1,
        ReleaseStage::ContentGenerated => 2,
        ReleaseStage::Validated => 3,
        ReleaseStage::Tagged => 4,
        ReleaseStage::Published => 5,
        ReleaseStage::Deployed => 6,
        ReleaseStage::RolledBack => 7,
        ReleaseStage::Failed => 8,
    }
}

/// The action creates or changes something outside: a tag, its
/// publication, a deployment.
pub open spec fn has_effect(action: ReleaseAction) -> bool {
    action == ReleaseAction::CreateTag || action == ReleaseAction::PublishTag || action
        == ReleaseAction::Deploy || action == ReleaseAction::DeleteTag
}

/// One release on its way through the pipeline.
#[derive(Debug, Clone, Copy, PartialEq, Eq, Structural)]
pub struct ReleasePipeline {
    pub stage: ReleaseStage,
    pub options: ReleaseOptions,
}

impl ReleasePipeline {
    /// A release that has not begun.
    pub fn new(options: ReleaseOptions) -> (r: Self)
        ensures
            r.stage == ReleaseStage::Draft,
            r.options == options,
    {
        ReleasePipeline { stage: ReleaseStage::Draft, options }
    }

    /// Takes the report `event` and returns the action to carry out next.
    pub fn step(&mut self, event: ReleaseEvent) -> (action: ReleaseAction)
        ensures
            (final(self).stage, action) == release_next(
                old(self).stage,
                old(self).options,
                event,
            ),
            final(self).options == old(self).options,
    {
        let options = self.options;
        let stage = self.stage;
        let (next, action) = match (stage, event) {
            (ReleaseStage::Draft, ReleaseEvent::Analyzed) => (
                ReleaseStage::Analyzed,
                ReleaseAction::GenerateContent,
            ),
            (ReleaseStage::Analyzed, ReleaseEvent::ContentGenerated { changelog_ok }) => {
                if changelog_ok {
                    (ReleaseStage::ContentGenerated, ReleaseAction::Validate)
                } else {
                    (ReleaseStage::Failed, ReleaseAction::Stop(StopReason::ContentGeneration))
                }
            },
            (ReleaseStage::ContentGenerated, ReleaseEvent::Validated { issues }) => {
                if !options.skip_validation && issues > 0 && !options.force && !options.dry_run {
                    (ReleaseStage::Failed, ReleaseAction::Stop(StopReason::Validation))
                } else if options.dry_run {
                    (ReleaseStage::Validated, ReleaseAction::Finish)
                } else {
                    (ReleaseStage::Validated, ReleaseAction::CreateTag)
                }
            },
            (ReleaseStage::Validated, ReleaseEvent::TagCreated { ok }) => {
                if options.dry_run {
                    (stage, ReleaseAction::Stop(StopReason::OutOfTurn))
                } else if !ok {
                    (ReleaseStage::Failed, ReleaseAction::Stop(StopReason::Tag))
                } else if options.no_publish {
                    (ReleaseStage::Tagged, ReleaseAction::Finish)
                } else {
                    (ReleaseStage::Tagged, ReleaseAction::PublishTag)
                }
            },
            (ReleaseStage::Tagged, ReleaseEvent::TagPublished { ok }) => {
                if options.no_publish {
                    (stage, ReleaseAction::Stop(StopReason::OutOfTurn))
                } else if !ok {
                    (ReleaseStage::Tagged, ReleaseAction::Stop(StopReason::Publication))
                } else if options.deploy {
                    (ReleaseStage::Published, ReleaseAction::Deploy)
                } else {
                    (ReleaseStage::Published, ReleaseAction::Finish)
                }
            },
            (ReleaseStage::Published, ReleaseEvent::Deployed { ok }) => {
                if !options.deploy {
                    (stage, ReleaseAction::Stop(StopReason::OutOfTurn))
                } else if ok {
                    (ReleaseStage::Deployed, ReleaseAction::Finish)
                } else {
                    (ReleaseStage::Published, ReleaseAction::Stop(StopReason::Deployment))
                }
            },
            (ReleaseStage::Tagged, ReleaseEvent::RollbackRequested) => (
                ReleaseStage::RolledBack,
                ReleaseAction::DeleteTag,
            ),
            (ReleaseStage::Published, ReleaseEvent::RollbackRequested) => (
                ReleaseStage::RolledBack,
                ReleaseAction::DeleteTag,
            ),
            _ => (stage, ReleaseAction::Stop(StopReason::OutOfTurn)),
        };
        self.stage = next;
        action
    }
}

/// A release never goes back to an earlier stage.
pub proof fn law_release_moves_forward(
    stage: ReleaseStage,
    options: ReleaseOptions,
    event: ReleaseEvent,
)
    ensures
        rank(stage) <= rank(release_next(stage, options, event).0),
{
}

/// A dry run creates, publishes, deploys and deletes nothing, whatever is
/// reported, and is not held back by validation issues.
pub proof fn law_dry_run_has_no_effect(stage: ReleaseStage, options: ReleaseOptions, event: ReleaseEvent)
    requires
        options.dry_run,
        rank(stage) <= 3,
    ensures
        !has_effect(release_next(stage, options, event).1),
        rank(release_next(stage, options, event).0) <= 3 || release_next(stage, options, event).0
            == ReleaseStage::Failed,
        release_next(stage, options, event).1 != ReleaseAction::Stop(StopReason::Validation),
{
}

/// A release is taken back only from the stages in which its tag exists:
/// `Tagged` and `Published`.
pub proof fn law_rollback_needs_a_tag(stage: ReleaseStage, options: ReleaseOptions, event: ReleaseEvent)
    requires
        stage != ReleaseStage::RolledBack,
        release_next(stage, options, event).0 == ReleaseStage::RolledBack,
    ensures
        stage == ReleaseStage::Tagged || stage == ReleaseStage::Published,
        event == ReleaseEvent::RollbackRequested,
        release_next(stage, options, event).1 == ReleaseAction::DeleteTag,
{
}

/// Validation issues stop a release unless it is forced, validation is
/// skipped, or it is a dry run; forcing never turns a failed tag,
/// publication or deployment into a success.
pub proof fn law_force_overrides_validation_only(
    stage: ReleaseStage,
    options: ReleaseOptions,
    event: ReleaseEvent,
    issues: usize,
)
    ensures
        (stage == ReleaseStage::ContentGenerated && event == (ReleaseEvent::Validated { issues })
            && issues > 0) ==> (release_next(stage, options, event).0 == ReleaseStage::Failed
            <==> !(options.force || options.skip_validation || options.dry_run)),
        (stage == ReleaseStage::Validated && event == (ReleaseEvent::TagCreated { ok: false }))
            ==> release_next(stage, options, event).1 is Stop,
        (stage == ReleaseStage::Tagged && event == (ReleaseEvent::TagPublished { ok: false }))
            ==> release_next(stage, options, event).1 is Stop && release_next(
            stage,
            options,
            event,
        ).0 == ReleaseStage::Tagged,
        (stage == ReleaseStage::Published && event == (ReleaseEvent::Deployed { ok: false }))
            ==> release_next(stage, options, event).1 is Stop,
{
}

} // verus!
