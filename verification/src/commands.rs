//! The commands of the tool, as the user gives them, and what each of them
//! asks for.

use vstd::prelude::*;
use crate::config::ConfigError;
use crate::pattern::opt_text;
use crate::pipeline::ReleaseOptions;
use crate::text::{append_str, from_chars, to_chars};

verus! {

/// Asks for a changelog of a range of the history.
#[derive(Debug, Clone)]
pub struct ChangelogCommand {
    pub since: Option<String>,
    pub to: Option<String>,
    pub verbose: bool,
    pub use_git_analysis: bool,
    pub output: Option<String>,
}

/// Asks for a suggestion of the next version.
#[derive(Debug, Clone)]
pub struct SuggestVersionCommand {
    pub current_version: Option<String>,
    pub analyze_commits: bool,
    pub use_semantic_analysis: bool,
    pub apply: bool,
}

/// Asks for release notes.
#[derive(Debug, Clone)]
pub struct ReleaseNotesCommand {
    pub template: Option<String>,
    pub output: Option<String>,
}

/// The kinds of generated content that can be asked for.
#[derive(Debug, Clone)]
pub enum AiSubcommand {
    Changelog(ChangelogCommand),
    SuggestVersion(SuggestVersionCommand),
    ReleaseNotes(ReleaseNotesCommand),
}

/// Asks the content generator for something.
#[derive(Debug, Clone)]
pub struct AiCommand {
    pub subcommand: AiSubcommand,
}

/// Asks for a build.
#[derive(Debug, Clone)]
pub struct BuildCommand {
    pub version: Option<String>,
    pub profile: String,
}

/// Asks for a deployment.
#[derive(Debug, Clone, Copy, PartialEq, Eq, Structural)]
pub struct DeployCommand {
    pub force: bool,
    /// Kept so that the flag is still accepted: a failed deployment is
    /// cleaned up whether it is set or not.
    pub rollback_on_failure: bool,
    pub skip_validation: bool,
}

/// Asks for the whole way: build, release, deployment.
#[derive(Debug, Clone)]
pub struct PublishCommand {
    pub version: Option<String>,
    pub auto_version: bool,
    pub profile: String,
    pub force: bool,
    /// Kept so that the flag is still accepted: a failed deployment is
    /// cleaned up whether it is set or not.
    pub rollback_on_failure: bool,
    pub skip_validation: bool,
    pub dry_run: bool,
}

/// Asks for a release, its history, or its roll-back.
#[derive(Debug, Clone)]
pub struct ReleaseCommand {
    pub dry_run: bool,
    pub auto_version: bool,
    pub version: Option<String>,
    pub no_publish: bool,
    pub skip_validation: bool,
    pub save_notes: Option<String>,
    pub save_changelog: Option<String>,
    pub verbose: bool,
    pub history: bool,
    pub limit: usize,
    pub rollback: Option<String>,
    pub force: bool,
}

/// Asks for the state of the repository and the latest releases.
#[derive(Debug, Clone)]
pub struct StatusCommand {
    pub releases: bool,
    pub repository: bool,
    pub format: String,
}

/// Asks for a check of the configuration.
#[derive(Debug, Clone, Copy, PartialEq, Eq, Structural)]
pub struct ValidateCommand {
    pub metadata: bool,
    pub compatibility: bool,
    pub full: bool,
}

/// What a release command is for.
#[derive(Debug, Clone)]
pub enum ReleaseMode {
    /// Take the release of this version back.
    Rollback { version: String },
    /// Show the latest releases, at most so many.
    History { limit: usize },
    /// Make a release.
    Release,
}

/// Where the version of a publication comes from.
#[derive(Debug, Clone)]
pub enum PublishVersion {
    /// The user named it.
    Explicit { version: String },
    /// It follows from the history.
    Automatic,
    /// The user neither named it nor asked for it to be worked out.
    Missing,
}

/// What a deployment does about a configuration that fails validation.
#[derive(Debug, Clone, Copy, PartialEq, Eq, Structural)]
pub enum ValidationVerdict {
    Proceed,
    ProceedForced,
    Refuse,
}

/// The message of a release: the release notes, else the changelog under a
/// heading, else none.
pub open spec fn message_for(version: Seq<char>, notes: Option<Seq<char>>, changelog: Option<
    Seq<char>,
>) -> Option<Seq<char>> {
    match notes {
        Some(n) => Some(n),
        None => match changelog {
            Some(c) => Some("Changelog for v"@ + version + "\n\n"@ + c),
            None => None,
        },
    }
}

impl ReleaseCommand {
    /// What this command is for: a roll-back comes before the history, and
    /// the history before a release.
    pub fn mode(&self) -> (r: ReleaseMode)
        ensures
            match self.rollback {
                Some(v) => r matches ReleaseMode::Rollback { version } && version@ == v@,
                None => if self.history {
                    r == (ReleaseMode::History { limit: self.limit })
                } else {
                    r is Release
                },
            },
    {
        match &self.rollback {
            Some(v) => ReleaseMode::Rollback { version: v.clone() },
            None => if self.history {
                ReleaseMode::History { limit: self.limit }
            } else {
                ReleaseMode::Release
            },
        }
    }

    /// The options of the release pipeline. A release command never
    /// deploys.
    pub fn options(&self) -> (r: ReleaseOptions)
        ensures
            r == (ReleaseOptions {
                force: self.force,
                dry_run: self.dry_run,
                skip_validation: self.skip_validation,
                no_publish: self.no_publish,
                deploy: false,
            }),
    {
        ReleaseOptions {
            force: self.force,
            dry_run: self.dry_run,
            skip_validation: self.skip_validation,
            no_publish: self.no_publish,
            deploy: false,
        }
    }
}

impl PublishCommand {
    /// Where the version comes from: a named version comes before one that
    /// is worked out.
    pub fn version_source(&self) -> (r: PublishVersion)
        ensures
            match self.version {
                Some(v) => r matches PublishVersion::Explicit { version } && version@ == v@,
                None => if self.auto_version {
                    r is Automatic
                } else {
                    r is Missing
                },
            },
    {
        match &self.version {
            Some(v) => PublishVersion::Explicit { version: v.clone() },
            None => if self.auto_version {
                PublishVersion::Automatic
            } else {
                PublishVersion::Missing
            },
        }
    }

    /// The options of the release pipeline. A publication publishes the tag
    /// and deploys.
    pub fn options(&self) -> (r: ReleaseOptions)
        ensures
            r == (ReleaseOptions {
                force: self.force,
                dry_run: self.dry_run,
                skip_validation: self.skip_validation,
                no_publish: false,
                deploy: true,
            }),
    {
        ReleaseOptions {
            force: self.force,
            dry_run: self.dry_run,
            skip_validation: self.skip_validation,
            no_publish: false,
            deploy: true,
        }
    }

    /// The message of the release of `version`.
    pub fn release_message(version: &str, notes: Option<String>, changelog: Option<String>) -> (r:
        Option<String>)
        ensures
            opt_text(r) == message_for(version@, opt_text(notes), opt_text(changelog)),
    {
        match notes {
            Some(n) => Some(n),
            None => match changelog {
                Some(c) => {
                    let mut out = to_chars("Changelog for v");
                    append_str(&mut out, version);
                    append_str(&mut out, "\n\n");
                    append_str(&mut out, c.as_str());
                    Some(from_chars(&out))
                },
                None => None,
            },
        }
    }
}

impl DeployCommand {
    /// What to do about the outcome `validation` of the check of the
    /// configuration: a failure stops the deployment unless validation is
    /// skipped or the deployment forced.
    pub fn verdict(&self, validation: &Result<(), ConfigError>) -> (r: ValidationVerdict)
        ensures
            r == if self.skip_validation || validation is Ok {
                ValidationVerdict::Proceed
            } else if self.force {
                ValidationVerdict::ProceedForced
            } else {
                ValidationVerdict::Refuse
            },
    {
        if self.skip_validation {
            ValidationVerdict::Proceed
        } else {
            match validation {
                Ok(_) => ValidationVerdict::Proceed,
                Err(_) => if self.force {
                    ValidationVerdict::ProceedForced
                } else {
                    ValidationVerdict::Refuse
                },
            }
        }
    }
}

impl StatusCommand {
    /// Whether the summary of the repository is shown: when asked for, and
    /// when the releases are not asked for.
    pub fn shows_repository(&self) -> (r: bool)
        ensures
            r == (self.repository || !self.releases),
    {
        self.repository || !self.releases
    }
}

} // verus!
