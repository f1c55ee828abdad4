//! Release management: the next version, the preparation of a release from
//! what was gathered, readiness, and the tag that marks a release.

use vstd::prelude::*;
use crate::analyzer::ReleaseAnalysis;
use crate::config::ProjectConfig;
use crate::error::{concat, strings, GitError};
use crate::history::{ChangeType, CommandOutput};
use crate::pattern::opt_text;
use crate::repository::GitRepository;
use crate::tags::{tag_names, tag_records, GitTag, GitTags, TagRecord};
use crate::text::{append_str, from_chars, starts_with_str, starts_with_text, to_chars, slice};
use crate::version::{
    core_text, lenient_parts, next_version, non_empty, parse_semver, push_core, read_lenient,
    resolve_version, semver_parts, suffix_text, VersionBump,
};

verus! {

/// Which part of a version a release raises.
#[derive(Debug, Clone, Copy, PartialEq, Eq, Structural)]
pub enum VersionType {
    Major,
    Minor,
    Patch,
    PreRelease,
}

/// A release that is being planned. `estimated_release_date` counts
/// seconds since the epoch.
#[derive(Debug, Clone)]
pub struct PlannedRelease {
    pub version: String,
    pub version_type: VersionType,
    pub changes_count: usize,
    pub breaking_changes: usize,
    pub estimated_release_date: i64,
    pub release_notes: Option<String>,
    pub changelog: Option<String>,
}

/// What the preparation of a release came to.
#[derive(Debug, Clone)]
pub struct ReleasePreparationResult {
    pub success: bool,
    pub release: PlannedRelease,
    pub warnings: Vec<String>,
    pub errors: Vec<String>,
    pub validation_issues: Vec<String>,
}

/// Whether a release may proceed, and what stands against it.
#[derive(Debug, Clone)]
pub struct ReleaseValidationResult {
    pub is_ready: bool,
    pub issues: Vec<String>,
    pub warnings: Vec<String>,
}

/// The state of the current release.
#[derive(Debug, Clone, Copy, PartialEq, Eq, Structural)]
pub enum ReleaseState {
    Draft,
    Ready,
    Published,
    Failed,
}

/// The release that is under way. The dates count seconds since the epoch.
#[derive(Debug, Clone)]
pub struct CurrentRelease {
    pub state: ReleaseState,
    pub version: Option<String>,
    pub created_at: i64,
    pub updated_at: i64,
    pub notes: Option<String>,
}

/// One past release.
#[derive(Debug, Clone)]
pub struct ReleaseInfo {
    pub version: String,
    pub tag: String,
    pub commit: String,
    pub date: i64,
    pub message: Option<String>,
    pub changes_count: usize,
}

/// The plugin that content is generated for.
#[derive(Debug, Clone)]
pub struct PluginInfo {
    pub name: String,
    pub id: String,
    pub version: String,
    pub description: Option<String>,
}

/// Release notes as the content generator structures them.
#[derive(Debug, Clone)]
pub struct GeneratedReleaseNotes {
    pub title: String,
    pub subtitle: String,
    pub highlights: Vec<String>,
    pub body: String,
    pub version: String,
}

/// The annotated tag to create for a release.
#[derive(Debug, Clone)]
pub struct TagRequest {
    pub name: String,
    pub message: String,
}

/// Why a tag could not be made or published.
#[derive(Debug, Clone)]
pub enum ReleaseError {
    /// The version has been released already.
    TagConflict { tag: String },
    /// A version-control command failed.
    CommandFailed { message: String },
}

/// Coordinates the releases of one project.
#[derive(Debug, Clone)]
pub struct ReleaseManager {
    pub git_repo: GitRepository,
    pub project_config: ProjectConfig,
}

/// The bump that a kind of version stands for.
pub open spec fn bump_of(t: VersionType) -> VersionBump {
    match t {
        VersionType::Major => VersionBump::Major,
        VersionType::Minor => VersionBump::Minor,
        _ => VersionBump::Patch,
    }
}

/// The version that follows `current` when a release raises `t`. A
/// pre-release keeps the numbers and becomes `alpha.1`; every other kind
/// follows the bump it stands for. A text that is no semantic version is
/// read leniently, number by number.
pub open spec fn raised(t: VersionType, current: Seq<char>) -> Seq<char> {
    match t {
        VersionType::PreRelease => match semver_parts(current) {
            Some(p) => core_text(p.0 as nat, p.1 as nat, p.2 as nat) + suffix_text(
                Some("alpha.1"@),
                non_empty(p.4),
            ),
            None => {
                let l = lenient_parts(current);
                core_text(l.0, l.1, l.2) + suffix_text(Some("alpha.1"@), None)
            },
        },
        _ => next_version(current, bump_of(t)),
    }
}

/// The kind of version that an analysis calls for: major when something
/// breaks, else minor when there is a feature, else patch.
pub open spec fn version_type_for(a: ReleaseAnalysis) -> VersionType {
    if a.breaking_changes@.len() > 0 || a.change_summary.count(ChangeType::Breaking) > 0 {
        VersionType::Major
    } else if a.change_summary.count(ChangeType::Feature) > 0 {
        VersionType::Minor
    } else {
        VersionType::Patch
    }
}

/// The version that the latest tag stands for: its name without a leading
/// `v`; `1.0.0` without a tag.
pub open spec fn current_version(latest: Option<TagRecord>) -> Seq<char> {
    match latest {
        Some(t) => if starts_with_text(t.name, "v"@) {
            t.name.subrange(1, t.name.len() as int)
        } else {
            t.name
        },
        None => "1.0.0"@,
    }
}

/// The view of an optional tag.
pub open spec fn opt_tag(t: Option<&GitTag>) -> Option<TagRecord> {
    match t {
        Some(tag) => Some(tag@),
        None => None,
    }
}

/// What blocks a release: no commit at all, and a working tree with
/// changes.
pub open spec fn readiness_issues(total_commits: nat, clean: bool) -> Seq<Seq<char>> {
    (if total_commits == 0 {
        seq!["Нет изменений для релиза"@]
    } else {
        Seq::empty()
    }) + (if clean {
        Seq::empty()
    } else {
        seq!["Рабочая директория Git не чиста"@]
    })
}

/// What is remarked upon without blocking a release: one or two commits
/// are few.
pub open spec fn readiness_warnings(total_commits: nat) -> Seq<Seq<char>> {
    if 0 < total_commits < 3 {
        seq!["Мало изменений для релиза (менее 3 коммитов)"@]
    } else {
        Seq::empty()
    }
}

/// A release is ready when it has commits and the working tree is clean:
/// when nothing blocks it.
pub open spec fn is_ready(total_commits: nat, clean: bool) -> bool {
    total_commits > 0 && clean
}

/// A release is ready exactly when no issue blocks it; few commits alone
/// never do.
pub proof fn law_ready_means_no_issue(total_commits: nat, clean: bool)
    ensures
        is_ready(total_commits, clean) <==> readiness_issues(total_commits, clean).len() == 0,
        clean && 0 < total_commits < 3 ==> readiness_issues(total_commits, clean).len() == 0
            && readiness_warnings(total_commits).len() == 1,
{
}

/// The highlights of release notes, one line each.
pub open spec fn highlight_lines(items: Seq<Seq<char>>) -> Seq<char>
    decreases items.len(),
{
    if items.len() == 0 {
        Seq::empty()
    } else {
        highlight_lines(items.drop_last()) + "- "@ + items.last() + "\n"@
    }
}

/// Release notes as Markdown: title, subtitle, highlights, body.
pub open spec fn notes_text(n: GeneratedReleaseNotes) -> Seq<char> {
    "# "@ + n.title@ + "\n\n"@ + (if n.subtitle@.len() > 0 {
        n.subtitle@ + "\n\n"@
    } else {
        Seq::empty()
    }) + (if n.highlights@.len() > 0 {
        "## Highlights\n"@ + highlight_lines(strings(n.highlights@)) + "\n"@
    } else {
        Seq::empty()
    }) + n.body@
}

/// The warnings of a preparation: release notes that could not be
/// generated, few commits, and a release that is not ready.
pub open spec fn preparation_warnings(
    notes: Result<String, String>,
    total_commits: nat,
    clean: bool,
) -> Seq<Seq<char>> {
    (match notes {
        Ok(_) => Seq::empty(),
        Err(e) => seq!["Предупреждение генерации release notes: "@ + e@],
    }) + readiness_warnings(total_commits) + (if is_ready(total_commits, clean) {
        Seq::empty()
    } else {
        seq!["Релиз имеет проблемы готовности"@]
    })
}

/// `r` is the outcome of preparing the release `planned` from the analysis
/// and the generated content. Only a changelog that could not be generated
/// makes the preparation fail; release notes that could not be generated
/// are a warning. The validation issues are those that block the release;
/// few commits are a warning.
pub open spec fn is_preparation_of(
    r: ReleasePreparationResult,
    planned: PlannedRelease,
    analysis: ReleaseAnalysis,
    changelog: Result<String, String>,
    notes: Result<String, String>,
    clean: bool,
) -> bool {
    &&& r.release.version == planned.version
    &&& r.release.version_type == planned.version_type
    &&& r.release.estimated_release_date == planned.estimated_release_date
    &&& r.release.changes_count == analysis.total_commits
    &&& r.release.breaking_changes == analysis.breaking_changes@.len()
    &&& r.success == (changelog is Ok)
    &&& match changelog {
        Ok(c) => r.release.changelog == Some(c) && r.errors@.len() == 0,
        Err(e) => r.release.changelog is None && strings(r.errors@) == seq![
            "Ошибка генерации changelog: "@ + e@,
        ],
    }
    &&& match notes {
        Ok(n) => r.release.release_notes == Some(n),
        Err(_) => r.release.release_notes is None,
    }
    &&& strings(r.validation_issues@) == readiness_issues(analysis.total_commits as nat, clean)
    &&& strings(r.warnings@) == preparation_warnings(notes, analysis.total_commits as nat, clean)
}

/// `r` is the release planned for the explicit version `v`.
pub open spec fn is_explicit_plan(r: PlannedRelease, v: String, now: i64) -> bool {
    r.version == v && r.version_type == VersionType::Patch && r.changes_count == 0
        && r.breaking_changes == 0 && r.estimated_release_date == now && r.release_notes is None
        && r.changelog is None
}

/// `r` is the release suggested by `analysis` after the tag `latest`.
pub open spec fn is_suggested_plan(
    r: PlannedRelease,
    analysis: ReleaseAnalysis,
    latest: Option<TagRecord>,
    now: i64,
) -> bool {
    r.version@ == next_version(current_version(latest), bump_of(version_type_for(analysis)))
        && r.version_type == version_type_for(analysis) && r.changes_count
        == analysis.total_commits && r.breaking_changes == analysis.breaking_changes@.len()
        && r.estimated_release_date == now && r.release_notes is None && r.changelog is None
}

impl VersionType {
    /// The version that follows `current`. It never fails: a text that is
    /// no semantic version is read leniently. A pre-release keeps the
    /// numbers and becomes `alpha.1`.
    pub fn increment(&self, current: &str) -> (r: Result<String, GitError>)
        ensures
            r matches Ok(v) && v@ == raised(*self, current@),
    {
        match self {
            VersionType::PreRelease => {
                let mut out: Vec<char> = Vec::new();
                match parse_semver(current) {
                    Ok(p) => {
                        push_core(&mut out, p.0 as u128, p.1 as u128, p.2 as u128);
                        append_str(&mut out, "-");
                        append_str(&mut out, "alpha.1");
                        if p.4.as_str().unicode_len() > 0 {
                            append_str(&mut out, "+");
                            append_str(&mut out, p.4.as_str());
                        }
                    },
                    Err(_) => {
                        let (major, minor, patch) = read_lenient(current);
                        push_core(&mut out, major as u128, minor as u128, patch as u128);
                        append_str(&mut out, "-");
                        append_str(&mut out, "alpha.1");
                    },
                }
                assert(out@ =~= raised(*self, current@));
                Ok(from_chars(&out))
            },
            _ => {
                let bump = self.as_bump();
                Ok(resolve_version(current, &bump))
            },
        }
    }

    /// The bump that this kind of version stands for.
    pub fn as_bump(&self) -> (r: VersionBump)
        ensures
            r == bump_of(*self),
    {
        match self {
            VersionType::Major => VersionBump::Major,
            VersionType::Minor => VersionBump::Minor,
            _ => VersionBump::Patch,
        }
    }

    /// The kind of version that `analysis` calls for.
    pub fn from_analysis(analysis: &ReleaseAnalysis) -> (r: Self)
        ensures
            r == version_type_for(*analysis),
    {
        if analysis.breaking_changes.len() > 0 || analysis.change_summary.contains_key(
            ChangeType::Breaking,
        ) {
            VersionType::Major
        } else if analysis.change_summary.contains_key(ChangeType::Feature) {
            VersionType::Minor
        } else {
            VersionType::Patch
        }
    }
}

impl ReleaseManager {
    /// A manager for the project `project_config` in the repository
    /// `git_repo`.
    pub fn new(git_repo: GitRepository, project_config: ProjectConfig) -> (r: Self)
        ensures
            r.git_repo == git_repo,
            r.project_config == project_config,
    {
        ReleaseManager { git_repo, project_config }
    }

    /// The release to suggest after the changes that `analysis` found since
    /// the tag `latest_tag`.
    pub fn suggest_next_version(
        &self,
        analysis: &ReleaseAnalysis,
        latest_tag: Option<&GitTag>,
        now: i64,
    ) -> (r: PlannedRelease)
        ensures
            is_suggested_plan(r, *analysis, opt_tag(latest_tag), now),
    {
        let version_type = VersionType::from_analysis(analysis);
        let current = match latest_tag {
            Some(tag) => {
                let name = to_chars(tag.name.as_str());
                if starts_with_str(&name, "v") {
                    proof {
                        reveal_strlit("v");
                    }
                    from_chars(&slice(&name, 1, name.len()))
                } else {
                    tag.name.clone()
                }
            },
            None => "1.0.0".to_owned(),
        };
        let version = resolve_version(current.as_str(), &version_type.as_bump());
        PlannedRelease {
            version,
            version_type,
            changes_count: analysis.total_commits,
            breaking_changes: analysis.breaking_changes.len(),
            estimated_release_date: now,
            release_notes: None,
            changelog: None,
        }
    }

    /// The release to prepare: the explicit version when one is given, else
    /// the suggested one.
    pub fn plan_release(
        &self,
        version: Option<String>,
        analysis: &ReleaseAnalysis,
        latest_tag: Option<&GitTag>,
        now: i64,
    ) -> (r: PlannedRelease)
        ensures
            match version {
                Some(v) => is_explicit_plan(r, v, now),
                None => is_suggested_plan(r, *analysis, opt_tag(latest_tag), now),
            },
    {
        match version {
            Some(v) => PlannedRelease {
                version: v,
                version_type: VersionType::Patch,
                changes_count: 0,
                breaking_changes: 0,
                estimated_release_date: now,
                release_notes: None,
                changelog: None,
            },
            None => self.suggest_next_version(analysis, latest_tag, now),
        }
    }

    /// What to ask release notes for: the changelog, or a remark that there
    /// is none, and the plugin.
    pub fn release_notes_request(&self, version: &str, changelog: &Option<String>) -> (r: (
        String,
        PluginInfo,
    ))
        ensures
            r.0@ == match *changelog {
                Some(c) => c@,
                None => "Нет изменений"@,
            },
            r.1.name@ == self.project_config.name@,
            r.1.id@ == self.project_config.id@,
            r.1.version@ == version@,
            opt_text(r.1.description) == Some("AI помощник для IntelliJ IDEA"@),
    {
        let content = match changelog {
            Some(c) => c.clone(),
            None => "Нет изменений".to_owned(),
        };
        (
            content,
            PluginInfo {
                name: self.project_config.name.clone(),
                id: self.project_config.id.clone(),
                version: version.to_owned(),
                description: Some("AI помощник для IntelliJ IDEA".to_owned()),
            },
        )
    }

    /// Release notes as Markdown.
    pub fn generate_release_notes(&self, notes: &GeneratedReleaseNotes) -> (r: String)
        ensures
            r@ == notes_text(*notes),
    {
        let mut out = to_chars("# ");
        append_str(&mut out, notes.title.as_str());
        append_str(&mut out, "\n\n");
        if notes.subtitle.as_str().unicode_len() > 0 {
            append_str(&mut out, notes.subtitle.as_str());
            append_str(&mut out, "\n\n");
        }
        if notes.highlights.len() > 0 {
            append_str(&mut out, "## Highlights\n");
            let ghost head = out@;
            let mut i: usize = 0;
            assert(strings(notes.highlights@).subrange(0, 0) =~= Seq::<Seq<char>>::empty());
            assert(out@ =~= head + highlight_lines(strings(notes.highlights@).subrange(0, 0)));
            while i < notes.highlights.len()
                invariant
                    i <= notes.highlights.len(),
                    out@ == head + highlight_lines(
                        strings(notes.highlights@).subrange(0, i as int),
                    ),
                decreases notes.highlights.len() - i,
            {
                let ghost before = strings(notes.highlights@).subrange(0, i as int);
                let ghost after = strings(notes.highlights@).subrange(0, i + 1);
                assert(after.drop_last() =~= before);
                assert(after.last() == notes.highlights@[i as int]@);
                append_str(&mut out, "- ");
                append_str(&mut out, notes.highlights[i].as_str());
                append_str(&mut out, "\n");
                assert(out@ =~= head + highlight_lines(after));
                i = i + 1;
            }
            assert(strings(notes.highlights@).subrange(0, notes.highlights.len() as int)
                =~= strings(notes.highlights@));
            append_str(&mut out, "\n");
        }
        append_str(&mut out, notes.body.as_str());
        assert(out@ =~= notes_text(*notes));
        from_chars(&out)
    }

    /// Whether the release may proceed, what blocks it, and what is only
    /// remarked upon.
    pub fn validate_release_readiness(&self, analysis: &ReleaseAnalysis, working_tree_clean: bool) -> (r:
        ReleaseValidationResult)
        ensures
            r.is_ready == is_ready(analysis.total_commits as nat, working_tree_clean),
            r.is_ready == (r.issues@.len() == 0),
            strings(r.issues@) == readiness_issues(
                analysis.total_commits as nat,
                working_tree_clean,
            ),
            strings(r.warnings@) == readiness_warnings(analysis.total_commits as nat),
    {
        let mut issues: Vec<String> = Vec::new();
        let mut warnings: Vec<String> = Vec::new();
        let mut ready = true;
        if analysis.total_commits == 0 {
            issues.push("Нет изменений для релиза".to_owned());
            ready = false;
        } else if analysis.total_commits < 3 {
            warnings.push("Мало изменений для релиза (менее 3 коммитов)".to_owned());
        }
        if !working_tree_clean {
            issues.push("Рабочая директория Git не чиста".to_owned());
            ready = false;
        }
        assert(strings(issues@) =~= readiness_issues(
            analysis.total_commits as nat,
            working_tree_clean,
        ));
        assert(strings(warnings@) =~= readiness_warnings(analysis.total_commits as nat));
        ReleaseValidationResult { is_ready: ready, issues, warnings }
    }

    /// Prepares the release `planned` from the analysis of the changes, the
    /// outcome of generating the changelog and the release notes, and the
    /// state of the working tree.
    pub fn prepare_release(
        &self,
        planned: PlannedRelease,
        analysis: &ReleaseAnalysis,
        changelog: Result<String, String>,
        release_notes: Result<String, String>,
        working_tree_clean: bool,
    ) -> (r: ReleasePreparationResult)
        ensures
            is_preparation_of(r, planned, *analysis, changelog, release_notes, working_tree_clean),
    {
        let mut release = planned;
        release.changes_count = analysis.total_commits;
        release.breaking_changes = analysis.breaking_changes.len();
        let mut warnings: Vec<String> = Vec::new();
        let mut errors: Vec<String> = Vec::new();
        let mut success = true;
        match changelog {
            Ok(c) => {
                release.changelog = Some(c);
            },
            Err(e) => {
                release.changelog = None;
                errors.push(concat("Ошибка генерации changelog: ", e.as_str()));
                success = false;
            },
        }
        match release_notes {
            Ok(n) => {
                release.release_notes = Some(n);
            },
            Err(e) => {
                release.release_notes = None;
                warnings.push(concat("Предупреждение генерации release notes: ", e.as_str()));
            },
        }
        let validation = self.validate_release_readiness(analysis, working_tree_clean);
        let ReleaseValidationResult { is_ready, issues, warnings: mut remarks } = validation;
        let ghost noted = warnings@;
        let ghost remarked = remarks@;
        warnings.append(&mut remarks);
        assert(strings(warnings@) =~= strings(noted) + strings(remarked));
        if !is_ready {
            warnings.push("Релиз имеет проблемы готовности".to_owned());
        }
        assert(strings(warnings@) =~= preparation_warnings(
            release_notes,
            analysis.total_commits as nat,
            working_tree_clean,
        ));
        assert(match changelog {
            Ok(c) => errors@.len() == 0,
            Err(e) => strings(errors@) =~= seq!["Ошибка генерации changelog: "@ + e@],
        });
        ReleasePreparationResult {
            success,
            release,
            warnings,
            errors,
            validation_issues: issues,
        }
    }

    /// The tag to create for `version`: `v` and the version, with `message`
    /// or a standard message. A version that has a tag already is refused.
    pub fn create_release(&self, version: &str, message: Option<String>, existing: &Vec<GitTag>) -> (r:
        Result<TagRequest, ReleaseError>)
        ensures
            tag_names(tag_records(existing@)).contains("v"@ + version@) ==> (r matches Err(
                ReleaseError::TagConflict { tag },
            ) && tag@ == "v"@ + version@),
            !tag_names(tag_records(existing@)).contains("v"@ + version@) ==> (r matches Ok(t)
                && t.name@ == "v"@ + version@ && t.message@ == match message {
                Some(m) => m@,
                None => "Release v"@ + version@,
            }),
    {
        let name = concat("v", version);
        if GitTags::tag_exists(version, existing) {
            return Err(ReleaseError::TagConflict { tag: name });
        }
        let message = match message {
            Some(m) => m,
            None => concat("Release v", version),
        };
        Ok(TagRequest { name, message })
    }

    /// The name of the tag that a finished `git tag` created, or the error
    /// that its failure amounts to.
    pub fn tag_created(&self, version: &str, output: &CommandOutput) -> (r: Result<
        String,
        ReleaseError,
    >)
        ensures
            output.success ==> (r matches Ok(name) && name@ == "v"@ + version@),
            !output.success ==> (r matches Err(ReleaseError::CommandFailed { message })
                && message@ == "Git ошибка создания тега: "@ + output.stderr@),
    {
        if output.success {
            Ok(concat("v", version))
        } else {
            Err(
                ReleaseError::CommandFailed {
                    message: concat("Git ошибка создания тега: ", output.stderr.as_str()),
                },
            )
        }
    }

    /// The arguments of the `git` command that publishes the tag of
    /// `version`.
    pub fn publish_release(&self, version: &str) -> (r: Vec<String>)
        ensures
            strings(r@) == seq!["push"@, "origin"@, "v"@ + version@],
    {
        let mut args: Vec<String> = Vec::new();
        args.push("push".to_owned());
        args.push("origin".to_owned());
        args.push(concat("v", version));
        assert(strings(args@) =~= seq!["push"@, "origin"@, "v"@ + version@]);
        args
    }

    /// What a finished `git push` of a tag amounts to. A failed push leaves
    /// the tag where it is.
    pub fn tag_published(&self, output: &CommandOutput) -> (r: Result<(), ReleaseError>)
        ensures
            output.success ==> r is Ok,
            !output.success ==> (r matches Err(ReleaseError::CommandFailed { message })
                && message@ == "Git ошибка пуша тега: "@ + output.stderr@),
    {
        if output.success {
            Ok(())
        } else {
            Err(
                ReleaseError::CommandFailed {
                    message: concat("Git ошибка пуша тега: ", output.stderr.as_str()),
                },
            )
        }
    }

    /// The `git` commands that take a release back: the tag is deleted here
    /// and on the remote. Their outcome does not matter: a tag that is not
    /// there is as good as deleted.
    pub fn rollback_release(&self, version: &str) -> (r: (Vec<String>, Vec<String>))
        ensures
            strings(r.0@) == seq!["tag"@, "-d"@, "v"@ + version@],
            strings(r.1@) == seq!["push"@, "origin"@, "--delete"@, "v"@ + version@],
    {
        let mut local: Vec<String> = Vec::new();
        local.push("tag".to_owned());
        local.push("-d".to_owned());
        local.push(concat("v", version));
        assert(strings(local@) =~= seq!["tag"@, "-d"@, "v"@ + version@]);
        let mut remote: Vec<String> = Vec::new();
        remote.push("push".to_owned());
        remote.push("origin".to_owned());
        remote.push("--delete".to_owned());
        remote.push(concat("v", version));
        assert(strings(remote@) =~= seq!["push"@, "origin"@, "--delete"@, "v"@ + version@]);
        (local, remote)
    }

    /// The latest releases, newest first: the first `limit` of `tags`, each
    /// with the number of commits made since, taken from `commits_since` (0
    /// where the number is not known).
    pub fn get_release_history(
        &self,
        tags: &Vec<GitTag>,
        limit: Option<usize>,
        commits_since: &Vec<Option<usize>>,
    ) -> (r: Vec<ReleaseInfo>)
        ensures
            r@.len() == history_length(tags@.len(), limit),
            forall|i: int|
                0 <= i < r@.len() ==> is_history_entry(
                    #[trigger] r@[i],
                    tags@[i]@,
                    known_count(commits_since@, i),
                ),
    {
        let n = match limit {
            Some(l) => if l < tags.len() {
                l
            } else {
                tags.len()
            },
            None => tags.len(),
        };
        let mut out: Vec<ReleaseInfo> = Vec::new();
        let mut i: usize = 0;
        while i < n
            invariant
                i <= n <= tags.len(),
                out.len() == i,
                forall|j: int|
                    0 <= j < i ==> is_history_entry(
                        #[trigger] out@[j],
                        tags@[j]@,
                        known_count(commits_since@, j),
                    ),
            decreases n - i,
        {
            let tag = &tags[i];
            let count = if i < commits_since.len() {
                match commits_since[i] {
                    Some(c) => c,
                    None => 0,
                }
            } else {
                0
            };
            out.push(
                ReleaseInfo {
                    version: tag.name.clone(),
                    tag: tag.name.clone(),
                    commit: tag.commit_hash.clone(),
                    date: tag.date,
                    message: Some(tag.commit_message.clone()),
                    changes_count: count,
                },
            );
            i = i + 1;
        }
        out
    }
}

/// How many releases a history of `tags` tags shows under `limit`.
pub open spec fn history_length(tags: nat, limit: Option<usize>) -> nat {
    match limit {
        Some(l) => if l < tags {
            l as nat
        } else {
            tags
        },
        None => tags,
    }
}

/// The number of commits since tag `i`, 0 where it is not known.
pub open spec fn known_count(commits_since: Seq<Option<usize>>, i: int) -> usize {
    if 0 <= i < commits_since.len() {
        match commits_since[i] {
            Some(c) => c,
            None => 0,
        }
    } else {
        0
    }
}

/// `r` tells of the release that `tag` marks.
pub open spec fn is_history_entry(r: ReleaseInfo, tag: TagRecord, count: usize) -> bool {
    r.version@ == tag.name && r.tag@ == tag.name && r.commit@ == tag.commit_hash && r.date
        == tag.date && opt_text(r.message) == Some(tag.commit_message) && r.changes_count == count
}

} // verus!
