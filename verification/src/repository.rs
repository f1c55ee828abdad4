//! One repository seen as a whole: the grouped changelog of a range, the
//! next version, and what to fetch for a release.

use vstd::prelude::*;
use std::time::Duration;
use crate::analyzer::ReleaseAnalysis;
use crate::classifier::ChangeAnalyzer;
use crate::error::{
    strings, GitError, GitErrorHandler, GitOperationResult, GitValidator, ValidationResult,
};
use crate::history::{
    changelog_line, commit_records, kind_emoji, kind_name, message_type, opt_str,
    push_changelog_line, ChangeType, CommitRecord, GitCommit, GitHistory,
};
use crate::number::{decimal_text, push_decimal};
use crate::report::display_order;
use crate::split::{join, join_text, texts};
use crate::tags::{GitTag, GitTags};
use crate::text::{append, append_str, from_chars, lowercase_of, to_chars};
use crate::version::{next_version, resolve_version};

verus! {

/// The parts of the tooling that work on one repository.
#[derive(Debug, Clone)]
pub struct GitRepository {
    pub path: String,
    pub history: GitHistory,
    pub tags: GitTags,
    pub analyzer: ChangeAnalyzer,
    pub error_handler: GitErrorHandler,
    pub validator: GitValidator,
}

/// Figures on a repository.
#[derive(Debug, Clone)]
pub struct RepositoryStats {
    pub total_commits: u32,
    pub total_tags: u32,
    pub recent_commits: u32,
    pub last_analysis: ReleaseAnalysis,
    pub repository_path: String,
    pub is_healthy: bool,
}

/// Which commits make up the changes since the last release.
#[derive(Debug, Clone)]
pub enum ChangesQuery {
    /// The commits after the tag `from`, up to `HEAD`.
    SinceTag { from: String },
    /// The latest `limit` commits: there is no tag yet.
    Recent { limit: u32 },
}

/// The heading of a changelog for the range from `from` to `to`.
pub open spec fn changelog_heading(from: Option<Seq<char>>, to: Option<Seq<char>>) -> Seq<char> {
    match (from, to) {
        (Some(f), Some(t)) => "## Изменения с "@ + f + " по "@ + t + "\n\n"@,
        (None, Some(t)) => "## Изменения для "@ + t + "\n\n"@,
        _ => "## Последние изменения\n\n"@,
    }
}

/// The kind of a commit by the keywords of its message.
pub open spec fn keyword_kind(c: CommitRecord) -> ChangeType {
    message_type(lowercase_of(c.message))
}

/// The changelog lines of the commits of kind `t`, in order.
pub open spec fn entries_of_kind(commits: Seq<CommitRecord>, t: ChangeType) -> Seq<char>
    decreases commits.len(),
{
    if commits.len() == 0 {
        Seq::empty()
    } else {
        entries_of_kind(commits.drop_last(), t) + if keyword_kind(commits.last()) == t {
            changelog_line(commits.last())
        } else {
            Seq::empty()
        }
    }
}

/// The section of kind `t`: heading, lines, blank line; nothing at all
/// without a commit of that kind.
pub open spec fn kind_section(commits: Seq<CommitRecord>, t: ChangeType) -> Seq<char> {
    let e = entries_of_kind(commits, t);
    if e.len() > 0 {
        "### "@ + kind_emoji(t) + " "@ + kind_name(t) + "\n\n"@ + e + "\n"@
    } else {
        Seq::empty()
    }
}

/// The sections of the kinds of `order`, in that order.
pub open spec fn kind_sections(commits: Seq<CommitRecord>, order: Seq<ChangeType>) -> Seq<char>
    decreases order.len(),
{
    if order.len() == 0 {
        Seq::empty()
    } else {
        kind_sections(commits, order.drop_last()) + kind_section(commits, order.last())
    }
}

/// The closing statistics of a changelog.
pub open spec fn changelog_footer(commits: nat, breaking: nat) -> Seq<char> {
    "---\n"@ + "**Статистика:** "@ + decimal_text(commits) + " коммитов\n"@ + if breaking > 0 {
        "**⚠️ Критических изменений:** "@ + decimal_text(breaking) + "\n"@
    } else {
        Seq::empty()
    }
}

/// The changelog of a release: heading, one section for each kind of change
/// that occurs, statistics.
pub open spec fn release_changelog(
    from: Option<Seq<char>>,
    to: Option<Seq<char>>,
    commits: Seq<CommitRecord>,
    breaking: nat,
) -> Seq<char> {
    changelog_heading(from, to) + kind_sections(commits, display_order()) + changelog_footer(
        commits.len(),
        breaking,
    )
}

/// The kind of each commit by the keywords of its message.
pub fn keyword_kinds(commits: &Vec<GitCommit>) -> (kinds: Vec<ChangeType>)
    ensures
        kinds.len() == commits.len(),
        forall|j: int| 0 <= j < commits.len() ==> kinds@[j] == keyword_kind(#[trigger] commits@[j]@),
{
    let mut kinds: Vec<ChangeType> = Vec::new();
    let mut k: usize = 0;
    while k < commits.len()
        invariant
            k <= commits.len(),
            kinds.len() == k,
            forall|j: int| 0 <= j < k ==> kinds@[j] == keyword_kind(#[trigger] commits@[j]@),
        decreases commits.len() - k,
    {
        kinds.push(ChangeType::from_message(commits[k].message.as_str()));
        k = k + 1;
    }
    kinds
}

/// Appends the sections of all kinds, in the order in which kinds are shown.
pub(crate) fn push_kind_sections(out: &mut Vec<char>, commits: &Vec<GitCommit>, kinds: &Vec<ChangeType>)
    requires
        kinds.len() == commits.len(),
        forall|j: int| 0 <= j < commits.len() ==> kinds@[j] == keyword_kind(#[trigger] commits@[j]@),
    ensures
        final(out)@ == old(out)@ + kind_sections(commit_records(commits@), display_order()),
{
    let ghost records = commit_records(commits@);
    let order: Vec<ChangeType> = vec![
        ChangeType::Breaking,
        ChangeType::Feature,
        ChangeType::Fix,
        ChangeType::Improvement,
        ChangeType::Refactoring,
        ChangeType::Documentation,
        ChangeType::Testing,
        ChangeType::Chore,
        ChangeType::Other,
    ];
    assert(order@ =~= display_order());
    let ghost head = out@;
    let mut i: usize = 0;
    assert(order@.subrange(0, 0) =~= Seq::<ChangeType>::empty());
    assert(out@ =~= head + kind_sections(records, order@.subrange(0, 0)));
    while i < order.len()
        invariant
            i <= order.len(),
            kinds.len() == commits.len(),
            records == commit_records(commits@),
            forall|j: int|
                0 <= j < commits.len() ==> kinds@[j] == keyword_kind(#[trigger] commits@[j]@),
            out@ == head + kind_sections(records, order@.subrange(0, i as int)),
        decreases order.len() - i,
    {
        assert(order@.subrange(0, i + 1).drop_last() =~= order@.subrange(0, i as int));
        push_kind_section(out, commits, kinds, order[i]);
        assert(out@ =~= head + kind_sections(records, order@.subrange(0, i + 1)));
        i = i + 1;
    }
    assert(order@.subrange(0, order.len() as int) =~= order@);
}

/// The changelog lines of the commits of kind `t`.
pub(crate) fn collect_entries(commits: &Vec<GitCommit>, kinds: &Vec<ChangeType>, t: ChangeType) -> (r:
    Vec<char>)
    requires
        kinds.len() == commits.len(),
        forall|j: int| 0 <= j < commits.len() ==> kinds@[j] == keyword_kind(#[trigger] commits@[j]@),
    ensures
        r@ == entries_of_kind(commit_records(commits@), t),
{
    let ghost records = commit_records(commits@);
    let mut out: Vec<char> = Vec::new();
    let mut i: usize = 0;
    assert(records.subrange(0, 0) =~= Seq::<CommitRecord>::empty());
    while i < commits.len()
        invariant
            i <= commits.len(),
            kinds.len() == commits.len(),
            records == commit_records(commits@),
            forall|j: int|
                0 <= j < commits.len() ==> kinds@[j] == keyword_kind(#[trigger] commits@[j]@),
            out@ == entries_of_kind(records.subrange(0, i as int), t),
        decreases commits.len() - i,
    {
        let ghost before = records.subrange(0, i as int);
        let ghost after = records.subrange(0, i + 1);
        assert(after.drop_last() =~= before);
        assert(after.last() == commits@[i as int]@);
        if kinds[i] == t {
            push_changelog_line(&mut out, &commits[i]);
        }
        assert(out@ =~= entries_of_kind(after, t));
        i = i + 1;
    }
    assert(records.subrange(0, commits.len() as int) =~= records);
    out
}

/// Appends the section of kind `t`.
pub(crate) fn push_kind_section(
    out: &mut Vec<char>,
    commits: &Vec<GitCommit>,
    kinds: &Vec<ChangeType>,
    t: ChangeType,
)
    requires
        kinds.len() == commits.len(),
        forall|j: int| 0 <= j < commits.len() ==> kinds@[j] == keyword_kind(#[trigger] commits@[j]@),
    ensures
        final(out)@ == old(out)@ + kind_section(commit_records(commits@), t),
{
    let entries = collect_entries(commits, kinds, t);
    if entries.len() > 0 {
        append_str(out, "### ");
        append_str(out, t.emoji());
        append_str(out, " ");
        append_str(out, t.name());
        append_str(out, "\n\n");
        append(out, &entries);
        append_str(out, "\n");
    }
    assert(out@ =~= old(out)@ + kind_section(commit_records(commits@), t));
}

impl GitRepository {
    /// The tooling for the repository at `repository_path`.
    pub fn new(repository_path: &str) -> (r: Self)
        ensures
            r.path@ == repository_path@,
            r.history.repository_path@ == repository_path@,
            r.tags.repository_path@ == repository_path@,
            r.analyzer.repository_path@ == repository_path@,
            r.error_handler.repository_path@ == repository_path@,
            r.validator.repository_path@ == repository_path@,
    {
        GitRepository {
            path: repository_path.to_owned(),
            history: GitHistory::new(repository_path),
            tags: GitTags::new(repository_path),
            analyzer: ChangeAnalyzer::new(repository_path),
            error_handler: GitErrorHandler::new(repository_path),
            validator: GitValidator::new(repository_path),
        }
    }

    /// Which commits make up the changes since the last release: those
    /// after the latest tag, or the latest twenty when there is no tag.
    pub fn get_changes_since_last_release(&self, latest_tag: Option<&GitTag>) -> (r: ChangesQuery)
        ensures
            match latest_tag {
                Some(tag) => r matches ChangesQuery::SinceTag { from } && from@ == tag.name@,
                None => r == (ChangesQuery::Recent { limit: 20 }),
            },
    {
        match latest_tag {
            Some(tag) => ChangesQuery::SinceTag { from: tag.name.clone() },
            None => ChangesQuery::Recent { limit: 20 },
        }
    }

    /// The changelog of the range from `from_tag` to `to_tag`: its commits
    /// grouped by kind of change, then the statistics. `breaking` is the
    /// number of breaking changes that the analysis of the range found.
    pub fn generate_changelog(
        &self,
        from_tag: Option<&str>,
        to_tag: Option<&str>,
        commits: &Vec<GitCommit>,
        breaking: usize,
    ) -> (r: String)
        ensures
            r@ == release_changelog(
                opt_str(from_tag),
                opt_str(to_tag),
                commit_records(commits@),
                breaking as nat,
            ),
    {
        let ghost records = commit_records(commits@);
        let mut out: Vec<char> = Vec::new();
        match (from_tag, to_tag) {
            (Some(f), Some(t)) => {
                append_str(&mut out, "## Изменения с ");
                append_str(&mut out, f);
                append_str(&mut out, " по ");
                append_str(&mut out, t);
                append_str(&mut out, "\n\n");
            },
            (None, Some(t)) => {
                append_str(&mut out, "## Изменения для ");
                append_str(&mut out, t);
                append_str(&mut out, "\n\n");
            },
            _ => {
                append_str(&mut out, "## Последние изменения\n\n");
            },
        }
        assert(out@ =~= changelog_heading(opt_str(from_tag), opt_str(to_tag)));
        let kinds = keyword_kinds(commits);
        push_kind_sections(&mut out, commits, &kinds);
        append_str(&mut out, "---\n");
        append_str(&mut out, "**Статистика:** ");
        push_decimal(&mut out, commits.len() as u128);
        append_str(&mut out, " коммитов\n");
        if breaking > 0 {
            append_str(&mut out, "**⚠️ Критических изменений:** ");
            push_decimal(&mut out, breaking as u128);
            append_str(&mut out, "\n");
        }
        assert(out@ =~= release_changelog(
            opt_str(from_tag),
            opt_str(to_tag),
            records,
            breaking as nat,
        ));
        from_chars(&out)
    }

    /// The version that follows `current_version`, given the analysis of the
    /// changes since the last release.
    pub fn suggest_next_version(&self, current_version: &str, analysis: &ReleaseAnalysis) -> (r:
        String)
        ensures
            r@ == next_version(current_version@, analysis.recommended_version_bump),
    {
        resolve_version(current_version, &analysis.recommended_version_bump)
    }

    /// Concludes an operation that ran after the repository was validated:
    /// an invalid repository fails it with the issues found; else the
    /// outcome is recorded or classified.
    pub fn safe_execute_operation<T>(
        &self,
        validation: &ValidationResult,
        outcome: Result<T, String>,
        operation_name: &str,
        commit_count: usize,
        execution_time: Duration,
    ) -> (r: Result<GitOperationResult<T>, GitError>)
        ensures
            !validation.is_valid ==> (r matches Err(GitError::InternalError { message })
                && message@ == "Валидация репозитория не пройдена: "@ + join_text(
                strings(validation.issues@),
                ", "@,
            )),
            validation.is_valid ==> crate::error::is_conclusion(
                r,
                self.error_handler.repository_path@,
                outcome,
                operation_name@,
                commit_count as nat,
                execution_time,
            ),
    {
        if !validation.is_valid {
            let mut parts: Vec<Vec<char>> = Vec::new();
            let mut i: usize = 0;
            while i < validation.issues.len()
                invariant
                    i <= validation.issues.len(),
                    parts.len() == i,
                    forall|j: int| 0 <= j < i ==> (#[trigger] parts@[j])@ == validation.issues@[j]@,
                decreases validation.issues.len() - i,
            {
                parts.push(to_chars(validation.issues[i].as_str()));
                i = i + 1;
            }
            assert(texts(parts@) =~= strings(validation.issues@));
            let mut message = to_chars("Валидация репозитория не пройдена: ");
            let sep = to_chars(", ");
            append(&mut message, &join(&parts, &sep));
            return Err(GitError::InternalError { message: from_chars(&message) });
        }
        self.error_handler.safe_execute(outcome, operation_name, commit_count, execution_time)
    }

    /// The figures on the repository.
    pub fn get_repository_stats(
        &self,
        total_commits: u32,
        total_tags: u32,
        last_analysis: ReleaseAnalysis,
        is_healthy: bool,
    ) -> (r: RepositoryStats)
        ensures
            r.total_commits == total_commits,
            r.total_tags == total_tags,
            r.recent_commits == last_analysis.total_commits as u32,
            r.last_analysis == last_analysis,
            r.repository_path@ == self.path@,
            r.is_healthy == is_healthy,
    {
        RepositoryStats {
            total_commits,
            total_tags,
            recent_commits: #[verifier::truncate]
            (last_analysis.total_commits as u32),
            last_analysis,
            repository_path: self.path.clone(),
            is_healthy,
        }
    }
}

} // verus!
