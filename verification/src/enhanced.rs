//! The changelog that is built from the history alone, in sections by kind
//! of change.

use vstd::prelude::*;
use crate::analyzer::{ChangeSummary, ReleaseAnalysis};
use crate::content::{
    count_changes, section_views, total_changes, ChangelogSection, GeneratedChangelog, SectionView,
};
use crate::error::strings;
use crate::history::{commit_records, kind_emoji, kind_name, ChangeType, CommitRecord, GitCommit};
use crate::number::{decimal_text, push_decimal};
use crate::report::display_order;
use crate::repository::{keyword_kind, keyword_kinds, kind_sections, push_kind_sections};
use crate::text::{append_str, from_chars, to_chars};

verus! {

/// The messages of the commits of kind `t`, in order.
pub open spec fn messages_of_kind(commits: Seq<CommitRecord>, t: ChangeType) -> Seq<Seq<char>>
    decreases commits.len(),
{
    if commits.len() == 0 {
        Seq::empty()
    } else if keyword_kind(commits.last()) == t {
        messages_of_kind(commits.drop_last(), t).push(commits.last().message)
    } else {
        messages_of_kind(commits.drop_last(), t)
    }
}

/// The sections of the kinds of `order` that have commits.
pub open spec fn enhanced_sections(commits: Seq<CommitRecord>, order: Seq<ChangeType>) -> Seq<
    SectionView,
>
    decreases order.len(),
{
    if order.len() == 0 {
        Seq::empty()
    } else {
        let t = order.last();
        let before = enhanced_sections(commits, order.drop_last());
        if messages_of_kind(commits, t).len() > 0 {
            before.push(
                SectionView {
                    title: kind_emoji(t) + " "@ + kind_name(t),
                    changes: messages_of_kind(commits, t),
                    emoji: kind_emoji(t),
                },
            )
        } else {
            before
        }
    }
}

/// One line for each kind of `order` that occurs in `summary`: its name
/// and its count.
pub open spec fn statistic_lines(summary: ChangeSummary, order: Seq<ChangeType>) -> Seq<char>
    decreases order.len(),
{
    if order.len() == 0 {
        Seq::empty()
    } else {
        let t = order.last();
        statistic_lines(summary, order.drop_last()) + if summary.count(t) > 0 {
            "- "@ + kind_name(t) + ": "@ + decimal_text(summary.count(t)) + "\n"@
        } else {
            Seq::empty()
        }
    }
}

/// The version that a changelog is for: the end of the analysed range, or
/// `latest`.
pub open spec fn target_version(a: ReleaseAnalysis) -> Seq<char> {
    match a.version_to {
        Some(v) => v@,
        None => "latest"@,
    }
}

/// The text of the changelog: heading, sections by kind, statistics.
pub open spec fn enhanced_text(a: ReleaseAnalysis, commits: Seq<CommitRecord>) -> Seq<char> {
    "## Изменения "@ + target_version(a) + "\n\n"@ + kind_sections(commits, display_order())
        + "---\n"@ + "**Статистика:** "@ + decimal_text(a.total_commits as nat) + " коммитов\n"@
        + statistic_lines(a.change_summary, display_order()) + (if a.breaking_changes@.len() > 0 {
        "\n**⚠️ Критические изменения:** "@ + decimal_text(a.breaking_changes@.len()) + "\n"@
    } else {
        Seq::empty()
    })
}

/// The messages of the commits of kind `t`.
pub(crate) fn collect_messages(commits: &Vec<GitCommit>, kinds: &Vec<ChangeType>, t: ChangeType) -> (r:
    Vec<String>)
    requires
        kinds.len() == commits.len(),
        forall|j: int| 0 <= j < commits.len() ==> kinds@[j] == keyword_kind(#[trigger] commits@[j]@),
    ensures
        strings(r@) == messages_of_kind(commit_records(commits@), t),
{
    let ghost records = commit_records(commits@);
    let mut out: Vec<String> = Vec::new();
    let mut i: usize = 0;
    assert(records.subrange(0, 0) =~= Seq::<CommitRecord>::empty());
    assert(strings(out@) =~= Seq::<Seq<char>>::empty());
    while i < commits.len()
        invariant
            i <= commits.len(),
            kinds.len() == commits.len(),
            records == commit_records(commits@),
            forall|j: int|
                0 <= j < commits.len() ==> kinds@[j] == keyword_kind(#[trigger] commits@[j]@),
            strings(out@) == messages_of_kind(records.subrange(0, i as int), t),
        decreases commits.len() - i,
    {
        let ghost before = records.subrange(0, i as int);
        let ghost after = records.subrange(0, i + 1);
        assert(after.drop_last() =~= before);
        assert(after.last() == commits@[i as int]@);
        if kinds[i] == t {
            let ghost prev = out@;
            let message = commits[i].message.clone();
            out.push(message);
            assert(strings(out@) =~= strings(prev).push(message@));
        }
        i = i + 1;
    }
    assert(records.subrange(0, commits.len() as int) =~= records);
    out
}

/// Appends the statistic lines of `summary`.
pub fn push_statistic_lines(out: &mut Vec<char>, summary: &ChangeSummary)
    ensures
        final(out)@ == old(out)@ + statistic_lines(*summary, display_order()),
{
    let order: Vec<ChangeType> = vec![
        ChangeType::Breaking,
        ChangeType::Feature,
        ChangeType::Fix,
        ChangeType::Improvement,
        ChangeType::Refactoring,
        ChangeType::Documentation,
        ChangeType::Testing,
        ChangeType::Chore,
        ChangeType::Other,
    ];
    assert(order@ =~= display_order());
    let mut i: usize = 0;
    assert(order@.subrange(0, 0) =~= Seq::<ChangeType>::empty());
    assert(out@ =~= old(out)@ + statistic_lines(*summary, order@.subrange(0, 0)));
    while i < order.len()
        invariant
            i <= order.len(),
            out@ == old(out)@ + statistic_lines(*summary, order@.subrange(0, i as int)),
        decreases order.len() - i,
    {
        assert(order@.subrange(0, i + 1).drop_last() =~= order@.subrange(0, i as int));
        let n = summary.get(order[i]);
        if n > 0 {
            append_str(out, "- ");
            append_str(out, order[i].name());
            append_str(out, ": ");
            push_decimal(out, n as u128);
            append_str(out, "\n");
        }
        assert(out@ =~= old(out)@ + statistic_lines(*summary, order@.subrange(0, i + 1)));
        i = i + 1;
    }
    assert(order@.subrange(0, order.len() as int) =~= order@);
}

/// The changelog of `commits`, whose analysis is `analysis`: its text, and
/// one section for each kind of change that occurs.
pub fn generate_enhanced_changelog(commits: &Vec<GitCommit>, analysis: &ReleaseAnalysis) -> (r:
    GeneratedChangelog)
    ensures
        r.version@ == target_version(*analysis),
        r.changelog@ == enhanced_text(*analysis, commit_records(commits@)),
        section_views(r.sections@) == enhanced_sections(commit_records(commits@), display_order()),
        r.total_changes == if total_changes(section_views(r.sections@)) > usize::MAX {
            usize::MAX as nat
        } else {
            total_changes(section_views(r.sections@))
        },
{
    let ghost records = commit_records(commits@);
    let kinds = keyword_kinds(commits);
    let version = match &analysis.version_to {
        Some(v) => v.clone(),
        None => "latest".to_owned(),
    };
    let mut out = to_chars("## Изменения ");
    append_str(&mut out, version.as_str());
    append_str(&mut out, "\n\n");
    push_kind_sections(&mut out, commits, &kinds);
    append_str(&mut out, "---\n");
    append_str(&mut out, "**Статистика:** ");
    push_decimal(&mut out, analysis.total_commits as u128);
    append_str(&mut out, " коммитов\n");
    push_statistic_lines(&mut out, &analysis.change_summary);
    if analysis.breaking_changes.len() > 0 {
        append_str(&mut out, "\n**⚠️ Критические изменения:** ");
        push_decimal(&mut out, analysis.breaking_changes.len() as u128);
        append_str(&mut out, "\n");
    }
    assert(out@ =~= enhanced_text(*analysis, records));
    let order: Vec<ChangeType> = vec![
        ChangeType::Breaking,
        ChangeType::Feature,
        ChangeType::Fix,
        ChangeType::Improvement,
        ChangeType::Refactoring,
        ChangeType::Documentation,
        ChangeType::Testing,
        ChangeType::Chore,
        ChangeType::Other,
    ];
    assert(order@ =~= display_order());
    let mut sections: Vec<ChangelogSection> = Vec::new();
    let mut i: usize = 0;
    assert(order@.subrange(0, 0) =~= Seq::<ChangeType>::empty());
    assert(section_views(sections@) =~= Seq::<SectionView>::empty());
    while i < order.len()
        invariant
            i <= order.len(),
            kinds.len() == commits.len(),
            records == commit_records(commits@),
            forall|j: int|
                0 <= j < commits.len() ==> kinds@[j] == keyword_kind(#[trigger] commits@[j]@),
            section_views(sections@) == enhanced_sections(records, order@.subrange(0, i as int)),
        decreases order.len() - i,
    {
        assert(order@.subrange(0, i + 1).drop_last() =~= order@.subrange(0, i as int));
        let t = order[i];
        let changes = collect_messages(commits, &kinds, t);
        if changes.len() > 0 {
            let mut title = to_chars(t.emoji());
            append_str(&mut title, " ");
            append_str(&mut title, t.name());
            let section = ChangelogSection {
                title: from_chars(&title),
                changes,
                emoji: t.emoji().to_owned(),
            };
            let ghost prev = sections@;
            sections.push(section);
            assert(section_views(sections@) =~= section_views(prev).push(section@));
        }
        i = i + 1;
    }
    assert(order@.subrange(0, order.len() as int) =~= order@);
    let total = count_changes(&sections);
    GeneratedChangelog { version, changelog: from_chars(&out), sections, total_changes: total }
}

} // verus!
