//! How ready a release is: a score from the analysis of its changes, the
//! level that the score stands for, and what to do about it.
//!
//! Scores are held in thousandths, confidence in percent.

use vstd::prelude::*;
use crate::analyzer::{ChangeSummary, ReleaseAnalysis};
use crate::content::{GeneratedChangelog, VersionAnalysis};
use crate::error::strings;
use crate::history::{ChangeType, GitCommit};
use crate::number::{decimal_text, push_decimal};
use crate::releaser::GeneratedReleaseNotes;
use crate::report::display_order;
use crate::text::{append_str, from_chars, to_chars};
use crate::version::{next_version, resolve_version, VersionBump};

verus! {

/// How ready a release is.
#[derive(Debug, Clone, Copy, PartialEq, Eq, Structural)]
pub enum ReadinessLevel {
    Ready,
    ReadyWithConcerns,
    NeedsAttention,
    NotReady,
}

/// The report on the readiness of a release.
#[derive(Debug, Clone)]
pub struct ReadinessReport {
    pub version: String,
    pub readiness_level: ReadinessLevel,
    /// In thousandths.
    pub readiness_score: u32,
    pub has_breaking_changes: bool,
    /// In thousandths.
    pub complexity_score: u32,
    pub has_tests: bool,
    pub has_docs: bool,
    pub recommendations: Vec<String>,
    pub analysis_summary: String,
}

/// The figures of a release.
#[derive(Debug, Clone)]
pub struct ReleaseSummary {
    pub current_version: String,
    pub new_version: String,
    pub total_commits: u32,
    pub change_summary: ChangeSummary,
    pub breaking_changes_count: usize,
    /// In percent.
    pub confidence: u32,
    /// In thousandths.
    pub readiness_score: u32,
}

/// Everything that is generated for a release.
#[derive(Debug, Clone)]
pub struct ReleasePackage {
    pub version: String,
    pub changelog: GeneratedChangelog,
    pub release_notes: GeneratedReleaseNotes,
    pub version_analysis: VersionAnalysis,
    pub release_summary: ReleaseSummary,
    pub commits_analyzed: Vec<GitCommit>,
}

/// The pictogram of a level.
pub open spec fn level_emoji(l: ReadinessLevel) -> Seq<char> {
    match l {
        ReadinessLevel::Ready => "✅"@,
        ReadinessLevel::ReadyWithConcerns => "⚠️"@,
        ReadinessLevel::NeedsAttention => "🔶"@,
        ReadinessLevel::NotReady => "🔴"@,
    }
}

/// The name of a level.
pub open spec fn level_name(l: ReadinessLevel) -> Seq<char> {
    match l {
        ReadinessLevel::Ready => "Готов к релизу"@,
        ReadinessLevel::ReadyWithConcerns => "Готов с замечаниями"@,
        ReadinessLevel::NeedsAttention => "Требует внимания"@,
        ReadinessLevel::NotReady => "Не готов к релизу"@,
    }
}

/// The base of the readiness score, in tenths: five, less three for
/// breaking changes, plus two for tests, plus one each for documentation
/// and refactoring, less one for more than twenty commits.
pub open spec fn base_tenths(a: ReleaseAnalysis) -> int {
    5 - (if a.breaking_changes@.len() > 0 {
        3int
    } else {
        0int
    }) + (if a.change_summary.count(ChangeType::Testing) > 0 {
        2int
    } else {
        0int
    }) + (if a.change_summary.count(ChangeType::Documentation) > 0 {
        1int
    } else {
        0int
    }) + (if a.change_summary.count(ChangeType::Refactoring) > 0 {
        1int
    } else {
        0int
    }) - (if a.total_commits > 20 {
        1int
    } else {
        0int
    })
}

/// `x`, held between `low` and `high`.
pub open spec fn clamped(x: int, low: int, high: int) -> int {
    if x < low {
        low
    } else if x > high {
        high
    } else {
        x
    }
}

/// The readiness score, in thousandths: the base weighted by the
/// confidence in the analysis, the rest of the weight on three tenths.
pub open spec fn readiness_score(a: ReleaseAnalysis) -> int {
    clamped(base_tenths(a) * a.confidence + (100 - a.confidence) * 3, 0, 1000)
}

/// The complexity of the changes, in thousandths: three tenths for each
/// breaking change, one tenth for each feature, two hundredths for each
/// commit beyond ten, five hundredths for each refactoring; at most one.
pub open spec fn complexity_score(a: ReleaseAnalysis) -> int {
    clamped(
        a.breaking_changes@.len() * 300 + a.change_summary.count(ChangeType::Feature) * 100 + (
        if a.total_commits > 10 {
            (a.total_commits - 10) * 20
        } else {
            0
        }) + a.change_summary.count(ChangeType::Refactoring) * 50,
        0,
        1000,
    )
}

/// The level that a readiness score, in thousandths, stands for.
pub open spec fn level_of(score: int) -> ReadinessLevel {
    if score >= 900 {
        ReadinessLevel::Ready
    } else if score >= 700 {
        ReadinessLevel::ReadyWithConcerns
    } else if score >= 500 {
        ReadinessLevel::NeedsAttention
    } else {
        ReadinessLevel::NotReady
    }
}

/// What to do before the release, in order.
pub open spec fn recommendations_for(a: ReleaseAnalysis) -> Seq<Seq<char>> {
    (if a.breaking_changes@.len() > 0 {
        seq!["Обновите миграционную документацию для breaking changes"@]
    } else {
        Seq::empty()
    }) + (if a.change_summary.count(ChangeType::Testing) == 0 && a.total_commits > 5 {
        seq!["Рассмотрите добавление тестов для новых функций"@]
    } else {
        Seq::empty()
    }) + (if a.change_summary.count(ChangeType::Documentation) == 0 && a.change_summary.count(
        ChangeType::Feature,
    ) > 0 {
        seq!["Добавьте документацию для новых функций"@]
    } else {
        Seq::empty()
    }) + (if complexity_score(a) > 800 {
        seq!["Высокая сложность изменений - рассмотрите поэтапный релиз"@]
    } else {
        Seq::empty()
    })
}

/// The sentence that sums an analysis up.
pub open spec fn summary_text(a: ReleaseAnalysis) -> Seq<char> {
    "Анализ "@ + decimal_text(a.total_commits as nat) + " коммитов с уверенностью "@
        + decimal_text(a.confidence as nat) + ".0%"@
}

/// The reasons for a suggested version.
pub open spec fn reasoning_for(a: ReleaseAnalysis) -> Seq<char> {
    match a.recommended_version_bump {
        VersionBump::Major => "Обнаружены "@ + decimal_text(a.breaking_changes@.len())
            + " критических изменений. Требуется обновление MAJOR версии."@,
        VersionBump::Minor => "Добавлено "@ + decimal_text(
            a.change_summary.count(ChangeType::Feature),
        ) + " новых функций. Рекомендуется обновление MINOR версии."@,
        VersionBump::Patch => "Исправлено "@ + decimal_text(a.change_summary.count(ChangeType::Fix))
            + " ошибок. Достаточно обновления PATCH версии."@,
        VersionBump::Custom(_) => "Использована кастомная версия"@,
    }
}

/// The name of a kind of change in code.
pub open spec fn kind_label(t: ChangeType) -> Seq<char> {
    match t {
        ChangeType::Feature => "Feature"@,
        ChangeType::Fix => "Fix"@,
        ChangeType::Breaking => "Breaking"@,
        ChangeType::Improvement => "Improvement"@,
        ChangeType::Documentation => "Documentation"@,
        ChangeType::Testing => "Testing"@,
        ChangeType::Refactoring => "Refactoring"@,
        ChangeType::Chore => "Chore"@,
        ChangeType::Other => "Other"@,
    }
}

/// The labels of the kinds of `order` that occur in `summary`.
pub open spec fn occurring_labels(summary: ChangeSummary, order: Seq<ChangeType>) -> Seq<Seq<char>>
    decreases order.len(),
{
    if order.len() == 0 {
        Seq::empty()
    } else if summary.count(order.last()) > 0 {
        occurring_labels(summary, order.drop_last()).push(kind_label(order.last()))
    } else {
        occurring_labels(summary, order.drop_last())
    }
}

impl ReadinessLevel {
    /// The pictogram of this level.
    pub fn emoji(&self) -> (r: &'static str)
        ensures
            r@ == level_emoji(*self),
    {
        match self {
            ReadinessLevel::Ready => "✅",
            ReadinessLevel::ReadyWithConcerns => "⚠️",
            ReadinessLevel::NeedsAttention => "🔶",
            ReadinessLevel::NotReady => "🔴",
        }
    }

    /// The name of this level.
    pub fn name(&self) -> (r: &'static str)
        ensures
            r@ == level_name(*self),
    {
        match self {
            ReadinessLevel::Ready => "Готов к релизу",
            ReadinessLevel::ReadyWithConcerns => "Готов с замечаниями",
            ReadinessLevel::NeedsAttention => "Требует внимания",
            ReadinessLevel::NotReady => "Не готов к релизу",
        }
    }
}

/// The readiness score of a release, in thousandths.
pub fn calculate_readiness_score(analysis: &ReleaseAnalysis) -> (r: u32)
    ensures
        r == readiness_score(*analysis),
{
    let mut tenths: i128 = 5;
    if analysis.breaking_changes.len() > 0 {
        tenths = tenths - 3;
    }
    if analysis.change_summary.contains_key(ChangeType::Testing) {
        tenths = tenths + 2;
    }
    if analysis.change_summary.contains_key(ChangeType::Documentation) {
        tenths = tenths + 1;
    }
    if analysis.change_summary.contains_key(ChangeType::Refactoring) {
        tenths = tenths + 1;
    }
    if analysis.total_commits > 20 {
        tenths = tenths - 1;
    }
    assert(tenths == base_tenths(*analysis));
    let confidence: i128 = analysis.confidence as i128;
    assert(-10 <= tenths <= 10);
    assert(tenths * confidence <= 10 * confidence && tenths * confidence >= -10 * confidence)
        by (nonlinear_arith)
        requires
            -10 <= tenths <= 10,
            confidence >= 0,
    ;
    let score: i128 = tenths * confidence + (100 - confidence) * 3;
    if score < 0 {
        0
    } else if score > 1000 {
        1000
    } else {
        score as u32
    }
}

/// The complexity of the changes of a release, in thousandths.
pub fn calculate_complexity_score(analysis: &ReleaseAnalysis) -> (r: u32)
    ensures
        r == complexity_score(*analysis),
{
    let breaking: u128 = analysis.breaking_changes.len() as u128;
    let features: u128 = analysis.change_summary.get(ChangeType::Feature) as u128;
    let refactors: u128 = analysis.change_summary.get(ChangeType::Refactoring) as u128;
    let beyond: u128 = if analysis.total_commits > 10 {
        (analysis.total_commits - 10) as u128
    } else {
        0
    };
    let score: u128 = breaking * 300 + features * 100 + beyond * 20 + refactors * 50;
    if score > 1000 {
        1000
    } else {
        score as u32
    }
}

/// The report on the readiness of the release `version`.
pub fn analyze_release_readiness(analysis: &ReleaseAnalysis, version: &str) -> (r: ReadinessReport)
    ensures
        r.version@ == version@,
        r.readiness_score == readiness_score(*analysis),
        r.readiness_level == level_of(readiness_score(*analysis)),
        r.complexity_score == complexity_score(*analysis),
        r.has_breaking_changes == (analysis.breaking_changes@.len() > 0),
        r.has_tests == (analysis.change_summary.count(ChangeType::Testing) > 0),
        r.has_docs == (analysis.change_summary.count(ChangeType::Documentation) > 0),
        strings(r.recommendations@) == recommendations_for(*analysis),
        r.analysis_summary@ == summary_text(*analysis),
{
    let has_breaking_changes = analysis.breaking_changes.len() > 0;
    let complexity = calculate_complexity_score(analysis);
    let has_tests = analysis.change_summary.contains_key(ChangeType::Testing);
    let has_docs = analysis.change_summary.contains_key(ChangeType::Documentation);
    let score = calculate_readiness_score(analysis);
    let level = if score >= 900 {
        ReadinessLevel::Ready
    } else if score >= 700 {
        ReadinessLevel::ReadyWithConcerns
    } else if score >= 500 {
        ReadinessLevel::NeedsAttention
    } else {
        ReadinessLevel::NotReady
    };
    let mut recommendations: Vec<String> = Vec::new();
    if has_breaking_changes {
        recommendations.push("Обновите миграционную документацию для breaking changes".to_owned());
    }
    if !has_tests && analysis.total_commits > 5 {
        recommendations.push("Рассмотрите добавление тестов для новых функций".to_owned());
    }
    if !has_docs && analysis.change_summary.contains_key(ChangeType::Feature) {
        recommendations.push("Добавьте документацию для новых функций".to_owned());
    }
    if complexity > 800 {
        recommendations.push("Высокая сложность изменений - рассмотрите поэтапный релиз".to_owned());
    }
    assert(strings(recommendations@) =~= recommendations_for(*analysis));
    let mut summary = to_chars("Анализ ");
    push_decimal(&mut summary, analysis.total_commits as u128);
    append_str(&mut summary, " коммитов с уверенностью ");
    push_decimal(&mut summary, analysis.confidence as u128);
    append_str(&mut summary, ".0%");
    assert(summary@ =~= summary_text(*analysis));
    ReadinessReport {
        version: version.to_owned(),
        readiness_level: level,
        readiness_score: score,
        has_breaking_changes,
        complexity_score: complexity,
        has_tests,
        has_docs,
        recommendations,
        analysis_summary: from_chars(&summary),
    }
}

/// The name of a kind of change in code.
pub fn label_of(t: ChangeType) -> (r: &'static str)
    ensures
        r@ == kind_label(t),
{
    match t {
        ChangeType::Feature => "Feature",
        ChangeType::Fix => "Fix",
        ChangeType::Breaking => "Breaking",
        ChangeType::Improvement => "Improvement",
        ChangeType::Documentation => "Documentation",
        ChangeType::Testing => "Testing",
        ChangeType::Refactoring => "Refactoring",
        ChangeType::Chore => "Chore",
        ChangeType::Other => "Other",
    }
}

/// The labels of the kinds that occur in `summary`, in the order in which
/// kinds are shown.
pub fn labels_of(summary: &ChangeSummary) -> (r: Vec<String>)
    ensures
        strings(r@) == occurring_labels(*summary, display_order()),
{
    let order: Vec<ChangeType> = vec![
        ChangeType::Breaking,
        ChangeType::Feature,
        ChangeType::Fix,
        ChangeType::Improvement,
        ChangeType::Refactoring,
        ChangeType::Documentation,
        ChangeType::Testing,
        ChangeType::Chore,
        ChangeType::Other,
    ];
    assert(order@ =~= display_order());
    let mut out: Vec<String> = Vec::new();
    let mut i: usize = 0;
    assert(order@.subrange(0, 0) =~= Seq::<ChangeType>::empty());
    assert(strings(out@) =~= Seq::<Seq<char>>::empty());
    while i < order.len()
        invariant
            i <= order.len(),
            strings(out@) == occurring_labels(*summary, order@.subrange(0, i as int)),
        decreases order.len() - i,
    {
        assert(order@.subrange(0, i + 1).drop_last() =~= order@.subrange(0, i as int));
        if summary.get(order[i]) > 0 {
            let ghost before = out@;
            let label = label_of(order[i]).to_owned();
            out.push(label);
            assert(strings(out@) =~= strings(before).push(label@));
        }
        i = i + 1;
    }
    assert(order@.subrange(0, order.len() as int) =~= order@);
    out
}

/// The version to suggest after `current_version`, with the reasons that
/// the analysis gives.
pub fn suggest_semantic_version(analysis: &ReleaseAnalysis, current_version: &str) -> (r:
    VersionAnalysis)
    ensures
        r.suggested_version@ == next_version(current_version@, analysis.recommended_version_bump),
        r.reasoning@ == reasoning_for(*analysis),
        r.confidence == analysis.confidence,
        strings(r.change_types@) == occurring_labels(analysis.change_summary, display_order()),
{
    let version = resolve_version(current_version, &analysis.recommended_version_bump);
    let reasoning = match &analysis.recommended_version_bump {
        VersionBump::Major => {
            let mut out = to_chars("Обнаружены ");
            push_decimal(&mut out, analysis.breaking_changes.len() as u128);
            append_str(&mut out, " критических изменений. Требуется обновление MAJOR версии.");
            from_chars(&out)
        },
        VersionBump::Minor => {
            let mut out = to_chars("Добавлено ");
            push_decimal(&mut out, analysis.change_summary.get(ChangeType::Feature) as u128);
            append_str(&mut out, " новых функций. Рекомендуется обновление MINOR версии.");
            from_chars(&out)
        },
        VersionBump::Patch => {
            let mut out = to_chars("Исправлено ");
            push_decimal(&mut out, analysis.change_summary.get(ChangeType::Fix) as u128);
            append_str(&mut out, " ошибок. Достаточно обновления PATCH версии.");
            from_chars(&out)
        },
        VersionBump::Custom(_) => "Использована кастомная версия".to_owned(),
    };
    VersionAnalysis {
        suggested_version: version,
        reasoning,
        confidence: analysis.confidence,
        change_types: labels_of(&analysis.change_summary),
    }
}

/// Everything that was generated for the release after `current_version`,
/// with the figures of the release.
pub fn generate_release_package(
    analysis: &ReleaseAnalysis,
    commits: Vec<GitCommit>,
    current_version: &str,
    version_analysis: VersionAnalysis,
    changelog: GeneratedChangelog,
    release_notes: GeneratedReleaseNotes,
) -> (r: ReleasePackage)
    ensures
        r.version@ == version_analysis.suggested_version@,
        r.changelog == changelog,
        r.release_notes == release_notes,
        r.version_analysis == version_analysis,
        r.commits_analyzed == commits,
        r.release_summary.current_version@ == current_version@,
        r.release_summary.new_version@ == version_analysis.suggested_version@,
        r.release_summary.total_commits == analysis.total_commits as u32,
        r.release_summary.change_summary == analysis.change_summary,
        r.release_summary.breaking_changes_count == analysis.breaking_changes@.len(),
        r.release_summary.confidence == analysis.confidence,
        r.release_summary.readiness_score == readiness_score(*analysis),
{
    let summary = ReleaseSummary {
        current_version: current_version.to_owned(),
        new_version: version_analysis.suggested_version.clone(),
        total_commits: #[verifier::truncate]
        (analysis.total_commits as u32),
        change_summary: analysis.change_summary,
        breaking_changes_count: analysis.breaking_changes.len(),
        confidence: analysis.confidence,
        readiness_score: calculate_readiness_score(analysis),
    };
    ReleasePackage {
        version: version_analysis.suggested_version.clone(),
        changelog,
        release_notes,
        version_analysis,
        release_summary: summary,
        commits_analyzed: commits,
    }
}

} // verus!
