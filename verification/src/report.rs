//! The console report of a release analysis.

use vstd::prelude::*;
use crate::analyzer::{ChangeSummary, ImpactDistribution, ReleaseAnalysis};
use crate::classifier::{ChangeAnalyzer, ImpactLevel};
use crate::error::strings;
use crate::history::{kind_emoji, kind_name, ChangeType};
use crate::number::{decimal_text, push_decimal};
use crate::text::{append_str, from_chars};
use crate::version::VersionBump;

verus! {

/// The order in which kinds of change are shown.
pub open spec fn display_order() -> Seq<ChangeType> {
    seq![
        ChangeType::Breaking,
        ChangeType::Feature,
        ChangeType::Fix,
        ChangeType::Improvement,
        ChangeType::Refactoring,
        ChangeType::Documentation,
        ChangeType::Testing,
        ChangeType::Chore,
        ChangeType::Other,
    ]
}

/// The order in which impacts are shown.
pub open spec fn impact_order() -> Seq<ImpactLevel> {
    seq![ImpactLevel::Low, ImpactLevel::Medium, ImpactLevel::High, ImpactLevel::Critical]
}

/// The pictogram shown for an impact.
pub open spec fn impact_emoji(l: ImpactLevel) -> Seq<char> {
    match l {
        ImpactLevel::Low => "🟢"@,
        ImpactLevel::Medium => "🟡"@,
        ImpactLevel::High => "🟠"@,
        ImpactLevel::Critical => "🔴"@,
    }
}

/// The name shown for an impact.
pub open spec fn impact_name(l: ImpactLevel) -> Seq<char> {
    match l {
        ImpactLevel::Low => "Низкое"@,
        ImpactLevel::Medium => "Среднее"@,
        ImpactLevel::High => "Высокое"@,
        ImpactLevel::Critical => "Критическое"@,
    }
}

/// The name shown for a bump.
pub open spec fn bump_name(b: VersionBump) -> Seq<char> {
    match b {
        VersionBump::Patch => "Patch (0.0.x)"@,
        VersionBump::Minor => "Minor (0.x.0)"@,
        VersionBump::Major => "Major (x.0.0)"@,
        VersionBump::Custom(v) => v@,
    }
}

/// One report line: two blanks, pictogram, name, colon, count.
pub open spec fn count_line(emoji: Seq<char>, name: Seq<char>, count: nat) -> Seq<char> {
    "  "@ + emoji + " "@ + name + ": "@ + decimal_text(count) + "\n"@
}

/// The lines for the kinds of `order` that occur in `summary`.
pub open spec fn kind_lines(summary: ChangeSummary, order: Seq<ChangeType>) -> Seq<char>
    decreases order.len(),
{
    if order.len() == 0 {
        Seq::empty()
    } else {
        let t = order.last();
        kind_lines(summary, order.drop_last()) + if summary.count(t) > 0 {
            count_line(kind_emoji(t), kind_name(t), summary.count(t))
        } else {
            Seq::empty()
        }
    }
}

/// The lines for the impacts of `order` that occur in `dist`.
pub open spec fn impact_lines(dist: ImpactDistribution, order: Seq<ImpactLevel>) -> Seq<char>
    decreases order.len(),
{
    if order.len() == 0 {
        Seq::empty()
    } else {
        let l = order.last();
        impact_lines(dist, order.drop_last()) + if dist.count(l) > 0 {
            count_line(impact_emoji(l), impact_name(l), dist.count(l))
        } else {
            Seq::empty()
        }
    }
}

/// One bullet line for each of `items`.
pub open spec fn bullet_lines(items: Seq<Seq<char>>) -> Seq<char>
    decreases items.len(),
{
    if items.len() == 0 {
        Seq::empty()
    } else {
        bullet_lines(items.drop_last()) + "  • "@ + items.last() + "\n"@
    }
}

/// The section on breaking changes; empty when there are none.
pub open spec fn breaking_section(items: Seq<Seq<char>>) -> Seq<char> {
    if items.len() > 0 {
        "\n⚠️ Критические изменения:\n"@ + bullet_lines(items)
    } else {
        Seq::empty()
    }
}

/// The head of the report: range, number of commits, confidence.
pub open spec fn report_head(a: ReleaseAnalysis) -> Seq<char> {
    "📊 Анализ изменений с "@ + a.version_from@ + " по "@ + (match a.version_to {
        Some(t) => t@,
        None => "HEAD"@,
    }) + "\n"@ + "📈 Всего коммитов: "@ + decimal_text(a.total_commits as nat) + "\n"@
        + "🎯 Уверенность анализа: "@ + decimal_text(a.confidence as nat) + ".0%\n\n"@
}

/// The whole report on an analysis.
pub open spec fn report_text(a: ReleaseAnalysis) -> Seq<char> {
    report_head(a) + "🏷️ Типы изменений:\n"@ + kind_lines(a.change_summary, display_order())
        + "\n📊 Уровень влияния:\n"@ + impact_lines(a.impact_distribution, impact_order())
        + breaking_section(strings(a.breaking_changes@))
        + "\n🚀 Рекомендуемое изменение версии: "@ + bump_name(a.recommended_version_bump)
        + "\n"@
}

/// Appends one report line.
pub fn push_count_line(out: &mut Vec<char>, emoji: &str, name: &str, count: usize)
    ensures
        final(out)@ == old(out)@ + count_line(emoji@, name@, count as nat),
{
    append_str(out, "  ");
    append_str(out, emoji);
    append_str(out, " ");
    append_str(out, name);
    append_str(out, ": ");
    push_decimal(out, count as u128);
    append_str(out, "\n");
    assert(out@ =~= old(out)@ + count_line(emoji@, name@, count as nat));
}

/// The pictogram shown for an impact.
pub fn emoji_of_impact(l: ImpactLevel) -> (r: &'static str)
    ensures
        r@ == impact_emoji(l),
{
    match l {
        ImpactLevel::Low => "🟢",
        ImpactLevel::Medium => "🟡",
        ImpactLevel::High => "🟠",
        ImpactLevel::Critical => "🔴",
    }
}

/// The name shown for an impact.
pub fn name_of_impact(l: ImpactLevel) -> (r: &'static str)
    ensures
        r@ == impact_name(l),
{
    match l {
        ImpactLevel::Low => "Низкое",
        ImpactLevel::Medium => "Среднее",
        ImpactLevel::High => "Высокое",
        ImpactLevel::Critical => "Критическое",
    }
}

/// Appends the lines for the kinds that occur in `summary`.
pub fn push_kind_lines(out: &mut Vec<char>, summary: &ChangeSummary)
    ensures
        final(out)@ == old(out)@ + kind_lines(*summary, display_order()),
{
    let order: Vec<ChangeType> = vec![
        ChangeType::Breaking,
        ChangeType::Feature,
        ChangeType::Fix,
        ChangeType::Improvement,
        ChangeType::Refactoring,
        ChangeType::Documentation,
        ChangeType::Testing,
        ChangeType::Chore,
        ChangeType::Other,
    ];
    assert(order@ =~= display_order());
    let mut i: usize = 0;
    assert(order@.subrange(0, 0) =~= Seq::<ChangeType>::empty());
    assert(out@ =~= old(out)@ + kind_lines(*summary, order@.subrange(0, 0)));
    while i < order.len()
        invariant
            i <= order.len(),
            out@ == old(out)@ + kind_lines(*summary, order@.subrange(0, i as int)),
        decreases order.len() - i,
    {
        let t = order[i];
        assert(order@.subrange(0, i + 1).drop_last() =~= order@.subrange(0, i as int));
        let n = summary.get(t);
        if n > 0 {
            push_count_line(out, t.emoji(), t.name(), n);
        }
        assert(out@ =~= old(out)@ + kind_lines(*summary, order@.subrange(0, i + 1)));
        i = i + 1;
    }
    assert(order@.subrange(0, order.len() as int) =~= order@);
}

/// Appends the lines for the impacts that occur in `dist`.
pub fn push_impact_lines(out: &mut Vec<char>, dist: &ImpactDistribution)
    ensures
        final(out)@ == old(out)@ + impact_lines(*dist, impact_order()),
{
    let order: Vec<ImpactLevel> = vec![
        ImpactLevel::Low,
        ImpactLevel::Medium,
        ImpactLevel::High,
        ImpactLevel::Critical,
    ];
    assert(order@ =~= impact_order());
    let mut i: usize = 0;
    assert(order@.subrange(0, 0) =~= Seq::<ImpactLevel>::empty());
    assert(out@ =~= old(out)@ + impact_lines(*dist, order@.subrange(0, 0)));
    while i < order.len()
        invariant
            i <= order.len(),
            out@ == old(out)@ + impact_lines(*dist, order@.subrange(0, i as int)),
        decreases order.len() - i,
    {
        let l = order[i];
        assert(order@.subrange(0, i + 1).drop_last() =~= order@.subrange(0, i as int));
        let n = dist.get(l);
        if n > 0 {
            push_count_line(out, emoji_of_impact(l), name_of_impact(l), n);
        }
        assert(out@ =~= old(out)@ + impact_lines(*dist, order@.subrange(0, i + 1)));
        i = i + 1;
    }
    assert(order@.subrange(0, order.len() as int) =~= order@);
}

/// Appends one bullet line for each of `items`.
pub fn push_bullet_lines(out: &mut Vec<char>, items: &Vec<String>)
    ensures
        final(out)@ == old(out)@ + bullet_lines(strings(items@)),
{
    let mut i: usize = 0;
    assert(strings(items@).subrange(0, 0) =~= Seq::<Seq<char>>::empty());
    assert(out@ =~= old(out)@ + bullet_lines(strings(items@).subrange(0, 0)));
    while i < items.len()
        invariant
            i <= items.len(),
            out@ == old(out)@ + bullet_lines(strings(items@).subrange(0, i as int)),
        decreases items.len() - i,
    {
        let ghost before = strings(items@).subrange(0, i as int);
        let ghost after = strings(items@).subrange(0, i + 1);
        assert(after.drop_last() =~= before);
        assert(after.last() == items@[i as int]@);
        append_str(out, "  • ");
        append_str(out, items[i].as_str());
        append_str(out, "\n");
        assert(out@ =~= old(out)@ + bullet_lines(after));
        i = i + 1;
    }
    assert(strings(items@).subrange(0, items.len() as int) =~= strings(items@));
}

/// Appends the head of the report.
pub fn push_report_head(out: &mut Vec<char>, a: &ReleaseAnalysis)
    ensures
        final(out)@ == old(out)@ + report_head(*a),
{
    append_str(out, "📊 Анализ изменений с ");
    append_str(out, a.version_from.as_str());
    append_str(out, " по ");
    match &a.version_to {
        Some(t) => append_str(out, t.as_str()),
        None => append_str(out, "HEAD"),
    }
    append_str(out, "\n");
    append_str(out, "📈 Всего коммитов: ");
    push_decimal(out, a.total_commits as u128);
    append_str(out, "\n");
    append_str(out, "🎯 Уверенность анализа: ");
    push_decimal(out, a.confidence as u128);
    append_str(out, ".0%\n\n");
    assert(out@ =~= old(out)@ + report_head(*a));
}

impl ChangeAnalyzer {
    /// The report on `analysis` for the console: range, totals, the kinds
    /// and impacts that occur, the breaking changes and the recommended bump.
    pub fn format_analysis(&self, analysis: &ReleaseAnalysis) -> (r: String)
        ensures
            r@ == report_text(*analysis),
    {
        let mut out: Vec<char> = Vec::new();
        push_report_head(&mut out, analysis);
        append_str(&mut out, "🏷️ Типы изменений:\n");
        push_kind_lines(&mut out, &analysis.change_summary);
        append_str(&mut out, "\n📊 Уровень влияния:\n");
        push_impact_lines(&mut out, &analysis.impact_distribution);
        if analysis.breaking_changes.len() > 0 {
            append_str(&mut out, "\n⚠️ Критические изменения:\n");
            push_bullet_lines(&mut out, &analysis.breaking_changes);
        }
        append_str(&mut out, "\n🚀 Рекомендуемое изменение версии: ");
        match &analysis.recommended_version_bump {
            VersionBump::Patch => append_str(&mut out, "Patch (0.0.x)"),
            VersionBump::Minor => append_str(&mut out, "Minor (0.x.0)"),
            VersionBump::Major => append_str(&mut out, "Major (x.0.0)"),
            VersionBump::Custom(v) => append_str(&mut out, v.as_str()),
        }
        append_str(&mut out, "\n");
        assert(out@ =~= report_text(*analysis));
        from_chars(&out)
    }
}

} // verus!
