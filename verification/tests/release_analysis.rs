use plugin_repository::analyzer::ReleaseAnalysis;
use plugin_repository::classifier::{ChangeAnalyzer, ImpactLevel};
use plugin_repository::history::{ChangeType, GitCommit};
use plugin_repository::version::VersionBump;

fn commit(short: &str, message: &str, insertions: u32, deletions: u32) -> GitCommit {
    GitCommit {
        hash: format!("{}0000", short),
        short_hash: short.to_string(),
        message: message.to_string(),
        author: "A".to_string(),
        email: "a@example.com".to_string(),
        date: 0,
        files_changed: 1,
        insertions,
        deletions,
    }
}

fn total(analysis: &ReleaseAnalysis) -> usize {
    let s = &analysis.change_summary;
    s.feature + s.fix + s.breaking + s.improvement + s.documentation + s.testing + s.refactoring
        + s.chore + s.other
}

#[test]
fn one_feature_three_fixes_one_chore() {
    let analyzer = ChangeAnalyzer::new("/tmp");
    let commits = vec![
        commit("a1", "feat: x", 1, 0),
        commit("a2", "fix: y", 1, 0),
        commit("a3", "fix: y", 1, 0),
        commit("a4", "fix: y", 1, 0),
        commit("a5", "chore: z", 1, 0),
    ];
    let analysis = analyzer.analyze_changes(Some("v1.0.0"), Some("HEAD"), &commits);
    assert_eq!(analysis.total_commits, 5);
    assert_eq!(analysis.change_summary.get(ChangeType::Feature), 1);
    assert_eq!(analysis.change_summary.get(ChangeType::Fix), 3);
    assert_eq!(analysis.change_summary.get(ChangeType::Chore), 1);
    assert_eq!(analysis.change_summary.get(ChangeType::Breaking), 0);
    assert_eq!(analysis.change_summary.get(ChangeType::Improvement), 0);
    assert_eq!(analysis.change_summary.get(ChangeType::Documentation), 0);
    assert_eq!(analysis.change_summary.get(ChangeType::Testing), 0);
    assert_eq!(analysis.change_summary.get(ChangeType::Refactoring), 0);
    assert_eq!(analysis.change_summary.get(ChangeType::Other), 0);
    assert!(matches!(analysis.recommended_version_bump, VersionBump::Minor));
    assert!(analysis.breaking_changes.is_empty());
    assert_eq!(analysis.confidence, 90);
    assert_eq!(analysis.version_from, "v1.0.0");
    assert_eq!(analysis.version_to, Some("HEAD".to_string()));
    assert_eq!(analysis.impact_distribution.get(ImpactLevel::Medium), 4);
    assert_eq!(analysis.impact_distribution.get(ImpactLevel::Low), 1);
}

#[test]
fn counts_add_up_to_the_number_of_commits() {
    let analyzer = ChangeAnalyzer::new("/tmp");
    let messages = [
        "feat: a", "fix: b", "whatever", "docs: c", "feat!: d", "test: e", "refactor: f",
        "improve: g", "chore: h", "", "merge", "исправлен баг", "new feature",
    ];
    for n in 0..=messages.len() {
        let commits: Vec<GitCommit> =
            messages[..n].iter().map(|m| commit("c", m, 0, 0)).collect();
        let analysis = analyzer.analyze_changes(None, None, &commits);
        assert_eq!(analysis.total_commits, n);
        assert_eq!(total(&analysis), n);
        let impacts = &analysis.impact_distribution;
        assert_eq!(impacts.low + impacts.medium + impacts.high + impacts.critical, n);
    }
}

#[test]
fn empty_range_is_analysed_too() {
    let analyzer = ChangeAnalyzer::new("/tmp");
    let analysis = analyzer.analyze_changes(None, None, &Vec::new());
    assert_eq!(analysis.total_commits, 0);
    assert_eq!(total(&analysis), 0);
    assert!(matches!(analysis.recommended_version_bump, VersionBump::Patch));
    assert_eq!(analysis.confidence, 0);
    assert_eq!(analysis.version_from, "HEAD");
    assert_eq!(analysis.version_to, None);
    assert!(analysis.breaking_changes.is_empty());
}

#[test]
fn breaking_commits_are_listed_and_call_for_major() {
    let analyzer = ChangeAnalyzer::new("/tmp");
    let commits = vec![
        commit("abc123", "feat!: remove deprecated API", 1, 0),
        commit("def456", "fix: y", 1, 0),
        commit("0a0b0c", "docs: deprecate old guide", 1, 0),
    ];
    let analysis = analyzer.analyze_changes(Some("v1"), None, &commits);
    assert_eq!(
        analysis.breaking_changes,
        vec![
            "abc123: feat!: remove deprecated API".to_string(),
            "0a0b0c: docs: deprecate old guide".to_string()
        ]
    );
    assert!(matches!(analysis.recommended_version_bump, VersionBump::Major));
    assert_eq!(analysis.change_summary.get(ChangeType::Breaking), 1);
    assert_eq!(analysis.change_summary.get(ChangeType::Documentation), 1);
    assert_eq!(analysis.impact_distribution.get(ImpactLevel::Critical), 1);
    assert_eq!(analysis.version_to, None);
}

#[test]
fn bump_is_major_exactly_when_something_breaks() {
    let analyzer = ChangeAnalyzer::new("/tmp");
    let sets: Vec<Vec<&str>> = vec![
        vec![],
        vec!["fix: a"],
        vec!["feat: a"],
        vec!["feat: a", "fix: b"],
        vec!["fix: remove x"],
        vec!["feat!: a"],
        vec!["docs: a", "chore: b"],
    ];
    for messages in sets {
        let commits: Vec<GitCommit> = messages.iter().map(|m| commit("c", m, 0, 0)).collect();
        let a = analyzer.analyze_changes(None, None, &commits);
        let breaks =
            !a.breaking_changes.is_empty() || a.change_summary.get(ChangeType::Breaking) > 0;
        let features = a.change_summary.get(ChangeType::Feature) > 0;
        assert_eq!(matches!(a.recommended_version_bump, VersionBump::Major), breaks);
        assert_eq!(matches!(a.recommended_version_bump, VersionBump::Minor), !breaks && features);
        assert_eq!(matches!(a.recommended_version_bump, VersionBump::Patch), !breaks && !features);
    }
}

#[test]
fn confidence_follows_the_share_of_classified_commits() {
    let analyzer = ChangeAnalyzer::new("/tmp");
    let build = |classified: usize, other: usize| {
        let mut commits = Vec::new();
        for _ in 0..classified {
            commits.push(commit("c", "fix: a", 0, 0));
        }
        for _ in 0..other {
            commits.push(commit("c", "misc", 0, 0));
        }
        analyzer.analyze_changes(None, None, &commits).confidence
    };
    assert_eq!(build(0, 0), 0);
    assert_eq!(build(10, 0), 90);
    assert_eq!(build(9, 1), 90);
    assert_eq!(build(8, 2), 70);
    assert_eq!(build(7, 3), 70);
    assert_eq!(build(6, 4), 50);
    assert_eq!(build(5, 5), 50);
    assert_eq!(build(4, 6), 30);
    assert_eq!(build(0, 3), 30);
    assert_eq!(build(1, 2), 30);
}

#[test]
fn analysis_confidence_is_computed_from_counts() {
    let analyzer = ChangeAnalyzer::new("/tmp");
    let mut summary = plugin_repository::analyzer::ChangeSummary::new();
    summary.insert(ChangeType::Fix, 69);
    summary.insert(ChangeType::Other, 31);
    assert_eq!(analyzer.calculate_analysis_confidence(&summary, 100), 50);
    summary.insert(ChangeType::Other, 30);
    summary.insert(ChangeType::Fix, 70);
    assert_eq!(analyzer.calculate_analysis_confidence(&summary, 100), 70);
}

#[test]
fn test_change_analysis() {
    let analyzer = ChangeAnalyzer::new("/tmp");
    let recent = vec![commit("abc", "feat: add test file", 1, 0)];
    let analysis = analyzer.get_recent_summary(&recent);
    assert_eq!(analysis.total_commits, 1);
    assert!(analysis.change_summary.contains_key(ChangeType::Feature));
}

#[test]
fn recent_summary_analyses_the_recent_commits() {
    let analyzer = ChangeAnalyzer::new("/tmp");
    let recent = vec![commit("new", "feat: b", 0, 0), commit("old", "fix: a", 0, 0)];
    let analysis = analyzer.get_recent_summary(&recent);
    assert_eq!(analysis.version_from, "old0000");
    assert_eq!(analysis.version_to, Some("HEAD".to_string()));
    assert_eq!(analysis.total_commits, 2);
    assert_eq!(analysis.change_summary.get(ChangeType::Feature), 1);
    assert_eq!(analysis.change_summary.get(ChangeType::Fix), 1);
    assert!(matches!(analysis.recommended_version_bump, VersionBump::Minor));
    let none = analyzer.get_recent_summary(&Vec::new());
    assert_eq!(none.total_commits, 0);
    assert_eq!(none.version_from, "HEAD");
    assert_eq!(none.version_to, None);
    assert_eq!(none.confidence, 0);
    assert!(matches!(none.recommended_version_bump, VersionBump::Patch));
}

#[test]
fn report_lists_what_occurs() {
    let analyzer = ChangeAnalyzer::new("/tmp");
    let commits = vec![
        commit("a1", "feat: x", 200, 0),
        commit("a2", "fix: y", 1, 0),
        commit("a3", "feat!: remove z", 1, 0),
    ];
    let analysis = analyzer.analyze_changes(Some("v1.0.0"), Some("HEAD"), &commits);
    let expected = "📊 Анализ изменений с v1.0.0 по HEAD\n\
📈 Всего коммитов: 3\n\
🎯 Уверенность анализа: 90.0%\n\
\n\
🏷️ Типы изменений:\n  💥 Критические изменения: 1\n  🚀 Новые возможности: 1\n  🐛 Исправления: 1\n\
\n\
📊 Уровень влияния:\n  🟡 Среднее: 1\n  🟠 Высокое: 1\n  🔴 Критическое: 1\n\
\n\
⚠️ Критические изменения:\n  • a3: feat!: remove z\n\
\n\
🚀 Рекомендуемое изменение версии: Major (x.0.0)\n";
    assert_eq!(analyzer.format_analysis(&analysis), expected);
}

#[test]
fn report_of_an_empty_range() {
    let analyzer = ChangeAnalyzer::new("/tmp");
    let analysis = analyzer.analyze_changes(None, None, &Vec::new());
    let expected = "📊 Анализ изменений с HEAD по HEAD\n📈 Всего коммитов: 0\n🎯 Уверенность анализа: 0.0%\n\n🏷️ Типы изменений:\n\n📊 Уровень влияния:\n\n🚀 Рекомендуемое изменение версии: Patch (0.0.x)\n";
    assert_eq!(analyzer.format_analysis(&analysis), expected);
}
