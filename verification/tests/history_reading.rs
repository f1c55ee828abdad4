use plugin_repository::error::GitError;
use plugin_repository::history::{ChangeType, CommandOutput, GitCommit, GitHistory};

fn sample_log() -> String {
    [
        "abc123def|abc123d|feat: add thing|Alice|alice@example.com|2024-01-15 10:30:00 +0300",
        "10\t2\tsrc/a.rs",
        "-\t-\timage.png",
        "",
        "def456abc|def456a|fix: bug|Bob|bob@example.com|2024-01-14T08:00:00+00:00",
        "3\t1\tsrc/b.rs",
        "   ",
        "0123456|0123|chore: odd date|Carol|carol@example.com|yesterday",
    ]
    .join("\n")
}

#[test]
fn log_is_read_commit_by_commit() {
    let history = GitHistory::new("/repo");
    let commits = history.parse_git_log(&sample_log(), 42);
    assert_eq!(commits.len(), 3);

    assert_eq!(commits[0].hash, "abc123def");
    assert_eq!(commits[0].short_hash, "abc123d");
    assert_eq!(commits[0].message, "feat: add thing");
    assert_eq!(commits[0].author, "Alice");
    assert_eq!(commits[0].email, "alice@example.com");
    assert_eq!(commits[0].date, 1705303800);
    assert_eq!(commits[0].files_changed, 2);
    assert_eq!(commits[0].insertions, 10);
    assert_eq!(commits[0].deletions, 2);

    assert_eq!(commits[1].hash, "def456abc");
    assert_eq!(commits[1].date, 1705219200);
    assert_eq!(commits[1].files_changed, 1);
    assert_eq!(commits[1].insertions, 3);
    assert_eq!(commits[1].deletions, 1);

    assert_eq!(commits[2].message, "chore: odd date");
    assert_eq!(commits[2].date, 42);
    assert_eq!(commits[2].files_changed, 0);
}

#[test]
fn empty_log_has_no_commits() {
    let history = GitHistory::new("/repo");
    assert!(history.parse_git_log("", 0).is_empty());
    assert!(history.parse_git_log("\n\n  \n", 0).is_empty());
    assert!(history.parse_git_log("10\t2\tsrc/a.rs\n", 0).is_empty());
}

#[test]
fn header_needs_six_columns() {
    let history = GitHistory::new("/repo");
    let commits = history.parse_git_log("a|b|c|d|e\n1\t1\tf\n", 0);
    assert!(commits.is_empty());
    let commits = history.parse_git_log("h|s|m with | bar|a|e|2024-01-14T08:00:00+00:00|x", 7);
    assert_eq!(commits.len(), 1);
    assert_eq!(commits[0].message, "m with ");
    assert_eq!(commits[0].author, " bar");
    assert_eq!(commits[0].email, "a");
    assert_eq!(commits[0].date, 7);
}

#[test]
fn carriage_returns_before_line_feeds_are_dropped() {
    let history = GitHistory::new("/repo");
    let commits =
        history.parse_git_log("h|s|m|a|e|2024-01-14T08:00:00+00:00\r\n5\t6\tf\r\n", 0);
    assert_eq!(commits.len(), 1);
    assert_eq!(commits[0].date, 1705219200);
    assert_eq!((commits[0].insertions, commits[0].deletions), (5, 6));
}

#[test]
fn line_counts_stop_at_the_largest_value() {
    let history = GitHistory::new("/repo");
    let log = "h|s|m|a|e|2024-01-14T08:00:00+00:00\n4294967295\t1\tf\n7\t4294967295\tg\n";
    let commits = history.parse_git_log(log, 0);
    assert_eq!(commits[0].insertions, 4294967295);
    assert_eq!(commits[0].deletions, 4294967295);
    assert_eq!(commits[0].files_changed, 2);
}

#[test]
fn statistics_lines_give_two_counts() {
    let history = GitHistory::new("/repo");
    assert_eq!(history.parse_file_stats_line("10\t2\tsrc/a.rs"), Some((10, 2)));
    assert_eq!(history.parse_file_stats_line("-\t-\timage.png"), Some((0, 0)));
    assert_eq!(history.parse_file_stats_line("  7   8  "), Some((7, 8)));
    assert_eq!(history.parse_file_stats_line("abc def"), Some((0, 0)));
    assert_eq!(history.parse_file_stats_line("4294967296 1 f"), Some((0, 1)));
    assert_eq!(history.parse_file_stats_line("+5 -3 f"), Some((5, 0)));
    assert_eq!(history.parse_file_stats_line("single"), None);
    assert_eq!(history.parse_file_stats_line(""), None);
    assert_eq!(history.parse_file_stats_line(" \t "), None);
}

#[test]
fn ranges_are_written_for_git() {
    assert_eq!(GitHistory::commit_range(Some("v1.0.0"), Some("v1.1.0")), "v1.0.0..v1.1.0");
    assert_eq!(GitHistory::commit_range(Some("v1.0.0"), None), "v1.0.0..HEAD");
    assert_eq!(GitHistory::commit_range(None, Some("v1.1.0")), "HEAD..v1.1.0");
    assert_eq!(GitHistory::commit_range(None, None), "HEAD");
}

#[test]
fn failed_log_is_an_error() {
    let history = GitHistory::new("/repo");
    let failed = CommandOutput {
        success: false,
        stdout: "h|s|m|a|e|d".to_string(),
        stderr: "fatal: bad revision".to_string(),
    };
    assert!(matches!(
        history.read_log(&failed, 0),
        Err(GitError::CommandFailed { command, message })
            if command == "git log" && message == "Git log завершился с ошибкой: fatal: bad revision"
    ));
    let ok = CommandOutput { success: true, stdout: sample_log(), stderr: String::new() };
    assert_eq!(history.read_log(&ok, 0).unwrap().len(), 3);
}

#[test]
fn plain_changelog_has_one_line_for_each_commit() {
    let history = GitHistory::new("/repo");
    let commits = history.parse_git_log(&sample_log(), 1709164800);
    assert_eq!(
        history.get_formatted_changelog(&commits),
        "- abc123d (2024-01-15): feat: add thing\n- def456a (2024-01-14): fix: bug\n- 0123 (2024-02-29): chore: odd date\n"
    );
    assert_eq!(history.get_formatted_changelog(&Vec::new()), "");
}

#[test]
fn commits_are_copied_whole() {
    let commit = GitCommit {
        hash: "h".to_string(),
        short_hash: "s".to_string(),
        message: "m".to_string(),
        author: "a".to_string(),
        email: "e".to_string(),
        date: -5,
        files_changed: 1,
        insertions: 2,
        deletions: 3,
    };
    let copy = commit.duplicate();
    assert_eq!(copy.hash, "h");
    assert_eq!(copy.message, "m");
    assert_eq!(copy.date, -5);
    assert_eq!((copy.files_changed, copy.insertions, copy.deletions), (1, 2, 3));
}

#[test]
fn messages_are_classified_by_keywords() {
    assert_eq!(ChangeType::from_message("feat: x"), ChangeType::Feature);
    assert_eq!(ChangeType::from_message("FEAT!: x"), ChangeType::Breaking);
    assert_eq!(ChangeType::from_message("this breaks things"), ChangeType::Breaking);
    assert_eq!(ChangeType::from_message("refactor!: x"), ChangeType::Breaking);
    assert_eq!(ChangeType::from_message("Fix: y"), ChangeType::Fix);
    assert_eq!(ChangeType::from_message("squash a Bug"), ChangeType::Fix);
    assert_eq!(ChangeType::from_message("refactor: z"), ChangeType::Refactoring);
    assert_eq!(ChangeType::from_message("docs: z"), ChangeType::Documentation);
    assert_eq!(ChangeType::from_message("test: z"), ChangeType::Testing);
    assert_eq!(ChangeType::from_message("chore: z"), ChangeType::Chore);
    assert_eq!(ChangeType::from_message("Chore(deps): bump"), ChangeType::Chore);
    assert_eq!(ChangeType::from_message("Плановое обслуживание"), ChangeType::Chore);
    assert_eq!(ChangeType::from_message("perf: faster"), ChangeType::Improvement);
    assert_eq!(ChangeType::from_message("improve: startup"), ChangeType::Improvement);
    assert_eq!(ChangeType::from_message("Улучшение и обслуживание"), ChangeType::Improvement);
    assert_eq!(ChangeType::from_message("chore: fix the bug tracker"), ChangeType::Fix);
    assert_eq!(ChangeType::from_message("Добавлен экран"), ChangeType::Feature);
    assert_eq!(ChangeType::from_message("merge branch"), ChangeType::Other);
    assert_eq!(ChangeType::from_message(""), ChangeType::Other);
}

#[test]
fn kinds_have_pictograms_and_names() {
    assert_eq!(ChangeType::Feature.emoji(), "🚀");
    assert_eq!(ChangeType::Fix.emoji(), "🐛");
    assert_eq!(ChangeType::Breaking.emoji(), "💥");
    assert_eq!(ChangeType::Improvement.emoji(), "🔧");
    assert_eq!(ChangeType::Documentation.emoji(), "📝");
    assert_eq!(ChangeType::Testing.emoji(), "🧪");
    assert_eq!(ChangeType::Refactoring.emoji(), "♻️");
    assert_eq!(ChangeType::Chore.emoji(), "🧹");
    assert_eq!(ChangeType::Other.emoji(), "📋");
    assert_eq!(ChangeType::Feature.name(), "Новые возможности");
    assert_eq!(ChangeType::Fix.name(), "Исправления");
    assert_eq!(ChangeType::Breaking.name(), "Критические изменения");
    assert_eq!(ChangeType::Improvement.name(), "Улучшения");
    assert_eq!(ChangeType::Documentation.name(), "Документация");
    assert_eq!(ChangeType::Testing.name(), "Тестирование");
    assert_eq!(ChangeType::Refactoring.name(), "Рефакторинг");
    assert_eq!(ChangeType::Chore.name(), "Обслуживание");
    assert_eq!(ChangeType::Other.name(), "Другое");
}
