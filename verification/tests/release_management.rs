use plugin_repository::analyzer::ReleaseAnalysis;
use plugin_repository::classifier::ChangeAnalyzer;
use plugin_repository::config::ProjectConfig;
use plugin_repository::history::{CommandOutput, GitCommit};
use plugin_repository::pipeline::{
    ReleaseAction, ReleaseEvent, ReleaseOptions, ReleasePipeline, ReleaseStage, StopReason,
};
use plugin_repository::releaser::{
    GeneratedReleaseNotes, PlannedRelease, ReleaseError, ReleaseManager, VersionType,
};
use plugin_repository::repository::{ChangesQuery, GitRepository};
use plugin_repository::tags::GitTag;

fn manager() -> ReleaseManager {
    ReleaseManager::new(
        GitRepository::new("/repo"),
        ProjectConfig {
            name: "Example Plugin".to_string(),
            id: "org.example.plugin".to_string(),
            project_type: "intellij".to_string(),
        },
    )
}

fn commit(message: &str) -> GitCommit {
    GitCommit {
        hash: "h".to_string(),
        short_hash: "h".to_string(),
        message: message.to_string(),
        author: "A".to_string(),
        email: "a@example.com".to_string(),
        date: 0,
        files_changed: 1,
        insertions: 1,
        deletions: 0,
    }
}

fn analysis(messages: &[&str]) -> ReleaseAnalysis {
    let commits: Vec<GitCommit> = messages.iter().map(|m| commit(m)).collect();
    ChangeAnalyzer::new("/repo").analyze_changes(Some("v1.2.3"), Some("HEAD"), &commits)
}

fn tag(name: &str) -> GitTag {
    GitTag {
        name: name.to_string(),
        commit_hash: format!("hash-of-{}", name),
        commit_message: format!("Release {}", name),
        author: "A".to_string(),
        date: 100,
        is_annotated: true,
    }
}

fn options() -> ReleaseOptions {
    ReleaseOptions { force: false, dry_run: false, skip_validation: false, no_publish: false, deploy: false }
}

#[test]
fn next_version_follows_the_analysis() {
    let m = manager();
    let latest = tag("v1.2.3");
    let minor = m.suggest_next_version(&analysis(&["feat: a", "fix: b"]), Some(&latest), 77);
    assert_eq!(minor.version, "1.3.0");
    assert_eq!(minor.version_type, VersionType::Minor);
    assert_eq!(minor.changes_count, 2);
    assert_eq!(minor.breaking_changes, 0);
    assert_eq!(minor.estimated_release_date, 77);
    assert_eq!(minor.release_notes, None);
    assert_eq!(minor.changelog, None);
    let major = m.suggest_next_version(&analysis(&["feat!: a"]), Some(&latest), 0);
    assert_eq!(major.version, "2.0.0");
    assert_eq!(major.version_type, VersionType::Major);
    assert_eq!(major.breaking_changes, 1);
    let patch = m.suggest_next_version(&analysis(&["fix: a"]), Some(&latest), 0);
    assert_eq!(patch.version, "1.2.4");
    assert_eq!(patch.version_type, VersionType::Patch);
}

#[test]
fn first_release_starts_from_one_zero_zero() {
    let m = manager();
    let plan = m.suggest_next_version(&analysis(&["fix: a"]), None, 0);
    assert_eq!(plan.version, "1.0.1");
    let plain = tag("2.5.0");
    assert_eq!(m.suggest_next_version(&analysis(&["feat: a"]), Some(&plain), 0).version, "2.6.0");
    let odd = tag("release-7");
    assert_eq!(m.suggest_next_version(&analysis(&["feat: a"]), Some(&odd), 0).version, "1.1.0");
    let short = tag("v3.1");
    assert_eq!(m.suggest_next_version(&analysis(&["fix: a"]), Some(&short), 0).version, "3.1.1");
}

#[test]
fn explicit_version_is_taken_as_it_is() {
    let m = manager();
    let plan = m.plan_release(Some("9.9.9".to_string()), &analysis(&["feat!: a"]), None, 5);
    assert_eq!(plan.version, "9.9.9");
    assert_eq!(plan.version_type, VersionType::Patch);
    assert_eq!(plan.changes_count, 0);
    assert_eq!(plan.estimated_release_date, 5);
    let suggested = m.plan_release(None, &analysis(&["feat!: a"]), Some(&tag("v1.0.0")), 5);
    assert_eq!(suggested.version, "2.0.0");
}

fn planned(version: &str) -> PlannedRelease {
    PlannedRelease {
        version: version.to_string(),
        version_type: VersionType::Patch,
        changes_count: 0,
        breaking_changes: 0,
        estimated_release_date: 1,
        release_notes: None,
        changelog: None,
    }
}

#[test]
fn preparation_records_what_was_generated() {
    let m = manager();
    let a = analysis(&["feat: a", "fix: b", "fix: c", "feat!: d"]);
    let r = m.prepare_release(
        planned("1.3.0"),
        &a,
        Ok("the changelog".to_string()),
        Ok("the notes".to_string()),
        true,
    );
    assert!(r.success);
    assert_eq!(r.release.version, "1.3.0");
    assert_eq!(r.release.changes_count, 4);
    assert_eq!(r.release.breaking_changes, 1);
    assert_eq!(r.release.changelog, Some("the changelog".to_string()));
    assert_eq!(r.release.release_notes, Some("the notes".to_string()));
    assert!(r.warnings.is_empty());
    assert!(r.errors.is_empty());
    assert!(r.validation_issues.is_empty());
}

#[test]
fn dirty_working_tree_is_a_blocking_issue() {
    let m = manager();
    let a = analysis(&["feat: a", "fix: b", "fix: c"]);
    let r = m.prepare_release(
        planned("1.3.0"),
        &a,
        Ok("the changelog".to_string()),
        Ok("the notes".to_string()),
        false,
    );
    assert!(r.success);
    assert_eq!(r.validation_issues, vec!["Рабочая директория Git не чиста".to_string()]);
    assert_eq!(r.warnings, vec!["Релиз имеет проблемы готовности".to_string()]);
    let issues = r.validation_issues.len();

    let mut held = ReleasePipeline::new(options());
    held.step(ReleaseEvent::Analyzed);
    held.step(ReleaseEvent::ContentGenerated { changelog_ok: r.success });
    assert_eq!(
        held.step(ReleaseEvent::Validated { issues }),
        ReleaseAction::Stop(StopReason::Validation)
    );
    assert_eq!(held.stage, ReleaseStage::Failed);

    let mut forced = ReleasePipeline::new(ReleaseOptions { force: true, ..options() });
    forced.step(ReleaseEvent::Analyzed);
    forced.step(ReleaseEvent::ContentGenerated { changelog_ok: r.success });
    assert_eq!(forced.step(ReleaseEvent::Validated { issues }), ReleaseAction::CreateTag);
    assert_eq!(forced.stage, ReleaseStage::Validated);

    let mut dry = ReleasePipeline::new(ReleaseOptions { dry_run: true, ..options() });
    dry.step(ReleaseEvent::Analyzed);
    dry.step(ReleaseEvent::ContentGenerated { changelog_ok: r.success });
    assert_eq!(dry.step(ReleaseEvent::Validated { issues }), ReleaseAction::Finish);
    assert_eq!(dry.stage, ReleaseStage::Validated);

    let mut skipped = ReleasePipeline::new(ReleaseOptions { skip_validation: true, ..options() });
    skipped.step(ReleaseEvent::Analyzed);
    skipped.step(ReleaseEvent::ContentGenerated { changelog_ok: r.success });
    assert_eq!(skipped.step(ReleaseEvent::Validated { issues }), ReleaseAction::CreateTag);
}

#[test]
fn failed_changelog_fails_the_preparation() {
    let m = manager();
    let a = analysis(&["feat: a", "fix: b", "fix: c"]);
    let r = m.prepare_release(
        planned("1.3.0"),
        &a,
        Err("no answer".to_string()),
        Err("timeout".to_string()),
        true,
    );
    assert!(!r.success);
    assert_eq!(r.errors, vec!["Ошибка генерации changelog: no answer".to_string()]);
    assert_eq!(r.warnings, vec!["Предупреждение генерации release notes: timeout".to_string()]);
    assert_eq!(r.release.changelog, None);
    assert_eq!(r.release.release_notes, None);
    let notes_only = m.prepare_release(
        planned("1.3.0"),
        &a,
        Ok("c".to_string()),
        Err("timeout".to_string()),
        true,
    );
    assert!(notes_only.success);
    assert!(notes_only.errors.is_empty());
}

#[test]
fn few_commits_are_a_warning_that_does_not_block() {
    let m = manager();
    for messages in [vec!["fix: a"], vec!["fix: a", "feat: b"]] {
        let a = analysis(&messages);
        let r = m.prepare_release(
            planned("1.3.0"),
            &a,
            Ok("the changelog".to_string()),
            Ok("the notes".to_string()),
            true,
        );
        assert!(r.success);
        assert!(r.validation_issues.is_empty());
        assert_eq!(r.warnings, vec!["Мало изменений для релиза (менее 3 коммитов)".to_string()]);

        let mut pipeline = ReleasePipeline::new(options());
        pipeline.step(ReleaseEvent::Analyzed);
        pipeline.step(ReleaseEvent::ContentGenerated { changelog_ok: r.success });
        assert_eq!(
            pipeline.step(ReleaseEvent::Validated { issues: r.validation_issues.len() }),
            ReleaseAction::CreateTag
        );
    }
    let dirty = m.prepare_release(
        planned("1.3.0"),
        &analysis(&["fix: a"]),
        Ok("the changelog".to_string()),
        Err("no answer".to_string()),
        false,
    );
    assert_eq!(dirty.validation_issues, vec!["Рабочая директория Git не чиста".to_string()]);
    assert_eq!(
        dirty.warnings,
        vec![
            "Предупреждение генерации release notes: no answer".to_string(),
            "Мало изменений для релиза (менее 3 коммитов)".to_string(),
            "Релиз имеет проблемы готовности".to_string(),
        ]
    );
}

#[test]
fn a_breaking_kind_alone_raises_the_major_number() {
    let mut a = analysis(&["feat: a", "fix: b"]);
    assert_eq!(VersionType::from_analysis(&a), VersionType::Minor);
    a.change_summary.breaking = 1;
    assert!(a.breaking_changes.is_empty());
    assert_eq!(VersionType::from_analysis(&a), VersionType::Major);
    let latest = tag("v1.2.3");
    assert_eq!(manager().suggest_next_version(&a, Some(&latest), 5).version, "2.0.0");
}

#[test]
fn readiness_depends_on_commits_and_working_tree() {
    let m = manager();
    let none = m.validate_release_readiness(&analysis(&[]), true);
    assert!(!none.is_ready);
    assert_eq!(none.issues, vec!["Нет изменений для релиза".to_string()]);
    let few = m.validate_release_readiness(&analysis(&["fix: a", "fix: b"]), true);
    assert!(few.is_ready);
    assert!(few.issues.is_empty());
    assert_eq!(few.warnings, vec!["Мало изменений для релиза (менее 3 коммитов)".to_string()]);
    assert!(none.warnings.is_empty());
    let enough = m.validate_release_readiness(&analysis(&["fix: a", "fix: b", "fix: c"]), true);
    assert!(enough.is_ready);
    assert!(enough.issues.is_empty());
    assert!(enough.warnings.is_empty());
    let both = m.validate_release_readiness(&analysis(&[]), false);
    assert!(!both.is_ready);
    assert_eq!(
        both.issues,
        vec!["Нет изменений для релиза".to_string(), "Рабочая директория Git не чиста".to_string()]
    );
}

#[test]
fn second_release_of_a_version_is_a_conflict() {
    let m = manager();
    let mut tags: Vec<GitTag> = vec![tag("v0.9.0")];
    let first = m.create_release("1.0.0", None, &tags).unwrap();
    assert_eq!(first.name, "v1.0.0");
    assert_eq!(first.message, "Release v1.0.0");
    tags.insert(0, tag(&first.name));
    let before: Vec<String> = tags.iter().map(|t| t.commit_hash.clone()).collect();
    let second = m.create_release("1.0.0", Some("again".to_string()), &tags);
    assert!(matches!(second, Err(ReleaseError::TagConflict { tag }) if tag == "v1.0.0"));
    let after: Vec<String> = tags.iter().map(|t| t.commit_hash.clone()).collect();
    assert_eq!(before, after);
    assert_eq!(tags[0].name, "v1.0.0");
    let other = m.create_release("1.0.1", Some("notes".to_string()), &tags).unwrap();
    assert_eq!(other.name, "v1.0.1");
    assert_eq!(other.message, "notes");
    assert!(m.create_release("1.0", None, &tags).is_ok());
}

#[test]
fn commands_of_a_release_are_spelled_out() {
    let m = manager();
    assert_eq!(m.publish_release("1.2.3"), vec!["push", "origin", "v1.2.3"]);
    let (local, remote) = m.rollback_release("1.2.3");
    assert_eq!(local, vec!["tag", "-d", "v1.2.3"]);
    assert_eq!(remote, vec!["push", "origin", "--delete", "v1.2.3"]);
    let ok = CommandOutput { success: true, stdout: String::new(), stderr: String::new() };
    let failed = CommandOutput { success: false, stdout: String::new(), stderr: "denied".to_string() };
    assert_eq!(m.tag_created("1.2.3", &ok).unwrap(), "v1.2.3");
    assert!(matches!(
        m.tag_created("1.2.3", &failed),
        Err(ReleaseError::CommandFailed { message }) if message == "Git ошибка создания тега: denied"
    ));
    assert!(m.tag_published(&ok).is_ok());
    assert!(matches!(
        m.tag_published(&failed),
        Err(ReleaseError::CommandFailed { message }) if message == "Git ошибка пуша тега: denied"
    ));
}

#[test]
fn history_shows_the_newest_releases() {
    let m = manager();
    let tags = vec![tag("v3"), tag("v2"), tag("v1")];
    let counts = vec![Some(0), None, Some(12)];
    let all = m.get_release_history(&tags, None, &counts);
    assert_eq!(all.len(), 3);
    assert_eq!(all[0].version, "v3");
    assert_eq!(all[0].tag, "v3");
    assert_eq!(all[0].commit, "hash-of-v3");
    assert_eq!(all[0].date, 100);
    assert_eq!(all[0].message, Some("Release v3".to_string()));
    assert_eq!(all[0].changes_count, 0);
    assert_eq!(all[1].changes_count, 0);
    assert_eq!(all[2].changes_count, 12);
    let two = m.get_release_history(&tags, Some(2), &vec![Some(4)]);
    assert_eq!(two.len(), 2);
    assert_eq!(two[0].changes_count, 4);
    assert_eq!(two[1].version, "v2");
    assert_eq!(two[1].changes_count, 0);
    assert_eq!(m.get_release_history(&tags, Some(10), &counts).len(), 3);
    assert!(m.get_release_history(&tags, Some(0), &counts).is_empty());
}

#[test]
fn release_notes_are_written_as_markdown() {
    let m = manager();
    let notes = GeneratedReleaseNotes {
        title: "Big release".to_string(),
        subtitle: "Version 2 is here".to_string(),
        highlights: vec!["Faster".to_string(), "Smaller".to_string()],
        body: "All the details.".to_string(),
        version: "2.0.0".to_string(),
    };
    assert_eq!(
        m.generate_release_notes(&notes),
        "# Big release\n\nVersion 2 is here\n\n## Highlights\n- Faster\n- Smaller\n\nAll the details."
    );
    let bare = GeneratedReleaseNotes {
        title: "T".to_string(),
        subtitle: String::new(),
        highlights: Vec::new(),
        body: "B".to_string(),
        version: "1".to_string(),
    };
    assert_eq!(m.generate_release_notes(&bare), "# T\n\nB");
}

#[test]
fn release_notes_are_asked_for_with_the_changelog() {
    let m = manager();
    let (content, plugin) = m.release_notes_request("1.2.3", &Some("log".to_string()));
    assert_eq!(content, "log");
    assert_eq!(plugin.name, "Example Plugin");
    assert_eq!(plugin.id, "org.example.plugin");
    assert_eq!(plugin.version, "1.2.3");
    assert_eq!(plugin.description, Some("AI помощник для IntelliJ IDEA".to_string()));
    assert_eq!(m.release_notes_request("1.2.3", &None).0, "Нет изменений");
}

#[test]
fn version_type_follows_breaking_changes_and_features() {
    assert_eq!(VersionType::from_analysis(&analysis(&["feat: a"])), VersionType::Minor);
    assert_eq!(VersionType::from_analysis(&analysis(&["fix: a"])), VersionType::Patch);
    assert_eq!(VersionType::from_analysis(&analysis(&["fix: remove a"])), VersionType::Major);
    assert_eq!(VersionType::from_analysis(&analysis(&[])), VersionType::Patch);
}

#[test]
fn pipeline_runs_from_draft_to_deployed() {
    let mut p = ReleasePipeline::new(ReleaseOptions { deploy: true, ..options() });
    assert_eq!(p.stage, ReleaseStage::Draft);
    assert_eq!(p.step(ReleaseEvent::Analyzed), ReleaseAction::GenerateContent);
    assert_eq!(p.stage, ReleaseStage::Analyzed);
    assert_eq!(p.step(ReleaseEvent::ContentGenerated { changelog_ok: true }), ReleaseAction::Validate);
    assert_eq!(p.stage, ReleaseStage::ContentGenerated);
    assert_eq!(p.step(ReleaseEvent::Validated { issues: 0 }), ReleaseAction::CreateTag);
    assert_eq!(p.stage, ReleaseStage::Validated);
    assert_eq!(p.step(ReleaseEvent::TagCreated { ok: true }), ReleaseAction::PublishTag);
    assert_eq!(p.stage, ReleaseStage::Tagged);
    assert_eq!(p.step(ReleaseEvent::TagPublished { ok: true }), ReleaseAction::Deploy);
    assert_eq!(p.stage, ReleaseStage::Published);
    assert_eq!(p.step(ReleaseEvent::Deployed { ok: true }), ReleaseAction::Finish);
    assert_eq!(p.stage, ReleaseStage::Deployed);
    assert_eq!(p.step(ReleaseEvent::Analyzed), ReleaseAction::Stop(StopReason::OutOfTurn));
    assert_eq!(p.stage, ReleaseStage::Deployed);
}

#[test]
fn pipeline_stops_where_things_fail() {
    let mut p = ReleasePipeline::new(options());
    p.step(ReleaseEvent::Analyzed);
    assert_eq!(
        p.step(ReleaseEvent::ContentGenerated { changelog_ok: false }),
        ReleaseAction::Stop(StopReason::ContentGeneration)
    );
    assert_eq!(p.stage, ReleaseStage::Failed);

    let mut p = ReleasePipeline::new(ReleaseOptions { force: true, ..options() });
    p.step(ReleaseEvent::Analyzed);
    p.step(ReleaseEvent::ContentGenerated { changelog_ok: true });
    p.step(ReleaseEvent::Validated { issues: 3 });
    assert_eq!(p.step(ReleaseEvent::TagCreated { ok: false }), ReleaseAction::Stop(StopReason::Tag));
    assert_eq!(p.stage, ReleaseStage::Failed);

    let mut p = ReleasePipeline::new(ReleaseOptions { force: true, deploy: true, ..options() });
    p.step(ReleaseEvent::Analyzed);
    p.step(ReleaseEvent::ContentGenerated { changelog_ok: true });
    p.step(ReleaseEvent::Validated { issues: 0 });
    p.step(ReleaseEvent::TagCreated { ok: true });
    assert_eq!(
        p.step(ReleaseEvent::TagPublished { ok: false }),
        ReleaseAction::Stop(StopReason::Publication)
    );
    assert_eq!(p.stage, ReleaseStage::Tagged);
    assert_eq!(p.step(ReleaseEvent::TagPublished { ok: true }), ReleaseAction::Deploy);
    assert_eq!(
        p.step(ReleaseEvent::Deployed { ok: false }),
        ReleaseAction::Stop(StopReason::Deployment)
    );
    assert_eq!(p.stage, ReleaseStage::Published);
}

#[test]
fn roll_back_needs_a_tag() {
    for issues in [0usize, 2] {
        let mut p = ReleasePipeline::new(ReleaseOptions { force: true, ..options() });
        assert_eq!(p.step(ReleaseEvent::RollbackRequested), ReleaseAction::Stop(StopReason::OutOfTurn));
        p.step(ReleaseEvent::Analyzed);
        assert_eq!(p.step(ReleaseEvent::RollbackRequested), ReleaseAction::Stop(StopReason::OutOfTurn));
        p.step(ReleaseEvent::ContentGenerated { changelog_ok: true });
        p.step(ReleaseEvent::Validated { issues });
        assert_eq!(p.step(ReleaseEvent::RollbackRequested), ReleaseAction::Stop(StopReason::OutOfTurn));
        assert_eq!(p.stage, ReleaseStage::Validated);
        p.step(ReleaseEvent::TagCreated { ok: true });
        assert_eq!(p.step(ReleaseEvent::RollbackRequested), ReleaseAction::DeleteTag);
        assert_eq!(p.stage, ReleaseStage::RolledBack);
        assert_eq!(p.step(ReleaseEvent::RollbackRequested), ReleaseAction::Stop(StopReason::OutOfTurn));
    }
    let mut p = ReleasePipeline::new(options());
    p.step(ReleaseEvent::Analyzed);
    p.step(ReleaseEvent::ContentGenerated { changelog_ok: true });
    p.step(ReleaseEvent::Validated { issues: 0 });
    p.step(ReleaseEvent::TagCreated { ok: true });
    p.step(ReleaseEvent::TagPublished { ok: true });
    assert_eq!(p.stage, ReleaseStage::Published);
    assert_eq!(p.step(ReleaseEvent::RollbackRequested), ReleaseAction::DeleteTag);
}

#[test]
fn dry_run_and_no_publish_end_early() {
    let mut p = ReleasePipeline::new(ReleaseOptions { dry_run: true, ..options() });
    p.step(ReleaseEvent::Analyzed);
    p.step(ReleaseEvent::ContentGenerated { changelog_ok: true });
    assert_eq!(p.step(ReleaseEvent::Validated { issues: 0 }), ReleaseAction::Finish);
    assert_eq!(p.step(ReleaseEvent::TagCreated { ok: true }), ReleaseAction::Stop(StopReason::OutOfTurn));
    assert_eq!(p.stage, ReleaseStage::Validated);

    let mut p = ReleasePipeline::new(ReleaseOptions { no_publish: true, ..options() });
    p.step(ReleaseEvent::Analyzed);
    p.step(ReleaseEvent::ContentGenerated { changelog_ok: true });
    p.step(ReleaseEvent::Validated { issues: 0 });
    assert_eq!(p.step(ReleaseEvent::TagCreated { ok: true }), ReleaseAction::Finish);
    assert_eq!(p.stage, ReleaseStage::Tagged);
    assert_eq!(p.step(ReleaseEvent::TagPublished { ok: true }), ReleaseAction::Stop(StopReason::OutOfTurn));
}

#[test]
fn changes_since_the_last_release_are_asked_for() {
    let repo = GitRepository::new("/repo");
    let latest = tag("v1.2.3");
    assert!(matches!(
        repo.get_changes_since_last_release(Some(&latest)),
        ChangesQuery::SinceTag { from } if from == "v1.2.3"
    ));
    assert!(matches!(repo.get_changes_since_last_release(None), ChangesQuery::Recent { limit: 20 }));
    let a = analysis(&["feat: a"]);
    assert_eq!(repo.suggest_next_version("1.2.3", &a), "1.3.0");
    assert_eq!(repo.suggest_next_version("garbage", &a), "1.1.0");
}
