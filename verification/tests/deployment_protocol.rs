use plugin_repository::config::{
    AgentConfig, BuildConfig, Config, GitConfig, LlmAgentsConfig, LlmConfig, ProjectConfig,
    RepositoryConfig, YandexGptConfig,
};
use plugin_repository::deployer::{ArtifactFile, Deployer};
use plugin_repository::transaction::{
    DeployAction, DeployErrorKind, DeployEvent, DeployPhase, DeployPlan, DeploymentTransaction,
};
use std::collections::BTreeMap;

fn deployer() -> Deployer {
    Deployer::new(Config {
        project: ProjectConfig {
            name: "Example Plugin".to_string(),
            id: "org.example.plugin".to_string(),
            project_type: "intellij".to_string(),
        },
        build: BuildConfig {
            gradle_task: "buildPlugin".to_string(),
            output_dir: "build/distributions".to_string(),
            build_args: Vec::new(),
        },
        repository: RepositoryConfig {
            url: "https://example.org/repo/updatePlugins.xml".to_string(),
            ssh_host: "host".to_string(),
            ssh_user: "user".to_string(),
            ssh_private_key_path: None,
            deploy_path: "/var/www/repo/plugins".to_string(),
            xml_path: "/var/www/repo/updatePlugins.xml".to_string(),
        },
        llm: LlmConfig { provider: "yandexgpt".to_string(), temperature: 300, max_tokens: 2000 },
        yandexgpt: YandexGptConfig {
            api_key: "k".to_string(),
            folder_id: "f".to_string(),
            model: "yandexgpt".to_string(),
        },
        openai: None,
        anthropic: None,
        llm_agents: LlmAgentsConfig {
            changelog_agent: AgentConfig { model: "m".to_string(), temperature: 300 },
            version_agent: AgentConfig { model: "m".to_string(), temperature: 300 },
            release_agent: AgentConfig { model: "m".to_string(), temperature: 300 },
        },
        git: GitConfig { main_branch: "main".to_string(), tag_prefix: "v".to_string() },
    })
}

fn artifact(name: &str, size: u64) -> ArtifactFile {
    ArtifactFile { path: format!("/out/{}", name), file_name: name.to_string(), size, modified: 0 }
}

const INDEX: &str = "/var/www/repo/updatePlugins.xml";
const BACKUP: &str = "/var/www/repo/updatePlugins.xml.bak";
const TEMP: &str = "/var/www/repo/updatePlugins.xml.tmp";
const OLD: &str = "<plugins><plugin id=\"org.other\" url=\"o\" version=\"1\"/></plugins>";

/// A remote host held in memory. `fail_at` makes the action with that
/// number fail; `shrink` makes transfers arrive one byte short.
struct Remote {
    files: BTreeMap<String, String>,
    sizes: BTreeMap<String, u64>,
    log: Vec<String>,
    fail_at: Option<usize>,
    fail_primary: bool,
    shrink: bool,
}

impl Remote {
    fn new(index: Option<&str>) -> Remote {
        let mut files = BTreeMap::new();
        if let Some(text) = index {
            files.insert(INDEX.to_string(), text.to_string());
        }
        Remote {
            files,
            sizes: BTreeMap::new(),
            log: Vec::new(),
            fail_at: None,
            fail_primary: false,
            shrink: false,
        }
    }

    fn perform(&mut self, d: &Deployer, action: &DeployAction) -> DeployEvent {
        let number = self.log.len();
        self.log.push(format!("{:?}", action));
        if self.fail_at == Some(number) {
            return DeployEvent::Failed { detail: format!("action {} failed", number) };
        }
        match action {
            DeployAction::Connect => DeployEvent::Succeeded,
            DeployAction::CreateDirectory { .. } => DeployEvent::Succeeded,
            DeployAction::CheckDirectory { .. } => DeployEvent::Succeeded,
            DeployAction::CheckIndex { path } => {
                if self.files.contains_key(path) {
                    DeployEvent::Succeeded
                } else {
                    DeployEvent::Failed { detail: "no such file".to_string() }
                }
            }
            DeployAction::Rename { from, to } => match self.files.remove(from) {
                Some(text) => {
                    self.files.insert(to.clone(), text);
                    DeployEvent::Succeeded
                }
                None => DeployEvent::Failed { detail: "no such file".to_string() },
            },
            DeployAction::Remove { path } => {
                self.sizes.remove(path);
                match self.files.remove(path) {
                    Some(_) => DeployEvent::Succeeded,
                    None => DeployEvent::Failed { detail: "no such file".to_string() },
                }
            }
            DeployAction::Upload { remote, size, .. } => {
                if self.fail_primary {
                    return DeployEvent::Failed { detail: "primary transfer failed".to_string() };
                }
                self.sizes.insert(remote.clone(), if self.shrink { size - 1 } else { *size });
                self.files.insert(remote.clone(), "artifact".to_string());
                DeployEvent::Succeeded
            }
            DeployAction::UploadFallback { remote, .. } => {
                self.sizes.insert(remote.clone(), 10);
                self.files.insert(remote.clone(), "artifact".to_string());
                DeployEvent::Succeeded
            }
            DeployAction::CheckSize { remote } => match self.sizes.get(remote) {
                Some(bytes) => DeployEvent::Size { bytes: *bytes },
                None => DeployEvent::Failed { detail: "no such file".to_string() },
            },
            DeployAction::MergeIndex { source, moved } => {
                let existing = self.files.get(source).cloned();
                if existing.is_none() && *moved {
                    return DeployEvent::Failed { detail: "no such file".to_string() };
                }
                let merged =
                    d.build_merged_repository_xml(existing.as_deref(), "plugin-1.2.0.zip", None);
                DeployEvent::Merged { text: merged.text }
            }
            DeployAction::WriteTemp { path, content } => {
                self.files.insert(path.clone(), content.clone());
                DeployEvent::Succeeded
            }
            DeployAction::Finish | DeployAction::Abort { .. } => DeployEvent::Succeeded,
        }
    }
}

fn run(d: &Deployer, plan: &DeployPlan, remote: &mut Remote, stop_after: Option<usize>) -> (DeploymentTransaction, DeployAction) {
    let mut tx = DeploymentTransaction::new();
    let mut action = tx.step(plan, DeployEvent::Begin);
    let mut steps = 0;
    loop {
        if matches!(action, DeployAction::Finish | DeployAction::Abort { .. }) {
            return (tx, action);
        }
        if stop_after == Some(steps) {
            return (tx, action);
        }
        let event = remote.perform(d, &action);
        action = tx.step(plan, event);
        steps += 1;
        assert!(steps < 200);
    }
}

fn new_index(d: &Deployer, old: Option<&str>) -> String {
    d.build_merged_repository_xml(old, "plugin-1.2.0.zip", None).text
}

#[test]
fn plan_names_directories_and_files() {
    let d = deployer();
    let plan = d.plan(&vec![artifact("plugin-1.2.0.zip", 10)]);
    assert_eq!(
        plan.directories,
        vec![
            "/var", "/var/www", "/var/www/repo", "/var/www/repo/plugins", "/var", "/var/www",
            "/var/www/repo"
        ]
    );
    assert_eq!(plan.index_path, INDEX);
    assert_eq!(plan.backup_path, BACKUP);
    assert_eq!(plan.temp_path, TEMP);
    assert_eq!(plan.artifacts.len(), 1);
    assert_eq!(plan.artifacts[0].local, "/out/plugin-1.2.0.zip");
    assert_eq!(plan.artifacts[0].remote, "/var/www/repo/plugins/plugin-1.2.0.zip");
    assert_eq!(plan.artifacts[0].size, 10);
}

#[test]
fn deployment_into_an_empty_place() {
    let d = deployer();
    let plan = d.plan(&vec![artifact("plugin-1.2.0.zip", 10)]);
    let mut remote = Remote::new(None);
    let (tx, action) = run(&d, &plan, &mut remote, None);
    assert!(matches!(action, DeployAction::Finish));
    assert_eq!(tx.phase, DeployPhase::Done);
    assert!(tx.swap_completed);
    assert!(!tx.backup_created);
    assert_eq!((tx.uploaded, tx.verified), (1, 1));
    assert!(tx.error.is_none());
    let index = remote.files.get(INDEX).unwrap();
    assert_eq!(index, &new_index(&d, None));
    assert_eq!(index.matches("<plugin ").count(), 1);
    assert!(index.contains("id=\"org.example.plugin\""));
    assert!(index.contains("version=\"1.2.0\""));
    assert!(index.contains("plugin-1.2.0.zip\""));
    assert!(!remote.files.contains_key(TEMP));
    assert!(!remote.files.contains_key(BACKUP));
}

#[test]
fn deployment_over_an_index_keeps_a_backup() {
    let d = deployer();
    let plan = d.plan(&vec![artifact("plugin-1.2.0.zip", 10)]);
    let mut remote = Remote::new(Some(OLD));
    let (tx, action) = run(&d, &plan, &mut remote, None);
    assert!(matches!(action, DeployAction::Finish));
    assert!(tx.backup_created);
    assert_eq!(remote.files.get(BACKUP).unwrap(), OLD);
    assert_eq!(remote.files.get(INDEX).unwrap(), &new_index(&d, Some(OLD)));
    assert!(remote.files.get(INDEX).unwrap().contains("org.other"));
    let order: Vec<&str> = remote.log.iter().map(|l| l.split(' ').next().unwrap()).collect();
    assert_eq!(
        order,
        vec![
            "Connect", "CreateDirectory", "CreateDirectory", "CreateDirectory", "CreateDirectory",
            "CreateDirectory", "CreateDirectory", "CreateDirectory", "CheckIndex", "Rename",
            "Upload", "CheckSize", "MergeIndex", "WriteTemp", "Rename"
        ]
    );
}

#[test]
fn size_mismatch_fails_before_the_index_is_touched() {
    let d = deployer();
    let plan = d.plan(&vec![artifact("plugin-1.2.0.zip", 10)]);
    let mut remote = Remote::new(Some(OLD));
    remote.shrink = true;
    let (tx, action) = run(&d, &plan, &mut remote, None);
    assert!(matches!(
        action,
        DeployAction::Abort { kind: DeployErrorKind::SizeMismatch, detail: None }
    ));
    assert_eq!(tx.phase, DeployPhase::Failed);
    assert_eq!((tx.uploaded, tx.verified), (1, 0));
    assert!(!tx.swap_completed);
    assert!(!remote.log.iter().any(|l| l.starts_with("MergeIndex") || l.starts_with("WriteTemp")));
    assert_eq!(remote.files.get(INDEX).unwrap(), OLD);
    assert!(!remote.files.get(INDEX).unwrap().contains("plugin-1.2.0.zip"));
    assert!(!remote.files.contains_key("/var/www/repo/plugins/plugin-1.2.0.zip"));
    assert!(!remote.files.contains_key(TEMP));
}

#[test]
fn size_mismatch_is_cleaned_up_and_reported_even_when_cleaning_fails() {
    let d = deployer();
    let plan = d.plan(&vec![artifact("plugin-1.2.0.zip", 10)]);
    let mut tx = DeploymentTransaction::new();
    let mut action = tx.step(&plan, DeployEvent::Begin);
    let mut log: Vec<String> = Vec::new();
    for _ in 0..100 {
        let event = match &action {
            DeployAction::CheckSize { .. } => DeployEvent::Size { bytes: 9 },
            DeployAction::Remove { path } => {
                log.push(format!("Remove {}", path));
                DeployEvent::Failed { detail: "cannot remove".to_string() }
            }
            DeployAction::Rename { from, to } if tx.phase == DeployPhase::RestoringIndex => {
                log.push(format!("Rename {} {}", from, to));
                DeployEvent::Failed { detail: "cannot rename".to_string() }
            }
            DeployAction::Abort { .. } | DeployAction::Finish => break,
            _ => DeployEvent::Succeeded,
        };
        action = tx.step(&plan, event);
    }
    assert!(matches!(action, DeployAction::Abort { kind: DeployErrorKind::SizeMismatch, .. }));
    assert_eq!(tx.phase, DeployPhase::Failed);
    assert_eq!(
        log,
        vec![
            "Remove /var/www/repo/plugins/plugin-1.2.0.zip".to_string(),
            format!("Rename {} {}", BACKUP, INDEX),
        ]
    );
}

#[test]
fn a_stale_backup_is_not_merged_when_there_is_no_index() {
    let d = deployer();
    let plan = d.plan(&vec![artifact("plugin-1.2.0.zip", 10)]);
    let mut remote = Remote::new(None);
    remote.files.insert(BACKUP.to_string(), OLD.to_string());
    let (tx, action) = run(&d, &plan, &mut remote, None);
    assert!(matches!(action, DeployAction::Finish));
    assert!(!tx.backup_created);
    assert!(remote
        .log
        .iter()
        .any(|l| l == &format!("MergeIndex {{ source: {:?}, moved: false }}", INDEX)));
    assert_eq!(remote.files.get(INDEX).unwrap(), &new_index(&d, None));
    assert_eq!(remote.files.get(BACKUP).unwrap(), OLD);
}

#[test]
fn the_index_is_merged_from_its_backup() {
    let d = deployer();
    let plan = d.plan(&vec![artifact("plugin-1.2.0.zip", 10)]);
    let mut remote = Remote::new(Some(OLD));
    let (tx, action) = run(&d, &plan, &mut remote, None);
    assert!(matches!(action, DeployAction::Finish));
    assert!(tx.backup_created);
    assert!(remote
        .log
        .iter()
        .any(|l| l == &format!("MergeIndex {{ source: {:?}, moved: true }}", BACKUP)));
    assert_eq!(remote.files.get(INDEX).unwrap(), &new_index(&d, Some(OLD)));
    assert_eq!(remote.files.get(BACKUP).unwrap(), OLD);
}

#[test]
fn secondary_transfer_takes_over() {
    let d = deployer();
    let plan = d.plan(&vec![artifact("plugin-1.2.0.zip", 10)]);
    let mut remote = Remote::new(None);
    remote.fail_primary = true;
    let (tx, action) = run(&d, &plan, &mut remote, None);
    assert!(matches!(action, DeployAction::Finish));
    assert_eq!(tx.verified, 1);
    assert!(remote.log.iter().any(|l| l.starts_with("UploadFallback")));
}

#[test]
fn artifact_that_does_not_arrive_fails_the_deployment() {
    let d = deployer();
    let plan = d.plan(&vec![artifact("plugin-1.2.0.zip", 10)]);
    let mut remote = Remote::new(Some(OLD));
    remote.fail_primary = true;
    remote.fail_at = Some(11);
    let (tx, action) = run(&d, &plan, &mut remote, None);
    assert!(matches!(
        action,
        DeployAction::Abort { kind: DeployErrorKind::Transfer, detail: Some(d) } if d == "action 11 failed"
    ));
    assert_eq!((tx.uploaded, tx.verified), (0, 0));
    assert!(tx.backup_created);
    assert_eq!(remote.files.get(INDEX).unwrap(), OLD);
    assert!(!remote.log.iter().any(|l| l.starts_with("MergeIndex")));
}

#[test]
fn nothing_to_deploy_is_a_failure() {
    let d = deployer();
    let plan = d.plan(&Vec::new());
    let mut tx = DeploymentTransaction::new();
    let action = tx.step(&plan, DeployEvent::Begin);
    assert!(matches!(action, DeployAction::Abort { kind: DeployErrorKind::NoArtifacts, detail: None }));
    assert_eq!(tx.phase, DeployPhase::Failed);
}

#[test]
fn failed_connection_needs_no_roll_back() {
    let d = deployer();
    let plan = d.plan(&vec![artifact("plugin-1.2.0.zip", 10)]);
    let mut tx = DeploymentTransaction::new();
    assert!(matches!(tx.step(&plan, DeployEvent::Begin), DeployAction::Connect));
    let action = tx.step(&plan, DeployEvent::Failed { detail: "refused".to_string() });
    assert!(matches!(
        action,
        DeployAction::Abort { kind: DeployErrorKind::Transport, detail: Some(d) } if d == "refused"
    ));
}

#[test]
fn directory_that_exists_is_good_enough() {
    let d = deployer();
    let plan = d.plan(&vec![artifact("plugin-1.2.0.zip", 10)]);
    let mut tx = DeploymentTransaction::new();
    tx.step(&plan, DeployEvent::Begin);
    let action = tx.step(&plan, DeployEvent::Succeeded);
    assert!(matches!(action, DeployAction::CreateDirectory { path } if path == "/var"));
    let action = tx.step(&plan, DeployEvent::Failed { detail: "exists".to_string() });
    assert!(matches!(action, DeployAction::CheckDirectory { path } if path == "/var"));
    let action = tx.step(&plan, DeployEvent::Succeeded);
    assert!(matches!(action, DeployAction::CreateDirectory { path } if path == "/var/www"));
    tx.step(&plan, DeployEvent::Failed { detail: "denied".to_string() });
    let action = tx.step(&plan, DeployEvent::Failed { detail: "no such directory".to_string() });
    assert!(matches!(
        action,
        DeployAction::Abort { kind: DeployErrorKind::Transport, detail: Some(d) }
            if d == "no such directory"
    ));
}

#[test]
fn stale_backup_is_cleared_once() {
    let d = deployer();
    let plan = d.plan(&vec![artifact("plugin-1.2.0.zip", 10)]);
    let mut remote = Remote::new(Some(OLD));
    remote.fail_at = Some(9);
    let (tx, action) = run(&d, &plan, &mut remote, None);
    assert!(matches!(action, DeployAction::Finish));
    assert!(tx.backup_created);
    assert!(remote.log[10].starts_with("Remove"));
    assert!(remote.log[11].starts_with("Rename"));
}

#[test]
fn every_failure_leaves_the_index_old_or_new() {
    let d = deployer();
    let plan = d.plan(&vec![artifact("plugin-1.2.0.zip", 10)]);
    let new = new_index(&d, Some(OLD));
    for failing in 0..15 {
        let mut remote = Remote::new(Some(OLD));
        remote.fail_at = Some(failing);
        let (tx, action) = run(&d, &plan, &mut remote, None);
        let live = remote.files.get(INDEX);
        if matches!(action, DeployAction::Finish) {
            assert_eq!(live.unwrap(), &new, "failing action {}", failing);
            assert!(tx.swap_completed);
        } else {
            assert_eq!(live.unwrap(), OLD, "failing action {}", failing);
            assert!(tx.error.is_some());
            assert!(!remote.files.contains_key("/var/www/repo/plugins/plugin-1.2.0.zip"));
        }
    }
}

#[test]
fn every_interruption_leaves_the_index_old_or_new_or_in_its_backup() {
    let d = deployer();
    let plan = d.plan(&vec![artifact("plugin-1.2.0.zip", 10)]);
    let new = new_index(&d, Some(OLD));
    for stop in 0..16 {
        let mut remote = Remote::new(Some(OLD));
        let (_tx, _action) = run(&d, &plan, &mut remote, Some(stop));
        match remote.files.get(INDEX) {
            Some(live) => assert!(live == OLD || live == &new, "stopped after {}", stop),
            None => assert_eq!(remote.files.get(BACKUP).unwrap(), OLD, "stopped after {}", stop),
        }
        if let Some(temp) = remote.files.get(TEMP) {
            assert_eq!(temp, &new);
            assert_ne!(remote.files.get(INDEX), Some(&new));
        }
    }
}

#[test]
fn a_write_cut_short_spoils_the_temporary_file_only() {
    let d = deployer();
    let plan = d.plan(&vec![artifact("plugin-1.2.0.zip", 10)]);
    let mut remote = Remote::new(Some(OLD));
    let (mut tx, action) = run(&d, &plan, &mut remote, Some(13));
    match &action {
        DeployAction::WriteTemp { path, content } => {
            assert_eq!(path, TEMP);
            remote.files.insert(path.clone(), content[..content.len() / 2].to_string());
        }
        other => panic!("unexpected action {:?}", other),
    }
    assert!(!remote.files.contains_key(INDEX));
    assert_eq!(remote.files.get(BACKUP).unwrap(), OLD);
    let mut action = tx.step(&plan, DeployEvent::Failed { detail: "connection lost".to_string() });
    loop {
        if let DeployAction::Abort { kind, detail } = &action {
            assert_eq!(*kind, DeployErrorKind::Index);
            assert_eq!(detail.as_deref(), Some("connection lost"));
            break;
        }
        let event = remote.perform(&d, &action);
        action = tx.step(&plan, event);
    }
    assert_eq!(remote.files.get(INDEX).unwrap(), OLD);
}

#[test]
fn several_artifacts_are_all_verified_before_the_merge() {
    let d = deployer();
    let plan = d.plan(&vec![artifact("a-1.0.0.zip", 10), artifact("plugin-1.2.0.zip", 20)]);
    let mut remote = Remote::new(None);
    let (tx, action) = run(&d, &plan, &mut remote, None);
    assert!(matches!(action, DeployAction::Finish));
    assert_eq!((tx.uploaded, tx.verified), (2, 2));
    let merge = remote.log.iter().position(|l| l.starts_with("MergeIndex")).unwrap();
    let checks: Vec<usize> = remote
        .log
        .iter()
        .enumerate()
        .filter(|(_, l)| l.starts_with("CheckSize"))
        .map(|(i, _)| i)
        .collect();
    assert_eq!(checks.len(), 2);
    assert!(checks.iter().all(|c| *c < merge));
}

#[test]
fn reports_out_of_turn_fail_the_deployment() {
    let d = deployer();
    let plan = d.plan(&vec![artifact("plugin-1.2.0.zip", 10)]);
    let mut tx = DeploymentTransaction::new();
    let action = tx.step(&plan, DeployEvent::Merged { text: "<x/>".to_string() });
    assert!(matches!(action, DeployAction::Abort { kind: DeployErrorKind::Protocol, .. }));
    let again = tx.step(&plan, DeployEvent::Succeeded);
    assert!(matches!(again, DeployAction::Abort { kind: DeployErrorKind::Protocol, .. }));
    assert_eq!(tx.phase, DeployPhase::Failed);
}
