//! Records that describe plugins, releases and repositories to other
//! programs. Dates count seconds since the epoch; confidence is in
//! percent, temperatures are in thousandths.

use vstd::prelude::*;
use crate::builder::PluginArtifact;
use crate::version::SemanticVersion;

verus! {

/// A plugin as the repository lists it.
#[derive(Debug, Clone)]
pub struct PluginInfo {
    pub name: String,
    pub id: String,
    pub version: String,
    pub description: Option<String>,
    pub vendor: Option<String>,
    pub changelog: Option<String>,
    pub notes: Option<String>,
    pub since_build: String,
    pub until_build: Option<String>,
}

/// Who makes a plugin.
#[derive(Debug, Clone)]
pub struct VendorInfo {
    pub name: String,
    pub email: Option<String>,
    pub url: Option<String>,
}

/// The builds of the IDE that a plugin works with.
#[derive(Debug, Clone)]
pub struct IdeaVersion {
    pub since_build: String,
    pub until_build: Option<String>,
}

/// A plugin that another plugin needs.
#[derive(Debug, Clone)]
pub struct Dependency {
    pub id: String,
    pub optional: bool,
}

/// An extension that a plugin registers.
#[derive(Debug, Clone)]
pub struct Extension {
    pub implementation_class: String,
    pub qualified_name: Option<String>,
    pub dynamic: bool,
}

/// What the description of a plugin says.
#[derive(Debug, Clone)]
pub struct PluginMetadata {
    pub id: String,
    pub name: String,
    pub version: String,
    pub vendor: Option<VendorInfo>,
    pub description: Option<String>,
    pub changelog: Option<String>,
    pub idea_version: IdeaVersion,
    pub depends: Vec<Dependency>,
    pub extensions: Vec<Extension>,
}

/// Asks for a release.
#[derive(Debug, Clone)]
pub struct ReleaseRequest {
    pub version: String,
    pub changelog: Option<String>,
    pub release_notes: Option<String>,
    pub artifact_path: String,
    pub git_tag: Option<String>,
    pub dry_run: bool,
}

/// How far a release has come.
#[derive(Debug, Clone, Copy, PartialEq, Eq, Structural)]
pub enum ReleaseStatus {
    Pending,
    Building,
    Testing,
    Publishing,
    Completed,
    Failed,
    RolledBack,
}

/// What a release came to.
#[derive(Debug, Clone)]
pub struct ReleaseResult {
    pub status: ReleaseStatus,
    pub version: String,
    pub message: String,
    pub artifact_url: Option<String>,
    pub publish_time: Option<i64>,
    pub errors: Vec<String>,
    pub warnings: Vec<String>,
}

/// Kind of change in a changelog.
#[derive(Debug, Clone, Copy, PartialEq, Eq, Structural)]
pub enum ChangeType {
    Feature,
    Fix,
    Improvement,
    Breaking,
    Documentation,
    Testing,
    Other,
}

/// One change of a changelog.
#[derive(Debug, Clone)]
pub struct ChangeEntry {
    pub change_type: ChangeType,
    pub description: String,
    pub commit_hash: Option<String>,
    pub author: Option<String>,
    pub files: Vec<String>,
}

/// The changes of one version.
#[derive(Debug, Clone)]
pub struct ChangelogEntry {
    pub version: String,
    pub changes: Vec<ChangeEntry>,
    pub release_date: Option<i64>,
}

/// A suggested version with its reasons.
#[derive(Debug, Clone)]
pub struct VersionSuggestion {
    pub suggested_version: SemanticVersion,
    pub current_version: SemanticVersion,
    pub reasoning: String,
    pub confidence: u32,
    pub changes_analyzed: Vec<ChangeEntry>,
}

/// The repository with the plugins it lists.
#[derive(Debug, Clone)]
pub struct PluginRepository {
    pub url: String,
    pub plugins: Vec<PluginInfo>,
    pub last_updated: i64,
    pub version: String,
}

/// One entry of the repository.
#[derive(Debug, Clone)]
pub struct RepositoryPluginEntry {
    pub id: String,
    pub name: String,
    pub url: String,
    pub version: String,
    pub description: Option<String>,
    pub changelog: Option<String>,
    pub vendor: Option<String>,
    pub since_build: String,
    pub until_build: Option<String>,
    pub size: u64,
    pub checksum_sha256: String,
    pub publish_date: i64,
}

/// The state of the repository.
#[derive(Debug, Clone)]
pub struct RepositoryStatus {
    pub url: String,
    pub accessible: bool,
    pub plugin_count: usize,
    pub total_size: u64,
    pub last_updated: i64,
    pub errors: Vec<String>,
}

/// How an entry enters the repository.
#[derive(Debug, Clone, Copy, PartialEq, Eq, Structural)]
pub enum UpdateStrategy {
    Add,
    Update,
    Replace,
}

/// Asks for an entry to enter the repository.
#[derive(Debug, Clone)]
pub struct RepositoryUpdateRequest {
    pub plugin_info: PluginInfo,
    pub artifact_url: String,
    pub artifact_size: u64,
    pub checksum: String,
    pub update_strategy: UpdateStrategy,
}

/// What an update of the repository came to.
#[derive(Debug, Clone)]
pub struct RepositoryUpdateResult {
    pub success: bool,
    pub plugin_id: String,
    pub version: String,
    pub action: String,
    pub backup_created: bool,
    pub errors: Vec<String>,
    pub warnings: Vec<String>,
}

/// One version of a plugin in the repository.
#[derive(Debug, Clone)]
pub struct PluginVersionInfo {
    pub version: String,
    pub url: String,
    pub size: u64,
    pub checksum: String,
    pub publish_date: i64,
    pub since_build: String,
    pub until_build: Option<String>,
    pub changelog: Option<String>,
    pub download_count: u64,
}

/// A plugin with all its versions.
#[derive(Debug, Clone)]
pub struct AvailablePlugin {
    pub id: String,
    pub name: String,
    pub versions: Vec<PluginVersionInfo>,
    pub latest_version: String,
    pub total_downloads: u64,
    pub last_updated: i64,
}

/// How an installed version compares with the latest.
#[derive(Debug, Clone)]
pub struct VersionComparison {
    pub current_version: Option<String>,
    pub latest_version: String,
    pub update_available: bool,
    pub is_major_update: bool,
    pub is_minor_update: bool,
    pub is_patch_update: bool,
    pub changelog: Option<String>,
}

/// The IDE that a plugin is made for.
#[derive(Debug, Clone, Copy, PartialEq, Eq, Structural)]
pub enum ProjectType {
    IntelliJ,
    AndroidStudio,
}

/// The project of a plugin.
#[derive(Debug, Clone)]
pub struct ProjectInfo {
    pub name: String,
    pub id: String,
    pub project_type: ProjectType,
    pub version: Option<String>,
}

/// Where the repository is and how it is reached.
#[derive(Debug, Clone)]
pub struct RepositoryInfo {
    pub url: String,
    pub ssh_host: String,
    pub ssh_user: String,
    pub ssh_private_key_path: Option<String>,
    pub deploy_path: String,
    pub xml_path: String,
}

/// Who provides the language model.
#[derive(Debug, Clone, Copy, PartialEq, Eq, Structural)]
pub enum LlmProvider {
    YandexGpt,
    OpenAI,
    Anthropic,
}

/// The model of one agent.
#[derive(Debug, Clone)]
pub struct AgentConfig {
    pub model: String,
    pub temperature: i32,
    pub max_tokens: Option<u32>,
}

/// Which language model generates content, and how.
#[derive(Debug, Clone)]
pub struct LlmSettings {
    pub provider: LlmProvider,
    pub temperature: i32,
    pub max_tokens: u32,
    pub agents: Vec<(String, AgentConfig)>,
}

/// The branch and tags of releases.
#[derive(Debug, Clone)]
pub struct GitSettings {
    pub main_branch: String,
    pub tag_prefix: String,
}

/// The settings of the application.
#[derive(Debug, Clone)]
pub struct AppConfig {
    pub project: ProjectInfo,
    pub repository: RepositoryInfo,
    pub llm: LlmSettings,
    pub git: GitSettings,
}

/// A release as it is announced.
#[derive(Debug, Clone)]
pub struct ReleaseInfo {
    pub version: String,
    pub plugin_version: String,
    pub changelog: String,
    pub release_notes: Option<String>,
    pub artifact: PluginArtifact,
    pub publish_time: i64,
    pub git_tag: Option<String>,
    pub git_commit: Option<String>,
}

} // verus!
