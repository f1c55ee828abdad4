//! The configuration of a project and the rules that it has to meet.
//!
//! Temperatures are held in thousandths, so that `0.3` is `300`.

use vstd::prelude::*;
use crate::text::{same_str, starts_with_str, starts_with_text, to_chars};

verus! {

/// The project that is released.
#[derive(Debug, Clone)]
pub struct ProjectConfig {
    pub name: String,
    pub id: String,
    pub project_type: String,
}

/// How the plugin is built.
#[derive(Debug, Clone)]
pub struct BuildConfig {
    pub gradle_task: String,
    pub output_dir: String,
    pub build_args: Vec<String>,
}

/// Where the plugin is deployed to.
#[derive(Debug, Clone)]
pub struct RepositoryConfig {
    pub url: String,
    pub ssh_host: String,
    pub ssh_user: String,
    pub ssh_private_key_path: Option<String>,
    pub deploy_path: String,
    pub xml_path: String,
}

/// Which language model generates content.
#[derive(Debug, Clone)]
pub struct LlmConfig {
    pub provider: String,
    /// Sampling temperature, in thousandths.
    pub temperature: i32,
    pub max_tokens: u32,
}

/// Access to YandexGPT.
#[derive(Debug, Clone)]
pub struct YandexGptConfig {
    pub api_key: String,
    pub folder_id: String,
    pub model: String,
}

/// Access to OpenAI.
#[derive(Debug, Clone)]
pub struct OpenAiConfig {
    pub api_key: String,
    pub model: String,
}

/// Access to Anthropic.
#[derive(Debug, Clone)]
pub struct AnthropicConfig {
    pub api_key: String,
    pub model: String,
}

/// The model of one agent.
#[derive(Debug, Clone)]
pub struct AgentConfig {
    pub model: String,
    /// Sampling temperature, in thousandths.
    pub temperature: i32,
}

/// The models of the three agents.
#[derive(Debug, Clone)]
pub struct LlmAgentsConfig {
    pub changelog_agent: AgentConfig,
    pub version_agent: AgentConfig,
    pub release_agent: AgentConfig,
}

/// The branch and tags of releases.
#[derive(Debug, Clone)]
pub struct GitConfig {
    pub main_branch: String,
    pub tag_prefix: String,
}

/// Everything that is configured for one project.
#[derive(Debug, Clone)]
pub struct Config {
    pub project: ProjectConfig,
    pub build: BuildConfig,
    pub repository: RepositoryConfig,
    pub llm: LlmConfig,
    pub yandexgpt: YandexGptConfig,
    pub openai: Option<OpenAiConfig>,
    pub anthropic: Option<AnthropicConfig>,
    pub llm_agents: LlmAgentsConfig,
    pub git: GitConfig,
}

/// A rule that the configuration breaks, in words.
#[derive(Debug, Clone)]
pub struct ConfigError {
    pub message: String,
}

/// The first rule that the project section breaks.
pub open spec fn project_complaint(p: ProjectConfig) -> Option<Seq<char>> {
    if p.name@.len() == 0 {
        Some("Имя проекта не может быть пустым"@)
    } else if p.id@.len() == 0 {
        Some("ID проекта не может быть пустым"@)
    } else if !(p.project_type@ == "intellij"@ || p.project_type@ == "android-studio"@) {
        Some("Тип проекта должен быть 'intellij' или 'android-studio'"@)
    } else {
        None
    }
}

/// The first rule that the build section breaks.
pub open spec fn build_complaint(b: BuildConfig) -> Option<Seq<char>> {
    if b.gradle_task@.len() == 0 {
        Some("Gradle задача не может быть пустой"@)
    } else if b.output_dir@.len() == 0 {
        Some("Директория вывода не может быть пустой"@)
    } else {
        None
    }
}

/// The first rule that the repository section breaks.
pub open spec fn repository_complaint(r: RepositoryConfig) -> Option<Seq<char>> {
    if !starts_with_text(r.url@, "http"@) {
        Some("URL репозитория должен начинаться с http или https"@)
    } else if r.ssh_host@.len() == 0 {
        Some("SSH хост не может быть пустым"@)
    } else if r.ssh_user@.len() == 0 {
        Some("SSH пользователь не может быть пустым"@)
    } else if r.deploy_path@.len() == 0 {
        Some("Путь деплоя не может быть пустым"@)
    } else if r.xml_path@.len() == 0 {
        Some("Путь к XML файлу не может быть пустым"@)
    } else {
        None
    }
}

/// A temperature, in thousandths, lies between 0.0 and 2.0.
pub open spec fn temperature_in_range(t: i32) -> bool {
    0 <= t <= 2000
}

/// The first rule that the section on the language model breaks.
pub open spec fn llm_complaint(l: LlmConfig) -> Option<Seq<char>> {
    if !(l.provider@ == "yandexgpt"@ || l.provider@ == "openai"@ || l.provider@ == "anthropic"@) {
        Some("LLM провайдер должен быть 'yandexgpt', 'openai' или 'anthropic'"@)
    } else if !temperature_in_range(l.temperature) {
        Some("Температура должна быть в диапазоне от 0.0 до 2.0"@)
    } else if l.max_tokens == 0 {
        Some("Максимальное количество токенов не может быть 0"@)
    } else {
        None
    }
}

/// The first rule that the YandexGPT section breaks.
pub open spec fn yandexgpt_complaint(y: YandexGptConfig) -> Option<Seq<char>> {
    if y.api_key@.len() == 0 {
        Some("API ключ YandexGPT не может быть пустым"@)
    } else if y.folder_id@.len() == 0 {
        Some("Folder ID YandexGPT не может быть пустым"@)
    } else if !(y.model@ == "yandexgpt"@ || y.model@ == "yandexgpt-lite"@) {
        Some("Модель YandexGPT должна быть 'yandexgpt' или 'yandexgpt-lite'"@)
    } else {
        None
    }
}

/// The complaint about the temperature of the agent called `name`.
pub open spec fn agent_complaint(name: Seq<char>) -> Seq<char> {
    "Температура для "@ + name + " должна быть в диапазоне от 0.0 до 2.0"@
}

/// The first rule that the section on the agents breaks.
pub open spec fn agents_complaint(a: LlmAgentsConfig) -> Option<Seq<char>> {
    if !temperature_in_range(a.changelog_agent.temperature) {
        Some(agent_complaint("changelog_agent"@))
    } else if !temperature_in_range(a.version_agent.temperature) {
        Some(agent_complaint("version_agent"@))
    } else if !temperature_in_range(a.release_agent.temperature) {
        Some(agent_complaint("release_agent"@))
    } else {
        None
    }
}

/// The first rule that the section on version control breaks.
pub open spec fn git_complaint(g: GitConfig) -> Option<Seq<char>> {
    if g.main_branch@.len() == 0 {
        Some("Основная ветка не может быть пустой"@)
    } else {
        None
    }
}

/// The first of two complaints.
pub open spec fn or_else(a: Option<Seq<char>>, b: Option<Seq<char>>) -> Option<Seq<char>> {
    match a {
        Some(_) => a,
        None => b,
    }
}

/// The first rule that the configuration breaks, its sections taken in
/// order.
pub open spec fn config_complaint(c: Config) -> Option<Seq<char>> {
    or_else(
        project_complaint(c.project),
        or_else(
            build_complaint(c.build),
            or_else(
                repository_complaint(c.repository),
                or_else(
                    llm_complaint(c.llm),
                    or_else(
                        yandexgpt_complaint(c.yandexgpt),
                        or_else(agents_complaint(c.llm_agents), git_complaint(c.git)),
                    ),
                ),
            ),
        ),
    )
}

/// The first rule that the quick check finds broken: project name, project
/// id, repository URL.
pub open spec fn basic_complaint(c: Config) -> Option<Seq<char>> {
    if c.project.name@.len() == 0 {
        Some("Имя проекта не может быть пустым"@)
    } else if c.project.id@.len() == 0 {
        Some("ID проекта не может быть пустым"@)
    } else if !starts_with_text(c.repository.url@, "http"@) {
        Some("URL репозитория должен начинаться с http/https"@)
    } else {
        None
    }
}

/// `r` accepts when there is no complaint and else carries the complaint.
pub open spec fn reports(r: Result<(), ConfigError>, complaint: Option<Seq<char>>) -> bool {
    match complaint {
        None => r is Ok,
        Some(m) => r matches Err(e) && e.message@ == m,
    }
}

/// The error that carries `message`.
pub fn complain(message: &str) -> (r: Result<(), ConfigError>)
    ensures
        r matches Err(e) && e.message@ == message@,
{
    Err(ConfigError { message: message.to_owned() })
}

/// Whether `s` is empty.
pub fn is_blank(s: &String) -> (r: bool)
    ensures
        r == (s@.len() == 0),
{
    s.as_str().unicode_len() == 0
}

impl Config {
    /// The quick check made before a deployment.
    pub fn validate(&self) -> (r: Result<(), ConfigError>)
        ensures
            reports(r, basic_complaint(*self)),
    {
        if is_blank(&self.project.name) {
            return complain("Имя проекта не может быть пустым");
        }
        if is_blank(&self.project.id) {
            return complain("ID проекта не может быть пустым");
        }
        if !starts_with_str(&to_chars(self.repository.url.as_str()), "http") {
            return complain("URL репозитория должен начинаться с http/https");
        }
        Ok(())
    }
}

/// Holds the rules on a configuration.
#[derive(Debug, Clone, Copy)]
pub struct ConfigValidator;

impl ConfigValidator {
    /// Checks every section, in order, and reports the first broken rule.
    pub fn validate(config: &Config) -> (r: Result<(), ConfigError>)
        ensures
            reports(r, config_complaint(*config)),
    {
        match Self::validate_project(&config.project) {
            Err(e) => {
                return Err(e);
            },
            Ok(_) => {},
        }
        match Self::validate_build(&config.build) {
            Err(e) => {
                return Err(e);
            },
            Ok(_) => {},
        }
        match Self::validate_repository(&config.repository) {
            Err(e) => {
                return Err(e);
            },
            Ok(_) => {},
        }
        match Self::validate_llm(&config.llm) {
            Err(e) => {
                return Err(e);
            },
            Ok(_) => {},
        }
        match Self::validate_yandexgpt(&config.yandexgpt) {
            Err(e) => {
                return Err(e);
            },
            Ok(_) => {},
        }
        match Self::validate_agents(&config.llm_agents) {
            Err(e) => {
                return Err(e);
            },
            Ok(_) => {},
        }
        Self::validate_git(&config.git)
    }

    /// The project needs a name, an id and a known type.
    pub fn validate_project(project: &ProjectConfig) -> (r: Result<(), ConfigError>)
        ensures
            reports(r, project_complaint(*project)),
    {
        if is_blank(&project.name) {
            return complain("Имя проекта не может быть пустым");
        }
        if is_blank(&project.id) {
            return complain("ID проекта не может быть пустым");
        }
        let kind = project.project_type.as_str();
        if !(same_str(kind, "intellij") || same_str(kind, "android-studio")) {
            return complain("Тип проекта должен быть 'intellij' или 'android-studio'");
        }
        Ok(())
    }

    /// The build needs a task and an output directory.
    pub fn validate_build(build: &BuildConfig) -> (r: Result<(), ConfigError>)
        ensures
            reports(r, build_complaint(*build)),
    {
        if is_blank(&build.gradle_task) {
            return complain("Gradle задача не может быть пустой");
        }
        if is_blank(&build.output_dir) {
            return complain("Директория вывода не может быть пустой");
        }
        Ok(())
    }

    /// The repository needs a web address, a host, a user and both paths.
    pub fn validate_repository(repository: &RepositoryConfig) -> (r: Result<(), ConfigError>)
        ensures
            reports(r, repository_complaint(*repository)),
    {
        if !starts_with_str(&to_chars(repository.url.as_str()), "http") {
            return complain("URL репозитория должен начинаться с http или https");
        }
        if is_blank(&repository.ssh_host) {
            return complain("SSH хост не может быть пустым");
        }
        if is_blank(&repository.ssh_user) {
            return complain("SSH пользователь не может быть пустым");
        }
        if is_blank(&repository.deploy_path) {
            return complain("Путь деплоя не может быть пустым");
        }
        if is_blank(&repository.xml_path) {
            return complain("Путь к XML файлу не может быть пустым");
        }
        Ok(())
    }

    /// The language model needs a known provider, a temperature between 0.0
    /// and 2.0 and room for tokens.
    pub fn validate_llm(llm: &LlmConfig) -> (r: Result<(), ConfigError>)
        ensures
            reports(r, llm_complaint(*llm)),
    {
        let provider = llm.provider.as_str();
        if !(same_str(provider, "yandexgpt") || same_str(provider, "openai") || same_str(
            provider,
            "anthropic",
        )) {
            return complain("LLM провайдер должен быть 'yandexgpt', 'openai' или 'anthropic'");
        }
        if llm.temperature < 0 || llm.temperature > 2000 {
            return complain("Температура должна быть в диапазоне от 0.0 до 2.0");
        }
        if llm.max_tokens == 0 {
            return complain("Максимальное количество токенов не может быть 0");
        }
        Ok(())
    }

    /// YandexGPT needs a key, a folder and a known model.
    pub fn validate_yandexgpt(yandexgpt: &YandexGptConfig) -> (r: Result<(), ConfigError>)
        ensures
            reports(r, yandexgpt_complaint(*yandexgpt)),
    {
        if is_blank(&yandexgpt.api_key) {
            return complain("API ключ YandexGPT не может быть пустым");
        }
        if is_blank(&yandexgpt.folder_id) {
            return complain("Folder ID YandexGPT не может быть пустым");
        }
        let model = yandexgpt.model.as_str();
        if !(same_str(model, "yandexgpt") || same_str(model, "yandexgpt-lite")) {
            return complain("Модель YandexGPT должна быть 'yandexgpt' или 'yandexgpt-lite'");
        }
        Ok(())
    }

    /// Each agent needs a temperature between 0.0 and 2.0.
    pub fn validate_agents(agents: &LlmAgentsConfig) -> (r: Result<(), ConfigError>)
        ensures
            reports(r, agents_complaint(*agents)),
    {
        if agents.changelog_agent.temperature < 0 || agents.changelog_agent.temperature > 2000 {
            return Self::agent_error("changelog_agent");
        }
        if agents.version_agent.temperature < 0 || agents.version_agent.temperature > 2000 {
            return Self::agent_error("version_agent");
        }
        if agents.release_agent.temperature < 0 || agents.release_agent.temperature > 2000 {
            return Self::agent_error("release_agent");
        }
        Ok(())
    }

    /// The complaint about the temperature of the agent called `name`.
    pub fn agent_error(name: &str) -> (r: Result<(), ConfigError>)
        ensures
            r matches Err(e) && e.message@ == agent_complaint(name@),
    {
        let mut out = to_chars("Температура для ");
        crate::text::append_str(&mut out, name);
        crate::text::append_str(&mut out, " должна быть в диапазоне от 0.0 до 2.0");
        Err(ConfigError { message: crate::text::from_chars(&out) })
    }

    /// Version control needs a main branch.
    pub fn validate_git(git: &GitConfig) -> (r: Result<(), ConfigError>)
        ensures
            reports(r, git_complaint(*git)),
    {
        if is_blank(&git.main_branch) {
            return complain("Основная ветка не может быть пустой");
        }
        Ok(())
    }
}

} // verus!
