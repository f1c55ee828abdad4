use plugin_repository::builder::{PluginArtifact, PluginBuilder, ProjectType};
use plugin_repository::commands::{
    DeployCommand, PublishCommand, PublishVersion, ReleaseCommand, ReleaseMode, StatusCommand,
    ValidationVerdict,
};
use plugin_repository::config::{
    AgentConfig, BuildConfig, Config, ConfigError, ConfigValidator, GitConfig, LlmAgentsConfig,
    LlmConfig, ProjectConfig, RepositoryConfig, YandexGptConfig,
};
use plugin_repository::env::EnvLoader;
use plugin_repository::llm::{YandexGPTClientFactory, YandexGPTConfig};
use plugin_repository::network::{NetworkUtils, RetryPolicy, RetryStep};
use plugin_repository::pipeline::ReleaseOptions;
use plugin_repository::plugin_xml::{enrich_plugin_xml, needs_content};
use plugin_repository::service::{
    Config as ServiceConfig, CreateDirectoryRequest, CreateFileRequest, FileService,
    UpdateFileRequest,
};
use plugin_repository::service_error::AppError;
use plugin_repository::xml::{XmlElement, XmlNode};
use std::time::Duration;

fn config() -> Config {
    Config {
        project: ProjectConfig {
            name: "Example Plugin".to_string(),
            id: "org.example.plugin".to_string(),
            project_type: "intellij".to_string(),
        },
        build: BuildConfig {
            gradle_task: "buildPlugin".to_string(),
            output_dir: "build/distributions".to_string(),
            build_args: vec!["--stacktrace".to_string(), "-q".to_string()],
        },
        repository: RepositoryConfig {
            url: "https://example.org/repo".to_string(),
            ssh_host: "host".to_string(),
            ssh_user: "user".to_string(),
            ssh_private_key_path: None,
            deploy_path: "/var/www/repo".to_string(),
            xml_path: "/var/www/repo/updatePlugins.xml".to_string(),
        },
        llm: LlmConfig { provider: "yandexgpt".to_string(), temperature: 300, max_tokens: 2000 },
        yandexgpt: YandexGptConfig {
            api_key: "k".to_string(),
            folder_id: "f".to_string(),
            model: "yandexgpt".to_string(),
        },
        openai: None,
        anthropic: None,
        llm_agents: LlmAgentsConfig {
            changelog_agent: AgentConfig { model: "m".to_string(), temperature: 0 },
            version_agent: AgentConfig { model: "m".to_string(), temperature: 2000 },
            release_agent: AgentConfig { model: "m".to_string(), temperature: 300 },
        },
        git: GitConfig { main_branch: "main".to_string(), tag_prefix: "v".to_string() },
    }
}

fn message(r: Result<(), ConfigError>) -> String {
    r.unwrap_err().message
}

#[test]
fn test_default_config() {
    let config = ServiceConfig::default();
    assert_eq!(config.max_file_size, 10 * 1024 * 1024);
    assert!(!config.verbose);
}

#[test]
fn test_blocked_paths() {
    let config = ServiceConfig::default();
    assert!(!config.is_path_allowed("/etc/passwd", None));
}

#[test]
fn test_allowed_extensions() {
    let mut config = ServiceConfig::default();
    config.allowed_extensions = vec!["txt".to_string(), "md".to_string()];

    assert!(config.is_extension_allowed("test.txt"));
    assert!(config.is_extension_allowed("test.md"));
    assert!(!config.is_extension_allowed("test.exe"));
}

#[test]
fn test_create_file_request_validation() {
    let valid_request = CreateFileRequest {
        path: "test.txt".to_string(),
        content: "Hello, World!".to_string(),
        overwrite: false,
    };
    assert!(valid_request.validate().is_ok());

    let invalid_request = CreateFileRequest {
        path: "".to_string(),
        content: "Hello".to_string(),
        overwrite: false,
    };
    assert!(invalid_request.validate().is_err());
}

#[test]
fn test_create_directory_request_validation() {
    let valid_request = CreateDirectoryRequest { path: "test_dir".to_string(), recursive: true };
    assert!(valid_request.validate().is_ok());
}

#[test]
fn request_paths_have_a_length_limit() {
    let long = |n: usize| CreateFileRequest {
        path: "я".repeat(n),
        content: String::new(),
        overwrite: false,
    };
    assert!(long(255).validate().is_ok());
    assert!(long(256).validate().is_err());
    assert!(CreateDirectoryRequest { path: String::new(), recursive: false }.validate().is_err());
}

#[test]
fn service_settings_decide_on_paths_and_extensions() {
    let mut config = ServiceConfig::default();
    assert_eq!(config.base_dir, "./data");
    assert_eq!(config.blocked_paths, vec!["/etc", "/sys", "/proc", "C:\\Windows", "C:\\System32"]);
    assert!(config.is_path_allowed("./data/a.txt", None));
    assert!(config.is_path_allowed("./data/a.txt", Some(true)));
    assert!(!config.is_path_allowed("./data/a.txt", Some(false)));
    assert!(!config.is_path_allowed("/process", Some(true)));
    assert!(config.is_extension_allowed("anything.exe"));
    config.allowed_extensions = vec!["TXT".to_string()];
    assert!(config.is_extension_allowed("dir.d/readme.Txt"));
    assert!(config.is_extension_allowed("archive.tar.txt"));
    assert!(!config.is_extension_allowed("txt"));
    assert!(!config.is_extension_allowed(".txt"));
    assert!(config.is_extension_allowed("a.txt/"));
    assert!(!config.is_extension_allowed("dir.txt/file"));
    assert!(!config.is_extension_allowed("file."));
    assert!(!config.is_extension_allowed(".."));
    assert!(!config.is_extension_allowed(""));
}

#[test]
fn file_operations_are_admitted_or_refused() {
    let mut config = ServiceConfig::default();
    config.max_file_size = 5;
    config.allowed_extensions = vec!["txt".to_string()];
    let request = |path: &str, content: &str, overwrite: bool| CreateFileRequest {
        path: path.to_string(),
        content: content.to_string(),
        overwrite,
    };
    assert_eq!(
        FileService::create_file(&config, &request("a/b.txt", "hello", false), None, false).unwrap(),
        "./data/a/b.txt"
    );
    assert!(matches!(
        FileService::create_file(&config, &request("../b.txt", "x", false), None, false),
        Err(AppError::InvalidInput(m)) if m == "Path traversal detected: '..' not allowed"
    ));
    assert!(matches!(
        FileService::create_file(&config, &request("b.txt", "x", false), Some(false), false),
        Err(AppError::PermissionDenied(m)) if m == "Access to path 'b.txt' is not allowed"
    ));
    assert!(matches!(
        FileService::create_file(&config, &request("b.exe", "x", false), None, false),
        Err(AppError::PermissionDenied(m)) if m == "File extension not allowed: exe"
    ));
    assert!(matches!(
        FileService::create_file(&config, &request("b", "x", false), None, false),
        Err(AppError::PermissionDenied(m)) if m == "File extension not allowed: none"
    ));
    assert!(matches!(
        FileService::create_file(&config, &request("b.txt", "héllo", false), None, false),
        Err(AppError::FileTooLarge(6, 5))
    ));
    assert!(matches!(
        FileService::create_file(&config, &request("b.txt", "x", false), None, true),
        Err(AppError::InvalidInput(m)) if m == "File 'b.txt' already exists"
    ));
    assert!(FileService::create_file(&config, &request("b.txt", "x", true), None, true).is_ok());

    assert_eq!(FileService::read_file(&config, "b.txt", None, true).unwrap(), "./data/b.txt");
    assert!(matches!(
        FileService::read_file(&config, "b.txt", None, false),
        Err(AppError::NotFound(m)) if m == "File 'b.txt' not found"
    ));
    assert!(matches!(
        FileService::update_file(&config, "b.txt", &UpdateFileRequest { content: "123456".to_string() }, None, true),
        Err(AppError::FileTooLarge(6, 5))
    ));
    assert!(FileService::update_file(&config, "b.txt", &UpdateFileRequest { content: "12345".to_string() }, None, true).is_ok());
    assert!(matches!(
        FileService::delete_file(&config, "/b.txt", None, true),
        Err(AppError::InvalidInput(m)) if m == "Absolute paths are not allowed"
    ));
    assert!(matches!(
        FileService::delete_directory(&config, "d", None, false),
        Err(AppError::NotFound(m)) if m == "Directory 'd' not found"
    ));
    assert!(matches!(
        FileService::create_directory(&config, &CreateDirectoryRequest { path: "d".to_string(), recursive: false }, None, true),
        Err(AppError::InvalidInput(m)) if m == "Directory 'd' already exists"
    ));
    assert_eq!(FileService::list_files(&config, None, None, true).unwrap(), "./data");
    assert_eq!(FileService::list_files(&config, Some("sub"), None, true).unwrap(), "./data/sub");
    assert!(matches!(
        FileService::list_files(&config, Some("sub"), None, false),
        Err(AppError::NotFound(m)) if m == "Directory not found"
    ));
    assert!(matches!(
        FileService::list_files(&config, Some("sub"), Some(false), true),
        Err(AppError::PermissionDenied(m)) if m == "Access to directory is not allowed"
    ));
    assert!(FileService::check_size(&config, 5).is_ok());
    assert!(matches!(FileService::check_size(&config, 6), Err(AppError::FileTooLarge(6, 5))));
    let deleted = FileService::deleted("File ", "b.txt");
    assert!(deleted.success);
    assert_eq!(deleted.message, "File 'b.txt' deleted successfully");
}

#[test]
fn configuration_is_checked_section_by_section() {
    assert!(ConfigValidator::validate(&config()).is_ok());
    assert!(config().validate().is_ok());
    let mut c = config();
    c.project.name = String::new();
    c.build.gradle_task = String::new();
    assert_eq!(message(ConfigValidator::validate(&c)), "Имя проекта не может быть пустым");
    assert_eq!(message(c.validate()), "Имя проекта не может быть пустым");
    let mut c = config();
    c.project.id = String::new();
    assert_eq!(message(ConfigValidator::validate_project(&c.project)), "ID проекта не может быть пустым");
    c.project.id = "x".to_string();
    c.project.project_type = "eclipse".to_string();
    assert_eq!(
        message(ConfigValidator::validate_project(&c.project)),
        "Тип проекта должен быть 'intellij' или 'android-studio'"
    );
    c.project.project_type = "android-studio".to_string();
    assert!(ConfigValidator::validate_project(&c.project).is_ok());
    let mut c = config();
    c.build.output_dir = String::new();
    assert_eq!(message(ConfigValidator::validate(&c)), "Директория вывода не может быть пустой");
    c.build.gradle_task = String::new();
    assert_eq!(message(ConfigValidator::validate_build(&c.build)), "Gradle задача не может быть пустой");
    let mut c = config();
    c.repository.url = "ftp://example.org".to_string();
    assert_eq!(
        message(ConfigValidator::validate(&c)),
        "URL репозитория должен начинаться с http или https"
    );
    assert_eq!(message(c.validate()), "URL репозитория должен начинаться с http/https");
    c.repository.url = "http".to_string();
    c.repository.xml_path = String::new();
    assert_eq!(
        message(ConfigValidator::validate_repository(&c.repository)),
        "Путь к XML файлу не может быть пустым"
    );
    c.repository.deploy_path = String::new();
    assert_eq!(
        message(ConfigValidator::validate_repository(&c.repository)),
        "Путь деплоя не может быть пустым"
    );
    c.repository.ssh_user = String::new();
    assert_eq!(
        message(ConfigValidator::validate_repository(&c.repository)),
        "SSH пользователь не может быть пустым"
    );
    c.repository.ssh_host = String::new();
    assert_eq!(message(ConfigValidator::validate_repository(&c.repository)), "SSH хост не может быть пустым");
}

#[test]
fn model_settings_are_checked() {
    let mut c = config();
    c.llm.provider = "other".to_string();
    assert_eq!(
        message(ConfigValidator::validate_llm(&c.llm)),
        "LLM провайдер должен быть 'yandexgpt', 'openai' или 'anthropic'"
    );
    c.llm.provider = "openai".to_string();
    c.llm.temperature = 2001;
    assert_eq!(
        message(ConfigValidator::validate_llm(&c.llm)),
        "Температура должна быть в диапазоне от 0.0 до 2.0"
    );
    c.llm.temperature = -1;
    assert!(ConfigValidator::validate_llm(&c.llm).is_err());
    c.llm.temperature = 2000;
    c.llm.max_tokens = 0;
    assert_eq!(
        message(ConfigValidator::validate_llm(&c.llm)),
        "Максимальное количество токенов не может быть 0"
    );
    let mut c = config();
    c.yandexgpt.model = "gpt".to_string();
    assert_eq!(
        message(ConfigValidator::validate_yandexgpt(&c.yandexgpt)),
        "Модель YandexGPT должна быть 'yandexgpt' или 'yandexgpt-lite'"
    );
    c.yandexgpt.model = "yandexgpt-lite".to_string();
    assert!(ConfigValidator::validate_yandexgpt(&c.yandexgpt).is_ok());
    c.yandexgpt.folder_id = String::new();
    assert_eq!(
        message(ConfigValidator::validate_yandexgpt(&c.yandexgpt)),
        "Folder ID YandexGPT не может быть пустым"
    );
    c.yandexgpt.api_key = String::new();
    assert_eq!(
        message(ConfigValidator::validate_yandexgpt(&c.yandexgpt)),
        "API ключ YandexGPT не может быть пустым"
    );
    let mut c = config();
    c.llm_agents.release_agent.temperature = 2001;
    assert_eq!(
        message(ConfigValidator::validate_agents(&c.llm_agents)),
        "Температура для release_agent должна быть в диапазоне от 0.0 до 2.0"
    );
    c.llm_agents.version_agent.temperature = -5;
    assert_eq!(
        message(ConfigValidator::validate(&c)),
        "Температура для version_agent должна быть в диапазоне от 0.0 до 2.0"
    );
    let mut c = config();
    c.git.main_branch = String::new();
    assert_eq!(message(ConfigValidator::validate(&c)), "Основная ветка не может быть пустой");
}

#[test]
fn environment_has_to_define_its_variables() {
    let all: Vec<String> = EnvLoader::required_vars().iter().map(|s| s.to_string()).collect();
    assert_eq!(all.len(), 7);
    assert!(EnvLoader::validate_required_vars(&all).is_ok());
    let some: Vec<String> = all.iter().filter(|n| n.starts_with("DEPLOY_PLUGIN")).cloned().collect();
    assert_eq!(
        EnvLoader::validate_required_vars(&some),
        Err("Отсутствуют необходимые переменные окружения: REPOSITORY_URL, SSH_HOST, SSH_USER, DEPLOY_PATH, XML_PATH".to_string())
    );
    assert_eq!(
        EnvLoader::get_required_var("HOME", None),
        Err("Отсутствует переменная окружения: HOME".to_string())
    );
    assert_eq!(EnvLoader::get_required_var("HOME", Some("/root".to_string())), Ok("/root".to_string()));
    assert_eq!(EnvLoader::get_var_or_default(None, "fallback"), "fallback");
    assert_eq!(EnvLoader::get_var_or_default(Some("set".to_string()), "fallback"), "set");
}

#[test]
fn test_retry_succeeds_eventually() {
    let policy = RetryPolicy { attempts: 5, base_delay_ms: 10 };
    let mut count = 0;
    let mut waited: Vec<u64> = Vec::new();
    let mut attempt: u32 = 0;
    let res: Result<i32, String> = loop {
        count += 1;
        let outcome: Result<i32, String> = if count < 3 { Err("fail".to_string()) } else { Ok(42) };
        match outcome {
            Ok(v) => break Ok(v),
            Err(e) => match policy.next_step(attempt, 0) {
                RetryStep::Wait { delay_ms } => {
                    waited.push(delay_ms);
                    attempt += 1;
                }
                RetryStep::GiveUp => break Err(e),
            },
        }
    };
    assert_eq!(res.unwrap(), 42);
    assert_eq!(waited, vec![10, 20]);
}

#[test]
fn pauses_double_and_stop_at_the_limit() {
    let policy = RetryPolicy { attempts: 4, base_delay_ms: 100 };
    assert_eq!(policy.delay(0, 7), 107);
    assert_eq!(policy.delay(3, 0), 800);
    assert_eq!(policy.delay(63, 0), u64::MAX);
    assert_eq!(policy.delay(64, 0), u64::MAX);
    assert_eq!(policy.delay(4000000000, 5), u64::MAX);
    assert_eq!(RetryPolicy { attempts: 1, base_delay_ms: 0 }.delay(70, 3), 3);
    assert_eq!(RetryPolicy { attempts: 1, base_delay_ms: 3 }.delay(62, 0), 3 << 62);
    assert_eq!(RetryPolicy { attempts: 1, base_delay_ms: 3 }.delay(63, 0), u64::MAX);
    assert_eq!(policy.jitter_limit(), 50);
    assert_eq!(RetryPolicy { attempts: 1, base_delay_ms: 1 }.jitter_limit(), 1);
    assert_eq!(policy.next_step(2, 1), RetryStep::Wait { delay_ms: 401 });
    assert_eq!(policy.next_step(3, 1), RetryStep::GiveUp);
    assert_eq!(policy.next_step(u32::MAX, 1), RetryStep::GiveUp);
    assert_eq!(RetryPolicy { attempts: 0, base_delay_ms: 1 }.next_step(0, 0), RetryStep::GiveUp);
    for _ in 0..50 {
        match NetworkUtils::retry(1, 3, 100) {
            RetryStep::Wait { delay_ms } => assert!((200..250).contains(&delay_ms)),
            RetryStep::GiveUp => panic!("attempts are left"),
        }
    }
    assert_eq!(NetworkUtils::retry(2, 3, 100), RetryStep::GiveUp);
}

#[test]
fn model_address_and_client_settings() {
    let timeout = Duration::from_secs(30);
    let c = YandexGPTConfig::with_defaults("key".to_string(), "folder".to_string(), timeout);
    assert_eq!(c.model, "yandexgpt/latest");
    assert_eq!((c.temperature, c.max_tokens), (300, 2000));
    assert_eq!(c.build_model_uri(), "gpt://folder/yandexgpt/latest");
    let mut direct = c.clone();
    direct.model = "gpt://other/model".to_string();
    assert_eq!(direct.build_model_uri(), "gpt://other/model");
    assert_eq!(YandexGPTConfig::retry_pause(0, 3), Some(1000));
    assert_eq!(YandexGPTConfig::retry_pause(2, 3), Some(4000));
    assert_eq!(YandexGPTConfig::retry_pause(3, 3), None);
    assert_eq!(YandexGPTConfig::retry_pause(60, 100), Some(u64::MAX));
    assert_eq!(
        YandexGPTClientFactory::from_env(None, Some("f".to_string()), timeout).unwrap_err(),
        "Переменная окружения DEPLOY_PLUGIN_YANDEX_API_KEY не установлена"
    );
    assert_eq!(
        YandexGPTClientFactory::from_env(Some("k".to_string()), None, timeout).unwrap_err(),
        "Переменная окружения DEPLOY_PLUGIN_YANDEX_FOLDER_ID не установлена"
    );
    let made = YandexGPTClientFactory::from_env(Some("k".to_string()), Some("f".to_string()), timeout).unwrap();
    assert_eq!((made.api_key.as_str(), made.folder_id.as_str()), ("k", "f"));
    assert_eq!(YandexGPTClientFactory::with_config(made.clone()).timeout, timeout);
}

#[test]
fn commands_say_what_they_ask_for() {
    let release = ReleaseCommand {
        dry_run: true,
        auto_version: false,
        version: None,
        no_publish: true,
        skip_validation: false,
        save_notes: None,
        save_changelog: None,
        verbose: false,
        history: true,
        limit: 10,
        rollback: None,
        force: true,
    };
    assert!(matches!(release.mode(), ReleaseMode::History { limit: 10 }));
    assert_eq!(
        release.options(),
        ReleaseOptions { force: true, dry_run: true, skip_validation: false, no_publish: true, deploy: false }
    );
    let back = ReleaseCommand { rollback: Some("1.0.0".to_string()), ..release.clone() };
    assert!(matches!(back.mode(), ReleaseMode::Rollback { version } if version == "1.0.0"));
    let plain = ReleaseCommand { history: false, ..release };
    assert!(matches!(plain.mode(), ReleaseMode::Release));

    let publish = PublishCommand {
        version: None,
        auto_version: true,
        profile: "release".to_string(),
        force: false,
        rollback_on_failure: true,
        skip_validation: true,
        dry_run: false,
    };
    assert!(matches!(publish.version_source(), PublishVersion::Automatic));
    assert!(publish.options().deploy);
    assert!(!publish.options().no_publish);
    assert!(publish.options().skip_validation);
    let named = PublishCommand { version: Some("2.0.0".to_string()), ..publish.clone() };
    assert!(matches!(named.version_source(), PublishVersion::Explicit { version } if version == "2.0.0"));
    let missing = PublishCommand { auto_version: false, ..publish };
    assert!(matches!(missing.version_source(), PublishVersion::Missing));
    assert_eq!(
        PublishCommand::release_message("1.0.0", Some("notes".to_string()), Some("log".to_string())),
        Some("notes".to_string())
    );
    assert_eq!(
        PublishCommand::release_message("1.0.0", None, Some("log".to_string())),
        Some("Changelog for v1.0.0\n\nlog".to_string())
    );
    assert_eq!(PublishCommand::release_message("1.0.0", None, None), None);

    let bad: Result<(), ConfigError> = Err(ConfigError { message: "bad".to_string() });
    let deploy = DeployCommand { force: false, rollback_on_failure: false, skip_validation: false };
    assert_eq!(deploy.verdict(&bad), ValidationVerdict::Refuse);
    assert_eq!(deploy.verdict(&Ok(())), ValidationVerdict::Proceed);
    assert_eq!(DeployCommand { force: true, ..deploy }.verdict(&bad), ValidationVerdict::ProceedForced);
    assert_eq!(DeployCommand { skip_validation: true, ..deploy }.verdict(&bad), ValidationVerdict::Proceed);
    let status = |releases, repository| StatusCommand { releases, repository, format: "table".to_string() };
    assert!(status(false, false).shows_repository());
    assert!(status(true, true).shows_repository());
    assert!(!status(true, false).shows_repository());
}

#[test]
fn build_tools_and_their_output() {
    assert_eq!(PluginBuilder::detect_project_type(true, false, true), Ok(ProjectType::Gradle));
    assert_eq!(PluginBuilder::detect_project_type(false, true, false), Ok(ProjectType::Gradle));
    assert_eq!(PluginBuilder::detect_project_type(false, false, true), Ok(ProjectType::Maven));
    assert!(PluginBuilder::detect_project_type(false, false, false).is_err());
    assert!(PluginBuilder::validate_project_structure(ProjectType::Gradle, true, false).is_ok());
    assert!(PluginBuilder::validate_project_structure(ProjectType::Gradle, false, true).is_ok());
    assert_eq!(
        PluginBuilder::validate_project_structure(ProjectType::Gradle, false, false),
        Err("Не найдена директория с исходниками (src/main/kotlin или src/main/java)".to_string())
    );
    assert_eq!(
        PluginBuilder::validate_project_structure(ProjectType::Maven, true, false),
        Err("Не найдена директория с исходниками (src/main/java)".to_string())
    );
    let builder = PluginBuilder::new(config(), "/project".to_string());
    assert_eq!(
        builder.build_gradle(true),
        ("./gradlew".to_string(), vec!["buildPlugin".to_string(), "--stacktrace".to_string(), "-q".to_string()])
    );
    assert_eq!(builder.build_gradle(false).0, "gradle");
    assert_eq!(builder.build_maven("release").1, vec!["package", "-DskipTests"]);
    assert_eq!(builder.build_maven("dev").1, vec!["package", "-DskipTests", "-P", "dev"]);

    let mut logs = vec!["start".to_string()];
    let mut errors: Vec<String> = Vec::new();
    let stdout: String = (1..=25).map(|i| format!("line {}\n", i)).collect();
    let stderr = "warning: slow\nERROR: broken\nTask FAILED\nnote\n5\n6\n7\n8\n9\n10\nerror beyond the tenth line\n";
    PluginBuilder::read_output(&stdout, stderr, &mut logs, &mut errors);
    assert_eq!(logs.len(), 1 + 20 + 8);
    assert_eq!(logs[1], "📝 line 1");
    assert_eq!(logs[20], "📝 line 20");
    assert_eq!(logs[21], "⚠️ warning: slow");
    assert_eq!(logs[22], "⚠️ note");
    assert_eq!(errors, vec!["❌ ERROR: broken", "❌ Task FAILED"]);
}

#[test]
fn artifacts_are_named_after_their_version() {
    let builder = PluginBuilder::new(config(), "/project".to_string());
    assert_eq!(builder.extract_version_from_filename("plugin-1.2.3.zip"), Some("1.2.3".to_string()));
    assert_eq!(
        builder.extract_version_from_filename("plugin-1.2.3-beta-2.zip"),
        Some("1.2.3-beta-2".to_string())
    );
    assert_eq!(builder.extract_version_from_filename("plugin-1.2.3-beta.2.zip"), None);
    assert_eq!(PluginBuilder::apply_version_to_filename("plugin-1.2.3.zip", "2.0.0"), "plugin-2.0.0.zip");
    assert_eq!(PluginBuilder::apply_version_to_filename("plugin.zip", "2.0.0"), "plugin-2.0.0.zip");
    assert_eq!(PluginBuilder::apply_version_to_filename("plugin", "2.0.0"), "plugin-2.0.0.zip");
    assert_eq!(PluginBuilder::apply_version_to_filename("a-0.0.1-rc.zip", "1.0.0"), "a-1.0.0.zip");
    let artifact = PluginArtifact {
        file_path: "/out/dist/plugin-1.2.3.zip".to_string(),
        file_name: "plugin-1.2.3.zip".to_string(),
        file_size: 10,
        checksum_sha256: "aa".to_string(),
        version: "1.2.3".to_string(),
        build_time: 5,
    };
    let renamed = PluginBuilder::renamed(artifact.clone(), "2.0.0");
    assert_eq!(renamed.file_name, "plugin-2.0.0.zip");
    assert_eq!(renamed.file_path, "/out/dist/plugin-2.0.0.zip");
    assert_eq!(renamed.version, "2.0.0");
    assert_eq!((renamed.file_size, renamed.build_time), (10, 5));
    assert_eq!(renamed.checksum_sha256, "aa");
    let local = PluginArtifact { file_path: "plugin.zip".to_string(), file_name: "plugin.zip".to_string(), ..artifact.clone() };
    assert_eq!(PluginBuilder::renamed(local, "1.0.0").file_path, "plugin-1.0.0.zip");

    assert!(PluginBuilder::validate_artifact(&artifact, true).is_ok());
    assert_eq!(
        PluginBuilder::validate_artifact(&artifact, false),
        Err("Артефакт не найден: /out/dist/plugin-1.2.3.zip".to_string())
    );
    let empty = PluginArtifact { file_size: 0, ..artifact.clone() };
    assert_eq!(PluginBuilder::validate_artifact(&empty, true), Err("Артефакт имеет нулевой размер".to_string()));
    assert!(PluginBuilder::validate_plugin_xml(&vec!["lib/a.jar".to_string(), "META-INF/plugin.xml".to_string()]));
    assert!(!PluginBuilder::validate_plugin_xml(&vec!["lib/a.jar".to_string(), "plugin.xml.bak".to_string()]));
    assert!(!PluginBuilder::validate_plugin_xml(&Vec::new()));

    let built = PluginBuilder::build(Ok(artifact.clone()), Ok(()), vec!["l".to_string()], Vec::new(), 9);
    assert!(built.success);
    assert_eq!(built.build_time, 9);
    assert_eq!(built.logs, vec!["l", "✅ Сборка завершена успешно"]);
    let noisy = PluginBuilder::build(Ok(artifact.clone()), Ok(()), Vec::new(), vec!["e".to_string()], 9);
    assert!(!noisy.success);
    assert!(noisy.artifact.is_some());
    let invalid = PluginBuilder::build(Ok(artifact), Err("empty".to_string()), Vec::new(), Vec::new(), 9);
    assert!(!invalid.success);
    assert_eq!(invalid.errors, vec!["❌ Валидация артефакта не пройдена: empty"]);
    let broken = PluginBuilder::build(Err("exit 1".to_string()), Ok(()), Vec::new(), Vec::new(), 9);
    assert!(!broken.success);
    assert!(broken.artifact.is_none());
    assert_eq!(broken.errors, vec!["❌ Сборка не удалась: exit 1"]);
}

fn names(e: &XmlElement) -> Vec<String> {
    e.children
        .iter()
        .map(|n| match n {
            XmlNode::Element(c) => c.name.clone(),
            _ => "?".to_string(),
        })
        .collect()
}

#[test]
fn plugin_description_gets_what_it_lacks() {
    let fresh = enrich_plugin_xml(None, "org.x", "X", "1.0.0", Some("About"), None).unwrap();
    assert_eq!(fresh.document.name, "idea-plugin");
    assert_eq!(names(&fresh.document), vec!["id", "name", "version", "description"]);
    assert_eq!(
        fresh.text,
        "<?xml version=\"1.0\" encoding=\"UTF-8\"?><idea-plugin><id>org.x</id><name>X</name><version>1.0.0</version><description><![CDATA[About]]></description></idea-plugin>"
    );
    let existing = "<idea-plugin url=\"u\"><name>Kept</name><vendor>V</vendor><change-notes>old</change-notes></idea-plugin>";
    let enriched =
        enrich_plugin_xml(Some(existing), "org.x", "X", "1.0.0", Some("About"), Some("new notes")).unwrap();
    assert_eq!(
        names(&enriched.document),
        vec!["name", "vendor", "change-notes", "id", "version", "description"]
    );
    assert_eq!(enriched.document.attribute("url"), Some("u".to_string()));
    assert!(enriched.text.contains("<name>Kept</name><vendor>V</vendor><change-notes>old</change-notes><id>org.x</id>"));
    assert!(!enriched.text.contains("new notes"));
    assert!(enrich_plugin_xml(Some("<broken"), "a", "b", "c", None, None).is_none());
    let full = enrich_plugin_xml(
        Some("<p><id/><name/><version/><description/><change-notes/></p>"),
        "a",
        "b",
        "c",
        Some("d"),
        Some("e"),
    )
    .unwrap();
    assert_eq!(full.document.children.len(), 5);
    assert!(!needs_content(&full.document));
    assert!(needs_content(&fresh.document));
}
