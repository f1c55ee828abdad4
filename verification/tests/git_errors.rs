use plugin_repository::error::{
    DiskSpaceInfo, GitError, GitErrorHandler, GitOperationResult, GitValidator, RecoveryAction,
    ValidationResult,
};
use std::time::Duration;

#[test]
fn test_git_error_creation() {
    let error = GitError::RepositoryNotFound { path: "/tmp".to_string() };
    assert!(error.to_string().contains("Git репозиторий не найден"));
}

#[test]
fn test_operation_result_creation() {
    let duration = Duration::from_millis(100);
    let result = GitOperationResult::success("test_data".to_string(), duration);
    assert!(result.success);
    assert_eq!(result.data, Some("test_data".to_string()));
}

#[test]
fn test_validation_result() {
    let result = ValidationResult {
        is_valid: false,
        issues: vec!["Issue 1".to_string()],
        warnings: vec!["Warning 1".to_string()],
    };
    assert!(!result.is_valid);
    assert_eq!(result.issues.len(), 1);
    assert_eq!(result.warnings.len(), 1);
}

#[test]
fn git_error_messages_are_exact() {
    assert_eq!(
        GitError::RepositoryNotFound { path: "/tmp".to_string() }.to_string(),
        "Git репозиторий не найден в директории: /tmp"
    );
    assert_eq!(
        GitError::CommandFailed { command: "git log".to_string(), message: "boom".to_string() }
            .to_string(),
        "Git команда завершилась с ошибкой: git log"
    );
    assert_eq!(GitError::InvalidRef { ref_name: "x".to_string() }.to_string(), "Некорректный ref: x");
    assert_eq!(GitError::TagNotFound { tag_name: "v1".to_string() }.to_string(), "Тег не найден: v1");
    assert_eq!(
        GitError::WorkingDirectoryDirty.to_string(),
        "Рабочая директория не чиста, есть незакоммиченные изменения"
    );
    assert_eq!(GitError::EmptyHistory.to_string(), "История изменений пуста или недоступна");
    assert_eq!(GitError::DiskSpaceExhausted.to_string(), "Пространство на диске закончилось");
    assert_eq!(
        GitError::InvalidVersionFormat { version: "x".to_string() }.to_string(),
        "Некорректный формат версии: x"
    );
    assert_eq!(
        GitError::NetworkError { details: "d".to_string() }.to_string(),
        "Сетевая ошибка: d"
    );
    assert_eq!(
        GitError::MergeConflict { conflict_details: "a.rs".to_string() }.to_string(),
        "Конфликт при слиянии: a.rs"
    );
    assert_eq!(
        GitError::RemoteUnavailable { remote_url: "u".to_string() }.to_string(),
        "Удаленный репозиторий недоступен: u"
    );
    assert_eq!(
        GitError::InsufficientPermissions { operation: "push".to_string() }.to_string(),
        "Недостаточно прав для выполнения операции: push"
    );
    assert_eq!(
        GitError::ParseError { output: "o".to_string() }.to_string(),
        "Ошибка парсинга git вывода: o"
    );
    assert_eq!(
        GitError::TimeoutError { operation: "fetch".to_string() }.to_string(),
        "Таймаут выполнения git операции: fetch"
    );
    assert_eq!(
        GitError::LockedFile { path: "p".to_string() }.to_string(),
        "Файл или директория заблокированы: p"
    );
    assert_eq!(
        GitError::InternalError { message: "m".to_string() }.to_string(),
        "Внутренняя ошибка Git: m"
    );
}

#[test]
fn operation_results_keep_what_they_are_given() {
    let duration = Duration::from_millis(5);
    let warned = GitOperationResult::success_with_warning(1u8, "careful".to_string(), duration);
    assert!(warned.success);
    assert_eq!(warned.data, Some(1u8));
    assert_eq!(warned.warning, Some("careful".to_string()));
    assert_eq!(warned.execution_time, duration);
    let failed: GitOperationResult<u8> = GitOperationResult::failure(duration);
    assert!(!failed.success);
    assert_eq!(failed.data, None);
    assert_eq!(failed.warning, None);
}

#[test]
fn failures_are_classified_by_their_message() {
    let handler = GitErrorHandler::new("/repo");
    assert!(matches!(
        handler.handle_error("fatal: Not a git repository", "log"),
        GitError::RepositoryNotFound { path } if path == "/repo"
    ));
    assert!(matches!(
        handler.handle_error("Permission DENIED", "push"),
        GitError::InsufficientPermissions { operation } if operation == "push"
    ));
    assert!(matches!(
        handler.handle_error("unknown revision or path", "log"),
        GitError::InvalidRef { ref_name } if ref_name == "log"
    ));
    assert!(matches!(
        handler.handle_error("fatal: not a valid object name v9", "show"),
        GitError::TagNotFound { tag_name } if tag_name == "show"
    ));
    assert!(matches!(
        handler.handle_error("working tree has modifications", "x"),
        GitError::WorkingDirectoryDirty
    ));
    assert!(matches!(
        handler.handle_error("Merge Conflict in a.rs", "x"),
        GitError::MergeConflict { conflict_details } if conflict_details == "merge conflict in a.rs"
    ));
    assert!(matches!(
        handler.handle_error("Connection reset", "x"),
        GitError::NetworkError { details } if details == "connection reset"
    ));
    assert!(matches!(
        handler.handle_error("operation timeout", "fetch"),
        GitError::TimeoutError { operation } if operation == "fetch"
    ));
    assert!(matches!(
        handler.handle_error("index.lock is locked", "x"),
        GitError::LockedFile { path } if path == "/repo"
    ));
    assert!(matches!(handler.handle_error("no space left", "x"), GitError::DiskSpaceExhausted));
    assert!(matches!(
        handler.handle_error("Something Else", "op"),
        GitError::CommandFailed { command, message } if command == "op" && message == "Something Else"
    ));
}

#[test]
fn classification_follows_a_fixed_order() {
    let handler = GitErrorHandler::new("/repo");
    assert!(matches!(
        handler.handle_error("permission denied: not a git repository", "x"),
        GitError::RepositoryNotFound { .. }
    ));
    assert!(matches!(
        handler.handle_error("network timeout", "x"),
        GitError::NetworkError { .. }
    ));
}

#[test]
fn recovery_depends_on_the_error() {
    let handler = GitErrorHandler::new("/repo");
    assert_eq!(
        handler.attempt_recovery(&GitError::WorkingDirectoryDirty, true, true),
        RecoveryAction::StashChanges
    );
    assert_eq!(
        handler.attempt_recovery(&GitError::WorkingDirectoryDirty, false, true),
        RecoveryAction::AbortOperation
    );
    assert_eq!(
        handler.attempt_recovery(&GitError::NetworkError { details: "x".to_string() }, true, true),
        RecoveryAction::RetryOperation
    );
    assert_eq!(
        handler.attempt_recovery(&GitError::NetworkError { details: "x".to_string() }, true, false),
        RecoveryAction::AbortOperation
    );
    assert_eq!(
        handler.attempt_recovery(&GitError::LockedFile { path: "x".to_string() }, true, true),
        RecoveryAction::WaitAndRetry
    );
    assert_eq!(
        handler.attempt_recovery(&GitError::TimeoutError { operation: "x".to_string() }, true, true),
        RecoveryAction::RetryWithTimeout
    );
    assert_eq!(
        handler.attempt_recovery(&GitError::EmptyHistory, true, true),
        RecoveryAction::AbortOperation
    );
}

#[test]
fn outcomes_are_recorded_or_classified() {
    let handler = GitErrorHandler::new("/repo");
    let duration = Duration::from_millis(3);
    let ok = handler.safe_execute(Ok::<u32, String>(7), "get_recent_commits", 10, duration).unwrap();
    assert!(ok.success);
    assert_eq!(ok.data, Some(7));
    assert_eq!(ok.warning, None);
    let warned =
        handler.safe_execute(Ok::<u32, String>(7), "get_recent_commits", 1001, duration).unwrap();
    assert_eq!(
        warned.warning,
        Some(
            "Обнаружено большое количество коммитов: 1001. Производительность может быть снижена."
                .to_string()
        )
    );
    let other = handler.safe_execute(Ok::<u32, String>(7), "create_tag", 5000, duration).unwrap();
    assert_eq!(other.warning, None);
    let failed = handler.safe_execute(Err::<u32, String>("timeout".to_string()), "fetch", 0, duration);
    assert!(matches!(failed, Err(GitError::TimeoutError { operation }) if operation == "fetch"));
}

#[test]
fn repository_state_is_judged_from_observations() {
    let validator = GitValidator::new("/repo");
    let none: Vec<String> = Vec::new();
    let not_repo = validator.validate_repository_state(false, true, &none, None);
    assert!(!not_repo.is_valid);
    assert_eq!(not_repo.issues, vec!["Директория не является Git репозиторием".to_string()]);
    assert!(not_repo.warnings.is_empty());

    let clean = validator.validate_repository_state(
        true,
        false,
        &none,
        Some(DiskSpaceInfo { total_bytes: 1 << 30, free_bytes: 512 << 20 }),
    );
    assert!(clean.is_valid);
    assert!(clean.issues.is_empty());
    assert!(clean.warnings.is_empty());

    let warned = validator.validate_repository_state(
        true,
        true,
        &vec!["origin".to_string(), "backup".to_string()],
        Some(DiskSpaceInfo { total_bytes: 1 << 30, free_bytes: 100 * 1024 * 1024 - 1 }),
    );
    assert!(warned.is_valid);
    assert_eq!(
        warned.warnings,
        vec![
            "Есть незакоммиченные изменения".to_string(),
            "Удаленный репозиторий 'origin' недоступен".to_string(),
            "Удаленный репозиторий 'backup' недоступен".to_string(),
            "Мало свободного места на диске".to_string(),
        ]
    );
    let edge = validator.validate_repository_state(
        true,
        false,
        &none,
        Some(DiskSpaceInfo { total_bytes: 1 << 30, free_bytes: 100 * 1024 * 1024 }),
    );
    assert!(edge.warnings.is_empty());
}
