//! Errors of version-control operations, their classification, and the
//! checks made on a repository before an operation runs.

use vstd::prelude::*;
use std::time::Duration;
use crate::text::{contains_str, contains_text, lowercase, lowercase_of, to_chars};
use crate::number::decimal_text;

verus! {

/// `Duration::clone` copies the value: `Duration` is a `Copy` type.
pub assume_specification[ <Duration as Clone>::clone ](d: &Duration) -> (r: Duration)
    ensures
        r == *d,
;

/// What went wrong in a version-control operation.
#[derive(Debug, Clone)]
pub enum GitError {
    RepositoryNotFound { path: String },
    CommandFailed { command: String, message: String },
    InvalidRef { ref_name: String },
    TagNotFound { tag_name: String },
    MergeConflict { conflict_details: String },
    WorkingDirectoryDirty,
    RemoteUnavailable { remote_url: String },
    InsufficientPermissions { operation: String },
    InvalidVersionFormat { version: String },
    EmptyHistory,
    ParseError { output: String },
    TimeoutError { operation: String },
    LockedFile { path: String },
    DiskSpaceExhausted,
    NetworkError { details: String },
    InternalError { message: String },
}

/// The message that describes `e` to a user.
pub open spec fn error_text(e: GitError) -> Seq<char> {
    match e {
        GitError::RepositoryNotFound { path } => "Git репозиторий не найден в директории: "@
            + path@,
        GitError::CommandFailed { command, message } => "Git команда завершилась с ошибкой: "@
            + command@,
        GitError::InvalidRef { ref_name } => "Некорректный ref: "@ + ref_name@,
        GitError::TagNotFound { tag_name } => "Тег не найден: "@ + tag_name@,
        GitError::MergeConflict { conflict_details } => "Конфликт при слиянии: "@
            + conflict_details@,
        GitError::WorkingDirectoryDirty =>
            "Рабочая директория не чиста, есть незакоммиченные изменения"@,
        GitError::RemoteUnavailable { remote_url } => "Удаленный репозиторий недоступен: "@
            + remote_url@,
        GitError::InsufficientPermissions { operation } =>
            "Недостаточно прав для выполнения операции: "@ + operation@,
        GitError::InvalidVersionFormat { version } => "Некорректный формат версии: "@ + version@,
        GitError::EmptyHistory => "История изменений пуста или недоступна"@,
        GitError::ParseError { output } => "Ошибка парсинга git вывода: "@ + output@,
        GitError::TimeoutError { operation } => "Таймаут выполнения git операции: "@ + operation@,
        GitError::LockedFile { path } => "Файл или директория заблокированы: "@ + path@,
        GitError::DiskSpaceExhausted => "Пространство на диске закончилось"@,
        GitError::NetworkError { details } => "Сетевая ошибка: "@ + details@,
        GitError::InternalError { message } => "Внутренняя ошибка Git: "@ + message@,
    }
}

/// `prefix` followed by `rest`.
pub fn concat(prefix: &str, rest: &str) -> (r: String)
    ensures
        r@ == prefix@ + rest@,
{
    let mut s = prefix.to_owned();
    s.append(rest);
    s
}

impl GitError {
    /// The message that describes this error to a user.
    pub fn to_string(&self) -> (r: String)
        ensures
            r@ == error_text(*self),
    {
        match self {
            GitError::RepositoryNotFound { path } => concat(
                "Git репозиторий не найден в директории: ",
                path.as_str(),
            ),
            GitError::CommandFailed { command, message } => concat(
                "Git команда завершилась с ошибкой: ",
                command.as_str(),
            ),
            GitError::InvalidRef { ref_name } => concat("Некорректный ref: ", ref_name.as_str()),
            GitError::TagNotFound { tag_name } => concat("Тег не найден: ", tag_name.as_str()),
            GitError::MergeConflict { conflict_details } => concat(
                "Конфликт при слиянии: ",
                conflict_details.as_str(),
            ),
            GitError::WorkingDirectoryDirty =>
                "Рабочая директория не чиста, есть незакоммиченные изменения".to_owned(),
            GitError::RemoteUnavailable { remote_url } => concat(
                "Удаленный репозиторий недоступен: ",
                remote_url.as_str(),
            ),
            GitError::InsufficientPermissions { operation } => concat(
                "Недостаточно прав для выполнения операции: ",
                operation.as_str(),
            ),
            GitError::InvalidVersionFormat { version } => concat(
                "Некорректный формат версии: ",
                version.as_str(),
            ),
            GitError::EmptyHistory => "История изменений пуста или недоступна".to_owned(),
            GitError::ParseError { output } => concat(
                "Ошибка парсинга git вывода: ",
                output.as_str(),
            ),
            GitError::TimeoutError { operation } => concat(
                "Таймаут выполнения git операции: ",
                operation.as_str(),
            ),
            GitError::LockedFile { path } => concat(
                "Файл или директория заблокированы: ",
                path.as_str(),
            ),
            GitError::DiskSpaceExhausted => "Пространство на диске закончилось".to_owned(),
            GitError::NetworkError { details } => concat("Сетевая ошибка: ", details.as_str()),
            GitError::InternalError { message } => concat(
                "Внутренняя ошибка Git: ",
                message.as_str(),
            ),
        }
    }
}

/// How an operation ended, with what it produced and how long it took.
#[derive(Debug, Clone)]
pub struct GitOperationResult<T> {
    pub success: bool,
    pub data: Option<T>,
    pub warning: Option<String>,
    pub execution_time: Duration,
}

impl<T> GitOperationResult<T> {
    /// A successful result that carries `data`.
    pub fn success(data: T, execution_time: Duration) -> (r: Self)
        ensures
            r.success,
            r.data == Some(data),
            r.warning is None,
            r.execution_time == execution_time,
    {
        GitOperationResult { success: true, data: Some(data), warning: None, execution_time }
    }

    /// A successful result that carries `data` and a warning.
    pub fn success_with_warning(data: T, warning: String, execution_time: Duration) -> (r: Self)
        ensures
            r.success,
            r.data == Some(data),
            r.warning == Some(warning),
            r.execution_time == execution_time,
    {
        GitOperationResult {
            success: true,
            data: Some(data),
            warning: Some(warning),
            execution_time,
        }
    }

    /// A failed result: no data, no warning.
    pub fn failure(execution_time: Duration) -> (r: Self)
        ensures
            !r.success,
            r.data is None,
            r.warning is None,
            r.execution_time == execution_time,
    {
        GitOperationResult { success: false, data: None, warning: None, execution_time }
    }
}

/// What to do after an operation failed.
#[derive(Debug, Clone, Copy, PartialEq, Eq, Structural)]
pub enum RecoveryAction {
    RetryOperation,
    RetryWithTimeout,
    WaitAndRetry,
    StashChanges,
    AbortOperation,
}

/// Outcome of the checks made before an operation.
#[derive(Debug, Clone)]
pub struct ValidationResult {
    pub is_valid: bool,
    pub issues: Vec<String>,
    pub warnings: Vec<String>,
}

/// Space on the disk that holds the repository.
#[derive(Debug, Clone, Copy)]
pub struct DiskSpaceInfo {
    pub total_bytes: u64,
    pub free_bytes: u64,
}

/// The views of a vector of strings.
pub open spec fn strings(v: Seq<String>) -> Seq<Seq<char>> {
    v.map_values(|s: String| s@)
}

/// Classifies failures of version-control operations.
#[derive(Debug, Clone)]
pub struct GitErrorHandler {
    pub repository_path: String,
}

/// The kind of failure that a lower-cased error message `low` tells of,
/// tried in a fixed order; `path` and `operation` fill the fields and
/// `raw` is the message as it came.
pub open spec fn classified(
    low: Seq<char>,
    raw: Seq<char>,
    path: Seq<char>,
    operation: Seq<char>,
) -> GitErrorKind {
    if contains_text(low, "not a git repository"@) || contains_text(low, "файл не найден"@) {
        GitErrorKind::RepositoryNotFound
    } else if contains_text(low, "permission denied"@) || contains_text(low, "доступ запрещен"@) {
        GitErrorKind::InsufficientPermissions
    } else if contains_text(low, "ambiguous"@) || contains_text(low, "unknown revision"@) {
        GitErrorKind::InvalidRef
    } else if contains_text(low, "fatal: not a valid object name"@) {
        GitErrorKind::TagNotFound
    } else if contains_text(low, "working tree has modifications"@) || contains_text(
        low,
        "незакоммиченные изменения"@,
    ) {
        GitErrorKind::WorkingDirectoryDirty
    } else if contains_text(low, "merge conflict"@) || contains_text(low, "конфликт слияния"@) {
        GitErrorKind::MergeConflict
    } else if contains_text(low, "network"@) || contains_text(low, "connection"@) {
        GitErrorKind::NetworkError
    } else if contains_text(low, "timeout"@) || contains_text(low, "таймаут"@) {
        GitErrorKind::TimeoutError
    } else if contains_text(low, "locked"@) || contains_text(low, "заблокирован"@) {
        GitErrorKind::LockedFile
    } else if contains_text(low, "no space"@) || contains_text(low, "диск заполнен"@) {
        GitErrorKind::DiskSpaceExhausted
    } else {
        GitErrorKind::CommandFailed
    }
}

/// The variants of `GitError` that classification can give.
#[derive(Debug, Clone, Copy, PartialEq, Eq, Structural)]
pub enum GitErrorKind {
    RepositoryNotFound,
    InsufficientPermissions,
    InvalidRef,
    TagNotFound,
    WorkingDirectoryDirty,
    MergeConflict,
    NetworkError,
    TimeoutError,
    LockedFile,
    DiskSpaceExhausted,
    CommandFailed,
}

/// `e` is the error of kind `kind` with its fields filled from the lower-cased
/// message `low`, the message `raw`, the repository `path` and the
/// `operation`.
pub open spec fn error_is(
    e: GitError,
    kind: GitErrorKind,
    low: Seq<char>,
    raw: Seq<char>,
    path: Seq<char>,
    operation: Seq<char>,
) -> bool {
    match kind {
        GitErrorKind::RepositoryNotFound => e matches GitError::RepositoryNotFound { path: p }
            && p@ == path,
        GitErrorKind::InsufficientPermissions => e matches GitError::InsufficientPermissions {
            operation: o,
        } && o@ == operation,
        GitErrorKind::InvalidRef => e matches GitError::InvalidRef { ref_name } && ref_name@
            == operation,
        GitErrorKind::TagNotFound => e matches GitError::TagNotFound { tag_name } && tag_name@
            == operation,
        GitErrorKind::WorkingDirectoryDirty => e is WorkingDirectoryDirty,
        GitErrorKind::MergeConflict => e matches GitError::MergeConflict { conflict_details }
            && conflict_details@ == low,
        GitErrorKind::NetworkError => e matches GitError::NetworkError { details } && details@
            == low,
        GitErrorKind::TimeoutError => e matches GitError::TimeoutError { operation: o } && o@
            == operation,
        GitErrorKind::LockedFile => e matches GitError::LockedFile { path: p } && p@ == path,
        GitErrorKind::DiskSpaceExhausted => e is DiskSpaceExhausted,
        GitErrorKind::CommandFailed => e matches GitError::CommandFailed { command, message }
            && command@ == operation && message@ == raw,
    }
}

/// The warning raised after an operation named `operation` in a repository
/// that holds `commit_count` commits.
pub open spec fn warning_for(operation: Seq<char>, commit_count: nat) -> Option<Seq<char>> {
    if (operation == "get_commits_between"@ || operation == "get_recent_commits"@) && commit_count
        > 1000 {
        Some(
            "Обнаружено большое количество коммитов: "@ + decimal_text(commit_count)
                + ". Производительность может быть снижена."@,
        )
    } else {
        None
    }
}

/// `r` concludes an operation named `operation` that ended with `outcome`
/// after `time` in the repository at `path`: a success is recorded with
/// what it produced and the warning that is due; a failure is classified.
pub open spec fn is_conclusion<T>(
    r: Result<GitOperationResult<T>, GitError>,
    path: Seq<char>,
    outcome: Result<T, String>,
    operation: Seq<char>,
    commit_count: nat,
    time: Duration,
) -> bool {
    match outcome {
        Ok(data) => r matches Ok(res) && res.success && res.data == Some(data)
            && res.execution_time == time && crate::pattern::opt_text(res.warning) == warning_for(
            operation,
            commit_count,
        ),
        Err(message) => r matches Err(e) && error_is(
            e,
            classified(lowercase_of(message@), message@, path, operation),
            lowercase_of(message@),
            message@,
            path,
            operation,
        ),
    }
}

impl GitErrorHandler {
    /// A handler for the repository at `repository_path`.
    pub fn new(repository_path: &str) -> (r: Self)
        ensures
            r.repository_path@ == repository_path@,
    {
        GitErrorHandler { repository_path: repository_path.to_owned() }
    }

    /// Turns the outcome of an operation into a result record, or into the
    /// classified error. `commit_count` is the size of the history, which
    /// decides on the warning.
    pub fn safe_execute<T>(
        &self,
        outcome: Result<T, String>,
        operation_name: &str,
        commit_count: usize,
        execution_time: Duration,
    ) -> (r: Result<GitOperationResult<T>, GitError>)
        ensures
            is_conclusion(
                r,
                self.repository_path@,
                outcome,
                operation_name@,
                commit_count as nat,
                execution_time,
            ),
    {
        match outcome {
            Ok(data) => {
                match self.check_for_warnings(operation_name, commit_count) {
                    Some(w) => Ok(GitOperationResult::success_with_warning(data, w, execution_time)),
                    None => Ok(GitOperationResult::success(data, execution_time)),
                }
            },
            Err(message) => Err(self.handle_error(message.as_str(), operation_name)),
        }
    }

    /// The warning to raise after `operation_name` succeeded.
    pub fn check_for_warnings(&self, operation_name: &str, commit_count: usize) -> (r: Option<
        String,
    >)
        ensures
            crate::pattern::opt_text(r) == warning_for(operation_name@, commit_count as nat),
    {
        let about_history = crate::text::same_str(operation_name, "get_commits_between")
            || crate::text::same_str(operation_name, "get_recent_commits");
        if about_history && commit_count > 1000 {
            let mut out = to_chars("Обнаружено большое количество коммитов: ");
            crate::number::push_decimal(&mut out, commit_count as u128);
            crate::text::append_str(&mut out, ". Производительность может быть снижена.");
            Some(crate::text::from_chars(&out))
        } else {
            None
        }
    }

    /// Classifies the failure that the message `error` tells of.
    pub fn handle_error(&self, error: &str, operation_name: &str) -> (e: GitError)
        ensures
            error_is(
                e,
                classified(lowercase_of(error@), error@, self.repository_path@, operation_name@),
                lowercase_of(error@),
                error@,
                self.repository_path@,
                operation_name@,
            ),
    {
        let lowered = lowercase(error);
        let low = to_chars(lowered.as_str());
        if contains_str(&low, "not a git repository") || contains_str(&low, "файл не найден") {
            GitError::RepositoryNotFound { path: self.repository_path.clone() }
        } else if contains_str(&low, "permission denied") || contains_str(&low, "доступ запрещен") {
            GitError::InsufficientPermissions { operation: operation_name.to_owned() }
        } else if contains_str(&low, "ambiguous") || contains_str(&low, "unknown revision") {
            GitError::InvalidRef { ref_name: operation_name.to_owned() }
        } else if contains_str(&low, "fatal: not a valid object name") {
            GitError::TagNotFound { tag_name: operation_name.to_owned() }
        } else if contains_str(&low, "working tree has modifications") || contains_str(
            &low,
            "незакоммиченные изменения",
        ) {
            GitError::WorkingDirectoryDirty
        } else if contains_str(&low, "merge conflict") || contains_str(&low, "конфликт слияния") {
            GitError::MergeConflict { conflict_details: lowered }
        } else if contains_str(&low, "network") || contains_str(&low, "connection") {
            GitError::NetworkError { details: lowered }
        } else if contains_str(&low, "timeout") || contains_str(&low, "таймаут") {
            GitError::TimeoutError { operation: operation_name.to_owned() }
        } else if contains_str(&low, "locked") || contains_str(&low, "заблокирован") {
            GitError::LockedFile { path: self.repository_path.clone() }
        } else if contains_str(&low, "no space") || contains_str(&low, "диск заполнен") {
            GitError::DiskSpaceExhausted
        } else {
            GitError::CommandFailed {
                command: operation_name.to_owned(),
                message: error.to_owned(),
            }
        }
    }

    /// The way to recover from `error`. `can_stash` says whether local
    /// changes can be put aside, `network_ok` whether the network answers.
    pub fn attempt_recovery(&self, error: &GitError, can_stash: bool, network_ok: bool) -> (r:
        RecoveryAction)
        ensures
            r == match *error {
                GitError::WorkingDirectoryDirty => if can_stash {
                    RecoveryAction::StashChanges
                } else {
                    RecoveryAction::AbortOperation
                },
                GitError::NetworkError { .. } => if network_ok {
                    RecoveryAction::RetryOperation
                } else {
                    RecoveryAction::AbortOperation
                },
                GitError::LockedFile { .. } => RecoveryAction::WaitAndRetry,
                GitError::TimeoutError { .. } => RecoveryAction::RetryWithTimeout,
                _ => RecoveryAction::AbortOperation,
            },
    {
        match error {
            GitError::WorkingDirectoryDirty => if can_stash {
                RecoveryAction::StashChanges
            } else {
                RecoveryAction::AbortOperation
            },
            GitError::NetworkError { .. } => if network_ok {
                RecoveryAction::RetryOperation
            } else {
                RecoveryAction::AbortOperation
            },
            GitError::LockedFile { .. } => RecoveryAction::WaitAndRetry,
            GitError::TimeoutError { .. } => RecoveryAction::RetryWithTimeout,
            _ => RecoveryAction::AbortOperation,
        }
    }
}

/// Checks a repository before an operation runs.
#[derive(Debug, Clone)]
pub struct GitValidator {
    pub repository_path: String,
}

/// The warning about a remote that does not answer.
pub open spec fn remote_warning(remote: Seq<char>) -> Seq<char> {
    "Удаленный репозиторий '"@ + remote + "' недоступен"@
}

/// The warnings about the remotes that do not answer, in order.
pub open spec fn remote_warnings(remotes: Seq<Seq<char>>) -> Seq<Seq<char>> {
    remotes.map_values(|r: Seq<char>| remote_warning(r))
}

/// Less than 100 MiB are free.
pub open spec fn disk_is_low(disk: Option<DiskSpaceInfo>) -> bool {
    match disk {
        Some(d) => d.free_bytes < 100 * 1024 * 1024,
        None => false,
    }
}

/// The warnings on a directory that is a repository: uncommitted changes,
/// remotes that do not answer, little free space.
pub open spec fn state_warnings(
    has_uncommitted_changes: bool,
    unavailable_remotes: Seq<Seq<char>>,
    disk: Option<DiskSpaceInfo>,
) -> Seq<Seq<char>> {
    (if has_uncommitted_changes {
        seq!["Есть незакоммиченные изменения"@]
    } else {
        Seq::empty()
    }) + remote_warnings(unavailable_remotes) + (if disk_is_low(disk) {
        seq!["Мало свободного места на диске"@]
    } else {
        Seq::empty()
    })
}

impl GitValidator {
    /// A validator for the repository at `repository_path`.
    pub fn new(repository_path: &str) -> (r: Self)
        ensures
            r.repository_path@ == repository_path@,
    {
        GitValidator { repository_path: repository_path.to_owned() }
    }

    /// Judges the state of the repository from what was observed of it. A
    /// directory that is no repository is invalid, with that one issue;
    /// anything else is valid and only warned about.
    pub fn validate_repository_state(
        &self,
        is_repository: bool,
        has_uncommitted_changes: bool,
        unavailable_remotes: &Vec<String>,
        disk: Option<DiskSpaceInfo>,
    ) -> (r: ValidationResult)
        ensures
            r.is_valid == is_repository,
            !is_repository ==> strings(r.issues@) == seq![
                "Директория не является Git репозиторием"@,
            ] && r.warnings@.len() == 0,
            is_repository ==> r.issues@.len() == 0 && strings(r.warnings@) == state_warnings(
                has_uncommitted_changes,
                strings(unavailable_remotes@),
                disk,
            ),
    {
        let mut issues: Vec<String> = Vec::new();
        let mut warnings: Vec<String> = Vec::new();
        if !is_repository {
            issues.push("Директория не является Git репозиторием".to_owned());
            assert(strings(issues@) =~= seq!["Директория не является Git репозиторием"@]);
            return ValidationResult { is_valid: false, issues, warnings };
        }
        if has_uncommitted_changes {
            warnings.push("Есть незакоммиченные изменения".to_owned());
        }
        let ghost head = strings(warnings@);
        assert(head =~= if has_uncommitted_changes {
            seq!["Есть незакоммиченные изменения"@]
        } else {
            Seq::<Seq<char>>::empty()
        });
        let mut i: usize = 0;
        while i < unavailable_remotes.len()
            invariant
                i <= unavailable_remotes.len(),
                warnings.len() == head.len() + i,
                forall|j: int| 0 <= j < head.len() ==> (#[trigger] warnings@[j])@ == head[j],
                forall|j: int|
                    0 <= j < i ==> (#[trigger] warnings@[head.len() + j])@ == remote_warning(
                        unavailable_remotes@[j]@,
                    ),
            decreases unavailable_remotes.len() - i,
        {
            let mut w = to_chars("Удаленный репозиторий '");
            crate::text::append_str(&mut w, unavailable_remotes[i].as_str());
            crate::text::append_str(&mut w, "' недоступен");
            warnings.push(crate::text::from_chars(&w));
            i = i + 1;
        }
        let ghost joined = head + remote_warnings(strings(unavailable_remotes@));
        assert(strings(warnings@).len() == joined.len());
        assert forall|k: int| 0 <= k < joined.len() implies strings(warnings@)[k] == joined[k] by {
            if k >= head.len() {
                let j = k - head.len();
                assert(warnings@[head.len() + j]@ == remote_warning(unavailable_remotes@[j]@));
            }
        }
        assert(strings(warnings@) =~= joined);
        let low = match disk {
            Some(d) => d.free_bytes < 100 * 1024 * 1024,
            None => false,
        };
        if low {
            let ghost before = strings(warnings@);
            warnings.push("Мало свободного места на диске".to_owned());
            assert(strings(warnings@) =~= before.push("Мало свободного места на диске"@));
        }
        assert(strings(warnings@) =~= state_warnings(
            has_uncommitted_changes,
            strings(unavailable_remotes@),
            disk,
        ));
        ValidationResult { is_valid: true, issues, warnings }
    }
}

} // verus!
