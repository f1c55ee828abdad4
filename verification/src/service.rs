//! The file service: its settings, its requests and answers, and the
//! checks that every operation has to pass before anything is touched.

use vstd::prelude::*;
use crate::deployer::joined_path;
use crate::error::strings;
use crate::paths::{components, components_of, is_normal};
use crate::security::{path_complaint, sanitize_path};
use crate::service_error::{AppError, AppErrorView};
use crate::split::texts;
use crate::text::{
    append, append_str, from_chars, lowercase, lowercase_of, same_str, same_text, slice,
    starts_with, starts_with_text, to_chars,
};

verus! {

/// The settings of the file service.
#[derive(Debug, Clone)]
pub struct Config {
    /// The directory that all operations stay in.
    pub base_dir: String,
    /// The largest size of a file, in bytes.
    pub max_file_size: usize,
    /// The file extensions that are allowed; all are when the list is
    /// empty.
    pub allowed_extensions: Vec<String>,
    /// The paths that are never touched.
    pub blocked_paths: Vec<String>,
    pub verbose: bool,
}

/// Asks for a file to be created.
#[derive(Debug, Clone)]
pub struct CreateFileRequest {
    pub path: String,
    pub content: String,
    pub overwrite: bool,
}

/// Asks for a file to get new content.
#[derive(Debug, Clone)]
pub struct UpdateFileRequest {
    pub content: String,
}

/// Tells of a file that was written.
#[derive(Debug, Clone)]
pub struct FileResponse {
    pub path: String,
    pub size: u64,
    pub created_at: String,
    pub modified_at: String,
    pub is_readonly: bool,
    pub checksum: String,
}

/// The content of a file that was read.
#[derive(Debug, Clone)]
pub struct FileContentResponse {
    pub path: String,
    pub content: String,
    pub size: u64,
    pub mime_type: String,
    pub checksum: String,
}

/// One file of a listing.
#[derive(Debug, Clone)]
pub struct FileInfo {
    pub name: String,
    pub path: String,
    pub size: u64,
    pub modified_at: String,
    pub is_readonly: bool,
}

/// One directory of a listing.
#[derive(Debug, Clone)]
pub struct DirectoryInfo {
    pub name: String,
    pub path: String,
    pub modified_at: String,
}

/// The files and directories of a directory.
#[derive(Debug, Clone)]
pub struct DirectoryListResponse {
    pub path: String,
    pub files: Vec<FileInfo>,
    pub directories: Vec<DirectoryInfo>,
}

/// Asks for a directory to be created.
#[derive(Debug, Clone)]
pub struct CreateDirectoryRequest {
    pub path: String,
    pub recursive: bool,
}

/// Tells of a directory that was created.
#[derive(Debug, Clone)]
pub struct DirectoryResponse {
    pub path: String,
    pub created_at: String,
}

/// Tells of something that was deleted.
#[derive(Debug, Clone)]
pub struct DeleteResponse {
    pub success: bool,
    pub message: String,
}

/// Tells that the service is up.
#[derive(Debug, Clone)]
pub struct HealthResponse {
    pub status: String,
    pub version: String,
    pub uptime_seconds: u64,
}

/// The query of a listing.
#[derive(Debug, Clone)]
pub struct ListQuery {
    pub path: Option<String>,
}

/// The operations of the file service.
#[derive(Debug, Clone, Copy)]
pub struct FileService;

/// The paths that the service blocks unless told otherwise.
pub open spec fn default_blocked() -> Seq<Seq<char>> {
    seq!["/etc"@, "/sys"@, "/proc"@, "C:\\Windows"@, "C:\\System32"@]
}

/// Some blocked path begins `path`.
pub open spec fn is_blocked(blocked: Seq<Seq<char>>, path: Seq<char>) -> bool {
    exists|i: int| 0 <= i < blocked.len() && starts_with_text(path, #[trigger] blocked[i])
}

/// The index of the last dot of `name`, or -1.
pub open spec fn last_dot(name: Seq<char>) -> int
    decreases name.len(),
{
    if name.len() == 0 {
        -1
    } else if name.last() == '.' {
        name.len() - 1
    } else {
        last_dot(name.drop_last())
    }
}

/// The extension of the file that `path` names: what follows the last dot
/// of its last component, unless that component begins with its only dot.
pub open spec fn extension_text(path: Seq<char>) -> Option<Seq<char>> {
    let c = components_of(path);
    if c.len() == 0 || !is_normal(c.last()) {
        None
    } else if last_dot(c.last()) <= 0 {
        None
    } else {
        Some(c.last().subrange(last_dot(c.last()) + 1, c.last().len() as int))
    }
}

/// The extension `ext` is one of `allowed`, case ignored.
pub open spec fn extension_listed(allowed: Seq<Seq<char>>, ext: Seq<char>) -> bool {
    exists|i: int|
        0 <= i < allowed.len() && lowercase_of(#[trigger] allowed[i]) == lowercase_of(ext)
}

/// Whether the settings allow the extension of `path`.
pub open spec fn extension_allowed(allowed: Seq<Seq<char>>, path: Seq<char>) -> bool {
    allowed.len() == 0 || match extension_text(path) {
        Some(ext) => extension_listed(allowed, ext),
        None => false,
    }
}

/// Whether the settings allow `path`. `within_base` tells whether the
/// path, resolved on disk, lies in the base directory; `None` when it could
/// not be resolved.
pub open spec fn path_allowed(blocked: Seq<Seq<char>>, path: Seq<char>, within_base: Option<bool>) -> bool {
    !is_blocked(blocked, path) && match within_base {
        Some(b) => b,
        None => true,
    }
}

/// The refusal of a path that the settings do not allow.
pub open spec fn access_refusal(path: Seq<char>) -> AppErrorView {
    AppErrorView::PermissionDenied(quoted("Access to path "@, path, " is not allowed"@))
}

/// What the checks common to all operations on `path` come to: the full
/// path below the base directory, or the refusal.
pub open spec fn admission(c: Config, path: Seq<char>, within_base: Option<bool>) -> Result<
    Seq<char>,
    AppErrorView,
> {
    match path_complaint(path) {
        Some(m) => Err(AppErrorView::InvalidInput(m)),
        None => if path_allowed(
            strings(c.blocked_paths@),
            joined_path(c.base_dir@, path),
            within_base,
        ) {
            Ok(joined_path(c.base_dir@, path))
        } else {
            Err(access_refusal(path))
        },
    }
}

/// `r` tells the outcome `expected`.
pub open spec fn tells(r: Result<String, AppError>, expected: Result<Seq<char>, AppErrorView>) -> bool {
    match expected {
        Ok(p) => r matches Ok(s) && s@ == p,
        Err(v) => r matches Err(e) && e@ == v,
    }
}

/// The number of bytes that `text` takes in UTF-8, as a machine word.
pub open spec fn byte_length(text: Seq<char>) -> usize {
    vstd::utf8::encode_utf8(text).len() as usize
}

/// A message made of a subject in quotes between two texts.
pub open spec fn quoted(before: Seq<char>, subject: Seq<char>, after: Seq<char>) -> Seq<char> {
    before + "'"@ + subject + "'"@ + after
}

/// A message made of a subject in quotes between two texts.
pub fn quote(before: &str, subject: &str, after: &str) -> (r: String)
    ensures
        r@ == quoted(before@, subject@, after@),
{
    let mut out = to_chars(before);
    append_str(&mut out, "'");
    append_str(&mut out, subject);
    append_str(&mut out, "'");
    append_str(&mut out, after);
    from_chars(&out)
}

impl Default for Config {
    /// The settings that hold unless a file says otherwise.
    fn default() -> (r: Self)
        ensures
            r.base_dir@ == "./data"@,
            r.max_file_size == 10 * 1024 * 1024,
            r.allowed_extensions@.len() == 0,
            strings(r.blocked_paths@) == default_blocked(),
            !r.verbose,
    {
        let mut blocked: Vec<String> = Vec::new();
        blocked.push("/etc".to_owned());
        blocked.push("/sys".to_owned());
        blocked.push("/proc".to_owned());
        blocked.push("C:\\Windows".to_owned());
        blocked.push("C:\\System32".to_owned());
        assert(strings(blocked@) =~= default_blocked());
        Config {
            base_dir: "./data".to_owned(),
            max_file_size: 10 * 1024 * 1024,
            allowed_extensions: Vec::new(),
            blocked_paths: blocked,
            verbose: false,
        }
    }
}

/// The extension of the file that `path` names.
pub fn extension_of(path: &str) -> (r: Option<Vec<char>>)
    ensures
        match r {
            Some(e) => extension_text(path@) == Some(e@),
            None => extension_text(path@) is None,
        },
{
    let parts = components(&to_chars(path));
    if parts.len() == 0 {
        return None;
    }
    let name = &parts[parts.len() - 1];
    assert(texts(parts@).last() == name@);
    if same_text(name, &to_chars("/")) || same_text(name, &to_chars(".")) || same_text(
        name,
        &to_chars(".."),
    ) {
        return None;
    }
    let mut n: usize = name.len();
    assert(name@.subrange(0, n as int) =~= name@);
    while n > 0 && name[n - 1] != '.'
        invariant
            n <= name.len(),
            last_dot(name@) == last_dot(name@.subrange(0, n as int)),
        decreases n,
    {
        assert(name@.subrange(0, n as int).drop_last() =~= name@.subrange(0, n - 1));
        n = n - 1;
    }
    if n <= 1 {
        None
    } else {
        Some(slice(name, n, name.len()))
    }
}

impl Config {
    /// Whether `path` may be touched: no blocked path begins it and,
    /// where it could be resolved on disk, it lies in the base directory.
    pub fn is_path_allowed(&self, path: &str, within_base: Option<bool>) -> (r: bool)
        ensures
            r == path_allowed(strings(self.blocked_paths@), path@, within_base),
    {
        let chars = to_chars(path);
        let mut i: usize = 0;
        while i < self.blocked_paths.len()
            invariant
                i <= self.blocked_paths.len(),
                chars@ == path@,
                forall|j: int|
                    0 <= j < i ==> !starts_with_text(path@, #[trigger] strings(
                        self.blocked_paths@,
                    )[j]),
            decreases self.blocked_paths.len() - i,
        {
            assert(strings(self.blocked_paths@)[i as int] == self.blocked_paths@[i as int]@);
            if starts_with(&chars, &to_chars(self.blocked_paths[i].as_str())) {
                return false;
            }
            i = i + 1;
        }
        match within_base {
            Some(b) => b,
            None => true,
        }
    }

    /// Whether files with the extension of `path` may be written.
    pub fn is_extension_allowed(&self, path: &str) -> (r: bool)
        ensures
            r == extension_allowed(strings(self.allowed_extensions@), path@),
    {
        if self.allowed_extensions.len() == 0 {
            return true;
        }
        match extension_of(path) {
            Some(ext) => {
                let wanted = lowercase(from_chars(&ext).as_str());
                let mut i: usize = 0;
                while i < self.allowed_extensions.len()
                    invariant
                        i <= self.allowed_extensions.len(),
                        self.allowed_extensions.len() > 0,
                        extension_text(path@) == Some(ext@),
                        wanted@ == lowercase_of(ext@),
                        forall|j: int|
                            0 <= j < i ==> lowercase_of(
                                #[trigger] strings(self.allowed_extensions@)[j],
                            ) != lowercase_of(ext@),
                    decreases self.allowed_extensions.len() - i,
                {
                    assert(strings(self.allowed_extensions@)[i as int]
                        == self.allowed_extensions@[i as int]@);
                    let have = lowercase(self.allowed_extensions[i].as_str());
                    if same_str(have.as_str(), wanted.as_str()) {
                        assert(lowercase_of(strings(self.allowed_extensions@)[i as int])
                            == lowercase_of(ext@));
                        return true;
                    }
                    i = i + 1;
                }
                false
            },
            None => false,
        }
    }
}

impl CreateFileRequest {
    /// A request is valid when its path has 1 to 255 characters.
    pub fn validate(&self) -> (r: Result<(), String>)
        ensures
            r is Ok <==> 1 <= self.path@.len() <= 255,
            r matches Err(e) ==> e@ == "path: length must be between 1 and 255"@,
    {
        let n = self.path.as_str().unicode_len();
        if 1 <= n && n <= 255 {
            Ok(())
        } else {
            Err("path: length must be between 1 and 255".to_owned())
        }
    }
}

impl CreateDirectoryRequest {
    /// A request is valid when its path has 1 to 255 characters.
    pub fn validate(&self) -> (r: Result<(), String>)
        ensures
            r is Ok <==> 1 <= self.path@.len() <= 255,
            r matches Err(e) ==> e@ == "path: length must be between 1 and 255"@,
    {
        let n = self.path.as_str().unicode_len();
        if 1 <= n && n <= 255 {
            Ok(())
        } else {
            Err("path: length must be between 1 and 255".to_owned())
        }
    }
}

impl FileService {
    /// The checks common to all operations: the path is sound and allowed.
    /// Hands out the full path below the base directory.
    pub fn admitted_path(config: &Config, path: &str, within_base: Option<bool>) -> (r: Result<
        String,
        AppError,
    >)
        ensures
            tells(r, admission(*config, path@, within_base)),
    {
        match sanitize_path(path) {
            Err(e) => Err(AppError::InvalidInput(e)),
            Ok(_) => {
                let mut full = to_chars(config.base_dir.as_str());
                if !(full.len() == 0 || full[full.len() - 1] == '/') {
                    append_str(&mut full, "/");
                }
                append_str(&mut full, path);
                let full_text = from_chars(&full);
                if config.is_path_allowed(full_text.as_str(), within_base) {
                    Ok(full_text)
                } else {
                    Err(
                        AppError::PermissionDenied(
                            quote("Access to path ", path, " is not allowed"),
                        ),
                    )
                }
            },
        }
    }

    /// Whether a file may be created: the path is admitted, its extension
    /// allowed, the content not too large, and no file is in the way
    /// unless it may be overwritten.
    pub fn create_file(
        config: &Config,
        request: &CreateFileRequest,
        within_base: Option<bool>,
        exists: bool,
    ) -> (r: Result<String, AppError>)
        ensures
            tells(
                r,
                match admission(*config, request.path@, within_base) {
                    Err(e) => Err(e),
                    Ok(full) => if !extension_allowed(strings(config.allowed_extensions@), full) {
                        Err(
                            AppErrorView::PermissionDenied(
                                "File extension not allowed: "@ + match extension_text(full) {
                                    Some(e) => e,
                                    None => "none"@,
                                },
                            ),
                        )
                    } else if byte_length(request.content@) > config.max_file_size {
                        Err(
                            AppErrorView::FileTooLarge(
                                byte_length(request.content@),
                                config.max_file_size,
                            ),
                        )
                    } else if exists && !request.overwrite {
                        Err(
                            AppErrorView::InvalidInput(
                                quoted("File "@, request.path@, " already exists"@),
                            ),
                        )
                    } else {
                        Ok(full)
                    },
                },
            ),
    {
        let full = match Self::admitted_path(config, request.path.as_str(), within_base) {
            Err(e) => {
                return Err(e);
            },
            Ok(p) => p,
        };
        if !config.is_extension_allowed(full.as_str()) {
            let mut message = to_chars("File extension not allowed: ");
            match extension_of(full.as_str()) {
                Some(e) => append(&mut message, &e),
                None => append_str(&mut message, "none"),
            }
            return Err(AppError::PermissionDenied(from_chars(&message)));
        }
        let size = request.content.as_str().len();
        if size > config.max_file_size {
            return Err(AppError::FileTooLarge(size, config.max_file_size));
        }
        if exists && !request.overwrite {
            return Err(
                AppError::InvalidInput(quote("File ", request.path.as_str(), " already exists")),
            );
        }
        Ok(full)
    }

    /// Whether something that has to exist may be worked on: the path is
    /// admitted and something is there. `what` begins the refusal.
    pub fn existing(config: &Config, path: &str, within_base: Option<bool>, exists: bool, what: &str) -> (r:
        Result<String, AppError>)
        ensures
            tells(
                r,
                match admission(*config, path@, within_base) {
                    Err(e) => Err(e),
                    Ok(full) => if exists {
                        Ok(full)
                    } else {
                        Err(AppErrorView::NotFound(quoted(what@, path@, " not found"@)))
                    },
                },
            ),
    {
        match Self::admitted_path(config, path, within_base) {
            Err(e) => Err(e),
            Ok(full) => if exists {
                Ok(full)
            } else {
                Err(AppError::NotFound(quote(what, path, " not found")))
            },
        }
    }

    /// Whether a file may be read.
    pub fn read_file(config: &Config, path: &str, within_base: Option<bool>, exists: bool) -> (r:
        Result<String, AppError>)
        ensures
            tells(
                r,
                match admission(*config, path@, within_base) {
                    Err(e) => Err(e),
                    Ok(full) => if exists {
                        Ok(full)
                    } else {
                        Err(AppErrorView::NotFound(quoted("File "@, path@, " not found"@)))
                    },
                },
            ),
    {
        Self::existing(config, path, within_base, exists, "File ")
    }

    /// Whether content of `size` bytes is within the limit.
    pub fn check_size(config: &Config, size: usize) -> (r: Result<(), AppError>)
        ensures
            size <= config.max_file_size ==> r is Ok,
            size > config.max_file_size ==> (r matches Err(e) && e@ == AppErrorView::FileTooLarge(
                size,
                config.max_file_size,
            )),
    {
        if size > config.max_file_size {
            Err(AppError::FileTooLarge(size, config.max_file_size))
        } else {
            Ok(())
        }
    }

    /// Whether a file may be given new content.
    pub fn update_file(
        config: &Config,
        path: &str,
        request: &UpdateFileRequest,
        within_base: Option<bool>,
        exists: bool,
    ) -> (r: Result<String, AppError>)
        ensures
            tells(
                r,
                match admission(*config, path@, within_base) {
                    Err(e) => Err(e),
                    Ok(full) => if !exists {
                        Err(AppErrorView::NotFound(quoted("File "@, path@, " not found"@)))
                    } else if byte_length(request.content@) > config.max_file_size {
                        Err(
                            AppErrorView::FileTooLarge(
                                byte_length(request.content@),
                                config.max_file_size,
                            ),
                        )
                    } else {
                        Ok(full)
                    },
                },
            ),
    {
        let full = match Self::existing(config, path, within_base, exists, "File ") {
            Err(e) => {
                return Err(e);
            },
            Ok(p) => p,
        };
        match Self::check_size(config, request.content.as_str().len()) {
            Err(e) => Err(e),
            Ok(_) => Ok(full),
        }
    }

    /// Whether a file may be deleted.
    pub fn delete_file(config: &Config, path: &str, within_base: Option<bool>, exists: bool) -> (r:
        Result<String, AppError>)
        ensures
            tells(
                r,
                match admission(*config, path@, within_base) {
                    Err(e) => Err(e),
                    Ok(full) => if exists {
                        Ok(full)
                    } else {
                        Err(AppErrorView::NotFound(quoted("File "@, path@, " not found"@)))
                    },
                },
            ),
    {
        Self::existing(config, path, within_base, exists, "File ")
    }

    /// Whether a directory may be deleted.
    pub fn delete_directory(config: &Config, path: &str, within_base: Option<bool>, exists: bool) -> (r:
        Result<String, AppError>)
        ensures
            tells(
                r,
                match admission(*config, path@, within_base) {
                    Err(e) => Err(e),
                    Ok(full) => if exists {
                        Ok(full)
                    } else {
                        Err(AppErrorView::NotFound(quoted("Directory "@, path@, " not found"@)))
                    },
                },
            ),
    {
        Self::existing(config, path, within_base, exists, "Directory ")
    }

    /// Whether a directory may be created: the path is admitted and nothing
    /// is there yet.
    pub fn create_directory(
        config: &Config,
        request: &CreateDirectoryRequest,
        within_base: Option<bool>,
        exists: bool,
    ) -> (r: Result<String, AppError>)
        ensures
            tells(
                r,
                match admission(*config, request.path@, within_base) {
                    Err(e) => Err(e),
                    Ok(full) => if exists {
                        Err(
                            AppErrorView::InvalidInput(
                                quoted("Directory "@, request.path@, " already exists"@),
                            ),
                        )
                    } else {
                        Ok(full)
                    },
                },
            ),
    {
        match Self::admitted_path(config, request.path.as_str(), within_base) {
            Err(e) => Err(e),
            Ok(full) => if exists {
                Err(
                    AppError::InvalidInput(
                        quote("Directory ", request.path.as_str(), " already exists"),
                    ),
                )
            } else {
                Ok(full)
            },
        }
    }

    /// Whether a directory may be listed: the base directory itself, or an
    /// admitted directory below it, where it exists.
    pub fn list_files(
        config: &Config,
        dir_path: Option<&str>,
        within_base: Option<bool>,
        exists: bool,
    ) -> (r: Result<String, AppError>)
        ensures
            tells(
                r,
                match dir_path {
                    Some(p) => match path_complaint(p@) {
                        Some(m) => Err(AppErrorView::InvalidInput(m)),
                        None => listing(*config, joined_path(config.base_dir@, p@), within_base, exists),
                    },
                    None => listing(*config, config.base_dir@, within_base, exists),
                },
            ),
    {
        let full = match dir_path {
            Some(p) => {
                match sanitize_path(p) {
                    Err(e) => {
                        return Err(AppError::InvalidInput(e));
                    },
                    Ok(_) => {},
                }
                let mut full = to_chars(config.base_dir.as_str());
                if !(full.len() == 0 || full[full.len() - 1] == '/') {
                    append_str(&mut full, "/");
                }
                append_str(&mut full, p);
                from_chars(&full)
            },
            None => config.base_dir.clone(),
        };
        if !config.is_path_allowed(full.as_str(), within_base) {
            return Err(AppError::PermissionDenied("Access to directory is not allowed".to_owned()));
        }
        if !exists {
            return Err(AppError::NotFound("Directory not found".to_owned()));
        }
        Ok(full)
    }

    /// The answer to a deletion at `path`; `what` begins the message.
    pub fn deleted(what: &str, path: &str) -> (r: DeleteResponse)
        ensures
            r.success,
            r.message@ == quoted(what@, path@, " deleted successfully"@),
    {
        DeleteResponse { success: true, message: quote(what, path, " deleted successfully") }
    }
}

/// What the checks on a directory to list come to.
pub open spec fn listing(c: Config, full: Seq<char>, within_base: Option<bool>, exists: bool) -> Result<
    Seq<char>,
    AppErrorView,
> {
    if !path_allowed(strings(c.blocked_paths@), full, within_base) {
        Err(AppErrorView::PermissionDenied("Access to directory is not allowed"@))
    } else if !exists {
        Err(AppErrorView::NotFound("Directory not found"@))
    } else {
        Ok(full)
    }
}

} // verus!
