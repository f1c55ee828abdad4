//! Checks on the paths and file names that the file service is asked to
//! work on.

use vstd::prelude::*;
use crate::checksum::sha256_hex;
use crate::paths::{components, components_of, strip_prefix, without_prefix};
use crate::split::texts;
use crate::text::{append_str, from_chars, same_text, to_chars, uppercase, uppercase_of};

verus! {

/// Some component of the path is `..`.
pub open spec fn climbs(path: Seq<char>) -> bool {
    exists|i: int|
        0 <= i < components_of(path).len() && #[trigger] components_of(path)[i] == ".."@
}

/// The path begins at the root.
pub open spec fn is_absolute(path: Seq<char>) -> bool {
    path.len() > 0 && path[0] == '/'
}

/// A character that no file name may hold.
pub open spec fn is_forbidden(c: char) -> bool {
    c == '<' || c == '>' || c == ':' || c == '"' || c == '|' || c == '?' || c == '*' || c == '\0'
}

/// Some character of `name` is forbidden.
pub open spec fn has_forbidden(name: Seq<char>) -> bool {
    exists|i: int| 0 <= i < name.len() && is_forbidden(#[trigger] name[i])
}

/// The names that stand for devices and cannot name a file.
pub open spec fn reserved_names() -> Seq<Seq<char>> {
    seq![
        "CON"@,
        "PRN"@,
        "AUX"@,
        "NUL"@,
        "COM1"@,
        "COM2"@,
        "COM3"@,
        "COM4"@,
        "COM5"@,
        "COM6"@,
        "COM7"@,
        "COM8"@,
        "COM9"@,
        "LPT1"@,
        "LPT2"@,
        "LPT3"@,
        "LPT4"@,
        "LPT5"@,
        "LPT6"@,
        "LPT7"@,
        "LPT8"@,
        "LPT9"@,
    ]
}

/// What stands against the file name `name`.
pub open spec fn filename_complaint(name: Seq<char>) -> Option<Seq<char>> {
    if name.len() == 0 {
        Some("Filename cannot be empty"@)
    } else if has_forbidden(name) {
        Some("Filename contains invalid characters"@)
    } else if reserved_names().contains(uppercase_of(name)) {
        Some("'"@ + name + "' is a reserved filename"@)
    } else {
        None
    }
}

/// What stands against the path `path`.
pub open spec fn path_complaint(path: Seq<char>) -> Option<Seq<char>> {
    if is_absolute(path) {
        Some("Absolute paths are not allowed"@)
    } else if climbs(path) {
        Some("Path traversal detected: '..' not allowed"@)
    } else {
        None
    }
}

/// The SHA-256 checksum of `content`, in lower-case hexadecimal.
pub fn calculate_checksum(content: &[u8]) -> (r: String)
    ensures
        r@ == sha256_hex(content@),
{
    crate::checksum::calculate_checksum(content)
}

/// Accepts a relative path that never climbs to a parent directory, and
/// hands it back.
pub fn sanitize_path(path: &str) -> (r: Result<String, String>)
    ensures
        match path_complaint(path@) {
            None => r matches Ok(p) && p@ == path@,
            Some(m) => r matches Err(e) && e@ == m,
        },
{
    let chars = to_chars(path);
    if chars.len() > 0 && chars[0] == '/' {
        return Err("Absolute paths are not allowed".to_owned());
    }
    let parts = components(&chars);
    let up = to_chars("..");
    let mut i: usize = 0;
    while i < parts.len()
        invariant
            i <= parts.len(),
            up@ == ".."@,
            !is_absolute(path@),
            texts(parts@) == components_of(path@),
            forall|j: int| 0 <= j < i ==> components_of(path@)[j] != ".."@,
        decreases parts.len() - i,
    {
        assert(texts(parts@)[i as int] == parts@[i as int]@);
        if same_text(&parts[i], &up) {
            assert(components_of(path@)[i as int] == ".."@);
            return Err("Path traversal detected: '..' not allowed".to_owned());
        }
        i = i + 1;
    }
    Ok(path.to_owned())
}

/// Whether the resolved path `target` lies in the resolved directory
/// `base`, component for component. A path that could not be resolved lies
/// nowhere.
pub fn is_safe_path(base: Option<&str>, target: Option<&str>) -> (r: bool)
    ensures
        r == match (base, target) {
            (Some(b), Some(t)) => without_prefix(components_of(t@), components_of(b@)) is Some,
            _ => false,
        },
{
    match (base, target) {
        (Some(b), Some(t)) => {
            let inside = strip_prefix(&components(&to_chars(t)), &components(&to_chars(b)));
            inside.is_some()
        },
        _ => false,
    }
}

/// Whether `c` is a character that no file name may hold.
pub fn char_is_forbidden(c: char) -> (r: bool)
    ensures
        r == is_forbidden(c),
{
    c == '<' || c == '>' || c == ':' || c == '"' || c == '|' || c == '?' || c == '*' || c == '\0'
}

/// Accepts a file name that is not empty, holds no forbidden character and
/// is no device name, whatever its case.
pub fn validate_filename(filename: &str) -> (r: Result<(), String>)
    ensures
        match filename_complaint(filename@) {
            None => r is Ok,
            Some(m) => r matches Err(e) && e@ == m,
        },
{
    let chars = to_chars(filename);
    if chars.len() == 0 {
        return Err("Filename cannot be empty".to_owned());
    }
    let mut i: usize = 0;
    while i < chars.len()
        invariant
            i <= chars.len(),
            chars@ == filename@,
            filename@.len() > 0,
            forall|j: int| 0 <= j < i ==> !is_forbidden(#[trigger] chars@[j]),
        decreases chars.len() - i,
    {
        if char_is_forbidden(chars[i]) {
            assert(is_forbidden(filename@[i as int]));
            return Err("Filename contains invalid characters".to_owned());
        }
        i = i + 1;
    }
    assert(!has_forbidden(filename@));
    let reserved: Vec<&'static str> = vec![
        "CON",
        "PRN",
        "AUX",
        "NUL",
        "COM1",
        "COM2",
        "COM3",
        "COM4",
        "COM5",
        "COM6",
        "COM7",
        "COM8",
        "COM9",
        "LPT1",
        "LPT2",
        "LPT3",
        "LPT4",
        "LPT5",
        "LPT6",
        "LPT7",
        "LPT8",
        "LPT9",
    ];
    assert(crate::classifier::literals(reserved@) =~= reserved_names());
    let upper = to_chars(uppercase(filename).as_str());
    let mut k: usize = 0;
    while k < reserved.len()
        invariant
            k <= reserved.len(),
            upper@ == uppercase_of(filename@),
            filename@.len() > 0,
            !has_forbidden(filename@),
            crate::classifier::literals(reserved@) == reserved_names(),
            forall|j: int| 0 <= j < k ==> reserved_names()[j] != upper@,
        decreases reserved.len() - k,
    {
        assert(crate::classifier::literals(reserved@)[k as int] == reserved@[k as int]@);
        if same_text(&to_chars(reserved[k]), &upper) {
            let mut message = to_chars("'");
            append_str(&mut message, filename);
            append_str(&mut message, "' is a reserved filename");
            assert(reserved_names()[k as int] == upper@);
            return Err(from_chars(&message));
        }
        k = k + 1;
    }
    Ok(())
}

} // verus!
