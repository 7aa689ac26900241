//! What the iOS and Android packagers share: their error type and the path
//! operations their plans are made of.
use vstd::prelude::*;
use camino::Utf8Path;

verus! {

/// Why a packaging step refused its input.
#[derive(Debug, Clone, PartialEq, Eq)]
pub struct PackagerError {
    pub message: String,
}

impl PackagerError {
    /// The human-readable message.
    pub fn message(&self) -> (res: String)
        ensures
            res@ == self.message@,
    {
        self.message.clone()
    }
}

/// An error carrying `message`.
pub(crate) fn packager_error(message: String) -> (e: PackagerError)
    ensures
        e.message@ == message@,
{
    PackagerError { message }
}

/// An error `prefix` + `value` + `suffix`.
pub(crate) fn error_with(prefix: &str, value: &str, suffix: &str) -> (e: PackagerError)
    ensures
        e.message@ == prefix@ + value@ + suffix@,
{
    let mut message = String::from_str(prefix);
    message.append(value);
    message.append(suffix);
    PackagerError { message }
}

/// The path `part` adjoined to `base`, as `std::path::Path::join` makes it.
pub uninterp spec fn std_joined(base: Seq<char>, part: Seq<char>) -> Seq<char>;

/// `std::path::Path::new(base).join(part)`, as text. The contract only names
/// the result; how `join` treats separators and absolute parts is not stated.
#[verifier::external_body]
pub(crate) fn path_join(base: &str, part: &str) -> (res: String)
    ensures
        res@ == std_joined(base@, part@),
{
    std::path::Path::new(base).join(part).to_string_lossy().into_owned()
}

/// The path `part` adjoined to `base`, as `camino::Utf8Path::join` makes it.
pub uninterp spec fn utf8_joined(base: Seq<char>, part: Seq<char>) -> Seq<char>;

/// `camino::Utf8Path::new(base).join(part)`, as text. The contract only
/// names the result; how `join` treats separators and absolute parts is not
/// stated.
#[verifier::external_body]
pub(crate) fn utf8_path_join(base: &str, part: &str) -> (res: String)
    ensures
        res@ == utf8_joined(base@, part@),
{
    Utf8Path::new(base).join(part).into_string()
}

/// The last component of a path, as `std::path::Path::file_name` finds it.
pub uninterp spec fn std_file_name(path: Seq<char>) -> Option<Seq<char>>;

/// `std::path::Path::new(path).file_name()`, as text; `None` when the path
/// ends in `..` or is a root or empty. The contract only names the result.
#[verifier::external_body]
pub(crate) fn path_file_name(path: &str) -> (res: Option<String>)
    ensures
        match res {
            Some(name) => std_file_name(path@) == Some(name@),
            None => std_file_name(path@) is None,
        },
{
    match std::path::Path::new(path).file_name() {
        Some(name) => Some(name.to_string_lossy().into_owned()),
        None => None,
    }
}

/// The extension of a path, as `std::path::Path::extension` finds it.
pub uninterp spec fn std_extension(path: Seq<char>) -> Option<Seq<char>>;

/// `std::path::Path::new(path).extension()`, as text; `None` when the file
/// name has no `.` after its first character. The contract only names the
/// result.
#[verifier::external_body]
pub(crate) fn path_extension(path: &str) -> (res: Option<String>)
    ensures
        match res {
            Some(ext) => std_extension(path@) == Some(ext@),
            None => std_extension(path@) is None,
        },
{
    match std::path::Path::new(path).extension() {
        Some(ext) => Some(ext.to_string_lossy().into_owned()),
        None => None,
    }
}

/// The stem of a path, as `std::path::Path::file_stem` finds it.
pub uninterp spec fn std_file_stem(path: Seq<char>) -> Option<Seq<char>>;

/// `std::path::Path::new(path).file_stem()`, as text; `None` when the path
/// has no file name. The contract only names the result.
#[verifier::external_body]
pub(crate) fn path_file_stem(path: &str) -> (res: Option<String>)
    ensures
        match res {
            Some(stem) => std_file_stem(path@) == Some(stem@),
            None => std_file_stem(path@) is None,
        },
{
    match std::path::Path::new(path).file_stem() {
        Some(stem) => Some(stem.to_string_lossy().into_owned()),
        None => None,
    }
}

/// Whether two paths are equal as `std::path::Path` compares them, component
/// by component.
pub uninterp spec fn std_same_path(a: Seq<char>, b: Seq<char>) -> bool;

/// `std::path::Path::new(a) == std::path::Path::new(b)`. The contract only
/// names the result.
#[verifier::external_body]
pub(crate) fn same_path(a: &str, b: &str) -> (r: bool)
    ensures
        r == std_same_path(a@, b@),
{
    std::path::Path::new(a) == std::path::Path::new(b)
}

} // verus!
