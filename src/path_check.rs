//! Validation of the output path typed by the user. What only the file
//! system knows (whether a path is a directory, whether the parent exists)
//! comes in as arguments; the decision is made here.

use vstd::prelude::*;

verus! {

/// Why an output path was refused.
#[derive(Debug, Clone, Copy, PartialEq, Eq, Structural)]
pub enum PathError {
    IsDirectory,
    ParentMissing,
    EmptyFilename,
}

/// What `std::path::Path::parent` returns for a path, as text.
pub uninterp spec fn path_parent(s: Seq<char>) -> Option<Seq<char>>;

/// What `std::path::Path::file_name` returns for a path, as text.
pub uninterp spec fn path_file_name(s: Seq<char>) -> Option<Seq<char>>;

/// Relies on `std::path::Path::parent`: the path without its final
/// component, `None` for a root or the empty path. A `Path` made from a `&str`
/// is valid UTF-8, so the text conversion keeps every character.
#[verifier::external_body]
fn parent_of(path: &str) -> (r: Option<String>)
    ensures
        match path_parent(path@) {
            Some(q) => r is Some && r->0@ == q,
            None => r is None,
        },
{
    std::path::Path::new(path).parent().map(|q| q.to_string_lossy().into_owned())
}

/// Relies on `std::path::Path::file_name`: the final component when it is a
/// normal one, `None` where the path terminates in `..` (or is a root or empty).
#[verifier::external_body]
pub(crate) fn file_name_of(path: &str) -> (r: Option<String>)
    ensures
        match path_file_name(path@) {
            Some(q) => r is Some && r->0@ == q,
            None => r is None,
        },
{
    std::path::Path::new(path).file_name().map(|q| q.to_string_lossy().into_owned())
}

/// The parent directory of a path as text, empty where it has none.
pub open spec fn parent_text(p: Seq<char>) -> Seq<char> {
    match path_parent(p) {
        Some(q) => q,
        None => Seq::empty(),
    }
}

/// Whether a path has no file name, or an empty one.
pub open spec fn file_name_missing(p: Seq<char>) -> bool {
    match path_file_name(p) {
        Some(f) => f.len() == 0,
        None => true,
    }
}

/// The outcome of validating `p`, given whether `p` is an existing directory
/// and whether its parent directory exists.
pub open spec fn validation(p: Seq<char>, is_dir: bool, parent_exists: bool) -> Result<(), PathError> {
    if is_dir {
        Err(PathError::IsDirectory)
    } else if parent_text(p).len() > 0 && !parent_exists {
        Err(PathError::ParentMissing)
    } else if file_name_missing(p) {
        Err(PathError::EmptyFilename)
    } else {
        Ok(())
    }
}

/// A path whose parent directory is named but missing is refused; when the
/// path is not itself a directory the reason is the missing parent.
pub proof fn lemma_missing_parent_rejected(p: Seq<char>, is_dir: bool)
    requires
        parent_text(p).len() > 0,
    ensures
        validation(p, is_dir, false) is Err,
        !is_dir ==> validation(p, is_dir, false) == Err::<(), PathError>(PathError::ParentMissing),
{
}

/// A path that is an existing directory is refused as a directory.
pub proof fn lemma_directory_rejected(p: Seq<char>, parent_exists: bool)
    ensures
        validation(p, true, parent_exists) == Err::<(), PathError>(PathError::IsDirectory),
{
}

/// The parent directory of `path`, empty where it has none: the directory
/// whose existence `validate` asks about.
pub fn parent_dir(path: &str) -> (r: String)
    ensures
        r@ == parent_text(path@),
{
    match parent_of(path) {
        Some(q) => q,
        None => String::new(),
    }
}

/// Checks an output path without touching the file system: `is_dir` says
/// whether `path` is an existing directory, `parent_exists` whether
/// `parent_dir(path)` exists. Returns the path unchanged when it is usable.
pub fn validate(path: &str, is_dir: bool, parent_exists: bool) -> (r: Result<String, PathError>)
    ensures
        match validation(path@, is_dir, parent_exists) {
            Ok(()) => r is Ok && r->Ok_0@ == path@,
            Err(e) => r == Err::<String, PathError>(e),
        },
{
    if is_dir {
        return Err(PathError::IsDirectory);
    }
    let parent = parent_dir(path);
    if parent.as_str().unicode_len() > 0 && !parent_exists {
        return Err(PathError::ParentMissing);
    }
    let missing = match file_name_of(path) {
        Some(f) => f.as_str().unicode_len() == 0,
        None => true,
    };
    if missing {
        return Err(PathError::EmptyFilename);
    }
    Ok(String::from_str(path))
}

impl PathError {
    /// The message shown to the user for this error.
    pub fn message(&self) -> (r: String)
        ensures
            r@ == error_message(*self),
    {
        match self {
            PathError::IsDirectory => String::from_str(
                "Path cannot be a directory. Please provide a filename.",
            ),
            PathError::ParentMissing => String::from_str("Directory does not exist."),
            PathError::EmptyFilename => String::from_str("Filename cannot be empty."),
        }
    }
}

pub open spec fn error_message(e: PathError) -> Seq<char> {
    match e {
        PathError::IsDirectory => "Path cannot be a directory. Please provide a filename."@,
        PathError::ParentMissing => "Directory does not exist."@,
        PathError::EmptyFilename => "Filename cannot be empty."@,
    }
}

} // verus!
