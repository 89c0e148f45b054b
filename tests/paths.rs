use de_switcher::{parent_dir, validate, PathError};
use std::path::Path;

fn check(path: &str) -> Result<String, PathError> {
    let is_dir = Path::new(path).is_dir();
    let parent_exists = Path::new(&parent_dir(path)).exists();
    validate(path, is_dir, parent_exists)
}

#[test]
fn missing_parent_is_refused() {
    assert_eq!(check("/definitely/not/a/real/dir/x.sh"), Err(PathError::ParentMissing));
}

#[test]
fn directory_is_refused() {
    assert_eq!(check("/tmp"), Err(PathError::IsDirectory));
    assert_eq!(validate("anything", true, true), Err(PathError::IsDirectory));
}

#[test]
fn empty_file_name_is_refused() {
    assert_eq!(check(""), Err(PathError::EmptyFilename));
    assert_eq!(validate("/..", false, true), Err(PathError::EmptyFilename));
}

#[test]
fn usable_paths_come_back_unchanged() {
    assert_eq!(check("/tmp/switch.sh"), Ok("/tmp/switch.sh".to_string()));
    assert_eq!(check("switch.sh"), Ok("switch.sh".to_string()));
}

#[test]
fn parent_dir_of_paths() {
    assert_eq!(parent_dir("/a/b/c.sh"), "/a/b");
    assert_eq!(parent_dir("./c.sh"), ".");
    assert_eq!(parent_dir("c.sh"), "");
    assert_eq!(parent_dir("/"), "");
}

#[test]
fn error_messages() {
    assert_eq!(
        PathError::IsDirectory.message(),
        "Path cannot be a directory. Please provide a filename."
    );
    assert_eq!(PathError::ParentMissing.message(), "Directory does not exist.");
    assert_eq!(PathError::EmptyFilename.message(), "Filename cannot be empty.");
}
