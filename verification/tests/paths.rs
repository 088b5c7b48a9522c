use terminal_sessions::error::{PathStep, SessionError};
use terminal_sessions::paths::{
    is_absolute, join, normalize_workspace_root, resolve_path, workspace_root_from, PathKind,
};

fn std_join(base: &str, relative: &str) -> String {
    std::path::Path::new(base).join(relative).to_string_lossy().into_owned()
}

#[test]
fn absolute_paths_start_at_the_root() {
    assert!(is_absolute("/"));
    assert!(is_absolute("/usr/bin"));
    assert!(!is_absolute(""));
    assert!(!is_absolute("usr/bin"));
    assert!(!is_absolute("./x"));
    assert!(!is_absolute("~/x"));
}

#[test]
fn join_puts_one_separator_between() {
    assert_eq!(join("/home/u", "work"), "/home/u/work");
    assert_eq!(join("/home/u/", "work"), "/home/u/work");
    assert_eq!(join("/", "work"), "/work");
    assert_eq!(join("", "work"), "work");
    assert_eq!(join("/home/u", ""), "/home/u/");
    assert_eq!(join("/home/u", "../v"), "/home/u/../v");
}

#[test]
fn join_lets_an_absolute_path_replace_the_base() {
    assert_eq!(join("/home/u", "/etc"), "/etc");
}

#[test]
fn join_agrees_with_the_platform_on_posix() {
    let bases = ["/home/u", "/home/u/", "/", "", "rel", "/tmp/\u{e9}t\u{e9}"];
    let relatives = ["work", "", "a/b", "../v", "/etc", ".", "\u{4e16}\u{754c}"];
    for base in bases {
        for relative in relatives {
            assert_eq!(join(base, relative), std_join(base, relative), "{base:?} {relative:?}");
            assert_eq!(
                is_absolute(relative),
                std::path::Path::new(relative).is_absolute(),
                "{relative:?}"
            );
        }
    }
}

#[test]
fn resolve_path_keeps_an_absolute_path() {
    let cwd = Ok(String::from("/home/u"));
    assert_eq!(resolve_path("/srv/data", &cwd), Ok(String::from("/srv/data")));
}

#[test]
fn resolve_path_keeps_an_absolute_path_without_a_current_directory() {
    let cwd = Err(String::from("permission denied"));
    assert_eq!(resolve_path("/srv/data", &cwd), Ok(String::from("/srv/data")));
}

#[test]
fn resolve_path_adjoins_a_relative_path_to_the_current_directory() {
    let cwd = Ok(String::from("/home/u"));
    assert_eq!(resolve_path("projects/x", &cwd), Ok(String::from("/home/u/projects/x")));
    assert_eq!(resolve_path("", &cwd), Ok(String::from("/home/u/")));
}

#[test]
fn resolve_path_fails_for_a_relative_path_without_a_current_directory() {
    let cwd = Err(String::from("permission denied"));
    let error = resolve_path("projects/x", &cwd).unwrap_err();
    assert_eq!(
        error,
        SessionError::PathResolutionFailure {
            step: PathStep::RelativePath,
            detail: String::from("permission denied"),
        }
    );
    assert_eq!(error.message(), "failed to resolve relative path: permission denied");
}

#[test]
fn a_directory_is_its_own_workspace_root() {
    assert_eq!(
        normalize_workspace_root(String::from("/home/u/project"), PathKind::Directory),
        Ok(String::from("/home/u/project"))
    );
}

#[test]
fn a_file_has_its_parent_as_workspace_root() {
    assert_eq!(
        normalize_workspace_root(String::from("/home/u/project/main.rs"), PathKind::File),
        Ok(String::from("/home/u/project"))
    );
    assert_eq!(
        normalize_workspace_root(String::from("notes.txt"), PathKind::File),
        Ok(String::new())
    );
}

#[test]
fn a_file_path_without_a_parent_has_no_workspace_root() {
    assert_eq!(
        normalize_workspace_root(String::from("/"), PathKind::File),
        Err(String::from("failed to determine workspace root for file path /"))
    );
    assert_eq!(
        normalize_workspace_root(String::new(), PathKind::File),
        Err(String::from("failed to determine workspace root for file path "))
    );
}

#[test]
fn neither_file_nor_directory_has_no_workspace_root() {
    assert_eq!(
        normalize_workspace_root(String::from("/dev/null"), PathKind::Other),
        Err(String::from("startup path must be a file or directory: /dev/null"))
    );
}

#[test]
fn workspace_root_from_takes_the_parent_it_is_given() {
    assert_eq!(
        workspace_root_from(String::from("/a/b"), PathKind::File, Some(String::from("/zzz"))),
        Ok(String::from("/zzz"))
    );
    assert_eq!(
        workspace_root_from(String::from("/a/b"), PathKind::File, None),
        Err(String::from("failed to determine workspace root for file path /a/b"))
    );
    assert_eq!(
        workspace_root_from(String::from("/a/b"), PathKind::Directory, None),
        Ok(String::from("/a/b"))
    );
    assert_eq!(
        workspace_root_from(String::from("/a/b"), PathKind::Other, Some(String::from("/a"))),
        Err(String::from("startup path must be a file or directory: /a/b"))
    );
}
