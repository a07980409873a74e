use extension_runtime::errors::ExecError;
use extension_runtime::pathcheck::{
    check_canonical_within, path_escapes, path_within_base, validate_module_path,
};

#[test]
fn dotdot_prefix_escapes() {
    assert!(path_escapes("../etc/passwd"));
    assert!(path_escapes(".."));
    assert!(path_escapes("../x"));
    assert!(path_escapes("a/../../b"));
    assert!(path_escapes("a/b/../../../c"));
}

#[test]
fn absolute_paths_escape() {
    assert!(path_escapes("/etc/passwd"));
    assert!(path_escapes("/"));
}

#[test]
fn contained_paths_do_not_escape() {
    assert!(!path_escapes("add.wasm"));
    assert!(!path_escapes("a/b/c.wasm"));
    assert!(!path_escapes("a/../b"));
    assert!(!path_escapes("./x"));
    assert!(!path_escapes("a/./b/../c"));
    assert!(!path_escapes(""));
    assert!(!path_escapes("a//b"));
    assert!(!path_escapes("..a/b"));
    assert!(!path_escapes("a..b"));
}

#[test]
fn escape_attempt_is_named_in_the_error_and_no_file_is_read() {
    // The check is on the text alone, so nothing on disk is touched.
    let r = validate_module_path("../etc/passwd");
    match r {
        Err(e) => {
            assert!(matches!(e, ExecError::InvalidPath { .. }));
            assert_eq!(e.message(), "Invalid module path: ../etc/passwd");
        },
        Ok(()) => panic!("an escaping path must be refused"),
    }
    assert!(validate_module_path("add.wasm").is_ok());
}

#[test]
fn canonical_prefix_check_requires_a_whole_component() {
    assert!(path_within_base("/srv/modules", "/srv/modules/add.wasm"));
    assert!(path_within_base("/srv/modules", "/srv/modules"));
    assert!(path_within_base("/srv/modules", "/srv/modules/a/b.wasm"));
    assert!(!path_within_base("/srv/modules", "/srv/modules-evil/x.wasm"));
    assert!(!path_within_base("/srv/modules", "/srv"));
    assert!(!path_within_base("/srv/modules", "/etc/passwd"));
}

#[test]
fn a_base_ending_in_a_separator_contains_by_plain_prefix() {
    assert!(path_within_base("/", "/srv/modules/add.wasm"));
    assert!(path_within_base("/", "/"));
    assert!(path_within_base("/srv/modules/", "/srv/modules/add.wasm"));
    assert!(!path_within_base("/srv/modules/", "/srv/other/x.wasm"));
}

#[test]
fn canonical_escape_is_reported_with_the_requested_path() {
    let r = check_canonical_within("/srv/modules", "/etc/passwd", "link.wasm");
    match r {
        Err(e) => assert_eq!(e.message(), "Invalid module path: link.wasm"),
        Ok(()) => panic!("a canonical path outside the base must be refused"),
    }
    assert!(check_canonical_within("/srv/modules", "/srv/modules/x.wasm", "x.wasm").is_ok());
}
