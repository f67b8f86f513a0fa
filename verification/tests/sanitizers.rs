use kether_daemon::sanitize::{
    normalize_path, sanitize_filename, sanitize_lowered_name, sanitize_map_name,
    validate_path_within_base, validate_path_within_base_new, join_path, path_has_parent_ref,
    DiskState, NameError, PathError,
};

#[test]
fn test_sanitize_map_name_basic() {
    let result = sanitize_map_name("My Test Map").unwrap();
    assert_eq!(result, "my_test_map");
}

#[test]
fn test_sanitize_map_name_with_special_chars() {
    let result = sanitize_map_name("Map!@#$%^&*()Name").unwrap();
    assert_eq!(result, "mapname");
}

#[test]
fn test_sanitize_map_name_with_path_traversal() {
    let result = sanitize_map_name("../../../etc/passwd");
    assert!(result.is_err() || result.unwrap().contains("etc") == false);
}

#[test]
fn test_sanitize_map_name_empty() {
    let result = sanitize_map_name("");
    assert!(result.is_err());
}

#[test]
fn test_sanitize_map_name_too_long() {
    let long_name = "a".repeat(300);
    let result = sanitize_map_name(&long_name);
    assert!(result.is_err());
}

#[test]
fn test_sanitize_filename_basic() {
    let result = sanitize_filename("test.zip");
    assert_eq!(result, "test.zip");
}

#[test]
fn test_sanitize_filename_with_path() {
    let result = sanitize_filename("/path/to/file.zip");
    assert_eq!(result, "file.zip");
}

#[test]
fn test_sanitize_filename_with_unsafe_chars() {
    let result = sanitize_filename("file<script>.zip");
    assert!(!result.contains("<") && !result.contains(">"));
}

#[test]
fn test_validate_path_within_base_new_valid() {
    let base = "/srv/game/addons";
    let new_path = "subdir/file.txt";
    assert!(validate_path_within_base_new(new_path, base, &DiskState::Absent).is_ok());
}

#[test]
fn test_validate_path_within_base_new_traversal() {
    let base = "/srv/game/addons";
    let traversal_path = "../../../etc/passwd";
    assert!(validate_path_within_base_new(traversal_path, base, &DiskState::Absent).is_err());
}

#[test]
fn test_validate_path_within_base_valid() {
    assert!(validate_path_within_base("/tmp/base/subdir/file.txt", "/tmp/base").is_ok());
}

#[test]
fn test_validate_path_within_base_invalid() {
    assert!(validate_path_within_base("/tmp/escape.txt", "/tmp/base").is_err());
}

#[test]
fn test_normalize_path() {
    let normalized = normalize_path("foo/bar/../baz");
    assert_eq!(normalized, "foo/baz");
}

#[test]
fn sanitize_map_name_exact_errors() {
    assert_eq!(sanitize_map_name(""), Err(NameError::Empty));
    assert_eq!(sanitize_map_name("!!!"), Err(NameError::Empty));
    assert_eq!(sanitize_map_name("   "), Err(NameError::Empty));
    assert_eq!(sanitize_map_name("-start"), Err(NameError::BadStart));
    assert_eq!(sanitize_map_name(&"b".repeat(256)), Err(NameError::TooLong));
    assert_eq!(sanitize_map_name(&"b".repeat(255)), Ok("b".repeat(255)));
}

#[test]
fn sanitize_map_name_lowercases_before_filtering() {
    assert_eq!(sanitize_map_name("DEAD Center 2"), Ok("dead_center_2".to_string()));
    assert_eq!(sanitize_lowered_name("DEAD center"), Ok("center".to_string()));
}

#[test]
fn sanitize_map_name_trims_and_collapses_spaces() {
    assert_eq!(sanitize_map_name("  a  b  "), Ok("a_b".to_string()));
    assert_eq!(sanitize_map_name("a  b"), Ok("a_b".to_string()));
    assert_eq!(sanitize_lowered_name("a \t  b   c"), Ok("a_b_c".to_string()));
    assert_eq!(sanitize_map_name("a _ b"), Ok("a___b".to_string()));
    assert_eq!(sanitize_map_name("caf\u{e9} map"), Ok("caf_map".to_string()));
}

#[test]
fn sanitize_map_name_never_yields_a_separator() {
    for input in ["../x", "a/../b", "..\\..\\c", "../../../etc/passwd", "a/b/c"] {
        if let Ok(name) = sanitize_map_name(input) {
            assert!(!name.contains('/') && !name.contains('\\') && !name.contains('.'));
        }
    }
    assert_eq!(sanitize_map_name("../../../etc/passwd"), Err(NameError::BadStart));
    assert_eq!(sanitize_map_name("a/../../etc/passwd"), Ok("aetcpasswd".to_string()));
    assert_eq!(sanitize_map_name("  .hidden"), Err(NameError::BadStart));
    assert_eq!(sanitize_map_name("!-x"), Err(NameError::BadStart));
}

#[test]
fn sanitize_filename_edge_cases() {
    assert_eq!(sanitize_filename(""), "");
    assert_eq!(sanitize_filename(".."), "..");
    assert_eq!(sanitize_filename("a/b/"), "b");
    assert_eq!(sanitize_filename("a/.."), "a..");
    assert_eq!(sanitize_filename("  My File.VPK  "), "My File.VPK");
    assert_eq!(sanitize_filename("dir/na\u{ef}ve.vpk"), "na\u{ef}ve.vpk");
    assert_eq!(sanitize_filename("x/<>|?.vpk"), ".vpk");
}

#[test]
fn normalize_path_cases() {
    assert_eq!(normalize_path("/a//b/./c/"), "/a/b/c");
    assert_eq!(normalize_path("../a"), "a");
    assert_eq!(normalize_path("/.."), "/");
    assert_eq!(normalize_path("a/b/../../.."), "");
    assert_eq!(normalize_path(""), "");
    assert_eq!(normalize_path("./x"), "x");
}

#[test]
fn join_path_cases() {
    assert_eq!(join_path("/base", "x.vpk"), "/base/x.vpk");
    assert_eq!(join_path("/base/", "x.vpk"), "/base/x.vpk");
    assert_eq!(join_path("/base", "/etc/passwd"), "/etc/passwd");
    assert_eq!(join_path("", "x"), "x");
}

#[test]
fn parent_refs_are_found_by_component() {
    assert!(path_has_parent_ref("a/../b"));
    assert!(path_has_parent_ref(".."));
    assert!(!path_has_parent_ref("a/..b/c"));
    assert!(!path_has_parent_ref("a/.../c"));
}

#[test]
fn containment_error_variants() {
    let base = "/srv/addons";
    assert_eq!(
        validate_path_within_base_new("../x", base, &DiskState::Absent),
        Err(PathError::ParentReference)
    );
    assert_eq!(
        validate_path_within_base_new("x.vpk", base, &DiskState::Unresolved),
        Err(PathError::Unresolved)
    );
    let outside = DiskState::Resolved { path: "/etc/x.vpk".to_string(), base: base.to_string() };
    assert_eq!(validate_path_within_base_new("x.vpk", base, &outside), Err(PathError::OutsideBase));
    let inside =
        DiskState::Resolved { path: "/srv/addons/x.vpk".to_string(), base: base.to_string() };
    assert_eq!(validate_path_within_base_new("x.vpk", base, &inside), Ok(()));
    assert_eq!(validate_path_within_base("/srv/addons2/x", "/srv/addons"), Err(PathError::OutsideBase));
    assert_eq!(validate_path_within_base("srv/addons/x", "/srv/addons"), Err(PathError::OutsideBase));
}
