use module_tree::{base_directory, index_file, module_directory, module_file};

fn path(segments: &[&str]) -> Vec<String> {
    segments.iter().map(|segment| segment.to_string()).collect()
}

#[test]
fn base_directory_of_lib_file_is_its_directory() {
    assert_eq!(base_directory("src/lib.rs"), "src");
}

#[test]
fn base_directory_of_mod_file_is_its_directory() {
    assert_eq!(base_directory("src/a/mod.rs"), "src/a");
}

#[test]
fn base_directory_of_other_file_drops_the_extension() {
    assert_eq!(base_directory("src/a.rs"), "src/a");
    assert_eq!(base_directory("src/main.rs"), "src/main");
}

#[test]
fn base_directory_of_bare_index_file_is_empty() {
    assert_eq!(base_directory("lib.rs"), "");
    assert_eq!(base_directory("mod.rs"), "");
}

#[test]
fn base_directory_without_file_name_is_unchanged() {
    assert_eq!(base_directory("src/.."), "src/..");
    assert_eq!(base_directory(""), "");
}

#[test]
fn base_directory_without_extension_is_unchanged() {
    assert_eq!(base_directory("src/a"), "src/a");
}

#[test]
fn module_directory_skips_the_leading_segment() {
    assert_eq!(module_directory("src/lib.rs", &path(&["crate", "a"])), "src/a");
    assert_eq!(module_directory("src/lib.rs", &path(&["crate", "a", "b"])), "src/a/b");
}

#[test]
fn module_directory_of_single_segment_is_the_base_directory() {
    assert_eq!(module_directory("src/a.rs", &path(&["a"])), "src/a");
    assert_eq!(module_directory("src/a.rs", &path(&[])), "src/a");
}

#[test]
fn module_directory_below_a_sibling_file() {
    assert_eq!(module_directory("src/a.rs", &path(&["a", "b"])), "src/a/b");
}

#[test]
fn module_directory_below_an_index_file() {
    assert_eq!(module_directory("src/a/mod.rs", &path(&["a", "b"])), "src/a/b");
}

#[test]
fn module_directory_from_a_bare_root() {
    assert_eq!(module_directory("lib.rs", &path(&["crate", "a"])), "a");
}

#[test]
fn index_file_is_mod_rs_inside_the_directory() {
    assert_eq!(index_file("src/a"), "src/a/mod.rs");
}

#[test]
fn module_file_prefers_the_index_file() {
    assert_eq!(module_file("src/a", true), "src/a/mod.rs");
}

#[test]
fn module_file_falls_back_to_the_sibling_file() {
    assert_eq!(module_file("src/a", false), "src/a.rs");
}

#[test]
fn module_file_replaces_an_extension_of_the_directory() {
    assert_eq!(module_file("src/a.b", false), "src/a.rs");
}

#[test]
fn file_root_path_is_the_name_alone() {
    assert_eq!(module_tree::file_root_path("c".to_string()), path(&["c"]));
}

#[test]
fn root_internal_path_is_crate() {
    assert_eq!(module_tree::root_internal_path(), path(&["crate"]));
}
