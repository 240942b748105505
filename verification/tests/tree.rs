use module_tree::{Error, Loading, Module, ModuleId, Package, Progress, SourceFile};
use std::io;

/// An in-memory file tree: paths with their texts.
struct Files(Vec<(&'static str, &'static str)>);

impl Files {
    fn holds(&self, path: &str) -> bool {
        self.0.iter().any(|(name, _)| *name == path)
    }

    fn read(&self, path: &str) -> io::Result<String> {
        match self.0.iter().find(|(name, _)| *name == path) {
            Some((_, text)) => Ok(text.to_string()),
            None => Err(io::Error::new(io::ErrorKind::NotFound, "no such file")),
        }
    }

    /// Answers every question of a build from these files.
    fn build(&self, root: &str) -> Result<Package, Error> {
        let mut progress = Package::from_root_file(root.to_string(), self.read(root));
        loop {
            progress = match progress {
                Progress::Finished(package) => return Ok(package),
                Progress::Failed(error) => return Err(error),
                Progress::Probe(probing) => {
                    let found = self.holds(&probing.index_file());
                    Progress::Load(probing.answer(found))
                }
                Progress::Load(loading) => {
                    let source = self.read(loading.file());
                    loading.answer(source)
                }
                Progress::Exhausted => panic!("out of identifiers"),
            };
        }
    }
}

fn module(package: &Package, id: ModuleId) -> &Module {
    package.modules.get(&id).expect("module")
}

fn path(segments: &[&str]) -> Vec<String> {
    segments.iter().map(|segment| segment.to_string()).collect()
}

fn first_load(progress: Progress) -> Loading {
    match progress {
        Progress::Probe(probing) => probing.answer(false),
        Progress::Load(loading) => loading,
        _ => panic!("the build does not wait"),
    }
}

#[test]
fn root_without_modules_is_a_single_module() {
    let files = Files(vec![("src/lib.rs", "fn f() {}\nstruct S;")]);
    let package = files.build("src/lib.rs").unwrap();
    assert_eq!(package.root_module, 0);
    assert_eq!(package.modules.len(), 1);
    let root = module(&package, 0);
    assert!(root.submodules.is_empty());
    assert_eq!(root.parent, 0);
    assert_eq!(root.file, "src/lib.rs");
    assert_eq!(root.internal_path, path(&["crate"]));
    assert_eq!(root.items.len(), 2);
    assert_eq!(package.files_to_ids.len(), 1);
    assert_eq!(package.files_to_ids.get("src/lib.rs"), Some(&0));
}

#[test]
fn empty_root_file_is_a_single_module() {
    let files = Files(vec![("lib.rs", "")]);
    let package = files.build("lib.rs").unwrap();
    assert_eq!(package.modules.len(), 1);
    assert!(module(&package, 0).items.is_empty());
    assert_eq!(module(&package, 0).attributes.as_ref().map(Vec::len), Some(0));
}

#[test]
fn root_is_public_and_carries_the_attributes_of_its_file() {
    let files = Files(vec![("src/lib.rs", "#![allow(dead_code)]\n#![no_std]\nfn f() {}")]);
    let package = files.build("src/lib.rs").unwrap();
    let root = module(&package, 0);
    assert!(matches!(root.visibility, syn::Visibility::Public(_)));
    assert_eq!(root.attributes.as_ref().map(Vec::len), Some(2));
}

#[test]
fn inline_module_is_a_child_in_the_same_file() {
    let files = Files(vec![("src/lib.rs", "mod a {}")]);
    let package = files.build("src/lib.rs").unwrap();
    assert_eq!(package.modules.len(), 2);
    let root = module(&package, 0);
    assert_eq!(root.internal_path, path(&["crate"]));
    assert_eq!(root.submodules, vec![1]);
    let a = module(&package, 1);
    assert_eq!(a.internal_path, path(&["crate", "a"]));
    assert_eq!(a.parent, 0);
    assert!(a.attributes.is_none());
    assert_eq!(a.file, "src/lib.rs");
    assert!(a.items.is_empty());
    assert!(a.submodules.is_empty());
    assert_eq!(package.files_to_ids.len(), 1);
}

#[test]
fn inline_module_holds_the_items_of_its_body() {
    let files = Files(vec![("src/lib.rs", "mod a { fn f() {} const C: u8 = 0; }")]);
    let package = files.build("src/lib.rs").unwrap();
    let body = syn::parse_file("fn f() {} const C: u8 = 0;").unwrap().items;
    assert_eq!(module(&package, 1).items, body);
    assert_eq!(module(&package, 0).items.len(), 1);
}

#[test]
fn declared_module_is_read_from_the_sibling_file() {
    let files = Files(vec![("src/lib.rs", "mod a;"), ("src/a.rs", "#![allow(unused)]\nfn g() {}")]);
    let package = files.build("src/lib.rs").unwrap();
    assert_eq!(package.modules.len(), 2);
    let a = module(&package, 1);
    assert_eq!(a.file, "src/a.rs");
    assert_eq!(a.internal_path, path(&["a"]));
    assert_eq!(a.attributes.as_ref().map(Vec::len), Some(1));
    assert_eq!(a.parent, 0);
    assert_eq!(a.items.len(), 1);
    assert_eq!(module(&package, 0).submodules, vec![1]);
    assert_eq!(package.files_to_ids.len(), 2);
    assert_eq!(package.files_to_ids.get("src/a.rs"), Some(&1));
    assert_eq!(package.files_to_ids.get("src/lib.rs"), Some(&0));
}

#[test]
fn declared_module_prefers_the_index_file() {
    let files = Files(vec![
        ("src/lib.rs", "mod a;"),
        ("src/a.rs", "fn flat() {}"),
        ("src/a/mod.rs", "fn index() {} fn more() {}"),
    ]);
    let package = files.build("src/lib.rs").unwrap();
    let a = module(&package, 1);
    assert_eq!(a.file, "src/a/mod.rs");
    assert_eq!(a.items.len(), 2);
    assert_eq!(a.internal_path, path(&["a"]));
    assert_eq!(package.files_to_ids.get("src/a/mod.rs"), Some(&1));
    assert_eq!(package.files_to_ids.get("src/a.rs"), None);
}

#[test]
fn missing_module_file_is_an_io_error_with_its_path() {
    let files = Files(vec![("src/lib.rs", "mod a;")]);
    match files.build("src/lib.rs") {
        Err(Error::Io(path, cause)) => {
            assert_eq!(path, "src/a.rs");
            assert_eq!(cause.kind(), io::ErrorKind::NotFound);
        }
        _ => panic!("expected an I/O error"),
    }
}

#[test]
fn missing_root_file_is_an_io_error_with_its_path() {
    let files = Files(vec![]);
    match files.build("src/lib.rs") {
        Err(Error::Io(path, _)) => assert_eq!(path, "src/lib.rs"),
        _ => panic!("expected an I/O error"),
    }
}

#[test]
fn missing_file_deep_in_the_tree_fails_the_whole_build() {
    let files = Files(vec![
        ("src/lib.rs", "mod a; mod b;"),
        ("src/a.rs", "mod inner { mod lost; }"),
        ("src/b.rs", ""),
    ]);
    match files.build("src/lib.rs") {
        Err(Error::Io(path, _)) => assert_eq!(path, "src/a/inner/lost.rs"),
        _ => panic!("expected an I/O error"),
    }
}

#[test]
fn malformed_root_is_a_syntax_error() {
    let files = Files(vec![("src/lib.rs", "fn (")]);
    assert!(matches!(files.build("src/lib.rs"), Err(Error::Syn(_))));
}

#[test]
fn malformed_module_file_is_a_syntax_error() {
    let files = Files(vec![("src/lib.rs", "mod a;"), ("src/a.rs", "struct {")]);
    assert!(matches!(files.build("src/lib.rs"), Err(Error::Syn(_))));
}

#[test]
fn syntax_error_is_the_one_the_parser_gave() {
    let expected = syn::parse_file("fn (").err().unwrap().to_string();
    let files = Files(vec![("src/lib.rs", "fn (")]);
    match files.build("src/lib.rs") {
        Err(Error::Syn(cause)) => assert_eq!(cause.to_string(), expected),
        _ => panic!("expected a syntax error"),
    }
}

#[test]
fn identifiers_are_handed_out_in_pre_order() {
    let files = Files(vec![("src/lib.rs", "mod a { mod c {} mod d {} } mod b {}")]);
    let package = files.build("src/lib.rs").unwrap();
    assert_eq!(package.modules.len(), 5);
    assert_eq!(module(&package, 0).submodules, vec![1, 4]);
    assert_eq!(module(&package, 1).submodules, vec![2, 3]);
    assert_eq!(module(&package, 1).internal_path, path(&["crate", "a"]));
    assert_eq!(module(&package, 2).internal_path, path(&["crate", "a", "c"]));
    assert_eq!(module(&package, 3).internal_path, path(&["crate", "a", "d"]));
    assert_eq!(module(&package, 4).internal_path, path(&["crate", "b"]));
    assert_eq!(module(&package, 2).parent, 1);
    assert_eq!(module(&package, 3).parent, 1);
    assert_eq!(module(&package, 4).parent, 0);
}

#[test]
fn identifiers_continue_after_a_file_has_been_explored() {
    let files = Files(vec![
        ("src/lib.rs", "mod a; mod b {}"),
        ("src/a.rs", "mod x {} mod y {}"),
    ]);
    let package = files.build("src/lib.rs").unwrap();
    assert_eq!(module(&package, 0).submodules, vec![1, 4]);
    assert_eq!(module(&package, 1).submodules, vec![2, 3]);
    assert_eq!(module(&package, 1).file, "src/a.rs");
    assert_eq!(module(&package, 2).file, "src/a.rs");
    assert_eq!(module(&package, 2).internal_path, path(&["a", "x"]));
    assert_eq!(module(&package, 4).file, "src/lib.rs");
    assert_eq!(module(&package, 4).internal_path, path(&["crate", "b"]));
}

#[test]
fn submodules_keep_the_order_of_their_declarations() {
    let files = Files(vec![
        ("src/lib.rs", "fn f() {} mod z {} struct S; mod m; mod a {} fn g() {}"),
        ("src/m.rs", ""),
    ]);
    let package = files.build("src/lib.rs").unwrap();
    let root = module(&package, 0);
    assert_eq!(root.items.len(), 6);
    assert_eq!(root.submodules, vec![1, 2, 3]);
    assert_eq!(module(&package, 1).internal_path, path(&["crate", "z"]));
    assert_eq!(module(&package, 2).internal_path, path(&["m"]));
    assert_eq!(module(&package, 3).internal_path, path(&["crate", "a"]));
}

#[test]
fn modules_inside_functions_are_not_found() {
    let files = Files(vec![("src/lib.rs", "fn f() { mod hidden {} }")]);
    let package = files.build("src/lib.rs").unwrap();
    assert_eq!(package.modules.len(), 1);
}

#[test]
fn visibility_is_the_one_written_at_the_declaration() {
    let files = Files(vec![
        ("src/lib.rs", "pub mod a {} mod b {} pub(crate) mod c; pub mod d;"),
        ("src/c.rs", ""),
        ("src/d.rs", ""),
    ]);
    let package = files.build("src/lib.rs").unwrap();
    assert!(matches!(module(&package, 1).visibility, syn::Visibility::Public(_)));
    assert!(matches!(module(&package, 2).visibility, syn::Visibility::Inherited));
    assert!(matches!(module(&package, 3).visibility, syn::Visibility::Restricted(_)));
    assert!(matches!(module(&package, 4).visibility, syn::Visibility::Public(_)));
}

#[test]
fn module_declared_in_a_sibling_file_is_looked_up_below_it() {
    let files = Files(vec![
        ("src/lib.rs", "mod a;"),
        ("src/a.rs", "mod b;"),
        ("src/a/b.rs", "fn leaf() {}"),
    ]);
    let package = files.build("src/lib.rs").unwrap();
    assert_eq!(package.modules.len(), 3);
    assert_eq!(module(&package, 2).file, "src/a/b.rs");
    assert_eq!(module(&package, 2).internal_path, path(&["b"]));
    assert_eq!(module(&package, 2).parent, 1);
    assert_eq!(package.files_to_ids.get("src/a/b.rs"), Some(&2));
}

#[test]
fn module_declared_in_an_index_file_is_looked_up_beside_it() {
    let files = Files(vec![
        ("src/lib.rs", "mod a;"),
        ("src/a/mod.rs", "mod b;"),
        ("src/a/b/mod.rs", ""),
    ]);
    let package = files.build("src/lib.rs").unwrap();
    assert_eq!(module(&package, 1).file, "src/a/mod.rs");
    assert_eq!(module(&package, 2).file, "src/a/b/mod.rs");
}

#[test]
fn module_declared_in_an_inline_module_is_looked_up_below_its_name() {
    let files = Files(vec![
        ("src/lib.rs", "mod a { mod b; }"),
        ("src/a/b.rs", "mod c {}"),
    ]);
    let package = files.build("src/lib.rs").unwrap();
    assert_eq!(package.modules.len(), 4);
    let b = module(&package, 2);
    assert_eq!(b.file, "src/a/b.rs");
    assert_eq!(b.parent, 1);
    assert_eq!(b.internal_path, path(&["b"]));
    assert!(b.attributes.is_some());
    let c = module(&package, 3);
    assert_eq!(c.file, "src/a/b.rs");
    assert_eq!(c.internal_path, path(&["b", "c"]));
    assert!(c.attributes.is_none());
}

#[test]
fn module_of_a_file_forgets_the_path_of_its_declaration() {
    let files = Files(vec![
        ("src/lib.rs", "mod a { mod b { mod c; } }"),
        ("src/a/b/c.rs", "mod d;"),
        ("src/a/b/c/d.rs", ""),
    ]);
    let package = files.build("src/lib.rs").unwrap();
    assert_eq!(module(&package, 3).internal_path, path(&["c"]));
    assert_eq!(module(&package, 3).file, "src/a/b/c.rs");
    assert_eq!(module(&package, 4).internal_path, path(&["d"]));
    assert_eq!(module(&package, 4).file, "src/a/b/c/d.rs");
}

#[test]
fn root_that_is_no_index_file_keeps_its_modules_below_its_name() {
    let files = Files(vec![("src/main.rs", "mod a;"), ("src/main/a.rs", "")]);
    let package = files.build("src/main.rs").unwrap();
    assert_eq!(module(&package, 1).file, "src/main/a.rs");
}

#[test]
fn file_read_twice_is_indexed_under_its_last_module() {
    let files = Files(vec![("src/lib.rs", "mod a; mod a;"), ("src/a.rs", "")]);
    let package = files.build("src/lib.rs").unwrap();
    assert_eq!(package.modules.len(), 3);
    assert_eq!(module(&package, 1).file, "src/a.rs");
    assert_eq!(module(&package, 2).file, "src/a.rs");
    assert_eq!(package.files_to_ids.len(), 2);
    assert_eq!(package.files_to_ids.get("src/a.rs"), Some(&2));
}

#[test]
fn file_index_and_file_roots_agree() {
    let files = Files(vec![
        ("src/lib.rs", "mod a; mod b { mod c; } mod d {}"),
        ("src/a/mod.rs", "mod e {}"),
        ("src/b/c.rs", ""),
    ]);
    let package = files.build("src/lib.rs").unwrap();
    let mut roots = 0;
    for (id, module) in package.modules.iter() {
        assert_eq!(module.attributes.is_some(), module.internal_path.len() == 1);
        if module.internal_path.len() == 1 {
            roots += 1;
            assert_eq!(package.files_to_ids.get(&module.file), Some(id));
        }
    }
    assert_eq!(roots, 3);
    assert_eq!(package.files_to_ids.len(), 3);
}

#[test]
fn every_module_is_listed_once_by_its_parent() {
    let files = Files(vec![
        ("src/lib.rs", "mod a; mod b { mod c; } mod d {}"),
        ("src/a/mod.rs", "mod e {}"),
        ("src/b/c.rs", ""),
    ]);
    let package = files.build("src/lib.rs").unwrap();
    let count = package.modules.len() as ModuleId;
    assert_eq!(count, 6);
    for id in 0..count {
        let module = module(&package, id);
        if id == package.root_module {
            assert_eq!(module.parent, id);
        } else {
            assert!(module.parent < id);
            let parent = &package.modules[&module.parent];
            assert_eq!(parent.submodules.iter().filter(|child| **child == id).count(), 1);
        }
    }
}

#[test]
fn building_twice_gives_the_same_tree() {
    let files = Files(vec![
        ("src/lib.rs", "pub mod a; mod b { fn f() {} mod c; }"),
        ("src/a.rs", "mod x {}"),
        ("src/b/c.rs", "struct S;"),
    ]);
    let first = files.build("src/lib.rs").unwrap();
    let second = files.build("src/lib.rs").unwrap();
    assert_eq!(first.root_module, second.root_module);
    assert_eq!(first.modules.len(), second.modules.len());
    for (id, module) in first.modules.iter() {
        let other = &second.modules[id];
        assert_eq!(module.file, other.file);
        assert_eq!(module.internal_path, other.internal_path);
        assert_eq!(module.submodules, other.submodules);
        assert_eq!(module.parent, other.parent);
        assert_eq!(module.items, other.items);
        assert_eq!(module.attributes, other.attributes);
        assert_eq!(module.visibility, other.visibility);
        if module.internal_path.len() == 1 {
            assert_eq!(first.files_to_ids.get(&module.file), second.files_to_ids.get(&module.file));
        }
    }
}

#[test]
fn build_probes_the_index_file_before_it_loads() {
    let progress = Package::from_root_file("src/lib.rs".to_string(), Ok("mod a;".to_string()));
    match progress {
        Progress::Probe(probing) => {
            assert_eq!(probing.index_file(), "src/a/mod.rs");
            assert_eq!(probing.answer(true).file(), "src/a/mod.rs");
        }
        _ => panic!("the build should ask for the index file"),
    }
}

#[test]
fn build_loads_the_sibling_file_without_an_index_file() {
    let progress = Package::from_root_file("src/lib.rs".to_string(), Ok("mod a;".to_string()));
    match progress {
        Progress::Probe(probing) => assert_eq!(probing.answer(false).file(), "src/a.rs"),
        _ => panic!("the build should ask for the index file"),
    }
}

#[test]
fn build_stops_at_the_first_module_without_a_body() {
    let text = "mod a { mod b {} mod c; mod d; } mod e;";
    let progress = Package::from_root_file("lib.rs".to_string(), Ok(text.to_string()));
    let loading = first_load(progress);
    assert_eq!(loading.file(), "a/c.rs");
    let loading = first_load(loading.answer(Ok("mod f;".to_string())));
    assert_eq!(loading.file(), "a/c/f.rs");
    let loading = first_load(loading.answer(Ok(String::new())));
    assert_eq!(loading.file(), "a/d.rs");
    let loading = first_load(loading.answer(Ok(String::new())));
    assert_eq!(loading.file(), "e.rs");
    match loading.answer(Ok(String::new())) {
        Progress::Finished(package) => {
            assert_eq!(package.modules.len(), 7);
            assert_eq!(module(&package, 0).submodules, vec![1, 6]);
            assert_eq!(module(&package, 1).submodules, vec![2, 3, 5]);
            assert_eq!(module(&package, 3).submodules, vec![4]);
        }
        _ => panic!("the build should be finished"),
    }
}

#[test]
fn raw_identifier_names_the_file_as_it_is_written() {
    let progress = Package::from_root_file("lib.rs".to_string(), Ok("mod r#type;".to_string()));
    assert_eq!(first_load(progress).file(), "r#type.rs");
}

#[test]
fn accept_takes_a_file_that_was_parsed_elsewhere() {
    let progress = Package::from_root_file("lib.rs".to_string(), Ok("mod a;".to_string()));
    let loading = first_load(progress);
    let parsed = syn::parse_file("#![no_std]\nmod inner {}").unwrap();
    let source = SourceFile { items: parsed.items, attributes: parsed.attrs };
    match loading.accept(Ok(source)) {
        Progress::Finished(package) => {
            assert_eq!(package.modules.len(), 3);
            assert_eq!(module(&package, 1).attributes.as_ref().map(Vec::len), Some(1));
            assert_eq!(module(&package, 2).internal_path, path(&["a", "inner"]));
        }
        _ => panic!("the build should be finished"),
    }
}

#[test]
fn accept_passes_a_syntax_error_on() {
    let progress = Package::from_root_file("lib.rs".to_string(), Ok("mod a;".to_string()));
    let loading = first_load(progress);
    let cause = syn::parse_file("fn (").err().unwrap();
    let message = cause.to_string();
    match loading.accept(Err(cause)) {
        Progress::Failed(Error::Syn(cause)) => assert_eq!(cause.to_string(), message),
        _ => panic!("expected a syntax error"),
    }
}

#[test]
fn failed_read_passes_the_cause_on() {
    let progress = Package::from_root_file("lib.rs".to_string(), Ok("mod a;".to_string()));
    let loading = first_load(progress);
    let denied = io::Error::new(io::ErrorKind::PermissionDenied, "denied");
    match loading.answer(Err(denied)) {
        Progress::Failed(Error::Io(path, cause)) => {
            assert_eq!(path, "a.rs");
            assert_eq!(cause.kind(), io::ErrorKind::PermissionDenied);
        }
        _ => panic!("expected an I/O error"),
    }
}

#[test]
fn byte_order_mark_and_shebang_are_accepted() {
    let files = Files(vec![("main.rs", "\u{feff}#!/usr/bin/env run\nmod a {}")]);
    let package = files.build("main.rs").unwrap();
    assert_eq!(package.modules.len(), 2);
}

#[test]
fn syntax_error_converts_into_the_error_of_a_build() {
    let cause = syn::parse_file("fn (").err().unwrap();
    let message = cause.to_string();
    match Error::from(cause) {
        Error::Syn(cause) => assert_eq!(cause.to_string(), message),
        _ => panic!("expected a syntax error"),
    }
}
