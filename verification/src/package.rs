//! The module tree of a package, and what holds of every finished tree.

use crate::paths::{index_file_of, module_directory_of, segments, sibling_file_of};
use crate::syntax::{declared_module, ModuleDeclView};
use std::collections::HashMap;
use vstd::hash_map::StringHashMap;
use vstd::prelude::*;

verus! {

/// `std::io::Error`: why a file could not be read.
#[verifier::external_type_specification]
#[verifier::external_body]
pub struct ExIoError(std::io::Error);

/// Handle for a [`Module`].
pub type ModuleId = u32;

/// Why a tree could not be built.
#[derive(Debug)]
pub enum Error {
    /// The file at this path could not be read.
    Io(String, std::io::Error),
    /// A file that was read is not Rust source.
    Syn(syn::Error),
}

/// The mathematical content of an [`Error`].
pub enum ErrorView {
    Io(Seq<char>, std::io::Error),
    Syn(syn::Error),
}

impl View for Error {
    type V = ErrorView;

    open spec fn view(&self) -> ErrorView {
        match *self {
            Error::Io(path, cause) => ErrorView::Io(path@, cause),
            Error::Syn(cause) => ErrorView::Syn(cause),
        }
    }
}

impl From<syn::Error> for Error {
    fn from(cause: syn::Error) -> (error: Error) {
        Error::Syn(cause)
    }
}

impl vstd::std_specs::convert::FromSpecImpl<syn::Error> for Error {
    open spec fn obeys_from_spec() -> bool {
        true
    }

    open spec fn from_spec(cause: syn::Error) -> Error {
        Error::Syn(cause)
    }
}

/// A Rust module.
pub struct Module {
    /// File in which this module resides.
    pub file: String,
    /// Path of this module within `file`: the module of the file itself
    /// has one segment, a module written inside it has one segment more
    /// than the module around it.
    pub internal_path: Vec<String>,
    /// Visibility as written at the declaration.
    pub visibility: syn::Visibility,
    /// The modules declared among `items`, in the order of their
    /// declarations.
    pub submodules: Vec<ModuleId>,
    /// The module around this one. The root module is its own parent.
    pub parent: ModuleId,
    /// Items of the module.
    pub items: Vec<syn::Item>,
    /// Inner attributes of the file, for the module of a file.
    pub attributes: Option<Vec<syn::Attribute>>,
}

/// The mathematical content of a [`Module`].
pub struct ModuleView {
    pub file: Seq<char>,
    pub internal_path: Seq<Seq<char>>,
    pub visibility: syn::Visibility,
    pub submodules: Seq<ModuleId>,
    pub parent: ModuleId,
    pub items: Seq<syn::Item>,
    pub attributes: Option<Seq<syn::Attribute>>,
}

impl View for Module {
    type V = ModuleView;

    open spec fn view(&self) -> ModuleView {
        ModuleView {
            file: self.file@,
            internal_path: segments(self.internal_path@),
            visibility: self.visibility,
            submodules: self.submodules@,
            parent: self.parent,
            items: self.items@,
            attributes: match self.attributes {
                Some(attributes) => Some(attributes@),
                None => None,
            },
        }
    }
}

/// The module declarations among `items[..upto]`, in textual order.
pub open spec fn declarations(items: Seq<syn::Item>, upto: int) -> Seq<ModuleDeclView>
    decreases upto,
{
    if upto <= 0 {
        Seq::empty()
    } else {
        match declared_module(items[upto - 1]) {
            Some(declaration) => declarations(items, upto - 1).push(declaration),
            None => declarations(items, upto - 1),
        }
    }
}

impl ModuleView {
    /// Whether this is the module of a whole file, not one written inside
    /// another module's braces.
    pub open spec fn is_file_root(self) -> bool {
        self.internal_path.len() == 1
    }

    /// All module declarations among the items, in textual order.
    pub open spec fn declarations(self) -> Seq<ModuleDeclView> {
        declarations(self.items, self.items.len() as int)
    }

    /// The attributes are those of a file, and present for the module of a
    /// file only.
    pub open spec fn attributes_match_path(self) -> bool {
        &&& self.internal_path.len() >= 1
        &&& self.attributes is Some <==> self.is_file_root()
    }

    /// Whether this module, numbered `id`, stands behind its parent: the
    /// root, numbered zero, is its own parent, and any other module was
    /// numbered after its parent.
    pub open spec fn parent_precedes(self, id: ModuleId) -> bool {
        if id == 0 {
            self.parent == 0
        } else {
            self.parent < id
        }
    }

    /// Whether this module is what `declaration`, found among the items of
    /// `parent`, stands for.
    ///
    /// A body between braces becomes a module of the same file, one segment
    /// deeper, with the body as its items. A declaration without a body
    /// becomes the module of a file of its own: the index file of the
    /// directory that the naming convention gives, or the file beside that
    /// directory.
    pub open spec fn declared_by(self, declaration: ModuleDeclView, parent: ModuleView) -> bool {
        &&& self.visibility == declaration.visibility
        &&& match declaration.body {
            Some(body) => {
                &&& self.file == parent.file
                &&& self.internal_path == parent.internal_path.push(declaration.name)
                &&& self.items == body
                &&& self.attributes is None
            },
            None => {
                let directory = module_directory_of(
                    parent.file,
                    parent.internal_path.push(declaration.name),
                );
                &&& self.file == index_file_of(directory) || self.file == sibling_file_of(
                    directory,
                )
                &&& self.internal_path == seq![declaration.name]
                &&& self.attributes is Some
            },
        }
    }
}

/// A package's module tree.
pub struct Package {
    /// Which module is the root module.
    pub root_module: ModuleId,
    /// Map from each file that was read to the module of that file.
    pub files_to_ids: StringHashMap<ModuleId>,
    /// Modules of this package.
    pub modules: HashMap<ModuleId, Module>,
}

/// The mathematical content of a [`Package`].
pub struct PackageView {
    pub root_module: ModuleId,
    pub files_to_ids: Map<Seq<char>, ModuleId>,
    pub modules: Map<ModuleId, ModuleView>,
}

/// The contents of a table of modules.
pub open spec fn module_views(modules: Map<ModuleId, Module>) -> Map<ModuleId, ModuleView> {
    modules.map_values(|module: Module| module@)
}

impl View for Package {
    type V = PackageView;

    open spec fn view(&self) -> PackageView {
        PackageView {
            root_module: self.root_module,
            files_to_ids: self.files_to_ids@,
            modules: module_views(self.modules@),
        }
    }
}

/// Whether the submodules of `id` are its declarations, one for one and in
/// the same order: submodule `j` is a module of the table, comes after
/// `id` and after the submodules before it, has `id` as its parent, and is
/// what declaration `j` stands for.
pub open spec fn submodules_follow_declarations(
    modules: Map<ModuleId, ModuleView>,
    id: ModuleId,
) -> bool {
    let module = modules[id];
    let listed = module.submodules;
    let declared = module.declarations();
    &&& listed.len() == declared.len()
    &&& forall|j: int|
        0 <= j < listed.len() ==> {
            let child = #[trigger] listed[j];
            &&& modules.contains_key(child)
            &&& id < child
            &&& modules[child].parent == id
            &&& modules[child].declared_by(declared[j], module)
        }
    &&& forall|j: int, k: int| 0 <= j < k < listed.len() ==> #[trigger] listed[j] < #[trigger] listed[k]
}

impl PackageView {
    /// Identifiers are handed out from zero without gaps, the root first.
    #[verifier::opaque]
    pub open spec fn identifiers_are_dense(self) -> bool {
        &&& self.root_module == 0
        &&& self.modules.contains_key(0)
        &&& forall|id: ModuleId, earlier: ModuleId|
            self.modules.contains_key(id) && earlier < id ==> self.modules.contains_key(earlier)
    }

    /// The root is its own parent; every other module has a parent that
    /// was numbered before it.
    #[verifier::opaque]
    pub open spec fn parents_precede(self) -> bool {
        forall|id: ModuleId| #[trigger]
            self.modules.contains_key(id) ==> self.modules[id].parent_precedes(id)
    }

    /// Every module but the root is among the submodules of its parent.
    #[verifier::opaque]
    pub open spec fn children_are_listed(self) -> bool {
        forall|id: ModuleId| #[trigger]
            self.modules.contains_key(id) && id != self.root_module
                ==> self.modules[self.modules[id].parent].submodules.contains(id)
    }

    /// Every entry of the file index leads to the module of that file.
    #[verifier::opaque]
    pub open spec fn files_lead_to_file_roots(self) -> bool {
        forall|file: Seq<char>| #[trigger]
            self.files_to_ids.contains_key(file) ==> {
                let id = self.files_to_ids[file];
                &&& self.modules.contains_key(id)
                &&& self.modules[id].is_file_root()
                &&& self.modules[id].file == file
            }
    }

    /// The file of every module of a file is in the index, which leads to
    /// the last module that was built from that file.
    #[verifier::opaque]
    pub open spec fn file_roots_are_indexed(self) -> bool {
        forall|id: ModuleId| #[trigger]
            self.modules.contains_key(id) && self.modules[id].is_file_root() ==> {
                &&& self.files_to_ids.contains_key(self.modules[id].file)
                &&& id <= self.files_to_ids[self.modules[id].file]
            }
    }

    /// Attributes are present on the modules of files and on no others.
    #[verifier::opaque]
    pub open spec fn attributes_match_paths(self) -> bool {
        forall|id: ModuleId| #[trigger]
            self.modules.contains_key(id) ==> self.modules[id].attributes_match_path()
    }

    /// Every module's submodules are its declarations, in textual order.
    #[verifier::opaque]
    pub open spec fn submodules_follow_declarations(self) -> bool {
        forall|id: ModuleId| #[trigger]
            self.modules.contains_key(id) ==> submodules_follow_declarations(self.modules, id)
    }

    /// No file was read for two modules.
    pub open spec fn files_are_read_once(self) -> bool {
        forall|a: ModuleId, b: ModuleId|
            self.modules.contains_key(a) && self.modules.contains_key(b)
                && self.modules[a].is_file_root() && self.modules[b].is_file_root()
                && self.modules[a].file == self.modules[b].file ==> a == b
    }

    /// What holds of every tree that a build hands out.
    pub open spec fn well_formed(self) -> bool {
        &&& self.identifiers_are_dense()
        &&& self.parents_precede()
        &&& self.children_are_listed()
        &&& self.files_lead_to_file_roots()
        &&& self.file_roots_are_indexed()
        &&& self.attributes_match_paths()
        &&& self.submodules_follow_declarations()
    }
}

} // verus!
