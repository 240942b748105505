//! The build in executable form.
//!
//! [`Package::from_root_file`] starts a build with what reading the root
//! file gave. The [`Progress`] that comes back is the finished tree, a
//! failure, or a question: [`Probing`] asks whether an index file exists,
//! [`Loading`] asks for the text of a file. Each answer gives the next
//! [`Progress`].

use crate::consistency::{
    lemma_entered_has_inv, lemma_inv_bounds_cursors, lemma_outcome_is_valid, lemma_steps_keep_inv,
};
use crate::machine::{
    lemma_descend_decreases, lemma_finish_decreases, lemma_skip_decreases, text_of, work_left,
    BuilderView, FrameView, LoadingView, ProbingView, ProgressView,
};
use crate::package::{module_views, Error, ErrorView, Module, ModuleId, Package};
use crate::paths::{
    file_root_path, index_file, index_file_of, module_directory, module_file, root_internal_path,
    segments,
};
use crate::syntax::{
    is_public, module_decl, parse_file, public_visibility, ModuleDecl, SourceFile,
};
use std::collections::HashMap;
use vstd::hash_map::StringHashMap;
use vstd::prelude::*;

verus! {

broadcast use vstd::std_specs::hash::group_hash_axioms;

/// A module under exploration.
struct Frame {
    id: ModuleId,
    /// Index of the next item to look at.
    cursor: usize,
    /// The module as far as it is known: its submodules are those found
    /// before the cursor.
    module: Module,
}

impl View for Frame {
    type V = FrameView;

    closed spec fn view(&self) -> FrameView {
        FrameView { id: self.id, cursor: self.cursor as nat, module: self.module@ }
    }
}

/// The state of a build.
pub struct PackageBuilder {
    /// Next unallocated id.
    next_module_id: ModuleId,
    files_to_ids: StringHashMap<ModuleId>,
    modules: HashMap<ModuleId, Module>,
    /// The modules under exploration, the root first.
    stack: Vec<Frame>,
}

impl View for PackageBuilder {
    type V = BuilderView;

    closed spec fn view(&self) -> BuilderView {
        BuilderView {
            next_id: self.next_module_id,
            files: self.files_to_ids@,
            modules: module_views(self.modules@),
            stack: self.stack@.map_values(|frame: Frame| frame@),
        }
    }
}

/// Copies a list of path segments.
fn clone_path(path: &Vec<String>) -> (copy: Vec<String>)
    ensures
        copy@ == path@,
{
    let mut copy: Vec<String> = Vec::new();
    let mut i: usize = 0;
    while i < path.len()
        invariant
            i <= path.len(),
            copy@ == path@.take(i as int),
        decreases path.len() - i,
    {
        copy.push(path[i].clone());
        assert(copy@ =~= path@.take(i + 1));
        i = i + 1;
    }
    assert(path@.take(path.len() as int) =~= path@);
    copy
}

impl PackageBuilder {
    fn new() -> (builder: PackageBuilder)
        ensures
            builder@ == BuilderView::fresh(),
    {
        let builder = PackageBuilder {
            next_module_id: 0,
            files_to_ids: StringHashMap::new(),
            modules: HashMap::new(),
            stack: Vec::new(),
        };
        assert(builder@.modules =~= Map::empty());
        assert(builder@.stack =~= Seq::empty());
        builder
    }

    /// Hands out the next identifier.
    fn next_id(&mut self) -> (id: ModuleId)
        requires
            !old(self)@.exhausted(),
        ensures
            id == old(self)@.next_id,
            final(self)@ == (BuilderView { next_id: (id + 1) as ModuleId, ..old(self)@ }),
    {
        let id = self.next_module_id;
        self.next_module_id = id + 1;
        id
    }

    /// Starts a module inside the innermost one.
    fn add_module(
        &mut self,
        file: String,
        internal_path: Vec<String>,
        items: Vec<syn::Item>,
        attributes: Option<Vec<syn::Attribute>>,
        visibility: syn::Visibility,
    )
        requires
            !old(self)@.exhausted(),
        ensures
            final(self)@ == old(self)@.add_module(
                file@,
                segments(internal_path@),
                visibility,
                items@,
                match attributes {
                    Some(attributes) => Some(attributes@),
                    None => None,
                },
            ),
    {
        let parent = if self.stack.len() == 0 {
            self.next_module_id
        } else {
            self.stack[self.stack.len() - 1].id
        };
        let id = self.next_id();
        if internal_path.len() == 1 {
            self.files_to_ids.insert(file.clone(), id);
        }
        let module = Module {
            file,
            internal_path,
            visibility,
            submodules: Vec::new(),
            parent,
            items,
            attributes,
        };
        self.stack.push(Frame { id, cursor: 0, module });
        assert(self@.stack =~= old(self)@.stack.push(FrameView { id, cursor: 0, module: module@ }));
    }

    /// Moves the cursor of the innermost module past one item.
    fn skip(&mut self)
        requires
            old(self)@.stack.len() > 0,
            !old(self)@.explored(),
        ensures
            final(self)@ == old(self)@.skip(),
    {
        let mut frame = self.stack.pop().unwrap();
        assert(frame@ == old(self)@.top());
        assert(frame.cursor < frame.module.items.len());
        frame.cursor = frame.cursor + 1;
        self.stack.push(frame);
        assert(self@.stack =~= old(self)@.skip().stack);
    }

    /// Finishes the innermost module.
    fn finish(&mut self)
        requires
            old(self)@.stack.len() > 0,
        ensures
            final(self)@ == old(self)@.finish(),
    {
        let done = self.stack.pop().unwrap();
        let id = done.id;
        self.modules.insert(id, done.module);
        assert(self@.modules =~= old(self)@.modules.insert(id, done.module@));
        if self.stack.len() > 0 {
            let mut outer = self.stack.pop().unwrap();
            outer.module.submodules.push(id);
            self.stack.push(outer);
        }
        assert(self@.stack =~= old(self)@.finish().stack);
    }

    /// Explores the modules under way, entering every submodule with a
    /// body on its way, until the machine rests. Returns the declaration
    /// that it rests at, if the tree is not complete.
    fn explore_submodules(&mut self) -> (pending: Option<ModuleDecl>)
        requires
            old(self)@.cursors_in_range(),
        ensures
            old(self)@.settles_to(final(self)@),
            final(self)@.cursors_in_range(),
            match pending {
                Some(declaration) => final(self)@.pending() == Some(declaration@),
                None => final(self)@.stack.len() == 0,
            },
    {
        let mut pending: Option<ModuleDecl> = None;
        let ghost mut count: nat = 0;
        while self.stack.len() > 0 && pending.is_none()
            invariant
                self@ == old(self)@.steps(count),
                self@.cursors_in_range(),
                pending matches Some(declaration) ==> self@.at_rest() && self@.pending() == Some(
                    declaration@,
                ),
            decreases work_left(self@.stack) + (if pending is None {
                1nat
            } else {
                0nat
            }),
        {
            let ghost before = self@;
            let top = self.stack.len() - 1;
            let cursor = self.stack[top].cursor;
            assert(before.top() == self.stack@[top as int]@);
            if cursor >= self.stack[top].module.items.len() {
                proof {
                    lemma_finish_decreases(before);
                    count = count + 1;
                }
                self.finish();
            } else {
                match module_decl(&self.stack[top].module.items[cursor]) {
                    None => {
                        proof {
                            lemma_skip_decreases(before);
                            count = count + 1;
                        }
                        self.skip();
                    },
                    Some(declaration) => {
                        if declaration.body.is_none() || self.next_module_id == ModuleId::MAX {
                            pending = Some(declaration);
                        } else {
                            proof {
                                lemma_descend_decreases(before, declaration@);
                                count = count + 1;
                            }
                            let file = self.stack[top].module.file.clone();
                            let mut internal_path = clone_path(
                                &self.stack[top].module.internal_path,
                            );
                            internal_path.push(declaration.name);
                            assert(segments(internal_path@) =~= before.top().module.internal_path.push(
                                declaration.name@,
                            ));
                            self.skip();
                            self.add_module(
                                file,
                                internal_path,
                                declaration.body.unwrap(),
                                None,
                                declaration.visibility,
                            );
                        }
                    },
                }
            }
        }
        pending
    }
}

/// A build that has to know whether an index file exists before it can go
/// on.
pub struct Probing {
    builder: PackageBuilder,
    /// The directory that stands for the module that is looked for.
    directory: String,
    /// The declared name of that module.
    name: String,
    /// Its declared visibility.
    visibility: syn::Visibility,
}

/// A build that has to be given the text of a file before it can go on.
pub struct Loading {
    builder: PackageBuilder,
    /// The file whose module comes next.
    file: String,
    /// The internal path of that module.
    internal_path: Vec<String>,
    /// Its visibility.
    visibility: syn::Visibility,
}

/// Where a build stands.
pub enum Progress {
    /// Every module has been found: here is the tree.
    Finished(Package),
    /// The build has failed, and what it had found is gone.
    Failed(Error),
    /// The build has to know whether a file exists.
    Probe(Probing),
    /// The build has to be given the text of a file.
    Load(Loading),
    /// The build has come to a module for which no identifier is left.
    Exhausted,
}

impl View for Probing {
    type V = ProbingView;

    closed spec fn view(&self) -> ProbingView {
        ProbingView {
            builder: self.builder@,
            directory: self.directory@,
            name: self.name@,
            visibility: self.visibility,
        }
    }
}

impl View for Loading {
    type V = LoadingView;

    closed spec fn view(&self) -> LoadingView {
        LoadingView {
            builder: self.builder@,
            file: self.file@,
            internal_path: segments(self.internal_path@),
            visibility: self.visibility,
        }
    }
}

impl View for Progress {
    type V = ProgressView;

    open spec fn view(&self) -> ProgressView {
        match *self {
            Progress::Finished(package) => ProgressView::Finished(package@),
            Progress::Failed(error) => ProgressView::Failed(error@),
            Progress::Probe(probing) => ProgressView::Probe(probing@),
            Progress::Load(loading) => ProgressView::Load(loading@),
            Progress::Exhausted => ProgressView::Exhausted,
        }
    }
}

impl PackageBuilder {
    /// Turns a machine at rest into what the outside gets to see.
    fn conclude(self, pending: Option<ModuleDecl>) -> (next: Progress)
        requires
            self@.inv(),
            self@.at_rest(),
            match pending {
                Some(declaration) => self@.pending() == Some(declaration@),
                None => self@.stack.len() == 0,
            },
        ensures
            next@ == self@.outcome(),
            next@.valid(),
    {
        proof {
            lemma_outcome_is_valid(self@);
        }
        match pending {
            None => Progress::Finished(
                Package {
                    root_module: 0,
                    files_to_ids: self.files_to_ids,
                    modules: self.modules,
                },
            ),
            Some(declaration) => {
                if declaration.body.is_none() {
                    let top = self.stack.len() - 1;
                    let mut path = clone_path(&self.stack[top].module.internal_path);
                    path.push(declaration.name.clone());
                    assert(segments(path@) =~= self@.top().module.internal_path.push(
                        declaration.name@,
                    ));
                    let directory = module_directory(self.stack[top].module.file.as_str(), &path);
                    Progress::Probe(
                        Probing {
                            builder: self,
                            directory,
                            name: declaration.name,
                            visibility: declaration.visibility,
                        },
                    )
                } else {
                    Progress::Exhausted
                }
            },
        }
    }
}

impl Probing {
    #[verifier::type_invariant]
    closed spec fn well_formed(self) -> bool {
        self@.valid()
    }

    /// The file whose existence decides where the module is read from.
    pub fn index_file(&self) -> (file: String)
        ensures
            file@ == index_file_of(self@.directory),
    {
        index_file(self.directory.as_str())
    }

    /// Goes on, knowing whether the index file exists: the module is read
    /// from the index file if so, from the file beside its directory if
    /// not.
    pub fn answer(self, index_exists: bool) -> (next: Loading)
        ensures
            next@ == self@.answer(index_exists),
    {
        proof {
            use_type_invariant(&self);
        }
        let file = module_file(self.directory.as_str(), index_exists);
        let internal_path = file_root_path(self.name);
        Loading { builder: self.builder, file, internal_path, visibility: self.visibility }
    }
}

impl Loading {
    #[verifier::type_invariant]
    closed spec fn well_formed(self) -> bool {
        self@.valid()
    }

    /// The file whose text the build waits for.
    pub fn file(&self) -> (file: &String)
        ensures
            file@ == self@.file,
    {
        &self.file
    }

    /// Goes on with the awaited file, parsed or found faulty: a syntax
    /// error ends the build; items and attributes become the module of the
    /// file, which is explored until the tree is complete or the next file
    /// is needed.
    pub fn accept(self, parsed: Result<SourceFile, syn::Error>) -> (next: Progress)
        ensures
            match parsed {
                Ok(file) => self@.accepts(file.items@, file.attributes@, next@),
                Err(cause) => next@ == ProgressView::Failed(ErrorView::Syn(cause)),
            },
            next@.valid(),
    {
        proof {
            use_type_invariant(&self);
        }
        match parsed {
            Err(cause) => Progress::Failed(Error::Syn(cause)),
            Ok(source) => {
                let mut builder = self.builder;
                if builder.next_module_id == ModuleId::MAX {
                    return Progress::Exhausted;
                }
                proof {
                    lemma_entered_has_inv(self@, source.items@, source.attributes@);
                }
                if builder.stack.len() > 0 {
                    builder.skip();
                }
                builder.add_module(
                    self.file,
                    self.internal_path,
                    source.items,
                    Some(source.attributes),
                    self.visibility,
                );
                let ghost entered = builder@;
                proof {
                    lemma_inv_bounds_cursors(entered);
                }
                let pending = builder.explore_submodules();
                proof {
                    let count = choose|count: nat| entered.steps(count) == builder@;
                    lemma_steps_keep_inv(entered, count);
                }
                let next = builder.conclude(pending);
                assert(entered.settles_to(builder@) && next@ == builder@.outcome());
                next
            },
        }
    }

    /// Goes on with what reading the awaited file gave: a failure ends the
    /// build with the path of the file; a text is parsed and accepted.
    pub fn answer(self, source: Result<String, std::io::Error>) -> (next: Progress)
        ensures
            self@.answered(text_of(source), next@),
            next@.valid(),
    {
        match source {
            Err(cause) => Progress::Failed(Error::Io(self.file, cause)),
            Ok(text) => self.accept(parse_file(text.as_str())),
        }
    }
}

impl Package {
    /// Starts to build the tree of the package whose root module is the
    /// file at `path`, given what reading that file gave.
    ///
    /// The root module has the internal path `crate` and is public.
    pub fn from_root_file(path: String, source: Result<String, std::io::Error>) -> (next: Progress)
        ensures
            exists|visibility: syn::Visibility|
                is_public(visibility) && (#[trigger] LoadingView::root(path@, visibility)).answered(
                    text_of(source),
                    next@,
                ),
            next@.valid(),
    {
        let internal_path = root_internal_path();
        let visibility = public_visibility();
        let loading = Loading { builder: PackageBuilder::new(), file: path, internal_path, visibility };
        assert(loading@ == LoadingView::root(path@, visibility));
        loading.answer(source)
    }
}

} // verus!
