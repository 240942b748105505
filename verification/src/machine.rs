//! The build as a machine: its states, and the steps from one to the next.
//!
//! A state holds the modules that are finished, and a stack of the modules
//! that are being explored, the innermost last. A step looks at one item
//! of the innermost module, or finishes that module. The machine rests
//! when the tree is complete, and when the next item is a module that
//! cannot be entered without help from outside: one whose file has yet to
//! be found and read.

use crate::package::{ErrorView, ModuleId, ModuleView, PackageView};
use crate::paths::{file_root_path_of, module_directory_of, module_file_of, root_path};
use crate::syntax::{declared_module, item_weight, items_weight, syntax_of, ModuleDeclView};
use vstd::prelude::*;

verus! {

/// A module under exploration: the items before `cursor` have been looked
/// at, and `module.submodules` holds the children found among them that are
/// finished.
pub struct FrameView {
    pub id: ModuleId,
    pub cursor: nat,
    pub module: ModuleView,
}

/// A state of the build.
pub struct BuilderView {
    /// The next identifier to hand out.
    pub next_id: ModuleId,
    /// Map from each file that was read to the module of that file.
    pub files: Map<Seq<char>, ModuleId>,
    /// The finished modules.
    pub modules: Map<ModuleId, ModuleView>,
    /// The modules under exploration, the root first.
    pub stack: Seq<FrameView>,
}

/// A build that waits to learn whether the index file of `directory`
/// exists.
pub struct ProbingView {
    pub builder: BuilderView,
    pub directory: Seq<char>,
    pub name: Seq<char>,
    pub visibility: syn::Visibility,
}

/// A build that waits for the text of `file`.
pub struct LoadingView {
    pub builder: BuilderView,
    pub file: Seq<char>,
    pub internal_path: Seq<Seq<char>>,
    pub visibility: syn::Visibility,
}

/// Where a build stands after an answer.
pub enum ProgressView {
    Finished(PackageView),
    Failed(ErrorView),
    Probe(ProbingView),
    Load(LoadingView),
    Exhausted,
}

/// What reading a file gave, with the text as a sequence of characters.
pub open spec fn text_of(source: Result<String, std::io::Error>) -> Result<
    Seq<char>,
    std::io::Error,
> {
    match source {
        Ok(text) => Ok(text@),
        Err(cause) => Err(cause),
    }
}

impl BuilderView {
    /// The state before anything has been read.
    pub open spec fn fresh() -> BuilderView {
        BuilderView { next_id: 0, files: Map::empty(), modules: Map::empty(), stack: Seq::empty() }
    }

    /// The innermost module under exploration.
    pub open spec fn top(self) -> FrameView {
        self.stack.last()
    }

    /// Whether every item of the innermost module has been looked at.
    pub open spec fn explored(self) -> bool {
        self.top().cursor >= self.top().module.items.len()
    }

    /// The module declaration at the cursor, if the item there is one.
    pub open spec fn pending(self) -> Option<ModuleDeclView> {
        if self.stack.len() > 0 && !self.explored() {
            declared_module(self.top().module.items[self.top().cursor as int])
        } else {
            None
        }
    }

    /// Whether all identifiers but the last have been handed out. The last
    /// one is never used: the count of modules has to fit the type too.
    pub open spec fn exhausted(self) -> bool {
        self.next_id == ModuleId::MAX
    }

    /// Whether the machine cannot go on by itself: the tree is complete,
    /// the next module has to be found on disk, or there is no identifier
    /// left for it.
    pub open spec fn at_rest(self) -> bool {
        ||| self.stack.len() == 0
        ||| self.pending() matches Some(declaration) && (declaration.body is None
            || self.exhausted())
    }

    /// Moves the cursor of the innermost module past one item.
    pub open spec fn skip(self) -> BuilderView {
        BuilderView {
            stack: self.stack.update(
                self.stack.len() - 1,
                FrameView { cursor: self.top().cursor + 1, ..self.top() },
            ),
            ..self
        }
    }

    /// Starts a module inside the innermost one: it gets the next
    /// identifier, the module of a file is entered in the file index, and
    /// its exploration begins. The very first module is its own parent.
    pub open spec fn add_module(
        self,
        file: Seq<char>,
        internal_path: Seq<Seq<char>>,
        visibility: syn::Visibility,
        items: Seq<syn::Item>,
        attributes: Option<Seq<syn::Attribute>>,
    ) -> BuilderView {
        let id = self.next_id;
        let module = ModuleView {
            file,
            internal_path,
            visibility,
            submodules: Seq::empty(),
            parent: if self.stack.len() == 0 {
                id
            } else {
                self.top().id
            },
            items,
            attributes,
        };
        BuilderView {
            next_id: (id + 1) as ModuleId,
            files: if internal_path.len() == 1 {
                self.files.insert(file, id)
            } else {
                self.files
            },
            modules: self.modules,
            stack: self.stack.push(FrameView { id, cursor: 0, module }),
        }
    }

    /// Finishes the innermost module: it joins the finished modules, and
    /// the submodules of the module around it.
    pub open spec fn finish(self) -> BuilderView {
        let done = self.top();
        let around = self.stack.drop_last();
        BuilderView {
            modules: self.modules.insert(done.id, done.module),
            stack: if around.len() == 0 {
                around
            } else {
                let outer = around.last();
                around.update(
                    around.len() - 1,
                    FrameView {
                        module: ModuleView {
                            submodules: outer.module.submodules.push(done.id),
                            ..outer.module
                        },
                        ..outer
                    },
                )
            },
            ..self
        }
    }

    /// Enters the module with a body that is declared at the cursor.
    pub open spec fn descend(self, declaration: ModuleDeclView) -> BuilderView {
        self.skip().add_module(
            self.top().module.file,
            self.top().module.internal_path.push(declaration.name),
            declaration.visibility,
            declaration.body.unwrap(),
            None,
        )
    }

    /// One step. A machine at rest stays as it is.
    pub open spec fn step(self) -> BuilderView {
        if self.at_rest() {
            self
        } else if self.explored() {
            self.finish()
        } else {
            match self.pending() {
                Some(declaration) => self.descend(declaration),
                None => self.skip(),
            }
        }
    }

    /// The state after `count` steps.
    pub open spec fn steps(self, count: nat) -> BuilderView
        decreases count,
    {
        if count == 0 {
            self
        } else {
            self.steps((count - 1) as nat).step()
        }
    }

    /// Whether the machine, left to itself, comes to rest in `rest`.
    pub open spec fn settles_to(self, rest: BuilderView) -> bool {
        rest.at_rest() && exists|count: nat| self.steps(count) == rest
    }

    /// What a machine at rest hands to the outside: the finished tree, the
    /// question where the next module is, or the news that it cannot be
    /// numbered.
    pub open spec fn outcome(self) -> ProgressView {
        if self.stack.len() == 0 {
            ProgressView::Finished(
                PackageView { root_module: 0, files_to_ids: self.files, modules: self.modules },
            )
        } else {
            match self.pending() {
                Some(declaration) if declaration.body is None => ProgressView::Probe(
                    ProbingView {
                        builder: self,
                        directory: module_directory_of(
                            self.top().module.file,
                            self.top().module.internal_path.push(declaration.name),
                        ),
                        name: declaration.name,
                        visibility: declaration.visibility,
                    },
                ),
                _ => ProgressView::Exhausted,
            }
        }
    }
}

impl ProbingView {
    /// The build once it is known whether the index file exists: it waits
    /// for the index file if so, and for the file beside the directory if
    /// not.
    pub open spec fn answer(self, index_exists: bool) -> LoadingView {
        LoadingView {
            builder: self.builder,
            file: module_file_of(self.directory, index_exists),
            internal_path: file_root_path_of(self.name),
            visibility: self.visibility,
        }
    }
}

impl LoadingView {
    /// The build that waits for the text of the root file at `path`.
    pub open spec fn root(path: Seq<char>, visibility: syn::Visibility) -> LoadingView {
        LoadingView {
            builder: BuilderView::fresh(),
            file: path,
            internal_path: root_path(),
            visibility,
        }
    }

    /// The state in which the module of the awaited file, with these items
    /// and attributes, has been started in place of its declaration.
    pub open spec fn entered(
        self,
        items: Seq<syn::Item>,
        attributes: Seq<syn::Attribute>,
    ) -> BuilderView {
        let around = if self.builder.stack.len() == 0 {
            self.builder
        } else {
            self.builder.skip()
        };
        around.add_module(self.file, self.internal_path, self.visibility, items, Some(attributes))
    }

    /// Whether `next` is where the build stands once the awaited file has
    /// been read, or could not be read: a failure to read ends the build
    /// with the cause and the path of the file, a text that is no Rust
    /// source ends it with a syntax error, and any other text is parsed
    /// and explored.
    pub open spec fn answered(
        self,
        source: Result<Seq<char>, std::io::Error>,
        next: ProgressView,
    ) -> bool {
        match source {
            Err(cause) => next == ProgressView::Failed(ErrorView::Io(self.file, cause)),
            Ok(text) => match syntax_of(text) {
                Some((items, attributes)) => self.accepts(items, attributes, next),
                None => next matches ProgressView::Failed(ErrorView::Syn(_)),
            },
        }
    }

    /// Whether `next` is where the build stands once the awaited file has
    /// been parsed into these items and attributes.
    pub open spec fn accepts(
        self,
        items: Seq<syn::Item>,
        attributes: Seq<syn::Attribute>,
        next: ProgressView,
    ) -> bool {
        if self.builder.exhausted() {
            next == ProgressView::Exhausted
        } else {
            exists|rest: BuilderView|
                #![auto]
                self.entered(items, attributes).settles_to(rest) && next == rest.outcome()
        }
    }
}

/// The work that a stack of modules still holds: one for each module, and
/// the weight of the items from its cursor on.
pub open spec fn work_left(stack: Seq<FrameView>) -> nat
    decreases stack.len(),
{
    if stack.len() == 0 {
        0
    } else {
        work_left(stack.drop_last()) + 1 + items_weight(
            stack.last().module.items,
            stack.last().cursor as int,
        )
    }
}

impl BuilderView {
    /// Every cursor is an index into the items, or just behind them.
    pub open spec fn cursors_in_range(self) -> bool {
        forall|i: int|
            0 <= i < self.stack.len() ==> (#[trigger] self.stack[i]).cursor
                <= self.stack[i].module.items.len()
    }
}

/// Work depends on the items and cursors alone.
proof fn lemma_work_left_same(a: Seq<FrameView>, b: Seq<FrameView>)
    requires
        a.len() == b.len(),
        forall|i: int|
            0 <= i < a.len() ==> (#[trigger] a[i]).cursor == b[i].cursor && a[i].module.items
                == b[i].module.items,
    ensures
        work_left(a) == work_left(b),
    decreases a.len(),
{
    if a.len() > 0 {
        lemma_work_left_same(a.drop_last(), b.drop_last());
    }
}

/// Moving past an item leaves less work.
pub proof fn lemma_skip_decreases(state: BuilderView)
    requires
        state.stack.len() > 0,
        !state.explored(),
    ensures
        work_left(state.skip().stack) + 1 + item_weight(
            state.top().module.items[state.top().cursor as int],
        ) == work_left(state.stack),
        state.cursors_in_range() ==> state.skip().cursors_in_range(),
{
    assert(state.skip().stack.drop_last() =~= state.stack.drop_last());
}

/// Finishing a module leaves less work.
pub proof fn lemma_finish_decreases(state: BuilderView)
    requires
        state.stack.len() > 0,
    ensures
        work_left(state.finish().stack) < work_left(state.stack),
        state.cursors_in_range() ==> state.finish().cursors_in_range(),
{
    lemma_work_left_same(state.finish().stack, state.stack.drop_last());
}

/// Entering a module whose body weighs less than its declaration leaves
/// less work.
pub proof fn lemma_descend_decreases(state: BuilderView, declaration: ModuleDeclView)
    requires
        state.stack.len() > 0,
        !state.explored(),
        state.pending() == Some(declaration),
        declaration.body is Some,
        items_weight(declaration.body.unwrap(), 0) < item_weight(
            state.top().module.items[state.top().cursor as int],
        ),
    ensures
        work_left(state.descend(declaration).stack) < work_left(state.stack),
        state.cursors_in_range() ==> state.descend(declaration).cursors_in_range(),
{
    lemma_skip_decreases(state);
    let entered = state.descend(declaration);
    assert(entered.stack.drop_last() =~= state.skip().stack);
}

/// A machine that has come to rest stays where it is.
pub proof fn lemma_rest_is_final(state: BuilderView, count: nat, more: nat)
    requires
        state.steps(count).at_rest(),
    ensures
        state.steps(count + more) == state.steps(count),
    decreases more,
{
    if more > 0 {
        lemma_rest_is_final(state, count, (more - 1) as nat);
    }
}

/// A machine comes to rest in one state at most.
pub proof fn lemma_settles_once(state: BuilderView, first: BuilderView, second: BuilderView)
    requires
        state.settles_to(first),
        state.settles_to(second),
    ensures
        first == second,
{
    let m = choose|count: nat| state.steps(count) == first;
    let n = choose|count: nat| state.steps(count) == second;
    if m <= n {
        lemma_rest_is_final(state, m, (n - m) as nat);
    } else {
        lemma_rest_is_final(state, n, (m - n) as nat);
    }
}

} // verus!
