//! What holds of every state that a build passes through.
//!
//! Each part of the statement is kept behind a name of its own, and each
//! step of the machine is shown to keep each part.

use crate::machine::{BuilderView, FrameView, LoadingView, ProbingView, ProgressView};
use crate::package::{
    declarations, submodules_follow_declarations, ModuleId, ModuleView, PackageView,
};
use crate::syntax::{declared_module, ModuleDeclView};
use vstd::prelude::*;

verus! {

impl BuilderView {
    /// Whether the module numbered `id` is under exploration.
    pub open spec fn exploring(self, id: ModuleId) -> bool {
        exists|i: int| 0 <= i < self.stack.len() && (#[trigger] self.stack[i]).id == id
    }

    /// Every identifier below `next_id` belongs to one module, finished or
    /// under exploration; the modules under exploration were numbered in
    /// the order of the stack, the root with zero.
    #[verifier::opaque]
    pub open spec fn identifiers_in_order(self) -> bool {
        &&& self.next_id > 0
        &&& forall|id: ModuleId| #[trigger] self.modules.contains_key(id) ==> id < self.next_id
        &&& forall|i: int|
            0 <= i < self.stack.len() ==> (#[trigger] self.stack[i]).id < self.next_id
                && !self.modules.contains_key(self.stack[i].id)
        &&& forall|i: int, j: int|
            0 <= i < j < self.stack.len() ==> (#[trigger] self.stack[i]).id
                < (#[trigger] self.stack[j]).id
        &&& forall|id: ModuleId|
            id < self.next_id ==> #[trigger] self.modules.contains_key(id) || self.exploring(id)
        &&& self.stack.len() > 0 ==> self.stack[0].id == 0
    }

    /// A module under exploration has the one below it on the stack as its
    /// parent; the root is its own parent, and every other module was
    /// numbered after its parent.
    #[verifier::opaque]
    pub open spec fn parents_in_order(self) -> bool {
        &&& forall|id: ModuleId| #[trigger]
            self.modules.contains_key(id) ==> self.modules[id].parent_precedes(id)
        &&& self.stack.len() > 0 ==> self.stack[0].module.parent == 0
        &&& forall|i: int, j: int|
            0 <= i && j == i + 1 && j < self.stack.len() ==> (#[trigger] self.stack[j]).module.parent
                == (#[trigger] self.stack[i]).id
    }

    /// Every finished module but the root is among the submodules of its
    /// parent, be the parent finished or under exploration.
    #[verifier::opaque]
    pub open spec fn children_in_place(self) -> bool {
        &&& forall|id: ModuleId, parent: ModuleId|
            #[trigger] self.modules.contains_key(id) && #[trigger] self.modules.contains_key(parent)
                && id != 0 && self.modules[id].parent == parent
                ==> self.modules[parent].submodules.contains(id)
        &&& forall|id: ModuleId, i: int|
            #[trigger] self.modules.contains_key(id) && 0 <= i < self.stack.len() && id != 0
                && (#[trigger] self.stack[i]).id == self.modules[id].parent
                ==> self.stack[i].module.submodules.contains(id)
    }

    /// Attributes are present on the modules of files and on no others.
    #[verifier::opaque]
    pub open spec fn attributes_in_place(self) -> bool {
        &&& forall|id: ModuleId| #[trigger]
            self.modules.contains_key(id) ==> self.modules[id].attributes_match_path()
        &&& forall|i: int|
            0 <= i < self.stack.len() ==> (#[trigger] self.stack[i]).module.attributes_match_path()
    }

    /// The file index leads from a file to the module of that file, and
    /// holds the file of every such module.
    #[verifier::opaque]
    pub open spec fn files_in_place(self) -> bool {
        &&& forall|file: Seq<char>| #[trigger]
            self.files.contains_key(file) ==> {
                let id = self.files[file];
                &&& id < self.next_id
                &&& self.modules.contains_key(id) ==> self.modules[id].is_file_root()
                    && self.modules[id].file == file
            }
        &&& forall|file: Seq<char>, i: int|
            #[trigger] self.files.contains_key(file) && 0 <= i < self.stack.len() && (
            #[trigger] self.stack[i]).id == self.files[file]
                ==> self.stack[i].module.is_file_root() && self.stack[i].module.file == file
        &&& forall|id: ModuleId| #[trigger]
            self.modules.contains_key(id) && self.modules[id].is_file_root() ==> {
                &&& self.files.contains_key(self.modules[id].file)
                &&& id <= self.files[self.modules[id].file]
            }
        &&& forall|i: int|
            0 <= i < self.stack.len() && (#[trigger] self.stack[i]).module.is_file_root() ==> {
                &&& self.files.contains_key(self.stack[i].module.file)
                &&& self.stack[i].id <= self.files[self.stack[i].module.file]
            }
    }

    /// Whether the submodules of the module at `i` of the stack are the
    /// declarations before its cursor, one for one and in the same order;
    /// but for the last of them where that one is still under exploration,
    /// next on the stack.
    pub open spec fn frame_follows_declarations(self, i: int) -> bool {
        let frame = self.stack[i];
        let listed = frame.module.submodules;
        let declared = declarations(frame.module.items, frame.cursor as int);
        let inner = i + 1 < self.stack.len();
        &&& frame.cursor <= frame.module.items.len()
        &&& listed.len() + (if inner {
            1int
        } else {
            0int
        }) == declared.len()
        &&& forall|j: int|
            0 <= j < listed.len() ==> {
                let child = #[trigger] listed[j];
                &&& self.modules.contains_key(child)
                &&& frame.id < child
                &&& inner ==> child < self.stack[i + 1].id
                &&& self.modules[child].parent == frame.id
                &&& self.modules[child].declared_by(declared[j], frame.module)
            }
        &&& forall|j: int, k: int|
            0 <= j < k < listed.len() ==> #[trigger] listed[j] < #[trigger] listed[k]
        &&& inner ==> {
            &&& frame.cursor >= 1
            &&& declared_module(frame.module.items[frame.cursor - 1]) matches Some(declaration)
            &&& self.stack[i + 1].module.declared_by(declaration, frame.module)
        }
    }

    /// Submodules follow declarations, in every module as far as it has
    /// been explored.
    #[verifier::opaque]
    pub open spec fn submodules_in_place(self) -> bool {
        &&& forall|id: ModuleId| #[trigger]
            self.modules.contains_key(id) ==> submodules_follow_declarations(self.modules, id)
        &&& forall|i: int| 0 <= i < self.stack.len() ==> #[trigger] self.frame_follows_declarations(i)
    }

    /// What holds of every state of a build once the root has been
    /// entered.
    pub open spec fn inv(self) -> bool {
        &&& self.identifiers_in_order()
        &&& self.parents_in_order()
        &&& self.children_in_place()
        &&& self.attributes_in_place()
        &&& self.files_in_place()
        &&& self.submodules_in_place()
    }

    /// Whether `next` has the finished modules of this state, and its
    /// modules under exploration, with one more on top at most.
    pub open spec fn grows_to(self, next: BuilderView) -> bool {
        &&& next.modules == self.modules
        &&& self.stack.len() <= next.stack.len() <= self.stack.len() + 1
        &&& forall|i: int|
            0 <= i < self.stack.len() ==> (#[trigger] next.stack[i]).id == self.stack[i].id
                && next.stack[i].module == self.stack[i].module
        &&& if next.stack.len() == self.stack.len() {
            next.next_id == self.next_id
        } else {
            &&& self.stack.len() > 0
            &&& next.next_id == self.next_id + 1
            &&& next.stack[self.stack.len() as int].id == self.next_id
            &&& next.stack[self.stack.len() as int].module.parent == self.top().id
        }
    }

    /// Whether `next` is this state with the innermost module finished.
    pub open spec fn shrinks_to(self, next: BuilderView) -> bool {
        let top = self.stack.len() - 1;
        &&& self.stack.len() > 0
        &&& next.stack.len() == top
        &&& next.next_id == self.next_id
        &&& next.files == self.files
        &&& next.modules == self.modules.insert(self.stack[top].id, self.stack[top].module)
        &&& forall|i: int| 0 <= i < top - 1 ==> #[trigger] next.stack[i] == self.stack[i]
        &&& top > 0 ==> next.stack[top - 1] == (FrameView {
            module: ModuleView {
                submodules: self.stack[top - 1].module.submodules.push(self.stack[top].id),
                ..self.stack[top - 1].module
            },
            ..self.stack[top - 1]
        })
    }
}

proof fn lemma_skip_grows(state: BuilderView)
    requires
        state.stack.len() > 0,
    ensures
        state.grows_to(state.skip()),
        state.skip().files == state.files,
        state.skip().stack.len() == state.stack.len(),
        forall|i: int| 0 <= i < state.stack.len() - 1 ==> #[trigger] state.skip().stack[i] == state.stack[i],
        state.skip().top() == (FrameView { cursor: state.top().cursor + 1, ..state.top() }),
{
}

proof fn lemma_enter_grows(
    state: BuilderView,
    file: Seq<char>,
    internal_path: Seq<Seq<char>>,
    visibility: syn::Visibility,
    items: Seq<syn::Item>,
    attributes: Option<Seq<syn::Attribute>>,
)
    requires
        state.stack.len() > 0,
        !state.exhausted(),
    ensures
        ({
            let next = state.skip().add_module(file, internal_path, visibility, items, attributes);
            let top = state.stack.len() - 1;
            &&& state.grows_to(next)
            &&& next.stack.len() == state.stack.len() + 1
            &&& next.files == if internal_path.len() == 1 {
                state.files.insert(file, state.next_id)
            } else {
                state.files
            }
            &&& forall|i: int| 0 <= i < top ==> #[trigger] next.stack[i] == state.stack[i]
            &&& next.stack[top] == (FrameView {
                cursor: state.stack[top].cursor + 1,
                ..state.stack[top]
            })
            &&& next.stack[top + 1] == (FrameView {
                id: state.next_id,
                cursor: 0,
                module: ModuleView {
                    file,
                    internal_path,
                    visibility,
                    submodules: Seq::empty(),
                    parent: state.stack[top].id,
                    items,
                    attributes,
                },
            })
        }),
{
}

proof fn lemma_finish_shrinks(state: BuilderView)
    requires
        state.stack.len() > 0,
    ensures
        state.shrinks_to(state.finish()),
{
}

proof fn lemma_exploring_kept(state: BuilderView, next: BuilderView, id: ModuleId)
    requires
        state.exploring(id),
        forall|i: int|
            0 <= i < state.stack.len() && (#[trigger] state.stack[i]).id == id ==> i
                < next.stack.len() && next.stack[i].id == id,
    ensures
        next.exploring(id),
{
    let i = choose|i: int| 0 <= i < state.stack.len() && (#[trigger] state.stack[i]).id == id;
    assert(next.stack[i].id == id);
}

proof fn lemma_grow_identifiers(state: BuilderView, next: BuilderView)
    requires
        state.identifiers_in_order(),
        state.grows_to(next),
    ensures
        next.identifiers_in_order(),
{
    reveal(BuilderView::identifiers_in_order);
    let old_len = state.stack.len() as int;
    assert forall|other: ModuleId| other < next.next_id implies #[trigger] next.modules.contains_key(
        other,
    ) || next.exploring(other) by {
        if other == state.next_id {
            assert(next.stack[old_len].id == other);
        } else if !state.modules.contains_key(other) {
            assert(state.exploring(other));
            assert forall|i: int|
                0 <= i < state.stack.len() && (#[trigger] state.stack[i]).id == other implies i
                < next.stack.len() && next.stack[i].id == other by {
                assert(next.stack[i].id == state.stack[i].id);
            }
            lemma_exploring_kept(state, next, other);
        }
    }
    assert forall|i: int| 0 <= i < next.stack.len() implies (#[trigger] next.stack[i]).id
        < next.next_id && !next.modules.contains_key(next.stack[i].id) by {
        if i < old_len {
            assert(next.stack[i].id == state.stack[i].id);
        }
    }
    assert forall|i: int, j: int| 0 <= i < j < next.stack.len() implies (#[trigger] next.stack[i]).id
        < (#[trigger] next.stack[j]).id by {
        assert(next.stack[i].id == state.stack[i].id);
        if j < old_len {
            assert(next.stack[j].id == state.stack[j].id);
        }
    }
    if old_len > 0 {
        assert(next.stack[0].id == state.stack[0].id);
    }
}

proof fn lemma_grow_parents(state: BuilderView, next: BuilderView)
    requires
        state.parents_in_order(),
        state.grows_to(next),
    ensures
        next.parents_in_order(),
{
    reveal(BuilderView::parents_in_order);
    let old_len = state.stack.len() as int;
    if old_len > 0 {
        assert(next.stack[0].module == state.stack[0].module);
    }
    assert forall|i: int, j: int| 0 <= i && j == i + 1 && j < next.stack.len() implies (
    #[trigger] next.stack[j]).module.parent == (#[trigger] next.stack[i]).id by {
        assert(next.stack[i].id == state.stack[i].id);
        if j < old_len {
            assert(next.stack[j].module == state.stack[j].module);
        }
    }
}

proof fn lemma_grow_children(state: BuilderView, next: BuilderView)
    requires
        state.identifiers_in_order(),
        state.parents_in_order(),
        state.children_in_place(),
        state.grows_to(next),
    ensures
        next.children_in_place(),
{
    reveal(BuilderView::identifiers_in_order);
    reveal(BuilderView::parents_in_order);
    reveal(BuilderView::children_in_place);
    let old_len = state.stack.len() as int;
    assert forall|id: ModuleId, i: int|
        #[trigger] next.modules.contains_key(id) && 0 <= i < next.stack.len() && id != 0 && (
        #[trigger] next.stack[i]).id
            == next.modules[id].parent implies next.stack[i].module.submodules.contains(id) by {
        assert(state.modules[id].parent_precedes(id));
        if i < old_len {
            assert(next.stack[i].id == state.stack[i].id);
            assert(next.stack[i].module == state.stack[i].module);
        }
    }
}

proof fn lemma_grow_attributes(state: BuilderView, next: BuilderView)
    requires
        state.attributes_in_place(),
        state.grows_to(next),
        next.stack.len() > state.stack.len() ==> next.top().module.attributes_match_path(),
    ensures
        next.attributes_in_place(),
{
    reveal(BuilderView::attributes_in_place);
    let old_len = state.stack.len() as int;
    assert forall|i: int| 0 <= i < next.stack.len() implies (#[trigger]
        next.stack[i]).module.attributes_match_path() by {
        if i < old_len {
            assert(next.stack[i].module == state.stack[i].module);
        }
    }
}

proof fn lemma_grow_files(state: BuilderView, next: BuilderView)
    requires
        state.identifiers_in_order(),
        state.files_in_place(),
        state.grows_to(next),
        next.files == if next.stack.len() > state.stack.len() && next.top().module.is_file_root() {
            state.files.insert(next.top().module.file, state.next_id)
        } else {
            state.files
        },
    ensures
        next.files_in_place(),
{
    reveal(BuilderView::identifiers_in_order);
    reveal(BuilderView::files_in_place);
    let old_len = state.stack.len() as int;
    let grown = next.stack.len() > state.stack.len();
    let added = grown && next.top().module.is_file_root();
    assert forall|file: Seq<char>| #[trigger] next.files.contains_key(file) implies ({
        let id = next.files[file];
        &&& id < next.next_id
        &&& next.modules.contains_key(id) ==> next.modules[id].is_file_root()
            && next.modules[id].file == file
    }) by {
        if !(added && file == next.top().module.file) {
            assert(state.files.contains_key(file));
        }
    }
    assert forall|file: Seq<char>, i: int|
        #[trigger] next.files.contains_key(file) && 0 <= i < next.stack.len() && (
        #[trigger] next.stack[i]).id == next.files[file] implies next.stack[i].module.is_file_root()
        && next.stack[i].module.file == file by {
        if added && file == next.top().module.file {
            if i < old_len {
                assert(next.stack[i].id == state.stack[i].id);
            }
        } else {
            assert(state.files.contains_key(file));
            if i < old_len {
                assert(next.stack[i].id == state.stack[i].id);
                assert(next.stack[i].module == state.stack[i].module);
            }
        }
    }
    assert forall|id: ModuleId| #[trigger]
        next.modules.contains_key(id) && next.modules[id].is_file_root() implies ({
        &&& next.files.contains_key(next.modules[id].file)
        &&& id <= next.files[next.modules[id].file]
    }) by {}
    assert forall|i: int|
        0 <= i < next.stack.len() && (#[trigger] next.stack[i]).module.is_file_root() implies ({
        &&& next.files.contains_key(next.stack[i].module.file)
        &&& next.stack[i].id <= next.files[next.stack[i].module.file]
    }) by {
        if i < old_len {
            assert(next.stack[i].id == state.stack[i].id);
            assert(next.stack[i].module == state.stack[i].module);
        }
    }
}

proof fn lemma_skip_submodules(state: BuilderView)
    requires
        state.submodules_in_place(),
        state.stack.len() > 0,
        !state.explored(),
        state.pending() is None,
    ensures
        state.skip().submodules_in_place(),
{
    reveal(BuilderView::submodules_in_place);
    let next = state.skip();
    let top = state.stack.len() - 1;
    lemma_skip_grows(state);
    assert forall|i: int| 0 <= i < next.stack.len() implies #[trigger]
        next.frame_follows_declarations(i) by {
        assert(state.frame_follows_declarations(i));
        if i < top {
            assert(next.stack[i] == state.stack[i]);
            assert(next.stack[i + 1].id == state.stack[i + 1].id);
            assert(next.stack[i + 1].module == state.stack[i + 1].module);
        } else {
            let frame = state.stack[i];
            assert(declared_module(frame.module.items[frame.cursor as int]) is None);
            assert(declarations(frame.module.items, frame.cursor as int + 1) == declarations(
                frame.module.items,
                frame.cursor as int,
            ));
        }
    }
}

proof fn lemma_enter_submodules(
    state: BuilderView,
    next: BuilderView,
    declaration: ModuleDeclView,
)
    requires
        state.identifiers_in_order(),
        state.submodules_in_place(),
        !state.exhausted(),
        state.pending() == Some(declaration),
        next.stack.len() == state.stack.len() + 1,
        next.modules == state.modules,
        forall|i: int| 0 <= i < state.stack.len() - 1 ==> #[trigger] next.stack[i] == state.stack[i],
        next.stack[state.stack.len() - 1] == (FrameView {
            cursor: state.top().cursor + 1,
            ..state.top()
        }),
        next.stack[state.stack.len() as int].id == state.next_id,
        next.stack[state.stack.len() as int].cursor == 0,
        next.stack[state.stack.len() as int].module.submodules.len() == 0,
        next.stack[state.stack.len() as int].module.declared_by(declaration, state.top().module),
    ensures
        next.submodules_in_place(),
{
    reveal(BuilderView::identifiers_in_order);
    reveal(BuilderView::submodules_in_place);
    let top = state.stack.len() - 1;
    assert forall|i: int| 0 <= i < next.stack.len() implies #[trigger]
        next.frame_follows_declarations(i) by {
        if i < top {
            assert(state.frame_follows_declarations(i));
            assert(next.stack[i] == state.stack[i]);
            if i + 1 < top {
                assert(next.stack[i + 1] == state.stack[i + 1]);
            }
        } else if i == top {
            assert(state.frame_follows_declarations(i));
            let frame = state.stack[i];
            let declared = declarations(frame.module.items, frame.cursor as int);
            assert(declarations(frame.module.items, frame.cursor as int + 1) == declared.push(
                declaration,
            ));
            let listed = frame.module.submodules;
            assert forall|j: int| 0 <= j < listed.len() implies (#[trigger] listed[j])
                < state.next_id by {
                assert(state.modules.contains_key(listed[j]));
            }
        }
    }
}

/// Moving past an item that declares no module keeps the invariant.
pub proof fn lemma_skip_keeps_inv(state: BuilderView)
    requires
        state.inv(),
        state.stack.len() > 0,
        !state.explored(),
        state.pending() is None,
    ensures
        state.skip().inv(),
{
    let next = state.skip();
    lemma_skip_grows(state);
    lemma_grow_identifiers(state, next);
    lemma_grow_parents(state, next);
    lemma_grow_children(state, next);
    lemma_grow_attributes(state, next);
    lemma_grow_files(state, next);
    lemma_skip_submodules(state);
}

/// Entering the root module of a package establishes the invariant.
pub proof fn lemma_root_has_inv(
    file: Seq<char>,
    internal_path: Seq<Seq<char>>,
    visibility: syn::Visibility,
    items: Seq<syn::Item>,
    attributes: Seq<syn::Attribute>,
)
    requires
        internal_path.len() == 1,
    ensures
        BuilderView::fresh().add_module(file, internal_path, visibility, items, Some(attributes)).inv(),
{
    reveal(BuilderView::identifiers_in_order);
    reveal(BuilderView::parents_in_order);
    reveal(BuilderView::children_in_place);
    reveal(BuilderView::attributes_in_place);
    reveal(BuilderView::files_in_place);
    reveal(BuilderView::submodules_in_place);
    let next = BuilderView::fresh().add_module(
        file,
        internal_path,
        visibility,
        items,
        Some(attributes),
    );
    assert(next.stack.len() == 1);
    assert(next.stack[0].id == 0);
    assert(next.exploring(0));
    assert(next.frame_follows_declarations(0));
}

/// Entering the module that the declaration at the cursor stands for keeps
/// the invariant.
pub proof fn lemma_enter_keeps_inv(
    state: BuilderView,
    declaration: ModuleDeclView,
    file: Seq<char>,
    internal_path: Seq<Seq<char>>,
    items: Seq<syn::Item>,
    attributes: Option<Seq<syn::Attribute>>,
)
    requires
        state.inv(),
        !state.exhausted(),
        state.pending() == Some(declaration),
        ({
            let module = ModuleView {
                file,
                internal_path,
                visibility: declaration.visibility,
                submodules: Seq::empty(),
                parent: state.top().id,
                items,
                attributes,
            };
            module.attributes_match_path() && module.declared_by(declaration, state.top().module)
        }),
    ensures
        state.skip().add_module(file, internal_path, declaration.visibility, items, attributes).inv(),
{
    let next = state.skip().add_module(
        file,
        internal_path,
        declaration.visibility,
        items,
        attributes,
    );
    lemma_enter_grows(state, file, internal_path, declaration.visibility, items, attributes);
    lemma_grow_identifiers(state, next);
    lemma_grow_parents(state, next);
    lemma_grow_children(state, next);
    lemma_grow_attributes(state, next);
    lemma_grow_files(state, next);
    lemma_enter_submodules(state, next, declaration);
}

proof fn lemma_finish_identifiers(state: BuilderView, next: BuilderView)
    requires
        state.identifiers_in_order(),
        state.shrinks_to(next),
    ensures
        next.identifiers_in_order(),
{
    reveal(BuilderView::identifiers_in_order);
    let top = state.stack.len() - 1;
    assert forall|i: int| 0 <= i < next.stack.len() implies (#[trigger] next.stack[i]).id
        == state.stack[i].id by {
        if i < top - 1 {
            assert(next.stack[i] == state.stack[i]);
        }
    }
    assert forall|other: ModuleId| other < next.next_id implies #[trigger] next.modules.contains_key(
        other,
    ) || next.exploring(other) by {
        if !state.modules.contains_key(other) && other != state.stack[top].id {
            assert(state.exploring(other));
            assert forall|i: int|
                0 <= i < state.stack.len() && (#[trigger] state.stack[i]).id == other implies i
                < next.stack.len() && next.stack[i].id == other by {
                if i < top {
                    assert(next.stack[i].id == state.stack[i].id);
                }
            }
            lemma_exploring_kept(state, next, other);
        }
    }
    assert forall|i: int, j: int| 0 <= i < j < next.stack.len() implies (#[trigger] next.stack[i]).id
        < (#[trigger] next.stack[j]).id by {
        assert(next.stack[i].id == state.stack[i].id);
        assert(next.stack[j].id == state.stack[j].id);
    }
    assert forall|i: int| 0 <= i < next.stack.len() implies (#[trigger] next.stack[i]).id
        < next.next_id && !next.modules.contains_key(next.stack[i].id) by {
        assert(next.stack[i].id == state.stack[i].id);
        assert(state.stack[i].id < state.stack[top].id);
    }
    if next.stack.len() > 0 {
        assert(next.stack[0].id == state.stack[0].id);
    }
}

proof fn lemma_finish_parents(state: BuilderView, next: BuilderView)
    requires
        state.identifiers_in_order(),
        state.parents_in_order(),
        state.shrinks_to(next),
    ensures
        next.parents_in_order(),
{
    reveal(BuilderView::identifiers_in_order);
    reveal(BuilderView::parents_in_order);
    let top = state.stack.len() - 1;
    assert forall|i: int| 0 <= i < next.stack.len() implies (#[trigger] next.stack[i]).id
        == state.stack[i].id && next.stack[i].module.parent == state.stack[i].module.parent by {
        if i < top - 1 {
            assert(next.stack[i] == state.stack[i]);
        }
    }
    if top > 0 {
        assert(state.stack[0].id < state.stack[top].id);
        assert(state.stack[top].module.parent == state.stack[top - 1].id);
        assert(state.stack[top - 1].id < state.stack[top].id);
        assert(next.stack[0].module.parent == state.stack[0].module.parent);
    }
    assert(state.stack[top].module.parent_precedes(state.stack[top].id));
    assert forall|i: int, j: int| 0 <= i && j == i + 1 && j < next.stack.len() implies (
    #[trigger] next.stack[j]).module.parent == (#[trigger] next.stack[i]).id by {
        assert(next.stack[i].id == state.stack[i].id);
        assert(next.stack[j].module.parent == state.stack[j].module.parent);
    }
}

proof fn lemma_finish_children(state: BuilderView, next: BuilderView)
    requires
        state.identifiers_in_order(),
        state.parents_in_order(),
        state.children_in_place(),
        state.shrinks_to(next),
    ensures
        next.children_in_place(),
{
    reveal(BuilderView::identifiers_in_order);
    reveal(BuilderView::parents_in_order);
    reveal(BuilderView::children_in_place);
    let top = state.stack.len() - 1;
    let done = state.stack[top];
    if top > 0 {
        assert(state.stack[0].id < done.id);
        assert(done.module.parent == state.stack[top - 1].id);
        assert(state.stack[top - 1].id < done.id);
        let listed = next.stack[top - 1].module.submodules;
        assert(listed[listed.len() - 1] == done.id);
        assert(listed.contains(done.id));
    }
    assert forall|i: int| 0 <= i < next.stack.len() implies (#[trigger] next.stack[i]).id
        == state.stack[i].id by {
        if i < top - 1 {
            assert(next.stack[i] == state.stack[i]);
        }
    }
    assert forall|id: ModuleId, parent: ModuleId|
        #[trigger] next.modules.contains_key(id) && #[trigger] next.modules.contains_key(parent)
            && id != 0 && next.modules[id].parent
            == parent implies next.modules[parent].submodules.contains(id) by {
        if id == done.id {
            assert(!state.modules.contains_key(state.stack[top - 1].id));
            assert(parent != done.id);
        } else if parent == done.id {
            assert(state.modules.contains_key(id));
            assert(state.stack[top].id == state.modules[id].parent);
        } else {
            assert(state.modules.contains_key(id) && state.modules.contains_key(parent));
        }
    }
    assert forall|id: ModuleId, i: int|
        #[trigger] next.modules.contains_key(id) && 0 <= i < next.stack.len() && id != 0 && (
        #[trigger] next.stack[i]).id
            == next.modules[id].parent implies next.stack[i].module.submodules.contains(id) by {
        assert(next.stack[i].id == state.stack[i].id);
        if id == done.id {
            if i < top - 1 {
                assert(state.stack[i].id < state.stack[top - 1].id);
            }
        } else {
            assert(state.modules.contains_key(id));
            let before = state.stack[i].module.submodules;
            assert(before.contains(id));
            if i == top - 1 {
                let at = choose|at: int| 0 <= at < before.len() && before[at] == id;
                assert(before.push(done.id)[at] == id);
            } else {
                assert(next.stack[i] == state.stack[i]);
            }
        }
    }
}

proof fn lemma_finish_attributes(state: BuilderView, next: BuilderView)
    requires
        state.attributes_in_place(),
        state.shrinks_to(next),
    ensures
        next.attributes_in_place(),
{
    reveal(BuilderView::attributes_in_place);
    let top = state.stack.len() - 1;
    assert(state.stack[top].module.attributes_match_path());
    assert forall|i: int| 0 <= i < next.stack.len() implies (#[trigger]
        next.stack[i]).module.attributes_match_path() by {
        assert(state.stack[i].module.attributes_match_path());
        if i < top - 1 {
            assert(next.stack[i] == state.stack[i]);
        }
    }
}

proof fn lemma_finish_files(state: BuilderView, next: BuilderView)
    requires
        state.identifiers_in_order(),
        state.files_in_place(),
        state.shrinks_to(next),
    ensures
        next.files_in_place(),
{
    reveal(BuilderView::identifiers_in_order);
    reveal(BuilderView::files_in_place);
    let top = state.stack.len() - 1;
    let done = state.stack[top];
    assert forall|i: int| 0 <= i < next.stack.len() implies (#[trigger] next.stack[i]).id
        == state.stack[i].id && next.stack[i].module.file == state.stack[i].module.file
        && next.stack[i].module.internal_path == state.stack[i].module.internal_path by {
        if i < top - 1 {
            assert(next.stack[i] == state.stack[i]);
        }
    }
    assert forall|file: Seq<char>| #[trigger] next.files.contains_key(file) implies ({
        let id = next.files[file];
        &&& id < next.next_id
        &&& next.modules.contains_key(id) ==> next.modules[id].is_file_root()
            && next.modules[id].file == file
    }) by {
        assert(state.files.contains_key(file));
        if next.files[file] == done.id {
            assert(state.stack[top].id == state.files[file]);
        }
    }
    assert forall|file: Seq<char>, i: int|
        #[trigger] next.files.contains_key(file) && 0 <= i < next.stack.len() && (
        #[trigger] next.stack[i]).id == next.files[file] implies next.stack[i].module.is_file_root()
        && next.stack[i].module.file == file by {
        assert(state.files.contains_key(file));
        assert(state.stack[i].id == state.files[file]);
    }
    assert forall|id: ModuleId| #[trigger]
        next.modules.contains_key(id) && next.modules[id].is_file_root() implies ({
        &&& next.files.contains_key(next.modules[id].file)
        &&& id <= next.files[next.modules[id].file]
    }) by {
        if id == done.id {
            assert(state.stack[top].module.is_file_root());
        }
    }
    assert forall|i: int|
        0 <= i < next.stack.len() && (#[trigger] next.stack[i]).module.is_file_root() implies ({
        &&& next.files.contains_key(next.stack[i].module.file)
        &&& next.stack[i].id <= next.files[next.stack[i].module.file]
    }) by {
        assert(state.stack[i].module.is_file_root());
    }
}

proof fn lemma_finish_submodules(state: BuilderView, next: BuilderView)
    requires
        state.identifiers_in_order(),
        state.parents_in_order(),
        state.submodules_in_place(),
        state.explored(),
        state.shrinks_to(next),
    ensures
        next.submodules_in_place(),
{
    reveal(BuilderView::identifiers_in_order);
    reveal(BuilderView::parents_in_order);
    reveal(BuilderView::submodules_in_place);
    let top = state.stack.len() - 1;
    let done = state.stack[top];
    assert(state.frame_follows_declarations(top));
    assert forall|other: ModuleId| #[trigger]
        next.modules.contains_key(other) implies submodules_follow_declarations(
        next.modules,
        other,
    ) by {
        if other != done.id {
            assert(submodules_follow_declarations(state.modules, other));
        }
    }
    assert forall|i: int| 0 <= i < next.stack.len() implies #[trigger]
        next.frame_follows_declarations(i) by {
        assert(state.frame_follows_declarations(i));
        if i == top - 1 {
            let frame = state.stack[i];
            let listed = frame.module.submodules;
            assert(next.stack[i].module.submodules == listed.push(done.id));
            assert(done.module.parent == frame.id);
            assert(frame.id < done.id);
            assert forall|j: int, k: int|
                0 <= j < k < listed.len() + 1 implies #[trigger] listed.push(done.id)[j]
                < #[trigger] listed.push(done.id)[k] by {
                assert(listed[j] < done.id);
                if k < listed.len() {
                    assert(listed[j] < listed[k]);
                }
            }
        } else {
            assert(next.stack[i] == state.stack[i]);
            if i + 1 < top - 1 {
                assert(next.stack[i + 1] == state.stack[i + 1]);
            }
        }
    }
}

/// Finishing a module whose items have all been looked at keeps the
/// invariant.
pub proof fn lemma_finish_keeps_inv(state: BuilderView)
    requires
        state.inv(),
        state.stack.len() > 0,
        state.explored(),
    ensures
        state.finish().inv(),
{
    let next = state.finish();
    lemma_finish_shrinks(state);
    lemma_finish_identifiers(state, next);
    lemma_finish_parents(state, next);
    lemma_finish_children(state, next);
    lemma_finish_attributes(state, next);
    lemma_finish_files(state, next);
    lemma_finish_submodules(state, next);
}

proof fn lemma_complete_is_dense(state: BuilderView, package: PackageView)
    requires
        state.identifiers_in_order(),
        state.stack.len() == 0,
        package.root_module == 0,
        package.modules == state.modules,
    ensures
        package.identifiers_are_dense(),
        forall|id: ModuleId| id < state.next_id ==> #[trigger] state.modules.contains_key(id),
{
    reveal(BuilderView::identifiers_in_order);
    reveal(PackageView::identifiers_are_dense);
    assert forall|id: ModuleId| id < state.next_id implies #[trigger] state.modules.contains_key(
        id,
    ) by {
        assert(state.modules.contains_key(id) || state.exploring(id));
    }
}

proof fn lemma_complete_lists_children(state: BuilderView, package: PackageView)
    requires
        state.identifiers_in_order(),
        state.parents_in_order(),
        state.children_in_place(),
        state.stack.len() == 0,
        package.root_module == 0,
        package.modules == state.modules,
    ensures
        package.parents_precede(),
        package.children_are_listed(),
{
    reveal(BuilderView::identifiers_in_order);
    reveal(BuilderView::parents_in_order);
    reveal(BuilderView::children_in_place);
    reveal(PackageView::parents_precede);
    reveal(PackageView::children_are_listed);
    lemma_complete_is_dense(state, package);
    assert forall|id: ModuleId| #[trigger]
        package.modules.contains_key(id) && id != package.root_module implies ({
        let parent = package.modules[id].parent;
        package.modules[parent].submodules.contains(id)
    }) by {
        let parent = state.modules[id].parent;
        assert(state.modules[id].parent_precedes(id));
        assert(state.modules.contains_key(parent));
    }
}

proof fn lemma_complete_indexes_files(state: BuilderView, package: PackageView)
    requires
        state.identifiers_in_order(),
        state.files_in_place(),
        state.stack.len() == 0,
        package.files_to_ids == state.files,
        package.root_module == 0,
        package.modules == state.modules,
    ensures
        package.files_lead_to_file_roots(),
        package.file_roots_are_indexed(),
{
    reveal(BuilderView::files_in_place);
    reveal(PackageView::files_lead_to_file_roots);
    reveal(PackageView::file_roots_are_indexed);
    lemma_complete_is_dense(state, package);
    assert forall|file: Seq<char>| #[trigger] package.files_to_ids.contains_key(file) implies ({
        let id = package.files_to_ids[file];
        &&& package.modules.contains_key(id)
        &&& package.modules[id].is_file_root()
        &&& package.modules[id].file == file
    }) by {
        assert(state.modules.contains_key(state.files[file]));
    }
}

/// A complete build has made a well-formed tree.
pub proof fn lemma_complete_is_well_formed(state: BuilderView)
    requires
        state.inv(),
        state.stack.len() == 0,
    ensures
        (PackageView {
            root_module: 0,
            files_to_ids: state.files,
            modules: state.modules,
        }).well_formed(),
{
    let package = PackageView { root_module: 0, files_to_ids: state.files, modules: state.modules };
    lemma_complete_is_dense(state, package);
    lemma_complete_lists_children(state, package);
    lemma_complete_indexes_files(state, package);
    assert(package.attributes_match_paths()) by {
        reveal(BuilderView::attributes_in_place);
        reveal(PackageView::attributes_match_paths);
    }
    assert(package.submodules_follow_declarations()) by {
        reveal(BuilderView::submodules_in_place);
        reveal(PackageView::submodules_follow_declarations);
    }
}

/// With the invariant, every cursor is in range.
pub proof fn lemma_inv_bounds_cursors(state: BuilderView)
    requires
        state.inv(),
    ensures
        state.cursors_in_range(),
{
    reveal(BuilderView::submodules_in_place);
    assert forall|i: int| 0 <= i < state.stack.len() implies (#[trigger] state.stack[i]).cursor
        <= state.stack[i].module.items.len() by {
        assert(state.frame_follows_declarations(i));
    }
}

/// A step keeps the invariant.
pub proof fn lemma_step_keeps_inv(state: BuilderView)
    requires
        state.inv(),
    ensures
        state.step().inv(),
{
    if state.at_rest() {
    } else if state.explored() {
        lemma_finish_keeps_inv(state);
    } else {
        match state.pending() {
            Some(declaration) => {
                assert(state.top().module.attributes_match_path()) by {
                    reveal(BuilderView::attributes_in_place);
                }
                lemma_enter_keeps_inv(
                    state,
                    declaration,
                    state.top().module.file,
                    state.top().module.internal_path.push(declaration.name),
                    declaration.body.unwrap(),
                    None,
                );
            },
            None => {
                lemma_skip_keeps_inv(state);
            },
        }
    }
}

/// Any number of steps keeps the invariant.
pub proof fn lemma_steps_keep_inv(state: BuilderView, count: nat)
    requires
        state.inv(),
    ensures
        state.steps(count).inv(),
    decreases count,
{
    if count > 0 {
        lemma_steps_keep_inv(state, (count - 1) as nat);
        lemma_step_keeps_inv(state.steps((count - 1) as nat));
    }
}

impl ProbingView {
    /// Whether this is the question that a build at rest asks.
    pub open spec fn valid(self) -> bool {
        &&& self.builder.inv()
        &&& self.builder.outcome() == ProgressView::Probe(self)
    }
}

impl LoadingView {
    /// Whether this is a build that waits for the root file, or for the
    /// file that was chosen for the declaration at which it rests.
    pub open spec fn valid(self) -> bool {
        &&& self.internal_path.len() == 1
        &&& if self.builder.stack.len() == 0 {
            self.builder == BuilderView::fresh()
        } else {
            &&& self.builder.inv()
            &&& self.builder.outcome() matches ProgressView::Probe(probing)
            &&& self == probing.answer(true) || self == probing.answer(false)
        }
    }
}

impl ProgressView {
    /// Whether a build may stand here: a finished tree is well formed, a
    /// build that waits can be resumed.
    pub open spec fn valid(self) -> bool {
        match self {
            ProgressView::Finished(package) => package.well_formed(),
            ProgressView::Probe(probing) => probing.valid(),
            ProgressView::Load(loading) => loading.valid(),
            _ => true,
        }
    }
}

/// A build that waits for a file can start the module of that file.
pub proof fn lemma_entered_has_inv(
    loading: LoadingView,
    items: Seq<syn::Item>,
    attributes: Seq<syn::Attribute>,
)
    requires
        loading.valid(),
        !loading.builder.exhausted(),
    ensures
        loading.entered(items, attributes).inv(),
{
    if loading.builder.stack.len() == 0 {
        lemma_root_has_inv(
            loading.file,
            loading.internal_path,
            loading.visibility,
            items,
            attributes,
        );
    } else {
        let declaration = loading.builder.pending().unwrap();
        lemma_enter_keeps_inv(
            loading.builder,
            declaration,
            loading.file,
            loading.internal_path,
            items,
            Some(attributes),
        );
    }
}

/// Where a machine with the invariant rests, a build may stand.
pub proof fn lemma_outcome_is_valid(rest: BuilderView)
    requires
        rest.inv(),
        rest.at_rest(),
    ensures
        rest.outcome().valid(),
{
    if rest.stack.len() == 0 {
        lemma_complete_is_well_formed(rest);
    }
}

} // verus!
