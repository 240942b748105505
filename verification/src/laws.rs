//! Laws of module trees and of the builds that make them.

use crate::consistency::{lemma_entered_has_inv, lemma_outcome_is_valid, lemma_steps_keep_inv};
use crate::machine::{lemma_settles_once, BuilderView, LoadingView, ProgressView};
use crate::package::{submodules_follow_declarations, ErrorView, ModuleId, PackageView};
use crate::paths::index_file_of;
use crate::syntax::syntax_of;
use vstd::prelude::*;

verus! {

/// Whatever a build hands out once a file has been parsed is sound: a
/// finished tree is well formed, and a build that waits can be resumed.
pub proof fn law_builds_stay_valid(
    loading: LoadingView,
    items: Seq<syn::Item>,
    attributes: Seq<syn::Attribute>,
    next: ProgressView,
)
    requires
        loading.valid(),
        loading.accepts(items, attributes, next),
    ensures
        next.valid(),
{
    if !loading.builder.exhausted() {
        let entered = loading.entered(items, attributes);
        let rest = choose|rest: BuilderView|
            #![auto]
            entered.settles_to(rest) && next == rest.outcome();
        let count = choose|count: nat| entered.steps(count) == rest;
        lemma_entered_has_inv(loading, items, attributes);
        lemma_steps_keep_inv(entered, count);
        lemma_outcome_is_valid(rest);
    }
}

/// What the outside tells a build that waits.
pub enum Answer {
    /// Whether the index file exists.
    Found(bool),
    /// What reading the awaited file gave.
    Read(Result<Seq<char>, std::io::Error>),
}

/// The files of a package as a build gets to see them: which paths exist,
/// and what reading each path gives.
pub struct FileTree {
    pub present: spec_fn(Seq<char>) -> bool,
    pub read: spec_fn(Seq<char>) -> Result<Seq<char>, std::io::Error>,
}

impl FileTree {
    /// The answer of this tree to the question of a build that waits.
    pub open spec fn answer(self, question: ProgressView) -> Answer {
        match question {
            ProgressView::Probe(probing) => Answer::Found(
                (self.present)(index_file_of(probing.directory)),
            ),
            ProgressView::Load(loading) => Answer::Read((self.read)(loading.file)),
            _ => arbitrary(),
        }
    }
}

impl ProgressView {
    /// Whether the build has ended, well or not.
    pub open spec fn is_final(self) -> bool {
        !(self is Probe) && !(self is Load)
    }

    /// Whether two builds ended alike: with the same tree, with the same
    /// failure to read, or both with a syntax error.
    pub open spec fn agrees_with(self, other: ProgressView) -> bool {
        self == other || (self matches ProgressView::Failed(ErrorView::Syn(_))
            && other matches ProgressView::Failed(ErrorView::Syn(_)))
    }

    /// Whether `next` is where this build stands after `answer`. A build
    /// that has ended takes no answer, and a build that waits takes the
    /// kind of answer that it waits for.
    pub open spec fn answered_by(self, answer: Answer, next: ProgressView) -> bool {
        match (self, answer) {
            (ProgressView::Probe(probing), Answer::Found(index_exists)) => next
                == ProgressView::Load(probing.answer(index_exists)),
            (ProgressView::Load(loading), Answer::Read(source)) => loading.answered(source, next),
            _ => false,
        }
    }

    /// Whether this build, given `answers` one after the other, comes to
    /// stand at `end`.
    pub open spec fn leads_by(self, answers: Seq<Answer>, end: ProgressView) -> bool
        decreases answers.len(),
    {
        if answers.len() == 0 {
            self == end
        } else {
            exists|next: ProgressView|
                #![auto]
                self.answered_by(answers.first(), next) && next.leads_by(
                    answers.drop_first(),
                    end,
                )
        }
    }

    /// Whether this build, with `rounds` questions answered from `tree`,
    /// comes to stand at `end`.
    pub open spec fn leads_to(self, tree: FileTree, end: ProgressView, rounds: nat) -> bool
        decreases rounds,
    {
        if rounds == 0 {
            self == end
        } else {
            exists|next: ProgressView|
                #![auto]
                self.answered_by(tree.answer(self), next) && next.leads_to(
                    tree,
                    end,
                    (rounds - 1) as nat,
                )
        }
    }
}

/// Whether some build that started from a root file, whatever it was told
/// on its way, has ended with `package`.
pub open spec fn is_built(package: PackageView) -> bool {
    exists|path: Seq<char>, visibility: syn::Visibility, answers: Seq<Answer>|
        (#[trigger] ProgressView::Load(LoadingView::root(path, visibility)).leads_by(
            answers,
            ProgressView::Finished(package),
        ))
}

/// An answer leads a build that may stand where it stands to a place where
/// a build may stand.
pub proof fn law_answers_keep_builds_valid(from: ProgressView, answer: Answer, next: ProgressView)
    requires
        from.valid(),
        from.answered_by(answer, next),
    ensures
        next.valid(),
{
    match (from, answer) {
        (ProgressView::Probe(probing), Answer::Found(index_exists)) => {},
        (ProgressView::Load(loading), Answer::Read(source)) => {
            if let Ok(text) = source {
                if let Some((items, attributes)) = syntax_of(text) {
                    law_builds_stay_valid(loading, items, attributes, next);
                }
            }
        },
        _ => {},
    }
}

proof fn lemma_led_builds_are_valid(start: ProgressView, answers: Seq<Answer>, end: ProgressView)
    requires
        start.valid(),
        start.leads_by(answers, end),
    ensures
        end.valid(),
    decreases answers.len(),
{
    if answers.len() > 0 {
        let next = choose|next: ProgressView|
            #![auto]
            start.answered_by(answers.first(), next) && next.leads_by(answers.drop_first(), end);
        law_answers_keep_builds_valid(start, answers.first(), next);
        lemma_led_builds_are_valid(next, answers.drop_first(), end);
    }
}

/// Every tree that a build hands out is well formed, whatever files the
/// build was given.
pub proof fn law_built_trees_are_well_formed(package: PackageView)
    requires
        is_built(package),
    ensures
        package.well_formed(),
{
    let (path, visibility, answers) = choose|
        path: Seq<char>,
        visibility: syn::Visibility,
        answers: Seq<Answer>,
    |
        (#[trigger] ProgressView::Load(LoadingView::root(path, visibility)).leads_by(
            answers,
            ProgressView::Finished(package),
        ));
    let start = ProgressView::Load(LoadingView::root(path, visibility));
    assert(start.valid()) by {
        reveal_strlit("crate");
    }
    lemma_led_builds_are_valid(start, answers, ProgressView::Finished(package));
}

/// Identifiers are handed out once: the modules of a tree are numbered
/// from zero without gaps, the root is its own parent, and no other module
/// is its own parent.
pub proof fn law_identifiers_are_unique(package: PackageView, id: ModuleId)
    requires
        is_built(package),
        package.modules.contains_key(id),
    ensures
        package.modules.contains_key(package.root_module),
        package.modules[package.root_module].parent == package.root_module,
        id != package.root_module ==> package.modules[id].parent < id,
        package.modules.contains_key(package.modules[id].parent),
        forall|earlier: ModuleId| earlier < id ==> #[trigger] package.modules.contains_key(earlier),
{
    law_built_trees_are_well_formed(package);
    reveal(PackageView::identifiers_are_dense);
    reveal(PackageView::parents_precede);
    assert(package.modules[id].parent_precedes(id));
    assert(package.modules[package.root_module].parent_precedes(package.root_module));
}

/// No module is listed as a submodule twice, be it by two modules or at
/// two places of one list, and the root is listed nowhere.
pub proof fn law_modules_are_listed_once(
    package: PackageView,
    a: ModuleId,
    j: int,
    b: ModuleId,
    k: int,
)
    requires
        is_built(package),
        package.modules.contains_key(a),
        package.modules.contains_key(b),
        0 <= j < package.modules[a].submodules.len(),
        0 <= k < package.modules[b].submodules.len(),
        package.modules[a].submodules[j] == package.modules[b].submodules[k],
    ensures
        a == b,
        j == k,
        package.modules[a].submodules[j] != package.root_module,
        package.modules[package.modules[a].submodules[j]].parent == a,
{
    law_built_trees_are_well_formed(package);
    reveal(PackageView::submodules_follow_declarations);
    reveal(PackageView::identifiers_are_dense);
    let listed = package.modules[a].submodules;
    let others = package.modules[b].submodules;
    assert(submodules_follow_declarations(package.modules, a));
    assert(submodules_follow_declarations(package.modules, b));
    assert(package.modules[listed[j]].parent == a);
    assert(package.modules[others[k]].parent == b);
    if j < k {
        assert(listed[j] < listed[k]);
    } else if k < j {
        assert(listed[k] < listed[j]);
    }
}

/// Every module but the root is among the submodules of its parent.
pub proof fn law_children_are_listed(package: PackageView, id: ModuleId)
    requires
        is_built(package),
        package.modules.contains_key(id),
        id != package.root_module,
    ensures
        package.modules[package.modules[id].parent].submodules.contains(id),
{
    law_built_trees_are_well_formed(package);
    reveal(PackageView::children_are_listed);
}

/// Every entry of the file index leads to a module that is the module of
/// that very file.
pub proof fn law_file_index_leads_to_file_roots(package: PackageView, file: Seq<char>)
    requires
        is_built(package),
        package.files_to_ids.contains_key(file),
    ensures
        package.modules.contains_key(package.files_to_ids[file]),
        package.modules[package.files_to_ids[file]].internal_path.len() == 1,
        package.modules[package.files_to_ids[file]].file == file,
{
    law_built_trees_are_well_formed(package);
    reveal(PackageView::files_lead_to_file_roots);
}

/// The file of a module whose internal path has one segment is in the file
/// index. Where no file was read for two modules, the index leads from the
/// file back to that module; in any tree it leads to the last module made
/// from that file.
pub proof fn law_file_roots_are_indexed(package: PackageView, id: ModuleId)
    requires
        is_built(package),
        package.modules.contains_key(id),
        package.modules[id].internal_path.len() == 1,
    ensures
        package.files_to_ids.contains_key(package.modules[id].file),
        id <= package.files_to_ids[package.modules[id].file],
        package.files_are_read_once() ==> package.files_to_ids[package.modules[id].file] == id,
{
    law_built_trees_are_well_formed(package);
    reveal(PackageView::files_lead_to_file_roots);
    reveal(PackageView::file_roots_are_indexed);
    let found = package.files_to_ids[package.modules[id].file];
    assert(package.files_to_ids.contains_key(package.modules[id].file));
    assert(package.modules.contains_key(found));
}

/// A module has attributes if and only if its internal path has one
/// segment; no internal path is empty.
pub proof fn law_attributes_mark_file_roots(package: PackageView, id: ModuleId)
    requires
        is_built(package),
        package.modules.contains_key(id),
    ensures
        package.modules[id].internal_path.len() >= 1,
        package.modules[id].internal_path.len() == 1 ==> package.modules[id].attributes is Some,
        package.modules[id].internal_path.len() > 1 ==> package.modules[id].attributes is None,
{
    law_built_trees_are_well_formed(package);
    reveal(PackageView::attributes_match_paths);
}

/// Submodules come in the textual order of the declarations: a module has
/// as many submodules as there are module declarations among its items,
/// and submodule `j` is the module that declaration `j` stands for, a
/// child of this module, numbered after the submodules before it.
pub proof fn law_submodules_keep_textual_order(package: PackageView, id: ModuleId, j: int)
    requires
        is_built(package),
        package.modules.contains_key(id),
        0 <= j < package.modules[id].submodules.len(),
    ensures
        package.modules[id].submodules.len() == package.modules[id].declarations().len(),
        package.modules.contains_key(package.modules[id].submodules[j]),
        package.modules[package.modules[id].submodules[j]].parent == id,
        package.modules[package.modules[id].submodules[j]].declared_by(
            package.modules[id].declarations()[j],
            package.modules[id],
        ),
        forall|i: int| 0 <= i < j ==> package.modules[id].submodules[i] < package.modules[id].submodules[j],
{
    law_built_trees_are_well_formed(package);
    reveal(PackageView::submodules_follow_declarations);
    let listed = package.modules[id].submodules;
    assert(submodules_follow_declarations(package.modules, id));
    assert(package.modules.contains_key(listed[j]));
    assert forall|i: int| 0 <= i < j implies listed[i] < listed[j] by {}
}

/// One answer leads to one state, but for the wording of a syntax error.
proof fn lemma_one_answer(
    from: ProgressView,
    answer: Answer,
    first: ProgressView,
    second: ProgressView,
)
    requires
        from.answered_by(answer, first),
        from.answered_by(answer, second),
    ensures
        first == second || (first.is_final() && second.is_final() && first.agrees_with(second)),
{
    if let (ProgressView::Load(loading), Answer::Read(Ok(text))) = (from, answer) {
        if let Some((items, attributes)) = syntax_of(text) {
            if !loading.builder.exhausted() {
                let entered = loading.entered(items, attributes);
                let a = choose|rest: BuilderView|
                    #![auto]
                    entered.settles_to(rest) && first == rest.outcome();
                let b = choose|rest: BuilderView|
                    #![auto]
                    entered.settles_to(rest) && second == rest.outcome();
                lemma_settles_once(entered, a, b);
            }
        }
    }
}

/// A build that has ended takes no more answers.
proof fn lemma_final_stays(tree: FileTree, from: ProgressView, end: ProgressView, rounds: nat)
    requires
        from.is_final(),
        from.leads_to(tree, end, rounds),
    ensures
        end == from,
        rounds == 0,
{
    if rounds > 0 {
        let next = choose|next: ProgressView|
            #![auto]
            from.answered_by(tree.answer(from), next) && next.leads_to(
                tree,
                end,
                (rounds - 1) as nat,
            );
    }
}

/// Building again over an unchanged file tree gives the same result: two
/// builds that start alike and get their answers from the same tree end
/// after the same number of questions, with the same tree and the same
/// identifiers, or with the same failure.
pub proof fn law_rebuilding_agrees(
    tree: FileTree,
    start: ProgressView,
    first: ProgressView,
    first_rounds: nat,
    second: ProgressView,
    second_rounds: nat,
)
    requires
        start.leads_to(tree, first, first_rounds),
        start.leads_to(tree, second, second_rounds),
        first.is_final(),
        second.is_final(),
    ensures
        first.agrees_with(second),
        first_rounds == second_rounds,
    decreases first_rounds,
{
    if first_rounds == 0 {
        lemma_final_stays(tree, start, second, second_rounds);
    } else if second_rounds == 0 {
        lemma_final_stays(tree, start, first, first_rounds);
    } else {
        let a = choose|next: ProgressView|
            #![auto]
            start.answered_by(tree.answer(start), next) && next.leads_to(
                tree,
                first,
                (first_rounds - 1) as nat,
            );
        let b = choose|next: ProgressView|
            #![auto]
            start.answered_by(tree.answer(start), next) && next.leads_to(
                tree,
                second,
                (second_rounds - 1) as nat,
            );
        lemma_one_answer(start, tree.answer(start), a, b);
        if a == b {
            law_rebuilding_agrees(
                tree,
                a,
                first,
                (first_rounds - 1) as nat,
                second,
                (second_rounds - 1) as nat,
            );
        } else {
            lemma_final_stays(tree, a, first, (first_rounds - 1) as nat);
            lemma_final_stays(tree, b, second, (second_rounds - 1) as nat);
        }
    }
}

} // verus!
