//! What a walk reaches: driven over a directory tree, the walker visits
//! every file of the tree, each once, depth-first and in the order in
//! which the directories list their entries.
use vstd::prelude::*;
use crate::paths::child;
use crate::walk::{entries_under, next_step, EntryView, ListedView, StepView};

verus! {

/// A directory tree: what is found below one entry of a directory.
pub ghost enum Tree {
    File { name: Seq<char> },
    Directory { name: Seq<char>, children: Seq<Tree> },
}

/// A tree together with the directory that holds it.
pub ghost struct Located {
    pub directory: Seq<char>,
    pub tree: Tree,
}

impl Tree {
    /// The name of the tree's root in its directory.
    pub open spec fn name(self) -> Seq<char> {
        match self {
            Tree::File { name } => name,
            Tree::Directory { name, children } => name,
        }
    }

    /// How the enumeration of its directory reports the tree's root.
    pub open spec fn listed(self) -> ListedView {
        ListedView { name: self.name(), is_dir: self is Directory }
    }

    /// The number of files and directories in the tree.
    pub open spec fn size(self) -> nat
        decreases self,
    {
        match self {
            Tree::File { name } => 1,
            Tree::Directory { name, children } => 1 + total_size(children),
        }
    }
}

/// The number of files and directories in a sequence of trees.
pub open spec fn total_size(trees: Seq<Tree>) -> nat
    decreases trees,
{
    if trees.len() == 0 {
        0
    } else {
        trees[0].size() + total_size(trees.drop_first())
    }
}

/// What the enumeration of a directory with these trees in it reports.
pub open spec fn listing_of(trees: Seq<Tree>) -> Seq<ListedView> {
    Seq::new(trees.len(), |i: int| trees[i].listed())
}

/// The files of a tree held by `directory`, depth-first, each by its
/// path.
pub open spec fn files_of(directory: Seq<char>, tree: Tree) -> Seq<Seq<char>>
    decreases tree,
{
    match tree {
        Tree::File { name } => seq![child(directory, name)],
        Tree::Directory { name, children } => files_in(child(directory, name), children),
    }
}

/// The files of the trees held by `directory`, tree after tree.
pub open spec fn files_in(directory: Seq<char>, trees: Seq<Tree>) -> Seq<Seq<char>>
    decreases trees,
{
    if trees.len() == 0 {
        Seq::empty()
    } else {
        files_of(directory, trees[0]) + files_in(directory, trees.drop_first())
    }
}

/// Whether the enumeration of every directory of the tree is answered
/// with what the tree holds there.
pub open spec fn answered(
    answers: spec_fn(Seq<char>) -> Option<Seq<ListedView>>,
    directory: Seq<char>,
    tree: Tree,
) -> bool
    decreases tree,
{
    match tree {
        Tree::File { name } => true,
        Tree::Directory { name, children } => {
            &&& answers(child(directory, name)) == Some(listing_of(children))
            &&& forall|i: int|
                0 <= i < children.len() ==> answered(
                    answers,
                    child(directory, name),
                    #[trigger] children[i],
                )
        },
    }
}

/// The files that a walk visits from the given pending entries on, in
/// the order of the visits, when it takes at most `fuel` steps and each
/// enumeration is answered by `answers`: with a listing, or with `None`
/// for a path that is no directory.
pub open spec fn visits(
    pending: Seq<EntryView>,
    answers: spec_fn(Seq<char>) -> Option<Seq<ListedView>>,
    fuel: nat,
) -> Seq<Seq<char>>
    decreases fuel,
{
    if fuel == 0 {
        Seq::empty()
    } else {
        let (rest, step) = next_step(pending);
        match step {
            StepView::Finished => Seq::empty(),
            StepView::Visit(file) => seq![file] + visits(rest, answers, (fuel - 1) as nat),
            StepView::Enumerate(directory) => match answers(directory) {
                Some(listing) => visits(
                    entries_under(directory, listing) + rest,
                    answers,
                    (fuel - 1) as nat,
                ),
                None => visits(rest, answers, (fuel - 1) as nat),
            },
        }
    }
}

/// The pending entries that stand for the roots of the given trees.
pub open spec fn roots(work: Seq<Located>) -> Seq<EntryView> {
    Seq::new(
        work.len(),
        |i: int|
            EntryView {
                path: child(work[i].directory, work[i].tree.name()),
                is_dir: work[i].tree is Directory,
            },
    )
}

/// The trees of one directory, each with that directory.
pub open spec fn located_in(directory: Seq<char>, trees: Seq<Tree>) -> Seq<Located> {
    Seq::new(trees.len(), |i: int| Located { directory, tree: trees[i] })
}

/// The number of files and directories in all the given trees.
pub open spec fn weight(work: Seq<Located>) -> nat
    decreases work.len(),
{
    if work.len() == 0 {
        0
    } else {
        work[0].tree.size() + weight(work.drop_first())
    }
}

/// The files of all the given trees, tree after tree.
pub open spec fn all_files(work: Seq<Located>) -> Seq<Seq<char>>
    decreases work.len(),
{
    if work.len() == 0 {
        Seq::empty()
    } else {
        files_of(work[0].directory, work[0].tree) + all_files(work.drop_first())
    }
}

/// In front of other trees, the trees of one directory add their size
/// and their files.
pub proof fn directory_in_front(directory: Seq<char>, trees: Seq<Tree>, rest: Seq<Located>)
    ensures
        weight(located_in(directory, trees) + rest) == total_size(trees) + weight(rest),
        all_files(located_in(directory, trees) + rest) == files_in(directory, trees) + all_files(
            rest,
        ),
    decreases trees.len(),
{
    let work = located_in(directory, trees) + rest;
    if trees.len() == 0 {
        assert(work =~= rest);
        assert(files_in(directory, trees) + all_files(rest) =~= all_files(rest));
    } else {
        let tail = trees.drop_first();
        assert(work[0] == Located { directory, tree: trees[0] });
        assert(work.drop_first() =~= located_in(directory, tail) + rest);
        directory_in_front(directory, tail, rest);
        assert(all_files(work) =~= files_in(directory, trees) + all_files(rest));
    }
}

/// A walk whose pending entries are the roots of trees visits the files
/// of those trees, tree after tree, provided that every enumeration is
/// answered from the trees and that the walk may take a step for each
/// file and each directory of the trees.
pub proof fn walk_visits_all_files(
    work: Seq<Located>,
    answers: spec_fn(Seq<char>) -> Option<Seq<ListedView>>,
    fuel: nat,
)
    requires
        forall|i: int|
            0 <= i < work.len() ==> answered(answers, (#[trigger] work[i]).directory, work[i].tree),
        fuel >= weight(work),
    ensures
        visits(roots(work), answers, fuel) == all_files(work),
    decreases fuel,
{
    if work.len() == 0 {
    } else {
        let first = work[0];
        let rest = work.drop_first();
        let path = child(first.directory, first.tree.name());
        assert(roots(work)[0] == EntryView { path, is_dir: first.tree is Directory });
        assert(roots(work).drop_first() =~= roots(rest));
        assert forall|i: int| 0 <= i < rest.len() implies answered(
            answers,
            (#[trigger] rest[i]).directory,
            rest[i].tree,
        ) by {
            assert(rest[i] == work[i + 1]);
        }
        match first.tree {
            Tree::File { name } => {
                walk_visits_all_files(rest, answers, (fuel - 1) as nat);
            },
            Tree::Directory { name, children } => {
                let below = located_in(path, children) + rest;
                directory_in_front(path, children, rest);
                assert(answered(answers, first.directory, first.tree));
                assert(answers(path) == Some(listing_of(children)));
                assert(entries_under(path, listing_of(children)) + roots(rest) =~= roots(below));
                assert forall|i: int| 0 <= i < below.len() implies answered(
                    answers,
                    (#[trigger] below[i]).directory,
                    below[i].tree,
                ) by {
                    if i < children.len() {
                        assert(below[i] == Located { directory: path, tree: children[i] });
                    } else {
                        assert(below[i] == rest[i - children.len()]);
                    }
                }
                walk_visits_all_files(below, answers, (fuel - 1) as nat);
            },
        }
    }
}

/// A walk over a directory visits every file below it, each once,
/// depth-first, in the order in which the directories list their
/// entries.
pub proof fn walk_is_depth_first(
    root: Seq<char>,
    trees: Seq<Tree>,
    answers: spec_fn(Seq<char>) -> Option<Seq<ListedView>>,
    fuel: nat,
)
    requires
        forall|i: int| 0 <= i < trees.len() ==> answered(answers, root, #[trigger] trees[i]),
        fuel >= total_size(trees),
    ensures
        visits(entries_under(root, listing_of(trees)), answers, fuel) == files_in(root, trees),
{
    let work = located_in(root, trees);
    directory_in_front(root, trees, Seq::empty());
    assert(work + Seq::<Located>::empty() =~= work);
    assert(files_in(root, trees) + all_files(Seq::<Located>::empty()) =~= files_in(root, trees));
    assert(entries_under(root, listing_of(trees)) =~= roots(work));
    walk_visits_all_files(work, answers, fuel);
}

/// A walk over a path that is no directory visits nothing.
pub proof fn walk_over_nothing_visits_nothing(
    root: Seq<char>,
    answers: spec_fn(Seq<char>) -> Option<Seq<ListedView>>,
    fuel: nat,
)
    requires
        answers(root) is None,
    ensures
        visits(seq![(EntryView { path: root, is_dir: true })], answers, fuel) == Seq::<
            Seq<char>,
        >::empty(),
{
    let pending = seq![(EntryView { path: root, is_dir: true })];
    if fuel > 0 {
        assert(pending.drop_first() =~= Seq::<EntryView>::empty());
        if fuel > 1 {
            assert(visits(Seq::<EntryView>::empty(), answers, (fuel - 1) as nat) == Seq::<
                Seq<char>,
            >::empty());
        }
    }
}

} // verus!
