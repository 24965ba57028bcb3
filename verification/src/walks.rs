//! What the walks of the pipeline act on: over a directory tree, a stop,
//! render or start walk acts on exactly the files of the tree that its
//! purpose concerns, each once, depth-first.
use vstd::prelude::*;
use crate::pipeline::{concerns, step, walk_continued, AwaitingView, DeploymentView, EventView, Purpose};
use crate::traversal::{
    all_files, answered, directory_in_front, files_in, listing_of, located_in, roots, total_size,
    weight, Located, Tree,
};
use crate::paths::child;
use crate::walk::{entries_under, EntryView, ListedView};

verus! {

/// The files among `files` that a walk with this purpose acts on, in
/// order.
pub open spec fn of_concern(files: Seq<Seq<char>>, purpose: Purpose) -> Seq<Seq<char>>
    decreases files.len(),
{
    if files.len() == 0 {
        Seq::empty()
    } else if concerns(purpose, files[0]) {
        seq![files[0]] + of_concern(files.drop_first(), purpose)
    } else {
        of_concern(files.drop_first(), purpose)
    }
}

/// The event that answers the enumeration of a directory.
pub open spec fn reply(
    answers: spec_fn(Seq<char>) -> Option<Seq<ListedView>>,
    directory: Seq<char>,
) -> EventView {
    match answers(directory) {
        Some(listing) => EventView::Listing(listing),
        None => EventView::Missing,
    }
}

/// The files that the walk with this purpose acts on from state `s` on,
/// in the order in which it does, when every enumeration is answered by
/// `answers`, every tool succeeds, and at most `fuel` events are
/// reported. The count ends where the machine leaves the walk.
pub open spec fn treated(
    s: DeploymentView,
    purpose: Purpose,
    answers: spec_fn(Seq<char>) -> Option<Seq<ListedView>>,
    fuel: nat,
) -> Seq<Seq<char>>
    decreases fuel,
{
    if fuel == 0 {
        Seq::empty()
    } else {
        let done = step(s, EventView::Succeeded).0;
        match s.awaiting {
            AwaitingView::Listing { purpose: p, directory } => if p == purpose {
                treated(
                    step(s, reply(answers, directory)).0,
                    purpose,
                    answers,
                    (fuel - 1) as nat,
                )
            } else {
                Seq::empty()
            },
            AwaitingView::Stopping { file } => if purpose == Purpose::Stop {
                seq![file] + treated(done, purpose, answers, (fuel - 1) as nat)
            } else {
                Seq::empty()
            },
            AwaitingView::Starting { file } => if purpose == Purpose::Start {
                seq![file] + treated(done, purpose, answers, (fuel - 1) as nat)
            } else {
                Seq::empty()
            },
            AwaitingView::Substitution { template } => if purpose == Purpose::Render {
                seq![template] + treated(done, purpose, answers, (fuel - 1) as nat)
            } else {
                Seq::empty()
            },
            AwaitingView::Removal { template } => if purpose == Purpose::Render {
                treated(done, purpose, answers, (fuel - 1) as nat)
            } else {
                Seq::empty()
            },
            _ => Seq::empty(),
        }
    }
}

/// The files of concern of two sequences, one after the other, are
/// those of the first followed by those of the second.
pub proof fn of_concern_distributes(a: Seq<Seq<char>>, b: Seq<Seq<char>>, purpose: Purpose)
    ensures
        of_concern(a + b, purpose) == of_concern(a, purpose) + of_concern(b, purpose),
    decreases a.len(),
{
    if a.len() == 0 {
        assert(a + b =~= b);
        assert(of_concern(a, purpose) + of_concern(b, purpose) =~= of_concern(b, purpose));
    } else {
        assert((a + b)[0] == a[0]);
        assert((a + b).drop_first() =~= a.drop_first() + b);
        of_concern_distributes(a.drop_first(), b, purpose);
        assert(of_concern(a + b, purpose) =~= of_concern(a, purpose) + of_concern(b, purpose));
    }
}

/// Where no file is of concern, none is acted on.
pub proof fn nothing_of_concern(files: Seq<Seq<char>>, purpose: Purpose)
    requires
        forall|i: int| 0 <= i < files.len() ==> !concerns(purpose, #[trigger] files[i]),
    ensures
        of_concern(files, purpose) == Seq::<Seq<char>>::empty(),
    decreases files.len(),
{
    if files.len() > 0 {
        assert(!concerns(purpose, files[0]));
        assert forall|i: int| 0 <= i < files.drop_first().len() implies !concerns(
            purpose,
            #[trigger] files.drop_first()[i],
        ) by {
            assert(files.drop_first()[i] == files[i + 1]);
        }
        nothing_of_concern(files.drop_first(), purpose);
    }
}

/// A walk that goes on with the roots of trees pending acts on the
/// files of concern of those trees, tree after tree, and on nothing
/// else, provided that every enumeration is answered from the trees and
/// that two events may be reported for each file and each directory.
pub proof fn walk_treats_files_of_concern(
    s: DeploymentView,
    purpose: Purpose,
    work: Seq<Located>,
    answers: spec_fn(Seq<char>) -> Option<Seq<ListedView>>,
    fuel: nat,
)
    requires
        s.pending == roots(work),
        forall|i: int|
            0 <= i < work.len() ==> answered(answers, (#[trigger] work[i]).directory, work[i].tree),
        fuel > 2 * weight(work),
    ensures
        treated(walk_continued(s, purpose).0, purpose, answers, fuel) == of_concern(
            all_files(work),
            purpose,
        ),
    decreases fuel, work.len(),
{
    if work.len() == 0 {
    } else {
        let first = work[0];
        let rest = work.drop_first();
        let path = child(first.directory, first.tree.name());
        let passed = DeploymentView { pending: s.pending.drop_first(), ..s };
        let next = walk_continued(s, purpose).0;
        assert(s.pending[0] == EntryView { path, is_dir: first.tree is Directory });
        assert(passed.pending =~= roots(rest));
        assert forall|i: int| 0 <= i < rest.len() implies answered(
            answers,
            (#[trigger] rest[i]).directory,
            rest[i].tree,
        ) by {
            assert(rest[i] == work[i + 1]);
        }
        match first.tree {
            Tree::File { name } => {
                let files = all_files(work);
                assert(files[0] == path);
                assert(files.drop_first() =~= all_files(rest));
                if concerns(purpose, path) {
                    let after = step(next, EventView::Succeeded).0;
                    match purpose {
                        Purpose::Render => {
                            assert(after.pending == roots(rest));
                            walk_treats_files_of_concern(
                                after,
                                purpose,
                                rest,
                                answers,
                                (fuel - 2) as nat,
                            );
                            assert(treated(after, purpose, answers, (fuel - 1) as nat) == treated(
                                walk_continued(after, purpose).0,
                                purpose,
                                answers,
                                (fuel - 2) as nat,
                            ));
                        },
                        _ => {
                            walk_treats_files_of_concern(
                                next,
                                purpose,
                                rest,
                                answers,
                                (fuel - 1) as nat,
                            );
                        },
                    }
                } else {
                    walk_treats_files_of_concern(passed, purpose, rest, answers, fuel);
                }
            },
            Tree::Directory { name, children } => {
                let below = located_in(path, children) + rest;
                let entered = DeploymentView {
                    pending: entries_under(path, listing_of(children)) + next.pending,
                    ..next
                };
                directory_in_front(path, children, rest);
                assert(answered(answers, first.directory, first.tree));
                assert(reply(answers, path) == EventView::Listing(listing_of(children)));
                assert(entered.pending =~= roots(below));
                assert forall|i: int| 0 <= i < below.len() implies answered(
                    answers,
                    (#[trigger] below[i]).directory,
                    below[i].tree,
                ) by {
                    if i < children.len() {
                        assert(below[i] == Located { directory: path, tree: children[i] });
                    } else {
                        assert(below[i] == rest[i - children.len()]);
                    }
                }
                walk_treats_files_of_concern(entered, purpose, below, answers, (fuel - 1) as nat);
            },
        }
    }
}

/// A stop, render or start walk over a directory acts on exactly the
/// files below it that its purpose concerns: on each once, depth-first,
/// in the order in which the directories list their entries, and on no
/// other file.
pub proof fn walk_acts_on_files_of_concern(
    s: DeploymentView,
    purpose: Purpose,
    root: Seq<char>,
    trees: Seq<Tree>,
    answers: spec_fn(Seq<char>) -> Option<Seq<ListedView>>,
    fuel: nat,
)
    requires
        s.awaiting == (AwaitingView::Listing { purpose, directory: root }),
        s.pending.len() == 0,
        answers(root) == Some(listing_of(trees)),
        forall|i: int| 0 <= i < trees.len() ==> answered(answers, root, #[trigger] trees[i]),
        fuel > 2 * total_size(trees) + 1,
    ensures
        treated(s, purpose, answers, fuel) == of_concern(files_in(root, trees), purpose),
{
    let work = located_in(root, trees);
    let entered = DeploymentView {
        pending: entries_under(root, listing_of(trees)) + s.pending,
        ..s
    };
    directory_in_front(root, trees, Seq::empty());
    assert(work + Seq::<Located>::empty() =~= work);
    assert(files_in(root, trees) + all_files(Seq::<Located>::empty()) =~= files_in(root, trees));
    assert(entered.pending =~= roots(work));
    assert(reply(answers, root) == EventView::Listing(listing_of(trees)));
    walk_treats_files_of_concern(entered, purpose, work, answers, (fuel - 1) as nat);
}

/// A walk over a path that is no directory acts on nothing.
pub proof fn walk_over_nothing_acts_on_nothing(
    s: DeploymentView,
    purpose: Purpose,
    root: Seq<char>,
    answers: spec_fn(Seq<char>) -> Option<Seq<ListedView>>,
    fuel: nat,
)
    requires
        s.awaiting == (AwaitingView::Listing { purpose, directory: root }),
        s.pending.len() == 0,
        answers(root) is None,
    ensures
        treated(s, purpose, answers, fuel) == Seq::<Seq<char>>::empty(),
{
    if fuel > 0 {
        assert(reply(answers, root) == EventView::Missing);
        let next = step(s, EventView::Missing).0;
        assert(treated(next, purpose, answers, (fuel - 1) as nat) == Seq::<Seq<char>>::empty());
    }
}

/// Rendering again renders nothing: a render walk over a directory
/// below which no file is a template asks for no substitution and no
/// removal, however deep the directory is.
pub proof fn render_walk_without_templates_is_idle(
    s: DeploymentView,
    root: Seq<char>,
    trees: Seq<Tree>,
    answers: spec_fn(Seq<char>) -> Option<Seq<ListedView>>,
    fuel: nat,
)
    requires
        s.awaiting == (AwaitingView::Listing { purpose: Purpose::Render, directory: root }),
        s.pending.len() == 0,
        answers(root) == Some(listing_of(trees)),
        forall|i: int| 0 <= i < trees.len() ==> answered(answers, root, #[trigger] trees[i]),
        forall|i: int|
            0 <= i < files_in(root, trees).len() ==> !concerns(
                Purpose::Render,
                #[trigger] files_in(root, trees)[i],
            ),
        fuel > 2 * total_size(trees) + 1,
    ensures
        treated(s, Purpose::Render, answers, fuel) == Seq::<Seq<char>>::empty(),
{
    walk_acts_on_files_of_concern(s, Purpose::Render, root, trees, answers, fuel);
    nothing_of_concern(files_in(root, trees), Purpose::Render);
}

} // verus!
