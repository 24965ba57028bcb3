//! Depth-first traversal of a directory tree, one step at a time: the
//! walker says which directory to enumerate or which file to visit next,
//! and the caller supplies each enumeration.
use vstd::prelude::*;
use vstd::string::*;
use std::collections::VecDeque;
use crate::paths::{child, child_path};

verus! {

/// One entry of a directory as an enumeration reports it.
pub struct Listed {
    /// The entry's name inside its directory.
    pub name: String,
    /// Whether the entry is a directory.
    pub is_dir: bool,
}

/// The mathematical content of a [`Listed`].
pub ghost struct ListedView {
    pub name: Seq<char>,
    pub is_dir: bool,
}

impl View for Listed {
    type V = ListedView;

    open spec fn view(&self) -> ListedView {
        ListedView { name: self.name@, is_dir: self.is_dir }
    }
}

/// An entry that the walk has yet to reach.
pub struct Entry {
    /// The entry's path.
    pub path: String,
    /// Whether the entry is a directory.
    pub is_dir: bool,
}

/// The mathematical content of an [`Entry`].
pub ghost struct EntryView {
    pub path: Seq<char>,
    pub is_dir: bool,
}

impl View for Entry {
    type V = EntryView;

    open spec fn view(&self) -> EntryView {
        EntryView { path: self.path@, is_dir: self.is_dir }
    }
}

/// The contents of a sequence of listed entries, in order.
pub open spec fn listing_view(listing: Seq<Listed>) -> Seq<ListedView> {
    Seq::new(listing.len(), |i: int| listing[i]@)
}

/// The contents of a sequence of pending entries, in order.
pub open spec fn entries_view(entries: Seq<Entry>) -> Seq<EntryView> {
    Seq::new(entries.len(), |i: int| entries[i]@)
}

/// The names of the entries of a listing that are no directories, in
/// the order listed.
pub open spec fn file_names(listing: Seq<ListedView>) -> Seq<Seq<char>>
    decreases listing.len(),
{
    if listing.len() == 0 {
        Seq::empty()
    } else if listing.last().is_dir {
        file_names(listing.drop_last())
    } else {
        file_names(listing.drop_last()).push(listing.last().name)
    }
}

/// A name is among the file names of a listing exactly when the listing
/// holds an entry of that name that is no directory.
pub proof fn file_names_are_files(listing: Seq<ListedView>, name: Seq<char>)
    ensures
        file_names(listing).contains(name) <==> exists|i: int|
            0 <= i < listing.len() && !(#[trigger] listing[i]).is_dir && listing[i].name == name,
    decreases listing.len(),
{
    if listing.len() > 0 {
        let head = listing.drop_last();
        let last = listing.last();
        file_names_are_files(head, name);
        if file_names(listing).contains(name) {
            let k = choose|k: int| 0 <= k < file_names(listing).len() && file_names(listing)[k] == name;
            if !last.is_dir && k == file_names(head).len() {
                assert(!listing[listing.len() - 1].is_dir && listing[listing.len() - 1].name == name);
            } else {
                assert(file_names(head)[k] == name);
                assert(file_names(head).contains(name));
                let i = choose|i: int| 0 <= i < head.len() && !(#[trigger] head[i]).is_dir && head[i].name == name;
                assert(listing[i] == head[i]);
            }
        }
        if exists|i: int| 0 <= i < listing.len() && !(#[trigger] listing[i]).is_dir && listing[i].name == name {
            let i = choose|i: int| 0 <= i < listing.len() && !(#[trigger] listing[i]).is_dir && listing[i].name == name;
            if i < head.len() {
                assert(head[i] == listing[i]);
                assert(file_names(head).contains(name));
                let k = choose|k: int| 0 <= k < file_names(head).len() && file_names(head)[k] == name;
                assert(file_names(listing)[k] == name);
            } else {
                assert(file_names(listing)[file_names(head).len() as int] == name);
            }
        }
    }
}

/// The entries of `directory` that a listing of it reports, in order,
/// each under its full path.
pub open spec fn entries_under(directory: Seq<char>, listing: Seq<ListedView>) -> Seq<EntryView> {
    Seq::new(
        listing.len(),
        |i: int| EntryView { path: child(directory, listing[i].name), is_dir: listing[i].is_dir },
    )
}

/// What a walk does next.
pub enum Step {
    /// Enumerate this directory and supply what it holds.
    Enumerate(String),
    /// Apply the action to this file.
    Visit(String),
    /// Nothing is left.
    Finished,
}

/// The mathematical content of a [`Step`].
pub ghost enum StepView {
    Enumerate(Seq<char>),
    Visit(Seq<char>),
    Finished,
}

impl View for Step {
    type V = StepView;

    open spec fn view(&self) -> StepView {
        match *self {
            Step::Enumerate(directory) => StepView::Enumerate(directory@),
            Step::Visit(file) => StepView::Visit(file@),
            Step::Finished => StepView::Finished,
        }
    }
}

/// The step that a walk with the given pending entries takes, and the
/// entries that are pending after it: the first entry leaves, a
/// directory to be enumerated and a file to be visited.
pub open spec fn next_step(pending: Seq<EntryView>) -> (Seq<EntryView>, StepView) {
    if pending.len() == 0 {
        (pending, StepView::Finished)
    } else if pending[0].is_dir {
        (pending.drop_first(), StepView::Enumerate(pending[0].path))
    } else {
        (pending.drop_first(), StepView::Visit(pending[0].path))
    }
}

/// A walk in progress: the entries that are still to be reached, the
/// next one first.
pub struct Walker {
    pub pending: VecDeque<Entry>,
}

impl View for Walker {
    type V = Seq<EntryView>;

    open spec fn view(&self) -> Seq<EntryView> {
        entries_view(self.pending@)
    }
}

impl Walker {
    /// A walk with nothing to reach.
    pub fn new() -> (walker: Walker)
        ensures
            walker@ == Seq::<EntryView>::empty(),
    {
        let walker = Walker { pending: VecDeque::new() };
        assert(walker@ =~= Seq::<EntryView>::empty());
        walker
    }

    /// A walk that is about to enumerate `root`.
    pub fn over(root: &str) -> (walker: Walker)
        ensures
            walker@ == seq![(EntryView { path: root@, is_dir: true })],
    {
        let mut pending: VecDeque<Entry> = VecDeque::new();
        pending.push_back(Entry { path: String::from_str(root), is_dir: true });
        let walker = Walker { pending };
        assert(walker@ =~= seq![(EntryView { path: root@, is_dir: true })]);
        walker
    }

    /// Tells whether nothing is left to reach.
    pub fn is_finished(&self) -> (finished: bool)
        ensures
            finished == (self@.len() == 0),
    {
        self.pending.len() == 0
    }

    /// Takes the enumeration of `directory`: its entries are reached
    /// next, in the order listed, before everything that was pending.
    pub fn supply(&mut self, directory: &str, listing: Vec<Listed>)
        ensures
            final(self)@ == entries_under(directory@, listing_view(listing@)) + old(self)@,
    {
        let mut listing = listing;
        let ghost all = listing_view(listing@);
        let ghost before = self@;
        while listing.len() > 0
            invariant
                listing@.len() <= all.len(),
                listing_view(listing@) == all.subrange(0, listing@.len() as int),
                self@ == entries_under(directory@, all).subrange(
                    listing@.len() as int,
                    all.len() as int,
                ) + before,
            decreases listing.len(),
        {
            let ghost n = listing@.len() as int;
            let ghost shorter = listing@.subrange(0, n - 1);
            let ghost held = self@;
            assert(listing_view(listing@)[n - 1] == all[n - 1]);
            let listed = listing.pop().unwrap();
            assert(listing@ =~= shorter);
            let path = child_path(directory, listed.name.as_str());
            let entry = Entry { path, is_dir: listed.is_dir };
            self.pending.push_front(entry);
            assert(listing_view(listing@) =~= all.subrange(0, n - 1));
            assert(self@ =~= seq![entry@] + held);
            assert(entry@ == entries_under(directory@, all)[n - 1]);
            assert(self@ =~= entries_under(directory@, all).subrange(n - 1, all.len() as int)
                + before);
        }
        assert(self@ =~= entries_under(directory@, all) + before);
    }

    /// Takes the next step of the walk.
    pub fn next(&mut self) -> (step: Step)
        ensures
            (final(self)@, step@) == next_step(old(self)@),
    {
        let ghost before = self@;
        match self.pending.pop_front() {
            None => {
                assert(self@ =~= before);
                Step::Finished
            },
            Some(entry) => {
                assert(self@ =~= before.drop_first());
                assert(entry@ == before[0]);
                if entry.is_dir {
                    Step::Enumerate(entry.path)
                } else {
                    Step::Visit(entry.path)
                }
            },
        }
    }
}

} // verus!
