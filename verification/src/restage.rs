//! What the rendering leaves in a staging directory, over a model of its
//! files as a set of paths: a successful substitution adds the rendered
//! file, and the removal that follows takes the template away.
use vstd::prelude::*;
use crate::paths::{is_template_path, rendered_path};
use crate::pipeline::{concerns, AwaitingView, DeploymentView, Purpose};
use crate::traversal::{answered, files_in, listing_of, total_size, Tree};
use crate::walk::ListedView;
use crate::walks::{of_concern, treated, walk_acts_on_files_of_concern};

verus! {

/// The files that are there once the given templates have been rendered
/// and removed, one after the other, starting from `files`.
pub open spec fn rendered_files(files: Set<Seq<char>>, templates: Seq<Seq<char>>) -> Set<Seq<char>>
    decreases templates.len(),
{
    if templates.len() == 0 {
        files
    } else {
        rendered_files(files, templates.drop_last()).insert(
            rendered_path(templates.last()),
        ).remove(templates.last())
    }
}

/// Whether rendering the file gives a file that is a template again.
pub open spec fn doubly_marked(file: Seq<char>) -> bool {
    is_template_path(file) && is_template_path(rendered_path(file))
}

/// The files of concern are the files that the purpose concerns, and no
/// others.
pub proof fn of_concern_selects(files: Seq<Seq<char>>, purpose: Purpose, file: Seq<char>)
    ensures
        of_concern(files, purpose).contains(file) <==> files.contains(file) && concerns(
            purpose,
            file,
        ),
    decreases files.len(),
{
    if files.len() > 0 {
        let tail = files.drop_first();
        let chosen = of_concern(files, purpose);
        of_concern_selects(tail, purpose, file);
        if chosen.contains(file) {
            let k = choose|k: int| 0 <= k < chosen.len() && chosen[k] == file;
            if concerns(purpose, files[0]) {
                if k > 0 {
                    assert(of_concern(tail, purpose)[k - 1] == file);
                    assert(of_concern(tail, purpose).contains(file));
                }
            } else {
                assert(of_concern(tail, purpose).contains(file));
            }
            if tail.contains(file) {
                let j = choose|j: int| 0 <= j < tail.len() && tail[j] == file;
                assert(files[j + 1] == file);
            } else {
                assert(files[0] == file);
            }
        }
        if files.contains(file) && concerns(purpose, file) {
            let j = choose|j: int| 0 <= j < files.len() && files[j] == file;
            if j == 0 {
                assert(chosen[0] == file);
            } else {
                assert(tail[j - 1] == file);
                assert(tail.contains(file));
                let k = choose|k: int|
                    0 <= k < of_concern(tail, purpose).len() && of_concern(tail, purpose)[k]
                        == file;
                if concerns(purpose, files[0]) {
                    assert(chosen[k + 1] == file);
                } else {
                    assert(chosen[k] == file);
                }
            }
        }
    }
}

/// After templates have been rendered and removed, a file is there
/// exactly when it is none of those templates and either was there
/// before or is what one of them was rendered to.
pub proof fn rendering_replaces_templates(
    files: Set<Seq<char>>,
    templates: Seq<Seq<char>>,
    file: Seq<char>,
)
    requires
        forall|i: int|
            0 <= i < templates.len() ==> is_template_path(#[trigger] templates[i])
                && !doubly_marked(templates[i]),
    ensures
        rendered_files(files, templates).contains(file) <==> !templates.contains(file) && (
        files.contains(file) || exists|i: int|
            0 <= i < templates.len() && file == rendered_path(#[trigger] templates[i])),
    decreases templates.len(),
{
    if templates.len() > 0 {
        let head = templates.drop_last();
        let last = templates.last();
        rendering_replaces_templates(files, head, file);
        assert(is_template_path(templates[templates.len() - 1]) && !doubly_marked(last));
        assert forall|i: int| 0 <= i < head.len() implies head[i] == templates[i] by {}
        if rendered_files(files, templates).contains(file) {
            if file == rendered_path(last) {
                assert(file == rendered_path(templates[templates.len() - 1]));
                if templates.contains(file) {
                    let k = choose|k: int| 0 <= k < templates.len() && templates[k] == file;
                    assert(is_template_path(templates[k]));
                }
            } else {
                assert(rendered_files(files, head).contains(file));
                if templates.contains(file) {
                    let k = choose|k: int| 0 <= k < templates.len() && templates[k] == file;
                    if k < head.len() {
                        assert(head[k] == file);
                        assert(head.contains(file));
                    }
                }
                if !files.contains(file) {
                    let i = choose|i: int|
                        0 <= i < head.len() && file == rendered_path(#[trigger] head[i]);
                    assert(file == rendered_path(templates[i]));
                }
            }
        }
        if !templates.contains(file) && (files.contains(file) || exists|i: int|
            0 <= i < templates.len() && file == rendered_path(#[trigger] templates[i])) {
            assert(file != last) by {
                assert(templates[templates.len() - 1] == last);
            }
            assert(!head.contains(file)) by {
                if head.contains(file) {
                    let k = choose|k: int| 0 <= k < head.len() && head[k] == file;
                    assert(templates[k] == file);
                }
            }
            if !files.contains(file) {
                let i = choose|i: int|
                    0 <= i < templates.len() && file == rendered_path(#[trigger] templates[i]);
                if i < head.len() {
                    assert(file == rendered_path(head[i]));
                }
            }
        }
    }
}

/// Restaging leaves rendered files only. When the render walk has gone
/// over the staged files with every tool succeeding, the staging
/// directory holds the staged files that are no templates and, for each
/// staged template, the file it was rendered to; no template is left.
/// This holds where no staged file carries the marker twice at its end:
/// such a file is rendered to a file that is a template again.
pub proof fn restage_leaves_rendered_files_only(
    s: DeploymentView,
    root: Seq<char>,
    trees: Seq<Tree>,
    answers: spec_fn(Seq<char>) -> Option<Seq<ListedView>>,
    fuel: nat,
    file: Seq<char>,
)
    requires
        s.awaiting == (AwaitingView::Listing { purpose: Purpose::Render, directory: root }),
        s.pending.len() == 0,
        answers(root) == Some(listing_of(trees)),
        forall|i: int| 0 <= i < trees.len() ==> answered(answers, root, #[trigger] trees[i]),
        fuel > 2 * total_size(trees) + 1,
        forall|i: int|
            0 <= i < files_in(root, trees).len() ==> !doubly_marked(
                #[trigger] files_in(root, trees)[i],
            ),
    ensures
        ({
            let staged = files_in(root, trees);
            let left = rendered_files(staged.to_set(), treated(s, Purpose::Render, answers, fuel));
            &&& left.contains(file) ==> !is_template_path(file)
            &&& left.contains(file) <==> (staged.contains(file) && !is_template_path(file)) || (
            exists|i: int|
                0 <= i < staged.len() && is_template_path(#[trigger] staged[i]) && file
                    == rendered_path(staged[i]))
        }),
{
    let staged = files_in(root, trees);
    let templates = of_concern(staged, Purpose::Render);
    walk_acts_on_files_of_concern(s, Purpose::Render, root, trees, answers, fuel);
    assert forall|i: int| 0 <= i < templates.len() implies is_template_path(
        #[trigger] templates[i],
    ) && !doubly_marked(templates[i]) by {
        assert(templates.contains(templates[i]));
        of_concern_selects(staged, Purpose::Render, templates[i]);
        let j = choose|j: int| 0 <= j < staged.len() && staged[j] == templates[i];
        assert(!doubly_marked(staged[j]));
    }
    rendering_replaces_templates(staged.to_set(), templates, file);
    of_concern_selects(staged, Purpose::Render, file);
    let left = rendered_files(staged.to_set(), templates);
    if left.contains(file) {
        if !staged.to_set().contains(file) {
            let i = choose|i: int|
                0 <= i < templates.len() && file == rendered_path(#[trigger] templates[i]);
            assert(templates.contains(templates[i]));
            of_concern_selects(staged, Purpose::Render, templates[i]);
            let j = choose|j: int| 0 <= j < staged.len() && staged[j] == templates[i];
            assert(is_template_path(staged[j]) && file == rendered_path(staged[j]));
            assert(!doubly_marked(staged[j]));
        }
    }
    if exists|i: int|
        0 <= i < staged.len() && is_template_path(#[trigger] staged[i]) && file == rendered_path(
            staged[i],
        ) {
        let i = choose|i: int|
            0 <= i < staged.len() && is_template_path(#[trigger] staged[i]) && file
                == rendered_path(staged[i]);
        assert(staged.contains(staged[i]));
        assert(!doubly_marked(staged[i]));
        of_concern_selects(staged, Purpose::Render, staged[i]);
        let k = choose|k: int| 0 <= k < templates.len() && templates[k] == staged[i];
        assert(file == rendered_path(templates[k]));
        if templates.contains(file) {
            let m = choose|m: int| 0 <= m < templates.len() && templates[m] == file;
            assert(is_template_path(templates[m]));
        }
    }
}

/// Rendering again changes nothing: with no template among the files
/// acted on, the files that are there stay as they are.
pub proof fn rendering_nothing_keeps_files(files: Set<Seq<char>>)
    ensures
        rendered_files(files, Seq::empty()) == files,
{
}

} // verus!
