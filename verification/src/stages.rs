//! What holds of every run of the pipeline: the order of its stages, and
//! what each stage can and cannot ask for.
use vstd::prelude::*;
use crate::command::removal_invocation;
use crate::error::DeployErrorView;
use crate::paths::{child, LayoutView};
use crate::pipeline::{
    concerns, failed, opening, step, walk_continued, walk_ended, ActionView, AwaitingView,
    DeploymentView, EventView, Purpose,
};
use crate::request::DeployRequestView;
use crate::walk::{entries_under, file_names, file_names_are_files, EntryView, ListedView};

verus! {

/// The place of a walk in the order of the stages.
pub open spec fn walk_stage(purpose: Purpose) -> nat {
    match purpose {
        Purpose::Stop => 3,
        Purpose::Render => 5,
        Purpose::Start => 7,
    }
}

/// The place in the order of the stages of the stage that awaits this:
/// clone, prepare, stop, copy, render, remove images, start, clean up,
/// and over.
pub open spec fn stage(awaiting: AwaitingView) -> nat {
    match awaiting {
        AwaitingView::Clone => 1,
        AwaitingView::Staging => 2,
        AwaitingView::Listing { purpose, directory } => walk_stage(purpose),
        AwaitingView::Stopping { file } => 3,
        AwaitingView::Starting { file } => 7,
        AwaitingView::Source => 4,
        AwaitingView::Copy { file } => 4,
        AwaitingView::Substitution { template } => 5,
        AwaitingView::Removal { template } => 5,
        AwaitingView::Eviction => 6,
        AwaitingView::Cleanup => 8,
        AwaitingView::Nothing => 9,
    }
}

/// Whether every entry is a file that the purpose does not concern.
pub open spec fn all_passed_over(entries: Seq<EntryView>, purpose: Purpose) -> bool {
    forall|i: int|
        0 <= i < entries.len() ==> !(#[trigger] entries[i]).is_dir && !concerns(
            purpose,
            entries[i].path,
        )
}

/// A walk that goes on stays in its stage or leaves it for a later one,
/// keeps the plan and the files to copy, and asks for the removal of
/// images only when it leaves the rendering with nothing pending.
pub proof fn walk_goes_forward(s: DeploymentView, purpose: Purpose)
    ensures
        stage(walk_continued(s, purpose).0.awaiting) >= walk_stage(purpose),
        walk_continued(s, purpose).0.plan == s.plan,
        walk_continued(s, purpose).0.copies == s.copies,
        stage(walk_continued(s, purpose).0.awaiting) > walk_stage(purpose) ==> walk_continued(
            s,
            purpose,
        ).0.pending.len() == 0,
        stage(walk_continued(s, purpose).0.awaiting) == 7 && purpose != Purpose::Start
            ==> s.plan.images is None,
        walk_continued(s, purpose).0.awaiting is Eviction ==> purpose == Purpose::Render
            && s.plan.images is Some && walk_continued(s, purpose).1 == ActionView::Run(
            removal_invocation(s.plan.images->0),
        ),
    decreases s.pending.len(),
{
    if s.pending.len() > 0 {
        let entry = s.pending[0];
        let rest = DeploymentView { pending: s.pending.drop_first(), ..s };
        if !entry.is_dir && !concerns(purpose, entry.path) {
            walk_goes_forward(rest, purpose);
        }
    }
}

/// What one step keeps of the order of the stages: the walks that it
/// may continue go forward, and the other transitions are single moves.
proof fn step_goes_forward(s: DeploymentView, event: EventView)
    ensures
        stage(step(s, event).0.awaiting) >= stage(s.awaiting),
        step(s, event).0.plan == s.plan,
        step(s, event).0.awaiting is Eviction ==> stage(s.awaiting) == 5 && s.plan.images is Some
            && step(s, event).1 == ActionView::Run(removal_invocation(s.plan.images->0)) && step(
            s,
            event,
        ).0.pending.len() == 0,
        s.plan.images is Some && stage(s.awaiting) != 7 && stage(step(s, event).0.awaiting) == 7
            ==> s.awaiting is Eviction && event is Succeeded,
{
    match s.awaiting {
        AwaitingView::Listing { purpose, directory } => {
            match event {
                EventView::Listing(listing) => {
                    walk_goes_forward(
                        DeploymentView {
                            pending: entries_under(directory, listing) + s.pending,
                            ..s
                        },
                        purpose,
                    );
                },
                _ => {
                    walk_goes_forward(s, purpose);
                },
            }
        },
        AwaitingView::Stopping { file } => {
            walk_goes_forward(s, Purpose::Stop);
        },
        AwaitingView::Starting { file } => {
            walk_goes_forward(s, Purpose::Start);
        },
        AwaitingView::Removal { template } => {
            walk_goes_forward(s, Purpose::Render);
        },
        _ => {},
    }
}

/// No stage is entered twice: whatever the event, the machine stays in
/// its stage or moves to a later one.
pub proof fn stages_only_advance(s: DeploymentView, event: EventView)
    ensures
        stage(step(s, event).0.awaiting) >= stage(s.awaiting),
{
    step_goes_forward(s, event);
}

/// The plan of a deployment never changes.
pub proof fn plan_is_fixed(s: DeploymentView, event: EventView)
    ensures
        step(s, event).0.plan == s.plan,
{
    step_goes_forward(s, event);
}

/// A deployment that is over stays over and asks for nothing more.
pub proof fn over_is_final(s: DeploymentView, event: EventView)
    requires
        s.awaiting is Nothing,
    ensures
        step(s, event) == (s, ActionView::Idle),
{
}

/// A request with the wrong token is refused at once and never causes
/// an action: the answer is the refusal, and whatever is reported
/// afterwards, the machine stays as it is and asks for nothing.
pub proof fn wrong_token_causes_no_action(
    request: DeployRequestView,
    secret: Seq<char>,
    layout: LayoutView,
    identity: Seq<char>,
    event: EventView,
)
    requires
        request.token != secret,
    ensures
        opening(request, secret, layout, identity).1 == ActionView::Fail(
            DeployErrorView::Unauthorized,
        ),
        step(opening(request, secret, layout, identity).0, event) == (
            opening(request, secret, layout, identity).0,
            ActionView::Idle,
        ),
{
}

/// A request with the right token is not refused: its repository is
/// cloned first.
pub proof fn right_token_is_admitted(
    request: DeployRequestView,
    secret: Seq<char>,
    layout: LayoutView,
    identity: Seq<char>,
)
    requires
        request.token == secret,
    ensures
        opening(request, secret, layout, identity).0.awaiting is Clone,
        opening(request, secret, layout, identity).1 is Run,
{
}

/// The removal of images is asked for at one point only: when the
/// rendering has reached everything. It is then asked for with exactly
/// the listed images.
pub proof fn eviction_follows_rendering(s: DeploymentView, event: EventView)
    requires
        step(s, event).0.awaiting is Eviction,
    ensures
        stage(s.awaiting) == 5,
        s.plan.images is Some,
        step(s, event).1 == ActionView::Run(removal_invocation(s.plan.images->0)),
        step(s, event).0.pending.len() == 0,
{
    step_goes_forward(s, event);
}

/// Where images are listed, the start is entered only on the success of
/// their removal: nothing is brought up before the images are gone, and
/// nothing at all if their removal fails.
pub proof fn start_follows_eviction(s: DeploymentView, event: EventView)
    requires
        s.plan.images is Some,
        stage(s.awaiting) != 7,
        stage(step(s, event).0.awaiting) == 7,
    ensures
        s.awaiting is Eviction,
        event is Succeeded,
{
    step_goes_forward(s, event);
}

/// A bring-down or a bring-up that does not succeed ends the deployment
/// with an error that names the compose descriptor; after a failed
/// bring-up no success is ever confirmed.
pub proof fn failed_tool_ends_deployment(s: DeploymentView, file: Seq<char>, event: EventView)
    requires
        !(event is Succeeded),
    ensures
        s.awaiting == (AwaitingView::Stopping { file }) ==> step(s, event) == failed(
            s,
            DeployErrorView::Stop { file },
        ),
        s.awaiting == (AwaitingView::Starting { file }) ==> step(s, event) == failed(
            s,
            DeployErrorView::Start { file },
        ),
{
}

/// A walk that meets nothing of concern acts on nothing: it ends as a
/// walk with nothing pending does.
pub proof fn idle_walk_ends(s: DeploymentView, purpose: Purpose)
    requires
        all_passed_over(s.pending, purpose),
    ensures
        walk_continued(s, purpose) == walk_ended(
            DeploymentView { pending: Seq::empty(), ..s },
            purpose,
        ),
    decreases s.pending.len(),
{
    if s.pending.len() == 0 {
        assert(s.pending =~= Seq::<EntryView>::empty());
    } else {
        let rest = DeploymentView { pending: s.pending.drop_first(), ..s };
        assert(!s.pending[0].is_dir && !concerns(purpose, s.pending[0].path));
        assert forall|i: int| 0 <= i < rest.pending.len() implies !(#[trigger] rest.pending[i]).is_dir
            && !concerns(purpose, rest.pending[i].path) by {
            assert(rest.pending[i] == s.pending[i + 1]);
        }
        idle_walk_ends(rest, purpose);
    }
}

/// Stopping what runs from a staging directory that does not exist, or
/// that is empty, brings nothing down: the very next thing asked for is
/// the enumeration of the configuration to stage.
pub proof fn absent_staging_stops_nothing(s: DeploymentView, event: EventView)
    requires
        s.awaiting == (AwaitingView::Listing { purpose: Purpose::Stop, directory: s.plan.staging }),
        s.pending.len() == 0,
        event is Missing || (event is Listing && event->Listing_0.len() == 0),
    ensures
        step(s, event).1 == ActionView::List(s.plan.source),
        step(s, event).0 == (DeploymentView { awaiting: AwaitingView::Source, ..s }),
{
    match event {
        EventView::Listing(listing) => {
            assert(entries_under(s.plan.staging, listing) + s.pending =~= s.pending);
        },
        _ => {},
    }
}

/// Staging is flat. While the configuration is copied, the only files
/// asked for are entries of the source directory itself, each copied to
/// the staging directory under its own name; no directory below the
/// source is ever enumerated, so nothing nested in it is reached.
pub proof fn staging_is_flat(s: DeploymentView, event: EventView)
    requires
        s.awaiting is Source || s.awaiting is Copy,
    ensures
        match step(s, event).1 {
            ActionView::Copy { from, to } => exists|name: Seq<char>|
                #![trigger child(s.plan.source, name)]
                from == child(s.plan.source, name) && to == child(s.plan.staging, name) && (
                if s.awaiting is Source {
                    event is Listing && file_names(event->Listing_0).contains(name)
                } else {
                    s.copies.contains(name)
                }),
            ActionView::List(directory) => directory == s.plan.staging,
            ActionView::Fail(error) => error is Copy,
            _ => false,
        },
{
    let queue = if s.awaiting is Source && event is Listing {
        file_names(event->Listing_0)
    } else {
        s.copies
    };
    match step(s, event).1 {
        ActionView::Copy { from, to } => {
            assert(queue.len() > 0);
            assert(queue.contains(queue[0]));
            assert(from == child(s.plan.source, queue[0]));
        },
        _ => {},
    }
}

/// A directory listed in the source is never copied: what is copied
/// when the listing arrives is an entry of it that is no directory, and
/// so is everything queued to be copied after it.
pub proof fn listed_directory_is_not_copied(s: DeploymentView, listing: Seq<ListedView>)
    requires
        s.awaiting is Source,
    ensures
        match step(s, EventView::Listing(listing)).1 {
            ActionView::Copy { from, to } => exists|i: int|
                0 <= i < listing.len() && !(#[trigger] listing[i]).is_dir && from == child(
                    s.plan.source,
                    listing[i].name,
                ) && to == child(s.plan.staging, listing[i].name),
            ActionView::List(directory) => directory == s.plan.staging && file_names(listing).len()
                == 0,
            _ => false,
        },
        forall|k: int|
            0 <= k < step(s, EventView::Listing(listing)).0.copies.len() ==> exists|i: int|
                0 <= i < listing.len() && !(#[trigger] listing[i]).is_dir && listing[i].name
                    == #[trigger] step(s, EventView::Listing(listing)).0.copies[k],
{
    let queue = file_names(listing);
    let after = step(s, EventView::Listing(listing)).0;
    if queue.len() > 0 {
        assert(queue.contains(queue[0]));
        file_names_are_files(listing, queue[0]);
        assert(after.copies == queue.drop_first());
    }
    assert forall|k: int| 0 <= k < after.copies.len() implies exists|i: int|
        0 <= i < listing.len() && !(#[trigger] listing[i]).is_dir && listing[i].name
            == #[trigger] after.copies[k] by {
        assert(after.copies[k] == queue[k + 1]);
        assert(queue.contains(queue[k + 1]));
        file_names_are_files(listing, queue[k + 1]);
    }
}

/// A listing of directories only has nothing copied: the rendering
/// begins at once.
pub proof fn directories_alone_copy_nothing(s: DeploymentView, listing: Seq<ListedView>)
    requires
        s.awaiting is Source,
        forall|i: int| 0 <= i < listing.len() ==> (#[trigger] listing[i]).is_dir,
    ensures
        step(s, EventView::Listing(listing)).1 == ActionView::List(s.plan.staging),
        step(s, EventView::Listing(listing)).0.copies.len() == 0,
{
    if file_names(listing).len() > 0 {
        assert(file_names(listing).contains(file_names(listing)[0]));
        file_names_are_files(listing, file_names(listing)[0]);
    }
}

/// The files of a listing are copied in the order listed: the first is
/// asked for when the listing arrives, and the others are queued behind
/// it.
pub proof fn copies_follow_listing(s: DeploymentView, listing: Seq<ListedView>)
    requires
        s.awaiting is Source,
        file_names(listing).len() > 0,
    ensures
        step(s, EventView::Listing(listing)).1 == (ActionView::Copy {
            from: child(s.plan.source, file_names(listing)[0]),
            to: child(s.plan.staging, file_names(listing)[0]),
        }),
        step(s, EventView::Listing(listing)).0.copies == file_names(listing).drop_first(),
        step(s, EventView::Listing(listing)).0.awaiting == (AwaitingView::Copy {
            file: child(s.plan.source, file_names(listing)[0]),
        }),
{
}

/// A template that was rendered is removed before the walk goes on; a
/// failed rendering ends the deployment with the template's name.
pub proof fn rendered_template_is_removed(s: DeploymentView, template: Seq<char>, event: EventView)
    requires
        s.awaiting == (AwaitingView::Substitution { template }),
    ensures
        event is Succeeded ==> step(s, event) == (
            DeploymentView { awaiting: AwaitingView::Removal { template }, ..s },
            ActionView::RemoveFile(template),
        ),
        !(event is Succeeded) ==> step(s, event) == failed(
            s,
            DeployErrorView::Substitution { file: template },
        ),
{
}

/// A rendered template that cannot be removed ends the deployment with
/// an error that says so and names the template; both files are then
/// left in place.
pub proof fn failed_removal_ends_deployment(s: DeploymentView, template: Seq<char>, event: EventView)
    requires
        s.awaiting == (AwaitingView::Removal { template }),
        !(event is Succeeded),
    ensures
        step(s, event) == failed(s, DeployErrorView::Removal { file: template }),
{
}

} // verus!
