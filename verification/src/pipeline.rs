//! The deployment pipeline as a state machine. The machine decides; the
//! caller carries out each [`Action`] and reports what came of it as an
//! [`Event`], until the machine answers with success or failure.
//!
//! The stages follow one another in a fixed order and none is entered
//! twice: clone, prepare the staging directory, stop what runs from it,
//! copy the fresh configuration in, render the templates, remove the
//! listed images, start what the staging directory now describes, and
//! remove the checkout. A failure ends the deployment where it stands;
//! nothing is retried and nothing is undone.
use vstd::prelude::*;
use vstd::string::*;
use std::collections::VecDeque;
use crate::command::{
    clone_command, clone_invocation, compose_down, compose_up, down_invocation, image_removal,
    removal_invocation, substitution_line, substitution_script, up_invocation, Invocation,
    InvocationView,
};
use crate::error::{DeployError, DeployErrorView};
use crate::identity::{get_project_name, project_identity};
use crate::paths::{
    checkout_path, child, child_path, config_root, config_source, is_compose_descriptor,
    is_compose_path, is_template_path, render_target, rendered_path, staging_path, Layout,
    LayoutView,
};
use crate::request::{DeployRequest, DeployRequestView};
use crate::text::{clone_texts, join2, optional_texts, texts};
use crate::walk::{
    entries_under, file_names, listing_view, EntryView, Listed, ListedView, Step, Walker,
};

verus! {

/// What a walk over the staging directory is for.
#[derive(Clone, Copy, PartialEq, Eq, Structural)]
pub enum Purpose {
    /// Bring down every compose descriptor.
    Stop,
    /// Render every template.
    Render,
    /// Bring up every compose descriptor.
    Start,
}

/// What one deployment works on, fixed when it begins.
pub struct Plan {
    /// The project's identity.
    pub identity: String,
    /// The directory the repository is cloned to.
    pub checkout: String,
    /// The directory that holds the project's configuration.
    pub staging: String,
    /// The directory of the checkout whose files are staged.
    pub source: String,
    /// The repository to clone.
    pub giturl: String,
    /// The images to remove before the start, if any were listed.
    pub images: Option<Vec<String>>,
}

/// The mathematical content of a [`Plan`].
pub ghost struct PlanView {
    pub identity: Seq<char>,
    pub checkout: Seq<char>,
    pub staging: Seq<char>,
    pub source: Seq<char>,
    pub giturl: Seq<char>,
    pub images: Option<Seq<Seq<char>>>,
}

impl View for Plan {
    type V = PlanView;

    open spec fn view(&self) -> PlanView {
        PlanView {
            identity: self.identity@,
            checkout: self.checkout@,
            staging: self.staging@,
            source: self.source@,
            giturl: self.giturl@,
            images: optional_texts(self.images),
        }
    }
}

/// The action whose outcome the machine waits for.
pub enum Awaiting {
    /// The clone of the repository.
    Clone,
    /// The creation of the staging directory.
    Staging,
    /// The enumeration of a directory during a walk.
    Listing { purpose: Purpose, directory: String },
    /// The bring-down of a compose descriptor.
    Stopping { file: String },
    /// The bring-up of a compose descriptor.
    Starting { file: String },
    /// The rendering of a template.
    Substitution { template: String },
    /// The removal of a rendered template.
    Removal { template: String },
    /// The enumeration of the configuration to stage.
    Source,
    /// The copy of a file into the staging directory.
    Copy { file: String },
    /// The removal of the listed images.
    Eviction,
    /// The removal of the checkout.
    Cleanup,
    /// Nothing: the deployment is over.
    Nothing,
}

/// The mathematical content of an [`Awaiting`].
pub ghost enum AwaitingView {
    Clone,
    Staging,
    Listing { purpose: Purpose, directory: Seq<char> },
    Stopping { file: Seq<char> },
    Starting { file: Seq<char> },
    Substitution { template: Seq<char> },
    Removal { template: Seq<char> },
    Source,
    Copy { file: Seq<char> },
    Eviction,
    Cleanup,
    Nothing,
}

impl View for Awaiting {
    type V = AwaitingView;

    open spec fn view(&self) -> AwaitingView {
        match *self {
            Awaiting::Clone => AwaitingView::Clone,
            Awaiting::Staging => AwaitingView::Staging,
            Awaiting::Listing { purpose, directory } => AwaitingView::Listing {
                purpose,
                directory: directory@,
            },
            Awaiting::Stopping { file } => AwaitingView::Stopping { file: file@ },
            Awaiting::Starting { file } => AwaitingView::Starting { file: file@ },
            Awaiting::Substitution { template } => AwaitingView::Substitution {
                template: template@,
            },
            Awaiting::Removal { template } => AwaitingView::Removal { template: template@ },
            Awaiting::Source => AwaitingView::Source,
            Awaiting::Copy { file } => AwaitingView::Copy { file: file@ },
            Awaiting::Eviction => AwaitingView::Eviction,
            Awaiting::Cleanup => AwaitingView::Cleanup,
            Awaiting::Nothing => AwaitingView::Nothing,
        }
    }
}

/// What the caller is to do next.
pub enum Action {
    /// Run a program to its end.
    Run(Invocation),
    /// Run a line of shell script to its end.
    Shell(String),
    /// Create a directory and its missing parents.
    CreateDirectory(String),
    /// Enumerate a directory.
    List(String),
    /// Copy a file.
    Copy { from: String, to: String },
    /// Remove a file.
    RemoveFile(String),
    /// Remove a directory and all it holds.
    RemoveTree(String),
    /// Answer the request with this confirmation.
    Succeed(String),
    /// Answer the request with this error.
    Fail(DeployError),
    /// Nothing: the deployment is over.
    Idle,
}

/// The mathematical content of an [`Action`].
pub ghost enum ActionView {
    Run(InvocationView),
    Shell(Seq<char>),
    CreateDirectory(Seq<char>),
    List(Seq<char>),
    Copy { from: Seq<char>, to: Seq<char> },
    RemoveFile(Seq<char>),
    RemoveTree(Seq<char>),
    Succeed(Seq<char>),
    Fail(DeployErrorView),
    Idle,
}

impl View for Action {
    type V = ActionView;

    open spec fn view(&self) -> ActionView {
        match *self {
            Action::Run(invocation) => ActionView::Run(invocation@),
            Action::Shell(line) => ActionView::Shell(line@),
            Action::CreateDirectory(directory) => ActionView::CreateDirectory(directory@),
            Action::List(directory) => ActionView::List(directory@),
            Action::Copy { from, to } => ActionView::Copy { from: from@, to: to@ },
            Action::RemoveFile(file) => ActionView::RemoveFile(file@),
            Action::RemoveTree(directory) => ActionView::RemoveTree(directory@),
            Action::Succeed(confirmation) => ActionView::Succeed(confirmation@),
            Action::Fail(error) => ActionView::Fail(error@),
            Action::Idle => ActionView::Idle,
        }
    }
}

/// What came of the last action.
pub enum Event {
    /// It was done. For a program or a script: it ran and exited with
    /// status zero.
    Succeeded,
    /// It could not be done. For a program or a script: it could not be
    /// started, or it exited with another status.
    Failed,
    /// The path to enumerate is no directory.
    Missing,
    /// The enumerated directory holds these entries.
    Listing(Vec<Listed>),
}

/// The mathematical content of an [`Event`].
pub ghost enum EventView {
    Succeeded,
    Failed,
    Missing,
    Listing(Seq<ListedView>),
}

impl View for Event {
    type V = EventView;

    open spec fn view(&self) -> EventView {
        match *self {
            Event::Succeeded => EventView::Succeeded,
            Event::Failed => EventView::Failed,
            Event::Missing => EventView::Missing,
            Event::Listing(listing) => EventView::Listing(listing_view(listing@)),
        }
    }
}

/// One deployment in progress.
pub struct Deployment {
    /// What the deployment works on.
    pub plan: Plan,
    /// The action whose outcome is awaited.
    pub awaiting: Awaiting,
    /// The walk over the staging directory that is under way.
    pub walker: Walker,
    /// The names of the files that are still to be copied, the next one
    /// first.
    pub copies: VecDeque<String>,
}

/// The mathematical content of a [`Deployment`].
pub ghost struct DeploymentView {
    pub plan: PlanView,
    pub awaiting: AwaitingView,
    pub pending: Seq<EntryView>,
    pub copies: Seq<Seq<char>>,
}

impl View for Deployment {
    type V = DeploymentView;

    open spec fn view(&self) -> DeploymentView {
        DeploymentView {
            plan: self.plan@,
            awaiting: self.awaiting@,
            pending: self.walker@,
            copies: texts(self.copies@),
        }
    }
}

/// The plan for a request whose project has the given identity.
pub open spec fn plan_for(request: DeployRequestView, layout: LayoutView, identity: Seq<char>) -> PlanView {
    PlanView {
        identity,
        checkout: checkout_path(layout, identity),
        staging: staging_path(layout, identity),
        source: config_source(checkout_path(layout, identity), request.downdir),
        giturl: request.giturl,
        images: request.invalidate_images,
    }
}

/// How a deployment begins: a request whose token is not the secret is
/// refused and nothing else happens; any other is planned and its
/// repository cloned.
pub open spec fn opening(
    request: DeployRequestView,
    secret: Seq<char>,
    layout: LayoutView,
    identity: Seq<char>,
) -> (DeploymentView, ActionView) {
    let plan = plan_for(request, layout, identity);
    if request.token == secret {
        (
            DeploymentView {
                plan,
                awaiting: AwaitingView::Clone,
                pending: Seq::empty(),
                copies: Seq::empty(),
            },
            ActionView::Run(clone_invocation(plan.giturl, plan.checkout)),
        )
    } else {
        (
            DeploymentView {
                plan,
                awaiting: AwaitingView::Nothing,
                pending: Seq::empty(),
                copies: Seq::empty(),
            },
            ActionView::Fail(DeployErrorView::Unauthorized),
        )
    }
}

/// The sentence that confirms a deployment.
pub open spec fn confirmation(identity: Seq<char>) -> Seq<char> {
    "Successfully started deployed project: "@ + identity
}

/// The deployment ends with an error.
pub open spec fn failed(s: DeploymentView, error: DeployErrorView) -> (DeploymentView, ActionView) {
    (DeploymentView { awaiting: AwaitingView::Nothing, ..s }, ActionView::Fail(error))
}

/// A walk over the staging directory begins with its enumeration.
pub open spec fn walk_begun(s: DeploymentView, purpose: Purpose) -> (DeploymentView, ActionView) {
    (
        DeploymentView {
            awaiting: AwaitingView::Listing { purpose, directory: s.plan.staging },
            ..s
        },
        ActionView::List(s.plan.staging),
    )
}

/// What follows a walk that has reached everything: after the stop, the
/// configuration to stage is enumerated; after the rendering, the listed
/// images are removed, or, where none were listed, the start begins at
/// once; after the start, the checkout is removed.
pub open spec fn walk_ended(s: DeploymentView, purpose: Purpose) -> (DeploymentView, ActionView) {
    match purpose {
        Purpose::Stop => (
            DeploymentView { awaiting: AwaitingView::Source, ..s },
            ActionView::List(s.plan.source),
        ),
        Purpose::Render => match s.plan.images {
            Some(images) => (
                DeploymentView { awaiting: AwaitingView::Eviction, ..s },
                ActionView::Run(removal_invocation(images)),
            ),
            None => walk_begun(s, Purpose::Start),
        },
        Purpose::Start => (
            DeploymentView { awaiting: AwaitingView::Cleanup, ..s },
            ActionView::RemoveTree(s.plan.checkout),
        ),
    }
}

/// Whether a walk with this purpose acts on the file.
pub open spec fn concerns(purpose: Purpose, file: Seq<char>) -> bool {
    match purpose {
        Purpose::Stop => is_compose_path(file),
        Purpose::Render => is_template_path(file),
        Purpose::Start => is_compose_path(file),
    }
}

/// What a walk with this purpose does to a file that it acts on, and
/// the outcome that is then awaited.
pub open spec fn treatment(purpose: Purpose, file: Seq<char>) -> (AwaitingView, ActionView) {
    match purpose {
        Purpose::Stop => (
            AwaitingView::Stopping { file },
            ActionView::Run(down_invocation(file)),
        ),
        Purpose::Render => (
            AwaitingView::Substitution { template: file },
            ActionView::Shell(substitution_line(file, rendered_path(file))),
        ),
        Purpose::Start => (AwaitingView::Starting { file }, ActionView::Run(up_invocation(file))),
    }
}

/// The walk goes on: files that the purpose does not concern are passed
/// over; the first pending entry that is a directory is enumerated, the
/// first that is a file of concern is acted on; with nothing pending the
/// walk has ended.
pub open spec fn walk_continued(s: DeploymentView, purpose: Purpose) -> (DeploymentView, ActionView)
    decreases s.pending.len(),
{
    if s.pending.len() == 0 {
        walk_ended(s, purpose)
    } else {
        let entry = s.pending[0];
        let rest = DeploymentView { pending: s.pending.drop_first(), ..s };
        if entry.is_dir {
            (
                DeploymentView {
                    awaiting: AwaitingView::Listing { purpose, directory: entry.path },
                    ..rest
                },
                ActionView::List(entry.path),
            )
        } else if concerns(purpose, entry.path) {
            (
                DeploymentView { awaiting: treatment(purpose, entry.path).0, ..rest },
                treatment(purpose, entry.path).1,
            )
        } else {
            walk_continued(rest, purpose)
        }
    }
}

/// The copying goes on: the next file is copied from the source to the
/// staging directory under its own name; with none left the rendering
/// begins.
pub open spec fn copy_continued(s: DeploymentView) -> (DeploymentView, ActionView) {
    if s.copies.len() == 0 {
        walk_begun(s, Purpose::Render)
    } else {
        let from = child(s.plan.source, s.copies[0]);
        (
            DeploymentView {
                awaiting: AwaitingView::Copy { file: from },
                copies: s.copies.drop_first(),
                ..s
            },
            ActionView::Copy { from, to: child(s.plan.staging, s.copies[0]) },
        )
    }
}

/// The transition of the machine: the state and the action that follow
/// when `event` answers what state `s` awaits.
///
/// A path that is no directory ends the enumeration of it quietly
/// during a walk. Of the configuration to stage, only the files listed
/// directly in its directory are copied; a directory listed there is
/// passed over. Every other outcome but success ends the deployment
/// with the error of its stage, which names what was being worked on.
pub open spec fn step(s: DeploymentView, event: EventView) -> (DeploymentView, ActionView) {
    let done = event is Succeeded;
    match s.awaiting {
        AwaitingView::Clone => if done {
            (
                DeploymentView { awaiting: AwaitingView::Staging, ..s },
                ActionView::CreateDirectory(s.plan.staging),
            )
        } else {
            failed(s, DeployErrorView::Clone { giturl: s.plan.giturl })
        },
        AwaitingView::Staging => if done {
            walk_begun(s, Purpose::Stop)
        } else {
            failed(s, DeployErrorView::Copy { file: s.plan.staging })
        },
        AwaitingView::Listing { purpose, directory } => match event {
            EventView::Listing(listing) => walk_continued(
                DeploymentView { pending: entries_under(directory, listing) + s.pending, ..s },
                purpose,
            ),
            EventView::Missing => walk_continued(s, purpose),
            _ => failed(s, DeployErrorView::Traversal { directory }),
        },
        AwaitingView::Stopping { file } => if done {
            walk_continued(s, Purpose::Stop)
        } else {
            failed(s, DeployErrorView::Stop { file })
        },
        AwaitingView::Starting { file } => if done {
            walk_continued(s, Purpose::Start)
        } else {
            failed(s, DeployErrorView::Start { file })
        },
        AwaitingView::Substitution { template } => if done {
            (
                DeploymentView { awaiting: AwaitingView::Removal { template }, ..s },
                ActionView::RemoveFile(template),
            )
        } else {
            failed(s, DeployErrorView::Substitution { file: template })
        },
        AwaitingView::Removal { template } => if done {
            walk_continued(s, Purpose::Render)
        } else {
            failed(s, DeployErrorView::Removal { file: template })
        },
        AwaitingView::Source => match event {
            EventView::Listing(listing) => copy_continued(
                DeploymentView { copies: file_names(listing), ..s },
            ),
            _ => failed(s, DeployErrorView::Copy { file: s.plan.source }),
        },
        AwaitingView::Copy { file } => if done {
            copy_continued(s)
        } else {
            failed(s, DeployErrorView::Copy { file })
        },
        AwaitingView::Eviction => if done {
            walk_begun(s, Purpose::Start)
        } else {
            failed(
                s,
                DeployErrorView::ImageInvalidation {
                    images: match s.plan.images {
                        Some(images) => images,
                        None => Seq::empty(),
                    },
                },
            )
        },
        AwaitingView::Cleanup => if done {
            (
                DeploymentView { awaiting: AwaitingView::Nothing, ..s },
                ActionView::Succeed(confirmation(s.plan.identity)),
            )
        } else {
            failed(s, DeployErrorView::Cleanup { directory: s.plan.checkout })
        },
        AwaitingView::Nothing => (s, ActionView::Idle),
    }
}

/// Copies an optional list of strings.
fn clone_optional_texts(list: &Option<Vec<String>>) -> (copy: Option<Vec<String>>)
    ensures
        optional_texts(copy) == optional_texts(*list),
{
    match list {
        Some(items) => Some(clone_texts(items)),
        None => None,
    }
}

impl Deployment {
    /// Begins the deployment of a request whose project has the given
    /// identity. `secret` is the configured token.
    pub fn begin_as(request: &DeployRequest, secret: &str, layout: &Layout, identity: String) -> (opened: (
        Deployment,
        Action,
    ))
        ensures
            (opened.0@, opened.1@) == opening(request@, secret@, layout@, identity@),
    {
        let checkout = layout.checkout_dir(identity.as_str());
        let staging = layout.staging_dir(identity.as_str());
        let source = config_root(checkout.as_str(), &request.downdir);
        let plan = Plan {
            identity,
            checkout,
            staging,
            source,
            giturl: request.giturl.clone(),
            images: clone_optional_texts(&request.invalidate_images),
        };
        let walker = Walker::new();
        let copies: VecDeque<String> = VecDeque::new();
        assert(texts(copies@) =~= Seq::<Seq<char>>::empty());
        let expected = String::from_str(secret);
        if request.token == expected {
            let action = Action::Run(clone_command(plan.giturl.as_str(), plan.checkout.as_str()));
            (Deployment { plan, awaiting: Awaiting::Clone, walker, copies }, action)
        } else {
            (
                Deployment { plan, awaiting: Awaiting::Nothing, walker, copies },
                Action::Fail(DeployError::Unauthorized),
            )
        }
    }

    /// Begins the deployment of a request: derives the project's
    /// identity and goes on as [`Deployment::begin_as`] does with it.
    pub fn begin(request: &DeployRequest, secret: &str, layout: &Layout) -> (opened: (
        Deployment,
        Action,
    ))
        ensures
            (opened.0@, opened.1@) == opening(
                request@,
                secret@,
                layout@,
                project_identity(request@.name, request@.giturl, request@.downdir),
            ),
    {
        let identity = get_project_name(request);
        Deployment::begin_as(request, secret, layout, identity)
    }

    /// Tells whether the deployment is over.
    pub fn is_over(&self) -> (over: bool)
        ensures
            over == (self@.awaiting is Nothing),
    {
        match self.awaiting {
            Awaiting::Nothing => true,
            _ => false,
        }
    }

    /// Ends the deployment with an error.
    fn fail(&mut self, error: DeployError) -> (action: Action)
        ensures
            (final(self)@, action@) == failed(old(self)@, error@),
    {
        self.awaiting = Awaiting::Nothing;
        Action::Fail(error)
    }

    /// Begins a walk over the staging directory.
    fn begin_walk(&mut self, purpose: Purpose) -> (action: Action)
        ensures
            (final(self)@, action@) == walk_begun(old(self)@, purpose),
    {
        let directory = self.plan.staging.clone();
        let action = Action::List(self.plan.staging.clone());
        self.awaiting = Awaiting::Listing { purpose, directory };
        action
    }

    /// Goes on after a walk that has reached everything.
    fn end_walk(&mut self, purpose: Purpose) -> (action: Action)
        ensures
            (final(self)@, action@) == walk_ended(old(self)@, purpose),
    {
        match purpose {
            Purpose::Stop => {
                self.awaiting = Awaiting::Source;
                Action::List(self.plan.source.clone())
            },
            Purpose::Render => {
                if self.plan.images.is_some() {
                    let action = Action::Run(image_removal(self.plan.images.as_ref().unwrap()));
                    self.awaiting = Awaiting::Eviction;
                    action
                } else {
                    self.begin_walk(Purpose::Start)
                }
            },
            Purpose::Start => {
                self.awaiting = Awaiting::Cleanup;
                Action::RemoveTree(self.plan.checkout.clone())
            },
        }
    }

    /// Acts on a file if the purpose concerns it.
    fn treat(&mut self, purpose: Purpose, file: String) -> (action: Option<Action>)
        ensures
            final(self)@.plan == old(self)@.plan,
            final(self)@.pending == old(self)@.pending,
            final(self)@.copies == old(self)@.copies,
            concerns(purpose, file@) ==> action.is_some() && (final(self)@.awaiting, action.unwrap()@)
                == treatment(purpose, file@),
            !concerns(purpose, file@) ==> action.is_none() && final(self)@ == old(self)@,
    {
        match purpose {
            Purpose::Stop => {
                if is_compose_descriptor(file.as_str()) {
                    let command = compose_down(file.as_str());
                    self.awaiting = Awaiting::Stopping { file };
                    Some(Action::Run(command))
                } else {
                    None
                }
            },
            Purpose::Render => {
                match render_target(file.as_str()) {
                    Some(target) => {
                        let line = substitution_script(file.as_str(), target.as_str());
                        self.awaiting = Awaiting::Substitution { template: file };
                        Some(Action::Shell(line))
                    },
                    None => None,
                }
            },
            Purpose::Start => {
                if is_compose_descriptor(file.as_str()) {
                    let command = compose_up(file.as_str());
                    self.awaiting = Awaiting::Starting { file };
                    Some(Action::Run(command))
                } else {
                    None
                }
            },
        }
    }

    /// Goes on with the walk that is under way.
    fn continue_walk(&mut self, purpose: Purpose) -> (action: Action)
        ensures
            (final(self)@, action@) == walk_continued(old(self)@, purpose),
    {
        loop
            invariant
                walk_continued(self@, purpose) == walk_continued(old(self)@, purpose),
            decreases self@.pending.len(),
        {
            let ghost before = self@;
            match self.walker.next() {
                Step::Finished => {
                    assert(self@ == before);
                    return self.end_walk(purpose);
                },
                Step::Enumerate(directory) => {
                    let action = Action::List(directory.clone());
                    self.awaiting = Awaiting::Listing { purpose, directory };
                    return action;
                },
                Step::Visit(file) => {
                    let ghost rest = self@;
                    assert(rest == (DeploymentView { pending: before.pending.drop_first(), ..before }));
                    match self.treat(purpose, file) {
                        Some(action) => {
                            return action;
                        },
                        None => {},
                    }
                },
            }
        }
    }

    /// Goes on with the copying.
    fn continue_copy(&mut self) -> (action: Action)
        ensures
            (final(self)@, action@) == copy_continued(old(self)@),
    {
        let ghost before = self@;
        match self.copies.pop_front() {
            None => {
                assert(texts(self.copies@) =~= before.copies);
                self.begin_walk(Purpose::Render)
            },
            Some(name) => {
                assert(texts(self.copies@) =~= before.copies.drop_first());
                assert(name@ == before.copies[0]);
                let from = child_path(self.plan.source.as_str(), name.as_str());
                let to = child_path(self.plan.staging.as_str(), name.as_str());
                self.awaiting = Awaiting::Copy { file: from.clone() };
                Action::Copy { from, to }
            },
        }
    }

    /// Replaces the names to copy by those of the files of a listing.
    fn enqueue(&mut self, listing: Vec<Listed>)
        ensures
            final(self)@ == (DeploymentView {
                copies: file_names(listing_view(listing@)),
                ..old(self)@
            }),
    {
        let mut copies: VecDeque<String> = VecDeque::new();
        let ghost all = listing_view(listing@);
        let mut i: usize = 0;
        assert(texts(copies@) =~= file_names(all.subrange(0, 0)));
        while i < listing.len()
            invariant
                i <= listing.len(),
                all == listing_view(listing@),
                texts(copies@) == file_names(all.subrange(0, i as int)),
            decreases listing.len() - i,
        {
            let ghost before = texts(copies@);
            let ghost head = all.subrange(0, i + 1);
            assert(head.drop_last() =~= all.subrange(0, i as int));
            assert(head.last() == listing@[i as int]@);
            if !listing[i].is_dir {
                copies.push_back(listing[i].name.clone());
                assert(texts(copies@) =~= before.push(listing@[i as int].name@));
            }
            i = i + 1;
        }
        assert(all.subrange(0, i as int) =~= all);
        self.copies = copies;
    }

    /// Takes the outcome of the last action and says what to do next.
    pub fn advance(&mut self, event: Event) -> (action: Action)
        ensures
            (final(self)@, action@) == step(old(self)@, event@),
    {
        let done = match event {
            Event::Succeeded => true,
            _ => false,
        };
        let awaiting = copy_awaiting(&self.awaiting);
        match awaiting {
            Awaiting::Clone => {
                if done {
                    self.awaiting = Awaiting::Staging;
                    Action::CreateDirectory(self.plan.staging.clone())
                } else {
                    let error = DeployError::Clone { giturl: self.plan.giturl.clone() };
                    self.fail(error)
                }
            },
            Awaiting::Staging => {
                if done {
                    self.begin_walk(Purpose::Stop)
                } else {
                    let error = DeployError::Copy { file: self.plan.staging.clone() };
                    self.fail(error)
                }
            },
            Awaiting::Listing { purpose, directory } => {
                match event {
                    Event::Listing(listing) => {
                        self.walker.supply(directory.as_str(), listing);
                        self.continue_walk(purpose)
                    },
                    Event::Missing => self.continue_walk(purpose),
                    _ => self.fail(DeployError::Traversal { directory }),
                }
            },
            Awaiting::Stopping { file } => {
                if done {
                    self.continue_walk(Purpose::Stop)
                } else {
                    self.fail(DeployError::Stop { file })
                }
            },
            Awaiting::Starting { file } => {
                if done {
                    self.continue_walk(Purpose::Start)
                } else {
                    self.fail(DeployError::Start { file })
                }
            },
            Awaiting::Substitution { template } => {
                if done {
                    self.awaiting = Awaiting::Removal { template: template.clone() };
                    Action::RemoveFile(template)
                } else {
                    self.fail(DeployError::Substitution { file: template })
                }
            },
            Awaiting::Removal { template } => {
                if done {
                    self.continue_walk(Purpose::Render)
                } else {
                    self.fail(DeployError::Removal { file: template })
                }
            },
            Awaiting::Source => {
                match event {
                    Event::Listing(listing) => {
                        self.enqueue(listing);
                        self.continue_copy()
                    },
                    _ => {
                        let error = DeployError::Copy { file: self.plan.source.clone() };
                        self.fail(error)
                    },
                }
            },
            Awaiting::Copy { file } => {
                if done {
                    self.continue_copy()
                } else {
                    self.fail(DeployError::Copy { file })
                }
            },
            Awaiting::Eviction => {
                if done {
                    self.begin_walk(Purpose::Start)
                } else {
                    let images = match &self.plan.images {
                        Some(images) => clone_texts(images),
                        None => Vec::new(),
                    };
                    assert(self.plan.images is None ==> texts(images@) =~= Seq::<Seq<char>>::empty());
                    self.fail(DeployError::ImageInvalidation { images })
                }
            },
            Awaiting::Cleanup => {
                if done {
                    self.awaiting = Awaiting::Nothing;
                    Action::Succeed(
                        join2("Successfully started deployed project: ", self.plan.identity.as_str()),
                    )
                } else {
                    let error = DeployError::Cleanup { directory: self.plan.checkout.clone() };
                    self.fail(error)
                }
            },
            Awaiting::Nothing => Action::Idle,
        }
    }
}

/// Copies what is awaited.
fn copy_awaiting(awaiting: &Awaiting) -> (copy: Awaiting)
    ensures
        copy@ == awaiting@,
{
    match awaiting {
        Awaiting::Clone => Awaiting::Clone,
        Awaiting::Staging => Awaiting::Staging,
        Awaiting::Listing { purpose, directory } => Awaiting::Listing {
            purpose: *purpose,
            directory: directory.clone(),
        },
        Awaiting::Stopping { file } => Awaiting::Stopping { file: file.clone() },
        Awaiting::Starting { file } => Awaiting::Starting { file: file.clone() },
        Awaiting::Substitution { template } => Awaiting::Substitution {
            template: template.clone(),
        },
        Awaiting::Removal { template } => Awaiting::Removal { template: template.clone() },
        Awaiting::Source => Awaiting::Source,
        Awaiting::Copy { file } => Awaiting::Copy { file: file.clone() },
        Awaiting::Eviction => Awaiting::Eviction,
        Awaiting::Cleanup => Awaiting::Cleanup,
        Awaiting::Nothing => Awaiting::Nothing,
    }
}

} // verus!
