//! The lookup as a state machine: pick a stack, pick one of its resources,
//! resolve the resource to its console path.
//!
//! The machine does no outside work itself. In every state it names the one
//! thing to be done next (to list, to show the picker, to print), and it
//! moves on when it is told how that ended. The stages follow one another
//! strictly: the resources are listed only once a stack is chosen, and the
//! first failure ends the lookup.
//!
//! The stages are `FetchingStacks`, `PickingStack`, `FetchingResources`,
//! `PickingResource`, resolving, and `Done`, beside `Failed`. Resolving needs
//! nothing from outside, so the machine never rests in it: a chosen record is
//! read and resolved in the same step.

use vstd::prelude::*;
use crate::collection::{
    Resources, Stacks, all_named, block, lemma_block_empty, lemma_records_block_empty, records,
};
use crate::error::{Error, ErrorView};
use crate::resolver::console_path;
use crate::resource::{Resource, ResourceView, decoded, lemma_decode_encode};
use crate::selector::{Selection, SelectionView};

verus! {

/// Where the lookup stands.
#[derive(Debug, PartialEq, Eq)]
pub enum State {
    /// The stacks are being listed.
    FetchingStacks,
    /// The user is choosing from the block of stacks.
    PickingStack { block: String },
    /// The resources of the chosen stack are being listed.
    FetchingResources { stack: String },
    /// The user is choosing from the block of the stack's resources.
    PickingResource { stack: String, block: String },
    /// The lookup ended with the console path of the chosen resource.
    Done { path: String },
    /// The lookup ended without a path.
    Failed { error: Error },
}

/// How the outside work that a state asked for ended.
#[derive(Debug, PartialEq, Eq)]
pub enum Event {
    /// The stacks were listed, or listing them failed for the given reason.
    StacksListed(Result<Stacks, String>),
    /// The resources of the stack were listed, or listing them failed for the
    /// given reason.
    ResourcesListed(Result<Resources, String>),
    /// The picker closed.
    Picked(Selection),
}

/// The titles under which the picker is shown, one for each of its two
/// visits. The caller of the lookup chooses them.
#[derive(Debug, PartialEq, Eq)]
pub struct Prompts {
    /// The title over the stacks.
    pub stack: String,
    /// The title over the resources of the chosen stack.
    pub resource: String,
}

/// The outside work that a state asks for.
#[derive(Debug, PartialEq, Eq)]
pub enum Action {
    /// List the stacks.
    ListStacks,
    /// Show the picker with this block under this title.
    Pick { block: String, title: String },
    /// List the resources of this stack.
    ListResources { stack: String },
    /// Hand this console path to the user; the lookup is over.
    Emit { path: String },
    /// Tell the user of this error; the lookup is over.
    Report { error: Error },
}

/// A [`State`] with its texts as character sequences.
pub enum StateView {
    FetchingStacks,
    PickingStack { block: Seq<char> },
    FetchingResources { stack: Seq<char> },
    PickingResource { stack: Seq<char>, block: Seq<char> },
    Done { path: Seq<char> },
    Failed { error: ErrorView },
}

/// An [`Event`] with its texts as character sequences.
pub enum EventView {
    StacksListed(Result<Seq<Seq<char>>, Seq<char>>),
    ResourcesListed(Result<Seq<ResourceView>, Seq<char>>),
    Picked(SelectionView),
}

/// [`Prompts`] as character sequences.
pub struct PromptsView {
    pub stack: Seq<char>,
    pub resource: Seq<char>,
}

/// An [`Action`] with its texts as character sequences.
pub enum ActionView {
    ListStacks,
    Pick { block: Seq<char>, title: Seq<char> },
    ListResources { stack: Seq<char> },
    Emit { path: Seq<char> },
    Report { error: ErrorView },
}

impl View for Prompts {
    type V = PromptsView;

    open spec fn view(&self) -> PromptsView {
        PromptsView { stack: self.stack@, resource: self.resource@ }
    }
}

impl View for State {
    type V = StateView;

    open spec fn view(&self) -> StateView {
        match self {
            State::FetchingStacks => StateView::FetchingStacks,
            State::PickingStack { block } => StateView::PickingStack { block: block@ },
            State::FetchingResources { stack } => StateView::FetchingResources { stack: stack@ },
            State::PickingResource { stack, block } => StateView::PickingResource {
                stack: stack@,
                block: block@,
            },
            State::Done { path } => StateView::Done { path: path@ },
            State::Failed { error } => StateView::Failed { error: error@ },
        }
    }
}

impl View for Event {
    type V = EventView;

    open spec fn view(&self) -> EventView {
        match self {
            Event::StacksListed(Ok(stacks)) => EventView::StacksListed(Ok(stacks@)),
            Event::StacksListed(Err(reason)) => EventView::StacksListed(Err(reason@)),
            Event::ResourcesListed(Ok(resources)) => EventView::ResourcesListed(Ok(resources@)),
            Event::ResourcesListed(Err(reason)) => EventView::ResourcesListed(Err(reason@)),
            Event::Picked(selection) => EventView::Picked(selection@),
        }
    }
}

impl View for Action {
    type V = ActionView;

    open spec fn view(&self) -> ActionView {
        match self {
            Action::ListStacks => ActionView::ListStacks,
            Action::Pick { block, title } => ActionView::Pick { block: block@, title: title@ },
            Action::ListResources { stack } => ActionView::ListResources { stack: stack@ },
            Action::Emit { path } => ActionView::Emit { path: path@ },
            Action::Report { error } => ActionView::Report { error: error@ },
        }
    }
}

/// Where a listing leaves the lookup: with nothing to pick from where its
/// block is empty, else in `picking`.
pub open spec fn offered(block: Seq<char>, picking: StateView) -> StateView {
    if block.len() == 0 {
        StateView::Failed { error: ErrorView::NoOptions }
    } else {
        picking
    }
}

/// Where resolving the chosen resource leaves the lookup: done with its
/// console path, or failed over its type.
pub open spec fn resolved(resource: ResourceView) -> StateView {
    match console_path(resource) {
        Some(path) => StateView::Done { path },
        None => StateView::Failed {
            error: ErrorView::UnmappedResourceType(resource.resource_type),
        },
    }
}

impl StateView {
    /// The lookup is over.
    pub open spec fn is_terminal(self) -> bool {
        self is Done || self is Failed
    }

    /// The picker is never to be shown an empty block.
    pub open spec fn well_formed(self) -> bool {
        match self {
            StateView::PickingStack { block } => block.len() > 0,
            StateView::PickingResource { block, .. } => block.len() > 0,
            _ => true,
        }
    }

    /// The state after `event`. An event that does not answer what the state
    /// asked for leaves the state as it is; so does any event once the lookup
    /// is over.
    pub open spec fn next(self, event: EventView) -> StateView {
        match (self, event) {
            (StateView::FetchingStacks, EventView::StacksListed(Err(reason))) => StateView::Failed {
                error: ErrorView::FetchFailed(reason),
            },
            (StateView::FetchingStacks, EventView::StacksListed(Ok(names))) => offered(
                block(names),
                StateView::PickingStack { block: block(names) },
            ),
            (
                StateView::PickingStack { .. },
                EventView::Picked(SelectionView::Chosen(line)),
            ) => StateView::FetchingResources { stack: line },
            (StateView::PickingStack { .. }, EventView::Picked(_)) => StateView::Failed {
                error: ErrorView::SelectionAborted,
            },
            (
                StateView::FetchingResources { .. },
                EventView::ResourcesListed(Err(reason)),
            ) => StateView::Failed { error: ErrorView::FetchFailed(reason) },
            (
                StateView::FetchingResources { stack },
                EventView::ResourcesListed(Ok(resources)),
            ) => offered(
                block(records(resources)),
                StateView::PickingResource { stack, block: block(records(resources)) },
            ),
            (
                StateView::PickingResource { .. },
                EventView::Picked(SelectionView::Chosen(line)),
            ) => match decoded(line) {
                Some(resource) => resolved(resource),
                None => StateView::Failed { error: ErrorView::MalformedRecord },
            },
            (StateView::PickingResource { .. }, EventView::Picked(_)) => StateView::Failed {
                error: ErrorView::SelectionAborted,
            },
            _ => self,
        }
    }

    /// What the state asks for. The picker is shown the block of the state,
    /// under the title of its stage.
    pub open spec fn action(self, prompts: PromptsView) -> ActionView {
        match self {
            StateView::FetchingStacks => ActionView::ListStacks,
            StateView::PickingStack { block } => ActionView::Pick { block, title: prompts.stack },
            StateView::FetchingResources { stack } => ActionView::ListResources { stack },
            StateView::PickingResource { block, .. } => ActionView::Pick {
                block,
                title: prompts.resource,
            },
            StateView::Done { path } => ActionView::Emit { path },
            StateView::Failed { error } => ActionView::Report { error },
        }
    }
}

/// The picker is never shown an empty block: no event leads from a state
/// that offers something to one that offers nothing, and a lookup begins in
/// a state that offers nothing at all.
pub proof fn lemma_next_well_formed(state: StateView, event: EventView, prompts: PromptsView)
    requires
        state.well_formed(),
    ensures
        StateView::FetchingStacks.well_formed(),
        state.next(event).well_formed(),
        state.next(event).action(prompts) matches ActionView::Pick { block, .. } ==> block.len()
            > 0,
{
}

/// A listing of nothing ends the lookup with `NoOptions`, at either stage,
/// and the picker is not asked for.
pub proof fn lemma_empty_listing_fails(stack: Seq<char>, prompts: PromptsView)
    ensures
        StateView::FetchingStacks.next(EventView::StacksListed(Ok(Seq::empty())))
            == (StateView::Failed { error: ErrorView::NoOptions }),
        (StateView::FetchingResources { stack }).next(EventView::ResourcesListed(Ok(Seq::empty())))
            == (StateView::Failed { error: ErrorView::NoOptions }),
        (StateView::Failed { error: ErrorView::NoOptions }).action(prompts) == (ActionView::Report {
            error: ErrorView::NoOptions,
        }),
{
    assert(records(Seq::<ResourceView>::empty()) =~= Seq::<Seq<char>>::empty());
}

/// Only a listing of nothing fails with `NoOptions`: a listing of stacks none
/// of whose names is empty, or of resources, does so exactly where it holds
/// no item.
pub proof fn lemma_no_options_means_empty(
    names: Seq<Seq<char>>,
    stack: Seq<char>,
    resources: Seq<ResourceView>,
)
    requires
        all_named(names),
    ensures
        StateView::FetchingStacks.next(EventView::StacksListed(Ok(names))) == (StateView::Failed {
            error: ErrorView::NoOptions,
        }) <==> names.len() == 0,
        (StateView::FetchingResources { stack }).next(EventView::ResourcesListed(Ok(resources)))
            == (StateView::Failed { error: ErrorView::NoOptions }) <==> resources.len() == 0,
{
    lemma_block_empty(names);
    lemma_records_block_empty(resources);
}

/// Once the lookup is over, nothing moves it: a failure is final, and so is
/// the path.
pub proof fn lemma_terminal_is_final(state: StateView, event: EventView)
    requires
        state.is_terminal(),
    ensures
        state.next(event) == state,
{
}

/// The resources of a stack are listed only once that stack is chosen: an
/// event leads into `FetchingResources` only from `PickingStack`, and only
/// by the choice of the stack that is then listed.
pub proof fn lemma_resources_after_stack(state: StateView, event: EventView, stack: Seq<char>)
    requires
        state.next(event) == (StateView::FetchingResources { stack }),
        state != state.next(event),
    ensures
        state is PickingStack,
        event == EventView::Picked(SelectionView::Chosen(stack)),
{
}

/// The path that a lookup ends with is the console path of the resource whose
/// record was chosen.
pub proof fn lemma_done_by_resolution(state: StateView, event: EventView, path: Seq<char>)
    requires
        state.next(event) == (StateView::Done { path }),
        state != state.next(event),
    ensures
        state is PickingResource,
        event matches EventView::Picked(SelectionView::Chosen(line)) && (decoded(
            line,
        ) matches Some(resource) && console_path(resource) == Some(path)),
{
}

/// Choosing the line of a resource resolves that resource: where the picker
/// hands back the line at `i` of the block it was shown, and the texts of the
/// resource at `i` hold no parenthesis and no space, the lookup ends as
/// resolving that resource ends.
pub proof fn lemma_pick_resolves(
    stack: Seq<char>,
    resources: Seq<ResourceView>,
    i: int,
)
    requires
        0 <= i < resources.len(),
        resources[i].survives_record(),
    ensures
        (StateView::PickingResource { stack, block: block(records(resources)) }).next(
            EventView::Picked(SelectionView::Chosen(records(resources)[i])),
        ) == resolved(resources[i]),
{
    lemma_decode_encode(resources[i]);
}

impl State {
    /// The state in which every lookup begins.
    pub fn start() -> (state: State)
        ensures
            state@ == StateView::FetchingStacks,
    {
        State::FetchingStacks
    }

    /// The lookup is over.
    pub fn is_terminal(&self) -> (over: bool)
        ensures
            over == self@.is_terminal(),
    {
        match self {
            State::Done { .. } => true,
            State::Failed { .. } => true,
            _ => false,
        }
    }

    /// What is to be done next.
    pub fn action(&self, prompts: &Prompts) -> (action: Action)
        ensures
            action@ == self@.action(prompts@),
    {
        match self {
            State::FetchingStacks => Action::ListStacks,
            State::PickingStack { block } => Action::Pick {
                block: block.clone(),
                title: prompts.stack.clone(),
            },
            State::FetchingResources { stack } => Action::ListResources { stack: stack.clone() },
            State::PickingResource { block, .. } => Action::Pick {
                block: block.clone(),
                title: prompts.resource.clone(),
            },
            State::Done { path } => Action::Emit { path: path.clone() },
            State::Failed { error } => Action::Report { error: error.clone() },
        }
    }

    /// Moves on by one event.
    pub fn step(self, event: Event) -> (next: State)
        ensures
            next@ == self@.next(event@),
    {
        match (self, event) {
            (State::FetchingStacks, Event::StacksListed(Err(reason))) => State::Failed {
                error: Error::FetchFailed(reason),
            },
            (State::FetchingStacks, Event::StacksListed(Ok(stacks))) => {
                let block = stacks.encode();
                if block.as_str().is_empty() {
                    State::Failed { error: Error::NoOptions }
                } else {
                    State::PickingStack { block }
                }
            },
            (State::PickingStack { .. }, Event::Picked(Selection::Chosen(line))) => {
                State::FetchingResources { stack: line }
            },
            (State::PickingStack { .. }, Event::Picked(_)) => State::Failed {
                error: Error::SelectionAborted,
            },
            (State::FetchingResources { .. }, Event::ResourcesListed(Err(reason))) => {
                State::Failed { error: Error::FetchFailed(reason) }
            },
            (State::FetchingResources { stack }, Event::ResourcesListed(Ok(resources))) => {
                let block = resources.encode();
                if block.as_str().is_empty() {
                    State::Failed { error: Error::NoOptions }
                } else {
                    State::PickingResource { stack, block }
                }
            },
            (State::PickingResource { stack, .. }, Event::Picked(Selection::Chosen(line))) => {
                match Resource::decode(line.as_str()) {
                    Ok(resource) => match resource.to_console_url_path(stack.as_str()) {
                        Ok(path) => State::Done { path },
                        Err(error) => State::Failed { error },
                    },
                    Err(error) => State::Failed { error },
                }
            },
            (State::PickingResource { .. }, Event::Picked(_)) => State::Failed {
                error: Error::SelectionAborted,
            },
            (state, _) => state,
        }
    }
}

} // verus!
