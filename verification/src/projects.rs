//! Projects: showing, listing and deleting them, and changing who sees them.

use vstd::prelude::*;
use vstd::string::*;

use crate::types::{
    Action, ActionView, Event, EventView, Message, MessageView, Project, ProjectView, Response,
    ResponseView, Step, StepView, Target, TargetView, Visibility, BAD_REQUEST, FORBIDDEN,
    NO_CONTENT, OK,
};

verus! {

/// The visibility that a request asks for: the word it uses, and what the word stands for.
#[derive(Debug, PartialEq, Eq)]
pub struct VisibilityParam {
    pub text: String,
    pub parsed: Option<Visibility>,
}

/// What a [`VisibilityParam`] holds.
pub struct VisibilityParamView {
    pub text: Seq<char>,
    pub parsed: Option<Visibility>,
}

impl View for VisibilityParam {
    type V = VisibilityParamView;

    open spec fn view(&self) -> VisibilityParamView {
        VisibilityParamView { text: self.text@, parsed: self.parsed }
    }
}

/// What an optional visibility holds.
pub open spec fn visibility_view(param: Option<VisibilityParam>) -> Option<VisibilityParamView> {
    match param {
        Some(param) => Some(param@),
        None => None,
    }
}

/// How far the change of a project's visibility has come.
#[derive(Debug, PartialEq, Eq)]
pub enum ProjectPrivacyToggle<D> {
    Start {
        account: u64,
        origin: Option<String>,
        name: Option<String>,
        visibility: Option<VisibilityParam>,
    },
    CheckingAccess { full_name: String, incoming: Visibility },
    Fetching { incoming: Visibility },
    Transitioning { project: Project<D> },
    Updating,
}

/// What a [`ProjectPrivacyToggle`] holds.
pub enum ProjectPrivacyToggleView<D> {
    Start {
        account: u64,
        origin: Option<Seq<char>>,
        name: Option<Seq<char>>,
        visibility: Option<VisibilityParamView>,
    },
    CheckingAccess { full_name: Seq<char>, incoming: Visibility },
    Fetching { incoming: Visibility },
    Transitioning { project: ProjectView<D> },
    Updating,
}

impl<D> View for ProjectPrivacyToggle<D> {
    type V = ProjectPrivacyToggleView<D>;

    open spec fn view(&self) -> ProjectPrivacyToggleView<D> {
        match self {
            ProjectPrivacyToggle::Start { account, origin, name, visibility } => {
                ProjectPrivacyToggleView::Start {
                    account: *account,
                    origin: origin.deep_view(),
                    name: name.deep_view(),
                    visibility: visibility_view(*visibility),
                }
            },
            ProjectPrivacyToggle::CheckingAccess { full_name, incoming } => {
                ProjectPrivacyToggleView::CheckingAccess {
                    full_name: full_name@,
                    incoming: *incoming,
                }
            },
            ProjectPrivacyToggle::Fetching { incoming } => ProjectPrivacyToggleView::Fetching {
                incoming: *incoming,
            },
            ProjectPrivacyToggle::Transitioning { project } => {
                ProjectPrivacyToggleView::Transitioning { project: project@ }
            },
            ProjectPrivacyToggle::Updating => ProjectPrivacyToggleView::Updating,
        }
    }
}

/// The events that a state of the change waits for.
pub open spec fn project_privacy_toggle_awaits<D>(
    state: ProjectPrivacyToggleView<D>,
    event: EventView<D>,
) -> bool {
    match state {
        ProjectPrivacyToggleView::Start { .. } => event is Begin,
        ProjectPrivacyToggleView::CheckingAccess { .. } => event is Access || event is Raised,
        ProjectPrivacyToggleView::Fetching { .. } => event is Project || event is Refused,
        ProjectPrivacyToggleView::Transitioning { .. } => event is Visibility,
        ProjectPrivacyToggleView::Updating => event is Done || event is Refused,
    }
}

/// The visibility that users may ask for with a word, given the word in lower case and what it
/// stands for. They are not allowed to set projects to hidden by hand.
pub open spec fn settable(lower: Seq<char>, parsed: Option<Visibility>) -> Option<Visibility> {
    if lower == "hidden"@ {
        None
    } else {
        parsed
    }
}

/// Finds out which visibility users may ask for with a word.
pub fn settable_visibility(lower: String, parsed: Option<Visibility>) -> (visibility: Option<
    Visibility,
>)
    ensures
        visibility == settable(lower@, parsed),
{
    if lower == String::from_str("hidden") {
        None
    } else {
        parsed
    }
}

/// Users may ask for whatever visibility their word stands for, but for the one word for hidden.
pub proof fn settable_but_hidden(lower: Seq<char>, visibility: Visibility)
    ensures
        settable(lower, None) is None,
        settable("hidden"@, Some(visibility)) is None,
        lower != "hidden"@ ==> settable(lower, Some(visibility)) == Some(visibility),
{
}

/// How the change of a project's visibility goes on.
pub open spec fn project_privacy_toggle_step<D>(
    state: ProjectPrivacyToggleView<D>,
    event: EventView<D>,
) -> StepView<ProjectPrivacyToggleView<D>, D> {
    match (state, event) {
        (
            ProjectPrivacyToggleView::Start { account, origin, name, visibility },
            EventView::Begin,
        ) => match (origin, name, visibility) {
            (Some(origin), Some(name), Some(asked)) => {
                match settable(crate::text::lowered(asked.text), asked.parsed) {
                    Some(incoming) => StepView::Perform(
                        ActionView::CheckOriginAccess { account, origin },
                        ProjectPrivacyToggleView::CheckingAccess {
                            full_name: crate::text::full_name(origin, name),
                            incoming,
                        },
                    ),
                    None => StepView::Respond(ResponseView::Status(BAD_REQUEST)),
                }
            },
            _ => StepView::Respond(ResponseView::Status(BAD_REQUEST)),
        },
        (
            ProjectPrivacyToggleView::CheckingAccess { full_name, incoming },
            EventView::Access(allowed),
        ) => {
            if allowed {
                StepView::Perform(
                    ActionView::Route(MessageView::ProjectGet { name: full_name }),
                    ProjectPrivacyToggleView::Fetching { incoming },
                )
            } else {
                StepView::Respond(ResponseView::Status(FORBIDDEN))
            }
        },
        (ProjectPrivacyToggleView::CheckingAccess { .. }, EventView::Raised(error)) => {
            StepView::Raise(error)
        },
        (ProjectPrivacyToggleView::Fetching { incoming }, EventView::Project(project)) => {
            StepView::Perform(
                ActionView::TransitionVisibility { incoming, current: project.visibility },
                ProjectPrivacyToggleView::Transitioning { project },
            )
        },
        (ProjectPrivacyToggleView::Fetching { .. }, EventView::Refused(error)) => {
            StepView::Respond(ResponseView::NetError(error))
        },
        (
            ProjectPrivacyToggleView::Transitioning { project },
            EventView::Visibility(visibility),
        ) => StepView::Perform(
            ActionView::Route(
                MessageView::ProjectVisibilityUpdate {
                    project: ProjectView { visibility, ..project },
                },
            ),
            ProjectPrivacyToggleView::Updating,
        ),
        (ProjectPrivacyToggleView::Updating, EventView::Done) => StepView::Respond(
            ResponseView::Status(NO_CONTENT),
        ),
        (ProjectPrivacyToggleView::Updating, EventView::Refused(error)) => StepView::Respond(
            ResponseView::NetError(error),
        ),
        _ => StepView::Stray,
    }
}

/// Changes who sees the packages of a project.
pub fn project_privacy_toggle<D>(state: ProjectPrivacyToggle<D>, event: Event<D>) -> (step: Step<
    ProjectPrivacyToggle<D>,
    D,
>)
    requires
        project_privacy_toggle_awaits(state@, event@),
    ensures
        step@ == project_privacy_toggle_step(state@, event@),
{
    match (state, event) {
        (
            ProjectPrivacyToggle::Start { account, origin, name, visibility },
            Event::Begin,
        ) => match (origin, name, visibility) {
            (Some(origin), Some(name), Some(asked)) => {
                let lower = crate::text::to_lowercase(asked.text.as_str());
                match settable_visibility(lower, asked.parsed) {
                    Some(incoming) => {
                        let full_name = crate::text::project_name(origin.as_str(), name.as_str());
                        Step::Perform(
                            Action::CheckOriginAccess { account, origin },
                            ProjectPrivacyToggle::CheckingAccess { full_name, incoming },
                        )
                    },
                    None => Step::Respond(Response::Status(BAD_REQUEST)),
                }
            },
            _ => Step::Respond(Response::Status(BAD_REQUEST)),
        },
        (
            ProjectPrivacyToggle::CheckingAccess { full_name, incoming },
            Event::Access(allowed),
        ) => {
            if !allowed {
                return Step::Respond(Response::Status(FORBIDDEN));
            }
            Step::Perform(
                Action::Route(Message::ProjectGet { name: full_name }),
                ProjectPrivacyToggle::Fetching { incoming },
            )
        },
        (ProjectPrivacyToggle::CheckingAccess { .. }, Event::Raised(error)) => Step::Raise(error),
        (ProjectPrivacyToggle::Fetching { incoming }, Event::Project(project)) => Step::Perform(
            Action::TransitionVisibility { incoming, current: project.visibility },
            ProjectPrivacyToggle::Transitioning { project },
        ),
        (ProjectPrivacyToggle::Fetching { .. }, Event::Refused(error)) => Step::Respond(
            Response::NetError(error),
        ),
        (ProjectPrivacyToggle::Transitioning { project }, Event::Visibility(visibility)) => {
            let mut project = project;
            project.visibility = visibility;
            Step::Perform(
                Action::Route(Message::ProjectVisibilityUpdate { project }),
                ProjectPrivacyToggle::Updating,
            )
        },
        (ProjectPrivacyToggle::Updating, Event::Done) => Step::Respond(
            Response::Status(NO_CONTENT),
        ),
        (ProjectPrivacyToggle::Updating, Event::Refused(error)) => Step::Respond(
            Response::NetError(error),
        ),
        _ => vstd::pervasive::unreached(),
    }
}

/// How far a request has come that sends one message about a project, once the access to its
/// origin has been checked.
#[derive(Debug, PartialEq, Eq)]
pub enum ProjectRequest {
    Start(Target),
    CheckingAccess(Target),
    Sent,
}

/// What a [`ProjectRequest`] holds.
pub enum ProjectRequestView {
    Start(TargetView),
    CheckingAccess(TargetView),
    Sent,
}

impl View for ProjectRequest {
    type V = ProjectRequestView;

    open spec fn view(&self) -> ProjectRequestView {
        match self {
            ProjectRequest::Start(target) => ProjectRequestView::Start(target@),
            ProjectRequest::CheckingAccess(target) => ProjectRequestView::CheckingAccess(target@),
            ProjectRequest::Sent => ProjectRequestView::Sent,
        }
    }
}

/// The events that a state of a project's deletion waits for.
pub open spec fn project_delete_awaits<D>(state: ProjectRequestView, event: EventView<D>) -> bool {
    match state {
        ProjectRequestView::Start(_) => event is Begin,
        ProjectRequestView::CheckingAccess(_) => event is Access || event is Raised,
        ProjectRequestView::Sent => event is Done || event is Refused,
    }
}

/// How the deletion of a project goes on.
pub open spec fn project_delete_step<D>(
    state: ProjectRequestView,
    event: EventView<D>,
) -> StepView<ProjectRequestView, D> {
    match (state, event) {
        (ProjectRequestView::Start(target), EventView::Begin) => StepView::Perform(
            ActionView::CheckOriginAccess { account: target.account, origin: target.origin },
            ProjectRequestView::CheckingAccess(target),
        ),
        (ProjectRequestView::CheckingAccess(target), EventView::Access(allowed)) => {
            if allowed {
                StepView::Perform(
                    ActionView::Route(
                        MessageView::ProjectDelete {
                            name: crate::text::full_name(target.origin, target.name),
                            requestor: target.account,
                        },
                    ),
                    ProjectRequestView::Sent,
                )
            } else {
                StepView::Respond(ResponseView::Status(FORBIDDEN))
            }
        },
        (ProjectRequestView::CheckingAccess(_), EventView::Raised(error)) => StepView::Raise(
            error,
        ),
        (ProjectRequestView::Sent, EventView::Done) => StepView::Respond(
            ResponseView::Status(NO_CONTENT),
        ),
        (ProjectRequestView::Sent, EventView::Refused(error)) => StepView::Respond(
            ResponseView::NetError(error),
        ),
        _ => StepView::Stray,
    }
}

/// Deletes the given project.
pub fn project_delete<D>(state: ProjectRequest, event: Event<D>) -> (step: Step<ProjectRequest, D>)
    requires
        project_delete_awaits(state@, event@),
    ensures
        step@ == project_delete_step(state@, event@),
{
    match (state, event) {
        (ProjectRequest::Start(target), Event::Begin) => Step::Perform(
            Action::CheckOriginAccess { account: target.account, origin: target.origin.clone() },
            ProjectRequest::CheckingAccess(target),
        ),
        (ProjectRequest::CheckingAccess(target), Event::Access(allowed)) => {
            if !allowed {
                return Step::Respond(Response::Status(FORBIDDEN));
            }
            let name = crate::text::project_name(target.origin.as_str(), target.name.as_str());
            Step::Perform(
                Action::Route(Message::ProjectDelete { name, requestor: target.account }),
                ProjectRequest::Sent,
            )
        },
        (ProjectRequest::CheckingAccess(_), Event::Raised(error)) => Step::Raise(error),
        (ProjectRequest::Sent, Event::Done) => Step::Respond(Response::Status(NO_CONTENT)),
        (ProjectRequest::Sent, Event::Refused(error)) => Step::Respond(Response::NetError(error)),
        _ => vstd::pervasive::unreached(),
    }
}

/// The events that a state of a project's display waits for.
pub open spec fn project_show_awaits<D>(state: ProjectRequestView, event: EventView<D>) -> bool {
    match state {
        ProjectRequestView::Start(_) => event is Begin,
        ProjectRequestView::CheckingAccess(_) => event is Access || event is Raised,
        ProjectRequestView::Sent => event is Project || event is Refused,
    }
}

/// How the display of a project goes on.
pub open spec fn project_show_step<D>(state: ProjectRequestView, event: EventView<D>) -> StepView<
    ProjectRequestView,
    D,
> {
    match (state, event) {
        (ProjectRequestView::Start(target), EventView::Begin) => StepView::Perform(
            ActionView::CheckOriginAccess { account: target.account, origin: target.origin },
            ProjectRequestView::CheckingAccess(target),
        ),
        (ProjectRequestView::CheckingAccess(target), EventView::Access(allowed)) => {
            if allowed {
                StepView::Perform(
                    ActionView::Route(
                        MessageView::ProjectGet {
                            name: crate::text::full_name(target.origin, target.name),
                        },
                    ),
                    ProjectRequestView::Sent,
                )
            } else {
                StepView::Respond(ResponseView::Status(FORBIDDEN))
            }
        },
        (ProjectRequestView::CheckingAccess(_), EventView::Raised(error)) => StepView::Raise(
            error,
        ),
        (ProjectRequestView::Sent, EventView::Project(project)) => StepView::Respond(
            ResponseView::Json { status: OK, document: project.document },
        ),
        (ProjectRequestView::Sent, EventView::Refused(error)) => StepView::Respond(
            ResponseView::NetError(error),
        ),
        _ => StepView::Stray,
    }
}

/// Displays the given project's details.
pub fn project_show<D>(state: ProjectRequest, event: Event<D>) -> (step: Step<ProjectRequest, D>)
    requires
        project_show_awaits(state@, event@),
    ensures
        step@ == project_show_step(state@, event@),
{
    match (state, event) {
        (ProjectRequest::Start(target), Event::Begin) => Step::Perform(
            Action::CheckOriginAccess { account: target.account, origin: target.origin.clone() },
            ProjectRequest::CheckingAccess(target),
        ),
        (ProjectRequest::CheckingAccess(target), Event::Access(allowed)) => {
            if !allowed {
                return Step::Respond(Response::Status(FORBIDDEN));
            }
            let name = crate::text::project_name(target.origin.as_str(), target.name.as_str());
            Step::Perform(Action::Route(Message::ProjectGet { name }), ProjectRequest::Sent)
        },
        (ProjectRequest::CheckingAccess(_), Event::Raised(error)) => Step::Raise(error),
        (ProjectRequest::Sent, Event::Project(project)) => Step::Respond(
            Response::Json { status: OK, document: project.document },
        ),
        (ProjectRequest::Sent, Event::Refused(error)) => Step::Respond(Response::NetError(error)),
        _ => vstd::pervasive::unreached(),
    }
}

/// How far the list of an origin's projects has come.
#[derive(Debug, PartialEq, Eq)]
pub enum ProjectList {
    Start { account: u64, origin: String },
    CheckingAccess { origin: String },
    Fetching,
}

/// What a [`ProjectList`] holds.
pub enum ProjectListView {
    Start { account: u64, origin: Seq<char> },
    CheckingAccess { origin: Seq<char> },
    Fetching,
}

impl View for ProjectList {
    type V = ProjectListView;

    open spec fn view(&self) -> ProjectListView {
        match self {
            ProjectList::Start { account, origin } => ProjectListView::Start {
                account: *account,
                origin: origin@,
            },
            ProjectList::CheckingAccess { origin } => ProjectListView::CheckingAccess {
                origin: origin@,
            },
            ProjectList::Fetching => ProjectListView::Fetching,
        }
    }
}

/// The events that a state of the list of projects waits for.
pub open spec fn project_list_awaits<D>(state: ProjectListView, event: EventView<D>) -> bool {
    match state {
        ProjectListView::Start { .. } => event is Begin,
        ProjectListView::CheckingAccess { .. } => event is Access || event is Raised,
        ProjectListView::Fetching => event is Names || event is Refused,
    }
}

/// How the list of an origin's projects goes on.
pub open spec fn project_list_step<D>(state: ProjectListView, event: EventView<D>) -> StepView<
    ProjectListView,
    D,
> {
    match (state, event) {
        (ProjectListView::Start { account, origin }, EventView::Begin) => StepView::Perform(
            ActionView::CheckOriginAccess { account, origin },
            ProjectListView::CheckingAccess { origin },
        ),
        (ProjectListView::CheckingAccess { origin }, EventView::Access(allowed)) => {
            if allowed {
                StepView::Perform(
                    ActionView::Route(MessageView::ProjectListGet { origin }),
                    ProjectListView::Fetching,
                )
            } else {
                StepView::Respond(ResponseView::Status(FORBIDDEN))
            }
        },
        (ProjectListView::CheckingAccess { .. }, EventView::Raised(error)) => StepView::Raise(
            error,
        ),
        (ProjectListView::Fetching, EventView::Names(names)) => StepView::Respond(
            ResponseView::JsonNames { status: OK, names },
        ),
        (ProjectListView::Fetching, EventView::Refused(error)) => StepView::Respond(
            ResponseView::NetError(error),
        ),
        _ => StepView::Stray,
    }
}

/// Returns the names of all the projects in the given origin.
pub fn project_list<D>(state: ProjectList, event: Event<D>) -> (step: Step<ProjectList, D>)
    requires
        project_list_awaits(state@, event@),
    ensures
        step@ == project_list_step(state@, event@),
{
    match (state, event) {
        (ProjectList::Start { account, origin }, Event::Begin) => Step::Perform(
            Action::CheckOriginAccess { account, origin: origin.clone() },
            ProjectList::CheckingAccess { origin },
        ),
        (ProjectList::CheckingAccess { origin }, Event::Access(allowed)) => {
            if !allowed {
                return Step::Respond(Response::Status(FORBIDDEN));
            }
            Step::Perform(
                Action::Route(Message::ProjectListGet { origin }),
                ProjectList::Fetching,
            )
        },
        (ProjectList::CheckingAccess { .. }, Event::Raised(error)) => Step::Raise(error),
        (ProjectList::Fetching, Event::Names(names)) => Step::Respond(
            Response::JsonNames { status: OK, names },
        ),
        (ProjectList::Fetching, Event::Refused(error)) => Step::Respond(Response::NetError(error)),
        _ => vstd::pervasive::unreached(),
    }
}

/// The change of a project's visibility, as a function.
pub open spec fn project_privacy_toggle_steps<D>() -> spec_fn(
    ProjectPrivacyToggleView<D>,
    EventView<D>,
) -> StepView<ProjectPrivacyToggleView<D>, D> {
    |s: ProjectPrivacyToggleView<D>, e: EventView<D>| project_privacy_toggle_step(s, e)
}

/// The change of a project's visibility waits for the events that it knows the way on from, and all
/// that can come of its actions is among them. It forbids what access is denied to, passes the
/// errors of services on, and leaves to the server what the server reports by itself.
pub proof fn project_privacy_toggle_manners<D>()
    ensures
        forall|s: ProjectPrivacyToggleView<D>, e: EventView<D>|
            #![trigger project_privacy_toggle_step(s, e)]
            project_privacy_toggle_steps::<D>()(s, e) == project_privacy_toggle_step(s, e),
        forall|s: ProjectPrivacyToggleView<D>, e: EventView<D>|
            #[trigger] project_privacy_toggle_awaits(s, e) == !(project_privacy_toggle_step(
                s,
                e,
            ) is Stray),
        crate::run::prepared(project_privacy_toggle_steps::<D>()),
        crate::run::forbids(project_privacy_toggle_steps::<D>()),
        crate::run::passes_errors_on(project_privacy_toggle_steps::<D>()),
        crate::run::raises(project_privacy_toggle_steps::<D>()),
{
}

/// Where the change of the visibility of project `name` of `origin` stands after `events`.
pub open spec fn project_privacy_toggle_after<D>(
    account: u64,
    origin: Seq<char>,
    name: Seq<char>,
    visibility: VisibilityParamView,
    events: Seq<EventView<D>>,
) -> StepView<ProjectPrivacyToggleView<D>, D> {
    crate::run::after(
        project_privacy_toggle_steps(),
        ProjectPrivacyToggleView::Start {
            account,
            origin: Some(origin),
            name: Some(name),
            visibility: Some(visibility),
        },
        events,
    )
}

/// Nobody sets a project to hidden by hand: a request that asks for it, in capitals or in small
/// letters, is turned down at once, whatever else it says.
pub proof fn nobody_hides_by_hand<D>(
    account: u64,
    origin: Seq<char>,
    name: Seq<char>,
    visibility: VisibilityParamView,
)
    requires
        crate::text::lowered(visibility.text) == "hidden"@ || crate::text::in_small_letters(
            visibility.text,
        ) == "hidden"@,
    ensures
        project_privacy_toggle_after(
            account,
            origin,
            name,
            visibility,
            Seq::<EventView<D>>::empty(),
        ) == StepView::<ProjectPrivacyToggleView<D>, D>::Respond(
            ResponseView::Status(BAD_REQUEST),
        ),
{
    if crate::text::in_small_letters(visibility.text) == "hidden"@ {
        reveal_strlit("hidden");
        crate::text::lowered_word(visibility.text, "hidden"@);
    }
}

/// The first thing that a change of visibility asks for is a check of the account's access to the
/// project's origin, unless the request is turned down, and it gets no further unless access is
/// granted.
pub proof fn project_privacy_toggle_needs_access<D>(
    account: u64,
    origin: Seq<char>,
    name: Seq<char>,
    visibility: VisibilityParamView,
    events: Seq<EventView<D>>,
)
    ensures
        match settable(crate::text::lowered(visibility.text), visibility.parsed) {
            Some(incoming) => project_privacy_toggle_after(
                account,
                origin,
                name,
                visibility,
                Seq::<EventView<D>>::empty(),
            ) == StepView::<ProjectPrivacyToggleView<D>, D>::Perform(
                ActionView::CheckOriginAccess { account, origin },
                ProjectPrivacyToggleView::CheckingAccess {
                    full_name: crate::text::full_name(origin, name),
                    incoming,
                },
            ),
            None => project_privacy_toggle_after(
                account,
                origin,
                name,
                visibility,
                Seq::<EventView<D>>::empty(),
            ) == StepView::<ProjectPrivacyToggleView<D>, D>::Respond(
                ResponseView::Status(BAD_REQUEST),
            ),
        },
        crate::run::only_with_access(
            project_privacy_toggle_after(account, origin, name, visibility, events),
            events,
        ),
{
    let start = ProjectPrivacyToggleView::<D>::Start {
        account,
        origin: Some(origin),
        name: Some(name),
        visibility: Some(visibility),
    };
    let steps = project_privacy_toggle_steps::<D>();
    if settable(crate::text::lowered(visibility.text), visibility.parsed) is Some {
        crate::run::access_comes_first(steps, start, events);
    } else if events.len() > 0 {
        if !(crate::run::after(steps, start, events) is Stray) {
            crate::run::asked_before(steps, start, events, 0);
            assert(events.take(0) =~= Seq::empty());
        }
    }
}

/// What the events of a run have been, by the state that it is in.
spec fn toggle_history<D>(
    origin: Seq<char>,
    name: Seq<char>,
    visibility: VisibilityParamView,
    events: Seq<EventView<D>>,
    action: ActionView<D>,
    state: ProjectPrivacyToggleView<D>,
) -> bool {
    let asked = settable(crate::text::lowered(visibility.text), visibility.parsed);
    match state {
        ProjectPrivacyToggleView::Start { .. } => false,
        ProjectPrivacyToggleView::CheckingAccess { full_name, incoming } => {
            &&& events.len() == 0
            &&& full_name == crate::text::full_name(origin, name)
            &&& Some(incoming) == asked
            &&& action is CheckOriginAccess
        },
        ProjectPrivacyToggleView::Fetching { incoming } => {
            &&& events.len() == 1
            &&& events[0] == EventView::<D>::Access(true)
            &&& Some(incoming) == asked
            &&& action == ActionView::<D>::Route(
                MessageView::ProjectGet { name: crate::text::full_name(origin, name) },
            )
        },
        ProjectPrivacyToggleView::Transitioning { project } => {
            &&& events.len() == 2
            &&& events[0] == EventView::<D>::Access(true)
            &&& events[1] is Project
            &&& events[1]->Project_0 == project
            &&& asked is Some
            &&& action == ActionView::<D>::TransitionVisibility {
                incoming: asked->Some_0,
                current: events[1]->Project_0.visibility,
            }
        },
        ProjectPrivacyToggleView::Updating => {
            &&& toggle_known(visibility, events)
            &&& events.len() == 3
            &&& action == ActionView::<D>::Route(
                MessageView::ProjectVisibilityUpdate {
                    project: ProjectView {
                        visibility: events[2]->Visibility_0,
                        ..events[1]->Project_0
                    },
                },
            )
        },
    }
}

/// Users may ask for the visibility, access to the origin is granted, the project is found, and its
/// new visibility has been worked out.
pub open spec fn toggle_known<D>(
    visibility: VisibilityParamView,
    events: Seq<EventView<D>>,
) -> bool {
    &&& settable(crate::text::lowered(visibility.text), visibility.parsed) is Some
    &&& events.len() >= 3
    &&& events[0] == EventView::<D>::Access(true)
    &&& events[1] is Project
    &&& events[2] is Visibility
}

proof fn lemma_toggle_history<D>(
    account: u64,
    origin: Seq<char>,
    name: Seq<char>,
    visibility: VisibilityParamView,
    events: Seq<EventView<D>>,
)
    ensures
        match project_privacy_toggle_after(account, origin, name, visibility, events) {
            StepView::Perform(action, state) => toggle_history(
                origin,
                name,
                visibility,
                events,
                action,
                state,
            ),
            StepView::Respond(ResponseView::Status(status)) => status == NO_CONTENT ==> {
                &&& toggle_known(visibility, events)
                &&& events.len() == 4
                &&& events[3] is Done
            },
            _ => true,
        },
    decreases events.len(),
{
    if events.len() > 0 {
        lemma_toggle_history(account, origin, name, visibility, events.drop_last());
    }
}

/// A change of visibility is reported as done if and only if users may ask for the visibility,
/// access was granted, the project was found, and it was stored. The project is then the one that
/// the request names, by its origin, a slash and its name. It was stored as it was but for its
/// visibility, and this one was worked out from the one asked for and the one before.
pub proof fn project_privacy_toggle_done<D>(
    account: u64,
    origin: Seq<char>,
    name: Seq<char>,
    visibility: VisibilityParamView,
    events: Seq<EventView<D>>,
)
    ensures
        ({
            let done = project_privacy_toggle_after(account, origin, name, visibility, events)
                == StepView::<ProjectPrivacyToggleView<D>, D>::Respond(
                ResponseView::Status(NO_CONTENT),
            );
            let start = ProjectPrivacyToggleView::<D>::Start {
                account,
                origin: Some(origin),
                name: Some(name),
                visibility: Some(visibility),
            };
            &&& done <==> {
                &&& toggle_known(visibility, events)
                &&& events.len() == 4
                &&& events[3] is Done
            }
            &&& done ==> crate::run::asked(
                project_privacy_toggle_steps(),
                start,
                events,
                1,
                ActionView::Route(
                    MessageView::ProjectGet { name: origin + seq!['/'] + name },
                ),
            )
            &&& done ==> crate::run::asked(
                project_privacy_toggle_steps(),
                start,
                events,
                2,
                ActionView::TransitionVisibility {
                    incoming: settable(
                        crate::text::lowered(visibility.text),
                        visibility.parsed,
                    )->Some_0,
                    current: events[1]->Project_0.visibility,
                },
            )
            &&& done ==> crate::run::asked(
                project_privacy_toggle_steps(),
                start,
                events,
                3,
                ActionView::Route(
                    MessageView::ProjectVisibilityUpdate {
                        project: ProjectView {
                            visibility: events[2]->Visibility_0,
                            ..events[1]->Project_0
                        },
                    },
                ),
            )
        }),
{
    let steps = project_privacy_toggle_steps::<D>();
    let start = ProjectPrivacyToggleView::<D>::Start {
        account,
        origin: Some(origin),
        name: Some(name),
        visibility: Some(visibility),
    };
    lemma_toggle_history(account, origin, name, visibility, events);
    if events.len() == 4 {
        crate::run::one_step_on(steps, start, events, 0);
        crate::run::one_step_on(steps, start, events, 1);
        crate::run::one_step_on(steps, start, events, 2);
        crate::run::one_step_on(steps, start, events, 3);
        crate::text::full_name_parts(origin, name);
        lemma_toggle_history(account, origin, name, visibility, events.take(1));
        lemma_toggle_history(account, origin, name, visibility, events.take(2));
        lemma_toggle_history(account, origin, name, visibility, events.take(3));
    }
}

/// The deletion of a project, as a function.
pub open spec fn project_delete_steps<D>() -> spec_fn(
    ProjectRequestView,
    EventView<D>,
) -> StepView<ProjectRequestView, D> {
    |s: ProjectRequestView, e: EventView<D>| project_delete_step(s, e)
}

/// Where the deletion of a project stands after `events`.
pub open spec fn project_delete_after<D>(
    target: TargetView,
    events: Seq<EventView<D>>,
) -> StepView<ProjectRequestView, D> {
    crate::run::after(project_delete_steps(), ProjectRequestView::Start(target), events)
}

/// The deletion of a project waits for the events that it knows the way on from, and all that can
/// come of its actions is among them. It forbids what access is denied to, passes the errors of
/// services on, and leaves to the server what the server reports by itself.
pub proof fn project_delete_manners<D>()
    ensures
        forall|s: ProjectRequestView, e: EventView<D>|
            #![trigger project_delete_step(s, e)]
            project_delete_steps::<D>()(s, e) == project_delete_step(s, e),
        forall|s: ProjectRequestView, e: EventView<D>|
            #[trigger] project_delete_awaits(s, e) == !(project_delete_step(s, e) is Stray),
        crate::run::prepared(project_delete_steps::<D>()),
        crate::run::forbids(project_delete_steps::<D>()),
        crate::run::passes_errors_on(project_delete_steps::<D>()),
        crate::run::raises(project_delete_steps::<D>()),
{
}

/// The first thing that the deletion of a project asks for is a check of the account's access to
/// the origin, and it gets no further unless access is granted.
pub proof fn project_delete_needs_access<D>(target: TargetView, events: Seq<EventView<D>>)
    ensures
        project_delete_after(target, Seq::<EventView<D>>::empty()) == StepView::<
            ProjectRequestView,
            D,
        >::Perform(
            ActionView::CheckOriginAccess { account: target.account, origin: target.origin },
            ProjectRequestView::CheckingAccess(target),
        ),
        crate::run::only_with_access(project_delete_after(target, events), events),
{
    crate::run::access_comes_first(
        project_delete_steps::<D>(),
        ProjectRequestView::Start(target),
        events,
    );
}

/// A deletion is reported as done if and only if access was granted and the project was deleted, on
/// behalf of the account.
pub proof fn project_delete_deleted<D>(target: TargetView, events: Seq<EventView<D>>)
    ensures
        project_delete_after(target, events) == StepView::<ProjectRequestView, D>::Respond(
            ResponseView::Status(NO_CONTENT),
        ) <==> events.len() == 2 && events[0] == EventView::<D>::Access(true) && events[1] is Done,
        project_delete_after(target, events) == StepView::<ProjectRequestView, D>::Respond(
            ResponseView::Status(NO_CONTENT),
        ) ==> crate::run::asked(
            project_delete_steps(),
            ProjectRequestView::Start(target),
            events,
            1,
            ActionView::Route(
                MessageView::ProjectDelete {
                    name: crate::text::full_name(target.origin, target.name),
                    requestor: target.account,
                },
            ),
        ),
{
    let steps = project_delete_steps::<D>();
    let start = ProjectRequestView::Start(target);
    if events.len() >= 1 {
        crate::run::one_step_on(steps, start, events, 0);
    }
    if events.len() >= 2 {
        crate::run::one_step_on(steps, start, events, 1);
    }
    if events.len() >= 3 && !(project_delete_after(target, events) is Stray) {
        crate::run::asked_before(steps, start, events, 2);
    }
}

/// The display of a project, as a function.
pub open spec fn project_show_steps<D>() -> spec_fn(
    ProjectRequestView,
    EventView<D>,
) -> StepView<ProjectRequestView, D> {
    |s: ProjectRequestView, e: EventView<D>| project_show_step(s, e)
}

/// Where the display of a project stands after `events`.
pub open spec fn project_show_after<D>(
    target: TargetView,
    events: Seq<EventView<D>>,
) -> StepView<ProjectRequestView, D> {
    crate::run::after(project_show_steps(), ProjectRequestView::Start(target), events)
}

/// The display of a project waits for the events that it knows the way on from, and all that can
/// come of its actions is among them. It forbids what access is denied to, passes the errors of
/// services on, and leaves to the server what the server reports by itself.
pub proof fn project_show_manners<D>()
    ensures
        forall|s: ProjectRequestView, e: EventView<D>|
            #![trigger project_show_step(s, e)]
            project_show_steps::<D>()(s, e) == project_show_step(s, e),
        forall|s: ProjectRequestView, e: EventView<D>|
            #[trigger] project_show_awaits(s, e) == !(project_show_step(s, e) is Stray),
        crate::run::prepared(project_show_steps::<D>()),
        crate::run::forbids(project_show_steps::<D>()),
        crate::run::passes_errors_on(project_show_steps::<D>()),
        crate::run::raises(project_show_steps::<D>()),
{
}

/// The first thing that the display of a project asks for is a check of the account's access to the
/// origin, and it gets no further unless access is granted.
pub proof fn project_show_needs_access<D>(target: TargetView, events: Seq<EventView<D>>)
    ensures
        project_show_after(target, Seq::<EventView<D>>::empty()) == StepView::<
            ProjectRequestView,
            D,
        >::Perform(
            ActionView::CheckOriginAccess { account: target.account, origin: target.origin },
            ProjectRequestView::CheckingAccess(target),
        ),
        crate::run::only_with_access(project_show_after(target, events), events),
{
    crate::run::access_comes_first(
        project_show_steps::<D>(),
        ProjectRequestView::Start(target),
        events,
    );
}

/// A project is shown if and only if access was granted and the project was found.
pub proof fn project_show_shown<D>(target: TargetView, events: Seq<EventView<D>>, document: D)
    ensures
        project_show_after(target, events) == StepView::<ProjectRequestView, D>::Respond(
            ResponseView::Json { status: OK, document },
        ) <==> {
            &&& events.len() == 2
            &&& events[0] == EventView::<D>::Access(true)
            &&& events[1] is Project
            &&& events[1]->Project_0.document == document
        },
        project_show_after(target, events) == StepView::<ProjectRequestView, D>::Respond(
            ResponseView::Json { status: OK, document },
        ) ==> crate::run::asked(
            project_show_steps(),
            ProjectRequestView::Start(target),
            events,
            1,
            ActionView::Route(
                MessageView::ProjectGet {
                    name: crate::text::full_name(target.origin, target.name),
                },
            ),
        ),
{
    let steps = project_show_steps::<D>();
    let start = ProjectRequestView::Start(target);
    if events.len() >= 1 {
        crate::run::one_step_on(steps, start, events, 0);
    }
    if events.len() >= 2 {
        crate::run::one_step_on(steps, start, events, 1);
    }
    if events.len() >= 3 && !(project_show_after(target, events) is Stray) {
        crate::run::asked_before(steps, start, events, 2);
    }
}

/// The list of an origin's projects, as a function.
pub open spec fn project_list_steps<D>() -> spec_fn(
    ProjectListView,
    EventView<D>,
) -> StepView<ProjectListView, D> {
    |s: ProjectListView, e: EventView<D>| project_list_step(s, e)
}

/// Where the list of an origin's projects stands after `events`.
pub open spec fn project_list_after<D>(
    account: u64,
    origin: Seq<char>,
    events: Seq<EventView<D>>,
) -> StepView<ProjectListView, D> {
    crate::run::after(project_list_steps(), ProjectListView::Start { account, origin }, events)
}

/// The list of an origin's projects waits for the events that it knows the way on from, and all
/// that can come of its actions is among them. It forbids what access is denied to, passes the
/// errors of services on, and leaves to the server what the server reports by itself.
pub proof fn project_list_manners<D>()
    ensures
        forall|s: ProjectListView, e: EventView<D>|
            #![trigger project_list_step(s, e)]
            project_list_steps::<D>()(s, e) == project_list_step(s, e),
        forall|s: ProjectListView, e: EventView<D>|
            #[trigger] project_list_awaits(s, e) == !(project_list_step(s, e) is Stray),
        crate::run::prepared(project_list_steps::<D>()),
        crate::run::forbids(project_list_steps::<D>()),
        crate::run::passes_errors_on(project_list_steps::<D>()),
        crate::run::raises(project_list_steps::<D>()),
{
}

/// The first thing that the list of an origin's projects asks for is a check of the account's
/// access to the origin, and it gets no further unless access is granted.
pub proof fn project_list_needs_access<D>(
    account: u64,
    origin: Seq<char>,
    events: Seq<EventView<D>>,
)
    ensures
        project_list_after(account, origin, Seq::<EventView<D>>::empty()) == StepView::<
            ProjectListView,
            D,
        >::Perform(
            ActionView::CheckOriginAccess { account, origin },
            ProjectListView::CheckingAccess { origin },
        ),
        crate::run::only_with_access(project_list_after(account, origin, events), events),
{
    crate::run::access_comes_first(
        project_list_steps::<D>(),
        ProjectListView::Start { account, origin },
        events,
    );
}

/// The names of an origin's projects are shown if and only if access was granted and the projects
/// were found.
pub proof fn project_list_shown<D>(
    account: u64,
    origin: Seq<char>,
    events: Seq<EventView<D>>,
    names: Seq<Seq<char>>,
)
    ensures
        project_list_after(account, origin, events) == StepView::<ProjectListView, D>::Respond(
            ResponseView::JsonNames { status: OK, names },
        ) <==> {
            &&& events.len() == 2
            &&& events[0] == EventView::<D>::Access(true)
            &&& events[1] == EventView::<D>::Names(names)
        },
        project_list_after(account, origin, events) == StepView::<ProjectListView, D>::Respond(
            ResponseView::JsonNames { status: OK, names },
        ) ==> crate::run::asked(
            project_list_steps(),
            ProjectListView::Start { account, origin },
            events,
            1,
            ActionView::Route(MessageView::ProjectListGet { origin }),
        ),
{
    let steps = project_list_steps::<D>();
    let start = ProjectListView::Start { account, origin };
    if events.len() >= 1 {
        crate::run::one_step_on(steps, start, events, 0);
    }
    if events.len() >= 2 {
        crate::run::one_step_on(steps, start, events, 1);
    }
    if events.len() >= 3 && !(project_list_after(account, origin, events) is Stray) {
        crate::run::asked_before(steps, start, events, 2);
    }
}

/// The change of a project's visibility is over after four events at the latest.
pub proof fn project_privacy_toggle_ends<D>(
    account: u64,
    origin: Option<Seq<char>>,
    name: Option<Seq<char>>,
    visibility: Option<VisibilityParamView>,
    events: Seq<EventView<D>>,
)
    ensures
        crate::run::after(
            project_privacy_toggle_steps::<D>(),
            ProjectPrivacyToggleView::Start { account, origin, name, visibility },
            events,
        ) is Perform ==> events.len() < 4,
{
    let rank = |s: ProjectPrivacyToggleView<D>|
        match s {
            ProjectPrivacyToggleView::Start { .. } => 4nat,
            ProjectPrivacyToggleView::CheckingAccess { .. } => 3nat,
            ProjectPrivacyToggleView::Fetching { .. } => 2nat,
            ProjectPrivacyToggleView::Transitioning { .. } => 1nat,
            ProjectPrivacyToggleView::Updating => 0nat,
        };
    crate::run::every_step_counts(
        project_privacy_toggle_steps::<D>(),
        rank,
        ProjectPrivacyToggleView::Start { account, origin, name, visibility },
        events,
    );
}

/// The deletion of a project is over after two events at the latest.
pub proof fn project_delete_ends<D>(target: TargetView, events: Seq<EventView<D>>)
    ensures
        crate::run::after(
            project_delete_steps::<D>(),
            ProjectRequestView::Start(target),
            events,
        ) is Perform ==> events.len() < 2,
{
    let rank = |s: ProjectRequestView|
        match s {
            ProjectRequestView::Start(_) => 2nat,
            ProjectRequestView::CheckingAccess(_) => 1nat,
            ProjectRequestView::Sent => 0nat,
        };
    crate::run::every_step_counts(
        project_delete_steps::<D>(),
        rank,
        ProjectRequestView::Start(target),
        events,
    );
}

/// The display of a project is over after two events at the latest.
pub proof fn project_show_ends<D>(target: TargetView, events: Seq<EventView<D>>)
    ensures
        crate::run::after(
            project_show_steps::<D>(),
            ProjectRequestView::Start(target),
            events,
        ) is Perform ==> events.len() < 2,
{
    let rank = |s: ProjectRequestView|
        match s {
            ProjectRequestView::Start(_) => 2nat,
            ProjectRequestView::CheckingAccess(_) => 1nat,
            ProjectRequestView::Sent => 0nat,
        };
    crate::run::every_step_counts(
        project_show_steps::<D>(),
        rank,
        ProjectRequestView::Start(target),
        events,
    );
}

/// The list of an origin's projects is over after two events at the latest.
pub proof fn project_list_ends<D>(account: u64, origin: Seq<char>, events: Seq<EventView<D>>)
    ensures
        crate::run::after(
            project_list_steps::<D>(),
            ProjectListView::Start { account, origin },
            events,
        ) is Perform ==> events.len() < 2,
{
    let rank = |s: ProjectListView|
        match s {
            ProjectListView::Start { .. } => 2nat,
            ProjectListView::CheckingAccess { .. } => 1nat,
            ProjectListView::Fetching => 0nat,
        };
    crate::run::every_step_counts(
        project_list_steps::<D>(),
        rank,
        ProjectListView::Start { account, origin },
        events,
    );
}

} // verus!
