//! Updating a project.

use vstd::prelude::*;
use vstd::string::*;

use crate::types::{
    Action, ActionView, Event, EventView, Message, MessageView, Project, ProjectCreateReq,
    ProjectCreateReqView, ProjectView, Response, ResponseView, Step, StepView, Target, TargetView,
    FORBIDDEN, NO_CONTENT, UNPROCESSABLE_ENTITY,
};

verus! {

/// What is known of an update before the plan has been read.
#[derive(Debug, PartialEq, Eq)]
pub struct Revision<D> {
    pub target: Target,
    /// The project as it is stored.
    pub project: Project<D>,
    pub body: ProjectCreateReq,
    pub clone_url: String,
}

/// What a [`Revision`] holds.
pub struct RevisionView<D> {
    pub target: TargetView,
    pub project: ProjectView<D>,
    pub body: ProjectCreateReqView,
    pub clone_url: Seq<char>,
}

impl<D> View for Revision<D> {
    type V = RevisionView<D>;

    open spec fn view(&self) -> RevisionView<D> {
        RevisionView {
            target: self.target@,
            project: self.project@,
            body: self.body@,
            clone_url: self.clone_url@,
        }
    }
}

/// How far the update of a project has come.
#[derive(Debug, PartialEq, Eq)]
pub enum ProjectUpdate<D> {
    Start(Target),
    CheckingAccess(Target),
    FetchingProject(Target),
    ReadingBody { target: Target, project: Project<D> },
    GettingToken { target: Target, project: Project<D>, body: ProjectCreateReq },
    FindingRepo { target: Target, project: Project<D>, body: ProjectCreateReq, token: String },
    FetchingContents(Revision<D>),
    ParsingPlan(Revision<D>),
    Updating,
}

/// What a [`ProjectUpdate`] holds.
pub enum ProjectUpdateView<D> {
    Start(TargetView),
    CheckingAccess(TargetView),
    FetchingProject(TargetView),
    ReadingBody { target: TargetView, project: ProjectView<D> },
    GettingToken { target: TargetView, project: ProjectView<D>, body: ProjectCreateReqView },
    FindingRepo {
        target: TargetView,
        project: ProjectView<D>,
        body: ProjectCreateReqView,
        token: Seq<char>,
    },
    FetchingContents(RevisionView<D>),
    ParsingPlan(RevisionView<D>),
    Updating,
}

impl<D> View for ProjectUpdate<D> {
    type V = ProjectUpdateView<D>;

    open spec fn view(&self) -> ProjectUpdateView<D> {
        match self {
            ProjectUpdate::Start(target) => ProjectUpdateView::Start(target@),
            ProjectUpdate::CheckingAccess(target) => ProjectUpdateView::CheckingAccess(target@),
            ProjectUpdate::FetchingProject(target) => ProjectUpdateView::FetchingProject(target@),
            ProjectUpdate::ReadingBody { target, project } => ProjectUpdateView::ReadingBody {
                target: target@,
                project: project@,
            },
            ProjectUpdate::GettingToken { target, project, body } => {
                ProjectUpdateView::GettingToken {
                    target: target@,
                    project: project@,
                    body: body@,
                }
            },
            ProjectUpdate::FindingRepo { target, project, body, token } => {
                ProjectUpdateView::FindingRepo {
                    target: target@,
                    project: project@,
                    body: body@,
                    token: token@,
                }
            },
            ProjectUpdate::FetchingContents(revision) => ProjectUpdateView::FetchingContents(
                revision@,
            ),
            ProjectUpdate::ParsingPlan(revision) => ProjectUpdateView::ParsingPlan(revision@),
            ProjectUpdate::Updating => ProjectUpdateView::Updating,
        }
    }
}

/// The project after an update: as it was, but for the fields that an update sets.
pub open spec fn revised<D>(revision: RevisionView<D>) -> ProjectView<D> {
    ProjectView {
        origin_name: revision.target.origin,
        package_name: revision.target.name,
        plan_path: revision.body.plan_path,
        vcs_data: revision.clone_url,
        vcs_installation_id: revision.body.installation_id,
        ..revision.project
    }
}

/// The events that a state of the update waits for.
pub open spec fn project_update_awaits<D>(
    state: ProjectUpdateView<D>,
    event: EventView<D>,
) -> bool {
    match state {
        ProjectUpdateView::Start(_) => event is Begin,
        ProjectUpdateView::CheckingAccess(_) => event is Access || event is Raised,
        ProjectUpdateView::FetchingProject(_) => event is Project || event is Refused,
        ProjectUpdateView::ReadingBody { .. } => event is ProjectBody || event is Failed,
        ProjectUpdateView::GettingToken { .. } => event is Token || event is Failed,
        ProjectUpdateView::FindingRepo { .. } => event is Repo || event is Failed,
        ProjectUpdateView::FetchingContents(_) => event is Contents || event is Failed,
        ProjectUpdateView::ParsingPlan(_) => event is Plan || event is Failed,
        ProjectUpdateView::Updating => event is Done || event is Refused,
    }
}

/// How an update goes on with the bytes of the plan, or without any where they are malformed.
pub open spec fn plan_decoded<D>(
    revision: RevisionView<D>,
    bytes: Option<Seq<u8>>,
) -> StepView<ProjectUpdateView<D>, D> {
    match bytes {
        Some(bytes) => StepView::Perform(
            ActionView::ParsePlan(bytes),
            ProjectUpdateView::ParsingPlan(revision),
        ),
        None => crate::types::unprocessable("rg:pu:4"@),
    }
}

/// How the update of a project goes on.
pub open spec fn project_update_step<D>(
    state: ProjectUpdateView<D>,
    event: EventView<D>,
) -> StepView<ProjectUpdateView<D>, D> {
    match (state, event) {
        (ProjectUpdateView::Start(target), EventView::Begin) => StepView::Perform(
            ActionView::CheckOriginAccess { account: target.account, origin: target.origin },
            ProjectUpdateView::CheckingAccess(target),
        ),
        (ProjectUpdateView::CheckingAccess(target), EventView::Access(allowed)) => {
            if allowed {
                StepView::Perform(
                    ActionView::Route(
                        MessageView::ProjectGet {
                            name: crate::text::full_name(target.origin, target.name),
                        },
                    ),
                    ProjectUpdateView::FetchingProject(target),
                )
            } else {
                StepView::Respond(ResponseView::Status(FORBIDDEN))
            }
        },
        (ProjectUpdateView::CheckingAccess(_), EventView::Raised(error)) => StepView::Raise(error),
        (ProjectUpdateView::FetchingProject(target), EventView::Project(project)) => {
            StepView::Perform(
                ActionView::ReadProjectBody,
                ProjectUpdateView::ReadingBody { target, project },
            )
        },
        (ProjectUpdateView::FetchingProject(_), EventView::Refused(error)) => StepView::Respond(
            ResponseView::NetError(error),
        ),
        (ProjectUpdateView::ReadingBody { target, project }, EventView::ProjectBody(body)) => {
            if body.plan_path.len() == 0 {
                crate::types::unprocessable("Missing value for field: `plan_path`"@)
            } else {
                StepView::Perform(
                    ActionView::AppInstallationToken { installation_id: body.installation_id },
                    ProjectUpdateView::GettingToken { target, project, body },
                )
            }
        },
        (ProjectUpdateView::ReadingBody { .. }, EventView::Failed) => StepView::Respond(
            ResponseView::Status(UNPROCESSABLE_ENTITY),
        ),
        (ProjectUpdateView::GettingToken { target, project, body }, EventView::Token(token)) => {
            StepView::Perform(
                ActionView::FindRepo { token, repo_id: body.repo_id },
                ProjectUpdateView::FindingRepo { target, project, body, token },
            )
        },
        (ProjectUpdateView::GettingToken { .. }, EventView::Failed) => StepView::Respond(
            ResponseView::Status(FORBIDDEN),
        ),
        (
            ProjectUpdateView::FindingRepo { target, project, body, token },
            EventView::Repo(clone_url),
        ) => StepView::Perform(
            ActionView::FetchContents { token, repo_id: body.repo_id, path: body.plan_path },
            ProjectUpdateView::FetchingContents(RevisionView { target, project, body, clone_url }),
        ),
        (ProjectUpdateView::FindingRepo { .. }, EventView::Failed) => {
            crate::types::unprocessable("rg:pu:1"@)
        },
        (ProjectUpdateView::FetchingContents(revision), EventView::Contents(contents)) => {
            plan_decoded(revision, crate::encoding::decoded(contents.content))
        },
        (ProjectUpdateView::FetchingContents(_), EventView::Failed) => {
            crate::types::unprocessable("rg:pu:5"@)
        },
        (ProjectUpdateView::ParsingPlan(revision), EventView::Plan(name)) => {
            if name == revision.target.name {
                StepView::Perform(
                    ActionView::Route(
                        MessageView::ProjectUpdate {
                            requestor: revision.target.account,
                            project: revised(revision),
                        },
                    ),
                    ProjectUpdateView::Updating,
                )
            } else {
                crate::types::unprocessable("rg:pu:2"@)
            }
        },
        (ProjectUpdateView::ParsingPlan(_), EventView::Failed) => {
            crate::types::unprocessable("rg:pu:3"@)
        },
        (ProjectUpdateView::Updating, EventView::Done) => StepView::Respond(
            ResponseView::Status(NO_CONTENT),
        ),
        (ProjectUpdateView::Updating, EventView::Refused(error)) => StepView::Respond(
            ResponseView::NetError(error),
        ),
        _ => StepView::Stray,
    }
}

/// Goes on with an update once the plan has been decoded.
pub fn read_plan<D>(revision: Revision<D>, bytes: Option<Vec<u8>>) -> (step: Step<
    ProjectUpdate<D>,
    D,
>)
    ensures
        step@ == plan_decoded(
            revision@,
            match bytes {
                Some(b) => Some(b@),
                None => None,
            },
        ),
{
    match bytes {
        Some(bytes) => Step::Perform(
            Action::ParsePlan(bytes),
            ProjectUpdate::ParsingPlan(revision),
        ),
        None => Step::Respond(Response::Text { status: UNPROCESSABLE_ENTITY, text: "rg:pu:4" }),
    }
}

/// Updates the given project.
///
/// The project's plan may move within its repository or to another one, but the plan has to go on
/// naming the package that the project is for.
pub fn project_update<D>(state: ProjectUpdate<D>, event: Event<D>) -> (step: Step<
    ProjectUpdate<D>,
    D,
>)
    requires
        project_update_awaits(state@, event@),
        event@ is Contents ==> crate::encoding::decodable_length(event@->Contents_0.content),
    ensures
        step@ == project_update_step(state@, event@),
{
    match (state, event) {
        (ProjectUpdate::Start(target), Event::Begin) => Step::Perform(
            Action::CheckOriginAccess { account: target.account, origin: target.origin.clone() },
            ProjectUpdate::CheckingAccess(target),
        ),
        (ProjectUpdate::CheckingAccess(target), Event::Access(allowed)) => {
            if !allowed {
                return Step::Respond(Response::Status(FORBIDDEN));
            }
            let name = crate::text::project_name(target.origin.as_str(), target.name.as_str());
            Step::Perform(
                Action::Route(Message::ProjectGet { name }),
                ProjectUpdate::FetchingProject(target),
            )
        },
        (ProjectUpdate::CheckingAccess(_), Event::Raised(error)) => Step::Raise(error),
        (ProjectUpdate::FetchingProject(target), Event::Project(project)) => Step::Perform(
            Action::ReadProjectBody,
            ProjectUpdate::ReadingBody { target, project },
        ),
        (ProjectUpdate::FetchingProject(_), Event::Refused(error)) => Step::Respond(
            Response::NetError(error),
        ),
        (ProjectUpdate::ReadingBody { target, project }, Event::ProjectBody(body)) => {
            if body.plan_path.as_str().is_empty() {
                Step::Respond(
                    Response::Text {
                        status: UNPROCESSABLE_ENTITY,
                        text: "Missing value for field: `plan_path`",
                    },
                )
            } else {
                Step::Perform(
                    Action::AppInstallationToken { installation_id: body.installation_id },
                    ProjectUpdate::GettingToken { target, project, body },
                )
            }
        },
        (ProjectUpdate::ReadingBody { .. }, Event::Failed) => Step::Respond(
            Response::Status(UNPROCESSABLE_ENTITY),
        ),
        (ProjectUpdate::GettingToken { target, project, body }, Event::Token(token)) => {
            Step::Perform(
                Action::FindRepo { token: token.clone(), repo_id: body.repo_id },
                ProjectUpdate::FindingRepo { target, project, body, token },
            )
        },
        (ProjectUpdate::GettingToken { .. }, Event::Failed) => Step::Respond(
            Response::Status(FORBIDDEN),
        ),
        (
            ProjectUpdate::FindingRepo { target, project, body, token },
            Event::Repo(clone_url),
        ) => Step::Perform(
            Action::FetchContents { token, repo_id: body.repo_id, path: body.plan_path.clone() },
            ProjectUpdate::FetchingContents(Revision { target, project, body, clone_url }),
        ),
        (ProjectUpdate::FindingRepo { .. }, Event::Failed) => Step::Respond(
            Response::Text { status: UNPROCESSABLE_ENTITY, text: "rg:pu:1" },
        ),
        (ProjectUpdate::FetchingContents(revision), Event::Contents(contents)) => {
            let bytes = match crate::encoding::decode(contents.content.as_str()) {
                Ok(bytes) => Some(bytes),
                Err(_) => None,
            };
            read_plan(revision, bytes)
        },
        (ProjectUpdate::FetchingContents(_), Event::Failed) => Step::Respond(
            Response::Text { status: UNPROCESSABLE_ENTITY, text: "rg:pu:5" },
        ),
        (ProjectUpdate::ParsingPlan(revision), Event::Plan(name)) => {
            if name != revision.target.name {
                return Step::Respond(
                    Response::Text { status: UNPROCESSABLE_ENTITY, text: "rg:pu:2" },
                );
            }
            let project = Project {
                origin_name: revision.target.origin,
                package_name: revision.target.name,
                plan_path: revision.body.plan_path,
                vcs_data: revision.clone_url,
                vcs_installation_id: revision.body.installation_id,
                visibility: revision.project.visibility,
                document: revision.project.document,
            };
            Step::Perform(
                Action::Route(
                    Message::ProjectUpdate { requestor: revision.target.account, project },
                ),
                ProjectUpdate::Updating,
            )
        },
        (ProjectUpdate::ParsingPlan(_), Event::Failed) => Step::Respond(
            Response::Text { status: UNPROCESSABLE_ENTITY, text: "rg:pu:3" },
        ),
        (ProjectUpdate::Updating, Event::Done) => Step::Respond(Response::Status(NO_CONTENT)),
        (ProjectUpdate::Updating, Event::Refused(error)) => Step::Respond(
            Response::NetError(error),
        ),
        _ => vstd::pervasive::unreached(),
    }
}

/// The update of a project, as a function.
pub open spec fn project_update_steps<D>() -> spec_fn(
    ProjectUpdateView<D>,
    EventView<D>,
) -> StepView<ProjectUpdateView<D>, D> {
    |s: ProjectUpdateView<D>, e: EventView<D>| project_update_step(s, e)
}

/// Where the update of a project stands after `events`.
pub open spec fn project_update_after<D>(
    target: TargetView,
    events: Seq<EventView<D>>,
) -> StepView<ProjectUpdateView<D>, D> {
    crate::run::after(project_update_steps(), ProjectUpdateView::Start(target), events)
}

/// The update of a project waits for the events that it knows the way on from, and all that can
/// come of its actions is among them. It forbids what access is denied to, passes the errors of
/// services on, and leaves to the server what the server reports by itself.
pub proof fn project_update_manners<D>()
    ensures
        forall|s: ProjectUpdateView<D>, e: EventView<D>|
            #![trigger project_update_step(s, e)]
            project_update_steps::<D>()(s, e) == project_update_step(s, e),
        forall|s: ProjectUpdateView<D>, e: EventView<D>|
            #[trigger] project_update_awaits(s, e) == !(project_update_step(s, e) is Stray),
        crate::run::prepared(project_update_steps::<D>()),
        crate::run::forbids(project_update_steps::<D>()),
        crate::run::passes_errors_on(project_update_steps::<D>()),
        crate::run::raises(project_update_steps::<D>()),
{
}

/// The first thing that an update asks for is a check of the account's access to the project's
/// origin, and it gets no further unless access is granted.
pub proof fn project_update_needs_access<D>(target: TargetView, events: Seq<EventView<D>>)
    ensures
        project_update_after(target, Seq::<EventView<D>>::empty()) == StepView::<
            ProjectUpdateView<D>,
            D,
        >::Perform(
            ActionView::CheckOriginAccess { account: target.account, origin: target.origin },
            ProjectUpdateView::CheckingAccess(target),
        ),
        crate::run::only_with_access(project_update_after(target, events), events),
{
    crate::run::access_comes_first(
        project_update_steps(),
        ProjectUpdateView::Start(target),
        events,
    );
}

/// The project after the update, put together from what has come.
pub open spec fn updated_project<D>(target: TargetView, events: Seq<EventView<D>>) -> ProjectView<
    D,
> {
    ProjectView {
        origin_name: target.origin,
        package_name: target.name,
        plan_path: events[2]->ProjectBody_0.plan_path,
        vcs_data: events[4]->Repo_0,
        vcs_installation_id: events[2]->ProjectBody_0.installation_id,
        ..events[1]->Project_0
    }
}

/// The message that stores the update.
pub open spec fn update_asked_for<D>(target: TargetView, events: Seq<EventView<D>>) -> MessageView<
    D,
> {
    MessageView::ProjectUpdate {
        requestor: target.account,
        project: updated_project(target, events),
    }
}

/// Action number `k` of the update of a project: they come in a fixed order, as long as all goes
/// well.
pub open spec fn update_action<D>(
    target: TargetView,
    events: Seq<EventView<D>>,
    k: int,
) -> ActionView<D> {
    let body = events[2]->ProjectBody_0;
    let token = events[3]->Token_0;
    if k == 0 {
        ActionView::CheckOriginAccess { account: target.account, origin: target.origin }
    } else if k == 1 {
        ActionView::Route(
            MessageView::ProjectGet { name: crate::text::full_name(target.origin, target.name) },
        )
    } else if k == 2 {
        ActionView::ReadProjectBody
    } else if k == 3 {
        ActionView::AppInstallationToken { installation_id: body.installation_id }
    } else if k == 4 {
        ActionView::FindRepo { token, repo_id: body.repo_id }
    } else if k == 5 {
        ActionView::FetchContents { token, repo_id: body.repo_id, path: body.plan_path }
    } else if k == 6 {
        ActionView::ParsePlan(crate::encoding::decoded(events[5]->Contents_0.content)->Some_0)
    } else {
        ActionView::Route(update_asked_for(target, events))
    }
}

/// Action number `k` went well if `event` came of it. For the plan's file this means that it is
/// base64, and for the plan that it names the package that the project is for.
pub open spec fn update_went_well<D>(target: TargetView, k: int, event: EventView<D>) -> bool {
    if k == 0 {
        event == EventView::<D>::Access(true)
    } else if k == 1 {
        event is Project
    } else if k == 2 {
        event matches EventView::ProjectBody(body) && body.plan_path.len() > 0
    } else if k == 3 {
        event is Token
    } else if k == 4 {
        event is Repo
    } else if k == 5 {
        event matches EventView::Contents(contents) && crate::encoding::decoded(
            contents.content,
        ) is Some
    } else if k == 6 {
        event == EventView::<D>::Plan(target.name)
    } else {
        event is Done
    }
}

/// How the run ends when `event` came of action number `k`, which therefore did not go well.
pub open spec fn update_setback<D>(k: int, event: EventView<D>) -> StepView<
    ProjectUpdateView<D>,
    D,
> {
    match event {
        EventView::Access(_) => StepView::Respond(ResponseView::Status(FORBIDDEN)),
        EventView::Raised(error) => StepView::Raise(error),
        EventView::Refused(error) => StepView::Respond(ResponseView::NetError(error)),
        EventView::ProjectBody(_) => crate::types::unprocessable(
            "Missing value for field: `plan_path`"@,
        ),
        EventView::Contents(_) => crate::types::unprocessable("rg:pu:4"@),
        EventView::Plan(_) => crate::types::unprocessable("rg:pu:2"@),
        _ => if k == 2 {
            StepView::Respond(ResponseView::Status(UNPROCESSABLE_ENTITY))
        } else if k == 3 {
            StepView::Respond(ResponseView::Status(FORBIDDEN))
        } else if k == 4 {
            crate::types::unprocessable("rg:pu:1"@)
        } else if k == 5 {
            crate::types::unprocessable("rg:pu:5"@)
        } else {
            crate::types::unprocessable("rg:pu:3"@)
        },
    }
}

/// All actions went well that `events` came of.
pub open spec fn update_all_well<D>(target: TargetView, events: Seq<EventView<D>>) -> bool {
    &&& events.len() <= 8
    &&& forall|k: int| 0 <= k < events.len() ==> update_went_well(target, k, #[trigger] events[k])
}

spec fn update_state<D>(target: TargetView, events: Seq<EventView<D>>) -> ProjectUpdateView<D> {
    let project = events[1]->Project_0;
    let body = events[2]->ProjectBody_0;
    let token = events[3]->Token_0;
    let revision = RevisionView { target, project, body, clone_url: events[4]->Repo_0 };
    let n = events.len();
    if n == 0 {
        ProjectUpdateView::CheckingAccess(target)
    } else if n == 1 {
        ProjectUpdateView::FetchingProject(target)
    } else if n == 2 {
        ProjectUpdateView::ReadingBody { target, project }
    } else if n == 3 {
        ProjectUpdateView::GettingToken { target, project, body }
    } else if n == 4 {
        ProjectUpdateView::FindingRepo { target, project, body, token }
    } else if n == 5 {
        ProjectUpdateView::FetchingContents(revision)
    } else if n == 6 {
        ProjectUpdateView::ParsingPlan(revision)
    } else {
        ProjectUpdateView::Updating
    }
}

proof fn lemma_update_progress<D>(target: TargetView, events: Seq<EventView<D>>)
    ensures
        project_update_after(target, events) is Perform <==> events.len() < 8 && update_all_well(
            target,
            events,
        ),
        project_update_after(target, events) is Perform ==> project_update_after(target, events)
            == StepView::<ProjectUpdateView<D>, D>::Perform(
            update_action(target, events, events.len() as int),
            update_state(target, events),
        ),
    decreases events.len(),
{
    if events.len() > 0 {
        let shorter = events.drop_last();
        let n = shorter.len() as int;
        lemma_update_progress(target, shorter);
        assert(forall|k: int| 0 <= k < n ==> shorter[k] == events[k]);
        if update_all_well(target, events) {
            assert(update_went_well(target, n, events[n]));
        } else if n < 7 && update_all_well(target, shorter) {
            let k = choose|k: int|
                0 <= k < events.len() && !update_went_well(target, k, #[trigger] events[k]);
            if k < n {
                assert(update_went_well(target, k, shorter[k]));
            }
            assert(k == n);
        }
    }
}

/// The update of a project in full. As long as all goes well, the actions follow one another in
/// their order; when the last one went well, the answer says that the update is done. When
/// something does not go well, the run ends at once, and its end tells what it was.
pub proof fn project_update_script<D>(target: TargetView, events: Seq<EventView<D>>)
    ensures
        update_all_well(target, events) && events.len() < 8 ==> project_update_after(target, events)
            is Perform && project_update_after(target, events)->Perform_0 == update_action(
            target,
            events,
            events.len() as int,
        ),
        update_all_well(target, events) && events.len() == 8 ==> project_update_after(
            target,
            events,
        ) == StepView::<ProjectUpdateView<D>, D>::Respond(ResponseView::Status(NO_CONTENT)),
        0 < events.len() <= 8 && update_all_well(target, events.drop_last()) && !update_went_well(
            target,
            events.len() - 1,
            events.last(),
        ) && crate::run::reports(
            update_action(target, events, events.len() - 1),
            events.last(),
        ) ==> project_update_after(target, events) == update_setback(
            events.len() - 1,
            events.last(),
        ),
{
    lemma_update_progress(target, events);
    if events.len() > 0 {
        let shorter = events.drop_last();
        let n = shorter.len() as int;
        assert(forall|k: int| 0 <= k < n ==> shorter[k] == events[k]);
        if update_all_well(target, events) {
            assert forall|k: int| 0 <= k < n implies update_went_well(
                target,
                k,
                #[trigger] shorter[k],
            ) by {
                assert(update_went_well(target, k, events[k]));
            }
            assert(update_went_well(target, n, events[n]));
        }
        lemma_update_progress(target, shorter);
    }
}

/// An update is reported as done if and only if all went well: access was granted, the project was
/// found, the body held a plan's path, GitHub gave a token, the repository and the plan's file, the
/// file could be decoded and read, the plan names the project's package, and the update was stored.
/// What was stored is then the project as it was, with the fields set that an update sets, on
/// behalf of the account; and the name of its package stays.
pub proof fn project_update_updated<D>(target: TargetView, events: Seq<EventView<D>>)
    ensures
        ({
            let done = project_update_after(target, events) == StepView::<
                ProjectUpdateView<D>,
                D,
            >::Respond(ResponseView::Status(NO_CONTENT));
            &&& done <==> events.len() == 8 && update_all_well(target, events)
            &&& done ==> crate::run::asked(
                project_update_steps(),
                ProjectUpdateView::Start(target),
                events,
                7,
                ActionView::Route(update_asked_for(target, events)),
            )
        }),
{
    project_update_script(target, events);
    lemma_update_progress(target, events);
    if project_update_after(target, events) == StepView::<ProjectUpdateView<D>, D>::Respond(
        ResponseView::Status(NO_CONTENT),
    ) {
        let shorter = events.drop_last();
        lemma_update_progress(target, shorter);
        assert forall|k: int| 0 <= k < events.len() implies update_went_well(
            target,
            k,
            #[trigger] events[k],
        ) by {
            if k < shorter.len() {
                assert(update_went_well(target, k, shorter[k]));
            }
        }
        crate::run::asked_before(
            project_update_steps(),
            ProjectUpdateView::Start(target),
            events,
            7,
        );
        lemma_update_progress(target, events.take(7));
        assert(forall|k: int| 0 <= k < 7 ==> events.take(7)[k] == events[k]);
    }
}

/// Updating twice is updating once. When an update is done and the same request comes again, with
/// the same replies, and with the project as the first update stored it, the second update stores
/// the very same project on behalf of the same account.
pub proof fn project_update_twice<D>(
    target: TargetView,
    first: Seq<EventView<D>>,
    second: Seq<EventView<D>>,
)
    requires
        project_update_after(target, first) == StepView::<ProjectUpdateView<D>, D>::Respond(
            ResponseView::Status(NO_CONTENT),
        ),
        second.len() == 7,
        second[1] == EventView::<D>::Project(updated_project(target, first)),
        forall|k: int| 0 <= k < 7 && k != 1 ==> #[trigger] second[k] == first[k],
    ensures
        crate::run::asked(
            project_update_steps(),
            ProjectUpdateView::Start(target),
            first,
            7,
            ActionView::Route(
                MessageView::ProjectUpdate {
                    requestor: target.account,
                    project: updated_project(target, first),
                },
            ),
        ),
        project_update_after(target, second) is Perform,
        project_update_after(target, second)->Perform_0 == ActionView::<D>::Route(
            MessageView::ProjectUpdate {
                requestor: target.account,
                project: updated_project(target, first),
            },
        ),
{
    project_update_updated(target, first);
    assert forall|k: int| 0 <= k < second.len() implies update_went_well(
        target,
        k,
        #[trigger] second[k],
    ) by {
        assert(update_went_well(target, k, first[k]));
    }
    project_update_script(target, second);
}

/// What an update sets does not depend on the project as it was: of two updates whose requests and
/// replies are the same but for the stored project, both store the same fields on behalf of the
/// same account, each next to what else its project held.
pub proof fn project_update_sets_the_same<D>(
    target: TargetView,
    one: Seq<EventView<D>>,
    other: Seq<EventView<D>>,
)
    requires
        project_update_after(target, one) == StepView::<ProjectUpdateView<D>, D>::Respond(
            ResponseView::Status(NO_CONTENT),
        ),
        other.len() == one.len(),
        other[1] is Project,
        forall|k: int| 0 <= k < one.len() && k != 1 ==> #[trigger] other[k] == one[k],
    ensures
        project_update_after(target, other) == StepView::<ProjectUpdateView<D>, D>::Respond(
            ResponseView::Status(NO_CONTENT),
        ),
        crate::run::asked(
            project_update_steps(),
            ProjectUpdateView::Start(target),
            other,
            7,
            ActionView::Route(
                MessageView::ProjectUpdate {
                    requestor: target.account,
                    project: ProjectView {
                        visibility: other[1]->Project_0.visibility,
                        document: other[1]->Project_0.document,
                        ..updated_project(target, one)
                    },
                },
            ),
        ),
{
    project_update_updated(target, one);
    assert forall|k: int| 0 <= k < other.len() implies update_went_well(
        target,
        k,
        #[trigger] other[k],
    ) by {
        assert(update_went_well(target, k, one[k]));
    }
    project_update_updated(target, other);
}

/// The two events are the same, but for the origin where they are bodies.
pub open spec fn same_but_origin<D>(one: EventView<D>, other: EventView<D>) -> bool {
    match (one, other) {
        (EventView::ProjectBody(a), EventView::ProjectBody(b)) => {
            &&& a.plan_path == b.plan_path
            &&& a.installation_id == b.installation_id
            &&& a.repo_id == b.repo_id
        },
        _ => one == other,
    }
}

/// The origin that the request's body names has no influence on an update: two requests that differ
/// in nothing else ask for the same actions and end alike.
pub proof fn project_update_ignores_origin<D>(
    target: TargetView,
    one: Seq<EventView<D>>,
    other: Seq<EventView<D>>,
)
    requires
        one.len() == other.len(),
        forall|k: int| 0 <= k < one.len() ==> same_but_origin(#[trigger] one[k], other[k]),
    ensures
        match project_update_after(target, one) {
            StepView::Perform(action, _) => project_update_after(target, other) is Perform
                && project_update_after(target, other)->Perform_0 == action,
            end => project_update_after(target, other) == end,
        },
    decreases one.len(),
{
    lemma_update_progress(target, one);
    lemma_update_progress(target, other);
    if one.len() > 0 {
        let n = one.len() - 1;
        assert(same_but_origin(one[n], other[n]));
        assert forall|k: int| 0 <= k < n implies same_but_origin(
            #[trigger] one.drop_last()[k],
            other.drop_last()[k],
        ) by {
            assert(same_but_origin(one[k], other[k]));
        }
        project_update_ignores_origin(target, one.drop_last(), other.drop_last());
        lemma_update_progress(target, one.drop_last());
        lemma_update_progress(target, other.drop_last());
    }
}

/// An update is over after eight events at the latest.
pub proof fn project_update_ends<D>(target: TargetView, events: Seq<EventView<D>>)
    ensures
        project_update_after(target, events) is Perform ==> events.len() < 8,
{
    lemma_update_progress(target, events);
}

} // verus!
