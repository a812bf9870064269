//! Creating a project.

use vstd::prelude::*;
use vstd::string::*;

use crate::types::{
    Action, ActionView, Event, EventView, LogEntry, LogEntryView, Message, MessageView, NewProject,
    NewProjectView, Origin, OriginView, ProjectCreateReq, ProjectCreateReqView, Response,
    ResponseView, Step, StepView, CREATED, FORBIDDEN, UNPROCESSABLE_ENTITY,
};

verus! {

/// What is known of a project before its plan has been read.
#[derive(Debug, PartialEq, Eq)]
pub struct Draft {
    pub account: u64,
    pub body: ProjectCreateReq,
    pub clone_url: String,
    pub origin: Origin,
}

/// What a [`Draft`] holds.
pub struct DraftView {
    pub account: u64,
    pub body: ProjectCreateReqView,
    pub clone_url: Seq<char>,
    pub origin: OriginView,
}

impl View for Draft {
    type V = DraftView;

    open spec fn view(&self) -> DraftView {
        DraftView {
            account: self.account,
            body: self.body@,
            clone_url: self.clone_url@,
            origin: self.origin@,
        }
    }
}

/// How far the creation of a project has come.
#[derive(Debug, PartialEq, Eq)]
pub enum ProjectCreate<D> {
    Start { account: u64 },
    ReadingBody { account: u64 },
    CheckingAccess { account: u64, body: ProjectCreateReq },
    GettingToken { account: u64, body: ProjectCreateReq },
    FindingRepo { account: u64, body: ProjectCreateReq, token: String },
    FetchingOrigin { account: u64, body: ProjectCreateReq, token: String, clone_url: String },
    FetchingContents(Draft),
    Decoding(Draft),
    ParsingPlan(Draft),
    Creating { account: u64, origin_name: String },
    Recording { document: D },
}

/// What a [`ProjectCreate`] holds.
pub enum ProjectCreateView<D> {
    Start { account: u64 },
    ReadingBody { account: u64 },
    CheckingAccess { account: u64, body: ProjectCreateReqView },
    GettingToken { account: u64, body: ProjectCreateReqView },
    FindingRepo { account: u64, body: ProjectCreateReqView, token: Seq<char> },
    FetchingOrigin {
        account: u64,
        body: ProjectCreateReqView,
        token: Seq<char>,
        clone_url: Seq<char>,
    },
    FetchingContents(DraftView),
    Decoding(DraftView),
    ParsingPlan(DraftView),
    Creating { account: u64, origin_name: Seq<char> },
    Recording { document: D },
}

impl<D> View for ProjectCreate<D> {
    type V = ProjectCreateView<D>;

    open spec fn view(&self) -> ProjectCreateView<D> {
        match self {
            ProjectCreate::Start { account } => ProjectCreateView::Start { account: *account },
            ProjectCreate::ReadingBody { account } => ProjectCreateView::ReadingBody {
                account: *account,
            },
            ProjectCreate::CheckingAccess { account, body } => ProjectCreateView::CheckingAccess {
                account: *account,
                body: body@,
            },
            ProjectCreate::GettingToken { account, body } => ProjectCreateView::GettingToken {
                account: *account,
                body: body@,
            },
            ProjectCreate::FindingRepo { account, body, token } => ProjectCreateView::FindingRepo {
                account: *account,
                body: body@,
                token: token@,
            },
            ProjectCreate::FetchingOrigin { account, body, token, clone_url } => {
                ProjectCreateView::FetchingOrigin {
                    account: *account,
                    body: body@,
                    token: token@,
                    clone_url: clone_url@,
                }
            },
            ProjectCreate::FetchingContents(draft) => ProjectCreateView::FetchingContents(draft@),
            ProjectCreate::Decoding(draft) => ProjectCreateView::Decoding(draft@),
            ProjectCreate::ParsingPlan(draft) => ProjectCreateView::ParsingPlan(draft@),
            ProjectCreate::Creating { account, origin_name } => ProjectCreateView::Creating {
                account: *account,
                origin_name: origin_name@,
            },
            ProjectCreate::Recording { document } => ProjectCreateView::Recording {
                document: *document,
            },
        }
    }
}

/// The number of a project that has not been stored yet.
pub const UNSTORED_ID: u64 = 0;

/// The project that comes of a draft and the name in its plan: it belongs to the account that asks
/// for it and has the visibility that its origin gives to packages.
pub open spec fn drafted(draft: DraftView, plan_name: Seq<char>) -> NewProjectView {
    NewProjectView {
        origin_name: draft.origin.name,
        origin_id: draft.origin.id,
        package_name: crate::text::unquoted(plan_name),
        plan_path: draft.body.plan_path,
        owner_id: draft.account,
        vcs_type: "git"@,
        vcs_data: draft.clone_url,
        vcs_installation_id: draft.body.installation_id,
        visibility: draft.origin.default_package_visibility,
    }
}

/// The events that a state of the creation waits for.
pub open spec fn project_create_awaits<D>(
    state: ProjectCreateView<D>,
    event: EventView<D>,
) -> bool {
    match state {
        ProjectCreateView::Start { .. } => event is Begin,
        ProjectCreateView::ReadingBody { .. } => event is ProjectBody || event is Failed,
        ProjectCreateView::CheckingAccess { .. } => event is Access || event is Raised,
        ProjectCreateView::GettingToken { .. } => event is Token || event is Failed,
        ProjectCreateView::FindingRepo { .. } => event is Repo || event is Failed,
        ProjectCreateView::FetchingOrigin { .. } => event is Origin || event is Refused,
        ProjectCreateView::FetchingContents(_) => event is Contents || event is Failed,
        ProjectCreateView::Decoding(_) => event is Bytes || event is Failed,
        ProjectCreateView::ParsingPlan(_) => event is Plan || event is Failed,
        ProjectCreateView::Creating { .. } => event is Document || event is Refused,
        ProjectCreateView::Recording { .. } => event is Done,
    }
}

/// How the creation of a project goes on.
pub open spec fn project_create_step<D>(
    state: ProjectCreateView<D>,
    event: EventView<D>,
) -> StepView<ProjectCreateView<D>, D> {
    match (state, event) {
        (ProjectCreateView::Start { account }, EventView::Begin) => StepView::Perform(
            ActionView::ReadProjectBody,
            ProjectCreateView::ReadingBody { account },
        ),
        (ProjectCreateView::ReadingBody { account }, EventView::ProjectBody(body)) => {
            if body.origin.len() == 0 {
                crate::types::unprocessable("Missing value for field: `origin`"@)
            } else if body.plan_path.len() == 0 {
                crate::types::unprocessable("Missing value for field: `plan_path`"@)
            } else {
                StepView::Perform(
                    ActionView::CheckOriginAccess { account, origin: body.origin },
                    ProjectCreateView::CheckingAccess { account, body },
                )
            }
        },
        (ProjectCreateView::ReadingBody { .. }, EventView::Failed) => StepView::Respond(
            ResponseView::Status(UNPROCESSABLE_ENTITY),
        ),
        (ProjectCreateView::CheckingAccess { account, body }, EventView::Access(allowed)) => {
            if allowed {
                StepView::Perform(
                    ActionView::AppInstallationToken { installation_id: body.installation_id },
                    ProjectCreateView::GettingToken { account, body },
                )
            } else {
                StepView::Respond(ResponseView::Status(FORBIDDEN))
            }
        },
        (ProjectCreateView::CheckingAccess { .. }, EventView::Raised(error)) => StepView::Raise(
            error,
        ),
        (ProjectCreateView::GettingToken { account, body }, EventView::Token(token)) => {
            StepView::Perform(
                ActionView::FindRepo { token, repo_id: body.repo_id },
                ProjectCreateView::FindingRepo { account, body, token },
            )
        },
        (ProjectCreateView::GettingToken { .. }, EventView::Failed) => StepView::Respond(
            ResponseView::Status(FORBIDDEN),
        ),
        (ProjectCreateView::FindingRepo { account, body, token }, EventView::Repo(clone_url)) => {
            StepView::Perform(
                ActionView::Route(MessageView::OriginGet { name: body.origin }),
                ProjectCreateView::FetchingOrigin { account, body, token, clone_url },
            )
        },
        (ProjectCreateView::FindingRepo { .. }, EventView::Failed) => {
            crate::types::unprocessable("rg:pc:1"@)
        },
        (
            ProjectCreateView::FetchingOrigin { account, body, token, clone_url },
            EventView::Origin(origin),
        ) => StepView::Perform(
            ActionView::FetchContents { token, repo_id: body.repo_id, path: body.plan_path },
            ProjectCreateView::FetchingContents(DraftView { account, body, clone_url, origin }),
        ),
        (ProjectCreateView::FetchingOrigin { .. }, EventView::Refused(error)) => {
            StepView::Respond(ResponseView::NetError(error))
        },
        (ProjectCreateView::FetchingContents(draft), EventView::Contents(contents)) => {
            StepView::Perform(
                ActionView::DecodeContents(contents.document),
                ProjectCreateView::Decoding(draft),
            )
        },
        (ProjectCreateView::FetchingContents(_), EventView::Failed) => {
            crate::types::unprocessable("rg:pc:2"@)
        },
        (ProjectCreateView::Decoding(draft), EventView::Bytes(bytes)) => StepView::Perform(
            ActionView::ParsePlan(bytes),
            ProjectCreateView::ParsingPlan(draft),
        ),
        (ProjectCreateView::Decoding(_), EventView::Failed) => {
            crate::types::unprocessable("rg:pc:4"@)
        },
        (ProjectCreateView::ParsingPlan(draft), EventView::Plan(name)) => StepView::Perform(
            ActionView::Route(MessageView::ProjectCreate(drafted(draft, name))),
            ProjectCreateView::Creating { account: draft.account, origin_name: draft.origin.name },
        ),
        (ProjectCreateView::ParsingPlan(_), EventView::Failed) => {
            crate::types::unprocessable("rg:pc:3"@)
        },
        (
            ProjectCreateView::Creating { account, origin_name },
            EventView::Document(document),
        ) => StepView::Perform(
            ActionView::Record(
                LogEntryView::ProjectCreate {
                    origin: origin_name,
                    package: crate::text::decimal(UNSTORED_ID as nat),
                    account: crate::text::decimal(account as nat),
                },
            ),
            ProjectCreateView::Recording { document },
        ),
        (ProjectCreateView::Creating { .. }, EventView::Refused(error)) => StepView::Respond(
            ResponseView::NetError(error),
        ),
        (ProjectCreateView::Recording { document }, EventView::Done) => StepView::Respond(
            ResponseView::Json { status: CREATED, document },
        ),
        _ => StepView::Stray,
    }
}

/// Creates a new project as the authenticated user and associated to the given origin.
///
/// The request's body names the origin, the plan's place in a GitHub repository, and the
/// installation of the GitHub app that opens the repository. The project takes its name from the
/// plan.
pub fn project_create<D>(state: ProjectCreate<D>, event: Event<D>) -> (step: Step<
    ProjectCreate<D>,
    D,
>)
    requires
        project_create_awaits(state@, event@),
    ensures
        step@ == project_create_step(state@, event@),
{
    match (state, event) {
        (ProjectCreate::Start { account }, Event::Begin) => Step::Perform(
            Action::ReadProjectBody,
            ProjectCreate::ReadingBody { account },
        ),
        (ProjectCreate::ReadingBody { account }, Event::ProjectBody(body)) => {
            if body.origin.as_str().is_empty() {
                Step::Respond(
                    Response::Text {
                        status: UNPROCESSABLE_ENTITY,
                        text: "Missing value for field: `origin`",
                    },
                )
            } else if body.plan_path.as_str().is_empty() {
                Step::Respond(
                    Response::Text {
                        status: UNPROCESSABLE_ENTITY,
                        text: "Missing value for field: `plan_path`",
                    },
                )
            } else {
                Step::Perform(
                    Action::CheckOriginAccess { account, origin: body.origin.clone() },
                    ProjectCreate::CheckingAccess { account, body },
                )
            }
        },
        (ProjectCreate::ReadingBody { .. }, Event::Failed) => Step::Respond(
            Response::Status(UNPROCESSABLE_ENTITY),
        ),
        (ProjectCreate::CheckingAccess { account, body }, Event::Access(allowed)) => {
            if !allowed {
                return Step::Respond(Response::Status(FORBIDDEN));
            }
            Step::Perform(
                Action::AppInstallationToken { installation_id: body.installation_id },
                ProjectCreate::GettingToken { account, body },
            )
        },
        (ProjectCreate::CheckingAccess { .. }, Event::Raised(error)) => Step::Raise(error),
        (ProjectCreate::GettingToken { account, body }, Event::Token(token)) => Step::Perform(
            Action::FindRepo { token: token.clone(), repo_id: body.repo_id },
            ProjectCreate::FindingRepo { account, body, token },
        ),
        (ProjectCreate::GettingToken { .. }, Event::Failed) => Step::Respond(
            Response::Status(FORBIDDEN),
        ),
        (ProjectCreate::FindingRepo { account, body, token }, Event::Repo(clone_url)) => {
            Step::Perform(
                Action::Route(Message::OriginGet { name: body.origin.clone() }),
                ProjectCreate::FetchingOrigin { account, body, token, clone_url },
            )
        },
        (ProjectCreate::FindingRepo { .. }, Event::Failed) => Step::Respond(
            Response::Text { status: UNPROCESSABLE_ENTITY, text: "rg:pc:1" },
        ),
        (
            ProjectCreate::FetchingOrigin { account, body, token, clone_url },
            Event::Origin(origin),
        ) => Step::Perform(
            Action::FetchContents { token, repo_id: body.repo_id, path: body.plan_path.clone() },
            ProjectCreate::FetchingContents(Draft { account, body, clone_url, origin }),
        ),
        (ProjectCreate::FetchingOrigin { .. }, Event::Refused(error)) => Step::Respond(
            Response::NetError(error),
        ),
        (ProjectCreate::FetchingContents(draft), Event::Contents(contents)) => Step::Perform(
            Action::DecodeContents(contents.document),
            ProjectCreate::Decoding(draft),
        ),
        (ProjectCreate::FetchingContents(_), Event::Failed) => Step::Respond(
            Response::Text { status: UNPROCESSABLE_ENTITY, text: "rg:pc:2" },
        ),
        (ProjectCreate::Decoding(draft), Event::Bytes(bytes)) => Step::Perform(
            Action::ParsePlan(bytes),
            ProjectCreate::ParsingPlan(draft),
        ),
        (ProjectCreate::Decoding(_), Event::Failed) => Step::Respond(
            Response::Text { status: UNPROCESSABLE_ENTITY, text: "rg:pc:4" },
        ),
        (ProjectCreate::ParsingPlan(draft), Event::Plan(name)) => {
            let project = NewProject {
                origin_name: draft.origin.name.clone(),
                origin_id: draft.origin.id,
                package_name: crate::text::unquote(name.as_str()),
                plan_path: draft.body.plan_path,
                owner_id: draft.account,
                vcs_type: String::from_str("git"),
                vcs_data: draft.clone_url,
                vcs_installation_id: draft.body.installation_id,
                visibility: draft.origin.default_package_visibility,
            };
            Step::Perform(
                Action::Route(Message::ProjectCreate(project)),
                ProjectCreate::Creating { account: draft.account, origin_name: draft.origin.name },
            )
        },
        (ProjectCreate::ParsingPlan(_), Event::Failed) => Step::Respond(
            Response::Text { status: UNPROCESSABLE_ENTITY, text: "rg:pc:3" },
        ),
        (ProjectCreate::Creating { account, origin_name }, Event::Document(document)) => {
            let entry = LogEntry::ProjectCreate {
                origin: origin_name,
                package: crate::text::decimal_text(UNSTORED_ID),
                account: crate::text::decimal_text(account),
            };
            Step::Perform(Action::Record(entry), ProjectCreate::Recording { document })
        },
        (ProjectCreate::Creating { .. }, Event::Refused(error)) => Step::Respond(
            Response::NetError(error),
        ),
        (ProjectCreate::Recording { document }, Event::Done) => Step::Respond(
            Response::Json { status: CREATED, document },
        ),
        _ => vstd::pervasive::unreached(),
    }
}

/// The creation of a project, as a function.
pub open spec fn project_create_steps<D>() -> spec_fn(
    ProjectCreateView<D>,
    EventView<D>,
) -> StepView<ProjectCreateView<D>, D> {
    |s: ProjectCreateView<D>, e: EventView<D>| project_create_step(s, e)
}

/// Where the creation of a project by `account` stands after `events`.
pub open spec fn project_create_after<D>(account: u64, events: Seq<EventView<D>>) -> StepView<
    ProjectCreateView<D>,
    D,
> {
    crate::run::after(project_create_steps(), ProjectCreateView::Start { account }, events)
}

/// The creation of a project waits for the events that it knows the way on from, and all that can
/// come of its actions is among them. It forbids what access is denied to, passes the errors of
/// services on, and leaves to the server what the server reports by itself.
pub proof fn project_create_manners<D>()
    ensures
        forall|s: ProjectCreateView<D>, e: EventView<D>|
            #![trigger project_create_step(s, e)]
            project_create_steps::<D>()(s, e) == project_create_step(s, e),
        forall|s: ProjectCreateView<D>, e: EventView<D>|
            #[trigger] project_create_awaits(s, e) == !(project_create_step(s, e) is Stray),
        crate::run::prepared(project_create_steps::<D>()),
        crate::run::forbids(project_create_steps::<D>()),
        crate::run::passes_errors_on(project_create_steps::<D>()),
        crate::run::raises(project_create_steps::<D>()),
{
}

/// The creation of a project by `account` asked for `action` before its event number `k` came.
pub open spec fn project_create_asked<D>(
    account: u64,
    events: Seq<EventView<D>>,
    k: int,
    action: ActionView<D>,
) -> bool {
    crate::run::asked(
        project_create_steps(),
        ProjectCreateView::Start { account },
        events,
        k,
        action,
    )
}

/// The project that `account` asks for, put together from what has come.
pub open spec fn project_asked_for<D>(account: u64, events: Seq<EventView<D>>) -> NewProjectView {
    NewProjectView {
        origin_name: events[4]->Origin_0.name,
        origin_id: events[4]->Origin_0.id,
        package_name: crate::text::unquoted(events[7]->Plan_0),
        plan_path: events[0]->ProjectBody_0.plan_path,
        owner_id: account,
        vcs_type: "git"@,
        vcs_data: events[3]->Repo_0,
        vcs_installation_id: events[0]->ProjectBody_0.installation_id,
        visibility: events[4]->Origin_0.default_package_visibility,
    }
}

/// Action number `k` of the creation of a project: they come in a fixed order, as long as all goes
/// well.
pub open spec fn create_action<D>(account: u64, events: Seq<EventView<D>>, k: int) -> ActionView<
    D,
> {
    let body = events[0]->ProjectBody_0;
    let token = events[2]->Token_0;
    if k == 0 {
        ActionView::ReadProjectBody
    } else if k == 1 {
        ActionView::CheckOriginAccess { account, origin: body.origin }
    } else if k == 2 {
        ActionView::AppInstallationToken { installation_id: body.installation_id }
    } else if k == 3 {
        ActionView::FindRepo { token, repo_id: body.repo_id }
    } else if k == 4 {
        ActionView::Route(MessageView::OriginGet { name: body.origin })
    } else if k == 5 {
        ActionView::FetchContents { token, repo_id: body.repo_id, path: body.plan_path }
    } else if k == 6 {
        ActionView::DecodeContents(events[5]->Contents_0.document)
    } else if k == 7 {
        ActionView::ParsePlan(events[6]->Bytes_0)
    } else if k == 8 {
        ActionView::Route(MessageView::ProjectCreate(project_asked_for(account, events)))
    } else {
        ActionView::Record(
            LogEntryView::ProjectCreate {
                origin: events[4]->Origin_0.name,
                package: crate::text::decimal(UNSTORED_ID as nat),
                account: crate::text::decimal(account as nat),
            },
        )
    }
}

/// Action number `k` went well if `event` came of it.
pub open spec fn create_went_well<D>(k: int, event: EventView<D>) -> bool {
    if k == 0 {
        event matches EventView::ProjectBody(body) && body.origin.len() > 0 && body.plan_path.len()
            > 0
    } else if k == 1 {
        event == EventView::<D>::Access(true)
    } else if k == 2 {
        event is Token
    } else if k == 3 {
        event is Repo
    } else if k == 4 {
        event is Origin
    } else if k == 5 {
        event is Contents
    } else if k == 6 {
        event is Bytes
    } else if k == 7 {
        event is Plan
    } else if k == 8 {
        event is Document
    } else {
        event is Done
    }
}

/// How the run ends when `event` came of action number `k`, which therefore did not go well.
pub open spec fn create_setback<D>(k: int, event: EventView<D>) -> StepView<
    ProjectCreateView<D>,
    D,
> {
    match event {
        EventView::ProjectBody(body) => if body.origin.len() == 0 {
            crate::types::unprocessable("Missing value for field: `origin`"@)
        } else {
            crate::types::unprocessable("Missing value for field: `plan_path`"@)
        },
        EventView::Access(_) => StepView::Respond(ResponseView::Status(FORBIDDEN)),
        EventView::Raised(error) => StepView::Raise(error),
        EventView::Refused(error) => StepView::Respond(ResponseView::NetError(error)),
        _ => if k == 0 {
            StepView::Respond(ResponseView::Status(UNPROCESSABLE_ENTITY))
        } else if k == 2 {
            StepView::Respond(ResponseView::Status(FORBIDDEN))
        } else if k == 3 {
            crate::types::unprocessable("rg:pc:1"@)
        } else if k == 5 {
            crate::types::unprocessable("rg:pc:2"@)
        } else if k == 6 {
            crate::types::unprocessable("rg:pc:4"@)
        } else {
            crate::types::unprocessable("rg:pc:3"@)
        },
    }
}

/// All actions went well that `events` came of.
pub open spec fn create_all_well<D>(events: Seq<EventView<D>>) -> bool {
    &&& events.len() <= 10
    &&& forall|k: int| 0 <= k < events.len() ==> create_went_well(k, #[trigger] events[k])
}

spec fn create_state<D>(account: u64, events: Seq<EventView<D>>) -> ProjectCreateView<D> {
    let body = events[0]->ProjectBody_0;
    let token = events[2]->Token_0;
    let clone_url = events[3]->Repo_0;
    let draft = DraftView { account, body, clone_url, origin: events[4]->Origin_0 };
    let n = events.len();
    if n == 0 {
        ProjectCreateView::ReadingBody { account }
    } else if n == 1 {
        ProjectCreateView::CheckingAccess { account, body }
    } else if n == 2 {
        ProjectCreateView::GettingToken { account, body }
    } else if n == 3 {
        ProjectCreateView::FindingRepo { account, body, token }
    } else if n == 4 {
        ProjectCreateView::FetchingOrigin { account, body, token, clone_url }
    } else if n == 5 {
        ProjectCreateView::FetchingContents(draft)
    } else if n == 6 {
        ProjectCreateView::Decoding(draft)
    } else if n == 7 {
        ProjectCreateView::ParsingPlan(draft)
    } else if n == 8 {
        ProjectCreateView::Creating { account, origin_name: draft.origin.name }
    } else {
        ProjectCreateView::Recording { document: events[8]->Document_0 }
    }
}

proof fn lemma_create_progress<D>(account: u64, events: Seq<EventView<D>>)
    ensures
        project_create_after(account, events) is Perform <==> events.len() < 10
            && create_all_well(events),
        project_create_after(account, events) is Perform ==> project_create_after(account, events)
            == StepView::<ProjectCreateView<D>, D>::Perform(
            create_action(account, events, events.len() as int),
            create_state(account, events),
        ),
    decreases events.len(),
{
    if events.len() > 0 {
        let shorter = events.drop_last();
        let n = shorter.len() as int;
        lemma_create_progress(account, shorter);
        assert(forall|k: int| 0 <= k < n ==> shorter[k] == events[k]);
        if create_all_well(events) {
            assert(create_went_well(n, events[n]));
        } else if n < 9 && create_all_well(shorter) {
            let k = choose|k: int|
                0 <= k < events.len() && !create_went_well(k, #[trigger] events[k]);
            if k < n {
                assert(create_went_well(k, shorter[k]));
            }
            assert(k == n);
        }
    }
}

/// The creation of a project in full. As long as all goes well, the actions follow one another in
/// their order; when the last one went well, the answer is the project as it was stored. When
/// something does not go well, the run ends at once, and its end tells what it was.
pub proof fn project_create_script<D>(account: u64, events: Seq<EventView<D>>)
    ensures
        create_all_well(events) && events.len() < 10 ==> project_create_after(account, events)
            is Perform && project_create_after(account, events)->Perform_0 == create_action(
            account,
            events,
            events.len() as int,
        ),
        create_all_well(events) && events.len() == 10 ==> project_create_after(account, events)
            == StepView::<ProjectCreateView<D>, D>::Respond(
            ResponseView::Json { status: CREATED, document: events[8]->Document_0 },
        ),
        0 < events.len() <= 10 && create_all_well(events.drop_last()) && !create_went_well(
            events.len() - 1,
            events.last(),
        ) && crate::run::reports(
            create_action(account, events, events.len() - 1),
            events.last(),
        ) ==> project_create_after(account, events) == create_setback(
            events.len() - 1,
            events.last(),
        ),
{
    lemma_create_progress(account, events);
    if events.len() > 0 {
        let shorter = events.drop_last();
        let n = shorter.len() as int;
        assert(forall|k: int| 0 <= k < n ==> shorter[k] == events[k]);
        if create_all_well(events) {
            assert forall|k: int| 0 <= k < n implies create_went_well(k, #[trigger] shorter[k]) by {
                assert(create_went_well(k, events[k]));
            }
            assert(create_went_well(n, events[n]));
        }
        lemma_create_progress(account, shorter);
    }
}

/// Before anything is done for a project, beyond reading the request, the account's access to the
/// origin that the request names has been checked and granted. Nor is any document shown
/// otherwise.
pub proof fn project_create_needs_access<D>(account: u64, events: Seq<EventView<D>>)
    ensures
        match project_create_after(account, events) {
            StepView::Perform(ActionView::ReadProjectBody, _) => true,
            StepView::Perform(ActionView::CheckOriginAccess { .. }, _) => true,
            StepView::Perform(_, _) | StepView::Respond(ResponseView::Json { .. }) => {
                &&& events.len() >= 2
                &&& events[0] is ProjectBody
                &&& project_create_asked(
                    account,
                    events,
                    1,
                    ActionView::CheckOriginAccess {
                        account,
                        origin: events[0]->ProjectBody_0.origin,
                    },
                )
                &&& events[1] == EventView::<D>::Access(true)
            },
            _ => true,
        },
{
    lemma_create_progress(account, events);
    if events.len() > 0 && !(project_create_after(account, events) is Stray) {
        let shorter = events.drop_last();
        lemma_create_progress(account, shorter);
        assert(forall|k: int| 0 <= k < shorter.len() ==> shorter[k] == events[k]);
        if events.len() >= 2 {
            crate::run::asked_before(
                project_create_steps(),
                ProjectCreateView::Start { account },
                events,
                1,
            );
            lemma_create_progress(account, events.take(1));
            assert(events.take(1)[0] == events[0]);
            assert(create_went_well(0, events.take(1)[0]));
            if shorter.len() >= 2 {
                assert(create_went_well(1, shorter[1]));
            } else if project_create_after(account, events) is Perform {
                assert(create_went_well(1, events[1]));
            }
        }
    }
}

/// A project is reported as created if and only if all went well: the body held an origin and a
/// plan's path, access was granted, GitHub gave a token, the repository and the plan's file, the
/// origin was found, the file could be decoded and read, and the project was stored and recorded.
/// What was stored is then the project that the account asked for.
pub proof fn project_create_created<D>(account: u64, events: Seq<EventView<D>>)
    ensures
        ({
            let created = project_create_after(account, events) matches StepView::Respond(
                ResponseView::Json { .. },
            );
            &&& created <==> events.len() == 10 && create_all_well(events)
            &&& created ==> project_create_asked(
                account,
                events,
                8,
                ActionView::Route(MessageView::ProjectCreate(project_asked_for(account, events))),
            )
            &&& created ==> project_create_after(account, events) == StepView::<
                ProjectCreateView<D>,
                D,
            >::Respond(ResponseView::Json { status: CREATED, document: events[8]->Document_0 })
        }),
{
    project_create_script(account, events);
    lemma_create_progress(account, events);
    if project_create_after(account, events) matches StepView::Respond(ResponseView::Json { .. }) {
        let shorter = events.drop_last();
        lemma_create_progress(account, shorter);
        assert forall|k: int| 0 <= k < events.len() implies create_went_well(
            k,
            #[trigger] events[k],
        ) by {
            if k < shorter.len() {
                assert(create_went_well(k, shorter[k]));
            }
        }
        crate::run::asked_before(
            project_create_steps(),
            ProjectCreateView::Start { account },
            events,
            8,
        );
        lemma_create_progress(account, events.take(8));
        assert(forall|k: int| 0 <= k < 8 ==> events.take(8)[k] == events[k]);
    }
}

/// The creation of a project is over after ten events at the latest.
pub proof fn project_create_ends<D>(account: u64, events: Seq<EventView<D>>)
    ensures
        project_create_after(account, events) is Perform ==> events.len() < 10,
{
    lemma_create_progress(account, events);
}

} // verus!
