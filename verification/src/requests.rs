//! What becomes of each request: which actions it leads to, one after the other, and how it is
//! answered, for whatever the services and GitHub reply.
//!
//! Each law follows one handler from the request to its end. It names the request's parts and the
//! replies, and says after each reply what is asked for next or what the answer is.

use vstd::prelude::*;
use vstd::string::*;

use crate::accounts::{AccountList, GithubAuthenticateView, Notify};
use crate::integrations::{CreateProjectIntegrationView, GetProjectIntegration};
use crate::jobs::{
    JobGroupPromoteView, JobLogView, JobShowView, ProjectJobsView, RdepsShowView,
};
use crate::param::ParamValueView;
use crate::project_create::ProjectCreateView;
use crate::project_update::ProjectUpdateView;
use crate::projects::{
    ProjectListView, ProjectPrivacyToggleView, ProjectRequestView, VisibilityParamView,
};
use crate::types::{
    ActionView, AuthFailureView, ContentsView, ErrCode, EventView, IntegrationKeyView, JobEntryView,
    JobRange, JobState, JobView, ListingsView, LogEntryView, MessageView, NetErrorView,
    NewProjectView, OriginView, ProjectCreateReqView, ProjectView, ResponseView, SessionView,
    TargetView, Visibility, BAD_REQUEST, CONFLICT, CREATED, FORBIDDEN, INTERNAL_SERVER_ERROR,
    NOT_FOUND, NO_CONTENT, OK, UNPROCESSABLE_ENTITY,
};

verus! {

/// The creation of a project, from the request's body to the project as it was stored: the access
/// to the origin that the body names is checked, GitHub gives a token for the installation that the
/// body names and the repository that it names, the origin is looked up, the plan is fetched,
/// decoded and read, and the project is stored and recorded. Whatever fails ends the request with
/// an answer of its own.
pub proof fn project_create_course<D>(
    account: u64,
    body: ProjectCreateReqView,
    token: Seq<char>,
    clone_url: Seq<char>,
    origin: OriginView,
    contents: ContentsView<D>,
    bytes: Seq<u8>,
    plan: Seq<char>,
    document: D,
    error: NetErrorView,
    raised: D,
)
    requires
        body.origin.len() > 0,
        body.plan_path.len() > 0,
    ensures
        ({
            let run = |events: Seq<EventView<D>>|
                crate::run::after(
                    crate::project_create::project_create_steps::<D>(),
                    ProjectCreateView::Start { account },
                    events,
                );
            let e0 = Seq::<EventView<D>>::empty();
            let e1 = e0.push(EventView::ProjectBody(body));
            let e2 = e1.push(EventView::Access(true));
            let e3 = e2.push(EventView::Token(token));
            let e4 = e3.push(EventView::Repo(clone_url));
            let e5 = e4.push(EventView::Origin(origin));
            let e6 = e5.push(EventView::Contents(contents));
            let e7 = e6.push(EventView::Bytes(bytes));
            let e8 = e7.push(EventView::Plan(plan));
            let e9 = e8.push(EventView::Document(document));
            let e10 = e9.push(EventView::Done);
            &&& crate::run::asks(run(e0), ActionView::ReadProjectBody)
            &&& crate::run::answers(
                run(e0.push(EventView::Failed)),
                ResponseView::Status(UNPROCESSABLE_ENTITY),
            )
            &&& crate::run::asks(
                run(e1),
                ActionView::CheckOriginAccess { account, origin: body.origin },
            )
            &&& crate::run::answers(
                run(e1.push(EventView::Access(false))),
                ResponseView::Status(FORBIDDEN),
            )
            &&& crate::run::leaves(run(e1.push(EventView::Raised(raised))), raised)
            &&& crate::run::asks(
                run(e2),
                ActionView::AppInstallationToken { installation_id: body.installation_id },
            )
            &&& crate::run::answers(
                run(e2.push(EventView::Failed)),
                ResponseView::Status(FORBIDDEN),
            )
            &&& crate::run::asks(
                run(e3),
                ActionView::FindRepo { token, repo_id: body.repo_id },
            )
            &&& crate::run::answers(
                run(e3.push(EventView::Failed)),
                ResponseView::Text { status: UNPROCESSABLE_ENTITY, text: "rg:pc:1"@ },
            )
            &&& crate::run::asks(
                run(e4),
                ActionView::Route(MessageView::OriginGet { name: body.origin }),
            )
            &&& crate::run::answers(
                run(e4.push(EventView::Refused(error))),
                ResponseView::NetError(error),
            )
            &&& crate::run::asks(
                run(e5),
                ActionView::FetchContents { token, repo_id: body.repo_id, path: body.plan_path },
            )
            &&& crate::run::answers(
                run(e5.push(EventView::Failed)),
                ResponseView::Text { status: UNPROCESSABLE_ENTITY, text: "rg:pc:2"@ },
            )
            &&& crate::run::asks(run(e6), ActionView::DecodeContents(contents.document))
            &&& crate::run::answers(
                run(e6.push(EventView::Failed)),
                ResponseView::Text { status: UNPROCESSABLE_ENTITY, text: "rg:pc:4"@ },
            )
            &&& crate::run::asks(run(e7), ActionView::ParsePlan(bytes))
            &&& crate::run::answers(
                run(e7.push(EventView::Failed)),
                ResponseView::Text { status: UNPROCESSABLE_ENTITY, text: "rg:pc:3"@ },
            )
            &&& crate::run::asks(
                run(e8),
                ActionView::Route(
                    MessageView::ProjectCreate(
                        NewProjectView {
                            origin_name: origin.name,
                            origin_id: origin.id,
                            package_name: crate::text::unquoted(plan),
                            plan_path: body.plan_path,
                            owner_id: account,
                            vcs_type: "git"@,
                            vcs_data: clone_url,
                            vcs_installation_id: body.installation_id,
                            visibility: origin.default_package_visibility,
                        },
                    ),
                ),
            )
            &&& crate::run::answers(
                run(e8.push(EventView::Refused(error))),
                ResponseView::NetError(error),
            )
            &&& crate::run::asks(
                run(e9),
                ActionView::Record(
                    LogEntryView::ProjectCreate {
                        origin: origin.name,
                        package: seq!['0'],
                        account: crate::text::decimal(account as nat),
                    },
                ),
            )
            &&& crate::run::answers(
                run(e10),
                ResponseView::Json { status: CREATED, document },
            )
        }),
{
    crate::run::event_by_event(
        crate::project_create::project_create_steps::<D>(),
        ProjectCreateView::Start { account },
    );
    assert(crate::text::decimal(0) =~= seq!['0']);
}

/// A project cannot be created without an origin, nor without the path of its plan, and the answer
/// tells which one is missing. Nothing is asked for beyond the body.
pub proof fn project_create_missing<D>(account: u64, body: ProjectCreateReqView)
    ensures
        ({
            let run = |events: Seq<EventView<D>>|
                crate::run::after(
                    crate::project_create::project_create_steps::<D>(),
                    ProjectCreateView::Start { account },
                    events,
                );
            let e0 = Seq::<EventView<D>>::empty();
            let e1 = e0.push(EventView::ProjectBody(body));
            &&& body.origin.len() == 0 ==> crate::run::answers(
                run(e1),
                ResponseView::Text {
                    status: UNPROCESSABLE_ENTITY,
                    text: "Missing value for field: `origin`"@,
                },
            )
            &&& body.origin.len() > 0 && body.plan_path.len() == 0 ==> crate::run::answers(
                run(e1),
                ResponseView::Text {
                    status: UNPROCESSABLE_ENTITY,
                    text: "Missing value for field: `plan_path`"@,
                },
            )
        }),
{
    crate::run::event_by_event(
        crate::project_create::project_create_steps::<D>(),
        ProjectCreateView::Start { account },
    );
}

/// The update of a project, from the check of access to the project as it is stored again: the
/// project is looked up by its full name, GitHub gives a token for the installation that the body
/// names and the repository that it names, the plan is fetched, decoded and read, and if it names
/// the project's package, the project is stored with what has come, on behalf of the account.
/// Whatever fails ends the request with an answer of its own.
pub proof fn project_update_course<D>(
    target: TargetView,
    project: ProjectView<D>,
    body: ProjectCreateReqView,
    token: Seq<char>,
    clone_url: Seq<char>,
    contents: ContentsView<D>,
    bytes: Seq<u8>,
    other: Seq<char>,
    error: NetErrorView,
    raised: D,
)
    requires
        body.plan_path.len() > 0,
        crate::encoding::decoded(contents.content) == Some(bytes),
    ensures
        ({
            let run = |events: Seq<EventView<D>>|
                crate::run::after(
                    crate::project_update::project_update_steps::<D>(),
                    ProjectUpdateView::Start(target),
                    events,
                );
            let e0 = Seq::<EventView<D>>::empty();
            let e1 = e0.push(EventView::Access(true));
            let e2 = e1.push(EventView::Project(project));
            let e3 = e2.push(EventView::ProjectBody(body));
            let e4 = e3.push(EventView::Token(token));
            let e5 = e4.push(EventView::Repo(clone_url));
            let e6 = e5.push(EventView::Contents(contents));
            let e7 = e6.push(EventView::Plan(target.name));
            let e8 = e7.push(EventView::Done);
            &&& crate::run::asks(
                run(e0),
                ActionView::CheckOriginAccess { account: target.account, origin: target.origin },
            )
            &&& crate::run::answers(
                run(e0.push(EventView::Access(false))),
                ResponseView::Status(FORBIDDEN),
            )
            &&& crate::run::leaves(run(e0.push(EventView::Raised(raised))), raised)
            &&& crate::run::asks(
                run(e1),
                ActionView::Route(
                    MessageView::ProjectGet { name: target.origin + seq!['/'] + target.name },
                ),
            )
            &&& crate::run::answers(
                run(e1.push(EventView::Refused(error))),
                ResponseView::NetError(error),
            )
            &&& crate::run::asks(run(e2), ActionView::ReadProjectBody)
            &&& crate::run::answers(
                run(e2.push(EventView::Failed)),
                ResponseView::Status(UNPROCESSABLE_ENTITY),
            )
            &&& crate::run::asks(
                run(e3),
                ActionView::AppInstallationToken { installation_id: body.installation_id },
            )
            &&& crate::run::answers(
                run(e3.push(EventView::Failed)),
                ResponseView::Status(FORBIDDEN),
            )
            &&& crate::run::asks(
                run(e4),
                ActionView::FindRepo { token, repo_id: body.repo_id },
            )
            &&& crate::run::answers(
                run(e4.push(EventView::Failed)),
                ResponseView::Text { status: UNPROCESSABLE_ENTITY, text: "rg:pu:1"@ },
            )
            &&& crate::run::asks(
                run(e5),
                ActionView::FetchContents { token, repo_id: body.repo_id, path: body.plan_path },
            )
            &&& crate::run::answers(
                run(e5.push(EventView::Failed)),
                ResponseView::Text { status: UNPROCESSABLE_ENTITY, text: "rg:pu:5"@ },
            )
            &&& crate::run::asks(run(e6), ActionView::ParsePlan(bytes))
            &&& crate::run::answers(
                run(e6.push(EventView::Failed)),
                ResponseView::Text { status: UNPROCESSABLE_ENTITY, text: "rg:pu:3"@ },
            )
            &&& other != target.name ==> crate::run::answers(
                run(e6.push(EventView::Plan(other))),
                ResponseView::Text { status: UNPROCESSABLE_ENTITY, text: "rg:pu:2"@ },
            )
            &&& crate::run::asks(
                run(e7),
                ActionView::Route(
                    MessageView::ProjectUpdate {
                        requestor: target.account,
                        project: ProjectView {
                            origin_name: target.origin,
                            package_name: target.name,
                            plan_path: body.plan_path,
                            vcs_data: clone_url,
                            vcs_installation_id: body.installation_id,
                            visibility: project.visibility,
                            document: project.document,
                        },
                    },
                ),
            )
            &&& crate::run::answers(
                run(e7.push(EventView::Refused(error))),
                ResponseView::NetError(error),
            )
            &&& crate::run::answers(run(e8), ResponseView::Status(NO_CONTENT))
        }),
{
    crate::run::event_by_event(
        crate::project_update::project_update_steps::<D>(),
        ProjectUpdateView::Start(target),
    );
    crate::text::full_name_parts(target.origin, target.name);
}

/// A project cannot be updated without the path of its plan, nor from a file that is not base64.
pub proof fn project_update_missing<D>(
    target: TargetView,
    project: ProjectView<D>,
    body: ProjectCreateReqView,
    token: Seq<char>,
    clone_url: Seq<char>,
    contents: ContentsView<D>,
)
    ensures
        ({
            let run = |events: Seq<EventView<D>>|
                crate::run::after(
                    crate::project_update::project_update_steps::<D>(),
                    ProjectUpdateView::Start(target),
                    events,
                );
            let e0 = Seq::<EventView<D>>::empty();
            let e1 = e0.push(EventView::Access(true));
            let e2 = e1.push(EventView::Project(project));
            let e3 = e2.push(EventView::ProjectBody(body));
            let e5 = e3.push(EventView::Token(token)).push(EventView::Repo(clone_url));
            let e6 = e5.push(EventView::Contents(contents));
            &&& body.plan_path.len() == 0 ==> crate::run::answers(
                run(e3),
                ResponseView::Text {
                    status: UNPROCESSABLE_ENTITY,
                    text: "Missing value for field: `plan_path`"@,
                },
            )
            &&& body.plan_path.len() > 0 && crate::encoding::decoded(
                contents.content,
            ) is None ==> crate::run::answers(
                run(e6),
                ResponseView::Text { status: UNPROCESSABLE_ENTITY, text: "rg:pu:4"@ },
            )
        }),
{
    crate::run::event_by_event(
        crate::project_update::project_update_steps::<D>(),
        ProjectUpdateView::Start(target),
    );
}

/// The change of a project's visibility to one that users may ask for: the access to the origin is
/// checked, the project that the request names is looked up, its new visibility is worked out from
/// the one asked for and the one it has, and it is stored as it was but for this.
pub proof fn project_privacy_toggle_course<D>(
    account: u64,
    origin: Seq<char>,
    name: Seq<char>,
    visibility: VisibilityParamView,
    incoming: Visibility,
    project: ProjectView<D>,
    becomes: Visibility,
    error: NetErrorView,
    raised: D,
)
    requires
        visibility.parsed == Some(incoming),
        crate::text::lowered(visibility.text) != "hidden"@,
    ensures
        ({
            let run = |events: Seq<EventView<D>>|
                crate::run::after(
                    crate::projects::project_privacy_toggle_steps::<D>(),
                    ProjectPrivacyToggleView::Start {
            account,
            origin: Some(origin),
            name: Some(name),
            visibility: Some(visibility),
        },
                    events,
                );
            let e0 = Seq::<EventView<D>>::empty();
            let e1 = e0.push(EventView::Access(true));
            let e2 = e1.push(EventView::Project(project));
            let e3 = e2.push(EventView::Visibility(becomes));
            let e4 = e3.push(EventView::Done);
            &&& crate::run::asks(run(e0), ActionView::CheckOriginAccess { account, origin })
            &&& crate::run::answers(
                run(e0.push(EventView::Access(false))),
                ResponseView::Status(FORBIDDEN),
            )
            &&& crate::run::leaves(run(e0.push(EventView::Raised(raised))), raised)
            &&& crate::run::asks(
                run(e1),
                ActionView::Route(MessageView::ProjectGet { name: origin + seq!['/'] + name }),
            )
            &&& crate::run::answers(
                run(e1.push(EventView::Refused(error))),
                ResponseView::NetError(error),
            )
            &&& crate::run::asks(
                run(e2),
                ActionView::TransitionVisibility { incoming, current: project.visibility },
            )
            &&& crate::run::asks(
                run(e3),
                ActionView::Route(
                    MessageView::ProjectVisibilityUpdate {
                        project: ProjectView {
                            origin_name: project.origin_name,
                            package_name: project.package_name,
                            plan_path: project.plan_path,
                            vcs_data: project.vcs_data,
                            vcs_installation_id: project.vcs_installation_id,
                            visibility: becomes,
                            document: project.document,
                        },
                    },
                ),
            )
            &&& crate::run::answers(
                run(e3.push(EventView::Refused(error))),
                ResponseView::NetError(error),
            )
            &&& crate::run::answers(run(e4), ResponseView::Status(NO_CONTENT))
        }),
{
    crate::run::event_by_event(
        crate::projects::project_privacy_toggle_steps::<D>(),
        ProjectPrivacyToggleView::Start {
            account,
            origin: Some(origin),
            name: Some(name),
            visibility: Some(visibility),
        },
    );
    crate::text::full_name_parts(origin, name);
}

/// A change of visibility is turned down at once where the request lacks an origin, a name or a
/// visibility, where the visibility is no word for one, and where the word is the one for hidden.
pub proof fn project_privacy_toggle_turned_down<D>(
    account: u64,
    origin: Option<Seq<char>>,
    name: Option<Seq<char>>,
    visibility: Option<VisibilityParamView>,
)
    requires
        origin is None || name is None || visibility is None || visibility->Some_0.parsed is None
            || crate::text::lowered(visibility->Some_0.text) == "hidden"@,
    ensures
        ({
            let run = |events: Seq<EventView<D>>|
                crate::run::after(
                    crate::projects::project_privacy_toggle_steps::<D>(),
                    ProjectPrivacyToggleView::Start { account, origin, name, visibility },
                    events,
                );
            let e0 = Seq::<EventView<D>>::empty();
            &&& crate::run::answers(run(e0), ResponseView::Status(BAD_REQUEST))
        }),
{
    crate::run::event_by_event(
        crate::projects::project_privacy_toggle_steps::<D>(),
        ProjectPrivacyToggleView::Start { account, origin, name, visibility },
    );
}

/// The deletion of a project: the access to its origin is checked, and the project that the request
/// names is deleted on behalf of the account.
pub proof fn project_delete_course<D>(target: TargetView, error: NetErrorView, raised: D)
    ensures
        ({
            let run = |events: Seq<EventView<D>>|
                crate::run::after(
                    crate::projects::project_delete_steps::<D>(),
                    ProjectRequestView::Start(target),
                    events,
                );
            let e0 = Seq::<EventView<D>>::empty();
            let e1 = e0.push(EventView::Access(true));
            &&& crate::run::asks(
                run(e0),
                ActionView::CheckOriginAccess { account: target.account, origin: target.origin },
            )
            &&& crate::run::answers(
                run(e0.push(EventView::Access(false))),
                ResponseView::Status(FORBIDDEN),
            )
            &&& crate::run::leaves(run(e0.push(EventView::Raised(raised))), raised)
            &&& crate::run::asks(
                run(e1),
                ActionView::Route(
                    MessageView::ProjectDelete {
                        name: target.origin + seq!['/'] + target.name,
                        requestor: target.account,
                    },
                ),
            )
            &&& crate::run::answers(
                run(e1.push(EventView::Refused(error))),
                ResponseView::NetError(error),
            )
            &&& crate::run::answers(
                run(e1.push(EventView::Done)),
                ResponseView::Status(NO_CONTENT),
            )
        }),
{
    crate::run::event_by_event(
        crate::projects::project_delete_steps::<D>(),
        ProjectRequestView::Start(target),
    );
    crate::text::full_name_parts(target.origin, target.name);
}

/// The display of a project: the access to its origin is checked, and the project that the request
/// names is shown as it is stored.
pub proof fn project_show_course<D>(
    target: TargetView,
    project: ProjectView<D>,
    error: NetErrorView,
    raised: D,
)
    ensures
        ({
            let run = |events: Seq<EventView<D>>|
                crate::run::after(
                    crate::projects::project_show_steps::<D>(),
                    ProjectRequestView::Start(target),
                    events,
                );
            let e0 = Seq::<EventView<D>>::empty();
            let e1 = e0.push(EventView::Access(true));
            &&& crate::run::asks(
                run(e0),
                ActionView::CheckOriginAccess { account: target.account, origin: target.origin },
            )
            &&& crate::run::answers(
                run(e0.push(EventView::Access(false))),
                ResponseView::Status(FORBIDDEN),
            )
            &&& crate::run::leaves(run(e0.push(EventView::Raised(raised))), raised)
            &&& crate::run::asks(
                run(e1),
                ActionView::Route(
                    MessageView::ProjectGet { name: target.origin + seq!['/'] + target.name },
                ),
            )
            &&& crate::run::answers(
                run(e1.push(EventView::Refused(error))),
                ResponseView::NetError(error),
            )
            &&& crate::run::answers(
                run(e1.push(EventView::Project(project))),
                ResponseView::Json { status: OK, document: project.document },
            )
        }),
{
    crate::run::event_by_event(
        crate::projects::project_show_steps::<D>(),
        ProjectRequestView::Start(target),
    );
    crate::text::full_name_parts(target.origin, target.name);
}

/// The list of an origin's projects: the access to the origin is checked, and the names of its
/// projects are shown, all of them and in the order in which they came.
pub proof fn project_list_course<D>(
    account: u64,
    origin: Seq<char>,
    names: Seq<Seq<char>>,
    error: NetErrorView,
    raised: D,
)
    ensures
        ({
            let run = |events: Seq<EventView<D>>|
                crate::run::after(
                    crate::projects::project_list_steps::<D>(),
                    ProjectListView::Start { account, origin },
                    events,
                );
            let e0 = Seq::<EventView<D>>::empty();
            let e1 = e0.push(EventView::Access(true));
            &&& crate::run::asks(run(e0), ActionView::CheckOriginAccess { account, origin })
            &&& crate::run::answers(
                run(e0.push(EventView::Access(false))),
                ResponseView::Status(FORBIDDEN),
            )
            &&& crate::run::leaves(run(e0.push(EventView::Raised(raised))), raised)
            &&& crate::run::asks(
                run(e1),
                ActionView::Route(MessageView::ProjectListGet { origin }),
            )
            &&& crate::run::answers(
                run(e1.push(EventView::Refused(error))),
                ResponseView::NetError(error),
            )
            &&& crate::run::answers(
                run(e1.push(EventView::Names(names))),
                ResponseView::JsonNames { status: OK, names },
            )
        }),
{
    crate::run::event_by_event(
        crate::projects::project_list_steps::<D>(),
        ProjectListView::Start { account, origin },
    );
}

/// The log of a job that builds a package which is not private is shown to everybody, signed in or
/// not: the job is looked up, its log is fetched from the line asked for, and it is shown, with its
/// colours or without them.
pub proof fn job_log_course<D>(
    id: Seq<char>,
    start: Option<ParamValueView>,
    color: Option<ParamValueView>,
    account: Option<u64>,
    job: u64,
    line: u64,
    found: JobView<D>,
    log: D,
    plain: D,
    error: NetErrorView,
)
    requires
        crate::text::parsed_id(id) == Some(job),
        crate::param::asked_number(start) == Some(line),
        found.visibility != Visibility::Private,
    ensures
        ({
            let run = |events: Seq<EventView<D>>|
                crate::run::after(
                    crate::jobs::job_log_steps::<D>(),
                    JobLogView::Start { id, start, color, account },
                    events,
                );
            let e0 = Seq::<EventView<D>>::empty();
            let e1 = e0.push(EventView::Job(found));
            &&& crate::run::asks(
                run(e0),
                ActionView::Route(MessageView::JobGet { id: job }),
            )
            &&& crate::run::answers(
                run(e0.push(EventView::Refused(error))),
                ResponseView::NetError(error),
            )
            &&& crate::run::asks(
                run(e1),
                ActionView::Route(MessageView::JobLogGet { id: job, start: line }),
            )
            &&& crate::run::answers(
                run(e1.push(EventView::Refused(error))),
                ResponseView::NetError(error),
            )
            &&& crate::param::says_yes(color) ==> crate::run::answers(
                run(e1.push(EventView::Document(log))),
                ResponseView::Json { status: OK, document: log },
            )
            &&& !crate::param::says_yes(color) ==> crate::run::asks(
                run(e1.push(EventView::Document(log))),
                ActionView::StripAnsi(log),
            )
            &&& !crate::param::says_yes(color) ==> crate::run::answers(
                run(e1.push(EventView::Document(log)).push(EventView::Document(plain))),
                ResponseView::Json { status: OK, document: plain },
            )
        }),
{
    crate::run::event_by_event(
        crate::jobs::job_log_steps::<D>(),
        JobLogView::Start { id, start, color, account },
    );
}

/// The log of a job that builds a private package is shown to those who are signed in and have
/// access to the origin of the job's project, and to nobody else.
pub proof fn job_log_private_course<D>(
    id: Seq<char>,
    start: Option<ParamValueView>,
    color: Option<ParamValueView>,
    job: u64,
    line: u64,
    found: JobView<D>,
    account: u64,
    log: D,
    plain: D,
    error: NetErrorView,
    raised: D,
)
    requires
        crate::text::parsed_id(id) == Some(job),
        crate::param::asked_number(start) == Some(line),
        found.visibility == Visibility::Private,
    ensures
        ({
            let run = |events: Seq<EventView<D>>|
                crate::run::after(
                    crate::jobs::job_log_steps::<D>(),
                    JobLogView::Start { id, start, color, account: Some(account) },
                    events,
                );
            let e0 = Seq::<EventView<D>>::empty();
            let e1 = e0.push(EventView::Job(found));
            let e2 = e1.push(EventView::Access(true));
            &&& crate::run::asks(
                run(e0),
                ActionView::Route(MessageView::JobGet { id: job }),
            )
            &&& crate::run::answers(
                run(e0.push(EventView::Refused(error))),
                ResponseView::NetError(error),
            )
            &&& crate::run::asks(
                run(e1),
                ActionView::CheckOriginAccess { account, origin: found.origin_name },
            )
            &&& crate::run::answers(
                run(e1.push(EventView::Access(false))),
                ResponseView::Status(FORBIDDEN),
            )
            &&& crate::run::leaves(run(e1.push(EventView::Raised(raised))), raised)
            &&& crate::run::asks(
                run(e2),
                ActionView::Route(MessageView::JobLogGet { id: job, start: line }),
            )
            &&& crate::run::answers(
                run(e2.push(EventView::Refused(error))),
                ResponseView::NetError(error),
            )
            &&& crate::param::says_yes(color) ==> crate::run::answers(
                run(e2.push(EventView::Document(log))),
                ResponseView::Json { status: OK, document: log },
            )
            &&& !crate::param::says_yes(color) ==> crate::run::asks(
                run(e2.push(EventView::Document(log))),
                ActionView::StripAnsi(log),
            )
            &&& !crate::param::says_yes(color) ==> crate::run::answers(
                run(e2.push(EventView::Document(log)).push(EventView::Document(plain))),
                ResponseView::Json { status: OK, document: plain },
            )
        }),
{
    crate::run::event_by_event(
        crate::jobs::job_log_steps::<D>(),
        JobLogView::Start { id, start, color, account: Some(account) },
    );
}

/// Those who are not signed in are forbidden the log of a job that builds a private package, once
/// the job has been looked up.
pub proof fn job_log_strangers_course<D>(
    id: Seq<char>,
    start: Option<ParamValueView>,
    color: Option<ParamValueView>,
    job: u64,
    line: u64,
    found: JobView<D>,
    error: NetErrorView,
)
    requires
        crate::text::parsed_id(id) == Some(job),
        crate::param::asked_number(start) == Some(line),
        found.visibility == Visibility::Private,
    ensures
        ({
            let run = |events: Seq<EventView<D>>|
                crate::run::after(
                    crate::jobs::job_log_steps::<D>(),
                    JobLogView::Start { id, start, color, account: None },
                    events,
                );
            let e0 = Seq::<EventView<D>>::empty();
            let e1 = e0.push(EventView::Job(found));
            &&& crate::run::asks(
                run(e0),
                ActionView::Route(MessageView::JobGet { id: job }),
            )
            &&& crate::run::answers(
                run(e0.push(EventView::Refused(error))),
                ResponseView::NetError(error),
            )
            &&& crate::run::answers(run(e1), ResponseView::Status(FORBIDDEN))
        }),
{
    crate::run::event_by_event(
        crate::jobs::job_log_steps::<D>(),
        JobLogView::Start { id, start, color, account: None },
    );
}

/// A request for a log is turned down at once where it does not name the job by its number, and
/// where the line it asks for is no number.
pub proof fn job_log_turned_down<D>(
    id: Seq<char>,
    start: Option<ParamValueView>,
    color: Option<ParamValueView>,
    account: Option<u64>,
)
    requires
        crate::text::parsed_id(id) is None || crate::param::asked_number(start) is None,
    ensures
        ({
            let run = |events: Seq<EventView<D>>|
                crate::run::after(
                    crate::jobs::job_log_steps::<D>(),
                    JobLogView::Start { id, start, color, account },
                    events,
                );
            let e0 = Seq::<EventView<D>>::empty();
            &&& crate::run::answers(run(e0), ResponseView::Status(BAD_REQUEST))
        }),
{
    crate::run::event_by_event(
        crate::jobs::job_log_steps::<D>(),
        JobLogView::Start { id, start, color, account },
    );
}

/// The display of a job: the job that the request names is looked up, whoever asks. If it knows the
/// release of its package, the package's channels and platforms are looked up, as far as the one
/// who asks sees them, and stand in what is shown; otherwise the job is shown as it is. A request
/// that does not name a job by its number is turned down at once.
pub proof fn job_show_course<D>(
    id: Seq<char>,
    account: Option<u64>,
    job: u64,
    found: JobView<D>,
    listings: ListingsView,
    error: NetErrorView,
)
    ensures
        ({
            let run = |events: Seq<EventView<D>>|
                crate::run::after(
                    crate::jobs::job_show_steps::<D>(),
                    JobShowView::Start { id, account },
                    events,
                );
            let e0 = Seq::<EventView<D>>::empty();
            let e1 = e0.push(EventView::Job(found));
            let e2 = e1.push(EventView::Listings(listings));
            &&& crate::text::parsed_id(id) is None ==> crate::run::answers(
                run(e0),
                ResponseView::Status(BAD_REQUEST),
            )
            &&& crate::text::parsed_id(id) == Some(job) ==> {
                &&& crate::run::asks(
                    run(e0),
                    ActionView::Route(MessageView::JobGet { id: job }),
                )
                &&& crate::run::answers(
                    run(e0.push(EventView::Refused(error))),
                    ResponseView::NetError(error),
                )
                &&& !found.fully_qualified ==> crate::run::answers(
                    run(e1),
                    ResponseView::Json { status: OK, document: found.document },
                )
                &&& found.fully_qualified ==> crate::run::asks(
                    run(e1),
                    ActionView::FetchListings { ident: found.ident, session: account },
                )
                &&& found.fully_qualified ==> crate::run::answers(
                    run(e2),
                    ResponseView::JsonObject {
                        status: OK,
                        object: crate::jobs::annotated(found.object, listings),
                    },
                )
            }
        }),
{
    crate::run::event_by_event(
        crate::jobs::job_show_steps::<D>(),
        JobShowView::Start { id, account },
    );
}

/// The promotion of a job group: the group that the request names by its number is promoted to the
/// channel that it names, on behalf of the account, and the reply is the answer. A request that
/// does not name both is turned down at once.
pub proof fn job_group_promote_course<D>(
    id: Option<Seq<char>>,
    channel: Option<Seq<char>>,
    account: u64,
    document: D,
    error: NetErrorView,
)
    ensures
        ({
            let run = |events: Seq<EventView<D>>|
                crate::run::after(
                    crate::jobs::job_group_promote_steps::<D>(),
                    JobGroupPromoteView::Start { id, channel, account },
                    events,
                );
            let e0 = Seq::<EventView<D>>::empty();
            &&& match (id, channel) {
                (Some(id), Some(channel)) => match crate::text::parsed_id(id) {
                    Some(group) => {
                        &&& crate::run::asks(
                            run(e0),
                            ActionView::PromoteJobGroup { group, channel, session: Some(account) },
                        )
                        &&& crate::run::answers(
                            run(e0.push(EventView::Document(document))),
                            ResponseView::Json { status: OK, document },
                        )
                        &&& crate::run::answers(
                            run(e0.push(EventView::Refused(error))),
                            ResponseView::NetError(error),
                        )
                    },
                    None => crate::run::answers(run(e0), ResponseView::Status(BAD_REQUEST)),
                },
                _ => crate::run::answers(run(e0), ResponseView::Status(BAD_REQUEST)),
            }
        }),
{
    crate::run::event_by_event(
        crate::jobs::job_group_promote_steps::<D>(),
        JobGroupPromoteView::Start { id, channel, account },
    );
}

/// The display of reverse dependencies: those of the package that the request names are asked for,
/// and the reply is the answer. A request that does not name an origin and a package is turned down
/// at once.
pub proof fn rdeps_show_course<D>(
    origin: Option<Seq<char>>,
    name: Option<Seq<char>>,
    document: D,
    error: NetErrorView,
)
    ensures
        ({
            let run = |events: Seq<EventView<D>>|
                crate::run::after(
                    crate::jobs::rdeps_show_steps::<D>(),
                    RdepsShowView::Start { origin, name },
                    events,
                );
            let e0 = Seq::<EventView<D>>::empty();
            &&& match (origin, name) {
                (Some(origin), Some(name)) => {
                    &&& crate::run::asks(
                        run(e0),
                        ActionView::Route(
                            MessageView::ReverseDependenciesGet {
                                origin,
                                name,
                                target: "x86_64-linux"@,
                            },
                        ),
                    )
                    &&& crate::run::answers(
                        run(e0.push(EventView::Document(document))),
                        ResponseView::Json { status: OK, document },
                    )
                    &&& crate::run::answers(
                        run(e0.push(EventView::Refused(error))),
                        ResponseView::NetError(error),
                    )
                },
                _ => crate::run::answers(run(e0), ResponseView::Status(BAD_REQUEST)),
            }
        }),
{
    crate::run::event_by_event(
        crate::jobs::rdeps_show_steps::<D>(),
        RdepsShowView::Start { origin, name },
    );
}

/// The list of an account's invitations: those of this account are asked for, and the reply is the
/// answer.
pub proof fn list_account_invitations_course<D>(account: u64, document: D, error: NetErrorView)
    ensures
        ({
            let run = |events: Seq<EventView<D>>|
                crate::run::after(
                    crate::accounts::list_account_invitations_steps::<D>(),
                    AccountList::Start { account },
                    events,
                );
            let e0 = Seq::<EventView<D>>::empty();
            &&& crate::run::asks(
                run(e0),
                ActionView::Route(MessageView::AccountInvitationList { account }),
            )
            &&& crate::run::answers(
                run(e0.push(EventView::Document(document))),
                ResponseView::Json { status: OK, document },
            )
            &&& crate::run::answers(
                run(e0.push(EventView::Refused(error))),
                ResponseView::NetError(error),
            )
        }),
{
    crate::run::event_by_event(
        crate::accounts::list_account_invitations_steps::<D>(),
        AccountList::Start { account },
    );
}

/// The list of an account's origins: those of this account are asked for, and the reply is the
/// answer.
pub proof fn list_user_origins_course<D>(account: u64, document: D, error: NetErrorView)
    ensures
        ({
            let run = |events: Seq<EventView<D>>|
                crate::run::after(
                    crate::accounts::list_user_origins_steps::<D>(),
                    AccountList::Start { account },
                    events,
                );
            let e0 = Seq::<EventView<D>>::empty();
            &&& crate::run::asks(
                run(e0),
                ActionView::Route(MessageView::AccountOriginList { account }),
            )
            &&& crate::run::answers(
                run(e0.push(EventView::Document(document))),
                ResponseView::Json { status: OK, document },
            )
            &&& crate::run::answers(
                run(e0.push(EventView::Refused(error))),
                ResponseView::NetError(error),
            )
        }),
{
    crate::run::event_by_event(
        crate::accounts::list_user_origins_steps::<D>(),
        AccountList::Start { account },
    );
}

/// A notice that reports an event of GitHub's is handled as one, and what comes of it is the answer
/// or the error. Any other notice is turned down at once.
pub proof fn notify_course<D>(github_event: bool, document: D, raised: D)
    ensures
        ({
            let run = |events: Seq<EventView<D>>|
                crate::run::after(
                    crate::accounts::notify_steps::<D>(),
                    Notify::Start { github_event },
                    events,
                );
            let e0 = Seq::<EventView<D>>::empty();
            &&& !github_event ==> crate::run::answers(run(e0), ResponseView::Status(BAD_REQUEST))
            &&& github_event ==> crate::run::asks(run(e0), ActionView::HandleGithubEvent)
            &&& github_event ==> crate::run::answers(
                run(e0.push(EventView::Document(document))),
                ResponseView::Prepared(document),
            )
            &&& github_event ==> crate::run::leaves(run(e0.push(EventView::Raised(raised))), raised)
        }),
{
    crate::run::event_by_event(
        crate::accounts::notify_steps::<D>(),
        Notify::Start { github_event },
    );
}

/// Signing in: GitHub trades the code for a token, a session is opened with it, recorded and shown.
/// Where GitHub does not let the user in, the answer tells why: with GitHub's own words where it
/// refused.
pub proof fn github_authenticate_course<D>(
    code: Seq<char>,
    token: Seq<char>,
    session: SessionView<D>,
    reason: Seq<char>,
    raised: D,
)
    ensures
        ({
            let run = |events: Seq<EventView<D>>|
                crate::run::after(
                    crate::accounts::github_authenticate_steps::<D>(),
                    GithubAuthenticateView::Start { code, functional_test: false },
                    events,
                );
            let e0 = Seq::<EventView<D>>::empty();
            let e1 = e0.push(EventView::Token(token));
            &&& crate::run::asks(run(e0), ActionView::Authenticate { code })
            &&& crate::run::answers(
                run(e0.push(EventView::NotAuthenticated(AuthFailureView::Denied(reason)))),
                ResponseView::NetError(
                    NetErrorView { code: ErrCode::AccessDenied, message: reason },
                ),
            )
            &&& crate::run::answers(
                run(e0.push(EventView::NotAuthenticated(AuthFailureView::BadReply))),
                ResponseView::NetError(
                    NetErrorView { code: ErrCode::BadRemoteReply, message: "rg:auth:1"@ },
                ),
            )
            &&& crate::run::answers(
                run(e0.push(EventView::NotAuthenticated(AuthFailureView::Other))),
                ResponseView::NetError(
                    NetErrorView { code: ErrCode::Bug, message: "rg:auth:2"@ },
                ),
            )
            &&& crate::run::asks(run(e1), ActionView::CreateSession { token })
            &&& crate::run::leaves(run(e1.push(EventView::Raised(raised))), raised)
            &&& crate::run::asks(
                run(e1.push(EventView::Session(session))),
                ActionView::Record(
                    LogEntryView::GithubAuthenticate {
                        user: session.name,
                        account: crate::text::decimal(session.id as nat),
                    },
                ),
            )
            &&& crate::run::answers(
                run(e1.push(EventView::Session(session)).push(EventView::Done)),
                ResponseView::Json { status: OK, document: session.document },
            )
        }),
{
    crate::run::event_by_event(
        crate::accounts::github_authenticate_steps::<D>(),
        GithubAuthenticateView::Start { code, functional_test: false },
    );
}

/// Signing in in a functional test: GitHub is left out, and the code serves as the token.
pub proof fn github_authenticate_test_course<D>(code: Seq<char>, session: SessionView<D>, raised: D)
    ensures
        ({
            let run = |events: Seq<EventView<D>>|
                crate::run::after(
                    crate::accounts::github_authenticate_steps::<D>(),
                    GithubAuthenticateView::Start { code, functional_test: true },
                    events,
                );
            let e0 = Seq::<EventView<D>>::empty();
            &&& crate::run::asks(run(e0), ActionView::CreateSession { token: code })
            &&& crate::run::leaves(run(e0.push(EventView::Raised(raised))), raised)
            &&& crate::run::asks(
                run(e0.push(EventView::Session(session))),
                ActionView::Record(
                    LogEntryView::GithubAuthenticate {
                        user: session.name,
                        account: crate::text::decimal(session.id as nat),
                    },
                ),
            )
            &&& crate::run::answers(
                run(e0.push(EventView::Session(session)).push(EventView::Done)),
                ResponseView::Json { status: OK, document: session.document },
            )
        }),
{
    crate::run::event_by_event(
        crate::accounts::github_authenticate_steps::<D>(),
        GithubAuthenticateView::Start { code, functional_test: true },
    );
}

/// The creation of an integration: the parameters are judged, the body is read, and the integration
/// is stored under these parameters, by the name that all have, with the body as it came. The
/// answer tells a conflict from any other error.
pub proof fn create_project_integration_course<D>(
    key: IntegrationKeyView,
    body: Seq<char>,
    status: u16,
    error: NetErrorView,
)
    ensures
        ({
            let run = |events: Seq<EventView<D>>|
                crate::run::after(
                    crate::integrations::create_project_integration_steps::<D>(),
                    CreateProjectIntegrationView::Start,
                    events,
                );
            let e0 = Seq::<EventView<D>>::empty();
            let e1 = e0.push(EventView::Params(key));
            let e2 = e1.push(EventView::JsonBody(body));
            &&& crate::run::asks(
                run(e0),
                ActionView::ValidateParams {
                    names: Seq::empty().push("origin"@).push("name"@).push("integration"@),
                },
            )
            &&& crate::run::answers(
                run(e0.push(EventView::BadParams(status))),
                ResponseView::Status(status),
            )
            &&& crate::run::asks(run(e1), ActionView::ReadJsonBody)
            &&& crate::run::answers(
                run(e1.push(EventView::NoBody)),
                ResponseView::Status(BAD_REQUEST),
            )
            &&& crate::run::answers(
                run(e1.push(EventView::Failed)),
                ResponseView::Status(BAD_REQUEST),
            )
            &&& crate::run::asks(
                run(e2),
                ActionView::Route(
                    MessageView::IntegrationCreate { key, integration_name: "default"@, body },
                ),
            )
            &&& crate::run::answers(
                run(e2.push(EventView::Done)),
                ResponseView::Status(NO_CONTENT),
            )
            &&& error.code == ErrCode::EntityConflict ==> crate::run::answers(
                run(e2.push(EventView::Refused(error))),
                ResponseView::Status(CONFLICT),
            )
            &&& error.code != ErrCode::EntityConflict ==> crate::run::answers(
                run(e2.push(EventView::Refused(error))),
                ResponseView::Status(INTERNAL_SERVER_ERROR),
            )
        }),
{
    crate::run::event_by_event(
        crate::integrations::create_project_integration_steps::<D>(),
        CreateProjectIntegrationView::Start,
    );
    assert(crate::integrations::key_names() =~= Seq::empty().push("origin"@).push("name"@).push(
        "integration"@,
    ));
}

/// The display of an integration: the parameters are judged, the integration is looked up under
/// them by the name that all have, and the JSON value of its body is shown. The answer tells a body
/// that is not JSON and a missing integration from any other error.
pub proof fn get_project_integration_course<D>(
    key: IntegrationKeyView,
    body: Seq<char>,
    value: serde_json::Value,
    status: u16,
    error: NetErrorView,
)
    ensures
        ({
            let run = |events: Seq<EventView<D>>|
                crate::run::after(
                    crate::integrations::get_project_integration_steps::<D>(),
                    GetProjectIntegration::Start,
                    events,
                );
            let e0 = Seq::<EventView<D>>::empty();
            let e1 = e0.push(EventView::Params(key));
            let e2 = e1.push(EventView::Integration(body));
            &&& crate::run::asks(
                run(e0),
                ActionView::ValidateParams {
                    names: Seq::empty().push("origin"@).push("name"@).push("integration"@),
                },
            )
            &&& crate::run::answers(
                run(e0.push(EventView::BadParams(status))),
                ResponseView::Status(status),
            )
            &&& crate::run::asks(
                run(e1),
                ActionView::Route(
                    MessageView::IntegrationGet { key, integration_name: "default"@ },
                ),
            )
            &&& crate::json::parsed_value(body) == Some(value) ==> crate::run::answers(
                run(e2),
                ResponseView::JsonValue { status: OK, value },
            )
            &&& crate::json::parsed_value(body) is None ==> crate::run::answers(
                run(e2),
                ResponseView::Text { status: UNPROCESSABLE_ENTITY, text: "api:gpi:1"@ },
            )
            &&& error.code == ErrCode::EntityNotFound ==> crate::run::answers(
                run(e1.push(EventView::Refused(error))),
                ResponseView::Status(NOT_FOUND),
            )
            &&& error.code != ErrCode::EntityNotFound ==> crate::run::answers(
                run(e1.push(EventView::Refused(error))),
                ResponseView::Text { status: INTERNAL_SERVER_ERROR, text: "api:gpi:2"@ },
            )
        }),
{
    crate::run::event_by_event(
        crate::integrations::get_project_integration_steps::<D>(),
        GetProjectIntegration::Start,
    );
    assert(crate::integrations::key_names() =~= Seq::empty().push("origin"@).push("name"@).push(
        "integration"@,
    ));
}

/// The list of a project's jobs, up to the jobs themselves: the access to the project's origin is
/// checked, and the jobs of the project that the request names are asked for, from the first to the
/// last that the page asked for has. A page that makes no sense is answered with the response that
/// was prepared for it.
pub proof fn project_jobs_course<D>(
    target: TargetView,
    first: isize,
    last: isize,
    response: D,
    error: NetErrorView,
    raised: D,
)
    ensures
        ({
            let run = |pagination: Result<(isize, isize), D>, events: Seq<EventView<D>>|
                crate::run::after(
                    crate::jobs::project_jobs_steps::<D>(),
                    ProjectJobsView::Start { target, pagination },
                    events,
                );
            let good = Ok::<(isize, isize), D>((first, last));
            let bad = Err::<(isize, isize), D>(response);
            let e0 = Seq::<EventView<D>>::empty();
            let e1 = e0.push(EventView::Access(true));
            let check = ActionView::CheckOriginAccess {
                account: target.account,
                origin: target.origin,
            };
            &&& crate::run::asks(run(good, e0), check)
            &&& crate::run::asks(run(bad, e0), check)
            &&& crate::run::answers(
                run(good, e0.push(EventView::Access(false))),
                ResponseView::Status(FORBIDDEN),
            )
            &&& crate::run::answers(
                run(bad, e0.push(EventView::Access(false))),
                ResponseView::Status(FORBIDDEN),
            )
            &&& crate::run::leaves(run(good, e0.push(EventView::Raised(raised))), raised)
            &&& crate::run::leaves(run(bad, e0.push(EventView::Raised(raised))), raised)
            &&& crate::run::answers(run(bad, e1), ResponseView::Prepared(response))
            &&& crate::run::asks(
                run(good, e1),
                ActionView::Route(
                    MessageView::ProjectJobsGet {
                        name: target.origin + seq!['/'] + target.name,
                        start: first as u64,
                        stop: last as u64,
                    },
                ),
            )
            &&& crate::run::answers(
                run(good, e1.push(EventView::Refused(error))),
                ResponseView::NetError(error),
            )
        }),
{
    let steps = crate::jobs::project_jobs_steps::<D>();
    let good = Ok::<(isize, isize), D>((first, last));
    let bad = Err::<(isize, isize), D>(response);
    crate::run::event_by_event(steps, ProjectJobsView::Start { target, pagination: good });
    crate::run::event_by_event(steps, ProjectJobsView::Start { target, pagination: bad });
    crate::text::full_name_parts(target.origin, target.name);
}

/// `places` are the places of the complete jobs in a list, in their order.
pub open spec fn complete_places<D>(entries: Seq<JobEntryView<D>>, places: Seq<int>) -> bool {
    &&& forall|j: int|
        0 <= j < places.len() ==> 0 <= #[trigger] places[j] < entries.len()
            && entries[places[j]].state == JobState::Complete
    &&& forall|j: int, k: int|
        0 <= j < k < places.len() ==> #[trigger] places[j] < #[trigger] places[k]
    &&& forall|i: int|
        0 <= i < entries.len() && (#[trigger] entries[i]).state == JobState::Complete
            ==> places.contains(i)
}

/// The list of a project's jobs, from the jobs on. For one complete job after the other, in their
/// order, the channels and platforms of its package are looked up on behalf of the account. Then
/// every job is shown in its place, the complete ones with what was looked up for them and the
/// others as they are, and the page reports the count and the range that came with the jobs.
pub proof fn project_jobs_listed<D>(
    target: TargetView,
    first: isize,
    last: isize,
    entries: Seq<JobEntryView<D>>,
    range: JobRange,
    places: Seq<int>,
    replies: Seq<ListingsView>,
    i: int,
)
    requires
        complete_places(entries, places),
        replies.len() <= places.len(),
    ensures
        ({
            let run = crate::run::after(
                crate::jobs::project_jobs_steps::<D>(),
                ProjectJobsView::Start { target, pagination: Ok((first, last)) },
                Seq::<EventView<D>>::empty().push(EventView::Access(true)).push(
                    EventView::Jobs { entries, range },
                ) + Seq::new(replies.len(), |j: int| EventView::<D>::Listings(replies[j])),
            );
            &&& replies.len() < places.len() ==> crate::run::asks(
                run,
                ActionView::FetchListings {
                    ident: entries[places[replies.len() as int]].ident,
                    session: Some(target.account),
                },
            )
            &&& replies.len() == places.len() ==> {
                &&& run is Respond
                &&& run->Respond_0 matches ResponseView::JobPage { jobs, count, start, stop }
                &&& count == range.count as isize
                &&& start == range.start as isize
                &&& stop == range.stop as isize
                &&& jobs.len() == entries.len()
                &&& 0 <= i < entries.len() && entries[i].state != JobState::Complete ==> jobs[i]
                    == entries[i].object
                &&& 0 <= i < places.len() ==> jobs[places[i]] == crate::jobs::annotated(
                    entries[places[i]].object,
                    replies[i],
                )
            }
        }),
{
    let pagination = Ok::<(isize, isize), D>((first, last));
    let head = Seq::<EventView<D>>::empty().push(EventView::Access(true)).push(
        EventView::Jobs { entries, range },
    );
    let events = head + Seq::new(replies.len(), |j: int| EventView::<D>::Listings(replies[j]));
    lemma_places(entries, places);
    assert(events[0] == EventView::<D>::Access(true));
    assert(events[1] == EventView::<D>::Jobs { entries, range });
    assert forall|k: int| 2 <= k < events.len() implies #[trigger] events[k] is Listings by {
        assert(events[k] == EventView::<D>::Listings(replies[k - 2]));
    }
    assert(crate::jobs::looked_up(events) =~= replies);
    if replies.len() == places.len() {
        crate::jobs::project_jobs_shown(target, pagination, events);
    } else {
        crate::jobs::project_jobs_next(target, pagination, events, places[replies.len() as int]);
    }
}

proof fn lemma_places<D>(entries: Seq<JobEntryView<D>>, places: Seq<int>)
    requires
        complete_places(entries, places),
    ensures
        crate::jobs::complete_count(entries) == places.len(),
        forall|j: int|
            0 <= j < places.len() ==> crate::jobs::complete_count(
                entries.take(#[trigger] places[j]),
            ) == j,
    decreases entries.len(),
{
    if entries.len() == 0 {
        if places.len() > 0 {
            assert(places[0] < entries.len());
        }
    } else {
        let n = entries.len() - 1;
        let shorter = entries.drop_last();
        if entries[n].state == JobState::Complete {
            let m = places.len() - 1;
            assert(places.contains(n));
            let j = choose|j: int| 0 <= j < places.len() && places[j] == n;
            if j < m {
                assert(places[j] < places[m]);
            }
            assert(places[m] == n);
            let fewer = places.drop_last();
            assert forall|i: int|
                0 <= i < shorter.len() && (#[trigger] shorter[i]).state
                    == JobState::Complete implies fewer.contains(i) by {
                assert(entries[i] == shorter[i]);
                assert(places.contains(i));
                let k = choose|k: int| 0 <= k < places.len() && places[k] == i;
                assert(fewer[k] == i);
            }
            assert forall|k: int| 0 <= k < fewer.len() implies 0 <= #[trigger] fewer[k]
                < shorter.len() && shorter[fewer[k]].state == JobState::Complete by {
                assert(places[k] < places[m]);
            }
            assert forall|a: int, b: int| 0 <= a < b < fewer.len() implies #[trigger] fewer[a]
                < #[trigger] fewer[b] by {
                assert(places[a] < places[b]);
            }
            lemma_places(shorter, fewer);
            assert forall|k: int| 0 <= k < places.len() implies crate::jobs::complete_count(
                entries.take(#[trigger] places[k]),
            ) == k by {
                if k < m {
                    assert(fewer[k] == places[k]);
                    assert(places[k] < places[m]);
                    assert(shorter.take(fewer[k]) =~= entries.take(places[k]));
                } else {
                    assert(entries.take(n) =~= shorter);
                }
            }
        } else {
            assert forall|k: int| 0 <= k < places.len() implies 0 <= #[trigger] places[k]
                < shorter.len() && shorter[places[k]].state == JobState::Complete by {
                assert(entries[places[k]].state == JobState::Complete);
            }
            assert forall|i: int|
                0 <= i < shorter.len() && (#[trigger] shorter[i]).state
                    == JobState::Complete implies places.contains(i) by {
                assert(entries[i] == shorter[i]);
            }
            lemma_places(shorter, places);
            assert forall|k: int| 0 <= k < places.len() implies crate::jobs::complete_count(
                entries.take(#[trigger] places[k]),
            ) == k by {
                assert(shorter.take(places[k]) =~= entries.take(places[k]));
            }
        }
    }
}

} // verus!
