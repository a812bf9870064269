//! What the views of the library's types show: every part of a value, as it is. Texts are shown by
//! their characters, JSON objects by their members, and all else by itself.

use vstd::prelude::*;
use vstd::string::*;

use crate::accounts::{AccountList, GithubAuthenticate, GithubAuthenticateView, Notify};
use crate::integrations::{
    CreateProjectIntegration, CreateProjectIntegrationView, GetProjectIntegration,
};
use crate::jobs::{
    JobGroupPromote, JobGroupPromoteView, JobLog, JobLogView, JobShow, JobShowView, ProjectJobs,
    ProjectJobsView, RdepsShow, RdepsShowView,
};
use crate::json::JsonObject;
use crate::param::{ParamValue, ParamValueView};
use crate::project_create::{ProjectCreate, ProjectCreateView};
use crate::project_update::{ProjectUpdate, ProjectUpdateView};
use crate::projects::{
    ProjectList, ProjectListView, ProjectPrivacyToggle, ProjectPrivacyToggleView, ProjectRequest,
    ProjectRequestView, VisibilityParam, VisibilityParamView,
};
use crate::types::{
    Action, ActionView, AuthFailure, AuthFailureView, Contents, Event, EventView, IntegrationKey,
    Job, JobEntry, JobRange, Listings, LogEntry, LogEntryView, Message, MessageView, NetError,
    NewProject, Origin, Project, ProjectCreateReq, Response, ResponseView, Session, Step, StepView,
    Target, Visibility,
};

verus! {

/// The view of a service's error shows its kind and its message.
pub proof fn net_error_view(value: NetError)
    ensures
        value@.code == value.code,
        value@.message == value.message@,
{
}

/// The view of GitHub's refusal shows what kind it is and what GitHub said.
pub proof fn auth_failure_view(
    reason: String,
)
    ensures
        AuthFailure::Denied(reason)@ == AuthFailureView::Denied(reason@),
        AuthFailure::BadReply@ == AuthFailureView::BadReply,
        AuthFailure::Other@ == AuthFailureView::Other,
{
}

/// The view of a target shows the account, the origin and the name.
pub proof fn target_view(value: Target)
    ensures
        value@.account == value.account,
        value@.origin == value.origin@,
        value@.name == value.name@,
{
}

/// The view of a session shows the account and the document.
pub proof fn session_view<D>(value: Session<D>)
    ensures
        value@.id == value.id,
        value@.name == value.name@,
        value@.document == value.document,
{
}

/// The view of a project shows each of its fields.
pub proof fn project_view<D>(value: Project<D>)
    ensures
        value@.origin_name == value.origin_name@,
        value@.package_name == value.package_name@,
        value@.plan_path == value.plan_path@,
        value@.vcs_data == value.vcs_data@,
        value@.vcs_installation_id == value.vcs_installation_id,
        value@.visibility == value.visibility,
        value@.document == value.document,
{
}

/// The view of an origin shows its number, its name and its visibility.
pub proof fn origin_view(value: Origin)
    ensures
        value@.id == value.id,
        value@.name == value.name@,
        value@.default_package_visibility == value.default_package_visibility,
{
}

/// The view of a job shows each of its parts.
pub proof fn job_view<D>(value: Job<D>)
    ensures
        value@.document == value.document,
        value@.object == crate::json::members(value.object),
        value@.ident == value.ident,
        value@.fully_qualified == value.fully_qualified,
        value@.origin_name == value.origin_name@,
        value@.visibility == value.visibility,
{
}

/// The view of a job in a list shows each of its parts.
pub proof fn job_entry_view<D>(value: JobEntry<D>)
    ensures
        value@.object == crate::json::members(value.object),
        value@.ident == value.ident,
        value@.state == value.state,
{
}

/// The view of listings shows the channels and the platforms.
pub proof fn listings_view(value: Listings)
    ensures
        value@.channels == value.channels.deep_view(),
        value@.platforms == value.platforms.deep_view(),
{
}

/// The view of a request's body shows each of its fields.
pub proof fn project_create_req_view(value: ProjectCreateReq)
    ensures
        value@.origin == value.origin@,
        value@.plan_path == value.plan_path@,
        value@.installation_id == value.installation_id,
        value@.repo_id == value.repo_id,
{
}

/// The view of a file shows its text and its document.
pub proof fn contents_view<D>(value: Contents<D>)
    ensures
        value@.content == value.content@,
        value@.document == value.document,
{
}

/// The view of an integration's key shows its three names.
pub proof fn integration_key_view(value: IntegrationKey)
    ensures
        value@.origin == value.origin@,
        value@.name == value.name@,
        value@.integration == value.integration@,
{
}

/// The view of a new project shows each of its fields.
pub proof fn new_project_view(value: NewProject)
    ensures
        value@.origin_name == value.origin_name@,
        value@.origin_id == value.origin_id,
        value@.package_name == value.package_name@,
        value@.plan_path == value.plan_path@,
        value@.owner_id == value.owner_id,
        value@.vcs_type == value.vcs_type@,
        value@.vcs_data == value.vcs_data@,
        value@.vcs_installation_id == value.vcs_installation_id,
        value@.visibility == value.visibility,
{
}

/// The view of a visibility that is asked for shows its word and what it stands for.
pub proof fn visibility_param_view(value: VisibilityParam)
    ensures
        value@.text == value.text@,
        value@.parsed == value.parsed,
{
}

/// The view of a line of the event log shows each of its fields.
pub proof fn log_entry_view(
    user: String,
    account: String,
    origin: String,
    package: String,
)
    ensures
        (LogEntry::GithubAuthenticate { user, account })@ == (LogEntryView::GithubAuthenticate {
            user: user@,
            account: account@,
        }),
        (LogEntry::ProjectCreate { origin, package, account })@ == (LogEntryView::ProjectCreate {
            origin: origin@,
            package: package@,
            account: account@,
        }),
{
}

/// The view of a message shows which one it is and each of its fields.
pub proof fn message_view<D>(
    name: String,
    origin: String,
    new_project: NewProject,
    requestor: u64,
    project: Project<D>,
    start: u64,
    stop: u64,
    id: u64,
    target: String,
    account: u64,
    key: IntegrationKey,
    integration_name: String,
    body: String,
)
    ensures
        (Message::<D>::OriginGet { name })@ == (MessageView::<D>::OriginGet {
            name: name@,
        }),
        (Message::<D>::ProjectGet { name })@ == (MessageView::<D>::ProjectGet {
            name: name@,
        }),
        (Message::<D>::ProjectListGet { origin })@ == (MessageView::<D>::ProjectListGet {
            origin: origin@,
        }),
        Message::<D>::ProjectCreate(new_project)@ == MessageView::<D>::ProjectCreate(new_project@),
        (Message::<D>::ProjectUpdate { requestor, project })@ == (MessageView::<D>::ProjectUpdate {
            requestor: requestor,
            project: project@,
        }),
        (Message::<D>::ProjectVisibilityUpdate { project })@ == (
        MessageView::<D>::ProjectVisibilityUpdate {
            project: project@,
        }),
        (Message::<D>::ProjectDelete { name, requestor })@ == (MessageView::<D>::ProjectDelete {
            name: name@,
            requestor: requestor,
        }),
        (Message::<D>::ProjectJobsGet { name, start, stop })@ == (MessageView::<D>::ProjectJobsGet {
            name: name@,
            start: start,
            stop: stop,
        }),
        (Message::<D>::JobGet { id })@ == (MessageView::<D>::JobGet {
            id: id,
        }),
        (Message::<D>::JobLogGet { id, start })@ == (MessageView::<D>::JobLogGet {
            id: id,
            start: start,
        }),
        (Message::<D>::ReverseDependenciesGet { origin, name, target })@ == (
        MessageView::<D>::ReverseDependenciesGet {
            origin: origin@,
            name: name@,
            target: target@,
        }),
        (Message::<D>::AccountInvitationList { account })@ == (
        MessageView::<D>::AccountInvitationList {
            account: account,
        }),
        (Message::<D>::AccountOriginList { account })@ == (MessageView::<D>::AccountOriginList {
            account: account,
        }),
        (Message::<D>::IntegrationCreate { key, integration_name, body })@ == (
        MessageView::<D>::IntegrationCreate {
            key: key@,
            integration_name: integration_name@,
            body: body@,
        }),
        (Message::<D>::IntegrationGet { key, integration_name })@ == (
        MessageView::<D>::IntegrationGet {
            key: key@,
            integration_name: integration_name@,
        }),
{
}

/// The view of an action shows which one it is and each of its parts.
pub proof fn action_view<D>(
    account: u64,
    origin: String,
    message: Message<D>,
    code: String,
    token: String,
    entry: LogEntry,
    group: u64,
    channel: String,
    session: Option<u64>,
    incoming: Visibility,
    current: Visibility,
    ident: D,
    document: D,
    installation_id: u64,
    repo_id: u64,
    path: String,
    bytes: Vec<u8>,
    names: Vec<String>,
)
    ensures
        (Action::<D>::CheckOriginAccess { account, origin })@ == (
        ActionView::<D>::CheckOriginAccess {
            account: account,
            origin: origin@,
        }),
        Action::<D>::Route(message)@ == ActionView::<D>::Route(message@),
        (Action::<D>::Authenticate { code })@ == (ActionView::<D>::Authenticate {
            code: code@,
        }),
        (Action::<D>::CreateSession { token })@ == (ActionView::<D>::CreateSession {
            token: token@,
        }),
        Action::<D>::Record(entry)@ == ActionView::<D>::Record(entry@),
        (Action::<D>::PromoteJobGroup { group, channel, session })@ == (
        ActionView::<D>::PromoteJobGroup {
            group: group,
            channel: channel@,
            session: session,
        }),
        (Action::<D>::TransitionVisibility { incoming, current })@ == (
        ActionView::<D>::TransitionVisibility {
            incoming: incoming,
            current: current,
        }),
        Action::<D>::HandleGithubEvent@ == ActionView::<D>::HandleGithubEvent,
        (Action::<D>::FetchListings { ident, session })@ == (ActionView::<D>::FetchListings {
            ident: ident,
            session: session,
        }),
        Action::<D>::StripAnsi(document)@ == ActionView::<D>::StripAnsi(document),
        Action::<D>::ReadProjectBody@ == ActionView::<D>::ReadProjectBody,
        Action::<D>::ReadJsonBody@ == ActionView::<D>::ReadJsonBody,
        (Action::<D>::AppInstallationToken { installation_id })@ == (
        ActionView::<D>::AppInstallationToken {
            installation_id: installation_id,
        }),
        (Action::<D>::FindRepo { token, repo_id })@ == (ActionView::<D>::FindRepo {
            token: token@,
            repo_id: repo_id,
        }),
        (Action::<D>::FetchContents { token, repo_id, path })@ == (ActionView::<D>::FetchContents {
            token: token@,
            repo_id: repo_id,
            path: path@,
        }),
        Action::<D>::DecodeContents(document)@ == ActionView::<D>::DecodeContents(document),
        Action::<D>::ParsePlan(bytes)@ == ActionView::<D>::ParsePlan(bytes@),
        (Action::<D>::ValidateParams { names })@ == (ActionView::<D>::ValidateParams {
            names: names.deep_view(),
        }),
{
}

/// The view of an event shows which one it is and each of its parts.
pub proof fn event_view<D>(
    allowed: bool,
    document: D,
    error: NetError,
    text: String,
    failure: AuthFailure,
    session: Session<D>,
    project: Project<D>,
    visibility: Visibility,
    origin: Origin,
    job: Job<D>,
    entries: Vec<JobEntry<D>>,
    range: JobRange,
    listings: Listings,
    names: Vec<String>,
    body: ProjectCreateReq,
    contents: Contents<D>,
    bytes: Vec<u8>,
    key: IntegrationKey,
    status: u16,
)
    ensures
        Event::<D>::Begin@ == EventView::<D>::Begin,
        Event::<D>::Access(allowed)@ == EventView::<D>::Access(allowed),
        Event::<D>::Raised(document)@ == EventView::<D>::Raised(document),
        Event::<D>::Refused(error)@ == EventView::<D>::Refused(error@),
        Event::<D>::Failed@ == EventView::<D>::Failed,
        Event::<D>::Done@ == EventView::<D>::Done,
        Event::<D>::Document(document)@ == EventView::<D>::Document(document),
        Event::<D>::Token(text)@ == EventView::<D>::Token(text@),
        Event::<D>::NotAuthenticated(failure)@ == EventView::<D>::NotAuthenticated(failure@),
        Event::<D>::Session(session)@ == EventView::<D>::Session(session@),
        Event::<D>::Project(project)@ == EventView::<D>::Project(project@),
        Event::<D>::Visibility(visibility)@ == EventView::<D>::Visibility(visibility),
        Event::<D>::Origin(origin)@ == EventView::<D>::Origin(origin@),
        Event::<D>::Job(job)@ == EventView::<D>::Job(job@),
        (Event::<D>::Jobs { entries, range })@ == (EventView::<D>::Jobs {
            entries: crate::types::entries_view(entries@),
            range: range,
        }),
        Event::<D>::Listings(listings)@ == EventView::<D>::Listings(listings@),
        Event::<D>::Names(names)@ == EventView::<D>::Names(names.deep_view()),
        Event::<D>::Integration(text)@ == EventView::<D>::Integration(text@),
        Event::<D>::ProjectBody(body)@ == EventView::<D>::ProjectBody(body@),
        Event::<D>::JsonBody(text)@ == EventView::<D>::JsonBody(text@),
        Event::<D>::NoBody@ == EventView::<D>::NoBody,
        Event::<D>::Repo(text)@ == EventView::<D>::Repo(text@),
        Event::<D>::Contents(contents)@ == EventView::<D>::Contents(contents@),
        Event::<D>::Bytes(bytes)@ == EventView::<D>::Bytes(bytes@),
        Event::<D>::Plan(text)@ == EventView::<D>::Plan(text@),
        Event::<D>::Params(key)@ == EventView::<D>::Params(key@),
        Event::<D>::BadParams(status)@ == EventView::<D>::BadParams(status),
{
}

/// The view of an answer shows which one it is and each of its parts.
pub proof fn response_view<D>(
    status: u16,
    text: &'static str,
    document: D,
    names: Vec<String>,
    object: JsonObject,
    value: serde_json::Value,
    jobs: Vec<JsonObject>,
    count: isize,
    start: isize,
    stop: isize,
    error: NetError,
)
    ensures
        Response::<D>::Status(status)@ == ResponseView::<D>::Status(status),
        (Response::<D>::Text { status, text })@ == (ResponseView::<D>::Text {
            status: status,
            text: text@,
        }),
        (Response::<D>::Json { status, document })@ == (ResponseView::<D>::Json {
            status: status,
            document: document,
        }),
        (Response::<D>::JsonNames { status, names })@ == (ResponseView::<D>::JsonNames {
            status: status,
            names: names.deep_view(),
        }),
        (Response::<D>::JsonObject { status, object })@ == (ResponseView::<D>::JsonObject {
            status: status,
            object: crate::json::members(object),
        }),
        (Response::<D>::JsonValue { status, value })@ == (ResponseView::<D>::JsonValue {
            status: status,
            value: value,
        }),
        (Response::<D>::JobPage { jobs, count, start, stop })@ == (ResponseView::<D>::JobPage {
            jobs: crate::types::objects_view(jobs@),
            count: count,
            start: start,
            stop: stop,
        }),
        Response::<D>::NetError(error)@ == ResponseView::<D>::NetError(error@),
        Response::<D>::Prepared(document)@ == ResponseView::<D>::Prepared(document),
{
}

/// The view of a step shows the action and the state, the answer, or the error.
pub proof fn step_view<S: View, D>(action: Action<D>, state: S, response: Response<D>, error: D)
    ensures
        Step::<S, D>::Perform(action, state)@ == StepView::<S::V, D>::Perform(action@, state@),
        Step::<S, D>::Respond(response)@ == StepView::<S::V, D>::Respond(response@),
        Step::<S, D>::Raise(error)@ == StepView::<S::V, D>::Raise(error),
{
}

/// The views of lists show each job in its place.
pub proof fn list_views<D>(entries: Seq<JobEntry<D>>, objects: Seq<JsonObject>)
    ensures
        crate::types::entries_view(entries).len() == entries.len(),
        forall|i: int|
            0 <= i < entries.len() ==> #[trigger] crate::types::entries_view(entries)[i]
                == entries[i]@,
        crate::types::objects_view(objects).len() == objects.len(),
        forall|i: int|
            0 <= i < objects.len() ==> #[trigger] crate::types::objects_view(objects)[i]
                == crate::json::members(objects[i]),
{
}

/// The views of what a request may lack show whether it is there, and what it is.
pub proof fn optional_views(value: ParamValue, param: VisibilityParam)
    ensures
        crate::param::opt_view(Some(value)) == Some(value@),
        crate::param::opt_view(None) is None,
        crate::projects::visibility_view(Some(param)) == Some(param@),
        crate::projects::visibility_view(None) is None,
{
}

/// The view of a parameter shows which value it is.
pub proof fn param_value_view(
    b: bool,
    n: i64,
    u: u64,
    text: String,
)
    ensures
        ParamValue::Boolean(b)@ == ParamValueView::Boolean(b),
        ParamValue::Signed(n)@ == ParamValueView::Signed(n),
        ParamValue::Unsigned(u)@ == ParamValueView::Unsigned(u),
        ParamValue::Text(text)@ == ParamValueView::Text(text@),
        ParamValue::Other@ == ParamValueView::Other,
{
}

/// The view of a request shows each of its parts.
pub proof fn github_authenticate_start_view<D>(
    code: String,
    functional_test: bool,
)
    ensures
        (GithubAuthenticate::<D>::Start { code, functional_test })@ == (
        GithubAuthenticateView::<D>::Start {
            code: code@,
            functional_test: functional_test,
        }),
{
}

/// The view of a request shows each of its parts.
pub proof fn account_list_start_view(
    account: u64,
)
    ensures
        (AccountList::Start { account })@ == (AccountList::Start {
            account: account,
        }),
{
}

/// The view of a request shows each of its parts.
pub proof fn notify_start_view(
    github_event: bool,
)
    ensures
        (Notify::Start { github_event })@ == (Notify::Start {
            github_event: github_event,
        }),
{
}

/// The view of a request shows that it has just begun.
pub proof fn create_project_integration_start_view()
    ensures
        CreateProjectIntegration::Start@ == CreateProjectIntegrationView::Start,
{
}

/// The view of a request shows that it has just begun.
pub proof fn get_project_integration_start_view()
    ensures
        GetProjectIntegration::Start@ == GetProjectIntegration::Start,
{
}

/// The view of a request shows each of its parts.
pub proof fn job_group_promote_start_view(
    id: Option<String>,
    channel: Option<String>,
    account: u64,
)
    ensures
        (JobGroupPromote::Start { id, channel, account })@ == (JobGroupPromoteView::Start {
            id: id.deep_view(),
            channel: channel.deep_view(),
            account: account,
        }),
{
}

/// The view of a request shows each of its parts.
pub proof fn job_log_start_view(
    id: String,
    start: Option<ParamValue>,
    color: Option<ParamValue>,
    account: Option<u64>,
)
    ensures
        (JobLog::Start { id, start, color, account })@ == (JobLogView::Start {
            id: id@,
            start: crate::param::opt_view(start),
            color: crate::param::opt_view(color),
            account: account,
        }),
{
}

/// The view of a request shows each of its parts.
pub proof fn job_show_start_view(
    id: String,
    account: Option<u64>,
)
    ensures
        (JobShow::Start { id, account })@ == (JobShowView::Start {
            id: id@,
            account: account,
        }),
{
}

/// The view of a request shows each of its parts.
pub proof fn project_jobs_start_view<D>(
    target: Target,
    pagination: Result<(isize, isize), D>,
)
    ensures
        (ProjectJobs::<D>::Start { target, pagination })@ == (ProjectJobsView::<D>::Start {
            target: target@,
            pagination: pagination,
        }),
{
}

/// The view of a request shows each of its parts.
pub proof fn rdeps_show_start_view(
    origin: Option<String>,
    name: Option<String>,
)
    ensures
        (RdepsShow::Start { origin, name })@ == (RdepsShowView::Start {
            origin: origin.deep_view(),
            name: name.deep_view(),
        }),
{
}

/// The view of a request shows each of its parts.
pub proof fn project_create_start_view<D>(
    account: u64,
)
    ensures
        (ProjectCreate::<D>::Start { account })@ == (ProjectCreateView::<D>::Start {
            account: account,
        }),
{
}

/// The view of a request shows each of its parts.
pub proof fn project_update_start_view<D>(
    target: Target,
)
    ensures
        ProjectUpdate::<D>::Start(target)@ == ProjectUpdateView::<D>::Start(target@),
{
}

/// The view of a request shows each of its parts.
pub proof fn project_privacy_toggle_start_view<D>(
    account: u64,
    origin: Option<String>,
    name: Option<String>,
    visibility: Option<VisibilityParam>,
)
    ensures
        (ProjectPrivacyToggle::<D>::Start { account, origin, name, visibility })@ == (
        ProjectPrivacyToggleView::<D>::Start {
            account: account,
            origin: origin.deep_view(),
            name: name.deep_view(),
            visibility: crate::projects::visibility_view(visibility),
        }),
{
}

/// The view of a request shows each of its parts.
pub proof fn project_request_start_view(
    target: Target,
)
    ensures
        ProjectRequest::Start(target)@ == ProjectRequestView::Start(target@),
{
}

/// The view of a request shows each of its parts.
pub proof fn project_list_start_view(
    account: u64,
    origin: String,
)
    ensures
        (ProjectList::Start { account, origin })@ == (ProjectListView::Start {
            account: account,
            origin: origin@,
        }),
{
}

} // verus!
