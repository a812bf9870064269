//! What the handlers exchange with the services around them.
//!
//! A handler never performs work itself. Each of its steps names an [`Action`] to perform, and the
//! [`Event`] that reports its result leads to the next step, until the request is answered.
//!
//! Type parameter `D` stands for whatever a handler receives and only hands on: a service's
//! document, a prepared response, an error that the server reports by itself.

use vstd::prelude::*;

use crate::json::JsonObject;

verus! {

/// Everything is as asked.
pub const OK: u16 = 200;

/// Something new has been made.
pub const CREATED: u16 = 201;

/// Done, with nothing to show.
pub const NO_CONTENT: u16 = 204;

/// The request makes no sense.
pub const BAD_REQUEST: u16 = 400;

/// The requestor may not do this.
pub const FORBIDDEN: u16 = 403;

/// There is no such thing.
pub const NOT_FOUND: u16 = 404;

/// The thing exists already.
pub const CONFLICT: u16 = 409;

/// The request's contents do not hold up.
pub const UNPROCESSABLE_ENTITY: u16 = 422;

/// A service failed.
pub const INTERNAL_SERVER_ERROR: u16 = 500;

/// Who may see the packages of a project.
#[derive(Clone, Copy, Debug, PartialEq, Eq)]
pub enum Visibility {
    Public,
    Private,
    Hidden,
}

/// What kind of error a service reports.
#[derive(Clone, Copy, Debug, PartialEq, Eq)]
pub enum ErrCode {
    AccessDenied,
    BadRemoteReply,
    Bug,
    EntityConflict,
    EntityNotFound,
    /// Any other error, by its number.
    Other(i32),
}

/// An error that a service reports.
#[derive(Debug, PartialEq, Eq)]
pub struct NetError {
    pub code: ErrCode,
    pub message: String,
}

/// What a [`NetError`] holds.
pub struct NetErrorView {
    pub code: ErrCode,
    pub message: Seq<char>,
}

impl View for NetError {
    type V = NetErrorView;

    open spec fn view(&self) -> NetErrorView {
        NetErrorView { code: self.code, message: self.message@ }
    }
}

/// Why GitHub did not hand out a user's token.
#[derive(Debug, PartialEq, Eq)]
pub enum AuthFailure {
    /// It refused, and said why.
    Denied(String),
    /// Its reply could not be read.
    BadReply,
    Other,
}

/// What an [`AuthFailure`] holds.
pub enum AuthFailureView {
    Denied(Seq<char>),
    BadReply,
    Other,
}

impl View for AuthFailure {
    type V = AuthFailureView;

    open spec fn view(&self) -> AuthFailureView {
        match self {
            AuthFailure::Denied(reason) => AuthFailureView::Denied(reason@),
            AuthFailure::BadReply => AuthFailureView::BadReply,
            AuthFailure::Other => AuthFailureView::Other,
        }
    }
}

/// Who acts on which project.
#[derive(Debug, PartialEq, Eq)]
pub struct Target {
    pub account: u64,
    pub origin: String,
    pub name: String,
}

/// What a [`Target`] holds.
pub struct TargetView {
    pub account: u64,
    pub origin: Seq<char>,
    pub name: Seq<char>,
}

impl View for Target {
    type V = TargetView;

    open spec fn view(&self) -> TargetView {
        TargetView { account: self.account, origin: self.origin@, name: self.name@ }
    }
}

/// A user's session.
#[derive(Debug, PartialEq, Eq)]
pub struct Session<D> {
    /// The account's number.
    pub id: u64,
    /// The account's name.
    pub name: String,
    pub document: D,
}

/// What a [`Session`] holds.
pub struct SessionView<D> {
    pub id: u64,
    pub name: Seq<char>,
    pub document: D,
}

impl<D> View for Session<D> {
    type V = SessionView<D>;

    open spec fn view(&self) -> SessionView<D> {
        SessionView { id: self.id, name: self.name@, document: self.document }
    }
}

/// A stored project: the fields that handlers read or set, and the project as the service gave it,
/// which holds all its other fields.
#[derive(Debug, PartialEq, Eq)]
pub struct Project<D> {
    pub origin_name: String,
    pub package_name: String,
    pub plan_path: String,
    pub vcs_data: String,
    pub vcs_installation_id: u64,
    pub visibility: Visibility,
    pub document: D,
}

/// What a [`Project`] holds.
pub struct ProjectView<D> {
    pub origin_name: Seq<char>,
    pub package_name: Seq<char>,
    pub plan_path: Seq<char>,
    pub vcs_data: Seq<char>,
    pub vcs_installation_id: u64,
    pub visibility: Visibility,
    pub document: D,
}

impl<D> View for Project<D> {
    type V = ProjectView<D>;

    open spec fn view(&self) -> ProjectView<D> {
        ProjectView {
            origin_name: self.origin_name@,
            package_name: self.package_name@,
            plan_path: self.plan_path@,
            vcs_data: self.vcs_data@,
            vcs_installation_id: self.vcs_installation_id,
            visibility: self.visibility,
            document: self.document,
        }
    }
}

/// An origin that projects belong to.
#[derive(Debug, PartialEq, Eq)]
pub struct Origin {
    pub id: u64,
    pub name: String,
    /// The visibility that the origin's packages have unless told otherwise.
    pub default_package_visibility: Visibility,
}

/// What an [`Origin`] holds.
pub struct OriginView {
    pub id: u64,
    pub name: Seq<char>,
    pub default_package_visibility: Visibility,
}

impl View for Origin {
    type V = OriginView;

    open spec fn view(&self) -> OriginView {
        OriginView {
            id: self.id,
            name: self.name@,
            default_package_visibility: self.default_package_visibility,
        }
    }
}

/// A build job.
#[derive(Debug, PartialEq)]
pub struct Job<D> {
    pub document: D,
    /// The job as a JSON object.
    pub object: JsonObject,
    /// The identifier of the package that the job builds.
    pub ident: D,
    /// The identifier names one build of the package, down to its release.
    pub fully_qualified: bool,
    /// The origin of the job's project.
    pub origin_name: String,
    /// The visibility of the job's project.
    pub visibility: Visibility,
}

/// What a [`Job`] holds.
pub struct JobView<D> {
    pub document: D,
    pub object: Map<Seq<char>, serde_json::Value>,
    pub ident: D,
    pub fully_qualified: bool,
    pub origin_name: Seq<char>,
    pub visibility: Visibility,
}

impl<D> View for Job<D> {
    type V = JobView<D>;

    open spec fn view(&self) -> JobView<D> {
        JobView {
            document: self.document,
            object: crate::json::members(self.object),
            ident: self.ident,
            fully_qualified: self.fully_qualified,
            origin_name: self.origin_name@,
            visibility: self.visibility,
        }
    }
}

/// How far a job has come.
#[derive(Clone, Copy, Debug, PartialEq, Eq)]
pub enum JobState {
    /// The job has come to its end with a package built.
    Complete,
    /// Any other state, by its number.
    Other(i32),
}

/// A job in a list of jobs.
#[derive(Debug, PartialEq)]
pub struct JobEntry<D> {
    /// The job as a JSON object.
    pub object: JsonObject,
    /// The identifier of the package that the job builds.
    pub ident: D,
    pub state: JobState,
}

/// What a [`JobEntry`] holds.
pub struct JobEntryView<D> {
    pub object: Map<Seq<char>, serde_json::Value>,
    pub ident: D,
    pub state: JobState,
}

impl<D> View for JobEntry<D> {
    type V = JobEntryView<D>;

    open spec fn view(&self) -> JobEntryView<D> {
        JobEntryView {
            object: crate::json::members(self.object),
            ident: self.ident,
            state: self.state,
        }
    }
}

/// Which jobs of how many a list shows.
#[derive(Clone, Copy, Debug, PartialEq, Eq)]
pub struct JobRange {
    pub count: u64,
    pub start: u64,
    pub stop: u64,
}

/// The channels and the platforms of a package, as far as they are known.
#[derive(Debug, PartialEq, Eq)]
pub struct Listings {
    pub channels: Option<Vec<String>>,
    pub platforms: Option<Vec<String>>,
}

/// What [`Listings`] hold.
pub struct ListingsView {
    pub channels: Option<Seq<Seq<char>>>,
    pub platforms: Option<Seq<Seq<char>>>,
}

impl View for Listings {
    type V = ListingsView;

    open spec fn view(&self) -> ListingsView {
        ListingsView {
            channels: self.channels.deep_view(),
            platforms: self.platforms.deep_view(),
        }
    }
}

/// The body of a request to create or to update a project.
#[derive(Debug, PartialEq, Eq)]
pub struct ProjectCreateReq {
    pub origin: String,
    /// Where in the repository the plan lies.
    pub plan_path: String,
    /// The installation of the GitHub app.
    pub installation_id: u64,
    /// The repository's number on GitHub.
    pub repo_id: u64,
}

/// What a [`ProjectCreateReq`] holds.
pub struct ProjectCreateReqView {
    pub origin: Seq<char>,
    pub plan_path: Seq<char>,
    pub installation_id: u64,
    pub repo_id: u64,
}

impl View for ProjectCreateReq {
    type V = ProjectCreateReqView;

    open spec fn view(&self) -> ProjectCreateReqView {
        ProjectCreateReqView {
            origin: self.origin@,
            plan_path: self.plan_path@,
            installation_id: self.installation_id,
            repo_id: self.repo_id,
        }
    }
}

/// A file of a repository.
#[derive(Debug, PartialEq, Eq)]
pub struct Contents<D> {
    /// The file in base64.
    pub content: String,
    pub document: D,
}

/// What [`Contents`] hold.
pub struct ContentsView<D> {
    pub content: Seq<char>,
    pub document: D,
}

impl<D> View for Contents<D> {
    type V = ContentsView<D>;

    open spec fn view(&self) -> ContentsView<D> {
        ContentsView { content: self.content@, document: self.document }
    }
}

/// Which integration of which project.
#[derive(Debug, PartialEq, Eq)]
pub struct IntegrationKey {
    pub origin: String,
    pub name: String,
    pub integration: String,
}

/// What an [`IntegrationKey`] holds.
pub struct IntegrationKeyView {
    pub origin: Seq<char>,
    pub name: Seq<char>,
    pub integration: Seq<char>,
}

impl View for IntegrationKey {
    type V = IntegrationKeyView;

    open spec fn view(&self) -> IntegrationKeyView {
        IntegrationKeyView {
            origin: self.origin@,
            name: self.name@,
            integration: self.integration@,
        }
    }
}

/// A project that is to be stored.
#[derive(Debug, PartialEq, Eq)]
pub struct NewProject {
    pub origin_name: String,
    pub origin_id: u64,
    pub package_name: String,
    pub plan_path: String,
    pub owner_id: u64,
    pub vcs_type: String,
    pub vcs_data: String,
    pub vcs_installation_id: u64,
    pub visibility: Visibility,
}

/// What a [`NewProject`] holds.
pub struct NewProjectView {
    pub origin_name: Seq<char>,
    pub origin_id: u64,
    pub package_name: Seq<char>,
    pub plan_path: Seq<char>,
    pub owner_id: u64,
    pub vcs_type: Seq<char>,
    pub vcs_data: Seq<char>,
    pub vcs_installation_id: u64,
    pub visibility: Visibility,
}

impl View for NewProject {
    type V = NewProjectView;

    open spec fn view(&self) -> NewProjectView {
        NewProjectView {
            origin_name: self.origin_name@,
            origin_id: self.origin_id,
            package_name: self.package_name@,
            plan_path: self.plan_path@,
            owner_id: self.owner_id,
            vcs_type: self.vcs_type@,
            vcs_data: self.vcs_data@,
            vcs_installation_id: self.vcs_installation_id,
            visibility: self.visibility,
        }
    }
}

/// A line of the event log.
#[derive(Debug, PartialEq, Eq)]
pub enum LogEntry {
    GithubAuthenticate { user: String, account: String },
    ProjectCreate { origin: String, package: String, account: String },
}

/// What a [`LogEntry`] holds.
pub enum LogEntryView {
    GithubAuthenticate { user: Seq<char>, account: Seq<char> },
    ProjectCreate { origin: Seq<char>, package: Seq<char>, account: Seq<char> },
}

impl View for LogEntry {
    type V = LogEntryView;

    open spec fn view(&self) -> LogEntryView {
        match self {
            LogEntry::GithubAuthenticate { user, account } => LogEntryView::GithubAuthenticate {
                user: user@,
                account: account@,
            },
            LogEntry::ProjectCreate { origin, package, account } => LogEntryView::ProjectCreate {
                origin: origin@,
                package: package@,
                account: account@,
            },
        }
    }
}

/// A request to one of the builder's services.
#[derive(Debug, PartialEq, Eq)]
pub enum Message<D> {
    OriginGet { name: String },
    ProjectGet { name: String },
    ProjectListGet { origin: String },
    ProjectCreate(NewProject),
    /// Store `project`, whose origin, package, plan and repository may be new.
    ProjectUpdate { requestor: u64, project: Project<D> },
    /// Store `project`, whose visibility may be new.
    ProjectVisibilityUpdate { project: Project<D> },
    ProjectDelete { name: String, requestor: u64 },
    ProjectJobsGet { name: String, start: u64, stop: u64 },
    JobGet { id: u64 },
    JobLogGet { id: u64, start: u64 },
    ReverseDependenciesGet { origin: String, name: String, target: String },
    AccountInvitationList { account: u64 },
    AccountOriginList { account: u64 },
    IntegrationCreate { key: IntegrationKey, integration_name: String, body: String },
    IntegrationGet { key: IntegrationKey, integration_name: String },
}

/// What a [`Message`] holds.
pub enum MessageView<D> {
    OriginGet { name: Seq<char> },
    ProjectGet { name: Seq<char> },
    ProjectListGet { origin: Seq<char> },
    ProjectCreate(NewProjectView),
    ProjectUpdate { requestor: u64, project: ProjectView<D> },
    ProjectVisibilityUpdate { project: ProjectView<D> },
    ProjectDelete { name: Seq<char>, requestor: u64 },
    ProjectJobsGet { name: Seq<char>, start: u64, stop: u64 },
    JobGet { id: u64 },
    JobLogGet { id: u64, start: u64 },
    ReverseDependenciesGet { origin: Seq<char>, name: Seq<char>, target: Seq<char> },
    AccountInvitationList { account: u64 },
    AccountOriginList { account: u64 },
    IntegrationCreate { key: IntegrationKeyView, integration_name: Seq<char>, body: Seq<char> },
    IntegrationGet { key: IntegrationKeyView, integration_name: Seq<char> },
}

impl<D> View for Message<D> {
    type V = MessageView<D>;

    open spec fn view(&self) -> MessageView<D> {
        match self {
            Message::OriginGet { name } => MessageView::OriginGet { name: name@ },
            Message::ProjectGet { name } => MessageView::ProjectGet { name: name@ },
            Message::ProjectListGet { origin } => MessageView::ProjectListGet { origin: origin@ },
            Message::ProjectCreate(project) => MessageView::ProjectCreate(project@),
            Message::ProjectUpdate { requestor, project } => MessageView::ProjectUpdate {
                requestor: *requestor,
                project: project@,
            },
            Message::ProjectVisibilityUpdate { project } => {
                MessageView::ProjectVisibilityUpdate { project: project@ }
            },
            Message::ProjectDelete { name, requestor } => MessageView::ProjectDelete {
                name: name@,
                requestor: *requestor,
            },
            Message::ProjectJobsGet { name, start, stop } => MessageView::ProjectJobsGet {
                name: name@,
                start: *start,
                stop: *stop,
            },
            Message::JobGet { id } => MessageView::JobGet { id: *id },
            Message::JobLogGet { id, start } => MessageView::JobLogGet { id: *id, start: *start },
            Message::ReverseDependenciesGet { origin, name, target } => {
                MessageView::ReverseDependenciesGet {
                    origin: origin@,
                    name: name@,
                    target: target@,
                }
            },
            Message::AccountInvitationList { account } => MessageView::AccountInvitationList {
                account: *account,
            },
            Message::AccountOriginList { account } => MessageView::AccountOriginList {
                account: *account,
            },
            Message::IntegrationCreate { key, integration_name, body } => {
                MessageView::IntegrationCreate {
                    key: key@,
                    integration_name: integration_name@,
                    body: body@,
                }
            },
            Message::IntegrationGet { key, integration_name } => MessageView::IntegrationGet {
                key: key@,
                integration_name: integration_name@,
            },
        }
    }
}

/// Work that a handler wants done.
#[derive(Debug, PartialEq, Eq)]
pub enum Action<D> {
    /// Find out whether an account may act for an origin.
    CheckOriginAccess { account: u64, origin: String },
    /// Send a message to the service that it concerns.
    Route(Message<D>),
    /// Trade the code of a GitHub login for a token.
    Authenticate { code: String },
    /// Open a session for the owner of a GitHub token.
    CreateSession { token: String },
    /// Write a line to the event log.
    Record(LogEntry),
    /// Promote the packages of a job group to a channel, on behalf of an account.
    PromoteJobGroup { group: u64, channel: String, session: Option<u64> },
    /// Work out what becomes of `current` when `incoming` is asked for.
    TransitionVisibility { incoming: Visibility, current: Visibility },
    /// Handle the event that GitHub reports with the request.
    HandleGithubEvent,
    /// Look up the channels and the platforms of a package, as far as an account sees them.
    FetchListings { ident: D, session: Option<u64> },
    /// Take the terminal colours out of a job's log.
    StripAnsi(D),
    /// Read the request's body as a [`ProjectCreateReq`].
    ReadProjectBody,
    /// Read the request's body, which has to be JSON.
    ReadJsonBody,
    /// Get a token for an installation of the GitHub app.
    AppInstallationToken { installation_id: u64 },
    /// Look up a repository on GitHub.
    FindRepo { token: String, repo_id: u64 },
    /// Fetch a file of a repository from GitHub.
    FetchContents { token: String, repo_id: u64, path: String },
    /// Decode a file that was fetched.
    DecodeContents(D),
    /// Read a plan.
    ParsePlan(Vec<u8>),
    /// Find these parameters in the request and have the server judge them. The server's own
    /// function decides what else it asks of a request, such as access to the origin that is named;
    /// nothing is taken for granted of it here.
    ValidateParams { names: Vec<String> },
}

/// What an [`Action`] holds.
pub enum ActionView<D> {
    CheckOriginAccess { account: u64, origin: Seq<char> },
    Route(MessageView<D>),
    Authenticate { code: Seq<char> },
    CreateSession { token: Seq<char> },
    Record(LogEntryView),
    PromoteJobGroup { group: u64, channel: Seq<char>, session: Option<u64> },
    TransitionVisibility { incoming: Visibility, current: Visibility },
    HandleGithubEvent,
    FetchListings { ident: D, session: Option<u64> },
    StripAnsi(D),
    ReadProjectBody,
    ReadJsonBody,
    AppInstallationToken { installation_id: u64 },
    FindRepo { token: Seq<char>, repo_id: u64 },
    FetchContents { token: Seq<char>, repo_id: u64, path: Seq<char> },
    DecodeContents(D),
    ParsePlan(Seq<u8>),
    ValidateParams { names: Seq<Seq<char>> },
}

impl<D> View for Action<D> {
    type V = ActionView<D>;

    open spec fn view(&self) -> ActionView<D> {
        match self {
            Action::CheckOriginAccess { account, origin } => ActionView::CheckOriginAccess {
                account: *account,
                origin: origin@,
            },
            Action::Route(message) => ActionView::Route(message@),
            Action::Authenticate { code } => ActionView::Authenticate { code: code@ },
            Action::CreateSession { token } => ActionView::CreateSession { token: token@ },
            Action::Record(entry) => ActionView::Record(entry@),
            Action::PromoteJobGroup { group, channel, session } => ActionView::PromoteJobGroup {
                group: *group,
                channel: channel@,
                session: *session,
            },
            Action::TransitionVisibility { incoming, current } => {
                ActionView::TransitionVisibility { incoming: *incoming, current: *current }
            },
            Action::HandleGithubEvent => ActionView::HandleGithubEvent,
            Action::FetchListings { ident, session } => ActionView::FetchListings {
                ident: *ident,
                session: *session,
            },
            Action::StripAnsi(log) => ActionView::StripAnsi(*log),
            Action::ReadProjectBody => ActionView::ReadProjectBody,
            Action::ReadJsonBody => ActionView::ReadJsonBody,
            Action::AppInstallationToken { installation_id } => {
                ActionView::AppInstallationToken { installation_id: *installation_id }
            },
            Action::FindRepo { token, repo_id } => ActionView::FindRepo {
                token: token@,
                repo_id: *repo_id,
            },
            Action::FetchContents { token, repo_id, path } => ActionView::FetchContents {
                token: token@,
                repo_id: *repo_id,
                path: path@,
            },
            Action::DecodeContents(contents) => ActionView::DecodeContents(*contents),
            Action::ParsePlan(bytes) => ActionView::ParsePlan(bytes@),
            Action::ValidateParams { names } => ActionView::ValidateParams {
                names: names.deep_view(),
            },
        }
    }
}

/// What came of an action.
#[derive(Debug, PartialEq)]
pub enum Event<D> {
    /// Nothing has been done yet.
    Begin,
    /// The account may act for the origin, or may not.
    Access(bool),
    /// An error came up that the server reports by itself.
    Raised(D),
    /// A service reports an error.
    Refused(NetError),
    /// The action failed; nobody is told why.
    Failed,
    /// The action is done.
    Done,
    /// A service's reply, a prepared response, or a log.
    Document(D),
    Token(String),
    NotAuthenticated(AuthFailure),
    Session(Session<D>),
    Project(Project<D>),
    Visibility(Visibility),
    Origin(Origin),
    Job(Job<D>),
    Jobs { entries: Vec<JobEntry<D>>, range: JobRange },
    Listings(Listings),
    Names(Vec<String>),
    /// The body of an integration.
    Integration(String),
    ProjectBody(ProjectCreateReq),
    /// The request's body as it stands, a JSON text.
    JsonBody(String),
    /// The request has no body.
    NoBody,
    /// The repository's URL.
    Repo(String),
    Contents(Contents<D>),
    Bytes(Vec<u8>),
    /// The name that a plan gives its package.
    Plan(String),
    Params(IntegrationKey),
    /// The parameters were turned down, with this status.
    BadParams(u16),
}

/// What an [`Event`] holds.
pub enum EventView<D> {
    Begin,
    Access(bool),
    Raised(D),
    Refused(NetErrorView),
    Failed,
    Done,
    Document(D),
    Token(Seq<char>),
    NotAuthenticated(AuthFailureView),
    Session(SessionView<D>),
    Project(ProjectView<D>),
    Visibility(Visibility),
    Origin(OriginView),
    Job(JobView<D>),
    Jobs { entries: Seq<JobEntryView<D>>, range: JobRange },
    Listings(ListingsView),
    Names(Seq<Seq<char>>),
    Integration(Seq<char>),
    ProjectBody(ProjectCreateReqView),
    JsonBody(Seq<char>),
    NoBody,
    Repo(Seq<char>),
    Contents(ContentsView<D>),
    Bytes(Seq<u8>),
    Plan(Seq<char>),
    Params(IntegrationKeyView),
    BadParams(u16),
}

/// What the entries of a list of jobs hold.
pub open spec fn entries_view<D>(entries: Seq<JobEntry<D>>) -> Seq<JobEntryView<D>> {
    entries.map_values(|entry: JobEntry<D>| entry@)
}

/// The members of the JSON objects in a list.
pub open spec fn objects_view(objects: Seq<JsonObject>) -> Seq<Map<Seq<char>, serde_json::Value>> {
    objects.map_values(|object: JsonObject| crate::json::members(object))
}

impl<D> View for Event<D> {
    type V = EventView<D>;

    open spec fn view(&self) -> EventView<D> {
        match self {
            Event::Begin => EventView::Begin,
            Event::Access(allowed) => EventView::Access(*allowed),
            Event::Raised(error) => EventView::Raised(*error),
            Event::Refused(error) => EventView::Refused(error@),
            Event::Failed => EventView::Failed,
            Event::Done => EventView::Done,
            Event::Document(document) => EventView::Document(*document),
            Event::Token(token) => EventView::Token(token@),
            Event::NotAuthenticated(failure) => EventView::NotAuthenticated(failure@),
            Event::Session(session) => EventView::Session(session@),
            Event::Project(project) => EventView::Project(project@),
            Event::Visibility(visibility) => EventView::Visibility(*visibility),
            Event::Origin(origin) => EventView::Origin(origin@),
            Event::Job(job) => EventView::Job(job@),
            Event::Jobs { entries, range } => EventView::Jobs {
                entries: entries_view(entries@),
                range: *range,
            },
            Event::Listings(listings) => EventView::Listings(listings@),
            Event::Names(names) => EventView::Names(names.deep_view()),
            Event::Integration(body) => EventView::Integration(body@),
            Event::ProjectBody(body) => EventView::ProjectBody(body@),
            Event::JsonBody(body) => EventView::JsonBody(body@),
            Event::NoBody => EventView::NoBody,
            Event::Repo(url) => EventView::Repo(url@),
            Event::Contents(contents) => EventView::Contents(contents@),
            Event::Bytes(bytes) => EventView::Bytes(bytes@),
            Event::Plan(name) => EventView::Plan(name@),
            Event::Params(key) => EventView::Params(key@),
            Event::BadParams(status) => EventView::BadParams(*status),
        }
    }
}

/// The answer to a request.
#[derive(Debug, PartialEq)]
pub enum Response<D> {
    /// A status without a body.
    Status(u16),
    /// A status and a line of text.
    Text { status: u16, text: &'static str },
    /// A service's reply, as JSON.
    Json { status: u16, document: D },
    JsonNames { status: u16, names: Vec<String> },
    JsonObject { status: u16, object: JsonObject },
    JsonValue { status: u16, value: serde_json::Value },
    /// One page of a list of jobs.
    JobPage { jobs: Vec<JsonObject>, count: isize, start: isize, stop: isize },
    /// A service's error, with the status that belongs to it.
    NetError(NetError),
    /// A response that was prepared elsewhere.
    Prepared(D),
}

/// What a [`Response`] holds.
pub enum ResponseView<D> {
    Status(u16),
    Text { status: u16, text: Seq<char> },
    Json { status: u16, document: D },
    JsonNames { status: u16, names: Seq<Seq<char>> },
    JsonObject { status: u16, object: Map<Seq<char>, serde_json::Value> },
    JsonValue { status: u16, value: serde_json::Value },
    JobPage {
        jobs: Seq<Map<Seq<char>, serde_json::Value>>,
        count: isize,
        start: isize,
        stop: isize,
    },
    NetError(NetErrorView),
    Prepared(D),
}

impl<D> View for Response<D> {
    type V = ResponseView<D>;

    open spec fn view(&self) -> ResponseView<D> {
        match self {
            Response::Status(status) => ResponseView::Status(*status),
            Response::Text { status, text } => ResponseView::Text { status: *status, text: text@ },
            Response::Json { status, document } => ResponseView::Json {
                status: *status,
                document: *document,
            },
            Response::JsonNames { status, names } => ResponseView::JsonNames {
                status: *status,
                names: names.deep_view(),
            },
            Response::JsonObject { status, object } => ResponseView::JsonObject {
                status: *status,
                object: crate::json::members(*object),
            },
            Response::JsonValue { status, value } => ResponseView::JsonValue {
                status: *status,
                value: *value,
            },
            Response::JobPage { jobs, count, start, stop } => ResponseView::JobPage {
                jobs: objects_view(jobs@),
                count: *count,
                start: *start,
                stop: *stop,
            },
            Response::NetError(error) => ResponseView::NetError(error@),
            Response::Prepared(response) => ResponseView::Prepared(*response),
        }
    }
}

/// How a handler goes on.
#[derive(Debug, PartialEq)]
pub enum Step<S, D> {
    /// Perform the action, and come back in this state with what came of it.
    Perform(Action<D>, S),
    /// Answer the request.
    Respond(Response<D>),
    /// Let the server report the error.
    Raise(D),
}

/// What a [`Step`] holds. `Stray` is what no step amounts to: the way on from an event that the
/// state does not wait for.
pub enum StepView<S, D> {
    Perform(ActionView<D>, S),
    Respond(ResponseView<D>),
    Raise(D),
    Stray,
}

impl<S: View, D> View for Step<S, D> {
    type V = StepView<S::V, D>;

    open spec fn view(&self) -> StepView<S::V, D> {
        match self {
            Step::Perform(action, state) => StepView::Perform(action@, state@),
            Step::Respond(response) => StepView::Respond(response@),
            Step::Raise(error) => StepView::Raise(*error),
        }
    }
}

/// The answer to a request whose contents do not hold up.
pub open spec fn unprocessable<S, D>(text: Seq<char>) -> StepView<S, D> {
    StepView::Respond(ResponseView::Text { status: UNPROCESSABLE_ENTITY, text })
}

/// The statuses are those of HTTP, by their numbers.
pub proof fn status_numbers()
    ensures
        OK == 200,
        CREATED == 201,
        NO_CONTENT == 204,
        BAD_REQUEST == 400,
        FORBIDDEN == 403,
        NOT_FOUND == 404,
        CONFLICT == 409,
        UNPROCESSABLE_ENTITY == 422,
        INTERNAL_SERVER_ERROR == 500,
{
}

} // verus!
