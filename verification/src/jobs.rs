//! Jobs: showing them, their logs and the jobs of a project, and promoting what they built.

use vstd::prelude::*;
use vstd::string::*;

use crate::json::JsonObject;
use crate::param::{ParamValue, ParamValueView};
use crate::types::{
    Action, ActionView, Event, EventView, JobEntry, JobEntryView, JobRange, JobState, Listings,
    ListingsView, Message, MessageView, Response, ResponseView, Step, StepView, Target, TargetView,
    Visibility, BAD_REQUEST, FORBIDDEN, OK,
};

verus! {

/// How far the display of a job's log has come.
#[derive(Debug, PartialEq)]
pub enum JobLog {
    Start {
        id: String,
        start: Option<ParamValue>,
        color: Option<ParamValue>,
        account: Option<u64>,
    },
    FetchingJob { job: u64, line: u64, colored: bool, account: Option<u64> },
    CheckingAccess { job: u64, line: u64, colored: bool },
    FetchingLog { colored: bool },
    StrippingColor,
}

/// What a [`JobLog`] holds.
pub enum JobLogView {
    Start {
        id: Seq<char>,
        start: Option<ParamValueView>,
        color: Option<ParamValueView>,
        account: Option<u64>,
    },
    FetchingJob { job: u64, line: u64, colored: bool, account: Option<u64> },
    CheckingAccess { job: u64, line: u64, colored: bool },
    FetchingLog { colored: bool },
    StrippingColor,
}

impl View for JobLog {
    type V = JobLogView;

    open spec fn view(&self) -> JobLogView {
        match self {
            JobLog::Start { id, start, color, account } => JobLogView::Start {
                id: id@,
                start: crate::param::opt_view(*start),
                color: crate::param::opt_view(*color),
                account: *account,
            },
            JobLog::FetchingJob { job, line, colored, account } => JobLogView::FetchingJob {
                job: *job,
                line: *line,
                colored: *colored,
                account: *account,
            },
            JobLog::CheckingAccess { job, line, colored } => JobLogView::CheckingAccess {
                job: *job,
                line: *line,
                colored: *colored,
            },
            JobLog::FetchingLog { colored } => JobLogView::FetchingLog { colored: *colored },
            JobLog::StrippingColor => JobLogView::StrippingColor,
        }
    }
}

/// The events that a state of the log's display waits for.
pub open spec fn job_log_awaits<D>(state: JobLogView, event: EventView<D>) -> bool {
    match state {
        JobLogView::Start { .. } => event is Begin,
        JobLogView::FetchingJob { .. } => event is Job || event is Refused,
        JobLogView::CheckingAccess { .. } => event is Access || event is Raised,
        JobLogView::FetchingLog { .. } => event is Document || event is Refused,
        JobLogView::StrippingColor => event is Document,
    }
}

/// The log is asked for.
pub open spec fn log_requested<D>(job: u64, line: u64, colored: bool) -> StepView<JobLogView, D> {
    StepView::Perform(
        ActionView::Route(MessageView::JobLogGet { id: job, start: line }),
        JobLogView::FetchingLog { colored },
    )
}

/// How the display of a job's log goes on.
pub open spec fn job_log_step<D>(state: JobLogView, event: EventView<D>) -> StepView<
    JobLogView,
    D,
> {
    match (state, event) {
        (JobLogView::Start { id, start, color, account }, EventView::Begin) => {
            match (crate::param::asked_number(start), crate::text::parsed_id(id)) {
                (Some(line), Some(job)) => StepView::Perform(
                    ActionView::Route(MessageView::JobGet { id: job }),
                    JobLogView::FetchingJob {
                        job,
                        line,
                        colored: crate::param::says_yes(color),
                        account,
                    },
                ),
                _ => StepView::Respond(ResponseView::Status(BAD_REQUEST)),
            }
        },
        (JobLogView::FetchingJob { job, line, colored, account }, EventView::Job(found)) => {
            if found.visibility != Visibility::Private {
                log_requested(job, line, colored)
            } else {
                match account {
                    Some(account) => StepView::Perform(
                        ActionView::CheckOriginAccess { account, origin: found.origin_name },
                        JobLogView::CheckingAccess { job, line, colored },
                    ),
                    None => StepView::Respond(ResponseView::Status(FORBIDDEN)),
                }
            }
        },
        (JobLogView::FetchingJob { .. }, EventView::Refused(error)) => StepView::Respond(
            ResponseView::NetError(error),
        ),
        (JobLogView::CheckingAccess { job, line, colored }, EventView::Access(allowed)) => {
            if allowed {
                log_requested(job, line, colored)
            } else {
                StepView::Respond(ResponseView::Status(FORBIDDEN))
            }
        },
        (JobLogView::CheckingAccess { .. }, EventView::Raised(error)) => StepView::Raise(error),
        (JobLogView::FetchingLog { colored }, EventView::Document(document)) => {
            if colored {
                StepView::Respond(ResponseView::Json { status: OK, document })
            } else {
                StepView::Perform(ActionView::StripAnsi(document), JobLogView::StrippingColor)
            }
        },
        (JobLogView::FetchingLog { .. }, EventView::Refused(error)) => StepView::Respond(
            ResponseView::NetError(error),
        ),
        (JobLogView::StrippingColor, EventView::Document(document)) => StepView::Respond(
            ResponseView::Json { status: OK, document },
        ),
        _ => StepView::Stray,
    }
}

/// Shows the log of a job, from a line on that the request may name, and without the terminal
/// colours unless the request asks for them.
///
/// Before fetching the log, the job is looked at: if it builds a private package, only those who
/// have access to the package's origin see the log.
pub fn job_log<D>(state: JobLog, event: Event<D>) -> (step: Step<JobLog, D>)
    requires
        job_log_awaits(state@, event@),
    ensures
        step@ == job_log_step(state@, event@),
{
    match (state, event) {
        (JobLog::Start { id, start, color, account }, Event::Begin) => {
            let line: u64 = match crate::param::number_or_zero(&start) {
                Some(line) => line,
                None => return Step::Respond(Response::Status(BAD_REQUEST)),
            };
            let colored = crate::param::is_yes(color);
            match crate::text::parse_id(id.as_str()) {
                Some(job) => Step::Perform(
                    Action::Route(Message::JobGet { id: job }),
                    JobLog::FetchingJob { job, line, colored, account },
                ),
                None => Step::Respond(Response::Status(BAD_REQUEST)),
            }
        },
        (JobLog::FetchingJob { job, line, colored, account }, Event::Job(found)) => {
            match found.visibility {
                Visibility::Private => match account {
                    Some(account) => Step::Perform(
                        Action::CheckOriginAccess { account, origin: found.origin_name },
                        JobLog::CheckingAccess { job, line, colored },
                    ),
                    None => Step::Respond(Response::Status(FORBIDDEN)),
                },
                _ => Step::Perform(
                    Action::Route(Message::JobLogGet { id: job, start: line }),
                    JobLog::FetchingLog { colored },
                ),
            }
        },
        (JobLog::FetchingJob { .. }, Event::Refused(error)) => Step::Respond(
            Response::NetError(error),
        ),
        (JobLog::CheckingAccess { job, line, colored }, Event::Access(allowed)) => {
            if !allowed {
                return Step::Respond(Response::Status(FORBIDDEN));
            }
            Step::Perform(
                Action::Route(Message::JobLogGet { id: job, start: line }),
                JobLog::FetchingLog { colored },
            )
        },
        (JobLog::CheckingAccess { .. }, Event::Raised(error)) => Step::Raise(error),
        (JobLog::FetchingLog { colored }, Event::Document(document)) => {
            if colored {
                Step::Respond(Response::Json { status: OK, document })
            } else {
                Step::Perform(Action::StripAnsi(document), JobLog::StrippingColor)
            }
        },
        (JobLog::FetchingLog { .. }, Event::Refused(error)) => Step::Respond(
            Response::NetError(error),
        ),
        (JobLog::StrippingColor, Event::Document(document)) => Step::Respond(
            Response::Json { status: OK, document },
        ),
        _ => vstd::pervasive::unreached(),
    }
}

/// A job's JSON object with the channels and the platforms of its package, as far as they are
/// known.
pub open spec fn annotated(
    object: Map<Seq<char>, serde_json::Value>,
    listings: ListingsView,
) -> Map<Seq<char>, serde_json::Value> {
    crate::json::with_list(
        crate::json::with_list(object, "channels"@, listings.channels),
        "platforms"@,
        listings.platforms,
    )
}

/// Adds the channels and the platforms of its package to a job.
pub fn annotate(object: JsonObject, listings: Listings) -> (result: JsonObject)
    ensures
        crate::json::members(result) == annotated(crate::json::members(object), listings@),
{
    let mut result = object;
    crate::json::set_list(&mut result, "channels", listings.channels);
    crate::json::set_list(&mut result, "platforms", listings.platforms);
    result
}

/// How far the list of a project's jobs has come.
#[derive(Debug, PartialEq)]
pub enum ProjectJobs<D> {
    Start { target: Target, pagination: Result<(isize, isize), D> },
    CheckingAccess { target: Target, pagination: Result<(isize, isize), D> },
    Fetching { account: u64 },
    /// Some jobs are ready, one lacks its channels and platforms, and some are still to come.
    Listing {
        account: u64,
        ready: Vec<JsonObject>,
        object: JsonObject,
        rest: Vec<JobEntry<D>>,
        range: JobRange,
    },
}

/// What a [`ProjectJobs`] holds.
pub enum ProjectJobsView<D> {
    Start { target: TargetView, pagination: Result<(isize, isize), D> },
    CheckingAccess { target: TargetView, pagination: Result<(isize, isize), D> },
    Fetching { account: u64 },
    Listing {
        account: u64,
        ready: Seq<Map<Seq<char>, serde_json::Value>>,
        object: Map<Seq<char>, serde_json::Value>,
        rest: Seq<JobEntryView<D>>,
        range: JobRange,
    },
}

impl<D> View for ProjectJobs<D> {
    type V = ProjectJobsView<D>;

    open spec fn view(&self) -> ProjectJobsView<D> {
        match self {
            ProjectJobs::Start { target, pagination } => ProjectJobsView::Start {
                target: target@,
                pagination: *pagination,
            },
            ProjectJobs::CheckingAccess { target, pagination } => {
                ProjectJobsView::CheckingAccess { target: target@, pagination: *pagination }
            },
            ProjectJobs::Fetching { account } => ProjectJobsView::Fetching { account: *account },
            ProjectJobs::Listing { account, ready, object, rest, range } => {
                ProjectJobsView::Listing {
                    account: *account,
                    ready: crate::types::objects_view(ready@),
                    object: crate::json::members(*object),
                    rest: crate::types::entries_view(rest@),
                    range: *range,
                }
            },
        }
    }
}

/// The events that a state of the list of jobs waits for.
pub open spec fn project_jobs_awaits<D>(state: ProjectJobsView<D>, event: EventView<D>) -> bool {
    match state {
        ProjectJobsView::Start { .. } => event is Begin,
        ProjectJobsView::CheckingAccess { .. } => event is Access || event is Raised,
        ProjectJobsView::Fetching { .. } => event is Jobs || event is Refused,
        ProjectJobsView::Listing { .. } => event is Listings,
    }
}

/// The page that shows the jobs `ready`.
pub open spec fn job_page<D>(
    ready: Seq<Map<Seq<char>, serde_json::Value>>,
    range: JobRange,
) -> ResponseView<D> {
    ResponseView::JobPage {
        jobs: ready,
        count: range.count as isize,
        start: range.start as isize,
        stop: range.stop as isize,
    }
}

/// How the list goes on with `rest` to come: jobs are taken over as they are up to the first one
/// that is complete, whose channels and platforms are looked up.
pub open spec fn jobs_listed<D>(
    account: u64,
    ready: Seq<Map<Seq<char>, serde_json::Value>>,
    rest: Seq<JobEntryView<D>>,
    range: JobRange,
) -> StepView<ProjectJobsView<D>, D>
    decreases rest.len(),
{
    if rest.len() == 0 {
        StepView::Respond(job_page(ready, range))
    } else {
        let entry = rest[0];
        let later = rest.drop_first();
        if entry.state == JobState::Complete {
            StepView::Perform(
                ActionView::FetchListings { ident: entry.ident, session: Some(account) },
                ProjectJobsView::Listing {
                    account,
                    ready,
                    object: entry.object,
                    rest: later,
                    range,
                },
            )
        } else {
            jobs_listed(account, ready.push(entry.object), later, range)
        }
    }
}

/// How the list of a project's jobs goes on.
pub open spec fn project_jobs_step<D>(
    state: ProjectJobsView<D>,
    event: EventView<D>,
) -> StepView<ProjectJobsView<D>, D> {
    match (state, event) {
        (ProjectJobsView::Start { target, pagination }, EventView::Begin) => StepView::Perform(
            ActionView::CheckOriginAccess { account: target.account, origin: target.origin },
            ProjectJobsView::CheckingAccess { target, pagination },
        ),
        (ProjectJobsView::CheckingAccess { target, pagination }, EventView::Access(allowed)) => {
            if !allowed {
                StepView::Respond(ResponseView::Status(FORBIDDEN))
            } else {
                match pagination {
                    Ok((start, stop)) => StepView::Perform(
                        ActionView::Route(
                            MessageView::ProjectJobsGet {
                                name: crate::text::full_name(target.origin, target.name),
                                start: start as u64,
                                stop: stop as u64,
                            },
                        ),
                        ProjectJobsView::Fetching { account: target.account },
                    ),
                    Err(response) => StepView::Respond(ResponseView::Prepared(response)),
                }
            }
        },
        (ProjectJobsView::CheckingAccess { .. }, EventView::Raised(error)) => StepView::Raise(
            error,
        ),
        (ProjectJobsView::Fetching { account }, EventView::Jobs { entries, range }) => {
            jobs_listed(account, Seq::empty(), entries, range)
        },
        (ProjectJobsView::Fetching { .. }, EventView::Refused(error)) => StepView::Respond(
            ResponseView::NetError(error),
        ),
        (
            ProjectJobsView::Listing { account, ready, object, rest, range },
            EventView::Listings(listings),
        ) => jobs_listed(account, ready.push(annotated(object, listings)), rest, range),
        _ => StepView::Stray,
    }
}

/// Takes jobs over into the list up to the next one that is complete.
pub fn list_jobs<D>(
    account: u64,
    ready: Vec<JsonObject>,
    rest: Vec<JobEntry<D>>,
    range: JobRange,
) -> (step: Step<ProjectJobs<D>, D>)
    ensures
        step@ == jobs_listed(
            account,
            crate::types::objects_view(ready@),
            crate::types::entries_view(rest@),
            range,
        ),
{
    let ghost goal = jobs_listed(
        account,
        crate::types::objects_view(ready@),
        crate::types::entries_view(rest@),
        range,
    );
    let mut ready = ready;
    let mut rest = rest;
    #[verifier::loop_isolation(false)]
    while rest.len() > 0
        invariant
            goal == jobs_listed(
                account,
                crate::types::objects_view(ready@),
                crate::types::entries_view(rest@),
                range,
            ),
        decreases rest.len(),
    {
        let ghost before = rest@;
        let ghost ready_before = ready@;
        let entry = rest.remove(0);
        assert(crate::types::entries_view(rest@) =~= crate::types::entries_view(
            before,
        ).drop_first());
        assert(crate::types::entries_view(before)[0] == entry@);
        match entry.state {
            JobState::Complete => {
                return Step::Perform(
                    Action::FetchListings { ident: entry.ident, session: Some(account) },
                    ProjectJobs::Listing { account, ready, object: entry.object, rest, range },
                );
            },
            JobState::Other(_) => {},
        }
        ready.push(entry.object);
        assert(crate::types::objects_view(ready@) =~= crate::types::objects_view(
            ready_before,
        ).push(entry@.object));
    }
    Step::Respond(
        Response::JobPage {
            jobs: ready,
            count: range.count as isize,
            start: range.start as isize,
            stop: range.stop as isize,
        },
    )
}

/// Retrieves the most recent jobs of a project, one page of them. A job that is
/// complete comes with the channels and the platforms of the package that it built.
pub fn project_jobs<D>(state: ProjectJobs<D>, event: Event<D>) -> (step: Step<ProjectJobs<D>, D>)
    requires
        project_jobs_awaits(state@, event@),
    ensures
        step@ == project_jobs_step(state@, event@),
{
    match (state, event) {
        (ProjectJobs::Start { target, pagination }, Event::Begin) => Step::Perform(
            Action::CheckOriginAccess { account: target.account, origin: target.origin.clone() },
            ProjectJobs::CheckingAccess { target, pagination },
        ),
        (ProjectJobs::CheckingAccess { target, pagination }, Event::Access(allowed)) => {
            if !allowed {
                return Step::Respond(Response::Status(FORBIDDEN));
            }
            match pagination {
                Ok((start, stop)) => {
                    let name = crate::text::project_name(
                        target.origin.as_str(),
                        target.name.as_str(),
                    );
                    Step::Perform(
                        Action::Route(
                            Message::ProjectJobsGet {
                                name,
                                start: start as u64,
                                stop: stop as u64,
                            },
                        ),
                        ProjectJobs::Fetching { account: target.account },
                    )
                },
                Err(response) => Step::Respond(Response::Prepared(response)),
            }
        },
        (ProjectJobs::CheckingAccess { .. }, Event::Raised(error)) => Step::Raise(error),
        (ProjectJobs::Fetching { account }, Event::Jobs { entries, range }) => {
            let ready: Vec<JsonObject> = Vec::new();
            assert(crate::types::objects_view(ready@) =~= Seq::empty());
            list_jobs(account, ready, entries, range)
        },
        (ProjectJobs::Fetching { .. }, Event::Refused(error)) => Step::Respond(
            Response::NetError(error),
        ),
        (
            ProjectJobs::Listing { account, ready, object, rest, range },
            Event::Listings(listings),
        ) => {
            let ghost shown = annotated(crate::json::members(object), listings@);
            let ghost ready_before = ready@;
            let mut ready = ready;
            ready.push(annotate(object, listings));
            assert(crate::types::objects_view(ready@) =~= crate::types::objects_view(
                ready_before,
            ).push(shown));
            list_jobs(account, ready, rest, range)
        },
        _ => vstd::pervasive::unreached(),
    }
}

/// How far the display of a job has come.
#[derive(Debug, PartialEq)]
pub enum JobShow {
    Start { id: String, account: Option<u64> },
    Fetching { account: Option<u64> },
    Listing { object: JsonObject },
}

/// What a [`JobShow`] holds.
pub enum JobShowView {
    Start { id: Seq<char>, account: Option<u64> },
    Fetching { account: Option<u64> },
    Listing { object: Map<Seq<char>, serde_json::Value> },
}

impl View for JobShow {
    type V = JobShowView;

    open spec fn view(&self) -> JobShowView {
        match self {
            JobShow::Start { id, account } => JobShowView::Start { id: id@, account: *account },
            JobShow::Fetching { account } => JobShowView::Fetching { account: *account },
            JobShow::Listing { object } => JobShowView::Listing {
                object: crate::json::members(*object),
            },
        }
    }
}

/// The events that a state of the job's display waits for.
pub open spec fn job_show_awaits<D>(state: JobShowView, event: EventView<D>) -> bool {
    match state {
        JobShowView::Start { .. } => event is Begin,
        JobShowView::Fetching { .. } => event is Job || event is Refused,
        JobShowView::Listing { .. } => event is Listings,
    }
}

/// How the display of a job goes on.
pub open spec fn job_show_step<D>(state: JobShowView, event: EventView<D>) -> StepView<
    JobShowView,
    D,
> {
    match (state, event) {
        (JobShowView::Start { id, account }, EventView::Begin) => {
            match crate::text::parsed_id(id) {
                Some(id) => StepView::Perform(
                    ActionView::Route(MessageView::JobGet { id }),
                    JobShowView::Fetching { account },
                ),
                None => StepView::Respond(ResponseView::Status(BAD_REQUEST)),
            }
        },
        (JobShowView::Fetching { account }, EventView::Job(job)) => {
            if job.fully_qualified {
                StepView::Perform(
                    ActionView::FetchListings { ident: job.ident, session: account },
                    JobShowView::Listing { object: job.object },
                )
            } else {
                StepView::Respond(ResponseView::Json { status: OK, document: job.document })
            }
        },
        (JobShowView::Fetching { .. }, EventView::Refused(error)) => StepView::Respond(
            ResponseView::NetError(error),
        ),
        (JobShowView::Listing { object }, EventView::Listings(listings)) => StepView::Respond(
            ResponseView::JsonObject { status: OK, object: annotated(object, listings) },
        ),
        _ => StepView::Stray,
    }
}

/// Shows a job. One that knows the release of its package comes with the package's channels and
/// platforms.
pub fn job_show<D>(state: JobShow, event: Event<D>) -> (step: Step<JobShow, D>)
    requires
        job_show_awaits(state@, event@),
    ensures
        step@ == job_show_step(state@, event@),
{
    match (state, event) {
        (JobShow::Start { id, account }, Event::Begin) => {
            match crate::text::parse_id(id.as_str()) {
                Some(id) => Step::Perform(
                    Action::Route(Message::JobGet { id }),
                    JobShow::Fetching { account },
                ),
                None => Step::Respond(Response::Status(BAD_REQUEST)),
            }
        },
        (JobShow::Fetching { account }, Event::Job(job)) => {
            if job.fully_qualified {
                Step::Perform(
                    Action::FetchListings { ident: job.ident, session: account },
                    JobShow::Listing { object: job.object },
                )
            } else {
                Step::Respond(Response::Json { status: OK, document: job.document })
            }
        },
        (JobShow::Fetching { .. }, Event::Refused(error)) => Step::Respond(
            Response::NetError(error),
        ),
        (JobShow::Listing { object }, Event::Listings(listings)) => Step::Respond(
            Response::JsonObject { status: OK, object: annotate(object, listings) },
        ),
        _ => vstd::pervasive::unreached(),
    }
}

/// How far the promotion of a job group has come.
#[derive(Debug, PartialEq, Eq)]
pub enum JobGroupPromote {
    Start { id: Option<String>, channel: Option<String>, account: u64 },
    Promoting,
}

/// What a [`JobGroupPromote`] holds.
pub enum JobGroupPromoteView {
    Start { id: Option<Seq<char>>, channel: Option<Seq<char>>, account: u64 },
    Promoting,
}

impl View for JobGroupPromote {
    type V = JobGroupPromoteView;

    open spec fn view(&self) -> JobGroupPromoteView {
        match self {
            JobGroupPromote::Start { id, channel, account } => JobGroupPromoteView::Start {
                id: id.deep_view(),
                channel: channel.deep_view(),
                account: *account,
            },
            JobGroupPromote::Promoting => JobGroupPromoteView::Promoting,
        }
    }
}

/// The events that a state of the promotion waits for.
pub open spec fn job_group_promote_awaits<D>(
    state: JobGroupPromoteView,
    event: EventView<D>,
) -> bool {
    match state {
        JobGroupPromoteView::Start { .. } => event is Begin,
        JobGroupPromoteView::Promoting => event is Document || event is Refused,
    }
}

/// The job group that a request names: the number that its text denotes, if it names any.
pub open spec fn named_id(id: Option<Seq<char>>) -> Option<u64> {
    match id {
        Some(id) => crate::text::parsed_id(id),
        None => None,
    }
}

/// How the promotion of a job group goes on.
pub open spec fn job_group_promote_step<D>(
    state: JobGroupPromoteView,
    event: EventView<D>,
) -> StepView<JobGroupPromoteView, D> {
    match (state, event) {
        (JobGroupPromoteView::Start { id, channel, account }, EventView::Begin) => {
            match (named_id(id), channel) {
                (Some(group), Some(channel)) => StepView::Perform(
                    ActionView::PromoteJobGroup { group, channel, session: Some(account) },
                    JobGroupPromoteView::Promoting,
                ),
                _ => StepView::Respond(ResponseView::Status(BAD_REQUEST)),
            }
        },
        (JobGroupPromoteView::Promoting, EventView::Document(document)) => StepView::Respond(
            ResponseView::Json { status: OK, document },
        ),
        (JobGroupPromoteView::Promoting, EventView::Refused(error)) => StepView::Respond(
            ResponseView::NetError(error),
        ),
        _ => StepView::Stray,
    }
}

/// Promotes the packages that a group of jobs built to a channel.
pub fn job_group_promote<D>(state: JobGroupPromote, event: Event<D>) -> (step: Step<
    JobGroupPromote,
    D,
>)
    requires
        job_group_promote_awaits(state@, event@),
    ensures
        step@ == job_group_promote_step(state@, event@),
{
    match (state, event) {
        (JobGroupPromote::Start { id, channel, account }, Event::Begin) => {
            let group: u64 = match id {
                Some(id) => match crate::text::parse_id(id.as_str()) {
                    Some(group) => group,
                    None => return Step::Respond(Response::Status(BAD_REQUEST)),
                },
                None => return Step::Respond(Response::Status(BAD_REQUEST)),
            };
            match channel {
                Some(channel) => Step::Perform(
                    Action::PromoteJobGroup { group, channel, session: Some(account) },
                    JobGroupPromote::Promoting,
                ),
                None => Step::Respond(Response::Status(BAD_REQUEST)),
            }
        },
        (JobGroupPromote::Promoting, Event::Document(document)) => Step::Respond(
            Response::Json { status: OK, document },
        ),
        (JobGroupPromote::Promoting, Event::Refused(error)) => Step::Respond(
            Response::NetError(error),
        ),
        _ => vstd::pervasive::unreached(),
    }
}

/// How far the display of reverse dependencies has come.
#[derive(Debug, PartialEq, Eq)]
pub enum RdepsShow {
    Start { origin: Option<String>, name: Option<String> },
    Fetching,
}

/// What an [`RdepsShow`] holds.
pub enum RdepsShowView {
    Start { origin: Option<Seq<char>>, name: Option<Seq<char>> },
    Fetching,
}

impl View for RdepsShow {
    type V = RdepsShowView;

    open spec fn view(&self) -> RdepsShowView {
        match self {
            RdepsShow::Start { origin, name } => RdepsShowView::Start {
                origin: origin.deep_view(),
                name: name.deep_view(),
            },
            RdepsShow::Fetching => RdepsShowView::Fetching,
        }
    }
}

/// The events that a state of the display of reverse dependencies waits for.
pub open spec fn rdeps_show_awaits<D>(state: RdepsShowView, event: EventView<D>) -> bool {
    match state {
        RdepsShowView::Start { .. } => event is Begin,
        RdepsShowView::Fetching => event is Document || event is Refused,
    }
}

/// How the display of reverse dependencies goes on.
pub open spec fn rdeps_show_step<D>(state: RdepsShowView, event: EventView<D>) -> StepView<
    RdepsShowView,
    D,
> {
    match (state, event) {
        (RdepsShowView::Start { origin, name }, EventView::Begin) => match (origin, name) {
            (Some(origin), Some(name)) => StepView::Perform(
                ActionView::Route(
                    MessageView::ReverseDependenciesGet { origin, name, target: "x86_64-linux"@ },
                ),
                RdepsShowView::Fetching,
            ),
            _ => StepView::Respond(ResponseView::Status(BAD_REQUEST)),
        },
        (RdepsShowView::Fetching, EventView::Document(document)) => StepView::Respond(
            ResponseView::Json { status: OK, document },
        ),
        (RdepsShowView::Fetching, EventView::Refused(error)) => StepView::Respond(
            ResponseView::NetError(error),
        ),
        _ => StepView::Stray,
    }
}

/// Shows the packages that depend on a package. The request cannot name a target yet, so one is
/// taken for granted.
pub fn rdeps_show<D>(state: RdepsShow, event: Event<D>) -> (step: Step<RdepsShow, D>)
    requires
        rdeps_show_awaits(state@, event@),
    ensures
        step@ == rdeps_show_step(state@, event@),
{
    match (state, event) {
        (RdepsShow::Start { origin, name }, Event::Begin) => match (origin, name) {
            (Some(origin), Some(name)) => Step::Perform(
                Action::Route(
                    Message::ReverseDependenciesGet {
                        origin,
                        name,
                        target: String::from_str("x86_64-linux"),
                    },
                ),
                RdepsShow::Fetching,
            ),
            _ => Step::Respond(Response::Status(BAD_REQUEST)),
        },
        (RdepsShow::Fetching, Event::Document(document)) => Step::Respond(
            Response::Json { status: OK, document },
        ),
        (RdepsShow::Fetching, Event::Refused(error)) => Step::Respond(Response::NetError(error)),
        _ => vstd::pervasive::unreached(),
    }
}

/// The list of a project's jobs, as a function.
pub open spec fn project_jobs_steps<D>() -> spec_fn(
    ProjectJobsView<D>,
    EventView<D>,
) -> StepView<ProjectJobsView<D>, D> {
    |s: ProjectJobsView<D>, e: EventView<D>| project_jobs_step(s, e)
}

/// Where the list of a project's jobs stands after `events`.
pub open spec fn project_jobs_after<D>(
    target: TargetView,
    pagination: Result<(isize, isize), D>,
    events: Seq<EventView<D>>,
) -> StepView<ProjectJobsView<D>, D> {
    crate::run::after(
        project_jobs_steps(),
        ProjectJobsView::Start { target, pagination },
        events,
    )
}

proof fn lemma_listed_shape<D>(
    account: u64,
    ready: Seq<Map<Seq<char>, serde_json::Value>>,
    rest: Seq<JobEntryView<D>>,
    range: JobRange,
)
    ensures
        match jobs_listed(account, ready, rest, range) {
            StepView::Perform(action, state) => action is FetchListings && state is Listing,
            StepView::Respond(response) => response is JobPage,
            _ => false,
        },
    decreases rest.len(),
{
    if rest.len() > 0 && rest[0].state != JobState::Complete {
        lemma_listed_shape(account, ready.push(rest[0].object), rest.drop_first(), range);
    }
}

/// The list of a project's jobs waits for the events that it knows the way on from, and all that
/// can come of its actions is among them. It forbids what access is denied to, passes the errors of
/// services on, and leaves to the server what the server reports by itself.
pub proof fn project_jobs_manners<D>()
    ensures
        forall|s: ProjectJobsView<D>, e: EventView<D>|
            #![trigger project_jobs_step(s, e)]
            project_jobs_steps::<D>()(s, e) == project_jobs_step(s, e),
        forall|s: ProjectJobsView<D>, e: EventView<D>|
            #[trigger] project_jobs_awaits(s, e) == !(project_jobs_step(s, e) is Stray),
        crate::run::prepared(project_jobs_steps::<D>()),
        crate::run::forbids(project_jobs_steps::<D>()),
        crate::run::passes_errors_on(project_jobs_steps::<D>()),
        crate::run::raises(project_jobs_steps::<D>()),
{
    assert forall|
        account: u64,
        ready: Seq<Map<Seq<char>, serde_json::Value>>,
        rest: Seq<JobEntryView<D>>,
        range: JobRange,
    |
        match #[trigger] jobs_listed(account, ready, rest, range) {
            StepView::Perform(action, state) => action is FetchListings && state is Listing,
            StepView::Respond(response) => response is JobPage,
            _ => false,
        } by {
        lemma_listed_shape(account, ready, rest, range);
    }
}

/// The first thing that the list of a project's jobs asks for is a check of the account's access to
/// the project's origin, and it gets no further unless access is granted.
pub proof fn project_jobs_needs_access<D>(
    target: TargetView,
    pagination: Result<(isize, isize), D>,
    events: Seq<EventView<D>>,
)
    ensures
        project_jobs_after(target, pagination, Seq::<EventView<D>>::empty()) == StepView::<
            ProjectJobsView<D>,
            D,
        >::Perform(
            ActionView::CheckOriginAccess { account: target.account, origin: target.origin },
            ProjectJobsView::CheckingAccess { target, pagination },
        ),
        crate::run::only_with_access(project_jobs_after(target, pagination, events), events),
{
    crate::run::access_comes_first(
        project_jobs_steps::<D>(),
        ProjectJobsView::Start { target, pagination },
        events,
    );
}

/// How many of the jobs are complete.
pub open spec fn complete_count<D>(entries: Seq<JobEntryView<D>>) -> nat
    decreases entries.len(),
{
    if entries.len() == 0 {
        0
    } else if entries.last().state == JobState::Complete {
        complete_count(entries.drop_last()) + 1
    } else {
        complete_count(entries.drop_last())
    }
}

/// The jobs as the page shows them, in their order: the complete ones with what was looked up for
/// them, which is the next one of `replies` for each, and the others as they are.
pub open spec fn shown<D>(entries: Seq<JobEntryView<D>>, replies: Seq<ListingsView>) -> Seq<
    Map<Seq<char>, serde_json::Value>,
> {
    Seq::new(
        entries.len(),
        |i: int|
            if entries[i].state == JobState::Complete {
                annotated(entries[i].object, replies[complete_count(entries.take(i)) as int])
            } else {
                entries[i].object
            },
    )
}

/// The channels and platforms that came with the events after the second one.
pub open spec fn looked_up<D>(events: Seq<EventView<D>>) -> Seq<ListingsView> {
    Seq::new((events.len() - 2) as nat, |i: int| events[i + 2]->Listings_0)
}

/// The number of events after which it is job number `i` that something is looked up for: two for
/// the access and the jobs, and one for each complete job before it.
pub open spec fn lookup_turn<D>(entries: Seq<JobEntryView<D>>, i: int) -> int {
    2 + complete_count(entries.take(i)) as int
}

/// The list waits for what is looked up for job number `j`.
spec fn waits_for<D>(
    account: u64,
    entries: Seq<JobEntryView<D>>,
    replies: Seq<ListingsView>,
    range: JobRange,
    action: ActionView<D>,
    state: ProjectJobsView<D>,
    j: int,
) -> bool {
    &&& 0 <= j < entries.len()
    &&& entries[j].state == JobState::Complete
    &&& complete_count(entries.take(j)) == replies.len()
    &&& action == ActionView::<D>::FetchListings { ident: entries[j].ident, session: Some(account) }
    &&& state == ProjectJobsView::<D>::Listing {
        account,
        ready: shown(entries.take(j), replies),
        object: entries[j].object,
        rest: entries.skip(j + 1),
        range,
    }
}

proof fn lemma_count_prefix<D>(entries: Seq<JobEntryView<D>>, i: int)
    requires
        0 <= i <= entries.len(),
    ensures
        complete_count(entries.take(i)) <= complete_count(entries),
        i < entries.len() && entries[i].state == JobState::Complete ==> complete_count(
            entries.take(i),
        ) < complete_count(entries),
    decreases entries.len(),
{
    if i < entries.len() {
        let shorter = entries.drop_last();
        lemma_count_prefix(shorter, i);
        assert(shorter.take(i) =~= entries.take(i));
    } else {
        assert(entries.take(i) =~= entries);
    }
}

proof fn lemma_shown_next<D>(
    entries: Seq<JobEntryView<D>>,
    i: int,
    replies: Seq<ListingsView>,
    more: Seq<ListingsView>,
)
    requires
        0 <= i < entries.len(),
        complete_count(entries.take(i)) == replies.len(),
        if entries[i].state == JobState::Complete {
            more.len() == replies.len() + 1 && more.drop_last() == replies
        } else {
            more == replies
        },
    ensures
        complete_count(entries.take(i + 1)) == more.len(),
        shown(entries.take(i + 1), more) == shown(entries.take(i), replies).push(
            if entries[i].state == JobState::Complete {
                annotated(entries[i].object, more.last())
            } else {
                entries[i].object
            },
        ),
{
    let before = entries.take(i);
    let now = entries.take(i + 1);
    assert(now.drop_last() =~= before);
    assert(now.last() == entries[i]);
    let a = shown(now, more);
    let b = shown(before, replies).push(
        if entries[i].state == JobState::Complete {
            annotated(entries[i].object, more.last())
        } else {
            entries[i].object
        },
    );
    assert forall|k: int| 0 <= k < a.len() implies a[k] == b[k] by {
        if k < i {
            assert(now.take(k) =~= before.take(k));
            assert(now[k] == before[k]);
            if now[k].state == JobState::Complete {
                lemma_count_prefix(before, k);
            }
        } else {
            assert(now.take(k) =~= before);
        }
    }
    assert(a =~= b);
}

proof fn lemma_listed<D>(
    account: u64,
    entries: Seq<JobEntryView<D>>,
    i: int,
    replies: Seq<ListingsView>,
    range: JobRange,
)
    requires
        0 <= i <= entries.len(),
        complete_count(entries.take(i)) == replies.len(),
    ensures
        match jobs_listed(account, shown(entries.take(i), replies), entries.skip(i), range) {
            StepView::Respond(response) => {
                &&& complete_count(entries) == replies.len()
                &&& response == job_page::<D>(shown(entries, replies), range)
            },
            StepView::Perform(action, state) => {
                &&& replies.len() < complete_count(entries)
                &&& exists|j: int| waits_for(account, entries, replies, range, action, state, j)
            },
            _ => false,
        },
    decreases entries.len() - i,
{
    let ready = shown(entries.take(i), replies);
    if i == entries.len() {
        assert(entries.take(i) =~= entries);
    } else {
        let rest = entries.skip(i);
        assert(rest.drop_first() =~= entries.skip(i + 1));
        assert(rest[0] == entries[i]);
        if entries[i].state == JobState::Complete {
            lemma_count_prefix(entries, i);
            let step = jobs_listed(account, ready, rest, range);
            assert(waits_for(
                account,
                entries,
                replies,
                range,
                step->Perform_0,
                step->Perform_1,
                i,
            ));
        } else {
            lemma_shown_next(entries, i, replies, replies);
            lemma_listed(account, entries, i + 1, replies, range);
        }
    }
}

spec fn jobs_history<D>(
    target: TargetView,
    pagination: Result<(isize, isize), D>,
    events: Seq<EventView<D>>,
    action: ActionView<D>,
    state: ProjectJobsView<D>,
) -> bool {
    match state {
        ProjectJobsView::Start { .. } => false,
        ProjectJobsView::CheckingAccess { target: t, pagination: p } => {
            &&& events.len() == 0
            &&& t == target
            &&& p == pagination
        },
        ProjectJobsView::Fetching { account } => {
            &&& events.len() == 1
            &&& account == target.account
            &&& events[0] == EventView::<D>::Access(true)
            &&& pagination is Ok
            &&& action == ActionView::<D>::Route(
                MessageView::ProjectJobsGet {
                    name: crate::text::full_name(target.origin, target.name),
                    start: pagination->Ok_0.0 as u64,
                    stop: pagination->Ok_0.1 as u64,
                },
            )
        },
        ProjectJobsView::Listing { .. } => {
            &&& jobs_known(pagination, events)
            &&& looked_up(events).len() < complete_count(events[1]->entries)
            &&& exists|j: int|
                waits_for(
                    target.account,
                    events[1]->entries,
                    looked_up(events),
                    events[1]->range,
                    action,
                    state,
                    j,
                )
        },
    }
}

/// Access is granted, the page asked for makes sense, the jobs have come, and after them nothing
/// but what was looked up for some of them.
pub open spec fn jobs_known<D>(
    pagination: Result<(isize, isize), D>,
    events: Seq<EventView<D>>,
) -> bool {
    &&& events.len() >= 2
    &&& events[0] == EventView::<D>::Access(true)
    &&& pagination is Ok
    &&& events[1] is Jobs
    &&& forall|k: int| 2 <= k < events.len() ==> #[trigger] events[k] is Listings
}

proof fn lemma_jobs_history<D>(
    target: TargetView,
    pagination: Result<(isize, isize), D>,
    events: Seq<EventView<D>>,
)
    ensures
        match project_jobs_after(target, pagination, events) {
            StepView::Perform(action, state) => jobs_history(
                target,
                pagination,
                events,
                action,
                state,
            ),
            StepView::Respond(response) => {
                response is JobPage ==> {
                    &&& jobs_known(pagination, events)
                    &&& looked_up(events).len() == complete_count(events[1]->entries)
                    &&& response == job_page::<D>(
                        shown(events[1]->entries, looked_up(events)),
                        events[1]->range,
                    )
                }
            },
            _ => true,
        },
    decreases events.len(),
{
    if events.len() > 0 {
        let shorter = events.drop_last();
        lemma_jobs_history(target, pagination, shorter);
        if project_jobs_after(target, pagination, shorter) is Perform {
            let step = project_jobs_after(target, pagination, shorter);
            let action = step->Perform_0;
            let state = step->Perform_1;
            if state is Fetching && events.last() is Jobs {
                let entries = events[1]->entries;
                let range = events[1]->range;
                assert(looked_up(events) =~= Seq::empty());
                assert(entries.take(0) =~= Seq::empty());
                assert(entries.skip(0) =~= entries);
                assert(shown(entries.take(0), looked_up(events)) =~= Seq::empty());
                lemma_listed(target.account, entries, 0, looked_up(events), range);
                lemma_listed_shape(target.account, Seq::empty(), entries, range);
            } else if state is Listing && events.last() is Listings {
                let entries = events[1]->entries;
                let range = events[1]->range;
                assert(shorter[1] == events[1]);
                let replies = looked_up(shorter);
                let more = looked_up(events);
                let j = choose|j: int|
                    waits_for(target.account, entries, replies, range, action, state, j);
                assert(more.drop_last() =~= replies);
                lemma_shown_next(entries, j, replies, more);
                lemma_listed(target.account, entries, j + 1, more, range);
                lemma_listed_shape(
                    target.account,
                    shown(entries.take(j + 1), more),
                    entries.skip(j + 1),
                    range,
                );
                assert forall|k: int| 2 <= k < events.len() implies #[trigger] events[k]
                    is Listings by {
                    if k < shorter.len() {
                        assert(shorter[k] is Listings);
                    }
                }
            }
        }
    }
}

/// The page shows every job that the service gave, in the same order. What was looked up, once for
/// each job that is complete, stands with the job it was looked up for, by the identifier of the
/// job's package and on behalf of the account; no job is shown before all of this has come. The
/// count and the range are those that came with the jobs.
pub proof fn project_jobs_shown<D>(
    target: TargetView,
    pagination: Result<(isize, isize), D>,
    events: Seq<EventView<D>>,
)
    ensures
        project_jobs_after(target, pagination, events) matches StepView::Respond(response) ==> (
        response is JobPage ==> {
            &&& jobs_known(pagination, events)
            &&& looked_up(events).len() == complete_count(events[1]->entries)
            &&& response == job_page::<D>(
                shown(events[1]->entries, looked_up(events)),
                events[1]->range,
            )
            &&& response->JobPage_count == events[1]->range.count as isize
            &&& response->JobPage_start == events[1]->range.start as isize
            &&& response->JobPage_stop == events[1]->range.stop as isize
            &&& forall|i: int|
                #![trigger events[1]->entries[i]]
                0 <= i < events[1]->entries.len() && events[1]->entries[i].state
                    == JobState::Complete ==> crate::run::asked(
                    project_jobs_steps(),
                    ProjectJobsView::Start { target, pagination },
                    events,
                    lookup_turn(events[1]->entries, i),
                    ActionView::FetchListings {
                        ident: events[1]->entries[i].ident,
                        session: Some(target.account),
                    },
                )
        }),
        jobs_known(pagination, events) && looked_up(events).len() == complete_count(
            events[1]->entries,
        ) ==> project_jobs_after(target, pagination, events) == StepView::<
            ProjectJobsView<D>,
            D,
        >::Respond(job_page(shown(events[1]->entries, looked_up(events)), events[1]->range)),
{
    lemma_jobs_history(target, pagination, events);
    if jobs_known(pagination, events) && looked_up(events).len() <= complete_count(
        events[1]->entries,
    ) {
        lemma_jobs_come(target, pagination, events);
    }
    let run = project_jobs_after(target, pagination, events);
    if run is Respond && run->Respond_0 is JobPage {
        let entries = events[1]->entries;
        assert forall|i: int|
            #![trigger events[1]->entries[i]]
            0 <= i < entries.len() && entries[i].state
                == JobState::Complete implies crate::run::asked(
            project_jobs_steps(),
            ProjectJobsView::Start { target, pagination },
            events,
            lookup_turn(entries, i),
            ActionView::FetchListings { ident: entries[i].ident, session: Some(target.account) },
        ) by {
            lemma_lookup_asked(target, pagination, events, i);
        }
    }
}

/// As long as something is still to be looked up, the next look-up is for the first complete job
/// that has none yet.
pub proof fn project_jobs_next<D>(
    target: TargetView,
    pagination: Result<(isize, isize), D>,
    events: Seq<EventView<D>>,
    i: int,
)
    requires
        jobs_known(pagination, events),
        0 <= i < events[1]->entries.len(),
        events[1]->entries[i].state == JobState::Complete,
        events.len() == lookup_turn(events[1]->entries, i),
    ensures
        crate::run::asks(
            project_jobs_after(target, pagination, events),
            ActionView::FetchListings {
                ident: events[1]->entries[i].ident,
                session: Some(target.account),
            },
        ),
{
    let entries = events[1]->entries;
    lemma_count_prefix(entries, i);
    lemma_jobs_come(target, pagination, events);
    lemma_jobs_history(target, pagination, events);
    let step = project_jobs_after(target, pagination, events);
    let j = choose|j: int|
        waits_for(
            target.account,
            entries,
            looked_up(events),
            events[1]->range,
            step->Perform_0,
            step->Perform_1,
            j,
        );
    lemma_count_tells(entries, i, j);
}

/// Two complete jobs with as many complete jobs before them are the same.
proof fn lemma_count_tells<D>(entries: Seq<JobEntryView<D>>, i: int, j: int)
    requires
        0 <= i < entries.len(),
        0 <= j < entries.len(),
        entries[i].state == JobState::Complete,
        entries[j].state == JobState::Complete,
        complete_count(entries.take(i)) == complete_count(entries.take(j)),
    ensures
        i == j,
{
    if j < i {
        lemma_count_prefix(entries.take(i), j);
        assert(entries.take(i).take(j) =~= entries.take(j));
    } else if i < j {
        lemma_count_prefix(entries.take(j), i);
        assert(entries.take(j).take(i) =~= entries.take(i));
    }
}

proof fn lemma_lookup_asked<D>(
    target: TargetView,
    pagination: Result<(isize, isize), D>,
    events: Seq<EventView<D>>,
    i: int,
)
    requires
        !(project_jobs_after(target, pagination, events) is Stray),
        jobs_known(pagination, events),
        looked_up(events).len() == complete_count(events[1]->entries),
        0 <= i < events[1]->entries.len(),
        events[1]->entries[i].state == JobState::Complete,
    ensures
        crate::run::asked(
            project_jobs_steps(),
            ProjectJobsView::Start { target, pagination },
            events,
            lookup_turn(events[1]->entries, i),
            ActionView::FetchListings {
                ident: events[1]->entries[i].ident,
                session: Some(target.account),
            },
        ),
{
    let entries = events[1]->entries;
    let k = lookup_turn(entries, i);
    lemma_count_prefix(entries, i);
    crate::run::asked_before(
        project_jobs_steps::<D>(),
        ProjectJobsView::Start { target, pagination },
        events,
        k,
    );
    let sofar = events.take(k);
    lemma_jobs_history(target, pagination, sofar);
    assert(sofar[1] == events[1]);
    let step = project_jobs_after(target, pagination, sofar);
    let j = choose|j: int|
        waits_for(
            target.account,
            entries,
            looked_up(sofar),
            sofar[1]->range,
            step->Perform_0,
            step->Perform_1,
            j,
        );
    lemma_count_tells(entries, i, j);
}

proof fn lemma_jobs_come<D>(
    target: TargetView,
    pagination: Result<(isize, isize), D>,
    events: Seq<EventView<D>>,
)
    requires
        jobs_known(pagination, events),
        looked_up(events).len() <= complete_count(events[1]->entries),
    ensures
        project_jobs_after(target, pagination, events) is Perform || project_jobs_after(
            target,
            pagination,
            events,
        ) is Respond,
        looked_up(events).len() == complete_count(events[1]->entries) ==> project_jobs_after(
            target,
            pagination,
            events,
        ) is Respond && project_jobs_after(target, pagination, events)->Respond_0 is JobPage,
        looked_up(events).len() < complete_count(events[1]->entries) ==> project_jobs_after(
            target,
            pagination,
            events,
        ) is Perform && project_jobs_after(target, pagination, events)->Perform_1 is Listing,
    decreases events.len(),
{
    let steps = project_jobs_steps::<D>();
    let start = ProjectJobsView::<D>::Start { target, pagination };
    let shorter = events.drop_last();
    let entries = events[1]->entries;
    let range = events[1]->range;
    if events.len() == 2 {
        crate::run::one_step_on(steps, start, events, 0);
        crate::run::one_step_on(steps, start, events, 1);
        lemma_listed_shape(target.account, Seq::empty(), entries, range);
    } else {
        assert(shorter[1] == events[1]);
        assert forall|k: int| 2 <= k < shorter.len() implies #[trigger] shorter[k] is Listings by {
            assert(events[k] is Listings);
        }
        lemma_jobs_come(target, pagination, shorter);
        assert(events[events.len() - 1] is Listings);
        let step = project_jobs_after(target, pagination, shorter);
        match step->Perform_1 {
            ProjectJobsView::Listing { account, ready, object, rest, range } => {
                lemma_listed_shape(
                    account,
                    ready.push(annotated(object, events.last()->Listings_0)),
                    rest,
                    range,
                );
            },
            _ => {},
        }
    }
    lemma_jobs_history(target, pagination, events);
}

/// The list of a project's jobs is over once there has been an event for each complete job, and one
/// each for the access and for the jobs themselves.
pub proof fn project_jobs_ends<D>(
    target: TargetView,
    pagination: Result<(isize, isize), D>,
    events: Seq<EventView<D>>,
)
    ensures
        project_jobs_after(target, pagination, events) is Perform ==> events.len() < 2 || (events[1]
            is Jobs && events.len() < 2 + complete_count(events[1]->entries)),
{
    lemma_jobs_history(target, pagination, events);
}

/// The display of a job's log, as a function.
pub open spec fn job_log_steps<D>() -> spec_fn(
    JobLogView,
    EventView<D>,
) -> StepView<JobLogView, D> {
    |s: JobLogView, e: EventView<D>| job_log_step(s, e)
}

/// Where the display of the log of job `id` stands after `events`.
pub open spec fn job_log_after<D>(
    id: Seq<char>,
    start: Option<ParamValueView>,
    color: Option<ParamValueView>,
    account: Option<u64>,
    events: Seq<EventView<D>>,
) -> StepView<JobLogView, D> {
    crate::run::after(job_log_steps(), JobLogView::Start { id, start, color, account }, events)
}

/// The display of a job's log waits for the events that it knows the way on from, and all that can
/// come of its actions is among them. It forbids what access is denied to, passes the errors of
/// services on, and leaves to the server what the server reports by itself.
pub proof fn job_log_manners<D>()
    ensures
        forall|s: JobLogView, e: EventView<D>|
            #![trigger job_log_step(s, e)]
            job_log_steps::<D>()(s, e) == job_log_step(s, e),
        forall|s: JobLogView, e: EventView<D>|
            #[trigger] job_log_awaits(s, e) == !(job_log_step(s, e) is Stray),
        crate::run::prepared(job_log_steps::<D>()),
        crate::run::forbids(job_log_steps::<D>()),
        crate::run::passes_errors_on(job_log_steps::<D>()),
        crate::run::raises(job_log_steps::<D>()),
{
}

/// The log may be fetched: the job was found, and either it builds a package that is not private,
/// or somebody is signed in whose access to the package's origin has been checked and granted.
pub open spec fn log_admitted<D>(account: Option<u64>, events: Seq<EventView<D>>) -> bool {
    &&& events.len() >= 1
    &&& events[0] is Job
    &&& events[0]->Job_0.visibility == Visibility::Private ==> {
        &&& account is Some
        &&& events.len() >= 2
        &&& events[1] == EventView::<D>::Access(true)
    }
}

/// The number of events after which the log is fetched.
pub open spec fn log_turn<D>(events: Seq<EventView<D>>) -> int {
    if events[0]->Job_0.visibility == Visibility::Private {
        2
    } else {
        1
    }
}

spec fn log_history<D>(
    id: Seq<char>,
    start: Option<ParamValueView>,
    color: Option<ParamValueView>,
    account: Option<u64>,
    events: Seq<EventView<D>>,
    action: ActionView<D>,
    state: JobLogView,
) -> bool {
    let number = crate::text::parsed_id(id);
    let first = crate::param::asked_number(start);
    let bright = crate::param::says_yes(color);
    &&& number is Some
    &&& first is Some
    &&& match state {
        JobLogView::Start { .. } => false,
        JobLogView::FetchingJob { job, line, colored, account: a } => {
            &&& events.len() == 0
            &&& Some(job) == number
            &&& Some(line) == first
            &&& colored == bright
            &&& a == account
            &&& action == ActionView::<D>::Route(MessageView::JobGet { id: job })
        },
        JobLogView::CheckingAccess { job, line, colored } => {
            &&& events.len() == 1
            &&& Some(job) == number
            &&& Some(line) == first
            &&& colored == bright
            &&& events[0] is Job
            &&& events[0]->Job_0.visibility == Visibility::Private
            &&& account is Some
            &&& action == ActionView::<D>::CheckOriginAccess {
                account: account->Some_0,
                origin: events[0]->Job_0.origin_name,
            }
        },
        JobLogView::FetchingLog { colored } => {
            &&& colored == bright
            &&& log_admitted(account, events)
            &&& events.len() == log_turn(events)
            &&& action == ActionView::<D>::Route(
                MessageView::JobLogGet { id: number->Some_0, start: first->Some_0 },
            )
        },
        JobLogView::StrippingColor => {
            &&& !bright
            &&& log_admitted(account, events)
            &&& events.len() == log_turn(events) + 1
            &&& events.last() is Document
            &&& action == ActionView::<D>::StripAnsi(events.last()->Document_0)
        },
    }
}

proof fn lemma_log_history<D>(
    id: Seq<char>,
    start: Option<ParamValueView>,
    color: Option<ParamValueView>,
    account: Option<u64>,
    events: Seq<EventView<D>>,
)
    ensures
        match job_log_after(id, start, color, account, events) {
            StepView::Perform(action, state) => log_history(
                id,
                start,
                color,
                account,
                events,
                action,
                state,
            ),
            StepView::Respond(ResponseView::Json { status, document }) => {
                &&& status == OK
                &&& log_admitted(account, events)
                &&& events.last() == EventView::<D>::Document(document)
                &&& events.len() == log_turn(events) + (if crate::param::says_yes(color) {
                    1int
                } else {
                    2int
                })
            },
            _ => true,
        },
    decreases events.len(),
{
    if events.len() > 0 {
        lemma_log_history(id, start, color, account, events.drop_last());
    }
}

/// The log of a job that builds a private package is fetched and shown only to those who are signed
/// in and whose access to the package's origin has been checked and granted.
pub proof fn job_log_keeps_private<D>(
    id: Seq<char>,
    start: Option<ParamValueView>,
    color: Option<ParamValueView>,
    account: Option<u64>,
    events: Seq<EventView<D>>,
)
    ensures
        match job_log_after(id, start, color, account, events) {
            StepView::Perform(ActionView::Route(MessageView::JobLogGet { .. }), _)
            | StepView::Respond(ResponseView::Json { .. }) => {
                &&& log_admitted(account, events)
                &&& events[0]->Job_0.visibility == Visibility::Private ==> crate::run::asked(
                    job_log_steps(),
                    JobLogView::Start { id, start, color, account },
                    events,
                    1,
                    ActionView::CheckOriginAccess {
                        account: account->Some_0,
                        origin: events[0]->Job_0.origin_name,
                    },
                )
            },
            _ => true,
        },
{
    lemma_log_history(id, start, color, account, events);
    if events.len() >= 2 && !(job_log_after(id, start, color, account, events) is Stray) {
        crate::run::asked_before(
            job_log_steps::<D>(),
            JobLogView::Start { id, start, color, account },
            events,
            1,
        );
        lemma_log_history(id, start, color, account, events.take(1));
    }
}

/// Somebody who is not signed in is forbidden to see the log of a job that builds a private
/// package, and nothing more is asked for.
pub proof fn job_log_forbids_strangers<D>(
    id: Seq<char>,
    start: Option<ParamValueView>,
    color: Option<ParamValueView>,
    events: Seq<EventView<D>>,
)
    requires
        crate::text::parsed_id(id) is Some,
        crate::param::asked_number(start) is Some,
        events.len() == 1,
        events[0] is Job,
        events[0]->Job_0.visibility == Visibility::Private,
    ensures
        job_log_after(id, start, color, None, events) == StepView::<JobLogView, D>::Respond(
            ResponseView::Status(FORBIDDEN),
        ),
{
    crate::run::one_step_on(
        job_log_steps::<D>(),
        JobLogView::Start { id, start, color, account: None },
        events,
        0,
    );
}

/// Nobody is forbidden to see the log of a job that builds a package which is not private.
pub proof fn job_log_open_to_all<D>(
    id: Seq<char>,
    start: Option<ParamValueView>,
    color: Option<ParamValueView>,
    account: Option<u64>,
    events: Seq<EventView<D>>,
)
    requires
        events.len() > 0,
        events[0] is Job,
        events[0]->Job_0.visibility != Visibility::Private,
    ensures
        job_log_after(id, start, color, account, events) != StepView::<JobLogView, D>::Respond(
            ResponseView::Status(FORBIDDEN),
        ),
        !(job_log_after(id, start, color, account, events) matches StepView::Perform(
            ActionView::CheckOriginAccess { .. },
            _,
        )),
{
    lemma_log_history(id, start, color, account, events);
    lemma_log_history(id, start, color, account, events.drop_last());
}

/// A log that is shown is the one that the service gave for the job and the line asked for: as it
/// came where the request asks for colours, and else what is left without them.
pub proof fn job_log_shown<D>(
    id: Seq<char>,
    start: Option<ParamValueView>,
    color: Option<ParamValueView>,
    account: Option<u64>,
    events: Seq<EventView<D>>,
)
    ensures
        job_log_after(id, start, color, account, events) matches StepView::Respond(
            ResponseView::Json { status, document },
        ) ==> {
            let turn = log_turn(events);
            let begin = JobLogView::Start { id, start, color, account };
            &&& status == OK
            &&& crate::text::parsed_id(id) is Some
            &&& crate::param::asked_number(start) is Some
            &&& crate::run::asked(
                job_log_steps(),
                begin,
                events,
                turn,
                ActionView::Route(
                    MessageView::JobLogGet {
                        id: crate::text::parsed_id(id)->Some_0,
                        start: crate::param::asked_number(start)->Some_0,
                    },
                ),
            )
            &&& events[turn] is Document
            &&& if crate::param::says_yes(color) {
                document == events[turn]->Document_0
            } else {
                &&& crate::run::asked(
                    job_log_steps(),
                    begin,
                    events,
                    turn + 1,
                    ActionView::StripAnsi(events[turn]->Document_0),
                )
                &&& events[turn + 1] == EventView::<D>::Document(document)
            }
        },
{
    lemma_log_history(id, start, color, account, events);
    let begin = JobLogView::Start { id, start, color, account };
    let turn = log_turn(events);
    if job_log_after(id, start, color, account, events) matches StepView::Respond(
        ResponseView::Json { .. },
    ) {
        crate::run::asked_before(job_log_steps::<D>(), begin, events, turn);
        lemma_log_history(id, start, color, account, events.take(turn));
        if !crate::param::says_yes(color) {
            crate::run::asked_before(job_log_steps::<D>(), begin, events, turn + 1);
            lemma_log_history(id, start, color, account, events.take(turn + 1));
        }
    }
}

/// The display of a job's log is over after four events at the latest.
pub proof fn job_log_ends<D>(
    id: Seq<char>,
    start: Option<ParamValueView>,
    color: Option<ParamValueView>,
    account: Option<u64>,
    events: Seq<EventView<D>>,
)
    ensures
        job_log_after(id, start, color, account, events) is Perform ==> events.len() < 4,
{
    lemma_log_history(id, start, color, account, events);
}

/// Channels and platforms come to stand in a job's JSON object as far as they are known, and
/// nothing else of the object changes.
pub proof fn annotated_members(
    object: Map<Seq<char>, serde_json::Value>,
    listings: ListingsView,
    key: Seq<char>,
)
    ensures
        listings.channels is Some ==> annotated(object, listings).contains_key("channels"@)
            && annotated(object, listings)["channels"@] == crate::json::string_array(
            listings.channels->Some_0,
        ),
        listings.platforms is Some ==> annotated(object, listings).contains_key("platforms"@)
            && annotated(object, listings)["platforms"@] == crate::json::string_array(
            listings.platforms->Some_0,
        ),
        (key != "channels"@ || listings.channels is None) && (key != "platforms"@
            || listings.platforms is None) ==> annotated(object, listings).contains_key(key)
            == object.contains_key(key) && annotated(object, listings)[key] == object[key],
{
    reveal_strlit("channels");
    reveal_strlit("platforms");
    assert("channels"@.len() != "platforms"@.len());
}

/// The display of a job, as a function.
pub open spec fn job_show_steps<D>() -> spec_fn(
    JobShowView,
    EventView<D>,
) -> StepView<JobShowView, D> {
    |s: JobShowView, e: EventView<D>| job_show_step(s, e)
}

/// Where the display of job `id` stands after `events`.
pub open spec fn job_show_after<D>(
    id: Seq<char>,
    account: Option<u64>,
    events: Seq<EventView<D>>,
) -> StepView<JobShowView, D> {
    crate::run::after(job_show_steps(), JobShowView::Start { id, account }, events)
}

/// The display of a job waits for the events that it knows the way on from, and all that can come
/// of its actions is among them. It passes the errors of services on.
pub proof fn job_show_manners<D>()
    ensures
        forall|s: JobShowView, e: EventView<D>|
            #![trigger job_show_step(s, e)]
            job_show_steps::<D>()(s, e) == job_show_step(s, e),
        forall|s: JobShowView, e: EventView<D>|
            #[trigger] job_show_awaits(s, e) == !(job_show_step(s, e) is Stray),
        crate::run::prepared(job_show_steps::<D>()),
        crate::run::passes_errors_on(job_show_steps::<D>()),
{
}

/// A job that knows the release of its package is shown with what was looked up for this package,
/// and one that does not is shown as the service gave it.
pub proof fn job_show_shown<D>(id: Seq<char>, account: Option<u64>, events: Seq<EventView<D>>)
    requires
        crate::text::parsed_id(id) is Some,
        events.len() >= 1,
        events[0] is Job,
    ensures
        events.len() == 1 && !events[0]->Job_0.fully_qualified ==> job_show_after(
            id,
            account,
            events,
        ) == StepView::<JobShowView, D>::Respond(
            ResponseView::Json { status: OK, document: events[0]->Job_0.document },
        ),
        events.len() == 2 && events[0]->Job_0.fully_qualified && events[1] is Listings ==> {
            &&& crate::run::asked(
                job_show_steps(),
                JobShowView::Start { id, account },
                events,
                1,
                ActionView::FetchListings { ident: events[0]->Job_0.ident, session: account },
            )
            &&& job_show_after(id, account, events) == StepView::<JobShowView, D>::Respond(
                ResponseView::JsonObject {
                    status: OK,
                    object: annotated(events[0]->Job_0.object, events[1]->Listings_0),
                },
            )
        },
{
    let begin = JobShowView::Start { id, account };
    crate::run::one_step_on(job_show_steps::<D>(), begin, events, 0);
    if events.len() == 2 {
        crate::run::one_step_on(job_show_steps::<D>(), begin, events, 1);
    }
}

/// The promotion of a job group, as a function.
pub open spec fn job_group_promote_steps<D>() -> spec_fn(
    JobGroupPromoteView,
    EventView<D>,
) -> StepView<JobGroupPromoteView, D> {
    |s: JobGroupPromoteView, e: EventView<D>| job_group_promote_step(s, e)
}

/// The promotion of a job group waits for the events that it knows the way on from, and all that
/// can come of its actions is among them. It passes the errors of services on.
pub proof fn job_group_promote_manners<D>()
    ensures
        forall|s: JobGroupPromoteView, e: EventView<D>|
            #![trigger job_group_promote_step(s, e)]
            job_group_promote_steps::<D>()(s, e) == job_group_promote_step(s, e),
        forall|s: JobGroupPromoteView, e: EventView<D>|
            #[trigger] job_group_promote_awaits(s, e) == !(job_group_promote_step(s, e) is Stray),
        crate::run::prepared(job_group_promote_steps::<D>()),
        crate::run::passes_errors_on(job_group_promote_steps::<D>()),
{
}

/// The display of reverse dependencies, as a function.
pub open spec fn rdeps_show_steps<D>() -> spec_fn(
    RdepsShowView,
    EventView<D>,
) -> StepView<RdepsShowView, D> {
    |s: RdepsShowView, e: EventView<D>| rdeps_show_step(s, e)
}

/// The display of reverse dependencies waits for the events that it knows the way on from, and all
/// that can come of its actions is among them. It passes the errors of services on.
pub proof fn rdeps_show_manners<D>()
    ensures
        forall|s: RdepsShowView, e: EventView<D>|
            #![trigger rdeps_show_step(s, e)]
            rdeps_show_steps::<D>()(s, e) == rdeps_show_step(s, e),
        forall|s: RdepsShowView, e: EventView<D>|
            #[trigger] rdeps_show_awaits(s, e) == !(rdeps_show_step(s, e) is Stray),
        crate::run::prepared(rdeps_show_steps::<D>()),
        crate::run::passes_errors_on(rdeps_show_steps::<D>()),
{
}

/// The display of a job is over after two events at the latest.
pub proof fn job_show_ends<D>(id: Seq<char>, account: Option<u64>, events: Seq<EventView<D>>)
    ensures
        crate::run::after(
            job_show_steps::<D>(),
            JobShowView::Start { id, account },
            events,
        ) is Perform ==> events.len() < 2,
{
    let rank = |s: JobShowView|
        match s {
            JobShowView::Start { .. } => 2nat,
            JobShowView::Fetching { .. } => 1nat,
            JobShowView::Listing { .. } => 0nat,
        };
    crate::run::every_step_counts(
        job_show_steps::<D>(),
        rank,
        JobShowView::Start { id, account },
        events,
    );
}

/// A job group is promoted if and only if the request names it by its number and names a channel:
/// this group, to this channel, on behalf of the account. Nothing else is asked for, and the reply
/// is the answer. Any other request is turned down at once.
pub proof fn job_group_promote_promoted<D>(
    id: Option<Seq<char>>,
    channel: Option<Seq<char>>,
    account: u64,
    events: Seq<EventView<D>>,
)
    ensures
        ({
            let run = crate::run::after(
                job_group_promote_steps::<D>(),
                JobGroupPromoteView::Start { id, channel, account },
                events,
            );
            match (named_id(id), channel) {
                (Some(group), Some(channel)) => crate::run::asks_only(
                    run,
                    events,
                    ActionView::PromoteJobGroup { group, channel, session: Some(account) },
                    crate::run::shows_reply(),
                ),
                _ => crate::run::turned_down(run, events, BAD_REQUEST),
            }
        }),
{
    crate::run::short_run(
        job_group_promote_steps::<D>(),
        JobGroupPromoteView::Start { id, channel, account },
        events,
    );
}

/// The promotion of a job group is over after one event at the latest.
pub proof fn job_group_promote_ends<D>(
    id: Option<Seq<char>>,
    channel: Option<Seq<char>>,
    account: u64,
    events: Seq<EventView<D>>,
)
    ensures
        crate::run::after(
            job_group_promote_steps::<D>(),
            JobGroupPromoteView::Start { id, channel, account },
            events,
        ) is Perform ==> events.len() < 1,
{
    let rank = |s: JobGroupPromoteView|
        match s {
            JobGroupPromoteView::Start { .. } => 1nat,
            JobGroupPromoteView::Promoting => 0nat,
        };
    crate::run::every_step_counts(
        job_group_promote_steps::<D>(),
        rank,
        JobGroupPromoteView::Start { id, channel, account },
        events,
    );
}

/// The reverse dependencies of a package are asked for if and only if the request names its origin
/// and its name: of this package, for the one target there is. Nothing else is asked for, and the
/// reply is the answer. Any other request is turned down at once.
pub proof fn rdeps_show_shown<D>(
    origin: Option<Seq<char>>,
    name: Option<Seq<char>>,
    events: Seq<EventView<D>>,
)
    ensures
        ({
            let run = crate::run::after(
                rdeps_show_steps::<D>(),
                RdepsShowView::Start { origin, name },
                events,
            );
            match (origin, name) {
                (Some(origin), Some(name)) => crate::run::asks_only(
                    run,
                    events,
                    ActionView::Route(
                        MessageView::ReverseDependenciesGet {
                            origin,
                            name,
                            target: "x86_64-linux"@,
                        },
                    ),
                    crate::run::shows_reply(),
                ),
                _ => crate::run::turned_down(run, events, BAD_REQUEST),
            }
        }),
{
    crate::run::short_run(
        rdeps_show_steps::<D>(),
        RdepsShowView::Start { origin, name },
        events,
    );
}

/// The display of reverse dependencies is over after one event at the latest.
pub proof fn rdeps_show_ends<D>(
    origin: Option<Seq<char>>,
    name: Option<Seq<char>>,
    events: Seq<EventView<D>>,
)
    ensures
        crate::run::after(
            rdeps_show_steps::<D>(),
            RdepsShowView::Start { origin, name },
            events,
        ) is Perform ==> events.len() < 1,
{
    let rank = |s: RdepsShowView|
        match s {
            RdepsShowView::Start { .. } => 1nat,
            RdepsShowView::Fetching => 0nat,
        };
    crate::run::every_step_counts(
        rdeps_show_steps::<D>(),
        rank,
        RdepsShowView::Start { origin, name },
        events,
    );
}

} // verus!
