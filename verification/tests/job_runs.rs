use builder_api::jobs::{
    annotate, job_group_promote, job_log, job_show, list_jobs, project_jobs, rdeps_show,
    JobGroupPromote, JobLog, JobShow, ProjectJobs, RdepsShow,
};
use builder_api::json::JsonObject;
use builder_api::param::ParamValue;
use builder_api::types::{
    Action, ErrCode, Event, Job, JobEntry, JobRange, JobState, Listings, Message, NetError,
    Response, Step, Target, Visibility,
};
use serde_json::Value;

type Doc = &'static str;

fn run<S>(
    handler: fn(S, Event<Doc>) -> Step<S, Doc>,
    start: S,
    events: Vec<Event<Doc>>,
) -> (Vec<Action<Doc>>, Step<S, Doc>) {
    let mut asked = vec![];
    let mut step = handler(start, Event::Begin);
    for event in events {
        step = match step {
            Step::Perform(action, state) => {
                asked.push(action);
                handler(state, event)
            }
            _ => panic!("the run was over before {:?}", event),
        };
    }
    (asked, step)
}

fn refused() -> NetError {
    NetError { code: ErrCode::EntityNotFound, message: "rg:x:1".to_string() }
}

fn object(id: &str) -> JsonObject {
    let mut object = serde_json::Map::new();
    object.insert("id".to_string(), Value::from(id));
    object
}

fn strings(items: &[&str]) -> Vec<String> {
    items.iter().map(|s| s.to_string()).collect()
}

fn listings(channels: Option<&[&str]>, platforms: Option<&[&str]>) -> Listings {
    Listings { channels: channels.map(strings), platforms: platforms.map(strings) }
}

fn job(visibility: Visibility, fully_qualified: bool) -> Job<Doc> {
    Job {
        document: "job",
        object: object("5"),
        ident: "ident",
        fully_qualified,
        origin_name: "core".to_string(),
        visibility,
    }
}

fn log_start(start: Option<&str>, color: Option<&str>, account: Option<u64>) -> JobLog {
    JobLog::Start {
        id: "5".to_string(),
        start: start.map(|s| ParamValue::Text(s.to_string())),
        color: color.map(|s| ParamValue::Text(s.to_string())),
        account,
    }
}

#[test]
fn log_is_shown_without_colours() {
    let (asked, step) = run(
        job_log,
        log_start(Some("100"), None, None),
        vec![
            Event::Job(job(Visibility::Public, true)),
            Event::Document("log"),
            Event::Document("plain log"),
        ],
    );
    assert_eq!(step, Step::Respond(Response::Json { status: 200, document: "plain log" }));
    assert_eq!(
        asked,
        vec![
            Action::Route(Message::JobGet { id: 5 }),
            Action::Route(Message::JobLogGet { id: 5, start: 100 }),
            Action::StripAnsi("log"),
        ]
    );
}

#[test]
fn log_is_shown_with_colours() {
    let (asked, step) = run(
        job_log,
        log_start(None, Some("true"), None),
        vec![Event::Job(job(Visibility::Hidden, true)), Event::Document("log")],
    );
    assert_eq!(step, Step::Respond(Response::Json { status: 200, document: "log" }));
    assert_eq!(asked[1], Action::Route(Message::JobLogGet { id: 5, start: 0 }));
}

#[test]
fn private_log_needs_access() {
    let private = || Event::Job(job(Visibility::Private, true));
    let (asked, step) = run(job_log, log_start(None, None, None), vec![private()]);
    assert_eq!(step, Step::Respond(Response::Status(403)));
    assert_eq!(asked.len(), 1);

    let (asked, step) = run(
        job_log,
        log_start(None, None, Some(12)),
        vec![private(), Event::Access(false)],
    );
    assert_eq!(step, Step::Respond(Response::Status(403)));
    assert_eq!(
        asked[1],
        Action::CheckOriginAccess { account: 12, origin: "core".to_string() }
    );

    let (_, step) = run(
        job_log,
        log_start(None, Some("1"), Some(12)),
        vec![private(), Event::Access(true), Event::Document("log")],
    );
    assert_eq!(step, Step::Respond(Response::Json { status: 200, document: "log" }));

    let (_, step) = run(
        job_log,
        log_start(None, None, Some(12)),
        vec![private(), Event::Raised("down")],
    );
    assert_eq!(step, Step::Raise("down"));
}

#[test]
fn log_of_nonsense_is_a_bad_request() {
    let (_, step) = run(job_log, log_start(Some("x"), None, None), vec![]);
    assert_eq!(step, Step::Respond(Response::Status(400)));
    let start = JobLog::Start { id: "five".to_string(), start: None, color: None, account: None };
    let (_, step) = run(job_log, start, vec![]);
    assert_eq!(step, Step::Respond(Response::Status(400)));
}

#[test]
fn errors_of_services_reach_the_reader_of_a_log() {
    let (_, step) = run(job_log, log_start(None, None, None), vec![Event::Refused(refused())]);
    assert_eq!(step, Step::Respond(Response::NetError(refused())));
    let (_, step) = run(
        job_log,
        log_start(None, None, None),
        vec![Event::Job(job(Visibility::Public, true)), Event::Refused(refused())],
    );
    assert_eq!(step, Step::Respond(Response::NetError(refused())));
}

#[test]
fn jobs_are_annotated() {
    let result = annotate(object("5"), listings(Some(&["stable"]), Some(&["linux", "windows"])));
    let mut expected = object("5");
    expected.insert("channels".to_string(), Value::Array(vec![Value::from("stable")]));
    expected.insert(
        "platforms".to_string(),
        Value::Array(vec![Value::from("linux"), Value::from("windows")]),
    );
    assert_eq!(result, expected);
    assert_eq!(annotate(object("5"), listings(None, None)), object("5"));
}

#[test]
fn qualified_job_is_shown_with_listings() {
    let start = JobShow::Start { id: "5".to_string(), account: Some(12) };
    let (asked, step) = run(
        job_show,
        start,
        vec![
            Event::Job(job(Visibility::Private, true)),
            Event::Listings(listings(None, Some(&["linux"]))),
        ],
    );
    let mut expected = object("5");
    expected.insert("platforms".to_string(), Value::Array(vec![Value::from("linux")]));
    assert_eq!(step, Step::Respond(Response::JsonObject { status: 200, object: expected }));
    assert_eq!(
        asked,
        vec![
            Action::Route(Message::JobGet { id: 5 }),
            Action::FetchListings { ident: "ident", session: Some(12) },
        ]
    );
}

#[test]
fn other_job_is_shown_as_it_is() {
    let start = || JobShow::Start { id: "5".to_string(), account: None };
    let (_, step) = run(
        job_show,
        start(),
        vec![Event::Job(job(Visibility::Public, false))],
    );
    assert_eq!(step, Step::Respond(Response::Json { status: 200, document: "job" }));
    let (_, step) = run(job_show, start(), vec![Event::Refused(refused())]);
    assert_eq!(step, Step::Respond(Response::NetError(refused())));
    let (_, step) = run(
        job_show,
        JobShow::Start { id: "".to_string(), account: None },
        vec![],
    );
    assert_eq!(step, Step::Respond(Response::Status(400)));
}

fn entry(id: &'static str, state: JobState) -> JobEntry<Doc> {
    JobEntry { object: object(id), ident: id, state }
}

fn jobs_start(pagination: Result<(isize, isize), Doc>) -> ProjectJobs<Doc> {
    ProjectJobs::Start {
        target: Target { account: 12, origin: "core".to_string(), name: "redis".to_string() },
        pagination,
    }
}

#[test]
fn jobs_of_a_project_are_listed_in_order() {
    let entries = vec![
        entry("a", JobState::Other(1)),
        entry("b", JobState::Complete),
        entry("c", JobState::Other(4)),
        entry("d", JobState::Complete),
        entry("e", JobState::Other(2)),
    ];
    let range = JobRange { count: 70, start: 0, stop: 49 };
    let (asked, step) = run(
        project_jobs,
        jobs_start(Ok((0, 49))),
        vec![
            Event::Access(true),
            Event::Jobs { entries, range },
            Event::Listings(listings(Some(&["stable"]), None)),
            Event::Listings(listings(None, Some(&["linux"]))),
        ],
    );
    let b = annotate(object("b"), listings(Some(&["stable"]), None));
    let d = annotate(object("d"), listings(None, Some(&["linux"])));
    assert_eq!(
        step,
        Step::Respond(Response::JobPage {
            jobs: vec![object("a"), b, object("c"), d, object("e")],
            count: 70,
            start: 0,
            stop: 49,
        })
    );
    assert_eq!(
        asked,
        vec![
            Action::CheckOriginAccess { account: 12, origin: "core".to_string() },
            Action::Route(Message::ProjectJobsGet {
                name: "core/redis".to_string(),
                start: 0,
                stop: 49,
            }),
            Action::FetchListings { ident: "b", session: Some(12) },
            Action::FetchListings { ident: "d", session: Some(12) },
        ]
    );
}

#[test]
fn negative_page_wraps_around() {
    let (asked, _) = run(
        project_jobs,
        jobs_start(Ok((-1, 48))),
        vec![Event::Access(true), Event::Refused(refused())],
    );
    assert_eq!(
        asked[1],
        Action::Route(Message::ProjectJobsGet {
            name: "core/redis".to_string(),
            start: u64::MAX,
            stop: 48,
        })
    );
}

#[test]
fn no_jobs_make_an_empty_page() {
    let range = JobRange { count: 0, start: 0, stop: 49 };
    let (_, step) = run(
        project_jobs,
        jobs_start(Ok((0, 49))),
        vec![Event::Access(true), Event::Jobs { entries: vec![], range }],
    );
    assert_eq!(
        step,
        Step::Respond(Response::JobPage { jobs: vec![], count: 0, start: 0, stop: 49 })
    );
}

#[test]
fn jobs_are_not_listed_without_access_or_page() {
    let (_, step) = run(project_jobs, jobs_start(Err("bad page")), vec![Event::Access(false)]);
    assert_eq!(step, Step::Respond(Response::Status(403)));
    let (_, step) = run(project_jobs, jobs_start(Err("bad page")), vec![Event::Access(true)]);
    assert_eq!(step, Step::Respond(Response::Prepared("bad page")));
    let (_, step) = run(
        project_jobs,
        jobs_start(Ok((0, 49))),
        vec![Event::Access(true), Event::Refused(refused())],
    );
    assert_eq!(step, Step::Respond(Response::NetError(refused())));
}

#[test]
fn listing_stops_at_a_complete_job() {
    let range = JobRange { count: 2, start: 0, stop: 1 };
    let step = list_jobs(
        12,
        vec![object("z")],
        vec![entry("a", JobState::Other(0)), entry("b", JobState::Complete)],
        range,
    );
    assert_eq!(
        step,
        Step::Perform(
            Action::FetchListings { ident: "b", session: Some(12) },
            ProjectJobs::Listing {
                account: 12,
                ready: vec![object("z"), object("a")],
                object: object("b"),
                rest: vec![],
                range,
            }
        )
    );
}

fn promote(id: Option<&str>, channel: Option<&str>) -> JobGroupPromote {
    JobGroupPromote::Start {
        id: id.map(|s| s.to_string()),
        channel: channel.map(|s| s.to_string()),
        account: 12,
    }
}

#[test]
fn job_group_is_promoted() {
    let (asked, step) = run(
        job_group_promote,
        promote(Some("99"), Some("stable")),
        vec![Event::Document("promoted")],
    );
    assert_eq!(step, Step::Respond(Response::Json { status: 200, document: "promoted" }));
    assert_eq!(
        asked,
        vec![Action::PromoteJobGroup {
            group: 99,
            channel: "stable".to_string(),
            session: Some(12),
        }]
    );
    let (_, step) = run(
        job_group_promote,
        promote(Some("99"), Some("stable")),
        vec![Event::Refused(refused())],
    );
    assert_eq!(step, Step::Respond(Response::NetError(refused())));
}

#[test]
fn promotion_needs_a_group_and_a_channel() {
    for (id, channel) in [(None, Some("stable")), (Some("x"), Some("stable")), (Some("9"), None)] {
        let (_, step) = run(job_group_promote, promote(id, channel), vec![]);
        assert_eq!(step, Step::Respond(Response::Status(400)));
    }
}

#[test]
fn reverse_dependencies_are_shown() {
    let start = |origin: Option<&str>, name: Option<&str>| RdepsShow::Start {
        origin: origin.map(|s| s.to_string()),
        name: name.map(|s| s.to_string()),
    };
    let (asked, step) = run(
        rdeps_show,
        start(Some("core"), Some("redis")),
        vec![Event::Document("rdeps")],
    );
    assert_eq!(step, Step::Respond(Response::Json { status: 200, document: "rdeps" }));
    assert_eq!(
        asked,
        vec![Action::Route(Message::ReverseDependenciesGet {
            origin: "core".to_string(),
            name: "redis".to_string(),
            target: "x86_64-linux".to_string(),
        })]
    );
    for (origin, name) in [(None, Some("redis")), (Some("core"), None)] {
        let (_, step) = run(rdeps_show, start(origin, name), vec![]);
        assert_eq!(step, Step::Respond(Response::Status(400)));
    }
    let (_, step) = run(
        rdeps_show,
        start(Some("core"), Some("redis")),
        vec![Event::Refused(refused())],
    );
    assert_eq!(step, Step::Respond(Response::NetError(refused())));
}
