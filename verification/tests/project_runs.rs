use builder_api::project_create::{project_create, ProjectCreate};
use builder_api::project_update::{project_update, read_plan, ProjectUpdate, Revision};
use builder_api::projects::{
    project_delete, project_list, project_privacy_toggle, project_show, settable_visibility,
    ProjectList, ProjectPrivacyToggle, ProjectRequest, VisibilityParam,
};
use builder_api::types::{
    Action, Contents, ErrCode, Event, LogEntry, Message, NetError, NewProject, Origin, Project,
    ProjectCreateReq, Response, Step, Target, Visibility,
};

type Doc = &'static str;

/// Runs a handler on `events` and gives back what it asked for and how it stands.
fn run<S>(
    handler: fn(S, Event<Doc>) -> Step<S, Doc>,
    start: S,
    events: Vec<Event<Doc>>,
) -> (Vec<Action<Doc>>, Step<S, Doc>) {
    let mut asked = vec![];
    let mut step = handler(start, Event::Begin);
    for event in events {
        step = match step {
            Step::Perform(action, state) => {
                asked.push(action);
                handler(state, event)
            }
            _ => panic!("the run was over before {:?}", event),
        };
    }
    (asked, step)
}

fn ends<S>(
    handler: fn(S, Event<Doc>) -> Step<S, Doc>,
    start: S,
    events: Vec<Event<Doc>>,
) -> Response<Doc> {
    match run(handler, start, events).1 {
        Step::Respond(response) => response,
        _ => panic!("no answer"),
    }
}

fn refused() -> NetError {
    NetError { code: ErrCode::Other(9), message: "rg:x:1".to_string() }
}

fn body() -> ProjectCreateReq {
    ProjectCreateReq {
        origin: "core".to_string(),
        plan_path: "redis/plan.sh".to_string(),
        installation_id: 7,
        repo_id: 8,
    }
}

fn origin() -> Origin {
    Origin {
        id: 3,
        name: "core".to_string(),
        default_package_visibility: Visibility::Private,
    }
}

fn contents(content: &str) -> Contents<Doc> {
    Contents { content: content.to_string(), document: "file" }
}

fn create() -> ProjectCreate<Doc> {
    ProjectCreate::Start { account: 12 }
}

fn create_events() -> Vec<Event<Doc>> {
    vec![
        Event::ProjectBody(body()),
        Event::Access(true),
        Event::Token("tok".to_string()),
        Event::Repo("https://x/redis.git".to_string()),
        Event::Origin(origin()),
        Event::Contents(contents("cGxhbg==")),
        Event::Bytes(vec![1, 2]),
        Event::Plan("\"redis\"".to_string()),
        Event::Document("stored"),
        Event::Done,
    ]
}

fn created_until(n: usize, last: Event<Doc>) -> Response<Doc> {
    let mut events = create_events();
    events.truncate(n);
    events.push(last);
    ends(project_create, create(), events)
}

fn unprocessable(text: &'static str) -> Response<Doc> {
    Response::Text { status: 422, text }
}

#[test]
fn project_is_created() {
    let (asked, step) = run(project_create, create(), create_events());
    assert_eq!(step, Step::Respond(Response::Json { status: 201, document: "stored" }));
    assert_eq!(
        asked,
        vec![
            Action::ReadProjectBody,
            Action::CheckOriginAccess { account: 12, origin: "core".to_string() },
            Action::AppInstallationToken { installation_id: 7 },
            Action::FindRepo { token: "tok".to_string(), repo_id: 8 },
            Action::Route(Message::OriginGet { name: "core".to_string() }),
            Action::FetchContents {
                token: "tok".to_string(),
                repo_id: 8,
                path: "redis/plan.sh".to_string(),
            },
            Action::DecodeContents("file"),
            Action::ParsePlan(vec![1, 2]),
            Action::Route(Message::ProjectCreate(NewProject {
                origin_name: "core".to_string(),
                origin_id: 3,
                package_name: "redis".to_string(),
                plan_path: "redis/plan.sh".to_string(),
                owner_id: 12,
                vcs_type: "git".to_string(),
                vcs_data: "https://x/redis.git".to_string(),
                vcs_installation_id: 7,
                visibility: Visibility::Private,
            })),
            Action::Record(LogEntry::ProjectCreate {
                origin: "core".to_string(),
                package: "0".to_string(),
                account: "12".to_string(),
            }),
        ]
    );
}

#[test]
fn project_without_origin_is_not_created() {
    let mut req = body();
    req.origin = String::new();
    req.plan_path = String::new();
    assert_eq!(
        created_until(0, Event::ProjectBody(req)),
        unprocessable("Missing value for field: `origin`")
    );
}

#[test]
fn project_without_plan_path_is_not_created() {
    let mut req = body();
    req.plan_path = String::new();
    assert_eq!(
        created_until(0, Event::ProjectBody(req)),
        unprocessable("Missing value for field: `plan_path`")
    );
}

#[test]
fn failures_of_creation_are_told_apart() {
    assert_eq!(created_until(0, Event::Failed), Response::Status(422));
    assert_eq!(created_until(1, Event::Access(false)), Response::Status(403));
    assert_eq!(created_until(2, Event::Failed), Response::Status(403));
    assert_eq!(created_until(3, Event::Failed), unprocessable("rg:pc:1"));
    assert_eq!(created_until(4, Event::Refused(refused())), Response::NetError(refused()));
    assert_eq!(created_until(5, Event::Failed), unprocessable("rg:pc:2"));
    assert_eq!(created_until(6, Event::Failed), unprocessable("rg:pc:4"));
    assert_eq!(created_until(7, Event::Failed), unprocessable("rg:pc:3"));
    assert_eq!(created_until(8, Event::Refused(refused())), Response::NetError(refused()));
}

#[test]
fn broken_access_check_of_creation_is_raised() {
    let (_, step) = run(
        project_create,
        create(),
        vec![Event::ProjectBody(body()), Event::Raised("down")],
    );
    assert_eq!(step, Step::Raise("down"));
}

fn target() -> Target {
    Target { account: 12, origin: "core".to_string(), name: "redis".to_string() }
}

fn stored() -> Project<Doc> {
    Project {
        origin_name: "core".to_string(),
        package_name: "redis".to_string(),
        plan_path: "plan.sh".to_string(),
        vcs_data: "https://x/old.git".to_string(),
        vcs_installation_id: 1,
        visibility: Visibility::Public,
        document: "stored",
    }
}

fn updated() -> Project<Doc> {
    Project {
        origin_name: "core".to_string(),
        package_name: "redis".to_string(),
        plan_path: "redis/plan.sh".to_string(),
        vcs_data: "https://x/redis.git".to_string(),
        vcs_installation_id: 7,
        visibility: Visibility::Public,
        document: "stored",
    }
}

fn update_events() -> Vec<Event<Doc>> {
    let mut req = body();
    req.origin = String::new();
    vec![
        Event::Access(true),
        Event::Project(stored()),
        Event::ProjectBody(req),
        Event::Token("tok".to_string()),
        Event::Repo("https://x/redis.git".to_string()),
        Event::Contents(contents("cGxhbg==")),
        Event::Plan("redis".to_string()),
        Event::Done,
    ]
}

fn updated_until(n: usize, last: Event<Doc>) -> Response<Doc> {
    let mut events = update_events();
    events.truncate(n);
    events.push(last);
    ends(project_update, ProjectUpdate::Start(target()), events)
}

#[test]
fn project_is_updated() {
    let (asked, step) = run(project_update, ProjectUpdate::Start(target()), update_events());
    assert_eq!(step, Step::Respond(Response::Status(204)));
    assert_eq!(
        asked,
        vec![
            Action::CheckOriginAccess { account: 12, origin: "core".to_string() },
            Action::Route(Message::ProjectGet { name: "core/redis".to_string() }),
            Action::ReadProjectBody,
            Action::AppInstallationToken { installation_id: 7 },
            Action::FindRepo { token: "tok".to_string(), repo_id: 8 },
            Action::FetchContents {
                token: "tok".to_string(),
                repo_id: 8,
                path: "redis/plan.sh".to_string(),
            },
            Action::ParsePlan(b"plan".to_vec()),
            Action::Route(Message::ProjectUpdate { requestor: 12, project: updated() }),
        ]
    );
}

#[test]
fn updating_twice_is_updating_once() {
    let mut events = update_events();
    events[1] = Event::Project(updated());
    let (asked, step) = run(project_update, ProjectUpdate::Start(target()), events);
    assert_eq!(step, Step::Respond(Response::Status(204)));
    assert_eq!(
        asked[7],
        Action::Route(Message::ProjectUpdate { requestor: 12, project: updated() })
    );
}

#[test]
fn update_sets_the_same_whatever_was_stored() {
    let mut events = update_events();
    events[1] = Event::Project(Project {
        origin_name: "other".to_string(),
        package_name: "nginx".to_string(),
        plan_path: String::new(),
        vcs_data: String::new(),
        vcs_installation_id: 99,
        visibility: Visibility::Private,
        document: "another",
    });
    let (asked, _) = run(project_update, ProjectUpdate::Start(target()), events);
    let mut project = updated();
    project.visibility = Visibility::Private;
    project.document = "another";
    assert_eq!(asked[7], Action::Route(Message::ProjectUpdate { requestor: 12, project }));
}

#[test]
fn update_does_not_look_at_the_origin_of_the_body() {
    let (asked, step) = run(project_update, ProjectUpdate::Start(target()), update_events());
    let mut events = update_events();
    let mut req = body();
    req.origin = "elsewhere".to_string();
    events[2] = Event::ProjectBody(req);
    assert_eq!(run(project_update, ProjectUpdate::Start(target()), events), (asked, step));
}

#[test]
fn failures_of_update_are_told_apart() {
    assert_eq!(updated_until(0, Event::Access(false)), Response::Status(403));
    assert_eq!(updated_until(1, Event::Refused(refused())), Response::NetError(refused()));
    assert_eq!(updated_until(2, Event::Failed), Response::Status(422));
    assert_eq!(updated_until(3, Event::Failed), Response::Status(403));
    assert_eq!(updated_until(4, Event::Failed), unprocessable("rg:pu:1"));
    assert_eq!(updated_until(5, Event::Failed), unprocessable("rg:pu:5"));
    assert_eq!(updated_until(5, Event::Contents(contents("?"))), unprocessable("rg:pu:4"));
    assert_eq!(updated_until(5, Event::Contents(contents("cGxh\nbg=="))), unprocessable("rg:pu:4"));
    assert_eq!(updated_until(6, Event::Failed), unprocessable("rg:pu:3"));
    assert_eq!(updated_until(6, Event::Plan("nginx".to_string())), unprocessable("rg:pu:2"));
    assert_eq!(updated_until(6, Event::Plan("\"redis\"".to_string())), unprocessable("rg:pu:2"));
    assert_eq!(updated_until(7, Event::Refused(refused())), Response::NetError(refused()));
}

#[test]
fn update_without_plan_path_is_turned_down() {
    let mut req = body();
    req.plan_path = String::new();
    assert_eq!(
        updated_until(2, Event::ProjectBody(req)),
        unprocessable("Missing value for field: `plan_path`")
    );
}

#[test]
fn plan_is_read_once_decoded() {
    let revision = || Revision {
        target: target(),
        project: stored(),
        body: body(),
        clone_url: "url".to_string(),
    };
    assert_eq!(
        read_plan(revision(), Some(vec![9])),
        Step::Perform(Action::ParsePlan(vec![9]), ProjectUpdate::ParsingPlan(revision()))
    );
    assert_eq!(read_plan(revision(), None), Step::Respond(unprocessable("rg:pu:4")));
}

#[test]
fn project_is_deleted() {
    let (asked, step) = run(
        project_delete,
        ProjectRequest::Start(target()),
        vec![Event::Access(true), Event::Done],
    );
    assert_eq!(step, Step::Respond(Response::Status(204)));
    assert_eq!(
        asked,
        vec![
            Action::CheckOriginAccess { account: 12, origin: "core".to_string() },
            Action::Route(Message::ProjectDelete {
                name: "core/redis".to_string(),
                requestor: 12,
            }),
        ]
    );
}

#[test]
fn project_is_not_deleted_without_access() {
    let (asked, step) = run(
        project_delete,
        ProjectRequest::Start(target()),
        vec![Event::Access(false)],
    );
    assert_eq!(step, Step::Respond(Response::Status(403)));
    assert_eq!(asked.len(), 1);
    let (_, step) = run(
        project_delete,
        ProjectRequest::Start(target()),
        vec![Event::Raised("down")],
    );
    assert_eq!(step, Step::Raise("down"));
    assert_eq!(
        ends(
            project_delete,
            ProjectRequest::Start(target()),
            vec![Event::Access(true), Event::Refused(refused())]
        ),
        Response::NetError(refused())
    );
}

#[test]
fn project_is_shown() {
    let (asked, step) = run(
        project_show,
        ProjectRequest::Start(target()),
        vec![Event::Access(true), Event::Project(stored())],
    );
    assert_eq!(step, Step::Respond(Response::Json { status: 200, document: "stored" }));
    assert_eq!(
        asked[1],
        Action::Route(Message::ProjectGet { name: "core/redis".to_string() })
    );
    assert_eq!(
        ends(project_show, ProjectRequest::Start(target()), vec![Event::Access(false)]),
        Response::Status(403)
    );
    assert_eq!(
        ends(
            project_show,
            ProjectRequest::Start(target()),
            vec![Event::Access(true), Event::Refused(refused())]
        ),
        Response::NetError(refused())
    );
}

#[test]
fn projects_are_listed() {
    let start = || ProjectList::Start { account: 12, origin: "core".to_string() };
    let names = || vec!["redis".to_string(), "nginx".to_string()];
    let (asked, step) = run(
        project_list,
        start(),
        vec![Event::Access(true), Event::Names(names())],
    );
    assert_eq!(step, Step::Respond(Response::JsonNames { status: 200, names: names() }));
    assert_eq!(
        asked,
        vec![
            Action::CheckOriginAccess { account: 12, origin: "core".to_string() },
            Action::Route(Message::ProjectListGet { origin: "core".to_string() }),
        ]
    );
    assert_eq!(
        ends(project_list, start(), vec![Event::Access(false)]),
        Response::Status(403)
    );
}

fn toggle(text: &str, parsed: Option<Visibility>) -> ProjectPrivacyToggle<Doc> {
    ProjectPrivacyToggle::Start {
        account: 12,
        origin: Some("core".to_string()),
        name: Some("redis".to_string()),
        visibility: Some(VisibilityParam { text: text.to_string(), parsed }),
    }
}

#[test]
fn visibility_is_changed() {
    let (asked, step) = run(
        project_privacy_toggle,
        toggle("private", Some(Visibility::Private)),
        vec![
            Event::Access(true),
            Event::Project(stored()),
            Event::Visibility(Visibility::Hidden),
            Event::Done,
        ],
    );
    assert_eq!(step, Step::Respond(Response::Status(204)));
    assert_eq!(
        asked,
        vec![
            Action::CheckOriginAccess { account: 12, origin: "core".to_string() },
            Action::Route(Message::ProjectGet { name: "core/redis".to_string() }),
            Action::TransitionVisibility {
                incoming: Visibility::Private,
                current: Visibility::Public,
            },
            Action::Route(Message::ProjectVisibilityUpdate {
                project: Project { visibility: Visibility::Hidden, ..stored() },
            }),
        ]
    );
}

#[test]
fn nobody_hides_a_project_by_hand() {
    for text in ["hidden", "Hidden", "HIDDEN", "hIdDeN"] {
        let (asked, step) = run(
            project_privacy_toggle,
            toggle(text, Some(Visibility::Hidden)),
            vec![],
        );
        assert_eq!(step, Step::Respond(Response::Status(400)));
        assert!(asked.is_empty());
    }
}

#[test]
fn words_that_are_not_hidden_go_on() {
    for text in ["HIDDEN ", "H\u{130}DDEN", "PR\u{130}VATE"] {
        let (actions, _) = run(
            project_privacy_toggle,
            toggle(text, Some(Visibility::Private)),
            vec![Event::Access(false)],
        );
        assert_eq!(actions.len(), 1);
    }
}

#[test]
fn visibility_has_to_be_given_and_known() {
    let none = || -> Vec<Event<Doc>> { vec![] };
    assert_eq!(
        ends(project_privacy_toggle, toggle("secret", None), none()),
        Response::Status(400)
    );
    for missing in 0..3 {
        let start = ProjectPrivacyToggle::Start {
            account: 12,
            origin: if missing == 0 { None } else { Some("core".to_string()) },
            name: if missing == 1 { None } else { Some("redis".to_string()) },
            visibility: if missing == 2 {
                None
            } else {
                Some(VisibilityParam {
                    text: "public".to_string(),
                    parsed: Some(Visibility::Public),
                })
            },
        };
        assert_eq!(ends(project_privacy_toggle, start, none()), Response::Status(400));
    }
}

#[test]
fn visibility_is_not_changed_without_access() {
    let start = || toggle("public", Some(Visibility::Public));
    assert_eq!(
        ends(project_privacy_toggle, start(), vec![Event::Access(false)]),
        Response::Status(403)
    );
    assert_eq!(
        ends(
            project_privacy_toggle,
            start(),
            vec![Event::Access(true), Event::Refused(refused())]
        ),
        Response::NetError(refused())
    );
}

#[test]
fn hidden_is_not_settable() {
    assert_eq!(settable_visibility("hidden".to_string(), Some(Visibility::Hidden)), None);
    assert_eq!(
        settable_visibility("public".to_string(), Some(Visibility::Public)),
        Some(Visibility::Public)
    );
    assert_eq!(settable_visibility("secret".to_string(), None), None);
}
