use builder_api::accounts::{
    authentication_error, github_authenticate, list_account_invitations, list_user_origins, notify,
    status, AccountList, GithubAuthenticate, Notify,
};
use builder_api::integrations::{
    create_project_integration, get_project_integration, show_integration,
    CreateProjectIntegration, GetProjectIntegration,
};
use builder_api::types::{
    Action, AuthFailure, ErrCode, Event, IntegrationKey, LogEntry, Message, NetError, Response,
    Session, Step,
};
use serde_json::Value;

type Doc = &'static str;

fn run<S>(
    handler: fn(S, Event<Doc>) -> Step<S, Doc>,
    start: S,
    events: Vec<Event<Doc>>,
) -> (Vec<Action<Doc>>, Step<S, Doc>) {
    let mut asked = vec![];
    let mut step = handler(start, Event::Begin);
    for event in events {
        step = match step {
            Step::Perform(action, state) => {
                asked.push(action);
                handler(state, event)
            }
            _ => panic!("the run was over before {:?}", event),
        };
    }
    (asked, step)
}

fn error(code: ErrCode) -> NetError {
    NetError { code, message: "rg:x:1".to_string() }
}

fn sign_in(functional_test: bool) -> GithubAuthenticate<Doc> {
    GithubAuthenticate::Start { code: "code".to_string(), functional_test }
}

fn session() -> Event<Doc> {
    Event::Session(Session { id: 1034, name: "alex".to_string(), document: "session" })
}

fn record() -> Action<Doc> {
    Action::Record(LogEntry::GithubAuthenticate {
        user: "alex".to_string(),
        account: "1034".to_string(),
    })
}

#[test]
fn user_signs_in() {
    let (asked, step) = run(
        github_authenticate,
        sign_in(false),
        vec![Event::Token("tok".to_string()), session(), Event::Done],
    );
    assert_eq!(step, Step::Respond(Response::Json { status: 200, document: "session" }));
    assert_eq!(
        asked,
        vec![
            Action::Authenticate { code: "code".to_string() },
            Action::CreateSession { token: "tok".to_string() },
            record(),
        ]
    );
}

#[test]
fn functional_test_signs_in_without_github() {
    let (asked, step) = run(github_authenticate, sign_in(true), vec![session(), Event::Done]);
    assert_eq!(step, Step::Respond(Response::Json { status: 200, document: "session" }));
    assert_eq!(asked, vec![Action::CreateSession { token: "code".to_string() }, record()]);
}

#[test]
fn github_lets_nobody_in() {
    let cases = vec![
        (
            AuthFailure::Denied("bad code".to_string()),
            NetError { code: ErrCode::AccessDenied, message: "bad code".to_string() },
        ),
        (
            AuthFailure::BadReply,
            NetError { code: ErrCode::BadRemoteReply, message: "rg:auth:1".to_string() },
        ),
        (
            AuthFailure::Other,
            NetError { code: ErrCode::Bug, message: "rg:auth:2".to_string() },
        ),
    ];
    for (failure, expected) in cases {
        let (_, step) = run(
            github_authenticate,
            sign_in(false),
            vec![Event::NotAuthenticated(failure)],
        );
        assert_eq!(step, Step::Respond(Response::NetError(expected)));
    }
    assert_eq!(authentication_error(AuthFailure::Other).code, ErrCode::Bug);
}

#[test]
fn session_that_cannot_be_opened_is_raised() {
    let (_, step) = run(github_authenticate, sign_in(true), vec![Event::Raised("down")]);
    assert_eq!(step, Step::Raise("down"));
}

#[test]
fn account_lists() {
    let start = || AccountList::Start { account: 12 };
    let (asked, step) = run(list_account_invitations, start(), vec![Event::Document("invites")]);
    assert_eq!(step, Step::Respond(Response::Json { status: 200, document: "invites" }));
    assert_eq!(asked, vec![Action::Route(Message::AccountInvitationList { account: 12 })]);
    let (asked, step) = run(list_user_origins, start(), vec![Event::Document("origins")]);
    assert_eq!(step, Step::Respond(Response::Json { status: 200, document: "origins" }));
    assert_eq!(asked, vec![Action::Route(Message::AccountOriginList { account: 12 })]);
    let refused = || error(ErrCode::Bug);
    let (_, step) = run(list_user_origins, start(), vec![Event::Refused(refused())]);
    assert_eq!(step, Step::Respond(Response::NetError(refused())));
    let (_, step) = run(list_account_invitations, start(), vec![Event::Refused(refused())]);
    assert_eq!(step, Step::Respond(Response::NetError(refused())));
}

#[test]
fn notices_come_from_github() {
    let start = |github_event| Notify::Start { github_event };
    let (asked, step) = run(notify, start(true), vec![Event::Document("handled")]);
    assert_eq!(step, Step::Respond(Response::Prepared("handled")));
    assert_eq!(asked, vec![Action::HandleGithubEvent]);
    let (_, step) = run(notify, start(true), vec![Event::Raised("down")]);
    assert_eq!(step, Step::Raise("down"));
    let (_, step) = run(notify, start(false), vec![]);
    assert_eq!(step, Step::Respond(Response::Status(400)));
}

#[test]
fn status_is_fine() {
    assert_eq!(status::<Doc>(), Response::Status(200));
}

fn key() -> IntegrationKey {
    IntegrationKey {
        origin: "core".to_string(),
        name: "redis".to_string(),
        integration: "docker".to_string(),
    }
}

fn validate() -> Action<Doc> {
    Action::ValidateParams {
        names: vec!["origin".to_string(), "name".to_string(), "integration".to_string()],
    }
}

#[test]
fn integration_is_created() {
    let (asked, step) = run(
        create_project_integration,
        CreateProjectIntegration::Start,
        vec![Event::Params(key()), Event::JsonBody("{\"a\": 1}".to_string()), Event::Done],
    );
    assert_eq!(step, Step::Respond(Response::Status(204)));
    assert_eq!(
        asked,
        vec![
            validate(),
            Action::ReadJsonBody,
            Action::Route(Message::IntegrationCreate {
                key: key(),
                integration_name: "default".to_string(),
                body: "{\"a\": 1}".to_string(),
            }),
        ]
    );
}

#[test]
fn created_integration_reads_back() {
    for body in ["{\"a\": 1}", "[]", " null ", "\"text\""] {
        let (asked, _) = run(
            create_project_integration,
            CreateProjectIntegration::Start,
            vec![Event::Params(key()), Event::JsonBody(body.to_string()), Event::Done],
        );
        let stored = match &asked[2] {
            Action::Route(Message::IntegrationCreate { body, .. }) => body.clone(),
            _ => panic!("nothing was stored"),
        };
        let (_, step) = run(
            get_project_integration,
            GetProjectIntegration::Start,
            vec![Event::Params(key()), Event::Integration(stored)],
        );
        let value: Value = serde_json::from_str(body).unwrap();
        assert_eq!(step, Step::Respond(Response::JsonValue { status: 200, value }));
    }
}

#[test]
fn integration_is_not_created() {
    let created = |events| {
        match run(create_project_integration, CreateProjectIntegration::Start, events).1 {
            Step::Respond(response) => response,
            _ => panic!("no answer"),
        }
    };
    assert_eq!(created(vec![Event::BadParams(403)]), Response::Status(403));
    assert_eq!(created(vec![Event::Params(key()), Event::NoBody]), Response::Status(400));
    assert_eq!(created(vec![Event::Params(key()), Event::Failed]), Response::Status(400));
    let body = || Event::JsonBody("1".to_string());
    assert_eq!(
        created(vec![Event::Params(key()), body(), Event::Refused(error(ErrCode::EntityConflict))]),
        Response::Status(409)
    );
    assert_eq!(
        created(vec![Event::Params(key()), body(), Event::Refused(error(ErrCode::EntityNotFound))]),
        Response::Status(500)
    );
}

#[test]
fn integration_is_shown() {
    let (asked, step) = run(
        get_project_integration,
        GetProjectIntegration::Start,
        vec![Event::Params(key()), Event::Integration(" {\"a\": [true]} ".to_string())],
    );
    let mut object = serde_json::Map::new();
    object.insert("a".to_string(), Value::Array(vec![Value::Bool(true)]));
    assert_eq!(
        step,
        Step::Respond(Response::JsonValue { status: 200, value: Value::Object(object) })
    );
    assert_eq!(
        asked,
        vec![
            validate(),
            Action::Route(Message::IntegrationGet {
                key: key(),
                integration_name: "default".to_string(),
            }),
        ]
    );
}

#[test]
fn integration_is_not_shown() {
    let shown = |events| {
        match run(get_project_integration, GetProjectIntegration::Start, events).1 {
            Step::Respond(response) => response,
            _ => panic!("no answer"),
        }
    };
    assert_eq!(shown(vec![Event::BadParams(400)]), Response::Status(400));
    for body in ["", "{", "{} {}", "redis"] {
        assert_eq!(
            shown(vec![Event::Params(key()), Event::Integration(body.to_string())]),
            Response::Text { status: 422, text: "api:gpi:1" }
        );
    }
    assert_eq!(
        shown(vec![Event::Params(key()), Event::Refused(error(ErrCode::EntityNotFound))]),
        Response::Status(404)
    );
    assert_eq!(
        shown(vec![Event::Params(key()), Event::Refused(error(ErrCode::Other(3)))]),
        Response::Text { status: 500, text: "api:gpi:2" }
    );
}

#[test]
fn integration_values() {
    let shown: Response<Doc> = show_integration(Some(Value::Null));
    assert_eq!(shown, Response::JsonValue { status: 200, value: Value::Null });
    let shown: Response<Doc> = show_integration(None);
    assert_eq!(shown, Response::Text { status: 422, text: "api:gpi:1" });
}
