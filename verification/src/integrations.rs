//! Integrations of a project with other systems.

use vstd::prelude::*;
use vstd::string::*;

use crate::types::{
    Action, ActionView, ErrCode, Event, EventView, IntegrationKey, IntegrationKeyView, Message,
    MessageView, Response, ResponseView, Step, StepView, BAD_REQUEST, CONFLICT,
    INTERNAL_SERVER_ERROR, NOT_FOUND, NO_CONTENT, OK, UNPROCESSABLE_ENTITY,
};

verus! {

/// The parameters that name an integration.
pub open spec fn key_names() -> Seq<Seq<char>> {
    seq!["origin"@, "name"@, "integration"@]
}

/// The name of a project's integration. There can only be one, so all have this name.
pub open spec fn default_integration() -> Seq<char> {
    "default"@
}

fn key_params() -> (names: Vec<String>)
    ensures
        names.deep_view() == key_names(),
{
    let mut names: Vec<String> = Vec::new();
    names.push(String::from_str("origin"));
    names.push(String::from_str("name"));
    names.push(String::from_str("integration"));
    assert(names.deep_view() =~= key_names());
    names
}

/// How far the creation of an integration has come.
#[derive(Debug, PartialEq, Eq)]
pub enum CreateProjectIntegration {
    Start,
    Validating,
    ReadingBody(IntegrationKey),
    Creating,
}

/// What a [`CreateProjectIntegration`] holds.
pub enum CreateProjectIntegrationView {
    Start,
    Validating,
    ReadingBody(IntegrationKeyView),
    Creating,
}

impl View for CreateProjectIntegration {
    type V = CreateProjectIntegrationView;

    open spec fn view(&self) -> CreateProjectIntegrationView {
        match self {
            CreateProjectIntegration::Start => CreateProjectIntegrationView::Start,
            CreateProjectIntegration::Validating => CreateProjectIntegrationView::Validating,
            CreateProjectIntegration::ReadingBody(key) => {
                CreateProjectIntegrationView::ReadingBody(key@)
            },
            CreateProjectIntegration::Creating => CreateProjectIntegrationView::Creating,
        }
    }
}

/// The events that a state of an integration's creation waits for.
pub open spec fn create_project_integration_awaits<D>(
    state: CreateProjectIntegrationView,
    event: EventView<D>,
) -> bool {
    match state {
        CreateProjectIntegrationView::Start => event is Begin,
        CreateProjectIntegrationView::Validating => event is Params || event is BadParams,
        CreateProjectIntegrationView::ReadingBody(_) => event is JsonBody || event is NoBody
            || event is Failed,
        CreateProjectIntegrationView::Creating => event is Done || event is Refused,
    }
}

/// How the creation of an integration goes on.
pub open spec fn create_project_integration_step<D>(
    state: CreateProjectIntegrationView,
    event: EventView<D>,
) -> StepView<CreateProjectIntegrationView, D> {
    match (state, event) {
        (CreateProjectIntegrationView::Start, EventView::Begin) => StepView::Perform(
            ActionView::ValidateParams { names: key_names() },
            CreateProjectIntegrationView::Validating,
        ),
        (CreateProjectIntegrationView::Validating, EventView::Params(key)) => StepView::Perform(
            ActionView::ReadJsonBody,
            CreateProjectIntegrationView::ReadingBody(key),
        ),
        (CreateProjectIntegrationView::Validating, EventView::BadParams(status)) => {
            StepView::Respond(ResponseView::Status(status))
        },
        (CreateProjectIntegrationView::ReadingBody(key), EventView::JsonBody(body)) => {
            StepView::Perform(
                ActionView::Route(
                    MessageView::IntegrationCreate {
                        key,
                        integration_name: default_integration(),
                        body,
                    },
                ),
                CreateProjectIntegrationView::Creating,
            )
        },
        (CreateProjectIntegrationView::ReadingBody(_), EventView::NoBody) => StepView::Respond(
            ResponseView::Status(BAD_REQUEST),
        ),
        (CreateProjectIntegrationView::ReadingBody(_), EventView::Failed) => StepView::Respond(
            ResponseView::Status(BAD_REQUEST),
        ),
        (CreateProjectIntegrationView::Creating, EventView::Done) => StepView::Respond(
            ResponseView::Status(NO_CONTENT),
        ),
        (CreateProjectIntegrationView::Creating, EventView::Refused(error)) => {
            if error.code == ErrCode::EntityConflict {
                StepView::Respond(ResponseView::Status(CONFLICT))
            } else {
                StepView::Respond(ResponseView::Status(INTERNAL_SERVER_ERROR))
            }
        },
        _ => StepView::Stray,
    }
}

/// Creates an integration of a project. The request's body is JSON and is stored as it stands.
pub fn create_project_integration<D>(state: CreateProjectIntegration, event: Event<D>) -> (step:
    Step<CreateProjectIntegration, D>)
    requires
        create_project_integration_awaits(state@, event@),
    ensures
        step@ == create_project_integration_step(state@, event@),
{
    match (state, event) {
        (CreateProjectIntegration::Start, Event::Begin) => Step::Perform(
            Action::ValidateParams { names: key_params() },
            CreateProjectIntegration::Validating,
        ),
        (CreateProjectIntegration::Validating, Event::Params(key)) => Step::Perform(
            Action::ReadJsonBody,
            CreateProjectIntegration::ReadingBody(key),
        ),
        (CreateProjectIntegration::Validating, Event::BadParams(status)) => Step::Respond(
            Response::Status(status),
        ),
        (CreateProjectIntegration::ReadingBody(key), Event::JsonBody(body)) => Step::Perform(
            Action::Route(
                Message::IntegrationCreate {
                    key,
                    integration_name: String::from_str("default"),
                    body,
                },
            ),
            CreateProjectIntegration::Creating,
        ),
        (CreateProjectIntegration::ReadingBody(_), Event::NoBody) => Step::Respond(
            Response::Status(BAD_REQUEST),
        ),
        (CreateProjectIntegration::ReadingBody(_), Event::Failed) => Step::Respond(
            Response::Status(BAD_REQUEST),
        ),
        (CreateProjectIntegration::Creating, Event::Done) => Step::Respond(
            Response::Status(NO_CONTENT),
        ),
        (CreateProjectIntegration::Creating, Event::Refused(error)) => match error.code {
            ErrCode::EntityConflict => Step::Respond(Response::Status(CONFLICT)),
            _ => Step::Respond(Response::Status(INTERNAL_SERVER_ERROR)),
        },
        _ => vstd::pervasive::unreached(),
    }
}

/// How far the display of an integration has come.
#[derive(Debug, PartialEq, Eq)]
pub enum GetProjectIntegration {
    Start,
    Validating,
    Fetching,
}

impl View for GetProjectIntegration {
    type V = GetProjectIntegration;

    open spec fn view(&self) -> GetProjectIntegration {
        *self
    }
}

/// The events that a state of an integration's display waits for.
pub open spec fn get_project_integration_awaits<D>(
    state: GetProjectIntegration,
    event: EventView<D>,
) -> bool {
    match state {
        GetProjectIntegration::Start => event is Begin,
        GetProjectIntegration::Validating => event is Params || event is BadParams,
        GetProjectIntegration::Fetching => event is Integration || event is Refused,
    }
}

/// The answer that shows the value of an integration's body, or complains that it has none.
pub open spec fn integration_shown<D>(value: Option<serde_json::Value>) -> ResponseView<D> {
    match value {
        Some(value) => ResponseView::JsonValue { status: OK, value },
        None => ResponseView::Text { status: UNPROCESSABLE_ENTITY, text: "api:gpi:1"@ },
    }
}

/// How the display of an integration goes on.
pub open spec fn get_project_integration_step<D>(
    state: GetProjectIntegration,
    event: EventView<D>,
) -> StepView<GetProjectIntegration, D> {
    match (state, event) {
        (GetProjectIntegration::Start, EventView::Begin) => StepView::Perform(
            ActionView::ValidateParams { names: key_names() },
            GetProjectIntegration::Validating,
        ),
        (GetProjectIntegration::Validating, EventView::Params(key)) => StepView::Perform(
            ActionView::Route(
                MessageView::IntegrationGet { key, integration_name: default_integration() },
            ),
            GetProjectIntegration::Fetching,
        ),
        (GetProjectIntegration::Validating, EventView::BadParams(status)) => StepView::Respond(
            ResponseView::Status(status),
        ),
        (GetProjectIntegration::Fetching, EventView::Integration(body)) => StepView::Respond(
            integration_shown(crate::json::parsed_value(body)),
        ),
        (GetProjectIntegration::Fetching, EventView::Refused(error)) => {
            if error.code == ErrCode::EntityNotFound {
                StepView::Respond(ResponseView::Status(NOT_FOUND))
            } else {
                StepView::Respond(
                    ResponseView::Text { status: INTERNAL_SERVER_ERROR, text: "api:gpi:2"@ },
                )
            }
        },
        _ => StepView::Stray,
    }
}

/// Shows the value of an integration's body, if it has one.
pub fn show_integration<D>(value: Option<serde_json::Value>) -> (response: Response<D>)
    ensures
        response@ == integration_shown::<D>(value),
{
    match value {
        Some(value) => Response::JsonValue { status: OK, value },
        None => Response::Text { status: UNPROCESSABLE_ENTITY, text: "api:gpi:1" },
    }
}

/// Shows an integration of a project.
pub fn get_project_integration<D>(state: GetProjectIntegration, event: Event<D>) -> (step: Step<
    GetProjectIntegration,
    D,
>)
    requires
        get_project_integration_awaits(state@, event@),
    ensures
        step@ == get_project_integration_step(state@, event@),
{
    match (state, event) {
        (GetProjectIntegration::Start, Event::Begin) => Step::Perform(
            Action::ValidateParams { names: key_params() },
            GetProjectIntegration::Validating,
        ),
        (GetProjectIntegration::Validating, Event::Params(key)) => Step::Perform(
            Action::Route(
                Message::IntegrationGet { key, integration_name: String::from_str("default") },
            ),
            GetProjectIntegration::Fetching,
        ),
        (GetProjectIntegration::Validating, Event::BadParams(status)) => Step::Respond(
            Response::Status(status),
        ),
        (GetProjectIntegration::Fetching, Event::Integration(body)) => {
            let value = match crate::json::parse_value(body.as_str()) {
                Ok(value) => Some(value),
                Err(_) => None,
            };
            Step::Respond(show_integration(value))
        },
        (GetProjectIntegration::Fetching, Event::Refused(error)) => match error.code {
            ErrCode::EntityNotFound => Step::Respond(Response::Status(NOT_FOUND)),
            _ => Step::Respond(
                Response::Text { status: INTERNAL_SERVER_ERROR, text: "api:gpi:2" },
            ),
        },
        _ => vstd::pervasive::unreached(),
    }
}

/// The creation of an integration, as a function.
pub open spec fn create_project_integration_steps<D>() -> spec_fn(
    CreateProjectIntegrationView,
    EventView<D>,
) -> StepView<CreateProjectIntegrationView, D> {
    |s: CreateProjectIntegrationView, e: EventView<D>| create_project_integration_step(s, e)
}

/// Where the creation of an integration stands after `events`.
pub open spec fn create_project_integration_after<D>(events: Seq<EventView<D>>) -> StepView<
    CreateProjectIntegrationView,
    D,
> {
    crate::run::after(
        create_project_integration_steps(),
        CreateProjectIntegrationView::Start,
        events,
    )
}

/// The creation of an integration waits for the events that it knows the way on from, and all that
/// can come of its actions is among them.
pub proof fn create_project_integration_manners<D>()
    ensures
        forall|s: CreateProjectIntegrationView, e: EventView<D>|
            #![trigger create_project_integration_step(s, e)]
            create_project_integration_steps::<D>()(s, e) == create_project_integration_step(s, e),
        forall|s: CreateProjectIntegrationView, e: EventView<D>|
            #[trigger] create_project_integration_awaits(s, e) == !(create_project_integration_step(
                s,
                e,
            ) is Stray),
        crate::run::prepared(create_project_integration_steps::<D>()),
{
}

spec fn create_history<D>(
    events: Seq<EventView<D>>,
    action: ActionView<D>,
    state: CreateProjectIntegrationView,
) -> bool {
    match state {
        CreateProjectIntegrationView::Start => false,
        CreateProjectIntegrationView::Validating => {
            &&& events.len() == 0
            &&& action == ActionView::<D>::ValidateParams { names: key_names() }
        },
        CreateProjectIntegrationView::ReadingBody(key) => {
            &&& events.len() == 1
            &&& events[0] == EventView::<D>::Params(key)
            &&& action == ActionView::<D>::ReadJsonBody
        },
        CreateProjectIntegrationView::Creating => {
            &&& events.len() == 2
            &&& events[0] is Params
            &&& events[1] is JsonBody
            &&& action == ActionView::<D>::Route(
                MessageView::IntegrationCreate {
                    key: events[0]->Params_0,
                    integration_name: default_integration(),
                    body: events[1]->JsonBody_0,
                },
            )
        },
    }
}

proof fn lemma_create_history<D>(events: Seq<EventView<D>>)
    ensures
        match create_project_integration_after(events) {
            StepView::Perform(action, state) => create_history(events, action, state),
            _ => true,
        },
    decreases events.len(),
{
    if events.len() > 0 {
        lemma_create_history(events.drop_last());
    }
}

/// An integration is stored only once its parameters have been found valid and the request's body
/// has been read; it is stored under these parameters, by the one name that integrations have, with
/// the body as it came. The answer then tells whether it was stored, was there before, or something
/// else went wrong.
pub proof fn create_project_integration_stored<D>(events: Seq<EventView<D>>)
    ensures
        create_project_integration_after(events) matches StepView::Perform(
            ActionView::Route(message),
            _,
        ) ==> {
            &&& events.len() == 2
            &&& events[0] is Params
            &&& events[1] is JsonBody
            &&& message == MessageView::<D>::IntegrationCreate {
                key: events[0]->Params_0,
                integration_name: default_integration(),
                body: events[1]->JsonBody_0,
            }
            &&& create_project_integration_after(events.push(EventView::Done)) == StepView::<
                CreateProjectIntegrationView,
                D,
            >::Respond(ResponseView::Status(NO_CONTENT))
            &&& forall|error: crate::types::NetErrorView|
                #[trigger] create_project_integration_after(
                    events.push(EventView::Refused(error)),
                ) == StepView::<CreateProjectIntegrationView, D>::Respond(
                    ResponseView::Status(
                        if error.code == ErrCode::EntityConflict {
                            CONFLICT
                        } else {
                            INTERNAL_SERVER_ERROR
                        },
                    ),
                )
        },
{
    lemma_create_history(events);
    assert(events.push(EventView::Done).drop_last() =~= events);
    assert forall|error: crate::types::NetErrorView|
        create_project_integration_after(events) matches StepView::Perform(ActionView::Route(_), _)
            ==> #[trigger] create_project_integration_after(
            events.push(EventView::Refused(error)),
        ) == StepView::<CreateProjectIntegrationView, D>::Respond(
            ResponseView::Status(
                if error.code == ErrCode::EntityConflict {
                    CONFLICT
                } else {
                    INTERNAL_SERVER_ERROR
                },
            ),
        ) by {
        assert(events.push(EventView::Refused(error)).drop_last() =~= events);
    }
}

/// The display of an integration, as a function.
pub open spec fn get_project_integration_steps<D>() -> spec_fn(
    GetProjectIntegration,
    EventView<D>,
) -> StepView<GetProjectIntegration, D> {
    |s: GetProjectIntegration, e: EventView<D>| get_project_integration_step(s, e)
}

/// Where the display of an integration stands after `events`.
pub open spec fn get_project_integration_after<D>(events: Seq<EventView<D>>) -> StepView<
    GetProjectIntegration,
    D,
> {
    crate::run::after(get_project_integration_steps(), GetProjectIntegration::Start, events)
}

/// The display of an integration waits for the events that it knows the way on from, and all that
/// can come of its actions is among them.
pub proof fn get_project_integration_manners<D>()
    ensures
        forall|s: GetProjectIntegration, e: EventView<D>|
            #![trigger get_project_integration_step(s, e)]
            get_project_integration_steps::<D>()(s, e) == get_project_integration_step(s, e),
        forall|s: GetProjectIntegration, e: EventView<D>|
            #[trigger] get_project_integration_awaits(s, e) == !(get_project_integration_step(
                s,
                e,
            ) is Stray),
        crate::run::prepared(get_project_integration_steps::<D>()),
{
}

/// Parameters that are turned down end the run, with the status that they are turned down with.
pub proof fn bad_params_are_answered<D>(status: u16)
    ensures
        create_project_integration_after(seq![EventView::<D>::BadParams(status)]) == StepView::<
            CreateProjectIntegrationView,
            D,
        >::Respond(ResponseView::Status(status)),
        get_project_integration_after(seq![EventView::<D>::BadParams(status)]) == StepView::<
            GetProjectIntegration,
            D,
        >::Respond(ResponseView::Status(status)),
{
    let events = seq![EventView::<D>::BadParams(status)];
    crate::run::one_step_on(
        create_project_integration_steps::<D>(),
        CreateProjectIntegrationView::Start,
        events,
        0,
    );
    crate::run::one_step_on(
        get_project_integration_steps::<D>(),
        GetProjectIntegration::Start,
        events,
        0,
    );
}

/// When an integration cannot be had, the answer tells whether there is none or something else went
/// wrong.
pub proof fn get_project_integration_missed<D>(
    key: IntegrationKeyView,
    error: crate::types::NetErrorView,
)
    ensures
        get_project_integration_after(
            seq![EventView::<D>::Params(key), EventView::<D>::Refused(error)],
        ) == StepView::<GetProjectIntegration, D>::Respond(
            if error.code == ErrCode::EntityNotFound {
                ResponseView::Status(NOT_FOUND)
            } else {
                ResponseView::Text { status: INTERNAL_SERVER_ERROR, text: "api:gpi:2"@ }
            },
        ),
{
    let events = seq![EventView::<D>::Params(key), EventView::<D>::Refused(error)];
    let steps = get_project_integration_steps::<D>();
    crate::run::one_step_on(steps, GetProjectIntegration::Start, events, 0);
    crate::run::one_step_on(steps, GetProjectIntegration::Start, events, 1);
}

/// The integration that is looked for is the one that its creation stores under the same
/// parameters, and what is shown of it is the value of its body.
pub proof fn get_project_integration_found<D>(key: IntegrationKeyView, body: Seq<char>)
    ensures
        ({
            let events = seq![EventView::<D>::Params(key), EventView::<D>::Integration(body)];
            &&& crate::run::asked(
                get_project_integration_steps(),
                GetProjectIntegration::Start,
                events,
                1,
                ActionView::Route(
                    MessageView::IntegrationGet { key, integration_name: default_integration() },
                ),
            )
            &&& get_project_integration_after(events) == StepView::<
                GetProjectIntegration,
                D,
            >::Respond(integration_shown(crate::json::parsed_value(body)))
        }),
{
    let events = seq![EventView::<D>::Params(key), EventView::<D>::Integration(body)];
    let steps = get_project_integration_steps::<D>();
    crate::run::one_step_on(steps, GetProjectIntegration::Start, events, 0);
    crate::run::one_step_on(steps, GetProjectIntegration::Start, events, 1);
}

/// What was created can be read back. Once the creation of an integration has asked for it to be
/// stored, whoever looks for it under the same parameters looks for what was stored, and is shown
/// the JSON value of the body that the creation was given.
pub proof fn created_integration_reads_back<D>(
    events: Seq<EventView<D>>,
    key: IntegrationKeyView,
    integration_name: Seq<char>,
    body: Seq<char>,
)
    requires
        crate::run::regular(
            create_project_integration_steps(),
            CreateProjectIntegrationView::Start,
            events,
        ),
        create_project_integration_after(events) is Perform,
        create_project_integration_after(events)->Perform_0 == ActionView::<D>::Route(
            MessageView::IntegrationCreate { key, integration_name, body },
        ),
    ensures
        ({
            let reading = seq![EventView::<D>::Params(key), EventView::<D>::Integration(body)];
            &&& crate::json::parsed_value(body) is Some
            &&& crate::run::asked(
                get_project_integration_steps(),
                GetProjectIntegration::Start,
                reading,
                1,
                ActionView::Route(MessageView::IntegrationGet { key, integration_name }),
            )
            &&& get_project_integration_after(reading) == StepView::<
                GetProjectIntegration,
                D,
            >::Respond(
                ResponseView::JsonValue {
                    status: OK,
                    value: crate::json::parsed_value(body)->Some_0,
                },
            )
        }),
{
    lemma_create_history(events);
    crate::run::asked_before(
        create_project_integration_steps::<D>(),
        CreateProjectIntegrationView::Start,
        events,
        1,
    );
    lemma_create_history(events.take(1));
    get_project_integration_found::<D>(key, body);
}

/// The creation of an integration is over after three events at the latest.
pub proof fn create_project_integration_ends<D>(events: Seq<EventView<D>>)
    ensures
        crate::run::after(
            create_project_integration_steps::<D>(),
            CreateProjectIntegrationView::Start,
            events,
        ) is Perform ==> events.len() < 3,
{
    let rank = |s: CreateProjectIntegrationView|
        match s {
            CreateProjectIntegrationView::Start => 3nat,
            CreateProjectIntegrationView::Validating => 2nat,
            CreateProjectIntegrationView::ReadingBody(_) => 1nat,
            CreateProjectIntegrationView::Creating => 0nat,
        };
    crate::run::every_step_counts(
        create_project_integration_steps::<D>(),
        rank,
        CreateProjectIntegrationView::Start,
        events,
    );
}

/// The display of an integration is over after two events at the latest.
pub proof fn get_project_integration_ends<D>(events: Seq<EventView<D>>)
    ensures
        crate::run::after(
            get_project_integration_steps::<D>(),
            GetProjectIntegration::Start,
            events,
        ) is Perform ==> events.len() < 2,
{
    let rank = |s: GetProjectIntegration|
        match s {
            GetProjectIntegration::Start => 2nat,
            GetProjectIntegration::Validating => 1nat,
            GetProjectIntegration::Fetching => 0nat,
        };
    crate::run::every_step_counts(
        get_project_integration_steps::<D>(),
        rank,
        GetProjectIntegration::Start,
        events,
    );
}

} // verus!
