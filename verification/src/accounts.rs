//! Accounts: signing in, and what belongs to an account.

use vstd::prelude::*;
use vstd::string::*;

use crate::types::{
    Action, ActionView, AuthFailure, AuthFailureView, ErrCode, Event, EventView, LogEntry,
    LogEntryView, Message, MessageView, NetError, NetErrorView, Response, ResponseView, Step,
    StepView, BAD_REQUEST, OK,
};

verus! {

/// How far signing in with GitHub has come.
#[derive(Debug, PartialEq, Eq)]
pub enum GithubAuthenticate<D> {
    /// With `functional_test` on, the code of the login serves as the user's token.
    Start { code: String, functional_test: bool },
    Authenticating,
    CreatingSession,
    Recording { document: D },
}

/// What a [`GithubAuthenticate`] holds.
pub enum GithubAuthenticateView<D> {
    Start { code: Seq<char>, functional_test: bool },
    Authenticating,
    CreatingSession,
    Recording { document: D },
}

impl<D> View for GithubAuthenticate<D> {
    type V = GithubAuthenticateView<D>;

    open spec fn view(&self) -> GithubAuthenticateView<D> {
        match self {
            GithubAuthenticate::Start { code, functional_test } => {
                GithubAuthenticateView::Start { code: code@, functional_test: *functional_test }
            },
            GithubAuthenticate::Authenticating => GithubAuthenticateView::Authenticating,
            GithubAuthenticate::CreatingSession => GithubAuthenticateView::CreatingSession,
            GithubAuthenticate::Recording { document } => GithubAuthenticateView::Recording {
                document: *document,
            },
        }
    }
}

/// The events that a state of signing in waits for.
pub open spec fn github_authenticate_awaits<D>(
    state: GithubAuthenticateView<D>,
    event: EventView<D>,
) -> bool {
    match state {
        GithubAuthenticateView::Start { .. } => event is Begin,
        GithubAuthenticateView::Authenticating => event is Token || event is NotAuthenticated,
        GithubAuthenticateView::CreatingSession => event is Session || event is Raised,
        GithubAuthenticateView::Recording { .. } => event is Done,
    }
}

/// The error that tells a user why GitHub did not let them in.
pub open spec fn auth_error(failure: AuthFailureView) -> NetErrorView {
    match failure {
        AuthFailureView::Denied(reason) => NetErrorView {
            code: ErrCode::AccessDenied,
            message: reason,
        },
        AuthFailureView::BadReply => NetErrorView {
            code: ErrCode::BadRemoteReply,
            message: "rg:auth:1"@,
        },
        AuthFailureView::Other => NetErrorView { code: ErrCode::Bug, message: "rg:auth:2"@ },
    }
}

/// How signing in goes on.
pub open spec fn github_authenticate_step<D>(
    state: GithubAuthenticateView<D>,
    event: EventView<D>,
) -> StepView<GithubAuthenticateView<D>, D> {
    match (state, event) {
        (GithubAuthenticateView::Start { code, functional_test }, EventView::Begin) => {
            if functional_test {
                StepView::Perform(
                    ActionView::CreateSession { token: code },
                    GithubAuthenticateView::CreatingSession,
                )
            } else {
                StepView::Perform(
                    ActionView::Authenticate { code },
                    GithubAuthenticateView::Authenticating,
                )
            }
        },
        (GithubAuthenticateView::Authenticating, EventView::Token(token)) => StepView::Perform(
            ActionView::CreateSession { token },
            GithubAuthenticateView::CreatingSession,
        ),
        (GithubAuthenticateView::Authenticating, EventView::NotAuthenticated(failure)) => {
            StepView::Respond(ResponseView::NetError(auth_error(failure)))
        },
        (GithubAuthenticateView::CreatingSession, EventView::Session(session)) => {
            StepView::Perform(
                ActionView::Record(
                    LogEntryView::GithubAuthenticate {
                        user: session.name,
                        account: crate::text::decimal(session.id as nat),
                    },
                ),
                GithubAuthenticateView::Recording { document: session.document },
            )
        },
        (GithubAuthenticateView::CreatingSession, EventView::Raised(error)) => StepView::Raise(
            error,
        ),
        (GithubAuthenticateView::Recording { document }, EventView::Done) => StepView::Respond(
            ResponseView::Json { status: OK, document },
        ),
        _ => StepView::Stray,
    }
}

/// Makes the error that tells a user why GitHub did not let them in.
pub fn authentication_error(failure: AuthFailure) -> (error: NetError)
    ensures
        error@ == auth_error(failure@),
{
    match failure {
        AuthFailure::Denied(reason) => NetError { code: ErrCode::AccessDenied, message: reason },
        AuthFailure::BadReply => NetError {
            code: ErrCode::BadRemoteReply,
            message: String::from_str("rg:auth:1"),
        },
        AuthFailure::Other => NetError {
            code: ErrCode::Bug,
            message: String::from_str("rg:auth:2"),
        },
    }
}

/// Signs a user in with GitHub and answers with the session that was opened.
pub fn github_authenticate<D>(state: GithubAuthenticate<D>, event: Event<D>) -> (step: Step<
    GithubAuthenticate<D>,
    D,
>)
    requires
        github_authenticate_awaits(state@, event@),
    ensures
        step@ == github_authenticate_step(state@, event@),
{
    match (state, event) {
        (GithubAuthenticate::Start { code, functional_test }, Event::Begin) => {
            if functional_test {
                Step::Perform(
                    Action::CreateSession { token: code },
                    GithubAuthenticate::CreatingSession,
                )
            } else {
                Step::Perform(
                    Action::Authenticate { code },
                    GithubAuthenticate::Authenticating,
                )
            }
        },
        (GithubAuthenticate::Authenticating, Event::Token(token)) => Step::Perform(
            Action::CreateSession { token },
            GithubAuthenticate::CreatingSession,
        ),
        (GithubAuthenticate::Authenticating, Event::NotAuthenticated(failure)) => Step::Respond(
            Response::NetError(authentication_error(failure)),
        ),
        (GithubAuthenticate::CreatingSession, Event::Session(session)) => {
            let entry = LogEntry::GithubAuthenticate {
                user: session.name,
                account: crate::text::decimal_text(session.id),
            };
            Step::Perform(
                Action::Record(entry),
                GithubAuthenticate::Recording { document: session.document },
            )
        },
        (GithubAuthenticate::CreatingSession, Event::Raised(error)) => Step::Raise(error),
        (GithubAuthenticate::Recording { document }, Event::Done) => Step::Respond(
            Response::Json { status: OK, document },
        ),
        _ => vstd::pervasive::unreached(),
    }
}

/// How far a list of what belongs to an account has come.
#[derive(Debug, PartialEq, Eq)]
pub enum AccountList {
    Start { account: u64 },
    Fetching,
}

impl View for AccountList {
    type V = AccountList;

    open spec fn view(&self) -> AccountList {
        *self
    }
}

/// The events that a state of an account's list waits for.
pub open spec fn account_list_awaits<D>(state: AccountList, event: EventView<D>) -> bool {
    match state {
        AccountList::Start { .. } => event is Begin,
        AccountList::Fetching => event is Document || event is Refused,
    }
}

/// How the list of an account's invitations goes on.
pub open spec fn list_account_invitations_step<D>(
    state: AccountList,
    event: EventView<D>,
) -> StepView<AccountList, D> {
    match (state, event) {
        (AccountList::Start { account }, EventView::Begin) => StepView::Perform(
            ActionView::Route(MessageView::AccountInvitationList { account }),
            AccountList::Fetching,
        ),
        (AccountList::Fetching, EventView::Document(document)) => StepView::Respond(
            ResponseView::Json { status: OK, document },
        ),
        (AccountList::Fetching, EventView::Refused(error)) => StepView::Respond(
            ResponseView::NetError(error),
        ),
        _ => StepView::Stray,
    }
}

/// Lists the invitations that an account has received.
pub fn list_account_invitations<D>(state: AccountList, event: Event<D>) -> (step: Step<
    AccountList,
    D,
>)
    requires
        account_list_awaits(state@, event@),
    ensures
        step@ == list_account_invitations_step(state@, event@),
{
    match (state, event) {
        (AccountList::Start { account }, Event::Begin) => Step::Perform(
            Action::Route(Message::AccountInvitationList { account }),
            AccountList::Fetching,
        ),
        (AccountList::Fetching, Event::Document(document)) => Step::Respond(
            Response::Json { status: OK, document },
        ),
        (AccountList::Fetching, Event::Refused(error)) => Step::Respond(Response::NetError(error)),
        _ => vstd::pervasive::unreached(),
    }
}

/// How the list of an account's origins goes on.
pub open spec fn list_user_origins_step<D>(state: AccountList, event: EventView<D>) -> StepView<
    AccountList,
    D,
> {
    match (state, event) {
        (AccountList::Start { account }, EventView::Begin) => StepView::Perform(
            ActionView::Route(MessageView::AccountOriginList { account }),
            AccountList::Fetching,
        ),
        (AccountList::Fetching, EventView::Document(document)) => StepView::Respond(
            ResponseView::Json { status: OK, document },
        ),
        (AccountList::Fetching, EventView::Refused(error)) => StepView::Respond(
            ResponseView::NetError(error),
        ),
        _ => StepView::Stray,
    }
}

/// Lists the origins that an account belongs to.
pub fn list_user_origins<D>(state: AccountList, event: Event<D>) -> (step: Step<AccountList, D>)
    requires
        account_list_awaits(state@, event@),
    ensures
        step@ == list_user_origins_step(state@, event@),
{
    match (state, event) {
        (AccountList::Start { account }, Event::Begin) => Step::Perform(
            Action::Route(Message::AccountOriginList { account }),
            AccountList::Fetching,
        ),
        (AccountList::Fetching, Event::Document(document)) => Step::Respond(
            Response::Json { status: OK, document },
        ),
        (AccountList::Fetching, Event::Refused(error)) => Step::Respond(Response::NetError(error)),
        _ => vstd::pervasive::unreached(),
    }
}

/// How far the treatment of a notice has come.
#[derive(Debug, PartialEq, Eq)]
pub enum Notify {
    /// The request says, or does not say, that it reports an event of GitHub's.
    Start { github_event: bool },
    Handling,
}

impl View for Notify {
    type V = Notify;

    open spec fn view(&self) -> Notify {
        *self
    }
}

/// The events that a state of a notice waits for.
pub open spec fn notify_awaits<D>(state: Notify, event: EventView<D>) -> bool {
    match state {
        Notify::Start { .. } => event is Begin,
        Notify::Handling => event is Document || event is Raised,
    }
}

/// How the treatment of a notice goes on.
pub open spec fn notify_step<D>(state: Notify, event: EventView<D>) -> StepView<Notify, D> {
    match (state, event) {
        (Notify::Start { github_event }, EventView::Begin) => {
            if github_event {
                StepView::Perform(ActionView::HandleGithubEvent, Notify::Handling)
            } else {
                StepView::Respond(ResponseView::Status(BAD_REQUEST))
            }
        },
        (Notify::Handling, EventView::Document(response)) => StepView::Respond(
            ResponseView::Prepared(response),
        ),
        (Notify::Handling, EventView::Raised(error)) => StepView::Raise(error),
        _ => StepView::Stray,
    }
}

/// Takes a notice. Only those from GitHub are understood.
pub fn notify<D>(state: Notify, event: Event<D>) -> (step: Step<Notify, D>)
    requires
        notify_awaits(state@, event@),
    ensures
        step@ == notify_step(state@, event@),
{
    match (state, event) {
        (Notify::Start { github_event }, Event::Begin) => {
            if github_event {
                Step::Perform(Action::HandleGithubEvent, Notify::Handling)
            } else {
                Step::Respond(Response::Status(BAD_REQUEST))
            }
        },
        (Notify::Handling, Event::Document(response)) => Step::Respond(
            Response::Prepared(response),
        ),
        (Notify::Handling, Event::Raised(error)) => Step::Raise(error),
        _ => vstd::pervasive::unreached(),
    }
}

/// Endpoint for determining availability of the builder's components.
///
/// Answers with status 200 on success. Any other answer is an outage or a partial outage.
pub fn status<D>() -> (response: Response<D>)
    ensures
        response@ == ResponseView::<D>::Status(OK),
{
    Response::Status(OK)
}

/// Signing in, as a function.
pub open spec fn github_authenticate_steps<D>() -> spec_fn(
    GithubAuthenticateView<D>,
    EventView<D>,
) -> StepView<GithubAuthenticateView<D>, D> {
    |s: GithubAuthenticateView<D>, e: EventView<D>| github_authenticate_step(s, e)
}

/// Where signing in with `code` stands after `events`.
pub open spec fn github_authenticate_after<D>(
    code: Seq<char>,
    functional_test: bool,
    events: Seq<EventView<D>>,
) -> StepView<GithubAuthenticateView<D>, D> {
    crate::run::after(
        github_authenticate_steps(),
        GithubAuthenticateView::Start { code, functional_test },
        events,
    )
}

/// Signing in waits for the events that it knows the way on from, and all that can come of its
/// actions is among them. It leaves to the server what the server reports by itself.
pub proof fn github_authenticate_manners<D>()
    ensures
        forall|s: GithubAuthenticateView<D>, e: EventView<D>|
            #![trigger github_authenticate_step(s, e)]
            github_authenticate_steps::<D>()(s, e) == github_authenticate_step(s, e),
        forall|s: GithubAuthenticateView<D>, e: EventView<D>|
            #[trigger] github_authenticate_awaits(s, e) == !(github_authenticate_step(
                s,
                e,
            ) is Stray),
        crate::run::prepared(github_authenticate_steps::<D>()),
        crate::run::raises(github_authenticate_steps::<D>()),
{
}

spec fn sign_in_history<D>(
    code: Seq<char>,
    functional_test: bool,
    events: Seq<EventView<D>>,
    action: ActionView<D>,
    state: GithubAuthenticateView<D>,
) -> bool {
    match state {
        GithubAuthenticateView::Start { .. } => false,
        GithubAuthenticateView::Authenticating => {
            &&& events.len() == 0
            &&& !functional_test
            &&& action == ActionView::<D>::Authenticate { code }
        },
        GithubAuthenticateView::CreatingSession => {
            &&& events.len() == session_turn(functional_test)
            &&& !functional_test ==> events[0] is Token
            &&& action == ActionView::<D>::CreateSession {
                token: user_token(code, functional_test, events),
            }
        },
        GithubAuthenticateView::Recording { document } => {
            &&& session_opened(functional_test, events)
            &&& events.len() == session_turn(functional_test) + 1
            &&& events.last()->Session_0.document == document
            &&& action == ActionView::<D>::Record(
                LogEntryView::GithubAuthenticate {
                    user: events.last()->Session_0.name,
                    account: crate::text::decimal(events.last()->Session_0.id as nat),
                },
            )
        },
    }
}

/// The number of events after which the session is opened.
pub open spec fn session_turn(functional_test: bool) -> int {
    if functional_test {
        0
    } else {
        1
    }
}

/// The token that a session is opened with: the one that GitHub gave for the code, or in a
/// functional test the code itself.
pub open spec fn user_token<D>(
    code: Seq<char>,
    functional_test: bool,
    events: Seq<EventView<D>>,
) -> Seq<char> {
    if functional_test {
        code
    } else {
        events[0]->Token_0
    }
}

/// GitHub has given a token, unless in a functional test, and a session has been opened.
pub open spec fn session_opened<D>(functional_test: bool, events: Seq<EventView<D>>) -> bool {
    &&& events.len() > session_turn(functional_test)
    &&& !functional_test ==> events[0] is Token
    &&& events[session_turn(functional_test)] is Session
}

proof fn lemma_sign_in_history<D>(
    code: Seq<char>,
    functional_test: bool,
    events: Seq<EventView<D>>,
)
    ensures
        match github_authenticate_after(code, functional_test, events) {
            StepView::Perform(action, state) => sign_in_history(
                code,
                functional_test,
                events,
                action,
                state,
            ),
            StepView::Respond(ResponseView::Json { status, document }) => {
                let turn = session_turn(functional_test);
                &&& status == OK
                &&& session_opened(functional_test, events)
                &&& events.len() == turn + 2
                &&& events[turn]->Session_0.document == document
                &&& events[turn + 1] is Done
            },
            _ => true,
        },
    decreases events.len(),
{
    if events.len() > 0 {
        lemma_sign_in_history(code, functional_test, events.drop_last());
    }
}

/// A session is shown if and only if it was opened and recorded. It was then opened with the token
/// that GitHub gave for the code, or in a functional test with the code itself, and recorded with
/// the name and the number of its account.
pub proof fn github_authenticate_signed_in<D>(
    code: Seq<char>,
    functional_test: bool,
    events: Seq<EventView<D>>,
    document: D,
)
    ensures
        ({
            let shown = github_authenticate_after(code, functional_test, events) == StepView::<
                GithubAuthenticateView<D>,
                D,
            >::Respond(ResponseView::Json { status: OK, document });
            let start = GithubAuthenticateView::<D>::Start { code, functional_test };
            let turn = session_turn(functional_test);
            &&& shown <==> {
                &&& session_opened(functional_test, events)
                &&& events.len() == turn + 2
                &&& events[turn]->Session_0.document == document
                &&& events[turn + 1] is Done
            }
            &&& shown && !functional_test ==> crate::run::asked(
                github_authenticate_steps(),
                start,
                events,
                0,
                ActionView::Authenticate { code },
            )
            &&& shown ==> crate::run::asked(
                github_authenticate_steps(),
                start,
                events,
                turn,
                ActionView::CreateSession { token: user_token(code, functional_test, events) },
            )
            &&& shown ==> crate::run::asked(
                github_authenticate_steps(),
                start,
                events,
                turn + 1,
                ActionView::Record(
                    LogEntryView::GithubAuthenticate {
                        user: events[turn]->Session_0.name,
                        account: crate::text::decimal(events[turn]->Session_0.id as nat),
                    },
                ),
            )
        }),
{
    let steps = github_authenticate_steps::<D>();
    let start = GithubAuthenticateView::<D>::Start { code, functional_test };
    let turn = session_turn(functional_test);
    lemma_sign_in_history(code, functional_test, events);
    if events.len() == turn + 2 {
        crate::run::one_step_on(steps, start, events, 0);
        crate::run::one_step_on(steps, start, events, 1);
        if !functional_test {
            crate::run::one_step_on(steps, start, events, 2);
        }
    }
}

/// The list of an account's invitations, as a function.
pub open spec fn list_account_invitations_steps<D>() -> spec_fn(
    AccountList,
    EventView<D>,
) -> StepView<AccountList, D> {
    |s: AccountList, e: EventView<D>| list_account_invitations_step(s, e)
}

/// The list of an account's invitations waits for the events that it knows the way on from, and all
/// that can come of its actions is among them. It passes the errors of services on.
pub proof fn list_account_invitations_manners<D>()
    ensures
        forall|s: AccountList, e: EventView<D>|
            #![trigger list_account_invitations_step(s, e)]
            list_account_invitations_steps::<D>()(s, e) == list_account_invitations_step(s, e),
        forall|s: AccountList, e: EventView<D>|
            #[trigger] account_list_awaits(s, e) == !(list_account_invitations_step(s, e) is Stray),
        crate::run::prepared(list_account_invitations_steps::<D>()),
        crate::run::passes_errors_on(list_account_invitations_steps::<D>()),
{
}

/// The list of an account's origins, as a function.
pub open spec fn list_user_origins_steps<D>() -> spec_fn(
    AccountList,
    EventView<D>,
) -> StepView<AccountList, D> {
    |s: AccountList, e: EventView<D>| list_user_origins_step(s, e)
}

/// The list of an account's origins waits for the events that it knows the way on from, and all
/// that can come of its actions is among them. It passes the errors of services on.
pub proof fn list_user_origins_manners<D>()
    ensures
        forall|s: AccountList, e: EventView<D>|
            #![trigger list_user_origins_step(s, e)]
            list_user_origins_steps::<D>()(s, e) == list_user_origins_step(s, e),
        forall|s: AccountList, e: EventView<D>|
            #[trigger] account_list_awaits(s, e) == !(list_user_origins_step(s, e) is Stray),
        crate::run::prepared(list_user_origins_steps::<D>()),
        crate::run::passes_errors_on(list_user_origins_steps::<D>()),
{
}

/// The treatment of a notice, as a function.
pub open spec fn notify_steps<D>() -> spec_fn(
    Notify,
    EventView<D>,
) -> StepView<Notify, D> {
    |s: Notify, e: EventView<D>| notify_step(s, e)
}

/// The treatment of a notice waits for the events that it knows the way on from, and all that can
/// come of its actions is among them. It leaves to the server what the server reports by itself.
pub proof fn notify_manners<D>()
    ensures
        forall|s: Notify, e: EventView<D>|
            #![trigger notify_step(s, e)]
            notify_steps::<D>()(s, e) == notify_step(s, e),
        forall|s: Notify, e: EventView<D>|
            #[trigger] notify_awaits(s, e) == !(notify_step(s, e) is Stray),
        crate::run::prepared(notify_steps::<D>()),
        crate::run::raises(notify_steps::<D>()),
{
}

/// Signing in is over after three events at the latest.
pub proof fn github_authenticate_ends<D>(
    code: Seq<char>,
    functional_test: bool,
    events: Seq<EventView<D>>,
)
    ensures
        crate::run::after(
            github_authenticate_steps::<D>(),
            GithubAuthenticateView::Start { code, functional_test },
            events,
        ) is Perform ==> events.len() < 3,
{
    let rank = |s: GithubAuthenticateView<D>|
        match s {
            GithubAuthenticateView::Start { .. } => 3nat,
            GithubAuthenticateView::Authenticating => 2nat,
            GithubAuthenticateView::CreatingSession => 1nat,
            GithubAuthenticateView::Recording { .. } => 0nat,
        };
    crate::run::every_step_counts(
        github_authenticate_steps::<D>(),
        rank,
        GithubAuthenticateView::Start { code, functional_test },
        events,
    );
}

/// The invitations listed are the account's own: they are asked for with its number, nothing else
/// is asked for, and the reply is the answer.
pub proof fn list_account_invitations_shown<D>(account: u64, events: Seq<EventView<D>>)
    ensures
        crate::run::asks_only(
            crate::run::after(
                list_account_invitations_steps::<D>(),
                AccountList::Start { account },
                events,
            ),
            events,
            ActionView::Route(MessageView::AccountInvitationList { account }),
            crate::run::shows_reply(),
        ),
{
    crate::run::short_run(
        list_account_invitations_steps::<D>(),
        AccountList::Start { account },
        events,
    );
}

/// The list of an account's invitations is over after one event at the latest.
pub proof fn list_account_invitations_ends<D>(account: u64, events: Seq<EventView<D>>)
    ensures
        crate::run::after(
            list_account_invitations_steps::<D>(),
            AccountList::Start { account },
            events,
        ) is Perform ==> events.len() < 1,
{
    let rank = |s: AccountList|
        match s {
            AccountList::Start { .. } => 1nat,
            AccountList::Fetching => 0nat,
        };
    crate::run::every_step_counts(
        list_account_invitations_steps::<D>(),
        rank,
        AccountList::Start { account },
        events,
    );
}

/// The origins listed are the account's own: they are asked for with its number, nothing else is
/// asked for, and the reply is the answer.
pub proof fn list_user_origins_shown<D>(account: u64, events: Seq<EventView<D>>)
    ensures
        crate::run::asks_only(
            crate::run::after(
                list_user_origins_steps::<D>(),
                AccountList::Start { account },
                events,
            ),
            events,
            ActionView::Route(MessageView::AccountOriginList { account }),
            crate::run::shows_reply(),
        ),
{
    crate::run::short_run(
        list_user_origins_steps::<D>(),
        AccountList::Start { account },
        events,
    );
}

/// The list of an account's origins is over after one event at the latest.
pub proof fn list_user_origins_ends<D>(account: u64, events: Seq<EventView<D>>)
    ensures
        crate::run::after(
            list_user_origins_steps::<D>(),
            AccountList::Start { account },
            events,
        ) is Perform ==> events.len() < 1,
{
    let rank = |s: AccountList|
        match s {
            AccountList::Start { .. } => 1nat,
            AccountList::Fetching => 0nat,
        };
    crate::run::every_step_counts(
        list_user_origins_steps::<D>(),
        rank,
        AccountList::Start { account },
        events,
    );
}

/// A notice is handled if and only if it reports an event of GitHub's, and what comes of it is the
/// answer, or the error that the server reports. Any other notice is turned down at once.
pub proof fn notify_handled<D>(github_event: bool, events: Seq<EventView<D>>)
    ensures
        ({
            let run = crate::run::after(
                notify_steps::<D>(),
                Notify::Start { github_event },
                events,
            );
            if github_event {
                crate::run::asks_only(
                    run,
                    events,
                    ActionView::HandleGithubEvent,
                    |event: EventView<D>|
                        match event {
                            EventView::Document(response) => StepView::Respond(
                                ResponseView::Prepared(response),
                            ),
                            EventView::Raised(error) => StepView::Raise(error),
                            _ => StepView::Stray,
                        },
                )
            } else {
                crate::run::turned_down(run, events, BAD_REQUEST)
            }
        }),
{
    crate::run::short_run(notify_steps::<D>(), Notify::Start { github_event }, events);
}

/// The treatment of a notice is over after one event at the latest.
pub proof fn notify_ends<D>(github_event: bool, events: Seq<EventView<D>>)
    ensures
        crate::run::after(
            notify_steps::<D>(),
            Notify::Start { github_event },
            events,
        ) is Perform ==> events.len() < 1,
{
    let rank = |s: Notify|
        match s {
            Notify::Start { .. } => 1nat,
            Notify::Handling => 0nat,
        };
    crate::run::every_step_counts(
        notify_steps::<D>(),
        rank,
        Notify::Start { github_event },
        events,
    );
}

} // verus!
