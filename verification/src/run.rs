//! Whole runs of a handler: what it asks for, one action after the other, and how it ends.

use vstd::prelude::*;

use crate::types::{
    ActionView, EventView, MessageView, NetErrorView, ResponseView, StepView, FORBIDDEN, OK,
};

verus! {

/// `event` is something that can come of sending `message`.
pub open spec fn replies<D>(message: MessageView<D>, event: EventView<D>) -> bool {
    event is Refused || match message {
        MessageView::OriginGet { .. } => event is Origin,
        MessageView::ProjectGet { .. } => event is Project,
        MessageView::ProjectListGet { .. } => event is Names,
        MessageView::ProjectCreate(_) => event is Document,
        MessageView::ProjectUpdate { .. } => event is Done,
        MessageView::ProjectVisibilityUpdate { .. } => event is Done,
        MessageView::ProjectDelete { .. } => event is Done,
        MessageView::ProjectJobsGet { .. } => event is Jobs,
        MessageView::JobGet { .. } => event is Job,
        MessageView::JobLogGet { .. } => event is Document,
        MessageView::ReverseDependenciesGet { .. } => event is Document,
        MessageView::AccountInvitationList { .. } => event is Document,
        MessageView::AccountOriginList { .. } => event is Document,
        MessageView::IntegrationCreate { .. } => event is Done,
        MessageView::IntegrationGet { .. } => event is Integration,
    }
}

/// `event` is something that can come of `action`. A body that is read as JSON is a text that
/// parses.
pub open spec fn reports<D>(action: ActionView<D>, event: EventView<D>) -> bool {
    match action {
        ActionView::CheckOriginAccess { .. } => event is Access || event is Raised,
        ActionView::Route(message) => replies(message, event),
        ActionView::Authenticate { .. } => event is Token || event is NotAuthenticated,
        ActionView::CreateSession { .. } => event is Session || event is Raised,
        ActionView::Record(_) => event is Done,
        ActionView::PromoteJobGroup { .. } => event is Document || event is Refused,
        ActionView::TransitionVisibility { .. } => event is Visibility,
        ActionView::HandleGithubEvent => event is Document || event is Raised,
        ActionView::FetchListings { .. } => event is Listings,
        ActionView::StripAnsi(_) => event is Document,
        ActionView::ReadProjectBody => event is ProjectBody || event is Failed,
        ActionView::ReadJsonBody => match event {
            EventView::JsonBody(body) => crate::json::parsed_value(body) is Some,
            _ => event is NoBody || event is Failed,
        },
        ActionView::AppInstallationToken { .. } => event is Token || event is Failed,
        ActionView::FindRepo { .. } => event is Repo || event is Failed,
        ActionView::FetchContents { .. } => event is Contents || event is Failed,
        ActionView::DecodeContents(_) => event is Bytes || event is Failed,
        ActionView::ParsePlan(_) => event is Plan || event is Failed,
        ActionView::ValidateParams { .. } => event is Params || event is BadParams,
    }
}

/// Where a run stands that began in `start` and has received `events` since, one for each action
/// that it asked for. Once the request is answered, any further event is stray.
pub open spec fn after<S, D>(
    step: spec_fn(S, EventView<D>) -> StepView<S, D>,
    start: S,
    events: Seq<EventView<D>>,
) -> StepView<S, D>
    decreases events.len(),
{
    if events.len() == 0 {
        step(start, EventView::Begin)
    } else {
        match after(step, start, events.drop_last()) {
            StepView::Perform(_, state) => step(state, events.last()),
            _ => StepView::Stray,
        }
    }
}

/// The run asked for `action` before its event number `k` came.
pub open spec fn asked<S, D>(
    step: spec_fn(S, EventView<D>) -> StepView<S, D>,
    start: S,
    events: Seq<EventView<D>>,
    k: int,
    action: ActionView<D>,
) -> bool {
    after(step, start, events.take(k)) matches StepView::Perform(a, _) && a == action
}

/// Every event of the run can come of the action that the run had asked for.
pub open spec fn regular<S, D>(
    step: spec_fn(S, EventView<D>) -> StepView<S, D>,
    start: S,
    events: Seq<EventView<D>>,
) -> bool {
    forall|k: int|
        0 <= k < events.len() ==> match #[trigger] after(step, start, events.take(k)) {
            StepView::Perform(action, _) => reports(action, events[k]),
            _ => false,
        }
}

/// Whenever `step` asks for an action, it knows the way on from all that can come of it.
pub open spec fn prepared<S, D>(step: spec_fn(S, EventView<D>) -> StepView<S, D>) -> bool {
    forall|s: S, e: EventView<D>, reply: EventView<D>|
        #![trigger step(s, e), reports(step(s, e)->Perform_0, reply)]
        step(s, e) is Perform && reports(step(s, e)->Perform_0, reply) ==> !(step(
            step(s, e)->Perform_1,
            reply,
        ) is Stray)
}

/// Whenever `step` has the access to an origin checked and the access is not granted, it answers
/// that the request is forbidden.
pub open spec fn forbids<S, D>(step: spec_fn(S, EventView<D>) -> StepView<S, D>) -> bool {
    forall|s: S, e: EventView<D>|
        #![trigger step(s, e)]
        step(s, e) is Perform && step(s, e)->Perform_0 is CheckOriginAccess ==> step(
            step(s, e)->Perform_1,
            EventView::Access(false),
        ) == StepView::<S, D>::Respond(ResponseView::Status(FORBIDDEN))
}

/// Whenever `step` turns to a service, to send it a message or to have a job group promoted, and
/// the service reports an error, it answers with this error.
pub open spec fn passes_errors_on<S, D>(step: spec_fn(S, EventView<D>) -> StepView<S, D>) -> bool {
    forall|s: S, e: EventView<D>, error: NetErrorView|
        #![trigger step(step(s, e)->Perform_1, EventView::<D>::Refused(error))]
        step(s, e) is Perform && (step(s, e)->Perform_0 is Route || step(
            s,
            e,
        )->Perform_0 is PromoteJobGroup) ==> step(
            step(s, e)->Perform_1,
            EventView::Refused(error),
        ) == StepView::<S, D>::Respond(ResponseView::NetError(error))
}

/// Whenever an error comes up that the server reports by itself, in a check of the access to an
/// origin, in opening a session or in handling an event of GitHub's, `step` leaves the report to
/// the server.
pub open spec fn raises<S, D>(step: spec_fn(S, EventView<D>) -> StepView<S, D>) -> bool {
    forall|s: S, e: EventView<D>, error: D|
        #![trigger step(step(s, e)->Perform_1, EventView::<D>::Raised(error))]
        step(s, e) is Perform && (step(s, e)->Perform_0 is CheckOriginAccess || step(
            s,
            e,
        )->Perform_0 is CreateSession || step(s, e)->Perform_0 is HandleGithubEvent) ==> step(
            step(s, e)->Perform_1,
            EventView::Raised(error),
        ) == StepView::<S, D>::Raise(error)
}

/// A run that did not go astray had asked for an action before each of its events.
pub proof fn asked_before<S, D>(
    step: spec_fn(S, EventView<D>) -> StepView<S, D>,
    start: S,
    events: Seq<EventView<D>>,
    k: int,
)
    requires
        !(after(step, start, events) is Stray),
        0 <= k < events.len(),
    ensures
        after(step, start, events.take(k)) is Perform,
    decreases events.len(),
{
    let shorter = events.drop_last();
    if k == events.len() - 1 {
        assert(events.take(k) =~= shorter);
    } else {
        asked_before(step, start, shorter, k);
        assert(shorter.take(k) =~= events.take(k));
    }
}

/// One more event takes a run one step further.
pub proof fn one_step_on<S, D>(
    step: spec_fn(S, EventView<D>) -> StepView<S, D>,
    start: S,
    events: Seq<EventView<D>>,
    k: int,
)
    requires
        0 <= k < events.len(),
    ensures
        after(step, start, events.take(0)) == step(start, EventView::Begin),
        after(step, start, events.take(k + 1)) == (match after(step, start, events.take(k)) {
            StepView::Perform(_, state) => step(state, events[k]),
            _ => StepView::Stray,
        }),
        k + 1 == events.len() ==> events.take(k + 1) == events,
{
    assert(events.take(k + 1).drop_last() =~= events.take(k));
    if k + 1 == events.len() {
        assert(events.take(k + 1) =~= events);
    }
}

/// A handler that is prepared for all that can come of its actions never goes astray.
pub proof fn never_astray<S, D>(
    step: spec_fn(S, EventView<D>) -> StepView<S, D>,
    start: S,
    events: Seq<EventView<D>>,
)
    requires
        prepared(step),
        !(step(start, EventView::Begin) is Stray),
        regular(step, start, events),
    ensures
        !(after(step, start, events) is Stray),
    decreases events.len(),
{
    if events.len() > 0 {
        let shorter = events.drop_last();
        let k = events.len() - 1;
        assert(events.take(k) =~= shorter);
        assert(after(step, start, events.take(k)) is Perform);
        assert(reports(after(step, start, shorter)->Perform_0, events[k]));
        if shorter.len() > 0 {
            let before = shorter.drop_last();
            assert(after(step, start, before) is Perform);
            let state = after(step, start, before)->Perform_1;
            assert(after(step, start, shorter) == step(state, shorter.last()));
        } else {
            assert(after(step, start, shorter) == step(start, EventView::Begin));
        }
    }
}

/// What a run has asked for came from one of its steps.
proof fn lemma_last_step<S, D>(
    step: spec_fn(S, EventView<D>) -> StepView<S, D>,
    start: S,
    events: Seq<EventView<D>>,
) -> (last: (S, EventView<D>))
    requires
        !(after(step, start, events) is Stray),
    ensures
        after(step, start, events) == step(last.0, last.1),
{
    if events.len() == 0 {
        (start, EventView::Begin)
    } else {
        (after(step, start, events.drop_last())->Perform_1, events.last())
    }
}

/// In a run of a handler that forbids, a denied access ends the run: the answer is that the request
/// is forbidden, and nothing more is asked for.
pub proof fn denied_access_forbids<S, D>(
    step: spec_fn(S, EventView<D>) -> StepView<S, D>,
    start: S,
    events: Seq<EventView<D>>,
)
    requires
        forbids(step),
        after(step, start, events) is Perform,
        after(step, start, events)->Perform_0 is CheckOriginAccess,
    ensures
        after(step, start, events.push(EventView::Access(false))) == StepView::<S, D>::Respond(
            ResponseView::Status(FORBIDDEN),
        ),
{
    let last = lemma_last_step(step, start, events);
    let longer = events.push(EventView::Access(false));
    assert(longer.drop_last() =~= events);
    assert(step(last.0, last.1) is Perform);
}

/// In a run of a handler that passes errors on, a service's error ends the run and is the answer.
pub proof fn service_error_is_answer<S, D>(
    step: spec_fn(S, EventView<D>) -> StepView<S, D>,
    start: S,
    events: Seq<EventView<D>>,
    error: NetErrorView,
)
    requires
        passes_errors_on(step),
        after(step, start, events) is Perform,
        after(step, start, events)->Perform_0 is Route || after(
            step,
            start,
            events,
        )->Perform_0 is PromoteJobGroup,
    ensures
        after(step, start, events.push(EventView::Refused(error))) == StepView::<S, D>::Respond(
            ResponseView::NetError(error),
        ),
{
    let last = lemma_last_step(step, start, events);
    let longer = events.push(EventView::Refused(error));
    assert(longer.drop_last() =~= events);
    assert(step(last.0, last.1) is Perform);
}

/// A run gets past its first action only if the event that this action had for an answer is that
/// access is granted: otherwise it asks for nothing more, and answers nothing but that the request
/// is forbidden.
pub open spec fn only_with_access<S, D>(run: StepView<S, D>, events: Seq<EventView<D>>) -> bool {
    events.len() > 0 && events[0] != EventView::<D>::Access(true) ==> {
        &&& !(run is Perform)
        &&& run is Respond ==> run == StepView::<S, D>::Respond(ResponseView::Status(FORBIDDEN))
    }
}

/// A handler that begins with a check of the access to an origin, and stops unless access is
/// granted, never gets anywhere without it.
pub proof fn access_comes_first<S, D>(
    step: spec_fn(S, EventView<D>) -> StepView<S, D>,
    start: S,
    events: Seq<EventView<D>>,
)
    requires
        step(start, EventView::Begin) is Perform,
        forall|e: EventView<D>|
            #![trigger step(step(start, EventView::Begin)->Perform_1, e)]
            only_with_access(step(step(start, EventView::Begin)->Perform_1, e), seq![e]),
    ensures
        only_with_access(after(step, start, events), events),
    decreases events.len(),
{
    if events.len() > 0 {
        let shorter = events.drop_last();
        access_comes_first(step, start, shorter);
        if shorter.len() == 0 {
            assert(events =~= seq![events.last()]);
            assert(after(step, start, shorter) == step(start, EventView::Begin));
        } else {
            assert(shorter[0] == events[0]);
        }
    }
}

/// The run asks for `action` and for nothing else, and `answer` says how it ends when an event
/// comes of it.
pub open spec fn asks_only<S, D>(
    run: StepView<S, D>,
    events: Seq<EventView<D>>,
    action: ActionView<D>,
    answer: spec_fn(EventView<D>) -> StepView<S, D>,
) -> bool {
    if events.len() == 0 {
        run is Perform && run->Perform_0 == action
    } else if events.len() == 1 {
        run == answer(events[0])
    } else {
        run is Stray
    }
}

/// The request is answered with `status` at once, and the run asks for nothing.
pub open spec fn turned_down<S, D>(
    run: StepView<S, D>,
    events: Seq<EventView<D>>,
    status: u16,
) -> bool {
    if events.len() == 0 {
        run == StepView::<S, D>::Respond(ResponseView::Status(status))
    } else {
        run is Stray
    }
}

/// A service's reply is shown as it is, and so is its error.
pub open spec fn shows_reply<S, D>() -> spec_fn(EventView<D>) -> StepView<S, D> {
    |event: EventView<D>|
        match event {
            EventView::Document(document) => StepView::Respond(
                ResponseView::Json { status: OK, document },
            ),
            EventView::Refused(error) => StepView::Respond(ResponseView::NetError(error)),
            _ => StepView::Stray,
        }
}

/// How far a run gets that is over after its first action, or before it.
pub proof fn short_run<S, D>(
    step: spec_fn(S, EventView<D>) -> StepView<S, D>,
    start: S,
    events: Seq<EventView<D>>,
)
    ensures
        events.len() == 0 ==> after(step, start, events) == step(start, EventView::Begin),
        events.len() == 1 ==> after(step, start, events) == (match step(start, EventView::Begin) {
            StepView::Perform(_, state) => step(state, events[0]),
            _ => StepView::Stray,
        }),
        events.len() >= 2 && !(match step(start, EventView::Begin) {
            StepView::Perform(_, state) => step(state, events[0]),
            _ => StepView::Stray,
        } is Perform) ==> after(step, start, events) is Stray,
{
    if events.len() > 0 {
        one_step_on(step, start, events, 0);
        if events.len() >= 2 && !(after(step, start, events) is Stray) {
            asked_before(step, start, events, 1);
        }
    }
}

/// The run has come to ask for `action`.
pub open spec fn asks<S, D>(run: StepView<S, D>, action: ActionView<D>) -> bool {
    run is Perform && run->Perform_0 == action
}

/// The run has come to its end with `response`.
pub open spec fn answers<S, D>(run: StepView<S, D>, response: ResponseView<D>) -> bool {
    run is Respond && run->Respond_0 == response
}

/// The run has come to its end with an error that the server reports.
pub open spec fn leaves<S, D>(run: StepView<S, D>, error: D) -> bool {
    run is Raise && run->Raise_0 == error
}

/// Where a run stands, event by event.
pub proof fn event_by_event<S, D>(step: spec_fn(S, EventView<D>) -> StepView<S, D>, start: S)
    ensures
        after(step, start, Seq::empty()) == step(start, EventView::Begin),
        forall|events: Seq<EventView<D>>, e: EventView<D>|
            #[trigger] after(step, start, events.push(e)) == (match after(step, start, events) {
                StepView::Perform(_, state) => step(state, e),
                _ => StepView::Stray,
            }),
{
    assert forall|events: Seq<EventView<D>>, e: EventView<D>|
        #[trigger] after(step, start, events.push(e)) == (match after(step, start, events) {
            StepView::Perform(_, state) => step(state, e),
            _ => StepView::Stray,
        }) by {
        assert(events.push(e).drop_last() =~= events);
    }
}

/// A handler whose states come ever closer to the end, by a rank that each step lowers, is over
/// after as many events as its first state's rank.
pub proof fn every_step_counts<S, D>(
    step: spec_fn(S, EventView<D>) -> StepView<S, D>,
    rank: spec_fn(S) -> nat,
    start: S,
    events: Seq<EventView<D>>,
)
    requires
        forall|s: S, e: EventView<D>|
            #![trigger step(s, e)]
            step(s, e) is Perform ==> rank(step(s, e)->Perform_1) < rank(s),
    ensures
        after(step, start, events) is Perform ==> events.len() + rank(
            after(step, start, events)->Perform_1,
        ) < rank(start),
    decreases events.len(),
{
    if events.len() > 0 {
        every_step_counts(step, rank, start, events.drop_last());
    }
}

} // verus!
