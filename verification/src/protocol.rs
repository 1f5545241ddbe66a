//! What holds of a request over its whole life.
//!
//! A request's life is the sequence of reports that reach its unit. Each
//! report makes the unit emit commands to the host. The laws below speak of
//! every such sequence, in whatever order the reports come.

use crate::headers::{header_mapping, law_lookup_is_the_mapping, Header};
use crate::request::{
    added_header, authorization_call, deny_response, effect_of_dispatch, effect_of_fail,
    effect_of_reply, is_terminal, reply_verdict, response_headers, state_after_dispatch,
    state_after_fail, state_after_reply, status_header, success_status, AuthError,
    DenyResponseView, DispatchOutcome, DispatchRequestView, EffectView, RequestAuthState,
    RequestAuthView,
};
use vstd::prelude::*;

verus! {

/// A report that reaches a unit.
pub enum Event {
    /// Request headers arrived, and the authorization call had this outcome.
    RequestHeaders(DispatchOutcome),
    /// The backend's reply arrived.
    CallResponse { num_headers: nat, headers: Seq<Header> },
    /// Response headers arrived.
    ResponseHeaders,
    /// The deny path was taken directly.
    Fail(AuthError),
}

/// Something that the host carries out for a unit.
pub enum Command {
    /// Send the authorization call.
    Dispatch(DispatchRequestView),
    /// Answer the request with the rejection.
    Deny(DenyResponseView),
    /// Release the request.
    Resume,
}

/// The kinds of command.
pub enum CommandKind {
    Dispatch,
    Deny,
    Resume,
}

/// The kind of a command.
pub open spec fn kind_of(command: Command) -> CommandKind {
    match command {
        Command::Dispatch(_) => CommandKind::Dispatch,
        Command::Deny(_) => CommandKind::Deny,
        Command::Resume => CommandKind::Resume,
    }
}

/// How many commands of one kind a sequence holds.
pub open spec fn count(commands: Seq<Command>, kind: CommandKind) -> nat
    decreases commands.len(),
{
    if commands.len() == 0 {
        0
    } else {
        count(commands.drop_last(), kind) + if kind_of(commands.last()) == kind {
            1nat
        } else {
            0nat
        }
    }
}

/// The state that a report leaves a unit in.
pub open spec fn next_state(state: RequestAuthState, event: Event) -> RequestAuthState {
    match event {
        Event::RequestHeaders(outcome) => state_after_dispatch(state, outcome),
        Event::CallResponse { num_headers, headers } => state_after_reply(
            state,
            num_headers,
            headers,
        ),
        Event::ResponseHeaders => state,
        Event::Fail(_) => state_after_fail(state),
    }
}

/// The command that carries out an effect, if it asks for one.
pub open spec fn effect_commands(effect: EffectView) -> Seq<Command> {
    match effect {
        EffectView::Nothing => Seq::empty(),
        EffectView::Deny { response, reason } => seq![Command::Deny(response)],
        EffectView::Resume => seq![Command::Resume],
    }
}

/// The commands that a report makes a unit emit, in order. The
/// authorization call is sent when request headers reach a unit that awaits
/// its dispatch, and comes before what its outcome leads to.
pub open spec fn emitted(unit: RequestAuthView, event: Event) -> Seq<Command> {
    match event {
        Event::RequestHeaders(outcome) => {
            if unit.state is AwaitingDispatch {
                seq![Command::Dispatch(authorization_call(unit.config.auth_cluster))]
                    + effect_commands(effect_of_dispatch(unit.state, outcome))
            } else {
                Seq::empty()
            }
        },
        Event::CallResponse { num_headers, headers } => effect_commands(
            effect_of_reply(unit.state, num_headers, headers),
        ),
        Event::ResponseHeaders => Seq::empty(),
        Event::Fail(reason) => effect_commands(effect_of_fail(unit.state, reason)),
    }
}

/// The state of a unit that started in `state` and received `events`.
pub open spec fn state_after(state: RequestAuthState, events: Seq<Event>) -> RequestAuthState
    decreases events.len(),
{
    if events.len() == 0 {
        state
    } else {
        next_state(state_after(state, events.drop_last()), events.last())
    }
}

/// All commands that a unit emitted while it received `events`, in order.
pub open spec fn trace(unit: RequestAuthView, events: Seq<Event>) -> Seq<Command>
    decreases events.len(),
{
    if events.len() == 0 {
        Seq::empty()
    } else {
        trace(unit, events.drop_last()) + emitted(
            RequestAuthView {
                config: unit.config,
                state: state_after(unit.state, events.drop_last()),
            },
            events.last(),
        )
    }
}

/// A unit as it is created: it awaits its dispatch.
pub open spec fn fresh(unit: RequestAuthView) -> bool {
    unit.state is AwaitingDispatch
}

/// Whether a report confirms a pending request.
pub open spec fn confirms(event: Event) -> bool {
    event matches Event::CallResponse { num_headers, headers } && reply_verdict(
        num_headers,
        headers,
    ) is Ok
}

/// Counting goes through concatenation.
pub proof fn lemma_count_concat(a: Seq<Command>, b: Seq<Command>, kind: CommandKind)
    ensures
        count(a + b, kind) == count(a, kind) + count(b, kind),
    decreases b.len(),
{
    if b.len() == 0 {
        assert(a + b =~= a);
    } else {
        assert((a + b).drop_last() =~= a + b.drop_last());
        assert((a + b).last() == b.last());
        lemma_count_concat(a, b.drop_last(), kind);
    }
}

/// A single command counts once for its own kind and not for another.
pub proof fn lemma_count_single(command: Command, kind: CommandKind)
    ensures
        count(seq![command], kind) == if kind_of(command) == kind {
            1nat
        } else {
            0nat
        },
{
    let one = seq![command];
    assert(one.drop_last() =~= Seq::<Command>::empty());
    assert(one.last() == command);
    assert(count(one.drop_last(), kind) == 0);
}

/// What one report adds to each count: a dispatch exactly when request
/// headers reach a unit that awaits its dispatch; a rejection exactly when
/// the report moves the unit to `Denied`; a release exactly when it moves the
/// unit to `Allowed`.
pub proof fn lemma_count_emitted(unit: RequestAuthView, event: Event)
    ensures
        count(emitted(unit, event), CommandKind::Dispatch) == if unit.state is AwaitingDispatch
            && event is RequestHeaders {
            1nat
        } else {
            0nat
        },
        count(emitted(unit, event), CommandKind::Deny) == if !(unit.state is Denied) && next_state(
            unit.state,
            event,
        ) is Denied {
            1nat
        } else {
            0nat
        },
        count(emitted(unit, event), CommandKind::Resume) == if !(unit.state is Allowed)
            && next_state(unit.state, event) is Allowed {
            1nat
        } else {
            0nat
        },
{
    let dispatch = Command::Dispatch(authorization_call(unit.config.auth_cluster));
    let deny = Command::Deny(deny_response());
    lemma_count_single(dispatch, CommandKind::Dispatch);
    lemma_count_single(dispatch, CommandKind::Deny);
    lemma_count_single(dispatch, CommandKind::Resume);
    lemma_count_single(deny, CommandKind::Dispatch);
    lemma_count_single(deny, CommandKind::Deny);
    lemma_count_single(deny, CommandKind::Resume);
    lemma_count_single(Command::Resume, CommandKind::Dispatch);
    lemma_count_single(Command::Resume, CommandKind::Deny);
    lemma_count_single(Command::Resume, CommandKind::Resume);
    match event {
        Event::RequestHeaders(outcome) => {
            if unit.state is AwaitingDispatch {
                let rest = effect_commands(effect_of_dispatch(unit.state, outcome));
                lemma_count_concat(seq![dispatch], rest, CommandKind::Dispatch);
                lemma_count_concat(seq![dispatch], rest, CommandKind::Deny);
                lemma_count_concat(seq![dispatch], rest, CommandKind::Resume);
            }
        },
        _ => {},
    }
}

/// Whether a command is the one fixed command of its kind for a unit with
/// the given cluster: a call goes to that cluster with the fixed headers,
/// and a rejection is the one fixed response, whatever its reason.
pub open spec fn is_fixed_command(command: Command, cluster: Seq<char>) -> bool {
    match command {
        Command::Dispatch(call) => call == authorization_call(cluster),
        Command::Deny(response) => response == deny_response(),
        Command::Resume => true,
    }
}

/// Whatever reaches a unit, every call that it sends goes to its own
/// configured cluster, and every rejection is the same response: a caller
/// cannot tell from it why the request was rejected.
pub proof fn law_commands_are_fixed(unit: RequestAuthView, events: Seq<Event>, at: int)
    requires
        0 <= at < trace(unit, events).len(),
    ensures
        is_fixed_command(trace(unit, events)[at], unit.config.auth_cluster),
    decreases events.len(),
{
    if events.len() > 0 {
        let before = trace(unit, events.drop_last());
        if at < before.len() {
            law_commands_are_fixed(unit, events.drop_last(), at);
        }
    }
}

/// A final state is final: whatever is reported to a unit that is allowed
/// or denied, its state stays and nothing is sent, answered or released.
pub proof fn law_terminal_is_final(unit: RequestAuthView, event: Event)
    requires
        is_terminal(unit.state),
    ensures
        next_state(unit.state, event) == unit.state,
        emitted(unit, event) == Seq::<Command>::empty(),
{
}

/// No report leads back to awaiting the dispatch, and request headers always
/// lead away from it.
pub proof fn law_dispatch_is_left_for_good(state: RequestAuthState, event: Event)
    ensures
        !(state is AwaitingDispatch) ==> !(next_state(state, event) is AwaitingDispatch),
        event is RequestHeaders ==> !(next_state(state, event) is AwaitingDispatch),
{
}

/// Whatever reaches a unit after its creation, in whatever order, at most
/// one authorization call is sent for it. Exactly one is sent where the
/// first report is that of the request headers, and none where request
/// headers are never reported.
pub proof fn law_single_dispatch(unit: RequestAuthView, events: Seq<Event>)
    requires
        fresh(unit),
    ensures
        count(trace(unit, events), CommandKind::Dispatch) <= 1,
        state_after(unit.state, events) is AwaitingDispatch ==> count(
            trace(unit, events),
            CommandKind::Dispatch,
        ) == 0,
        events.len() > 0 && events[0] is RequestHeaders ==> count(
            trace(unit, events),
            CommandKind::Dispatch,
        ) == 1 && !(state_after(unit.state, events) is AwaitingDispatch),
        (forall|i: int| 0 <= i < events.len() ==> !(events[i] is RequestHeaders)) ==> count(
            trace(unit, events),
            CommandKind::Dispatch,
        ) == 0,
    decreases events.len(),
{
    if events.len() > 0 {
        let before = events.drop_last();
        let then = RequestAuthView { config: unit.config, state: state_after(unit.state, before) };
        law_single_dispatch(unit, before);
        lemma_count_emitted(then, events.last());
        lemma_count_concat(trace(unit, before), emitted(then, events.last()), CommandKind::Dispatch);
        law_dispatch_is_left_for_good(then.state, events.last());
        if before.len() > 0 {
            assert(before[0] == events[0]);
        }
        if forall|i: int| 0 <= i < events.len() ==> !(events[i] is RequestHeaders) {
            assert forall|i: int| 0 <= i < before.len() implies !(before[i] is RequestHeaders) by {
                assert(before[i] == events[i]);
            }
            assert(!(events[events.len() - 1] is RequestHeaders));
        }
    }
}

/// Whatever reaches a unit after its creation, the request is answered at
/// most once: it is rejected at most once, released at most once, and never
/// both. It has been rejected exactly when the unit is denied, and released
/// exactly when the unit is allowed.
pub proof fn law_single_answer(unit: RequestAuthView, events: Seq<Event>)
    requires
        fresh(unit),
    ensures
        count(trace(unit, events), CommandKind::Deny) == if state_after(unit.state, events)
            is Denied {
            1nat
        } else {
            0nat
        },
        count(trace(unit, events), CommandKind::Resume) == if state_after(unit.state, events)
            is Allowed {
            1nat
        } else {
            0nat
        },
        count(trace(unit, events), CommandKind::Deny) + count(
            trace(unit, events),
            CommandKind::Resume,
        ) <= 1,
    decreases events.len(),
{
    if events.len() > 0 {
        let before = events.drop_last();
        let then = RequestAuthView { config: unit.config, state: state_after(unit.state, before) };
        law_single_answer(unit, before);
        lemma_count_emitted(then, events.last());
        lemma_count_concat(trace(unit, before), emitted(then, events.last()), CommandKind::Deny);
        lemma_count_concat(trace(unit, before), emitted(then, events.last()), CommandKind::Resume);
        if is_terminal(then.state) {
            law_terminal_is_final(then, events.last());
        }
    }
}

/// A request is released only on an explicit confirmation: a unit is
/// allowed only if request headers were reported with an accepted call and,
/// later, a reply that confirms.
pub proof fn law_release_needs_confirmation(unit: RequestAuthView, events: Seq<Event>)
    requires
        fresh(unit),
        state_after(unit.state, events) is Allowed,
    ensures
        exists|i: int, j: int|
            0 <= i < j < events.len() && #[trigger] accepted(events[i]) && #[trigger] confirms(
                events[j],
            ),
    decreases events.len(),
{
    lemma_pending_needs_acceptance(unit, events);
    if events.len() > 0 {
        let before = events.drop_last();
        let then = state_after(unit.state, before);
        if then is Allowed {
            law_release_needs_confirmation(unit, before);
            let (i, j) = choose|i: int, j: int|
                0 <= i < j < before.len() && #[trigger] accepted(before[i]) && #[trigger] confirms(
                    before[j],
                );
            assert(before[i] == events[i] && before[j] == events[j]);
        } else {
            lemma_pending_needs_acceptance(unit, before);
            let i = choose|i: int| 0 <= i < before.len() && #[trigger] accepted(before[i]);
            let j = events.len() - 1;
            assert(before[i] == events[i]);
            assert(accepted(events[i]) && confirms(events[j]));
        }
    }
}

/// Whether a report says that the authorization call was accepted.
pub open spec fn accepted(event: Event) -> bool {
    event matches Event::RequestHeaders(outcome) && outcome is Accepted
}

/// A unit is pending or allowed only after a report of an accepted call.
pub proof fn lemma_pending_needs_acceptance(unit: RequestAuthView, events: Seq<Event>)
    requires
        fresh(unit),
        state_after(unit.state, events) is Pending || state_after(unit.state, events) is Allowed,
    ensures
        exists|i: int| 0 <= i < events.len() && #[trigger] accepted(events[i]),
    decreases events.len(),
{
    if events.len() > 0 {
        let before = events.drop_last();
        let then = state_after(unit.state, before);
        if then is Pending || then is Allowed {
            lemma_pending_needs_acceptance(unit, before);
            let i = choose|i: int| 0 <= i < before.len() && #[trigger] accepted(before[i]);
            assert(before[i] == events[i]);
        } else {
            assert(accepted(events[events.len() - 1]));
        }
    }
}

/// A call that cannot be issued rejects the request at once: the unit is
/// denied, the rejection is the one fixed response, and nothing that is
/// reported afterwards has any effect.
pub proof fn law_failed_dispatch_rejects(unit: RequestAuthView, later: Event)
    requires
        fresh(unit),
    ensures
        next_state(unit.state, Event::RequestHeaders(DispatchOutcome::Failed))
            == RequestAuthState::Denied,
        effect_of_dispatch(unit.state, DispatchOutcome::Failed) == (EffectView::Deny {
            response: deny_response(),
            reason: AuthError::DispatchError,
        }),
        next_state(RequestAuthState::Denied, later) == RequestAuthState::Denied,
        emitted(
            RequestAuthView { config: unit.config, state: RequestAuthState::Denied },
            later,
        ) == Seq::<Command>::empty(),
{
}

/// A reply that is reported with no headers rejects a pending request,
/// whatever headers come with it.
pub proof fn law_empty_reply_rejects(token: u32, headers: Seq<Header>)
    ensures
        state_after_reply(RequestAuthState::Pending(token), 0, headers) == RequestAuthState::Denied,
        effect_of_reply(RequestAuthState::Pending(token), 0, headers) == (EffectView::Deny {
            response: deny_response(),
            reason: AuthError::EmptyAuthResponse,
        }),
{
}

/// Only the exact status confirms. A reply confirms exactly where it is
/// reported with at least one header and its headers, read as a mapping in
/// which the last header of a name wins, map `:status` to `200`. Every other
/// reply rejects a pending request with the one fixed response.
pub proof fn law_only_exact_status_confirms(token: u32, num_headers: nat, headers: Seq<Header>)
    ensures
        reply_verdict(num_headers, headers) is Ok <==> num_headers > 0 && header_mapping(
            headers,
        ).contains_key(status_header()) && header_mapping(headers)[status_header()]
            == success_status(),
        !(reply_verdict(num_headers, headers) is Ok) ==> {
            &&& state_after_reply(RequestAuthState::Pending(token), num_headers, headers)
                == RequestAuthState::Denied
            &&& effect_of_reply(RequestAuthState::Pending(token), num_headers, headers) is Deny
            &&& effect_of_reply(RequestAuthState::Pending(token), num_headers, headers)->response
                == deny_response()
        },
{
    law_lookup_is_the_mapping(headers, status_header());
}

/// A confirmed request is released as it came in, and its response keeps
/// every upstream header in place and gains the added header behind them.
pub proof fn law_confirmed_request_is_released(
    token: u32,
    num_headers: nat,
    headers: Seq<Header>,
    upstream: Seq<Header>,
)
    requires
        reply_verdict(num_headers, headers) is Ok,
    ensures
        state_after_reply(RequestAuthState::Pending(token), num_headers, headers)
            == RequestAuthState::Allowed,
        effect_of_reply(RequestAuthState::Pending(token), num_headers, headers)
            == EffectView::Resume,
        response_headers(RequestAuthState::Allowed, upstream).len() == upstream.len() + 1,
        response_headers(RequestAuthState::Allowed, upstream).last() == added_header(),
        forall|i: int|
            0 <= i < upstream.len() ==> response_headers(RequestAuthState::Allowed, upstream)[i]
                == upstream[i],
{
}

/// The response of a request that was not confirmed passes as it is.
pub proof fn law_other_responses_pass(state: RequestAuthState, upstream: Seq<Header>)
    requires
        !(state is Allowed),
    ensures
        response_headers(state, upstream) == upstream,
{
}

/// Taking the deny path again has no effect: after the first time nothing
/// more is emitted and the state stays.
pub proof fn law_fail_is_idempotent(state: RequestAuthState, first: AuthError, again: AuthError)
    ensures
        state_after_fail(state_after_fail(state)) == state_after_fail(state),
        effect_of_fail(state_after_fail(state), again) == EffectView::Nothing,
        !is_terminal(state) ==> effect_of_fail(state, first) == (EffectView::Deny {
            response: deny_response(),
            reason: first,
        }),
{
}

} // verus!
