//! The auth flow: learn who this node is, fetch the challenge, have the node
//! sign it, and submit the signature.

use crate::address::{ServerAddress, ServerAddressView};
use crate::error::{lemma_message_mentions, message_of, FlowError, FlowErrorView};
use crate::flow::{
    endpoint, endpoint_url, is_success, network_error, node_error, verdict, verdict_of, Action,
    ActionView, Event, EventView, FlowConfig, FlowConfigView, NodeIdentity,
};
use crate::model::result_view;
use crate::percent::{percent_encoded, push_percent_encoded};
use crate::responses::{
    decoded_challenge, decoded_outcome, AuthChallenge, AuthOutcome, OutcomeView, Status,
};
use crate::text::occurs_in;
use vstd::prelude::*;
use vstd::string::StringExecFns;

verus! {

/// How far an authentication has come.
#[derive(Debug, PartialEq, Eq)]
#[allow(inconsistent_fields)]
pub enum AuthState {
    /// The beginning: first the node is asked who it is, then the challenge
    /// is fetched.
    Init { identity: Option<NodeIdentity> },
    /// The service has sent its challenge.
    ChallengeReceived { identity: NodeIdentity, challenge: AuthChallenge },
    /// The node has signed the challenge.
    Signed { identity: NodeIdentity, challenge: AuthChallenge, signature: String },
    /// The service has answered the response.
    ResponseSubmitted { status: u16, body: String },
    /// The service accepted the signature.
    Succeeded,
    /// The flow stopped at its first failing step.
    Failed { error: FlowError },
}

/// The mathematical value of an [`AuthState`].
#[allow(inconsistent_fields)]
pub enum AuthStateView {
    Init { identity: Option<Seq<char>> },
    ChallengeReceived { identity: Seq<char>, k1: Seq<char> },
    Signed { identity: Seq<char>, k1: Seq<char>, signature: Seq<char> },
    ResponseSubmitted { status: u16, body: Seq<char> },
    Succeeded,
    Failed { error: FlowErrorView },
}

impl View for AuthState {
    type V = AuthStateView;

    open spec fn view(&self) -> AuthStateView {
        match self {
            AuthState::Init { identity } => AuthStateView::Init {
                identity: match identity {
                    Some(id) => Some(id@),
                    None => None,
                },
            },
            AuthState::ChallengeReceived { identity, challenge } => {
                AuthStateView::ChallengeReceived { identity: identity@, k1: challenge@ }
            },
            AuthState::Signed { identity, challenge, signature } => AuthStateView::Signed {
                identity: identity@,
                k1: challenge@,
                signature: signature@,
            },
            AuthState::ResponseSubmitted { status, body } => AuthStateView::ResponseSubmitted {
                status: *status,
                body: body@,
            },
            AuthState::Succeeded => AuthStateView::Succeeded,
            AuthState::Failed { error } => AuthStateView::Failed { error: error@ },
        }
    }
}

impl AuthStateView {
    /// Whether the flow has ended in this state.
    pub open spec fn is_final(self) -> bool {
        self is Succeeded || self is Failed
    }
}

/// An authentication in progress.
#[derive(Debug, PartialEq, Eq)]
pub struct AuthFlow {
    config: FlowConfig,
    base: ServerAddress,
    state: AuthState,
}

/// The mathematical value of an [`AuthFlow`].
pub struct AuthFlowView {
    pub config: FlowConfigView,
    pub base: ServerAddressView,
    pub state: AuthStateView,
}

impl View for AuthFlow {
    type V = AuthFlowView;

    closed spec fn view(&self) -> AuthFlowView {
        AuthFlowView { config: self.config@, base: self.base@, state: self.state@ }
    }
}

/// The URL that submits the signature: the token, the signature and the
/// public key, each percent-encoded.
pub open spec fn response_url(
    base: Seq<char>,
    path: Seq<char>,
    k1: Seq<char>,
    signature: Seq<char>,
    public_key: Seq<char>,
) -> Seq<char> {
    endpoint_url(base, path) + "?k1="@ + percent_encoded(k1) + "&signature="@ + percent_encoded(
        signature,
    ) + "&pubkey="@ + percent_encoded(public_key)
}

/// The state after the answer to the request for a challenge.
pub open spec fn state_after_challenge(
    identity: Seq<char>,
    decoded: Result<Seq<char>, FlowErrorView>,
) -> AuthStateView {
    match decoded {
        Ok(k1) => AuthStateView::ChallengeReceived { identity, k1 },
        Err(error) => AuthStateView::Failed { error },
    }
}

/// The state after the answer to the response was read.
pub open spec fn state_after_outcome(
    status: u16,
    body: Seq<char>,
    decoded: Result<OutcomeView, FlowErrorView>,
) -> AuthStateView {
    let verdict = verdict_of(
        status,
        body,
        match decoded {
            Ok(outcome) => Ok((outcome.status, outcome.reason)),
            Err(e) => Err(e),
        },
    );
    match verdict {
        None => AuthStateView::Succeeded,
        Some(error) => AuthStateView::Failed { error },
    }
}

/// The state that an event leads to. An event that does not answer the work
/// that the state waits for changes nothing; nor does any event once the
/// flow has ended.
pub open spec fn auth_next(flow: AuthFlowView, event: EventView) -> AuthStateView {
    match (flow.state, event) {
        (AuthStateView::Init { identity: None }, EventView::Identity { public_key }) => {
            AuthStateView::Init { identity: Some(public_key) }
        },
        (AuthStateView::Init { identity: None }, EventView::NodeFailure { reason }) => {
            AuthStateView::Failed { error: FlowErrorView::NodeError { reason } }
        },
        (
            AuthStateView::Init { identity: Some(identity) },
            EventView::HttpResponse { status, body },
        ) => state_after_challenge(identity, decoded_challenge(body)),
        (AuthStateView::Init { identity: Some(identity) }, EventView::HttpFailure { detail }) => {
            AuthStateView::Failed {
                error: FlowErrorView::NetworkError {
                    host: flow.base.host,
                    port: flow.base.port,
                    detail,
                },
            }
        },
        (
            AuthStateView::ChallengeReceived { identity, k1 },
            EventView::MessageSigned { signature },
        ) => AuthStateView::Signed { identity, k1, signature },
        (AuthStateView::ChallengeReceived { .. }, EventView::NodeFailure { reason }) => {
            AuthStateView::Failed { error: FlowErrorView::NodeError { reason } }
        },
        (AuthStateView::Signed { .. }, EventView::HttpResponse { status, body }) => {
            AuthStateView::ResponseSubmitted { status, body }
        },
        (AuthStateView::Signed { .. }, EventView::HttpFailure { detail }) => AuthStateView::Failed {
            error: FlowErrorView::NetworkError {
                host: flow.base.host,
                port: flow.base.port,
                detail,
            },
        },
        (AuthStateView::ResponseSubmitted { status, body }, EventView::Resumed) => {
            state_after_outcome(status, body, decoded_outcome(body, "auth"@))
        },
        (state, _) => state,
    }
}

/// The flow after an event: only its state changes.
pub open spec fn auth_step(flow: AuthFlowView, event: EventView) -> AuthFlowView {
    AuthFlowView { state: auth_next(flow, event), ..flow }
}

/// The flow after a run of events, one after the other.
pub open spec fn auth_run(flow: AuthFlowView, events: Seq<EventView>) -> AuthFlowView
    decreases events.len(),
{
    if events.len() == 0 {
        flow
    } else {
        auth_step(auth_run(flow, events.drop_last()), events.last())
    }
}

/// The work that a flow waits for.
pub open spec fn auth_action(flow: AuthFlowView) -> ActionView {
    match flow.state {
        AuthStateView::Init { identity: None } => ActionView::GetIdentity,
        AuthStateView::Init { identity: Some(_) } => ActionView::HttpGet {
            url: endpoint_url(flow.base.url, flow.config.challenge_path),
        },
        AuthStateView::ChallengeReceived { identity, k1 } => ActionView::SignMessage {
            message: k1,
        },
        AuthStateView::Signed { identity, k1, signature } => ActionView::HttpGet {
            url: response_url(flow.base.url, flow.config.response_path, k1, signature, identity),
        },
        AuthStateView::ResponseSubmitted { .. } => ActionView::Resume,
        AuthStateView::Succeeded => ActionView::Stop,
        AuthStateView::Failed { .. } => ActionView::Stop,
    }
}

/// The exit code of the process that ran the flow: 0 where the service
/// accepted the signature, 1 otherwise.
pub open spec fn auth_exit_code(state: AuthStateView) -> u8 {
    if state is Succeeded {
        0
    } else {
        1
    }
}

/// A flow that has ended stays as it is whatever is reported to it, and
/// asks for no more work.
pub proof fn lemma_ended_flow_stays(flow: AuthFlowView, events: Seq<EventView>)
    requires
        flow.state.is_final(),
    ensures
        auth_run(flow, events) == flow,
        auth_action(auth_run(flow, events)) == ActionView::Stop,
    decreases events.len(),
{
    if events.len() > 0 {
        lemma_ended_flow_stays(flow, events.drop_last());
    }
}

/// Where the request for the challenge cannot be completed, the flow fails
/// with a network error that names the host and the port of the service,
/// and asks for no more work.
pub proof fn lemma_unreachable_service_ends_flow(
    flow: AuthFlowView,
    detail: Seq<char>,
    later: Seq<EventView>,
)
    requires
        flow.state matches AuthStateView::Init { identity: Some(_) },
    ensures
        auth_step(flow, EventView::HttpFailure { detail }).state == (AuthStateView::Failed {
            error: FlowErrorView::NetworkError {
                host: flow.base.host,
                port: flow.base.port,
                detail,
            },
        }),
        !auth_action(auth_run(auth_step(flow, EventView::HttpFailure { detail }), later)).is_call(),
{
    lemma_ended_flow_stays(auth_step(flow, EventView::HttpFailure { detail }), later);
}

/// A run that is one event longer ends one step further.
pub proof fn lemma_run_one_more(flow: AuthFlowView, events: Seq<EventView>, event: EventView)
    ensures
        auth_run(flow, events.push(event)) == auth_step(auth_run(flow, events), event),
{
    assert(events.push(event).drop_last() == events);
}

/// Where every step goes well, the flow ends in success and the process
/// exits with 0: the node says who it is, the service sends a challenge, the
/// node signs it, and the service accepts the signature.
pub proof fn lemma_accepted_signature_succeeds(
    flow: AuthFlowView,
    public_key: Seq<char>,
    challenge: Seq<char>,
    signature: Seq<char>,
    status: u16,
    answer: Seq<char>,
)
    requires
        flow.state == (AuthStateView::Init { identity: None }),
    ensures
        ({
            &&& decoded_challenge(challenge) is Ok
            &&& is_success(status)
            &&& decoded_outcome(answer, "auth"@) matches Ok(outcome)
            &&& outcome.status is Granted
        }) ==> ({
            let end = auth_run(
                flow,
                seq![
                    EventView::Identity { public_key },
                    EventView::HttpResponse { status: 200, body: challenge },
                    EventView::MessageSigned { signature },
                    EventView::HttpResponse { status, body: answer },
                    EventView::Resumed,
                ],
            );
            end.state is Succeeded && auth_exit_code(end.state) == 0
        }),
{
    let e1 = EventView::Identity { public_key };
    let e2 = EventView::HttpResponse { status: 200, body: challenge };
    let e3 = EventView::MessageSigned { signature };
    let e4 = EventView::HttpResponse { status, body: answer };
    let e5 = EventView::Resumed;
    let none = Seq::<EventView>::empty();
    assert(seq![e1, e2, e3, e4, e5] == none.push(e1).push(e2).push(e3).push(e4).push(e5));
    lemma_run_one_more(flow, none, e1);
    lemma_run_one_more(flow, none.push(e1), e2);
    lemma_run_one_more(flow, none.push(e1).push(e2), e3);
    lemma_run_one_more(flow, none.push(e1).push(e2).push(e3), e4);
    lemma_run_one_more(flow, none.push(e1).push(e2).push(e3).push(e4), e5);
}

/// Where the service refuses the signature and says why, the flow fails,
/// the report of the failure quotes the reason, the process exits with 1 and
/// no more work is asked for.
pub proof fn lemma_refusal_is_reported(
    flow: AuthFlowView,
    status: u16,
    body: Seq<char>,
    reason: Seq<char>,
)
    requires
        flow.state == (AuthStateView::ResponseSubmitted { status, body }),
        is_success(status),
    ensures
        decoded_outcome(body, "auth"@) == Ok::<OutcomeView, FlowErrorView>(
            OutcomeView { status: Status::Refused, reason: Some(reason) },
        ) ==> ({
            let end = auth_step(flow, EventView::Resumed);
            &&& end.state == (AuthStateView::Failed {
                error: FlowErrorView::ProtocolError { reason },
            })
            &&& occurs_in(reason, message_of(FlowErrorView::ProtocolError { reason }))
            &&& auth_exit_code(end.state) == 1
            &&& auth_action(end) == ActionView::Stop
        }),
{
    lemma_message_mentions(FlowErrorView::ProtocolError { reason });
}

/// The state after the answer to the request for a challenge, given what
/// the decoder made of the answer.
pub fn after_challenge(identity: NodeIdentity, decoded: Result<AuthChallenge, FlowError>) -> (state:
    AuthState)
    ensures
        state@ == state_after_challenge(identity@, result_view(decoded)),
{
    match decoded {
        Ok(challenge) => AuthState::ChallengeReceived { identity, challenge },
        Err(error) => AuthState::Failed { error },
    }
}

/// The state after the answer to the response, given the HTTP status, the
/// body and what the decoder made of the body.
pub fn after_outcome(status: u16, body: String, decoded: Result<AuthOutcome, FlowError>) -> (state:
    AuthState)
    ensures
        state@ == state_after_outcome(status, body@, result_view(decoded)),
{
    let decoded = match decoded {
        Ok(outcome) => Ok((outcome.status, outcome.reason)),
        Err(e) => Err(e),
    };
    match verdict(status, body, decoded) {
        None => AuthState::Succeeded,
        Some(error) => AuthState::Failed { error },
    }
}

impl AuthFlow {
    /// An authentication with the service at `base`.
    pub fn new(config: FlowConfig, base: ServerAddress) -> (flow: AuthFlow)
        ensures
            flow@ == (AuthFlowView {
                config: config@,
                base: base@,
                state: AuthStateView::Init { identity: None },
            }),
    {
        AuthFlow { config, base, state: AuthState::Init { identity: None } }
    }

    /// How far the flow has come.
    pub fn state(&self) -> (state: &AuthState)
        ensures
            state@ == self@.state,
    {
        &self.state
    }

    /// Whether the flow has ended.
    pub fn is_finished(&self) -> (finished: bool)
        ensures
            finished == self@.state.is_final(),
    {
        match &self.state {
            AuthState::Succeeded => true,
            AuthState::Failed { .. } => true,
            _ => false,
        }
    }

    /// The exit code of the process that ran the flow.
    pub fn exit_code(&self) -> (code: u8)
        ensures
            code == auth_exit_code(self@.state),
    {
        match &self.state {
            AuthState::Succeeded => 0,
            _ => 1,
        }
    }

    /// The work that the flow waits for.
    pub fn next_action(&self) -> (action: Action)
        ensures
            action@ == auth_action(self@),
    {
        match &self.state {
            AuthState::Init { identity: None } => Action::GetIdentity,
            AuthState::Init { identity: Some(_) } => Action::HttpGet {
                url: endpoint(self.base.url(), self.config.challenge_path.as_str()),
            },
            AuthState::ChallengeReceived { identity, challenge } => Action::SignMessage {
                message: challenge.k1.clone(),
            },
            AuthState::Signed { identity, challenge, signature } => {
                let mut url = endpoint(self.base.url(), self.config.response_path.as_str());
                url.append("?k1=");
                push_percent_encoded(&mut url, challenge.k1.as_str());
                url.append("&signature=");
                push_percent_encoded(&mut url, signature.as_str());
                url.append("&pubkey=");
                push_percent_encoded(&mut url, identity.public_key.as_str());
                Action::HttpGet { url }
            },
            AuthState::ResponseSubmitted { .. } => Action::Resume,
            AuthState::Succeeded => Action::Stop,
            AuthState::Failed { .. } => Action::Stop,
        }
    }

    /// Takes the flow to its next state with what came of the work it
    /// waited for.
    pub fn step(self, event: Event) -> (next: AuthFlow)
        ensures
            next@ == auth_step(self@, event@),
    {
        let AuthFlow { config, base, state } = self;
        let state = match (state, event) {
            (AuthState::Init { identity: None }, Event::Identity { public_key }) => {
                AuthState::Init { identity: Some(NodeIdentity { public_key }) }
            },
            (AuthState::Init { identity: None }, Event::NodeFailure { reason }) => {
                AuthState::Failed { error: node_error(reason) }
            },
            (AuthState::Init { identity: Some(identity) }, Event::HttpResponse { status, body }) => {
                after_challenge(identity, AuthChallenge::decode(body.as_str()))
            },
            (AuthState::Init { identity: Some(identity) }, Event::HttpFailure { detail }) => {
                AuthState::Failed { error: network_error(base.host(), base.port(), detail) }
            },
            (
                AuthState::ChallengeReceived { identity, challenge },
                Event::MessageSigned { signature },
            ) => AuthState::Signed { identity, challenge, signature },
            (AuthState::ChallengeReceived { .. }, Event::NodeFailure { reason }) => {
                AuthState::Failed { error: node_error(reason) }
            },
            (AuthState::Signed { .. }, Event::HttpResponse { status, body }) => {
                AuthState::ResponseSubmitted { status, body }
            },
            (AuthState::Signed { .. }, Event::HttpFailure { detail }) => AuthState::Failed {
                error: network_error(base.host(), base.port(), detail),
            },
            (AuthState::ResponseSubmitted { status, body }, Event::Resumed) => {
                let decoded = AuthOutcome::decode(body.as_str());
                after_outcome(status, body, decoded)
            },
            (state, _) => state,
        };
        AuthFlow { config, base, state }
    }
}

} // verus!
