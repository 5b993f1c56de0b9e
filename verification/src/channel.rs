//! The channel-open flow: learn who this node is, fetch the parameters,
//! connect to the service's node, and ask the service to open the channel.

use crate::address::{ServerAddress, ServerAddressView};
use crate::decimal::{decimal, push_decimal};
use crate::error::{lemma_message_mentions, message_of, FlowError, FlowErrorView};
use crate::flow::{
    endpoint, endpoint_url, network_error, node_error, Action, ActionView, Event, EventView,
    FlowConfig, FlowConfigView, NodeIdentity,
};
use crate::json::json_string_member;
use crate::model::result_view;
use crate::responses::{
    decoded_channel_outcome, decoded_channel_parameters, protocol_error, ChannelOutcome,
    ChannelOutcomeView, ChannelParameters, ChannelParametersView, Status,
};
use crate::text::occurs_in;
use vstd::prelude::*;
use vstd::string::StringExecFns;

verus! {

/// How far the opening of a channel has come.
#[derive(Debug, PartialEq, Eq)]
#[allow(inconsistent_fields)]
pub enum ChannelState {
    /// The beginning: first the node is asked who it is, then the
    /// parameters are fetched.
    Init { identity: Option<NodeIdentity> },
    /// The service has sent its parameters.
    ParamsFetched { identity: NodeIdentity, params: ChannelParameters },
    /// The node is connected to the service's node.
    PeerConnected { identity: NodeIdentity, params: ChannelParameters },
    /// The service has answered the callback.
    OpenRequested { body: String },
    /// The service opened the channel.
    Succeeded { transaction_id: Option<String>, channel_id: Option<String> },
    /// The flow stopped at its first failing step.
    Failed { error: FlowError },
}

/// The mathematical value of a [`ChannelState`].
#[allow(inconsistent_fields)]
pub enum ChannelStateView {
    Init { identity: Option<Seq<char>> },
    ParamsFetched { identity: Seq<char>, params: ChannelParametersView },
    PeerConnected { identity: Seq<char>, params: ChannelParametersView },
    OpenRequested { body: Seq<char> },
    Succeeded { transaction_id: Option<Seq<char>>, channel_id: Option<Seq<char>> },
    Failed { error: FlowErrorView },
}

impl View for ChannelState {
    type V = ChannelStateView;

    open spec fn view(&self) -> ChannelStateView {
        match self {
            ChannelState::Init { identity } => ChannelStateView::Init {
                identity: match identity {
                    Some(id) => Some(id@),
                    None => None,
                },
            },
            ChannelState::ParamsFetched { identity, params } => ChannelStateView::ParamsFetched {
                identity: identity@,
                params: params@,
            },
            ChannelState::PeerConnected { identity, params } => ChannelStateView::PeerConnected {
                identity: identity@,
                params: params@,
            },
            ChannelState::OpenRequested { body } => ChannelStateView::OpenRequested { body: body@ },
            ChannelState::Succeeded { transaction_id, channel_id } => ChannelStateView::Succeeded {
                transaction_id: transaction_id.deep_view(),
                channel_id: channel_id.deep_view(),
            },
            ChannelState::Failed { error } => ChannelStateView::Failed { error: error@ },
        }
    }
}

impl ChannelStateView {
    /// Whether the flow has ended in this state.
    pub open spec fn is_final(self) -> bool {
        self is Succeeded || self is Failed
    }
}

/// The opening of a channel in progress.
#[derive(Debug, PartialEq, Eq)]
pub struct ChannelFlow {
    config: FlowConfig,
    base: ServerAddress,
    state: ChannelState,
}

/// The mathematical value of a [`ChannelFlow`].
pub struct ChannelFlowView {
    pub config: FlowConfigView,
    pub base: ServerAddressView,
    pub state: ChannelStateView,
}

impl View for ChannelFlow {
    type V = ChannelFlowView;

    closed spec fn view(&self) -> ChannelFlowView {
        ChannelFlowView { config: self.config@, base: self.base@, state: self.state@ }
    }
}

/// The address at which this node can be reached: its public key, and the
/// host and port at which it is configured to listen.
pub open spec fn reachable_address(public_key: Seq<char>, config: FlowConfigView) -> Seq<char> {
    public_key + "@"@ + config.local_host + ":"@ + decimal(config.local_port as nat)
}

/// The address at which the node of a flow can be reached, once the node
/// has said who it is.
pub open spec fn channel_reachable_address(flow: ChannelFlowView) -> Option<Seq<char>> {
    match flow.state {
        ChannelStateView::Init { identity: Some(identity) } => Some(
            reachable_address(identity, flow.config),
        ),
        ChannelStateView::ParamsFetched { identity, params } => Some(
            reachable_address(identity, flow.config),
        ),
        ChannelStateView::PeerConnected { identity, params } => Some(
            reachable_address(identity, flow.config),
        ),
        _ => None,
    }
}

/// The URL of the callback that asks for the channel.
pub open spec fn open_url(params: ChannelParametersView, public_key: Seq<char>) -> Seq<char> {
    params.callback.url + "?remoteid="@ + public_key + "&k1="@ + params.k1
}

/// The state after the answer to the request for parameters.
pub open spec fn state_after_parameters(
    identity: Seq<char>,
    decoded: Result<ChannelParametersView, FlowErrorView>,
) -> ChannelStateView {
    match decoded {
        Ok(params) => ChannelStateView::ParamsFetched { identity, params },
        Err(error) => ChannelStateView::Failed { error },
    }
}

/// The reason of a refusal: the one given, or none at all.
pub open spec fn refusal_reason(reason: Option<Seq<char>>) -> Seq<char> {
    match reason {
        Some(r) => r,
        None => Seq::<char>::empty(),
    }
}

/// The state after the answer to the callback was read: the flow succeeds
/// where the status is `OK`, and fails with the reason given otherwise.
pub open spec fn state_after_outcome(
    decoded: Result<ChannelOutcomeView, FlowErrorView>,
) -> ChannelStateView {
    match decoded {
        Err(error) => ChannelStateView::Failed { error },
        Ok(outcome) => match outcome.status {
            Status::Granted => ChannelStateView::Succeeded {
                transaction_id: outcome.transaction_id,
                channel_id: outcome.channel_id,
            },
            Status::Refused => ChannelStateView::Failed {
                error: FlowErrorView::ProtocolError { reason: refusal_reason(outcome.reason) },
            },
        },
    }
}

/// The state that an event leads to. An event that does not answer the work
/// that the state waits for changes nothing; nor does any event once the
/// flow has ended.
pub open spec fn channel_next(flow: ChannelFlowView, event: EventView) -> ChannelStateView {
    match (flow.state, event) {
        (ChannelStateView::Init { identity: None }, EventView::Identity { public_key }) => {
            ChannelStateView::Init { identity: Some(public_key) }
        },
        (ChannelStateView::Init { identity: None }, EventView::NodeFailure { reason }) => {
            ChannelStateView::Failed { error: FlowErrorView::NodeError { reason } }
        },
        (
            ChannelStateView::Init { identity: Some(identity) },
            EventView::HttpResponse { status, body },
        ) => state_after_parameters(identity, decoded_channel_parameters(body)),
        (ChannelStateView::Init { identity: Some(identity) }, EventView::HttpFailure { detail }) => {
            ChannelStateView::Failed {
                error: FlowErrorView::NetworkError {
                    host: flow.base.host,
                    port: flow.base.port,
                    detail,
                },
            }
        },
        (ChannelStateView::ParamsFetched { identity, params }, EventView::PeerConnected) => {
            ChannelStateView::PeerConnected { identity, params }
        },
        (ChannelStateView::ParamsFetched { .. }, EventView::NodeFailure { reason }) => {
            ChannelStateView::Failed { error: FlowErrorView::NodeError { reason } }
        },
        (
            ChannelStateView::PeerConnected { identity, params },
            EventView::HttpResponse { status, body },
        ) => ChannelStateView::OpenRequested { body },
        (
            ChannelStateView::PeerConnected { identity, params },
            EventView::HttpFailure { detail },
        ) => ChannelStateView::Failed {
            error: FlowErrorView::NetworkError {
                host: params.callback.host,
                port: params.callback.port,
                detail,
            },
        },
        (ChannelStateView::OpenRequested { body }, EventView::Resumed) => {
            state_after_outcome(decoded_channel_outcome(body))
        },
        (state, _) => state,
    }
}

/// The flow after an event: only its state changes.
pub open spec fn channel_step(flow: ChannelFlowView, event: EventView) -> ChannelFlowView {
    ChannelFlowView { state: channel_next(flow, event), ..flow }
}

/// The flow after a run of events, one after the other.
pub open spec fn channel_run(flow: ChannelFlowView, events: Seq<EventView>) -> ChannelFlowView
    decreases events.len(),
{
    if events.len() == 0 {
        flow
    } else {
        channel_step(channel_run(flow, events.drop_last()), events.last())
    }
}

/// The work that a flow waits for.
pub open spec fn channel_action(flow: ChannelFlowView) -> ActionView {
    match flow.state {
        ChannelStateView::Init { identity: None } => ActionView::GetIdentity,
        ChannelStateView::Init { identity: Some(_) } => ActionView::HttpGet {
            url: endpoint_url(flow.base.url, flow.config.channel_path),
        },
        ChannelStateView::ParamsFetched { identity, params } => ActionView::ConnectPeer {
            peer: params.peer,
        },
        ChannelStateView::PeerConnected { identity, params } => ActionView::HttpGet {
            url: open_url(params, identity),
        },
        ChannelStateView::OpenRequested { .. } => ActionView::Resume,
        ChannelStateView::Succeeded { .. } => ActionView::Stop,
        ChannelStateView::Failed { .. } => ActionView::Stop,
    }
}

/// The exit code of the process that ran the flow: 0 where the service
/// opened the channel, 1 otherwise.
pub open spec fn channel_exit_code(state: ChannelStateView) -> u8 {
    if state is Succeeded {
        0
    } else {
        1
    }
}

/// A flow that has ended stays as it is whatever is reported to it, and
/// asks for no more work.
pub proof fn lemma_ended_flow_stays(flow: ChannelFlowView, events: Seq<EventView>)
    requires
        flow.state.is_final(),
    ensures
        channel_run(flow, events) == flow,
        channel_action(channel_run(flow, events)) == ActionView::Stop,
    decreases events.len(),
{
    if events.len() > 0 {
        lemma_ended_flow_stays(flow, events.drop_last());
    }
}

/// Where the request for the parameters cannot be completed, the flow fails
/// with a network error that names the host and the port of the service,
/// and asks for no more work.
pub proof fn lemma_unreachable_service_ends_flow(
    flow: ChannelFlowView,
    detail: Seq<char>,
    later: Seq<EventView>,
)
    requires
        flow.state matches ChannelStateView::Init { identity: Some(_) },
    ensures
        channel_step(flow, EventView::HttpFailure { detail }).state == (ChannelStateView::Failed {
            error: FlowErrorView::NetworkError {
                host: flow.base.host,
                port: flow.base.port,
                detail,
            },
        }),
        !channel_action(
            channel_run(channel_step(flow, EventView::HttpFailure { detail }), later),
        ).is_call(),
{
    lemma_ended_flow_stays(channel_step(flow, EventView::HttpFailure { detail }), later);
}

/// Once the parameters are fetched, the flow asks for a connection to the
/// peer that the service named, by the URI as the service sent it.
pub proof fn lemma_connects_to_the_uri_as_received(flow: ChannelFlowView, body: Seq<char>)
    requires
        flow.state matches ChannelStateView::Init { identity: Some(_) },
    ensures
        decoded_channel_parameters(body) is Ok ==> ({
            let fetched = channel_step(flow, EventView::HttpResponse { status: 200, body });
            &&& channel_action(fetched) matches ActionView::ConnectPeer { peer }
            &&& Some(peer.uri) == json_string_member(body, "uri"@)
            &&& peer.wf()
        }),
{
}

/// A run that is one event longer ends one step further.
pub proof fn lemma_run_one_more(flow: ChannelFlowView, events: Seq<EventView>, event: EventView)
    ensures
        channel_run(flow, events.push(event)) == channel_step(channel_run(flow, events), event),
{
    assert(events.push(event).drop_last() == events);
}

/// Where every step goes well, the flow ends in success and the process
/// exits with 0: the node says who it is, the service sends its parameters,
/// the node connects to the peer, and the service opens the channel.
pub proof fn lemma_granted_channel_succeeds(
    flow: ChannelFlowView,
    public_key: Seq<char>,
    parameters: Seq<char>,
    status: u16,
    answer: Seq<char>,
)
    requires
        flow.state == (ChannelStateView::Init { identity: None }),
    ensures
        ({
            &&& decoded_channel_parameters(parameters) is Ok
            &&& decoded_channel_outcome(answer) matches Ok(outcome)
            &&& outcome.status is Granted
        }) ==> ({
            let end = channel_run(
                flow,
                seq![
                    EventView::Identity { public_key },
                    EventView::HttpResponse { status: 200, body: parameters },
                    EventView::PeerConnected,
                    EventView::HttpResponse { status, body: answer },
                    EventView::Resumed,
                ],
            );
            end.state is Succeeded && channel_exit_code(end.state) == 0
        }),
{
    let e1 = EventView::Identity { public_key };
    let e2 = EventView::HttpResponse { status: 200, body: parameters };
    let e3 = EventView::PeerConnected;
    let e4 = EventView::HttpResponse { status, body: answer };
    let e5 = EventView::Resumed;
    let none = Seq::<EventView>::empty();
    assert(seq![e1, e2, e3, e4, e5] == none.push(e1).push(e2).push(e3).push(e4).push(e5));
    lemma_run_one_more(flow, none, e1);
    lemma_run_one_more(flow, none.push(e1), e2);
    lemma_run_one_more(flow, none.push(e1).push(e2), e3);
    lemma_run_one_more(flow, none.push(e1).push(e2).push(e3), e4);
    lemma_run_one_more(flow, none.push(e1).push(e2).push(e3).push(e4), e5);
}

/// Where the service refuses to open the channel and says why, the flow
/// fails, the report of the failure quotes the reason, the process exits
/// with 1 and no more work is asked for.
pub proof fn lemma_refusal_is_reported(flow: ChannelFlowView, body: Seq<char>, reason: Seq<char>)
    requires
        flow.state == (ChannelStateView::OpenRequested { body }),
    ensures
        (decoded_channel_outcome(body) matches Ok(outcome) && outcome.status is Refused
            && outcome.reason == Some(reason)) ==> ({
            let end = channel_step(flow, EventView::Resumed);
            &&& end.state == (ChannelStateView::Failed {
                error: FlowErrorView::ProtocolError { reason },
            })
            &&& occurs_in(reason, message_of(FlowErrorView::ProtocolError { reason }))
            &&& channel_exit_code(end.state) == 1
            &&& channel_action(end) == ActionView::Stop
        }),
{
    lemma_message_mentions(FlowErrorView::ProtocolError { reason });
}

/// The state after the answer to the request for parameters, given what the
/// decoder made of the answer.
pub fn after_parameters(identity: NodeIdentity, decoded: Result<ChannelParameters, FlowError>) -> (state:
    ChannelState)
    ensures
        state@ == state_after_parameters(identity@, result_view(decoded)),
{
    match decoded {
        Ok(params) => ChannelState::ParamsFetched { identity, params },
        Err(error) => ChannelState::Failed { error },
    }
}

/// The state after the answer to the callback, given what the decoder made
/// of the answer.
pub fn after_outcome(decoded: Result<ChannelOutcome, FlowError>) -> (state: ChannelState)
    ensures
        state@ == state_after_outcome(result_view(decoded)),
{
    match decoded {
        Err(error) => ChannelState::Failed { error },
        Ok(outcome) => {
            let ChannelOutcome { status, reason, transaction_id, channel_id } = outcome;
            match status {
                Status::Granted => ChannelState::Succeeded { transaction_id, channel_id },
                Status::Refused => {
                    let reason = match reason {
                        Some(r) => r,
                        None => String::new(),
                    };
                    ChannelState::Failed { error: protocol_error(reason) }
                },
            }
        },
    }
}

impl ChannelFlow {
    /// The opening of a channel with the service at `base`.
    pub fn new(config: FlowConfig, base: ServerAddress) -> (flow: ChannelFlow)
        ensures
            flow@ == (ChannelFlowView {
                config: config@,
                base: base@,
                state: ChannelStateView::Init { identity: None },
            }),
    {
        ChannelFlow { config, base, state: ChannelState::Init { identity: None } }
    }

    /// How far the flow has come.
    pub fn state(&self) -> (state: &ChannelState)
        ensures
            state@ == self@.state,
    {
        &self.state
    }

    /// Whether the flow has ended.
    pub fn is_finished(&self) -> (finished: bool)
        ensures
            finished == self@.state.is_final(),
    {
        match &self.state {
            ChannelState::Succeeded { .. } => true,
            ChannelState::Failed { .. } => true,
            _ => false,
        }
    }

    /// The exit code of the process that ran the flow.
    pub fn exit_code(&self) -> (code: u8)
        ensures
            code == channel_exit_code(self@.state),
    {
        match &self.state {
            ChannelState::Succeeded { .. } => 0,
            _ => 1,
        }
    }

    /// The address at which this node can be reached, as
    /// `pubkey@host:port`: known from the moment the node has said who it
    /// is, until the service has answered the callback.
    pub fn reachable_address(&self) -> (address: Option<String>)
        ensures
            address.deep_view() == channel_reachable_address(self@),
    {
        let identity = match &self.state {
            ChannelState::Init { identity: Some(identity) } => identity,
            ChannelState::ParamsFetched { identity, params } => identity,
            ChannelState::PeerConnected { identity, params } => identity,
            _ => {
                return None;
            },
        };
        let mut address = identity.public_key.clone();
        address.append("@");
        address.append(self.config.local_host.as_str());
        address.append(":");
        push_decimal(&mut address, self.config.local_port as u128);
        Some(address)
    }

    /// The work that the flow waits for.
    pub fn next_action(&self) -> (action: Action)
        ensures
            action@ == channel_action(self@),
    {
        match &self.state {
            ChannelState::Init { identity: None } => Action::GetIdentity,
            ChannelState::Init { identity: Some(_) } => Action::HttpGet {
                url: endpoint(self.base.url(), self.config.channel_path.as_str()),
            },
            ChannelState::ParamsFetched { identity, params } => Action::ConnectPeer {
                peer: params.peer.duplicate(),
            },
            ChannelState::PeerConnected { identity, params } => {
                let mut url = params.callback.url().to_owned();
                url.append("?remoteid=");
                url.append(identity.public_key.as_str());
                url.append("&k1=");
                url.append(params.k1.as_str());
                Action::HttpGet { url }
            },
            ChannelState::OpenRequested { .. } => Action::Resume,
            ChannelState::Succeeded { .. } => Action::Stop,
            ChannelState::Failed { .. } => Action::Stop,
        }
    }

    /// Takes the flow to its next state with what came of the work it
    /// waited for.
    pub fn step(self, event: Event) -> (next: ChannelFlow)
        ensures
            next@ == channel_step(self@, event@),
    {
        let ChannelFlow { config, base, state } = self;
        let state = match (state, event) {
            (ChannelState::Init { identity: None }, Event::Identity { public_key }) => {
                ChannelState::Init { identity: Some(NodeIdentity { public_key }) }
            },
            (ChannelState::Init { identity: None }, Event::NodeFailure { reason }) => {
                ChannelState::Failed { error: node_error(reason) }
            },
            (
                ChannelState::Init { identity: Some(identity) },
                Event::HttpResponse { status, body },
            ) => after_parameters(identity, ChannelParameters::decode(body.as_str())),
            (ChannelState::Init { identity: Some(identity) }, Event::HttpFailure { detail }) => {
                ChannelState::Failed { error: network_error(base.host(), base.port(), detail) }
            },
            (ChannelState::ParamsFetched { identity, params }, Event::PeerConnected) => {
                ChannelState::PeerConnected { identity, params }
            },
            (ChannelState::ParamsFetched { .. }, Event::NodeFailure { reason }) => {
                ChannelState::Failed { error: node_error(reason) }
            },
            (
                ChannelState::PeerConnected { identity, params },
                Event::HttpResponse { status, body },
            ) => ChannelState::OpenRequested { body },
            (ChannelState::PeerConnected { identity, params }, Event::HttpFailure { detail }) => {
                ChannelState::Failed {
                    error: network_error(params.callback.host(), params.callback.port(), detail),
                }
            },
            (ChannelState::OpenRequested { body }, Event::Resumed) => {
                after_outcome(ChannelOutcome::decode(body.as_str()))
            },
            (state, _) => state,
        };
        ChannelFlow { config, base, state }
    }
}

} // verus!
