//! What the three flows share: the configuration, the work that a flow asks
//! its driver to do, and the events in which the driver reports back.
//!
//! A flow does no work outside itself. It is a state, and two functions: one
//! names the next piece of work (an [`Action`]), the other takes what came
//! of it (an [`Event`]) to the next state. The driver performs each action
//! once and hands back one event; nothing is tried twice.

use crate::error::{FlowError, FlowErrorView};
use crate::peer::{PeerUri, PeerUriView};
use crate::responses::{protocol_error, Status};
use crate::text::{lemma_trim_end, slice_text, to_chars, trim_end, trimmed_len};
use vstd::prelude::*;
use vstd::string::StringExecFns;

verus! {

/// This node as the local node reports it.
#[derive(Debug, PartialEq, Eq)]
pub struct NodeIdentity {
    pub public_key: String,
}

impl View for NodeIdentity {
    type V = Seq<char>;

    open spec fn view(&self) -> Seq<char> {
        self.public_key@
    }
}

/// An invoice that the local node made for one withdrawal.
#[derive(Debug, PartialEq, Eq)]
pub struct Invoice {
    pub encoded_payment_request: String,
}

impl View for Invoice {
    type V = Seq<char>;

    open spec fn view(&self) -> Seq<char> {
        self.encoded_payment_request@
    }
}

/// What a flow is set up with: where this node listens, and the paths of the
/// service's four endpoints under its base URL.
#[derive(Debug, PartialEq, Eq)]
pub struct FlowConfig {
    pub local_host: String,
    pub local_port: u16,
    pub channel_path: String,
    pub withdraw_path: String,
    pub challenge_path: String,
    pub response_path: String,
}

/// The mathematical value of a [`FlowConfig`].
pub struct FlowConfigView {
    pub local_host: Seq<char>,
    pub local_port: u16,
    pub channel_path: Seq<char>,
    pub withdraw_path: Seq<char>,
    pub challenge_path: Seq<char>,
    pub response_path: Seq<char>,
}

impl View for FlowConfig {
    type V = FlowConfigView;

    open spec fn view(&self) -> FlowConfigView {
        FlowConfigView {
            local_host: self.local_host@,
            local_port: self.local_port,
            channel_path: self.channel_path@,
            withdraw_path: self.withdraw_path@,
            challenge_path: self.challenge_path@,
            response_path: self.response_path@,
        }
    }
}

/// The configuration with the usual paths of the four endpoints.
pub open spec fn usual_config(local_host: Seq<char>, local_port: u16) -> FlowConfigView {
    FlowConfigView {
        local_host,
        local_port,
        channel_path: "request-channel"@,
        withdraw_path: "request-withdraw"@,
        challenge_path: "auth-challenge"@,
        response_path: "auth-response"@,
    }
}

impl FlowConfig {
    /// The configuration for a node that listens at `local_host:local_port`,
    /// with the usual paths of the four endpoints.
    pub fn new(local_host: String, local_port: u16) -> (config: FlowConfig)
        ensures
            config@ == usual_config(local_host@, local_port),
    {
        FlowConfig {
            local_host,
            local_port,
            channel_path: String::from_str("request-channel"),
            withdraw_path: String::from_str("request-withdraw"),
            challenge_path: String::from_str("auth-challenge"),
            response_path: String::from_str("auth-response"),
        }
    }
}

/// A piece of work that a flow asks its driver to do.
#[derive(Debug, PartialEq, Eq)]
pub enum Action {
    /// Ask the local node who it is.
    GetIdentity,
    /// Make an HTTP GET request.
    HttpGet { url: String },
    /// Have the local node connect to a peer.
    ConnectPeer { peer: PeerUri },
    /// Have the local node make an invoice.
    CreateInvoice { amount_msat: u64, label: String, description: String },
    /// Have the local node sign a message.
    SignMessage { message: String },
    /// Nothing to do outside: report [`Event::Resumed`].
    Resume,
    /// The flow has ended.
    Stop,
}

/// The mathematical value of an [`Action`].
pub enum ActionView {
    GetIdentity,
    HttpGet { url: Seq<char> },
    ConnectPeer { peer: PeerUriView },
    CreateInvoice { amount_msat: u64, label: Seq<char>, description: Seq<char> },
    SignMessage { message: Seq<char> },
    Resume,
    Stop,
}

impl View for Action {
    type V = ActionView;

    open spec fn view(&self) -> ActionView {
        match self {
            Action::GetIdentity => ActionView::GetIdentity,
            Action::HttpGet { url } => ActionView::HttpGet { url: url@ },
            Action::ConnectPeer { peer } => ActionView::ConnectPeer { peer: peer@ },
            Action::CreateInvoice { amount_msat, label, description } => {
                ActionView::CreateInvoice {
                    amount_msat: *amount_msat,
                    label: label@,
                    description: description@,
                }
            },
            Action::SignMessage { message } => ActionView::SignMessage { message: message@ },
            Action::Resume => ActionView::Resume,
            Action::Stop => ActionView::Stop,
        }
    }
}

impl ActionView {
    /// Whether the action reaches outside the flow: a request to the service
    /// or a call to the local node.
    pub open spec fn is_call(self) -> bool {
        !(self is Resume) && !(self is Stop)
    }
}

/// What came of a piece of work.
#[derive(Debug, PartialEq, Eq)]
pub enum Event {
    /// There was nothing to do.
    Resumed,
    /// The local node said who it is.
    Identity { public_key: String },
    /// The service answered an HTTP request.
    HttpResponse { status: u16, body: String },
    /// An HTTP request could not be completed.
    HttpFailure { detail: String },
    /// The local node is connected to the peer.
    PeerConnected,
    /// The local node made the invoice.
    InvoiceCreated { payment_request: String },
    /// The local node signed the message.
    MessageSigned { signature: String },
    /// The local node failed, or answered in a shape that was not expected.
    NodeFailure { reason: String },
}

/// The mathematical value of an [`Event`].
pub enum EventView {
    Resumed,
    Identity { public_key: Seq<char> },
    HttpResponse { status: u16, body: Seq<char> },
    HttpFailure { detail: Seq<char> },
    PeerConnected,
    InvoiceCreated { payment_request: Seq<char> },
    MessageSigned { signature: Seq<char> },
    NodeFailure { reason: Seq<char> },
}

impl View for Event {
    type V = EventView;

    open spec fn view(&self) -> EventView {
        match self {
            Event::Resumed => EventView::Resumed,
            Event::Identity { public_key } => EventView::Identity { public_key: public_key@ },
            Event::HttpResponse { status, body } => EventView::HttpResponse {
                status: *status,
                body: body@,
            },
            Event::HttpFailure { detail } => EventView::HttpFailure { detail: detail@ },
            Event::PeerConnected => EventView::PeerConnected,
            Event::InvoiceCreated { payment_request } => EventView::InvoiceCreated {
                payment_request: payment_request@,
            },
            Event::MessageSigned { signature } => EventView::MessageSigned {
                signature: signature@,
            },
            Event::NodeFailure { reason } => EventView::NodeFailure { reason: reason@ },
        }
    }
}

/// The URL of an endpoint: the base URL without the slashes at its end, a
/// slash, and the path.
pub open spec fn endpoint_url(base: Seq<char>, path: Seq<char>) -> Seq<char> {
    trim_end(base, '/') + "/"@ + path
}

/// The URL of an endpoint is the front of the base URL that does not end in
/// a slash, one slash, and the path: however many slashes the base URL ends
/// in, one stands before the path.
pub proof fn lemma_endpoint_has_one_slash(base: Seq<char>, path: Seq<char>)
    ensures
        ({
            let front = trim_end(base, '/');
            &&& front.len() <= base.len()
            &&& front == base.subrange(0, front.len() as int)
            &&& front.len() > 0 ==> front.last() != '/'
            &&& endpoint_url(base, path) == front + "/"@ + path
            &&& endpoint_url(base, path).len() == front.len() + 1 + path.len()
            &&& endpoint_url(base, path)[front.len() as int] == '/'
        }),
{
    reveal_strlit("/");
    lemma_trim_end(base, '/');
}

/// Builds the URL of an endpoint.
pub fn endpoint(base: &str, path: &str) -> (url: String)
    ensures
        url@ == endpoint_url(base@, path@),
{
    let chars = to_chars(base);
    let len = trimmed_len(chars.as_slice(), '/');
    let mut url = slice_text(chars.as_slice(), 0, len);
    url.append("/");
    url.append(path);
    url
}

/// The error for a request that could not be completed.
pub fn network_error(host: &str, port: Option<u16>, detail: String) -> (error: FlowError)
    ensures
        error@ == (FlowErrorView::NetworkError { host: host@, port, detail: detail@ }),
{
    FlowError::NetworkError { host: host.to_owned(), port, detail }
}

/// The error for a call that the local node failed.
pub fn node_error(reason: String) -> (error: FlowError)
    ensures
        error@ == (FlowErrorView::NodeError { reason: reason@ }),
{
    FlowError::NodeError { reason }
}

/// Whether an HTTP status says that the request succeeded.
pub open spec fn is_success(status: u16) -> bool {
    200 <= status < 300
}

/// How a callback that answers with a status and a reason ends: with
/// nothing where the service granted the request, and with a protocol error
/// otherwise. An answer whose HTTP status is not a success and that has a
/// body fails with the body as the reason, whatever the body holds. Any
/// other answer is taken as decoded: an answer that could not be decoded
/// fails with the decoder's error, a status other than `OK` with the reason
/// given, or with `Unknown error` where none is given.
pub open spec fn verdict_of(
    http_status: u16,
    body: Seq<char>,
    decoded: Result<(Status, Option<Seq<char>>), FlowErrorView>,
) -> Option<FlowErrorView> {
    if !is_success(http_status) && body.len() > 0 {
        Some(FlowErrorView::ProtocolError { reason: body })
    } else {
        match decoded {
            Err(e) => Some(e),
            Ok((Status::Granted, _)) => None,
            Ok((Status::Refused, Some(reason))) => Some(FlowErrorView::ProtocolError { reason }),
            Ok((Status::Refused, None)) => Some(
                FlowErrorView::ProtocolError { reason: "Unknown error"@ },
            ),
        }
    }
}

/// The view of a decoded status and reason.
pub open spec fn decoded_view(decoded: Result<(Status, Option<String>), FlowError>) -> Result<
    (Status, Option<Seq<char>>),
    FlowErrorView,
> {
    match decoded {
        Ok((status, reason)) => Ok((status, reason.deep_view())),
        Err(e) => Err(e@),
    }
}

/// Decides how a callback ended.
pub fn verdict(
    http_status: u16,
    body: String,
    decoded: Result<(Status, Option<String>), FlowError>,
) -> (error: Option<FlowError>)
    ensures
        crate::model::option_view(error) == verdict_of(http_status, body@, decoded_view(decoded)),
{
    if !(200 <= http_status && http_status < 300) && !body.as_str().is_empty() {
        return Some(protocol_error(body));
    }
    match decoded {
        Err(e) => Some(e),
        Ok((Status::Granted, _)) => None,
        Ok((Status::Refused, Some(reason))) => Some(protocol_error(reason)),
        Ok((Status::Refused, None)) => Some(protocol_error(String::from_str("Unknown error"))),
    }
}

} // verus!
