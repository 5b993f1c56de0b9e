//! What can end a flow early, and how it is reported.

use crate::decimal::{decimal, push_decimal};
use crate::text::occurs_in;
use vstd::prelude::*;
use vstd::string::StringExecFns;

verus! {

/// A value that breaks a rule it was declared to keep.
#[derive(Debug, PartialEq, Eq)]
pub enum Violation {
    /// The amount asked for lies outside the range the service allows.
    AmountOutOfRange { amount_msat: u64, min_msat: u64, max_msat: u64 },
    /// The text is no `pubkey@host:port`.
    MalformedPeerUri { uri: String },
}

/// The mathematical value of a [`Violation`].
pub enum ViolationView {
    AmountOutOfRange { amount_msat: u64, min_msat: u64, max_msat: u64 },
    MalformedPeerUri { uri: Seq<char> },
}

impl View for Violation {
    type V = ViolationView;

    open spec fn view(&self) -> ViolationView {
        match self {
            Violation::AmountOutOfRange { amount_msat, min_msat, max_msat } => {
                ViolationView::AmountOutOfRange {
                    amount_msat: *amount_msat,
                    min_msat: *min_msat,
                    max_msat: *max_msat,
                }
            },
            Violation::MalformedPeerUri { uri } => ViolationView::MalformedPeerUri { uri: uri@ },
        }
    }
}

impl Clone for Violation {
    fn clone(&self) -> (copy: Self)
        ensures
            copy@ == self@,
    {
        match self {
            Violation::AmountOutOfRange { amount_msat, min_msat, max_msat } => {
                Violation::AmountOutOfRange {
                    amount_msat: *amount_msat,
                    min_msat: *min_msat,
                    max_msat: *max_msat,
                }
            },
            Violation::MalformedPeerUri { uri } => Violation::MalformedPeerUri { uri: uri.clone() },
        }
    }
}

/// Why a flow stopped. Every error ends the flow it occurs in: none is
/// retried.
#[derive(Debug, PartialEq, Eq)]
pub enum FlowError {
    /// The address given is neither a URL nor an IP address with or without a
    /// port.
    InvalidAddress { input: String },
    /// A value breaks a rule it was declared to keep.
    ValidationError { violation: Violation },
    /// A request could not be completed; `host` and `port` say where it was
    /// going.
    NetworkError { host: String, port: Option<u16>, detail: String },
    /// The service answered, but not with what the protocol asks for.
    ProtocolError { reason: String },
    /// The local node failed, or answered in a shape that was not expected.
    NodeError { reason: String },
}

/// The mathematical value of a [`FlowError`].
pub enum FlowErrorView {
    InvalidAddress { input: Seq<char> },
    ValidationError { violation: ViolationView },
    NetworkError { host: Seq<char>, port: Option<u16>, detail: Seq<char> },
    ProtocolError { reason: Seq<char> },
    NodeError { reason: Seq<char> },
}

impl View for FlowError {
    type V = FlowErrorView;

    open spec fn view(&self) -> FlowErrorView {
        match self {
            FlowError::InvalidAddress { input } => FlowErrorView::InvalidAddress { input: input@ },
            FlowError::ValidationError { violation } => FlowErrorView::ValidationError {
                violation: violation@,
            },
            FlowError::NetworkError { host, port, detail } => FlowErrorView::NetworkError {
                host: host@,
                port: *port,
                detail: detail@,
            },
            FlowError::ProtocolError { reason } => FlowErrorView::ProtocolError {
                reason: reason@,
            },
            FlowError::NodeError { reason } => FlowErrorView::NodeError { reason: reason@ },
        }
    }
}

impl Clone for FlowError {
    fn clone(&self) -> (copy: Self)
        ensures
            copy@ == self@,
    {
        match self {
            FlowError::InvalidAddress { input } => FlowError::InvalidAddress {
                input: input.clone(),
            },
            FlowError::ValidationError { violation } => FlowError::ValidationError {
                violation: violation.clone(),
            },
            FlowError::NetworkError { host, port, detail } => FlowError::NetworkError {
                host: host.clone(),
                port: *port,
                detail: detail.clone(),
            },
            FlowError::ProtocolError { reason } => FlowError::ProtocolError {
                reason: reason.clone(),
            },
            FlowError::NodeError { reason } => FlowError::NodeError { reason: reason.clone() },
        }
    }
}

/// The five kinds of error.
#[derive(Clone, Copy, Debug, PartialEq, Eq, Structural)]
pub enum ErrorKind {
    InvalidAddress,
    Validation,
    Network,
    Protocol,
    Node,
}

/// The kind of an error.
pub open spec fn kind_of(error: FlowErrorView) -> ErrorKind {
    match error {
        FlowErrorView::InvalidAddress { .. } => ErrorKind::InvalidAddress,
        FlowErrorView::ValidationError { .. } => ErrorKind::Validation,
        FlowErrorView::NetworkError { .. } => ErrorKind::Network,
        FlowErrorView::ProtocolError { .. } => ErrorKind::Protocol,
        FlowErrorView::NodeError { .. } => ErrorKind::Node,
    }
}

/// The words in which a violation is reported.
pub open spec fn violation_message(violation: ViolationView) -> Seq<char> {
    match violation {
        ViolationView::AmountOutOfRange { amount_msat, min_msat, max_msat } => {
            "Amount "@ + decimal(amount_msat as nat) + " msat is outside allowed range ["@
                + decimal(min_msat as nat) + ", "@ + decimal(max_msat as nat) + "]"@
        },
        ViolationView::MalformedPeerUri { uri } => "Malformed peer URI: "@ + uri,
    }
}

/// The place a request was going to, as `host` or `host:port`.
pub open spec fn target_text(host: Seq<char>, port: Option<u16>) -> Seq<char> {
    match port {
        Some(p) => host + ":"@ + decimal(p as nat),
        None => host,
    }
}

/// The words in which an error is reported.
pub open spec fn message_of(error: FlowErrorView) -> Seq<char> {
    match error {
        FlowErrorView::InvalidAddress { input } => "Invalid server address: "@ + input,
        FlowErrorView::ValidationError { violation } => violation_message(violation),
        FlowErrorView::NetworkError { host, port, detail } => {
            "Network error reaching "@ + target_text(host, port) + ": "@ + detail
        },
        FlowErrorView::ProtocolError { reason } => "Protocol error: "@ + reason,
        FlowErrorView::NodeError { reason } => "Node error: "@ + reason,
    }
}

/// A part of a text occurs in the text.
pub proof fn lemma_part_occurs(before: Seq<char>, part: Seq<char>, after: Seq<char>)
    ensures
        occurs_in(part, before + part + after),
{
    let whole = before + part + after;
    let at = before.len() as int;
    assert(whole.subrange(at, at + part.len()) == part);
}

/// The message of an error names what the error carries: the address that
/// was refused, the host and the port that could not be reached, the reason
/// that the service or the node gave.
pub proof fn lemma_message_mentions(error: FlowErrorView)
    ensures
        error matches FlowErrorView::InvalidAddress { input } ==> occurs_in(
            input,
            message_of(error),
        ),
        error matches FlowErrorView::NetworkError { host, port, detail } ==> {
            &&& occurs_in(host, message_of(error))
            &&& occurs_in(detail, message_of(error))
            &&& port matches Some(p) ==> occurs_in(decimal(p as nat), message_of(error))
        },
        error matches FlowErrorView::ProtocolError { reason } ==> occurs_in(
            reason,
            message_of(error),
        ),
        error matches FlowErrorView::NodeError { reason } ==> occurs_in(reason, message_of(error)),
        error matches FlowErrorView::ValidationError {
            violation: ViolationView::AmountOutOfRange { amount_msat, min_msat, max_msat },
        } ==> {
            &&& occurs_in(decimal(min_msat as nat), message_of(error))
            &&& occurs_in(decimal(max_msat as nat), message_of(error))
        },
{
    let empty = Seq::<char>::empty();
    match error {
        FlowErrorView::InvalidAddress { input } => {
            lemma_part_occurs("Invalid server address: "@, input, empty);
            assert("Invalid server address: "@ + input + empty == message_of(error));
        },
        FlowErrorView::NetworkError { host, port, detail } => {
            let head = "Network error reaching "@;
            lemma_part_occurs(head + target_text(host, port) + ": "@, detail, empty);
            assert(head + target_text(host, port) + ": "@ + detail + empty == message_of(error));
            match port {
                Some(p) => {
                    let digits = decimal(p as nat);
                    lemma_part_occurs(head, host, ":"@ + digits + ": "@ + detail);
                    assert(head + host + (":"@ + digits + ": "@ + detail) == message_of(error));
                    lemma_part_occurs(head + host + ":"@, digits, ": "@ + detail);
                    assert(head + host + ":"@ + digits + (": "@ + detail) == message_of(error));
                },
                None => {
                    lemma_part_occurs(head, host, ": "@ + detail);
                    assert(head + host + (": "@ + detail) == message_of(error));
                },
            }
        },
        FlowErrorView::ProtocolError { reason } => {
            lemma_part_occurs("Protocol error: "@, reason, empty);
            assert("Protocol error: "@ + reason + empty == message_of(error));
        },
        FlowErrorView::NodeError { reason } => {
            lemma_part_occurs("Node error: "@, reason, empty);
            assert("Node error: "@ + reason + empty == message_of(error));
        },
        FlowErrorView::ValidationError { violation } => {
            match violation {
                ViolationView::AmountOutOfRange { amount_msat, min_msat, max_msat } => {
                    let head = "Amount "@ + decimal(amount_msat as nat)
                        + " msat is outside allowed range ["@;
                    let low = decimal(min_msat as nat);
                    let high = decimal(max_msat as nat);
                    lemma_part_occurs(head, low, ", "@ + high + "]"@);
                    assert(head + low + (", "@ + high + "]"@) == message_of(error));
                    lemma_part_occurs(head + low + ", "@, high, "]"@);
                },
                ViolationView::MalformedPeerUri { .. } => {},
            }
        },
    }
}

impl FlowError {
    /// The kind of this error.
    pub fn kind(&self) -> (kind: ErrorKind)
        ensures
            kind == kind_of(self@),
    {
        match self {
            FlowError::InvalidAddress { .. } => ErrorKind::InvalidAddress,
            FlowError::ValidationError { .. } => ErrorKind::Validation,
            FlowError::NetworkError { .. } => ErrorKind::Network,
            FlowError::ProtocolError { .. } => ErrorKind::Protocol,
            FlowError::NodeError { .. } => ErrorKind::Node,
        }
    }

    /// The words in which this error is reported.
    pub fn message(&self) -> (text: String)
        ensures
            text@ == message_of(self@),
    {
        match self {
            FlowError::InvalidAddress { input } => {
                let mut text = String::from_str("Invalid server address: ");
                text.append(input.as_str());
                text
            },
            FlowError::ValidationError { violation } => {
                match violation {
                    Violation::AmountOutOfRange { amount_msat, min_msat, max_msat } => {
                        let mut text = String::from_str("Amount ");
                        push_decimal(&mut text, *amount_msat as u128);
                        text.append(" msat is outside allowed range [");
                        push_decimal(&mut text, *min_msat as u128);
                        text.append(", ");
                        push_decimal(&mut text, *max_msat as u128);
                        text.append("]");
                        text
                    },
                    Violation::MalformedPeerUri { uri } => {
                        let mut text = String::from_str("Malformed peer URI: ");
                        text.append(uri.as_str());
                        text
                    },
                }
            },
            FlowError::NetworkError { host, port, detail } => {
                let mut text = String::from_str("Network error reaching ");
                text.append(host.as_str());
                match port {
                    Some(p) => {
                        text.append(":");
                        push_decimal(&mut text, *p as u128);
                    },
                    None => {},
                }
                text.append(": ");
                text.append(detail.as_str());
                text
            },
            FlowError::ProtocolError { reason } => {
                let mut text = String::from_str("Protocol error: ");
                text.append(reason.as_str());
                text
            },
            FlowError::NodeError { reason } => {
                let mut text = String::from_str("Node error: ");
                text.append(reason.as_str());
                text
            },
        }
    }
}

} // verus!
