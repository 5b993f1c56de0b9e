//! What the service answers: the parameters of a channel and of a
//! withdrawal, the challenge of an authentication, and the outcome of each
//! callback.
//!
//! Every answer is a JSON text. A decoder reads the members it needs from the
//! text and hands them to a function that builds the value from them; that
//! function says, for every combination of members, what is built and which
//! error is returned.

use crate::address::{parse_url, parts_view, url_address, url_parts, ServerAddress, ServerAddressView, UrlParts};
use crate::error::{FlowError, FlowErrorView};
use crate::json::{
    json_string, json_string_member, json_unsigned_member, read_string, read_string_member,
    read_unsigned_member,
};
use crate::model::result_view;
use crate::peer::{peer_of, PeerUri, PeerUriView};
use crate::text::same_text;
use vstd::prelude::*;
use vstd::string::StringExecFns;

verus! {

/// The protocol error with the given reason.
pub fn protocol_error(reason: String) -> (error: FlowError)
    ensures
        error@ == (FlowErrorView::ProtocolError { reason: reason@ }),
{
    FlowError::ProtocolError { reason }
}

/// `head` followed by `tail`.
fn joined(head: &str, tail: &str) -> (text: String)
    ensures
        text@ == head@ + tail@,
{
    let mut text = String::from_str(head);
    text.append(tail);
    text
}

/// What the service offers for a channel: the peer to connect to, the URL to
/// call back, and the token `k1` to hand back with the call.
#[derive(Debug, PartialEq, Eq)]
pub struct ChannelParameters {
    pub peer: PeerUri,
    pub callback: ServerAddress,
    pub k1: String,
    pub tag: String,
}

/// The mathematical value of [`ChannelParameters`].
pub struct ChannelParametersView {
    pub peer: PeerUriView,
    pub callback: ServerAddressView,
    pub k1: Seq<char>,
    pub tag: Seq<char>,
}

impl View for ChannelParameters {
    type V = ChannelParametersView;

    open spec fn view(&self) -> ChannelParametersView {
        ChannelParametersView {
            peer: self.peer@,
            callback: self.callback@,
            k1: self.k1@,
            tag: self.tag@,
        }
    }
}

/// The channel parameters that the members `uri`, `callback`, `k1` and `tag`
/// of an answer make, `callback_parts` being what the URL parser made of
/// `callback`. All four members are needed; `uri` has to name a peer and
/// `callback` has to be a URL with a host.
pub open spec fn channel_parameters_of(
    uri: Option<Seq<char>>,
    callback: Option<Seq<char>>,
    callback_parts: Option<(Seq<char>, Option<Seq<char>>, Option<u16>)>,
    k1: Option<Seq<char>>,
    tag: Option<Seq<char>>,
) -> Result<ChannelParametersView, FlowErrorView> {
    match (uri, callback, k1, tag) {
        (Some(uri), Some(callback), Some(k1), Some(tag)) => {
            match peer_of(uri) {
                None => Err(FlowErrorView::ProtocolError { reason: "Malformed peer URI: "@ + uri }),
                Some(peer) => {
                    match url_address(callback, callback_parts) {
                        None => Err(
                            FlowErrorView::ProtocolError {
                                reason: "Malformed callback URL: "@ + callback,
                            },
                        ),
                        Some(address) => Ok(
                            ChannelParametersView { peer, callback: address, k1, tag },
                        ),
                    }
                },
            }
        },
        _ => Err(FlowErrorView::ProtocolError { reason: "Malformed channel parameters"@ }),
    }
}

/// The channel parameters that an answer holds.
pub open spec fn decoded_channel_parameters(body: Seq<char>) -> Result<
    ChannelParametersView,
    FlowErrorView,
> {
    let callback = json_string_member(body, "callback"@);
    channel_parameters_of(
        json_string_member(body, "uri"@),
        callback,
        match callback {
            Some(c) => url_parts(c),
            None => None,
        },
        json_string_member(body, "k1"@),
        json_string_member(body, "tag"@),
    )
}

impl ChannelParameters {
    /// Builds the parameters from the members of an answer.
    pub fn from_members(
        uri: Option<String>,
        callback: Option<String>,
        callback_parts: Option<UrlParts>,
        k1: Option<String>,
        tag: Option<String>,
    ) -> (parameters: Result<ChannelParameters, FlowError>)
        ensures
            result_view(parameters) == channel_parameters_of(
                uri.deep_view(),
                callback.deep_view(),
                parts_view(callback_parts),
                k1.deep_view(),
                tag.deep_view(),
            ),
    {
        match (uri, callback, k1, tag) {
            (Some(uri), Some(callback), Some(k1), Some(tag)) => {
                let peer = match PeerUri::parse(uri.as_str()) {
                    Ok(peer) => peer,
                    Err(_) => {
                        return Err(protocol_error(joined("Malformed peer URI: ", uri.as_str())));
                    },
                };
                match ServerAddress::from_parts(callback.as_str(), callback_parts) {
                    Some(address) => Ok(ChannelParameters { peer, callback: address, k1, tag }),
                    None => Err(
                        protocol_error(joined("Malformed callback URL: ", callback.as_str())),
                    ),
                }
            },
            _ => Err(protocol_error(String::from_str("Malformed channel parameters"))),
        }
    }

    /// Reads the parameters from the answer to the request for a channel.
    pub fn decode(body: &str) -> (parameters: Result<ChannelParameters, FlowError>)
        ensures
            result_view(parameters) == decoded_channel_parameters(body@),
    {
        let callback = read_string_member(body, "callback");
        let callback_parts = match &callback {
            Some(c) => parse_url(c.as_str()),
            None => None,
        };
        ChannelParameters::from_members(
            read_string_member(body, "uri"),
            callback,
            callback_parts,
            read_string_member(body, "k1"),
            read_string_member(body, "tag"),
        )
    }

    /// A copy of these parameters.
    pub fn duplicate(&self) -> (copy: ChannelParameters)
        ensures
            copy@ == self@,
    {
        ChannelParameters {
            peer: self.peer.duplicate(),
            callback: self.callback.duplicate(),
            k1: self.k1.clone(),
            tag: self.tag.clone(),
        }
    }
}

/// What the service offers for a withdrawal: the URL to call back, the token
/// `k1`, a description to use where the caller gives none, and the least and
/// the greatest amount that may be withdrawn, in millisatoshi. The least is
/// never above the greatest.
#[derive(Debug, PartialEq, Eq)]
pub struct WithdrawParameters {
    callback: ServerAddress,
    k1: String,
    tag: String,
    default_description: String,
    min_withdrawable_msat: u64,
    max_withdrawable_msat: u64,
}

/// The mathematical value of [`WithdrawParameters`].
pub struct WithdrawParametersView {
    pub callback: ServerAddressView,
    pub k1: Seq<char>,
    pub tag: Seq<char>,
    pub default_description: Seq<char>,
    pub min_withdrawable_msat: u64,
    pub max_withdrawable_msat: u64,
}

impl WithdrawParametersView {
    /// The least amount is not above the greatest.
    pub open spec fn wf(self) -> bool {
        self.min_withdrawable_msat <= self.max_withdrawable_msat
    }
}

impl View for WithdrawParameters {
    type V = WithdrawParametersView;

    closed spec fn view(&self) -> WithdrawParametersView {
        WithdrawParametersView {
            callback: self.callback@,
            k1: self.k1@,
            tag: self.tag@,
            default_description: self.default_description@,
            min_withdrawable_msat: self.min_withdrawable_msat,
            max_withdrawable_msat: self.max_withdrawable_msat,
        }
    }
}

/// The withdraw parameters that the members `callback`, `k1`, `tag`,
/// `defaultDescription`, `minWithdrawable` and `maxWithdrawable` of an answer
/// make, `callback_parts` being what the URL parser made of `callback`. All
/// six members are needed, `callback` has to be a URL with a host, and the
/// least amount must not be above the greatest.
pub open spec fn withdraw_parameters_of(
    callback: Option<Seq<char>>,
    callback_parts: Option<(Seq<char>, Option<Seq<char>>, Option<u16>)>,
    k1: Option<Seq<char>>,
    tag: Option<Seq<char>>,
    default_description: Option<Seq<char>>,
    min_withdrawable: Option<u64>,
    max_withdrawable: Option<u64>,
) -> Result<WithdrawParametersView, FlowErrorView> {
    match (callback, k1, tag, default_description, min_withdrawable, max_withdrawable) {
        (Some(callback), Some(k1), Some(tag), Some(description), Some(min), Some(max)) => {
            match url_address(callback, callback_parts) {
                None => Err(
                    FlowErrorView::ProtocolError { reason: "Malformed callback URL: "@ + callback },
                ),
                Some(address) => {
                    if min <= max {
                        Ok(
                            WithdrawParametersView {
                                callback: address,
                                k1,
                                tag,
                                default_description: description,
                                min_withdrawable_msat: min,
                                max_withdrawable_msat: max,
                            },
                        )
                    } else {
                        Err(
                            FlowErrorView::ProtocolError {
                                reason: "Withdrawable range is empty"@,
                            },
                        )
                    }
                },
            }
        },
        _ => Err(FlowErrorView::ProtocolError { reason: "Malformed withdraw parameters"@ }),
    }
}

/// The withdraw parameters that an answer holds.
pub open spec fn decoded_withdraw_parameters(body: Seq<char>) -> Result<
    WithdrawParametersView,
    FlowErrorView,
> {
    let callback = json_string_member(body, "callback"@);
    withdraw_parameters_of(
        callback,
        match callback {
            Some(c) => url_parts(c),
            None => None,
        },
        json_string_member(body, "k1"@),
        json_string_member(body, "tag"@),
        json_string_member(body, "defaultDescription"@),
        json_unsigned_member(body, "minWithdrawable"@),
        json_unsigned_member(body, "maxWithdrawable"@),
    )
}

impl WithdrawParameters {
    #[verifier::type_invariant]
    spec fn well_formed(self) -> bool {
        self@.wf()
    }

    /// Builds the parameters from the members of an answer.
    pub fn from_members(
        callback: Option<String>,
        callback_parts: Option<UrlParts>,
        k1: Option<String>,
        tag: Option<String>,
        default_description: Option<String>,
        min_withdrawable: Option<u64>,
        max_withdrawable: Option<u64>,
    ) -> (parameters: Result<WithdrawParameters, FlowError>)
        ensures
            result_view(parameters) == withdraw_parameters_of(
                callback.deep_view(),
                parts_view(callback_parts),
                k1.deep_view(),
                tag.deep_view(),
                default_description.deep_view(),
                min_withdrawable,
                max_withdrawable,
            ),
    {
        match (callback, k1, tag, default_description, min_withdrawable, max_withdrawable) {
            (Some(callback), Some(k1), Some(tag), Some(description), Some(min), Some(max)) => {
                match ServerAddress::from_parts(callback.as_str(), callback_parts) {
                    None => Err(
                        protocol_error(joined("Malformed callback URL: ", callback.as_str())),
                    ),
                    Some(address) => {
                        if min <= max {
                            Ok(
                                WithdrawParameters {
                                    callback: address,
                                    k1,
                                    tag,
                                    default_description: description,
                                    min_withdrawable_msat: min,
                                    max_withdrawable_msat: max,
                                },
                            )
                        } else {
                            Err(protocol_error(String::from_str("Withdrawable range is empty")))
                        }
                    },
                }
            },
            _ => Err(protocol_error(String::from_str("Malformed withdraw parameters"))),
        }
    }

    /// Reads the parameters from the answer to the request for a withdrawal.
    pub fn decode(body: &str) -> (parameters: Result<WithdrawParameters, FlowError>)
        ensures
            result_view(parameters) == decoded_withdraw_parameters(body@),
    {
        let callback = read_string_member(body, "callback");
        let callback_parts = match &callback {
            Some(c) => parse_url(c.as_str()),
            None => None,
        };
        WithdrawParameters::from_members(
            callback,
            callback_parts,
            read_string_member(body, "k1"),
            read_string_member(body, "tag"),
            read_string_member(body, "defaultDescription"),
            read_unsigned_member(body, "minWithdrawable"),
            read_unsigned_member(body, "maxWithdrawable"),
        )
    }

    /// The URL to call back. The parameters are well formed.
    pub fn callback(&self) -> (callback: &ServerAddress)
        ensures
            callback@ == self@.callback,
            self@.wf(),
    {
        proof {
            use_type_invariant(self);
        }
        &self.callback
    }

    /// The token to hand back with the callback.
    pub fn k1(&self) -> (k1: &str)
        ensures
            k1@ == self@.k1,
    {
        self.k1.as_str()
    }

    /// The tag of the answer.
    pub fn tag(&self) -> (tag: &str)
        ensures
            tag@ == self@.tag,
    {
        self.tag.as_str()
    }

    /// The description to use where the caller gives none.
    pub fn default_description(&self) -> (description: &str)
        ensures
            description@ == self@.default_description,
    {
        self.default_description.as_str()
    }

    /// The least amount that may be withdrawn, in millisatoshi.
    pub fn min_withdrawable_msat(&self) -> (min: u64)
        ensures
            min == self@.min_withdrawable_msat,
            min <= self@.max_withdrawable_msat,
    {
        proof {
            use_type_invariant(self);
        }
        self.min_withdrawable_msat
    }

    /// The greatest amount that may be withdrawn, in millisatoshi.
    pub fn max_withdrawable_msat(&self) -> (max: u64)
        ensures
            max == self@.max_withdrawable_msat,
            self@.min_withdrawable_msat <= max,
    {
        proof {
            use_type_invariant(self);
        }
        self.max_withdrawable_msat
    }

    /// A copy of these parameters.
    pub fn duplicate(&self) -> (copy: WithdrawParameters)
        ensures
            copy@ == self@,
    {
        proof {
            use_type_invariant(self);
        }
        WithdrawParameters {
            callback: self.callback.duplicate(),
            k1: self.k1.clone(),
            tag: self.tag.clone(),
            default_description: self.default_description.clone(),
            min_withdrawable_msat: self.min_withdrawable_msat,
            max_withdrawable_msat: self.max_withdrawable_msat,
        }
    }
}

/// The challenge of an authentication: the token `k1` that the node signs.
#[derive(Debug, PartialEq, Eq)]
pub struct AuthChallenge {
    pub k1: String,
}

impl View for AuthChallenge {
    type V = Seq<char>;

    open spec fn view(&self) -> Seq<char> {
        self.k1@
    }
}

/// The token of a challenge, given the answer as one JSON string (`bare`)
/// and the member `k1` of the answer as an object (`wrapped`): the service
/// may send either, and both mean the same.
pub open spec fn challenge_of(bare: Option<Seq<char>>, wrapped: Option<Seq<char>>) -> Result<
    Seq<char>,
    FlowErrorView,
> {
    match (bare, wrapped) {
        (Some(k1), _) => Ok(k1),
        (None, Some(k1)) => Ok(k1),
        (None, None) => Err(FlowErrorView::ProtocolError { reason: "Malformed auth challenge"@ }),
    }
}

/// The token of the challenge that an answer holds.
pub open spec fn decoded_challenge(body: Seq<char>) -> Result<Seq<char>, FlowErrorView> {
    challenge_of(json_string(body), json_string_member(body, "k1"@))
}

impl AuthChallenge {
    /// Builds the challenge from the two shapes in which it may arrive.
    pub fn from_shapes(bare: Option<String>, wrapped: Option<String>) -> (challenge: Result<
        AuthChallenge,
        FlowError,
    >)
        ensures
            result_view(challenge) == challenge_of(bare.deep_view(), wrapped.deep_view()),
    {
        match (bare, wrapped) {
            (Some(k1), _) => Ok(AuthChallenge { k1 }),
            (None, Some(k1)) => Ok(AuthChallenge { k1 }),
            (None, None) => Err(protocol_error(String::from_str("Malformed auth challenge"))),
        }
    }

    /// Reads the challenge from the answer to the request for one.
    pub fn decode(body: &str) -> (challenge: Result<AuthChallenge, FlowError>)
        ensures
            result_view(challenge) == decoded_challenge(body@),
    {
        AuthChallenge::from_shapes(read_string(body), read_string_member(body, "k1"))
    }
}

/// Whether the service granted what was asked.
#[derive(Clone, Copy, Debug, PartialEq, Eq, Structural)]
pub enum Status {
    /// The answer said `OK`.
    Granted,
    /// The answer said `ERROR`, or anything else.
    Refused,
}

/// The status that a text stands for: `OK` grants, anything else refuses.
pub open spec fn status_of(text: Seq<char>) -> Status {
    if text == "OK"@ {
        Status::Granted
    } else {
        Status::Refused
    }
}

/// Reads a status.
pub fn read_status(text: &str) -> (status: Status)
    ensures
        status == status_of(text@),
{
    if same_text(text, "OK") {
        Status::Granted
    } else {
        Status::Refused
    }
}

/// How the request to open a channel ended.
#[derive(Debug, PartialEq, Eq)]
pub struct ChannelOutcome {
    pub status: Status,
    pub reason: Option<String>,
    pub transaction_id: Option<String>,
    pub channel_id: Option<String>,
}

/// The mathematical value of a [`ChannelOutcome`].
pub struct ChannelOutcomeView {
    pub status: Status,
    pub reason: Option<Seq<char>>,
    pub transaction_id: Option<Seq<char>>,
    pub channel_id: Option<Seq<char>>,
}

impl View for ChannelOutcome {
    type V = ChannelOutcomeView;

    open spec fn view(&self) -> ChannelOutcomeView {
        ChannelOutcomeView {
            status: self.status,
            reason: self.reason.deep_view(),
            transaction_id: self.transaction_id.deep_view(),
            channel_id: self.channel_id.deep_view(),
        }
    }
}

/// The outcome that the members `status`, `reason`, `txid` and `channel_id`
/// of an answer make. Only `status` is needed.
pub open spec fn channel_outcome_of(
    status: Option<Seq<char>>,
    reason: Option<Seq<char>>,
    txid: Option<Seq<char>>,
    channel_id: Option<Seq<char>>,
) -> Result<ChannelOutcomeView, FlowErrorView> {
    match status {
        Some(status) => Ok(
            ChannelOutcomeView {
                status: status_of(status),
                reason,
                transaction_id: txid,
                channel_id,
            },
        ),
        None => Err(FlowErrorView::ProtocolError { reason: "Malformed channel outcome"@ }),
    }
}

/// The channel outcome that an answer holds.
pub open spec fn decoded_channel_outcome(body: Seq<char>) -> Result<
    ChannelOutcomeView,
    FlowErrorView,
> {
    channel_outcome_of(
        json_string_member(body, "status"@),
        json_string_member(body, "reason"@),
        json_string_member(body, "txid"@),
        json_string_member(body, "channel_id"@),
    )
}

impl ChannelOutcome {
    /// Builds the outcome from the members of an answer.
    pub fn from_members(
        status: Option<String>,
        reason: Option<String>,
        txid: Option<String>,
        channel_id: Option<String>,
    ) -> (outcome: Result<ChannelOutcome, FlowError>)
        ensures
            result_view(outcome) == channel_outcome_of(
                status.deep_view(),
                reason.deep_view(),
                txid.deep_view(),
                channel_id.deep_view(),
            ),
    {
        match status {
            Some(status) => Ok(
                ChannelOutcome {
                    status: read_status(status.as_str()),
                    reason,
                    transaction_id: txid,
                    channel_id,
                },
            ),
            None => Err(protocol_error(String::from_str("Malformed channel outcome"))),
        }
    }

    /// Reads the outcome from the answer to the callback.
    pub fn decode(body: &str) -> (outcome: Result<ChannelOutcome, FlowError>)
        ensures
            result_view(outcome) == decoded_channel_outcome(body@),
    {
        ChannelOutcome::from_members(
            read_string_member(body, "status"),
            read_string_member(body, "reason"),
            read_string_member(body, "txid"),
            read_string_member(body, "channel_id"),
        )
    }
}

/// How a withdrawal ended.
#[derive(Debug, PartialEq, Eq)]
pub struct WithdrawOutcome {
    pub status: Status,
    pub reason: Option<String>,
}

/// How an authentication ended.
#[derive(Debug, PartialEq, Eq)]
pub struct AuthOutcome {
    pub status: Status,
    pub reason: Option<String>,
}

/// The mathematical value of a [`WithdrawOutcome`] or an [`AuthOutcome`].
pub struct OutcomeView {
    pub status: Status,
    pub reason: Option<Seq<char>>,
}

impl View for WithdrawOutcome {
    type V = OutcomeView;

    open spec fn view(&self) -> OutcomeView {
        OutcomeView { status: self.status, reason: self.reason.deep_view() }
    }
}

impl View for AuthOutcome {
    type V = OutcomeView;

    open spec fn view(&self) -> OutcomeView {
        OutcomeView { status: self.status, reason: self.reason.deep_view() }
    }
}

/// The outcome that the members `status` and `reason` of an answer make,
/// `what` naming the answer. Only `status` is needed.
pub open spec fn outcome_of(status: Option<Seq<char>>, reason: Option<Seq<char>>, what: Seq<char>) -> Result<
    OutcomeView,
    FlowErrorView,
> {
    match status {
        Some(status) => Ok(OutcomeView { status: status_of(status), reason }),
        None => Err(FlowErrorView::ProtocolError { reason: "Malformed "@ + what + " outcome"@ }),
    }
}

/// The outcome that an answer holds.
pub open spec fn decoded_outcome(body: Seq<char>, what: Seq<char>) -> Result<
    OutcomeView,
    FlowErrorView,
> {
    outcome_of(json_string_member(body, "status"@), json_string_member(body, "reason"@), what)
}

/// The error for an answer without a status.
fn malformed_outcome(what: &str) -> (error: FlowError)
    ensures
        error@ == (FlowErrorView::ProtocolError { reason: "Malformed "@ + what@ + " outcome"@ }),
{
    let mut reason = String::from_str("Malformed ");
    reason.append(what);
    reason.append(" outcome");
    protocol_error(reason)
}

impl WithdrawOutcome {
    /// Builds the outcome from the members of an answer.
    pub fn from_members(status: Option<String>, reason: Option<String>) -> (outcome: Result<
        WithdrawOutcome,
        FlowError,
    >)
        ensures
            result_view(outcome) == outcome_of(
                status.deep_view(),
                reason.deep_view(),
                "withdraw"@,
            ),
    {
        match status {
            Some(status) => Ok(WithdrawOutcome { status: read_status(status.as_str()), reason }),
            None => Err(malformed_outcome("withdraw")),
        }
    }

    /// Reads the outcome from the answer to the callback.
    pub fn decode(body: &str) -> (outcome: Result<WithdrawOutcome, FlowError>)
        ensures
            result_view(outcome) == decoded_outcome(body@, "withdraw"@),
    {
        WithdrawOutcome::from_members(
            read_string_member(body, "status"),
            read_string_member(body, "reason"),
        )
    }
}

impl AuthOutcome {
    /// Builds the outcome from the members of an answer.
    pub fn from_members(status: Option<String>, reason: Option<String>) -> (outcome: Result<
        AuthOutcome,
        FlowError,
    >)
        ensures
            result_view(outcome) == outcome_of(status.deep_view(), reason.deep_view(), "auth"@),
    {
        match status {
            Some(status) => Ok(AuthOutcome { status: read_status(status.as_str()), reason }),
            None => Err(malformed_outcome("auth")),
        }
    }

    /// Reads the outcome from the answer to the response.
    pub fn decode(body: &str) -> (outcome: Result<AuthOutcome, FlowError>)
        ensures
            result_view(outcome) == decoded_outcome(body@, "auth"@),
    {
        AuthOutcome::from_members(
            read_string_member(body, "status"),
            read_string_member(body, "reason"),
        )
    }
}

} // verus!
