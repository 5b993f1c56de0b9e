//! The local node driven through its command-line tool: the arguments that
//! each piece of work takes, and what the tool's output means.
//!
//! Running the tool is the driver's part. It hands back whether the tool
//! succeeded and what it wrote; the functions here turn that into the event
//! that the flow waits for.

use crate::decimal::{decimal, push_decimal};
use crate::flow::{Action, ActionView, Event, EventView};
use crate::json::{json_string_member, read_string_member};
use crate::model::option_view;
use crate::peer::peer_of;
use crate::text::{contains_text, occurs_in, to_chars};
use vstd::prelude::*;
use vstd::string::StringExecFns;

verus! {

/// What the tool left behind: whether it succeeded, and what it wrote to its
/// output and to its error stream.
#[derive(Debug, PartialEq, Eq)]
pub struct CommandOutput {
    pub success: bool,
    pub stdout: String,
    pub stderr: String,
}

/// The mathematical value of a [`CommandOutput`].
pub struct CommandOutputView {
    pub success: bool,
    pub stdout: Seq<char>,
    pub stderr: Seq<char>,
}

impl View for CommandOutput {
    type V = CommandOutputView;

    open spec fn view(&self) -> CommandOutputView {
        CommandOutputView { success: self.success, stdout: self.stdout@, stderr: self.stderr@ }
    }
}

/// The arguments that select the network, where one is given.
pub open spec fn network_arguments(network: Option<Seq<char>>) -> Seq<Seq<char>> {
    match network {
        Some(name) => seq!["--network="@ + name],
        None => Seq::<Seq<char>>::empty(),
    }
}

/// The arguments that the tool takes for a call to the node: those that
/// select the network, the name of the command, and what the command takes.
/// A peer is named by its URI as it was received. An action that is no call
/// to the node has none.
pub open spec fn command_arguments(network: Option<Seq<char>>, action: ActionView) -> Option<
    Seq<Seq<char>>,
> {
    match action {
        ActionView::GetIdentity => Some(network_arguments(network) + seq!["getinfo"@]),
        ActionView::ConnectPeer { peer } => Some(
            network_arguments(network) + seq!["connect"@, peer.uri],
        ),
        ActionView::CreateInvoice { amount_msat, label, description } => Some(
            network_arguments(network) + seq![
                "invoice"@,
                decimal(amount_msat as nat) + "msat"@,
                label,
                description,
            ],
        ),
        ActionView::SignMessage { message } => Some(
            network_arguments(network) + seq!["signmessage"@, message],
        ),
        _ => None,
    }
}

/// The node is told to connect to a peer by the URI as it was received:
/// whatever text names a peer is handed on letter for letter, after the
/// arguments that select the network and the word `connect`.
pub proof fn lemma_connect_takes_the_uri_as_received(network: Option<Seq<char>>, uri: Seq<char>)
    ensures
        peer_of(uri) matches Some(peer) ==> command_arguments(
            network,
            ActionView::ConnectPeer { peer },
        ) == Some(network_arguments(network) + seq!["connect"@, uri]),
{
}

/// The texts that a list of strings holds.
pub open spec fn words(list: Seq<String>) -> Seq<Seq<char>> {
    Seq::new(list.len(), |i: int| list[i]@)
}

/// The words of a list that may be missing.
pub open spec fn option_words(list: Option<Vec<String>>) -> Option<Seq<Seq<char>>> {
    match list {
        Some(l) => Some(words(l@)),
        None => None,
    }
}

/// Appends one word to a list.
fn push_word(list: &mut Vec<String>, word: String)
    ensures
        words(final(list)@) == words(old(list)@).push(word@),
{
    list.push(word);
    assert(words(list@) =~= words(old(list)@).push(word@));
}

/// The arguments that select the network.
fn network_list(network: &Option<String>) -> (list: Vec<String>)
    ensures
        words(list@) == network_arguments(network.deep_view()),
{
    let mut list: Vec<String> = Vec::new();
    assert(words(list@) =~= Seq::<Seq<char>>::empty());
    match network {
        Some(name) => {
            let mut word = String::from_str("--network=");
            word.append(name.as_str());
            push_word(&mut list, word);
            assert(words(list@) =~= seq!["--network="@ + name@]);
        },
        None => {},
    }
    list
}

/// The arguments that the tool takes for `action`.
pub fn arguments(network: &Option<String>, action: &Action) -> (list: Option<Vec<String>>)
    ensures
        option_words(list) == command_arguments(network.deep_view(), action@),
{
    let mut list = network_list(network);
    let ghost head = words(list@);
    match action {
        Action::GetIdentity => {
            push_word(&mut list, String::from_str("getinfo"));
            assert(words(list@) =~= head + seq!["getinfo"@]);
            Some(list)
        },
        Action::ConnectPeer { peer } => {
            push_word(&mut list, String::from_str("connect"));
            push_word(&mut list, peer.uri().to_owned());
            assert(words(list@) =~= head + seq!["connect"@, peer@.uri]);
            Some(list)
        },
        Action::CreateInvoice { amount_msat, label, description } => {
            push_word(&mut list, String::from_str("invoice"));
            let mut amount = String::new();
            push_decimal(&mut amount, *amount_msat as u128);
            amount.append("msat");
            assert(amount@ =~= decimal(*amount_msat as nat) + "msat"@);
            push_word(&mut list, amount);
            push_word(&mut list, label.clone());
            push_word(&mut list, description.clone());
            assert(words(list@) =~= head + seq![
                "invoice"@,
                decimal(*amount_msat as nat) + "msat"@,
                label@,
                description@,
            ]);
            Some(list)
        },
        Action::SignMessage { message } => {
            push_word(&mut list, String::from_str("signmessage"));
            push_word(&mut list, message.clone());
            assert(words(list@) =~= head + seq!["signmessage"@, message@]);
            Some(list)
        },
        _ => None,
    }
}

/// The failure of a command: its name, `failed:` and what the tool wrote to
/// its error stream.
pub open spec fn command_failure(what: Seq<char>, stderr: Seq<char>) -> EventView {
    EventView::NodeFailure { reason: what + " failed: "@ + stderr }
}

/// The failure of a command whose output lacks the member that was
/// expected.
pub open spec fn shape_failure(what: Seq<char>) -> EventView {
    EventView::NodeFailure { reason: what + " returned an unexpected response"@ }
}

/// What the tool's output means for the piece of work that was asked for,
/// `member` being the member of the output that carries the answer: `id` for
/// the identity, `bolt11` for an invoice, `zbase` for a signature.
///
/// A command that fails gives a failure that quotes the error stream, but for
/// a connection to a peer that is connected already, which counts as made. A
/// command that succeeds gives its answer, or a failure where the member is
/// missing. An action that is no call to the node gives no event.
pub open spec fn event_of(
    action: ActionView,
    output: CommandOutputView,
    member: Option<Seq<char>>,
) -> Option<EventView> {
    match action {
        ActionView::GetIdentity => Some(
            if !output.success {
                command_failure("getinfo"@, output.stderr)
            } else {
                match member {
                    Some(public_key) => EventView::Identity { public_key },
                    None => shape_failure("getinfo"@),
                }
            },
        ),
        ActionView::ConnectPeer { .. } => Some(
            if output.success || occurs_in("already connected"@, output.stderr) {
                EventView::PeerConnected
            } else {
                command_failure("connect"@, output.stderr)
            },
        ),
        ActionView::CreateInvoice { .. } => Some(
            if !output.success {
                command_failure("invoice creation"@, output.stderr)
            } else {
                match member {
                    Some(payment_request) => EventView::InvoiceCreated { payment_request },
                    None => shape_failure("invoice"@),
                }
            },
        ),
        ActionView::SignMessage { .. } => Some(
            if !output.success {
                command_failure("signmessage"@, output.stderr)
            } else {
                match member {
                    Some(signature) => EventView::MessageSigned { signature },
                    None => shape_failure("signmessage"@),
                }
            },
        ),
        _ => None,
    }
}

/// The member of the tool's output that carries the answer to `action`.
pub open spec fn answer_member(action: ActionView) -> Option<Seq<char>> {
    match action {
        ActionView::GetIdentity => Some("id"@),
        ActionView::CreateInvoice { .. } => Some("bolt11"@),
        ActionView::SignMessage { .. } => Some("zbase"@),
        _ => None,
    }
}

/// What the tool's output means for `action`, the answer read from the
/// output itself.
pub open spec fn interpreted(action: ActionView, output: CommandOutputView) -> Option<EventView> {
    event_of(
        action,
        output,
        match answer_member(action) {
            Some(key) => json_string_member(output.stdout, key),
            None => None,
        },
    )
}

/// The event for a command that failed.
fn failure(what: &str, stderr: String) -> (event: Event)
    ensures
        event@ == command_failure(what@, stderr@),
{
    let mut reason = String::from_str(what);
    reason.append(" failed: ");
    reason.append(stderr.as_str());
    Event::NodeFailure { reason }
}

/// The event for an output that lacks the member that was expected.
fn unexpected(what: &str) -> (event: Event)
    ensures
        event@ == shape_failure(what@),
{
    let mut reason = String::from_str(what);
    reason.append(" returned an unexpected response");
    Event::NodeFailure { reason }
}

/// Whether the error stream says that the peer is connected already.
fn already_connected(stderr: &str) -> (b: bool)
    ensures
        b == occurs_in("already connected"@, stderr@),
{
    let haystack = to_chars(stderr);
    let needle = to_chars("already connected");
    contains_text(haystack.as_slice(), needle.as_slice())
}

/// Turns the tool's output into the event that the flow waits for, `member`
/// being the answer read from the output.
pub fn event_from(action: &Action, output: CommandOutput, member: Option<String>) -> (event: Option<
    Event,
>)
    ensures
        option_view(event) == event_of(action@, output@, member.deep_view()),
{
    let CommandOutput { success, stdout, stderr } = output;
    match action {
        Action::GetIdentity => Some(
            if !success {
                failure("getinfo", stderr)
            } else {
                match member {
                    Some(public_key) => Event::Identity { public_key },
                    None => unexpected("getinfo"),
                }
            },
        ),
        Action::ConnectPeer { .. } => Some(
            if success || already_connected(stderr.as_str()) {
                Event::PeerConnected
            } else {
                failure("connect", stderr)
            },
        ),
        Action::CreateInvoice { .. } => Some(
            if !success {
                failure("invoice creation", stderr)
            } else {
                match member {
                    Some(payment_request) => Event::InvoiceCreated { payment_request },
                    None => unexpected("invoice"),
                }
            },
        ),
        Action::SignMessage { .. } => Some(
            if !success {
                failure("signmessage", stderr)
            } else {
                match member {
                    Some(signature) => Event::MessageSigned { signature },
                    None => unexpected("signmessage"),
                }
            },
        ),
        _ => None,
    }
}

/// Turns the tool's output into the event that the flow waits for.
pub fn interpret(action: &Action, output: CommandOutput) -> (event: Option<Event>)
    ensures
        option_view(event) == interpreted(action@, output@),
{
    let member = match action {
        Action::GetIdentity => read_string_member(output.stdout.as_str(), "id"),
        Action::CreateInvoice { .. } => read_string_member(output.stdout.as_str(), "bolt11"),
        Action::SignMessage { .. } => read_string_member(output.stdout.as_str(), "zbase"),
        _ => None,
    };
    event_from(action, output, member)
}

} // verus!
