//! The address of a Lightning peer, written `pubkey@host:port`. A peer keeps
//! the text it was read from, so that it can be handed on as it came.

use crate::decimal::{bounded_number, is_digit, parse_bounded};
use crate::error::{FlowError, FlowErrorView, Violation, ViolationView};
use crate::text::{find_first, find_last, slice_text, to_chars};
use vstd::prelude::*;

verus! {

/// A peer to connect to: the URI as it was received, and the node's public
/// key, the host and the port that the URI names. The three are always what
/// reading the URI gives, so neither the key nor the host is empty.
#[derive(Debug, PartialEq, Eq)]
pub struct PeerUri {
    uri: String,
    node_id: String,
    host: String,
    port: u16,
}

/// The mathematical value of a [`PeerUri`].
pub struct PeerUriView {
    pub uri: Seq<char>,
    pub node_id: Seq<char>,
    pub host: Seq<char>,
    pub port: u16,
}

impl PeerUriView {
    /// The key, the host and the port are those that the URI names.
    pub open spec fn wf(self) -> bool {
        peer_of(self.uri) == Some(self)
    }
}

impl View for PeerUri {
    type V = PeerUriView;

    closed spec fn view(&self) -> PeerUriView {
        PeerUriView { uri: self.uri@, node_id: self.node_id@, host: self.host@, port: self.port }
    }
}

/// The peer that a text names. The key is what stands before the first `@`,
/// the port what stands after the last `:`, the host what stands between
/// them. A text without `@`, without `:` after it, with an empty key or
/// host, or with a port that is no number up to 65535, names no peer. The
/// text itself is kept as the URI of the peer.
pub open spec fn peer_of(text: Seq<char>) -> Option<PeerUriView> {
    match text.index_of_first('@') {
        None => None,
        Some(at) => {
            let node_id = text.subrange(0, at);
            let rest = text.subrange(at + 1, text.len() as int);
            match rest.index_of_last(':') {
                None => None,
                Some(colon) => {
                    let host = rest.subrange(0, colon);
                    let port = rest.subrange(colon + 1, rest.len() as int);
                    match bounded_number(port, 65535) {
                        Some(p) => {
                            if node_id.len() > 0 && host.len() > 0 {
                                Some(PeerUriView { uri: text, node_id, host, port: p as u16 })
                            } else {
                                None
                            }
                        },
                        None => None,
                    }
                },
            }
        },
    }
}

/// What reading a peer's address gives: the peer, or the violation that
/// names the text.
pub open spec fn parsed_peer(text: Seq<char>) -> Result<PeerUriView, FlowErrorView> {
    match peer_of(text) {
        Some(peer) => Ok(peer),
        None => Err(
            FlowErrorView::ValidationError { violation: ViolationView::MalformedPeerUri { uri: text } },
        ),
    }
}

/// A peer that was read from a text keeps the text as its URI, and is well
/// formed.
pub proof fn lemma_peer_keeps_its_uri(text: Seq<char>)
    ensures
        peer_of(text) matches Some(peer) ==> peer.uri == text && peer.wf(),
{
}

/// A key, a host and a port written as `key@host:port` are read back as they
/// were written: the key and the host letter for letter, the port as the
/// number that its digits stand for. This holds of every key without `@`.
pub proof fn lemma_peer_reads_back(node_id: Seq<char>, host: Seq<char>, digits: Seq<char>)
    requires
        node_id.len() > 0,
        !node_id.contains('@'),
        host.len() > 0,
        bounded_number(digits, 65535) is Some,
    ensures
        peer_of(node_id + "@"@ + host + ":"@ + digits) == Some(
            PeerUriView {
                uri: node_id + "@"@ + host + ":"@ + digits,
                node_id,
                host,
                port: bounded_number(digits, 65535).unwrap() as u16,
            },
        ),
{
    reveal_strlit("@");
    reveal_strlit(":");
    let text = node_id + "@"@ + host + ":"@ + digits;
    let at = node_id.len() as int;
    assert(text[at] == '@');
    assert forall|j: int| 0 <= j < at implies text[j] != '@' by {
        assert(text[j] == node_id[j]);
        assert(node_id.contains(node_id[j]));
    }
    text.index_of_first_ensures('@');
    assert(text.contains('@'));
    assert(text.index_of_first('@') == Some(at));
    assert(text.subrange(0, at) == node_id);
    let rest = text.subrange(at + 1, text.len() as int);
    assert(rest == host + ":"@ + digits);
    let colon = host.len() as int;
    assert(rest[colon] == ':');
    assert forall|j: int| colon < j < rest.len() implies rest[j] != ':' by {
        assert(rest[j] == digits[j - colon - 1]);
        assert(is_digit(digits[j - colon - 1]));
    }
    rest.index_of_last_ensures(':');
    assert(rest.contains(':'));
    assert(rest.index_of_last(':') == Some(colon));
    assert(rest.subrange(0, colon) == host);
    assert(rest.subrange(colon + 1, rest.len() as int) == digits);
}

/// The URI of a well-formed peer is its key, `@`, its host, `:` and digits
/// that stand for its port; the key and the host are not empty.
pub proof fn lemma_peer_is_as_written(peer: PeerUriView)
    requires
        peer.wf(),
    ensures
        peer.node_id.len() > 0,
        peer.host.len() > 0,
        exists|digits: Seq<char>|
            #[trigger] bounded_number(digits, 65535) == Some(peer.port as nat) && peer.uri
                == peer.node_id + "@"@ + peer.host + ":"@ + digits,
{
    reveal_strlit("@");
    reveal_strlit(":");
    let text = peer.uri;
    text.index_of_first_ensures('@');
    let at = text.index_of_first('@').unwrap();
    let rest = text.subrange(at + 1, text.len() as int);
    rest.index_of_last_ensures(':');
    let colon = rest.index_of_last(':').unwrap();
    let digits = rest.subrange(colon + 1, rest.len() as int);
    assert(bounded_number(digits, 65535) == Some(peer.port as nat));
    assert(text =~= peer.node_id + "@"@ + peer.host + ":"@ + digits);
}

impl PeerUri {
    #[verifier::type_invariant]
    spec fn well_formed(self) -> bool {
        self@.wf()
    }

    /// Reads `pubkey@host:port`.
    pub fn parse(text: &str) -> (peer: Result<PeerUri, FlowError>)
        ensures
            peer is Ok == parsed_peer(text@) is Ok,
            peer matches Ok(p) ==> parsed_peer(text@) == Ok::<PeerUriView, FlowErrorView>(p@),
            peer matches Err(e) ==> parsed_peer(text@) == Err::<PeerUriView, FlowErrorView>(e@),
    {
        let chars = to_chars(text);
        let at = match find_first(chars.as_slice(), '@') {
            Some(at) => at,
            None => {
                return Err(malformed(text));
            },
        };
        proof {
            chars@.index_of_first_ensures('@');
        }
        let rest = vstd::slice::slice_subrange(chars.as_slice(), at + 1, chars.len());
        let colon = match find_last(rest, ':') {
            Some(colon) => colon,
            None => {
                return Err(malformed(text));
            },
        };
        proof {
            rest@.index_of_last_ensures(':');
        }
        let digits = vstd::slice::slice_subrange(rest, colon + 1, rest.len());
        let port = match parse_bounded(digits, 65535) {
            Some(port) => port,
            None => {
                return Err(malformed(text));
            },
        };
        if at == 0 || colon == 0 {
            return Err(malformed(text));
        }
        Ok(
            PeerUri {
                uri: text.to_owned(),
                node_id: slice_text(chars.as_slice(), 0, at),
                host: slice_text(rest, 0, colon),
                port: port as u16,
            },
        )
    }

    /// The URI, as it was received. The peer is well formed.
    pub fn uri(&self) -> (uri: &str)
        ensures
            uri@ == self@.uri,
            self@.wf(),
    {
        proof {
            use_type_invariant(self);
        }
        self.uri.as_str()
    }

    /// The node's public key.
    pub fn node_id(&self) -> (node_id: &str)
        ensures
            node_id@ == self@.node_id,
    {
        self.node_id.as_str()
    }

    /// The host at which the node listens.
    pub fn host(&self) -> (host: &str)
        ensures
            host@ == self@.host,
    {
        self.host.as_str()
    }

    /// The port at which the node listens.
    pub fn port(&self) -> (port: u16)
        ensures
            port == self@.port,
    {
        self.port
    }

    /// A copy of this peer.
    pub fn duplicate(&self) -> (copy: PeerUri)
        ensures
            copy@ == self@,
    {
        proof {
            use_type_invariant(self);
        }
        PeerUri {
            uri: self.uri.clone(),
            node_id: self.node_id.clone(),
            host: self.host.clone(),
            port: self.port,
        }
    }
}

/// The error for a text that names no peer.
fn malformed(text: &str) -> (error: FlowError)
    ensures
        error@ == (FlowErrorView::ValidationError {
            violation: ViolationView::MalformedPeerUri { uri: text@ },
        }),
{
    FlowError::ValidationError { violation: Violation::MalformedPeerUri { uri: text.to_owned() } }
}

} // verus!
