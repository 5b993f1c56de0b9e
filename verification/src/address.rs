//! The address of the service: a URL, with the host and the port it names.

use crate::decimal::{bounded_number, decimal, is_digit, parse_bounded, push_decimal};
use crate::error::{FlowError, FlowErrorView};
use crate::ip::{ip, ipv6, is_ip, is_ip_char, is_ipv6, lemma_ip_chars};
use crate::model::result_view;
use crate::text::{find_first, find_last, slice_text, to_chars};
use vstd::prelude::*;
use vstd::string::StringExecFns;

verus! {

/// What a URL names, as `reqwest::Url` reads it: the scheme, the host if it
/// has one, and the port, written out or the one that its scheme implies.
#[derive(Debug, PartialEq, Eq)]
pub struct UrlParts {
    pub scheme: String,
    pub host: Option<String>,
    pub port: Option<u16>,
}

impl View for UrlParts {
    type V = (Seq<char>, Option<Seq<char>>, Option<u16>);

    open spec fn view(&self) -> Self::V {
        (self.scheme@, self.host.deep_view(), self.port)
    }
}

/// The view of parts that may be missing.
pub open spec fn parts_view(parts: Option<UrlParts>) -> Option<
    (Seq<char>, Option<Seq<char>>, Option<u16>),
> {
    match parts {
        Some(p) => Some(p@),
        None => None,
    }
}

/// What `reqwest::Url::parse` makes of `text`: nothing where it refuses the
/// text, and otherwise the scheme, the host and the port of the URL, as
/// `Url::scheme`, `Url::host_str` and `Url::port_or_known_default` give
/// them.
pub uninterp spec fn url_parts(text: Seq<char>) -> Option<
    (Seq<char>, Option<Seq<char>>, Option<u16>),
>;

/// Reads `text` with `reqwest::Url::parse` and takes from the URL its scheme
/// (`Url::scheme`), its host (`Url::host_str`) and its port
/// (`Url::port_or_known_default`). A text that the parser refuses gives
/// `None`.
#[verifier::external_body]
pub(crate) fn parse_url(text: &str) -> (parts: Option<UrlParts>)
    ensures
        parts_view(parts) == url_parts(text@),
{
    match reqwest::Url::parse(text) {
        Ok(url) => Some(
            UrlParts {
                scheme: url.scheme().to_owned(),
                host: url.host_str().map(str::to_owned),
                port: url.port_or_known_default(),
            },
        ),
        Err(_) => None,
    }
}

/// A base URL on which requests are made, with the scheme, the host and the
/// port that it names. The scheme and the host are never empty; the port is
/// the one written in the URL or the one that the scheme implies, and is
/// missing only where the scheme implies none.
#[derive(Debug, PartialEq, Eq)]
pub struct ServerAddress {
    url: String,
    scheme: String,
    host: String,
    port: Option<u16>,
}

/// The mathematical value of a [`ServerAddress`].
pub struct ServerAddressView {
    pub url: Seq<char>,
    pub scheme: Seq<char>,
    pub host: Seq<char>,
    pub port: Option<u16>,
}

impl ServerAddressView {
    /// An address names a scheme and a host.
    pub open spec fn wf(self) -> bool {
        self.scheme.len() > 0 && self.host.len() > 0
    }
}

impl View for ServerAddress {
    type V = ServerAddressView;

    closed spec fn view(&self) -> ServerAddressView {
        ServerAddressView { url: self.url@, scheme: self.scheme@, host: self.host@, port: self.port }
    }
}

/// The address that a text is when it is taken as a URL: the text itself,
/// where the parser accepts it and finds a scheme and a host in it.
pub open spec fn url_address(
    text: Seq<char>,
    parts: Option<(Seq<char>, Option<Seq<char>>, Option<u16>)>,
) -> Option<ServerAddressView> {
    match parts {
        Some((scheme, Some(host), port)) => {
            if scheme.len() > 0 && host.len() > 0 {
                Some(ServerAddressView { url: text, scheme, host, port })
            } else {
                None
            }
        },
        _ => None,
    }
}

/// The address `http://host:port`.
pub open spec fn http_address(host: Seq<char>, port: u16) -> ServerAddressView {
    ServerAddressView {
        url: "http://"@ + host + ":"@ + decimal(port as nat),
        scheme: "http"@,
        host,
        port: Some(port),
    }
}

/// The address that a text of the form `[IPv6]:port` is. The host is the
/// literal with its brackets, as it stands in the text; the port is what
/// stands after the colon, a number up to 65535.
pub open spec fn bracketed_address(text: Seq<char>) -> Option<ServerAddressView> {
    if text.len() > 0 && text[0] == '[' {
        match text.index_of_first(']') {
            Some(close) => {
                let literal = text.subrange(1, close);
                let port = bounded_number(text.subrange(close + 2, text.len() as int), 65535);
                if close + 1 < text.len() && text[close + 1] == ':' && is_ipv6(literal)
                    && port is Some {
                    Some(http_address(text.subrange(0, close + 1), port.unwrap() as u16))
                } else {
                    None
                }
            },
            None => None,
        }
    } else {
        None
    }
}

/// The address that a text of the form `address:port` is: the host is what
/// stands before the last colon, an IP address of either kind, and the port
/// what stands after it, a number up to 65535.
pub open spec fn ported_address(text: Seq<char>) -> Option<ServerAddressView> {
    match text.index_of_last(':') {
        Some(colon) => {
            let host = text.subrange(0, colon);
            let port = bounded_number(text.subrange(colon + 1, text.len() as int), 65535);
            if is_ip(host) && port is Some {
                Some(http_address(host, port.unwrap() as u16))
            } else {
                None
            }
        },
        None => None,
    }
}

/// The address that a bare IP address is: the port is the one that `http`
/// implies.
pub open spec fn plain_address(text: Seq<char>) -> Option<ServerAddressView> {
    if is_ip(text) {
        Some(
            ServerAddressView {
                url: "http://"@ + text,
                scheme: "http"@,
                host: text,
                port: Some(80u16),
            },
        )
    } else {
        None
    }
}

/// The address that a text given by the user stands for, `parts` being what
/// the URL parser made of the text. The first of these that applies decides:
/// a URL is kept as it is; `[IPv6]:port`, `address:port` and a bare address
/// become an `http` URL; anything else is refused.
pub open spec fn normalized(
    text: Seq<char>,
    parts: Option<(Seq<char>, Option<Seq<char>>, Option<u16>)>,
) -> Result<ServerAddressView, FlowErrorView> {
    if url_address(text, parts) is Some {
        Ok(url_address(text, parts).unwrap())
    } else if bracketed_address(text) is Some {
        Ok(bracketed_address(text).unwrap())
    } else if ported_address(text) is Some {
        Ok(ported_address(text).unwrap())
    } else if plain_address(text) is Some {
        Ok(plain_address(text).unwrap())
    } else {
        Err(FlowErrorView::InvalidAddress { input: text })
    }
}

/// Every address that normalizing gives names a scheme and a host.
pub proof fn lemma_normalized_is_well_formed(
    text: Seq<char>,
    parts: Option<(Seq<char>, Option<Seq<char>>, Option<u16>)>,
)
    ensures
        normalized(text, parts) matches Ok(address) ==> address.wf(),
{
    reveal_strlit("http");
    if url_address(text, parts) is Some {
    } else if bracketed_address(text) is Some {
        text.index_of_first_ensures(']');
    } else if ported_address(text) is Some {
        text.index_of_last_ensures(':');
        lemma_ip_chars(text.subrange(0, text.index_of_last(':').unwrap()));
    } else if plain_address(text) is Some {
        lemma_ip_chars(text);
    }
}

/// A text that is a URL with a host is its own address: normalizing changes
/// nothing in it.
pub proof fn lemma_url_is_kept(
    text: Seq<char>,
    parts: Option<(Seq<char>, Option<Seq<char>>, Option<u16>)>,
)
    requires
        url_address(text, parts) is Some,
    ensures
        normalized(text, parts) == Ok::<ServerAddressView, FlowErrorView>(
            url_address(text, parts).unwrap(),
        ),
        url_address(text, parts).unwrap().url == text,
        url_address(text, parts).unwrap().wf(),
{
}

/// The last colon of `host:digits` is the one between the two.
proof fn lemma_last_colon(host: Seq<char>, digits: Seq<char>)
    requires
        forall|i: int| 0 <= i < digits.len() ==> is_digit(#[trigger] digits[i]),
    ensures
        (host + ":"@ + digits).index_of_last(':') == Some(host.len() as int),
        (host + ":"@ + digits).subrange(0, host.len() as int) == host,
        (host + ":"@ + digits).subrange(host.len() as int + 1, (host + ":"@ + digits).len() as int)
            == digits,
{
    reveal_strlit(":");
    let text = host + ":"@ + digits;
    let at = host.len() as int;
    assert(text[at] == ':');
    assert forall|j: int| at < j < text.len() implies text[j] != ':' by {
        assert(text[j] == digits[j - at - 1]);
    }
    text.index_of_last_ensures(':');
    assert(text.contains(':'));
    assert(text.subrange(0, at) == host);
    assert(text.subrange(at + 1, text.len() as int) == digits);
}

/// An IP address followed by a colon and a port is normalized to the `http`
/// URL of that host and that port: the host comes out as it was written, the
/// port as the number that was written. This holds of every such text that
/// the URL parser does not take for a URL with a host.
pub proof fn lemma_host_and_port_round_trip(
    host: Seq<char>,
    digits: Seq<char>,
    parts: Option<(Seq<char>, Option<Seq<char>>, Option<u16>)>,
)
    requires
        is_ip(host),
        bounded_number(digits, 65535) is Some,
        url_address(host + ":"@ + digits, parts) is None,
    ensures
        normalized(host + ":"@ + digits, parts) == Ok::<ServerAddressView, FlowErrorView>(
            http_address(host, bounded_number(digits, 65535).unwrap() as u16),
        ),
        http_address(host, bounded_number(digits, 65535).unwrap() as u16).wf(),
{
    reveal_strlit(":");
    reveal_strlit("http");
    let text = host + ":"@ + digits;
    lemma_ip_chars(host);
    lemma_last_colon(host, digits);
    assert(text[0] == host[0]);
    assert(is_ip_char(host[0]));
    assert(bracketed_address(text) is None);
}

/// An IPv6 address in brackets followed by a colon and a port is normalized
/// to the `http` URL of that host and that port: the host comes out as it
/// was written, brackets included, the port as the number that was written.
/// This holds of every such text that the URL parser does not take for a URL
/// with a host.
pub proof fn lemma_bracketed_round_trip(
    literal: Seq<char>,
    digits: Seq<char>,
    parts: Option<(Seq<char>, Option<Seq<char>>, Option<u16>)>,
)
    requires
        is_ipv6(literal),
        bounded_number(digits, 65535) is Some,
        url_address("["@ + literal + "]:"@ + digits, parts) is None,
    ensures
        normalized("["@ + literal + "]:"@ + digits, parts) == Ok::<
            ServerAddressView,
            FlowErrorView,
        >(http_address("["@ + literal + "]"@, bounded_number(digits, 65535).unwrap() as u16)),
        http_address("["@ + literal + "]"@, bounded_number(digits, 65535).unwrap() as u16).wf(),
{
    reveal_strlit("[");
    reveal_strlit("]:");
    reveal_strlit("]");
    reveal_strlit("http");
    let text = "["@ + literal + "]:"@ + digits;
    let close: int = literal.len() as int + 1;
    lemma_ip_chars(literal);
    assert(text[0] == '[');
    assert(text[close] == ']');
    assert forall|j: int| 0 <= j < close implies text[j] != ']' by {
        if j > 0 {
            assert(text[j] == literal[j - 1]);
            assert(is_ip_char(literal[j - 1]));
        }
    }
    text.index_of_first_ensures(']');
    assert(text.contains(']'));
    assert(text.index_of_first(']') == Some(close));
    assert(text[close + 1] == ':');
    assert(text.subrange(1, close) == literal);
    assert(text.subrange(close + 2, text.len() as int) == digits);
    assert(text.subrange(0, close + 1) == "["@ + literal + "]"@);
}

impl ServerAddress {
    #[verifier::type_invariant]
    spec fn well_formed(self) -> bool {
        self@.wf()
    }

    /// The URL. Every address is well formed.
    pub fn url(&self) -> (url: &str)
        ensures
            url@ == self@.url,
            self@.wf(),
    {
        proof {
            use_type_invariant(self);
        }
        self.url.as_str()
    }

    /// The scheme of the URL.
    pub fn scheme(&self) -> (scheme: &str)
        ensures
            scheme@ == self@.scheme,
    {
        self.scheme.as_str()
    }

    /// The host that the URL names.
    pub fn host(&self) -> (host: &str)
        ensures
            host@ == self@.host,
    {
        self.host.as_str()
    }

    /// The port that the URL names or that its scheme implies.
    pub fn port(&self) -> (port: Option<u16>)
        ensures
            port == self@.port,
    {
        self.port
    }

    /// A copy of this address.
    pub fn duplicate(&self) -> (copy: ServerAddress)
        ensures
            copy@ == self@,
    {
        proof {
            use_type_invariant(self);
        }
        ServerAddress {
            url: self.url.clone(),
            scheme: self.scheme.clone(),
            host: self.host.clone(),
            port: self.port,
        }
    }

    /// The address that `text` is as a URL, given what the URL parser made of
    /// `text`.
    pub fn from_parts(text: &str, parts: Option<UrlParts>) -> (address: Option<ServerAddress>)
        ensures
            address is Some == url_address(text@, parts_view(parts)) is Some,
            address matches Some(a) ==> url_address(text@, parts_view(parts)) == Some(a@),
    {
        match parts {
            Some(UrlParts { scheme, host: Some(host), port }) => {
                if scheme.as_str().is_empty() || host.as_str().is_empty() {
                    None
                } else {
                    Some(ServerAddress { url: text.to_owned(), scheme, host, port })
                }
            },
            _ => None,
        }
    }

    /// The address that `text` is as a URL: `text` itself where
    /// `reqwest::Url::parse` accepts it and finds a scheme and a host in it,
    /// and nothing otherwise.
    pub fn from_url(text: &str) -> (address: Option<ServerAddress>)
        ensures
            address is Some == url_address(text@, url_parts(text@)) is Some,
            address matches Some(a) ==> url_address(text@, url_parts(text@)) == Some(a@),
    {
        ServerAddress::from_parts(text, parse_url(text))
    }

    /// The `http` address of `host` and `port`.
    fn http(host: String, port: u16) -> (address: ServerAddress)
        requires
            host@.len() > 0,
        ensures
            address@ == http_address(host@, port),
    {
        proof {
            reveal_strlit("http");
        }
        let mut url = String::from_str("http://");
        url.append(host.as_str());
        url.append(":");
        push_decimal(&mut url, port as u128);
        ServerAddress { url, scheme: String::from_str("http"), host, port: Some(port) }
    }

    /// The address that `chars` is in the form `[IPv6]:port`.
    fn bracketed(chars: &[char]) -> (address: Option<ServerAddress>)
        ensures
            crate::model::option_view(address) == bracketed_address(chars@),
    {
        let len: usize = chars.len();
        if len == 0 || chars[0] != '[' {
            return None;
        }
        let close = match find_first(chars, ']') {
            Some(close) => close,
            None => {
                return None;
            },
        };
        proof {
            chars@.index_of_first_ensures(']');
        }
        if close + 1 >= len || chars[close + 1] != ':' {
            return None;
        }
        if !ipv6(vstd::slice::slice_subrange(chars, 1, close)) {
            return None;
        }
        match parse_bounded(vstd::slice::slice_subrange(chars, close + 2, len), 65535) {
            Some(port) => Some(ServerAddress::http(slice_text(chars, 0, close + 1), port as u16)),
            None => None,
        }
    }

    /// The address that `chars` is in the form `address:port`.
    fn ported(chars: &[char]) -> (address: Option<ServerAddress>)
        ensures
            crate::model::option_view(address) == ported_address(chars@),
    {
        let len: usize = chars.len();
        let colon = match find_last(chars, ':') {
            Some(colon) => colon,
            None => {
                return None;
            },
        };
        proof {
            chars@.index_of_last_ensures(':');
        }
        let host = vstd::slice::slice_subrange(chars, 0, colon);
        if !ip(host) {
            return None;
        }
        proof {
            lemma_ip_chars(host@);
        }
        match parse_bounded(vstd::slice::slice_subrange(chars, colon + 1, len), 65535) {
            Some(port) => Some(ServerAddress::http(slice_text(chars, 0, colon), port as u16)),
            None => None,
        }
    }

    /// The address that `chars` is as a bare IP address.
    fn plain(text: &str, chars: &[char]) -> (address: Option<ServerAddress>)
        requires
            chars@ == text@,
        ensures
            crate::model::option_view(address) == plain_address(text@),
    {
        if !ip(chars) {
            return None;
        }
        proof {
            reveal_strlit("http");
            lemma_ip_chars(chars@);
        }
        let mut url = String::from_str("http://");
        url.append(text);
        Some(
            ServerAddress {
                url,
                scheme: String::from_str("http"),
                host: text.to_owned(),
                port: Some(80),
            },
        )
    }

    /// The address that `text` stands for, given what the URL parser made of
    /// `text`.
    pub fn normalize_parsed(text: &str, parts: Option<UrlParts>) -> (address: Result<
        ServerAddress,
        FlowError,
    >)
        ensures
            result_view(address) == normalized(text@, parts_view(parts)),
    {
        if let Some(address) = ServerAddress::from_parts(text, parts) {
            return Ok(address);
        }
        let chars = to_chars(text);
        if let Some(address) = ServerAddress::bracketed(chars.as_slice()) {
            return Ok(address);
        }
        if let Some(address) = ServerAddress::ported(chars.as_slice()) {
            return Ok(address);
        }
        if let Some(address) = ServerAddress::plain(text, chars.as_slice()) {
            return Ok(address);
        }
        Err(FlowError::InvalidAddress { input: text.to_owned() })
    }

    /// The address that `text` stands for: `text` itself where it is a URL
    /// with a host, the `http` URL of the address where it is an IP address
    /// with or without a port, and an error otherwise.
    pub fn normalize(text: &str) -> (address: Result<ServerAddress, FlowError>)
        ensures
            result_view(address) == normalized(text@, url_parts(text@)),
    {
        ServerAddress::normalize_parsed(text, parse_url(text))
    }
}

} // verus!
