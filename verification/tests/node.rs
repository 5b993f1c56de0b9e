use lnurl_client::flow::{Action, Event};
use lnurl_client::node::{arguments, event_from, interpret, CommandOutput};
use lnurl_client::peer::PeerUri;

fn output(success: bool, stdout: &str, stderr: &str) -> CommandOutput {
    CommandOutput { success, stdout: stdout.to_string(), stderr: stderr.to_string() }
}

fn failure(reason: &str) -> Option<Event> {
    Some(Event::NodeFailure { reason: reason.to_string() })
}

fn connect() -> Action {
    Action::ConnectPeer { peer: PeerUri::parse("02ab@10.0.0.2:9735").expect("a peer") }
}

fn invoice() -> Action {
    Action::CreateInvoice {
        amount_msat: 5000,
        label: "lnurl-withdraw-17".to_string(),
        description: "a gift".to_string(),
    }
}

fn sign() -> Action {
    Action::SignMessage { message: "abc123".to_string() }
}

#[test]
fn arguments_of_each_command() {
    assert_eq!(arguments(&None, &Action::GetIdentity), Some(vec!["getinfo".to_string()]));
    assert_eq!(
        arguments(&None, &connect()),
        Some(vec!["connect".to_string(), "02ab@10.0.0.2:9735".to_string()])
    );
    assert_eq!(
        arguments(&None, &invoice()),
        Some(vec![
            "invoice".to_string(),
            "5000msat".to_string(),
            "lnurl-withdraw-17".to_string(),
            "a gift".to_string(),
        ])
    );
    assert_eq!(
        arguments(&None, &sign()),
        Some(vec!["signmessage".to_string(), "abc123".to_string()])
    );
}

#[test]
fn connect_takes_the_uri_as_received() {
    for uri in ["a@h:01", "02ab@[2001:db8::1]:09735", "02ab@10.0.0.2:9735"] {
        let action = Action::ConnectPeer { peer: PeerUri::parse(uri).expect(uri) };
        assert_eq!(arguments(&None, &action), Some(vec!["connect".to_string(), uri.to_string()]));
        assert_eq!(
            arguments(&Some("testnet".to_string()), &action),
            Some(vec!["--network=testnet".to_string(), "connect".to_string(), uri.to_string()])
        );
    }
}

#[test]
fn arguments_select_the_network_first() {
    let network = Some("regtest".to_string());
    assert_eq!(
        arguments(&network, &Action::GetIdentity),
        Some(vec!["--network=regtest".to_string(), "getinfo".to_string()])
    );
    assert_eq!(
        arguments(&network, &sign()),
        Some(vec![
            "--network=regtest".to_string(),
            "signmessage".to_string(),
            "abc123".to_string(),
        ])
    );
}

#[test]
fn actions_that_are_no_commands_have_no_arguments() {
    assert_eq!(arguments(&None, &Action::Resume), None);
    assert_eq!(arguments(&None, &Action::Stop), None);
    assert_eq!(arguments(&None, &Action::HttpGet { url: "http://h".to_string() }), None);
    assert_eq!(interpret(&Action::Resume, output(true, "{}", "")), None);
    assert_eq!(interpret(&Action::Stop, output(true, "{}", "")), None);
    assert_eq!(
        interpret(&Action::HttpGet { url: "http://h".to_string() }, output(true, "{}", "")),
        None
    );
}

#[test]
fn identity_is_read_from_getinfo() {
    assert_eq!(
        interpret(&Action::GetIdentity, output(true, "{\"id\":\"02ab\",\"alias\":\"n\"}", "")),
        Some(Event::Identity { public_key: "02ab".to_string() })
    );
    assert_eq!(
        interpret(&Action::GetIdentity, output(false, "{\"id\":\"02ab\"}", "no socket")),
        failure("getinfo failed: no socket")
    );
    assert_eq!(
        interpret(&Action::GetIdentity, output(true, "{\"alias\":\"n\"}", "")),
        failure("getinfo returned an unexpected response")
    );
    assert_eq!(
        interpret(&Action::GetIdentity, output(true, "garbage", "")),
        failure("getinfo returned an unexpected response")
    );
}

#[test]
fn connect_counts_a_peer_that_is_connected_already() {
    assert_eq!(interpret(&connect(), output(true, "{}", "")), Some(Event::PeerConnected));
    assert_eq!(
        interpret(&connect(), output(false, "", "peer already connected\n")),
        Some(Event::PeerConnected)
    );
    assert_eq!(
        interpret(&connect(), output(false, "", "connection refused")),
        failure("connect failed: connection refused")
    );
}

#[test]
fn invoice_is_read_from_bolt11() {
    assert_eq!(
        interpret(&invoice(), output(true, "{\"bolt11\":\"lnbc50n1\",\"expires_at\":1}", "")),
        Some(Event::InvoiceCreated { payment_request: "lnbc50n1".to_string() })
    );
    assert_eq!(
        interpret(&invoice(), output(false, "", "duplicate label")),
        failure("invoice creation failed: duplicate label")
    );
    assert_eq!(
        interpret(&invoice(), output(true, "{\"payment_hash\":\"00\"}", "")),
        failure("invoice returned an unexpected response")
    );
}

#[test]
fn signature_is_read_from_zbase() {
    assert_eq!(
        interpret(&sign(), output(true, "{\"signature\":\"00\",\"zbase\":\"d9rz\"}", "")),
        Some(Event::MessageSigned { signature: "d9rz".to_string() })
    );
    assert_eq!(
        interpret(&sign(), output(false, "", "locked")),
        failure("signmessage failed: locked")
    );
    assert_eq!(
        interpret(&sign(), output(true, "{\"signature\":\"00\"}", "")),
        failure("signmessage returned an unexpected response")
    );
}

#[test]
fn event_from_takes_the_answer_as_given() {
    assert_eq!(
        event_from(&Action::GetIdentity, output(true, "ignored", ""), Some("03cd".to_string())),
        Some(Event::Identity { public_key: "03cd".to_string() })
    );
    assert_eq!(
        event_from(&connect(), output(false, "", "already connected"), Some("x".to_string())),
        Some(Event::PeerConnected)
    );
    assert_eq!(
        event_from(&invoice(), output(true, "", ""), None),
        failure("invoice returned an unexpected response")
    );
}
