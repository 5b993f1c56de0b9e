use lnurl_client::address::ServerAddress;
use lnurl_client::auth::{AuthFlow, AuthState};
use lnurl_client::channel::{ChannelFlow, ChannelState};
use lnurl_client::error::{ErrorKind, FlowError, Violation};
use lnurl_client::flow::{Action, Event, FlowConfig, Invoice, NodeIdentity};
use lnurl_client::node::arguments;
use lnurl_client::peer::PeerUri;
use lnurl_client::responses::WithdrawParameters;
use lnurl_client::withdraw::{after_validation, validate_amount, WithdrawFlow, WithdrawState};

const CHANNEL_PARAMS: &str = "{\"uri\":\"02ab@10.0.0.2:9735\",\
    \"callback\":\"http://10.0.0.2:8080/open-channel\",\"k1\":\"k-1\",\"tag\":\"channelRequest\"}";

const WITHDRAW_PARAMS: &str = "{\"callback\":\"http://10.0.0.2:8080/withdraw\",\"k1\":\"k-2\",\
    \"tag\":\"withdrawRequest\",\"defaultDescription\":\"a gift\",\
    \"minWithdrawable\":1000,\"maxWithdrawable\":10000}";

const REFUSAL: &str = "{\"status\":\"ERROR\",\"reason\":\"too slow\"}";

fn config() -> FlowConfig {
    FlowConfig::new("127.0.0.1".to_string(), 9735)
}

fn base() -> ServerAddress {
    ServerAddress::normalize("10.0.0.2:8080").expect("an address")
}

fn ok(body: &str) -> Event {
    Event::HttpResponse { status: 200, body: body.to_string() }
}

fn timeout() -> Event {
    Event::HttpFailure { detail: "operation timed out".to_string() }
}

fn get(url: &str) -> Action {
    Action::HttpGet { url: url.to_string() }
}

fn withdraw_params() -> WithdrawParameters {
    WithdrawParameters::decode(WITHDRAW_PARAMS).expect("parameters")
}

/// The collaborators of a flow: they answer each call with what the table
/// holds for it, and count the calls.
struct Mock {
    identity: Event,
    fetch: Event,
    connect: Event,
    invoice: Event,
    signature: Event,
    callback: Event,
    http_calls: usize,
    node_calls: usize,
    actions: Vec<Action>,
}

impl Mock {
    fn new(fetch: Event, callback: Event) -> Mock {
        Mock {
            identity: Event::Identity { public_key: "03me".to_string() },
            fetch,
            connect: Event::PeerConnected,
            invoice: Event::InvoiceCreated { payment_request: "lnbc50n1 x".to_string() },
            signature: Event::MessageSigned { signature: "d9rz+sig".to_string() },
            callback,
            http_calls: 0,
            node_calls: 0,
            actions: Vec::new(),
        }
    }

    fn copy(event: &Event) -> Event {
        match event {
            Event::Resumed => Event::Resumed,
            Event::Identity { public_key } => Event::Identity { public_key: public_key.clone() },
            Event::HttpResponse { status, body } => {
                Event::HttpResponse { status: *status, body: body.clone() }
            }
            Event::HttpFailure { detail } => Event::HttpFailure { detail: detail.clone() },
            Event::PeerConnected => Event::PeerConnected,
            Event::InvoiceCreated { payment_request } => {
                Event::InvoiceCreated { payment_request: payment_request.clone() }
            }
            Event::MessageSigned { signature } => {
                Event::MessageSigned { signature: signature.clone() }
            }
            Event::NodeFailure { reason } => Event::NodeFailure { reason: reason.clone() },
        }
    }

    /// Performs one action; `None` where the flow has stopped.
    fn perform(&mut self, action: Action) -> Option<Event> {
        let event = match &action {
            Action::Stop => return None,
            Action::Resume => Event::Resumed,
            Action::GetIdentity => {
                self.node_calls += 1;
                Mock::copy(&self.identity)
            }
            Action::ConnectPeer { .. } => {
                self.node_calls += 1;
                Mock::copy(&self.connect)
            }
            Action::CreateInvoice { .. } => {
                self.node_calls += 1;
                Mock::copy(&self.invoice)
            }
            Action::SignMessage { .. } => {
                self.node_calls += 1;
                Mock::copy(&self.signature)
            }
            Action::HttpGet { .. } => {
                self.http_calls += 1;
                if self.http_calls == 1 {
                    Mock::copy(&self.fetch)
                } else {
                    Mock::copy(&self.callback)
                }
            }
        };
        self.actions.push(action);
        Some(event)
    }

    fn run_channel(&mut self) -> ChannelFlow {
        let mut flow = ChannelFlow::new(config(), base());
        for _ in 0..32 {
            match self.perform(flow.next_action()) {
                Some(event) => flow = flow.step(event),
                None => return flow,
            }
        }
        panic!("the flow did not end");
    }

    fn run_withdraw(&mut self, amount_msat: u64, description: Option<&str>) -> WithdrawFlow {
        let mut flow = WithdrawFlow::new(
            config(),
            base(),
            amount_msat,
            description.map(str::to_string),
            1_700_000_000_123,
        );
        for _ in 0..32 {
            match self.perform(flow.next_action()) {
                Some(event) => flow = flow.step(event),
                None => return flow,
            }
        }
        panic!("the flow did not end");
    }

    fn run_auth(&mut self) -> AuthFlow {
        let mut flow = AuthFlow::new(config(), base());
        for _ in 0..32 {
            match self.perform(flow.next_action()) {
                Some(event) => flow = flow.step(event),
                None => return flow,
            }
        }
        panic!("the flow did not end");
    }
}

fn unreachable_service() -> FlowError {
    FlowError::NetworkError {
        host: "10.0.0.2".to_string(),
        port: Some(8080),
        detail: "operation timed out".to_string(),
    }
}

#[test]
fn channel_flow_succeeds_when_every_step_is_ok() {
    let mut mock = Mock::new(
        ok(CHANNEL_PARAMS),
        ok("{\"status\":\"OK\",\"txid\":\"ff00\",\"channel_id\":\"c1\"}"),
    );
    let flow = mock.run_channel();
    assert_eq!(
        flow.state(),
        &ChannelState::Succeeded {
            transaction_id: Some("ff00".to_string()),
            channel_id: Some("c1".to_string()),
        }
    );
    assert!(flow.is_finished());
    assert_eq!(flow.exit_code(), 0);
    assert_eq!(
        mock.actions,
        vec![
            Action::GetIdentity,
            get("http://10.0.0.2:8080/request-channel"),
            Action::ConnectPeer { peer: PeerUri::parse("02ab@10.0.0.2:9735").expect("a peer") },
            get("http://10.0.0.2:8080/open-channel?remoteid=03me&k1=k-1"),
            Action::Resume,
        ]
    );
}

#[test]
fn channel_flow_hands_the_peer_uri_on_as_received() {
    let params = "{\"uri\":\"02ab@10.0.0.2:09735\",\"callback\":\"http://10.0.0.2:8080/o\",\
                  \"k1\":\"k\",\"tag\":\"t\"}";
    let mut mock = Mock::new(ok(params), ok("{\"status\":\"OK\"}"));
    let flow = mock.run_channel();
    assert_eq!(flow.exit_code(), 0);
    match &mock.actions[2] {
        Action::ConnectPeer { peer } => {
            assert_eq!(peer.uri(), "02ab@10.0.0.2:09735");
            assert_eq!(peer.port(), 9735);
        }
        other => panic!("not a connection: {:?}", other),
    }
    assert_eq!(
        arguments(&None, &mock.actions[2]),
        Some(vec!["connect".to_string(), "02ab@10.0.0.2:09735".to_string()])
    );
}

#[test]
fn channel_flow_passes_through_its_states() {
    let flow = ChannelFlow::new(config(), base());
    assert_eq!(flow.state(), &ChannelState::Init { identity: None });
    assert!(!flow.is_finished());
    assert_eq!(flow.exit_code(), 1);
    assert_eq!(flow.reachable_address(), None);
    let flow = flow.step(Event::Identity { public_key: "03me".to_string() });
    let me = NodeIdentity { public_key: "03me".to_string() };
    assert_eq!(flow.reachable_address(), Some("03me@127.0.0.1:9735".to_string()));
    assert_eq!(flow.state(), &ChannelState::Init { identity: Some(me) });
    let flow = flow.step(ok(CHANNEL_PARAMS));
    assert!(matches!(flow.state(), ChannelState::ParamsFetched { .. }));
    assert_eq!(flow.reachable_address(), Some("03me@127.0.0.1:9735".to_string()));
    let flow = flow.step(Event::PeerConnected);
    assert!(matches!(flow.state(), ChannelState::PeerConnected { .. }));
    assert_eq!(flow.reachable_address(), Some("03me@127.0.0.1:9735".to_string()));
    let flow = flow.step(ok("{\"status\":\"OK\"}"));
    assert_eq!(flow.state(), &ChannelState::OpenRequested { body: "{\"status\":\"OK\"}".into() });
    assert_eq!(flow.reachable_address(), None);
    let flow = flow.step(Event::Resumed);
    assert_eq!(flow.state(), &ChannelState::Succeeded { transaction_id: None, channel_id: None });
}

#[test]
fn channel_flow_fails_with_the_reason_of_the_callback() {
    let mut mock = Mock::new(ok(CHANNEL_PARAMS), ok(REFUSAL));
    let flow = mock.run_channel();
    match flow.state() {
        ChannelState::Failed { error } => {
            assert_eq!(error, &FlowError::ProtocolError { reason: "too slow".to_string() });
            assert!(error.message().contains("too slow"));
        }
        other => panic!("not failed: {:?}", other),
    }
    assert_eq!(flow.exit_code(), 1);
}

#[test]
fn channel_flow_refusal_without_a_reason_has_an_empty_reason() {
    let mut mock = Mock::new(ok(CHANNEL_PARAMS), ok("{\"status\":\"ERROR\"}"));
    let flow = mock.run_channel();
    assert_eq!(
        flow.state(),
        &ChannelState::Failed { error: FlowError::ProtocolError { reason: String::new() } }
    );
}

#[test]
fn channel_flow_timeout_at_the_fetch_names_host_and_port() {
    let mut mock = Mock::new(timeout(), ok("{\"status\":\"OK\"}"));
    let flow = mock.run_channel();
    match flow.state() {
        ChannelState::Failed { error } => {
            assert_eq!(error, &unreachable_service());
            assert_eq!(error.kind(), ErrorKind::Network);
            assert!(error.message().contains("10.0.0.2"));
            assert!(error.message().contains("8080"));
        }
        other => panic!("not failed: {:?}", other),
    }
    assert_eq!(mock.http_calls, 1);
    assert_eq!(mock.node_calls, 1);
    assert_eq!(mock.actions, vec![Action::GetIdentity, get("http://10.0.0.2:8080/request-channel")]);
    assert_eq!(flow.exit_code(), 1);
}

#[test]
fn channel_flow_stops_when_the_node_fails() {
    let mut mock = Mock::new(ok(CHANNEL_PARAMS), ok("{\"status\":\"OK\"}"));
    mock.identity = Event::NodeFailure { reason: "getinfo failed: x".to_string() };
    let flow = mock.run_channel();
    assert_eq!(
        flow.state(),
        &ChannelState::Failed {
            error: FlowError::NodeError { reason: "getinfo failed: x".to_string() }
        }
    );
    assert_eq!(mock.http_calls, 0);

    let mut mock = Mock::new(ok(CHANNEL_PARAMS), ok("{\"status\":\"OK\"}"));
    mock.connect = Event::NodeFailure { reason: "connect failed: y".to_string() };
    let flow = mock.run_channel();
    assert_eq!(
        flow.state(),
        &ChannelState::Failed {
            error: FlowError::NodeError { reason: "connect failed: y".to_string() }
        }
    );
    assert_eq!(mock.http_calls, 1);
}

#[test]
fn channel_flow_stops_on_malformed_parameters() {
    let mut mock = Mock::new(ok("{\"uri\":\"nobody\"}"), ok("{\"status\":\"OK\"}"));
    let flow = mock.run_channel();
    assert_eq!(
        flow.state(),
        &ChannelState::Failed {
            error: FlowError::ProtocolError { reason: "Malformed channel parameters".to_string() }
        }
    );
    assert_eq!(mock.http_calls, 1);
    assert_eq!(mock.node_calls, 1);
}

#[test]
fn channel_flow_timeout_at_the_callback_names_the_callback() {
    let params = "{\"uri\":\"02ab@10.0.0.2:9735\",\"callback\":\"https://cb.example.com/o\",\
                  \"k1\":\"k\",\"tag\":\"t\"}";
    let mut mock = Mock::new(ok(params), timeout());
    let flow = mock.run_channel();
    assert_eq!(
        flow.state(),
        &ChannelState::Failed {
            error: FlowError::NetworkError {
                host: "cb.example.com".to_string(),
                port: Some(443),
                detail: "operation timed out".to_string(),
            }
        }
    );
}

#[test]
fn withdraw_flow_succeeds_when_every_step_is_ok() {
    let mut mock = Mock::new(ok(WITHDRAW_PARAMS), ok("{\"status\":\"OK\"}"));
    let flow = mock.run_withdraw(5000, None);
    assert_eq!(flow.state(), &WithdrawState::Succeeded);
    assert!(flow.is_finished());
    assert_eq!(flow.exit_code(), 0);
    assert_eq!(
        mock.actions,
        vec![
            get("http://10.0.0.2:8080/request-withdraw"),
            Action::Resume,
            Action::CreateInvoice {
                amount_msat: 5000,
                label: "lnurl-withdraw-1700000000123".to_string(),
                description: "a gift".to_string(),
            },
            get("http://10.0.0.2:8080/withdraw?k1=k-2&pr=lnbc50n1%20x"),
            Action::Resume,
        ]
    );
}

#[test]
fn withdraw_flow_passes_through_its_states() {
    let flow = WithdrawFlow::new(config(), base(), 1000, Some("mine".to_string()), 7);
    assert_eq!(flow.state(), &WithdrawState::Init);
    assert_eq!(flow.exit_code(), 1);
    let flow = flow.step(ok(WITHDRAW_PARAMS));
    assert_eq!(flow.state(), &WithdrawState::ParamsFetched { params: withdraw_params() });
    let flow = flow.step(Event::Resumed);
    assert_eq!(
        flow.state(),
        &WithdrawState::RangeValidated { params: withdraw_params(), description: "mine".into() }
    );
    assert_eq!(
        flow.next_action(),
        Action::CreateInvoice {
            amount_msat: 1000,
            label: "lnurl-withdraw-7".to_string(),
            description: "mine".to_string(),
        }
    );
    let flow = flow.step(Event::InvoiceCreated { payment_request: "lnbc1".to_string() });
    assert_eq!(
        flow.state(),
        &WithdrawState::InvoiceCreated {
            params: withdraw_params(),
            invoice: Invoice { encoded_payment_request: "lnbc1".to_string() },
        }
    );
    let flow = flow.step(ok("{\"status\":\"OK\"}"));
    assert_eq!(
        flow.state(),
        &WithdrawState::WithdrawSubmitted { status: 200, body: "{\"status\":\"OK\"}".into() }
    );
    let flow = flow.step(Event::Resumed);
    assert_eq!(flow.state(), &WithdrawState::Succeeded);
}

#[test]
fn withdraw_amount_below_the_range_makes_no_call() {
    let mut mock = Mock::new(ok(WITHDRAW_PARAMS), ok("{\"status\":\"OK\"}"));
    let flow = mock.run_withdraw(999, None);
    let expected = FlowError::ValidationError {
        violation: Violation::AmountOutOfRange { amount_msat: 999, min_msat: 1000, max_msat: 10000 },
    };
    assert_eq!(flow.state(), &WithdrawState::Failed { error: expected.clone() });
    assert_eq!(expected.kind(), ErrorKind::Validation);
    assert_eq!(expected.message(), "Amount 999 msat is outside allowed range [1000, 10000]");
    assert_eq!(mock.node_calls, 0);
    assert_eq!(mock.http_calls, 1);
    assert_eq!(mock.actions, vec![get("http://10.0.0.2:8080/request-withdraw"), Action::Resume]);
    assert_eq!(flow.exit_code(), 1);
}

#[test]
fn withdraw_amount_above_the_range_makes_no_call() {
    let mut mock = Mock::new(ok(WITHDRAW_PARAMS), ok("{\"status\":\"OK\"}"));
    let flow = mock.run_withdraw(10001, None);
    assert_eq!(
        flow.state(),
        &WithdrawState::Failed {
            error: FlowError::ValidationError {
                violation: Violation::AmountOutOfRange {
                    amount_msat: 10001,
                    min_msat: 1000,
                    max_msat: 10000,
                },
            }
        }
    );
    assert_eq!(mock.node_calls, 0);
    assert_eq!(mock.http_calls, 1);
}

#[test]
fn withdraw_amount_at_either_end_of_the_range_passes() {
    assert_eq!(validate_amount(&withdraw_params(), 1000), Ok(()));
    assert_eq!(validate_amount(&withdraw_params(), 10000), Ok(()));
    assert_eq!(validate_amount(&withdraw_params(), 5000), Ok(()));
    assert!(validate_amount(&withdraw_params(), 999).is_err());
    assert!(validate_amount(&withdraw_params(), 10001).is_err());
    assert!(validate_amount(&withdraw_params(), 0).is_err());
    assert!(validate_amount(&withdraw_params(), u64::MAX).is_err());
    for amount in [1000, 10000] {
        let mut mock = Mock::new(ok(WITHDRAW_PARAMS), ok("{\"status\":\"OK\"}"));
        let flow = mock.run_withdraw(amount, None);
        assert_eq!(flow.state(), &WithdrawState::Succeeded);
        assert_eq!(mock.node_calls, 1);
        assert_eq!(mock.http_calls, 2);
    }
}

#[test]
fn withdraw_description_is_the_callers_or_the_default() {
    assert_eq!(
        after_validation(withdraw_params(), 2000, &None),
        WithdrawState::RangeValidated { params: withdraw_params(), description: "a gift".into() }
    );
    assert_eq!(
        after_validation(withdraw_params(), 2000, &Some("rent".to_string())),
        WithdrawState::RangeValidated { params: withdraw_params(), description: "rent".into() }
    );
}

#[test]
fn withdraw_flow_fails_with_the_reason_of_the_callback() {
    let mut mock = Mock::new(ok(WITHDRAW_PARAMS), ok(REFUSAL));
    let flow = mock.run_withdraw(5000, None);
    match flow.state() {
        WithdrawState::Failed { error } => {
            assert_eq!(error, &FlowError::ProtocolError { reason: "too slow".to_string() });
            assert!(error.message().contains("too slow"));
        }
        other => panic!("not failed: {:?}", other),
    }
    assert_eq!(flow.exit_code(), 1);
}

#[test]
fn withdraw_flow_refusal_without_a_reason_is_an_unknown_error() {
    let mut mock = Mock::new(ok(WITHDRAW_PARAMS), ok("{\"status\":\"ERROR\"}"));
    let flow = mock.run_withdraw(5000, None);
    assert_eq!(
        flow.state(),
        &WithdrawState::Failed {
            error: FlowError::ProtocolError { reason: "Unknown error".to_string() }
        }
    );
}

#[test]
fn withdraw_flow_surfaces_the_body_of_an_http_error() {
    let mut mock = Mock::new(
        ok(WITHDRAW_PARAMS),
        Event::HttpResponse { status: 502, body: "bad gateway".to_string() },
    );
    let flow = mock.run_withdraw(5000, None);
    assert_eq!(
        flow.state(),
        &WithdrawState::Failed {
            error: FlowError::ProtocolError { reason: "bad gateway".to_string() }
        }
    );
}

#[test]
fn withdraw_flow_timeout_at_the_fetch_names_host_and_port() {
    let mut mock = Mock::new(timeout(), ok("{\"status\":\"OK\"}"));
    let flow = mock.run_withdraw(5000, None);
    match flow.state() {
        WithdrawState::Failed { error } => {
            assert_eq!(error, &unreachable_service());
            assert!(error.message().contains("10.0.0.2"));
            assert!(error.message().contains("8080"));
        }
        other => panic!("not failed: {:?}", other),
    }
    assert_eq!(mock.http_calls, 1);
    assert_eq!(mock.node_calls, 0);
    assert_eq!(flow.exit_code(), 1);
}

#[test]
fn withdraw_flow_stops_when_the_invoice_fails() {
    let mut mock = Mock::new(ok(WITHDRAW_PARAMS), ok("{\"status\":\"OK\"}"));
    mock.invoice = Event::NodeFailure { reason: "invoice creation failed: z".to_string() };
    let flow = mock.run_withdraw(5000, None);
    assert_eq!(
        flow.state(),
        &WithdrawState::Failed {
            error: FlowError::NodeError { reason: "invoice creation failed: z".to_string() }
        }
    );
    assert_eq!(mock.http_calls, 1);
}

#[test]
fn auth_flow_succeeds_when_every_step_is_ok() {
    let mut mock = Mock::new(ok("\"abc 123\""), ok("{\"status\":\"OK\"}"));
    let flow = mock.run_auth();
    assert_eq!(flow.state(), &AuthState::Succeeded);
    assert!(flow.is_finished());
    assert_eq!(flow.exit_code(), 0);
    assert_eq!(
        mock.actions,
        vec![
            Action::GetIdentity,
            get("http://10.0.0.2:8080/auth-challenge"),
            Action::SignMessage { message: "abc 123".to_string() },
            get("http://10.0.0.2:8080/auth-response?k1=abc%20123&signature=d9rz%2Bsig&pubkey=03me"),
            Action::Resume,
        ]
    );
}

#[test]
fn auth_flow_takes_the_wrapped_challenge_too() {
    let mut bare = Mock::new(ok("\"abc123\""), ok("{\"status\":\"OK\"}"));
    let mut wrapped = Mock::new(ok("{\"k1\":\"abc123\"}"), ok("{\"status\":\"OK\"}"));
    assert_eq!(bare.run_auth().state(), &AuthState::Succeeded);
    assert_eq!(wrapped.run_auth().state(), &AuthState::Succeeded);
    assert_eq!(bare.actions, wrapped.actions);
}

#[test]
fn auth_flow_fails_with_the_reason_of_the_response() {
    let mut mock = Mock::new(ok("\"abc123\""), ok(REFUSAL));
    let flow = mock.run_auth();
    match flow.state() {
        AuthState::Failed { error } => {
            assert_eq!(error, &FlowError::ProtocolError { reason: "too slow".to_string() });
            assert!(error.message().contains("too slow"));
        }
        other => panic!("not failed: {:?}", other),
    }
    assert_eq!(flow.exit_code(), 1);
}

#[test]
fn auth_flow_surfaces_the_body_of_an_http_error() {
    let mut mock = Mock::new(
        ok("\"abc123\""),
        Event::HttpResponse { status: 401, body: "{\"status\":\"OK\"}".to_string() },
    );
    let flow = mock.run_auth();
    assert_eq!(
        flow.state(),
        &AuthState::Failed {
            error: FlowError::ProtocolError { reason: "{\"status\":\"OK\"}".to_string() }
        }
    );
}

#[test]
fn auth_flow_timeout_at_the_fetch_names_host_and_port() {
    let mut mock = Mock::new(timeout(), ok("{\"status\":\"OK\"}"));
    let flow = mock.run_auth();
    match flow.state() {
        AuthState::Failed { error } => {
            assert_eq!(error, &unreachable_service());
            assert!(error.message().contains("10.0.0.2"));
            assert!(error.message().contains("8080"));
        }
        other => panic!("not failed: {:?}", other),
    }
    assert_eq!(mock.http_calls, 1);
    assert_eq!(mock.node_calls, 1);
    assert_eq!(flow.exit_code(), 1);
}

#[test]
fn auth_flow_stops_when_signing_fails() {
    let mut mock = Mock::new(ok("\"abc123\""), ok("{\"status\":\"OK\"}"));
    mock.signature = Event::NodeFailure { reason: "signmessage failed: locked".to_string() };
    let flow = mock.run_auth();
    assert_eq!(
        flow.state(),
        &AuthState::Failed {
            error: FlowError::NodeError { reason: "signmessage failed: locked".to_string() }
        }
    );
    assert_eq!(mock.http_calls, 1);
}

#[test]
fn an_event_that_answers_nothing_changes_nothing() {
    let flow = WithdrawFlow::new(config(), base(), 1000, None, 7);
    let flow = flow.step(Event::Resumed);
    assert_eq!(flow.state(), &WithdrawState::Init);
    let flow = flow.step(Event::PeerConnected);
    assert_eq!(flow.state(), &WithdrawState::Init);
    let flow = AuthFlow::new(config(), base()).step(ok("\"abc\""));
    assert_eq!(flow.state(), &AuthState::Init { identity: None });
    let flow = ChannelFlow::new(config(), base()).step(timeout());
    assert_eq!(flow.state(), &ChannelState::Init { identity: None });
}

#[test]
fn a_flow_that_has_ended_stays_as_it_is() {
    let mut mock = Mock::new(timeout(), ok("{\"status\":\"OK\"}"));
    let mut flow = mock.run_withdraw(5000, None);
    for event in [ok(WITHDRAW_PARAMS), Event::Resumed, timeout(), Event::PeerConnected] {
        flow = flow.step(event);
        assert_eq!(flow.state(), &WithdrawState::Failed { error: unreachable_service() });
        assert_eq!(flow.next_action(), Action::Stop);
    }
}
