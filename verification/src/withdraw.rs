//! The withdraw flow: fetch the parameters, check the amount against the
//! range that the service allows, have the node make an invoice, and submit
//! it to the callback.

use crate::address::{ServerAddress, ServerAddressView};
use crate::decimal::{decimal, lemma_decimal_injective, push_decimal};
use crate::error::{
    lemma_message_mentions, message_of, FlowError, FlowErrorView, Violation, ViolationView,
};
use crate::flow::{
    endpoint, endpoint_url, is_success, network_error, node_error, verdict, verdict_of, Action,
    ActionView, Event, EventView, FlowConfig, FlowConfigView, Invoice,
};
use crate::model::result_view;
use crate::percent::{percent_encoded, push_percent_encoded};
use crate::responses::{
    decoded_outcome, decoded_withdraw_parameters, OutcomeView, Status, WithdrawOutcome,
    WithdrawParameters, WithdrawParametersView,
};
use crate::text::occurs_in;
use vstd::prelude::*;
use vstd::string::StringExecFns;

verus! {

/// How far a withdrawal has come.
#[derive(Debug, PartialEq, Eq)]
pub enum WithdrawState {
    /// Nothing is known yet; the parameters are being fetched.
    Init,
    /// The service has sent its parameters.
    ParamsFetched { params: WithdrawParameters },
    /// The amount lies in the range that the service allows.
    RangeValidated { params: WithdrawParameters, description: String },
    /// The node has made the invoice.
    InvoiceCreated { params: WithdrawParameters, invoice: Invoice },
    /// The service has answered the callback.
    WithdrawSubmitted { status: u16, body: String },
    /// The service granted the withdrawal.
    Succeeded,
    /// The flow stopped at its first failing step.
    Failed { error: FlowError },
}

/// The mathematical value of a [`WithdrawState`].
pub enum WithdrawStateView {
    Init,
    ParamsFetched { params: WithdrawParametersView },
    RangeValidated { params: WithdrawParametersView, description: Seq<char> },
    InvoiceCreated { params: WithdrawParametersView, invoice: Seq<char> },
    WithdrawSubmitted { status: u16, body: Seq<char> },
    Succeeded,
    Failed { error: FlowErrorView },
}

impl View for WithdrawState {
    type V = WithdrawStateView;

    open spec fn view(&self) -> WithdrawStateView {
        match self {
            WithdrawState::Init => WithdrawStateView::Init,
            WithdrawState::ParamsFetched { params } => WithdrawStateView::ParamsFetched {
                params: params@,
            },
            WithdrawState::RangeValidated { params, description } => {
                WithdrawStateView::RangeValidated { params: params@, description: description@ }
            },
            WithdrawState::InvoiceCreated { params, invoice } => {
                WithdrawStateView::InvoiceCreated { params: params@, invoice: invoice@ }
            },
            WithdrawState::WithdrawSubmitted { status, body } => {
                WithdrawStateView::WithdrawSubmitted { status: *status, body: body@ }
            },
            WithdrawState::Succeeded => WithdrawStateView::Succeeded,
            WithdrawState::Failed { error } => WithdrawStateView::Failed { error: error@ },
        }
    }
}

impl WithdrawStateView {
    /// Whether the flow has ended in this state.
    pub open spec fn is_final(self) -> bool {
        self is Succeeded || self is Failed
    }
}

/// A withdrawal in progress: what it was set up with, what was asked for,
/// and how far it has come.
#[derive(Debug, PartialEq, Eq)]
pub struct WithdrawFlow {
    config: FlowConfig,
    base: ServerAddress,
    amount_msat: u64,
    description: Option<String>,
    started_at_millis: u128,
    state: WithdrawState,
}

/// The mathematical value of a [`WithdrawFlow`].
pub struct WithdrawFlowView {
    pub config: FlowConfigView,
    pub base: ServerAddressView,
    pub amount_msat: u64,
    pub description: Option<Seq<char>>,
    pub started_at_millis: u128,
    pub state: WithdrawStateView,
}

impl View for WithdrawFlow {
    type V = WithdrawFlowView;

    closed spec fn view(&self) -> WithdrawFlowView {
        WithdrawFlowView {
            config: self.config@,
            base: self.base@,
            amount_msat: self.amount_msat,
            description: self.description.deep_view(),
            started_at_millis: self.started_at_millis,
            state: self.state@,
        }
    }
}

/// Whether the service allows the amount: the range includes both its ends.
pub open spec fn amount_allowed(params: WithdrawParametersView, amount_msat: u64) -> bool {
    params.min_withdrawable_msat <= amount_msat <= params.max_withdrawable_msat
}

/// The violation that names the amount and the range that it misses.
pub open spec fn out_of_range(params: WithdrawParametersView, amount_msat: u64) -> FlowErrorView {
    FlowErrorView::ValidationError {
        violation: ViolationView::AmountOutOfRange {
            amount_msat,
            min_msat: params.min_withdrawable_msat,
            max_msat: params.max_withdrawable_msat,
        },
    }
}

/// What checking the amount gives.
pub open spec fn validated(params: WithdrawParametersView, amount_msat: u64) -> Result<
    (),
    FlowErrorView,
> {
    if amount_allowed(params, amount_msat) {
        Ok(())
    } else {
        Err(out_of_range(params, amount_msat))
    }
}

/// The description of the invoice: the caller's where there is one, the
/// service's otherwise.
pub open spec fn resolved_description(given: Option<Seq<char>>, default: Seq<char>) -> Seq<char> {
    match given {
        Some(description) => description,
        None => default,
    }
}

/// The label of the invoice, made from the time at which the flow began.
pub open spec fn invoice_label(started_at_millis: u128) -> Seq<char> {
    "lnurl-withdraw-"@ + decimal(started_at_millis as nat)
}

/// The URL of the callback that submits the invoice.
pub open spec fn submit_url(params: WithdrawParametersView, invoice: Seq<char>) -> Seq<char> {
    params.callback.url + "?k1="@ + params.k1 + "&pr="@ + percent_encoded(invoice)
}

/// The state after the answer to the request for parameters.
pub open spec fn state_after_parameters(
    decoded: Result<WithdrawParametersView, FlowErrorView>,
) -> WithdrawStateView {
    match decoded {
        Ok(params) => WithdrawStateView::ParamsFetched { params },
        Err(error) => WithdrawStateView::Failed { error },
    }
}

/// The state after the amount was checked.
pub open spec fn state_after_validation(
    params: WithdrawParametersView,
    amount_msat: u64,
    description: Option<Seq<char>>,
) -> WithdrawStateView {
    match validated(params, amount_msat) {
        Ok(_) => WithdrawStateView::RangeValidated {
            params,
            description: resolved_description(description, params.default_description),
        },
        Err(error) => WithdrawStateView::Failed { error },
    }
}

/// The state after the answer to the callback was read.
pub open spec fn state_after_outcome(
    status: u16,
    body: Seq<char>,
    decoded: Result<OutcomeView, FlowErrorView>,
) -> WithdrawStateView {
    let verdict = verdict_of(
        status,
        body,
        match decoded {
            Ok(outcome) => Ok((outcome.status, outcome.reason)),
            Err(e) => Err(e),
        },
    );
    match verdict {
        None => WithdrawStateView::Succeeded,
        Some(error) => WithdrawStateView::Failed { error },
    }
}

/// The state that an event leads to. An event that does not answer the work
/// that the state waits for changes nothing; nor does any event once the
/// flow has ended.
pub open spec fn withdraw_next(flow: WithdrawFlowView, event: EventView) -> WithdrawStateView {
    match (flow.state, event) {
        (WithdrawStateView::Init, EventView::HttpResponse { status, body }) => {
            state_after_parameters(decoded_withdraw_parameters(body))
        },
        (WithdrawStateView::Init, EventView::HttpFailure { detail }) => WithdrawStateView::Failed {
            error: FlowErrorView::NetworkError {
                host: flow.base.host,
                port: flow.base.port,
                detail,
            },
        },
        (WithdrawStateView::ParamsFetched { params }, EventView::Resumed) => {
            state_after_validation(params, flow.amount_msat, flow.description)
        },
        (
            WithdrawStateView::RangeValidated { params, description },
            EventView::InvoiceCreated { payment_request },
        ) => WithdrawStateView::InvoiceCreated { params, invoice: payment_request },
        (WithdrawStateView::RangeValidated { .. }, EventView::NodeFailure { reason }) => {
            WithdrawStateView::Failed { error: FlowErrorView::NodeError { reason } }
        },
        (
            WithdrawStateView::InvoiceCreated { params, invoice },
            EventView::HttpResponse { status, body },
        ) => WithdrawStateView::WithdrawSubmitted { status, body },
        (WithdrawStateView::InvoiceCreated { params, invoice }, EventView::HttpFailure { detail }) => {
            WithdrawStateView::Failed {
                error: FlowErrorView::NetworkError {
                    host: params.callback.host,
                    port: params.callback.port,
                    detail,
                },
            }
        },
        (WithdrawStateView::WithdrawSubmitted { status, body }, EventView::Resumed) => {
            state_after_outcome(status, body, decoded_outcome(body, "withdraw"@))
        },
        (state, _) => state,
    }
}

/// The flow after an event: only its state changes.
pub open spec fn withdraw_step(flow: WithdrawFlowView, event: EventView) -> WithdrawFlowView {
    WithdrawFlowView { state: withdraw_next(flow, event), ..flow }
}

/// The flow after a run of events, one after the other.
pub open spec fn withdraw_run(flow: WithdrawFlowView, events: Seq<EventView>) -> WithdrawFlowView
    decreases events.len(),
{
    if events.len() == 0 {
        flow
    } else {
        withdraw_step(withdraw_run(flow, events.drop_last()), events.last())
    }
}

/// The work that a flow waits for.
pub open spec fn withdraw_action(flow: WithdrawFlowView) -> ActionView {
    match flow.state {
        WithdrawStateView::Init => ActionView::HttpGet {
            url: endpoint_url(flow.base.url, flow.config.withdraw_path),
        },
        WithdrawStateView::ParamsFetched { .. } => ActionView::Resume,
        WithdrawStateView::RangeValidated { params, description } => ActionView::CreateInvoice {
            amount_msat: flow.amount_msat,
            label: invoice_label(flow.started_at_millis),
            description,
        },
        WithdrawStateView::InvoiceCreated { params, invoice } => ActionView::HttpGet {
            url: submit_url(params, invoice),
        },
        WithdrawStateView::WithdrawSubmitted { .. } => ActionView::Resume,
        WithdrawStateView::Succeeded => ActionView::Stop,
        WithdrawStateView::Failed { .. } => ActionView::Stop,
    }
}

/// The exit code of the process that ran the flow: 0 where the service
/// granted the withdrawal, 1 otherwise.
pub open spec fn withdraw_exit_code(state: WithdrawStateView) -> u8 {
    if state is Succeeded {
        0
    } else {
        1
    }
}

/// Flows that begin at different times label their invoices differently.
pub proof fn lemma_labels_differ(earlier: u128, later: u128)
    requires
        earlier != later,
    ensures
        invoice_label(earlier) != invoice_label(later),
{
    let head = "lnurl-withdraw-"@;
    let a = invoice_label(earlier);
    let b = invoice_label(later);
    if a == b {
        assert(a.subrange(head.len() as int, a.len() as int) == decimal(earlier as nat));
        assert(b.subrange(head.len() as int, b.len() as int) == decimal(later as nat));
        lemma_decimal_injective(earlier as nat, later as nat);
    }
}

/// An amount at either end of the range is allowed, and takes the flow on
/// to the invoice.
pub proof fn lemma_range_includes_its_ends(
    params: WithdrawParametersView,
    description: Option<Seq<char>>,
)
    requires
        params.wf(),
    ensures
        validated(params, params.min_withdrawable_msat) is Ok,
        validated(params, params.max_withdrawable_msat) is Ok,
        state_after_validation(params, params.min_withdrawable_msat, description) is RangeValidated,
        state_after_validation(params, params.max_withdrawable_msat, description) is RangeValidated,
{
}

/// A flow that has ended stays as it is whatever is reported to it, and
/// asks for no more work.
pub proof fn lemma_ended_flow_stays(flow: WithdrawFlowView, events: Seq<EventView>)
    requires
        flow.state.is_final(),
    ensures
        withdraw_run(flow, events) == flow,
        withdraw_action(withdraw_run(flow, events)) == ActionView::Stop,
    decreases events.len(),
{
    if events.len() > 0 {
        lemma_ended_flow_stays(flow, events.drop_last());
    }
}

/// Where the amount lies outside the range that the service allows, the
/// flow fails with the violation that names the amount and the range, and
/// whatever is reported to it afterwards, it never asks for an invoice or
/// for a request to the callback: all that it asks for is to stop.
pub proof fn lemma_out_of_range_makes_no_call(
    flow: WithdrawFlowView,
    params: WithdrawParametersView,
    later: Seq<EventView>,
)
    requires
        flow.state == (WithdrawStateView::ParamsFetched { params }),
        !amount_allowed(params, flow.amount_msat),
    ensures
        withdraw_action(flow) == ActionView::Resume,
        withdraw_step(flow, EventView::Resumed).state == (WithdrawStateView::Failed {
            error: out_of_range(params, flow.amount_msat),
        }),
        withdraw_run(withdraw_step(flow, EventView::Resumed), later) == withdraw_step(
            flow,
            EventView::Resumed,
        ),
        !withdraw_action(withdraw_run(withdraw_step(flow, EventView::Resumed), later)).is_call(),
{
    lemma_ended_flow_stays(withdraw_step(flow, EventView::Resumed), later);
}

/// Where the service sends parameters whose range the amount misses, the
/// flow fails with the violation that names the amount and the range. The
/// request for the parameters is the only call that it ever asks for: after
/// it comes the check, and after the check nothing but the end.
pub proof fn lemma_out_of_range_withdrawal_fails(
    flow: WithdrawFlowView,
    status: u16,
    body: Seq<char>,
    later: Seq<EventView>,
)
    requires
        flow.state is Init,
    ensures
        (decoded_withdraw_parameters(body) matches Ok(params) && !amount_allowed(
            params,
            flow.amount_msat,
        )) ==> ({
            let params = decoded_withdraw_parameters(body)->Ok_0;
            let fetched = withdraw_step(flow, EventView::HttpResponse { status, body });
            let checked = withdraw_step(fetched, EventView::Resumed);
            &&& withdraw_action(fetched) == ActionView::Resume
            &&& checked.state == (WithdrawStateView::Failed {
                error: out_of_range(params, flow.amount_msat),
            })
            &&& withdraw_exit_code(checked.state) == 1
            &&& withdraw_run(checked, later) == checked
            &&& withdraw_action(withdraw_run(checked, later)) == ActionView::Stop
        }),
{
    match decoded_withdraw_parameters(body) {
        Ok(params) => {
            if !amount_allowed(params, flow.amount_msat) {
                let fetched = withdraw_step(flow, EventView::HttpResponse { status, body });
                lemma_out_of_range_makes_no_call(fetched, params, later);
            }
        },
        Err(_) => {},
    }
}

/// Where the request for the parameters cannot be completed, the flow fails
/// with a network error that names the host and the port of the service,
/// and asks for no more work.
pub proof fn lemma_unreachable_service_ends_flow(
    flow: WithdrawFlowView,
    detail: Seq<char>,
    later: Seq<EventView>,
)
    requires
        flow.state is Init,
    ensures
        withdraw_step(flow, EventView::HttpFailure { detail }).state == (WithdrawStateView::Failed {
            error: FlowErrorView::NetworkError {
                host: flow.base.host,
                port: flow.base.port,
                detail,
            },
        }),
        !withdraw_action(
            withdraw_run(withdraw_step(flow, EventView::HttpFailure { detail }), later),
        ).is_call(),
{
    lemma_ended_flow_stays(withdraw_step(flow, EventView::HttpFailure { detail }), later);
}

/// A run that is one event longer ends one step further.
pub proof fn lemma_run_one_more(flow: WithdrawFlowView, events: Seq<EventView>, event: EventView)
    ensures
        withdraw_run(flow, events.push(event)) == withdraw_step(withdraw_run(flow, events), event),
{
    assert(events.push(event).drop_last() == events);
}

/// Where every step goes well, the flow ends in success and the process
/// exits with 0: the service sends parameters that allow the amount, the
/// node makes the invoice, and the service grants the withdrawal.
pub proof fn lemma_granted_withdrawal_succeeds(
    flow: WithdrawFlowView,
    parameters: Seq<char>,
    invoice: Seq<char>,
    status: u16,
    answer: Seq<char>,
)
    requires
        flow.state is Init,
    ensures
        ({
            &&& decoded_withdraw_parameters(parameters) matches Ok(params)
            &&& amount_allowed(params, flow.amount_msat)
            &&& is_success(status)
            &&& decoded_outcome(answer, "withdraw"@) matches Ok(outcome)
            &&& outcome.status is Granted
        }) ==> ({
            let end = withdraw_run(
                flow,
                seq![
                    EventView::HttpResponse { status: 200, body: parameters },
                    EventView::Resumed,
                    EventView::InvoiceCreated { payment_request: invoice },
                    EventView::HttpResponse { status, body: answer },
                    EventView::Resumed,
                ],
            );
            end.state is Succeeded && withdraw_exit_code(end.state) == 0
        }),
{
    let e1 = EventView::HttpResponse { status: 200, body: parameters };
    let e2 = EventView::Resumed;
    let e3 = EventView::InvoiceCreated { payment_request: invoice };
    let e4 = EventView::HttpResponse { status, body: answer };
    let none = Seq::<EventView>::empty();
    assert(seq![e1, e2, e3, e4, e2] == none.push(e1).push(e2).push(e3).push(e4).push(e2));
    lemma_run_one_more(flow, none, e1);
    lemma_run_one_more(flow, none.push(e1), e2);
    lemma_run_one_more(flow, none.push(e1).push(e2), e3);
    lemma_run_one_more(flow, none.push(e1).push(e2).push(e3), e4);
    lemma_run_one_more(flow, none.push(e1).push(e2).push(e3).push(e4), e2);
}

/// Where the service refuses the withdrawal and says why, the flow fails,
/// the report of the failure quotes the reason, the process exits with 1 and
/// no more work is asked for.
pub proof fn lemma_refusal_is_reported(
    flow: WithdrawFlowView,
    status: u16,
    body: Seq<char>,
    reason: Seq<char>,
)
    requires
        flow.state == (WithdrawStateView::WithdrawSubmitted { status, body }),
        is_success(status),
    ensures
        decoded_outcome(body, "withdraw"@) == Ok::<OutcomeView, FlowErrorView>(
            OutcomeView { status: Status::Refused, reason: Some(reason) },
        ) ==> ({
            let end = withdraw_step(flow, EventView::Resumed);
            &&& end.state == (WithdrawStateView::Failed {
                error: FlowErrorView::ProtocolError { reason },
            })
            &&& occurs_in(reason, message_of(FlowErrorView::ProtocolError { reason }))
            &&& withdraw_exit_code(end.state) == 1
            &&& withdraw_action(end) == ActionView::Stop
        }),
{
    lemma_message_mentions(FlowErrorView::ProtocolError { reason });
}

/// Checks the amount against the range that the service allows.
pub fn validate_amount(params: &WithdrawParameters, amount_msat: u64) -> (checked: Result<
    (),
    FlowError,
>)
    ensures
        checked is Ok == validated(params@, amount_msat) is Ok,
        checked matches Err(e) ==> validated(params@, amount_msat) == Err::<(), FlowErrorView>(e@),
{
    let min = params.min_withdrawable_msat();
    let max = params.max_withdrawable_msat();
    if min <= amount_msat && amount_msat <= max {
        Ok(())
    } else {
        Err(
            FlowError::ValidationError {
                violation: Violation::AmountOutOfRange {
                    amount_msat,
                    min_msat: min,
                    max_msat: max,
                },
            },
        )
    }
}

/// The state after the answer to the request for parameters, given what the
/// decoder made of the answer.
pub fn after_parameters(decoded: Result<WithdrawParameters, FlowError>) -> (state: WithdrawState)
    ensures
        state@ == state_after_parameters(result_view(decoded)),
{
    match decoded {
        Ok(params) => WithdrawState::ParamsFetched { params },
        Err(error) => WithdrawState::Failed { error },
    }
}

/// The state after the amount was checked against the parameters.
pub fn after_validation(
    params: WithdrawParameters,
    amount_msat: u64,
    description: &Option<String>,
) -> (state: WithdrawState)
    ensures
        state@ == state_after_validation(params@, amount_msat, description.deep_view()),
{
    match validate_amount(&params, amount_msat) {
        Ok(_) => {
            let description = match description {
                Some(given) => given.clone(),
                None => params.default_description().to_owned(),
            };
            WithdrawState::RangeValidated { params, description }
        },
        Err(error) => WithdrawState::Failed { error },
    }
}

/// The state after the answer to the callback, given the HTTP status, the
/// body and what the decoder made of the body.
pub fn after_outcome(status: u16, body: String, decoded: Result<WithdrawOutcome, FlowError>) -> (state:
    WithdrawState)
    ensures
        state@ == state_after_outcome(status, body@, result_view(decoded)),
{
    let decoded = match decoded {
        Ok(outcome) => Ok((outcome.status, outcome.reason)),
        Err(e) => Err(e),
    };
    match verdict(status, body, decoded) {
        None => WithdrawState::Succeeded,
        Some(error) => WithdrawState::Failed { error },
    }
}

impl WithdrawFlow {
    /// A withdrawal of `amount_msat` from the service at `base`, described
    /// by `description` where one is given, that begins at
    /// `started_at_millis` (milliseconds since the Unix epoch).
    pub fn new(
        config: FlowConfig,
        base: ServerAddress,
        amount_msat: u64,
        description: Option<String>,
        started_at_millis: u128,
    ) -> (flow: WithdrawFlow)
        ensures
            flow@ == (WithdrawFlowView {
                config: config@,
                base: base@,
                amount_msat,
                description: description.deep_view(),
                started_at_millis,
                state: WithdrawStateView::Init,
            }),
    {
        WithdrawFlow {
            config,
            base,
            amount_msat,
            description,
            started_at_millis,
            state: WithdrawState::Init,
        }
    }

    /// How far the flow has come.
    pub fn state(&self) -> (state: &WithdrawState)
        ensures
            state@ == self@.state,
    {
        &self.state
    }

    /// Whether the flow has ended.
    pub fn is_finished(&self) -> (finished: bool)
        ensures
            finished == self@.state.is_final(),
    {
        match &self.state {
            WithdrawState::Succeeded => true,
            WithdrawState::Failed { .. } => true,
            _ => false,
        }
    }

    /// The exit code of the process that ran the flow.
    pub fn exit_code(&self) -> (code: u8)
        ensures
            code == withdraw_exit_code(self@.state),
    {
        match &self.state {
            WithdrawState::Succeeded => 0,
            _ => 1,
        }
    }

    /// The work that the flow waits for.
    pub fn next_action(&self) -> (action: Action)
        ensures
            action@ == withdraw_action(self@),
    {
        match &self.state {
            WithdrawState::Init => Action::HttpGet {
                url: endpoint(self.base.url(), self.config.withdraw_path.as_str()),
            },
            WithdrawState::ParamsFetched { .. } => Action::Resume,
            WithdrawState::RangeValidated { params, description } => {
                let mut label = String::from_str("lnurl-withdraw-");
                push_decimal(&mut label, self.started_at_millis);
                Action::CreateInvoice {
                    amount_msat: self.amount_msat,
                    label,
                    description: description.clone(),
                }
            },
            WithdrawState::InvoiceCreated { params, invoice } => {
                let mut url = params.callback().url().to_owned();
                url.append("?k1=");
                url.append(params.k1());
                url.append("&pr=");
                push_percent_encoded(&mut url, invoice.encoded_payment_request.as_str());
                Action::HttpGet { url }
            },
            WithdrawState::WithdrawSubmitted { .. } => Action::Resume,
            WithdrawState::Succeeded => Action::Stop,
            WithdrawState::Failed { .. } => Action::Stop,
        }
    }

    /// Takes the flow to its next state with what came of the work it
    /// waited for.
    pub fn step(self, event: Event) -> (next: WithdrawFlow)
        ensures
            next@ == withdraw_step(self@, event@),
    {
        let WithdrawFlow { config, base, amount_msat, description, started_at_millis, state } = self;
        let state = match (state, event) {
            (WithdrawState::Init, Event::HttpResponse { status, body }) => {
                after_parameters(WithdrawParameters::decode(body.as_str()))
            },
            (WithdrawState::Init, Event::HttpFailure { detail }) => WithdrawState::Failed {
                error: network_error(base.host(), base.port(), detail),
            },
            (WithdrawState::ParamsFetched { params }, Event::Resumed) => {
                after_validation(params, amount_msat, &description)
            },
            (
                WithdrawState::RangeValidated { params, description },
                Event::InvoiceCreated { payment_request },
            ) => WithdrawState::InvoiceCreated {
                params,
                invoice: Invoice { encoded_payment_request: payment_request },
            },
            (WithdrawState::RangeValidated { .. }, Event::NodeFailure { reason }) => {
                WithdrawState::Failed { error: node_error(reason) }
            },
            (
                WithdrawState::InvoiceCreated { params, invoice },
                Event::HttpResponse { status, body },
            ) => WithdrawState::WithdrawSubmitted { status, body },
            (WithdrawState::InvoiceCreated { params, invoice }, Event::HttpFailure { detail }) => {
                WithdrawState::Failed {
                    error: network_error(
                        params.callback().host(),
                        params.callback().port(),
                        detail,
                    ),
                }
            },
            (WithdrawState::WithdrawSubmitted { status, body }, Event::Resumed) => {
                let decoded = WithdrawOutcome::decode(body.as_str());
                after_outcome(status, body, decoded)
            },
            (state, _) => state,
        };
        WithdrawFlow { config, base, amount_msat, description, started_at_millis, state }
    }
}

} // verus!
