//! The shapes that Esnekpos speaks on the wire, and how they map to and
//! from the hub's own.

use vstd::prelude::*;
use crate::api::fallback_error;
use crate::consts;
use crate::errors::ConnectorError;
use crate::json::Document;
use crate::json::json_object;
use crate::json::text_member;
use crate::request::FieldView;
use crate::request::Payload;
use crate::request::PayloadValue;
use crate::request::ValueView;
use crate::text::text_eq;
use crate::types::AttemptStatus;
use crate::types::CurrencyUnit;
use crate::types::ErrorResponse;
use crate::types::ErrorView;
use crate::types::PaymentMethodData;
use crate::types::PaymentsAuthorizeData;
use crate::types::PaymentsResponseData;
use crate::types::RefundStatus;
use crate::types::RefundsData;
use crate::types::RefundsResponseData;
use crate::types::ResponseId;
use crate::types::RouterData;
use crate::types::text_view;

verus! {

/// An envelope together with the amount in the unit that Esnekpos takes.
pub struct EsnekposRouterData<T> {
    /// The amount, in the currency's minor unit.
    pub amount: i64,
    pub router_data: T,
}

impl<T> EsnekposRouterData<T> {
    /// Pairs an envelope with its amount. Esnekpos takes amounts in the
    /// minor unit, which is the unit they come in, so the amount stays.
    pub fn new(currency_unit: &CurrencyUnit, amount: i64, item: T) -> (paired: Self)
        ensures
            paired.amount == amount,
            paired.router_data == item,
    {
        EsnekposRouterData { amount, router_data: item }
    }
}

/// The card of a payment as Esnekpos takes it.
#[derive(PartialEq, Eq)]
pub struct EsnekposCard {
    pub number: String,
    pub expiry_month: String,
    pub expiry_year: String,
    pub cvc: String,
}

/// The body of an authorization.
#[derive(PartialEq, Eq)]
pub struct EsnekposPaymentsRequest {
    pub amount: i64,
    pub card: EsnekposCard,
}

/// The fields of the body of an authorization, for a payment by card; `None`
/// for a payment of any other kind. The card's fields are sensitive.
pub open spec fn authorize_fields(amount: i64, method: PaymentMethodData) -> Option<Seq<FieldView>> {
    match method {
        PaymentMethodData::Card(card) => Some(
            seq![
                FieldView { name: "amount"@, value: ValueView::Integer(amount as int) },
                FieldView { name: "card_number"@, value: ValueView::Secret(card.card_number@) },
                FieldView {
                    name: "card_expiry_month"@,
                    value: ValueView::Secret(card.card_exp_month@),
                },
                FieldView {
                    name: "card_expiry_year"@,
                    value: ValueView::Secret(card.card_exp_year@),
                },
                FieldView { name: "card_cvc"@, value: ValueView::Secret(card.card_cvc@) },
            ],
        ),
        PaymentMethodData::Other(_) => None,
    }
}

impl EsnekposPaymentsRequest {
    /// The fields that the request is written out as.
    pub open spec fn fields(self) -> Seq<FieldView> {
        seq![
            FieldView { name: "amount"@, value: ValueView::Integer(self.amount as int) },
            FieldView { name: "card_number"@, value: ValueView::Secret(self.card.number@) },
            FieldView { name: "card_expiry_month"@, value: ValueView::Secret(self.card.expiry_month@) },
            FieldView { name: "card_expiry_year"@, value: ValueView::Secret(self.card.expiry_year@) },
            FieldView { name: "card_cvc"@, value: ValueView::Secret(self.card.cvc@) },
        ]
    }

    /// The body of an authorization of `item.amount` with the payment method
    /// of `request`. Only payments by card are implemented.
    pub fn try_from(item: &EsnekposRouterData<&PaymentsAuthorizeData>) -> (request: Result<
        Self,
        ConnectorError,
    >)
        ensures
            match authorize_fields(item.amount, item.router_data.payment_method_data) {
                Some(fields) => request matches Ok(r) && r.fields() == fields,
                None => request matches Err(ConnectorError::NotImplemented(operation))
                    && operation@ == "Payment methods"@,
            },
    {
        match &item.router_data.payment_method_data {
            PaymentMethodData::Card(req_card) => {
                let card = EsnekposCard {
                    number: req_card.card_number.clone(),
                    expiry_month: req_card.card_exp_month.clone(),
                    expiry_year: req_card.card_exp_year.clone(),
                    cvc: req_card.card_cvc.clone(),
                };
                Ok(EsnekposPaymentsRequest { amount: item.amount, card })
            },
            PaymentMethodData::Other(_) => Err(
                ConnectorError::NotImplemented("Payment methods".to_owned()),
            ),
        }
    }

    /// The request as a typed payload.
    pub fn into_payload(self) -> (payload: Payload)
        ensures
            payload@ == self.fields(),
    {
        let payload = Payload::new().with("amount", PayloadValue::Integer(self.amount)).with(
            "card_number",
            PayloadValue::Secret(self.card.number),
        ).with("card_expiry_month", PayloadValue::Secret(self.card.expiry_month)).with(
            "card_expiry_year",
            PayloadValue::Secret(self.card.expiry_year),
        ).with("card_cvc", PayloadValue::Secret(self.card.cvc));
        assert(payload@ =~= self.fields());
        payload
    }
}

/// The body of a refund.
#[derive(Clone, Copy, Debug, PartialEq, Eq, Structural)]
pub struct EsnekposRefundRequest {
    pub amount: i64,
}

/// The fields of the body of a refund of `amount`.
pub open spec fn refund_fields(amount: i64) -> Seq<FieldView> {
    seq![FieldView { name: "amount"@, value: ValueView::Integer(amount as int) }]
}

impl EsnekposRefundRequest {
    /// The body of a refund of `item.amount`.
    pub fn try_from(item: &EsnekposRouterData<&RefundsData>) -> (request: Result<Self, ConnectorError>)
        ensures
            request == Ok::<Self, ConnectorError>(EsnekposRefundRequest { amount: item.amount }),
    {
        Ok(EsnekposRefundRequest { amount: item.amount })
    }

    /// The request as a typed payload.
    pub fn into_payload(self) -> (payload: Payload)
        ensures
            payload@ == refund_fields(self.amount),
    {
        let payload = Payload::new().with("amount", PayloadValue::Integer(self.amount));
        assert(payload@ =~= refund_fields(self.amount));
        payload
    }
}

/// The state of a payment as Esnekpos reports it.
#[derive(Clone, Copy, Debug, PartialEq, Eq, Structural)]
pub enum EsnekposPaymentStatus {
    Succeeded,
    Failed,
    Processing,
}

impl EsnekposPaymentStatus {
    /// The state that travels under the name `s`, if there is one.
    pub open spec fn named(s: Seq<char>) -> Option<Self> {
        if s == "succeeded"@ {
            Some(EsnekposPaymentStatus::Succeeded)
        } else if s == "failed"@ {
            Some(EsnekposPaymentStatus::Failed)
        } else if s == "processing"@ {
            Some(EsnekposPaymentStatus::Processing)
        } else {
            None
        }
    }

    /// The normalised state of the attempt.
    pub open spec fn attempt_status(self) -> AttemptStatus {
        match self {
            EsnekposPaymentStatus::Succeeded => AttemptStatus::Charged,
            EsnekposPaymentStatus::Failed => AttemptStatus::Failure,
            EsnekposPaymentStatus::Processing => AttemptStatus::Authorizing,
        }
    }

    /// The name under which the state travels.
    pub open spec fn wire_name(self) -> Seq<char> {
        match self {
            EsnekposPaymentStatus::Succeeded => "succeeded"@,
            EsnekposPaymentStatus::Failed => "failed"@,
            EsnekposPaymentStatus::Processing => "processing"@,
        }
    }

    /// Decodes the name of a state.
    pub fn from_str(s: &str) -> (status: Option<Self>)
        ensures
            status == Self::named(s@),
    {
        if text_eq(s, "succeeded") {
            Some(EsnekposPaymentStatus::Succeeded)
        } else if text_eq(s, "failed") {
            Some(EsnekposPaymentStatus::Failed)
        } else if text_eq(s, "processing") {
            Some(EsnekposPaymentStatus::Processing)
        } else {
            None
        }
    }

    /// The name under which the state travels.
    pub fn as_str(&self) -> (name: &'static str)
        ensures
            name@ == self.wire_name(),
    {
        match self {
            EsnekposPaymentStatus::Succeeded => "succeeded",
            EsnekposPaymentStatus::Failed => "failed",
            EsnekposPaymentStatus::Processing => "processing",
        }
    }

    /// The normalised state of the attempt.
    pub fn into_attempt_status(self) -> (status: AttemptStatus)
        ensures
            status == self.attempt_status(),
    {
        match self {
            EsnekposPaymentStatus::Succeeded => AttemptStatus::Charged,
            EsnekposPaymentStatus::Failed => AttemptStatus::Failure,
            EsnekposPaymentStatus::Processing => AttemptStatus::Authorizing,
        }
    }
}

/// The state of a refund as Esnekpos reports it.
#[derive(Clone, Copy, Debug, PartialEq, Eq, Structural)]
pub enum EsnekposRefundStatus {
    Succeeded,
    Failed,
    Processing,
}

impl EsnekposRefundStatus {
    /// The state that travels under the name `s`, if there is one.
    pub open spec fn named(s: Seq<char>) -> Option<Self> {
        if s == "succeeded"@ {
            Some(EsnekposRefundStatus::Succeeded)
        } else if s == "failed"@ {
            Some(EsnekposRefundStatus::Failed)
        } else if s == "processing"@ {
            Some(EsnekposRefundStatus::Processing)
        } else {
            None
        }
    }

    /// The normalised state of the refund.
    pub open spec fn refund_status(self) -> RefundStatus {
        match self {
            EsnekposRefundStatus::Succeeded => RefundStatus::Success,
            EsnekposRefundStatus::Failed => RefundStatus::Failure,
            EsnekposRefundStatus::Processing => RefundStatus::Pending,
        }
    }

    /// The name under which the state travels.
    pub open spec fn wire_name(self) -> Seq<char> {
        match self {
            EsnekposRefundStatus::Succeeded => "succeeded"@,
            EsnekposRefundStatus::Failed => "failed"@,
            EsnekposRefundStatus::Processing => "processing"@,
        }
    }

    /// Decodes the name of a state.
    pub fn from_str(s: &str) -> (status: Option<Self>)
        ensures
            status == Self::named(s@),
    {
        if text_eq(s, "succeeded") {
            Some(EsnekposRefundStatus::Succeeded)
        } else if text_eq(s, "failed") {
            Some(EsnekposRefundStatus::Failed)
        } else if text_eq(s, "processing") {
            Some(EsnekposRefundStatus::Processing)
        } else {
            None
        }
    }

    /// The name under which the state travels.
    pub fn as_str(&self) -> (name: &'static str)
        ensures
            name@ == self.wire_name(),
    {
        match self {
            EsnekposRefundStatus::Succeeded => "succeeded",
            EsnekposRefundStatus::Failed => "failed",
            EsnekposRefundStatus::Processing => "processing",
        }
    }

    /// The normalised state of the refund.
    pub fn into_refund_status(self) -> (status: RefundStatus)
        ensures
            status == self.refund_status(),
    {
        match self {
            EsnekposRefundStatus::Succeeded => RefundStatus::Success,
            EsnekposRefundStatus::Failed => RefundStatus::Failure,
            EsnekposRefundStatus::Processing => RefundStatus::Pending,
        }
    }
}

/// The answer to a payment flow.
#[derive(Debug, PartialEq, Eq)]
pub struct EsnekposPaymentsResponse {
    pub status: EsnekposPaymentStatus,
    pub id: String,
}

/// The answer that the members `status` and `id` of a body make: both must
/// be there as texts, and the status must be the name of a state.
pub open spec fn payments_answer(status: Option<Seq<char>>, id: Option<Seq<char>>) -> Option<
    (EsnekposPaymentStatus, Seq<char>),
> {
    match (status, id) {
        (Some(status), Some(id)) => match EsnekposPaymentStatus::named(status) {
            Some(status) => Some((status, id)),
            None => None,
        },
        _ => None,
    }
}

/// The answer to a payment flow that `bytes` hold: they must be a JSON
/// object whose members `status` and `id` make an answer.
pub open spec fn payments_answer_in(bytes: Seq<u8>) -> Option<(EsnekposPaymentStatus, Seq<char>)> {
    match json_object(bytes) {
        Some(document) => payments_answer(
            text_member(document, "status"@),
            text_member(document, "id"@),
        ),
        None => None,
    }
}

/// The fields under which an answer is recorded.
pub open spec fn answer_fields(status: Seq<char>, id: Seq<char>) -> Seq<FieldView> {
    seq![
        FieldView { name: "status"@, value: ValueView::Text(status) },
        FieldView { name: "id"@, value: ValueView::Text(id) },
    ]
}

impl EsnekposPaymentsResponse {
    /// The answer as contracts see it.
    pub open spec fn answer(self) -> (EsnekposPaymentStatus, Seq<char>) {
        (self.status, self.id@)
    }

    /// The answer that the members `status` and `id` of a body make.
    pub fn from_members(status: Option<String>, id: Option<String>) -> (response: Option<Self>)
        ensures
            match response {
                Some(r) => payments_answer(text_view(status), text_view(id))
                    == Some(r.answer()),
                None => payments_answer(text_view(status), text_view(id))
                    is None,
            },
    {
        match (status, id) {
            (Some(status), Some(id)) => match EsnekposPaymentStatus::from_str(status.as_str()) {
                Some(status) => Some(EsnekposPaymentsResponse { status, id }),
                None => None,
            },
            _ => None,
        }
    }

    /// Reads an answer from a raw body.
    pub fn parse(bytes: &[u8]) -> (response: Option<Self>)
        ensures
            match response {
                Some(r) => payments_answer_in(bytes@) == Some(r.answer()),
                None => payments_answer_in(bytes@) is None,
            },
    {
        match Document::parse(bytes) {
            Some(document) => Self::from_members(document.text("status"), document.text("id")),
            None => None,
        }
    }

    /// The answer as a typed payload, for the record.
    pub fn to_payload(&self) -> (payload: Payload)
        ensures
            payload@ == answer_fields(self.status.wire_name(), self.id@),
    {
        let payload = Payload::new().with(
            "status",
            PayloadValue::Text(self.status.as_str().to_owned()),
        ).with("id", PayloadValue::Text(self.id.clone()));
        assert(payload@ =~= answer_fields(self.status.wire_name(), self.id@));
        payload
    }
}

/// The answer to a refund flow.
#[derive(Debug, PartialEq, Eq)]
pub struct RefundResponse {
    pub id: String,
    pub status: EsnekposRefundStatus,
}

/// The answer that the members `id` and `status` of a body make: both must
/// be there as texts, and the status must be the name of a state.
pub open spec fn refund_answer(id: Option<Seq<char>>, status: Option<Seq<char>>) -> Option<
    (Seq<char>, EsnekposRefundStatus),
> {
    match (id, status) {
        (Some(id), Some(status)) => match EsnekposRefundStatus::named(status) {
            Some(status) => Some((id, status)),
            None => None,
        },
        _ => None,
    }
}

/// The answer to a refund flow that `bytes` hold.
pub open spec fn refund_answer_in(bytes: Seq<u8>) -> Option<(Seq<char>, EsnekposRefundStatus)> {
    match json_object(bytes) {
        Some(document) => refund_answer(
            text_member(document, "id"@),
            text_member(document, "status"@),
        ),
        None => None,
    }
}

impl RefundResponse {
    /// The answer as contracts see it.
    pub open spec fn answer(self) -> (Seq<char>, EsnekposRefundStatus) {
        (self.id@, self.status)
    }

    /// The answer that the members `id` and `status` of a body make.
    pub fn from_members(id: Option<String>, status: Option<String>) -> (response: Option<Self>)
        ensures
            match response {
                Some(r) => refund_answer(text_view(id), text_view(status))
                    == Some(r.answer()),
                None => refund_answer(text_view(id), text_view(status))
                    is None,
            },
    {
        match (id, status) {
            (Some(id), Some(status)) => match EsnekposRefundStatus::from_str(status.as_str()) {
                Some(status) => Some(RefundResponse { id, status }),
                None => None,
            },
            _ => None,
        }
    }

    /// Reads an answer from a raw body.
    pub fn parse(bytes: &[u8]) -> (response: Option<Self>)
        ensures
            match response {
                Some(r) => refund_answer_in(bytes@) == Some(r.answer()),
                None => refund_answer_in(bytes@) is None,
            },
    {
        match Document::parse(bytes) {
            Some(document) => Self::from_members(document.text("id"), document.text("status")),
            None => None,
        }
    }

    /// The answer as a typed payload, for the record.
    pub fn to_payload(&self) -> (payload: Payload)
        ensures
            payload@ == answer_fields(self.status.wire_name(), self.id@),
    {
        let payload = Payload::new().with(
            "status",
            PayloadValue::Text(self.status.as_str().to_owned()),
        ).with("id", PayloadValue::Text(self.id.clone()));
        assert(payload@ =~= answer_fields(self.status.wire_name(), self.id@));
        payload
    }
}

/// The error that Esnekpos reports in the body of a failed call.
#[derive(Debug, PartialEq, Eq)]
pub struct EsnekposErrorResponse {
    pub code: String,
    pub message: String,
}

/// The error that the members `code` and `message` of a body make: both
/// must be there as texts.
pub open spec fn error_answer(code: Option<Seq<char>>, message: Option<Seq<char>>) -> Option<
    (Seq<char>, Seq<char>),
> {
    match (code, message) {
        (Some(code), Some(message)) => Some((code, message)),
        _ => None,
    }
}

/// The error that `bytes` hold: they must be a JSON object whose members
/// `code` and `message` are texts.
pub open spec fn error_answer_in(bytes: Seq<u8>) -> Option<(Seq<char>, Seq<char>)> {
    match json_object(bytes) {
        Some(document) => error_answer(
            text_member(document, "code"@),
            text_member(document, "message"@),
        ),
        None => None,
    }
}

/// The fields under which an error is recorded.
pub open spec fn error_fields(code: Seq<char>, message: Seq<char>) -> Seq<FieldView> {
    seq![
        FieldView { name: "code"@, value: ValueView::Text(code) },
        FieldView { name: "message"@, value: ValueView::Text(message) },
    ]
}

/// The message of a normalised error: the connector's own, or the fixed one
/// where the connector supplied none.
pub open spec fn message_or_fallback(message: Seq<char>) -> Seq<char> {
    if message.len() > 0 {
        message
    } else {
        consts::NO_ERROR_MESSAGE@
    }
}

/// The normalised error for the body of a failed call. An error of the
/// connector's own gives its code, its message, or the fixed one where it
/// is empty, and its message as the reason. A body that holds no error
/// gives the fixed code and message, and the text of the body as the
/// reason. The status is kept either way.
pub open spec fn normalized_error(
    parsed: Option<(Seq<char>, Seq<char>)>,
    status_code: u16,
    raw: Seq<char>,
) -> ErrorView {
    match parsed {
        Some((code, message)) => ErrorView {
            code,
            message: message_or_fallback(message),
            reason: Some(message),
            status_code,
            attempt_status: None,
            connector_transaction_id: None,
        },
        None => fallback_error(status_code, Some(raw)),
    }
}

impl EsnekposErrorResponse {
    /// The error as contracts see it.
    pub open spec fn answer(self) -> (Seq<char>, Seq<char>) {
        (self.code@, self.message@)
    }

    /// The error that the members `code` and `message` of a body make.
    pub fn from_members(code: Option<String>, message: Option<String>) -> (response: Option<Self>)
        ensures
            match response {
                Some(r) => error_answer(text_view(code), text_view(message))
                    == Some(r.answer()),
                None => error_answer(text_view(code), text_view(message))
                    is None,
            },
    {
        match (code, message) {
            (Some(code), Some(message)) => Some(EsnekposErrorResponse { code, message }),
            _ => None,
        }
    }

    /// Reads an error from a raw body.
    pub fn parse(bytes: &[u8]) -> (response: Option<Self>)
        ensures
            match response {
                Some(r) => error_answer_in(bytes@) == Some(r.answer()),
                None => error_answer_in(bytes@) is None,
            },
    {
        match Document::parse(bytes) {
            Some(document) => Self::from_members(document.text("code"), document.text("message")),
            None => None,
        }
    }

    /// The error as a typed payload, for the record.
    pub fn to_payload(&self) -> (payload: Payload)
        ensures
            payload@ == error_fields(self.code@, self.message@),
    {
        let payload = Payload::new().with("code", PayloadValue::Text(self.code.clone())).with(
            "message",
            PayloadValue::Text(self.message.clone()),
        );
        assert(payload@ =~= error_fields(self.code@, self.message@));
        payload
    }
}

/// The optional error as contracts see it.
pub open spec fn parsed_error(parsed: Option<EsnekposErrorResponse>) -> Option<(Seq<char>, Seq<char>)> {
    match parsed {
        Some(r) => Some(r.answer()),
        None => None,
    }
}

/// The normalised error for what was read from the body of a failed call:
/// `parsed` is the connector's own error if the body held one, `raw` the
/// text of the body.
pub fn error_response_from(parsed: Option<EsnekposErrorResponse>, status_code: u16, raw: String) -> (error:
    ErrorResponse)
    ensures
        error@ == normalized_error(parsed_error(parsed), status_code, raw@),
{
    match parsed {
        Some(response) => {
            let message = if response.message.as_str().is_empty() {
                consts::NO_ERROR_MESSAGE.to_owned()
            } else {
                response.message.clone()
            };
            ErrorResponse {
                status_code,
                code: response.code,
                message,
                reason: Some(response.message),
                attempt_status: None,
                connector_transaction_id: None,
            }
        },
        None => ErrorResponse {
            status_code,
            code: consts::NO_ERROR_CODE.to_owned(),
            message: consts::NO_ERROR_MESSAGE.to_owned(),
            reason: Some(raw),
            attempt_status: None,
            connector_transaction_id: None,
        },
    }
}

/// Whether `updated` is `data` after a payment flow was answered with
/// `answer`: the same credentials and request, the normalised state, and
/// the connector's id of the payment as the response.
pub open spec fn payment_outcome<F, Req>(
    data: RouterData<F, Req, PaymentsResponseData>,
    answer: (EsnekposPaymentStatus, Seq<char>),
    updated: RouterData<F, Req, PaymentsResponseData>,
) -> bool {
    &&& updated.connector_auth_type == data.connector_auth_type
    &&& updated.status == answer.0.attempt_status()
    &&& updated.response matches Some(
        Ok(
            PaymentsResponseData::TransactionResponse {
                resource_id: ResponseId::ConnectorTransactionId(id),
            },
        ),
    )
    &&& id@ == answer.1
}

/// The envelope after a payment flow was answered with `response`.
pub fn payments_router_data<F, Req: Clone>(
    data: &RouterData<F, Req, PaymentsResponseData>,
    response: EsnekposPaymentsResponse,
) -> (updated: RouterData<F, Req, PaymentsResponseData>)
    ensures
        payment_outcome(*data, response.answer(), updated),
        cloned(data.request, updated.request),
{
    data.with_outcome(
        response.status.into_attempt_status(),
        Ok(
            PaymentsResponseData::TransactionResponse {
                resource_id: ResponseId::ConnectorTransactionId(response.id),
            },
        ),
    )
}

/// Whether `updated` is `data` after a refund flow was answered with
/// `answer`: the same credentials, state and request, and the connector's id
/// and the normalised state of the refund as the response.
pub open spec fn refund_outcome<F>(
    data: RouterData<F, RefundsData, RefundsResponseData>,
    answer: (Seq<char>, EsnekposRefundStatus),
    updated: RouterData<F, RefundsData, RefundsResponseData>,
) -> bool {
    &&& updated.connector_auth_type == data.connector_auth_type
    &&& updated.request == data.request
    &&& updated.status == data.status
    &&& updated.response matches Some(Ok(refund))
    &&& refund.connector_refund_id@ == answer.0
    &&& refund.refund_status == answer.1.refund_status()
}

/// The envelope after a refund flow was answered with `response`.
pub fn refunds_router_data<F>(
    data: &RouterData<F, RefundsData, RefundsResponseData>,
    response: RefundResponse,
) -> (updated: RouterData<F, RefundsData, RefundsResponseData>)
    ensures
        refund_outcome(*data, response.answer(), updated),
{
    data.with_outcome(
        data.status,
        Ok(
            RefundsResponseData {
                connector_refund_id: response.id,
                refund_status: response.status.into_refund_status(),
            },
        ),
    )
}

} // verus!
