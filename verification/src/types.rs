//! The envelope that carries one flow's request and response through the
//! pipeline, and the normalised shapes that every connector's answers are
//! brought into.

use core::marker::PhantomData;
use vstd::prelude::*;
use crate::enums::PaymentMethod;
use crate::flows::Authorize;
use crate::flows::Capture;
use crate::flows::PSync;
use crate::flows::RSync;
use crate::flows::SetupMandate;
use crate::flows::Void;

verus! {

/// The unit in which a connector takes amounts.
#[derive(Clone, Copy, Debug, PartialEq, Eq, Structural)]
pub enum CurrencyUnit {
    /// The smallest unit of the currency, such as cents.
    Minor,
    /// The currency's main unit.
    Major,
}

/// The normalised state of a payment attempt.
#[derive(Clone, Copy, Debug, PartialEq, Eq, Structural, Hash)]
pub enum AttemptStatus {
    Started,
    AuthenticationFailed,
    RouterDeclined,
    AuthenticationPending,
    AuthenticationSuccessful,
    Authorized,
    AuthorizationFailed,
    Charged,
    Authorizing,
    CodInitiated,
    Voided,
    VoidInitiated,
    CaptureInitiated,
    CaptureFailed,
    VoidFailed,
    AutoRefunded,
    PartialCharged,
    PartialChargedAndChargeable,
    Unresolved,
    Pending,
    Failure,
    PaymentMethodAwaited,
    ConfirmationAwaited,
    DeviceDataCollectionPending,
}

/// The normalised state of a refund.
#[derive(Clone, Copy, Debug, PartialEq, Eq, Structural, Hash)]
pub enum RefundStatus {
    Failure,
    ManualReview,
    Pending,
    Success,
    TransactionFailure,
}

/// The credentials of a merchant at a connector. Every text in them is
/// sensitive.
#[derive(PartialEq, Eq)]
pub enum ConnectorAuthType {
    HeaderKey { api_key: String },
    BodyKey { api_key: String, key1: String },
    SignatureKey { api_key: String, key1: String, api_secret: String },
    MultiAuthKey { api_key: String, key1: String, api_secret: String, key2: String },
    NoKey,
}

impl Clone for ConnectorAuthType {
    fn clone(&self) -> (copy: Self)
        ensures
            copy == *self,
    {
        match self {
            ConnectorAuthType::HeaderKey { api_key } => ConnectorAuthType::HeaderKey {
                api_key: api_key.clone(),
            },
            ConnectorAuthType::BodyKey { api_key, key1 } => ConnectorAuthType::BodyKey {
                api_key: api_key.clone(),
                key1: key1.clone(),
            },
            ConnectorAuthType::SignatureKey {
                api_key,
                key1,
                api_secret,
            } => ConnectorAuthType::SignatureKey {
                api_key: api_key.clone(),
                key1: key1.clone(),
                api_secret: api_secret.clone(),
            },
            ConnectorAuthType::MultiAuthKey {
                api_key,
                key1,
                api_secret,
                key2,
            } => ConnectorAuthType::MultiAuthKey {
                api_key: api_key.clone(),
                key1: key1.clone(),
                api_secret: api_secret.clone(),
                key2: key2.clone(),
            },
            ConnectorAuthType::NoKey => ConnectorAuthType::NoKey,
        }
    }
}

/// A failure that a connector reported, in the one shape that callers
/// branch on.
#[derive(Debug, PartialEq, Eq)]
pub struct ErrorResponse {
    /// The connector's error code.
    pub code: String,
    /// A message for humans.
    pub message: String,
    pub reason: Option<String>,
    /// The HTTP status that the connector answered with.
    pub status_code: u16,
    pub attempt_status: Option<AttemptStatus>,
    pub connector_transaction_id: Option<String>,
}

/// An optional text as contracts see it.
pub open spec fn text_view(text: Option<String>) -> Option<Seq<char>> {
    match text {
        Some(t) => Some(t@),
        None => None,
    }
}

/// An error response as contracts see it.
pub struct ErrorView {
    pub code: Seq<char>,
    pub message: Seq<char>,
    pub reason: Option<Seq<char>>,
    pub status_code: u16,
    pub attempt_status: Option<AttemptStatus>,
    pub connector_transaction_id: Option<Seq<char>>,
}

impl View for ErrorResponse {
    type V = ErrorView;

    open spec fn view(&self) -> ErrorView {
        ErrorView {
            code: self.code@,
            message: self.message@,
            reason: text_view(self.reason),
            status_code: self.status_code,
            attempt_status: self.attempt_status,
            connector_transaction_id: text_view(self.connector_transaction_id),
        }
    }
}

/// A copy of an optional text.
pub fn clone_text(text: &Option<String>) -> (copy: Option<String>)
    ensures
        copy == *text,
{
    match text {
        Some(t) => Some(t.clone()),
        None => None,
    }
}

impl Clone for ErrorResponse {
    fn clone(&self) -> (copy: Self)
        ensures
            copy == *self,
    {
        ErrorResponse {
            code: self.code.clone(),
            message: self.message.clone(),
            reason: clone_text(&self.reason),
            status_code: self.status_code,
            attempt_status: self.attempt_status,
            connector_transaction_id: clone_text(&self.connector_transaction_id),
        }
    }
}

/// What a connector answered: the raw body and the HTTP status.
#[derive(Clone, Debug, PartialEq, Eq)]
pub struct Response {
    /// The raw body.
    pub response: Vec<u8>,
    pub status_code: u16,
}

/// A payment card. Every field is sensitive.
#[derive(PartialEq, Eq)]
pub struct Card {
    pub card_number: String,
    pub card_exp_month: String,
    pub card_exp_year: String,
    pub card_cvc: String,
}

impl Clone for Card {
    fn clone(&self) -> (copy: Self)
        ensures
            copy == *self,
    {
        Card {
            card_number: self.card_number.clone(),
            card_exp_month: self.card_exp_month.clone(),
            card_exp_year: self.card_exp_year.clone(),
            card_cvc: self.card_cvc.clone(),
        }
    }
}

/// What a payment is made with.
#[derive(PartialEq, Eq)]
pub enum PaymentMethodData {
    Card(Card),
    /// A payment method of another kind; its details are no concern of the
    /// adapters here.
    Other(PaymentMethod),
}

impl Clone for PaymentMethodData {
    fn clone(&self) -> (copy: Self)
        ensures
            copy == *self,
    {
        match self {
            PaymentMethodData::Card(card) => PaymentMethodData::Card(card.clone()),
            PaymentMethodData::Other(method) => PaymentMethodData::Other(*method),
        }
    }
}

/// The request of an authorization.
#[derive(PartialEq, Eq)]
pub struct PaymentsAuthorizeData {
    /// The amount, in the currency's minor unit.
    pub amount: i64,
    pub payment_method_data: PaymentMethodData,
}

impl Clone for PaymentsAuthorizeData {
    fn clone(&self) -> (copy: Self)
        ensures
            copy == *self,
    {
        PaymentsAuthorizeData {
            amount: self.amount,
            payment_method_data: self.payment_method_data.clone(),
        }
    }
}

/// The request of a payment sync.
#[derive(Debug, PartialEq, Eq)]
pub struct PaymentsSyncData {
    pub connector_transaction_id: String,
}

impl Clone for PaymentsSyncData {
    fn clone(&self) -> (copy: Self)
        ensures
            copy == *self,
    {
        PaymentsSyncData { connector_transaction_id: self.connector_transaction_id.clone() }
    }
}

/// The request of a capture.
#[derive(Debug, PartialEq, Eq)]
pub struct PaymentsCaptureData {
    /// The amount to capture, in the currency's minor unit.
    pub amount_to_capture: i64,
    pub connector_transaction_id: String,
}

impl Clone for PaymentsCaptureData {
    fn clone(&self) -> (copy: Self)
        ensures
            copy == *self,
    {
        PaymentsCaptureData {
            amount_to_capture: self.amount_to_capture,
            connector_transaction_id: self.connector_transaction_id.clone(),
        }
    }
}

/// The request of a cancellation.
#[derive(Debug, PartialEq, Eq)]
pub struct PaymentsCancelData {
    pub connector_transaction_id: String,
}

impl Clone for PaymentsCancelData {
    fn clone(&self) -> (copy: Self)
        ensures
            copy == *self,
    {
        PaymentsCancelData { connector_transaction_id: self.connector_transaction_id.clone() }
    }
}

/// The request of a mandate set-up.
#[derive(PartialEq, Eq)]
pub struct SetupMandateRequestData {
    pub payment_method_data: PaymentMethodData,
}

impl Clone for SetupMandateRequestData {
    fn clone(&self) -> (copy: Self)
        ensures
            copy == *self,
    {
        SetupMandateRequestData { payment_method_data: self.payment_method_data.clone() }
    }
}

/// The request of a session.
#[derive(Clone, Copy, Debug, PartialEq, Eq, Structural)]
pub struct PaymentsSessionData {
    /// The amount, in the currency's minor unit.
    pub amount: i64,
}

/// The request of an access token.
#[derive(PartialEq, Eq)]
pub struct AccessTokenRequestData {
    pub app_id: String,
}

impl Clone for AccessTokenRequestData {
    fn clone(&self) -> (copy: Self)
        ensures
            copy == *self,
    {
        AccessTokenRequestData { app_id: self.app_id.clone() }
    }
}

/// The request of a payment-method tokenization.
#[derive(PartialEq, Eq)]
pub struct PaymentMethodTokenizationData {
    pub payment_method_data: PaymentMethodData,
}

impl Clone for PaymentMethodTokenizationData {
    fn clone(&self) -> (copy: Self)
        ensures
            copy == *self,
    {
        PaymentMethodTokenizationData { payment_method_data: self.payment_method_data.clone() }
    }
}

/// The request of a refund and of a refund sync.
#[derive(Debug, PartialEq, Eq)]
pub struct RefundsData {
    pub refund_id: String,
    pub connector_transaction_id: String,
    /// The amount to refund, in the currency's minor unit.
    pub refund_amount: i64,
}

impl Clone for RefundsData {
    fn clone(&self) -> (copy: Self)
        ensures
            copy == *self,
    {
        RefundsData {
            refund_id: self.refund_id.clone(),
            connector_transaction_id: self.connector_transaction_id.clone(),
            refund_amount: self.refund_amount,
        }
    }
}

/// How a connector refers to a payment.
#[derive(Debug, PartialEq, Eq)]
pub enum ResponseId {
    ConnectorTransactionId(String),
    NoResponseId,
}

/// The normalised answer to a payment flow.
#[derive(Debug, PartialEq, Eq)]
pub enum PaymentsResponseData {
    TransactionResponse { resource_id: ResponseId },
}

/// The normalised answer to a refund flow.
#[derive(Debug, PartialEq, Eq)]
pub struct RefundsResponseData {
    pub connector_refund_id: String,
    pub refund_status: RefundStatus,
}

/// An access token.
#[derive(PartialEq, Eq)]
pub struct AccessToken {
    pub token: String,
    /// Seconds until the token expires.
    pub expires: i64,
}

/// The envelope of one execution attempt of one flow: the credentials, the
/// flow's request, and the response once there is one. The flow is part of
/// the envelope's type.
#[derive(PartialEq, Eq)]
pub struct RouterData<Flow, Request, Response> {
    pub flow: PhantomData<Flow>,
    pub connector_auth_type: ConnectorAuthType,
    pub request: Request,
    /// The response of an earlier execution, if there was one.
    pub response: Option<Result<Response, ErrorResponse>>,
    pub status: AttemptStatus,
}

impl<Flow, Request, Response> RouterData<Flow, Request, Response> {
    /// A fresh envelope: no response yet, the attempt just started.
    pub fn new(connector_auth_type: ConnectorAuthType, request: Request) -> (envelope: Self)
        ensures
            envelope.connector_auth_type == connector_auth_type,
            envelope.request == request,
            envelope.response is None,
            envelope.status == AttemptStatus::Started,
    {
        RouterData {
            flow: PhantomData,
            connector_auth_type,
            request,
            response: None,
            status: AttemptStatus::Started,
        }
    }
}

impl<Flow, Request: Clone, Response> RouterData<Flow, Request, Response> {
    /// A new envelope for the same flow, credentials and request that holds
    /// `response` and `status`. The envelope it is made from stays as it is.
    pub fn with_outcome(&self, status: AttemptStatus, response: Result<Response, ErrorResponse>) -> (updated:
        Self)
        ensures
            updated.connector_auth_type == self.connector_auth_type,
            cloned(self.request, updated.request),
            updated.response == Some(response),
            updated.status == status,
    {
        RouterData {
            flow: PhantomData,
            connector_auth_type: self.connector_auth_type.clone(),
            request: self.request.clone(),
            response: Some(response),
            status,
        }
    }
}

pub type PaymentsAuthorizeRouterData = RouterData<Authorize, PaymentsAuthorizeData, PaymentsResponseData>;

pub type PaymentsSyncRouterData = RouterData<PSync, PaymentsSyncData, PaymentsResponseData>;

pub type PaymentsCaptureRouterData = RouterData<Capture, PaymentsCaptureData, PaymentsResponseData>;

pub type PaymentsCancelRouterData = RouterData<Void, PaymentsCancelData, PaymentsResponseData>;

pub type SetupMandateRouterData = RouterData<SetupMandate, SetupMandateRequestData, PaymentsResponseData>;

pub type RefundsRouterData<F> = RouterData<F, RefundsData, RefundsResponseData>;

pub type RefundSyncRouterData = RouterData<RSync, RefundsData, RefundsResponseData>;

} // verus!
