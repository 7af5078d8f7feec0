//! The contracts that a connector adapter fulfils: what is common to a
//! connector, what it does per flow, and what it extracts from a webhook.
//!
//! Every operation of a flow has a safe fallback. A connector that does not
//! support a flow overrides nothing: building a request then yields no
//! request at all, and asking for the URL or the body of such a flow fails
//! with `NotImplemented`.

use vstd::prelude::*;
use crate::configs::Connectors;
use crate::consts;
use crate::errors::ConnectorError;
use crate::events::ConnectorEvent;
use crate::events::sink_after;
use crate::flows::FlowMarker;
use crate::headers;
use crate::masking::Maskable;
use crate::request::FieldView;
use crate::request::HeaderView;
use crate::request::Method;
use crate::request::Payload;
use crate::request::Request;
use crate::request::RequestContent;
use crate::request::has_header;
use crate::request::headers_view;
use crate::text::join;
use crate::types::ConnectorAuthType;
use crate::types::CurrencyUnit;
use crate::types::ErrorResponse;
use crate::types::ErrorView;
use crate::types::Response;
use crate::types::RouterData;

verus! {

/// The header that carries the credentials when the key goes in a header;
/// no header for credentials of any other kind.
pub open spec fn auth_headers(auth_type: ConnectorAuthType) -> Seq<HeaderView> {
    match auth_type {
        ConnectorAuthType::HeaderKey { api_key } => seq![
            HeaderView { name: headers::AUTHORIZATION@, value: api_key@, masked: true },
        ],
        _ => Seq::empty(),
    }
}

/// The content-type header followed by the headers that carry credentials.
pub open spec fn common_headers(content_type: Seq<char>, auth: Seq<HeaderView>) -> Seq<HeaderView> {
    seq![HeaderView { name: headers::CONTENT_TYPE@, value: content_type, masked: false }] + auth
}

/// Whether every header on the list is sensitive.
pub open spec fn all_masked(list: Seq<HeaderView>) -> bool {
    forall|i: int| 0 <= i < list.len() ==> (#[trigger] list[i]).masked
}

/// Whether the list starts with the content-type header for `content_type`
/// and every header after it is sensitive.
pub open spec fn content_type_then_credentials(list: Seq<HeaderView>, content_type: Seq<char>) -> bool {
    &&& list.len() >= 1
    &&& list[0] == (HeaderView { name: headers::CONTENT_TYPE@, value: content_type, masked: false })
    &&& all_masked(list.subrange(1, list.len() as int))
}

/// The error response that stands for a body that carries no error of the
/// connector's own: the status that came in, the fixed code and message, and
/// `reason` as the reason.
pub open spec fn fallback_error(status_code: u16, reason: Option<Seq<char>>) -> ErrorView {
    ErrorView {
        code: consts::NO_ERROR_CODE@,
        message: consts::NO_ERROR_MESSAGE@,
        reason,
        status_code,
        attempt_status: None,
        connector_transaction_id: None,
    }
}

/// Whether a request may be handed out under the contract of
/// `build_request`: a well-formed request, no request at all, or a failure
/// that says that the step is not implemented or the flow not supported.
pub open spec fn build_outcome_allowed(built: Result<Option<Request>, ConnectorError>) -> bool {
    match built {
        Ok(Some(request)) => request@.well_formed(),
        Ok(None) => true,
        Err(e) => e.is_build_failure(),
    }
}

/// The content-type header followed by `auth`.
pub fn assemble_common_headers(content_type: &str, auth: Vec<(String, Maskable)>) -> (list: Vec<
    (String, Maskable),
>)
    ensures
        headers_view(list@) == common_headers(content_type@, headers_view(auth@)),
{
    let mut list: Vec<(String, Maskable)> = Vec::new();
    list.push((headers::CONTENT_TYPE.to_owned(), Maskable::Normal(content_type.to_owned())));
    let mut rest = auth;
    list.append(&mut rest);
    assert(headers_view(list@) =~= common_headers(content_type@, headers_view(auth@)));
    list
}

/// A list made of the content-type header and sensitive headers carries a
/// content-type header.
pub proof fn lemma_common_headers(content_type: Seq<char>, auth: Seq<HeaderView>)
    requires
        all_masked(auth),
    ensures
        content_type_then_credentials(common_headers(content_type, auth), content_type),
        has_header(common_headers(content_type, auth), headers::CONTENT_TYPE@),
{
    let list = common_headers(content_type, auth);
    assert(list[0].name == headers::CONTENT_TYPE@);
    assert(list.subrange(1, list.len() as int) =~= auth);
}

/// What is common to all flows of one connector.
pub trait ConnectorCommon {
    /// The stable id of the connector.
    spec fn connector_id(&self) -> Seq<char>;

    /// The content type that the connector's requests carry.
    spec fn content_type(&self) -> Seq<char>;

    /// The normalised error that the connector makes of the answer to a
    /// failed call.
    spec fn error_response(&self, res: Response) -> ErrorView;

    /// What a sink records of the answer to a failed call: the fields of
    /// the connector's own error, or nothing where the body holds none.
    spec fn error_record(&self, res: Response) -> Option<Seq<FieldView>>;

    /// The stable id of the connector.
    fn id(&self) -> (id: &'static str)
        ensures
            id@ == self.connector_id(),
    ;

    /// The unit in which the connector takes amounts; the minor unit unless
    /// the connector says otherwise.
    fn get_currency_unit(&self) -> (unit: CurrencyUnit)
        default_ensures
            unit == CurrencyUnit::Minor,
    {
        CurrencyUnit::Minor
    }

    /// The content type that the connector's requests carry.
    fn common_get_content_type(&self) -> (content_type: &'static str)
        ensures
            content_type@ == self.content_type(),
    ;

    /// The headers that carry the credentials. Every one of them is
    /// sensitive. Unless the connector says otherwise, a key that goes in a
    /// header is sent as the `Authorization` header, and credentials of any
    /// other kind give no header.
    fn get_auth_header(&self, auth_type: &ConnectorAuthType) -> (auth: Result<
        Vec<(String, Maskable)>,
        ConnectorError,
    >)
        ensures
            match auth {
                Ok(list) => all_masked(headers_view(list@)),
                Err(e) => e.is_build_failure(),
            },
        default_ensures
            auth matches Ok(list) && headers_view(list@) == auth_headers(*auth_type),
    {
        let mut list: Vec<(String, Maskable)> = Vec::new();
        match auth_type {
            ConnectorAuthType::HeaderKey { api_key } => {
                list.push((headers::AUTHORIZATION.to_owned(), Maskable::Masked(api_key.clone())));
            },
            _ => {},
        }
        assert(headers_view(list@) =~= auth_headers(*auth_type));
        Ok(list)
    }

    /// The URL that the connector's paths are appended to, taken from the
    /// settings under the connector's id.
    fn base_url<'a>(&self, connectors: &'a Connectors) -> (url: &'a str)
        ensures
            connectors.base_url_of(self.connector_id()) matches Some(configured) ==> url@ == configured,
    ;

    /// Brings the answer to a failed call into the normalised shape. This
    /// never fails, whatever the body holds, and it always keeps the status
    /// that came in and gives a message. A sink, if there is one, records
    /// the connector's own error and is otherwise left as it was; the
    /// result is the same with and without a sink.
    fn build_error_response(&self, res: Response, event_builder: Option<&mut ConnectorEvent>) -> (error:
        ErrorResponse)
        ensures
            error@ == self.error_response(res),
            error@.status_code == res.status_code,
            error@.message.len() > 0,
            event_builder matches Some(sink) ==> sink_after(
                *sink,
                *final(sink),
                self.error_record(res),
            ),
    ;
}

/// What one connector does for one flow. Each operation has a fallback that
/// a connector inherits by not overriding it.
pub trait ConnectorIntegration<F: FlowMarker, Req, Resp>: ConnectorCommon {
    /// The headers of the request. The fallback is the content-type header
    /// followed by the headers that carry the envelope's credentials.
    fn get_headers(&self, req: &RouterData<F, Req, Resp>, connectors: &Connectors) -> (list: Result<
        Vec<(String, Maskable)>,
        ConnectorError,
    >)
        ensures
            match list {
                Ok(list) => has_header(headers_view(list@), headers::CONTENT_TYPE@),
                Err(e) => e.is_build_failure(),
            },
        default_ensures
            list matches Ok(list) ==> content_type_then_credentials(
                headers_view(list@),
                self.content_type(),
            ),
    {
        let auth = self.get_auth_header(&req.connector_auth_type)?;
        let list = assemble_common_headers(self.get_content_type(), auth);
        proof {
            lemma_common_headers(self.content_type(), headers_view(auth@));
        }
        Ok(list)
    }

    /// The content type of the request; that of the connector.
    fn get_content_type(&self) -> (content_type: &'static str)
        ensures
            content_type@ == self.content_type(),
    {
        self.common_get_content_type()
    }

    /// The URL of the request. The fallback fails with `NotImplemented`,
    /// naming the flow.
    fn get_url(&self, req: &RouterData<F, Req, Resp>, connectors: &Connectors) -> (url: Result<
        String,
        ConnectorError,
    >)
        ensures
            match url {
                Ok(url) => url@.len() > 0,
                Err(e) => e.is_build_failure(),
            },
        default_ensures
            url matches Err(ConnectorError::NotImplemented(operation)) && operation@ == F::flow().name()
                + " get_url method"@,
    {
        Err(ConnectorError::NotImplemented(join(F::kind().as_str(), " get_url method")))
    }

    /// The body of the request. The fallback fails with `NotImplemented`.
    fn get_request_body(&self, req: &RouterData<F, Req, Resp>, connectors: &Connectors) -> (body: Result<
        RequestContent,
        ConnectorError,
    >)
        ensures
            body matches Err(e) ==> e.is_build_failure(),
        default_ensures
            body matches Err(ConnectorError::NotImplemented(operation)) && operation@
                == "get_request_body method"@,
    {
        Err(ConnectorError::NotImplemented("get_request_body method".to_owned()))
    }

    /// The description of the request to send, if there is anything to send.
    /// Whatever the connector and the flow, the outcome is a well-formed
    /// request, no request, or a failure that says that the step is not
    /// implemented or the flow not supported. The fallback is no request.
    fn build_request(&self, req: &RouterData<F, Req, Resp>, connectors: &Connectors) -> (built: Result<
        Option<Request>,
        ConnectorError,
    >)
        ensures
            build_outcome_allowed(built),
        default_ensures
            built matches Ok(None),
    {
        Ok(None)
    }

    /// Reads the connector's answer into an updated envelope. A body that
    /// does not match the expected schema gives
    /// `ResponseDeserializationFailed`. The fallback fails with
    /// `NotImplemented`, since a flow without a request has no response.
    fn handle_response(
        &self,
        data: &RouterData<F, Req, Resp>,
        event_builder: Option<&mut ConnectorEvent>,
        res: Response,
    ) -> (updated: Result<RouterData<F, Req, Resp>, ConnectorError>)
        ensures
            updated matches Err(e) ==> e is ResponseDeserializationFailed || e is NotImplemented,
        default_ensures
            updated matches Err(ConnectorError::NotImplemented(operation)) && operation@
                == "handle_response method"@,
    {
        Err(ConnectorError::NotImplemented("handle_response method".to_owned()))
    }

    /// Brings the answer to a failed call into the normalised shape, in the
    /// way that is common to the connector's flows: the same error and the
    /// same effect on the sink as `build_error_response`.
    fn get_error_response(&self, res: Response, event_builder: Option<&mut ConnectorEvent>) -> (error:
        ErrorResponse)
        ensures
            error@ == self.error_response(res),
            error@.status_code == res.status_code,
            error@.message.len() > 0,
            event_builder matches Some(sink) ==> sink_after(
                *sink,
                *final(sink),
                self.error_record(res),
            ),
    {
        self.build_error_response(res, event_builder)
    }
}

/// Whether an HTTP status says that the call went through.
pub open spec fn is_success_status(status_code: u16) -> bool {
    200 <= status_code <= 299
}

/// Whether `updated` is `data` after a call failed with `error`: the same
/// credentials, state and request, and the normalised error as the response.
pub open spec fn failure_outcome<F, Req, Resp>(
    data: RouterData<F, Req, Resp>,
    error: ErrorView,
    updated: RouterData<F, Req, Resp>,
) -> bool {
    &&& updated.connector_auth_type == data.connector_auth_type
    &&& updated.status == data.status
    &&& updated.response matches Some(Err(e))
    &&& e@ == error
}

/// Reads what a connector answered into an updated envelope.
///
/// An answer with a success status goes to the flow's `handle_response`
/// with the same envelope, sink and answer: the outcome, and what the sink
/// holds afterwards, are what that operation ensures of them. Any other
/// answer is a failure that the connector reported: it is normalised by the
/// flow's `get_error_response`, recorded as that operation records it, and
/// becomes the response of the envelope, which is no failure of this step.
pub fn process_response<C, F, Req, Resp>(
    connector: &C,
    data: &RouterData<F, Req, Resp>,
    event_builder: Option<&mut ConnectorEvent>,
    res: Response,
) -> (updated: Result<RouterData<F, Req, Resp>, ConnectorError>) where
    C: ConnectorIntegration<F, Req, Resp>,
    F: FlowMarker,
    Req: Clone,

    ensures
        is_success_status(res.status_code) ==> call_ensures(
            C::handle_response,
            (connector, data, event_builder, res),
            updated,
        ),
        is_success_status(res.status_code) ==> (updated matches Err(e) ==> e
            is ResponseDeserializationFailed || e is NotImplemented),
        !is_success_status(res.status_code) ==> (updated matches Ok(envelope) && failure_outcome(
            *data,
            connector.error_response(res),
            envelope,
        ) && cloned(data.request, envelope.request)),
        !is_success_status(res.status_code) ==> (event_builder matches Some(sink) ==> sink_after(
            *sink,
            *final(sink),
            connector.error_record(res),
        )),
{
    if 200 <= res.status_code && res.status_code <= 299 {
        connector.handle_response(data, event_builder, res)
    } else {
        let error = connector.get_error_response(res, event_builder);
        Ok(data.with_outcome(data.status, Err(error)))
    }
}

/// The headers that all flows of a connector share.
pub trait ConnectorCommonExt<F: FlowMarker, Req, Resp>: ConnectorCommon {
    /// The content-type header followed by the headers that carry the
    /// envelope's credentials.
    fn build_headers(&self, req: &RouterData<F, Req, Resp>, connectors: &Connectors) -> (list: Result<
        Vec<(String, Maskable)>,
        ConnectorError,
    >)
        ensures
            match list {
                Ok(list) => content_type_then_credentials(headers_view(list@), self.content_type()),
                Err(e) => e.is_build_failure(),
            },
    ;
}

/// An inbound webhook as it was delivered.
#[derive(Clone, Debug, PartialEq, Eq)]
pub struct IncomingWebhookRequestDetails {
    pub method: Method,
    pub headers: Vec<(String, String)>,
    pub body: Vec<u8>,
    pub query_params: String,
}

/// The object that a webhook is about.
#[derive(Clone, Debug, PartialEq, Eq)]
pub enum ObjectReferenceId {
    PaymentId(String),
    RefundId(String),
    DisputeId(String),
}

/// What a webhook reports.
#[derive(Clone, Copy, Debug, PartialEq, Eq, Structural, Hash)]
pub enum IncomingWebhookEvent {
    PaymentIntentFailure,
    PaymentIntentSuccess,
    PaymentIntentProcessing,
    PaymentIntentPartiallyFunded,
    PaymentActionRequired,
    EventNotSupported,
    SourceChargeable,
    SourceTransactionCreated,
    RefundFailure,
    RefundSuccess,
    DisputeOpened,
    DisputeExpired,
    DisputeAccepted,
    DisputeCancelled,
    DisputeChallenged,
    DisputeWon,
    DisputeLost,
    MandateActive,
    MandateRevoked,
    EndpointVerification,
    ExternalAuthenticationARes,
}

/// Whether a webhook extraction failed in one of the two ways it may: the
/// connector has no webhook contract, or the webhook did not match it.
pub open spec fn webhook_failure(e: ConnectorError) -> bool {
    e is WebhooksNotImplemented || e is ResponseDeserializationFailed
}

/// What a connector extracts from an inbound webhook. The three operations
/// are independent: each may fail while the others succeed.
pub trait IncomingWebhook: ConnectorCommon {
    /// The object that the webhook is about.
    fn get_webhook_object_reference_id(&self, request: &IncomingWebhookRequestDetails) -> (id: Result<
        ObjectReferenceId,
        ConnectorError,
    >)
        ensures
            id matches Err(e) ==> webhook_failure(e),
    ;

    /// What the webhook reports.
    fn get_webhook_event_type(&self, request: &IncomingWebhookRequestDetails) -> (event: Result<
        IncomingWebhookEvent,
        ConnectorError,
    >)
        ensures
            event matches Err(e) ==> webhook_failure(e),
    ;

    /// The payload of the webhook, for further processing.
    fn get_webhook_resource_object(&self, request: &IncomingWebhookRequestDetails) -> (resource: Result<
        Payload,
        ConnectorError,
    >)
        ensures
            resource matches Err(e) ==> webhook_failure(e),
    ;
}

} // verus!
