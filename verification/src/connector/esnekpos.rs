//! The adapter for Esnekpos.
//!
//! Esnekpos authorizes payments. It has no endpoint to query the state of a
//! payment or a refund, its capture and refund are not wired up, and it
//! does not take mandates; cancellation, sessions, access tokens and
//! tokenization are not part of it at all.

pub mod transformers;

use vstd::prelude::*;
use crate::api::ConnectorCommon;
use crate::api::ConnectorCommonExt;
use crate::api::ConnectorIntegration;
use crate::api::IncomingWebhook;
use crate::api::IncomingWebhookEvent;
use crate::api::IncomingWebhookRequestDetails;
use crate::api::ObjectReferenceId;
use crate::api::assemble_common_headers;
use crate::api::auth_headers;
use crate::api::common_headers;
use crate::api::fallback_error;
use crate::api::lemma_common_headers;
use crate::configs::Connectors;
use crate::enums::Connector;
use crate::errors::ConnectorError;
use crate::events::ConnectorEvent;
use crate::events::sink_after;
use crate::flows::AccessTokenAuth;
use crate::flows::Authorize;
use crate::flows::Capture;
use crate::flows::Execute;
use crate::flows::FlowMarker;
use crate::flows::PSync;
use crate::flows::PaymentMethodToken;
use crate::flows::RSync;
use crate::flows::Session;
use crate::flows::SetupMandate;
use crate::flows::Void;
use crate::headers;
use crate::json::json_object;
use crate::masking::Maskable;
use crate::request::ContentView;
use crate::request::FieldView;
use crate::request::HeaderView;
use crate::request::Method;
use crate::request::Payload;
use crate::request::Request;
use crate::request::RequestBuilder;
use crate::request::RequestContent;
use crate::request::RequestView;
use crate::request::headers_view;
use crate::text::from_utf8_lossy;
use crate::text::join;
use crate::text::lossy_utf8;
use crate::types::AccessToken;
use crate::types::AccessTokenRequestData;
use crate::types::ConnectorAuthType;
use crate::types::CurrencyUnit;
use crate::types::ErrorResponse;
use crate::types::ErrorView;
use crate::types::PaymentMethodTokenizationData;
use crate::types::PaymentsAuthorizeData;
use crate::types::PaymentsAuthorizeRouterData;
use crate::types::PaymentsCancelData;
use crate::types::PaymentsCaptureData;
use crate::types::PaymentsCaptureRouterData;
use crate::types::PaymentsResponseData;
use crate::types::PaymentsSessionData;
use crate::types::PaymentsSyncData;
use crate::types::PaymentsSyncRouterData;
use crate::types::RefundSyncRouterData;
use crate::types::RefundsData;
use crate::types::RefundsResponseData;
use crate::types::RefundsRouterData;
use crate::types::Response;
use crate::types::RouterData;
use crate::types::SetupMandateRequestData;
use crate::types::SetupMandateRouterData;
use transformers::answer_fields;
use transformers::authorize_fields;
use transformers::error_answer_in;
use transformers::error_fields;
use transformers::error_response_from;
use transformers::normalized_error;
use transformers::payment_outcome;
use transformers::payments_answer_in;
use transformers::payments_router_data;
use transformers::refund_answer_in;
use transformers::refund_fields;
use transformers::refund_outcome;
use transformers::refunds_router_data;
use transformers::EsnekposErrorResponse;
use transformers::EsnekposPaymentsRequest;
use transformers::EsnekposPaymentsResponse;
use transformers::EsnekposRefundRequest;
use transformers::EsnekposRouterData;
use transformers::RefundResponse;

verus! {

/// The path under which Esnekpos takes payments.
pub const PAY_PATH: &'static str = "api/pay/EYV3DPay";

/// The adapter for Esnekpos. It has no state.
#[derive(Clone, Debug, PartialEq, Eq, Structural)]
pub struct Esnekpos {}

impl Esnekpos {
    /// The one adapter.
    pub fn new() -> (connector: &'static Self)
        ensures
            *connector == (Esnekpos {}),
    {
        &Self {}
    }
}

/// The id of the adapter is the wire name of its connector in the registry.
pub proof fn lemma_id_is_wire_name(connector: Esnekpos)
    ensures
        connector.connector_id() == Connector::Esnekpos.wire_name(),
        Connector::named(connector.connector_id()) == Some(
            Connector::Esnekpos,
        ),
{
    Connector::lemma_named(Connector::Esnekpos, connector.connector_id());
}

/// An error of Esnekpos' own is carried into the normalised one: its code,
/// its message unless that is empty, its message as the reason, and the
/// status that came in. The fixed message stands in for an empty one only.
pub proof fn lemma_connector_error_is_carried(connector: Esnekpos, res: Response)
    requires
        error_answer_in(res.response@) is Some,
    ensures
        ({
            let (code, message) = error_answer_in(res.response@).unwrap();
            let error = connector.error_response(res);
            &&& error.code == code
            &&& message.len() > 0 ==> error.message == message
            &&& message.len() == 0 ==> error.message == crate::consts::NO_ERROR_MESSAGE@
            &&& error.reason == Some(message)
            &&& error.status_code == res.status_code
            &&& connector.error_record(res) == Some(error_fields(code, message))
        }),
{
}

/// A body that holds no JSON object at all still gives a normalised error: the
/// status that came in, the fixed code and message, and the text of the
/// body as the reason.
pub proof fn lemma_invalid_body_falls_back(connector: Esnekpos, res: Response)
    requires
        json_object(res.response@) is None,
    ensures
        connector.error_response(res) == fallback_error(
            res.status_code,
            Some(lossy_utf8(res.response@)),
        ),
{
}

/// The headers of every Esnekpos request for an envelope with the
/// credentials `auth_type`.
pub open spec fn esnekpos_headers(auth_type: ConnectorAuthType) -> Seq<
    HeaderView,
> {
    common_headers("application/json"@, auth_headers(auth_type))
}

/// The URL under which Esnekpos takes payments, for the given settings.
pub open spec fn pay_url(connectors: Connectors) -> Seq<char> {
    connectors.esnekpos.base_url@ + PAY_PATH@
}

impl<F: FlowMarker, Req, Resp> ConnectorCommonExt<F, Req, Resp> for Esnekpos {
    fn build_headers(&self, req: &RouterData<F, Req, Resp>, connectors: &Connectors) -> (list: Result<
        Vec<(String, Maskable)>,
        ConnectorError,
    >)
        ensures
            list matches Ok(list) && headers_view(list@) == esnekpos_headers(req.connector_auth_type),
    {
        let api_key = self.get_auth_header(&req.connector_auth_type)?;
        let header = assemble_common_headers(self.common_get_content_type(), api_key);
        proof {
            lemma_common_headers("application/json"@, auth_headers(req.connector_auth_type));
        }
        Ok(header)
    }
}

impl ConnectorCommon for Esnekpos {
    open spec fn connector_id(&self) -> Seq<char> {
        "esnekpos"@
    }

    open spec fn content_type(&self) -> Seq<char> {
        "application/json"@
    }

    open spec fn error_response(&self, res: Response) -> ErrorView {
        normalized_error(error_answer_in(res.response@), res.status_code, lossy_utf8(res.response@))
    }

    open spec fn error_record(&self, res: Response) -> Option<Seq<FieldView>> {
        match error_answer_in(res.response@) {
            Some((code, message)) => Some(error_fields(code, message)),
            None => None,
        }
    }

    fn id(&self) -> (id: &'static str) {
        "esnekpos"
    }

    fn get_currency_unit(&self) -> (unit: CurrencyUnit)
        ensures
            unit == CurrencyUnit::Minor,
    {
        CurrencyUnit::Minor
    }

    fn common_get_content_type(&self) -> (content_type: &'static str) {
        "application/json"
    }

    fn base_url<'a>(&self, connectors: &'a Connectors) -> (url: &'a str)
        ensures
            url@ == connectors.esnekpos.base_url@,
    {
        connectors.esnekpos.base_url.as_str()
    }

    /// An error of Esnekpos' own gives its code, its message, or the fixed
    /// one where it sent an empty message, and its message as the reason,
    /// and it is recorded. A body that holds none gives the fixed code and
    /// message and the text of the body as the reason, and nothing is
    /// recorded.
    fn build_error_response(&self, res: Response, event_builder: Option<&mut ConnectorEvent>) -> (error:
        ErrorResponse) {
        let response = EsnekposErrorResponse::parse(res.response.as_slice());
        match (&response, event_builder) {
            (Some(response), Some(sink)) => {
                sink.set_response_body(&response.to_payload());
            },
            _ => {},
        }
        let raw = from_utf8_lossy(res.response.as_slice());
        proof {
            reveal_strlit("No error message");
        }
        error_response_from(response, res.status_code, raw)
    }
}

/// Reads the answer to a payment flow into an updated envelope, and records
/// the answer if there is a sink. A body that holds no answer gives
/// `ResponseDeserializationFailed` and leaves the sink as it was.
pub fn handle_payments_response<F, Req: Clone>(
    data: &RouterData<F, Req, PaymentsResponseData>,
    event_builder: Option<&mut ConnectorEvent>,
    res: Response,
) -> (updated: Result<RouterData<F, Req, PaymentsResponseData>, ConnectorError>)
    ensures
        match payments_answer_in(res.response@) {
            Some(answer) => updated matches Ok(envelope) && payment_outcome(*data, answer, envelope)
                && cloned(data.request, envelope.request),
            None => updated matches Err(ConnectorError::ResponseDeserializationFailed),
        },
        event_builder matches Some(sink) ==> sink_after(
            *sink,
            *final(sink),
            match payments_answer_in(res.response@) {
                Some(answer) => Some(answer_fields(answer.0.wire_name(), answer.1)),
                None => None,
            },
        ),
{
    match EsnekposPaymentsResponse::parse(res.response.as_slice()) {
        Some(response) => {
            match event_builder {
                Some(sink) => {
                    sink.set_response_body(&response.to_payload());
                },
                None => {},
            }
            Ok(payments_router_data(data, response))
        },
        None => Err(ConnectorError::ResponseDeserializationFailed),
    }
}

/// Reads the answer to a refund flow into an updated envelope, and records
/// the answer if there is a sink. A body that holds no answer gives
/// `ResponseDeserializationFailed` and leaves the sink as it was.
pub fn handle_refunds_response<F>(
    data: &RouterData<F, RefundsData, RefundsResponseData>,
    event_builder: Option<&mut ConnectorEvent>,
    res: Response,
) -> (updated: Result<RouterData<F, RefundsData, RefundsResponseData>, ConnectorError>)
    ensures
        match refund_answer_in(res.response@) {
            Some(answer) => updated matches Ok(envelope) && refund_outcome(*data, answer, envelope),
            None => updated matches Err(ConnectorError::ResponseDeserializationFailed),
        },
        event_builder matches Some(sink) ==> sink_after(
            *sink,
            *final(sink),
            match refund_answer_in(res.response@) {
                Some(answer) => Some(answer_fields(answer.1.wire_name(), answer.0)),
                None => None,
            },
        ),
{
    match RefundResponse::parse(res.response.as_slice()) {
        Some(response) => {
            match event_builder {
                Some(sink) => {
                    sink.set_response_body(&response.to_payload());
                },
                None => {},
            }
            Ok(refunds_router_data(data, response))
        },
        None => Err(ConnectorError::ResponseDeserializationFailed),
    }
}

impl ConnectorIntegration<
    PaymentMethodToken,
    PaymentMethodTokenizationData,
    PaymentsResponseData,
> for Esnekpos {

}

impl ConnectorIntegration<Session, PaymentsSessionData, PaymentsResponseData> for Esnekpos {

}

impl ConnectorIntegration<AccessTokenAuth, AccessTokenRequestData, AccessToken> for Esnekpos {

}

impl ConnectorIntegration<SetupMandate, SetupMandateRequestData, PaymentsResponseData> for Esnekpos {
    /// Esnekpos takes no mandates, and says so.
    fn build_request(&self, _req: &SetupMandateRouterData, _connectors: &Connectors) -> (built: Result<
        Option<Request>,
        ConnectorError,
    >)
        ensures
            built matches Err(ConnectorError::FlowNotSupported { flow, connector }) && flow@
                == "setup mandate"@ && connector@ == "esnekpos"@,
    {
        Err(
            ConnectorError::FlowNotSupported {
                flow: "setup mandate".to_owned(),
                connector: "esnekpos".to_owned(),
            },
        )
    }
}

impl ConnectorIntegration<Authorize, PaymentsAuthorizeData, PaymentsResponseData> for Esnekpos {
    fn get_headers(&self, req: &PaymentsAuthorizeRouterData, connectors: &Connectors) -> (list: Result<
        Vec<(String, Maskable)>,
        ConnectorError,
    >)
        ensures
            list matches Ok(list) && headers_view(list@) == esnekpos_headers(req.connector_auth_type),
    {
        self.build_headers(req, connectors)
    }

    fn get_url(&self, _req: &PaymentsAuthorizeRouterData, connectors: &Connectors) -> (url: Result<
        String,
        ConnectorError,
    >)
        ensures
            url matches Ok(url) && url@ == pay_url(*connectors),
    {
        proof {
            reveal_strlit("api/pay/EYV3DPay");
        }
        Ok(join(self.base_url(connectors), PAY_PATH))
    }

    /// The typed body of an authorization, as JSON. Only payments by card
    /// are implemented.
    fn get_request_body(&self, req: &PaymentsAuthorizeRouterData, _connectors: &Connectors) -> (body:
        Result<RequestContent, ConnectorError>)
        ensures
            match authorize_fields(req.request.amount, req.request.payment_method_data) {
                Some(fields) => body matches Ok(content) && content@ == ContentView::Json(fields),
                None => body matches Err(ConnectorError::NotImplemented(operation)) && operation@
                    == "Payment methods"@,
            },
    {
        let connector_router_data = EsnekposRouterData::new(
            &self.get_currency_unit(),
            req.request.amount,
            &req.request,
        );
        let connector_req = EsnekposPaymentsRequest::try_from(&connector_router_data)?;
        Ok(RequestContent::Json(connector_req.into_payload()))
    }

    /// A `POST` to the payment path with the common headers and the typed
    /// body, for a payment by card; `NotImplemented` for any other payment.
    fn build_request(&self, req: &PaymentsAuthorizeRouterData, connectors: &Connectors) -> (built: Result<
        Option<Request>,
        ConnectorError,
    >)
        ensures
            match authorize_fields(req.request.amount, req.request.payment_method_data) {
                Some(fields) => built matches Ok(Some(request)) && request@ == (RequestView {
                    url: pay_url(*connectors),
                    headers: esnekpos_headers(req.connector_auth_type),
                    method: Method::Post,
                    body: Some(ContentView::Json(fields)),
                }),
                None => built matches Err(ConnectorError::NotImplemented(operation)) && operation@
                    == "Payment methods"@,
            },
    {
        let req_bod = <Self as ConnectorIntegration<
            Authorize,
            PaymentsAuthorizeData,
            PaymentsResponseData,
        >>::get_request_body(self, req, connectors);
        let url = <Self as ConnectorIntegration<
            Authorize,
            PaymentsAuthorizeData,
            PaymentsResponseData,
        >>::get_url(self, req, connectors)?;
        let list = <Self as ConnectorIntegration<
            Authorize,
            PaymentsAuthorizeData,
            PaymentsResponseData,
        >>::get_headers(self, req, connectors)?;
        let request = RequestBuilder::new().method(Method::Post).url(url.as_str()).headers(
            list,
        ).set_body(req_bod?).build();
        proof {
            reveal_strlit("api/pay/EYV3DPay");
            lemma_common_headers("application/json"@, auth_headers(req.connector_auth_type));
            assert(request@.headers =~= esnekpos_headers(req.connector_auth_type));
        }
        Ok(Some(request))
    }

    fn handle_response(
        &self,
        data: &PaymentsAuthorizeRouterData,
        event_builder: Option<&mut ConnectorEvent>,
        res: Response,
    ) -> (updated: Result<PaymentsAuthorizeRouterData, ConnectorError>)
        ensures
            match payments_answer_in(res.response@) {
                Some(answer) => updated matches Ok(envelope) && payment_outcome(*data, answer, envelope)
                    && envelope.request == data.request,
                None => updated matches Err(ConnectorError::ResponseDeserializationFailed),
            },
            event_builder matches Some(sink) ==> sink_after(
                *sink,
                *final(sink),
                match payments_answer_in(res.response@) {
                    Some(answer) => Some(answer_fields(answer.0.wire_name(), answer.1)),
                    None => None,
                },
            ),
    {
        handle_payments_response(data, event_builder, res)
    }

    fn get_error_response(&self, res: Response, event_builder: Option<&mut ConnectorEvent>) -> (error:
        ErrorResponse) {
        self.build_error_response(res, event_builder)
    }
}

impl ConnectorIntegration<PSync, PaymentsSyncData, PaymentsResponseData> for Esnekpos {
    fn get_headers(&self, req: &PaymentsSyncRouterData, connectors: &Connectors) -> (list: Result<
        Vec<(String, Maskable)>,
        ConnectorError,
    >)
        ensures
            list matches Ok(list) && headers_view(list@) == esnekpos_headers(req.connector_auth_type),
    {
        self.build_headers(req, connectors)
    }

    fn get_content_type(&self) -> (content_type: &'static str) {
        self.common_get_content_type()
    }

    /// Esnekpos has no endpoint to query a payment.
    fn get_url(&self, _req: &PaymentsSyncRouterData, _connectors: &Connectors) -> (url: Result<
        String,
        ConnectorError,
    >)
        ensures
            url matches Err(ConnectorError::NotImplemented(operation)) && operation@
                == "ConnectorIntegration<api::PSync get_url method"@,
    {
        Err(ConnectorError::NotImplemented("ConnectorIntegration<api::PSync get_url method".to_owned()))
    }

    /// Always fails with `NotImplemented`, naming the payment sync: there
    /// is no URL to send the query to.
    fn build_request(&self, req: &PaymentsSyncRouterData, connectors: &Connectors) -> (built: Result<
        Option<Request>,
        ConnectorError,
    >)
        ensures
            built matches Err(ConnectorError::NotImplemented(operation)) && operation@
                == "ConnectorIntegration<api::PSync get_url method"@,
    {
        let url = <Self as ConnectorIntegration<PSync, PaymentsSyncData, PaymentsResponseData>>::get_url(
            self,
            req,
            connectors,
        )?;
        let list = <Self as ConnectorIntegration<
            PSync,
            PaymentsSyncData,
            PaymentsResponseData,
        >>::get_headers(self, req, connectors)?;
        Ok(
            Some(
                RequestBuilder::new().method(Method::Get).url(
                    url.as_str(),
                ).attach_default_headers().headers(list).build(),
            ),
        )
    }

    fn handle_response(
        &self,
        data: &PaymentsSyncRouterData,
        event_builder: Option<&mut ConnectorEvent>,
        res: Response,
    ) -> (updated: Result<PaymentsSyncRouterData, ConnectorError>)
        ensures
            match payments_answer_in(res.response@) {
                Some(answer) => updated matches Ok(envelope) && payment_outcome(*data, answer, envelope)
                    && envelope.request == data.request,
                None => updated matches Err(ConnectorError::ResponseDeserializationFailed),
            },
            event_builder matches Some(sink) ==> sink_after(
                *sink,
                *final(sink),
                match payments_answer_in(res.response@) {
                    Some(answer) => Some(answer_fields(answer.0.wire_name(), answer.1)),
                    None => None,
                },
            ),
    {
        handle_payments_response(data, event_builder, res)
    }

    fn get_error_response(&self, res: Response, event_builder: Option<&mut ConnectorEvent>) -> (error:
        ErrorResponse) {
        self.build_error_response(res, event_builder)
    }
}

impl ConnectorIntegration<Capture, PaymentsCaptureData, PaymentsResponseData> for Esnekpos {
    fn get_headers(&self, req: &PaymentsCaptureRouterData, connectors: &Connectors) -> (list: Result<
        Vec<(String, Maskable)>,
        ConnectorError,
    >)
        ensures
            list matches Ok(list) && headers_view(list@) == esnekpos_headers(req.connector_auth_type),
    {
        self.build_headers(req, connectors)
    }

    fn get_content_type(&self) -> (content_type: &'static str) {
        self.common_get_content_type()
    }

    fn get_url(&self, _req: &PaymentsCaptureRouterData, connectors: &Connectors) -> (url: Result<
        String,
        ConnectorError,
    >)
        ensures
            url matches Ok(url) && url@ == pay_url(*connectors),
    {
        proof {
            reveal_strlit("api/pay/EYV3DPay");
        }
        Ok(join(self.base_url(connectors), PAY_PATH))
    }

    /// The body of a capture is not implemented.
    fn get_request_body(&self, _req: &PaymentsCaptureRouterData, _connectors: &Connectors) -> (body:
        Result<RequestContent, ConnectorError>)
        ensures
            body matches Err(ConnectorError::NotImplemented(operation)) && operation@
                == "get_request_body method"@,
    {
        Err(ConnectorError::NotImplemented("get_request_body method".to_owned()))
    }

    /// Always fails with `NotImplemented`: a capture has a URL and headers,
    /// but no body yet.
    fn build_request(&self, req: &PaymentsCaptureRouterData, connectors: &Connectors) -> (built: Result<
        Option<Request>,
        ConnectorError,
    >)
        ensures
            built matches Err(ConnectorError::NotImplemented(operation)) && operation@
                == "get_request_body method"@,
    {
        let url = <Self as ConnectorIntegration<
            Capture,
            PaymentsCaptureData,
            PaymentsResponseData,
        >>::get_url(self, req, connectors)?;
        let list = <Self as ConnectorIntegration<
            Capture,
            PaymentsCaptureData,
            PaymentsResponseData,
        >>::get_headers(self, req, connectors)?;
        let body = <Self as ConnectorIntegration<
            Capture,
            PaymentsCaptureData,
            PaymentsResponseData,
        >>::get_request_body(self, req, connectors)?;
        Ok(
            Some(
                RequestBuilder::new().method(Method::Post).url(
                    url.as_str(),
                ).attach_default_headers().headers(list).set_body(body).build(),
            ),
        )
    }

    fn handle_response(
        &self,
        data: &PaymentsCaptureRouterData,
        event_builder: Option<&mut ConnectorEvent>,
        res: Response,
    ) -> (updated: Result<PaymentsCaptureRouterData, ConnectorError>)
        ensures
            match payments_answer_in(res.response@) {
                Some(answer) => updated matches Ok(envelope) && payment_outcome(*data, answer, envelope)
                    && envelope.request == data.request,
                None => updated matches Err(ConnectorError::ResponseDeserializationFailed),
            },
            event_builder matches Some(sink) ==> sink_after(
                *sink,
                *final(sink),
                match payments_answer_in(res.response@) {
                    Some(answer) => Some(answer_fields(answer.0.wire_name(), answer.1)),
                    None => None,
                },
            ),
    {
        handle_payments_response(data, event_builder, res)
    }

    fn get_error_response(&self, res: Response, event_builder: Option<&mut ConnectorEvent>) -> (error:
        ErrorResponse) {
        self.build_error_response(res, event_builder)
    }
}

impl ConnectorIntegration<Void, PaymentsCancelData, PaymentsResponseData> for Esnekpos {

}

impl ConnectorIntegration<Execute, RefundsData, RefundsResponseData> for Esnekpos {
    fn get_headers(&self, req: &RefundsRouterData<Execute>, connectors: &Connectors) -> (list: Result<
        Vec<(String, Maskable)>,
        ConnectorError,
    >)
        ensures
            list matches Ok(list) && headers_view(list@) == esnekpos_headers(req.connector_auth_type),
    {
        self.build_headers(req, connectors)
    }

    fn get_content_type(&self) -> (content_type: &'static str) {
        self.common_get_content_type()
    }

    /// Esnekpos has no endpoint for refunds yet.
    fn get_url(&self, _req: &RefundsRouterData<Execute>, _connectors: &Connectors) -> (url: Result<
        String,
        ConnectorError,
    >)
        ensures
            url matches Err(ConnectorError::NotImplemented(operation)) && operation@
                == "ConnectorIntegration<api::Execute get_url method"@,
    {
        Err(
            ConnectorError::NotImplemented(
                "ConnectorIntegration<api::Execute get_url method".to_owned(),
            ),
        )
    }

    /// The typed body of a refund, as JSON.
    fn get_request_body(&self, req: &RefundsRouterData<Execute>, _connectors: &Connectors) -> (body:
        Result<RequestContent, ConnectorError>)
        ensures
            body matches Ok(content) && content@ == ContentView::Json(
                refund_fields(req.request.refund_amount),
            ),
    {
        let connector_router_data = EsnekposRouterData::new(
            &self.get_currency_unit(),
            req.request.refund_amount,
            &req.request,
        );
        let connector_req = EsnekposRefundRequest::try_from(&connector_router_data)?;
        Ok(RequestContent::Json(connector_req.into_payload()))
    }

    /// Always fails with `NotImplemented`, naming the refund: there is no
    /// URL to send it to.
    fn build_request(&self, req: &RefundsRouterData<Execute>, connectors: &Connectors) -> (built: Result<
        Option<Request>,
        ConnectorError,
    >)
        ensures
            built matches Err(ConnectorError::NotImplemented(operation)) && operation@
                == "ConnectorIntegration<api::Execute get_url method"@,
    {
        let url = <Self as ConnectorIntegration<Execute, RefundsData, RefundsResponseData>>::get_url(
            self,
            req,
            connectors,
        )?;
        let list = <Self as ConnectorIntegration<Execute, RefundsData, RefundsResponseData>>::get_headers(
            self,
            req,
            connectors,
        )?;
        let body = <Self as ConnectorIntegration<
            Execute,
            RefundsData,
            RefundsResponseData,
        >>::get_request_body(self, req, connectors)?;
        let request = RequestBuilder::new().method(Method::Post).url(
            url.as_str(),
        ).attach_default_headers().headers(list).set_body(body).build();
        Ok(Some(request))
    }

    fn handle_response(
        &self,
        data: &RefundsRouterData<Execute>,
        event_builder: Option<&mut ConnectorEvent>,
        res: Response,
    ) -> (updated: Result<RefundsRouterData<Execute>, ConnectorError>)
        ensures
            match refund_answer_in(res.response@) {
                Some(answer) => updated matches Ok(envelope) && refund_outcome(*data, answer, envelope),
                None => updated matches Err(ConnectorError::ResponseDeserializationFailed),
            },
            event_builder matches Some(sink) ==> sink_after(
                *sink,
                *final(sink),
                match refund_answer_in(res.response@) {
                    Some(answer) => Some(answer_fields(answer.1.wire_name(), answer.0)),
                    None => None,
                },
            ),
    {
        handle_refunds_response(data, event_builder, res)
    }

    fn get_error_response(&self, res: Response, event_builder: Option<&mut ConnectorEvent>) -> (error:
        ErrorResponse) {
        self.build_error_response(res, event_builder)
    }
}

impl ConnectorIntegration<RSync, RefundsData, RefundsResponseData> for Esnekpos {
    fn get_headers(&self, req: &RefundSyncRouterData, connectors: &Connectors) -> (list: Result<
        Vec<(String, Maskable)>,
        ConnectorError,
    >)
        ensures
            list matches Ok(list) && headers_view(list@) == esnekpos_headers(req.connector_auth_type),
    {
        self.build_headers(req, connectors)
    }

    fn get_content_type(&self) -> (content_type: &'static str) {
        self.common_get_content_type()
    }

    /// Esnekpos has no endpoint to query a refund.
    fn get_url(&self, _req: &RefundSyncRouterData, _connectors: &Connectors) -> (url: Result<
        String,
        ConnectorError,
    >)
        ensures
            url matches Err(ConnectorError::NotImplemented(operation)) && operation@
                == "ConnectorIntegration<api::RSync get_url method"@,
    {
        Err(ConnectorError::NotImplemented("ConnectorIntegration<api::RSync get_url method".to_owned()))
    }

    /// Always fails with `NotImplemented`, naming the refund sync: there is
    /// no URL to send the query to.
    fn build_request(&self, req: &RefundSyncRouterData, connectors: &Connectors) -> (built: Result<
        Option<Request>,
        ConnectorError,
    >)
        ensures
            built matches Err(ConnectorError::NotImplemented(operation)) && operation@
                == "ConnectorIntegration<api::RSync get_url method"@,
    {
        let url = <Self as ConnectorIntegration<RSync, RefundsData, RefundsResponseData>>::get_url(
            self,
            req,
            connectors,
        )?;
        let list = <Self as ConnectorIntegration<RSync, RefundsData, RefundsResponseData>>::get_headers(
            self,
            req,
            connectors,
        )?;
        let body = <Self as ConnectorIntegration<RSync, RefundsData, RefundsResponseData>>::get_request_body(
            self,
            req,
            connectors,
        )?;
        Ok(
            Some(
                RequestBuilder::new().method(Method::Get).url(
                    url.as_str(),
                ).attach_default_headers().headers(list).set_body(body).build(),
            ),
        )
    }

    fn handle_response(
        &self,
        data: &RefundSyncRouterData,
        event_builder: Option<&mut ConnectorEvent>,
        res: Response,
    ) -> (updated: Result<RefundSyncRouterData, ConnectorError>)
        ensures
            match refund_answer_in(res.response@) {
                Some(answer) => updated matches Ok(envelope) && refund_outcome(*data, answer, envelope),
                None => updated matches Err(ConnectorError::ResponseDeserializationFailed),
            },
            event_builder matches Some(sink) ==> sink_after(
                *sink,
                *final(sink),
                match refund_answer_in(res.response@) {
                    Some(answer) => Some(answer_fields(answer.1.wire_name(), answer.0)),
                    None => None,
                },
            ),
    {
        handle_refunds_response(data, event_builder, res)
    }

    fn get_error_response(&self, res: Response, event_builder: Option<&mut ConnectorEvent>) -> (error:
        ErrorResponse) {
        self.build_error_response(res, event_builder)
    }
}

impl IncomingWebhook for Esnekpos {
    /// Esnekpos has no webhook contract.
    fn get_webhook_object_reference_id(&self, _request: &IncomingWebhookRequestDetails) -> (id: Result<
        ObjectReferenceId,
        ConnectorError,
    >)
        ensures
            id matches Err(ConnectorError::WebhooksNotImplemented),
    {
        Err(ConnectorError::WebhooksNotImplemented)
    }

    /// Esnekpos has no webhook contract.
    fn get_webhook_event_type(&self, _request: &IncomingWebhookRequestDetails) -> (event: Result<
        IncomingWebhookEvent,
        ConnectorError,
    >)
        ensures
            event matches Err(ConnectorError::WebhooksNotImplemented),
    {
        Err(ConnectorError::WebhooksNotImplemented)
    }

    /// Esnekpos has no webhook contract.
    fn get_webhook_resource_object(&self, _request: &IncomingWebhookRequestDetails) -> (resource: Result<
        Payload,
        ConnectorError,
    >)
        ensures
            resource matches Err(ConnectorError::WebhooksNotImplemented),
    {
        Err(ConnectorError::WebhooksNotImplemented)
    }
}

} // verus!
