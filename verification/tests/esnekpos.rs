use connector_integration::api::process_response;
use connector_integration::api::ConnectorCommon;
use connector_integration::api::ConnectorCommonExt;
use connector_integration::api::ConnectorIntegration;
use connector_integration::api::IncomingWebhook;
use connector_integration::api::IncomingWebhookRequestDetails;
use connector_integration::configs::ConnectorParams;
use connector_integration::configs::Connectors;
use connector_integration::connector::esnekpos::transformers::error_response_from;
use connector_integration::connector::esnekpos::transformers::EsnekposErrorResponse;
use connector_integration::connector::esnekpos::transformers::EsnekposPaymentStatus;
use connector_integration::connector::esnekpos::transformers::EsnekposPaymentsResponse;
use connector_integration::connector::esnekpos::transformers::EsnekposRefundStatus;
use connector_integration::connector::esnekpos::transformers::RefundResponse;
use connector_integration::connector::esnekpos::Esnekpos;
use connector_integration::connector::esnekpos::PAY_PATH;
use connector_integration::consts::NO_ERROR_CODE;
use connector_integration::consts::NO_ERROR_MESSAGE;
use connector_integration::enums::Connector;
use connector_integration::enums::PaymentMethod;
use connector_integration::errors::ConnectorError;
use connector_integration::events::ConnectorEvent;
use connector_integration::flows::AccessTokenAuth;
use connector_integration::flows::Authorize;
use connector_integration::flows::Capture;
use connector_integration::flows::Execute;
use connector_integration::flows::Flow;
use connector_integration::flows::FlowMarker;
use connector_integration::flows::PSync;
use connector_integration::flows::PaymentMethodToken;
use connector_integration::flows::RSync;
use connector_integration::flows::Session;
use connector_integration::flows::SetupMandate;
use connector_integration::flows::Void;
use connector_integration::json::Document;
use connector_integration::masking::Maskable;
use connector_integration::masking::MASK_MARKER;
use connector_integration::request::Method;
use connector_integration::request::Payload;
use connector_integration::request::PayloadValue;
use connector_integration::request::RequestContent;
use connector_integration::types::AccessToken;
use connector_integration::types::AccessTokenRequestData;
use connector_integration::types::AttemptStatus;
use connector_integration::types::Card;
use connector_integration::types::ConnectorAuthType;
use connector_integration::types::CurrencyUnit;
use connector_integration::types::ErrorResponse;
use connector_integration::types::PaymentMethodData;
use connector_integration::types::PaymentMethodTokenizationData;
use connector_integration::types::PaymentsAuthorizeData;
use connector_integration::types::PaymentsAuthorizeRouterData;
use connector_integration::types::PaymentsCancelData;
use connector_integration::types::PaymentsCancelRouterData;
use connector_integration::types::PaymentsCaptureData;
use connector_integration::types::PaymentsCaptureRouterData;
use connector_integration::types::PaymentsResponseData;
use connector_integration::types::PaymentsSessionData;
use connector_integration::types::PaymentsSyncData;
use connector_integration::types::PaymentsSyncRouterData;
use connector_integration::types::RefundStatus;
use connector_integration::types::RefundSyncRouterData;
use connector_integration::types::RefundsData;
use connector_integration::types::RefundsResponseData;
use connector_integration::types::RefundsRouterData;
use connector_integration::types::Response;
use connector_integration::types::ResponseId;
use connector_integration::types::RouterData;
use connector_integration::types::SetupMandateRequestData;
use connector_integration::types::SetupMandateRouterData;

fn settings() -> Connectors {
    Connectors {
        esnekpos: ConnectorParams {
            base_url: "https://pos.example/".to_string(),
            secondary_base_url: None,
        },
    }
}

fn card() -> PaymentMethodData {
    PaymentMethodData::Card(Card {
        card_number: "4111111111111111".to_string(),
        card_exp_month: "12".to_string(),
        card_exp_year: "2030".to_string(),
        card_cvc: "737".to_string(),
    })
}

fn header_key() -> ConnectorAuthType {
    ConnectorAuthType::HeaderKey { api_key: "sk_live_123".to_string() }
}

fn authorize_envelope(method: PaymentMethodData) -> PaymentsAuthorizeRouterData {
    RouterData::new(header_key(), PaymentsAuthorizeData { amount: 1250, payment_method_data: method })
}

fn sync_envelope() -> PaymentsSyncRouterData {
    RouterData::new(header_key(), PaymentsSyncData { connector_transaction_id: "tx_1".to_string() })
}

fn capture_envelope() -> PaymentsCaptureRouterData {
    RouterData::new(
        header_key(),
        PaymentsCaptureData { amount_to_capture: 1250, connector_transaction_id: "tx_1".to_string() },
    )
}

fn refund_data() -> RefundsData {
    RefundsData {
        refund_id: "rf_1".to_string(),
        connector_transaction_id: "tx_1".to_string(),
        refund_amount: 500,
    }
}

fn answer(status_code: u16, body: &str) -> Response {
    Response { response: body.as_bytes().to_vec(), status_code }
}

fn not_implemented(text: &str) -> ConnectorError {
    ConnectorError::NotImplemented(text.to_string())
}

fn authorize_body() -> Payload {
    Payload::new()
        .with("amount", PayloadValue::Integer(1250))
        .with("card_number", PayloadValue::Secret("4111111111111111".to_string()))
        .with("card_expiry_month", PayloadValue::Secret("12".to_string()))
        .with("card_expiry_year", PayloadValue::Secret("2030".to_string()))
        .with("card_cvc", PayloadValue::Secret("737".to_string()))
}

fn common_headers() -> Vec<(String, Maskable)> {
    vec![
        ("Content-Type".to_string(), Maskable::Normal("application/json".to_string())),
        ("Authorization".to_string(), Maskable::Masked("sk_live_123".to_string())),
    ]
}

#[test]
fn the_adapter_is_one_value() {
    assert!(Esnekpos::new() == Esnekpos::new());
    assert!(*Esnekpos::new() == Esnekpos {});
}

#[test]
fn common_metadata() {
    let connector = Esnekpos::new();
    assert!(connector.id() == "esnekpos");
    assert!(connector.id() == Connector::Esnekpos.as_str());
    assert!(Connector::from_str(connector.id()) == Ok(Connector::Esnekpos));
    assert!(connector.get_currency_unit() == CurrencyUnit::Minor);
    assert!(connector.common_get_content_type() == "application/json");
    assert!(connector.base_url(&settings()) == "https://pos.example/");
    assert!(PAY_PATH == "api/pay/EYV3DPay");
}

#[test]
fn flow_markers_name_their_flows() {
    assert!(Authorize::kind() == Flow::Authorize);
    assert!(PSync::kind() == Flow::PSync);
    assert!(Capture::kind() == Flow::Capture);
    assert!(Void::kind() == Flow::Void);
    assert!(SetupMandate::kind() == Flow::SetupMandate);
    assert!(Execute::kind() == Flow::Execute);
    assert!(RSync::kind() == Flow::RSync);
    assert!(AccessTokenAuth::kind() == Flow::AccessTokenAuth);
    assert!(Session::kind() == Flow::Session);
    assert!(PaymentMethodToken::kind() == Flow::PaymentMethodToken);
    assert!(Flow::PSync.as_str() == "PSync");
    assert!(Flow::IncomingWebhook.as_str() == "IncomingWebhook");
}

#[test]
fn auth_header_by_kind_of_credentials() {
    let connector = Esnekpos::new();
    assert!(
        connector.get_auth_header(&header_key())
            == Ok(vec![("Authorization".to_string(), Maskable::Masked("sk_live_123".to_string()))])
    );
    assert!(connector.get_auth_header(&ConnectorAuthType::NoKey) == Ok(vec![]));
    assert!(connector.get_auth_header(&ConnectorAuthType::BodyKey {
            api_key: "a".to_string(),
            key1: "b".to_string(),
        }) == Ok(vec![]));
}

#[test]
fn build_headers_gives_content_type_then_credentials() {
    let connector = Esnekpos::new();
    assert!(connector.build_headers(&sync_envelope(), &settings()) == Ok(common_headers()));
    let no_key: PaymentsSyncRouterData = RouterData::new(
        ConnectorAuthType::NoKey,
        PaymentsSyncData { connector_transaction_id: "tx_1".to_string() },
    );
    assert!(
        connector.build_headers(&no_key, &settings())
            == Ok(vec![("Content-Type".to_string(), Maskable::Normal("application/json".to_string()))])
    );
}

#[test]
fn void_is_absent() {
    let connector = Esnekpos::new();
    let envelope: PaymentsCancelRouterData = RouterData::new(
        header_key(),
        PaymentsCancelData { connector_transaction_id: "tx_1".to_string() },
    );
    assert!(connector.build_request(&envelope, &settings()) == Ok(None));
}

#[test]
fn void_steps_fail_as_not_implemented_when_invoked() {
    let connector = Esnekpos::new();
    let envelope: PaymentsCancelRouterData = RouterData::new(
        header_key(),
        PaymentsCancelData { connector_transaction_id: "tx_1".to_string() },
    );
    assert!(
        connector.get_url(&envelope, &settings())
            == Err(not_implemented("Void get_url method"))
    );
    assert!(
        connector.get_request_body(&envelope, &settings())
            == Err(not_implemented("get_request_body method"))
    );
    assert!(connector.get_headers(&envelope, &settings()) == Ok(common_headers()));
    assert!(
        connector.handle_response(&envelope, None, answer(200, "{}"))
            == Err(not_implemented("handle_response method"))
    );
    let content_type =
        ConnectorIntegration::<Void, PaymentsCancelData, PaymentsResponseData>::get_content_type(connector);
    assert_eq!(content_type, "application/json");
}

#[test]
fn flows_without_an_implementation_are_absent() {
    let connector = Esnekpos::new();
    let session: RouterData<Session, PaymentsSessionData, PaymentsResponseData> =
        RouterData::new(header_key(), PaymentsSessionData { amount: 1 });
    assert!(connector.build_request(&session, &settings()) == Ok(None));
    assert!(
        connector.get_url(&session, &settings())
            == Err(not_implemented("Session get_url method"))
    );
    let token: RouterData<AccessTokenAuth, AccessTokenRequestData, AccessToken> =
        RouterData::new(header_key(), AccessTokenRequestData { app_id: "app".to_string() });
    assert!(connector.build_request(&token, &settings()) == Ok(None));
    assert!(
        connector.get_url(&token, &settings())
            == Err(not_implemented("AccessTokenAuth get_url method"))
    );
    let tokenization: RouterData<
        PaymentMethodToken,
        PaymentMethodTokenizationData,
        PaymentsResponseData,
    > = RouterData::new(
        header_key(),
        PaymentMethodTokenizationData { payment_method_data: card() },
    );
    assert!(connector.build_request(&tokenization, &settings()) == Ok(None));
    assert!(
        connector.get_url(&tokenization, &settings())
            == Err(not_implemented("PaymentMethodToken get_url method"))
    );
}

#[test]
fn authorize_builds_a_post_with_json_body() {
    let connector = Esnekpos::new();
    let envelope = authorize_envelope(card());
    let request = connector.build_request(&envelope, &settings()).unwrap().unwrap();
    assert!(request.method == Method::Post);
    assert!(request.url == "https://pos.example/api/pay/EYV3DPay");
    assert!(request.url.ends_with(PAY_PATH));
    assert!(request.headers == common_headers());
    assert!(request.body == Some(RequestContent::Json(authorize_body())));
    assert!(request.is_well_formed());
}

#[test]
fn authorize_steps_one_by_one() {
    let connector = Esnekpos::new();
    let envelope = authorize_envelope(card());
    assert!(connector.get_headers(&envelope, &settings()) == Ok(common_headers()));
    assert!(
        connector.get_url(&envelope, &settings())
            == Ok("https://pos.example/api/pay/EYV3DPay".to_string())
    );
    assert!(
        connector.get_request_body(&envelope, &settings())
            == Ok(RequestContent::Json(authorize_body()))
    );
}

#[test]
fn authorize_takes_the_amount_as_it_is() {
    let connector = Esnekpos::new();
    for amount in [0, 1, -5, i64::MAX, i64::MIN] {
        let envelope: PaymentsAuthorizeRouterData = RouterData::new(
            ConnectorAuthType::NoKey,
            PaymentsAuthorizeData { amount, payment_method_data: card() },
        );
        let body = connector.get_request_body(&envelope, &settings()).unwrap();
        match body {
            RequestContent::Json(payload) => {
                assert!(payload.get("amount") == Some(&PayloadValue::Integer(amount)));
            }
            _ => panic!("the body of an authorization is JSON"),
        }
    }
}

#[test]
fn authorize_without_a_card_is_not_implemented() {
    let connector = Esnekpos::new();
    let envelope = authorize_envelope(PaymentMethodData::Other(PaymentMethod::Wallet));
    assert!(
        connector.build_request(&envelope, &settings())
            == Err(not_implemented("Payment methods"))
    );
    assert!(
        connector.get_request_body(&envelope, &settings())
            == Err(not_implemented("Payment methods"))
    );
}

#[test]
fn authorize_snapshot_masks_card_and_key() {
    let connector = Esnekpos::new();
    let envelope = authorize_envelope(card());
    let request = connector.build_request(&envelope, &settings()).unwrap().unwrap();
    let shown = request.masked_body().unwrap();
    let marker = PayloadValue::Text(MASK_MARKER.to_string());
    assert!(shown.get("amount") == Some(&PayloadValue::Integer(1250)));
    assert!(shown.get("card_number") == Some(&marker));
    assert!(shown.get("card_expiry_month") == Some(&marker));
    assert!(shown.get("card_expiry_year") == Some(&marker));
    assert!(shown.get("card_cvc") == Some(&marker));
    assert!(request.masked_headers() == vec![
            ("Content-Type".to_string(), "application/json".to_string()),
            ("Authorization".to_string(), MASK_MARKER.to_string()),
        ]);
    assert!(request.headers[1].1.peek() == "sk_live_123");
    assert!(request.body == Some(RequestContent::Json(authorize_body())));
}

#[test]
fn payment_sync_is_not_implemented() {
    let connector = Esnekpos::new();
    let envelope = sync_envelope();
    let expected = not_implemented("ConnectorIntegration<api::PSync get_url method");
    assert!(connector.build_request(&envelope, &settings()) == Err(expected.clone()));
    assert!(connector.get_url(&envelope, &settings()) == Err(expected));
    assert!(connector.get_headers(&envelope, &settings()) == Ok(common_headers()));
}

#[test]
fn refund_sync_is_not_implemented() {
    let connector = Esnekpos::new();
    let envelope: RefundSyncRouterData = RouterData::new(header_key(), refund_data());
    let expected = not_implemented("ConnectorIntegration<api::RSync get_url method");
    assert!(connector.build_request(&envelope, &settings()) == Err(expected.clone()));
    assert!(connector.get_url(&envelope, &settings()) == Err(expected));
    assert!(
        connector.get_request_body(&envelope, &settings())
            == Err(not_implemented("get_request_body method"))
    );
}

#[test]
fn refund_is_not_implemented_but_has_a_body() {
    let connector = Esnekpos::new();
    let envelope: RefundsRouterData<Execute> = RouterData::new(header_key(), refund_data());
    let expected = not_implemented("ConnectorIntegration<api::Execute get_url method");
    assert!(connector.build_request(&envelope, &settings()) == Err(expected.clone()));
    assert!(connector.get_url(&envelope, &settings()) == Err(expected));
    assert!(
        connector.get_request_body(&envelope, &settings())
            == Ok(RequestContent::Json(Payload::new().with("amount", PayloadValue::Integer(500))))
    );
}

#[test]
fn capture_has_a_url_but_no_body() {
    let connector = Esnekpos::new();
    let envelope = capture_envelope();
    assert!(
        connector.get_url(&envelope, &settings())
            == Ok("https://pos.example/api/pay/EYV3DPay".to_string())
    );
    assert!(
        connector.get_request_body(&envelope, &settings())
            == Err(not_implemented("get_request_body method"))
    );
    assert!(
        connector.build_request(&envelope, &settings())
            == Err(not_implemented("get_request_body method"))
    );
}

#[test]
fn setup_mandate_is_not_supported() {
    let connector = Esnekpos::new();
    let envelope: SetupMandateRouterData =
        RouterData::new(header_key(), SetupMandateRequestData { payment_method_data: card() });
    assert!(connector.build_request(&envelope, &settings()) == Err(ConnectorError::FlowNotSupported {
            flow: "setup mandate".to_string(),
            connector: "esnekpos".to_string(),
        }));
}

#[test]
fn a_fresh_envelope_has_no_response() {
    let envelope = authorize_envelope(card());
    assert!(envelope.response == None);
    assert!(envelope.status == AttemptStatus::Started);
    assert!(envelope.connector_auth_type == header_key());
    assert!(envelope.request.amount == 1250);
}

#[test]
fn with_outcome_leaves_the_envelope_and_updates_the_copy() {
    let envelope = sync_envelope();
    let updated = envelope.with_outcome(
        AttemptStatus::Charged,
        Ok(PaymentsResponseData::TransactionResponse { resource_id: ResponseId::NoResponseId }),
    );
    assert!(envelope == sync_envelope());
    assert!(updated.status == AttemptStatus::Charged);
    assert!(updated.request == envelope.request);
    assert!(updated.connector_auth_type == envelope.connector_auth_type);
    assert!(
        updated.response
            == Some(Ok(PaymentsResponseData::TransactionResponse { resource_id: ResponseId::NoResponseId }))
    );
}

#[test]
fn handle_response_reads_a_charged_payment() {
    let connector = Esnekpos::new();
    let envelope = authorize_envelope(card());
    let updated = connector
        .handle_response(&envelope, None, answer(200, r#"{"status":"succeeded","id":"pay_42"}"#))
        .unwrap();
    assert!(updated.status == AttemptStatus::Charged);
    assert!(updated.response == Some(Ok(PaymentsResponseData::TransactionResponse {
            resource_id: ResponseId::ConnectorTransactionId("pay_42".to_string()),
        })));
    assert!(updated.request == envelope.request);
    assert!(updated.connector_auth_type == envelope.connector_auth_type);
    assert!(envelope == authorize_envelope(card()));
}

#[test]
fn handle_response_maps_every_status() {
    let connector = Esnekpos::new();
    let envelope = sync_envelope();
    let cases = [
        ("succeeded", AttemptStatus::Charged),
        ("failed", AttemptStatus::Failure),
        ("processing", AttemptStatus::Authorizing),
    ];
    for (name, status) in cases {
        let body = format!(r#"{{"id":"pay_1","status":"{}","extra":[1,2]}}"#, name);
        let updated = connector.handle_response(&envelope, None, answer(200, &body)).unwrap();
        assert!(updated.status == status);
    }
    let capture = capture_envelope();
    let updated = connector
        .handle_response(&capture, None, answer(200, r#"{"status":"failed","id":"c"}"#))
        .unwrap();
    assert!(updated.status == AttemptStatus::Failure);
    assert!(updated.request == capture.request);
}

#[test]
fn handle_response_rejects_bodies_off_schema() {
    let connector = Esnekpos::new();
    let envelope = authorize_envelope(card());
    let bodies = [
        "",
        "not json",
        "{",
        r#"{"status":"succeeded"}"#,
        r#"{"id":"pay_42"}"#,
        r#"{"status":"SUCCEEDED","id":"pay_42"}"#,
        r#"{"status":"done","id":"pay_42"}"#,
        r#"{"status":"succeeded","id":42}"#,
        r#"{"status":null,"id":"pay_42"}"#,
        r#"["succeeded","pay_42"]"#,
        r#""succeeded""#,
        "null",
        r#"{"status":"succeeded","id":"pay_42"} trailing"#,
    ];
    for body in bodies {
        assert!(
            connector.handle_response(&envelope, None, answer(200, body))
                == Err(ConnectorError::ResponseDeserializationFailed)
        );
    }
    assert!(connector.handle_response(
            &envelope,
            None,
            Response { response: vec![0xff, 0xfe, 0x00], status_code: 200 }
        ) == Err(ConnectorError::ResponseDeserializationFailed));
}

#[test]
fn handle_response_reads_a_refund() {
    let connector = Esnekpos::new();
    let envelope: RefundsRouterData<Execute> = RouterData::new(header_key(), refund_data());
    let cases = [
        ("succeeded", RefundStatus::Success),
        ("failed", RefundStatus::Failure),
        ("processing", RefundStatus::Pending),
    ];
    for (name, status) in cases {
        let body = format!(r#"{{"id":"rf_9","status":"{}"}}"#, name);
        let updated = connector.handle_response(&envelope, None, answer(200, &body)).unwrap();
        assert!(
            updated.response
                == Some(Ok(RefundsResponseData { connector_refund_id: "rf_9".to_string(), refund_status: status }))
        );
        assert!(updated.status == envelope.status);
        assert!(updated.request == envelope.request);
    }
    let sync: RefundSyncRouterData = RouterData::new(header_key(), refund_data());
    assert!(connector.handle_response(&sync, None, answer(200, r#"{"id":"rf_9"}"#)) == Err(ConnectorError::ResponseDeserializationFailed));
    assert!(connector
        .handle_response(&sync, None, answer(200, r#"{"id":"rf_9","status":"failed"}"#))
        .is_ok());
}

#[test]
fn the_sink_records_the_answer_and_changes_no_result() {
    let connector = Esnekpos::new();
    let envelope = authorize_envelope(card());
    let body = r#"{"status":"succeeded","id":"pay_42"}"#;
    let mut event = ConnectorEvent::new("esnekpos".to_string(), "Authorize".to_string());
    let with_sink = connector.handle_response(&envelope, Some(&mut event), answer(200, body));
    let without_sink = connector.handle_response(&envelope, None, answer(200, body));
    assert!(with_sink == without_sink);
    assert!(event.masked_response == Some(
            Payload::new()
                .with("status", PayloadValue::Text("succeeded".to_string()))
                .with("id", PayloadValue::Text("pay_42".to_string()))
        ));
    assert!(event.error == None);
}

#[test]
fn the_sink_stays_as_it_was_when_the_body_is_off_schema() {
    let connector = Esnekpos::new();
    let envelope = authorize_envelope(card());
    let mut event = ConnectorEvent::new("esnekpos".to_string(), "Authorize".to_string());
    let before = event.clone();
    let outcome = connector.handle_response(&envelope, Some(&mut event), answer(200, "oops"));
    assert!(outcome == Err(ConnectorError::ResponseDeserializationFailed));
    assert!(event == before);
    let error = connector.build_error_response(answer(502, "<html>"), Some(&mut event));
    assert!(error.status_code == 502);
    assert!(event == before);
}

#[test]
fn error_body_of_the_connector_is_carried() {
    let connector = Esnekpos::new();
    let mut event = ConnectorEvent::new("esnekpos".to_string(), "Authorize".to_string());
    let error = connector.build_error_response(
        answer(402, r#"{"code":"E51","message":"Insufficient funds"}"#),
        Some(&mut event),
    );
    assert!(error == ErrorResponse {
            status_code: 402,
            code: "E51".to_string(),
            message: "Insufficient funds".to_string(),
            reason: Some("Insufficient funds".to_string()),
            attempt_status: None,
            connector_transaction_id: None,
        });
    assert!(event.masked_response == Some(
            Payload::new()
                .with("code", PayloadValue::Text("E51".to_string()))
                .with("message", PayloadValue::Text("Insufficient funds".to_string()))
        ));
}

#[test]
fn an_empty_message_of_the_connector_gives_the_fixed_one() {
    let connector = Esnekpos::new();
    let error = connector.build_error_response(answer(402, r#"{"code":"E51","message":""}"#), None);
    assert!(error == ErrorResponse {
            status_code: 402,
            code: "E51".to_string(),
            message: "No error message".to_string(),
            reason: Some(String::new()),
            attempt_status: None,
            connector_transaction_id: None,
        });
    let error = connector.build_error_response(answer(402, r#"{"code":"","message":" "}"#), None);
    assert_eq!(error.code, "");
    assert_eq!(error.message, " ");
    assert_eq!(error.reason, Some(" ".to_string()));
}

#[test]
fn invalid_error_body_falls_back() {
    let connector = Esnekpos::new();
    for (status_code, body) in [
        (500, "<html>Bad gateway</html>"),
        (400, ""),
        (404, "{"),
        (422, r#"{"code":"E51"}"#),
        (422, r#"{"code":51,"message":"x"}"#),
        (0, "[]"),
        (u16::MAX, "null"),
    ] {
        let error = connector.build_error_response(answer(status_code, body), None);
        assert!(error == ErrorResponse {
                status_code,
                code: NO_ERROR_CODE.to_string(),
                message: NO_ERROR_MESSAGE.to_string(),
                reason: Some(body.to_string()),
                attempt_status: None,
                connector_transaction_id: None,
            });
    }
    assert!(NO_ERROR_CODE == "No error code");
    assert!(NO_ERROR_MESSAGE == "No error message");
}

#[test]
fn error_body_that_is_no_text_gives_a_lossy_reason() {
    let connector = Esnekpos::new();
    let error = connector.build_error_response(
        Response { response: vec![b'a', 0xff, b'b'], status_code: 503 },
        None,
    );
    assert!(error.status_code == 503);
    assert!(error.code == NO_ERROR_CODE);
    assert!(error.message == NO_ERROR_MESSAGE);
    assert!(error.reason == Some("a\u{fffd}b".to_string()));
}

#[test]
fn every_flow_normalises_errors_alike() {
    let connector = Esnekpos::new();
    let body = r#"{"code":"E1","message":"m"}"#;
    let expected = connector.build_error_response(answer(400, body), None);
    let authorize = ConnectorIntegration::<Authorize, PaymentsAuthorizeData, PaymentsResponseData>::get_error_response(
        connector,
        answer(400, body),
        None,
    );
    assert_eq!(authorize, expected);
    let sync = ConnectorIntegration::<PSync, PaymentsSyncData, PaymentsResponseData>::get_error_response(
        connector,
        answer(400, body),
        None,
    );
    assert_eq!(sync, expected);
    let void = ConnectorIntegration::<Void, PaymentsCancelData, PaymentsResponseData>::get_error_response(
        connector,
        answer(400, body),
        None,
    );
    assert_eq!(void, expected);
    let refund_sync = ConnectorIntegration::<RSync, RefundsData, RefundsResponseData>::get_error_response(
        connector,
        answer(400, body),
        None,
    );
    assert_eq!(refund_sync, expected);
}

#[test]
fn every_flow_records_errors_alike() {
    let connector = Esnekpos::new();
    let body = r#"{"code":"E1","message":"m"}"#;
    let fresh = || ConnectorEvent::new("esnekpos".to_string(), "Authorize".to_string());
    let mut expected = fresh();
    connector.build_error_response(answer(400, body), Some(&mut expected));
    assert!(expected.masked_response == Some(
            Payload::new()
                .with("code", PayloadValue::Text("E1".to_string()))
                .with("message", PayloadValue::Text("m".to_string()))
        ));
    let mut authorize = fresh();
    ConnectorIntegration::<Authorize, PaymentsAuthorizeData, PaymentsResponseData>::get_error_response(
        connector,
        answer(400, body),
        Some(&mut authorize),
    );
    assert!(authorize == expected);
    let mut capture = fresh();
    ConnectorIntegration::<Capture, PaymentsCaptureData, PaymentsResponseData>::get_error_response(
        connector,
        answer(400, body),
        Some(&mut capture),
    );
    assert!(capture == expected);
    let mut refund = fresh();
    ConnectorIntegration::<Execute, RefundsData, RefundsResponseData>::get_error_response(
        connector,
        answer(400, body),
        Some(&mut refund),
    );
    assert!(refund == expected);
    let mut void = fresh();
    ConnectorIntegration::<Void, PaymentsCancelData, PaymentsResponseData>::get_error_response(
        connector,
        answer(400, body),
        Some(&mut void),
    );
    assert!(void == expected);
    let mut untouched = fresh();
    ConnectorIntegration::<PSync, PaymentsSyncData, PaymentsResponseData>::get_error_response(
        connector,
        answer(400, "<html>"),
        Some(&mut untouched),
    );
    assert!(untouched == fresh());
}

#[test]
fn error_response_from_what_was_read() {
    assert!(error_response_from(
            Some(EsnekposErrorResponse { code: "E1".to_string(), message: "m".to_string() }),
            401,
            "raw".to_string()
        ) == ErrorResponse {
            status_code: 401,
            code: "E1".to_string(),
            message: "m".to_string(),
            reason: Some("m".to_string()),
            attempt_status: None,
            connector_transaction_id: None,
        });
    assert!(error_response_from(
            Some(EsnekposErrorResponse { code: "E1".to_string(), message: String::new() }),
            401,
            "raw".to_string()
        ) == ErrorResponse {
            status_code: 401,
            code: "E1".to_string(),
            message: NO_ERROR_MESSAGE.to_string(),
            reason: Some(String::new()),
            attempt_status: None,
            connector_transaction_id: None,
        });
    assert!(error_response_from(None, 401, "raw".to_string()) == ErrorResponse {
            status_code: 401,
            code: NO_ERROR_CODE.to_string(),
            message: NO_ERROR_MESSAGE.to_string(),
            reason: Some("raw".to_string()),
            attempt_status: None,
            connector_transaction_id: None,
        });
}

#[test]
fn answers_from_members() {
    assert!(
        EsnekposPaymentsResponse::from_members(Some("failed".to_string()), Some("p".to_string()))
            == Some(EsnekposPaymentsResponse { status: EsnekposPaymentStatus::Failed, id: "p".to_string() })
    );
    assert!(EsnekposPaymentsResponse::from_members(None, Some("p".to_string())) == None);
    assert!(EsnekposPaymentsResponse::from_members(Some("failed".to_string()), None) == None);
    assert!(
        EsnekposPaymentsResponse::from_members(Some("Failed".to_string()), Some("p".to_string()))
            == None
    );
    assert!(
        RefundResponse::from_members(Some("r".to_string()), Some("processing".to_string()))
            == Some(RefundResponse { id: "r".to_string(), status: EsnekposRefundStatus::Processing })
    );
    assert!(RefundResponse::from_members(Some("r".to_string()), Some("".to_string())) == None);
    assert!(RefundResponse::from_members(None, None) == None);
    assert!(
        EsnekposErrorResponse::from_members(Some("c".to_string()), Some("m".to_string()))
            == Some(EsnekposErrorResponse { code: "c".to_string(), message: "m".to_string() })
    );
    assert!(EsnekposErrorResponse::from_members(Some("c".to_string()), None) == None);
    assert!(EsnekposErrorResponse::from_members(None, Some("m".to_string())) == None);
}

#[test]
fn statuses_have_names_and_normal_forms() {
    assert!(EsnekposPaymentStatus::from_str("succeeded") == Some(EsnekposPaymentStatus::Succeeded));
    assert!(EsnekposPaymentStatus::from_str("pending") == None);
    assert!(EsnekposPaymentStatus::Processing.as_str() == "processing");
    assert!(EsnekposPaymentStatus::Succeeded.into_attempt_status() == AttemptStatus::Charged);
    assert!(EsnekposPaymentStatus::Failed.into_attempt_status() == AttemptStatus::Failure);
    assert!(EsnekposPaymentStatus::Processing.into_attempt_status() == AttemptStatus::Authorizing);
    assert!(EsnekposRefundStatus::from_str("failed") == Some(EsnekposRefundStatus::Failed));
    assert!(EsnekposRefundStatus::from_str("FAILED") == None);
    assert!(EsnekposRefundStatus::Succeeded.as_str() == "succeeded");
    assert!(EsnekposRefundStatus::Succeeded.into_refund_status() == RefundStatus::Success);
    assert!(EsnekposRefundStatus::Failed.into_refund_status() == RefundStatus::Failure);
    assert!(EsnekposRefundStatus::Processing.into_refund_status() == RefundStatus::Pending);
}

#[test]
fn json_documents_give_their_text_members() {
    let document =
        Document::parse(r#"{"a":"x","b":1,"c":{"a":"inner"},"d":"é","e":null,"f":""}"#.as_bytes()).unwrap();
    assert_eq!(document.members.len(), 6);
    assert_eq!(document.text("a"), Some("x".to_string()));
    assert_eq!(document.text("b"), None);
    assert_eq!(document.text("c"), None);
    assert_eq!(document.text("d"), Some("é".to_string()));
    assert_eq!(document.text("e"), None);
    assert_eq!(document.text("f"), Some(String::new()));
    assert_eq!(document.text("missing"), None);
    assert_eq!(document.text(""), None);
    assert_eq!(document.text("A"), None);
    let empty = Document::parse(b" {} ").unwrap();
    assert!(empty.members.is_empty());
    assert_eq!(empty.text("a"), None);
}

#[test]
fn json_documents_are_objects() {
    assert!(Document::parse(b"").is_none());
    assert!(Document::parse(b"{").is_none());
    assert!(Document::parse(b"{} {}").is_none());
    assert!(Document::parse(b"nul").is_none());
    assert!(Document::parse(b"null").is_none());
    assert!(Document::parse(br#"["a"]"#).is_none());
    assert!(Document::parse(br#""a""#).is_none());
    assert!(Document::parse(b"1").is_none());
    assert!(Document::parse(&[0xff, 0xfe]).is_none());
    assert!(Document::parse(br#"{"a":"x"}"#).is_some());
}

#[test]
fn the_last_of_two_members_under_one_key_counts() {
    let document = Document::parse(br#"{"a":"x","a":"y"}"#).unwrap();
    assert_eq!(document.text("a"), Some("y".to_string()));
    let document = Document::parse(br#"{"a":"x","a":1}"#).unwrap();
    assert_eq!(document.text("a"), None);
}

#[test]
fn process_response_hands_success_to_the_flow() {
    let connector = Esnekpos::new();
    let envelope = authorize_envelope(card());
    for status_code in [200, 201, 299] {
        let updated = process_response(
            connector,
            &envelope,
            None,
            answer(status_code, r#"{"status":"processing","id":"p"}"#),
        )
        .unwrap();
        assert!(updated.status == AttemptStatus::Authorizing);
    }
    assert!(
        process_response(connector, &envelope, None, answer(200, "oops"))
            == Err(ConnectorError::ResponseDeserializationFailed)
    );
}

#[test]
fn process_response_normalises_failures() {
    let connector = Esnekpos::new();
    let envelope = authorize_envelope(card());
    for status_code in [199, 300, 400, 500, 0] {
        let body = r#"{"code":"E51","message":"Insufficient funds"}"#;
        let updated =
            process_response(connector, &envelope, None, answer(status_code, body)).unwrap();
        assert!(updated.status == envelope.status);
        assert!(updated.request == envelope.request);
        assert!(
            updated.response
                == Some(Err(connector.build_error_response(answer(status_code, body), None)))
        );
    }
    let updated = process_response(connector, &envelope, None, answer(500, "down")).unwrap();
    match updated.response {
        Some(Err(error)) => {
            assert!(error.status_code == 500);
            assert!(error.message == NO_ERROR_MESSAGE);
            assert!(error.reason == Some("down".to_string()));
        }
        _ => panic!("a failed call gives an error response"),
    }
}

#[test]
fn process_response_records_as_the_flow_does() {
    let connector = Esnekpos::new();
    let envelope = authorize_envelope(card());
    let fresh = || ConnectorEvent::new("esnekpos".to_string(), "Authorize".to_string());

    let body = r#"{"status":"succeeded","id":"pay_42"}"#;
    let mut through = fresh();
    let mut direct = fresh();
    let updated = process_response(connector, &envelope, Some(&mut through), answer(200, body));
    let expected = connector.handle_response(&envelope, Some(&mut direct), answer(200, body));
    assert!(updated == expected);
    assert!(through == direct);
    assert!(through.masked_response.is_some());

    let mut off_schema = fresh();
    assert!(
        process_response(connector, &envelope, Some(&mut off_schema), answer(200, "oops"))
            == Err(ConnectorError::ResponseDeserializationFailed)
    );
    assert!(off_schema == fresh());

    let body = r#"{"code":"E51","message":"Insufficient funds"}"#;
    let mut through = fresh();
    let mut direct = fresh();
    let updated =
        process_response(connector, &envelope, Some(&mut through), answer(402, body)).unwrap();
    let error = connector.build_error_response(answer(402, body), Some(&mut direct));
    assert!(updated.response == Some(Err(error)));
    assert!(through == direct);
    assert!(through.masked_response == Some(
            Payload::new()
                .with("code", PayloadValue::Text("E51".to_string()))
                .with("message", PayloadValue::Text("Insufficient funds".to_string()))
        ));

    let mut nothing = fresh();
    assert!(process_response(connector, &envelope, Some(&mut nothing), answer(502, "down")).is_ok());
    assert!(nothing == fresh());
}

#[test]
fn process_response_of_a_flow_without_responses_is_not_implemented() {
    let connector = Esnekpos::new();
    let envelope: PaymentsCancelRouterData = RouterData::new(
        header_key(),
        PaymentsCancelData { connector_transaction_id: "tx_1".to_string() },
    );
    assert!(
        process_response(connector, &envelope, None, answer(200, "{}"))
            == Err(not_implemented("handle_response method"))
    );
    let updated = process_response(connector, &envelope, None, answer(500, "down")).unwrap();
    assert!(updated.request == envelope.request);
    match updated.response {
        Some(Err(error)) => assert_eq!(error.reason, Some("down".to_string())),
        _ => panic!("a failed call gives an error response"),
    }
}

#[test]
fn webhooks_are_not_implemented() {
    let connector = Esnekpos::new();
    let request = IncomingWebhookRequestDetails {
        method: Method::Post,
        headers: vec![],
        body: br#"{"id":"evt_1"}"#.to_vec(),
        query_params: String::new(),
    };
    assert!(
        connector.get_webhook_object_reference_id(&request)
            == Err(ConnectorError::WebhooksNotImplemented)
    );
    assert!(
        connector.get_webhook_event_type(&request)
            == Err(ConnectorError::WebhooksNotImplemented)
    );
    assert!(
        connector.get_webhook_resource_object(&request)
            == Err(ConnectorError::WebhooksNotImplemented)
    );
}

fn is_allowed(built: &Result<Option<connector_integration::request::Request>, ConnectorError>) -> bool {
    match built {
        Ok(Some(request)) => request.is_well_formed(),
        Ok(None) => true,
        Err(ConnectorError::NotImplemented(_)) => true,
        Err(ConnectorError::FlowNotSupported { .. }) => true,
        Err(_) => false,
    }
}

#[test]
fn every_flow_ends_in_an_allowed_outcome() {
    let connector = Esnekpos::new();
    let cfg = settings();
    for method in [card(), PaymentMethodData::Other(PaymentMethod::Crypto)] {
        assert!(is_allowed(&connector.build_request(&authorize_envelope(method), &cfg)));
    }
    assert!(is_allowed(&connector.build_request(&sync_envelope(), &cfg)));
    assert!(is_allowed(&connector.build_request(&capture_envelope(), &cfg)));
    let void: PaymentsCancelRouterData = RouterData::new(
        ConnectorAuthType::NoKey,
        PaymentsCancelData { connector_transaction_id: String::new() },
    );
    assert!(is_allowed(&connector.build_request(&void, &cfg)));
    let mandate: SetupMandateRouterData =
        RouterData::new(header_key(), SetupMandateRequestData { payment_method_data: card() });
    assert!(is_allowed(&connector.build_request(&mandate, &cfg)));
    let refund: RefundsRouterData<Execute> = RouterData::new(header_key(), refund_data());
    assert!(is_allowed(&connector.build_request(&refund, &cfg)));
    let refund_sync: RefundSyncRouterData = RouterData::new(header_key(), refund_data());
    assert!(is_allowed(&connector.build_request(&refund_sync, &cfg)));
    let session: RouterData<Session, PaymentsSessionData, PaymentsResponseData> =
        RouterData::new(header_key(), PaymentsSessionData { amount: 0 });
    assert!(is_allowed(&connector.build_request(&session, &cfg)));
    let token: RouterData<AccessTokenAuth, AccessTokenRequestData, AccessToken> =
        RouterData::new(header_key(), AccessTokenRequestData { app_id: String::new() });
    assert!(is_allowed(&connector.build_request(&token, &cfg)));
    let tokenization: RouterData<
        PaymentMethodToken,
        PaymentMethodTokenizationData,
        PaymentsResponseData,
    > = RouterData::new(header_key(), PaymentMethodTokenizationData { payment_method_data: card() });
    assert!(is_allowed(&connector.build_request(&tokenization, &cfg)));
}

#[test]
fn an_empty_base_url_still_gives_a_url() {
    let connector = Esnekpos::new();
    let cfg = Connectors {
        esnekpos: ConnectorParams { base_url: String::new(), secondary_base_url: None },
    };
    let request = connector.build_request(&authorize_envelope(card()), &cfg).unwrap().unwrap();
    assert_eq!(request.url, "api/pay/EYV3DPay");
    assert!(request.is_well_formed());
}
