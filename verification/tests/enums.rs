use connector_integration::enums::convert_authentication_connector;
use connector_integration::enums::convert_pm_auth_connector;
use connector_integration::enums::AccessTokenSupport;
use connector_integration::enums::AuthenticationConnectors;
use connector_integration::enums::CapabilityProfile;
use connector_integration::enums::Connector;
use connector_integration::enums::ConnectorAllowList;
use connector_integration::enums::FieldType;
use connector_integration::enums::FrmAction;
use connector_integration::enums::FrmConnectors;
use connector_integration::enums::FrmPreferredFlowTypes;
use connector_integration::enums::ParseError;
use connector_integration::enums::PaymentMethod;
use connector_integration::enums::PayoutConnectors;
use connector_integration::enums::PmAuthConnectors;
use connector_integration::enums::RetryAction;
use connector_integration::enums::RoutableConnectors;
use connector_integration::enums::RoutingAlgorithm;
use connector_integration::enums::UnresolvedResponseReason;

fn all_connectors() -> Vec<(Connector, &'static str)> {
    vec![
        (Connector::DummyConnector1, "phonypay"),
        (Connector::DummyConnector2, "fauxpay"),
        (Connector::DummyConnector3, "pretendpay"),
        (Connector::DummyConnector4, "stripe_test"),
        (Connector::DummyConnector5, "adyen_test"),
        (Connector::DummyConnector6, "checkout_test"),
        (Connector::DummyConnector7, "paypal_test"),
        (Connector::Aci, "aci"),
        (Connector::Adyen, "adyen"),
        (Connector::Airwallex, "airwallex"),
        (Connector::Authorizedotnet, "authorizedotnet"),
        (Connector::Bambora, "bambora"),
        (Connector::Bankofamerica, "bankofamerica"),
        (Connector::Billwerk, "billwerk"),
        (Connector::Bitpay, "bitpay"),
        (Connector::Bluesnap, "bluesnap"),
        (Connector::Boku, "boku"),
        (Connector::Braintree, "braintree"),
        (Connector::Cashtocode, "cashtocode"),
        (Connector::Checkout, "checkout"),
        (Connector::Coinbase, "coinbase"),
        (Connector::Cryptopay, "cryptopay"),
        (Connector::Cybersource, "cybersource"),
        (Connector::Dlocal, "dlocal"),
        (Connector::Esnekpos, "esnekpos"),
        (Connector::Fiserv, "fiserv"),
        (Connector::Forte, "forte"),
        (Connector::Globalpay, "globalpay"),
        (Connector::Globepay, "globepay"),
        (Connector::Gocardless, "gocardless"),
        (Connector::Helcim, "helcim"),
        (Connector::Iatapay, "iatapay"),
        (Connector::Klarna, "klarna"),
        (Connector::Mollie, "mollie"),
        (Connector::Multisafepay, "multisafepay"),
        (Connector::Netcetera, "netcetera"),
        (Connector::Nexinets, "nexinets"),
        (Connector::Nmi, "nmi"),
        (Connector::Noon, "noon"),
        (Connector::Nuvei, "nuvei"),
        (Connector::Opennode, "opennode"),
        (Connector::Payme, "payme"),
        (Connector::Paypal, "paypal"),
        (Connector::Payu, "payu"),
        (Connector::Placetopay, "placetopay"),
        (Connector::Powertranz, "powertranz"),
        (Connector::Prophetpay, "prophetpay"),
        (Connector::Rapyd, "rapyd"),
        (Connector::Shift4, "shift4"),
        (Connector::Square, "square"),
        (Connector::Stax, "stax"),
        (Connector::Stripe, "stripe"),
        (Connector::Threedsecureio, "threedsecureio"),
        (Connector::Trustpay, "trustpay"),
        (Connector::Tsys, "tsys"),
        (Connector::Volt, "volt"),
        (Connector::Wise, "wise"),
        (Connector::Worldline, "worldline"),
        (Connector::Worldpay, "worldpay"),
        (Connector::Signifyd, "signifyd"),
        (Connector::Plaid, "plaid"),
        (Connector::Riskified, "riskified"),
        (Connector::Zen, "zen"),
        (Connector::Zsl, "zsl"),
    ]
}

fn all_payment_methods() -> Vec<PaymentMethod> {
    vec![
        PaymentMethod::Card,
        PaymentMethod::CardRedirect,
        PaymentMethod::PayLater,
        PaymentMethod::Wallet,
        PaymentMethod::BankRedirect,
        PaymentMethod::BankTransfer,
        PaymentMethod::Crypto,
        PaymentMethod::BankDebit,
        PaymentMethod::Reward,
        PaymentMethod::Upi,
        PaymentMethod::Voucher,
        PaymentMethod::GiftCard,
    ]
}

#[test]
fn every_connector_has_its_wire_name() {
    let all = all_connectors();
    assert_eq!(all.len(), 64);
    for (connector, name) in all {
        assert_eq!(connector.as_str(), name);
        assert_eq!(connector.to_string(), name.to_string());
    }
}

#[test]
fn every_connector_round_trips_through_its_wire_name() {
    for (connector, name) in all_connectors() {
        assert_eq!(Connector::from_str(&connector.to_string()), Ok(connector));
        assert_eq!(Connector::from_str(name), Ok(connector));
    }
}

#[test]
fn wire_names_are_pairwise_distinct() {
    let all = all_connectors();
    for (i, (_, a)) in all.iter().enumerate() {
        for (j, (_, b)) in all.iter().enumerate() {
            if i != j {
                assert_ne!(a, b);
            }
        }
    }
}

#[test]
fn test_doubles_travel_under_their_own_names() {
    assert_eq!(Connector::DummyConnector1.as_str(), "phonypay");
    assert_eq!(Connector::DummyConnector2.as_str(), "fauxpay");
    assert_eq!(Connector::DummyConnector3.as_str(), "pretendpay");
    assert_eq!(Connector::DummyConnector4.as_str(), "stripe_test");
    assert_eq!(Connector::DummyConnector5.as_str(), "adyen_test");
    assert_eq!(Connector::DummyConnector6.as_str(), "checkout_test");
    assert_eq!(Connector::DummyConnector7.as_str(), "paypal_test");
    assert_eq!(Connector::from_str("stripe_test"), Ok(Connector::DummyConnector4));
    assert_eq!(Connector::from_str("stripe"), Ok(Connector::Stripe));
}

#[test]
fn unknown_names_are_not_decoded() {
    assert_eq!(Connector::from_str(""), Err(ParseError::VariantNotFound));
    assert_eq!(Connector::from_str("Adyen"), Err(ParseError::VariantNotFound));
    assert_eq!(Connector::from_str("ADYEN"), Err(ParseError::VariantNotFound));
    assert_eq!(Connector::from_str("adyen "), Err(ParseError::VariantNotFound));
    assert_eq!(Connector::from_str("ady"), Err(ParseError::VariantNotFound));
    assert_eq!(Connector::from_str("dummy_connector1"), Err(ParseError::VariantNotFound));
    assert_eq!(Connector::from_str("ebanx"), Err(ParseError::VariantNotFound));
    assert_eq!(Connector::from_str("stripé"), Err(ParseError::VariantNotFound));
}

#[test]
fn access_token_support_by_connector_and_method() {
    for method in all_payment_methods() {
        assert!(Connector::Airwallex.supports_access_token(method));
        assert!(Connector::Globalpay.supports_access_token(method));
        assert!(Connector::Paypal.supports_access_token(method));
        assert!(Connector::Payu.supports_access_token(method));
        assert!(Connector::Iatapay.supports_access_token(method));
        assert!(Connector::Volt.supports_access_token(method));
        assert!(!Connector::Stripe.supports_access_token(method));
        assert!(!Connector::Esnekpos.supports_access_token(method));
        assert_eq!(
            Connector::Trustpay.supports_access_token(method),
            method == PaymentMethod::BankRedirect
        );
    }
    assert!(Connector::Trustpay.supports_access_token(PaymentMethod::BankRedirect));
    assert!(!Connector::Trustpay.supports_access_token(PaymentMethod::Card));
}

#[test]
fn access_token_support_is_defined_for_every_pair() {
    let always = [
        Connector::Airwallex,
        Connector::Globalpay,
        Connector::Paypal,
        Connector::Payu,
        Connector::Iatapay,
        Connector::Volt,
    ];
    for (connector, _) in all_connectors() {
        for method in all_payment_methods() {
            let expected = always.contains(&connector)
                || (connector == Connector::Trustpay && method == PaymentMethod::BankRedirect);
            assert_eq!(connector.supports_access_token(method), expected);
        }
    }
}

#[test]
fn file_storage_is_for_stripe_and_checkout_only() {
    for (connector, _) in all_connectors() {
        let expected = connector == Connector::Stripe || connector == Connector::Checkout;
        assert_eq!(connector.supports_file_storage_module(), expected);
    }
}

#[test]
fn dispute_defense_is_for_checkout_only() {
    for (connector, _) in all_connectors() {
        assert_eq!(connector.requires_defend_dispute(), connector == Connector::Checkout);
    }
}

#[test]
fn separate_authentication_is_for_checkout_and_nmi_only() {
    for (connector, _) in all_connectors() {
        let expected = connector == Connector::Checkout || connector == Connector::Nmi;
        assert_eq!(connector.is_separate_authentication_supported(), expected);
    }
    assert!(!Connector::Esnekpos.is_separate_authentication_supported());
    assert!(!Connector::DummyConnector1.is_separate_authentication_supported());
}

#[test]
fn capability_profiles_of_some_connectors() {
    assert_eq!(
        Connector::Checkout.capability_profile(),
        CapabilityProfile {
            access_token: AccessTokenSupport::Never,
            file_storage: true,
            defend_dispute: true,
            separate_authentication: true,
            test_double: false,
        }
    );
    assert_eq!(
        Connector::Trustpay.capability_profile(),
        CapabilityProfile {
            access_token: AccessTokenSupport::OnlyFor(PaymentMethod::BankRedirect),
            file_storage: false,
            defend_dispute: false,
            separate_authentication: false,
            test_double: false,
        }
    );
    assert_eq!(Connector::Aci.capability_profile(), CapabilityProfile::plain());
    assert_eq!(Connector::DummyConnector3.capability_profile(), CapabilityProfile::test_double());
    assert!(CapabilityProfile::test_double().test_double);
    assert!(!CapabilityProfile::plain().test_double);
}

#[test]
fn test_doubles_are_the_seven_dummy_connectors() {
    let mut count = 0;
    for (connector, _) in all_connectors() {
        if connector.is_dummy_connector() {
            count += 1;
        }
    }
    assert_eq!(count, 7);
    assert!(Connector::DummyConnector7.is_dummy_connector());
    assert!(!Connector::Paypal.is_dummy_connector());
}

#[test]
fn allow_list_switches_test_doubles() {
    let with = ConnectorAllowList { dummy_connector: true };
    let without = ConnectorAllowList { dummy_connector: false };
    assert!(with.is_admitted(Connector::DummyConnector1));
    assert!(!without.is_admitted(Connector::DummyConnector1));
    assert!(with.is_admitted(Connector::Stripe));
    assert!(without.is_admitted(Connector::Stripe));
    assert_eq!(with.parse("phonypay"), Ok(Connector::DummyConnector1));
    assert_eq!(without.parse("phonypay"), Err(ParseError::VariantNotFound));
    assert_eq!(with.parse("stripe"), Ok(Connector::Stripe));
    assert_eq!(without.parse("stripe"), Ok(Connector::Stripe));
    assert_eq!(with.parse("nope"), Err(ParseError::VariantNotFound));
    assert_eq!(without.parse("nope"), Err(ParseError::VariantNotFound));
}

#[test]
fn adyen_narrows_to_a_payout_connector() {
    assert_eq!(PayoutConnectors::try_from(Connector::Adyen), Ok(PayoutConnectors::Adyen));
    assert_eq!(PayoutConnectors::try_from(Connector::Wise), Ok(PayoutConnectors::Wise));
}

#[test]
fn stripe_does_not_narrow_to_a_payout_connector() {
    assert_eq!(
        PayoutConnectors::try_from(Connector::Stripe),
        Err("Invalid payout connector stripe".to_string())
    );
    assert_eq!(
        PayoutConnectors::try_from(Connector::DummyConnector5),
        Err("Invalid payout connector adyen_test".to_string())
    );
}

#[test]
fn narrowing_succeeds_exactly_on_members() {
    for (connector, name) in all_connectors() {
        let payout = PayoutConnectors::try_from(connector);
        let is_payout = connector == Connector::Adyen || connector == Connector::Wise;
        assert_eq!(payout.is_ok(), is_payout);
        if let Err(message) = payout {
            assert_eq!(message, format!("Invalid payout connector {}", name));
        }
        let authentication = AuthenticationConnectors::try_from(connector);
        let is_authentication =
            connector == Connector::Threedsecureio || connector == Connector::Netcetera;
        assert_eq!(authentication.is_ok(), is_authentication);
        if let Err(message) = authentication {
            assert_eq!(message, format!("Invalid authentication connector {}", name));
        }
        let frm = FrmConnectors::try_from(connector);
        let is_frm = connector == Connector::Signifyd || connector == Connector::Riskified;
        assert_eq!(frm.is_ok(), is_frm);
        if let Err(message) = frm {
            assert_eq!(message, format!("Invalid frm connector {}", name));
        }
        let pm_auth = PmAuthConnectors::try_from(connector);
        assert_eq!(pm_auth.is_ok(), connector == Connector::Plaid);
        if let Err(message) = pm_auth {
            assert_eq!(message, format!("Invalid pm auth connector {}", name));
        }
    }
}

#[test]
fn widening_then_narrowing_gives_the_member_back() {
    for member in [PayoutConnectors::Adyen, PayoutConnectors::Wise] {
        assert_eq!(PayoutConnectors::try_from(Connector::from(member)), Ok(member));
        assert_eq!(Connector::from(member).as_str(), member.as_str());
    }
    for member in [AuthenticationConnectors::Threedsecureio, AuthenticationConnectors::Netcetera] {
        assert_eq!(AuthenticationConnectors::try_from(Connector::from(member)), Ok(member));
        assert_eq!(Connector::from(member).as_str(), member.as_str());
    }
    for member in [FrmConnectors::Signifyd, FrmConnectors::Riskified] {
        assert_eq!(FrmConnectors::try_from(Connector::from(member)), Ok(member));
        assert_eq!(Connector::from(member).as_str(), member.as_str());
    }
    assert_eq!(PmAuthConnectors::try_from(Connector::from(PmAuthConnectors::Plaid)), Ok(PmAuthConnectors::Plaid));
    assert_eq!(Connector::from(PayoutConnectors::Adyen), Connector::Adyen);
    assert_eq!(Connector::from(PayoutConnectors::Wise), Connector::Wise);
    assert_eq!(Connector::from(FrmConnectors::Signifyd), Connector::Signifyd);
    assert_eq!(Connector::from(AuthenticationConnectors::Netcetera), Connector::Netcetera);
}

#[test]
fn payout_connectors_are_routable() {
    assert_eq!(RoutableConnectors::from(PayoutConnectors::Adyen), RoutableConnectors::Adyen);
    assert_eq!(RoutableConnectors::from(PayoutConnectors::Wise), RoutableConnectors::Wise);
}

#[test]
fn payout_connectors_keep_their_wire_names_when_routable() {
    for member in [PayoutConnectors::Adyen, PayoutConnectors::Wise] {
        assert_eq!(RoutableConnectors::from(member).as_str(), member.as_str());
        assert_eq!(RoutableConnectors::from_str(member.as_str()), Ok(RoutableConnectors::from(member)));
    }
}

#[test]
fn routable_connectors_have_the_wire_names_of_the_registry() {
    let mut routable = 0;
    for (connector, name) in all_connectors() {
        match RoutableConnectors::from_str(name) {
            Ok(found) => {
                routable += 1;
                assert_eq!(found.as_str(), name);
                assert_eq!(found.to_string(), connector.to_string());
            }
            Err(e) => {
                assert_eq!(e, ParseError::VariantNotFound);
                assert!([
                    Connector::Signifyd,
                    Connector::Riskified,
                    Connector::Plaid,
                    Connector::Threedsecureio,
                    Connector::Netcetera,
                ]
                .contains(&connector));
            }
        }
    }
    assert_eq!(routable, 59);
    assert_eq!(RoutableConnectors::Stripe.as_str(), "stripe");
    assert_eq!(RoutableConnectors::DummyConnector1.as_str(), "phonypay");
    assert_eq!(RoutableConnectors::from_str("plaid"), Err(ParseError::VariantNotFound));
    assert_eq!(RoutableConnectors::from_str("Stripe"), Err(ParseError::VariantNotFound));
}

#[test]
fn narrow_sets_have_wire_names() {
    assert_eq!(PayoutConnectors::Adyen.to_string(), "adyen");
    assert_eq!(PayoutConnectors::from_str("wise"), Ok(PayoutConnectors::Wise));
    assert_eq!(PayoutConnectors::from_str("stripe"), Err(ParseError::VariantNotFound));
    assert_eq!(AuthenticationConnectors::Threedsecureio.to_string(), "threedsecureio");
    assert_eq!(AuthenticationConnectors::from_str("netcetera"), Ok(AuthenticationConnectors::Netcetera));
    assert_eq!(FrmConnectors::Signifyd.as_str(), "signifyd");
    assert_eq!(FrmConnectors::from_str("riskified"), Ok(FrmConnectors::Riskified));
    assert_eq!(PmAuthConnectors::Plaid.as_str(), "plaid");
    assert_eq!(PmAuthConnectors::from_str("plaid"), Ok(PmAuthConnectors::Plaid));
    assert_eq!(PmAuthConnectors::from_str("Plaid"), Err(ParseError::VariantNotFound));
}

#[test]
fn convert_pm_auth_connector_knows_plaid_only() {
    assert_eq!(convert_pm_auth_connector("plaid"), Some(PmAuthConnectors::Plaid));
    assert_eq!(convert_pm_auth_connector("stripe"), None);
    assert_eq!(convert_pm_auth_connector(""), None);
    assert_eq!(convert_pm_auth_connector("PLAID"), None);
}

#[test]
fn convert_authentication_connector_knows_its_two() {
    assert_eq!(
        convert_authentication_connector("threedsecureio"),
        Some(AuthenticationConnectors::Threedsecureio)
    );
    assert_eq!(
        convert_authentication_connector("netcetera"),
        Some(AuthenticationConnectors::Netcetera)
    );
    assert_eq!(convert_authentication_connector("adyen"), None);
    assert_eq!(convert_authentication_connector(""), None);
}

#[test]
fn routing_algorithm_wire_names() {
    let all = [
        (RoutingAlgorithm::RoundRobin, "round_robin"),
        (RoutingAlgorithm::MaxConversion, "max_conversion"),
        (RoutingAlgorithm::MinCost, "min_cost"),
        (RoutingAlgorithm::Custom, "custom"),
    ];
    for (algorithm, name) in all {
        assert_eq!(algorithm.to_string(), name);
        assert_eq!(RoutingAlgorithm::from_str(name), Ok(algorithm));
    }
    assert_eq!(RoutingAlgorithm::from_str("RoundRobin"), Err(ParseError::VariantNotFound));
    assert_eq!(RoutingAlgorithm::default(), RoutingAlgorithm::Custom);
}

#[test]
fn payment_method_wire_names() {
    let names = [
        "card",
        "card_redirect",
        "pay_later",
        "wallet",
        "bank_redirect",
        "bank_transfer",
        "crypto",
        "bank_debit",
        "reward",
        "upi",
        "voucher",
        "gift_card",
    ];
    for (method, name) in all_payment_methods().into_iter().zip(names) {
        assert_eq!(method.as_str(), name);
        assert_eq!(PaymentMethod::from_str(name), Ok(method));
    }
    assert_eq!(PaymentMethod::from_str("cash"), Err(ParseError::VariantNotFound));
}

#[test]
fn frm_and_retry_wire_names() {
    assert_eq!(FrmAction::CancelTxn.to_string(), "cancel_txn");
    assert_eq!(FrmAction::AutoRefund.to_string(), "auto_refund");
    assert_eq!(FrmAction::ManualReview.to_string(), "manual_review");
    assert_eq!(FrmAction::from_str("auto_refund"), Ok(FrmAction::AutoRefund));
    assert_eq!(FrmAction::from_str("refund"), Err(ParseError::VariantNotFound));
    assert_eq!(FrmPreferredFlowTypes::Pre.to_string(), "pre");
    assert_eq!(FrmPreferredFlowTypes::Post.to_string(), "post");
    assert_eq!(FrmPreferredFlowTypes::from_str("post"), Ok(FrmPreferredFlowTypes::Post));
    assert_eq!(FrmPreferredFlowTypes::from_str(""), Err(ParseError::VariantNotFound));
    assert_eq!(RetryAction::ManualRetry.to_string(), "manual_retry");
    assert_eq!(RetryAction::Requeue.to_string(), "requeue");
    assert_eq!(RetryAction::from_str("requeue"), Ok(RetryAction::Requeue));
    assert_eq!(RetryAction::from_str("retry"), Err(ParseError::VariantNotFound));
}

#[test]
fn field_type_wire_names() {
    assert_eq!(FieldType::UserCardNumber.to_string(), "user_card_number");
    assert_eq!(FieldType::UserAddressLine1.to_string(), "user_address_line1");
    assert_eq!(FieldType::UserAddressLine2.to_string(), "user_address_line2");
    assert_eq!(FieldType::Text.to_string(), "text");
    assert_eq!(
        FieldType::DropDown { options: vec!["a".to_string(), "b".to_string()] }.to_string(),
        "drop_down"
    );
    assert_eq!(
        FieldType::UserCountry { options: vec!["NL".to_string()] }.as_str(),
        "user_country"
    );
}

#[test]
fn field_type_decodes_without_options() {
    assert_eq!(FieldType::from_str("user_bank"), Ok(FieldType::UserBank));
    assert_eq!(FieldType::from_str("user_blik_code"), Ok(FieldType::UserBlikCode));
    assert_eq!(FieldType::from_str("user_country"), Ok(FieldType::UserCountry { options: vec![] }));
    assert_eq!(FieldType::from_str("user_currency"), Ok(FieldType::UserCurrency { options: vec![] }));
    assert_eq!(
        FieldType::from_str("user_address_country"),
        Ok(FieldType::UserAddressCountry { options: vec![] })
    );
    assert_eq!(FieldType::from_str("drop_down"), Ok(FieldType::DropDown { options: vec![] }));
    assert_eq!(FieldType::from_str("dropdown"), Err(ParseError::VariantNotFound));
    assert_eq!(FieldType::from_str("user_address_line_1"), Err(ParseError::VariantNotFound));
}

#[test]
fn unresolved_response_reason_holds_code_and_message() {
    let reason = UnresolvedResponseReason { code: "E1".to_string(), message: "retry".to_string() };
    assert_eq!(reason.clone(), reason);
    assert_eq!(reason.code, "E1");
    assert_eq!(reason.message, "retry");
}
