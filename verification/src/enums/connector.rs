//! The closed registry of connectors: every connector the hub can route to,
//! its wire name, and what it is capable of.

use vstd::prelude::*;
use crate::enums::PaymentMethod;
use crate::enums::ParseError;
use crate::text::text_eq;

verus! {

/// A connector is an integration to fulfill payments.
///
/// The set is closed: adding a connector means adding a variant here, together
/// with its wire name and its capability profile.
#[derive(Clone, Copy, Debug, PartialEq, Eq, Structural, Hash)]
pub enum Connector {
    /// Test double, travelling as `phonypay`.
    DummyConnector1,
    /// Test double, travelling as `fauxpay`.
    DummyConnector2,
    /// Test double, travelling as `pretendpay`.
    DummyConnector3,
    /// Test double, travelling as `stripe_test`.
    DummyConnector4,
    /// Test double, travelling as `adyen_test`.
    DummyConnector5,
    /// Test double, travelling as `checkout_test`.
    DummyConnector6,
    /// Test double, travelling as `paypal_test`.
    DummyConnector7,
    Aci,
    Adyen,
    Airwallex,
    Authorizedotnet,
    Bambora,
    Bankofamerica,
    Billwerk,
    Bitpay,
    Bluesnap,
    Boku,
    Braintree,
    Cashtocode,
    Checkout,
    Coinbase,
    Cryptopay,
    Cybersource,
    Dlocal,
    Esnekpos,
    Fiserv,
    Forte,
    Globalpay,
    Globepay,
    Gocardless,
    Helcim,
    Iatapay,
    Klarna,
    Mollie,
    Multisafepay,
    Netcetera,
    Nexinets,
    Nmi,
    Noon,
    Nuvei,
    Opennode,
    Payme,
    Paypal,
    Payu,
    Placetopay,
    Powertranz,
    Prophetpay,
    Rapyd,
    Shift4,
    Square,
    Stax,
    Stripe,
    Threedsecureio,
    Trustpay,
    Tsys,
    Volt,
    Wise,
    Worldline,
    Worldpay,
    Signifyd,
    Plaid,
    Riskified,
    Zen,
    Zsl,
}

impl Connector {
    /// The name under which the connector travels on the wire.
    pub open spec fn wire_name(self) -> Seq<char> {
        match self {
            Connector::DummyConnector1 => "phonypay"@,
            Connector::DummyConnector2 => "fauxpay"@,
            Connector::DummyConnector3 => "pretendpay"@,
            Connector::DummyConnector4 => "stripe_test"@,
            Connector::DummyConnector5 => "adyen_test"@,
            Connector::DummyConnector6 => "checkout_test"@,
            Connector::DummyConnector7 => "paypal_test"@,
            Connector::Aci => "aci"@,
            Connector::Adyen => "adyen"@,
            Connector::Airwallex => "airwallex"@,
            Connector::Authorizedotnet => "authorizedotnet"@,
            Connector::Bambora => "bambora"@,
            Connector::Bankofamerica => "bankofamerica"@,
            Connector::Billwerk => "billwerk"@,
            Connector::Bitpay => "bitpay"@,
            Connector::Bluesnap => "bluesnap"@,
            Connector::Boku => "boku"@,
            Connector::Braintree => "braintree"@,
            Connector::Cashtocode => "cashtocode"@,
            Connector::Checkout => "checkout"@,
            Connector::Coinbase => "coinbase"@,
            Connector::Cryptopay => "cryptopay"@,
            Connector::Cybersource => "cybersource"@,
            Connector::Dlocal => "dlocal"@,
            Connector::Esnekpos => "esnekpos"@,
            Connector::Fiserv => "fiserv"@,
            Connector::Forte => "forte"@,
            Connector::Globalpay => "globalpay"@,
            Connector::Globepay => "globepay"@,
            Connector::Gocardless => "gocardless"@,
            Connector::Helcim => "helcim"@,
            Connector::Iatapay => "iatapay"@,
            Connector::Klarna => "klarna"@,
            Connector::Mollie => "mollie"@,
            Connector::Multisafepay => "multisafepay"@,
            Connector::Netcetera => "netcetera"@,
            Connector::Nexinets => "nexinets"@,
            Connector::Nmi => "nmi"@,
            Connector::Noon => "noon"@,
            Connector::Nuvei => "nuvei"@,
            Connector::Opennode => "opennode"@,
            Connector::Payme => "payme"@,
            Connector::Paypal => "paypal"@,
            Connector::Payu => "payu"@,
            Connector::Placetopay => "placetopay"@,
            Connector::Powertranz => "powertranz"@,
            Connector::Prophetpay => "prophetpay"@,
            Connector::Rapyd => "rapyd"@,
            Connector::Shift4 => "shift4"@,
            Connector::Square => "square"@,
            Connector::Stax => "stax"@,
            Connector::Stripe => "stripe"@,
            Connector::Threedsecureio => "threedsecureio"@,
            Connector::Trustpay => "trustpay"@,
            Connector::Tsys => "tsys"@,
            Connector::Volt => "volt"@,
            Connector::Wise => "wise"@,
            Connector::Worldline => "worldline"@,
            Connector::Worldpay => "worldpay"@,
            Connector::Signifyd => "signifyd"@,
            Connector::Plaid => "plaid"@,
            Connector::Riskified => "riskified"@,
            Connector::Zen => "zen"@,
            Connector::Zsl => "zsl"@,
        }
    }

    /// The connector that travels under the name `s`, if there is one.
    pub open spec fn named(s: Seq<char>) -> Option<Self> {
        if exists|v: Connector| v.wire_name() == s {
            Some(choose|v: Connector| v.wire_name() == s)
        } else {
            None
        }
    }

    /// The wire name as a static string slice.
    pub fn as_str(&self) -> (name: &'static str)
        ensures
            name@ == self.wire_name(),
    {
        match self {
            Connector::DummyConnector1 => "phonypay",
            Connector::DummyConnector2 => "fauxpay",
            Connector::DummyConnector3 => "pretendpay",
            Connector::DummyConnector4 => "stripe_test",
            Connector::DummyConnector5 => "adyen_test",
            Connector::DummyConnector6 => "checkout_test",
            Connector::DummyConnector7 => "paypal_test",
            Connector::Aci => "aci",
            Connector::Adyen => "adyen",
            Connector::Airwallex => "airwallex",
            Connector::Authorizedotnet => "authorizedotnet",
            Connector::Bambora => "bambora",
            Connector::Bankofamerica => "bankofamerica",
            Connector::Billwerk => "billwerk",
            Connector::Bitpay => "bitpay",
            Connector::Bluesnap => "bluesnap",
            Connector::Boku => "boku",
            Connector::Braintree => "braintree",
            Connector::Cashtocode => "cashtocode",
            Connector::Checkout => "checkout",
            Connector::Coinbase => "coinbase",
            Connector::Cryptopay => "cryptopay",
            Connector::Cybersource => "cybersource",
            Connector::Dlocal => "dlocal",
            Connector::Esnekpos => "esnekpos",
            Connector::Fiserv => "fiserv",
            Connector::Forte => "forte",
            Connector::Globalpay => "globalpay",
            Connector::Globepay => "globepay",
            Connector::Gocardless => "gocardless",
            Connector::Helcim => "helcim",
            Connector::Iatapay => "iatapay",
            Connector::Klarna => "klarna",
            Connector::Mollie => "mollie",
            Connector::Multisafepay => "multisafepay",
            Connector::Netcetera => "netcetera",
            Connector::Nexinets => "nexinets",
            Connector::Nmi => "nmi",
            Connector::Noon => "noon",
            Connector::Nuvei => "nuvei",
            Connector::Opennode => "opennode",
            Connector::Payme => "payme",
            Connector::Paypal => "paypal",
            Connector::Payu => "payu",
            Connector::Placetopay => "placetopay",
            Connector::Powertranz => "powertranz",
            Connector::Prophetpay => "prophetpay",
            Connector::Rapyd => "rapyd",
            Connector::Shift4 => "shift4",
            Connector::Square => "square",
            Connector::Stax => "stax",
            Connector::Stripe => "stripe",
            Connector::Threedsecureio => "threedsecureio",
            Connector::Trustpay => "trustpay",
            Connector::Tsys => "tsys",
            Connector::Volt => "volt",
            Connector::Wise => "wise",
            Connector::Worldline => "worldline",
            Connector::Worldpay => "worldpay",
            Connector::Signifyd => "signifyd",
            Connector::Plaid => "plaid",
            Connector::Riskified => "riskified",
            Connector::Zen => "zen",
            Connector::Zsl => "zsl",
        }
    }

    /// The wire name as an owned string.
    pub fn to_string(&self) -> (name: String)
        ensures
            name@ == self.wire_name(),
    {
        self.as_str().to_owned()
    }

    /// Decodes a wire name. Succeeds exactly on the wire names of the
    /// variants; matching is exact and case-sensitive.
    pub fn from_str(s: &str) -> (decoded: Result<Self, ParseError>)
        ensures
            decoded == match Self::named(s@) {
                Some(v) => Ok::<Self, ParseError>(v),
                None => Err::<Self, ParseError>(ParseError::VariantNotFound),
            },
    {
        if text_eq(s, "phonypay") {
            proof {
                Self::lemma_named(Connector::DummyConnector1, s@);
            }
            Ok(Connector::DummyConnector1)
        } else if text_eq(s, "fauxpay") {
            proof {
                Self::lemma_named(Connector::DummyConnector2, s@);
            }
            Ok(Connector::DummyConnector2)
        } else if text_eq(s, "pretendpay") {
            proof {
                Self::lemma_named(Connector::DummyConnector3, s@);
            }
            Ok(Connector::DummyConnector3)
        } else if text_eq(s, "stripe_test") {
            proof {
                Self::lemma_named(Connector::DummyConnector4, s@);
            }
            Ok(Connector::DummyConnector4)
        } else if text_eq(s, "adyen_test") {
            proof {
                Self::lemma_named(Connector::DummyConnector5, s@);
            }
            Ok(Connector::DummyConnector5)
        } else if text_eq(s, "checkout_test") {
            proof {
                Self::lemma_named(Connector::DummyConnector6, s@);
            }
            Ok(Connector::DummyConnector6)
        } else if text_eq(s, "paypal_test") {
            proof {
                Self::lemma_named(Connector::DummyConnector7, s@);
            }
            Ok(Connector::DummyConnector7)
        } else if text_eq(s, "aci") {
            proof {
                Self::lemma_named(Connector::Aci, s@);
            }
            Ok(Connector::Aci)
        } else if text_eq(s, "adyen") {
            proof {
                Self::lemma_named(Connector::Adyen, s@);
            }
            Ok(Connector::Adyen)
        } else if text_eq(s, "airwallex") {
            proof {
                Self::lemma_named(Connector::Airwallex, s@);
            }
            Ok(Connector::Airwallex)
        } else if text_eq(s, "authorizedotnet") {
            proof {
                Self::lemma_named(Connector::Authorizedotnet, s@);
            }
            Ok(Connector::Authorizedotnet)
        } else if text_eq(s, "bambora") {
            proof {
                Self::lemma_named(Connector::Bambora, s@);
            }
            Ok(Connector::Bambora)
        } else if text_eq(s, "bankofamerica") {
            proof {
                Self::lemma_named(Connector::Bankofamerica, s@);
            }
            Ok(Connector::Bankofamerica)
        } else if text_eq(s, "billwerk") {
            proof {
                Self::lemma_named(Connector::Billwerk, s@);
            }
            Ok(Connector::Billwerk)
        } else if text_eq(s, "bitpay") {
            proof {
                Self::lemma_named(Connector::Bitpay, s@);
            }
            Ok(Connector::Bitpay)
        } else if text_eq(s, "bluesnap") {
            proof {
                Self::lemma_named(Connector::Bluesnap, s@);
            }
            Ok(Connector::Bluesnap)
        } else if text_eq(s, "boku") {
            proof {
                Self::lemma_named(Connector::Boku, s@);
            }
            Ok(Connector::Boku)
        } else if text_eq(s, "braintree") {
            proof {
                Self::lemma_named(Connector::Braintree, s@);
            }
            Ok(Connector::Braintree)
        } else if text_eq(s, "cashtocode") {
            proof {
                Self::lemma_named(Connector::Cashtocode, s@);
            }
            Ok(Connector::Cashtocode)
        } else if text_eq(s, "checkout") {
            proof {
                Self::lemma_named(Connector::Checkout, s@);
            }
            Ok(Connector::Checkout)
        } else if text_eq(s, "coinbase") {
            proof {
                Self::lemma_named(Connector::Coinbase, s@);
            }
            Ok(Connector::Coinbase)
        } else if text_eq(s, "cryptopay") {
            proof {
                Self::lemma_named(Connector::Cryptopay, s@);
            }
            Ok(Connector::Cryptopay)
        } else if text_eq(s, "cybersource") {
            proof {
                Self::lemma_named(Connector::Cybersource, s@);
            }
            Ok(Connector::Cybersource)
        } else if text_eq(s, "dlocal") {
            proof {
                Self::lemma_named(Connector::Dlocal, s@);
            }
            Ok(Connector::Dlocal)
        } else if text_eq(s, "esnekpos") {
            proof {
                Self::lemma_named(Connector::Esnekpos, s@);
            }
            Ok(Connector::Esnekpos)
        } else if text_eq(s, "fiserv") {
            proof {
                Self::lemma_named(Connector::Fiserv, s@);
            }
            Ok(Connector::Fiserv)
        } else if text_eq(s, "forte") {
            proof {
                Self::lemma_named(Connector::Forte, s@);
            }
            Ok(Connector::Forte)
        } else if text_eq(s, "globalpay") {
            proof {
                Self::lemma_named(Connector::Globalpay, s@);
            }
            Ok(Connector::Globalpay)
        } else if text_eq(s, "globepay") {
            proof {
                Self::lemma_named(Connector::Globepay, s@);
            }
            Ok(Connector::Globepay)
        } else if text_eq(s, "gocardless") {
            proof {
                Self::lemma_named(Connector::Gocardless, s@);
            }
            Ok(Connector::Gocardless)
        } else if text_eq(s, "helcim") {
            proof {
                Self::lemma_named(Connector::Helcim, s@);
            }
            Ok(Connector::Helcim)
        } else if text_eq(s, "iatapay") {
            proof {
                Self::lemma_named(Connector::Iatapay, s@);
            }
            Ok(Connector::Iatapay)
        } else if text_eq(s, "klarna") {
            proof {
                Self::lemma_named(Connector::Klarna, s@);
            }
            Ok(Connector::Klarna)
        } else if text_eq(s, "mollie") {
            proof {
                Self::lemma_named(Connector::Mollie, s@);
            }
            Ok(Connector::Mollie)
        } else if text_eq(s, "multisafepay") {
            proof {
                Self::lemma_named(Connector::Multisafepay, s@);
            }
            Ok(Connector::Multisafepay)
        } else if text_eq(s, "netcetera") {
            proof {
                Self::lemma_named(Connector::Netcetera, s@);
            }
            Ok(Connector::Netcetera)
        } else if text_eq(s, "nexinets") {
            proof {
                Self::lemma_named(Connector::Nexinets, s@);
            }
            Ok(Connector::Nexinets)
        } else if text_eq(s, "nmi") {
            proof {
                Self::lemma_named(Connector::Nmi, s@);
            }
            Ok(Connector::Nmi)
        } else if text_eq(s, "noon") {
            proof {
                Self::lemma_named(Connector::Noon, s@);
            }
            Ok(Connector::Noon)
        } else if text_eq(s, "nuvei") {
            proof {
                Self::lemma_named(Connector::Nuvei, s@);
            }
            Ok(Connector::Nuvei)
        } else if text_eq(s, "opennode") {
            proof {
                Self::lemma_named(Connector::Opennode, s@);
            }
            Ok(Connector::Opennode)
        } else if text_eq(s, "payme") {
            proof {
                Self::lemma_named(Connector::Payme, s@);
            }
            Ok(Connector::Payme)
        } else if text_eq(s, "paypal") {
            proof {
                Self::lemma_named(Connector::Paypal, s@);
            }
            Ok(Connector::Paypal)
        } else if text_eq(s, "payu") {
            proof {
                Self::lemma_named(Connector::Payu, s@);
            }
            Ok(Connector::Payu)
        } else if text_eq(s, "placetopay") {
            proof {
                Self::lemma_named(Connector::Placetopay, s@);
            }
            Ok(Connector::Placetopay)
        } else if text_eq(s, "powertranz") {
            proof {
                Self::lemma_named(Connector::Powertranz, s@);
            }
            Ok(Connector::Powertranz)
        } else if text_eq(s, "prophetpay") {
            proof {
                Self::lemma_named(Connector::Prophetpay, s@);
            }
            Ok(Connector::Prophetpay)
        } else if text_eq(s, "rapyd") {
            proof {
                Self::lemma_named(Connector::Rapyd, s@);
            }
            Ok(Connector::Rapyd)
        } else if text_eq(s, "shift4") {
            proof {
                Self::lemma_named(Connector::Shift4, s@);
            }
            Ok(Connector::Shift4)
        } else if text_eq(s, "square") {
            proof {
                Self::lemma_named(Connector::Square, s@);
            }
            Ok(Connector::Square)
        } else if text_eq(s, "stax") {
            proof {
                Self::lemma_named(Connector::Stax, s@);
            }
            Ok(Connector::Stax)
        } else if text_eq(s, "stripe") {
            proof {
                Self::lemma_named(Connector::Stripe, s@);
            }
            Ok(Connector::Stripe)
        } else if text_eq(s, "threedsecureio") {
            proof {
                Self::lemma_named(Connector::Threedsecureio, s@);
            }
            Ok(Connector::Threedsecureio)
        } else if text_eq(s, "trustpay") {
            proof {
                Self::lemma_named(Connector::Trustpay, s@);
            }
            Ok(Connector::Trustpay)
        } else if text_eq(s, "tsys") {
            proof {
                Self::lemma_named(Connector::Tsys, s@);
            }
            Ok(Connector::Tsys)
        } else if text_eq(s, "volt") {
            proof {
                Self::lemma_named(Connector::Volt, s@);
            }
            Ok(Connector::Volt)
        } else if text_eq(s, "wise") {
            proof {
                Self::lemma_named(Connector::Wise, s@);
            }
            Ok(Connector::Wise)
        } else if text_eq(s, "worldline") {
            proof {
                Self::lemma_named(Connector::Worldline, s@);
            }
            Ok(Connector::Worldline)
        } else if text_eq(s, "worldpay") {
            proof {
                Self::lemma_named(Connector::Worldpay, s@);
            }
            Ok(Connector::Worldpay)
        } else if text_eq(s, "signifyd") {
            proof {
                Self::lemma_named(Connector::Signifyd, s@);
            }
            Ok(Connector::Signifyd)
        } else if text_eq(s, "plaid") {
            proof {
                Self::lemma_named(Connector::Plaid, s@);
            }
            Ok(Connector::Plaid)
        } else if text_eq(s, "riskified") {
            proof {
                Self::lemma_named(Connector::Riskified, s@);
            }
            Ok(Connector::Riskified)
        } else if text_eq(s, "zen") {
            proof {
                Self::lemma_named(Connector::Zen, s@);
            }
            Ok(Connector::Zen)
        } else if text_eq(s, "zsl") {
            proof {
                Self::lemma_named(Connector::Zsl, s@);
            }
            Ok(Connector::Zsl)
        } else {
            assert forall|v: Connector| v.wire_name() != s@ by {
                match v {
                    Connector::DummyConnector1 => {},
                    Connector::DummyConnector2 => {},
                    Connector::DummyConnector3 => {},
                    Connector::DummyConnector4 => {},
                    Connector::DummyConnector5 => {},
                    Connector::DummyConnector6 => {},
                    Connector::DummyConnector7 => {},
                    Connector::Aci => {},
                    Connector::Adyen => {},
                    Connector::Airwallex => {},
                    Connector::Authorizedotnet => {},
                    Connector::Bambora => {},
                    Connector::Bankofamerica => {},
                    Connector::Billwerk => {},
                    Connector::Bitpay => {},
                    Connector::Bluesnap => {},
                    Connector::Boku => {},
                    Connector::Braintree => {},
                    Connector::Cashtocode => {},
                    Connector::Checkout => {},
                    Connector::Coinbase => {},
                    Connector::Cryptopay => {},
                    Connector::Cybersource => {},
                    Connector::Dlocal => {},
                    Connector::Esnekpos => {},
                    Connector::Fiserv => {},
                    Connector::Forte => {},
                    Connector::Globalpay => {},
                    Connector::Globepay => {},
                    Connector::Gocardless => {},
                    Connector::Helcim => {},
                    Connector::Iatapay => {},
                    Connector::Klarna => {},
                    Connector::Mollie => {},
                    Connector::Multisafepay => {},
                    Connector::Netcetera => {},
                    Connector::Nexinets => {},
                    Connector::Nmi => {},
                    Connector::Noon => {},
                    Connector::Nuvei => {},
                    Connector::Opennode => {},
                    Connector::Payme => {},
                    Connector::Paypal => {},
                    Connector::Payu => {},
                    Connector::Placetopay => {},
                    Connector::Powertranz => {},
                    Connector::Prophetpay => {},
                    Connector::Rapyd => {},
                    Connector::Shift4 => {},
                    Connector::Square => {},
                    Connector::Stax => {},
                    Connector::Stripe => {},
                    Connector::Threedsecureio => {},
                    Connector::Trustpay => {},
                    Connector::Tsys => {},
                    Connector::Volt => {},
                    Connector::Wise => {},
                    Connector::Worldline => {},
                    Connector::Worldpay => {},
                    Connector::Signifyd => {},
                    Connector::Plaid => {},
                    Connector::Riskified => {},
                    Connector::Zen => {},
                    Connector::Zsl => {},
                }
            }
            Err(ParseError::VariantNotFound)
        }
    }

    /// No two variants share a wire name.
    pub proof fn lemma_wire_names_distinct(a: Self, b: Self)
        requires
            a.wire_name() == b.wire_name(),
        ensures
            a == b,
    {
        reveal_strlit("phonypay");
        reveal_strlit("fauxpay");
        reveal_strlit("pretendpay");
        reveal_strlit("stripe_test");
        reveal_strlit("adyen_test");
        reveal_strlit("checkout_test");
        reveal_strlit("paypal_test");
        reveal_strlit("aci");
        reveal_strlit("adyen");
        reveal_strlit("airwallex");
        reveal_strlit("authorizedotnet");
        reveal_strlit("bambora");
        reveal_strlit("bankofamerica");
        reveal_strlit("billwerk");
        reveal_strlit("bitpay");
        reveal_strlit("bluesnap");
        reveal_strlit("boku");
        reveal_strlit("braintree");
        reveal_strlit("cashtocode");
        reveal_strlit("checkout");
        reveal_strlit("coinbase");
        reveal_strlit("cryptopay");
        reveal_strlit("cybersource");
        reveal_strlit("dlocal");
        reveal_strlit("esnekpos");
        reveal_strlit("fiserv");
        reveal_strlit("forte");
        reveal_strlit("globalpay");
        reveal_strlit("globepay");
        reveal_strlit("gocardless");
        reveal_strlit("helcim");
        reveal_strlit("iatapay");
        reveal_strlit("klarna");
        reveal_strlit("mollie");
        reveal_strlit("multisafepay");
        reveal_strlit("netcetera");
        reveal_strlit("nexinets");
        reveal_strlit("nmi");
        reveal_strlit("noon");
        reveal_strlit("nuvei");
        reveal_strlit("opennode");
        reveal_strlit("payme");
        reveal_strlit("paypal");
        reveal_strlit("payu");
        reveal_strlit("placetopay");
        reveal_strlit("powertranz");
        reveal_strlit("prophetpay");
        reveal_strlit("rapyd");
        reveal_strlit("shift4");
        reveal_strlit("square");
        reveal_strlit("stax");
        reveal_strlit("stripe");
        reveal_strlit("threedsecureio");
        reveal_strlit("trustpay");
        reveal_strlit("tsys");
        reveal_strlit("volt");
        reveal_strlit("wise");
        reveal_strlit("worldline");
        reveal_strlit("worldpay");
        reveal_strlit("signifyd");
        reveal_strlit("plaid");
        reveal_strlit("riskified");
        reveal_strlit("zen");
        reveal_strlit("zsl");
        assert("phonypay"@.len() == 8 && "phonypay"@[0] == 'p' && "phonypay"@[1] == 'h');
        assert("fauxpay"@.len() == 7 && "fauxpay"@[0] == 'f');
        assert("pretendpay"@.len() == 10 && "pretendpay"@[2] == 'e');
        assert("stripe_test"@.len() == 11 && "stripe_test"@[0] == 's');
        assert("adyen_test"@.len() == 10 && "adyen_test"@[2] == 'y');
        assert("checkout_test"@.len() == 13 && "checkout_test"@[0] == 'c');
        assert("paypal_test"@.len() == 11 && "paypal_test"@[0] == 'p');
        assert("aci"@.len() == 3 && "aci"@[1] == 'c');
        assert("adyen"@.len() == 5 && "adyen"@[0] == 'a' && "adyen"@[1] == 'd');
        assert("airwallex"@.len() == 9 && "airwallex"@[0] == 'a');
        assert("authorizedotnet"@.len() == 15);
        assert("bambora"@.len() == 7 && "bambora"@[0] == 'b');
        assert("bankofamerica"@.len() == 13 && "bankofamerica"@[0] == 'b');
        assert("billwerk"@.len() == 8 && "billwerk"@[0] == 'b' && "billwerk"@[1] == 'i');
        assert("bitpay"@.len() == 6 && "bitpay"@[0] == 'b' && "bitpay"@[2] == 't');
        assert("bluesnap"@.len() == 8 && "bluesnap"@[0] == 'b' && "bluesnap"@[1] == 'l');
        assert("boku"@.len() == 4 && "boku"@[0] == 'b');
        assert("braintree"@.len() == 9 && "braintree"@[0] == 'b');
        assert("cashtocode"@.len() == 10 && "cashtocode"@[2] == 's');
        assert("checkout"@.len() == 8 && "checkout"@[0] == 'c' && "checkout"@[1] == 'h');
        assert("coinbase"@.len() == 8 && "coinbase"@[0] == 'c' && "coinbase"@[1] == 'o');
        assert("cryptopay"@.len() == 9 && "cryptopay"@[0] == 'c');
        assert("cybersource"@.len() == 11 && "cybersource"@[0] == 'c');
        assert("dlocal"@.len() == 6 && "dlocal"@[0] == 'd' && "dlocal"@[2] == 'o');
        assert("esnekpos"@.len() == 8 && "esnekpos"@[0] == 'e' && "esnekpos"@[1] == 's');
        assert("fiserv"@.len() == 6 && "fiserv"@[0] == 'f' && "fiserv"@[2] == 's');
        assert("forte"@.len() == 5 && "forte"@[0] == 'f' && "forte"@[1] == 'o');
        assert("globalpay"@.len() == 9 && "globalpay"@[0] == 'g');
        assert("globepay"@.len() == 8 && "globepay"@[0] == 'g' && "globepay"@[1] == 'l');
        assert("gocardless"@.len() == 10 && "gocardless"@[2] == 'c');
        assert("helcim"@.len() == 6 && "helcim"@[0] == 'h' && "helcim"@[2] == 'l');
        assert("iatapay"@.len() == 7 && "iatapay"@[0] == 'i');
        assert("klarna"@.len() == 6 && "klarna"@[0] == 'k' && "klarna"@[2] == 'a');
        assert("mollie"@.len() == 6 && "mollie"@[0] == 'm' && "mollie"@[2] == 'l');
        assert("multisafepay"@.len() == 12);
        assert("netcetera"@.len() == 9 && "netcetera"@[0] == 'n');
        assert("nexinets"@.len() == 8 && "nexinets"@[0] == 'n' && "nexinets"@[1] == 'e');
        assert("nmi"@.len() == 3 && "nmi"@[1] == 'm');
        assert("noon"@.len() == 4 && "noon"@[0] == 'n');
        assert("nuvei"@.len() == 5 && "nuvei"@[0] == 'n' && "nuvei"@[1] == 'u');
        assert("opennode"@.len() == 8 && "opennode"@[0] == 'o' && "opennode"@[1] == 'p');
        assert("payme"@.len() == 5 && "payme"@[0] == 'p' && "payme"@[1] == 'a');
        assert("paypal"@.len() == 6 && "paypal"@[0] == 'p' && "paypal"@[2] == 'y');
        assert("payu"@.len() == 4 && "payu"@[0] == 'p');
        assert("placetopay"@.len() == 10 && "placetopay"@[2] == 'a');
        assert("powertranz"@.len() == 10 && "powertranz"@[2] == 'w');
        assert("prophetpay"@.len() == 10 && "prophetpay"@[2] == 'o');
        assert("rapyd"@.len() == 5 && "rapyd"@[0] == 'r' && "rapyd"@[1] == 'a');
        assert("shift4"@.len() == 6 && "shift4"@[0] == 's' && "shift4"@[2] == 'i');
        assert("square"@.len() == 6 && "square"@[0] == 's' && "square"@[2] == 'u');
        assert("stax"@.len() == 4 && "stax"@[0] == 's');
        assert("stripe"@.len() == 6 && "stripe"@[0] == 's' && "stripe"@[2] == 'r');
        assert("threedsecureio"@.len() == 14);
        assert("trustpay"@.len() == 8 && "trustpay"@[0] == 't' && "trustpay"@[1] == 'r');
        assert("tsys"@.len() == 4 && "tsys"@[0] == 't');
        assert("volt"@.len() == 4 && "volt"@[0] == 'v');
        assert("wise"@.len() == 4 && "wise"@[0] == 'w');
        assert("worldline"@.len() == 9 && "worldline"@[0] == 'w');
        assert("worldpay"@.len() == 8 && "worldpay"@[0] == 'w' && "worldpay"@[1] == 'o');
        assert("signifyd"@.len() == 8 && "signifyd"@[0] == 's' && "signifyd"@[1] == 'i');
        assert("plaid"@.len() == 5 && "plaid"@[0] == 'p' && "plaid"@[1] == 'l');
        assert("riskified"@.len() == 9 && "riskified"@[0] == 'r');
        assert("zen"@.len() == 3 && "zen"@[1] == 'e');
        assert("zsl"@.len() == 3 && "zsl"@[1] == 's');
    }

    /// A variant is the one that travels under its own wire name.
    pub proof fn lemma_named(v: Self, s: Seq<char>)
        requires
            v.wire_name() == s,
        ensures
            Self::named(s) == Some(v),
    {
        let w = choose|w: Connector| w.wire_name() == s;
        Self::lemma_wire_names_distinct(w, v);
    }

    /// Encoding a variant to its wire name and decoding that name gives the
    /// variant back, and a name decodes to a variant only if it is that
    /// variant's wire name.
    pub proof fn lemma_wire_name_round_trip(v: Self, s: Seq<char>)
        ensures
            Self::named(v.wire_name()) == Some(v),
            Self::named(s) == Some(v) ==> s == v.wire_name(),
    {
        Self::lemma_named(v, v.wire_name());
    }
}

/// Whether a connector can acquire an access token ahead of a payment.
#[derive(Clone, Copy, Debug, PartialEq, Eq, Structural)]
pub enum AccessTokenSupport {
    /// No access token is ever acquired.
    Never,
    /// An access token can be acquired for every payment method.
    Always,
    /// An access token can be acquired for this payment method only.
    OnlyFor(PaymentMethod),
}

/// What one connector is capable of. Every connector has exactly one
/// profile, so every capability question has an answer for every connector.
#[derive(Clone, Copy, Debug, PartialEq, Eq, Structural)]
pub struct CapabilityProfile {
    /// Acquisition of an access token ahead of a payment.
    pub access_token: AccessTokenSupport,
    /// Storage of files such as dispute evidence.
    pub file_storage: bool,
    /// Disputes have to be defended actively.
    pub defend_dispute: bool,
    /// Authentication runs as a separate step ahead of authorization.
    pub separate_authentication: bool,
    /// The connector is a test double rather than a real processor.
    pub test_double: bool,
}

impl CapabilityProfile {
    /// The profile of a real processor with no optional capability.
    pub fn plain() -> (p: Self)
        ensures
            p == (CapabilityProfile {
                access_token: AccessTokenSupport::Never,
                file_storage: false,
                defend_dispute: false,
                separate_authentication: false,
                test_double: false,
            }),
    {
        CapabilityProfile {
            access_token: AccessTokenSupport::Never,
            file_storage: false,
            defend_dispute: false,
            separate_authentication: false,
            test_double: false,
        }
    }

    /// The profile of a test double.
    pub fn test_double() -> (p: Self)
        ensures
            p == (CapabilityProfile { test_double: true, ..Self::plain_spec() }),
    {
        CapabilityProfile { test_double: true, ..Self::plain() }
    }

    /// The value that [`CapabilityProfile::plain`] returns.
    pub open spec fn plain_spec() -> Self {
        CapabilityProfile {
            access_token: AccessTokenSupport::Never,
            file_storage: false,
            defend_dispute: false,
            separate_authentication: false,
            test_double: false,
        }
    }
}

impl Connector {
    /// The connectors that acquire an access token for every payment method.
    pub open spec fn always_takes_access_token(self) -> bool {
        self is Airwallex || self is Globalpay || self is Paypal || self is Payu
            || self is Iatapay || self is Volt
    }

    /// Whether the connector acquires an access token for `payment_method`.
    pub open spec fn takes_access_token(self, payment_method: PaymentMethod) -> bool {
        self.always_takes_access_token() || (self is Trustpay
            && payment_method is BankRedirect)
    }

    /// Whether the connector stores files.
    pub open spec fn stores_files(self) -> bool {
        self is Stripe || self is Checkout
    }

    /// Whether disputes raised at the connector must be defended.
    pub open spec fn defends_disputes(self) -> bool {
        self is Checkout
    }

    /// Whether the connector authenticates in a step of its own.
    pub open spec fn authenticates_separately(self) -> bool {
        self is Checkout || self is Nmi
    }

    /// Whether the connector is a test double.
    pub open spec fn is_test_double(self) -> bool {
        self is DummyConnector1 || self is DummyConnector2 || self is DummyConnector3
            || self is DummyConnector4 || self is DummyConnector5 || self is DummyConnector6
            || self is DummyConnector7
    }

    /// The capability profile of the connector, one table row per variant.
    pub fn capability_profile(&self) -> (p: CapabilityProfile)
        ensures
            p.access_token == (if self.always_takes_access_token() {
                AccessTokenSupport::Always
            } else if *self is Trustpay {
                AccessTokenSupport::OnlyFor(PaymentMethod::BankRedirect)
            } else {
                AccessTokenSupport::Never
            }),
            p.file_storage == self.stores_files(),
            p.defend_dispute == self.defends_disputes(),
            p.separate_authentication == self.authenticates_separately(),
            p.test_double == self.is_test_double(),
    {
        match self {
            Connector::DummyConnector1 => CapabilityProfile::test_double(),
            Connector::DummyConnector2 => CapabilityProfile::test_double(),
            Connector::DummyConnector3 => CapabilityProfile::test_double(),
            Connector::DummyConnector4 => CapabilityProfile::test_double(),
            Connector::DummyConnector5 => CapabilityProfile::test_double(),
            Connector::DummyConnector6 => CapabilityProfile::test_double(),
            Connector::DummyConnector7 => CapabilityProfile::test_double(),
            Connector::Aci => CapabilityProfile::plain(),
            Connector::Adyen => CapabilityProfile::plain(),
            Connector::Airwallex => CapabilityProfile {
                access_token: AccessTokenSupport::Always,
                ..CapabilityProfile::plain()
            },
            Connector::Authorizedotnet => CapabilityProfile::plain(),
            Connector::Bambora => CapabilityProfile::plain(),
            Connector::Bankofamerica => CapabilityProfile::plain(),
            Connector::Billwerk => CapabilityProfile::plain(),
            Connector::Bitpay => CapabilityProfile::plain(),
            Connector::Bluesnap => CapabilityProfile::plain(),
            Connector::Boku => CapabilityProfile::plain(),
            Connector::Braintree => CapabilityProfile::plain(),
            Connector::Cashtocode => CapabilityProfile::plain(),
            Connector::Checkout => CapabilityProfile {
                file_storage: true,
                defend_dispute: true,
                separate_authentication: true,
                ..CapabilityProfile::plain()
            },
            Connector::Coinbase => CapabilityProfile::plain(),
            Connector::Cryptopay => CapabilityProfile::plain(),
            Connector::Cybersource => CapabilityProfile::plain(),
            Connector::Dlocal => CapabilityProfile::plain(),
            Connector::Esnekpos => CapabilityProfile::plain(),
            Connector::Fiserv => CapabilityProfile::plain(),
            Connector::Forte => CapabilityProfile::plain(),
            Connector::Globalpay => CapabilityProfile {
                access_token: AccessTokenSupport::Always,
                ..CapabilityProfile::plain()
            },
            Connector::Globepay => CapabilityProfile::plain(),
            Connector::Gocardless => CapabilityProfile::plain(),
            Connector::Helcim => CapabilityProfile::plain(),
            Connector::Iatapay => CapabilityProfile {
                access_token: AccessTokenSupport::Always,
                ..CapabilityProfile::plain()
            },
            Connector::Klarna => CapabilityProfile::plain(),
            Connector::Mollie => CapabilityProfile::plain(),
            Connector::Multisafepay => CapabilityProfile::plain(),
            Connector::Netcetera => CapabilityProfile::plain(),
            Connector::Nexinets => CapabilityProfile::plain(),
            Connector::Nmi => CapabilityProfile {
                separate_authentication: true,
                ..CapabilityProfile::plain()
            },
            Connector::Noon => CapabilityProfile::plain(),
            Connector::Nuvei => CapabilityProfile::plain(),
            Connector::Opennode => CapabilityProfile::plain(),
            Connector::Payme => CapabilityProfile::plain(),
            Connector::Paypal => CapabilityProfile {
                access_token: AccessTokenSupport::Always,
                ..CapabilityProfile::plain()
            },
            Connector::Payu => CapabilityProfile {
                access_token: AccessTokenSupport::Always,
                ..CapabilityProfile::plain()
            },
            Connector::Placetopay => CapabilityProfile::plain(),
            Connector::Powertranz => CapabilityProfile::plain(),
            Connector::Prophetpay => CapabilityProfile::plain(),
            Connector::Rapyd => CapabilityProfile::plain(),
            Connector::Shift4 => CapabilityProfile::plain(),
            Connector::Square => CapabilityProfile::plain(),
            Connector::Stax => CapabilityProfile::plain(),
            Connector::Stripe => CapabilityProfile {
                file_storage: true,
                ..CapabilityProfile::plain()
            },
            Connector::Threedsecureio => CapabilityProfile::plain(),
            Connector::Trustpay => CapabilityProfile {
                access_token: AccessTokenSupport::OnlyFor(PaymentMethod::BankRedirect),
                ..CapabilityProfile::plain()
            },
            Connector::Tsys => CapabilityProfile::plain(),
            Connector::Volt => CapabilityProfile {
                access_token: AccessTokenSupport::Always,
                ..CapabilityProfile::plain()
            },
            Connector::Wise => CapabilityProfile::plain(),
            Connector::Worldline => CapabilityProfile::plain(),
            Connector::Worldpay => CapabilityProfile::plain(),
            Connector::Signifyd => CapabilityProfile::plain(),
            Connector::Plaid => CapabilityProfile::plain(),
            Connector::Riskified => CapabilityProfile::plain(),
            Connector::Zen => CapabilityProfile::plain(),
            Connector::Zsl => CapabilityProfile::plain(),
        }
    }

    /// Whether an access token is acquired before paying with `payment_method`.
    pub fn supports_access_token(&self, payment_method: PaymentMethod) -> (supported: bool)
        ensures
            supported == self.takes_access_token(payment_method),
    {
        match self.capability_profile().access_token {
            AccessTokenSupport::Never => false,
            AccessTokenSupport::Always => true,
            AccessTokenSupport::OnlyFor(method) => method == payment_method,
        }
    }

    /// Whether files such as dispute evidence can be stored at the connector.
    pub fn supports_file_storage_module(&self) -> (supported: bool)
        ensures
            supported == self.stores_files(),
    {
        self.capability_profile().file_storage
    }

    /// Whether disputes raised at the connector must be defended.
    pub fn requires_defend_dispute(&self) -> (required: bool)
        ensures
            required == self.defends_disputes(),
    {
        self.capability_profile().defend_dispute
    }

    /// Whether authentication runs as a separate step at the connector.
    pub fn is_separate_authentication_supported(&self) -> (supported: bool)
        ensures
            supported == self.authenticates_separately(),
    {
        self.capability_profile().separate_authentication
    }

    /// Whether the connector is a test double.
    pub fn is_dummy_connector(&self) -> (dummy: bool)
        ensures
            dummy == self.is_test_double(),
    {
        self.capability_profile().test_double
    }
}

/// Which connectors a deployment admits. Test doubles are switched on and
/// off here, at run time.
#[derive(Clone, Copy, Debug, PartialEq, Eq, Structural)]
pub struct ConnectorAllowList {
    /// Whether the test doubles are admitted.
    pub dummy_connector: bool,
}

impl ConnectorAllowList {
    /// Whether the list admits `connector`: real processors always, test
    /// doubles only when they are switched on.
    pub open spec fn admits(self, connector: Connector) -> bool {
        self.dummy_connector || !connector.is_test_double()
    }

    /// Whether `connector` may be used in this deployment.
    pub fn is_admitted(&self, connector: Connector) -> (admitted: bool)
        ensures
            admitted == self.admits(connector),
    {
        self.dummy_connector || !connector.is_dummy_connector()
    }

    /// Decodes a wire name into a connector that the list admits. The name of
    /// a connector that is not admitted is treated as unknown.
    pub fn parse(&self, s: &str) -> (decoded: Result<Connector, ParseError>)
        ensures
            decoded == match Connector::named(s@) {
                Some(c) if self.admits(c) => Ok::<Connector, ParseError>(c),
                _ => Err::<Connector, ParseError>(ParseError::VariantNotFound),
            },
    {
        match Connector::from_str(s) {
            Ok(c) => if self.is_admitted(c) {
                Ok(c)
            } else {
                Err(ParseError::VariantNotFound)
            },
            Err(e) => Err(e),
        }
    }
}

} // verus!
