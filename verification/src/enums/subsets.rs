//! The narrower sets of connectors and the conversions between them and the
//! full set: widening is total, narrowing is partial.

use vstd::prelude::*;
use vstd::std_specs::convert::FromSpecImpl;
use vstd::std_specs::convert::TryFromSpecImpl;
use crate::enums::connector::Connector;
use crate::enums::ParseError;
use crate::text::join;
use crate::text::text_eq;

verus! {

/// The connectors that authenticate a payer.
#[derive(Clone, Copy, Debug, PartialEq, Eq, Structural, Hash)]
pub enum AuthenticationConnectors {
    Threedsecureio,
    Netcetera,
}

impl AuthenticationConnectors {
    /// The name under which the connector travels on the wire.
    pub open spec fn wire_name(self) -> Seq<char> {
        match self {
            AuthenticationConnectors::Threedsecureio => "threedsecureio"@,
            AuthenticationConnectors::Netcetera => "netcetera"@,
        }
    }

    /// The connector that travels under the name `s`, if there is one.
    pub open spec fn named(s: Seq<char>) -> Option<Self> {
        if exists|v: AuthenticationConnectors| v.wire_name() == s {
            Some(choose|v: AuthenticationConnectors| v.wire_name() == s)
        } else {
            None
        }
    }

    /// The wire name as a static string slice.
    pub fn as_str(&self) -> (name: &'static str)
        ensures
            name@ == self.wire_name(),
    {
        match self {
            AuthenticationConnectors::Threedsecureio => "threedsecureio",
            AuthenticationConnectors::Netcetera => "netcetera",
        }
    }

    /// The wire name as an owned string.
    pub fn to_string(&self) -> (name: String)
        ensures
            name@ == self.wire_name(),
    {
        self.as_str().to_owned()
    }

    /// Decodes a wire name. Succeeds exactly on the wire names of the
    /// variants; matching is exact and case-sensitive.
    pub fn from_str(s: &str) -> (decoded: Result<Self, ParseError>)
        ensures
            decoded == match Self::named(s@) {
                Some(v) => Ok::<Self, ParseError>(v),
                None => Err::<Self, ParseError>(ParseError::VariantNotFound),
            },
    {
        if text_eq(s, "threedsecureio") {
            proof {
                Self::lemma_named(AuthenticationConnectors::Threedsecureio, s@);
            }
            Ok(AuthenticationConnectors::Threedsecureio)
        } else if text_eq(s, "netcetera") {
            proof {
                Self::lemma_named(AuthenticationConnectors::Netcetera, s@);
            }
            Ok(AuthenticationConnectors::Netcetera)
        } else {
            assert forall|v: AuthenticationConnectors| v.wire_name() != s@ by {
                match v {
                    AuthenticationConnectors::Threedsecureio => {},
                    AuthenticationConnectors::Netcetera => {},
                }
            }
            Err(ParseError::VariantNotFound)
        }
    }

    /// No two variants share a wire name.
    pub proof fn lemma_wire_names_distinct(a: Self, b: Self)
        requires
            a.wire_name() == b.wire_name(),
        ensures
            a == b,
    {
        reveal_strlit("threedsecureio");
        reveal_strlit("netcetera");
        assert("threedsecureio"@.len() == 14);
        assert("netcetera"@.len() == 9);
    }

    /// A variant is the one that travels under its own wire name.
    pub proof fn lemma_named(v: Self, s: Seq<char>)
        requires
            v.wire_name() == s,
        ensures
            Self::named(s) == Some(v),
    {
        let w = choose|w: AuthenticationConnectors| w.wire_name() == s;
        Self::lemma_wire_names_distinct(w, v);
    }

    /// Encoding a variant to its wire name and decoding that name gives the
    /// variant back, and a name decodes to a variant only if it is that
    /// variant's wire name.
    pub proof fn lemma_wire_name_round_trip(v: Self, s: Seq<char>)
        ensures
            Self::named(v.wire_name()) == Some(v),
            Self::named(s) == Some(v) ==> s == v.wire_name(),
    {
        Self::lemma_named(v, v.wire_name());
    }
}

impl AuthenticationConnectors {
    /// The same connector as a member of the full set.
    pub open spec fn widened(self) -> Connector {
        match self {
            AuthenticationConnectors::Threedsecureio => Connector::Threedsecureio,
            AuthenticationConnectors::Netcetera => Connector::Netcetera,
        }
    }

    /// Whether `connector` belongs to this narrower set.
    pub open spec fn holds(connector: Connector) -> bool {
        connector is Threedsecureio || connector is Netcetera
    }

    /// Widening is one-to-one and lands inside the narrower set.
    pub proof fn lemma_widening(a: Self, b: Self)
        ensures
            Self::holds(a.widened()),
            a.widened() == b.widened() ==> a == b,
            a.widened().wire_name() == a.wire_name(),
    {
    }
}

impl From<AuthenticationConnectors> for Connector {
    /// Widens into the full set; never fails.
    fn from(value: AuthenticationConnectors) -> (connector: Self) {
        match value {
            AuthenticationConnectors::Threedsecureio => Self::Threedsecureio,
            AuthenticationConnectors::Netcetera => Self::Netcetera,
        }
    }
}

impl FromSpecImpl<AuthenticationConnectors> for Connector {
    open spec fn obeys_from_spec() -> bool {
        true
    }

    open spec fn from_spec(value: AuthenticationConnectors) -> Self {
        value.widened()
    }
}

impl TryFrom<Connector> for AuthenticationConnectors {
    type Error = String;

    /// Narrows a connector. Succeeds exactly on the members of the narrower
    /// set; otherwise the error names the connector that was refused.
    fn try_from(value: Connector) -> (narrowed: Result<Self, String>)
        ensures
            narrowed is Ok <==> Self::holds(value),
            match narrowed {
                Ok(member) => member.widened() == value,
                Err(message) => message@ == "Invalid authentication connector "@ + value.wire_name(),
            },
    {
        match value {
            Connector::Threedsecureio => Ok(Self::Threedsecureio),
            Connector::Netcetera => Ok(Self::Netcetera),
            _ => Err(join("Invalid authentication connector ", value.as_str())),
        }
    }
}

/// What `try_from` returns is stated on `try_from` itself, because its error
/// is a string, which only has a view in contracts.
impl TryFromSpecImpl<Connector> for AuthenticationConnectors {
    open spec fn obeys_try_from_spec() -> bool {
        false
    }

    open spec fn try_from_spec(value: Connector) -> Result<Self, String> {
        arbitrary()
    }
}

/// The connectors that pay out.
#[derive(Clone, Copy, Debug, PartialEq, Eq, Structural, Hash)]
pub enum PayoutConnectors {
    Adyen,
    Wise,
}

impl PayoutConnectors {
    /// The name under which the connector travels on the wire.
    pub open spec fn wire_name(self) -> Seq<char> {
        match self {
            PayoutConnectors::Adyen => "adyen"@,
            PayoutConnectors::Wise => "wise"@,
        }
    }

    /// The connector that travels under the name `s`, if there is one.
    pub open spec fn named(s: Seq<char>) -> Option<Self> {
        if exists|v: PayoutConnectors| v.wire_name() == s {
            Some(choose|v: PayoutConnectors| v.wire_name() == s)
        } else {
            None
        }
    }

    /// The wire name as a static string slice.
    pub fn as_str(&self) -> (name: &'static str)
        ensures
            name@ == self.wire_name(),
    {
        match self {
            PayoutConnectors::Adyen => "adyen",
            PayoutConnectors::Wise => "wise",
        }
    }

    /// The wire name as an owned string.
    pub fn to_string(&self) -> (name: String)
        ensures
            name@ == self.wire_name(),
    {
        self.as_str().to_owned()
    }

    /// Decodes a wire name. Succeeds exactly on the wire names of the
    /// variants; matching is exact and case-sensitive.
    pub fn from_str(s: &str) -> (decoded: Result<Self, ParseError>)
        ensures
            decoded == match Self::named(s@) {
                Some(v) => Ok::<Self, ParseError>(v),
                None => Err::<Self, ParseError>(ParseError::VariantNotFound),
            },
    {
        if text_eq(s, "adyen") {
            proof {
                Self::lemma_named(PayoutConnectors::Adyen, s@);
            }
            Ok(PayoutConnectors::Adyen)
        } else if text_eq(s, "wise") {
            proof {
                Self::lemma_named(PayoutConnectors::Wise, s@);
            }
            Ok(PayoutConnectors::Wise)
        } else {
            assert forall|v: PayoutConnectors| v.wire_name() != s@ by {
                match v {
                    PayoutConnectors::Adyen => {},
                    PayoutConnectors::Wise => {},
                }
            }
            Err(ParseError::VariantNotFound)
        }
    }

    /// No two variants share a wire name.
    pub proof fn lemma_wire_names_distinct(a: Self, b: Self)
        requires
            a.wire_name() == b.wire_name(),
        ensures
            a == b,
    {
        reveal_strlit("adyen");
        reveal_strlit("wise");
        assert("adyen"@.len() == 5);
        assert("wise"@.len() == 4);
    }

    /// A variant is the one that travels under its own wire name.
    pub proof fn lemma_named(v: Self, s: Seq<char>)
        requires
            v.wire_name() == s,
        ensures
            Self::named(s) == Some(v),
    {
        let w = choose|w: PayoutConnectors| w.wire_name() == s;
        Self::lemma_wire_names_distinct(w, v);
    }

    /// Encoding a variant to its wire name and decoding that name gives the
    /// variant back, and a name decodes to a variant only if it is that
    /// variant's wire name.
    pub proof fn lemma_wire_name_round_trip(v: Self, s: Seq<char>)
        ensures
            Self::named(v.wire_name()) == Some(v),
            Self::named(s) == Some(v) ==> s == v.wire_name(),
    {
        Self::lemma_named(v, v.wire_name());
    }
}

impl PayoutConnectors {
    /// The same connector as a member of the full set.
    pub open spec fn widened(self) -> Connector {
        match self {
            PayoutConnectors::Adyen => Connector::Adyen,
            PayoutConnectors::Wise => Connector::Wise,
        }
    }

    /// Whether `connector` belongs to this narrower set.
    pub open spec fn holds(connector: Connector) -> bool {
        connector is Adyen || connector is Wise
    }

    /// Widening is one-to-one and lands inside the narrower set.
    pub proof fn lemma_widening(a: Self, b: Self)
        ensures
            Self::holds(a.widened()),
            a.widened() == b.widened() ==> a == b,
            a.widened().wire_name() == a.wire_name(),
    {
    }
}

impl From<PayoutConnectors> for Connector {
    /// Widens into the full set; never fails.
    fn from(value: PayoutConnectors) -> (connector: Self) {
        match value {
            PayoutConnectors::Adyen => Self::Adyen,
            PayoutConnectors::Wise => Self::Wise,
        }
    }
}

impl FromSpecImpl<PayoutConnectors> for Connector {
    open spec fn obeys_from_spec() -> bool {
        true
    }

    open spec fn from_spec(value: PayoutConnectors) -> Self {
        value.widened()
    }
}

impl TryFrom<Connector> for PayoutConnectors {
    type Error = String;

    /// Narrows a connector. Succeeds exactly on the members of the narrower
    /// set; otherwise the error names the connector that was refused.
    fn try_from(value: Connector) -> (narrowed: Result<Self, String>)
        ensures
            narrowed is Ok <==> Self::holds(value),
            match narrowed {
                Ok(member) => member.widened() == value,
                Err(message) => message@ == "Invalid payout connector "@ + value.wire_name(),
            },
    {
        match value {
            Connector::Adyen => Ok(Self::Adyen),
            Connector::Wise => Ok(Self::Wise),
            _ => Err(join("Invalid payout connector ", value.as_str())),
        }
    }
}

/// What `try_from` returns is stated on `try_from` itself, because its error
/// is a string, which only has a view in contracts.
impl TryFromSpecImpl<Connector> for PayoutConnectors {
    open spec fn obeys_try_from_spec() -> bool {
        false
    }

    open spec fn try_from_spec(value: Connector) -> Result<Self, String> {
        arbitrary()
    }
}

/// The connectors that review payments for fraud.
#[derive(Clone, Copy, Debug, PartialEq, Eq, Structural, Hash)]
pub enum FrmConnectors {
    Signifyd,
    Riskified,
}

impl FrmConnectors {
    /// The name under which the connector travels on the wire.
    pub open spec fn wire_name(self) -> Seq<char> {
        match self {
            FrmConnectors::Signifyd => "signifyd"@,
            FrmConnectors::Riskified => "riskified"@,
        }
    }

    /// The connector that travels under the name `s`, if there is one.
    pub open spec fn named(s: Seq<char>) -> Option<Self> {
        if exists|v: FrmConnectors| v.wire_name() == s {
            Some(choose|v: FrmConnectors| v.wire_name() == s)
        } else {
            None
        }
    }

    /// The wire name as a static string slice.
    pub fn as_str(&self) -> (name: &'static str)
        ensures
            name@ == self.wire_name(),
    {
        match self {
            FrmConnectors::Signifyd => "signifyd",
            FrmConnectors::Riskified => "riskified",
        }
    }

    /// The wire name as an owned string.
    pub fn to_string(&self) -> (name: String)
        ensures
            name@ == self.wire_name(),
    {
        self.as_str().to_owned()
    }

    /// Decodes a wire name. Succeeds exactly on the wire names of the
    /// variants; matching is exact and case-sensitive.
    pub fn from_str(s: &str) -> (decoded: Result<Self, ParseError>)
        ensures
            decoded == match Self::named(s@) {
                Some(v) => Ok::<Self, ParseError>(v),
                None => Err::<Self, ParseError>(ParseError::VariantNotFound),
            },
    {
        if text_eq(s, "signifyd") {
            proof {
                Self::lemma_named(FrmConnectors::Signifyd, s@);
            }
            Ok(FrmConnectors::Signifyd)
        } else if text_eq(s, "riskified") {
            proof {
                Self::lemma_named(FrmConnectors::Riskified, s@);
            }
            Ok(FrmConnectors::Riskified)
        } else {
            assert forall|v: FrmConnectors| v.wire_name() != s@ by {
                match v {
                    FrmConnectors::Signifyd => {},
                    FrmConnectors::Riskified => {},
                }
            }
            Err(ParseError::VariantNotFound)
        }
    }

    /// No two variants share a wire name.
    pub proof fn lemma_wire_names_distinct(a: Self, b: Self)
        requires
            a.wire_name() == b.wire_name(),
        ensures
            a == b,
    {
        reveal_strlit("signifyd");
        reveal_strlit("riskified");
        assert("signifyd"@.len() == 8);
        assert("riskified"@.len() == 9);
    }

    /// A variant is the one that travels under its own wire name.
    pub proof fn lemma_named(v: Self, s: Seq<char>)
        requires
            v.wire_name() == s,
        ensures
            Self::named(s) == Some(v),
    {
        let w = choose|w: FrmConnectors| w.wire_name() == s;
        Self::lemma_wire_names_distinct(w, v);
    }

    /// Encoding a variant to its wire name and decoding that name gives the
    /// variant back, and a name decodes to a variant only if it is that
    /// variant's wire name.
    pub proof fn lemma_wire_name_round_trip(v: Self, s: Seq<char>)
        ensures
            Self::named(v.wire_name()) == Some(v),
            Self::named(s) == Some(v) ==> s == v.wire_name(),
    {
        Self::lemma_named(v, v.wire_name());
    }
}

impl FrmConnectors {
    /// The same connector as a member of the full set.
    pub open spec fn widened(self) -> Connector {
        match self {
            FrmConnectors::Signifyd => Connector::Signifyd,
            FrmConnectors::Riskified => Connector::Riskified,
        }
    }

    /// Whether `connector` belongs to this narrower set.
    pub open spec fn holds(connector: Connector) -> bool {
        connector is Signifyd || connector is Riskified
    }

    /// Widening is one-to-one and lands inside the narrower set.
    pub proof fn lemma_widening(a: Self, b: Self)
        ensures
            Self::holds(a.widened()),
            a.widened() == b.widened() ==> a == b,
            a.widened().wire_name() == a.wire_name(),
    {
    }
}

impl From<FrmConnectors> for Connector {
    /// Widens into the full set; never fails.
    fn from(value: FrmConnectors) -> (connector: Self) {
        match value {
            FrmConnectors::Signifyd => Self::Signifyd,
            FrmConnectors::Riskified => Self::Riskified,
        }
    }
}

impl FromSpecImpl<FrmConnectors> for Connector {
    open spec fn obeys_from_spec() -> bool {
        true
    }

    open spec fn from_spec(value: FrmConnectors) -> Self {
        value.widened()
    }
}

impl TryFrom<Connector> for FrmConnectors {
    type Error = String;

    /// Narrows a connector. Succeeds exactly on the members of the narrower
    /// set; otherwise the error names the connector that was refused.
    fn try_from(value: Connector) -> (narrowed: Result<Self, String>)
        ensures
            narrowed is Ok <==> Self::holds(value),
            match narrowed {
                Ok(member) => member.widened() == value,
                Err(message) => message@ == "Invalid frm connector "@ + value.wire_name(),
            },
    {
        match value {
            Connector::Signifyd => Ok(Self::Signifyd),
            Connector::Riskified => Ok(Self::Riskified),
            _ => Err(join("Invalid frm connector ", value.as_str())),
        }
    }
}

/// What `try_from` returns is stated on `try_from` itself, because its error
/// is a string, which only has a view in contracts.
impl TryFromSpecImpl<Connector> for FrmConnectors {
    open spec fn obeys_try_from_spec() -> bool {
        false
    }

    open spec fn try_from_spec(value: Connector) -> Result<Self, String> {
        arbitrary()
    }
}

/// The connectors that authenticate a payment method.
#[derive(Clone, Copy, Debug, PartialEq, Eq, Structural, Hash)]
pub enum PmAuthConnectors {
    Plaid,
}

impl PmAuthConnectors {
    /// The name under which the connector travels on the wire.
    pub open spec fn wire_name(self) -> Seq<char> {
        match self {
            PmAuthConnectors::Plaid => "plaid"@,
        }
    }

    /// The connector that travels under the name `s`, if there is one.
    pub open spec fn named(s: Seq<char>) -> Option<Self> {
        if exists|v: PmAuthConnectors| v.wire_name() == s {
            Some(choose|v: PmAuthConnectors| v.wire_name() == s)
        } else {
            None
        }
    }

    /// The wire name as a static string slice.
    pub fn as_str(&self) -> (name: &'static str)
        ensures
            name@ == self.wire_name(),
    {
        match self {
            PmAuthConnectors::Plaid => "plaid",
        }
    }

    /// The wire name as an owned string.
    pub fn to_string(&self) -> (name: String)
        ensures
            name@ == self.wire_name(),
    {
        self.as_str().to_owned()
    }

    /// Decodes a wire name. Succeeds exactly on the wire names of the
    /// variants; matching is exact and case-sensitive.
    pub fn from_str(s: &str) -> (decoded: Result<Self, ParseError>)
        ensures
            decoded == match Self::named(s@) {
                Some(v) => Ok::<Self, ParseError>(v),
                None => Err::<Self, ParseError>(ParseError::VariantNotFound),
            },
    {
        if text_eq(s, "plaid") {
            proof {
                Self::lemma_named(PmAuthConnectors::Plaid, s@);
            }
            Ok(PmAuthConnectors::Plaid)
        } else {
            assert forall|v: PmAuthConnectors| v.wire_name() != s@ by {
                match v {
                    PmAuthConnectors::Plaid => {},
                }
            }
            Err(ParseError::VariantNotFound)
        }
    }

    /// No two variants share a wire name.
    pub proof fn lemma_wire_names_distinct(a: Self, b: Self)
        requires
            a.wire_name() == b.wire_name(),
        ensures
            a == b,
    {
        reveal_strlit("plaid");
        assert("plaid"@.len() == 5);
    }

    /// A variant is the one that travels under its own wire name.
    pub proof fn lemma_named(v: Self, s: Seq<char>)
        requires
            v.wire_name() == s,
        ensures
            Self::named(s) == Some(v),
    {
        let w = choose|w: PmAuthConnectors| w.wire_name() == s;
        Self::lemma_wire_names_distinct(w, v);
    }

    /// Encoding a variant to its wire name and decoding that name gives the
    /// variant back, and a name decodes to a variant only if it is that
    /// variant's wire name.
    pub proof fn lemma_wire_name_round_trip(v: Self, s: Seq<char>)
        ensures
            Self::named(v.wire_name()) == Some(v),
            Self::named(s) == Some(v) ==> s == v.wire_name(),
    {
        Self::lemma_named(v, v.wire_name());
    }
}

impl PmAuthConnectors {
    /// The same connector as a member of the full set.
    pub open spec fn widened(self) -> Connector {
        match self {
            PmAuthConnectors::Plaid => Connector::Plaid,
        }
    }

    /// Whether `connector` belongs to this narrower set.
    pub open spec fn holds(connector: Connector) -> bool {
        connector is Plaid
    }

    /// Widening is one-to-one and lands inside the narrower set.
    pub proof fn lemma_widening(a: Self, b: Self)
        ensures
            Self::holds(a.widened()),
            a.widened() == b.widened() ==> a == b,
            a.widened().wire_name() == a.wire_name(),
    {
    }
}

impl From<PmAuthConnectors> for Connector {
    /// Widens into the full set; never fails.
    fn from(value: PmAuthConnectors) -> (connector: Self) {
        match value {
            PmAuthConnectors::Plaid => Self::Plaid,
        }
    }
}

impl FromSpecImpl<PmAuthConnectors> for Connector {
    open spec fn obeys_from_spec() -> bool {
        true
    }

    open spec fn from_spec(value: PmAuthConnectors) -> Self {
        value.widened()
    }
}

impl TryFrom<Connector> for PmAuthConnectors {
    type Error = String;

    /// Narrows a connector. Succeeds exactly on the members of the narrower
    /// set; otherwise the error names the connector that was refused.
    fn try_from(value: Connector) -> (narrowed: Result<Self, String>)
        ensures
            narrowed is Ok <==> Self::holds(value),
            match narrowed {
                Ok(member) => member.widened() == value,
                Err(message) => message@ == "Invalid pm auth connector "@ + value.wire_name(),
            },
    {
        match value {
            Connector::Plaid => Ok(Self::Plaid),
            _ => Err(join("Invalid pm auth connector ", value.as_str())),
        }
    }
}

/// What `try_from` returns is stated on `try_from` itself, because its error
/// is a string, which only has a view in contracts.
impl TryFromSpecImpl<Connector> for PmAuthConnectors {
    open spec fn obeys_try_from_spec() -> bool {
        false
    }

    open spec fn try_from_spec(value: Connector) -> Result<Self, String> {
        arbitrary()
    }
}

/// The connectors that a routing decision may pick: the payment processors.
#[derive(Clone, Copy, Debug, PartialEq, Eq, Structural, Hash)]
pub enum RoutableConnectors {
    DummyConnector1,
    DummyConnector2,
    DummyConnector3,
    DummyConnector4,
    DummyConnector5,
    DummyConnector6,
    DummyConnector7,
    Aci,
    Adyen,
    Airwallex,
    Authorizedotnet,
    Bambora,
    Bankofamerica,
    Billwerk,
    Bitpay,
    Bluesnap,
    Boku,
    Braintree,
    Cashtocode,
    Checkout,
    Coinbase,
    Cryptopay,
    Cybersource,
    Dlocal,
    Esnekpos,
    Fiserv,
    Forte,
    Globalpay,
    Globepay,
    Gocardless,
    Helcim,
    Iatapay,
    Klarna,
    Mollie,
    Multisafepay,
    Nexinets,
    Nmi,
    Noon,
    Nuvei,
    Opennode,
    Payme,
    Paypal,
    Payu,
    Placetopay,
    Powertranz,
    Prophetpay,
    Rapyd,
    Shift4,
    Square,
    Stax,
    Stripe,
    Trustpay,
    Tsys,
    Volt,
    Wise,
    Worldline,
    Worldpay,
    Zen,
    Zsl,
}

impl RoutableConnectors {
    /// The name under which the connector travels on the wire.
    pub open spec fn wire_name(self) -> Seq<char> {
        match self {
            RoutableConnectors::DummyConnector1 => "phonypay"@,
            RoutableConnectors::DummyConnector2 => "fauxpay"@,
            RoutableConnectors::DummyConnector3 => "pretendpay"@,
            RoutableConnectors::DummyConnector4 => "stripe_test"@,
            RoutableConnectors::DummyConnector5 => "adyen_test"@,
            RoutableConnectors::DummyConnector6 => "checkout_test"@,
            RoutableConnectors::DummyConnector7 => "paypal_test"@,
            RoutableConnectors::Aci => "aci"@,
            RoutableConnectors::Adyen => "adyen"@,
            RoutableConnectors::Airwallex => "airwallex"@,
            RoutableConnectors::Authorizedotnet => "authorizedotnet"@,
            RoutableConnectors::Bambora => "bambora"@,
            RoutableConnectors::Bankofamerica => "bankofamerica"@,
            RoutableConnectors::Billwerk => "billwerk"@,
            RoutableConnectors::Bitpay => "bitpay"@,
            RoutableConnectors::Bluesnap => "bluesnap"@,
            RoutableConnectors::Boku => "boku"@,
            RoutableConnectors::Braintree => "braintree"@,
            RoutableConnectors::Cashtocode => "cashtocode"@,
            RoutableConnectors::Checkout => "checkout"@,
            RoutableConnectors::Coinbase => "coinbase"@,
            RoutableConnectors::Cryptopay => "cryptopay"@,
            RoutableConnectors::Cybersource => "cybersource"@,
            RoutableConnectors::Dlocal => "dlocal"@,
            RoutableConnectors::Esnekpos => "esnekpos"@,
            RoutableConnectors::Fiserv => "fiserv"@,
            RoutableConnectors::Forte => "forte"@,
            RoutableConnectors::Globalpay => "globalpay"@,
            RoutableConnectors::Globepay => "globepay"@,
            RoutableConnectors::Gocardless => "gocardless"@,
            RoutableConnectors::Helcim => "helcim"@,
            RoutableConnectors::Iatapay => "iatapay"@,
            RoutableConnectors::Klarna => "klarna"@,
            RoutableConnectors::Mollie => "mollie"@,
            RoutableConnectors::Multisafepay => "multisafepay"@,
            RoutableConnectors::Nexinets => "nexinets"@,
            RoutableConnectors::Nmi => "nmi"@,
            RoutableConnectors::Noon => "noon"@,
            RoutableConnectors::Nuvei => "nuvei"@,
            RoutableConnectors::Opennode => "opennode"@,
            RoutableConnectors::Payme => "payme"@,
            RoutableConnectors::Paypal => "paypal"@,
            RoutableConnectors::Payu => "payu"@,
            RoutableConnectors::Placetopay => "placetopay"@,
            RoutableConnectors::Powertranz => "powertranz"@,
            RoutableConnectors::Prophetpay => "prophetpay"@,
            RoutableConnectors::Rapyd => "rapyd"@,
            RoutableConnectors::Shift4 => "shift4"@,
            RoutableConnectors::Square => "square"@,
            RoutableConnectors::Stax => "stax"@,
            RoutableConnectors::Stripe => "stripe"@,
            RoutableConnectors::Trustpay => "trustpay"@,
            RoutableConnectors::Tsys => "tsys"@,
            RoutableConnectors::Volt => "volt"@,
            RoutableConnectors::Wise => "wise"@,
            RoutableConnectors::Worldline => "worldline"@,
            RoutableConnectors::Worldpay => "worldpay"@,
            RoutableConnectors::Zen => "zen"@,
            RoutableConnectors::Zsl => "zsl"@,
        }
    }

    /// The connector that travels under the name `s`, if there is one.
    pub open spec fn named(s: Seq<char>) -> Option<Self> {
        if exists|v: RoutableConnectors| v.wire_name() == s {
            Some(choose|v: RoutableConnectors| v.wire_name() == s)
        } else {
            None
        }
    }

    /// The wire name as a static string slice.
    pub fn as_str(&self) -> (name: &'static str)
        ensures
            name@ == self.wire_name(),
    {
        match self {
            RoutableConnectors::DummyConnector1 => "phonypay",
            RoutableConnectors::DummyConnector2 => "fauxpay",
            RoutableConnectors::DummyConnector3 => "pretendpay",
            RoutableConnectors::DummyConnector4 => "stripe_test",
            RoutableConnectors::DummyConnector5 => "adyen_test",
            RoutableConnectors::DummyConnector6 => "checkout_test",
            RoutableConnectors::DummyConnector7 => "paypal_test",
            RoutableConnectors::Aci => "aci",
            RoutableConnectors::Adyen => "adyen",
            RoutableConnectors::Airwallex => "airwallex",
            RoutableConnectors::Authorizedotnet => "authorizedotnet",
            RoutableConnectors::Bambora => "bambora",
            RoutableConnectors::Bankofamerica => "bankofamerica",
            RoutableConnectors::Billwerk => "billwerk",
            RoutableConnectors::Bitpay => "bitpay",
            RoutableConnectors::Bluesnap => "bluesnap",
            RoutableConnectors::Boku => "boku",
            RoutableConnectors::Braintree => "braintree",
            RoutableConnectors::Cashtocode => "cashtocode",
            RoutableConnectors::Checkout => "checkout",
            RoutableConnectors::Coinbase => "coinbase",
            RoutableConnectors::Cryptopay => "cryptopay",
            RoutableConnectors::Cybersource => "cybersource",
            RoutableConnectors::Dlocal => "dlocal",
            RoutableConnectors::Esnekpos => "esnekpos",
            RoutableConnectors::Fiserv => "fiserv",
            RoutableConnectors::Forte => "forte",
            RoutableConnectors::Globalpay => "globalpay",
            RoutableConnectors::Globepay => "globepay",
            RoutableConnectors::Gocardless => "gocardless",
            RoutableConnectors::Helcim => "helcim",
            RoutableConnectors::Iatapay => "iatapay",
            RoutableConnectors::Klarna => "klarna",
            RoutableConnectors::Mollie => "mollie",
            RoutableConnectors::Multisafepay => "multisafepay",
            RoutableConnectors::Nexinets => "nexinets",
            RoutableConnectors::Nmi => "nmi",
            RoutableConnectors::Noon => "noon",
            RoutableConnectors::Nuvei => "nuvei",
            RoutableConnectors::Opennode => "opennode",
            RoutableConnectors::Payme => "payme",
            RoutableConnectors::Paypal => "paypal",
            RoutableConnectors::Payu => "payu",
            RoutableConnectors::Placetopay => "placetopay",
            RoutableConnectors::Powertranz => "powertranz",
            RoutableConnectors::Prophetpay => "prophetpay",
            RoutableConnectors::Rapyd => "rapyd",
            RoutableConnectors::Shift4 => "shift4",
            RoutableConnectors::Square => "square",
            RoutableConnectors::Stax => "stax",
            RoutableConnectors::Stripe => "stripe",
            RoutableConnectors::Trustpay => "trustpay",
            RoutableConnectors::Tsys => "tsys",
            RoutableConnectors::Volt => "volt",
            RoutableConnectors::Wise => "wise",
            RoutableConnectors::Worldline => "worldline",
            RoutableConnectors::Worldpay => "worldpay",
            RoutableConnectors::Zen => "zen",
            RoutableConnectors::Zsl => "zsl",
        }
    }

    /// The wire name as an owned string.
    pub fn to_string(&self) -> (name: String)
        ensures
            name@ == self.wire_name(),
    {
        self.as_str().to_owned()
    }

    /// Decodes a wire name. Succeeds exactly on the wire names of the
    /// variants; matching is exact and case-sensitive.
    pub fn from_str(s: &str) -> (decoded: Result<Self, ParseError>)
        ensures
            decoded == match Self::named(s@) {
                Some(v) => Ok::<Self, ParseError>(v),
                None => Err::<Self, ParseError>(ParseError::VariantNotFound),
            },
    {
        if text_eq(s, "phonypay") {
            proof {
                Self::lemma_named(RoutableConnectors::DummyConnector1, s@);
            }
            Ok(RoutableConnectors::DummyConnector1)
        } else if text_eq(s, "fauxpay") {
            proof {
                Self::lemma_named(RoutableConnectors::DummyConnector2, s@);
            }
            Ok(RoutableConnectors::DummyConnector2)
        } else if text_eq(s, "pretendpay") {
            proof {
                Self::lemma_named(RoutableConnectors::DummyConnector3, s@);
            }
            Ok(RoutableConnectors::DummyConnector3)
        } else if text_eq(s, "stripe_test") {
            proof {
                Self::lemma_named(RoutableConnectors::DummyConnector4, s@);
            }
            Ok(RoutableConnectors::DummyConnector4)
        } else if text_eq(s, "adyen_test") {
            proof {
                Self::lemma_named(RoutableConnectors::DummyConnector5, s@);
            }
            Ok(RoutableConnectors::DummyConnector5)
        } else if text_eq(s, "checkout_test") {
            proof {
                Self::lemma_named(RoutableConnectors::DummyConnector6, s@);
            }
            Ok(RoutableConnectors::DummyConnector6)
        } else if text_eq(s, "paypal_test") {
            proof {
                Self::lemma_named(RoutableConnectors::DummyConnector7, s@);
            }
            Ok(RoutableConnectors::DummyConnector7)
        } else if text_eq(s, "aci") {
            proof {
                Self::lemma_named(RoutableConnectors::Aci, s@);
            }
            Ok(RoutableConnectors::Aci)
        } else if text_eq(s, "adyen") {
            proof {
                Self::lemma_named(RoutableConnectors::Adyen, s@);
            }
            Ok(RoutableConnectors::Adyen)
        } else if text_eq(s, "airwallex") {
            proof {
                Self::lemma_named(RoutableConnectors::Airwallex, s@);
            }
            Ok(RoutableConnectors::Airwallex)
        } else if text_eq(s, "authorizedotnet") {
            proof {
                Self::lemma_named(RoutableConnectors::Authorizedotnet, s@);
            }
            Ok(RoutableConnectors::Authorizedotnet)
        } else if text_eq(s, "bambora") {
            proof {
                Self::lemma_named(RoutableConnectors::Bambora, s@);
            }
            Ok(RoutableConnectors::Bambora)
        } else if text_eq(s, "bankofamerica") {
            proof {
                Self::lemma_named(RoutableConnectors::Bankofamerica, s@);
            }
            Ok(RoutableConnectors::Bankofamerica)
        } else if text_eq(s, "billwerk") {
            proof {
                Self::lemma_named(RoutableConnectors::Billwerk, s@);
            }
            Ok(RoutableConnectors::Billwerk)
        } else if text_eq(s, "bitpay") {
            proof {
                Self::lemma_named(RoutableConnectors::Bitpay, s@);
            }
            Ok(RoutableConnectors::Bitpay)
        } else if text_eq(s, "bluesnap") {
            proof {
                Self::lemma_named(RoutableConnectors::Bluesnap, s@);
            }
            Ok(RoutableConnectors::Bluesnap)
        } else if text_eq(s, "boku") {
            proof {
                Self::lemma_named(RoutableConnectors::Boku, s@);
            }
            Ok(RoutableConnectors::Boku)
        } else if text_eq(s, "braintree") {
            proof {
                Self::lemma_named(RoutableConnectors::Braintree, s@);
            }
            Ok(RoutableConnectors::Braintree)
        } else if text_eq(s, "cashtocode") {
            proof {
                Self::lemma_named(RoutableConnectors::Cashtocode, s@);
            }
            Ok(RoutableConnectors::Cashtocode)
        } else if text_eq(s, "checkout") {
            proof {
                Self::lemma_named(RoutableConnectors::Checkout, s@);
            }
            Ok(RoutableConnectors::Checkout)
        } else if text_eq(s, "coinbase") {
            proof {
                Self::lemma_named(RoutableConnectors::Coinbase, s@);
            }
            Ok(RoutableConnectors::Coinbase)
        } else if text_eq(s, "cryptopay") {
            proof {
                Self::lemma_named(RoutableConnectors::Cryptopay, s@);
            }
            Ok(RoutableConnectors::Cryptopay)
        } else if text_eq(s, "cybersource") {
            proof {
                Self::lemma_named(RoutableConnectors::Cybersource, s@);
            }
            Ok(RoutableConnectors::Cybersource)
        } else if text_eq(s, "dlocal") {
            proof {
                Self::lemma_named(RoutableConnectors::Dlocal, s@);
            }
            Ok(RoutableConnectors::Dlocal)
        } else if text_eq(s, "esnekpos") {
            proof {
                Self::lemma_named(RoutableConnectors::Esnekpos, s@);
            }
            Ok(RoutableConnectors::Esnekpos)
        } else if text_eq(s, "fiserv") {
            proof {
                Self::lemma_named(RoutableConnectors::Fiserv, s@);
            }
            Ok(RoutableConnectors::Fiserv)
        } else if text_eq(s, "forte") {
            proof {
                Self::lemma_named(RoutableConnectors::Forte, s@);
            }
            Ok(RoutableConnectors::Forte)
        } else if text_eq(s, "globalpay") {
            proof {
                Self::lemma_named(RoutableConnectors::Globalpay, s@);
            }
            Ok(RoutableConnectors::Globalpay)
        } else if text_eq(s, "globepay") {
            proof {
                Self::lemma_named(RoutableConnectors::Globepay, s@);
            }
            Ok(RoutableConnectors::Globepay)
        } else if text_eq(s, "gocardless") {
            proof {
                Self::lemma_named(RoutableConnectors::Gocardless, s@);
            }
            Ok(RoutableConnectors::Gocardless)
        } else if text_eq(s, "helcim") {
            proof {
                Self::lemma_named(RoutableConnectors::Helcim, s@);
            }
            Ok(RoutableConnectors::Helcim)
        } else if text_eq(s, "iatapay") {
            proof {
                Self::lemma_named(RoutableConnectors::Iatapay, s@);
            }
            Ok(RoutableConnectors::Iatapay)
        } else if text_eq(s, "klarna") {
            proof {
                Self::lemma_named(RoutableConnectors::Klarna, s@);
            }
            Ok(RoutableConnectors::Klarna)
        } else if text_eq(s, "mollie") {
            proof {
                Self::lemma_named(RoutableConnectors::Mollie, s@);
            }
            Ok(RoutableConnectors::Mollie)
        } else if text_eq(s, "multisafepay") {
            proof {
                Self::lemma_named(RoutableConnectors::Multisafepay, s@);
            }
            Ok(RoutableConnectors::Multisafepay)
        } else if text_eq(s, "nexinets") {
            proof {
                Self::lemma_named(RoutableConnectors::Nexinets, s@);
            }
            Ok(RoutableConnectors::Nexinets)
        } else if text_eq(s, "nmi") {
            proof {
                Self::lemma_named(RoutableConnectors::Nmi, s@);
            }
            Ok(RoutableConnectors::Nmi)
        } else if text_eq(s, "noon") {
            proof {
                Self::lemma_named(RoutableConnectors::Noon, s@);
            }
            Ok(RoutableConnectors::Noon)
        } else if text_eq(s, "nuvei") {
            proof {
                Self::lemma_named(RoutableConnectors::Nuvei, s@);
            }
            Ok(RoutableConnectors::Nuvei)
        } else if text_eq(s, "opennode") {
            proof {
                Self::lemma_named(RoutableConnectors::Opennode, s@);
            }
            Ok(RoutableConnectors::Opennode)
        } else if text_eq(s, "payme") {
            proof {
                Self::lemma_named(RoutableConnectors::Payme, s@);
            }
            Ok(RoutableConnectors::Payme)
        } else if text_eq(s, "paypal") {
            proof {
                Self::lemma_named(RoutableConnectors::Paypal, s@);
            }
            Ok(RoutableConnectors::Paypal)
        } else if text_eq(s, "payu") {
            proof {
                Self::lemma_named(RoutableConnectors::Payu, s@);
            }
            Ok(RoutableConnectors::Payu)
        } else if text_eq(s, "placetopay") {
            proof {
                Self::lemma_named(RoutableConnectors::Placetopay, s@);
            }
            Ok(RoutableConnectors::Placetopay)
        } else if text_eq(s, "powertranz") {
            proof {
                Self::lemma_named(RoutableConnectors::Powertranz, s@);
            }
            Ok(RoutableConnectors::Powertranz)
        } else if text_eq(s, "prophetpay") {
            proof {
                Self::lemma_named(RoutableConnectors::Prophetpay, s@);
            }
            Ok(RoutableConnectors::Prophetpay)
        } else if text_eq(s, "rapyd") {
            proof {
                Self::lemma_named(RoutableConnectors::Rapyd, s@);
            }
            Ok(RoutableConnectors::Rapyd)
        } else if text_eq(s, "shift4") {
            proof {
                Self::lemma_named(RoutableConnectors::Shift4, s@);
            }
            Ok(RoutableConnectors::Shift4)
        } else if text_eq(s, "square") {
            proof {
                Self::lemma_named(RoutableConnectors::Square, s@);
            }
            Ok(RoutableConnectors::Square)
        } else if text_eq(s, "stax") {
            proof {
                Self::lemma_named(RoutableConnectors::Stax, s@);
            }
            Ok(RoutableConnectors::Stax)
        } else if text_eq(s, "stripe") {
            proof {
                Self::lemma_named(RoutableConnectors::Stripe, s@);
            }
            Ok(RoutableConnectors::Stripe)
        } else if text_eq(s, "trustpay") {
            proof {
                Self::lemma_named(RoutableConnectors::Trustpay, s@);
            }
            Ok(RoutableConnectors::Trustpay)
        } else if text_eq(s, "tsys") {
            proof {
                Self::lemma_named(RoutableConnectors::Tsys, s@);
            }
            Ok(RoutableConnectors::Tsys)
        } else if text_eq(s, "volt") {
            proof {
                Self::lemma_named(RoutableConnectors::Volt, s@);
            }
            Ok(RoutableConnectors::Volt)
        } else if text_eq(s, "wise") {
            proof {
                Self::lemma_named(RoutableConnectors::Wise, s@);
            }
            Ok(RoutableConnectors::Wise)
        } else if text_eq(s, "worldline") {
            proof {
                Self::lemma_named(RoutableConnectors::Worldline, s@);
            }
            Ok(RoutableConnectors::Worldline)
        } else if text_eq(s, "worldpay") {
            proof {
                Self::lemma_named(RoutableConnectors::Worldpay, s@);
            }
            Ok(RoutableConnectors::Worldpay)
        } else if text_eq(s, "zen") {
            proof {
                Self::lemma_named(RoutableConnectors::Zen, s@);
            }
            Ok(RoutableConnectors::Zen)
        } else if text_eq(s, "zsl") {
            proof {
                Self::lemma_named(RoutableConnectors::Zsl, s@);
            }
            Ok(RoutableConnectors::Zsl)
        } else {
            assert forall|v: RoutableConnectors| v.wire_name() != s@ by {
                match v {
                    RoutableConnectors::DummyConnector1 => {},
                    RoutableConnectors::DummyConnector2 => {},
                    RoutableConnectors::DummyConnector3 => {},
                    RoutableConnectors::DummyConnector4 => {},
                    RoutableConnectors::DummyConnector5 => {},
                    RoutableConnectors::DummyConnector6 => {},
                    RoutableConnectors::DummyConnector7 => {},
                    RoutableConnectors::Aci => {},
                    RoutableConnectors::Adyen => {},
                    RoutableConnectors::Airwallex => {},
                    RoutableConnectors::Authorizedotnet => {},
                    RoutableConnectors::Bambora => {},
                    RoutableConnectors::Bankofamerica => {},
                    RoutableConnectors::Billwerk => {},
                    RoutableConnectors::Bitpay => {},
                    RoutableConnectors::Bluesnap => {},
                    RoutableConnectors::Boku => {},
                    RoutableConnectors::Braintree => {},
                    RoutableConnectors::Cashtocode => {},
                    RoutableConnectors::Checkout => {},
                    RoutableConnectors::Coinbase => {},
                    RoutableConnectors::Cryptopay => {},
                    RoutableConnectors::Cybersource => {},
                    RoutableConnectors::Dlocal => {},
                    RoutableConnectors::Esnekpos => {},
                    RoutableConnectors::Fiserv => {},
                    RoutableConnectors::Forte => {},
                    RoutableConnectors::Globalpay => {},
                    RoutableConnectors::Globepay => {},
                    RoutableConnectors::Gocardless => {},
                    RoutableConnectors::Helcim => {},
                    RoutableConnectors::Iatapay => {},
                    RoutableConnectors::Klarna => {},
                    RoutableConnectors::Mollie => {},
                    RoutableConnectors::Multisafepay => {},
                    RoutableConnectors::Nexinets => {},
                    RoutableConnectors::Nmi => {},
                    RoutableConnectors::Noon => {},
                    RoutableConnectors::Nuvei => {},
                    RoutableConnectors::Opennode => {},
                    RoutableConnectors::Payme => {},
                    RoutableConnectors::Paypal => {},
                    RoutableConnectors::Payu => {},
                    RoutableConnectors::Placetopay => {},
                    RoutableConnectors::Powertranz => {},
                    RoutableConnectors::Prophetpay => {},
                    RoutableConnectors::Rapyd => {},
                    RoutableConnectors::Shift4 => {},
                    RoutableConnectors::Square => {},
                    RoutableConnectors::Stax => {},
                    RoutableConnectors::Stripe => {},
                    RoutableConnectors::Trustpay => {},
                    RoutableConnectors::Tsys => {},
                    RoutableConnectors::Volt => {},
                    RoutableConnectors::Wise => {},
                    RoutableConnectors::Worldline => {},
                    RoutableConnectors::Worldpay => {},
                    RoutableConnectors::Zen => {},
                    RoutableConnectors::Zsl => {},
                }
            }
            Err(ParseError::VariantNotFound)
        }
    }

    /// No two variants share a wire name.
    pub proof fn lemma_wire_names_distinct(a: Self, b: Self)
        requires
            a.wire_name() == b.wire_name(),
        ensures
            a == b,
    {
        reveal_strlit("phonypay");
        reveal_strlit("fauxpay");
        reveal_strlit("pretendpay");
        reveal_strlit("stripe_test");
        reveal_strlit("adyen_test");
        reveal_strlit("checkout_test");
        reveal_strlit("paypal_test");
        reveal_strlit("aci");
        reveal_strlit("adyen");
        reveal_strlit("airwallex");
        reveal_strlit("authorizedotnet");
        reveal_strlit("bambora");
        reveal_strlit("bankofamerica");
        reveal_strlit("billwerk");
        reveal_strlit("bitpay");
        reveal_strlit("bluesnap");
        reveal_strlit("boku");
        reveal_strlit("braintree");
        reveal_strlit("cashtocode");
        reveal_strlit("checkout");
        reveal_strlit("coinbase");
        reveal_strlit("cryptopay");
        reveal_strlit("cybersource");
        reveal_strlit("dlocal");
        reveal_strlit("esnekpos");
        reveal_strlit("fiserv");
        reveal_strlit("forte");
        reveal_strlit("globalpay");
        reveal_strlit("globepay");
        reveal_strlit("gocardless");
        reveal_strlit("helcim");
        reveal_strlit("iatapay");
        reveal_strlit("klarna");
        reveal_strlit("mollie");
        reveal_strlit("multisafepay");
        reveal_strlit("nexinets");
        reveal_strlit("nmi");
        reveal_strlit("noon");
        reveal_strlit("nuvei");
        reveal_strlit("opennode");
        reveal_strlit("payme");
        reveal_strlit("paypal");
        reveal_strlit("payu");
        reveal_strlit("placetopay");
        reveal_strlit("powertranz");
        reveal_strlit("prophetpay");
        reveal_strlit("rapyd");
        reveal_strlit("shift4");
        reveal_strlit("square");
        reveal_strlit("stax");
        reveal_strlit("stripe");
        reveal_strlit("trustpay");
        reveal_strlit("tsys");
        reveal_strlit("volt");
        reveal_strlit("wise");
        reveal_strlit("worldline");
        reveal_strlit("worldpay");
        reveal_strlit("zen");
        reveal_strlit("zsl");
        assert("phonypay"@.len() == 8 && "phonypay"@[0] == 'p' && "phonypay"@[1] == 'h');
        assert("fauxpay"@.len() == 7 && "fauxpay"@[0] == 'f');
        assert("pretendpay"@.len() == 10 && "pretendpay"@[2] == 'e');
        assert("stripe_test"@.len() == 11 && "stripe_test"@[0] == 's');
        assert("adyen_test"@.len() == 10 && "adyen_test"@[2] == 'y');
        assert("checkout_test"@.len() == 13 && "checkout_test"@[0] == 'c');
        assert("paypal_test"@.len() == 11 && "paypal_test"@[0] == 'p');
        assert("aci"@.len() == 3 && "aci"@[1] == 'c');
        assert("adyen"@.len() == 5 && "adyen"@[0] == 'a');
        assert("airwallex"@.len() == 9 && "airwallex"@[0] == 'a');
        assert("authorizedotnet"@.len() == 15);
        assert("bambora"@.len() == 7 && "bambora"@[0] == 'b');
        assert("bankofamerica"@.len() == 13 && "bankofamerica"@[0] == 'b');
        assert("billwerk"@.len() == 8 && "billwerk"@[0] == 'b' && "billwerk"@[1] == 'i');
        assert("bitpay"@.len() == 6 && "bitpay"@[0] == 'b' && "bitpay"@[2] == 't');
        assert("bluesnap"@.len() == 8 && "bluesnap"@[0] == 'b' && "bluesnap"@[1] == 'l');
        assert("boku"@.len() == 4 && "boku"@[0] == 'b');
        assert("braintree"@.len() == 9 && "braintree"@[0] == 'b');
        assert("cashtocode"@.len() == 10 && "cashtocode"@[2] == 's');
        assert("checkout"@.len() == 8 && "checkout"@[0] == 'c' && "checkout"@[1] == 'h');
        assert("coinbase"@.len() == 8 && "coinbase"@[0] == 'c' && "coinbase"@[1] == 'o');
        assert("cryptopay"@.len() == 9 && "cryptopay"@[0] == 'c');
        assert("cybersource"@.len() == 11 && "cybersource"@[0] == 'c');
        assert("dlocal"@.len() == 6 && "dlocal"@[0] == 'd' && "dlocal"@[2] == 'o');
        assert("esnekpos"@.len() == 8 && "esnekpos"@[0] == 'e' && "esnekpos"@[1] == 's');
        assert("fiserv"@.len() == 6 && "fiserv"@[0] == 'f' && "fiserv"@[2] == 's');
        assert("forte"@.len() == 5 && "forte"@[0] == 'f');
        assert("globalpay"@.len() == 9 && "globalpay"@[0] == 'g');
        assert("globepay"@.len() == 8 && "globepay"@[0] == 'g' && "globepay"@[1] == 'l');
        assert("gocardless"@.len() == 10 && "gocardless"@[2] == 'c');
        assert("helcim"@.len() == 6 && "helcim"@[0] == 'h' && "helcim"@[2] == 'l');
        assert("iatapay"@.len() == 7 && "iatapay"@[0] == 'i');
        assert("klarna"@.len() == 6 && "klarna"@[0] == 'k' && "klarna"@[2] == 'a');
        assert("mollie"@.len() == 6 && "mollie"@[0] == 'm' && "mollie"@[2] == 'l');
        assert("multisafepay"@.len() == 12);
        assert("nexinets"@.len() == 8 && "nexinets"@[0] == 'n' && "nexinets"@[1] == 'e');
        assert("nmi"@.len() == 3 && "nmi"@[1] == 'm');
        assert("noon"@.len() == 4 && "noon"@[0] == 'n');
        assert("nuvei"@.len() == 5 && "nuvei"@[0] == 'n');
        assert("opennode"@.len() == 8 && "opennode"@[0] == 'o' && "opennode"@[1] == 'p');
        assert("payme"@.len() == 5 && "payme"@[0] == 'p');
        assert("paypal"@.len() == 6 && "paypal"@[0] == 'p' && "paypal"@[2] == 'y');
        assert("payu"@.len() == 4 && "payu"@[0] == 'p');
        assert("placetopay"@.len() == 10 && "placetopay"@[2] == 'a');
        assert("powertranz"@.len() == 10 && "powertranz"@[2] == 'w');
        assert("prophetpay"@.len() == 10 && "prophetpay"@[2] == 'o');
        assert("rapyd"@.len() == 5 && "rapyd"@[0] == 'r');
        assert("shift4"@.len() == 6 && "shift4"@[0] == 's' && "shift4"@[2] == 'i');
        assert("square"@.len() == 6 && "square"@[0] == 's' && "square"@[2] == 'u');
        assert("stax"@.len() == 4 && "stax"@[0] == 's');
        assert("stripe"@.len() == 6 && "stripe"@[0] == 's' && "stripe"@[2] == 'r');
        assert("trustpay"@.len() == 8 && "trustpay"@[0] == 't' && "trustpay"@[1] == 'r');
        assert("tsys"@.len() == 4 && "tsys"@[0] == 't');
        assert("volt"@.len() == 4 && "volt"@[0] == 'v');
        assert("wise"@.len() == 4 && "wise"@[0] == 'w');
        assert("worldline"@.len() == 9 && "worldline"@[0] == 'w');
        assert("worldpay"@.len() == 8 && "worldpay"@[0] == 'w' && "worldpay"@[1] == 'o');
        assert("zen"@.len() == 3 && "zen"@[1] == 'e');
        assert("zsl"@.len() == 3 && "zsl"@[1] == 's');
    }

    /// A variant is the one that travels under its own wire name.
    pub proof fn lemma_named(v: Self, s: Seq<char>)
        requires
            v.wire_name() == s,
        ensures
            Self::named(s) == Some(v),
    {
        let w = choose|w: RoutableConnectors| w.wire_name() == s;
        Self::lemma_wire_names_distinct(w, v);
    }

    /// Encoding a variant to its wire name and decoding that name gives the
    /// variant back, and a name decodes to a variant only if it is that
    /// variant's wire name.
    pub proof fn lemma_wire_name_round_trip(v: Self, s: Seq<char>)
        ensures
            Self::named(v.wire_name()) == Some(v),
            Self::named(s) == Some(v) ==> s == v.wire_name(),
    {
        Self::lemma_named(v, v.wire_name());
    }
}

impl PayoutConnectors {
    /// The same connector as a routable one.
    pub open spec fn routable(self) -> RoutableConnectors {
        match self {
            PayoutConnectors::Adyen => RoutableConnectors::Adyen,
            PayoutConnectors::Wise => RoutableConnectors::Wise,
        }
    }

    /// A payout connector keeps its wire name when it is made routable, and
    /// two payout connectors stay apart.
    pub proof fn lemma_routable(a: Self, b: Self)
        ensures
            a.routable().wire_name() == a.wire_name(),
            RoutableConnectors::named(a.wire_name()) == Some(a.routable()),
            a.routable() == b.routable() ==> a == b,
    {
        RoutableConnectors::lemma_named(a.routable(), a.wire_name());
    }
}

impl From<PayoutConnectors> for RoutableConnectors {
    /// Every payout connector can be routed to; it stays the same connector.
    fn from(value: PayoutConnectors) -> (connector: Self) {
        match value {
            PayoutConnectors::Adyen => Self::Adyen,
            PayoutConnectors::Wise => Self::Wise,
        }
    }
}

impl FromSpecImpl<PayoutConnectors> for RoutableConnectors {
    open spec fn obeys_from_spec() -> bool {
        true
    }

    open spec fn from_spec(value: PayoutConnectors) -> Self {
        value.routable()
    }
}

/// The payment-method authentication connector named `connector_name`, if any.
pub fn convert_pm_auth_connector(connector_name: &str) -> (connector: Option<PmAuthConnectors>)
    ensures
        connector == PmAuthConnectors::named(connector_name@),
{
    match PmAuthConnectors::from_str(connector_name) {
        Ok(c) => Some(c),
        Err(_) => None,
    }
}

/// The authentication connector named `connector_name`, if any.
pub fn convert_authentication_connector(connector_name: &str) -> (connector: Option<
    AuthenticationConnectors,
>)
    ensures
        connector == AuthenticationConnectors::named(connector_name@),
{
    match AuthenticationConnectors::from_str(connector_name) {
        Ok(c) => Some(c),
        Err(_) => None,
    }
}

} // verus!
