//! Enumerations shared across the hub and their wire names.
//!
//! Every enumeration that travels on the wire does so under a fixed
//! lower-snake-case name per variant. `as_str` and `to_string` encode,
//! `from_str` decodes, and for each of them encoding and decoding are proved
//! to be inverse to each other.

pub mod connector;
pub mod subsets;

pub use connector::AccessTokenSupport;
pub use connector::CapabilityProfile;
pub use connector::Connector;
pub use connector::ConnectorAllowList;
pub use subsets::convert_authentication_connector;
pub use subsets::convert_pm_auth_connector;
pub use subsets::AuthenticationConnectors;
pub use subsets::FrmConnectors;
pub use subsets::PayoutConnectors;
pub use subsets::PmAuthConnectors;
pub use subsets::RoutableConnectors;

use vstd::prelude::*;
use crate::text::text_eq;

verus! {

/// Why a wire name could not be decoded.
#[derive(Clone, Copy, Debug, PartialEq, Eq, Structural)]
pub enum ParseError {
    /// The name is not the wire name of any variant.
    VariantNotFound,
}

/// The kind of instrument a payment is made with.
#[derive(Clone, Copy, Debug, PartialEq, Eq, Structural, Hash)]
pub enum PaymentMethod {
    Card,
    CardRedirect,
    PayLater,
    Wallet,
    BankRedirect,
    BankTransfer,
    Crypto,
    BankDebit,
    Reward,
    Upi,
    Voucher,
    GiftCard,
}

impl PaymentMethod {
    /// The name under which the payment method travels on the wire.
    pub open spec fn wire_name(self) -> Seq<char> {
        match self {
            PaymentMethod::Card => "card"@,
            PaymentMethod::CardRedirect => "card_redirect"@,
            PaymentMethod::PayLater => "pay_later"@,
            PaymentMethod::Wallet => "wallet"@,
            PaymentMethod::BankRedirect => "bank_redirect"@,
            PaymentMethod::BankTransfer => "bank_transfer"@,
            PaymentMethod::Crypto => "crypto"@,
            PaymentMethod::BankDebit => "bank_debit"@,
            PaymentMethod::Reward => "reward"@,
            PaymentMethod::Upi => "upi"@,
            PaymentMethod::Voucher => "voucher"@,
            PaymentMethod::GiftCard => "gift_card"@,
        }
    }

    /// The payment method that travels under the name `s`, if there is one.
    pub open spec fn named(s: Seq<char>) -> Option<Self> {
        if exists|v: PaymentMethod| v.wire_name() == s {
            Some(choose|v: PaymentMethod| v.wire_name() == s)
        } else {
            None
        }
    }

    /// The wire name as a static string slice.
    pub fn as_str(&self) -> (name: &'static str)
        ensures
            name@ == self.wire_name(),
    {
        match self {
            PaymentMethod::Card => "card",
            PaymentMethod::CardRedirect => "card_redirect",
            PaymentMethod::PayLater => "pay_later",
            PaymentMethod::Wallet => "wallet",
            PaymentMethod::BankRedirect => "bank_redirect",
            PaymentMethod::BankTransfer => "bank_transfer",
            PaymentMethod::Crypto => "crypto",
            PaymentMethod::BankDebit => "bank_debit",
            PaymentMethod::Reward => "reward",
            PaymentMethod::Upi => "upi",
            PaymentMethod::Voucher => "voucher",
            PaymentMethod::GiftCard => "gift_card",
        }
    }

    /// The wire name as an owned string.
    pub fn to_string(&self) -> (name: String)
        ensures
            name@ == self.wire_name(),
    {
        self.as_str().to_owned()
    }

    /// Decodes a wire name. Succeeds exactly on the wire names of the
    /// variants; matching is exact and case-sensitive.
    pub fn from_str(s: &str) -> (decoded: Result<Self, ParseError>)
        ensures
            decoded == match Self::named(s@) {
                Some(v) => Ok::<Self, ParseError>(v),
                None => Err::<Self, ParseError>(ParseError::VariantNotFound),
            },
    {
        if text_eq(s, "card") {
            proof {
                Self::lemma_named(PaymentMethod::Card, s@);
            }
            Ok(PaymentMethod::Card)
        } else if text_eq(s, "card_redirect") {
            proof {
                Self::lemma_named(PaymentMethod::CardRedirect, s@);
            }
            Ok(PaymentMethod::CardRedirect)
        } else if text_eq(s, "pay_later") {
            proof {
                Self::lemma_named(PaymentMethod::PayLater, s@);
            }
            Ok(PaymentMethod::PayLater)
        } else if text_eq(s, "wallet") {
            proof {
                Self::lemma_named(PaymentMethod::Wallet, s@);
            }
            Ok(PaymentMethod::Wallet)
        } else if text_eq(s, "bank_redirect") {
            proof {
                Self::lemma_named(PaymentMethod::BankRedirect, s@);
            }
            Ok(PaymentMethod::BankRedirect)
        } else if text_eq(s, "bank_transfer") {
            proof {
                Self::lemma_named(PaymentMethod::BankTransfer, s@);
            }
            Ok(PaymentMethod::BankTransfer)
        } else if text_eq(s, "crypto") {
            proof {
                Self::lemma_named(PaymentMethod::Crypto, s@);
            }
            Ok(PaymentMethod::Crypto)
        } else if text_eq(s, "bank_debit") {
            proof {
                Self::lemma_named(PaymentMethod::BankDebit, s@);
            }
            Ok(PaymentMethod::BankDebit)
        } else if text_eq(s, "reward") {
            proof {
                Self::lemma_named(PaymentMethod::Reward, s@);
            }
            Ok(PaymentMethod::Reward)
        } else if text_eq(s, "upi") {
            proof {
                Self::lemma_named(PaymentMethod::Upi, s@);
            }
            Ok(PaymentMethod::Upi)
        } else if text_eq(s, "voucher") {
            proof {
                Self::lemma_named(PaymentMethod::Voucher, s@);
            }
            Ok(PaymentMethod::Voucher)
        } else if text_eq(s, "gift_card") {
            proof {
                Self::lemma_named(PaymentMethod::GiftCard, s@);
            }
            Ok(PaymentMethod::GiftCard)
        } else {
            assert forall|v: PaymentMethod| v.wire_name() != s@ by {
                match v {
                    PaymentMethod::Card => {},
                    PaymentMethod::CardRedirect => {},
                    PaymentMethod::PayLater => {},
                    PaymentMethod::Wallet => {},
                    PaymentMethod::BankRedirect => {},
                    PaymentMethod::BankTransfer => {},
                    PaymentMethod::Crypto => {},
                    PaymentMethod::BankDebit => {},
                    PaymentMethod::Reward => {},
                    PaymentMethod::Upi => {},
                    PaymentMethod::Voucher => {},
                    PaymentMethod::GiftCard => {},
                }
            }
            Err(ParseError::VariantNotFound)
        }
    }

    /// No two variants share a wire name.
    pub proof fn lemma_wire_names_distinct(a: Self, b: Self)
        requires
            a.wire_name() == b.wire_name(),
        ensures
            a == b,
    {
        reveal_strlit("card");
        reveal_strlit("card_redirect");
        reveal_strlit("pay_later");
        reveal_strlit("wallet");
        reveal_strlit("bank_redirect");
        reveal_strlit("bank_transfer");
        reveal_strlit("crypto");
        reveal_strlit("bank_debit");
        reveal_strlit("reward");
        reveal_strlit("upi");
        reveal_strlit("voucher");
        reveal_strlit("gift_card");
        assert("card"@.len() == 4);
        assert("card_redirect"@.len() == 13 && "card_redirect"@[0] == 'c' && "card_redirect"@[5] == 'r');
        assert("pay_later"@.len() == 9 && "pay_later"@[0] == 'p');
        assert("wallet"@.len() == 6 && "wallet"@[0] == 'w');
        assert("bank_redirect"@.len() == 13 && "bank_redirect"@[0] == 'b' && "bank_redirect"@[5] == 'r');
        assert("bank_transfer"@.len() == 13 && "bank_transfer"@[0] == 'b' && "bank_transfer"@[5] == 't');
        assert("crypto"@.len() == 6 && "crypto"@[0] == 'c');
        assert("bank_debit"@.len() == 10);
        assert("reward"@.len() == 6 && "reward"@[0] == 'r');
        assert("upi"@.len() == 3);
        assert("voucher"@.len() == 7);
        assert("gift_card"@.len() == 9 && "gift_card"@[0] == 'g');
    }

    /// A variant is the one that travels under its own wire name.
    pub proof fn lemma_named(v: Self, s: Seq<char>)
        requires
            v.wire_name() == s,
        ensures
            Self::named(s) == Some(v),
    {
        let w = choose|w: PaymentMethod| w.wire_name() == s;
        Self::lemma_wire_names_distinct(w, v);
    }

    /// Encoding a variant to its wire name and decoding that name gives the
    /// variant back, and a name decodes to a variant only if it is that
    /// variant's wire name.
    pub proof fn lemma_wire_name_round_trip(v: Self, s: Seq<char>)
        ensures
            Self::named(v.wire_name()) == Some(v),
            Self::named(s) == Some(v) ==> s == v.wire_name(),
    {
        Self::lemma_named(v, v.wire_name());
    }
}

/// The routing algorithm to be used to process the incoming request from
/// merchant to outgoing payment processor or payment method. The default is
/// 'Custom'.
#[derive(Clone, Copy, Debug, PartialEq, Eq, Structural, Hash)]
pub enum RoutingAlgorithm {
    RoundRobin,
    MaxConversion,
    MinCost,
    Custom,
}

impl RoutingAlgorithm {
    /// The name under which the routing algorithm travels on the wire.
    pub open spec fn wire_name(self) -> Seq<char> {
        match self {
            RoutingAlgorithm::RoundRobin => "round_robin"@,
            RoutingAlgorithm::MaxConversion => "max_conversion"@,
            RoutingAlgorithm::MinCost => "min_cost"@,
            RoutingAlgorithm::Custom => "custom"@,
        }
    }

    /// The routing algorithm that travels under the name `s`, if there is one.
    pub open spec fn named(s: Seq<char>) -> Option<Self> {
        if exists|v: RoutingAlgorithm| v.wire_name() == s {
            Some(choose|v: RoutingAlgorithm| v.wire_name() == s)
        } else {
            None
        }
    }

    /// The wire name as a static string slice.
    pub fn as_str(&self) -> (name: &'static str)
        ensures
            name@ == self.wire_name(),
    {
        match self {
            RoutingAlgorithm::RoundRobin => "round_robin",
            RoutingAlgorithm::MaxConversion => "max_conversion",
            RoutingAlgorithm::MinCost => "min_cost",
            RoutingAlgorithm::Custom => "custom",
        }
    }

    /// The wire name as an owned string.
    pub fn to_string(&self) -> (name: String)
        ensures
            name@ == self.wire_name(),
    {
        self.as_str().to_owned()
    }

    /// Decodes a wire name. Succeeds exactly on the wire names of the
    /// variants; matching is exact and case-sensitive.
    pub fn from_str(s: &str) -> (decoded: Result<Self, ParseError>)
        ensures
            decoded == match Self::named(s@) {
                Some(v) => Ok::<Self, ParseError>(v),
                None => Err::<Self, ParseError>(ParseError::VariantNotFound),
            },
    {
        if text_eq(s, "round_robin") {
            proof {
                Self::lemma_named(RoutingAlgorithm::RoundRobin, s@);
            }
            Ok(RoutingAlgorithm::RoundRobin)
        } else if text_eq(s, "max_conversion") {
            proof {
                Self::lemma_named(RoutingAlgorithm::MaxConversion, s@);
            }
            Ok(RoutingAlgorithm::MaxConversion)
        } else if text_eq(s, "min_cost") {
            proof {
                Self::lemma_named(RoutingAlgorithm::MinCost, s@);
            }
            Ok(RoutingAlgorithm::MinCost)
        } else if text_eq(s, "custom") {
            proof {
                Self::lemma_named(RoutingAlgorithm::Custom, s@);
            }
            Ok(RoutingAlgorithm::Custom)
        } else {
            assert forall|v: RoutingAlgorithm| v.wire_name() != s@ by {
                match v {
                    RoutingAlgorithm::RoundRobin => {},
                    RoutingAlgorithm::MaxConversion => {},
                    RoutingAlgorithm::MinCost => {},
                    RoutingAlgorithm::Custom => {},
                }
            }
            Err(ParseError::VariantNotFound)
        }
    }

    /// No two variants share a wire name.
    pub proof fn lemma_wire_names_distinct(a: Self, b: Self)
        requires
            a.wire_name() == b.wire_name(),
        ensures
            a == b,
    {
        reveal_strlit("round_robin");
        reveal_strlit("max_conversion");
        reveal_strlit("min_cost");
        reveal_strlit("custom");
        assert("round_robin"@.len() == 11);
        assert("max_conversion"@.len() == 14);
        assert("min_cost"@.len() == 8);
        assert("custom"@.len() == 6);
    }

    /// A variant is the one that travels under its own wire name.
    pub proof fn lemma_named(v: Self, s: Seq<char>)
        requires
            v.wire_name() == s,
        ensures
            Self::named(s) == Some(v),
    {
        let w = choose|w: RoutingAlgorithm| w.wire_name() == s;
        Self::lemma_wire_names_distinct(w, v);
    }

    /// Encoding a variant to its wire name and decoding that name gives the
    /// variant back, and a name decodes to a variant only if it is that
    /// variant's wire name.
    pub proof fn lemma_wire_name_round_trip(v: Self, s: Seq<char>)
        ensures
            Self::named(v.wire_name()) == Some(v),
            Self::named(s) == Some(v) ==> s == v.wire_name(),
    {
        Self::lemma_named(v, v.wire_name());
    }
}

impl Default for RoutingAlgorithm {
    fn default() -> (algorithm: Self)
        ensures
            algorithm == RoutingAlgorithm::Custom,
    {
        RoutingAlgorithm::Custom
    }
}

/// What to do with a payment that fraud review has flagged.
#[derive(Clone, Copy, Debug, PartialEq, Eq, Structural, Hash)]
pub enum FrmAction {
    CancelTxn,
    AutoRefund,
    ManualReview,
}

impl FrmAction {
    /// The name under which the action travels on the wire.
    pub open spec fn wire_name(self) -> Seq<char> {
        match self {
            FrmAction::CancelTxn => "cancel_txn"@,
            FrmAction::AutoRefund => "auto_refund"@,
            FrmAction::ManualReview => "manual_review"@,
        }
    }

    /// The action that travels under the name `s`, if there is one.
    pub open spec fn named(s: Seq<char>) -> Option<Self> {
        if exists|v: FrmAction| v.wire_name() == s {
            Some(choose|v: FrmAction| v.wire_name() == s)
        } else {
            None
        }
    }

    /// The wire name as a static string slice.
    pub fn as_str(&self) -> (name: &'static str)
        ensures
            name@ == self.wire_name(),
    {
        match self {
            FrmAction::CancelTxn => "cancel_txn",
            FrmAction::AutoRefund => "auto_refund",
            FrmAction::ManualReview => "manual_review",
        }
    }

    /// The wire name as an owned string.
    pub fn to_string(&self) -> (name: String)
        ensures
            name@ == self.wire_name(),
    {
        self.as_str().to_owned()
    }

    /// Decodes a wire name. Succeeds exactly on the wire names of the
    /// variants; matching is exact and case-sensitive.
    pub fn from_str(s: &str) -> (decoded: Result<Self, ParseError>)
        ensures
            decoded == match Self::named(s@) {
                Some(v) => Ok::<Self, ParseError>(v),
                None => Err::<Self, ParseError>(ParseError::VariantNotFound),
            },
    {
        if text_eq(s, "cancel_txn") {
            proof {
                Self::lemma_named(FrmAction::CancelTxn, s@);
            }
            Ok(FrmAction::CancelTxn)
        } else if text_eq(s, "auto_refund") {
            proof {
                Self::lemma_named(FrmAction::AutoRefund, s@);
            }
            Ok(FrmAction::AutoRefund)
        } else if text_eq(s, "manual_review") {
            proof {
                Self::lemma_named(FrmAction::ManualReview, s@);
            }
            Ok(FrmAction::ManualReview)
        } else {
            assert forall|v: FrmAction| v.wire_name() != s@ by {
                match v {
                    FrmAction::CancelTxn => {},
                    FrmAction::AutoRefund => {},
                    FrmAction::ManualReview => {},
                }
            }
            Err(ParseError::VariantNotFound)
        }
    }

    /// No two variants share a wire name.
    pub proof fn lemma_wire_names_distinct(a: Self, b: Self)
        requires
            a.wire_name() == b.wire_name(),
        ensures
            a == b,
    {
        reveal_strlit("cancel_txn");
        reveal_strlit("auto_refund");
        reveal_strlit("manual_review");
        assert("cancel_txn"@.len() == 10);
        assert("auto_refund"@.len() == 11);
        assert("manual_review"@.len() == 13);
    }

    /// A variant is the one that travels under its own wire name.
    pub proof fn lemma_named(v: Self, s: Seq<char>)
        requires
            v.wire_name() == s,
        ensures
            Self::named(s) == Some(v),
    {
        let w = choose|w: FrmAction| w.wire_name() == s;
        Self::lemma_wire_names_distinct(w, v);
    }

    /// Encoding a variant to its wire name and decoding that name gives the
    /// variant back, and a name decodes to a variant only if it is that
    /// variant's wire name.
    pub proof fn lemma_wire_name_round_trip(v: Self, s: Seq<char>)
        ensures
            Self::named(v.wire_name()) == Some(v),
            Self::named(s) == Some(v) ==> s == v.wire_name(),
    {
        Self::lemma_named(v, v.wire_name());
    }
}

/// Whether fraud review runs before or after the payment.
#[derive(Clone, Copy, Debug, PartialEq, Eq, Structural, Hash)]
pub enum FrmPreferredFlowTypes {
    Pre,
    Post,
}

impl FrmPreferredFlowTypes {
    /// The name under which the flow type travels on the wire.
    pub open spec fn wire_name(self) -> Seq<char> {
        match self {
            FrmPreferredFlowTypes::Pre => "pre"@,
            FrmPreferredFlowTypes::Post => "post"@,
        }
    }

    /// The flow type that travels under the name `s`, if there is one.
    pub open spec fn named(s: Seq<char>) -> Option<Self> {
        if exists|v: FrmPreferredFlowTypes| v.wire_name() == s {
            Some(choose|v: FrmPreferredFlowTypes| v.wire_name() == s)
        } else {
            None
        }
    }

    /// The wire name as a static string slice.
    pub fn as_str(&self) -> (name: &'static str)
        ensures
            name@ == self.wire_name(),
    {
        match self {
            FrmPreferredFlowTypes::Pre => "pre",
            FrmPreferredFlowTypes::Post => "post",
        }
    }

    /// The wire name as an owned string.
    pub fn to_string(&self) -> (name: String)
        ensures
            name@ == self.wire_name(),
    {
        self.as_str().to_owned()
    }

    /// Decodes a wire name. Succeeds exactly on the wire names of the
    /// variants; matching is exact and case-sensitive.
    pub fn from_str(s: &str) -> (decoded: Result<Self, ParseError>)
        ensures
            decoded == match Self::named(s@) {
                Some(v) => Ok::<Self, ParseError>(v),
                None => Err::<Self, ParseError>(ParseError::VariantNotFound),
            },
    {
        if text_eq(s, "pre") {
            proof {
                Self::lemma_named(FrmPreferredFlowTypes::Pre, s@);
            }
            Ok(FrmPreferredFlowTypes::Pre)
        } else if text_eq(s, "post") {
            proof {
                Self::lemma_named(FrmPreferredFlowTypes::Post, s@);
            }
            Ok(FrmPreferredFlowTypes::Post)
        } else {
            assert forall|v: FrmPreferredFlowTypes| v.wire_name() != s@ by {
                match v {
                    FrmPreferredFlowTypes::Pre => {},
                    FrmPreferredFlowTypes::Post => {},
                }
            }
            Err(ParseError::VariantNotFound)
        }
    }

    /// No two variants share a wire name.
    pub proof fn lemma_wire_names_distinct(a: Self, b: Self)
        requires
            a.wire_name() == b.wire_name(),
        ensures
            a == b,
    {
        reveal_strlit("pre");
        reveal_strlit("post");
        assert("pre"@.len() == 3);
        assert("post"@.len() == 4);
    }

    /// A variant is the one that travels under its own wire name.
    pub proof fn lemma_named(v: Self, s: Seq<char>)
        requires
            v.wire_name() == s,
        ensures
            Self::named(s) == Some(v),
    {
        let w = choose|w: FrmPreferredFlowTypes| w.wire_name() == s;
        Self::lemma_wire_names_distinct(w, v);
    }

    /// Encoding a variant to its wire name and decoding that name gives the
    /// variant back, and a name decodes to a variant only if it is that
    /// variant's wire name.
    pub proof fn lemma_wire_name_round_trip(v: Self, s: Seq<char>)
        ensures
            Self::named(v.wire_name()) == Some(v),
            Self::named(s) == Some(v) ==> s == v.wire_name(),
    {
        Self::lemma_named(v, v.wire_name());
    }
}

/// How a payment that did not go through is taken up again.
#[derive(Clone, Copy, Debug, PartialEq, Eq, Structural, Hash)]
pub enum RetryAction {
    /// Payment can be retried from the client side until the payment is successful or payment expires or the attempts(configured by the merchant) for payment are exhausted
    ManualRetry,
    /// Denotes that the payment is requeued
    Requeue,
}

impl RetryAction {
    /// The name under which the retry action travels on the wire.
    pub open spec fn wire_name(self) -> Seq<char> {
        match self {
            RetryAction::ManualRetry => "manual_retry"@,
            RetryAction::Requeue => "requeue"@,
        }
    }

    /// The retry action that travels under the name `s`, if there is one.
    pub open spec fn named(s: Seq<char>) -> Option<Self> {
        if exists|v: RetryAction| v.wire_name() == s {
            Some(choose|v: RetryAction| v.wire_name() == s)
        } else {
            None
        }
    }

    /// The wire name as a static string slice.
    pub fn as_str(&self) -> (name: &'static str)
        ensures
            name@ == self.wire_name(),
    {
        match self {
            RetryAction::ManualRetry => "manual_retry",
            RetryAction::Requeue => "requeue",
        }
    }

    /// The wire name as an owned string.
    pub fn to_string(&self) -> (name: String)
        ensures
            name@ == self.wire_name(),
    {
        self.as_str().to_owned()
    }

    /// Decodes a wire name. Succeeds exactly on the wire names of the
    /// variants; matching is exact and case-sensitive.
    pub fn from_str(s: &str) -> (decoded: Result<Self, ParseError>)
        ensures
            decoded == match Self::named(s@) {
                Some(v) => Ok::<Self, ParseError>(v),
                None => Err::<Self, ParseError>(ParseError::VariantNotFound),
            },
    {
        if text_eq(s, "manual_retry") {
            proof {
                Self::lemma_named(RetryAction::ManualRetry, s@);
            }
            Ok(RetryAction::ManualRetry)
        } else if text_eq(s, "requeue") {
            proof {
                Self::lemma_named(RetryAction::Requeue, s@);
            }
            Ok(RetryAction::Requeue)
        } else {
            assert forall|v: RetryAction| v.wire_name() != s@ by {
                match v {
                    RetryAction::ManualRetry => {},
                    RetryAction::Requeue => {},
                }
            }
            Err(ParseError::VariantNotFound)
        }
    }

    /// No two variants share a wire name.
    pub proof fn lemma_wire_names_distinct(a: Self, b: Self)
        requires
            a.wire_name() == b.wire_name(),
        ensures
            a == b,
    {
        reveal_strlit("manual_retry");
        reveal_strlit("requeue");
        assert("manual_retry"@.len() == 12);
        assert("requeue"@.len() == 7);
    }

    /// A variant is the one that travels under its own wire name.
    pub proof fn lemma_named(v: Self, s: Seq<char>)
        requires
            v.wire_name() == s,
        ensures
            Self::named(s) == Some(v),
    {
        let w = choose|w: RetryAction| w.wire_name() == s;
        Self::lemma_wire_names_distinct(w, v);
    }

    /// Encoding a variant to its wire name and decoding that name gives the
    /// variant back, and a name decodes to a variant only if it is that
    /// variant's wire name.
    pub proof fn lemma_wire_name_round_trip(v: Self, s: Seq<char>)
        ensures
            Self::named(v.wire_name()) == Some(v),
            Self::named(s) == Some(v) ==> s == v.wire_name(),
    {
        Self::lemma_named(v, v.wire_name());
    }
}

/// Where card data is kept.
#[derive(Clone, Copy, Debug, PartialEq, Eq, Structural)]
pub enum LockerChoice {
    HyperswitchCardVault,
}

/// Why a response could not be resolved, with a hint for the merchant.
#[derive(Debug, Eq, PartialEq, Clone)]
pub struct UnresolvedResponseReason {
    pub code: String,
    /// A message to merchant to give hint on next action he/she should do to resolve
    pub message: String,
}

/// Possible field type of required fields in payment_method_data
#[derive(Clone, Debug, PartialEq, Eq, Hash)]
pub enum FieldType {
    UserCardNumber,
    UserCardExpiryMonth,
    UserCardExpiryYear,
    UserCardCvc,
    UserFullName,
    UserEmailAddress,
    UserPhoneNumber,
    /// phone number's country code
    UserCountryCode,
    /// for country inside payment method data ex- bank redirect
    UserCountry { options: Vec<String> },
    UserCurrency { options: Vec<String> },
    UserBillingName,
    UserAddressLine1,
    UserAddressLine2,
    UserAddressCity,
    UserAddressPincode,
    UserAddressState,
    UserAddressCountry { options: Vec<String> },
    UserBlikCode,
    UserBank,
    Text,
    DropDown { options: Vec<String> },
}

impl FieldType {
    /// The name under which the field type travels on the wire. The options
    /// of a variant are no part of it.
    pub open spec fn wire_name(self) -> Seq<char> {
        match self {
            FieldType::UserCardNumber => "user_card_number"@,
            FieldType::UserCardExpiryMonth => "user_card_expiry_month"@,
            FieldType::UserCardExpiryYear => "user_card_expiry_year"@,
            FieldType::UserCardCvc => "user_card_cvc"@,
            FieldType::UserFullName => "user_full_name"@,
            FieldType::UserEmailAddress => "user_email_address"@,
            FieldType::UserPhoneNumber => "user_phone_number"@,
            FieldType::UserCountryCode => "user_country_code"@,
            FieldType::UserCountry { .. } => "user_country"@,
            FieldType::UserCurrency { .. } => "user_currency"@,
            FieldType::UserBillingName => "user_billing_name"@,
            FieldType::UserAddressLine1 => "user_address_line1"@,
            FieldType::UserAddressLine2 => "user_address_line2"@,
            FieldType::UserAddressCity => "user_address_city"@,
            FieldType::UserAddressPincode => "user_address_pincode"@,
            FieldType::UserAddressState => "user_address_state"@,
            FieldType::UserAddressCountry { .. } => "user_address_country"@,
            FieldType::UserBlikCode => "user_blik_code"@,
            FieldType::UserBank => "user_bank"@,
            FieldType::Text => "text"@,
            FieldType::DropDown { .. } => "drop_down"@,
        }
    }

    /// The list of options that the field type carries, if its variant
    /// carries one.
    pub open spec fn carried(self) -> Option<Vec<String>> {
        match self {
            FieldType::UserCountry { options } => Some(options),
            FieldType::UserCurrency { options } => Some(options),
            FieldType::UserAddressCountry { options } => Some(options),
            FieldType::DropDown { options } => Some(options),
            _ => None,
        }
    }

    /// The options that the field type carries; none for a variant without.
    pub open spec fn options(self) -> Seq<String> {
        match self.carried() {
            Some(options) => options@,
            None => Seq::empty(),
        }
    }

    /// The wire name as a static string slice.
    pub fn as_str(&self) -> (name: &'static str)
        ensures
            name@ == self.wire_name(),
    {
        match self {
            FieldType::UserCardNumber => "user_card_number",
            FieldType::UserCardExpiryMonth => "user_card_expiry_month",
            FieldType::UserCardExpiryYear => "user_card_expiry_year",
            FieldType::UserCardCvc => "user_card_cvc",
            FieldType::UserFullName => "user_full_name",
            FieldType::UserEmailAddress => "user_email_address",
            FieldType::UserPhoneNumber => "user_phone_number",
            FieldType::UserCountryCode => "user_country_code",
            FieldType::UserCountry { .. } => "user_country",
            FieldType::UserCurrency { .. } => "user_currency",
            FieldType::UserBillingName => "user_billing_name",
            FieldType::UserAddressLine1 => "user_address_line1",
            FieldType::UserAddressLine2 => "user_address_line2",
            FieldType::UserAddressCity => "user_address_city",
            FieldType::UserAddressPincode => "user_address_pincode",
            FieldType::UserAddressState => "user_address_state",
            FieldType::UserAddressCountry { .. } => "user_address_country",
            FieldType::UserBlikCode => "user_blik_code",
            FieldType::UserBank => "user_bank",
            FieldType::Text => "text",
            FieldType::DropDown { .. } => "drop_down",
        }
    }

    /// The wire name as an owned string.
    pub fn to_string(&self) -> (name: String)
        ensures
            name@ == self.wire_name(),
    {
        self.as_str().to_owned()
    }

    /// Decodes a wire name. Succeeds exactly on the names of the field types;
    /// a decoded field type carries no options.
    pub fn from_str(s: &str) -> (decoded: Result<Self, ParseError>)
        ensures
            match decoded {
                Ok(field) => field.wire_name() == s@ && field.options().len() == 0,
                Err(e) => e == ParseError::VariantNotFound && forall|f: FieldType|
                    f.wire_name() != s@,
            },
    {
        if text_eq(s, "user_card_number") {
            Ok(FieldType::UserCardNumber)
        } else if text_eq(s, "user_card_expiry_month") {
            Ok(FieldType::UserCardExpiryMonth)
        } else if text_eq(s, "user_card_expiry_year") {
            Ok(FieldType::UserCardExpiryYear)
        } else if text_eq(s, "user_card_cvc") {
            Ok(FieldType::UserCardCvc)
        } else if text_eq(s, "user_full_name") {
            Ok(FieldType::UserFullName)
        } else if text_eq(s, "user_email_address") {
            Ok(FieldType::UserEmailAddress)
        } else if text_eq(s, "user_phone_number") {
            Ok(FieldType::UserPhoneNumber)
        } else if text_eq(s, "user_country_code") {
            Ok(FieldType::UserCountryCode)
        } else if text_eq(s, "user_country") {
            Ok(FieldType::UserCountry { options: Vec::new() })
        } else if text_eq(s, "user_currency") {
            Ok(FieldType::UserCurrency { options: Vec::new() })
        } else if text_eq(s, "user_billing_name") {
            Ok(FieldType::UserBillingName)
        } else if text_eq(s, "user_address_line1") {
            Ok(FieldType::UserAddressLine1)
        } else if text_eq(s, "user_address_line2") {
            Ok(FieldType::UserAddressLine2)
        } else if text_eq(s, "user_address_city") {
            Ok(FieldType::UserAddressCity)
        } else if text_eq(s, "user_address_pincode") {
            Ok(FieldType::UserAddressPincode)
        } else if text_eq(s, "user_address_state") {
            Ok(FieldType::UserAddressState)
        } else if text_eq(s, "user_address_country") {
            Ok(FieldType::UserAddressCountry { options: Vec::new() })
        } else if text_eq(s, "user_blik_code") {
            Ok(FieldType::UserBlikCode)
        } else if text_eq(s, "user_bank") {
            Ok(FieldType::UserBank)
        } else if text_eq(s, "text") {
            Ok(FieldType::Text)
        } else if text_eq(s, "drop_down") {
            Ok(FieldType::DropDown { options: Vec::new() })
        } else {
            assert forall|f: FieldType| f.wire_name() != s@ by {
                match f {
                    FieldType::UserCardNumber => {},
                    FieldType::UserCardExpiryMonth => {},
                    FieldType::UserCardExpiryYear => {},
                    FieldType::UserCardCvc => {},
                    FieldType::UserFullName => {},
                    FieldType::UserEmailAddress => {},
                    FieldType::UserPhoneNumber => {},
                    FieldType::UserCountryCode => {},
                    FieldType::UserCountry { .. } => {},
                    FieldType::UserCurrency { .. } => {},
                    FieldType::UserBillingName => {},
                    FieldType::UserAddressLine1 => {},
                    FieldType::UserAddressLine2 => {},
                    FieldType::UserAddressCity => {},
                    FieldType::UserAddressPincode => {},
                    FieldType::UserAddressState => {},
                    FieldType::UserAddressCountry { .. } => {},
                    FieldType::UserBlikCode => {},
                    FieldType::UserBank => {},
                    FieldType::Text => {},
                    FieldType::DropDown { .. } => {},
                }
            }
            Err(ParseError::VariantNotFound)
        }
    }

    /// Two field types with the same wire name that carry the same list of
    /// options are the same field type.
    pub proof fn lemma_wire_names_distinct(a: Self, b: Self)
        requires
            a.wire_name() == b.wire_name(),
            a.carried() == b.carried(),
        ensures
            a == b,
    {
        reveal_strlit("user_card_number");
        reveal_strlit("user_card_expiry_month");
        reveal_strlit("user_card_expiry_year");
        reveal_strlit("user_card_cvc");
        reveal_strlit("user_full_name");
        reveal_strlit("user_email_address");
        reveal_strlit("user_phone_number");
        reveal_strlit("user_country_code");
        reveal_strlit("user_country");
        reveal_strlit("user_currency");
        reveal_strlit("user_billing_name");
        reveal_strlit("user_address_line1");
        reveal_strlit("user_address_line2");
        reveal_strlit("user_address_city");
        reveal_strlit("user_address_pincode");
        reveal_strlit("user_address_state");
        reveal_strlit("user_address_country");
        reveal_strlit("user_blik_code");
        reveal_strlit("user_bank");
        reveal_strlit("text");
        reveal_strlit("drop_down");
        assert("user_card_number"@.len() == 16);
        assert("user_card_expiry_month"@.len() == 22);
        assert("user_card_expiry_year"@.len() == 21);
        assert("user_card_cvc"@.len() == 13 && "user_card_cvc"@[6] == 'a');
        assert("user_full_name"@.len() == 14 && "user_full_name"@[5] == 'f');
        assert("user_email_address"@.len() == 18 && "user_email_address"@[17] == 's');
        assert("user_phone_number"@.len() == 17 && "user_phone_number"@[5] == 'p');
        assert("user_country_code"@.len() == 17 && "user_country_code"@[5] == 'c');
        assert("user_country"@.len() == 12);
        assert("user_currency"@.len() == 13 && "user_currency"@[6] == 'u');
        assert("user_billing_name"@.len() == 17 && "user_billing_name"@[5] == 'b');
        assert("user_address_line1"@.len() == 18 && "user_address_line1"@[17] == '1');
        assert("user_address_line2"@.len() == 18 && "user_address_line2"@[17] == '2');
        assert("user_address_city"@.len() == 17 && "user_address_city"@[5] == 'a');
        assert("user_address_pincode"@.len() == 20 && "user_address_pincode"@[13] == 'p');
        assert("user_address_state"@.len() == 18 && "user_address_state"@[17] == 'e');
        assert("user_address_country"@.len() == 20 && "user_address_country"@[13] == 'c');
        assert("user_blik_code"@.len() == 14 && "user_blik_code"@[5] == 'b');
        assert("user_bank"@.len() == 9 && "user_bank"@[0] == 'u');
        assert("text"@.len() == 4);
        assert("drop_down"@.len() == 9 && "drop_down"@[0] == 'd');
    }
}

} // verus!
