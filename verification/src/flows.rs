//! The catalog of flows: the categories of operation that a connector may
//! be asked to perform. A flow is a tag without state; an envelope is bound
//! to its flow by its type.

use vstd::prelude::*;

verus! {

/// The flows of the catalog, as values.
#[derive(Clone, Copy, Debug, PartialEq, Eq, Structural, Hash)]
pub enum Flow {
    Authorize,
    PSync,
    Capture,
    Void,
    SetupMandate,
    Execute,
    RSync,
    AccessTokenAuth,
    Session,
    PaymentMethodToken,
    IncomingWebhook,
}

impl Flow {
    /// The name of the flow.
    pub open spec fn name(self) -> Seq<char> {
        match self {
            Flow::Authorize => "Authorize"@,
            Flow::PSync => "PSync"@,
            Flow::Capture => "Capture"@,
            Flow::Void => "Void"@,
            Flow::SetupMandate => "SetupMandate"@,
            Flow::Execute => "Execute"@,
            Flow::RSync => "RSync"@,
            Flow::AccessTokenAuth => "AccessTokenAuth"@,
            Flow::Session => "Session"@,
            Flow::PaymentMethodToken => "PaymentMethodToken"@,
            Flow::IncomingWebhook => "IncomingWebhook"@,
        }
    }

    /// The name of the flow.
    pub fn as_str(&self) -> (name: &'static str)
        ensures
            name@ == self.name(),
    {
        match self {
            Flow::Authorize => "Authorize",
            Flow::PSync => "PSync",
            Flow::Capture => "Capture",
            Flow::Void => "Void",
            Flow::SetupMandate => "SetupMandate",
            Flow::Execute => "Execute",
            Flow::RSync => "RSync",
            Flow::AccessTokenAuth => "AccessTokenAuth",
            Flow::Session => "Session",
            Flow::PaymentMethodToken => "PaymentMethodToken",
            Flow::IncomingWebhook => "IncomingWebhook",
        }
    }
}

/// A type that tags an envelope with its flow.
pub trait FlowMarker {
    /// The flow that the tag stands for.
    spec fn flow() -> Flow;

    /// The flow that the tag stands for.
    fn kind() -> (flow: Flow)
        ensures
            flow == Self::flow(),
    ;
}

/// Authorization of a payment.
#[derive(Clone, Copy, Debug, PartialEq, Eq, Structural)]
pub struct Authorize;

/// Re-query of the state of a payment.
#[derive(Clone, Copy, Debug, PartialEq, Eq, Structural)]
pub struct PSync;

/// Capture of an authorized payment.
#[derive(Clone, Copy, Debug, PartialEq, Eq, Structural)]
pub struct Capture;

/// Cancellation of an authorized payment.
#[derive(Clone, Copy, Debug, PartialEq, Eq, Structural)]
pub struct Void;

/// Set-up of a mandate for later payments.
#[derive(Clone, Copy, Debug, PartialEq, Eq, Structural)]
pub struct SetupMandate;

/// Execution of a refund.
#[derive(Clone, Copy, Debug, PartialEq, Eq, Structural)]
pub struct Execute;

/// Re-query of the state of a refund.
#[derive(Clone, Copy, Debug, PartialEq, Eq, Structural)]
pub struct RSync;

/// Acquisition of an access token.
#[derive(Clone, Copy, Debug, PartialEq, Eq, Structural)]
pub struct AccessTokenAuth;

/// Opening of a payment session.
#[derive(Clone, Copy, Debug, PartialEq, Eq, Structural)]
pub struct Session;

/// Tokenization of a payment method.
#[derive(Clone, Copy, Debug, PartialEq, Eq, Structural)]
pub struct PaymentMethodToken;

impl FlowMarker for Authorize {
    open spec fn flow() -> Flow {
        Flow::Authorize
    }

    fn kind() -> (flow: Flow) {
        Flow::Authorize
    }
}

impl FlowMarker for PSync {
    open spec fn flow() -> Flow {
        Flow::PSync
    }

    fn kind() -> (flow: Flow) {
        Flow::PSync
    }
}

impl FlowMarker for Capture {
    open spec fn flow() -> Flow {
        Flow::Capture
    }

    fn kind() -> (flow: Flow) {
        Flow::Capture
    }
}

impl FlowMarker for Void {
    open spec fn flow() -> Flow {
        Flow::Void
    }

    fn kind() -> (flow: Flow) {
        Flow::Void
    }
}

impl FlowMarker for SetupMandate {
    open spec fn flow() -> Flow {
        Flow::SetupMandate
    }

    fn kind() -> (flow: Flow) {
        Flow::SetupMandate
    }
}

impl FlowMarker for Execute {
    open spec fn flow() -> Flow {
        Flow::Execute
    }

    fn kind() -> (flow: Flow) {
        Flow::Execute
    }
}

impl FlowMarker for RSync {
    open spec fn flow() -> Flow {
        Flow::RSync
    }

    fn kind() -> (flow: Flow) {
        Flow::RSync
    }
}

impl FlowMarker for AccessTokenAuth {
    open spec fn flow() -> Flow {
        Flow::AccessTokenAuth
    }

    fn kind() -> (flow: Flow) {
        Flow::AccessTokenAuth
    }
}

impl FlowMarker for Session {
    open spec fn flow() -> Flow {
        Flow::Session
    }

    fn kind() -> (flow: Flow) {
        Flow::Session
    }
}

impl FlowMarker for PaymentMethodToken {
    open spec fn flow() -> Flow {
        Flow::PaymentMethodToken
    }

    fn kind() -> (flow: Flow) {
        Flow::PaymentMethodToken
    }
}

} // verus!
