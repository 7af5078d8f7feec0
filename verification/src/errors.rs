//! The failures that a connector adapter reports to its caller.

use vstd::prelude::*;

verus! {

/// Why a step of a connector adapter did not produce its result.
#[derive(Clone, Debug, PartialEq, Eq)]
pub enum ConnectorError {
    /// The step is deliberately not implemented for this connector and flow;
    /// the text names the operation.
    NotImplemented(String),
    /// The flow is categorically unavailable at the connector.
    FlowNotSupported { flow: String, connector: String },
    /// The payload on the wire did not match the expected schema.
    ResponseDeserializationFailed,
    /// The connector has no webhook contract.
    WebhooksNotImplemented,
}

impl ConnectorError {
    /// Whether the failure is one that building a request may end in: the
    /// step is not implemented, or the flow is not supported.
    pub open spec fn is_build_failure(self) -> bool {
        self is NotImplemented || self is FlowNotSupported
    }
}

} // verus!
