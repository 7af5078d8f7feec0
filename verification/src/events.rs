//! The sink that receives redacted snapshots of what a connector was sent
//! and what it answered. Recording never changes what a step returns.

use vstd::prelude::*;
use crate::request::masked_fields;
use crate::request::FieldView;
use crate::request::Payload;

verus! {

/// The record of one exchange with a connector.
#[derive(Clone, PartialEq, Eq)]
pub struct ConnectorEvent {
    pub connector_name: String,
    pub flow: String,
    /// The response body, with every sensitive value masked.
    pub masked_response: Option<Payload>,
    /// What went wrong, with every sensitive value masked.
    pub error: Option<Payload>,
}

/// A payload held by an event as contracts see it.
pub open spec fn recorded(entry: Option<Payload>) -> Option<Seq<FieldView>> {
    match entry {
        Some(payload) => Some(payload@),
        None => None,
    }
}

/// What a sink holds after a step, given what the step recorded: the masked
/// form of `fields` as the response and everything else as before, or, where
/// the step recorded nothing, just what it held before.
pub open spec fn sink_after(
    before: ConnectorEvent,
    after: ConnectorEvent,
    fields: Option<Seq<FieldView>>,
) -> bool {
    match fields {
        Some(fields) => {
            &&& recorded(after.masked_response) == Some(masked_fields(fields))
            &&& after.error == before.error
            &&& after.connector_name == before.connector_name
            &&& after.flow == before.flow
        },
        None => after == before,
    }
}

impl ConnectorEvent {
    /// An event about `flow` at `connector_name` with nothing recorded yet.
    pub fn new(connector_name: String, flow: String) -> (event: Self)
        ensures
            event.connector_name == connector_name,
            event.flow == flow,
            event.masked_response is None,
            event.error is None,
    {
        ConnectorEvent { connector_name, flow, masked_response: None, error: None }
    }

    /// Records a response body. What is kept is the masked form of `body`.
    pub fn set_response_body(&mut self, body: &Payload)
        ensures
            recorded(final(self).masked_response) == Some(masked_fields(body@)),
            final(self).error == old(self).error,
            final(self).connector_name == old(self).connector_name,
            final(self).flow == old(self).flow,
    {
        self.masked_response = Some(body.masked());
    }

    /// Records an error. What is kept is the masked form of `error`.
    pub fn set_error(&mut self, error: &Payload)
        ensures
            recorded(final(self).error) == Some(masked_fields(error@)),
            final(self).masked_response == old(self).masked_response,
            final(self).connector_name == old(self).connector_name,
            final(self).flow == old(self).flow,
    {
        self.error = Some(error.masked());
    }
}

} // verus!
