//! Settings that the caller owns and the adapters read: where each
//! connector is reached.

use vstd::prelude::*;

verus! {

/// Where one connector is reached.
#[derive(Clone, Debug, PartialEq, Eq)]
pub struct ConnectorParams {
    /// The URL that every path of the connector is appended to.
    pub base_url: String,
    pub secondary_base_url: Option<String>,
}

/// The settings of the connectors, one entry per connector, each under the
/// connector's id.
#[derive(Clone, Debug, PartialEq, Eq)]
pub struct Connectors {
    pub esnekpos: ConnectorParams,
}

impl Connectors {
    /// The base URL that the settings hold under the connector id `id`, if
    /// they hold an entry under it.
    pub open spec fn base_url_of(self, id: Seq<char>) -> Option<Seq<char>> {
        if id == "esnekpos"@ {
            Some(self.esnekpos.base_url@)
        } else {
            None
        }
    }
}

} // verus!
