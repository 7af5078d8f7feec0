//! Values that may be sensitive. A sensitive value is carried unchanged to
//! the connector and is replaced by a marker wherever it would be recorded.

use vstd::prelude::*;

verus! {

/// What stands in place of a sensitive value in every recorded snapshot.
pub const MASK_MARKER: &'static str = "*** alloc::string::String ***";

/// A text that is either sensitive (masked when recorded) or not.
#[derive(Clone, PartialEq, Eq)]
pub enum Maskable {
    /// A sensitive value, such as an API key.
    Masked(String),
    /// A value that may be recorded as it is.
    Normal(String),
}

impl Maskable {
    /// The real value.
    pub open spec fn inner(self) -> Seq<char> {
        match self {
            Maskable::Masked(value) => value@,
            Maskable::Normal(value) => value@,
        }
    }

    /// Whether the value is sensitive.
    pub open spec fn is_masked(self) -> bool {
        self is Masked
    }

    /// What a snapshot shows of the value: the marker if it is sensitive,
    /// the value itself otherwise.
    pub open spec fn shown(self) -> Seq<char> {
        if self.is_masked() {
            MASK_MARKER@
        } else {
            self.inner()
        }
    }

    /// Tags `value` as sensitive.
    pub fn new_masked(value: String) -> (tagged: Self)
        ensures
            tagged == Maskable::Masked(value),
    {
        Maskable::Masked(value)
    }

    /// Tags `value` as safe to record.
    pub fn new_normal(value: String) -> (tagged: Self)
        ensures
            tagged == Maskable::Normal(value),
    {
        Maskable::Normal(value)
    }

    /// Whether the value is sensitive.
    pub fn is_sensitive(&self) -> (sensitive: bool)
        ensures
            sensitive == self.is_masked(),
    {
        match self {
            Maskable::Masked(_) => true,
            Maskable::Normal(_) => false,
        }
    }

    /// The real value, sensitive or not. This is what goes to the connector.
    pub fn into_inner(self) -> (value: String)
        ensures
            value@ == self.inner(),
    {
        match self {
            Maskable::Masked(value) => value,
            Maskable::Normal(value) => value,
        }
    }

    /// The real value, borrowed.
    pub fn peek(&self) -> (value: &str)
        ensures
            value@ == self.inner(),
    {
        match self {
            Maskable::Masked(value) => value.as_str(),
            Maskable::Normal(value) => value.as_str(),
        }
    }

    /// The text that a snapshot records for the value.
    pub fn masked_text(&self) -> (text: String)
        ensures
            text@ == self.shown(),
    {
        match self {
            Maskable::Masked(_) => MASK_MARKER.to_owned(),
            Maskable::Normal(value) => value.clone(),
        }
    }
}

} // verus!
