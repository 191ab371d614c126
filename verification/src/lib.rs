//! Decoders for single lines of the IGC flight-recorder log format.
//!
//! Each decoder turns one raw ASCII line, keyed by a leading discriminator
//! character and fixed-width sub-fields, into a strongly typed record value
//! or a descriptive error. Every decoder is a pure function: it reads its
//! input, allocates fresh output, and never panics on any ASCII input.
use vstd::prelude::*;

pub mod error;
pub mod laws;
pub mod records;

verus! {

/// A plain owned-string wrapper used for all free-text record fields.
/// It supports construction from an owned `String` and value equality.
#[derive(Debug, Clone)]
pub struct StrWrapper(pub String);

impl View for StrWrapper {
    type V = Seq<char>;

    open spec fn view(&self) -> Seq<char> {
        self.0@
    }
}

impl From<String> for StrWrapper {
    fn from(s: String) -> (r: StrWrapper) {
        StrWrapper(s)
    }
}

impl vstd::std_specs::convert::FromSpecImpl<String> for StrWrapper {
    open spec fn obeys_from_spec() -> bool {
        true
    }

    open spec fn from_spec(s: String) -> StrWrapper {
        StrWrapper(s)
    }
}

impl PartialEq for StrWrapper {
    fn eq(&self, other: &StrWrapper) -> (r: bool) {
        self.0 == other.0
    }
}

impl vstd::std_specs::cmp::PartialEqSpecImpl for StrWrapper {
    open spec fn obeys_eq_spec() -> bool {
        true
    }

    open spec fn eq_spec(&self, other: &StrWrapper) -> bool {
        self.0@ == other.0@
    }
}

} // verus!
