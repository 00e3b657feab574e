//! Trace spans. Export to a tracing backend is not wired in; an inactive
//! span records nothing.
use vstd::prelude::*;

verus! {

/// A trace span.
pub struct JaegerSpan {
    pub active: bool,
}

impl JaegerSpan {
    /// Attaches an attribute to the span.
    pub fn set_attribute(&self, _key: &str, _value: &str) {
    }

    /// Records an event in the span.
    pub fn add_event(&self, _name: &str) {
    }

    /// Closes the span.
    pub fn end(self) {
    }
}

} // verus!
