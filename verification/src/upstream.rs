//! What came back from a request to the identity provider, as plain values.
use vstd::prelude::*;

verus! {

/// The outcome of one HTTP request to the provider.
#[derive(Clone, Debug)]
pub enum UpstreamReply {
    /// No answer: the connection failed or the bounded wait ran out.
    Unreachable,
    /// An answer, with whether its status was a success and its body.
    Answered { success: bool, body: String },
}

impl UpstreamReply {
    /// Whether the provider answered with a success status.
    pub open spec fn is_success(&self) -> bool {
        *self matches UpstreamReply::Answered { success, .. } && success
    }
}

} // verus!
