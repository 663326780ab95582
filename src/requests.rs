use vstd::prelude::*;

verus! {

/// The fields of a create-or-update request, as read from its JSON body.
#[derive(Debug, Clone, PartialEq, Eq)]
pub struct CreateLinkRequestBody {
    /// The target URL, as sent.
    pub url: String,
    /// Whether an existing link under the same key may be replaced.
    pub overwrite: bool,
    /// How long from now the link stays valid, in milliseconds.
    pub expire_in: Option<u64>,
    /// How many times the link may be viewed; zero is refused.
    pub max_views: Option<u64>,
    /// Whether the link is created disabled.
    pub disabled: bool,
}

} // verus!
