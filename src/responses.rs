use vstd::prelude::*;

use crate::link::LinkModel;

verus! {

/// The answer to a successful create-or-update call.
#[derive(Debug, Clone, PartialEq, Eq)]
pub struct CreateLinkResponse {
    /// The link's own URL, where visitors are redirected from.
    pub url: String,
    /// The URL the link redirects to.
    pub original_url: String,
    /// Whether the call replaced an existing link.
    pub overwritten: bool,
    /// When the link expires, if it does.
    pub expiry_timestamp: Option<u64>,
    /// How many views the link allows, if it is limited.
    pub max_views: Option<u64>,
    /// Whether the link is disabled.
    pub disabled: bool,
}

impl CreateLinkResponse {
    /// Builds the answer for the stored `link_model`, reached at `web_url`.
    pub fn from_model(link_model: &LinkModel, overwritten: bool, web_url: String) -> (r: Self)
        ensures
            r.url == web_url,
            r.original_url@ == link_model.url@,
            r.overwritten == overwritten,
            r.expiry_timestamp == link_model.expiry_timestamp,
            r.max_views == link_model.max_views,
            r.disabled == link_model.disabled,
    {
        CreateLinkResponse {
            url: web_url,
            original_url: link_model.url.clone(),
            overwritten,
            expiry_timestamp: link_model.expiry_timestamp,
            max_views: link_model.max_views,
            disabled: link_model.disabled,
        }
    }
}

} // verus!
