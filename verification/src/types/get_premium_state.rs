use vstd::prelude::*;

verus! {

use crate::utils::fresh_request_extra;

/// Returns state of Telegram Premium subscription and promotion videos for Premium features
#[derive(Debug, Clone, PartialEq)]
pub struct GetPremiumState {
    pub extra: Option<String>,
    pub client_id: Option<i32>,
    pub td_type: String,
}

impl GetPremiumState {
    pub fn builder() -> (r: GetPremiumStateBuilder)
        ensures
            r.inner.extra is Some,
            r.inner.extra->0@.len() == 36,
            r.inner.client_id is None,
            r.inner.td_type@ == "getPremiumState"@,
    {
        let inner = GetPremiumState {
            extra: Some(fresh_request_extra()),
            client_id: None,
            td_type: "getPremiumState".to_string(),
        };
        GetPremiumStateBuilder { inner }
    }
}

pub struct GetPremiumStateBuilder {
    pub inner: GetPremiumState,
}

impl GetPremiumStateBuilder {
    pub fn build(self) -> (r: GetPremiumState)
        ensures
            r == self.inner,
    {
        self.inner
    }
}

} // verus!
