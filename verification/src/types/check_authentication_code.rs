use vstd::prelude::*;

verus! {

use crate::utils::fresh_request_extra;

/// Checks the authentication code. Works only when the current authorization state is authorizationStateWaitCode
#[derive(Debug, Clone, PartialEq)]
pub struct CheckAuthenticationCode {
    pub extra: Option<String>,
    pub client_id: Option<i32>,
    /// The verification code received via SMS, Telegram message, phone call, or flash call
    pub code: String,
    pub td_type: String,
}

impl CheckAuthenticationCode {
    pub fn builder() -> (r: RTDCheckAuthenticationCodeBuilder)
        ensures
            r.inner.extra is Some,
            r.inner.extra->0@.len() == 36,
            r.inner.client_id is None,
            r.inner.code@ == Seq::<char>::empty(),
            r.inner.td_type@ == "checkAuthenticationCode"@,
    {
        let inner = CheckAuthenticationCode {
            extra: Some(fresh_request_extra()),
            client_id: None,
            code: String::new(),
            td_type: "checkAuthenticationCode".to_string(),
        };
        RTDCheckAuthenticationCodeBuilder { inner }
    }

    pub fn code(&self) -> (r: &String)
        ensures
            *r == self.code,
    {
        &self.code
    }
}

pub struct RTDCheckAuthenticationCodeBuilder {
    pub inner: CheckAuthenticationCode,
}

impl RTDCheckAuthenticationCodeBuilder {
    pub fn build(self) -> (r: CheckAuthenticationCode)
        ensures
            r == self.inner,
    {
        self.inner
    }

    pub fn code(self, code: String) -> (r: Self)
        ensures
            r.inner == (CheckAuthenticationCode { code: code, ..self.inner }),
    {
        let mut inner = self.inner;
        inner.code = code;
        RTDCheckAuthenticationCodeBuilder { inner }
    }
}

} // verus!
