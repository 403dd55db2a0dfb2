use vstd::prelude::*;

verus! {

use crate::utils::fresh_request_extra;

/// Checks the authentication password for correctness. Works only when the current authorization state is authorizationStateWaitPassword
#[derive(Debug, Clone, PartialEq)]
pub struct CheckAuthenticationPassword {
    pub extra: Option<String>,
    pub client_id: Option<i32>,
    /// The password to check
    pub password: String,
    pub td_type: String,
}

impl CheckAuthenticationPassword {
    pub fn builder() -> (r: RTDCheckAuthenticationPasswordBuilder)
        ensures
            r.inner.extra is Some,
            r.inner.extra->0@.len() == 36,
            r.inner.client_id is None,
            r.inner.password@ == Seq::<char>::empty(),
            r.inner.td_type@ == "checkAuthenticationPassword"@,
    {
        let inner = CheckAuthenticationPassword {
            extra: Some(fresh_request_extra()),
            client_id: None,
            password: String::new(),
            td_type: "checkAuthenticationPassword".to_string(),
        };
        RTDCheckAuthenticationPasswordBuilder { inner }
    }

    pub fn password(&self) -> (r: &String)
        ensures
            *r == self.password,
    {
        &self.password
    }
}

pub struct RTDCheckAuthenticationPasswordBuilder {
    pub inner: CheckAuthenticationPassword,
}

impl RTDCheckAuthenticationPasswordBuilder {
    pub fn build(self) -> (r: CheckAuthenticationPassword)
        ensures
            r == self.inner,
    {
        self.inner
    }

    pub fn password(self, password: String) -> (r: Self)
        ensures
            r.inner == (CheckAuthenticationPassword { password: password, ..self.inner }),
    {
        let mut inner = self.inner;
        inner.password = password;
        RTDCheckAuthenticationPasswordBuilder { inner }
    }
}

} // verus!
