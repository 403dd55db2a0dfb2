use vstd::prelude::*;

verus! {

use crate::utils::fresh_request_extra;

/// Sets the phone number of the user and sends an authentication code to the user. Works only when the current authorization state is authorizationStateWaitPhoneNumber
#[derive(Debug, Clone, PartialEq)]
pub struct SetAuthenticationPhoneNumber {
    pub extra: Option<String>,
    pub client_id: Option<i32>,
    /// The phone number of the user, in international format
    pub phone_number: String,
    pub td_type: String,
}

impl SetAuthenticationPhoneNumber {
    pub fn builder() -> (r: RTDSetAuthenticationPhoneNumberBuilder)
        ensures
            r.inner.extra is Some,
            r.inner.extra->0@.len() == 36,
            r.inner.client_id is None,
            r.inner.phone_number@ == Seq::<char>::empty(),
            r.inner.td_type@ == "setAuthenticationPhoneNumber"@,
    {
        let inner = SetAuthenticationPhoneNumber {
            extra: Some(fresh_request_extra()),
            client_id: None,
            phone_number: String::new(),
            td_type: "setAuthenticationPhoneNumber".to_string(),
        };
        RTDSetAuthenticationPhoneNumberBuilder { inner }
    }

    pub fn phone_number(&self) -> (r: &String)
        ensures
            *r == self.phone_number,
    {
        &self.phone_number
    }
}

pub struct RTDSetAuthenticationPhoneNumberBuilder {
    pub inner: SetAuthenticationPhoneNumber,
}

impl RTDSetAuthenticationPhoneNumberBuilder {
    pub fn build(self) -> (r: SetAuthenticationPhoneNumber)
        ensures
            r == self.inner,
    {
        self.inner
    }

    pub fn phone_number(self, phone_number: String) -> (r: Self)
        ensures
            r.inner == (SetAuthenticationPhoneNumber { phone_number: phone_number, ..self.inner }),
    {
        let mut inner = self.inner;
        inner.phone_number = phone_number;
        RTDSetAuthenticationPhoneNumberBuilder { inner }
    }
}

} // verus!
