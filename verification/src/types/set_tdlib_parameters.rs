use vstd::prelude::*;

verus! {

use crate::types::tdlib_parameters::TdlibParameters;
use crate::types::tdlib_parameters::is_default_tdlib_parameters;
use crate::utils::fresh_request_extra;

/// Sets the parameters for TDLib initialization. Works only when the current authorization state is authorizationStateWaitTdlibParameters
#[derive(Debug, Clone, PartialEq)]
pub struct SetTdlibParameters {
    pub extra: Option<String>,
    pub client_id: Option<i32>,
    /// Parameters for TDLib initialization
    pub parameters: TdlibParameters,
    pub td_type: String,
}

impl SetTdlibParameters {
    pub fn builder() -> (r: RTDSetTdlibParametersBuilder)
        ensures
            r.inner.extra is Some,
            r.inner.extra->0@.len() == 36,
            r.inner.client_id is None,
            is_default_tdlib_parameters(r.inner.parameters),
            r.inner.td_type@ == "setTdlibParameters"@,
    {
        let inner = SetTdlibParameters {
            extra: Some(fresh_request_extra()),
            client_id: None,
            parameters: TdlibParameters::default(),
            td_type: "setTdlibParameters".to_string(),
        };
        RTDSetTdlibParametersBuilder { inner }
    }

    pub fn parameters(&self) -> (r: &TdlibParameters)
        ensures
            *r == self.parameters,
    {
        &self.parameters
    }
}

pub struct RTDSetTdlibParametersBuilder {
    pub inner: SetTdlibParameters,
}

impl RTDSetTdlibParametersBuilder {
    pub fn build(self) -> (r: SetTdlibParameters)
        ensures
            r == self.inner,
    {
        self.inner
    }

    pub fn parameters(self, parameters: TdlibParameters) -> (r: Self)
        ensures
            r.inner == (SetTdlibParameters { parameters: parameters, ..self.inner }),
    {
        let mut inner = self.inner;
        inner.parameters = parameters;
        RTDSetTdlibParametersBuilder { inner }
    }
}

} // verus!
