use vstd::prelude::*;

verus! {

use crate::utils::fresh_request_extra;

/// Returns the name of a bot in the given language. Can be called only if userTypeBot.can_be_edited == true
#[derive(Debug, Clone, PartialEq)]
pub struct GetBotName {
    pub extra: Option<String>,
    pub client_id: Option<i32>,
    /// Identifier of the target bot
    pub bot_user_id: i64,
    /// A two-letter ISO 639-1 language code or an empty string
    pub language_code: String,
    pub td_type: String,
}

impl GetBotName {
    pub fn builder() -> (r: GetBotNameBuilder)
        ensures
            r.inner.extra is Some,
            r.inner.extra->0@.len() == 36,
            r.inner.client_id is None,
            r.inner.bot_user_id == 0,
            r.inner.language_code@ == Seq::<char>::empty(),
            r.inner.td_type@ == "getBotName"@,
    {
        let inner = GetBotName {
            extra: Some(fresh_request_extra()),
            client_id: None,
            bot_user_id: 0,
            language_code: String::new(),
            td_type: "getBotName".to_string(),
        };
        GetBotNameBuilder { inner }
    }

    pub fn bot_user_id(&self) -> (r: i64)
        ensures
            r == self.bot_user_id,
    {
        self.bot_user_id
    }

    pub fn language_code(&self) -> (r: &String)
        ensures
            *r == self.language_code,
    {
        &self.language_code
    }
}

pub struct GetBotNameBuilder {
    pub inner: GetBotName,
}

impl GetBotNameBuilder {
    pub fn build(self) -> (r: GetBotName)
        ensures
            r == self.inner,
    {
        self.inner
    }

    pub fn bot_user_id(self, bot_user_id: i64) -> (r: Self)
        ensures
            r.inner == (GetBotName { bot_user_id: bot_user_id, ..self.inner }),
    {
        let mut inner = self.inner;
        inner.bot_user_id = bot_user_id;
        GetBotNameBuilder { inner }
    }

    pub fn language_code(self, language_code: String) -> (r: Self)
        ensures
            r.inner == (GetBotName { language_code: language_code, ..self.inner }),
    {
        let mut inner = self.inner;
        inner.language_code = language_code;
        GetBotNameBuilder { inner }
    }
}

} // verus!
