use vstd::prelude::*;

verus! {

use crate::utils::fresh_request_extra;

/// Changes the message TTL in a chat. Requires can_delete_messages administrator right in basic groups, supergroups and channels Message TTL can't be changed in a chat with the current user (Saved Messages) and the chat 777000 (Telegram).
#[derive(Debug, Clone, PartialEq)]
pub struct SetChatMessageTtl {
    pub extra: Option<String>,
    pub client_id: Option<i32>,
    /// Chat identifier
    pub chat_id: i64,
    /// New TTL value, in seconds; unless the chat is secret, it must be from 0 up to 365 * 86400 and be divisible by 86400
    pub ttl: i32,
    pub td_type: String,
}

impl SetChatMessageTtl {
    pub fn builder() -> (r: RTDSetChatMessageTtlBuilder)
        ensures
            r.inner.extra is Some,
            r.inner.extra->0@.len() == 36,
            r.inner.client_id is None,
            r.inner.chat_id == 0,
            r.inner.ttl == 0,
            r.inner.td_type@ == "setChatMessageTtl"@,
    {
        let inner = SetChatMessageTtl {
            extra: Some(fresh_request_extra()),
            client_id: None,
            chat_id: 0,
            ttl: 0,
            td_type: "setChatMessageTtl".to_string(),
        };
        RTDSetChatMessageTtlBuilder { inner }
    }

    pub fn chat_id(&self) -> (r: i64)
        ensures
            r == self.chat_id,
    {
        self.chat_id
    }

    pub fn ttl(&self) -> (r: i32)
        ensures
            r == self.ttl,
    {
        self.ttl
    }
}

pub struct RTDSetChatMessageTtlBuilder {
    pub inner: SetChatMessageTtl,
}

impl RTDSetChatMessageTtlBuilder {
    pub fn build(self) -> (r: SetChatMessageTtl)
        ensures
            r == self.inner,
    {
        self.inner
    }

    pub fn chat_id(self, chat_id: i64) -> (r: Self)
        ensures
            r.inner == (SetChatMessageTtl { chat_id: chat_id, ..self.inner }),
    {
        let mut inner = self.inner;
        inner.chat_id = chat_id;
        RTDSetChatMessageTtlBuilder { inner }
    }

    pub fn ttl(self, ttl: i32) -> (r: Self)
        ensures
            r.inner == (SetChatMessageTtl { ttl: ttl, ..self.inner }),
    {
        let mut inner = self.inner;
        inner.ttl = ttl;
        RTDSetChatMessageTtlBuilder { inner }
    }
}

} // verus!
