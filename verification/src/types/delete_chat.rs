use vstd::prelude::*;

verus! {

use crate::utils::fresh_request_extra;

/// Deletes a chat along with all messages in the corresponding chat for all chat members. For group chats this will release the username and remove all members. Use the field chat.can_be_deleted_for_all_users to find whether the method can be applied to the chat
#[derive(Debug, Clone, PartialEq)]
pub struct DeleteChat {
    pub extra: Option<String>,
    pub client_id: Option<i32>,
    /// Chat identifier
    pub chat_id: i64,
    pub td_type: String,
}

impl DeleteChat {
    pub fn builder() -> (r: RTDDeleteChatBuilder)
        ensures
            r.inner.extra is Some,
            r.inner.extra->0@.len() == 36,
            r.inner.client_id is None,
            r.inner.chat_id == 0,
            r.inner.td_type@ == "deleteChat"@,
    {
        let inner = DeleteChat {
            extra: Some(fresh_request_extra()),
            client_id: None,
            chat_id: 0,
            td_type: "deleteChat".to_string(),
        };
        RTDDeleteChatBuilder { inner }
    }

    pub fn chat_id(&self) -> (r: i64)
        ensures
            r == self.chat_id,
    {
        self.chat_id
    }
}

pub struct RTDDeleteChatBuilder {
    pub inner: DeleteChat,
}

impl RTDDeleteChatBuilder {
    pub fn build(self) -> (r: DeleteChat)
        ensures
            r == self.inner,
    {
        self.inner
    }

    pub fn chat_id(self, chat_id: i64) -> (r: Self)
        ensures
            r.inner == (DeleteChat { chat_id: chat_id, ..self.inner }),
    {
        let mut inner = self.inner;
        inner.chat_id = chat_id;
        RTDDeleteChatBuilder { inner }
    }
}

} // verus!
