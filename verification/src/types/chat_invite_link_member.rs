use vstd::prelude::*;

verus! {

use crate::utils::fresh_request_extra;

/// Describes a chat member joined a chat via an invite link
#[derive(Debug, Clone, PartialEq)]
pub struct ChatInviteLinkMember {
    pub extra: Option<String>,
    pub client_id: Option<i32>,
    /// User identifier
    pub user_id: i64,
    /// Point in time (Unix timestamp) when the user joined the chat
    pub joined_chat_date: i32,
    /// User identifier of the chat administrator, approved user join request
    pub approver_user_id: i64,
}

impl ChatInviteLinkMember {
    pub fn builder() -> (r: RTDChatInviteLinkMemberBuilder)
        ensures
            r.inner.extra is Some,
            r.inner.extra->0@.len() == 36,
            r.inner.client_id is None,
            r.inner.user_id == 0,
            r.inner.joined_chat_date == 0,
            r.inner.approver_user_id == 0,
    {
        let inner = ChatInviteLinkMember {
            extra: Some(fresh_request_extra()),
            client_id: None,
            user_id: 0,
            joined_chat_date: 0,
            approver_user_id: 0,
        };
        RTDChatInviteLinkMemberBuilder { inner }
    }

    pub fn user_id(&self) -> (r: i64)
        ensures
            r == self.user_id,
    {
        self.user_id
    }

    pub fn joined_chat_date(&self) -> (r: i32)
        ensures
            r == self.joined_chat_date,
    {
        self.joined_chat_date
    }

    pub fn approver_user_id(&self) -> (r: i64)
        ensures
            r == self.approver_user_id,
    {
        self.approver_user_id
    }
}

pub struct RTDChatInviteLinkMemberBuilder {
    pub inner: ChatInviteLinkMember,
}

impl RTDChatInviteLinkMemberBuilder {
    pub fn build(self) -> (r: ChatInviteLinkMember)
        ensures
            r == self.inner,
    {
        self.inner
    }

    pub fn user_id(self, user_id: i64) -> (r: Self)
        ensures
            r.inner == (ChatInviteLinkMember { user_id: user_id, ..self.inner }),
    {
        let mut inner = self.inner;
        inner.user_id = user_id;
        RTDChatInviteLinkMemberBuilder { inner }
    }

    pub fn joined_chat_date(self, joined_chat_date: i32) -> (r: Self)
        ensures
            r.inner == (ChatInviteLinkMember { joined_chat_date: joined_chat_date, ..self.inner }),
    {
        let mut inner = self.inner;
        inner.joined_chat_date = joined_chat_date;
        RTDChatInviteLinkMemberBuilder { inner }
    }

    pub fn approver_user_id(self, approver_user_id: i64) -> (r: Self)
        ensures
            r.inner == (ChatInviteLinkMember { approver_user_id: approver_user_id, ..self.inner }),
    {
        let mut inner = self.inner;
        inner.approver_user_id = approver_user_id;
        RTDChatInviteLinkMemberBuilder { inner }
    }
}

} // verus!
