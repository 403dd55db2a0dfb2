use vstd::prelude::*;

verus! {

use crate::types::authorization_state::UpdateAuthorizationState;
use crate::types::chat::Chat;
use crate::types::chat_invite_link_member::ChatInviteLinkMember;
use crate::types::payment_form::PaymentForm;
use crate::types::remote_file::RemoteFile;

/// One decoded event received from the transport: either an update
/// pushed by the platform or the response to a request issued by this
/// client. A response echoes back, in its `extra` field, the
/// correlation identifier the request was tagged with; spontaneous
/// updates carry no correlation identifier.
#[derive(Debug, Clone, PartialEq)]
pub enum TdType {
    /// The user authorization state has changed
    UpdateAuthorizationState(UpdateAuthorizationState),
    /// A chat
    Chat(Chat),
    /// A chat member joined a chat via an invite link
    ChatInviteLinkMember(ChatInviteLinkMember),
    /// An invoice payment form
    PaymentForm(PaymentForm),
    /// A remote file
    RemoteFile(RemoteFile),
}

/// The content of an `Option<String>` field, as a mathematical value.
pub open spec fn opt_str_view(o: Option<String>) -> Option<Seq<char>> {
    match o {
        Some(s) => Some(s@),
        None => None,
    }
}

impl TdType {
    /// The correlation identifier this event carries, if any.
    pub open spec fn spec_extra(&self) -> Option<Seq<char>> {
        match self {
            TdType::UpdateAuthorizationState(t) => opt_str_view(t.extra),
            TdType::Chat(t) => opt_str_view(t.extra),
            TdType::ChatInviteLinkMember(t) => opt_str_view(t.extra),
            TdType::PaymentForm(t) => opt_str_view(t.extra),
            TdType::RemoteFile(t) => opt_str_view(t.extra),
        }
    }

    /// True of the events that report the authorization lifecycle; the
    /// session core hands exactly these to its authorization sub-loop.
    pub open spec fn is_authorization_update(&self) -> bool {
        self is UpdateAuthorizationState
    }

    /// The correlation identifier this event carries, if any.
    pub fn extra(&self) -> (r: Option<&String>)
        ensures
            match r {
                Some(s) => self.spec_extra() == Some(s@),
                None => self.spec_extra() is None,
            },
    {
        let o = match self {
            TdType::UpdateAuthorizationState(t) => &t.extra,
            TdType::Chat(t) => &t.extra,
            TdType::ChatInviteLinkMember(t) => &t.extra,
            TdType::PaymentForm(t) => &t.extra,
            TdType::RemoteFile(t) => &t.extra,
        };
        match o {
            Some(s) => Some(s),
            None => None,
        }
    }
}

} // verus!
