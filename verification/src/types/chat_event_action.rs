use vstd::prelude::*;

verus! {

use crate::types::payloads::{ChatLocation, ChatMemberStatus, ChatPermissions, Message, Photo};
use crate::types::td_type::opt_str_view;
use crate::utils::fresh_request_extra;

/// TRAIT | Represents a chat event
pub trait TDChatEventAction {}

/// Represents a chat event
#[derive(Debug, Clone, PartialEq)]
pub enum ChatEventAction {
    _Default,
    /// The chat description was changed
    ChatEventDescriptionChanged(ChatEventDescriptionChanged),
    /// The can_invite_users permission of a supergroup chat was toggled
    ChatEventInvitesToggled(ChatEventInvitesToggled),
    /// The is_all_history_available setting of a supergroup was toggled
    ChatEventIsAllHistoryAvailableToggled(ChatEventIsAllHistoryAvailableToggled),
    /// The linked chat of a supergroup was changed
    ChatEventLinkedChatChanged(ChatEventLinkedChatChanged),
    /// The supergroup location was changed
    ChatEventLocationChanged(ChatEventLocationChanged),
    /// A new chat member was invited
    ChatEventMemberInvited(ChatEventMemberInvited),
    /// A new member joined the chat
    ChatEventMemberJoined(ChatEventMemberJoined),
    /// A member left the chat
    ChatEventMemberLeft(ChatEventMemberLeft),
    /// A chat member has gained/lost administrator status, or the list of their administrator privileges has changed
    ChatEventMemberPromoted(ChatEventMemberPromoted),
    /// A chat member was restricted/unrestricted or banned/unbanned, or the list of their restrictions has changed
    ChatEventMemberRestricted(ChatEventMemberRestricted),
    /// A message was deleted
    ChatEventMessageDeleted(ChatEventMessageDeleted),
    /// A message was edited
    ChatEventMessageEdited(ChatEventMessageEdited),
    /// A message was pinned
    ChatEventMessagePinned(ChatEventMessagePinned),
    /// A message was unpinned
    ChatEventMessageUnpinned(ChatEventMessageUnpinned),
    /// The chat permissions was changed
    ChatEventPermissionsChanged(ChatEventPermissionsChanged),
    /// The chat photo was changed
    ChatEventPhotoChanged(ChatEventPhotoChanged),
    /// A poll in a message was stopped
    ChatEventPollStopped(ChatEventPollStopped),
    /// The sign_messages setting of a channel was toggled
    ChatEventSignMessagesToggled(ChatEventSignMessagesToggled),
    /// The slow_mode_delay setting of a supergroup was changed
    ChatEventSlowModeDelayChanged(ChatEventSlowModeDelayChanged),
    /// The supergroup sticker set was changed
    ChatEventStickerSetChanged(ChatEventStickerSetChanged),
    /// The chat title was changed
    ChatEventTitleChanged(ChatEventTitleChanged),
    /// The chat username was changed
    ChatEventUsernameChanged(ChatEventUsernameChanged),
}

impl Default for ChatEventAction {
    fn default() -> (r: Self)
        ensures
            r is _Default,
    {
        ChatEventAction::_Default
    }
}

impl ChatEventAction {
    pub fn _is_default(&self) -> (r: bool)
        ensures
            r == (self is _Default),
    {
        matches!(self, ChatEventAction::_Default)
    }
}

/// The chat description was changed
#[derive(Debug, Clone, PartialEq)]
pub struct ChatEventDescriptionChanged {
    pub td_name: String,
    pub extra: Option<String>,
    /// Previous chat description
    pub old_description: String,
    /// New chat description
    pub new_description: String,
}

impl ChatEventDescriptionChanged {
    pub fn builder() -> (r: RTDChatEventDescriptionChangedBuilder)
        ensures
            r.inner.td_name@ == "chatEventDescriptionChanged"@,
            r.inner.extra is Some,
            r.inner.extra->0@.len() == 36,
            r.inner.old_description@ == Seq::<char>::empty(),
            r.inner.new_description@ == Seq::<char>::empty(),
    {
        let inner = ChatEventDescriptionChanged {
            td_name: "chatEventDescriptionChanged".to_string(),
            extra: Some(fresh_request_extra()),
            old_description: String::new(),
            new_description: String::new(),
        };
        RTDChatEventDescriptionChangedBuilder { inner }
    }

    pub fn old_description(&self) -> (r: &String)
        ensures
            *r == self.old_description,
    {
        &self.old_description
    }

    pub fn new_description(&self) -> (r: &String)
        ensures
            *r == self.new_description,
    {
        &self.new_description
    }
}

pub struct RTDChatEventDescriptionChangedBuilder {
    pub inner: ChatEventDescriptionChanged,
}

impl RTDChatEventDescriptionChangedBuilder {
    pub fn build(self) -> (r: ChatEventDescriptionChanged)
        ensures
            r == self.inner,
    {
        self.inner
    }

    pub fn old_description(self, old_description: String) -> (r: Self)
        ensures
            r.inner == (ChatEventDescriptionChanged { old_description: old_description, ..self.inner }),
    {
        let mut inner = self.inner;
        inner.old_description = old_description;
        RTDChatEventDescriptionChangedBuilder { inner }
    }

    pub fn new_description(self, new_description: String) -> (r: Self)
        ensures
            r.inner == (ChatEventDescriptionChanged { new_description: new_description, ..self.inner }),
    {
        let mut inner = self.inner;
        inner.new_description = new_description;
        RTDChatEventDescriptionChangedBuilder { inner }
    }
}

/// The can_invite_users permission of a supergroup chat was toggled
#[derive(Debug, Clone, PartialEq)]
pub struct ChatEventInvitesToggled {
    pub td_name: String,
    pub extra: Option<String>,
    /// New value of can_invite_users permission
    pub can_invite_users: bool,
}

impl ChatEventInvitesToggled {
    pub fn builder() -> (r: RTDChatEventInvitesToggledBuilder)
        ensures
            r.inner.td_name@ == "chatEventInvitesToggled"@,
            r.inner.extra is Some,
            r.inner.extra->0@.len() == 36,
            !r.inner.can_invite_users,
    {
        let inner = ChatEventInvitesToggled {
            td_name: "chatEventInvitesToggled".to_string(),
            extra: Some(fresh_request_extra()),
            can_invite_users: false,
        };
        RTDChatEventInvitesToggledBuilder { inner }
    }

    pub fn can_invite_users(&self) -> (r: bool)
        ensures
            r == self.can_invite_users,
    {
        self.can_invite_users
    }
}

pub struct RTDChatEventInvitesToggledBuilder {
    pub inner: ChatEventInvitesToggled,
}

impl RTDChatEventInvitesToggledBuilder {
    pub fn build(self) -> (r: ChatEventInvitesToggled)
        ensures
            r == self.inner,
    {
        self.inner
    }

    pub fn can_invite_users(self, can_invite_users: bool) -> (r: Self)
        ensures
            r.inner == (ChatEventInvitesToggled { can_invite_users: can_invite_users, ..self.inner }),
    {
        let mut inner = self.inner;
        inner.can_invite_users = can_invite_users;
        RTDChatEventInvitesToggledBuilder { inner }
    }
}

/// The is_all_history_available setting of a supergroup was toggled
#[derive(Debug, Clone, PartialEq)]
pub struct ChatEventIsAllHistoryAvailableToggled {
    pub td_name: String,
    pub extra: Option<String>,
    /// New value of is_all_history_available
    pub is_all_history_available: bool,
}

impl ChatEventIsAllHistoryAvailableToggled {
    pub fn builder() -> (r: RTDChatEventIsAllHistoryAvailableToggledBuilder)
        ensures
            r.inner.td_name@ == "chatEventIsAllHistoryAvailableToggled"@,
            r.inner.extra is Some,
            r.inner.extra->0@.len() == 36,
            !r.inner.is_all_history_available,
    {
        let inner = ChatEventIsAllHistoryAvailableToggled {
            td_name: "chatEventIsAllHistoryAvailableToggled".to_string(),
            extra: Some(fresh_request_extra()),
            is_all_history_available: false,
        };
        RTDChatEventIsAllHistoryAvailableToggledBuilder { inner }
    }

    pub fn is_all_history_available(&self) -> (r: bool)
        ensures
            r == self.is_all_history_available,
    {
        self.is_all_history_available
    }
}

pub struct RTDChatEventIsAllHistoryAvailableToggledBuilder {
    pub inner: ChatEventIsAllHistoryAvailableToggled,
}

impl RTDChatEventIsAllHistoryAvailableToggledBuilder {
    pub fn build(self) -> (r: ChatEventIsAllHistoryAvailableToggled)
        ensures
            r == self.inner,
    {
        self.inner
    }

    pub fn is_all_history_available(self, is_all_history_available: bool) -> (r: Self)
        ensures
            r.inner == (ChatEventIsAllHistoryAvailableToggled { is_all_history_available: is_all_history_available, ..self.inner }),
    {
        let mut inner = self.inner;
        inner.is_all_history_available = is_all_history_available;
        RTDChatEventIsAllHistoryAvailableToggledBuilder { inner }
    }
}

/// The linked chat of a supergroup was changed
#[derive(Debug, Clone, PartialEq)]
pub struct ChatEventLinkedChatChanged {
    pub td_name: String,
    pub extra: Option<String>,
    /// Previous supergroup linked chat identifier
    pub old_linked_chat_id: i64,
    /// New supergroup linked chat identifier
    pub new_linked_chat_id: i64,
}

impl ChatEventLinkedChatChanged {
    pub fn builder() -> (r: RTDChatEventLinkedChatChangedBuilder)
        ensures
            r.inner.td_name@ == "chatEventLinkedChatChanged"@,
            r.inner.extra is Some,
            r.inner.extra->0@.len() == 36,
            r.inner.old_linked_chat_id == 0,
            r.inner.new_linked_chat_id == 0,
    {
        let inner = ChatEventLinkedChatChanged {
            td_name: "chatEventLinkedChatChanged".to_string(),
            extra: Some(fresh_request_extra()),
            old_linked_chat_id: 0,
            new_linked_chat_id: 0,
        };
        RTDChatEventLinkedChatChangedBuilder { inner }
    }

    pub fn old_linked_chat_id(&self) -> (r: i64)
        ensures
            r == self.old_linked_chat_id,
    {
        self.old_linked_chat_id
    }

    pub fn new_linked_chat_id(&self) -> (r: i64)
        ensures
            r == self.new_linked_chat_id,
    {
        self.new_linked_chat_id
    }
}

pub struct RTDChatEventLinkedChatChangedBuilder {
    pub inner: ChatEventLinkedChatChanged,
}

impl RTDChatEventLinkedChatChangedBuilder {
    pub fn build(self) -> (r: ChatEventLinkedChatChanged)
        ensures
            r == self.inner,
    {
        self.inner
    }

    pub fn old_linked_chat_id(self, old_linked_chat_id: i64) -> (r: Self)
        ensures
            r.inner == (ChatEventLinkedChatChanged { old_linked_chat_id: old_linked_chat_id, ..self.inner }),
    {
        let mut inner = self.inner;
        inner.old_linked_chat_id = old_linked_chat_id;
        RTDChatEventLinkedChatChangedBuilder { inner }
    }

    pub fn new_linked_chat_id(self, new_linked_chat_id: i64) -> (r: Self)
        ensures
            r.inner == (ChatEventLinkedChatChanged { new_linked_chat_id: new_linked_chat_id, ..self.inner }),
    {
        let mut inner = self.inner;
        inner.new_linked_chat_id = new_linked_chat_id;
        RTDChatEventLinkedChatChangedBuilder { inner }
    }
}

/// The supergroup location was changed
#[derive(Debug, Clone, PartialEq)]
pub struct ChatEventLocationChanged {
    pub td_name: String,
    pub extra: Option<String>,
    /// Previous location; may be null
    pub old_location: Option<ChatLocation>,
    /// New location; may be null
    pub new_location: Option<ChatLocation>,
}

impl ChatEventLocationChanged {
    pub fn builder() -> (r: RTDChatEventLocationChangedBuilder)
        ensures
            r.inner.td_name@ == "chatEventLocationChanged"@,
            r.inner.extra is Some,
            r.inner.extra->0@.len() == 36,
            r.inner.old_location is None,
            r.inner.new_location is None,
    {
        let inner = ChatEventLocationChanged {
            td_name: "chatEventLocationChanged".to_string(),
            extra: Some(fresh_request_extra()),
            old_location: None,
            new_location: None,
        };
        RTDChatEventLocationChangedBuilder { inner }
    }

    pub fn old_location(&self) -> (r: &Option<ChatLocation>)
        ensures
            *r == self.old_location,
    {
        &self.old_location
    }

    pub fn new_location(&self) -> (r: &Option<ChatLocation>)
        ensures
            *r == self.new_location,
    {
        &self.new_location
    }
}

pub struct RTDChatEventLocationChangedBuilder {
    pub inner: ChatEventLocationChanged,
}

impl RTDChatEventLocationChangedBuilder {
    pub fn build(self) -> (r: ChatEventLocationChanged)
        ensures
            r == self.inner,
    {
        self.inner
    }

    pub fn old_location(self, old_location: ChatLocation) -> (r: Self)
        ensures
            r.inner == (ChatEventLocationChanged { old_location: Some(old_location), ..self.inner }),
    {
        let mut inner = self.inner;
        inner.old_location = Some(old_location);
        RTDChatEventLocationChangedBuilder { inner }
    }

    pub fn new_location(self, new_location: ChatLocation) -> (r: Self)
        ensures
            r.inner == (ChatEventLocationChanged { new_location: Some(new_location), ..self.inner }),
    {
        let mut inner = self.inner;
        inner.new_location = Some(new_location);
        RTDChatEventLocationChangedBuilder { inner }
    }
}

/// A new chat member was invited
#[derive(Debug, Clone, PartialEq)]
pub struct ChatEventMemberInvited {
    pub td_name: String,
    pub extra: Option<String>,
    /// New member user identifier
    pub user_id: i64,
    /// New member status
    pub status: ChatMemberStatus,
}

impl ChatEventMemberInvited {
    pub fn builder() -> (r: RTDChatEventMemberInvitedBuilder)
        ensures
            r.inner.td_name@ == "chatEventMemberInvited"@,
            r.inner.extra is Some,
            r.inner.extra->0@.len() == 36,
            r.inner.user_id == 0,
            r.inner.status == (ChatMemberStatus {}),
    {
        let inner = ChatEventMemberInvited {
            td_name: "chatEventMemberInvited".to_string(),
            extra: Some(fresh_request_extra()),
            user_id: 0,
            status: ChatMemberStatus {},
        };
        RTDChatEventMemberInvitedBuilder { inner }
    }

    pub fn user_id(&self) -> (r: i64)
        ensures
            r == self.user_id,
    {
        self.user_id
    }

    pub fn status(&self) -> (r: &ChatMemberStatus)
        ensures
            *r == self.status,
    {
        &self.status
    }
}

pub struct RTDChatEventMemberInvitedBuilder {
    pub inner: ChatEventMemberInvited,
}

impl RTDChatEventMemberInvitedBuilder {
    pub fn build(self) -> (r: ChatEventMemberInvited)
        ensures
            r == self.inner,
    {
        self.inner
    }

    pub fn user_id(self, user_id: i64) -> (r: Self)
        ensures
            r.inner == (ChatEventMemberInvited { user_id: user_id, ..self.inner }),
    {
        let mut inner = self.inner;
        inner.user_id = user_id;
        RTDChatEventMemberInvitedBuilder { inner }
    }

    pub fn status(self, status: ChatMemberStatus) -> (r: Self)
        ensures
            r.inner == (ChatEventMemberInvited { status: status, ..self.inner }),
    {
        let mut inner = self.inner;
        inner.status = status;
        RTDChatEventMemberInvitedBuilder { inner }
    }
}

/// A new member joined the chat
#[derive(Debug, Clone, PartialEq)]
pub struct ChatEventMemberJoined {
    pub td_name: String,
    pub extra: Option<String>,
}

impl ChatEventMemberJoined {
    pub fn builder() -> (r: RTDChatEventMemberJoinedBuilder)
        ensures
            r.inner.td_name@ == "chatEventMemberJoined"@,
            r.inner.extra is Some,
            r.inner.extra->0@.len() == 36,
    {
        let inner = ChatEventMemberJoined {
            td_name: "chatEventMemberJoined".to_string(),
            extra: Some(fresh_request_extra()),
        };
        RTDChatEventMemberJoinedBuilder { inner }
    }
}

pub struct RTDChatEventMemberJoinedBuilder {
    pub inner: ChatEventMemberJoined,
}

impl RTDChatEventMemberJoinedBuilder {
    pub fn build(self) -> (r: ChatEventMemberJoined)
        ensures
            r == self.inner,
    {
        self.inner
    }
}

/// A member left the chat
#[derive(Debug, Clone, PartialEq)]
pub struct ChatEventMemberLeft {
    pub td_name: String,
    pub extra: Option<String>,
}

impl ChatEventMemberLeft {
    pub fn builder() -> (r: RTDChatEventMemberLeftBuilder)
        ensures
            r.inner.td_name@ == "chatEventMemberLeft"@,
            r.inner.extra is Some,
            r.inner.extra->0@.len() == 36,
    {
        let inner = ChatEventMemberLeft {
            td_name: "chatEventMemberLeft".to_string(),
            extra: Some(fresh_request_extra()),
        };
        RTDChatEventMemberLeftBuilder { inner }
    }
}

pub struct RTDChatEventMemberLeftBuilder {
    pub inner: ChatEventMemberLeft,
}

impl RTDChatEventMemberLeftBuilder {
    pub fn build(self) -> (r: ChatEventMemberLeft)
        ensures
            r == self.inner,
    {
        self.inner
    }
}

/// A chat member has gained/lost administrator status, or the list of their administrator privileges has changed
#[derive(Debug, Clone, PartialEq)]
pub struct ChatEventMemberPromoted {
    pub td_name: String,
    pub extra: Option<String>,
    /// Chat member user identifier
    pub user_id: i64,
    /// Previous status of the chat member
    pub old_status: ChatMemberStatus,
    /// New status of the chat member
    pub new_status: ChatMemberStatus,
}

impl ChatEventMemberPromoted {
    pub fn builder() -> (r: RTDChatEventMemberPromotedBuilder)
        ensures
            r.inner.td_name@ == "chatEventMemberPromoted"@,
            r.inner.extra is Some,
            r.inner.extra->0@.len() == 36,
            r.inner.user_id == 0,
            r.inner.old_status == (ChatMemberStatus {}),
            r.inner.new_status == (ChatMemberStatus {}),
    {
        let inner = ChatEventMemberPromoted {
            td_name: "chatEventMemberPromoted".to_string(),
            extra: Some(fresh_request_extra()),
            user_id: 0,
            old_status: ChatMemberStatus {},
            new_status: ChatMemberStatus {},
        };
        RTDChatEventMemberPromotedBuilder { inner }
    }

    pub fn user_id(&self) -> (r: i64)
        ensures
            r == self.user_id,
    {
        self.user_id
    }

    pub fn old_status(&self) -> (r: &ChatMemberStatus)
        ensures
            *r == self.old_status,
    {
        &self.old_status
    }

    pub fn new_status(&self) -> (r: &ChatMemberStatus)
        ensures
            *r == self.new_status,
    {
        &self.new_status
    }
}

pub struct RTDChatEventMemberPromotedBuilder {
    pub inner: ChatEventMemberPromoted,
}

impl RTDChatEventMemberPromotedBuilder {
    pub fn build(self) -> (r: ChatEventMemberPromoted)
        ensures
            r == self.inner,
    {
        self.inner
    }

    pub fn user_id(self, user_id: i64) -> (r: Self)
        ensures
            r.inner == (ChatEventMemberPromoted { user_id: user_id, ..self.inner }),
    {
        let mut inner = self.inner;
        inner.user_id = user_id;
        RTDChatEventMemberPromotedBuilder { inner }
    }

    pub fn old_status(self, old_status: ChatMemberStatus) -> (r: Self)
        ensures
            r.inner == (ChatEventMemberPromoted { old_status: old_status, ..self.inner }),
    {
        let mut inner = self.inner;
        inner.old_status = old_status;
        RTDChatEventMemberPromotedBuilder { inner }
    }

    pub fn new_status(self, new_status: ChatMemberStatus) -> (r: Self)
        ensures
            r.inner == (ChatEventMemberPromoted { new_status: new_status, ..self.inner }),
    {
        let mut inner = self.inner;
        inner.new_status = new_status;
        RTDChatEventMemberPromotedBuilder { inner }
    }
}

/// A chat member was restricted/unrestricted or banned/unbanned, or the list of their restrictions has changed
#[derive(Debug, Clone, PartialEq)]
pub struct ChatEventMemberRestricted {
    pub td_name: String,
    pub extra: Option<String>,
    /// Chat member user identifier
    pub user_id: i64,
    /// Previous status of the chat member
    pub old_status: ChatMemberStatus,
    /// New status of the chat member
    pub new_status: ChatMemberStatus,
}

impl ChatEventMemberRestricted {
    pub fn builder() -> (r: RTDChatEventMemberRestrictedBuilder)
        ensures
            r.inner.td_name@ == "chatEventMemberRestricted"@,
            r.inner.extra is Some,
            r.inner.extra->0@.len() == 36,
            r.inner.user_id == 0,
            r.inner.old_status == (ChatMemberStatus {}),
            r.inner.new_status == (ChatMemberStatus {}),
    {
        let inner = ChatEventMemberRestricted {
            td_name: "chatEventMemberRestricted".to_string(),
            extra: Some(fresh_request_extra()),
            user_id: 0,
            old_status: ChatMemberStatus {},
            new_status: ChatMemberStatus {},
        };
        RTDChatEventMemberRestrictedBuilder { inner }
    }

    pub fn user_id(&self) -> (r: i64)
        ensures
            r == self.user_id,
    {
        self.user_id
    }

    pub fn old_status(&self) -> (r: &ChatMemberStatus)
        ensures
            *r == self.old_status,
    {
        &self.old_status
    }

    pub fn new_status(&self) -> (r: &ChatMemberStatus)
        ensures
            *r == self.new_status,
    {
        &self.new_status
    }
}

pub struct RTDChatEventMemberRestrictedBuilder {
    pub inner: ChatEventMemberRestricted,
}

impl RTDChatEventMemberRestrictedBuilder {
    pub fn build(self) -> (r: ChatEventMemberRestricted)
        ensures
            r == self.inner,
    {
        self.inner
    }

    pub fn user_id(self, user_id: i64) -> (r: Self)
        ensures
            r.inner == (ChatEventMemberRestricted { user_id: user_id, ..self.inner }),
    {
        let mut inner = self.inner;
        inner.user_id = user_id;
        RTDChatEventMemberRestrictedBuilder { inner }
    }

    pub fn old_status(self, old_status: ChatMemberStatus) -> (r: Self)
        ensures
            r.inner == (ChatEventMemberRestricted { old_status: old_status, ..self.inner }),
    {
        let mut inner = self.inner;
        inner.old_status = old_status;
        RTDChatEventMemberRestrictedBuilder { inner }
    }

    pub fn new_status(self, new_status: ChatMemberStatus) -> (r: Self)
        ensures
            r.inner == (ChatEventMemberRestricted { new_status: new_status, ..self.inner }),
    {
        let mut inner = self.inner;
        inner.new_status = new_status;
        RTDChatEventMemberRestrictedBuilder { inner }
    }
}

/// A message was deleted
#[derive(Debug, Clone, PartialEq)]
pub struct ChatEventMessageDeleted {
    pub td_name: String,
    pub extra: Option<String>,
    /// Deleted message
    pub message: Message,
}

impl ChatEventMessageDeleted {
    pub fn builder() -> (r: RTDChatEventMessageDeletedBuilder)
        ensures
            r.inner.td_name@ == "chatEventMessageDeleted"@,
            r.inner.extra is Some,
            r.inner.extra->0@.len() == 36,
            r.inner.message == (Message {}),
    {
        let inner = ChatEventMessageDeleted {
            td_name: "chatEventMessageDeleted".to_string(),
            extra: Some(fresh_request_extra()),
            message: Message {},
        };
        RTDChatEventMessageDeletedBuilder { inner }
    }

    pub fn message(&self) -> (r: &Message)
        ensures
            *r == self.message,
    {
        &self.message
    }
}

pub struct RTDChatEventMessageDeletedBuilder {
    pub inner: ChatEventMessageDeleted,
}

impl RTDChatEventMessageDeletedBuilder {
    pub fn build(self) -> (r: ChatEventMessageDeleted)
        ensures
            r == self.inner,
    {
        self.inner
    }

    pub fn message(self, message: Message) -> (r: Self)
        ensures
            r.inner == (ChatEventMessageDeleted { message: message, ..self.inner }),
    {
        let mut inner = self.inner;
        inner.message = message;
        RTDChatEventMessageDeletedBuilder { inner }
    }
}

/// A message was edited
#[derive(Debug, Clone, PartialEq)]
pub struct ChatEventMessageEdited {
    pub td_name: String,
    pub extra: Option<String>,
    /// The original message before the edit
    pub old_message: Message,
    /// The message after it was edited
    pub new_message: Message,
}

impl ChatEventMessageEdited {
    pub fn builder() -> (r: RTDChatEventMessageEditedBuilder)
        ensures
            r.inner.td_name@ == "chatEventMessageEdited"@,
            r.inner.extra is Some,
            r.inner.extra->0@.len() == 36,
            r.inner.old_message == (Message {}),
            r.inner.new_message == (Message {}),
    {
        let inner = ChatEventMessageEdited {
            td_name: "chatEventMessageEdited".to_string(),
            extra: Some(fresh_request_extra()),
            old_message: Message {},
            new_message: Message {},
        };
        RTDChatEventMessageEditedBuilder { inner }
    }

    pub fn old_message(&self) -> (r: &Message)
        ensures
            *r == self.old_message,
    {
        &self.old_message
    }

    pub fn new_message(&self) -> (r: &Message)
        ensures
            *r == self.new_message,
    {
        &self.new_message
    }
}

pub struct RTDChatEventMessageEditedBuilder {
    pub inner: ChatEventMessageEdited,
}

impl RTDChatEventMessageEditedBuilder {
    pub fn build(self) -> (r: ChatEventMessageEdited)
        ensures
            r == self.inner,
    {
        self.inner
    }

    pub fn old_message(self, old_message: Message) -> (r: Self)
        ensures
            r.inner == (ChatEventMessageEdited { old_message: old_message, ..self.inner }),
    {
        let mut inner = self.inner;
        inner.old_message = old_message;
        RTDChatEventMessageEditedBuilder { inner }
    }

    pub fn new_message(self, new_message: Message) -> (r: Self)
        ensures
            r.inner == (ChatEventMessageEdited { new_message: new_message, ..self.inner }),
    {
        let mut inner = self.inner;
        inner.new_message = new_message;
        RTDChatEventMessageEditedBuilder { inner }
    }
}

/// A message was pinned
#[derive(Debug, Clone, PartialEq)]
pub struct ChatEventMessagePinned {
    pub td_name: String,
    pub extra: Option<String>,
    /// Pinned message
    pub message: Message,
}

impl ChatEventMessagePinned {
    pub fn builder() -> (r: RTDChatEventMessagePinnedBuilder)
        ensures
            r.inner.td_name@ == "chatEventMessagePinned"@,
            r.inner.extra is Some,
            r.inner.extra->0@.len() == 36,
            r.inner.message == (Message {}),
    {
        let inner = ChatEventMessagePinned {
            td_name: "chatEventMessagePinned".to_string(),
            extra: Some(fresh_request_extra()),
            message: Message {},
        };
        RTDChatEventMessagePinnedBuilder { inner }
    }

    pub fn message(&self) -> (r: &Message)
        ensures
            *r == self.message,
    {
        &self.message
    }
}

pub struct RTDChatEventMessagePinnedBuilder {
    pub inner: ChatEventMessagePinned,
}

impl RTDChatEventMessagePinnedBuilder {
    pub fn build(self) -> (r: ChatEventMessagePinned)
        ensures
            r == self.inner,
    {
        self.inner
    }

    pub fn message(self, message: Message) -> (r: Self)
        ensures
            r.inner == (ChatEventMessagePinned { message: message, ..self.inner }),
    {
        let mut inner = self.inner;
        inner.message = message;
        RTDChatEventMessagePinnedBuilder { inner }
    }
}

/// A message was unpinned
#[derive(Debug, Clone, PartialEq)]
pub struct ChatEventMessageUnpinned {
    pub td_name: String,
    pub extra: Option<String>,
}

impl ChatEventMessageUnpinned {
    pub fn builder() -> (r: RTDChatEventMessageUnpinnedBuilder)
        ensures
            r.inner.td_name@ == "chatEventMessageUnpinned"@,
            r.inner.extra is Some,
            r.inner.extra->0@.len() == 36,
    {
        let inner = ChatEventMessageUnpinned {
            td_name: "chatEventMessageUnpinned".to_string(),
            extra: Some(fresh_request_extra()),
        };
        RTDChatEventMessageUnpinnedBuilder { inner }
    }
}

pub struct RTDChatEventMessageUnpinnedBuilder {
    pub inner: ChatEventMessageUnpinned,
}

impl RTDChatEventMessageUnpinnedBuilder {
    pub fn build(self) -> (r: ChatEventMessageUnpinned)
        ensures
            r == self.inner,
    {
        self.inner
    }
}

/// The chat permissions was changed
#[derive(Debug, Clone, PartialEq)]
pub struct ChatEventPermissionsChanged {
    pub td_name: String,
    pub extra: Option<String>,
    /// Previous chat permissions
    pub old_permissions: ChatPermissions,
    /// New chat permissions
    pub new_permissions: ChatPermissions,
}

impl ChatEventPermissionsChanged {
    pub fn builder() -> (r: RTDChatEventPermissionsChangedBuilder)
        ensures
            r.inner.td_name@ == "chatEventPermissionsChanged"@,
            r.inner.extra is Some,
            r.inner.extra->0@.len() == 36,
            r.inner.old_permissions == (ChatPermissions {}),
            r.inner.new_permissions == (ChatPermissions {}),
    {
        let inner = ChatEventPermissionsChanged {
            td_name: "chatEventPermissionsChanged".to_string(),
            extra: Some(fresh_request_extra()),
            old_permissions: ChatPermissions {},
            new_permissions: ChatPermissions {},
        };
        RTDChatEventPermissionsChangedBuilder { inner }
    }

    pub fn old_permissions(&self) -> (r: &ChatPermissions)
        ensures
            *r == self.old_permissions,
    {
        &self.old_permissions
    }

    pub fn new_permissions(&self) -> (r: &ChatPermissions)
        ensures
            *r == self.new_permissions,
    {
        &self.new_permissions
    }
}

pub struct RTDChatEventPermissionsChangedBuilder {
    pub inner: ChatEventPermissionsChanged,
}

impl RTDChatEventPermissionsChangedBuilder {
    pub fn build(self) -> (r: ChatEventPermissionsChanged)
        ensures
            r == self.inner,
    {
        self.inner
    }

    pub fn old_permissions(self, old_permissions: ChatPermissions) -> (r: Self)
        ensures
            r.inner == (ChatEventPermissionsChanged { old_permissions: old_permissions, ..self.inner }),
    {
        let mut inner = self.inner;
        inner.old_permissions = old_permissions;
        RTDChatEventPermissionsChangedBuilder { inner }
    }

    pub fn new_permissions(self, new_permissions: ChatPermissions) -> (r: Self)
        ensures
            r.inner == (ChatEventPermissionsChanged { new_permissions: new_permissions, ..self.inner }),
    {
        let mut inner = self.inner;
        inner.new_permissions = new_permissions;
        RTDChatEventPermissionsChangedBuilder { inner }
    }
}

/// The chat photo was changed
#[derive(Debug, Clone, PartialEq)]
pub struct ChatEventPhotoChanged {
    pub td_name: String,
    pub extra: Option<String>,
    /// Previous chat photo value; may be null
    pub old_photo: Option<Photo>,
    /// New chat photo value; may be null
    pub new_photo: Option<Photo>,
}

impl ChatEventPhotoChanged {
    pub fn builder() -> (r: RTDChatEventPhotoChangedBuilder)
        ensures
            r.inner.td_name@ == "chatEventPhotoChanged"@,
            r.inner.extra is Some,
            r.inner.extra->0@.len() == 36,
            r.inner.old_photo is None,
            r.inner.new_photo is None,
    {
        let inner = ChatEventPhotoChanged {
            td_name: "chatEventPhotoChanged".to_string(),
            extra: Some(fresh_request_extra()),
            old_photo: None,
            new_photo: None,
        };
        RTDChatEventPhotoChangedBuilder { inner }
    }

    pub fn old_photo(&self) -> (r: &Option<Photo>)
        ensures
            *r == self.old_photo,
    {
        &self.old_photo
    }

    pub fn new_photo(&self) -> (r: &Option<Photo>)
        ensures
            *r == self.new_photo,
    {
        &self.new_photo
    }
}

pub struct RTDChatEventPhotoChangedBuilder {
    pub inner: ChatEventPhotoChanged,
}

impl RTDChatEventPhotoChangedBuilder {
    pub fn build(self) -> (r: ChatEventPhotoChanged)
        ensures
            r == self.inner,
    {
        self.inner
    }

    pub fn old_photo(self, old_photo: Photo) -> (r: Self)
        ensures
            r.inner == (ChatEventPhotoChanged { old_photo: Some(old_photo), ..self.inner }),
    {
        let mut inner = self.inner;
        inner.old_photo = Some(old_photo);
        RTDChatEventPhotoChangedBuilder { inner }
    }

    pub fn new_photo(self, new_photo: Photo) -> (r: Self)
        ensures
            r.inner == (ChatEventPhotoChanged { new_photo: Some(new_photo), ..self.inner }),
    {
        let mut inner = self.inner;
        inner.new_photo = Some(new_photo);
        RTDChatEventPhotoChangedBuilder { inner }
    }
}

/// A poll in a message was stopped
#[derive(Debug, Clone, PartialEq)]
pub struct ChatEventPollStopped {
    pub td_name: String,
    pub extra: Option<String>,
    /// The message with the poll
    pub message: Message,
}

impl ChatEventPollStopped {
    pub fn builder() -> (r: RTDChatEventPollStoppedBuilder)
        ensures
            r.inner.td_name@ == "chatEventPollStopped"@,
            r.inner.extra is Some,
            r.inner.extra->0@.len() == 36,
            r.inner.message == (Message {}),
    {
        let inner = ChatEventPollStopped {
            td_name: "chatEventPollStopped".to_string(),
            extra: Some(fresh_request_extra()),
            message: Message {},
        };
        RTDChatEventPollStoppedBuilder { inner }
    }

    pub fn message(&self) -> (r: &Message)
        ensures
            *r == self.message,
    {
        &self.message
    }
}

pub struct RTDChatEventPollStoppedBuilder {
    pub inner: ChatEventPollStopped,
}

impl RTDChatEventPollStoppedBuilder {
    pub fn build(self) -> (r: ChatEventPollStopped)
        ensures
            r == self.inner,
    {
        self.inner
    }

    pub fn message(self, message: Message) -> (r: Self)
        ensures
            r.inner == (ChatEventPollStopped { message: message, ..self.inner }),
    {
        let mut inner = self.inner;
        inner.message = message;
        RTDChatEventPollStoppedBuilder { inner }
    }
}

/// The sign_messages setting of a channel was toggled
#[derive(Debug, Clone, PartialEq)]
pub struct ChatEventSignMessagesToggled {
    pub td_name: String,
    pub extra: Option<String>,
    /// New value of sign_messages
    pub sign_messages: bool,
}

impl ChatEventSignMessagesToggled {
    pub fn builder() -> (r: RTDChatEventSignMessagesToggledBuilder)
        ensures
            r.inner.td_name@ == "chatEventSignMessagesToggled"@,
            r.inner.extra is Some,
            r.inner.extra->0@.len() == 36,
            !r.inner.sign_messages,
    {
        let inner = ChatEventSignMessagesToggled {
            td_name: "chatEventSignMessagesToggled".to_string(),
            extra: Some(fresh_request_extra()),
            sign_messages: false,
        };
        RTDChatEventSignMessagesToggledBuilder { inner }
    }

    pub fn sign_messages(&self) -> (r: bool)
        ensures
            r == self.sign_messages,
    {
        self.sign_messages
    }
}

pub struct RTDChatEventSignMessagesToggledBuilder {
    pub inner: ChatEventSignMessagesToggled,
}

impl RTDChatEventSignMessagesToggledBuilder {
    pub fn build(self) -> (r: ChatEventSignMessagesToggled)
        ensures
            r == self.inner,
    {
        self.inner
    }

    pub fn sign_messages(self, sign_messages: bool) -> (r: Self)
        ensures
            r.inner == (ChatEventSignMessagesToggled { sign_messages: sign_messages, ..self.inner }),
    {
        let mut inner = self.inner;
        inner.sign_messages = sign_messages;
        RTDChatEventSignMessagesToggledBuilder { inner }
    }
}

/// The slow_mode_delay setting of a supergroup was changed
#[derive(Debug, Clone, PartialEq)]
pub struct ChatEventSlowModeDelayChanged {
    pub td_name: String,
    pub extra: Option<String>,
    /// Previous value of slow_mode_delay
    pub old_slow_mode_delay: i64,
    /// New value of slow_mode_delay
    pub new_slow_mode_delay: i64,
}

impl ChatEventSlowModeDelayChanged {
    pub fn builder() -> (r: RTDChatEventSlowModeDelayChangedBuilder)
        ensures
            r.inner.td_name@ == "chatEventSlowModeDelayChanged"@,
            r.inner.extra is Some,
            r.inner.extra->0@.len() == 36,
            r.inner.old_slow_mode_delay == 0,
            r.inner.new_slow_mode_delay == 0,
    {
        let inner = ChatEventSlowModeDelayChanged {
            td_name: "chatEventSlowModeDelayChanged".to_string(),
            extra: Some(fresh_request_extra()),
            old_slow_mode_delay: 0,
            new_slow_mode_delay: 0,
        };
        RTDChatEventSlowModeDelayChangedBuilder { inner }
    }

    pub fn old_slow_mode_delay(&self) -> (r: i64)
        ensures
            r == self.old_slow_mode_delay,
    {
        self.old_slow_mode_delay
    }

    pub fn new_slow_mode_delay(&self) -> (r: i64)
        ensures
            r == self.new_slow_mode_delay,
    {
        self.new_slow_mode_delay
    }
}

pub struct RTDChatEventSlowModeDelayChangedBuilder {
    pub inner: ChatEventSlowModeDelayChanged,
}

impl RTDChatEventSlowModeDelayChangedBuilder {
    pub fn build(self) -> (r: ChatEventSlowModeDelayChanged)
        ensures
            r == self.inner,
    {
        self.inner
    }

    pub fn old_slow_mode_delay(self, old_slow_mode_delay: i64) -> (r: Self)
        ensures
            r.inner == (ChatEventSlowModeDelayChanged { old_slow_mode_delay: old_slow_mode_delay, ..self.inner }),
    {
        let mut inner = self.inner;
        inner.old_slow_mode_delay = old_slow_mode_delay;
        RTDChatEventSlowModeDelayChangedBuilder { inner }
    }

    pub fn new_slow_mode_delay(self, new_slow_mode_delay: i64) -> (r: Self)
        ensures
            r.inner == (ChatEventSlowModeDelayChanged { new_slow_mode_delay: new_slow_mode_delay, ..self.inner }),
    {
        let mut inner = self.inner;
        inner.new_slow_mode_delay = new_slow_mode_delay;
        RTDChatEventSlowModeDelayChangedBuilder { inner }
    }
}

/// The supergroup sticker set was changed
#[derive(Debug, Clone, PartialEq)]
pub struct ChatEventStickerSetChanged {
    pub td_name: String,
    pub extra: Option<String>,
    /// Previous identifier of the chat sticker set; 0 if none
    pub old_sticker_set_id: isize,
    /// New identifier of the chat sticker set; 0 if none
    pub new_sticker_set_id: isize,
}

impl ChatEventStickerSetChanged {
    pub fn builder() -> (r: RTDChatEventStickerSetChangedBuilder)
        ensures
            r.inner.td_name@ == "chatEventStickerSetChanged"@,
            r.inner.extra is Some,
            r.inner.extra->0@.len() == 36,
            r.inner.old_sticker_set_id == 0,
            r.inner.new_sticker_set_id == 0,
    {
        let inner = ChatEventStickerSetChanged {
            td_name: "chatEventStickerSetChanged".to_string(),
            extra: Some(fresh_request_extra()),
            old_sticker_set_id: 0,
            new_sticker_set_id: 0,
        };
        RTDChatEventStickerSetChangedBuilder { inner }
    }

    pub fn old_sticker_set_id(&self) -> (r: isize)
        ensures
            r == self.old_sticker_set_id,
    {
        self.old_sticker_set_id
    }

    pub fn new_sticker_set_id(&self) -> (r: isize)
        ensures
            r == self.new_sticker_set_id,
    {
        self.new_sticker_set_id
    }
}

pub struct RTDChatEventStickerSetChangedBuilder {
    pub inner: ChatEventStickerSetChanged,
}

impl RTDChatEventStickerSetChangedBuilder {
    pub fn build(self) -> (r: ChatEventStickerSetChanged)
        ensures
            r == self.inner,
    {
        self.inner
    }

    pub fn old_sticker_set_id(self, old_sticker_set_id: isize) -> (r: Self)
        ensures
            r.inner == (ChatEventStickerSetChanged { old_sticker_set_id: old_sticker_set_id, ..self.inner }),
    {
        let mut inner = self.inner;
        inner.old_sticker_set_id = old_sticker_set_id;
        RTDChatEventStickerSetChangedBuilder { inner }
    }

    pub fn new_sticker_set_id(self, new_sticker_set_id: isize) -> (r: Self)
        ensures
            r.inner == (ChatEventStickerSetChanged { new_sticker_set_id: new_sticker_set_id, ..self.inner }),
    {
        let mut inner = self.inner;
        inner.new_sticker_set_id = new_sticker_set_id;
        RTDChatEventStickerSetChangedBuilder { inner }
    }
}

/// The chat title was changed
#[derive(Debug, Clone, PartialEq)]
pub struct ChatEventTitleChanged {
    pub td_name: String,
    pub extra: Option<String>,
    /// Previous chat title
    pub old_title: String,
    /// New chat title
    pub new_title: String,
}

impl ChatEventTitleChanged {
    pub fn builder() -> (r: RTDChatEventTitleChangedBuilder)
        ensures
            r.inner.td_name@ == "chatEventTitleChanged"@,
            r.inner.extra is Some,
            r.inner.extra->0@.len() == 36,
            r.inner.old_title@ == Seq::<char>::empty(),
            r.inner.new_title@ == Seq::<char>::empty(),
    {
        let inner = ChatEventTitleChanged {
            td_name: "chatEventTitleChanged".to_string(),
            extra: Some(fresh_request_extra()),
            old_title: String::new(),
            new_title: String::new(),
        };
        RTDChatEventTitleChangedBuilder { inner }
    }

    pub fn old_title(&self) -> (r: &String)
        ensures
            *r == self.old_title,
    {
        &self.old_title
    }

    pub fn new_title(&self) -> (r: &String)
        ensures
            *r == self.new_title,
    {
        &self.new_title
    }
}

pub struct RTDChatEventTitleChangedBuilder {
    pub inner: ChatEventTitleChanged,
}

impl RTDChatEventTitleChangedBuilder {
    pub fn build(self) -> (r: ChatEventTitleChanged)
        ensures
            r == self.inner,
    {
        self.inner
    }

    pub fn old_title(self, old_title: String) -> (r: Self)
        ensures
            r.inner == (ChatEventTitleChanged { old_title: old_title, ..self.inner }),
    {
        let mut inner = self.inner;
        inner.old_title = old_title;
        RTDChatEventTitleChangedBuilder { inner }
    }

    pub fn new_title(self, new_title: String) -> (r: Self)
        ensures
            r.inner == (ChatEventTitleChanged { new_title: new_title, ..self.inner }),
    {
        let mut inner = self.inner;
        inner.new_title = new_title;
        RTDChatEventTitleChangedBuilder { inner }
    }
}

/// The chat username was changed
#[derive(Debug, Clone, PartialEq)]
pub struct ChatEventUsernameChanged {
    pub td_name: String,
    pub extra: Option<String>,
    /// Previous chat username
    pub old_username: String,
    /// New chat username
    pub new_username: String,
}

impl ChatEventUsernameChanged {
    pub fn builder() -> (r: RTDChatEventUsernameChangedBuilder)
        ensures
            r.inner.td_name@ == "chatEventUsernameChanged"@,
            r.inner.extra is Some,
            r.inner.extra->0@.len() == 36,
            r.inner.old_username@ == Seq::<char>::empty(),
            r.inner.new_username@ == Seq::<char>::empty(),
    {
        let inner = ChatEventUsernameChanged {
            td_name: "chatEventUsernameChanged".to_string(),
            extra: Some(fresh_request_extra()),
            old_username: String::new(),
            new_username: String::new(),
        };
        RTDChatEventUsernameChangedBuilder { inner }
    }

    pub fn old_username(&self) -> (r: &String)
        ensures
            *r == self.old_username,
    {
        &self.old_username
    }

    pub fn new_username(&self) -> (r: &String)
        ensures
            *r == self.new_username,
    {
        &self.new_username
    }
}

pub struct RTDChatEventUsernameChangedBuilder {
    pub inner: ChatEventUsernameChanged,
}

impl RTDChatEventUsernameChangedBuilder {
    pub fn build(self) -> (r: ChatEventUsernameChanged)
        ensures
            r == self.inner,
    {
        self.inner
    }

    pub fn old_username(self, old_username: String) -> (r: Self)
        ensures
            r.inner == (ChatEventUsernameChanged { old_username: old_username, ..self.inner }),
    {
        let mut inner = self.inner;
        inner.old_username = old_username;
        RTDChatEventUsernameChangedBuilder { inner }
    }

    pub fn new_username(self, new_username: String) -> (r: Self)
        ensures
            r.inner == (ChatEventUsernameChanged { new_username: new_username, ..self.inner }),
    {
        let mut inner = self.inner;
        inner.new_username = new_username;
        RTDChatEventUsernameChangedBuilder { inner }
    }
}

impl TDChatEventAction for ChatEventDescriptionChanged {}
impl TDChatEventAction for ChatEventInvitesToggled {}
impl TDChatEventAction for ChatEventIsAllHistoryAvailableToggled {}
impl TDChatEventAction for ChatEventLinkedChatChanged {}
impl TDChatEventAction for ChatEventLocationChanged {}
impl TDChatEventAction for ChatEventMemberInvited {}
impl TDChatEventAction for ChatEventMemberJoined {}
impl TDChatEventAction for ChatEventMemberLeft {}
impl TDChatEventAction for ChatEventMemberPromoted {}
impl TDChatEventAction for ChatEventMemberRestricted {}
impl TDChatEventAction for ChatEventMessageDeleted {}
impl TDChatEventAction for ChatEventMessageEdited {}
impl TDChatEventAction for ChatEventMessagePinned {}
impl TDChatEventAction for ChatEventMessageUnpinned {}
impl TDChatEventAction for ChatEventPermissionsChanged {}
impl TDChatEventAction for ChatEventPhotoChanged {}
impl TDChatEventAction for ChatEventPollStopped {}
impl TDChatEventAction for ChatEventSignMessagesToggled {}
impl TDChatEventAction for ChatEventSlowModeDelayChanged {}
impl TDChatEventAction for ChatEventStickerSetChanged {}
impl TDChatEventAction for ChatEventTitleChanged {}
impl TDChatEventAction for ChatEventUsernameChanged {}

impl ChatEventAction {
    /// The correlation identifier this value carries, if any.
    pub open spec fn spec_extra(&self) -> Option<Seq<char>> {
        match self {
            ChatEventAction::_Default => None,
            ChatEventAction::ChatEventDescriptionChanged(t) => opt_str_view(t.extra),
            ChatEventAction::ChatEventInvitesToggled(t) => opt_str_view(t.extra),
            ChatEventAction::ChatEventIsAllHistoryAvailableToggled(t) => opt_str_view(t.extra),
            ChatEventAction::ChatEventLinkedChatChanged(t) => opt_str_view(t.extra),
            ChatEventAction::ChatEventLocationChanged(t) => opt_str_view(t.extra),
            ChatEventAction::ChatEventMemberInvited(t) => opt_str_view(t.extra),
            ChatEventAction::ChatEventMemberJoined(t) => opt_str_view(t.extra),
            ChatEventAction::ChatEventMemberLeft(t) => opt_str_view(t.extra),
            ChatEventAction::ChatEventMemberPromoted(t) => opt_str_view(t.extra),
            ChatEventAction::ChatEventMemberRestricted(t) => opt_str_view(t.extra),
            ChatEventAction::ChatEventMessageDeleted(t) => opt_str_view(t.extra),
            ChatEventAction::ChatEventMessageEdited(t) => opt_str_view(t.extra),
            ChatEventAction::ChatEventMessagePinned(t) => opt_str_view(t.extra),
            ChatEventAction::ChatEventMessageUnpinned(t) => opt_str_view(t.extra),
            ChatEventAction::ChatEventPermissionsChanged(t) => opt_str_view(t.extra),
            ChatEventAction::ChatEventPhotoChanged(t) => opt_str_view(t.extra),
            ChatEventAction::ChatEventPollStopped(t) => opt_str_view(t.extra),
            ChatEventAction::ChatEventSignMessagesToggled(t) => opt_str_view(t.extra),
            ChatEventAction::ChatEventSlowModeDelayChanged(t) => opt_str_view(t.extra),
            ChatEventAction::ChatEventStickerSetChanged(t) => opt_str_view(t.extra),
            ChatEventAction::ChatEventTitleChanged(t) => opt_str_view(t.extra),
            ChatEventAction::ChatEventUsernameChanged(t) => opt_str_view(t.extra),
        }
    }

    /// The correlation identifier this value carries, if any.
    pub fn extra(&self) -> (r: Option<&String>)
        ensures
            match r {
                Some(s) => self.spec_extra() == Some(s@),
                None => self.spec_extra() is None,
            },
    {
        let o = match self {
            ChatEventAction::_Default => &None,
            ChatEventAction::ChatEventDescriptionChanged(t) => &t.extra,
            ChatEventAction::ChatEventInvitesToggled(t) => &t.extra,
            ChatEventAction::ChatEventIsAllHistoryAvailableToggled(t) => &t.extra,
            ChatEventAction::ChatEventLinkedChatChanged(t) => &t.extra,
            ChatEventAction::ChatEventLocationChanged(t) => &t.extra,
            ChatEventAction::ChatEventMemberInvited(t) => &t.extra,
            ChatEventAction::ChatEventMemberJoined(t) => &t.extra,
            ChatEventAction::ChatEventMemberLeft(t) => &t.extra,
            ChatEventAction::ChatEventMemberPromoted(t) => &t.extra,
            ChatEventAction::ChatEventMemberRestricted(t) => &t.extra,
            ChatEventAction::ChatEventMessageDeleted(t) => &t.extra,
            ChatEventAction::ChatEventMessageEdited(t) => &t.extra,
            ChatEventAction::ChatEventMessagePinned(t) => &t.extra,
            ChatEventAction::ChatEventMessageUnpinned(t) => &t.extra,
            ChatEventAction::ChatEventPermissionsChanged(t) => &t.extra,
            ChatEventAction::ChatEventPhotoChanged(t) => &t.extra,
            ChatEventAction::ChatEventPollStopped(t) => &t.extra,
            ChatEventAction::ChatEventSignMessagesToggled(t) => &t.extra,
            ChatEventAction::ChatEventSlowModeDelayChanged(t) => &t.extra,
            ChatEventAction::ChatEventStickerSetChanged(t) => &t.extra,
            ChatEventAction::ChatEventTitleChanged(t) => &t.extra,
            ChatEventAction::ChatEventUsernameChanged(t) => &t.extra,
        };
        match o {
            Some(s) => Some(s),
            None => None,
        }
    }

    /// The wire tag of this value's variant; empty for the hidden
    /// placeholder variant.
    pub open spec fn spec_td_name(&self) -> Seq<char> {
        match self {
            ChatEventAction::_Default => ""@,
            ChatEventAction::ChatEventDescriptionChanged(_) => "chatEventDescriptionChanged"@,
            ChatEventAction::ChatEventInvitesToggled(_) => "chatEventInvitesToggled"@,
            ChatEventAction::ChatEventIsAllHistoryAvailableToggled(_) => "chatEventIsAllHistoryAvailableToggled"@,
            ChatEventAction::ChatEventLinkedChatChanged(_) => "chatEventLinkedChatChanged"@,
            ChatEventAction::ChatEventLocationChanged(_) => "chatEventLocationChanged"@,
            ChatEventAction::ChatEventMemberInvited(_) => "chatEventMemberInvited"@,
            ChatEventAction::ChatEventMemberJoined(_) => "chatEventMemberJoined"@,
            ChatEventAction::ChatEventMemberLeft(_) => "chatEventMemberLeft"@,
            ChatEventAction::ChatEventMemberPromoted(_) => "chatEventMemberPromoted"@,
            ChatEventAction::ChatEventMemberRestricted(_) => "chatEventMemberRestricted"@,
            ChatEventAction::ChatEventMessageDeleted(_) => "chatEventMessageDeleted"@,
            ChatEventAction::ChatEventMessageEdited(_) => "chatEventMessageEdited"@,
            ChatEventAction::ChatEventMessagePinned(_) => "chatEventMessagePinned"@,
            ChatEventAction::ChatEventMessageUnpinned(_) => "chatEventMessageUnpinned"@,
            ChatEventAction::ChatEventPermissionsChanged(_) => "chatEventPermissionsChanged"@,
            ChatEventAction::ChatEventPhotoChanged(_) => "chatEventPhotoChanged"@,
            ChatEventAction::ChatEventPollStopped(_) => "chatEventPollStopped"@,
            ChatEventAction::ChatEventSignMessagesToggled(_) => "chatEventSignMessagesToggled"@,
            ChatEventAction::ChatEventSlowModeDelayChanged(_) => "chatEventSlowModeDelayChanged"@,
            ChatEventAction::ChatEventStickerSetChanged(_) => "chatEventStickerSetChanged"@,
            ChatEventAction::ChatEventTitleChanged(_) => "chatEventTitleChanged"@,
            ChatEventAction::ChatEventUsernameChanged(_) => "chatEventUsernameChanged"@,
        }
    }

    /// The wire tag of this value's variant.
    pub fn td_name(&self) -> (r: &str)
        ensures
            r@ == self.spec_td_name(),
    {
        match self {
            ChatEventAction::_Default => "",
            ChatEventAction::ChatEventDescriptionChanged(_) => "chatEventDescriptionChanged",
            ChatEventAction::ChatEventInvitesToggled(_) => "chatEventInvitesToggled",
            ChatEventAction::ChatEventIsAllHistoryAvailableToggled(_) => "chatEventIsAllHistoryAvailableToggled",
            ChatEventAction::ChatEventLinkedChatChanged(_) => "chatEventLinkedChatChanged",
            ChatEventAction::ChatEventLocationChanged(_) => "chatEventLocationChanged",
            ChatEventAction::ChatEventMemberInvited(_) => "chatEventMemberInvited",
            ChatEventAction::ChatEventMemberJoined(_) => "chatEventMemberJoined",
            ChatEventAction::ChatEventMemberLeft(_) => "chatEventMemberLeft",
            ChatEventAction::ChatEventMemberPromoted(_) => "chatEventMemberPromoted",
            ChatEventAction::ChatEventMemberRestricted(_) => "chatEventMemberRestricted",
            ChatEventAction::ChatEventMessageDeleted(_) => "chatEventMessageDeleted",
            ChatEventAction::ChatEventMessageEdited(_) => "chatEventMessageEdited",
            ChatEventAction::ChatEventMessagePinned(_) => "chatEventMessagePinned",
            ChatEventAction::ChatEventMessageUnpinned(_) => "chatEventMessageUnpinned",
            ChatEventAction::ChatEventPermissionsChanged(_) => "chatEventPermissionsChanged",
            ChatEventAction::ChatEventPhotoChanged(_) => "chatEventPhotoChanged",
            ChatEventAction::ChatEventPollStopped(_) => "chatEventPollStopped",
            ChatEventAction::ChatEventSignMessagesToggled(_) => "chatEventSignMessagesToggled",
            ChatEventAction::ChatEventSlowModeDelayChanged(_) => "chatEventSlowModeDelayChanged",
            ChatEventAction::ChatEventStickerSetChanged(_) => "chatEventStickerSetChanged",
            ChatEventAction::ChatEventTitleChanged(_) => "chatEventTitleChanged",
            ChatEventAction::ChatEventUsernameChanged(_) => "chatEventUsernameChanged",
        }
    }
}

} // verus!
