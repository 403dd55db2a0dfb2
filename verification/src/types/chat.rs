use vstd::prelude::*;

verus! {

use crate::types::payloads::{ChatActionBar, ChatJoinRequestsInfo, ChatNotificationSettings, ChatPermissions, ChatPhotoInfo, ChatPosition, ChatType, DraftMessage, Message, MessageSender, VideoChat};
use crate::utils::fresh_request_extra;

/// A chat. (Can be a private chat, basic group, supergroup, or secret chat)
#[derive(Debug, Clone, PartialEq)]
pub struct Chat {
    pub extra: Option<String>,
    pub client_id: Option<i32>,
    /// Chat unique identifier
    pub id: i64,
    /// Type of the chat
    pub type_: ChatType,
    /// Chat title
    pub title: String,
    /// Chat photo; may be null
    pub photo: Option<ChatPhotoInfo>,
    /// Actions that non-administrator chat members are allowed to take in the chat
    pub permissions: ChatPermissions,
    /// Last message in the chat; may be null
    pub last_message: Option<Message>,
    /// Positions of the chat in chat lists
    pub positions: Option<Vec<ChatPosition>>,
    /// Identifier of a user or chat that is selected to send messages in the chat; may be null if the user can't change message sender
    pub message_sender_id: Option<MessageSender>,
    /// True, if chat content can't be saved locally, forwarded, or copied
    pub has_protected_content: bool,
    /// True, if the chat is marked as unread
    pub is_marked_as_unread: bool,
    /// True, if the chat is blocked by the current user and private messages from the chat can't be received
    pub is_blocked: bool,
    /// True, if the chat has scheduled messages
    pub has_scheduled_messages: bool,
    /// True, if the chat messages can be deleted only for the current user while other users will continue to see the messages
    pub can_be_deleted_only_for_self: bool,
    /// True, if the chat messages can be deleted for all users
    pub can_be_deleted_for_all_users: bool,
    /// True, if the chat can be reported to Telegram moderators through reportChat or reportChatPhoto
    pub can_be_reported: bool,
    /// Default value of the disable_notification parameter, used when a message is sent to the chat
    pub default_disable_notification: bool,
    /// Number of unread messages in the chat
    pub unread_count: i32,
    /// Identifier of the last read incoming message
    pub last_read_inbox_message_id: i64,
    /// Identifier of the last read outgoing message
    pub last_read_outbox_message_id: i64,
    /// Number of unread messages with a mention/reply in the chat
    pub unread_mention_count: i32,
    /// Number of messages with unread reactions in the chat
    pub unread_reaction_count: i32,
    /// Notification settings for the chat
    pub notification_settings: ChatNotificationSettings,
    /// List of reactions, available in the chat
    pub available_reactions: Vec<String>,
    /// Current message Time To Live setting (self-destruct timer) for the chat; 0 if not defined. TTL is counted from the time message or its content is viewed in secret chats and from the send date in other chats
    pub message_ttl: i32,
    /// If non-empty, name of a theme, set for the chat
    pub theme_name: String,
    /// Information about actions which must be possible to do through the chat action bar; may be null
    pub action_bar: Option<ChatActionBar>,
    /// Information about video chat of the chat
    pub video_chat: VideoChat,
    /// Information about pending join requests; may be null
    pub pending_join_requests: Option<ChatJoinRequestsInfo>,
    /// Identifier of the message from which reply markup needs to be used; 0 if there is no default custom reply markup in the chat
    pub reply_markup_message_id: i64,
    /// A draft of a message in the chat; may be null
    pub draft_message: Option<DraftMessage>,
    /// Application-specific data associated with the chat. (For example, the chat scroll position or local chat notification settings can be stored here.) Persistent if the message database is used
    pub client_data: String,
}

impl Chat {
    pub fn builder() -> (r: RTDChatBuilder)
        ensures
            r.inner.extra is Some,
            r.inner.extra->0@.len() == 36,
            r.inner.client_id is None,
            r.inner.id == 0,
            r.inner.type_ == (ChatType {}),
            r.inner.title@ == Seq::<char>::empty(),
            r.inner.photo is None,
            r.inner.permissions == (ChatPermissions {}),
            r.inner.last_message is None,
            r.inner.positions is None,
            r.inner.message_sender_id is None,
            !r.inner.has_protected_content,
            !r.inner.is_marked_as_unread,
            !r.inner.is_blocked,
            !r.inner.has_scheduled_messages,
            !r.inner.can_be_deleted_only_for_self,
            !r.inner.can_be_deleted_for_all_users,
            !r.inner.can_be_reported,
            !r.inner.default_disable_notification,
            r.inner.unread_count == 0,
            r.inner.last_read_inbox_message_id == 0,
            r.inner.last_read_outbox_message_id == 0,
            r.inner.unread_mention_count == 0,
            r.inner.unread_reaction_count == 0,
            r.inner.notification_settings == (ChatNotificationSettings {}),
            r.inner.available_reactions@.len() == 0,
            r.inner.message_ttl == 0,
            r.inner.theme_name@ == Seq::<char>::empty(),
            r.inner.action_bar is None,
            r.inner.video_chat == (VideoChat {}),
            r.inner.pending_join_requests is None,
            r.inner.reply_markup_message_id == 0,
            r.inner.draft_message is None,
            r.inner.client_data@ == Seq::<char>::empty(),
    {
        let inner = Chat {
            extra: Some(fresh_request_extra()),
            client_id: None,
            id: 0,
            type_: ChatType {},
            title: String::new(),
            photo: None,
            permissions: ChatPermissions {},
            last_message: None,
            positions: None,
            message_sender_id: None,
            has_protected_content: false,
            is_marked_as_unread: false,
            is_blocked: false,
            has_scheduled_messages: false,
            can_be_deleted_only_for_self: false,
            can_be_deleted_for_all_users: false,
            can_be_reported: false,
            default_disable_notification: false,
            unread_count: 0,
            last_read_inbox_message_id: 0,
            last_read_outbox_message_id: 0,
            unread_mention_count: 0,
            unread_reaction_count: 0,
            notification_settings: ChatNotificationSettings {},
            available_reactions: Vec::new(),
            message_ttl: 0,
            theme_name: String::new(),
            action_bar: None,
            video_chat: VideoChat {},
            pending_join_requests: None,
            reply_markup_message_id: 0,
            draft_message: None,
            client_data: String::new(),
        };
        RTDChatBuilder { inner }
    }

    pub fn id(&self) -> (r: i64)
        ensures
            r == self.id,
    {
        self.id
    }

    pub fn type_(&self) -> (r: &ChatType)
        ensures
            *r == self.type_,
    {
        &self.type_
    }

    pub fn title(&self) -> (r: &String)
        ensures
            *r == self.title,
    {
        &self.title
    }

    pub fn photo(&self) -> (r: &Option<ChatPhotoInfo>)
        ensures
            *r == self.photo,
    {
        &self.photo
    }

    pub fn permissions(&self) -> (r: &ChatPermissions)
        ensures
            *r == self.permissions,
    {
        &self.permissions
    }

    pub fn last_message(&self) -> (r: &Option<Message>)
        ensures
            *r == self.last_message,
    {
        &self.last_message
    }

    pub fn positions(&self) -> (r: &Option<Vec<ChatPosition>>)
        ensures
            *r == self.positions,
    {
        &self.positions
    }

    pub fn message_sender_id(&self) -> (r: &Option<MessageSender>)
        ensures
            *r == self.message_sender_id,
    {
        &self.message_sender_id
    }

    pub fn has_protected_content(&self) -> (r: bool)
        ensures
            r == self.has_protected_content,
    {
        self.has_protected_content
    }

    pub fn is_marked_as_unread(&self) -> (r: bool)
        ensures
            r == self.is_marked_as_unread,
    {
        self.is_marked_as_unread
    }

    pub fn is_blocked(&self) -> (r: bool)
        ensures
            r == self.is_blocked,
    {
        self.is_blocked
    }

    pub fn has_scheduled_messages(&self) -> (r: bool)
        ensures
            r == self.has_scheduled_messages,
    {
        self.has_scheduled_messages
    }

    pub fn can_be_deleted_only_for_self(&self) -> (r: bool)
        ensures
            r == self.can_be_deleted_only_for_self,
    {
        self.can_be_deleted_only_for_self
    }

    pub fn can_be_deleted_for_all_users(&self) -> (r: bool)
        ensures
            r == self.can_be_deleted_for_all_users,
    {
        self.can_be_deleted_for_all_users
    }

    pub fn can_be_reported(&self) -> (r: bool)
        ensures
            r == self.can_be_reported,
    {
        self.can_be_reported
    }

    pub fn default_disable_notification(&self) -> (r: bool)
        ensures
            r == self.default_disable_notification,
    {
        self.default_disable_notification
    }

    pub fn unread_count(&self) -> (r: i32)
        ensures
            r == self.unread_count,
    {
        self.unread_count
    }

    pub fn last_read_inbox_message_id(&self) -> (r: i64)
        ensures
            r == self.last_read_inbox_message_id,
    {
        self.last_read_inbox_message_id
    }

    pub fn last_read_outbox_message_id(&self) -> (r: i64)
        ensures
            r == self.last_read_outbox_message_id,
    {
        self.last_read_outbox_message_id
    }

    pub fn unread_mention_count(&self) -> (r: i32)
        ensures
            r == self.unread_mention_count,
    {
        self.unread_mention_count
    }

    pub fn unread_reaction_count(&self) -> (r: i32)
        ensures
            r == self.unread_reaction_count,
    {
        self.unread_reaction_count
    }

    pub fn notification_settings(&self) -> (r: &ChatNotificationSettings)
        ensures
            *r == self.notification_settings,
    {
        &self.notification_settings
    }

    pub fn available_reactions(&self) -> (r: &Vec<String>)
        ensures
            *r == self.available_reactions,
    {
        &self.available_reactions
    }

    pub fn message_ttl(&self) -> (r: i32)
        ensures
            r == self.message_ttl,
    {
        self.message_ttl
    }

    pub fn theme_name(&self) -> (r: &String)
        ensures
            *r == self.theme_name,
    {
        &self.theme_name
    }

    pub fn action_bar(&self) -> (r: &Option<ChatActionBar>)
        ensures
            *r == self.action_bar,
    {
        &self.action_bar
    }

    pub fn video_chat(&self) -> (r: &VideoChat)
        ensures
            *r == self.video_chat,
    {
        &self.video_chat
    }

    pub fn pending_join_requests(&self) -> (r: &Option<ChatJoinRequestsInfo>)
        ensures
            *r == self.pending_join_requests,
    {
        &self.pending_join_requests
    }

    pub fn reply_markup_message_id(&self) -> (r: i64)
        ensures
            r == self.reply_markup_message_id,
    {
        self.reply_markup_message_id
    }

    pub fn draft_message(&self) -> (r: &Option<DraftMessage>)
        ensures
            *r == self.draft_message,
    {
        &self.draft_message
    }

    pub fn client_data(&self) -> (r: &String)
        ensures
            *r == self.client_data,
    {
        &self.client_data
    }
}

pub struct RTDChatBuilder {
    pub inner: Chat,
}

impl RTDChatBuilder {
    pub fn build(self) -> (r: Chat)
        ensures
            r == self.inner,
    {
        self.inner
    }

    pub fn id(self, id: i64) -> (r: Self)
        ensures
            r.inner == (Chat { id: id, ..self.inner }),
    {
        let mut inner = self.inner;
        inner.id = id;
        RTDChatBuilder { inner }
    }

    pub fn type_(self, type_: ChatType) -> (r: Self)
        ensures
            r.inner == (Chat { type_: type_, ..self.inner }),
    {
        let mut inner = self.inner;
        inner.type_ = type_;
        RTDChatBuilder { inner }
    }

    pub fn title(self, title: String) -> (r: Self)
        ensures
            r.inner == (Chat { title: title, ..self.inner }),
    {
        let mut inner = self.inner;
        inner.title = title;
        RTDChatBuilder { inner }
    }

    pub fn photo(self, photo: ChatPhotoInfo) -> (r: Self)
        ensures
            r.inner == (Chat { photo: Some(photo), ..self.inner }),
    {
        let mut inner = self.inner;
        inner.photo = Some(photo);
        RTDChatBuilder { inner }
    }

    pub fn permissions(self, permissions: ChatPermissions) -> (r: Self)
        ensures
            r.inner == (Chat { permissions: permissions, ..self.inner }),
    {
        let mut inner = self.inner;
        inner.permissions = permissions;
        RTDChatBuilder { inner }
    }

    pub fn last_message(self, last_message: Message) -> (r: Self)
        ensures
            r.inner == (Chat { last_message: Some(last_message), ..self.inner }),
    {
        let mut inner = self.inner;
        inner.last_message = Some(last_message);
        RTDChatBuilder { inner }
    }

    pub fn positions(self, positions: Vec<ChatPosition>) -> (r: Self)
        ensures
            r.inner == (Chat { positions: Some(positions), ..self.inner }),
    {
        let mut inner = self.inner;
        inner.positions = Some(positions);
        RTDChatBuilder { inner }
    }

    pub fn message_sender_id(self, message_sender_id: MessageSender) -> (r: Self)
        ensures
            r.inner == (Chat { message_sender_id: Some(message_sender_id), ..self.inner }),
    {
        let mut inner = self.inner;
        inner.message_sender_id = Some(message_sender_id);
        RTDChatBuilder { inner }
    }

    pub fn has_protected_content(self, has_protected_content: bool) -> (r: Self)
        ensures
            r.inner == (Chat { has_protected_content: has_protected_content, ..self.inner }),
    {
        let mut inner = self.inner;
        inner.has_protected_content = has_protected_content;
        RTDChatBuilder { inner }
    }

    pub fn is_marked_as_unread(self, is_marked_as_unread: bool) -> (r: Self)
        ensures
            r.inner == (Chat { is_marked_as_unread: is_marked_as_unread, ..self.inner }),
    {
        let mut inner = self.inner;
        inner.is_marked_as_unread = is_marked_as_unread;
        RTDChatBuilder { inner }
    }

    pub fn is_blocked(self, is_blocked: bool) -> (r: Self)
        ensures
            r.inner == (Chat { is_blocked: is_blocked, ..self.inner }),
    {
        let mut inner = self.inner;
        inner.is_blocked = is_blocked;
        RTDChatBuilder { inner }
    }

    pub fn has_scheduled_messages(self, has_scheduled_messages: bool) -> (r: Self)
        ensures
            r.inner == (Chat { has_scheduled_messages: has_scheduled_messages, ..self.inner }),
    {
        let mut inner = self.inner;
        inner.has_scheduled_messages = has_scheduled_messages;
        RTDChatBuilder { inner }
    }

    pub fn can_be_deleted_only_for_self(self, can_be_deleted_only_for_self: bool) -> (r: Self)
        ensures
            r.inner == (Chat { can_be_deleted_only_for_self: can_be_deleted_only_for_self, ..self.inner }),
    {
        let mut inner = self.inner;
        inner.can_be_deleted_only_for_self = can_be_deleted_only_for_self;
        RTDChatBuilder { inner }
    }

    pub fn can_be_deleted_for_all_users(self, can_be_deleted_for_all_users: bool) -> (r: Self)
        ensures
            r.inner == (Chat { can_be_deleted_for_all_users: can_be_deleted_for_all_users, ..self.inner }),
    {
        let mut inner = self.inner;
        inner.can_be_deleted_for_all_users = can_be_deleted_for_all_users;
        RTDChatBuilder { inner }
    }

    pub fn can_be_reported(self, can_be_reported: bool) -> (r: Self)
        ensures
            r.inner == (Chat { can_be_reported: can_be_reported, ..self.inner }),
    {
        let mut inner = self.inner;
        inner.can_be_reported = can_be_reported;
        RTDChatBuilder { inner }
    }

    pub fn default_disable_notification(self, default_disable_notification: bool) -> (r: Self)
        ensures
            r.inner == (Chat { default_disable_notification: default_disable_notification, ..self.inner }),
    {
        let mut inner = self.inner;
        inner.default_disable_notification = default_disable_notification;
        RTDChatBuilder { inner }
    }

    pub fn unread_count(self, unread_count: i32) -> (r: Self)
        ensures
            r.inner == (Chat { unread_count: unread_count, ..self.inner }),
    {
        let mut inner = self.inner;
        inner.unread_count = unread_count;
        RTDChatBuilder { inner }
    }

    pub fn last_read_inbox_message_id(self, last_read_inbox_message_id: i64) -> (r: Self)
        ensures
            r.inner == (Chat { last_read_inbox_message_id: last_read_inbox_message_id, ..self.inner }),
    {
        let mut inner = self.inner;
        inner.last_read_inbox_message_id = last_read_inbox_message_id;
        RTDChatBuilder { inner }
    }

    pub fn last_read_outbox_message_id(self, last_read_outbox_message_id: i64) -> (r: Self)
        ensures
            r.inner == (Chat { last_read_outbox_message_id: last_read_outbox_message_id, ..self.inner }),
    {
        let mut inner = self.inner;
        inner.last_read_outbox_message_id = last_read_outbox_message_id;
        RTDChatBuilder { inner }
    }

    pub fn unread_mention_count(self, unread_mention_count: i32) -> (r: Self)
        ensures
            r.inner == (Chat { unread_mention_count: unread_mention_count, ..self.inner }),
    {
        let mut inner = self.inner;
        inner.unread_mention_count = unread_mention_count;
        RTDChatBuilder { inner }
    }

    pub fn unread_reaction_count(self, unread_reaction_count: i32) -> (r: Self)
        ensures
            r.inner == (Chat { unread_reaction_count: unread_reaction_count, ..self.inner }),
    {
        let mut inner = self.inner;
        inner.unread_reaction_count = unread_reaction_count;
        RTDChatBuilder { inner }
    }

    pub fn notification_settings(self, notification_settings: ChatNotificationSettings) -> (r: Self)
        ensures
            r.inner == (Chat { notification_settings: notification_settings, ..self.inner }),
    {
        let mut inner = self.inner;
        inner.notification_settings = notification_settings;
        RTDChatBuilder { inner }
    }

    pub fn available_reactions(self, available_reactions: Vec<String>) -> (r: Self)
        ensures
            r.inner == (Chat { available_reactions: available_reactions, ..self.inner }),
    {
        let mut inner = self.inner;
        inner.available_reactions = available_reactions;
        RTDChatBuilder { inner }
    }

    pub fn message_ttl(self, message_ttl: i32) -> (r: Self)
        ensures
            r.inner == (Chat { message_ttl: message_ttl, ..self.inner }),
    {
        let mut inner = self.inner;
        inner.message_ttl = message_ttl;
        RTDChatBuilder { inner }
    }

    pub fn theme_name(self, theme_name: String) -> (r: Self)
        ensures
            r.inner == (Chat { theme_name: theme_name, ..self.inner }),
    {
        let mut inner = self.inner;
        inner.theme_name = theme_name;
        RTDChatBuilder { inner }
    }

    pub fn action_bar(self, action_bar: ChatActionBar) -> (r: Self)
        ensures
            r.inner == (Chat { action_bar: Some(action_bar), ..self.inner }),
    {
        let mut inner = self.inner;
        inner.action_bar = Some(action_bar);
        RTDChatBuilder { inner }
    }

    pub fn video_chat(self, video_chat: VideoChat) -> (r: Self)
        ensures
            r.inner == (Chat { video_chat: video_chat, ..self.inner }),
    {
        let mut inner = self.inner;
        inner.video_chat = video_chat;
        RTDChatBuilder { inner }
    }

    pub fn pending_join_requests(self, pending_join_requests: ChatJoinRequestsInfo) -> (r: Self)
        ensures
            r.inner == (Chat { pending_join_requests: Some(pending_join_requests), ..self.inner }),
    {
        let mut inner = self.inner;
        inner.pending_join_requests = Some(pending_join_requests);
        RTDChatBuilder { inner }
    }

    pub fn reply_markup_message_id(self, reply_markup_message_id: i64) -> (r: Self)
        ensures
            r.inner == (Chat { reply_markup_message_id: reply_markup_message_id, ..self.inner }),
    {
        let mut inner = self.inner;
        inner.reply_markup_message_id = reply_markup_message_id;
        RTDChatBuilder { inner }
    }

    pub fn draft_message(self, draft_message: DraftMessage) -> (r: Self)
        ensures
            r.inner == (Chat { draft_message: Some(draft_message), ..self.inner }),
    {
        let mut inner = self.inner;
        inner.draft_message = Some(draft_message);
        RTDChatBuilder { inner }
    }

    pub fn client_data(self, client_data: String) -> (r: Self)
        ensures
            r.inner == (Chat { client_data: client_data, ..self.inner }),
    {
        let mut inner = self.inner;
        inner.client_data = client_data;
        RTDChatBuilder { inner }
    }
}

} // verus!
