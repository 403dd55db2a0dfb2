use vstd::prelude::*;

verus! {

use crate::types::payloads::{Animation, Audio, Document, Photo, Sticker, Video, VideoNote, VoiceNote};
use crate::types::td_type::opt_str_view;
use crate::utils::fresh_request_extra;

/// TRAIT | Contains content of a push message notification
pub trait TDPushMessageContent {}

/// Contains content of a push message notification
#[derive(Debug, Clone, PartialEq)]
pub enum PushMessageContent {
    _Default,
    /// An animation message (GIF-style).
    Animation(PushMessageContentAnimation),
    /// An audio message
    Audio(PushMessageContentAudio),
    /// A newly created basic group
    BasicGroupChatCreate(PushMessageContentBasicGroupChatCreate),
    /// New chat members were invited to a group
    ChatAddMembers(PushMessageContentChatAddMembers),
    /// A chat photo was edited
    ChatChangePhoto(PushMessageContentChatChangePhoto),
    /// A chat title was edited
    ChatChangeTitle(PushMessageContentChatChangeTitle),
    /// A chat member was deleted
    ChatDeleteMember(PushMessageContentChatDeleteMember),
    /// A new member joined the chat by invite link
    ChatJoinByLink(PushMessageContentChatJoinByLink),
    /// A message with a user contact
    Contact(PushMessageContentContact),
    /// A contact has registered with Telegram
    ContactRegistered(PushMessageContentContactRegistered),
    /// A document message (a general file)
    Document(PushMessageContentDocument),
    /// A message with a game
    Game(PushMessageContentGame),
    /// A new high score was achieved in a game
    GameScore(PushMessageContentGameScore),
    /// A general message with hidden content
    Hidden(PushMessageContentHidden),
    /// A message with an invoice from a bot
    Invoice(PushMessageContentInvoice),
    /// A message with a location
    Location(PushMessageContentLocation),
    /// A media album
    MediaAlbum(PushMessageContentMediaAlbum),
    /// A forwarded messages
    MessageForwards(PushMessageContentMessageForwards),
    /// A photo message
    Photo(PushMessageContentPhoto),
    /// A message with a poll
    Poll(PushMessageContentPoll),
    /// A screenshot of a message in the chat has been taken
    ScreenshotTaken(PushMessageContentScreenshotTaken),
    /// A message with a sticker
    Sticker(PushMessageContentSticker),
    /// A text message
    Text(PushMessageContentText),
    /// A video message
    Video(PushMessageContentVideo),
    /// A video note message
    VideoNote(PushMessageContentVideoNote),
    /// A voice note message
    VoiceNote(PushMessageContentVoiceNote),
}

impl Default for PushMessageContent {
    fn default() -> (r: Self)
        ensures
            r is _Default,
    {
        PushMessageContent::_Default
    }
}

impl PushMessageContent {
    pub fn _is_default(&self) -> (r: bool)
        ensures
            r == (self is _Default),
    {
        matches!(self, PushMessageContent::_Default)
    }
}

/// An animation message (GIF-style).
#[derive(Debug, Clone, PartialEq)]
pub struct PushMessageContentAnimation {
    pub td_name: String,
    pub extra: Option<String>,
    /// Message content; may be null
    pub animation: Option<Animation>,
    /// Animation caption
    pub caption: String,
    /// True, if the message is a pinned message with the specified content
    pub is_pinned: bool,
}

impl PushMessageContentAnimation {
    pub fn builder() -> (r: RTDPushMessageContentAnimationBuilder)
        ensures
            r.inner.td_name@ == "pushMessageContentAnimation"@,
            r.inner.extra is Some,
            r.inner.extra->0@.len() == 36,
            r.inner.animation is None,
            r.inner.caption@ == Seq::<char>::empty(),
            !r.inner.is_pinned,
    {
        let inner = PushMessageContentAnimation {
            td_name: "pushMessageContentAnimation".to_string(),
            extra: Some(fresh_request_extra()),
            animation: None,
            caption: String::new(),
            is_pinned: false,
        };
        RTDPushMessageContentAnimationBuilder { inner }
    }

    pub fn animation(&self) -> (r: &Option<Animation>)
        ensures
            *r == self.animation,
    {
        &self.animation
    }

    pub fn caption(&self) -> (r: &String)
        ensures
            *r == self.caption,
    {
        &self.caption
    }

    pub fn is_pinned(&self) -> (r: bool)
        ensures
            r == self.is_pinned,
    {
        self.is_pinned
    }
}

pub struct RTDPushMessageContentAnimationBuilder {
    pub inner: PushMessageContentAnimation,
}

impl RTDPushMessageContentAnimationBuilder {
    pub fn build(self) -> (r: PushMessageContentAnimation)
        ensures
            r == self.inner,
    {
        self.inner
    }

    pub fn animation(self, animation: Animation) -> (r: Self)
        ensures
            r.inner == (PushMessageContentAnimation { animation: Some(animation), ..self.inner }),
    {
        let mut inner = self.inner;
        inner.animation = Some(animation);
        RTDPushMessageContentAnimationBuilder { inner }
    }

    pub fn caption(self, caption: String) -> (r: Self)
        ensures
            r.inner == (PushMessageContentAnimation { caption: caption, ..self.inner }),
    {
        let mut inner = self.inner;
        inner.caption = caption;
        RTDPushMessageContentAnimationBuilder { inner }
    }

    pub fn is_pinned(self, is_pinned: bool) -> (r: Self)
        ensures
            r.inner == (PushMessageContentAnimation { is_pinned: is_pinned, ..self.inner }),
    {
        let mut inner = self.inner;
        inner.is_pinned = is_pinned;
        RTDPushMessageContentAnimationBuilder { inner }
    }
}

/// An audio message
#[derive(Debug, Clone, PartialEq)]
pub struct PushMessageContentAudio {
    pub td_name: String,
    pub extra: Option<String>,
    /// Message content; may be null
    pub audio: Option<Audio>,
    /// True, if the message is a pinned message with the specified content
    pub is_pinned: bool,
}

impl PushMessageContentAudio {
    pub fn builder() -> (r: RTDPushMessageContentAudioBuilder)
        ensures
            r.inner.td_name@ == "pushMessageContentAudio"@,
            r.inner.extra is Some,
            r.inner.extra->0@.len() == 36,
            r.inner.audio is None,
            !r.inner.is_pinned,
    {
        let inner = PushMessageContentAudio {
            td_name: "pushMessageContentAudio".to_string(),
            extra: Some(fresh_request_extra()),
            audio: None,
            is_pinned: false,
        };
        RTDPushMessageContentAudioBuilder { inner }
    }

    pub fn audio(&self) -> (r: &Option<Audio>)
        ensures
            *r == self.audio,
    {
        &self.audio
    }

    pub fn is_pinned(&self) -> (r: bool)
        ensures
            r == self.is_pinned,
    {
        self.is_pinned
    }
}

pub struct RTDPushMessageContentAudioBuilder {
    pub inner: PushMessageContentAudio,
}

impl RTDPushMessageContentAudioBuilder {
    pub fn build(self) -> (r: PushMessageContentAudio)
        ensures
            r == self.inner,
    {
        self.inner
    }

    pub fn audio(self, audio: Audio) -> (r: Self)
        ensures
            r.inner == (PushMessageContentAudio { audio: Some(audio), ..self.inner }),
    {
        let mut inner = self.inner;
        inner.audio = Some(audio);
        RTDPushMessageContentAudioBuilder { inner }
    }

    pub fn is_pinned(self, is_pinned: bool) -> (r: Self)
        ensures
            r.inner == (PushMessageContentAudio { is_pinned: is_pinned, ..self.inner }),
    {
        let mut inner = self.inner;
        inner.is_pinned = is_pinned;
        RTDPushMessageContentAudioBuilder { inner }
    }
}

/// A newly created basic group
#[derive(Debug, Clone, PartialEq)]
pub struct PushMessageContentBasicGroupChatCreate {
    pub td_name: String,
    pub extra: Option<String>,
}

impl PushMessageContentBasicGroupChatCreate {
    pub fn builder() -> (r: RTDPushMessageContentBasicGroupChatCreateBuilder)
        ensures
            r.inner.td_name@ == "pushMessageContentBasicGroupChatCreate"@,
            r.inner.extra is Some,
            r.inner.extra->0@.len() == 36,
    {
        let inner = PushMessageContentBasicGroupChatCreate {
            td_name: "pushMessageContentBasicGroupChatCreate".to_string(),
            extra: Some(fresh_request_extra()),
        };
        RTDPushMessageContentBasicGroupChatCreateBuilder { inner }
    }
}

pub struct RTDPushMessageContentBasicGroupChatCreateBuilder {
    pub inner: PushMessageContentBasicGroupChatCreate,
}

impl RTDPushMessageContentBasicGroupChatCreateBuilder {
    pub fn build(self) -> (r: PushMessageContentBasicGroupChatCreate)
        ensures
            r == self.inner,
    {
        self.inner
    }
}

/// New chat members were invited to a group
#[derive(Debug, Clone, PartialEq)]
pub struct PushMessageContentChatAddMembers {
    pub td_name: String,
    pub extra: Option<String>,
    /// Name of the added member
    pub member_name: String,
    /// True, if the current user was added to the group
    pub is_current_user: bool,
    /// True, if the user has returned to the group themself
    pub is_returned: bool,
}

impl PushMessageContentChatAddMembers {
    pub fn builder() -> (r: RTDPushMessageContentChatAddMembersBuilder)
        ensures
            r.inner.td_name@ == "pushMessageContentChatAddMembers"@,
            r.inner.extra is Some,
            r.inner.extra->0@.len() == 36,
            r.inner.member_name@ == Seq::<char>::empty(),
            !r.inner.is_current_user,
            !r.inner.is_returned,
    {
        let inner = PushMessageContentChatAddMembers {
            td_name: "pushMessageContentChatAddMembers".to_string(),
            extra: Some(fresh_request_extra()),
            member_name: String::new(),
            is_current_user: false,
            is_returned: false,
        };
        RTDPushMessageContentChatAddMembersBuilder { inner }
    }

    pub fn member_name(&self) -> (r: &String)
        ensures
            *r == self.member_name,
    {
        &self.member_name
    }

    pub fn is_current_user(&self) -> (r: bool)
        ensures
            r == self.is_current_user,
    {
        self.is_current_user
    }

    pub fn is_returned(&self) -> (r: bool)
        ensures
            r == self.is_returned,
    {
        self.is_returned
    }
}

pub struct RTDPushMessageContentChatAddMembersBuilder {
    pub inner: PushMessageContentChatAddMembers,
}

impl RTDPushMessageContentChatAddMembersBuilder {
    pub fn build(self) -> (r: PushMessageContentChatAddMembers)
        ensures
            r == self.inner,
    {
        self.inner
    }

    pub fn member_name(self, member_name: String) -> (r: Self)
        ensures
            r.inner == (PushMessageContentChatAddMembers { member_name: member_name, ..self.inner }),
    {
        let mut inner = self.inner;
        inner.member_name = member_name;
        RTDPushMessageContentChatAddMembersBuilder { inner }
    }

    pub fn is_current_user(self, is_current_user: bool) -> (r: Self)
        ensures
            r.inner == (PushMessageContentChatAddMembers { is_current_user: is_current_user, ..self.inner }),
    {
        let mut inner = self.inner;
        inner.is_current_user = is_current_user;
        RTDPushMessageContentChatAddMembersBuilder { inner }
    }

    pub fn is_returned(self, is_returned: bool) -> (r: Self)
        ensures
            r.inner == (PushMessageContentChatAddMembers { is_returned: is_returned, ..self.inner }),
    {
        let mut inner = self.inner;
        inner.is_returned = is_returned;
        RTDPushMessageContentChatAddMembersBuilder { inner }
    }
}

/// A chat photo was edited
#[derive(Debug, Clone, PartialEq)]
pub struct PushMessageContentChatChangePhoto {
    pub td_name: String,
    pub extra: Option<String>,
}

impl PushMessageContentChatChangePhoto {
    pub fn builder() -> (r: RTDPushMessageContentChatChangePhotoBuilder)
        ensures
            r.inner.td_name@ == "pushMessageContentChatChangePhoto"@,
            r.inner.extra is Some,
            r.inner.extra->0@.len() == 36,
    {
        let inner = PushMessageContentChatChangePhoto {
            td_name: "pushMessageContentChatChangePhoto".to_string(),
            extra: Some(fresh_request_extra()),
        };
        RTDPushMessageContentChatChangePhotoBuilder { inner }
    }
}

pub struct RTDPushMessageContentChatChangePhotoBuilder {
    pub inner: PushMessageContentChatChangePhoto,
}

impl RTDPushMessageContentChatChangePhotoBuilder {
    pub fn build(self) -> (r: PushMessageContentChatChangePhoto)
        ensures
            r == self.inner,
    {
        self.inner
    }
}

/// A chat title was edited
#[derive(Debug, Clone, PartialEq)]
pub struct PushMessageContentChatChangeTitle {
    pub td_name: String,
    pub extra: Option<String>,
    /// New chat title
    pub title: String,
}

impl PushMessageContentChatChangeTitle {
    pub fn builder() -> (r: RTDPushMessageContentChatChangeTitleBuilder)
        ensures
            r.inner.td_name@ == "pushMessageContentChatChangeTitle"@,
            r.inner.extra is Some,
            r.inner.extra->0@.len() == 36,
            r.inner.title@ == Seq::<char>::empty(),
    {
        let inner = PushMessageContentChatChangeTitle {
            td_name: "pushMessageContentChatChangeTitle".to_string(),
            extra: Some(fresh_request_extra()),
            title: String::new(),
        };
        RTDPushMessageContentChatChangeTitleBuilder { inner }
    }

    pub fn title(&self) -> (r: &String)
        ensures
            *r == self.title,
    {
        &self.title
    }
}

pub struct RTDPushMessageContentChatChangeTitleBuilder {
    pub inner: PushMessageContentChatChangeTitle,
}

impl RTDPushMessageContentChatChangeTitleBuilder {
    pub fn build(self) -> (r: PushMessageContentChatChangeTitle)
        ensures
            r == self.inner,
    {
        self.inner
    }

    pub fn title(self, title: String) -> (r: Self)
        ensures
            r.inner == (PushMessageContentChatChangeTitle { title: title, ..self.inner }),
    {
        let mut inner = self.inner;
        inner.title = title;
        RTDPushMessageContentChatChangeTitleBuilder { inner }
    }
}

/// A chat member was deleted
#[derive(Debug, Clone, PartialEq)]
pub struct PushMessageContentChatDeleteMember {
    pub td_name: String,
    pub extra: Option<String>,
    /// Name of the deleted member
    pub member_name: String,
    /// True, if the current user was deleted from the group
    pub is_current_user: bool,
    /// True, if the user has left the group themself
    pub is_left: bool,
}

impl PushMessageContentChatDeleteMember {
    pub fn builder() -> (r: RTDPushMessageContentChatDeleteMemberBuilder)
        ensures
            r.inner.td_name@ == "pushMessageContentChatDeleteMember"@,
            r.inner.extra is Some,
            r.inner.extra->0@.len() == 36,
            r.inner.member_name@ == Seq::<char>::empty(),
            !r.inner.is_current_user,
            !r.inner.is_left,
    {
        let inner = PushMessageContentChatDeleteMember {
            td_name: "pushMessageContentChatDeleteMember".to_string(),
            extra: Some(fresh_request_extra()),
            member_name: String::new(),
            is_current_user: false,
            is_left: false,
        };
        RTDPushMessageContentChatDeleteMemberBuilder { inner }
    }

    pub fn member_name(&self) -> (r: &String)
        ensures
            *r == self.member_name,
    {
        &self.member_name
    }

    pub fn is_current_user(&self) -> (r: bool)
        ensures
            r == self.is_current_user,
    {
        self.is_current_user
    }

    pub fn is_left(&self) -> (r: bool)
        ensures
            r == self.is_left,
    {
        self.is_left
    }
}

pub struct RTDPushMessageContentChatDeleteMemberBuilder {
    pub inner: PushMessageContentChatDeleteMember,
}

impl RTDPushMessageContentChatDeleteMemberBuilder {
    pub fn build(self) -> (r: PushMessageContentChatDeleteMember)
        ensures
            r == self.inner,
    {
        self.inner
    }

    pub fn member_name(self, member_name: String) -> (r: Self)
        ensures
            r.inner == (PushMessageContentChatDeleteMember { member_name: member_name, ..self.inner }),
    {
        let mut inner = self.inner;
        inner.member_name = member_name;
        RTDPushMessageContentChatDeleteMemberBuilder { inner }
    }

    pub fn is_current_user(self, is_current_user: bool) -> (r: Self)
        ensures
            r.inner == (PushMessageContentChatDeleteMember { is_current_user: is_current_user, ..self.inner }),
    {
        let mut inner = self.inner;
        inner.is_current_user = is_current_user;
        RTDPushMessageContentChatDeleteMemberBuilder { inner }
    }

    pub fn is_left(self, is_left: bool) -> (r: Self)
        ensures
            r.inner == (PushMessageContentChatDeleteMember { is_left: is_left, ..self.inner }),
    {
        let mut inner = self.inner;
        inner.is_left = is_left;
        RTDPushMessageContentChatDeleteMemberBuilder { inner }
    }
}

/// A new member joined the chat by invite link
#[derive(Debug, Clone, PartialEq)]
pub struct PushMessageContentChatJoinByLink {
    pub td_name: String,
    pub extra: Option<String>,
}

impl PushMessageContentChatJoinByLink {
    pub fn builder() -> (r: RTDPushMessageContentChatJoinByLinkBuilder)
        ensures
            r.inner.td_name@ == "pushMessageContentChatJoinByLink"@,
            r.inner.extra is Some,
            r.inner.extra->0@.len() == 36,
    {
        let inner = PushMessageContentChatJoinByLink {
            td_name: "pushMessageContentChatJoinByLink".to_string(),
            extra: Some(fresh_request_extra()),
        };
        RTDPushMessageContentChatJoinByLinkBuilder { inner }
    }
}

pub struct RTDPushMessageContentChatJoinByLinkBuilder {
    pub inner: PushMessageContentChatJoinByLink,
}

impl RTDPushMessageContentChatJoinByLinkBuilder {
    pub fn build(self) -> (r: PushMessageContentChatJoinByLink)
        ensures
            r == self.inner,
    {
        self.inner
    }
}

/// A message with a user contact
#[derive(Debug, Clone, PartialEq)]
pub struct PushMessageContentContact {
    pub td_name: String,
    pub extra: Option<String>,
    /// Contact's name
    pub name: String,
    /// True, if the message is a pinned message with the specified content
    pub is_pinned: bool,
}

impl PushMessageContentContact {
    pub fn builder() -> (r: RTDPushMessageContentContactBuilder)
        ensures
            r.inner.td_name@ == "pushMessageContentContact"@,
            r.inner.extra is Some,
            r.inner.extra->0@.len() == 36,
            r.inner.name@ == Seq::<char>::empty(),
            !r.inner.is_pinned,
    {
        let inner = PushMessageContentContact {
            td_name: "pushMessageContentContact".to_string(),
            extra: Some(fresh_request_extra()),
            name: String::new(),
            is_pinned: false,
        };
        RTDPushMessageContentContactBuilder { inner }
    }

    pub fn name(&self) -> (r: &String)
        ensures
            *r == self.name,
    {
        &self.name
    }

    pub fn is_pinned(&self) -> (r: bool)
        ensures
            r == self.is_pinned,
    {
        self.is_pinned
    }
}

pub struct RTDPushMessageContentContactBuilder {
    pub inner: PushMessageContentContact,
}

impl RTDPushMessageContentContactBuilder {
    pub fn build(self) -> (r: PushMessageContentContact)
        ensures
            r == self.inner,
    {
        self.inner
    }

    pub fn name(self, name: String) -> (r: Self)
        ensures
            r.inner == (PushMessageContentContact { name: name, ..self.inner }),
    {
        let mut inner = self.inner;
        inner.name = name;
        RTDPushMessageContentContactBuilder { inner }
    }

    pub fn is_pinned(self, is_pinned: bool) -> (r: Self)
        ensures
            r.inner == (PushMessageContentContact { is_pinned: is_pinned, ..self.inner }),
    {
        let mut inner = self.inner;
        inner.is_pinned = is_pinned;
        RTDPushMessageContentContactBuilder { inner }
    }
}

/// A contact has registered with Telegram
#[derive(Debug, Clone, PartialEq)]
pub struct PushMessageContentContactRegistered {
    pub td_name: String,
    pub extra: Option<String>,
}

impl PushMessageContentContactRegistered {
    pub fn builder() -> (r: RTDPushMessageContentContactRegisteredBuilder)
        ensures
            r.inner.td_name@ == "pushMessageContentContactRegistered"@,
            r.inner.extra is Some,
            r.inner.extra->0@.len() == 36,
    {
        let inner = PushMessageContentContactRegistered {
            td_name: "pushMessageContentContactRegistered".to_string(),
            extra: Some(fresh_request_extra()),
        };
        RTDPushMessageContentContactRegisteredBuilder { inner }
    }
}

pub struct RTDPushMessageContentContactRegisteredBuilder {
    pub inner: PushMessageContentContactRegistered,
}

impl RTDPushMessageContentContactRegisteredBuilder {
    pub fn build(self) -> (r: PushMessageContentContactRegistered)
        ensures
            r == self.inner,
    {
        self.inner
    }
}

/// A document message (a general file)
#[derive(Debug, Clone, PartialEq)]
pub struct PushMessageContentDocument {
    pub td_name: String,
    pub extra: Option<String>,
    /// Message content; may be null
    pub document: Option<Document>,
    /// True, if the message is a pinned message with the specified content
    pub is_pinned: bool,
}

impl PushMessageContentDocument {
    pub fn builder() -> (r: RTDPushMessageContentDocumentBuilder)
        ensures
            r.inner.td_name@ == "pushMessageContentDocument"@,
            r.inner.extra is Some,
            r.inner.extra->0@.len() == 36,
            r.inner.document is None,
            !r.inner.is_pinned,
    {
        let inner = PushMessageContentDocument {
            td_name: "pushMessageContentDocument".to_string(),
            extra: Some(fresh_request_extra()),
            document: None,
            is_pinned: false,
        };
        RTDPushMessageContentDocumentBuilder { inner }
    }

    pub fn document(&self) -> (r: &Option<Document>)
        ensures
            *r == self.document,
    {
        &self.document
    }

    pub fn is_pinned(&self) -> (r: bool)
        ensures
            r == self.is_pinned,
    {
        self.is_pinned
    }
}

pub struct RTDPushMessageContentDocumentBuilder {
    pub inner: PushMessageContentDocument,
}

impl RTDPushMessageContentDocumentBuilder {
    pub fn build(self) -> (r: PushMessageContentDocument)
        ensures
            r == self.inner,
    {
        self.inner
    }

    pub fn document(self, document: Document) -> (r: Self)
        ensures
            r.inner == (PushMessageContentDocument { document: Some(document), ..self.inner }),
    {
        let mut inner = self.inner;
        inner.document = Some(document);
        RTDPushMessageContentDocumentBuilder { inner }
    }

    pub fn is_pinned(self, is_pinned: bool) -> (r: Self)
        ensures
            r.inner == (PushMessageContentDocument { is_pinned: is_pinned, ..self.inner }),
    {
        let mut inner = self.inner;
        inner.is_pinned = is_pinned;
        RTDPushMessageContentDocumentBuilder { inner }
    }
}

/// A message with a game
#[derive(Debug, Clone, PartialEq)]
pub struct PushMessageContentGame {
    pub td_name: String,
    pub extra: Option<String>,
    /// Game title, empty for pinned game message
    pub title: String,
    /// True, if the message is a pinned message with the specified content
    pub is_pinned: bool,
}

impl PushMessageContentGame {
    pub fn builder() -> (r: RTDPushMessageContentGameBuilder)
        ensures
            r.inner.td_name@ == "pushMessageContentGame"@,
            r.inner.extra is Some,
            r.inner.extra->0@.len() == 36,
            r.inner.title@ == Seq::<char>::empty(),
            !r.inner.is_pinned,
    {
        let inner = PushMessageContentGame {
            td_name: "pushMessageContentGame".to_string(),
            extra: Some(fresh_request_extra()),
            title: String::new(),
            is_pinned: false,
        };
        RTDPushMessageContentGameBuilder { inner }
    }

    pub fn title(&self) -> (r: &String)
        ensures
            *r == self.title,
    {
        &self.title
    }

    pub fn is_pinned(&self) -> (r: bool)
        ensures
            r == self.is_pinned,
    {
        self.is_pinned
    }
}

pub struct RTDPushMessageContentGameBuilder {
    pub inner: PushMessageContentGame,
}

impl RTDPushMessageContentGameBuilder {
    pub fn build(self) -> (r: PushMessageContentGame)
        ensures
            r == self.inner,
    {
        self.inner
    }

    pub fn title(self, title: String) -> (r: Self)
        ensures
            r.inner == (PushMessageContentGame { title: title, ..self.inner }),
    {
        let mut inner = self.inner;
        inner.title = title;
        RTDPushMessageContentGameBuilder { inner }
    }

    pub fn is_pinned(self, is_pinned: bool) -> (r: Self)
        ensures
            r.inner == (PushMessageContentGame { is_pinned: is_pinned, ..self.inner }),
    {
        let mut inner = self.inner;
        inner.is_pinned = is_pinned;
        RTDPushMessageContentGameBuilder { inner }
    }
}

/// A new high score was achieved in a game
#[derive(Debug, Clone, PartialEq)]
pub struct PushMessageContentGameScore {
    pub td_name: String,
    pub extra: Option<String>,
    /// Game title, empty for pinned message
    pub title: String,
    /// New score, 0 for pinned message
    pub score: i64,
    /// True, if the message is a pinned message with the specified content
    pub is_pinned: bool,
}

impl PushMessageContentGameScore {
    pub fn builder() -> (r: RTDPushMessageContentGameScoreBuilder)
        ensures
            r.inner.td_name@ == "pushMessageContentGameScore"@,
            r.inner.extra is Some,
            r.inner.extra->0@.len() == 36,
            r.inner.title@ == Seq::<char>::empty(),
            r.inner.score == 0,
            !r.inner.is_pinned,
    {
        let inner = PushMessageContentGameScore {
            td_name: "pushMessageContentGameScore".to_string(),
            extra: Some(fresh_request_extra()),
            title: String::new(),
            score: 0,
            is_pinned: false,
        };
        RTDPushMessageContentGameScoreBuilder { inner }
    }

    pub fn title(&self) -> (r: &String)
        ensures
            *r == self.title,
    {
        &self.title
    }

    pub fn score(&self) -> (r: i64)
        ensures
            r == self.score,
    {
        self.score
    }

    pub fn is_pinned(&self) -> (r: bool)
        ensures
            r == self.is_pinned,
    {
        self.is_pinned
    }
}

pub struct RTDPushMessageContentGameScoreBuilder {
    pub inner: PushMessageContentGameScore,
}

impl RTDPushMessageContentGameScoreBuilder {
    pub fn build(self) -> (r: PushMessageContentGameScore)
        ensures
            r == self.inner,
    {
        self.inner
    }

    pub fn title(self, title: String) -> (r: Self)
        ensures
            r.inner == (PushMessageContentGameScore { title: title, ..self.inner }),
    {
        let mut inner = self.inner;
        inner.title = title;
        RTDPushMessageContentGameScoreBuilder { inner }
    }

    pub fn score(self, score: i64) -> (r: Self)
        ensures
            r.inner == (PushMessageContentGameScore { score: score, ..self.inner }),
    {
        let mut inner = self.inner;
        inner.score = score;
        RTDPushMessageContentGameScoreBuilder { inner }
    }

    pub fn is_pinned(self, is_pinned: bool) -> (r: Self)
        ensures
            r.inner == (PushMessageContentGameScore { is_pinned: is_pinned, ..self.inner }),
    {
        let mut inner = self.inner;
        inner.is_pinned = is_pinned;
        RTDPushMessageContentGameScoreBuilder { inner }
    }
}

/// A general message with hidden content
#[derive(Debug, Clone, PartialEq)]
pub struct PushMessageContentHidden {
    pub td_name: String,
    pub extra: Option<String>,
    /// True, if the message is a pinned message with the specified content
    pub is_pinned: bool,
}

impl PushMessageContentHidden {
    pub fn builder() -> (r: RTDPushMessageContentHiddenBuilder)
        ensures
            r.inner.td_name@ == "pushMessageContentHidden"@,
            r.inner.extra is Some,
            r.inner.extra->0@.len() == 36,
            !r.inner.is_pinned,
    {
        let inner = PushMessageContentHidden {
            td_name: "pushMessageContentHidden".to_string(),
            extra: Some(fresh_request_extra()),
            is_pinned: false,
        };
        RTDPushMessageContentHiddenBuilder { inner }
    }

    pub fn is_pinned(&self) -> (r: bool)
        ensures
            r == self.is_pinned,
    {
        self.is_pinned
    }
}

pub struct RTDPushMessageContentHiddenBuilder {
    pub inner: PushMessageContentHidden,
}

impl RTDPushMessageContentHiddenBuilder {
    pub fn build(self) -> (r: PushMessageContentHidden)
        ensures
            r == self.inner,
    {
        self.inner
    }

    pub fn is_pinned(self, is_pinned: bool) -> (r: Self)
        ensures
            r.inner == (PushMessageContentHidden { is_pinned: is_pinned, ..self.inner }),
    {
        let mut inner = self.inner;
        inner.is_pinned = is_pinned;
        RTDPushMessageContentHiddenBuilder { inner }
    }
}

/// A message with an invoice from a bot
#[derive(Debug, Clone, PartialEq)]
pub struct PushMessageContentInvoice {
    pub td_name: String,
    pub extra: Option<String>,
    /// Product price
    pub price: String,
    /// True, if the message is a pinned message with the specified content
    pub is_pinned: bool,
}

impl PushMessageContentInvoice {
    pub fn builder() -> (r: RTDPushMessageContentInvoiceBuilder)
        ensures
            r.inner.td_name@ == "pushMessageContentInvoice"@,
            r.inner.extra is Some,
            r.inner.extra->0@.len() == 36,
            r.inner.price@ == Seq::<char>::empty(),
            !r.inner.is_pinned,
    {
        let inner = PushMessageContentInvoice {
            td_name: "pushMessageContentInvoice".to_string(),
            extra: Some(fresh_request_extra()),
            price: String::new(),
            is_pinned: false,
        };
        RTDPushMessageContentInvoiceBuilder { inner }
    }

    pub fn price(&self) -> (r: &String)
        ensures
            *r == self.price,
    {
        &self.price
    }

    pub fn is_pinned(&self) -> (r: bool)
        ensures
            r == self.is_pinned,
    {
        self.is_pinned
    }
}

pub struct RTDPushMessageContentInvoiceBuilder {
    pub inner: PushMessageContentInvoice,
}

impl RTDPushMessageContentInvoiceBuilder {
    pub fn build(self) -> (r: PushMessageContentInvoice)
        ensures
            r == self.inner,
    {
        self.inner
    }

    pub fn price(self, price: String) -> (r: Self)
        ensures
            r.inner == (PushMessageContentInvoice { price: price, ..self.inner }),
    {
        let mut inner = self.inner;
        inner.price = price;
        RTDPushMessageContentInvoiceBuilder { inner }
    }

    pub fn is_pinned(self, is_pinned: bool) -> (r: Self)
        ensures
            r.inner == (PushMessageContentInvoice { is_pinned: is_pinned, ..self.inner }),
    {
        let mut inner = self.inner;
        inner.is_pinned = is_pinned;
        RTDPushMessageContentInvoiceBuilder { inner }
    }
}

/// A message with a location
#[derive(Debug, Clone, PartialEq)]
pub struct PushMessageContentLocation {
    pub td_name: String,
    pub extra: Option<String>,
    /// True, if the location is live
    pub is_live: bool,
    /// True, if the message is a pinned message with the specified content
    pub is_pinned: bool,
}

impl PushMessageContentLocation {
    pub fn builder() -> (r: RTDPushMessageContentLocationBuilder)
        ensures
            r.inner.td_name@ == "pushMessageContentLocation"@,
            r.inner.extra is Some,
            r.inner.extra->0@.len() == 36,
            !r.inner.is_live,
            !r.inner.is_pinned,
    {
        let inner = PushMessageContentLocation {
            td_name: "pushMessageContentLocation".to_string(),
            extra: Some(fresh_request_extra()),
            is_live: false,
            is_pinned: false,
        };
        RTDPushMessageContentLocationBuilder { inner }
    }

    pub fn is_live(&self) -> (r: bool)
        ensures
            r == self.is_live,
    {
        self.is_live
    }

    pub fn is_pinned(&self) -> (r: bool)
        ensures
            r == self.is_pinned,
    {
        self.is_pinned
    }
}

pub struct RTDPushMessageContentLocationBuilder {
    pub inner: PushMessageContentLocation,
}

impl RTDPushMessageContentLocationBuilder {
    pub fn build(self) -> (r: PushMessageContentLocation)
        ensures
            r == self.inner,
    {
        self.inner
    }

    pub fn is_live(self, is_live: bool) -> (r: Self)
        ensures
            r.inner == (PushMessageContentLocation { is_live: is_live, ..self.inner }),
    {
        let mut inner = self.inner;
        inner.is_live = is_live;
        RTDPushMessageContentLocationBuilder { inner }
    }

    pub fn is_pinned(self, is_pinned: bool) -> (r: Self)
        ensures
            r.inner == (PushMessageContentLocation { is_pinned: is_pinned, ..self.inner }),
    {
        let mut inner = self.inner;
        inner.is_pinned = is_pinned;
        RTDPushMessageContentLocationBuilder { inner }
    }
}

/// A media album
#[derive(Debug, Clone, PartialEq)]
pub struct PushMessageContentMediaAlbum {
    pub td_name: String,
    pub extra: Option<String>,
    /// Number of messages in the album
    pub total_count: i64,
    /// True, if the album has at least one photo
    pub has_photos: bool,
    /// True, if the album has at least one video
    pub has_videos: bool,
}

impl PushMessageContentMediaAlbum {
    pub fn builder() -> (r: RTDPushMessageContentMediaAlbumBuilder)
        ensures
            r.inner.td_name@ == "pushMessageContentMediaAlbum"@,
            r.inner.extra is Some,
            r.inner.extra->0@.len() == 36,
            r.inner.total_count == 0,
            !r.inner.has_photos,
            !r.inner.has_videos,
    {
        let inner = PushMessageContentMediaAlbum {
            td_name: "pushMessageContentMediaAlbum".to_string(),
            extra: Some(fresh_request_extra()),
            total_count: 0,
            has_photos: false,
            has_videos: false,
        };
        RTDPushMessageContentMediaAlbumBuilder { inner }
    }

    pub fn total_count(&self) -> (r: i64)
        ensures
            r == self.total_count,
    {
        self.total_count
    }

    pub fn has_photos(&self) -> (r: bool)
        ensures
            r == self.has_photos,
    {
        self.has_photos
    }

    pub fn has_videos(&self) -> (r: bool)
        ensures
            r == self.has_videos,
    {
        self.has_videos
    }
}

pub struct RTDPushMessageContentMediaAlbumBuilder {
    pub inner: PushMessageContentMediaAlbum,
}

impl RTDPushMessageContentMediaAlbumBuilder {
    pub fn build(self) -> (r: PushMessageContentMediaAlbum)
        ensures
            r == self.inner,
    {
        self.inner
    }

    pub fn total_count(self, total_count: i64) -> (r: Self)
        ensures
            r.inner == (PushMessageContentMediaAlbum { total_count: total_count, ..self.inner }),
    {
        let mut inner = self.inner;
        inner.total_count = total_count;
        RTDPushMessageContentMediaAlbumBuilder { inner }
    }

    pub fn has_photos(self, has_photos: bool) -> (r: Self)
        ensures
            r.inner == (PushMessageContentMediaAlbum { has_photos: has_photos, ..self.inner }),
    {
        let mut inner = self.inner;
        inner.has_photos = has_photos;
        RTDPushMessageContentMediaAlbumBuilder { inner }
    }

    pub fn has_videos(self, has_videos: bool) -> (r: Self)
        ensures
            r.inner == (PushMessageContentMediaAlbum { has_videos: has_videos, ..self.inner }),
    {
        let mut inner = self.inner;
        inner.has_videos = has_videos;
        RTDPushMessageContentMediaAlbumBuilder { inner }
    }
}

/// A forwarded messages
#[derive(Debug, Clone, PartialEq)]
pub struct PushMessageContentMessageForwards {
    pub td_name: String,
    pub extra: Option<String>,
    /// Number of forwarded messages
    pub total_count: i64,
}

impl PushMessageContentMessageForwards {
    pub fn builder() -> (r: RTDPushMessageContentMessageForwardsBuilder)
        ensures
            r.inner.td_name@ == "pushMessageContentMessageForwards"@,
            r.inner.extra is Some,
            r.inner.extra->0@.len() == 36,
            r.inner.total_count == 0,
    {
        let inner = PushMessageContentMessageForwards {
            td_name: "pushMessageContentMessageForwards".to_string(),
            extra: Some(fresh_request_extra()),
            total_count: 0,
        };
        RTDPushMessageContentMessageForwardsBuilder { inner }
    }

    pub fn total_count(&self) -> (r: i64)
        ensures
            r == self.total_count,
    {
        self.total_count
    }
}

pub struct RTDPushMessageContentMessageForwardsBuilder {
    pub inner: PushMessageContentMessageForwards,
}

impl RTDPushMessageContentMessageForwardsBuilder {
    pub fn build(self) -> (r: PushMessageContentMessageForwards)
        ensures
            r == self.inner,
    {
        self.inner
    }

    pub fn total_count(self, total_count: i64) -> (r: Self)
        ensures
            r.inner == (PushMessageContentMessageForwards { total_count: total_count, ..self.inner }),
    {
        let mut inner = self.inner;
        inner.total_count = total_count;
        RTDPushMessageContentMessageForwardsBuilder { inner }
    }
}

/// A photo message
#[derive(Debug, Clone, PartialEq)]
pub struct PushMessageContentPhoto {
    pub td_name: String,
    pub extra: Option<String>,
    /// Message content; may be null
    pub photo: Option<Photo>,
    /// Photo caption
    pub caption: String,
    /// True, if the photo is secret
    pub is_secret: bool,
    /// True, if the message is a pinned message with the specified content
    pub is_pinned: bool,
}

impl PushMessageContentPhoto {
    pub fn builder() -> (r: RTDPushMessageContentPhotoBuilder)
        ensures
            r.inner.td_name@ == "pushMessageContentPhoto"@,
            r.inner.extra is Some,
            r.inner.extra->0@.len() == 36,
            r.inner.photo is None,
            r.inner.caption@ == Seq::<char>::empty(),
            !r.inner.is_secret,
            !r.inner.is_pinned,
    {
        let inner = PushMessageContentPhoto {
            td_name: "pushMessageContentPhoto".to_string(),
            extra: Some(fresh_request_extra()),
            photo: None,
            caption: String::new(),
            is_secret: false,
            is_pinned: false,
        };
        RTDPushMessageContentPhotoBuilder { inner }
    }

    pub fn photo(&self) -> (r: &Option<Photo>)
        ensures
            *r == self.photo,
    {
        &self.photo
    }

    pub fn caption(&self) -> (r: &String)
        ensures
            *r == self.caption,
    {
        &self.caption
    }

    pub fn is_secret(&self) -> (r: bool)
        ensures
            r == self.is_secret,
    {
        self.is_secret
    }

    pub fn is_pinned(&self) -> (r: bool)
        ensures
            r == self.is_pinned,
    {
        self.is_pinned
    }
}

pub struct RTDPushMessageContentPhotoBuilder {
    pub inner: PushMessageContentPhoto,
}

impl RTDPushMessageContentPhotoBuilder {
    pub fn build(self) -> (r: PushMessageContentPhoto)
        ensures
            r == self.inner,
    {
        self.inner
    }

    pub fn photo(self, photo: Photo) -> (r: Self)
        ensures
            r.inner == (PushMessageContentPhoto { photo: Some(photo), ..self.inner }),
    {
        let mut inner = self.inner;
        inner.photo = Some(photo);
        RTDPushMessageContentPhotoBuilder { inner }
    }

    pub fn caption(self, caption: String) -> (r: Self)
        ensures
            r.inner == (PushMessageContentPhoto { caption: caption, ..self.inner }),
    {
        let mut inner = self.inner;
        inner.caption = caption;
        RTDPushMessageContentPhotoBuilder { inner }
    }

    pub fn is_secret(self, is_secret: bool) -> (r: Self)
        ensures
            r.inner == (PushMessageContentPhoto { is_secret: is_secret, ..self.inner }),
    {
        let mut inner = self.inner;
        inner.is_secret = is_secret;
        RTDPushMessageContentPhotoBuilder { inner }
    }

    pub fn is_pinned(self, is_pinned: bool) -> (r: Self)
        ensures
            r.inner == (PushMessageContentPhoto { is_pinned: is_pinned, ..self.inner }),
    {
        let mut inner = self.inner;
        inner.is_pinned = is_pinned;
        RTDPushMessageContentPhotoBuilder { inner }
    }
}

/// A message with a poll
#[derive(Debug, Clone, PartialEq)]
pub struct PushMessageContentPoll {
    pub td_name: String,
    pub extra: Option<String>,
    /// Poll question
    pub question: String,
    /// True, if the poll is regular and not in quiz mode
    pub is_regular: bool,
    /// True, if the message is a pinned message with the specified content
    pub is_pinned: bool,
}

impl PushMessageContentPoll {
    pub fn builder() -> (r: RTDPushMessageContentPollBuilder)
        ensures
            r.inner.td_name@ == "pushMessageContentPoll"@,
            r.inner.extra is Some,
            r.inner.extra->0@.len() == 36,
            r.inner.question@ == Seq::<char>::empty(),
            !r.inner.is_regular,
            !r.inner.is_pinned,
    {
        let inner = PushMessageContentPoll {
            td_name: "pushMessageContentPoll".to_string(),
            extra: Some(fresh_request_extra()),
            question: String::new(),
            is_regular: false,
            is_pinned: false,
        };
        RTDPushMessageContentPollBuilder { inner }
    }

    pub fn question(&self) -> (r: &String)
        ensures
            *r == self.question,
    {
        &self.question
    }

    pub fn is_regular(&self) -> (r: bool)
        ensures
            r == self.is_regular,
    {
        self.is_regular
    }

    pub fn is_pinned(&self) -> (r: bool)
        ensures
            r == self.is_pinned,
    {
        self.is_pinned
    }
}

pub struct RTDPushMessageContentPollBuilder {
    pub inner: PushMessageContentPoll,
}

impl RTDPushMessageContentPollBuilder {
    pub fn build(self) -> (r: PushMessageContentPoll)
        ensures
            r == self.inner,
    {
        self.inner
    }

    pub fn question(self, question: String) -> (r: Self)
        ensures
            r.inner == (PushMessageContentPoll { question: question, ..self.inner }),
    {
        let mut inner = self.inner;
        inner.question = question;
        RTDPushMessageContentPollBuilder { inner }
    }

    pub fn is_regular(self, is_regular: bool) -> (r: Self)
        ensures
            r.inner == (PushMessageContentPoll { is_regular: is_regular, ..self.inner }),
    {
        let mut inner = self.inner;
        inner.is_regular = is_regular;
        RTDPushMessageContentPollBuilder { inner }
    }

    pub fn is_pinned(self, is_pinned: bool) -> (r: Self)
        ensures
            r.inner == (PushMessageContentPoll { is_pinned: is_pinned, ..self.inner }),
    {
        let mut inner = self.inner;
        inner.is_pinned = is_pinned;
        RTDPushMessageContentPollBuilder { inner }
    }
}

/// A screenshot of a message in the chat has been taken
#[derive(Debug, Clone, PartialEq)]
pub struct PushMessageContentScreenshotTaken {
    pub td_name: String,
    pub extra: Option<String>,
}

impl PushMessageContentScreenshotTaken {
    pub fn builder() -> (r: RTDPushMessageContentScreenshotTakenBuilder)
        ensures
            r.inner.td_name@ == "pushMessageContentScreenshotTaken"@,
            r.inner.extra is Some,
            r.inner.extra->0@.len() == 36,
    {
        let inner = PushMessageContentScreenshotTaken {
            td_name: "pushMessageContentScreenshotTaken".to_string(),
            extra: Some(fresh_request_extra()),
        };
        RTDPushMessageContentScreenshotTakenBuilder { inner }
    }
}

pub struct RTDPushMessageContentScreenshotTakenBuilder {
    pub inner: PushMessageContentScreenshotTaken,
}

impl RTDPushMessageContentScreenshotTakenBuilder {
    pub fn build(self) -> (r: PushMessageContentScreenshotTaken)
        ensures
            r == self.inner,
    {
        self.inner
    }
}

/// A message with a sticker
#[derive(Debug, Clone, PartialEq)]
pub struct PushMessageContentSticker {
    pub td_name: String,
    pub extra: Option<String>,
    /// Message content; may be null
    pub sticker: Option<Sticker>,
    /// Emoji corresponding to the sticker; may be empty
    pub emoji: String,
    /// True, if the message is a pinned message with the specified content
    pub is_pinned: bool,
}

impl PushMessageContentSticker {
    pub fn builder() -> (r: RTDPushMessageContentStickerBuilder)
        ensures
            r.inner.td_name@ == "pushMessageContentSticker"@,
            r.inner.extra is Some,
            r.inner.extra->0@.len() == 36,
            r.inner.sticker is None,
            r.inner.emoji@ == Seq::<char>::empty(),
            !r.inner.is_pinned,
    {
        let inner = PushMessageContentSticker {
            td_name: "pushMessageContentSticker".to_string(),
            extra: Some(fresh_request_extra()),
            sticker: None,
            emoji: String::new(),
            is_pinned: false,
        };
        RTDPushMessageContentStickerBuilder { inner }
    }

    pub fn sticker(&self) -> (r: &Option<Sticker>)
        ensures
            *r == self.sticker,
    {
        &self.sticker
    }

    pub fn emoji(&self) -> (r: &String)
        ensures
            *r == self.emoji,
    {
        &self.emoji
    }

    pub fn is_pinned(&self) -> (r: bool)
        ensures
            r == self.is_pinned,
    {
        self.is_pinned
    }
}

pub struct RTDPushMessageContentStickerBuilder {
    pub inner: PushMessageContentSticker,
}

impl RTDPushMessageContentStickerBuilder {
    pub fn build(self) -> (r: PushMessageContentSticker)
        ensures
            r == self.inner,
    {
        self.inner
    }

    pub fn sticker(self, sticker: Sticker) -> (r: Self)
        ensures
            r.inner == (PushMessageContentSticker { sticker: Some(sticker), ..self.inner }),
    {
        let mut inner = self.inner;
        inner.sticker = Some(sticker);
        RTDPushMessageContentStickerBuilder { inner }
    }

    pub fn emoji(self, emoji: String) -> (r: Self)
        ensures
            r.inner == (PushMessageContentSticker { emoji: emoji, ..self.inner }),
    {
        let mut inner = self.inner;
        inner.emoji = emoji;
        RTDPushMessageContentStickerBuilder { inner }
    }

    pub fn is_pinned(self, is_pinned: bool) -> (r: Self)
        ensures
            r.inner == (PushMessageContentSticker { is_pinned: is_pinned, ..self.inner }),
    {
        let mut inner = self.inner;
        inner.is_pinned = is_pinned;
        RTDPushMessageContentStickerBuilder { inner }
    }
}

/// A text message
#[derive(Debug, Clone, PartialEq)]
pub struct PushMessageContentText {
    pub td_name: String,
    pub extra: Option<String>,
    /// Message text
    pub text: String,
    /// True, if the message is a pinned message with the specified content
    pub is_pinned: bool,
}

impl PushMessageContentText {
    pub fn builder() -> (r: RTDPushMessageContentTextBuilder)
        ensures
            r.inner.td_name@ == "pushMessageContentText"@,
            r.inner.extra is Some,
            r.inner.extra->0@.len() == 36,
            r.inner.text@ == Seq::<char>::empty(),
            !r.inner.is_pinned,
    {
        let inner = PushMessageContentText {
            td_name: "pushMessageContentText".to_string(),
            extra: Some(fresh_request_extra()),
            text: String::new(),
            is_pinned: false,
        };
        RTDPushMessageContentTextBuilder { inner }
    }

    pub fn text(&self) -> (r: &String)
        ensures
            *r == self.text,
    {
        &self.text
    }

    pub fn is_pinned(&self) -> (r: bool)
        ensures
            r == self.is_pinned,
    {
        self.is_pinned
    }
}

pub struct RTDPushMessageContentTextBuilder {
    pub inner: PushMessageContentText,
}

impl RTDPushMessageContentTextBuilder {
    pub fn build(self) -> (r: PushMessageContentText)
        ensures
            r == self.inner,
    {
        self.inner
    }

    pub fn text(self, text: String) -> (r: Self)
        ensures
            r.inner == (PushMessageContentText { text: text, ..self.inner }),
    {
        let mut inner = self.inner;
        inner.text = text;
        RTDPushMessageContentTextBuilder { inner }
    }

    pub fn is_pinned(self, is_pinned: bool) -> (r: Self)
        ensures
            r.inner == (PushMessageContentText { is_pinned: is_pinned, ..self.inner }),
    {
        let mut inner = self.inner;
        inner.is_pinned = is_pinned;
        RTDPushMessageContentTextBuilder { inner }
    }
}

/// A video message
#[derive(Debug, Clone, PartialEq)]
pub struct PushMessageContentVideo {
    pub td_name: String,
    pub extra: Option<String>,
    /// Message content; may be null
    pub video: Option<Video>,
    /// Video caption
    pub caption: String,
    /// True, if the video is secret
    pub is_secret: bool,
    /// True, if the message is a pinned message with the specified content
    pub is_pinned: bool,
}

impl PushMessageContentVideo {
    pub fn builder() -> (r: RTDPushMessageContentVideoBuilder)
        ensures
            r.inner.td_name@ == "pushMessageContentVideo"@,
            r.inner.extra is Some,
            r.inner.extra->0@.len() == 36,
            r.inner.video is None,
            r.inner.caption@ == Seq::<char>::empty(),
            !r.inner.is_secret,
            !r.inner.is_pinned,
    {
        let inner = PushMessageContentVideo {
            td_name: "pushMessageContentVideo".to_string(),
            extra: Some(fresh_request_extra()),
            video: None,
            caption: String::new(),
            is_secret: false,
            is_pinned: false,
        };
        RTDPushMessageContentVideoBuilder { inner }
    }

    pub fn video(&self) -> (r: &Option<Video>)
        ensures
            *r == self.video,
    {
        &self.video
    }

    pub fn caption(&self) -> (r: &String)
        ensures
            *r == self.caption,
    {
        &self.caption
    }

    pub fn is_secret(&self) -> (r: bool)
        ensures
            r == self.is_secret,
    {
        self.is_secret
    }

    pub fn is_pinned(&self) -> (r: bool)
        ensures
            r == self.is_pinned,
    {
        self.is_pinned
    }
}

pub struct RTDPushMessageContentVideoBuilder {
    pub inner: PushMessageContentVideo,
}

impl RTDPushMessageContentVideoBuilder {
    pub fn build(self) -> (r: PushMessageContentVideo)
        ensures
            r == self.inner,
    {
        self.inner
    }

    pub fn video(self, video: Video) -> (r: Self)
        ensures
            r.inner == (PushMessageContentVideo { video: Some(video), ..self.inner }),
    {
        let mut inner = self.inner;
        inner.video = Some(video);
        RTDPushMessageContentVideoBuilder { inner }
    }

    pub fn caption(self, caption: String) -> (r: Self)
        ensures
            r.inner == (PushMessageContentVideo { caption: caption, ..self.inner }),
    {
        let mut inner = self.inner;
        inner.caption = caption;
        RTDPushMessageContentVideoBuilder { inner }
    }

    pub fn is_secret(self, is_secret: bool) -> (r: Self)
        ensures
            r.inner == (PushMessageContentVideo { is_secret: is_secret, ..self.inner }),
    {
        let mut inner = self.inner;
        inner.is_secret = is_secret;
        RTDPushMessageContentVideoBuilder { inner }
    }

    pub fn is_pinned(self, is_pinned: bool) -> (r: Self)
        ensures
            r.inner == (PushMessageContentVideo { is_pinned: is_pinned, ..self.inner }),
    {
        let mut inner = self.inner;
        inner.is_pinned = is_pinned;
        RTDPushMessageContentVideoBuilder { inner }
    }
}

/// A video note message
#[derive(Debug, Clone, PartialEq)]
pub struct PushMessageContentVideoNote {
    pub td_name: String,
    pub extra: Option<String>,
    /// Message content; may be null
    pub video_note: Option<VideoNote>,
    /// True, if the message is a pinned message with the specified content
    pub is_pinned: bool,
}

impl PushMessageContentVideoNote {
    pub fn builder() -> (r: RTDPushMessageContentVideoNoteBuilder)
        ensures
            r.inner.td_name@ == "pushMessageContentVideoNote"@,
            r.inner.extra is Some,
            r.inner.extra->0@.len() == 36,
            r.inner.video_note is None,
            !r.inner.is_pinned,
    {
        let inner = PushMessageContentVideoNote {
            td_name: "pushMessageContentVideoNote".to_string(),
            extra: Some(fresh_request_extra()),
            video_note: None,
            is_pinned: false,
        };
        RTDPushMessageContentVideoNoteBuilder { inner }
    }

    pub fn video_note(&self) -> (r: &Option<VideoNote>)
        ensures
            *r == self.video_note,
    {
        &self.video_note
    }

    pub fn is_pinned(&self) -> (r: bool)
        ensures
            r == self.is_pinned,
    {
        self.is_pinned
    }
}

pub struct RTDPushMessageContentVideoNoteBuilder {
    pub inner: PushMessageContentVideoNote,
}

impl RTDPushMessageContentVideoNoteBuilder {
    pub fn build(self) -> (r: PushMessageContentVideoNote)
        ensures
            r == self.inner,
    {
        self.inner
    }

    pub fn video_note(self, video_note: VideoNote) -> (r: Self)
        ensures
            r.inner == (PushMessageContentVideoNote { video_note: Some(video_note), ..self.inner }),
    {
        let mut inner = self.inner;
        inner.video_note = Some(video_note);
        RTDPushMessageContentVideoNoteBuilder { inner }
    }

    pub fn is_pinned(self, is_pinned: bool) -> (r: Self)
        ensures
            r.inner == (PushMessageContentVideoNote { is_pinned: is_pinned, ..self.inner }),
    {
        let mut inner = self.inner;
        inner.is_pinned = is_pinned;
        RTDPushMessageContentVideoNoteBuilder { inner }
    }
}

/// A voice note message
#[derive(Debug, Clone, PartialEq)]
pub struct PushMessageContentVoiceNote {
    pub td_name: String,
    pub extra: Option<String>,
    /// Message content; may be null
    pub voice_note: Option<VoiceNote>,
    /// True, if the message is a pinned message with the specified content
    pub is_pinned: bool,
}

impl PushMessageContentVoiceNote {
    pub fn builder() -> (r: RTDPushMessageContentVoiceNoteBuilder)
        ensures
            r.inner.td_name@ == "pushMessageContentVoiceNote"@,
            r.inner.extra is Some,
            r.inner.extra->0@.len() == 36,
            r.inner.voice_note is None,
            !r.inner.is_pinned,
    {
        let inner = PushMessageContentVoiceNote {
            td_name: "pushMessageContentVoiceNote".to_string(),
            extra: Some(fresh_request_extra()),
            voice_note: None,
            is_pinned: false,
        };
        RTDPushMessageContentVoiceNoteBuilder { inner }
    }

    pub fn voice_note(&self) -> (r: &Option<VoiceNote>)
        ensures
            *r == self.voice_note,
    {
        &self.voice_note
    }

    pub fn is_pinned(&self) -> (r: bool)
        ensures
            r == self.is_pinned,
    {
        self.is_pinned
    }
}

pub struct RTDPushMessageContentVoiceNoteBuilder {
    pub inner: PushMessageContentVoiceNote,
}

impl RTDPushMessageContentVoiceNoteBuilder {
    pub fn build(self) -> (r: PushMessageContentVoiceNote)
        ensures
            r == self.inner,
    {
        self.inner
    }

    pub fn voice_note(self, voice_note: VoiceNote) -> (r: Self)
        ensures
            r.inner == (PushMessageContentVoiceNote { voice_note: Some(voice_note), ..self.inner }),
    {
        let mut inner = self.inner;
        inner.voice_note = Some(voice_note);
        RTDPushMessageContentVoiceNoteBuilder { inner }
    }

    pub fn is_pinned(self, is_pinned: bool) -> (r: Self)
        ensures
            r.inner == (PushMessageContentVoiceNote { is_pinned: is_pinned, ..self.inner }),
    {
        let mut inner = self.inner;
        inner.is_pinned = is_pinned;
        RTDPushMessageContentVoiceNoteBuilder { inner }
    }
}

impl TDPushMessageContent for PushMessageContentAnimation {}
impl TDPushMessageContent for PushMessageContentAudio {}
impl TDPushMessageContent for PushMessageContentBasicGroupChatCreate {}
impl TDPushMessageContent for PushMessageContentChatAddMembers {}
impl TDPushMessageContent for PushMessageContentChatChangePhoto {}
impl TDPushMessageContent for PushMessageContentChatChangeTitle {}
impl TDPushMessageContent for PushMessageContentChatDeleteMember {}
impl TDPushMessageContent for PushMessageContentChatJoinByLink {}
impl TDPushMessageContent for PushMessageContentContact {}
impl TDPushMessageContent for PushMessageContentContactRegistered {}
impl TDPushMessageContent for PushMessageContentDocument {}
impl TDPushMessageContent for PushMessageContentGame {}
impl TDPushMessageContent for PushMessageContentGameScore {}
impl TDPushMessageContent for PushMessageContentHidden {}
impl TDPushMessageContent for PushMessageContentInvoice {}
impl TDPushMessageContent for PushMessageContentLocation {}
impl TDPushMessageContent for PushMessageContentMediaAlbum {}
impl TDPushMessageContent for PushMessageContentMessageForwards {}
impl TDPushMessageContent for PushMessageContentPhoto {}
impl TDPushMessageContent for PushMessageContentPoll {}
impl TDPushMessageContent for PushMessageContentScreenshotTaken {}
impl TDPushMessageContent for PushMessageContentSticker {}
impl TDPushMessageContent for PushMessageContentText {}
impl TDPushMessageContent for PushMessageContentVideo {}
impl TDPushMessageContent for PushMessageContentVideoNote {}
impl TDPushMessageContent for PushMessageContentVoiceNote {}

impl PushMessageContent {
    /// The correlation identifier this value carries, if any.
    pub open spec fn spec_extra(&self) -> Option<Seq<char>> {
        match self {
            PushMessageContent::_Default => None,
            PushMessageContent::Animation(t) => opt_str_view(t.extra),
            PushMessageContent::Audio(t) => opt_str_view(t.extra),
            PushMessageContent::BasicGroupChatCreate(t) => opt_str_view(t.extra),
            PushMessageContent::ChatAddMembers(t) => opt_str_view(t.extra),
            PushMessageContent::ChatChangePhoto(t) => opt_str_view(t.extra),
            PushMessageContent::ChatChangeTitle(t) => opt_str_view(t.extra),
            PushMessageContent::ChatDeleteMember(t) => opt_str_view(t.extra),
            PushMessageContent::ChatJoinByLink(t) => opt_str_view(t.extra),
            PushMessageContent::Contact(t) => opt_str_view(t.extra),
            PushMessageContent::ContactRegistered(t) => opt_str_view(t.extra),
            PushMessageContent::Document(t) => opt_str_view(t.extra),
            PushMessageContent::Game(t) => opt_str_view(t.extra),
            PushMessageContent::GameScore(t) => opt_str_view(t.extra),
            PushMessageContent::Hidden(t) => opt_str_view(t.extra),
            PushMessageContent::Invoice(t) => opt_str_view(t.extra),
            PushMessageContent::Location(t) => opt_str_view(t.extra),
            PushMessageContent::MediaAlbum(t) => opt_str_view(t.extra),
            PushMessageContent::MessageForwards(t) => opt_str_view(t.extra),
            PushMessageContent::Photo(t) => opt_str_view(t.extra),
            PushMessageContent::Poll(t) => opt_str_view(t.extra),
            PushMessageContent::ScreenshotTaken(t) => opt_str_view(t.extra),
            PushMessageContent::Sticker(t) => opt_str_view(t.extra),
            PushMessageContent::Text(t) => opt_str_view(t.extra),
            PushMessageContent::Video(t) => opt_str_view(t.extra),
            PushMessageContent::VideoNote(t) => opt_str_view(t.extra),
            PushMessageContent::VoiceNote(t) => opt_str_view(t.extra),
        }
    }

    /// The correlation identifier this value carries, if any.
    pub fn extra(&self) -> (r: Option<&String>)
        ensures
            match r {
                Some(s) => self.spec_extra() == Some(s@),
                None => self.spec_extra() is None,
            },
    {
        let o = match self {
            PushMessageContent::_Default => &None,
            PushMessageContent::Animation(t) => &t.extra,
            PushMessageContent::Audio(t) => &t.extra,
            PushMessageContent::BasicGroupChatCreate(t) => &t.extra,
            PushMessageContent::ChatAddMembers(t) => &t.extra,
            PushMessageContent::ChatChangePhoto(t) => &t.extra,
            PushMessageContent::ChatChangeTitle(t) => &t.extra,
            PushMessageContent::ChatDeleteMember(t) => &t.extra,
            PushMessageContent::ChatJoinByLink(t) => &t.extra,
            PushMessageContent::Contact(t) => &t.extra,
            PushMessageContent::ContactRegistered(t) => &t.extra,
            PushMessageContent::Document(t) => &t.extra,
            PushMessageContent::Game(t) => &t.extra,
            PushMessageContent::GameScore(t) => &t.extra,
            PushMessageContent::Hidden(t) => &t.extra,
            PushMessageContent::Invoice(t) => &t.extra,
            PushMessageContent::Location(t) => &t.extra,
            PushMessageContent::MediaAlbum(t) => &t.extra,
            PushMessageContent::MessageForwards(t) => &t.extra,
            PushMessageContent::Photo(t) => &t.extra,
            PushMessageContent::Poll(t) => &t.extra,
            PushMessageContent::ScreenshotTaken(t) => &t.extra,
            PushMessageContent::Sticker(t) => &t.extra,
            PushMessageContent::Text(t) => &t.extra,
            PushMessageContent::Video(t) => &t.extra,
            PushMessageContent::VideoNote(t) => &t.extra,
            PushMessageContent::VoiceNote(t) => &t.extra,
        };
        match o {
            Some(s) => Some(s),
            None => None,
        }
    }

    /// The wire tag of this value's variant; empty for the hidden
    /// placeholder variant.
    pub open spec fn spec_td_name(&self) -> Seq<char> {
        match self {
            PushMessageContent::_Default => ""@,
            PushMessageContent::Animation(_) => "pushMessageContentAnimation"@,
            PushMessageContent::Audio(_) => "pushMessageContentAudio"@,
            PushMessageContent::BasicGroupChatCreate(_) => "pushMessageContentBasicGroupChatCreate"@,
            PushMessageContent::ChatAddMembers(_) => "pushMessageContentChatAddMembers"@,
            PushMessageContent::ChatChangePhoto(_) => "pushMessageContentChatChangePhoto"@,
            PushMessageContent::ChatChangeTitle(_) => "pushMessageContentChatChangeTitle"@,
            PushMessageContent::ChatDeleteMember(_) => "pushMessageContentChatDeleteMember"@,
            PushMessageContent::ChatJoinByLink(_) => "pushMessageContentChatJoinByLink"@,
            PushMessageContent::Contact(_) => "pushMessageContentContact"@,
            PushMessageContent::ContactRegistered(_) => "pushMessageContentContactRegistered"@,
            PushMessageContent::Document(_) => "pushMessageContentDocument"@,
            PushMessageContent::Game(_) => "pushMessageContentGame"@,
            PushMessageContent::GameScore(_) => "pushMessageContentGameScore"@,
            PushMessageContent::Hidden(_) => "pushMessageContentHidden"@,
            PushMessageContent::Invoice(_) => "pushMessageContentInvoice"@,
            PushMessageContent::Location(_) => "pushMessageContentLocation"@,
            PushMessageContent::MediaAlbum(_) => "pushMessageContentMediaAlbum"@,
            PushMessageContent::MessageForwards(_) => "pushMessageContentMessageForwards"@,
            PushMessageContent::Photo(_) => "pushMessageContentPhoto"@,
            PushMessageContent::Poll(_) => "pushMessageContentPoll"@,
            PushMessageContent::ScreenshotTaken(_) => "pushMessageContentScreenshotTaken"@,
            PushMessageContent::Sticker(_) => "pushMessageContentSticker"@,
            PushMessageContent::Text(_) => "pushMessageContentText"@,
            PushMessageContent::Video(_) => "pushMessageContentVideo"@,
            PushMessageContent::VideoNote(_) => "pushMessageContentVideoNote"@,
            PushMessageContent::VoiceNote(_) => "pushMessageContentVoiceNote"@,
        }
    }

    /// The wire tag of this value's variant.
    pub fn td_name(&self) -> (r: &str)
        ensures
            r@ == self.spec_td_name(),
    {
        match self {
            PushMessageContent::_Default => "",
            PushMessageContent::Animation(_) => "pushMessageContentAnimation",
            PushMessageContent::Audio(_) => "pushMessageContentAudio",
            PushMessageContent::BasicGroupChatCreate(_) => "pushMessageContentBasicGroupChatCreate",
            PushMessageContent::ChatAddMembers(_) => "pushMessageContentChatAddMembers",
            PushMessageContent::ChatChangePhoto(_) => "pushMessageContentChatChangePhoto",
            PushMessageContent::ChatChangeTitle(_) => "pushMessageContentChatChangeTitle",
            PushMessageContent::ChatDeleteMember(_) => "pushMessageContentChatDeleteMember",
            PushMessageContent::ChatJoinByLink(_) => "pushMessageContentChatJoinByLink",
            PushMessageContent::Contact(_) => "pushMessageContentContact",
            PushMessageContent::ContactRegistered(_) => "pushMessageContentContactRegistered",
            PushMessageContent::Document(_) => "pushMessageContentDocument",
            PushMessageContent::Game(_) => "pushMessageContentGame",
            PushMessageContent::GameScore(_) => "pushMessageContentGameScore",
            PushMessageContent::Hidden(_) => "pushMessageContentHidden",
            PushMessageContent::Invoice(_) => "pushMessageContentInvoice",
            PushMessageContent::Location(_) => "pushMessageContentLocation",
            PushMessageContent::MediaAlbum(_) => "pushMessageContentMediaAlbum",
            PushMessageContent::MessageForwards(_) => "pushMessageContentMessageForwards",
            PushMessageContent::Photo(_) => "pushMessageContentPhoto",
            PushMessageContent::Poll(_) => "pushMessageContentPoll",
            PushMessageContent::ScreenshotTaken(_) => "pushMessageContentScreenshotTaken",
            PushMessageContent::Sticker(_) => "pushMessageContentSticker",
            PushMessageContent::Text(_) => "pushMessageContentText",
            PushMessageContent::Video(_) => "pushMessageContentVideo",
            PushMessageContent::VideoNote(_) => "pushMessageContentVideoNote",
            PushMessageContent::VoiceNote(_) => "pushMessageContentVoiceNote",
        }
    }
}

} // verus!
