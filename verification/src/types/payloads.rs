use vstd::prelude::*;

verus! {

// Protocol payload types that the message records in this crate
// carry through without inspecting. Their full field lists are
// given by the platform schema; here each is an opaque record,
// which is all the client core relies on.

#[derive(Debug, Clone, PartialEq)]
pub struct Animation {}

#[derive(Debug, Clone, PartialEq)]
pub struct Audio {}

#[derive(Debug, Clone, PartialEq)]
pub struct ChatActionBar {}

#[derive(Debug, Clone, PartialEq)]
pub struct ChatJoinRequestsInfo {}

#[derive(Debug, Clone, PartialEq)]
pub struct ChatLocation {}

#[derive(Debug, Clone, PartialEq)]
pub struct ChatMemberStatus {}

#[derive(Debug, Clone, PartialEq)]
pub struct ChatNotificationSettings {}

#[derive(Debug, Clone, PartialEq)]
pub struct ChatPermissions {}

#[derive(Debug, Clone, PartialEq)]
pub struct ChatPhotoInfo {}

#[derive(Debug, Clone, PartialEq)]
pub struct ChatPosition {}

#[derive(Debug, Clone, PartialEq)]
pub struct ChatType {}

#[derive(Debug, Clone, PartialEq)]
pub struct Document {}

#[derive(Debug, Clone, PartialEq)]
pub struct DraftMessage {}

#[derive(Debug, Clone, PartialEq)]
pub struct FormattedText {}

#[derive(Debug, Clone, PartialEq)]
pub struct GetLogStream {}

#[derive(Debug, Clone, PartialEq)]
pub struct Invoice {}

#[derive(Debug, Clone, PartialEq)]
pub struct Message {}

#[derive(Debug, Clone, PartialEq)]
pub struct MessageSender {}

#[derive(Debug, Clone, PartialEq)]
pub struct OrderInfo {}

#[derive(Debug, Clone, PartialEq)]
pub struct PaymentProvider {}

#[derive(Debug, Clone, PartialEq)]
pub struct Photo {}

#[derive(Debug, Clone, PartialEq)]
pub struct SavedCredentials {}

#[derive(Debug, Clone, PartialEq)]
pub struct Sticker {}

#[derive(Debug, Clone, PartialEq)]
pub struct Video {}

#[derive(Debug, Clone, PartialEq)]
pub struct VideoChat {}

#[derive(Debug, Clone, PartialEq)]
pub struct VideoNote {}

#[derive(Debug, Clone, PartialEq)]
pub struct VoiceNote {}

} // verus!
