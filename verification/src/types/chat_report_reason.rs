use vstd::prelude::*;

verus! {

use crate::types::td_type::opt_str_view;
use crate::utils::fresh_request_extra;

/// TRAIT | Describes the reason why a chat is reported
pub trait TDChatReportReason {}

/// Describes the reason why a chat is reported
#[derive(Debug, Clone, PartialEq)]
pub enum ChatReportReason {
    _Default,
    /// The chat has child abuse related content
    ChildAbuse(ChatReportReasonChildAbuse),
    /// The chat contains copyrighted content
    Copyright(ChatReportReasonCopyright),
    /// A custom reason provided by the user
    Custom(ChatReportReasonCustom),
    /// The chat contains pornographic messages
    Pornography(ChatReportReasonPornography),
    /// The chat contains spam messages
    Spam(ChatReportReasonSpam),
    /// The location-based chat is unrelated to its stated location
    UnrelatedLocation(ChatReportReasonUnrelatedLocation),
    /// The chat promotes violence
    Violence(ChatReportReasonViolence),
}

impl Default for ChatReportReason {
    fn default() -> (r: Self)
        ensures
            r is _Default,
    {
        ChatReportReason::_Default
    }
}

impl ChatReportReason {
    pub fn _is_default(&self) -> (r: bool)
        ensures
            r == (self is _Default),
    {
        matches!(self, ChatReportReason::_Default)
    }
}

/// The chat has child abuse related content
#[derive(Debug, Clone, PartialEq)]
pub struct ChatReportReasonChildAbuse {
    pub td_name: String,
    pub extra: Option<String>,
}

impl ChatReportReasonChildAbuse {
    pub fn builder() -> (r: RTDChatReportReasonChildAbuseBuilder)
        ensures
            r.inner.td_name@ == "chatReportReasonChildAbuse"@,
            r.inner.extra is Some,
            r.inner.extra->0@.len() == 36,
    {
        let inner = ChatReportReasonChildAbuse {
            td_name: "chatReportReasonChildAbuse".to_string(),
            extra: Some(fresh_request_extra()),
        };
        RTDChatReportReasonChildAbuseBuilder { inner }
    }
}

pub struct RTDChatReportReasonChildAbuseBuilder {
    pub inner: ChatReportReasonChildAbuse,
}

impl RTDChatReportReasonChildAbuseBuilder {
    pub fn build(self) -> (r: ChatReportReasonChildAbuse)
        ensures
            r == self.inner,
    {
        self.inner
    }
}

/// The chat contains copyrighted content
#[derive(Debug, Clone, PartialEq)]
pub struct ChatReportReasonCopyright {
    pub td_name: String,
    pub extra: Option<String>,
}

impl ChatReportReasonCopyright {
    pub fn builder() -> (r: RTDChatReportReasonCopyrightBuilder)
        ensures
            r.inner.td_name@ == "chatReportReasonCopyright"@,
            r.inner.extra is Some,
            r.inner.extra->0@.len() == 36,
    {
        let inner = ChatReportReasonCopyright {
            td_name: "chatReportReasonCopyright".to_string(),
            extra: Some(fresh_request_extra()),
        };
        RTDChatReportReasonCopyrightBuilder { inner }
    }
}

pub struct RTDChatReportReasonCopyrightBuilder {
    pub inner: ChatReportReasonCopyright,
}

impl RTDChatReportReasonCopyrightBuilder {
    pub fn build(self) -> (r: ChatReportReasonCopyright)
        ensures
            r == self.inner,
    {
        self.inner
    }
}

/// A custom reason provided by the user
#[derive(Debug, Clone, PartialEq)]
pub struct ChatReportReasonCustom {
    pub td_name: String,
    pub extra: Option<String>,
    /// Report text
    pub text: String,
}

impl ChatReportReasonCustom {
    pub fn builder() -> (r: RTDChatReportReasonCustomBuilder)
        ensures
            r.inner.td_name@ == "chatReportReasonCustom"@,
            r.inner.extra is Some,
            r.inner.extra->0@.len() == 36,
            r.inner.text@ == Seq::<char>::empty(),
    {
        let inner = ChatReportReasonCustom {
            td_name: "chatReportReasonCustom".to_string(),
            extra: Some(fresh_request_extra()),
            text: String::new(),
        };
        RTDChatReportReasonCustomBuilder { inner }
    }

    pub fn text(&self) -> (r: &String)
        ensures
            *r == self.text,
    {
        &self.text
    }
}

pub struct RTDChatReportReasonCustomBuilder {
    pub inner: ChatReportReasonCustom,
}

impl RTDChatReportReasonCustomBuilder {
    pub fn build(self) -> (r: ChatReportReasonCustom)
        ensures
            r == self.inner,
    {
        self.inner
    }

    pub fn text(self, text: String) -> (r: Self)
        ensures
            r.inner == (ChatReportReasonCustom { text: text, ..self.inner }),
    {
        let mut inner = self.inner;
        inner.text = text;
        RTDChatReportReasonCustomBuilder { inner }
    }
}

/// The chat contains pornographic messages
#[derive(Debug, Clone, PartialEq)]
pub struct ChatReportReasonPornography {
    pub td_name: String,
    pub extra: Option<String>,
}

impl ChatReportReasonPornography {
    pub fn builder() -> (r: RTDChatReportReasonPornographyBuilder)
        ensures
            r.inner.td_name@ == "chatReportReasonPornography"@,
            r.inner.extra is Some,
            r.inner.extra->0@.len() == 36,
    {
        let inner = ChatReportReasonPornography {
            td_name: "chatReportReasonPornography".to_string(),
            extra: Some(fresh_request_extra()),
        };
        RTDChatReportReasonPornographyBuilder { inner }
    }
}

pub struct RTDChatReportReasonPornographyBuilder {
    pub inner: ChatReportReasonPornography,
}

impl RTDChatReportReasonPornographyBuilder {
    pub fn build(self) -> (r: ChatReportReasonPornography)
        ensures
            r == self.inner,
    {
        self.inner
    }
}

/// The chat contains spam messages
#[derive(Debug, Clone, PartialEq)]
pub struct ChatReportReasonSpam {
    pub td_name: String,
    pub extra: Option<String>,
}

impl ChatReportReasonSpam {
    pub fn builder() -> (r: RTDChatReportReasonSpamBuilder)
        ensures
            r.inner.td_name@ == "chatReportReasonSpam"@,
            r.inner.extra is Some,
            r.inner.extra->0@.len() == 36,
    {
        let inner = ChatReportReasonSpam {
            td_name: "chatReportReasonSpam".to_string(),
            extra: Some(fresh_request_extra()),
        };
        RTDChatReportReasonSpamBuilder { inner }
    }
}

pub struct RTDChatReportReasonSpamBuilder {
    pub inner: ChatReportReasonSpam,
}

impl RTDChatReportReasonSpamBuilder {
    pub fn build(self) -> (r: ChatReportReasonSpam)
        ensures
            r == self.inner,
    {
        self.inner
    }
}

/// The location-based chat is unrelated to its stated location
#[derive(Debug, Clone, PartialEq)]
pub struct ChatReportReasonUnrelatedLocation {
    pub td_name: String,
    pub extra: Option<String>,
}

impl ChatReportReasonUnrelatedLocation {
    pub fn builder() -> (r: RTDChatReportReasonUnrelatedLocationBuilder)
        ensures
            r.inner.td_name@ == "chatReportReasonUnrelatedLocation"@,
            r.inner.extra is Some,
            r.inner.extra->0@.len() == 36,
    {
        let inner = ChatReportReasonUnrelatedLocation {
            td_name: "chatReportReasonUnrelatedLocation".to_string(),
            extra: Some(fresh_request_extra()),
        };
        RTDChatReportReasonUnrelatedLocationBuilder { inner }
    }
}

pub struct RTDChatReportReasonUnrelatedLocationBuilder {
    pub inner: ChatReportReasonUnrelatedLocation,
}

impl RTDChatReportReasonUnrelatedLocationBuilder {
    pub fn build(self) -> (r: ChatReportReasonUnrelatedLocation)
        ensures
            r == self.inner,
    {
        self.inner
    }
}

/// The chat promotes violence
#[derive(Debug, Clone, PartialEq)]
pub struct ChatReportReasonViolence {
    pub td_name: String,
    pub extra: Option<String>,
}

impl ChatReportReasonViolence {
    pub fn builder() -> (r: RTDChatReportReasonViolenceBuilder)
        ensures
            r.inner.td_name@ == "chatReportReasonViolence"@,
            r.inner.extra is Some,
            r.inner.extra->0@.len() == 36,
    {
        let inner = ChatReportReasonViolence {
            td_name: "chatReportReasonViolence".to_string(),
            extra: Some(fresh_request_extra()),
        };
        RTDChatReportReasonViolenceBuilder { inner }
    }
}

pub struct RTDChatReportReasonViolenceBuilder {
    pub inner: ChatReportReasonViolence,
}

impl RTDChatReportReasonViolenceBuilder {
    pub fn build(self) -> (r: ChatReportReasonViolence)
        ensures
            r == self.inner,
    {
        self.inner
    }
}

impl TDChatReportReason for ChatReportReasonChildAbuse {}
impl TDChatReportReason for ChatReportReasonCopyright {}
impl TDChatReportReason for ChatReportReasonCustom {}
impl TDChatReportReason for ChatReportReasonPornography {}
impl TDChatReportReason for ChatReportReasonSpam {}
impl TDChatReportReason for ChatReportReasonUnrelatedLocation {}
impl TDChatReportReason for ChatReportReasonViolence {}

impl ChatReportReason {
    /// The correlation identifier this value carries, if any.
    pub open spec fn spec_extra(&self) -> Option<Seq<char>> {
        match self {
            ChatReportReason::_Default => None,
            ChatReportReason::ChildAbuse(t) => opt_str_view(t.extra),
            ChatReportReason::Copyright(t) => opt_str_view(t.extra),
            ChatReportReason::Custom(t) => opt_str_view(t.extra),
            ChatReportReason::Pornography(t) => opt_str_view(t.extra),
            ChatReportReason::Spam(t) => opt_str_view(t.extra),
            ChatReportReason::UnrelatedLocation(t) => opt_str_view(t.extra),
            ChatReportReason::Violence(t) => opt_str_view(t.extra),
        }
    }

    /// The correlation identifier this value carries, if any.
    pub fn extra(&self) -> (r: Option<&String>)
        ensures
            match r {
                Some(s) => self.spec_extra() == Some(s@),
                None => self.spec_extra() is None,
            },
    {
        let o = match self {
            ChatReportReason::_Default => &None,
            ChatReportReason::ChildAbuse(t) => &t.extra,
            ChatReportReason::Copyright(t) => &t.extra,
            ChatReportReason::Custom(t) => &t.extra,
            ChatReportReason::Pornography(t) => &t.extra,
            ChatReportReason::Spam(t) => &t.extra,
            ChatReportReason::UnrelatedLocation(t) => &t.extra,
            ChatReportReason::Violence(t) => &t.extra,
        };
        match o {
            Some(s) => Some(s),
            None => None,
        }
    }

    /// The wire tag of this value's variant; empty for the hidden
    /// placeholder variant.
    pub open spec fn spec_td_name(&self) -> Seq<char> {
        match self {
            ChatReportReason::_Default => ""@,
            ChatReportReason::ChildAbuse(_) => "chatReportReasonChildAbuse"@,
            ChatReportReason::Copyright(_) => "chatReportReasonCopyright"@,
            ChatReportReason::Custom(_) => "chatReportReasonCustom"@,
            ChatReportReason::Pornography(_) => "chatReportReasonPornography"@,
            ChatReportReason::Spam(_) => "chatReportReasonSpam"@,
            ChatReportReason::UnrelatedLocation(_) => "chatReportReasonUnrelatedLocation"@,
            ChatReportReason::Violence(_) => "chatReportReasonViolence"@,
        }
    }

    /// The wire tag of this value's variant.
    pub fn td_name(&self) -> (r: &str)
        ensures
            r@ == self.spec_td_name(),
    {
        match self {
            ChatReportReason::_Default => "",
            ChatReportReason::ChildAbuse(_) => "chatReportReasonChildAbuse",
            ChatReportReason::Copyright(_) => "chatReportReasonCopyright",
            ChatReportReason::Custom(_) => "chatReportReasonCustom",
            ChatReportReason::Pornography(_) => "chatReportReasonPornography",
            ChatReportReason::Spam(_) => "chatReportReasonSpam",
            ChatReportReason::UnrelatedLocation(_) => "chatReportReasonUnrelatedLocation",
            ChatReportReason::Violence(_) => "chatReportReasonViolence",
        }
    }
}

} // verus!
