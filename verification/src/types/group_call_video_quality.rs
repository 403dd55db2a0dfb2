use vstd::prelude::*;

verus! {

use crate::types::td_type::opt_str_view;
use crate::utils::fresh_request_extra;

/// Describes the quality of a group call video
pub trait TDGroupCallVideoQuality {}

/// Describes the quality of a group call video
#[derive(Debug, Clone, PartialEq)]
pub enum GroupCallVideoQuality {
    _Default,
    /// The best available video quality
    Full(GroupCallVideoQualityFull),
    /// The medium video quality
    Medium(GroupCallVideoQualityMedium),
    /// The worst available video quality
    Thumbnail(GroupCallVideoQualityThumbnail),
}

impl Default for GroupCallVideoQuality {
    fn default() -> (r: Self)
        ensures
            r is _Default,
    {
        GroupCallVideoQuality::_Default
    }
}

impl GroupCallVideoQuality {
    pub fn _is_default(&self) -> (r: bool)
        ensures
            r == (self is _Default),
    {
        matches!(self, GroupCallVideoQuality::_Default)
    }
}

/// The best available video quality
#[derive(Debug, Clone, PartialEq)]
pub struct GroupCallVideoQualityFull {
    pub extra: Option<String>,
    pub client_id: Option<i32>,
}

impl GroupCallVideoQualityFull {
    pub fn builder() -> (r: RTDGroupCallVideoQualityFullBuilder)
        ensures
            r.inner.extra is Some,
            r.inner.extra->0@.len() == 36,
            r.inner.client_id is None,
    {
        let inner = GroupCallVideoQualityFull {
            extra: Some(fresh_request_extra()),
            client_id: None,
        };
        RTDGroupCallVideoQualityFullBuilder { inner }
    }
}

pub struct RTDGroupCallVideoQualityFullBuilder {
    pub inner: GroupCallVideoQualityFull,
}

impl RTDGroupCallVideoQualityFullBuilder {
    pub fn build(self) -> (r: GroupCallVideoQualityFull)
        ensures
            r == self.inner,
    {
        self.inner
    }
}

/// The medium video quality
#[derive(Debug, Clone, PartialEq)]
pub struct GroupCallVideoQualityMedium {
    pub extra: Option<String>,
    pub client_id: Option<i32>,
}

impl GroupCallVideoQualityMedium {
    pub fn builder() -> (r: RTDGroupCallVideoQualityMediumBuilder)
        ensures
            r.inner.extra is Some,
            r.inner.extra->0@.len() == 36,
            r.inner.client_id is None,
    {
        let inner = GroupCallVideoQualityMedium {
            extra: Some(fresh_request_extra()),
            client_id: None,
        };
        RTDGroupCallVideoQualityMediumBuilder { inner }
    }
}

pub struct RTDGroupCallVideoQualityMediumBuilder {
    pub inner: GroupCallVideoQualityMedium,
}

impl RTDGroupCallVideoQualityMediumBuilder {
    pub fn build(self) -> (r: GroupCallVideoQualityMedium)
        ensures
            r == self.inner,
    {
        self.inner
    }
}

/// The worst available video quality
#[derive(Debug, Clone, PartialEq)]
pub struct GroupCallVideoQualityThumbnail {
    pub extra: Option<String>,
    pub client_id: Option<i32>,
}

impl GroupCallVideoQualityThumbnail {
    pub fn builder() -> (r: RTDGroupCallVideoQualityThumbnailBuilder)
        ensures
            r.inner.extra is Some,
            r.inner.extra->0@.len() == 36,
            r.inner.client_id is None,
    {
        let inner = GroupCallVideoQualityThumbnail {
            extra: Some(fresh_request_extra()),
            client_id: None,
        };
        RTDGroupCallVideoQualityThumbnailBuilder { inner }
    }
}

pub struct RTDGroupCallVideoQualityThumbnailBuilder {
    pub inner: GroupCallVideoQualityThumbnail,
}

impl RTDGroupCallVideoQualityThumbnailBuilder {
    pub fn build(self) -> (r: GroupCallVideoQualityThumbnail)
        ensures
            r == self.inner,
    {
        self.inner
    }
}

impl TDGroupCallVideoQuality for GroupCallVideoQualityFull {}
impl TDGroupCallVideoQuality for GroupCallVideoQualityMedium {}
impl TDGroupCallVideoQuality for GroupCallVideoQualityThumbnail {}

impl GroupCallVideoQuality {
    /// The correlation identifier this value carries, if any.
    pub open spec fn spec_extra(&self) -> Option<Seq<char>> {
        match self {
            GroupCallVideoQuality::_Default => None,
            GroupCallVideoQuality::Full(t) => opt_str_view(t.extra),
            GroupCallVideoQuality::Medium(t) => opt_str_view(t.extra),
            GroupCallVideoQuality::Thumbnail(t) => opt_str_view(t.extra),
        }
    }

    /// The correlation identifier this value carries, if any.
    pub fn extra(&self) -> (r: Option<&String>)
        ensures
            match r {
                Some(s) => self.spec_extra() == Some(s@),
                None => self.spec_extra() is None,
            },
    {
        let o = match self {
            GroupCallVideoQuality::_Default => &None,
            GroupCallVideoQuality::Full(t) => &t.extra,
            GroupCallVideoQuality::Medium(t) => &t.extra,
            GroupCallVideoQuality::Thumbnail(t) => &t.extra,
        };
        match o {
            Some(s) => Some(s),
            None => None,
        }
    }

    /// The client identifier this value carries, if any.
    pub fn client_id(&self) -> (r: Option<i32>)
        ensures
            match self {
                GroupCallVideoQuality::_Default => r is None,
                GroupCallVideoQuality::Full(t) => r == t.client_id,
                GroupCallVideoQuality::Medium(t) => r == t.client_id,
                GroupCallVideoQuality::Thumbnail(t) => r == t.client_id,
            },
    {
        match self {
            GroupCallVideoQuality::_Default => None,
            GroupCallVideoQuality::Full(t) => t.client_id,
            GroupCallVideoQuality::Medium(t) => t.client_id,
            GroupCallVideoQuality::Thumbnail(t) => t.client_id,
        }
    }
}

} // verus!
