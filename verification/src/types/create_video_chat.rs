use vstd::prelude::*;

verus! {

use crate::utils::fresh_request_extra;

/// Creates a video chat (a group call bound to a chat). Available only for basic groups, supergroups and channels; requires can_manage_video_chats rights
#[derive(Debug, Clone, PartialEq)]
pub struct CreateVideoChat {
    pub extra: Option<String>,
    pub client_id: Option<i32>,
    /// Identifier of a chat in which the video chat will be created
    pub chat_id: i64,
    /// Group call title; if empty, chat title will be used
    pub title: String,
    /// Point in time (Unix timestamp) when the group call is supposed to be started by an administrator; 0 to start the video chat immediately. The date must be at least 10 seconds and at most 8 days in the future
    pub start_date: i32,
    /// Pass true to create an RTMP stream instead of an ordinary video chat; requires creator privileges
    pub is_rtmp_stream: bool,
    pub td_type: String,
}

impl CreateVideoChat {
    pub fn builder() -> (r: RTDCreateVideoChatBuilder)
        ensures
            r.inner.extra is Some,
            r.inner.extra->0@.len() == 36,
            r.inner.client_id is None,
            r.inner.chat_id == 0,
            r.inner.title@ == Seq::<char>::empty(),
            r.inner.start_date == 0,
            !r.inner.is_rtmp_stream,
            r.inner.td_type@ == "createVideoChat"@,
    {
        let inner = CreateVideoChat {
            extra: Some(fresh_request_extra()),
            client_id: None,
            chat_id: 0,
            title: String::new(),
            start_date: 0,
            is_rtmp_stream: false,
            td_type: "createVideoChat".to_string(),
        };
        RTDCreateVideoChatBuilder { inner }
    }

    pub fn chat_id(&self) -> (r: i64)
        ensures
            r == self.chat_id,
    {
        self.chat_id
    }

    pub fn title(&self) -> (r: &String)
        ensures
            *r == self.title,
    {
        &self.title
    }

    pub fn start_date(&self) -> (r: i32)
        ensures
            r == self.start_date,
    {
        self.start_date
    }

    pub fn is_rtmp_stream(&self) -> (r: bool)
        ensures
            r == self.is_rtmp_stream,
    {
        self.is_rtmp_stream
    }
}

pub struct RTDCreateVideoChatBuilder {
    pub inner: CreateVideoChat,
}

impl RTDCreateVideoChatBuilder {
    pub fn build(self) -> (r: CreateVideoChat)
        ensures
            r == self.inner,
    {
        self.inner
    }

    pub fn chat_id(self, chat_id: i64) -> (r: Self)
        ensures
            r.inner == (CreateVideoChat { chat_id: chat_id, ..self.inner }),
    {
        let mut inner = self.inner;
        inner.chat_id = chat_id;
        RTDCreateVideoChatBuilder { inner }
    }

    pub fn title(self, title: String) -> (r: Self)
        ensures
            r.inner == (CreateVideoChat { title: title, ..self.inner }),
    {
        let mut inner = self.inner;
        inner.title = title;
        RTDCreateVideoChatBuilder { inner }
    }

    pub fn start_date(self, start_date: i32) -> (r: Self)
        ensures
            r.inner == (CreateVideoChat { start_date: start_date, ..self.inner }),
    {
        let mut inner = self.inner;
        inner.start_date = start_date;
        RTDCreateVideoChatBuilder { inner }
    }

    pub fn is_rtmp_stream(self, is_rtmp_stream: bool) -> (r: Self)
        ensures
            r.inner == (CreateVideoChat { is_rtmp_stream: is_rtmp_stream, ..self.inner }),
    {
        let mut inner = self.inner;
        inner.is_rtmp_stream = is_rtmp_stream;
        RTDCreateVideoChatBuilder { inner }
    }
}

} // verus!
