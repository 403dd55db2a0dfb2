use vstd::prelude::*;

verus! {

use crate::utils::fresh_request_extra;

/// Toggles whether current user's video is paused
#[derive(Debug, Clone, PartialEq)]
pub struct ToggleGroupCallIsMyVideoPaused {
    pub extra: Option<String>,
    pub client_id: Option<i32>,
    /// Group call identifier
    pub group_call_id: i32,
    /// Pass true if the current user's video is paused
    pub is_my_video_paused: bool,
    pub td_type: String,
}

impl ToggleGroupCallIsMyVideoPaused {
    pub fn builder() -> (r: RTDToggleGroupCallIsMyVideoPausedBuilder)
        ensures
            r.inner.extra is Some,
            r.inner.extra->0@.len() == 36,
            r.inner.client_id is None,
            r.inner.group_call_id == 0,
            !r.inner.is_my_video_paused,
            r.inner.td_type@ == "toggleGroupCallIsMyVideoPaused"@,
    {
        let inner = ToggleGroupCallIsMyVideoPaused {
            extra: Some(fresh_request_extra()),
            client_id: None,
            group_call_id: 0,
            is_my_video_paused: false,
            td_type: "toggleGroupCallIsMyVideoPaused".to_string(),
        };
        RTDToggleGroupCallIsMyVideoPausedBuilder { inner }
    }

    pub fn group_call_id(&self) -> (r: i32)
        ensures
            r == self.group_call_id,
    {
        self.group_call_id
    }

    pub fn is_my_video_paused(&self) -> (r: bool)
        ensures
            r == self.is_my_video_paused,
    {
        self.is_my_video_paused
    }
}

pub struct RTDToggleGroupCallIsMyVideoPausedBuilder {
    pub inner: ToggleGroupCallIsMyVideoPaused,
}

impl RTDToggleGroupCallIsMyVideoPausedBuilder {
    pub fn build(self) -> (r: ToggleGroupCallIsMyVideoPaused)
        ensures
            r == self.inner,
    {
        self.inner
    }

    pub fn group_call_id(self, group_call_id: i32) -> (r: Self)
        ensures
            r.inner == (ToggleGroupCallIsMyVideoPaused { group_call_id: group_call_id, ..self.inner }),
    {
        let mut inner = self.inner;
        inner.group_call_id = group_call_id;
        RTDToggleGroupCallIsMyVideoPausedBuilder { inner }
    }

    pub fn is_my_video_paused(self, is_my_video_paused: bool) -> (r: Self)
        ensures
            r.inner == (ToggleGroupCallIsMyVideoPaused { is_my_video_paused: is_my_video_paused, ..self.inner }),
    {
        let mut inner = self.inner;
        inner.is_my_video_paused = is_my_video_paused;
        RTDToggleGroupCallIsMyVideoPausedBuilder { inner }
    }
}

} // verus!
