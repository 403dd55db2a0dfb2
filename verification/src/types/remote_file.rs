use vstd::prelude::*;

verus! {

use crate::utils::fresh_request_extra;

/// Represents a remote file
#[derive(Debug, Clone, PartialEq)]
pub struct RemoteFile {
    pub td_name: String,
    pub extra: Option<String>,
    /// Remote file identifier; may be empty. Can be used across application restarts or even from other devices for the current user. Uniquely identifies a file, but a file can have a lot of different valid identifiers. If the ID starts with "http://" or "https://", it represents the HTTP URL of the file. TDLib is currently unable to download files if only their URL is known. If downloadFile is called on such a file or if it is sent to a secret chat, TDLib starts a file generation process by sending updateFileGenerationStart to the client with the HTTP URL in the original_path and "#url#" as the conversion string. Clients should generate the file by downloading it to the specified location
    pub id: String,
    /// Unique file identifier; may be empty if unknown. The unique file identifier which is the same for the same file even for different users and is persistent over time
    pub unique_id: String,
    /// True, if the file is currently being uploaded (or a remote copy is being generated by some other means)
    pub is_uploading_active: bool,
    /// True, if a remote copy is fully available
    pub is_uploading_completed: bool,
    /// Size of the remote available part of the file; 0 if unknown
    pub uploaded_size: i64,
}

impl RemoteFile {
    pub fn builder() -> (r: RTDRemoteFileBuilder)
        ensures
            r.inner.td_name@ == "remoteFile"@,
            r.inner.extra is Some,
            r.inner.extra->0@.len() == 36,
            r.inner.id@ == Seq::<char>::empty(),
            r.inner.unique_id@ == Seq::<char>::empty(),
            !r.inner.is_uploading_active,
            !r.inner.is_uploading_completed,
            r.inner.uploaded_size == 0,
    {
        let inner = RemoteFile {
            td_name: "remoteFile".to_string(),
            extra: Some(fresh_request_extra()),
            id: String::new(),
            unique_id: String::new(),
            is_uploading_active: false,
            is_uploading_completed: false,
            uploaded_size: 0,
        };
        RTDRemoteFileBuilder { inner }
    }

    pub fn id(&self) -> (r: &String)
        ensures
            *r == self.id,
    {
        &self.id
    }

    pub fn unique_id(&self) -> (r: &String)
        ensures
            *r == self.unique_id,
    {
        &self.unique_id
    }

    pub fn is_uploading_active(&self) -> (r: bool)
        ensures
            r == self.is_uploading_active,
    {
        self.is_uploading_active
    }

    pub fn is_uploading_completed(&self) -> (r: bool)
        ensures
            r == self.is_uploading_completed,
    {
        self.is_uploading_completed
    }

    pub fn uploaded_size(&self) -> (r: i64)
        ensures
            r == self.uploaded_size,
    {
        self.uploaded_size
    }
}

pub struct RTDRemoteFileBuilder {
    pub inner: RemoteFile,
}

impl RTDRemoteFileBuilder {
    pub fn build(self) -> (r: RemoteFile)
        ensures
            r == self.inner,
    {
        self.inner
    }

    pub fn id(self, id: String) -> (r: Self)
        ensures
            r.inner == (RemoteFile { id: id, ..self.inner }),
    {
        let mut inner = self.inner;
        inner.id = id;
        RTDRemoteFileBuilder { inner }
    }

    pub fn unique_id(self, unique_id: String) -> (r: Self)
        ensures
            r.inner == (RemoteFile { unique_id: unique_id, ..self.inner }),
    {
        let mut inner = self.inner;
        inner.unique_id = unique_id;
        RTDRemoteFileBuilder { inner }
    }

    pub fn is_uploading_active(self, is_uploading_active: bool) -> (r: Self)
        ensures
            r.inner == (RemoteFile { is_uploading_active: is_uploading_active, ..self.inner }),
    {
        let mut inner = self.inner;
        inner.is_uploading_active = is_uploading_active;
        RTDRemoteFileBuilder { inner }
    }

    pub fn is_uploading_completed(self, is_uploading_completed: bool) -> (r: Self)
        ensures
            r.inner == (RemoteFile { is_uploading_completed: is_uploading_completed, ..self.inner }),
    {
        let mut inner = self.inner;
        inner.is_uploading_completed = is_uploading_completed;
        RTDRemoteFileBuilder { inner }
    }

    pub fn uploaded_size(self, uploaded_size: i64) -> (r: Self)
        ensures
            r.inner == (RemoteFile { uploaded_size: uploaded_size, ..self.inner }),
    {
        let mut inner = self.inner;
        inner.uploaded_size = uploaded_size;
        RTDRemoteFileBuilder { inner }
    }
}

} // verus!
