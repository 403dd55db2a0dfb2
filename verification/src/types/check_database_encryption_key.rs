use vstd::prelude::*;

verus! {

use crate::utils::fresh_request_extra;

/// Checks the database encryption key for correctness. Works only when the current authorization state is authorizationStateWaitEncryptionKey
#[derive(Debug, Clone, PartialEq)]
pub struct CheckDatabaseEncryptionKey {
    pub extra: Option<String>,
    pub client_id: Option<i32>,
    /// Encryption key to check or set up
    pub encryption_key: String,
    pub td_type: String,
}

impl CheckDatabaseEncryptionKey {
    pub fn builder() -> (r: RTDCheckDatabaseEncryptionKeyBuilder)
        ensures
            r.inner.extra is Some,
            r.inner.extra->0@.len() == 36,
            r.inner.client_id is None,
            r.inner.encryption_key@ == Seq::<char>::empty(),
            r.inner.td_type@ == "checkDatabaseEncryptionKey"@,
    {
        let inner = CheckDatabaseEncryptionKey {
            extra: Some(fresh_request_extra()),
            client_id: None,
            encryption_key: String::new(),
            td_type: "checkDatabaseEncryptionKey".to_string(),
        };
        RTDCheckDatabaseEncryptionKeyBuilder { inner }
    }

    pub fn encryption_key(&self) -> (r: &String)
        ensures
            *r == self.encryption_key,
    {
        &self.encryption_key
    }
}

pub struct RTDCheckDatabaseEncryptionKeyBuilder {
    pub inner: CheckDatabaseEncryptionKey,
}

impl RTDCheckDatabaseEncryptionKeyBuilder {
    pub fn build(self) -> (r: CheckDatabaseEncryptionKey)
        ensures
            r == self.inner,
    {
        self.inner
    }

    pub fn encryption_key(self, encryption_key: String) -> (r: Self)
        ensures
            r.inner == (CheckDatabaseEncryptionKey { encryption_key: encryption_key, ..self.inner }),
    {
        let mut inner = self.inner;
        inner.encryption_key = encryption_key;
        RTDCheckDatabaseEncryptionKeyBuilder { inner }
    }
}

} // verus!
