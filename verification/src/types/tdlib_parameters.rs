use vstd::prelude::*;

verus! {

use crate::utils::fresh_request_extra;

/// Contains parameters for TDLib initialization
#[derive(Debug, Clone, PartialEq)]
pub struct TdlibParameters {
    pub extra: Option<String>,
    pub client_id: Option<i32>,
    /// If set to true, the Telegram test environment will be used instead of the production environment
    pub use_test_dc: bool,
    /// The path to the directory for the persistent database; if empty, the current working directory will be used
    pub database_directory: String,
    /// The path to the directory for storing files; if empty, database_directory will be used
    pub files_directory: String,
    /// If set to true, information about downloaded and uploaded files will be saved between application restarts
    pub use_file_database: bool,
    /// If set to true, the library will maintain a cache of users, basic groups, supergroups, channels and secret chats. Implies use_file_database
    pub use_chat_info_database: bool,
    /// If set to true, the library will maintain a cache of chats and messages. Implies use_chat_info_database
    pub use_message_database: bool,
    /// If set to true, support for secret chats will be enabled
    pub use_secret_chats: bool,
    /// Application identifier for Telegram API access, which can be obtained at https://my.telegram.org
    pub api_id: i64,
    /// Application identifier hash for Telegram API access, which can be obtained at https://my.telegram.org
    pub api_hash: String,
    /// IETF language tag of the user's operating system language; must be non-empty
    pub system_language_code: String,
    /// Model of the device the application is being run on; must be non-empty
    pub device_model: String,
    /// Version of the operating system the application is being run on; must be non-empty
    pub system_version: String,
    /// Application version; must be non-empty
    pub application_version: String,
    /// If set to true, old files will automatically be deleted
    pub enable_storage_optimizer: bool,
    /// If set to true, original file names will be ignored. Otherwise, downloaded files will be saved under names as close as possible to the original name
    pub ignore_file_names: bool,
}

impl TdlibParameters {
    pub fn builder() -> (r: RTDTdlibParametersBuilder)
        ensures
            r.inner.extra is Some,
            r.inner.extra->0@.len() == 36,
            r.inner.client_id is None,
            !r.inner.use_test_dc,
            r.inner.database_directory@ == Seq::<char>::empty(),
            r.inner.files_directory@ == Seq::<char>::empty(),
            !r.inner.use_file_database,
            !r.inner.use_chat_info_database,
            !r.inner.use_message_database,
            !r.inner.use_secret_chats,
            r.inner.api_id == 0,
            r.inner.api_hash@ == Seq::<char>::empty(),
            r.inner.system_language_code@ == Seq::<char>::empty(),
            r.inner.device_model@ == Seq::<char>::empty(),
            r.inner.system_version@ == Seq::<char>::empty(),
            r.inner.application_version@ == Seq::<char>::empty(),
            !r.inner.enable_storage_optimizer,
            !r.inner.ignore_file_names,
    {
        let inner = TdlibParameters {
            extra: Some(fresh_request_extra()),
            client_id: None,
            use_test_dc: false,
            database_directory: String::new(),
            files_directory: String::new(),
            use_file_database: false,
            use_chat_info_database: false,
            use_message_database: false,
            use_secret_chats: false,
            api_id: 0,
            api_hash: String::new(),
            system_language_code: String::new(),
            device_model: String::new(),
            system_version: String::new(),
            application_version: String::new(),
            enable_storage_optimizer: false,
            ignore_file_names: false,
        };
        RTDTdlibParametersBuilder { inner }
    }

    pub fn use_test_dc(&self) -> (r: bool)
        ensures
            r == self.use_test_dc,
    {
        self.use_test_dc
    }

    pub fn database_directory(&self) -> (r: &String)
        ensures
            *r == self.database_directory,
    {
        &self.database_directory
    }

    pub fn files_directory(&self) -> (r: &String)
        ensures
            *r == self.files_directory,
    {
        &self.files_directory
    }

    pub fn use_file_database(&self) -> (r: bool)
        ensures
            r == self.use_file_database,
    {
        self.use_file_database
    }

    pub fn use_chat_info_database(&self) -> (r: bool)
        ensures
            r == self.use_chat_info_database,
    {
        self.use_chat_info_database
    }

    pub fn use_message_database(&self) -> (r: bool)
        ensures
            r == self.use_message_database,
    {
        self.use_message_database
    }

    pub fn use_secret_chats(&self) -> (r: bool)
        ensures
            r == self.use_secret_chats,
    {
        self.use_secret_chats
    }

    pub fn api_id(&self) -> (r: i64)
        ensures
            r == self.api_id,
    {
        self.api_id
    }

    pub fn api_hash(&self) -> (r: &String)
        ensures
            *r == self.api_hash,
    {
        &self.api_hash
    }

    pub fn system_language_code(&self) -> (r: &String)
        ensures
            *r == self.system_language_code,
    {
        &self.system_language_code
    }

    pub fn device_model(&self) -> (r: &String)
        ensures
            *r == self.device_model,
    {
        &self.device_model
    }

    pub fn system_version(&self) -> (r: &String)
        ensures
            *r == self.system_version,
    {
        &self.system_version
    }

    pub fn application_version(&self) -> (r: &String)
        ensures
            *r == self.application_version,
    {
        &self.application_version
    }

    pub fn enable_storage_optimizer(&self) -> (r: bool)
        ensures
            r == self.enable_storage_optimizer,
    {
        self.enable_storage_optimizer
    }

    pub fn ignore_file_names(&self) -> (r: bool)
        ensures
            r == self.ignore_file_names,
    {
        self.ignore_file_names
    }
}

pub struct RTDTdlibParametersBuilder {
    pub inner: TdlibParameters,
}

impl RTDTdlibParametersBuilder {
    pub fn build(self) -> (r: TdlibParameters)
        ensures
            r == self.inner,
    {
        self.inner
    }

    pub fn use_test_dc(self, use_test_dc: bool) -> (r: Self)
        ensures
            r.inner == (TdlibParameters { use_test_dc: use_test_dc, ..self.inner }),
    {
        let mut inner = self.inner;
        inner.use_test_dc = use_test_dc;
        RTDTdlibParametersBuilder { inner }
    }

    pub fn database_directory(self, database_directory: String) -> (r: Self)
        ensures
            r.inner == (TdlibParameters { database_directory: database_directory, ..self.inner }),
    {
        let mut inner = self.inner;
        inner.database_directory = database_directory;
        RTDTdlibParametersBuilder { inner }
    }

    pub fn files_directory(self, files_directory: String) -> (r: Self)
        ensures
            r.inner == (TdlibParameters { files_directory: files_directory, ..self.inner }),
    {
        let mut inner = self.inner;
        inner.files_directory = files_directory;
        RTDTdlibParametersBuilder { inner }
    }

    pub fn use_file_database(self, use_file_database: bool) -> (r: Self)
        ensures
            r.inner == (TdlibParameters { use_file_database: use_file_database, ..self.inner }),
    {
        let mut inner = self.inner;
        inner.use_file_database = use_file_database;
        RTDTdlibParametersBuilder { inner }
    }

    pub fn use_chat_info_database(self, use_chat_info_database: bool) -> (r: Self)
        ensures
            r.inner == (TdlibParameters { use_chat_info_database: use_chat_info_database, ..self.inner }),
    {
        let mut inner = self.inner;
        inner.use_chat_info_database = use_chat_info_database;
        RTDTdlibParametersBuilder { inner }
    }

    pub fn use_message_database(self, use_message_database: bool) -> (r: Self)
        ensures
            r.inner == (TdlibParameters { use_message_database: use_message_database, ..self.inner }),
    {
        let mut inner = self.inner;
        inner.use_message_database = use_message_database;
        RTDTdlibParametersBuilder { inner }
    }

    pub fn use_secret_chats(self, use_secret_chats: bool) -> (r: Self)
        ensures
            r.inner == (TdlibParameters { use_secret_chats: use_secret_chats, ..self.inner }),
    {
        let mut inner = self.inner;
        inner.use_secret_chats = use_secret_chats;
        RTDTdlibParametersBuilder { inner }
    }

    pub fn api_id(self, api_id: i64) -> (r: Self)
        ensures
            r.inner == (TdlibParameters { api_id: api_id, ..self.inner }),
    {
        let mut inner = self.inner;
        inner.api_id = api_id;
        RTDTdlibParametersBuilder { inner }
    }

    pub fn api_hash(self, api_hash: String) -> (r: Self)
        ensures
            r.inner == (TdlibParameters { api_hash: api_hash, ..self.inner }),
    {
        let mut inner = self.inner;
        inner.api_hash = api_hash;
        RTDTdlibParametersBuilder { inner }
    }

    pub fn system_language_code(self, system_language_code: String) -> (r: Self)
        ensures
            r.inner == (TdlibParameters { system_language_code: system_language_code, ..self.inner }),
    {
        let mut inner = self.inner;
        inner.system_language_code = system_language_code;
        RTDTdlibParametersBuilder { inner }
    }

    pub fn device_model(self, device_model: String) -> (r: Self)
        ensures
            r.inner == (TdlibParameters { device_model: device_model, ..self.inner }),
    {
        let mut inner = self.inner;
        inner.device_model = device_model;
        RTDTdlibParametersBuilder { inner }
    }

    pub fn system_version(self, system_version: String) -> (r: Self)
        ensures
            r.inner == (TdlibParameters { system_version: system_version, ..self.inner }),
    {
        let mut inner = self.inner;
        inner.system_version = system_version;
        RTDTdlibParametersBuilder { inner }
    }

    pub fn application_version(self, application_version: String) -> (r: Self)
        ensures
            r.inner == (TdlibParameters { application_version: application_version, ..self.inner }),
    {
        let mut inner = self.inner;
        inner.application_version = application_version;
        RTDTdlibParametersBuilder { inner }
    }

    pub fn enable_storage_optimizer(self, enable_storage_optimizer: bool) -> (r: Self)
        ensures
            r.inner == (TdlibParameters { enable_storage_optimizer: enable_storage_optimizer, ..self.inner }),
    {
        let mut inner = self.inner;
        inner.enable_storage_optimizer = enable_storage_optimizer;
        RTDTdlibParametersBuilder { inner }
    }

    pub fn ignore_file_names(self, ignore_file_names: bool) -> (r: Self)
        ensures
            r.inner == (TdlibParameters { ignore_file_names: ignore_file_names, ..self.inner }),
    {
        let mut inner = self.inner;
        inner.ignore_file_names = ignore_file_names;
        RTDTdlibParametersBuilder { inner }
    }
}

impl TdlibParameters {
    /// A field-for-field copy, so that stored parameters can be
    /// submitted verbatim while the original stays with the session.
    pub fn duplicate(&self) -> (r: TdlibParameters)
        ensures
            r == *self,
    {
        TdlibParameters {
            extra: match &self.extra {
                Some(s) => Some(s.clone()),
                None => None,
            },
            client_id: self.client_id,
            use_test_dc: self.use_test_dc,
            database_directory: self.database_directory.clone(),
            files_directory: self.files_directory.clone(),
            use_file_database: self.use_file_database,
            use_chat_info_database: self.use_chat_info_database,
            use_message_database: self.use_message_database,
            use_secret_chats: self.use_secret_chats,
            api_id: self.api_id,
            api_hash: self.api_hash.clone(),
            system_language_code: self.system_language_code.clone(),
            device_model: self.device_model.clone(),
            system_version: self.system_version.clone(),
            application_version: self.application_version.clone(),
            enable_storage_optimizer: self.enable_storage_optimizer,
            ignore_file_names: self.ignore_file_names,
        }
    }
}

/// Holds when every field of `p` has its initial value: no identifiers,
/// empty strings and directories, all switches off.
pub open spec fn is_default_tdlib_parameters(p: TdlibParameters) -> bool {
    &&& p.extra is None
    &&& p.client_id is None
    &&& !p.use_test_dc
    &&& p.database_directory@ == Seq::<char>::empty()
    &&& p.files_directory@ == Seq::<char>::empty()
    &&& !p.use_file_database
    &&& !p.use_chat_info_database
    &&& !p.use_message_database
    &&& !p.use_secret_chats
    &&& p.api_id == 0
    &&& p.api_hash@ == Seq::<char>::empty()
    &&& p.system_language_code@ == Seq::<char>::empty()
    &&& p.device_model@ == Seq::<char>::empty()
    &&& p.system_version@ == Seq::<char>::empty()
    &&& p.application_version@ == Seq::<char>::empty()
    &&& !p.enable_storage_optimizer
    &&& !p.ignore_file_names
}

impl Default for TdlibParameters {
    fn default() -> (r: Self)
        ensures
            is_default_tdlib_parameters(r),
    {
        TdlibParameters {
            extra: None,
            client_id: None,
            use_test_dc: false,
            database_directory: String::new(),
            files_directory: String::new(),
            use_file_database: false,
            use_chat_info_database: false,
            use_message_database: false,
            use_secret_chats: false,
            api_id: 0,
            api_hash: String::new(),
            system_language_code: String::new(),
            device_model: String::new(),
            system_version: String::new(),
            application_version: String::new(),
            enable_storage_optimizer: false,
            ignore_file_names: false,
        }
    }
}

} // verus!
