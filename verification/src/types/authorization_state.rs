use vstd::prelude::*;

verus! {

/// TRAIT | Represents the current authorization state of the TDLib client
pub trait TDAuthorizationState {}

/// Represents the current authorization state of the TDLib client
#[derive(Debug, Clone, PartialEq)]
pub enum AuthorizationState {
    _Default,
    /// TDLib client is in its final state. All databases are closed and all resources are released
    Closed(AuthorizationStateClosed),
    /// TDLib is closing, all subsequent queries will be answered with the error 500
    Closing(AuthorizationStateClosing),
    /// The user is currently logging out
    LoggingOut(AuthorizationStateLoggingOut),
    /// The user has been successfully authorized
    Ready(AuthorizationStateReady),
    /// TDLib needs the user's authentication code to authorize
    WaitCode(AuthorizationStateWaitCode),
    /// TDLib needs an encryption key to decrypt the local database
    WaitEncryptionKey(AuthorizationStateWaitEncryptionKey),
    /// The user needs to confirm authorization on another logged in device by scanning a QR code with the provided link
    WaitOtherDeviceConfirmation(AuthorizationStateWaitOtherDeviceConfirmation),
    /// The user has been authorized, but needs to enter a password to start using the application
    WaitPassword(AuthorizationStateWaitPassword),
    /// TDLib needs the user's phone number to authorize
    WaitPhoneNumber(AuthorizationStateWaitPhoneNumber),
    /// The user is unregistered and need to accept terms of service and enter their first name and last name to finish registration
    WaitRegistration(AuthorizationStateWaitRegistration),
    /// TDLib needs TdlibParameters for initialization
    WaitTdlibParameters(AuthorizationStateWaitTdlibParameters),
    /// Returns the current authorization state; this is an offline request
    GetAuthorizationState(GetAuthorizationState),
}

impl Default for AuthorizationState {
    fn default() -> (r: Self)
        ensures
            r is _Default,
    {
        AuthorizationState::_Default
    }
}

impl AuthorizationState {
    pub fn _is_default(&self) -> (r: bool)
        ensures
            r == (self is _Default),
    {
        matches!(self, AuthorizationState::_Default)
    }
}

/// TDLib client is in its final state. All databases are closed and all resources are released
#[derive(Debug, Clone, PartialEq)]
pub struct AuthorizationStateClosed {
    pub extra: Option<String>,
    pub client_id: Option<i32>,
}

/// TDLib is closing, all subsequent queries will be answered with the error 500
#[derive(Debug, Clone, PartialEq)]
pub struct AuthorizationStateClosing {
    pub extra: Option<String>,
    pub client_id: Option<i32>,
}

/// The user is currently logging out
#[derive(Debug, Clone, PartialEq)]
pub struct AuthorizationStateLoggingOut {
    pub extra: Option<String>,
    pub client_id: Option<i32>,
}

/// The user has been successfully authorized
#[derive(Debug, Clone, PartialEq)]
pub struct AuthorizationStateReady {
    pub extra: Option<String>,
    pub client_id: Option<i32>,
}

/// TDLib needs the user's authentication code to authorize
#[derive(Debug, Clone, PartialEq)]
pub struct AuthorizationStateWaitCode {
    pub extra: Option<String>,
    pub client_id: Option<i32>,
}

/// TDLib needs an encryption key to decrypt the local database
#[derive(Debug, Clone, PartialEq)]
pub struct AuthorizationStateWaitEncryptionKey {
    pub extra: Option<String>,
    pub client_id: Option<i32>,
    /// True, if the database is currently encrypted
    pub is_encrypted: bool,
}

impl AuthorizationStateWaitEncryptionKey {
    pub fn is_encrypted(&self) -> (r: bool)
        ensures
            r == self.is_encrypted,
    {
        self.is_encrypted
    }
}

/// The user needs to confirm authorization on another logged in device by scanning a QR code with the provided link
#[derive(Debug, Clone, PartialEq)]
pub struct AuthorizationStateWaitOtherDeviceConfirmation {
    pub extra: Option<String>,
    pub client_id: Option<i32>,
    /// A tg:// URL for the QR code. The link will be updated frequently
    pub link: String,
}

impl AuthorizationStateWaitOtherDeviceConfirmation {
    pub fn link(&self) -> (r: &String)
        ensures
            *r == self.link,
    {
        &self.link
    }
}

/// The user has been authorized, but needs to enter a password to start using the application
#[derive(Debug, Clone, PartialEq)]
pub struct AuthorizationStateWaitPassword {
    pub extra: Option<String>,
    pub client_id: Option<i32>,
    /// Hint for the password; may be empty
    pub password_hint: String,
}

impl AuthorizationStateWaitPassword {
    pub fn password_hint(&self) -> (r: &String)
        ensures
            *r == self.password_hint,
    {
        &self.password_hint
    }
}

/// TDLib needs the user's phone number to authorize
#[derive(Debug, Clone, PartialEq)]
pub struct AuthorizationStateWaitPhoneNumber {
    pub extra: Option<String>,
    pub client_id: Option<i32>,
}

/// The user is unregistered and need to accept terms of service and enter their first name and last name to finish registration
#[derive(Debug, Clone, PartialEq)]
pub struct AuthorizationStateWaitRegistration {
    pub extra: Option<String>,
    pub client_id: Option<i32>,
}

/// TDLib needs TdlibParameters for initialization
#[derive(Debug, Clone, PartialEq)]
pub struct AuthorizationStateWaitTdlibParameters {
    pub extra: Option<String>,
    pub client_id: Option<i32>,
}

/// Returns the current authorization state; this is an offline request
#[derive(Debug, Clone, PartialEq)]
pub struct GetAuthorizationState {
    pub extra: Option<String>,
    pub client_id: Option<i32>,
}

impl TDAuthorizationState for AuthorizationStateClosed {}

impl TDAuthorizationState for AuthorizationStateClosing {}

impl TDAuthorizationState for AuthorizationStateLoggingOut {}

impl TDAuthorizationState for AuthorizationStateReady {}

impl TDAuthorizationState for AuthorizationStateWaitCode {}

impl TDAuthorizationState for AuthorizationStateWaitEncryptionKey {}

impl TDAuthorizationState for AuthorizationStateWaitOtherDeviceConfirmation {}

impl TDAuthorizationState for AuthorizationStateWaitPassword {}

impl TDAuthorizationState for AuthorizationStateWaitPhoneNumber {}

impl TDAuthorizationState for AuthorizationStateWaitRegistration {}

impl TDAuthorizationState for AuthorizationStateWaitTdlibParameters {}

/// The user authorization state has changed
#[derive(Debug, Clone, PartialEq)]
pub struct UpdateAuthorizationState {
    pub extra: Option<String>,
    pub client_id: Option<i32>,
    /// New authorization state
    pub authorization_state: AuthorizationState,
}

impl UpdateAuthorizationState {
    pub fn authorization_state(&self) -> (r: &AuthorizationState)
        ensures
            *r == self.authorization_state,
    {
        &self.authorization_state
    }
}

} // verus!
