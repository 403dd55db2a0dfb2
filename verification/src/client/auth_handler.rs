use vstd::prelude::*;

verus! {

use vstd::string::StrSliceExecFns;
use crate::types::authorization_state::{
    AuthorizationStateWaitCode, AuthorizationStateWaitOtherDeviceConfirmation,
    AuthorizationStateWaitPassword, AuthorizationStateWaitPhoneNumber,
    AuthorizationStateWaitRegistration,
};
use crate::utils::{print_line, split_string, wait_input_sync};

/// `ClientIdentifier` allows to determine if client is bot (with bot token as identifier) or client (with a phone number)
#[derive(Debug, Clone, PartialEq)]
pub enum ClientIdentifier {
    PhoneNumber(String),
    BotToken(String),
}

/// Supplies the credentials one client's login handshake asks for.
/// Implementors decide where the values come from; the session core
/// only promises to call at most one of these methods at a time.
pub trait ClientAuthStateHandler {
    /// Interacts with provided link
    fn handle_other_device_confirmation(
        &self,
        wait_device_confirmation: &AuthorizationStateWaitOtherDeviceConfirmation,
    );

    /// Returns wait code
    fn handle_wait_code(&self, wait_code: &AuthorizationStateWaitCode) -> String;

    /// Returns password
    fn handle_wait_password(&self, wait_password: &AuthorizationStateWaitPassword) -> String;

    /// Returns [ClientIdentifier](crate::client::auth_handler::ClientIdentifier)
    fn handle_wait_client_identifier(
        &self,
        wait_phone_number: &AuthorizationStateWaitPhoneNumber,
    ) -> ClientIdentifier;

    /// Returns first_name and second_name
    fn handle_wait_registration(
        &self,
        wait_registration: &AuthorizationStateWaitRegistration,
    ) -> (String, String);
}

/// `AuthStateHandler` trait provides methods that returns data, required for authentication.
/// It allows you to handle particular "auth states", such as [WaitPassword](crate::types::authorization_state::AuthorizationStateWaitPassword), [WaitPhoneNumber](crate::types::authorization_state::AuthorizationStateWaitPhoneNumber) and so on.
pub trait AuthStateHandler {
    /// Interacts with provided link
    fn handle_other_device_confirmation<C: ClientAuthStateHandler>(
        &self,
        client: &C,
        wait_device_confirmation: &AuthorizationStateWaitOtherDeviceConfirmation,
    );

    /// Returns wait code
    fn handle_wait_code<C: ClientAuthStateHandler>(
        &self,
        client: &C,
        wait_code: &AuthorizationStateWaitCode,
    ) -> String;

    /// Returns password
    fn handle_wait_password<C: ClientAuthStateHandler>(
        &self,
        client: &C,
        wait_password: &AuthorizationStateWaitPassword,
    ) -> String;

    /// Returns [ClientIdentifier](crate::client::auth_handler::ClientIdentifier)
    fn handle_wait_client_identifier<C: ClientAuthStateHandler>(
        &self,
        client: &C,
        wait_phone_number: &AuthorizationStateWaitPhoneNumber,
    ) -> ClientIdentifier;

    /// Returns first_name and second_name
    fn handle_wait_registration<C: ClientAuthStateHandler>(
        &self,
        client: &C,
        wait_registration: &AuthorizationStateWaitRegistration,
    ) -> (String, String);
}

/// Provides minimal implementation of `AuthStateHandler`.
/// All required methods wait (synchronously) for stdin input
#[derive(Debug, Clone)]
pub struct ConsoleAuthStateHandler;

impl Default for ConsoleAuthStateHandler {
    fn default() -> Self {
        Self::new()
    }
}

impl ConsoleAuthStateHandler {
    pub fn new() -> Self {
        Self
    }
}

/// True when `s` consists of exactly the character `c`.
fn is_single_char(s: &String, c: char) -> (r: bool)
    ensures
        r == (s@.len() == 1 && s@[0] == c),
{
    s.as_str().unicode_len() == 1 && s.as_str().get_char(0) == c
}

impl AuthStateHandler for ConsoleAuthStateHandler {
    fn handle_other_device_confirmation<C: ClientAuthStateHandler>(
        &self,
        _client: &C,
        wait_device_confirmation: &AuthorizationStateWaitOtherDeviceConfirmation,
    ) {
        print_line("confirm the login on another device with this link:");
        print_line(wait_device_confirmation.link().as_str());
    }

    fn handle_wait_code<C: ClientAuthStateHandler>(
        &self,
        _client: &C,
        _wait_code: &AuthorizationStateWaitCode,
    ) -> String {
        print_line("waiting for auth code");
        wait_input_sync()
    }

    fn handle_wait_password<C: ClientAuthStateHandler>(
        &self,
        _client: &C,
        _wait_password: &AuthorizationStateWaitPassword,
    ) -> String {
        print_line("waiting for password");
        wait_input_sync()
    }

    fn handle_wait_client_identifier<C: ClientAuthStateHandler>(
        &self,
        _client: &C,
        _wait_phone_number: &AuthorizationStateWaitPhoneNumber,
    ) -> ClientIdentifier {
        let mut attempts: usize = 0;
        while attempts < 1000
            invariant
                attempts <= 1000,
            decreases 1000 - attempts,
        {
            print_line("choose one of phone number (p) or bot token (b)");
            let inp = wait_input_sync();
            if is_single_char(&inp, 'b') || is_single_char(&inp, 'B') {
                print_line("enter bot token");
                return ClientIdentifier::BotToken(wait_input_sync());
            }
            if is_single_char(&inp, 'p') || is_single_char(&inp, 'P') {
                print_line("enter phone number");
                return ClientIdentifier::PhoneNumber(wait_input_sync());
            }
            // invalid input, ask again
            attempts += 1;
        }
        // After persistently invalid choices, fall back to a phone number.
        print_line("enter phone number");
        ClientIdentifier::PhoneNumber(wait_input_sync())
    }

    fn handle_wait_registration<C: ClientAuthStateHandler>(
        &self,
        _client: &C,
        _wait_registration: &AuthorizationStateWaitRegistration,
    ) -> (String, String) {
        let mut attempts: usize = 0;
        while attempts < 1000
            invariant
                attempts <= 1000,
            decreases 1000 - attempts,
        {
            print_line("waiting for first_name and second_name separated by comma");
            let inp = wait_input_sync();
            match split_string(inp.as_str(), ',') {
                Some(pair) => {
                    return pair;
                },
                None => {},
            }
            attempts += 1;
        }
        // After persistently malformed input, ask for the two names
        // one at a time.
        print_line("enter first name");
        let first = wait_input_sync();
        print_line("enter second name");
        let second = wait_input_sync();
        (first, second)
    }
}

/// `AuthStateHandlerProxy` implements [AuthStateHandler](crate::client::auth_handler::AuthStateHandler) in a way that allows to proxy all auth methods to particular clients.
#[derive(Debug, Clone)]
pub struct AuthStateHandlerProxy(pub Option<String>);

impl AuthStateHandlerProxy {
    pub fn new() -> (r: Self)
        ensures
            r.0 is None,
    {
        Self(None)
    }

    pub fn new_with_encryption_key(key: String) -> (r: Self)
        ensures
            r.0 == Some(key),
    {
        Self(Some(key))
    }
}

impl Default for AuthStateHandlerProxy {
    fn default() -> (r: Self)
        ensures
            r.0 is None,
    {
        Self::new()
    }
}

impl AuthStateHandler for AuthStateHandlerProxy {
    fn handle_other_device_confirmation<C: ClientAuthStateHandler>(
        &self,
        client: &C,
        wait_device_confirmation: &AuthorizationStateWaitOtherDeviceConfirmation,
    ) {
        client.handle_other_device_confirmation(wait_device_confirmation)
    }

    fn handle_wait_code<C: ClientAuthStateHandler>(
        &self,
        client: &C,
        wait_code: &AuthorizationStateWaitCode,
    ) -> String {
        client.handle_wait_code(wait_code)
    }

    fn handle_wait_password<C: ClientAuthStateHandler>(
        &self,
        client: &C,
        wait_password: &AuthorizationStateWaitPassword,
    ) -> String {
        client.handle_wait_password(wait_password)
    }

    fn handle_wait_client_identifier<C: ClientAuthStateHandler>(
        &self,
        client: &C,
        wait_phone_number: &AuthorizationStateWaitPhoneNumber,
    ) -> ClientIdentifier {
        client.handle_wait_client_identifier(wait_phone_number)
    }

    fn handle_wait_registration<C: ClientAuthStateHandler>(
        &self,
        client: &C,
        wait_registration: &AuthorizationStateWaitRegistration,
    ) -> (String, String) {
        client.handle_wait_registration(wait_registration)
    }
}

} // verus!
