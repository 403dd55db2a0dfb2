use telegram_tdlib::client::client::{
    drive_authorization, AuthRequest, AuthStateHandler, Client, Dispatch,
};
use telegram_tdlib::errors::RTDError;
use telegram_tdlib::types::authorization_state::{
    AuthorizationState, AuthorizationStateReady, AuthorizationStateWaitCode,
    AuthorizationStateWaitEncryptionKey, AuthorizationStateWaitPassword,
    AuthorizationStateWaitPhoneNumber, AuthorizationStateWaitRegistration,
    AuthorizationStateWaitTdlibParameters, UpdateAuthorizationState,
};
use telegram_tdlib::types::remote_file::RemoteFile;
use telegram_tdlib::types::td_type::TdType;
use telegram_tdlib::types::tdlib_parameters::TdlibParameters;

struct FixedHandler;

impl AuthStateHandler for FixedHandler {
    fn handle_wait_code(&self, _wait_code: &AuthorizationStateWaitCode) -> String {
        String::from("13579")
    }

    fn handle_encryption_key(
        &self,
        _wait_encryption_key: &AuthorizationStateWaitEncryptionKey,
    ) -> String {
        String::from("secret-key")
    }

    fn handle_wait_password(&self, _wait_password: &AuthorizationStateWaitPassword) -> String {
        String::from("hunter2")
    }

    fn handle_wait_phone_number(
        &self,
        _wait_phone_number: &AuthorizationStateWaitPhoneNumber,
    ) -> String {
        String::from("+15550100")
    }

    fn handle_wait_registration(
        &self,
        _wait_registration: &AuthorizationStateWaitRegistration,
    ) -> String {
        String::new()
    }
}

fn wrap(state: AuthorizationState) -> UpdateAuthorizationState {
    UpdateAuthorizationState { extra: None, client_id: None, authorization_state: state }
}

fn wait_parameters() -> AuthorizationState {
    AuthorizationState::WaitTdlibParameters(AuthorizationStateWaitTdlibParameters {
        extra: None,
        client_id: None,
    })
}

fn wait_key() -> AuthorizationState {
    AuthorizationState::WaitEncryptionKey(AuthorizationStateWaitEncryptionKey {
        extra: None,
        client_id: None,
        is_encrypted: true,
    })
}

fn wait_code() -> AuthorizationState {
    AuthorizationState::WaitCode(AuthorizationStateWaitCode { extra: None, client_id: None })
}

fn ready() -> AuthorizationState {
    AuthorizationState::Ready(AuthorizationStateReady { extra: None, client_id: None })
}

fn sample_parameters() -> TdlibParameters {
    TdlibParameters::builder()
        .database_directory(String::from("tdlib"))
        .api_id(12345)
        .api_hash(String::from("0123456789abcdef"))
        .system_language_code(String::from("en"))
        .device_model(String::from("Desktop"))
        .system_version(String::from("Unknown"))
        .application_version(String::from("0.1.0"))
        .enable_storage_optimizer(true)
        .build()
}

#[test]
fn requests_follow_the_event_order() {
    let events = vec![
        wrap(wait_parameters()),
        wrap(wait_key()),
        wrap(wait_code()),
        wrap(ready()),
    ];
    let params = sample_parameters();
    let run = drive_authorization(&FixedHandler, &events, &params).unwrap();

    assert_eq!(run.requests.len(), 3);
    match &run.requests[0] {
        AuthRequest::SetTdlibParameters(q) => assert_eq!(q.parameters, params),
        other => panic!("expected set-parameters first, got {:?}", other),
    }
    match &run.requests[1] {
        AuthRequest::CheckDatabaseEncryptionKey(q) => {
            assert_eq!(q.encryption_key(), "secret-key")
        }
        other => panic!("expected submit-key second, got {:?}", other),
    }
    match &run.requests[2] {
        AuthRequest::CheckAuthenticationCode(q) => assert_eq!(q.code(), "13579"),
        other => panic!("expected submit-code third, got {:?}", other),
    }
    assert!(run.authorized);
}

#[test]
fn authorized_stays_false_without_ready() {
    let events = vec![wrap(wait_parameters()), wrap(wait_key()), wrap(wait_code())];
    let run = drive_authorization(&FixedHandler, &events, &sample_parameters()).unwrap();
    assert_eq!(run.requests.len(), 3);
    assert!(!run.authorized);
}

#[test]
fn every_auth_request_carries_a_correlation_id() {
    let events = vec![wrap(wait_parameters()), wrap(wait_key()), wrap(wait_code())];
    let run = drive_authorization(&FixedHandler, &events, &sample_parameters()).unwrap();
    for request in &run.requests {
        let extra = request.extra().expect("auth requests are correlated");
        assert_eq!(extra.chars().count(), 36);
    }
}

#[test]
fn registration_state_is_a_fatal_unsupported_flow() {
    let events = vec![
        wrap(wait_parameters()),
        wrap(AuthorizationState::WaitRegistration(AuthorizationStateWaitRegistration {
            extra: None,
            client_id: None,
        })),
    ];
    let result = drive_authorization(&FixedHandler, &events, &sample_parameters());
    assert_eq!(result.err(), Some(RTDError::UnsupportedAuthState));
}

#[test]
fn start_signal_fires_only_after_ready_is_processed() {
    let mut client = Client::new(FixedHandler, sample_parameters());
    let sequence = vec![wait_parameters(), wait_key(), wait_code(), ready()];
    for (index, state) in sequence.into_iter().enumerate() {
        assert!(!client.have_auth(), "the session must not report authorized before ready");
        let dispatched =
            client.process_event(TdType::UpdateAuthorizationState(wrap(state)));
        assert_eq!(dispatched, Dispatch::AuthQueued);
        let step = client.step_auth().unwrap();
        if index < 3 {
            assert!(step.is_some(), "every waiting state answers with a request");
        } else {
            assert!(step.is_none(), "ready answers with no request");
        }
    }
    assert!(client.have_auth(), "the session must report authorized once ready is processed");
}

#[test]
fn step_auth_with_empty_queue_is_a_no_op() {
    let mut client = Client::new(FixedHandler, sample_parameters());
    assert_eq!(client.step_auth(), Ok(None));
    assert!(!client.have_auth());
}

#[test]
fn first_auth_request_passes_parameters_through_verbatim() {
    let params = sample_parameters();
    let mut client = Client::new(FixedHandler, params.clone());
    client.process_event(TdType::UpdateAuthorizationState(wrap(wait_parameters())));
    let request = client.step_auth().unwrap().unwrap();
    match request {
        AuthRequest::SetTdlibParameters(q) => assert_eq!(q.parameters, params),
        other => panic!("expected set-parameters, got {:?}", other),
    }
}

#[test]
fn sink_receives_exactly_the_plain_updates_in_order() {
    let mut client = Client::new(FixedHandler, sample_parameters());
    client.set_updates_sender();
    let waiter = String::from("7");
    assert!(client.observer.register(&waiter).is_ok());

    let update_a = TdType::RemoteFile(RemoteFile {
        td_name: String::from("remoteFile"),
        extra: None,
        id: String::from("update-A"),
        unique_id: String::new(),
        is_uploading_active: false,
        is_uploading_completed: false,
        uploaded_size: 0,
    });
    let auth_event = TdType::UpdateAuthorizationState(wrap(wait_code()));
    let update_b = TdType::RemoteFile(RemoteFile {
        td_name: String::from("remoteFile"),
        extra: None,
        id: String::from("update-B"),
        unique_id: String::new(),
        is_uploading_active: false,
        is_uploading_completed: false,
        uploaded_size: 0,
    });
    let response_for_7 = TdType::RemoteFile(RemoteFile {
        td_name: String::from("remoteFile"),
        extra: Some(waiter.clone()),
        id: String::from("response-for-id-7"),
        unique_id: String::new(),
        is_uploading_active: false,
        is_uploading_completed: false,
        uploaded_size: 0,
    });

    client.process_events(vec![
        update_a.clone(),
        auth_event,
        update_b.clone(),
        response_for_7.clone(),
    ]);

    let updates = client.drain_updates();
    assert_eq!(updates, vec![update_a, update_b]);
    assert_eq!(client.observer.take(&waiter), Some(response_for_7));
    let step = client.step_auth().unwrap();
    assert!(matches!(step, Some(AuthRequest::CheckAuthenticationCode(_))));
}

#[test]
fn updates_are_dropped_when_no_sink_is_attached() {
    let mut client = Client::new(FixedHandler, sample_parameters());
    let update = TdType::RemoteFile(RemoteFile {
        td_name: String::from("remoteFile"),
        extra: None,
        id: String::from("lost"),
        unique_id: String::new(),
        is_uploading_active: false,
        is_uploading_completed: false,
        uploaded_size: 0,
    });
    assert_eq!(client.process_event(update), Dispatch::Dropped);
    assert_eq!(client.drain_updates(), Vec::<TdType>::new());
}

#[test]
fn stop_raises_the_stop_flag() {
    let mut client = Client::new(FixedHandler, sample_parameters());
    client.stop();
    assert!(client.stop_flag);
}
