use vstd::prelude::*;

verus! {

use crate::client::observer::{consumes, notify_model, Observer, ObserverModel};
use crate::errors::{RTDError, RTDResult};
use crate::types::authorization_state::{
    AuthorizationState, AuthorizationStateWaitCode, AuthorizationStateWaitEncryptionKey,
    AuthorizationStateWaitPassword, AuthorizationStateWaitPhoneNumber,
    AuthorizationStateWaitRegistration, UpdateAuthorizationState,
};
use crate::types::check_authentication_code::CheckAuthenticationCode;
use crate::types::check_authentication_password::CheckAuthenticationPassword;
use crate::types::check_database_encryption_key::CheckDatabaseEncryptionKey;
use crate::types::set_authentication_phone_number::SetAuthenticationPhoneNumber;
use crate::types::set_tdlib_parameters::SetTdlibParameters;
use crate::types::td_type::{opt_str_view, TdType};
use crate::types::tdlib_parameters::TdlibParameters;
use crate::utils::{print_error_line, wait_input_sync};

/// `AuthStateHandler` trait provides methods, that returns data, required for authentication
pub trait AuthStateHandler {
    /// Returns wait code
    fn handle_wait_code(&self, wait_code: &AuthorizationStateWaitCode) -> String;

    /// Returns database encryption key
    fn handle_encryption_key(
        &self,
        wait_encryption_key: &AuthorizationStateWaitEncryptionKey,
    ) -> String;

    /// Returns password
    fn handle_wait_password(&self, wait_password: &AuthorizationStateWaitPassword) -> String;

    /// Returns phone number
    fn handle_wait_phone_number(
        &self,
        wait_phone_number: &AuthorizationStateWaitPhoneNumber,
    ) -> String;

    /// Returns first and last name for registration
    fn handle_wait_registration(
        &self,
        wait_registration: &AuthorizationStateWaitRegistration,
    ) -> String;
}

/// Provides minimum implementation of `AuthStateHandler`.
/// All required methods wait for stdin input
pub struct TypeInAuthStateHandler {}

impl TypeInAuthStateHandler {
    fn type_in() -> String {
        wait_input_sync()
    }
}

impl AuthStateHandler for TypeInAuthStateHandler {
    fn handle_wait_code(&self, _wait_code: &AuthorizationStateWaitCode) -> String {
        print_error_line("wait for auth code");
        TypeInAuthStateHandler::type_in()
    }

    fn handle_encryption_key(
        &self,
        _wait_encryption_key: &AuthorizationStateWaitEncryptionKey,
    ) -> String {
        print_error_line("wait for encryption key");
        TypeInAuthStateHandler::type_in()
    }

    fn handle_wait_password(&self, _wait_password: &AuthorizationStateWaitPassword) -> String {
        print_error_line("wait for password");
        TypeInAuthStateHandler::type_in()
    }

    fn handle_wait_phone_number(
        &self,
        _wait_phone_number: &AuthorizationStateWaitPhoneNumber,
    ) -> String {
        print_error_line("wait for phone number");
        TypeInAuthStateHandler::type_in()
    }

    fn handle_wait_registration(
        &self,
        _wait_registration: &AuthorizationStateWaitRegistration,
    ) -> String {
        // Registration is an unsupported login flow: the session core
        // rejects the registration state before ever asking for input.
        String::new()
    }
}

/// One outbound request the authorization flow submits through the
/// transport.
#[derive(Debug, Clone, PartialEq)]
pub enum AuthRequest {
    SetTdlibParameters(SetTdlibParameters),
    CheckDatabaseEncryptionKey(CheckDatabaseEncryptionKey),
    SetAuthenticationPhoneNumber(SetAuthenticationPhoneNumber),
    CheckAuthenticationCode(CheckAuthenticationCode),
    CheckAuthenticationPassword(CheckAuthenticationPassword),
}

/// The request kinds the authorization flow can submit, in the
/// abstract: which credential a request carries, not its value.
#[derive(Debug, Clone, Copy, PartialEq, Eq, Structural)]
pub enum AuthRequestKind {
    SetTdlibParameters,
    CheckDatabaseEncryptionKey,
    SetAuthenticationPhoneNumber,
    CheckAuthenticationCode,
    CheckAuthenticationPassword,
}

/// The kind of an outbound authorization request.
pub open spec fn request_kind(q: AuthRequest) -> AuthRequestKind {
    match q {
        AuthRequest::SetTdlibParameters(_) => AuthRequestKind::SetTdlibParameters,
        AuthRequest::CheckDatabaseEncryptionKey(_) => AuthRequestKind::CheckDatabaseEncryptionKey,
        AuthRequest::SetAuthenticationPhoneNumber(_) => AuthRequestKind::SetAuthenticationPhoneNumber,
        AuthRequest::CheckAuthenticationCode(_) => AuthRequestKind::CheckAuthenticationCode,
        AuthRequest::CheckAuthenticationPassword(_) => AuthRequestKind::CheckAuthenticationPassword,
    }
}

impl AuthRequest {
    /// The correlation identifier the request is tagged with.
    pub open spec fn spec_extra(&self) -> Option<Seq<char>> {
        match self {
            AuthRequest::SetTdlibParameters(q) => opt_str_view(q.extra),
            AuthRequest::CheckDatabaseEncryptionKey(q) => opt_str_view(q.extra),
            AuthRequest::SetAuthenticationPhoneNumber(q) => opt_str_view(q.extra),
            AuthRequest::CheckAuthenticationCode(q) => opt_str_view(q.extra),
            AuthRequest::CheckAuthenticationPassword(q) => opt_str_view(q.extra),
        }
    }

    /// The correlation identifier the request is tagged with.
    pub fn extra(&self) -> (r: Option<&String>)
        ensures
            match r {
                Some(s) => self.spec_extra() == Some(s@),
                None => self.spec_extra() is None,
            },
    {
        let o = match self {
            AuthRequest::SetTdlibParameters(q) => &q.extra,
            AuthRequest::CheckDatabaseEncryptionKey(q) => &q.extra,
            AuthRequest::SetAuthenticationPhoneNumber(q) => &q.extra,
            AuthRequest::CheckAuthenticationCode(q) => &q.extra,
            AuthRequest::CheckAuthenticationPassword(q) => &q.extra,
        };
        match o {
            Some(s) => Some(s),
            None => None,
        }
    }
}

/// What handling one authorization event produced: at most one
/// outbound request, and whether the event reported that login has
/// completed.
#[derive(Debug, Clone, PartialEq)]
pub struct AuthOutcome {
    /// The request to submit to the transport, if this state calls for
    /// one.
    pub request: Option<AuthRequest>,
    /// Whether this state signals that authorization has completed.
    pub authorized: bool,
}

/// The authorization states this client drives. The remaining states
/// (registration, other-device confirmation, logout and shutdown) are
/// named unsupported flows: handling them fails with
/// `UnsupportedAuthState` instead of guessing a behaviour.
pub open spec fn supported_auth_state(s: AuthorizationState) -> bool {
    ||| s is WaitTdlibParameters
    ||| s is WaitEncryptionKey
    ||| s is WaitPhoneNumber
    ||| s is WaitCode
    ||| s is WaitPassword
    ||| s is Ready
}

/// The transition table of the login state machine: which request each
/// authorization state answers with. `ready` answers with none; it
/// signals completion instead.
pub open spec fn kind_for_state(s: AuthorizationState) -> Option<AuthRequestKind> {
    match s {
        AuthorizationState::WaitTdlibParameters(_) => Some(AuthRequestKind::SetTdlibParameters),
        AuthorizationState::WaitEncryptionKey(_) => Some(
            AuthRequestKind::CheckDatabaseEncryptionKey,
        ),
        AuthorizationState::WaitPhoneNumber(_) => Some(
            AuthRequestKind::SetAuthenticationPhoneNumber,
        ),
        AuthorizationState::WaitCode(_) => Some(AuthRequestKind::CheckAuthenticationCode),
        AuthorizationState::WaitPassword(_) => Some(AuthRequestKind::CheckAuthenticationPassword),
        _ => None,
    }
}

/// What `handle_auth_state` returns for each authorization state: per
/// supported state exactly the request of the kind the transition
/// table gives, tagged with a correlation identifier, with the stored
/// connection parameters passed through verbatim; completion exactly
/// on `ready`; and `UnsupportedAuthState` exactly on the states this
/// client does not drive. The credential inside a request comes from
/// the callback, so only its kind is pinned here.
pub open spec fn handle_auth_state_post(
    s: AuthorizationState,
    params: TdlibParameters,
    r: RTDResult<AuthOutcome>,
) -> bool {
    if supported_auth_state(s) {
        match r {
            Ok(o) => {
                &&& o.authorized == (s is Ready)
                &&& (match o.request {
                    Some(q) => kind_for_state(s) == Some(request_kind(q)) && q.spec_extra()
                        is Some,
                    None => kind_for_state(s) is None,
                })
                &&& (s is WaitTdlibParameters ==> (o.request matches Some(
                    AuthRequest::SetTdlibParameters(q),
                ) && q.parameters == params))
            },
            Err(_) => false,
        }
    } else {
        r == Err::<AuthOutcome, RTDError>(RTDError::UnsupportedAuthState)
    }
}

/// Reacts to one authorization-lifecycle event: asks the handler for
/// the credential the reported state needs, builds the corresponding
/// outbound request, and reports completion when the state is `ready`.
pub fn handle_auth_state<A: AuthStateHandler>(
    auth_state_handler: &A,
    state: &UpdateAuthorizationState,
    tdlib_parameters: &TdlibParameters,
) -> (r: RTDResult<AuthOutcome>)
    ensures
        handle_auth_state_post(state.authorization_state, *tdlib_parameters, r),
{
    match state.authorization_state() {
        AuthorizationState::Ready(_) => Ok(
            AuthOutcome { request: None, authorized: true },
        ),
        AuthorizationState::WaitTdlibParameters(_) => {
            let q = SetTdlibParameters::builder().parameters(tdlib_parameters.duplicate()).build();
            Ok(AuthOutcome { request: Some(AuthRequest::SetTdlibParameters(q)), authorized: false })
        },
        AuthorizationState::WaitEncryptionKey(wait_encryption_key) => {
            let key = auth_state_handler.handle_encryption_key(wait_encryption_key);
            let q = CheckDatabaseEncryptionKey::builder().encryption_key(key).build();
            Ok(
                AuthOutcome {
                    request: Some(AuthRequest::CheckDatabaseEncryptionKey(q)),
                    authorized: false,
                },
            )
        },
        AuthorizationState::WaitPhoneNumber(wait_phone_number) => {
            let phone_number = auth_state_handler.handle_wait_phone_number(wait_phone_number);
            let q = SetAuthenticationPhoneNumber::builder().phone_number(phone_number).build();
            Ok(
                AuthOutcome {
                    request: Some(AuthRequest::SetAuthenticationPhoneNumber(q)),
                    authorized: false,
                },
            )
        },
        AuthorizationState::WaitCode(wait_code) => {
            let code = auth_state_handler.handle_wait_code(wait_code);
            let q = CheckAuthenticationCode::builder().code(code).build();
            Ok(
                AuthOutcome {
                    request: Some(AuthRequest::CheckAuthenticationCode(q)),
                    authorized: false,
                },
            )
        },
        AuthorizationState::WaitPassword(wait_password) => {
            let password = auth_state_handler.handle_wait_password(wait_password);
            let q = CheckAuthenticationPassword::builder().password(password).build();
            Ok(
                AuthOutcome {
                    request: Some(AuthRequest::CheckAuthenticationPassword(q)),
                    authorized: false,
                },
            )
        },
        _ => Err(RTDError::UnsupportedAuthState),
    }
}

/// Where `process_event` routed one event.
#[derive(Debug, Clone, Copy, PartialEq, Eq, Structural)]
pub enum Dispatch {
    /// Delivered to the waiter registered for its correlation
    /// identifier.
    Consumed,
    /// Appended to the authorization sub-loop's inbound queue.
    AuthQueued,
    /// Appended to the update sink.
    SentToSink,
    /// No sink was attached; the event was silently dropped.
    Dropped,
}

/// The session state as mathematical values.
#[verifier::ext_equal]
pub struct ClientModel {
    pub observer: ObserverModel,
    pub auth_queue: Seq<UpdateAuthorizationState>,
    pub updates_sender: Option<Seq<TdType>>,
    pub have_auth: bool,
    pub stop_flag: bool,
    pub tdlib_parameters: TdlibParameters,
}

/// `Client` is a high-level abstraction over the native engine.
///
/// It owns the session state: the request/response observer, the
/// authorization sub-loop's inbound queue, the update sink, the
/// stored connection parameters and the two flags of the session
/// lifecycle. The surrounding runtime polls the transport and feeds
/// every decoded event to `process_event`, drives the authorization
/// queue with `step_auth` until `have_auth` reports completion, and
/// drains the update sink for its subscriber.
pub struct Client<A: AuthStateHandler> {
    pub stop_flag: bool,
    pub auth_state_handler: A,
    pub tdlib_parameters: TdlibParameters,
    pub observer: Observer,
    pub auth_queue: Vec<UpdateAuthorizationState>,
    pub updates_sender: Option<Vec<TdType>>,
    pub have_auth: bool,
}

impl<A: AuthStateHandler> View for Client<A> {
    type V = ClientModel;

    open spec fn view(&self) -> ClientModel {
        ClientModel {
            observer: self.observer@,
            auth_queue: self.auth_queue@,
            updates_sender: match self.updates_sender {
                Some(v) => Some(v@),
                None => None,
            },
            have_auth: self.have_auth,
            stop_flag: self.stop_flag,
            tdlib_parameters: self.tdlib_parameters,
        }
    }
}

/// The session state after routing one event, with where it went: a
/// correlated event goes to its waiter; otherwise an
/// authorization-lifecycle event goes to the authorization queue; any
/// other event goes to the update sink, or nowhere when none is
/// attached.
pub open spec fn process_event_model(m: ClientModel, event: TdType) -> (ClientModel, Dispatch) {
    if consumes(m.observer, event) {
        (
            ClientModel { observer: notify_model(m.observer, event), ..m },
            Dispatch::Consumed,
        )
    } else {
        match event {
            TdType::UpdateAuthorizationState(u) => (
                ClientModel { auth_queue: m.auth_queue.push(u), ..m },
                Dispatch::AuthQueued,
            ),
            _ => match m.updates_sender {
                Some(buf) => (
                    ClientModel { updates_sender: Some(buf.push(event)), ..m },
                    Dispatch::SentToSink,
                ),
                None => (m, Dispatch::Dropped),
            },
        }
    }
}

/// The session state after routing a whole sequence of events in
/// order.
pub open spec fn process_events_model(m: ClientModel, events: Seq<TdType>) -> ClientModel
    decreases events.len(),
{
    if events.len() == 0 {
        m
    } else {
        process_events_model(process_event_model(m, events[0]).0, events.drop_first())
    }
}

/// The payloads of the authorization-lifecycle events in `events`, in
/// order.
pub open spec fn auth_payloads(events: Seq<TdType>) -> Seq<UpdateAuthorizationState>
    decreases events.len(),
{
    if events.len() == 0 {
        Seq::empty()
    } else {
        let rest = auth_payloads(events.drop_first());
        match events[0] {
            TdType::UpdateAuthorizationState(u) => seq![u] + rest,
            _ => rest,
        }
    }
}

impl<A: AuthStateHandler> Client<A> {
    /// A fresh, not yet started session around the given credential
    /// handler and connection parameters.
    pub fn new(auth_state_handler: A, tdlib_parameters: TdlibParameters) -> (r: Self)
        ensures
            r.auth_state_handler == auth_state_handler,
            r@.tdlib_parameters == tdlib_parameters,
            !r@.stop_flag,
            !r@.have_auth,
            r@.observer.pending == Seq::<Seq<char>>::empty(),
            r@.observer.delivered == Seq::<(Seq<char>, TdType)>::empty(),
            r@.auth_queue == Seq::<UpdateAuthorizationState>::empty(),
            r@.updates_sender is None,
    {
        let r = Client {
            stop_flag: false,
            auth_state_handler,
            tdlib_parameters,
            observer: Observer::new(),
            auth_queue: Vec::new(),
            updates_sender: None,
            have_auth: false,
        };
        proof {
            assert(r@.auth_queue =~= Seq::<UpdateAuthorizationState>::empty());
        }
        r
    }

    /// Attaches the update sink. Must be called before the session is
    /// started; without it, events that are neither correlated nor
    /// authorization-lifecycle are silently dropped.
    pub fn set_updates_sender(&mut self)
        ensures
            final(self)@ == (ClientModel {
                updates_sender: Some(Seq::<TdType>::empty()),
                ..old(self)@
            }),
            final(self).auth_state_handler == old(self).auth_state_handler,
    {
        self.updates_sender = Some(Vec::new());
        proof {
            assert(self@.updates_sender->0 =~= Seq::<TdType>::empty());
        }
    }

    /// Hands the events forwarded so far to the sink's subscriber, in
    /// arrival order, emptying the sink.
    pub fn drain_updates(&mut self) -> (r: Vec<TdType>)
        ensures
            final(self).auth_state_handler == old(self).auth_state_handler,
            match old(self)@.updates_sender {
                Some(buf) => r@ == buf && final(self)@ == (ClientModel {
                    updates_sender: Some(Seq::<TdType>::empty()),
                    ..old(self)@
                }),
                None => r@ == Seq::<TdType>::empty() && final(self)@ == old(self)@,
            },
    {
        let mut taken: Option<Vec<TdType>> = None;
        core::mem::swap(&mut taken, &mut self.updates_sender);
        match taken {
            Some(buf) => {
                self.updates_sender = Some(Vec::new());
                proof {
                    assert(self@.updates_sender->0 =~= Seq::<TdType>::empty());
                }
                buf
            },
            None => Vec::new(),
        }
    }

    /// Asks the receive loop to exit after its current poll.
    pub fn stop(&mut self)
        ensures
            final(self)@ == (ClientModel { stop_flag: true, ..old(self)@ }),
            final(self).auth_state_handler == old(self).auth_state_handler,
    {
        self.stop_flag = true;
    }

    /// Whether the authorization state machine has reached `ready`.
    /// Starting blocks on this signal: callers must not issue requests
    /// before it reports true.
    pub fn have_auth(&self) -> (r: bool)
        ensures
            r == self@.have_auth,
    {
        self.have_auth
    }

    /// Routes one decoded event, as the receive loop does: first the
    /// observer may consume it as a correlated response; otherwise an
    /// authorization-lifecycle event joins the authorization queue in
    /// arrival order; anything else goes to the update sink.
    pub fn process_event(&mut self, event: TdType) -> (r: Dispatch)
        requires
            old(self)@.observer.wf(),
        ensures
            final(self)@.observer.wf(),
            (final(self)@, r) == process_event_model(old(self)@, event),
            final(self).auth_state_handler == old(self).auth_state_handler,
    {
        match self.observer.notify(event) {
            None => Dispatch::Consumed,
            Some(ev) => {
                match ev {
                    TdType::UpdateAuthorizationState(u) => {
                        self.auth_queue.push(u);
                        Dispatch::AuthQueued
                    },
                    other => {
                        let mut taken: Option<Vec<TdType>> = None;
                        core::mem::swap(&mut taken, &mut self.updates_sender);
                        match taken {
                            Some(mut buf) => {
                                buf.push(other);
                                self.updates_sender = Some(buf);
                                Dispatch::SentToSink
                            },
                            None => Dispatch::Dropped,
                        }
                    },
                }
            },
        }
    }

    /// Routes a whole sequence of decoded events in arrival order.
    pub fn process_events(&mut self, events: Vec<TdType>)
        requires
            old(self)@.observer.wf(),
        ensures
            final(self)@.observer.wf(),
            final(self)@ == process_events_model(old(self)@, events@),
            final(self).auth_state_handler == old(self).auth_state_handler,
    {
        let ghost m0 = self@;
        let ghost all = events@;
        let mut evs = events;
        while evs.len() > 0
            invariant
                self@.observer.wf(),
                process_events_model(m0, all) == process_events_model(self@, evs@),
                self.auth_state_handler == old(self).auth_state_handler,
            decreases evs.len(),
        {
            let ghost before = self@;
            let ghost evs_before = evs@;
            let ev = evs.remove(0);
            self.process_event(ev);
            proof {
                assert(evs@ =~= evs_before.drop_first());
                assert(process_events_model(before, evs_before) == process_events_model(
                    self@,
                    evs@,
                ));
            }
        }
    }

    /// Consumes the oldest queued authorization event, if any: reacts
    /// to it, raises `have_auth` when it reports `ready`, and returns
    /// the outbound request to submit, if the state calls for one. An
    /// unsupported state is a fatal authorization error.
    pub fn step_auth(&mut self) -> (r: RTDResult<Option<AuthRequest>>)
        ensures
            final(self).auth_state_handler == old(self).auth_state_handler,
            final(self)@.observer == old(self)@.observer,
            final(self)@.updates_sender == old(self)@.updates_sender,
            final(self)@.stop_flag == old(self)@.stop_flag,
            final(self)@.tdlib_parameters == old(self)@.tdlib_parameters,
            if old(self)@.auth_queue.len() == 0 {
                r == Ok::<Option<AuthRequest>, RTDError>(None) && final(self)@ == old(self)@
            } else {
                final(self)@.auth_queue == old(self)@.auth_queue.drop_first() && step_auth_post(
                    old(self)@.auth_queue[0].authorization_state,
                    old(self)@.tdlib_parameters,
                    r,
                    old(self)@.have_auth,
                    final(self)@.have_auth,
                )
            },
    {
        if self.auth_queue.len() == 0 {
            return Ok(None);
        }
        let u = self.auth_queue.remove(0);
        proof {
            assert(self@.auth_queue =~= old(self)@.auth_queue.drop_first());
        }
        let outcome = handle_auth_state(&self.auth_state_handler, &u, &self.tdlib_parameters);
        match outcome {
            Err(e) => Err(e),
            Ok(o) => {
                if o.authorized {
                    self.have_auth = true;
                }
                Ok(o.request)
            },
        }
    }
}

/// What one `step_auth` call guarantees for the authorization state it
/// consumed: the request kind the transition table gives, parameters
/// passed through verbatim, the `have_auth` flag raised exactly by
/// `ready` (and never lowered), and unsupported states failing without
/// touching that flag.
pub open spec fn step_auth_post(
    s: AuthorizationState,
    params: TdlibParameters,
    r: RTDResult<Option<AuthRequest>>,
    have0: bool,
    have1: bool,
) -> bool {
    if supported_auth_state(s) {
        match r {
            Ok(req) => {
                &&& have1 == (have0 || s is Ready)
                &&& (match req {
                    Some(q) => kind_for_state(s) == Some(request_kind(q)) && q.spec_extra()
                        is Some,
                    None => kind_for_state(s) is None,
                })
                &&& (s is WaitTdlibParameters ==> (req matches Some(
                    AuthRequest::SetTdlibParameters(q),
                ) && q.parameters == params))
            },
            Err(_) => false,
        }
    } else {
        r == Err::<Option<AuthRequest>, RTDError>(RTDError::UnsupportedAuthState) && have1 == have0
    }
}

/// The authorization states of a sequence of authorization events.
pub open spec fn states_of(events: Seq<UpdateAuthorizationState>) -> Seq<AuthorizationState> {
    events.map_values(|u: UpdateAuthorizationState| u.authorization_state)
}

/// The request kinds the transition table answers a sequence of
/// authorization states with, in order.
pub open spec fn expected_kinds(states: Seq<AuthorizationState>) -> Seq<AuthRequestKind>
    decreases states.len(),
{
    if states.len() == 0 {
        Seq::empty()
    } else {
        let rest = expected_kinds(states.drop_first());
        match kind_for_state(states[0]) {
            Some(k) => seq![k] + rest,
            None => rest,
        }
    }
}

/// Whether a `ready` state occurs in the sequence.
pub open spec fn contains_ready(states: Seq<AuthorizationState>) -> bool {
    exists|i: int| 0 <= i < states.len() && states[i] is Ready
}

/// The kinds of a sequence of outbound requests, in order.
pub open spec fn kinds_of(requests: Seq<AuthRequest>) -> Seq<AuthRequestKind> {
    requests.map_values(|q: AuthRequest| request_kind(q))
}

proof fn lemma_expected_kinds_push(states: Seq<AuthorizationState>, s: AuthorizationState)
    ensures
        expected_kinds(states.push(s)) == expected_kinds(states) + (match kind_for_state(s) {
            Some(k) => seq![k],
            None => Seq::<AuthRequestKind>::empty(),
        }),
    decreases states.len(),
{
    let tail = (match kind_for_state(s) {
        Some(k) => seq![k],
        None => Seq::<AuthRequestKind>::empty(),
    });
    let p = states.push(s);
    if states.len() == 0 {
        assert(p[0] == s);
        assert(p.drop_first() =~= Seq::<AuthorizationState>::empty());
        assert(expected_kinds(p.drop_first()) == Seq::<AuthRequestKind>::empty());
        assert(expected_kinds(states) == Seq::<AuthRequestKind>::empty());
        match kind_for_state(s) {
            Some(k) => {
                assert(expected_kinds(p) == seq![k] + Seq::<AuthRequestKind>::empty());
                assert(seq![k] + Seq::<AuthRequestKind>::empty() =~= seq![k]);
                assert(Seq::<AuthRequestKind>::empty() + seq![k] =~= seq![k]);
            },
            None => {
                assert(expected_kinds(p) == Seq::<AuthRequestKind>::empty());
                assert(Seq::<AuthRequestKind>::empty() + Seq::<AuthRequestKind>::empty()
                    =~= Seq::<AuthRequestKind>::empty());
            },
        }
    } else {
        assert(p[0] == states[0]);
        assert(p.drop_first() =~= states.drop_first().push(s));
        lemma_expected_kinds_push(states.drop_first(), s);
        let rec = expected_kinds(states.drop_first());
        assert(expected_kinds(p.drop_first()) == rec + tail);
        match kind_for_state(states[0]) {
            Some(k) => {
                assert(expected_kinds(p) == seq![k] + (rec + tail));
                assert(expected_kinds(states) == seq![k] + rec);
                assert(seq![k] + (rec + tail) =~= (seq![k] + rec) + tail);
            },
            None => {
                assert(expected_kinds(p) == rec + tail);
                assert(expected_kinds(states) == rec);
            },
        }
    }
}

proof fn lemma_contains_ready_push(states: Seq<AuthorizationState>, s: AuthorizationState)
    ensures
        contains_ready(states.push(s)) == (contains_ready(states) || s is Ready),
{
    if contains_ready(states) {
        let i: int = choose|i: int| 0 <= i < states.len() && states[i] is Ready;
        assert(states.push(s)[i] is Ready);
    }
    if s is Ready {
        assert(states.push(s)[states.len() as int] is Ready);
    }
    if contains_ready(states.push(s)) && !(s is Ready) {
        let i: int = choose|i: int|
            0 <= i < states.push(s).len() && states.push(s)[i] is Ready;
        if i < states.len() {
            assert(states[i] is Ready);
        }
    }
}

/// What a run of the authorization sub-loop produced: the outbound
/// requests in submission order, and whether the authorized signal
/// fired.
pub struct AuthRun {
    pub requests: Vec<AuthRequest>,
    pub authorized: bool,
}

/// Drives the authorization sub-loop over a queue of
/// authorization-lifecycle events, strictly in arrival order with a
/// single sequential consumer. When every state is one this client
/// drives: the outbound requests carry, in order, exactly the kinds
/// the transition table gives for the event sequence, and the
/// authorized signal fires exactly when a `ready` state was observed.
/// The first unsupported state aborts the run as a fatal
/// authorization error.
pub fn drive_authorization<A: AuthStateHandler>(
    auth_state_handler: &A,
    events: &Vec<UpdateAuthorizationState>,
    tdlib_parameters: &TdlibParameters,
) -> (r: RTDResult<AuthRun>)
    ensures
        match r {
            Ok(run) => {
                &&& forall|i: int|
                    0 <= i < events@.len() ==> supported_auth_state(
                        #[trigger] events@[i].authorization_state,
                    )
                &&& kinds_of(run.requests@) == expected_kinds(states_of(events@))
                &&& run.authorized == contains_ready(states_of(events@))
            },
            Err(e) => e == RTDError::UnsupportedAuthState && exists|i: int|
                0 <= i < events@.len() && !supported_auth_state(
                    #[trigger] events@[i].authorization_state,
                ),
        },
{
    let mut requests: Vec<AuthRequest> = Vec::new();
    let mut authorized = false;
    let mut i: usize = 0;
    while i < events.len()
        invariant
            i <= events@.len(),
            forall|j: int|
                0 <= j < i ==> supported_auth_state(#[trigger] events@[j].authorization_state),
            kinds_of(requests@) == expected_kinds(states_of(events@.take(i as int))),
            authorized == contains_ready(states_of(events@.take(i as int))),
        decreases events@.len() - i,
    {
        let u = &events[i];
        let outcome = handle_auth_state(auth_state_handler, u, tdlib_parameters);
        match outcome {
            Err(e) => {
                proof {
                    assert(!supported_auth_state(events@[i as int].authorization_state));
                }
                return Err(e);
            },
            Ok(o) => {
                let ghost prefix = states_of(events@.take(i as int));
                let ghost s = events@[i as int].authorization_state;
                proof {
                    lemma_expected_kinds_push(prefix, s);
                    lemma_contains_ready_push(prefix, s);
                    assert(states_of(events@.take(i + 1)) =~= prefix.push(s));
                }
                let ghost reqs0 = requests@;
                match o.request {
                    Some(q) => {
                        requests.push(q);
                        proof {
                            assert(kinds_of(requests@) =~= kinds_of(reqs0).push(request_kind(q)));
                            assert(kinds_of(reqs0).push(request_kind(q)) =~= kinds_of(reqs0) + seq![
                                request_kind(q),
                            ]);
                        }
                    },
                    None => {},
                }
                if o.authorized {
                    authorized = true;
                }
                i += 1;
            },
        }
    }
    proof {
        assert(events@.take(events@.len() as int) =~= events@);
    }
    Ok(AuthRun { requests, authorized })
}

/// The events that belong on the update sink: those that are not
/// authorization-lifecycle events, in arrival order.
pub open spec fn plain_updates(events: Seq<TdType>) -> Seq<TdType>
    decreases events.len(),
{
    if events.len() == 0 {
        Seq::empty()
    } else {
        let rest = plain_updates(events.drop_first());
        if events[0].is_authorization_update() {
            rest
        } else {
            seq![events[0]] + rest
        }
    }
}

/// When no event in the sequence is correlated with a pending waiter,
/// nothing is consumed, and routing the sequence appends to the update
/// sink exactly the events that are not authorization-lifecycle
/// events, and to the authorization queue exactly the
/// authorization-lifecycle payloads, each in arrival order.
pub proof fn lemma_sink_receives_plain_updates(m: ClientModel, events: Seq<TdType>)
    requires
        forall|i: int|
            0 <= i < events.len() ==> !consumes(m.observer, #[trigger] events[i]),
        m.updates_sender is Some,
    ensures
        process_events_model(m, events).updates_sender == Some(
            m.updates_sender->0 + plain_updates(events),
        ),
        process_events_model(m, events).auth_queue == m.auth_queue + auth_payloads(events),
    decreases events.len(),
{
    if events.len() == 0 {
        assert(m.updates_sender->0 + plain_updates(events) =~= m.updates_sender->0);
        assert(m.auth_queue + auth_payloads(events) =~= m.auth_queue);
    } else {
        let e0 = events[0];
        assert(!consumes(m.observer, e0));
        let m1 = process_event_model(m, e0).0;
        assert(m1.observer == m.observer);
        assert(forall|i: int|
            0 <= i < events.drop_first().len() ==> !consumes(
                m1.observer,
                #[trigger] events.drop_first()[i],
            ));
        lemma_sink_receives_plain_updates(m1, events.drop_first());
        let buf = m.updates_sender->0;
        let rest_updates = plain_updates(events.drop_first());
        let rest_auths = auth_payloads(events.drop_first());
        match e0 {
            TdType::UpdateAuthorizationState(u) => {
                assert(m.auth_queue + auth_payloads(events) =~= m.auth_queue.push(u)
                    + rest_auths);
                assert(buf + plain_updates(events) =~= buf + rest_updates);
            },
            _ => {
                assert(m.auth_queue + auth_payloads(events) =~= m.auth_queue + rest_auths);
                assert(buf + plain_updates(events) =~= buf.push(e0) + rest_updates);
            },
        }
    }
}

/// The authorized flag only rises when a `ready` state is processed:
/// a step over any other state leaves an unauthorized session
/// unauthorized.
pub proof fn lemma_authorized_only_after_ready(
    s: AuthorizationState,
    params: TdlibParameters,
    r: RTDResult<Option<AuthRequest>>,
    have0: bool,
    have1: bool,
)
    requires
        step_auth_post(s, params, r, have0, have1),
        !have0,
        !(s is Ready),
    ensures
        !have1,
{
}

} // verus!
