//! Registration and login, as decisions between the steps at the credential store.
//!
//! Neither flow touches the store itself. Each is a machine that is told what the store
//! answered and says what to do next: look a username up, create a credential, or answer the
//! caller. Whoever runs a flow starts it in its `Received` state with [`StoreEvent::Start`],
//! performs each action that is asked for, and feeds the store's answer back in until the
//! action is a response.

use vstd::prelude::*;
use crate::database::user::{ModelView, StoreEvent, StoreEventView};
use crate::service::auth::{get_jwt, signed_token, Claims, SigningError};
use crate::service::idl::{
    CredentialsView,
    ErrorResponse,
    ErrorResponseView,
    LoginRequest,
    LoginResponse,
    LoginResponseView,
    RegisterRequest,
    RegisterResponse,
};

verus! {

/// The code of a refusal for empty fields or credentials that do not match.
pub const INVALID_CREDENTIALS_ERROR_CODE: i32 = 1001;

/// The code of a refusal for a username that is already taken.
pub const USERNAME_ALREADY_USED_ERROR_CODE: i32 = 1002;

/// The code of a refusal for a failure that is not the caller's.
pub const UNEXPECTED_ERROR_CODE: i32 = -1;

/// The second (Unix time) at which every issued token expires.
pub const TOKEN_EXPIRY: u64 = 2000000000;

/// The refusal for a username or a password that is empty.
pub open spec fn empty_fields() -> ErrorResponseView {
    ErrorResponseView {
        code: INVALID_CREDENTIALS_ERROR_CODE,
        message: "username and password cannot be empty"@,
    }
}

/// The refusal for credentials that match no stored one. It does not tell an unknown username
/// from a wrong password.
pub open spec fn invalid_credentials() -> ErrorResponseView {
    ErrorResponseView {
        code: INVALID_CREDENTIALS_ERROR_CODE,
        message: "username or password is not valid"@,
    }
}

/// The refusal for a username that is already taken.
pub open spec fn username_already_used() -> ErrorResponseView {
    ErrorResponseView {
        code: USERNAME_ALREADY_USED_ERROR_CODE,
        message: "this username is already used, please pick another one."@,
    }
}

/// The refusal for a failure that is not the caller's.
pub open spec fn unexpected_error() -> ErrorResponseView {
    ErrorResponseView {
        code: UNEXPECTED_ERROR_CODE,
        message: "internal error, please contact admin"@,
    }
}

/// The refusal for a login whose lookup failed at the store.
pub open spec fn lookup_failed() -> ErrorResponseView {
    ErrorResponseView {
        code: UNEXPECTED_ERROR_CODE,
        message: "internal error, please contact to admin"@,
    }
}

fn empty_fields_response() -> (response: ErrorResponse)
    ensures
        response@ == empty_fields(),
{
    ErrorResponse {
        code: INVALID_CREDENTIALS_ERROR_CODE,
        message: "username and password cannot be empty",
    }
}

fn invalid_credentials_response() -> (response: ErrorResponse)
    ensures
        response@ == invalid_credentials(),
{
    ErrorResponse {
        code: INVALID_CREDENTIALS_ERROR_CODE,
        message: "username or password is not valid",
    }
}

fn username_already_used_response() -> (response: ErrorResponse)
    ensures
        response@ == username_already_used(),
{
    ErrorResponse {
        code: USERNAME_ALREADY_USED_ERROR_CODE,
        message: "this username is already used, please pick another one.",
    }
}

fn unexpected_error_response() -> (response: ErrorResponse)
    ensures
        response@ == unexpected_error(),
{
    ErrorResponse { code: UNEXPECTED_ERROR_CODE, message: "internal error, please contact admin" }
}

fn lookup_failed_response() -> (response: ErrorResponse)
    ensures
        response@ == lookup_failed(),
{
    ErrorResponse {
        code: UNEXPECTED_ERROR_CODE,
        message: "internal error, please contact to admin",
    }
}

/// Whether a request leaves its username or its password empty.
pub open spec fn has_empty_field(credentials: CredentialsView) -> bool {
    credentials.username.len() == 0 || credentials.password.len() == 0
}

/// Accepts a username and a password exactly if neither is empty.
pub fn validate_request_fields(username: &str, password: &str) -> (checked: Result<
    (),
    ErrorResponse,
>)
    ensures
        match checked {
            Ok(_) => username@.len() > 0 && password@.len() > 0,
            Err(refusal) => (username@.len() == 0 || password@.len() == 0) && refusal@
                == empty_fields(),
        },
{
    if username.is_empty() || password.is_empty() {
        return Err(empty_fields_response());
    }
    Ok(())
}

/// How far a login has come.
#[derive(Debug, Clone, Copy, PartialEq, Eq, Structural)]
pub enum LoginState {
    /// The request has arrived and nothing is decided.
    Received,
    /// The lookup of the username is under way.
    Looking,
    /// The caller has its answer.
    Done,
}

/// What a login asks for next.
#[derive(Debug, PartialEq, Eq)]
pub enum LoginAction {
    /// Look this username up in the credential store.
    Find(String),
    /// Answer the caller.
    Respond(Result<LoginResponse, ErrorResponse>),
}

/// What a [`LoginAction`] says.
pub enum LoginActionView {
    Find(Seq<char>),
    Respond(Result<LoginResponseView, ErrorResponseView>),
}

impl View for LoginAction {
    type V = LoginActionView;

    open spec fn view(&self) -> LoginActionView {
        match self {
            LoginAction::Find(username) => LoginActionView::Find(username@),
            LoginAction::Respond(Ok(response)) => LoginActionView::Respond(Ok(response@)),
            LoginAction::Respond(Err(refusal)) => LoginActionView::Respond(Err(refusal@)),
        }
    }
}

/// The answer to a login whose password matched, given how the signing of its token went.
pub open spec fn login_response_for(token: Option<Seq<char>>) -> Result<
    LoginResponseView,
    ErrorResponseView,
> {
    match token {
        Some(token) => Ok(LoginResponseView { success: true, token }),
        None => Err(unexpected_error()),
    }
}

/// One step of a login: the state it moves to and the action it asks for.
///
/// `token` is the outcome of signing a token for the request's username.
pub open spec fn login_step(
    req: CredentialsView,
    token: Option<Seq<char>>,
    state: LoginState,
    event: StoreEventView,
) -> (LoginState, LoginActionView) {
    match (state, event) {
        (LoginState::Received, StoreEventView::Start) => if has_empty_field(req) {
            (LoginState::Done, LoginActionView::Respond(Err(empty_fields())))
        } else {
            (LoginState::Looking, LoginActionView::Find(req.username))
        },
        (LoginState::Looking, StoreEventView::Failed) => (
            LoginState::Done,
            LoginActionView::Respond(Err(lookup_failed())),
        ),
        (LoginState::Looking, StoreEventView::Missing) => (
            LoginState::Done,
            LoginActionView::Respond(Err(invalid_credentials())),
        ),
        (LoginState::Looking, StoreEventView::Found(user)) => if user.password != req.password {
            (LoginState::Done, LoginActionView::Respond(Err(invalid_credentials())))
        } else {
            (LoginState::Done, LoginActionView::Respond(login_response_for(token)))
        },
        _ => (LoginState::Done, LoginActionView::Respond(Err(unexpected_error()))),
    }
}

/// The answer to a login whose password matched, once the signing of its token is done: the
/// token on success, the refusal for an unexpected failure otherwise.
pub fn login_response(issued: Result<String, SigningError>) -> (response: Result<
    LoginResponse,
    ErrorResponse,
>)
    ensures
        match response {
            Ok(body) => issued is Ok && body@ == (LoginResponseView {
                success: true,
                token: issued.unwrap()@,
            }),
            Err(refusal) => issued is Err && refusal@ == unexpected_error(),
        },
{
    match issued {
        Ok(token) => Ok(LoginResponse { success: true, token }),
        Err(_) => Err(unexpected_error_response()),
    }
}

/// Takes a login one step further.
///
/// A request with an empty field is refused at once. Otherwise the username is looked up, and
/// the caller gets a token that expires at [`TOKEN_EXPIRY`] if the stored password equals the
/// one given. An unknown username and a wrong password get the same refusal. An event that the
/// state does not wait for ends the login with the refusal for an unexpected failure, and so
/// does a token that cannot be signed.
///
/// The passwords are compared as they are, character for character: the store holds them in
/// clear. That is a weakness of this design. A deployment that cares should store a salted,
/// slow hash and compare in constant time.
pub fn login(req: &LoginRequest, secret: &str, state: LoginState, event: StoreEvent) -> (next: (
    LoginState,
    LoginAction,
))
    ensures
        (next.0, next.1@) == login_step(
            req@,
            signed_token(req@.username, TOKEN_EXPIRY, secret@),
            state,
            event@,
        ),
{
    match state {
        LoginState::Received => match event {
            StoreEvent::Start => match validate_request_fields(
                req.username.as_str(),
                req.password.as_str(),
            ) {
                Err(refusal) => (LoginState::Done, LoginAction::Respond(Err(refusal))),
                Ok(_) => (LoginState::Looking, LoginAction::Find(req.username.clone())),
            },
            _ => (LoginState::Done, LoginAction::Respond(Err(unexpected_error_response()))),
        },
        LoginState::Looking => match event {
            StoreEvent::Failed => (
                LoginState::Done,
                LoginAction::Respond(Err(lookup_failed_response())),
            ),
            StoreEvent::Missing => (
                LoginState::Done,
                LoginAction::Respond(Err(invalid_credentials_response())),
            ),
            StoreEvent::Found(user) => {
                if user.password != req.password {
                    (LoginState::Done, LoginAction::Respond(Err(invalid_credentials_response())))
                } else {
                    let claims = Claims { username: req.username.clone(), exp: TOKEN_EXPIRY };
                    let issued = get_jwt(&claims, secret);
                    (LoginState::Done, LoginAction::Respond(login_response(issued)))
                }
            },
            _ => (LoginState::Done, LoginAction::Respond(Err(unexpected_error_response()))),
        },
        LoginState::Done => (
            LoginState::Done,
            LoginAction::Respond(Err(unexpected_error_response())),
        ),
    }
}

/// How far a registration has come.
#[derive(Debug, Clone, Copy, PartialEq, Eq, Structural)]
pub enum RegisterState {
    /// The request has arrived and nothing is decided.
    Received,
    /// The lookup of the username is under way.
    Looking,
    /// The creation of the credential is under way.
    Creating,
    /// The caller has its answer.
    Done,
}

/// What a registration asks for next.
#[derive(Debug, PartialEq, Eq)]
pub enum RegisterAction {
    /// Look this username up in the credential store.
    Find(String),
    /// Create a credential with this username and this password.
    Create(String, String),
    /// Answer the caller.
    Respond(Result<RegisterResponse, ErrorResponse>),
}

/// What a [`RegisterAction`] says.
pub enum RegisterActionView {
    Find(Seq<char>),
    Create(Seq<char>, Seq<char>),
    Respond(Result<RegisterResponse, ErrorResponseView>),
}

impl View for RegisterAction {
    type V = RegisterActionView;

    open spec fn view(&self) -> RegisterActionView {
        match self {
            RegisterAction::Find(username) => RegisterActionView::Find(username@),
            RegisterAction::Create(username, password) => RegisterActionView::Create(
                username@,
                password@,
            ),
            RegisterAction::Respond(Ok(response)) => RegisterActionView::Respond(Ok(*response)),
            RegisterAction::Respond(Err(refusal)) => RegisterActionView::Respond(Err(refusal@)),
        }
    }
}

/// One step of a registration: the state it moves to and the action it asks for.
pub open spec fn register_step(
    req: CredentialsView,
    state: RegisterState,
    event: StoreEventView,
) -> (RegisterState, RegisterActionView) {
    match (state, event) {
        (RegisterState::Received, StoreEventView::Start) => if has_empty_field(req) {
            (RegisterState::Done, RegisterActionView::Respond(Err(empty_fields())))
        } else {
            (RegisterState::Looking, RegisterActionView::Find(req.username))
        },
        (RegisterState::Looking, StoreEventView::Failed) => (
            RegisterState::Done,
            RegisterActionView::Respond(Err(unexpected_error())),
        ),
        (RegisterState::Looking, StoreEventView::Found(_)) => (
            RegisterState::Done,
            RegisterActionView::Respond(Err(username_already_used())),
        ),
        (RegisterState::Looking, StoreEventView::Missing) => (
            RegisterState::Creating,
            RegisterActionView::Create(req.username, req.password),
        ),
        (RegisterState::Creating, StoreEventView::Created) => (
            RegisterState::Done,
            RegisterActionView::Respond(Ok(RegisterResponse { success: true })),
        ),
        (RegisterState::Creating, StoreEventView::Failed) => (
            RegisterState::Done,
            RegisterActionView::Respond(Err(unexpected_error())),
        ),
        _ => (RegisterState::Done, RegisterActionView::Respond(Err(unexpected_error()))),
    }
}

/// Takes a registration one step further.
///
/// A request with an empty field is refused at once. Otherwise the username is looked up: a
/// username that is found is refused as taken, and one that is missing has its credential
/// created. A failure of the store, or an event that the state does not wait for, ends the
/// registration with the refusal for an unexpected failure.
///
/// Lookup and creation are two steps at the store. Two registrations of one username that
/// run at the same time can both find it missing; only a uniqueness constraint in the store
/// itself keeps the second creation out, and it then ends as a failure of the store.
pub fn register(req: &RegisterRequest, state: RegisterState, event: StoreEvent) -> (next: (
    RegisterState,
    RegisterAction,
))
    ensures
        (next.0, next.1@) == register_step(req@, state, event@),
{
    match state {
        RegisterState::Received => match event {
            StoreEvent::Start => match validate_request_fields(
                req.username.as_str(),
                req.password.as_str(),
            ) {
                Err(refusal) => (RegisterState::Done, RegisterAction::Respond(Err(refusal))),
                Ok(_) => (RegisterState::Looking, RegisterAction::Find(req.username.clone())),
            },
            _ => (RegisterState::Done, RegisterAction::Respond(Err(unexpected_error_response()))),
        },
        RegisterState::Looking => match event {
            StoreEvent::Failed => (
                RegisterState::Done,
                RegisterAction::Respond(Err(unexpected_error_response())),
            ),
            StoreEvent::Found(_) => (
                RegisterState::Done,
                RegisterAction::Respond(Err(username_already_used_response())),
            ),
            StoreEvent::Missing => (
                RegisterState::Creating,
                RegisterAction::Create(req.username.clone(), req.password.clone()),
            ),
            _ => (RegisterState::Done, RegisterAction::Respond(Err(unexpected_error_response()))),
        },
        RegisterState::Creating => match event {
            StoreEvent::Created => (
                RegisterState::Done,
                RegisterAction::Respond(Ok(RegisterResponse { success: true })),
            ),
            _ => (RegisterState::Done, RegisterAction::Respond(Err(unexpected_error_response()))),
        },
        RegisterState::Done => (
            RegisterState::Done,
            RegisterAction::Respond(Err(unexpected_error_response())),
        ),
    }
}

/// The actions a login asks for when it is fed `events` in their order, starting in `state`.
pub open spec fn login_actions(
    req: CredentialsView,
    token: Option<Seq<char>>,
    state: LoginState,
    events: Seq<StoreEventView>,
) -> Seq<LoginActionView>
    decreases events.len(),
{
    if events.len() == 0 {
        Seq::empty()
    } else {
        let (next, action) = login_step(req, token, state, events[0]);
        seq![action] + login_actions(req, token, next, events.drop_first())
    }
}

/// The actions a registration asks for when it is fed `events` in their order, starting in
/// `state`.
pub open spec fn register_actions(
    req: CredentialsView,
    state: RegisterState,
    events: Seq<StoreEventView>,
) -> Seq<RegisterActionView>
    decreases events.len(),
{
    if events.len() == 0 {
        Seq::empty()
    } else {
        let (next, action) = register_step(req, state, events[0]);
        seq![action] + register_actions(req, next, events.drop_first())
    }
}

/// A login asks for as many actions as it is fed events.
pub proof fn lemma_login_actions_len(
    req: CredentialsView,
    token: Option<Seq<char>>,
    state: LoginState,
    events: Seq<StoreEventView>,
)
    ensures
        login_actions(req, token, state, events).len() == events.len(),
    decreases events.len(),
{
    if events.len() > 0 {
        let (next, _) = login_step(req, token, state, events[0]);
        lemma_login_actions_len(req, token, next, events.drop_first());
    }
}

/// A registration asks for as many actions as it is fed events.
pub proof fn lemma_register_actions_len(
    req: CredentialsView,
    state: RegisterState,
    events: Seq<StoreEventView>,
)
    ensures
        register_actions(req, state, events).len() == events.len(),
    decreases events.len(),
{
    if events.len() > 0 {
        let (next, _) = register_step(req, state, events[0]);
        lemma_register_actions_len(req, next, events.drop_first());
    }
}

/// A login that has answered never turns to the store again: whatever it is fed, it only
/// answers.
pub proof fn lemma_login_done_stays_done(
    req: CredentialsView,
    token: Option<Seq<char>>,
    events: Seq<StoreEventView>,
)
    ensures
        forall|i: int|
            0 <= i < events.len() ==> #[trigger] login_actions(
                req,
                token,
                LoginState::Done,
                events,
            )[i] is Respond,
    decreases events.len(),
{
    lemma_login_actions_len(req, token, LoginState::Done, events);
    if events.len() > 0 {
        lemma_login_done_stays_done(req, token, events.drop_first());
        lemma_login_actions_len(req, token, LoginState::Done, events.drop_first());
        let rest = login_actions(req, token, LoginState::Done, events.drop_first());
        assert forall|i: int| 0 <= i < events.len() implies #[trigger] login_actions(
            req,
            token,
            LoginState::Done,
            events,
        )[i] is Respond by {
            if i > 0 {
                assert(login_actions(req, token, LoginState::Done, events)[i] == rest[i - 1]);
            }
        }
    }
}

/// A registration that has answered never turns to the store again: whatever it is fed, it only
/// answers.
pub proof fn lemma_register_done_stays_done(req: CredentialsView, events: Seq<StoreEventView>)
    ensures
        forall|i: int|
            0 <= i < events.len() ==> #[trigger] register_actions(
                req,
                RegisterState::Done,
                events,
            )[i] is Respond,
    decreases events.len(),
{
    lemma_register_actions_len(req, RegisterState::Done, events);
    if events.len() > 0 {
        lemma_register_done_stays_done(req, events.drop_first());
        lemma_register_actions_len(req, RegisterState::Done, events.drop_first());
        let rest = register_actions(req, RegisterState::Done, events.drop_first());
        assert forall|i: int| 0 <= i < events.len() implies #[trigger] register_actions(
            req,
            RegisterState::Done,
            events,
        )[i] is Respond by {
            if i > 0 {
                assert(register_actions(req, RegisterState::Done, events)[i] == rest[i - 1]);
            }
        }
    }
}

/// A login with a stored username and a wrong password cannot be told from a login with an
/// unknown username: step for step, the caller sees the same actions.
pub proof fn lemma_wrong_password_looks_like_unknown_user(
    req: CredentialsView,
    token: Option<Seq<char>>,
    user: ModelView,
    later: Seq<StoreEventView>,
)
    requires
        user.password != req.password,
    ensures
        login_step(req, token, LoginState::Looking, StoreEventView::Found(user)) == login_step(
            req,
            token,
            LoginState::Looking,
            StoreEventView::Missing,
        ),
        login_step(req, token, LoginState::Looking, StoreEventView::Found(user)).1
            == LoginActionView::Respond(Err(invalid_credentials())),
        login_actions(
            req,
            token,
            LoginState::Received,
            seq![StoreEventView::Start, StoreEventView::Found(user)] + later,
        ) == login_actions(
            req,
            token,
            LoginState::Received,
            seq![StoreEventView::Start, StoreEventView::Missing] + later,
        ),
{
    let with_user = seq![StoreEventView::Start, StoreEventView::Found(user)] + later;
    let without = seq![StoreEventView::Start, StoreEventView::Missing] + later;
    let (first, _) = login_step(req, token, LoginState::Received, StoreEventView::Start);
    assert(with_user.drop_first() == seq![StoreEventView::Found(user)] + later);
    assert(without.drop_first() == seq![StoreEventView::Missing] + later);
    assert(with_user.drop_first().drop_first() == later);
    assert(without.drop_first().drop_first() == later);
    assert(login_step(req, token, first, StoreEventView::Found(user)) == login_step(
        req,
        token,
        first,
        StoreEventView::Missing,
    ));
    reveal_with_fuel(login_actions, 3);
}

/// A registration under a username that the store already holds is refused as taken, and never
/// asks the store to create anything, whatever the store says afterwards. (With an empty
/// password the refusal is the one for empty fields instead, so such requests are left out.)
pub proof fn lemma_taken_username_is_refused_and_nothing_created(
    req: CredentialsView,
    existing: ModelView,
    later: Seq<StoreEventView>,
)
    requires
        !has_empty_field(req),
    ensures
        ({
            let actions = register_actions(
                req,
                RegisterState::Received,
                seq![StoreEventView::Start, StoreEventView::Found(existing)] + later,
            );
            &&& actions.len() == 2 + later.len()
            &&& actions[0] == RegisterActionView::Find(req.username)
            &&& actions[1] == RegisterActionView::Respond(Err(username_already_used()))
            &&& username_already_used().code == 1002
            &&& forall|i: int| 0 <= i < actions.len() ==> !(#[trigger] actions[i] is Create)
        }),
{
    let events = seq![StoreEventView::Start, StoreEventView::Found(existing)] + later;
    let actions = register_actions(req, RegisterState::Received, events);
    let tail = register_actions(req, RegisterState::Done, later);
    assert(events.drop_first() == seq![StoreEventView::Found(existing)] + later);
    assert(events.drop_first().drop_first() == later);
    reveal_with_fuel(register_actions, 3);
    assert(actions == seq![
        RegisterActionView::Find(req.username),
        RegisterActionView::Respond(Err(username_already_used())),
    ] + tail);
    lemma_register_actions_len(req, RegisterState::Done, later);
    lemma_register_done_stays_done(req, later);
    assert forall|i: int| 0 <= i < actions.len() implies !(#[trigger] actions[i] is Create) by {
        if i >= 2 {
            assert(actions[i] == tail[i - 2]);
        }
    }
}

/// A registration with an empty username or an empty password is refused with the code for
/// invalid fields at its first step, and never turns to the store, whatever it is fed later.
pub proof fn lemma_register_empty_field_never_reaches_store(
    req: CredentialsView,
    later: Seq<StoreEventView>,
)
    requires
        has_empty_field(req),
    ensures
        ({
            let actions = register_actions(
                req,
                RegisterState::Received,
                seq![StoreEventView::Start] + later,
            );
            &&& actions.len() == 1 + later.len()
            &&& actions[0] == RegisterActionView::Respond(Err(empty_fields()))
            &&& empty_fields().code == 1001
            &&& forall|i: int| 0 <= i < actions.len() ==> #[trigger] actions[i] is Respond
        }),
{
    let events = seq![StoreEventView::Start] + later;
    let actions = register_actions(req, RegisterState::Received, events);
    let tail = register_actions(req, RegisterState::Done, later);
    assert(events.drop_first() == later);
    assert(actions == seq![RegisterActionView::Respond(Err(empty_fields()))] + tail);
    lemma_register_actions_len(req, RegisterState::Done, later);
    lemma_register_done_stays_done(req, later);
    assert forall|i: int| 0 <= i < actions.len() implies #[trigger] actions[i] is Respond by {
        if i >= 1 {
            assert(actions[i] == tail[i - 1]);
        }
    }
}

/// A login with an empty username or an empty password is refused with the code for invalid
/// fields at its first step, and never turns to the store, whatever it is fed later.
pub proof fn lemma_login_empty_field_never_reaches_store(
    req: CredentialsView,
    token: Option<Seq<char>>,
    later: Seq<StoreEventView>,
)
    requires
        has_empty_field(req),
    ensures
        ({
            let actions = login_actions(
                req,
                token,
                LoginState::Received,
                seq![StoreEventView::Start] + later,
            );
            &&& actions.len() == 1 + later.len()
            &&& actions[0] == LoginActionView::Respond(Err(empty_fields()))
            &&& empty_fields().code == 1001
            &&& forall|i: int| 0 <= i < actions.len() ==> #[trigger] actions[i] is Respond
        }),
{
    let events = seq![StoreEventView::Start] + later;
    let actions = login_actions(req, token, LoginState::Received, events);
    let tail = login_actions(req, token, LoginState::Done, later);
    assert(events.drop_first() == later);
    assert(actions == seq![LoginActionView::Respond(Err(empty_fields()))] + tail);
    lemma_login_actions_len(req, token, LoginState::Done, later);
    lemma_login_done_stays_done(req, token, later);
    assert forall|i: int| 0 <= i < actions.len() implies #[trigger] actions[i] is Respond by {
        if i >= 1 {
            assert(actions[i] == tail[i - 1]);
        }
    }
}

} // verus!
