//! The bodies that travel over the HTTP surface, and the request sent to the model provider.

use vstd::prelude::*;

verus! {

/// The body of every refusal: a stable application code and a message for the caller.
#[derive(Debug, Clone, PartialEq, Eq)]
pub struct ErrorResponse {
    pub code: i32,
    pub message: &'static str,
}

/// What an [`ErrorResponse`] says: its code and the characters of its message.
pub struct ErrorResponseView {
    pub code: i32,
    pub message: Seq<char>,
}

impl View for ErrorResponse {
    type V = ErrorResponseView;

    open spec fn view(&self) -> ErrorResponseView {
        ErrorResponseView { code: self.code, message: self.message@ }
    }
}

/// The body of a registration request.
#[derive(Debug, Clone, PartialEq, Eq)]
pub struct RegisterRequest {
    pub username: String,
    pub password: String,
}

/// The credentials a request carries, as sequences of characters.
pub struct CredentialsView {
    pub username: Seq<char>,
    pub password: Seq<char>,
}

impl View for RegisterRequest {
    type V = CredentialsView;

    open spec fn view(&self) -> CredentialsView {
        CredentialsView { username: self.username@, password: self.password@ }
    }
}

/// The body that answers a successful registration.
#[derive(Debug, Clone, PartialEq, Eq)]
pub struct RegisterResponse {
    pub success: bool,
}

/// The body of a login request.
#[derive(Debug, Clone, PartialEq, Eq)]
pub struct LoginRequest {
    pub username: String,
    pub password: String,
}

impl View for LoginRequest {
    type V = CredentialsView;

    open spec fn view(&self) -> CredentialsView {
        CredentialsView { username: self.username@, password: self.password@ }
    }
}

/// The body that answers a successful login: the bearer token to present from now on.
#[derive(Debug, Clone, PartialEq, Eq)]
pub struct LoginResponse {
    pub success: bool,
    pub token: String,
}

/// What a [`LoginResponse`] says.
pub struct LoginResponseView {
    pub success: bool,
    pub token: Seq<char>,
}

impl View for LoginResponse {
    type V = LoginResponseView;

    open spec fn view(&self) -> LoginResponseView {
        LoginResponseView { success: self.success, token: self.token@ }
    }
}

/// One message of a chat: who speaks (`"user"`, `"assistant"` or `"system"`) and what is said.
#[derive(Debug, Clone, PartialEq, Eq)]
pub struct GptMessage {
    pub role: String,
    pub content: String,
}

/// What a [`GptMessage`] says.
pub struct GptMessageView {
    pub role: Seq<char>,
    pub content: Seq<char>,
}

impl View for GptMessage {
    type V = GptMessageView;

    open spec fn view(&self) -> GptMessageView {
        GptMessageView { role: self.role@, content: self.content@ }
    }
}

impl DeepView for GptMessage {
    type V = GptMessageView;

    open spec fn deep_view(&self) -> GptMessageView {
        self@
    }
}

/// A sampling temperature in tenths, so that `5` stands for 0.5.
#[derive(Debug, Clone, Copy, PartialEq, Eq, Structural)]
pub struct Temperature {
    pub tenths: u8,
}

/// The temperature every chat completion is asked with: 0.5.
pub const DEFAULT_TEMPERATURE_TENTHS: u8 = 5;

/// A chat completion request as the model provider expects it.
#[derive(Debug, Clone, PartialEq, Eq)]
pub struct ChatCompletionRequest {
    pub model: String,
    pub messages: Vec<GptMessage>,
    pub stream: bool,
    pub temperature: Temperature,
}

/// What a [`ChatCompletionRequest`] says.
pub struct ChatCompletionRequestView {
    pub model: Seq<char>,
    pub messages: Seq<GptMessageView>,
    pub stream: bool,
    pub temperature: Temperature,
}

impl View for ChatCompletionRequest {
    type V = ChatCompletionRequestView;

    open spec fn view(&self) -> ChatCompletionRequestView {
        ChatCompletionRequestView {
            model: self.model@,
            messages: self.messages.deep_view(),
            stream: self.stream,
            temperature: self.temperature,
        }
    }
}

impl ChatCompletionRequest {
    /// A streaming request to `model` that carries `messages` in their order, at temperature 0.5.
    pub fn new(model: &str, messages: Vec<GptMessage>) -> (request: ChatCompletionRequest)
        ensures
            request@.model == model@,
            request@.messages == messages.deep_view(),
            request@.stream,
            request@.temperature.tenths == DEFAULT_TEMPERATURE_TENTHS,
    {
        ChatCompletionRequest {
            model: model.to_owned(),
            messages,
            stream: true,
            temperature: Temperature { tenths: DEFAULT_TEMPERATURE_TENTHS },
        }
    }
}

impl Default for ErrorResponse {
    /// Code 0 and no message.
    fn default() -> (response: ErrorResponse)
        ensures
            response@.code == 0,
            response@.message == Seq::<char>::empty(),
    {
        proof {
            reveal_strlit("");
        }
        let response = ErrorResponse { code: 0, message: "" };
        assert(response@.message =~= Seq::<char>::empty());
        response
    }
}

impl Default for RegisterRequest {
    /// Both fields empty.
    fn default() -> (request: RegisterRequest)
        ensures
            request@.username == Seq::<char>::empty(),
            request@.password == Seq::<char>::empty(),
    {
        RegisterRequest { username: String::new(), password: String::new() }
    }
}

impl Default for RegisterResponse {
    /// No success.
    fn default() -> (response: RegisterResponse)
        ensures
            !response.success,
    {
        RegisterResponse { success: false }
    }
}

impl Default for LoginRequest {
    /// Both fields empty.
    fn default() -> (request: LoginRequest)
        ensures
            request@.username == Seq::<char>::empty(),
            request@.password == Seq::<char>::empty(),
    {
        LoginRequest { username: String::new(), password: String::new() }
    }
}

impl Default for LoginResponse {
    /// No success and no token.
    fn default() -> (response: LoginResponse)
        ensures
            !response@.success,
            response@.token == Seq::<char>::empty(),
    {
        LoginResponse { success: false, token: String::new() }
    }
}

impl Default for GptMessage {
    /// No role and no content.
    fn default() -> (message: GptMessage)
        ensures
            message@.role == Seq::<char>::empty(),
            message@.content == Seq::<char>::empty(),
    {
        GptMessage { role: String::new(), content: String::new() }
    }
}

impl Default for Temperature {
    /// Zero.
    fn default() -> (temperature: Temperature)
        ensures
            temperature.tenths == 0,
    {
        Temperature { tenths: 0 }
    }
}

impl Default for ChatCompletionRequest {
    /// No model, no message, not streaming, temperature zero.
    fn default() -> (request: ChatCompletionRequest)
        ensures
            request@.model == Seq::<char>::empty(),
            request@.messages == Seq::<GptMessageView>::empty(),
            !request@.stream,
            request@.temperature.tenths == 0,
    {
        let request = ChatCompletionRequest {
            model: String::new(),
            messages: Vec::new(),
            stream: false,
            temperature: Temperature { tenths: 0 },
        };
        assert(request@.messages =~= Seq::<GptMessageView>::empty());
        request
    }
}

} // verus!
