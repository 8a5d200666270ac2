//! The chat relay: one streaming request to the model provider, re-emitted frame for frame.
//!
//! The relay does no I/O. It builds the request that opens the upstream, and then decides, for
//! each item that whoever drives it has pulled from the upstream, what the consumer gets: the
//! same frame, nothing yet, or the end of the stream.

use vstd::prelude::*;
use vstd::string::*;
use crate::config::Config;
use crate::service::idl::{
    ChatCompletionRequest,
    ChatCompletionRequestView,
    GptMessage,
    GptMessageView,
    Temperature,
    DEFAULT_TEMPERATURE_TENTHS,
};

verus! {

/// The model every chat is sent to.
pub const CHAT_MODEL: &'static str = "gpt-3.5-turbo";

/// The path of the chat completion endpoint below the provider's base URL.
pub const COMPLETIONS_PATH: &'static str = "/v1/chat/completions";

/// The content type of the request body.
pub const JSON_CONTENT_TYPE: &'static str = "application/json;charset=utf-8";

/// One server-sent event: an optional id, an optional event name, and the data.
#[derive(Debug, Clone, PartialEq, Eq)]
pub struct RelayEvent {
    pub id: Option<String>,
    pub event: Option<String>,
    pub data: String,
}

/// What a [`RelayEvent`] holds.
pub struct RelayEventView {
    pub id: Option<Seq<char>>,
    pub event: Option<Seq<char>>,
    pub data: Seq<char>,
}

/// The characters of a string that may be absent.
pub open spec fn text_of(text: Option<String>) -> Option<Seq<char>> {
    match text {
        Some(text) => Some(text@),
        None => None,
    }
}

impl View for RelayEvent {
    type V = RelayEventView;

    open spec fn view(&self) -> RelayEventView {
        RelayEventView { id: text_of(self.id), event: text_of(self.event), data: self.data@ }
    }
}

/// Why the upstream stopped.
#[derive(Debug, Clone, PartialEq, Eq)]
pub enum UpstreamError {
    /// The upstream ended the stream on purpose. There is nothing to report.
    Ended,
    /// The transport or the decoding failed; the text says how.
    Fault(String),
}

/// What an [`UpstreamError`] holds.
pub enum UpstreamErrorView {
    Ended,
    Fault(Seq<char>),
}

impl View for UpstreamError {
    type V = UpstreamErrorView;

    open spec fn view(&self) -> UpstreamErrorView {
        match self {
            UpstreamError::Ended => UpstreamErrorView::Ended,
            UpstreamError::Fault(text) => UpstreamErrorView::Fault(text@),
        }
    }
}

/// One item of the upstream's sequence.
#[derive(Debug, Clone, PartialEq, Eq)]
pub enum UpstreamItem {
    /// The connection stands. Carries nothing.
    Opened,
    /// One decoded frame.
    Frame(RelayEvent),
    /// The upstream stopped; no item follows.
    Failed(UpstreamError),
}

/// What an [`UpstreamItem`] holds.
pub enum UpstreamItemView {
    Opened,
    Frame(RelayEventView),
    Failed(UpstreamErrorView),
}

impl View for UpstreamItem {
    type V = UpstreamItemView;

    open spec fn view(&self) -> UpstreamItemView {
        match self {
            UpstreamItem::Opened => UpstreamItemView::Opened,
            UpstreamItem::Frame(frame) => UpstreamItemView::Frame(frame@),
            UpstreamItem::Failed(error) => UpstreamItemView::Failed(error@),
        }
    }
}

/// What was pulled from the upstream, `None` standing for its exhaustion.
pub open spec fn pulled_view(pulled: Option<UpstreamItem>) -> Option<UpstreamItemView> {
    match pulled {
        Some(item) => Some(item@),
        None => None,
    }
}

/// Where a relay stands.
#[derive(Debug, Clone, Copy, PartialEq, Eq, Structural)]
pub enum RelayState {
    /// No upstream has been opened.
    Idle,
    /// The upstream is open and items are passed on.
    Streaming,
    /// The stream has ended. Nothing leaves this state.
    Closed,
}

/// What a relay does with one pulled item.
#[derive(Debug, Clone, PartialEq, Eq)]
pub enum RelayAction {
    /// Nothing for the consumer: pull the next item.
    Continue,
    /// Hand this item to the consumer.
    Yield(RelayEvent),
    /// Close the upstream, log the text if there is one, and end the stream.
    Close(Option<String>),
    /// End the stream.
    End,
}

/// What a [`RelayAction`] says.
pub enum RelayActionView {
    Continue,
    Yield(RelayEventView),
    Close(Option<Seq<char>>),
    End,
}

impl View for RelayAction {
    type V = RelayActionView;

    open spec fn view(&self) -> RelayActionView {
        match self {
            RelayAction::Continue => RelayActionView::Continue,
            RelayAction::Yield(item) => RelayActionView::Yield(item@),
            RelayAction::Close(text) => RelayActionView::Close(text_of(*text)),
            RelayAction::End => RelayActionView::End,
        }
    }
}

/// What there is to report of a terminal signal: the text of a fault, nothing of a deliberate
/// end.
pub open spec fn diagnostic(error: UpstreamErrorView) -> Option<Seq<char>> {
    match error {
        UpstreamErrorView::Ended => None,
        UpstreamErrorView::Fault(text) => Some(text),
    }
}

/// The name of the type of what a terminal signal carries.
pub open spec fn payload_type(error: UpstreamErrorView) -> Seq<char> {
    match error {
        UpstreamErrorView::Ended => "()"@,
        UpstreamErrorView::Fault(_) => "String"@,
    }
}

/// Names the type of what a terminal signal carries: `"()"` for a deliberate end, which carries
/// nothing, and `"String"` for a fault. So the name is `"()"` exactly if there is nothing to
/// report.
pub fn type_of(error: &UpstreamError) -> (name: &'static str)
    ensures
        name@ == payload_type(error@),
        (name@ == "()"@) <==> (diagnostic(error@) is None),
{
    proof {
        reveal_strlit("()");
        reveal_strlit("String");
    }
    match error {
        UpstreamError::Ended => {
            assert(payload_type(error@) == "()"@);
            "()"
        },
        UpstreamError::Fault(_) => "String",
    }
}

/// One step of a relay on what was pulled from the upstream (`None`: the upstream is
/// exhausted): the state it moves to and what it does.
pub open spec fn relay_step(state: RelayState, pulled: Option<UpstreamItemView>) -> (
    RelayState,
    RelayActionView,
) {
    match state {
        RelayState::Streaming => match pulled {
            Some(UpstreamItemView::Opened) => (RelayState::Streaming, RelayActionView::Continue),
            Some(UpstreamItemView::Frame(frame)) => (
                RelayState::Streaming,
                RelayActionView::Yield(frame),
            ),
            Some(UpstreamItemView::Failed(error)) => (
                RelayState::Closed,
                RelayActionView::Close(diagnostic(error)),
            ),
            None => (RelayState::Closed, RelayActionView::End),
        },
        RelayState::Idle => (RelayState::Idle, RelayActionView::End),
        RelayState::Closed => (RelayState::Closed, RelayActionView::End),
    }
}

impl RelayState {
    /// The state after the upstream has been opened: an idle relay streams, any other stays as
    /// it is.
    pub open spec fn spec_open(self) -> RelayState {
        match self {
            RelayState::Idle => RelayState::Streaming,
            other => other,
        }
    }

    /// Opens the upstream of an idle relay. A relay that streams or is closed stays as it is.
    #[verifier::when_used_as_spec(spec_open)]
    pub fn open(self) -> (next: RelayState)
        ensures
            next == self.spec_open(),
    {
        match self {
            RelayState::Idle => RelayState::Streaming,
            other => other,
        }
    }
}

/// The relay of one chat.
#[derive(Debug, PartialEq, Eq)]
pub struct ChatCompletionStream {
    state: RelayState,
}

impl View for ChatCompletionStream {
    type V = RelayState;

    closed spec fn view(&self) -> RelayState {
        self.state
    }
}

/// The error type of the `url` crate, carried through and never looked into.
#[verifier::external_type_specification]
#[verifier::external_body]
pub struct ExUrlParseError(url::ParseError);

/// The normalised text of the absolute URL that `url::Url::parse` reads from `text`, or `None`
/// where it reads none.
pub uninterp spec fn parsed_url(text: Seq<char>) -> Option<Seq<char>>;

/// Calls `url::Url::parse` and hands out the URL's own text. The contract only names the
/// outcome: equal texts give equal outcomes.
#[verifier::external_body]
fn parse_url(text: &str) -> (outcome: Result<String, url::ParseError>)
    ensures
        match outcome {
            Ok(url) => parsed_url(text@) == Some(url@),
            Err(_) => parsed_url(text@) is None,
        },
{
    url::Url::parse(text).map(String::from)
}

/// The failure to build the upstream request: the text that should have been its URL is none.
#[derive(Debug, Clone, PartialEq, Eq)]
pub struct ConnectError {
    pub url: String,
}

/// Everything that opens the upstream: one POST, authorised by a bearer secret, with a JSON
/// body.
#[derive(Debug, Clone, PartialEq, Eq)]
pub struct UpstreamRequest {
    /// The endpoint, as a normalised absolute URL.
    pub url: String,
    /// The provider's API key, sent as a bearer credential.
    pub bearer: String,
    /// The value of the `Content-Type` header.
    pub content_type: &'static str,
    /// What the body says.
    pub body: ChatCompletionRequest,
    /// The longest the request may take in seconds. `None`: as long as the upstream lasts.
    pub timeout_secs: Option<u64>,
}

/// What an [`UpstreamRequest`] holds.
pub struct UpstreamRequestView {
    pub url: Seq<char>,
    pub bearer: Seq<char>,
    pub content_type: Seq<char>,
    pub body: ChatCompletionRequestView,
    pub timeout_secs: Option<u64>,
}

impl View for UpstreamRequest {
    type V = UpstreamRequestView;

    open spec fn view(&self) -> UpstreamRequestView {
        UpstreamRequestView {
            url: self.url@,
            bearer: self.bearer@,
            content_type: self.content_type@,
            body: self.body@,
            timeout_secs: self.timeout_secs,
        }
    }
}

/// The request that asks the endpoint `url` to answer `prompt`, authorised by `api_key`.
pub open spec fn chat_request(
    url: Seq<char>,
    api_key: Seq<char>,
    prompt: GptMessageView,
) -> UpstreamRequestView {
    UpstreamRequestView {
        url,
        bearer: api_key,
        content_type: JSON_CONTENT_TYPE@,
        body: ChatCompletionRequestView {
            model: CHAT_MODEL@,
            messages: seq![prompt],
            stream: true,
            temperature: Temperature { tenths: DEFAULT_TEMPERATURE_TENTHS },
        },
        timeout_secs: None,
    }
}

/// The text of the chat completion endpoint below `base`.
pub open spec fn completions_url(base: Seq<char>) -> Seq<char> {
    base + COMPLETIONS_PATH@
}

impl UpstreamRequest {
    /// The request that asks the endpoint `url` to answer `prompt`: one message, sent to
    /// [`CHAT_MODEL`] as a stream, with no limit on its duration.
    pub fn to_endpoint(url: String, api_key: &str, prompt: GptMessage) -> (request: UpstreamRequest)
        ensures
            request@ == chat_request(url@, api_key@, prompt@),
    {
        let ghost said = prompt@;
        let messages = vec![prompt];
        assert(messages.deep_view() =~= seq![said]);
        UpstreamRequest {
            url,
            bearer: api_key.to_owned(),
            content_type: JSON_CONTENT_TYPE,
            body: ChatCompletionRequest::new(CHAT_MODEL, messages),
            timeout_secs: None,
        }
    }

    /// The same request, given up after `secs` seconds.
    pub fn timeout(self, secs: u64) -> (request: UpstreamRequest)
        ensures
            request@ == (UpstreamRequestView { timeout_secs: Some(secs), ..self@ }),
    {
        UpstreamRequest {
            url: self.url,
            bearer: self.bearer,
            content_type: self.content_type,
            body: self.body,
            timeout_secs: Some(secs),
        }
    }
}

impl ChatCompletionStream {
    /// Where the relay stands.
    pub fn state(&self) -> (state: RelayState)
        ensures
            state == self@,
    {
        self.state
    }

    /// Whether a poll has to pull from the upstream: only a relay that streams does. Once
    /// closed, a relay ends every poll without touching the upstream again.
    pub fn wants_upstream(&self) -> (wanted: bool)
        ensures
            wanted == (self@ == RelayState::Streaming),
    {
        match self.state {
            RelayState::Streaming => true,
            _ => false,
        }
    }

    /// Builds the request for one chat and starts the relay on it.
    ///
    /// The endpoint is [`COMPLETIONS_PATH`] below the configured base URL. If that text is no
    /// absolute URL (see [`parsed_url`]) nothing is started and the text comes back in the
    /// error. Otherwise the relay streams, and the request is the one that
    /// [`UpstreamRequest::to_endpoint`] builds for the normalised URL, the configured API key
    /// and `prompt`.
    pub fn new(prompt: GptMessage, config: &Config) -> (started: Result<
        (ChatCompletionStream, UpstreamRequest),
        ConnectError,
    >)
        ensures
            match started {
                Ok((stream, request)) => {
                    &&& stream@ == RelayState::Streaming
                    &&& parsed_url(completions_url(config.api_base_url@)) == Some(request@.url)
                    &&& request@ == chat_request(
                        request@.url,
                        config.openai_api_key@,
                        prompt@,
                    )
                },
                Err(error) => {
                    &&& parsed_url(completions_url(config.api_base_url@)) is None
                    &&& error.url@ == completions_url(config.api_base_url@)
                },
            },
    {
        let text = config.api_base_url.clone().concat(COMPLETIONS_PATH);
        match parse_url(text.as_str()) {
            Ok(url) => {
                let request = UpstreamRequest::to_endpoint(
                    url,
                    config.openai_api_key.as_str(),
                    prompt,
                );
                Ok((ChatCompletionStream { state: RelayState::Idle.open() }, request))
            },
            Err(_) => Err(ConnectError { url: text }),
        }
    }

    /// Decides what becomes of one item pulled from the upstream, `None` standing for its
    /// exhaustion.
    ///
    /// While the relay streams: an `Opened` item yields nothing and asks for the next; a frame
    /// is yielded as it is; a failure closes the upstream, reports the fault's text (nothing
    /// for a deliberate end) and ends the stream; exhaustion ends the stream. A relay that does
    /// not stream ends the stream and stays as it is.
    pub fn poll_next(&mut self, pulled: Option<UpstreamItem>) -> (action: RelayAction)
        ensures
            (final(self)@, action@) == relay_step(old(self)@, pulled_view(pulled)),
    {
        match self.state {
            RelayState::Streaming => match pulled {
                Some(UpstreamItem::Opened) => RelayAction::Continue,
                Some(UpstreamItem::Frame(frame)) => RelayAction::Yield(frame),
                Some(UpstreamItem::Failed(error)) => {
                    self.state = RelayState::Closed;
                    match error {
                        UpstreamError::Ended => RelayAction::Close(None),
                        UpstreamError::Fault(text) => RelayAction::Close(Some(text)),
                    }
                },
                None => {
                    self.state = RelayState::Closed;
                    RelayAction::End
                },
            },
            _ => RelayAction::End,
        }
    }

    /// Gives the relay up because its consumer is gone.
    ///
    /// A relay that streams closes its upstream, with nothing to report; any other has no
    /// upstream to close. Either way the relay is closed afterwards.
    pub fn cancel(&mut self) -> (action: RelayAction)
        ensures
            final(self)@ == RelayState::Closed,
            action@ == if old(self)@ == RelayState::Streaming {
                RelayActionView::Close(None)
            } else {
                RelayActionView::End
            },
    {
        let streaming = self.wants_upstream();
        self.state = RelayState::Closed;
        if streaming {
            RelayAction::Close(None)
        } else {
            RelayAction::End
        }
    }
}

/// What a relay has done over a run of polls.
pub struct RelayTranscript {
    /// Where the relay stands at the end.
    pub state: RelayState,
    /// The items handed to the consumer, in their order.
    pub yielded: Seq<RelayEventView>,
    /// The texts that were logged, in their order.
    pub logged: Seq<Seq<char>>,
    /// How often the upstream was closed.
    pub closes: nat,
}

/// The items one action hands to the consumer.
pub open spec fn yielded_by(action: RelayActionView) -> Seq<RelayEventView> {
    match action {
        RelayActionView::Yield(item) => seq![item],
        _ => Seq::empty(),
    }
}

/// The texts one action logs.
pub open spec fn logged_by(action: RelayActionView) -> Seq<Seq<char>> {
    match action {
        RelayActionView::Close(Some(text)) => seq![text],
        _ => Seq::empty(),
    }
}

/// How often one action closes the upstream.
pub open spec fn closes_by(action: RelayActionView) -> nat {
    match action {
        RelayActionView::Close(_) => 1,
        _ => 0,
    }
}

/// What a relay does when it starts in `state` and is polled once for each entry of `pulled`,
/// the entry being what the upstream gave to that poll.
pub open spec fn relay_run(
    state: RelayState,
    pulled: Seq<Option<UpstreamItemView>>,
) -> RelayTranscript
    decreases pulled.len(),
{
    if pulled.len() == 0 {
        RelayTranscript { state, yielded: Seq::empty(), logged: Seq::empty(), closes: 0 }
    } else {
        let (next, action) = relay_step(state, pulled[0]);
        let rest = relay_run(next, pulled.drop_first());
        RelayTranscript {
            state: rest.state,
            yielded: yielded_by(action) + rest.yielded,
            logged: logged_by(action) + rest.logged,
            closes: closes_by(action) + rest.closes,
        }
    }
}

/// A sequence of frames as the upstream hands them out, one per poll.
pub open spec fn as_pulled_frames(frames: Seq<RelayEventView>) -> Seq<Option<UpstreamItemView>> {
    Seq::new(frames.len(), |i: int| Some(UpstreamItemView::Frame(frames[i])))
}

/// Whether every poll of `pulled` got an item that does not end the stream: an `Opened` or a
/// frame.
pub open spec fn all_pass_on(pulled: Seq<Option<UpstreamItemView>>) -> bool {
    forall|i: int|
        0 <= i < pulled.len() ==> (#[trigger] pulled[i] matches Some(item) && !(item is Failed))
}

/// A run over `first` followed by `second` is the run over `first`, continued by the run over
/// `second` from where the first one ended.
pub proof fn lemma_relay_run_concat(
    state: RelayState,
    first: Seq<Option<UpstreamItemView>>,
    second: Seq<Option<UpstreamItemView>>,
)
    ensures
        ({
            let whole = relay_run(state, first + second);
            let head = relay_run(state, first);
            let tail = relay_run(head.state, second);
            &&& whole.state == tail.state
            &&& whole.yielded == head.yielded + tail.yielded
            &&& whole.logged == head.logged + tail.logged
            &&& whole.closes == head.closes + tail.closes
        }),
    decreases first.len(),
{
    if first.len() == 0 {
        assert(first + second == second);
    } else {
        let (next, action) = relay_step(state, first[0]);
        assert((first + second).drop_first() == first.drop_first() + second);
        assert((first + second)[0] == first[0]);
        lemma_relay_run_concat(next, first.drop_first(), second);
        let head_rest = relay_run(next, first.drop_first());
        let tail = relay_run(head_rest.state, second);
        assert(yielded_by(action) + (head_rest.yielded + tail.yielded) == (yielded_by(action)
            + head_rest.yielded) + tail.yielded);
        assert(logged_by(action) + (head_rest.logged + tail.logged) == (logged_by(action)
            + head_rest.logged) + tail.logged);
    }
}

/// Once a relay is closed it stays closed: however often it is polled, and whatever the polls
/// bring, it yields nothing, logs nothing and closes nothing again.
pub proof fn lemma_closed_relay_only_ends(pulled: Seq<Option<UpstreamItemView>>)
    ensures
        relay_run(RelayState::Closed, pulled) == (RelayTranscript {
            state: RelayState::Closed,
            yielded: Seq::empty(),
            logged: Seq::empty(),
            closes: 0,
        }),
        forall|i: int|
            0 <= i < pulled.len() ==> relay_step(RelayState::Closed, #[trigger] pulled[i]) == (
                RelayState::Closed,
                RelayActionView::End,
            ),
    decreases pulled.len(),
{
    if pulled.len() > 0 {
        lemma_closed_relay_only_ends(pulled.drop_first());
        let rest = relay_run(RelayState::Closed, pulled.drop_first());
        assert(Seq::<RelayEventView>::empty() + rest.yielded == Seq::<RelayEventView>::empty());
        assert(Seq::<Seq<char>>::empty() + rest.logged == Seq::<Seq<char>>::empty());
    }
}

/// A relay that is fed the frames `frames` and then finds its upstream exhausted yields exactly
/// these frames, in their order and unchanged, and then ends: it is closed, and has logged and
/// closed nothing.
pub proof fn lemma_frames_are_relayed_in_order(frames: Seq<RelayEventView>)
    ensures
        relay_run(RelayState::Streaming, as_pulled_frames(frames) + seq![None]) == (
            RelayTranscript {
                state: RelayState::Closed,
                yielded: frames,
                logged: Seq::empty(),
                closes: 0,
            }
        ),
        relay_run(RelayState::Streaming, as_pulled_frames(frames)).state == RelayState::Streaming,
    decreases frames.len(),
{
    let pulled = as_pulled_frames(frames);
    let end: Seq<Option<UpstreamItemView>> = seq![None];
    if frames.len() == 0 {
        assert(pulled + end == end);
        assert(end.drop_first() == Seq::<Option<UpstreamItemView>>::empty());
        reveal_with_fuel(relay_run, 2);
        let run = relay_run(RelayState::Streaming, end);
        assert(run.yielded == frames);
        assert(run.logged == Seq::<Seq<char>>::empty());
    } else {
        let rest = frames.drop_first();
        lemma_frames_are_relayed_in_order(rest);
        assert(pulled.drop_first() == as_pulled_frames(rest));
        assert((pulled + end).drop_first() == as_pulled_frames(rest) + end);
        assert((pulled + end)[0] == Some(UpstreamItemView::Frame(frames[0])));
        let run = relay_run(RelayState::Streaming, pulled + end);
        assert(run.yielded == seq![frames[0]] + rest);
        assert(seq![frames[0]] + rest == frames);
        assert(run.logged == Seq::<Seq<char>>::empty());
    }
}

/// An `Opened` item leaves no trace: with it or without it, at any place among the polls, the
/// relay yields, logs and closes the same and ends in the same state.
pub proof fn lemma_opened_yields_nothing(
    state: RelayState,
    before: Seq<Option<UpstreamItemView>>,
    after: Seq<Option<UpstreamItemView>>,
)
    ensures
        relay_step(RelayState::Streaming, Some(UpstreamItemView::Opened)) == (
            RelayState::Streaming,
            RelayActionView::Continue,
        ),
        relay_run(state, before + seq![Some(UpstreamItemView::Opened)] + after) == relay_run(
            state,
            before + after,
        ),
{
    let opened: Seq<Option<UpstreamItemView>> = seq![Some(UpstreamItemView::Opened)];
    let reached = relay_run(state, before).state;
    assert(opened.drop_first() == Seq::<Option<UpstreamItemView>>::empty());
    reveal_with_fuel(relay_run, 2);
    let blank = relay_run(reached, opened);
    assert(blank.state == reached);
    assert(blank.yielded == Seq::<RelayEventView>::empty());
    assert(blank.logged == Seq::<Seq<char>>::empty());
    assert(blank.closes == 0);
    lemma_relay_run_concat(state, before + opened, after);
    lemma_relay_run_concat(state, before, opened);
    lemma_relay_run_concat(state, before, after);
    let with = relay_run(state, before + opened + after);
    let without = relay_run(state, before + after);
    let head = relay_run(state, before);
    let tail = relay_run(reached, after);
    assert(head.yielded + blank.yielded == head.yielded);
    assert(head.logged + blank.logged == head.logged);
    assert(with.yielded == without.yielded);
    assert(with.logged == without.logged);
}

/// A relay that has only been fed items that do not end the stream still streams, and has
/// logged and closed nothing.
pub proof fn lemma_passing_on_keeps_streaming(pulled: Seq<Option<UpstreamItemView>>)
    requires
        all_pass_on(pulled),
    ensures
        relay_run(RelayState::Streaming, pulled).state == RelayState::Streaming,
        relay_run(RelayState::Streaming, pulled).logged == Seq::<Seq<char>>::empty(),
        relay_run(RelayState::Streaming, pulled).closes == 0,
    decreases pulled.len(),
{
    if pulled.len() > 0 {
        let rest = pulled.drop_first();
        assert(pulled[0] matches Some(item) && !(item is Failed));
        assert forall|i: int| 0 <= i < rest.len() implies (#[trigger] rest[i] matches Some(item)
            && !(item is Failed)) by {
            assert(rest[i] == pulled[i + 1]);
        }
        lemma_passing_on_keeps_streaming(rest);
        let run = relay_run(RelayState::Streaming, rest);
        assert(Seq::<Seq<char>>::empty() + run.logged == run.logged);
    }
}

/// A failure ends the stream, whatever was passed on before it and whatever is polled after it:
/// the relay is closed, the upstream has been closed exactly once, and exactly the text of a
/// fault has been logged, once, while a deliberate end has logged nothing.
pub proof fn lemma_failure_ends_stream_and_is_logged_once(
    before: Seq<Option<UpstreamItemView>>,
    error: UpstreamErrorView,
    after: Seq<Option<UpstreamItemView>>,
)
    requires
        all_pass_on(before),
    ensures
        ({
            let run = relay_run(
                RelayState::Streaming,
                before + seq![Some(UpstreamItemView::Failed(error))] + after,
            );
            &&& run.state == RelayState::Closed
            &&& run.closes == 1
            &&& run.yielded == relay_run(RelayState::Streaming, before).yielded
            &&& run.logged == match error {
                UpstreamErrorView::Fault(text) => seq![text],
                UpstreamErrorView::Ended => Seq::empty(),
            }
        }),
{
    let failed: Seq<Option<UpstreamItemView>> = seq![Some(UpstreamItemView::Failed(error))];
    lemma_passing_on_keeps_streaming(before);
    assert(failed.drop_first() == Seq::<Option<UpstreamItemView>>::empty());
    reveal_with_fuel(relay_run, 2);
    let stop = relay_run(RelayState::Streaming, failed);
    assert(stop.state == RelayState::Closed);
    assert(stop.yielded == Seq::<RelayEventView>::empty());
    assert(stop.closes == 1);
    assert(stop.logged == logged_by(RelayActionView::Close(diagnostic(error))));
    lemma_closed_relay_only_ends(after);
    lemma_relay_run_concat(RelayState::Streaming, before + failed, after);
    lemma_relay_run_concat(RelayState::Streaming, before, failed);
    let head = relay_run(RelayState::Streaming, before);
    let run = relay_run(RelayState::Streaming, before + failed + after);
    assert(head.yielded + stop.yielded == head.yielded);
    assert(head.logged + stop.logged == stop.logged);
    assert(run.yielded == head.yielded);
    assert(run.logged == stop.logged);
}

/// The frames among `pulled` that come before the upstream stops, in their order: `Opened`
/// items are passed over, and nothing counts from the first failure or exhaustion on.
pub open spec fn frames_until_end(pulled: Seq<Option<UpstreamItemView>>) -> Seq<RelayEventView>
    decreases pulled.len(),
{
    if pulled.len() == 0 {
        Seq::empty()
    } else {
        match pulled[0] {
            Some(UpstreamItemView::Frame(frame)) => seq![frame] + frames_until_end(
                pulled.drop_first(),
            ),
            Some(UpstreamItemView::Opened) => frames_until_end(pulled.drop_first()),
            _ => Seq::empty(),
        }
    }
}

/// Whatever the upstream brings, a streaming relay hands the consumer exactly the frames that
/// came before the upstream stopped: each once, unchanged, in the order of their arrival.
pub proof fn lemma_relay_yields_frames_until_end(pulled: Seq<Option<UpstreamItemView>>)
    ensures
        relay_run(RelayState::Streaming, pulled).yielded == frames_until_end(pulled),
    decreases pulled.len(),
{
    if pulled.len() > 0 {
        let rest = pulled.drop_first();
        let (next, action) = relay_step(RelayState::Streaming, pulled[0]);
        if next == RelayState::Streaming {
            lemma_relay_yields_frames_until_end(rest);
            let run = relay_run(RelayState::Streaming, rest);
            assert(Seq::<RelayEventView>::empty() + run.yielded == run.yielded);
        } else {
            lemma_closed_relay_only_ends(rest);
            assert(Seq::<RelayEventView>::empty() + Seq::<RelayEventView>::empty()
                == Seq::<RelayEventView>::empty());
        }
    }
}

/// Over any run, from any state, a relay closes its upstream at most once, and logs at most
/// one text, and none without closing.
pub proof fn lemma_relay_closes_at_most_once(
    state: RelayState,
    pulled: Seq<Option<UpstreamItemView>>,
)
    ensures
        relay_run(state, pulled).closes <= 1,
        relay_run(state, pulled).logged.len() <= relay_run(state, pulled).closes,
        state != RelayState::Streaming ==> relay_run(state, pulled).closes == 0,
    decreases pulled.len(),
{
    if pulled.len() > 0 {
        let (next, _) = relay_step(state, pulled[0]);
        lemma_relay_closes_at_most_once(next, pulled.drop_first());
    }
}

} // verus!
