use chat_gateway::config::Config;
use chat_gateway::service::idl::{ChatCompletionRequest, GptMessage, Temperature};
use chat_gateway::service::openai::{
    type_of, ChatCompletionStream, ConnectError, RelayAction, RelayEvent, RelayState,
    UpstreamError, UpstreamItem, UpstreamRequest, CHAT_MODEL, COMPLETIONS_PATH, JSON_CONTENT_TYPE,
};

fn config(base: &str) -> Config {
    Config {
        api_base_url: String::from(base),
        openai_api_key: String::from("sk-key"),
        jwt_secret: String::from("signing secret"),
    }
}

fn prompt() -> GptMessage {
    GptMessage { role: String::from("user"), content: String::from("hi") }
}

fn streaming() -> ChatCompletionStream {
    ChatCompletionStream::new(prompt(), &config("https://api.example.com")).unwrap().0
}

fn frame(id: Option<&str>, event: Option<&str>, data: &str) -> RelayEvent {
    RelayEvent {
        id: id.map(String::from),
        event: event.map(String::from),
        data: String::from(data),
    }
}

struct Outcome {
    yielded: Vec<RelayEvent>,
    logged: Vec<String>,
    closes: usize,
    pulls: usize,
    state: RelayState,
}

fn drive(
    relay: &mut ChatCompletionStream,
    upstream: Vec<UpstreamItem>,
    polls_after: usize,
) -> Outcome {
    let mut outcome = Outcome {
        yielded: Vec::new(),
        logged: Vec::new(),
        closes: 0,
        pulls: 0,
        state: relay.state(),
    };
    let mut upstream = upstream.into_iter();
    let mut ended = 0;
    while ended <= polls_after {
        if !relay.wants_upstream() {
            ended += 1;
            continue;
        }
        outcome.pulls += 1;
        match relay.poll_next(upstream.next()) {
            RelayAction::Continue => {}
            RelayAction::Yield(item) => outcome.yielded.push(item),
            RelayAction::Close(text) => {
                outcome.closes += 1;
                outcome.logged.extend(text);
                ended += 1;
            }
            RelayAction::End => ended += 1,
        }
    }
    outcome.state = relay.state();
    outcome
}

#[test]
fn the_constants_name_the_endpoint() {
    assert_eq!(CHAT_MODEL, "gpt-3.5-turbo");
    assert_eq!(COMPLETIONS_PATH, "/v1/chat/completions");
    assert_eq!(JSON_CONTENT_TYPE, "application/json;charset=utf-8");
}

#[test]
fn new_builds_the_request_and_streams() {
    let (relay, request) =
        ChatCompletionStream::new(prompt(), &config("https://api.example.com")).unwrap();
    assert_eq!(relay.state(), RelayState::Streaming);
    assert!(relay.wants_upstream());
    assert_eq!(
        request,
        UpstreamRequest {
            url: String::from("https://api.example.com/v1/chat/completions"),
            bearer: String::from("sk-key"),
            content_type: "application/json;charset=utf-8",
            body: ChatCompletionRequest {
                model: String::from("gpt-3.5-turbo"),
                messages: vec![prompt()],
                stream: true,
                temperature: Temperature { tenths: 5 },
            },
            timeout_secs: None,
        }
    );
}

#[test]
fn new_hands_out_the_url_as_the_parser_normalises_it() {
    let base = config("HTTPS://API.Example.COM:443/proxy/..");
    let (_, request) = ChatCompletionStream::new(prompt(), &base).unwrap();
    assert_eq!(request.url, "https://api.example.com/v1/chat/completions");
    let (_, request) =
        ChatCompletionStream::new(prompt(), &config("http://localhost:8080/v2")).unwrap();
    assert_eq!(request.url, "http://localhost:8080/v2/v1/chat/completions");
}

#[test]
fn new_fails_fast_on_a_base_that_gives_no_url() {
    assert_eq!(
        ChatCompletionStream::new(prompt(), &config("")),
        Err(ConnectError { url: String::from("/v1/chat/completions") })
    );
    assert_eq!(
        ChatCompletionStream::new(prompt(), &config("api.example.com")),
        Err(ConnectError { url: String::from("api.example.com/v1/chat/completions") })
    );
    assert_eq!(
        ChatCompletionStream::new(prompt(), &config("https://exa mple.com")),
        Err(ConnectError { url: String::from("https://exa mple.com/v1/chat/completions") })
    );
    assert_eq!(
        ChatCompletionStream::new(prompt(), &config("http://[::1")),
        Err(ConnectError { url: String::from("http://[::1/v1/chat/completions") })
    );
}

#[test]
fn to_endpoint_wraps_the_prompt_into_one_message() {
    let request = UpstreamRequest::to_endpoint(String::from("http://h/p"), "key", prompt());
    assert_eq!(request.url, "http://h/p");
    assert_eq!(request.bearer, "key");
    assert_eq!(request.content_type, JSON_CONTENT_TYPE);
    assert_eq!(request.body, ChatCompletionRequest::new("gpt-3.5-turbo", vec![prompt()]));
    assert_eq!(request.timeout_secs, None);
}

#[test]
fn timeout_sets_the_upper_bound_and_nothing_else() {
    let plain = UpstreamRequest::to_endpoint(String::from("http://h/p"), "key", prompt());
    let bounded = plain.clone().timeout(24 * 60 * 60);
    assert_eq!(bounded.timeout_secs, Some(86400));
    assert_eq!(UpstreamRequest { timeout_secs: None, ..bounded }, plain);
}

#[test]
fn open_starts_an_idle_relay_only() {
    assert_eq!(RelayState::Idle.open(), RelayState::Streaming);
    assert_eq!(RelayState::Streaming.open(), RelayState::Streaming);
    assert_eq!(RelayState::Closed.open(), RelayState::Closed);
}

#[test]
fn frames_are_relayed_one_to_one_in_order() {
    let frames = vec![
        frame(Some("1"), Some("message"), "Hel"),
        frame(None, None, "lo"),
        frame(Some(""), Some(""), ""),
        frame(Some("4"), None, "two\nlines"),
    ];
    let upstream = frames.iter().cloned().map(UpstreamItem::Frame).collect();
    let mut relay = streaming();
    let outcome = drive(&mut relay, upstream, 0);
    assert_eq!(outcome.yielded, frames);
    assert_eq!(outcome.pulls, 5);
    assert_eq!(outcome.logged, Vec::<String>::new());
    assert_eq!(outcome.closes, 0);
    assert_eq!(outcome.state, RelayState::Closed);
}

#[test]
fn an_empty_upstream_ends_at_once() {
    let mut relay = streaming();
    assert_eq!(relay.poll_next(None), RelayAction::End);
    assert_eq!(relay.state(), RelayState::Closed);
}

#[test]
fn a_frame_is_yielded_unchanged() {
    let mut relay = streaming();
    let item = frame(Some("id-7"), Some("delta"), "{\"content\":\"x\"}");
    assert_eq!(relay.poll_next(Some(UpstreamItem::Frame(item.clone()))), RelayAction::Yield(item));
    assert_eq!(relay.state(), RelayState::Streaming);
}

#[test]
fn opened_yields_nothing() {
    let mut relay = streaming();
    assert_eq!(relay.poll_next(Some(UpstreamItem::Opened)), RelayAction::Continue);
    assert_eq!(relay.state(), RelayState::Streaming);

    let with_opened = vec![
        UpstreamItem::Opened,
        UpstreamItem::Frame(frame(None, None, "a")),
        UpstreamItem::Opened,
        UpstreamItem::Opened,
        UpstreamItem::Frame(frame(None, None, "b")),
    ];
    let outcome = drive(&mut streaming(), with_opened, 0);
    assert_eq!(outcome.yielded, vec![frame(None, None, "a"), frame(None, None, "b")]);
    assert_eq!(outcome.pulls, 6);
}

#[test]
fn a_fault_ends_the_stream_and_is_logged_once() {
    let upstream = vec![
        UpstreamItem::Frame(frame(None, None, "a")),
        UpstreamItem::Failed(UpstreamError::Fault(String::from("connection reset"))),
        UpstreamItem::Frame(frame(None, None, "never seen")),
        UpstreamItem::Failed(UpstreamError::Fault(String::from("second fault"))),
    ];
    let outcome = drive(&mut streaming(), upstream, 5);
    assert_eq!(outcome.yielded, vec![frame(None, None, "a")]);
    assert_eq!(outcome.logged, vec![String::from("connection reset")]);
    assert_eq!(outcome.closes, 1);
    assert_eq!(outcome.pulls, 2);
    assert_eq!(outcome.state, RelayState::Closed);
}

#[test]
fn a_deliberate_end_ends_the_stream_and_logs_nothing() {
    let mut relay = streaming();
    assert_eq!(
        relay.poll_next(Some(UpstreamItem::Failed(UpstreamError::Ended))),
        RelayAction::Close(None)
    );
    assert_eq!(relay.state(), RelayState::Closed);
    assert!(!relay.wants_upstream());
}

#[test]
fn a_fault_without_text_is_still_reported() {
    let mut relay = streaming();
    assert_eq!(
        relay.poll_next(Some(UpstreamItem::Failed(UpstreamError::Fault(String::new())))),
        RelayAction::Close(Some(String::new()))
    );
}

#[test]
fn a_closed_relay_keeps_ending() {
    let mut relay = streaming();
    relay.poll_next(Some(UpstreamItem::Failed(UpstreamError::Fault(String::from("boom")))));
    for _ in 0..4 {
        assert!(!relay.wants_upstream());
        assert_eq!(relay.poll_next(None), RelayAction::End);
        assert_eq!(relay.poll_next(Some(UpstreamItem::Opened)), RelayAction::End);
        assert_eq!(
            relay.poll_next(Some(UpstreamItem::Frame(frame(None, None, "late")))),
            RelayAction::End
        );
        assert_eq!(
            relay.poll_next(Some(UpstreamItem::Failed(UpstreamError::Fault(String::from("late"))))),
            RelayAction::End
        );
        assert_eq!(relay.state(), RelayState::Closed);
    }
}

#[test]
fn cancel_closes_the_upstream_of_a_streaming_relay_once() {
    let mut relay = streaming();
    relay.poll_next(Some(UpstreamItem::Frame(frame(None, None, "a"))));
    assert_eq!(relay.cancel(), RelayAction::Close(None));
    assert_eq!(relay.state(), RelayState::Closed);
    assert_eq!(relay.cancel(), RelayAction::End);
    assert_eq!(relay.poll_next(None), RelayAction::End);
}

#[test]
fn cancel_after_the_end_closes_nothing() {
    let mut relay = streaming();
    relay.poll_next(None);
    assert_eq!(relay.cancel(), RelayAction::End);
    assert_eq!(relay.state(), RelayState::Closed);
}

#[test]
fn type_of_is_the_unit_name_for_a_deliberate_end_only() {
    assert_eq!(type_of(&UpstreamError::Ended), "()");
    assert_eq!(type_of(&UpstreamError::Fault(String::from("boom"))), "String");
    assert_eq!(type_of(&UpstreamError::Fault(String::new())), "String");
}
