//! The inference server: waiting for it, talking to it, and reading what it says.

use scaleway_chat::config::{
    Config, InstanceConfig, LoggingConfig, NemotronConfig, ScalewayConfig, SecretText,
    TimeoutsConfig,
};
use scaleway_chat::error::AppError;
use scaleway_chat::nemotron::answer::ChatStream;
use scaleway_chat::nemotron::chat::{
    chat_status, read_input, welcome, ChatAction, ChatInput, ChatSession, ChatStep, TurnEnd,
};
use scaleway_chat::nemotron::client::{
    completion_refusal, judge_readiness, progress_words, ReadyEvent, ReadyStep,
};
use scaleway_chat::nemotron::stream::{event_of_value, parse_sse_line, SseParser};
use scaleway_chat::nemotron::NemotronClient;

fn config() -> Config {
    Config {
        scaleway: ScalewayConfig {
            access_key: "SCW123".to_string(),
            secret_key: SecretText::new("secret".to_string()),
            project_id: "00000000-0000-0000-0000-000000000000".to_string(),
            organization_id: "00000000-0000-0000-0000-000000000000".to_string(),
            zone: "fr-par-2".to_string(),
        },
        instance: InstanceConfig {
            name: "nemotron-l40s".to_string(),
            instance_type: "L40S-1-48G".to_string(),
            snapshot_id: "1b552e81-401d-4c15-b0b2-3c89e2d46c28".to_string(),
            public_ip: "new".to_string(),
            gpu_types: None,
        },
        nemotron: NemotronConfig {
            port: 8330,
            api_key: SecretText::new("key".to_string()),
            model: "model".to_string(),
            max_tokens: 10,
            temperature_bits: 0.7f32.to_bits(),
            system_prompt: "prompt".to_string(),
        },
        timeouts: TimeoutsConfig {
            instance_creation_seconds: 5,
            instance_poll_interval_seconds: 1,
            nemotron_startup_seconds: 5,
            nemotron_poll_interval_seconds: 1,
            cleanup_timeout_seconds: 5,
            cleanup_poll_interval_seconds: 1,
            inference_timeout_seconds: 300,
        },
        logging: LoggingConfig { verbose: false },
    }
}

fn client() -> NemotronClient {
    NemotronClient::new(
        "1.2.3.4".to_string(),
        8330,
        SecretText::new("key".to_string()),
        "model".to_string(),
        300,
    )
}

// ---------------------------------------------------------------- lines

#[test]
fn test_sse_parser_split_chunks() {
    let mut parser = SseParser::new();

    let chunk1 =
        b"data: {\"choices\":[{\"delta\":{\"content\":\"Hello\"}}]}\n\ndata: {\"choices\":[";
    let chunk2 = b"{\"delta\":{\"content\":\" World\"}}]}\n\ndata: [DONE]\n";

    let lines1: Vec<String> =
        parser.feed(chunk1).into_iter().filter(|s| !s.trim().is_empty()).collect();
    assert_eq!(lines1.len(), 1);
    assert_eq!(lines1[0], "data: {\"choices\":[{\"delta\":{\"content\":\"Hello\"}}]}");

    let lines2: Vec<String> =
        parser.feed(chunk2).into_iter().filter(|s| !s.trim().is_empty()).collect();
    assert_eq!(lines2.len(), 2);
    assert_eq!(lines2[0], "data: {\"choices\":[{\"delta\":{\"content\":\" World\"}}]}");
    assert_eq!(lines2[1], "data: [DONE]");
}

#[test]
fn test_sse_parser_crlf_events() {
    let mut parser = SseParser::new();
    let chunk = b"data: {\"choices\":[{\"delta\":{\"content\":\"Line\"}}]}\r\n\r\ndata: [DONE]\r\n";
    let lines: Vec<String> =
        parser.feed(chunk).into_iter().filter(|s| !s.trim().is_empty()).collect();
    assert_eq!(lines.len(), 2);
    assert_eq!(lines[0], "data: {\"choices\":[{\"delta\":{\"content\":\"Line\"}}]}");
    assert_eq!(lines[1], "data: [DONE]");
}

#[test]
fn lines_are_the_same_wherever_the_input_is_cut() {
    let input = "eins\r\nzw\u{e9}i\n\ndr\u{1f600}i".as_bytes();
    let mut whole = SseParser::default();
    let expected = whole.feed(input);
    assert_eq!(expected, vec!["eins", "zw\u{e9}i", ""]);
    assert_eq!(whole.finish(), Some("dr\u{1f600}i".to_string()));
    for cut in 0..input.len() {
        let mut parser = SseParser::new();
        let mut lines = parser.feed(&input[..cut]);
        lines.extend(parser.feed(&input[cut..]));
        assert_eq!(lines, expected);
        assert_eq!(parser.finish(), Some("dr\u{1f600}i".to_string()));
    }
}

#[test]
fn both_line_ends_count() {
    let lines = ["data: a", "", "z\u{e9}\u{1f600}", "data: b"];
    let mut unix = SseParser::new();
    let mut dos = SseParser::new();
    assert_eq!(unix.feed(format!("{}\n", lines.join("\n")).as_bytes()), lines);
    assert_eq!(dos.feed(format!("{}\r\n", lines.join("\r\n")).as_bytes()), lines);
    assert_eq!(unix.finish(), None);
    assert_eq!(dos.finish(), None);
    assert_eq!(SseParser::new().feed(b"a\r\r\n"), vec!["a\r"]);
}

#[test]
fn lines_that_are_no_text_are_left_out() {
    let mut parser = SseParser::new();
    assert_eq!(parser.feed(b"a\n\xff\xfe\nb\n\r"), vec!["a", "b"]);
    assert_eq!(parser.finish(), Some("".to_string()));
    let mut broken = SseParser::new();
    assert!(broken.feed(b"\xff").is_empty());
    assert_eq!(broken.finish(), None);
    assert_eq!(SseParser::new().finish(), None);
}

// ---------------------------------------------------------------- events

#[test]
fn test_sse_parser_comments_and_malformed() {
    assert!(matches!(parse_sse_line("   "), Ok(None)));
    assert!(matches!(parse_sse_line(": ping"), Ok(None)));
    assert!(matches!(parse_sse_line(":\n"), Ok(None)));
    assert!(matches!(parse_sse_line("data: {invalid-json}"), Ok(None)));

    let err_payload = "data: {\"error\": {\"message\": \"Model rate limit exceeded\"}}";
    let res = parse_sse_line(err_payload);
    assert!(res.is_err());
    if let Err(AppError::ChatRequestFailed(msg)) = res {
        assert_eq!(msg, "Model rate limit exceeded");
    } else {
        panic!("Expected AppError::ChatRequestFailed containing rate limit message");
    }
}

fn said(line: &str) -> Option<String> {
    parse_sse_line(line).unwrap()
}

#[test]
fn events_say_what_their_first_alternative_says() {
    assert_eq!(said("  data:  [DONE] "), Some("[DONE]".to_string()));
    assert_eq!(said("event: x"), None);
    assert_eq!(said(r#"data: {"choices": []}"#), None);
    assert_eq!(said(r#"data:{"choices":[{"delta":{"content":"a"}}]}"#), Some("a".to_string()));
    assert_eq!(
        said(r#"data: {"choices":[{"delta":{"content":null},"message":{"content":"m"}}]}"#),
        Some("m".to_string())
    );
    assert_eq!(
        said(r#"data: {"choices":[{"delta":{"content":"d"},"message":{"content":"m"}}]}"#),
        Some("d".to_string())
    );
    assert_eq!(said(r#"data: {"choices":[{"delta":{}},{"delta":{"content":"b"}}]}"#), None);
    assert_eq!(said(r#"data: {"choices":[{"delta":{"content":7}}]}"#), None);
    assert_eq!(said(r#"data: {"choices":[{"finish_reason":"stop"}]}"#), None);
    assert_eq!(said(r#"data: {"error": "plain"}"#), None);
    let value: serde_json::Value =
        serde_json::from_str(r#"{"choices":[{"delta":{"content":"v"}}]}"#).unwrap();
    assert_eq!(event_of_value(&value).unwrap(), Some("v".to_string()));
}

// ---------------------------------------------------------------- answers

const ANSWER: &str = "data: {\"choices\":[{\"delta\":{\"content\":\"Hel\"}}]}\n\n: ping\n\
    data: {\"choices\":[{\"delta\":{\"content\":\"lo\"}}]}\n\ndata: [DONE]\n\
    data: {\"choices\":[{\"delta\":{\"content\":\"late\"}}]}\n";

#[test]
fn an_answer_is_put_together() {
    let mut answer = ChatStream::new();
    let heard = answer.feed(ANSWER.as_bytes());
    assert!(heard.failure.is_none());
    assert_eq!(heard.tokens, vec!["Hel", "lo"]);
    assert!(answer.is_done());
    assert!(answer.feed(b"data: {\"choices\":[{\"delta\":{\"content\":\"x\"}}]}\n").tokens.is_empty());
    let ending = answer.finish();
    assert_eq!(ending.token, None);
    assert_eq!(ending.result.unwrap(), "Hello");
}

#[test]
fn an_answer_is_the_same_wherever_the_input_is_cut() {
    let input = ANSWER.as_bytes();
    for cut in 0..input.len() {
        let mut answer = ChatStream::new();
        let mut tokens = answer.feed(&input[..cut]).tokens;
        tokens.extend(answer.feed(&input[cut..]).tokens);
        assert_eq!(tokens, vec!["Hel", "lo"]);
        assert_eq!(answer.finish().result.unwrap(), "Hello");
    }
}

#[test]
fn an_answer_is_the_same_in_any_number_of_pieces() {
    for size in 1..ANSWER.len() {
        let mut answer = ChatStream::new();
        let mut tokens = Vec::new();
        for piece in ANSWER.as_bytes().chunks(size) {
            let heard = answer.feed(piece);
            assert!(heard.failure.is_none());
            tokens.extend(heard.tokens);
        }
        assert_eq!(tokens, vec!["Hel", "lo"]);
        assert_eq!(answer.finish().result.unwrap(), "Hello");
    }
}

#[test]
fn the_line_that_does_not_end_counts() {
    let mut answer = ChatStream::new();
    assert!(answer.feed(b"data: {\"choices\":[{\"delta\":{\"content\":\"end\"}}]}").tokens.is_empty());
    let ending = answer.finish();
    assert_eq!(ending.token, Some("end".to_string()));
    assert_eq!(ending.result.unwrap(), "end");
}

#[test]
fn an_answer_that_says_nothing_fails() {
    let mut answer = ChatStream::new();
    answer.feed(b"data: [DONE]\n");
    assert!(matches!(
        answer.finish().result,
        Err(AppError::ChatRequestFailed(m)) if m == "No content received from stream"
    ));
}

#[test]
fn an_error_ends_an_answer() {
    let mut answer = ChatStream::new();
    let heard = answer.feed(
        b"data: {\"choices\":[{\"delta\":{\"content\":\"a\"}}]}\ndata: {\"error\":{\"message\":\"m\"}}\n\
          data: {\"choices\":[{\"delta\":{\"content\":\"b\"}}]}\n",
    );
    assert_eq!(heard.tokens, vec!["a"]);
    assert!(matches!(heard.failure, Some(AppError::ChatRequestFailed(m)) if m == "m"));
    assert!(!answer.is_done());
}

// ---------------------------------------------------------------- the conversation

#[test]
fn what_the_user_types_is_told_apart() {
    assert!(matches!(read_input("  \n"), ChatInput::Nothing));
    assert!(matches!(read_input(" /clear \n"), ChatInput::Clear));
    assert!(matches!(read_input("/status"), ChatInput::Status));
    assert!(matches!(read_input("/exit"), ChatInput::Leave(ChatAction::Exit)));
    assert!(matches!(read_input("/kill"), ChatInput::Leave(ChatAction::Kill)));
    assert!(matches!(read_input("/Kill"), ChatInput::Unknown));
    assert!(matches!(read_input("/"), ChatInput::Unknown));
    match read_input("  what is /kill?  \n") {
        ChatInput::Prompt(p) => assert_eq!(p, "what is /kill?"),
        other => panic!("{:?}", other),
    }
}

fn asked(session: &mut ChatSession, line: &str) -> Vec<(String, String)> {
    match session.take_line(line) {
        ChatStep::Ask(request) => {
            request.messages.into_iter().map(|m| (m.role, m.content)).collect()
        }
        other => panic!("{:?}", other),
    }
}

#[test]
fn a_request_carries_what_was_completed_since_the_last_clear() {
    let mut session = ChatSession::new(&config());
    let read = |answer: &str| TurnEnd::Read(Ok(answer.to_string()));
    asked(&mut session, "one");
    assert_eq!(session.conclude(read("eins")), "\n");
    assert!(matches!(session.take_line(" /clear "), ChatStep::Cleared));
    asked(&mut session, " two\n");
    session.conclude(read("zwei"));
    assert!(matches!(session.take_line("  "), ChatStep::Nothing));
    assert!(matches!(session.take_line("/status"), ChatStep::ShowStatus));
    assert!(matches!(session.take_line("/what"), ChatStep::Unknown));

    asked(&mut session, "lost");
    assert_eq!(
        session.conclude(TurnEnd::Refused { body: "no".to_string() }),
        "\nChat request failed: no"
    );
    asked(&mut session, "lost too");
    assert_eq!(
        session.conclude(TurnEnd::Unreachable { reason: "away".to_string() }),
        "\nNetwork error sending chat prompt: away"
    );
    asked(&mut session, "lost again");
    assert_eq!(
        session.conclude(TurnEnd::Read(Err(AppError::MalformedStreamEvent("x".to_string())))),
        "\nError parsing response stream: Malformed SSE event: x"
    );
    assert_eq!(
        asked(&mut session, "three"),
        vec![
            turn("system", "prompt"),
            turn("user", "two"),
            turn("assistant", "zwei"),
            turn("user", "three"),
        ]
    );
    session.conclude(read("drei"));
    assert!(matches!(session.take_line("/exit"), ChatStep::Leave(ChatAction::Exit)));
    assert!(matches!(session.take_line("/kill"), ChatStep::Leave(ChatAction::Kill)));
}

fn turns(session: &mut ChatSession, prompt: &str) -> Vec<(String, String)> {
    let request = session.submit(prompt.to_string());
    assert_eq!(request.model, "model");
    assert_eq!(request.max_tokens, 10);
    assert_eq!(f32::from_bits(request.temperature_bits), 0.7);
    assert!(request.stream);
    request.messages.into_iter().map(|m| (m.role, m.content)).collect()
}

fn turn(role: &str, content: &str) -> (String, String) {
    (role.to_string(), content.to_string())
}

#[test]
fn a_failed_turn_leaves_no_trace() {
    let mut session = ChatSession::new(&config());
    assert_eq!(turns(&mut session, "a"), vec![turn("system", "prompt"), turn("user", "a")]);
    session.reject();
    assert_eq!(turns(&mut session, "b"), vec![turn("system", "prompt"), turn("user", "b")]);
    session.accept("c".to_string());
    assert_eq!(
        turns(&mut session, "d"),
        vec![
            turn("system", "prompt"),
            turn("user", "b"),
            turn("assistant", "c"),
            turn("user", "d"),
        ]
    );
    session.accept("e".to_string());
    session.clear();
    assert_eq!(turns(&mut session, "f"), vec![turn("system", "prompt"), turn("user", "f")]);
}

#[test]
fn one_question_is_asked_by_itself() {
    let request = client().complete_once(&config(), "Why?");
    let messages: Vec<(String, String)> =
        request.messages.into_iter().map(|m| (m.role, m.content)).collect();
    assert_eq!(messages, vec![turn("system", "prompt"), turn("user", "Why?")]);
    assert!(request.stream);
    assert!(matches!(
        completion_refusal(500, "boom"),
        AppError::ChatRequestFailed(m)
            if m == "Chat completion API error 500 Internal Server Error: boom"
    ));
}

#[test]
fn what_is_said_in_the_chat() {
    assert_eq!(
        welcome("m", "http://e"),
        "\nConnected to m\nEndpoint: http://e\nCommands: /clear, /status, /kill, /exit\n"
    );
    assert_eq!(
        chat_status("s", "m", "http://e", 10, "0.7"),
        "\n--- Status Info ---\ns\nModel: m\nEndpoint: http://e\nMax Tokens Limit: 10\n\
         Temperature: 0.7\n-------------------\n"
    );
}

// ---------------------------------------------------------------- waiting

#[test]
fn the_server_is_addressed() {
    let c = client();
    assert_eq!(c.endpoint(), "http://1.2.3.4:8330/v1");
    assert_eq!(c.models_url(), "http://1.2.3.4:8330/v1/models");
    assert_eq!(c.completions_url(), "http://1.2.3.4:8330/v1/chat/completions");
    assert_eq!(c.authorization(), "Bearer key");
    assert_eq!(c.api_key().expose_secret(), "key");
    assert_eq!(c.waiting_words(), "Waiting for Nemotron to load on 1.2.3.4:8330...");
}

#[test]
fn the_wait_ends_when_the_time_is_up() {
    let c = client();
    assert_eq!(c.ready_check(5, 5_000_000_000).unwrap(), c.models_url());
    assert!(matches!(c.ready_check(5, 5_000_000_001), Err(AppError::NemotronStartupTimeout)));
}

fn answer(code: u16, body: &str) -> ReadyEvent {
    ReadyEvent::Answer { code, body: body.to_string() }
}

#[test]
fn the_server_is_judged_by_its_answer() {
    let c = client();
    assert!(matches!(c.wait_for_ready_with_progress(answer(200, "")), ReadyStep::Ready));
    assert!(matches!(
        c.wait_for_ready_with_progress(answer(401, "")),
        ReadyStep::Fail(AppError::NemotronAuthenticationFailed)
    ));
    assert!(matches!(
        c.wait_for_ready_with_progress(answer(404, "")),
        ReadyStep::Fail(AppError::ChatRequestFailed(m))
            if m == "Configuration or authentication error (HTTP 404 Not Found)"
    ));
    assert!(matches!(
        c.wait_for_ready_with_progress(answer(500, "Bad CUDA setup")),
        ReadyStep::Fail(AppError::GuestRuntimeIncompatible { gpu_type, reason })
            if gpu_type.is_empty() && reason == "Bad CUDA setup"
    ));
    assert!(matches!(
        c.wait_for_ready_with_progress(answer(503, "cuda")),
        ReadyStep::Again(m) if m == "Nemotron endpoint reachable; model is still loading (HTTP 503)"
    ));
    assert!(matches!(
        c.wait_for_ready_with_progress(answer(500, "boom")),
        ReadyStep::Again(m)
            if m == "Nemotron status check returning HTTP 500 Internal Server Error (Body: boom)"
    ));
    assert!(matches!(
        c.wait_for_ready_with_progress(answer(302, "driver")),
        ReadyStep::Again(m) if m == "Nemotron status check returning HTTP 302 Found"
    ));
    assert!(matches!(
        c.wait_for_ready_with_progress(ReadyEvent::Unreachable),
        ReadyStep::Again(m) if m == "Waiting for Nemotron service to start (connection refused)"
    ));
}

#[test]
fn the_spinner_says_how_long_it_has_been() {
    let c = client();
    assert!(matches!(
        c.wait_for_ready(answer(503, ""), 59),
        ReadyStep::Again(m) if m
            == "Nemotron endpoint reachable; model is still loading\nLast response: HTTP 503\nElapsed: 59s"
    ));
    assert!(matches!(
        c.wait_for_ready(answer(500, "boom"), 125),
        ReadyStep::Again(m) if m
            == "Nemotron loading status check failed (HTTP 500 Internal Server Error)\nBody: boom\nElapsed: 2m 5s"
    ));
    assert!(matches!(
        c.wait_for_ready(answer(302, ""), 60),
        ReadyStep::Again(m)
            if m == "Nemotron loading status check failed (HTTP 302 Found)\nElapsed: 1m 0s"
    ));
    assert!(matches!(c.wait_for_ready(answer(204, ""), 60), ReadyStep::Ready));
    // the words decide nothing, and the body is compared in lower case
    assert!(matches!(
        judge_readiness(answer(500, "x"), "nvidia", &progress_words()),
        ReadyStep::Fail(AppError::GuestRuntimeIncompatible { .. })
    ));
    assert!(matches!(
        judge_readiness(answer(500, "NVIDIA"), "NVIDIA", &progress_words()),
        ReadyStep::Again(_)
    ));
}
