use rust_tui_coder::json::JsonValue;
use rust_tui_coder::llm::{
    completions_url, estimate_token_count, exchange_tokens, http_failure, input_tokens, models_failure, models_url,
    needs_model_lookup, read_completion, read_completion_text, read_event_text, read_first_model,
    read_models, stream_chunk_text, uses_bearer_auth, LlmError, Message, StreamDecoder,
};

fn message(role: &str, content: &str) -> Message {
    Message { role: role.to_string(), content: content.to_string() }
}

#[test]
fn token_estimate_rounds_up_a_quarter() {
    assert_eq!(estimate_token_count(""), 0);
    assert_eq!(estimate_token_count("a"), 1);
    assert_eq!(estimate_token_count("abcd"), 1);
    assert_eq!(estimate_token_count("abcde"), 2);
    assert_eq!(estimate_token_count("Hello"), 2);
    assert_eq!(estimate_token_count("   "), 1);
    assert_eq!(estimate_token_count("\u{4e16}\u{754c}\u{1f30d}\u{1f980}\u{e9}"), 2);
    assert_eq!(estimate_token_count(&"word ".repeat(1000)), 1250);
}

#[test]
fn autodetect_names() {
    for name in ["AUTODETECT", "autodetect", "AutoDetect", "", "   ", "\t\n"] {
        assert!(needs_model_lookup(name), "{:?}", name);
    }
    for name in ["gpt-4", "AUTODETECT ", " autodetect", "auto", "AUTODETECT2"] {
        assert!(!needs_model_lookup(name), "{:?}", name);
    }
}

#[test]
fn addresses_drop_trailing_slashes() {
    assert_eq!(completions_url("http://localhost:11434/v1"), "http://localhost:11434/v1/chat/completions");
    assert_eq!(completions_url("http://localhost:11434/v1///"), "http://localhost:11434/v1/chat/completions");
    assert_eq!(models_url("https://api.example.com/"), "https://api.example.com/models");
    assert_eq!(models_url(""), "/models");
    assert_eq!(models_url("/"), "/models");
    assert!(uses_bearer_auth("key"));
    assert!(!uses_bearer_auth(""));
}

#[test]
fn tokens_of_an_exchange() {
    let transcript = vec![message("system", "You are helpful."), message("user", "Hi")];
    // "system" 6 -> 2, 16 chars -> 4, "user" 4 -> 1, "Hi" -> 1
    assert_eq!(input_tokens(&transcript), 8);
    assert_eq!(input_tokens(&vec![]), 0);
    assert_eq!(exchange_tokens(8, "Hello there"), 11);
    assert_eq!(exchange_tokens(u64::MAX, "x"), u64::MAX);
    assert_eq!(exchange_tokens(u64::MAX - 1, "abcdefgh"), u64::MAX);
}

#[test]
fn completion_is_read_from_the_first_choice() {
    let body = "{\"id\":\"x\",\"choices\":[{\"index\":0,\"message\":{\"role\":\"assistant\",\"content\":\"Hello!\"}},{\"message\":{\"role\":\"assistant\",\"content\":\"second\"}}]}";
    match read_completion(body, 10) {
        Ok((text, tokens)) => {
            assert_eq!(text, "Hello!");
            assert_eq!(tokens, 12);
        }
        Err(e) => panic!("unexpected: {:?}", e),
    }
    match read_completion("{\"choices\":[]}", 3) {
        Ok((text, tokens)) => {
            assert_eq!(text, "No response content available.");
            assert_eq!(tokens, 3 + 8);
        }
        Err(e) => panic!("unexpected: {:?}", e),
    }
}

#[test]
fn completion_of_another_shape_is_a_parse_error() {
    let bodies = [
        "{}",
        "[]",
        "{\"choices\":{}}",
        "{\"choices\":[{}]}",
        "{\"choices\":[{\"message\":{\"content\":\"no role\"}}]}",
        "{\"choices\":[{\"message\":{\"role\":\"assistant\"}}]}",
        "{\"choices\":[{\"message\":{\"role\":\"assistant\",\"content\":null}}]}",
        "{\"choices\":[{\"message\":{\"role\":\"a\",\"content\":\"ok\"}},{\"message\":7}]}",
    ];
    for body in bodies.iter() {
        match read_completion(body, 0) {
            Err(LlmError::ParseError(text)) => {
                assert_eq!(text, "Failed to parse API response: not a chat completion", "{}", body)
            }
            other => panic!("unexpected for {}: {:?}", body, other),
        }
    }
    match read_completion("<html>502</html>", 0) {
        Err(LlmError::ParseError(text)) => {
            assert!(text.starts_with("Failed to parse API response: "));
            assert!(text.len() > "Failed to parse API response: ".len());
        }
        other => panic!("unexpected: {:?}", other),
    }
    let doc = JsonValue::parse("{\"choices\":[{\"message\":{\"role\":\"r\",\"content\":\"c\"}}]}").unwrap();
    assert_eq!(read_completion_text(&doc), Some("c".to_string()));
}

#[test]
fn first_model_is_picked() {
    assert_eq!(
        format!("{:?}", read_first_model("{\"object\":\"list\",\"data\":[{\"id\":\"llama3\"},{\"id\":\"phi\"}]}")),
        "Ok(\"llama3\")"
    );
    assert_eq!(
        format!("{:?}", read_first_model("{\"data\":[]}")),
        "Err(ApiError(\"No models returned by /models\"))"
    );
    assert_eq!(
        format!("{:?}", read_first_model("{\"data\":[{\"id\":\"a\"},{\"name\":\"b\"}]}")),
        "Err(ParseError(\"Failed to parse /models response: not a list of models\"))"
    );
    assert_eq!(
        format!("{:?}", read_first_model("{\"models\":[]}")),
        "Err(ParseError(\"Failed to parse /models response: not a list of models\"))"
    );
    match read_first_model("not json") {
        Err(LlmError::ParseError(text)) => assert!(text.starts_with("Failed to parse /models response: ")),
        other => panic!("unexpected: {:?}", other),
    }
    let doc = JsonValue::parse("{\"data\":[{\"id\":\"a\"},{\"id\":\"b\"}]}").unwrap();
    assert_eq!(read_models(&doc), Some(vec!["a".to_string(), "b".to_string()]));
}

#[test]
fn refusals_carry_status_and_body() {
    assert_eq!(
        format!("{:?}", http_failure("500 Internal Server Error", "boom")),
        "ApiError(\"HTTP 500 Internal Server Error: boom\")"
    );
    assert_eq!(
        format!("{:?}", models_failure("401 Unauthorized", "no key")),
        "ApiError(\"HTTP 401 Unauthorized while fetching models: no key\")"
    );
    assert_eq!(http_failure("404 Not Found", "").message(), "API error: HTTP 404 Not Found: ");
    assert_eq!(LlmError::RequestFailed("timeout".to_string()).message(), "Request failed: timeout");
    assert_eq!(LlmError::ParseError("eof".to_string()).message(), "Parse error: eof");
    assert_eq!(format!("{:?}", LlmError::ApiError("x".to_string()).duplicate()), "ApiError(\"x\")");
}

#[test]
fn stream_pieces_give_their_deltas() {
    let one = "data: {\"choices\":[{\"delta\":{\"content\":\"Hel\"}}]}\n\n";
    assert_eq!(stream_chunk_text(one), "Hel");
    let two = "data: {\"choices\":[{\"delta\":{\"content\":\"Hel\"}}]}\n\ndata: {\"choices\":[{\"delta\":{\"content\":\"lo\"}}]}\n\n";
    assert_eq!(stream_chunk_text(two), "Hello");
    assert_eq!(stream_chunk_text("data: [DONE]\n\n"), "");
    assert_eq!(stream_chunk_text("data: {\"choices\":[{\"delta\":{\"role\":\"assistant\"}}]}\r\n\r\n"), "");
    assert_eq!(stream_chunk_text("data: {\"choices\":[{\"delta\":{\"content\":null}}]}\n"), "");
    assert_eq!(stream_chunk_text("data: {\"choices\":[{\"delta\":{\"content\":5}}]}\n"), "");
    assert_eq!(stream_chunk_text("data: {\"choices\":[]}\n"), "");
    assert_eq!(stream_chunk_text("data: {\"choices\":[{\"delta\":{\"content\":\"a\"}},{\"delta\":3}]}\n"), "");
    assert_eq!(stream_chunk_text("data: {broken\n"), "");
    assert_eq!(stream_chunk_text(": keep-alive\n\n"), "");
    assert_eq!(stream_chunk_text("event: x\ndata:{\"choices\":[{\"delta\":{\"content\":\"a\"}}]}\n"), "");
    assert_eq!(stream_chunk_text(" data: {\"choices\":[{\"delta\":{\"content\":\"a\"}}]}\n"), "");
    assert_eq!(stream_chunk_text(""), "");
    let doc = JsonValue::parse("{\"choices\":[{\"delta\":{\"content\":\"\\n x\"}}]}").unwrap();
    assert_eq!(read_event_text(&doc), "\n x");
}

#[test]
fn streamed_deltas_reproduce_the_completion() {
    let whole = "The quick brown fox.";
    let body = format!("{{\"choices\":[{{\"message\":{{\"role\":\"assistant\",\"content\":\"{}\"}}}}]}}", whole);
    let complete = read_completion(&body, 0).unwrap().0;
    let mut streamed = String::new();
    for piece in ["The ", "quick", " brown ", "fox", "."] {
        let event = format!("data: {{\"choices\":[{{\"delta\":{{\"content\":\"{}\"}}}}]}}\n\n", piece);
        streamed.push_str(&stream_chunk_text(&event));
    }
    streamed.push_str(&stream_chunk_text("data: [DONE]\n\n"));
    assert_eq!(streamed, complete);
    assert_eq!(streamed, whole);
}

fn event(text: &str) -> String {
    format!("data: {{\"choices\":[{{\"delta\":{{\"content\":\"{}\"}}}}]}}\n\n", text)
}

fn decode(pieces: &[&[u8]]) -> String {
    let mut decoder = StreamDecoder::new();
    let mut text = String::new();
    for piece in pieces {
        text.push_str(&decoder.feed(piece));
    }
    text.push_str(&decoder.finish());
    assert!(decoder.pending().is_empty());
    text
}

#[test]
fn an_event_that_two_pieces_share_is_read() {
    let mut decoder = StreamDecoder::new();
    assert_eq!(decoder.feed(b"data: {\"choices\":[{\"delta\":{\"con"), "");
    assert_eq!(decoder.pending().as_slice(), b"data: {\"choices\":[{\"delta\":{\"con");
    assert_eq!(decoder.feed(b"tent\":\"Hel\"}}]}\n\ndata: {\"cho"), "Hel");
    assert_eq!(decoder.pending().as_slice(), b"data: {\"cho");
    assert_eq!(decoder.feed(b"ices\":[{\"delta\":{\"content\":\"lo\"}}]}"), "");
    assert_eq!(decoder.feed(b"\r\n"), "lo");
    assert!(decoder.pending().is_empty());
    assert_eq!(decoder.feed(b"data: [DONE]"), "");
    assert_eq!(decoder.finish(), "");
    assert!(decoder.pending().is_empty());
}

#[test]
fn last_event_without_line_feed_is_read_at_the_end() {
    let mut decoder = StreamDecoder::new();
    assert_eq!(decoder.feed(b"data: {\"choices\":[{\"delta\":{\"content\":\"tail\"}}]}"), "");
    assert_eq!(decoder.finish(), "tail");
    assert_eq!(decoder.finish(), "");
}

#[test]
fn a_character_that_two_pieces_share_is_read() {
    let stream = event("gr\u{fc}\u{df}e \u{4e16}\u{754c} \u{1f30d}");
    let bytes = stream.as_bytes();
    for cut in 0..=bytes.len() {
        assert_eq!(
            decode(&[&bytes[..cut], &bytes[cut..]]),
            "gr\u{fc}\u{df}e \u{4e16}\u{754c} \u{1f30d}",
            "cut at byte {}",
            cut
        );
    }
}

#[test]
fn any_cut_of_a_stream_gives_the_same_text() {
    let stream = format!("{}{}{}{}data: [DONE]\n\n", event("The "), event("quick \\n"), event("br\u{f6}wn"), event(" fox."));
    let whole = stream_chunk_text(&stream);
    assert_eq!(whole, "The quick \nbr\u{f6}wn fox.");
    let bytes = stream.as_bytes();
    for size in 1..40 {
        let pieces: Vec<&[u8]> = bytes.chunks(size).collect();
        assert_eq!(decode(&pieces), whole, "pieces of {} bytes", size);
    }
    assert_eq!(decode(&[bytes]), whole);
    assert_eq!(decode(&[]), "");
    let body = "{\"choices\":[{\"message\":{\"role\":\"assistant\",\"content\":\"The quick \\nbr\u{f6}wn fox.\"}}]}";
    assert_eq!(read_completion(body, 0).unwrap().0, whole);
}

#[test]
fn bytes_that_are_no_text_are_replaced() {
    let mut decoder = StreamDecoder::new();
    let mut piece = b"data: {\"choices\":[{\"delta\":{\"content\":\"a".to_vec();
    piece.push(0xff);
    piece.extend_from_slice(b"b\"}}]}\n");
    assert_eq!(decoder.feed(&piece), "a\u{fffd}b");
}
