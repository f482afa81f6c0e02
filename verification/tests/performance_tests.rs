use rust_tui_coder::app::App;
use std::time::Instant;

#[test]
fn test_large_conversation_handling() {
    let mut app = App::new();

    let start = Instant::now();

    // Add 1000 messages
    for i in 0..1000 {
        app.conversation.push(format!("User: Message {}", i));
        app.conversation
            .push(format!("Agent: Response to message {}", i));
    }

    let elapsed = start.elapsed();

    assert_eq!(app.conversation.len(), 2000);
    assert!(elapsed.as_secs() < 1, "Should handle 2000 messages quickly");
}

#[test]
fn test_rapid_scrolling() {
    let mut app = App::new();

    // Add messages
    for i in 0..100 {
        app.conversation.push(format!("Message {}", i));
    }

    let start = Instant::now();

    // Rapid scrolling operations
    for _ in 0..1000 {
        app.scroll_conversation_down();
        app.scroll_conversation_up();
    }

    let elapsed = start.elapsed();
    assert!(elapsed.as_millis() < 100, "Scrolling should be fast");
}

#[test]
fn test_many_tool_logs() {
    let mut app = App::new();

    let start = Instant::now();

    // Add 10000 tool logs
    for i in 0..10000 {
        app.add_tool_log(format!("Tool execution {}: completed", i));
    }

    let elapsed = start.elapsed();

    assert_eq!(app.tool_logs.len(), 10000);
    assert!(elapsed.as_millis() < 500, "Adding tool logs should be fast");
}

#[test]
fn test_streaming_performance() {
    let mut app = App::new();

    let start = Instant::now();

    app.start_streaming();

    // Simulate streaming 10000 small chunks
    for i in 0..10000 {
        app.update_streaming_message(&format!("{} ", i));
    }

    app.finish_streaming(app.current_streaming_message.clone());

    let elapsed = start.elapsed();

    assert!(
        elapsed.as_secs() < 1,
        "Streaming should handle many chunks efficiently"
    );
}

#[test]
fn test_usage_tracking_performance() {
    let mut app = App::new();

    let start = Instant::now();

    // Perform many tracking operations
    for _ in 0..100000 {
        app.increment_tokens(10);
        app.increment_requests();
        app.increment_tools_executed();
    }

    let elapsed = start.elapsed();

    assert_eq!(app.tokens_used, 1000000);
    assert_eq!(app.total_requests, 100000);
    assert_eq!(app.total_tools_executed, 100000);
    assert!(elapsed.as_millis() < 100, "Tracking should be very fast");
}
