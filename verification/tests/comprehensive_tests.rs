use rust_tui_coder::app::App;

#[test]
fn test_app_state_transitions() {
    let mut app = App::new();

    // Initial state
    assert_eq!(app.conversation.len(), 0);
    assert_eq!(app.tokens_used, 0);
    assert!(!app.is_streaming);

    // Add conversation
    app.conversation.push("User: Start task".to_string());

    // Start streaming
    app.start_streaming();
    assert!(app.is_streaming);

    // Update streaming content
    app.update_streaming_message("Processing");
    app.update_streaming_message("...");
    assert_eq!(app.current_streaming_message, "Processing...");

    // Finish streaming
    app.finish_streaming("Processing...".to_string());
    assert!(!app.is_streaming);
    assert_eq!(app.conversation.len(), 2);

    // Update stats
    app.increment_tokens(500);
    app.increment_requests();
    app.increment_tools_executed();

    assert_eq!(app.tokens_used, 500);
    assert_eq!(app.total_requests, 1);
    assert_eq!(app.total_tools_executed, 1);

    // Get summary
    let summary = app.get_usage_summary();
    assert!(summary.contains("500"));
    assert!(summary.contains("1"));
}

#[test]
fn test_usage_tracking_accuracy() {
    let mut app = App::new();

    // Track various operations
    for _ in 0..10 {
        app.increment_requests();
    }

    for _ in 0..25 {
        app.increment_tools_executed();
    }

    app.increment_tokens(1000);
    app.increment_tokens(500);
    app.increment_tokens(1500);

    assert_eq!(app.total_requests, 10);
    assert_eq!(app.total_tools_executed, 25);
    assert_eq!(app.tokens_used, 3000);

    // Check average
    let summary = app.get_usage_summary();
    assert!(summary.contains("Average Tokens/Request: 300"));
}
