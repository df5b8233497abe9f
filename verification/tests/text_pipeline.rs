use voice_bridge::accumulator::UtteranceAccumulator;
use voice_bridge::boundary::{default_splitters, ends_with_splitter, is_boundary};
use voice_bridge::completion::{build_request, CompletionStreamer};
use voice_bridge::dispatch::SpeechDispatcher;
use voice_bridge::events::handle_chat_message;

#[test]
fn boundary_holds_for_each_splitter() {
    let splitters = default_splitters();
    for s in [
        "end.", "pause,", "why?", "wow!", "also;", "so:", "dash\u{2014}", "hy-", "open(",
        "close)", "br[", "br]", "curly}", "word ",
    ] {
        assert!(ends_with_splitter(&splitters, s));
        assert!(is_boundary(s));
    }
}

#[test]
fn boundary_fails_for_empty_and_single_space() {
    let splitters = default_splitters();
    assert!(!ends_with_splitter(&splitters, ""));
    assert!(!ends_with_splitter(&splitters, " "));
    assert!(!is_boundary(""));
    assert!(!is_boundary(" "));
}

#[test]
fn boundary_fails_without_trailing_splitter() {
    let splitters = default_splitters();
    assert!(!ends_with_splitter(&splitters, "Hello"));
    assert!(!ends_with_splitter(&splitters, "a.b"));
    assert!(!is_boundary("Hello"));
}

#[test]
fn two_spaces_is_a_boundary() {
    assert!(is_boundary("  "));
}

#[test]
fn fragments_within_dwell_accumulate_then_flush() {
    let mut acc = UtteranceAccumulator::new(500, 0);
    assert_eq!(acc.push("Hello", 10), None);
    assert_eq!(acc.push(" world.", 20), None);
    assert_eq!(acc.buf, "Hello world.");
    assert_eq!(acc.tick(400), None);
    assert_eq!(acc.tick(520), Some("Hello world.".to_string()));
    assert_eq!(acc.buf, "");
}

#[test]
fn separating_space_inserted_between_bare_fragments() {
    let mut acc = UtteranceAccumulator::new(500, 0);
    assert_eq!(acc.push("One.", 10), None);
    assert_eq!(acc.push("Two!", 20), None);
    assert_eq!(acc.buf, "One. Two!");
    assert_eq!(acc.tick(600), Some("One. Two!".to_string()));
}

#[test]
fn boundary_fragment_after_dwell_flushes_immediately() {
    let mut acc = UtteranceAccumulator::new(500, 0);
    assert_eq!(acc.push("Ready.", 700), Some("Ready.".to_string()));
    assert_eq!(acc.buf, "");
    assert_eq!(acc.last_flush_ms, 700);
}

#[test]
fn no_boundary_means_no_flush_however_long() {
    let mut acc = UtteranceAccumulator::new(500, 0);
    assert_eq!(acc.push("Hello", 9_999), None);
    assert_eq!(acc.tick(1_000_000), None);
    assert_eq!(acc.buf, "Hello");
}

#[test]
fn chat_message_bypasses_transcription_with_prefix() {
    let mut acc = UtteranceAccumulator::new(500, 0);
    let flushed = handle_chat_message("{\"message\":\"hi there\",\"timestamp\":1}", &mut acc, 10);
    assert_eq!(flushed, None);
    assert_eq!(acc.buf, "[chat]hi there ");
}

#[test]
fn chat_message_flushes_once_dwell_elapsed() {
    let mut acc = UtteranceAccumulator::new(500, 0);
    let flushed = handle_chat_message("{\"message\":\"hi there\",\"timestamp\":1}", &mut acc, 600);
    assert_eq!(flushed, Some("[chat]hi there ".to_string()));
    assert_eq!(acc.buf, "");
}

#[test]
fn malformed_chat_message_is_dropped() {
    let mut acc = UtteranceAccumulator::new(500, 0);
    assert_eq!(handle_chat_message("not json at all", &mut acc, 600), None);
    assert_eq!(handle_chat_message("{\"timestamp\":1}", &mut acc, 600), None);
    assert_eq!(handle_chat_message("{\"message\":7,\"timestamp\":1}", &mut acc, 600), None);
    assert_eq!(acc.buf, "");
}

#[test]
fn completion_stream_resegments_on_boundaries() {
    let mut st = CompletionStreamer::new();
    assert_eq!(st.push_token("Sure"), None);
    assert_eq!(st.push_token(","), Some("Sure,".to_string()));
    assert_eq!(st.push_token(" I"), None);
    assert_eq!(st.push_token(" can."), Some(" I can.".to_string()));
    assert_eq!(st.buf, "");
}

#[test]
fn process_response_enqueues_chunks_in_order() {
    let mut st = CompletionStreamer::new();
    let mut disp = SpeechDispatcher::new();
    let tokens = vec![
        "Sure".to_string(),
        ",".to_string(),
        " I".to_string(),
        " can.".to_string(),
    ];
    st.process_response(&tokens, &mut disp);
    assert_eq!(st.buf, "");
    assert_eq!(disp.next_chunk(), Some("Sure,".to_string()));
    assert_eq!(disp.next_chunk(), Some(" I can.".to_string()));
    assert_eq!(disp.next_chunk(), None);
}

#[test]
fn process_response_keeps_unfinished_tail_buffered() {
    let mut st = CompletionStreamer::new();
    let mut disp = SpeechDispatcher::new();
    let tokens = vec!["Well".to_string(), "...".to_string(), " maybe".to_string()];
    st.process_response(&tokens, &mut disp);
    assert_eq!(disp.next_chunk(), Some("Well...".to_string()));
    assert_eq!(disp.next_chunk(), None);
    assert_eq!(st.buf, " maybe");
}

#[test]
fn responses_never_interleave_in_dispatch_order() {
    let mut st = CompletionStreamer::new();
    let mut disp = SpeechDispatcher::new();
    let first = vec!["A".to_string(), ".".to_string(), "B.".to_string()];
    let second = vec!["C.".to_string()];
    st.process_response(&first, &mut disp);
    st.process_response(&second, &mut disp);
    assert_eq!(disp.next_chunk(), Some("A.".to_string()));
    assert_eq!(disp.next_chunk(), Some("B.".to_string()));
    assert_eq!(disp.next_chunk(), Some("C.".to_string()));
    assert_eq!(disp.next_chunk(), None);
}

#[test]
fn dispatcher_is_fifo() {
    let mut disp = SpeechDispatcher::new();
    assert_eq!(disp.next_chunk(), None);
    disp.enqueue("one.".to_string());
    disp.enqueue("two.".to_string());
    disp.enqueue("three.".to_string());
    assert_eq!(disp.next_chunk(), Some("one.".to_string()));
    assert_eq!(disp.next_chunk(), Some("two.".to_string()));
    assert_eq!(disp.next_chunk(), Some("three.".to_string()));
    assert_eq!(disp.next_chunk(), None);
}

#[test]
fn request_carries_fixed_model_and_bound() {
    let req = build_request("Hello world.");
    assert_eq!(req.model, "gpt-4-1106-preview");
    assert_eq!(req.max_tokens, 512);
    assert_eq!(req.user_message, "Hello world.");
}
