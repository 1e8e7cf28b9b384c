use vosk_dictation::hud::{hud_label, hud_text};
use vosk_dictation::stt::{chunk_event, extract_text, result_event, result_query, DecodingStatus, ResultQuery, ChunkOutcome, RecognitionResult, SttEvent};

#[test]
fn text_of_results() {
    assert_eq!(extract_text(&RecognitionResult::Single("hi".to_string())), Some("hi".to_string()));
    assert_eq!(
        extract_text(&RecognitionResult::Multiple(vec!["best".to_string(), "second".to_string()])),
        Some("best".to_string())
    );
    assert_eq!(extract_text(&RecognitionResult::Multiple(vec![])), None);
}

#[test]
fn events_for_chunk_outcomes() {
    assert_eq!(chunk_event(ChunkOutcome::Running("hel".to_string())), Some(SttEvent::Partial("hel".to_string())));
    assert_eq!(chunk_event(ChunkOutcome::Running(String::new())), None);
    assert_eq!(
        chunk_event(ChunkOutcome::Finalized(RecognitionResult::Single("hello".to_string()))),
        Some(SttEvent::Final("hello".to_string()))
    );
    assert_eq!(chunk_event(ChunkOutcome::Finalized(RecognitionResult::Single(String::new()))), None);
    assert_eq!(chunk_event(ChunkOutcome::Finalized(RecognitionResult::Multiple(vec![]))), None);
    assert_eq!(chunk_event(ChunkOutcome::Failed), None);
    assert_eq!(chunk_event(ChunkOutcome::Rejected), None);
}

#[test]
fn flushed_result_event() {
    assert_eq!(
        result_event(&RecognitionResult::Multiple(vec!["bye".to_string()])),
        Some(SttEvent::Final("bye".to_string()))
    );
    assert_eq!(result_event(&RecognitionResult::Single(String::new())), None);
}

#[test]
fn overlay_labels() {
    assert_eq!(hud_label(&SttEvent::Partial("hel".to_string())), "... hel");
    assert_eq!(hud_label(&SttEvent::Final("hello".to_string())), "hello");
}

#[test]
fn overlay_text_follows_latest_event() {
    assert_eq!(hud_text(&[]), "Listening...");
    assert_eq!(
        hud_text(&[SttEvent::Partial("he".to_string()), SttEvent::Partial("hel".to_string())]),
        "... hel"
    );
    assert_eq!(
        hud_text(&[SttEvent::Partial("hel".to_string()), SttEvent::Final("hello".to_string())]),
        "hello"
    );
}

#[test]
fn result_to_read_after_a_chunk() {
    assert_eq!(result_query(DecodingStatus::Running), ResultQuery::Partial);
    assert_eq!(result_query(DecodingStatus::Finalized), ResultQuery::Utterance);
    assert_eq!(result_query(DecodingStatus::Failed), ResultQuery::Nothing);
    assert_eq!(result_query(DecodingStatus::Rejected), ResultQuery::Nothing);
}
