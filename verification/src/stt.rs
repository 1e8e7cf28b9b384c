//! Speech-to-text events: what the recognizer's output on each audio chunk
//! becomes for the daemon.

use vstd::prelude::*;

verus! {

/// Events emitted by the STT engine.
#[derive(Debug, Clone, PartialEq, Eq)]
pub enum SttEvent {
    /// Partial (non-final) transcription that may change.
    Partial(String),
    /// Final transcription for a completed utterance.
    Final(String),
}

/// An STT event with its text taken by value.
pub enum SttEventView {
    Partial(Seq<char>),
    Final(Seq<char>),
}

impl View for SttEvent {
    type V = SttEventView;

    open spec fn view(&self) -> SttEventView {
        match self {
            SttEvent::Partial(t) => SttEventView::Partial(t@),
            SttEvent::Final(t) => SttEventView::Final(t@),
        }
    }
}

/// The view of an optional event.
pub open spec fn event_view(e: Option<SttEvent>) -> Option<SttEventView> {
    match e {
        Some(ev) => Some(ev@),
        None => None,
    }
}

/// A complete recognition result: a single transcript, or alternatives
/// ordered from most to least likely.
#[derive(Debug, Clone, PartialEq, Eq)]
pub enum RecognitionResult {
    Single(String),
    Multiple(Vec<String>),
}

/// The transcript of a result: the single text, or the most likely
/// alternative; `None` when there is no alternative.
pub open spec fn result_text(result: RecognitionResult) -> Option<Seq<char>> {
    match result {
        RecognitionResult::Single(t) => Some(t@),
        RecognitionResult::Multiple(alts) => if alts.len() > 0 { Some(alts[0]@) } else { None },
    }
}

/// Extracts the transcript of a complete result.
pub fn extract_text(result: &RecognitionResult) -> (text: Option<String>)
    ensures
        match text {
            Some(t) => result_text(*result) == Some(t@),
            None => result_text(*result) is None,
        },
{
    match result {
        RecognitionResult::Single(t) => Some(t.clone()),
        RecognitionResult::Multiple(alts) => {
            if alts.len() > 0 {
                Some(alts[0].clone())
            } else {
                None
            }
        },
    }
}

/// What the recognizer reported after accepting one chunk of audio.
#[derive(Debug, Clone, PartialEq, Eq)]
pub enum ChunkOutcome {
    /// Decoding continues; the partial transcript so far.
    Running(String),
    /// Silence ended an utterance; its complete result.
    Finalized(RecognitionResult),
    /// Decoding failed for this chunk.
    Failed,
    /// The recognizer refused the chunk.
    Rejected,
}

/// The event for a complete result: its transcript as a final event, unless
/// it is missing or empty.
pub open spec fn final_event(result: RecognitionResult) -> Option<SttEventView> {
    match result_text(result) {
        Some(t) => if t.len() > 0 { Some(SttEventView::Final(t)) } else { None },
        None => None,
    }
}

/// The event, if any, sent for the outcome of one chunk.
pub open spec fn outcome_event(outcome: ChunkOutcome) -> Option<SttEventView> {
    match outcome {
        ChunkOutcome::Running(p) => if p@.len() > 0 { Some(SttEventView::Partial(p@)) } else { None },
        ChunkOutcome::Finalized(r) => final_event(r),
        _ => None,
    }
}

/// The event for a complete result (after an utterance, or when the audio
/// stream ends and the recognizer is flushed).
pub fn result_event(result: &RecognitionResult) -> (event: Option<SttEvent>)
    ensures
        event_view(event) == final_event(*result),
{
    match extract_text(result) {
        Some(text) => {
            if text.as_str().unicode_len() > 0 {
                Some(SttEvent::Final(text))
            } else {
                None
            }
        },
        None => None,
    }
}

/// The event sent to the daemon for the recognizer's outcome on one chunk: a
/// non-empty partial transcript while decoding runs, a non-empty final
/// transcript when an utterance ends, and nothing otherwise.
pub fn chunk_event(outcome: ChunkOutcome) -> (event: Option<SttEvent>)
    ensures
        event_view(event) == outcome_event(outcome),
{
    match outcome {
        ChunkOutcome::Running(partial) => {
            if partial.as_str().unicode_len() > 0 {
                Some(SttEvent::Partial(partial))
            } else {
                None
            }
        },
        ChunkOutcome::Finalized(result) => result_event(&result),
        ChunkOutcome::Failed => None,
        ChunkOutcome::Rejected => None,
    }
}

/// The engine never sends an event with an empty transcript.
pub proof fn lemma_events_carry_text(outcome: ChunkOutcome)
    ensures
        outcome_event(outcome) matches Some(SttEventView::Partial(t)) ==> t.len() > 0,
        outcome_event(outcome) matches Some(SttEventView::Final(t)) ==> t.len() > 0,
{
}

/// How the recognizer took one chunk of audio (`vosk::DecodingState`, or an
/// error from `accept_waveform`).
#[derive(Debug, Clone, Copy, PartialEq, Eq, Structural)]
pub enum DecodingStatus {
    /// Decoding continues.
    Running,
    /// Silence ended an utterance.
    Finalized,
    /// Decoding failed for this chunk.
    Failed,
    /// The recognizer refused the chunk.
    Rejected,
}

/// Which result to read from the recognizer after a chunk.
#[derive(Debug, Clone, Copy, PartialEq, Eq, Structural)]
pub enum ResultQuery {
    /// The partial transcript so far (`partial_result`).
    Partial,
    /// The complete result of the utterance (`result`).
    Utterance,
    /// Nothing: the chunk was not decoded.
    Nothing,
}

/// The result to read after a chunk: the partial transcript while decoding
/// runs, the utterance's result when it ends, nothing after a failure.
pub fn result_query(status: DecodingStatus) -> (query: ResultQuery)
    ensures
        query == (match status {
            DecodingStatus::Running => ResultQuery::Partial,
            DecodingStatus::Finalized => ResultQuery::Utterance,
            _ => ResultQuery::Nothing,
        }),
{
    match status {
        DecodingStatus::Running => ResultQuery::Partial,
        DecodingStatus::Finalized => ResultQuery::Utterance,
        DecodingStatus::Failed => ResultQuery::Nothing,
        DecodingStatus::Rejected => ResultQuery::Nothing,
    }
}

/// The event sent after the audio stream ends, from the recognizer's flushed
/// result: a final transcript, never empty, and never a partial one.
pub proof fn lemma_flush_gives_final_text(result: RecognitionResult)
    ensures
        match final_event(result) {
            Some(SttEventView::Final(t)) => t.len() > 0,
            Some(SttEventView::Partial(_)) => false,
            None => true,
        },
{
}

/// A finished utterance is always reported as final, with exactly its
/// transcript, and only when that transcript is non-empty; a running decode
/// is only ever reported as partial, with exactly its partial transcript.
pub proof fn lemma_finished_utterances_are_final(result: RecognitionResult, partial: String)
    ensures
        outcome_event(ChunkOutcome::Finalized(result)) is Some <==> (result_text(result) matches Some(t) && t.len() > 0),
        outcome_event(ChunkOutcome::Finalized(result)) matches Some(e) ==> e == SttEventView::Final(
            result_text(result)->0,
        ),
        outcome_event(ChunkOutcome::Running(partial)) is Some <==> partial@.len() > 0,
        outcome_event(ChunkOutcome::Running(partial)) matches Some(e) ==> e == SttEventView::Partial(partial@),
        outcome_event(ChunkOutcome::Failed) is None && outcome_event(ChunkOutcome::Rejected) is None,
{
}

} // verus!
