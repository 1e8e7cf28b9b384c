//! The on-screen overlay's label for the latest transcription.

use vstd::prelude::*;
use crate::stt::{SttEvent, SttEventView};

verus! {

/// The text shown by the on-screen overlay for an event: a partial
/// transcript after "... ", a final one as it is.
pub open spec fn overlay_text(event: SttEventView) -> Seq<char> {
    match event {
        SttEventView::Partial(t) => "... "@ + t,
        SttEventView::Final(t) => t,
    }
}

/// The label of the on-screen overlay after an event.
pub fn hud_label(event: &SttEvent) -> (label: String)
    ensures
        label@ == overlay_text(event@),
{
    match event {
        SttEvent::Partial(text) => String::from_str("... ").concat(text.as_str()),
        SttEvent::Final(text) => text.clone(),
    }
}

/// The overlay's text after a sequence of events: "Listening..." before any
/// event, then the text for the latest one.
pub open spec fn overlay_after(events: Seq<SttEventView>) -> Seq<char> {
    if events.len() == 0 {
        "Listening..."@
    } else {
        overlay_text(events.last())
    }
}

/// The label of the overlay after the events received so far, oldest first:
/// "Listening..." when there is none, else the label for the latest event.
pub fn hud_text(events: &[SttEvent]) -> (label: String)
    ensures
        label@ == overlay_after(events@.map_values(|e: SttEvent| e@)),
        events@.len() == 0 ==> label@ == "Listening..."@,
        events@.len() > 0 ==> label@ == overlay_text(events@.last()@),
{
    let n = events.len();
    if n == 0 {
        String::from_str("Listening...")
    } else {
        hud_label(&events[n - 1])
    }
}

/// The overlay may take events in batches: after a non-empty batch it shows
/// what it would show had it seen every event so far.
pub proof fn lemma_overlay_batches(seen: Seq<SttEventView>, batch: Seq<SttEventView>)
    requires
        batch.len() > 0,
    ensures
        overlay_after(seen + batch) == overlay_after(batch),
{
    assert((seen + batch).last() == batch.last());
}

/// The overlay shows every transcript in full: a partial one after the four
/// characters "... ", a final one as it is.
pub proof fn lemma_overlay_shows_whole_transcript(t: Seq<char>)
    ensures
        overlay_text(SttEventView::Partial(t)).len() == t.len() + 4,
        overlay_text(SttEventView::Partial(t)).take(4) == seq!['.', '.', '.', ' '],
        overlay_text(SttEventView::Partial(t)).skip(4) == t,
        overlay_text(SttEventView::Final(t)) == t,
{
    reveal_strlit("... ");
    let o = overlay_text(SttEventView::Partial(t));
    assert(o.take(4) =~= seq!['.', '.', '.', ' ']);
    assert(o.skip(4) =~= t);
}

} // verus!
