//! Cutting the microphone's sample stream into fixed-size chunks for the
//! speech recognizer.

use vstd::prelude::*;

verus! {

/// Size of each audio chunk sent to the STT engine (in samples).
/// At 16kHz mono, 4000 samples = 250ms of audio.
pub const CHUNK_SIZE: usize = 4000;

/// Whether a sample rate can be asked of the microphone: it must be non-zero.
pub fn valid_sample_rate(sample_rate: u32) -> (valid: bool)
    ensures
        valid == (sample_rate != 0),
{
    sample_rate != 0
}

/// What pushing one sample does to the pending samples: the full chunk to
/// send, if the sample completes one, and the samples still pending.
pub open spec fn push_step(pending: Seq<i16>, sample: i16) -> (Option<Seq<i16>>, Seq<i16>) {
    let grown = pending.push(sample);
    if grown.len() >= CHUNK_SIZE {
        (Some(grown), Seq::empty())
    } else {
        (None, grown)
    }
}

/// The chunks sent and the samples left pending after a stream of samples.
pub open spec fn chunk_stream(samples: Seq<i16>) -> (Seq<Seq<i16>>, Seq<i16>)
    decreases samples.len(),
{
    if samples.len() == 0 {
        (Seq::empty(), Seq::empty())
    } else {
        let (chunks, pending) = chunk_stream(samples.drop_last());
        match push_step(pending, samples.last()) {
            (Some(c), rest) => (chunks.push(c), rest),
            (None, rest) => (chunks, rest),
        }
    }
}

/// The samples of a sequence of chunks, in order.
pub open spec fn concat_chunks(chunks: Seq<Seq<i16>>) -> Seq<i16>
    decreases chunks.len(),
{
    if chunks.len() == 0 {
        Seq::empty()
    } else {
        concat_chunks(chunks.drop_last()) + chunks.last()
    }
}

/// Chunking loses, adds and reorders no sample: the chunks sent, followed by
/// the samples still pending, are the samples captured; every chunk holds
/// exactly `CHUNK_SIZE` samples and fewer than that stay pending.
pub proof fn lemma_chunking_preserves_samples(samples: Seq<i16>)
    ensures
        concat_chunks(chunk_stream(samples).0) + chunk_stream(samples).1 == samples,
        forall|i: int| 0 <= i < chunk_stream(samples).0.len() ==> #[trigger] chunk_stream(samples).0[i].len() == CHUNK_SIZE,
        chunk_stream(samples).1.len() < CHUNK_SIZE,
    decreases samples.len(),
{
    if samples.len() == 0 {
        assert(concat_chunks(Seq::<Seq<i16>>::empty()) + Seq::<i16>::empty() =~= samples);
    } else {
        let prev = samples.drop_last();
        lemma_chunking_preserves_samples(prev);
        let (chunks, pending) = chunk_stream(prev);
        let grown = pending.push(samples.last());
        assert(prev.push(samples.last()) =~= samples);
        if grown.len() >= CHUNK_SIZE {
            let cs = chunks.push(grown);
            assert(cs.drop_last() =~= chunks);
            assert(concat_chunks(cs) + Seq::<i16>::empty() =~= concat_chunks(chunks) + pending + seq![samples.last()]);
            assert forall|i: int| 0 <= i < cs.len() implies #[trigger] cs[i].len() == CHUNK_SIZE by {
                if i < chunks.len() {
                    assert(cs[i] == chunks[i]);
                }
            }
        } else {
            assert(concat_chunks(chunks) + grown =~= concat_chunks(chunks) + pending + seq![samples.last()]);
        }
    }
}

/// Collects microphone samples into chunks of `CHUNK_SIZE`.
pub struct AudioChunker {
    chunk: Vec<i16>,
}

impl AudioChunker {
    /// The samples collected since the last full chunk.
    pub closed spec fn pending(&self) -> Seq<i16> {
        self.chunk@
    }

    #[verifier::type_invariant]
    closed spec fn fewer_than_a_chunk(&self) -> bool {
        self.chunk@.len() < CHUNK_SIZE
    }

    /// A chunker with no pending sample.
    pub fn new() -> (c: AudioChunker)
        ensures
            c.pending() == Seq::<i16>::empty(),
    {
        AudioChunker { chunk: Vec::with_capacity(CHUNK_SIZE) }
    }

    /// Adds one sample; returns the chunk to send when this sample fills it.
    pub fn push(&mut self, sample: i16) -> (full: Option<Vec<i16>>)
        ensures
            push_step(old(self).pending(), sample).0 == (match full {
                Some(c) => Some(c@),
                None => None,
            }),
            final(self).pending() == push_step(old(self).pending(), sample).1,
            final(self).pending().len() < CHUNK_SIZE,
    {
        proof {
            use_type_invariant(&*self);
        }
        let mut chunk: Vec<i16> = Vec::new();
        std::mem::swap(&mut chunk, &mut self.chunk);
        chunk.push(sample);
        if chunk.len() >= CHUNK_SIZE {
            self.chunk = Vec::with_capacity(CHUNK_SIZE);
            Some(chunk)
        } else {
            self.chunk = chunk;
            None
        }
    }
}

} // verus!
