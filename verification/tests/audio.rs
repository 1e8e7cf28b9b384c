use vosk_dictation::audio::{valid_sample_rate, AudioChunker, CHUNK_SIZE};

#[test]
fn chunk_is_sent_when_full() {
    let mut c = AudioChunker::new();
    for i in 0..CHUNK_SIZE - 1 {
        assert_eq!(c.push(i as i16), None);
    }
    let chunk = c.push(-1).expect("a full chunk");
    assert_eq!(chunk.len(), CHUNK_SIZE);
    assert_eq!(chunk[0], 0);
    assert_eq!(chunk[CHUNK_SIZE - 1], -1);
    assert_eq!(c.push(5), None);
}

#[test]
fn chunks_preserve_the_stream() {
    let samples: Vec<i16> = (0..2 * CHUNK_SIZE + 17).map(|i| (i % 30000) as i16 - 15000).collect();
    let mut c = AudioChunker::new();
    let mut sent: Vec<i16> = Vec::new();
    let mut chunks = 0;
    for s in &samples {
        if let Some(chunk) = c.push(*s) {
            assert_eq!(chunk.len(), CHUNK_SIZE);
            sent.extend(chunk);
            chunks += 1;
        }
    }
    assert_eq!(chunks, 2);
    assert_eq!(sent[..], samples[..2 * CHUNK_SIZE]);
}

#[test]
fn sample_rate_must_be_non_zero() {
    assert!(valid_sample_rate(16_000));
    assert!(!valid_sample_rate(0));
}
