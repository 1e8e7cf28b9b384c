//! Daemon configuration, and the default location of the speech model.
//!
//! Paths are kept as their bytes (as the operating system holds them on Unix).

use vstd::prelude::*;

verus! {

/// Sample rate for audio capture and the recognizer, in Hz.
pub const DEFAULT_SAMPLE_RATE: u32 = 16_000;

/// Number of audio channels (the recognizer requires mono).
pub const DEFAULT_CHANNELS: u16 = 1;

/// Global daemon configuration.
pub struct Config {
    /// Path to the Vosk language model directory, as bytes.
    pub model_path: Vec<u8>,
    /// Sample rate for audio capture and Vosk recognizer (must match).
    pub sample_rate: u32,
    /// Number of audio channels (Vosk requires mono = 1).
    pub channels: u16,
    /// Whether the daemon is globally enabled.
    pub enabled: bool,
}

impl Config {
    /// A configuration for the model at `model_path`: 16 kHz mono, enabled.
    pub fn new(model_path: Vec<u8>) -> (c: Config)
        ensures
            c.model_path@ == model_path@,
            c.sample_rate == DEFAULT_SAMPLE_RATE,
            c.channels == DEFAULT_CHANNELS,
            c.enabled,
    {
        Config { model_path, sample_rate: DEFAULT_SAMPLE_RATE, channels: DEFAULT_CHANNELS, enabled: true }
    }

    /// The default configuration, given the values of `XDG_DATA_HOME` and
    /// `HOME` (`None` when unset): the model under the default data
    /// directory, 16 kHz mono, enabled.
    pub fn from_environment(xdg_data_home: Option<Vec<u8>>, home: Option<Vec<u8>>) -> (c: Config)
        ensures
            c.model_path@ == default_model_path(option_bytes(xdg_data_home), option_bytes(home)),
            c.sample_rate == DEFAULT_SAMPLE_RATE,
            c.channels == DEFAULT_CHANNELS,
            c.enabled,
    {
        Config::new(dirs_default(xdg_data_home, home))
    }
}

/// The bytes of an optional path.
pub open spec fn option_bytes(p: Option<Vec<u8>>) -> Option<Seq<u8>> {
    match p {
        Some(v) => Some(v@),
        None => None,
    }
}

/// `base` extended with the relative path `part`, as `PathBuf::push` extends
/// it on Unix: a `/` goes between them unless `base` is empty or already ends
/// with one.
pub open spec fn joined(base: Seq<u8>, part: Seq<u8>) -> Seq<u8> {
    if base.len() == 0 || base.last() == 47u8 {
        base + part
    } else {
        base.push(47u8) + part
    }
}

/// The path components of the default model location.
pub open spec fn vosk_component() -> Seq<u8> {
    seq![118u8, 111u8, 115u8, 107u8]
}

pub open spec fn model_component() -> Seq<u8> {
    seq![109u8, 111u8, 100u8, 101u8, 108u8]
}

pub open spec fn local_component() -> Seq<u8> {
    seq![46u8, 108u8, 111u8, 99u8, 97u8, 108u8]
}

pub open spec fn share_component() -> Seq<u8> {
    seq![115u8, 104u8, 97u8, 114u8, 101u8]
}

/// Default model path: `$XDG_DATA_HOME/vosk/model`, else
/// `$HOME/.local/share/vosk/model`, else `model`.
pub open spec fn default_model_path(xdg_data_home: Option<Seq<u8>>, home: Option<Seq<u8>>) -> Seq<u8> {
    match xdg_data_home {
        Some(d) => joined(joined(d, vosk_component()), model_component()),
        None => match home {
            Some(h) => joined(
                joined(joined(joined(h, local_component()), share_component()), vosk_component()),
                model_component(),
            ),
            None => model_component(),
        },
    }
}

/// Extends `path` with the relative component `part`.
fn push_component(path: &mut Vec<u8>, part: &[u8])
    ensures
        final(path)@ == joined(old(path)@, part@),
{
    let n = path.len();
    if n > 0 && path[n - 1] != 47u8 {
        path.push(47u8);
    }
    let mut i: usize = 0;
    let ghost start = path@;
    while i < part.len()
        invariant
            i <= part@.len(),
            path@ == start + part@.take(i as int),
        decreases part@.len() - i,
    {
        path.push(part[i]);
        assert(path@ =~= start + part@.take(i + 1));
        i += 1;
    }
    assert(part@.take(part@.len() as int) =~= part@);
    proof {
        if old(path)@.len() == 0 || old(path)@.last() == 47u8 {
            assert(start == old(path)@);
        } else {
            assert(start == old(path)@.push(47u8));
        }
    }
}

/// The default location of the speech model, from the values of
/// `XDG_DATA_HOME` and `HOME` (`None` when unset).
pub fn dirs_default(xdg_data_home: Option<Vec<u8>>, home: Option<Vec<u8>>) -> (path: Vec<u8>)
    ensures
        path@ == default_model_path(option_bytes(xdg_data_home), option_bytes(home)),
{
    let vosk: [u8; 4] = [118u8, 111u8, 115u8, 107u8];
    let model: [u8; 5] = [109u8, 111u8, 100u8, 101u8, 108u8];
    let local: [u8; 6] = [46u8, 108u8, 111u8, 99u8, 97u8, 108u8];
    let share: [u8; 5] = [115u8, 104u8, 97u8, 114u8, 101u8];
    assert(vosk@ =~= vosk_component());
    assert(model@ =~= model_component());
    assert(local@ =~= local_component());
    assert(share@ =~= share_component());
    match xdg_data_home {
        Some(data_dir) => {
            let mut path = data_dir;
            push_component(&mut path, vosk.as_slice());
            push_component(&mut path, model.as_slice());
            path
        },
        None => match home {
            Some(home_dir) => {
                let mut path = home_dir;
                push_component(&mut path, local.as_slice());
                push_component(&mut path, share.as_slice());
                push_component(&mut path, vosk.as_slice());
                push_component(&mut path, model.as_slice());
                path
            },
            None => {
                let mut path: Vec<u8> = Vec::new();
                push_component(&mut path, model.as_slice());
                path
            },
        },
    }
}

} // verus!
