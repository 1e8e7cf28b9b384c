use std::path::PathBuf;
use vosk_dictation::config::{dirs_default, Config, DEFAULT_CHANNELS, DEFAULT_SAMPLE_RATE};

fn std_join(base: &str, parts: &[&str]) -> Vec<u8> {
    let mut p = PathBuf::from(base);
    for part in parts {
        p = p.join(part);
    }
    p.into_os_string().into_string().unwrap().into_bytes()
}

#[test]
fn new_config_defaults() {
    let c = Config::new(b"/opt/model".to_vec());
    assert_eq!(c.model_path, b"/opt/model".to_vec());
    assert_eq!(c.sample_rate, 16_000);
    assert_eq!(c.channels, 1);
    assert!(c.enabled);
    assert_eq!(DEFAULT_SAMPLE_RATE, 16_000);
    assert_eq!(DEFAULT_CHANNELS, 1);
}

#[test]
fn model_path_under_xdg_data_home() {
    assert_eq!(dirs_default(Some(b"/data".to_vec()), Some(b"/home/u".to_vec())), b"/data/vosk/model".to_vec());
    assert_eq!(dirs_default(Some(b"/data/".to_vec()), None), b"/data/vosk/model".to_vec());
    assert_eq!(dirs_default(Some(b"".to_vec()), None), b"vosk/model".to_vec());
}

#[test]
fn model_path_under_home() {
    assert_eq!(dirs_default(None, Some(b"/home/u".to_vec())), b"/home/u/.local/share/vosk/model".to_vec());
}

#[test]
fn model_path_without_environment() {
    assert_eq!(dirs_default(None, None), b"model".to_vec());
}

#[test]
fn paths_agree_with_std_path_join() {
    for base in ["/data", "/data/", "", "rel/dir", "/"] {
        assert_eq!(dirs_default(Some(base.as_bytes().to_vec()), None), std_join(base, &["vosk", "model"]));
        assert_eq!(
            dirs_default(None, Some(base.as_bytes().to_vec())),
            std_join(base, &[".local", "share", "vosk", "model"])
        );
    }
}

#[test]
fn config_from_environment() {
    let c = Config::from_environment(None, Some(b"/home/u".to_vec()));
    assert_eq!(c.model_path, b"/home/u/.local/share/vosk/model".to_vec());
    assert!(c.enabled);
}
