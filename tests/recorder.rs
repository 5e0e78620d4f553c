use flux_turn_taking::recorder::{eq_ignore_case, AudioFormat};

#[test]
fn mp3_extension_in_any_case_picks_mp3() {
    assert_eq!(AudioFormat::from_path("out.mp3"), AudioFormat::Mp3);
    assert_eq!(AudioFormat::from_path("dir/take.MP3"), AudioFormat::Mp3);
    assert_eq!(AudioFormat::from_path("out.wav"), AudioFormat::Wav);
    assert_eq!(AudioFormat::from_path("recording"), AudioFormat::Wav);
    assert_eq!(AudioFormat::from_path(".mp3"), AudioFormat::Wav);
    assert_eq!(AudioFormat::from_path("a.mp3.wav"), AudioFormat::Wav);
}

#[test]
fn ascii_case_is_ignored_only_for_letters() {
    assert!(eq_ignore_case("Mp3", "mP3"));
    assert!(!eq_ignore_case("mp3", "mp4"));
    assert!(!eq_ignore_case("mp3", "mp33"));
}
