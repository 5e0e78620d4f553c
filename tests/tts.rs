use flux_turn_taking::tts::{get_cache_file_path, hex_string, speak_url};

#[test]
fn cache_file_is_named_by_the_digest_of_text_and_voice() {
    assert_eq!(
        get_cache_file_path("/tmp/audio", "Hello", "aura-2-thalia-en"),
        "/tmp/audio/d5d7ce44206dd1235418fd1a147ccb68592cae7f1fc6e839eb89fdaa3cd641c6.mp3"
    );
    assert_eq!(
        get_cache_file_path("cache/", "", ""),
        "cache/e3b0c44298fc1c149afbf4c8996fb92427ae41e4649b934ca495991b7852b855.mp3"
    );
}

#[test]
fn hex_is_lowercase_two_digits_per_byte() {
    assert_eq!(hex_string(&vec![0x00, 0x0f, 0xa0, 0xff]), "000fa0ff");
    assert_eq!(hex_string(&Vec::new()), "");
}

#[test]
fn speak_url_names_the_voice() {
    assert_eq!(
        speak_url("aura-2-thalia-en"),
        "https://api.deepgram.com/v1/speak?model=aura-2-thalia-en&encoding=mp3"
    );
}
