use flux_turn_taking::podcast::{
    get_aura2_voices, is_paste, parse_script, FocusedPane, Key, KeyCode, Modifiers, PodcastApp,
    PodcastState, ScriptError,
};

fn key(code: KeyCode) -> Key {
    Key { code, modifiers: Modifiers::Plain }
}

#[test]
fn script_lines_become_utterances() {
    let script = "Intro music\r\nSpeaker 1: Hello there!\n\n  Speaker 2:   Hi.  \nSpeaker 3: not a speaker\nSpeaker 1:\n";
    let u = parse_script(script, 2).unwrap();
    assert_eq!(u.len(), 2);
    assert_eq!(u[0].speaker_id, 1);
    assert_eq!(u[0].text, "Hello there!");
    assert_eq!(u[1].speaker_id, 2);
    assert_eq!(u[1].text, "Hi.");
}

#[test]
fn script_without_speakers_fails() {
    assert_eq!(parse_script("just prose\nmore prose", 2).unwrap_err(), ScriptError::NoUtterances);
    assert_eq!(parse_script("", 4).unwrap_err(), ScriptError::NoUtterances);
    assert!(parse_script("Speaker 1: hi", 0).is_err());
}

#[test]
fn voice_list_has_every_aura2_voice() {
    let v = get_aura2_voices();
    assert_eq!(v.len(), 41);
    assert_eq!(v[0], "aura-2-amalthea-en");
    assert_eq!(v[40], "aura-2-zeus-en");
}

#[test]
fn topic_entry_then_speakers_then_voices() {
    let mut app = PodcastApp::new();
    app.handle_key_event(key(KeyCode::Enter), None);
    assert!(matches!(app.state, PodcastState::TopicInput));
    for c in "Rust".chars() {
        app.handle_key_event(key(KeyCode::Char(c)), None);
    }
    app.handle_key_event(Key { code: KeyCode::Char('!'), modifiers: Modifiers::Shift }, None);
    app.handle_key_event(key(KeyCode::Backspace), None);
    let paste = Key { code: KeyCode::Char('v'), modifiers: Modifiers::Control };
    assert!(is_paste(paste));
    app.handle_key_event(paste, Some(" lang"));
    assert_eq!(app.topic, "Rust lang");
    app.handle_key_event(key(KeyCode::Enter), None);
    assert!(matches!(app.state, PodcastState::SpeakerCountSelection));

    app.handle_key_event(key(KeyCode::Char('3')), None);
    app.handle_key_event(key(KeyCode::Char('9')), None);
    assert_eq!(app.speaker_count, 3);
    app.handle_key_event(key(KeyCode::Enter), None);
    assert!(matches!(app.state, PodcastState::VoiceAssignment));
    assert_eq!(app.speakers.len(), 3);
    assert_eq!(app.speakers[2].speaker_id, 3);

    let generate = Key { code: KeyCode::Char('g'), modifiers: Modifiers::Control };
    app.handle_key_event(generate, None);
    assert!(matches!(app.state, PodcastState::VoiceAssignment));

    for s in 0..3 {
        app.handle_key_event(key(KeyCode::Right), None);
        assert_eq!(app.focused_pane, FocusedPane::Right);
        app.handle_key_event(key(KeyCode::Down), None);
        app.handle_key_event(key(KeyCode::Enter), None);
        assert_eq!(app.speakers[s].voice_name.as_deref(), Some(get_aura2_voices()[s + 1].as_str()));
        app.handle_key_event(key(KeyCode::Left), None);
        app.handle_key_event(key(KeyCode::Down), None);
    }
    assert_eq!(app.selected_speaker, 2);
    app.handle_key_event(key(KeyCode::Up), None);
    assert_eq!(app.selected_speaker, 1);
    app.handle_key_event(generate, None);
    assert!(matches!(app.state, PodcastState::GeneratingPodcast));
    app.handle_key_event(key(KeyCode::Char('x')), None);
    assert!(!app.should_quit);
    app.handle_key_event(key(KeyCode::Char('q')), None);
    assert!(app.should_quit);
}

#[test]
fn escape_goes_back_or_quits() {
    let mut app = PodcastApp::new();
    app.state = PodcastState::VoiceAssignment;
    app.handle_key_event(key(KeyCode::Esc), None);
    assert!(matches!(app.state, PodcastState::SpeakerCountSelection));
    app.handle_key_event(key(KeyCode::Esc), None);
    assert!(matches!(app.state, PodcastState::TopicInput));
    app.handle_key_event(key(KeyCode::Esc), None);
    assert!(app.should_quit);
}
