use flux_turn_taking::tui_state::{get_default_texts, App, CurrentScreen, CurrentlyEditing, Panel, Voice};

fn voice(id: &str) -> Voice {
    Voice { id: id.to_string(), name: id.to_string(), vendor: "Deepgram".to_string(), model: "aura-2".to_string() }
}

fn app() -> App {
    App::new(vec![voice("a"), voice("b"), voice("c")], "/tmp/cache".to_string())
}

#[test]
fn starts_on_the_main_screen_with_sample_texts() {
    let a = app();
    assert_eq!(a.current_screen, CurrentScreen::Main);
    assert_eq!(a.saved_texts, get_default_texts());
    assert_eq!(a.saved_texts.len(), 7);
    assert_eq!(a.saved_texts[6], "One more for good measure.");
    assert_eq!(a.selected_text, Some(0));
    assert_eq!(a.get_selected_voice_id(), "a");
}

#[test]
fn saving_input_adds_a_text_and_a_log_line() {
    let mut a = app();
    a.enter_input_mode();
    assert_eq!(a.current_screen, CurrentScreen::Editing);
    assert_eq!(a.currently_editing, Some(CurrentlyEditing::Text));
    a.input_buffer = "hi there".to_string();
    a.save_input_as_text();
    assert_eq!(a.saved_texts.len(), 8);
    assert_eq!(a.saved_texts[7], "hi there");
    assert_eq!(a.logs, vec!["Added new text: hi there".to_string()]);
    assert_eq!(a.current_screen, CurrentScreen::Main);
    assert!(a.input_buffer.is_empty());
}

#[test]
fn blank_input_is_not_saved() {
    let mut a = app();
    a.enter_input_mode();
    a.input_buffer = " \t ".to_string();
    a.save_input_as_text();
    assert_eq!(a.saved_texts.len(), 7);
    assert!(a.logs.is_empty());
}

#[test]
fn deleting_the_last_row_moves_the_selection_up() {
    let mut a = app();
    a.selected_text = Some(6);
    a.delete_selected_text();
    assert_eq!(a.saved_texts.len(), 6);
    assert_eq!(a.selected_text, Some(5));
    assert_eq!(a.logs, vec!["Deleted text: One more for good measure.".to_string()]);
    a.saved_texts.truncate(1);
    a.selected_text = Some(0);
    a.delete_selected_text();
    assert_eq!(a.selected_text, None);
    a.delete_selected_text();
    assert_eq!(a.logs.len(), 2);
}

#[test]
fn log_keeps_the_latest_hundred_lines() {
    let mut a = app();
    for i in 0..105 {
        a.add_log(format!("line {}", i));
    }
    assert_eq!(a.logs.len(), 100);
    assert_eq!(a.logs[0], "line 5");
    assert_eq!(a.logs[99], "line 104");
}

#[test]
fn scrolling_wraps_around() {
    let mut a = app();
    a.scroll_text_list(-1);
    assert_eq!(a.selected_text, Some(6));
    a.scroll_text_list(1);
    assert_eq!(a.selected_text, Some(0));
    a.scroll_text_list(3);
    assert_eq!(a.get_selected_text().as_deref(), Some("Gemini is a family of multimodal models developed by Google AI."));
    a.focus_next_panel();
    assert_eq!(a.focused_panel, Panel::VoiceMenu);
    a.scroll_text_list(-1);
    assert_eq!(a.current_voice_index, 2);
    assert_eq!(a.get_selected_voice_id(), "c");
    assert_eq!(a.selected_text, Some(3));
    a.focus_prev_panel();
    assert_eq!(a.focused_panel, Panel::TextList);
}

#[test]
fn status_message_is_replaced() {
    let mut a = app();
    a.set_status_message("Playing...".to_string());
    assert_eq!(a.status_message, "Playing...");
    a.exit_input_mode();
    assert_eq!(a.status_message, "Press 'n' to add new text, 'd' to delete, 'Enter' to play.");
}
