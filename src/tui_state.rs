//! The state of the text-to-speech terminal client: the saved texts, the voice
//! menu, which panel has focus, the input line and the activity log. The
//! widgets' selection is held as a plain index.
use vstd::prelude::*;
use crate::text::{trim, trimmed_of};

verus! {

/// A speech voice offered in the menu.
#[derive(Clone, Debug)]
pub struct Voice {
    pub id: String,
    pub name: String,
    pub vendor: String,
    pub model: String,
}

#[derive(Clone, Copy, Debug, PartialEq, Eq, Structural)]
pub enum CurrentScreen {
    Main,
    Editing,
}

#[derive(Clone, Copy, Debug, PartialEq, Eq, Structural)]
pub enum CurrentlyEditing {
    Text,
    Voice,
}

#[derive(Clone, Copy, Debug, PartialEq, Eq, Structural)]
pub enum Panel {
    TextList,
    VoiceMenu,
}

/// The most log lines kept; older ones are dropped first.
pub const MAX_LOGS: usize = 100;

pub const MAIN_STATUS: &'static str = "Press 'n' to add new text, 'd' to delete, 'Enter' to play.";

pub const EDITING_STATUS: &'static str = "Editing... Press 'Enter' to save, 'Esc' to cancel.";

pub open spec fn default_text_views() -> Seq<Seq<char>> {
    seq![
        "Hello, this is a test of the Deepgram Text-to-Speech API."@,
        "The quick brown fox jumps over the lazy dog."@,
        "Rust is a systems programming language that focuses on safety, speed, and concurrency."@,
        "Gemini is a family of multimodal models developed by Google AI."@,
        "This is a longer text to demonstrate scrolling and playback features."@,
        "Another example sentence for testing purposes."@,
        "One more for good measure."@,
    ]
}

pub open spec fn string_views(v: Seq<String>) -> Seq<Seq<char>> {
    v.map_values(|s: String| s@)
}

fn push_text(v: &mut Vec<String>, s: &str)
    ensures
        string_views(final(v)@) == string_views(old(v)@).push(s@),
{
    v.push(String::from_str(s));
    assert(string_views(v@) =~= string_views(old(v)@).push(s@));
}

/// The sample texts offered when nothing has been saved yet.
pub fn get_default_texts() -> (r: Vec<String>)
    ensures
        string_views(r@) == default_text_views(),
{
    let mut v: Vec<String> = Vec::new();
    push_text(&mut v, "Hello, this is a test of the Deepgram Text-to-Speech API.");
    push_text(&mut v, "The quick brown fox jumps over the lazy dog.");
    push_text(
        &mut v,
        "Rust is a systems programming language that focuses on safety, speed, and concurrency.",
    );
    push_text(&mut v, "Gemini is a family of multimodal models developed by Google AI.");
    push_text(&mut v, "This is a longer text to demonstrate scrolling and playback features.");
    push_text(&mut v, "Another example sentence for testing purposes.");
    push_text(&mut v, "One more for good measure.");
    assert(string_views(v@) =~= default_text_views());
    v
}

/// Whether `s` holds nothing but whitespace.
pub open spec fn is_blank(s: Seq<char>) -> bool {
    trimmed_of(s).len() == 0
}

/// The index a selection moves to: one step of `direction` from `sel`,
/// wrapping past either end of a list of `len` items; no selection starts at 0.
pub open spec fn scrolled(sel: Option<usize>, direction: int, len: nat) -> usize {
    match sel {
        Some(i) => {
            let n = i + direction;
            if n < 0 {
                if len > 0 {
                    (len - 1) as usize
                } else {
                    0
                }
            } else if n >= len {
                0
            } else {
                n as usize
            }
        },
        None => 0,
    }
}

/// The log after appending `m`, keeping at most [`MAX_LOGS`] lines.
pub open spec fn logged(logs: Seq<String>, m: String) -> Seq<String> {
    if logs.len() + 1 > MAX_LOGS {
        logs.push(m).drop_first()
    } else {
        logs.push(m)
    }
}

pub struct App {
    pub current_screen: CurrentScreen,
    pub currently_editing: Option<CurrentlyEditing>,
    /// The highlighted row of the text list.
    pub selected_text: Option<usize>,
    /// The highlighted row of the voice menu.
    pub selected_voice: Option<usize>,
    pub saved_texts: Vec<String>,
    pub voices: Vec<Voice>,
    pub current_voice_index: usize,
    pub audio_cache_dir: String,
    pub status_message: String,
    pub focused_panel: Panel,
    pub logs: Vec<String>,
    pub input_buffer: String,
}

impl App {
    /// The start state: the main screen, the sample texts, the first text and
    /// voice selected, focus on the text list.
    pub fn new(voices: Vec<Voice>, audio_cache_dir: String) -> (r: App)
        ensures
            r.current_screen == CurrentScreen::Main,
            r.currently_editing is None,
            r.selected_text == Some(0usize),
            r.selected_voice == Some(0usize),
            string_views(r.saved_texts@) == default_text_views(),
            r.voices@ == voices@,
            r.current_voice_index == 0,
            r.audio_cache_dir == audio_cache_dir,
            r.status_message@ == MAIN_STATUS@,
            r.focused_panel == Panel::TextList,
            r.logs@.len() == 0,
            r.input_buffer@.len() == 0,
    {
        App {
            current_screen: CurrentScreen::Main,
            currently_editing: None,
            selected_text: Some(0),
            selected_voice: Some(0),
            saved_texts: get_default_texts(),
            voices,
            current_voice_index: 0,
            audio_cache_dir,
            status_message: String::from_str(MAIN_STATUS),
            focused_panel: Panel::TextList,
            logs: Vec::new(),
            input_buffer: String::new(),
        }
    }

    /// Opens the input line for a new text.
    pub fn enter_input_mode(&mut self)
        ensures
            final(self).current_screen == CurrentScreen::Editing,
            final(self).currently_editing == Some(CurrentlyEditing::Text),
            final(self).input_buffer@.len() == 0,
            final(self).status_message@ == EDITING_STATUS@,
            final(self).saved_texts == old(self).saved_texts,
            final(self).logs == old(self).logs,
            final(self).selected_text == old(self).selected_text,
            final(self).focused_panel == old(self).focused_panel,
    {
        self.current_screen = CurrentScreen::Editing;
        self.currently_editing = Some(CurrentlyEditing::Text);
        self.input_buffer = String::new();
        self.status_message = String::from_str(EDITING_STATUS);
    }

    /// Closes the input line, discarding what it held.
    pub fn exit_input_mode(&mut self)
        ensures
            final(self).current_screen == CurrentScreen::Main,
            final(self).currently_editing is None,
            final(self).input_buffer@.len() == 0,
            final(self).status_message@ == MAIN_STATUS@,
            final(self).saved_texts == old(self).saved_texts,
            final(self).logs == old(self).logs,
            final(self).selected_text == old(self).selected_text,
            final(self).focused_panel == old(self).focused_panel,
    {
        self.current_screen = CurrentScreen::Main;
        self.currently_editing = None;
        self.input_buffer = String::new();
        self.status_message = String::from_str(MAIN_STATUS);
    }

    /// Appends a line to the activity log, dropping the oldest past the limit.
    pub fn add_log(&mut self, message: String)
        ensures
            final(self).logs@ == logged(old(self).logs@, message),
            final(self).saved_texts == old(self).saved_texts,
            final(self).selected_text == old(self).selected_text,
            final(self).input_buffer == old(self).input_buffer,
            final(self).current_screen == old(self).current_screen,
            final(self).status_message == old(self).status_message,
    {
        self.logs.push(message);
        if self.logs.len() > MAX_LOGS {
            self.logs.remove(0);
            assert(self.logs@ =~= old(self).logs@.push(message).drop_first());
        }
    }

    /// Saves the input line as a new text unless it is blank, logs it, and
    /// leaves input mode.
    pub fn save_input_as_text(&mut self)
        ensures
            is_blank(old(self).input_buffer@) ==> final(self).saved_texts@ == old(self).saved_texts@
                && final(self).logs@ == old(self).logs@,
            !is_blank(old(self).input_buffer@) ==> string_views(final(self).saved_texts@)
                == string_views(old(self).saved_texts@).push(old(self).input_buffer@)
                && exists|line: String|
                line@ == "Added new text: "@ + old(self).input_buffer@ && final(self).logs@
                    == logged(old(self).logs@, line),
            final(self).current_screen == CurrentScreen::Main,
            final(self).currently_editing is None,
            final(self).input_buffer@.len() == 0,
            final(self).status_message@ == MAIN_STATUS@,
            final(self).selected_text == old(self).selected_text,
    {
        if trim(self.input_buffer.as_str()).unicode_len() != 0 {
            let text = self.input_buffer.clone();
            let ghost before = self.saved_texts@;
            self.saved_texts.push(text);
            assert(string_views(self.saved_texts@) =~= string_views(before).push(
                old(self).input_buffer@,
            ));
            let line = String::from_str("Added new text: ").concat(self.input_buffer.as_str());
            self.add_log(line);
        }
        self.exit_input_mode();
    }

    /// Deletes the selected text, logs it, and keeps the selection on a valid
    /// row: none when the list empties, the new last row when the last was
    /// deleted.
    pub fn delete_selected_text(&mut self)
        ensures
            (match old(self).selected_text {
                Some(i) => i < old(self).saved_texts@.len(),
                None => false,
            }) ==> {
                let i = old(self).selected_text->Some_0 as int;
                let n = (old(self).saved_texts@.len() - 1) as int;
                &&& final(self).saved_texts@ == old(self).saved_texts@.remove(i)
                &&& exists|line: String|
                    line@ == "Deleted text: "@ + old(self).saved_texts@[i]@ && final(self).logs@
                        == logged(old(self).logs@, line)
                &&& final(self).selected_text == if n == 0 {
                    None
                } else if i >= n {
                    Some((n - 1) as usize)
                } else {
                    Some(i as usize)
                }
            },
            !(match old(self).selected_text {
                Some(i) => i < old(self).saved_texts@.len(),
                None => false,
            }) ==> final(self).saved_texts == old(self).saved_texts && final(self).logs
                == old(self).logs && final(self).selected_text == old(self).selected_text,
    {
        if let Some(index) = self.selected_text {
            if index < self.saved_texts.len() {
                let removed = self.saved_texts.remove(index);
                let line = String::from_str("Deleted text: ").concat(removed.as_str());
                self.add_log(line);
                if self.saved_texts.len() == 0 {
                    self.selected_text = None;
                } else if index >= self.saved_texts.len() {
                    self.selected_text = Some(self.saved_texts.len() - 1);
                }
            }
        }
    }

    /// Moves the selection of the focused panel by `direction` rows, wrapping
    /// around both ends; moving in the voice menu also picks that voice.
    pub fn scroll_text_list(&mut self, direction: i32)
        ensures
            old(self).focused_panel == Panel::TextList ==> final(self).selected_text == Some(
                scrolled(old(self).selected_text, direction as int, old(self).saved_texts@.len()),
            ) && final(self).selected_voice == old(self).selected_voice
                && final(self).current_voice_index == old(self).current_voice_index,
            old(self).focused_panel == Panel::VoiceMenu ==> final(self).selected_voice == Some(
                scrolled(old(self).selected_voice, direction as int, old(self).voices@.len()),
            ) && final(self).current_voice_index == scrolled(
                old(self).selected_voice,
                direction as int,
                old(self).voices@.len(),
            ) && final(self).selected_text == old(self).selected_text,
            final(self).saved_texts == old(self).saved_texts,
            final(self).voices == old(self).voices,
            final(self).focused_panel == old(self).focused_panel,
    {
        if self.focused_panel == Panel::TextList {
            let i = scroll_index(self.selected_text, direction, self.saved_texts.len());
            self.selected_text = Some(i);
        } else {
            let i = scroll_index(self.selected_voice, direction, self.voices.len());
            self.selected_voice = Some(i);
            self.current_voice_index = i;
        }
    }

    /// The selected text, if a row within the list is selected.
    pub fn get_selected_text(&self) -> (r: Option<String>)
        ensures
            match self.selected_text {
                Some(i) if i < self.saved_texts@.len() => r matches Some(t) && t@
                    == self.saved_texts@[i as int]@,
                _ => r is None,
            },
    {
        match self.selected_text {
            Some(i) => if i < self.saved_texts.len() {
                Some(self.saved_texts[i].clone())
            } else {
                None
            },
            None => None,
        }
    }

    /// The id of the chosen voice.
    pub fn get_selected_voice_id(&self) -> (r: String)
        requires
            self.current_voice_index < self.voices@.len(),
        ensures
            r@ == self.voices@[self.current_voice_index as int].id@,
    {
        self.voices[self.current_voice_index].id.clone()
    }

    pub fn set_status_message(&mut self, message: String)
        ensures
            final(self).status_message == message,
            final(self).saved_texts == old(self).saved_texts,
            final(self).logs == old(self).logs,
    {
        self.status_message = message;
    }

    /// Moves focus to the other panel.
    pub fn focus_next_panel(&mut self)
        ensures
            final(self).focused_panel == match old(self).focused_panel {
                Panel::TextList => Panel::VoiceMenu,
                Panel::VoiceMenu => Panel::TextList,
            },
            final(self).selected_text == old(self).selected_text,
            final(self).selected_voice == old(self).selected_voice,
    {
        self.focused_panel = match self.focused_panel {
            Panel::TextList => Panel::VoiceMenu,
            Panel::VoiceMenu => Panel::TextList,
        };
    }

    /// Moves focus to the other panel; with two panels, the same as
    /// [`App::focus_next_panel`].
    pub fn focus_prev_panel(&mut self)
        ensures
            final(self).focused_panel == match old(self).focused_panel {
                Panel::TextList => Panel::VoiceMenu,
                Panel::VoiceMenu => Panel::TextList,
            },
            final(self).selected_text == old(self).selected_text,
            final(self).selected_voice == old(self).selected_voice,
    {
        self.focused_panel = match self.focused_panel {
            Panel::TextList => Panel::VoiceMenu,
            Panel::VoiceMenu => Panel::TextList,
        };
    }
}

fn scroll_index(sel: Option<usize>, direction: i32, len: usize) -> (r: usize)
    ensures
        r == scrolled(sel, direction as int, len as nat),
{
    match sel {
        Some(i) => {
            let n: i128 = i as i128 + direction as i128;
            if n < 0 {
                if len > 0 {
                    len - 1
                } else {
                    0
                }
            } else if n >= len as i128 {
                0
            } else {
                n as usize
            }
        },
        None => 0,
    }
}

} // verus!
