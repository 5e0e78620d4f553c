//! The podcast generator's interactive flow: entering a topic, choosing how
//! many speakers, giving each a voice, and reading the generated script back
//! as utterances.
use vstd::prelude::*;
use crate::connection::{decimal, decimal_string};
use crate::text::{split_char, split_on, starts_with, trim, trimmed_of, views, push_char, pop_char};

verus! {

/// One line of the script: who speaks, and what.
#[derive(Clone, Debug)]
pub struct Utterance {
    pub speaker_id: usize,
    pub text: String,
}

#[derive(Clone, Copy, Debug, PartialEq, Eq, Structural)]
pub enum ScriptError {
    /// No line of the script belonged to a known speaker.
    NoUtterances,
}

/// The label that starts a line of speaker `id`.
pub open spec fn speaker_prefix(id: nat) -> Seq<char> {
    "Speaker "@ + decimal(id) + ":"@
}

pub open spec fn is_prefix(p: Seq<char>, s: Seq<char>) -> bool {
    p.len() <= s.len() && s.subrange(0, p.len() as int) == p
}

/// The lowest speaker id in `from..=count` whose label starts `line`.
pub open spec fn first_speaker(line: Seq<char>, from: nat, count: nat) -> Option<nat>
    decreases count + 1 - from,
{
    if from > count {
        None
    } else if is_prefix(speaker_prefix(from), line) {
        Some(from)
    } else {
        first_speaker(line, from + 1, count)
    }
}

proof fn lemma_first_speaker_matches(line: Seq<char>, from: nat, count: nat)
    ensures
        first_speaker(line, from, count) matches Some(id) ==> from <= id <= count && is_prefix(
            speaker_prefix(id),
            line,
        ),
    decreases count + 1 - from,
{
    if from <= count && !is_prefix(speaker_prefix(from), line) {
        lemma_first_speaker_matches(line, from + 1, count);
    }
}

/// The utterance a raw script line holds, if any: the trimmed line must start
/// with a speaker's label and have text after it.
pub open spec fn line_utterance(raw: Seq<char>, count: nat) -> Option<(nat, Seq<char>)> {
    let line = trimmed_of(raw);
    if line.len() == 0 {
        None
    } else {
        match first_speaker(line, 1, count) {
            Some(id) => {
                let text = trimmed_of(line.skip(speaker_prefix(id).len() as int));
                if text.len() == 0 {
                    None
                } else {
                    Some((id, text))
                }
            },
            None => None,
        }
    }
}

/// The utterances of the script lines `lines`, in order.
pub open spec fn script_utterances(lines: Seq<Seq<char>>, count: nat) -> Seq<(nat, Seq<char>)>
    decreases lines.len(),
{
    if lines.len() == 0 {
        Seq::empty()
    } else {
        let rest = script_utterances(lines.drop_last(), count);
        match line_utterance(lines.last(), count) {
            Some(u) => rest.push(u),
            None => rest,
        }
    }
}

pub open spec fn utterance_views(v: Seq<Utterance>) -> Seq<(nat, Seq<char>)> {
    v.map_values(|u: Utterance| (u.speaker_id as nat, u.text@))
}

fn speaker_label(id: usize) -> (r: String)
    ensures
        r@ == speaker_prefix(id as nat),
{
    let digits = decimal_string(id as u64);
    let label = String::from_str("Speaker ").concat(digits.as_str());
    label.concat(":")
}

/// The speaker whose label starts `line`, trying ids `1..=count` in order.
fn find_speaker(line: &str, count: usize) -> (r: Option<usize>)
    ensures
        match first_speaker(line@, 1, count as nat) {
            Some(id) => r == Some(id as usize),
            None => r is None,
        },
{
    let mut k: usize = 0;
    while k < count
        invariant
            k <= count,
            first_speaker(line@, (k + 1) as nat, count as nat) == first_speaker(line@, 1, count as nat),
        decreases count - k,
    {
        let label = speaker_label(k + 1);
        if starts_with(line, label.as_str()) {
            return Some(k + 1);
        }
        k = k + 1;
    }
    None
}

/// The utterance on one raw line, if it holds one.
fn parse_line(raw: &str, count: usize) -> (r: Option<Utterance>)
    ensures
        match line_utterance(raw@, count as nat) {
            Some((id, text)) => r matches Some(u) && u.speaker_id == id && u.text@ == text,
            None => r is None,
        },
{
    let line = trim(raw);
    let n = line.unicode_len();
    if n == 0 {
        return None;
    }
    match find_speaker(line, count) {
        Some(id) => {
            proof {
                lemma_first_speaker_matches(line@, 1, count as nat);
            }
            let label = speaker_label(id);
            let plen = label.as_str().unicode_len();
            let rest = line.substring_char(plen, n);
            assert(rest@ =~= line@.skip(plen as int));
            let text = trim(rest);
            if text.unicode_len() == 0 {
                None
            } else {
                Some(Utterance { speaker_id: id, text: String::from_str(text) })
            }
        },
        None => None,
    }
}

/// Reads the generated script: each line that, once trimmed, starts with
/// `Speaker <id>:` for an id in `1..=speaker_count` and has text after the
/// label becomes an utterance. Fails when no line does.
pub fn parse_script(script: &str, speaker_count: usize) -> (r: Result<Vec<Utterance>, ScriptError>)
    ensures
        match r {
            Ok(v) => utterance_views(v@) == script_utterances(split_on(script@, '\n'), speaker_count as nat)
                && v@.len() > 0,
            Err(_) => script_utterances(split_on(script@, '\n'), speaker_count as nat).len() == 0,
        },
{
    let lines = split_char(script, '\n');
    let mut out: Vec<Utterance> = Vec::new();
    let mut i: usize = 0;
    assert(views(lines@).subrange(0, 0) =~= Seq::<Seq<char>>::empty());
    assert(utterance_views(out@) =~= Seq::<(nat, Seq<char>)>::empty());
    while i < lines.len()
        invariant
            i <= lines@.len(),
            views(lines@) == split_on(script@, '\n'),
            utterance_views(out@) == script_utterances(views(lines@).subrange(0, i as int), speaker_count as nat),
        decreases lines@.len() - i,
    {
        let ghost pre = views(lines@).subrange(0, i + 1);
        assert(pre.drop_last() =~= views(lines@).subrange(0, i as int));
        assert(pre.last() == lines@[i as int]@);
        match parse_line(lines[i].as_str(), speaker_count) {
            Some(u) => {
                let ghost before = utterance_views(out@);
                let ghost uv = (u.speaker_id as nat, u.text@);
                out.push(u);
                assert(utterance_views(out@) =~= before.push(uv));
            },
            None => {},
        }
        i = i + 1;
    }
    assert(views(lines@).subrange(0, lines@.len() as int) =~= views(lines@));
    if out.len() == 0 {
        Err(ScriptError::NoUtterances)
    } else {
        Ok(out)
    }
}

/// The voices a speaker can be given, comma-separated, in menu order.
pub const AURA2_VOICES: &'static str = "aura-2-amalthea-en,aura-2-andromeda-en,aura-2-apollo-en,aura-2-arcas-en,aura-2-aries-en,aura-2-asteria-en,aura-2-athena-en,aura-2-atlas-en,aura-2-aurora-en,aura-2-callista-en,aura-2-cora-en,aura-2-cordelia-en,aura-2-delia-en,aura-2-draco-en,aura-2-electra-en,aura-2-harmonia-en,aura-2-helena-en,aura-2-hera-en,aura-2-hermes-en,aura-2-hyperion-en,aura-2-iris-en,aura-2-janus-en,aura-2-juno-en,aura-2-jupiter-en,aura-2-luna-en,aura-2-mars-en,aura-2-minerva-en,aura-2-neptune-en,aura-2-odysseus-en,aura-2-ophelia-en,aura-2-orion-en,aura-2-orpheus-en,aura-2-pandora-en,aura-2-phoebe-en,aura-2-pluto-en,aura-2-saturn-en,aura-2-selene-en,aura-2-thalia-en,aura-2-theia-en,aura-2-vesta-en,aura-2-zeus-en";

/// The voices a speaker can be given, in menu order.
pub open spec fn aura2_voice_views() -> Seq<Seq<char>> {
    split_on(AURA2_VOICES@, ',')
}

/// The voices a speaker can be given, in menu order.
pub fn get_aura2_voices() -> (r: Vec<String>)
    ensures
        views(r@) == aura2_voice_views(),
{
    split_char(AURA2_VOICES, ',')
}

#[derive(Clone, Copy, Debug, PartialEq, Eq, Structural)]
pub enum KeyCode {
    Char(char),
    Backspace,
    Enter,
    Esc,
    Up,
    Down,
    Left,
    Right,
    Other,
}

/// The modifier keys held with a key: none, exactly one, or `Other` for any
/// other combination.
#[derive(Clone, Copy, Debug, PartialEq, Eq, Structural)]
pub enum Modifiers {
    Plain,
    Shift,
    Control,
    Super,
    Other,
}

#[derive(Clone, Copy, Debug, PartialEq, Eq, Structural)]
pub struct Key {
    pub code: KeyCode,
    pub modifiers: Modifiers,
}

#[derive(Clone, Debug)]
pub enum PodcastState {
    TopicInput,
    SpeakerCountSelection,
    VoiceAssignment,
    GeneratingPodcast,
    Completed,
    Error(String),
}

#[derive(Clone, Copy, Debug, PartialEq, Eq, Structural)]
pub enum FocusedPane {
    Left,
    Right,
}

#[derive(Clone, Debug)]
pub struct SpeakerVoice {
    pub speaker_id: usize,
    pub voice_name: Option<String>,
}

/// Control-V or Super-V: paste the clipboard into the topic.
pub open spec fn is_paste_key(k: Key) -> bool {
    k.code == KeyCode::Char('v') && (k.modifiers == Modifiers::Super || k.modifiers
        == Modifiers::Control)
}

/// Whether `k` asks to paste; the caller then reads the clipboard.
pub fn is_paste(k: Key) -> (r: bool)
    ensures
        r == is_paste_key(k),
{
    k.code == KeyCode::Char('v') && (k.modifiers == Modifiers::Super || k.modifiers
        == Modifiers::Control)
}

/// Speakers `1..=n`, none with a voice yet.
pub open spec fn fresh_speakers(s: Seq<SpeakerVoice>, n: nat) -> bool {
    &&& s.len() == n
    &&& forall|i: int| 0 <= i < n ==> (#[trigger] s[i]).speaker_id == i + 1 && s[i].voice_name is None
}

pub struct PodcastApp {
    pub state: PodcastState,
    pub topic: String,
    pub speaker_count: usize,
    pub speakers: Vec<SpeakerVoice>,
    pub selected_speaker: usize,
    pub selected_voice: usize,
    pub focused_pane: FocusedPane,
    pub available_voices: Vec<String>,
    pub generation_progress: String,
    pub should_quit: bool,
}

impl PodcastApp {
    /// The start state: an empty topic, two speakers, the left pane focused.
    pub fn new() -> (r: PodcastApp)
        ensures
            r.state is TopicInput,
            r.topic@.len() == 0,
            r.speaker_count == 2,
            r.speakers@.len() == 0,
            r.selected_speaker == 0,
            r.selected_voice == 0,
            r.focused_pane == FocusedPane::Left,
            views(r.available_voices@) == aura2_voice_views(),
            !r.should_quit,
    {
        PodcastApp {
            state: PodcastState::TopicInput,
            topic: String::new(),
            speaker_count: 2,
            speakers: Vec::new(),
            selected_speaker: 0,
            selected_voice: 0,
            focused_pane: FocusedPane::Left,
            available_voices: get_aura2_voices(),
            generation_progress: String::new(),
            should_quit: false,
        }
    }

    /// Routes a key to the handler of the current screen; on the last screens
    /// only `q` does something: it quits. `clipboard` is the clipboard's text,
    /// read by the caller when [`is_paste`] holds.
    pub fn handle_key_event(&mut self, key: Key, clipboard: Option<&str>)
        ensures
            (old(self).state is GeneratingPodcast || old(self).state is Completed
                || old(self).state is Error) ==> final(self).should_quit == (old(self).should_quit
                || key.code == KeyCode::Char('q')) && final(self).topic == old(self).topic
                && final(self).speakers == old(self).speakers,
    {
        match self.state {
            PodcastState::TopicInput => self.handle_topic_input(key, clipboard),
            PodcastState::SpeakerCountSelection => self.handle_speaker_count_selection(key),
            PodcastState::VoiceAssignment => self.handle_voice_assignment(key),
            _ => {
                if key.code == KeyCode::Char('q') {
                    self.should_quit = true;
                }
            },
        }
    }

    /// Edits the topic: typed characters are appended, Backspace removes the
    /// last, a paste appends the clipboard, Enter moves on once the topic is
    /// not empty, Esc quits.
    pub fn handle_topic_input(&mut self, key: Key, clipboard: Option<&str>)
        ensures
            is_paste_key(key) ==> final(self).topic@ == match clipboard {
                Some(t) => old(self).topic@ + t@,
                None => old(self).topic@,
            },
            !is_paste_key(key) ==> match key.code {
                KeyCode::Char(c) => final(self).topic@ == if key.modifiers == Modifiers::Plain
                    || key.modifiers == Modifiers::Shift {
                    old(self).topic@.push(c)
                } else {
                    old(self).topic@
                },
                KeyCode::Backspace => final(self).topic@ == if old(self).topic@.len() > 0 {
                    old(self).topic@.drop_last()
                } else {
                    old(self).topic@
                },
                _ => final(self).topic == old(self).topic,
            },
            key.code == KeyCode::Enter && old(self).topic@.len() > 0 ==> final(self).state is SpeakerCountSelection,
            !(key.code == KeyCode::Enter && old(self).topic@.len() > 0) ==> final(self).state
                == old(self).state,
            final(self).should_quit == (old(self).should_quit || key.code == KeyCode::Esc),
            final(self).speakers == old(self).speakers,
            final(self).speaker_count == old(self).speaker_count,
    {
        if is_paste(key) {
            if let Some(t) = clipboard {
                self.topic.append(t);
            }
            return;
        }
        match key.code {
            KeyCode::Char(c) => {
                if key.modifiers == Modifiers::Plain || key.modifiers == Modifiers::Shift {
                    push_char(&mut self.topic, c);
                }
            },
            KeyCode::Backspace => {
                let _ = pop_char(&mut self.topic);
            },
            KeyCode::Enter => {
                if self.topic.as_str().unicode_len() != 0 {
                    self.state = PodcastState::SpeakerCountSelection;
                }
            },
            KeyCode::Esc => {
                self.should_quit = true;
            },
            _ => {},
        }
    }

    /// Picks the number of speakers with `1` to `4`; Enter sets up that many
    /// speakers without voices and moves on; Esc goes back to the topic.
    pub fn handle_speaker_count_selection(&mut self, key: Key)
        ensures
            match key.code {
                KeyCode::Char(c) => final(self).speaker_count == if '1' <= c && c <= '4' {
                    (c as u32 - '0' as u32) as usize
                } else {
                    old(self).speaker_count
                } && final(self).state == old(self).state,
                KeyCode::Enter => fresh_speakers(final(self).speakers@, old(self).speaker_count as nat)
                    && final(self).selected_speaker == 0 && final(self).selected_voice == 0
                    && final(self).state is VoiceAssignment,
                KeyCode::Esc => final(self).state is TopicInput && final(self).speakers
                    == old(self).speakers,
                _ => final(self).state == old(self).state && final(self).speakers
                    == old(self).speakers && final(self).speaker_count == old(self).speaker_count,
            },
            final(self).topic == old(self).topic,
            final(self).should_quit == old(self).should_quit,
    {
        match key.code {
            KeyCode::Char(c) => {
                if c == '1' {
                    self.speaker_count = 1;
                } else if c == '2' {
                    self.speaker_count = 2;
                } else if c == '3' {
                    self.speaker_count = 3;
                } else if c == '4' {
                    self.speaker_count = 4;
                }
            },
            KeyCode::Enter => {
                let mut speakers: Vec<SpeakerVoice> = Vec::new();
                let mut id: usize = 0;
                while id < self.speaker_count
                    invariant
                        id <= self.speaker_count,
                        fresh_speakers(speakers@, id as nat),
                    decreases self.speaker_count - id,
                {
                    speakers.push(SpeakerVoice { speaker_id: id + 1, voice_name: None });
                    id = id + 1;
                }
                self.speakers = speakers;
                self.selected_speaker = 0;
                self.selected_voice = 0;
                self.state = PodcastState::VoiceAssignment;
            },
            KeyCode::Esc => {
                self.state = PodcastState::TopicInput;
            },
            _ => {},
        }
    }

    fn all_assigned(&self) -> (r: bool)
        ensures
            r == forall|i: int| 0 <= i < self.speakers@.len() ==> (#[trigger] self.speakers@[i]).voice_name is Some,
    {
        let mut i: usize = 0;
        while i < self.speakers.len()
            invariant
                i <= self.speakers@.len(),
                forall|j: int| 0 <= j < i ==> (#[trigger] self.speakers@[j]).voice_name is Some,
            decreases self.speakers@.len() - i,
        {
            if self.speakers[i].voice_name.is_none() {
                return false;
            }
            i = i + 1;
        }
        true
    }

    /// Gives voices to speakers: Up and Down move within the focused pane,
    /// Left and Right switch panes, Enter on the voice pane gives the selected
    /// voice to the selected speaker, Control-G starts generating once every
    /// speaker has a voice, Esc goes back.
    pub fn handle_voice_assignment(&mut self, key: Key)
        ensures
            key.code == KeyCode::Up ==> if old(self).focused_pane == FocusedPane::Left {
                final(self).selected_speaker == if old(self).selected_speaker > 0 {
                    (old(self).selected_speaker - 1) as usize
                } else {
                    0
                }
            } else {
                final(self).selected_voice == if old(self).selected_voice > 0 {
                    (old(self).selected_voice - 1) as usize
                } else {
                    0
                }
            },
            key.code == KeyCode::Down ==> if old(self).focused_pane == FocusedPane::Left {
                final(self).selected_speaker == if old(self).selected_speaker + 1 < old(self).speakers@.len() {
                    (old(self).selected_speaker + 1) as usize
                } else {
                    old(self).selected_speaker
                }
            } else {
                final(self).selected_voice == if old(self).selected_voice + 1 < old(self).available_voices@.len() {
                    (old(self).selected_voice + 1) as usize
                } else {
                    old(self).selected_voice
                }
            },
            key.code == KeyCode::Left ==> final(self).focused_pane == FocusedPane::Left,
            key.code == KeyCode::Right ==> final(self).focused_pane == FocusedPane::Right,
            key.code == KeyCode::Enter && old(self).focused_pane == FocusedPane::Right
                && old(self).selected_voice < old(self).available_voices@.len()
                && old(self).selected_speaker < old(self).speakers@.len() ==> {
                let i = old(self).selected_speaker as int;
                &&& final(self).speakers@.len() == old(self).speakers@.len()
                &&& final(self).speakers@[i].speaker_id == old(self).speakers@[i].speaker_id
                &&& final(self).speakers@[i].voice_name matches Some(v) && v@ == old(self).available_voices@[old(self).selected_voice as int]@
                &&& forall|j: int|
                    0 <= j < old(self).speakers@.len() && j != i ==> #[trigger] final(self).speakers@[j]
                        == old(self).speakers@[j]
            },
            key.code != KeyCode::Enter ==> final(self).speakers == old(self).speakers,
            key == (Key { code: KeyCode::Char('g'), modifiers: Modifiers::Control }) ==> if forall|
                i: int,
            |
                0 <= i < old(self).speakers@.len() ==> (#[trigger] old(self).speakers@[i]).voice_name is Some {
                final(self).state is GeneratingPodcast
            } else {
                final(self).state is VoiceAssignment || final(self).state == old(self).state
            },
            key.code == KeyCode::Esc ==> final(self).state is SpeakerCountSelection,
            final(self).topic == old(self).topic,
    {
        match key.code {
            KeyCode::Char(c) => {
                if c == 'g' && key.modifiers == Modifiers::Control && self.all_assigned() {
                    self.state = PodcastState::GeneratingPodcast;
                }
            },
            KeyCode::Up => {
                if self.focused_pane == FocusedPane::Left {
                    if self.selected_speaker > 0 {
                        self.selected_speaker = self.selected_speaker - 1;
                    }
                } else if self.selected_voice > 0 {
                    self.selected_voice = self.selected_voice - 1;
                }
            },
            KeyCode::Down => {
                if self.focused_pane == FocusedPane::Left {
                    if self.speakers.len() > 0 && self.selected_speaker < self.speakers.len() - 1 {
                        self.selected_speaker = self.selected_speaker + 1;
                    }
                } else if self.available_voices.len() > 0 && self.selected_voice
                    < self.available_voices.len() - 1 {
                    self.selected_voice = self.selected_voice + 1;
                }
            },
            KeyCode::Left => {
                self.focused_pane = FocusedPane::Left;
            },
            KeyCode::Right => {
                self.focused_pane = FocusedPane::Right;
            },
            KeyCode::Enter => {
                if self.focused_pane == FocusedPane::Right && self.selected_voice
                    < self.available_voices.len() && self.selected_speaker < self.speakers.len() {
                    let voice = self.available_voices[self.selected_voice].clone();
                    let id = self.speakers[self.selected_speaker].speaker_id;
                    self.speakers.set(
                        self.selected_speaker,
                        SpeakerVoice { speaker_id: id, voice_name: Some(voice) },
                    );
                }
            },
            KeyCode::Esc => {
                self.state = PodcastState::SpeakerCountSelection;
            },
            _ => {},
        }
    }
}

} // verus!
