//! The graphical front end's keyboard, frame by frame: while the settings
//! pop-up is open the first key it knows goes to it; while searching, typed
//! text goes to the query and the first steering key ends the frame's input;
//! otherwise every pressed key runs its command, in a fixed order.

use vstd::prelude::*;
use crate::settings::SettingsKey;

verus! {

/// A key as the toolkit reports it.
#[derive(Clone, Copy, PartialEq, Eq, Structural, Debug)]
pub enum GuiKey {
    Escape,
    Enter,
    Backspace,
    Tab,
    Up,
    Down,
    Left,
    Right,
    H,
    J,
    K,
    L,
    Other,
}

/// An input event of one frame.
pub enum GuiEvent {
    /// Typed text.
    Text(String),
    /// Text committed by an input method.
    Commit(String),
    /// A key went down; `plain` when no modifier was held.
    Key { key: GuiKey, plain: bool },
}

/// Whether `c` is a control character (Unicode category Cc).
pub open spec fn control_char(c: char) -> bool {
    (c as u32) <= 0x1f || (0x7f <= (c as u32) && (c as u32) <= 0x9f)
}

/// Whether `c` is a control character; see [`control_char`].
pub fn is_control(c: char) -> (r: bool)
    ensures
        r == control_char(c),
{
    let v = c as u32;
    v <= 0x1f || (0x7f <= v && v <= 0x9f)
}

/// What the search box does with the frame's input.
#[derive(Clone, Copy, PartialEq, Eq, Structural, Debug)]
pub enum SearchCommand {
    Input(char),
    Exit,
    Confirm,
    Backspace,
    Prev,
    Next,
}

/// The command of a key in the search box, if it steers it.
pub open spec fn search_key(key: GuiKey, plain: bool) -> Option<SearchCommand> {
    match key {
        GuiKey::Escape => Some(SearchCommand::Exit),
        GuiKey::Enter => Some(SearchCommand::Confirm),
        GuiKey::Backspace => Some(SearchCommand::Backspace),
        GuiKey::K | GuiKey::Up => if plain { Some(SearchCommand::Prev) } else { None },
        GuiKey::J | GuiKey::Down => if plain { Some(SearchCommand::Next) } else { None },
        _ => None,
    }
}

/// The command that types `c`.
pub open spec fn input_of(c: char) -> SearchCommand {
    SearchCommand::Input(c)
}

/// The characters typed, control characters left out.
pub open spec fn typed(t: Seq<char>) -> Seq<SearchCommand>
    decreases t.len(),
{
    if t.len() == 0 {
        Seq::empty()
    } else if control_char(t[0]) {
        typed(t.drop_first())
    } else {
        seq![input_of(t[0])] + typed(t.drop_first())
    }
}

/// Every character committed, as typed input.
pub open spec fn committed(t: Seq<char>) -> Seq<SearchCommand> {
    Seq::new(t.len(), |i: int| input_of(t[i]))
}

/// The search box's commands for the events from `i` on: text is typed,
/// committed text is added, and the first steering key ends the frame.
pub open spec fn search_cmds(ev: Seq<GuiEvent>, i: int) -> Seq<SearchCommand>
    decreases ev.len() - i,
{
    if i < 0 || i >= ev.len() {
        Seq::empty()
    } else {
        match ev[i] {
            GuiEvent::Text(t) => typed(t@) + search_cmds(ev, i + 1),
            GuiEvent::Commit(t) => committed(t@) + search_cmds(ev, i + 1),
            GuiEvent::Key { key, plain } => match search_key(key, plain) {
                Some(c) => seq![c],
                None => search_cmds(ev, i + 1),
            },
        }
    }
}

fn key_command(key: GuiKey, plain: bool) -> (r: Option<SearchCommand>)
    ensures
        r == search_key(key, plain),
{
    match key {
        GuiKey::Escape => Some(SearchCommand::Exit),
        GuiKey::Enter => Some(SearchCommand::Confirm),
        GuiKey::Backspace => Some(SearchCommand::Backspace),
        GuiKey::K | GuiKey::Up => if plain { Some(SearchCommand::Prev) } else { None },
        GuiKey::J | GuiKey::Down => if plain { Some(SearchCommand::Next) } else { None },
        _ => None,
    }
}

proof fn lemma_typed_push(t: Seq<char>, c: char)
    ensures
        typed(t.push(c)) == typed(t) + if control_char(c) { Seq::empty() } else { seq![input_of(c)] },
    decreases t.len(),
{
    let tp = t.push(c);
    let tail: Seq<SearchCommand> = if control_char(c) { Seq::empty() } else { seq![input_of(c)] };
    assert(tp.len() > 0);
    if t.len() == 0 {
        assert(tp[0] == c);
        assert(tp.drop_first() =~= Seq::<char>::empty());
        assert(typed(Seq::<char>::empty()) == Seq::<SearchCommand>::empty());
        assert(typed(t) == Seq::<SearchCommand>::empty());
        if control_char(c) {
            assert(typed(tp) == typed(tp.drop_first()));
        } else {
            assert(typed(tp) == seq![input_of(c)] + typed(tp.drop_first()));
        }
        assert(typed(tp) =~= typed(t) + tail);
    } else {
        lemma_typed_push(t.drop_first(), c);
        assert(tp[0] == t[0]);
        assert(tp.drop_first() =~= t.drop_first().push(c));
        if control_char(t[0]) {
            assert(typed(tp) == typed(tp.drop_first()));
            assert(typed(t) == typed(t.drop_first()));
        } else {
            let h = seq![input_of(t[0])];
            assert(typed(tp) == h + typed(tp.drop_first()));
            assert(typed(t) == h + typed(t.drop_first()));
            assert(h + (typed(t.drop_first()) + tail) =~= (h + typed(t.drop_first())) + tail);
        }
    }
}

fn push_typed(out: &mut Vec<SearchCommand>, t: &str)
    ensures
        final(out)@ == old(out)@ + typed(t@),
{
    let n = t.unicode_len();
    let mut i: usize = 0;
    assert(typed(t@.take(0)) =~= Seq::<SearchCommand>::empty()) by {
        assert(t@.take(0) =~= Seq::<char>::empty());
    }
    assert(out@ =~= old(out)@ + typed(t@.take(0)));
    while i < n
        invariant
            i <= n,
            n == t@.len(),
            out@ == old(out)@ + typed(t@.take(i as int)),
        decreases n - i,
    {
        let c = t.get_char(i);
        proof {
            lemma_typed_push(t@.take(i as int), c);
            assert(t@.take(i + 1) =~= t@.take(i as int).push(c));
        }
        if !is_control(c) {
            out.push(SearchCommand::Input(c));
        }
        i = i + 1;
        assert(out@ =~= old(out)@ + typed(t@.take(i as int)));
    }
    assert(t@.take(n as int) =~= t@);
}

fn push_committed(out: &mut Vec<SearchCommand>, t: &str)
    ensures
        final(out)@ == old(out)@ + committed(t@),
{
    let n = t.unicode_len();
    let mut i: usize = 0;
    assert(committed(t@.take(0)) =~= Seq::<SearchCommand>::empty());
    assert(out@ =~= old(out)@ + committed(t@.take(0)));
    while i < n
        invariant
            i <= n,
            n == t@.len(),
            out@ == old(out)@ + committed(t@.take(i as int)),
        decreases n - i,
    {
        let c = t.get_char(i);
        assert(c == t@[i as int]);
        assert(committed(t@.take(i + 1)) =~= committed(t@.take(i as int)).push(input_of(c)));
        out.push(SearchCommand::Input(c));
        i = i + 1;
        assert(out@ =~= old(out)@ + committed(t@.take(i as int)));
    }
    assert(t@.take(n as int) =~= t@);
}

/// The search box's commands for a frame's events; see [`search_cmds`].
pub fn search_commands(events: &Vec<GuiEvent>) -> (r: Vec<SearchCommand>)
    ensures
        r@ == search_cmds(events@, 0),
{
    let mut r: Vec<SearchCommand> = Vec::new();
    let mut i: usize = 0;
    while i < events.len()
        invariant
            i <= events.len(),
            r@ + search_cmds(events@, i as int) == search_cmds(events@, 0),
        decreases events.len() - i,
    {
        let ghost before = r@;
        match &events[i] {
            GuiEvent::Text(t) => {
                push_typed(&mut r, t.as_str());
                assert(before + search_cmds(events@, i as int) == r@ + search_cmds(events@, i + 1));
            },
            GuiEvent::Commit(t) => {
                push_committed(&mut r, t.as_str());
                assert(before + search_cmds(events@, i as int) == r@ + search_cmds(events@, i + 1));
            },
            GuiEvent::Key { key, plain } => {
                match key_command(*key, *plain) {
                    Some(c) => {
                        r.push(c);
                        assert(r@ =~= before + seq![c]);
                        assert(search_cmds(events@, i as int) == seq![c]);
                        assert(r@ + Seq::<SearchCommand>::empty() =~= r@);
                        return r;
                    },
                    None => {},
                }
            },
        }
        i = i + 1;
    }
    assert(r@ + Seq::<SearchCommand>::empty() =~= r@);
    r
}

/// The settings pop-up's key for a key event, if it knows it.
pub open spec fn settings_key_of(key: GuiKey) -> Option<SettingsKey> {
    match key {
        GuiKey::Escape => Some(SettingsKey::Close),
        GuiKey::K | GuiKey::Up => Some(SettingsKey::Up),
        GuiKey::J | GuiKey::Down => Some(SettingsKey::Down),
        GuiKey::Tab => Some(SettingsKey::SwitchPane),
        GuiKey::H | GuiKey::Left => Some(SettingsKey::Left),
        GuiKey::L | GuiKey::Right => Some(SettingsKey::Right),
        _ => None,
    }
}

/// The first key of the events from `i` on that the settings pop-up knows.
pub open spec fn first_settings_key(ev: Seq<GuiEvent>, i: int) -> Option<SettingsKey>
    decreases ev.len() - i,
{
    if i < 0 || i >= ev.len() {
        None
    } else {
        match ev[i] {
            GuiEvent::Key { key, .. } => match settings_key_of(key) {
                Some(k) => Some(k),
                None => first_settings_key(ev, i + 1),
            },
            _ => first_settings_key(ev, i + 1),
        }
    }
}

fn settings_key_for(key: GuiKey) -> (r: Option<SettingsKey>)
    ensures
        r == settings_key_of(key),
{
    match key {
        GuiKey::Escape => Some(SettingsKey::Close),
        GuiKey::K | GuiKey::Up => Some(SettingsKey::Up),
        GuiKey::J | GuiKey::Down => Some(SettingsKey::Down),
        GuiKey::Tab => Some(SettingsKey::SwitchPane),
        GuiKey::H | GuiKey::Left => Some(SettingsKey::Left),
        GuiKey::L | GuiKey::Right => Some(SettingsKey::Right),
        _ => None,
    }
}

/// The key of a frame that goes to the open settings pop-up; see
/// [`first_settings_key`].
pub fn settings_input(events: &Vec<GuiEvent>) -> (r: Option<SettingsKey>)
    ensures
        r == first_settings_key(events@, 0),
{
    let mut i: usize = 0;
    while i < events.len()
        invariant
            i <= events.len(),
            first_settings_key(events@, i as int) == first_settings_key(events@, 0),
        decreases events.len() - i,
    {
        match &events[i] {
            GuiEvent::Key { key, .. } => {
                match settings_key_for(*key) {
                    Some(k) => return Some(k),
                    None => {},
                }
            },
            _ => {},
        }
        i = i + 1;
    }
    None
}

/// The keys pressed during a frame outside the pop-ups.
#[derive(Clone, Copy, PartialEq, Eq, Structural, Debug)]
pub struct PressedKeys {
    pub slash: bool,
    pub space: bool,
    pub x: bool,
    pub e: bool,
    pub o: bool,
    pub p: bool,
    pub v: bool,
    pub s: bool,
    pub a: bool,
    pub d: bool,
    /// K or the up arrow.
    pub up: bool,
    /// J or the down arrow.
    pub down: bool,
    /// H or the left arrow.
    pub left: bool,
    /// L or the right arrow.
    pub right: bool,
    /// Shift is held.
    pub shift: bool,
    /// Ctrl+T.
    pub ctrl_t: bool,
}

/// A command of the graphical front end.
#[derive(Clone, Copy, PartialEq, Eq, Structural, Debug)]
pub enum GuiCommand {
    EnterSearch,
    PlaySelected,
    TogglePause,
    CycleMode,
    VolumeDown,
    VolumeUp,
    ToggleLyrics,
    ToggleLove,
    PlayPrev,
    SeekBackward,
    PlayNext,
    SeekForward,
    PrevSong,
    NextSong,
    PrevAlbum,
    NextAlbum,
    ToggleSettings,
}

/// `c` when `b`, else nothing.
pub open spec fn cmd_if(b: bool, c: GuiCommand) -> Seq<GuiCommand> {
    if b { seq![c] } else { Seq::empty() }
}

/// The commands of a frame, in the order they run: search, play, pause,
/// mode, volume down and up, lyrics, love, then A and D (moving on with
/// Shift, seeking without), the four directions, and the settings.
pub open spec fn commands_for(k: PressedKeys) -> Seq<GuiCommand> {
    cmd_if(k.slash, GuiCommand::EnterSearch)
        + cmd_if(k.space, GuiCommand::PlaySelected)
        + cmd_if(k.x, GuiCommand::TogglePause)
        + cmd_if(k.e, GuiCommand::CycleMode)
        + cmd_if(k.o, GuiCommand::VolumeDown)
        + cmd_if(k.p, GuiCommand::VolumeUp)
        + cmd_if(k.v, GuiCommand::ToggleLyrics)
        + cmd_if(k.s, GuiCommand::ToggleLove)
        + cmd_if(k.a, if k.shift { GuiCommand::PlayPrev } else { GuiCommand::SeekBackward })
        + cmd_if(k.d, if k.shift { GuiCommand::PlayNext } else { GuiCommand::SeekForward })
        + cmd_if(k.up, GuiCommand::PrevSong)
        + cmd_if(k.down, GuiCommand::NextSong)
        + cmd_if(k.left, GuiCommand::PrevAlbum)
        + cmd_if(k.right, GuiCommand::NextAlbum)
        + cmd_if(k.ctrl_t, GuiCommand::ToggleSettings)
}

fn add_if(out: &mut Vec<GuiCommand>, b: bool, c: GuiCommand)
    ensures
        final(out)@ == old(out)@ + cmd_if(b, c),
{
    if b {
        out.push(c);
    }
    assert(final(out)@ =~= old(out)@ + cmd_if(b, c));
}

/// The commands of a frame; see [`commands_for`].
pub fn frame_commands(k: PressedKeys) -> (r: Vec<GuiCommand>)
    ensures
        r@ == commands_for(k),
{
    let mut r: Vec<GuiCommand> = Vec::new();
    add_if(&mut r, k.slash, GuiCommand::EnterSearch);
    add_if(&mut r, k.space, GuiCommand::PlaySelected);
    add_if(&mut r, k.x, GuiCommand::TogglePause);
    add_if(&mut r, k.e, GuiCommand::CycleMode);
    add_if(&mut r, k.o, GuiCommand::VolumeDown);
    add_if(&mut r, k.p, GuiCommand::VolumeUp);
    add_if(&mut r, k.v, GuiCommand::ToggleLyrics);
    add_if(&mut r, k.s, GuiCommand::ToggleLove);
    add_if(&mut r, k.a, if k.shift { GuiCommand::PlayPrev } else { GuiCommand::SeekBackward });
    add_if(&mut r, k.d, if k.shift { GuiCommand::PlayNext } else { GuiCommand::SeekForward });
    add_if(&mut r, k.up, GuiCommand::PrevSong);
    add_if(&mut r, k.down, GuiCommand::NextSong);
    add_if(&mut r, k.left, GuiCommand::PrevAlbum);
    add_if(&mut r, k.right, GuiCommand::NextAlbum);
    add_if(&mut r, k.ctrl_t, GuiCommand::ToggleSettings);
    assert(r@ =~= commands_for(k));
    r
}

} // verus!
