//! The graphical front end's state: the engine, the highlighted row and the
//! help and lyrics panels. Unlike the terminal front end it always plays from
//! the shown list: the album's songs, or the loved songs in the loved view.

use vstd::prelude::*;
use crate::kernel::{
    Engine, EffectKind, FrameInput, LovedEntry, LovedEntryView, PlayMode, Playback, album_stepped,
    asked, is_love, love_flipped, loved_map, loved_views, lowered, mode_cycled, played_at, raised,
    random_in, update_trace,
};
use crate::tui::{is_random, wrap_next, wrap_prev};

verus! {

/// The graphical front end.
pub struct App {
    pub engine: Engine,
    pub show_help: bool,
    pub show_lyrics: bool,
    /// The highlighted row of the song list.
    pub selected_song: usize,
    /// Whether the list shows the loved songs.
    pub is_love_view: bool,
}

/// How many rows the shown list has: the loved songs or the album's songs.
pub open spec fn shown_len(a: App) -> nat {
    if a.is_love_view {
        a.engine.loved.loved_list.len() as nat
    } else {
        a.engine.catalog.songs.len() as nat
    }
}

/// `b` is `a` with only the engine changed.
pub open spec fn engine_only(a: App, b: App) -> bool {
    b == (App { engine: b.engine, ..a })
}

/// `b` is `a` after the highlight moved down (`forward`) or up one row,
/// wrapping around; single mode restarts the song instead.
pub open spec fn row_moved(a: App, b: App, forward: bool) -> bool {
    if a.engine.play_mode == PlayMode::Single {
        engine_only(a, b) && asked(a.engine, b.engine, EffectKind::RestartSong)
    } else {
        let n = shown_len(a);
        if n > 0 {
            b == (App {
                selected_song: if forward { wrap_next(a.selected_song, n) } else { wrap_prev(a.selected_song, n) },
                ..a
            })
        } else {
            b == a
        }
    }
}

/// `b` is `a` after moving on (`forward`) or back and playing at once: the
/// single mode restarts the song; the other modes move the highlight (at
/// random in the random modes) and play the highlighted row.
pub open spec fn skipped(a: App, b: App, forward: bool) -> bool {
    if a.engine.play_mode == PlayMode::Single {
        engine_only(a, b) && asked(a.engine, b.engine, EffectKind::RestartSong)
    } else {
        let n = shown_len(a);
        if n > 0 {
            &&& b == (App { engine: b.engine, selected_song: b.selected_song, ..a })
            &&& if is_random(a.engine.play_mode) {
                b.selected_song < n
            } else if forward {
                b.selected_song == wrap_next(a.selected_song, n)
            } else {
                b.selected_song == wrap_prev(a.selected_song, n)
            }
            &&& played_at(a.engine, b.engine, b.selected_song)
        } else {
            b == a
        }
    }
}

/// The loved-song entry for the highlighted row, if the row exists.
pub open spec fn highlighted_entry(a: App) -> Option<LovedEntryView> {
    if a.is_love_view {
        if a.selected_song < a.engine.loved.loved_list.len() {
            Some(a.engine.loved.loved_list@[a.selected_song as int]@)
        } else {
            None
        }
    } else if a.selected_song < a.engine.catalog.songs.len() {
        let s = a.engine.catalog.songs@[a.selected_song as int]@;
        Some(LovedEntryView { cid: s.cid, name: s.name, artists: s.artistes })
    } else {
        None
    }
}

impl App {
    /// The front end's invariant: the engine's.
    pub open spec fn wf(&self) -> bool {
        self.engine.wf()
    }

    /// A front end over a fresh engine holding the loved songs read from
    /// disk, panels hidden, first row highlighted.
    pub fn new(loved_entries: Vec<LovedEntry>) -> (r: App)
        ensures
            r.wf(),
            r.engine.loved.map() == loved_map(loved_views(loved_entries@)),
            r.engine.catalog.albums.len() == 0,
            r.engine.play_mode == PlayMode::AlbumList,
            r.engine.outbox.len() == 0,
            !r.show_help && !r.show_lyrics && !r.is_love_view,
            r.selected_song == 0,
    {
        App {
            engine: Engine::new(loved_entries),
            show_help: false,
            show_lyrics: false,
            selected_song: 0,
            is_love_view: false,
        }
    }

    /// One frame: follows a change between the loved view and the others
    /// (going back to the first row), then runs the engine's frame.
    pub fn update(&mut self, input: FrameInput)
        requires
            old(self).wf(),
        ensures
            final(self).wf(),
            final(self).is_love_view == is_love(old(self).engine.play_mode),
            final(self).selected_song == if is_love(old(self).engine.play_mode) != old(self).is_love_view {
                0
            } else {
                old(self).selected_song
            },
            *final(self) == (App {
                engine: final(self).engine,
                is_love_view: final(self).is_love_view,
                selected_song: final(self).selected_song,
                ..*old(self)
            }),
            exists|st: Seq<Engine>| #[trigger] update_trace(old(self).engine, input, st, final(self).engine),
    {
        let now_love = match self.engine.play_mode {
            PlayMode::LoveList | PlayMode::LoveRandom => true,
            _ => false,
        };
        if now_love != self.is_love_view {
            self.is_love_view = now_love;
            self.selected_song = 0;
        }
        self.engine.update(input);
    }

    /// Plays the highlighted row.
    pub fn play_selected(&mut self)
        requires
            old(self).wf(),
        ensures
            final(self).wf(),
            engine_only(*old(self), *final(self)),
            played_at(old(self).engine, final(self).engine, old(self).selected_song),
    {
        self.engine.play_song_at(self.selected_song);
    }

    /// Asks the player to pause or resume.
    pub fn toggle_pause(&mut self)
        requires
            old(self).wf(),
        ensures
            final(self).wf(),
            engine_only(*old(self), *final(self)),
            asked(old(self).engine, final(self).engine, EffectKind::TogglePause),
    {
        self.engine.toggle_pause();
    }

    /// Next album, first row.
    pub fn next_album(&mut self)
        requires
            old(self).wf(),
        ensures
            final(self).wf(),
            *final(self) == (App { engine: final(self).engine, selected_song: 0, ..*old(self) }),
            album_stepped(old(self).engine, final(self).engine, true),
    {
        self.selected_song = 0;
        self.engine.next_album();
    }

    /// Previous album, first row.
    pub fn prev_album(&mut self)
        requires
            old(self).wf(),
        ensures
            final(self).wf(),
            *final(self) == (App { engine: final(self).engine, selected_song: 0, ..*old(self) }),
            album_stepped(old(self).engine, final(self).engine, false),
    {
        self.selected_song = 0;
        self.engine.prev_album();
    }

    fn song_count(&self) -> (r: usize)
        ensures
            r == shown_len(*self),
    {
        if self.is_love_view {
            self.engine.loved.loved_list.len()
        } else {
            self.engine.catalog.songs.len()
        }
    }

    /// Highlights the next row, wrapping around; restarts the song in single
    /// mode.
    pub fn next_song(&mut self)
        requires
            old(self).wf(),
            old(self).selected_song < usize::MAX,
        ensures
            final(self).wf(),
            row_moved(*old(self), *final(self), true),
    {
        if self.engine.play_mode == PlayMode::Single {
            self.engine.restart_song();
            return;
        }
        let len = self.song_count();
        if len > 0 {
            self.selected_song = (self.selected_song + 1) % len;
        }
    }

    /// Highlights the previous row, wrapping around; restarts the song in
    /// single mode.
    pub fn prev_song(&mut self)
        requires
            old(self).wf(),
        ensures
            final(self).wf(),
            row_moved(*old(self), *final(self), false),
    {
        if self.engine.play_mode == PlayMode::Single {
            self.engine.restart_song();
            return;
        }
        let len = self.song_count();
        if len > 0 {
            self.selected_song = match self.selected_song.checked_sub(1) {
                Some(v) => v,
                None => len - 1,
            };
        }
    }

    /// Moves back and plays at once (a random row in the random modes, the
    /// same song again in single mode).
    pub fn play_prev(&mut self)
        requires
            old(self).wf(),
        ensures
            final(self).wf(),
            skipped(*old(self), *final(self), false),
    {
        self.skip(false);
    }

    /// Moves on and plays at once (a random row in the random modes, the
    /// same song again in single mode).
    pub fn play_next(&mut self)
        requires
            old(self).wf(),
            old(self).selected_song < usize::MAX,
        ensures
            final(self).wf(),
            skipped(*old(self), *final(self), true),
    {
        self.skip(true);
    }

    fn skip(&mut self, forward: bool)
        requires
            old(self).wf(),
            forward ==> old(self).selected_song < usize::MAX,
        ensures
            final(self).wf(),
            skipped(*old(self), *final(self), forward),
    {
        let rand = match self.engine.play_mode {
            PlayMode::AlbumRandom | PlayMode::GlobalRandom | PlayMode::LoveRandom => true,
            _ => false,
        };
        if self.engine.play_mode == PlayMode::Single {
            self.engine.restart_song();
            return;
        }
        let len = self.song_count();
        if len > 0 {
            if rand {
                self.selected_song = random_in(0, len - 1);
            } else if forward {
                self.selected_song = (self.selected_song + 1) % len;
            } else {
                self.selected_song = match self.selected_song.checked_sub(1) {
                    Some(v) => v,
                    None => len - 1,
                };
            }
            self.play_selected();
        }
    }

    /// Next play mode.
    pub fn cycle_mode(&mut self)
        requires
            old(self).wf(),
        ensures
            final(self).wf(),
            engine_only(*old(self), *final(self)),
            mode_cycled(old(self).engine, final(self).engine),
    {
        self.engine.cycle_mode();
    }

    /// Volume up by 5, at most 100.
    pub fn volume_up(&mut self)
        requires
            old(self).wf(),
        ensures
            final(self).wf(),
            engine_only(*old(self), *final(self)),
            final(self).engine == (Engine {
                now: Playback { volume: raised(old(self).engine.now.volume), ..old(self).engine.now },
                outbox: final(self).engine.outbox,
                ..old(self).engine
            }),
            final(self).engine.effects() == old(self).engine.effects().push((EffectKind::SetVolume, Seq::empty())),
    {
        self.engine.volume_up();
    }

    /// Volume down by 5, at least 0.
    pub fn volume_down(&mut self)
        requires
            old(self).wf(),
        ensures
            final(self).wf(),
            engine_only(*old(self), *final(self)),
            final(self).engine == (Engine {
                now: Playback { volume: lowered(old(self).engine.now.volume), ..old(self).engine.now },
                outbox: final(self).engine.outbox,
                ..old(self).engine
            }),
            final(self).engine.effects() == old(self).engine.effects().push((EffectKind::SetVolume, Seq::empty())),
    {
        self.engine.volume_down();
    }

    /// Asks for a seek forward by a twentieth of the song.
    pub fn seek_forward(&mut self)
        requires
            old(self).wf(),
        ensures
            final(self).wf(),
            engine_only(*old(self), *final(self)),
            asked(old(self).engine, final(self).engine, EffectKind::SeekForward),
    {
        self.engine.seek_forward();
    }

    /// Asks for a seek backward by a twentieth of the song.
    pub fn seek_backward(&mut self)
        requires
            old(self).wf(),
        ensures
            final(self).wf(),
            engine_only(*old(self), *final(self)),
            asked(old(self).engine, final(self).engine, EffectKind::SeekBackward),
    {
        self.engine.seek_backward();
    }

    /// Shows or hides the help panel.
    pub fn toggle_help(&mut self)
        ensures
            *final(self) == (App { show_help: !old(self).show_help, ..*old(self) }),
    {
        self.show_help = !self.show_help;
    }

    /// Shows or hides the lyrics view.
    pub fn toggle_lyrics(&mut self)
        ensures
            *final(self) == (App { show_lyrics: !old(self).show_lyrics, ..*old(self) }),
    {
        self.show_lyrics = !self.show_lyrics;
    }

    /// Loves the highlighted song, or stops loving it; a row past the end of
    /// the list changes nothing.
    pub fn toggle_love(&mut self)
        requires
            old(self).wf(),
        ensures
            final(self).wf(),
            engine_only(*old(self), *final(self)),
            match highlighted_entry(*old(self)) {
                Some(e) => love_flipped(old(self).engine, final(self).engine, e.cid, e.name, e.artists),
                None => *final(self) == *old(self),
            },
    {
        if self.is_love_view {
            if self.selected_song < self.engine.loved.loved_list.len() {
                let e = self.engine.loved.loved_list[self.selected_song].clone();
                self.engine.toggle_love(e.cid.as_str(), e.name.as_str(), &e.artists);
            }
        } else if self.selected_song < self.engine.catalog.songs.len() {
            let s = self.engine.catalog.songs[self.selected_song].clone();
            self.engine.toggle_love(s.cid.as_str(), s.name.as_str(), &s.artistes);
        }
    }
}

} // verus!
