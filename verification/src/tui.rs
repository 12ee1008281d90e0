//! The terminal front end's state: the engine, the highlighted row, the help
//! and lyrics panels, and the search box with its two-step confirmation. Keys
//! arrive as plain values and are mapped to the front end's commands.

use vstd::prelude::*;
use crate::kernel::{
    Engine, EffectKind, FrameInput, LovedEntry, LovedEntryView, PlayMode, GlobalQueue,
    album_keys, album_stepped, all_songs_asked, asked, first_pos, global_step_via, is_global,
    is_love, jumped_to, love_flipped, loved_map, loved_views, mode_cycled, played_at, random_in,
    search_hits, song_keys, update_trace, lowered, raised, Playback,
};
use crate::text::{lowercase, push_char, without_last};
use crate::types::{Song, SongView, song_views};

verus! {

/// The terminal front end.
pub struct App {
    pub engine: Engine,
    pub show_help: bool,
    pub show_lyrics: bool,
    /// The highlighted row of the song list.
    pub selected_song: usize,
    /// Whether the list shows the loved songs.
    pub is_love_view: bool,
    pub search_mode: bool,
    pub search_query: String,
    pub search_results: Vec<Song>,
    pub search_index: usize,
    /// Whether the query was completed from a result by a first Enter.
    pub search_confirmed: bool,
}

/// How many rows the shown list has: the loved songs, the global queue or
/// the album's songs.
pub open spec fn listed_len(a: App) -> nat {
    if a.is_love_view {
        a.engine.loved.loved_list.len() as nat
    } else if is_global(a.engine.play_mode) {
        a.engine.queue.global_playlist.len() as nat
    } else {
        a.engine.catalog.songs.len() as nat
    }
}

/// Whether the play mode picks songs at random.
pub open spec fn is_random(m: PlayMode) -> bool {
    m == PlayMode::AlbumRandom || m == PlayMode::GlobalRandom || m == PlayMode::LoveRandom
}

/// The row below `i` in a list of `n` rows, wrapping around.
pub open spec fn wrap_next(i: usize, n: nat) -> usize {
    ((i + 1) % (n as int)) as usize
}

/// The row above `i` in a list of `n` rows: one less, or the last row from
/// the first.
pub open spec fn wrap_prev(i: usize, n: nat) -> usize {
    if i >= 1 {
        (i - 1) as usize
    } else {
        (n - 1) as usize
    }
}

/// The search results for query `q`: none for an empty query, else the hits
/// of the full song list.
pub open spec fn results_for(e: Engine, q: Seq<char>) -> Seq<SongView> {
    if q.len() == 0 {
        Seq::empty()
    } else {
        search_hits(e.catalog.albums@, song_views(e.queue.all_songs@), lowercase(q))
    }
}

/// Whether jumping to the song `cid` finds both the song and its album.
pub open spec fn jump_target_known(e: Engine, cid: Seq<char>) -> bool {
    match first_pos(song_keys(e.queue.all_songs@), cid) {
        Some(i) => first_pos(album_keys(e.catalog.albums@), e.queue.all_songs@[i].album_cid@) is Some,
        None => false,
    }
}

/// `b` is `a` with only the engine changed.
pub open spec fn engine_only(a: App, b: App) -> bool {
    b == (App { engine: b.engine, ..a })
}

/// `b` is `a` with the search box closed and emptied.
pub open spec fn search_closed(a: App, b: App) -> bool {
    &&& b == (App {
        search_mode: false,
        search_query: b.search_query,
        search_results: b.search_results,
        search_index: 0,
        search_confirmed: false,
        ..a
    })
    &&& b.search_query@.len() == 0
    &&& b.search_results.len() == 0
}

/// `b` is `a` after the results were recomputed for the query of `b`, the
/// first result highlighted.
pub open spec fn results_refreshed(a: App, b: App) -> bool {
    &&& b == (App { search_results: b.search_results, search_index: 0, search_query: b.search_query, ..a })
    &&& song_views(b.search_results@) == results_for(a.engine, b.search_query@)
}

/// `b` is `a` after jumping to the album of the highlighted result: when the
/// jump finds its target, the highlight goes to the song the engine marks as
/// current (or the first row) and the search box closes; otherwise nothing
/// changes.
pub open spec fn jumped(a: App, b: App) -> bool {
    if a.search_index < a.search_results.len() {
        let cid = a.search_results@[a.search_index as int].cid@;
        &&& jumped_to(a.engine, b.engine, cid, jump_target_known(a.engine, cid))
        &&& if jump_target_known(a.engine, cid) {
            search_closed(
                App {
                    engine: b.engine,
                    selected_song: match b.engine.now.current_song_index {
                        Some(i) => i,
                        None => 0,
                    },
                    ..a
                },
                b,
            )
        } else {
            b == a
        }
    } else {
        b == a
    }
}

/// `b` is `a` after the highlight moved down (`forward`) or up one row.
/// Single mode restarts the song instead; the global modes move the queue
/// position without playing.
pub open spec fn row_moved(a: App, b: App, forward: bool) -> bool {
    if a.engine.play_mode == PlayMode::Single {
        engine_only(a, b) && asked(a.engine, b.engine, EffectKind::RestartSong)
    } else if is_global(a.engine.play_mode) {
        let n = a.engine.queue.global_playlist.len() as nat;
        let gi = a.engine.queue.global_index;
        if n > 0 {
            b == (App {
                engine: Engine {
                    queue: GlobalQueue {
                        global_index: if forward { wrap_next(gi, n) } else { wrap_prev(gi, n) },
                        ..a.engine.queue
                    },
                    ..a.engine
                },
                ..a
            })
        } else {
            b == a
        }
    } else {
        let n = listed_len(a);
        if n > 0 {
            b == (App {
                selected_song: if forward { wrap_next(a.selected_song, n) } else { wrap_prev(a.selected_song, n) },
                ..a
            })
        } else {
            b == a
        }
    }
}

/// `b` is `a` after moving on (`forward`) or back and playing at once: the
/// single mode restarts the song, the global modes step through the queue,
/// and the others move the highlight (at random in the random modes) and play
/// the highlighted row.
pub open spec fn skipped(a: App, b: App, forward: bool) -> bool {
    if a.engine.play_mode == PlayMode::Single {
        engine_only(a, b) && asked(a.engine, b.engine, EffectKind::RestartSong)
    } else if is_global(a.engine.play_mode) {
        &&& engine_only(a, b)
        &&& exists|q: GlobalQueue| #[trigger] global_step_via(a.engine, q, b.engine, forward)
    } else {
        let n = listed_len(a);
        if n > 0 {
            &&& b == (App { engine: b.engine, selected_song: b.selected_song, ..a })
            &&& if is_random(a.engine.play_mode) {
                b.selected_song < n
            } else if forward {
                b.selected_song == wrap_next(a.selected_song, n)
            } else {
                b.selected_song == wrap_prev(a.selected_song, n)
            }
            &&& played_at(a.engine, b.engine, b.selected_song)
        } else {
            b == a
        }
    }
}

/// The loved-song entry for the highlighted row, if the row exists: taken
/// from the loved list in the loved view, else from the album's songs.
pub open spec fn highlighted_entry(a: App) -> Option<LovedEntryView> {
    if a.is_love_view {
        if a.selected_song < a.engine.loved.loved_list.len() {
            Some(a.engine.loved.loved_list@[a.selected_song as int]@)
        } else {
            None
        }
    } else if a.selected_song < a.engine.catalog.songs.len() {
        let s = a.engine.catalog.songs@[a.selected_song as int]@;
        Some(LovedEntryView { cid: s.cid, name: s.name, artists: s.artistes })
    } else {
        None
    }
}

/// `b` is `a` after the first Enter on a result or the second: the first
/// completes the query from the highlighted result and recomputes the
/// results, jumping at once when a single result is left; the second jumps.
pub open spec fn confirmed(a: App, b: App) -> bool {
    if a.search_results.len() == 0 {
        b == a
    } else if !a.search_confirmed {
        if a.search_index < a.search_results.len() {
            let name = a.search_results@[a.search_index as int].name@;
            exists|mid: App| {
                &&& #[trigger] results_refreshed(App { search_confirmed: true, ..a }, mid)
                &&& mid.search_query@ == name
                &&& if mid.search_results.len() == 1 { jumped(mid, b) } else { b == mid }
            }
        } else {
            b == a
        }
    } else {
        jumped(a, b)
    }
}

impl App {
    /// The front end's invariant: the engine's.
    pub open spec fn wf(&self) -> bool {
        self.engine.wf()
    }

    /// A front end over a fresh engine holding the loved songs read from
    /// disk: album list, first row, panels and search closed.
    pub fn new(loved_entries: Vec<LovedEntry>) -> (r: App)
        ensures
            r.wf(),
            r.engine.loved.map() == loved_map(loved_views(loved_entries@)),
            r.engine.catalog.albums.len() == 0,
            r.engine.play_mode == PlayMode::AlbumList,
            r.engine.now.volume == 50,
            !r.engine.now.playing,
            r.engine.outbox.len() == 0,
            !r.show_help && !r.show_lyrics && !r.is_love_view,
            r.selected_song == 0,
            !r.search_mode && !r.search_confirmed,
            r.search_query@.len() == 0,
            r.search_results.len() == 0,
            r.search_index == 0,
    {
        App {
            engine: Engine::new(loved_entries),
            show_help: false,
            show_lyrics: false,
            selected_song: 0,
            is_love_view: false,
            search_mode: false,
            search_query: String::new(),
            search_results: Vec::new(),
            search_index: 0,
            search_confirmed: false,
        }
    }

    /// One frame: follows a change between the loved view and the others
    /// (going back to the first row), then runs the engine's frame.
    pub fn update(&mut self, input: FrameInput)
        requires
            old(self).wf(),
        ensures
            final(self).wf(),
            final(self).is_love_view == is_love(old(self).engine.play_mode),
            final(self).selected_song == if is_love(old(self).engine.play_mode) != old(self).is_love_view {
                0
            } else {
                old(self).selected_song
            },
            *final(self) == (App {
                engine: final(self).engine,
                is_love_view: final(self).is_love_view,
                selected_song: final(self).selected_song,
                ..*old(self)
            }),
            exists|st: Seq<Engine>| #[trigger] update_trace(old(self).engine, input, st, final(self).engine),
    {
        let now_love = match self.engine.play_mode {
            PlayMode::LoveList | PlayMode::LoveRandom => true,
            _ => false,
        };
        if now_love != self.is_love_view {
            self.is_love_view = now_love;
            self.selected_song = 0;
        }
        self.engine.update(input);
    }

    /// Plays the highlighted row, or the queue position in a global mode.
    pub fn play_selected(&mut self)
        requires
            old(self).wf(),
        ensures
            final(self).wf(),
            engine_only(*old(self), *final(self)),
            played_at(
                old(self).engine,
                final(self).engine,
                if is_global(old(self).engine.play_mode) {
                    old(self).engine.queue.global_index
                } else {
                    old(self).selected_song
                },
            ),
    {
        let index = if self.engine.is_global_mode() {
            self.engine.queue.global_index
        } else {
            self.selected_song
        };
        self.engine.play_song_at(index);
    }

    /// Asks the player to pause or resume.
    pub fn toggle_pause(&mut self)
        requires
            old(self).wf(),
        ensures
            final(self).wf(),
            engine_only(*old(self), *final(self)),
            asked(old(self).engine, final(self).engine, EffectKind::TogglePause),
    {
        self.engine.toggle_pause();
    }

    /// Next album, first row.
    pub fn next_album(&mut self)
        requires
            old(self).wf(),
        ensures
            final(self).wf(),
            *final(self) == (App { engine: final(self).engine, selected_song: 0, ..*old(self) }),
            album_stepped(old(self).engine, final(self).engine, true),
    {
        self.selected_song = 0;
        self.engine.next_album();
    }

    /// Previous album, first row.
    pub fn prev_album(&mut self)
        requires
            old(self).wf(),
        ensures
            final(self).wf(),
            *final(self) == (App { engine: final(self).engine, selected_song: 0, ..*old(self) }),
            album_stepped(old(self).engine, final(self).engine, false),
    {
        self.selected_song = 0;
        self.engine.prev_album();
    }

    fn song_count(&self) -> (r: usize)
        ensures
            r == listed_len(*self),
    {
        if self.is_love_view {
            self.engine.loved.loved_list.len()
        } else if self.engine.is_global_mode() {
            self.engine.queue.global_playlist.len()
        } else {
            self.engine.catalog.songs.len()
        }
    }

    /// Highlights the next row, wrapping around; restarts the song in single
    /// mode; moves the queue position in a global mode.
    pub fn next_song(&mut self)
        requires
            old(self).wf(),
            old(self).selected_song < usize::MAX,
        ensures
            final(self).wf(),
            row_moved(*old(self), *final(self), true),
    {
        if self.engine.play_mode == PlayMode::Single {
            self.engine.restart_song();
            return;
        }
        if self.engine.is_global_mode() {
            let len = self.engine.queue.global_playlist.len();
            if len > 0 {
                self.engine.queue.global_index = (self.engine.queue.global_index + 1) % len;
            }
            return;
        }
        let len = self.song_count();
        if len > 0 {
            self.selected_song = (self.selected_song + 1) % len;
        }
    }

    /// Highlights the previous row, wrapping around; restarts the song in
    /// single mode; moves the queue position in a global mode.
    pub fn prev_song(&mut self)
        requires
            old(self).wf(),
        ensures
            final(self).wf(),
            row_moved(*old(self), *final(self), false),
    {
        if self.engine.play_mode == PlayMode::Single {
            self.engine.restart_song();
            return;
        }
        if self.engine.is_global_mode() {
            let len = self.engine.queue.global_playlist.len();
            if len > 0 {
                self.engine.queue.global_index = match self.engine.queue.global_index.checked_sub(1) {
                    Some(v) => v,
                    None => len - 1,
                };
            }
            return;
        }
        let len = self.song_count();
        if len > 0 {
            self.selected_song = match self.selected_song.checked_sub(1) {
                Some(v) => v,
                None => len - 1,
            };
        }
    }

    /// Moves back and plays at once: the previous row, a random row in the
    /// random modes, the previous queue entry in a global mode, or the same
    /// song again in single mode.
    pub fn play_prev(&mut self)
        requires
            old(self).wf(),
        ensures
            final(self).wf(),
            skipped(*old(self), *final(self), false),
    {
        self.skip(false);
    }

    /// Moves on and plays at once: the next row, a random row in the random
    /// modes, the next queue entry in a global mode, or the same song again
    /// in single mode.
    pub fn play_next(&mut self)
        requires
            old(self).wf(),
            old(self).selected_song < usize::MAX,
        ensures
            final(self).wf(),
            skipped(*old(self), *final(self), true),
    {
        self.skip(true);
    }

    fn skip(&mut self, forward: bool)
        requires
            old(self).wf(),
            forward ==> old(self).selected_song < usize::MAX,
        ensures
            final(self).wf(),
            skipped(*old(self), *final(self), forward),
    {
        let rand = match self.engine.play_mode {
            PlayMode::AlbumRandom | PlayMode::GlobalRandom | PlayMode::LoveRandom => true,
            _ => false,
        };
        if self.engine.play_mode == PlayMode::Single {
            self.engine.restart_song();
            return;
        }
        if self.engine.is_global_mode() {
            if forward {
                self.engine.play_next_global();
            } else {
                self.engine.play_prev_global();
            }
            return;
        }
        let len = self.song_count();
        if len > 0 {
            if rand {
                self.selected_song = random_in(0, len - 1);
            } else if forward {
                self.selected_song = (self.selected_song + 1) % len;
            } else {
                self.selected_song = match self.selected_song.checked_sub(1) {
                    Some(v) => v,
                    None => len - 1,
                };
            }
            let ghost mid = *self;
            self.play_selected();
            assert(mid.engine == old(self).engine);
        }
    }

    /// Next play mode.
    pub fn cycle_mode(&mut self)
        requires
            old(self).wf(),
        ensures
            final(self).wf(),
            engine_only(*old(self), *final(self)),
            mode_cycled(old(self).engine, final(self).engine),
    {
        self.engine.cycle_mode();
    }

    /// Volume up by 5, at most 100.
    pub fn volume_up(&mut self)
        requires
            old(self).wf(),
        ensures
            final(self).wf(),
            engine_only(*old(self), *final(self)),
            final(self).engine.now == (Playback { volume: raised(old(self).engine.now.volume), ..old(self).engine.now }),
            final(self).engine.effects() == old(self).engine.effects().push((EffectKind::SetVolume, Seq::empty())),
            final(self).engine == (Engine {
                now: final(self).engine.now,
                outbox: final(self).engine.outbox,
                ..old(self).engine
            }),
    {
        self.engine.volume_up();
    }

    /// Volume down by 5, at least 0.
    pub fn volume_down(&mut self)
        requires
            old(self).wf(),
        ensures
            final(self).wf(),
            engine_only(*old(self), *final(self)),
            final(self).engine.now == (Playback { volume: lowered(old(self).engine.now.volume), ..old(self).engine.now }),
            final(self).engine.effects() == old(self).engine.effects().push((EffectKind::SetVolume, Seq::empty())),
            final(self).engine == (Engine {
                now: final(self).engine.now,
                outbox: final(self).engine.outbox,
                ..old(self).engine
            }),
    {
        self.engine.volume_down();
    }

    /// Asks for a seek forward by a twentieth of the song.
    pub fn seek_forward(&mut self)
        requires
            old(self).wf(),
        ensures
            final(self).wf(),
            engine_only(*old(self), *final(self)),
            asked(old(self).engine, final(self).engine, EffectKind::SeekForward),
    {
        self.engine.seek_forward();
    }

    /// Asks for a seek backward by a twentieth of the song.
    pub fn seek_backward(&mut self)
        requires
            old(self).wf(),
        ensures
            final(self).wf(),
            engine_only(*old(self), *final(self)),
            asked(old(self).engine, final(self).engine, EffectKind::SeekBackward),
    {
        self.engine.seek_backward();
    }

    /// Shows or hides the help panel.
    pub fn toggle_help(&mut self)
        ensures
            *final(self) == (App { show_help: !old(self).show_help, ..*old(self) }),
    {
        self.show_help = !self.show_help;
    }

    /// Shows or hides the lyrics panel.
    pub fn toggle_lyrics(&mut self)
        ensures
            *final(self) == (App { show_lyrics: !old(self).show_lyrics, ..*old(self) }),
    {
        self.show_lyrics = !self.show_lyrics;
    }

    /// Loves the highlighted song, or stops loving it; a row past the end of
    /// the list changes nothing.
    pub fn toggle_love(&mut self)
        requires
            old(self).wf(),
        ensures
            final(self).wf(),
            engine_only(*old(self), *final(self)),
            match highlighted_entry(*old(self)) {
                Some(e) => love_flipped(old(self).engine, final(self).engine, e.cid, e.name, e.artists),
                None => *final(self) == *old(self),
            },
    {
        if self.is_love_view {
            if self.selected_song < self.engine.loved.loved_list.len() {
                let e = self.engine.loved.loved_list[self.selected_song].clone();
                proof {
                    assert(e@ == old(self).engine.loved.loved_list@[old(self).selected_song as int]@);
                }
                self.engine.toggle_love(e.cid.as_str(), e.name.as_str(), &e.artists);
            }
        } else if self.selected_song < self.engine.catalog.songs.len() {
            let s = self.engine.catalog.songs[self.selected_song].clone();
            proof {
                assert(s@ == old(self).engine.catalog.songs@[old(self).selected_song as int]@);
            }
            self.engine.toggle_love(s.cid.as_str(), s.name.as_str(), &s.artistes);
        }
    }

    /// Opens an empty search box and asks for the full song list.
    pub fn enter_search(&mut self)
        requires
            old(self).wf(),
        ensures
            final(self).wf(),
            *final(self) == (App {
                engine: final(self).engine,
                search_mode: true,
                search_query: final(self).search_query,
                search_results: final(self).search_results,
                search_index: 0,
                search_confirmed: false,
                ..*old(self)
            }),
            final(self).search_query@.len() == 0,
            final(self).search_results.len() == 0,
            all_songs_asked(old(self).engine, final(self).engine),
    {
        self.search_mode = true;
        self.search_query = String::new();
        self.search_results = Vec::new();
        self.search_index = 0;
        self.search_confirmed = false;
        self.engine.fetch_all_songs();
    }

    /// Closes and empties the search box.
    pub fn exit_search(&mut self)
        ensures
            search_closed(*old(self), *final(self)),
    {
        self.search_mode = false;
        self.search_query = String::new();
        self.search_results = Vec::new();
        self.search_index = 0;
        self.search_confirmed = false;
    }

    /// Adds a character to the query and searches again.
    pub fn search_input(&mut self, c: char)
        ensures
            results_refreshed(App { search_confirmed: false, ..*old(self) }, *final(self)),
            final(self).search_query@ == old(self).search_query@.push(c),
    {
        push_char(&mut self.search_query, c);
        self.search_confirmed = false;
        self.update_search_results();
    }

    /// Removes the query's last character, if any, and searches again.
    pub fn search_backspace(&mut self)
        ensures
            results_refreshed(App { search_confirmed: false, ..*old(self) }, *final(self)),
            final(self).search_query@ == if old(self).search_query@.len() > 0 {
                old(self).search_query@.drop_last()
            } else {
                old(self).search_query@
            },
    {
        self.search_query = without_last(&self.search_query);
        self.search_confirmed = false;
        self.update_search_results();
    }

    /// Highlights the previous result, wrapping around.
    pub fn search_prev(&mut self)
        ensures
            old(self).search_results.len() > 0 ==> *final(self) == (App {
                search_index: wrap_prev(old(self).search_index, old(self).search_results.len() as nat),
                ..*old(self)
            }),
            old(self).search_results.len() == 0 ==> *final(self) == *old(self),
    {
        if self.search_results.len() > 0 {
            self.search_index = match self.search_index.checked_sub(1) {
                Some(v) => v,
                None => self.search_results.len() - 1,
            };
        }
    }

    /// Highlights the next result, wrapping around.
    pub fn search_next(&mut self)
        requires
            old(self).search_index < usize::MAX,
        ensures
            old(self).search_results.len() > 0 ==> *final(self) == (App {
                search_index: wrap_next(old(self).search_index, old(self).search_results.len() as nat),
                ..*old(self)
            }),
            old(self).search_results.len() == 0 ==> *final(self) == *old(self),
    {
        if self.search_results.len() > 0 {
            self.search_index = (self.search_index + 1) % self.search_results.len();
        }
    }

    /// Enter in the search box: the first completes the query from the
    /// highlighted result (and jumps when one result is left), the second
    /// jumps to the result's album.
    pub fn search_confirm(&mut self)
        requires
            old(self).wf(),
        ensures
            final(self).wf(),
            confirmed(*old(self), *final(self)),
    {
        if self.search_results.len() == 0 {
            return;
        }
        if !self.search_confirmed {
            if self.search_index < self.search_results.len() {
                let name = self.search_results[self.search_index].name.clone();
                self.search_query = name;
                self.search_confirmed = true;
                let ghost pre = *self;
                self.update_search_results();
                let ghost mid = *self;
                assert(results_refreshed(App { search_confirmed: true, ..*old(self) }, mid)) by {
                    assert(pre == (App { search_query: pre.search_query, search_confirmed: true, ..*old(self) }));
                }
                if self.search_results.len() == 1 {
                    self.search_jump();
                }
            }
        } else {
            self.search_jump();
        }
    }

    fn search_jump(&mut self)
        requires
            old(self).wf(),
        ensures
            final(self).wf(),
            jumped(*old(self), *final(self)),
    {
        if self.search_index < self.search_results.len() {
            let cid = self.search_results[self.search_index].cid.clone();
            let ok = self.engine.jump_to_song(cid.as_str());
            if ok {
                self.selected_song = match self.engine.now.current_song_index {
                    Some(i) => i,
                    None => 0,
                };
                self.exit_search();
            }
        }
    }

    fn update_search_results(&mut self)
        ensures
            results_refreshed(*old(self), *final(self)),
            final(self).search_query == old(self).search_query,
    {
        self.search_results = self.engine.search_songs(self.search_query.as_str());
        self.search_index = 0;
        proof {
            if self.search_query@.len() == 0 {
                assert(song_views(self.search_results@) =~= Seq::<SongView>::empty());
            }
        }
    }
}

/// A key as the terminal reports it.
#[derive(Clone, Copy, PartialEq, Eq, Structural, Debug)]
pub enum KeyCode {
    Char(char),
    Enter,
    Esc,
    Backspace,
    Up,
    Down,
    Left,
    Right,
    Other,
}

/// A key press with its modifiers.
#[derive(Clone, Copy, PartialEq, Eq, Structural, Debug)]
pub struct Key {
    pub code: KeyCode,
    pub ctrl: bool,
    pub shift: bool,
}

/// What the front end does for a key.
#[derive(Clone, Copy, PartialEq, Eq, Structural, Debug)]
pub enum Command {
    Quit,
    Nothing,
    ExitSearch,
    SearchConfirm,
    SearchBackspace,
    SearchPrev,
    SearchNext,
    SearchInput(char),
    ToggleHelp,
    EnterSearch,
    PlaySelected,
    TogglePause,
    CycleMode,
    VolumeDown,
    VolumeUp,
    ToggleLyrics,
    ToggleLove,
    PlayPrev,
    SeekBackward,
    PlayNext,
    SeekForward,
    PrevAlbum,
    NextAlbum,
    PrevSong,
    NextSong,
}

/// The command for key `k`: in the search box every key edits or steers the
/// search; outside it, `q` quits, Ctrl+T toggles help, and the other keys
/// control playback.
pub open spec fn command_for(search_mode: bool, k: Key) -> Command {
    if search_mode {
        match k.code {
            KeyCode::Esc => Command::ExitSearch,
            KeyCode::Enter => Command::SearchConfirm,
            KeyCode::Backspace => Command::SearchBackspace,
            KeyCode::Up => if !k.ctrl { Command::SearchPrev } else { Command::Nothing },
            KeyCode::Down => if !k.ctrl { Command::SearchNext } else { Command::Nothing },
            KeyCode::Char(c) => if c == 'k' && !k.ctrl {
                Command::SearchPrev
            } else if c == 'j' && !k.ctrl {
                Command::SearchNext
            } else {
                Command::SearchInput(c)
            },
            _ => Command::Nothing,
        }
    } else if k.ctrl && k.code == KeyCode::Char('t') {
        Command::ToggleHelp
    } else {
        match k.code {
            KeyCode::Char(c) => if c == 'q' {
                Command::Quit
            } else if c == '/' {
                Command::EnterSearch
            } else if c == ' ' {
                Command::TogglePause
            } else if c == 'e' {
                Command::CycleMode
            } else if c == 'o' {
                Command::VolumeDown
            } else if c == 'p' {
                Command::VolumeUp
            } else if c == 'v' {
                Command::ToggleLyrics
            } else if c == 's' {
                Command::ToggleLove
            } else if c == 'a' || c == 'A' {
                if k.shift { Command::PlayPrev } else { Command::SeekBackward }
            } else if c == 'd' || c == 'D' {
                if k.shift { Command::PlayNext } else { Command::SeekForward }
            } else if c == 'h' {
                Command::PrevAlbum
            } else if c == 'l' {
                Command::NextAlbum
            } else if c == 'k' {
                Command::PrevSong
            } else if c == 'j' {
                Command::NextSong
            } else {
                Command::Nothing
            },
            KeyCode::Enter => Command::PlaySelected,
            KeyCode::Left => Command::PrevAlbum,
            KeyCode::Right => Command::NextAlbum,
            KeyCode::Up => Command::PrevSong,
            KeyCode::Down => Command::NextSong,
            _ => Command::Nothing,
        }
    }
}

/// Maps a key to the front end's command.
pub fn command_of(search_mode: bool, k: Key) -> (r: Command)
    ensures
        r == command_for(search_mode, k),
{
    if search_mode {
        match k.code {
            KeyCode::Esc => Command::ExitSearch,
            KeyCode::Enter => Command::SearchConfirm,
            KeyCode::Backspace => Command::SearchBackspace,
            KeyCode::Up => if !k.ctrl { Command::SearchPrev } else { Command::Nothing },
            KeyCode::Down => if !k.ctrl { Command::SearchNext } else { Command::Nothing },
            KeyCode::Char(c) => if c == 'k' && !k.ctrl {
                Command::SearchPrev
            } else if c == 'j' && !k.ctrl {
                Command::SearchNext
            } else {
                Command::SearchInput(c)
            },
            _ => Command::Nothing,
        }
    } else if k.ctrl && k.code == KeyCode::Char('t') {
        Command::ToggleHelp
    } else {
        match k.code {
            KeyCode::Char(c) => if c == 'q' {
                Command::Quit
            } else if c == '/' {
                Command::EnterSearch
            } else if c == ' ' {
                Command::TogglePause
            } else if c == 'e' {
                Command::CycleMode
            } else if c == 'o' {
                Command::VolumeDown
            } else if c == 'p' {
                Command::VolumeUp
            } else if c == 'v' {
                Command::ToggleLyrics
            } else if c == 's' {
                Command::ToggleLove
            } else if c == 'a' || c == 'A' {
                if k.shift { Command::PlayPrev } else { Command::SeekBackward }
            } else if c == 'd' || c == 'D' {
                if k.shift { Command::PlayNext } else { Command::SeekForward }
            } else if c == 'h' {
                Command::PrevAlbum
            } else if c == 'l' {
                Command::NextAlbum
            } else if c == 'k' {
                Command::PrevSong
            } else if c == 'j' {
                Command::NextSong
            } else {
                Command::Nothing
            },
            KeyCode::Enter => Command::PlaySelected,
            KeyCode::Left => Command::PrevAlbum,
            KeyCode::Right => Command::NextAlbum,
            KeyCode::Up => Command::PrevSong,
            KeyCode::Down => Command::NextSong,
            _ => Command::Nothing,
        }
    }
}

/// `b` is `a` after running command `c`, as each of the front end's
/// operations states it.
pub open spec fn ran(a: App, c: Command, b: App) -> bool {
    match c {
        Command::Quit | Command::Nothing => b == a,
        Command::ExitSearch => search_closed(a, b),
        Command::SearchConfirm => confirmed(a, b),
        Command::SearchBackspace => {
            &&& results_refreshed(App { search_confirmed: false, ..a }, b)
            &&& b.search_query@ == if a.search_query@.len() > 0 {
                a.search_query@.drop_last()
            } else {
                a.search_query@
            }
        },
        Command::SearchPrev => if a.search_results.len() > 0 {
            b == (App { search_index: wrap_prev(a.search_index, a.search_results.len() as nat), ..a })
        } else {
            b == a
        },
        Command::SearchNext => if a.search_results.len() > 0 {
            b == (App { search_index: wrap_next(a.search_index, a.search_results.len() as nat), ..a })
        } else {
            b == a
        },
        Command::SearchInput(ch) => {
            &&& results_refreshed(App { search_confirmed: false, ..a }, b)
            &&& b.search_query@ == a.search_query@.push(ch)
        },
        Command::ToggleHelp => b == (App { show_help: !a.show_help, ..a }),
        Command::EnterSearch => {
            &&& b == (App {
                engine: b.engine,
                search_mode: true,
                search_query: b.search_query,
                search_results: b.search_results,
                search_index: 0,
                search_confirmed: false,
                ..a
            })
            &&& b.search_query@.len() == 0
            &&& b.search_results.len() == 0
            &&& all_songs_asked(a.engine, b.engine)
        },
        Command::PlaySelected => {
            &&& engine_only(a, b)
            &&& played_at(
                a.engine,
                b.engine,
                if is_global(a.engine.play_mode) { a.engine.queue.global_index } else { a.selected_song },
            )
        },
        Command::TogglePause => engine_only(a, b) && asked(a.engine, b.engine, EffectKind::TogglePause),
        Command::CycleMode => engine_only(a, b) && mode_cycled(a.engine, b.engine),
        Command::VolumeDown => {
            &&& engine_only(a, b)
            &&& b.engine == (Engine {
                now: Playback { volume: lowered(a.engine.now.volume), ..a.engine.now },
                outbox: b.engine.outbox,
                ..a.engine
            })
            &&& b.engine.effects() == a.engine.effects().push((EffectKind::SetVolume, Seq::empty()))
        },
        Command::VolumeUp => {
            &&& engine_only(a, b)
            &&& b.engine == (Engine {
                now: Playback { volume: raised(a.engine.now.volume), ..a.engine.now },
                outbox: b.engine.outbox,
                ..a.engine
            })
            &&& b.engine.effects() == a.engine.effects().push((EffectKind::SetVolume, Seq::empty()))
        },
        Command::ToggleLyrics => b == (App { show_lyrics: !a.show_lyrics, ..a }),
        Command::ToggleLove => {
            &&& engine_only(a, b)
            &&& match highlighted_entry(a) {
                Some(e) => love_flipped(a.engine, b.engine, e.cid, e.name, e.artists),
                None => b == a,
            }
        },
        Command::PlayPrev => skipped(a, b, false),
        Command::SeekBackward => engine_only(a, b) && asked(a.engine, b.engine, EffectKind::SeekBackward),
        Command::PlayNext => skipped(a, b, true),
        Command::SeekForward => engine_only(a, b) && asked(a.engine, b.engine, EffectKind::SeekForward),
        Command::PrevAlbum => {
            &&& b == (App { engine: b.engine, selected_song: 0, ..a })
            &&& album_stepped(a.engine, b.engine, false)
        },
        Command::NextAlbum => {
            &&& b == (App { engine: b.engine, selected_song: 0, ..a })
            &&& album_stepped(a.engine, b.engine, true)
        },
        Command::PrevSong => row_moved(a, b, false),
        Command::NextSong => row_moved(a, b, true),
    }
}

/// Handles one key press; returns false when the key asks to quit.
pub fn handle_key(app: &mut App, key: Key) -> (r: bool)
    requires
        old(app).wf(),
        old(app).selected_song < usize::MAX,
        old(app).search_index < usize::MAX,
    ensures
        final(app).wf(),
        r == (command_for(old(app).search_mode, key) != Command::Quit),
        ran(*old(app), command_for(old(app).search_mode, key), *final(app)),
{
    let c = command_of(app.search_mode, key);
    match c {
        Command::Quit => return false,
        Command::Nothing => {},
        Command::ExitSearch => app.exit_search(),
        Command::SearchConfirm => app.search_confirm(),
        Command::SearchBackspace => app.search_backspace(),
        Command::SearchPrev => app.search_prev(),
        Command::SearchNext => app.search_next(),
        Command::SearchInput(ch) => app.search_input(ch),
        Command::ToggleHelp => app.toggle_help(),
        Command::EnterSearch => app.enter_search(),
        Command::PlaySelected => app.play_selected(),
        Command::TogglePause => app.toggle_pause(),
        Command::CycleMode => app.cycle_mode(),
        Command::VolumeDown => app.volume_down(),
        Command::VolumeUp => app.volume_up(),
        Command::ToggleLyrics => app.toggle_lyrics(),
        Command::ToggleLove => app.toggle_love(),
        Command::PlayPrev => app.play_prev(),
        Command::SeekBackward => app.seek_backward(),
        Command::PlayNext => app.play_next(),
        Command::SeekForward => app.seek_forward(),
        Command::PrevAlbum => app.prev_album(),
        Command::NextAlbum => app.next_album(),
        Command::PrevSong => app.prev_song(),
        Command::NextSong => app.next_song(),
    }
    true
}

/// Moving the highlight down and then up, or up and then down, returns to
/// the row one started from, and both moves stay within the list.
pub proof fn law_rows_round_trip(i: usize, n: nat)
    requires
        i < n,
        n <= usize::MAX,
    ensures
        wrap_prev(wrap_next(i, n), n) == i,
        wrap_next(wrap_prev(i, n), n) == i,
        wrap_next(i, n) < n,
        wrap_prev(i, n) < n,
{
    let t = n as int;
    if i + 1 < t {
        vstd::arithmetic::div_mod::lemma_fundamental_div_mod_converse(i + 1, t, 0, i + 1);
    } else {
        vstd::arithmetic::div_mod::lemma_fundamental_div_mod_converse(i + 1, t, 1, 0);
    }
    let p = wrap_prev(i, n) as int;
    if p + 1 < t {
        vstd::arithmetic::div_mod::lemma_fundamental_div_mod_converse(p + 1, t, 0, p + 1);
    } else {
        vstd::arithmetic::div_mod::lemma_fundamental_div_mod_converse(p + 1, t, 1, 0);
    }
}


/// The key `code` with no modifier, or with Shift.
pub open spec fn plain(code: KeyCode, shift: bool) -> Key {
    Key { code, ctrl: false, shift }
}

/// Whether a command is one that the search box gives.
pub open spec fn is_search_command(c: Command) -> bool {
    c is ExitSearch || c is SearchConfirm || c is SearchBackspace || c is SearchPrev || c is SearchNext
        || c is SearchInput
}

/// Whether some key gives command `c`, in or outside the search box.
pub open spec fn has_key(search_mode: bool, c: Command) -> bool {
    exists|k: Key| #[trigger] command_for(search_mode, k) == c
}

/// Every command of the terminal player has a key: outside the search box
/// each playback command (and quitting, help and opening the search) is
/// what some key gives, and inside it each search command, typing any
/// character included, is what some key gives.
pub proof fn law_every_command_has_a_key()
    ensures
        forall|c: Command| !is_search_command(c) ==> #[trigger] has_key(false, c),
        forall|c: Command| is_search_command(c) ==> #[trigger] has_key(true, c),
{
    assert forall|c: Command| !is_search_command(c) implies #[trigger] has_key(false, c) by {
        let k = match c {
            Command::Quit => plain(KeyCode::Char('q'), false),
            Command::ToggleHelp => Key { code: KeyCode::Char('t'), ctrl: true, shift: false },
            Command::EnterSearch => plain(KeyCode::Char('/'), false),
            Command::PlaySelected => plain(KeyCode::Enter, false),
            Command::TogglePause => plain(KeyCode::Char(' '), false),
            Command::CycleMode => plain(KeyCode::Char('e'), false),
            Command::VolumeDown => plain(KeyCode::Char('o'), false),
            Command::VolumeUp => plain(KeyCode::Char('p'), false),
            Command::ToggleLyrics => plain(KeyCode::Char('v'), false),
            Command::ToggleLove => plain(KeyCode::Char('s'), false),
            Command::PlayPrev => plain(KeyCode::Char('A'), true),
            Command::SeekBackward => plain(KeyCode::Char('a'), false),
            Command::PlayNext => plain(KeyCode::Char('D'), true),
            Command::SeekForward => plain(KeyCode::Char('d'), false),
            Command::PrevAlbum => plain(KeyCode::Char('h'), false),
            Command::NextAlbum => plain(KeyCode::Char('l'), false),
            Command::PrevSong => plain(KeyCode::Char('k'), false),
            Command::NextSong => plain(KeyCode::Char('j'), false),
            _ => plain(KeyCode::Other, false),
        };
        assert(command_for(false, k) == c);
    }
    assert forall|c: Command| is_search_command(c) implies #[trigger] has_key(true, c) by {
        let k = match c {
            Command::ExitSearch => plain(KeyCode::Esc, false),
            Command::SearchConfirm => plain(KeyCode::Enter, false),
            Command::SearchBackspace => plain(KeyCode::Backspace, false),
            Command::SearchPrev => plain(KeyCode::Up, false),
            Command::SearchNext => plain(KeyCode::Down, false),
            Command::SearchInput(ch) => Key { code: KeyCode::Char(ch), ctrl: true, shift: false },
            _ => plain(KeyCode::Other, false),
        };
        assert(command_for(true, k) == c);
    }
}

} // verus!
