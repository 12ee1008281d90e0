//! The engine's interface for other languages, in plain values: play modes
//! as numbers, text copied into a caller's buffer with its terminating zero,
//! and the few operations that front ends reach through numbers and names.

use vstd::prelude::*;
use vstd::string::StringSliceAdditionalSpecFns;
use crate::kernel::{Engine, PlayMode, jumped_to, love_flipped, loved_refreshed};
use crate::text::views;
use crate::view::entry_text;

verus! {

/// How many play modes there are.
pub const MODE_COUNT: u32 = 7;

/// The number of a play mode.
pub open spec fn code_of(m: PlayMode) -> u32 {
    match m {
        PlayMode::AlbumList => 0,
        PlayMode::AlbumRandom => 1,
        PlayMode::GlobalList => 2,
        PlayMode::GlobalRandom => 3,
        PlayMode::Single => 4,
        PlayMode::LoveList => 5,
        PlayMode::LoveRandom => 6,
    }
}

/// The play mode numbered `c`, if any.
pub open spec fn mode_with_code(c: u32) -> Option<PlayMode> {
    if c == 0 {
        Some(PlayMode::AlbumList)
    } else if c == 1 {
        Some(PlayMode::AlbumRandom)
    } else if c == 2 {
        Some(PlayMode::GlobalList)
    } else if c == 3 {
        Some(PlayMode::GlobalRandom)
    } else if c == 4 {
        Some(PlayMode::Single)
    } else if c == 5 {
        Some(PlayMode::LoveList)
    } else if c == 6 {
        Some(PlayMode::LoveRandom)
    } else {
        None
    }
}

/// The number of a play mode.
pub fn mode_code(m: PlayMode) -> (r: u32)
    ensures
        r == code_of(m),
{
    match m {
        PlayMode::AlbumList => 0,
        PlayMode::AlbumRandom => 1,
        PlayMode::GlobalList => 2,
        PlayMode::GlobalRandom => 3,
        PlayMode::Single => 4,
        PlayMode::LoveList => 5,
        PlayMode::LoveRandom => 6,
    }
}

/// The play mode numbered `c`, or `None` for a number past the modes.
pub fn mode_from_code(c: u32) -> (r: Option<PlayMode>)
    ensures
        r == mode_with_code(c),
{
    match c {
        0 => Some(PlayMode::AlbumList),
        1 => Some(PlayMode::AlbumRandom),
        2 => Some(PlayMode::GlobalList),
        3 => Some(PlayMode::GlobalRandom),
        4 => Some(PlayMode::Single),
        5 => Some(PlayMode::LoveList),
        6 => Some(PlayMode::LoveRandom),
        _ => None,
    }
}

/// The number of play modes.
pub fn mode_count() -> (r: u32)
    ensures
        r == MODE_COUNT,
{
    MODE_COUNT
}

/// A mode's number leads back to the mode; every number below the count
/// names a mode, and none from the count on.
pub proof fn law_mode_codes(m: PlayMode, c: u32)
    ensures
        mode_with_code(code_of(m)) == Some(m),
        code_of(m) < MODE_COUNT,
        (mode_with_code(c) is Some) <==> c < MODE_COUNT,
        mode_with_code(c) matches Some(n) ==> code_of(n) == c,
{
}

/// Switches to the mode numbered `code` and brings the loved songs up to
/// date; a number past the modes changes nothing. Returns whether it switched.
pub fn set_play_mode(e: &mut Engine, code: u32) -> (r: bool)
    requires
        old(e).wf(),
    ensures
        final(e).wf(),
        r == (mode_with_code(code) is Some),
        match mode_with_code(code) {
            Some(m) => loved_refreshed(Engine { play_mode: m, ..*old(e) }, *final(e)),
            None => *final(e) == *old(e),
        },
{
    match mode_from_code(code) {
        Some(m) => {
            e.play_mode = m;
            e.rebuild_loved_list();
            true
        },
        None => false,
    }
}

/// How many bytes of a text `len` bytes long fit in a buffer of `cap`
/// bytes that must end with a zero.
pub open spec fn fitting(len: nat, cap: u32) -> nat {
    if cap == 0 {
        0
    } else if len <= cap - 1 {
        len
    } else {
        (cap - 1) as nat
    }
}

/// What goes into a caller's buffer of `cap` bytes for the text `s`: as many
/// of its bytes as leave room for the terminating zero, then the zero;
/// nothing for a buffer of no bytes.
pub open spec fn c_text(bytes: Seq<u8>, cap: u32) -> Seq<u8> {
    if cap == 0 {
        Seq::empty()
    } else {
        bytes.take(fitting(bytes.len(), cap) as int).push(0u8)
    }
}

/// The bytes to copy into a caller's buffer; see [`c_text`]. The number of
/// text bytes written is the length less one, or zero when nothing fits.
pub fn c_buffer(s: &str, cap: u32) -> (r: Vec<u8>)
    ensures
        r@ == c_text(s.spec_bytes(), cap),
        r@.len() <= cap,
{
    let mut r: Vec<u8> = Vec::new();
    if cap == 0 {
        return r;
    }
    let bytes = s.as_bytes();
    let room = (cap - 1) as usize;
    let n = if bytes.len() <= room { bytes.len() } else { room };
    let mut i: usize = 0;
    while i < n
        invariant
            i <= n,
            n <= bytes@.len(),
            n == fitting(bytes@.len(), cap),
            bytes@ == s.spec_bytes(),
            r@ == bytes@.take(i as int),
        decreases n - i,
    {
        r.push(bytes[i]);
        i = i + 1;
        assert(r@ =~= bytes@.take(i as int));
    }
    r.push(0u8);
    r
}

/// The text of entry `idx` of the full song list: name, dash, artists.
pub fn search_result_text(e: &Engine, idx: usize) -> (r: Option<String>)
    ensures
        match r {
            Some(t) => idx < e.queue.all_songs.len() && t@ == entry_text(
                false,
                e.queue.all_songs@[idx as int].name@,
                views(e.queue.all_songs@[idx as int].artists@),
            ).skip(2),
            None => idx >= e.queue.all_songs.len(),
        },
{
    if idx < e.queue.all_songs.len() {
        let s = &e.queue.all_songs[idx];
        let mut t = s.name.clone();
        t.append(" - ");
        let a = crate::text::join(&s.artists, ", ");
        t.append(a.as_str());
        proof {
            reveal_strlit("  ");
            assert(t@ =~= entry_text(false, s.name@, views(s.artists@)).skip(2));
        }
        Some(t)
    } else {
        None
    }
}

/// Jumps to the album of the first song of the full list; returns whether
/// it went. An empty list changes nothing.
pub fn search_confirm_first(e: &mut Engine) -> (r: bool)
    requires
        old(e).wf(),
    ensures
        final(e).wf(),
        old(e).queue.all_songs.len() == 0 ==> !r && *final(e) == *old(e),
        old(e).queue.all_songs.len() > 0 ==> jumped_to(*old(e), *final(e), old(e).queue.all_songs@[0].cid@, r),
{
    if e.queue.all_songs.len() == 0 {
        return false;
    }
    let cid = e.queue.all_songs[0].cid.clone();
    e.jump_to_song(cid.as_str())
}

/// Loves the song that plays, or stops loving it, with no artists; nothing
/// happens while no song's name and id are known.
pub fn toggle_current_love(e: &mut Engine)
    requires
        old(e).wf(),
    ensures
        final(e).wf(),
        match (old(e).now.current_song_name, old(e).now.current_song_cid) {
            (Some(n), Some(c)) => love_flipped(*old(e), *final(e), c@, n@, Seq::empty()),
            _ => *final(e) == *old(e),
        },
{
    let name = e.now.current_song_name.clone();
    let cid = e.now.current_song_cid.clone();
    match (name, cid) {
        (Some(n), Some(c)) => {
            let none: Vec<String> = Vec::new();
            proof {
                assert(views(none@) =~= Seq::<Seq<char>>::empty());
            }
            e.toggle_love(c.as_str(), n.as_str(), &none);
        },
        _ => {},
    }
}

} // verus!
