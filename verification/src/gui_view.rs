//! What the graphical front end shows, as text: its status card, clock,
//! search pop-up, headings and the rows of its lists. Positions, sizes and
//! colours are left to the drawing toolkit.

use vstd::prelude::*;
use vstd::string::StringSliceAdditionalSpecFns;
use crate::kernel::{Engine, PlayMode};
use crate::text::{decimal, push_char, push_decimal, views};
use crate::types::{Song, opt_view};
use crate::view::{clock, entry_text, entry_row, page_caption, page_label, window_rows, list_window};

verus! {

/// How many rows a song list of the graphical front end shows in a panel
/// that fits `fit` rows of text: at least five.
pub open spec fn rows_shown(fit: usize) -> usize {
    if fit >= 5 { fit } else { 5 }
}

/// How many rows a song list shows; see [`rows_shown`].
pub fn list_rows(fit: usize) -> (r: usize)
    ensures
        r == rows_shown(fit),
{
    if fit >= 5 { fit } else { 5 }
}

/// How many lyric lines the lyrics view shows at most.
pub const LYRIC_ROWS: usize = 20;

/// How many results the search pop-up lists at most.
pub const POPUP_RESULTS: usize = 6;

/// The play state in the status card.
pub open spec fn state_caption(playing: bool) -> Seq<char> {
    if playing { "\u{25b6} 播放中"@ } else { "O 已暂停"@ }
}

/// The play state; see [`state_caption`].
pub fn play_state(playing: bool) -> (r: &'static str)
    ensures
        r@ == state_caption(playing),
{
    if playing { "\u{25b6} 播放中" } else { "O 已暂停" }
}

/// The volume in the status card.
pub open spec fn volume_text(v: u8) -> Seq<char> {
    "音量: "@ + decimal(v as nat) + "%"@
}

/// The volume; see [`volume_text`].
pub fn volume_label(v: u8) -> (r: String)
    ensures
        r@ == volume_text(v),
{
    let mut r = String::from_str("音量: ");
    push_decimal(&mut r, v as u64);
    r.append("%");
    r
}

/// A song's name as the status card shows it: names of more than fifteen
/// bytes are cut to their first twelve characters and an ellipsis.
pub open spec fn short_caption(name: Seq<char>, bytes: nat) -> Seq<char> {
    if bytes > 15 {
        name.take(if name.len() < 12 { name.len() as int } else { 12 }) + "..."@
    } else {
        name
    }
}

/// A song's name cut for the status card; see [`short_caption`].
pub fn short_name(name: &str) -> (r: String)
    ensures
        r@ == short_caption(name@, name.spec_bytes().len()),
{
    if name.as_bytes().len() > 15 {
        let n = name.unicode_len();
        let k = if n < 12 { n } else { 12 };
        let mut r = String::from_str(name.substring_char(0, k));
        r.append("...");
        r
    } else {
        String::from_str(name)
    }
}

/// The name line of the status card: the buffering message while
/// buffering, else the current song's name, cut short; empty when there is
/// none.
pub open spec fn status_name(e: Engine) -> Seq<char> {
    let name = if e.now.buffering {
        match e.now.buffering_msg {
            Some(m) => m@,
            None => Seq::empty(),
        }
    } else {
        match e.now.current_song_name {
            Some(n) => n@,
            None => Seq::empty(),
        }
    };
    name
}

/// The name line of the status card, before cutting; see [`status_name`].
pub fn status_name_text(e: &Engine) -> (r: &str)
    ensures
        r@ == status_name(*e),
{
    let empty = "";
    proof {
        reveal_strlit("");
    }
    if e.now.buffering {
        match &e.now.buffering_msg {
            Some(m) => m.as_str(),
            None => empty,
        }
    } else {
        match &e.now.current_song_name {
            Some(n) => n.as_str(),
            None => empty,
        }
    }
}

/// The time line over the progress bar: the elapsed time, and the length
/// after a spaced slash when it is known.
pub open spec fn clock_line(elapsed: nat, duration: Option<u64>) -> Seq<char> {
    match duration {
        Some(d) => clock(elapsed) + " / "@ + clock(d as nat),
        None => clock(elapsed),
    }
}

fn push_time(s: &mut String, secs: u64)
    ensures
        final(s)@ == old(s)@ + clock(secs as nat),
{
    proof {
        reveal_strlit(":");
    }
    crate::text::push_two_digits(s, secs / 60);
    push_char(s, ':');
    crate::text::push_two_digits(s, secs % 60);
    assert(final(s)@ =~= old(s)@ + clock(secs as nat));
}

/// The time line from whole seconds; see [`clock_line`].
pub fn clock_label(elapsed: u64, duration: Option<u64>) -> (r: String)
    ensures
        r@ == clock_line(elapsed as nat, duration),
{
    let mut r = String::new();
    push_time(&mut r, elapsed);
    match duration {
        Some(d) => {
            r.append(" / ");
            push_time(&mut r, d);
        },
        None => {},
    }
    assert(r@ =~= clock_line(elapsed as nat, duration));
    r
}

/// The input line of the search pop-up: the query with a check mark once
/// confirmed, a prompt while empty, else the query and a block cursor.
pub open spec fn popup_caption(query: Seq<char>, confirmed: bool) -> Seq<char> {
    if confirmed {
        query + " ✓"@
    } else if query.len() == 0 {
        "Type to search..."@
    } else {
        query + "█"@
    }
}

/// The input line of the search pop-up; see [`popup_caption`].
pub fn popup_query(query: &str, confirmed: bool) -> (r: String)
    ensures
        r@ == popup_caption(query@, confirmed),
{
    if confirmed {
        let mut r = String::from_str(query);
        r.append(" ✓");
        r
    } else if query.unicode_len() == 0 {
        String::from_str("Type to search...")
    } else {
        let mut r = String::from_str(query);
        r.append("█");
        r
    }
}

/// The result rows of the search pop-up: at most six, each with whether it
/// is the highlighted one.
pub open spec fn popup_text(results: Seq<Song>, index: usize) -> Seq<(Seq<char>, bool)> {
    let n = if results.len() <= POPUP_RESULTS { results.len() } else { POPUP_RESULTS as nat };
    Seq::new(n, |i: int| (entry_text(i == index, results[i].name@, views(results[i].artists@)), i == index))
}

/// The text and flag of each row.
pub open spec fn flagged_views(v: Seq<(String, bool)>) -> Seq<(Seq<char>, bool)> {
    v.map_values(|p: (String, bool)| (p.0@, p.1))
}

/// The result rows of the search pop-up; see [`popup_text`].
pub fn popup_rows(results: &Vec<Song>, index: usize) -> (r: Vec<(String, bool)>)
    ensures
        flagged_views(r@) == popup_text(results@, index),
{
    let n = if results.len() <= POPUP_RESULTS { results.len() } else { POPUP_RESULTS };
    let mut r: Vec<(String, bool)> = Vec::new();
    let mut i: usize = 0;
    while i < n
        invariant
            i <= n,
            n <= results.len(),
            n == (if results.len() <= POPUP_RESULTS { results.len() } else { POPUP_RESULTS }),
            flagged_views(r@).len() == i,
            forall|k: int| 0 <= k < i ==> #[trigger] flagged_views(r@)[k] == (
                entry_text(k == index, results@[k].name@, views(results@[k].artists@)),
                k == index,
            ),
        decreases n - i,
    {
        let s = &results[i];
        let text = entry_row(i == index, s.name.as_str(), &s.artists);
        let ghost before = r@;
        let ghost tv = text@;
        r.push((text, i == index));
        assert(flagged_views(r@) =~= flagged_views(before).push((tv, i == index)));
        i = i + 1;
    }
    assert(flagged_views(r@) =~= popup_text(results@, index));
    r
}

/// The heading of the global view: the mode's name and the queue's length.
pub open spec fn global_caption(m: PlayMode, n: usize) -> Seq<char> {
    let name = if m == PlayMode::GlobalList {
        "Global List"@
    } else if m == PlayMode::GlobalRandom {
        "Global Random"@
    } else {
        "Global"@
    };
    name + " ("@ + decimal(n as nat) + ")"@
}

/// The heading of the global view; see [`global_caption`].
pub fn global_heading(m: PlayMode, n: usize) -> (r: String)
    ensures
        r@ == global_caption(m, n),
{
    let mut r = String::from_str(match m {
        PlayMode::GlobalList => "Global List",
        PlayMode::GlobalRandom => "Global Random",
        _ => "Global",
    });
    r.append(" (");
    push_decimal(&mut r, n as u64);
    r.append(")");
    r
}

/// One line for a present text, none for an absent one.
pub open spec fn line_if(o: Option<String>) -> Seq<Seq<char>> {
    match o {
        Some(x) => seq![x@],
        None => Seq::empty(),
    }
}

/// The lines over the album's songs: name, artists, introduction, the
/// current song and the album's position, each when there is one.
pub open spec fn album_card(e: Engine) -> Seq<Seq<char>> {
    let page: Seq<Seq<char>> = match page_caption(e.catalog.album_index, e.catalog.album_total) {
        Some(p) => seq![p],
        None => Seq::empty(),
    };
    line_if(e.catalog.album_name) + line_if(e.catalog.album_artist) + line_if(e.now.album_intro) + line_if(
        e.now.song_info,
    ) + page
}

/// The lines over the album's songs; see [`album_card`].
pub fn album_card_lines(e: &Engine) -> (r: Vec<String>)
    requires
        e.catalog.album_index < usize::MAX,
    ensures
        views(r@) == album_card(*e),
{
    let mut r: Vec<String> = Vec::new();
    match &e.catalog.album_name {
        Some(x) => r.push(x.clone()),
        None => {},
    }
    match &e.catalog.album_artist {
        Some(x) => r.push(x.clone()),
        None => {},
    }
    match &e.now.album_intro {
        Some(x) => r.push(x.clone()),
        None => {},
    }
    match &e.now.song_info {
        Some(x) => r.push(x.clone()),
        None => {},
    }
    match page_label(e.catalog.album_index, e.catalog.album_total) {
        Some(p) => r.push(p),
        None => {},
    }
    assert(views(r@) =~= album_card(*e));
    r
}

/// The window of the lyrics view: at most twenty lines around the current
/// one.
pub fn lyric_window(total: usize, current: usize) -> (r: (usize, usize))
    ensures
        r == window_rows(total, current, LYRIC_ROWS as nat),
{
    list_window(total, current, LYRIC_ROWS)
}

/// What a turn of the mouse wheel over the list does: up moves the highlight
/// down the list, down moves it up.
#[derive(Clone, Copy, PartialEq, Eq, Structural, Debug)]
pub enum WheelStep {
    NextSong,
    PrevSong,
    Nothing,
}

/// The step for a wheel turn: positive for up, negative for down, zero for
/// none.
pub open spec fn wheel_for(direction: i8) -> WheelStep {
    if direction > 0 {
        WheelStep::NextSong
    } else if direction < 0 {
        WheelStep::PrevSong
    } else {
        WheelStep::Nothing
    }
}

/// The step for a wheel turn; see [`wheel_for`].
pub fn wheel_step(direction: i8) -> (r: WheelStep)
    ensures
        r == wheel_for(direction),
{
    if direction > 0 {
        WheelStep::NextSong
    } else if direction < 0 {
        WheelStep::PrevSong
    } else {
        WheelStep::Nothing
    }
}

/// A short name is never longer than twelve characters and the ellipsis,
/// and begins as the name does.
pub proof fn law_short_name_prefix(name: Seq<char>, bytes: nat)
    ensures
        short_caption(name, bytes).len() <= if bytes > 15 { 15 } else { name.len() as int },
        bytes > 15 ==> short_caption(name, bytes).take(
            if name.len() < 12 { name.len() as int } else { 12 },
        ) == name.take(if name.len() < 12 { name.len() as int } else { 12 }),
        bytes <= 15 ==> short_caption(name, bytes) == name,
{
    reveal_strlit("...");
    let k: int = if name.len() < 12 { name.len() as int } else { 12 };
    if bytes > 15 {
        assert((name.take(k) + "..."@).take(k) =~= name.take(k));
    }
}

/// The cover to load for the current album: none without albums or when it
/// is the cover already shown, else the album's cover address.
pub open spec fn cover_wanted(e: Engine, shown: Option<Seq<char>>) -> Option<Seq<char>> {
    if e.catalog.albums.len() == 0 {
        None
    } else {
        let url = e.catalog.albums@[e.catalog.album_index as int].cover_url@;
        if shown == Some(url) { None } else { Some(url) }
    }
}

/// The cover to load; see [`cover_wanted`].
pub fn cover_change(e: &Engine, shown: &Option<String>) -> (r: Option<String>)
    requires
        e.wf(),
    ensures
        opt_view(r) == cover_wanted(*e, opt_view(*shown)),
{
    if e.catalog.albums.len() == 0 {
        return None;
    }
    let url = &e.catalog.albums[e.catalog.album_index].cover_url;
    match shown {
        Some(s) => if s.eq(url) { None } else { Some(url.clone()) },
        None => Some(url.clone()),
    }
}

} // verus!
