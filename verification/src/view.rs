//! What the terminal front end shows, as text and tones: the window of rows
//! that fits a panel around the highlighted row, the rows of the song lists,
//! the status lines, the clock, the search box and the lyrics. Painting them
//! is left to the terminal toolkit.

use vstd::prelude::*;
use crate::kernel::{Engine, PlayMode};
use crate::lyrics::LyricLine;
use crate::text::{decimal, join, joined, push_char, push_decimal, push_two_digits, two_digits, views};
use crate::types::{Song, opt_view};

verus! {

/// The colour a piece of text is painted in.
#[derive(Clone, Copy, PartialEq, Eq, Structural, Debug)]
pub enum Tone {
    Cyan,
    CyanBold,
    White,
    Gray,
    DarkGray,
    Red,
}

/// How many rows of a panel `height` rows high hold list entries: two go to
/// its frame.
pub open spec fn rows_for(height: u16) -> nat {
    if height >= 2 { (height - 2) as nat } else { 0 }
}

/// The first and one-past-last entry shown of a list of `total` entries in
/// `max` rows: the whole list when it fits, else a window that puts the entry
/// `focus` in its middle, stopping at the list's end.
pub open spec fn window_rows(total: usize, focus: usize, max: nat) -> (usize, usize) {
    let start: int = if total <= max {
        0
    } else {
        let back: int = if focus >= max / 2 { focus - max / 2 } else { 0 };
        if back <= total - max { back } else { total - max }
    };
    let end: int = if start + max <= total { start + max } else { total as int };
    (start as usize, end as usize)
}

/// The window of a list shown in `max` rows; see [`window_rows`].
pub fn list_window(total: usize, focus: usize, max: usize) -> (r: (usize, usize))
    ensures
        r == window_rows(total, focus, max as nat),
{
    let start = if total <= max {
        0
    } else {
        let half = max / 2;
        let back = focus.saturating_sub(half);
        let last = total - max;
        if back <= last { back } else { last }
    };
    let end = if total <= max { total } else { start + max };
    (start, end)
}

/// The window of a list in a panel `height` rows high.
pub open spec fn window(total: usize, focus: usize, height: u16) -> (usize, usize) {
    window_rows(total, focus, rows_for(height))
}

/// The window of a list that a panel shows; see [`window`].
pub fn visible_window(total: usize, focus: usize, height: u16) -> (r: (usize, usize))
    ensures
        r == window(total, focus, height),
{
    let max = (height as usize).saturating_sub(2);
    list_window(total, focus, max)
}

/// The tone of a list row: cyan for the song that plays, white for the
/// highlighted row, grey for the others.
pub open spec fn tone_of(playing: bool, selected: bool) -> Tone {
    if playing {
        Tone::Cyan
    } else if selected {
        Tone::White
    } else {
        Tone::Gray
    }
}

/// The tone of a list row; see [`tone_of`].
pub fn row_tone(playing: bool, selected: bool) -> (r: Tone)
    ensures
        r == tone_of(playing, selected),
{
    if playing {
        Tone::Cyan
    } else if selected {
        Tone::White
    } else {
        Tone::Gray
    }
}

/// The marker in front of a row: an arrow for the highlighted one.
pub open spec fn marker(selected: bool) -> Seq<char> {
    if selected { "> "@ } else { "  "@ }
}

/// The text of a song row: marker, name, and the artists after a dash.
pub open spec fn entry_text(selected: bool, name: Seq<char>, artists: Seq<Seq<char>>) -> Seq<char> {
    marker(selected) + name + " - "@ + joined(artists, ", "@)
}

/// The text of a song row; see [`entry_text`].
pub fn entry_row(selected: bool, name: &str, artists: &Vec<String>) -> (r: String)
    ensures
        r@ == entry_text(selected, name@, views(artists@)),
{
    let mut r = String::from_str(if selected { "> " } else { "  " });
    r.append(name);
    r.append(" - ");
    let a = join(artists, ", ");
    r.append(a.as_str());
    r
}

/// The caption of a play mode in the status panel.
pub open spec fn mode_caption(m: PlayMode) -> Seq<char> {
    match m {
        PlayMode::AlbumList => "专辑列表"@,
        PlayMode::AlbumRandom => "专辑随机"@,
        PlayMode::GlobalList => "全局列表"@,
        PlayMode::GlobalRandom => "全局随机"@,
        PlayMode::Single => "单曲循环"@,
        PlayMode::LoveList => "收藏列表"@,
        PlayMode::LoveRandom => "收藏随机"@,
    }
}

/// The caption of a play mode; see [`mode_caption`].
pub fn mode_label(m: PlayMode) -> (r: &'static str)
    ensures
        r@ == mode_caption(m),
{
    match m {
        PlayMode::AlbumList => "专辑列表",
        PlayMode::AlbumRandom => "专辑随机",
        PlayMode::GlobalList => "全局列表",
        PlayMode::GlobalRandom => "全局随机",
        PlayMode::Single => "单曲循环",
        PlayMode::LoveList => "收藏列表",
        PlayMode::LoveRandom => "收藏随机",
    }
}

/// The volume as the status panel writes it.
pub open spec fn volume_caption(v: u8) -> Seq<char> {
    "Volume: "@ + decimal(v as nat) + "%"@
}

/// The lines of the status panel: play state, then the buffering message
/// while buffering (else the current song's name, if any), the mode, the
/// volume and the help hint.
pub open spec fn status_text(e: Engine) -> Seq<Seq<char>> {
    let state = if e.now.playing { "O Playing"@ } else { "O Paused"@ };
    let tail = seq![mode_caption(e.play_mode), volume_caption(e.now.volume), "Ctrl+T for help"@];
    let middle: Seq<Seq<char>> = if e.now.buffering {
        match e.now.buffering_msg {
            Some(m) => seq![m@],
            None => Seq::empty(),
        }
    } else {
        match e.now.current_song_name {
            Some(n) => seq![n@],
            None => Seq::empty(),
        }
    };
    seq![state] + middle + tail
}

/// The lines of the status panel; see [`status_text`].
pub fn status_lines(e: &Engine) -> (r: Vec<String>)
    ensures
        views(r@) == status_text(*e),
{
    let mut r: Vec<String> = Vec::new();
    r.push(String::from_str(if e.now.playing { "O Playing" } else { "O Paused" }));
    if e.now.buffering {
        match &e.now.buffering_msg {
            Some(m) => r.push(m.clone()),
            None => {},
        }
    } else {
        match &e.now.current_song_name {
            Some(n) => r.push(n.clone()),
            None => {},
        }
    }
    r.push(String::from_str(mode_label(e.play_mode)));
    let mut v = String::from_str("Volume: ");
    push_decimal(&mut v, e.now.volume as u64);
    v.append("%");
    r.push(v);
    r.push(String::from_str("Ctrl+T for help"));
    assert(views(r@) =~= status_text(*e));
    r
}

/// A time of `secs` seconds as minutes and seconds, each of two digits at
/// least.
pub open spec fn clock(secs: nat) -> Seq<char> {
    two_digits(secs / 60) + ":"@ + two_digits(secs % 60)
}

/// The time line under the progress bar: the elapsed time, and the song's
/// length after a slash when it is known.
pub open spec fn clock_caption(elapsed: nat, duration: Option<u64>) -> Seq<char> {
    match duration {
        Some(d) => clock(elapsed) + "/"@ + clock(d as nat),
        None => clock(elapsed),
    }
}

fn push_clock(s: &mut String, secs: u64)
    ensures
        final(s)@ == old(s)@ + clock(secs as nat),
{
    proof {
        reveal_strlit(":");
    }
    push_two_digits(s, secs / 60);
    push_char(s, ':');
    push_two_digits(s, secs % 60);
    assert(final(s)@ =~= old(s)@ + clock(secs as nat));
}

/// The time line under the progress bar, from whole seconds; see
/// [`clock_caption`].
pub fn clock_text(elapsed: u64, duration: Option<u64>) -> (r: String)
    ensures
        r@ == clock_caption(elapsed as nat, duration),
{
    proof {
        reveal_strlit("/");
    }
    let mut r = String::new();
    push_clock(&mut r, elapsed);
    match duration {
        Some(d) => {
            push_char(&mut r, '/');
            push_clock(&mut r, d);
        },
        None => {},
    }
    assert(r@ =~= clock_caption(elapsed as nat, duration));
    r
}

/// The position of the album among all of them, shown when there are
/// several: `[i/n]`, counting from one.
pub open spec fn page_caption(index: usize, total: usize) -> Option<Seq<char>> {
    if total > 1 {
        Some("["@ + decimal((index + 1) as nat) + "/"@ + decimal(total as nat) + "]"@)
    } else {
        None
    }
}

/// The album's position; see [`page_caption`].
pub fn page_label(index: usize, total: usize) -> (r: Option<String>)
    requires
        index < usize::MAX,
    ensures
        opt_view(r) == page_caption(index, total),
{
    if total > 1 {
        proof {
            reveal_strlit("[");
            reveal_strlit("/");
            reveal_strlit("]");
        }
        let mut s = String::from_str("[");
        push_decimal(&mut s, (index + 1) as u64);
        push_char(&mut s, '/');
        push_decimal(&mut s, total as u64);
        push_char(&mut s, ']');
        assert(s@ =~= "["@ + decimal((index + 1) as nat) + "/"@ + decimal(total as nat) + "]"@);
        Some(s)
    } else {
        None
    }
}

/// The lines over the song list: the album's name and artist when known,
/// its position among the albums, or a loading notice when there is nothing.
pub open spec fn album_header(e: Engine) -> Seq<Seq<char>> {
    let name: Seq<Seq<char>> = match e.catalog.album_name {
        Some(n) => seq![n@],
        None => Seq::empty(),
    };
    let artist: Seq<Seq<char>> = match e.catalog.album_artist {
        Some(a) => seq![a@],
        None => Seq::empty(),
    };
    let page: Seq<Seq<char>> = match page_caption(e.catalog.album_index, e.catalog.album_total) {
        Some(p) => seq![p],
        None => Seq::empty(),
    };
    let all = name + artist + page;
    if all.len() == 0 { seq!["Loading..."@] } else { all }
}

/// The lines over the song list; see [`album_header`].
pub fn album_info_lines(e: &Engine) -> (r: Vec<String>)
    requires
        e.catalog.album_index < usize::MAX,
    ensures
        views(r@) == album_header(*e),
{
    let mut r: Vec<String> = Vec::new();
    match &e.catalog.album_name {
        Some(n) => r.push(n.clone()),
        None => {},
    }
    match &e.catalog.album_artist {
        Some(a) => r.push(a.clone()),
        None => {},
    }
    match page_label(e.catalog.album_index, e.catalog.album_total) {
        Some(p) => r.push(p),
        None => {},
    }
    if r.len() == 0 {
        r.push(String::from_str("Loading..."));
    }
    assert(views(r@) =~= album_header(*e));
    r
}

/// The search box's input line: a slash, the query and a block cursor.
pub open spec fn search_caption(query: Seq<char>) -> Seq<char> {
    "/ "@ + query + "█"@
}

/// The search box's input line; see [`search_caption`].
pub fn search_input_text(query: &str) -> (r: String)
    ensures
        r@ == search_caption(query@),
{
    let mut r = String::from_str("/ ");
    r.append(query);
    r.append("█");
    r
}

/// How many search results the box lists at most.
pub const MAX_RESULTS: usize = 5;

/// The result lines of the search box: at most five results, the
/// highlighted one white with an arrow, the others grey; a notice when a
/// query found nothing.
pub open spec fn result_text(results: Seq<Song>, index: usize, query: Seq<char>) -> Seq<(Seq<char>, Tone)> {
    let n = if results.len() <= MAX_RESULTS { results.len() } else { MAX_RESULTS as nat };
    let shown = Seq::new(n, |i: int| (
        entry_text(i == index, results[i].name@, views(results[i].artists@)),
        if i == index { Tone::White } else { Tone::Gray },
    ));
    if results.len() == 0 && query.len() > 0 {
        seq![("  No results"@, Tone::DarkGray)]
    } else {
        shown
    }
}

/// The text and tone of each line of a list of pairs.
pub open spec fn line_views(v: Seq<(String, Tone)>) -> Seq<(Seq<char>, Tone)> {
    v.map_values(|p: (String, Tone)| (p.0@, p.1))
}

/// The result lines of the search box; see [`result_text`].
pub fn search_result_lines(results: &Vec<Song>, index: usize, query: &str) -> (r: Vec<(String, Tone)>)
    ensures
        line_views(r@) == result_text(results@, index, query@),
{
    let mut r: Vec<(String, Tone)> = Vec::new();
    let n = if results.len() <= MAX_RESULTS { results.len() } else { MAX_RESULTS };
    let ghost target = result_text(results@, index, query@);
    let mut i: usize = 0;
    while i < n
        invariant
            i <= n,
            n <= results.len(),
            n == (if results.len() <= MAX_RESULTS { results.len() } else { MAX_RESULTS }),
            line_views(r@).len() == i,
            forall|k: int| 0 <= k < i ==> #[trigger] line_views(r@)[k] == (
                entry_text(k == index, results@[k].name@, views(results@[k].artists@)),
                if k == index { Tone::White } else { Tone::Gray },
            ),
        decreases n - i,
    {
        let s = &results[i];
        let text = entry_row(i == index, s.name.as_str(), &s.artists);
        let tone = if i == index { Tone::White } else { Tone::Gray };
        let ghost before = r@;
        r.push((text, tone));
        assert(line_views(r@) =~= line_views(before).push((text@, tone)));
        i = i + 1;
    }
    if results.len() == 0 && query.unicode_len() > 0 {
        r.push((String::from_str("  No results"), Tone::DarkGray));
    }
    assert(line_views(r@) =~= target);
    r
}

/// The lines of the lyrics panel: a notice when there are no lyrics (which
/// differs whether a song plays), else the window of lines around the
/// current one, which is cyan and bold with an arrow.
pub open spec fn lyric_text(
    lines: Seq<LyricLine>,
    current: usize,
    height: u16,
    has_song: bool,
) -> Seq<(Seq<char>, Tone)> {
    if lines.len() == 0 {
        seq![(if has_song { "No lyrics available"@ } else { "No song playing"@ }, Tone::DarkGray)]
    } else {
        let (start, end) = window(lines.len() as usize, current, height);
        Seq::new((end - start) as nat, |k: int| {
            let i = start + k;
            if i == current {
                ("> "@ + lines[i].text@, Tone::CyanBold)
            } else {
                ("  "@ + lines[i].text@, Tone::White)
            }
        })
    }
}

/// The lines of the lyrics panel; see [`lyric_text`].
pub fn lyric_lines(lines: &Vec<LyricLine>, current: usize, height: u16, has_song: bool) -> (r: Vec<(String, Tone)>)
    ensures
        line_views(r@) == lyric_text(lines@, current, height, has_song),
{
    let mut r: Vec<(String, Tone)> = Vec::new();
    if lines.len() == 0 {
        r.push((String::from_str(if has_song { "No lyrics available" } else { "No song playing" }), Tone::DarkGray));
        assert(line_views(r@) =~= lyric_text(lines@, current, height, has_song));
        return r;
    }
    let (start, end) = visible_window(lines.len(), current, height);
    let mut i = start;
    while i < end
        invariant
            start <= i <= end,
            end <= lines.len(),
            line_views(r@).len() == i - start,
            forall|k: int| 0 <= k < i - start ==> #[trigger] line_views(r@)[k] == (if start + k == current {
                ("> "@ + lines@[start + k].text@, Tone::CyanBold)
            } else {
                ("  "@ + lines@[start + k].text@, Tone::White)
            }),
        decreases end - i,
    {
        let mut s = String::from_str(if i == current { "> " } else { "  " });
        s.append(lines[i].text.as_str());
        let tone = if i == current { Tone::CyanBold } else { Tone::White };
        let ghost before = r@;
        let ghost sv = s@;
        r.push((s, tone));
        assert(line_views(r@) =~= line_views(before).push((sv, tone)));
        i = i + 1;
    }
    assert(line_views(r@) =~= lyric_text(lines@, current, height, has_song));
    r
}

/// The heading of the loved view.
pub open spec fn loved_caption(n: usize) -> Seq<char> {
    "Loved Songs ("@ + decimal(n as nat) + ")"@
}

/// The heading of the loved view; see [`loved_caption`].
pub fn loved_header(n: usize) -> (r: String)
    ensures
        r@ == loved_caption(n),
{
    let mut r = String::from_str("Loved Songs (");
    push_decimal(&mut r, n as u64);
    r.append(")");
    r
}

/// A row of a song list: its text, its tone and whether the loved mark
/// follows it.
pub struct ListRow {
    pub text: String,
    pub tone: Tone,
    pub loved: bool,
}

/// The view of a row: text, tone and loved mark.
pub open spec fn row_views(v: Seq<ListRow>) -> Seq<(Seq<char>, Tone, bool)> {
    v.map_values(|r: ListRow| (r.text@, r.tone, r.loved))
}

/// Whether the song `cid` is the one playing.
pub open spec fn is_playing(e: Engine, cid: Seq<char>) -> bool {
    opt_view(e.now.current_song_cid) == Some(cid)
}

/// The rows of the album's song list, or `None` (a loading notice) while
/// its songs are not in: the window around the highlighted row `selected`.
pub open spec fn album_rows_text(e: Engine, selected: usize, height: u16) -> Seq<(Seq<char>, Tone, bool)> {
    let songs = e.catalog.songs@;
    let (start, end) = window(songs.len() as usize, selected, height);
    Seq::new((end - start) as nat, |k: int| {
        let i = start + k;
        (
            entry_text(i == selected, songs[i].name@, views(songs[i].artistes@)),
            tone_of(is_playing(e, songs[i].cid@), i == selected),
            e.loved.map().contains_key(songs[i].cid@),
        )
    })
}

/// The rows of the album's song list; see [`album_rows_text`].
pub fn album_rows(e: &Engine, selected: usize, height: u16) -> (r: Vec<ListRow>)
    requires
        e.wf(),
    ensures
        row_views(r@) == album_rows_text(*e, selected, height),
{
    let songs = &e.catalog.songs;
    let (start, end) = visible_window(songs.len(), selected, height);
    let mut r: Vec<ListRow> = Vec::new();
    let mut i = start;
    while i < end
        invariant
            start <= i <= end,
            end <= songs.len(),
            songs == &e.catalog.songs,
            e.wf(),
            (start, end) == window(songs.len(), selected, height),
            row_views(r@).len() == i - start,
            forall|k: int| 0 <= k < i - start ==> #[trigger] row_views(r@)[k] == (
                entry_text(start + k == selected, songs@[start + k].name@, views(songs@[start + k].artistes@)),
                tone_of(is_playing(*e, songs@[start + k].cid@), start + k == selected),
                e.loved.map().contains_key(songs@[start + k].cid@),
            ),
        decreases end - i,
    {
        let s = &songs[i];
        let text = entry_row(i == selected, s.name.as_str(), &s.artistes);
        let playing = match &e.now.current_song_cid {
            Some(c) => c.eq(&s.cid),
            None => false,
        };
        let loved = e.is_loved(s.cid.as_str());
        let tone = row_tone(playing, i == selected);
        let ghost before = r@;
        let ghost tv = text@;
        r.push(ListRow { text, tone, loved });
        assert(row_views(r@) =~= row_views(before).push((tv, tone, loved)));
        i = i + 1;
    }
    assert(row_views(r@) =~= album_rows_text(*e, selected, height));
    r
}

/// The rows of the global queue: the window around the queue position,
/// which is the highlighted row.
pub open spec fn global_rows_text(e: Engine, height: u16) -> Seq<(Seq<char>, Tone, bool)> {
    let songs = e.queue.global_playlist@;
    let current = e.queue.global_index;
    let (start, end) = window(songs.len() as usize, current, height);
    Seq::new((end - start) as nat, |k: int| {
        let i = start + k;
        (
            entry_text(i == current, songs[i].name@, views(songs[i].artists@)),
            tone_of(is_playing(e, songs[i].cid@), i == current),
            e.loved.map().contains_key(songs[i].cid@),
        )
    })
}

/// The rows of the global queue; see [`global_rows_text`].
pub fn global_rows(e: &Engine, height: u16) -> (r: Vec<ListRow>)
    requires
        e.wf(),
    ensures
        row_views(r@) == global_rows_text(*e, height),
{
    let songs = &e.queue.global_playlist;
    let current = e.queue.global_index;
    let (start, end) = visible_window(songs.len(), current, height);
    let mut r: Vec<ListRow> = Vec::new();
    let mut i = start;
    while i < end
        invariant
            start <= i <= end,
            end <= songs.len(),
            songs == &e.queue.global_playlist,
            current == e.queue.global_index,
            e.wf(),
            (start, end) == window(songs.len(), current, height),
            row_views(r@).len() == i - start,
            forall|k: int| 0 <= k < i - start ==> #[trigger] row_views(r@)[k] == (
                entry_text(start + k == current, songs@[start + k].name@, views(songs@[start + k].artists@)),
                tone_of(is_playing(*e, songs@[start + k].cid@), start + k == current),
                e.loved.map().contains_key(songs@[start + k].cid@),
            ),
        decreases end - i,
    {
        let s = &songs[i];
        let text = entry_row(i == current, s.name.as_str(), &s.artists);
        let playing = match &e.now.current_song_cid {
            Some(c) => c.eq(&s.cid),
            None => false,
        };
        let loved = e.is_loved(s.cid.as_str());
        let tone = row_tone(playing, i == current);
        let ghost before = r@;
        let ghost tv = text@;
        r.push(ListRow { text, tone, loved });
        assert(row_views(r@) =~= row_views(before).push((tv, tone, loved)));
        i = i + 1;
    }
    assert(row_views(r@) =~= global_rows_text(*e, height));
    r
}

/// The rows of the loved view: the window around the highlighted row, each
/// with the loved mark.
pub open spec fn loved_rows_text(e: Engine, selected: usize, height: u16) -> Seq<(Seq<char>, Tone, bool)> {
    let songs = e.loved.loved_list@;
    let (start, end) = window(songs.len() as usize, selected, height);
    Seq::new((end - start) as nat, |k: int| {
        let i = start + k;
        (
            entry_text(i == selected, songs[i].name@, views(songs[i].artists@)),
            tone_of(is_playing(e, songs[i].cid@), i == selected),
            true,
        )
    })
}

/// The rows of the loved view; see [`loved_rows_text`].
pub fn loved_rows(e: &Engine, selected: usize, height: u16) -> (r: Vec<ListRow>)
    ensures
        row_views(r@) == loved_rows_text(*e, selected, height),
{
    let songs = &e.loved.loved_list;
    let (start, end) = visible_window(songs.len(), selected, height);
    let mut r: Vec<ListRow> = Vec::new();
    let mut i = start;
    while i < end
        invariant
            start <= i <= end,
            end <= songs.len(),
            songs == &e.loved.loved_list,
            (start, end) == window(songs.len(), selected, height),
            row_views(r@).len() == i - start,
            forall|k: int| 0 <= k < i - start ==> #[trigger] row_views(r@)[k] == (
                entry_text(start + k == selected, songs@[start + k].name@, views(songs@[start + k].artists@)),
                tone_of(is_playing(*e, songs@[start + k].cid@), start + k == selected),
                true,
            ),
        decreases end - i,
    {
        let s = &songs[i];
        let text = entry_row(i == selected, s.name.as_str(), &s.artists);
        let playing = match &e.now.current_song_cid {
            Some(c) => c.eq(&s.cid),
            None => false,
        };
        let tone = row_tone(playing, i == selected);
        let ghost before = r@;
        let ghost tv = text@;
        r.push(ListRow { text, tone, loved: true });
        assert(row_views(r@) =~= row_views(before).push((tv, tone, true)));
        i = i + 1;
    }
    assert(row_views(r@) =~= loved_rows_text(*e, selected, height));
    r
}

/// A list shows as many rows as fit, or the whole list; the window lies in
/// the list; and the highlighted entry of the list is always among the rows
/// shown when at least one row fits.
pub proof fn law_focus_visible(total: usize, focus: usize, max: nat)
    ensures
        window_rows(total, focus, max).0 <= window_rows(total, focus, max).1 <= total,
        window_rows(total, focus, max).1 - window_rows(total, focus, max).0 == if total <= max {
            total as int
        } else {
            max as int
        },
        focus < total && max > 0 ==> window_rows(total, focus, max).0 <= focus < window_rows(total, focus, max).1,
{
}

} // verus!
