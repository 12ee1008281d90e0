use vstd::prelude::*;
use crate::chance::{Draws, drawn_values};
use crate::text::views;
use crate::lyrics::{LyricLine, line_views, clone_lines, lyric_index_at, line_at, parse_lrc, lrc_readable, lrc_is_readable, lrc_lines};
use crate::text::{contains_seq, join, joined, lowercase, str_contains, to_lowercase};
use crate::types::{
    opt_view,
    clone_strings, clone_album_songs, clone_songs, Album, AlbumDetail, AlbumDetailView,
    AlbumSong, Song, SongDetail, SongDetailView, SongView,
    album_song_views, song_views,
};

verus! {

/// How the engine picks the next song.
#[derive(Clone, Copy, PartialEq, Eq, Structural, Debug)]
pub enum PlayMode {
    /// Loop over the current album in order.
    AlbumList,
    /// Pick random songs from the current album.
    AlbumRandom,
    /// Loop over every song of every album in order.
    GlobalList,
    /// Play every song once, in a shuffled order.
    GlobalRandom,
    /// Stop after the current song.
    Single,
    /// Loop over the loved songs in order.
    LoveList,
    /// Pick random songs from the loved songs.
    LoveRandom,
}

/// The mode that follows `m` in the cycle of all seven modes.
pub open spec fn next_mode(m: PlayMode) -> PlayMode {
    match m {
        PlayMode::AlbumList => PlayMode::AlbumRandom,
        PlayMode::AlbumRandom => PlayMode::GlobalList,
        PlayMode::GlobalList => PlayMode::GlobalRandom,
        PlayMode::GlobalRandom => PlayMode::Single,
        PlayMode::Single => PlayMode::LoveList,
        PlayMode::LoveList => PlayMode::LoveRandom,
        PlayMode::LoveRandom => PlayMode::AlbumList,
    }
}

impl PlayMode {
    /// The mode that follows this one.
    pub fn next(self) -> (r: PlayMode)
        ensures
            r == next_mode(self),
    {
        match self {
            PlayMode::AlbumList => PlayMode::AlbumRandom,
            PlayMode::AlbumRandom => PlayMode::GlobalList,
            PlayMode::GlobalList => PlayMode::GlobalRandom,
            PlayMode::GlobalRandom => PlayMode::Single,
            PlayMode::Single => PlayMode::LoveList,
            PlayMode::LoveList => PlayMode::LoveRandom,
            PlayMode::LoveRandom => PlayMode::AlbumList,
        }
    }
}


/// A loved song: its id, name and artists, as kept in `loved.json`.
pub struct LovedEntry {
    pub cid: String,
    pub name: String,
    pub artists: Vec<String>,
}

/// The view of a [`LovedEntry`].
pub struct LovedEntryView {
    pub cid: Seq<char>,
    pub name: Seq<char>,
    pub artists: Seq<Seq<char>>,
}

impl View for LovedEntry {
    type V = LovedEntryView;

    open spec fn view(&self) -> LovedEntryView {
        LovedEntryView { cid: self.cid@, name: self.name@, artists: views(self.artists@) }
    }
}

impl Clone for LovedEntry {
    fn clone(&self) -> (r: Self)
        ensures
            r@ == self@,
    {
        LovedEntry {
            cid: self.cid.clone(),
            name: self.name.clone(),
            artists: clone_strings(&self.artists),
        }
    }
}

/// The views of a list of loved entries.
pub open spec fn loved_views(s: Seq<LovedEntry>) -> Seq<LovedEntryView> {
    s.map_values(|e: LovedEntry| e@)
}

/// No two entries share a song id.
pub open spec fn distinct_cids(s: Seq<LovedEntryView>) -> bool {
    forall|i: int, j: int| 0 <= i < j < s.len() ==> s[i].cid != s[j].cid
}

/// Position of the entry with song id `cid`, if any.
pub fn find_loved(v: &Vec<LovedEntry>, cid: &str) -> (r: Option<usize>)
    ensures
        match r {
            Some(i) => i < v.len() && v@[i as int]@.cid == cid@ && forall|j: int|
                0 <= j < i ==> v@[j]@.cid != cid@,
            None => forall|j: int| 0 <= j < v.len() ==> v@[j]@.cid != cid@,
        },
{
    let key = String::from_str(cid);
    let mut i: usize = 0;
    while i < v.len()
        invariant
            i <= v.len(),
            key@ == cid@,
            forall|j: int| 0 <= j < i ==> v@[j]@.cid != cid@,
        decreases v.len() - i,
    {
        if v[i].cid == key {
            return Some(i);
        }
        i = i + 1;
    }
    None
}

/// Copies a list of loved entries.
pub fn clone_loved(v: &Vec<LovedEntry>) -> (r: Vec<LovedEntry>)
    ensures
        loved_views(r@) == loved_views(v@),
{
    let r = v.clone();
    assert(loved_views(r@) =~= loved_views(v@));
    r
}


// ---------------------------------------------------------------------------
// Looking records up by id
// ---------------------------------------------------------------------------

/// Position of the first key equal to `k`.
pub open spec fn first_pos(keys: Seq<Seq<char>>, k: Seq<char>) -> Option<int>
    decreases keys.len(),
{
    if keys.len() == 0 {
        None
    } else if keys[0] == k {
        Some(0)
    } else {
        match first_pos(keys.drop_first(), k) {
            Some(i) => Some(i + 1),
            None => None,
        }
    }
}

/// `r` is the position of the first key equal to `k`, or `None` when no key is.
pub open spec fn is_first(keys: Seq<Seq<char>>, k: Seq<char>, r: Option<usize>) -> bool {
    match r {
        Some(i) => i < keys.len() && keys[i as int] == k && forall|j: int|
            0 <= j < i ==> keys[j] != k,
        None => forall|j: int| 0 <= j < keys.len() ==> keys[j] != k,
    }
}

pub proof fn lemma_first_pos(keys: Seq<Seq<char>>, k: Seq<char>, r: Option<usize>)
    requires
        is_first(keys, k, r),
    ensures
        first_pos(keys, k) == match r {
            Some(i) => Some(i as int),
            None => None::<int>,
        },
    decreases keys.len(),
{
    if keys.len() > 0 && keys[0] != k {
        let t = keys.drop_first();
        let r2: Option<usize> = match r {
            Some(i) => Some((i - 1) as usize),
            None => None,
        };
        assert forall|j: int| 0 <= j < t.len() && (r is None || j < r->0 - 1) implies t[j] != k by {
            assert(t[j] == keys[j + 1]);
        }
        if let Some(i) = r {
            assert(t[i - 1] == keys[i as int]);
        }
        lemma_first_pos(t, k, r2);
    }
}

/// Album ids.
pub open spec fn album_keys(s: Seq<Album>) -> Seq<Seq<char>> {
    s.map_values(|a: Album| a.cid@)
}

/// Album-detail ids.
pub open spec fn detail_keys(s: Seq<AlbumDetail>) -> Seq<Seq<char>> {
    s.map_values(|a: AlbumDetail| a.cid@)
}

/// Song-detail ids.
pub open spec fn song_detail_keys(s: Seq<SongDetail>) -> Seq<Seq<char>> {
    s.map_values(|a: SongDetail| a.cid@)
}

/// Song ids of a song list.
pub open spec fn song_keys(s: Seq<Song>) -> Seq<Seq<char>> {
    s.map_values(|a: Song| a.cid@)
}

/// Song ids of an album's songs.
pub open spec fn album_song_keys(s: Seq<AlbumSong>) -> Seq<Seq<char>> {
    s.map_values(|a: AlbumSong| a.cid@)
}

/// Lyric-cache keys.
pub open spec fn lyric_keys(s: Seq<(String, Vec<LyricLine>)>) -> Seq<Seq<char>> {
    s.map_values(|e: (String, Vec<LyricLine>)| e.0@)
}

/// First album whose id is `cid`.
pub fn find_album(v: &Vec<Album>, cid: &String) -> (r: Option<usize>)
    ensures
        is_first(album_keys(v@), cid@, r),
{
    let mut i: usize = 0;
    while i < v.len()
        invariant
            i <= v.len(),
            forall|j: int| 0 <= j < i ==> album_keys(v@)[j] != cid@,
        decreases v.len() - i,
    {
        if v[i].cid == *cid {
            return Some(i);
        }
        i = i + 1;
    }
    None
}

/// First album detail whose id is `cid`.
pub fn find_detail(v: &Vec<AlbumDetail>, cid: &String) -> (r: Option<usize>)
    ensures
        is_first(detail_keys(v@), cid@, r),
{
    let mut i: usize = 0;
    while i < v.len()
        invariant
            i <= v.len(),
            forall|j: int| 0 <= j < i ==> detail_keys(v@)[j] != cid@,
        decreases v.len() - i,
    {
        if v[i].cid == *cid {
            return Some(i);
        }
        i = i + 1;
    }
    None
}

/// First song detail whose id is `cid`.
pub fn find_song_detail(v: &Vec<SongDetail>, cid: &String) -> (r: Option<usize>)
    ensures
        is_first(song_detail_keys(v@), cid@, r),
{
    let mut i: usize = 0;
    while i < v.len()
        invariant
            i <= v.len(),
            forall|j: int| 0 <= j < i ==> song_detail_keys(v@)[j] != cid@,
        decreases v.len() - i,
    {
        if v[i].cid == *cid {
            return Some(i);
        }
        i = i + 1;
    }
    None
}

/// First song whose id is `cid`.
pub fn find_song(v: &Vec<Song>, cid: &String) -> (r: Option<usize>)
    ensures
        is_first(song_keys(v@), cid@, r),
{
    let mut i: usize = 0;
    while i < v.len()
        invariant
            i <= v.len(),
            forall|j: int| 0 <= j < i ==> song_keys(v@)[j] != cid@,
        decreases v.len() - i,
    {
        if v[i].cid == *cid {
            return Some(i);
        }
        i = i + 1;
    }
    None
}

/// First album song whose id is `cid`.
pub fn find_album_song(v: &Vec<AlbumSong>, cid: &String) -> (r: Option<usize>)
    ensures
        is_first(album_song_keys(v@), cid@, r),
{
    let mut i: usize = 0;
    while i < v.len()
        invariant
            i <= v.len(),
            forall|j: int| 0 <= j < i ==> album_song_keys(v@)[j] != cid@,
        decreases v.len() - i,
    {
        if v[i].cid == *cid {
            return Some(i);
        }
        i = i + 1;
    }
    None
}

// ---------------------------------------------------------------------------
// Randomness
// ---------------------------------------------------------------------------

/// Calls `fastrand::usize(low..=high)`: a random number between `low` and
/// `high`, both included. The range must not be empty, or fastrand panics.
#[verifier::external_body]
pub(crate) fn random_in(low: usize, high: usize) -> (r: usize)
    requires
        low <= high,
    ensures
        low <= r <= high,
{
    fastrand::usize(low..=high)
}

/// Exchanges two songs of a list.
fn swap_songs(v: &mut Vec<Song>, i: usize, j: usize)
    requires
        i < old(v).len(),
        j < old(v).len(),
    ensures
        final(v).len() == old(v).len(),
        song_views(final(v)@) == song_views(old(v)@).update(i as int, old(v)@[j as int]@).update(
            j as int,
            old(v)@[i as int]@,
        ),
{
    let a = v[i].clone();
    let b = v[j].clone();
    v[i] = b;
    v[j] = a;
    assert(song_views(v@) =~= song_views(old(v)@).update(i as int, old(v)@[j as int]@).update(
        j as int,
        old(v)@[i as int]@,
    ));
}

/// Exchanging two elements keeps the multiset of elements.
pub proof fn lemma_swap_multiset<A>(s: Seq<A>, i: int, j: int)
    requires
        0 <= i < s.len(),
        0 <= j < s.len(),
    ensures
        s.update(i, s[j]).update(j, s[i]).to_multiset() == s.to_multiset(),
{
    broadcast use vstd::seq_lib::to_multiset_update;
    broadcast use vstd::multiset::group_multiset_properties;

    broadcast use vstd::seq_lib::to_multiset_contains;

    let s1 = s.update(i, s[j]);
    if i == j {
        assert(s.update(i, s[j]).update(j, s[i]) =~= s);
    } else {
        let m = s.to_multiset();
        assert(s.contains(s[i]));
        assert(s.contains(s[j]));
        assert(m.count(s[i]) > 0);
        assert(m.count(s[j]) > 0);
        let m1 = m.insert(s[j]).remove(s[i]);
        assert(s1.to_multiset() == m1);
        assert(s1[j] == s[j]);
        let m2 = m1.insert(s[i]).remove(s[j]);
        assert(s1.update(j, s[i]).to_multiset() == m2);
        assert(m2 =~= m);
    }
}

/// How many swaps a shuffle of `len` items makes: one for each position from
/// the last down to the second.
pub open spec fn shuffle_steps(len: nat) -> nat {
    if len > 1 { (len - 1) as nat } else { 0 }
}

/// Whether `picks` can drive a shuffle of `len` items: one pick per swap, the
/// `k`-th swap being made at position `len - 1 - k` with a pick at or before
/// that position.
pub open spec fn valid_picks(picks: Seq<usize>, len: nat) -> bool {
    &&& picks.len() == shuffle_steps(len)
    &&& forall|k: int| 0 <= k < picks.len() ==> #[trigger] picks[k] < len - k
}

/// The list `s` after the first `n` swaps of a Fisher-Yates shuffle driven by
/// `picks`: the `k`-th swap exchanges position `len - 1 - k` with position
/// `picks[k]`.
pub open spec fn shuffled<A>(s: Seq<A>, picks: Seq<usize>, n: nat) -> Seq<A>
    decreases n,
{
    if n == 0 {
        s
    } else {
        let t = shuffled(s, picks, (n - 1) as nat);
        let i = s.len() - n;
        let j = picks[n - 1] as int;
        t.update(i, t[j]).update(j, t[i])
    }
}

/// A shuffle keeps the length and the items of the list.
proof fn lemma_shuffled<A>(s: Seq<A>, picks: Seq<usize>, n: nat)
    requires
        valid_picks(picks, s.len()),
        n <= picks.len(),
    ensures
        shuffled(s, picks, n).len() == s.len(),
        shuffled(s, picks, n).to_multiset() == s.to_multiset(),
    decreases n,
{
    if n > 0 {
        lemma_shuffled(s, picks, (n - 1) as nat);
        let t = shuffled(s, picks, (n - 1) as nat);
        let k = n - 1;
        assert(picks[k] < s.len() - k);
        lemma_swap_multiset(t, s.len() - n, picks[n - 1] as int);
    }
}

/// Shuffles a list by the given picks; see [`shuffled`].
pub fn shuffle_by(v: &mut Vec<Song>, picks: &Vec<usize>)
    requires
        valid_picks(picks@, old(v).len() as nat),
    ensures
        final(v).len() == old(v).len(),
        song_views(final(v)@) == shuffled(song_views(old(v)@), picks@, picks@.len()),
{
    let len = v.len();
    let mut k: usize = 0;
    while k < picks.len()
        invariant
            v.len() == len,
            len == old(v).len(),
            k <= picks.len(),
            valid_picks(picks@, len as nat),
            song_views(v@) == shuffled(song_views(old(v)@), picks@, k as nat),
        decreases picks.len() - k,
    {
        assert(picks@[k as int] < len - k);
        let i = len - 1 - k;
        let j = picks[k];
        swap_songs(v, i, j);
        k = k + 1;
        assert(song_views(v@) == shuffled(song_views(old(v)@), picks@, k as nat));
    }
}

/// Whether `log` holds the draws of a shuffle of `len` items: the `k`-th
/// draw is taken from `0..=len-1-k` and lies in it.
pub open spec fn shuffle_draws(log: Seq<(usize, usize, usize)>, len: nat) -> bool {
    &&& log.len() == shuffle_steps(len)
    &&& forall|k: int| 0 <= k < log.len() ==> (#[trigger] log[k]).0 == 0 && log[k].1 == len - 1 - k
        && log[k].2 <= log[k].1
}

/// Shuffles a list in place, Fisher-Yates style: from the last position down
/// to the second, each position swaps with a random position at or before it.
/// The returned record holds the random draws, one for each swap, each from
/// the whole range `0..=i`; the result is the shuffle driven by exactly those
/// draws.
pub fn shuffle_songs(v: &mut Vec<Song>) -> (draws: Draws)
    ensures
        final(v).len() == old(v).len(),
        song_views(final(v)@).to_multiset() == song_views(old(v)@).to_multiset(),
        exists|picks: Seq<usize>|
            #[trigger] valid_picks(picks, old(v).len() as nat) && song_views(final(v)@) == shuffled(
                song_views(old(v)@),
                picks,
                picks.len(),
            ),
        shuffle_draws(draws.log(), old(v).len() as nat),
        song_views(final(v)@) == shuffled(
            song_views(old(v)@),
            drawn_values(draws.log()),
            draws.log().len(),
        ),
{
    let len = v.len();
    let mut draws = Draws::new();
    let mut picks: Vec<usize> = Vec::new();
    let mut i = len;
    while i > 1
        invariant
            i <= len,
            1 <= i || len == 0,
            picks.len() + i == len,
            forall|k: int| 0 <= k < picks.len() ==> #[trigger] picks@[k] < len - k,
            picks@ == drawn_values(draws.log()),
            draws.log().len() == picks.len(),
            forall|k: int| 0 <= k < draws.log().len() ==> (#[trigger] draws.log()[k]).0 == 0
                && draws.log()[k].1 == len - 1 - k && draws.log()[k].2 <= draws.log()[k].1,
        decreases i,
    {
        i = i - 1;
        let ghost before = draws.log();
        let j = draws.draw(0, i);
        picks.push(j);
        assert(drawn_values(draws.log()) =~= drawn_values(before).push(j));
    }
    assert(valid_picks(picks@, len as nat));
    shuffle_by(v, &picks);
    proof {
        lemma_shuffled(song_views(old(v)@), picks@, picks@.len());
    }
    draws
}

/// The last position after a shuffle holds the item the first swap picked;
/// no later swap reaches it.
proof fn lemma_shuffled_last<A>(s: Seq<A>, picks: Seq<usize>, n: nat)
    requires
        valid_picks(picks, s.len()),
        1 <= n <= picks.len(),
    ensures
        shuffled(s, picks, n)[s.len() - 1] == s[picks[0] as int],
    decreases n,
{
    lemma_shuffled(s, picks, (n - 1) as nat);
    let k = n - 1;
    assert(picks[k] < s.len() - k);
    if n > 1 {
        lemma_shuffled_last(s, picks, (n - 1) as nat);
    }
}

/// In a shuffle of at least two items, the last place ends up holding the
/// item at the first draw, whatever the later draws are: so drawing 0 first
/// moves the first item to the end, and the order changes whenever the
/// first and last items differ.
pub proof fn law_shuffle_follows_first_draw(old: Seq<SongView>, log: Seq<(usize, usize, usize)>, new: Seq<SongView>)
    requires
        old.len() >= 2,
        shuffle_draws(log, old.len()),
        new == shuffled(old, drawn_values(log), log.len()),
    ensures
        new.len() == old.len(),
        new[old.len() - 1] == old[log[0].2 as int],
        log[0].2 == 0 && old[0] != old[old.len() - 1] ==> new != old,
{
    let picks = drawn_values(log);
    assert(valid_picks(picks, old.len())) by {
        assert forall|k: int| 0 <= k < picks.len() implies #[trigger] picks[k] < old.len() - k by {
            assert(picks[k] == log[k].2);
        }
    }
    lemma_shuffled(old, picks, log.len());
    lemma_shuffled_last(old, picks, log.len());
    assert(picks[0] == log[0].2);
}


// ---------------------------------------------------------------------------
// Loved songs
// ---------------------------------------------------------------------------

/// The loved songs keyed by song id; a later entry with the same id wins.
pub open spec fn loved_map(s: Seq<LovedEntryView>) -> Map<Seq<char>, LovedEntryView>
    decreases s.len(),
{
    if s.len() == 0 {
        Map::empty()
    } else {
        loved_map(s.drop_last()).insert(s.last().cid, s.last())
    }
}

proof fn lemma_loved_map_dom(s: Seq<LovedEntryView>, k: Seq<char>)
    ensures
        loved_map(s).contains_key(k) <==> exists|i: int| 0 <= i < s.len() && s[i].cid == k,
    decreases s.len(),
{
    if s.len() > 0 {
        lemma_loved_map_dom(s.drop_last(), k);
        if loved_map(s.drop_last()).contains_key(k) {
            let i = choose|i: int| 0 <= i < s.drop_last().len() && s.drop_last()[i].cid == k;
            assert(s[i].cid == k);
        }
        if exists|i: int| 0 <= i < s.len() && s[i].cid == k {
            let i = choose|i: int| 0 <= i < s.len() && s[i].cid == k;
            if i < s.len() - 1 {
                assert(s.drop_last()[i].cid == k);
            }
        }
    }
}

/// With distinct ids, dropping the entry at `i` drops its key from the map.
proof fn lemma_loved_map_remove(s: Seq<LovedEntryView>, i: int)
    requires
        0 <= i < s.len(),
        distinct_cids(s),
    ensures
        loved_map(s.remove(i)) == loved_map(s).remove(s[i].cid),
    decreases s.len(),
{
    let k = s[i].cid;
    if i == s.len() - 1 {
        assert(s.remove(i) == s.drop_last());
        lemma_loved_map_dom(s.drop_last(), k);
        assert(!loved_map(s.drop_last()).contains_key(k));
        assert(loved_map(s.drop_last()) =~= loved_map(s).remove(k));
    } else {
        let t = s.drop_last();
        assert(distinct_cids(t));
        lemma_loved_map_remove(t, i);
        assert(s.remove(i) == t.remove(i).push(s.last()));
        assert(s.remove(i).drop_last() == t.remove(i));
        assert(s.last().cid != k);
        assert(loved_map(s.remove(i)) =~= loved_map(s).remove(k));
    }
}

/// A song whose id is new to the list joins the loved songs.
proof fn lemma_loved_push_distinct(s: Seq<LovedEntryView>, e: LovedEntryView)
    requires
        distinct_cids(s),
        !loved_map(s).contains_key(e.cid),
    ensures
        distinct_cids(s.push(e)),
{
    lemma_loved_map_dom(s, e.cid);
}

/// Builds a loved set from entries; a later entry with an id seen before
/// replaces the earlier one.
pub fn loved_from_entries(entries: Vec<LovedEntry>) -> (r: Vec<LovedEntry>)
    ensures
        distinct_cids(loved_views(r@)),
        loved_map(loved_views(r@)) == loved_map(loved_views(entries@)),
{
    let mut r: Vec<LovedEntry> = Vec::new();
    let mut i: usize = 0;
    while i < entries.len()
        invariant
            i <= entries.len(),
            distinct_cids(loved_views(r@)),
            loved_map(loved_views(r@)) == loved_map(loved_views(entries@).take(i as int)),
        decreases entries.len() - i,
    {
        let e = entries[i].clone();
        let ghost before = loved_views(r@);
        match find_loved(&r, e.cid.as_str()) {
            Some(j) => {
                r.remove(j);
                proof {
                    assert(loved_views(r@) == before.remove(j as int));
                    lemma_loved_map_remove(before, j as int);
                    assert(distinct_cids(loved_views(r@)));
                    assert(loved_map(loved_views(r@)).insert(e@.cid, e@) =~= loved_map(
                        before,
                    ).insert(e@.cid, e@));
                }
            },
            None => {
                proof {
                    lemma_loved_map_dom(before, e@.cid);
                }
            },
        }
        let ghost mid = loved_views(r@);
        proof {
            lemma_loved_map_dom(mid, e@.cid);
        }
        r.push(e);
        proof {
            assert(loved_views(r@) == mid.push(e@));
            assert(mid.push(e@).drop_last() == mid);
            assert(loved_map(loved_views(r@)) == loved_map(mid).insert(e@.cid, e@));
            assert(loved_views(entries@).take(i + 1).drop_last() == loved_views(entries@).take(
                i as int,
            ));
            assert(loved_map(loved_views(r@)) =~= loved_map(
                loved_views(entries@).take(i + 1),
            ));
        }
        i = i + 1;
    }
    assert(loved_views(entries@).take(entries.len() as int) == loved_views(entries@));
    r
}

// ---------------------------------------------------------------------------
// The engine
// ---------------------------------------------------------------------------

/// What the engine asks its host to do.
#[derive(Clone, Copy, PartialEq, Eq, Structural, Debug)]
pub enum EffectKind {
    /// GET /api/albums; hand the result to the next update.
    FetchAlbums,
    /// GET /api/album/{arg}/detail; hand the result to the next update.
    FetchAlbumDetail,
    /// Fetch album `arg` in the background and put it into the detail cache.
    PreloadAlbumDetail,
    /// GET /api/song/{arg}; hand the result to the next update, dropping any older request.
    FetchSongDetail,
    /// Fetch song `arg` in the background and put it into the song cache.
    PreloadSongDetail,
    /// GET /api/songs; hand the result to the next update.
    FetchAllSongs,
    /// Download the lyrics at URL `arg`; hand the text to the next update.
    FetchLyrics,
    /// Stop the player, if there is one.
    StopPlayback,
    /// Cancel the running audio download, if any.
    CancelDownload,
    /// Create the player if there is none and give it the engine's volume.
    EnsurePlayer,
    /// Start downloading the audio at URL `arg` into a fresh buffer.
    StartDownload,
    /// Play the downloaded buffer from its start; report through `on_stream_started`.
    StartStream,
    /// Playback ran dry before the download ended: replay the buffer from the
    /// elapsed time, trying up to three times.
    RecoverStream,
    /// The download is complete: keep it for seeking and, when more than half a
    /// second has played, replay it from the elapsed time.
    SwitchStream,
    /// Give the player the engine's volume.
    SetVolume,
    /// Toggle pause on the player, if there is one; report through `on_pause_state`.
    TogglePause,
    /// Replay the kept audio from its start.
    RestartSong,
    /// Seek forward by a twentieth of the song.
    SeekForward,
    /// Seek backward by a twentieth of the song.
    SeekBackward,
    /// Write the loved songs to disk.
    SaveLoved,
}

/// One request of the engine to its host, with its text argument (an id or
/// a URL; empty when the kind takes none).
pub struct Effect {
    pub kind: EffectKind,
    pub arg: String,
}

impl View for Effect {
    type V = (EffectKind, Seq<char>);

    open spec fn view(&self) -> (EffectKind, Seq<char>) {
        (self.kind, self.arg@)
    }
}

/// The views of a list of effects.
pub open spec fn effect_views(s: Seq<Effect>) -> Seq<(EffectKind, Seq<char>)> {
    s.map_values(|e: Effect| e@)
}

/// What the host reports of its player at the start of a frame.
#[derive(Clone, Copy)]
pub struct PlayerStatus {
    /// Nothing is queued for playback.
    pub is_empty: bool,
    /// Playback position in whole milliseconds.
    pub elapsed_ms: u64,
}

/// Everything that arrived since the last frame.
pub struct FrameInput {
    pub albums: Option<Result<Vec<Album>, String>>,
    pub detail: Option<Result<AlbumDetail, String>>,
    pub song: Option<Result<SongDetail, String>>,
    pub all_songs: Option<Result<Vec<Song>, String>>,
    /// The downloaded lyrics text.
    pub lyrics: Option<Result<String, String>>,
    /// Bytes of audio downloaded so far into the current buffer.
    pub stream_len: usize,
    /// The current audio download has ended.
    pub stream_done: bool,
    /// The player, when there is one.
    pub player: Option<PlayerStatus>,
}

/// Size of the first chunk of audio that starts playback.
pub const FIRST_CHUNK_BYTES: usize = 8388608;

/// The album side of the engine: the album list, the current album and its songs.
pub struct Catalog {
    pub albums: Vec<Album>,
    pub album_index: usize,
    pub songs: Vec<AlbumSong>,
    pub songs_loaded: bool,
    pub album_name: Option<String>,
    pub album_artist: Option<String>,
    pub album_total: usize,
    /// Album details fetched so far.
    pub detail_cache: Vec<AlbumDetail>,
    pub albums_pending: bool,
    pub detail_pending: bool,
    /// Song to select once the album being fetched arrives.
    pub pending_jump_cid: Option<String>,
}

/// The full song list and the global queue built from it.
pub struct GlobalQueue {
    pub all_songs: Vec<Song>,
    pub all_songs_loaded: bool,
    pub all_songs_pending: bool,
    pub global_playlist: Vec<Song>,
    pub global_index: usize,
}

/// The loved songs.
pub struct Loved {
    /// One entry per song id.
    pub loved_cids: Vec<LovedEntry>,
    /// The loved songs as shown and played.
    pub loved_list: Vec<LovedEntry>,
}

/// The lyrics of the current song.
pub struct LyricsState {
    pub lyrics: Vec<LyricLine>,
    pub lyric_index: usize,
    /// Parsed lyrics by URL.
    pub lyric_cache: Vec<(String, Vec<LyricLine>)>,
    pub lyric_pending: bool,
}

/// What is playing and how its audio is being fetched.
pub struct Playback {
    pub playing: bool,
    /// Volume, 0 to 100.
    pub volume: u8,
    pub current_song_name: Option<String>,
    pub current_song_cid: Option<String>,
    pub current_song_index: Option<usize>,
    pub song_info: Option<String>,
    pub album_intro: Option<String>,
    pub buffering: bool,
    pub buffering_msg: Option<String>,
    /// Song details fetched so far.
    pub song_cache: Vec<SongDetail>,
    pub song_pending: bool,
    /// The song whose audio is being buffered.
    pub pending_song: Option<SongDetail>,
    /// An audio download buffer exists.
    pub streaming: bool,
    /// The end of that download is still watched for.
    pub stream_done_watch: bool,
    pub stream_started: bool,
    pub stream_switched: bool,
    /// The whole audio of the current song is kept for seeking.
    pub has_wav_data: bool,
}

/// The player engine: albums, the current album's songs, play modes, the
/// global queue, loved songs, lyrics and the progressive-download state.
/// It does no I/O: it records what it needs done in `outbox` and learns the
/// outcome through `update` and the `on_*` reports.
pub struct Engine {
    pub catalog: Catalog,
    pub queue: GlobalQueue,
    pub loved: Loved,
    pub lyric: LyricsState,
    pub now: Playback,
    pub play_mode: PlayMode,
    /// Requests for the host, oldest first.
    pub outbox: Vec<Effect>,
}

/// The volume one step up: 5 more, at most 100.
pub open spec fn raised(v: u8) -> u8 {
    if v + 5 <= 100 {
        (v + 5) as u8
    } else {
        100
    }
}

/// The volume one step down: 5 less, at least 0.
pub open spec fn lowered(v: u8) -> u8 {
    if v >= 5 {
        (v - 5) as u8
    } else {
        0
    }
}

/// The album after `i` of `n`, wrapping around.
pub open spec fn next_index(i: usize, n: nat) -> usize {
    ((i + 1) % n as int) as usize
}

/// The album before `i` of `n`, wrapping around.
pub open spec fn prev_index(i: usize, n: nat) -> usize {
    if i > 0 {
        (i - 1) as usize
    } else {
        (n - 1) as usize
    }
}

/// Whether `m` walks the global queue.
pub open spec fn is_global(m: PlayMode) -> bool {
    m == PlayMode::GlobalList || m == PlayMode::GlobalRandom
}

/// Whether `m` plays the loved songs.
pub open spec fn is_love(m: PlayMode) -> bool {
    m == PlayMode::LoveList || m == PlayMode::LoveRandom
}

/// `new` is `old` after asking for the full song list, which happens unless
/// the list is loaded or asked for already.
pub open spec fn all_songs_asked(old: Engine, new: Engine) -> bool {
    &&& new.catalog == old.catalog
    &&& new.loved == old.loved
    &&& new.lyric == old.lyric
    &&& new.now == old.now
    &&& new.play_mode == old.play_mode
    &&& if old.queue.all_songs_loaded || old.queue.all_songs_pending {
        new.queue == old.queue && new.outbox == old.outbox
    } else {
        &&& new.queue == (GlobalQueue { all_songs_pending: true, ..old.queue })
        &&& new.effects() == old.effects().push((EffectKind::FetchAllSongs, Seq::empty()))
    }
}

/// `new` is `old` after making sure of the global queue: an empty queue is
/// filled from the full song list, shuffled in global-random mode, and the
/// position goes back to its start.
pub open spec fn queue_ensured(old: GlobalQueue, mode: PlayMode, new: GlobalQueue) -> bool {
    if old.global_playlist.len() > 0 || old.all_songs.len() == 0 {
        new == old
    } else {
        &&& new == (GlobalQueue { global_playlist: new.global_playlist, global_index: 0, ..old })
        &&& new.global_playlist.len() == old.all_songs.len()
        &&& song_views(new.global_playlist@).to_multiset() == song_views(
            old.all_songs@,
        ).to_multiset()
        &&& mode != PlayMode::GlobalRandom ==> song_views(new.global_playlist@) == song_views(
            old.all_songs@,
        )
    }
}

/// `new` follows from `old` by entering a global mode through the state
/// `mid`: the full song list was asked for (yielding `mid`), then an empty
/// queue was built, or an existing one shuffled in place on reaching
/// global-random, or left as it was.
pub open spec fn cycled_via(old: Engine, mid: Engine, new: Engine) -> bool {
    &&& all_songs_asked(Engine { play_mode: new.play_mode, ..old }, mid)
    &&& new == (Engine { queue: new.queue, ..mid })
    &&& if mid.queue.global_playlist.len() == 0 {
        queue_ensured(mid.queue, mid.play_mode, new.queue)
    } else if new.play_mode == PlayMode::GlobalRandom {
        &&& new.queue == (GlobalQueue { global_playlist: new.queue.global_playlist, ..mid.queue })
        &&& song_views(new.queue.global_playlist@).to_multiset() == song_views(
            mid.queue.global_playlist@,
        ).to_multiset()
        &&& new.queue.global_playlist.len() == mid.queue.global_playlist.len()
    } else {
        new.queue == mid.queue
    }
}

/// `new` is `old` after moving to the next play mode. Entering a global
/// mode asks for the full song list and makes sure of the queue (through
/// `mid`); any other mode changes nothing else.
pub open spec fn mode_cycled(old: Engine, new: Engine) -> bool {
    &&& new.play_mode == next_mode(old.play_mode)
    &&& !is_global(new.play_mode) ==> new == (Engine { play_mode: new.play_mode, ..old })
    &&& is_global(new.play_mode) ==> exists|mid: Engine| #[trigger] cycled_via(old, mid, new)
}

/// `new` is `old` after loving the song `cid`, or no longer loving it when
/// it was loved; the shown list follows the loved set and saving is asked for.
pub open spec fn love_flipped(
    old: Engine,
    new: Engine,
    cid: Seq<char>,
    name: Seq<char>,
    artists: Seq<Seq<char>>,
) -> bool {
    &&& new.loved.map() == if old.loved.map().contains_key(cid) {
        old.loved.map().remove(cid)
    } else {
        old.loved.map().insert(cid, LovedEntryView { cid, name, artists })
    }
    &&& loved_views(new.loved.loved_list@) == loved_views(new.loved.loved_cids@)
    &&& new.catalog == old.catalog
    &&& new.queue == old.queue
    &&& new.lyric == old.lyric
    &&& new.now == old.now
    &&& new.play_mode == old.play_mode
    &&& new.effects() == old.effects().push((EffectKind::SaveLoved, Seq::empty()))
}

/// `new` is `old` with one more request of kind `k`, without argument, and
/// nothing else changed.
pub open spec fn asked(old: Engine, new: Engine, k: EffectKind) -> bool {
    &&& new.catalog == old.catalog
    &&& new.queue == old.queue
    &&& new.loved == old.loved
    &&& new.lyric == old.lyric
    &&& new.now == old.now
    &&& new.play_mode == old.play_mode
    &&& new.effects() == old.effects().push((k, Seq::empty()))
}

/// `new` is `old` with the loved songs brought up to date from the song
/// cache and the album's songs, the shown list following them.
pub open spec fn loved_refreshed(old: Engine, new: Engine) -> bool {
    &&& loved_views(new.loved.loved_cids@) == refreshed_all(
        loved_views(old.loved.loved_cids@),
        old.catalog.songs@,
        old.now.song_cache@,
    )
    &&& loved_views(new.loved.loved_list@) == loved_views(new.loved.loved_cids@)
    &&& new.catalog == old.catalog
    &&& new.queue == old.queue
    &&& new.lyric == old.lyric
    &&& new.now == old.now
    &&& new.play_mode == old.play_mode
    &&& new.outbox == old.outbox
}

/// Index of the `k`-th album preloaded around album `i` of `total`: one
/// back, one ahead, two back, two ahead, wrapping around.
pub open spec fn neighbour(i: int, total: int, k: int) -> int {
    let off = if k < 2 {
        1int
    } else {
        2int
    };
    if k % 2 == 0 {
        (i - off) % total
    } else {
        (i + off) % total
    }
}

/// Preload requests for the first `k` neighbours of the current album whose
/// details are not cached.
pub open spec fn preload_albums_fx(c: Catalog, k: nat) -> Seq<(EffectKind, Seq<char>)>
    decreases k,
{
    if k == 0 {
        Seq::empty()
    } else {
        let prev = preload_albums_fx(c, (k - 1) as nat);
        let cid = c.albums@[neighbour(
            c.album_index as int,
            c.albums.len() as int,
            k - 1,
        )].cid@;
        if first_pos(detail_keys(c.detail_cache@), cid) is Some {
            prev
        } else {
            prev.push((EffectKind::PreloadAlbumDetail, cid))
        }
    }
}

/// The preload requests depend only on the albums, the position and the cache.
proof fn lemma_preload_albums_same(c1: Catalog, c2: Catalog, k: nat)
    requires
        c1.albums == c2.albums,
        c1.album_index == c2.album_index,
        c1.detail_cache == c2.detail_cache,
    ensures
        preload_albums_fx(c1, k) == preload_albums_fx(c2, k),
    decreases k,
{
    if k > 0 {
        lemma_preload_albums_same(c1, c2, (k - 1) as nat);
    }
}

/// Preload requests for the albums around the current one: none when there
/// is at most one album.
pub open spec fn adjacent_fx(c: Catalog) -> Seq<(EffectKind, Seq<char>)> {
    if c.albums.len() <= 1 {
        Seq::empty()
    } else {
        preload_albums_fx(c, 4)
    }
}

/// Preload requests for the first `k` songs whose details are not cached.
pub open spec fn preload_songs_fx(songs: Seq<AlbumSong>, cache: Seq<SongDetail>, k: nat) -> Seq<
    (EffectKind, Seq<char>),
>
    decreases k,
{
    if k == 0 {
        Seq::empty()
    } else {
        let prev = preload_songs_fx(songs, cache, (k - 1) as nat);
        let cid = songs[k - 1].cid@;
        if first_pos(song_detail_keys(cache), cid) is Some {
            prev
        } else {
            prev.push((EffectKind::PreloadSongDetail, cid))
        }
    }
}

/// Preload requests for the first three songs of an album.
pub open spec fn first_songs_fx(songs: Seq<AlbumSong>, cache: Seq<SongDetail>) -> Seq<
    (EffectKind, Seq<char>),
> {
    preload_songs_fx(songs, cache, if songs.len() < 3 {
        songs.len()
    } else {
        3
    })
}

/// The last song of `songs` with id `cid`.
pub open spec fn song_override(songs: Seq<AlbumSong>, cid: Seq<char>) -> Option<AlbumSong>
    decreases songs.len(),
{
    if songs.len() == 0 {
        None
    } else if songs.last().cid@ == cid {
        Some(songs.last())
    } else {
        song_override(songs.drop_last(), cid)
    }
}

/// A loved entry with name and artists taken from the song cache, when it
/// holds the song.
pub open spec fn from_cache(e: LovedEntryView, cache: Seq<SongDetail>) -> LovedEntryView {
    match first_pos(song_detail_keys(cache), e.cid) {
        Some(i) => LovedEntryView { cid: e.cid, name: cache[i].name@, artists: views(cache[i].artists@) },
        None => e,
    }
}

/// A loved entry brought up to date: from the last song of the current album
/// with its id, else from the song cache, else as it was.
pub open spec fn refreshed(e: LovedEntryView, songs: Seq<AlbumSong>, cache: Seq<SongDetail>) -> LovedEntryView {
    match song_override(songs, e.cid) {
        Some(s) => LovedEntryView { cid: e.cid, name: s.name@, artists: views(s.artistes@) },
        None => from_cache(e, cache),
    }
}

/// Every loved entry brought up to date.
pub open spec fn refreshed_all(s: Seq<LovedEntryView>, songs: Seq<AlbumSong>, cache: Seq<SongDetail>) -> Seq<LovedEntryView> {
    s.map_values(|e: LovedEntryView| refreshed(e, songs, cache))
}

/// `new` is `old` after selecting the current album: its name and artists
/// are shown; cached details give its songs at once (the loved songs are
/// refreshed from them and the first songs preloaded), else the details are
/// asked for unless a request is out; the neighbouring albums are preloaded.
pub open spec fn album_selected(old: Engine, new: Engine) -> bool {
    let c = old.catalog;
    if c.albums.len() == 0 {
        new == old
    } else {
        let a = c.albums@[c.album_index as int];
        &&& new.queue == old.queue
        &&& new.lyric == old.lyric
        &&& new.now == old.now
        &&& new.play_mode == old.play_mode
        &&& new.catalog == (Catalog {
            album_name: new.catalog.album_name,
            album_artist: new.catalog.album_artist,
            songs: new.catalog.songs,
            songs_loaded: new.catalog.songs_loaded,
            detail_pending: new.catalog.detail_pending,
            ..c
        })
        &&& new.catalog.album_name matches Some(n) && n@ == a.name@
        &&& new.catalog.album_artist matches Some(n) && n@ == joined(views(a.artistes@), ", "@)
        &&& match first_pos(detail_keys(c.detail_cache@), a.cid@) {
            Some(i) => {
                &&& album_song_views(new.catalog.songs@) == album_song_views(
                    c.detail_cache@[i].songs@,
                )
                &&& new.catalog.songs_loaded
                &&& new.catalog.detail_pending == c.detail_pending
                &&& new.loved.wf()
                &&& loved_views(new.loved.loved_cids@) == refreshed_all(
                    loved_views(old.loved.loved_cids@),
                    new.catalog.songs@,
                    old.now.song_cache@,
                )
                &&& loved_views(new.loved.loved_list@) == loved_views(new.loved.loved_cids@)
                &&& new.effects() == old.effects() + adjacent_fx(c) + first_songs_fx(
                    new.catalog.songs@,
                    old.now.song_cache@,
                )
            },
            None => {
                &&& new.catalog.songs == c.songs
                &&& !new.catalog.songs_loaded
                &&& new.loved == old.loved
                &&& new.catalog.detail_pending
                &&& new.effects() == if c.detail_pending {
                    old.effects()
                } else {
                    old.effects().push((EffectKind::FetchAlbumDetail, a.cid@)) + adjacent_fx(c)
                }
            },
        }
    }
}

/// `prefix`, then the song name, `" - "` and the artists joined by `", "`.
pub open spec fn song_line(prefix: Seq<char>, name: Seq<char>, artists: Seq<Seq<char>>) -> Seq<char> {
    prefix + name + " - "@ + joined(artists, ", "@)
}

/// `new` is `old` after starting playback of song `s`: the old audio stops,
/// the song is shown and buffered while its audio downloads, its lyrics come
/// from the lyric cache or are asked for.
pub open spec fn playback_started(old: Engine, new: Engine, s: SongDetailView) -> bool {
    let lyrics_fx: Seq<(EffectKind, Seq<char>)> = match s.lyric_url {
        Some(u) => if first_pos(lyric_keys(old.lyric.lyric_cache@), u) is Some {
            Seq::empty()
        } else {
            seq![(EffectKind::FetchLyrics, u)]
        },
        None => Seq::empty(),
    };
    &&& new.catalog == old.catalog
    &&& new.queue == old.queue
    &&& new.loved == old.loved
    &&& new.play_mode == old.play_mode
    &&& new.now == (Playback {
        pending_song: new.now.pending_song,
        song_info: new.now.song_info,
        album_intro: new.now.album_intro,
        buffering: true,
        buffering_msg: new.now.buffering_msg,
        streaming: true,
        stream_done_watch: true,
        stream_started: false,
        stream_switched: false,
        ..old.now
    })
    &&& new.now.pending_song matches Some(p) && p@ == s
    &&& new.now.song_info matches Some(t) && t@ == song_line("Song: "@, s.name, s.artists)
    &&& new.now.buffering_msg matches Some(t) && t@ == song_line("Buffering: "@, s.name, s.artists)
    &&& opt_view(new.now.album_intro) == match first_pos(detail_keys(old.catalog.detail_cache@), s.album_cid) {
        Some(i) => Some(old.catalog.detail_cache@[i].intro@),
        None => None,
    }
    &&& new.lyric.lyric_index == 0
    &&& new.lyric.lyric_cache == old.lyric.lyric_cache
    &&& match s.lyric_url {
        Some(u) => match first_pos(lyric_keys(old.lyric.lyric_cache@), u) {
            Some(j) => line_views(new.lyric.lyrics@) == line_views(old.lyric.lyric_cache@[j].1@)
                && new.lyric.lyric_pending == old.lyric.lyric_pending,
            None => new.lyric.lyrics.len() == 0 && new.lyric.lyric_pending,
        },
        None => new.lyric.lyrics.len() == 0 && new.lyric.lyric_pending == old.lyric.lyric_pending,
    }
    &&& new.effects() == old.effects() + seq![
        (EffectKind::StopPlayback, Seq::empty()),
        (EffectKind::CancelDownload, Seq::empty()),
    ] + lyrics_fx + seq![
        (EffectKind::EnsurePlayer, Seq::empty()),
        (EffectKind::StartDownload, s.source_url),
    ]
}

/// `new` is `old` after going for song `cid`: a cached detail starts
/// playback at once, else the detail is asked for.
pub open spec fn went_for(old: Engine, new: Engine, cid: Seq<char>) -> bool {
    match first_pos(song_detail_keys(old.now.song_cache@), cid) {
        Some(i) => playback_started(old, new, old.now.song_cache@[i]@),
        None => {
            &&& new == (Engine {
                now: Playback { song_pending: true, ..old.now },
                outbox: new.outbox,
                ..old
            })
            &&& new.effects() == old.effects().push((EffectKind::FetchSongDetail, cid))
        },
    }
}

/// Whether playing `song` needs the current album to change: no album is
/// shown, or the song's album is unknown or named differently.
pub open spec fn needs_album_switch(c: Catalog, song: SongView) -> bool {
    match c.album_name {
        Some(n) => !(match first_pos(album_keys(c.albums@), song.album_cid) {
            Some(i) => c.albums@[i].name@ == n@,
            None => false,
        }),
        None => true,
    }
}

/// `new` follows from `old` by playing a song of the global queue through
/// the state `mid`: when the album must change and the song's album is
/// known, that album is selected (giving `mid`); then the song is gone for.
pub open spec fn global_song_via(old: Engine, mid: Engine, new: Engine, song: SongView) -> bool {
    &&& if needs_album_switch(old.catalog, song) && first_pos(
        album_keys(old.catalog.albums@),
        song.album_cid,
    ) is Some {
        album_selected(
            Engine {
                catalog: Catalog {
                    album_index: first_pos(album_keys(old.catalog.albums@), song.album_cid)->0 as usize,
                    ..old.catalog
                },
                ..old
            },
            mid,
        )
    } else {
        mid == old
    }
    &&& went_for(mid, new, song.cid)
}

/// `index` clamped to the last position of the queue.
pub open spec fn clamp_index(q: GlobalQueue, index: usize) -> usize {
    if index < q.global_playlist.len() {
        index
    } else {
        (q.global_playlist.len() - 1) as usize
    }
}

/// The queue position one step forward or back, wrapping around.
pub open spec fn step_index(q: GlobalQueue, forward: bool) -> usize {
    let len = q.global_playlist.len();
    if forward {
        ((q.global_index + 1) % len as int) as usize
    } else if q.global_index > 0 {
        (q.global_index - 1) as usize
    } else {
        (len - 1) as usize
    }
}

/// `new` follows from `old` by playing entry `idx` of the queue `q`
/// (which replaces the engine's queue, its position set to `idx`), through `mid`.
pub open spec fn queue_song_via(old: Engine, q: GlobalQueue, idx: usize, mid: Engine, new: Engine) -> bool {
    global_song_via(
        Engine { queue: GlobalQueue { global_index: idx, ..q }, ..old },
        mid,
        new,
        q.global_playlist@[idx as int]@,
    )
}

/// `new` is `old` after playing entry `index` of the list that the mode
/// plays from: the loved songs, the global queue (clamped to its last entry)
/// or the album's songs. An index past the end of the loved songs or of the
/// album, or an empty list, changes nothing.
pub open spec fn played_at(old: Engine, new: Engine, index: usize) -> bool {
    if is_love(old.play_mode) {
        if index >= old.loved.loved_list.len() {
            new == old
        } else {
            went_for(
                Engine { now: Playback { current_song_index: Some(index), ..old.now }, ..old },
                new,
                old.loved.loved_list@[index as int].cid@,
            )
        }
    } else if is_global(old.play_mode) {
        if old.queue.global_playlist.len() == 0 {
            new == old
        } else {
            exists|mid: Engine| #[trigger] queue_song_via(old, old.queue, clamp_index(old.queue, index), mid, new)
        }
    } else {
        if index >= old.catalog.songs.len() {
            new == old
        } else {
            went_for(
                Engine { now: Playback { current_song_index: Some(index), ..old.now }, ..old },
                new,
                old.catalog.songs@[index as int].cid@,
            )
        }
    }
}

/// `new` follows from `old` by stepping through the global queue: the queue
/// is made sure of (giving `q`); when it is not empty the position moves by
/// `step` (forward one, or back one with wrap-around) and that song plays.
pub open spec fn global_step_via(old: Engine, q: GlobalQueue, new: Engine, forward: bool) -> bool {
    &&& queue_ensured(old.queue, old.play_mode, q)
    &&& q.wf()
    &&& if q.global_playlist.len() == 0 {
        new == (Engine { queue: q, ..old })
    } else {
        exists|mid: Engine| #[trigger] queue_song_via(old, q, step_index(q, forward), mid, new)
    }
}

/// `new` is `old` after jumping to the album of the song with id `cid`,
/// with `r` telling whether it went: the first song of the full list with
/// that id gives the album id, and the first album with that id is selected,
/// the song marked to be picked once the album's songs are in. When the song
/// or its album is unknown nothing changes and `r` is false.
pub open spec fn jumped_to(old: Engine, new: Engine, cid: Seq<char>, r: bool) -> bool {
    match first_pos(song_keys(old.queue.all_songs@), cid) {
        Some(i) => match first_pos(album_keys(old.catalog.albums@), old.queue.all_songs@[i].album_cid@) {
            Some(j) => {
                &&& r
                &&& opt_view(new.catalog.pending_jump_cid) == Some(cid)
                &&& album_selected(
                    Engine {
                        catalog: Catalog {
                            album_index: j as usize,
                            pending_jump_cid: new.catalog.pending_jump_cid,
                            ..old.catalog
                        },
                        ..old
                    },
                    new,
                )
            },
            None => !r && new == old,
        },
        None => !r && new == old,
    }
}

/// `new` is `old` after moving to the next album (`forward`) or the previous
/// one, wrapping around, and selecting it; with no albums nothing changes.
pub open spec fn album_stepped(old: Engine, new: Engine, forward: bool) -> bool {
    let n = old.catalog.albums.len() as nat;
    let i = old.catalog.album_index;
    if n == 0 {
        new == old
    } else {
        album_selected(
            Engine {
                catalog: Catalog {
                    album_index: if forward { next_index(i, n) } else { prev_index(i, n) },
                    ..old.catalog
                },
                ..old
            },
            new,
        )
    }
}

/// Whether a song matches the lower-cased query `q`: by its name, one of
/// its artists, or the name of the first album with its album id.
pub open spec fn song_hit(albums: Seq<Album>, s: SongView, q: Seq<char>) -> bool {
    ||| contains_seq(lowercase(s.name), q)
    ||| exists|k: int| 0 <= k < s.artists.len() && contains_seq(lowercase(s.artists[k]), q)
    ||| match first_pos(album_keys(albums), s.album_cid) {
        Some(i) => contains_seq(lowercase(albums[i].name@), q),
        None => false,
    }
}

/// The songs of `s` that match `q`, in order.
pub open spec fn search_hits(albums: Seq<Album>, s: Seq<SongView>, q: Seq<char>) -> Seq<SongView>
    decreases s.len(),
{
    if s.len() == 0 {
        Seq::empty()
    } else {
        let p = search_hits(albums, s.drop_last(), q);
        if song_hit(albums, s.last(), q) {
            p.push(s.last())
        } else {
            p
        }
    }
}

/// The position after `current` (or after 0 when there is none) in a list
/// of `len` entries, wrapping around.
pub open spec fn next_in_list(current: Option<usize>, len: nat) -> usize {
    let c = match current {
        Some(i) => i as int,
        None => 0,
    };
    ((c + 1) % len as int) as usize
}

/// `new` is `old` after the current song ended (or failed) and the mode
/// chose what comes next: single mode stops and clears the song; global
/// modes step forward through the queue; random modes play a random entry
/// of the loved songs or the album; list modes play the entry after the
/// current one, wrapping around.
pub open spec fn advanced(old: Engine, new: Engine) -> bool {
    let len = if is_love(old.play_mode) {
        old.loved.loved_list.len()
    } else {
        old.catalog.songs.len()
    };
    match old.play_mode {
        PlayMode::Single => {
            &&& new == (Engine {
                now: Playback {
                    playing: false,
                    current_song_name: None,
                    current_song_cid: None,
                    current_song_index: None,
                    song_info: None,
                    album_intro: None,
                    ..old.now
                },
                lyric: LyricsState { lyrics: new.lyric.lyrics, ..old.lyric },
                ..old
            })
            &&& new.lyric.lyrics.len() == 0
        },
        PlayMode::GlobalRandom | PlayMode::GlobalList => exists|q: GlobalQueue|
            #[trigger] global_step_via(old, q, new, true),
        PlayMode::AlbumRandom | PlayMode::LoveRandom => if len == 0 {
            new == old
        } else {
            exists|r: usize| r < len && #[trigger] played_at(old, new, r)
        },
        _ => if len == 0 {
            new == old
        } else {
            played_at(old, new, next_in_list(old.now.current_song_index, len as nat))
        },
    }
}

/// The views of a list of album details.
pub open spec fn detail_views(s: Seq<AlbumDetail>) -> Seq<AlbumDetailView> {
    s.map_values(|d: AlbumDetail| d@)
}

/// The views of a list of song details.
pub open spec fn song_detail_views(s: Seq<SongDetail>) -> Seq<SongDetailView> {
    s.map_values(|d: SongDetail| d@)
}

/// A cache after storing a record under key `k`: it replaces the first
/// record with that key, or joins the end.
pub open spec fn stored<V>(old: Seq<V>, keys: Seq<Seq<char>>, k: Seq<char>, v: V) -> Seq<V> {
    match first_pos(keys, k) {
        Some(i) => old.update(i, v),
        None => old.push(v),
    }
}

/// Stores an album detail in the cache.
fn store_detail(cache: &mut Vec<AlbumDetail>, d: AlbumDetail)
    ensures
        detail_views(final(cache)@) == stored(detail_views(old(cache)@), detail_keys(old(cache)@), d.cid@, d@),
{
    let found = find_detail(cache, &d.cid);
    proof {
        lemma_first_pos(detail_keys(cache@), d.cid@, found);
    }
    let ghost dv = d@;
    match found {
        Some(i) => {
            cache.set(i, d);
            assert(detail_views(cache@) =~= detail_views(old(cache)@).update(i as int, dv));
        },
        None => {
            cache.push(d);
            assert(detail_views(cache@) =~= detail_views(old(cache)@).push(dv));
        },
    }
}

/// Stores a song detail in the cache.
fn store_song_detail(cache: &mut Vec<SongDetail>, d: SongDetail)
    ensures
        song_detail_views(final(cache)@) == stored(song_detail_views(old(cache)@), song_detail_keys(old(cache)@), d.cid@, d@),
        song_detail_keys(final(cache)@) == song_detail_keys(old(cache)@) || song_detail_keys(final(cache)@) == song_detail_keys(old(cache)@).push(d.cid@),
{
    let found = find_song_detail(cache, &d.cid);
    proof {
        lemma_first_pos(song_detail_keys(cache@), d.cid@, found);
    }
    let ghost dv = d@;
    let ghost dk = d.cid@;
    match found {
        Some(i) => {
            cache.set(i, d);
            assert(song_detail_views(cache@) =~= song_detail_views(old(cache)@).update(i as int, dv));
            assert(song_detail_keys(cache@) =~= song_detail_keys(old(cache)@));
        },
        None => {
            cache.push(d);
            assert(song_detail_views(cache@) =~= song_detail_views(old(cache)@).push(dv));
            assert(song_detail_keys(cache@) =~= song_detail_keys(old(cache)@).push(dk));
        },
    }
}

/// Step one of a frame: with no albums and no request out, the album list is asked for.
pub open spec fn albums_requested(old: Engine, new: Engine) -> bool {
    if old.catalog.albums.len() == 0 && !old.catalog.albums_pending {
        &&& new == (Engine { catalog: Catalog { albums_pending: true, ..old.catalog }, outbox: new.outbox, ..old })
        &&& new.effects() == old.effects().push((EffectKind::FetchAlbums, Seq::empty()))
    } else {
        new == old
    }
}

/// There is a player and it has nothing left to play.
pub open spec fn player_ran_dry(player: Option<PlayerStatus>) -> bool {
    match player {
        Some(p) => p.is_empty,
        None => false,
    }
}

/// A result arrived for an outstanding request.
pub open spec fn arrived<T>(pending: bool, r: Option<Result<T, String>>) -> bool {
    pending && r is Some
}

/// Step two: the album list arrived; it becomes the album list and the
/// current album is selected.
pub open spec fn albums_checked(old: Engine, r: Option<Result<Vec<Album>, String>>, new: Engine) -> bool {
    if !arrived(old.catalog.albums_pending, r) {
        new == old
    } else {
        match r->0 {
            Ok(list) => album_selected(
                Engine {
                    catalog: Catalog {
                        albums: list,
                        album_total: list.len(),
                        albums_pending: false,
                        ..old.catalog
                    },
                    ..old
                },
                new,
            ),
            Err(_) => new == (Engine { catalog: Catalog { albums_pending: false, ..old.catalog }, ..old }),
        }
    }
}

/// Step three: the current album's details arrived: its songs are shown,
/// the loved songs refreshed, the details cached, the first songs preloaded,
/// and a song marked by a jump is selected.
pub open spec fn detail_checked(old: Engine, r: Option<Result<AlbumDetail, String>>, new: Engine) -> bool {
    if !arrived(old.catalog.detail_pending, r) {
        new == old
    } else {
        match r->0 {
            Ok(d) => {
                &&& new.queue == old.queue
                &&& new.lyric == old.lyric
                &&& new.play_mode == old.play_mode
                &&& new.catalog == (Catalog {
                    songs: new.catalog.songs,
                    songs_loaded: true,
                    detail_cache: new.catalog.detail_cache,
                    pending_jump_cid: None,
                    detail_pending: false,
                    ..old.catalog
                })
                &&& album_song_views(new.catalog.songs@) == album_song_views(d.songs@)
                &&& detail_views(new.catalog.detail_cache@) == stored(
                    detail_views(old.catalog.detail_cache@),
                    detail_keys(old.catalog.detail_cache@),
                    d.cid@,
                    d@,
                )
                &&& new.loved.wf()
                &&& loved_views(new.loved.loved_cids@) == refreshed_all(
                    loved_views(old.loved.loved_cids@),
                    new.catalog.songs@,
                    old.now.song_cache@,
                )
                &&& loved_views(new.loved.loved_list@) == loved_views(new.loved.loved_cids@)
                &&& new.now == match old.catalog.pending_jump_cid {
                    Some(c) => match first_pos(album_song_keys(new.catalog.songs@), c@) {
                        Some(idx) => Playback { current_song_index: Some(idx as usize), ..old.now },
                        None => old.now,
                    },
                    None => old.now,
                }
                &&& new.effects() == old.effects() + first_songs_fx(new.catalog.songs@, old.now.song_cache@)
            },
            Err(_) => new == (Engine { catalog: Catalog { detail_pending: false, ..old.catalog }, ..old }),
        }
    }
}

/// Step four through `mid`: the song detail arrived; it is cached and its
/// playback starts.
pub open spec fn song_via(old: Engine, sd: SongDetail, mid: Engine, new: Engine) -> bool {
    &&& mid == (Engine { now: Playback { song_pending: false, song_cache: mid.now.song_cache, ..old.now }, ..old })
    &&& song_detail_views(mid.now.song_cache@) == stored(
        song_detail_views(old.now.song_cache@),
        song_detail_keys(old.now.song_cache@),
        sd.cid@,
        sd@,
    )
    &&& playback_started(mid, new, sd@)
}

/// Step four.
pub open spec fn song_checked(old: Engine, r: Option<Result<SongDetail, String>>, new: Engine) -> bool {
    if !arrived(old.now.song_pending, r) {
        new == old
    } else {
        match r->0 {
            Ok(sd) => exists|mid: Engine| #[trigger] song_via(old, sd, mid, new),
            Err(_) => new == (Engine { now: Playback { song_pending: false, ..old.now }, ..old }),
        }
    }
}

/// Step five: the download of the current song's audio is watched. A first
/// chunk of 8 MiB, or the end of the download, starts playback when there is
/// a player; playback that ran dry before the end is recovered; at the end
/// of the download the complete audio is switched to and buffering ends.
pub open spec fn stream_checked(old: Engine, len: usize, done: bool, player: Option<PlayerStatus>, new: Engine) -> bool {
    let n = old.now;
    let is_done = n.stream_done_watch && done;
    let ready = len >= FIRST_CHUNK_BYTES || is_done;
    if !n.streaming || !n.buffering {
        new == old
    } else if ready && !n.stream_started && player is Some {
        &&& new == (Engine { now: new.now, outbox: new.outbox, ..old })
        &&& new.now == if is_done {
            Playback {
                stream_started: true,
                stream_switched: true,
                has_wav_data: true,
                stream_done_watch: false,
                buffering: false,
                buffering_msg: None,
                ..n
            }
        } else {
            Playback { stream_started: true, ..n }
        }
        &&& new.effects() == old.effects().push((EffectKind::StartStream, Seq::empty())) + (if is_done {
            seq![(EffectKind::SwitchStream, Seq::<char>::empty())]
        } else {
            Seq::empty()
        })
    } else {
        let started = n.stream_started || ready;
        let recover = started && !n.stream_switched && !is_done && player_ran_dry(player) && len > 0;
        let switch = is_done && started && !n.stream_switched;
        &&& new == (Engine { now: new.now, outbox: new.outbox, ..old })
        &&& new.now == if switch {
            Playback {
                stream_started: started,
                stream_switched: true,
                has_wav_data: true,
                pending_song: None,
                stream_done_watch: false,
                buffering: false,
                buffering_msg: None,
                ..n
            }
        } else {
            Playback { stream_started: started, ..n }
        }
        &&& new.effects() == old.effects() + (if recover {
            seq![(EffectKind::RecoverStream, Seq::<char>::empty())]
        } else {
            Seq::empty()
        }) + (if switch {
            seq![(EffectKind::SwitchStream, Seq::<char>::empty())]
        } else {
            Seq::empty()
        })
    }
}

/// Step six: the full song list arrived.
pub open spec fn all_songs_checked(old: Engine, r: Option<Result<Vec<Song>, String>>, new: Engine) -> bool {
    if !arrived(old.queue.all_songs_pending, r) {
        new == old
    } else {
        match r->0 {
            Ok(list) => new == (Engine {
                queue: GlobalQueue { all_songs: list, all_songs_loaded: true, all_songs_pending: false, ..old.queue },
                ..old
            }),
            Err(_) => new == (Engine { queue: GlobalQueue { all_songs_pending: false, ..old.queue }, ..old }),
        }
    }
}

/// Step seven: lyrics text arrived; readable text becomes the lyrics. Text
/// with an unreadable line yields nothing and the request stays open.
pub open spec fn lyrics_checked(old: Engine, r: Option<Result<String, String>>, new: Engine) -> bool {
    if !arrived(old.lyric.lyric_pending, r) {
        new == old
    } else {
        match r->0 {
            Ok(text) => if lrc_readable(text@) {
                &&& new == (Engine { lyric: LyricsState { lyrics: new.lyric.lyrics, lyric_pending: false, ..old.lyric }, ..old })
                &&& line_views(new.lyric.lyrics@) == lrc_lines(text@)
            } else {
                new == old
            },
            Err(_) => new == (Engine { lyric: LyricsState { lyric_pending: false, ..old.lyric }, ..old }),
        }
    }
}

/// Step nine: in a global mode the queue is made sure of.
pub open spec fn queue_checked(old: Engine, new: Engine) -> bool {
    if is_global(old.play_mode) {
        &&& new == (Engine { queue: new.queue, ..old })
        &&& queue_ensured(old.queue, old.play_mode, new.queue)
    } else {
        new == old
    }
}

/// Step ten: with a player and lyrics, the line to highlight follows the
/// playback position.
pub open spec fn lyric_followed(old: Engine, player: Option<PlayerStatus>, new: Engine) -> bool {
    match player {
        Some(p) => if old.lyric.lyrics.len() > 0 {
            new == (Engine {
                lyric: LyricsState {
                    lyric_index: line_at(line_views(old.lyric.lyrics@), p.elapsed_ms) as usize,
                    ..old.lyric
                },
                ..old
            })
        } else {
            new == old
        },
        None => new == old,
    }
}

/// Step eleven: when a song was playing, nothing is buffering and the player
/// has run empty, the mode picks what comes next.
pub open spec fn auto_advanced(old: Engine, player: Option<PlayerStatus>, new: Engine) -> bool {
    if old.now.playing && !old.now.buffering && player_ran_dry(player) {
        advanced(old, new)
    } else {
        new == old
    }
}

/// A frame through the intermediate states `st`: the eleven steps in order.
pub open spec fn update_trace(old: Engine, input: FrameInput, st: Seq<Engine>, new: Engine) -> bool {
    &&& st.len() == 10
    &&& albums_requested(old, st[0])
    &&& albums_checked(st[0], input.albums, st[1])
    &&& detail_checked(st[1], input.detail, st[2])
    &&& song_checked(st[2], input.song, st[3])
    &&& stream_checked(st[3], input.stream_len, input.stream_done, input.player, st[4])
    &&& all_songs_checked(st[4], input.all_songs, st[5])
    &&& lyrics_checked(st[5], input.lyrics, st[6])
    &&& all_songs_asked(st[6], st[7])
    &&& queue_checked(st[7], st[8])
    &&& lyric_followed(st[8], input.player, st[9])
    &&& auto_advanced(st[9], input.player, new)
}

/// The report that playback of the first chunk started (`ok`) or failed.
/// Success marks the buffered song as playing, and when the whole download
/// was already taken over as the full track the buffered song is done with;
/// failure ends buffering and moves on as if the song had ended.
pub open spec fn stream_start_reported(old: Engine, ok: bool, new: Engine) -> bool {
    if ok {
        &&& new == (Engine {
            now: Playback {
                playing: true,
                current_song_name: new.now.current_song_name,
                current_song_cid: new.now.current_song_cid,
                pending_song: if old.now.stream_switched { None } else { old.now.pending_song },
                ..old.now
            },
            ..old
        })
        &&& match old.now.pending_song {
            Some(s) => {
                &&& new.now.current_song_name matches Some(t) && t@ == song_line(Seq::empty(), s.name@, views(s.artists@))
                &&& new.now.current_song_cid matches Some(c) && c@ == s.cid@
            },
            None => new.now.current_song_name == old.now.current_song_name && new.now.current_song_cid == old.now.current_song_cid,
        }
    } else {
        advanced(Engine { now: Playback { buffering: false, buffering_msg: None, ..old.now }, ..old }, new)
    }
}

impl GlobalQueue {
    /// Global queue position and queue agree.
    pub open spec fn wf(&self) -> bool {
        &&& (self.global_playlist.len() == 0 ==> self.global_index == 0)
        &&& (self.global_playlist.len() > 0 ==> self.global_index < self.global_playlist.len())
    }

    /// Fills an empty queue from the full song list; shuffles it in
    /// global-random mode.
    pub fn ensure(&mut self, mode: PlayMode)
        requires
            old(self).wf(),
        ensures
            final(self).wf(),
            queue_ensured(*old(self), mode, *final(self)),
    {
        if self.global_playlist.len() > 0 || self.all_songs.len() == 0 {
            return;
        }
        let mut q = clone_songs(&self.all_songs);
        assert(q.len() == song_views(q@).len());
        if mode == PlayMode::GlobalRandom {
            let _ = shuffle_songs(&mut q);
        }
        self.global_playlist = q;
        self.global_index = 0;
    }
}

impl Loved {
    /// Every song id occurs once.
    pub open spec fn wf(&self) -> bool {
        distinct_cids(loved_views(self.loved_cids@))
    }

    /// The loved songs by id.
    pub open spec fn map(&self) -> Map<Seq<char>, LovedEntryView> {
        loved_map(loved_views(self.loved_cids@))
    }

    /// Loves song `cid`, or stops loving it when it is loved; the shown list
    /// follows.
    #[verifier::rlimit(30)]
    pub fn toggle(&mut self, cid: &str, name: &str, artists: &Vec<String>)
        requires
            old(self).wf(),
        ensures
            final(self).wf(),
            final(self).map() == if old(self).map().contains_key(cid@) {
                old(self).map().remove(cid@)
            } else {
                old(self).map().insert(
                    cid@,
                    LovedEntryView { cid: cid@, name: name@, artists: views(artists@) },
                )
            },
            loved_views(final(self).loved_list@) == loved_views(final(self).loved_cids@),
    {
        let ghost before = loved_views(self.loved_cids@);
        proof {
            lemma_loved_map_dom(before, cid@);
        }
        let mut cids = clone_loved(&self.loved_cids);
        match find_loved(&cids, cid) {
            Some(i) => {
                cids.remove(i);
                proof {
                    assert(loved_views(cids@) == before.remove(i as int));
                    lemma_loved_map_remove(before, i as int);
                }
            },
            None => {
                let e = LovedEntry {
                    cid: String::from_str(cid),
                    name: String::from_str(name),
                    artists: clone_strings(artists),
                };
                proof {
                    lemma_loved_push_distinct(before, e@);
                }
                cids.push(e);
                proof {
                    assert(loved_views(cids@) == before.push(e@));
                    assert(before.push(e@).drop_last() == before);
                }
            },
        }
        self.loved_list = clone_loved(&cids);
        self.loved_cids = cids;
    }

    /// Brings every loved entry up to date from the song cache and then from
    /// the current album's songs; the shown list follows.
    pub fn rebuild(&mut self, songs: &Vec<AlbumSong>, cache: &Vec<SongDetail>)
        requires
            old(self).wf(),
        ensures
            final(self).wf(),
            loved_views(final(self).loved_cids@) == refreshed_all(
                loved_views(old(self).loved_cids@),
                songs@,
                cache@,
            ),
            loved_views(final(self).loved_list@) == loved_views(final(self).loved_cids@),
    {
        let ghost orig = loved_views(self.loved_cids@);
        let mut v = clone_loved(&self.loved_cids);
        let n = v.len();
        let mut k: usize = 0;
        while k < n
            invariant
                k <= n,
                n == v.len(),
                orig.len() == n,
                forall|j: int| 0 <= j < k ==> #[trigger] loved_views(v@)[j] == from_cache(orig[j], cache@),
                forall|j: int| k <= j < n ==> #[trigger] loved_views(v@)[j] == orig[j],
            decreases n - k,
        {
            let ghost pre = loved_views(v@);
            let found = find_song_detail(cache, &v[k].cid);
            proof {
                lemma_first_pos(song_detail_keys(cache@), v@[k as int].cid@, found);
                assert(pre[k as int] == orig[k as int]);
            }
            match found {
                Some(i) => {
                    let e = LovedEntry {
                        cid: v[k].cid.clone(),
                        name: cache[i].name.clone(),
                        artists: clone_strings(&cache[i].artists),
                    };
                    v.set(k, e);
                    assert(loved_views(v@) =~= pre.update(k as int, e@));
                },
                None => {},
            }
            k = k + 1;
        }
        assert(distinct_cids(loved_views(v@))) by {
            assert forall|a: int, b: int| 0 <= a < b < n implies loved_views(v@)[a].cid
                != loved_views(v@)[b].cid by {
                assert(loved_views(v@)[a].cid == orig[a].cid);
                assert(loved_views(v@)[b].cid == orig[b].cid);
            }
        }
        let mut j: usize = 0;
        assert(songs@.take(0) =~= Seq::<AlbumSong>::empty());
        while j < songs.len()
            invariant
                j <= songs.len(),
                n == v.len(),
                orig.len() == n,
                distinct_cids(loved_views(v@)),
                forall|p: int| 0 <= p < n ==> #[trigger] loved_views(v@)[p] == refreshed(
                    orig[p],
                    songs@.take(j as int),
                    cache@,
                ),
            decreases songs.len() - j,
        {
            let ghost pre = loved_views(v@);
            let ghost taken = songs@.take(j as int);
            let ghost next = songs@.take(j + 1);
            assert(next.drop_last() == taken);
            assert(next.last() == songs@[j as int]);
            let found = find_loved(&v, songs[j].cid.as_str());
            match found {
                Some(p) => {
                    let e = LovedEntry {
                        cid: v[p].cid.clone(),
                        name: songs[j].name.clone(),
                        artists: clone_strings(&songs[j].artistes),
                    };
                    v.set(p, e);
                    assert(loved_views(v@) =~= pre.update(p as int, e@));
                    assert forall|q: int| 0 <= q < n implies #[trigger] loved_views(v@)[q]
                        == refreshed(orig[q], next, cache@) by {
                        assert(pre[q].cid == orig[q].cid);
                        if q != p {
                            assert(pre[q].cid != pre[p as int].cid);
                        }
                    }
                    assert(distinct_cids(loved_views(v@))) by {
                        assert forall|a: int, b: int| 0 <= a < b < n implies loved_views(v@)[a].cid
                            != loved_views(v@)[b].cid by {
                            assert(loved_views(v@)[a].cid == pre[a].cid);
                            assert(loved_views(v@)[b].cid == pre[b].cid);
                        }
                    }
                },
                None => {
                    assert forall|q: int| 0 <= q < n implies #[trigger] loved_views(v@)[q]
                        == refreshed(orig[q], next, cache@) by {
                        assert(pre[q].cid == orig[q].cid);
                    }
                },
            }
            j = j + 1;
        }
        assert(songs@.take(songs.len() as int) == songs@);
        assert(loved_views(v@) =~= refreshed_all(orig, songs@, cache@));
        self.loved_list = clone_loved(&v);
        self.loved_cids = v;
    }
}

impl Engine {
    /// The engine's invariant.
    pub open spec fn wf(&self) -> bool {
        &&& (self.catalog.albums.len() == 0 ==> self.catalog.album_index == 0)
        &&& (self.catalog.albums.len() > 0 ==> self.catalog.album_index < self.catalog.albums.len())
        &&& (self.catalog.albums_pending ==> self.catalog.albums.len() == 0)
        &&& self.queue.wf()
        &&& self.loved.wf()
        &&& self.now.volume <= 100
    }

    /// The requests queued so far.
    pub open spec fn effects(&self) -> Seq<(EffectKind, Seq<char>)> {
        effect_views(self.outbox@)
    }

    /// A fresh engine with the loved songs read from disk.
    pub fn new(loved_entries: Vec<LovedEntry>) -> (r: Engine)
        ensures
            r.wf(),
            r.loved.map() == loved_map(loved_views(loved_entries@)),
            loved_views(r.loved.loved_list@) == loved_views(r.loved.loved_cids@),
            r.catalog.albums.len() == 0,
            r.catalog.album_index == 0,
            r.catalog.songs.len() == 0,
            !r.catalog.songs_loaded,
            r.catalog.album_name is None,
            r.catalog.album_artist is None,
            r.catalog.album_total == 0,
            r.catalog.detail_cache.len() == 0,
            !r.catalog.albums_pending,
            !r.catalog.detail_pending,
            r.catalog.pending_jump_cid is None,
            r.queue.all_songs.len() == 0,
            !r.queue.all_songs_loaded,
            !r.queue.all_songs_pending,
            r.queue.global_playlist.len() == 0,
            r.queue.global_index == 0,
            r.lyric.lyrics.len() == 0,
            r.lyric.lyric_index == 0,
            r.lyric.lyric_cache.len() == 0,
            !r.lyric.lyric_pending,
            r.now.volume == 50,
            !r.now.playing,
            r.now.current_song_name is None,
            r.now.current_song_cid is None,
            r.now.current_song_index is None,
            r.now.song_info is None,
            r.now.album_intro is None,
            !r.now.buffering,
            r.now.buffering_msg is None,
            r.now.song_cache.len() == 0,
            !r.now.song_pending,
            r.now.pending_song is None,
            !r.now.streaming,
            !r.now.stream_done_watch,
            !r.now.stream_started,
            !r.now.stream_switched,
            !r.now.has_wav_data,
            r.play_mode == PlayMode::AlbumList,
            r.outbox.len() == 0,
    {
        let loved_cids = loved_from_entries(loved_entries);
        let loved_list = clone_loved(&loved_cids);
        Engine {
            catalog: Catalog {
                albums: Vec::new(),
                album_index: 0,
                songs: Vec::new(),
                songs_loaded: false,
                album_name: None,
                album_artist: None,
                album_total: 0,
                detail_cache: Vec::new(),
                albums_pending: false,
                detail_pending: false,
                pending_jump_cid: None,
            },
            queue: GlobalQueue {
                all_songs: Vec::new(),
                all_songs_loaded: false,
                all_songs_pending: false,
                global_playlist: Vec::new(),
                global_index: 0,
            },
            loved: Loved { loved_cids, loved_list },
            lyric: LyricsState {
                lyrics: Vec::new(),
                lyric_index: 0,
                lyric_cache: Vec::new(),
                lyric_pending: false,
            },
            now: Playback {
                playing: false,
                volume: 50,
                current_song_name: None,
                current_song_cid: None,
                current_song_index: None,
                song_info: None,
                album_intro: None,
                buffering: false,
                buffering_msg: None,
                song_cache: Vec::new(),
                song_pending: false,
                pending_song: None,
                streaming: false,
                stream_done_watch: false,
                stream_started: false,
                stream_switched: false,
                has_wav_data: false,
            },
            play_mode: PlayMode::AlbumList,
            outbox: Vec::new(),
        }
    }

    /// Hands over the queued requests, oldest first, and empties the queue.
    pub fn take_effects(&mut self) -> (r: Vec<Effect>)
        ensures
            r@ == old(self).outbox@,
            final(self).outbox.len() == 0,
            final(self).catalog == old(self).catalog,
            final(self).queue == old(self).queue,
            final(self).loved == old(self).loved,
            final(self).lyric == old(self).lyric,
            final(self).now == old(self).now,
            final(self).play_mode == old(self).play_mode,
    {
        let mut r = Vec::new();
        std::mem::swap(&mut r, &mut self.outbox);
        r
    }

    fn emit(&mut self, kind: EffectKind, arg: String)
        ensures
            final(self).catalog == old(self).catalog,
            final(self).queue == old(self).queue,
            final(self).loved == old(self).loved,
            final(self).lyric == old(self).lyric,
            final(self).now == old(self).now,
            final(self).play_mode == old(self).play_mode,
            final(self).effects() == old(self).effects().push((kind, arg@)),
    {
        self.outbox.push(Effect { kind, arg });
        assert(self.effects() =~= old(self).effects().push((kind, arg@)));
    }

    /// Volume up by 5, at most 100, and hand it to the player.
    pub fn volume_up(&mut self)
        requires
            old(self).wf(),
        ensures
            final(self).wf(),
            final(self).now == (Playback { volume: raised(old(self).now.volume), ..old(self).now }),
            final(self).catalog == old(self).catalog,
            final(self).queue == old(self).queue,
            final(self).loved == old(self).loved,
            final(self).lyric == old(self).lyric,
            final(self).play_mode == old(self).play_mode,
            final(self).effects() == old(self).effects().push((EffectKind::SetVolume, Seq::empty())),
    {
        self.now.volume = if self.now.volume + 5 <= 100 {
            self.now.volume + 5
        } else {
            100
        };
        self.emit(EffectKind::SetVolume, String::new());
    }

    /// Volume down by 5, at least 0, and hand it to the player.
    pub fn volume_down(&mut self)
        requires
            old(self).wf(),
        ensures
            final(self).wf(),
            final(self).now == (Playback { volume: lowered(old(self).now.volume), ..old(self).now }),
            final(self).catalog == old(self).catalog,
            final(self).queue == old(self).queue,
            final(self).loved == old(self).loved,
            final(self).lyric == old(self).lyric,
            final(self).play_mode == old(self).play_mode,
            final(self).effects() == old(self).effects().push((EffectKind::SetVolume, Seq::empty())),
    {
        self.now.volume = self.now.volume.saturating_sub(5);
        self.emit(EffectKind::SetVolume, String::new());
    }

    /// Whether the play mode walks the global queue.
    pub fn is_global_mode(&self) -> (r: bool)
        ensures
            r == is_global(self.play_mode),
    {
        match self.play_mode {
            PlayMode::GlobalList | PlayMode::GlobalRandom => true,
            _ => false,
        }
    }

    /// Whether the song with id `cid` is loved.
    pub fn is_loved(&self, cid: &str) -> (r: bool)
        requires
            self.wf(),
        ensures
            r == self.loved.map().contains_key(cid@),
    {
        proof {
            lemma_loved_map_dom(loved_views(self.loved.loved_cids@), cid@);
        }
        match find_loved(&self.loved.loved_cids, cid) {
            Some(i) => {
                assert(loved_views(self.loved.loved_cids@)[i as int].cid == cid@);
                true
            },
            None => false,
        }
    }

    /// Loves the song with id `cid`, or stops loving it when it is loved,
    /// and asks for the loved songs to be saved.
    pub fn toggle_love(&mut self, cid: &str, name: &str, artists: &Vec<String>)
        requires
            old(self).wf(),
        ensures
            final(self).wf(),
            love_flipped(*old(self), *final(self), cid@, name@, views(artists@)),
    {
        self.loved.toggle(cid, name, artists);
        self.emit(EffectKind::SaveLoved, String::new());
    }

    /// Asks for the full song list unless it is loaded or already asked for.
    pub fn fetch_all_songs(&mut self)
        requires
            old(self).wf(),
        ensures
            final(self).wf(),
            all_songs_asked(*old(self), *final(self)),
    {
        if self.queue.all_songs_loaded || self.queue.all_songs_pending {
            return;
        }
        self.emit(EffectKind::FetchAllSongs, String::new());
        self.queue.all_songs_pending = true;
    }

    /// Moves to the next play mode. Entering a global mode asks for the full
    /// song list and builds the queue if it is empty; moving on to
    /// global-random shuffles an existing queue in place, keeping the position.
    pub fn cycle_mode(&mut self)
        requires
            old(self).wf(),
        ensures
            final(self).wf(),
            mode_cycled(*old(self), *final(self)),
    {
        self.play_mode = self.play_mode.next();
        if self.is_global_mode() {
            let ghost s1 = *self;
            self.fetch_all_songs();
            let ghost mid = *self;
            assert(all_songs_asked(s1, mid));
            if self.queue.global_playlist.len() == 0 {
                self.queue.ensure(self.play_mode);
            } else if self.play_mode == PlayMode::GlobalRandom {
                let _ = shuffle_songs(&mut self.queue.global_playlist);
            }
            assert(*self == (Engine { queue: self.queue, ..mid }));
            assert(s1 == (Engine { play_mode: self.play_mode, ..*old(self) }));
            assert(cycled_via(*old(self), mid, *self));
        }
    }

    /// Asks for the details of the albums around the current one that are
    /// not cached.
    fn preload_adjacent(&mut self)
        requires
            old(self).wf(),
        ensures
            final(self).catalog == old(self).catalog,
            final(self).queue == old(self).queue,
            final(self).loved == old(self).loved,
            final(self).lyric == old(self).lyric,
            final(self).now == old(self).now,
            final(self).play_mode == old(self).play_mode,
            final(self).effects() == old(self).effects() + adjacent_fx(old(self).catalog),
    {
        let total = self.catalog.albums.len();
        if total <= 1 {
            assert(old(self).effects() + Seq::empty() == old(self).effects());
            return;
        }
        let i = self.catalog.album_index;
        let mut k: usize = 0;
        assert(old(self).effects() + Seq::empty() == old(self).effects());
        while k < 4
            invariant
                k <= 4,
                total == self.catalog.albums.len(),
                total > 1,
                i == self.catalog.album_index,
                i < total,
                self.catalog == old(self).catalog,
                self.queue == old(self).queue,
                self.loved == old(self).loved,
                self.lyric == old(self).lyric,
                self.now == old(self).now,
                self.play_mode == old(self).play_mode,
                self.effects() == old(self).effects() + preload_albums_fx(old(self).catalog, k as nat),
            decreases 4 - k,
        {
            let off: usize = if k < 2 {
                1
            } else {
                2
            };
            let idx = if k % 2 == 0 {
                if i >= off {
                    i - off
                } else {
                    i + (total - off)
                }
            } else {
                if i >= total - off {
                    i - (total - off)
                } else {
                    i + off
                }
            };
            proof {
                let t = total as int;
                if k % 2 == 0 {
                    if i >= off {
                        vstd::arithmetic::div_mod::lemma_fundamental_div_mod_converse(i - off, t, 0, idx as int);
                    } else {
                        vstd::arithmetic::div_mod::lemma_fundamental_div_mod_converse(i - off, t, -1, idx as int);
                    }
                } else {
                    if i >= total - off {
                        vstd::arithmetic::div_mod::lemma_fundamental_div_mod_converse(i + off, t, 1, idx as int);
                    } else {
                        vstd::arithmetic::div_mod::lemma_fundamental_div_mod_converse(i + off, t, 0, idx as int);
                    }
                }
                assert(idx as int == neighbour(i as int, t, k as int));
            }
            let cid = self.catalog.albums[idx].cid.clone();
            let found = find_detail(&self.catalog.detail_cache, &cid);
            proof {
                lemma_first_pos(detail_keys(self.catalog.detail_cache@), cid@, found);
            }
            let ghost before = self.effects();
            if found.is_none() {
                self.emit(EffectKind::PreloadAlbumDetail, cid);
                assert(self.effects() == old(self).effects() + preload_albums_fx(
                    old(self).catalog,
                    (k + 1) as nat,
                ));
            }
            k = k + 1;
        }
    }

    /// Asks for the details of the first three songs of the current album
    /// that are not cached.
    fn preload_song_details(&mut self)
        ensures
            final(self).catalog == old(self).catalog,
            final(self).queue == old(self).queue,
            final(self).loved == old(self).loved,
            final(self).lyric == old(self).lyric,
            final(self).now == old(self).now,
            final(self).play_mode == old(self).play_mode,
            final(self).effects() == old(self).effects() + first_songs_fx(
                old(self).catalog.songs@,
                old(self).now.song_cache@,
            ),
    {
        let n = if self.catalog.songs.len() < 3 {
            self.catalog.songs.len()
        } else {
            3
        };
        let mut k: usize = 0;
        assert(old(self).effects() + Seq::empty() == old(self).effects());
        while k < n
            invariant
                k <= n,
                n <= self.catalog.songs.len(),
                n == if old(self).catalog.songs.len() < 3 {
                    old(self).catalog.songs.len()
                } else {
                    3
                },
                self.catalog == old(self).catalog,
                self.queue == old(self).queue,
                self.loved == old(self).loved,
                self.lyric == old(self).lyric,
                self.now == old(self).now,
                self.play_mode == old(self).play_mode,
                self.effects() == old(self).effects() + preload_songs_fx(
                    old(self).catalog.songs@,
                    old(self).now.song_cache@,
                    k as nat,
                ),
            decreases n - k,
        {
            let cid = self.catalog.songs[k].cid.clone();
            let found = find_song_detail(&self.now.song_cache, &cid);
            proof {
                lemma_first_pos(song_detail_keys(self.now.song_cache@), cid@, found);
            }
            if found.is_none() {
                self.emit(EffectKind::PreloadSongDetail, cid);
            }
            k = k + 1;
        }
    }

    /// Brings the loved songs up to date from the song cache and the current
    /// album's songs.
    pub fn rebuild_loved_list(&mut self)
        requires
            old(self).wf(),
        ensures
            final(self).wf(),
            loved_refreshed(*old(self), *final(self)),
    {
        self.loved.rebuild(&self.catalog.songs, &self.now.song_cache);
    }

    /// Selects the current album: shows its name and artists, takes its songs
    /// from the cache or asks for them, and preloads around it.
    #[verifier::rlimit(40)]
    fn fetch_album_detail(&mut self)
        requires
            old(self).wf(),
        ensures
            final(self).wf(),
            album_selected(*old(self), *final(self)),
    {
        if self.catalog.albums.len() == 0 {
            return;
        }
        let idx = self.catalog.album_index;
        let cid = self.catalog.albums[idx].cid.clone();
        let name = self.catalog.albums[idx].name.clone();
        let artist = join(&self.catalog.albums[idx].artistes, ", ");
        self.catalog.album_name = Some(name);
        self.catalog.album_artist = Some(artist);
        self.catalog.songs_loaded = false;
        let found = find_detail(&self.catalog.detail_cache, &cid);
        proof {
            lemma_first_pos(detail_keys(self.catalog.detail_cache@), cid@, found);
        }
        match found {
            Some(i) => {
                self.catalog.songs = clone_album_songs(&self.catalog.detail_cache[i].songs);
                self.catalog.songs_loaded = true;
                self.rebuild_loved_list();
                let ghost c_now = self.catalog;
                self.preload_adjacent();
                proof {
                    lemma_preload_albums_same(c_now, old(self).catalog, 4);
                }
                self.preload_song_details();
                assert(self.effects() == old(self).effects() + adjacent_fx(old(self).catalog)
                    + first_songs_fx(self.catalog.songs@, old(self).now.song_cache@));
                return;
            },
            None => {},
        }
        if self.catalog.detail_pending {
            return;
        }
        self.emit(EffectKind::FetchAlbumDetail, cid);
        self.catalog.detail_pending = true;
        let ghost c_now = self.catalog;
        self.preload_adjacent();
        proof {
            lemma_preload_albums_same(c_now, old(self).catalog, 4);
        }
    }

    /// Moves to the next album, wrapping around, and selects it.
    pub fn next_album(&mut self)
        requires
            old(self).wf(),
        ensures
            final(self).wf(),
            album_stepped(*old(self), *final(self), true),
    {
        let total = self.catalog.albums.len();
        if total == 0 {
            return;
        }
        self.catalog.album_index = if self.catalog.album_index + 1 < total {
            self.catalog.album_index + 1
        } else {
            0
        };
        proof {
            let i = old(self).catalog.album_index as int;
            if i + 1 < total {
                vstd::arithmetic::div_mod::lemma_fundamental_div_mod_converse(i + 1, total as int, 0, i + 1);
            } else {
                vstd::arithmetic::div_mod::lemma_fundamental_div_mod_converse(i + 1, total as int, 1, 0);
            }
        }
        self.fetch_album_detail();
    }

    /// Moves to the previous album, wrapping around, and selects it.
    pub fn prev_album(&mut self)
        requires
            old(self).wf(),
        ensures
            final(self).wf(),
            album_stepped(*old(self), *final(self), false),
    {
        let total = self.catalog.albums.len();
        if total == 0 {
            return;
        }
        self.catalog.album_index = if self.catalog.album_index > 0 {
            self.catalog.album_index - 1
        } else {
            total - 1
        };
        self.fetch_album_detail();
    }

    /// Looks the lyrics at `url` up in the lyric cache, or asks for them.
    fn fetch_lyrics(&mut self, url: &String)
        ensures
            final(self).catalog == old(self).catalog,
            final(self).queue == old(self).queue,
            final(self).loved == old(self).loved,
            final(self).now == old(self).now,
            final(self).play_mode == old(self).play_mode,
            final(self).lyric.lyric_index == old(self).lyric.lyric_index,
            final(self).lyric.lyric_cache == old(self).lyric.lyric_cache,
            match first_pos(lyric_keys(old(self).lyric.lyric_cache@), url@) {
                Some(j) => {
                    &&& line_views(final(self).lyric.lyrics@) == line_views(
                        old(self).lyric.lyric_cache@[j].1@,
                    )
                    &&& final(self).lyric.lyric_pending == old(self).lyric.lyric_pending
                    &&& final(self).outbox == old(self).outbox
                },
                None => {
                    &&& final(self).lyric.lyrics == old(self).lyric.lyrics
                    &&& final(self).lyric.lyric_pending
                    &&& final(self).effects() == old(self).effects().push((EffectKind::FetchLyrics, url@))
                },
            },
    {
        let mut j: usize = 0;
        while j < self.lyric.lyric_cache.len()
            invariant
                j <= self.lyric.lyric_cache.len(),
                self.lyric == old(self).lyric,
                *self == *old(self),
                forall|k: int| 0 <= k < j ==> lyric_keys(self.lyric.lyric_cache@)[k] != url@,
            decreases self.lyric.lyric_cache.len() - j,
        {
            if self.lyric.lyric_cache[j].0 == *url {
                proof {
                    lemma_first_pos(lyric_keys(self.lyric.lyric_cache@), url@, Some(j));
                }
                self.lyric.lyrics = clone_lines(&self.lyric.lyric_cache[j].1);
                return;
            }
            j = j + 1;
        }
        proof {
            lemma_first_pos(lyric_keys(self.lyric.lyric_cache@), url@, None);
        }
        self.emit(EffectKind::FetchLyrics, url.clone());
        self.lyric.lyric_pending = true;
    }

    /// Starts playing `song`: stops the old audio, shows and buffers the
    /// song, fetches its lyrics and starts downloading its audio.
    #[verifier::rlimit(40)]
    fn start_playback(&mut self, song: &SongDetail)
        ensures
            playback_started(*old(self), *final(self), song@),
    {
        self.emit(EffectKind::StopPlayback, String::new());
        self.emit(EffectKind::CancelDownload, String::new());
        let ghost after_stop = self.effects();
        self.now.pending_song = Some(song.clone());
        let artists = join(&song.artists, ", ");
        let mut info = String::from_str("Song: ");
        info.append(song.name.as_str());
        info.append(" - ");
        info.append(artists.as_str());
        self.now.song_info = Some(info);
        let found = find_detail(&self.catalog.detail_cache, &song.album_cid);
        proof {
            lemma_first_pos(detail_keys(self.catalog.detail_cache@), song.album_cid@, found);
        }
        self.now.album_intro = match found {
            Some(i) => Some(self.catalog.detail_cache[i].intro.clone()),
            None => None,
        };
        self.lyric.lyrics = Vec::new();
        self.lyric.lyric_index = 0;
        match &song.lyric_url {
            Some(url) => {
                self.fetch_lyrics(url);
            },
            None => {},
        }
        let ghost after_lyrics = self.effects();
        self.now.buffering = true;
        let mut msg = String::from_str("Buffering: ");
        msg.append(song.name.as_str());
        msg.append(" - ");
        msg.append(artists.as_str());
        self.now.buffering_msg = Some(msg);
        self.emit(EffectKind::EnsurePlayer, String::new());
        self.emit(EffectKind::StartDownload, song.source_url.clone());
        self.now.streaming = true;
        self.now.stream_done_watch = true;
        self.now.stream_started = false;
        self.now.stream_switched = false;
        proof {
            let lyrics_fx: Seq<(EffectKind, Seq<char>)> = match song@.lyric_url {
                Some(u) => if first_pos(lyric_keys(old(self).lyric.lyric_cache@), u) is Some {
                    Seq::empty()
                } else {
                    seq![(EffectKind::FetchLyrics, u)]
                },
                None => Seq::empty(),
            };
            assert(after_stop == old(self).effects() + seq![
                (EffectKind::StopPlayback, Seq::empty()),
                (EffectKind::CancelDownload, Seq::empty()),
            ]);
            assert(after_lyrics == after_stop + lyrics_fx);
            assert(self.effects() == after_lyrics + seq![
                (EffectKind::EnsurePlayer, Seq::empty()),
                (EffectKind::StartDownload, song@.source_url),
            ]);
        }
    }

    /// Goes for song `cid`: plays its cached detail or asks for it.
    fn play_cid(&mut self, cid: &String)
        requires
            old(self).wf(),
        ensures
            final(self).wf(),
            went_for(*old(self), *final(self), cid@),
    {
        let found = find_song_detail(&self.now.song_cache, cid);
        proof {
            lemma_first_pos(song_detail_keys(self.now.song_cache@), cid@, found);
        }
        match found {
            Some(i) => {
                let song = self.now.song_cache[i].clone();
                self.start_playback(&song);
            },
            None => {
                self.emit(EffectKind::FetchSongDetail, cid.clone());
                self.now.song_pending = true;
            },
        }
    }

    /// Plays a song of the global queue, first switching to its album when
    /// the album shown is another one.
    pub fn play_global_song(&mut self, song: &Song)
        requires
            old(self).wf(),
        ensures
            final(self).wf(),
            exists|mid: Engine| #[trigger] global_song_via(*old(self), mid, *final(self), song@),
    {
        let target = &song.album_cid;
        let found = find_album(&self.catalog.albums, target);
        proof {
            lemma_first_pos(album_keys(self.catalog.albums@), target@, found);
        }
        let need_switch = match &self.catalog.album_name {
            Some(name) => !(match found {
                Some(i) => self.catalog.albums[i].name == *name,
                None => false,
            }),
            None => true,
        };
        if need_switch {
            match found {
                Some(idx) => {
                    self.catalog.album_index = idx;
                    self.fetch_album_detail();
                },
                None => {},
            }
        }
        let ghost mid = *self;
        self.play_cid(&song.cid);
        assert(global_song_via(*old(self), mid, *self, song@));
    }

    /// Plays entry `index` of the list the mode plays from: the loved songs,
    /// the global queue (clamped to its end) or the current album.
    pub fn play_song_at(&mut self, index: usize)
        requires
            old(self).wf(),
        ensures
            final(self).wf(),
            played_at(*old(self), *final(self), index),
    {
        let is_love = match self.play_mode {
            PlayMode::LoveList | PlayMode::LoveRandom => true,
            _ => false,
        };
        if is_love {
            if self.loved.loved_list.len() == 0 {
                return;
            }
            if index >= self.loved.loved_list.len() {
                return;
            }
            self.now.current_song_index = Some(index);
            let cid = self.loved.loved_list[index].cid.clone();
            let ghost s_call = *self;
            self.play_cid(&cid);
            assert(s_call == (Engine { now: Playback { current_song_index: Some(index), ..old(self).now }, ..*old(self) }));
            assert(went_for(s_call, *self, old(self).loved.loved_list@[index as int].cid@));
            assert(played_at(*old(self), *self, index));
        } else if self.is_global_mode() {
            if self.queue.global_playlist.len() == 0 {
                return;
            }
            let idx = if index < self.queue.global_playlist.len() {
                index
            } else {
                self.queue.global_playlist.len() - 1
            };
            self.queue.global_index = idx;
            let song = self.queue.global_playlist[idx].clone();
            let ghost s_call = *self;
            assert(s_call == (Engine { queue: GlobalQueue { global_index: idx, ..old(self).queue }, ..*old(self) }));
            self.play_global_song(&song);
            proof {
                let mid = choose|mid: Engine| global_song_via(s_call, mid, *self, song@);
                assert(global_song_via(s_call, mid, *self, old(self).queue.global_playlist@[idx as int]@));
                assert(queue_song_via(*old(self), old(self).queue, idx, mid, *self));
                assert(clamp_index(old(self).queue, index) == idx);
            }
            assert(played_at(*old(self), *self, index));
        } else {
            if self.catalog.songs.len() == 0 {
                return;
            }
            if index >= self.catalog.songs.len() {
                return;
            }
            self.now.current_song_index = Some(index);
            let cid = self.catalog.songs[index].cid.clone();
            let ghost s_call = *self;
            self.play_cid(&cid);
            assert(s_call == (Engine { now: Playback { current_song_index: Some(index), ..old(self).now }, ..*old(self) }));
            assert(played_at(*old(self), *self, index));
        }
    }

    /// Makes sure of the global queue, then plays its next song, wrapping around.
    pub fn play_next_global(&mut self)
        requires
            old(self).wf(),
        ensures
            final(self).wf(),
            exists|q: GlobalQueue| #[trigger] global_step_via(*old(self), q, *final(self), true),
    {
        self.queue.ensure(self.play_mode);
        let ghost q = self.queue;
        if self.queue.global_playlist.len() == 0 {
            assert(global_step_via(*old(self), q, *self, true));
            return;
        }
        let len = self.queue.global_playlist.len();
        self.queue.global_index = if self.queue.global_index + 1 < len {
            self.queue.global_index + 1
        } else {
            0
        };
        proof {
            let i = q.global_index as int;
            if i + 1 < len {
                vstd::arithmetic::div_mod::lemma_fundamental_div_mod_converse(i + 1, len as int, 0, i + 1);
            } else {
                vstd::arithmetic::div_mod::lemma_fundamental_div_mod_converse(i + 1, len as int, 1, 0);
            }
        }
        let song = self.queue.global_playlist[self.queue.global_index].clone();
        let ghost s_call = *self;
        assert(s_call == (Engine { queue: GlobalQueue { global_index: s_call.queue.global_index, ..q }, ..*old(self) }));
        self.play_global_song(&song);
        proof {
            let mid = choose|mid: Engine| global_song_via(s_call, mid, *self, song@);
            assert(global_song_via(s_call, mid, *self, q.global_playlist@[s_call.queue.global_index as int]@));
            assert(queue_song_via(*old(self), q, s_call.queue.global_index, mid, *self));
            assert(step_index(q, true) == s_call.queue.global_index);
        }
        assert(global_step_via(*old(self), q, *self, true));
    }

    /// Makes sure of the global queue, then plays its previous song, wrapping around.
    pub fn play_prev_global(&mut self)
        requires
            old(self).wf(),
        ensures
            final(self).wf(),
            exists|q: GlobalQueue| #[trigger] global_step_via(*old(self), q, *final(self), false),
    {
        self.queue.ensure(self.play_mode);
        let ghost q = self.queue;
        if self.queue.global_playlist.len() == 0 {
            assert(global_step_via(*old(self), q, *self, false));
            return;
        }
        let len = self.queue.global_playlist.len();
        self.queue.global_index = if self.queue.global_index > 0 {
            self.queue.global_index - 1
        } else {
            len - 1
        };
        let song = self.queue.global_playlist[self.queue.global_index].clone();
        let ghost s_call = *self;
        assert(s_call == (Engine { queue: GlobalQueue { global_index: s_call.queue.global_index, ..q }, ..*old(self) }));
        self.play_global_song(&song);
        proof {
            let mid = choose|mid: Engine| global_song_via(s_call, mid, *self, song@);
            assert(global_song_via(s_call, mid, *self, q.global_playlist@[s_call.queue.global_index as int]@));
            assert(queue_song_via(*old(self), q, s_call.queue.global_index, mid, *self));
            assert(step_index(q, false) == s_call.queue.global_index);
        }
        assert(global_step_via(*old(self), q, *self, false));
    }

    /// Jumps to the album of song `song_cid` and marks the song to be
    /// selected once the album's songs are in. Fails when the song or its
    /// album is unknown.
    pub fn jump_to_song(&mut self, song_cid: &str) -> (r: bool)
        requires
            old(self).wf(),
        ensures
            final(self).wf(),
            jumped_to(*old(self), *final(self), song_cid@, r),
    {
        let key = String::from_str(song_cid);
        let found = find_song(&self.queue.all_songs, &key);
        proof {
            lemma_first_pos(song_keys(self.queue.all_songs@), song_cid@, found);
        }
        let album_cid = match found {
            Some(i) => self.queue.all_songs[i].album_cid.clone(),
            None => return false,
        };
        let idx = find_album(&self.catalog.albums, &album_cid);
        proof {
            lemma_first_pos(album_keys(self.catalog.albums@), album_cid@, idx);
        }
        match idx {
            Some(j) => {
                self.catalog.album_index = j;
                self.catalog.pending_jump_cid = Some(key);
                self.fetch_album_detail();
                true
            },
            None => false,
        }
    }

    /// Whether a song matches the lower-cased query `q`.
    fn song_matches(&self, s: &Song, q: &String) -> (r: bool)
        ensures
            r == song_hit(self.catalog.albums@, s@, q@),
    {
        if str_contains(to_lowercase(s.name.as_str()).as_str(), q.as_str()) {
            return true;
        }
        let mut k: usize = 0;
        while k < s.artists.len()
            invariant
                k <= s.artists.len(),
                forall|j: int| 0 <= j < k ==> !contains_seq(lowercase(s@.artists[j]), q@),
            decreases s.artists.len() - k,
        {
            if str_contains(to_lowercase(s.artists[k].as_str()).as_str(), q.as_str()) {
                assert(contains_seq(lowercase(s@.artists[k as int]), q@));
                return true;
            }
            k = k + 1;
        }
        let found = find_album(&self.catalog.albums, &s.album_cid);
        proof {
            lemma_first_pos(album_keys(self.catalog.albums@), s.album_cid@, found);
        }
        match found {
            Some(i) => str_contains(to_lowercase(self.catalog.albums[i].name.as_str()).as_str(), q.as_str()),
            None => false,
        }
    }

    /// The songs of the full list whose name, one of whose artists, or whose
    /// album's name contains the query, ignoring case; none for an empty query.
    pub fn search_songs(&self, query: &str) -> (r: Vec<Song>)
        ensures
            query@.len() == 0 ==> r.len() == 0,
            query@.len() > 0 ==> song_views(r@) == search_hits(
                self.catalog.albums@,
                song_views(self.queue.all_songs@),
                lowercase(query@),
            ),
    {
        let mut r: Vec<Song> = Vec::new();
        if query.unicode_len() == 0 {
            return r;
        }
        let q = to_lowercase(query);
        let ghost all = song_views(self.queue.all_songs@);
        let mut i: usize = 0;
        while i < self.queue.all_songs.len()
            invariant
                i <= self.queue.all_songs.len(),
                all == song_views(self.queue.all_songs@),
                q@ == lowercase(query@),
                song_views(r@) == search_hits(self.catalog.albums@, all.take(i as int), q@),
            decreases self.queue.all_songs.len() - i,
        {
            assert(all.take(i + 1).drop_last() == all.take(i as int));
            assert(all.take(i + 1).last() == self.queue.all_songs@[i as int]@);
            if self.song_matches(&self.queue.all_songs[i], &q) {
                let s = self.queue.all_songs[i].clone();
                r.push(s);
                assert(song_views(r@) =~= search_hits(self.catalog.albums@, all.take(i as int), q@).push(s@));
            }
            i = i + 1;
        }
        assert(all.take(self.queue.all_songs.len() as int) == all);
        r
    }

    /// Plays what follows the current song in the play mode.
    fn advance_to_next(&mut self)
        requires
            old(self).wf(),
        ensures
            final(self).wf(),
            advanced(*old(self), *final(self)),
    {
        let is_love = match self.play_mode {
            PlayMode::LoveList | PlayMode::LoveRandom => true,
            _ => false,
        };
        match self.play_mode {
            PlayMode::Single => {
                self.now.playing = false;
                self.now.current_song_name = None;
                self.now.current_song_cid = None;
                self.now.current_song_index = None;
                self.now.song_info = None;
                self.now.album_intro = None;
                self.lyric.lyrics = Vec::new();
            },
            PlayMode::GlobalRandom | PlayMode::GlobalList => {
                self.play_next_global();
            },
            PlayMode::AlbumRandom | PlayMode::LoveRandom => {
                let len = if is_love {
                    self.loved.loved_list.len()
                } else {
                    self.catalog.songs.len()
                };
                if len > 0 {
                    let next = random_in(0, len - 1);
                    self.play_song_at(next);
                }
            },
            _ => {
                let current = match self.now.current_song_index {
                    Some(i) => i,
                    None => 0,
                };
                let len = if is_love {
                    self.loved.loved_list.len()
                } else {
                    self.catalog.songs.len()
                };
                if len > 0 {
                    let next = if current % len + 1 < len {
                        current % len + 1
                    } else {
                        0
                    };
                    proof {
                        let c = current as int;
                        let l = len as int;
                        vstd::arithmetic::div_mod::lemma_fundamental_div_mod(c, l);
                        let qq = c / l;
                        let r = c % l;
                        if r + 1 < l {
                            assert(c + 1 == qq * l + (r + 1)) by (nonlinear_arith)
                                requires c == l * qq + r;
                            vstd::arithmetic::div_mod::lemma_fundamental_div_mod_converse(c + 1, l, qq, r + 1);
                        } else {
                            assert(c + 1 == (qq + 1) * l + 0) by (nonlinear_arith)
                                requires c == l * qq + r, r + 1 == l;
                            vstd::arithmetic::div_mod::lemma_fundamental_div_mod_converse(c + 1, l, qq + 1, 0);
                        }
                    }
                    self.play_song_at(next);
                }
            },
        }
    }

    /// Asks the player to pause or resume; the outcome comes back through
    /// `on_pause_state`.
    pub fn toggle_pause(&mut self)
        ensures
            asked(*old(self), *final(self), EffectKind::TogglePause),
    {
        self.emit(EffectKind::TogglePause, String::new());
    }

    /// The player reports whether it is paused after a toggle.
    pub fn on_pause_state(&mut self, paused: bool)
        ensures
            *final(self) == (Engine { now: Playback { playing: !paused, ..old(self).now }, ..*old(self) }),
    {
        self.now.playing = !paused;
    }

    /// Asks for the kept audio to be replayed from its start.
    pub fn restart_song(&mut self)
        ensures
            asked(*old(self), *final(self), EffectKind::RestartSong),
    {
        self.emit(EffectKind::RestartSong, String::new());
    }

    /// Asks for a seek forward by a twentieth of the song.
    pub fn seek_forward(&mut self)
        ensures
            asked(*old(self), *final(self), EffectKind::SeekForward),
    {
        self.emit(EffectKind::SeekForward, String::new());
    }

    /// Asks for a seek backward by a twentieth of the song.
    pub fn seek_backward(&mut self)
        ensures
            asked(*old(self), *final(self), EffectKind::SeekBackward),
    {
        self.emit(EffectKind::SeekBackward, String::new());
    }

    /// With no albums and no request out, asks for the album list.
    fn request_albums(&mut self)
        requires
            old(self).wf(),
        ensures
            final(self).wf(),
            albums_requested(*old(self), *final(self)),
    {
        if self.catalog.albums.len() == 0 && !self.catalog.albums_pending {
            self.emit(EffectKind::FetchAlbums, String::new());
            self.catalog.albums_pending = true;
        }
    }

    /// Takes in the album list.
    fn check_albums(&mut self, r: Option<Result<Vec<Album>, String>>)
        requires
            old(self).wf(),
        ensures
            final(self).wf(),
            albums_checked(*old(self), r, *final(self)),
    {
        if !self.catalog.albums_pending {
            return;
        }
        match r {
            Some(Ok(list)) => {
                self.catalog.albums_pending = false;
                self.catalog.album_total = list.len();
                self.catalog.albums = list;
                self.fetch_album_detail();
            },
            Some(Err(_)) => {
                self.catalog.albums_pending = false;
            },
            None => {},
        }
    }

    /// Takes in the current album's details.
    #[verifier::rlimit(40)]
    fn check_detail(&mut self, r: Option<Result<AlbumDetail, String>>)
        requires
            old(self).wf(),
        ensures
            final(self).wf(),
            detail_checked(*old(self), r, *final(self)),
    {
        if !self.catalog.detail_pending {
            return;
        }
        match r {
            Some(Ok(d)) => {
                let ghost dv = d@;
                let ghost dk = d.cid@;
                self.catalog.songs = clone_album_songs(&d.songs);
                self.catalog.songs_loaded = true;
                self.rebuild_loved_list();
                store_detail(&mut self.catalog.detail_cache, d);
                self.preload_song_details();
                let jump = self.catalog.pending_jump_cid.take();
                match jump {
                    Some(cid) => {
                        let found = find_album_song(&self.catalog.songs, &cid);
                        proof {
                            lemma_first_pos(album_song_keys(self.catalog.songs@), cid@, found);
                        }
                        match found {
                            Some(idx) => {
                                self.now.current_song_index = Some(idx);
                            },
                            None => {},
                        }
                    },
                    None => {},
                }
                self.catalog.detail_pending = false;
            },
            Some(Err(_)) => {
                self.catalog.detail_pending = false;
            },
            None => {},
        }
    }

    /// Takes in a song detail: caches it and starts its playback.
    fn check_song(&mut self, r: Option<Result<SongDetail, String>>)
        requires
            old(self).wf(),
        ensures
            final(self).wf(),
            song_checked(*old(self), r, *final(self)),
    {
        if !self.now.song_pending {
            return;
        }
        match r {
            Some(Ok(sd)) => {
                self.now.song_pending = false;
                store_song_detail(&mut self.now.song_cache, sd.clone());
                let ghost mid = *self;
                self.start_playback(&sd);
                assert(song_via(*old(self), sd, mid, *self));
            },
            Some(Err(_)) => {
                self.now.song_pending = false;
            },
            None => {},
        }
    }

    /// Watches the audio download.
    fn check_stream(&mut self, len: usize, done: bool, player: Option<PlayerStatus>)
        requires
            old(self).wf(),
        ensures
            final(self).wf(),
            stream_checked(*old(self), len, done, player, *final(self)),
    {
        if !self.now.streaming || !self.now.buffering {
            return;
        }
        let is_done = self.now.stream_done_watch && done;
        let ready = len >= FIRST_CHUNK_BYTES || is_done;
        if ready && !self.now.stream_started {
            self.now.stream_started = true;
            if player.is_some() {
                self.emit(EffectKind::StartStream, String::new());
                if is_done {
                    self.now.stream_switched = true;
                    self.now.has_wav_data = true;
                    self.emit(EffectKind::SwitchStream, String::new());
                    self.now.stream_done_watch = false;
                    self.now.buffering = false;
                    self.now.buffering_msg = None;
                }
                assert(self.effects() =~= old(self).effects().push((EffectKind::StartStream, Seq::empty())) + (if is_done {
                    seq![(EffectKind::SwitchStream, Seq::<char>::empty())]
                } else {
                    Seq::empty()
                }));
                return;
            }
        }
        let ghost e0 = self.effects();
        if self.now.stream_started && !self.now.stream_switched && !is_done {
            match player {
                Some(p) => {
                    if p.is_empty && len > 0 {
                        self.emit(EffectKind::RecoverStream, String::new());
                    }
                },
                None => {},
            }
        }
        let ghost e1 = self.effects();
        if is_done && self.now.stream_started && !self.now.stream_switched {
            self.now.stream_switched = true;
            self.now.has_wav_data = true;
            self.now.pending_song = None;
            self.emit(EffectKind::SwitchStream, String::new());
            self.now.stream_done_watch = false;
            self.now.buffering = false;
            self.now.buffering_msg = None;
        }
        proof {
            assert(e0 == old(self).effects());
            assert(e1 == old(self).effects() + (if self.now.stream_started && !old(self).now.stream_switched && !is_done && player_ran_dry(player) && len > 0 {
                seq![(EffectKind::RecoverStream, Seq::<char>::empty())]
            } else {
                Seq::empty()
            }));
        }
    }

    /// Takes in the full song list.
    fn check_all_songs(&mut self, r: Option<Result<Vec<Song>, String>>)
        requires
            old(self).wf(),
        ensures
            final(self).wf(),
            all_songs_checked(*old(self), r, *final(self)),
    {
        if !self.queue.all_songs_pending {
            return;
        }
        match r {
            Some(Ok(list)) => {
                self.queue.all_songs = list;
                self.queue.all_songs_loaded = true;
                self.queue.all_songs_pending = false;
            },
            Some(Err(_)) => {
                self.queue.all_songs_pending = false;
            },
            None => {},
        }
    }

    /// Takes in lyrics text.
    fn check_lyrics(&mut self, r: Option<Result<String, String>>)
        requires
            old(self).wf(),
        ensures
            final(self).wf(),
            lyrics_checked(*old(self), r, *final(self)),
    {
        if !self.lyric.lyric_pending {
            return;
        }
        match r {
            Some(Ok(text)) => {
                if lrc_is_readable(text.as_str()) {
                    self.lyric.lyrics = parse_lrc(text.as_str());
                    self.lyric.lyric_pending = false;
                }
            },
            Some(Err(_)) => {
                self.lyric.lyric_pending = false;
            },
            None => {},
        }
    }

    /// In a global mode, makes sure of the queue.
    fn check_queue(&mut self)
        requires
            old(self).wf(),
        ensures
            final(self).wf(),
            queue_checked(*old(self), *final(self)),
    {
        if self.is_global_mode() {
            self.queue.ensure(self.play_mode);
        }
    }

    /// Follows the playback position with the lyric line to highlight.
    fn update_lyric_index(&mut self, player: Option<PlayerStatus>)
        requires
            old(self).wf(),
        ensures
            final(self).wf(),
            lyric_followed(*old(self), player, *final(self)),
    {
        match player {
            Some(p) => {
                if self.lyric.lyrics.len() > 0 {
                    self.lyric.lyric_index = lyric_index_at(&self.lyric.lyrics, p.elapsed_ms);
                }
            },
            None => {},
        }
    }

    /// Moves on when the song has played out.
    fn auto_advance(&mut self, player: Option<PlayerStatus>)
        requires
            old(self).wf(),
        ensures
            final(self).wf(),
            auto_advanced(*old(self), player, *final(self)),
    {
        if !self.now.playing || self.now.buffering {
            return;
        }
        let is_empty = match player {
            Some(p) => p.is_empty,
            None => false,
        };
        if !is_empty {
            return;
        }
        self.advance_to_next();
    }

    /// One frame: asks for the album list when there is none, takes in what
    /// arrived, watches the download, keeps the global queue, follows the
    /// lyrics and moves on when the song has ended.
    pub fn update(&mut self, input: FrameInput)
        requires
            old(self).wf(),
        ensures
            final(self).wf(),
            exists|st: Seq<Engine>| #[trigger] update_trace(*old(self), input, st, *final(self)),
    {
        let ghost inp = input;
        let FrameInput { albums, detail, song, all_songs, lyrics, stream_len, stream_done, player } = input;
        self.request_albums();
        let ghost s0 = *self;
        self.check_albums(albums);
        let ghost s1 = *self;
        self.check_detail(detail);
        let ghost s2 = *self;
        self.check_song(song);
        let ghost s3 = *self;
        self.check_stream(stream_len, stream_done, player);
        let ghost s4 = *self;
        self.check_all_songs(all_songs);
        let ghost s5 = *self;
        self.check_lyrics(lyrics);
        let ghost s6 = *self;
        self.fetch_all_songs();
        let ghost s7 = *self;
        self.check_queue();
        let ghost s8 = *self;
        self.update_lyric_index(player);
        let ghost s9 = *self;
        self.auto_advance(player);
        assert(update_trace(*old(self), inp, seq![s0, s1, s2, s3, s4, s5, s6, s7, s8, s9], *self));
    }

    /// The host reports whether playback of the first chunk started.
    pub fn on_stream_started(&mut self, ok: bool)
        requires
            old(self).wf(),
        ensures
            final(self).wf(),
            stream_start_reported(*old(self), ok, *final(self)),
    {
        if !ok {
            self.now.buffering = false;
            self.now.buffering_msg = None;
            self.advance_to_next();
            return;
        }
        self.now.playing = true;
        match &self.now.pending_song {
            Some(song) => {
                let artists = join(&song.artists, ", ");
                let mut name = String::new();
                name.append(song.name.as_str());
                name.append(" - ");
                name.append(artists.as_str());
                let cid = song.cid.clone();
                self.now.current_song_name = Some(name);
                self.now.current_song_cid = Some(cid);
            },
            None => {},
        }
        if self.now.stream_switched {
            self.now.pending_song = None;
        }
    }

    /// Puts a preloaded album detail into the cache.
    pub fn cache_album_detail(&mut self, d: AlbumDetail)
        requires
            old(self).wf(),
        ensures
            final(self).wf(),
            *final(self) == (Engine {
                catalog: Catalog { detail_cache: final(self).catalog.detail_cache, ..old(self).catalog },
                ..*old(self)
            }),
            detail_views(final(self).catalog.detail_cache@) == stored(
                detail_views(old(self).catalog.detail_cache@),
                detail_keys(old(self).catalog.detail_cache@),
                d.cid@,
                d@,
            ),
    {
        store_detail(&mut self.catalog.detail_cache, d);
    }

    /// Puts a preloaded song detail into the cache.
    pub fn cache_song_detail(&mut self, d: SongDetail)
        requires
            old(self).wf(),
        ensures
            final(self).wf(),
            *final(self) == (Engine {
                now: Playback { song_cache: final(self).now.song_cache, ..old(self).now },
                ..*old(self)
            }),
            song_detail_views(final(self).now.song_cache@) == stored(
                song_detail_views(old(self).now.song_cache@),
                song_detail_keys(old(self).now.song_cache@),
                d.cid@,
                d@,
            ),
    {
        store_song_detail(&mut self.now.song_cache, d);
    }
}

// ---------------------------------------------------------------------------
// Laws
// ---------------------------------------------------------------------------

/// Cycling the play mode seven times gives back the mode it started from,
/// and no fewer steps do.
pub proof fn law_mode_cycle(m: PlayMode)
    ensures
        next_mode(next_mode(next_mode(next_mode(next_mode(next_mode(next_mode(m))))))) == m,
        next_mode(m) != m,
{
}

/// Raising the volume and lowering it again gives back the volume, unless
/// raising it hit the ceiling; lowering and raising gives it back unless
/// lowering hit the floor.
pub proof fn law_volume_round_trip(v: u8)
    requires
        v <= 100,
    ensures
        v <= 95 ==> lowered(raised(v)) == v,
        v >= 5 ==> raised(lowered(v)) == v,
        raised(v) <= 100,
        lowered(v) <= 100,
{
}

/// Moving to the next album and back, or back and on, returns to the album
/// one started from.
pub proof fn law_album_round_trip(i: usize, n: nat)
    requires
        i < n,
        n <= usize::MAX,
    ensures
        prev_index(next_index(i, n), n) == i,
        next_index(prev_index(i, n), n) == i,
        next_index(i, n) < n,
        prev_index(i, n) < n,
{
    lemma_next_index_step(i, n);
    let p = prev_index(i, n);
    assert(p < n);
    lemma_next_index_step(p, n);
}

proof fn lemma_next_index_step(i: usize, n: nat)
    requires
        i < n,
        n <= usize::MAX,
    ensures
        next_index(i, n) == (if i + 1 < n { (i + 1) as usize } else { 0usize }),
{
    let t = n as int;
    if i + 1 < t {
        vstd::arithmetic::div_mod::lemma_fundamental_div_mod_converse(i + 1, t, 0, i + 1);
        assert((i + 1) % t == i + 1);
    } else {
        vstd::arithmetic::div_mod::lemma_fundamental_div_mod_converse(i + 1, t, 1, 0);
        assert((i + 1) % t == 0);
    }
}

/// The queue position after `k` steps forward from `i` in a queue of `n`.
pub open spec fn steps_from(i: usize, n: nat, k: nat) -> usize
    decreases k,
{
    if k == 0 {
        i
    } else {
        next_index(steps_from(i, n, (k - 1) as nat), n)
    }
}

proof fn lemma_steps_from(i: usize, n: nat, k: nat)
    requires
        i < n,
        n <= usize::MAX,
    ensures
        steps_from(i, n, k) as int == (i + k) % (n as int),
    decreases k,
{
    let t = n as int;
    if k == 0 {
        vstd::arithmetic::div_mod::lemma_fundamental_div_mod_converse(i as int, t, 0, i as int);
    } else {
        lemma_steps_from(i, n, (k - 1) as nat);
        let p = steps_from(i, n, (k - 1) as nat);
        vstd::arithmetic::div_mod::lemma_mod_bound((i + k - 1) as int, t);
        lemma_next_index_step(p, n);
        vstd::arithmetic::div_mod::lemma_add_mod_noop((i + k - 1) as int, 1, t);
        if t == 1 {
            vstd::arithmetic::div_mod::lemma_mod_self_0(1);
            assert(((i + k) as int) % t == 0) by {
                vstd::arithmetic::div_mod::lemma_mod_bound((i + k) as int, t);
            }
        } else {
            vstd::arithmetic::div_mod::lemma_small_mod(1, t as nat);
        }
        vstd::arithmetic::div_mod::lemma_mod_bound(p + 1, t);
        if p + 1 < t {
            vstd::arithmetic::div_mod::lemma_small_mod((p + 1) as nat, t as nat);
        } else {
            vstd::arithmetic::div_mod::lemma_mod_self_0(t);
        }
    }
}

/// Stepping forward through the global queue from any position visits a
/// different position at each of the first `n` steps, so every song of a
/// queue of `n` plays once, and the `n`-th step comes back to the start.
pub proof fn law_queue_plays_each_once(i: usize, n: nat, a: nat, b: nat)
    requires
        i < n,
        n <= usize::MAX,
        a < b < n,
    ensures
        steps_from(i, n, a) != steps_from(i, n, b),
        steps_from(i, n, a) < n,
        steps_from(i, n, n) == i,
{
    let t = n as int;
    lemma_steps_from(i, n, a);
    lemma_steps_from(i, n, b);
    lemma_steps_from(i, n, n);
    vstd::arithmetic::div_mod::lemma_mod_bound((i + a) as int, t);
    vstd::arithmetic::div_mod::lemma_fundamental_div_mod((i + a) as int, t);
    vstd::arithmetic::div_mod::lemma_fundamental_div_mod((i + b) as int, t);
    let qa = (i + a) as int / t;
    let qb = (i + b) as int / t;
    let ra = (i + a) as int % t;
    let rb = (i + b) as int % t;
    if ra == rb {
        assert(b - a == t * (qb - qa)) by (nonlinear_arith)
            requires
                (i + a) as int == t * qa + ra,
                (i + b) as int == t * qb + rb,
                ra == rb;
        assert(false) by (nonlinear_arith)
            requires
                b - a == t * (qb - qa),
                0 < b - a < t;
    }
    vstd::arithmetic::div_mod::lemma_mod_add_multiples_vanish(i as int, t);
    vstd::arithmetic::div_mod::lemma_small_mod(i as nat, t as nat);
}

/// Each toggle of a song's love flips whether it is loved; toggling a song
/// that was not loved twice leaves the loved songs as they were, and neither
/// toggle touches the catalog, the queue, the playback or the play mode.
pub proof fn law_love_toggle_twice(
    e0: Engine,
    e1: Engine,
    e2: Engine,
    cid: Seq<char>,
    name: Seq<char>,
    artists: Seq<Seq<char>>,
    name2: Seq<char>,
    artists2: Seq<Seq<char>>,
)
    requires
        love_flipped(e0, e1, cid, name, artists),
        love_flipped(e1, e2, cid, name2, artists2),
    ensures
        e1.loved.map().contains_key(cid) == !e0.loved.map().contains_key(cid),
        e2.loved.map().contains_key(cid) == e0.loved.map().contains_key(cid),
        !e0.loved.map().contains_key(cid) ==> e2.loved.map() == e0.loved.map(),
        e2.catalog == e0.catalog,
        e2.queue == e0.queue,
        e2.now == e0.now,
        e2.play_mode == e0.play_mode,
{
    if !e0.loved.map().contains_key(cid) {
        assert(e0.loved.map().insert(cid, LovedEntryView { cid, name, artists }).remove(cid)
            =~= e0.loved.map());
    }
}

/// A loved set has exactly one entry per id: its map holds as many keys as
/// the list holds entries.
pub proof fn law_loved_one_entry_per_song(s: Seq<LovedEntryView>)
    requires
        distinct_cids(s),
    ensures
        loved_map(s).dom().finite(),
        loved_map(s).dom().len() == s.len(),
    decreases s.len(),
{
    if s.len() > 0 {
        let t = s.drop_last();
        assert(distinct_cids(t));
        law_loved_one_entry_per_song(t);
        lemma_loved_map_dom(t, s.last().cid);
        assert(!loved_map(t).contains_key(s.last().cid));
    }
}

/// Text that holds `mid`, where `mid` holds `q`, holds `q`.
proof fn lemma_contains_trans(hay: Seq<char>, mid: Seq<char>, q: Seq<char>)
    requires
        contains_seq(hay, mid),
        contains_seq(mid, q),
    ensures
        contains_seq(hay, q),
{
    let i = choose|i: int| crate::text::occurs_at(hay, mid, i);
    let j = choose|j: int| crate::text::occurs_at(mid, q, j);
    assert(hay.subrange(i + j, i + j + q.len()) =~= q) by {
        assert forall|t: int| 0 <= t < q.len() implies hay.subrange(i + j, i + j + q.len())[t] == q[t] by {
            assert(mid.subrange(j, j + q.len())[t] == mid[j + t]);
            assert(hay.subrange(i, i + mid.len())[j + t] == hay[i + j + t]);
        }
    }
    assert(crate::text::occurs_at(hay, q, i + j));
}

/// A song that matches a query also matches any query the first one holds.
proof fn lemma_hit_weaker(albums: Seq<Album>, x: SongView, q1: Seq<char>, q2: Seq<char>)
    requires
        contains_seq(q2, q1),
        song_hit(albums, x, q2),
    ensures
        song_hit(albums, x, q1),
{
    if contains_seq(lowercase(x.name), q2) {
        lemma_contains_trans(lowercase(x.name), q2, q1);
    } else if exists|k: int| 0 <= k < x.artists.len() && contains_seq(lowercase(x.artists[k]), q2) {
        let k = choose|k: int| 0 <= k < x.artists.len() && contains_seq(lowercase(x.artists[k]), q2);
        lemma_contains_trans(lowercase(x.artists[k]), q2, q1);
    } else {
        let i = first_pos(album_keys(albums), x.album_cid)->0;
        lemma_contains_trans(lowercase(albums[i].name@), q2, q1);
    }
}

/// A more specific search never adds results: when the lower-cased query
/// `q1` occurs in the lower-cased query `q2`, the hits for `q2` are exactly
/// the hits for `q1` that also match `q2`, in the same order, so there are
/// no more of them.
pub proof fn law_narrower_search_keeps_fewer(albums: Seq<Album>, s: Seq<SongView>, q1: Seq<char>, q2: Seq<char>)
    requires
        contains_seq(lowercase(q2), lowercase(q1)),
    ensures
        search_hits(albums, search_hits(albums, s, lowercase(q1)), lowercase(q2)) == search_hits(
            albums,
            s,
            lowercase(q2),
        ),
        search_hits(albums, s, lowercase(q2)).len() <= search_hits(albums, s, lowercase(q1)).len(),
    decreases s.len(),
{
    let l1 = lowercase(q1);
    let l2 = lowercase(q2);
    if s.len() > 0 {
        law_narrower_search_keeps_fewer(albums, s.drop_last(), q1, q2);
        let p1 = search_hits(albums, s.drop_last(), l1);
        if song_hit(albums, s.last(), l1) {
            assert(search_hits(albums, p1.push(s.last()), l2) == {
                let p = search_hits(albums, p1.push(s.last()).drop_last(), l2);
                if song_hit(albums, s.last(), l2) { p.push(s.last()) } else { p }
            });
            assert(p1.push(s.last()).drop_last() =~= p1);
        } else if song_hit(albums, s.last(), l2) {
            lemma_hit_weaker(albums, s.last(), l1, l2);
        }
    }
}


/// Playing an entry of the queue keeps the queue and sets its position to
/// that entry.
proof fn lemma_queue_song_keeps_queue(old: Engine, q: GlobalQueue, idx: usize, mid: Engine, new: Engine)
    requires
        queue_song_via(old, q, idx, mid, new),
    ensures
        new.queue == (GlobalQueue { global_index: idx, ..q }),
{
    let start = Engine { queue: GlobalQueue { global_index: idx, ..q }, ..old };
    let song = q.global_playlist@[idx as int]@;
    assert(mid.queue == start.queue);
    match first_pos(song_detail_keys(mid.now.song_cache@), song.cid) {
        Some(i) => {
            assert(playback_started(mid, new, mid.now.song_cache@[i]@));
        },
        None => {},
    }
}

/// Stepping back through a non-empty global queue moves from position `i`
/// to `i - 1`, or from the first position to the last; the queue itself
/// stays, and with more than one entry the position changes.
pub proof fn law_global_step_back(old: Engine, q: GlobalQueue, new: Engine)
    requires
        global_step_via(old, q, new, false),
        q.global_playlist.len() > 0,
    ensures
        new.queue.global_playlist == q.global_playlist,
        new.queue.global_index == (if q.global_index > 0 {
            q.global_index - 1
        } else {
            q.global_playlist.len() - 1
        }),
        q.global_playlist.len() > 1 ==> new.queue.global_index != q.global_index,
{
    let idx = step_index(q, false);
    let mid = choose|mid: Engine| #[trigger] queue_song_via(old, q, idx, mid, new);
    lemma_queue_song_keeps_queue(old, q, idx, mid, new);
}

/// Stepping forward through a non-empty global queue moves from position
/// `i` to `i + 1`, or from the last position to the first.
pub proof fn law_global_step_forward(old: Engine, q: GlobalQueue, new: Engine)
    requires
        global_step_via(old, q, new, true),
        q.global_playlist.len() > 0,
    ensures
        new.queue.global_playlist == q.global_playlist,
        new.queue.global_index == (if q.global_index + 1 < q.global_playlist.len() {
            q.global_index + 1
        } else {
            0
        }),
{
    let idx = step_index(q, true);
    let mid = choose|mid: Engine| #[trigger] queue_song_via(old, q, idx, mid, new);
    lemma_queue_song_keeps_queue(old, q, idx, mid, new);
    lemma_next_index_step(q.global_index, q.global_playlist.len() as nat);
}

/// A step forward through the global queue followed by a step back comes
/// back to the position it started from, and so does a step back followed
/// by a step forward.
pub proof fn law_global_step_round_trip(
    e0: Engine,
    q1: GlobalQueue,
    e1: Engine,
    q2: GlobalQueue,
    e2: Engine,
    forward_first: bool,
)
    requires
        global_step_via(e0, q1, e1, forward_first),
        global_step_via(e1, q2, e2, !forward_first),
        q1.global_playlist.len() > 0,
    ensures
        e2.queue.global_index == q1.global_index,
        e2.queue.global_playlist == q1.global_playlist,
{
    if forward_first {
        law_global_step_forward(e0, q1, e1);
        assert(q2 == e1.queue);
        law_global_step_back(e1, q2, e2);
    } else {
        law_global_step_back(e0, q1, e1);
        assert(q2 == e1.queue);
        law_global_step_forward(e1, q2, e2);
    }
}


/// Where `first_pos` finds a key, the key is there.
proof fn lemma_first_pos_found(keys: Seq<Seq<char>>, k: Seq<char>)
    ensures
        first_pos(keys, k) matches Some(i) ==> 0 <= i < keys.len() && keys[i] == k,
    decreases keys.len(),
{
    if keys.len() > 0 && keys[0] != k {
        lemma_first_pos_found(keys.drop_first(), k);
        if let Some(i) = first_pos(keys.drop_first(), k) {
            assert(keys[i + 1] == keys.drop_first()[i]);
        }
    }
}

/// Going for a song: the song with that id is asked for, or, when its
/// details are cached, starts buffering with exactly that id.
pub open spec fn asked_or_buffering(old: Engine, new: Engine, cid: Seq<char>) -> bool {
    ||| new.effects() == old.effects().push((EffectKind::FetchSongDetail, cid))
    ||| new.now.pending_song matches Some(p) && p.cid@ == cid && new.now.buffering
}

/// In a loved mode, playing entry `index` of the loved songs marks that
/// entry as current and goes for the song with that entry's id: its details
/// are asked for, or it starts buffering.
pub proof fn law_play_loved_entry(old: Engine, new: Engine, index: usize)
    requires
        played_at(old, new, index),
        is_love(old.play_mode),
        index < old.loved.loved_list.len(),
    ensures
        new.now.current_song_index == Some(index),
        asked_or_buffering(old, new, old.loved.loved_list@[index as int].cid@),
{
    let cid = old.loved.loved_list@[index as int].cid@;
    let start = Engine { now: Playback { current_song_index: Some(index), ..old.now }, ..old };
    lemma_first_pos_found(song_detail_keys(start.now.song_cache@), cid);
    match first_pos(song_detail_keys(start.now.song_cache@), cid) {
        Some(i) => {
            assert(song_detail_keys(start.now.song_cache@)[i] == start.now.song_cache@[i].cid@);
            assert(playback_started(start, new, start.now.song_cache@[i]@));
        },
        None => {
            assert(start.effects() == old.effects());
        },
    }
}

} // verus!
