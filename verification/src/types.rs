//! Records of the Monster Siren API: albums, songs, news and the envelopes
//! that the endpoints wrap them in. Each record is viewed as the character
//! sequences of its fields.

use vstd::prelude::*;
use crate::text::views;

verus! {

/// Copies a list of strings element by element.
pub fn clone_strings(v: &Vec<String>) -> (r: Vec<String>)
    ensures
        views(r@) == views(v@),
{
    let r = v.clone();
    assert(views(r@) =~= views(v@));
    r
}

/// Copies an optional string.
pub fn clone_opt_string(v: &Option<String>) -> (r: Option<String>)
    ensures
        r == *v,
{
    match v {
        Some(s) => Some(s.clone()),
        None => None,
    }
}

/// The view of an optional string.
pub open spec fn opt_view(o: Option<String>) -> Option<Seq<char>> {
    match o {
        Some(s) => Some(s@),
        None => None,
    }
}

/// The envelope of every response: `{code, msg, data}`.
pub struct ApiResponse<T> {
    /// Status code; 0 means success, 104 means "not found".
    pub code: i32,
    /// Status text.
    pub msg: String,
    /// The payload.
    pub data: T,
}

/// An album as `/api/albums` lists it.
pub struct Album {
    /// Album id.
    pub cid: String,
    pub name: String,
    /// Cover picture URL.
    pub cover_url: String,
    pub artistes: Vec<String>,
}

/// The view of [`Album`]: its fields as character sequences.
pub struct AlbumView {
    pub cid: Seq<char>,
    pub name: Seq<char>,
    pub cover_url: Seq<char>,
    pub artistes: Seq<Seq<char>>,
}

impl View for Album {
    type V = AlbumView;

    open spec fn view(&self) -> AlbumView {
        AlbumView {
            cid: self.cid@,
            name: self.name@,
            cover_url: self.cover_url@,
            artistes: views(self.artistes@),
        }
    }
}

impl Clone for Album {
    fn clone(&self) -> (r: Self)
        ensures
            r@ == self@,
    {
        Album {
            cid: self.cid.clone(),
            name: self.name.clone(),
            cover_url: self.cover_url.clone(),
            artistes: clone_strings(&self.artistes),
        }
    }
}

/// A song inside an album detail: its identity, without audio link.
pub struct AlbumSong {
    /// Song id.
    pub cid: String,
    pub name: String,
    pub artistes: Vec<String>,
}

/// The view of [`AlbumSong`]: its fields as character sequences.
pub struct AlbumSongView {
    pub cid: Seq<char>,
    pub name: Seq<char>,
    pub artistes: Seq<Seq<char>>,
}

impl View for AlbumSong {
    type V = AlbumSongView;

    open spec fn view(&self) -> AlbumSongView {
        AlbumSongView {
            cid: self.cid@,
            name: self.name@,
            artistes: views(self.artistes@),
        }
    }
}

impl Clone for AlbumSong {
    fn clone(&self) -> (r: Self)
        ensures
            r@ == self@,
    {
        AlbumSong {
            cid: self.cid.clone(),
            name: self.name.clone(),
            artistes: clone_strings(&self.artistes),
        }
    }
}

/// The views of a list of album songs.
pub open spec fn album_song_views(s: Seq<AlbumSong>) -> Seq<AlbumSongView> {
    s.map_values(|a: AlbumSong| a@)
}

/// Copies a list of album songs.
pub fn clone_album_songs(v: &Vec<AlbumSong>) -> (r: Vec<AlbumSong>)
    ensures
        album_song_views(r@) == album_song_views(v@),
{
    let r = v.clone();
    assert(album_song_views(r@) =~= album_song_views(v@));
    r
}

/// An album with its introduction and songs (`/api/album/{cid}/detail`).
pub struct AlbumDetail {
    /// Album id.
    pub cid: String,
    pub name: String,
    /// Introduction text.
    pub intro: String,
    pub belong: String,
    pub cover_url: String,
    pub cover_de_url: String,
    pub songs: Vec<AlbumSong>,
}

/// The view of [`AlbumDetail`]: its fields as character sequences.
pub struct AlbumDetailView {
    pub cid: Seq<char>,
    pub name: Seq<char>,
    pub intro: Seq<char>,
    pub belong: Seq<char>,
    pub cover_url: Seq<char>,
    pub cover_de_url: Seq<char>,
    pub songs: Seq<AlbumSongView>,
}

impl View for AlbumDetail {
    type V = AlbumDetailView;

    open spec fn view(&self) -> AlbumDetailView {
        AlbumDetailView {
            cid: self.cid@,
            name: self.name@,
            intro: self.intro@,
            belong: self.belong@,
            cover_url: self.cover_url@,
            cover_de_url: self.cover_de_url@,
            songs: album_song_views(self.songs@),
        }
    }
}

impl Clone for AlbumDetail {
    fn clone(&self) -> (r: Self)
        ensures
            r@ == self@,
    {
        AlbumDetail {
            cid: self.cid.clone(),
            name: self.name.clone(),
            intro: self.intro.clone(),
            belong: self.belong.clone(),
            cover_url: self.cover_url.clone(),
            cover_de_url: self.cover_de_url.clone(),
            songs: clone_album_songs(&self.songs),
        }
    }
}

/// A song as `/api/songs` lists it.
pub struct Song {
    /// Song id.
    pub cid: String,
    pub name: String,
    /// Id of the album the song belongs to.
    pub album_cid: String,
    pub artists: Vec<String>,
}

/// The view of [`Song`]: its fields as character sequences.
pub struct SongView {
    pub cid: Seq<char>,
    pub name: Seq<char>,
    pub album_cid: Seq<char>,
    pub artists: Seq<Seq<char>>,
}

impl View for Song {
    type V = SongView;

    open spec fn view(&self) -> SongView {
        SongView {
            cid: self.cid@,
            name: self.name@,
            album_cid: self.album_cid@,
            artists: views(self.artists@),
        }
    }
}

impl Clone for Song {
    fn clone(&self) -> (r: Self)
        ensures
            r@ == self@,
    {
        Song {
            cid: self.cid.clone(),
            name: self.name.clone(),
            album_cid: self.album_cid.clone(),
            artists: clone_strings(&self.artists),
        }
    }
}

/// The views of a list of songs.
pub open spec fn song_views(s: Seq<Song>) -> Seq<SongView> {
    s.map_values(|a: Song| a@)
}

/// Copies a list of songs.
pub fn clone_songs(v: &Vec<Song>) -> (r: Vec<Song>)
    ensures
        song_views(r@) == song_views(v@),
{
    let r = v.clone();
    assert(song_views(r@) =~= song_views(v@));
    r
}

/// A song with its audio and lyric links (`/api/song/{cid}`).
pub struct SongDetail {
    /// Song id.
    pub cid: String,
    pub name: String,
    pub album_cid: String,
    /// Direct link to the WAV file.
    pub source_url: String,
    /// Link to the LRC lyrics, when the song has them.
    pub lyric_url: Option<String>,
    pub mv_url: Option<String>,
    pub mv_cover_url: Option<String>,
    pub artists: Vec<String>,
}

/// The view of [`SongDetail`]: its fields as character sequences.
pub struct SongDetailView {
    pub cid: Seq<char>,
    pub name: Seq<char>,
    pub album_cid: Seq<char>,
    pub source_url: Seq<char>,
    pub lyric_url: Option<Seq<char>>,
    pub mv_url: Option<Seq<char>>,
    pub mv_cover_url: Option<Seq<char>>,
    pub artists: Seq<Seq<char>>,
}

impl View for SongDetail {
    type V = SongDetailView;

    open spec fn view(&self) -> SongDetailView {
        SongDetailView {
            cid: self.cid@,
            name: self.name@,
            album_cid: self.album_cid@,
            source_url: self.source_url@,
            lyric_url: opt_view(self.lyric_url),
            mv_url: opt_view(self.mv_url),
            mv_cover_url: opt_view(self.mv_cover_url),
            artists: views(self.artists@),
        }
    }
}

impl Clone for SongDetail {
    fn clone(&self) -> (r: Self)
        ensures
            r@ == self@,
    {
        SongDetail {
            cid: self.cid.clone(),
            name: self.name.clone(),
            album_cid: self.album_cid.clone(),
            source_url: self.source_url.clone(),
            lyric_url: clone_opt_string(&self.lyric_url),
            mv_url: clone_opt_string(&self.mv_url),
            mv_cover_url: clone_opt_string(&self.mv_cover_url),
            artists: clone_strings(&self.artists),
        }
    }
}

/// The payload of `/api/songs`.
pub struct SongsResponse {
    pub list: Vec<Song>,
}

/// A news entry (`/api/news`).
pub struct NewsItem {
    pub cid: String,
    pub title: String,
    pub cate: i32,
    pub date: String,
}

/// The payload of `/api/news`.
pub struct NewsResponse {
    pub list: Vec<NewsItem>,
    /// Whether this is the last page.
    pub end: bool,
}

/// One page of search results.
pub struct SearchList<T> {
    pub list: Vec<T>,
    /// Whether this is the last page.
    pub end: bool,
}

/// The payload of `/api/search?keyword=`: matching albums and news.
pub struct SearchResponse {
    pub albums: SearchList<Album>,
    pub news: SearchList<NewsItem>,
}

} // verus!
