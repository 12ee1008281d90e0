//! The second client of the Siren API, with the base address ending in
//! `/api`: it refuses any status but 200 and any reply code but 0, and
//! reports both in Chinese messages.

use vstd::prelude::*;
use crate::api::{push_signed, signed_decimal};
use crate::text::{decimal, push_decimal};
pub use crate::types::{Album, AlbumDetail, AlbumSong, Song, SongDetail};

verus! {

/// The reply envelope of every endpoint.
pub struct BaseResponse<T> {
    pub code: i32,
    pub msg: String,
    pub data: T,
}

/// The data of `/songs`.
pub struct SongsData {
    pub list: Vec<Song>,
}

/// The API root this client uses by default.
pub open spec fn siren_base() -> Seq<char> {
    "https://monster-siren.hypergryph.com/api"@
}

/// A client: the API root.
pub struct Client {
    base_url: String,
}

/// The error for an HTTP status other than 200.
pub open spec fn status_error(status: u16) -> Seq<char> {
    "HTTP错误: "@ + decimal(status as nat)
}

/// The error for a reply code other than 0.
pub open spec fn code_error(code: i32, msg: Seq<char>) -> Seq<char> {
    "API错误 "@ + signed_decimal(code as int) + ": "@ + msg
}

/// Accepts status 200 only.
pub fn check_status(status: u16) -> (r: Result<(), String>)
    ensures
        status == 200 ==> r is Ok,
        status != 200 ==> match r {
            Err(m) => m@ == status_error(status),
            Ok(_) => false,
        },
{
    if status != 200 {
        let mut m = String::from_str("HTTP错误: ");
        push_decimal(&mut m, status as u64);
        return Err(m);
    }
    Ok(())
}

/// The data of a reply whose code is 0, or the error naming the code and
/// message.
pub fn accept_envelope<T>(resp: BaseResponse<T>) -> (r: Result<T, String>)
    ensures
        resp.code == 0 ==> r == Ok::<T, String>(resp.data),
        resp.code != 0 ==> match r {
            Err(m) => m@ == code_error(resp.code, resp.msg@),
            Ok(_) => false,
        },
{
    if resp.code != 0 {
        let mut m = String::from_str("API错误 ");
        push_signed(&mut m, resp.code);
        m.append(": ");
        m.append(resp.msg.as_str());
        return Err(m);
    }
    Ok(resp.data)
}

impl Client {
    /// The client's API root.
    pub closed spec fn base(&self) -> Seq<char> {
        self.base_url@
    }

    /// A client for the public API.
    pub fn new() -> (r: Client)
        ensures
            r.base() == siren_base(),
    {
        Client { base_url: String::from_str("https://monster-siren.hypergryph.com/api") }
    }

    /// A client for another API root.
    pub fn with_base_url(base_url: String) -> (r: Client)
        ensures
            r.base() == base_url@,
    {
        Client { base_url }
    }

    /// The address of an endpoint: the root followed by the endpoint's path.
    pub fn request_url(&self, endpoint: &str) -> (r: String)
        ensures
            r@ == self.base() + endpoint@,
    {
        let mut r = self.base_url.clone();
        r.append(endpoint);
        r
    }

    /// `/albums`: every album.
    pub fn albums_url(&self) -> (r: String)
        ensures
            r@ == self.base() + "/albums"@,
    {
        self.request_url("/albums")
    }

    /// `/album/{cid}/detail`: an album with its songs.
    pub fn album_detail_url(&self, cid: &str) -> (r: String)
        ensures
            r@ == self.base() + "/album/"@ + cid@ + "/detail"@,
    {
        let mut e = String::from_str("/album/");
        e.append(cid);
        e.append("/detail");
        self.request_url(e.as_str())
    }

    /// `/songs`: every song.
    pub fn songs_url(&self) -> (r: String)
        ensures
            r@ == self.base() + "/songs"@,
    {
        self.request_url("/songs")
    }

    /// `/song/{cid}`: a song with its audio and lyric links.
    pub fn song_detail_url(&self, cid: &str) -> (r: String)
        ensures
            r@ == self.base() + "/song/"@ + cid@,
    {
        let mut e = String::from_str("/song/");
        e.append(cid);
        self.request_url(e.as_str())
    }
}

} // verus!
