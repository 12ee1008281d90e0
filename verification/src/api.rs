//! The Monster Siren API: where each endpoint lives, what a reply envelope
//! means, and the errors a call can end in. Sending the requests and reading
//! the JSON is the caller's part; this module decides on what comes back.

use vstd::prelude::*;
use crate::text::{decimal, push_char, push_decimal};

verus! {

/// The server the player talks to.
pub open spec fn default_base() -> Seq<char> {
    "https://monster-siren.hypergryph.com"@
}

/// An API client: the server's root address.
pub struct Client {
    base_url: String,
}

/// The decimal notation of a signed number, with a minus sign when negative.
pub open spec fn signed_decimal(n: int) -> Seq<char> {
    if n < 0 {
        seq!['-'] + decimal((-n) as nat)
    } else {
        decimal(n as nat)
    }
}

/// Appends a signed number to `s`.
pub fn push_signed(s: &mut String, n: i32)
    ensures
        final(s)@ == old(s)@ + signed_decimal(n as int),
{
    if n < 0 {
        push_char(s, '-');
        let m: u64 = (0i64 - (n as i64)) as u64;
        push_decimal(s, m);
        assert(final(s)@ =~= old(s)@ + signed_decimal(n as int));
    } else {
        push_decimal(s, n as u64);
    }
}

impl Client {
    /// The client's root address.
    pub closed spec fn base(&self) -> Seq<char> {
        self.base_url@
    }

    /// A client for the public server.
    pub fn new() -> (r: Client)
        ensures
            r.base() == default_base(),
    {
        Client { base_url: String::from_str("https://monster-siren.hypergryph.com") }
    }

    /// A client for another server, such as a gateway to compare against.
    pub fn with_base_url(base_url: String) -> (r: Client)
        ensures
            r.base() == base_url@,
    {
        Client { base_url }
    }

    /// The client's root address.
    pub fn base_url(&self) -> (r: &str)
        ensures
            r@ == self.base(),
    {
        self.base_url.as_str()
    }

    fn at(&self, path: &str) -> (r: String)
        ensures
            r@ == self.base() + path@,
    {
        let mut r = self.base_url.clone();
        r.append(path);
        r
    }

    fn at_cid(&self, head: &str, cid: &str, tail: &str) -> (r: String)
        ensures
            r@ == self.base() + head@ + cid@ + tail@,
    {
        let mut r = self.base_url.clone();
        r.append(head);
        r.append(cid);
        r.append(tail);
        r
    }

    /// `GET /api/albums`: every album.
    pub fn albums_url(&self) -> (r: String)
        ensures
            r@ == self.base() + "/api/albums"@,
    {
        self.at("/api/albums")
    }

    /// `GET /api/album/{cid}/detail`: an album with its songs.
    pub fn album_detail_url(&self, cid: &str) -> (r: String)
        ensures
            r@ == self.base() + "/api/album/"@ + cid@ + "/detail"@,
    {
        self.at_cid("/api/album/", cid, "/detail")
    }

    /// `GET /api/songs`: every song.
    pub fn songs_url(&self) -> (r: String)
        ensures
            r@ == self.base() + "/api/songs"@,
    {
        self.at("/api/songs")
    }

    /// `GET /api/song/{cid}`: a song with its audio and lyric links.
    pub fn song_detail_url(&self, cid: &str) -> (r: String)
        ensures
            r@ == self.base() + "/api/song/"@ + cid@,
    {
        proof {
            reveal_strlit("");
        }
        let r = self.at_cid("/api/song/", cid, "");
        assert(r@ =~= self.base() + "/api/song/"@ + cid@);
        r
    }

    /// `GET /api/news`: the news list.
    pub fn news_url(&self) -> (r: String)
        ensures
            r@ == self.base() + "/api/news"@,
    {
        self.at("/api/news")
    }

    /// `GET /api/search`, to be sent with the query parameter `keyword`.
    pub fn search_url(&self) -> (r: String)
        ensures
            r@ == self.base() + "/api/search"@,
    {
        self.at("/api/search")
    }
}

/// What a call to the API can end in, besides its data.
pub enum Error {
    /// The request failed: network, timeout, or a status other than 2xx.
    Http(String),
    /// Reading the reply failed.
    Io(String),
    /// The reply was not the JSON expected.
    Json(String),
    /// Playing audio failed.
    Audio(String),
    /// The server answered with a code other than 0.
    Api { code: i32, msg: String },
    /// The reply lacks something that was asked for, such as a song's lyrics.
    Missing(String),
}

/// The message an error is shown with.
pub open spec fn error_text(e: Error) -> Seq<char> {
    match e {
        Error::Http(m) => "HTTP error: "@ + m@,
        Error::Io(m) => "IO error: "@ + m@,
        Error::Json(m) => "JSON error: "@ + m@,
        Error::Audio(m) => "Audio error: "@ + m@,
        Error::Api { code, msg } => "API error: code="@ + signed_decimal(code as int) + ", msg="@ + msg@,
        Error::Missing(m) => "missing data: "@ + m@,
    }
}

impl Error {
    /// The message the error is shown with.
    pub fn message(&self) -> (r: String)
        ensures
            r@ == error_text(*self),
    {
        match self {
            Error::Http(m) => prefixed("HTTP error: ", m),
            Error::Io(m) => prefixed("IO error: ", m),
            Error::Json(m) => prefixed("JSON error: ", m),
            Error::Audio(m) => prefixed("Audio error: ", m),
            Error::Api { code, msg } => {
                let mut r = String::from_str("API error: code=");
                push_signed(&mut r, *code);
                r.append(", msg=");
                r.append(msg.as_str());
                r
            },
            Error::Missing(m) => prefixed("missing data: ", m),
        }
    }
}

fn prefixed(head: &str, m: &String) -> (r: String)
    ensures
        r@ == head@ + m@,
{
    let mut r = String::from_str(head);
    r.append(m.as_str());
    r
}

/// What a reply envelope `{code, msg, data}` gives: the data when the code
/// is 0 and data came, an API error for any other code, and a missing-data
/// error naming the message when the code is 0 but the data is absent.
pub open spec fn envelope_outcome<T>(code: i32, msg: Seq<char>, data: Option<T>) -> Result<T, (i32, Seq<char>, bool)> {
    if code != 0 {
        Err((code, msg, true))
    } else {
        match data {
            Some(d) => Ok(d),
            None => Err((0, "empty data: "@ + msg, false)),
        }
    }
}

/// The view of a result whose error is an [`Error`] of the API or
/// missing-data kind: its code (0 for missing data), its text, and whether it
/// came from the API.
pub open spec fn api_result_view<T>(r: Result<T, Error>) -> Result<T, (i32, Seq<char>, bool)> {
    match r {
        Ok(d) => Ok(d),
        Err(Error::Api { code, msg }) => Err((code, msg@, true)),
        Err(Error::Missing(m)) => Err((0, m@, false)),
        Err(_) => Err((0, Seq::empty(), false)),
    }
}

/// Opens a reply envelope; see [`envelope_outcome`].
pub fn open_envelope<T>(code: i32, msg: String, data: Option<T>) -> (r: Result<T, Error>)
    ensures
        api_result_view(r) == envelope_outcome(code, msg@, data),
        match r {
            Err(e) => e is Api || e is Missing,
            Ok(_) => true,
        },
{
    if code != 0 {
        return Err(Error::Api { code, msg });
    }
    match data {
        Some(d) => Ok(d),
        None => Err(Error::Missing(prefixed("empty data: ", &msg))),
    }
}

/// The lyric link of a song, or a missing-data error naming the song when it
/// has none.
pub fn lyric_link(cid: &str, lyric_url: Option<String>) -> (r: Result<String, Error>)
    ensures
        match lyric_url {
            Some(u) => r == Ok::<String, Error>(u),
            None => match r {
                Err(Error::Missing(m)) => m@ == "song "@ + cid@ + " has no lyric"@,
                _ => false,
            },
        },
{
    match lyric_url {
        Some(u) => Ok(u),
        None => {
            let mut m = String::from_str("song ");
            m.append(cid);
            m.append(" has no lyric");
            Err(Error::Missing(m))
        },
    }
}

} // verus!
