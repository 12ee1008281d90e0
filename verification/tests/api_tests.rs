use monster_player::api::{lyric_link, open_envelope, Error, Client};
use monster_player::siren;

#[test]
fn endpoint_addresses() {
    let c = Client::new();
    assert_eq!(c.base_url(), "https://monster-siren.hypergryph.com");
    assert_eq!(c.albums_url(), "https://monster-siren.hypergryph.com/api/albums");
    assert_eq!(c.album_detail_url("7760"), "https://monster-siren.hypergryph.com/api/album/7760/detail");
    assert_eq!(c.songs_url(), "https://monster-siren.hypergryph.com/api/songs");
    assert_eq!(c.song_detail_url("953936"), "https://monster-siren.hypergryph.com/api/song/953936");
    assert_eq!(c.news_url(), "https://monster-siren.hypergryph.com/api/news");
    assert_eq!(c.search_url(), "https://monster-siren.hypergryph.com/api/search");
    let g = Client::with_base_url("http://localhost:8080".to_string());
    assert_eq!(g.albums_url(), "http://localhost:8080/api/albums");
}

#[test]
fn envelope_with_code_zero_gives_data() {
    match open_envelope(0, String::new(), Some(41)) {
        Ok(v) => assert_eq!(v, 41),
        Err(_) => panic!("expected data"),
    }
}

#[test]
fn invalid_cid_is_an_api_error() {
    let r: Result<u8, Error> = open_envelope(104, "can't find target".to_string(), None);
    match r {
        Err(e) => {
            assert!(matches!(e, Error::Api { code: 104, .. }));
            assert_eq!(e.message(), "API error: code=104, msg=can't find target");
        }
        Ok(_) => panic!("expected an error"),
    }
}

#[test]
fn envelope_without_data_is_missing() {
    let r: Result<u8, Error> = open_envelope(0, "nothing".to_string(), None);
    match r {
        Err(e) => assert_eq!(e.message(), "missing data: empty data: nothing"),
        Ok(_) => panic!("expected an error"),
    }
}

#[test]
fn error_messages() {
    assert_eq!(Error::Http("timeout".to_string()).message(), "HTTP error: timeout");
    assert_eq!(Error::Io("eof".to_string()).message(), "IO error: eof");
    assert_eq!(Error::Json("bad".to_string()).message(), "JSON error: bad");
    assert_eq!(Error::Audio("decode".to_string()).message(), "Audio error: decode");
    assert_eq!(Error::Api { code: -3, msg: "x".to_string() }.message(), "API error: code=-3, msg=x");
    assert_eq!(
        Error::Api { code: i32::MIN, msg: String::new() }.message(),
        "API error: code=-2147483648, msg="
    );
}

#[test]
fn lyric_links() {
    match lyric_link("953936", Some("https://web.hycdn.cn/siren/lyric/a.lrc".to_string())) {
        Ok(u) => assert_eq!(u, "https://web.hycdn.cn/siren/lyric/a.lrc"),
        Err(_) => panic!("expected the link"),
    }
    match lyric_link("953936", None) {
        Err(e) => assert_eq!(e.message(), "missing data: song 953936 has no lyric"),
        Ok(_) => panic!("expected an error"),
    }
}

#[test]
fn siren_client_addresses() {
    let c = siren::Client::new();
    assert_eq!(c.albums_url(), "https://monster-siren.hypergryph.com/api/albums");
    assert_eq!(c.album_detail_url("7760"), "https://monster-siren.hypergryph.com/api/album/7760/detail");
    assert_eq!(c.songs_url(), "https://monster-siren.hypergryph.com/api/songs");
    assert_eq!(c.song_detail_url("1"), "https://monster-siren.hypergryph.com/api/song/1");
    assert_eq!(siren::Client::with_base_url("x".to_string()).request_url("/y"), "x/y");
}

#[test]
fn siren_status_and_code_checks() {
    assert!(siren::check_status(200).is_ok());
    assert_eq!(siren::check_status(404), Err("HTTP错误: 404".to_string()));
    let ok = siren::accept_envelope(siren::BaseResponse { code: 0, msg: String::new(), data: 5u8 });
    assert_eq!(ok, Ok(5));
    let bad = siren::accept_envelope(siren::BaseResponse { code: 104, msg: "can't find target".to_string(), data: 0u8 });
    assert_eq!(bad, Err("API错误 104: can't find target".to_string()));
}
