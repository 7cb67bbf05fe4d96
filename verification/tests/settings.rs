use spotisync::auth::{auth_settings, callback_port, callback_url, redirect_uri, route_request, CallbackRoute};
use spotisync::decimal::{parse_decimal, parse_port, parse_u64};
use spotisync::download::{
    destinations, download_args, finish_download, spotify_item_args, DownloadError, SpotifyItemType,
};
use spotisync::fetch::{is_success_status, next_fetch_step, FetchOutcome, FetchStep};
use spotisync::queue::{Item, ItemType};

#[test]
fn default_auth_settings() {
    let s = auth_settings(None, None, None);
    assert_eq!(s.cache_path, "./cache/.spoitify_token_cache.json");
    assert!(s.token_cached);
    assert!(s.token_refreshing);
    assert_eq!(s.redirect_uri, "http://localhost:8100/callback");
    assert_eq!(
        s.scopes,
        vec!["playlist-modify-public", "playlist-modify-private", "playlist-read-private"]
    );
}

#[test]
fn configured_auth_settings() {
    let s = auth_settings(
        Some("/tmp/token.json".to_string()),
        Some("example.org".to_string()),
        Some("9000".to_string()),
    );
    assert_eq!(s.cache_path, "/tmp/token.json");
    assert_eq!(s.redirect_uri, "http://example.org:9000/callback");
    assert_eq!(redirect_uri("h", "1"), "http://h:1/callback");
}

#[test]
fn callback_port_default_and_configured() {
    assert_eq!(callback_port(None), Some(8100));
    assert_eq!(callback_port(Some("443".to_string())), Some(443));
    assert_eq!(callback_port(Some("+8080".to_string())), Some(8080));
    assert_eq!(callback_port(Some("65536".to_string())), None);
    assert_eq!(callback_port(Some("port".to_string())), None);
}

#[test]
fn callback_url_reads_back_its_port() {
    let url = callback_url(8100, "/callback?code=abc&state=xyz");
    assert_eq!(url, "localhost:8100/callback?code=abc&state=xyz");
    assert_eq!(callback_url(0, "/x"), "localhost:0/x");
    assert_eq!(callback_url(65535, ""), "localhost:65535");
    for p in [0u16, 7, 10, 99, 100, 8100, 65535] {
        let text = callback_url(p, "");
        assert_eq!(parse_port(&text["localhost:".len()..]), Some(p));
    }
}

#[test]
fn callback_routes() {
    assert_eq!(route_request("/callback"), CallbackRoute::Callback);
    assert_eq!(route_request("/"), CallbackRoute::Other);
    assert_eq!(route_request("/callback/"), CallbackRoute::Other);
    assert_eq!(route_request("/callbac"), CallbackRoute::Other);
    assert_eq!(CallbackRoute::Callback.body(), "Thanks for authenticating Spotisync");
    assert_eq!(CallbackRoute::Other.body(), "That's not a Spotify callback URL");
}

#[test]
fn decimal_parsing_follows_std() {
    for s in ["0", "7", "20", "+20", "007", "18446744073709551615", "18446744073709551616", "", "+", "-1", " 1", "1 ", "1.0", "٣", "+-1"] {
        assert_eq!(parse_u64(s), s.parse::<u64>().ok(), "input {:?}", s);
        assert_eq!(parse_port(s), s.parse::<u16>().ok(), "input {:?}", s);
    }
    assert_eq!(parse_decimal("255", 255), Some(255));
    assert_eq!(parse_decimal("256", 255), None);
}

#[test]
fn fetch_steps() {
    assert_eq!(next_fetch_step(&FetchOutcome::Items), FetchStep::ReturnItems);
    assert_eq!(
        next_fetch_step(&FetchOutcome::StatusError { code: 429, retry_after: None }),
        FetchStep::Wait(20)
    );
    assert_eq!(
        next_fetch_step(&FetchOutcome::StatusError { code: 429, retry_after: Some("3".to_string()) }),
        FetchStep::Wait(3)
    );
    assert_eq!(
        next_fetch_step(&FetchOutcome::StatusError { code: 500, retry_after: Some("3".to_string()) }),
        FetchStep::ReturnError
    );
    assert_eq!(
        next_fetch_step(&FetchOutcome::StatusError { code: 404, retry_after: None }),
        FetchStep::ReturnError
    );
    assert_eq!(next_fetch_step(&FetchOutcome::OtherError), FetchStep::ReturnError);
}

#[test]
fn success_statuses() {
    assert!(is_success_status(200));
    assert!(is_success_status(204));
    assert!(is_success_status(299));
    assert!(!is_success_status(199));
    assert!(!is_success_status(300));
    assert!(!is_success_status(404));
}

#[test]
fn bulk_download_arguments() {
    let args = spotify_item_args("37i9dQZF1DXcBWIGoYBM5M", SpotifyItemType::FullShow);
    assert_eq!(
        args,
        vec![
            "--config-dir",
            "/zspotify/config/",
            "--credentials-file",
            "/zspotify/credentials.json",
            "--download-dir",
            "/downloads/",
            "--music-dir",
            "/music/",
            "--episodes-dir",
            "/episodes/",
            "--full-show",
            "37i9dQZF1DXcBWIGoYBM5M",
        ]
    );
    let flags: Vec<&str> = [
        SpotifyItemType::Playlist,
        SpotifyItemType::Track,
        SpotifyItemType::Album,
        SpotifyItemType::Artist,
        SpotifyItemType::Episode,
        SpotifyItemType::FullShow,
    ]
    .iter()
    .map(|t| t.flag())
    .collect();
    assert_eq!(flags, vec!["--playlist", "--track", "--album", "--artist", "--episode", "--full-show"]);
}

#[test]
fn default_destinations() {
    let d = destinations(None, None, None, None, None);
    assert_eq!(d.download_dir, "./junk/downloads");
    assert_eq!(d.music_dir, "./junk/music");
    assert_eq!(d.episodes_dir, "./junk/episodes");
    assert_eq!(d.archive_file, "~/.zspotify/archive.json");
    assert_eq!(d.credentials_file, "~/.zspotify/credentials.json");
    let d = destinations(Some("/d".into()), None, Some("/e".into()), None, Some("/c".into()));
    assert_eq!(d.download_dir, "/d");
    assert_eq!(d.music_dir, "./junk/music");
    assert_eq!(d.episodes_dir, "/e");
    assert_eq!(d.credentials_file, "/c");
}

#[test]
fn queued_item_download_arguments() {
    let d = destinations(None, Some("/m".into()), None, Some("/a.json".into()), None);
    let item = Item { id: "abc".into(), name: "Song".into(), item_type: ItemType::Artist };
    assert_eq!(
        download_args(&d, &item),
        vec![
            "--download-dir",
            "./junk/downloads",
            "--music-dir",
            "/m",
            "--episodes-dir",
            "./junk/episodes",
            "--archive",
            "/a.json",
            "--audio-format",
            "--credentials-file",
            "~/.zspotify/credentials.json",
            "mp3",
            "--skip-downloaded",
            "--artist",
            "abc",
        ]
    );
    assert_eq!(ItemType::Album.flag(), "--album");
    assert_eq!(ItemType::Track.flag(), "--track");
    assert_eq!(ItemType::Playlist.flag(), "--playlist");
}

#[test]
fn finished_download_results() {
    let item = || Item { id: "abc".into(), name: "Song".into(), item_type: ItemType::Track };
    assert_eq!(finish_download(item(), true), Ok("Song".to_string()));
    assert_eq!(finish_download(item(), false), Err(DownloadError::Failed));
}
