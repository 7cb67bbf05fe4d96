use spotisync::playlist_id::{
    check_sync_pair, parse_playlist_id, sync_pair_from_ids, PlaylistIdError, SyncSetupError,
};
use spotisync::sync::{
    get_unsynced_tracks, plan_sync, plan_sync_round, track_in_playlist, PlaylistEntry, SyncPlan,
};

fn track(id: &str) -> PlaylistEntry {
    PlaylistEntry::Track { id: Some(id.to_string()) }
}

fn local() -> PlaylistEntry {
    PlaylistEntry::Track { id: None }
}

fn ids(v: &[&str]) -> Vec<Option<String>> {
    v.iter().map(|s| Some(s.to_string())).collect()
}

#[test]
fn track_in_playlist_finds_equal_ids_only() {
    let p = vec![track("a"), PlaylistEntry::Episode, track("b")];
    assert!(track_in_playlist(&Some("a".to_string()), &p));
    assert!(track_in_playlist(&Some("b".to_string()), &p));
    assert!(!track_in_playlist(&Some("c".to_string()), &p));
    assert!(!track_in_playlist(&None, &p));
    assert!(track_in_playlist(&None, &vec![local()]));
    assert!(!track_in_playlist(&Some("a".to_string()), &vec![]));
}

#[test]
fn unsynced_tracks_keep_source_order_and_skip_non_tracks() {
    let src = vec![
        track("a"),
        PlaylistEntry::Episode,
        track("b"),
        PlaylistEntry::Missing,
        track("c"),
        track("d"),
    ];
    let tgt = vec![track("b"), PlaylistEntry::Episode, track("x")];
    assert_eq!(get_unsynced_tracks(src, tgt), ids(&["a", "c", "d"]));
}

#[test]
fn unsynced_tracks_keep_duplicates_of_the_source() {
    let src = vec![track("a"), track("a")];
    assert_eq!(get_unsynced_tracks(src, vec![]), ids(&["a", "a"]));
}

#[test]
fn local_track_without_id_is_unsynced_unless_target_has_one() {
    assert_eq!(get_unsynced_tracks(vec![local()], vec![track("a")]), vec![None]);
    assert_eq!(get_unsynced_tracks(vec![local()], vec![local()]), Vec::<Option<String>>::new());
}

#[test]
fn sync_with_itself_finds_nothing_missing() {
    let p = || vec![track("a"), local(), PlaylistEntry::Episode, track("b")];
    assert!(get_unsynced_tracks(p(), p()).is_empty());
}

#[test]
fn sync_converges_after_adding_missing_tracks() {
    let src = || vec![track("a"), track("b"), track("c")];
    let mut tgt = vec![track("b")];
    let missing = get_unsynced_tracks(src(), vec![track("b")]);
    assert_eq!(missing, ids(&["a", "c"]));
    for id in missing {
        tgt.push(PlaylistEntry::Track { id });
    }
    assert!(get_unsynced_tracks(src(), tgt).is_empty());
}

#[test]
fn plan_sync_with_nothing_missing() {
    let plan = plan_sync(vec![track("a")], vec![track("a"), track("b")]);
    assert!(matches!(plan, SyncPlan::NothingToSync));
}

#[test]
fn plan_sync_adds_missing_tracks_in_order() {
    let plan = plan_sync(vec![track("c"), track("a"), track("b")], vec![track("a")]);
    match plan {
        SyncPlan::AddTracks(v) => assert_eq!(v, vec!["c".to_string(), "b".to_string()]),
        SyncPlan::NothingToSync => panic!("expected tracks to add"),
    }
}

#[test]
fn playlist_uri_gives_its_id() {
    assert_eq!(
        parse_playlist_id("spotify:playlist:37i9dQZF1DXcBWIGoYBM5M"),
        Ok("37i9dQZF1DXcBWIGoYBM5M".to_string())
    );
    assert_eq!(
        parse_playlist_id("spotify/playlist/37i9dQZF1DXcBWIGoYBM5M"),
        Ok("37i9dQZF1DXcBWIGoYBM5M".to_string())
    );
}

#[test]
fn bare_playlist_id_is_kept() {
    assert_eq!(parse_playlist_id("4rOoJ6Egrf8K2IrywzwOMk"), Ok("4rOoJ6Egrf8K2IrywzwOMk".to_string()));
}

#[test]
fn playlist_id_errors() {
    assert_eq!(parse_playlist_id("not-an-id"), Err(PlaylistIdError::InvalidId));
    assert_eq!(parse_playlist_id("spotify:track:4rOoJ6Egrf8K2IrywzwOMk"), Err(PlaylistIdError::InvalidType));
    assert_eq!(parse_playlist_id("spotify:playlist"), Err(PlaylistIdError::InvalidFormat));
    assert_eq!(parse_playlist_id("spotify:playlist:a-b"), Err(PlaylistIdError::InvalidId));
}

#[test]
fn sync_pair_of_two_playlists() {
    let p = sync_pair_from_ids("spotify:playlist:abc123", "def456").unwrap();
    assert_eq!(p.source, "abc123");
    assert_eq!(p.target, "def456");
}

#[test]
fn sync_pair_refuses_the_same_playlist() {
    let r = sync_pair_from_ids("abc123", "spotify:playlist:abc123");
    assert_eq!(r.unwrap_err(), SyncSetupError::SamePlaylist);
    let r = sync_pair_from_ids("abc123", "abc123");
    assert_eq!(r.unwrap_err(), SyncSetupError::SamePlaylist);
}

#[test]
fn sync_pair_reports_the_bad_side() {
    let r = sync_pair_from_ids("bad id", "also bad");
    assert_eq!(r.unwrap_err(), SyncSetupError::InvalidSource(PlaylistIdError::InvalidId));
    let r = sync_pair_from_ids("good", "spotify:album:abc");
    assert_eq!(r.unwrap_err(), SyncSetupError::InvalidTarget(PlaylistIdError::InvalidType));
}

#[test]
fn check_sync_pair_on_given_results() {
    let ok = check_sync_pair(Ok("a".to_string()), Ok("b".to_string())).unwrap();
    assert_eq!((ok.source.as_str(), ok.target.as_str()), ("a", "b"));
    assert_eq!(
        check_sync_pair(Err(PlaylistIdError::InvalidPrefix), Err(PlaylistIdError::InvalidId)).unwrap_err(),
        SyncSetupError::InvalidSource(PlaylistIdError::InvalidPrefix)
    );
    assert_eq!(
        check_sync_pair(Ok("a".to_string()), Err(PlaylistIdError::InvalidFormat)).unwrap_err(),
        SyncSetupError::InvalidTarget(PlaylistIdError::InvalidFormat)
    );
    assert_eq!(
        check_sync_pair(Ok("a".to_string()), Ok("a".to_string())).unwrap_err(),
        SyncSetupError::SamePlaylist
    );
}

#[test]
fn sync_round_adds_nothing_when_a_playlist_could_not_be_read() {
    assert!(matches!(plan_sync_round(Some(vec![track("a")]), None), SyncPlan::NothingToSync));
    assert!(matches!(plan_sync_round(None, Some(vec![track("b")])), SyncPlan::NothingToSync));
    assert!(matches!(plan_sync_round(None, None), SyncPlan::NothingToSync));
}

#[test]
fn sync_round_with_both_playlists_adds_missing_tracks() {
    match plan_sync_round(Some(vec![track("a"), track("b")]), Some(vec![track("a")])) {
        SyncPlan::AddTracks(v) => assert_eq!(v, vec!["b".to_string()]),
        SyncPlan::NothingToSync => panic!("expected a track to add"),
    }
    assert!(matches!(
        plan_sync_round(Some(vec![track("a")]), Some(vec![track("a")])),
        SyncPlan::NothingToSync
    ));
}

#[test]
fn larger_target_finds_fewer_missing() {
    let src = || vec![track("a"), track("b"), track("c"), local()];
    let small = get_unsynced_tracks(src(), vec![track("a")]);
    let large = get_unsynced_tracks(src(), vec![track("a"), track("c"), local()]);
    assert_eq!(small, vec![Some("b".to_string()), Some("c".to_string()), None]);
    assert_eq!(large, ids(&["b"]));
    assert!(large.iter().all(|id| small.contains(id)));
}

#[test]
fn odd_uris_are_refused_as_rspotify_refuses_them() {
    assert_eq!(parse_playlist_id("spotify:Playlist:abc"), Err(PlaylistIdError::InvalidType));
    assert_eq!(parse_playlist_id("spotify:collection:abc"), Err(PlaylistIdError::InvalidType));
    assert_eq!(parse_playlist_id("spotify:playlist:"), Ok(String::new()));
    assert_eq!(parse_playlist_id(""), Ok(String::new()));
    assert_eq!(parse_playlist_id("spotifyabc"), Ok("spotifyabc".to_string()));
    assert_eq!(parse_playlist_id("spotify:play:list:abc"), Err(PlaylistIdError::InvalidType));
    assert_eq!(parse_playlist_id("spotify/playlist:abc"), Err(PlaylistIdError::InvalidFormat));
}
