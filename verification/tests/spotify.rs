use rmpc_core::mpd::types::{
    Filter, FilterKind, IdleEvent, MetadataTag, OnOffOneshot, SingleOrRange, Song, State, Status,
    Tag, ValueChange, Version,
};
use rmpc_core::player::{Enqueue, PlayerBreakHandle};
use rmpc_core::spotify::auth::{
    authorize_lines, authorize_url, client_scopes, get_creds_path, get_token_path, login_line,
    missing_creds_lines, secret_line, token_of_file, ApiToken, AuthError, AuthorizeRequest,
    ClientSettings, FoundCreds, Instant, LoginStep, SetupReport, SetupStep, SpotifyCreds,
    DEFAULT_REDIRECT_URI, FIRST_SECOND, LAST_SECOND, LONGEST_SPAN,
};
use rmpc_core::spotify::catalog::{
    found_songs, playlists, search_request, PlaylistReport, PlaylistStep, Track,
};
use rmpc_core::spotify::client::{
    PlaybackCommand, PlayerNotice, SpotifyBreakHandle, SpotifyClient, SpotifyError,
};
use rmpc_core::spotify::enqueue::{EnqueueStep, WaitStep};
use rmpc_core::spotify::uri::{track_id, track_uri};
use rmpc_core::ui::spotify_devices::SpotifyDevicesPane;

const A: &str = "spotify:track:4iV5W9uYEdYUVa79Axb7Rh";
const B: &str = "spotify:track:5iKndSu1XI74U2OZePzP8L";
const C: &str = "spotify:track:0lbiy3LKzIY2fnyjioC11p";
/// A good name of a track, but not one that can be loaded.
const SHORT: &str = "spotify:track:abc";

fn track(name: &str) -> Track {
    Track {
        id: Some(name.to_string()),
        name: name.to_string(),
        artists: vec!["X".to_string(), "Y".to_string()],
        album: "Z".to_string(),
        duration_ms: 1500,
    }
}

fn player(uris: &[&str]) -> SpotifyClient {
    let (mut client, token) = SpotifyClient::init(Some("token".to_string())).ok().unwrap();
    assert_eq!(token, "token");
    for uri in uris {
        let request = client.add(uri).ok().unwrap();
        client.add_track(request, track("t"));
    }
    client
}

fn base() -> Status {
    Status {
        volume: 0,
        state: State::Stop,
        song: None,
        songid: None,
        elapsed_ms: 0,
        duration_ms: 9,
        updating_db: None,
        repeat: false,
        random: false,
        single: OnOffOneshot::Off,
        consume: OnOffOneshot::Off,
    }
}

fn status(client: &mut SpotifyClient) -> Status {
    client.get_status(&Vec::new(), base())
}

fn ids(client: &SpotifyClient) -> Vec<u32> {
    client.get_queue().iter().map(|s| s.id).collect()
}

fn loaded(commands: Vec<PlaybackCommand>) -> Vec<String> {
    commands
        .into_iter()
        .map(|c| match c {
            PlaybackCommand::Load { uri, start_playing: true, position_ms: 0 } => uri,
            other => format!("{other:?}"),
        })
        .collect()
}

#[test]
fn names_of_tracks() {
    assert_eq!(track_id(A), Some("4iV5W9uYEdYUVa79Axb7Rh".to_string()));
    assert_eq!(track_id("spotify/track/abc"), Some("abc".to_string()));
    assert_eq!(track_id("spotify:track:"), Some("".to_string()));
    assert_eq!(track_uri("4iV5W9uYEdYUVa79Axb7Rh"), A);
    for bad in [
        "",
        "abc",
        "spotify:track",
        "spotify:album:abc",
        "spotify:track/abc",
        "spotify:track:a:b",
        "spotify:track:a b",
        "spotify:track:ä",
        "Spotify:track:abc",
        "spotify:Track:abc",
        " spotify:track:abc",
    ] {
        assert_eq!(track_id(bad), None, "{bad:?}");
    }
}

#[test]
fn nobody_plays_without_a_login() {
    match SpotifyClient::init(None) {
        Err(e) => assert_eq!(
            e.message(),
            "Spotify not logged in. Run 'rmpc spotifylogin' first."
        ),
        Ok(_) => panic!("logged in"),
    }
}

#[test]
fn a_new_player() {
    let mut client = player(&[]);
    let s = status(&mut client);
    assert_eq!((s.volume, s.state, s.song, s.songid), (50, State::Stop, None, None));
    assert_eq!(s.duration_ms, 0);
    assert_eq!(client.name(), "spotify");
    assert_eq!(client.version(), Version::new(0, 1, 0));
    assert_eq!(client.list_partitions(), ["default"]);
    assert_eq!(client.update().job_id, 0);
    assert_eq!(
        client.add_downloaded_file_to_queue().unwrap_err().message(),
        "Spotify backend does not support adding downloaded files"
    );
}

#[test]
fn songs_are_added_at_the_end_with_new_ids() {
    let mut client = player(&[A, B]);
    assert_eq!(ids(&client), [1, 2]);
    let song: &Song = &client.get_queue()[1];
    assert_eq!(song.file, B);
    assert_eq!(song.duration_ms, Some(1500));
    assert!(matches!(&song.metadata[0], (k, MetadataTag::Single(v)) if k == "title" && v == "t"));
    assert!(matches!(
        &song.metadata[1],
        (k, MetadataTag::Multiple(v)) if k == "artist" && v == &["X", "Y"]
    ));
    assert!(matches!(&song.metadata[2], (k, MetadataTag::Single(v)) if k == "album" && v == "Z"));
    assert_eq!(client.add("x.mp3").err().unwrap(), SpotifyError::InvalidUri);
    assert_eq!(SpotifyError::InvalidUri.message(), "Invalid Spotify URI");
    assert!(client.has_free_id());
    client.delete_id(2);
    let request = client.add(C).ok().unwrap();
    assert_eq!(request.track_id, "0lbiy3LKzIY2fnyjioC11p");
    client.add_track(request, track("t"));
    assert_eq!(ids(&client), [1, 3]);
}

#[test]
fn playing_by_position_and_by_id() {
    let mut client = player(&[A, B, SHORT]);
    assert_eq!(client.play(Some(1)), Ok(()));
    assert_eq!(loaded(client.take_commands()), [B]);
    assert_eq!(status(&mut client).song, Some(1));
    assert_eq!(status(&mut client).songid, Some(2));
    assert_eq!(status(&mut client).state, State::Stop);
    assert_eq!(client.play_id(1), Ok(()));
    assert_eq!(loaded(client.take_commands()), [A]);
    assert_eq!(client.play_pos(3), Err(SpotifyError::SongNotFoundAtPosition));
    assert_eq!(client.play_id(9), Err(SpotifyError::SongNotFound));
    assert_eq!(client.play_pos(2), Err(SpotifyError::InvalidUri));
    assert_eq!(client.get_current_song().unwrap().file, A);
    assert!(client.take_commands().is_empty());
    assert_eq!(SpotifyError::SongNotFound.message(), "Song not found");
    assert_eq!(
        SpotifyError::SongNotFoundAtPosition.message(),
        "Song not found at position"
    );
}

#[test]
fn starting_with_a_given_verdict() {
    let mut client = player(&[SHORT]);
    assert_eq!(client.start(0, true), Ok(()));
    assert_eq!(loaded(client.take_commands()), [SHORT]);
    assert_eq!(client.start(0, false), Err(SpotifyError::InvalidUri));
    assert_eq!(client.start(1, true), Err(SpotifyError::SongNotFoundAtPosition));
}

#[test]
fn only_complete_ids_can_be_loaded() {
    for (uri, loads) in [
        (A, true),
        ("spotify/track/4iV5W9uYEdYUVa79Axb7Rh", false),
        ("spotify:track:4iV5W9uYEdYUVa79Axb7R", false),
        ("spotify:track:4iV5W9uYEdYUVa79Axb7Rhh", false),
        ("spotify:track:7N42dgm5tFLK9N8MT7fHC7", true),
        ("spotify:track:7N42dgm5tFLK9N8MT7fHC8", false),
        ("spotify:track:7n42DGM5Tflk9n8mt7Fhc8", true),
        ("spotify:track:ZZZZZZZZZZZZZZZZZZZZZZ", false),
        ("spotify:track:0000000000000000000000", true),
        ("spotify:track:", false),
    ] {
        let mut client = player(&[uri]);
        assert_eq!(client.play_pos(0).is_ok(), loads, "{uri}");
    }
}

#[test]
fn next_and_prev_stay_in_the_queue() {
    let mut client = player(&[A, B]);
    assert_eq!(client.next(), Ok(()));
    assert_eq!(client.prev(), Ok(()));
    assert_eq!(status(&mut client).song, None);
    client.play_pos(0).unwrap();
    client.prev().unwrap();
    assert_eq!(status(&mut client).song, Some(0));
    client.next().unwrap();
    assert_eq!(status(&mut client).song, Some(1));
    client.next().unwrap();
    assert_eq!(status(&mut client).song, Some(1));
    client.prev().unwrap();
    assert_eq!(status(&mut client).song, Some(0));
    assert_eq!(loaded(client.take_commands()), [A, B, A]);
}

#[test]
fn pausing_and_stopping() {
    let mut client = player(&[A]);
    client.pause_toggle();
    assert_eq!(status(&mut client).state, State::Play);
    client.pause_toggle();
    assert_eq!(status(&mut client).state, State::Pause);
    client.pause_toggle();
    assert_eq!(status(&mut client).state, State::Play);
    client.pause();
    client.unpause();
    client.stop();
    assert_eq!(status(&mut client).state, State::Stop);
    assert_eq!(client.play(None), Ok(()));
    assert_eq!(
        loaded(client.take_commands()),
        ["Play", "Pause", "Play", "Pause", "Play", "Stop", "Play"]
    );
}

#[test]
fn seeking() {
    let mut client = player(&[A]);
    client.poll_events(&vec![PlayerNotice::Playing { position_ms: 2500 }]);
    assert_eq!(status(&mut client).elapsed_ms, 2500);
    assert!(client.seek_fits(ValueChange::SetTo(4_294_967)));
    assert!(!client.seek_fits(ValueChange::SetTo(4_294_968)));
    assert!(client.seek_fits(ValueChange::Increase(4_294_964)));
    assert!(!client.seek_fits(ValueChange::Increase(4_294_965)));
    assert!(!client.seek_fits(ValueChange::Decrease(u32::MAX)));
    client.seek_current(ValueChange::SetTo(7));
    client.seek_current(ValueChange::Increase(1));
    client.seek_current(ValueChange::Decrease(2));
    client.seek_current(ValueChange::Decrease(3));
    let positions: Vec<u32> = client
        .take_commands()
        .into_iter()
        .map(|c| match c {
            PlaybackCommand::Seek { position_ms } => position_ms,
            _ => panic!("no seek"),
        })
        .collect();
    assert_eq!(positions, [7000, 3500, 500, 0]);
}

#[test]
fn volume_stays_in_range() {
    let mut client = player(&[]);
    for (change, expected) in [
        (ValueChange::SetTo(30), 30),
        (ValueChange::Increase(100), 100),
        (ValueChange::Increase(u32::MAX), 100),
        (ValueChange::Decrease(1), 99),
        (ValueChange::Decrease(500), 0),
        (ValueChange::SetTo(101), 100),
    ] {
        client.volume(change);
        assert_eq!(status(&mut client).volume, expected);
    }
}

#[test]
fn deleting_by_id_keeps_the_current_song() {
    let mut client = player(&[A, B, C]);
    client.play_pos(1).unwrap();
    client.take_commands();
    client.delete_id(1);
    assert_eq!(ids(&client), [2, 3]);
    assert_eq!(status(&mut client).song, Some(0));
    assert_eq!(client.get_current_song().unwrap().file, B);
    client.delete_id(3);
    assert_eq!(status(&mut client).song, Some(0));
    client.delete_id(77);
    assert_eq!(ids(&client), [2]);
    assert!(client.take_commands().is_empty());
    client.delete_id(2);
    assert_eq!(status(&mut client).song, None);
    assert_eq!(loaded(client.take_commands()), ["Stop"]);
    assert_eq!(client.queue_len(), 0);
}

#[test]
fn ids_rise_along_the_queue() {
    let mut client = player(&[A, B, C]);
    client.delete_id(2);
    let request = client.add(A).ok().unwrap();
    client.add_track(request, track("again"));
    assert_eq!(ids(&client), [1, 3, 4]);
    client.delete_from_queue(SingleOrRange { start: 2, end: None });
    client.delete_id(1);
    for _ in 0..2 {
        let request = client.add(B).ok().unwrap();
        client.add_track(request, track("again"));
    }
    assert_eq!(ids(&client), [3, 5, 6]);
    client.clear_queue();
    let request = client.add(C).ok().unwrap();
    client.add_track(request, track("again"));
    assert_eq!(ids(&client), [7]);
}

#[test]
fn deleting_ranges_leaves_the_position_as_it_is() {
    let range = |start, end| SingleOrRange { start, end };
    for (songs, left) in [
        (range(0, None), vec![2, 3]),
        (range(3, None), vec![1, 2, 3]),
        (range(0, Some(2)), vec![3]),
        (range(1, Some(99)), vec![1]),
        (range(2, Some(2)), vec![1, 2, 3]),
        (range(2, Some(1)), vec![1, 2, 3]),
        (range(9, Some(10)), vec![1, 2, 3]),
    ] {
        let mut client = player(&[A, B, C]);
        client.delete_from_queue(songs);
        assert_eq!(ids(&client), left);
    }
    let mut client = player(&[A]);
    client.play_pos(0).unwrap();
    client.delete_from_queue(range(0, None));
    assert_eq!(status(&mut client).song, Some(0));
    assert_eq!(status(&mut client).songid, None);
    assert!(client.get_current_song().is_none());
}

#[test]
fn clearing_stops_the_playback() {
    let mut client = player(&[A, B]);
    client.play_pos(1).unwrap();
    client.take_commands();
    client.clear_queue();
    assert!(ids(&client).is_empty());
    assert_eq!(status(&mut client).song, None);
    assert_eq!(loaded(client.take_commands()), ["Stop"]);
}

#[test]
fn reports_of_the_playback_library() {
    let mut client = player(&[A, B, SHORT]);
    client.play_pos(0).unwrap();
    client.take_commands();
    assert!(!client.poll_events(&Vec::new()));
    assert!(!client.poll_events(&vec![PlayerNotice::Other, PlayerNotice::Other]));
    let s = client.get_status(
        &vec![PlayerNotice::Playing { position_ms: 10 }, PlayerNotice::Other],
        base(),
    );
    assert_eq!((s.state, s.elapsed_ms), (State::Play, 10));
    assert!(client.poll_events(&vec![
        PlayerNotice::Paused { position_ms: 20 },
        PlayerNotice::Stopped,
        PlayerNotice::EndOfTrack,
    ]));
    let s = status(&mut client);
    assert_eq!((s.state, s.elapsed_ms, s.song), (State::Stop, 20, Some(1)));
    assert_eq!(loaded(client.take_commands()), [B]);
    assert!(client.poll_events(&vec![PlayerNotice::EndOfTrack]));
    assert_eq!(status(&mut client).song, Some(1));
    assert!(client.take_commands().is_empty());
}

fn file(path: &str) -> Enqueue {
    Enqueue::File { path: path.to_string() }
}

#[test]
fn several_items_are_added_and_one_is_played() {
    let mut client = player(&[A]);
    let items = vec![
        Enqueue::Find { filter: Vec::new() },
        file(B),
        Enqueue::Find { filter: Vec::new() },
        Enqueue::Playlist { name: C.to_string() },
    ];
    let mut step = client.enqueue_multiple(items, Some(1), false);
    let mut asked = Vec::new();
    while let EnqueueStep::Fetch { request, rest, start, autoplay_idx } = step {
        assert_eq!(start, 1);
        asked.push(request.track_id.clone());
        step = client.enqueue_track(request, rest, start, autoplay_idx, track("t"));
    }
    assert!(matches!(step, EnqueueStep::Done(Ok(()))));
    assert_eq!(asked, ["5iKndSu1XI74U2OZePzP8L", "0lbiy3LKzIY2fnyjioC11p"]);
    assert_eq!(ids(&client), [1, 2, 3]);
    assert_eq!(status(&mut client).song, Some(2));
    assert_eq!(loaded(client.take_commands()), [C]);
}

#[test]
fn adding_stops_at_a_bad_name() {
    let mut client = player(&[A]);
    assert!(!client.enqueue_fits(Some(usize::MAX), false));
    assert!(client.enqueue_fits(Some(usize::MAX), true));
    let step = client.enqueue_multiple(vec![file("bad"), file(B)], Some(0), true);
    assert!(matches!(step, EnqueueStep::Done(Err(SpotifyError::InvalidUri))));
    assert_eq!(client.queue_len(), 0);
    let step = client.enqueue_multiple(Vec::new(), None, false);
    assert!(matches!(step, EnqueueStep::Done(Ok(()))));
    let step = client.enqueue_multiple(Vec::new(), Some(0), false);
    assert!(matches!(
        step,
        EnqueueStep::Done(Err(SpotifyError::SongNotFoundAtPosition))
    ));
}

#[test]
fn waiting_for_events() {
    assert!(matches!(WaitStep::at(0), WaitStep::Poll));
    assert!(matches!(WaitStep::at(99), WaitStep::Poll));
    assert!(matches!(WaitStep::at(100), WaitStep::Return(events) if events.is_empty()));
    assert!(matches!(WaitStep::polled(false), WaitStep::Sleep { ms: 10 }));
    match WaitStep::polled(true) {
        WaitStep::Return(events) => assert_eq!(events, [IdleEvent::Player]),
        _ => panic!("no event"),
    }
}

#[test]
fn there_is_nothing_to_break() {
    assert_eq!(SpotifyBreakHandle {}.break_idle(), Ok(()));
}

fn condition(value: &str) -> Filter {
    Filter { tag: Tag::Artist, value: value.to_string(), kind: FilterKind::Contains }
}

#[test]
fn searching() {
    let query = |values: &[&str]| {
        let request = search_request(&values.iter().map(|v| condition(v)).collect());
        assert_eq!(request.limit, 50);
        request.query
    };
    assert_eq!(query(&[]), "");
    assert_eq!(query(&["a", "b"]), "a b");
    assert_eq!(query(&["", "a"]), "a");
    assert_eq!(query(&["a", "", "b"]), "a  b");
    let mut nameless = track("n");
    nameless.id = None;
    nameless.duration_ms = -5;
    let songs = found_songs(Some(vec![track("m"), nameless]));
    assert_eq!(songs[0].file, "spotify:track:m");
    assert_eq!((songs[0].id, songs[0].duration_ms), (0, Some(1500)));
    assert_eq!((songs[1].file.as_str(), songs[1].duration_ms), ("", Some(0)));
    assert!(found_songs(None).is_empty());
    assert_eq!(track_id(&songs[0].file), Some("m".to_string()));
}

#[test]
fn playlists_are_found_by_their_first_name() {
    let named = playlists(vec!["a".to_string(), "b".to_string()]);
    assert_eq!(named[1].name, "b");
    let playlist = |name: &str, id: &str| PlaylistReport::Playlist {
        name: name.to_string(),
        id: id.to_string(),
    };
    let step = PlaylistStep::begin("mine").next(playlist("other", "1"));
    assert!(matches!(step, PlaylistStep::NextPlaylist { .. }));
    assert!(!step.can_take(&PlaylistReport::Item(None)));
    let step = step.next(playlist("mine", "2"));
    assert!(matches!(&step, PlaylistStep::NextItem { playlist_id, .. } if playlist_id == "2"));
    let step = step.next(PlaylistReport::Item(Some(track("m"))));
    let step = step.next(PlaylistReport::Item(None));
    let step = step.next(PlaylistReport::Item(Some(track("a"))));
    match step.next(PlaylistReport::End) {
        PlaylistStep::Found(songs) => {
            let files: Vec<&str> = songs.iter().map(|song| song.file.as_str()).collect();
            assert_eq!(files, ["spotify:track:m", "spotify:track:a"]);
            let tags: Vec<&str> = songs[0].metadata.iter().map(|(tag, _)| tag.as_str()).collect();
            assert_eq!(tags, ["title", "artist", "album"]);
        }
        _ => panic!("not found"),
    }
    let missing = PlaylistStep::begin("mine").next(PlaylistReport::End);
    assert!(matches!(missing, PlaylistStep::NotFound));
    assert_eq!(SpotifyError::PlaylistNotFound.message(), "Playlist not found");
}

#[test]
fn files_in_the_configuration_directory() {
    let dir = || Some("/home/u/.config/rmpc".to_string());
    assert_eq!(get_token_path(dir()).unwrap(), "/home/u/.config/rmpc/spotify_token.json");
    assert_eq!(get_creds_path(dir()).unwrap(), "/home/u/.config/rmpc/spotify_creds.json");
    assert_eq!(get_token_path(None).unwrap_err(), AuthError::NoConfigDir);
    assert_eq!(AuthError::NoConfigDir.message(), "Failed to get config directory");
}

fn found(id: Option<&str>, secret: Option<&str>) -> FoundCreds {
    FoundCreds {
        client_id: id.map(|s| s.to_string()),
        client_secret: secret.map(|s| s.to_string()),
    }
}

fn begin(f: FoundCreds) -> SetupStep {
    SetupStep::begin(Some("/c".to_string()), f).ok().unwrap()
}

#[test]
fn credentials_come_from_the_environment_first() {
    assert!(matches!(
        begin(found(Some("i"), Some("s"))),
        SetupStep::CreateClient { settings, token_path }
            if settings.creds.client_id == "i"
                && settings.creds.client_secret == "s"
                && settings.redirect_uri == DEFAULT_REDIRECT_URI
                && settings.scopes == client_scopes()
                && token_path == "/c/spotify_token.json"
    ));
    let step = begin(found(None, Some("s")));
    assert!(matches!(
        &step,
        SetupStep::CheckCreds { files, .. }
            if files.creds == "/c/spotify_creds.json" && files.token == "/c/spotify_token.json"
    ));
    let step = step.next(SetupReport::Exists(true));
    let saved = SpotifyCreds { client_id: "fi".to_string(), client_secret: "fs".to_string() };
    match step.next(SetupReport::Creds(Some(saved))) {
        SetupStep::CreateClient { settings: ClientSettings { creds, .. }, .. } => {
            assert_eq!((creds.client_id.as_str(), creds.client_secret.as_str()), ("fi", "s"));
        }
        _ => panic!("no credentials"),
    }
    assert_eq!(
        SetupStep::begin(None, found(Some("i"), Some("s"))).err(),
        Some(AuthError::NoConfigDir)
    );
}

#[test]
fn credentials_are_asked_for_and_saved() {
    let step = begin(found(Some("env"), None)).next(SetupReport::Exists(true));
    let step = step.next(SetupReport::Creds(None));
    assert!(matches!(step, SetupStep::AskId { .. }));
    let step = step.next(SetupReport::Line(" id \n".to_string()));
    let step = step.next(SetupReport::Line("secret\n".to_string()));
    match &step {
        SetupStep::SaveCreds { files, creds } => {
            assert_eq!(files.creds, "/c/spotify_creds.json");
            assert_eq!((creds.client_id.as_str(), creds.client_secret.as_str()), ("id", "secret"));
        }
        _ => panic!("not saved"),
    }
    let step = step.next(SetupReport::Done);
    assert!(matches!(
        &step,
        SetupStep::CreateClient { settings, .. } if settings.creds.client_id == "id"
    ));
    let step = step.next(SetupReport::Done);
    assert!(matches!(&step, SetupStep::CheckToken { path } if path == "/c/spotify_token.json"));
    assert!(step.can_take(&SetupReport::Exists(true)));
    assert!(!step.can_take(&SetupReport::Done));
    let step = step.next(SetupReport::Exists(true));
    assert!(matches!(&step, SetupStep::LoadToken { path } if path == "/c/spotify_token.json"));
    assert!(step.can_take(&SetupReport::Text(String::new())));
    assert!(!step.can_take(&SetupReport::Done));
    let asked = begin(found(None, None)).next(SetupReport::Exists(false));
    assert!(matches!(asked, SetupStep::AskId { .. }));
    assert_eq!(missing_creds_lines()[3], "Please enter your Client ID:");
    assert_eq!(secret_line(), "Please enter your Client Secret:");
}

#[test]
fn the_authorize_url_carries_the_request() {
    let request = AuthorizeRequest::new("client1", "state2");
    assert_eq!(request.redirect_uri, DEFAULT_REDIRECT_URI);
    assert_eq!(request.scopes, client_scopes());
    assert_eq!(request.scopes.len(), 8);
    assert_eq!(request.scopes[7], "streaming");
    let url = authorize_url(&request);
    let parts = url.strip_prefix("https://accounts.spotify.com/authorize?").unwrap();
    let mut parts: Vec<&str> = parts.split('&').collect();
    parts.sort();
    assert_eq!(parts.len(), 5);
    assert_eq!(parts[0], "client_id=client1");
    assert_eq!(parts[1], "redirect_uri=http%3A%2F%2Flocalhost%3A8888%2Fcallback");
    assert_eq!(parts[2], "response_type=code");
    let mut scopes: Vec<&str> = parts[3].strip_prefix("scope=").unwrap().split('+').collect();
    scopes.sort();
    let mut wanted = client_scopes();
    wanted.sort();
    assert_eq!(scopes, wanted);
    assert_eq!(parts[4], "state=state2");
    assert_eq!(
        authorize_lines("u"),
        ["Please visit this URL to authorize rmpc: u", "Paste the redirect URL here:"]
    );
}

#[test]
fn the_authorize_url_is_encoded_as_a_form() {
    let request = AuthorizeRequest {
        client_id: "a b&c=d".to_string(),
        state: "\u{e4}\u{20ac}~*-._".to_string(),
        redirect_uri: "x/?\u{1f3b5}".to_string(),
        scopes: vec!["one".to_string(), "one".to_string()],
    };
    let url = authorize_url(&request);
    for part in [
        "client_id=a+b%26c%3Dd",
        "state=%C3%A4%E2%82%AC%7E*-._",
        "redirect_uri=x%2F%3F%F0%9F%8E%B5",
        "scope=one",
    ] {
        let behind = url.split_once('?').unwrap().1;
        assert!(behind.split('&').any(|p| p == part), "{url}");
    }
    let nothing = AuthorizeRequest {
        client_id: String::new(),
        state: String::new(),
        redirect_uri: String::new(),
        scopes: Vec::new(),
    };
    let url = authorize_url(&nothing);
    let mut parts: Vec<&str> = url.split_once('?').unwrap().1.split('&').collect();
    parts.sort();
    assert_eq!(parts, ["client_id=", "redirect_uri=", "response_type=code", "scope=", "state="]);
}

const TOKEN_FILE: &str = r#"{
    "access_token": "to\"ken",
    "expires_in": 3600,
    "expires_at": "2024-01-02T03:04:05.5Z",
    "refresh_token": null,
    "scope": "streaming user-library-read"
}"#;

#[test]
fn the_setup_finds_the_token_in_its_file() {
    let check = || begin(found(Some("i"), Some("s"))).next(SetupReport::Done);
    assert!(matches!(check().next(SetupReport::Exists(false)), SetupStep::Ready(None)));
    let load = |json: &str| {
        let step = check().next(SetupReport::Exists(true));
        assert!(matches!(step, SetupStep::LoadToken { .. }));
        step.next(SetupReport::Text(json.to_string()))
    };
    assert!(matches!(
        load(TOKEN_FILE),
        SetupStep::Ready(Some(loaded)) if loaded.access_token == "to\"ken"
    ));
    for json in ["", "{", "null", "{\"access_token\": 1}", "{\"expires_in\": 3600}"] {
        assert!(matches!(load(json), SetupStep::BadToken(_)), "{json}");
    }
}

fn saved(token: ApiToken) -> String {
    match LoginStep::with_token(Some(token), Some("/c".to_string())) {
        Ok(LoginStep::SaveToken { path, json }) => {
            assert_eq!(path, "/c/spotify_token.json");
            json
        }
        _ => panic!("not saved"),
    }
}

fn read_back(token: ApiToken) -> ApiToken {
    assert!(token.is_valid());
    let mut token = token_of_file(&saved(token)).ok().unwrap();
    assert!(token.is_valid());
    token.scopes.sort();
    token
}

fn api_token(access: &str, expires_in: i64, expires_at: Option<Instant>) -> ApiToken {
    ApiToken {
        access_token: access.to_string(),
        expires_in,
        expires_at,
        refresh_token: None,
        scopes: Vec::new(),
    }
}

#[test]
fn a_token_is_read_out_of_its_file() {
    let mut token = token_of_file(TOKEN_FILE).ok().unwrap();
    token.scopes.sort();
    assert_eq!(token.access_token, "to\"ken");
    assert_eq!(token.expires_in, 3600);
    assert_eq!(token.expires_at, Some(Instant { secs: 1704164645, nanos: 500_000_000 }));
    assert_eq!(token.refresh_token, None);
    assert_eq!(token.scopes, ["streaming", "user-library-read"]);
    let again = read_back(token);
    assert_eq!(again.access_token, "to\"ken");
    assert_eq!(again.expires_in, 3600);
    assert_eq!(again.expires_at, Some(Instant { secs: 1704164645, nanos: 500_000_000 }));
    assert_eq!(again.refresh_token, None);
    assert_eq!(again.scopes, ["streaming", "user-library-read"]);
}

#[test]
fn a_saved_token_is_read_back() {
    for (access, refresh) in [("a", Some("r")), ("", None), ("\u{e4}\n\\", Some(""))] {
        let mut token = api_token(access, 0, None);
        token.refresh_token = refresh.map(str::to_string);
        let again = read_back(token);
        assert_eq!((again.access_token.as_str(), again.refresh_token.as_deref()), (access, refresh));
        assert_eq!(again.expires_at, None);
    }
    for span in [0, 1, -1, 3600, LONGEST_SPAN, -LONGEST_SPAN] {
        assert_eq!(read_back(api_token("a", span, None)).expires_in, span);
    }
    for (secs, nanos) in [
        (0, 0),
        (-1, 999_999_999),
        (59, 1_999_999_999),
        (-1, 1_000_000_000),
        (1704164645, 123_000_000),
        (253402300800, 1_000),
        (-62167219201, 7),
        (FIRST_SECOND, 0),
        (LAST_SECOND, 999_999_999),
        (LAST_SECOND, 1_999_999_999),
    ] {
        let at = Some(Instant { secs, nanos });
        assert_eq!(read_back(api_token("a", 0, at)).expires_at, at);
    }
    let mut token = api_token("a", 0, None);
    token.scopes = vec!["one".to_string(), "two".to_string(), "one".to_string()];
    assert_eq!(read_back(token).scopes, ["one", "two"]);
    let mut token = api_token("a", 0, None);
    token.scopes = vec!["b c".to_string(), String::new(), "\u{2003}d\ta ".to_string()];
    assert_eq!(read_back(token).scopes, ["a", "b", "c", "d"]);
    assert!(matches!(LoginStep::with_token(None, None), Ok(LoginStep::Finished)));
    assert_eq!(
        LoginStep::with_token(Some(api_token("a", 0, None)), None).err(),
        Some(AuthError::NoConfigDir)
    );
    let error = token_of_file("x").err().unwrap();
    assert!(matches!(SetupStep::with_token(Err(error)), SetupStep::BadToken(_)));
}

#[test]
fn times_that_cannot_be_counted_are_told() {
    for (secs, nanos) in [
        (FIRST_SECOND - 1, 0),
        (LAST_SECOND + 1, 0),
        (0, 1_000_000_000),
        (59, 2_000_000_000),
        (i64::MIN, 0),
        (i64::MAX, 0),
    ] {
        assert!(!Instant { secs, nanos }.is_valid());
        assert!(!api_token("a", 0, Some(Instant { secs, nanos })).is_valid());
    }
    for span in [LONGEST_SPAN + 1, -LONGEST_SPAN - 1, i64::MIN, i64::MAX] {
        assert!(!api_token("a", span, None).is_valid());
    }
}

#[test]
fn the_code_is_read_out_of_the_redirect_url() {
    let line = "http://localhost:8888/callback?code=a%20b&state=st\n";
    assert!(matches!(
        LoginStep::with_line("st", line),
        Ok(LoginStep::RequestToken { code }) if code == "a b"
    ));
    for (state, line) in [
        ("other", line),
        ("st", "http://localhost:8888/callback?state=st"),
        ("st", "not a url"),
    ] {
        assert_eq!(LoginStep::with_line(state, line).err(), Some(AuthError::NoResponseCode));
    }
    assert_eq!(AuthError::NoResponseCode.message(), "Failed to parse response code");
    assert_eq!(LoginStep::with_code(None).err(), Some(AuthError::NoResponseCode));
    assert_eq!(login_line(), "Login successful and token saved.");
}

#[test]
fn the_devices_pane_starts_empty() {
    let mut pane = SpotifyDevicesPane::new();
    assert!(pane.items().is_empty());
    pane.devices.push("speaker".to_string());
    assert_eq!(pane.items(), ["speaker"]);
}
