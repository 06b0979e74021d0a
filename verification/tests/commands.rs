use rmpc_core::command::{
    AddRandom, CliConfig, Command, CommandError, Plan, Provider, Search, StickerCmd, YtDlpHost,
};
use rmpc_core::mpd::types::{
    AlbumArtOrder, Decoder, FilterKind, OnOffOneshot, QueuePosition, Song, State, Status, Tag,
    Update, ValueChange, Version,
};
use rmpc_core::player::Enqueue;
use rmpc_core::run::{
    not_added_line, Action, AddOutcome, ArtTarget, PlayerCall, Reply, Run, RunError,
};

fn config() -> CliConfig {
    CliConfig { lyrics_dir: None, cache_dir: Some("/cache".to_string()) }
}

fn start(command: Command) -> (Run, Action) {
    match command.execute(&config()) {
        Ok(Plan::Start { run, action }) => (run, action),
        Ok(Plan::Search(_)) => panic!("a search"),
        Err(e) => panic!("{}", e.message()),
    }
}

fn strings(list: &[&str]) -> Vec<String> {
    list.iter().map(|s| s.to_string()).collect()
}

fn status(state: State) -> Status {
    Status {
        volume: 35,
        state,
        song: None,
        songid: None,
        elapsed_ms: 5999,
        duration_ms: 0,
        updating_db: None,
        repeat: true,
        random: false,
        single: OnOffOneshot::Oneshot,
        consume: OnOffOneshot::Off,
    }
}

fn song(file: &str) -> Song {
    Song { id: 1, file: file.to_string(), duration_ms: None, metadata: Vec::new() }
}

/// The action puts a playlist behind the queue, and plays nothing.
fn is_playlist(action: &Action, wanted: &str) -> bool {
    matches!(
        action,
        Action::Call(PlayerCall::EnqueueOne {
            item: Enqueue::Playlist { name },
            autoplay_idx: None,
            position: None,
            replace: false,
        }) if name == wanted
    )
}

/// The action looks for the song with this file.
fn finds_file(action: &Action, path: &str) -> bool {
    match action {
        Action::Call(PlayerCall::FindOne { filter }) => {
            matches!(filter.tag, Tag::File)
                && filter.kind == FilterKind::Exact
                && filter.value == path
        }
        _ => false,
    }
}

/// Makes every call, and returns the names of the songs that were added.
fn added(mut run: Run, mut action: Action, at: Option<QueuePosition>) -> Vec<String> {
    let mut uris = Vec::new();
    loop {
        match action {
            Action::Call(PlayerCall::Add { uri, position }) => {
                assert_eq!(position, at);
                uris.push(uri);
            }
            Action::Finish => return uris,
            _ => panic!("no song"),
        }
        let reply = Reply::Done;
        assert!(run.can_take(&reply));
        (run, action) = run.resume(reply);
    }
}

#[test]
fn commands_without_a_place_here_are_refused() {
    let cases = [
        (Command::Config, "Cannot use config command here."),
        (Command::Theme, "Cannot use theme command here."),
        (Command::Version, "Cannot use version command here."),
        (Command::DebugInfo, "Cannot use debuginfo command here."),
        (Command::Raw, "Cannot use raw command here."),
        (Command::Remote, "Cannot use remote command here."),
        (Command::SpotifyLogin, "SpotifyLogin should be handled in main."),
    ];
    for (command, text) in cases {
        match command.execute(&config()) {
            Err(e) => assert_eq!(e.message(), text),
            Ok(_) => panic!("{text}"),
        }
    }
}

#[test]
fn simple_commands_are_one_call() {
    assert!(matches!(
        start(Command::AddRandom { tag: AddRandom::Song, count: 3 }),
        (Run::Last, Action::Call(PlayerCall::AddRandomSongs { count: 3, filter: None }))
    ));
    assert!(matches!(
        start(Command::AddRandom { tag: AddRandom::AlbumArtist, count: 2 }),
        (Run::Last, Action::Call(PlayerCall::AddRandomTag { count: 2, tag: Tag::AlbumArtist }))
    ));
    assert!(matches!(
        start(Command::Play { position: None }),
        (Run::Last, Action::Call(PlayerCall::Play { pos: None }))
    ));
    assert!(matches!(
        start(Command::Play { position: Some(4) }),
        (Run::Last, Action::Call(PlayerCall::PlayPos { pos: 4 }))
    ));
    assert!(matches!(
        start(Command::Single { value: OnOffOneshot::Oneshot }),
        (Run::Last, Action::Call(PlayerCall::SetSingle { single: OnOffOneshot::Oneshot }))
    ));
    assert!(matches!(
        start(Command::DisableOutput { id: 9 }),
        (Run::Last, Action::Call(PlayerCall::DisableOutput { id: 9 }))
    ));
    match start(Command::Sticker {
        cmd: StickerCmd::Put {
            uri: "u".to_string(),
            key: "k".to_string(),
            value: "v".to_string(),
        },
    }) {
        (Run::Last, Action::Call(PlayerCall::SetSticker { uri, key, value })) => {
            assert_eq!((uri.as_str(), key.as_str(), value.as_str()), ("u", "k", "v"));
        }
        _ => panic!("no sticker"),
    }
}

#[test]
fn shown_values_are_printed_when_they_arrive() {
    let (run, action) = start(Command::Queue);
    assert!(matches!(action, Action::Call(PlayerCall::GetQueue)));
    let (run, action) = run.resume(Reply::Value);
    assert!(matches!(action, Action::PrintReply));
    let (run, action) = run.resume(Reply::Done);
    assert!(matches!((run, action), (Run::Over, Action::Finish)));
}

#[test]
fn a_failed_action_ends_the_run() {
    let (run, _) = start(Command::Queue);
    let (run, action) = run.resume(Reply::Failed);
    assert!(matches!((&run, &action), (Run::Over, Action::Abort(RunError::ActionFailed))));
    assert!(!run.can_take(&Reply::Done));
    assert!(!run.can_take(&Reply::Failed));
}

#[test]
fn volume_is_set_or_shown() {
    assert!(matches!(
        start(Command::Volume { value: Some("+42".to_string()) }),
        (Run::Last, Action::Call(PlayerCall::Volume { value: ValueChange::SetTo(42) }))
    ));
    assert!(matches!(
        start(Command::Volume { value: Some("-1".to_string()) }),
        (Run::Over, Action::Abort(RunError::InvalidNumber))
    ));
    let (run, _) = start(Command::Volume { value: None });
    match run.resume(Reply::Status(status(State::Stop))) {
        (Run::Last, Action::PrintLines(lines)) => assert_eq!(lines, ["35"]),
        _ => panic!("no volume"),
    }
}

#[test]
fn pause_is_toggled_only_where_something_plays() {
    for (state, toggles) in [(State::Play, true), (State::Pause, true), (State::Stop, false)] {
        let (run, _) = start(Command::TogglePause);
        let (_, action) = run.resume(Reply::Status(status(state)));
        if toggles {
            assert!(matches!(action, Action::Call(PlayerCall::PauseToggle)));
        } else {
            assert!(matches!(action, Action::Call(PlayerCall::Play { pos: None })));
        }
    }
}

#[test]
fn prev_rewinds_after_some_seconds() {
    for (limit, rewinds) in [(Some(5), true), (Some(6), false), (None, false)] {
        let (run, _) = start(Command::Prev { rewind_to_start: limit, keep_state: true });
        let (_, action) = run.resume(Reply::Status(status(State::Play)));
        if rewinds {
            assert!(matches!(
                action,
                Action::Call(PlayerCall::SeekCurrent { value: ValueChange::SetTo(0) })
            ));
        } else {
            assert!(matches!(
                action,
                Action::Call(PlayerCall::PrevKeepState { keep: true, state: State::Play })
            ));
        }
    }
}

#[test]
fn oneshot_depends_on_the_version() {
    for (version, skips) in [
        (Version::new(0, 20, 99), true),
        (Version::new(0, 21, 0), false),
        (Version::new(1, 0, 0), false),
    ] {
        let (run, _) = start(Command::ToggleSingle { skip_oneshot: false });
        let (run, action) = run.resume(Reply::Status(status(State::Play)));
        assert!(matches!(action, Action::Call(PlayerCall::GetVersion)));
        match run.resume(Reply::Version(version)) {
            (_, Action::Call(PlayerCall::CycleSingle { from, skip_oneshot })) => {
                assert_eq!(from, OnOffOneshot::Oneshot);
                assert_eq!(skip_oneshot, skips);
            }
            _ => panic!("no cycle"),
        }
    }
    let (run, _) = start(Command::ToggleConsume { skip_oneshot: false });
    let (run, _) = run.resume(Reply::Status(status(State::Play)));
    assert!(matches!(
        run.resume(Reply::Version(Version::new(0, 23, 9))).1,
        Action::Call(PlayerCall::CycleConsume { from: OnOffOneshot::Off, skip_oneshot: true })
    ));
    let (run, _) = start(Command::ToggleConsume { skip_oneshot: true });
    assert!(matches!(
        run.resume(Reply::Status(status(State::Play))).1,
        Action::Call(PlayerCall::CycleConsume { from: OnOffOneshot::Off, skip_oneshot: true })
    ));
}

#[test]
fn an_update_is_waited_for_until_its_job_is_over() {
    let (run, action) = start(Command::Update { path: Some("x".to_string()), wait: true });
    assert!(matches!(action, Action::Call(PlayerCall::Update { path: Some(_) })));
    let (mut run, mut action) = run.resume(Reply::Update(Update { job_id: 7 }));
    for updating in [Some(6), Some(7)] {
        assert!(matches!(action, Action::Call(PlayerCall::WaitForEvent)));
        (run, action) = run.resume(Reply::Done);
        assert!(matches!(action, Action::Call(PlayerCall::GetStatus)));
        let mut s = status(State::Play);
        s.updating_db = updating;
        (run, action) = run.resume(Reply::Status(s));
    }
    for updating in [Some(8), None] {
        let (waiting, _) = Run::WaitEvent { job_id: 7 }.resume(Reply::Done);
        let mut s = status(State::Play);
        s.updating_db = updating;
        assert!(matches!(waiting.resume(Reply::Status(s)), (Run::Over, Action::Finish)));
    }
    assert!(matches!(run, Run::WaitEvent { job_id: 7 }));
    assert!(matches!(action, Action::Call(PlayerCall::WaitForEvent)));
    let (run, _) = start(Command::Rescan { path: None, wait: false });
    assert!(matches!(
        run.resume(Reply::Update(Update { job_id: 1 })),
        (Run::Over, Action::Finish)
    ));
}

#[test]
fn all_paths_are_listed_before_anything_is_printed() {
    let (run, action) = start(Command::ListAll { files: strings(&["a", "b"]) });
    assert!(matches!(action, Action::Call(PlayerCall::ListAll { path: Some(p) }) if p == "a"));
    let (run, action) = run.resume(Reply::Files(strings(&["a/1", "a/2"])));
    assert!(matches!(action, Action::Call(PlayerCall::ListAll { path: Some(p) }) if p == "b"));
    match run.resume(Reply::Files(strings(&["b/1"]))) {
        (Run::Last, Action::PrintLines(lines)) => assert_eq!(lines, ["a/1", "a/2", "b/1"]),
        _ => panic!("no lines"),
    }
    let (_, action) = start(Command::ListAll { files: Vec::new() });
    assert!(matches!(action, Action::Call(PlayerCall::ListAll { path: None })));
}

#[test]
fn relative_files_are_added_in_insertion_order() {
    let files = ["a", "b", "c"];
    for (position, expected) in [
        (None, ["a", "b", "c"]),
        (Some(QueuePosition::RelativeSub(0)), ["a", "b", "c"]),
        (Some(QueuePosition::RelativeAdd(0)), ["c", "b", "a"]),
        (Some(QueuePosition::Absolute(2)), ["c", "b", "a"]),
    ] {
        let (run, action) =
            start(Command::Add { files: strings(&files), skip_ext_check: false, position });
        assert_eq!(added(run, action, position), expected);
    }
    let nothing =
        start(Command::Add { files: Vec::new(), skip_ext_check: false, position: None });
    assert!(matches!(nothing, (Run::Over, Action::Finish)));
}

#[test]
fn songs_come_to_stand_in_the_order_in_which_they_were_given() {
    let position = Some(QueuePosition::Absolute(1));
    let (run, action) = start(Command::Add {
        files: strings(&["a", "b", "c"]),
        skip_ext_check: true,
        position,
    });
    let mut queue = strings(&["x", "y"]);
    for uri in added(run, action, position) {
        queue.insert(1, uri);
    }
    assert_eq!(queue, ["x", "a", "b", "c", "y"]);
}

#[test]
fn absolute_files_need_the_music_directory() {
    let add = |skip_ext_check| {
        start(Command::Add {
            files: strings(&["/music/a/x.mp3", "/other/y.flac", "/music/z.txt", "/"]),
            skip_ext_check,
            position: None,
        })
    };
    let (run, action) = add(false);
    assert!(matches!(action, Action::Call(PlayerCall::GetConfig)));
    assert!(matches!(
        run.resume(Reply::MusicDirectory(None)),
        (Run::Over, Action::ReportAndFinish(line))
            if line == "Cannot add absolute path without socket connection to MPD"
    ));

    let (run, _) = add(false);
    let (run, action) = run.resume(Reply::MusicDirectory(Some("/music".to_string())));
    assert!(matches!(action, Action::Call(PlayerCall::Decoders)));
    let decoders = vec![
        Decoder { suffixes: strings(&["mp3", "mp2"]) },
        Decoder { suffixes: strings(&["flac"]) },
    ];
    let (run, action) = run.resume(Reply::Decoders(decoders));
    assert_eq!(added(run, action, None), ["a/x.mp3", "/other/y.flac", "/"]);

    let (run, _) = add(true);
    let (run, action) = run.resume(Reply::MusicDirectory(Some("/music".to_string())));
    assert_eq!(added(run, action, None), ["a/x.mp3", "/other/y.flac", "z.txt", "/"]);
}

#[test]
fn a_failed_call_stops_the_calls_behind_it() {
    let (run, action) = start(Command::Load { names: strings(&["one", "two"]) });
    assert!(is_playlist(&action, "one"));
    assert!(matches!(run.resume(Reply::Failed), (Run::Over, Action::Abort(_))));
    let (run, _) = start(Command::Load { names: strings(&["one", "two"]) });
    let (run, action) = run.resume(Reply::Done);
    assert!(is_playlist(&action, "two"));
    assert!(matches!(run.resume(Reply::Done), (Run::Over, Action::Finish)));
}

#[test]
fn songs_are_found_one_by_one() {
    let (run, action) = start(Command::Song { path: Some(strings(&["a"])) });
    assert!(finds_file(&action, "a"));
    match run.resume(Reply::Song(None)) {
        (Run::Over, Action::PrintLineAndExit(line)) => {
            assert_eq!(line, "Song with path 'a' not found.");
        }
        _ => panic!("found"),
    }
    let (run, _) = start(Command::Song { path: Some(strings(&["a", "b"])) });
    let (run, action) = run.resume(Reply::Song(Some(song("a"))));
    assert!(finds_file(&action, "b"));
    match run.resume(Reply::Song(Some(song("b")))) {
        (Run::Last, Action::PrintSongs(songs)) => {
            let files: Vec<_> = songs.iter().map(|s| s.file.as_str()).collect();
            assert_eq!(files, ["a", "b"]);
        }
        _ => panic!("not found"),
    }
    assert!(matches!(
        start(Command::Song { path: Some(Vec::new()) }),
        (Run::Last, Action::PrintSongs(songs)) if songs.is_empty()
    ));
    let (run, _) = start(Command::Song { path: None });
    assert!(matches!(run.resume(Reply::Song(None)), (Run::Over, Action::Exit(1))));
}

#[test]
fn album_art_goes_to_the_terminal_or_to_a_file() {
    for (output, to_stdout) in [("-", true), ("art.png", false)] {
        let (run, _) = start(Command::AlbumArt { output: output.to_string() });
        let (run, action) = run.resume(Reply::Song(Some(song("x.mp3"))));
        assert!(matches!(
            action,
            Action::Call(PlayerCall::AlbumArt { file, order: AlbumArtOrder::EmbeddedFirst })
                if file == "x.mp3"
        ));
        match run.resume(Reply::Art(Some(vec![1, 2]))) {
            (Run::Last, Action::WriteArt { target, data }) => {
                assert_eq!(data, [1, 2]);
                assert_eq!(matches!(target, ArtTarget::Stdout), to_stdout);
            }
            _ => panic!("no art"),
        }
    }
    let (run, _) = start(Command::AlbumArt { output: "-".to_string() });
    assert!(matches!(run.resume(Reply::Song(None)), (Run::Over, Action::Exit(3))));
    let (run, _) = start(Command::AlbumArt { output: "-".to_string() });
    let (run, _) = run.resume(Reply::Song(Some(song("x.mp3"))));
    assert!(matches!(run.resume(Reply::Art(None)), (Run::Over, Action::Exit(2))));
}

#[test]
fn missing_stickers_and_lyrics() {
    let (run, _) = start(Command::Sticker {
        cmd: StickerCmd::Get { uri: "u".to_string(), key: "k".to_string() },
    });
    assert!(matches!(
        run.resume(Reply::Sticker { found: false }),
        (Run::Over, Action::Exit(1))
    ));
    assert!(matches!(
        start(Command::LyricsIndex),
        (Run::Over, Action::Abort(RunError::LyricsDirNotConfigured))
    ));
    assert_eq!(
        RunError::LyricsDirNotConfigured.message().as_deref(),
        Some("Lyrics dir is not configured")
    );
    assert_eq!(RunError::ActionFailed.message(), None);
    assert_eq!(RunError::InvalidNumber.message(), None);
    assert_eq!(not_added_line("no"), "Failed to add downloaded file to queue: no");
    assert!(matches!(
        start(Command::Save { name: "n".to_string() }),
        (Run::Last, Action::Call(PlayerCall::SaveQueue { name, mode: None })) if name == "n"
    ));
    let find = StickerCmd::Find { uri: "u".to_string(), key: "k".to_string() };
    assert!(matches!(
        start(Command::Sticker { cmd: find }),
        (Run::Show, Action::Call(PlayerCall::FindStickers { uri, key, filter: None }))
            if uri == "u" && key == "k"
    ));
    let with_dir = CliConfig { lyrics_dir: Some("/lrc".to_string()), cache_dir: None };
    assert!(matches!(
        Command::LyricsIndex.execute(&with_dir),
        Ok(Plan::Start { action: Action::IndexLyrics { dir }, .. }) if dir == "/lrc"
    ));
}

#[test]
fn downloads_that_cannot_be_added_are_reported_or_refused() {
    let (run, action) = start(Command::AddYt { url: "url".to_string(), position: None });
    assert!(matches!(action, Action::Download { url } if url == "url"));
    let (run, action) = run.resume(Reply::Downloaded("f1".to_string()));
    match action {
        Action::Call(PlayerCall::AddDownloaded { path, cache_dir, position }) => {
            assert_eq!(path, "f1");
            assert_eq!(cache_dir.as_deref(), Some("/cache"));
            assert_eq!(position, None);
        }
        _ => panic!("no file"),
    }
    let (run, action) = run.resume(Reply::Failed);
    assert!(matches!(action, Action::NextDownload(AddOutcome::Reported)));
    let (run, _) = run.resume(Reply::Downloaded("f2".to_string()));
    let (run, action) = run.resume(Reply::Done);
    assert!(matches!(action, Action::NextDownload(AddOutcome::Added)));
    assert!(matches!(run.resume(Reply::DownloadOver), (Run::Over, Action::Finish)));
}

fn search(interactive: bool) -> Search {
    let command = Command::SearchYt {
        query: "  some song ".to_string(),
        provider: Provider::Nicovideo,
        interactive,
        limit: 8,
        position: Some(QueuePosition::Absolute(0)),
    };
    match command.execute(&config()) {
        Ok(Plan::Search(search)) => search,
        _ => panic!("no search"),
    }
}

#[test]
fn searches_take_the_first_result() {
    let asked = search(false);
    assert_eq!(asked.query, "some song");
    assert_eq!(asked.limit, 1);
    assert_eq!(asked.host, YtDlpHost::NicoVideo);
    assert_eq!(search(true).limit, 8);
    match asked.pick(strings(&["first", "second"])) {
        Ok((Run::Download { lenient, .. }, Action::Download { url })) => {
            assert!(!lenient);
            assert_eq!(url, "first");
        }
        _ => panic!("no download"),
    }
    match search(false).pick(Vec::new()) {
        Err(e) => {
            assert!(matches!(e, CommandError::NoResults { .. }));
            assert_eq!(e.message(), "No results found for query '  some song '");
        }
        Ok(_) => panic!("found"),
    }
    let (run, _) = match search(false).pick(strings(&["u"])) {
        Ok(started) => started,
        Err(_) => panic!("nothing"),
    };
    let (run, _) = run.resume(Reply::Downloaded("f".to_string()));
    assert!(matches!(
        run.resume(Reply::Failed).1,
        Action::NextDownload(AddOutcome::Refused)
    ));
}

#[test]
fn providers_have_hosts() {
    assert_eq!(YtDlpHost::from(Provider::Youtube), YtDlpHost::Youtube);
    assert_eq!(YtDlpHost::from(Provider::Soundcloud), YtDlpHost::Soundcloud);
    assert_eq!(YtDlpHost::from(Provider::Nicovideo), YtDlpHost::NicoVideo);
}
