//! What holds of every run of a command.

use crate::command::{CliConfig, Command, Plan};
use crate::mpd::types::{QueuePosition, Song};
use crate::path;
use crate::run::{Action, PlayerCall, Reply, Run, RunError};
use crate::run;
use crate::text;
use vstd::prelude::*;

verus! {

impl Run {
    /// The run goes on like this, if it can take the answer at all.
    pub open spec fn goes(self, reply: Reply, run: Run, action: Action) -> bool {
        self.accepts(reply) ==> self.steps(reply, run, action)
    }
}

/// Nothing comes after this action.
pub open spec fn is_final(action: Action) -> bool {
    match action {
        Action::Finish | Action::Abort(_) | Action::Exit(_) | Action::PrintLineAndExit(_)
        | Action::ReportAndFinish(_) => true,
        _ => false,
    }
}

/// How many steps a run has left at most, where it does not wait for what
/// others do.
pub open spec fn steps_left(run: Run) -> nat {
    match run {
        Run::Over => 0,
        Run::Last => 1,
        Run::Calls { rest } => rest@.len() + 1,
        Run::ListAll { rest, .. } => rest@.len() + 2,
        Run::Songs { rest, .. } => rest@.len() + 2,
        Run::AddDecoders { files, .. } => files@.len() + 1,
        Run::AddConfig { files, .. } => files@.len() + 2,
        Run::ToggleSingle { .. } | Run::ToggleConsume { .. } | Run::ArtSong { .. } => 3,
        _ => 2,
    }
}

/// The run waits for a database update, or for downloads, of which there may
/// be any number.
pub open spec fn waits_for_others(run: Run) -> bool {
    match run {
        Run::UpdateJob { wait } => wait,
        Run::WaitEvent { .. } | Run::WaitStatus { .. } | Run::Download { .. }
        | Run::AddDownloaded { .. } => true,
        _ => false,
    }
}

proof fn lemma_supported_files_len(files: Seq<String>, suffixes: Seq<Seq<char>>)
    ensures
        run::supported_files(files, suffixes).len() <= files.len(),
    decreases files.len(),
{
    if files.len() > 0 {
        lemma_supported_files_len(files.drop_last(), suffixes);
    }
}

/// A run is over exactly when its action is the last one, and then it takes
/// no more answers.
#[verifier::rlimit(60)]
pub proof fn law_over_means_final(before: Run, reply: Reply, after: Run, action: Action)
    requires
        before.accepts(reply),
        before.goes(reply, after, action),
    ensures
        after is Over <==> is_final(action),
        after is Over ==> forall|r: Reply| !#[trigger] after.accepts(r),
{
}

/// A failed action ends the run with that failure, except that a downloaded
/// file that cannot be added leaves the download to go on.
pub proof fn law_failure_ends_a_run(before: Run, reply: Reply, after: Run, action: Action)
    requires
        reply is Failed,
        before.accepts(reply),
        before.goes(reply, after, action),
    ensures
        before !is AddDownloaded ==> after is Over && action == Action::Abort(
            RunError::ActionFailed,
        ),
        before is AddDownloaded ==> after is Download && action is NextDownload,
{
}

/// A run that does not wait for others gets nearer to its end with every step.
#[verifier::rlimit(60)]
pub proof fn law_runs_end(before: Run, reply: Reply, after: Run, action: Action)
    requires
        !waits_for_others(before),
        before.accepts(reply),
        before.goes(reply, after, action),
    ensures
        !waits_for_others(after),
        steps_left(after) < steps_left(before),
{
    match (before, reply) {
        (Run::AddDecoders { files, position, .. }, Reply::Decoders(decoders)) => {
            lemma_supported_files_len(files@, run::all_suffixes(decoders@));
        },
        _ => {},
    }
}

/// A run that makes calls makes all of them, in order, as long as each of them
/// succeeds, and then finishes.
#[verifier::rlimit(60)]
pub proof fn law_all_calls_are_made(
    calls: Seq<PlayerCall>,
    runs: Seq<Run>,
    actions: Seq<Action>,
)
    requires
        runs.len() == calls.len() + 1,
        actions.len() == runs.len(),
        run::begins(calls, runs[0], actions[0]),
        forall|i: int|
            0 <= i < calls.len() ==> (#[trigger] runs[i]).goes(
                Reply::Done,
                runs[i + 1],
                actions[i + 1],
            ),
    ensures
        forall|i: int| 0 <= i < calls.len() ==> actions[i] == Action::Call(#[trigger] calls[i]),
        runs.last() is Over,
        actions.last() == Action::Finish,
{
    assert forall|i: int| 0 <= i <= calls.len() implies #[trigger] run::begins(
        calls.skip(i),
        runs[i],
        actions[i],
    ) by {
        lemma_begins_at(calls, runs, actions, i);
    }
    assert forall|i: int| 0 <= i < calls.len() implies actions[i] == Action::Call(
        #[trigger] calls[i],
    ) by {
        assert(run::begins(calls.skip(i), runs[i], actions[i]));
    }
    assert(run::begins(
        calls.skip(calls.len() as int),
        runs[calls.len() as int],
        actions[calls.len() as int],
    ));
}

#[verifier::rlimit(60)]
proof fn lemma_begins_at(calls: Seq<PlayerCall>, runs: Seq<Run>, actions: Seq<Action>, i: int)
    requires
        runs.len() == calls.len() + 1,
        actions.len() == runs.len(),
        run::begins(calls, runs[0], actions[0]),
        forall|i: int|
            0 <= i < calls.len() ==> (#[trigger] runs[i]).goes(
                Reply::Done,
                runs[i + 1],
                actions[i + 1],
            ),
        0 <= i <= calls.len(),
    ensures
        run::begins(calls.skip(i), runs[i], actions[i]),
    decreases i,
{
    if i == 0 {
        assert(calls.skip(0) == calls);
    } else {
        lemma_begins_at(calls, runs, actions, i - 1);
        assert(runs[i - 1].goes(Reply::Done, runs[i - 1 + 1], actions[i - 1 + 1]));
        assert(calls.skip(i - 1).skip(1) == calls.skip(i));
    }
}

/// The files of all answers, one answer after the other.
pub open spec fn all_files(answers: Seq<Vec<String>>) -> Seq<String>
    decreases answers.len(),
{
    if answers.len() == 0 {
        Seq::empty()
    } else {
        all_files(answers.drop_last()) + answers.last()@
    }
}

/// A run that lists paths has made its first calls and got `answers`.
pub open spec fn has_listed(
    paths: Seq<String>,
    answers: Seq<Vec<String>>,
    run: Run,
    action: Action,
) -> bool {
    if answers.len() < paths.len() {
        &&& action == Action::Call(PlayerCall::ListAll { path: Some(paths[answers.len() as int]) })
        &&& run matches Run::ListAll { rest, found }
        &&& rest@ == paths.skip(answers.len() as int + 1)
        &&& found@ == all_files(answers)
    } else {
        &&& run is Last
        &&& action matches Action::PrintLines(lines)
        &&& lines@ == all_files(answers)
    }
}

/// A command that lists paths asks for each of them, in order, and in the end
/// prints the files of all answers, in order.
#[verifier::rlimit(60)]
pub proof fn law_listing_prints_everything(
    paths: Vec<String>,
    config: CliConfig,
    plan: Plan,
    answers: Seq<Vec<String>>,
    runs: Seq<Run>,
    actions: Seq<Action>,
)
    requires
        paths@.len() > 0,
        (Command::ListAll { files: paths }).plans(config, plan),
        answers.len() == paths@.len(),
        runs.len() == paths@.len() + 1,
        actions.len() == runs.len(),
        plan == (Plan::Start { run: runs[0], action: actions[0] }),
        forall|i: int|
            0 <= i < paths@.len() ==> (#[trigger] runs[i]).goes(
                Reply::Files(answers[i]),
                runs[i + 1],
                actions[i + 1],
            ),
    ensures
        forall|i: int|
            0 <= i < paths@.len() ==> #[trigger] actions[i] == Action::Call(
                PlayerCall::ListAll { path: Some(paths@[i]) },
            ),
        actions.last() matches Action::PrintLines(lines) && lines@ == all_files(answers),
{
    match runs[0] {
        Run::ListAll { found, .. } => {
            assert(found@ == all_files(Seq::empty()));
        },
        _ => {},
    }
    assert forall|i: int| 0 <= i < paths@.len() implies #[trigger] lists_at(
        answers,
        runs,
        actions,
        i,
    ) by {
        assert(runs[i].goes(Reply::Files(answers[i]), runs[i + 1], actions[i + 1]));
    }
    assert forall|i: int| 0 <= i <= paths@.len() implies #[trigger] has_listed(
        paths@,
        answers.take(i),
        runs[i],
        actions[i],
    ) by {
        lemma_has_listed(paths@, answers, runs, actions, i);
    }
    assert forall|i: int| 0 <= i < paths@.len() implies #[trigger] actions[i] == Action::Call(
        PlayerCall::ListAll { path: Some(paths@[i]) },
    ) by {
        assert(has_listed(paths@, answers.take(i), runs[i], actions[i]));
    }
    let n = paths@.len() as int;
    assert(has_listed(paths@, answers.take(n), runs[n], actions[n]));
    assert(answers.take(n) == answers);
}

/// The run goes on after its answer `i`, a list of files.
spec fn lists_at(
    answers: Seq<Vec<String>>,
    runs: Seq<Run>,
    actions: Seq<Action>,
    i: int,
) -> bool {
    runs[i].goes(Reply::Files(answers[i]), runs[i + 1], actions[i + 1])
}

#[verifier::rlimit(60)]
proof fn lemma_lists_one(
    paths: Seq<String>,
    answers: Seq<Vec<String>>,
    files: Vec<String>,
    before: Run,
    asked: Action,
    after: Run,
    action: Action,
)
    requires
        answers.len() < paths.len(),
        has_listed(paths, answers, before, asked),
        before.goes(Reply::Files(files), after, action),
    ensures
        has_listed(paths, answers.push(files), after, action),
{
    let n = answers.len() as int;
    assert(answers.push(files).drop_last() == answers);
    if n + 1 < paths.len() {
        assert(paths.skip(n + 1).skip(1) == paths.skip(n + 2));
    }
}

#[verifier::rlimit(60)]
proof fn lemma_has_listed(
    paths: Seq<String>,
    answers: Seq<Vec<String>>,
    runs: Seq<Run>,
    actions: Seq<Action>,
    i: int,
)
    requires
        answers.len() == paths.len(),
        runs.len() == paths.len() + 1,
        actions.len() == runs.len(),
        has_listed(paths, Seq::empty(), runs[0], actions[0]),
        forall|i: int| 0 <= i < paths.len() ==> #[trigger] lists_at(answers, runs, actions, i),
        0 <= i <= paths.len(),
    ensures
        has_listed(paths, answers.take(i), runs[i], actions[i]),
    decreases i,
{
    if i == 0 {
        assert(answers.take(0) == Seq::<Vec<String>>::empty());
    } else {
        let j = i - 1;
        lemma_has_listed(paths, answers, runs, actions, j);
        assert(lists_at(answers, runs, actions, j));
        lemma_lists_one(
            paths,
            answers.take(j),
            answers[j],
            runs[j],
            actions[j],
            runs[i],
            actions[i],
        );
        assert(answers.take(i) == answers.take(j).push(answers[j]));
    }
}

/// A run that looks for songs has made its first calls and got `songs`.
pub open spec fn has_found(
    paths: Seq<String>,
    songs: Seq<Song>,
    run: Run,
    action: Action,
) -> bool {
    if songs.len() < paths.len() {
        &&& action == Action::Call(
            PlayerCall::FindOne { filter: run::file_filter(paths[songs.len() as int]) },
        )
        &&& run matches Run::Songs { path, rest, found }
        &&& path == paths[songs.len() as int]
        &&& rest@ == paths.skip(songs.len() as int + 1)
        &&& found@ == songs
    } else {
        &&& run is Last
        &&& action matches Action::PrintSongs(printed)
        &&& printed@ == songs
    }
}

/// A command that shows several songs looks for each of them, in order, and in
/// the end prints all of them, in order.
#[verifier::rlimit(60)]
pub proof fn law_all_songs_are_shown(
    paths: Vec<String>,
    config: CliConfig,
    plan: Plan,
    songs: Seq<Song>,
    runs: Seq<Run>,
    actions: Seq<Action>,
)
    requires
        paths@.len() > 1,
        (Command::Song { path: Some(paths) }).plans(config, plan),
        songs.len() == paths@.len(),
        runs.len() == paths@.len() + 1,
        actions.len() == runs.len(),
        plan == (Plan::Start { run: runs[0], action: actions[0] }),
        forall|i: int|
            0 <= i < paths@.len() ==> (#[trigger] runs[i]).goes(
                Reply::Song(Some(songs[i])),
                runs[i + 1],
                actions[i + 1],
            ),
    ensures
        forall|i: int|
            0 <= i < paths@.len() ==> #[trigger] actions[i] == Action::Call(
                PlayerCall::FindOne { filter: run::file_filter(paths@[i]) },
            ),
        actions.last() matches Action::PrintSongs(printed) && printed@ == songs,
{
    match runs[0] {
        Run::Songs { found, .. } => {
            assert(found@ == Seq::<Song>::empty());
        },
        _ => {},
    }
    assert forall|i: int| 0 <= i < paths@.len() implies #[trigger] finds_at(
        songs,
        runs,
        actions,
        i,
    ) by {
        assert(runs[i].goes(Reply::Song(Some(songs[i])), runs[i + 1], actions[i + 1]));
    }
    assert forall|i: int| 0 <= i <= paths@.len() implies #[trigger] has_found(
        paths@,
        songs.take(i),
        runs[i],
        actions[i],
    ) by {
        lemma_has_found(paths@, songs, runs, actions, i);
    }
    assert forall|i: int| 0 <= i < paths@.len() implies #[trigger] actions[i] == Action::Call(
        PlayerCall::FindOne { filter: run::file_filter(paths@[i]) },
    ) by {
        assert(has_found(paths@, songs.take(i), runs[i], actions[i]));
    }
    let n = paths@.len() as int;
    assert(has_found(paths@, songs.take(n), runs[n], actions[n]));
    assert(songs.take(n) == songs);
}

/// The run goes on after its answer `i`, a song.
spec fn finds_at(songs: Seq<Song>, runs: Seq<Run>, actions: Seq<Action>, i: int) -> bool {
    runs[i].goes(Reply::Song(Some(songs[i])), runs[i + 1], actions[i + 1])
}

#[verifier::rlimit(60)]
proof fn lemma_finds_one(
    paths: Seq<String>,
    songs: Seq<Song>,
    song: Song,
    before: Run,
    asked: Action,
    after: Run,
    action: Action,
)
    requires
        songs.len() < paths.len(),
        has_found(paths, songs, before, asked),
        before.goes(Reply::Song(Some(song)), after, action),
    ensures
        has_found(paths, songs.push(song), after, action),
{
    let n = songs.len() as int;
    if n + 1 < paths.len() {
        assert(paths.skip(n + 1).skip(1) == paths.skip(n + 2));
    }
}

#[verifier::rlimit(60)]
proof fn lemma_has_found(
    paths: Seq<String>,
    songs: Seq<Song>,
    runs: Seq<Run>,
    actions: Seq<Action>,
    i: int,
)
    requires
        songs.len() == paths.len(),
        runs.len() == paths.len() + 1,
        actions.len() == runs.len(),
        has_found(paths, Seq::empty(), runs[0], actions[0]),
        forall|i: int| 0 <= i < paths.len() ==> #[trigger] finds_at(songs, runs, actions, i),
        0 <= i <= paths.len(),
    ensures
        has_found(paths, songs.take(i), runs[i], actions[i]),
    decreases i,
{
    if i == 0 {
        assert(songs.take(0) == Seq::<Song>::empty());
    } else {
        let j = i - 1;
        lemma_has_found(paths, songs, runs, actions, j);
        assert(finds_at(songs, runs, actions, j));
        lemma_finds_one(paths, songs.take(j), songs[j], runs[j], actions[j], runs[i], actions[i]);
        assert(songs.take(i) == songs.take(j).push(songs[j]));
    }
}

/// A command that starts has something left to do exactly if its first action
/// is not its last.
pub proof fn law_commands_start(command: Command, config: CliConfig, plan: Plan)
    requires
        command.plans(config, plan),
    ensures
        plan matches Plan::Start { run, action } ==> (run is Over <==> is_final(action)),
        command.refusal() is None,
{
}

/// Of the files that are given, those are added that can be played, all of
/// them and no others.
pub proof fn law_supported_files(files: Seq<String>, suffixes: Seq<Seq<char>>)
    ensures
        forall|file: String| #[trigger]
            run::supported_files(files, suffixes).contains(file) <==> files.contains(file)
                && run::supported(file@, suffixes),
    decreases files.len(),
{
    if files.len() > 0 {
        let init = files.drop_last();
        let last = files.last();
        law_supported_files(init, suffixes);
        let kept = run::supported_files(init, suffixes);
        assert(files == init.push(last));
        assert forall|file: String| #[trigger]
            run::supported_files(files, suffixes).contains(file) <==> files.contains(file)
                && run::supported(file@, suffixes) by {
            lemma_push_contains(kept, last, file);
            lemma_push_contains(init, last, file);
            assert(kept.contains(file) <==> init.contains(file) && run::supported(file@, suffixes));
        }
    } else {
        assert forall|file: String| !#[trigger] run::supported_files(files, suffixes).contains(
            file,
        ) by {}
    }
}

proof fn lemma_push_contains(list: Seq<String>, last: String, item: String)
    ensures
        list.push(last).contains(item) <==> list.contains(item) || item == last,
{
    let longer = list.push(last);
    if longer.contains(item) {
        let i = choose|i: int| 0 <= i < longer.len() && longer[i] == item;
        if i < list.len() {
            assert(list[i] == item);
        }
    }
    if list.contains(item) {
        let i = choose|i: int| 0 <= i < list.len() && list[i] == item;
        assert(longer[i] == item);
    }
    assert(longer[list.len() as int] == last);
}

/// A file below the music directory gets a name without slashes at its ends,
/// so that the player takes it for one below that directory.
pub proof fn law_names_below_the_music_directory_are_relative(file: Seq<char>, dir: Seq<char>)
    requires
        path::lies_under(file, dir),
    ensures
        !path::rooted(run::song_uri(file, dir)),
        run::song_uri(file, dir).len() > 0 ==> run::song_uri(file, dir).last() != '/',
{
    let is_slash = |c: char| c == '/';
    let rest = text::drop_leading(text::drop_prefixes(file, dir), is_slash);
    lemma_drop_leading(text::drop_prefixes(file, dir), is_slash);
    lemma_drop_trailing(rest, is_slash);
}

proof fn lemma_drop_leading(s: Seq<char>, p: spec_fn(char) -> bool)
    ensures
        text::drop_leading(s, p).len() > 0 ==> !p(text::drop_leading(s, p)[0]),
    decreases s.len(),
{
    if s.len() > 0 && p(s[0]) {
        lemma_drop_leading(s.skip(1), p);
    }
}

proof fn lemma_drop_trailing(s: Seq<char>, p: spec_fn(char) -> bool)
    ensures
        ({
            let r = text::drop_trailing(s, p);
            &&& r.len() <= s.len()
            &&& r == s.take(r.len() as int)
            &&& r.len() > 0 ==> !p(r.last())
        }),
    decreases s.len(),
{
    if s.len() > 0 && p(s.last()) {
        lemma_drop_trailing(s.drop_last(), p);
        let r = text::drop_trailing(s, p);
        assert(r == s.take(r.len() as int));
    } else {
        assert(s.take(s.len() as int) == s);
    }
}

/// A play queue: its songs, and which of them is the current one.
pub ghost struct PlayQueue {
    pub songs: Seq<Seq<char>>,
    pub current: int,
}

impl PlayQueue {
    /// Where a song goes that is added at `position`.
    pub open spec fn index_of(self, position: Option<QueuePosition>) -> int {
        match position {
            None => self.songs.len() as int,
            Some(QueuePosition::Absolute(k)) => k as int,
            Some(QueuePosition::RelativeAdd(n)) => self.current + 1 + n,
            Some(QueuePosition::RelativeSub(n)) => self.current - n,
        }
    }

    /// The queue after one song was added at `position`.
    pub open spec fn with(self, uri: Seq<char>, position: Option<QueuePosition>) -> PlayQueue {
        let at = self.index_of(position);
        PlayQueue {
            songs: self.songs.insert(at, uri),
            current: if at <= self.current {
                self.current + 1
            } else {
                self.current
            },
        }
    }

    /// The queue after songs were added one after the other.
    pub open spec fn with_all(
        self,
        uris: Seq<Seq<char>>,
        position: Option<QueuePosition>,
    ) -> PlayQueue
        decreases uris.len(),
    {
        if uris.len() == 0 {
            self
        } else {
            self.with_all(uris.drop_last(), position).with(uris.last(), position)
        }
    }
}

/// Songs that are added one by one, in insertion order and all at the same
/// position, come to stand in the queue side by side, at that position and in
/// the order in which they were given.
pub proof fn law_added_songs_keep_their_order(
    queue: PlayQueue,
    uris: Seq<Seq<char>>,
    position: Option<QueuePosition>,
)
    requires
        0 <= queue.index_of(position) <= queue.songs.len(),
    ensures
        queue.with_all(run::insertion_order(uris, position), position).songs == queue.songs.take(
            queue.index_of(position),
        ) + uris + queue.songs.skip(queue.index_of(position)),
{
    match position {
        Some(QueuePosition::Absolute(_)) | Some(QueuePosition::RelativeAdd(_)) => {
            lemma_backwards(queue, uris, position);
        },
        _ => {
            lemma_forwards(queue, uris, position);
        },
    }
}

proof fn lemma_backwards(queue: PlayQueue, uris: Seq<Seq<char>>, position: Option<QueuePosition>)
    requires
        0 <= queue.index_of(position) <= queue.songs.len(),
        position matches Some(p) && (p is Absolute || p is RelativeAdd),
    ensures
        ({
            let at = queue.index_of(position);
            let after = queue.with_all(uris.reverse(), position);
            &&& after.songs == queue.songs.take(at) + uris + queue.songs.skip(at)
            &&& after.index_of(position) == at
        }),
    decreases uris.len(),
{
    let at = queue.index_of(position);
    if uris.len() == 0 {
        assert(uris.reverse().len() == 0);
        assert(queue.songs == queue.songs.take(at) + uris + queue.songs.skip(at));
    } else {
        lemma_backwards(queue, uris.skip(1), position);
        assert(uris.reverse().drop_last() == uris.skip(1).reverse());
        assert(uris.reverse().last() == uris[0]);
        let before = queue.with_all(uris.skip(1).reverse(), position);
        assert(before.songs.insert(at, uris[0]) == queue.songs.take(at) + uris + queue.songs.skip(
            at,
        ));
    }
}

proof fn lemma_forwards(queue: PlayQueue, uris: Seq<Seq<char>>, position: Option<QueuePosition>)
    requires
        0 <= queue.index_of(position) <= queue.songs.len(),
        position matches Some(p) ==> p is RelativeSub,
    ensures
        ({
            let at = queue.index_of(position);
            let after = queue.with_all(uris, position);
            &&& after.songs == queue.songs.take(at) + uris + queue.songs.skip(at)
            &&& after.index_of(position) == at + uris.len()
        }),
    decreases uris.len(),
{
    let at = queue.index_of(position);
    if uris.len() == 0 {
        assert(queue.songs == queue.songs.take(at) + uris + queue.songs.skip(at));
    } else {
        lemma_forwards(queue, uris.drop_last(), position);
        let before = queue.with_all(uris.drop_last(), position);
        assert(before.songs.insert(at + uris.len() - 1, uris.last()) == queue.songs.take(at) + uris
            + queue.songs.skip(at));
    }
}

} // verus!
