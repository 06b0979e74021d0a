//! What adding files does to the queue, from the first call to the last.

use crate::command::{CliConfig, Command, Plan};
use crate::mpd::types::{Decoder, QueuePosition};
use crate::path;
use crate::run::{Action, PlayerCall, Reply, Run};
use crate::run;
use crate::run_laws;
use crate::run_laws::PlayQueue;
use crate::text;
use vstd::prelude::*;

verus! {

/// What comes back of an action that succeeds, from a player with the music
/// directory `dir` and these decoders.
pub open spec fn answered(action: Action, dir: String, decoders: Vec<Decoder>) -> Reply {
    match action {
        Action::Call(PlayerCall::GetConfig) => Reply::MusicDirectory(Some(dir)),
        Action::Call(PlayerCall::Decoders) => Reply::Decoders(decoders),
        _ => Reply::Done,
    }
}

/// The queue after an action that succeeds.
pub open spec fn queue_after(queue: PlayQueue, action: Action) -> PlayQueue {
    match action {
        Action::Call(PlayerCall::Add { uri, position }) => queue.with(uri@, position),
        _ => queue,
    }
}

/// A run from its first action to its last, with the queue before each of them.
pub ghost struct Course {
    pub dir: String,
    pub decoders: Vec<Decoder>,
    pub runs: Seq<Run>,
    pub actions: Seq<Action>,
    pub queues: Seq<PlayQueue>,
}

impl Course {
    /// The run is not over at action `i`, and the answer to it leads to the next one.
    pub open spec fn goes_on_at(self, i: int) -> bool {
        let reply = answered(self.actions[i], self.dir, self.decoders);
        &&& self.runs[i] !is Over
        &&& self.runs[i].goes(reply, self.runs[i + 1], self.actions[i + 1])
        &&& self.queues[i + 1] == queue_after(self.queues[i], self.actions[i])
    }

    /// The run of `command`, whole: it begins as the command does, every action
    /// succeeds, and the last one ends it.
    pub open spec fn is_run_of(self, command: Command, config: CliConfig) -> bool {
        &&& self.runs.len() > 0
        &&& self.actions.len() == self.runs.len()
        &&& self.queues.len() == self.runs.len()
        &&& command.plans(config, Plan::Start { run: self.runs[0], action: self.actions[0] })
        &&& forall|i: int| 0 <= i < self.runs.len() - 1 ==> #[trigger] self.goes_on_at(i)
        &&& run_laws::is_final(self.actions.last())
    }
}

/// One of the decoders plays files with the extension of `file`; the root directory
/// counts as well.
pub open spec fn playable(file: Seq<char>, decoders: Seq<Decoder>) -> bool {
    file == seq!['/'] || exists|i: int, j: int|
        0 <= i < decoders.len() && 0 <= j < decoders[i].suffixes@.len() && path::extension_of(file)
            == Some((#[trigger] decoders[i].suffixes@[j])@)
}

/// Where all songs have come to stand side by side, in order, at `position`, and all
/// that was in the queue before is still there.
pub open spec fn stand_at(
    before: PlayQueue,
    after: PlayQueue,
    uris: Seq<Seq<char>>,
    position: Option<QueuePosition>,
) -> bool {
    let at = before.index_of(position);
    after.songs == before.songs.take(at) + uris + before.songs.skip(at)
}

/// Every song that is added goes to `position`.
pub open spec fn all_added_at(actions: Seq<Action>, position: Option<QueuePosition>) -> bool {
    forall|i: int|
        0 <= i < actions.len() ==> ((#[trigger] actions[i]) matches Action::Call(
            PlayerCall::Add { position: p, .. },
        ) ==> p == position)
}

/// Files of which one is given by an absolute path are added under their names below
/// the music directory, those that can be played, or all where that does not matter:
/// side by side, in the given order, at the place that was asked for.
#[verifier::rlimit(60)]
pub proof fn law_absolute_files_are_added(
    course: Course,
    config: CliConfig,
    files: Vec<String>,
    skip_ext_check: bool,
    position: Option<QueuePosition>,
)
    requires
        course.is_run_of(Command::Add { files, skip_ext_check, position }, config),
        exists|i: int|
            0 <= i < files@.len() && (#[trigger] files@[i])@.len() > 0 && files@[i]@[0] == '/',
        0 <= course.queues[0].index_of(position) <= course.queues[0].songs.len(),
    ensures
        course.actions.last() == Action::Finish,
        all_added_at(course.actions, position),
        ({
            let kept = if skip_ext_check {
                files@
            } else {
                files@.filter(|f: String| playable(f@, course.decoders@))
            };
            stand_at(
                course.queues[0],
                course.queues.last(),
                Seq::new(kept.len(), |i: int| run::song_uri(kept[i]@, course.dir@)),
                position,
            )
        }),
{
    let i = choose|i: int|
        0 <= i < files@.len() && (#[trigger] files@[i])@.len() > 0 && files@[i]@[0] == '/';
    assert(path::rooted(files@[i]@));
    assert(course.goes_on_at(0));
    let kept = if skip_ext_check {
        files@
    } else {
        files@.filter(|f: String| playable(f@, course.decoders@))
    };
    let names = Seq::new(kept.len(), |i: int| run::song_uri(kept[i]@, course.dir@));
    let k: int = if skip_ext_check {
        1
    } else {
        assert(course.goes_on_at(1));
        lemma_kept_are_playable(files@, course.decoders@);
        2
    };
    let uris = run::song_uris(run::insertion_order(kept, position), course.dir@);
    assert(uris == run::insertion_order(names, position));
    lemma_added(course, names, position, k);
}

/// Files that are all given by relative paths are added as they are: side by side,
/// in the given order, at the place that was asked for.
#[verifier::rlimit(60)]
pub proof fn law_relative_files_are_added(
    course: Course,
    config: CliConfig,
    files: Vec<String>,
    skip_ext_check: bool,
    position: Option<QueuePosition>,
)
    requires
        course.is_run_of(Command::Add { files, skip_ext_check, position }, config),
        forall|i: int|
            0 <= i < files@.len() ==> (#[trigger] files@[i])@.len() == 0 || files@[i]@[0] != '/',
        0 <= course.queues[0].index_of(position) <= course.queues[0].songs.len(),
    ensures
        course.actions.last() == Action::Finish,
        all_added_at(course.actions, position),
        stand_at(
            course.queues[0],
            course.queues.last(),
            Seq::new(files@.len(), |i: int| files@[i]@),
            position,
        ),
{
    let names = Seq::new(files@.len(), |i: int| files@[i]@);
    assert(text::views(run::insertion_order(files@, position)) == run::insertion_order(
        names,
        position,
    ));
    lemma_added(course, names, position, 0);
}

/// A run that begins to add `names` at action `k` has added all of them when it ends.
#[verifier::rlimit(60)]
proof fn lemma_added(
    course: Course,
    names: Seq<Seq<char>>,
    position: Option<QueuePosition>,
    k: int,
)
    requires
        course.actions.len() == course.runs.len(),
        course.queues.len() == course.runs.len(),
        forall|i: int| 0 <= i < course.runs.len() - 1 ==> #[trigger] course.goes_on_at(i),
        run_laws::is_final(course.actions.last()),
        0 <= k < course.runs.len(),
        forall|i: int|
            0 <= i < k ==> (#[trigger] course.actions[i] matches Action::Call(c) && c !is Add),
        course.queues[k] == course.queues[0],
        run::begins_adding(
            run::insertion_order(names, position),
            position,
            course.runs[k],
            course.actions[k],
        ),
        0 <= course.queues[0].index_of(position) <= course.queues[0].songs.len(),
    ensures
        course.actions.last() == Action::Finish,
        all_added_at(course.actions, position),
        stand_at(course.queues[0], course.queues.last(), names, position),
{
    let uris = run::insertion_order(names, position);
    let n = uris.len() as int;
    lemma_adding(course, uris, position, k, n);
    assert(uris.skip(n).len() == 0);
    if k + n < course.runs.len() - 1 {
        assert(course.goes_on_at(k + n));
    }
    assert(uris.take(n) == uris);
    run_laws::law_added_songs_keep_their_order(course.queues[0], names, position);
    assert forall|i: int| 0 <= i < course.actions.len() implies ((
    #[trigger] course.actions[i]) matches Action::Call(PlayerCall::Add { position: p, .. }) ==> p
        == position) by {
        if i >= k {
            lemma_adding(course, uris, position, k, i - k);
        }
    }
}

#[verifier::rlimit(60)]
proof fn lemma_adding(
    course: Course,
    uris: Seq<Seq<char>>,
    position: Option<QueuePosition>,
    k: int,
    j: int,
)
    requires
        course.actions.len() == course.runs.len(),
        course.queues.len() == course.runs.len(),
        forall|i: int| 0 <= i < course.runs.len() - 1 ==> #[trigger] course.goes_on_at(i),
        run_laws::is_final(course.actions.last()),
        0 <= k < course.runs.len(),
        run::begins_adding(uris, position, course.runs[k], course.actions[k]),
        0 <= j <= uris.len(),
    ensures
        k + j < course.runs.len(),
        run::begins_adding(uris.skip(j), position, course.runs[k + j], course.actions[k + j]),
        course.queues[k + j] == course.queues[k].with_all(uris.take(j), position),
    decreases j,
{
    if j == 0 {
        assert(uris.skip(0) == uris);
    } else {
        let i = k + j - 1;
        lemma_adding(course, uris, position, k, j - 1);
        assert(uris.skip(j - 1)[0] == uris[j - 1]);
        assert(course.actions[i] is Call);
        assert(course.goes_on_at(i));
        lemma_one_more(
            uris.skip(j - 1),
            position,
            course.runs[i],
            course.actions[i],
            course.runs[i + 1],
            course.actions[i + 1],
        );
        assert(uris.skip(j - 1).skip(1) == uris.skip(j));
        assert(uris.take(j).drop_last() == uris.take(j - 1));
    }
}

#[verifier::rlimit(60)]
proof fn lemma_one_more(
    uris: Seq<Seq<char>>,
    position: Option<QueuePosition>,
    before: Run,
    asked: Action,
    after: Run,
    action: Action,
)
    requires
        uris.len() > 0,
        run::begins_adding(uris, position, before, asked),
        before.steps(Reply::Done, after, action),
    ensures
        run::begins_adding(uris.skip(1), position, after, action),
{
    let rest = before->Calls_rest@;
    let more = uris.skip(1);
    if rest.len() > 0 {
        assert(run::is_add(rest[0], more[0], position));
        assert forall|i: int| 0 <= i < rest.len() - 1 implies run::is_add(
            #[trigger] rest.skip(1)[i],
            more.skip(1)[i],
            position,
        ) by {
            assert(run::is_add(rest[i + 1], more[i + 1], position));
        }
    }
}

proof fn lemma_kept_are_playable(files: Seq<String>, decoders: Seq<Decoder>)
    ensures
        run::supported_files(files, run::all_suffixes(decoders)) == files.filter(
            |f: String| playable(f@, decoders),
        ),
    decreases files.len(),
{
    reveal(Seq::filter);
    if files.len() > 0 {
        lemma_kept_are_playable(files.drop_last(), decoders);
        law_supported_means_playable(files.last()@, decoders);
    }
}

/// A file is supported exactly if one of the decoders plays it.
pub proof fn law_supported_means_playable(file: Seq<char>, decoders: Seq<Decoder>)
    ensures
        run::supported(file, run::all_suffixes(decoders)) <==> playable(file, decoders),
{
    match path::extension_of(file) {
        Some(e) => {
            lemma_suffix_is_listed(e, decoders);
        },
        None => {},
    }
}

spec fn has_suffix(e: Seq<char>, decoders: Seq<Decoder>) -> bool {
    exists|i: int, j: int|
        0 <= i < decoders.len() && 0 <= j < decoders[i].suffixes@.len() && e == (
        #[trigger] decoders[i].suffixes@[j])@
}

proof fn lemma_suffix_is_listed(e: Seq<char>, decoders: Seq<Decoder>)
    ensures
        run::all_suffixes(decoders).contains(e) <==> has_suffix(e, decoders),
    decreases decoders.len(),
{
    if decoders.len() > 0 {
        let init = decoders.drop_last();
        let last = decoders.last();
        lemma_suffix_is_listed(e, init);
        let old = run::all_suffixes(init);
        let new = text::views(last.suffixes@);
        let all = run::all_suffixes(decoders);
        if all.contains(e) {
            let n = choose|n: int| 0 <= n < all.len() && all[n] == e;
            if n < old.len() {
                assert(old[n] == e);
                let (i, j) = choose|i: int, j: int|
                    0 <= i < init.len() && 0 <= j < init[i].suffixes@.len() && e == (
                    #[trigger] init[i].suffixes@[j])@;
                assert(e == decoders[i].suffixes@[j]@);
            } else {
                let j = n - old.len();
                assert(e == decoders[decoders.len() - 1].suffixes@[j]@);
            }
        }
        if has_suffix(e, decoders) {
            let (i, j) = choose|i: int, j: int|
                0 <= i < decoders.len() && 0 <= j < decoders[i].suffixes@.len() && e == (
                #[trigger] decoders[i].suffixes@[j])@;
            if i < init.len() {
                assert(e == init[i].suffixes@[j]@);
                let n = choose|n: int| 0 <= n < old.len() && old[n] == e;
                assert(all[n] == e);
            } else {
                assert(all[old.len() + j] == e);
            }
        }
    }
}

} // verus!
