//! What an MPD session, its versions and its longer requests come to.

use crate::mpd::client;
use crate::mpd::client::{
    Answer, Client, HandshakeError, ListCommand, PartitionStep, SessionStep, ToggleStep,
};
use crate::mpd::types::{Output, PartitionedOutputKind, Version};
use vstd::prelude::*;

verus! {

/// Of two versions that are not the same, one comes before the other, and not the
/// other way round; and what comes before an earlier one comes before a later one.
pub proof fn law_versions_are_ordered(a: Version, b: Version, c: Version)
    ensures
        !a.before(a),
        a != b <==> a.before(b) || b.before(a),
        !(a.before(b) && b.before(a)),
        a.before(b) && b.before(c) ==> a.before(c),
{
}

/// The major number counts most, then the minor number, then the patch number, and
/// the smaller number comes first.
pub proof fn law_version_numbers_count(a: Version, b: Version)
    ensures
        a.major < b.major ==> a.before(b),
        a.major == b.major && a.minor < b.minor ==> a.before(b),
        a.major == b.major && a.minor == b.minor ==> (a.before(b) <==> a.patch < b.patch),
{
}

/// Servers are supported from version 0.23.5 on.
pub proof fn law_supported_versions(v: Version)
    ensures
        v.major > 0 ==> !v.before(client::min_supported()),
        v.minor > 23 ==> !v.before(client::min_supported()),
        v.major == 0 && v.minor == 23 ==> (v.before(client::min_supported()) <==> v.patch < 5),
        v.major == 0 && v.minor < 23 ==> v.before(client::min_supported()),
{
}

/// A greeting tells the version behind `OK MPD`. A line that does not begin with `OK`
/// is no greeting, and any other one tells no version; the error quotes the line.
pub proof fn law_a_greeting_tells_the_version(
    line: Seq<char>,
    version: Seq<char>,
    r: Result<String, HandshakeError>,
)
    requires
        client::greeting_tells(line, r),
    ensures
        line == "OK MPD "@ + version ==> (r matches Ok(v) && v@ == version),
        r matches Ok(v) ==> line == "OK MPD "@ + v@,
        line.len() < 2 || line[0] != 'O' || line[1] != 'K' ==> (r matches Err(e) && e.text()
            == "Handshake validation failed. '"@ + line + "'"@),
        line.len() >= 2 && line[0] == 'O' && line[1] == 'K' && r is Err ==> (r matches Err(e)
            && e.text() == "Handshake validation failed. Cannot parse version from '"@ + line
            + "'"@),
{
    reveal_strlit("OK");
    reveal_strlit("OK MPD ");
    let ok = "OK"@;
    let prefix = "OK MPD "@;
    if line == prefix + version {
        assert(line.take(prefix.len() as int) =~= prefix);
        assert(line.skip(prefix.len() as int) =~= version);
        assert(line[0] == 'O' && line[1] == 'K');
        assert(line.take(ok.len() as int) =~= ok);
    }
    if prefix.is_prefix_of(line) {
        assert(line =~= prefix + line.skip(prefix.len() as int));
        assert(prefix[0] == 'O' && prefix[1] == 'K');
    }
    if ok.is_prefix_of(line) {
        assert(line.take(ok.len() as int)[0] == ok[0]);
        assert(line.take(ok.len() as int)[1] == ok[1]);
    } else if line.len() >= 2 && line[0] == 'O' && line[1] == 'K' {
        assert(line.take(ok.len() as int) =~= ok);
    }
}

/// What a client sends at the start of a session, in order, when all goes well.
pub open spec fn opening(c: Client, new: bool) -> Seq<SessionStep> {
    let password: Seq<SessionStep> = match c.password {
        Some(password) => seq![SessionStep::SendPassword { password }],
        None => Seq::empty(),
    };
    let partition: Seq<SessionStep> = match c.partition {
        Some(name) => seq![SessionStep::Partition(PartitionStep::Switch { name })],
        None => Seq::empty(),
    };
    let rest: Seq<SessionStep> = if new {
        seq![SessionStep::SetBinaryLimit { bytes: 262144 }, SessionStep::ListCommands]
    } else {
        seq![SessionStep::ListCommands, SessionStep::SetBinaryLimit { bytes: 5242880 }]
    };
    password + partition + rest
}

/// A session in which the server does all that it is asked to begins with the
/// password, goes on to the partition, sets the limit for binary data and asks for
/// the commands; then it is ready. After a reconnect the last two change places.
pub proof fn law_a_session_opens_in_order(c: Client, new: bool, i: int)
    requires
        0 <= i < opening(c, new).len(),
    ensures
        c.first_step(new) == opening(c, new)[0],
        c.step_after(opening(c, new)[i], Answer::Done, new) == if i + 1 < opening(c, new).len() {
            opening(c, new)[i + 1]
        } else {
            SessionStep::Ready
        },
{
}

/// Whatever the server refuses ends the session, but for a partition that does not
/// exist and may be created: it is created, and switched to, and the session goes on
/// as if it had been there.
pub proof fn law_refusals_end_a_session(c: Client, new: bool, i: int, answer: Answer, name: String)
    requires
        0 <= i < opening(c, new).len(),
        answer != Answer::Done,
    ensures
        opening(c, new)[i] !is Partition || answer == Answer::Failed || !c.autocreate_partition
            ==> c.step_after(opening(c, new)[i], answer, new) == SessionStep::Refused,
        opening(c, new)[i] == SessionStep::Partition(PartitionStep::Switch { name })
            && c.autocreate_partition ==> {
            let create = c.step_after(opening(c, new)[i], Answer::NoExist, new);
            let switch = c.step_after(create, Answer::Done, new);
            &&& create == SessionStep::Partition(PartitionStep::Create { name })
            &&& c.step_after(create, answer, new) == SessionStep::Refused
            &&& switch == SessionStep::Partition(PartitionStep::SwitchCreated { name })
            &&& c.step_after(switch, answer, new) == SessionStep::Refused
            &&& c.step_after(switch, Answer::Done, new) == c.step_after(
                opening(c, new)[i],
                Answer::Done,
                new,
            )
        },
{
}

/// One of `list` has the text `s`.
pub open spec fn occurs(s: Seq<char>, list: Seq<String>) -> bool {
    exists|i: int| 0 <= i < list.len() && (#[trigger] list[i])@ == s
}

/// The commands that a server takes are kept, every one of them, no other, and none
/// twice.
pub proof fn law_commands_are_kept_once(set: Seq<String>, list: Seq<String>)
    requires
        client::is_set_of(set, list),
    ensures
        forall|i: int| 0 <= i < list.len() ==> occurs((#[trigger] list[i])@, set),
        forall|i: int| 0 <= i < set.len() ==> occurs((#[trigger] set[i])@, list),
        forall|i: int, j: int| 0 <= i < j < set.len() ==> #[trigger] set[i]@ != #[trigger] set[j]@,
{
    assert forall|i: int| 0 <= i < list.len() implies occurs((#[trigger] list[i])@, set) by {
        assert(client::holds(list, list[i]@));
        assert(client::holds(set, list[i]@));
    }
    assert forall|i: int| 0 <= i < set.len() implies occurs((#[trigger] set[i])@, list) by {
        assert(client::holds(set, set[i]@));
        assert(client::holds(list, set[i]@));
    }
}

/// A queue after a list of commands was executed; only swaps change it.
pub open spec fn swapped<T>(queue: Seq<T>, list: Seq<ListCommand>) -> Seq<T>
    decreases list.len(),
{
    if list.len() == 0 {
        queue
    } else {
        let before = swapped(queue, list.drop_last());
        match list.last() {
            ListCommand::SwapPositions { from, to } => before.update(
                from as int,
                before[to as int],
            ).update(to as int, before[from as int]),
            _ => before,
        }
    }
}

/// The commands of a list stand between its start and its execution; the songs at
/// both positions of every pair are swapped, pair after pair.
pub proof fn law_pairs_are_swapped(swaps: Seq<(usize, usize)>)
    ensures
        ({
            let list = client::swap_commands(swaps);
            let n = swaps.len() as int;
            &&& list.len() == n + 3
            &&& list[0] is Start
            &&& list[n + 1] is Execute
            &&& list[n + 2] is ReadOk
            &&& forall|i: int|
                0 <= i < n ==> list[i + 1] == (ListCommand::SwapPositions {
                    from: (#[trigger] swaps[i]).0,
                    to: swaps[i].1,
                })
        }),
{
}

/// Swapping one pair puts the song of each position into the place of the other, and
/// swapping it again puts them back.
pub proof fn law_swapping_twice_changes_nothing<T>(queue: Seq<T>, a: usize, b: usize)
    requires
        a < queue.len(),
        b < queue.len(),
    ensures
        ({
            let after = swapped(queue, client::swap_commands(seq![(a, b)]));
            &&& after.len() == queue.len()
            &&& after[a as int] == queue[b as int]
            &&& after[b as int] == queue[a as int]
            &&& forall|i: int|
                0 <= i < queue.len() && i != a && i != b ==> #[trigger] after[i] == queue[i]
            &&& swapped(after, client::swap_commands(seq![(a, b)])) == queue
        }),
{
    let list = client::swap_commands(seq![(a, b)]);
    lemma_one_swap(queue, a, b);
    let after = swapped(queue, list);
    lemma_one_swap(after, a, b);
    assert(swapped(after, list) =~= queue);
}

proof fn lemma_one_swap<T>(queue: Seq<T>, a: usize, b: usize)
    ensures
        swapped(queue, client::swap_commands(seq![(a, b)])) == queue.update(
            a as int,
            queue[b as int],
        ).update(b as int, queue[a as int]),
{
    let list = client::swap_commands(seq![(a, b)]);
    let start = seq![ListCommand::Start];
    let swap = start.push(ListCommand::SwapPositions { from: a, to: b });
    let run = swap.push(ListCommand::Execute);
    assert(list =~= run.push(ListCommand::ReadOk));
    assert(list.drop_last() =~= run);
    assert(run.drop_last() =~= swap);
    assert(swap.drop_last() =~= start);
    assert(start.drop_last() =~= Seq::empty());
    reveal_with_fuel(swapped, 5);
    assert(list.last() is ReadOk);
    assert(run.last() is Execute);
    assert(start.last() is Start);
    assert(swapped(queue, start) == queue);
}

/// Every song is asked for, by its own name and in the given order, and all answers
/// are read as songs.
pub proof fn law_every_song_is_asked_for(uris: Seq<String>)
    ensures
        ({
            let list = client::info_commands(uris);
            let n = uris.len() as int;
            &&& list.len() == n + 3
            &&& list[0] is Start
            &&& list[n + 1] is Execute
            &&& list[n + 2] is ReadSongs
            &&& forall|i: int|
                0 <= i < n ==> (list[i + 1] matches ListCommand::LsInfo { uri } && uri@ == (
                #[trigger] uris[i])@)
        }),
{
}

/// A partition is created before it is switched to, both in one request.
pub proof fn law_a_new_partition_is_entered(list: Seq<ListCommand>, name: Seq<char>)
    requires
        client::partition_commands(list, name),
    ensures
        exists|i: int, j: int|
            0 < i < j < list.len() - 2 && (#[trigger] list[i] matches ListCommand::NewPartition {
                name: n,
            } && n@ == name) && (#[trigger] list[j] matches ListCommand::SwitchToPartition {
                name: n,
            } && n@ == name),
        list.first() is Start,
        list[list.len() - 2] is Execute,
        list.last() is ReadOk,
        list.len() == 5,
{
    assert(list[1] is NewPartition && list[2] is SwitchToPartition);
}

/// The first output with a name is found under it; where there is none, nothing is.
pub proof fn law_outputs_are_found_by_name(outputs: Seq<Output>, name: Seq<char>, at: int)
    ensures
        0 <= at < outputs.len() && outputs[at].name@ == name && (forall|i: int|
            0 <= i < at ==> (#[trigger] outputs[i]).name@ != name) ==> client::output_named(
            outputs,
            name,
        ) == Some(outputs[at]),
        (forall|i: int| 0 <= i < outputs.len() ==> (#[trigger] outputs[i]).name@ != name)
            ==> client::output_named(outputs, name) is None,
    decreases outputs.len(),
{
    if outputs.len() > 0 {
        let init = outputs.drop_last();
        law_outputs_are_found_by_name(init, name, at);
        if forall|i: int| 0 <= i < outputs.len() ==> (#[trigger] outputs[i]).name@ != name {
            assert(outputs[outputs.len() - 1].name@ != name);
            assert forall|i: int| 0 <= i < init.len() implies (#[trigger] init[i]).name@ != name by {
                assert(outputs[i].name@ != name);
            }
        }
        if 0 <= at < outputs.len() && outputs[at].name@ == name && (forall|i: int|
            0 <= i < at ==> (#[trigger] outputs[i]).name@ != name) {
            if at < init.len() {
                assert(init[at] == outputs[at]);
                assert forall|i: int| 0 <= i < at implies (#[trigger] init[i]).name@ != name by {
                    assert(outputs[i].name@ != name);
                }
            } else {
                assert forall|i: int| 0 <= i < init.len() implies (#[trigger] init[i]).name@
                    != name by {
                    assert(outputs[i].name@ != name);
                }
                law_outputs_are_found_by_name(init, name, 0);
            }
        }
    }
}

/// An output of this partition is toggled under its id, and that is all. One of
/// another partition is moved here; then it is looked for by its name, and enabled
/// under the id that it has got.
pub proof fn law_an_output_is_toggled(
    step: ToggleStep,
    kind: PartitionedOutputKind,
    name: Seq<char>,
    id: u32,
    outputs: Seq<Output>,
    at: int,
)
    requires
        step.begins(kind, name, id),
        0 <= at < outputs.len(),
        outputs[at].name@ == name,
        forall|i: int| 0 <= i < at ==> (#[trigger] outputs[i]).name@ != name,
    ensures
        kind == PartitionedOutputKind::CurrentPartition ==> step == (ToggleStep::ToggleOutput {
            id,
        }) && step.after_success() == ToggleStep::Finished,
        kind == PartitionedOutputKind::OtherPartition ==> {
            &&& step matches ToggleStep::MoveOutput { name: n } && n@ == name
            &&& step.after_success() matches ToggleStep::ListOutputs { name: n } && n@ == name
            &&& step.after_success().after_list(outputs) == (ToggleStep::EnableOutput {
                id: outputs[at].id,
            })
            &&& step.after_success().after_list(outputs).after_success() == ToggleStep::Finished
        },
{
    law_outputs_are_found_by_name(outputs, name, at);
}

/// An output that is not there after it was moved is left alone.
pub proof fn law_a_missing_output_is_left_alone(name: String, outputs: Seq<Output>)
    requires
        forall|i: int| 0 <= i < outputs.len() ==> (#[trigger] outputs[i]).name@ != name@,
    ensures
        (ToggleStep::ListOutputs { name }).after_list(outputs) == ToggleStep::Finished,
{
    law_outputs_are_found_by_name(outputs, name@, 0);
}

/// There is a song for every file, in order; nothing but the file is known of it.
pub proof fn law_listed_files_are_songs(files: Seq<String>)
    ensures
        client::bare_songs(files).len() == files.len(),
        forall|i: int|
            0 <= i < files.len() ==> {
                let song = client::bare_songs(files)[i];
                &&& song.file == (#[trigger] files[i])@
                &&& song.duration_ms is None
                &&& song.metadata.len() == 0
                &&& song.id == 0
            },
{
}

} // verus!
