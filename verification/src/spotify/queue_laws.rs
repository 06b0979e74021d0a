//! What editing the Spotify queue comes to, song by song.

use crate::mpd::types::{MetadataView, SingleOrRange, SongView, State};
use crate::spotify::catalog;
use crate::spotify::catalog::Track;
use crate::spotify::client::{ClientView, CommandView};
use crate::text;
use vstd::prelude::*;

verus! {

/// `a` and `b` differ in their queues at most.
pub open spec fn same_but_queue(a: ClientView, b: ClientView) -> bool {
    &&& a.current_pos == b.current_pos
    &&& a.volume == b.volume
    &&& a.next_id == b.next_id
    &&& a.state == b.state
    &&& a.elapsed_ms == b.elapsed_ms
    &&& a.duration_ms == b.duration_ms
    &&& a.commands == b.commands
}

/// Deleting a range with an end takes out exactly the songs at the positions from
/// the start up to but without the end. All others stay, in order: what stood at
/// the end of the range stands at its start afterwards.
pub proof fn law_a_range_is_deleted(before: ClientView, start: usize, end: usize)
    ensures
        ({
            let after = before.without_range(SingleOrRange { start, end: Some(end) });
            let n = before.queue.len() as int;
            &&& same_but_queue(before, after)
            &&& start < end && start < n && end <= n ==> after.queue.len() == n - (end - start)
            &&& start < end && start < n && end > n ==> after.queue.len() == start
            &&& start >= end || start >= n ==> after.queue == before.queue
            &&& forall|i: int|
                0 <= i < n && i < start ==> after.queue[i] == #[trigger] before.queue[i]
            &&& forall|i: int|
                start < end && end <= i < n ==> after.queue[i - (end - start)]
                    == #[trigger] before.queue[i]
            &&& start < end < n ==> after.queue[start as int] == before.queue[end as int]
        }),
{
}

/// Deleting a position takes out the song there, where there is one, and no other.
pub proof fn law_a_position_is_deleted(before: ClientView, start: usize)
    ensures
        ({
            let after = before.without_range(SingleOrRange { start, end: None });
            let n = before.queue.len() as int;
            &&& same_but_queue(before, after)
            &&& start < n ==> after.queue.len() == n - 1
            &&& start >= n ==> after.queue == before.queue
            &&& forall|i: int|
                0 <= i < n && i < start ==> after.queue[i] == #[trigger] before.queue[i]
            &&& forall|i: int|
                start < i < n ==> after.queue[i - 1] == #[trigger] before.queue[i]
        }),
{
}

/// A range that ends where it starts, or before, holds nothing; and two ranges
/// that lie side by side are deleted as one, the later first.
pub proof fn law_ranges_add_up(before: ClientView, a: usize, b: usize, c: usize)
    requires
        a <= b <= c,
    ensures
        before.without_range(SingleOrRange { start: b, end: Some(c) }).without_range(
            SingleOrRange { start: a, end: Some(b) },
        ).queue == before.without_range(SingleOrRange { start: a, end: Some(c) }).queue,
        before.without_range(SingleOrRange { start: b, end: Some(a) }).queue == before.queue,
{
    let whole = before.without_range(SingleOrRange { start: a, end: Some(c) }).queue;
    let later = before.without_range(SingleOrRange { start: b, end: Some(c) });
    let both = later.without_range(SingleOrRange { start: a, end: Some(b) }).queue;
    assert(both =~= whole);
}

/// Deleting a song by its id takes out that song and no other. Where it was the
/// current one, the playback stops; otherwise the current song stays current.
pub proof fn law_an_id_is_deleted(before: ClientView, at: int)
    requires
        before.well_formed(),
        0 <= at < before.queue.len(),
    ensures
        ({
            let after = before.without_id(before.queue[at].id);
            &&& after.queue.len() == before.queue.len() - 1
            &&& forall|i: int| 0 <= i < at ==> after.queue[i] == #[trigger] before.queue[i]
            &&& forall|i: int|
                at < i < before.queue.len() ==> after.queue[i - 1] == #[trigger] before.queue[i]
            &&& after.volume == before.volume
            &&& after.next_id == before.next_id
            &&& after.state == before.state
            &&& after.elapsed_ms == before.elapsed_ms
            &&& match before.current_pos {
                None => after.current_pos is None && after.commands == before.commands,
                Some(p) => if p == at {
                    after.current_pos is None && after.commands == before.commands + seq![
                        CommandView::Stop,
                    ]
                } else {
                    &&& after.commands == before.commands
                    &&& after.current_pos matches Some(q)
                    &&& q == if p < at {
                        p as int
                    } else {
                        p - 1
                    }
                },
            }
        }),
{
    lemma_id_is_at(before, at);
    let after = before.without_id(before.queue[at].id);
    if before.current_pos == Some(at as usize) {
        assert(after.commands =~= before.commands + seq![CommandView::Stop]);
    }
}

/// An id that no song has changes nothing when it is deleted.
pub proof fn law_an_unknown_id_is_not_deleted(before: ClientView, id: u32)
    requires
        forall|i: int| 0 <= i < before.queue.len() ==> (#[trigger] before.queue[i]).id != id,
    ensures
        before.without_id(id) == before,
{
    lemma_no_id(before.queue, id);
}

pub(crate) proof fn lemma_no_id(queue: Seq<SongView>, id: u32)
    requires
        forall|i: int| 0 <= i < queue.len() ==> (#[trigger] queue[i]).id != id,
    ensures
        crate::spotify::client::position_of(queue, id) is None,
    decreases queue.len(),
{
    if queue.len() > 0 {
        assert(queue[queue.len() - 1].id != id);
        assert forall|i: int| 0 <= i < queue.len() - 1 implies (
        #[trigger] queue.drop_last()[i]).id != id by {
            assert(queue[i].id != id);
        }
        lemma_no_id(queue.drop_last(), id);
    }
}

proof fn lemma_first_id(queue: Seq<SongView>, at: int)
    requires
        0 <= at < queue.len(),
        forall|i: int| 0 <= i < at ==> (#[trigger] queue[i]).id != queue[at].id,
    ensures
        crate::spotify::client::position_of(queue, queue[at].id) == Some(at),
    decreases queue.len(),
{
    if at == queue.len() - 1 {
        assert forall|i: int| 0 <= i < queue.len() - 1 implies (#[trigger] queue.drop_last()[i]).id
            != queue[at].id by {
            assert(queue[i].id != queue[at].id);
        }
        lemma_no_id(queue.drop_last(), queue[at].id);
    } else {
        assert(queue.drop_last()[at] == queue[at]);
        assert forall|i: int| 0 <= i < at implies (#[trigger] queue.drop_last()[i]).id
            != queue.drop_last()[at].id by {
            assert(queue[i].id != queue[at].id);
        }
        lemma_first_id(queue.drop_last(), at);
    }
}

pub(crate) proof fn lemma_id_is_at(before: ClientView, at: int)
    requires
        before.well_formed(),
        0 <= at < before.queue.len(),
    ensures
        crate::spotify::client::position_of(before.queue, before.queue[at].id) == Some(at),
{
    assert forall|i: int| 0 <= i < at implies (#[trigger] before.queue[i]).id
        != before.queue[at].id by {
        assert(before.queue[i].id < before.queue[at].id);
    }
    lemma_first_id(before.queue, at);
}

/// A song goes behind all others, under a new id, and nothing else changes.
pub proof fn law_a_song_goes_to_the_end(before: ClientView, track: Track, file: Seq<char>)
    requires
        before.well_formed(),
        before.next_id < u32::MAX,
    ensures
        ({
            let after = before.added(track, file);
            let n = before.queue.len() as int;
            &&& after.queue.len() == n + 1
            &&& forall|i: int| 0 <= i < n ==> after.queue[i] == #[trigger] before.queue[i]
            &&& after.queue[n].file == file
            &&& forall|i: int| 0 <= i < n ==> (#[trigger] before.queue[i]).id < after.queue[n].id
            &&& after.next_id > after.queue[n].id
            &&& after.current_pos == before.current_pos
            &&& after.volume == before.volume
            &&& after.state == before.state
            &&& after.elapsed_ms == before.elapsed_ms
            &&& after.commands == before.commands
        }),
{
}

/// Clearing leaves no song and stops the playback; ids are not given out again.
pub proof fn law_clearing_leaves_nothing(before: ClientView)
    ensures
        before.cleared().queue.len() == 0,
        before.cleared().current_pos is None,
        before.cleared().current_song() is None,
        before.cleared().next_id == before.next_id,
        before.cleared().volume == before.volume,
        before.cleared().commands == before.commands + seq![CommandView::Stop],
{
    assert(before.cleared().commands =~= before.commands + seq![CommandView::Stop]);
}

/// A new player has an empty queue, does not play, and has half its volume.
pub proof fn law_a_new_player_is_silent()
    ensures
        ClientView::fresh().queue.len() == 0,
        ClientView::fresh().current_song() is None,
        ClientView::fresh().state == State::Stop,
        ClientView::fresh().volume * 2 == 100,
        ClientView::fresh().commands.len() == 0,
        ClientView::fresh().elapsed_ms == 0,
        ClientView::fresh().well_formed(),
{
}

/// The value of a tag.
pub open spec fn has_tag(song: SongView, name: Seq<char>, value: MetadataView) -> bool {
    exists|i: int| 0 <= i < song.metadata.len() && #[trigger] song.metadata[i] == (name, value)
}

/// A song tells of its track what the Web API told: how long it is to the
/// millisecond, its title, its artists in order, and its album; and nothing else.
pub proof fn law_a_song_tells_of_its_track(track: Track, file: Seq<char>, id: u32)
    ensures
        ({
            let song = catalog::song_of(track, file, id);
            &&& song.id == id
            &&& song.file == file
            &&& track.duration_ms >= 0 ==> (song.duration_ms matches Some(d) && d as int
                == track.duration_ms as int)
            &&& track.duration_ms < 0 ==> (song.duration_ms matches Some(d) && d == 0)
            &&& has_tag(song, "title"@, MetadataView::Single(track.name@))
            &&& has_tag(song, "artist"@, MetadataView::Multiple(text::views(track.artists@)))
            &&& has_tag(song, "album"@, MetadataView::Single(track.album@))
            &&& song.metadata.len() == 3
        }),
{
    let song = catalog::song_of(track, file, id);
    assert(song.metadata[0] == ("title"@, MetadataView::Single(track.name@)));
    assert(song.metadata[1] == (
        "artist"@,
        MetadataView::Multiple(text::views(track.artists@)),
    ));
    assert(song.metadata[2] == ("album"@, MetadataView::Single(track.album@)));
}

/// So does a song that was found by a search or in a playlist. It is in no queue,
/// and its file is the name of the track.
pub proof fn law_a_listed_song_tells_of_its_track(track: Track)
    ensures
        ({
            let song = catalog::listed_song(track);
            &&& song.id == 0
            &&& track.id matches Some(id) ==> song.file == "spotify:track:"@ + id@
            &&& track.id is None ==> song.file.len() == 0
            &&& track.duration_ms >= 0 ==> (song.duration_ms matches Some(d) && d as int
                == track.duration_ms as int)
            &&& has_tag(song, "title"@, MetadataView::Single(track.name@))
            &&& has_tag(song, "artist"@, MetadataView::Multiple(text::views(track.artists@)))
            &&& has_tag(song, "album"@, MetadataView::Single(track.album@))
        }),
{
    law_a_song_tells_of_its_track(track, catalog::listed_song(track).file, 0);
}

/// So does a song that was added to the queue, which keeps the name under which
/// it was added.
pub proof fn law_a_queued_song_tells_of_its_track(
    before: ClientView,
    track: Track,
    file: Seq<char>,
)
    ensures
        ({
            let song = before.added(track, file).queue.last();
            &&& song.file == file
            &&& track.duration_ms >= 0 ==> (song.duration_ms matches Some(d) && d as int
                == track.duration_ms as int)
            &&& has_tag(song, "title"@, MetadataView::Single(track.name@))
            &&& has_tag(song, "artist"@, MetadataView::Multiple(text::views(track.artists@)))
            &&& has_tag(song, "album"@, MetadataView::Single(track.album@))
        }),
{
    law_a_song_tells_of_its_track(track, file, before.next_id);
}

} // verus!
