//! What holds of the Spotify player whatever it is asked to do.

use crate::mpd::types::{SingleOrRange, SongView, State, Status, ValueChange};
use crate::spotify::catalog::Track;
use crate::spotify::client;
use crate::spotify::client::{ClientView, CommandView, PlayerNotice};
use crate::spotify::uri;
use vstd::prelude::*;

verus! {

/// Something that the player is asked to do, or hears of.
pub ghost enum Request {
    Play { pos: Option<usize> },
    Pause,
    Unpause,
    Toggle,
    Stop,
    Next,
    Prev,
    PlayPos { pos: usize },
    PlayId { id: u32 },
    Seek { value: ValueChange },
    Add { track: Track, file: Seq<char> },
    Clear,
    Volume { value: ValueChange },
    DeleteId { id: u32 },
    DeleteRange { songs: SingleOrRange },
    Notice { notice: PlayerNotice },
}

/// The player afterwards.
pub open spec fn after(before: ClientView, request: Request) -> ClientView {
    match request {
        Request::Play { pos } => match pos {
            Some(pos) => before.played_pos(pos as int).0,
            None => before.resumed(),
        },
        Request::Pause => before.paused(),
        Request::Unpause => before.resumed(),
        Request::Toggle => before.toggled(),
        Request::Stop => before.stopped(),
        Request::Next => before.advanced().0,
        Request::Prev => before.rewound().0,
        Request::PlayPos { pos } => before.played_pos(pos as int).0,
        Request::PlayId { id } => before.played_id(id).0,
        Request::Seek { value } => before.sought(value),
        Request::Add { track, file } => before.added(track, file),
        Request::Clear => before.cleared(),
        Request::Volume { value } => before.with_volume(value),
        Request::DeleteId { id } => before.without_id(id),
        Request::DeleteRange { songs } => before.without_range(songs),
        Request::Notice { notice } => before.noticed(notice),
    }
}

/// A new song has the name of a track, and there is room and an id left for it.
pub open spec fn has_room(before: ClientView, request: Request) -> bool {
    request matches Request::Add { file, .. } ==> before.next_id < u32::MAX && before.queue.len()
        < usize::MAX && uri::track_id_of(file) is Some
}

proof fn lemma_position_of(queue: Seq<SongView>, id: u32)
    ensures
        match client::position_of(queue, id) {
            Some(i) => {
                &&& 0 <= i < queue.len()
                &&& queue[i].id == id
                &&& forall|j: int| 0 <= j < i ==> (#[trigger] queue[j]).id != id
            },
            None => forall|j: int| 0 <= j < queue.len() ==> (#[trigger] queue[j]).id != id,
        },
    decreases queue.len(),
{
    if queue.len() > 0 {
        lemma_position_of(queue.drop_last(), id);
        assert forall|j: int| 0 <= j < queue.len() - 1 implies queue.drop_last()[j]
            == #[trigger] queue[j] by {}
    }
}

/// Whatever the player is asked to do, its volume stays in range, and the ids of
/// its songs keep rising along the queue; none of them is given out twice.
#[verifier::rlimit(60)]
pub proof fn law_player_stays_well_formed(before: ClientView, request: Request)
    requires
        before.well_formed(),
        has_room(before, request),
    ensures
        after(before, request).well_formed(),
        after(before, request).next_id >= before.next_id,
{
    match request {
        Request::DeleteId { id } => {
            lemma_without_id(before, id);
        },
        Request::PlayId { id } => {
            lemma_position_of(before.queue, id);
        },
        Request::DeleteRange { songs } => {
            lemma_without_range(before, songs);
        },
        _ => {},
    }
}

proof fn lemma_without_id(before: ClientView, id: u32)
    requires
        before.well_formed(),
    ensures
        before.without_id(id).well_formed(),
        before.without_id(id).next_id == before.next_id,
{
    lemma_position_of(before.queue, id);
    match client::position_of(before.queue, id) {
        Some(p) => {
            let queue = before.queue.remove(p);
            assert(before.without_id(id).queue == queue);
            assert forall|i: int, j: int| 0 <= i < j < queue.len() implies #[trigger] queue[i].id
                < #[trigger] queue[j].id by {
                let i0 = if i < p {
                    i
                } else {
                    i + 1
                };
                let j0 = if j < p {
                    j
                } else {
                    j + 1
                };
                assert(before.queue[i0].id < before.queue[j0].id);
            }
        },
        None => {},
    }
}

proof fn lemma_without_range(before: ClientView, songs: SingleOrRange)
    requires
        before.well_formed(),
    ensures
        before.without_range(songs).well_formed(),
        before.without_range(songs).next_id == before.next_id,
{
    let queue = before.without_range(songs).queue;
    let gone = before.queue.len() - queue.len();
    assert forall|i: int, j: int| 0 <= i < j < queue.len() implies #[trigger] queue[i].id
        < #[trigger] queue[j].id by {
        let i0 = if i < songs.start {
            i
        } else {
            i + gone
        };
        let j0 = if j < songs.start {
            j
        } else {
            j + gone
        };
        assert(before.queue[i0].id < before.queue[j0].id);
    }
}

/// The current position stays one of the queue, whatever the player is asked
/// to do, other than to delete a range of songs.
#[verifier::rlimit(60)]
pub proof fn law_position_stays_valid(before: ClientView, request: Request)
    requires
        before.well_formed(),
        before.position_is_valid(),
        has_room(before, request),
        request !is DeleteRange,
    ensures
        after(before, request).position_is_valid(),
{
    match request {
        Request::DeleteId { id } => {
            lemma_position_of(before.queue, id);
        },
        Request::PlayId { id } => {
            lemma_position_of(before.queue, id);
        },
        _ => {},
    }
}

/// No request but a new song gives out an id, and no request changes a song
/// that is in the queue: what is there afterwards was there before, or is new.
#[verifier::rlimit(60)]
pub proof fn law_songs_do_not_change(before: ClientView, request: Request, i: int)
    requires
        before.well_formed(),
        has_room(before, request),
        0 <= i < after(before, request).queue.len(),
    ensures
        before.queue.contains(after(before, request).queue[i]) || request is Add && i
            == before.queue.len() && after(before, request).queue[i].id == before.next_id,
{
    let song = after(before, request).queue[i];
    match request {
        Request::DeleteId { id } => {
            lemma_position_of(before.queue, id);
            match client::position_of(before.queue, id) {
                Some(p) => {
                    if i < p {
                        assert(song == before.queue[i]);
                    } else {
                        assert(song == before.queue[i + 1]);
                    }
                },
                None => {
                    assert(song == before.queue[i]);
                },
            }
        },
        Request::DeleteRange { songs } => {
            if after(before, request).queue.len() == before.queue.len() {
                assert(song == before.queue[i]);
            } else if i < songs.start {
                assert(song == before.queue[i]);
            } else {
                let gone = before.queue.len() - after(before, request).queue.len();
                assert(song == before.queue[i + gone]);
            }
        },
        Request::Add { .. } => {
            if i < before.queue.len() {
                assert(song == before.queue[i]);
            }
        },
        Request::Clear => {},
        _ => {
            assert(song == before.queue[i]);
        },
    }
}

/// Deleting another song than the current one leaves the current song as it
/// is; deleting the current one stops the playback and leaves none.
#[verifier::rlimit(60)]
pub proof fn law_deleting_keeps_the_current_song(before: ClientView, id: u32)
    requires
        before.well_formed(),
        before.position_is_valid(),
    ensures
        match before.current_song() {
            Some(song) => if song.id == id {
                &&& before.without_id(id).current_song() is None
                &&& before.without_id(id).commands == before.commands.push(CommandView::Stop)
            } else {
                &&& before.without_id(id).current_song() == Some(song)
                &&& before.without_id(id).commands == before.commands
            },
            None => before.without_id(id).current_song() is None,
        },
{
    lemma_position_of(before.queue, id);
}

/// A song that was deleted by its id is not found again.
pub proof fn law_deleted_song_is_gone(before: ClientView, id: u32)
    requires
        before.well_formed(),
    ensures
        client::position_of(before.without_id(id).queue, id) is None,
        client::position_of(before.queue, id) is Some ==> before.without_id(id).queue.len()
            == before.queue.len() - 1,
{
    lemma_position_of(before.queue, id);
    lemma_position_of(before.without_id(id).queue, id);
    let queue = before.without_id(id).queue;
    match client::position_of(queue, id) {
        Some(i) => {
            match client::position_of(before.queue, id) {
                Some(p) => {
                    if i < p {
                        assert(before.queue[i].id == id);
                    } else {
                        assert(before.queue[i + 1].id == id);
                    }
                },
                None => {
                    assert(before.queue[i].id == id);
                },
            }
        },
        None => {},
    }
}

/// The song that is added last is found under its id, at the end of the queue.
pub proof fn law_added_song_is_found(before: ClientView, track: Track, file: Seq<char>)
    requires
        before.well_formed(),
        before.next_id < u32::MAX,
    ensures
        client::position_of(before.added(track, file).queue, before.next_id) == Some(
            before.queue.len() as int,
        ),
{
    let queue = before.added(track, file).queue;
    lemma_position_of(queue, before.next_id);
    assert(queue.last().id == before.next_id);
    match client::position_of(queue, before.next_id) {
        Some(i) => {
            if i < before.queue.len() {
                assert(before.queue[i].id == before.next_id);
            }
        },
        None => {
            assert(queue[queue.len() - 1].id != before.next_id);
        },
    }
}

/// Toggling twice leads back to where the player was, unless it was stopped:
/// then it is paused.
pub proof fn law_toggle_twice(before: ClientView)
    ensures
        before.toggled().toggled().state == if before.state == State::Play {
            State::Play
        } else {
            State::Pause
        },
        before.toggled().state != before.toggled().toggled().state,
{
}

/// Going to the next song and back leads to the song where the player was, if
/// the names of both can be loaded.
pub proof fn law_next_then_prev(before: ClientView)
    requires
        before.well_formed(),
        before.current_pos matches Some(p) && p + 1 < before.queue.len() && uri::is_loadable(
            before.queue[p as int].file,
        ) && uri::is_loadable(before.queue[p + 1].file),
    ensures
        before.advanced().1 is Ok,
        before.advanced().0.current_pos == Some((before.current_pos->0 + 1) as usize),
        before.advanced().0.rewound().1 is Ok,
        before.advanced().0.rewound().0.current_pos == before.current_pos,
        before.advanced().0.rewound().0.queue == before.queue,
{
}

/// At either end of the queue there is nothing to go to, and nothing happens.
pub proof fn law_ends_of_the_queue(before: ClientView)
    requires
        before.position_is_valid(),
    ensures
        before.current_pos is None ==> before.advanced() == (
            before,
            Ok::<(), client::SpotifyError>(()),
        ) && before.rewound() == (before, Ok::<(), client::SpotifyError>(())),
        before.current_pos == Some(0usize) ==> before.rewound() == (
            before,
            Ok::<(), client::SpotifyError>(()),
        ),
        before.current_pos matches Some(p) && p + 1 == before.queue.len() ==> before.advanced() == (
            before,
            Ok::<(), client::SpotifyError>(()),
        ),
{
}

/// A volume in range is reported as it was set; a louder one as the loudest.
pub proof fn law_volume_reads_back(before: ClientView, v: u32, base: Status)
    ensures
        before.with_volume(ValueChange::SetTo(v)).status(base).volume == if v <= 100 {
            v
        } else {
            100
        },
        before.volume <= 100 && v <= 100 - before.volume ==> before.with_volume(
            ValueChange::Increase(v),
        ).with_volume(ValueChange::Decrease(v)).volume == before.volume,
{
}

/// A song of the queue can be played exactly if its name is written with colons
/// and holds a complete id, and then it is the current song.
#[verifier::rlimit(60)]
pub proof fn law_what_can_be_played(before: ClientView, pos: int)
    requires
        before.well_formed(),
        0 <= pos < before.queue.len(),
    ensures
        before.played_pos(pos).1 is Ok <==> exists|id: Seq<char>|
            uri::is_complete_id(id) && before.queue[pos].file == #[trigger] uri::track_uri_of(id),
        before.played_pos(pos).1 is Ok ==> before.played_pos(pos).0.current_song() == Some(
            before.queue[pos],
        ),
{
    reveal(uri::loads);
    reveal(uri::track_id_of);
    reveal_strlit("spotify:track:");
    let colon = "spotify:track:"@;
    let file = before.queue[pos].file;
    if uri::names_track(file, colon) {
        let id = file.skip(colon.len() as int);
        assert(file == uri::track_uri_of(id));
    }
    if exists|id: Seq<char>|
        uri::is_complete_id(id) && file == #[trigger] uri::track_uri_of(id) {
        let id = choose|id: Seq<char>|
            uri::is_complete_id(id) && file == #[trigger] uri::track_uri_of(id);
        assert((colon + id).take(colon.len() as int) == colon);
        assert((colon + id).skip(colon.len() as int) == id);
    }
}

/// A request that fails changes nothing.
pub proof fn law_failure_changes_nothing(before: ClientView, pos: int, id: u32)
    ensures
        before.played_pos(pos).1 is Err ==> before.played_pos(pos).0 == before,
        before.played_id(id).1 is Err ==> before.played_id(id).0 == before,
        before.advanced().1 is Err ==> before.advanced().0 == before,
        before.rewound().1 is Err ==> before.rewound().0 == before,
{
}

/// The status names the id of the current song, and its position.
pub proof fn law_status_names_the_current_song(before: ClientView, base: Status)
    requires
        before.position_is_valid(),
    ensures
        before.status(base).song is Some <==> before.status(base).songid is Some,
        before.status(base).song matches Some(p) ==> before.status(base).songid == Some(
            before.queue[p as int].id,
        ),
{
}

} // verus!
