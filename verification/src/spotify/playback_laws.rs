//! What playing on Spotify comes to, seen from the playback library.

use crate::mpd::types::{State, Status, ValueChange};
use crate::spotify::client;
use crate::spotify::client::{ClientView, CommandView, PlayerNotice, SpotifyError};
use crate::spotify::queue_laws::lemma_id_is_at;
use crate::spotify::queue_laws::lemma_no_id;
use crate::spotify::uri;
use vstd::prelude::*;

verus! {

/// What the playback library does: whether it plays, what it has loaded, and where
/// in it it is.
pub ghost struct Playback {
    pub mode: State,
    pub loaded: Option<Seq<char>>,
    pub position_ms: int,
}

impl Playback {
    /// What it does after a command.
    pub open spec fn told(self, command: CommandView) -> Playback {
        match command {
            CommandView::Play => Playback { mode: State::Play, ..self },
            CommandView::Pause => Playback { mode: State::Pause, ..self },
            CommandView::Stop => Playback { mode: State::Stop, ..self },
            CommandView::Seek { position_ms } => Playback {
                position_ms: position_ms as int,
                ..self
            },
            CommandView::Load { uri, start_playing, position_ms } => Playback {
                mode: if start_playing {
                    State::Play
                } else {
                    State::Pause
                },
                loaded: Some(uri),
                position_ms: position_ms as int,
            },
        }
    }

    /// What it does after several commands.
    pub open spec fn told_all(self, commands: Seq<CommandView>) -> Playback
        decreases commands.len(),
    {
        if commands.len() == 0 {
            self
        } else {
            self.told_all(commands.drop_last()).told(commands.last())
        }
    }
}

/// The player has gone from `before` to `after`, and the playback library, which
/// had heard all commands before, now does `now`.
pub open spec fn hears(
    before: ClientView,
    after: ClientView,
    playback: Playback,
    now: Playback,
) -> bool {
    &&& before.commands.len() <= after.commands.len()
    &&& after.commands.take(before.commands.len() as int) == before.commands
    &&& now == playback.told_all(after.commands.skip(before.commands.len() as int))
}

/// Queue, volume and ids are as they were.
pub open spec fn keeps_songs(before: ClientView, after: ClientView) -> bool {
    &&& after.queue == before.queue
    &&& after.volume == before.volume
    &&& after.next_id == before.next_id
    &&& after.duration_ms == before.duration_ms
}

proof fn lemma_one_command(
    before: ClientView,
    after: ClientView,
    command: CommandView,
    playback: Playback,
)
    requires
        after.commands == before.commands.push(command),
    ensures
        hears(before, after, playback, playback.told(command)),
{
    let new = after.commands.skip(before.commands.len() as int);
    assert(new =~= seq![command]);
    assert(new.drop_last() =~= Seq::<CommandView>::empty());
    reveal_with_fuel(Playback::told_all, 2);
    assert(after.commands.take(before.commands.len() as int) =~= before.commands);
}

/// The player says that it plays, is paused or has stopped just when it has told
/// the playback library to do so; what is loaded and where does not change.
pub proof fn law_playback_does_as_the_player_says(before: ClientView, playback: Playback)
    ensures
        hears(
            before,
            before.resumed(),
            playback,
            Playback { mode: State::Play, ..playback },
        ),
        before.resumed().state == State::Play,
        hears(
            before,
            before.paused(),
            playback,
            Playback { mode: State::Pause, ..playback },
        ),
        before.paused().state == State::Pause,
        hears(
            before,
            before.stopped(),
            playback,
            Playback { mode: State::Stop, ..playback },
        ),
        before.stopped().state == State::Stop,
        hears(
            before,
            before.toggled(),
            playback,
            Playback { mode: before.toggled().state, ..playback },
        ),
        before.state == State::Play ==> before.toggled().state == State::Pause,
        before.state != State::Play ==> before.toggled().state == State::Play,
        forall|after: ClientView|
            after == before.resumed() || after == before.paused() || after == before.stopped()
                || after == before.toggled() ==> {
                &&& #[trigger] keeps_songs(before, after)
                &&& after.current_pos == before.current_pos
                &&& after.elapsed_ms == before.elapsed_ms
            },
{
    lemma_one_command(before, before.resumed(), CommandView::Play, playback);
    lemma_one_command(before, before.paused(), CommandView::Pause, playback);
    lemma_one_command(before, before.stopped(), CommandView::Stop, playback);
    if before.state == State::Play {
        lemma_one_command(before, before.toggled(), CommandView::Pause, playback);
    } else {
        lemma_one_command(before, before.toggled(), CommandView::Play, playback);
    }
}

/// `after` comes of playing the song at `pos` from its beginning.
pub open spec fn plays_song(before: ClientView, after: ClientView, pos: int) -> bool {
    &&& keeps_songs(before, after)
    &&& after.current_pos matches Some(p) && p == pos
    &&& after.current_song() == Some(before.queue[pos])
    &&& after.state == before.state
    &&& after.elapsed_ms == before.elapsed_ms
    &&& forall|playback: Playback| #[trigger]
        hears(before, after, playback, from_the_beginning(before.queue[pos].file))
}

/// The playback library plays `file`, from its beginning.
pub open spec fn from_the_beginning(file: Seq<char>) -> Playback {
    Playback { mode: State::Play, loaded: Some(file), position_ms: 0 }
}

proof fn lemma_started(before: ClientView, pos: int)
    requires
        before.well_formed(),
        0 <= pos < before.queue.len(),
        uri::is_loadable(before.queue[pos].file),
    ensures
        before.played_pos(pos).1 == Ok::<(), SpotifyError>(()),
        plays_song(before, before.played_pos(pos).0, pos),
{
    let after = before.played_pos(pos).0;
    assert forall|playback: Playback| #[trigger]
        hears(before, after, playback, from_the_beginning(before.queue[pos].file)) by {
        lemma_one_command(
            before,
            after,
            CommandView::Load {
                uri: before.queue[pos].file,
                start_playing: true,
                position_ms: 0,
            },
            playback,
        );
    }
}

/// Playing a position loads the song there, from its beginning, and makes it the
/// current one; a position behind the queue, or a name that cannot be loaded,
/// changes nothing.
pub proof fn law_a_position_is_played(before: ClientView, pos: int)
    requires
        before.well_formed(),
        0 <= pos,
    ensures
        pos >= before.queue.len() ==> before.played_pos(pos) == (
            before,
            Err::<(), SpotifyError>(SpotifyError::SongNotFoundAtPosition),
        ),
        pos < before.queue.len() && !uri::is_loadable(before.queue[pos].file)
            ==> before.played_pos(pos) == (
            before,
            Err::<(), SpotifyError>(SpotifyError::InvalidUri),
        ),
        pos < before.queue.len() && uri::is_loadable(before.queue[pos].file) ==> {
            &&& before.played_pos(pos).1 is Ok
            &&& plays_song(before, before.played_pos(pos).0, pos)
        },
{
    if pos < before.queue.len() && uri::is_loadable(before.queue[pos].file) {
        lemma_started(before, pos);
    }
}

/// Playing an id plays the song that has it, wherever it stands.
pub proof fn law_an_id_is_played(before: ClientView, at: int)
    requires
        before.well_formed(),
        0 <= at < before.queue.len(),
    ensures
        uri::is_loadable(before.queue[at].file) ==> {
            &&& before.played_id(before.queue[at].id).1 is Ok
            &&& plays_song(before, before.played_id(before.queue[at].id).0, at)
        },
        !uri::is_loadable(before.queue[at].file) ==> before.played_id(before.queue[at].id) == (
            before,
            Err::<(), SpotifyError>(SpotifyError::InvalidUri),
        ),
{
    lemma_id_is_at(before, at);
    if uri::is_loadable(before.queue[at].file) {
        lemma_started(before, at);
    }
}

/// An id that no song has cannot be played.
pub proof fn law_an_unknown_id_is_not_played(before: ClientView, id: u32)
    requires
        forall|i: int| 0 <= i < before.queue.len() ==> (#[trigger] before.queue[i]).id != id,
    ensures
        before.played_id(id) == (before, Err::<(), SpotifyError>(SpotifyError::SongNotFound)),
{
    lemma_no_id(before.queue, id);
}

/// The next song is the one behind the current one, and the previous one that
/// before it. Without a current song, and at the ends, nothing happens.
pub proof fn law_neighbours_are_played(before: ClientView, p: usize)
    requires
        before.well_formed(),
    ensures
        before.current_pos is None ==> before.advanced().0 == before && before.advanced().1 is Ok
            && before.rewound().0 == before && before.rewound().1 is Ok,
        before.current_pos == Some(p) && p + 1 < before.queue.len() && uri::is_loadable(
            before.queue[p + 1].file,
        ) ==> before.advanced().1 is Ok && plays_song(before, before.advanced().0, p + 1),
        before.current_pos == Some(p) && p + 1 >= before.queue.len() ==> before.advanced().0
            == before && before.advanced().1 is Ok,
        before.current_pos == Some(p) && 0 < p <= before.queue.len() && uri::is_loadable(
            before.queue[p - 1].file,
        ) ==> before.rewound().1 is Ok && plays_song(before, before.rewound().0, p - 1),
        before.current_pos == Some(p) && p == 0 ==> before.rewound().0 == before
            && before.rewound().1 is Ok,
{
    if before.current_pos == Some(p) {
        if p + 1 < before.queue.len() && uri::is_loadable(before.queue[p + 1].file) {
            lemma_started(before, p + 1);
        }
        if 0 < p <= before.queue.len() && uri::is_loadable(before.queue[p - 1].file) {
            lemma_started(before, p - 1);
        }
    }
}

/// Seeking by seconds moves the playback by a thousand times as many
/// milliseconds, to the place itself or from where it is, but not before the
/// beginning; and it changes nothing else.
pub proof fn law_seeking_moves_the_playback(before: ClientView, v: u32, playback: Playback)
    ensures
        client::can_seek(ValueChange::SetTo(v), before.elapsed_ms) ==> hears(
            before,
            before.sought(ValueChange::SetTo(v)),
            playback,
            Playback { position_ms: 1000 * (v as int), ..playback },
        ),
        client::can_seek(ValueChange::Increase(v), before.elapsed_ms) ==> hears(
            before,
            before.sought(ValueChange::Increase(v)),
            playback,
            Playback { position_ms: before.elapsed_ms + 1000 * (v as int), ..playback },
        ),
        before.elapsed_ms >= 1000 * (v as int) ==> hears(
            before,
            before.sought(ValueChange::Decrease(v)),
            playback,
            Playback { position_ms: before.elapsed_ms - 1000 * (v as int), ..playback },
        ),
        before.elapsed_ms < 1000 * (v as int) ==> hears(
            before,
            before.sought(ValueChange::Decrease(v)),
            playback,
            Playback { position_ms: 0, ..playback },
        ),
        forall|value: ValueChange| #[trigger]
            before.sought(value) == (ClientView {
                commands: before.sought(value).commands,
                ..before
            }),
        client::can_seek(ValueChange::SetTo(v), before.elapsed_ms) <==> 1000 * (v as int)
            < 0x1_0000_0000,
        client::can_seek(ValueChange::Increase(v), before.elapsed_ms) <==> before.elapsed_ms + 1000
            * (v as int) < 0x1_0000_0000,
        client::can_seek(ValueChange::Decrease(v), before.elapsed_ms) <==> 1000 * (v as int)
            < 0x1_0000_0000,
{
    assert forall|value: ValueChange| true implies hears(
        before,
        #[trigger] before.sought(value),
        playback,
        Playback {
            position_ms: client::seek_target(value, before.elapsed_ms) as u32 as int,
            ..playback
        },
    ) by {
        lemma_one_command(
            before,
            before.sought(value),
            CommandView::Seek {
                position_ms: client::seek_target(value, before.elapsed_ms) as u32,
            },
            playback,
        );
    }
}

/// The volume goes where it is set, or up or down by as much as is asked for, and
/// stops at nothing and at a hundred; it changes nothing else.
pub proof fn law_the_volume_moves(before: ClientView, v: u32)
    requires
        before.volume <= 100,
    ensures
        v <= 100 ==> before.with_volume(ValueChange::SetTo(v)).volume == v,
        v > 100 ==> before.with_volume(ValueChange::SetTo(v)).volume == 100,
        before.volume + v <= 100 ==> before.with_volume(ValueChange::Increase(v)).volume
            == before.volume + v,
        before.volume + v > 100 ==> before.with_volume(ValueChange::Increase(v)).volume == 100,
        v <= before.volume ==> before.with_volume(ValueChange::Decrease(v)).volume
            == before.volume - v,
        v > before.volume ==> before.with_volume(ValueChange::Decrease(v)).volume == 0,
        forall|value: ValueChange| #[trigger]
            before.with_volume(value) == (ClientView {
                volume: before.with_volume(value).volume,
                ..before
            }),
{
}

/// A report that the playback goes on, is paused or has stopped sets the state to
/// just that; the first two also tell how much has been played.
pub proof fn law_reports_set_the_state(before: ClientView, ms: u32)
    ensures
        before.noticed(PlayerNotice::Playing { position_ms: ms }) == (ClientView {
            state: State::Play,
            elapsed_ms: ms,
            ..before
        }),
        before.noticed(PlayerNotice::Paused { position_ms: ms }) == (ClientView {
            state: State::Pause,
            elapsed_ms: ms,
            ..before
        }),
        before.noticed(PlayerNotice::Stopped) == (ClientView { state: State::Stop, ..before }),
        before.noticed(PlayerNotice::Other) == before,
{
}

/// When a track ends, the one behind it is played, where there is one.
pub proof fn law_the_next_track_follows(before: ClientView, p: usize)
    requires
        before.well_formed(),
        before.current_pos == Some(p),
    ensures
        p + 1 < before.queue.len() && uri::is_loadable(before.queue[p + 1].file) ==> plays_song(
            before,
            before.noticed(PlayerNotice::EndOfTrack),
            p + 1,
        ),
        p + 1 >= before.queue.len() ==> before.noticed(PlayerNotice::EndOfTrack) == before,
{
    if p + 1 < before.queue.len() && uri::is_loadable(before.queue[p + 1].file) {
        lemma_started(before, p + 1);
    }
}

/// Reports are taken in one after the other: those of two polls come to the same
/// as all of them at once.
pub proof fn law_reports_add_up(
    before: ClientView,
    first: Seq<PlayerNotice>,
    second: Seq<PlayerNotice>,
)
    ensures
        before.noticed_all(first + second) == before.noticed_all(first).noticed_all(second),
        before.noticed_all(Seq::empty()) == before,
        forall|notice: PlayerNotice| #[trigger]
            before.noticed_all(seq![notice]) == before.noticed(notice),
    decreases second.len(),
{
    assert forall|notice: PlayerNotice| #[trigger]
        before.noticed_all(seq![notice]) == before.noticed(notice) by {
        reveal_with_fuel(ClientView::noticed_all, 2);
        assert(seq![notice].drop_last() =~= Seq::<PlayerNotice>::empty());
    }
    if second.len() == 0 {
        assert(first + second =~= first);
    } else {
        law_reports_add_up(before, first, second.drop_last());
        assert((first + second).drop_last() =~= first + second.drop_last());
    }
}

/// Something has changed exactly if one of the reports is one of playing, pausing,
/// stopping or the end of a track; a player that shows something else than before
/// has always said so.
pub proof fn law_every_change_is_told(before: ClientView, notices: Seq<PlayerNotice>)
    ensures
        client::tells_change(notices) <==> exists|i: int|
            0 <= i < notices.len() && (#[trigger] notices[i] is Playing || notices[i] is Paused
                || notices[i] is Stopped || notices[i] is EndOfTrack),
        before.noticed_all(notices) != before ==> client::tells_change(notices),
    decreases notices.len(),
{
    assert forall|i: int| 0 <= i < notices.len() implies client::is_change(#[trigger] notices[i])
        == (notices[i] is Playing || notices[i] is Paused || notices[i] is Stopped
        || notices[i] is EndOfTrack) by {}
    if notices.len() > 0 {
        law_every_change_is_told(before, notices.drop_last());
        let n = notices.len() - 1;
        if client::tells_change(notices.drop_last()) {
            let i = choose|i: int|
                0 <= i < n && client::is_change(#[trigger] notices.drop_last()[i]);
            assert(client::is_change(notices[i]));
        }
        if before.noticed_all(notices) != before && !client::tells_change(notices.drop_last()) {
            assert(client::is_change(notices[n]));
        }
    }
}

/// The status says what the player does, and takes over from `base` what is not
/// the player's.
pub proof fn law_the_status_tells_of_the_player(player: ClientView, base: Status)
    requires
        player.position_is_valid(),
    ensures
        player.status(base).volume == player.volume,
        player.status(base).state == player.state,
        player.status(base).elapsed_ms == player.elapsed_ms,
        player.status(base).song == player.current_pos,
        player.current_pos is None ==> player.status(base).songid is None,
        player.current_pos matches Some(p) ==> player.status(base).songid == Some(
            player.queue[p as int].id,
        ),
        player.duration_ms is None ==> player.status(base).duration_ms == 0,
        player.duration_ms matches Some(d) ==> player.status(base).duration_ms == d,
        player.status(base).updating_db == base.updating_db,
        player.status(base).repeat == base.repeat,
        player.status(base).random == base.random,
        player.status(base).single == base.single,
        player.status(base).consume == base.consume,
{
}

/// The current song is the one at the current position.
pub proof fn law_the_current_song_stands_at_its_position(player: ClientView)
    ensures
        match player.current_pos {
            None => player.current_song() is None,
            Some(p) => if p < player.queue.len() {
                player.current_song() == Some(player.queue[p as int])
            } else {
                player.current_song() is None
            },
        },
{
}

} // verus!
