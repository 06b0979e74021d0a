//! What comes of adding several items, of a search, and of a list of playlists.

use crate::mpd::types::{Filter, IdleEvent, SongView};
use crate::player::Enqueue;
use crate::spotify::catalog;
use crate::spotify::catalog::Track;
use crate::spotify::client;
use crate::spotify::client::{
    ClientView, CommandView, PlayerNotice, SpotifyError, TrackRequest,
};
use crate::spotify::enqueue;
use crate::spotify::enqueue::{EnqueueStep, WaitStep};
use crate::spotify::uri;
use crate::text;
use vstd::prelude::*;

verus! {

/// A file is added under its path and a playlist under its name; a search adds
/// nothing.
pub proof fn law_an_item_is_added_under_its_name(item: Enqueue)
    ensures
        match item {
            Enqueue::File { path } => enqueue::targets(seq![item]) == seq![path@],
            Enqueue::Playlist { name } => enqueue::targets(seq![item]) == seq![name@],
            Enqueue::Find { .. } => enqueue::targets(seq![item]).len() == 0,
        },
{
    assert(seq![item].skip(1) =~= Seq::empty());
    assert(enqueue::targets(Seq::<Enqueue>::empty()) =~= Seq::empty());
    assert(enqueue::targets(seq![item]) =~= match enqueue::target(seq![item][0]) {
        Some(name) => seq![name@] + enqueue::targets(seq![item].skip(1)),
        None => enqueue::targets(seq![item].skip(1)),
    });
}

/// The names of two lists of items, one behind the other, are the names of the
/// first and then those of the second.
pub proof fn law_names_come_in_order(first: Seq<Enqueue>, second: Seq<Enqueue>)
    ensures
        enqueue::targets(first + second) == enqueue::targets(first) + enqueue::targets(second),
    decreases first.len(),
{
    if first.len() == 0 {
        assert(first + second =~= second);
        assert(enqueue::targets(first) + enqueue::targets(second) =~= enqueue::targets(second));
    } else {
        law_names_come_in_order(first.skip(1), second);
        assert((first + second).skip(1) =~= first.skip(1) + second);
        assert((first + second)[0] == first[0]);
        assert(enqueue::targets(first + second) =~= enqueue::targets(first) + enqueue::targets(
            second,
        ));
    }
}

/// What the client had before it began to add.
pub open spec fn kept_songs(before: ClientView, replace: bool) -> Seq<SongView> {
    if replace {
        Seq::empty()
    } else {
        before.queue
    }
}

/// The whole of adding items: it begins with `before`, every name is that of a track,
/// and the Web API tells of each track that it is asked for.
pub open spec fn adds_through(
    before: ClientView,
    items: Seq<Enqueue>,
    autoplay_idx: Option<usize>,
    replace: bool,
    tracks: Seq<Track>,
    states: Seq<ClientView>,
    steps: Seq<EnqueueStep>,
) -> bool {
    let names = enqueue::targets(items);
    &&& names.len() == tracks.len()
    &&& states.len() == names.len() + 1
    &&& steps.len() == states.len()
    &&& forall|i: int| 0 <= i < names.len() ==> uri::track_id_of(#[trigger] names[i]) is Some
    &&& enqueue::begins_to_add(before, items, autoplay_idx, replace, states[0], steps[0])
    &&& forall|i: int|
        0 <= i < names.len() ==> #[trigger] enqueue::fetched_at(tracks, states, steps, i)
}

/// Adding items puts a song for each name behind what was in the queue, or into an
/// empty queue where that is replaced, in the given order. Then the one of the new
/// songs is played that was chosen, counted from the first of them, if there is one
/// and its name can be loaded.
#[verifier::rlimit(60)]
pub proof fn law_the_chosen_item_is_played(
    before: ClientView,
    items: Seq<Enqueue>,
    autoplay_idx: Option<usize>,
    replace: bool,
    tracks: Seq<Track>,
    states: Seq<ClientView>,
    steps: Seq<EnqueueStep>,
)
    requires
        before.next_id + enqueue::targets(items).len() <= u32::MAX,
        kept_songs(before, replace).len() + enqueue::targets(items).len() <= usize::MAX,
        adds_through(before, items, autoplay_idx, replace, tracks, states, steps),
    ensures
        ({
            let names = enqueue::targets(items);
            let kept = kept_songs(before, replace);
            let last = states.last();
            &&& last.queue.len() == kept.len() + names.len()
            &&& last.queue.take(kept.len() as int) == kept
            &&& forall|i: int|
                0 <= i < names.len() ==> (#[trigger] names[i]) == last.queue[kept.len() + i].file
            &&& forall|i: int|
                0 <= i < names.len() ==> last.queue[kept.len() + i].id == before.next_id + i
                    && last.queue[kept.len() + i].duration_ms == catalog::listed_song(
                    #[trigger] tracks[i],
                ).duration_ms && last.queue[kept.len() + i].metadata == catalog::listed_song(
                    tracks[i],
                ).metadata
            &&& match autoplay_idx {
                None => {
                    &&& steps.last() == EnqueueStep::Done(Ok(()))
                    &&& last.current_pos == if replace {
                        None
                    } else {
                        before.current_pos
                    }
                },
                Some(idx) => if idx >= names.len() {
                    steps.last() == EnqueueStep::Done(Err(SpotifyError::SongNotFoundAtPosition))
                } else if !uri::is_loadable(names[idx as int]) {
                    steps.last() == EnqueueStep::Done(Err(SpotifyError::InvalidUri))
                } else {
                    &&& steps.last() == EnqueueStep::Done(Ok(()))
                    &&& last.current_pos matches Some(p) && p == kept.len() + idx
                    &&& last.commands.len() > 0
                    &&& last.commands.last() == CommandView::Load {
                        uri: names[idx as int],
                        start_playing: true,
                        position_ms: 0,
                    }
                },
            }
        }),
{
    let names = enqueue::targets(items);
    let base = if replace {
        before.cleared()
    } else {
        before
    };
    let kept = kept_songs(before, replace);
    enqueue::law_all_items_are_added(
        base,
        names,
        tracks,
        base.queue.len() as int,
        autoplay_idx,
        states,
        steps,
    );
    enqueue::law_songs_are_added_in_order(base, names, tracks);
    let all = enqueue::added_all(base, names, tracks);
    let new = Seq::new(
        names.len(),
        |i: int| catalog::song_of(tracks[i], names[i], (base.next_id + i) as u32),
    );
    assert(states.last().queue == all.queue);
    assert(all.queue == kept + new);
    assert(all.queue.take(kept.len() as int) =~= kept);
    assert forall|i: int| 0 <= i < names.len() implies all.queue[kept.len() + i] == #[trigger] new[i] by {}
    assert forall|i: int| 0 <= i < names.len() implies (#[trigger] names[i]) == all.queue[kept.len()
        + i].file by {
        assert(new[i].file == names[i]);
    }
    assert forall|i: int| 0 <= i < names.len() implies all.queue[kept.len() + i].id
        == before.next_id + i && all.queue[kept.len() + i].duration_ms == catalog::listed_song(
        #[trigger] tracks[i],
    ).duration_ms && all.queue[kept.len() + i].metadata == catalog::listed_song(
        tracks[i],
    ).metadata by {
        assert(new[i] == catalog::song_of(tracks[i], names[i], (base.next_id + i) as u32));
    }
}

/// A name that is not that of a track ends the adding, wherever it stands; what was
/// added before stays, and nothing more is added or played.
pub proof fn law_a_bad_name_ends_the_adding(
    before: ClientView,
    names: Seq<Seq<char>>,
    start: int,
    autoplay_idx: Option<usize>,
    after: ClientView,
    step: EnqueueStep,
)
    requires
        names.len() > 0,
        uri::track_id_of(names[0]) is None,
        enqueue::goes_on(before, names, start, autoplay_idx, after, step),
    ensures
        after == before,
        step == EnqueueStep::Done(Err(SpotifyError::InvalidUri)),
{
}

/// Any place to play can be counted, as long as its number is one that a position
/// can have.
pub proof fn law_places_can_be_counted(start: int, autoplay_idx: Option<usize>)
    ensures
        enqueue::countable(start, autoplay_idx) <==> (autoplay_idx is None || start
            + autoplay_idx->0 < usize::MAX + 1),
{
}

/// Whoever waits for an event hears of the player as soon as one of its reports has
/// changed something, and of nothing else; after a tenth of a second without a change
/// they hear of nothing. In between the player looks again every hundredth of a
/// second.
pub proof fn law_changes_end_the_waiting(
    step: WaitStep,
    elapsed_ms: u64,
    notices: Seq<PlayerNotice>,
    i: int,
)
    ensures
        step.comes_at(elapsed_ms) ==> (elapsed_ms < 100 <==> step is Poll),
        step.comes_at(elapsed_ms) && elapsed_ms >= 100 ==> (step matches WaitStep::Return(events)
            && events@.len() == 0),
        step.comes_after_poll(client::tells_change(notices)) && 0 <= i < notices.len() && (
        notices[i] is Playing || notices[i] is Paused || notices[i] is Stopped
            || notices[i] is EndOfTrack) ==> (step matches WaitStep::Return(events) && events@.len()
            == 1 && events@[0] == IdleEvent::Player),
        step.comes_after_poll(client::tells_change(notices)) && (forall|j: int|
            0 <= j < notices.len() ==> #[trigger] notices[j] is Other) ==> step == (
        WaitStep::Sleep { ms: 10 }),
{
    if 0 <= i < notices.len() && (notices[i] is Playing || notices[i] is Paused
        || notices[i] is Stopped || notices[i] is EndOfTrack) {
        assert(client::is_change(notices[i]));
    }
    if forall|j: int| 0 <= j < notices.len() ==> #[trigger] notices[j] is Other {
        assert forall|j: int| 0 <= j < notices.len() implies !client::is_change(
            #[trigger] notices[j],
        ) by {
            assert(notices[j] is Other);
        }
    }
}

/// A track is asked for by the id in its name, in whichever way that is written, and
/// keeps the name.
pub proof fn law_a_track_is_asked_for_by_its_id(request: TrackRequest, id: Seq<char>)
    requires
        text::is_ascii_word(id),
    ensures
        request.is_for("spotify:track:"@ + id) ==> request.track_id@ == id && request.uri@
            == "spotify:track:"@ + id,
        request.is_for("spotify/track/"@ + id) ==> request.track_id@ == id && request.uri@
            == "spotify/track/"@ + id,
{
    uri::law_names_lead_back_to_ids(id);
}

/// A search asks for the texts of all conditions, in their order, with one space
/// between every two of them.
pub proof fn law_a_search_asks_for_all_conditions(filter: Seq<Filter>)
    requires
        filter.len() > 0,
        forall|i: int| 0 <= i < filter.len() ==> (#[trigger] filter[i]).value@.len() > 0,
    ensures
        catalog::query_of(filter) == filter[0].value@ + Seq::new(
            (filter.len() - 1) as nat,
            |i: int| seq![' '] + filter[i + 1].value@,
        ).flatten(),
    decreases filter.len(),
{
    let parts = Seq::new((filter.len() - 1) as nat, |i: int| seq![' '] + filter[i + 1].value@);
    if filter.len() == 1 {
        assert(catalog::query_of(filter.drop_last()) =~= Seq::empty());
        assert(filter[0].value@ + parts.flatten() =~= filter[0].value@);
    } else {
        let init = filter.drop_last();
        assert forall|i: int| 0 <= i < init.len() implies (#[trigger] init[i]).value@.len() > 0 by {
            assert(filter[i].value@.len() > 0);
        }
        law_a_search_asks_for_all_conditions(init);
        let fewer = Seq::new((init.len() - 1) as nat, |i: int| seq![' '] + init[i + 1].value@);
        assert(parts.drop_last() =~= fewer);
        assert(parts.last() == seq![' '] + filter.last().value@);
        parts.lemma_flatten_and_flatten_alt_are_equivalent();
        fewer.lemma_flatten_and_flatten_alt_are_equivalent();
        assert(parts.flatten() == fewer.flatten() + parts.last());
        assert(init[0] == filter[0]);
        assert(filter[0].value@.len() > 0);
        assert(catalog::query_of(filter) =~= filter[0].value@ + parts.flatten());
    }
}

/// A search gives a song for every track that it has found, in the same order;
/// without tracks it gives none.
pub proof fn law_a_search_lists_every_track(tracks: Option<Vec<Track>>)
    ensures
        match tracks {
            Some(tracks) => {
                &&& catalog::songs_of(Some(tracks)).len() == tracks@.len()
                &&& forall|i: int|
                    0 <= i < tracks@.len() ==> catalog::songs_of(Some(tracks))[i]
                        == catalog::listed_song(#[trigger] tracks@[i])
            },
            None => catalog::songs_of(None).len() == 0,
        },
{
}

/// There is a playlist for every name, in the same order.
pub proof fn law_playlists_keep_their_names(names: Seq<String>)
    ensures
        catalog::playlists_named(names).len() == names.len(),
        forall|i: int|
            0 <= i < names.len() ==> catalog::playlists_named(names)[i].name@ == (
            #[trigger] names[i])@,
{
}

/// The errors of the player say what went wrong.
pub proof fn law_errors_say_what_went_wrong()
    ensures
        SpotifyError::NotLoggedIn.text() == "Spotify not logged in. Run 'rmpc spotifylogin' first."@,
        SpotifyError::InvalidUri.text() == "Invalid Spotify URI"@,
        SpotifyError::SongNotFound.text() == "Song not found"@,
        SpotifyError::SongNotFoundAtPosition.text() == "Song not found at position"@,
        SpotifyError::PlaylistNotFound.text() == "Playlist not found"@,
        SpotifyError::NoDownloads.text()
            == "Spotify backend does not support adding downloaded files"@,
{
}

} // verus!
