//! What the Web API tells of tracks and playlists, as songs.

use crate::mpd::types::{Filter, MetadataTag, MetadataView, Playlist, Song, SongView};
use crate::mpd::types;
use crate::spotify::uri;
use crate::text;
use vstd::prelude::*;

verus! {

/// How many tracks a search asks for.
pub const SEARCH_LIMIT: u32 = 50;

/// A track, as the Web API describes it.
pub struct Track {
    /// A local track has none.
    pub id: Option<String>,
    pub name: String,
    pub artists: Vec<String>,
    pub album: String,
    pub duration_ms: i64,
}

/// The song for a track.
pub open spec fn song_of(track: Track, file: Seq<char>, id: u32) -> SongView {
    SongView {
        id,
        file,
        duration_ms: Some(
            if track.duration_ms < 0 {
                0
            } else {
                track.duration_ms as u64
            },
        ),
        metadata: seq![
            ("title"@, MetadataView::Single(track.name@)),
            ("artist"@, MetadataView::Multiple(text::views(track.artists@))),
            ("album"@, MetadataView::Single(track.album@)),
        ],
    }
}

/// Turns a track into a song.
pub fn song_from_track(track: Track, file: String, id: u32) -> (r: Song)
    ensures
        r@ == song_of(track, file@, id),
{
    let duration: u64 = if track.duration_ms < 0 {
        0
    } else {
        track.duration_ms as u64
    };
    let mut metadata: Vec<(String, MetadataTag)> = Vec::new();
    metadata.push((String::from_str("title"), MetadataTag::Single(track.name)));
    metadata.push((String::from_str("artist"), MetadataTag::Multiple(track.artists)));
    metadata.push((String::from_str("album"), MetadataTag::Single(track.album)));
    let song = Song { id, file, duration_ms: Some(duration), metadata };
    assert(song@.metadata == song_of(track, file@, id).metadata);
    song
}

/// The song for a track that is in no queue. It has no id; its file is the name
/// of the track, where the track has an id.
pub open spec fn listed_song(track: Track) -> SongView {
    song_of(
        track,
        match track.id {
            Some(id) => uri::track_uri_of(id@),
            None => Seq::empty(),
        },
        0,
    )
}

fn list_song(track: Track) -> (r: Song)
    ensures
        r@ == listed_song(track),
{
    let file = match &track.id {
        Some(id) => uri::track_uri(id.as_str()),
        None => String::new(),
    };
    song_from_track(track, file, 0)
}

/// What to search for: the values of all conditions. A space goes before each
/// value that has something in front of it.
pub open spec fn query_of(filter: Seq<Filter>) -> Seq<char>
    decreases filter.len(),
{
    if filter.len() == 0 {
        Seq::empty()
    } else {
        let front = query_of(filter.drop_last());
        if front.len() == 0 {
            filter.last().value@
        } else {
            front.push(' ') + filter.last().value@
        }
    }
}

/// What to ask the Web API for when searching tracks.
pub struct SearchRequest {
    pub query: String,
    /// How many tracks it gives at most.
    pub limit: u32,
}

/// What to ask for to find the songs that meet all conditions.
pub fn search_request(filter: &Vec<Filter>) -> (r: SearchRequest)
    ensures
        r.query@ == query_of(filter@),
        r.limit == SEARCH_LIMIT,
{
    SearchRequest { query: search_query(filter), limit: SEARCH_LIMIT }
}

fn search_query(filter: &Vec<Filter>) -> (r: String)
    ensures
        r@ == query_of(filter@),
{
    let mut query = String::new();
    let mut i: usize = 0;
    while i < filter.len()
        invariant
            i <= filter.len(),
            query@ == query_of(filter@.take(i as int)),
        decreases filter.len() - i,
    {
        let ghost before = query@;
        if query.as_str().unicode_len() > 0 {
            query.push(' ');
        }
        query.append(filter[i].value.as_str());
        i = i + 1;
        assert(filter@.take(i as int).drop_last() == filter@.take(i - 1));
        assert(before.len() == 0 ==> query@ == filter@[i - 1].value@);
    }
    assert(filter@.take(i as int) == filter@);
    query
}

/// The songs for the tracks that a search has found.
pub open spec fn songs_of(tracks: Option<Vec<Track>>) -> Seq<SongView> {
    match tracks {
        Some(tracks) => tracks@.map_values(|t: Track| listed_song(t)),
        None => Seq::empty(),
    }
}

/// The songs that a search has found; only tracks count.
pub fn found_songs(tracks: Option<Vec<Track>>) -> (r: Vec<Song>)
    ensures
        types::song_views(r@) == songs_of(tracks),
        types::song_views(r@) == (match tracks {
            Some(tracks) => tracks@.map_values(|t: Track| listed_song(t)),
            None => Seq::empty(),
        }),
{
    let mut songs: Vec<Song> = Vec::new();
    if let Some(all) = tracks {
        let ghost views = all@.map_values(|t: Track| listed_song(t));
        let mut rest = all;
        while rest.len() > 0
            invariant
                views == types::song_views(songs@) + rest@.map_values(|t: Track| listed_song(t)),
            decreases rest.len(),
        {
            let ghost before = rest@;
            let ghost songs_before = songs@;
            let track = rest.remove(0);
            let song = list_song(track);
            songs.push(song);
            assert(types::song_views(songs@) == types::song_views(songs_before).push(song@));
            assert(before == seq![track] + rest@);
            assert(before.map_values(|t: Track| listed_song(t)) == seq![listed_song(track)]
                + rest@.map_values(|t: Track| listed_song(t)));
        }
        assert(types::song_views(songs@) == views);
    }
    songs
}

/// The playlists with these names.
pub open spec fn playlists_named(names: Seq<String>) -> Seq<Playlist> {
    names.map_values(|n: String| Playlist { name: n })
}

/// The playlists with these names.
pub fn playlists(names: Vec<String>) -> (r: Vec<Playlist>)
    ensures
        r@ == playlists_named(names@),
        r@ == names@.map_values(|n: String| Playlist { name: n }),
{
    let mut list: Vec<Playlist> = Vec::new();
    let mut i: usize = 0;
    while i < names.len()
        invariant
            i <= names.len(),
            list@ == names@.take(i as int).map_values(|n: String| Playlist { name: n }),
        decreases names.len() - i,
    {
        list.push(Playlist { name: names[i].clone() });
        i = i + 1;
    }
    assert(names@.take(i as int) == names@);
    list
}

/// What to do to list the songs of a playlist.
pub enum PlaylistStep {
    /// Ask for the next of the user's playlists.
    NextPlaylist { wanted: String },
    /// Ask for the next item of the playlist.
    NextItem { playlist_id: String, songs: Vec<Song> },
    Found(Vec<Song>),
    NotFound,
}

/// What came of it.
pub enum PlaylistReport {
    Playlist { name: String, id: String },
    /// An item; it may be something else than a track.
    Item(Option<Track>),
    /// There are no more.
    End,
}

impl PlaylistStep {
    /// `report` can be the answer in this step.
    pub open spec fn accepts(self, report: PlaylistReport) -> bool {
        match self {
            PlaylistStep::NextPlaylist { .. } => report is Playlist || report is End,
            PlaylistStep::NextItem { .. } => report is Item || report is End,
            _ => false,
        }
    }

    /// The step is followed by `after`, if it can take the report at all.
    pub open spec fn goes(self, report: PlaylistReport, after: PlaylistStep) -> bool {
        self.accepts(report) ==> self.steps(report, after)
    }

    /// What comes after this step: the first playlist that has the name is
    /// listed, and of its items those that are tracks.
    pub open spec fn steps(self, report: PlaylistReport, after: PlaylistStep) -> bool {
        match (self, report) {
            (PlaylistStep::NextPlaylist { wanted }, PlaylistReport::Playlist { name, id }) => {
                if name@ == wanted@ {
                    &&& after matches PlaylistStep::NextItem { playlist_id, songs }
                    &&& playlist_id == id
                    &&& songs@.len() == 0
                } else {
                    after == self
                }
            },
            (PlaylistStep::NextPlaylist { .. }, _) => after is NotFound,
            (PlaylistStep::NextItem { playlist_id, songs }, PlaylistReport::Item(item)) => {
                &&& after matches PlaylistStep::NextItem { playlist_id: same, songs: more }
                &&& same == playlist_id
                &&& types::song_views(more@) == match item {
                    Some(track) => types::song_views(songs@).push(listed_song(track)),
                    None => types::song_views(songs@),
                }
            },
            (PlaylistStep::NextItem { songs, .. }, _) => after == PlaylistStep::Found(songs),
            _ => false,
        }
    }

    pub fn begin(name: &str) -> (r: PlaylistStep)
        ensures
            r matches PlaylistStep::NextPlaylist { wanted } && wanted@ == name@,
    {
        PlaylistStep::NextPlaylist { wanted: String::from_str(name) }
    }

    /// Whether `report` can be the answer in this step.
    pub fn can_take(&self, report: &PlaylistReport) -> (r: bool)
        ensures
            r == self.accepts(*report),
    {
        match (self, report) {
            (PlaylistStep::NextPlaylist { .. }, PlaylistReport::Playlist { .. }) => true,
            (PlaylistStep::NextPlaylist { .. }, PlaylistReport::End) => true,
            (PlaylistStep::NextItem { .. }, PlaylistReport::Item(_)) => true,
            (PlaylistStep::NextItem { .. }, PlaylistReport::End) => true,
            _ => false,
        }
    }

    pub fn next(self, report: PlaylistReport) -> (r: PlaylistStep)
        requires
            self.accepts(report),
        ensures
            self.steps(report, r),
    {
        match (self, report) {
            (PlaylistStep::NextPlaylist { wanted }, PlaylistReport::Playlist { name, id }) => {
                if name == wanted {
                    PlaylistStep::NextItem { playlist_id: id, songs: Vec::new() }
                } else {
                    PlaylistStep::NextPlaylist { wanted }
                }
            },
            (PlaylistStep::NextItem { playlist_id, songs }, PlaylistReport::Item(item)) => {
                let mut songs = songs;
                if let Some(track) = item {
                    let ghost before = songs@;
                    let song = list_song(track);
                    songs.push(song);
                    assert(types::song_views(songs@) == types::song_views(before).push(song@));
                }
                PlaylistStep::NextItem { playlist_id, songs }
            },
            (PlaylistStep::NextItem { songs, .. }, _) => PlaylistStep::Found(songs),
            _ => PlaylistStep::NotFound,
        }
    }
}

/// What a search has found can be added to the queue: the file of the song is a
/// name that leads back to the track.
pub proof fn law_found_songs_can_be_added(track: Track)
    requires
        track.id matches Some(id) && text::is_ascii_word(id@),
    ensures
        uri::track_id_of(listed_song(track).file) == Some(track.id->0@),
{
    uri::law_names_lead_back_to_ids(track.id->0@);
}

/// Conditions without a text, in front of all others, leave the search as it is.
pub proof fn law_empty_conditions_in_front_do_not_matter(filter: Seq<Filter>, empty: Filter)
    requires
        empty.value@.len() == 0,
    ensures
        query_of(seq![empty] + filter) == query_of(filter),
    decreases filter.len(),
{
    let all = seq![empty] + filter;
    if filter.len() == 0 {
        assert(all.drop_last() == Seq::<Filter>::empty());
        reveal_with_fuel(query_of, 2);
        assert(empty.value@ == Seq::<char>::empty());
    } else {
        law_empty_conditions_in_front_do_not_matter(filter.drop_last(), empty);
        assert(all.drop_last() == seq![empty] + filter.drop_last());
        assert(all.last() == filter.last());
    }
}

/// The song for a track has no tag twice.
pub proof fn law_songs_of_tracks_have_each_tag_once(track: Track, file: Seq<char>, id: u32)
    ensures
        song_of(track, file, id).has_each_tag_once(),
{
    reveal_strlit("title");
    reveal_strlit("artist");
    reveal_strlit("album");
    assert("title"@[0] == 't' && "artist"@[0] == 'a' && "album"@[0] == 'a');
    assert("artist"@[1] == 'r' && "album"@[1] == 'l');
}

/// The songs for those of the items that are tracks, in order.
pub open spec fn listed_songs(items: Seq<Option<Track>>) -> Seq<SongView>
    decreases items.len(),
{
    if items.len() == 0 {
        Seq::empty()
    } else {
        match items.last() {
            Some(track) => listed_songs(items.drop_last()).push(listed_song(track)),
            None => listed_songs(items.drop_last()),
        }
    }
}

/// What the Web API answers when the playlists of the user are `lists`, by name
/// and id, and that at `chosen` is listed, which has the items `items`.
pub open spec fn answer_at(
    lists: Seq<(String, String)>,
    chosen: int,
    items: Seq<Option<Track>>,
    i: int,
) -> PlaylistReport {
    if i <= chosen {
        PlaylistReport::Playlist { name: lists[i].0, id: lists[i].1 }
    } else if i <= chosen + items.len() {
        PlaylistReport::Item(items[i - chosen - 1])
    } else {
        PlaylistReport::End
    }
}

/// Of the playlists that have the name the first one is listed: its tracks come
/// out in the order of its items, and what is no track is left out.
#[verifier::rlimit(60)]
pub proof fn law_the_first_playlist_with_the_name_is_listed(
    name: Seq<char>,
    lists: Seq<(String, String)>,
    chosen: int,
    items: Seq<Option<Track>>,
    steps: Seq<PlaylistStep>,
)
    requires
        0 <= chosen < lists.len(),
        lists[chosen].0@ == name,
        forall|i: int| 0 <= i < chosen ==> (#[trigger] lists[i]).0@ != name,
        steps.len() == chosen + items.len() + 3,
        steps[0] matches PlaylistStep::NextPlaylist { wanted } && wanted@ == name,
        forall|i: int|
            0 <= i < steps.len() - 1 ==> (#[trigger] steps[i]).goes(
                answer_at(lists, chosen, items, i),
                steps[i + 1],
            ),
    ensures
        steps[chosen + 1] matches PlaylistStep::NextItem { playlist_id, .. } && playlist_id
            == lists[chosen].1,
        steps.last() matches PlaylistStep::Found(songs) && types::song_views(songs@)
            == listed_songs(items),
{
    lemma_still_looking(name, lists, chosen, items, steps, chosen);
    assert(steps[chosen].goes(answer_at(lists, chosen, items, chosen), steps[chosen + 1]));
    lemma_items_listed(lists, chosen, items, steps, items.len() as int);
    assert(items.take(items.len() as int) == items);
    let i = chosen + 1 + items.len();
    assert(steps[i].goes(answer_at(lists, chosen, items, i), steps[i + 1]));
}

/// Where no playlist has the name, none is found.
#[verifier::rlimit(60)]
pub proof fn law_a_name_that_no_playlist_has_is_not_found(
    name: Seq<char>,
    lists: Seq<(String, String)>,
    steps: Seq<PlaylistStep>,
)
    requires
        forall|i: int| 0 <= i < lists.len() ==> (#[trigger] lists[i]).0@ != name,
        steps.len() == lists.len() + 2,
        steps[0] matches PlaylistStep::NextPlaylist { wanted } && wanted@ == name,
        forall|i: int|
            0 <= i < lists.len() ==> (#[trigger] steps[i]).goes(
                PlaylistReport::Playlist { name: lists[i].0, id: lists[i].1 },
                steps[i + 1],
            ),
        steps[lists.len() as int].goes(PlaylistReport::End, steps.last()),
    ensures
        steps.last() is NotFound,
    decreases lists.len(),
{
    if lists.len() > 0 {
        assert(steps[0].goes(
            PlaylistReport::Playlist { name: lists[0].0, id: lists[0].1 },
            steps[1],
        ));
        let rest = steps.skip(1);
        assert forall|i: int| 0 <= i < lists.len() - 1 implies (#[trigger] rest[i]).goes(
            PlaylistReport::Playlist { name: lists.skip(1)[i].0, id: lists.skip(1)[i].1 },
            rest[i + 1],
        ) by {
            assert(steps[i + 1].goes(
                PlaylistReport::Playlist { name: lists[i + 1].0, id: lists[i + 1].1 },
                steps[i + 1 + 1],
            ));
        }
        law_a_name_that_no_playlist_has_is_not_found(name, lists.skip(1), rest);
    }
}

#[verifier::rlimit(60)]
proof fn lemma_still_looking(
    name: Seq<char>,
    lists: Seq<(String, String)>,
    chosen: int,
    items: Seq<Option<Track>>,
    steps: Seq<PlaylistStep>,
    i: int,
)
    requires
        0 <= i <= chosen < lists.len(),
        forall|i: int| 0 <= i < chosen ==> (#[trigger] lists[i]).0@ != name,
        steps.len() == chosen + items.len() + 3,
        steps[0] matches PlaylistStep::NextPlaylist { wanted } && wanted@ == name,
        forall|i: int|
            0 <= i < steps.len() - 1 ==> (#[trigger] steps[i]).goes(
                answer_at(lists, chosen, items, i),
                steps[i + 1],
            ),
    ensures
        steps[i] == steps[0],
    decreases i,
{
    if i > 0 {
        lemma_still_looking(name, lists, chosen, items, steps, i - 1);
        assert(steps[i - 1].goes(answer_at(lists, chosen, items, i - 1), steps[i - 1 + 1]));
        assert(lists[i - 1].0@ != name);
    }
}

#[verifier::rlimit(60)]
proof fn lemma_items_listed(
    lists: Seq<(String, String)>,
    chosen: int,
    items: Seq<Option<Track>>,
    steps: Seq<PlaylistStep>,
    n: int,
)
    requires
        0 <= chosen < lists.len(),
        0 <= n <= items.len(),
        steps.len() == chosen + items.len() + 3,
        steps[chosen + 1] matches PlaylistStep::NextItem { songs, .. } && songs@.len() == 0,
        forall|i: int|
            0 <= i < steps.len() - 1 ==> (#[trigger] steps[i]).goes(
                answer_at(lists, chosen, items, i),
                steps[i + 1],
            ),
    ensures
        steps[chosen + 1 + n] matches PlaylistStep::NextItem { songs, .. } && types::song_views(
            songs@,
        ) == listed_songs(items.take(n)),
    decreases n,
{
    if n == 0 {
        assert(items.take(0).len() == 0);
    } else {
        lemma_items_listed(lists, chosen, items, steps, n - 1);
        let i = chosen + n;
        assert(steps[i].goes(answer_at(lists, chosen, items, i), steps[i + 1]));
        assert(items.take(n).drop_last() == items.take(n - 1));
        assert(items.take(n).last() == items[n - 1]);
    }
}

} // verus!
