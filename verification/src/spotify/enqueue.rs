//! Adding several songs at once, and waiting for events.

use crate::mpd::types::IdleEvent;
use crate::player::Enqueue;
use crate::spotify::catalog;
use crate::spotify::catalog::Track;
use crate::spotify::client::{ClientView, SpotifyClient, SpotifyError, TrackRequest};
use crate::spotify::uri;
use vstd::prelude::*;

verus! {

/// The name that an item is added under: a playlist counts as one name, and a
/// search adds nothing.
pub open spec fn target(item: Enqueue) -> Option<String> {
    match item {
        Enqueue::File { path } => Some(path),
        Enqueue::Playlist { name } => Some(name),
        Enqueue::Find { .. } => None,
    }
}

/// The names that items are added under, in order.
pub open spec fn targets(items: Seq<Enqueue>) -> Seq<Seq<char>>
    decreases items.len(),
{
    if items.len() == 0 {
        Seq::empty()
    } else {
        match target(items[0]) {
            Some(name) => seq![name@] + targets(items.skip(1)),
            None => targets(items.skip(1)),
        }
    }
}

/// What to do to add the items.
pub enum EnqueueStep {
    /// Ask the Web API for a track; `rest` comes after it.
    Fetch {
        request: TrackRequest,
        rest: Vec<Enqueue>,
        start: usize,
        autoplay_idx: Option<usize>,
    },
    Done(Result<(), SpotifyError>),
}

/// The place to play in the end can be counted.
pub open spec fn countable(start: int, autoplay_idx: Option<usize>) -> bool {
    autoplay_idx matches Some(idx) ==> start + idx <= usize::MAX
}

impl EnqueueStep {
    pub open spec fn is_countable(self) -> bool {
        self matches EnqueueStep::Fetch { start, autoplay_idx, .. } ==> countable(
            start as int,
            autoplay_idx,
        )
    }
}

/// How a client goes on that still has to add the songs `names`, and then play
/// the one that is `autoplay_idx` behind `start`.
pub open spec fn goes_on(
    before: ClientView,
    names: Seq<Seq<char>>,
    start: int,
    autoplay_idx: Option<usize>,
    after: ClientView,
    step: EnqueueStep,
) -> bool {
    if names.len() == 0 {
        match autoplay_idx {
            None => after == before && step == EnqueueStep::Done(Ok(())),
            Some(idx) => {
                let (played, outcome) = before.played_pos(start + idx);
                after == played && step == EnqueueStep::Done(outcome)
            },
        }
    } else if uri::track_id_of(names[0]) is None {
        after == before && step == EnqueueStep::Done(Err(SpotifyError::InvalidUri))
    } else {
        &&& after == before
        &&& step matches EnqueueStep::Fetch { request, rest, start: s, autoplay_idx: a }
        &&& request.is_for(names[0])
        &&& targets(rest@) == names.skip(1)
        &&& s == start
        &&& a == autoplay_idx
    }
}

/// How a client goes on that is to add items, and has cleared its queue before
/// where `replace`. The place to play is counted from the first new song on.
pub open spec fn begins_to_add(
    before: ClientView,
    items: Seq<Enqueue>,
    autoplay_idx: Option<usize>,
    replace: bool,
    after: ClientView,
    step: EnqueueStep,
) -> bool {
    let kept = if replace {
        before.cleared()
    } else {
        before
    };
    goes_on(kept, targets(items), kept.queue.len() as int, autoplay_idx, after, step)
}

impl SpotifyClient {
    /// Whether the place to play in the end can be counted.
    pub fn enqueue_fits(&self, autoplay_idx: Option<usize>, replace: bool) -> (r: bool)
        ensures
            r == countable(
                if replace {
                    0
                } else {
                    self@.queue.len() as int
                },
                autoplay_idx,
            ),
    {
        match autoplay_idx {
            Some(idx) => replace || idx <= usize::MAX - self.queue_len(),
            None => true,
        }
    }

    /// Starts to add items to the queue, which is cleared before where `replace`.
    pub fn enqueue_multiple(
        &mut self,
        items: Vec<Enqueue>,
        autoplay_idx: Option<usize>,
        replace: bool,
    ) -> (r: EnqueueStep)
        requires
            old(self)@.well_formed(),
            countable(
                if replace {
                    0
                } else {
                    old(self)@.queue.len() as int
                },
                autoplay_idx,
            ),
        ensures
            ({
                let before = if replace {
                    old(self)@.cleared()
                } else {
                    old(self)@
                };
                goes_on(
                    before,
                    targets(items@),
                    before.queue.len() as int,
                    autoplay_idx,
                    final(self)@,
                    r,
                )
            }),
            begins_to_add(old(self)@, items@, autoplay_idx, replace, final(self)@, r),
            r.is_countable(),
            final(self)@.well_formed(),
    {
        if replace {
            self.clear_queue();
        }
        let start = self.queue_len();
        self.go_on(items, start, autoplay_idx)
    }

    fn go_on(&mut self, items: Vec<Enqueue>, start: usize, autoplay_idx: Option<usize>) -> (r:
        EnqueueStep)
        requires
            old(self)@.well_formed(),
            countable(start as int, autoplay_idx),
        ensures
            goes_on(
                old(self)@,
                targets(items@),
                start as int,
                autoplay_idx,
                final(self)@,
                r,
            ),
            r.is_countable(),
            final(self)@.well_formed(),
    {
        let mut rest = items;
        while rest.len() > 0
            invariant
                targets(items@) == targets(rest@),
                self@ == old(self)@,
                self@.well_formed(),
                countable(start as int, autoplay_idx),
            decreases rest.len(),
        {
            let ghost before = rest@;
            let item = rest.remove(0);
            assert(rest@ == before.skip(1));
            let name = match item {
                Enqueue::File { path } => Some(path),
                Enqueue::Playlist { name } => Some(name),
                Enqueue::Find { .. } => None,
            };
            if let Some(name) = name {
                assert(targets(before) == seq![name@] + targets(rest@));
                assert(targets(before).skip(1) == targets(rest@));
                return match self.add(name.as_str()) {
                    Ok(request) => EnqueueStep::Fetch { request, rest, start, autoplay_idx },
                    Err(e) => EnqueueStep::Done(Err(e)),
                };
            }
        }
        match autoplay_idx {
            Some(idx) => EnqueueStep::Done(self.play_pos(start + idx)),
            None => EnqueueStep::Done(Ok(())),
        }
    }

    /// Goes on with the track that was asked for.
    pub fn enqueue_track(
        &mut self,
        request: TrackRequest,
        rest: Vec<Enqueue>,
        start: usize,
        autoplay_idx: Option<usize>,
        track: Track,
    ) -> (r: EnqueueStep)
        requires
            old(self)@.well_formed(),
            old(self)@.next_id < u32::MAX,
            request.is_for(request.uri@),
            countable(start as int, autoplay_idx),
        ensures
            goes_on(
                old(self)@.added(track, request.uri@),
                targets(rest@),
                start as int,
                autoplay_idx,
                final(self)@,
                r,
            ),
            r.is_countable(),
            final(self)@.well_formed(),
    {
        self.add_track(request, track);
        self.go_on(rest, start, autoplay_idx)
    }
}

/// The client after the songs `names` were added, one after the other.
pub open spec fn added_all(
    before: ClientView,
    names: Seq<Seq<char>>,
    tracks: Seq<Track>,
) -> ClientView
    decreases names.len(),
{
    if names.len() == 0 {
        before
    } else {
        added_all(before, names.drop_last(), tracks.drop_last()).added(tracks.last(), names.last())
    }
}

/// Items are added in the order in which they were given, behind the songs
/// that are in the queue already, and with ids that follow one another.
pub proof fn law_songs_are_added_in_order(
    before: ClientView,
    names: Seq<Seq<char>>,
    tracks: Seq<Track>,
)
    requires
        names.len() == tracks.len(),
        before.next_id + names.len() <= u32::MAX,
    ensures
        ({
            let after = added_all(before, names, tracks);
            &&& after.queue == before.queue + Seq::new(
                names.len(),
                |i: int| catalog::song_of(tracks[i], names[i], (before.next_id + i) as u32),
            )
            &&& after.next_id == before.next_id + names.len()
            &&& after.current_pos == before.current_pos
        }),
    decreases names.len(),
{
    let new = Seq::new(
        names.len(),
        |i: int| catalog::song_of(tracks[i], names[i], (before.next_id + i) as u32),
    );
    if names.len() == 0 {
        assert(before.queue + new == before.queue);
    } else {
        law_songs_are_added_in_order(before, names.drop_last(), tracks.drop_last());
        let earlier = Seq::new(
            (names.len() - 1) as nat,
            |i: int|
                catalog::song_of(
                    tracks.drop_last()[i],
                    names.drop_last()[i],
                    (before.next_id + i) as u32,
                ),
        );
        assert(new == earlier.push(
            catalog::song_of(
                tracks.last(),
                names.last(),
                (before.next_id + names.len() - 1) as u32,
            ),
        ));
        assert(before.queue + new == (before.queue + earlier).push(new.last()));
    }
}

/// The track that step `i` asks for, if it asks for one, is `tracks[i]`.
pub open spec fn fetched_at(
    tracks: Seq<Track>,
    states: Seq<ClientView>,
    steps: Seq<EnqueueStep>,
    i: int,
) -> bool {
    steps[i] matches EnqueueStep::Fetch { request, rest, start, autoplay_idx } ==> goes_on(
        states[i].added(tracks[i], request.uri@),
        targets(rest@),
        start as int,
        autoplay_idx,
        states[i + 1],
        steps[i + 1],
    )
}

/// A run through all items whose names are good, and whose tracks the Web API
/// knows, adds all of them, asks for each under its own id, and then plays the
/// one that was chosen.
#[verifier::rlimit(60)]
pub proof fn law_all_items_are_added(
    before: ClientView,
    names: Seq<Seq<char>>,
    tracks: Seq<Track>,
    start: int,
    autoplay_idx: Option<usize>,
    states: Seq<ClientView>,
    steps: Seq<EnqueueStep>,
)
    requires
        names.len() == tracks.len(),
        states.len() == names.len() + 1,
        steps.len() == states.len(),
        forall|i: int| 0 <= i < names.len() ==> uri::track_id_of(#[trigger] names[i]) is Some,
        goes_on(before, names, start, autoplay_idx, states[0], steps[0]),
        forall|i: int|
            0 <= i < names.len() ==> #[trigger] fetched_at(tracks, states, steps, i),
    ensures
        forall|i: int|
            0 <= i < names.len() ==> (#[trigger] steps[i] matches EnqueueStep::Fetch {
                request,
                ..
            } && request.is_for(names[i])),
        ({
            let all = added_all(before, names, tracks);
            &&& states.last() == match autoplay_idx {
                None => all,
                Some(idx) => all.played_pos(start + idx).0,
            }
            &&& steps.last() == EnqueueStep::Done(
                match autoplay_idx {
                    None => Ok(()),
                    Some(idx) => all.played_pos(start + idx).1,
                },
            )
        }),
{
    assert forall|i: int| 0 <= i <= names.len() implies #[trigger] goes_on(
        added_all(before, names.take(i), tracks.take(i)),
        names.skip(i),
        start,
        autoplay_idx,
        states[i],
        steps[i],
    ) by {
        lemma_added_so_far(before, names, tracks, start, autoplay_idx, states, steps, i);
    }
    assert forall|i: int| 0 <= i < names.len() implies (
    #[trigger] steps[i] matches EnqueueStep::Fetch { request, .. } && request.is_for(names[i])) by {
        assert(goes_on(
            added_all(before, names.take(i), tracks.take(i)),
            names.skip(i),
            start,
            autoplay_idx,
            states[i],
            steps[i],
        ));
        assert(names.skip(i)[0] == names[i]);
    }
    let n = names.len() as int;
    assert(names.take(n) == names);
    assert(tracks.take(n) == tracks);
    assert(goes_on(
        added_all(before, names.take(n), tracks.take(n)),
        names.skip(n),
        start,
        autoplay_idx,
        states[n],
        steps[n],
    ));
}

proof fn lemma_one_is_added(
    before: ClientView,
    names: Seq<Seq<char>>,
    start: int,
    autoplay_idx: Option<usize>,
    state: ClientView,
    step: EnqueueStep,
    track: Track,
    after: ClientView,
    next: EnqueueStep,
)
    requires
        names.len() > 0,
        uri::track_id_of(names[0]) is Some,
        goes_on(before, names, start, autoplay_idx, state, step),
        step matches EnqueueStep::Fetch { request, rest, start: s, autoplay_idx: a } ==> goes_on(
            state.added(track, request.uri@),
            targets(rest@),
            s as int,
            a,
            after,
            next,
        ),
    ensures
        goes_on(before.added(track, names[0]), names.skip(1), start, autoplay_idx, after, next),
{
}

#[verifier::rlimit(60)]
proof fn lemma_added_so_far(
    before: ClientView,
    names: Seq<Seq<char>>,
    tracks: Seq<Track>,
    start: int,
    autoplay_idx: Option<usize>,
    states: Seq<ClientView>,
    steps: Seq<EnqueueStep>,
    i: int,
)
    requires
        names.len() == tracks.len(),
        states.len() == names.len() + 1,
        steps.len() == states.len(),
        forall|i: int| 0 <= i < names.len() ==> uri::track_id_of(#[trigger] names[i]) is Some,
        goes_on(before, names, start, autoplay_idx, states[0], steps[0]),
        forall|i: int|
            0 <= i < names.len() ==> #[trigger] fetched_at(tracks, states, steps, i),
        0 <= i <= names.len(),
    ensures
        goes_on(
            added_all(before, names.take(i), tracks.take(i)),
            names.skip(i),
            start,
            autoplay_idx,
            states[i],
            steps[i],
        ),
    decreases i,
{
    if i == 0 {
        assert(names.skip(0) == names);
        assert(names.take(0).len() == 0);
    } else {
        lemma_added_so_far(before, names, tracks, start, autoplay_idx, states, steps, i - 1);
        let j = i - 1;
        assert(names.skip(j)[0] == names[j]);
        assert(fetched_at(tracks, states, steps, j));
        lemma_one_is_added(
            added_all(before, names.take(j), tracks.take(j)),
            names.skip(j),
            start,
            autoplay_idx,
            states[j],
            steps[j],
            tracks[j],
            states[i],
            steps[i],
        );
        assert(names.skip(j).skip(1) == names.skip(i));
        assert(names.take(i).drop_last() == names.take(j));
        assert(tracks.take(i).drop_last() == tracks.take(j));
    }
}

/// How long the player waits for an event.
pub const WAIT_MS: u64 = 100;

/// How long it sleeps in between.
pub const WAIT_SLEEP_MS: u64 = 10;

/// What to do while waiting for an event.
#[derive(Debug)]
pub enum WaitStep {
    /// Take in what the playback library has reported.
    Poll,
    /// Sleep for `ms`, then look at the clock again.
    Sleep { ms: u64 },
    Return(Vec<IdleEvent>),
}

impl WaitStep {
    /// This comes after the clock was looked at.
    pub open spec fn comes_at(self, elapsed_ms: u64) -> bool {
        if elapsed_ms < WAIT_MS {
            self is Poll
        } else {
            self matches WaitStep::Return(events) && events@.len() == 0
        }
    }

    /// This comes after the reports were taken in.
    pub open spec fn comes_after_poll(self, changed: bool) -> bool {
        if changed {
            self matches WaitStep::Return(events) && events@ == seq![IdleEvent::Player]
        } else {
            self == (WaitStep::Sleep { ms: WAIT_SLEEP_MS })
        }
    }

    /// What comes after the clock was looked at.
    pub fn at(elapsed_ms: u64) -> (r: WaitStep)
        ensures
            r.comes_at(elapsed_ms),
            elapsed_ms < WAIT_MS ==> r is Poll,
            elapsed_ms >= WAIT_MS ==> (r matches WaitStep::Return(events) && events@.len() == 0),
    {
        if elapsed_ms < WAIT_MS {
            WaitStep::Poll
        } else {
            WaitStep::Return(Vec::new())
        }
    }

    /// What comes after the reports were taken in; they may have changed something.
    pub fn polled(changed: bool) -> (r: WaitStep)
        ensures
            r.comes_after_poll(changed),
            changed ==> (r matches WaitStep::Return(events) && events@ == seq![IdleEvent::Player]),
            !changed ==> r == (WaitStep::Sleep { ms: WAIT_SLEEP_MS }),
    {
        if changed {
            let mut events: Vec<IdleEvent> = Vec::new();
            events.push(IdleEvent::Player);
            WaitStep::Return(events)
        } else {
            WaitStep::Sleep { ms: WAIT_SLEEP_MS }
        }
    }
}

} // verus!
