//! The values that players exchange with their callers.

use vstd::prelude::*;

verus! {

/// What a player is doing.
#[derive(Clone, Copy, Debug, PartialEq, Eq, Structural)]
pub enum State {
    Play,
    Pause,
    Stop,
}

/// A protocol version.
#[derive(Clone, Copy, Debug, PartialEq, Eq, Structural)]
pub struct Version {
    pub major: u32,
    pub minor: u32,
    pub patch: u32,
}

impl Version {
    pub fn new(major: u32, minor: u32, patch: u32) -> (r: Version)
        ensures
            r == (Version { major, minor, patch }),
    {
        Version { major, minor, patch }
    }

    /// The order of versions: by major number, then minor, then patch.
    pub open spec fn before(self, other: Version) -> bool {
        ||| self.major < other.major
        ||| self.major == other.major && self.minor < other.minor
        ||| self.major == other.major && self.minor == other.minor && self.patch < other.patch
    }

    /// Whether this version comes before `other`.
    pub fn is_before(&self, other: &Version) -> (r: bool)
        ensures
            r == self.before(*other),
    {
        if self.major != other.major {
            self.major < other.major
        } else if self.minor != other.minor {
            self.minor < other.minor
        } else {
            self.patch < other.patch
        }
    }
}

/// A new value for a number, or a step from the present one.
#[derive(Clone, Copy, Debug, PartialEq, Eq, Structural)]
pub enum ValueChange {
    Increase(u32),
    Decrease(u32),
    SetTo(u32),
}

/// A place in the queue.
#[derive(Clone, Copy, Debug, PartialEq, Eq, Structural)]
pub enum QueuePosition {
    /// Behind the current song, by that many songs.
    RelativeAdd(usize),
    /// In front of the current song, by that many songs.
    RelativeSub(usize),
    Absolute(usize),
}

/// A mode that can also be on for one song only.
#[derive(Clone, Copy, Debug, PartialEq, Eq, Structural)]
pub enum OnOffOneshot {
    On,
    Off,
    Oneshot,
}

/// The tag that a filter looks at.
#[derive(Clone, Debug)]
pub enum Tag {
    Artist,
    Album,
    AlbumArtist,
    Genre,
    File,
    Custom(String),
}

/// How a filter compares.
#[derive(Clone, Copy, Debug, PartialEq, Eq, Structural)]
pub enum FilterKind {
    Exact,
    StartsWith,
    Contains,
    Regex,
}

/// Which cover of a song comes first.
#[derive(Clone, Copy, Debug, PartialEq, Eq, Structural)]
pub enum AlbumArtOrder {
    /// One that is embedded, before one that lies beside the song.
    EmbeddedFirst,
    FileFirst,
}

/// One condition on a song.
#[derive(Clone, Debug)]
pub struct Filter {
    pub tag: Tag,
    pub value: String,
    pub kind: FilterKind,
}

/// One position, or the positions from `start` up to but without `end`.
#[derive(Clone, Copy, Debug, PartialEq, Eq, Structural)]
pub struct SingleOrRange {
    pub start: usize,
    pub end: Option<usize>,
}

/// The part of a player that has changed.
#[derive(Clone, Copy, Debug, PartialEq, Eq, Structural)]
pub enum IdleEvent {
    Database,
    Update,
    StoredPlaylist,
    Playlist,
    Player,
    Mixer,
    Output,
    Options,
    Partition,
    Sticker,
    Subscription,
    Message,
    Neighbor,
    Mount,
}

/// The value of a metadata tag.
#[derive(Debug)]
pub enum MetadataTag {
    Single(String),
    Multiple(Vec<String>),
}

/// What a metadata tag holds.
pub enum MetadataView {
    Single(Seq<char>),
    Multiple(Seq<Seq<char>>),
}

impl View for MetadataTag {
    type V = MetadataView;

    open spec fn view(&self) -> MetadataView {
        match self {
            MetadataTag::Single(s) => MetadataView::Single(s@),
            MetadataTag::Multiple(v) => MetadataView::Multiple(crate::text::views(v@)),
        }
    }
}

impl Clone for MetadataTag {
    fn clone(&self) -> (r: MetadataTag)
        ensures
            r@ == self@,
    {
        match self {
            MetadataTag::Single(s) => MetadataTag::Single(s.clone()),
            MetadataTag::Multiple(v) => {
                let c = clone_strings(v);
                MetadataTag::Multiple(c)
            },
        }
    }
}

/// A copy of a list of strings.
pub fn clone_strings(v: &Vec<String>) -> (r: Vec<String>)
    ensures
        r@ == v@,
{
    let mut r: Vec<String> = Vec::new();
    let mut i: usize = 0;
    while i < v.len()
        invariant
            i <= v.len(),
            r@ == v@.take(i as int),
        decreases v.len() - i,
    {
        r.push(v[i].clone());
        i = i + 1;
    }
    r
}

/// A song of a queue, or one found in a library.
#[derive(Debug)]
pub struct Song {
    pub id: u32,
    pub file: String,
    pub duration_ms: Option<u64>,
    /// Tag names and their values.
    pub metadata: Vec<(String, MetadataTag)>,
}

/// What a song holds.
pub struct SongView {
    pub id: u32,
    pub file: Seq<char>,
    pub duration_ms: Option<u64>,
    pub metadata: Seq<(Seq<char>, MetadataView)>,
}

impl SongView {
    /// No tag occurs twice.
    pub open spec fn has_each_tag_once(self) -> bool {
        forall|i: int, j: int|
            0 <= i < j < self.metadata.len() ==> #[trigger] self.metadata[i].0
                != #[trigger] self.metadata[j].0
    }
}

impl View for Song {
    type V = SongView;

    open spec fn view(&self) -> SongView {
        SongView {
            id: self.id,
            file: self.file@,
            duration_ms: self.duration_ms,
            metadata: self.metadata@.map_values(|e: (String, MetadataTag)| (e.0@, e.1@)),
        }
    }
}

/// The views of a list of songs.
pub open spec fn song_views(list: Seq<Song>) -> Seq<SongView> {
    list.map_values(|s: Song| s@)
}

impl Clone for Song {
    fn clone(&self) -> (r: Song)
        ensures
            r@ == self@,
    {
        let mut metadata: Vec<(String, MetadataTag)> = Vec::new();
        let mut i: usize = 0;
        while i < self.metadata.len()
            invariant
                i <= self.metadata.len(),
                metadata.len() == i,
                forall|j: int|
                    0 <= j < i ==> (#[trigger] metadata@[j]).0@ == self.metadata@[j].0@
                        && metadata@[j].1@ == self.metadata@[j].1@,
            decreases self.metadata.len() - i,
        {
            let entry = &self.metadata[i];
            metadata.push((entry.0.clone(), entry.1.clone()));
            i = i + 1;
        }
        let r = Song {
            id: self.id,
            file: self.file.clone(),
            duration_ms: self.duration_ms,
            metadata,
        };
        assert(r@.metadata == self@.metadata);
        r
    }
}

/// A copy of a list of songs.
pub fn clone_songs(v: &Vec<Song>) -> (r: Vec<Song>)
    ensures
        song_views(r@) == song_views(v@),
{
    let mut r: Vec<Song> = Vec::new();
    let mut i: usize = 0;
    while i < v.len()
        invariant
            i <= v.len(),
            song_views(r@) == song_views(v@).take(i as int),
        decreases v.len() - i,
    {
        let ghost before = r@;
        let s = v[i].clone();
        r.push(s);
        assert(song_views(r@) == song_views(before).push(s@));
        i = i + 1;
    }
    assert(song_views(v@).take(i as int) == song_views(v@));
    r
}

/// A player's report on itself.
#[derive(Clone, Copy, Debug, PartialEq, Eq, Structural)]
pub struct Status {
    pub volume: u32,
    pub state: State,
    pub song: Option<usize>,
    pub songid: Option<u32>,
    pub elapsed_ms: u64,
    pub duration_ms: u64,
    pub updating_db: Option<u32>,
    pub repeat: bool,
    pub random: bool,
    pub single: OnOffOneshot,
    pub consume: OnOffOneshot,
}

/// A stored playlist.
#[derive(Clone, Debug)]
pub struct Playlist {
    pub name: String,
}

/// The job that a database update started.
#[derive(Clone, Copy, Debug, PartialEq, Eq, Structural)]
pub struct Update {
    pub job_id: u32,
}

/// What the server is configured to.
#[derive(Clone, Debug)]
pub struct MpdConfig {
    pub music_directory: String,
}

/// A decoder plugin, by the file name suffixes that it reads.
#[derive(Clone, Debug)]
pub struct Decoder {
    pub suffixes: Vec<String>,
}

/// An audio output.
#[derive(Clone, Debug)]
pub struct Output {
    pub id: u32,
    pub name: String,
}

/// Which partition an output belongs to.
#[derive(Clone, Copy, Debug, PartialEq, Eq, Structural)]
pub enum PartitionedOutputKind {
    OtherPartition,
    CurrentPartition,
}

} // verus!
