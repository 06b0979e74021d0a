//! The interface that every player offers.

use crate::mpd::types::{
    Decoder, Filter, FilterKind, IdleEvent, MpdConfig, OnOffOneshot, Output, PartitionedOutputKind,
    Playlist, QueuePosition, SingleOrRange, Song, State, Status, Tag, Update, ValueChange, Version,
};
use std::collections::HashMap;
use std::collections::HashSet;
use std::sync::Arc;
use vstd::prelude::*;

verus! {

/// Something to delete from a player's library.
#[derive(Clone, Debug)]
pub enum PlayerDelete {
    SongInPlaylist { playlist: Arc<str>, range: SingleOrRange },
    Playlist { name: String },
}

/// Something to put into the queue.
#[derive(Clone, Debug)]
pub enum Enqueue {
    File { path: String },
    Playlist { name: String },
    Find { filter: Vec<(Tag, FilterKind, String)> },
}

/// A handle that ends a player's wait for events from another thread.
pub trait PlayerBreakHandle: Send + Sync {
    type Error;

    fn break_idle(&self) -> Result<(), Self::Error>;
}

/// A player: it plays a queue of songs and keeps a library.
pub trait Player: Send + Sync {
    /// Why a request to this player failed.
    type Error;

    type BreakHandle: PlayerBreakHandle;

    /// How long to wait for the player.
    type Timeout;

    /// What a directory of the library holds.
    type LsInfo;

    type Mounts;

    type PartitionedOutput;

    type AlbumArtOrder;

    type Sticker;

    type Stickers;

    type StickersWithFile;

    type StickerFilter;

    type SaveMode;

    fn name(&self) -> &str;

    fn play(&mut self, pos: Option<usize>) -> Result<(), Self::Error>;

    fn pause(&mut self) -> Result<(), Self::Error>;

    fn pause_toggle(&mut self) -> Result<(), Self::Error>;

    fn unpause(&mut self) -> Result<(), Self::Error>;

    fn stop(&mut self) -> Result<(), Self::Error>;

    fn next(&mut self) -> Result<(), Self::Error>;

    fn prev(&mut self) -> Result<(), Self::Error>;

    fn seek_current(&mut self, value: ValueChange) -> Result<(), Self::Error>;

    fn get_status(&mut self) -> Result<Status, Self::Error>;

    fn get_current_song(&mut self) -> Result<Option<Song>, Self::Error>;

    fn get_queue(&mut self) -> Result<Vec<Song>, Self::Error>;

    fn add(&mut self, uri: &str, position: Option<QueuePosition>) -> Result<(), Self::Error>;

    fn clear_queue(&mut self) -> Result<(), Self::Error>;

    fn volume(&mut self, volume: ValueChange) -> Result<(), Self::Error>;

    fn crossfade(&mut self, seconds: u32) -> Result<(), Self::Error>;

    fn set_repeat(&mut self, enabled: bool) -> Result<(), Self::Error>;

    fn set_random(&mut self, enabled: bool) -> Result<(), Self::Error>;

    fn set_single(&mut self, single: OnOffOneshot) -> Result<(), Self::Error>;

    fn set_consume(&mut self, consume: OnOffOneshot) -> Result<(), Self::Error>;

    fn enqueue_multiple(
        &mut self,
        items: Vec<Enqueue>,
        autoplay_idx: Option<usize>,
        position: Option<QueuePosition>,
        replace: bool,
    ) -> Result<(), Self::Error>;

    fn delete_multiple(&mut self, items: Vec<PlayerDelete>) -> Result<(), Self::Error>;

    fn create_playlist(&mut self, name: &str, items: Vec<String>) -> Result<(), Self::Error>;

    fn add_to_playlist(
        &mut self,
        playlist_name: &str,
        uri: &str,
        position: Option<usize>,
    ) -> Result<(), Self::Error>;

    fn add_to_playlist_multiple(
        &mut self,
        playlist_name: &str,
        song_paths: Vec<String>,
    ) -> Result<(), Self::Error>;

    fn get_songs_info(&mut self, song_uris: Vec<String>) -> Result<Vec<Song>, Self::Error>;

    fn fetch_song_stickers(&mut self, song_uris: Vec<String>) -> Result<
        HashMap<String, HashMap<String, String>>,
        Self::Error,
    >;

    fn set_sticker_multiple(
        &mut self,
        key: &str,
        value: String,
        items: Vec<Enqueue>,
    ) -> Result<(), Self::Error>;

    fn delete_sticker_multiple(&mut self, key: &str, items: Vec<Enqueue>) -> Result<
        (),
        Self::Error,
    >;

    fn find(&mut self, filter: &[Filter]) -> Result<Vec<Song>, Self::Error>;

    fn search(&mut self, filter: &[Filter], ignore_diacritics: bool) -> Result<
        Vec<Song>,
        Self::Error,
    >;

    fn list_tag(&mut self, tag: Tag, filter: Option<&[Filter]>) -> Result<
        Vec<String>,
        Self::Error,
    >;

    fn list_all(&mut self, path: Option<&str>) -> Result<Vec<Song>, Self::Error>;

    fn lsinfo(&mut self, path: Option<&str>) -> Result<Self::LsInfo, Self::Error>;

    fn list_playlists(&mut self) -> Result<Vec<Playlist>, Self::Error>;

    fn list_playlist_info(&mut self, name: &str, range: Option<SingleOrRange>) -> Result<
        Vec<Song>,
        Self::Error,
    >;

    fn rename_playlist(&mut self, current_name: &str, new_name: &str) -> Result<(), Self::Error>;

    fn move_in_playlist(
        &mut self,
        playlist: &str,
        range: &SingleOrRange,
        new_idx: usize,
    ) -> Result<(), Self::Error>;

    fn move_output(&mut self, name: &str) -> Result<(), Self::Error>;

    fn switch_to_partition(&mut self, name: &str) -> Result<(), Self::Error>;

    fn new_partition(&mut self, name: &str) -> Result<(), Self::Error>;

    fn delete_partition(&mut self, name: &str) -> Result<(), Self::Error>;

    fn switch_to_partition_with_autocreate(&mut self, name: &str, autocreate: bool) -> Result<
        (),
        Self::Error,
    >;

    fn create_and_switch_to_partition(&mut self, name: &str) -> Result<(), Self::Error>;

    fn update(&mut self, path: Option<&str>) -> Result<Update, Self::Error>;

    fn rescan(&mut self, path: Option<&str>) -> Result<Update, Self::Error>;

    fn next_keep_state(&mut self, keep: bool, state: State) -> Result<(), Self::Error>;

    fn prev_keep_state(&mut self, keep: bool, state: State) -> Result<(), Self::Error>;

    fn add_random_songs(&mut self, count: usize, filter: Option<&[Filter]>) -> Result<
        (),
        Self::Error,
    >;

    fn add_random_tag(&mut self, count: usize, tag: Tag) -> Result<(), Self::Error>;

    fn decoders(&mut self) -> Result<Vec<Decoder>, Self::Error>;

    fn outputs(&mut self) -> Result<Vec<Output>, Self::Error>;

    fn list_partitioned_outputs(&mut self, current_partition: &str) -> Result<
        Vec<Self::PartitionedOutput>,
        Self::Error,
    >;

    fn toggle_output(&mut self, id: u32) -> Result<(), Self::Error>;

    fn toggle_output_kind(&mut self, name: &str, id: u32, kind: PartitionedOutputKind) -> Result<
        (),
        Self::Error,
    >;

    fn enable_output(&mut self, id: u32) -> Result<(), Self::Error>;

    fn disable_output(&mut self, id: u32) -> Result<(), Self::Error>;

    fn find_one(&mut self, filter: &[Filter]) -> Result<Option<Song>, Self::Error>;

    fn mount(&mut self, name: &str, path: &str) -> Result<(), Self::Error>;

    fn unmount(&mut self, name: &str) -> Result<(), Self::Error>;

    fn list_mounts(&mut self) -> Result<Self::Mounts, Self::Error>;

    fn list_partitions(&mut self) -> Result<Vec<String>, Self::Error>;

    fn find_album_art(&mut self, path: &str, order: Self::AlbumArtOrder) -> Result<
        Option<Vec<u8>>,
        Self::Error,
    >;

    fn sticker(&mut self, uri: &str, key: &str) -> Result<Option<Self::Sticker>, Self::Error>;

    fn set_sticker(&mut self, uri: &str, key: &str, value: &str) -> Result<(), Self::Error>;

    fn delete_sticker(&mut self, uri: &str, key: &str) -> Result<(), Self::Error>;

    fn delete_all_stickers(&mut self, uri: &str) -> Result<(), Self::Error>;

    fn list_stickers(&mut self, uri: &str) -> Result<Self::Stickers, Self::Error>;

    fn find_stickers(&mut self, uri: &str, key: &str, filter: Option<Self::StickerFilter>) -> Result<
        Self::StickersWithFile,
        Self::Error,
    >;

    fn send_message(&mut self, channel: &str, content: &str) -> Result<(), Self::Error>;

    fn delete_id(&mut self, id: u32) -> Result<(), Self::Error>;

    fn play_id(&mut self, id: u32) -> Result<(), Self::Error>;

    fn move_id(&mut self, id: u32, to: QueuePosition) -> Result<(), Self::Error>;

    fn move_in_queue(&mut self, from: SingleOrRange, to: QueuePosition) -> Result<(), Self::Error>;

    fn swap_positions(&mut self, swaps: Vec<(usize, usize)>) -> Result<(), Self::Error>;

    fn delete_from_queue(&mut self, songs: SingleOrRange) -> Result<(), Self::Error>;

    fn shuffle(&mut self, range: Option<SingleOrRange>) -> Result<(), Self::Error>;

    fn save_queue_as_playlist(&mut self, name: &str, mode: Option<Self::SaveMode>) -> Result<
        (),
        Self::Error,
    >;

    fn play_pos(&mut self, pos: usize) -> Result<(), Self::Error>;

    fn add_downloaded_file_to_queue(
        &mut self,
        path: &str,
        cache_dir: Option<&str>,
        position: Option<QueuePosition>,
    ) -> Result<(), Self::Error>;

    fn wait_for_event(&mut self) -> Result<Vec<IdleEvent>, Self::Error>;

    fn get_break_handle(&self) -> Result<Self::BreakHandle, Self::Error>;

    fn set_read_timeout(&mut self, timeout: Option<Self::Timeout>) -> Result<(), Self::Error>;

    fn set_write_timeout(&mut self, timeout: Option<Self::Timeout>) -> Result<(), Self::Error>;

    fn reconnect(&mut self) -> Result<(), Self::Error>;

    fn supported_commands(&self) -> HashSet<String>;

    fn version(&self) -> Version;

    fn config(&self) -> Option<MpdConfig>;
}

} // verus!
