//! The names of tracks.

use crate::text;
use rspotify::prelude::Id;
use vstd::prelude::*;

verus! {

/// Why the Web API's library does not take a text for the name of a track.
#[verifier::external_type_specification]
#[verifier::external_body]
pub struct ExIdError(rspotify::model::IdError);

/// `uri` is `prefix` and an id, which has only ASCII letters and digits.
pub open spec fn names_track(uri: Seq<char>, prefix: Seq<char>) -> bool {
    &&& prefix.len() <= uri.len()
    &&& uri.take(prefix.len() as int) == prefix
    &&& text::is_ascii_word(uri.skip(prefix.len() as int))
}

/// The id in the name of a track, which is written `spotify:track:id` or
/// `spotify/track/id`.
#[verifier::opaque]
pub open spec fn track_id_of(uri: Seq<char>) -> Option<Seq<char>> {
    if names_track(uri, "spotify:track:"@) {
        Some(uri.skip("spotify:track:"@.len() as int))
    } else if names_track(uri, "spotify/track/"@) {
        Some(uri.skip("spotify/track/"@.len() as int))
    } else {
        None
    }
}

/// The name of the track with this id.
pub open spec fn track_uri_of(id: Seq<char>) -> Seq<char> {
    "spotify:track:"@ + id
}

/// The name of the track with this id.
pub fn track_uri(id: &str) -> (r: String)
    ensures
        r@ == track_uri_of(id@),
{
    let mut uri = String::from_str("spotify:track:");
    uri.append(id);
    uri
}

/// Reads the name of a track with `rspotify::model::TrackId::from_uri`.
///
/// Taken on trust: that function accepts exactly the texts `spotify:track:`
/// and `spotify/track/` with ASCII letters and digits behind them, of which
/// there may be none, and finds in them what stands behind the prefix. Which
/// of its errors it gives for another text is left open.
#[verifier::external_body]
fn read_track_id(uri: &str) -> (r: Result<String, rspotify::model::IdError>)
    ensures
        match r {
            Ok(id) => track_id_of(uri@) == Some(id@),
            Err(_) => track_id_of(uri@) is None,
        },
{
    match rspotify::model::TrackId::from_uri(uri) {
        Ok(id) => Ok(id.id().to_owned()),
        Err(e) => Err(e),
    }
}

/// The id in the name of a track.
pub fn track_id(uri: &str) -> (r: Option<String>)
    ensures
        match r {
            Some(id) => track_id_of(uri@) == Some(id@),
            None => track_id_of(uri@) is None,
        },
{
    match read_track_id(uri) {
        Ok(id) => Some(id),
        Err(_) => None,
    }
}

/// The value of a character as a digit in base 62.
pub open spec fn digit_of(c: char) -> nat {
    if '0' <= c <= '9' {
        (c as u32 - '0' as u32) as nat
    } else if 'a' <= c <= 'z' {
        (c as u32 - 'a' as u32 + 10) as nat
    } else {
        (c as u32 - 'A' as u32 + 36) as nat
    }
}

/// The number that an id writes in base 62.
pub open spec fn id_value(id: Seq<char>) -> nat
    decreases id.len(),
{
    if id.len() == 0 {
        0
    } else {
        id_value(id.drop_last()) * 62 + digit_of(id.last())
    }
}

/// `id` is a complete id: it has 22 ASCII letters and digits, and as a number
/// in base 62 it fits into 128 bits.
pub open spec fn is_complete_id(id: Seq<char>) -> bool {
    id.len() == 22 && text::is_ascii_word(id) && id_value(id) <= u128::MAX
}

/// What the playback library says of a text that does not name a track.
pub uninterp spec fn accepts_uri(uri: Seq<char>) -> bool;

/// Whether `uri` can be loaded, given what the playback library says of it
/// where it does not name a track: the name of a track has to be written with
/// colons and to hold a complete id.
#[verifier::opaque]
pub open spec fn loads(uri: Seq<char>, accepted: bool) -> bool {
    if names_track(uri, "spotify:track:"@) {
        is_complete_id(uri.skip("spotify:track:"@.len() as int))
    } else if names_track(uri, "spotify/track/"@) {
        false
    } else {
        accepted
    }
}

/// The playback library takes `uri` for the name of something to load.
pub open spec fn is_loadable(uri: Seq<char>) -> bool {
    loads(uri, accepts_uri(uri))
}

/// Whether the playback library takes a text for the name of something to load.
///
/// Taken on trust: `librespot::core::SpotifyUri::from_uri` accepts the name of
/// a track exactly if it is written with colons and its id is complete.
/// Whether it accepts another text depends on the text alone.
#[verifier::external_body]
pub(crate) fn can_load(uri: &str) -> (r: bool)
    ensures
        r == loads(uri@, accepts_uri(uri@)),
{
    librespot::core::SpotifyUri::from_uri(uri).is_ok()
}

/// The name of a track leads back to its id, and so does the other way to
/// write it.
pub proof fn law_names_lead_back_to_ids(id: Seq<char>)
    requires
        text::is_ascii_word(id),
    ensures
        track_id_of(track_uri_of(id)) == Some(id),
        track_id_of("spotify/track/"@ + id) == Some(id),
{
    reveal(track_id_of);
    reveal_strlit("spotify:track:");
    reveal_strlit("spotify/track/");
    let colon = "spotify:track:"@;
    let slash = "spotify/track/"@;
    assert((colon + id).take(colon.len() as int) == colon);
    assert((colon + id).skip(colon.len() as int) == id);
    assert((slash + id).take(slash.len() as int) == slash);
    assert((slash + id).skip(slash.len() as int) == id);
    assert((slash + id).take(colon.len() as int)[7] != colon[7]);
}

/// The name of a track with a complete id can be read and loaded.
pub proof fn law_complete_ids_can_be_loaded(id: Seq<char>)
    requires
        is_complete_id(id),
    ensures
        track_id_of(track_uri_of(id)) == Some(id),
        is_loadable(track_uri_of(id)),
{
    law_names_lead_back_to_ids(id);
    reveal(loads);
    reveal_strlit("spotify:track:");
    let colon = "spotify:track:"@;
    assert((colon + id).take(colon.len() as int) == colon);
    assert((colon + id).skip(colon.len() as int) == id);
}

} // verus!
