//! A snapshot of what the player is doing at one instant.

use vstd::prelude::*;
use vstd::string::*;
use crate::buffer::contents;

verus! {

/// The player's playback state.
#[derive(Debug, Clone, Copy, PartialEq, Eq, Structural)]
pub enum PlayState {
    Stopped,
    Playing,
    Paused,
}

/// What the player reports while it has a current track.
#[derive(Debug, PartialEq, Eq)]
pub struct Track {
    pub state: PlayState,
    /// The track's artists, in the order of its tags.
    pub artists: Vec<String>,
    pub album: Option<String>,
    pub title: Option<String>,
    /// The track's art, if it has any.
    pub album_art: Option<bytes::BytesMut>,
}

/// The player's state at one instant, ready to be rendered.
#[derive(Debug, PartialEq, Eq)]
pub struct SongInfo {
    pub state: PlayState,
    /// The artists, separated by a comma and a space; empty if there are none.
    pub artist: String,
    /// Empty if the track has no album.
    pub album: String,
    /// Empty if the track has no title.
    pub title: String,
    pub album_art: Option<bytes::BytesMut>,
}

/// `parts` in order, with `sep` between neighbours.
pub open spec fn joined(parts: Seq<Seq<char>>, sep: Seq<char>) -> Seq<char>
    decreases parts.len(),
{
    if parts.len() == 0 {
        Seq::empty()
    } else if parts.len() == 1 {
        parts[0]
    } else {
        joined(parts.drop_last(), sep) + sep + parts.last()
    }
}

/// The text of an optional tag: empty where the tag is missing.
pub open spec fn text_or_empty(tag: Option<String>) -> Seq<char> {
    match tag {
        Some(text) => text@,
        None => Seq::empty(),
    }
}

/// The bytes of optional art.
pub open spec fn art_view(art: Option<bytes::BytesMut>) -> Option<Seq<u8>> {
    match art {
        Some(bytes) => Some(contents(bytes)),
        None => None,
    }
}

/// The headline for a playback state.
pub open spec fn summary_text(state: PlayState) -> Seq<char> {
    match state {
        PlayState::Stopped => "Stopped"@,
        PlayState::Playing => "Playing:"@,
        PlayState::Paused => "Paused:"@,
    }
}

/// Three lines: the title in bold, the artist, the album.
pub open spec fn body_text(title: Seq<char>, artist: Seq<char>, album: Seq<char>) -> Seq<char> {
    "<b>"@ + title + "</b>\n"@ + artist + "\n"@ + album
}

impl SongInfo {
    /// Whether the snapshot is the one of a player without a track: stopped,
    /// with no text and no art.
    pub open spec fn is_blank(&self) -> bool {
        &&& self.state == PlayState::Stopped
        &&& self.artist@.len() == 0
        &&& self.album@.len() == 0
        &&& self.title@.len() == 0
        &&& self.album_art is None
    }

    /// A stopped snapshot carries neither text nor art.
    pub open spec fn wf(&self) -> bool {
        self.state == PlayState::Stopped ==> self.is_blank()
    }

    /// The snapshot of a player that has no track.
    pub fn stopped() -> (song: SongInfo)
        ensures
            song.is_blank(),
            song.wf(),
    {
        SongInfo {
            state: PlayState::Stopped,
            artist: String::new(),
            album: String::new(),
            title: String::new(),
            album_art: None,
        }
    }

    /// The snapshot for what the player reports of its current track, if it
    /// has one. Without a track the snapshot is the stopped one, whatever
    /// was shown before; so it is when the player reports a track and
    /// says that it has stopped.
    pub fn new(current: Option<Track>) -> (song: SongInfo)
        ensures
            song.wf(),
            match current {
                None => song.is_blank(),
                Some(track) => if track.state == PlayState::Stopped {
                    song.is_blank()
                } else {
                    &&& song.state == track.state
                    &&& song.artist@ == joined(track.artists.deep_view(), ", "@)
                    &&& song.album@ == text_or_empty(track.album)
                    &&& song.title@ == text_or_empty(track.title)
                    &&& art_view(song.album_art) == art_view(track.album_art)
                },
            },
    {
        match current {
            None => SongInfo::stopped(),
            Some(track) => {
                let Track { state, artists, album, title, album_art } = track;
                match state {
                    PlayState::Stopped => SongInfo::stopped(),
                    _ => SongInfo {
                        state,
                        artist: join_artists(&artists),
                        album: unwrap_or_empty(album),
                        title: unwrap_or_empty(title),
                        album_art,
                    },
                }
            },
        }
    }

    /// The notification's headline.
    pub fn summary(&self) -> (text: String)
        ensures
            text@ == summary_text(self.state),
    {
        match self.state {
            PlayState::Stopped => String::from_str("Stopped"),
            PlayState::Playing => String::from_str("Playing:"),
            PlayState::Paused => String::from_str("Paused:"),
        }
    }

    /// The notification's text: the title in bold, then the artist, then
    /// the album, each on a line of its own.
    pub fn body(&self) -> (text: String)
        ensures
            text@ == body_text(self.title@, self.artist@, self.album@),
    {
        let mut text = String::from_str("<b>");
        text.append(self.title.as_str());
        text.append("</b>\n");
        text.append(self.artist.as_str());
        text.append("\n");
        text.append(self.album.as_str());
        text
    }
}

/// The text of an optional tag.
fn unwrap_or_empty(tag: Option<String>) -> (text: String)
    ensures
        text@ == text_or_empty(tag),
{
    match tag {
        Some(text) => text,
        None => String::new(),
    }
}

/// The artists in one line, separated by a comma and a space.
fn join_artists(artists: &Vec<String>) -> (line: String)
    ensures
        line@ == joined(artists.deep_view(), ", "@),
{
    let ghost parts = artists.deep_view();
    let mut line = String::new();
    let mut i: usize = 0;
    while i < artists.len()
        invariant
            i <= artists.len(),
            parts == artists.deep_view(),
            parts.len() == artists.len(),
            line@ == joined(parts.take(i as int), ", "@),
        decreases artists.len() - i,
    {
        assert(parts.take(i + 1).drop_last() =~= parts.take(i as int));
        if i > 0 {
            line.append(", ");
        }
        line.append(artists[i].as_str());
        i += 1;
    }
    assert(parts.take(i as int) =~= parts);
    line
}

} // verus!
