use bytes::BytesMut;
use mpd_notify::mpd::{PlayState, SongInfo, Track};

fn track(state: PlayState) -> Track {
    Track {
        state,
        artists: vec![String::from("Alice"), String::from("Bob")],
        album: Some(String::from("Record")),
        title: Some(String::from("Tune")),
        album_art: Some(BytesMut::from(&b"art"[..])),
    }
}

#[test]
fn no_track_gives_the_stopped_snapshot() {
    let song = SongInfo::new(None);
    assert_eq!(song.state, PlayState::Stopped);
    assert_eq!(song.artist, "");
    assert_eq!(song.album, "");
    assert_eq!(song.title, "");
    assert_eq!(song.album_art, None);
    assert_eq!(song, SongInfo::stopped());
}

#[test]
fn playing_track_is_taken_over() {
    let song = SongInfo::new(Some(track(PlayState::Playing)));
    assert_eq!(song.state, PlayState::Playing);
    assert_eq!(song.artist, "Alice, Bob");
    assert_eq!(song.album, "Record");
    assert_eq!(song.title, "Tune");
    assert_eq!(song.album_art, Some(BytesMut::from(&b"art"[..])));
}

#[test]
fn paused_track_is_taken_over() {
    let song = SongInfo::new(Some(track(PlayState::Paused)));
    assert_eq!(song.state, PlayState::Paused);
    assert_eq!(song.artist, "Alice, Bob");
    assert_eq!(song.album_art, Some(BytesMut::from(&b"art"[..])));
}

#[test]
fn stopped_player_with_a_track_gives_the_stopped_snapshot() {
    let song = SongInfo::new(Some(track(PlayState::Stopped)));
    assert_eq!(song, SongInfo::stopped());
}

#[test]
fn missing_tags_are_empty() {
    let song = SongInfo::new(Some(Track {
        state: PlayState::Playing,
        artists: Vec::new(),
        album: None,
        title: None,
        album_art: None,
    }));
    assert_eq!(song.state, PlayState::Playing);
    assert_eq!(song.artist, "");
    assert_eq!(song.album, "");
    assert_eq!(song.title, "");
    assert_eq!(song.album_art, None);
}

#[test]
fn one_artist_has_no_separator() {
    let song = SongInfo::new(Some(Track {
        state: PlayState::Playing,
        artists: vec![String::from("Solo")],
        album: None,
        title: None,
        album_art: None,
    }));
    assert_eq!(song.artist, "Solo");
}

#[test]
fn three_artists_are_separated_by_comma_and_space() {
    let song = SongInfo::new(Some(Track {
        state: PlayState::Playing,
        artists: vec![String::from("A"), String::from(""), String::from("C")],
        album: None,
        title: None,
        album_art: None,
    }));
    assert_eq!(song.artist, "A, , C");
}

#[test]
fn summary_names_the_state() {
    assert_eq!(SongInfo::stopped().summary(), "Stopped");
    assert_eq!(SongInfo::new(Some(track(PlayState::Playing))).summary(), "Playing:");
    assert_eq!(SongInfo::new(Some(track(PlayState::Paused))).summary(), "Paused:");
}

#[test]
fn body_has_three_lines() {
    let song = SongInfo::new(Some(track(PlayState::Playing)));
    assert_eq!(song.body(), "<b>Tune</b>\nAlice, Bob\nRecord");
}

#[test]
fn body_of_the_stopped_snapshot_is_the_bare_template() {
    assert_eq!(SongInfo::stopped().body(), "<b></b>\n\n");
}
