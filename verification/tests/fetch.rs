use bytes::BytesMut;
use mpd_notify::fetch::{
    ArtChunk, ArtRequest, ArtSource, FetchError, FetchProgress, FetchState,
};

fn chunk(data: &[u8], size: usize) -> Option<ArtChunk> {
    Some(ArtChunk { data: BytesMut::from(data), size })
}

fn pattern(len: usize) -> Vec<u8> {
    (0..len).map(|i| (i * 7 % 251) as u8).collect()
}

fn expect_continue(r: Result<FetchProgress, FetchError>) -> FetchState {
    match r {
        Ok(FetchProgress::Continue(state)) => state,
        other => panic!("expected another request, got {:?}", other),
    }
}

#[test]
fn session_starts_with_the_file_backed_source() {
    let state = FetchState::new();
    assert_eq!(state, FetchState::ProbingFile);
    assert_eq!(state.request(), ArtRequest { source: ArtSource::FileBacked, offset: 0 });
    assert_eq!(state.received(), 0);
}

#[test]
fn two_chunks_of_file_backed_art() {
    let art = pattern(5000);
    let state = FetchState::new();
    let state = expect_continue(state.step(chunk(&art[..3000], 5000)));
    assert_eq!(state.request(), ArtRequest { source: ArtSource::FileBacked, offset: 3000 });
    assert_eq!(state.received(), 3000);
    match state.step(chunk(&art[3000..], 5000)) {
        Ok(FetchProgress::Complete { source, art: fetched }) => {
            assert_eq!(source, ArtSource::FileBacked);
            assert_eq!(fetched.len(), 5000);
            assert_eq!(&fetched[..], &art[..]);
        },
        other => panic!("expected the picture, got {:?}", other),
    }
}

#[test]
fn embedded_art_after_the_file_backed_source_had_none() {
    let art = pattern(700);
    let state = expect_continue(FetchState::new().step(None));
    assert_eq!(state, FetchState::ProbingEmbedded);
    assert_eq!(state.request(), ArtRequest { source: ArtSource::Embedded, offset: 0 });
    let state = expect_continue(state.step(chunk(&art[..300], 700)));
    assert_eq!(state.request(), ArtRequest { source: ArtSource::Embedded, offset: 300 });
    let state = expect_continue(state.step(chunk(&art[300..600], 700)));
    assert_eq!(state.request(), ArtRequest { source: ArtSource::Embedded, offset: 600 });
    match state.step(chunk(&art[600..], 700)) {
        Ok(FetchProgress::Complete { source, art: fetched }) => {
            assert_eq!(source, ArtSource::Embedded);
            assert_eq!(&fetched[..], &art[..]);
        },
        other => panic!("expected the picture, got {:?}", other),
    }
}

#[test]
fn no_art_from_either_source_is_absence() {
    let state = expect_continue(FetchState::new().step(None));
    assert_eq!(state.step(None), Ok(FetchProgress::Absent));
}

#[test]
fn silence_during_a_transfer_is_truncation() {
    let state = expect_continue(FetchState::new().step(chunk(&[1, 2, 3], 10)));
    assert_eq!(
        state.step(None),
        Err(FetchError::Truncated { source: ArtSource::FileBacked, received: 3, expected: 10 })
    );
}

#[test]
fn silence_during_an_embedded_transfer_is_truncation() {
    let state = expect_continue(FetchState::new().step(None));
    let state = expect_continue(state.step(chunk(&[1, 2, 3, 4], 9)));
    assert_eq!(
        state.step(None),
        Err(FetchError::Truncated { source: ArtSource::Embedded, received: 4, expected: 9 })
    );
}

#[test]
fn art_of_size_zero_is_present_and_empty() {
    match FetchState::new().step(chunk(&[], 0)) {
        Ok(FetchProgress::Complete { source, art }) => {
            assert_eq!(source, ArtSource::FileBacked);
            assert!(art.is_empty());
        },
        other => panic!("expected the picture, got {:?}", other),
    }
}

#[test]
fn embedded_art_of_size_zero_is_present_and_empty() {
    let state = expect_continue(FetchState::new().step(None));
    match state.step(chunk(&[], 0)) {
        Ok(FetchProgress::Complete { source, art }) => {
            assert_eq!(source, ArtSource::Embedded);
            assert!(art.is_empty());
        },
        other => panic!("expected the picture, got {:?}", other),
    }
}

#[test]
fn one_chunk_that_holds_everything() {
    let art = pattern(64);
    assert_eq!(
        FetchState::new().step(chunk(&art, 64)),
        Ok(FetchProgress::Complete { source: ArtSource::FileBacked, art: BytesMut::from(&art[..]) })
    );
}

#[test]
fn a_chunk_beyond_the_total_ends_the_transfer() {
    let state = expect_continue(FetchState::new().step(chunk(&[1, 2, 3], 5)));
    match state.step(chunk(&[4, 5, 6, 7], 5)) {
        Ok(FetchProgress::Complete { art, .. }) => assert_eq!(&art[..], &[1, 2, 3, 4, 5, 6, 7]),
        other => panic!("expected the picture, got {:?}", other),
    }
}

#[test]
fn an_empty_chunk_asks_for_the_same_offset_again() {
    let state = expect_continue(FetchState::new().step(chunk(&[1, 2, 3], 5)));
    let state = expect_continue(state.step(chunk(&[], 5)));
    assert_eq!(state.request(), ArtRequest { source: ArtSource::FileBacked, offset: 3 });
}

#[test]
fn the_total_is_the_one_of_the_first_chunk() {
    let state = expect_continue(FetchState::new().step(chunk(&[1, 2], 4)));
    let state = expect_continue(state.step(chunk(&[3], 100)));
    match state.step(chunk(&[4], 1)) {
        Ok(FetchProgress::Complete { art, .. }) => assert_eq!(&art[..], &[1, 2, 3, 4]),
        other => panic!("expected the picture, got {:?}", other),
    }
}

#[test]
fn a_transfer_stays_with_its_source() {
    let art = pattern(1000);
    let mut state = FetchState::new();
    let mut sources = Vec::new();
    let mut offset = 0;
    loop {
        let request = state.request();
        sources.push(request.source);
        assert_eq!(request.offset, offset);
        let end = offset + 100;
        match state.step(chunk(&art[offset..end], 1000)) {
            Ok(FetchProgress::Continue(next)) => state = next,
            Ok(FetchProgress::Complete { source, art: fetched }) => {
                assert_eq!(source, ArtSource::FileBacked);
                assert_eq!(&fetched[..], &art[..]);
                break;
            },
            other => panic!("unexpected {:?}", other),
        }
        offset = end;
    }
    assert_eq!(sources.len(), 10);
    assert!(sources.iter().all(|s| *s == ArtSource::FileBacked));
}

#[test]
fn an_embedded_transfer_never_asks_the_file_backed_source_again() {
    let art = pattern(30);
    let mut state = expect_continue(FetchState::new().step(None));
    let mut offset = 0;
    loop {
        assert_eq!(state.request(), ArtRequest { source: ArtSource::Embedded, offset });
        match state.step(chunk(&art[offset..offset + 10], 30)) {
            Ok(FetchProgress::Continue(next)) => state = next,
            Ok(FetchProgress::Complete { source, .. }) => {
                assert_eq!(source, ArtSource::Embedded);
                break;
            },
            other => panic!("unexpected {:?}", other),
        }
        offset += 10;
    }
    assert_eq!(offset, 20);
}

#[test]
fn checked_step_takes_what_fits() {
    let state = FetchState::new();
    assert!(state.fits(&chunk(&[1, 2, 3], 3)));
    assert!(state.fits(&None));
    assert_eq!(
        state.checked_step(chunk(&[1, 2, 3], 3)),
        Some(Ok(FetchProgress::Complete {
            source: ArtSource::FileBacked,
            art: BytesMut::from(&[1u8, 2, 3][..]),
        }))
    );
}

#[test]
fn checked_step_reports_truncation() {
    let state = expect_continue(FetchState::new().step(chunk(&[1], 2)));
    assert_eq!(
        state.checked_step(None),
        Some(Err(FetchError::Truncated {
            source: ArtSource::FileBacked,
            received: 1,
            expected: 2,
        }))
    );
}
