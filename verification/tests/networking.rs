use foxtrot::networking::{start_session, wait_for_players, PeerKind, PlayerSlot, WaitOutcome};

#[test]
fn localhost_is_local() {
    let players = vec!["localhost".to_string(), "127.0.0.1:7001".to_string()];
    let (slots, handles) = start_session(&players);
    assert_eq!(slots, vec![PlayerSlot::Local, PlayerSlot::Remote]);
    assert_eq!(handles.handles, vec![0]);
}

#[test]
fn second_player_local() {
    let players = vec!["10.0.0.2:7000".to_string(), "localhost".to_string()];
    let (slots, handles) = start_session(&players);
    assert_eq!(slots, vec![PlayerSlot::Remote, PlayerSlot::Local]);
    assert_eq!(handles.handles, vec![1]);
}

#[test]
fn near_miss_is_remote() {
    let players = vec!["localhos".to_string(), "Localhost".to_string()];
    let (slots, handles) = start_session(&players);
    assert_eq!(slots, vec![PlayerSlot::Remote, PlayerSlot::Remote]);
    assert!(handles.handles.is_empty());
}

#[test]
fn both_local() {
    let players = vec!["localhost".to_string(), "localhost".to_string()];
    let (_, handles) = start_session(&players);
    assert_eq!(handles.handles, vec![0, 1]);
}

#[test]
fn waits_for_two_players() {
    assert!(matches!(wait_for_players(false, &vec![PeerKind::Local, PeerKind::Remote]), WaitOutcome::AlreadyStarted));
    assert!(matches!(wait_for_players(true, &vec![PeerKind::Local]), WaitOutcome::Waiting));
    match wait_for_players(true, &vec![PeerKind::Remote, PeerKind::Local]) {
        WaitOutcome::Start(h) => assert_eq!(h.handles, vec![1]),
        _ => panic!("expected start"),
    }
    match wait_for_players(true, &vec![PeerKind::Local, PeerKind::Spectator, PeerKind::Local]) {
        WaitOutcome::Start(h) => assert_eq!(h.handles, vec![0, 2]),
        _ => panic!("expected start"),
    }
}
