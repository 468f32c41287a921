use rune::playback::internal::PlayerInternal;
use rune::playback::model::Readiness;
use rune::playback::types::{
    Notice, PlaybackState, PlayerCommand, PlayerEvent, PlayerInput, Position, SinkOutcome,
    SinkReply, SinkRequest,
};
use std::path::PathBuf;

fn at(secs: u64) -> Position {
    Position { secs, nanos: 0 }
}

fn done(secs: u64) -> SinkReply {
    SinkReply { outcome: SinkOutcome::Done, position: at(secs) }
}

fn failed(outcome: SinkOutcome) -> SinkReply {
    SinkReply { outcome, position: at(0) }
}

fn add(id: i32, path: &str) -> PlayerInput {
    PlayerInput::Command(PlayerCommand::AddToPlaylist { id, path: PathBuf::from(path) })
}

fn two_tracks() -> PlayerInternal {
    let mut player = PlayerInternal::new();
    player.handle(0, add(10, "a.flac"), done(0));
    player.handle(0, add(20, "b.flac"), done(0));
    player
}

fn shown(events: &[PlayerEvent]) -> Vec<String> {
    events.iter().map(|e| format!("{:?}", e)).collect()
}

fn playing(id: i32, index: usize, path: &str, secs: u64) -> String {
    format!(
        "{:?}",
        PlayerEvent::Playing { id, index, path: PathBuf::from(path), position: at(secs) }
    )
}

fn end_of_track(id: i32, index: usize, path: &str) -> String {
    format!("{:?}", PlayerEvent::EndOfTrack { id, index, path: PathBuf::from(path) })
}

fn is_open(request: &SinkRequest, want_index: usize, want_path: &str) -> bool {
    match request {
        SinkRequest::Open { index, path } => {
            *index == want_index && *path == PathBuf::from(want_path)
        }
        _ => false,
    }
}

#[test]
fn play_runs_through_the_playlist() {
    let mut player = two_tracks();
    assert_eq!(player.state(), PlaybackState::Stopped);

    let play = PlayerInput::Command(PlayerCommand::Play);
    assert!(is_open(&player.plan(&play), 0, "a.flac"));
    let out = player.handle(1, play, done(0));
    assert_eq!(
        shown(&out.events),
        vec![playing(10, 0, "a.flac", 0), playing(10, 0, "a.flac", 0)]
    );
    assert_eq!(player.state(), PlaybackState::Playing);
    assert!(player.has_sink());

    let tick = PlayerInput::ProgressTick { queue_empty: false };
    assert!(matches!(player.plan(&tick), SinkRequest::Nothing));
    let out = player.handle(100, tick, done(3));
    assert_eq!(
        shown(&out.events),
        vec![format!(
            "{:?}",
            PlayerEvent::Progress {
                id: 10,
                index: 0,
                path: PathBuf::from("a.flac"),
                position: at(3)
            }
        )]
    );

    let drained = PlayerInput::ProgressTick { queue_empty: true };
    assert!(is_open(&player.plan(&drained), 1, "b.flac"));
    let out = player.handle(200, drained, done(0));
    assert_eq!(
        shown(&out.events),
        vec![end_of_track(10, 0, "a.flac"), playing(20, 1, "b.flac", 0)]
    );
    assert_eq!(player.current_track_index(), Some(1));
    assert_eq!(player.current_track_id(), Some(20));

    let drained = PlayerInput::ProgressTick { queue_empty: true };
    assert!(matches!(player.plan(&drained), SinkRequest::Stop));
    let out = player.handle(300, drained, done(0));
    assert_eq!(
        shown(&out.events),
        vec![end_of_track(20, 1, "b.flac"), format!("{:?}", PlayerEvent::EndOfPlaylist)]
    );
    assert_eq!(player.state(), PlaybackState::Stopped);
    assert!(!player.has_sink());
    assert_eq!(player.current_track_index(), None);
}

#[test]
fn moving_the_active_track_there_and_back() {
    let mut player = two_tracks();
    player.handle(1, PlayerInput::Command(PlayerCommand::Play), done(0));
    assert_eq!(player.current_track_index(), Some(0));

    let there = PlayerCommand::MovePlayListItem { old_index: 0, new_index: 1 };
    let out = player.handle(1000, PlayerInput::Command(there), done(0));
    assert!(out.events.is_empty());
    assert_eq!(player.current_track_index(), Some(1));
    assert_eq!(player.current_track_id(), Some(10));
    assert_eq!(player.playlist_ids(), vec![20, 10]);

    let back = PlayerCommand::MovePlayListItem { old_index: 1, new_index: 0 };
    let out = player.handle(1030, PlayerInput::Command(back), done(0));
    assert!(out.events.is_empty());
    assert_eq!(player.current_track_index(), Some(0));
    assert_eq!(player.debounce_started(), Some(1030));

    let early = player.handle(1060, PlayerInput::DebounceElapsed, done(0));
    assert!(early.events.is_empty());
    let due = player.handle(1090, PlayerInput::DebounceElapsed, done(0));
    assert_eq!(
        shown(&due.events),
        vec![format!("{:?}", PlayerEvent::PlaylistUpdated(vec![10, 20]))]
    );
    assert_eq!(player.debounce_started(), None);
    let again = player.handle(1200, PlayerInput::DebounceElapsed, done(0));
    assert!(again.events.is_empty());
}

#[test]
fn next_on_an_empty_playlist_does_nothing() {
    let mut player = PlayerInternal::new();
    let next = PlayerInput::Command(PlayerCommand::Next);
    assert!(matches!(player.plan(&next), SinkRequest::Nothing));
    let out = player.handle(5, next, done(0));
    assert!(out.events.is_empty());
    assert_eq!(out.notice, Some(Notice::NoTrackLoaded));
    assert_eq!(player.state(), PlaybackState::Stopped);
}

#[test]
fn load_beyond_the_playlist_is_refused() {
    let mut player = two_tracks();
    let load = PlayerInput::Command(PlayerCommand::Load { index: 5 });
    assert!(matches!(player.plan(&load), SinkRequest::Nothing));
    let out = player.handle(5, load, done(0));
    assert!(out.events.is_empty());
    assert_eq!(out.notice, Some(Notice::OutOfRange));
    assert_eq!(player.state(), PlaybackState::Stopped);
    assert_eq!(player.current_track_index(), None);
}

#[test]
fn failed_first_load_reports_id_zero() {
    let mut player = two_tracks();
    let load = PlayerInput::Command(PlayerCommand::Load { index: 1 });
    let out = player.handle(5, load, failed(SinkOutcome::OpenFailed));
    assert_eq!(
        shown(&out.events),
        vec![format!(
            "{:?}",
            PlayerEvent::Error {
                id: 0,
                index: 1,
                path: PathBuf::from("b.flac"),
                error: "Failed to open file".to_string()
            }
        )]
    );
    assert_eq!(player.state(), PlaybackState::Stopped);
    assert!(!player.has_sink());

    let load = PlayerInput::Command(PlayerCommand::Load { index: 0 });
    let out = player.handle(6, load, failed(SinkOutcome::DecodeFailed));
    assert_eq!(
        shown(&out.events),
        vec![format!(
            "{:?}",
            PlayerEvent::Error {
                id: 0,
                index: 0,
                path: PathBuf::from("a.flac"),
                error: "Failed to decode audio".to_string()
            }
        )]
    );
}

#[test]
fn scripted_run_stops_at_cancellation() {
    let mut player = PlayerInternal::new();
    let script = vec![
        Readiness { now: 0, input: add(10, "a.flac"), reply: done(0) },
        Readiness { now: 1, input: PlayerInput::Command(PlayerCommand::Play), reply: done(0) },
        Readiness { now: 2, input: PlayerInput::Cancelled, reply: done(0) },
        Readiness { now: 3, input: PlayerInput::Command(PlayerCommand::Play), reply: done(0) },
        Readiness { now: 100, input: PlayerInput::DebounceElapsed, reply: done(0) },
    ];
    let events = player.run(script);
    assert_eq!(
        shown(&events),
        vec![
            playing(10, 0, "a.flac", 0),
            playing(10, 0, "a.flac", 0),
            format!("{:?}", PlayerEvent::Stopped)
        ]
    );
    assert!(player.is_finished());
    assert_eq!(player.state(), PlaybackState::Stopped);
}

fn well_formed(player: &PlayerInternal) {
    if let Some(cursor) = player.cursor() {
        assert!(cursor.index < player.playlist().len());
        assert_eq!(player.playlist()[cursor.index].id, cursor.id);
        assert_eq!(player.playlist()[cursor.index].path, cursor.path);
    }
    match player.state() {
        PlaybackState::Playing | PlaybackState::Paused => {
            assert!(player.has_sink());
            assert!(player.cursor().is_some());
        }
        PlaybackState::Stopped => assert!(!player.has_sink()),
    }
    if player.is_finished() {
        assert_eq!(player.state(), PlaybackState::Stopped);
    }
}

fn input_number(k: u64, size: usize) -> PlayerInput {
    let a = (k / 16) as usize % (size + 2);
    let b = (k / 256) as usize % (size + 2);
    match k % 16 {
        0 => PlayerInput::Command(PlayerCommand::Load { index: a }),
        1 => PlayerInput::Command(PlayerCommand::Play),
        2 => PlayerInput::Command(PlayerCommand::Pause),
        3 => PlayerInput::Command(PlayerCommand::Stop),
        4 => PlayerInput::Command(PlayerCommand::Next),
        5 => PlayerInput::Command(PlayerCommand::Previous),
        6 => PlayerInput::Command(PlayerCommand::Switch(a)),
        7 => PlayerInput::Command(PlayerCommand::Seek(k)),
        8 | 9 => PlayerInput::Command(PlayerCommand::AddToPlaylist {
            id: (k % 7) as i32,
            path: PathBuf::from(format!("{}.flac", k % 7)),
        }),
        10 => PlayerInput::Command(PlayerCommand::RemoveFromPlaylist { index: a }),
        11 => PlayerInput::Command(PlayerCommand::MovePlayListItem { old_index: a, new_index: b }),
        12 => PlayerInput::ProgressTick { queue_empty: k % 32 < 16 },
        13 => PlayerInput::ProgressTick { queue_empty: false },
        14 => PlayerInput::DebounceElapsed,
        _ => {
            if k % 4096 == 15 {
                PlayerInput::Command(PlayerCommand::ClearPlaylist)
            } else {
                PlayerInput::Command(PlayerCommand::MovePlayListItem { old_index: b, new_index: a })
            }
        }
    }
}

#[test]
fn the_invariant_holds_between_any_two_inputs() {
    let mut player = PlayerInternal::new();
    let mut seed: u64 = 0x2545_f491_4f6c_dd1d;
    let mut updates = 0;
    for turn in 0..20_000u64 {
        seed ^= seed << 13;
        seed ^= seed >> 7;
        seed ^= seed << 17;
        let input = input_number(seed >> 11, player.playlist().len());
        let outcome = match (seed >> 5) % 5 {
            0 => SinkOutcome::OpenFailed,
            1 => SinkOutcome::DecodeFailed,
            2 => SinkOutcome::SeekFailed,
            _ => SinkOutcome::Done,
        };
        let request = player.plan(&input);
        let had_sink = player.has_sink();
        let reply = SinkReply { outcome, position: at(turn) };
        let pending = player.debounce_started();
        let out = player.handle(turn * 7, input, reply);
        well_formed(&player);
        match request {
            SinkRequest::Open { index, path } => {
                assert_eq!(player.has_sink(), outcome == SinkOutcome::Done);
                assert_eq!(player.playlist()[index].path, path);
                if outcome == SinkOutcome::Done {
                    assert_eq!(player.current_track_index(), Some(index));
                    assert_eq!(player.cursor().clone().unwrap().path, path);
                }
            }
            SinkRequest::Stop => assert!(had_sink && !player.has_sink()),
            SinkRequest::Nothing => assert_eq!(player.has_sink(), had_sink),
            _ => assert!(had_sink && player.has_sink()),
        }
        for event in &out.events {
            if let PlayerEvent::PlaylistUpdated(ids) = event {
                assert_eq!(out.events.len(), 1);
                assert_eq!(*ids, player.playlist_ids());
                assert!(turn * 7 >= pending.unwrap() + 60);
                assert_eq!(player.debounce_started(), None);
                updates += 1;
            }
        }
    }
    assert!(updates > 0);
    assert!(!player.is_finished());
    player.handle(1_000_000, PlayerInput::Cancelled, done(0));
    well_formed(&player);
    assert!(player.is_finished());
}
