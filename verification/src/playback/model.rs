//! The engine as a mathematical state machine: its state, the sink operation
//! each input calls for, and the transition each input makes.

use super::types::{
    Notice, PlaybackState, PlayerCommand, PlayerEvent, PlayerEventView, PlayerInput, PlaylistItem,
    Position, SinkOutcome, SinkReply, SinkRequest,
};
use std::path::PathBuf;
use vstd::prelude::*;

verus! {

/// How long after the last change to the playlist its notification is due,
/// in milliseconds.
pub const DEBOUNCE_MS: u64 = 60;

/// The track that is loaded: its place in the playlist and the id and path
/// found there.
#[derive(Debug, Clone)]
pub struct TrackCursor {
    pub index: usize,
    pub id: i32,
    pub path: PathBuf,
}

/// The engine's state.
#[verifier::ext_equal]
pub struct PlayerModel {
    /// The tracks in play order.
    pub playlist: Seq<PlaylistItem>,
    /// The loaded track, if any.
    pub cursor: Option<TrackCursor>,
    /// Whether the loop holds a sink.
    pub has_sink: bool,
    pub state: PlaybackState,
    /// When the playlist last changed, if that change is not announced yet.
    pub debounce_started: Option<u64>,
    /// Whether cancellation has been handled.
    pub finished: bool,
}

/// What one input does: the state it leaves, the events it emits in order,
/// and the reason if it was refused.
#[verifier::ext_equal]
pub struct Step {
    pub next: PlayerModel,
    pub events: Seq<PlayerEventView>,
    pub notice: Option<Notice>,
}

/// The id column of a playlist.
pub open spec fn ids_of(playlist: Seq<PlaylistItem>) -> Seq<i32> {
    Seq::new(playlist.len(), |i: int| playlist[i].id)
}

/// The views of a run of events.
pub open spec fn events_view(events: Seq<PlayerEvent>) -> Seq<PlayerEventView> {
    Seq::new(events.len(), |i: int| events[i]@)
}

/// The sequence with the element at `from` taken out and put back at `to`.
pub open spec fn moved<T>(s: Seq<T>, from: int, to: int) -> Seq<T> {
    s.remove(from).insert(to, s[from])
}

/// Where the element at `c` stands after the element at `from` has moved to
/// `to`.
pub open spec fn index_after_move(c: int, from: int, to: int) -> int {
    if from == c {
        to
    } else if from < c && to >= c {
        c - 1
    } else if from > c && to <= c {
        c + 1
    } else {
        c
    }
}

/// The text of the error event for a load that ended in `outcome`.
pub open spec fn failure_message(outcome: SinkOutcome) -> Seq<char> {
    if outcome == SinkOutcome::DecodeFailed {
        "Failed to decode audio"@
    } else {
        "Failed to open file"@
    }
}

impl PlayerModel {
    /// The state of a new engine: nothing queued, nothing loaded, stopped.
    pub open spec fn initial() -> PlayerModel {
        PlayerModel {
            playlist: Seq::empty(),
            cursor: None,
            has_sink: false,
            state: PlaybackState::Stopped,
            debounce_started: None,
            finished: false,
        }
    }

    /// What holds between any two inputs: the cursor lies inside the
    /// playlist and agrees with the entry it points at; a sink exists
    /// exactly when the engine is not stopped, and only with a cursor; a
    /// finished engine holds no sink.
    pub open spec fn inv(self) -> bool {
        &&& self.playlist.len() <= usize::MAX
        &&& self.cursor matches Some(c) ==> {
            &&& c.index < self.playlist.len()
            &&& self.playlist[c.index as int].id == c.id
            &&& self.playlist[c.index as int].path == c.path
        }
        &&& self.has_sink ==> self.cursor is Some
        &&& self.has_sink <==> self.state != PlaybackState::Stopped
        &&& self.finished ==> !self.has_sink
    }

    /// The instant at which the pending notification is due.
    pub open spec fn deadline(self) -> Option<int> {
        match self.debounce_started {
            Some(t) => Some(t + DEBOUNCE_MS),
            None => None,
        }
    }

    /// A cursor on the entry at `index`.
    pub open spec fn cursor_at(self, index: int) -> TrackCursor {
        TrackCursor {
            index: index as usize,
            id: self.playlist[index].id,
            path: self.playlist[index].path,
        }
    }

    /// The state with the notification rescheduled from `now`.
    pub open spec fn scheduled(self, now: u64) -> PlayerModel {
        PlayerModel { debounce_started: Some(now), ..self }
    }

    /// The state with the sink released, the cursor dropped and the engine
    /// stopped.
    pub open spec fn halted(self) -> PlayerModel {
        PlayerModel { cursor: None, has_sink: false, state: PlaybackState::Stopped, ..self }
    }

    /// A step that changes nothing and emits nothing.
    pub open spec fn ignore(self, notice: Option<Notice>) -> Step {
        Step { next: self, events: Seq::empty(), notice }
    }

    /// Whether opening the entry at `index` is possible and went well.
    pub open spec fn load_succeeds(self, index: int, reply: SinkReply) -> bool {
        0 <= index < self.playlist.len() && reply.outcome == SinkOutcome::Done
    }

    /// `Load(index)`: out of range, nothing happens. Else the entry is
    /// opened; on success the cursor moves there and the engine plays from
    /// the start; on failure the engine stops without a sink and reports the
    /// error under the id of the cursor, or 0 where no cursor is set.
    pub open spec fn load(self, index: int, reply: SinkReply) -> Step {
        if !(0 <= index < self.playlist.len()) {
            self.ignore(Some(Notice::OutOfRange))
        } else if reply.outcome == SinkOutcome::Done {
            let c = self.cursor_at(index);
            Step {
                next: PlayerModel {
                    cursor: Some(c),
                    has_sink: true,
                    state: PlaybackState::Playing,
                    ..self
                },
                events: seq![
                    PlayerEventView::Playing {
                        id: c.id,
                        index: c.index,
                        path: c.path,
                        position: Position::zero_spec(),
                    },
                ],
                notice: None,
            }
        } else {
            Step {
                next: PlayerModel { has_sink: false, state: PlaybackState::Stopped, ..self },
                events: seq![
                    PlayerEventView::Error {
                        id: match self.cursor {
                            Some(c) => c.id,
                            None => 0i32,
                        },
                        index: index as usize,
                        path: self.playlist[index].path,
                        error: failure_message(reply.outcome),
                    },
                ],
                notice: None,
            }
        }
    }

    /// The cursor is put on the entry at `index`, which lies in the
    /// playlist, and that entry is loaded.
    pub open spec fn jump(self, index: int, reply: SinkReply) -> Step {
        PlayerModel { cursor: Some(self.cursor_at(index)), ..self }.load(index, reply)
    }

    /// `Play`: with a sink, resume it. Without one, load the first entry
    /// and, if that went well, play it.
    pub open spec fn play(self, reply: SinkReply) -> Step {
        if self.has_sink {
            self.resume()
        } else if self.load_succeeds(0, reply) {
            let loaded = self.load(0, reply);
            let resumed = loaded.next.resume();
            Step { next: resumed.next, events: loaded.events + resumed.events, notice: None }
        } else {
            self.load(0, reply)
        }
    }

    /// The sink resumes: a `Playing` event at the start, and the engine
    /// plays.
    pub open spec fn resume(self) -> Step {
        let c = self.cursor->0;
        Step {
            next: PlayerModel { state: PlaybackState::Playing, ..self },
            events: seq![
                PlayerEventView::Playing {
                    id: c.id,
                    index: c.index,
                    path: c.path,
                    position: Position::zero_spec(),
                },
            ],
            notice: None,
        }
    }

    /// `Pause`: with a sink, a `Paused` event at the sink's position;
    /// without one, nothing.
    pub open spec fn pause(self, reply: SinkReply) -> Step {
        if self.has_sink {
            let c = self.cursor->0;
            Step {
                next: PlayerModel { state: PlaybackState::Paused, ..self },
                events: seq![
                    PlayerEventView::Paused {
                        id: c.id,
                        index: c.index,
                        path: c.path,
                        position: reply.position,
                    },
                ],
                notice: None,
            }
        } else {
            self.ignore(None)
        }
    }

    /// `Stop`: with a sink, it is released, the cursor is dropped and
    /// `Stopped` is emitted; without one, nothing.
    pub open spec fn stop(self) -> Step {
        if self.has_sink {
            Step { next: self.halted(), events: seq![PlayerEventView::Stopped], notice: None }
        } else {
            self.ignore(Some(Notice::NoTrackLoaded))
        }
    }

    /// `Next`: with the cursor before the last entry, jump one entry on.
    /// With the cursor on the last entry, the playlist has ended: the engine
    /// stops and drops the cursor. Without a cursor, nothing.
    pub open spec fn next(self, reply: SinkReply) -> Step {
        match self.cursor {
            Some(c) => {
                if c.index + 1 < self.playlist.len() {
                    self.jump(c.index + 1, reply)
                } else {
                    Step {
                        next: self.halted(),
                        events: seq![PlayerEventView::EndOfPlaylist],
                        notice: None,
                    }
                }
            },
            None => self.ignore(Some(Notice::NoTrackLoaded)),
        }
    }

    /// `Previous`: with the cursor behind the first entry, jump one entry
    /// back; else nothing.
    pub open spec fn previous(self, reply: SinkReply) -> Step {
        match self.cursor {
            Some(c) => {
                if c.index > 0 {
                    self.jump(c.index - 1, reply)
                } else {
                    self.ignore(Some(Notice::AtFirstTrack))
                }
            },
            None => self.ignore(Some(Notice::NoTrackLoaded)),
        }
    }

    /// `Switch(index)`: inside the playlist, jump there; else nothing.
    pub open spec fn switch(self, index: int, reply: SinkReply) -> Step {
        if 0 <= index < self.playlist.len() {
            self.jump(index, reply)
        } else {
            self.ignore(Some(Notice::OutOfRange))
        }
    }

    /// `Seek`: with a sink that repositioned, a `Playing` event at the new
    /// position and the engine plays; if the sink could not, or there is
    /// none, the state stays as it is.
    pub open spec fn seek(self, reply: SinkReply) -> Step {
        if !self.has_sink {
            self.ignore(Some(Notice::NoTrackLoaded))
        } else if reply.outcome == SinkOutcome::Done {
            let c = self.cursor->0;
            Step {
                next: PlayerModel { state: PlaybackState::Playing, ..self },
                events: seq![
                    PlayerEventView::Playing {
                        id: c.id,
                        index: c.index,
                        path: c.path,
                        position: reply.position,
                    },
                ],
                notice: None,
            }
        } else {
            self.ignore(Some(Notice::SeekFailed))
        }
    }

    /// `AddToPlaylist`: the entry goes to the end.
    pub open spec fn add_to_playlist(self, id: i32, path: PathBuf, now: u64) -> Step {
        Step {
            next: PlayerModel {
                playlist: self.playlist.push(PlaylistItem { id, path }),
                ..self
            }.scheduled(now),
            events: Seq::empty(),
            notice: None,
        }
    }

    /// `RemoveFromPlaylist(index)`: out of range, nothing. Else the entry
    /// leaves. A cursor behind it moves one down and stays on its track; a
    /// cursor on it is dropped, and a sink playing it is stopped with a
    /// `Stopped` event.
    pub open spec fn remove_from_playlist(self, index: int, now: u64) -> Step {
        if !(0 <= index < self.playlist.len()) {
            self.ignore(Some(Notice::OutOfRange))
        } else {
            let rest = self.playlist.remove(index);
            match self.cursor {
                Some(c) if c.index == index => Step {
                    next: PlayerModel { playlist: rest, ..self.halted() }.scheduled(now),
                    events: if self.has_sink {
                        seq![PlayerEventView::Stopped]
                    } else {
                        Seq::empty()
                    },
                    notice: None,
                },
                Some(c) if c.index > index => Step {
                    next: PlayerModel {
                        playlist: rest,
                        cursor: Some(TrackCursor { index: (c.index - 1) as usize, ..c }),
                        ..self
                    }.scheduled(now),
                    events: Seq::empty(),
                    notice: None,
                },
                _ => Step {
                    next: PlayerModel { playlist: rest, ..self }.scheduled(now),
                    events: Seq::empty(),
                    notice: None,
                },
            }
        }
    }

    /// `ClearPlaylist`: the playlist is emptied, cursor and sink are
    /// dropped, and `Stopped` is emitted whether or not anything played.
    pub open spec fn clear_playlist(self, now: u64) -> Step {
        Step {
            next: PlayerModel { playlist: Seq::empty(), ..self.halted() }.scheduled(now),
            events: seq![PlayerEventView::Stopped],
            notice: None,
        }
    }

    /// `MovePlayListItem(old, new)`: an index out of range, or both equal,
    /// nothing. Else the entry moves and the cursor follows its track.
    pub open spec fn move_playlist_item(self, old_index: int, new_index: int, now: u64) -> Step {
        if !(0 <= old_index < self.playlist.len() && 0 <= new_index < self.playlist.len()) {
            self.ignore(Some(Notice::OutOfRange))
        } else if old_index == new_index {
            self.ignore(None)
        } else {
            Step {
                next: PlayerModel {
                    playlist: moved(self.playlist, old_index, new_index),
                    cursor: match self.cursor {
                        Some(c) => Some(
                            TrackCursor {
                                index: index_after_move(
                                    c.index as int,
                                    old_index,
                                    new_index,
                                ) as usize,
                                ..c
                            },
                        ),
                        None => None,
                    },
                    ..self
                }.scheduled(now),
                events: Seq::empty(),
                notice: None,
            }
        }
    }

    /// A progress tick: stopped, nothing. With a drained queue, the track
    /// has ended, and the engine goes on as for `Next`. Else a `Progress`
    /// event at the sink's position.
    pub open spec fn send_progress(self, queue_empty: bool, reply: SinkReply) -> Step {
        if self.state == PlaybackState::Stopped {
            self.ignore(None)
        } else {
            let c = self.cursor->0;
            if queue_empty {
                let after = self.next(reply);
                Step {
                    next: after.next,
                    events: seq![
                        PlayerEventView::EndOfTrack { id: c.id, index: c.index, path: c.path },
                    ] + after.events,
                    notice: after.notice,
                }
            } else {
                Step {
                    next: self,
                    events: seq![
                        PlayerEventView::Progress {
                            id: c.id,
                            index: c.index,
                            path: c.path,
                            position: reply.position,
                        },
                    ],
                    notice: None,
                }
            }
        }
    }

    /// Whether a notification is pending and due at `now`.
    pub open spec fn update_due(self, now: u64) -> bool {
        self.debounce_started matches Some(t) && now >= t + DEBOUNCE_MS
    }

    /// The debounce wake-up: a pending notification that is due goes out
    /// with the ids of the playlist as it stands; else nothing.
    pub open spec fn send_playlist_updated(self, now: u64) -> Step {
        if self.update_due(now) {
            Step {
                next: PlayerModel { debounce_started: None, ..self },
                events: seq![PlayerEventView::PlaylistUpdated(ids_of(self.playlist))],
                notice: None,
            }
        } else {
            self.ignore(None)
        }
    }

    /// Cancellation: the engine stops as for `Stop` and is finished.
    pub open spec fn cancel(self) -> Step {
        let stopped = self.stop();
        Step {
            next: PlayerModel { finished: true, ..stopped.next },
            events: stopped.events,
            notice: None,
        }
    }

    /// What a command does.
    pub open spec fn command(self, now: u64, cmd: PlayerCommand, reply: SinkReply) -> Step {
        match cmd {
            PlayerCommand::Load { index } => self.load(index as int, reply),
            PlayerCommand::Play => self.play(reply),
            PlayerCommand::Pause => self.pause(reply),
            PlayerCommand::Stop => self.stop(),
            PlayerCommand::Next => self.next(reply),
            PlayerCommand::Previous => self.previous(reply),
            PlayerCommand::Switch(index) => self.switch(index as int, reply),
            PlayerCommand::Seek(_) => self.seek(reply),
            PlayerCommand::AddToPlaylist { id, path } => self.add_to_playlist(id, path, now),
            PlayerCommand::RemoveFromPlaylist { index } => self.remove_from_playlist(
                index as int,
                now,
            ),
            PlayerCommand::ClearPlaylist => self.clear_playlist(now),
            PlayerCommand::MovePlayListItem { old_index, new_index } => self.move_playlist_item(
                old_index as int,
                new_index as int,
                now,
            ),
        }
    }

    /// What one input does at time `now`, given the sink's answer to the
    /// request that `plan` made for it. A finished engine ignores
    /// everything.
    pub open spec fn handle(self, now: u64, input: PlayerInput, reply: SinkReply) -> Step {
        if self.finished {
            self.ignore(Some(Notice::Finished))
        } else {
            match input {
                PlayerInput::Command(cmd) => self.command(now, cmd, reply),
                PlayerInput::ProgressTick { queue_empty } => self.send_progress(
                    queue_empty,
                    reply,
                ),
                PlayerInput::DebounceElapsed => self.send_playlist_updated(now),
                PlayerInput::Cancelled => self.cancel(),
            }
        }
    }

    /// The request that opens the entry at `index`, or none if there is no
    /// such entry.
    pub open spec fn open_request(self, index: int) -> SinkRequest {
        if 0 <= index < self.playlist.len() {
            SinkRequest::Open { index: index as usize, path: self.playlist[index].path }
        } else {
            SinkRequest::Nothing
        }
    }

    /// The request that stops the sink, or none if there is no sink.
    pub open spec fn stop_request(self) -> SinkRequest {
        if self.has_sink {
            SinkRequest::Stop
        } else {
            SinkRequest::Nothing
        }
    }

    /// The request that `Next` makes.
    pub open spec fn next_request(self) -> SinkRequest {
        match self.cursor {
            Some(c) => {
                if c.index + 1 < self.playlist.len() {
                    self.open_request(c.index + 1)
                } else {
                    self.stop_request()
                }
            },
            None => SinkRequest::Nothing,
        }
    }

    /// The sink operation that a command calls for.
    pub open spec fn command_request(self, cmd: PlayerCommand) -> SinkRequest {
        match cmd {
            PlayerCommand::Load { index } => self.open_request(index as int),
            PlayerCommand::Play => if self.has_sink {
                SinkRequest::Resume
            } else {
                self.open_request(0)
            },
            PlayerCommand::Pause => if self.has_sink {
                SinkRequest::Pause
            } else {
                SinkRequest::Nothing
            },
            PlayerCommand::Stop => self.stop_request(),
            PlayerCommand::Next => self.next_request(),
            PlayerCommand::Previous => match self.cursor {
                Some(c) if c.index > 0 => self.open_request(c.index - 1),
                _ => SinkRequest::Nothing,
            },
            PlayerCommand::Switch(index) => self.open_request(index as int),
            PlayerCommand::Seek(seconds) => if self.has_sink {
                SinkRequest::Seek { seconds }
            } else {
                SinkRequest::Nothing
            },
            PlayerCommand::AddToPlaylist { .. } => SinkRequest::Nothing,
            PlayerCommand::RemoveFromPlaylist { index } => match self.cursor {
                Some(c) if c.index == index && index < self.playlist.len() => self.stop_request(),
                _ => SinkRequest::Nothing,
            },
            PlayerCommand::ClearPlaylist => self.stop_request(),
            PlayerCommand::MovePlayListItem { .. } => SinkRequest::Nothing,
        }
    }

    /// The sink operation that an input calls for.
    pub open spec fn plan(self, input: PlayerInput) -> SinkRequest {
        if self.finished {
            SinkRequest::Nothing
        } else {
            match input {
                PlayerInput::Command(cmd) => self.command_request(cmd),
                PlayerInput::ProgressTick { queue_empty } => if self.state
                    != PlaybackState::Stopped && queue_empty {
                    self.next_request()
                } else {
                    SinkRequest::Nothing
                },
                PlayerInput::DebounceElapsed => SinkRequest::Nothing,
                PlayerInput::Cancelled => self.stop_request(),
            }
        }
    }
}

/// One turn of the loop: the time, the input that was ready, and the sink's
/// answer to the request planned for it.
#[derive(Debug)]
pub struct Readiness {
    pub now: u64,
    pub input: PlayerInput,
    pub reply: SinkReply,
}

/// Where a run of inputs ends and what it emitted on the way.
#[verifier::ext_equal]
pub struct Trace {
    pub end: PlayerModel,
    pub events: Seq<PlayerEventView>,
}

impl PlayerModel {
    /// The inputs of `script` handled one after the other, from this state.
    pub open spec fn run(self, script: Seq<Readiness>) -> Trace
        decreases script.len(),
    {
        if script.len() == 0 {
            Trace { end: self, events: Seq::empty() }
        } else {
            let before = self.run(script.drop_last());
            let turn = script.last();
            let step = before.end.handle(turn.now, turn.input, turn.reply);
            Trace { end: step.next, events: before.events + step.events }
        }
    }
}

} // verus!
