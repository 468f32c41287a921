//! The engine itself: the state behind the model and one handler per input.

use super::model::{
    events_view, failure_message, ids_of, PlayerModel, Readiness, Step, TrackCursor, DEBOUNCE_MS,
};
use super::types::{
    HandlerOutput, Notice, PlaybackState, PlayerCommand, PlayerEvent, PlayerInput, PlaylistItem,
    Position, SinkOutcome, SinkReply, SinkRequest,
};
use std::path::PathBuf;
use tokio_util::sync::CancellationToken;
use vstd::prelude::*;
use vstd::string::StringExecFns;

verus! {

impl HandlerOutput {
    /// The step that this output, together with the state it left, amounts
    /// to.
    pub open spec fn step_to(self, next: PlayerModel) -> Step {
        Step { next, events: events_view(self.events@), notice: self.notice }
    }

    /// An output without events.
    fn silent(notice: Option<Notice>) -> (out: HandlerOutput)
        ensures
            out.events@.len() == 0,
            out.notice == notice,
    {
        HandlerOutput { events: Vec::new(), notice }
    }

    /// An output of one event.
    fn single(event: PlayerEvent) -> (out: HandlerOutput)
        ensures
            out.events@ == seq![event],
            out.notice is None,
    {
        let mut events: Vec<PlayerEvent> = Vec::new();
        events.push(event);
        HandlerOutput { events, notice: None }
    }
}

/// The playback engine. It owns the playlist, the cursor and the playback
/// state, and keeps account of whether the loop around it holds a sink.
pub struct PlayerInternal {
    playlist: Vec<PlaylistItem>,
    cursor: Option<TrackCursor>,
    has_sink: bool,
    state: PlaybackState,
    debounce_started: Option<u64>,
    finished: bool,
}

impl View for PlayerInternal {
    type V = PlayerModel;

    closed spec fn view(&self) -> PlayerModel {
        PlayerModel {
            playlist: self.playlist@,
            cursor: self.cursor,
            has_sink: self.has_sink,
            state: self.state,
            debounce_started: self.debounce_started,
            finished: self.finished,
        }
    }
}

/// The text of the error event for a load that ended in `outcome`.
fn failure_text(outcome: SinkOutcome) -> (text: String)
    ensures
        text@ == failure_message(outcome),
{
    match outcome {
        SinkOutcome::DecodeFailed => String::from_str("Failed to decode audio"),
        _ => String::from_str("Failed to open file"),
    }
}

impl PlayerInternal {
    /// A new engine: empty playlist, nothing loaded, stopped.
    pub fn new() -> (player: PlayerInternal)
        ensures
            player@ == PlayerModel::initial(),
            player@.inv(),
    {
        PlayerInternal {
            playlist: Vec::new(),
            cursor: None,
            has_sink: false,
            state: PlaybackState::Stopped,
            debounce_started: None,
            finished: false,
        }
    }

    /// Handles `Load(index)` once the sink has answered the request to open
    /// that entry.
    fn load(&mut self, index: usize, reply: SinkReply) -> (out: HandlerOutput)
        requires
            old(self)@.inv(),
            !old(self)@.finished,
        ensures
            out.step_to(final(self)@) == old(self)@.load(index as int, reply),
            final(self)@.inv(),
    {
        if index >= self.playlist.len() {
            return HandlerOutput::silent(Some(Notice::OutOfRange));
        }
        let id = self.playlist[index].id;
        let path = self.playlist[index].path.clone();
        match reply.outcome {
            SinkOutcome::Done => {
                let event = PlayerEvent::Playing {
                    id,
                    index,
                    path: path.clone(),
                    position: Position::zero(),
                };
                self.cursor = Some(TrackCursor { index, id, path });
                self.has_sink = true;
                self.state = PlaybackState::Playing;
                HandlerOutput::single(event)
            },
            outcome => {
                let current = match &self.cursor {
                    Some(c) => c.id,
                    None => 0,
                };
                let event = PlayerEvent::Error {
                    id: current,
                    index,
                    path,
                    error: failure_text(outcome),
                };
                self.has_sink = false;
                self.state = PlaybackState::Stopped;
                HandlerOutput::single(event)
            },
        }
    }

    /// The cursor as it stands, copied out.
    fn cursor_copy(&self) -> (copy: Option<TrackCursor>)
        ensures
            copy == self@.cursor,
    {
        match &self.cursor {
            Some(c) => Some(TrackCursor { index: c.index, id: c.id, path: c.path.clone() }),
            None => None,
        }
    }

    /// Puts the cursor on the entry at `index` and loads that entry.
    fn jump(&mut self, index: usize, reply: SinkReply) -> (out: HandlerOutput)
        requires
            old(self)@.inv(),
            !old(self)@.finished,
            index < old(self)@.playlist.len(),
        ensures
            out.step_to(final(self)@) == old(self)@.jump(index as int, reply),
            final(self)@.inv(),
    {
        let id = self.playlist[index].id;
        let path = self.playlist[index].path.clone();
        self.cursor = Some(TrackCursor { index, id, path });
        self.load(index, reply)
    }

    /// The sink has resumed: announces the loaded track from its start.
    fn resume(&mut self) -> (out: HandlerOutput)
        requires
            old(self)@.cursor is Some,
        ensures
            out.step_to(final(self)@) == old(self)@.resume(),
    {
        match self.cursor_copy() {
            Some(c) => {
                self.state = PlaybackState::Playing;
                HandlerOutput::single(
                    PlayerEvent::Playing {
                        id: c.id,
                        index: c.index,
                        path: c.path,
                        position: Position::zero(),
                    },
                )
            },
            None => HandlerOutput::silent(None),
        }
    }

    /// Handles `Play`, the sink having resumed or, where there was none,
    /// tried to open the first entry.
    fn play(&mut self, reply: SinkReply) -> (out: HandlerOutput)
        requires
            old(self)@.inv(),
            !old(self)@.finished,
        ensures
            out.step_to(final(self)@) == old(self)@.play(reply),
            final(self)@.inv(),
    {
        if self.has_sink {
            self.resume()
        } else {
            let mut out = self.load(0, reply);
            if self.has_sink {
                let mut again = self.resume();
                out.events.append(&mut again.events);
            }
            out
        }
    }

    /// Handles `Pause`, the sink having paused and told its position.
    fn pause(&mut self, reply: SinkReply) -> (out: HandlerOutput)
        requires
            old(self)@.inv(),
            !old(self)@.finished,
        ensures
            out.step_to(final(self)@) == old(self)@.pause(reply),
            final(self)@.inv(),
    {
        if !self.has_sink {
            return HandlerOutput::silent(None);
        }
        match self.cursor_copy() {
            Some(c) => {
                self.state = PlaybackState::Paused;
                HandlerOutput::single(
                    PlayerEvent::Paused {
                        id: c.id,
                        index: c.index,
                        path: c.path,
                        position: reply.position,
                    },
                )
            },
            None => HandlerOutput::silent(None),
        }
    }

    /// Gives up sink and cursor and stops.
    fn halt(&mut self)
        ensures
            final(self)@ == old(self)@.halted(),
    {
        self.cursor = None;
        self.has_sink = false;
        self.state = PlaybackState::Stopped;
    }

    /// Handles `Stop`, the sink having been stopped and released.
    fn stop(&mut self) -> (out: HandlerOutput)
        requires
            old(self)@.inv(),
            !old(self)@.finished,
        ensures
            out.step_to(final(self)@) == old(self)@.stop(),
            final(self)@.inv(),
    {
        if self.has_sink {
            self.halt();
            HandlerOutput::single(PlayerEvent::Stopped)
        } else {
            HandlerOutput::silent(Some(Notice::NoTrackLoaded))
        }
    }

    /// Handles `Next`, the sink having tried to open the following entry
    /// or, at the end of the playlist, having been released.
    fn next(&mut self, reply: SinkReply) -> (out: HandlerOutput)
        requires
            old(self)@.inv(),
            !old(self)@.finished,
        ensures
            out.step_to(final(self)@) == old(self)@.next(reply),
            final(self)@.inv(),
    {
        let index = match &self.cursor {
            Some(c) => c.index,
            None => {
                return HandlerOutput::silent(Some(Notice::NoTrackLoaded));
            },
        };
        if index + 1 < self.playlist.len() {
            self.jump(index + 1, reply)
        } else {
            self.halt();
            HandlerOutput::single(PlayerEvent::EndOfPlaylist)
        }
    }

    /// Handles `Previous`, the sink having tried to open the preceding
    /// entry.
    fn previous(&mut self, reply: SinkReply) -> (out: HandlerOutput)
        requires
            old(self)@.inv(),
            !old(self)@.finished,
        ensures
            out.step_to(final(self)@) == old(self)@.previous(reply),
            final(self)@.inv(),
    {
        let index = match &self.cursor {
            Some(c) => c.index,
            None => {
                return HandlerOutput::silent(Some(Notice::NoTrackLoaded));
            },
        };
        if index > 0 {
            self.jump(index - 1, reply)
        } else {
            HandlerOutput::silent(Some(Notice::AtFirstTrack))
        }
    }

    /// Handles `Switch(index)`, the sink having tried to open that entry.
    fn switch(&mut self, index: usize, reply: SinkReply) -> (out: HandlerOutput)
        requires
            old(self)@.inv(),
            !old(self)@.finished,
        ensures
            out.step_to(final(self)@) == old(self)@.switch(index as int, reply),
            final(self)@.inv(),
    {
        if index < self.playlist.len() {
            self.jump(index, reply)
        } else {
            HandlerOutput::silent(Some(Notice::OutOfRange))
        }
    }

    /// Handles `Seek`, the sink having tried to reposition.
    fn seek(&mut self, reply: SinkReply) -> (out: HandlerOutput)
        requires
            old(self)@.inv(),
            !old(self)@.finished,
        ensures
            out.step_to(final(self)@) == old(self)@.seek(reply),
            final(self)@.inv(),
    {
        if !self.has_sink {
            return HandlerOutput::silent(Some(Notice::NoTrackLoaded));
        }
        match reply.outcome {
            SinkOutcome::Done => match self.cursor_copy() {
                Some(c) => {
                    self.state = PlaybackState::Playing;
                    HandlerOutput::single(
                        PlayerEvent::Playing {
                            id: c.id,
                            index: c.index,
                            path: c.path,
                            position: reply.position,
                        },
                    )
                },
                None => HandlerOutput::silent(None),
            },
            _ => HandlerOutput::silent(Some(Notice::SeekFailed)),
        }
    }

    /// Notes that the playlist changed at `now`; the notification is due
    /// `DEBOUNCE_MS` later, whatever was pending before.
    fn schedule_playlist_update(&mut self, now: u64)
        ensures
            final(self)@ == old(self)@.scheduled(now),
    {
        self.debounce_started = Some(now);
    }

    /// Handles `AddToPlaylist`.
    fn add_to_playlist(&mut self, id: i32, path: PathBuf, now: u64) -> (out: HandlerOutput)
        requires
            old(self)@.inv(),
            !old(self)@.finished,
        ensures
            out.step_to(final(self)@) == old(self)@.add_to_playlist(id, path, now),
            final(self)@.inv(),
    {
        self.playlist.push(PlaylistItem { id, path });
        assert(self.playlist@.len() == self.playlist.len());
        self.schedule_playlist_update(now);
        HandlerOutput::silent(None)
    }

    /// Handles `RemoveFromPlaylist(index)`, the sink having been released
    /// if the entry was playing.
    fn remove_from_playlist(&mut self, index: usize, now: u64) -> (out: HandlerOutput)
        requires
            old(self)@.inv(),
            !old(self)@.finished,
        ensures
            out.step_to(final(self)@) == old(self)@.remove_from_playlist(index as int, now),
            final(self)@.inv(),
    {
        if index >= self.playlist.len() {
            return HandlerOutput::silent(Some(Notice::OutOfRange));
        }
        self.playlist.remove(index);
        self.schedule_playlist_update(now);
        match self.cursor_copy() {
            Some(c) => {
                if c.index == index {
                    let playing = self.has_sink;
                    self.halt();
                    if playing {
                        HandlerOutput::single(PlayerEvent::Stopped)
                    } else {
                        HandlerOutput::silent(None)
                    }
                } else if c.index > index {
                    self.cursor = Some(TrackCursor { index: c.index - 1, id: c.id, path: c.path });
                    HandlerOutput::silent(None)
                } else {
                    HandlerOutput::silent(None)
                }
            },
            None => HandlerOutput::silent(None),
        }
    }

    /// Handles `ClearPlaylist`, the sink having been released.
    fn clear_playlist(&mut self, now: u64) -> (out: HandlerOutput)
        requires
            old(self)@.inv(),
            !old(self)@.finished,
        ensures
            out.step_to(final(self)@) == old(self)@.clear_playlist(now),
            final(self)@.inv(),
    {
        self.playlist.clear();
        self.halt();
        self.schedule_playlist_update(now);
        HandlerOutput::single(PlayerEvent::Stopped)
    }

    /// Handles `MovePlayListItem(old_index, new_index)`.
    fn move_playlist_item(&mut self, old_index: usize, new_index: usize, now: u64) -> (out:
        HandlerOutput)
        requires
            old(self)@.inv(),
            !old(self)@.finished,
        ensures
            out.step_to(final(self)@) == old(self)@.move_playlist_item(
                old_index as int,
                new_index as int,
                now,
            ),
            final(self)@.inv(),
    {
        if old_index >= self.playlist.len() || new_index >= self.playlist.len() {
            return HandlerOutput::silent(Some(Notice::OutOfRange));
        }
        if old_index == new_index {
            return HandlerOutput::silent(None);
        }
        let item = self.playlist.remove(old_index);
        self.playlist.insert(new_index, item);
        match self.cursor_copy() {
            Some(c) => {
                let index = if old_index == c.index {
                    new_index
                } else if old_index < c.index && new_index >= c.index {
                    c.index - 1
                } else if old_index > c.index && new_index <= c.index {
                    c.index + 1
                } else {
                    c.index
                };
                self.cursor = Some(TrackCursor { index, id: c.id, path: c.path });
            },
            None => {},
        }
        self.schedule_playlist_update(now);
        HandlerOutput::silent(None)
    }

    /// Handles a progress tick, the sink having told whether its queue has
    /// drained and, if so, having done what `Next` asks for.
    fn send_progress(&mut self, queue_empty: bool, reply: SinkReply) -> (out: HandlerOutput)
        requires
            old(self)@.inv(),
            !old(self)@.finished,
        ensures
            out.step_to(final(self)@) == old(self)@.send_progress(queue_empty, reply),
            final(self)@.inv(),
    {
        if self.state == PlaybackState::Stopped {
            return HandlerOutput::silent(None);
        }
        match self.cursor_copy() {
            Some(c) => {
                if queue_empty {
                    let mut out = self.next(reply);
                    out.events.insert(
                        0,
                        PlayerEvent::EndOfTrack { id: c.id, index: c.index, path: c.path },
                    );
                    out
                } else {
                    HandlerOutput::single(
                        PlayerEvent::Progress {
                            id: c.id,
                            index: c.index,
                            path: c.path,
                            position: reply.position,
                        },
                    )
                }
            },
            None => HandlerOutput::silent(None),
        }
    }

    /// The ids of the playlist, in play order.
    pub fn playlist_ids(&self) -> (ids: Vec<i32>)
        ensures
            ids@ == ids_of(self@.playlist),
    {
        let mut ids: Vec<i32> = Vec::new();
        let mut i: usize = 0;
        while i < self.playlist.len()
            invariant
                i <= self.playlist@.len(),
                ids@.len() == i,
                forall|j: int| 0 <= j < i ==> ids@[j] == self.playlist@[j].id,
            decreases self.playlist@.len() - i,
        {
            ids.push(self.playlist[i].id);
            i += 1;
        }
        ids
    }

    /// Handles the debounce wake-up at `now`.
    fn send_playlist_updated(&mut self, now: u64) -> (out: HandlerOutput)
        requires
            old(self)@.inv(),
            !old(self)@.finished,
        ensures
            out.step_to(final(self)@) == old(self)@.send_playlist_updated(now),
            final(self)@.inv(),
    {
        let due = match self.debounce_started {
            Some(started) => now >= started && now - started >= DEBOUNCE_MS,
            None => false,
        };
        if due {
            self.debounce_started = None;
            HandlerOutput::single(PlayerEvent::PlaylistUpdated(self.playlist_ids()))
        } else {
            HandlerOutput::silent(None)
        }
    }

    /// Handles cancellation, the sink having been released.
    fn cancel(&mut self) -> (out: HandlerOutput)
        requires
            old(self)@.inv(),
            !old(self)@.finished,
        ensures
            out.step_to(final(self)@) == old(self)@.cancel(),
            final(self)@.inv(),
    {
        let mut out = self.stop();
        out.notice = None;
        self.finished = true;
        out
    }

    /// Handles one command.
    fn command(&mut self, now: u64, cmd: PlayerCommand, reply: SinkReply) -> (out: HandlerOutput)
        requires
            old(self)@.inv(),
            !old(self)@.finished,
        ensures
            out.step_to(final(self)@) == old(self)@.command(now, cmd, reply),
            final(self)@.inv(),
    {
        match cmd {
            PlayerCommand::Load { index } => self.load(index, reply),
            PlayerCommand::Play => self.play(reply),
            PlayerCommand::Pause => self.pause(reply),
            PlayerCommand::Stop => self.stop(),
            PlayerCommand::Next => self.next(reply),
            PlayerCommand::Previous => self.previous(reply),
            PlayerCommand::Switch(index) => self.switch(index, reply),
            PlayerCommand::Seek(_) => self.seek(reply),
            PlayerCommand::AddToPlaylist { id, path } => self.add_to_playlist(id, path, now),
            PlayerCommand::RemoveFromPlaylist { index } => self.remove_from_playlist(index, now),
            PlayerCommand::ClearPlaylist => self.clear_playlist(now),
            PlayerCommand::MovePlayListItem { old_index, new_index } => self.move_playlist_item(
                old_index,
                new_index,
                now,
            ),
        }
    }

    /// Handles one input at time `now`, given the sink's answer to the
    /// request that `plan` made for it, and returns the events to send.
    ///
    /// `now` counts milliseconds on a monotonic clock.
    pub fn handle(&mut self, now: u64, input: PlayerInput, reply: SinkReply) -> (out:
        HandlerOutput)
        requires
            old(self)@.inv(),
        ensures
            out.step_to(final(self)@) == old(self)@.handle(now, input, reply),
            final(self)@.inv(),
    {
        if self.finished {
            return HandlerOutput::silent(Some(Notice::Finished));
        }
        match input {
            PlayerInput::Command(cmd) => self.command(now, cmd, reply),
            PlayerInput::ProgressTick { queue_empty } => self.send_progress(queue_empty, reply),
            PlayerInput::DebounceElapsed => self.send_playlist_updated(now),
            PlayerInput::Cancelled => self.cancel(),
        }
    }

    /// The request that opens the entry at `index`.
    fn open_request(&self, index: usize) -> (request: SinkRequest)
        ensures
            request == self@.open_request(index as int),
    {
        if index < self.playlist.len() {
            SinkRequest::Open { index, path: self.playlist[index].path.clone() }
        } else {
            SinkRequest::Nothing
        }
    }

    /// The request that stops the sink.
    fn stop_request(&self) -> (request: SinkRequest)
        ensures
            request == self@.stop_request(),
    {
        if self.has_sink {
            SinkRequest::Stop
        } else {
            SinkRequest::Nothing
        }
    }

    /// The request that `Next` makes.
    fn next_request(&self) -> (request: SinkRequest)
        requires
            self@.inv(),
        ensures
            request == self@.next_request(),
    {
        match &self.cursor {
            Some(c) => {
                if c.index + 1 < self.playlist.len() {
                    self.open_request(c.index + 1)
                } else {
                    self.stop_request()
                }
            },
            None => SinkRequest::Nothing,
        }
    }

    /// The request that a command makes.
    fn command_request(&self, cmd: &PlayerCommand) -> (request: SinkRequest)
        requires
            self@.inv(),
        ensures
            request == self@.command_request(*cmd),
    {
        match cmd {
            PlayerCommand::Load { index } => self.open_request(*index),
            PlayerCommand::Play => {
                if self.has_sink {
                    SinkRequest::Resume
                } else {
                    self.open_request(0)
                }
            },
            PlayerCommand::Pause => {
                if self.has_sink {
                    SinkRequest::Pause
                } else {
                    SinkRequest::Nothing
                }
            },
            PlayerCommand::Stop => self.stop_request(),
            PlayerCommand::Next => self.next_request(),
            PlayerCommand::Previous => match &self.cursor {
                Some(c) => {
                    if c.index > 0 {
                        self.open_request(c.index - 1)
                    } else {
                        SinkRequest::Nothing
                    }
                },
                None => SinkRequest::Nothing,
            },
            PlayerCommand::Switch(index) => self.open_request(*index),
            PlayerCommand::Seek(seconds) => {
                if self.has_sink {
                    SinkRequest::Seek { seconds: *seconds }
                } else {
                    SinkRequest::Nothing
                }
            },
            PlayerCommand::AddToPlaylist { .. } => SinkRequest::Nothing,
            PlayerCommand::RemoveFromPlaylist { index } => match &self.cursor {
                Some(c) => {
                    if c.index == *index && *index < self.playlist.len() {
                        self.stop_request()
                    } else {
                        SinkRequest::Nothing
                    }
                },
                None => SinkRequest::Nothing,
            },
            PlayerCommand::ClearPlaylist => self.stop_request(),
            PlayerCommand::MovePlayListItem { .. } => SinkRequest::Nothing,
        }
    }

    /// The one sink operation that `input` calls for in the present state.
    /// The loop carries it out and hands its answer to `handle` together
    /// with the input.
    pub fn plan(&self, input: &PlayerInput) -> (request: SinkRequest)
        requires
            self@.inv(),
        ensures
            request == self@.plan(*input),
    {
        if self.finished {
            return SinkRequest::Nothing;
        }
        match input {
            PlayerInput::Command(cmd) => self.command_request(cmd),
            PlayerInput::ProgressTick { queue_empty } => {
                if self.state != PlaybackState::Stopped && *queue_empty {
                    self.next_request()
                } else {
                    SinkRequest::Nothing
                }
            },
            PlayerInput::DebounceElapsed => SinkRequest::Nothing,
            PlayerInput::Cancelled => self.stop_request(),
        }
    }

    /// Handles the turns of `script` in order and returns every event they
    /// emitted, in order.
    pub fn run(&mut self, script: Vec<Readiness>) -> (events: Vec<PlayerEvent>)
        requires
            old(self)@.inv(),
        ensures
            final(self)@ == old(self)@.run(script@).end,
            events_view(events@) == old(self)@.run(script@).events,
            final(self)@.inv(),
    {
        let mut events: Vec<PlayerEvent> = Vec::new();
        let ghost start = self@;
        let ghost turns = script@;
        for turn in iter: script
            invariant
                iter.seq() == turns,
                start.inv(),
                self@.inv(),
                self@ == start.run(turns.take(iter.index() as int)).end,
                events_view(events@) == start.run(turns.take(iter.index() as int)).events,
        {
            proof {
                let i = iter.index() as int;
                assert(turns.take(i + 1).drop_last() == turns.take(i));
                assert(turns.take(i + 1).last() == turn);
            }
            let mut out = self.handle(turn.now, turn.input, turn.reply);
            events.append(&mut out.events);
        }
        proof {
            assert(turns.take(turns.len() as int) == turns);
        }
        events
    }

    /// The playlist, in play order.
    pub fn playlist(&self) -> (playlist: &Vec<PlaylistItem>)
        ensures
            playlist@ == self@.playlist,
    {
        &self.playlist
    }

    /// The cursor on the loaded track, if one is set.
    pub fn cursor(&self) -> (cursor: &Option<TrackCursor>)
        ensures
            *cursor == self@.cursor,
    {
        &self.cursor
    }

    /// The playlist index of the loaded track, if one is set.
    pub fn current_track_index(&self) -> (index: Option<usize>)
        ensures
            index == match self@.cursor {
                Some(c) => Some(c.index),
                None => None,
            },
    {
        match &self.cursor {
            Some(c) => Some(c.index),
            None => None,
        }
    }

    /// The id of the loaded track, if one is set.
    pub fn current_track_id(&self) -> (id: Option<i32>)
        ensures
            id == match self@.cursor {
                Some(c) => Some(c.id),
                None => None,
            },
    {
        match &self.cursor {
            Some(c) => Some(c.id),
            None => None,
        }
    }

    /// Whether the engine plays, is paused or is stopped.
    pub fn state(&self) -> (state: PlaybackState)
        ensures
            state == self@.state,
    {
        self.state
    }

    /// Whether the loop holds a sink, by the engine's account.
    pub fn has_sink(&self) -> (has_sink: bool)
        ensures
            has_sink == self@.has_sink,
    {
        self.has_sink
    }

    /// When the playlist last changed, if that change is not announced yet.
    /// The notification is due `DEBOUNCE_MS` after it.
    pub fn debounce_started(&self) -> (started: Option<u64>)
        ensures
            started == self@.debounce_started,
    {
        self.debounce_started
    }

    /// Whether cancellation has been handled.
    pub fn is_finished(&self) -> (finished: bool)
        ensures
            finished == self@.finished,
    {
        self.finished
    }
}

impl PlayerInput {
    /// The input that a command taken from the channel amounts to: the
    /// command itself, or cancellation if the handle had fired by then.
    pub fn from_command(cmd: PlayerCommand, cancelled: bool) -> (input: PlayerInput)
        ensures
            input == if cancelled {
                PlayerInput::Cancelled
            } else {
                PlayerInput::Command(cmd)
            },
    {
        if cancelled {
            PlayerInput::Cancelled
        } else {
            PlayerInput::Command(cmd)
        }
    }
}

/// Asks the cancellation handle and turns a command taken from the channel
/// into the engine's input. Whatever the handle answers, the input is the
/// command or cancellation.
pub fn admit_command(token: &CancellationToken, cmd: PlayerCommand) -> (input: PlayerInput)
    ensures
        input == PlayerInput::Cancelled || input == PlayerInput::Command(cmd),
{
    PlayerInput::from_command(cmd, token.is_cancelled())
}

} // verus!
