//! The values that cross the engine's boundary: commands in, events out, and
//! what the engine asks of the audio sink.

use std::path::PathBuf;
use vstd::prelude::*;

verus! {

/// An offset into a track: whole seconds and the nanoseconds beyond them.
#[derive(Debug, Clone, Copy, PartialEq, Eq, Structural)]
pub struct Position {
    pub secs: u64,
    pub nanos: u32,
}

impl Position {
    /// The start of a track.
    pub open spec fn zero_spec() -> Position {
        Position { secs: 0, nanos: 0 }
    }

    /// The start of a track.
    #[verifier::when_used_as_spec(zero_spec)]
    pub fn zero() -> (p: Position)
        ensures
            p == Position::zero_spec(),
    {
        Position { secs: 0, nanos: 0 }
    }
}

/// One entry of the playlist. Entries are not unique by id.
#[derive(Debug, Clone)]
pub struct PlaylistItem {
    pub id: i32,
    pub path: PathBuf,
}

/// The engine's inbound commands.
#[derive(Debug)]
pub enum PlayerCommand {
    Load { index: usize },
    Play,
    Pause,
    Stop,
    Next,
    Previous,
    Switch(usize),
    /// Reposition to an offset given in whole seconds.
    Seek(u64),
    AddToPlaylist { id: i32, path: PathBuf },
    RemoveFromPlaylist { index: usize },
    ClearPlaylist,
    MovePlayListItem { old_index: usize, new_index: usize },
}

/// The engine's outbound events.
#[derive(Debug, Clone)]
pub enum PlayerEvent {
    Stopped,
    Playing { id: i32, index: usize, path: PathBuf, position: Position },
    Paused { id: i32, index: usize, path: PathBuf, position: Position },
    EndOfPlaylist,
    EndOfTrack { id: i32, index: usize, path: PathBuf },
    Error { id: i32, index: usize, path: PathBuf, error: String },
    Progress { id: i32, index: usize, path: PathBuf, position: Position },
    PlaylistUpdated(Vec<i32>),
}

/// What an event says, with its text and its id list as sequences.
pub enum PlayerEventView {
    Stopped,
    Playing { id: i32, index: usize, path: PathBuf, position: Position },
    Paused { id: i32, index: usize, path: PathBuf, position: Position },
    EndOfPlaylist,
    EndOfTrack { id: i32, index: usize, path: PathBuf },
    Error { id: i32, index: usize, path: PathBuf, error: Seq<char> },
    Progress { id: i32, index: usize, path: PathBuf, position: Position },
    PlaylistUpdated(Seq<i32>),
}

impl View for PlayerEvent {
    type V = PlayerEventView;

    open spec fn view(&self) -> PlayerEventView {
        match *self {
            PlayerEvent::Stopped => PlayerEventView::Stopped,
            PlayerEvent::Playing { id, index, path, position } => PlayerEventView::Playing {
                id,
                index,
                path,
                position,
            },
            PlayerEvent::Paused { id, index, path, position } => PlayerEventView::Paused {
                id,
                index,
                path,
                position,
            },
            PlayerEvent::EndOfPlaylist => PlayerEventView::EndOfPlaylist,
            PlayerEvent::EndOfTrack { id, index, path } => PlayerEventView::EndOfTrack {
                id,
                index,
                path,
            },
            PlayerEvent::Error { id, index, path, error } => PlayerEventView::Error {
                id,
                index,
                path,
                error: error@,
            },
            PlayerEvent::Progress { id, index, path, position } => PlayerEventView::Progress {
                id,
                index,
                path,
                position,
            },
            PlayerEvent::PlaylistUpdated(ids) => PlayerEventView::PlaylistUpdated(ids@),
        }
    }
}

/// The three states of the engine.
#[derive(Debug, Clone, Copy, PartialEq, Eq, Structural)]
pub enum PlaybackState {
    Playing,
    Paused,
    Stopped,
}

/// The one operation on the audio sink that handling an input calls for.
/// The loop around the engine carries it out before it hands the input, with
/// the sink's answer, to the handler.
#[derive(Debug, Clone)]
pub enum SinkRequest {
    /// Leave the sink alone.
    Nothing,
    /// Release the current sink, if any; then acquire the output device,
    /// decode the file and start a new sink on it. On failure no sink is left.
    Open { index: usize, path: PathBuf },
    /// Resume the sink.
    Resume,
    /// Pause the sink and report its position.
    Pause,
    /// Stop the sink and release it together with its output stream.
    Stop,
    /// Reposition the sink and report its new position.
    Seek { seconds: u64 },
}

/// How the sink's operation ended.
#[derive(Debug, Clone, Copy, PartialEq, Eq, Structural)]
pub enum SinkOutcome {
    /// The operation was carried out, or none was asked for.
    Done,
    /// The file is missing or unreadable.
    OpenFailed,
    /// The codec rejected the stream.
    DecodeFailed,
    /// The sink could not reposition.
    SeekFailed,
}

/// The sink's answer to a request: how the operation ended, and the offset
/// into the track at which the sink stands afterwards. The position is
/// reported with every answer, also where nothing was asked of the sink; it
/// is the start of the track when there is no sink.
#[derive(Debug, Clone, Copy, PartialEq, Eq, Structural)]
pub struct SinkReply {
    pub outcome: SinkOutcome,
    pub position: Position,
}

/// What the loop is ready to hand the engine.
#[derive(Debug)]
pub enum PlayerInput {
    /// A command arrived.
    Command(PlayerCommand),
    /// The progress interval fired; the sink, if there is one, reported
    /// whether its queue has drained.
    ProgressTick { queue_empty: bool },
    /// The loop woke up for the pending playlist notification.
    DebounceElapsed,
    /// The cancellation handle fired.
    Cancelled,
}

/// Why an input changed nothing, or less than it asked for.
#[derive(Debug, Clone, Copy, PartialEq, Eq, Structural)]
pub enum Notice {
    /// An index lies beyond the playlist.
    OutOfRange,
    /// A transport control arrived while no track is loaded.
    NoTrackLoaded,
    /// `Previous` arrived on the first track.
    AtFirstTrack,
    /// The sink could not reposition.
    SeekFailed,
    /// The input arrived after cancellation.
    Finished,
}

/// What handling one input produced.
#[derive(Debug)]
pub struct HandlerOutput {
    /// The events to send, in order.
    pub events: Vec<PlayerEvent>,
    /// What to log, if the input was refused.
    pub notice: Option<Notice>,
}

} // verus!
