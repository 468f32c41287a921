//! What holds of the engine for every state and every input.

use super::model::{ids_of, index_after_move, moved, PlayerModel, Readiness, DEBOUNCE_MS};
use super::types::{
    PlaybackState, PlayerCommand, PlayerEventView, PlayerInput, SinkOutcome, SinkReply,
    SinkRequest,
};
use vstd::prelude::*;

verus! {

/// Whether the input adds an entry to the playlist.
pub open spec fn adds_entry(input: PlayerInput) -> bool {
    input matches PlayerInput::Command(PlayerCommand::AddToPlaylist { .. })
}

/// Whether the input is one of the four commands that change the playlist.
pub open spec fn changes_playlist(input: PlayerInput) -> bool {
    input matches PlayerInput::Command(cmd) && (cmd is AddToPlaylist || cmd is RemoveFromPlaylist
        || cmd is ClearPlaylist || cmd is MovePlayListItem)
}

/// Every handler leaves the engine's invariant in place: whatever the input
/// and whatever the sink answered, the state after it is well formed again.
pub proof fn handle_keeps_invariant(s: PlayerModel, now: u64, input: PlayerInput, reply: SinkReply)
    requires
        s.inv(),
        adds_entry(input) ==> s.playlist.len() < usize::MAX,
    ensures
        s.handle(now, input, reply).next.inv(),
{
}

/// A cursor that is set always points into the playlist, after every
/// handler.
pub proof fn cursor_stays_in_playlist(
    s: PlayerModel,
    now: u64,
    input: PlayerInput,
    reply: SinkReply,
)
    requires
        s.inv(),
        adds_entry(input) ==> s.playlist.len() < usize::MAX,
    ensures
        s.handle(now, input, reply).next.cursor matches Some(c) ==> 0 <= c.index < s.handle(
            now,
            input,
            reply,
        ).next.playlist.len(),
{
}

/// After every handler, a playing engine has a sink and a stopped engine
/// has none.
pub proof fn sink_matches_state(s: PlayerModel, now: u64, input: PlayerInput, reply: SinkReply)
    requires
        s.inv(),
        adds_entry(input) ==> s.playlist.len() < usize::MAX,
    ensures
        s.handle(now, input, reply).next.state == PlaybackState::Playing ==> s.handle(
            now,
            input,
            reply,
        ).next.has_sink,
        s.handle(now, input, reply).next.state == PlaybackState::Stopped ==> !s.handle(
            now,
            input,
            reply,
        ).next.has_sink,
{
}

/// The engine's account of the sink follows the request it planned: after
/// a request to open, a sink exists exactly if opening went well; after a
/// request to stop, none exists; after any other request, nothing changed.
pub proof fn sink_account_follows_plan(
    s: PlayerModel,
    now: u64,
    input: PlayerInput,
    reply: SinkReply,
)
    requires
        s.inv(),
    ensures
        match s.plan(input) {
            SinkRequest::Open { .. } => s.handle(now, input, reply).next.has_sink == (
            reply.outcome == SinkOutcome::Done),
            SinkRequest::Stop => !s.handle(now, input, reply).next.has_sink,
            _ => s.handle(now, input, reply).next.has_sink == s.has_sink,
        },
{
}

/// A request to open names an entry of the playlist, with its path; the
/// other requests to the sink are made only while a sink exists.
pub proof fn plan_is_sound(s: PlayerModel, input: PlayerInput)
    requires
        s.inv(),
    ensures
        match s.plan(input) {
            SinkRequest::Nothing => true,
            SinkRequest::Open { index, path } => index < s.playlist.len() && path
                == s.playlist[index as int].path,
            _ => s.has_sink,
        },
{
}

/// A handler lengthens the playlist by one entry at most.
pub proof fn handle_adds_at_most_one(
    s: PlayerModel,
    now: u64,
    input: PlayerInput,
    reply: SinkReply,
)
    requires
        s.inv(),
    ensures
        s.handle(now, input, reply).next.playlist.len() <= s.playlist.len() + 1,
        !adds_entry(input) ==> s.handle(now, input, reply).next.playlist.len()
            <= s.playlist.len(),
{
}

/// The invariant holds after any run of inputs.
pub proof fn run_keeps_invariant(s: PlayerModel, script: Seq<Readiness>)
    requires
        s.inv(),
        s.playlist.len() + script.len() <= usize::MAX,
    ensures
        s.run(script).end.inv(),
        s.run(script).end.playlist.len() <= s.playlist.len() + script.len(),
    decreases script.len(),
{
    if script.len() > 0 {
        let before = s.run(script.drop_last());
        let turn = script.last();
        run_keeps_invariant(s, script.drop_last());
        handle_adds_at_most_one(before.end, turn.now, turn.input, turn.reply);
        handle_keeps_invariant(before.end, turn.now, turn.input, turn.reply);
    }
}

/// A run over two scripts in a row is the run over the first followed by
/// the run over the second from where the first ended.
pub proof fn run_append(s: PlayerModel, first: Seq<Readiness>, second: Seq<Readiness>)
    ensures
        s.run(first + second).end == s.run(first).end.run(second).end,
        s.run(first + second).events == s.run(first).events + s.run(first).end.run(
            second,
        ).events,
    decreases second.len(),
{
    if second.len() == 0 {
        assert(first + second == first);
        assert(s.run(first).events + Seq::<PlayerEventView>::empty() == s.run(first).events);
    } else {
        run_append(s, first, second.drop_last());
        assert((first + second).drop_last() == first + second.drop_last());
        assert((first + second).last() == second.last());
        let mid = s.run(first);
        let before = mid.end.run(second.drop_last());
        let turn = second.last();
        let step = before.end.handle(turn.now, turn.input, turn.reply);
        assert((mid.events + before.events) + step.events == mid.events + (before.events
            + step.events));
    }
}

/// The run over a single turn is that turn's step.
pub proof fn run_single(s: PlayerModel, turn: Readiness)
    ensures
        s.run(seq![turn]).end == s.handle(turn.now, turn.input, turn.reply).next,
        s.run(seq![turn]).events == s.handle(turn.now, turn.input, turn.reply).events,
{
    let script = seq![turn];
    assert(script.drop_last() == Seq::<Readiness>::empty());
    assert(script.last() == turn);
    reveal_with_fuel(PlayerModel::run, 2);
    let step = s.handle(turn.now, turn.input, turn.reply);
    assert(Seq::<PlayerEventView>::empty() + step.events == step.events);
}

/// Cancellation stops the engine as `Stop` does and finishes it: the only
/// event it can emit is `Stopped`, for a sink that was there.
pub proof fn cancellation_stops(s: PlayerModel, now: u64, reply: SinkReply)
    requires
        s.inv(),
        !s.finished,
    ensures
        s.handle(now, PlayerInput::Cancelled, reply).next.finished,
        s.handle(now, PlayerInput::Cancelled, reply).next.state == PlaybackState::Stopped,
        s.handle(now, PlayerInput::Cancelled, reply).events == if s.has_sink {
            seq![PlayerEventView::Stopped]
        } else {
            Seq::empty()
        },
{
}

/// After cancellation no further events are produced: a finished engine
/// runs through any script without emitting anything or changing state.
pub proof fn nothing_after_cancellation(s: PlayerModel, script: Seq<Readiness>)
    requires
        s.finished,
    ensures
        s.run(script).end == s,
        s.run(script).events == Seq::<PlayerEventView>::empty(),
    decreases script.len(),
{
    if script.len() > 0 {
        nothing_after_cancellation(s, script.drop_last());
    }
}

/// Whether the event is a playlist notification.
pub open spec fn is_update(event: PlayerEventView) -> bool {
    event is PlaylistUpdated
}

/// A command that changes the playlist emits no notification itself. It
/// either is refused and changes nothing, or it schedules the notification
/// from `now`, replacing whatever was pending.
pub proof fn mutation_schedules_update(
    s: PlayerModel,
    now: u64,
    input: PlayerInput,
    reply: SinkReply,
)
    requires
        s.inv(),
        !s.finished,
        changes_playlist(input),
    ensures
        forall|i: int|
            0 <= i < s.handle(now, input, reply).events.len() ==> !is_update(
                #[trigger] s.handle(now, input, reply).events[i],
            ),
        s.handle(now, input, reply).next == s || s.handle(
            now,
            input,
            reply,
        ).next.debounce_started == Some(now),
        s.handle(now, input, reply).next.playlist != s.playlist ==> s.handle(
            now,
            input,
            reply,
        ).next.deadline() == Some(now + DEBOUNCE_MS),
{
}

/// A turn that neither changes the playlist, nor cancels, nor is a wake-up
/// at or after the deadline of a notification scheduled at `started`.
pub open spec fn quiet_turn(turn: Readiness, started: u64) -> bool {
    &&& !changes_playlist(turn.input)
    &&& !(turn.input is Cancelled)
    &&& !(turn.input is DebounceElapsed && turn.now >= started + DEBOUNCE_MS)
}

/// A quiet turn leaves the playlist and the pending notification alone and
/// emits no notification.
pub proof fn quiet_turn_keeps_pending(s: PlayerModel, started: u64, turn: Readiness)
    requires
        s.inv(),
        !s.finished,
        s.debounce_started == Some(started),
        quiet_turn(turn, started),
    ensures
        s.handle(turn.now, turn.input, turn.reply).next.inv(),
        !s.handle(turn.now, turn.input, turn.reply).next.finished,
        s.handle(turn.now, turn.input, turn.reply).next.playlist == s.playlist,
        s.handle(turn.now, turn.input, turn.reply).next.debounce_started == Some(started),
        forall|i: int|
            0 <= i < s.handle(turn.now, turn.input, turn.reply).events.len() ==> !is_update(
                #[trigger] s.handle(turn.now, turn.input, turn.reply).events[i],
            ),
{
}

/// Quiet turns, however many, leave the playlist and the pending
/// notification alone and emit no notification.
pub proof fn quiet_run_keeps_pending(s: PlayerModel, started: u64, quiet: Seq<Readiness>)
    requires
        s.inv(),
        !s.finished,
        s.debounce_started == Some(started),
        forall|i: int| 0 <= i < quiet.len() ==> quiet_turn(#[trigger] quiet[i], started),
    ensures
        s.run(quiet).end.inv(),
        !s.run(quiet).end.finished,
        s.run(quiet).end.playlist == s.playlist,
        s.run(quiet).end.debounce_started == Some(started),
        forall|i: int|
            0 <= i < s.run(quiet).events.len() ==> !is_update(#[trigger] s.run(quiet).events[i]),
    decreases quiet.len(),
{
    if quiet.len() > 0 {
        let before = s.run(quiet.drop_last());
        let turn = quiet.last();
        assert forall|i: int| 0 <= i < quiet.drop_last().len() implies quiet_turn(
            #[trigger] quiet.drop_last()[i],
            started,
        ) by {
            assert(quiet.drop_last()[i] == quiet[i]);
        }
        quiet_run_keeps_pending(s, started, quiet.drop_last());
        quiet_turn_keeps_pending(before.end, started, turn);
    }
}

/// One notification per burst of changes: once the playlist has last
/// changed at `started`, and whatever quiet turns follow, the first wake-up
/// at or after `started + DEBOUNCE_MS` emits exactly one `PlaylistUpdated`,
/// as the last event of the run, with the ids of the playlist as it then
/// stands; nothing is pending afterwards.
pub proof fn burst_ends_in_one_update(
    s: PlayerModel,
    started: u64,
    quiet: Seq<Readiness>,
    wake: Readiness,
)
    requires
        s.inv(),
        !s.finished,
        s.debounce_started == Some(started),
        forall|i: int| 0 <= i < quiet.len() ==> quiet_turn(#[trigger] quiet[i], started),
        wake.input is DebounceElapsed,
        wake.now >= started + DEBOUNCE_MS,
    ensures
        s.run(quiet + seq![wake]).events.len() == s.run(quiet).events.len() + 1,
        s.run(quiet + seq![wake]).events.last() == PlayerEventView::PlaylistUpdated(
            ids_of(s.playlist),
        ),
        forall|i: int|
            0 <= i < s.run(quiet).events.len() ==> !is_update(
                #[trigger] s.run(quiet + seq![wake]).events[i],
            ),
        s.run(quiet + seq![wake]).end.playlist == s.playlist,
        s.run(quiet + seq![wake]).end.debounce_started is None,
{
    quiet_run_keeps_pending(s, started, quiet);
    run_append(s, quiet, seq![wake]);
    run_single(s.run(quiet).end, wake);
}

/// A wake-up with nothing pending, or before the deadline, emits nothing
/// and changes nothing.
pub proof fn early_wake_is_ignored(s: PlayerModel, now: u64, reply: SinkReply)
    requires
        !s.update_due(now),
    ensures
        s.handle(now, PlayerInput::DebounceElapsed, reply).next == s,
        s.handle(now, PlayerInput::DebounceElapsed, reply).events == Seq::<
            PlayerEventView,
        >::empty(),
{
}

/// After `ClearPlaylist` the next event is `Stopped`, and the one after it
/// is `PlaylistUpdated` with no ids: whatever quiet turns follow the
/// command, the run up to the first wake-up at or after the deadline emits
/// these two events and no other.
pub proof fn clear_then_update(
    s: PlayerModel,
    now: u64,
    reply: SinkReply,
    quiet: Seq<Readiness>,
    wake: Readiness,
)
    requires
        s.inv(),
        !s.finished,
        forall|i: int| 0 <= i < quiet.len() ==> quiet_turn(#[trigger] quiet[i], now),
        wake.input is DebounceElapsed,
        wake.now >= now + DEBOUNCE_MS,
    ensures
        s.run(
            seq![Readiness { now, input: PlayerInput::Command(PlayerCommand::ClearPlaylist), reply }]
                + quiet + seq![wake],
        ).events == seq![
            PlayerEventView::Stopped,
            PlayerEventView::PlaylistUpdated(Seq::empty()),
        ],
{
    let clear = Readiness {
        now,
        input: PlayerInput::Command(PlayerCommand::ClearPlaylist),
        reply,
    };
    let cleared = s.handle(now, clear.input, reply).next;
    run_single(s, clear);
    idle_run_is_silent(cleared, now, quiet);
    run_append(s, seq![clear], quiet);
    run_append(s, seq![clear] + quiet, seq![wake]);
    run_single(cleared, wake);
    assert(ids_of(Seq::<super::types::PlaylistItem>::empty()) == Seq::<i32>::empty());
}

/// With an empty playlist and nothing loaded, quiet turns emit nothing and
/// change nothing.
pub proof fn idle_run_is_silent(s: PlayerModel, started: u64, quiet: Seq<Readiness>)
    requires
        s.inv(),
        !s.finished,
        s.playlist.len() == 0,
        s.debounce_started == Some(started),
        forall|i: int| 0 <= i < quiet.len() ==> quiet_turn(#[trigger] quiet[i], started),
    ensures
        s.run(quiet).end == s,
        s.run(quiet).events == Seq::<PlayerEventView>::empty(),
    decreases quiet.len(),
{
    if quiet.len() > 0 {
        assert forall|i: int| 0 <= i < quiet.drop_last().len() implies quiet_turn(
            #[trigger] quiet.drop_last()[i],
            started,
        ) by {
            assert(quiet.drop_last()[i] == quiet[i]);
        }
        idle_run_is_silent(s, started, quiet.drop_last());
        let turn = quiet.last();
        assert(quiet_turn(turn, started));
        assert(s.handle(turn.now, turn.input, turn.reply).next == s);
    }
}

/// Moving an entry keeps every other entry in order and carries each
/// position along: what stood at `c` stands at `index_after_move(c, ..)`.
pub proof fn move_carries_positions<T>(s: Seq<T>, from: int, to: int, c: int)
    requires
        0 <= from < s.len(),
        0 <= to < s.len(),
        0 <= c < s.len(),
    ensures
        moved(s, from, to).len() == s.len(),
        0 <= index_after_move(c, from, to) < s.len(),
        moved(s, from, to)[index_after_move(c, from, to)] == s[c],
{
}

/// Whether every turn of the script is a `MovePlayListItem` command.
pub open spec fn only_moves(script: Seq<Readiness>) -> bool {
    forall|i: int|
        0 <= i < script.len() ==> (#[trigger] script[i]).input matches PlayerInput::Command(
            PlayerCommand::MovePlayListItem { .. },
        )
}

/// The cursor follows its track through any sequence of moves: it stays
/// set, keeps the id and path it had, and the entry it points at afterwards
/// is the entry it pointed at before.
pub proof fn cursor_follows_track(s: PlayerModel, script: Seq<Readiness>)
    requires
        s.inv(),
        !s.finished,
        s.cursor is Some,
        only_moves(script),
    ensures
        s.run(script).end.inv(),
        !s.run(script).end.finished,
        s.run(script).end.playlist.len() == s.playlist.len(),
        s.run(script).end.cursor matches Some(c) && c.id == s.cursor->0.id && c.path
            == s.cursor->0.path && s.run(script).end.playlist[c.index as int]
            == s.playlist[s.cursor->0.index as int],
    decreases script.len(),
{
    if script.len() > 0 {
        assert forall|i: int| 0 <= i < script.drop_last().len() implies (
        #[trigger] script.drop_last()[i]).input matches PlayerInput::Command(
            PlayerCommand::MovePlayListItem { .. },
        ) by {
            assert(script.drop_last()[i] == script[i]);
        }
        cursor_follows_track(s, script.drop_last());
        let before = s.run(script.drop_last()).end;
        let turn = script.last();
        assert(turn == script[script.len() - 1]);
        match turn.input {
            PlayerInput::Command(PlayerCommand::MovePlayListItem { old_index, new_index }) => {
                if old_index < before.playlist.len() && new_index < before.playlist.len()
                    && old_index != new_index {
                    move_carries_positions(
                        before.playlist,
                        old_index as int,
                        new_index as int,
                        before.cursor->0.index as int,
                    );
                }
            },
            _ => {},
        }
    }
}

/// Whether a move from `from` to `to` is carried out on a playlist of
/// `len` entries: both indices lie inside and differ.
pub open spec fn effective_move(len: int, from: int, to: int) -> bool {
    0 <= from < len && 0 <= to < len && from != to
}

/// The sequence after the moves that are effective, made in order.
pub open spec fn moved_by<T>(s: Seq<T>, moves: Seq<(int, int)>) -> Seq<T>
    decreases moves.len(),
{
    if moves.len() == 0 {
        s
    } else {
        let before = moved_by(s, moves.drop_last());
        let (from, to) = moves.last();
        if effective_move(s.len() as int, from, to) {
            moved(before, from, to)
        } else {
            before
        }
    }
}

/// Where position `c` of a sequence of `len` elements stands after the
/// moves. It depends on the indices alone, not on what the sequence holds.
pub open spec fn position_after_moves(c: int, len: int, moves: Seq<(int, int)>) -> int
    decreases moves.len(),
{
    if moves.len() == 0 {
        c
    } else {
        let before = position_after_moves(c, len, moves.drop_last());
        let (from, to) = moves.last();
        if effective_move(len, from, to) {
            index_after_move(before, from, to)
        } else {
            before
        }
    }
}

/// `position_after_moves` tracks an element through the moves: for any
/// sequence, whatever it holds, the element that stood at `c` stands at
/// the position the function gives.
pub proof fn moves_carry_positions<T>(s: Seq<T>, moves: Seq<(int, int)>, c: int)
    requires
        0 <= c < s.len(),
    ensures
        moved_by(s, moves).len() == s.len(),
        0 <= position_after_moves(c, s.len() as int, moves) < s.len(),
        moved_by(s, moves)[position_after_moves(c, s.len() as int, moves)] == s[c],
    decreases moves.len(),
{
    if moves.len() > 0 {
        moves_carry_positions(s, moves.drop_last(), c);
        let (from, to) = moves.last();
        if effective_move(s.len() as int, from, to) {
            move_carries_positions(
                moved_by(s, moves.drop_last()),
                from,
                to,
                position_after_moves(c, s.len() as int, moves.drop_last()),
            );
        }
    }
}

/// The index pairs of a script of moves; a turn that is no move counts as
/// a move of the first entry onto itself, which changes nothing.
pub open spec fn moves_of(script: Seq<Readiness>) -> Seq<(int, int)> {
    Seq::new(
        script.len(),
        |i: int|
            match script[i].input {
                PlayerInput::Command(
                    PlayerCommand::MovePlayListItem { old_index, new_index },
                ) => (old_index as int, new_index as int),
                _ => (0int, 0int),
            },
    )
}

/// Under any sequence of moves the engine's cursor is exactly where its
/// track went: the playlist is the old one with the moves made, and the
/// cursor's index is the tracked position of the index it had.
pub proof fn cursor_tracks_moves(s: PlayerModel, script: Seq<Readiness>)
    requires
        s.inv(),
        !s.finished,
        s.cursor is Some,
        only_moves(script),
    ensures
        s.run(script).end.playlist == moved_by(s.playlist, moves_of(script)),
        s.run(script).end.cursor matches Some(c) && c.index == position_after_moves(
            s.cursor->0.index as int,
            s.playlist.len() as int,
            moves_of(script),
        ),
    decreases script.len(),
{
    if script.len() > 0 {
        assert forall|i: int| 0 <= i < script.drop_last().len() implies (
        #[trigger] script.drop_last()[i]).input matches PlayerInput::Command(
            PlayerCommand::MovePlayListItem { .. },
        ) by {
            assert(script.drop_last()[i] == script[i]);
        }
        cursor_tracks_moves(s, script.drop_last());
        cursor_follows_track(s, script.drop_last());
        assert(moves_of(script).drop_last() == moves_of(script.drop_last()));
        let before = s.run(script.drop_last()).end;
        let turn = script.last();
        assert(turn == script[script.len() - 1]);
        moves_carry_positions(
            s.playlist,
            moves_of(script.drop_last()),
            s.cursor->0.index as int,
        );
    }
}

/// Progress is reported as the sink tells it: while a track plays or is
/// paused and its queue has not drained, a tick emits one `Progress` event
/// for the loaded track at the very position the sink reported, and changes
/// nothing. Positions reported in a row are thus in the order in which the
/// sink gave them.
pub proof fn progress_carries_sink_position(s: PlayerModel, now: u64, reply: SinkReply)
    requires
        s.inv(),
        !s.finished,
        s.state != PlaybackState::Stopped,
    ensures
        s.handle(now, PlayerInput::ProgressTick { queue_empty: false }, reply).next == s,
        s.handle(now, PlayerInput::ProgressTick { queue_empty: false }, reply).events == seq![
            PlayerEventView::Progress {
                id: s.cursor->0.id,
                index: s.cursor->0.index,
                path: s.cursor->0.path,
                position: reply.position,
            },
        ],
{
}

/// The end of a track is announced before anything that follows from it:
/// on a tick with a drained queue the first event is `EndOfTrack` for the
/// loaded track, and what `Next` emits comes after it.
pub proof fn end_of_track_comes_first(s: PlayerModel, now: u64, reply: SinkReply)
    requires
        s.inv(),
        !s.finished,
        s.state != PlaybackState::Stopped,
    ensures
        s.handle(now, PlayerInput::ProgressTick { queue_empty: true }, reply).events == seq![
            PlayerEventView::EndOfTrack {
                id: s.cursor->0.id,
                index: s.cursor->0.index,
                path: s.cursor->0.path,
            },
        ] + s.next(reply).events,
        s.handle(now, PlayerInput::ProgressTick { queue_empty: true }, reply).next == s.next(
            reply,
        ).next,
{
}

} // verus!
