//! Laws of the game, proved of the states that the contracts speak of.

use crate::clock::due;
use crate::clock::NANOS_PER_SECOND;
use crate::game::Direction;
use crate::game::Key;
use crate::game::INITIAL_LENGTH;
use crate::rules::GameState;
use crate::snake::Position;
use std::time::Instant;
use vstd::prelude::*;

verus! {

/// What happens to a game from outside: a key is pressed, a direction is
/// asked for, or a tick comes, with the cell drawn for the next food should
/// the snake eat.
pub enum Event {
    Key(Key),
    Turn(Direction),
    Tick(Position),
}

/// The game after one event.
pub open spec fn after(state: GameState, event: Event) -> GameState {
    match event {
        Event::Key(key) => state.keyed(key),
        Event::Turn(requested) => state.turned(requested),
        Event::Tick(fresh) => state.stepped(fresh),
    }
}

/// The game after a run of events, first to last.
pub open spec fn played(state: GameState, events: Seq<Event>) -> GameState
    decreases events.len(),
{
    if events.len() == 0 {
        state
    } else {
        after(played(state, events.drop_last()), events.last())
    }
}

/// Whether `event` is a plain move of `state`: a tick that brings the head
/// onto a free cell without food, so that the tail segment leaves.
pub open spec fn plain_move(state: GameState, event: Event) -> bool {
    &&& event is Tick
    &&& state.moves()
    &&& !state.collides(state.candidate().0, state.candidate().1)
    &&& !state.feeds()
}

/// The number of plain moves in a run of events from `state`.
pub open spec fn plain_moves(state: GameState, events: Seq<Event>) -> nat
    decreases events.len(),
{
    if events.len() == 0 {
        0
    } else if plain_move(played(state, events.drop_last()), events.last()) {
        plain_moves(state, events.drop_last()) + 1
    } else {
        plain_moves(state, events.drop_last())
    }
}

/// What is left of `spare` stacked segments after `moves` plain moves.
pub open spec fn spare_after(spare: nat, moves: nat) -> nat {
    if moves < spare {
        (spare - moves) as nat
    } else {
        0
    }
}

/// In a settled game the body has as many segments as the occupancy set has
/// cells.
pub proof fn lemma_settled_sizes_agree(state: GameState)
    requires
        state.wf(),
        state.settled(),
    ensures
        state.occupied.finite(),
        state.occupied.len() == state.body.len(),
{
    broadcast use vstd::seq_lib::seq_to_set_is_finite;

    state.body.unique_seq_to_set();
}

/// In every game the occupancy set is finite and has no more cells than the
/// body has segments.
pub proof fn lemma_occupied_within_body(state: GameState)
    requires
        state.wf(),
    ensures
        state.occupied.finite(),
        state.occupied.len() <= state.body.len(),
{
    broadcast use vstd::seq_lib::seq_to_set_is_finite;

    state.body.lemma_cardinality_of_set();
}

/// A game is settled exactly when no segment is stacked on its tail.
pub proof fn lemma_settled_is_unstacked(state: GameState)
    requires
        state.body.len() > 0,
    ensures
        state.settled() <==> state.stacked(0),
{
    assert(state.body.skip(0) =~= state.body);
}

/// Offering the head a cell keeps a game well formed. Where the cell is
/// free and without food, the tail segment leaves, and with it one of the
/// segments stacked on the tail; in every other case the stack stays.
pub proof fn lemma_move_unstacks(state: GameState, x: int, y: int, fresh: Position, spare: nat)
    requires
        state.wf(),
        state.stacked(spare),
    ensures
        state.resolved(x, y, fresh).wf(),
        state.resolved(x, y, fresh).stacked(
            if !state.game_over && !state.collides(x, y) && !state.fed_at(x, y) {
                spare_after(spare, 1)
            } else {
                spare
            },
        ),
{
    let next = state.resolved(x, y, fresh);
    let pos = (x as u16, y as u16);
    if !state.game_over && !state.collides(x, y) {
        let kept: int = if pos == state.food {
            0
        } else {
            1
        };
        let left: nat = if pos == state.food {
            spare
        } else {
            spare_after(spare, 1)
        };
        assert forall|i: int| 0 <= i < next.body.len() - 1 implies next.body[i] == state.body[i
            + kept] by {}
        assert forall|i: int| 0 <= i <= left implies #[trigger] next.body[i] == next.body[0] by {}
        let rest = next.body.skip(left as int);
        assert forall|i: int, j: int| 0 <= i < rest.len() && 0 <= j < rest.len() && i != j implies rest[i]
            != rest[j] by {
            let shift = left + kept - spare;
            if i < rest.len() - 1 && j < rest.len() - 1 {
                assert(rest[i] == state.body.skip(spare as int)[i + shift]);
                assert(rest[j] == state.body.skip(spare as int)[j + shift]);
            }
        }
    }
}

/// An event keeps a game well formed; a plain move takes one segment off
/// the stack on the tail, and every other event leaves the stack as it is.
pub proof fn lemma_event_unstacks(state: GameState, event: Event, spare: nat)
    requires
        state.wf(),
        state.stacked(spare),
    ensures
        after(state, event).wf(),
        after(state, event).stacked(
            if plain_move(state, event) {
                spare_after(spare, 1)
            } else {
                spare
            },
        ),
{
    match event {
        Event::Key(key) => {},
        Event::Turn(requested) => {},
        Event::Tick(fresh) => {
            if state.moves() {
                let turned = GameState { previous_direction: state.direction, ..state };
                lemma_move_unstacks(
                    turned,
                    state.candidate().0,
                    state.candidate().1,
                    fresh,
                    spare,
                );
            }
        },
    }
}

/// A run of events keeps a game well formed and takes one segment off the
/// stack on the tail for each plain move, until none is left.
pub proof fn lemma_play_unstacks(state: GameState, events: Seq<Event>, spare: nat)
    requires
        state.wf(),
        state.stacked(spare),
    ensures
        played(state, events).wf(),
        played(state, events).stacked(spare_after(spare, plain_moves(state, events))),
    decreases events.len(),
{
    if events.len() > 0 {
        lemma_play_unstacks(state, events.drop_last(), spare);
        lemma_event_unstacks(
            played(state, events.drop_last()),
            events.last(),
            spare_after(spare, plain_moves(state, events.drop_last())),
        );
    }
}

/// A settled game stays settled whatever happens to it, and so its body
/// keeps as many segments as its occupancy set has cells.
pub proof fn lemma_settled_for_good(state: GameState, events: Seq<Event>)
    requires
        state.wf(),
        state.settled(),
    ensures
        played(state, events).wf(),
        played(state, events).settled(),
        played(state, events).occupied.finite(),
        played(state, events).occupied.len() == played(state, events).body.len(),
{
    lemma_settled_is_unstacked(state);
    lemma_play_unstacks(state, events, 0);
    lemma_settled_is_unstacked(played(state, events));
    lemma_settled_sizes_agree(played(state, events));
}

/// A fresh game is well formed, and all its segments but the tail are
/// stacked on the tail.
pub proof fn lemma_fresh_game_stacked(width: u16, height: u16, started: Instant)
    ensures
        GameState::initial(width, height, started).wf(),
        GameState::initial(width, height, started).stacked((INITIAL_LENGTH - 1) as nat),
{
    let state = GameState::initial(width, height, started);
    assert(state.body[0] == GameState::start());
    assert(state.occupied =~= state.body.to_set());
}

/// In a game played from a fresh one, whatever the events: each plain move
/// takes one segment off the stack on the start cell, and from the third
/// plain move on the game is settled, so that its body has as many
/// segments as its occupancy set has cells.
pub proof fn lemma_settled_from_third_move(
    width: u16,
    height: u16,
    started: Instant,
    events: Seq<Event>,
)
    ensures
        played(GameState::initial(width, height, started), events).wf(),
        played(GameState::initial(width, height, started), events).stacked(
            spare_after(
                (INITIAL_LENGTH - 1) as nat,
                plain_moves(GameState::initial(width, height, started), events),
            ),
        ),
        plain_moves(GameState::initial(width, height, started), events) >= INITIAL_LENGTH - 1 ==> {
            &&& played(GameState::initial(width, height, started), events).settled()
            &&& played(GameState::initial(width, height, started), events).occupied.finite()
            &&& played(GameState::initial(width, height, started), events).occupied.len()
                == played(GameState::initial(width, height, started), events).body.len()
        },
{
    let fresh = GameState::initial(width, height, started);
    lemma_fresh_game_stacked(width, height, started);
    lemma_play_unstacks(fresh, events, (INITIAL_LENGTH - 1) as nat);
    if plain_moves(fresh, events) >= INITIAL_LENGTH - 1 {
        lemma_settled_is_unstacked(played(fresh, events));
        lemma_settled_sizes_agree(played(fresh, events));
    }
}

/// A head offered a cell of the ring of walls ends the game; score, snake
/// and everything else stay as they were.
pub proof fn lemma_wall_ends_game(state: GameState, x: int, y: int, fresh: Position)
    requires
        x == 0 || x == state.width - 1 || y == 0 || y == state.height - 1,
    ensures
        state.resolved(x, y, fresh) == (GameState { game_over: true, ..state }),
{
}

/// A head offered a cell off the board, below zero or beyond the last column
/// or row, ends the game; score, snake and everything else stay as they
/// were.
pub proof fn lemma_off_board_ends_game(state: GameState, x: int, y: int, fresh: Position)
    requires
        x < 0 || x >= state.width || y < 0 || y >= state.height,
    ensures
        state.resolved(x, y, fresh) == (GameState { game_over: true, ..state }),
{
}

/// A head offered a cell on which a segment lies, the tail or any other,
/// ends the game; score, snake and everything else stay as they were.
pub proof fn lemma_bite_ends_game(state: GameState, pos: Position, fresh: Position)
    requires
        state.wf(),
        state.body.contains(pos),
    ensures
        state.resolved(pos.0 as int, pos.1 as int, fresh) == (GameState {
            game_over: true,
            ..state
        }),
{
}

/// A head that comes onto the food in a game that is on: the score goes up
/// by exactly one, the snake grows by exactly one segment, which is the new
/// head, the tail stays, and the food moves to the cell drawn for it.
pub proof fn lemma_food_grows(state: GameState, pos: Position, fresh: Position)
    requires
        state.wf(),
        state.fed_at(pos.0 as int, pos.1 as int),
    ensures
        state.resolved(pos.0 as int, pos.1 as int, fresh).score == state.score + 1,
        state.resolved(pos.0 as int, pos.1 as int, fresh).body.len() == state.body.len() + 1,
        state.resolved(pos.0 as int, pos.1 as int, fresh).body == state.body.push(pos),
        state.resolved(pos.0 as int, pos.1 as int, fresh).occupied == state.occupied.insert(pos),
        state.resolved(pos.0 as int, pos.1 as int, fresh).head() == pos,
        state.resolved(pos.0 as int, pos.1 as int, fresh).tail() == state.tail(),
        state.resolved(pos.0 as int, pos.1 as int, fresh).food == fresh,
        !state.resolved(pos.0 as int, pos.1 as int, fresh).game_over,
{
    state.body.lemma_push_to_set_commute(pos);
}

/// A head that comes onto a free cell without food in a game that is on:
/// the cell becomes the head, the tail segment leaves, and score and length
/// stay as they were. The cell of the tail stays occupied exactly if another
/// segment lies on it.
pub proof fn lemma_plain_move_shifts(state: GameState, pos: Position, fresh: Position)
    requires
        state.wf(),
        !state.game_over,
        !state.collides(pos.0 as int, pos.1 as int),
        pos != state.food,
    ensures
        state.resolved(pos.0 as int, pos.1 as int, fresh).score == state.score,
        state.resolved(pos.0 as int, pos.1 as int, fresh).body.len() == state.body.len(),
        state.resolved(pos.0 as int, pos.1 as int, fresh).head() == pos,
        state.resolved(pos.0 as int, pos.1 as int, fresh).body == state.body.drop_first().push(pos),
        state.resolved(pos.0 as int, pos.1 as int, fresh).occupied.contains(state.tail())
            <==> state.body.drop_first().contains(state.tail()),
        state.resolved(pos.0 as int, pos.1 as int, fresh).food == state.food,
        !state.resolved(pos.0 as int, pos.1 as int, fresh).game_over,
{
    assert(state.body[0] == state.tail());
    state.body.drop_first().lemma_push_to_set_commute(pos);
}

/// A game that is over stays over, and no event changes it but for the
/// direction asked for, which no move will take any more.
pub proof fn lemma_over_is_final(state: GameState, event: Event)
    requires
        state.game_over,
    ensures
        after(state, event) == (GameState { direction: after(state, event).direction, ..state }),
        event is Tick ==> after(state, event) == state,
{
}

/// A game that is over stays over through every run of events, with its
/// snake, score and food as they were when it ended.
pub proof fn lemma_over_for_good(state: GameState, events: Seq<Event>)
    requires
        state.game_over,
    ensures
        played(state, events) == (GameState {
            direction: played(state, events).direction,
            ..state
        }),
    decreases events.len(),
{
    if events.len() > 0 {
        lemma_over_for_good(state, events.drop_last());
        lemma_over_is_final(played(state, events.drop_last()), events.last());
    }
}

/// Requests between two ticks are held against the direction of the last
/// move, not against each other: the last one that does not reverse that
/// direction is the one that stands.
pub proof fn lemma_last_fitting_request_stands(
    state: GameState,
    first: Direction,
    second: Direction,
)
    ensures
        state.turned(first).previous_direction == state.previous_direction,
        state.turned(first).turned(second) == if state.previous_direction.reverses(second) {
            state.turned(first)
        } else {
            state.turned(second)
        },
{
}

/// In a game played from a fresh one the direction asked for never reverses
/// the direction of the last move, so no move turns the head back onto the
/// segment behind it.
pub proof fn lemma_never_reverses(width: u16, height: u16, started: Instant, events: Seq<Event>)
    ensures
        !played(GameState::initial(width, height, started), events).previous_direction.reverses(
            played(GameState::initial(width, height, started), events).direction,
        ),
    decreases events.len(),
{
    if events.len() > 0 {
        lemma_never_reverses(width, height, started, events.drop_last());
    }
}

/// Asking the clock of a game never lowers its count of ticks, and in a
/// game that is over it changes nothing but that count.
pub proof fn lemma_run_counts_up(state: GameState, elapsed_nanos: nat, fresh: Position)
    ensures
        state.ticks <= state.ran(elapsed_nanos, fresh).ticks <= state.ticks + 1,
        state.game_over ==> state.ran(elapsed_nanos, fresh) == (GameState {
            ticks: state.ran(elapsed_nanos, fresh).ticks,
            ..state
        }),
{
}

/// The count of a clock of `per_second` ticks a second that stood at
/// `count` and was then asked at each of the times `polls` in turn,
/// nanoseconds since it was made, a tick being taken whenever one was due.
pub open spec fn count_after(count: nat, per_second: nat, polls: Seq<nat>) -> nat
    decreases polls.len(),
{
    if polls.len() == 0 {
        count
    } else if due(count_after(count, per_second, polls.drop_last()), per_second, polls.last()) {
        count_after(count, per_second, polls.drop_last()) + 1
    } else {
        count_after(count, per_second, polls.drop_last())
    }
}

/// The count of a clock never goes down, and one poll raises it by one at
/// most.
pub proof fn lemma_count_never_falls(count: nat, per_second: nat, polls: Seq<nat>, next: nat)
    ensures
        count <= count_after(count, per_second, polls),
        count_after(count, per_second, polls) <= count_after(count, per_second, polls.push(next))
            <= count_after(count, per_second, polls) + 1,
    decreases polls.len(),
{
    if polls.len() > 0 {
        lemma_count_never_falls(count, per_second, polls.drop_last(), polls.last());
    }
    assert(polls.push(next).drop_last() =~= polls);
}

/// A clock gives no more than one tick for each `1 / per_second` seconds of
/// its time: if it was asked only at times up to `horizon` nanoseconds and
/// has taken a tick since it stood at `count`, then the ticks before the
/// last one span less than `horizon`.
pub proof fn lemma_ticks_keep_to_rate(count: nat, per_second: nat, polls: Seq<nat>, horizon: nat)
    requires
        forall|i: int| 0 <= i < polls.len() ==> polls[i] <= horizon,
    ensures
        count_after(count, per_second, polls) == count || (count_after(count, per_second, polls)
            - 1) * NANOS_PER_SECOND < horizon * per_second,
    decreases polls.len(),
{
    if polls.len() > 0 {
        let before = count_after(count, per_second, polls.drop_last());
        lemma_ticks_keep_to_rate(count, per_second, polls.drop_last(), horizon);
        if due(before, per_second, polls.last()) {
            assert(polls.last() * per_second <= horizon * per_second) by (nonlinear_arith)
                requires
                    polls.last() <= horizon,
            ;
        }
    }
}

} // verus!
