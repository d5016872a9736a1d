//! The rules of the game, as functions on the states that the contracts of
//! a game speak of.

use crate::clock::due;
use crate::game::Action;
use crate::game::Direction;
use crate::game::GraphicsObject;
use crate::game::Key;
use crate::game::CLOSING_PAUSE_SECONDS;
use crate::game::FIRST_FOOD_X;
use crate::game::FIRST_FOOD_Y;
use crate::game::HEADER_WIDTH;
use crate::game::INITIAL_LENGTH;
use crate::game::START_X;
use crate::game::START_Y;
use crate::game::TICKS_PER_SECOND;
use crate::snake::Position;
use crate::text::banner;
use crate::text::header;
use std::time::Instant;
use vstd::prelude::*;

verus! {

/// An `Action` as contracts speak of it: its texts are sequences of
/// characters.
pub enum Call {
    Draw { glyph: GraphicsObject, x: u16, y: u16 },
    Flip,
    WriteHeader { text: Seq<char>, max_len: u16 },
    Pause { seconds: u64 },
    Cleanup,
    Print { text: Seq<char> },
}

/// The calls that a run of actions stands for.
pub open spec fn calls(actions: Seq<Action>) -> Seq<Call> {
    actions.map_values(|action: Action| action@)
}

/// The drawing of `glyph` in cell `at`.
pub open spec fn draw(glyph: GraphicsObject, at: Position) -> Call {
    Call::Draw { glyph, x: at.0, y: at.1 }
}

/// A game as contracts speak of it.
#[verifier::ext_equal]
pub struct GameState {
    /// The segments of the snake, tail first.
    pub body: Seq<Position>,
    /// The cells that the collision test takes for occupied.
    pub occupied: Set<Position>,
    /// Columns of the board, walls included.
    pub width: u16,
    /// Rows of the board, walls included.
    pub height: u16,
    /// The direction of the last move that was tried.
    pub previous_direction: Direction,
    /// The direction that the next move will take.
    pub direction: Direction,
    /// Whether the game has ended.
    pub game_over: bool,
    /// The cell of the food.
    pub food: Position,
    /// Food eaten so far.
    pub score: nat,
    /// Ticks that the clock has taken.
    pub ticks: nat,
    /// Ticks per second of the clock.
    pub per_second: nat,
    /// The instant at which the clock was made.
    pub started: Instant,
}

impl GameState {
    /// A fresh game on a board of `width` columns and `height` rows, its
    /// clock made at `started`.
    pub open spec fn initial(width: u16, height: u16, started: Instant) -> GameState {
        GameState {
            body: Seq::new(INITIAL_LENGTH as nat, |i: int| (START_X, START_Y)),
            occupied: set![(START_X, START_Y)],
            width,
            height,
            previous_direction: Direction::Still,
            direction: Direction::Still,
            game_over: false,
            food: (FIRST_FOOD_X, FIRST_FOOD_Y),
            score: 0,
            ticks: 0,
            per_second: TICKS_PER_SECOND as nat,
            started,
        }
    }

    /// What holds of every game: the occupied cells are exactly those on
    /// which a segment lies, and the snake has grown by one segment for each
    /// food eaten.
    pub open spec fn wf(self) -> bool {
        &&& self.occupied == self.body.to_set()
        &&& self.body.len() == INITIAL_LENGTH + self.score
    }

    /// The cell on which a fresh snake lies.
    pub open spec fn start() -> Position {
        (START_X, START_Y)
    }

    /// No two segments share a cell.
    pub open spec fn settled(self) -> bool {
        self.body.no_duplicates()
    }

    /// The segments that share a cell are stacked on the tail: beside the
    /// tail `spare` more segments lie on its cell, they come next in the
    /// body, and from the last of them on no two segments share a cell.
    pub open spec fn stacked(self, spare: nat) -> bool {
        &&& spare < self.body.len()
        &&& forall|i: int| 0 <= i <= spare ==> #[trigger] self.body[i] == self.body[0]
        &&& self.body.skip(spare as int).no_duplicates()
    }

    /// The cell of the head.
    pub open spec fn head(self) -> Position {
        self.body.last()
    }

    /// The cell of the tail.
    pub open spec fn tail(self) -> Position {
        self.body.first()
    }

    /// Whether column `x` and row `y` name a cell inside the ring of walls.
    pub open spec fn in_interior(self, x: int, y: int) -> bool {
        &&& 1 <= x <= self.width - 2
        &&& 1 <= y <= self.height - 2
    }

    /// The columns and the rows among which new food is drawn, each as the
    /// first one and the one after the last: those inside the ring of walls.
    pub open spec fn food_range(self) -> ((int, int), (int, int)) {
        ((1, self.width - 1), (1, self.height - 1))
    }

    /// Whether a head at column `x` and row `y` ends the game: the cell is a
    /// wall, lies off the board, or is occupied, by the tail too.
    pub open spec fn collides(self, x: int, y: int) -> bool {
        ||| !self.in_interior(x, y)
        ||| self.occupied.contains((x as u16, y as u16))
    }

    /// Where the next move would put the head. The column or row may lie off
    /// the board, below zero too.
    pub open spec fn candidate(self) -> (int, int) {
        (self.head().0 + self.direction.offset().0, self.head().1 + self.direction.offset().1)
    }

    /// The game after `requested` was asked for: the request is dropped when
    /// it reverses the direction of the last move, and taken otherwise.
    pub open spec fn turned(self, requested: Direction) -> GameState {
        if self.previous_direction.reverses(requested) {
            self
        } else {
            GameState { direction: requested, ..self }
        }
    }

    /// The game after the key `key`.
    pub open spec fn keyed(self, key: Key) -> GameState {
        match key.direction() {
            Some(requested) => self.turned(requested),
            None => self,
        }
    }

    /// The game after the head was offered the cell of column `x` and row
    /// `y`, where `fresh` is the cell drawn for the next food.
    ///
    /// A game that is over stays as it is. A collision ends the game and
    /// changes nothing else. Otherwise the cell becomes the head; on the food
    /// the score goes up by one, the food moves to `fresh` and the tail
    /// stays; elsewhere the tail segment leaves. The occupied cells are those
    /// of the body as it then is.
    pub open spec fn resolved(self, x: int, y: int, fresh: Position) -> GameState {
        let pos = (x as u16, y as u16);
        if self.game_over {
            self
        } else if self.collides(x, y) {
            GameState { game_over: true, ..self }
        } else if pos == self.food {
            GameState {
                body: self.body.push(pos),
                occupied: self.body.push(pos).to_set(),
                score: self.score + 1,
                food: fresh,
                ..self
            }
        } else {
            GameState {
                body: self.body.drop_first().push(pos),
                occupied: self.body.drop_first().push(pos).to_set(),
                ..self
            }
        }
    }

    /// What `resolved` asks the terminal to draw.
    pub open spec fn resolve_calls(self, x: int, y: int, fresh: Position) -> Seq<Call> {
        let pos = (x as u16, y as u16);
        if self.game_over || self.collides(x, y) {
            seq![]
        } else if pos == self.food {
            seq![draw(GraphicsObject::SnakeSegment, pos), draw(GraphicsObject::Food, fresh)]
        } else {
            seq![draw(GraphicsObject::SnakeSegment, pos), draw(GraphicsObject::Empty, self.tail())]
        }
    }

    /// Whether offering the head the cell of column `x` and row `y` feeds
    /// the snake: the game is on, the cell is free and holds the food.
    pub open spec fn fed_at(self, x: int, y: int) -> bool {
        &&& !self.game_over
        &&& !self.collides(x, y)
        &&& x == self.food.0
        &&& y == self.food.1
    }

    /// Whether a tick moves the snake: the game is on and has a direction.
    pub open spec fn moves(self) -> bool {
        !self.game_over && self.direction != Direction::Still
    }

    /// Whether a tick brings the head onto the food.
    pub open spec fn feeds(self) -> bool {
        &&& self.moves()
        &&& self.fed_at(self.candidate().0, self.candidate().1)
    }

    /// The game after one move was tried, where `fresh` is the cell drawn for
    /// the next food. The direction taken becomes the previous direction.
    pub open spec fn stepped(self, fresh: Position) -> GameState {
        if self.moves() {
            GameState { previous_direction: self.direction, ..self }.resolved(
                self.candidate().0,
                self.candidate().1,
                fresh,
            )
        } else {
            self
        }
    }

    /// What `stepped` asks the terminal to draw.
    pub open spec fn step_calls(self, fresh: Position) -> Seq<Call> {
        if self.moves() {
            self.resolve_calls(self.candidate().0, self.candidate().1, fresh)
        } else {
            seq![]
        }
    }

    /// What a tick asks of the terminal: the drawing of the move, then the
    /// header with the score as it is after the move.
    pub open spec fn tick_calls(self, fresh: Position) -> Seq<Call> {
        self.step_calls(fresh).push(
            Call::WriteHeader { text: header(self.stepped(fresh).score), max_len: HEADER_WIDTH },
        )
    }

    /// The game after the clock was asked at `elapsed_nanos` nanoseconds of
    /// its time: where a tick is due, one move is tried and the tick is
    /// counted; otherwise nothing changes.
    pub open spec fn ran(self, elapsed_nanos: nat, fresh: Position) -> GameState {
        if due(self.ticks, self.per_second, elapsed_nanos) {
            GameState {
                ticks: if self.ticks < u64::MAX {
                    self.ticks + 1
                } else {
                    self.ticks
                },
                ..self.stepped(fresh)
            }
        } else {
            self
        }
    }

    /// What `ran` asks of the terminal.
    pub open spec fn run_calls(self, elapsed_nanos: nat, fresh: Position) -> Seq<Call> {
        if due(self.ticks, self.per_second, elapsed_nanos) {
            self.tick_calls(fresh)
        } else {
            seq![]
        }
    }

    /// What the start of a game asks of the terminal: the food, the head, and
    /// both brought onto the screen.
    pub open spec fn start_calls(self) -> Seq<Call> {
        seq![
            draw(GraphicsObject::Food, self.food),
            draw(GraphicsObject::SnakeSegment, self.head()),
            Call::Flip,
        ]
    }

    /// What the end of a game asks of the terminal: a pause, the screen
    /// handed back, and the banner with the score.
    pub open spec fn end_calls(self) -> Seq<Call> {
        seq![
            Call::Pause { seconds: CLOSING_PAUSE_SECONDS },
            Call::Cleanup,
            Call::Print { text: banner(self.score) },
        ]
    }
}

} // verus!
