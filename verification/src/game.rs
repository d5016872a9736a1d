//! The game: a round of snake, changed by input and by ticks according to
//! the rules. Nothing here draws or waits; each function returns, in order,
//! what it asks the terminal to do.

use crate::clock::due;
use crate::clock::Clock;
use crate::random::random_range;
use crate::rules::calls;
use crate::rules::draw;
use crate::rules::Call;
use crate::rules::GameState;
use crate::snake::Snake;
use crate::text::banner_text;
use crate::text::header_text;
use vstd::prelude::*;

verus! {

/// Segments of a fresh snake.
pub const INITIAL_LENGTH: u16 = 4;

/// Column of the cell on which a fresh snake lies.
pub const START_X: u16 = 10;

/// Row of the cell on which a fresh snake lies.
pub const START_Y: u16 = 10;

/// Column of the first food.
pub const FIRST_FOOD_X: u16 = 10;

/// Row of the first food.
pub const FIRST_FOOD_Y: u16 = 15;

/// Ticks per second of a game's clock.
pub const TICKS_PER_SECOND: u32 = 30;

/// Width that the score header is given.
pub const HEADER_WIDTH: u16 = 10;

/// Seconds for which the last frame stays up when a game ends.
pub const CLOSING_PAUSE_SECONDS: u64 = 1;

/// A heading for the snake. `Still` is that of a game not yet started.
#[derive(Clone, Copy, Debug, PartialEq, Eq, Structural)]
pub enum Direction {
    Up,
    Down,
    Left,
    Right,
    Still,
}

impl Direction {
    /// The step that one move in this direction takes, as columns and rows.
    /// Rows count downwards.
    pub open spec fn offset(self) -> (int, int) {
        match self {
            Direction::Up => (0, -1),
            Direction::Down => (0, 1),
            Direction::Left => (-1, 0),
            Direction::Right => (1, 0),
            Direction::Still => (0, 0),
        }
    }

    /// Whether `self` and `other` point against each other.
    pub open spec fn reverses(self, other: Direction) -> bool {
        ||| self == Direction::Up && other == Direction::Down
        ||| self == Direction::Down && other == Direction::Up
        ||| self == Direction::Left && other == Direction::Right
        ||| self == Direction::Right && other == Direction::Left
    }
}

/// What can be drawn in a cell.
#[derive(Clone, Copy, Debug, PartialEq, Eq, Structural)]
pub enum GraphicsObject {
    SnakeSegment,
    Food,
    Empty,
}

/// A key press, as far as a game reads it.
#[derive(Clone, Copy, Debug, PartialEq, Eq, Structural)]
pub enum Key {
    Up,
    Down,
    Left,
    Right,
    Char(char),
    Other,
}

impl Key {
    /// The direction that a key asks for, if it asks for one: the arrow keys
    /// and the letters w, s, a and d.
    pub open spec fn direction(self) -> Option<Direction> {
        match self {
            Key::Up => Some(Direction::Up),
            Key::Down => Some(Direction::Down),
            Key::Left => Some(Direction::Left),
            Key::Right => Some(Direction::Right),
            Key::Char(c) => if c == 'w' {
                Some(Direction::Up)
            } else if c == 's' {
                Some(Direction::Down)
            } else if c == 'a' {
                Some(Direction::Left)
            } else if c == 'd' {
                Some(Direction::Right)
            } else {
                None
            },
            Key::Other => None,
        }
    }
}

/// What a game asks of the terminal around it. A function of the game hands
/// these back in the order in which they are to be carried out.
#[derive(Debug, PartialEq, Eq)]
pub enum Action {
    /// Draw `glyph` in the cell of column `x` and row `y`.
    Draw { glyph: GraphicsObject, x: u16, y: u16 },
    /// Bring what was drawn so far onto the screen.
    Flip,
    /// Show `text` in the header, which has room for `max_len` characters.
    WriteHeader { text: String, max_len: u16 },
    /// Wait for `seconds` seconds.
    Pause { seconds: u64 },
    /// Hand the screen back as it was found.
    Cleanup,
    /// Print `text` as a line of its own.
    Print { text: String },
}

impl View for Action {
    type V = Call;

    open spec fn view(&self) -> Call {
        match *self {
            Action::Draw { glyph, x, y } => Call::Draw { glyph, x, y },
            Action::Flip => Call::Flip,
            Action::WriteHeader { text, max_len } => Call::WriteHeader { text: text@, max_len },
            Action::Pause { seconds } => Call::Pause { seconds },
            Action::Cleanup => Call::Cleanup,
            Action::Print { text } => Call::Print { text: text@ },
        }
    }
}

/// A round of snake.
pub struct Game {
    snake: Snake,
    board_size: (u16, u16),
    clock: Clock,
    previous_direction: Direction,
    direction: Direction,
    game_over: bool,
    food_pos: (u16, u16),
    score: u64,
}

impl View for Game {
    type V = GameState;

    closed spec fn view(&self) -> GameState {
        GameState {
            body: self.snake.body(),
            occupied: self.snake.occupied(),
            width: self.board_size.0,
            height: self.board_size.1,
            previous_direction: self.previous_direction,
            direction: self.direction,
            game_over: self.game_over,
            food: self.food_pos,
            score: self.score as nat,
            ticks: self.clock.ticks(),
            per_second: self.clock.per_second(),
            started: self.clock.started(),
        }
    }
}

impl Game {
    /// What holds of every game that `new` made and the functions below
    /// changed.
    pub open spec fn wf(&self) -> bool {
        self@.wf()
    }

    /// A fresh game on a board of `w` columns and `h` rows, walls included.
    pub fn new(w: u16, h: u16) -> (game: Game)
        ensures
            game.wf(),
            game@ == GameState::initial(w, h, game@.started),
    {
        Game {
            snake: Snake::new((START_X, START_Y), INITIAL_LENGTH),
            board_size: (w, h),
            clock: Clock::new(TICKS_PER_SECOND),
            previous_direction: Direction::Still,
            direction: Direction::Still,
            game_over: false,
            food_pos: (FIRST_FOOD_X, FIRST_FOOD_Y),
            score: 0,
        }
    }

    /// Whether the game has ended.
    pub fn game_over(&self) -> (over: bool)
        ensures
            over == self@.game_over,
    {
        self.game_over
    }

    /// Food eaten so far.
    pub fn score(&self) -> (score: u64)
        ensures
            score == self@.score,
    {
        self.score
    }

    /// The cell of the food.
    pub fn food_pos(&self) -> (pos: (u16, u16))
        ensures
            pos == self@.food,
    {
        self.food_pos
    }

    /// The direction that the next move will take.
    pub fn direction(&self) -> (direction: Direction)
        ensures
            direction == self@.direction,
    {
        self.direction
    }

    /// The direction of the last move that was tried.
    pub fn previous_direction(&self) -> (direction: Direction)
        ensures
            direction == self@.previous_direction,
    {
        self.previous_direction
    }

    /// Columns and rows of the board, walls included.
    pub fn board_size(&self) -> (size: (u16, u16))
        ensures
            size.0 == self@.width,
            size.1 == self@.height,
    {
        self.board_size
    }

    /// The snake.
    pub fn snake(&self) -> (snake: &Snake)
        ensures
            snake.body() == self@.body,
            snake.occupied() == self@.occupied,
    {
        &self.snake
    }

    /// Ticks that the clock has taken.
    pub fn ticks(&self) -> (ticks: u64)
        ensures
            ticks == self@.ticks,
    {
        self.clock.count()
    }

    /// Asks for `new_direction`. A request that reverses the direction of the
    /// last move is dropped; any other takes the place of the one before.
    pub fn set_direction(&mut self, new_direction: Direction)
        ensures
            final(self)@ == old(self)@.turned(new_direction),
    {
        let reversing = match (self.previous_direction, new_direction) {
            (Direction::Up, Direction::Down) => true,
            (Direction::Down, Direction::Up) => true,
            (Direction::Left, Direction::Right) => true,
            (Direction::Right, Direction::Left) => true,
            _ => false,
        };
        if !reversing {
            self.direction = new_direction;
        }
    }

    /// Takes a key press: the arrow keys and the letters w, s, a and d ask
    /// for a direction, every other key is passed over.
    pub fn process_keystroke(&mut self, key: Key)
        ensures
            final(self)@ == old(self)@.keyed(key),
    {
        match key {
            Key::Up | Key::Char('w') => self.set_direction(Direction::Up),
            Key::Down | Key::Char('s') => self.set_direction(Direction::Down),
            Key::Left | Key::Char('a') => self.set_direction(Direction::Left),
            Key::Right | Key::Char('d') => self.set_direction(Direction::Right),
            _ => {},
        }
    }

    /// Whether `pos` lies inside the ring of walls.
    fn in_interior(&self, pos: (u16, u16)) -> (inside: bool)
        ensures
            inside == self@.in_interior(pos.0 as int, pos.1 as int),
    {
        let (w, h) = self.board_size;
        1 <= pos.0 && pos.0 < w.saturating_sub(1) && 1 <= pos.1 && pos.1 < h.saturating_sub(1)
    }

    /// Puts the food on `pos` and asks for it to be drawn there.
    pub fn place_food(&mut self, pos: (u16, u16)) -> (action: Action)
        ensures
            final(self)@ == (GameState { food: pos, ..old(self)@ }),
            action@ == draw(GraphicsObject::Food, pos),
    {
        self.food_pos = pos;
        Action::Draw { glyph: GraphicsObject::Food, x: pos.0, y: pos.1 }
    }

    /// The columns and the rows among which new food is drawn, each as the
    /// first one and the one after the last, on a board that has cells
    /// inside its walls.
    pub fn food_range(&self) -> (range: ((u16, u16), (u16, u16)))
        requires
            self@.width >= 3,
            self@.height >= 3,
        ensures
            ((range.0.0 as int, range.0.1 as int), (range.1.0 as int, range.1.1 as int))
                == self@.food_range(),
    {
        ((1, self.board_size.0 - 1), (1, self.board_size.1 - 1))
    }

    /// Puts the food on a cell drawn at random from those inside the ring of
    /// walls, the cells of the snake among them: the column and the row are
    /// drawn each from its range.
    fn generate_new_food(&mut self) -> (action: Action)
        requires
            old(self)@.width >= 3,
            old(self)@.height >= 3,
        ensures
            final(self)@ == (GameState { food: final(self)@.food, ..old(self)@ }),
            final(self)@.in_interior(final(self)@.food.0 as int, final(self)@.food.1 as int),
            action@ == draw(GraphicsObject::Food, final(self)@.food),
    {
        let (columns, rows) = self.food_range();
        let x: u16 = random_range(columns.0, columns.1);
        let y: u16 = random_range(rows.0, rows.1);
        self.place_food((x, y))
    }

    /// Offers the head the cell `new_pos`.
    ///
    /// A game that is over stays as it is. If the cell is a wall, lies off
    /// the board or is occupied, the game ends and nothing else changes.
    /// Otherwise the cell becomes the head. On the food the score goes up by
    /// one and the food moves to a cell drawn at random inside the walls; the
    /// tail stays. Elsewhere the tail segment leaves.
    pub fn process_new_head_pos(&mut self, new_pos: (u16, u16)) -> (actions: Vec<Action>)
        requires
            old(self).wf(),
        ensures
            final(self).wf(),
            final(self)@ == old(self)@.resolved(
                new_pos.0 as int,
                new_pos.1 as int,
                final(self)@.food,
            ),
            calls(actions@) == old(self)@.resolve_calls(
                new_pos.0 as int,
                new_pos.1 as int,
                final(self)@.food,
            ),
            old(self)@.fed_at(new_pos.0 as int, new_pos.1 as int) ==> final(self)@.in_interior(
                final(self)@.food.0 as int,
                final(self)@.food.1 as int,
            ),
    {
        let mut actions: Vec<Action> = Vec::new();
        if self.game_over {
            return actions;
        }
        if !self.in_interior(new_pos) || self.snake.is_inside(&new_pos) {
            self.game_over = true;
            return actions;
        }
        actions.push(
            Action::Draw { glyph: GraphicsObject::SnakeSegment, x: new_pos.0, y: new_pos.1 },
        );
        self.snake.add_segment(new_pos);
        if new_pos.0 == self.food_pos.0 && new_pos.1 == self.food_pos.1 {
            proof {
                self.snake.lemma_len_bounded();
            }
            self.score = self.score + 1;
            let action = self.generate_new_food();
            actions.push(action);
        } else {
            let tail = *self.snake.get_last_segment();
            actions.push(Action::Draw { glyph: GraphicsObject::Empty, x: tail.0, y: tail.1 });
            self.snake.remove_last_segment();
            assert(self@.body =~= old(self)@.body.drop_first().push(new_pos));
        }
        assert(calls(actions@) =~= old(self)@.resolve_calls(
            new_pos.0 as int,
            new_pos.1 as int,
            self@.food,
        ));
        actions
    }

    /// Tries one move in the current direction, which thereby becomes the
    /// previous direction. A game that is over, or one without a direction,
    /// stays as it is.
    pub fn try_move_player(&mut self) -> (actions: Vec<Action>)
        requires
            old(self).wf(),
        ensures
            final(self).wf(),
            final(self)@ == old(self)@.stepped(final(self)@.food),
            calls(actions@) == old(self)@.step_calls(final(self)@.food),
            old(self)@.feeds() ==> final(self)@.in_interior(
                final(self)@.food.0 as int,
                final(self)@.food.1 as int,
            ),
    {
        if self.game_over {
            return Vec::new();
        }
        let head = *self.snake.get_first_segment();
        let (x, y): (i32, i32) = match self.direction {
            Direction::Up => (head.0 as i32, head.1 as i32 - 1),
            Direction::Down => (head.0 as i32, head.1 as i32 + 1),
            Direction::Left => (head.0 as i32 - 1, head.1 as i32),
            Direction::Right => (head.0 as i32 + 1, head.1 as i32),
            Direction::Still => return Vec::new(),
        };
        self.previous_direction = self.direction;
        if x < 0 || x > 0xffff || y < 0 || y > 0xffff {
            self.game_over = true;
            return Vec::new();
        }
        self.process_new_head_pos((x as u16, y as u16))
    }

    /// One tick: a move is tried, then the header is written with the score.
    pub fn on_clock(&mut self) -> (actions: Vec<Action>)
        requires
            old(self).wf(),
        ensures
            final(self).wf(),
            final(self)@ == old(self)@.stepped(final(self)@.food),
            calls(actions@) == old(self)@.tick_calls(final(self)@.food),
            old(self)@.feeds() ==> final(self)@.in_interior(
                final(self)@.food.0 as int,
                final(self)@.food.1 as int,
            ),
    {
        let mut actions = self.try_move_player();
        actions.push(Action::WriteHeader { text: header_text(self.score), max_len: HEADER_WIDTH });
        actions
    }

    /// Asks the clock at `elapsed_nanos` nanoseconds of its time: where a
    /// tick is due, the tick is run and counted; otherwise nothing happens.
    pub fn run_at(&mut self, elapsed_nanos: u128) -> (actions: Vec<Action>)
        requires
            old(self).wf(),
        ensures
            final(self).wf(),
            final(self)@ == old(self)@.ran(elapsed_nanos as nat, final(self)@.food),
            calls(actions@) == old(self)@.run_calls(elapsed_nanos as nat, final(self)@.food),
            old(self)@.feeds() && due(old(self)@.ticks, old(self)@.per_second, elapsed_nanos as nat)
                ==> final(self)@.in_interior(
                final(self)@.food.0 as int,
                final(self)@.food.1 as int,
            ),
    {
        if self.clock.rdy_at(elapsed_nanos) {
            let actions = self.on_clock();
            self.clock.ack();
            actions
        } else {
            Vec::new()
        }
    }

    /// Asks the clock now and runs the tick that is due, if one is. What
    /// happens is what `run_at` does for the time that was read.
    pub fn run(&mut self) -> (actions: Vec<Action>)
        requires
            old(self).wf(),
        ensures
            final(self).wf(),
            exists|elapsed_nanos: nat|
                {
                    &&& final(self)@ == old(self)@.ran(elapsed_nanos, final(self)@.food)
                    &&& calls(actions@) == old(self)@.run_calls(elapsed_nanos, final(self)@.food)
                },
            old(self)@.feeds() && final(self)@ != old(self)@ ==> final(self)@.in_interior(
                final(self)@.food.0 as int,
                final(self)@.food.1 as int,
            ),
    {
        let elapsed_nanos: u128 = self.clock.elapsed_nanos();
        self.run_at(elapsed_nanos)
    }

    /// Opens the game on the screen: the food and the head are drawn. The
    /// game itself does not change.
    pub fn start(&self) -> (actions: Vec<Action>)
        requires
            self.wf(),
        ensures
            calls(actions@) == self@.start_calls(),
    {
        let head = *self.snake.get_first_segment();
        let mut actions: Vec<Action> = Vec::new();
        actions.push(
            Action::Draw { glyph: GraphicsObject::Food, x: self.food_pos.0, y: self.food_pos.1 },
        );
        actions.push(Action::Draw { glyph: GraphicsObject::SnakeSegment, x: head.0, y: head.1 });
        actions.push(Action::Flip);
        actions
    }

    /// Closes the game: after a pause the screen is handed back and the
    /// banner with the score is printed. The game itself does not change.
    pub fn end(&self) -> (actions: Vec<Action>)
        ensures
            calls(actions@) == self@.end_calls(),
    {
        let mut actions: Vec<Action> = Vec::new();
        actions.push(Action::Pause { seconds: CLOSING_PAUSE_SECONDS });
        actions.push(Action::Cleanup);
        actions.push(Action::Print { text: banner_text(self.score) });
        actions
    }
}

} // verus!
