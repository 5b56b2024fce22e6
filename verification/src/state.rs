//! The game state and its per-frame update.
//!
//! A frame runs in this order: the paddles follow the keys, the background
//! and the logo take their step, the ball moves by its velocity, takes the
//! response of a paddle that it overlaps, turns back at the top and bottom
//! walls, and at last goals are counted and a won match starts afresh.

pub mod background;
pub mod entity;
pub mod fixed;
pub mod laws;
pub mod score;

use vstd::prelude::*;
use crate::state::background::{Background, BackgroundView};
use crate::state::entity::{Entity, EntityView, Size, Vec2, Vec2View};
use crate::state::fixed::{fixed_mul, fixed_product, quot, UNIT};
use crate::state::score::{Score, TallyView};

verus! {

/// The spin constant: the vertical speed that a hit adds for each paddle
/// height between the centres of paddle and ball, 4 pixels per frame.
pub const PADDLE_SPIN: i64 = 4000;

/// The factor by which a paddle speeds the ball up: 1.05.
pub const BALL_ACC: i64 = 1050;

/// The horizontal speed of a served ball: 5 pixels per frame.
pub const BALL_SPEED: i64 = 5000;

/// The speed of a paddle while its key is down: 8 pixels per frame.
pub const PADDLE_SPEED: i64 = 8000;

/// The width of the arena: 1280 pixels.
pub const WINDOW_WIDTH: i64 = 1_280_000;

/// The height of the arena: 960 pixels.
pub const WINDOW_HEIGHT: i64 = 960_000;

/// The number of goals that wins a match.
pub const SCORE_TO_WIN: i32 = 2;

/// The distance of each paddle from its side of the arena: 16 pixels.
pub const PADDLE_MARGIN: i64 = 16_000;

/// The angle by which the logo turns per frame: 0.01.
pub const LOGO_SPIN: i64 = 10;

/// The largest magnitude of a coordinate or a speed with which a frame can
/// start: a million million pixels. It leaves every intermediate value of a
/// frame inside 64 bits, and every new game inside the limit.
pub const COORD_LIMIT: i64 = 1_000_000_000_000_000;

/// Which keys are down in a frame.
#[derive(Clone, Copy, Debug, PartialEq, Eq, Structural)]
pub struct Input {
    pub player1_up: bool,
    pub player1_down: bool,
    pub player2_up: bool,
    pub player2_down: bool,
}

impl Input {
    /// No key down.
    pub fn none() -> (r: Input)
        ensures
            r == (Input {
                player1_up: false,
                player1_down: false,
                player2_up: false,
                player2_down: false,
            }),
    {
        Input { player1_up: false, player1_down: false, player2_up: false, player2_down: false }
    }
}

/// The paddle after a frame in which its keys were `up` and `down`: each
/// key that is down moves it by the paddle speed, with nothing to stop it.
pub open spec fn steered(paddle: EntityView, up: bool, down: bool) -> EntityView {
    let lift = if up { PADDLE_SPEED as int } else { 0 };
    let drop = if down { PADDLE_SPEED as int } else { 0 };
    EntityView {
        position: Vec2View { x: paddle.position.x, y: paddle.position.y - lift + drop },
        ..paddle
    }
}

/// Whether the ball reaches the top or the bottom of the arena.
pub open spec fn at_wall(ball: EntityView) -> bool {
    ball.position.y <= 0 || ball.position.y + ball.height >= WINDOW_HEIGHT
}

/// The ball after the walls had their say: at a wall its vertical velocity
/// is inverted, and its position stays.
pub open spec fn wall_bounced(ball: EntityView) -> EntityView {
    if at_wall(ball) {
        EntityView {
            velocity: Vec2View { x: ball.velocity.x, y: -ball.velocity.y },
            ..ball
        }
    } else {
        ball
    }
}

/// The vertical velocity that `paddle` adds to a `ball` that it hits: the
/// spin constant times the distance from the paddle's centre down to the
/// ball's, as a part of the paddle's height. A ball hit below the centre is
/// sent downward, one hit above it upward.
pub open spec fn spin(ball: EntityView, paddle: EntityView) -> int {
    -quot(
        PADDLE_SPIN * (paddle.y_coordinate_centre() - ball.y_coordinate_centre()),
        paddle.height,
    )
}

/// The ball after `paddle` hit it: the horizontal velocity is reversed and
/// scaled by the acceleration factor, the spin is added to the vertical
/// velocity, and the position stays.
pub open spec fn struck(ball: EntityView, paddle: EntityView) -> EntityView {
    EntityView {
        velocity: Vec2View {
            x: -fixed_product(ball.velocity.x, BALL_ACC as int),
            y: ball.velocity.y + spin(ball, paddle),
        },
        ..ball
    }
}

/// The paddle that hits the ball, if one does: the first of the two whose
/// box overlaps the ball's.
pub open spec fn paddle_hit(ball: EntityView, player1: EntityView, player2: EntityView) -> Option<
    EntityView,
> {
    if ball.intersects(player1) {
        Some(player1)
    } else if ball.intersects(player2) {
        Some(player2)
    } else {
        None
    }
}

/// The whole game: background, both paddles, the ball, the logo's angle and
/// the score.
#[derive(Clone, Copy, Debug, PartialEq, Eq, Structural)]
pub struct GameState {
    pub background: Background,
    pub player1: Entity,
    pub player2: Entity,
    pub ball: Entity,
    pub rotation: i64,
    pub score: Score,
}

/// What a [`GameState`] stands for.
pub struct GameStateView {
    pub background: BackgroundView,
    pub player1: EntityView,
    pub player2: EntityView,
    pub ball: EntityView,
    pub rotation: int,
    pub score: TallyView,
}

impl GameStateView {
    /// The state in which a game starts, for entities of the given extents:
    /// the paddles at mid-height near their walls, the ball in the middle of
    /// the arena on its way to player 1.
    pub open spec fn start(player1: Size, player2: Size, ball: Size) -> GameStateView {
        let place1 = Vec2View {
            x: PADDLE_MARGIN as int,
            y: quot(WINDOW_HEIGHT - player1.height * UNIT, 2),
        };
        let place2 = Vec2View {
            x: WINDOW_WIDTH - player2.width * UNIT - PADDLE_MARGIN,
            y: quot(WINDOW_HEIGHT - player2.height * UNIT, 2),
        };
        let centre = Vec2View { x: quot(WINDOW_WIDTH as int, 2), y: quot(WINDOW_HEIGHT as int, 2) };
        let rest = Vec2View { x: 0, y: 0 };
        GameStateView {
            background: BackgroundView::start(),
            player1: EntityView {
                width: player1.width * UNIT,
                height: player1.height * UNIT,
                position: place1,
                original: place1,
                velocity: rest,
            },
            player2: EntityView {
                width: player2.width * UNIT,
                height: player2.height * UNIT,
                position: place2,
                original: place2,
                velocity: rest,
            },
            ball: EntityView {
                width: ball.width * UNIT,
                height: ball.height * UNIT,
                position: centre,
                original: centre,
                velocity: Vec2View { x: -BALL_SPEED, y: 0 },
            },
            rotation: 0,
            score: TallyView::zero(),
        }
    }

    /// Whether both paddles have a height to divide by.
    pub open spec fn paddles_tall(self) -> bool {
        self.player1.height > 0 && self.player2.height > 0
    }

    /// Whether every coordinate and speed of the three entities is at most
    /// `limit` in magnitude.
    pub open spec fn within(self, limit: int) -> bool {
        &&& self.player1.within(limit)
        &&& self.player2.within(limit)
        &&& self.ball.within(limit)
    }

    /// Whether a frame can start from this state: the paddles have a height
    /// and no quantity is so large that the frame would leave the machine's
    /// integers.
    pub open spec fn can_update(self) -> bool {
        &&& self.paddles_tall()
        &&& self.within(COORD_LIMIT as int)
        &&& self.rotation <= i64::MAX - LOGO_SPIN
        &&& self.score.player1 < i32::MAX
        &&& self.score.player2 < i32::MAX
    }

    /// The state after the paddles followed the keys.
    pub open spec fn process_user_input(self, input: Input) -> GameStateView {
        GameStateView {
            player1: steered(self.player1, input.player1_up, input.player1_down),
            player2: steered(self.player2, input.player2_up, input.player2_down),
            ..self
        }
    }

    /// The state after the logo turned by its step.
    pub open spec fn update_logo(self) -> GameStateView {
        GameStateView { rotation: self.rotation + LOGO_SPIN, ..self }
    }

    /// The ball moved by its velocity and hit by the paddle that it then
    /// overlaps, before the walls are looked at.
    pub open spec fn ball_after_paddles(self) -> EntityView {
        let moved = self.ball.advance();
        match paddle_hit(moved, self.player1, self.player2) {
            Some(paddle) => struck(moved, paddle),
            None => moved,
        }
    }

    /// The state after the ball moved and met paddles and walls.
    pub open spec fn ball_bounce(self) -> GameStateView {
        GameStateView { ball: wall_bounced(self.ball_after_paddles()), ..self }
    }

    /// The state after a goal on the left, which counts for player 2 and
    /// serves the ball to the left again.
    pub open spec fn goal_left(self) -> GameStateView {
        GameStateView {
            score: self.score.goal_player_2(),
            ball: self.ball.reset(Vec2View { x: -BALL_SPEED, y: 0 }),
            ..self
        }
    }

    /// The state after a goal on the right, which counts for player 1 and
    /// serves the ball to the right again.
    pub open spec fn goal_right(self) -> GameStateView {
        GameStateView {
            score: self.score.goal_player_1(),
            ball: self.ball.reset(Vec2View { x: BALL_SPEED as int, y: 0 }),
            ..self
        }
    }

    /// The state after goals were counted: first one on the left, then one
    /// on the right, each looking at where the ball then is.
    pub open spec fn update_score(self) -> GameStateView {
        let left = if self.ball.position.x <= 0 {
            self.goal_left()
        } else {
            self
        };
        if left.ball.position.x >= WINDOW_WIDTH {
            left.goal_right()
        } else {
            left
        }
    }

    /// The state at the end of a frame, before a won match is looked for.
    pub open spec fn played(self, input: Input) -> GameStateView {
        GameStateView {
            background: self.background.pulse(),
            ..self.process_user_input(input)
        }.update_logo().ball_bounce().update_score()
    }

    /// Whether the frame ends a match: a player has reached the winning
    /// number of goals.
    pub open spec fn wins(self, input: Input) -> bool {
        self.played(input).score.reached(SCORE_TO_WIN as int)
    }

    /// The state one frame later. A won match starts afresh in the same
    /// frame: both counters go back to zero.
    pub open spec fn update(self, input: Input) -> GameStateView {
        if self.wins(input) {
            GameStateView { score: TallyView::zero(), ..self.played(input) }
        } else {
            self.played(input)
        }
    }
}

impl View for GameState {
    type V = GameStateView;

    open spec fn view(&self) -> GameStateView {
        GameStateView {
            background: self.background@,
            player1: self.player1@,
            player2: self.player2@,
            ball: self.ball@,
            rotation: self.rotation as int,
            score: self.score@,
        }
    }
}

impl GameState {
    /// The state in which a game starts, for entities of the given sizes.
    pub fn new(player1: Size, player2: Size, ball: Size) -> (r: GameState)
        ensures
            r@ == GameStateView::start(player1, player2, ball),
            r.player1.size == player1,
            r.player2.size == player2,
            r.ball.size == ball,
    {
        let player1_position = Vec2::new(
            PADDLE_MARGIN,
            (WINDOW_HEIGHT - player1.height as i64 * UNIT) / 2,
        );
        let player2_position = Vec2::new(
            WINDOW_WIDTH - player2.width as i64 * UNIT - PADDLE_MARGIN,
            (WINDOW_HEIGHT - player2.height as i64 * UNIT) / 2,
        );
        let ball_position = Vec2::new(WINDOW_WIDTH / 2, WINDOW_HEIGHT / 2);
        let ball_velocity = Vec2::new(-BALL_SPEED, 0);
        GameState {
            background: Background::new(),
            player1: Entity::new(player1, player1_position),
            player2: Entity::new(player2, player2_position),
            ball: Entity::with_velocity(ball, ball_position, ball_velocity),
            rotation: 0,
            score: Score::new(0, 0),
        }
    }

    /// Whether a frame can start from this state.
    pub fn can_update(&self) -> (r: bool)
        ensures
            r == self@.can_update(),
    {
        self.player1.size.height > 0 && self.player2.size.height > 0 && entity_within(
            &self.player1,
            COORD_LIMIT,
        ) && entity_within(&self.player2, COORD_LIMIT) && entity_within(&self.ball, COORD_LIMIT)
            && self.rotation <= i64::MAX - LOGO_SPIN && self.score.player1 < i32::MAX
            && self.score.player2 < i32::MAX
    }

    /// Lets the paddles follow the keys.
    pub fn process_user_input(&mut self, input: Input)
        requires
            i64::MIN + PADDLE_SPEED <= old(self).player1.position.y <= i64::MAX - PADDLE_SPEED,
            i64::MIN + PADDLE_SPEED <= old(self).player2.position.y <= i64::MAX - PADDLE_SPEED,
        ensures
            final(self)@ == old(self)@.process_user_input(input),
    {
        if input.player1_up {
            self.player1.position.y -= PADDLE_SPEED;
        }
        if input.player1_down {
            self.player1.position.y += PADDLE_SPEED;
        }
        if input.player2_up {
            self.player2.position.y -= PADDLE_SPEED;
        }
        if input.player2_down {
            self.player2.position.y += PADDLE_SPEED;
        }
    }

    /// Turns the logo by its step.
    pub fn update_logo(&mut self)
        requires
            old(self).rotation <= i64::MAX - LOGO_SPIN,
        ensures
            final(self)@ == old(self)@.update_logo(),
    {
        self.rotation = self.rotation + LOGO_SPIN;
    }

    /// Moves the ball and lets paddles and walls turn it. The paddles may
    /// have moved in this frame already.
    pub fn ball_bounce(&mut self)
        requires
            old(self)@.paddles_tall(),
            old(self)@.within(COORD_LIMIT + PADDLE_SPEED),
        ensures
            final(self)@ == old(self)@.ball_bounce(),
    {
        self.ball.update();
        let ball = self.ball;
        let paddle_hit = if ball.intersects(&self.player1) {
            Some(self.player1)
        } else if ball.intersects(&self.player2) {
            Some(self.player2)
        } else {
            None
        };
        if let Some(paddle) = paddle_hit {
            self.ball.velocity.x = -fixed_mul(ball.velocity.x, BALL_ACC);
            let offset = paddle.y_coordinate_centre() - ball.y_coordinate_centre();
            self.ball.velocity.y = ball.velocity.y + -(PADDLE_SPIN * offset / paddle.height());
        }
        if self.ball.position.y <= 0 || self.ball.position.y + self.ball.height() >= WINDOW_HEIGHT {
            self.ball.velocity.y = -self.ball.velocity.y;
        }
    }

    /// Counts a goal where the ball has left the arena by a side, and
    /// serves it again.
    pub fn update_score(&mut self)
        requires
            old(self).score.player1 < i32::MAX,
            old(self).score.player2 < i32::MAX,
        ensures
            final(self)@ == old(self)@.update_score(),
    {
        if self.ball.position.x <= 0 {
            self.score.goal_player_2();
            self.ball.reset(Vec2::new(-BALL_SPEED, 0));
        }
        if self.ball.position.x >= WINDOW_WIDTH {
            self.score.goal_player_1();
            self.ball.reset(Vec2::new(BALL_SPEED, 0));
        }
    }

    /// Plays one frame, and says whether it ended a match.
    pub fn update(&mut self, input: Input) -> (won: bool)
        requires
            old(self)@.can_update(),
        ensures
            final(self)@ == old(self)@.update(input),
            won == old(self)@.wins(input),
    {
        self.process_user_input(input);
        self.background.update();
        self.update_logo();
        self.ball_bounce();
        self.update_score();
        if self.score.player1 >= SCORE_TO_WIN || self.score.player2 >= SCORE_TO_WIN {
            self.score.reset_score();
            true
        } else {
            false
        }
    }

    /// Plays one frame if a frame can start from this state, and says
    /// whether it ended a match; otherwise leaves the state as it is and
    /// returns `None`.
    pub fn try_update(&mut self, input: Input) -> (r: Option<bool>)
        ensures
            r is Some <==> old(self)@.can_update(),
            r matches Some(won) ==> final(self)@ == old(self)@.update(input) && won == old(
                self,
            )@.wins(input),
            r is None ==> *final(self) == *old(self),
    {
        if self.can_update() {
            Some(self.update(input))
        } else {
            None
        }
    }
}

/// Whether every coordinate and speed of `entity` is at most `limit` in
/// magnitude.
fn entity_within(entity: &Entity, limit: i64) -> (r: bool)
    requires
        0 <= limit,
    ensures
        r == entity@.within(limit as int),
{
    -limit <= entity.position.x && entity.position.x <= limit && -limit <= entity.position.y
        && entity.position.y <= limit && -limit <= entity.original.x && entity.original.x <= limit
        && -limit <= entity.original.y && entity.original.y <= limit && -limit
        <= entity.velocity.x && entity.velocity.x <= limit && -limit <= entity.velocity.y
        && entity.velocity.y <= limit
}

} // verus!
