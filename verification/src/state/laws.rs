//! What holds of every frame.
//!
//! [`GameState::update`](crate::state::GameState::update) leaves the state
//! whose view is [`GameStateView::update`] of the view it found. The laws
//! here are proved of that function, for every state and every input, so
//! each of them holds of every frame that is played.

use vstd::prelude::*;
use crate::state::background::{BackgroundView, CHANNEL_MAX};
use crate::state::entity::{EntityView, Size, Vec2View};
use crate::state::fixed::{fixed_product, quot_is_bounded};
use crate::state::score::TallyView;
use crate::state::{
    at_wall, paddle_hit, spin, steered, struck, wall_bounced, GameStateView, Input, BALL_ACC,
    BALL_SPEED, LOGO_SPIN, PADDLE_SPEED, PADDLE_SPIN, SCORE_TO_WIN, WINDOW_HEIGHT, WINDOW_WIDTH,
};

verus! {

/// Where the ball is after the frame's motion, before goals are looked for.
pub open spec fn moved(s: GameStateView) -> Vec2View {
    s.ball.position.plus(s.ball.velocity)
}

/// Whether the frame counts a goal: the ball, moved by its velocity, is at
/// or beyond a side of the arena.
pub open spec fn goal(s: GameStateView) -> bool {
    moved(s).x <= 0 || moved(s).x >= WINDOW_WIDTH
}

/// The paddle that hits the ball in the frame, if one does: the paddles
/// have followed the keys and the ball has moved.
pub open spec fn hit(s: GameStateView, input: Input) -> Option<EntityView> {
    paddle_hit(
        s.ball.advance(),
        steered(s.player1, input.player1_up, input.player1_down),
        steered(s.player2, input.player2_up, input.player2_down),
    )
}

/// Whether the ball is in play: it lies strictly between the two sides of
/// the arena, it is served from between them, and it is slower than the
/// fastest ball that a paddle can send off without a goal.
pub open spec fn in_play(s: GameStateView) -> bool {
    &&& 0 < s.ball.position.x < WINDOW_WIDTH
    &&& 0 < s.ball.original.x < WINDOW_WIDTH
    &&& -fixed_product(WINDOW_WIDTH as int, BALL_ACC as int) < s.ball.velocity.x < fixed_product(
        WINDOW_WIDTH as int,
        BALL_ACC as int,
    )
}

/// In a frame without a goal the ball ends exactly where its velocity took
/// it from where it was, whatever the keys, the walls and the paddles did.
pub proof fn ball_moves_by_its_velocity(s: GameStateView, input: Input)
    requires
        !goal(s),
    ensures
        s.update(input).ball.position == s.ball.position.plus(s.ball.velocity),
        s.update(input).ball.position.x == s.ball.position.x + s.ball.velocity.x,
        s.update(input).ball.position.y == s.ball.position.y + s.ball.velocity.y,
{
}

/// In a frame without a goal, with the ball clear of walls and paddles, the
/// ball keeps its velocity.
pub proof fn free_ball_keeps_its_velocity(s: GameStateView, input: Input)
    requires
        !goal(s),
        !at_wall(s.ball.advance()),
        hit(s, input) is None,
    ensures
        s.update(input).ball == s.ball.advance(),
        s.update(input).ball.velocity == s.ball.velocity,
{
}

/// Each paddle moves up by the paddle speed if its up key is down, and down
/// by the paddle speed if its down key is down; nothing else of it changes,
/// and nothing about the ball or the score has a part in it.
pub proof fn paddles_follow_the_keys(s: GameStateView, input: Input)
    ensures
        s.update(input).player1 == steered(s.player1, input.player1_up, input.player1_down),
        s.update(input).player2 == steered(s.player2, input.player2_up, input.player2_down),
        s.update(input).player1.position.y == s.player1.position.y - (if input.player1_up {
            PADDLE_SPEED as int
        } else {
            0
        }) + (if input.player1_down {
            PADDLE_SPEED as int
        } else {
            0
        }),
        s.update(input).player2.position.y == s.player2.position.y - (if input.player2_up {
            PADDLE_SPEED as int
        } else {
            0
        }) + (if input.player2_down {
            PADDLE_SPEED as int
        } else {
            0
        }),
        s.update(input).player1.position.x == s.player1.position.x,
        s.update(input).player2.position.x == s.player2.position.x,
{
}

/// A ball that its motion takes to the top or the bottom wall, and that no
/// paddle hits, has its vertical velocity inverted. The inversion leaves
/// the horizontal velocity and the position alone.
pub proof fn wall_inverts_vertical_velocity(s: GameStateView, input: Input)
    requires
        !goal(s),
        at_wall(s.ball.advance()),
        hit(s, input) is None,
    ensures
        s.update(input).ball.velocity.y == -s.ball.velocity.y,
        s.update(input).ball.velocity.x == s.ball.velocity.x,
        s.update(input).ball.position == moved(s),
{
}

/// A ball at the top edge that moves upward comes out of the frame moving
/// downward at the same speed, if no paddle hits it and no goal falls.
pub proof fn ball_turns_back_at_the_top(s: GameStateView, input: Input)
    requires
        s.ball.position.y == 0,
        s.ball.velocity.y < 0,
        !goal(s),
        hit(s, input) is None,
    ensures
        s.update(input).ball.velocity.y == -s.ball.velocity.y,
        s.update(input).ball.velocity.y > 0,
        s.update(input).ball.position == moved(s),
{
}

/// A ball that overlaps both paddles takes the response of player 1 alone:
/// its horizontal velocity is reversed and scaled once, and the spin is
/// that of player 1's paddle.
pub proof fn first_paddle_takes_the_hit(s: GameStateView)
    requires
        s.ball.advance().intersects(s.player1),
        s.ball.advance().intersects(s.player2),
    ensures
        s.ball_after_paddles() == struck(s.ball.advance(), s.player1),
        s.ball_bounce().ball == wall_bounced(struck(s.ball.advance(), s.player1)),
        s.ball_bounce().ball.velocity.x == -fixed_product(s.ball.velocity.x, BALL_ACC as int),
        !at_wall(s.ball.advance()) ==> s.ball_bounce().ball.velocity.y == s.ball.velocity.y + spin(
            s.ball.advance(),
            s.player1,
        ),
{
}

/// The same of a whole frame without a goal: with the ball over both
/// paddles, only player 1's paddle answers.
pub proof fn first_paddle_takes_the_hit_in_a_frame(s: GameStateView, input: Input)
    requires
        !goal(s),
        s.ball.advance().intersects(steered(s.player1, input.player1_up, input.player1_down)),
        s.ball.advance().intersects(steered(s.player2, input.player2_up, input.player2_down)),
    ensures
        s.update(input).ball == wall_bounced(
            struck(s.ball.advance(), steered(s.player1, input.player1_up, input.player1_down)),
        ),
        s.update(input).ball.velocity.x == -fixed_product(s.ball.velocity.x, BALL_ACC as int),
{
}

/// A paddle that hits the ball reverses its horizontal velocity and scales
/// it by the acceleration factor, whichever paddle it is, and adds its spin
/// to the vertical velocity, which a wall then inverts.
pub proof fn paddle_reverses_and_speeds_up(s: GameStateView, input: Input)
    requires
        !goal(s),
        hit(s, input) is Some,
    ensures
        s.update(input).ball.velocity.x == -fixed_product(s.ball.velocity.x, BALL_ACC as int),
        !at_wall(s.ball.advance()) ==> s.update(input).ball.velocity.y == s.ball.velocity.y + spin(
            s.ball.advance(),
            hit(s, input)->0,
        ),
        at_wall(s.ball.advance()) ==> s.update(input).ball.velocity.y == -(s.ball.velocity.y + spin(
            s.ball.advance(),
            hit(s, input)->0,
        )),
        s.update(input).ball.position == moved(s),
{
}

/// A hit never slows the ball down: the acceleration factor is above one,
/// and a ball of at least a fiftieth of a pixel per frame comes off
/// strictly faster.
pub proof fn hit_never_slows_the_ball(v: int)
    ensures
        v >= 0 ==> fixed_product(v, BALL_ACC as int) >= v,
        v <= 0 ==> fixed_product(v, BALL_ACC as int) <= v,
        v >= 20 ==> fixed_product(v, BALL_ACC as int) > v,
        v <= -20 ==> fixed_product(v, BALL_ACC as int) < v,
        fixed_product(-v, BALL_ACC as int) == -fixed_product(v, BALL_ACC as int),
{
}

/// The spin has the sign of the place of the hit: a ball whose centre is
/// below the paddle's is sent downward, one whose centre is above it
/// upward, and a ball hit at the centre gets no spin.
pub proof fn spin_follows_the_place_of_the_hit(ball: EntityView, paddle: EntityView)
    requires
        paddle.height > 0,
    ensures
        ball.y_coordinate_centre() > paddle.y_coordinate_centre() ==> spin(ball, paddle) >= 0,
        ball.y_coordinate_centre() < paddle.y_coordinate_centre() ==> spin(ball, paddle) <= 0,
        ball.y_coordinate_centre() == paddle.y_coordinate_centre() ==> spin(ball, paddle) == 0,
{
    let reach = PADDLE_SPIN * (paddle.y_coordinate_centre() - ball.y_coordinate_centre());
    quot_is_bounded(reach, paddle.height);
}

/// A ball no taller than the paddle that hits it gets a spin of at most
/// the spin constant in magnitude.
pub proof fn spin_is_at_most_the_spin_constant(ball: EntityView, paddle: EntityView)
    requires
        paddle.height > 0,
        0 <= ball.height <= paddle.height,
        ball.intersects(paddle),
    ensures
        -PADDLE_SPIN <= spin(ball, paddle) <= PADDLE_SPIN,
{
    let apart = paddle.y_coordinate_centre() - ball.y_coordinate_centre();
    let height = paddle.height;
    assert(-height <= apart <= height);
    if apart >= 0 {
        assert((PADDLE_SPIN * apart) / height <= PADDLE_SPIN) by (nonlinear_arith)
            requires
                0 <= apart <= height,
                height > 0,
        ;
        assert(0 <= (PADDLE_SPIN * apart) / height) by (nonlinear_arith)
            requires
                0 <= apart,
                height > 0,
        ;
    } else {
        assert((-(PADDLE_SPIN * apart)) / height <= PADDLE_SPIN) by (nonlinear_arith)
            requires
                -height <= apart < 0,
                height > 0,
        ;
        assert(0 <= (-(PADDLE_SPIN * apart)) / height) by (nonlinear_arith)
            requires
                apart < 0,
                height > 0,
        ;
    }
}

/// A ball that was below the top edge and within the bottom edge before the
/// frame overshoots a wall by less than one frame's travel.
pub proof fn wall_is_overshot_by_less_than_a_step(s: GameStateView, input: Input)
    requires
        !goal(s),
        s.ball.position.y > 0,
        s.ball.position.y + s.ball.height < WINDOW_HEIGHT,
    ensures
        s.update(input).ball.position.y > s.ball.velocity.y,
        s.update(input).ball.position.y + s.ball.height < WINDOW_HEIGHT + s.ball.velocity.y,
{
}

/// A ball at or beyond the left side counts one goal for player 2, goes
/// back to where it was created and is served to the left with no vertical
/// velocity. It is served from inside the right side, or else the
/// right side would count a goal at once.
pub proof fn goal_on_the_left(s: GameStateView)
    requires
        s.ball.position.x <= 0,
        s.ball.original.x < WINDOW_WIDTH,
    ensures
        s.update_score().score == s.score.goal_player_2(),
        s.update_score().score.player2 == s.score.player2 + 1,
        s.update_score().score.player1 == s.score.player1,
        s.update_score().ball.position == s.ball.original,
        s.update_score().ball.velocity == (Vec2View { x: -BALL_SPEED, y: 0 }),
{
}

/// A ball at or beyond the right side counts one goal for player 1, goes
/// back to where it was created and is served to the right with no vertical
/// velocity.
pub proof fn goal_on_the_right(s: GameStateView)
    requires
        s.ball.position.x >= WINDOW_WIDTH,
    ensures
        s.update_score().score == s.score.goal_player_1(),
        s.update_score().score.player1 == s.score.player1 + 1,
        s.update_score().score.player2 == s.score.player2,
        s.update_score().ball.position == s.ball.original,
        s.update_score().ball.velocity == (Vec2View { x: BALL_SPEED as int, y: 0 }),
{
}

/// A ball between the sides counts no goal and changes nothing.
pub proof fn no_goal_in_the_arena(s: GameStateView)
    requires
        0 < s.ball.position.x < WINDOW_WIDTH,
    ensures
        s.update_score() == s,
{
}

/// A frame whose motion takes the ball to the left side or beyond serves it
/// again: the ball is where it was created, moving left at the serving
/// speed, and player 2 has one goal more unless the match is won thereby
/// and starts afresh.
pub proof fn frame_with_goal_on_the_left(s: GameStateView, input: Input)
    requires
        moved(s).x <= 0,
        s.ball.original.x < WINDOW_WIDTH,
    ensures
        s.update(input).ball.position == s.ball.original,
        s.update(input).ball.velocity == (Vec2View { x: -BALL_SPEED, y: 0 }),
        s.wins(input) <==> s.score.goal_player_2().reached(SCORE_TO_WIN as int),
        !s.wins(input) ==> s.update(input).score == s.score.goal_player_2(),
        s.wins(input) ==> s.update(input).score == TallyView::zero(),
{
}

/// A frame whose motion takes the ball to the right side or beyond serves
/// it again: the ball is where it was created, moving right at the serving
/// speed, and player 1 has one goal more unless the match is won thereby
/// and starts afresh.
pub proof fn frame_with_goal_on_the_right(s: GameStateView, input: Input)
    requires
        moved(s).x >= WINDOW_WIDTH,
    ensures
        s.update(input).ball.position == s.ball.original,
        s.update(input).ball.velocity == (Vec2View { x: BALL_SPEED as int, y: 0 }),
        s.wins(input) <==> s.score.goal_player_1().reached(SCORE_TO_WIN as int),
        !s.wins(input) ==> s.update(input).score == s.score.goal_player_1(),
        s.wins(input) ==> s.update(input).score == TallyView::zero(),
{
}

/// The frame in which a player reaches the winning number of goals ends
/// with both counters at zero, and no frame ends with a counter at the
/// winning number or above.
pub proof fn won_match_starts_afresh(s: GameStateView, input: Input)
    ensures
        s.wins(input) ==> s.update(input).score == TallyView::zero(),
        !s.update(input).score.reached(SCORE_TO_WIN as int),
        s.update(input).score.player1 < SCORE_TO_WIN,
        s.update(input).score.player2 < SCORE_TO_WIN,
{
}

/// The goal that brings player 1 to the winning number sets both counters
/// to zero in the same frame.
pub proof fn winning_goal_of_player_1(s: GameStateView, input: Input)
    requires
        s.score.player1 + 1 == SCORE_TO_WIN,
        moved(s).x >= WINDOW_WIDTH,
    ensures
        s.wins(input),
        s.update(input).score.player1 == 0,
        s.update(input).score.player2 == 0,
{
}

/// The goal that brings player 2 to the winning number sets both counters
/// to zero in the same frame.
pub proof fn winning_goal_of_player_2(s: GameStateView, input: Input)
    requires
        s.score.player2 + 1 == SCORE_TO_WIN,
        moved(s).x <= 0,
        s.ball.original.x < WINDOW_WIDTH,
    ensures
        s.wins(input),
        s.update(input).score.player1 == 0,
        s.update(input).score.player2 == 0,
{
}

/// Counters that are not negative stay so.
pub proof fn counters_stay_non_negative(s: GameStateView, input: Input)
    requires
        s.score.player1 >= 0,
        s.score.player2 >= 0,
    ensures
        s.update(input).score.player1 >= 0,
        s.update(input).score.player2 >= 0,
{
}

/// A frame without a goal leaves the score alone.
pub proof fn score_changes_only_by_goals(s: GameStateView, input: Input)
    requires
        !goal(s),
        !s.score.reached(SCORE_TO_WIN as int),
    ensures
        s.update(input).score == s.score,
        !s.wins(input),
{
}

/// No entity ever changes its extent or the place it was created at, and
/// the paddles never move sideways or gain a velocity.
pub proof fn extents_and_origins_stay(s: GameStateView, input: Input)
    ensures
        s.update(input).player1.width == s.player1.width,
        s.update(input).player1.height == s.player1.height,
        s.update(input).player2.width == s.player2.width,
        s.update(input).player2.height == s.player2.height,
        s.update(input).ball.width == s.ball.width,
        s.update(input).ball.height == s.ball.height,
        s.update(input).player1.original == s.player1.original,
        s.update(input).player2.original == s.player2.original,
        s.update(input).ball.original == s.ball.original,
        s.update(input).player1.velocity == s.player1.velocity,
        s.update(input).player2.velocity == s.player2.velocity,
{
}

/// A ball in play is in play after the frame: at the end of a frame the
/// ball is never at or beyond a side of the arena.
pub proof fn ball_stays_in_play(s: GameStateView, input: Input)
    requires
        in_play(s),
    ensures
        in_play(s.update(input)),
{
}

/// The game starts with the ball in play.
pub proof fn ball_starts_in_play(player1: Size, player2: Size, ball: Size)
    ensures
        in_play(GameStateView::start(player1, player2, ball)),
{
}

/// A frame can start from a new game exactly if both paddles have a height,
/// whatever the sizes are otherwise.
pub proof fn new_game_can_update(player1: Size, player2: Size, ball: Size)
    ensures
        GameStateView::start(player1, player2, ball).can_update() <==> player1.height > 0
            && player2.height > 0,
{
}

/// The logo turns by the same angle in every frame, and the background
/// takes one step of its pulse.
pub proof fn cosmetics_take_their_step(s: GameStateView, input: Input)
    ensures
        s.update(input).rotation == s.rotation + LOGO_SPIN,
        s.update(input).background == s.background.pulse(),
{
}

/// The blue channel never leaves its range, and moves by at most one step
/// per frame.
pub proof fn pulse_stays_in_range(b: BackgroundView)
    requires
        b.wf(),
    ensures
        b.pulse().wf(),
        b.pulse().blue - b.blue <= 1,
        b.blue - b.pulse().blue <= 1,
{
}

/// A climbing channel below full intensity climbs one step; a falling one
/// above zero falls one step; at either bound the channel rests for one
/// frame and the direction turns round.
pub proof fn pulse_ping_pongs(b: BackgroundView)
    requires
        b.wf(),
    ensures
        b.rising && b.blue < CHANNEL_MAX ==> b.pulse().blue == b.blue + 1 && b.pulse().rising,
        b.rising && b.blue == CHANNEL_MAX ==> b.pulse().blue == CHANNEL_MAX && !b.pulse().rising,
        !b.rising && b.blue > 0 ==> b.pulse().blue == b.blue - 1 && !b.pulse().rising,
        !b.rising && b.blue == 0 ==> b.pulse().blue == 0 && b.pulse().rising,
{
}

} // verus!
