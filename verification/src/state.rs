//! The simulation state: the mode machine, fixed-step physics
//! dispatch, obstacle spawning and retirement, scoring, and loss
//! detection.

use vstd::prelude::*;

use crate::obstacle::spec_size_for;
use crate::obstacle::Obstacle;
use crate::player::spec_clamped_y;
use crate::player::spec_next_velocity;
use crate::player::Player;
use crate::rng::random_range;
use crate::CENTER_MAX;
use crate::CENTER_MIN;
use crate::CENTER_WANDER;
use crate::FLAP_VELOCITY;
use crate::FRAME_DURATION_MICROS;
use crate::GAP_WANDER;
use crate::MAX_GAP_SIZE;
use crate::PLAYER_START_X;
use crate::PLAYER_START_Y;
use crate::SCORE_LIMIT;
use crate::SCORE_PER_OBSTACLE;
use crate::SCORE_SCALE;
use crate::SCREEN_HEIGHT;
use crate::SCREEN_WIDTH;
use crate::X_LIMIT;

verus! {

/// The three modes of the game: the opening menu, an active run, and
/// the end screen after a loss.
#[derive(Clone, Copy, Debug, PartialEq, Eq, Structural)]
pub enum GameMode {
    Menu,
    Playing,
    End,
}

/// The three inputs the game recognises; any other key is handed in as
/// `None` and ignored.
#[derive(Clone, Copy, Debug, PartialEq, Eq, Structural)]
pub enum Key {
    /// The flap impulse during a run.
    Flap,
    /// Start (or restart) a run from the menu or the end screen.
    Start,
    /// Quit the game from the menu or the end screen.
    Quit,
}

/// The whole simulation: the player, the time accumulator for the
/// fixed physics step (microseconds), an animation frame counter with
/// no gameplay effect, the obstacles ahead in ascending order of `x`,
/// the current mode, and the score in hundredths of a point.
pub struct State {
    pub player: Player,
    pub frame_time: u64,
    pub frame: usize,
    pub obstacles: Vec<Obstacle>,
    pub mode: GameMode,
    pub score: i32,
}

/// Every field of the two states agrees.
pub open spec fn state_eq(a: State, b: State) -> bool {
    &&& a.player == b.player
    &&& a.frame_time == b.frame_time
    &&& a.frame == b.frame
    &&& a.obstacles@ == b.obstacles@
    &&& a.mode == b.mode
    &&& a.score == b.score
}

/// Every field but the player agrees.
pub open spec fn state_eq_but_player(a: State, b: State) -> bool {
    &&& a.frame_time == b.frame_time
    &&& a.frame == b.frame
    &&& a.obstacles@ == b.obstacles@
    &&& a.mode == b.mode
    &&& a.score == b.score
}

/// The fields a fresh run starts from: the player at the fixed start
/// cell at rest, a cleared accumulator and score, and a single
/// full-height obstacle one screen ahead whose gap centre was drawn
/// near the player's starting row.  Nothing here depends on the state
/// the run was started from.
pub open spec fn spec_reset_fields(post: State) -> bool {
    &&& post.player == (Player { x: PLAYER_START_X, y: PLAYER_START_Y, velocity: 0 })
    &&& post.frame_time == 0
    &&& post.obstacles@.len() == 1
    &&& post.obstacles@[0].x as int == PLAYER_START_X as int + SCREEN_WIDTH as int
    &&& PLAYER_START_Y - GAP_WANDER <= post.obstacles@[0].gap_y < PLAYER_START_Y + GAP_WANDER
    &&& post.obstacles@[0].size == MAX_GAP_SIZE
    &&& post.score == 0
}

/// One menu or end-screen tick: the start key begins a fresh run, the
/// quit key raises the exit flag and touches nothing, and any other
/// input leaves the state exactly as it was.
pub open spec fn spec_menu_step(pre: State, post: State, key: Option<Key>, quit: bool) -> bool {
    match key {
        Some(Key::Start) => {
            &&& spec_reset_fields(post)
            &&& post.mode is Playing
            &&& post.frame == pre.frame
            &&& quit == false
        },
        Some(Key::Quit) => state_eq(pre, post) && quit == true,
        _ => state_eq(pre, post) && quit == false,
    }
}

/// A freshly drawn gap centre, clamped into the playable band.
pub open spec fn spec_clamp_center(drawn: int) -> int {
    if drawn > CENTER_MAX as int {
        CENTER_MAX as int
    } else if drawn < CENTER_MIN as int {
        CENTER_MIN as int
    } else {
        drawn
    }
}

/// `gap` is a possible gap centre for an obstacle spawned from an
/// obstacle whose own centre was `seed`: some uniformly drawn value in
/// the wander window around `seed` was clamped into the playable band
/// and then wandered once more within the gap window.
pub open spec fn spec_spawn_gap(seed: int, gap: int) -> bool {
    exists|drawn: int|
        {
            &&& seed - CENTER_WANDER as int <= drawn < seed + CENTER_WANDER as int
            &&& #[trigger] spec_clamp_center(drawn) - GAP_WANDER as int <= gap
            &&& gap < spec_clamp_center(drawn) + GAP_WANDER as int
        }
}

/// The fixed-step stage of one playing tick.  When the accumulated
/// time crosses the threshold, the accumulator resets, the animation
/// counter advances (wrapping), the player takes one physics step, and
/// one new obstacle is appended a full screen ahead of the player,
/// its gap seeded from the previous newest obstacle and sized by the
/// current score; otherwise only the accumulator changes.
pub open spec fn spec_physics(pre: State, post: State, elapsed_micros: u32) -> bool {
    if pre.frame_time as int + elapsed_micros as int > FRAME_DURATION_MICROS as int {
        &&& post.frame_time == 0
        &&& post.frame as int == (if pre.frame == usize::MAX {
            0int
        } else {
            pre.frame as int + 1
        })
        &&& post.player.velocity as int == spec_next_velocity(pre.player.velocity as int)
        &&& post.player.x as int == pre.player.x as int + 1
        &&& post.player.y as int == spec_clamped_y(
            pre.player.y as int,
            post.player.velocity as int,
        )
        &&& post.mode == pre.mode
        &&& post.score == pre.score
        &&& post.obstacles@.len() == pre.obstacles@.len() + 1
        &&& post.obstacles@.subrange(0, pre.obstacles@.len() as int) == pre.obstacles@
        &&& post.obstacles@.last().x as int == post.player.x as int + SCREEN_WIDTH as int
        &&& spec_spawn_gap(pre.obstacles@.last().gap_y as int, post.obstacles@.last().gap_y as int)
        &&& post.obstacles@.last().size as int == spec_size_for(pre.score as int)
    } else {
        &&& post.frame_time as int == pre.frame_time as int + elapsed_micros as int
        &&& post.frame == pre.frame
        &&& post.player == pre.player
        &&& post.obstacles@ == pre.obstacles@
        &&& post.mode == pre.mode
        &&& post.score == pre.score
    }
}

/// The input stage of one playing tick: a flap input resets the
/// player's velocity to the fixed impulse and changes nothing else;
/// any other input changes nothing.  Input is sampled every tick,
/// independent of the fixed-step gate.
pub open spec fn spec_flap(pre: State, post: State, key: Option<Key>) -> bool {
    match key {
        Some(Key::Flap) => {
            &&& post.player.x == pre.player.x
            &&& post.player.y == pre.player.y
            &&& post.player.velocity == FLAP_VELOCITY
            &&& state_eq_but_player(pre, post)
        },
        _ => state_eq(pre, post),
    }
}

/// The scoring stage of one playing tick: exactly one obstacle is
/// removed from the head of the sequence if and only if the player's
/// `x` exceeds that obstacle's `x`, and at that same instant the score
/// rises by exactly the fixed reward; otherwise nothing changes.
pub open spec fn spec_retire(pre: State, post: State) -> bool {
    if pre.obstacles@.len() > 0 && pre.player.x > pre.obstacles@[0].x {
        &&& post.obstacles@ == pre.obstacles@.drop_first()
        &&& post.score as int == pre.score as int + SCORE_PER_OBSTACLE as int
        &&& post.player == pre.player
        &&& post.frame_time == pre.frame_time
        &&& post.frame == pre.frame
        &&& post.mode == pre.mode
    } else {
        state_eq(pre, post)
    }
}

/// The run is lost: while checking each remaining obstacle, the player
/// was found past the bottom of the playfield or colliding with it.
pub open spec fn spec_loss(s: State) -> bool {
    &&& s.obstacles@.len() > 0
    &&& (s.player.y > SCREEN_HEIGHT || exists|i: int|
        0 <= i < s.obstacles@.len() && (#[trigger] s.obstacles@[i]).spec_hit(s.player))
}

/// The loss stage of one playing tick: the mode switches to `End`
/// exactly when a loss condition fired, and nothing else changes.
pub open spec fn spec_check(pre: State, post: State) -> bool {
    &&& post.player == pre.player
    &&& post.frame_time == pre.frame_time
    &&& post.frame == pre.frame
    &&& post.obstacles@ == pre.obstacles@
    &&& post.score == pre.score
    &&& post.mode == (if spec_loss(pre) {
        GameMode::End
    } else {
        pre.mode
    })
}

/// One whole playing tick: the fixed-step stage, then the input
/// stage, then the scoring stage, then the loss check, in that order.
pub open spec fn spec_play_step(pre: State, post: State, elapsed_micros: u32, key: Option<
    Key,
>) -> bool {
    exists|mid1: State, mid2: State, mid3: State|
        {
            &&& #[trigger] spec_physics(pre, mid1, elapsed_micros)
            &&& #[trigger] spec_flap(mid1, mid2, key)
            &&& #[trigger] spec_retire(mid2, mid3)
            &&& spec_check(mid3, post)
        }
}

impl State {
    /// Well-formedness, kept by every tick: a well-formed player that
    /// never leaves the playfield while a run is live, a bounded score
    /// and accumulator, and a non-empty obstacle sequence in strictly
    /// ascending order that always reaches ahead of the player but
    /// never further than one screen.
    pub open spec fn wf(self) -> bool {
        &&& self.player.wf()
        &&& self.player.y as int <= SCREEN_HEIGHT as int + 2
        &&& (self.mode is Playing ==> self.player.y <= SCREEN_HEIGHT)
        &&& 0 <= self.score <= SCORE_LIMIT
        &&& self.frame_time <= FRAME_DURATION_MICROS
        &&& self.obstacles@.len() >= 1
        &&& forall|i: int|
            0 <= i < self.obstacles@.len() ==> (#[trigger] self.obstacles@[i]).wf()
        &&& forall|i: int, j: int|
            0 <= i < j < self.obstacles@.len() ==> self.obstacles@[i].x < self.obstacles@[j].x
        &&& self.player.x <= self.obstacles@.last().x
        &&& self.obstacles@.last().x as int <= self.player.x as int + SCREEN_WIDTH as int
    }

    /// A fresh game: the same fields as a fresh run, but sitting in
    /// the menu with the animation counter at zero.
    pub fn new() -> (s: State)
        ensures
            s.wf(),
            spec_reset_fields(s),
            s.mode is Menu,
            s.frame == 0,
    {
        let ob = Obstacle::new(PLAYER_START_X + SCREEN_WIDTH, PLAYER_START_Y, 0);
        let mut obstacles: Vec<Obstacle> = Vec::new();
        obstacles.push(ob);
        State {
            player: Player::new(PLAYER_START_X, PLAYER_START_Y),
            frame_time: 0,
            frame: 0,
            obstacles,
            mode: GameMode::Menu,
            score: 0,
        }
    }

    /// Begin a run: every gameplay field is reset to the fixed start
    /// values whatever the previous score, position or mode; only the
    /// animation counter carries over, and it has no gameplay effect.
    pub fn restart(&mut self)
        ensures
            final(self).wf(),
            spec_reset_fields(*final(self)),
            final(self).mode is Playing,
            final(self).frame == old(self).frame,
    {
        self.player = Player::new(PLAYER_START_X, PLAYER_START_Y);
        self.frame_time = 0;
        let ob = Obstacle::new(PLAYER_START_X + SCREEN_WIDTH, PLAYER_START_Y, 0);
        let mut obstacles: Vec<Obstacle> = Vec::new();
        obstacles.push(ob);
        self.obstacles = obstacles;
        self.mode = GameMode::Playing;
        self.score = 0;
    }

    /// One tick on the opening menu: dispatch the pressed key as
    /// `spec_menu_step` says, returning whether the game should exit.
    pub fn main_menu(&mut self, key: Option<Key>) -> (quit: bool)
        requires
            old(self).wf(),
        ensures
            final(self).wf(),
            spec_menu_step(*old(self), *final(self), key, quit),
    {
        match key {
            Some(Key::Start) => {
                self.restart();
                false
            },
            Some(Key::Quit) => true,
            _ => false,
        }
    }

    /// One tick on the end screen: the same key dispatch as the menu.
    pub fn dead(&mut self, key: Option<Key>) -> (quit: bool)
        requires
            old(self).wf(),
        ensures
            final(self).wf(),
            spec_menu_step(*old(self), *final(self), key, quit),
    {
        match key {
            Some(Key::Start) => {
                self.restart();
                false
            },
            Some(Key::Quit) => true,
            _ => false,
        }
    }

    /// One tick of a live run, in a fixed order: accumulate time
    /// and, once past the threshold, advance physics and spawn one
    /// obstacle; sample the flap input; retire the head obstacle and
    /// score once the player is past it; then test every remaining
    /// obstacle and the playfield bound, ending the run on a loss.
    pub fn play(&mut self, elapsed_micros: u32, key: Option<Key>)
        requires
            old(self).wf(),
            old(self).mode is Playing,
            old(self).player.x < X_LIMIT,
            old(self).score as int + SCORE_PER_OBSTACLE as int <= SCORE_LIMIT as int,
        ensures
            final(self).wf(),
            spec_play_step(*old(self), *final(self), elapsed_micros, key),
    {
        let ghost pre: State = *self;

        self.frame_time = self.frame_time + (elapsed_micros as u64);
        if self.frame_time > FRAME_DURATION_MICROS {
            self.frame_time = 0;
            self.frame = if self.frame == usize::MAX {
                0
            } else {
                self.frame + 1
            };

            self.player.gravity_and_move();

            let last_index: usize = self.obstacles.len() - 1;
            let last_gap_y: i32 = self.obstacles[last_index].gap_y;
            let drawn: i32 = random_range(last_gap_y - CENTER_WANDER, last_gap_y + CENTER_WANDER);
            let mut obstacle_center: i32 = if drawn > CENTER_MAX {
                CENTER_MAX
            } else {
                drawn
            };
            if obstacle_center < CENTER_MIN {
                obstacle_center = CENTER_MIN;
            }

            let ob = Obstacle::new(self.player.x + SCREEN_WIDTH, obstacle_center, self.score);
            self.obstacles.push(ob);

            proof {
                assert(spec_clamp_center(drawn as int) == obstacle_center as int);
                assert(spec_spawn_gap(pre.obstacles@.last().gap_y as int, ob.gap_y as int));
                assert(self.obstacles@.subrange(0, pre.obstacles@.len() as int)
                    =~= pre.obstacles@);
                crate::obstacle::lemma_size_monotone(0, pre.score as int);
            }
        }
        let ghost mid1: State = *self;
        assert(spec_physics(pre, mid1, elapsed_micros));

        match key {
            Some(Key::Flap) => self.player.flap(),
            _ => {},
        }
        let ghost mid2: State = *self;
        assert(spec_flap(mid1, mid2, key));

        if self.player.x > self.obstacles[0].x {
            self.score = self.score + SCORE_PER_OBSTACLE;
            self.obstacles.remove(0);
            proof {
                assert(self.obstacles@ =~= mid2.obstacles@.drop_first());
            }
        }
        let ghost mid3: State = *self;
        assert(spec_retire(mid2, mid3));

        let mut lost: bool = false;
        let mut i: usize = 0;
        while i < self.obstacles.len()
            invariant
                i <= self.obstacles.len(),
                forall|k: int|
                    0 <= k < self.obstacles@.len() ==> (#[trigger] self.obstacles@[k]).wf(),
                lost == ((i > 0 && self.player.y > SCREEN_HEIGHT) || exists|j: int|
                    0 <= j < i && (#[trigger] self.obstacles@[j]).spec_hit(self.player)),
            decreases self.obstacles.len() - i,
        {
            if self.player.y > SCREEN_HEIGHT || self.obstacles[i].hit_obstacle(&self.player) {
                lost = true;
            }
            i = i + 1;
        }
        if lost {
            self.mode = GameMode::End;
        }

        proof {
            assert(lost == spec_loss(mid3));
            assert(spec_check(mid3, *self));
            assert(spec_play_step(pre, *self, elapsed_micros, key));
        }
    }

    /// One external tick: dispatch on the current mode to the menu,
    /// playing or end-screen handler, and return whether the game
    /// should exit.  A live run never exits directly: it must end
    /// first.
    pub fn tick(&mut self, elapsed_micros: u32, key: Option<Key>) -> (quit: bool)
        requires
            old(self).wf(),
            old(self).player.x < X_LIMIT,
            old(self).score as int + SCORE_PER_OBSTACLE as int <= SCORE_LIMIT as int,
        ensures
            final(self).wf(),
            old(self).mode is Playing ==> spec_play_step(
                *old(self),
                *final(self),
                elapsed_micros,
                key,
            ) && quit == false,
            !(old(self).mode is Playing) ==> spec_menu_step(*old(self), *final(self), key, quit),
    {
        match self.mode {
            GameMode::Menu => self.main_menu(key),
            GameMode::Playing => {
                self.play(elapsed_micros, key);
                false
            },
            GameMode::End => self.dead(key),
        }
    }

    /// The whole points scored so far, as the HUD shows them.
    pub fn score_points(&self) -> (points: i32)
        requires
            self.wf(),
        ensures
            points as int == self.score as int / SCORE_SCALE as int,
    {
        self.score / SCORE_SCALE
    }
}

/// Starting a run from any two states yields the same gameplay fields:
/// the same player, score, accumulator and obstacle column and gap
/// height; only the randomly drawn gap centres may differ, and both
/// lie in the same fixed window.
pub proof fn lemma_restart_uniform(post1: State, post2: State)
    requires
        spec_reset_fields(post1),
        spec_reset_fields(post2),
    ensures
        post1.player == post2.player,
        post1.frame_time == post2.frame_time,
        post1.score == post2.score,
        post1.obstacles@.len() == post2.obstacles@.len(),
        post1.obstacles@[0].x == post2.obstacles@[0].x,
        post1.obstacles@[0].size == post2.obstacles@[0].size,
        PLAYER_START_Y - GAP_WANDER <= post1.obstacles@[0].gap_y < PLAYER_START_Y + GAP_WANDER,
        PLAYER_START_Y - GAP_WANDER <= post2.obstacles@[0].gap_y < PLAYER_START_Y + GAP_WANDER,
{
}

} // verus!
