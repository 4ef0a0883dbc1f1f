//! The whole game over the mathematical integers: its states, the step from
//! one frame to the next, and what holds of every step.

use vstd::prelude::*;
use crate::bird::BirdModel;
use crate::field::{
    advanced_field, count_passed, field_fits_after, field_offsets, hits_any,
    lemma_advance_keeps_lattice, lemma_advance_keeps_pairs, lemma_placed_field_is_on_lattice,
    lemma_placed_field_is_paired, on_lattice, placed_field, well_paired,
};
use crate::obstacle::{distance, valid_offset, ObstacleModel};
use crate::tuning::{BIRD_X, MERCY_ZONE, OBSTACLE_AMOUNT, OBSTACLE_HEIGHT, OBSTACLE_WIDTH};

verus! {

/// The phase of a run.
#[derive(Clone, Copy, Debug, PartialEq, Eq, Structural)]
pub enum Phase {
    /// The bird is alive, time advances and the field scrolls.
    Playing,
    /// The bird is gone and time stands still until a flap resets the run.
    Paused,
}

/// A state of the game over the mathematical integers.
pub struct SimulationModel {
    pub window_width: int,
    pub window_height: int,
    pub phase: Phase,
    pub score: nat,
    pub bird: Option<BirdModel>,
    pub obstacles: Seq<ObstacleModel>,
}

impl SimulationModel {
    /// What holds of every state of a run: the window has no negative side,
    /// the field holds its full number of obstacles, standing in pairs, and
    /// there is no bird while the run is paused.
    pub open spec fn wf(self) -> bool {
        &&& 0 <= self.window_width
        &&& 0 <= self.window_height
        &&& self.obstacles.len() == 2 * OBSTACLE_AMOUNT
        &&& well_paired(self.obstacles)
        &&& self.phase == Phase::Paused ==> self.bird is None
    }

    /// The state a level starts in: playing, with no score, a fresh bird and
    /// the field laid out with `offsets`.
    pub open spec fn started(window_width: int, window_height: int, offsets: Seq<int>) -> SimulationModel {
        SimulationModel {
            window_width,
            window_height,
            phase: Phase::Playing,
            score: 0,
            bird: Some(BirdModel::fresh()),
            obstacles: placed_field(window_width, offsets),
        }
    }

    /// The state after a reset: the one a level starts in, in the same window.
    pub open spec fn reset(self, fresh: Seq<int>) -> SimulationModel {
        Self::started(self.window_width, self.window_height, fresh)
    }

    /// The field's part of a frame.
    pub open spec fn field_frame(self, delta_ms: int, offset: int) -> SimulationModel {
        SimulationModel {
            obstacles: advanced_field(self.obstacles, delta_ms, self.window_width, offset),
            ..self
        }
    }

    /// Whether a bird that has moved to `moved` is dead: it is at or below the
    /// world's lower bound, or it has hit an obstacle.
    pub open spec fn kills(self, moved: BirdModel) -> bool {
        moved.below_floor(self.window_height) || hits_any(self.obstacles, BIRD_X as int, moved.y)
    }

    /// The bird's part of a frame, on the obstacles as they stand after their
    /// own part. A missing bird is replaced by a fresh one. A bird that is
    /// there moves, every obstacle it has passed adds one to the score, and if
    /// it is then dead it is taken away and the run is paused.
    pub open spec fn bird_frame(self, delta_ms: int, flap: bool) -> SimulationModel {
        match self.bird {
            None => SimulationModel { bird: Some(BirdModel::fresh()), ..self },
            Some(bird) => {
                let moved = bird.integrated(delta_ms, flap);
                let score = self.score + count_passed(self.obstacles, BIRD_X as int, delta_ms);
                if self.kills(moved) {
                    SimulationModel { phase: Phase::Paused, bird: None, score, ..self }
                } else {
                    SimulationModel { bird: Some(moved), score, ..self }
                }
            },
        }
    }

    /// A frame of a run that is playing: the field's part, then the bird's.
    pub open spec fn played(self, delta_ms: int, flap: bool, offset: int) -> SimulationModel {
        self.field_frame(delta_ms, offset).bird_frame(delta_ms, flap)
    }

    /// Whether the state that a frame of `delta_ms` milliseconds with the
    /// input `flap` leads to lies within the numbers the machine holds: no
    /// obstacle scrolls below the least `i64`, the bird's height and velocity
    /// stay in the range of an `i64`, and the score has room for every
    /// obstacle. Only a run that is playing computes anything.
    pub open spec fn fits_after(self, delta_ms: int, flap: bool) -> bool {
        self.phase == Phase::Playing ==> {
            &&& field_fits_after(self.obstacles, delta_ms)
            &&& self.score + self.obstacles.len() <= u64::MAX
            &&& self.bird matches Some(bird) ==> bird.fits_after(delta_ms, flap)
        }
    }

    /// One frame. A paused run stays as it is until a flap resets it, with
    /// `fresh` as the offsets of the new field; a run that is playing plays a
    /// frame, with `offset` as the offset of all obstacles recycled in it.
    pub open spec fn step(
        self,
        delta_ms: int,
        flap: bool,
        offset: int,
        fresh: Seq<int>,
    ) -> SimulationModel {
        match self.phase {
            Phase::Paused => if flap {
                self.reset(fresh)
            } else {
                self
            },
            Phase::Playing => self.played(delta_ms, flap, offset),
        }
    }
}

/// Whether `offset` and `fresh` can be the draws of a frame that starts in
/// `state` with the input `flap`: the offset is valid, and where the frame
/// resets the run, `fresh` holds a valid offset for each pair.
pub open spec fn frame_draws(state: SimulationModel, flap: bool, offset: int, fresh: Seq<int>) -> bool {
    &&& valid_offset(offset)
    &&& state.phase == Phase::Paused && flap ==> field_offsets(fresh)
}

impl SimulationModel {
    /// Whether `next` is a state that one frame of `delta_ms` milliseconds
    /// with the input `flap` can lead to from this one: the step with some
    /// draws that the frame can make.
    pub open spec fn leads_to(self, next: SimulationModel, delta_ms: int, flap: bool) -> bool {
        exists|offset: int, fresh: Seq<int>|
            #![trigger self.step(delta_ms, flap, offset, fresh)]
            frame_draws(self, flap, offset, fresh) && next == self.step(
                delta_ms,
                flap,
                offset,
                fresh,
            )
    }
}

/// What one frame of a run is given: its length in milliseconds, whether a
/// flap began in it, and its draws.
pub struct Frame {
    pub delta_ms: int,
    pub flap: bool,
    pub offset: int,
    pub fresh: Seq<int>,
}

impl Frame {
    /// Whether the frame's draws are ones that can be drawn, in whatever state
    /// the frame begins.
    pub open spec fn wf(self) -> bool {
        &&& valid_offset(self.offset)
        &&& field_offsets(self.fresh)
    }
}

impl SimulationModel {
    /// The state after the frames of `frames`, one after the other.
    pub open spec fn after(self, frames: Seq<Frame>) -> SimulationModel
        decreases frames.len(),
    {
        if frames.len() == 0 {
            self
        } else {
            let last = frames.last();
            self.after(frames.drop_last()).step(last.delta_ms, last.flap, last.offset, last.fresh)
        }
    }
}

/// Every frame leads from a well-formed state to a well-formed state.
pub proof fn lemma_step_keeps_wf(
    state: SimulationModel,
    delta_ms: int,
    flap: bool,
    offset: int,
    fresh: Seq<int>,
)
    requires
        state.wf(),
        frame_draws(state, flap, offset, fresh),
    ensures
        state.step(delta_ms, flap, offset, fresh).wf(),
{
    if state.phase == Phase::Paused {
        if flap {
            lemma_placed_field_is_paired(state.window_width, fresh);
        }
    } else {
        lemma_advance_keeps_pairs(state.obstacles, delta_ms, state.window_width, offset);
    }
}

/// The number of obstacles is the same in every frame of a run: twice the
/// number of pairs, before and after any step.
pub proof fn lemma_obstacle_count_is_constant(
    state: SimulationModel,
    delta_ms: int,
    flap: bool,
    offset: int,
    fresh: Seq<int>,
)
    requires
        state.obstacles.len() == 2 * OBSTACLE_AMOUNT,
        fresh.len() == OBSTACLE_AMOUNT,
    ensures
        state.step(delta_ms, flap, offset, fresh).obstacles.len() == 2 * OBSTACLE_AMOUNT,
{
}

/// The score never falls while the run is playing, and it falls to zero on
/// a reset and on nothing else.
pub proof fn lemma_score_is_monotonic(
    state: SimulationModel,
    delta_ms: int,
    flap: bool,
    offset: int,
    fresh: Seq<int>,
)
    ensures
        state.phase == Phase::Playing ==> state.step(delta_ms, flap, offset, fresh).score
            >= state.score,
        state.phase == Phase::Paused && flap ==> state.step(delta_ms, flap, offset, fresh).score
            == 0,
        state.step(delta_ms, flap, offset, fresh).score < state.score ==> state.phase
            == Phase::Paused && flap,
        state.phase == Phase::Paused && !flap ==> state.step(delta_ms, flap, offset, fresh).score
            == state.score,
{
}

/// A bird whose move in this frame ends at or below the world's lower bound
/// is dead: the run is paused after the frame, and the bird is gone.
pub proof fn lemma_death_boundary(
    state: SimulationModel,
    delta_ms: int,
    flap: bool,
    offset: int,
    fresh: Seq<int>,
)
    requires
        state.phase == Phase::Playing,
        state.bird is Some,
        state.bird->0.integrated(delta_ms, flap).below_floor(state.window_height),
    ensures
        state.step(delta_ms, flap, offset, fresh).phase == Phase::Paused,
        state.step(delta_ms, flap, offset, fresh).bird is None,
{
}

/// A bird that starts a frame at or below the world's lower bound, and leaves
/// it with no upward velocity, is dead after the frame.
pub proof fn lemma_death_below_floor(
    state: SimulationModel,
    delta_ms: int,
    flap: bool,
    offset: int,
    fresh: Seq<int>,
)
    requires
        state.phase == Phase::Playing,
        state.bird is Some,
        state.bird->0.below_floor(state.window_height),
        0 <= delta_ms,
        state.bird->0.integrated(delta_ms, flap).velocity <= 0,
    ensures
        state.step(delta_ms, flap, offset, fresh).phase == Phase::Paused,
        state.step(delta_ms, flap, offset, fresh).bird is None,
{
    let moved = state.bird->0.integrated(delta_ms, flap);
    assert(moved.velocity * delta_ms <= 0) by (nonlinear_arith)
        requires
            moved.velocity <= 0,
            0 <= delta_ms,
    ;
}

/// A run that is playing with its bird is paused after the frame exactly if
/// the bird's move ended at or below the lower bound or inside the hitbox of
/// an obstacle as it stands after the frame; otherwise the bird is there, in
/// the place the move took it to.
pub proof fn lemma_death_is_floor_or_hit(
    state: SimulationModel,
    delta_ms: int,
    flap: bool,
    offset: int,
    fresh: Seq<int>,
)
    requires
        state.phase == Phase::Playing,
        state.bird is Some,
    ensures
        ({
            let next = state.step(delta_ms, flap, offset, fresh);
            let moved = state.bird->0.integrated(delta_ms, flap);
            &&& next.phase == Phase::Paused <==> moved.below_floor(state.window_height) || hits_any(
                next.obstacles,
                BIRD_X as int,
                moved.y,
            )
            &&& next.phase == Phase::Playing ==> next.bird == Some(moved)
            &&& next.phase == Phase::Paused ==> next.bird is None
        }),
{
}

/// The score and the deaths of a frame are judged on the obstacles as they
/// stand after the frame's scroll: every obstacle that the bird has then
/// passed adds exactly one to the score.
pub proof fn lemma_score_counts_passed_obstacles(
    state: SimulationModel,
    delta_ms: int,
    flap: bool,
    offset: int,
    fresh: Seq<int>,
)
    requires
        state.phase == Phase::Playing,
        state.bird is Some,
    ensures
        state.step(delta_ms, flap, offset, fresh).obstacles == advanced_field(
            state.obstacles,
            delta_ms,
            state.window_width,
            offset,
        ),
        state.step(delta_ms, flap, offset, fresh).score == state.score + count_passed(
            state.step(delta_ms, flap, offset, fresh).obstacles,
            BIRD_X as int,
            delta_ms,
        ),
{
}

/// A paused run stands still until the flap: without one, a frame changes
/// nothing, however long it is.
pub proof fn lemma_paused_run_waits(
    state: SimulationModel,
    delta_ms: int,
    offset: int,
    fresh: Seq<int>,
)
    requires
        state.phase == Phase::Paused,
    ensures
        state.step(delta_ms, false, offset, fresh) == state,
{
}

/// A flap resets a paused run to the state a level starts in: playing, with
/// no score, one bird at the origin and at rest, and the field laid out anew
/// with its full number of obstacles.
pub proof fn lemma_flap_resets_paused_run(
    state: SimulationModel,
    delta_ms: int,
    offset: int,
    fresh: Seq<int>,
)
    requires
        state.phase == Phase::Paused,
    ensures
        state.step(delta_ms, true, offset, fresh) == SimulationModel::started(
            state.window_width,
            state.window_height,
            fresh,
        ),
        state.step(delta_ms, true, offset, fresh).phase == Phase::Playing,
        state.step(delta_ms, true, offset, fresh).score == 0,
        state.step(delta_ms, true, offset, fresh).bird == Some(BirdModel { y: 0, velocity: 0 }),
        state.step(delta_ms, true, offset, fresh).obstacles.len() == 2 * fresh.len(),
{
}

/// A run that is playing without a bird gets a fresh one in the next frame,
/// and goes on playing with its score as it was.
pub proof fn lemma_missing_bird_is_replaced(
    state: SimulationModel,
    delta_ms: int,
    flap: bool,
    offset: int,
    fresh: Seq<int>,
)
    requires
        state.phase == Phase::Playing,
        state.bird is None,
    ensures
        state.step(delta_ms, flap, offset, fresh).bird == Some(BirdModel::fresh()),
        state.step(delta_ms, flap, offset, fresh).phase == Phase::Playing,
        state.step(delta_ms, flap, offset, fresh).score == state.score,
{
}

/// Whatever a frame draws, it leads from a state of a run to a state of a
/// run with the same number of obstacles; the score does not fall while the
/// run is playing, and where it falls, the frame was a reset and the score is
/// zero.
pub proof fn lemma_frame_keeps_the_run(
    state: SimulationModel,
    next: SimulationModel,
    delta_ms: int,
    flap: bool,
)
    requires
        state.wf(),
        state.leads_to(next, delta_ms, flap),
    ensures
        next.wf(),
        next.obstacles.len() == state.obstacles.len(),
        next.window_width == state.window_width,
        next.window_height == state.window_height,
        state.phase == Phase::Playing ==> next.score >= state.score,
        next.score < state.score ==> state.phase == Phase::Paused && flap && next.score == 0,
{
    let (offset, fresh) = choose|offset: int, fresh: Seq<int>|
        #![trigger state.step(delta_ms, flap, offset, fresh)]
        frame_draws(state, flap, offset, fresh) && next == state.step(
            delta_ms,
            flap,
            offset,
            fresh,
        );
    lemma_step_keeps_wf(state, delta_ms, flap, offset, fresh);
    lemma_score_is_monotonic(state, delta_ms, flap, offset, fresh);
}

/// The hitbox of an obstacle is the sprite less the mercy zone, and it is
/// open: a bird is inside it exactly if it is less than half the hitbox's
/// height from the obstacle's middle in height and less than half its width
/// in breadth. A bird at exactly half the height or half the width is outside.
pub proof fn lemma_collision_envelope(o: ObstacleModel, bird_x: int, bird_y: int)
    ensures
        (OBSTACLE_HEIGHT - MERCY_ZONE) / 2 == 312_750_000,
        (OBSTACLE_WIDTH - MERCY_ZONE) / 2 == 60_750_000,
        2 * ((OBSTACLE_HEIGHT - MERCY_ZONE) / 2) == OBSTACLE_HEIGHT - MERCY_ZONE,
        2 * ((OBSTACLE_WIDTH - MERCY_ZONE) / 2) == OBSTACLE_WIDTH - MERCY_ZONE,
        o.collides_with(bird_x, bird_y) <==> distance(o.y, bird_y) < 312_750_000 && distance(
            o.x,
            bird_x,
        ) < 60_750_000,
        distance(o.y, bird_y) == 312_750_000 ==> !o.collides_with(bird_x, bird_y),
        distance(o.x, bird_x) == 60_750_000 ==> !o.collides_with(bird_x, bird_y),
        o.collides_with(bird_x, bird_y) <==> 2 * distance(o.y, bird_y) < OBSTACLE_HEIGHT
            - MERCY_ZONE && 2 * distance(o.x, bird_x) < OBSTACLE_WIDTH - MERCY_ZONE,
{
}

/// Every frame of a run whose field stands on one lattice leaves it on one
/// lattice.
pub proof fn lemma_step_keeps_lattice(
    state: SimulationModel,
    delta_ms: int,
    flap: bool,
    offset: int,
    fresh: Seq<int>,
)
    requires
        on_lattice(state.obstacles),
    ensures
        on_lattice(state.step(delta_ms, flap, offset, fresh).obstacles),
{
    lemma_placed_field_is_on_lattice(state.window_width, fresh);
    lemma_advance_keeps_lattice(state.obstacles, delta_ms, state.window_width, offset);
}

/// In every frame of a run, however long the run and whatever its inputs and
/// draws, the state is one of a run and the field holds twice as many
/// obstacles as there are pairs.
pub proof fn lemma_run_keeps_obstacle_count(state: SimulationModel, frames: Seq<Frame>)
    requires
        state.wf(),
        forall|i: int| 0 <= i < frames.len() ==> (#[trigger] frames[i]).wf(),
    ensures
        state.after(frames).wf(),
        state.after(frames).obstacles.len() == 2 * OBSTACLE_AMOUNT,
        state.after(frames).window_width == state.window_width,
        state.after(frames).window_height == state.window_height,
    decreases frames.len(),
{
    if frames.len() > 0 {
        let earlier = frames.drop_last();
        let last = frames.last();
        lemma_run_keeps_obstacle_count(state, earlier);
        lemma_step_keeps_wf(
            state.after(earlier),
            last.delta_ms,
            last.flap,
            last.offset,
            last.fresh,
        );
    }
}

/// Through a whole run that starts with a freshly laid out field, resets
/// included, the obstacles stand on one lattice.
pub proof fn lemma_run_keeps_lattice(
    window_width: int,
    window_height: int,
    offsets: Seq<int>,
    frames: Seq<Frame>,
)
    ensures
        on_lattice(
            SimulationModel::started(window_width, window_height, offsets).after(frames).obstacles,
        ),
    decreases frames.len(),
{
    let start = SimulationModel::started(window_width, window_height, offsets);
    if frames.len() == 0 {
        lemma_placed_field_is_on_lattice(window_width, offsets);
    } else {
        let last = frames.last();
        lemma_run_keeps_lattice(window_width, window_height, offsets, frames.drop_last());
        lemma_step_keeps_lattice(
            start.after(frames.drop_last()),
            last.delta_ms,
            last.flap,
            last.offset,
            last.fresh,
        );
    }
}

} // verus!
