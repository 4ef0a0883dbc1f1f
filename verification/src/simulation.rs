//! The game as it runs: the state of a run, and the frame that takes it from
//! one state to the next.

use vstd::prelude::*;
use rand::rngs::ThreadRng;
use crate::bird::{spawn_bird, Bird};
use crate::field::{
    advance_obstacles, advanced_field, can_advance_obstacles, field_fits_after, field_model,
    field_offsets, hits_obstacle, is_well_paired, lemma_advance_keeps_pairs,
    lemma_placed_field_is_paired, offsets_model, passed_obstacles, place_obstacles, placed_field,
    spawn_obstacles, update_obstacles,
};
use crate::model::{frame_draws, Phase, SimulationModel};
use crate::obstacle::{valid_offset, Obstacle};
use crate::random::draw_offsets;
use crate::tuning::{BIRD_X, OBSTACLE_AMOUNT};
use crate::world::GameManager;

verus! {

/// Where the bird is and how it is tilted, in thousandths of a degree.
#[derive(Clone, Copy, Debug, PartialEq, Eq, Structural)]
pub struct BirdPose {
    pub y: i64,
    pub tilt: i64,
}

/// What there is to draw after a frame.
#[derive(Debug, PartialEq, Eq)]
pub struct RenderSnapshot {
    pub phase: Phase,
    pub score: u64,
    pub bird: Option<BirdPose>,
    pub obstacles: Vec<Obstacle>,
}

impl RenderSnapshot {
    /// Whether the snapshot shows `state`: its phase, its score, every
    /// obstacle in its slot, and the bird, if there is one, at its height and
    /// with the tilt that goes with its velocity.
    pub open spec fn shows(self, state: SimulationModel) -> bool {
        &&& self.phase == state.phase
        &&& self.score == state.score
        &&& field_model(self.obstacles@) == state.obstacles
        &&& self.bird is Some <==> state.bird is Some
        &&& self.bird matches Some(pose) ==> pose.y == state.bird->0.y && pose.tilt
            == state.bird->0.tilt()
    }
}

/// The state of a run.
#[derive(Debug)]
pub struct Simulation {
    manager: GameManager,
    phase: Phase,
    score: u64,
    bird: Option<Bird>,
    obstacles: Vec<Obstacle>,
}

/// The state that the given parts make up, over the mathematical integers.
pub open spec fn assembled(
    manager: GameManager,
    phase: Phase,
    score: u64,
    bird: Option<Bird>,
    obstacles: Seq<Obstacle>,
) -> SimulationModel {
    SimulationModel {
        window_width: manager.window_dimensions.x as int,
        window_height: manager.window_dimensions.y as int,
        phase,
        score: score as nat,
        bird: match bird {
            Some(bird) => Some(bird@),
            None => None,
        },
        obstacles: field_model(obstacles),
    }
}

impl View for Simulation {
    type V = SimulationModel;

    closed spec fn view(&self) -> SimulationModel {
        assembled(self.manager, self.phase, self.score, self.bird, self.obstacles@)
    }
}

impl Simulation {
    /// Whether the state is one of a run; see `SimulationModel::wf`.
    pub open spec fn wf(&self) -> bool {
        self@.wf()
    }

    /// Starts a level in the window of `manager`, with `offsets` as the
    /// vertical offsets of the obstacle pairs.
    pub fn start(manager: GameManager, offsets: &Vec<i64>) -> (simulation: Simulation)
        requires
            manager.wf(),
            field_offsets(offsets_model(offsets@)),
        ensures
            simulation.wf(),
            simulation@ == SimulationModel::started(
                manager.window_dimensions.x as int,
                manager.window_dimensions.y as int,
                offsets_model(offsets@),
            ),
    {
        proof {
            lemma_placed_field_is_paired(
                manager.window_dimensions.x as int,
                offsets_model(offsets@),
            );
        }
        Simulation {
            manager,
            phase: Phase::Playing,
            score: 0,
            bird: Some(spawn_bird()),
            obstacles: place_obstacles(manager.width(), offsets),
        }
    }

    /// Puts a state together from its parts, if they make up a state of a run.
    pub fn from_parts(
        manager: GameManager,
        phase: Phase,
        score: u64,
        bird: Option<Bird>,
        obstacles: Vec<Obstacle>,
    ) -> (r: Option<Simulation>)
        ensures
            r is Some <==> assembled(manager, phase, score, bird, obstacles@).wf(),
            r matches Some(simulation) ==> simulation.wf() && simulation@ == assembled(
                manager,
                phase,
                score,
                bird,
                obstacles@,
            ),
    {
        let sized: bool = manager.width() >= 0 && manager.height() >= 0 && obstacles.len() == 2
            * OBSTACLE_AMOUNT;
        let manned: bool = match phase {
            Phase::Paused => bird.is_none(),
            Phase::Playing => true,
        };
        if sized && manned && is_well_paired(&obstacles) {
            Some(Simulation { manager, phase, score, bird, obstacles })
        } else {
            None
        }
    }

    /// The window that the run takes place in.
    pub fn manager(&self) -> (manager: GameManager)
        ensures
            manager.window_dimensions.x == self@.window_width,
            manager.window_dimensions.y == self@.window_height,
            self.wf() ==> manager.wf(),
    {
        self.manager
    }

    /// Whether the run is playing or paused.
    pub fn phase(&self) -> (phase: Phase)
        ensures
            phase == self@.phase,
    {
        self.phase
    }

    /// Whether the run is paused.
    pub fn is_paused(&self) -> (paused: bool)
        ensures
            paused == (self@.phase == Phase::Paused),
    {
        match self.phase {
            Phase::Paused => true,
            Phase::Playing => false,
        }
    }

    /// The score of the run so far.
    pub fn score(&self) -> (score: u64)
        ensures
            score == self@.score,
    {
        self.score
    }

    /// The bird, if there is one.
    pub fn bird(&self) -> (bird: Option<Bird>)
        ensures
            bird is Some <==> self@.bird is Some,
            bird matches Some(b) ==> self@.bird == Some(b@),
    {
        self.bird
    }

    /// The obstacles of the field, each in its slot.
    pub fn obstacles(&self) -> (obstacles: &Vec<Obstacle>)
        ensures
            field_model(obstacles@) == self@.obstacles,
    {
        &self.obstacles
    }

    /// What there is to draw of the state.
    pub fn snapshot(&self) -> (snapshot: RenderSnapshot)
        ensures
            snapshot.shows(self@),
    {
        let mut obstacles: Vec<Obstacle> = Vec::new();
        let mut slot: usize = 0;
        while slot < self.obstacles.len()
            invariant
                slot <= self.obstacles@.len(),
                obstacles@ == self.obstacles@.take(slot as int),
            decreases self.obstacles@.len() - slot,
        {
            obstacles.push(self.obstacles[slot]);
            slot += 1;
        }
        assert(obstacles@ =~= self.obstacles@);
        let bird: Option<BirdPose> = match self.bird {
            Some(bird) => Some(BirdPose { y: bird.y, tilt: bird.tilt() }),
            None => None,
        };
        RenderSnapshot { phase: self.phase, score: self.score, bird, obstacles }
    }

    /// Tests `fits_after`: whether the next frame can be computed.
    pub fn can_step(&self, delta_ms: u32, flap: bool) -> (r: bool)
        ensures
            r == self@.fits_after(delta_ms as int, flap),
    {
        match self.phase {
            Phase::Paused => true,
            Phase::Playing => {
                let room: bool = self.score <= u64::MAX - self.obstacles.len() as u64;
                let bird_fits: bool = match self.bird {
                    Some(bird) => bird.can_integrate(delta_ms, flap),
                    None => true,
                };
                room && bird_fits && can_advance_obstacles(&self.obstacles, delta_ms)
            },
        }
    }

    /// Resets the run: a fresh bird at the origin and at rest, no score, the
    /// field laid out anew with `offsets`, and the run playing.
    pub fn reset_game(&mut self, offsets: &Vec<i64>)
        requires
            old(self).wf(),
            field_offsets(offsets_model(offsets@)),
        ensures
            final(self).wf(),
            final(self)@ == old(self)@.reset(offsets_model(offsets@)),
    {
        proof {
            lemma_placed_field_is_paired(self@.window_width, offsets_model(offsets@));
        }
        self.bird = Some(spawn_bird());
        self.score = 0;
        self.obstacles = place_obstacles(self.manager.width(), offsets);
        self.phase = Phase::Playing;
    }

    /// The field's part of a frame, with `offset` as the vertical offset of
    /// every obstacle recycled in it: see `advance_obstacles`.
    pub fn advance_field(&mut self, delta_ms: u32, offset: i64)
        requires
            old(self).wf(),
            field_fits_after(old(self)@.obstacles, delta_ms as int),
            valid_offset(offset as int),
        ensures
            final(self).wf(),
            final(self)@ == old(self)@.field_frame(delta_ms as int, offset as int),
    {
        proof {
            lemma_advance_keeps_pairs(
                self@.obstacles,
                delta_ms as int,
                self@.window_width,
                offset as int,
            );
        }
        let width: i64 = self.manager.width();
        advance_obstacles(&mut self.obstacles, delta_ms, width, offset);
    }

    /// The bird's part of a frame of a run that is playing, on the obstacles
    /// as they stand. A missing bird is replaced by a fresh one. A bird that
    /// is there makes its move; every obstacle it has passed adds one to the
    /// score; and if the move ended at or below the world's lower bound or
    /// inside an obstacle's hitbox, the bird is taken away and the run is
    /// paused.
    pub fn update_bird(&mut self, delta_ms: u32, flap: bool)
        requires
            old(self).wf(),
            old(self)@.phase == Phase::Playing,
            old(self)@.score + old(self)@.obstacles.len() <= u64::MAX,
            old(self)@.bird matches Some(bird) ==> bird.fits_after(delta_ms as int, flap),
        ensures
            final(self).wf(),
            final(self)@ == old(self)@.bird_frame(delta_ms as int, flap),
    {
        match self.bird {
            None => {
                self.bird = Some(spawn_bird());
            },
            Some(bird) => {
                let mut moved: Bird = bird;
                moved.integrate(delta_ms, flap);
                let gained: usize = passed_obstacles(&self.obstacles, BIRD_X, delta_ms);
                self.score = self.score + gained as u64;
                let dead: bool = moved.is_below_floor(self.manager.height()) || hits_obstacle(
                    &self.obstacles,
                    BIRD_X,
                    moved.y,
                );
                if dead {
                    self.bird = None;
                    self.phase = Phase::Paused;
                } else {
                    self.bird = Some(moved);
                }
            },
        }
    }

    /// One frame, with the frame's draws given: `offset` is the vertical
    /// offset of every obstacle recycled in this frame, and `fresh` holds the
    /// offsets of the new field if the frame resets the run. A paused run
    /// stays as it is until a flap resets it. A run that is playing advances
    /// its field and then its bird. Returns what there is to draw afterwards.
    pub fn step(&mut self, delta_ms: u32, flap: bool, offset: i64, fresh: &Vec<i64>) -> (snapshot:
        RenderSnapshot)
        requires
            old(self).wf(),
            old(self)@.fits_after(delta_ms as int, flap),
            frame_draws(old(self)@, flap, offset as int, offsets_model(fresh@)),
        ensures
            final(self).wf(),
            final(self)@ == old(self)@.step(
                delta_ms as int,
                flap,
                offset as int,
                offsets_model(fresh@),
            ),
            snapshot.shows(final(self)@),
    {
        match self.phase {
            Phase::Paused => {
                if flap {
                    self.reset_game(fresh);
                }
            },
            Phase::Playing => {
                self.advance_field(delta_ms, offset);
                self.update_bird(delta_ms, flap);
            },
        }
        self.snapshot()
    }

    /// One frame, with the frame's draws made here. A paused run stays as it
    /// is until a flap resets it, with a fresh draw for each pair of the new
    /// field. A run that is playing advances its field, with one fresh draw
    /// for all obstacles recycled in this frame, and then its bird. Whatever
    /// was drawn, the frame is a step of the run with valid draws. Returns
    /// what there is to draw afterwards.
    pub fn update(&mut self, rng: &mut ThreadRng, delta_ms: u32, flap: bool) -> (snapshot:
        RenderSnapshot)
        requires
            old(self).wf(),
            old(self)@.fits_after(delta_ms as int, flap),
        ensures
            final(self).wf(),
            old(self)@.leads_to(final(self)@, delta_ms as int, flap),
            snapshot.shows(final(self)@),
    {
        let ghost before = self@;
        match self.phase {
            Phase::Paused => {
                if flap {
                    let fresh: Vec<i64> = draw_offsets(rng, OBSTACLE_AMOUNT);
                    self.reset_game(&fresh);
                    assert(self@ == before.step(delta_ms as int, flap, 0, offsets_model(fresh@)));
                } else {
                    assert(self@ == before.step(delta_ms as int, flap, 0, Seq::<int>::empty()));
                }
            },
            Phase::Playing => {
                let width: i64 = self.manager.width();
                update_obstacles(&mut self.obstacles, rng, delta_ms, width);
                let ghost offset = choose|offset: int|
                    #![trigger advanced_field(before.obstacles, delta_ms as int, width as int, offset)]
                    valid_offset(offset) && field_model(self.obstacles@) == advanced_field(
                        before.obstacles,
                        delta_ms as int,
                        width as int,
                        offset,
                    );
                proof {
                    lemma_advance_keeps_pairs(
                        before.obstacles,
                        delta_ms as int,
                        before.window_width,
                        offset,
                    );
                }
                self.update_bird(delta_ms, flap);
                assert(self@ == before.step(delta_ms as int, flap, offset, Seq::<int>::empty()));
            },
        }
        self.snapshot()
    }

    /// One frame, if it can be computed. Where the state that the frame leads
    /// to lies within the numbers the machine holds, this is `update`; where
    /// it does not, the run is left as it is and nothing is returned.
    pub fn try_update(&mut self, rng: &mut ThreadRng, delta_ms: u32, flap: bool) -> (snapshot:
        Option<RenderSnapshot>)
        requires
            old(self).wf(),
        ensures
            final(self).wf(),
            snapshot is Some <==> old(self)@.fits_after(delta_ms as int, flap),
            snapshot matches Some(shown) ==> old(self)@.leads_to(
                final(self)@,
                delta_ms as int,
                flap,
            ) && shown.shows(final(self)@),
            snapshot is None ==> final(self)@ == old(self)@,
    {
        if self.can_step(delta_ms, flap) {
            Some(self.update(rng, delta_ms, flap))
        } else {
            None
        }
    }
}

/// Sets a level up in the window of `manager`: the run is playing, with no
/// score, a fresh bird and a field laid out with freshly drawn offsets.
pub fn setup_level(manager: GameManager, rng: &mut ThreadRng) -> (simulation: Simulation)
    requires
        manager.wf(),
    ensures
        simulation.wf(),
        exists|offsets: Seq<int>|
            #![trigger placed_field(manager.window_dimensions.x as int, offsets)]
            field_offsets(offsets) && simulation@ == SimulationModel::started(
                manager.window_dimensions.x as int,
                manager.window_dimensions.y as int,
                offsets,
            ),
{
    let obstacles = spawn_obstacles(rng, manager.width());
    proof {
        let offsets = choose|offsets: Seq<int>|
            #![trigger placed_field(manager.window_dimensions.x as int, offsets)]
            field_offsets(offsets) && field_model(obstacles@) == placed_field(
                manager.window_dimensions.x as int,
                offsets,
            );
        lemma_placed_field_is_paired(manager.window_dimensions.x as int, offsets);
    }
    Simulation { manager, phase: Phase::Playing, score: 0, bird: Some(spawn_bird()), obstacles }
}

} // verus!
