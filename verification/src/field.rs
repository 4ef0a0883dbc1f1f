//! The obstacle field: a fixed pool of obstacle pairs that scrolls towards the
//! bird and is recycled, never grown or shrunk.

use vstd::prelude::*;
use rand::rngs::ThreadRng;
use crate::obstacle::{
    obstacle, scroll_distance, valid_offset, Direction, Obstacle, ObstacleModel,
};
use crate::random::{draw_offsets, generate_offset};
use crate::tuning::{
    get_centered_pos, LATTICE_PERIOD, OBSTACLE_AMOUNT, OBSTACLE_CENTER, OBSTACLE_SCROLL_SPEED,
    OBSTACLE_SPACING, OBSTACLE_VERTICAL_OFFSET,
};

verus! {

/// The obstacles of a field over the mathematical integers.
pub open spec fn field_model(obstacles: Seq<Obstacle>) -> Seq<ObstacleModel> {
    Seq::new(obstacles.len(), |slot: int| obstacles[slot]@)
}

/// Drawn offsets as mathematical integers.
pub open spec fn offsets_model(offsets: Seq<i64>) -> Seq<int> {
    Seq::new(offsets.len(), |pair: int| offsets[pair] as int)
}

/// Whether `offsets` holds one offset for each pair of the field, each of them
/// one that a draw can give.
pub open spec fn field_offsets(offsets: Seq<int>) -> bool {
    &&& offsets.len() == OBSTACLE_AMOUNT
    &&& forall|pair: int| 0 <= pair < offsets.len() ==> valid_offset(#[trigger] offsets[pair])
}

/// Which member of its pair the obstacle in `slot` is: the upper members have
/// the even slots.
pub open spec fn slot_direction(slot: int) -> Direction {
    if slot % 2 == 0 {
        Direction::Upper
    } else {
        Direction::Lower
    }
}

/// Where the obstacle in `slot` is placed when the field is laid out: pair
/// `slot / 2` stands that many spacings right of the world's right edge, and
/// both its members take their height from the pair's offset.
pub open spec fn placed_obstacle(window_width: int, offsets: Seq<int>, slot: int) -> ObstacleModel {
    ObstacleModel {
        x: window_width / 2 + OBSTACLE_SPACING * (slot / 2),
        y: ObstacleModel::height_for(slot_direction(slot), offsets[slot / 2]),
        pipe_direction: slot_direction(slot),
    }
}

/// The field as it is laid out for a window `window_width` wide, with one
/// offset for each pair.
pub open spec fn placed_field(window_width: int, offsets: Seq<int>) -> Seq<ObstacleModel> {
    Seq::new(2 * offsets.len(), |slot: int| placed_obstacle(window_width, offsets, slot))
}

/// The field after one frame: every obstacle advances, and all that are
/// recycled in this frame share the one `offset`.
pub open spec fn advanced_field(
    field: Seq<ObstacleModel>,
    delta_ms: int,
    window_width: int,
    offset: int,
) -> Seq<ObstacleModel> {
    Seq::new(field.len(), |slot: int| field[slot].advanced(delta_ms, window_width, offset))
}

/// How many obstacles of the field count for the score in this frame.
pub open spec fn count_passed(field: Seq<ObstacleModel>, bird_x: int, delta_ms: int) -> nat
    decreases field.len(),
{
    if field.len() == 0 {
        0
    } else {
        count_passed(field.drop_last(), bird_x, delta_ms) + if field.last().passed_by(
            bird_x,
            delta_ms,
        ) {
            1nat
        } else {
            0nat
        }
    }
}

/// Whether the bird has hit any obstacle of the field.
pub open spec fn hits_any(field: Seq<ObstacleModel>, bird_x: int, bird_y: int) -> bool {
    exists|slot: int| 0 <= slot < field.len() && #[trigger] field[slot].collides_with(bird_x, bird_y)
}

/// Whether the obstacles stand in pairs: slots `2 * pair` and `2 * pair + 1`
/// hold the upper and the lower member of one pair, at the same `x` and at the
/// heights that one valid offset gives them.
pub open spec fn well_paired(field: Seq<ObstacleModel>) -> bool {
    &&& field.len() % 2 == 0
    &&& forall|slot: int|
        0 <= slot < field.len() ==> (#[trigger] field[slot]).pipe_direction == slot_direction(slot)
    &&& forall|pair: int|
        #![trigger field[2 * pair]]
        0 <= pair < field.len() / 2 ==> {
            &&& field[2 * pair].x == field[2 * pair + 1].x
            &&& valid_offset(field[2 * pair].y - OBSTACLE_CENTER)
            &&& field[2 * pair].y - OBSTACLE_CENTER == field[2 * pair + 1].y + OBSTACLE_CENTER
        }
}

/// Whether every obstacle of the field can scroll for `delta_ms` milliseconds
/// within the numbers an `i64` holds.
pub open spec fn field_fits_after(field: Seq<ObstacleModel>, delta_ms: int) -> bool {
    forall|slot: int| 0 <= slot < field.len() ==> (#[trigger] field[slot]).fits_after(delta_ms)
}

/// Tests `field_fits_after`.
pub fn can_advance_obstacles(obstacles: &Vec<Obstacle>, delta_ms: u32) -> (r: bool)
    ensures
        r == field_fits_after(field_model(obstacles@), delta_ms as int),
{
    let ghost field = field_model(obstacles@);
    let reach: i64 = OBSTACLE_SCROLL_SPEED * (delta_ms as i64);
    let mut slot: usize = 0;
    while slot < obstacles.len()
        invariant
            slot <= obstacles@.len(),
            reach == scroll_distance(delta_ms as int),
            field == field_model(obstacles@),
            forall|k: int| 0 <= k < slot ==> (#[trigger] field[k]).fits_after(delta_ms as int),
        decreases obstacles@.len() - slot,
    {
        if (obstacles[slot].x as i128) - (reach as i128) < i64::MIN as i128 {
            assert(!field[slot as int].fits_after(delta_ms as int));
            return false;
        }
        slot += 1;
    }
    true
}

/// Lays the field out for a window `window_width` wide: pair `i` stands `i`
/// spacings right of the world's right edge, its upper member in slot `2 * i`
/// and its lower member in slot `2 * i + 1`, both at the heights that
/// `offsets[i]` gives them.
pub fn place_obstacles(window_width: i64, offsets: &Vec<i64>) -> (obstacles: Vec<Obstacle>)
    requires
        0 <= window_width,
        field_offsets(offsets_model(offsets@)),
    ensures
        field_model(obstacles@) == placed_field(window_width as int, offsets_model(offsets@)),
        obstacles@.len() == 2 * OBSTACLE_AMOUNT,
{
    let mut obstacles: Vec<Obstacle> = Vec::new();
    let ghost drawn = offsets_model(offsets@);
    let mut pair: usize = 0;
    while pair < OBSTACLE_AMOUNT
        invariant
            0 <= window_width,
            pair <= OBSTACLE_AMOUNT,
            drawn == offsets_model(offsets@),
            field_offsets(drawn),
            obstacles@.len() == 2 * pair,
            forall|slot: int|
                0 <= slot < obstacles@.len() ==> (#[trigger] obstacles@[slot])@ == placed_obstacle(
                    window_width as int,
                    drawn,
                    slot,
                ),
        decreases OBSTACLE_AMOUNT - pair,
    {
        let y_offset: i64 = offsets[pair];
        assert(valid_offset(drawn[pair as int]));
        let x_pos: i64 = window_width / 2 + OBSTACLE_SPACING * (pair as i64);
        obstacles.push(obstacle(x_pos, get_centered_pos() + y_offset, Direction::Upper));
        obstacles.push(obstacle(x_pos, -get_centered_pos() + y_offset, Direction::Lower));
        pair += 1;
    }
    obstacles
}

/// Lays the field out with freshly drawn offsets, one draw for each pair.
pub fn spawn_obstacles(rng: &mut ThreadRng, window_width: i64) -> (obstacles: Vec<Obstacle>)
    requires
        0 <= window_width,
    ensures
        obstacles@.len() == 2 * OBSTACLE_AMOUNT,
        exists|offsets: Seq<int>|
            #![trigger placed_field(window_width as int, offsets)]
            field_offsets(offsets) && field_model(obstacles@) == placed_field(
                window_width as int,
                offsets,
            ),
{
    let offsets = draw_offsets(rng, OBSTACLE_AMOUNT);
    place_obstacles(window_width, &offsets)
}

/// One frame of the field: every obstacle scrolls left, and each one whose
/// right edge has then passed the world's left boundary jumps one lattice
/// period ahead and takes its height from `offset`. The number of obstacles
/// and their slots stay as they are.
pub fn advance_obstacles(
    obstacles: &mut Vec<Obstacle>,
    delta_ms: u32,
    window_width: i64,
    offset: i64,
)
    requires
        field_fits_after(field_model(old(obstacles)@), delta_ms as int),
        0 <= window_width,
        valid_offset(offset as int),
    ensures
        final(obstacles)@.len() == old(obstacles)@.len(),
        field_model(final(obstacles)@) == advanced_field(
            field_model(old(obstacles)@),
            delta_ms as int,
            window_width as int,
            offset as int,
        ),
{
    let ghost before = obstacles@;
    let mut slot: usize = 0;
    while slot < obstacles.len()
        invariant
            slot <= obstacles@.len(),
            obstacles@.len() == before.len(),
            field_fits_after(field_model(before), delta_ms as int),
            0 <= window_width,
            valid_offset(offset as int),
            forall|k: int|
                0 <= k < slot ==> (#[trigger] obstacles@[k])@ == before[k]@.advanced(
                    delta_ms as int,
                    window_width as int,
                    offset as int,
                ),
            forall|k: int| slot <= k < obstacles@.len() ==> #[trigger] obstacles@[k] == before[k],
        decreases obstacles@.len() - slot,
    {
        let mut moved: Obstacle = obstacles[slot];
        assert(field_model(before)[slot as int].fits_after(delta_ms as int));
        moved.advance(delta_ms, window_width, offset);
        obstacles.set(slot, moved);
        slot += 1;
    }
}

/// One frame of the field with a freshly drawn offset, which all obstacles
/// recycled in this frame share.
pub fn update_obstacles(
    obstacles: &mut Vec<Obstacle>,
    rng: &mut ThreadRng,
    delta_ms: u32,
    window_width: i64,
)
    requires
        field_fits_after(field_model(old(obstacles)@), delta_ms as int),
        0 <= window_width,
    ensures
        final(obstacles)@.len() == old(obstacles)@.len(),
        exists|offset: int|
            #![trigger advanced_field(field_model(old(obstacles)@), delta_ms as int, window_width as int, offset)]
            valid_offset(offset) && field_model(final(obstacles)@) == advanced_field(
                field_model(old(obstacles)@),
                delta_ms as int,
                window_width as int,
                offset,
            ),
{
    let y_offset = generate_offset(rng);
    advance_obstacles(obstacles, delta_ms, window_width, y_offset);
}

/// Counts the obstacles that the bird has passed in this frame. Each upper
/// member that crossed the bird's line counts once; lower members never count.
pub fn passed_obstacles(obstacles: &Vec<Obstacle>, bird_x: i64, delta_ms: u32) -> (count: usize)
    ensures
        count == count_passed(field_model(obstacles@), bird_x as int, delta_ms as int),
        count <= obstacles@.len(),
{
    let ghost field = field_model(obstacles@);
    let mut count: usize = 0;
    let mut slot: usize = 0;
    while slot < obstacles.len()
        invariant
            slot <= obstacles@.len(),
            field == field_model(obstacles@),
            count <= slot,
            count == count_passed(field.take(slot as int), bird_x as int, delta_ms as int),
        decreases obstacles@.len() - slot,
    {
        assert(field.take(slot + 1).drop_last() =~= field.take(slot as int));
        if obstacles[slot].is_passed(bird_x, delta_ms) {
            count += 1;
        }
        slot += 1;
    }
    assert(field.take(slot as int) =~= field);
    count
}

/// Whether the bird has hit an obstacle. The search stops at the first hit.
pub fn hits_obstacle(obstacles: &Vec<Obstacle>, bird_x: i64, bird_y: i64) -> (hit: bool)
    ensures
        hit == hits_any(field_model(obstacles@), bird_x as int, bird_y as int),
{
    let ghost field = field_model(obstacles@);
    let mut slot: usize = 0;
    while slot < obstacles.len()
        invariant
            slot <= obstacles@.len(),
            field == field_model(obstacles@),
            forall|k: int| 0 <= k < slot ==> !(#[trigger] field[k]).collides_with(
                bird_x as int,
                bird_y as int,
            ),
        decreases obstacles@.len() - slot,
    {
        if obstacles[slot].collides(bird_x, bird_y) {
            assert(field[slot as int].collides_with(bird_x as int, bird_y as int));
            return true;
        }
        slot += 1;
    }
    false
}

/// Tests `well_paired`.
pub fn is_well_paired(obstacles: &Vec<Obstacle>) -> (r: bool)
    ensures
        r == well_paired(field_model(obstacles@)),
{
    let ghost field = field_model(obstacles@);
    if obstacles.len() % 2 != 0 {
        return false;
    }
    let pairs: usize = obstacles.len() / 2;
    let mut pair: usize = 0;
    while pair < pairs
        invariant
            pair <= pairs,
            obstacles.len() == 2 * pairs,
            field == field_model(obstacles@),
            forall|slot: int|
                0 <= slot < 2 * pair ==> (#[trigger] field[slot]).pipe_direction == slot_direction(
                    slot,
                ),
            forall|k: int|
                #![trigger field[2 * k]]
                0 <= k < pair ==> {
                    &&& field[2 * k].x == field[2 * k + 1].x
                    &&& valid_offset(field[2 * k].y - OBSTACLE_CENTER)
                    &&& field[2 * k].y - OBSTACLE_CENTER == field[2 * k + 1].y + OBSTACLE_CENTER
                },
        decreases pairs - pair,
    {
        let upper: Obstacle = obstacles[2 * pair];
        let lower: Obstacle = obstacles[2 * pair + 1];
        let offset: i128 = upper.y as i128 - OBSTACLE_CENTER as i128;
        let paired: bool = upper.pipe_direction == Direction::Upper && lower.pipe_direction
            == Direction::Lower && upper.x == lower.x && -(OBSTACLE_VERTICAL_OFFSET as i128)
            <= offset && offset < OBSTACLE_VERTICAL_OFFSET as i128 && offset == lower.y as i128
            + OBSTACLE_CENTER as i128;
        if !paired {
            assert(field[2 * pair] == upper@);
            return false;
        }
        pair += 1;
    }
    true
}

/// A field that was just laid out stands in pairs.
pub proof fn lemma_placed_field_is_paired(window_width: int, offsets: Seq<int>)
    requires
        field_offsets(offsets),
    ensures
        placed_field(window_width, offsets).len() == 2 * OBSTACLE_AMOUNT,
        well_paired(placed_field(window_width, offsets)),
{
}

/// A frame of the field keeps the pairs together: both members of a pair
/// scroll alike, are recycled in the same frame, and then share the offset.
pub proof fn lemma_advance_keeps_pairs(
    field: Seq<ObstacleModel>,
    delta_ms: int,
    window_width: int,
    offset: int,
)
    requires
        well_paired(field),
        valid_offset(offset),
    ensures
        advanced_field(field, delta_ms, window_width, offset).len() == field.len(),
        well_paired(advanced_field(field, delta_ms, window_width, offset)),
{
}

/// Whether the obstacles of the field stand on one lattice: the obstacle in
/// `slot` is `slot / 2` spacings right of the first, give or take whole
/// periods.
pub open spec fn on_lattice(field: Seq<ObstacleModel>) -> bool {
    forall|slot: int|
        0 <= slot < field.len() ==> ((#[trigger] field[slot]).x - field[0].x - OBSTACLE_SPACING * (
        slot / 2)) % (LATTICE_PERIOD as int) == 0
}

/// A field that was just laid out stands on one lattice.
pub proof fn lemma_placed_field_is_on_lattice(window_width: int, offsets: Seq<int>)
    ensures
        on_lattice(placed_field(window_width, offsets)),
{
}

/// A frame of the field keeps it on its lattice: every obstacle scrolls by
/// the same distance, and a recycled one jumps by a whole period.
pub proof fn lemma_advance_keeps_lattice(
    field: Seq<ObstacleModel>,
    delta_ms: int,
    window_width: int,
    offset: int,
)
    requires
        on_lattice(field),
    ensures
        on_lattice(advanced_field(field, delta_ms, window_width, offset)),
{
}

} // verus!
