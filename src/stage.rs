use vstd::prelude::*;
use crate::brick::Brick;
use crate::enemy::Enemy;
use crate::player::Player;
use crate::transform::Transform;

verus! {

/// What a level holds besides the players: enemies, solid boxes and bricks.
pub struct StageManager {
    pub enemies: Vec<Enemy>,
    pub objects: Vec<Transform>,
    pub bricks: Vec<Brick>,
}

/// `p` after meeting each box of `boxes` in turn.
pub open spec fn player_met(p: Player, boxes: Seq<Transform>) -> Player
    decreases boxes.len(),
{
    if boxes.len() == 0 {
        p
    } else {
        player_met(p, boxes.drop_last()).collided(boxes.last())
    }
}

/// `e` after meeting each box of `boxes` in turn.
pub open spec fn enemy_met(e: Enemy, boxes: Seq<Transform>) -> Enemy
    decreases boxes.len(),
{
    if boxes.len() == 0 {
        e
    } else {
        enemy_met(e, boxes.drop_last()).collided(boxes.last())
    }
}

pub open spec fn all_wf(boxes: Seq<Transform>) -> bool {
    forall|i: int| 0 <= i < boxes.len() ==> (#[trigger] boxes[i]).wf()
}

impl StageManager {
    pub open spec fn wf(&self) -> bool {
        &&& forall|i: int| 0 <= i < self.enemies@.len() ==> (#[trigger] self.enemies@[i]).wf()
        &&& all_wf(self.solid_boxes())
    }

    /// Boxes of the solid objects, then of the bricks.
    pub open spec fn solid_boxes(&self) -> Seq<Transform> {
        self.objects@ + self.bricks@.map_values(|b: Brick| b.transform)
    }

    /// Boxes of the enemies.
    pub open spec fn enemy_boxes(&self) -> Seq<Transform> {
        self.enemies@.map_values(|e: Enemy| e.physics.transform)
    }

    pub fn new() -> (r: StageManager)
        ensures
            r.wf(),
            r.enemies@.len() == 0,
            r.objects@.len() == 0,
            r.bricks@.len() == 0,
    {
        let r = StageManager { enemies: Vec::new(), objects: Vec::new(), bricks: Vec::new() };
        assert(r.solid_boxes() =~= Seq::empty());
        r
    }

    /// The boxes the characters collide with.
    pub fn solid_box_list(&self) -> (r: Vec<Transform>)
        ensures
            r@ == self.solid_boxes(),
    {
        let mut r: Vec<Transform> = Vec::new();
        let mut i: usize = 0;
        while i < self.objects.len()
            invariant
                0 <= i <= self.objects@.len(),
                r@ == self.objects@.take(i as int),
            decreases self.objects@.len() - i,
        {
            r.push(self.objects[i]);
            i += 1;
            assert(r@ =~= self.objects@.take(i as int));
        }
        let mut j: usize = 0;
        while j < self.bricks.len()
            invariant
                i == self.objects@.len(),
                0 <= j <= self.bricks@.len(),
                r@ == self.objects@ + self.bricks@.map_values(|b: Brick| b.transform).take(
                    j as int,
                ),
            decreases self.bricks@.len() - j,
        {
            r.push(self.bricks[j].transform);
            j += 1;
            assert(r@ =~= self.objects@ + self.bricks@.map_values(|b: Brick| b.transform).take(
                j as int,
            ));
        }
        assert(self.bricks@.map_values(|b: Brick| b.transform).take(j as int) =~= self.bricks@.map_values(
            |b: Brick| b.transform,
        ));
        r
    }

    /// Moves every enemy by one frame of `dt` microseconds.
    pub fn update(&mut self, dt: u32)
        requires
            old(self).wf(),
        ensures
            final(self).wf(),
            final(self).objects == old(self).objects,
            final(self).bricks == old(self).bricks,
            final(self).enemies@.len() == old(self).enemies@.len(),
            forall|i: int|
                0 <= i < final(self).enemies@.len() ==> #[trigger] final(self).enemies@[i]
                    == old(self).enemies@[i].advanced(dt as int),
    {
        let mut i: usize = 0;
        while i < self.enemies.len()
            invariant
                0 <= i <= self.enemies@.len(),
                self.enemies@.len() == old(self).enemies@.len(),
                self.objects == old(self).objects,
                self.bricks == old(self).bricks,
                all_wf(self.solid_boxes()),
                forall|k: int|
                    0 <= k < self.enemies@.len() ==> (#[trigger] self.enemies@[k]).wf(),
                forall|k: int|
                    0 <= k < i ==> #[trigger] self.enemies@[k] == old(self).enemies@[k].advanced(
                        dt as int,
                    ),
                forall|k: int| i <= k < self.enemies@.len() ==> #[trigger] self.enemies@[k] == old(
                    self,
                ).enemies@[k],
            decreases self.enemies@.len() - i,
        {
            let mut e = self.enemies[i];
            e.update(dt);
            self.enemies.set(i, e);
            i += 1;
        }
    }

    /// One collision pass for `player`: the player meets every solid box,
    /// every enemy meets every solid box, and then the player meets every
    /// enemy where it now stands.
    pub fn collide_with(&mut self, player: &mut Player)
        requires
            old(self).wf(),
            old(player).wf(),
        ensures
            final(self).wf(),
            final(self).objects == old(self).objects,
            final(self).bricks == old(self).bricks,
            final(self).enemies@.len() == old(self).enemies@.len(),
            forall|i: int|
                0 <= i < final(self).enemies@.len() ==> #[trigger] final(self).enemies@[i]
                    == enemy_met(old(self).enemies@[i], old(self).solid_boxes()),
            *final(player) == player_met(
                player_met(*old(player), old(self).solid_boxes()),
                final(self).enemy_boxes(),
            ),
            final(player).wf(),
    {
        let boxes = self.solid_box_list();
        meet_all(player, &boxes);
        let mut i: usize = 0;
        while i < self.enemies.len()
            invariant
                0 <= i <= self.enemies@.len(),
                self.enemies@.len() == old(self).enemies@.len(),
                self.objects == old(self).objects,
                self.bricks == old(self).bricks,
                boxes@ == self.solid_boxes(),
                all_wf(boxes@),
                forall|k: int|
                    0 <= k < self.enemies@.len() ==> (#[trigger] self.enemies@[k]).wf(),
                forall|k: int|
                    0 <= k < i ==> #[trigger] self.enemies@[k] == enemy_met(
                        old(self).enemies@[k],
                        boxes@,
                    ),
                forall|k: int| i <= k < self.enemies@.len() ==> #[trigger] self.enemies@[k] == old(
                    self,
                ).enemies@[k],
            decreases self.enemies@.len() - i,
        {
            let mut e = self.enemies[i];
            enemy_meet_all(&mut e, &boxes);
            self.enemies.set(i, e);
            i += 1;
        }
        let ghost met = *player;
        let mut j: usize = 0;
        while j < self.enemies.len()
            invariant
                0 <= j <= self.enemies@.len(),
                player.wf(),
                *player == player_met(met, self.enemy_boxes().take(j as int)),
                forall|k: int|
                    0 <= k < self.enemies@.len() ==> (#[trigger] self.enemies@[k]).wf(),
            decreases self.enemies@.len() - j,
        {
            let t = self.enemies[j].physics.transform;
            player.collide_with(&t);
            j += 1;
            assert(self.enemy_boxes().take(j as int).drop_last() =~= self.enemy_boxes().take(
                (j - 1) as int,
            ));
        }
        assert(self.enemy_boxes().take(j as int) =~= self.enemy_boxes());
    }

    /// One frame for `player` in this stage, in the order the simulation
    /// needs: the player moves by `dt` microseconds, comes back to the spawn
    /// point if it fell below `max_y`, meets every solid box and enemy, and
    /// only then derives its state. Returns whether a jump left the ground.
    pub fn play_frame(&mut self, player: &mut Player, dt: u32, max_y: i64) -> (took_off: bool)
        requires
            old(self).wf(),
            old(player).wf(),
        ensures
            final(self).wf(),
            final(self).objects == old(self).objects,
            final(self).bricks == old(self).bricks,
            final(self).enemies@.len() == old(self).enemies@.len(),
            forall|i: int|
                0 <= i < final(self).enemies@.len() ==> #[trigger] final(self).enemies@[i]
                    == enemy_met(old(self).enemies@[i], old(self).solid_boxes()),
            *final(player) == player_met(
                player_met(
                    old(player).advanced(dt as int).respawned(max_y as int),
                    old(self).solid_boxes(),
                ),
                final(self).enemy_boxes(),
            ).settled(),
            final(player).wf(),
            took_off == old(player).steered().takes_off(),
    {
        let took_off = player.update(dt);
        player.respawn_player_if_overflow(max_y);
        self.collide_with(player);
        player.settle_state();
        took_off
    }
}

/// `player` meets each box of `boxes` in turn.
pub fn meet_all(player: &mut Player, boxes: &Vec<Transform>)
    requires
        old(player).wf(),
        all_wf(boxes@),
    ensures
        *final(player) == player_met(*old(player), boxes@),
        final(player).wf(),
{
    let mut i: usize = 0;
    while i < boxes.len()
        invariant
            0 <= i <= boxes@.len(),
            all_wf(boxes@),
            player.wf(),
            *player == player_met(*old(player), boxes@.take(i as int)),
        decreases boxes@.len() - i,
    {
        player.collide_with(&boxes[i]);
        i += 1;
        assert(boxes@.take(i as int).drop_last() =~= boxes@.take((i - 1) as int));
    }
    assert(boxes@.take(i as int) =~= boxes@);
}

/// `enemy` meets each box of `boxes` in turn.
pub fn enemy_meet_all(enemy: &mut Enemy, boxes: &Vec<Transform>)
    requires
        old(enemy).wf(),
        all_wf(boxes@),
    ensures
        *final(enemy) == enemy_met(*old(enemy), boxes@),
        final(enemy).wf(),
{
    let mut i: usize = 0;
    while i < boxes.len()
        invariant
            0 <= i <= boxes@.len(),
            all_wf(boxes@),
            enemy.wf(),
            *enemy == enemy_met(*old(enemy), boxes@.take(i as int)),
        decreases boxes@.len() - i,
    {
        enemy.collide_with(&boxes[i]);
        i += 1;
        assert(boxes@.take(i as int).drop_last() =~= boxes@.take((i - 1) as int));
    }
    assert(boxes@.take(i as int) =~= boxes@);
}

} // verus!
