//! Enemy archetypes, their fixed stat tables, and the enemy side of the
//! actor state machine: pursuit, attack gating and hit-stun.

use vstd::prelude::*;

use crate::actor::Status;
use crate::constants::{ATTACK_DURATION_MS, COORD_LIMIT, FLASH_HALF_PERIOD_MS, HIT_DURATION_MS, SPEED};
use crate::geom::{norm_sq, scaled_component, scaled_dir, sqrt_floor, Vec2i};
use crate::timer::{flash_alpha, Timer, TimerMode};
use crate::world::{Entity, World};

verus! {

#[derive(Clone, Copy, Debug, PartialEq, Eq, Structural)]
pub enum AttackType {
    Slash,
    Claw,
    Thunder,
    Leaf,
}

impl AttackType {
    /// Name of the audio cue played for this kind of attack.
    pub fn sound(&self) -> (r: &'static str)
        ensures
            *self == AttackType::Slash ==> r@ == "slash"@,
            *self == AttackType::Claw ==> r@ == "claw"@,
            *self == AttackType::Thunder ==> r@ == "fireball"@,
            *self == AttackType::Leaf ==> r@ == "slash"@,
    {
        match self {
            AttackType::Slash => "slash",
            AttackType::Claw => "claw",
            AttackType::Thunder => "fireball",
            AttackType::Leaf => "slash",
        }
    }
}

#[derive(Clone, Copy, Debug, PartialEq, Eq, Structural)]
pub enum EnemyType {
    Squid,
    Raccoon,
    Spirit,
    Bamboo,
}

pub open spec fn health_of(ty: EnemyType) -> u32 {
    match ty {
        EnemyType::Squid => 100,
        EnemyType::Raccoon => 300,
        EnemyType::Spirit => 100,
        EnemyType::Bamboo => 70,
    }
}

pub open spec fn exp_of(ty: EnemyType) -> u32 {
    match ty {
        EnemyType::Squid => 100,
        EnemyType::Raccoon => 250,
        EnemyType::Spirit => 110,
        EnemyType::Bamboo => 120,
    }
}

pub open spec fn damage_of(ty: EnemyType) -> u32 {
    match ty {
        EnemyType::Squid => 20,
        EnemyType::Raccoon => 40,
        EnemyType::Spirit => 8,
        EnemyType::Bamboo => 6,
    }
}

pub open spec fn speed_of(ty: EnemyType) -> u32 {
    match ty {
        EnemyType::Squid => 3,
        EnemyType::Raccoon => 2,
        EnemyType::Spirit => 4,
        EnemyType::Bamboo => 3,
    }
}

pub open spec fn resistance_of(ty: EnemyType) -> u32 {
    match ty {
        EnemyType::Squid => 3,
        EnemyType::Raccoon => 3,
        EnemyType::Spirit => 3,
        EnemyType::Bamboo => 3,
    }
}

pub open spec fn attack_radius_of(ty: EnemyType) -> u32 {
    match ty {
        EnemyType::Squid => 80,
        EnemyType::Raccoon => 120,
        EnemyType::Spirit => 60,
        EnemyType::Bamboo => 50,
    }
}

pub open spec fn notice_radius_of(ty: EnemyType) -> u32 {
    match ty {
        EnemyType::Squid => 360,
        EnemyType::Raccoon => 400,
        EnemyType::Spirit => 350,
        EnemyType::Bamboo => 300,
    }
}

impl EnemyType {
    /// The archetype a world-map cell code stands for, if any.
    pub fn from_cell(value: i32) -> (r: Option<Self>)
        ensures
            value == 390 ==> r == Some(EnemyType::Bamboo),
            value == 391 ==> r == Some(EnemyType::Spirit),
            value == 392 ==> r == Some(EnemyType::Raccoon),
            value == 393 ==> r == Some(EnemyType::Squid),
            !(390 <= value <= 393) ==> r is None,
    {
        match value {
            390 => Some(EnemyType::Bamboo),
            391 => Some(EnemyType::Spirit),
            392 => Some(EnemyType::Raccoon),
            393 => Some(EnemyType::Squid),
            _ => None,
        }
    }
}

#[derive(Clone, Copy, Debug)]
pub struct Enemy {
    pub ty: EnemyType,
    pub status: Status,
    pub can_attack: bool,
    pub can_move: bool,
    pub attack_timer: Option<Timer>,
    pub hit_timer: Option<Timer>,
}

impl Enemy {
    /// At most one gating timer is attached at a time, and any attached
    /// timer is well formed.
    pub open spec fn wf(self) -> bool {
        &&& !(self.attack_timer is Some && self.hit_timer is Some)
        &&& (self.attack_timer matches Some(t) ==> t.wf() && t.mode == TimerMode::Once)
        &&& (self.hit_timer matches Some(t) ==> t.wf() && t.mode == TimerMode::Once)
        &&& (self.hit_timer is Some ==> !self.can_move)
    }

    pub fn new(ty: EnemyType) -> (r: Self)
        ensures
            r == (Enemy {
                ty,
                status: Status::Idle,
                can_attack: true,
                can_move: true,
                attack_timer: None::<Timer>,
                hit_timer: None::<Timer>,
            }),
            r.wf(),
    {
        Self { ty, status: Status::Idle, can_attack: true, can_move: true, attack_timer: None, hit_timer: None }
    }

    pub fn attack_cooldown(&self) -> (r: u32)
        ensures
            r == ATTACK_DURATION_MS,
    {
        ATTACK_DURATION_MS
    }

    pub fn is_attacking(&self) -> (r: bool)
        ensures
            r == (self.status == Status::Attack),
    {
        self.status == Status::Attack
    }

    pub fn can_move(&self) -> (r: bool)
        ensures
            r == self.can_move,
    {
        self.can_move
    }

    /// Taking non-lethal damage puts the enemy into hit-stun: it can no
    /// longer move, any pending attack timer is dropped, and a fresh
    /// hit-stun timer starts.
    pub fn hit(&mut self)
        requires
            old(self).wf(),
        ensures
            *final(self) == (Enemy {
                status: Status::HitStun,
                can_move: false,
                attack_timer: None::<Timer>,
                hit_timer: Some(
                    Timer {
                        duration_ms: HIT_DURATION_MS,
                        elapsed_ms: 0u32,
                        mode: TimerMode::Once,
                    },
                ),
                ..*old(self)
            }),
            final(self).wf(),
    {
        self.status = Status::HitStun;
        self.can_move = false;
        self.attack_timer = None;
        self.hit_timer = Some(Timer::new(HIT_DURATION_MS, TimerMode::Once));
    }

    pub fn attack_type(&self) -> (r: AttackType)
        ensures
            self.ty == EnemyType::Squid ==> r == AttackType::Slash,
            self.ty == EnemyType::Raccoon ==> r == AttackType::Claw,
            self.ty == EnemyType::Spirit ==> r == AttackType::Thunder,
            self.ty == EnemyType::Bamboo ==> r == AttackType::Leaf,
    {
        match self.ty {
            EnemyType::Squid => AttackType::Slash,
            EnemyType::Raccoon => AttackType::Claw,
            EnemyType::Spirit => AttackType::Thunder,
            EnemyType::Bamboo => AttackType::Leaf,
        }
    }

    pub fn health(&self) -> (r: u32)
        ensures
            r == health_of(self.ty),
    {
        match self.ty {
            EnemyType::Squid => 100,
            EnemyType::Raccoon => 300,
            EnemyType::Spirit => 100,
            EnemyType::Bamboo => 70,
        }
    }

    pub fn exp(&self) -> (r: u32)
        ensures
            r == exp_of(self.ty),
    {
        match self.ty {
            EnemyType::Squid => 100,
            EnemyType::Raccoon => 250,
            EnemyType::Spirit => 110,
            EnemyType::Bamboo => 120,
        }
    }

    pub fn damage(&self) -> (r: u32)
        ensures
            r == damage_of(self.ty),
    {
        match self.ty {
            EnemyType::Squid => 20,
            EnemyType::Raccoon => 40,
            EnemyType::Spirit => 8,
            EnemyType::Bamboo => 6,
        }
    }

    pub fn speed(&self) -> (r: u32)
        ensures
            r == speed_of(self.ty),
    {
        match self.ty {
            EnemyType::Squid => 3,
            EnemyType::Raccoon => 2,
            EnemyType::Spirit => 4,
            EnemyType::Bamboo => 3,
        }
    }

    pub fn resistance(&self) -> (r: u32)
        ensures
            r == resistance_of(self.ty),
    {
        match self.ty {
            EnemyType::Squid => 3,
            EnemyType::Raccoon => 3,
            EnemyType::Spirit => 3,
            EnemyType::Bamboo => 3,
        }
    }

    pub fn attack_radius(&self) -> (r: u32)
        ensures
            r == attack_radius_of(self.ty),
    {
        match self.ty {
            EnemyType::Squid => 80,
            EnemyType::Raccoon => 120,
            EnemyType::Spirit => 60,
            EnemyType::Bamboo => 50,
        }
    }

    pub fn notice_radius(&self) -> (r: u32)
        ensures
            r == notice_radius_of(self.ty),
    {
        match self.ty {
            EnemyType::Squid => 360,
            EnemyType::Raccoon => 400,
            EnemyType::Spirit => 350,
            EnemyType::Bamboo => 300,
        }
    }
}

/// The AI step at the level of the model: the enemy after one tick, the
/// velocity the engine should apply, and whether an attack started.
/// While attacking or hit-stunned nothing changes and the body is left
/// alone.
pub open spec fn spec_move_enemy(en: Enemy, enemy_pos: Vec2i, player_pos: Vec2i) -> (
    Enemy,
    Vec2i,
    bool,
) {
    let d2 = norm_sq(
        Vec2i { x: (player_pos.x - enemy_pos.x) as i64, y: (player_pos.y - enemy_pos.y) as i64 },
    );
    let ar = attack_radius_of(en.ty) as int;
    let nr = notice_radius_of(en.ty) as int;
    if en.status == Status::Attack || !en.can_move {
        (en, Vec2i { x: 0i64, y: 0i64 }, false)
    } else if d2 < ar * ar && en.can_attack {
        (
            Enemy {
                status: Status::Attack,
                can_attack: false,
                attack_timer: Some(
                    Timer { duration_ms: ATTACK_DURATION_MS, elapsed_ms: 0u32, mode: TimerMode::Once },
                ),
                ..en
            },
            Vec2i { x: 0i64, y: 0i64 },
            true,
        )
    } else if d2 < nr * nr {
        let v = if d2 == 0 {
            Vec2i { x: 0i64, y: 0i64 }
        } else {
            let len = sqrt_floor(d2);
            let k = speed_of(en.ty) * SPEED;
            Vec2i {
                x: scaled_component(player_pos.x - enemy_pos.x, k as int, len) as i64,
                y: scaled_component(player_pos.y - enemy_pos.y, k as int, len) as i64,
            }
        };
        (Enemy { status: Status::Move(v), ..en }, v, false)
    } else {
        (Enemy { status: Status::Idle, ..en }, Vec2i { x: 0i64, y: 0i64 }, false)
    }
}

/// What the enemy AI decided this tick; the engine applies the velocity to
/// the physics body.
#[derive(Clone, Copy, Debug, PartialEq, Eq, Structural)]
pub struct MoveDecision {
    pub velocity: Vec2i,
    pub started_attack: bool,
}

/// One AI tick for one enemy, from the squared distance to the player.
///
/// While attacking or hit-stunned nothing changes.  Otherwise: inside the
/// attack radius with the attack off cooldown, the enemy stops and enters
/// `Attack` (starting its attack timer); inside the notice radius it moves
/// toward the player at its archetype speed; outside it idles in place.
#[verifier::rlimit(60)]
pub fn move_enemy(enemy: &mut Enemy, enemy_pos: Vec2i, player_pos: Vec2i) -> (r: MoveDecision)
    requires
        old(enemy).wf(),
        enemy_pos.in_box(COORD_LIMIT as int),
        player_pos.in_box(COORD_LIMIT as int),
    ensures
        final(enemy).wf(),
        (*final(enemy), r.velocity, r.started_attack) == spec_move_enemy(
            *old(enemy),
            enemy_pos,
            player_pos,
        ),
{
    if enemy.is_attacking() || !enemy.can_move() {
        return MoveDecision { velocity: Vec2i { x: 0, y: 0 }, started_attack: false };
    }

    let diff = player_pos.sub(enemy_pos);
    proof {
        assert(diff == (Vec2i {
            x: (player_pos.x - enemy_pos.x) as i64,
            y: (player_pos.y - enemy_pos.y) as i64,
        }));
        assert(diff.x as int * diff.x as int + diff.y as int * diff.y as int == 0 ==> diff.x == 0
            && diff.y == 0) by (nonlinear_arith);
    }
    let dist_sq: u64 = {
        let ax: u64 = if diff.x >= 0 {
            diff.x as u64
        } else {
            (-diff.x) as u64
        };
        let ay: u64 = if diff.y >= 0 {
            diff.y as u64
        } else {
            (-diff.y) as u64
        };
        proof {
            assert(diff.x as int * diff.x as int == ax as int * ax as int) by (nonlinear_arith)
                requires
                    ax as int == if diff.x >= 0 {
                        diff.x as int
                    } else {
                        -(diff.x as int)
                    },
            ;
            assert(diff.y as int * diff.y as int == ay as int * ay as int) by (nonlinear_arith)
                requires
                    ay as int == if diff.y >= 0 {
                        diff.y as int
                    } else {
                        -(diff.y as int)
                    },
            ;
            assert(ax as int * ax as int <= 2097152 * 2097152) by (nonlinear_arith)
                requires
                    0 <= (ax as int) <= 2097152,
            ;
            assert(ay as int * ay as int <= 2097152 * 2097152) by (nonlinear_arith)
                requires
                    0 <= (ay as int) <= 2097152,
            ;
        }
        ax * ax + ay * ay
    };

    let ar: u64 = self_radius_sq(enemy.attack_radius());
    let nr: u64 = self_radius_sq(enemy.notice_radius());

    if dist_sq < ar && enemy.can_attack {
        enemy.can_attack = false;
        enemy.status = Status::Attack;
        enemy.attack_timer = Some(Timer::new(ATTACK_DURATION_MS, TimerMode::Once));
        MoveDecision { velocity: Vec2i { x: 0, y: 0 }, started_attack: true }
    } else if dist_sq < nr {
        let k: i64 = enemy.speed() as i64 * SPEED;
        let velocity = scaled_dir(diff, k);
        proof {
            let dvec = Vec2i {
                x: (player_pos.x - enemy_pos.x) as i64,
                y: (player_pos.y - enemy_pos.y) as i64,
            };
            let d2 = norm_sq(dvec);
            let len = sqrt_floor(d2);
            let kk = speed_of(enemy.ty) * SPEED;
            assert(dvec == diff);
            assert(d2 == norm_sq(diff));
            assert(kk == k as int);
            if d2 > 0 {
                assert(!(diff.x == 0 && diff.y == 0)) by (nonlinear_arith)
                    requires
                        d2 == diff.x as int * diff.x as int + diff.y as int * diff.y as int,
                        d2 > 0,
                ;
                assert(velocity.x == scaled_component(player_pos.x - enemy_pos.x, kk, len));
            }
        }
        enemy.status = Status::Move(velocity);
        MoveDecision { velocity, started_attack: false }
    } else {
        enemy.status = Status::Idle;
        MoveDecision { velocity: Vec2i { x: 0, y: 0 }, started_attack: false }
    }
}

/// Square of a radius, widened so it cannot overflow.
fn self_radius_sq(r: u32) -> (s: u64)
    ensures
        s == (r as int) * (r as int),
{
    proof {
        assert((r as int) * (r as int) <= 0xffffffff * 0xffffffff) by (nonlinear_arith)
            requires
                0 <= (r as int) <= 0xffffffff,
        ;
    }
    (r as u64) * (r as u64)
}

/// The attack-timer tick at the level of the model: the enemy after the
/// tick, and whether the attack just ended.
pub open spec fn spec_end_enemy_attack(en: Enemy, delta_ms: u32) -> (Enemy, bool) {
    match en.attack_timer {
        None => (en, false),
        Some(t) => {
            let after = vstd::math::min(t.duration_ms as int, t.elapsed_ms + delta_ms);
            if after >= t.duration_ms {
                (
                    Enemy {
                        status: Status::Idle,
                        can_attack: true,
                        attack_timer: None::<Timer>,
                        ..en
                    },
                    true,
                )
            } else {
                (Enemy { attack_timer: Some(Timer { elapsed_ms: after as u32, ..t }), ..en }, false)
            }
        },
    }
}

/// Tick the enemy's attack timer; on expiry the attack ends, the enemy
/// returns to `Idle` and its attack comes off cooldown.
pub fn end_enemy_attack(enemy: &mut Enemy, delta_ms: u32) -> (ended: bool)
    requires
        old(enemy).wf(),
    ensures
        final(enemy).wf(),
        (*final(enemy), ended) == spec_end_enemy_attack(*old(enemy), delta_ms),
{
    match enemy.attack_timer {
        Some(mut timer) => {
            timer.tick(delta_ms);
            if timer.finished() {
                enemy.status = Status::Idle;
                enemy.can_attack = true;
                enemy.attack_timer = None;
                true
            } else {
                enemy.attack_timer = Some(timer);
                false
            }
        },
        None => false,
    }
}

/// The hit-stun tick at the level of the model: the enemy after the
/// tick, and the sprite alpha to render with.
pub open spec fn spec_handle_enemy_hit(en: Enemy, delta_ms: u32) -> (Enemy, u8) {
    match en.hit_timer {
        None => (en, 255u8),
        Some(t) => {
            let after = vstd::math::min(t.duration_ms as int, t.elapsed_ms + delta_ms);
            if after >= t.duration_ms {
                (
                    Enemy { status: Status::Idle, can_move: true, hit_timer: None::<Timer>, ..en },
                    255u8,
                )
            } else {
                (
                    Enemy { hit_timer: Some(Timer { elapsed_ms: after as u32, ..t }), ..en },
                    if (after / FLASH_HALF_PERIOD_MS as int) % 2 == 0 {
                        255u8
                    } else {
                        0u8
                    },
                )
            }
        },
    }
}

/// Tick the enemy's hit-stun timer.  While it runs the sprite flashes; on
/// expiry the enemy may move again, returns to `Idle`, the sprite turns
/// opaque and the timer is removed.  Returns the alpha to render with.
pub fn handle_enemy_hit(enemy: &mut Enemy, delta_ms: u32) -> (alpha: u8)
    requires
        old(enemy).wf(),
    ensures
        final(enemy).wf(),
        (*final(enemy), alpha) == spec_handle_enemy_hit(*old(enemy), delta_ms),
{
    match enemy.hit_timer {
        Some(mut timer) => {
            timer.tick(delta_ms);
            if timer.finished() {
                enemy.status = Status::Idle;
                enemy.can_move = true;
                enemy.hit_timer = None;
                255
            } else {
                enemy.hit_timer = Some(timer);
                flash_alpha(timer.elapsed_ms)
            }
        },
        None => 255,
    }
}


/// One AI tick of one arena slot: a live enemy entity that is neither
/// attacking nor hit-stunned takes its AI step and gets the decided
/// velocity; every other slot is left alone.
pub open spec fn spec_moved_entity(e: Entity, player_pos: Vec2i) -> Entity {
    if e.alive && e.enemy is Some {
        let en = e.enemy->0;
        if en.status == Status::Attack || !en.can_move {
            e
        } else {
            let step = spec_move_enemy(en, e.pos, player_pos);
            Entity { enemy: Some(step.0), vel: step.1, ..e }
        }
    } else {
        e
    }
}

/// One AI tick for every enemy in the arena, each against the same
/// player position; the slots are independent of one another.
pub fn move_enemies(world: &mut World, player_pos: Vec2i)
    requires
        old(world).wf(),
        player_pos.in_box(COORD_LIMIT as int),
    ensures
        final(world).wf(),
        final(world).ents@.len() == old(world).ents@.len(),
        forall|i: int| 0 <= i < old(world).ents@.len() ==> final(world).ents@[i]
            == spec_moved_entity(#[trigger] old(world).ents@[i], player_pos),
{
    let n = world.ents.len();
    let mut i: usize = 0;
    while i < n
        invariant
            world.wf(),
            i <= n,
            n == old(world).ents@.len(),
            world.ents@.len() == n,
            player_pos.in_box(COORD_LIMIT as int),
            forall|j: int| 0 <= j < i ==> world.ents@[j] == spec_moved_entity(
                #[trigger] old(world).ents@[j],
                player_pos,
            ),
            forall|j: int| i <= j < n ==> world.ents@[j] == old(world).ents@[j],
        decreases n - i,
    {
        let e = world.ents[i];
        if e.alive {
            match e.enemy {
                Some(en) => {
                    let gated = en.status == Status::Attack || !en.can_move;
                    if !gated {
                        let mut en = en;
                        proof {
                            assert(old(world).ents@[i as int].wf_at(i as int));
                        }
                        let decision = move_enemy(&mut en, e.pos, player_pos);
                        let mut updated = e;
                        updated.enemy = Some(en);
                        updated.vel = decision.velocity;
                        world.ents.set(i, updated);
                        proof {
                            assert forall|j: int| 0 <= j < world.ents@.len() implies (
                            #[trigger] world.ents@[j]).wf_at(j) by {
                                if j != i {
                                    assert(world.ents@[j] == old(world).ents@[j]
                                        || world.ents@[j] == spec_moved_entity(
                                        old(world).ents@[j],
                                        player_pos,
                                    ));
                                }
                            }
                        }
                    }
                },
                None => {},
            }
        }
        i = i + 1;
    }
}

/// One attack-timer tick of one arena slot.
pub open spec fn spec_attack_ended_entity(e: Entity, delta_ms: u32) -> Entity {
    if e.alive && e.enemy is Some {
        Entity { enemy: Some(spec_end_enemy_attack(e.enemy->0, delta_ms).0), ..e }
    } else {
        e
    }
}

/// Tick the attack timer of every enemy in the arena.
pub fn end_enemy_attacks(world: &mut World, delta_ms: u32)
    requires
        old(world).wf(),
    ensures
        final(world).wf(),
        final(world).ents@.len() == old(world).ents@.len(),
        forall|i: int| 0 <= i < old(world).ents@.len() ==> final(world).ents@[i]
            == spec_attack_ended_entity(#[trigger] old(world).ents@[i], delta_ms),
{
    let n = world.ents.len();
    let mut i: usize = 0;
    while i < n
        invariant
            world.wf(),
            i <= n,
            n == old(world).ents@.len(),
            world.ents@.len() == n,
            forall|j: int| 0 <= j < i ==> world.ents@[j] == spec_attack_ended_entity(
                #[trigger] old(world).ents@[j],
                delta_ms,
            ),
            forall|j: int| i <= j < n ==> world.ents@[j] == old(world).ents@[j],
        decreases n - i,
    {
        let e = world.ents[i];
        if e.alive {
            match e.enemy {
                Some(en) => {
                    let mut en = en;
                    proof {
                        assert(old(world).ents@[i as int].wf_at(i as int));
                    }
                    let _ = end_enemy_attack(&mut en, delta_ms);
                    let mut updated = e;
                    updated.enemy = Some(en);
                    world.ents.set(i, updated);
                    proof {
                        assert forall|j: int| 0 <= j < world.ents@.len() implies (
                        #[trigger] world.ents@[j]).wf_at(j) by {
                            if j != i {
                                assert(world.ents@[j] == old(world).ents@[j] || world.ents@[j]
                                    == spec_attack_ended_entity(old(world).ents@[j], delta_ms));
                            }
                        }
                    }
                },
                None => {},
            }
        }
        i = i + 1;
    }
}

/// One hit-stun tick of one arena slot.
pub open spec fn spec_hit_ticked_entity(e: Entity, delta_ms: u32) -> Entity {
    if e.alive && e.enemy is Some {
        Entity { enemy: Some(spec_handle_enemy_hit(e.enemy->0, delta_ms).0), ..e }
    } else {
        e
    }
}

/// Tick the hit-stun timer of every enemy in the arena; the renderer
/// reads each enemy's flash alpha through `handle_enemy_hit`.
pub fn handle_enemy_hits(world: &mut World, delta_ms: u32)
    requires
        old(world).wf(),
    ensures
        final(world).wf(),
        final(world).ents@.len() == old(world).ents@.len(),
        forall|i: int| 0 <= i < old(world).ents@.len() ==> final(world).ents@[i]
            == spec_hit_ticked_entity(#[trigger] old(world).ents@[i], delta_ms),
{
    let n = world.ents.len();
    let mut i: usize = 0;
    while i < n
        invariant
            world.wf(),
            i <= n,
            n == old(world).ents@.len(),
            world.ents@.len() == n,
            forall|j: int| 0 <= j < i ==> world.ents@[j] == spec_hit_ticked_entity(
                #[trigger] old(world).ents@[j],
                delta_ms,
            ),
            forall|j: int| i <= j < n ==> world.ents@[j] == old(world).ents@[j],
        decreases n - i,
    {
        let e = world.ents[i];
        if e.alive {
            match e.enemy {
                Some(en) => {
                    let mut en = en;
                    proof {
                        assert(old(world).ents@[i as int].wf_at(i as int));
                    }
                    let _ = handle_enemy_hit(&mut en, delta_ms);
                    let mut updated = e;
                    updated.enemy = Some(en);
                    world.ents.set(i, updated);
                    proof {
                        assert forall|j: int| 0 <= j < world.ents@.len() implies (
                        #[trigger] world.ents@[j]).wf_at(j) by {
                            if j != i {
                                assert(world.ents@[j] == old(world).ents@[j] || world.ents@[j]
                                    == spec_hit_ticked_entity(old(world).ents@[j], delta_ms));
                            }
                        }
                    }
                },
                None => {},
            }
        }
        i = i + 1;
    }
}

} // verus!
