//! Player-owned combat context: which weapon and spell are selected, and
//! which weapon-swing and spell-projectile entities are live right now.
//!
//! At most one weapon swing and at most one spell projectile exist at any
//! time; the spawners here are the only way to create them and refuse to
//! create a second.

use vstd::prelude::*;

use crate::constants::{COORD_LIMIT, TILE_SIZE};
use crate::events::EmitParticleEffect;
use crate::geom::Vec2i;
use crate::magic::{magic_cost_of, magic_strength_of, spec_next_magic, Magic};
use crate::particles::ParticleEffect;
use crate::player::{Player, PlayerStat};
use crate::rng::random_in_range;
use crate::stats::Stat;
use crate::actor::Status;
use crate::weapon::{spec_next, Weapon};
use crate::world::{Entity, World};

verus! {

/// The combat context owned by the player actor.
#[derive(Clone, Copy, Debug)]
pub struct GameSession {
    pub current_weapon: Weapon,
    pub current_magic: Magic,
    /// Arena index of the live weapon-swing entity, if one exists.
    pub active_weapon: Option<usize>,
    /// Arena index of the live spell-projectile entity, if one exists.
    pub active_magic: Option<usize>,
}

impl GameSession {
    /// Any live weapon or projectile index points into the arena.
    pub open spec fn wf_for(self, w: World) -> bool {
        &&& (self.active_weapon matches Some(i) ==> i < w.ents@.len())
        &&& (self.active_magic matches Some(i) ==> i < w.ents@.len())
    }

    pub fn new() -> (r: Self)
        ensures
            r == (GameSession {
                current_weapon: Weapon::Sword,
                current_magic: Magic::Flame,
                active_weapon: None::<usize>,
                active_magic: None::<usize>,
            }),
    {
        GameSession {
            current_weapon: Weapon::Sword,
            current_magic: Magic::Flame,
            active_weapon: None,
            active_magic: None,
        }
    }

    /// Select the next weapon in the cycle.
    pub fn switch_weapon(&mut self)
        ensures
            *final(self) == (GameSession {
                current_weapon: spec_next(old(self).current_weapon),
                ..*old(self)
            }),
    {
        self.current_weapon = self.current_weapon.next();
    }

    /// Select the next spell in the cycle.
    pub fn switch_magic(&mut self)
        ensures
            *final(self) == (GameSession {
                current_magic: spec_next_magic(old(self).current_magic),
                ..*old(self)
            }),
    {
        self.current_magic = self.current_magic.next();
    }
}

/// Spawn the weapon-swing entity for the player's current attack.
///
/// Nothing happens unless the player is attacking; and while a swing is
/// already live, a second one is never created — the arena and the
/// session come back unchanged.
pub fn spawn_weapon(session: &mut GameSession, world: &mut World, player: &Player, pos: Vec2i) -> (r: Option<usize>)
    requires
        old(session).wf_for(*old(world)),
        old(world).wf(),
        pos.in_box(COORD_LIMIT as int),
    ensures
        final(session).wf_for(*final(world)),
        final(world).wf(),
        old(session).active_weapon is Some ==> r is None && *final(world) == *old(world) && *final(session) == *old(session),
        old(session).active_weapon is None && player.status != Status::Attack ==> r is None
            && *final(world) == *old(world) && *final(session) == *old(session),
        old(session).active_weapon is None && player.status == Status::Attack ==> {
            &&& r == Some(old(world).ents@.len() as usize)
            &&& final(world).ents@ == old(world).ents@.push(
                Entity {
                    alive: true,
                    parent: None::<usize>,
                    pos,
                    vel: Vec2i { x: 0i64, y: 0i64 },
                    attackable: None::<crate::world::Attackable>,
                    enemy: None::<crate::enemy::Enemy>,
                    weapon: Some(old(session).current_weapon),
                    magic: None::<Magic>,
                },
            )
            &&& *final(session) == (GameSession {
                active_weapon: Some(old(world).ents@.len() as usize),
                ..*old(session)
            })
        },
{
    if session.active_weapon.is_some() {
        return None;
    }
    if !player.is_attacking() {
        return None;
    }
    let mut e = Entity::plain(pos);
    e.weapon = Some(session.current_weapon);
    let id = world.spawn(e);
    session.active_weapon = Some(id);
    Some(id)
}

/// Spawn the spell-projectile entity for the player's current cast.
///
/// Mirrors the weapon spawner: only while casting, and never a second
/// projectile while one is live.
pub fn spawn_magic(session: &mut GameSession, world: &mut World, player: &Player, pos: Vec2i) -> (r: Option<usize>)
    requires
        old(session).wf_for(*old(world)),
        old(world).wf(),
        pos.in_box(COORD_LIMIT as int),
    ensures
        final(session).wf_for(*final(world)),
        final(world).wf(),
        old(session).active_magic is Some ==> r is None && *final(world) == *old(world) && *final(session) == *old(session),
        old(session).active_magic is None && player.status != Status::CastSpell ==> r is None
            && *final(world) == *old(world) && *final(session) == *old(session),
        old(session).active_magic is None && player.status == Status::CastSpell ==> {
            &&& r == Some(old(world).ents@.len() as usize)
            &&& final(world).ents@ == old(world).ents@.push(
                Entity {
                    alive: true,
                    parent: None::<usize>,
                    pos,
                    vel: Vec2i { x: 0i64, y: 0i64 },
                    attackable: None::<crate::world::Attackable>,
                    enemy: None::<crate::enemy::Enemy>,
                    weapon: None::<Weapon>,
                    magic: Some(old(session).current_magic),
                },
            )
            &&& *final(session) == (GameSession {
                active_magic: Some(old(world).ents@.len() as usize),
                ..*old(session)
            })
        },
{
    if session.active_magic.is_some() {
        return None;
    }
    if !player.is_casting_spell() {
        return None;
    }
    let mut e = Entity::plain(pos);
    e.magic = Some(session.current_magic);
    let id = world.spawn(e);
    session.active_magic = Some(id);
    Some(id)
}

/// Despawn the live weapon-swing entity, if any; the attack's end calls
/// this.
pub fn despawn_weapon(session: &mut GameSession, world: &mut World)
    requires
        old(session).wf_for(*old(world)),
        old(world).wf(),
    ensures
        final(session).wf_for(*final(world)),
        final(world).wf(),
        final(session).active_weapon is None,
        *final(session) == (GameSession { active_weapon: None::<usize>, ..*old(session) }),
        old(session).active_weapon is None ==> *final(world) == *old(world),
        old(session).active_weapon matches Some(i) ==> {
            &&& final(world).ents@.len() == old(world).ents@.len()
            &&& forall|j: int| 0 <= j < old(world).ents@.len() ==> final(world).ents@[j] == (
            Entity {
                alive: old(world).ents@[j].alive && !old(world).in_subtree(i as int, j),
                ..old(world).ents@[j]
            })
        },
{
    match session.active_weapon {
        Some(i) => {
            world.despawn_subtree(i);
            session.active_weapon = None;
        },
        None => {},
    }
}

/// Despawn the live spell-projectile entity, if any; the renderer calls
/// this when the projectile's effect has played out.
pub fn despawn_magic(session: &mut GameSession, world: &mut World)
    requires
        old(session).wf_for(*old(world)),
        old(world).wf(),
    ensures
        final(session).wf_for(*final(world)),
        final(world).wf(),
        final(session).active_magic is None,
        *final(session) == (GameSession { active_magic: None::<usize>, ..*old(session) }),
        old(session).active_magic is None ==> *final(world) == *old(world),
        old(session).active_magic matches Some(i) ==> {
            &&& final(world).ents@.len() == old(world).ents@.len()
            &&& forall|j: int| 0 <= j < old(world).ents@.len() ==> final(world).ents@[j] == (
            Entity {
                alive: old(world).ents@[j].alive && !old(world).in_subtree(i as int, j),
                ..old(world).ents@[j]
            })
        },
{
    match session.active_magic {
        Some(i) => {
            world.despawn_subtree(i);
            session.active_magic = None;
        },
        None => {},
    }
}

/// Cast the selected spell.
///
/// Only a player that is in the cast state and still holds the cast
/// attempt may cast; the attempt is consumed first, so a cast with too
/// little energy fails once and costs nothing.  A successful heal raises
/// health by the spell's strength and requests its aura and heal effects
/// in place; a successful flame requests five flame effects scattered
/// along the facing, each within a third of a tile of its slot.
pub fn cast_spell(player: &mut Player, magic: Magic, pos: Vec2i) -> (effects: Vec<EmitParticleEffect>)
    requires
        old(player).wf(),
        pos.in_box(COORD_LIMIT as int),
    ensures
        final(player).wf(),
        ({
            let cost = magic_cost_of(magic);
            let strength = magic_strength_of(magic);
            let energy0 = old(player).stats.spec_get(PlayerStat::Energy);
            let spent = old(player).stats.spec_with(
                PlayerStat::Energy,
                Stat { value: (energy0.value - cost) as u32, ..energy0 },
            );
            if old(player).status != Status::CastSpell || !old(player).can_cast_spell {
                *final(player) == *old(player) && effects@.len() == 0
            } else if energy0.value < cost {
                *final(player) == (Player { can_cast_spell: false, ..*old(player) })
                    && effects@.len() == 0
            } else if magic == Magic::Heal {
                &&& *final(player) == (Player {
                    can_cast_spell: false,
                    stats: spent.spec_with(
                        PlayerStat::Health,
                        Stat {
                            value: vstd::math::min(
                                spent.health.value + strength,
                                spent.health.limit as int,
                            ) as u32,
                            ..spent.health
                        },
                    ),
                    ..*old(player)
                })
                &&& effects@ == seq![
                    EmitParticleEffect {
                        ty: ParticleEffect::Aura,
                        pos,
                        offset: Vec2i { x: 0i64, y: 0i64 },
                    },
                    EmitParticleEffect {
                        ty: ParticleEffect::Heal,
                        pos,
                        offset: Vec2i { x: 0i64, y: 0i64 },
                    },
                ]
            } else {
                &&& *final(player) == (Player {
                    can_cast_spell: false,
                    stats: spent,
                    ..*old(player)
                })
                &&& effects@.len() == 5
                &&& forall|j: int|
                    0 <= j < 5 ==> {
                        let d = old(player).direction.spec_as_vec2();
                        let slot_x = pos.x + d.x * (j + 1) * (TILE_SIZE as int);
                        let slot_y = pos.y + d.y * (j + 1) * (TILE_SIZE as int);
                        (#[trigger] effects@[j]).ty == ParticleEffect::Flame && slot_x - 21
                            <= effects@[j].pos.x <= slot_x + 21 && slot_y - 21 <= effects@[j].pos.y
                            <= slot_y + 21 && effects@[j].offset == (Vec2i { x: 0i64, y: 0i64 })
                    }
            }
        }),
{
    let mut effects: Vec<EmitParticleEffect> = Vec::new();
    if !player.is_casting_spell() || !player.can_cast_spell {
        return effects;
    }
    player.can_cast_spell = false;

    if player.cast_spell(magic.cost()) {
        match magic {
            Magic::Heal => {
                player.heal(magic.strength());
                effects.push(EmitParticleEffect::new(ParticleEffect::Aura, pos));
                effects.push(EmitParticleEffect::new(ParticleEffect::Heal, pos));
            },
            Magic::Flame => {
                let dir = player.direction.as_vec2();
                let mut i: u32 = 1;
                while i <= 5
                    invariant
                        1 <= i <= 6,
                        dir == old(player).direction.spec_as_vec2(),
                        effects@.len() == i - 1,
                        pos.in_box(COORD_LIMIT as int),
                        -1 <= dir.x <= 1,
                        -1 <= dir.y <= 1,
                        forall|j: int|
                            0 <= j < i - 1 ==> {
                                let slot_x = pos.x + dir.x * (j + 1) * (TILE_SIZE as int);
                                let slot_y = pos.y + dir.y * (j + 1) * (TILE_SIZE as int);
                                (#[trigger] effects@[j]).ty == ParticleEffect::Flame && slot_x - 21
                                    <= effects@[j].pos.x <= slot_x + 21 && slot_y - 21
                                    <= effects@[j].pos.y <= slot_y + 21 && effects@[j].offset == (
                                Vec2i { x: 0i64, y: 0i64 })
                            },
                    decreases 6 - i,
                {
                    let jitter_x = random_in_range(-21, 22);
                    let jitter_y = random_in_range(-21, 22);
                    proof {
                        assert(-5 * 64 <= dir.x as int * (i as int) * 64 <= 5 * 64)
                            by (nonlinear_arith)
                            requires
                                -1 <= (dir.x as int) <= 1,
                                1 <= (i as int) <= 5,
                        ;
                        assert(-5 * 64 <= dir.y as int * (i as int) * 64 <= 5 * 64)
                            by (nonlinear_arith)
                            requires
                                -1 <= (dir.y as int) <= 1,
                                1 <= (i as int) <= 5,
                        ;
                    }
                    let fx: i64 = pos.x + dir.x * (i as i64) * TILE_SIZE + jitter_x;
                    let fy: i64 = pos.y + dir.y * (i as i64) * TILE_SIZE + jitter_y;
                    effects.push(
                        EmitParticleEffect::new(ParticleEffect::Flame, Vec2i::new(fx, fy)),
                    );
                    i = i + 1;
                }
            },
        }
    }
    effects
}

} // verus!
