//! The combat pipeline: collision classification, damage resolution,
//! death handling and knockback.
//!
//! Raw contact-begin events come from the physics layer as pairs of arena
//! indices.  The classifier turns each into at most one semantic event, in
//! strict priority order: active spell projectile, then active weapon
//! swing, then the player's own body.  The damage resolver walks a struck
//! collider up to its logical owner, applies saturating damage, and emits
//! a kill or damage intent that the death and knockback handlers consume.

use vstd::prelude::*;

use crate::constants::{COORD_LIMIT, SPEED};
use crate::enemy::{damage_of, exp_of, resistance_of, Enemy};
use crate::events::{
    DamageAttackable, EmitParticleEffect, KillAttackable, MagicCollision, PlayerCollision,
    WeaponCollision,
};
use crate::geom::{norm_sq, scaled_component, scaled_dir, sqrt_floor, Vec2i};
use crate::magic::Magic;
use crate::session::GameSession;
use crate::particles::ParticleEffect;
use crate::player::Player;
use crate::timer::{Timer, TimerMode};
use crate::weapon::Weapon;
use crate::world::{despawn_seq, seq_in_subtree, seq_owner_of, Attackable, Entity, World};
use crate::actor::Status;
use crate::constants::HIT_DURATION_MS;

verus! {

/// Membership and filter bitmask pair of a collider.  The physics layer
/// reports a contact between two shapes only when each one's membership
/// intersects the other's filter.
#[derive(Clone, Copy, Debug, PartialEq, Eq, Structural)]
pub struct CollisionGroups {
    pub memberships: u32,
    pub filters: u32,
}

/// Whether the physics layer may report a contact between shapes of these
/// two groups.
pub open spec fn can_contact(a: CollisionGroups, b: CollisionGroups) -> bool {
    (a.memberships & b.filters) != 0 && (b.memberships & a.filters) != 0
}

/// The player's movement body: group 1, colliding with enemies and
/// objects.
pub fn player_move_collision_group() -> (r: CollisionGroups)
    ensures
        r == (CollisionGroups { memberships: 0x1u32, filters: 0x80200u32 }),
{
    CollisionGroups { memberships: 0x1, filters: 0x80200 }
}

/// The active weapon swing: group 2, colliding with enemies and objects.
pub fn weapon_collision_group() -> (r: CollisionGroups)
    ensures
        r == (CollisionGroups { memberships: 0x2u32, filters: 0x80200u32 }),
{
    CollisionGroups { memberships: 0x2, filters: 0x80200 }
}

/// The active spell projectile: group 3, colliding with enemies and
/// objects.
pub fn magic_collision_group() -> (r: CollisionGroups)
    ensures
        r == (CollisionGroups { memberships: 0x4u32, filters: 0x80200u32 }),
{
    CollisionGroups { memberships: 0x4, filters: 0x80200 }
}

/// An enemy's attack hurtbox: group 10, colliding with the player, the
/// projectile and the weapon.
pub fn enemy_attack_collision_group() -> (r: CollisionGroups)
    ensures
        r == (CollisionGroups { memberships: 0x200u32, filters: 0x7u32 }),
{
    CollisionGroups { memberships: 0x200, filters: 0x7 }
}

/// An enemy's movement body: group 11, colliding with objects only.
pub fn enemy_move_collision_group() -> (r: CollisionGroups)
    ensures
        r == (CollisionGroups { memberships: 0x400u32, filters: 0x80000u32 }),
{
    CollisionGroups { memberships: 0x400, filters: 0x80000 }
}

/// A destructible object: group 20, colliding with the player, the
/// projectile and the weapon.
pub fn objects_collision_group() -> (r: CollisionGroups)
    ensures
        r == (CollisionGroups { memberships: 0x80000u32, filters: 0x7u32 }),
{
    CollisionGroups { memberships: 0x80000, filters: 0x7 }
}

/// Whether two concrete groups can produce a reported contact.
pub fn groups_can_contact(a: CollisionGroups, b: CollisionGroups) -> (r: bool)
    ensures
        r == can_contact(a, b),
{
    (a.memberships & b.filters) != 0 && (b.memberships & a.filters) != 0
}

/// Group filtering is the sole mechanism keeping the player's own shapes
/// from hurting the player: none of the player-side shapes (body, weapon
/// swing, spell projectile) can ever contact any other of them, while each
/// of them does contact an enemy hurtbox and a destructible object.
pub proof fn lemma_player_shapes_never_self_collide()
    ensures
        !can_contact(
            CollisionGroups { memberships: 0x1u32, filters: 0x80200u32 },
            CollisionGroups { memberships: 0x1u32, filters: 0x80200u32 },
        ),
        !can_contact(
            CollisionGroups { memberships: 0x1u32, filters: 0x80200u32 },
            CollisionGroups { memberships: 0x2u32, filters: 0x80200u32 },
        ),
        !can_contact(
            CollisionGroups { memberships: 0x1u32, filters: 0x80200u32 },
            CollisionGroups { memberships: 0x4u32, filters: 0x80200u32 },
        ),
        !can_contact(
            CollisionGroups { memberships: 0x2u32, filters: 0x80200u32 },
            CollisionGroups { memberships: 0x4u32, filters: 0x80200u32 },
        ),
        can_contact(
            CollisionGroups { memberships: 0x1u32, filters: 0x80200u32 },
            CollisionGroups { memberships: 0x200u32, filters: 0x7u32 },
        ),
        can_contact(
            CollisionGroups { memberships: 0x2u32, filters: 0x80200u32 },
            CollisionGroups { memberships: 0x80000u32, filters: 0x7u32 },
        ),
        can_contact(
            CollisionGroups { memberships: 0x4u32, filters: 0x80200u32 },
            CollisionGroups { memberships: 0x200u32, filters: 0x7u32 },
        ),
{
    assert((0x1u32 & 0x80200u32) == 0 && (0x2u32 & 0x80200u32) == 0 && (0x4u32 & 0x80200u32) == 0
        && (0x1u32 & 0x7u32) != 0 && (0x200u32 & 0x80200u32) != 0 && (0x2u32 & 0x7u32) != 0 && (
    0x80000u32 & 0x80200u32) != 0 && (0x4u32 & 0x7u32) != 0) by (bit_vector);
}

/// One contact notification from the physics layer.
#[derive(Clone, Copy, Debug, PartialEq, Eq, Structural)]
pub struct ContactEvent {
    pub a: usize,
    pub b: usize,
    /// True for a contact that began this frame; ended contacts are
    /// ignored by this subsystem.
    pub started: bool,
}

/// A classified contact: exactly one semantic reading of a raw pair.
#[derive(Clone, Copy, Debug, PartialEq, Eq, Structural)]
pub enum SemanticCollision {
    Magic(MagicCollision),
    Weapon(WeaponCollision),
    Player(PlayerCollision),
}

/// Third priority: one of the player's own colliders.
pub open spec fn spec_classify_player(
    a: usize,
    b: usize,
    player: usize,
    player_children: Seq<usize>,
) -> Option<SemanticCollision> {
    if player_children.contains(a) || player_children.contains(b) {
        Some(
            SemanticCollision::Player(
                PlayerCollision {
                    player,
                    other: if player_children.contains(a) {
                        b
                    } else {
                        a
                    },
                },
            ),
        )
    } else {
        None
    }
}

/// Second priority: the active weapon swing.
pub open spec fn spec_classify_weapon(
    a: usize,
    b: usize,
    active_weapon: Option<usize>,
    player: usize,
    player_children: Seq<usize>,
) -> Option<SemanticCollision> {
    match active_weapon {
        Some(w) => if a == w || b == w {
            Some(
                SemanticCollision::Weapon(
                    WeaponCollision {
                        weapon: w,
                        other: if a == w {
                            b
                        } else {
                            a
                        },
                    },
                ),
            )
        } else {
            spec_classify_player(a, b, player, player_children)
        },
        None => spec_classify_player(a, b, player, player_children),
    }
}

/// The classification rule.  Priority: the active spell projectile first,
/// the active weapon swing second, the player's own colliders third;
/// anything else is unclassified.  Ended contacts never classify.
pub open spec fn spec_classify(
    a: usize,
    b: usize,
    started: bool,
    active_magic: Option<usize>,
    active_weapon: Option<usize>,
    player: usize,
    player_children: Seq<usize>,
) -> Option<SemanticCollision> {
    if !started {
        None
    } else {
        match active_magic {
            Some(m) => if a == m || b == m {
                Some(
                    SemanticCollision::Magic(
                        MagicCollision {
                            magic: m,
                            other: if a == m {
                                b
                            } else {
                                a
                            },
                        },
                    ),
                )
            } else {
                spec_classify_weapon(a, b, active_weapon, player, player_children)
            },
            None => spec_classify_weapon(a, b, active_weapon, player, player_children),
        }
    }
}

/// A contact that touches both the active projectile and the active
/// weapon classifies as a magic collision — the projectile wins — and as
/// exactly one event.
pub proof fn lemma_spell_beats_weapon(
    a: usize,
    b: usize,
    m: usize,
    w: usize,
    player: usize,
    player_children: Seq<usize>,
)
    requires
        a == m || b == m,
        a == w || b == w,
    ensures
        spec_classify(a, b, true, Some(m), Some(w), player, player_children) matches Some(
            SemanticCollision::Magic(_),
        ),
{
}

/// Whether an id is among the player's own collider children.
fn contains_id(v: &Vec<usize>, id: usize) -> (r: bool)
    ensures
        r == v@.contains(id),
{
    let mut i: usize = 0;
    while i < v.len()
        invariant
            i <= v@.len(),
            forall|j: int| 0 <= j < i ==> v@[j] != id,
        decreases v@.len() - i,
    {
        if v[i] == id {
            return true;
        }
        i = i + 1;
    }
    false
}

/// Classify one raw contact.
pub fn classify_contact(
    a: usize,
    b: usize,
    started: bool,
    active_magic: Option<usize>,
    active_weapon: Option<usize>,
    player: usize,
    player_children: &Vec<usize>,
) -> (r: Option<SemanticCollision>)
    ensures
        r == spec_classify(a, b, started, active_magic, active_weapon, player, player_children@),
{
    if !started {
        return None;
    }
    if let Some(m) = active_magic {
        if a == m || b == m {
            let other = if a == m {
                b
            } else {
                a
            };
            return Some(SemanticCollision::Magic(MagicCollision::new(m, other)));
        }
    }
    if let Some(w) = active_weapon {
        if a == w || b == w {
            let other = if a == w {
                b
            } else {
                a
            };
            return Some(SemanticCollision::Weapon(WeaponCollision::new(w, other)));
        }
    }
    let a_is_child = contains_id(player_children, a);
    let b_is_child = contains_id(player_children, b);
    if a_is_child || b_is_child {
        let other = if a_is_child {
            b
        } else {
            a
        };
        return Some(SemanticCollision::Player(PlayerCollision { player, other }));
    }
    None
}

/// Classification of a whole frame of contacts, in order, dropping the
/// unclassified ones.
pub open spec fn spec_classify_all(
    contacts: Seq<ContactEvent>,
    active_magic: Option<usize>,
    active_weapon: Option<usize>,
    player: usize,
    player_children: Seq<usize>,
) -> Seq<SemanticCollision>
    decreases contacts.len(),
{
    if contacts.len() == 0 {
        Seq::empty()
    } else {
        let rest = spec_classify_all(
            contacts.drop_last(),
            active_magic,
            active_weapon,
            player,
            player_children,
        );
        match spec_classify(
            contacts.last().a,
            contacts.last().b,
            contacts.last().started,
            active_magic,
            active_weapon,
            player,
            player_children,
        ) {
            Some(e) => rest.push(e),
            None => rest,
        }
    }
}

/// Classify every contact-begin notification of one frame.  Each raw
/// contact produces at most one semantic event; their order is kept.
pub fn handle_collisions(
    contacts: &Vec<ContactEvent>,
    active_magic: Option<usize>,
    active_weapon: Option<usize>,
    player: usize,
    player_children: &Vec<usize>,
) -> (r: Vec<SemanticCollision>)
    ensures
        r@ == spec_classify_all(
            contacts@,
            active_magic,
            active_weapon,
            player,
            player_children@,
        ),
        r@.len() <= contacts@.len(),
{
    let mut out: Vec<SemanticCollision> = Vec::new();
    let mut i: usize = 0;
    while i < contacts.len()
        invariant
            i <= contacts@.len(),
            out@ == spec_classify_all(
                contacts@.take(i as int),
                active_magic,
                active_weapon,
                player,
                player_children@,
            ),
            out@.len() <= i,
        decreases contacts@.len() - i,
    {
        let c = contacts[i];
        if let Some(e) = classify_contact(
            c.a,
            c.b,
            c.started,
            active_magic,
            active_weapon,
            player,
            player_children,
        ) {
            out.push(e);
        }
        proof {
            assert(contacts@.take(i + 1).drop_last() == contacts@.take(i as int));
            assert(contacts@.take(i + 1).last() == contacts@[i as int]);
        }
        i = i + 1;
    }
    proof {
        assert(contacts@.take(contacts@.len() as int) == contacts@);
    }
    out
}


/// What the damage resolver decided about a struck target.
#[derive(Clone, Copy, Debug, PartialEq, Eq, Structural)]
pub enum AttackOutcome {
    Kill(KillAttackable),
    Damage(DamageAttackable),
}

/// Saturating subtraction of damage from health.
pub open spec fn sat_sub_u32(h: u32, d: u32) -> u32 {
    if h > d {
        (h - d) as u32
    } else {
        0u32
    }
}

/// The damage-resolution rule: the struck collider resolves to its
/// logical owner; if that owner is a live attackable target, its health
/// drops by the damage (saturating at zero) and a kill intent is emitted
/// exactly when the health reaches zero, a damage intent otherwise; any
/// other target is skipped silently.
pub open spec fn spec_attack(ents: Seq<Entity>, damage: u32, attacked: int) -> (
    Seq<Entity>,
    Option<AttackOutcome>,
) {
    let owner = seq_owner_of(ents, attacked);
    let e = ents[owner];
    if e.alive && e.attackable is Some {
        let h2 = sat_sub_u32(e.attackable->0.health, damage);
        (
            ents.update(owner, Entity { attackable: Some(Attackable { health: h2 }), ..e }),
            if h2 == 0 {
                Some(AttackOutcome::Kill(KillAttackable(owner as usize)))
            } else {
                Some(AttackOutcome::Damage(DamageAttackable(owner as usize)))
            },
        )
    } else {
        (ents, None)
    }
}

/// Resolve one attack of `damage` points against the collider `attacked`.
///
/// Mutation of the target's health completes here, before the returned
/// kill or damage intent can reach the death or knockback handlers.
pub fn attack_attackable(world: &mut World, damage: u32, attacked: usize) -> (r: Option<AttackOutcome>)
    requires
        old(world).wf(),
        attacked < old(world).ents@.len(),
    ensures
        final(world).wf(),
        (final(world).ents@, r) == spec_attack(old(world).ents@, damage, attacked as int),
        final(world).ents@.len() == old(world).ents@.len(),
        r matches Some(o) ==> (outcome_id(o) as int) < old(world).ents@.len(),
{
    let owner = world.owner_of(attacked);
    let e = world.ents[owner];
    if !e.alive {
        return None;
    }
    match e.attackable {
        Some(att) => {
            let mut att = att;
            let h2 = att.update(damage);
            let mut updated = e;
            updated.attackable = Some(att);
            world.ents.set(owner, updated);
            proof {
                assert forall|i: int| 0 <= i < world.ents@.len() implies (
                #[trigger] world.ents@[i]).wf_at(i) by {
                    if i != owner {
                        assert(world.ents@[i] == old(world).ents@[i]);
                    }
                }
            }
            if h2 == 0 {
                Some(AttackOutcome::Kill(KillAttackable(owner)))
            } else {
                Some(AttackOutcome::Damage(DamageAttackable(owner)))
            }
        },
        None => None,
    }
}

/// Resolution of a whole frame of strikes, in order: each struck collider
/// id resolves independently against the state the previous one left.
pub open spec fn spec_resolve_attacks(ents: Seq<Entity>, damage: u32, others: Seq<usize>) -> (
    Seq<Entity>,
    Seq<AttackOutcome>,
)
    decreases others.len(),
{
    if others.len() == 0 {
        (ents, Seq::empty())
    } else {
        let prefix = spec_resolve_attacks(ents, damage, others.drop_last());
        let step = spec_attack(prefix.0, damage, others.last() as int);
        (
            step.0,
            match step.1 {
                Some(o) => prefix.1.push(o),
                None => prefix.1,
            },
        )
    }
}

/// Resolve every collision of the active spell projectile this frame:
/// the damage is the player's base damage plus the spell's strength,
/// additively.  Each event yields at most one kill or damage intent.
pub fn handle_magic_collisions(
    world: &mut World,
    player: &Player,
    magic: Magic,
    events: &Vec<MagicCollision>,
) -> (r: Vec<AttackOutcome>)
    requires
        old(world).wf(),
        player.wf(),
        forall|j: int| 0 <= j < events@.len() ==> (#[trigger] events@[j]).other < old(
            world,
        ).ents@.len(),
    ensures
        final(world).wf(),
        final(world).ents@.len() == old(world).ents@.len(),
        (final(world).ents@, r@) == spec_resolve_attacks(
            old(world).ents@,
            vstd::math::min(
                player.stats.spec_get(crate::player::PlayerStat::Damage).limit
                    + crate::magic::magic_strength_of(magic),
                u32::MAX as int,
            ) as u32,
            events@.map_values(|e: MagicCollision| e.other),
        ),
        r@.len() <= events@.len(),
        forall|j: int| 0 <= j < r@.len() ==> (outcome_id(#[trigger] r@[j]) as int) < old(
            world,
        ).ents@.len(),
{
    let total = player.damage().saturating_add(magic.strength());
    let ghost others = events@.map_values(|e: MagicCollision| e.other);
    let mut out: Vec<AttackOutcome> = Vec::new();
    let mut i: usize = 0;
    while i < events.len()
        invariant
            world.wf(),
            i <= events@.len(),
            world.ents@.len() == old(world).ents@.len(),
            others == events@.map_values(|e: MagicCollision| e.other),
            forall|j: int| 0 <= j < events@.len() ==> (#[trigger] events@[j]).other < old(
                world,
            ).ents@.len(),
            (world.ents@, out@) == spec_resolve_attacks(
                old(world).ents@,
                total,
                others.take(i as int),
            ),
            out@.len() <= i,
            forall|j: int| 0 <= j < out@.len() ==> (outcome_id(#[trigger] out@[j]) as int) < old(
                world,
            ).ents@.len(),
        decreases events@.len() - i,
    {
        let other = events[i].other;
        if let Some(o) = attack_attackable(world, total, other) {
            out.push(o);
        }
        proof {
            assert(others.take(i + 1).drop_last() == others.take(i as int));
            assert(others.take(i + 1).last() == others[i as int]);
        }
        i = i + 1;
    }
    proof {
        assert(others.take(others.len() as int) == others);
    }
    out
}

/// Resolve every collision of the active weapon swing this frame: the
/// damage is the player's base damage plus the weapon's damage,
/// additively.  Each event yields at most one kill or damage intent.
pub fn handle_weapon_collisions(
    world: &mut World,
    player: &Player,
    weapon: Weapon,
    events: &Vec<WeaponCollision>,
) -> (r: Vec<AttackOutcome>)
    requires
        old(world).wf(),
        player.wf(),
        forall|j: int| 0 <= j < events@.len() ==> (#[trigger] events@[j]).other < old(
            world,
        ).ents@.len(),
    ensures
        final(world).wf(),
        final(world).ents@.len() == old(world).ents@.len(),
        (final(world).ents@, r@) == spec_resolve_attacks(
            old(world).ents@,
            vstd::math::min(
                player.stats.spec_get(crate::player::PlayerStat::Damage).limit
                    + crate::weapon::weapon_damage_of(weapon),
                u32::MAX as int,
            ) as u32,
            events@.map_values(|e: WeaponCollision| e.other),
        ),
        r@.len() <= events@.len(),
        forall|j: int| 0 <= j < r@.len() ==> (outcome_id(#[trigger] r@[j]) as int) < old(
            world,
        ).ents@.len(),
{
    let total = player.damage().saturating_add(weapon.damage());
    let ghost others = events@.map_values(|e: WeaponCollision| e.other);
    let mut out: Vec<AttackOutcome> = Vec::new();
    let mut i: usize = 0;
    while i < events.len()
        invariant
            world.wf(),
            i <= events@.len(),
            world.ents@.len() == old(world).ents@.len(),
            others == events@.map_values(|e: WeaponCollision| e.other),
            forall|j: int| 0 <= j < events@.len() ==> (#[trigger] events@[j]).other < old(
                world,
            ).ents@.len(),
            (world.ents@, out@) == spec_resolve_attacks(
                old(world).ents@,
                total,
                others.take(i as int),
            ),
            out@.len() <= i,
            forall|j: int| 0 <= j < out@.len() ==> (outcome_id(#[trigger] out@[j]) as int) < old(
                world,
            ).ents@.len(),
        decreases events@.len() - i,
    {
        let other = events[i].other;
        if let Some(o) = attack_attackable(world, total, other) {
            out.push(o);
        }
        proof {
            assert(others.take(i + 1).drop_last() == others.take(i as int));
            assert(others.take(i + 1).last() == others[i as int]);
        }
        i = i + 1;
    }
    proof {
        assert(others.take(others.len() as int) == others);
    }
    out
}

/// What consuming one kill intent does: nothing if the target no longer
/// carries attackable health (it may already be mid-despawn — the guard
/// makes double processing a harmless no-op); otherwise an enemy's
/// experience goes to the player, the matching death effect is requested
/// at the target's position, and the target's subtree is despawned.
pub open spec fn spec_kill_one(ents: Seq<Entity>, player: Player, id: int) -> (
    Seq<Entity>,
    Player,
    Option<EmitParticleEffect>,
) {
    let e = ents[id];
    if e.alive && e.attackable is Some {
        let xp_gain: u32 = if e.enemy is Some {
            exp_of(e.enemy->0.ty)
        } else {
            0u32
        };
        let effect: ParticleEffect = if e.enemy is Some {
            ParticleEffect::EnemyDeath(e.enemy->0.ty)
        } else {
            ParticleEffect::Leaf
        };
        (
            despawn_seq(ents, id),
            Player { xp: vstd::math::min(player.xp + xp_gain, u32::MAX as int) as u32, ..player },
            Some(EmitParticleEffect { ty: effect, pos: e.pos, offset: Vec2i { x: 0i64, y: 0i64 } }),
        )
    } else {
        (ents, player, None)
    }
}

/// Consuming a frame of kill intents, in order.
pub open spec fn spec_kill_all(ents: Seq<Entity>, player: Player, ids: Seq<usize>) -> (
    Seq<Entity>,
    Player,
    Seq<EmitParticleEffect>,
)
    decreases ids.len(),
{
    if ids.len() == 0 {
        (ents, player, Seq::empty())
    } else {
        let prefix = spec_kill_all(ents, player, ids.drop_last());
        let step = spec_kill_one(prefix.0, prefix.1, ids.last() as int);
        (
            step.0,
            step.1,
            match step.2 {
                Some(e) => prefix.2.push(e),
                None => prefix.2,
            },
        )
    }
}

/// Consuming a kill intent is idempotent: after it has been consumed
/// once, consuming the same intent again changes nothing and yields no
/// effect — the target no longer carries attackable health, which is the
/// guard that makes double processing safe.
pub proof fn lemma_kill_idempotent(ents: Seq<Entity>, player: Player, id: int)
    requires
        0 <= id < ents.len(),
    ensures
        ({
            let once = spec_kill_one(ents, player, id);
            spec_kill_one(once.0, once.1, id) == (once.0, once.1, None::<EmitParticleEffect>)
        }),
{
    let e = ents[id];
    if e.alive && e.attackable is Some {
        let once = spec_kill_one(ents, player, id);
        assert(seq_in_subtree(ents, id, id));
        assert(once.0[id] == (Entity { alive: false, ..e }));
    }
}

/// Consume one kill intent; see `spec_kill_one`.
fn kill_one(world: &mut World, player: &mut Player, id: usize) -> (r: Option<EmitParticleEffect>)
    requires
        old(world).wf(),
        old(player).wf(),
        id < old(world).ents@.len(),
    ensures
        final(world).wf(),
        final(player).wf(),
        final(world).ents@.len() == old(world).ents@.len(),
        (final(world).ents@, *final(player), r) == spec_kill_one(
            old(world).ents@,
            *old(player),
            id as int,
        ),
{
    let e = world.ents[id];
    if !e.alive {
        return None;
    }
    if e.attackable.is_none() {
        return None;
    }
    let effect: ParticleEffect = match e.enemy {
        Some(en) => {
            player.add_xp(en.exp());
            ParticleEffect::EnemyDeath(en.ty)
        },
        None => ParticleEffect::Leaf,
    };
    world.despawn_subtree(id);
    Some(EmitParticleEffect::new(effect, e.pos))
}

/// Consume a frame of kill intents, in order.
///
/// Each intent for a target that still carries attackable health awards
/// experience (for an enemy), requests a death effect and despawns the
/// target's subtree; an intent for an entity already gone is a silent
/// no-op, so processing an intent twice cannot panic or double-award.
pub fn kill_attackable(world: &mut World, player: &mut Player, events: &Vec<KillAttackable>) -> (r: Vec<EmitParticleEffect>)
    requires
        old(world).wf(),
        old(player).wf(),
        forall|j: int| 0 <= j < events@.len() ==> (#[trigger] events@[j]).0 < old(
            world,
        ).ents@.len(),
    ensures
        final(world).wf(),
        final(player).wf(),
        final(world).ents@.len() == old(world).ents@.len(),
        (final(world).ents@, *final(player), r@) == spec_kill_all(
            old(world).ents@,
            *old(player),
            events@.map_values(|e: KillAttackable| e.0),
        ),
        r@.len() <= events@.len(),
{
    let ghost ids = events@.map_values(|e: KillAttackable| e.0);
    let mut out: Vec<EmitParticleEffect> = Vec::new();
    let mut i: usize = 0;
    while i < events.len()
        invariant
            world.wf(),
            player.wf(),
            i <= events@.len(),
            world.ents@.len() == old(world).ents@.len(),
            ids == events@.map_values(|e: KillAttackable| e.0),
            forall|j: int| 0 <= j < events@.len() ==> (#[trigger] events@[j]).0 < old(
                world,
            ).ents@.len(),
            (world.ents@, *player, out@) == spec_kill_all(
                old(world).ents@,
                *old(player),
                ids.take(i as int),
            ),
            out@.len() <= i,
        decreases events@.len() - i,
    {
        let id = events[i].0;
        if let Some(e) = kill_one(world, player, id) {
            out.push(e);
        }
        proof {
            assert(ids.take(i + 1).drop_last() == ids.take(i as int));
            assert(ids.take(i + 1).last() == ids[i as int]);
        }
        i = i + 1;
    }
    proof {
        assert(ids.take(ids.len() as int) == ids);
    }
    out
}

/// What consuming one damage intent does: a live enemy target is knocked
/// back along the line from the player through it — away from the
/// player, scaled by its resistance times the base speed constant, zero
/// on exact overlap — and put into hit-stun; anything else is skipped.
pub open spec fn spec_damage_one(ents: Seq<Entity>, player_pos: Vec2i, id: int) -> Seq<Entity> {
    let e = ents[id];
    if e.alive && e.attackable is Some && e.enemy is Some {
        let en = e.enemy->0;
        let dx = e.pos.x - player_pos.x;
        let dy = e.pos.y - player_pos.y;
        let k = resistance_of(en.ty) * (SPEED as int);
        let len = sqrt_floor(dx * dx + dy * dy);
        let v = if dx == 0 && dy == 0 {
            Vec2i { x: 0i64, y: 0i64 }
        } else {
            Vec2i {
                x: scaled_component(dx, k, len) as i64,
                y: scaled_component(dy, k, len) as i64,
            }
        };
        ents.update(
            id,
            Entity {
                vel: v,
                enemy: Some(
                    Enemy {
                        status: Status::HitStun,
                        can_move: false,
                        attack_timer: None::<Timer>,
                        hit_timer: Some(
                            Timer {
                                duration_ms: HIT_DURATION_MS,
                                elapsed_ms: 0u32,
                                mode: TimerMode::Once,
                            },
                        ),
                        ..en
                    },
                ),
                ..e
            },
        )
    } else {
        ents
    }
}

/// Consuming a frame of damage intents, in order.
pub open spec fn spec_damage_all(ents: Seq<Entity>, player_pos: Vec2i, ids: Seq<usize>) -> Seq<
    Entity,
>
    decreases ids.len(),
{
    if ids.len() == 0 {
        ents
    } else {
        spec_damage_one(spec_damage_all(ents, player_pos, ids.drop_last()), player_pos, ids.last() as int)
    }
}

/// Consume one damage intent; see `spec_damage_one`.
fn damage_one(world: &mut World, player_pos: Vec2i, id: usize)
    requires
        old(world).wf(),
        player_pos.in_box(COORD_LIMIT as int),
        id < old(world).ents@.len(),
    ensures
        final(world).wf(),
        final(world).ents@ == spec_damage_one(old(world).ents@, player_pos, id as int),
        final(world).ents@.len() == old(world).ents@.len(),
{
    let e = world.ents[id];
    if !e.alive {
        return ;
    }
    if e.attackable.is_none() {
        return ;
    }
    match e.enemy {
        Some(en) => {
            let diff = e.pos.sub(player_pos);
            let k: i64 = en.resistance() as i64 * SPEED;
            let vel = scaled_dir(diff, k);
            proof {
                assert(diff == (Vec2i {
                    x: (e.pos.x - player_pos.x) as i64,
                    y: (e.pos.y - player_pos.y) as i64,
                }));
                let dx = e.pos.x - player_pos.x;
                let dy = e.pos.y - player_pos.y;
                assert(norm_sq(diff) == dx * dx + dy * dy) by (nonlinear_arith)
                    requires
                        norm_sq(diff) == diff.x as int * diff.x as int + diff.y as int
                            * diff.y as int,
                        diff.x as int == dx,
                        diff.y as int == dy,
                ;
            }
            let mut enemy = en;
            proof {
                assert(old(world).ents@[id as int].wf_at(id as int));
            }
            enemy.hit();
            let mut updated = e;
            updated.vel = vel;
            updated.enemy = Some(enemy);
            world.ents.set(id, updated);
            proof {
                assert forall|i: int| 0 <= i < world.ents@.len() implies (
                #[trigger] world.ents@[i]).wf_at(i) by {
                    if i != id {
                        assert(world.ents@[i] == old(world).ents@[i]);
                    }
                }
            }
        },
        None => {},
    }
}

/// Consume a frame of damage intents, in order: each live enemy target is
/// knocked back away from the player and put into hit-stun.
pub fn damage_attackable(world: &mut World, player_pos: Vec2i, events: &Vec<DamageAttackable>)
    requires
        old(world).wf(),
        player_pos.in_box(COORD_LIMIT as int),
        forall|j: int| 0 <= j < events@.len() ==> (#[trigger] events@[j]).0 < old(
            world,
        ).ents@.len(),
    ensures
        final(world).wf(),
        final(world).ents@.len() == old(world).ents@.len(),
        final(world).ents@ == spec_damage_all(
            old(world).ents@,
            player_pos,
            events@.map_values(|e: DamageAttackable| e.0),
        ),
{
    let ghost ids = events@.map_values(|e: DamageAttackable| e.0);
    let mut i: usize = 0;
    while i < events.len()
        invariant
            world.wf(),
            i <= events@.len(),
            world.ents@.len() == old(world).ents@.len(),
            player_pos.in_box(COORD_LIMIT as int),
            ids == events@.map_values(|e: DamageAttackable| e.0),
            forall|j: int| 0 <= j < events@.len() ==> (#[trigger] events@[j]).0 < old(
                world,
            ).ents@.len(),
            world.ents@ == spec_damage_all(old(world).ents@, player_pos, ids.take(i as int)),
        decreases events@.len() - i,
    {
        let id = events[i].0;
        damage_one(world, player_pos, id);
        proof {
            assert(ids.take(i + 1).drop_last() == ids.take(i as int));
            assert(ids.take(i + 1).last() == ids[i as int]);
        }
        i = i + 1;
    }
    proof {
        assert(ids.take(ids.len() as int) == ids);
    }
}

/// What consuming one player-side collision does: if the other entity
/// resolves to a live enemy, its damage hits the player's health
/// (saturating) and the player enters hit-stun, and the enemy's attack
/// effect is requested at the player's position; anything else is
/// skipped silently.
pub open spec fn spec_player_hit_one(
    ents: Seq<Entity>,
    player: Player,
    player_pos: Vec2i,
    other: int,
) -> (Player, Option<EmitParticleEffect>) {
    let owner = seq_owner_of(ents, other);
    let e = ents[owner];
    if e.alive && e.enemy is Some {
        let en = e.enemy->0;
        (
            Player {
                status: Status::HitStun,
                attack_timer: None::<Timer>,
                cast_timer: None::<Timer>,
                hit_timer: Some(
                    Timer { duration_ms: HIT_DURATION_MS, elapsed_ms: 0u32, mode: TimerMode::Once },
                ),
                stats: player.stats.spec_with(
                    crate::player::PlayerStat::Health,
                    crate::stats::Stat {
                        value: sat_sub_u32(
                            player.stats.spec_get(crate::player::PlayerStat::Health).value,
                            damage_of(en.ty),
                        ),
                        ..player.stats.spec_get(crate::player::PlayerStat::Health)
                    },
                ),
                ..player
            },
            Some(
                EmitParticleEffect {
                    ty: ParticleEffect::EnemyAttack(en.ty),
                    pos: player_pos,
                    offset: Vec2i { x: 0i64, y: 0i64 },
                },
            ),
        )
    } else {
        (player, None)
    }
}

/// Consuming a frame of player-side collisions, in order.
pub open spec fn spec_player_hit_all(
    ents: Seq<Entity>,
    player: Player,
    player_pos: Vec2i,
    others: Seq<usize>,
) -> (Player, Seq<EmitParticleEffect>)
    decreases others.len(),
{
    if others.len() == 0 {
        (player, Seq::empty())
    } else {
        let prefix = spec_player_hit_all(ents, player, player_pos, others.drop_last());
        let step = spec_player_hit_one(ents, prefix.0, player_pos, others.last() as int);
        (
            step.0,
            match step.1 {
                Some(e) => prefix.1.push(e),
                None => prefix.1,
            },
        )
    }
}

/// Consume one player-side collision; see `spec_player_hit_one`.
fn player_hit_one(
    world: &World,
    player: &mut Player,
    player_pos: Vec2i,
    other: usize,
) -> (r: Option<EmitParticleEffect>)
    requires
        world.wf(),
        old(player).wf(),
        other < world.ents@.len(),
    ensures
        final(player).wf(),
        (*final(player), r) == spec_player_hit_one(
            world.ents@,
            *old(player),
            player_pos,
            other as int,
        ),
{
    let owner = world.owner_of(other);
    let e = world.ents[owner];
    if !e.alive {
        return None;
    }
    match e.enemy {
        Some(en) => {
            player.hit(en.damage());
            player.start_hit_stun();
            Some(EmitParticleEffect::new(ParticleEffect::EnemyAttack(en.ty), player_pos))
        },
        None => None,
    }
}

/// Consume a frame of player-side collisions, in order: every collision
/// with an enemy hits the player once.
pub fn handle_player_collisions(
    world: &World,
    player: &mut Player,
    player_pos: Vec2i,
    events: &Vec<PlayerCollision>,
) -> (r: Vec<EmitParticleEffect>)
    requires
        world.wf(),
        old(player).wf(),
        forall|j: int| 0 <= j < events@.len() ==> (#[trigger] events@[j]).other
            < world.ents@.len(),
    ensures
        final(player).wf(),
        (*final(player), r@) == spec_player_hit_all(
            world.ents@,
            *old(player),
            player_pos,
            events@.map_values(|e: PlayerCollision| e.other),
        ),
        r@.len() <= events@.len(),
{
    let ghost others = events@.map_values(|e: PlayerCollision| e.other);
    let mut out: Vec<EmitParticleEffect> = Vec::new();
    let mut i: usize = 0;
    while i < events.len()
        invariant
            player.wf(),
            i <= events@.len(),
            others == events@.map_values(|e: PlayerCollision| e.other),
            world.wf(),
            forall|j: int| 0 <= j < events@.len() ==> (#[trigger] events@[j]).other
                < world.ents@.len(),
            (*player, out@) == spec_player_hit_all(
                world.ents@,
                *old(player),
                player_pos,
                others.take(i as int),
            ),
            out@.len() <= i,
        decreases events@.len() - i,
    {
        let other = events[i].other;
        if let Some(e) = player_hit_one(world, player, player_pos, other) {
            out.push(e);
        }
        proof {
            assert(others.take(i + 1).drop_last() == others.take(i as int));
            assert(others.take(i + 1).last() == others[i as int]);
        }
        i = i + 1;
    }
    proof {
        assert(others.take(others.len() as int) == others);
    }
    out
}


/// The entity a resolver outcome points at.
pub open spec fn outcome_id(o: AttackOutcome) -> usize {
    match o {
        AttackOutcome::Kill(k) => k.0,
        AttackOutcome::Damage(d) => d.0,
    }
}

/// The magic collisions of a frame's semantic events, in order.
pub open spec fn magic_events_of(events: Seq<SemanticCollision>) -> Seq<MagicCollision>
    decreases events.len(),
{
    if events.len() == 0 {
        Seq::empty()
    } else {
        let rest = magic_events_of(events.drop_last());
        match events.last() {
            SemanticCollision::Magic(m) => rest.push(m),
            _ => rest,
        }
    }
}

/// The weapon collisions of a frame's semantic events, in order.
pub open spec fn weapon_events_of(events: Seq<SemanticCollision>) -> Seq<WeaponCollision>
    decreases events.len(),
{
    if events.len() == 0 {
        Seq::empty()
    } else {
        let rest = weapon_events_of(events.drop_last());
        match events.last() {
            SemanticCollision::Weapon(w) => rest.push(w),
            _ => rest,
        }
    }
}

/// The player collisions of a frame's semantic events, in order.
pub open spec fn player_events_of(events: Seq<SemanticCollision>) -> Seq<PlayerCollision>
    decreases events.len(),
{
    if events.len() == 0 {
        Seq::empty()
    } else {
        let rest = player_events_of(events.drop_last());
        match events.last() {
            SemanticCollision::Player(p) => rest.push(p),
            _ => rest,
        }
    }
}

/// The kill intents among a frame's resolver outcomes, in order.
pub open spec fn kills_of(outs: Seq<AttackOutcome>) -> Seq<KillAttackable>
    decreases outs.len(),
{
    if outs.len() == 0 {
        Seq::empty()
    } else {
        let rest = kills_of(outs.drop_last());
        match outs.last() {
            AttackOutcome::Kill(k) => rest.push(k),
            _ => rest,
        }
    }
}

/// The damage intents among a frame's resolver outcomes, in order.
pub open spec fn damages_of(outs: Seq<AttackOutcome>) -> Seq<DamageAttackable>
    decreases outs.len(),
{
    if outs.len() == 0 {
        Seq::empty()
    } else {
        let rest = damages_of(outs.drop_last());
        match outs.last() {
            AttackOutcome::Damage(d) => rest.push(d),
            _ => rest,
        }
    }
}

/// Whether a semantic event only names entities under `bound`.
pub open spec fn event_in_range(e: SemanticCollision, bound: int) -> bool {
    match e {
        SemanticCollision::Magic(m) => m.other < bound,
        SemanticCollision::Weapon(w) => w.other < bound,
        SemanticCollision::Player(p) => p.other < bound,
    }
}

/// Classification never invents entities: every id of every event of a
/// frame comes from the contact pairs.
pub proof fn lemma_classify_all_in_range(
    contacts: Seq<ContactEvent>,
    active_magic: Option<usize>,
    active_weapon: Option<usize>,
    player: usize,
    player_children: Seq<usize>,
    bound: int,
)
    requires
        forall|j: int|
            0 <= j < contacts.len() ==> (#[trigger] contacts[j]).a < bound && contacts[j].b
                < bound,
    ensures
        ({
            let events = spec_classify_all(
                contacts,
                active_magic,
                active_weapon,
                player,
                player_children,
            );
            forall|j: int| 0 <= j < events.len() ==> event_in_range(#[trigger] events[j], bound)
        }),
    decreases contacts.len(),
{
    if contacts.len() > 0 {
        let prefix = contacts.drop_last();
        assert forall|j: int| 0 <= j < prefix.len() implies (#[trigger] prefix[j]).a < bound
            && prefix[j].b < bound by {
            assert(prefix[j] == contacts[j]);
        }
        lemma_classify_all_in_range(
            prefix,
            active_magic,
            active_weapon,
            player,
            player_children,
            bound,
        );
        let c = contacts.last();
        assert(c == contacts[contacts.len() - 1]);
        let rest = spec_classify_all(prefix, active_magic, active_weapon, player, player_children);
        let events = spec_classify_all(
            contacts,
            active_magic,
            active_weapon,
            player,
            player_children,
        );
        match spec_classify(c.a, c.b, c.started, active_magic, active_weapon, player, player_children) {
            Some(e) => {
                assert(events == rest.push(e));
                assert(event_in_range(e, bound));
                assert forall|j: int| 0 <= j < events.len() implies event_in_range(
                    #[trigger] events[j],
                    bound,
                ) by {
                    if j < rest.len() {
                        assert(events[j] == rest[j]);
                    } else {
                        assert(events[j] == e);
                    }
                }
            },
            None => {
                assert(events == rest);
            },
        }
    }
}

/// The magic split keeps every id under the bound.
pub proof fn lemma_magic_split_in_range(events: Seq<SemanticCollision>, bound: int)
    requires
        forall|j: int| 0 <= j < events.len() ==> event_in_range(#[trigger] events[j], bound),
    ensures
        forall|j: int|
            0 <= j < magic_events_of(events).len() ==> (#[trigger] magic_events_of(events)[j]).other
                < bound,
    decreases events.len(),
{
    if events.len() > 0 {
        let prefix = events.drop_last();
        assert forall|j: int| 0 <= j < prefix.len() implies event_in_range(
            #[trigger] prefix[j],
            bound,
        ) by {
            assert(prefix[j] == events[j]);
        }
        lemma_magic_split_in_range(prefix, bound);
        assert(event_in_range(events[events.len() - 1], bound));
        assert(events.last() == events[events.len() - 1]);
        let rest = magic_events_of(prefix);
        match events.last() {
            SemanticCollision::Magic(m) => {
                assert(magic_events_of(events) == rest.push(m));
                assert forall|j: int| 0 <= j < rest.push(m).len() implies (#[trigger] rest.push(
                    m,
                )[j]).other < bound by {
                    if j < rest.len() {
                        assert(rest.push(m)[j] == rest[j]);
                    } else {
                        assert(rest.push(m)[j] == m);
                    }
                }
            },
            _ => {
                assert(magic_events_of(events) == rest);
            },
        }
    }
}

/// The weapon split keeps every id under the bound.
pub proof fn lemma_weapon_split_in_range(events: Seq<SemanticCollision>, bound: int)
    requires
        forall|j: int| 0 <= j < events.len() ==> event_in_range(#[trigger] events[j], bound),
    ensures
        forall|j: int|
            0 <= j < weapon_events_of(events).len() ==> (#[trigger] weapon_events_of(
                events,
            )[j]).other < bound,
    decreases events.len(),
{
    if events.len() > 0 {
        let prefix = events.drop_last();
        assert forall|j: int| 0 <= j < prefix.len() implies event_in_range(
            #[trigger] prefix[j],
            bound,
        ) by {
            assert(prefix[j] == events[j]);
        }
        lemma_weapon_split_in_range(prefix, bound);
        assert(event_in_range(events[events.len() - 1], bound));
        assert(events.last() == events[events.len() - 1]);
        let rest = weapon_events_of(prefix);
        match events.last() {
            SemanticCollision::Weapon(m) => {
                assert(weapon_events_of(events) == rest.push(m));
                assert forall|j: int| 0 <= j < rest.push(m).len() implies (#[trigger] rest.push(
                    m,
                )[j]).other < bound by {
                    if j < rest.len() {
                        assert(rest.push(m)[j] == rest[j]);
                    } else {
                        assert(rest.push(m)[j] == m);
                    }
                }
            },
            _ => {
                assert(weapon_events_of(events) == rest);
            },
        }
    }
}

/// The player split keeps every id under the bound.
pub proof fn lemma_player_split_in_range(events: Seq<SemanticCollision>, bound: int)
    requires
        forall|j: int| 0 <= j < events.len() ==> event_in_range(#[trigger] events[j], bound),
    ensures
        forall|j: int|
            0 <= j < player_events_of(events).len() ==> (#[trigger] player_events_of(
                events,
            )[j]).other < bound,
    decreases events.len(),
{
    if events.len() > 0 {
        let prefix = events.drop_last();
        assert forall|j: int| 0 <= j < prefix.len() implies event_in_range(
            #[trigger] prefix[j],
            bound,
        ) by {
            assert(prefix[j] == events[j]);
        }
        lemma_player_split_in_range(prefix, bound);
        assert(event_in_range(events[events.len() - 1], bound));
        assert(events.last() == events[events.len() - 1]);
        let rest = player_events_of(prefix);
        match events.last() {
            SemanticCollision::Player(m) => {
                assert(player_events_of(events) == rest.push(m));
                assert forall|j: int| 0 <= j < rest.push(m).len() implies (#[trigger] rest.push(
                    m,
                )[j]).other < bound by {
                    if j < rest.len() {
                        assert(rest.push(m)[j] == rest[j]);
                    } else {
                        assert(rest.push(m)[j] == m);
                    }
                }
            },
            _ => {
                assert(player_events_of(events) == rest);
            },
        }
    }
}

/// The kill split keeps every outcome id under the bound.
pub proof fn lemma_kills_in_range(outs: Seq<AttackOutcome>, bound: int)
    requires
        forall|j: int| 0 <= j < outs.len() ==> (outcome_id(#[trigger] outs[j]) as int) < bound,
    ensures
        forall|j: int| 0 <= j < kills_of(outs).len() ==> ((#[trigger] kills_of(outs)[j]).0 as int)
            < bound,
    decreases outs.len(),
{
    if outs.len() > 0 {
        let prefix = outs.drop_last();
        assert forall|j: int| 0 <= j < prefix.len() implies (outcome_id(#[trigger] prefix[j]) as int)
            < bound by {
            assert(prefix[j] == outs[j]);
        }
        lemma_kills_in_range(prefix, bound);
        assert((outcome_id(outs[outs.len() - 1]) as int) < bound);
        assert(outs.last() == outs[outs.len() - 1]);
        let rest = kills_of(prefix);
        match outs.last() {
            AttackOutcome::Kill(m) => {
                assert(kills_of(outs) == rest.push(m));
                assert forall|j: int| 0 <= j < rest.push(m).len() implies ((#[trigger] rest.push(
                    m,
                )[j]).0 as int) < bound by {
                    if j < rest.len() {
                        assert(rest.push(m)[j] == rest[j]);
                    } else {
                        assert(rest.push(m)[j] == m);
                    }
                }
            },
            _ => {
                assert(kills_of(outs) == rest);
            },
        }
    }
}

/// The damage split keeps every outcome id under the bound.
pub proof fn lemma_damages_in_range(outs: Seq<AttackOutcome>, bound: int)
    requires
        forall|j: int| 0 <= j < outs.len() ==> (outcome_id(#[trigger] outs[j]) as int) < bound,
    ensures
        forall|j: int|
            0 <= j < damages_of(outs).len() ==> ((#[trigger] damages_of(outs)[j]).0 as int)
                < bound,
    decreases outs.len(),
{
    if outs.len() > 0 {
        let prefix = outs.drop_last();
        assert forall|j: int| 0 <= j < prefix.len() implies (outcome_id(#[trigger] prefix[j]) as int)
            < bound by {
            assert(prefix[j] == outs[j]);
        }
        lemma_damages_in_range(prefix, bound);
        assert((outcome_id(outs[outs.len() - 1]) as int) < bound);
        assert(outs.last() == outs[outs.len() - 1]);
        let rest = damages_of(prefix);
        match outs.last() {
            AttackOutcome::Damage(m) => {
                assert(damages_of(outs) == rest.push(m));
                assert forall|j: int| 0 <= j < rest.push(m).len() implies ((#[trigger] rest.push(
                    m,
                )[j]).0 as int) < bound by {
                    if j < rest.len() {
                        assert(rest.push(m)[j] == rest[j]);
                    } else {
                        assert(rest.push(m)[j] == m);
                    }
                }
            },
            _ => {
                assert(damages_of(outs) == rest);
            },
        }
    }
}

/// One whole tick of the combat pipeline over one frame's contacts, at
/// the level of the model: classify; resolve spell-projectile strikes,
/// then weapon strikes; apply knockback and hit-stun for the damage
/// intents; consume the kill intents; and finally resolve the enemy
/// contacts against the player.  Death-effect requests come before the
/// enemy-attack effects.
pub open spec fn spec_frame(
    ents: Seq<Entity>,
    player: Player,
    player_pos: Vec2i,
    contacts: Seq<ContactEvent>,
    active_magic: Option<usize>,
    active_weapon: Option<usize>,
    player_id: usize,
    player_children: Seq<usize>,
    current_weapon: Weapon,
    current_magic: Magic,
) -> (Seq<Entity>, Player, Seq<EmitParticleEffect>) {
    let events = spec_classify_all(contacts, active_magic, active_weapon, player_id, player_children);
    let magic_damage = vstd::math::min(
        player.stats.spec_get(crate::player::PlayerStat::Damage).limit
            + crate::magic::magic_strength_of(current_magic),
        u32::MAX as int,
    ) as u32;
    let weapon_damage = vstd::math::min(
        player.stats.spec_get(crate::player::PlayerStat::Damage).limit
            + crate::weapon::weapon_damage_of(current_weapon),
        u32::MAX as int,
    ) as u32;
    let m = spec_resolve_attacks(
        ents,
        magic_damage,
        magic_events_of(events).map_values(|e: MagicCollision| e.other),
    );
    let w = spec_resolve_attacks(
        m.0,
        weapon_damage,
        weapon_events_of(events).map_values(|e: WeaponCollision| e.other),
    );
    let outcomes = m.1 + w.1;
    let after_damage = spec_damage_all(
        w.0,
        player_pos,
        damages_of(outcomes).map_values(|e: DamageAttackable| e.0),
    );
    let k = spec_kill_all(
        after_damage,
        player,
        kills_of(outcomes).map_values(|e: KillAttackable| e.0),
    );
    let p = spec_player_hit_all(
        k.0,
        k.1,
        player_pos,
        player_events_of(events).map_values(|e: PlayerCollision| e.other),
    );
    (k.0, p.0, k.2 + p.1)
}

/// One whole tick of the combat pipeline, in the order the stages must
/// run: classification, damage resolution (spell before weapon), then
/// knockback and death handling, then the player-side contacts.
pub fn resolve_frame(
    world: &mut World,
    player: &mut Player,
    session: &GameSession,
    player_id: usize,
    player_children: &Vec<usize>,
    player_pos: Vec2i,
    contacts: &Vec<ContactEvent>,
) -> (effects: Vec<EmitParticleEffect>)
    requires
        old(world).wf(),
        old(player).wf(),
        player_pos.in_box(COORD_LIMIT as int),
        forall|j: int|
            0 <= j < contacts@.len() ==> (#[trigger] contacts@[j]).a < old(world).ents@.len()
                && contacts@[j].b < old(world).ents@.len(),
    ensures
        final(world).wf(),
        final(player).wf(),
        final(world).ents@.len() == old(world).ents@.len(),
        (final(world).ents@, *final(player), effects@) == spec_frame(
            old(world).ents@,
            *old(player),
            player_pos,
            contacts@,
            session.active_magic,
            session.active_weapon,
            player_id,
            player_children@,
            session.current_weapon,
            session.current_magic,
        ),
{
    let ghost n = old(world).ents@.len() as int;
    let events = handle_collisions(
        contacts,
        session.active_magic,
        session.active_weapon,
        player_id,
        player_children,
    );
    proof {
        lemma_classify_all_in_range(
            contacts@,
            session.active_magic,
            session.active_weapon,
            player_id,
            player_children@,
            n,
        );
    }

    let mut magic_evs: Vec<MagicCollision> = Vec::new();
    let mut weapon_evs: Vec<WeaponCollision> = Vec::new();
    let mut player_evs: Vec<PlayerCollision> = Vec::new();
    let mut i: usize = 0;
    while i < events.len()
        invariant
            i <= events@.len(),
            magic_evs@ == magic_events_of(events@.take(i as int)),
            weapon_evs@ == weapon_events_of(events@.take(i as int)),
            player_evs@ == player_events_of(events@.take(i as int)),
        decreases events@.len() - i,
    {
        match events[i] {
            SemanticCollision::Magic(m) => magic_evs.push(m),
            SemanticCollision::Weapon(w) => weapon_evs.push(w),
            SemanticCollision::Player(p) => player_evs.push(p),
        }
        proof {
            assert(events@.take(i + 1).drop_last() == events@.take(i as int));
            assert(events@.take(i + 1).last() == events@[i as int]);
        }
        i = i + 1;
    }
    proof {
        assert(events@.take(events@.len() as int) == events@);
        lemma_magic_split_in_range(events@, n);
        lemma_weapon_split_in_range(events@, n);
        lemma_player_split_in_range(events@, n);
    }

    let magic_outcomes = handle_magic_collisions(world, player, session.current_magic, &magic_evs);
    let weapon_outcomes = handle_weapon_collisions(
        world,
        player,
        session.current_weapon,
        &weapon_evs,
    );

    let ghost mo = magic_outcomes@;
    let ghost wo = weapon_outcomes@;
    let mut outcomes = magic_outcomes;
    let mut weapon_outcomes = weapon_outcomes;
    outcomes.append(&mut weapon_outcomes);
    proof {
        assert forall|j: int| 0 <= j < outcomes@.len() implies (outcome_id(
            #[trigger] outcomes@[j],
        ) as int) < n by {
            if j < mo.len() {
                assert(outcomes@[j] == mo[j]);
            } else {
                assert(outcomes@[j] == wo[j - mo.len()]);
            }
        }
    }

    let mut kill_evs: Vec<KillAttackable> = Vec::new();
    let mut damage_evs: Vec<DamageAttackable> = Vec::new();
    let mut i: usize = 0;
    while i < outcomes.len()
        invariant
            i <= outcomes@.len(),
            kill_evs@ == kills_of(outcomes@.take(i as int)),
            damage_evs@ == damages_of(outcomes@.take(i as int)),
        decreases outcomes@.len() - i,
    {
        match outcomes[i] {
            AttackOutcome::Kill(k) => kill_evs.push(k),
            AttackOutcome::Damage(d) => damage_evs.push(d),
        }
        proof {
            assert(outcomes@.take(i + 1).drop_last() == outcomes@.take(i as int));
            assert(outcomes@.take(i + 1).last() == outcomes@[i as int]);
        }
        i = i + 1;
    }
    proof {
        assert(outcomes@.take(outcomes@.len() as int) == outcomes@);
        lemma_kills_in_range(outcomes@, n);
        lemma_damages_in_range(outcomes@, n);
    }

    damage_attackable(world, player_pos, &damage_evs);
    let effects_kill = kill_attackable(world, player, &kill_evs);
    let mut effects = effects_kill;
    let mut effects_player = handle_player_collisions(world, player, player_pos, &player_evs);
    effects.append(&mut effects_player);
    effects
}

} // verus!
