//! The entity arena: combat entities with explicit parent indices.
//!
//! An entity's colliders are children of the entity that owns them; damage
//! resolution walks the parent chain up to that logical owner.  Entities
//! are never removed from the arena; despawning clears the `alive` flag of
//! an entity and of everything below it, so indices stay stable.

use vstd::prelude::*;

use crate::constants::COORD_LIMIT;
use crate::enemy::{health_of, Enemy, EnemyType};
use crate::geom::Vec2i;
use crate::magic::Magic;
use crate::timer::Timer;
use crate::actor::Status;
use crate::weapon::Weapon;

verus! {

/// The component of any destructible target: its remaining health.
///
/// Health only ever goes down, by damage resolution; when it reaches zero
/// the owning entity is removed by the death handler.
#[derive(Clone, Copy, Debug, PartialEq, Eq, Structural)]
pub struct Attackable {
    pub health: u32,
}

impl Attackable {
    pub fn new(health: u32) -> (r: Self)
        ensures
            r == (Attackable { health }),
    {
        Self { health }
    }

    /// Apply damage and report the remaining health: the health drops by
    /// exactly the damage while it covers it, and to zero otherwise —
    /// saturating, never negative, never wrapping.
    pub fn update(&mut self, damage: u32) -> (remaining: u32)
        ensures
            final(self).health == if old(self).health > damage {
                old(self).health - damage
            } else {
                0int
            },
            remaining == final(self).health,
    {
        if self.health > damage {
            self.health = self.health - damage;
        } else {
            self.health = 0;
        }
        self.health
    }
}

/// One arena slot.  Components an entity does not have are `None`.
#[derive(Clone, Copy, Debug)]
pub struct Entity {
    pub alive: bool,
    pub parent: Option<usize>,
    pub pos: Vec2i,
    pub vel: Vec2i,
    /// Present on any destructible target.
    pub attackable: Option<Attackable>,
    pub enemy: Option<Enemy>,
    /// Set on an active weapon-swing entity.
    pub weapon: Option<Weapon>,
    /// Set on an active spell-projectile entity.
    pub magic: Option<Magic>,
}

impl Entity {
    /// A parent always sits at a lower index than its child, positions
    /// stay inside the world's box, and enemy state is well formed.
    pub open spec fn wf_at(self, i: int) -> bool {
        &&& (self.parent matches Some(p) ==> p < i)
        &&& self.pos.in_box(COORD_LIMIT as int)
        &&& (self.enemy matches Some(e) ==> e.wf())
    }

    /// A bare entity at a position: alive, no parent, no components.
    pub fn plain(pos: Vec2i) -> (r: Self)
        ensures
            r == (Entity {
                alive: true,
                parent: None::<usize>,
                pos,
                vel: Vec2i { x: 0i64, y: 0i64 },
                attackable: None::<Attackable>,
                enemy: None::<Enemy>,
                weapon: None::<Weapon>,
                magic: None::<Magic>,
            }),
    {
        Entity {
            alive: true,
            parent: None,
            pos,
            vel: Vec2i { x: 0, y: 0 },
            attackable: None,
            enemy: None,
            weapon: None,
            magic: None,
        }
    }
}

pub struct World {
    pub ents: Vec<Entity>,
}

/// Well-formedness of an arena snapshot: every slot is well formed at
/// its index.
pub open spec fn seq_wf(ents: Seq<Entity>) -> bool {
    forall|i: int| 0 <= i < ents.len() ==> (#[trigger] ents[i]).wf_at(i)
}

/// The logical owner of a collider in an arena snapshot: the top of its
/// parent chain.
pub open spec fn seq_owner_of(ents: Seq<Entity>, i: int) -> int
    decreases i,
{
    if 0 <= i < ents.len() {
        match ents[i].parent {
            Some(p) => if 0 <= p < i {
                seq_owner_of(ents, p as int)
            } else {
                i
            },
            None => i,
        }
    } else {
        i
    }
}

/// The owner of anything in a well-formed snapshot is itself in range.
pub proof fn lemma_owner_in_range(ents: Seq<Entity>, i: int)
    requires
        seq_wf(ents),
        0 <= i < ents.len(),
    ensures
        0 <= seq_owner_of(ents, i) < ents.len(),
    decreases i,
{
    match ents[i].parent {
        Some(p) => {
            assert(ents[i].wf_at(i));
            if 0 <= p < i {
                lemma_owner_in_range(ents, p as int);
            }
        },
        None => {},
    }
}

/// An arena snapshot after despawning `root` and everything below it:
/// only `alive` flags change.
pub open spec fn despawn_seq(ents: Seq<Entity>, root: int) -> Seq<Entity> {
    Seq::new(
        ents.len(),
        |j: int|
            Entity {
                alive: ents[j].alive && !seq_in_subtree(ents, root, j),
                ..ents[j]
            },
    )
}

/// Whether `i` is `root` itself or sits below it in the parent forest of
/// an arena snapshot.
pub open spec fn seq_in_subtree(ents: Seq<Entity>, root: int, i: int) -> bool
    decreases i,
{
    if i == root {
        true
    } else if 0 <= i < ents.len() {
        match ents[i].parent {
            Some(p) => if 0 <= p < i {
                seq_in_subtree(ents, root, p as int)
            } else {
                false
            },
            None => false,
        }
    } else {
        false
    }
}

impl World {
    pub open spec fn wf(self) -> bool {
        seq_wf(self.ents@)
    }

    pub fn new() -> (r: Self)
        ensures
            r.ents@.len() == 0,
            r.wf(),
    {
        World { ents: Vec::new() }
    }

    pub fn len(&self) -> (r: usize)
        ensures
            r == self.ents@.len(),
    {
        self.ents.len()
    }

    /// Append one entity to the arena; its index never changes again.
    pub fn spawn(&mut self, e: Entity) -> (id: usize)
        requires
            old(self).wf(),
            e.wf_at(old(self).ents@.len() as int),
        ensures
            id == old(self).ents@.len(),
            final(self).ents@ == old(self).ents@.push(e),
            final(self).wf(),
    {
        let id = self.ents.len();
        self.ents.push(e);
        proof {
            assert forall|i: int| 0 <= i < self.ents@.len() implies (
            #[trigger] self.ents@[i]).wf_at(i) by {
                if i < id {
                    assert(self.ents@[i] == old(self).ents@[i]);
                }
            }
        }
        id
    }

    /// Spawn an enemy: the logical owner (carrying the enemy state and its
    /// attackable health) and its hurtbox collider as a child.
    pub fn spawn_enemy(&mut self, ty: EnemyType, pos: Vec2i) -> (r: (usize, usize))
        requires
            old(self).wf(),
            pos.in_box(COORD_LIMIT as int),
        ensures
            r.0 == old(self).ents@.len(),
            r.1 == old(self).ents@.len() + 1,
            final(self).ents@ == old(self).ents@.push(
                Entity {
                    alive: true,
                    parent: None::<usize>,
                    pos,
                    vel: Vec2i { x: 0i64, y: 0i64 },
                    attackable: Some(Attackable { health: health_of(ty) }),
                    enemy: Some(
                        Enemy {
                            ty,
                            status: Status::Idle,
                            can_attack: true,
                            can_move: true,
                            attack_timer: None::<Timer>,
                            hit_timer: None::<Timer>,
                        },
                    ),
                    weapon: None::<Weapon>,
                    magic: None::<Magic>,
                },
            ).push(
                Entity {
                    alive: true,
                    parent: Some(old(self).ents@.len() as usize),
                    pos,
                    vel: Vec2i { x: 0i64, y: 0i64 },
                    attackable: None::<Attackable>,
                    enemy: None::<Enemy>,
                    weapon: None::<Weapon>,
                    magic: None::<Magic>,
                },
            ),
            final(self).wf(),
    {
        let enemy = Enemy::new(ty);
        let health = enemy.health();
        let mut owner = Entity::plain(pos);
        owner.attackable = Some(Attackable::new(health));
        owner.enemy = Some(enemy);
        let owner_id = self.spawn(owner);
        let mut hurtbox = Entity::plain(pos);
        hurtbox.parent = Some(owner_id);
        let hurtbox_id = self.spawn(hurtbox);
        (owner_id, hurtbox_id)
    }

    /// Spawn a destructible object (cut grass and the like): the owner
    /// carrying the health, and its hurtbox as a child.
    pub fn spawn_destructible(&mut self, pos: Vec2i, health: u32) -> (r: (usize, usize))
        requires
            old(self).wf(),
            pos.in_box(COORD_LIMIT as int),
        ensures
            r.0 == old(self).ents@.len(),
            r.1 == old(self).ents@.len() + 1,
            final(self).ents@ == old(self).ents@.push(
                Entity {
                    alive: true,
                    parent: None::<usize>,
                    pos,
                    vel: Vec2i { x: 0i64, y: 0i64 },
                    attackable: Some(Attackable { health }),
                    enemy: None::<Enemy>,
                    weapon: None::<Weapon>,
                    magic: None::<Magic>,
                },
            ).push(
                Entity {
                    alive: true,
                    parent: Some(old(self).ents@.len() as usize),
                    pos,
                    vel: Vec2i { x: 0i64, y: 0i64 },
                    attackable: None::<Attackable>,
                    enemy: None::<Enemy>,
                    weapon: None::<Weapon>,
                    magic: None::<Magic>,
                },
            ),
            final(self).wf(),
    {
        let mut owner = Entity::plain(pos);
        owner.attackable = Some(Attackable::new(health));
        let owner_id = self.spawn(owner);
        let mut hurtbox = Entity::plain(pos);
        hurtbox.parent = Some(owner_id);
        let hurtbox_id = self.spawn(hurtbox);
        (owner_id, hurtbox_id)
    }

    /// The logical owner of a collider: the top of its parent chain.
    pub open spec fn spec_owner_of(self, i: int) -> int {
        seq_owner_of(self.ents@, i)
    }

    /// Walk the parent chain up to the logical owner.
    pub fn owner_of(&self, id: usize) -> (r: usize)
        requires
            self.wf(),
            id < self.ents@.len(),
        ensures
            r == self.spec_owner_of(id as int),
            r <= id,
    {
        let mut cur = id;
        loop
            invariant
                self.wf(),
                cur <= id,
                cur < self.ents@.len(),
                self.spec_owner_of(cur as int) == self.spec_owner_of(id as int),
            decreases cur,
        {
            match self.ents[cur].parent {
                Some(p) => {
                    proof {
                        assert(self.ents@[cur as int].wf_at(cur as int));
                    }
                    cur = p;
                },
                None => {
                    return cur;
                },
            }
        }
    }

    /// Whether `i` is `root` itself or sits below it in the parent forest.
    pub open spec fn in_subtree(self, root: int, i: int) -> bool {
        seq_in_subtree(self.ents@, root, i)
    }

    /// Despawn an entity and everything below it: their `alive` flags are
    /// cleared in one pass; every other field of every entity stays.
    pub fn despawn_subtree(&mut self, root: usize)
        requires
            old(self).wf(),
            root < old(self).ents@.len(),
        ensures
            final(self).ents@.len() == old(self).ents@.len(),
            final(self).ents@ == despawn_seq(old(self).ents@, root as int),
            forall|j: int| 0 <= j < old(self).ents@.len() ==> final(self).ents@[j] == (Entity {
                alive: old(self).ents@[j].alive && !old(self).in_subtree(root as int, j),
                ..old(self).ents@[j]
            }),
            final(self).wf(),
    {
        let ghost w0 = *self;
        let n = self.ents.len();
        let mut marks: Vec<bool> = Vec::new();
        let mut i: usize = 0;
        while i < n
            invariant
                *self == w0,
                w0.wf(),
                n == w0.ents@.len(),
                root < n,
                i <= n,
                marks@.len() == i,
                forall|j: int| 0 <= j < i ==> marks@[j] == w0.in_subtree(root as int, j),
            decreases n - i,
        {
            let mark: bool = if i == root {
                true
            } else {
                match self.ents[i].parent {
                    Some(p) => {
                        proof {
                            assert(w0.ents@[i as int].wf_at(i as int));
                        }
                        marks[p]
                    },
                    None => false,
                }
            };
            marks.push(mark);
            i = i + 1;
        }
        let mut i: usize = 0;
        while i < n
            invariant
                w0.wf(),
                n == w0.ents@.len(),
                self.ents@.len() == n,
                i <= n,
                marks@.len() == n,
                forall|j: int| 0 <= j < n ==> marks@[j] == w0.in_subtree(root as int, j),
                forall|j: int| 0 <= j < i ==> self.ents@[j] == (Entity {
                    alive: w0.ents@[j].alive && !w0.in_subtree(root as int, j),
                    ..w0.ents@[j]
                }),
                forall|j: int| i <= j < n ==> self.ents@[j] == w0.ents@[j],
            decreases n - i,
        {
            if marks[i] {
                let mut e = self.ents[i];
                e.alive = false;
                self.ents.set(i, e);
            }
            i = i + 1;
        }
        proof {
            assert forall|j: int| 0 <= j < self.ents@.len() implies (
            #[trigger] self.ents@[j]).wf_at(j) by {
                assert(w0.ents@[j].wf_at(j));
            }
            assert(self.ents@ =~= despawn_seq(w0.ents@, root as int));
        }
    }
}

} // verus!
