//! The player actor: upgradeable stats, the input-driven state machine,
//! attack and spell-cast gating, hit-stun and passive energy recovery.

use vstd::prelude::*;

use crate::actor::{Direction, Status};
use crate::constants::{
    ATTACK_DURATION_MS, ENERGY_RECOVERY_DURATION_MS, FLASH_HALF_PERIOD_MS, HIT_DURATION_MS, SPEED,
    STARTING_XP,
};
use crate::geom::Vec2i;
use crate::stats::Stat;
use crate::timer::{flash_alpha, Timer, TimerMode};
use crate::weapon::{weapon_cooldown_of, Weapon};

verus! {

#[derive(Clone, Copy, Debug, PartialEq, Eq, Structural, Hash)]
pub enum PlayerStat {
    Damage,
    Energy,
    Health,
    Magic,
    Speed,
}

impl PlayerStat {
    /// Starting value of the stat.
    pub fn start(&self) -> (r: u32)
        ensures
            r == start_of(*self),
    {
        match self {
            Self::Damage => 10,
            Self::Energy => 48,
            Self::Health => 50,
            Self::Magic => 4,
            Self::Speed => 5,
        }
    }

    /// Starting upgradeable cap of the stat.
    pub fn limit(&self) -> (r: u32)
        ensures
            r == limit_of(*self),
    {
        match self {
            Self::Damage => 10,
            Self::Energy => 60,
            Self::Health => 100,
            Self::Magic => 4,
            Self::Speed => 5,
        }
    }

    /// Absolute upgrade ceiling of the stat.
    pub fn max(&self) -> (r: u32)
        ensures
            r == max_of(*self),
    {
        match self {
            Self::Damage => 20,
            Self::Energy => 140,
            Self::Health => 300,
            Self::Magic => 10,
            Self::Speed => 10,
        }
    }

    /// Experience cost of the first upgrade.
    pub fn cost(&self) -> (r: u32)
        ensures
            r == cost_of(*self),
    {
        match self {
            Self::Damage => 100,
            Self::Energy => 100,
            Self::Health => 100,
            Self::Magic => 100,
            Self::Speed => 100,
        }
    }

    /// The stat an upgrade-screen slot index selects; indices past the last
    /// slot select speed.
    pub fn from_index(value: u32) -> (r: Self)
        ensures
            value == 0 ==> r == PlayerStat::Damage,
            value == 1 ==> r == PlayerStat::Energy,
            value == 2 ==> r == PlayerStat::Health,
            value == 3 ==> r == PlayerStat::Magic,
            value >= 4 ==> r == PlayerStat::Speed,
    {
        match value {
            0 => PlayerStat::Damage,
            1 => PlayerStat::Energy,
            2 => PlayerStat::Health,
            3 => PlayerStat::Magic,
            _ => PlayerStat::Speed,
        }
    }
}

pub open spec fn start_of(ty: PlayerStat) -> u32 {
    match ty {
        PlayerStat::Damage => 10,
        PlayerStat::Energy => 48,
        PlayerStat::Health => 50,
        PlayerStat::Magic => 4,
        PlayerStat::Speed => 5,
    }
}

pub open spec fn limit_of(ty: PlayerStat) -> u32 {
    match ty {
        PlayerStat::Damage => 10,
        PlayerStat::Energy => 60,
        PlayerStat::Health => 100,
        PlayerStat::Magic => 4,
        PlayerStat::Speed => 5,
    }
}

pub open spec fn max_of(ty: PlayerStat) -> u32 {
    match ty {
        PlayerStat::Damage => 20,
        PlayerStat::Energy => 140,
        PlayerStat::Health => 300,
        PlayerStat::Magic => 10,
        PlayerStat::Speed => 10,
    }
}

pub open spec fn cost_of(ty: PlayerStat) -> u32 {
    match ty {
        PlayerStat::Damage => 100,
        PlayerStat::Energy => 100,
        PlayerStat::Health => 100,
        PlayerStat::Magic => 100,
        PlayerStat::Speed => 100,
    }
}

/// The player's five resources, one `Stat` each.
#[derive(Clone, Copy, Debug)]
pub struct PlayerStats {
    pub damage: Stat,
    pub energy: Stat,
    pub health: Stat,
    pub magic: Stat,
    pub speed: Stat,
}

impl PlayerStats {
    pub open spec fn wf(self) -> bool {
        &&& self.damage.wf()
        &&& self.energy.wf()
        &&& self.health.wf()
        &&& self.magic.wf()
        &&& self.speed.wf()
    }

    pub open spec fn spec_get(self, ty: PlayerStat) -> Stat {
        match ty {
            PlayerStat::Damage => self.damage,
            PlayerStat::Energy => self.energy,
            PlayerStat::Health => self.health,
            PlayerStat::Magic => self.magic,
            PlayerStat::Speed => self.speed,
        }
    }

    /// All five stats at their starting table entries.
    pub fn new() -> (r: Self)
        ensures
            forall|ty: PlayerStat| #[trigger] r.spec_get(ty) == (Stat {
                value: start_of(ty),
                limit: limit_of(ty),
                max: max_of(ty),
                cost: cost_of(ty),
            }),
            r.wf(),
    {
        let r = Self {
            damage: Stat::new(10, 10, 20, 100),
            energy: Stat::new(48, 60, 140, 100),
            health: Stat::new(50, 100, 300, 100),
            magic: Stat::new(4, 4, 10, 100),
            speed: Stat::new(5, 5, 10, 100),
        };
        r
    }

    pub fn get(&self, ty: PlayerStat) -> (r: &Stat)
        ensures
            *r == self.spec_get(ty),
    {
        match ty {
            PlayerStat::Damage => &self.damage,
            PlayerStat::Energy => &self.energy,
            PlayerStat::Health => &self.health,
            PlayerStat::Magic => &self.magic,
            PlayerStat::Speed => &self.speed,
        }
    }

    /// Borrow one stat mutably; whatever the caller makes of it becomes
    /// that stat's entry.
    pub fn get_mut(&mut self, ty: PlayerStat) -> (r: &mut Stat)
        ensures
            *r == old(self).spec_get(ty),
            *final(self) == old(self).spec_with(ty, *final(r)),
    {
        match ty {
            PlayerStat::Damage => &mut self.damage,
            PlayerStat::Energy => &mut self.energy,
            PlayerStat::Health => &mut self.health,
            PlayerStat::Magic => &mut self.magic,
            PlayerStat::Speed => &mut self.speed,
        }
    }

    pub fn limit(&self, ty: PlayerStat) -> (r: u32)
        ensures
            r == self.spec_get(ty).limit,
    {
        self.get(ty).limit()
    }

    pub fn max(&self, ty: PlayerStat) -> (r: u32)
        ensures
            r == self.spec_get(ty).max,
    {
        self.get(ty).max()
    }

    pub fn value(&self, ty: PlayerStat) -> (r: u32)
        ensures
            r == self.spec_get(ty).value,
    {
        self.get(ty).value()
    }

    pub fn cost(&self, ty: PlayerStat) -> (r: u32)
        ensures
            r == self.spec_get(ty).cost,
    {
        self.get(ty).cost()
    }

    /// The stats after replacing the entry of `ty` with `s`.
    pub open spec fn spec_with(self, ty: PlayerStat, s: Stat) -> PlayerStats {
        match ty {
            PlayerStat::Damage => PlayerStats { damage: s, ..self },
            PlayerStat::Energy => PlayerStats { energy: s, ..self },
            PlayerStat::Health => PlayerStats { health: s, ..self },
            PlayerStat::Magic => PlayerStats { magic: s, ..self },
            PlayerStat::Speed => PlayerStats { speed: s, ..self },
        }
    }

    /// Set the current value of one stat, clamped at its limit.
    pub fn set(&mut self, ty: PlayerStat, val: u32)
        requires
            old(self).wf(),
        ensures
            *final(self) == old(self).spec_with(
                ty,
                Stat {
                    value: vstd::math::min(val as int, old(self).spec_get(ty).limit as int) as u32,
                    ..old(self).spec_get(ty)
                },
            ),
            final(self).wf(),
    {
        match ty {
            PlayerStat::Damage => self.damage.set(val),
            PlayerStat::Energy => self.energy.set(val),
            PlayerStat::Health => self.health.set(val),
            PlayerStat::Magic => self.magic.set(val),
            PlayerStat::Speed => self.speed.set(val),
        }
    }

    /// One upgrade step of one stat.
    pub fn upgrade(&mut self, ty: PlayerStat)
        requires
            old(self).wf(),
        ensures
            *final(self) == old(self).spec_with(
                ty,
                Stat {
                    limit: crate::stats::upgraded_limit(
                        old(self).spec_get(ty).limit as int,
                        old(self).spec_get(ty).max as int,
                    ) as u32,
                    cost: crate::stats::upgraded_cost(
                        old(self).spec_get(ty).limit as int,
                        old(self).spec_get(ty).max as int,
                        old(self).spec_get(ty).cost as int,
                    ) as u32,
                    ..old(self).spec_get(ty)
                },
            ),
            final(self).wf(),
    {
        match ty {
            PlayerStat::Damage => self.damage.upgrade(),
            PlayerStat::Energy => self.energy.upgrade(),
            PlayerStat::Health => self.health.upgrade(),
            PlayerStat::Magic => self.magic.upgrade(),
            PlayerStat::Speed => self.speed.upgrade(),
        }
    }
}

/// The player: experience, state-machine status, facing, stats, and the
/// gating timers of the state machine.
#[derive(Clone, Copy, Debug)]
pub struct Player {
    pub xp: u32,
    pub status: Status,
    pub direction: Direction,
    pub can_cast_spell: bool,
    pub stats: PlayerStats,
    pub attack_timer: Option<Timer>,
    pub cast_timer: Option<Timer>,
    pub hit_timer: Option<Timer>,
    pub energy_timer: Timer,
}

impl Player {
    /// Stats are well formed; each gating timer is one-shot, well formed,
    /// attached only in its own state — so at most one is attached at a
    /// time; the energy-recovery timer repeats forever.
    pub open spec fn wf(self) -> bool {
        &&& self.stats.wf()
        &&& (self.attack_timer matches Some(t) ==> t.wf() && t.mode == TimerMode::Once)
        &&& (self.cast_timer matches Some(t) ==> t.wf() && t.mode == TimerMode::Once)
        &&& (self.hit_timer matches Some(t) ==> t.wf() && t.mode == TimerMode::Once)
        &&& (self.attack_timer is Some ==> self.status == Status::Attack)
        &&& (self.cast_timer is Some ==> self.status == Status::CastSpell)
        &&& (self.hit_timer is Some ==> self.status == Status::HitStun)
        &&& self.energy_timer.wf()
        &&& self.energy_timer.mode == TimerMode::Repeating
    }

    pub fn new() -> (r: Self)
        ensures
            r.xp == STARTING_XP,
            r.status == Status::Idle,
            r.direction == Direction::Down,
            r.can_cast_spell,
            forall|ty: PlayerStat| #[trigger] r.stats.spec_get(ty) == (Stat {
                value: start_of(ty),
                limit: limit_of(ty),
                max: max_of(ty),
                cost: cost_of(ty),
            }),
            r.attack_timer is None && r.cast_timer is None && r.hit_timer is None,
            r.wf(),
    {
        Self {
            xp: STARTING_XP,
            status: Status::Idle,
            direction: Direction::Down,
            can_cast_spell: true,
            stats: PlayerStats::new(),
            attack_timer: None,
            cast_timer: None,
            hit_timer: None,
            energy_timer: Timer::new(ENERGY_RECOVERY_DURATION_MS, TimerMode::Repeating),
        }
    }

    pub fn attack_cooldown(&self) -> (r: u32)
        ensures
            r == ATTACK_DURATION_MS,
    {
        ATTACK_DURATION_MS
    }

    /// Base damage dealt by the player: the damage stat's upgraded cap.
    pub fn damage(&self) -> (r: u32)
        ensures
            r == self.stats.spec_get(PlayerStat::Damage).limit,
    {
        self.stats.limit(PlayerStat::Damage)
    }

    pub fn is_moving(&self) -> (r: bool)
        ensures
            r == (self.status is Move),
    {
        matches!(self.status, Status::Move(_))
    }

    pub fn is_attacking(&self) -> (r: bool)
        ensures
            r == (self.status == Status::Attack),
    {
        self.status == Status::Attack
    }

    pub fn is_casting_spell(&self) -> (r: bool)
        ensures
            r == (self.status == Status::CastSpell),
    {
        self.status == Status::CastSpell
    }

    /// Take damage: health drops by `damage`, saturating at zero.
    pub fn hit(&mut self, damage: u32)
        requires
            old(self).wf(),
        ensures
            final(self).stats.spec_get(PlayerStat::Health).value == if old(self).stats.spec_get(
                PlayerStat::Health,
            ).value > damage {
                old(self).stats.spec_get(PlayerStat::Health).value - damage
            } else {
                0int
            },
            *final(self) == (Player {
                stats: final(self).stats,
                ..*old(self)
            }),
            final(self).stats == old(self).stats.spec_with(
                PlayerStat::Health,
                Stat { value: final(self).stats.health.value, ..old(self).stats.health },
            ),
            final(self).wf(),
    {
        self.stats.health.sub(damage);
    }

    /// Begin hit-stun: any gating timer is dropped and the hit-stun timer
    /// starts; input is ignored until it expires.
    pub fn start_hit_stun(&mut self)
        requires
            old(self).wf(),
        ensures
            *final(self) == (Player {
                status: Status::HitStun,
                attack_timer: None::<Timer>,
                cast_timer: None::<Timer>,
                hit_timer: Some(
                    Timer { duration_ms: HIT_DURATION_MS, elapsed_ms: 0u32, mode: TimerMode::Once },
                ),
                ..*old(self)
            }),
            final(self).wf(),
    {
        self.status = Status::HitStun;
        self.attack_timer = None;
        self.cast_timer = None;
        self.hit_timer = Some(Timer::new(HIT_DURATION_MS, TimerMode::Once));
    }

    /// Spend energy on a spell if there is enough: the check and the
    /// deduction are one step, so a failed attempt costs nothing.
    pub fn cast_spell(&mut self, cost: u32) -> (ok: bool)
        requires
            old(self).wf(),
        ensures
            ok == (old(self).stats.spec_get(PlayerStat::Energy).value >= cost),
            ok ==> *final(self) == (Player {
                stats: old(self).stats.spec_with(
                    PlayerStat::Energy,
                    Stat {
                        value: (old(self).stats.energy.value - cost) as u32,
                        ..old(self).stats.energy
                    },
                ),
                ..*old(self)
            }),
            !ok ==> *final(self) == *old(self),
            final(self).wf(),
    {
        let energy = self.stats.value(PlayerStat::Energy);
        if energy >= cost {
            self.stats.energy.sub(cost);
            true
        } else {
            false
        }
    }

    /// Heal: health rises by `strength`, clamped at the health limit.
    pub fn heal(&mut self, strength: u32)
        requires
            old(self).wf(),
        ensures
            *final(self) == (Player {
                stats: old(self).stats.spec_with(
                    PlayerStat::Health,
                    Stat {
                        value: vstd::math::min(
                            old(self).stats.health.value + strength,
                            old(self).stats.health.limit as int,
                        ) as u32,
                        ..old(self).stats.health
                    },
                ),
                ..*old(self)
            }),
            final(self).wf(),
    {
        self.stats.health.add(strength);
    }

    /// Recover energy, clamped at the energy limit.
    pub fn recover_energy(&mut self, amount: u32)
        requires
            old(self).wf(),
        ensures
            *final(self) == (Player {
                stats: old(self).stats.spec_with(
                    PlayerStat::Energy,
                    Stat {
                        value: vstd::math::min(
                            old(self).stats.energy.value + amount,
                            old(self).stats.energy.limit as int,
                        ) as u32,
                        ..old(self).stats.energy
                    },
                ),
                ..*old(self)
            }),
            final(self).wf(),
    {
        self.stats.energy.add(amount);
    }

    pub fn value_by(&self, stat: PlayerStat) -> (r: u32)
        ensures
            r == self.stats.spec_get(stat).value,
    {
        self.stats.value(stat)
    }

    pub fn cost_by(&self, stat: PlayerStat) -> (r: u32)
        ensures
            r == self.stats.spec_get(stat).cost,
    {
        self.stats.cost(stat)
    }

    pub fn limit_by(&self, stat: PlayerStat) -> (r: u32)
        ensures
            r == self.stats.spec_get(stat).limit,
    {
        self.stats.limit(stat)
    }

    pub fn max_by(&self, stat: PlayerStat) -> (r: u32)
        ensures
            r == self.stats.spec_get(stat).max,
    {
        self.stats.max(stat)
    }

    pub fn upgrade(&mut self, stat: PlayerStat)
        requires
            old(self).wf(),
        ensures
            *final(self) == (Player {
                stats: old(self).stats.spec_with(
                    stat,
                    Stat {
                        limit: crate::stats::upgraded_limit(
                            old(self).stats.spec_get(stat).limit as int,
                            old(self).stats.spec_get(stat).max as int,
                        ) as u32,
                        cost: crate::stats::upgraded_cost(
                            old(self).stats.spec_get(stat).limit as int,
                            old(self).stats.spec_get(stat).max as int,
                            old(self).stats.spec_get(stat).cost as int,
                        ) as u32,
                        ..old(self).stats.spec_get(stat)
                    },
                ),
                ..*old(self)
            }),
            final(self).wf(),
    {
        self.stats.upgrade(stat);
    }

    /// Experience only ever grows; it saturates at the machine bound.
    pub fn add_xp(&mut self, xp: u32)
        requires
            old(self).wf(),
        ensures
            final(self).xp == vstd::math::min(old(self).xp + xp, u32::MAX as int),
            final(self).xp >= old(self).xp,
            *final(self) == (Player { xp: final(self).xp, ..*old(self) }),
            final(self).wf(),
    {
        self.xp = self.xp.saturating_add(xp);
    }

    /// Buy one upgrade of a stat: if the player's experience covers the
    /// stat's current cost, the cost is deducted and the stat upgraded;
    /// otherwise nothing changes.
    pub fn purchase_upgrade(&mut self, stat: PlayerStat) -> (bought: bool)
        requires
            old(self).wf(),
        ensures
            bought == (old(self).xp >= old(self).stats.spec_get(stat).cost),
            !bought ==> *final(self) == *old(self),
            bought ==> *final(self) == (Player {
                xp: (old(self).xp - old(self).stats.spec_get(stat).cost) as u32,
                stats: old(self).stats.spec_with(
                    stat,
                    Stat {
                        limit: crate::stats::upgraded_limit(
                            old(self).stats.spec_get(stat).limit as int,
                            old(self).stats.spec_get(stat).max as int,
                        ) as u32,
                        cost: crate::stats::upgraded_cost(
                            old(self).stats.spec_get(stat).limit as int,
                            old(self).stats.spec_get(stat).max as int,
                            old(self).stats.spec_get(stat).cost as int,
                        ) as u32,
                        ..old(self).stats.spec_get(stat)
                    },
                ),
                ..*old(self)
            }),
            final(self).wf(),
    {
        let cost = self.cost_by(stat);
        if self.xp >= cost {
            self.xp = self.xp - cost;
            self.upgrade(stat);
            true
        } else {
            false
        }
    }
}


/// The player state machine's reaction to one frame of input.
///
/// While attacking, casting or hit-stunned, input is ignored and the body
/// is held still.  Otherwise an attack trigger enters `Attack` (gated by
/// the base cooldown plus the current weapon's), a cast trigger enters
/// `CastSpell` (gated by the base cooldown), and a movement vector enters
/// `Move` at the speed stat's cap times the base speed constant.  The
/// returned velocity is `None` when the engine should keep the body's
/// current velocity.
pub fn handle_input(
    player: &mut Player,
    weapon: Weapon,
    move_dir: Vec2i,
    attack_pressed: bool,
    cast_pressed: bool,
) -> (r: Option<Vec2i>)
    requires
        old(player).wf(),
        -1 <= move_dir.x <= 1,
        -1 <= move_dir.y <= 1,
    ensures
        final(player).wf(),
        ({
            let gated = old(player).status == Status::Attack || old(player).status
                == Status::CastSpell || old(player).status == Status::HitStun;
            let moving = !(move_dir.x == 0 && move_dir.y == 0);
            let dir = if moving {
                Direction::spec_from_vec2(move_dir)
            } else {
                old(player).direction
            };
            if gated {
                *final(player) == *old(player) && r == Some(Vec2i { x: 0i64, y: 0i64 })
            } else if attack_pressed {
                &&& *final(player) == (Player {
                    status: Status::Attack,
                    direction: dir,
                    attack_timer: Some(
                        Timer {
                            duration_ms: (ATTACK_DURATION_MS + weapon_cooldown_of(weapon)) as u32,
                            elapsed_ms: 0u32,
                            mode: TimerMode::Once,
                        },
                    ),
                    ..*old(player)
                })
                &&& r == Some(Vec2i { x: 0i64, y: 0i64 })
            } else if cast_pressed {
                &&& *final(player) == (Player {
                    status: Status::CastSpell,
                    direction: dir,
                    cast_timer: Some(
                        Timer {
                            duration_ms: ATTACK_DURATION_MS,
                            elapsed_ms: 0u32,
                            mode: TimerMode::Once,
                        },
                    ),
                    ..*old(player)
                })
                &&& r == Some(Vec2i { x: 0i64, y: 0i64 })
            } else if moving {
                let limit = old(player).stats.spec_get(PlayerStat::Speed).limit as int;
                if old(player).status == Status::Move(move_dir) {
                    *final(player) == (Player { direction: dir, ..*old(player) }) && r is None
                } else {
                    &&& *final(player) == (Player {
                        status: Status::Move(move_dir),
                        direction: dir,
                        ..*old(player)
                    })
                    &&& (r matches Some(v) && v.x == move_dir.x * limit * (SPEED as int) && v.y
                        == move_dir.y * limit * (SPEED as int))
                }
            } else {
                if old(player).status == Status::Idle {
                    *final(player) == *old(player) && r is None
                } else {
                    *final(player) == (Player { status: Status::Idle, ..*old(player) }) && r
                        == Some(Vec2i { x: 0i64, y: 0i64 })
                }
            }
        }),
{
    if player.is_attacking() || player.is_casting_spell() || player.status == Status::HitStun {
        return Some(Vec2i::zero());
    }

    let moving = !(move_dir.x == 0 && move_dir.y == 0);
    if moving {
        player.direction = Direction::from_vec2(move_dir);
    }

    if attack_pressed {
        player.status = Status::Attack;
        player.attack_timer = Some(
            Timer::new(ATTACK_DURATION_MS + weapon.cooldown(), TimerMode::Once),
        );
        Some(Vec2i::zero())
    } else if cast_pressed {
        player.status = Status::CastSpell;
        player.cast_timer = Some(Timer::new(ATTACK_DURATION_MS, TimerMode::Once));
        Some(Vec2i::zero())
    } else if moving {
        if player.status == Status::Move(move_dir) {
            None
        } else {
            player.status = Status::Move(move_dir);
            let limit = player.stats.limit(PlayerStat::Speed);
            proof {
                assert(-0xffffffff <= move_dir.x as int * (limit as int) <= 0xffffffff
                    && -0xffffffff * 100 <= move_dir.x as int * (limit as int) * 100
                    <= 0xffffffff * 100) by (nonlinear_arith)
                    requires
                        -1 <= (move_dir.x as int) <= 1,
                        0 <= (limit as int) <= 0xffffffff,
                ;
                assert(-0xffffffff <= move_dir.y as int * (limit as int) <= 0xffffffff
                    && -0xffffffff * 100 <= move_dir.y as int * (limit as int) * 100
                    <= 0xffffffff * 100) by (nonlinear_arith)
                    requires
                        -1 <= (move_dir.y as int) <= 1,
                        0 <= (limit as int) <= 0xffffffff,
                ;
            }
            let vx: i64 = move_dir.x * (limit as i64) * SPEED;
            let vy: i64 = move_dir.y * (limit as i64) * SPEED;
            Some(Vec2i::new(vx, vy))
        }
    } else {
        if player.status == Status::Idle {
            None
        } else {
            player.status = Status::Idle;
            Some(Vec2i::zero())
        }
    }
}

/// Tick the player's attack timer; on expiry the attack ends and the
/// player returns to `Idle`.  The caller despawns the weapon swing when
/// `ended` comes back true.
pub fn end_player_attack(player: &mut Player, delta_ms: u32) -> (ended: bool)
    requires
        old(player).wf(),
    ensures
        final(player).wf(),
        old(player).attack_timer is None ==> *final(player) == *old(player) && !ended,
        old(player).attack_timer matches Some(t) ==> {
            let after = vstd::math::min(t.duration_ms as int, t.elapsed_ms + delta_ms);
            if after >= t.duration_ms {
                ended && *final(player) == (Player {
                    status: Status::Idle,
                    attack_timer: None::<Timer>,
                    ..*old(player)
                })
            } else {
                !ended && *final(player) == (Player {
                    attack_timer: Some(Timer { elapsed_ms: after as u32, ..t }),
                    ..*old(player)
                })
            }
        },
{
    match player.attack_timer {
        Some(mut timer) => {
            timer.tick(delta_ms);
            if timer.finished() {
                player.status = Status::Idle;
                player.attack_timer = None;
                true
            } else {
                player.attack_timer = Some(timer);
                false
            }
        },
        None => false,
    }
}

/// Tick the player's spell-cast timer; on expiry the cast ends, the
/// player returns to `Idle` and may cast again.
pub fn end_player_spell_cast(player: &mut Player, delta_ms: u32) -> (ended: bool)
    requires
        old(player).wf(),
    ensures
        final(player).wf(),
        old(player).cast_timer is None ==> *final(player) == *old(player) && !ended,
        old(player).cast_timer matches Some(t) ==> {
            let after = vstd::math::min(t.duration_ms as int, t.elapsed_ms + delta_ms);
            if after >= t.duration_ms {
                ended && *final(player) == (Player {
                    status: Status::Idle,
                    can_cast_spell: true,
                    cast_timer: None::<Timer>,
                    ..*old(player)
                })
            } else {
                !ended && *final(player) == (Player {
                    cast_timer: Some(Timer { elapsed_ms: after as u32, ..t }),
                    ..*old(player)
                })
            }
        },
{
    match player.cast_timer {
        Some(mut timer) => {
            timer.tick(delta_ms);
            if timer.finished() {
                player.status = Status::Idle;
                player.can_cast_spell = true;
                player.cast_timer = None;
                true
            } else {
                player.cast_timer = Some(timer);
                false
            }
        },
        None => false,
    }
}

/// Tick the player's hit-stun timer.  While it runs the sprite flashes;
/// on expiry the player returns to `Idle`, the sprite turns opaque and
/// the timer is removed.  Returns the alpha to render with.
pub fn handle_player_hit(player: &mut Player, delta_ms: u32) -> (alpha: u8)
    requires
        old(player).wf(),
    ensures
        final(player).wf(),
        old(player).hit_timer is None ==> *final(player) == *old(player) && alpha == 255,
        old(player).hit_timer matches Some(t) ==> {
            let after = vstd::math::min(t.duration_ms as int, t.elapsed_ms + delta_ms);
            if after >= t.duration_ms {
                alpha == 255 && *final(player) == (Player {
                    status: Status::Idle,
                    hit_timer: None::<Timer>,
                    ..*old(player)
                })
            } else {
                alpha == (if (after / FLASH_HALF_PERIOD_MS as int) % 2 == 0 {
                    255u8
                } else {
                    0u8
                }) && *final(player) == (Player {
                    hit_timer: Some(Timer { elapsed_ms: after as u32, ..t }),
                    ..*old(player)
                })
            }
        },
{
    match player.hit_timer {
        Some(mut timer) => {
            timer.tick(delta_ms);
            if timer.finished() {
                player.status = Status::Idle;
                player.hit_timer = None;
                255
            } else {
                player.hit_timer = Some(timer);
                flash_alpha(timer.elapsed_ms)
            }
        },
        None => 255,
    }
}

/// Tick the passive energy recovery.  Each time the repeating timer
/// crosses its period the player recovers one point of energy, clamped at
/// the energy limit.
pub fn recover_energy(player: &mut Player, delta_ms: u32)
    requires
        old(player).wf(),
    ensures
        final(player).wf(),
        ({
            let t = old(player).energy_timer;
            let crossed = t.elapsed_ms + delta_ms >= t.duration_ms;
            let wrapped = Timer {
                elapsed_ms: ((t.elapsed_ms + delta_ms) % (t.duration_ms as int)) as u32,
                ..t
            };
            if crossed {
                *final(player) == (Player {
                    energy_timer: wrapped,
                    stats: old(player).stats.spec_with(
                        PlayerStat::Energy,
                        Stat {
                            value: vstd::math::min(
                                old(player).stats.energy.value + 1,
                                old(player).stats.energy.limit as int,
                            ) as u32,
                            ..old(player).stats.energy
                        },
                    ),
                    ..*old(player)
                })
            } else {
                *final(player) == (Player { energy_timer: wrapped, ..*old(player) })
            }
        }),
{
    let before = player.energy_timer.elapsed_ms;
    let mut timer = player.energy_timer;
    timer.tick(delta_ms);
    let crossed = timer.just_finished(before, delta_ms);
    player.energy_timer = timer;
    if crossed {
        player.recover_energy(1);
    }
}

} // verus!
