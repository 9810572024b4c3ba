use rpg_combat::actor::Status;
use rpg_combat::debug::can_spawn;
use rpg_combat::enemy::EnemyType;
use rpg_combat::events::EmitParticleEffect;
use rpg_combat::geom::{isqrt, scaled_dir, Vec2i};
use rpg_combat::magic::Magic;
use rpg_combat::particles::{leaf_variant, ParticleEffect};
use rpg_combat::player::{handle_input, Player, PlayerStat};
use rpg_combat::session::{
    cast_spell, despawn_weapon, spawn_magic, spawn_weapon, GameSession,
};
use rpg_combat::settings::build_world;
use rpg_combat::weapon::Weapon;
use rpg_combat::world::{Entity, World};

#[test]
fn arena_spawn_and_owner_resolution() {
    let mut world = World::new();
    let (owner, hurtbox) = world.spawn_enemy(EnemyType::Spirit, Vec2i::new(3, 4));
    assert_eq!(world.len(), 2);
    assert_eq!(world.owner_of(hurtbox), owner);
    assert_eq!(world.owner_of(owner), owner);
    let mut grandchild = Entity::plain(Vec2i::new(3, 4));
    grandchild.parent = Some(hurtbox);
    let g = world.spawn(grandchild);
    assert_eq!(world.owner_of(g), owner);
}

#[test]
fn despawn_clears_whole_subtree_and_nothing_else() {
    let mut world = World::new();
    let (a_owner, a_hurtbox) = world.spawn_enemy(EnemyType::Squid, Vec2i::new(0, 0));
    let (b_owner, b_hurtbox) = world.spawn_destructible(Vec2i::new(5, 5), 1);
    world.despawn_subtree(a_owner);
    assert!(!world.ents[a_owner].alive);
    assert!(!world.ents[a_hurtbox].alive);
    assert!(world.ents[b_owner].alive);
    assert!(world.ents[b_hurtbox].alive);
}

#[test]
fn second_weapon_swing_is_refused() {
    // Spawning a second weapon swing while one is live is refused: the
    // arena and the session come back unchanged.
    let mut session = GameSession::new();
    let mut world = World::new();
    let mut player = Player::new();
    let _ = handle_input(&mut player, Weapon::Sword, Vec2i::new(0, 0), true, false);
    assert_eq!(player.status, Status::Attack);

    let first = spawn_weapon(&mut session, &mut world, &player, Vec2i::new(0, 0));
    let id = first.expect("a weapon swing");
    assert_eq!(session.active_weapon, Some(id));
    assert_eq!(world.ents[id].weapon, Some(Weapon::Sword));

    let len_before = world.len();
    let second = spawn_weapon(&mut session, &mut world, &player, Vec2i::new(0, 0));
    assert!(second.is_none());
    assert_eq!(world.len(), len_before);
    assert_eq!(session.active_weapon, Some(id));

    despawn_weapon(&mut session, &mut world);
    assert!(session.active_weapon.is_none());
    assert!(!world.ents[id].alive);
}

#[test]
fn weapon_spawn_needs_an_attack() {
    let mut session = GameSession::new();
    let mut world = World::new();
    let player = Player::new();
    assert!(spawn_weapon(&mut session, &mut world, &player, Vec2i::new(0, 0)).is_none());
    assert_eq!(world.len(), 0);
}

#[test]
fn second_projectile_is_refused() {
    let mut session = GameSession::new();
    let mut world = World::new();
    let mut player = Player::new();
    let _ = handle_input(&mut player, Weapon::Sword, Vec2i::new(0, 0), false, true);
    assert_eq!(player.status, Status::CastSpell);
    let first = spawn_magic(&mut session, &mut world, &player, Vec2i::new(0, 0));
    let id = first.expect("a projectile");
    assert_eq!(world.ents[id].magic, Some(Magic::Flame));
    assert!(spawn_magic(&mut session, &mut world, &player, Vec2i::new(0, 0)).is_none());
    assert_eq!(world.len(), 1);
}

#[test]
fn heal_cast_spends_energy_and_heals() {
    let mut player = Player::new();
    player.hit(30);
    assert_eq!(player.value_by(PlayerStat::Health), 20);
    let _ = handle_input(&mut player, Weapon::Sword, Vec2i::new(0, 0), false, true);
    let effects = cast_spell(&mut player, Magic::Heal, Vec2i::new(7, 8));
    assert_eq!(effects.len(), 2);
    assert_eq!(effects[0].ty, ParticleEffect::Aura);
    assert_eq!(effects[1].ty, ParticleEffect::Heal);
    assert_eq!(effects[0].pos, Vec2i::new(7, 8));
    assert_eq!(player.value_by(PlayerStat::Energy), 38);
    assert_eq!(player.value_by(PlayerStat::Health), 40);
    assert!(!player.can_cast_spell);
    // The attempt slot is consumed: casting again without re-arming does
    // nothing.
    let again = cast_spell(&mut player, Magic::Heal, Vec2i::new(7, 8));
    assert!(again.is_empty());
    assert_eq!(player.value_by(PlayerStat::Energy), 38);
}

#[test]
fn flame_cast_scatters_five_flames() {
    let mut player = Player::new();
    let _ = handle_input(&mut player, Weapon::Sword, Vec2i::new(1, 0), false, false);
    let _ = handle_input(&mut player, Weapon::Sword, Vec2i::new(0, 0), false, true);
    let effects = cast_spell(&mut player, Magic::Flame, Vec2i::new(0, 0));
    assert_eq!(effects.len(), 5);
    for (j, e) in effects.iter().enumerate() {
        assert_eq!(e.ty, ParticleEffect::Flame);
        let slot = 64 * (j as i64 + 1);
        assert!((e.pos.x - slot).abs() <= 21, "x off slot: {} vs {slot}", e.pos.x);
        assert!(e.pos.y.abs() <= 21);
    }
    assert_eq!(player.value_by(PlayerStat::Energy), 28);
}

#[test]
fn insufficient_energy_consumes_nothing() {
    // Burn energy down with flame casts until a cast cannot be paid for:
    // that attempt fails once and deducts nothing.
    let mut player = Player::new();
    for _ in 0..2 {
        let _ = handle_input(&mut player, Weapon::Sword, Vec2i::new(0, 0), false, true);
        let _ = cast_spell(&mut player, Magic::Flame, Vec2i::new(0, 0));
        player.can_cast_spell = true;
        player.status = Status::Idle;
    }
    assert_eq!(player.value_by(PlayerStat::Energy), 8);
    let _ = handle_input(&mut player, Weapon::Sword, Vec2i::new(0, 0), false, true);
    let effects = cast_spell(&mut player, Magic::Flame, Vec2i::new(0, 0));
    assert!(effects.is_empty());
    assert_eq!(player.value_by(PlayerStat::Energy), 8);
}

#[test]
fn session_switch_cycles() {
    let mut session = GameSession::new();
    assert_eq!(session.current_weapon, Weapon::Sword);
    session.switch_weapon();
    assert_eq!(session.current_weapon, Weapon::Axe);
    assert_eq!(session.current_magic, Magic::Flame);
    session.switch_magic();
    assert_eq!(session.current_magic, Magic::Heal);
    session.switch_magic();
    assert_eq!(session.current_magic, Magic::Flame);
}

#[test]
fn particle_effect_names_and_frames() {
    assert_eq!(ParticleEffect::Aura.texture_name(0), "aura");
    assert_eq!(ParticleEffect::Flame.texture_name(0), "flame");
    assert_eq!(ParticleEffect::EnemyAttack(EnemyType::Spirit).texture_name(0), "thunder_attack");
    assert_eq!(ParticleEffect::EnemyDeath(EnemyType::Bamboo).texture_name(0), "bamboo_death");
    assert_eq!(ParticleEffect::Leaf.texture_name(3), "leaf3");
    assert_eq!(ParticleEffect::Leaf.num_frames(2), 12);
    assert_eq!(ParticleEffect::Flame.num_frames(0), 12);
    assert_eq!(ParticleEffect::EnemyDeath(EnemyType::Bamboo).num_frames(0), 2);
    assert!(ParticleEffect::Leaf.is_flippable());
    assert!(!ParticleEffect::Heal.is_flippable());
    assert_eq!(ParticleEffect::Leaf.pos(), Vec2i::new(0, 64));
    assert_eq!(ParticleEffect::Heal.pos(), Vec2i::new(0, 0));
    for _ in 0..20 {
        let v = leaf_variant();
        assert!((1..=6).contains(&v));
    }
    let e = EmitParticleEffect::new(ParticleEffect::Heal, Vec2i::new(1, 2))
        .with_offset(Vec2i::new(3, 4));
    assert_eq!(e.pos, Vec2i::new(1, 2));
    assert_eq!(e.offset, Vec2i::new(3, 4));
}

#[test]
fn integer_square_root_and_scaling() {
    assert_eq!(isqrt(0), 0);
    assert_eq!(isqrt(1), 1);
    assert_eq!(isqrt(3), 1);
    assert_eq!(isqrt(4), 2);
    assert_eq!(isqrt(99), 9);
    assert_eq!(isqrt(100), 10);
    assert_eq!(isqrt(4398046511104), 2097152);
    assert_eq!(scaled_dir(Vec2i::new(0, 0), 300), Vec2i::new(0, 0));
    assert_eq!(scaled_dir(Vec2i::new(10, 0), 300), Vec2i::new(300, 0));
    assert_eq!(scaled_dir(Vec2i::new(-10, 0), 300), Vec2i::new(-300, 0));
    assert_eq!(scaled_dir(Vec2i::new(3, 4), 100), Vec2i::new(60, 80));
}

#[test]
fn built_in_world_shape() {
    let rows = build_world();
    assert_eq!(rows.len(), 20);
    for row in &rows {
        assert_eq!(row.len(), 20);
    }
    assert_eq!(rows[0], "xxxxxxxxxxxxxxxxxxxx");
    assert_eq!(rows[2], "x p                x");
}

#[test]
fn spawn_caps() {
    assert!(can_spawn(1000, -1));
    assert!(can_spawn(3, 3));
    assert!(!can_spawn(4, 3));
}
