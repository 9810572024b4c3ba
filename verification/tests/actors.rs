use rpg_combat::actor::{Direction, Status};
use rpg_combat::enemy::{
    end_enemy_attack, end_enemy_attacks, handle_enemy_hit, handle_enemy_hits, move_enemies,
    move_enemy, AttackType, Enemy, EnemyType,
};
use rpg_combat::geom::Vec2i;
use rpg_combat::player::{
    end_player_attack, end_player_spell_cast, handle_input, handle_player_hit,
    recover_energy, Player, PlayerStat,
};
use rpg_combat::timer::{flash_alpha, Timer, TimerMode};
use rpg_combat::weapon::Weapon;
use rpg_combat::world::World;

#[test]
fn enemy_tables() {
    let squid = Enemy::new(EnemyType::Squid);
    assert_eq!(squid.health(), 100);
    assert_eq!(squid.exp(), 100);
    assert_eq!(squid.damage(), 20);
    assert_eq!(squid.speed(), 3);
    assert_eq!(squid.resistance(), 3);
    assert_eq!(squid.attack_radius(), 80);
    assert_eq!(squid.notice_radius(), 360);
    assert_eq!(squid.attack_type(), AttackType::Slash);
    let raccoon = Enemy::new(EnemyType::Raccoon);
    assert_eq!(raccoon.health(), 300);
    assert_eq!(raccoon.exp(), 250);
    assert_eq!(raccoon.attack_type(), AttackType::Claw);
    assert_eq!(Enemy::new(EnemyType::Spirit).attack_type(), AttackType::Thunder);
    assert_eq!(Enemy::new(EnemyType::Bamboo).attack_type(), AttackType::Leaf);
    assert_eq!(AttackType::Thunder.sound(), "fireball");
    assert_eq!(AttackType::Leaf.sound(), "slash");
}

#[test]
fn enemy_type_from_cell() {
    assert_eq!(EnemyType::from_cell(390), Some(EnemyType::Bamboo));
    assert_eq!(EnemyType::from_cell(391), Some(EnemyType::Spirit));
    assert_eq!(EnemyType::from_cell(392), Some(EnemyType::Raccoon));
    assert_eq!(EnemyType::from_cell(393), Some(EnemyType::Squid));
    assert_eq!(EnemyType::from_cell(394), None);
    assert_eq!(EnemyType::from_cell(-1), None);
}

#[test]
fn enemy_ai_attacks_inside_attack_radius() {
    let mut e = Enemy::new(EnemyType::Squid);
    let decision = move_enemy(&mut e, Vec2i::new(0, 0), Vec2i::new(50, 0));
    assert!(decision.started_attack);
    assert_eq!(decision.velocity, Vec2i::new(0, 0));
    assert_eq!(e.status, Status::Attack);
    assert!(!e.can_attack);
    assert!(e.attack_timer.is_some());
    // While attacking, further ticks change nothing.
    let again = move_enemy(&mut e, Vec2i::new(0, 0), Vec2i::new(50, 0));
    assert!(!again.started_attack);
}

#[test]
fn enemy_ai_pursues_inside_notice_radius() {
    let mut e = Enemy::new(EnemyType::Squid);
    let decision = move_enemy(&mut e, Vec2i::new(0, 0), Vec2i::new(200, 0));
    assert!(!decision.started_attack);
    // Unit direction (1, 0) times speed 3 times the base constant 100.
    assert_eq!(decision.velocity, Vec2i::new(300, 0));
    assert_eq!(e.status, Status::Move(Vec2i::new(300, 0)));
}

#[test]
fn enemy_ai_idles_outside_notice_radius() {
    let mut e = Enemy::new(EnemyType::Squid);
    let decision = move_enemy(&mut e, Vec2i::new(0, 0), Vec2i::new(1000, 0));
    assert!(!decision.started_attack);
    assert_eq!(decision.velocity, Vec2i::new(0, 0));
    assert_eq!(e.status, Status::Idle);
}

#[test]
fn enemy_attack_ends_on_timer_expiry() {
    let mut e = Enemy::new(EnemyType::Squid);
    let _ = move_enemy(&mut e, Vec2i::new(0, 0), Vec2i::new(10, 0));
    assert!(!end_enemy_attack(&mut e, 200));
    assert!(end_enemy_attack(&mut e, 300));
    assert_eq!(e.status, Status::Idle);
    assert!(e.can_attack);
    assert!(e.attack_timer.is_none());
}

#[test]
fn enemy_hit_stun_expires_after_duration() {
    // Non-lethal damage leaves the enemy unable to move; once the fixed
    // hit-stun duration has elapsed it can move again and no timer
    // remains attached.
    let mut e = Enemy::new(EnemyType::Squid);
    e.hit();
    assert!(!e.can_move);
    assert!(e.hit_timer.is_some());
    let alpha_mid = handle_enemy_hit(&mut e, 150);
    assert!(!e.can_move);
    assert_eq!(alpha_mid, 0);
    let alpha_end = handle_enemy_hit(&mut e, 250);
    assert_eq!(alpha_end, 255);
    assert!(e.can_move);
    assert!(e.hit_timer.is_none());
    assert_eq!(e.status, Status::Idle);
}

#[test]
fn input_attack_gates_and_expires() {
    let mut p = Player::new();
    let v = handle_input(&mut p, Weapon::Sword, Vec2i::new(0, 0), true, false);
    assert_eq!(v, Some(Vec2i::new(0, 0)));
    assert_eq!(p.status, Status::Attack);
    let t = p.attack_timer.expect("attack timer");
    // Base cooldown 500 plus the sword's 100.
    assert_eq!(t.duration_ms, 600);
    // While attacking, input is ignored and the body held still.
    let held = handle_input(&mut p, Weapon::Sword, Vec2i::new(1, 0), false, false);
    assert_eq!(held, Some(Vec2i::new(0, 0)));
    assert_eq!(p.status, Status::Attack);
    // The attack ends when its timer runs out.
    assert!(!end_player_attack(&mut p, 599));
    assert!(end_player_attack(&mut p, 1));
    assert_eq!(p.status, Status::Idle);
    assert!(p.attack_timer.is_none());
}

#[test]
fn input_movement_uses_speed_cap() {
    let mut p = Player::new();
    let v = handle_input(&mut p, Weapon::Sword, Vec2i::new(1, 0), false, false);
    // Speed cap 5 times the base constant 100.
    assert_eq!(v, Some(Vec2i::new(500, 0)));
    assert_eq!(p.status, Status::Move(Vec2i::new(1, 0)));
    assert_eq!(p.direction, Direction::Right);
    // Holding the same direction keeps the current velocity.
    let same = handle_input(&mut p, Weapon::Sword, Vec2i::new(1, 0), false, false);
    assert!(same.is_none());
    // Releasing the keys stops the body.
    let stop = handle_input(&mut p, Weapon::Sword, Vec2i::new(0, 0), false, false);
    assert_eq!(stop, Some(Vec2i::new(0, 0)));
    assert_eq!(p.status, Status::Idle);
}

#[test]
fn input_cast_starts_cast_timer() {
    let mut p = Player::new();
    let v = handle_input(&mut p, Weapon::Axe, Vec2i::new(0, 1), false, true);
    assert_eq!(v, Some(Vec2i::new(0, 0)));
    assert_eq!(p.status, Status::CastSpell);
    assert_eq!(p.cast_timer.expect("cast timer").duration_ms, 500);
    assert_eq!(p.direction, Direction::Up);
    assert!(!end_player_spell_cast(&mut p, 100));
    assert!(end_player_spell_cast(&mut p, 400));
    assert_eq!(p.status, Status::Idle);
    assert!(p.can_cast_spell);
}

#[test]
fn player_hit_stun_flashes_then_clears() {
    let mut p = Player::new();
    p.hit(20);
    p.start_hit_stun();
    assert_eq!(p.value_by(PlayerStat::Health), 30);
    assert_eq!(p.status, Status::HitStun);
    let alpha = handle_player_hit(&mut p, 50);
    assert_eq!(alpha, 255);
    let alpha = handle_player_hit(&mut p, 100);
    assert_eq!(alpha, 0);
    let alpha = handle_player_hit(&mut p, 250);
    assert_eq!(alpha, 255);
    assert_eq!(p.status, Status::Idle);
    assert!(p.hit_timer.is_none());
}

#[test]
fn player_hit_saturates_at_zero() {
    let mut p = Player::new();
    p.hit(80);
    assert_eq!(p.value_by(PlayerStat::Health), 0);
}

#[test]
fn energy_recovers_on_the_timer_period() {
    let mut p = Player::new();
    p.recover_energy(100);
    assert_eq!(p.value_by(PlayerStat::Energy), 60);
    let mut q = Player::new();
    recover_energy(&mut q, 300);
    assert_eq!(q.value_by(PlayerStat::Energy), 48);
    recover_energy(&mut q, 300);
    assert_eq!(q.value_by(PlayerStat::Energy), 49);
}

#[test]
fn direction_classification() {
    assert_eq!(Direction::from_vec2(Vec2i::new(1, 0)), Direction::Right);
    assert_eq!(Direction::from_vec2(Vec2i::new(-1, 0)), Direction::Left);
    assert_eq!(Direction::from_vec2(Vec2i::new(0, 1)), Direction::Up);
    assert_eq!(Direction::from_vec2(Vec2i::new(0, -1)), Direction::Down);
    // Ties go to the vertical axis, as held horizontal and vertical keys
    // resolve to the vertical facing.
    assert_eq!(Direction::from_vec2(Vec2i::new(1, 1)), Direction::Up);
    assert_eq!(Direction::from_vec2(Vec2i::new(-1, -1)), Direction::Down);
    assert_eq!(Direction::from_vec2(Vec2i::new(0, 0)), Direction::Down);
    assert_eq!(Direction::from_vec2(Vec2i::new(5, 2)), Direction::Right);
    assert_eq!(Direction::Left.as_vec2(), Vec2i::new(-1, 0));
}

#[test]
fn timers_tick_and_wrap() {
    let mut once = Timer::new(100, TimerMode::Once);
    once.tick(60);
    assert!(!once.finished());
    once.tick(60);
    assert!(once.finished());
    assert_eq!(once.elapsed_ms, 100);
    let mut rep = Timer::new(100, TimerMode::Repeating);
    rep.tick(250);
    assert_eq!(rep.elapsed_ms, 50);
    assert!(flash_alpha(0) == 255 && flash_alpha(150) == 0 && flash_alpha(250) == 255);
}

#[test]
fn arena_wide_enemy_ticks() {
    let mut world = World::new();
    let (a, _) = world.spawn_enemy(EnemyType::Squid, Vec2i::new(50, 0));
    let (b, _) = world.spawn_enemy(EnemyType::Raccoon, Vec2i::new(300, 0));
    let (c, _) = world.spawn_enemy(EnemyType::Bamboo, Vec2i::new(5000, 0));

    // Player at the origin: the squid is inside its attack radius, the
    // raccoon only notices, the bamboo idles.
    move_enemies(&mut world, Vec2i::new(0, 0));
    let squid = world.ents[a].enemy.unwrap();
    assert_eq!(squid.status, Status::Attack);
    assert!(squid.attack_timer.is_some());
    let raccoon = world.ents[b].enemy.unwrap();
    assert!(matches!(raccoon.status, Status::Move(_)));
    // Raccoon speed 2 towards the player along -x.
    assert_eq!(world.ents[b].vel, Vec2i::new(-200, 0));
    let bamboo = world.ents[c].enemy.unwrap();
    assert_eq!(bamboo.status, Status::Idle);

    // The squid's attack runs out after its cooldown.
    end_enemy_attacks(&mut world, 500);
    let squid = world.ents[a].enemy.unwrap();
    assert_eq!(squid.status, Status::Idle);
    assert!(squid.can_attack);

    // A stunned enemy recovers through the arena-wide hit tick.
    let mut stunned = world.ents[a].enemy.unwrap();
    stunned.hit();
    world.ents[a].enemy = Some(stunned);
    handle_enemy_hits(&mut world, 400);
    let squid = world.ents[a].enemy.unwrap();
    assert!(squid.can_move);
    assert!(squid.hit_timer.is_none());
}
