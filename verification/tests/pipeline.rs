use rpg_combat::actor::Status;
use rpg_combat::collisions::{
    resolve_frame,
    enemy_attack_collision_group, enemy_move_collision_group, groups_can_contact,
    magic_collision_group, objects_collision_group, player_move_collision_group,
    weapon_collision_group,
    attack_attackable, classify_contact, damage_attackable, handle_collisions,
    handle_player_collisions, handle_weapon_collisions, kill_attackable, AttackOutcome,
    ContactEvent, SemanticCollision,
};
use rpg_combat::enemy::EnemyType;
use rpg_combat::events::{DamageAttackable, KillAttackable, WeaponCollision};
use rpg_combat::geom::Vec2i;
use rpg_combat::particles::ParticleEffect;
use rpg_combat::player::{handle_input, Player, PlayerStat};
use rpg_combat::weapon::Weapon;
use rpg_combat::session::{spawn_weapon, GameSession};
use rpg_combat::world::{Entity, World};

#[test]
fn classify_prefers_magic_over_weapon() {
    // A single contact matching both the active projectile and the active
    // weapon classifies as magic — one event, never two.
    let children = vec![2usize];
    let classified = classify_contact(7, 9, true, Some(7), Some(9), 1, &children);
    match classified {
        Some(SemanticCollision::Magic(m)) => {
            assert_eq!(m.magic, 7);
            assert_eq!(m.other, 9);
        }
        other => panic!("expected a magic collision, got {other:?}"),
    }
}

#[test]
fn classify_weapon_then_player_then_drop() {
    let children = vec![2usize, 3usize];
    // Weapon branch.
    match classify_contact(9, 5, true, None, Some(9), 1, &children) {
        Some(SemanticCollision::Weapon(w)) => {
            assert_eq!(w.weapon, 9);
            assert_eq!(w.other, 5);
        }
        other => panic!("expected a weapon collision, got {other:?}"),
    }
    // Player branch.
    match classify_contact(5, 3, true, None, None, 1, &children) {
        Some(SemanticCollision::Player(p)) => {
            assert_eq!(p.player, 1);
            assert_eq!(p.other, 5);
        }
        other => panic!("expected a player collision, got {other:?}"),
    }
    // Unclassified contacts and ended contacts are dropped.
    assert!(classify_contact(5, 6, true, None, None, 1, &children).is_none());
    assert!(classify_contact(2, 5, false, None, Some(9), 1, &children).is_none());
}

#[test]
fn handle_collisions_keeps_order_and_drops_unclassified() {
    let children = vec![2usize];
    let contacts = vec![
        ContactEvent { a: 7, b: 4, started: true },
        ContactEvent { a: 5, b: 6, started: true },
        ContactEvent { a: 2, b: 8, started: true },
        ContactEvent { a: 7, b: 4, started: false },
    ];
    let events = handle_collisions(&contacts, Some(7), None, 1, &children);
    assert_eq!(events.len(), 2);
    assert!(matches!(events[0], SemanticCollision::Magic(_)));
    assert!(matches!(events[1], SemanticCollision::Player(_)));
}

#[test]
fn two_hits_kill_and_award_xp() {
    // An enemy with health 100 and xp 100; the player starts at 500 xp.
    // Hits of 60 then 40 kill it; the player ends at 600 and the enemy
    // entity no longer exists.
    let mut world = World::new();
    let mut player = Player::new();
    let (owner, hurtbox) = world.spawn_enemy(EnemyType::Squid, Vec2i::new(10, 0));

    let first = attack_attackable(&mut world, 60, hurtbox);
    match first {
        Some(AttackOutcome::Damage(DamageAttackable(id))) => assert_eq!(id, owner),
        other => panic!("expected a damage intent, got {other:?}"),
    }

    let second = attack_attackable(&mut world, 40, hurtbox);
    let kill = match second {
        Some(AttackOutcome::Kill(k)) => k,
        other => panic!("expected a kill intent, got {other:?}"),
    };
    assert_eq!(kill.0, owner);

    let effects = kill_attackable(&mut world, &mut player, &vec![kill]);
    assert_eq!(effects.len(), 1);
    assert_eq!(effects[0].ty, ParticleEffect::EnemyDeath(EnemyType::Squid));
    assert_eq!(player.xp, 600);
    assert!(!world.ents[owner].alive);
    assert!(!world.ents[hurtbox].alive);
}

#[test]
fn kill_of_despawned_entity_is_a_no_op() {
    // Processing a kill intent for an entity already despawned is a
    // silent no-op.
    let mut world = World::new();
    let mut player = Player::new();
    let (owner, hurtbox) = world.spawn_enemy(EnemyType::Bamboo, Vec2i::new(0, 0));
    let outcome = attack_attackable(&mut world, 1000, hurtbox);
    assert!(matches!(outcome, Some(AttackOutcome::Kill(_))));
    let kill = KillAttackable(owner);

    let first = kill_attackable(&mut world, &mut player, &vec![kill]);
    assert_eq!(first.len(), 1);
    let xp_after_first = player.xp;

    let second = kill_attackable(&mut world, &mut player, &vec![kill]);
    assert!(second.is_empty());
    assert_eq!(player.xp, xp_after_first);
    assert!(!world.ents[owner].alive);
}

#[test]
fn knockback_points_away_from_player() {
    // Player at the origin, enemy at (10, 0): the knockback velocity
    // pushes the enemy away from the player along +x, scaled by its
    // resistance times the base speed constant (3 * 100).
    let mut world = World::new();
    let (owner, hurtbox) = world.spawn_enemy(EnemyType::Squid, Vec2i::new(10, 0));
    let _ = attack_attackable(&mut world, 60, hurtbox);
    damage_attackable(&mut world, Vec2i::new(0, 0), &vec![DamageAttackable(owner)]);
    let enemy_entity = world.ents[owner];
    assert_eq!(enemy_entity.vel, Vec2i::new(300, 0));
    let enemy = enemy_entity.enemy.expect("enemy state");
    assert!(!enemy.can_move);
    assert_eq!(enemy.status, Status::HitStun);
}

#[test]
fn knockback_on_exact_overlap_is_zero() {
    let mut world = World::new();
    let (owner, hurtbox) = world.spawn_enemy(EnemyType::Squid, Vec2i::new(0, 0));
    let _ = attack_attackable(&mut world, 10, hurtbox);
    damage_attackable(&mut world, Vec2i::new(0, 0), &vec![DamageAttackable(owner)]);
    assert_eq!(world.ents[owner].vel, Vec2i::new(0, 0));
}

#[test]
fn weapon_collision_damage_is_additive() {
    // Damage dealt through a weapon is the player's base damage (the
    // damage stat's cap, 10) plus the weapon's damage, additively.
    let mut world = World::new();
    let player = Player::new();
    let (owner, hurtbox) = world.spawn_enemy(EnemyType::Raccoon, Vec2i::new(5, 5));
    let event = WeaponCollision::new(77, hurtbox);
    let outcomes = handle_weapon_collisions(&mut world, &player, Weapon::Axe, &vec![event]);
    assert!(matches!(outcomes[..], [AttackOutcome::Damage(_)]));
    // Raccoon health 300, damage 10 + 20.
    assert_eq!(world.ents[owner].attackable.unwrap().health, 270);
}

#[test]
fn enemy_touch_hurts_player_and_starts_hit_stun() {
    let mut world = World::new();
    let mut player = Player::new();
    let (_owner, hurtbox) = world.spawn_enemy(EnemyType::Squid, Vec2i::new(10, 0));
    let event = rpg_combat::events::PlayerCollision { player: 0, other: hurtbox };
    let effects = handle_player_collisions(&world, &mut player, Vec2i::new(0, 0), &vec![event]);
    assert_eq!(effects.len(), 1);
    assert_eq!(effects[0].ty, ParticleEffect::EnemyAttack(EnemyType::Squid));
    // Squid damage 20 off the starting 50 health.
    assert_eq!(player.value_by(PlayerStat::Health), 30);
    assert_eq!(player.status, Status::HitStun);
    assert!(player.hit_timer.is_some());
}

#[test]
fn group_filtering_prevents_self_damage() {
    // The player's own shapes never contact one another, so the player
    // cannot hurt itself; each of them does contact enemy hurtboxes and
    // destructible objects.
    let player = player_move_collision_group();
    let weapon = weapon_collision_group();
    let magic = magic_collision_group();
    let enemy = enemy_attack_collision_group();
    let enemy_move = enemy_move_collision_group();
    let objects = objects_collision_group();
    assert!(!groups_can_contact(player, player));
    assert!(!groups_can_contact(player, weapon));
    assert!(!groups_can_contact(player, magic));
    assert!(!groups_can_contact(weapon, magic));
    assert!(groups_can_contact(player, enemy));
    assert!(groups_can_contact(weapon, enemy));
    assert!(groups_can_contact(magic, enemy));
    assert!(groups_can_contact(weapon, objects));
    // The enemy movement body filters objects, but objects do not filter
    // it back, so no contact is reported for that pair either.
    assert!(!groups_can_contact(enemy_move, objects));
    assert!(!groups_can_contact(enemy_move, player));
}

#[test]
fn one_frame_runs_the_whole_pipeline() {
    // One tick: a live weapon swing overlaps an enemy hurtbox and a patch
    // of grass, and the enemy's own hurtbox touches a player collider.
    // The swing damages the enemy and cuts the grass; the enemy contact
    // hurts the player.
    let mut world = World::new();
    let mut player = Player::new();
    let mut session = GameSession::new();

    let (enemy_owner, enemy_hurtbox) = world.spawn_enemy(EnemyType::Squid, Vec2i::new(30, 0));
    let (grass_owner, grass_hurtbox) = world.spawn_destructible(Vec2i::new(-30, 0), 1);
    let player_collider = world.spawn(Entity::plain(Vec2i::new(0, 0)));

    let _ = handle_input(&mut player, session.current_weapon, Vec2i::new(0, 0), true, false);
    let swing = spawn_weapon(&mut session, &mut world, &player, Vec2i::new(0, 0))
        .expect("a weapon swing");

    let contacts = vec![
        ContactEvent { a: swing, b: enemy_hurtbox, started: true },
        ContactEvent { a: grass_hurtbox, b: swing, started: true },
        ContactEvent { a: enemy_hurtbox, b: player_collider, started: true },
    ];
    let children = vec![player_collider];
    let effects = resolve_frame(
        &mut world,
        &mut player,
        &session,
        0,
        &children,
        Vec2i::new(0, 0),
        &contacts,
    );

    // The sword strike (base 10 + sword 15) left the squid at 75 health,
    // knocked back and stunned; the grass (health 1) fell.
    assert_eq!(world.ents[enemy_owner].attackable.unwrap().health, 75);
    let enemy = world.ents[enemy_owner].enemy.unwrap();
    assert!(!enemy.can_move);
    assert_eq!(world.ents[enemy_owner].vel, Vec2i::new(300, 0));
    assert!(!world.ents[grass_owner].alive);
    assert!(!world.ents[grass_hurtbox].alive);

    // The squid's touch cost the player 20 health and started hit-stun.
    assert_eq!(player.value_by(PlayerStat::Health), 30);
    assert!(player.hit_timer.is_some());

    // Exactly two effects: the grass's leaf burst first, then the
    // squid's attack flash at the player.
    assert_eq!(effects.len(), 2);
    assert_eq!(effects[0].ty, ParticleEffect::Leaf);
    assert_eq!(effects[1].ty, ParticleEffect::EnemyAttack(EnemyType::Squid));
}
