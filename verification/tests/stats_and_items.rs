use rpg_combat::clamped::ClampedU32;
use rpg_combat::magic::Magic;
use rpg_combat::player::{Player, PlayerStat, PlayerStats};
use rpg_combat::stats::Stat;
use rpg_combat::weapon::Weapon;
use rpg_combat::world::Attackable;

#[test]
fn clamped_saturates_both_ways() {
    let c = ClampedU32::new(10, 50);
    assert_eq!(c.value(), 10);
    assert_eq!(c.sub(3).value(), 7);
    assert_eq!(c.sub(10).value(), 0);
    assert_eq!(c.sub(11).value(), 0);
    assert_eq!(c.add(40).value(), 50);
    assert_eq!(c.add(41).value(), 50);
    assert_eq!(c.add(5).value(), 15);
}

#[test]
fn attackable_damage_is_saturating() {
    // Applying d <= health leaves health - d; more than health leaves 0.
    let mut a = Attackable::new(100);
    assert_eq!(a.update(60), 40);
    assert_eq!(a.health, 40);
    assert_eq!(a.update(60), 0);
    assert_eq!(a.health, 0);
    let mut b = Attackable::new(5);
    assert_eq!(b.update(5), 0);
    let mut c = Attackable::new(7);
    assert_eq!(c.update(0), 7);
}

#[test]
fn stat_set_clamps_at_limit() {
    let mut s = Stat::new(50, 100, 300, 100);
    s.set(70);
    assert_eq!(s.value(), 70);
    s.set(400);
    assert_eq!(s.value(), 100);
}

#[test]
fn stat_add_and_sub_saturate() {
    let mut s = Stat::new(50, 100, 300, 100);
    s.sub(60);
    assert_eq!(s.value(), 0);
    s.add(30);
    assert_eq!(s.value(), 30);
    s.add(1000);
    assert_eq!(s.value(), 100);
}

#[test]
fn upgrade_curve_health_table() {
    // limit multiplies by 1.2 (rounded) and cost by 1.4 (rounded) each
    // step, with the limit clamped at max; afterwards nothing changes.
    let mut s = Stat::new(50, 100, 300, 100);
    let expected: [(u32, u32); 6] = [
        (120, 140),
        (144, 196),
        (173, 274),
        (208, 384),
        (250, 538),
        (300, 753),
    ];
    for (limit, cost) in expected {
        s.upgrade();
        assert_eq!(s.limit(), limit);
        assert_eq!(s.cost(), cost);
    }
    // The limit sits at max: further upgrades change nothing.
    s.upgrade();
    assert_eq!(s.limit(), 300);
    assert_eq!(s.cost(), 753);
    assert_eq!(s.value(), 50);
}

#[test]
fn upgrade_limit_monotone_and_bounded() {
    let mut s = Stat::new(4, 4, 10, 100);
    let mut last_limit = s.limit();
    let mut last_cost = s.cost();
    for _ in 0..20 {
        s.upgrade();
        assert!(s.limit() >= last_limit);
        assert!(s.limit() <= s.max());
        assert!(s.cost() >= last_cost);
        last_limit = s.limit();
        last_cost = s.cost();
    }
    assert_eq!(s.limit(), 10);
}

#[test]
fn player_stats_start_table() {
    let stats = PlayerStats::new();
    assert_eq!(stats.value(PlayerStat::Health), 50);
    assert_eq!(stats.limit(PlayerStat::Health), 100);
    assert_eq!(stats.max(PlayerStat::Health), 300);
    assert_eq!(stats.cost(PlayerStat::Health), 100);
    assert_eq!(stats.value(PlayerStat::Energy), 48);
    assert_eq!(stats.limit(PlayerStat::Energy), 60);
    assert_eq!(stats.value(PlayerStat::Damage), 10);
    assert_eq!(stats.limit(PlayerStat::Speed), 5);
    assert_eq!(stats.max(PlayerStat::Magic), 10);
}

#[test]
fn player_stat_tables() {
    assert_eq!(PlayerStat::Damage.start(), 10);
    assert_eq!(PlayerStat::Energy.limit(), 60);
    assert_eq!(PlayerStat::Health.max(), 300);
    assert_eq!(PlayerStat::Speed.cost(), 100);
    assert_eq!(PlayerStat::from_index(0), PlayerStat::Damage);
    assert_eq!(PlayerStat::from_index(3), PlayerStat::Magic);
    assert_eq!(PlayerStat::from_index(9), PlayerStat::Speed);
}

#[test]
fn purchase_upgrade_deducts_xp() {
    let mut p = Player::new();
    assert_eq!(p.xp, 500);
    assert!(p.purchase_upgrade(PlayerStat::Health));
    assert_eq!(p.xp, 400);
    assert_eq!(p.limit_by(PlayerStat::Health), 120);
    assert_eq!(p.cost_by(PlayerStat::Health), 140);
    // Too expensive once the experience runs out.
    let mut q = Player::new();
    for _ in 0..4 {
        q.purchase_upgrade(PlayerStat::Damage);
    }
    let xp_before = q.xp;
    let bought = q.purchase_upgrade(PlayerStat::Damage);
    if !bought {
        assert_eq!(q.xp, xp_before);
    }
}

#[test]
fn weapon_tables_and_cycle() {
    assert_eq!(Weapon::Axe.damage(), 20);
    assert_eq!(Weapon::Lance.damage(), 30);
    assert_eq!(Weapon::Rapier.damage(), 8);
    assert_eq!(Weapon::Sai.damage(), 10);
    assert_eq!(Weapon::Sword.damage(), 15);
    assert_eq!(Weapon::Axe.cooldown(), 300);
    assert_eq!(Weapon::Lance.cooldown(), 400);
    assert_eq!(Weapon::Rapier.cooldown(), 50);
    assert_eq!(Weapon::Sai.cooldown(), 80);
    assert_eq!(Weapon::Sword.cooldown(), 100);
    let mut w = Weapon::Sword;
    for _ in 0..5 {
        w = w.next();
    }
    assert_eq!(w, Weapon::Sword);
    assert_eq!(Weapon::Axe.next(), Weapon::Lance);
}

#[test]
fn magic_tables_and_cycle() {
    assert_eq!(Magic::Flame.strength(), 5);
    assert_eq!(Magic::Flame.cost(), 20);
    assert_eq!(Magic::Heal.strength(), 20);
    assert_eq!(Magic::Heal.cost(), 10);
    assert_eq!(Magic::Flame.next(), Magic::Heal);
    assert_eq!(Magic::Heal.next(), Magic::Flame);
}
