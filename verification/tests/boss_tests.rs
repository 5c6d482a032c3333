use code_termination::boss::{
    boss_look, enemy_look, laser_step, update_boss, Boss, BossAttackState, BossFacts, BossMotion,
    EnemyLook, FlashPhases, LaserStep,
};
use code_termination::clock::CpuClockMode;

fn facts() -> BossFacts {
    BossFacts {
        timer_done: false,
        attack_due: false,
        elapsed_seconds: 0,
        player_right_of_boss: false,
        player_right_of_center: false,
        at_sweep_target: false,
        at_center: false,
        ram_hits_side: false,
    }
}

fn boss_in(state: BossAttackState) -> Boss {
    Boss { health: 3, state, ram_direction: 0, sweep_target_x: 0 }
}

#[test]
fn spawn_health_by_mode() {
    assert_eq!(Boss::spawn(false).health, 3);
    assert_eq!(Boss::spawn(true).health, 6);
    assert_eq!(Boss::spawn(false).state, BossAttackState::Intro);
}

#[test]
fn intro_holds_still_until_its_timer_ends() {
    let mut b = boss_in(BossAttackState::Intro);
    let c = update_boss(&mut b, BossFacts { attack_due: true, ..facts() });
    assert_eq!(b.state, BossAttackState::Intro);
    assert_eq!(c.motion, BossMotion::Still);
    assert_eq!(c.state_timer_ms, None);
    assert_eq!(c.attack_cooldown_ms, None);
}

#[test]
fn intro_ends_in_patrol() {
    let mut b = boss_in(BossAttackState::Intro);
    let c = update_boss(&mut b, BossFacts { timer_done: true, ..facts() });
    assert_eq!(b.state, BossAttackState::Patrol);
    assert_eq!(b.health, 3);
    assert_eq!(c.motion, BossMotion::Still);
    assert_eq!(c.state_timer_ms, None);
    assert_eq!(c.attack_cooldown_ms, None);
    assert!(!c.spawn_laser);
}

#[test]
fn patrol_walks_until_attack() {
    let mut b = boss_in(BossAttackState::Patrol);
    let c = update_boss(&mut b, facts());
    assert_eq!(c.motion, BossMotion::Patrol);
    assert_eq!(b.state, BossAttackState::Patrol);
}

#[test]
fn patrol_picks_ram() {
    let mut b = boss_in(BossAttackState::Patrol);
    let c = update_boss(
        &mut b,
        BossFacts { attack_due: true, elapsed_seconds: 9, player_right_of_boss: true, ..facts() },
    );
    assert_eq!(b.state, BossAttackState::PrepareRam);
    assert_eq!(b.ram_direction, 1);
    assert_eq!(c.state_timer_ms, Some(1200));
    assert_eq!(c.motion, BossMotion::Still);
}

#[test]
fn patrol_picks_sweep_away_from_player() {
    let mut b = boss_in(BossAttackState::Patrol);
    let c = update_boss(
        &mut b,
        BossFacts { attack_due: true, elapsed_seconds: 10, player_right_of_center: true, ..facts() },
    );
    assert_eq!(b.state, BossAttackState::PrepareSweep);
    assert_eq!(b.sweep_target_x, -280);
    assert_eq!(c.state_timer_ms, Some(0));
    let mut b = boss_in(BossAttackState::Patrol);
    update_boss(&mut b, BossFacts { attack_due: true, elapsed_seconds: 4, ..facts() });
    assert_eq!(b.sweep_target_x, 280);
}

#[test]
fn patrol_picks_laser() {
    let mut b = boss_in(BossAttackState::Patrol);
    update_boss(&mut b, BossFacts { attack_due: true, elapsed_seconds: 11, ..facts() });
    assert_eq!(b.state, BossAttackState::PrepareLaser);
    let mut b = boss_in(BossAttackState::Patrol);
    update_boss(&mut b, BossFacts { attack_due: true, elapsed_seconds: -1, ..facts() });
    assert_eq!(b.state, BossAttackState::PrepareLaser);
    let mut b = boss_in(BossAttackState::Patrol);
    update_boss(&mut b, BossFacts { attack_due: true, elapsed_seconds: -3, ..facts() });
    assert_eq!(b.state, BossAttackState::PrepareRam);
}

#[test]
fn ram_cycle() {
    let mut b = Boss { ram_direction: -1, ..boss_in(BossAttackState::PrepareRam) };
    let c = update_boss(&mut b, facts());
    assert_eq!(b.state, BossAttackState::PrepareRam);
    assert_eq!(c.state_timer_ms, None);
    let c = update_boss(&mut b, BossFacts { timer_done: true, ..facts() });
    assert_eq!(b.state, BossAttackState::Ram);
    assert_eq!(c.state_timer_ms, Some(800));
    let c = update_boss(&mut b, facts());
    assert_eq!(c.motion, BossMotion::Ram { direction: -1 });
    assert_eq!(b.state, BossAttackState::Ram);
    let c = update_boss(&mut b, BossFacts { ram_hits_side: true, ..facts() });
    assert_eq!(c.motion, BossMotion::Ram { direction: -1 });
    assert_eq!(b.state, BossAttackState::Cooldown);
    assert_eq!(c.state_timer_ms, Some(1000));
    let c = update_boss(&mut b, BossFacts { timer_done: true, ..facts() });
    assert_eq!(b.state, BossAttackState::Patrol);
    assert_eq!(c.attack_cooldown_ms, Some(4000));
}

#[test]
fn sweep_cycle() {
    let mut b = Boss { sweep_target_x: 280, ..boss_in(BossAttackState::PrepareSweep) };
    let c = update_boss(&mut b, facts());
    assert_eq!(c.motion, BossMotion::Approach { target: 280 });
    let c = update_boss(&mut b, BossFacts { at_sweep_target: true, ..facts() });
    assert_eq!(c.motion, BossMotion::SnapTo { x: 280 });
    assert_eq!(b.state, BossAttackState::Sweep);
    assert_eq!(b.sweep_target_x, -280);
    assert_eq!(c.state_timer_ms, Some(1000));
    let c = update_boss(&mut b, BossFacts { at_sweep_target: true, ..facts() });
    assert_eq!(c.motion, BossMotion::Still);
    assert_eq!(b.state, BossAttackState::Sweep);
    let c = update_boss(&mut b, BossFacts { timer_done: true, ..facts() });
    assert_eq!(c.motion, BossMotion::SweepTo { target: -280 });
    let c = update_boss(&mut b, BossFacts { timer_done: true, at_sweep_target: true, ..facts() });
    assert_eq!(c.motion, BossMotion::SnapTo { x: -280 });
    assert_eq!(b.state, BossAttackState::Cooldown);
}

#[test]
fn laser_cycle() {
    let mut b = boss_in(BossAttackState::PrepareLaser);
    let c = update_boss(&mut b, facts());
    assert_eq!(c.motion, BossMotion::Approach { target: 0 });
    assert!(!c.spawn_laser);
    let c = update_boss(&mut b, BossFacts { at_center: true, ..facts() });
    assert!(c.spawn_laser);
    assert_eq!(c.motion, BossMotion::SnapTo { x: 0 });
    assert_eq!(c.state_timer_ms, Some(2700));
    assert_eq!(b.state, BossAttackState::Laser);
    let c = update_boss(&mut b, BossFacts { timer_done: true, ..facts() });
    assert_eq!(b.state, BossAttackState::Cooldown);
    assert_eq!(c.state_timer_ms, Some(1200));
}

#[test]
fn laser_phases() {
    assert_eq!(laser_step(false, true), LaserStep::Fire);
    assert_eq!(laser_step(true, true), LaserStep::Remove);
    assert_eq!(laser_step(false, false), LaserStep::Warn);
    assert_eq!(laser_step(true, false), LaserStep::Firing);
}

#[test]
fn enemy_and_boss_looks() {
    let p = FlashPhases { fast: true, medium: false, slow: true };
    assert_eq!(enemy_look(CpuClockMode::Normal), EnemyLook::Pink);
    assert_eq!(enemy_look(CpuClockMode::Overclocked), EnemyLook::Overclocked);
    assert_eq!(boss_look(BossAttackState::Ram, true, false, CpuClockMode::Normal, p), EnemyLook::FlashWhite);
    assert_eq!(boss_look(BossAttackState::Patrol, false, false, CpuClockMode::Normal, p), EnemyLook::Red);
    assert_eq!(
        boss_look(BossAttackState::Patrol, false, false, CpuClockMode::Underclocked, p),
        EnemyLook::Underclocked
    );
    assert_eq!(boss_look(BossAttackState::PrepareRam, false, true, CpuClockMode::Normal, p), EnemyLook::WarnOrange);
    assert_eq!(boss_look(BossAttackState::Sweep, false, true, CpuClockMode::Normal, p), EnemyLook::SweepWarnDim);
    assert_eq!(boss_look(BossAttackState::Sweep, false, false, CpuClockMode::Normal, p), EnemyLook::Sweeping);
    assert_eq!(boss_look(BossAttackState::Intro, false, true, CpuClockMode::Normal, p), EnemyLook::Unchanged);
    assert_eq!(boss_look(BossAttackState::Cooldown, false, true, CpuClockMode::Normal, p), EnemyLook::Recovering);
}
