use code_termination::clock::{
    clock_hud, enemy_speed_permille, overclock_step, player_speed_permille, ClockHud, CpuClockMode,
};
use code_termination::player::{
    dash_decision, glitch_step, jump_step, land, player_look, JumpAction, JumpState, PlayerLook,
};

#[test]
fn clock_default_normal() {
    assert_eq!(CpuClockMode::default(), CpuClockMode::Normal);
}

#[test]
fn overclock_starts_on_level_two() {
    let mut m = CpuClockMode::Normal;
    let s = overclock_step(&mut m, false, true, true, 2, true, false);
    assert_eq!(m, CpuClockMode::Overclocked);
    assert_eq!(s.started_speed_permille, Some(1600));
    assert!(s.turbo_charged && !s.expired);
}

#[test]
fn clock_locked_on_level_one() {
    let mut m = CpuClockMode::Normal;
    let s = overclock_step(&mut m, false, true, true, 1, true, true);
    assert_eq!(m, CpuClockMode::Normal);
    assert_eq!(s.started_speed_permille, None);
}

#[test]
fn overclock_preferred_over_underclock() {
    let mut m = CpuClockMode::Normal;
    overclock_step(&mut m, false, true, true, 3, true, true);
    assert_eq!(m, CpuClockMode::Overclocked);
    let mut m = CpuClockMode::Normal;
    let s = overclock_step(&mut m, false, false, true, 3, true, true);
    assert_eq!(m, CpuClockMode::Underclocked);
    assert_eq!(s.started_speed_permille, Some(400));
    assert!(!s.turbo_charged);
}

#[test]
fn boost_runs_out() {
    let mut m = CpuClockMode::Underclocked;
    let s = overclock_step(&mut m, false, true, true, 2, true, true);
    assert_eq!(m, CpuClockMode::Underclocked);
    assert!(!s.expired);
    let s = overclock_step(&mut m, true, true, true, 2, true, true);
    assert_eq!(m, CpuClockMode::Normal);
    assert!(s.expired);
    assert_eq!(s.started_speed_permille, None);
}

#[test]
fn cooldown_blocks() {
    let mut m = CpuClockMode::Normal;
    overclock_step(&mut m, false, false, false, 4, true, true);
    assert_eq!(m, CpuClockMode::Normal);
}

#[test]
fn speeds() {
    assert_eq!(player_speed_permille(CpuClockMode::Overclocked), 1500);
    assert_eq!(player_speed_permille(CpuClockMode::Underclocked), 1000);
    assert_eq!(enemy_speed_permille(CpuClockMode::Overclocked), 500);
    assert_eq!(enemy_speed_permille(CpuClockMode::Underclocked), 400);
    assert_eq!(enemy_speed_permille(CpuClockMode::Normal), 1000);
}

#[test]
fn clock_hud_lines() {
    assert_eq!(clock_hud(1, CpuClockMode::Overclocked, true, true), ClockHud::Locked);
    assert_eq!(clock_hud(2, CpuClockMode::Overclocked, true, true), ClockHud::Overclocked);
    assert_eq!(clock_hud(2, CpuClockMode::Normal, true, true), ClockHud::OverclockCooldown);
    assert_eq!(clock_hud(2, CpuClockMode::Normal, false, true), ClockHud::UnderclockCooldown);
    assert_eq!(clock_hud(2, CpuClockMode::Normal, false, false), ClockHud::Ready);
    assert_eq!(ClockHud::Locked.label(), ("CPU CLOCK: LOCKED (Unlock at Level 2)", false));
    assert_eq!(ClockHud::Overclocked.label(), ("CPU CLOCK: 9.8GHz [OVERCLOCKED] (", true));
    assert_eq!(
        ClockHud::Ready.label(),
        ("CPU CLOCK: 4.2GHz (READY - C: Overclock / Z: Underclock)", false)
    );
}

#[test]
fn jump_twice_then_nothing() {
    let mut js = JumpState::default();
    assert_eq!(js, JumpState { jumps_remaining: 2, max_jumps: 2, is_smashing: false });
    assert_eq!(jump_step(&mut js, false, false, true), JumpAction::Jump { double: false });
    assert_eq!(jump_step(&mut js, true, false, true), JumpAction::Jump { double: true });
    assert_eq!(jump_step(&mut js, true, false, true), JumpAction::Nothing);
    assert_eq!(js.jumps_remaining, 0);
    land(&mut js);
    assert_eq!(js, JumpState::default());
}

#[test]
fn smash_needs_air_and_blocks_jump() {
    let mut js = JumpState::default();
    assert_eq!(jump_step(&mut js, false, true, false), JumpAction::Nothing);
    assert_eq!(jump_step(&mut js, true, true, true), JumpAction::Smash);
    assert!(js.is_smashing);
    assert_eq!(jump_step(&mut js, true, false, true), JumpAction::Nothing);
    land(&mut js);
    assert!(!js.is_smashing);
}

#[test]
fn dash_rules() {
    let d = dash_decision(true, 3, true, false, false);
    assert!(d.start && !d.air_dash_used);
    let d = dash_decision(true, 2, true, false, false);
    assert!(!d.start);
    let d = dash_decision(true, 3, true, true, false);
    assert!(d.start && d.air_dash_used);
    let d = dash_decision(true, 3, true, true, true);
    assert!(!d.start && d.air_dash_used);
    let d = dash_decision(true, 3, false, false, false);
    assert!(!d.start);
    let d = dash_decision(false, 4, true, false, false);
    assert!(!d.start);
}

#[test]
fn glitch_rules() {
    let mut js = JumpState { is_smashing: true, ..JumpState::default() };
    assert!(!glitch_step(&mut js, true, false, true));
    assert!(js.is_smashing);
    assert!(!glitch_step(&mut js, true, true, false));
    assert!(glitch_step(&mut js, true, true, true));
    assert!(!js.is_smashing);
}

#[test]
fn player_looks() {
    assert_eq!(player_look(true, true, true, true, true), PlayerLook::Smashing);
    assert_eq!(player_look(false, true, true, true, true), PlayerLook::Glitching);
    assert_eq!(player_look(false, false, true, false, true), PlayerLook::HurtFaint);
    assert_eq!(player_look(false, false, false, false, true), PlayerLook::Dashing);
    assert_eq!(player_look(false, false, false, false, false), PlayerLook::Normal);
}
