use code_termination::boss::BossAttackState;
use code_termination::level::{
    boss_bar, check_gate_collision, level_hud_text, level_layout, ram_hud_text, reset_player,
    tutorial_lines, GateOutcome, SavedProgress,
};
use code_termination::state::LevelState;

#[test]
fn level_one_layout() {
    let l = level_layout(1, false);
    assert_eq!(l.walls, vec![(0, -10)]);
    assert!(l.spikes.is_empty() && l.enemies.is_empty());
    assert_eq!(l.console, Some((350, -110)));
    assert!(l.boss.is_none());
}

#[test]
fn level_two_layout() {
    let l = level_layout(2, true);
    assert_eq!(l.walls, vec![(-100, -10)]);
    assert_eq!(l.enemies.len(), 1);
    let e = l.enemies[0];
    assert_eq!((e.x, e.y, e.patrol_left, e.patrol_right, e.speed, e.direction), (100, -128, 50, 200, 250, 1));
    assert_eq!(l.console, Some((350, -110)));
}

#[test]
fn level_three_layout() {
    let l = level_layout(3, false);
    assert_eq!(l.spikes, vec![(-48, -136), (0, -136), (48, -136)]);
    let e = l.enemies[0];
    assert_eq!((e.x, e.patrol_left, e.patrol_right, e.speed), (200, 150, 300, 150));
    assert_eq!(l.console, Some((380, -110)));
}

#[test]
fn boss_level_layout() {
    let l = level_layout(4, false);
    assert!(l.console.is_none() && l.walls.is_empty());
    let b = l.boss.unwrap();
    assert_eq!(b.boss.health, 3);
    assert_eq!(b.boss.state, BossAttackState::Intro);
    assert_eq!((b.enemy.x, b.enemy.y, b.enemy.patrol_left, b.enemy.patrol_right), (0, 400, -250, 250));
    assert_eq!(b.enemy.speed, 200);
    assert_eq!(b.state_timer_ms, 2000);
    assert_eq!(b.attack_cooldown_ms, 3000);
    assert_eq!(level_layout(4, true).boss.unwrap().boss.health, 6);
}

#[test]
fn unknown_level_is_empty() {
    let l = level_layout(9, false);
    assert!(l.walls.is_empty() && l.spikes.is_empty() && l.enemies.is_empty());
    assert!(l.console.is_none() && l.boss.is_none());
}

#[test]
fn consoles_lead_through_the_game() {
    let mut ls = LevelState::default();
    assert_eq!(check_gate_collision(&mut ls), GateOutcome::NextLevel { level: 2 });
    assert_eq!(check_gate_collision(&mut ls), GateOutcome::NextLevel { level: 3 });
    assert_eq!(check_gate_collision(&mut ls), GateOutcome::BossWarning);
    assert_eq!(ls.current_level, 4);
    assert_eq!(check_gate_collision(&mut ls), GateOutcome::DemoComplete);
    assert_eq!(ls.current_level, 4);
}

#[test]
fn reset_from_save() {
    let s = SavedProgress { ram: 4, tutorial_visible: false, level: 3 };
    let r = reset_player(true, Some(s), 6);
    assert_eq!((r.level, r.ram, r.tutorial_visible), (3, 4, false));
    assert!(r.position_from_save && !r.write_fresh_save);
    let r = reset_player(true, Some(SavedProgress { ram: 0, ..s }), 6);
    assert_eq!(r.ram, 6);
    let r = reset_player(true, Some(SavedProgress { ram: 9, ..s }), 6);
    assert_eq!(r.ram, 6);
}

#[test]
fn reset_new_game() {
    let s = SavedProgress { ram: 4, tutorial_visible: false, level: 3 };
    let r = reset_player(false, Some(s), 6);
    assert_eq!((r.level, r.ram, r.tutorial_visible), (1, 6, true));
    assert!(!r.position_from_save && r.write_fresh_save);
    let r = reset_player(true, None, 6);
    assert_eq!(r.level, 1);
    assert!(r.write_fresh_save);
}

#[test]
fn hud_texts() {
    assert_eq!(level_hud_text(1), "ZONE: TUTORIAL [SECTOR 01]");
    assert_eq!(level_hud_text(12), "ZONE: TUTORIAL [SECTOR 012]");
    assert_eq!(ram_hud_text(4, 6), "SYSTEM MEMORY: 4GB / 6GB");
    assert_eq!(ram_hud_text(0, 6), "SYSTEM MEMORY: 0GB / 6GB");
}

#[test]
fn boss_bar_rules() {
    assert_eq!(boss_bar(Some(2)), Some(2));
    assert_eq!(boss_bar(Some(0)), None);
    assert_eq!(boss_bar(None), None);
}

#[test]
fn tutorial_text_per_level() {
    let l1 = tutorial_lines(1);
    assert_eq!(l1.len(), 6);
    assert_eq!(l1[0], "• MOVE: Use A/D or Arrow Keys");
    assert_eq!(l1[5], "• OBJECTIVE: Glitch through the firewall wall and touch the cyan console");
    assert_eq!(tutorial_lines(2).len(), 7);
    assert_eq!(tutorial_lines(3)[5], "• DASH: Double-tap A/D to dash horizontally and destroy enemies (UNLOCKED!)");
    assert_eq!(tutorial_lines(4).len(), 6);
    assert!(tutorial_lines(5).is_empty());
    assert!(tutorial_lines(0).is_empty());
}
