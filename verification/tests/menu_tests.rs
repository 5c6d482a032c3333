use code_termination::menu::{
    button_look, menu_step, order_by_rank, stick_step, ButtonInteraction, ButtonLook, StickTilt,
};

use ButtonInteraction::{Hovered, Idle, Pressed};

#[test]
fn order_sorts_by_rank() {
    assert_eq!(order_by_rank(&vec![2, 0, 3, 1]), vec![1, 3, 0, 2]);
}

#[test]
fn order_is_stable() {
    assert_eq!(order_by_rank(&vec![1, 0, 1, 0]), vec![1, 3, 0, 2]);
    assert_eq!(order_by_rank(&vec![]), Vec::<usize>::new());
    assert_eq!(order_by_rank(&vec![5]), vec![0]);
}

#[test]
fn down_moves_and_wraps() {
    let idle = vec![Idle, Idle, Idle];
    assert_eq!(menu_step(0, &idle, false, true, false).selected, 1);
    assert_eq!(menu_step(2, &idle, false, true, false).selected, 0);
}

#[test]
fn up_moves_and_wraps() {
    let idle = vec![Idle, Idle, Idle, Idle];
    assert_eq!(menu_step(0, &idle, true, false, false).selected, 3);
    assert_eq!(menu_step(2, &idle, true, false, false).selected, 1);
}

#[test]
fn down_then_up_returns() {
    let idle = vec![Idle, Idle, Idle];
    for start in 0..3 {
        let a = menu_step(start, &idle, false, true, false).selected;
        assert_eq!(menu_step(a, &idle, true, false, false).selected, start);
    }
}

#[test]
fn both_presses_cancel() {
    let idle = vec![Idle, Idle, Idle];
    assert_eq!(menu_step(1, &idle, true, true, false).selected, 1);
    assert_eq!(menu_step(0, &idle, true, true, false).selected, 0);
}

#[test]
fn no_buttons_no_movement() {
    let r = menu_step(0, &vec![], true, true, true);
    assert_eq!(r.selected, 0);
    assert_eq!(r.triggered, None);
}

#[test]
fn hover_takes_selection() {
    let r = menu_step(0, &vec![Idle, Hovered, Idle], false, true, false);
    assert_eq!(r.selected, 1);
    let r = menu_step(0, &vec![Hovered, Idle, Hovered], false, false, false);
    assert_eq!(r.selected, 2);
}

#[test]
fn press_triggers() {
    let r = menu_step(0, &vec![Idle, Pressed, Idle], false, false, false);
    assert_eq!(r.triggered, Some(1));
    assert_eq!(r.selected, 0);
}

#[test]
fn select_triggers_selected() {
    let r = menu_step(0, &vec![Idle, Idle, Idle], false, true, true);
    assert_eq!(r.selected, 1);
    assert_eq!(r.triggered, Some(1));
    let r = menu_step(0, &vec![Idle, Idle, Idle], false, false, false);
    assert_eq!(r.triggered, None);
}

#[test]
fn last_trigger_wins() {
    let r = menu_step(2, &vec![Pressed, Idle, Idle], false, false, true);
    assert_eq!(r.triggered, Some(2));
}

#[test]
fn stick_edges() {
    let r = stick_step(true, &vec![StickTilt::Up]);
    assert!(r.up && !r.down && !r.neutral);
    let r = stick_step(false, &vec![StickTilt::Up]);
    assert!(!r.up && !r.down && !r.neutral);
    let r = stick_step(false, &vec![StickTilt::Neutral]);
    assert!(!r.up && !r.down && r.neutral);
    let r = stick_step(true, &vec![StickTilt::Neutral, StickTilt::Down, StickTilt::Up]);
    assert!(r.up && r.down && !r.neutral);
    let r = stick_step(true, &vec![]);
    assert!(!r.up && !r.down && r.neutral);
}

#[test]
fn looks() {
    assert_eq!(button_look(Pressed, 1, 1), ButtonLook::Pressed);
    assert_eq!(button_look(Hovered, 1, 1), ButtonLook::Selected);
    assert_eq!(button_look(Idle, 0, 1), ButtonLook::Normal);
}

#[test]
fn selection_stays_on_a_button() {
    for n in 1..5usize {
        for start in 0..n {
            for &(up, down, select) in &[
                (false, false, false),
                (true, false, true),
                (false, true, true),
                (true, true, false),
            ] {
                let mut buttons = vec![Idle; n];
                buttons[n - 1] = Hovered;
                let r = menu_step(start, &buttons, up, down, select);
                assert!(r.selected < n);
                if let Some(t) = r.triggered {
                    assert!(t < n && select && t == r.selected);
                }
            }
        }
    }
}
