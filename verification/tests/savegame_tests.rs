use code_termination::savegame::{ram_to_save, save_game_text, SaveGame};

fn text(v: &[char]) -> String {
    v.iter().collect()
}

#[test]
fn save_text_fresh_game() {
    assert_eq!(save_game_text("-350", "-110", 6, true, 1, false), "-350,-110,6,true,1,false");
}

#[test]
fn save_text_hacker() {
    assert_eq!(save_game_text("12.5", "-3", 0, false, 4, true), "12.5,-3,0,false,4,true");
}

#[test]
fn load_full_record() {
    let g = SaveGame::from_text("-350,-110,6,true,1,false").unwrap();
    assert_eq!(text(&g.x), "-350");
    assert_eq!(text(&g.y), "-110");
    assert_eq!(g.ram, 6);
    assert!(g.tutorial_visible);
    assert_eq!(g.level, 1);
    assert!(!g.hacker_mode);
}

#[test]
fn save_then_load_roundtrip() {
    let s = save_game_text("101.25", "-96.5", 4, false, 3, true);
    let g = SaveGame::from_text(&s).unwrap();
    assert_eq!(text(&g.x), "101.25");
    assert_eq!(text(&g.y), "-96.5");
    assert_eq!(g.ram, 4);
    assert!(!g.tutorial_visible);
    assert_eq!(g.level, 3);
    assert!(g.hacker_mode);
}

#[test]
fn load_five_fields_normal_mode() {
    let g = SaveGame::from_text("1,2,3,false,2").unwrap();
    assert_eq!(g.ram, 3);
    assert_eq!(g.level, 2);
    assert!(!g.tutorial_visible);
    assert!(!g.hacker_mode);
}

#[test]
fn load_defaults_for_bad_fields() {
    let g = SaveGame::from_text("a,b,lots,maybe,first,yes\n").unwrap();
    assert_eq!(text(&g.x), "a");
    assert_eq!(text(&g.y), "b");
    assert_eq!(g.ram, 6);
    assert!(g.tutorial_visible);
    assert_eq!(g.level, 1);
    assert!(!g.hacker_mode);
}

#[test]
fn load_too_short_is_none() {
    assert!(SaveGame::from_text("1,2,3,true").is_none());
    assert!(SaveGame::from_text("").is_none());
    assert!(SaveGame::from_text("   ").is_none());
}

#[test]
fn load_keeps_empty_fields() {
    let g = SaveGame::from_text(",,,,").unwrap();
    assert!(g.x.is_empty() && g.y.is_empty());
    assert_eq!(g.ram, 6);
    assert_eq!(g.level, 1);
}

#[test]
fn ram_saved_full_after_crash() {
    assert_eq!(ram_to_save(0, 6), 6);
    assert_eq!(ram_to_save(4, 6), 4);
    assert_eq!(ram_to_save(6, 6), 6);
}
