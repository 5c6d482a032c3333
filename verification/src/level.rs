use vstd::prelude::*;
use crate::boss::Boss;
use crate::state::LevelState;
use crate::text::{decimal, push_decimal};

verus! {

/// Height of the floor the player stands on.
pub const GROUND_Y: i32 = -110;

/// Where the player starts every level.
pub const START_X: i32 = -350;

/// An enemy as a level places it.
#[derive(Clone, Copy, PartialEq, Eq, Debug, Structural)]
pub struct EnemySpawn {
    pub x: i32,
    pub y: i32,
    pub patrol_left: i32,
    pub patrol_right: i32,
    pub speed: u32,
    pub direction: i32,
}

/// The boss as level 4 places it.
#[derive(Clone, Copy, PartialEq, Eq, Debug, Structural)]
pub struct BossSpawn {
    pub enemy: EnemySpawn,
    pub boss: Boss,
    /// Length of the intro, in milliseconds.
    pub state_timer_ms: u32,
    /// Time before the first attack, in milliseconds.
    pub attack_cooldown_ms: u32,
}

/// What a level holds besides the player and the floor.
pub struct LevelLayout {
    /// Firewall walls, by centre.
    pub walls: Vec<(i32, i32)>,
    /// Spikes, by centre.
    pub spikes: Vec<(i32, i32)>,
    pub enemies: Vec<EnemySpawn>,
    /// The console that ends the level, by centre.
    pub console: Option<(i32, i32)>,
    pub boss: Option<BossSpawn>,
}

pub struct LevelLayoutView {
    pub walls: Seq<(i32, i32)>,
    pub spikes: Seq<(i32, i32)>,
    pub enemies: Seq<EnemySpawn>,
    pub console: Option<(i32, i32)>,
    pub boss: Option<BossSpawn>,
}

impl View for LevelLayout {
    type V = LevelLayoutView;

    open spec fn view(&self) -> LevelLayoutView {
        LevelLayoutView {
            walls: self.walls@,
            spikes: self.spikes@,
            enemies: self.enemies@,
            console: self.console,
            boss: self.boss,
        }
    }
}

/// The four levels. Level 1: a wall to glitch through. Level 2: a wall and a fast
/// enemy. Level 3: a pit of spikes and an enemy. Level 4: the boss, whose defeat brings
/// the console. Any other level is empty.
pub open spec fn layout_of(level: u32, hacker_mode: bool) -> LevelLayoutView {
    if level == 1 {
        LevelLayoutView {
            walls: seq![(0i32, -10i32)],
            spikes: seq![],
            enemies: seq![],
            console: Some((350i32, GROUND_Y)),
            boss: None,
        }
    } else if level == 2 {
        LevelLayoutView {
            walls: seq![(-100i32, -10i32)],
            spikes: seq![],
            enemies: seq![
                EnemySpawn {
                    x: 100,
                    y: -128i32,
                    patrol_left: 50,
                    patrol_right: 200,
                    speed: 250,
                    direction: 1,
                },
            ],
            console: Some((350i32, GROUND_Y)),
            boss: None,
        }
    } else if level == 3 {
        LevelLayoutView {
            walls: seq![],
            spikes: seq![(-48i32, -136i32), (0i32, -136i32), (48i32, -136i32)],
            enemies: seq![
                EnemySpawn {
                    x: 200,
                    y: -128i32,
                    patrol_left: 150,
                    patrol_right: 300,
                    speed: 150,
                    direction: 1,
                },
            ],
            console: Some((380i32, GROUND_Y)),
            boss: None,
        }
    } else if level == 4 {
        LevelLayoutView {
            walls: seq![],
            spikes: seq![],
            enemies: seq![],
            console: None,
            boss: Some(
                BossSpawn {
                    enemy: EnemySpawn {
                        x: 0,
                        y: 400,
                        patrol_left: -250i32,
                        patrol_right: 250,
                        speed: 200,
                        direction: 1,
                    },
                    boss: Boss {
                        health: if hacker_mode {
                            6
                        } else {
                            3
                        },
                        state: crate::boss::BossAttackState::Intro,
                        ram_direction: 0,
                        sweep_target_x: 0,
                    },
                    state_timer_ms: 2000,
                    attack_cooldown_ms: 3000,
                },
            ),
        }
    } else {
        LevelLayoutView {
            walls: seq![],
            spikes: seq![],
            enemies: seq![],
            console: None,
            boss: None,
        }
    }
}

/// What `load_level` places for a level.
pub fn level_layout(level: u32, hacker_mode: bool) -> (res: LevelLayout)
    ensures
        res@ == layout_of(level, hacker_mode),
{
    let mut walls: Vec<(i32, i32)> = Vec::new();
    let mut spikes: Vec<(i32, i32)> = Vec::new();
    let mut enemies: Vec<EnemySpawn> = Vec::new();
    let mut console: Option<(i32, i32)> = None;
    let mut boss: Option<BossSpawn> = None;
    if level == 1 {
        walls.push((0, -10));
        console = Some((350, GROUND_Y));
    } else if level == 2 {
        walls.push((-100, -10));
        enemies.push(
            EnemySpawn { x: 100, y: -128, patrol_left: 50, patrol_right: 200, speed: 250, direction: 1 },
        );
        console = Some((350, GROUND_Y));
    } else if level == 3 {
        spikes.push((-48, -136));
        spikes.push((0, -136));
        spikes.push((48, -136));
        enemies.push(
            EnemySpawn { x: 200, y: -128, patrol_left: 150, patrol_right: 300, speed: 150, direction: 1 },
        );
        console = Some((380, GROUND_Y));
    } else if level == 4 {
        boss = Some(
            BossSpawn {
                enemy: EnemySpawn {
                    x: 0,
                    y: 400,
                    patrol_left: -250,
                    patrol_right: 250,
                    speed: 200,
                    direction: 1,
                },
                boss: Boss::spawn(hacker_mode),
                state_timer_ms: 2000,
                attack_cooldown_ms: 3000,
            },
        );
    }
    let res = LevelLayout { walls, spikes, enemies, console, boss };
    assert(res@.walls =~= layout_of(level, hacker_mode).walls);
    assert(res@.spikes =~= layout_of(level, hacker_mode).spikes);
    assert(res@.enemies =~= layout_of(level, hacker_mode).enemies);
    res
}

/// Where the console appears when the boss is defeated.
pub const VICTORY_CONSOLE_X: i32 = 300;

/// The last level.
pub const BOSS_LEVEL: u32 = 4;

/// What touching the console does.
#[derive(Clone, Copy, PartialEq, Eq, Debug, Structural)]
pub enum GateOutcome {
    /// Go on to this level (loaded at once, and saved at its start).
    NextLevel { level: u32 },
    /// Level 4 is next: it is saved at its start and the warning screen is shown.
    BossWarning,
    /// The demo is beaten.
    DemoComplete,
}

pub open spec fn gate_next(level: u32) -> (u32, GateOutcome) {
    if level < 3 {
        ((level + 1) as u32, GateOutcome::NextLevel { level: (level + 1) as u32 })
    } else if level == 3 {
        (BOSS_LEVEL, GateOutcome::BossWarning)
    } else {
        (level, GateOutcome::DemoComplete)
    }
}

/// Touching the console: levels 1 and 2 lead to the next, level 3 to the boss, and the
/// console of the boss level ends the demo.
pub fn check_gate_collision(level_state: &mut LevelState) -> (res: GateOutcome)
    ensures
        (final(level_state).current_level, res) == gate_next(old(level_state).current_level),
{
    if level_state.current_level < 3 {
        level_state.current_level = level_state.current_level + 1;
        GateOutcome::NextLevel { level: level_state.current_level }
    } else if level_state.current_level == 3 {
        level_state.current_level = BOSS_LEVEL;
        GateOutcome::BossWarning
    } else {
        GateOutcome::DemoComplete
    }
}

/// From the first level, four consoles take the player through levels 2 and 3 and the
/// boss level to the end of the demo.
pub proof fn lemma_level_progression()
    ensures
        gate_next(1) == (2u32, GateOutcome::NextLevel { level: 2 }),
        gate_next(2) == (3u32, GateOutcome::NextLevel { level: 3 }),
        gate_next(3) == (4u32, GateOutcome::BossWarning),
        gate_next(4) == (4u32, GateOutcome::DemoComplete),
{
}

/// The level only ever goes up, and never past the boss level from below it.
pub proof fn lemma_level_monotone(level: u32)
    ensures
        gate_next(level).0 >= level,
        level <= BOSS_LEVEL ==> gate_next(level).0 <= BOSS_LEVEL,
{
}

/// What a saved game holds that resetting the player uses.
#[derive(Clone, Copy, PartialEq, Eq, Debug, Structural)]
pub struct SavedProgress {
    pub ram: u32,
    pub tutorial_visible: bool,
    pub level: u32,
}

/// How the player is set up on entering the game.
#[derive(Clone, Copy, PartialEq, Eq, Debug, Structural)]
pub struct PlayerReset {
    pub tutorial_visible: bool,
    pub level: u32,
    pub ram: u32,
    /// Put the player where the save says (otherwise at the start).
    pub position_from_save: bool,
    /// Write the save of a new game.
    pub write_fresh_save: bool,
}

pub open spec fn reset_of(pending_load: bool, saved: Option<SavedProgress>, max_ram: u32) -> PlayerReset {
    match saved {
        Some(s) if pending_load => PlayerReset {
            tutorial_visible: s.tutorial_visible,
            level: s.level,
            ram: if s.ram == 0 {
                max_ram
            } else if s.ram < max_ram {
                s.ram
            } else {
                max_ram
            },
            position_from_save: true,
            write_fresh_save: false,
        },
        _ => PlayerReset {
            tutorial_visible: true,
            level: 1,
            ram: max_ram,
            position_from_save: false,
            write_fresh_save: true,
        },
    }
}

/// Entering the game continues a save when asked to and one was found: its level and
/// tutorial setting, and its RAM (full RAM for a crashed save, never above the maximum).
/// Otherwise a new game starts at level 1 with the tutorial shown and is saved.
pub fn reset_player(pending_load: bool, saved: Option<SavedProgress>, max_ram: u32) -> (res:
    PlayerReset)
    ensures
        res == reset_of(pending_load, saved, max_ram),
{
    match saved {
        Some(s) if pending_load => PlayerReset {
            tutorial_visible: s.tutorial_visible,
            level: s.level,
            ram: if s.ram == 0 {
                max_ram
            } else if s.ram < max_ram {
                s.ram
            } else {
                max_ram
            },
            position_from_save: true,
            write_fresh_save: false,
        },
        _ => PlayerReset {
            tutorial_visible: true,
            level: 1,
            ram: max_ram,
            position_from_save: false,
            write_fresh_save: true,
        },
    }
}

/// Continuing a save restores its RAM when it is between 1 and the maximum; a save
/// made at 0 RAM (a crash) gives full RAM, and a saved RAM above the maximum is cut to
/// it. The save's level and tutorial setting are kept and the player goes where the
/// save says. Without a save, or when not continuing, a new game starts at level 1 with
/// full RAM and the tutorial shown, and is saved.
pub proof fn lemma_reset_restores_ram(pending_load: bool, saved: Option<SavedProgress>, max_ram: u32)
    ensures
        match saved {
            Some(s) if pending_load => {
                &&& (1 <= s.ram <= max_ram ==> reset_of(pending_load, saved, max_ram).ram == s.ram)
                &&& (s.ram == 0 ==> reset_of(pending_load, saved, max_ram).ram == max_ram)
                &&& (s.ram > max_ram ==> reset_of(pending_load, saved, max_ram).ram == max_ram)
                &&& reset_of(pending_load, saved, max_ram).level == s.level
                &&& reset_of(pending_load, saved, max_ram).tutorial_visible == s.tutorial_visible
                &&& reset_of(pending_load, saved, max_ram).position_from_save
                &&& !reset_of(pending_load, saved, max_ram).write_fresh_save
            },
            _ => {
                &&& reset_of(pending_load, saved, max_ram).ram == max_ram
                &&& reset_of(pending_load, saved, max_ram).level == 1
                &&& reset_of(pending_load, saved, max_ram).tutorial_visible
                &&& !reset_of(pending_load, saved, max_ram).position_from_save
                &&& reset_of(pending_load, saved, max_ram).write_fresh_save
            },
        },
{
}

/// The boss health bar: filled in proportion to the health left, and removed once
/// the boss is gone (or was never there).
pub fn boss_bar(boss_health: Option<u32>) -> (res: Option<u32>)
    ensures
        res == match boss_health {
            Some(h) => if h > 0 {
                Some(h)
            } else {
                None
            },
            None => None,
        },
{
    match boss_health {
        Some(h) => if h > 0 {
            Some(h)
        } else {
            None
        },
        None => None,
    }
}

/// The lines of the tutorial panel for a level.
pub open spec fn tutorial_text(level: u32) -> Seq<Seq<char>> {
    if level == 1 {
        seq![
            "• MOVE: Use A/D or Arrow Keys"@,
            "• JUMP: Space or Up Arrow (Double jump in mid-air)"@,
            "• GLITCH: Press SHIFT or F to phase through the wall (UNLOCKED!)"@,
            "• OVERCLOCK & UNDERCLOCK: LOCKED (Unlock at Level 2)"@,
            "• DASH: LOCKED (Unlock at Level 3)"@,
            "• OBJECTIVE: Glitch through the firewall wall and touch the cyan console"@,
        ]
    } else if level == 2 {
        seq![
            "• MOVE: Use A/D or Arrow Keys"@,
            "• JUMP: Space or Up Arrow"@,
            "• GLITCH: Press SHIFT or F to phase through walls"@,
            "• UNDERCLOCK: Press Z or E to slow down enemies (UNLOCKED!)"@,
            "• OVERCLOCK: Press C or Q to speed up CPU clock (UNLOCKED!)"@,
            "• DASH: LOCKED (Unlock at Level 3)"@,
            "• OBJECTIVE: Underclock the fast enemy to slow them down, jump over them, and reach the console"@,
        ]
    } else if level == 3 {
        seq![
            "• MOVE: Use A/D or Arrow Keys"@,
            "• JUMP: Space or Up Arrow"@,
            "• GLITCH: Press SHIFT or F to phase through walls"@,
            "• UNDERCLOCK: Press Z or E to slow down enemies"@,
            "• OVERCLOCK: Press C or Q to speed up CPU clock"@,
            "• DASH: Double-tap A/D to dash horizontally and destroy enemies (UNLOCKED!)"@,
            "• OBJECTIVE: Dash-kill the enemy, air-dash over the red spikes to the console"@,
        ]
    } else if level == 4 {
        seq![
            "• FINAL CHALLENGE: All skills are fully unlocked!"@,
            "• GLITCH: Phase through the vertical firewall wall at x = -150"@,
            "• UNDERCLOCK: Press Z/E to slow down the fast patrolling process at x = 100"@,
            "• OVERCLOCK: Press C/Q to speed up CPU clock and run/jump faster"@,
            "• DASH: Double-tap to air-dash over the spike pit from x = 250 to 350"@,
            "• OBJECTIVE: Combine all breach protocols to reach the final console at x = 500"@,
        ]
    } else {
        seq![]
    }
}

/// The lines of the tutorial panel for a level (none past level 4).
pub fn tutorial_lines(level: u32) -> (res: Vec<&'static str>)
    ensures
        res@.len() == tutorial_text(level).len(),
        forall|i: int| 0 <= i < res@.len() ==> (#[trigger] res@[i])@ == tutorial_text(level)[i],
{
    let mut v: Vec<&'static str> = Vec::new();
    if level == 1 {
        v.push("• MOVE: Use A/D or Arrow Keys");
        v.push("• JUMP: Space or Up Arrow (Double jump in mid-air)");
        v.push("• GLITCH: Press SHIFT or F to phase through the wall (UNLOCKED!)");
        v.push("• OVERCLOCK & UNDERCLOCK: LOCKED (Unlock at Level 2)");
        v.push("• DASH: LOCKED (Unlock at Level 3)");
        v.push("• OBJECTIVE: Glitch through the firewall wall and touch the cyan console");
    } else if level == 2 {
        v.push("• MOVE: Use A/D or Arrow Keys");
        v.push("• JUMP: Space or Up Arrow");
        v.push("• GLITCH: Press SHIFT or F to phase through walls");
        v.push("• UNDERCLOCK: Press Z or E to slow down enemies (UNLOCKED!)");
        v.push("• OVERCLOCK: Press C or Q to speed up CPU clock (UNLOCKED!)");
        v.push("• DASH: LOCKED (Unlock at Level 3)");
        v.push(
            "• OBJECTIVE: Underclock the fast enemy to slow them down, jump over them, and reach the console",
        );
    } else if level == 3 {
        v.push("• MOVE: Use A/D or Arrow Keys");
        v.push("• JUMP: Space or Up Arrow");
        v.push("• GLITCH: Press SHIFT or F to phase through walls");
        v.push("• UNDERCLOCK: Press Z or E to slow down enemies");
        v.push("• OVERCLOCK: Press C or Q to speed up CPU clock");
        v.push("• DASH: Double-tap A/D to dash horizontally and destroy enemies (UNLOCKED!)");
        v.push("• OBJECTIVE: Dash-kill the enemy, air-dash over the red spikes to the console");
    } else if level == 4 {
        v.push("• FINAL CHALLENGE: All skills are fully unlocked!");
        v.push("• GLITCH: Phase through the vertical firewall wall at x = -150");
        v.push("• UNDERCLOCK: Press Z/E to slow down the fast patrolling process at x = 100");
        v.push("• OVERCLOCK: Press C/Q to speed up CPU clock and run/jump faster");
        v.push("• DASH: Double-tap to air-dash over the spike pit from x = 250 to 350");
        v.push("• OBJECTIVE: Combine all breach protocols to reach the final console at x = 500");
    }
    v
}

/// The level line of the heads-up display.
pub open spec fn level_hud_of(level: u32) -> Seq<char> {
    "ZONE: TUTORIAL [SECTOR 0"@ + decimal(level as nat) + "]"@
}

pub fn level_hud_text(level: u32) -> (res: String)
    ensures
        res@ == level_hud_of(level),
{
    let mut out = String::new();
    out.append("ZONE: TUTORIAL [SECTOR 0");
    push_decimal(&mut out, level);
    out.append("]");
    out
}

/// The RAM line of the heads-up display.
pub open spec fn ram_hud_of(current: u32, max: u32) -> Seq<char> {
    "SYSTEM MEMORY: "@ + decimal(current as nat) + "GB / "@ + decimal(max as nat) + "GB"@
}

pub fn ram_hud_text(current: u32, max: u32) -> (res: String)
    ensures
        res@ == ram_hud_of(current, max),
{
    let mut out = String::new();
    out.append("SYSTEM MEMORY: ");
    push_decimal(&mut out, current);
    out.append("GB / ");
    push_decimal(&mut out, max);
    out.append("GB");
    out
}

} // verus!
