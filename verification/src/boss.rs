use vstd::prelude::*;
use crate::clock::CpuClockMode;

verus! {

/// What the boss is doing.
#[derive(Clone, Copy, PartialEq, Eq, Debug, Structural)]
pub enum BossAttackState {
    Intro,
    Patrol,
    PrepareRam,
    Ram,
    PrepareSweep,
    Sweep,
    PrepareLaser,
    Laser,
    Cooldown,
}

/// The boss of level 4, apart from its timers and position.
#[derive(Clone, Copy, PartialEq, Eq, Debug, Structural)]
pub struct Boss {
    pub health: u32,
    pub state: BossAttackState,
    /// Which way the ram charges: -1 left, 1 right (0 before the first ram).
    pub ram_direction: i32,
    /// Where the sweep goes next (0 before the first sweep).
    pub sweep_target_x: i32,
}

/// Where a sweep starts: the side away from the player.
pub const SWEEP_START_X: i32 = 280;

/// How far the ram charge goes before it hits the arena's side.
pub const RAM_LIMIT_X: i32 = 320;

/// Charge speed and sweep speed, in units per second.
pub const RAM_SPEED: u32 = 600;
pub const SWEEP_SPEED: u32 = 450;

/// Timings, in milliseconds.
pub const RAM_WARNING_MS: u32 = 1200;
pub const RAM_CHARGE_MS: u32 = 800;
pub const SWEEP_WARNING_MS: u32 = 1000;
pub const RECOVERY_MS: u32 = 1000;
pub const LASER_CHANNEL_MS: u32 = 2700;
pub const LASER_RECOVERY_MS: u32 = 1200;
pub const PATROL_MS: u32 = 4000;
pub const LASER_WARNING_MS: u32 = 1200;
pub const LASER_FIRING_MS: u32 = 1500;

impl Boss {
    /// The ram direction is a unit step (or not chosen yet), and the sweep target is one
    /// of the two sides (or not chosen yet).
    pub open spec fn wf(&self) -> bool {
        &&& (self.ram_direction == -1 || self.ram_direction == 0 || self.ram_direction == 1)
        &&& (self.sweep_target_x == -SWEEP_START_X || self.sweep_target_x == 0
            || self.sweep_target_x == SWEEP_START_X)
    }

    /// The boss as it appears: in its intro, with 3 health (6 in hacker mode).
    pub fn spawn(hacker_mode: bool) -> (res: Boss)
        ensures
            res == (Boss {
                health: if hacker_mode {
                    6
                } else {
                    3
                },
                state: BossAttackState::Intro,
                ram_direction: 0,
                sweep_target_x: 0,
            }),
            res.wf(),
    {
        Boss {
            health: if hacker_mode {
                6
            } else {
                3
            },
            state: BossAttackState::Intro,
            ram_direction: 0,
            sweep_target_x: 0,
        }
    }
}

/// What the caller measured this frame, from the boss's timers and positions.
#[derive(Clone, Copy, PartialEq, Eq, Debug, Structural)]
pub struct BossFacts {
    /// The state timer has run down to zero.
    pub timer_done: bool,
    /// While patrolling: the time between attacks has run out.
    pub attack_due: bool,
    /// Whole seconds since the game started, which pick the next attack.
    pub elapsed_seconds: i32,
    /// The player stands to the right of the boss.
    pub player_right_of_boss: bool,
    /// The player stands to the right of the arena's middle.
    pub player_right_of_center: bool,
    /// The boss is within 10 units of its sweep target.
    pub at_sweep_target: bool,
    /// The boss is within 10 units of the arena's middle.
    pub at_center: bool,
    /// The ram charge of this frame takes the boss to a side of the arena.
    pub ram_hits_side: bool,
}

/// How the boss moves this frame.
#[derive(Clone, Copy, PartialEq, Eq, Debug, Structural)]
pub enum BossMotion {
    Still,
    /// Walk its patrol, turning at the ends.
    Patrol,
    /// Walk toward `target` at its own speed.
    Approach { target: i32 },
    /// Charge in `direction` at ram speed, stopping at the sides.
    Ram { direction: i32 },
    /// Sweep toward `target` at sweep speed.
    SweepTo { target: i32 },
    /// Stand exactly at `x`.
    SnapTo { x: i32 },
}

/// What the boss does this frame besides changing state.
#[derive(Clone, Copy, PartialEq, Eq, Debug, Structural)]
pub struct BossCommand {
    pub motion: BossMotion,
    /// Restart the state timer at this many milliseconds.
    pub state_timer_ms: Option<u32>,
    /// Restart the time between attacks at this many milliseconds.
    pub attack_cooldown_ms: Option<u32>,
    /// Put a laser (in its warning phase) across the floor.
    pub spawn_laser: bool,
}

pub open spec fn cmd(motion: BossMotion, timer: Option<u32>) -> BossCommand {
    BossCommand { motion, state_timer_ms: timer, attack_cooldown_ms: None, spawn_laser: false }
}

/// The remainder of whole seconds by three, with the sign of the seconds, which picks
/// the attack: 0 a ram, 1 a sweep, anything else a laser.
pub open spec fn attack_pick(elapsed: i32) -> int {
    if elapsed >= 0 {
        elapsed as int % 3
    } else {
        -((-(elapsed as int)) % 3)
    }
}

/// The boss's next state and command. The boss stands still through its intro and
/// starts patrolling when the intro's timer runs out. Patrolling, it walks
/// until an attack is due and then prepares the attack picked by the clock. Each
/// attack warns, strikes and recovers for a set time; a recovery ends in patrol.
pub open spec fn boss_next(b: Boss, f: BossFacts) -> (Boss, BossCommand) {
    match b.state {
        BossAttackState::Intro => if f.timer_done {
            (Boss { state: BossAttackState::Patrol, ..b }, cmd(BossMotion::Still, None))
        } else {
            (b, cmd(BossMotion::Still, None))
        },
        BossAttackState::Patrol => if f.attack_due {
            let pick = attack_pick(f.elapsed_seconds);
            if pick == 0 {
                (
                    Boss {
                        state: BossAttackState::PrepareRam,
                        ram_direction: if f.player_right_of_boss {
                            1i32
                        } else {
                            -1i32
                        },
                        ..b
                    },
                    cmd(BossMotion::Still, Some(RAM_WARNING_MS)),
                )
            } else if pick == 1 {
                (
                    Boss {
                        state: BossAttackState::PrepareSweep,
                        sweep_target_x: if f.player_right_of_center {
                            (-SWEEP_START_X) as i32
                        } else {
                            SWEEP_START_X
                        },
                        ..b
                    },
                    cmd(BossMotion::Still, Some(0)),
                )
            } else {
                (
                    Boss { state: BossAttackState::PrepareLaser, ..b },
                    cmd(BossMotion::Still, Some(0)),
                )
            }
        } else {
            (b, cmd(BossMotion::Patrol, None))
        },
        BossAttackState::PrepareRam => if f.timer_done {
            (Boss { state: BossAttackState::Ram, ..b }, cmd(BossMotion::Still, Some(RAM_CHARGE_MS)))
        } else {
            (b, cmd(BossMotion::Still, None))
        },
        BossAttackState::Ram => if f.timer_done || f.ram_hits_side {
            (
                Boss { state: BossAttackState::Cooldown, ..b },
                cmd(BossMotion::Ram { direction: b.ram_direction }, Some(RECOVERY_MS)),
            )
        } else {
            (b, cmd(BossMotion::Ram { direction: b.ram_direction }, None))
        },
        BossAttackState::PrepareSweep => if f.at_sweep_target {
            (
                Boss {
                    state: BossAttackState::Sweep,
                    sweep_target_x: (-b.sweep_target_x) as i32,
                    ..b
                },
                cmd(BossMotion::SnapTo { x: b.sweep_target_x }, Some(SWEEP_WARNING_MS)),
            )
        } else {
            (b, cmd(BossMotion::Approach { target: b.sweep_target_x }, None))
        },
        BossAttackState::Sweep => if !f.timer_done {
            (b, cmd(BossMotion::Still, None))
        } else if f.at_sweep_target {
            (
                Boss { state: BossAttackState::Cooldown, ..b },
                cmd(BossMotion::SnapTo { x: b.sweep_target_x }, Some(RECOVERY_MS)),
            )
        } else {
            (b, cmd(BossMotion::SweepTo { target: b.sweep_target_x }, None))
        },
        BossAttackState::PrepareLaser => if f.at_center {
            (
                Boss { state: BossAttackState::Laser, ..b },
                BossCommand {
                    motion: BossMotion::SnapTo { x: 0 },
                    state_timer_ms: Some(LASER_CHANNEL_MS),
                    attack_cooldown_ms: None,
                    spawn_laser: true,
                },
            )
        } else {
            (b, cmd(BossMotion::Approach { target: 0 }, None))
        },
        BossAttackState::Laser => if f.timer_done {
            (Boss { state: BossAttackState::Cooldown, ..b }, cmd(BossMotion::Still, Some(LASER_RECOVERY_MS)))
        } else {
            (b, cmd(BossMotion::Still, None))
        },
        BossAttackState::Cooldown => if f.timer_done {
            (
                Boss { state: BossAttackState::Patrol, ..b },
                BossCommand {
                    motion: BossMotion::Still,
                    state_timer_ms: None,
                    attack_cooldown_ms: Some(PATROL_MS),
                    spawn_laser: false,
                },
            )
        } else {
            (b, cmd(BossMotion::Still, None))
        },
    }
}

fn command(motion: BossMotion, timer: Option<u32>) -> (res: BossCommand)
    ensures
        res == cmd(motion, timer),
{
    BossCommand { motion, state_timer_ms: timer, attack_cooldown_ms: None, spawn_laser: false }
}

fn pick_attack(elapsed: i32) -> (res: i32)
    ensures
        res as int == attack_pick(elapsed),
{
    if elapsed >= 0 {
        elapsed % 3
    } else {
        let m = elapsed as i64;
        let r = ((-m) % 3) as i32;
        -r
    }
}

/// One frame of the boss, as `boss_next` says.
pub fn update_boss(boss: &mut Boss, facts: BossFacts) -> (res: BossCommand)
    requires
        old(boss).wf(),
    ensures
        (*final(boss), res) == boss_next(*old(boss), facts),
        final(boss).wf(),
{
    match boss.state {
        BossAttackState::Intro => {
            if facts.timer_done {
                boss.state = BossAttackState::Patrol;
            }
            command(BossMotion::Still, None)
        },
        BossAttackState::Patrol => {
            if facts.attack_due {
                let pick = pick_attack(facts.elapsed_seconds);
                if pick == 0 {
                    boss.state = BossAttackState::PrepareRam;
                    boss.ram_direction = if facts.player_right_of_boss {
                        1
                    } else {
                        -1
                    };
                    command(BossMotion::Still, Some(RAM_WARNING_MS))
                } else if pick == 1 {
                    boss.state = BossAttackState::PrepareSweep;
                    boss.sweep_target_x = if facts.player_right_of_center {
                        -SWEEP_START_X
                    } else {
                        SWEEP_START_X
                    };
                    command(BossMotion::Still, Some(0))
                } else {
                    boss.state = BossAttackState::PrepareLaser;
                    command(BossMotion::Still, Some(0))
                }
            } else {
                command(BossMotion::Patrol, None)
            }
        },
        BossAttackState::PrepareRam => {
            if facts.timer_done {
                boss.state = BossAttackState::Ram;
                command(BossMotion::Still, Some(RAM_CHARGE_MS))
            } else {
                command(BossMotion::Still, None)
            }
        },
        BossAttackState::Ram => {
            let m = BossMotion::Ram { direction: boss.ram_direction };
            if facts.timer_done || facts.ram_hits_side {
                boss.state = BossAttackState::Cooldown;
                command(m, Some(RECOVERY_MS))
            } else {
                command(m, None)
            }
        },
        BossAttackState::PrepareSweep => {
            let target = boss.sweep_target_x;
            if facts.at_sweep_target {
                boss.state = BossAttackState::Sweep;
                boss.sweep_target_x = -target;
                command(BossMotion::SnapTo { x: target }, Some(SWEEP_WARNING_MS))
            } else {
                command(BossMotion::Approach { target }, None)
            }
        },
        BossAttackState::Sweep => {
            let target = boss.sweep_target_x;
            if !facts.timer_done {
                command(BossMotion::Still, None)
            } else if facts.at_sweep_target {
                boss.state = BossAttackState::Cooldown;
                command(BossMotion::SnapTo { x: target }, Some(RECOVERY_MS))
            } else {
                command(BossMotion::SweepTo { target }, None)
            }
        },
        BossAttackState::PrepareLaser => {
            if facts.at_center {
                boss.state = BossAttackState::Laser;
                BossCommand {
                    motion: BossMotion::SnapTo { x: 0 },
                    state_timer_ms: Some(LASER_CHANNEL_MS),
                    attack_cooldown_ms: None,
                    spawn_laser: true,
                }
            } else {
                command(BossMotion::Approach { target: 0 }, None)
            }
        },
        BossAttackState::Laser => {
            if facts.timer_done {
                boss.state = BossAttackState::Cooldown;
                command(BossMotion::Still, Some(LASER_RECOVERY_MS))
            } else {
                command(BossMotion::Still, None)
            }
        },
        BossAttackState::Cooldown => {
            if facts.timer_done {
                boss.state = BossAttackState::Patrol;
                BossCommand {
                    motion: BossMotion::Still,
                    state_timer_ms: None,
                    attack_cooldown_ms: Some(PATROL_MS),
                    spawn_laser: false,
                }
            } else {
                command(BossMotion::Still, None)
            }
        },
    }
}

/// Every attack ends in a recovery, and every recovery ends in patrol: from an
/// attack state, the next state is the same, the next stage of that attack, or the
/// recovery; from the recovery or the intro, the same or patrol.
pub open spec fn follows(a: BossAttackState, b: BossAttackState) -> bool {
    a == b || match a {
        BossAttackState::Intro => b == BossAttackState::Patrol,
        BossAttackState::Patrol => b == BossAttackState::PrepareRam || b
            == BossAttackState::PrepareSweep || b == BossAttackState::PrepareLaser,
        BossAttackState::PrepareRam => b == BossAttackState::Ram,
        BossAttackState::Ram => b == BossAttackState::Cooldown,
        BossAttackState::PrepareSweep => b == BossAttackState::Sweep,
        BossAttackState::Sweep => b == BossAttackState::Cooldown,
        BossAttackState::PrepareLaser => b == BossAttackState::Laser,
        BossAttackState::Laser => b == BossAttackState::Cooldown,
        BossAttackState::Cooldown => b == BossAttackState::Patrol,
    }
}

/// The boss moves only along the attack cycle, keeps its health, and keeps its ram
/// direction and sweep target well formed; a sweep always ends on the side opposite to
/// where it started.
pub proof fn lemma_boss_cycle(b: Boss, f: BossFacts)
    requires
        b.wf(),
    ensures
        follows(b.state, boss_next(b, f).0.state),
        boss_next(b, f).0.health == b.health,
        boss_next(b, f).0.wf(),
        b.state == BossAttackState::PrepareSweep && boss_next(b, f).0.state
            == BossAttackState::Sweep ==> boss_next(b, f).0.sweep_target_x == -b.sweep_target_x,
{
}

/// When a patrolling boss's attack is due and the clock picks the ram (whole seconds
/// that are a non-negative multiple of three), the boss starts preparing the ram aimed
/// at the player: rightward exactly when the player stands to its right, leftward
/// otherwise. Where the player stands relative to the arena's middle plays no part.
pub proof fn lemma_ram_aims_at_player(b: Boss, f: BossFacts, other_side_of_center: bool)
    requires
        b.state == BossAttackState::Patrol,
        f.attack_due,
        f.elapsed_seconds >= 0,
        f.elapsed_seconds % 3 == 0,
    ensures
        boss_next(b, f).0.state == BossAttackState::PrepareRam,
        f.player_right_of_boss ==> boss_next(b, f).0.ram_direction == 1,
        !f.player_right_of_boss ==> boss_next(b, f).0.ram_direction == -1,
        boss_next(b, f).0.health == b.health,
        boss_next(b, f).0.sweep_target_x == b.sweep_target_x,
        boss_next(b, f).1.state_timer_ms == Some(RAM_WARNING_MS),
        boss_next(b, f) == boss_next(
            b,
            BossFacts { player_right_of_center: other_side_of_center, ..f },
        ),
{
}

/// Only the laser attack puts a laser on the floor, once, as the boss reaches the
/// middle.
pub proof fn lemma_laser_only_from_prepare(b: Boss, f: BossFacts)
    ensures
        boss_next(b, f).1.spawn_laser ==> b.state == BossAttackState::PrepareLaser
            && boss_next(b, f).0.state == BossAttackState::Laser,
{
}

/// What a laser does when its timer is checked.
#[derive(Clone, Copy, PartialEq, Eq, Debug, Structural)]
pub enum LaserStep {
    /// The warning is over: the beam fires for 1.5 seconds.
    Fire,
    /// The beam is done: the laser goes away.
    Remove,
    /// Still warning: the line flashes.
    Warn,
    /// Still firing.
    Firing,
}

pub fn laser_step(is_active: bool, time_up: bool) -> (res: LaserStep)
    ensures
        res == if time_up {
            if is_active {
                LaserStep::Remove
            } else {
                LaserStep::Fire
            }
        } else if !is_active {
            LaserStep::Warn
        } else {
            LaserStep::Firing
        },
{
    if time_up {
        if is_active {
            LaserStep::Remove
        } else {
            LaserStep::Fire
        }
    } else if !is_active {
        LaserStep::Warn
    } else {
        LaserStep::Firing
    }
}

/// The colours of enemies and of the boss.
#[derive(Clone, Copy, PartialEq, Eq, Debug, Structural)]
pub enum EnemyLook {
    /// Neon orange: the clock is overclocked.
    Overclocked,
    /// Neon blue: the clock is underclocked.
    Underclocked,
    /// Pink, an ordinary enemy on the normal clock.
    Pink,
    /// Red, the boss on the normal clock.
    Red,
    FlashWhite,
    FlashRed,
    WarnYellow,
    WarnOrange,
    Charging,
    SweepWarnBright,
    SweepWarnDim,
    SweepPrepareBright,
    SweepPrepareDim,
    Sweeping,
    LaserWarnCyan,
    LaserWarnRed,
    LaserCyan,
    Recovering,
    /// The colour is left as it is.
    Unchanged,
}

/// An ordinary enemy's colour follows the clock.
pub fn enemy_look(mode: CpuClockMode) -> (res: EnemyLook)
    ensures
        res == match mode {
            CpuClockMode::Overclocked => EnemyLook::Overclocked,
            CpuClockMode::Underclocked => EnemyLook::Underclocked,
            CpuClockMode::Normal => EnemyLook::Pink,
        },
{
    match mode {
        CpuClockMode::Overclocked => EnemyLook::Overclocked,
        CpuClockMode::Underclocked => EnemyLook::Underclocked,
        CpuClockMode::Normal => EnemyLook::Pink,
    }
}

/// Which half of a flashing cycle is showing, at three flashing rates.
#[derive(Clone, Copy, PartialEq, Eq, Debug, Structural)]
pub struct FlashPhases {
    /// Twenty half-cycles a second.
    pub fast: bool,
    /// Fifteen half-cycles a second.
    pub medium: bool,
    /// Ten half-cycles a second.
    pub slow: bool,
}

/// The boss flashes while invulnerable; otherwise its colour tells its state.
pub fn boss_look(
    state: BossAttackState,
    invulnerable: bool,
    timer_running: bool,
    mode: CpuClockMode,
    phases: FlashPhases,
) -> (res: EnemyLook)
    ensures
        res == if invulnerable {
            if phases.fast {
                EnemyLook::FlashWhite
            } else {
                EnemyLook::FlashRed
            }
        } else {
            match state {
                BossAttackState::Intro => EnemyLook::Unchanged,
                BossAttackState::Patrol => match mode {
                    CpuClockMode::Overclocked => EnemyLook::Overclocked,
                    CpuClockMode::Underclocked => EnemyLook::Underclocked,
                    CpuClockMode::Normal => EnemyLook::Red,
                },
                BossAttackState::PrepareRam => if phases.medium {
                    EnemyLook::WarnYellow
                } else {
                    EnemyLook::WarnOrange
                },
                BossAttackState::Ram => EnemyLook::Charging,
                BossAttackState::PrepareSweep => if phases.slow {
                    EnemyLook::SweepPrepareBright
                } else {
                    EnemyLook::SweepPrepareDim
                },
                BossAttackState::Sweep => if timer_running {
                    if phases.medium {
                        EnemyLook::SweepWarnBright
                    } else {
                        EnemyLook::SweepWarnDim
                    }
                } else {
                    EnemyLook::Sweeping
                },
                BossAttackState::PrepareLaser => if phases.slow {
                    EnemyLook::LaserWarnCyan
                } else {
                    EnemyLook::LaserWarnRed
                },
                BossAttackState::Laser => EnemyLook::LaserCyan,
                BossAttackState::Cooldown => EnemyLook::Recovering,
            }
        },
{
    if invulnerable {
        if phases.fast {
            EnemyLook::FlashWhite
        } else {
            EnemyLook::FlashRed
        }
    } else {
        match state {
            BossAttackState::Intro => EnemyLook::Unchanged,
            BossAttackState::Patrol => match mode {
                CpuClockMode::Overclocked => EnemyLook::Overclocked,
                CpuClockMode::Underclocked => EnemyLook::Underclocked,
                CpuClockMode::Normal => EnemyLook::Red,
            },
            BossAttackState::PrepareRam => if phases.medium {
                EnemyLook::WarnYellow
            } else {
                EnemyLook::WarnOrange
            },
            BossAttackState::Ram => EnemyLook::Charging,
            BossAttackState::PrepareSweep => if phases.slow {
                EnemyLook::SweepPrepareBright
            } else {
                EnemyLook::SweepPrepareDim
            },
            BossAttackState::Sweep => if timer_running {
                if phases.medium {
                    EnemyLook::SweepWarnBright
                } else {
                    EnemyLook::SweepWarnDim
                }
            } else {
                EnemyLook::Sweeping
            },
            BossAttackState::PrepareLaser => if phases.slow {
                EnemyLook::LaserWarnCyan
            } else {
                EnemyLook::LaserWarnRed
            },
            BossAttackState::Laser => EnemyLook::LaserCyan,
            BossAttackState::Cooldown => EnemyLook::Recovering,
        }
    }
}

} // verus!
