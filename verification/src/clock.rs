use vstd::prelude::*;

verus! {

/// The CPU clock the player can push up or down for a while.
#[derive(Clone, Copy, PartialEq, Eq, Debug, Structural)]
pub enum CpuClockMode {
    Normal,
    Overclocked,
    Underclocked,
}

impl Default for CpuClockMode {
    fn default() -> (res: CpuClockMode)
        ensures
            res == CpuClockMode::Normal,
    {
        CpuClockMode::Normal
    }
}

/// How long an overclock or underclock lasts, in milliseconds.
pub const BOOST_MS: u32 = 3000;

/// How long both boosts are unavailable after one ends, in milliseconds.
pub const BOOST_COOLDOWN_MS: u32 = 15000;

/// The first level on which the clock can be changed.
pub const CLOCK_UNLOCK_LEVEL: u32 = 2;

/// Game speed, in thousandths of real time, while the clock runs normally, fast and slow.
pub const NORMAL_SPEED_PERMILLE: u32 = 1000;
pub const OVERCLOCK_SPEED_PERMILLE: u32 = 1600;
pub const UNDERCLOCK_SPEED_PERMILLE: u32 = 400;

/// What the clock does in one frame.
#[derive(Clone, Copy, PartialEq, Eq, Debug, Structural)]
pub struct ClockStep {
    /// The boost ran out: its timer is cleared, both cooldowns start over and the game
    /// runs at normal speed again.
    pub expired: bool,
    /// A boost started: its timer is set and the game runs at this speed.
    pub started_speed_permille: Option<u32>,
    /// The overclock started ("Turbo Charged" is earned).
    pub turbo_charged: bool,
}

/// The mode after one frame: a boost that ran out ends; from the normal clock, on
/// level 2 and later, the overclock key starts an overclock when its cooldown is over,
/// or else the underclock key an underclock when its cooldown is over.
pub open spec fn clock_next(
    mode: CpuClockMode,
    time_up: bool,
    overclock_ready: bool,
    underclock_ready: bool,
    level: u32,
    overclock_pressed: bool,
    underclock_pressed: bool,
) -> CpuClockMode {
    let m = if mode != CpuClockMode::Normal && time_up {
        CpuClockMode::Normal
    } else {
        mode
    };
    let ended = mode != CpuClockMode::Normal && time_up;
    if m == CpuClockMode::Normal && level >= CLOCK_UNLOCK_LEVEL && !ended {
        if overclock_pressed && overclock_ready {
            CpuClockMode::Overclocked
        } else if underclock_pressed && underclock_ready {
            CpuClockMode::Underclocked
        } else {
            m
        }
    } else {
        m
    }
}

/// One frame of the clock. `time_up` says the running boost's timer reached zero this
/// frame; the readiness flags say the cooldowns are over (checked only on a frame that
/// starts and stays on the normal clock, since a boost that ends restarts them).
pub fn overclock_step(
    mode: &mut CpuClockMode,
    time_up: bool,
    overclock_ready: bool,
    underclock_ready: bool,
    level: u32,
    overclock_pressed: bool,
    underclock_pressed: bool,
) -> (res: ClockStep)
    ensures
        *final(mode) == clock_next(
            *old(mode),
            time_up,
            overclock_ready,
            underclock_ready,
            level,
            overclock_pressed,
            underclock_pressed,
        ),
        res.expired == (*old(mode) != CpuClockMode::Normal && time_up),
        res.started_speed_permille == if *final(mode) != *old(mode) && *final(mode)
            == CpuClockMode::Overclocked {
            Some(OVERCLOCK_SPEED_PERMILLE)
        } else if *final(mode) != *old(mode) && *final(mode) == CpuClockMode::Underclocked {
            Some(UNDERCLOCK_SPEED_PERMILLE)
        } else {
            None
        },
        res.turbo_charged == (*final(mode) != *old(mode) && *final(mode)
            == CpuClockMode::Overclocked),
{
    let mut expired = false;
    if *mode != CpuClockMode::Normal && time_up {
        *mode = CpuClockMode::Normal;
        expired = true;
    }
    let mut started_speed_permille = None;
    let mut turbo_charged = false;
    if *mode == CpuClockMode::Normal && level >= CLOCK_UNLOCK_LEVEL && !expired {
        if overclock_pressed && overclock_ready {
            *mode = CpuClockMode::Overclocked;
            started_speed_permille = Some(OVERCLOCK_SPEED_PERMILLE);
            turbo_charged = true;
        } else if underclock_pressed && underclock_ready {
            *mode = CpuClockMode::Underclocked;
            started_speed_permille = Some(UNDERCLOCK_SPEED_PERMILLE);
        }
    }
    ClockStep { expired, started_speed_permille, turbo_charged }
}

/// How fast the player runs and dashes, in thousandths of the base speed: half as fast
/// again while overclocked.
pub fn player_speed_permille(mode: CpuClockMode) -> (res: u32)
    ensures
        res == if mode == CpuClockMode::Overclocked {
            1500u32
        } else {
            1000u32
        },
{
    if mode == CpuClockMode::Overclocked {
        1500
    } else {
        1000
    }
}

/// How fast enemies, the boss and lasers move, in thousandths of the base speed:
/// a boost of either kind slows them (to half when overclocked, to two fifths when
/// underclocked).
pub fn enemy_speed_permille(mode: CpuClockMode) -> (res: u32)
    ensures
        res == match mode {
            CpuClockMode::Overclocked => 500u32,
            CpuClockMode::Underclocked => 400u32,
            CpuClockMode::Normal => 1000u32,
        },
{
    match mode {
        CpuClockMode::Overclocked => 500,
        CpuClockMode::Underclocked => 400,
        CpuClockMode::Normal => 1000,
    }
}

/// What the clock line of the heads-up display says.
#[derive(Clone, Copy, PartialEq, Eq, Debug, Structural)]
pub enum ClockHud {
    /// Before level 2.
    Locked,
    /// With the seconds of the boost left.
    Overclocked,
    Underclocked,
    /// With the seconds of the cooldown left.
    OverclockCooldown,
    UnderclockCooldown,
    Ready,
}

pub fn clock_hud(
    level: u32,
    mode: CpuClockMode,
    overclock_cooling: bool,
    underclock_cooling: bool,
) -> (res: ClockHud)
    ensures
        res == if level < CLOCK_UNLOCK_LEVEL {
            ClockHud::Locked
        } else {
            match mode {
                CpuClockMode::Overclocked => ClockHud::Overclocked,
                CpuClockMode::Underclocked => ClockHud::Underclocked,
                CpuClockMode::Normal => if overclock_cooling {
                    ClockHud::OverclockCooldown
                } else if underclock_cooling {
                    ClockHud::UnderclockCooldown
                } else {
                    ClockHud::Ready
                },
            }
        },
{
    if level < CLOCK_UNLOCK_LEVEL {
        ClockHud::Locked
    } else {
        match mode {
            CpuClockMode::Overclocked => ClockHud::Overclocked,
            CpuClockMode::Underclocked => ClockHud::Underclocked,
            CpuClockMode::Normal => {
                if overclock_cooling {
                    ClockHud::OverclockCooldown
                } else if underclock_cooling {
                    ClockHud::UnderclockCooldown
                } else {
                    ClockHud::Ready
                }
            },
        }
    }
}

impl ClockHud {
    /// The text of the line; a line that counts seconds continues with them and `s)`.
    pub fn label(&self) -> (res: (&'static str, bool))
        ensures
            res.0@ == match *self {
                ClockHud::Locked => "CPU CLOCK: LOCKED (Unlock at Level 2)"@,
                ClockHud::Overclocked => "CPU CLOCK: 9.8GHz [OVERCLOCKED] ("@,
                ClockHud::Underclocked => "CPU CLOCK: 1.2GHz [UNDERCLOCKED] ("@,
                ClockHud::OverclockCooldown => "CPU CLOCK: 4.2GHz [OC COOLDOWN] ("@,
                ClockHud::UnderclockCooldown => "CPU CLOCK: 4.2GHz [UC COOLDOWN] ("@,
                ClockHud::Ready => "CPU CLOCK: 4.2GHz (READY - C: Overclock / Z: Underclock)"@,
            },
            res.1 == !(*self == ClockHud::Locked || *self == ClockHud::Ready),
    {
        match self {
            ClockHud::Locked => ("CPU CLOCK: LOCKED (Unlock at Level 2)", false),
            ClockHud::Overclocked => ("CPU CLOCK: 9.8GHz [OVERCLOCKED] (", true),
            ClockHud::Underclocked => ("CPU CLOCK: 1.2GHz [UNDERCLOCKED] (", true),
            ClockHud::OverclockCooldown => ("CPU CLOCK: 4.2GHz [OC COOLDOWN] (", true),
            ClockHud::UnderclockCooldown => ("CPU CLOCK: 4.2GHz [UC COOLDOWN] (", true),
            ClockHud::Ready => ("CPU CLOCK: 4.2GHz (READY - C: Overclock / Z: Underclock)", false),
        }
    }
}

/// From level 2 on, on the normal clock with no boost ending this frame: the overclock
/// key alone starts an overclock once its cooldown is over, and the underclock key
/// alone starts an underclock once its cooldown is over; with both keys, the overclock
/// wins when it is ready.
pub proof fn lemma_boosts_start_from_level_two(
    time_up: bool,
    overclock_ready: bool,
    underclock_ready: bool,
    level: u32,
)
    requires
        level >= 2,
    ensures
        overclock_ready ==> clock_next(
            CpuClockMode::Normal,
            time_up,
            overclock_ready,
            underclock_ready,
            level,
            true,
            false,
        ) == CpuClockMode::Overclocked,
        underclock_ready ==> clock_next(
            CpuClockMode::Normal,
            time_up,
            overclock_ready,
            underclock_ready,
            level,
            false,
            true,
        ) == CpuClockMode::Underclocked,
        overclock_ready ==> clock_next(
            CpuClockMode::Normal,
            time_up,
            overclock_ready,
            underclock_ready,
            level,
            true,
            true,
        ) == CpuClockMode::Overclocked,
        !overclock_ready && underclock_ready ==> clock_next(
            CpuClockMode::Normal,
            time_up,
            overclock_ready,
            underclock_ready,
            level,
            true,
            true,
        ) == CpuClockMode::Underclocked,
        clock_next(
            CpuClockMode::Normal,
            time_up,
            overclock_ready,
            underclock_ready,
            level,
            false,
            false,
        ) == CpuClockMode::Normal,
{
}

/// Changing the clock is impossible before level 2, and a boost never follows directly
/// on the end of another in the same frame.
pub proof fn lemma_clock_locked_early(
    mode: CpuClockMode,
    time_up: bool,
    oc: bool,
    uc: bool,
    level: u32,
    op: bool,
    up: bool,
)
    ensures
        level < CLOCK_UNLOCK_LEVEL ==> clock_next(mode, time_up, oc, uc, level, op, up) == (
        if mode != CpuClockMode::Normal && time_up {
            CpuClockMode::Normal
        } else {
            mode
        }),
        (mode != CpuClockMode::Normal && time_up) ==> clock_next(mode, time_up, oc, uc, level, op, up)
            == CpuClockMode::Normal,
{
}

} // verus!
