use vstd::prelude::*;

verus! {

/// Jumps left before touching ground again, and whether a smash down is under way.
#[derive(Clone, Copy, PartialEq, Eq, Debug, Structural)]
pub struct JumpState {
    pub jumps_remaining: u32,
    pub max_jumps: u32,
    pub is_smashing: bool,
}

impl Default for JumpState {
    /// Two jumps (a jump and a double jump), no smash.
    fn default() -> (res: JumpState)
        ensures
            res == (JumpState { jumps_remaining: 2, max_jumps: 2, is_smashing: false }),
    {
        JumpState { jumps_remaining: 2, max_jumps: 2, is_smashing: false }
    }
}

/// What the jump keys do to the player's vertical speed.
#[derive(Clone, Copy, PartialEq, Eq, Debug, Structural)]
pub enum JumpAction {
    /// Fall at smash-down speed.
    Smash,
    /// Rise at jump speed; `double` says this is the second jump ("Airborne").
    Jump { double: bool },
    /// Leave the speed alone.
    Nothing,
}

/// One frame of the jump keys: down in the air starts a smash down; otherwise up,
/// with a jump left and no smash under way, jumps.
pub open spec fn jump_next(js: JumpState, in_air: bool, down_pressed: bool, up_pressed: bool) -> (
    JumpState,
    JumpAction,
) {
    if down_pressed && in_air {
        (JumpState { is_smashing: true, ..js }, JumpAction::Smash)
    } else if up_pressed && js.jumps_remaining > 0 && !js.is_smashing {
        (
            JumpState { jumps_remaining: (js.jumps_remaining - 1) as u32, ..js },
            JumpAction::Jump { double: js.jumps_remaining == 1 },
        )
    } else {
        (js, JumpAction::Nothing)
    }
}

pub fn jump_step(js: &mut JumpState, in_air: bool, down_pressed: bool, up_pressed: bool) -> (res:
    JumpAction)
    ensures
        (*final(js), res) == jump_next(*old(js), in_air, down_pressed, up_pressed),
{
    if down_pressed && in_air {
        js.is_smashing = true;
        JumpAction::Smash
    } else if up_pressed && js.jumps_remaining > 0 && !js.is_smashing {
        let double = js.jumps_remaining == 1;
        js.jumps_remaining = js.jumps_remaining - 1;
        JumpAction::Jump { double }
    } else {
        JumpAction::Nothing
    }
}

/// Touching ground (the floor, or the top of a wall) gives back all jumps and ends a
/// smash down; the air dash also becomes available again.
pub fn land(js: &mut JumpState)
    ensures
        *final(js) == (JumpState {
            jumps_remaining: old(js).max_jumps,
            is_smashing: false,
            ..*old(js)
        }),
{
    js.jumps_remaining = js.max_jumps;
    js.is_smashing = false;
}

/// The first level on which the dash can be used.
pub const DASH_UNLOCK_LEVEL: u32 = 3;

/// Whether a dash starts, and what becomes of the air dash.
#[derive(Clone, Copy, PartialEq, Eq, Debug, Structural)]
pub struct DashStart {
    /// A dash starts this frame ("Speed Daemon").
    pub start: bool,
    /// Whether the one dash allowed in the air has been used.
    pub air_dash_used: bool,
}

/// A requested dash starts from level 3 on, when no dash is under way, and, in the air,
/// only when the air dash has not been used since the last landing.
pub fn dash_decision(
    requested: bool,
    level: u32,
    dash_idle: bool,
    in_air: bool,
    air_dash_used: bool,
) -> (res: DashStart)
    ensures
        res.start == (requested && level >= DASH_UNLOCK_LEVEL && dash_idle && (!in_air
            || !air_dash_used)),
        res.air_dash_used == (air_dash_used || (res.start && in_air)),
{
    let start = requested && level >= DASH_UNLOCK_LEVEL && dash_idle && (!in_air || !air_dash_used);
    DashStart { start, air_dash_used: air_dash_used || (start && in_air) }
}

/// A glitch starts when asked for while none is under way and the cooldown is over;
/// it cancels a smash down.
pub fn glitch_step(js: &mut JumpState, requested: bool, cooldown_over: bool, glitch_idle: bool) -> (res: bool)
    ensures
        res == (requested && cooldown_over && glitch_idle),
        *final(js) == if res {
            JumpState { is_smashing: false, ..*old(js) }
        } else {
            *old(js)
        },
{
    if requested && cooldown_over && glitch_idle {
        js.is_smashing = false;
        true
    } else {
        false
    }
}

/// The jump keys never change how many jumps a landing gives back.
pub proof fn lemma_jumps_keep_max(js: JumpState, in_air: bool, down_pressed: bool, up_pressed: bool)
    ensures
        jump_next(js, in_air, down_pressed, up_pressed).0.max_jumps == js.max_jumps,
{
}

/// After a landing, with the two jumps a player has, up jumps twice before the next
/// landing, the second time being the double jump, and a third press does nothing. A
/// smash down in the air ends the jumps until the next landing.
pub proof fn lemma_double_jump(js: JumpState, a: bool, b: bool, c: bool)
    requires
        js.max_jumps == 2,
        js.jumps_remaining == js.max_jumps,
        !js.is_smashing,
    ensures
        jump_next(js, a, false, true).1 == (JumpAction::Jump { double: false }),
        jump_next(jump_next(js, a, false, true).0, b, false, true).1 == (JumpAction::Jump {
            double: true,
        }),
        jump_next(jump_next(jump_next(js, a, false, true).0, b, false, true).0, c, false, true).1
            == JumpAction::Nothing,
        jump_next(jump_next(js, true, true, false).0, b, false, true).1 == JumpAction::Nothing,
{
}

/// How the player is drawn.
#[derive(Clone, Copy, PartialEq, Eq, Debug, Structural)]
pub enum PlayerLook {
    /// Orange while smashing down.
    Smashing,
    /// Left to the glitch effect.
    Glitching,
    /// Half-transparent red and faint green, alternately, while invulnerable.
    HurtBright,
    HurtFaint,
    /// Lime while dashing.
    Dashing,
    /// Mint.
    Normal,
}

/// The player's colour: smashing, glitching, a flash while invulnerable, dashing, or
/// plain, in that order of precedence.
pub fn player_look(smashing: bool, glitching: bool, invulnerable: bool, flash_on: bool, dashing: bool) -> (res: PlayerLook)
    ensures
        res == if smashing {
            PlayerLook::Smashing
        } else if glitching {
            PlayerLook::Glitching
        } else if invulnerable {
            if flash_on {
                PlayerLook::HurtBright
            } else {
                PlayerLook::HurtFaint
            }
        } else if dashing {
            PlayerLook::Dashing
        } else {
            PlayerLook::Normal
        },
{
    if smashing {
        PlayerLook::Smashing
    } else if glitching {
        PlayerLook::Glitching
    } else if invulnerable {
        if flash_on {
            PlayerLook::HurtBright
        } else {
            PlayerLook::HurtFaint
        }
    } else if dashing {
        PlayerLook::Dashing
    } else {
        PlayerLook::Normal
    }
}

} // verus!
