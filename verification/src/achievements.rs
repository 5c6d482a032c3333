use vstd::prelude::*;
use crate::text::{
    bool_text, chars_equal, chars_of, decimal, join, lemma_bool_text, lemma_decimal_plain,
    lemma_join_ends, lemma_join_seven, lemma_parse_decimal, lemma_split_join, lemma_trim_plain,
    parse_bool, parse_bool_chars, parse_u32, parse_u32_chars, push_bool, push_comma,
    push_comma_bool, push_decimal, split, split_chars, trim, trim_chars,
};

verus! {

/// The achievements a player has earned, and how many times they have crashed.
#[derive(Clone, Copy, PartialEq, Eq, Debug, Structural)]
pub struct Achievements {
    pub phase_shift: bool,
    pub turbo_charged: bool,
    pub airborne: bool,
    pub system_crash: bool,
    pub speed_daemon: bool,
    pub better_call_tech_support: bool,
    pub death_count: u32,
}

/// One achievement.
#[derive(Clone, Copy, PartialEq, Eq, Debug, Structural)]
pub enum AchievementKind {
    PhaseShift,
    TurboCharged,
    Airborne,
    SystemCrash,
    SpeedDaemon,
    BetterCallTechSupport,
}

/// The name by which the game asks for an achievement to be unlocked.
pub open spec fn kind_of_name(name: Seq<char>) -> Option<AchievementKind> {
    if name == "phase_shift"@ {
        Some(AchievementKind::PhaseShift)
    } else if name == "turbo_charged"@ {
        Some(AchievementKind::TurboCharged)
    } else if name == "airborne"@ {
        Some(AchievementKind::Airborne)
    } else if name == "system_crash"@ {
        Some(AchievementKind::SystemCrash)
    } else if name == "speed_daemon"@ {
        Some(AchievementKind::SpeedDaemon)
    } else if name == "better_call_tech_support"@ {
        Some(AchievementKind::BetterCallTechSupport)
    } else {
        None
    }
}

impl AchievementKind {
    /// The achievement that a name stands for, if any.
    pub fn from_name(name: &str) -> (res: Option<AchievementKind>)
        ensures
            res == kind_of_name(name@),
    {
        let c = chars_of(name);
        if chars_equal(&c, "phase_shift") {
            Some(AchievementKind::PhaseShift)
        } else if chars_equal(&c, "turbo_charged") {
            Some(AchievementKind::TurboCharged)
        } else if chars_equal(&c, "airborne") {
            Some(AchievementKind::Airborne)
        } else if chars_equal(&c, "system_crash") {
            Some(AchievementKind::SystemCrash)
        } else if chars_equal(&c, "speed_daemon") {
            Some(AchievementKind::SpeedDaemon)
        } else if chars_equal(&c, "better_call_tech_support") {
            Some(AchievementKind::BetterCallTechSupport)
        } else {
            None
        }
    }

    /// The title shown on the toast when the achievement is unlocked.
    pub fn title(&self) -> (res: &'static str)
        ensures
            res@ == match *self {
                AchievementKind::PhaseShift => "Phase Shift"@,
                AchievementKind::TurboCharged => "Turbo Charged"@,
                AchievementKind::Airborne => "Airborne"@,
                AchievementKind::SystemCrash => "System Crash"@,
                AchievementKind::SpeedDaemon => "Speed Daemon"@,
                AchievementKind::BetterCallTechSupport => "Better Call Tech Support!"@,
            },
    {
        match self {
            AchievementKind::PhaseShift => "Phase Shift",
            AchievementKind::TurboCharged => "Turbo Charged",
            AchievementKind::Airborne => "Airborne",
            AchievementKind::SystemCrash => "System Crash",
            AchievementKind::SpeedDaemon => "Speed Daemon",
            AchievementKind::BetterCallTechSupport => "Better Call Tech Support!",
        }
    }

    /// The description shown on the toast when the achievement is unlocked.
    pub fn description(&self) -> (res: &'static str)
        ensures
            res@ == match *self {
                AchievementKind::PhaseShift => "Glitch through a wall or spike."@,
                AchievementKind::TurboCharged => "Activate CPU Overclock."@,
                AchievementKind::Airborne => "Perform a double jump."@,
                AchievementKind::SystemCrash => "Deplete memory to 0GB."@,
                AchievementKind::SpeedDaemon => "Perform a horizontal dash."@,
                AchievementKind::BetterCallTechSupport => "Die ten times."@,
            },
    {
        match self {
            AchievementKind::PhaseShift => "Glitch through a wall or spike.",
            AchievementKind::TurboCharged => "Activate CPU Overclock.",
            AchievementKind::Airborne => "Perform a double jump.",
            AchievementKind::SystemCrash => "Deplete memory to 0GB.",
            AchievementKind::SpeedDaemon => "Perform a horizontal dash.",
            AchievementKind::BetterCallTechSupport => "Die ten times.",
        }
    }
}

/// Crashes that earn "Better Call Tech Support!".
pub const TECH_SUPPORT_DEATHS: u32 = 10;

impl Achievements {
    /// Nothing earned, no crashes.
    pub open spec fn none() -> Achievements {
        Achievements {
            phase_shift: false,
            turbo_charged: false,
            airborne: false,
            system_crash: false,
            speed_daemon: false,
            better_call_tech_support: false,
            death_count: 0,
        }
    }

    /// Whether an achievement has been earned.
    pub open spec fn has(self, k: AchievementKind) -> bool {
        match k {
            AchievementKind::PhaseShift => self.phase_shift,
            AchievementKind::TurboCharged => self.turbo_charged,
            AchievementKind::Airborne => self.airborne,
            AchievementKind::SystemCrash => self.system_crash,
            AchievementKind::SpeedDaemon => self.speed_daemon,
            AchievementKind::BetterCallTechSupport => self.better_call_tech_support,
        }
    }

    /// The same record with one achievement earned.
    pub open spec fn with(self, k: AchievementKind) -> Achievements {
        match k {
            AchievementKind::PhaseShift => Achievements { phase_shift: true, ..self },
            AchievementKind::TurboCharged => Achievements { turbo_charged: true, ..self },
            AchievementKind::Airborne => Achievements { airborne: true, ..self },
            AchievementKind::SystemCrash => Achievements { system_crash: true, ..self },
            AchievementKind::SpeedDaemon => Achievements { speed_daemon: true, ..self },
            AchievementKind::BetterCallTechSupport => Achievements {
                better_call_tech_support: true,
                ..self
            },
        }
    }

    /// Whether an achievement has been earned.
    pub fn is_unlocked(&self, k: AchievementKind) -> (res: bool)
        ensures
            res == self.has(k),
    {
        match k {
            AchievementKind::PhaseShift => self.phase_shift,
            AchievementKind::TurboCharged => self.turbo_charged,
            AchievementKind::Airborne => self.airborne,
            AchievementKind::SystemCrash => self.system_crash,
            AchievementKind::SpeedDaemon => self.speed_daemon,
            AchievementKind::BetterCallTechSupport => self.better_call_tech_support,
        }
    }

    /// Earns an achievement. Returns `true` when it was not earned before, that is,
    /// when the record changed and must be saved and announced.
    pub fn unlock(&mut self, k: AchievementKind) -> (newly: bool)
        ensures
            newly == !old(self).has(k),
            *final(self) == old(self).with(k),
    {
        if self.is_unlocked(k) {
            assert(*self == self.with(k));
            return false;
        }
        match k {
            AchievementKind::PhaseShift => self.phase_shift = true,
            AchievementKind::TurboCharged => self.turbo_charged = true,
            AchievementKind::Airborne => self.airborne = true,
            AchievementKind::SystemCrash => self.system_crash = true,
            AchievementKind::SpeedDaemon => self.speed_daemon = true,
            AchievementKind::BetterCallTechSupport => self.better_call_tech_support = true,
        }
        true
    }
}

impl Default for Achievements {
    fn default() -> (res: Achievements)
        ensures
            res == Achievements::none(),
    {
        Achievements {
            phase_shift: false,
            turbo_charged: false,
            airborne: false,
            system_crash: false,
            speed_daemon: false,
            better_call_tech_support: false,
            death_count: 0,
        }
    }
}

/// Unlocks the achievement named `achievement_type`. An unknown name changes nothing.
/// Returns the achievement when it was newly earned: the caller then saves the record
/// and shows a toast with its title and description.
pub fn unlock_achievement(achievements: &mut Achievements, achievement_type: &str) -> (res:
    Option<AchievementKind>)
    ensures
        match kind_of_name(achievement_type@) {
            None => res is None && *final(achievements) == *old(achievements),
            Some(k) => if old(achievements).has(k) {
                res is None && *final(achievements) == *old(achievements)
            } else {
                res == Some(k) && *final(achievements) == old(achievements).with(k)
            },
        },
{
    match AchievementKind::from_name(achievement_type) {
        None => None,
        Some(k) => {
            if achievements.unlock(k) {
                Some(k)
            } else {
                None
            }
        },
    }
}

/// Earning is for good and happens once: an earned achievement stays earned whatever
/// else is earned, earning one again changes nothing, and the crash count is untouched.
pub proof fn lemma_unlock_laws(a: Achievements, k: AchievementKind, j: AchievementKind)
    ensures
        a.with(k).has(k),
        a.has(j) ==> a.with(k).has(j),
        j != k ==> a.with(k).has(j) == a.has(j),
        a.with(k).with(k) == a.with(k),
        a.has(k) ==> a.with(k) == a,
        a.with(k).death_count == a.death_count,
{
}

/// What a crash (RAM down to zero, or a fall into the void) does to the record.
pub open spec fn after_crash(a: Achievements) -> Achievements {
    let counted = Achievements { death_count: (a.death_count + 1) as u32, ..a };
    let crashed = counted.with(AchievementKind::SystemCrash);
    if counted.death_count >= TECH_SUPPORT_DEATHS {
        crashed.with(AchievementKind::BetterCallTechSupport)
    } else {
        crashed
    }
}

/// The announcements a crash makes.
pub struct CrashOutcome {
    /// "System Crash" was earned just now.
    pub system_crash_unlocked: bool,
    /// "Better Call Tech Support!" was earned just now.
    pub tech_support_unlocked: bool,
}

/// Counts a crash and earns the achievements it gives: "System Crash" always, and
/// "Better Call Tech Support!" once ten crashes have been counted. The caller saves
/// the record after counting and again for each achievement earned, and shows a
/// toast for each.
pub fn record_crash(achievements: &mut Achievements) -> (res: CrashOutcome)
    requires
        old(achievements).death_count < u32::MAX,
    ensures
        *final(achievements) == after_crash(*old(achievements)),
        res.system_crash_unlocked == !old(achievements).system_crash,
        res.tech_support_unlocked == (!old(achievements).better_call_tech_support
            && old(achievements).death_count + 1 >= TECH_SUPPORT_DEATHS),
{
    achievements.death_count = achievements.death_count + 1;
    let system_crash_unlocked = achievements.unlock(AchievementKind::SystemCrash);
    let tech_support_unlocked = if achievements.death_count >= TECH_SUPPORT_DEATHS {
        achievements.unlock(AchievementKind::BetterCallTechSupport)
    } else {
        false
    };
    CrashOutcome { system_crash_unlocked, tech_support_unlocked }
}

// ---------------------------------------------------------------------------
// The achievements file
// ---------------------------------------------------------------------------

/// The fields of the achievements file, in order.
pub open spec fn achievement_fields(a: Achievements) -> Seq<Seq<char>> {
    seq![
        bool_text(a.phase_shift),
        bool_text(a.turbo_charged),
        bool_text(a.airborne),
        bool_text(a.system_crash),
        bool_text(a.speed_daemon),
        bool_text(a.better_call_tech_support),
        decimal(a.death_count as nat),
    ]
}

/// The text of the achievements file: the seven fields separated by commas.
pub open spec fn achievements_text_of(a: Achievements) -> Seq<char> {
    join(achievement_fields(a), ',')
}

pub open spec fn bool_or(v: Option<bool>, d: bool) -> bool {
    match v {
        Some(b) => b,
        None => d,
    }
}

pub open spec fn u32_or(v: Option<u32>, d: u32) -> u32 {
    match v {
        Some(n) => n,
        None => d,
    }
}

/// What loading reads from the text of the achievements file: with fewer than five
/// fields nothing is earned; each field that does not parse counts as not earned
/// (or zero crashes); the last two fields are read only when there are seven or more.
pub open spec fn achievements_of_text(c: Seq<char>) -> Achievements {
    let p = split(trim(c), ',');
    if p.len() >= 5 {
        Achievements {
            phase_shift: bool_or(parse_bool(p[0]), false),
            turbo_charged: bool_or(parse_bool(p[1]), false),
            airborne: bool_or(parse_bool(p[2]), false),
            system_crash: bool_or(parse_bool(p[3]), false),
            speed_daemon: bool_or(parse_bool(p[4]), false),
            better_call_tech_support: if p.len() >= 7 {
                bool_or(parse_bool(p[5]), false)
            } else {
                false
            },
            death_count: if p.len() >= 7 {
                u32_or(parse_u32(p[6]), 0)
            } else {
                0
            },
        }
    } else {
        Achievements::none()
    }
}

impl Achievements {
    /// The text that saving writes to the achievements file.
    pub fn to_text(&self) -> (res: String)
        ensures
            res@ == achievements_text_of(*self),
    {
        let ghost f = achievement_fields(*self);
        let mut out = String::new();
        push_bool(&mut out, self.phase_shift);
        assert(out@ =~= f[0]);
        let ghost s1 = out@;
        push_comma_bool(&mut out, self.turbo_charged);
        let ghost s2 = out@;
        push_comma_bool(&mut out, self.airborne);
        let ghost s3 = out@;
        push_comma_bool(&mut out, self.system_crash);
        let ghost s4 = out@;
        push_comma_bool(&mut out, self.speed_daemon);
        let ghost s5 = out@;
        push_comma_bool(&mut out, self.better_call_tech_support);
        let ghost s6 = out@;
        push_comma(&mut out);
        push_decimal(&mut out, self.death_count);
        assert(out@ =~= s6 + seq![','] + f[6]);
        proof {
            lemma_join_seven(f, s1, s2, s3, s4, s5, s6, out@);
        }
        out
    }

    /// What loading finds in the text of the achievements file.
    pub fn from_text(content: &str) -> (res: Achievements)
        ensures
            res == achievements_of_text(content@),
    {
        let c = chars_of(content);
        let t = trim_chars(&c);
        let p = split_chars(&t, ',');
        if p.len() >= 5 {
            let better_call_tech_support = if p.len() >= 7 {
                match parse_bool_chars(&p[5]) {
                    Some(b) => b,
                    None => false,
                }
            } else {
                false
            };
            let death_count = if p.len() >= 7 {
                match parse_u32_chars(&p[6]) {
                    Some(n) => n,
                    None => 0,
                }
            } else {
                0
            };
            Achievements {
                phase_shift: match parse_bool_chars(&p[0]) {
                    Some(b) => b,
                    None => false,
                },
                turbo_charged: match parse_bool_chars(&p[1]) {
                    Some(b) => b,
                    None => false,
                },
                airborne: match parse_bool_chars(&p[2]) {
                    Some(b) => b,
                    None => false,
                },
                system_crash: match parse_bool_chars(&p[3]) {
                    Some(b) => b,
                    None => false,
                },
                speed_daemon: match parse_bool_chars(&p[4]) {
                    Some(b) => b,
                    None => false,
                },
                better_call_tech_support,
                death_count,
            }
        } else {
            Achievements::default()
        }
    }
}

/// Loading the achievements file gives back exactly the record that was saved.
pub proof fn lemma_achievements_roundtrip(a: Achievements)
    ensures
        achievements_of_text(achievements_text_of(a)) == a,
{
    let f = achievement_fields(a);
    lemma_bool_text(a.phase_shift);
    lemma_bool_text(a.turbo_charged);
    lemma_bool_text(a.airborne);
    lemma_bool_text(a.system_crash);
    lemma_bool_text(a.speed_daemon);
    lemma_bool_text(a.better_call_tech_support);
    lemma_decimal_plain(a.death_count as nat);
    lemma_parse_decimal(a.death_count);
    assert forall|i: int| 0 <= i < f.len() implies !(#[trigger] f[i]).contains(',') && f[i].len()
        >= 1 by {
        if i == 0 { assert(f[i] == bool_text(a.phase_shift)); }
        else if i == 1 { assert(f[i] == bool_text(a.turbo_charged)); }
        else if i == 2 { assert(f[i] == bool_text(a.airborne)); }
        else if i == 3 { assert(f[i] == bool_text(a.system_crash)); }
        else if i == 4 { assert(f[i] == bool_text(a.speed_daemon)); }
        else if i == 5 { assert(f[i] == bool_text(a.better_call_tech_support)); }
        else { assert(f[i] == decimal(a.death_count as nat)); }
    }
    lemma_join_ends(f, ',');
    assert(f.last() == decimal(a.death_count as nat));
    lemma_trim_plain(join(f, ','));
    lemma_split_join(f, ',');
}


// ---------------------------------------------------------------------------
// The achievements screen
// ---------------------------------------------------------------------------

/// One line of the achievements screen: a box ticked when earned, the name and what
/// earns it.
pub open spec fn screen_line(unlocked: bool, name: Seq<char>, desc: Seq<char>) -> Seq<char> {
    (if unlocked {
        "[X] "@
    } else {
        "[ ] "@
    }) + name + ": "@ + desc
}

/// The crash count shown beside "Better Call Tech Support!", which stops at ten.
pub open spec fn progress_of(deaths: u32) -> u32 {
    if deaths < TECH_SUPPORT_DEATHS {
        deaths
    } else {
        TECH_SUPPORT_DEATHS
    }
}

/// The six lines of the achievements screen, in order.
pub open spec fn screen_lines_of(a: Achievements) -> Seq<(bool, Seq<char>)> {
    seq![
        (a.phase_shift, screen_line(a.phase_shift, "PHASE SHIFT"@, "Glitch through a wall or spike."@)),
        (a.turbo_charged, screen_line(a.turbo_charged, "TURBO CHARGED"@, "Activate CPU Overclock."@)),
        (a.airborne, screen_line(a.airborne, "AIRBORNE"@, "Perform a double jump."@)),
        (a.system_crash, screen_line(a.system_crash, "SYSTEM CRASH"@, "Deplete memory to 0GB."@)),
        (a.speed_daemon, screen_line(a.speed_daemon, "SPEED DAEMON"@, "Perform a horizontal dash."@)),
        (
            a.better_call_tech_support,
            screen_line(
                a.better_call_tech_support,
                "BETTER CALL TECH SUPPORT!"@,
                "Die ten times (Progress: "@ + decimal(progress_of(a.death_count) as nat) + "/10)."@,
            ),
        ),
    ]
}

fn line_text(unlocked: bool, name: &str, desc: &str) -> (res: String)
    ensures
        res@ == screen_line(unlocked, name@, desc@),
{
    let mut out = String::new();
    if unlocked {
        out.append("[X] ");
    } else {
        out.append("[ ] ");
    }
    out.append(name);
    out.append(": ");
    out.append(desc);
    out
}

impl Achievements {
    /// The lines of the achievements screen, each with whether it is earned.
    pub fn screen_lines(&self) -> (res: Vec<(bool, String)>)
        ensures
            res@.len() == 6,
            forall|i: int| 0 <= i < 6 ==> (#[trigger] res@[i]).0 == screen_lines_of(*self)[i].0
                && res@[i].1@ == screen_lines_of(*self)[i].1,
    {
        let progress = if self.death_count < TECH_SUPPORT_DEATHS {
            self.death_count
        } else {
            TECH_SUPPORT_DEATHS
        };
        let mut desc = String::new();
        desc.append("Die ten times (Progress: ");
        push_decimal(&mut desc, progress);
        desc.append("/10).");
        let mut v: Vec<(bool, String)> = Vec::new();
        v.push((self.phase_shift, line_text(self.phase_shift, "PHASE SHIFT", "Glitch through a wall or spike.")));
        v.push((self.turbo_charged, line_text(self.turbo_charged, "TURBO CHARGED", "Activate CPU Overclock.")));
        v.push((self.airborne, line_text(self.airborne, "AIRBORNE", "Perform a double jump.")));
        v.push((self.system_crash, line_text(self.system_crash, "SYSTEM CRASH", "Deplete memory to 0GB.")));
        v.push((self.speed_daemon, line_text(self.speed_daemon, "SPEED DAEMON", "Perform a horizontal dash.")));
        v.push(
            (
                self.better_call_tech_support,
                line_text(self.better_call_tech_support, "BETTER CALL TECH SUPPORT!", desc.as_str()),
            ),
        );
        v
    }
}

} // verus!
