use vstd::prelude::*;

verus! {

/// RAM, the player's health, in gigabytes.
#[derive(Clone, Copy, PartialEq, Eq, Debug, Structural)]
pub struct RamState {
    pub current: u32,
    pub max: u32,
}

impl Default for RamState {
    /// Six gigabytes out of six.
    fn default() -> (res: RamState)
        ensures
            res == (RamState { current: 6, max: 6 }),
    {
        RamState { current: 6, max: 6 }
    }
}

/// RAM lost to one hit.
pub const RAM_PER_HIT: u32 = 2;

/// RAM left after a hit: two gigabytes less, and never below zero.
pub open spec fn ram_hit(current: u32) -> u32 {
    if current >= RAM_PER_HIT {
        (current - RAM_PER_HIT) as u32
    } else {
        0
    }
}

pub fn ram_after_hit(current: u32) -> (res: u32)
    ensures
        res == ram_hit(current),
{
    if current >= RAM_PER_HIT {
        current - RAM_PER_HIT
    } else {
        0
    }
}

/// The state of the boss that a hit changes.
#[derive(Clone, Copy, PartialEq, Eq, Debug, Structural)]
pub struct BossVitals {
    pub health: u32,
    /// Briefly set after each hit; hits do nothing meanwhile.
    pub invulnerable: bool,
}

/// An enemy (or the boss) as the player's hit box meets it this frame.
#[derive(Clone, Copy, PartialEq, Eq, Debug, Structural)]
pub struct EnemyContact {
    pub destroyed: bool,
    /// The player's hit box overlaps the enemy's.
    pub overlapping: bool,
    /// Present for the boss.
    pub boss: Option<BossVitals>,
}

/// What the player's attack did to one enemy.
#[derive(Clone, Copy, PartialEq, Eq, Debug, Structural)]
pub enum Strike {
    Untouched,
    /// An ordinary enemy is gone.
    Destroyed,
    /// The boss lost one health and turned briefly invulnerable.
    BossDamaged,
    /// The boss lost its last health and is gone; the exit console appears.
    BossDefeated,
}

/// A dash or smash into an enemy: an ordinary enemy is destroyed; the boss, unless
/// invulnerable, loses one health, or is destroyed when that was its last.
pub open spec fn strike(e: EnemyContact) -> (EnemyContact, Strike) {
    match e.boss {
        Some(b) => if b.invulnerable {
            (e, Strike::Untouched)
        } else if b.health > 1 {
            (
                EnemyContact {
                    boss: Some(BossVitals { health: (b.health - 1) as u32, invulnerable: true }),
                    ..e
                },
                Strike::BossDamaged,
            )
        } else {
            (
                EnemyContact {
                    destroyed: true,
                    boss: Some(BossVitals { health: 0, ..b }),
                    ..e
                },
                Strike::BossDefeated,
            )
        },
        None => (EnemyContact { destroyed: true, ..e }, Strike::Destroyed),
    }
}

pub open spec fn untouched(n: nat) -> Seq<Strike> {
    Seq::new(n, |i: int| Strike::Untouched)
}

/// The enemies in order: those destroyed or not touched are skipped; touching one
/// while attacking strikes it; touching one otherwise hurts the player and stops the
/// scan there. Returns the enemies afterwards, what happened to each, and whether the
/// player is hurt.
pub open spec fn contact_scan(es: Seq<EnemyContact>, attacking: bool) -> (
    Seq<EnemyContact>,
    Seq<Strike>,
    bool,
)
    decreases es.len(),
{
    if es.len() == 0 {
        (es, Seq::<Strike>::empty(), false)
    } else {
        let e = es[0];
        let r = contact_scan(es.drop_first(), attacking);
        if e.destroyed || !e.overlapping {
            (seq![e] + r.0, seq![Strike::Untouched] + r.1, r.2)
        } else if attacking {
            (seq![strike(e).0] + r.0, seq![strike(e).1] + r.1, r.2)
        } else {
            (es, untouched(es.len()), true)
        }
    }
}

fn strike_exec(e: EnemyContact) -> (res: (EnemyContact, Strike))
    ensures
        res == strike(e),
{
    match e.boss {
        Some(b) => {
            if b.invulnerable {
                (e, Strike::Untouched)
            } else if b.health > 1 {
                (
                    EnemyContact {
                        boss: Some(BossVitals { health: b.health - 1, invulnerable: true }),
                        ..e
                    },
                    Strike::BossDamaged,
                )
            } else {
                (
                    EnemyContact { destroyed: true, boss: Some(BossVitals { health: 0, ..b }), ..e },
                    Strike::BossDefeated,
                )
            }
        },
        None => (EnemyContact { destroyed: true, ..e }, Strike::Destroyed),
    }
}

proof fn lemma_scan_lengths(es: Seq<EnemyContact>, attacking: bool)
    ensures
        contact_scan(es, attacking).0.len() == es.len(),
        contact_scan(es, attacking).1.len() == es.len(),
    decreases es.len(),
{
    if es.len() > 0 {
        lemma_scan_lengths(es.drop_first(), attacking);
    }
}

/// Meets the enemies in order, as `contact_scan` says; the enemies are updated in place.
pub fn scan_contacts(enemies: &mut Vec<EnemyContact>, attacking: bool) -> (res: (Vec<Strike>, bool))
    ensures
        final(enemies)@ == contact_scan(old(enemies)@, attacking).0,
        res.0@ == contact_scan(old(enemies)@, attacking).1,
        res.1 == contact_scan(old(enemies)@, attacking).2,
{
    let ghost orig = enemies@;
    let n = enemies.len();
    let mut strikes: Vec<Strike> = Vec::new();
    let mut k: usize = 0;
    while k < n
        invariant
            k <= n,
            strikes@ == untouched(k as nat),
        decreases n - k,
    {
        strikes.push(Strike::Untouched);
        assert(strikes@ =~= untouched((k + 1) as nat));
        k = k + 1;
    }
    let mut hurt = false;
    let mut i: usize = 0;
    proof {
        lemma_scan_lengths(orig, attacking);
        assert(orig.skip(0) =~= orig);
        assert(enemies@.take(0) =~= Seq::<EnemyContact>::empty());
        assert(strikes@.take(0) =~= Seq::<Strike>::empty());
    }
    while i < n && !hurt
        invariant
            i <= n == orig.len(),
            enemies@.len() == n,
            strikes@.len() == n,
            !hurt ==> {
                &&& enemies@.skip(i as int) == orig.skip(i as int)
                &&& strikes@.skip(i as int) == untouched((n - i) as nat)
                &&& contact_scan(orig, attacking) == (
                    enemies@.take(i as int) + contact_scan(orig.skip(i as int), attacking).0,
                    strikes@.take(i as int) + contact_scan(orig.skip(i as int), attacking).1,
                    contact_scan(orig.skip(i as int), attacking).2,
                )
            },
            hurt ==> contact_scan(orig, attacking) == (enemies@, strikes@, true),
        decreases n - i, if hurt { 0int } else { 1int },
    {
        let e = enemies[i];
        let ghost tail = orig.skip(i as int);
        proof {
            assert(tail[0] == orig[i as int]);
            assert(enemies@.skip(i as int)[0] == enemies@[i as int]);
            assert(tail.drop_first() =~= orig.skip(i + 1));
            lemma_scan_lengths(tail.drop_first(), attacking);
        }
        if e.destroyed || !e.overlapping {
            proof {
                assert(enemies@.take(i + 1) =~= enemies@.take(i as int).push(e));
                assert(strikes@.take(i + 1) =~= strikes@.take(i as int).push(Strike::Untouched)) by {
                    assert(strikes@.skip(i as int)[0] == strikes@[i as int]);
                }
                assert(enemies@.skip(i + 1) =~= orig.skip(i + 1)) by {
                    assert(enemies@.skip(i as int).drop_first() =~= enemies@.skip(i + 1));
                }
                assert(strikes@.skip(i + 1) =~= untouched((n - i - 1) as nat)) by {
                    assert forall|j: int| 0 <= j < n - i - 1 implies #[trigger] strikes@.skip(i + 1)[j]
                        == Strike::Untouched by {
                        assert(strikes@.skip(i + 1)[j] == strikes@.skip(i as int)[j + 1]);
                    }
                }
                let r = contact_scan(orig.skip(i + 1), attacking);
                assert(enemies@.take(i as int) + (seq![e] + r.0) =~= enemies@.take(i + 1) + r.0);
                assert(strikes@.take(i as int) + (seq![Strike::Untouched] + r.1) =~= strikes@.take(
                    i + 1,
                ) + r.1);
            }
            i = i + 1;
        } else if attacking {
            let (e2, st) = strike_exec(e);
            let ghost pre_e = enemies@;
            let ghost pre_s = strikes@;
            enemies.set(i, e2);
            strikes.set(i, st);
            proof {
                assert(enemies@.take(i + 1) =~= pre_e.take(i as int).push(e2));
                assert(strikes@.take(i + 1) =~= pre_s.take(i as int).push(st));
                assert(pre_e.skip(i as int)[0] == pre_e[i as int]);
                assert(enemies@.skip(i + 1) =~= orig.skip(i + 1)) by {
                    assert forall|j: int| 0 <= j < n - i - 1 implies #[trigger] enemies@.skip(i + 1)[j]
                        == orig.skip(i + 1)[j] by {
                        assert(enemies@.skip(i + 1)[j] == pre_e[i + 1 + j]);
                        assert(pre_e.skip(i as int)[j + 1] == pre_e[i + 1 + j]);
                    }
                }
                assert(strikes@.skip(i + 1) =~= untouched((n - i - 1) as nat)) by {
                    assert forall|j: int| 0 <= j < n - i - 1 implies #[trigger] strikes@.skip(i + 1)[j]
                        == Strike::Untouched by {
                        assert(strikes@.skip(i + 1)[j] == pre_s[i + 1 + j]);
                        assert(pre_s.skip(i as int)[j + 1] == pre_s[i + 1 + j]);
                    }
                }
                let r = contact_scan(orig.skip(i + 1), attacking);
                assert(enemies@.take(i + 1) + r.0 =~= pre_e.take(i as int) + (seq![strike(e).0]
                    + r.0));
                assert(strikes@.take(i + 1) + r.1 =~= pre_s.take(i as int) + (seq![strike(e).1]
                    + r.1));
            }
            i = i + 1;
        } else {
            hurt = true;
            proof {
                assert(contact_scan(tail, attacking) == (tail, untouched(tail.len()), true));
                assert(enemies@ =~= enemies@.take(i as int) + tail);
                assert(strikes@ =~= strikes@.take(i as int) + untouched(tail.len()));
            }
        }
    }
    proof {
        if !hurt {
            assert(orig.skip(n as int) =~= Seq::<EnemyContact>::empty());
            assert(enemies@.take(n as int) =~= enemies@);
            assert(strikes@.take(n as int) =~= strikes@);
            assert(contact_scan(orig.skip(n as int), attacking).0 =~= Seq::<EnemyContact>::empty());
            assert(enemies@ + Seq::<EnemyContact>::empty() =~= enemies@);
            assert(strikes@ + Seq::<Strike>::empty() =~= strikes@);
        }
    }
    (strikes, hurt)
}

/// What the player's hit box meets this frame (worked out from positions by the caller).
#[derive(Clone, Copy, PartialEq, Eq, Debug, Structural)]
pub struct Hazards {
    /// The player fell far below the floor.
    pub fell_into_void: bool,
    /// A glitch is under way.
    pub glitching: bool,
    /// A glitch ended this frame.
    pub glitch_just_ended: bool,
    /// The player overlaps a spike.
    pub on_spike: bool,
    /// The player overlaps a wall.
    pub in_wall: bool,
    /// The player overlaps a firing laser.
    pub in_laser: bool,
    /// A dash or smash down is under way.
    pub attacking: bool,
    /// The player was hit less than a second ago.
    pub invulnerable: bool,
}

/// What the frame does to the player.
#[derive(Clone, Copy, PartialEq, Eq, Debug, Structural)]
pub struct DamageOutcome {
    /// RAM afterwards.
    pub ram: u32,
    /// The player was hit: a second of invulnerability starts.
    pub hit: bool,
    /// The system crashed: the crash is counted and the crash screen shown.
    pub crashed: bool,
}

/// Whether the player is hurt this frame: by a spike (not while glitching), by ending a
/// glitch inside a wall, by touching an enemy without attacking (not while glitching),
/// or by a firing laser (not while glitching).
pub open spec fn hurt_by(h: Hazards, enemy_hurt: bool) -> bool {
    let spike = !h.glitching && h.on_spike;
    let wall = h.glitch_just_ended && h.in_wall;
    let enemy = !h.glitching && enemy_hurt;
    let laser = !h.glitching && h.in_laser;
    spike || wall || enemy || laser
}

/// The player's damage for one frame. Falling into the void crashes the system at once
/// and leaves the enemies alone. Otherwise the enemies are met (unless glitching), and a
/// hurt player who is not invulnerable loses RAM; running out of RAM crashes the system.
pub open spec fn damage_next(ram: u32, h: Hazards, es: Seq<EnemyContact>) -> (
    DamageOutcome,
    Seq<EnemyContact>,
    Seq<Strike>,
) {
    if h.fell_into_void {
        (DamageOutcome { ram: 0, hit: false, crashed: true }, es, untouched(es.len()))
    } else {
        let scan = if h.glitching {
            (es, untouched(es.len()), false)
        } else {
            contact_scan(es, h.attacking)
        };
        if hurt_by(h, scan.2) && !h.invulnerable {
            let r = ram_hit(ram);
            (DamageOutcome { ram: r, hit: true, crashed: r == 0 }, scan.0, scan.1)
        } else {
            (DamageOutcome { ram, hit: false, crashed: false }, scan.0, scan.1)
        }
    }
}

fn untouched_vec(n: usize) -> (res: Vec<Strike>)
    ensures
        res@ == untouched(n as nat),
{
    let mut v: Vec<Strike> = Vec::new();
    let mut k: usize = 0;
    while k < n
        invariant
            k <= n,
            v@ == untouched(k as nat),
        decreases n - k,
    {
        v.push(Strike::Untouched);
        assert(v@ =~= untouched((k + 1) as nat));
        k = k + 1;
    }
    v
}

/// One frame of damage, as `damage_next` says: the enemies are updated in place and
/// what happened to each is returned beside the player's outcome.
pub fn handle_damage(ram: u32, hazards: Hazards, enemies: &mut Vec<EnemyContact>) -> (res: (
    DamageOutcome,
    Vec<Strike>,
))
    ensures
        (res.0, final(enemies)@, res.1@) == damage_next(ram, hazards, old(enemies)@),
{
    if hazards.fell_into_void {
        let s = untouched_vec(enemies.len());
        return (DamageOutcome { ram: 0, hit: false, crashed: true }, s);
    }
    let (strikes, enemy_hurt) = if hazards.glitching {
        (untouched_vec(enemies.len()), false)
    } else {
        scan_contacts(enemies, hazards.attacking)
    };
    let spike = !hazards.glitching && hazards.on_spike;
    let wall = hazards.glitch_just_ended && hazards.in_wall;
    let enemy = !hazards.glitching && enemy_hurt;
    let laser = !hazards.glitching && hazards.in_laser;
    if (spike || wall || enemy || laser) && !hazards.invulnerable {
        let r = ram_after_hit(ram);
        (DamageOutcome { ram: r, hit: true, crashed: r == 0 }, strikes)
    } else {
        (DamageOutcome { ram, hit: false, crashed: false }, strikes)
    }
}

/// While a glitch is under way (and not just ending), nothing but a fall hurts the
/// player, and no enemy is touched.
pub proof fn lemma_glitch_protects(ram: u32, h: Hazards, es: Seq<EnemyContact>)
    requires
        h.glitching,
        !h.glitch_just_ended,
        !h.fell_into_void,
    ensures
        damage_next(ram, h, es).0 == (DamageOutcome { ram, hit: false, crashed: false }),
        damage_next(ram, h, es).1 == es,
{
}

/// While invulnerable after a hit, the player loses no RAM and cannot crash, except by
/// falling into the void.
pub proof fn lemma_invulnerable_no_loss(ram: u32, h: Hazards, es: Seq<EnemyContact>)
    requires
        h.invulnerable,
        !h.fell_into_void,
    ensures
        damage_next(ram, h, es).0.ram == ram,
        !damage_next(ram, h, es).0.crashed,
{
}

/// A firing laser always costs RAM when it is met outside a glitch, without
/// invulnerability and above the void, whether or not the player is dashing or
/// smashing: two gigabytes go (never below zero), the hit starts invulnerability, and
/// the system crashes exactly when no RAM is left.
pub proof fn lemma_laser_always_hurts(ram: u32, h: Hazards, es: Seq<EnemyContact>, attacking: bool)
    requires
        h.in_laser,
        !h.glitching,
        !h.invulnerable,
        !h.fell_into_void,
    ensures
        damage_next(ram, h, es).0.hit,
        damage_next(ram, h, es).0.ram == if ram >= 2 {
            ram - 2
        } else {
            0
        },
        damage_next(ram, h, es).0.crashed == (ram <= 2),
        damage_next(ram, Hazards { attacking, ..h }, es).0 == damage_next(ram, h, es).0,
{
}

/// An enemy already destroyed (or a boss already defeated) is passed over by every
/// scan, attacking or not: its record stays as it was and nothing strikes it.
pub proof fn lemma_destroyed_untouched(es: Seq<EnemyContact>, attacking: bool, i: int)
    requires
        0 <= i < es.len(),
        es[i].destroyed,
    ensures
        contact_scan(es, attacking).0.len() == es.len(),
        contact_scan(es, attacking).1.len() == es.len(),
        contact_scan(es, attacking).0[i] == es[i],
        contact_scan(es, attacking).1[i] == Strike::Untouched,
    decreases es.len(),
{
    lemma_scan_lengths(es, attacking);
    let e = es[0];
    let t = es.drop_first();
    lemma_scan_lengths(t, attacking);
    if i > 0 {
        assert(t[i - 1] == es[i]);
        lemma_destroyed_untouched(t, attacking, i - 1);
    }
    let r = contact_scan(t, attacking);
    if e.destroyed || !e.overlapping {
        if i > 0 {
            assert((seq![e] + r.0)[i] == r.0[i - 1]);
            assert((seq![Strike::Untouched] + r.1)[i] == r.1[i - 1]);
        }
    } else if attacking {
        assert(i > 0);
        assert((seq![strike(e).0] + r.0)[i] == r.0[i - 1]);
        assert((seq![strike(e).1] + r.1)[i] == r.1[i - 1]);
    } else {
        assert(untouched(es.len())[i] == Strike::Untouched);
    }
}

/// Attacking (dashing or smashing down) into enemies never hurts the player.
pub proof fn lemma_attack_is_safe(es: Seq<EnemyContact>)
    ensures
        !contact_scan(es, true).2,
    decreases es.len(),
{
    if es.len() > 0 {
        lemma_attack_is_safe(es.drop_first());
    }
}

/// A hit costs two gigabytes and RAM never drops below zero, so RAM of at most six
/// gigabytes (the full RAM) is gone after at most three hits, and RAM above two
/// survives a hit.
pub proof fn lemma_three_hits_crash(current: u32)
    requires
        current <= 6,
    ensures
        ram_hit(current) <= current,
        current >= RAM_PER_HIT ==> ram_hit(current) == current - RAM_PER_HIT,
        current > RAM_PER_HIT ==> ram_hit(current) > 0,
        ram_hit(ram_hit(ram_hit(current))) == 0,
{
}

/// Each strike on a boss that is not invulnerable takes exactly one health, and the
/// last one destroys it: a boss with `h` health falls to the `h`-th such strike.
pub proof fn lemma_boss_strike(e: EnemyContact, b: BossVitals)
    requires
        e.boss == Some(b),
        !b.invulnerable,
        b.health >= 1,
    ensures
        strike(e).0.boss == Some(
            BossVitals { health: (b.health - 1) as u32, invulnerable: b.health > 1 },
        ),
        strike(e).0.destroyed == (b.health == 1 || e.destroyed),
        strike(e).1 == if b.health == 1 {
            Strike::BossDefeated
        } else {
            Strike::BossDamaged
        },
{
}

} // verus!
