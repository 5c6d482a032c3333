# Code-Termination

A 2D platformer about a process breaking out of a hostile system: run, jump,
glitch through firewalls, push the CPU clock up or down, dash through enemies,
and beat the core's guardian on the fourth level.

## Layout

- `src/` is the game's rule book, verified with Verus: every decision the game
  makes on plain values, each with a contract.
  - `text.rs`: trimming, splitting, decimal numbers and booleans as the save
    files write and read them.
  - `achievements.rs`, `savegame.rs`: the achievements record and the saved
    game, with their file formats; reading back what was written is proved.
  - `menu.rs`, `state.rs`: menu navigation (keyboard, gamepad, pointer) and the
    screens that buttons lead to.
  - `clock.rs`, `player.rs`, `combat.rs`, `boss.rs`, `level.rs`: the CPU clock,
    jumping, dashing and glitching, damage and attacks, the boss's attack cycle,
    the level layouts and the progression through the levels.
  - `updater.rs`: what the start-up update check reads from its replies.
- `app/` is the game itself on the Bevy engine: windows, input, sprites, timers
  and positions (floating point), files and the network. It measures the world,
  asks the library what happens, and draws the answer.
- `tests/` runs the library on concrete cases.
