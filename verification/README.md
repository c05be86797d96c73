# pill_bench

Verified bookkeeping for three 60k-pill rendering benchmarks (Bevy, Fyrox and
Pill Engine).

- `src/settings.rs`: the optional count settings (pill count, spawn batch size,
  material count) parsed from text, with their defaults.
- `src/spawning.rs`: the batch-per-update spawning schedule and its laws
  (closed form, completion, each pill spawned exactly once), and material
  assignment in turn.
- `src/game.rs`: the Fyrox plugin's decisions as a state machine; the
  application reports what it sees each update and carries out the plan.
- `src/assets.rs`: the asset directory derived from the executable's path.
- `app/`: the engine programs themselves (rendering, random float transforms,
  environment and clock reads).
