# invaders3d

The rules of Invaders 3D, a three-dimensional take on the classic
alien-invasion arcade game, as a library verified with Verus, plus the Bevy
application that renders and plays it.

- `src/` — the verified rules:
  - `components` — game phases, counters, the wave table, row scoring;
  - `game` — the game session as a state machine (scoring, lives and
    invincibility, wave transitions, game over, restart) and its laws;
  - `enemy` — alien designs and voxel shapes, formation layout, wave
    setup, which aliens may fire;
  - `barrier` — bunker shape, block layout, damage;
  - `collision` — which target each bullet hits, barrier damage within a
    frame;
  - `mystery` — when a mystery ship appears and what it is worth;
  - `music` — the four-beat march cycle;
  - `sound` — the noise generator of the sound effects;
  - `player` — steering from the controls.
- `app/` — the Bevy application: rendering, input, timers, audio, and all
  floating-point geometry.
- `tests/` — tests of the library.
