# steel_core

The command scoreboard, display slots, objective criteria and boss bars of
the Steel Minecraft server core, as a Verus library whose operations carry
proved contracts.

- `src/` is the verified library. Scoreboard state lives in sorted name maps
  (`name_map`), so every listing comes in name order; `scoreboard` holds the
  operations and `scoreboard_laws` the properties that span them. Boss bars
  decide which packets to send and to whom; the caller sends them.
- `app/` holds what talks to the outside world: loading and saving
  scoreboards through a world's saved data, serde forms of stored values,
  sending boss bar packets to players, and the float arithmetic of boss bar
  progress (which the library holds as `f32` bit patterns).
- `tests/` exercises the library on concrete values.
