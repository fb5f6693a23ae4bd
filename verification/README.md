# foxtrot

The game logic of a 3D character game, verified with Verus.

- `src/` is the verified library:
  - `protocol`: the one-byte input message that peers exchange, its button flags, and the
    error text for an invalid byte.
  - `game_control`: keyboard bindings of the controls, per platform scan code.
  - `actions`: freezing of player input, the cursor that follows it, and default action bindings.
  - `camera`: switching between first-person, third-person and fixed-angle cameras, and what
    the camera follows and looks at.
  - `interaction`: the interaction available in front of the camera and starting it.
  - `networking`: which players of a rollback session are local, and when a web session starts.
  - `navigation`: the order in which points around a character are probed on the navigation mesh.
  - `animation`, `movement`: which clip a character plays, and the walking sound and sprint effect.
- `app/` holds what needs the networking crates or floating point: the `bitflags` and
  `bytemuck` wire types, the GGRS session set-up from the command line, and the per-frame glue
  that compares float measurements with the game's thresholds before the library decides.
- `tests/` runs the library on concrete values.
