# gastly

A fighter mod in which Jigglypuff's marked costumes play as Gastly, which
evolves into Haunter and then Gengar over a match.

- `src/` is the verified library: evolution progress and its conditions,
  cancellation and penalties, item icons and their toggles, readiness icons,
  eye expressions and mesh scenes, shadow ball tracking, looping sounds,
  healing cues, dark move effects, portraits and cutins, and the resets of a
  match, a respawn or a training session. Every step is a function from the
  fighter's state and what the game reported to the next state and the
  actions to perform, with its contract proved by Verus.
- `tests/` runs the library on concrete frames.
- `app/` is the plugin around it: it reads the game each frame, calls the
  library's steps in order and performs what they return (meshes, sounds,
  effects, portraits), and installs the animation scripts and hooks.

Damage is counted in thousandths of a percent and fractional animation
frames in thousandths of a frame.
