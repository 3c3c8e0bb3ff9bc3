# game_engine

The verified logic of a small third-person bevy game.

- `src/` is the library, verified with Verus:
  - `engine::on_game`: capturing and releasing the mouse cursor.
  - `engine::player_controller`: the footstep timer (ticked through bevy's
    `Timer`), the per-frame movement plan (strides, footsteps, gait), the
    collisions that can hurt the player, and the player rig hierarchy.
  - `engine::uv`: the bytes of the 7x7 UV debug texture and the bevy image
    built from them.
  - `engine::fbx_scene`: FBX import settings and the empty-path warning.
  - `engine::info_debug`, `engine::network::components`: markers.
- `app/` is the bevy program around it: systems, spawning, audio, and the
  floating-point math (directions, speeds, mouse look, camera shake).
- `tests/` runs the library on concrete inputs.
