# bevy_simple_water

Animated water surfaces for Bevy.

- `src/` is the verified library (Verus): the locations of the embedded shader
  and normal map (`assets`), the decision the synchronizing system takes for
  each water entity (`sync`), and the plugin type (`plugin`).
- `app/` is the Bevy integration: the `Water` component and its presets, the
  extended material, the ECS system and the `Plugin` impl. It works with
  floating-point data and Bevy traits, and calls into `src/` for the asset
  paths and the per-entity decisions.
- `tests/` exercises the library.
