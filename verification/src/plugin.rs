use vstd::prelude::*;

verus! {

/// Plugin that enables the water material and its embedded shader assets.
///
/// Add this once to your app, then spawn entities with a water component and a
/// mesh. The plugin registers the extended material, embeds the WGSL shader and
/// normal map, and keeps spawned water entities synchronized with their material
/// data.
pub struct SimpleWaterPlugin;

} // verus!
