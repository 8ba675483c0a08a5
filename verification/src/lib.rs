//! Water surfaces for Bevy: the verified core of the water plugin.
//!
//! The rendering side (the `Water` component with its floating-point presets,
//! the extended material and the ECS system that keeps materials in step with
//! their water) lives in the companion application crate; this library holds
//! the parts that can be stated and proved: where the plugin's embedded assets
//! are found, and the decisions the synchronizing system takes for each water
//! entity.
pub mod assets;
pub mod plugin;
pub mod sync;

pub use plugin::SimpleWaterPlugin;
