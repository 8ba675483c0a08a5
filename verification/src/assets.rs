//! Where the plugin's embedded assets are registered and loaded from.
//!
//! The plugin embeds its WGSL shader and its normal map into the binary and
//! registers their bytes with the `embedded` asset source, in a directory named
//! after this crate. The water material then loads both back through the
//! `embedded://` scheme. Each file therefore has two names: the key the plugin
//! registers the bytes under, and the asset path the material asks for, which
//! is that same key behind the scheme.
use vstd::prelude::*;

verus! {

/// The directory, inside the `embedded` asset source, that holds this crate's assets.
pub open spec fn embedded_dir() -> Seq<char> {
    "bevy_simple_water/"@
}

/// The scheme that selects the `embedded` asset source in an asset path.
pub open spec fn embedded_scheme() -> Seq<char> {
    "embedded://"@
}

/// The key under which the plugin registers the bytes of `file`.
pub open spec fn registry_key(file: Seq<char>) -> Seq<char> {
    embedded_dir() + file
}

/// The asset path through which the material loads `file`.
pub open spec fn asset_path(file: Seq<char>) -> Seq<char> {
    embedded_scheme() + registry_key(file)
}

/// The water shader's file, relative to the crate's source directory.
pub open spec fn shader_file() -> Seq<char> {
    "shader/water_material.wgsl"@
}

/// The normal map's file, relative to the crate's source directory.
pub open spec fn normal_map_file() -> Seq<char> {
    "shader/water_normals.png"@
}

/// The key under which the plugin registers the water shader.
pub fn water_shader_key() -> (key: &'static str)
    ensures
        key@ == registry_key(shader_file()),
{
    let key = "bevy_simple_water/shader/water_material.wgsl";
    proof {
        reveal_strlit("bevy_simple_water/shader/water_material.wgsl");
        reveal_strlit("bevy_simple_water/");
        reveal_strlit("shader/water_material.wgsl");
        assert(key@ =~= registry_key(shader_file()));
    }
    key
}

/// The asset path of the deferred fragment shader used by the water material.
pub fn water_shader_path() -> (path: &'static str)
    ensures
        path@ == asset_path(shader_file()),
{
    let path = "embedded://bevy_simple_water/shader/water_material.wgsl";
    proof {
        reveal_strlit("embedded://bevy_simple_water/shader/water_material.wgsl");
        reveal_strlit("embedded://");
        reveal_strlit("bevy_simple_water/");
        reveal_strlit("shader/water_material.wgsl");
        assert(path@ =~= asset_path(shader_file()));
    }
    path
}

/// The key under which the plugin registers the normal map.
pub fn water_normals_key() -> (key: &'static str)
    ensures
        key@ == registry_key(normal_map_file()),
{
    let key = "bevy_simple_water/shader/water_normals.png";
    proof {
        reveal_strlit("bevy_simple_water/shader/water_normals.png");
        reveal_strlit("bevy_simple_water/");
        reveal_strlit("shader/water_normals.png");
        assert(key@ =~= registry_key(normal_map_file()));
    }
    key
}

/// The asset path of the normal map scrolled by the water shader.
pub fn water_normals_path() -> (path: &'static str)
    ensures
        path@ == asset_path(normal_map_file()),
{
    let path = "embedded://bevy_simple_water/shader/water_normals.png";
    proof {
        reveal_strlit("embedded://bevy_simple_water/shader/water_normals.png");
        reveal_strlit("embedded://");
        reveal_strlit("bevy_simple_water/");
        reveal_strlit("shader/water_normals.png");
        assert(path@ =~= asset_path(normal_map_file()));
    }
    path
}

/// What the material loads is what the plugin embedded: the asset path of each
/// file is the scheme of the `embedded` source followed by the very key its
/// bytes were registered under, and the shader and the normal map are kept
/// under different keys.
pub proof fn lemma_material_loads_what_plugin_embeds()
    ensures
        asset_path(shader_file()) == embedded_scheme() + registry_key(shader_file()),
        asset_path(normal_map_file()) == embedded_scheme() + registry_key(normal_map_file()),
        registry_key(shader_file()) != registry_key(normal_map_file()),
{
    reveal_strlit("bevy_simple_water/");
    reveal_strlit("shader/water_material.wgsl");
    reveal_strlit("shader/water_normals.png");
    let s = registry_key(shader_file());
    let n = registry_key(normal_map_file());
    assert(s[31] == 'm' && n[31] == 'n');
}

} // verus!
