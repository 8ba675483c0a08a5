use bevy_simple_water::assets::{
    water_normals_key, water_normals_path, water_shader_key, water_shader_path,
};

#[test]
fn shader_is_loaded_from_the_embedded_source() {
    assert_eq!(
        water_shader_path(),
        "embedded://bevy_simple_water/shader/water_material.wgsl"
    );
}

#[test]
fn normal_map_is_loaded_from_the_embedded_source() {
    assert_eq!(
        water_normals_path(),
        "embedded://bevy_simple_water/shader/water_normals.png"
    );
}

#[test]
fn shader_is_registered_under_the_crate_directory() {
    assert_eq!(water_shader_key(), "bevy_simple_water/shader/water_material.wgsl");
}

#[test]
fn normal_map_is_registered_under_the_crate_directory() {
    assert_eq!(water_normals_key(), "bevy_simple_water/shader/water_normals.png");
}

#[test]
fn material_loads_what_the_plugin_registers() {
    assert_eq!(water_shader_path(), format!("embedded://{}", water_shader_key()));
    assert_eq!(water_normals_path(), format!("embedded://{}", water_normals_key()));
    assert_ne!(water_shader_key(), water_normals_key());
}
