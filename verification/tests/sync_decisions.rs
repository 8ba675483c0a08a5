use bevy_simple_water::sync::{decide_sync, MaterialSync, WaterChange};

#[test]
fn added_water_gets_a_new_material() {
    assert_eq!(decide_sync(WaterChange::Added), MaterialSync::Create);
}

#[test]
fn changed_water_updates_its_existing_material() {
    assert_eq!(
        decide_sync(WaterChange::Changed { material_exists: true }),
        MaterialSync::Update
    );
}

#[test]
fn changed_water_without_material_is_skipped() {
    assert_eq!(
        decide_sync(WaterChange::Changed { material_exists: false }),
        MaterialSync::Skip
    );
}

#[test]
fn a_change_never_creates_a_material() {
    for exists in [true, false] {
        assert_ne!(
            decide_sync(WaterChange::Changed { material_exists: exists }),
            MaterialSync::Create
        );
    }
}
