use game_engine::engine::fbx_scene::{AssetUsages, FbxSceneInfo};
use game_engine::engine::info_debug::FpsFrametimeDebugTextWriter;
use game_engine::engine::player_controller::{CollisionEvent, PlayerCharacter, RigPart};

#[test]
fn only_started_collisions_count() {
    let events = vec![
        CollisionEvent::Stopped(1, 2),
        CollisionEvent::Started(3, 4),
        CollisionEvent::Stopped(3, 4),
        CollisionEvent::Started(5, 1),
    ];
    assert_eq!(PlayerCharacter::started_collisions(&events), vec![(3, 4), (5, 1)]);
    assert!(PlayerCharacter::started_collisions(&Vec::new()).is_empty());
}

#[test]
fn rig_links_form_the_player_tree() {
    assert_eq!(
        PlayerCharacter::player_rig_links(),
        vec![
            (RigPart::Player, RigPart::CameraPivot),
            (RigPart::CameraPivot, RigPart::Camera),
            (RigPart::Player, RigPart::Model),
        ]
    );
}

#[test]
fn new_fbx_settings_load_nothing_extra() {
    let info = FbxSceneInfo::new();
    assert!(!info.convert_coordinates && !info.include_source);
    assert!(!info.load_cameras && !info.load_lights);
    assert_eq!(info.load_materials, AssetUsages::empty());
    assert_eq!(info.load_meshes.bits(), 0);
}

#[test]
fn empty_fbx_path_is_warned() {
    assert_eq!(FbxSceneInfo::path_warning(""), Some("Fbx Path cannot be null"));
    assert_eq!(FbxSceneInfo::path_warning("models/raquel/raquel.glb#Scene0"), None);
}

#[test]
fn asset_usage_bits_match_bevy() {
    let both = AssetUsages { main_world: true, render_world: true };
    assert_eq!(both.bits(), bevy::asset::RenderAssetUsages::default().bits());
    assert_eq!(AssetUsages::render_world_only().bits(), bevy::asset::RenderAssetUsages::RENDER_WORLD.bits());
    assert_eq!(
        AssetUsages { main_world: true, render_world: false }.bits(),
        bevy::asset::RenderAssetUsages::MAIN_WORLD.bits()
    );
}

#[test]
fn frame_readings_shown_only_when_both_exist() {
    assert_eq!(FpsFrametimeDebugTextWriter::readings_to_show(Some(60.0), Some(16.6)), Some((60.0, 16.6)));
    assert_eq!(FpsFrametimeDebugTextWriter::readings_to_show(Some(60.0), None), None);
    assert_eq!(FpsFrametimeDebugTextWriter::readings_to_show::<f64>(None, Some(16.6)), None);
}
