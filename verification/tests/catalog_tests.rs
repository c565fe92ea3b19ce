use mod_registry::catalog::{EngineModsResponse, ModDisableResult, ModMetadataFile};

fn metadata_file(name: &str) -> ModMetadataFile {
    ModMetadataFile {
        name: String::from(name),
        description: Some(String::from("scanned from disk")),
        folder_path: format!("/mods/{}", name),
        config_file_path: None,
        icon_file_path: None,
        icon_data: None,
        enabled: Some(true),
    }
}

#[test]
fn metadata_file_round_trips_through_clone() {
    let file = metadata_file("example");
    assert_eq!(file.clone(), file);
}

#[test]
fn engine_mods_response_groups_scanned_files() {
    let response = EngineModsResponse {
        engine_type: String::from("custom"),
        executable_path: String::from("/engine/run"),
        mods: vec![metadata_file("a"), metadata_file("b")],
    };
    assert_eq!(response.mods.len(), 2);
    assert_eq!(response.mods[0].name, "a");
}

#[test]
fn disable_result_carries_message() {
    let result = ModDisableResult {
        success: true,
        enabled: false,
        message: String::from("Mod disabled"),
    };
    assert!(result.success);
    assert!(!result.enabled);
    assert_eq!(result.message, "Mod disabled");
}
