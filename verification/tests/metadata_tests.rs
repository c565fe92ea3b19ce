use mod_registry::metadata::{MetadataError, ModInfo};
use mod_registry::{CURRENT_METADATA_VERSION, MIN_METADATA_VERSION};

fn record_with_version(metadata_version: Option<u32>) -> ModInfo {
    ModInfo {
        id: String::from("mod-1"),
        name: String::from("Example"),
        path: String::from("/mods/example"),
        metadata_version,
        description: None,
        executable_path: None,
        icon_data: None,
        banner_data: None,
        logo_data: None,
        logo_position: None,
        version: None,
        engine: None,
        display_order: None,
        process_id: None,
        contributors: None,
        last_played: None,
        date_added: None,
    }
}

#[test]
fn missing_version_rejected() {
    let record = record_with_version(None);
    assert_eq!(
        record.validate_metadata_version(),
        Err(MetadataError::MissingVersion)
    );
}

#[test]
fn version_below_minimum_rejected() {
    let record = record_with_version(Some(0));
    assert_eq!(
        record.validate_metadata_version(),
        Err(MetadataError::VersionTooLow {
            provided: 0,
            minimum: 1
        })
    );
}

#[test]
fn version_at_minimum_accepted() {
    let record = record_with_version(Some(MIN_METADATA_VERSION));
    assert_eq!(record.validate_metadata_version(), Ok(()));
}

#[test]
fn future_version_accepted() {
    let record = record_with_version(Some(CURRENT_METADATA_VERSION + 41));
    assert_eq!(record.validate_metadata_version(), Ok(()));
}

#[test]
fn missing_version_message_text() {
    let err = MetadataError::MissingVersion;
    assert_eq!(err.message(), "Missing required metadata_version field");
}

#[test]
fn version_too_low_message_text() {
    let err = MetadataError::VersionTooLow {
        provided: 0,
        minimum: 1,
    };
    assert_eq!(
        err.message(),
        "Metadata version 0 is too old. Minimum supported version is 1"
    );
}

#[test]
fn version_too_low_message_renders_largest_number() {
    let err = MetadataError::VersionTooLow {
        provided: u32::MAX,
        minimum: 1,
    };
    assert_eq!(
        err.message(),
        "Metadata version 4294967295 is too old. Minimum supported version is 1"
    );
}

#[test]
fn version_too_low_message_renders_multidigit_numbers() {
    let err = MetadataError::VersionTooLow {
        provided: 407,
        minimum: 1000,
    };
    assert_eq!(
        err.message(),
        "Metadata version 407 is too old. Minimum supported version is 1000"
    );
}
