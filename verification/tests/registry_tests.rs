use mod_registry::metadata::{Contributor, ContributorGroup, Engine, ModInfo};
use mod_registry::registry::{increment_display_order, ModsState, RegistryError};

fn full_record() -> ModInfo {
    ModInfo {
        id: String::from("mod-7"),
        name: String::from("Example"),
        path: String::from("/mods/example"),
        metadata_version: Some(1),
        description: Some(String::from("an example mod")),
        executable_path: Some(String::from("/mods/example/run")),
        icon_data: Some(String::from("aWNvbg==")),
        banner_data: Some(String::from("YmFubmVy")),
        logo_data: Some(String::from("bG9nbw==")),
        logo_position: Some(String::from("left_bottom")),
        version: Some(String::from("1.2.3")),
        engine: Some(Engine {
            engine_type: Some(String::from("custom")),
            engine_name: Some(String::from("Engine")),
            engine_icon: None,
            mods_folder: Some(true),
            mods_folder_path: Some(String::from("/mods")),
        }),
        display_order: Some(3),
        process_id: Some(4242),
        contributors: Some(vec![ContributorGroup {
            group: String::from("Code"),
            members: vec![Contributor {
                name: String::from("Alex"),
                icon: None,
                role: Some(String::from("maintainer")),
            }],
        }]),
        last_played: Some(1_700_000_000),
        date_added: Some(1_690_000_000),
    }
}

fn simple_record(id: &str, display_order: Option<i64>) -> ModInfo {
    ModInfo {
        id: String::from(id),
        name: String::from(id),
        path: format!("/mods/{}", id),
        metadata_version: Some(1),
        description: None,
        executable_path: None,
        icon_data: None,
        banner_data: None,
        logo_data: None,
        logo_position: None,
        version: None,
        engine: None,
        display_order,
        process_id: None,
        contributors: None,
        last_played: None,
        date_added: None,
    }
}

#[test]
fn insert_then_get_round_trip() {
    let mut reg = ModsState::new();
    let record = full_record();
    reg.insert(String::from("mod-7"), record.clone());
    let got = reg.get(&String::from("mod-7")).expect("record registered");
    assert_eq!(got, record);
}

#[test]
fn get_absent_is_none() {
    let reg = ModsState::new();
    assert!(reg.get(&String::from("nope")).is_none());
}

#[test]
fn get_returns_a_copy_not_an_alias() {
    let mut reg = ModsState::new();
    reg.insert(String::from("a"), simple_record("a", None));
    let mut got = reg.get(&String::from("a")).unwrap();
    got.name = String::from("tampered");
    assert_eq!(reg.get(&String::from("a")).unwrap().name, "a");
}

#[test]
fn insert_existing_id_replaces_record() {
    let mut reg = ModsState::new();
    reg.insert(String::from("a"), simple_record("a", Some(1)));
    reg.insert(String::from("a"), simple_record("a", Some(9)));
    let got = reg.get(&String::from("a")).unwrap();
    assert_eq!(got.display_order, Some(9));
    assert_eq!(reg.list().len(), 1);
}

#[test]
fn remove_absent_returns_not_found() {
    let mut reg = ModsState::new();
    assert_eq!(
        reg.remove(&String::from("ghost")),
        Err(RegistryError::NotFound)
    );
    assert_eq!(
        reg.remove(&String::from("ghost")),
        Err(RegistryError::NotFound)
    );
}

#[test]
fn remove_twice_is_safe() {
    let mut reg = ModsState::new();
    reg.insert(String::from("a"), simple_record("a", None));
    assert_eq!(reg.remove(&String::from("a")), Ok(()));
    assert_eq!(reg.remove(&String::from("a")), Err(RegistryError::NotFound));
    assert!(reg.get(&String::from("a")).is_none());
}

#[test]
fn update_absent_returns_not_found() {
    let mut reg = ModsState::new();
    assert_eq!(
        reg.update(&String::from("ghost"), increment_display_order),
        Err(RegistryError::NotFound)
    );
}

#[test]
fn sequential_updates_accumulate_every_increment() {
    let mut reg = ModsState::new();
    reg.insert(String::from("a"), simple_record("a", Some(0)));
    let n = 5;
    for _ in 0..n {
        assert_eq!(
            reg.update(&String::from("a"), increment_display_order),
            Ok(())
        );
    }
    let got = reg.get(&String::from("a")).unwrap();
    assert_eq!(got.display_order, Some(n));
}

#[test]
fn update_counts_unset_counter_as_zero() {
    let mut reg = ModsState::new();
    reg.insert(String::from("a"), simple_record("a", None));
    assert_eq!(
        reg.update(&String::from("a"), increment_display_order),
        Ok(())
    );
    assert_eq!(
        reg.get(&String::from("a")).unwrap().display_order,
        Some(1)
    );
}

#[test]
fn update_saturates_at_largest_counter() {
    let mut reg = ModsState::new();
    reg.insert(String::from("a"), simple_record("a", Some(i64::MAX)));
    assert_eq!(
        reg.update(&String::from("a"), increment_display_order),
        Ok(())
    );
    assert_eq!(
        reg.get(&String::from("a")).unwrap().display_order,
        Some(i64::MAX)
    );
}

#[test]
fn list_orders_by_display_order_then_insertion() {
    let mut reg = ModsState::new();
    reg.insert(String::from("late"), simple_record("late", Some(2)));
    reg.insert(String::from("tied-first"), simple_record("tied-first", Some(1)));
    reg.insert(String::from("unordered"), simple_record("unordered", None));
    reg.insert(String::from("tied-second"), simple_record("tied-second", Some(1)));
    let names: Vec<String> = reg.list().into_iter().map(|m| m.name).collect();
    assert_eq!(
        names,
        vec![
            String::from("tied-first"),
            String::from("tied-second"),
            String::from("late"),
            String::from("unordered"),
        ]
    );
}

#[test]
fn not_found_message_text() {
    assert_eq!(RegistryError::NotFound.message(), "Mod not found");
}
