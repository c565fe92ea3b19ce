use mod_registry::handle::{AppHandleSlot, HandleError};

#[test]
fn get_before_set_is_none() {
    let slot: AppHandleSlot<String> = AppHandleSlot::new();
    assert!(slot.get().is_none());
    assert!(!slot.is_initialized());
}

#[test]
fn set_twice_rejected_and_first_handle_stays() {
    let mut slot: AppHandleSlot<String> = AppHandleSlot::new();
    assert_eq!(slot.set(String::from("first")), Ok(()));
    assert_eq!(
        slot.set(String::from("second")),
        Err(HandleError::AlreadyInitialized)
    );
    assert_eq!(slot.get(), Some(&String::from("first")));
    assert!(slot.is_initialized());
}

#[test]
fn already_initialized_message_text() {
    assert_eq!(
        HandleError::AlreadyInitialized.message(),
        "Application handle already initialized"
    );
}
