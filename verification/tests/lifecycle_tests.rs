use mod_registry::lifecycle::{
    finish_and_register, DownloadError, DownloadEvent, DownloadFinished, DownloadProgress,
    DownloadSession, DownloadStarted, LifecycleError,
};
use mod_registry::metadata::ModInfo;
use mod_registry::registry::ModsState;

fn record(id: &str) -> ModInfo {
    ModInfo {
        id: String::from(id),
        name: String::from("Foo"),
        path: format!("/mods/{}", id),
        metadata_version: Some(1),
        description: None,
        executable_path: None,
        icon_data: None,
        banner_data: None,
        logo_data: None,
        logo_position: None,
        version: None,
        engine: None,
        display_order: None,
        process_id: None,
        contributors: None,
        last_played: None,
        date_added: None,
    }
}

fn started(mod_id: i64) -> DownloadStarted {
    DownloadStarted {
        mod_id,
        name: String::from("Foo"),
        content_length: 1000,
        thumbnail_url: String::from("http://x"),
    }
}

fn progress(mod_id: i64, bytes: usize, pct: u8) -> DownloadProgress {
    DownloadProgress {
        mod_id,
        name: String::from("Foo"),
        bytes_downloaded: bytes,
        total_bytes: 1000,
        percentage: pct,
        step: String::from("downloading"),
    }
}

#[test]
fn lifecycle_success_scenario() {
    let mut reg = ModsState::new();
    let mut sess = DownloadSession::new(42);

    assert_eq!(sess.start(started(42)), Ok(()));
    assert_eq!(sess.progress(progress(42, 500, 50)), Ok(()));
    let finished = DownloadFinished {
        mod_id: 42,
        name: String::from("Foo"),
        mod_info: record("42"),
    };
    assert_eq!(
        finish_and_register(&mut reg, &mut sess, String::from("42"), finished),
        Ok(())
    );

    let expected = vec![
        DownloadEvent::Started(started(42)),
        DownloadEvent::Progress(progress(42, 500, 50)),
        DownloadEvent::Finished(DownloadFinished {
            mod_id: 42,
            name: String::from("Foo"),
            mod_info: record("42"),
        }),
    ];
    assert_eq!(sess.events(), &expected);
    assert_eq!(reg.get(&String::from("42")).unwrap(), record("42"));
}

#[test]
fn lifecycle_failure_leaves_registry_without_entry() {
    let reg = ModsState::new();
    let mut sess = DownloadSession::new(42);

    assert_eq!(sess.start(started(42)), Ok(()));
    let failure = DownloadError {
        mod_id: 42,
        name: String::from("Foo"),
        error: String::from("network timeout"),
    };
    assert_eq!(sess.fail(failure), Ok(()));

    let expected = vec![
        DownloadEvent::Started(started(42)),
        DownloadEvent::Error(DownloadError {
            mod_id: 42,
            name: String::from("Foo"),
            error: String::from("network timeout"),
        }),
    ];
    assert_eq!(sess.events(), &expected);
    assert!(reg.get(&String::from("42")).is_none());
}

#[test]
fn progress_before_start_rejected() {
    let mut sess = DownloadSession::new(42);
    assert_eq!(
        sess.progress(progress(42, 0, 0)),
        Err(LifecycleError::NotActive)
    );
    assert!(sess.events().is_empty());
}

#[test]
fn start_twice_rejected() {
    let mut sess = DownloadSession::new(42);
    assert_eq!(sess.start(started(42)), Ok(()));
    assert_eq!(sess.start(started(42)), Err(LifecycleError::AlreadyStarted));
    assert_eq!(sess.events().len(), 1);
}

#[test]
fn mismatched_mod_id_rejected() {
    let mut sess = DownloadSession::new(42);
    assert_eq!(sess.start(started(7)), Err(LifecycleError::ModIdMismatch));
    assert!(sess.events().is_empty());
}

#[test]
fn percentage_above_hundred_rejected() {
    let mut sess = DownloadSession::new(42);
    assert_eq!(sess.start(started(42)), Ok(()));
    assert_eq!(
        sess.progress(progress(42, 10, 101)),
        Err(LifecycleError::PercentageOutOfRange)
    );
    assert_eq!(sess.events().len(), 1);
}

#[test]
fn percentage_regression_rejected() {
    let mut sess = DownloadSession::new(42);
    assert_eq!(sess.start(started(42)), Ok(()));
    assert_eq!(sess.progress(progress(42, 500, 50)), Ok(()));
    assert_eq!(
        sess.progress(progress(42, 600, 30)),
        Err(LifecycleError::PercentageRegressed)
    );
    assert_eq!(sess.progress(progress(42, 600, 50)), Ok(()));
    assert_eq!(sess.events().len(), 3);
}

#[test]
fn no_event_accepted_after_terminal() {
    let mut reg = ModsState::new();
    let mut sess = DownloadSession::new(42);
    assert_eq!(sess.start(started(42)), Ok(()));
    let finished = DownloadFinished {
        mod_id: 42,
        name: String::from("Foo"),
        mod_info: record("42"),
    };
    assert_eq!(
        finish_and_register(&mut reg, &mut sess, String::from("42"), finished),
        Ok(())
    );
    assert_eq!(
        sess.progress(progress(42, 1000, 100)),
        Err(LifecycleError::NotActive)
    );
    let failure = DownloadError {
        mod_id: 42,
        name: String::from("Foo"),
        error: String::from("late"),
    };
    assert_eq!(sess.fail(failure), Err(LifecycleError::NotActive));
    assert_eq!(sess.events().len(), 2);
}

#[test]
fn failed_finish_does_not_register() {
    let mut reg = ModsState::new();
    let mut sess = DownloadSession::new(42);
    let finished = DownloadFinished {
        mod_id: 42,
        name: String::from("Foo"),
        mod_info: record("42"),
    };
    assert_eq!(
        finish_and_register(&mut reg, &mut sess, String::from("42"), finished),
        Err(LifecycleError::NotActive)
    );
    assert!(reg.get(&String::from("42")).is_none());
    assert!(sess.events().is_empty());
}

#[test]
fn lifecycle_error_message_texts() {
    assert_eq!(
        LifecycleError::NotActive.message(),
        "Download is not active"
    );
    assert_eq!(
        LifecycleError::PercentageRegressed.message(),
        "Progress percentage decreased"
    );
}
