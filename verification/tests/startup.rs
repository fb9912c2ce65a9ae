use post_service::startup::{data_subdirectory, database_url, Phase, Startup, StartupError};

#[test]
fn startup_is_ready_after_four_good_steps() {
    let mut state = Startup::begin();
    assert_eq!(state, Startup::ResolvingHome);
    state = state.advance(true);
    assert_eq!(state, Startup::PreparingDirectory);
    state = state.advance(true);
    assert_eq!(state, Startup::Connecting);
    state = state.advance(true);
    assert_eq!(state, Startup::Migrating);
    assert!(!state.accepts_commands());
    state = state.advance(true);
    assert_eq!(state, Startup::Ready);
    assert!(state.accepts_commands());
}

#[test]
fn each_step_fails_with_its_own_error() {
    let home = Startup::begin().advance(false);
    assert_eq!(home, Startup::Failed(StartupError::NoHomeDirectory));
    let directory = Startup::begin().advance(true).advance(false);
    assert_eq!(directory, Startup::Failed(StartupError::DataDirectory));
    let connection = Startup::begin().advance(true).advance(true).advance(false);
    assert_eq!(connection, Startup::Failed(StartupError::Connection));
    let migration = Startup::begin().advance(true).advance(true).advance(true).advance(false);
    assert_eq!(migration, Startup::Failed(StartupError::Migration));
}

#[test]
fn readiness_and_failure_are_final() {
    assert_eq!(Startup::Ready.advance(true), Startup::Ready);
    assert_eq!(Startup::Ready.advance(false), Startup::Ready);
    let failed = Startup::Failed(StartupError::Connection);
    assert_eq!(failed.advance(true), failed);
    assert_eq!(failed.advance(false), failed);
    assert!(!failed.accepts_commands());
}

#[test]
fn one_failure_keeps_startup_from_readiness() {
    for failing in 0..4 {
        let mut state = Startup::begin();
        for step in 0..8 {
            state = state.advance(step != failing);
            assert!(!state.accepts_commands() || step < failing);
        }
        assert!(matches!(state, Startup::Failed(_)));
    }
}

#[test]
fn phase_follows_the_schema() {
    assert_eq!(Startup::ResolvingHome.phase(), Phase::Unmigrated);
    assert_eq!(Startup::PreparingDirectory.phase(), Phase::Unmigrated);
    assert_eq!(Startup::Connecting.phase(), Phase::Unmigrated);
    assert_eq!(Startup::Migrating.phase(), Phase::Migrating);
    assert_eq!(Startup::Ready.phase(), Phase::Ready);
    assert_eq!(Startup::Failed(StartupError::Migration).phase(), Phase::Unmigrated);
}

#[test]
fn diagnostics_name_the_failed_step() {
    assert_eq!(StartupError::NoHomeDirectory.diagnostic(), "Could not get home directory");
    assert_eq!(StartupError::DataDirectory.diagnostic(), "Could not create data directory");
    assert_eq!(StartupError::Connection.diagnostic(), "Database connection failed");
    assert_eq!(StartupError::Migration.diagnostic(), "Database migration failed");
}

#[test]
fn data_directory_is_below_home() {
    assert_eq!(data_subdirectory(), ".tauri-seaorm-template/data");
}

#[test]
fn database_url_names_the_file_in_the_data_directory() {
    assert_eq!(
        database_url("/home/user/.tauri-seaorm-template/data"),
        "sqlite:///home/user/.tauri-seaorm-template/data/db.sqlite?mode=rwc"
    );
    assert_eq!(database_url(""), "sqlite:///db.sqlite?mode=rwc");
    assert_eq!(database_url("data"), "sqlite://data/db.sqlite?mode=rwc");
}
