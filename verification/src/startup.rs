//! Bringing storage up: where the database lives, and the order of the steps
//! that lead to a store that is ready for commands.
//!
//! Startup takes four steps, each of which can fail: find the home directory,
//! make sure the data directory exists, open the database, apply the schema
//! migrations that are still pending. The steps themselves are the caller's:
//! it does what the state asks for and reports how it went. A failure at any
//! step is final, and so is readiness.

use vstd::prelude::*;

verus! {

/// Why startup stopped short of a ready store.
#[derive(Debug, Clone, Copy, PartialEq, Eq, Structural)]
pub enum StartupError {
    /// The platform names no home directory.
    NoHomeDirectory,
    /// The data directory does not exist and could not be made.
    DataDirectory,
    /// The database could not be opened.
    Connection,
    /// A pending migration could not be applied.
    Migration,
}

/// Where startup stands. Each state but the last two names the step to take.
#[derive(Debug, Clone, Copy, PartialEq, Eq, Structural)]
pub enum Startup {
    /// Find the home directory of the user.
    ResolvingHome,
    /// Make the data directory under it, with its parents, unless it exists.
    PreparingDirectory,
    /// Open the database file in the data directory, creating it if missing.
    Connecting,
    /// Apply every migration that is still pending, in order.
    Migrating,
    /// The schema is in place: commands may run.
    Ready,
    /// A step failed: the process stops with the diagnostic of the error.
    Failed(StartupError),
}

/// How far the schema is.
#[derive(Debug, Clone, Copy, PartialEq, Eq, Structural)]
pub enum Phase {
    /// No migration has been started.
    Unmigrated,
    /// Migrations are being applied.
    Migrating,
    /// Every migration is applied.
    Ready,
}

impl StartupError {
    /// The text that the process stops with.
    pub open spec fn diagnostic_text(self) -> Seq<char> {
        match self {
            StartupError::NoHomeDirectory => "Could not get home directory"@,
            StartupError::DataDirectory => "Could not create data directory"@,
            StartupError::Connection => "Database connection failed"@,
            StartupError::Migration => "Database migration failed"@,
        }
    }

    /// The text that the process stops with.
    pub fn diagnostic(&self) -> (text: String)
        ensures
            text@ == self.diagnostic_text(),
    {
        match self {
            StartupError::NoHomeDirectory => "Could not get home directory".to_owned(),
            StartupError::DataDirectory => "Could not create data directory".to_owned(),
            StartupError::Connection => "Database connection failed".to_owned(),
            StartupError::Migration => "Database migration failed".to_owned(),
        }
    }
}

impl Startup {
    /// The error that a failure of the step of this state amounts to.
    pub open spec fn failure(self) -> StartupError {
        match self {
            Startup::ResolvingHome => StartupError::NoHomeDirectory,
            Startup::PreparingDirectory => StartupError::DataDirectory,
            Startup::Connecting => StartupError::Connection,
            Startup::Migrating => StartupError::Migration,
            Startup::Ready => StartupError::Migration,
            Startup::Failed(error) => error,
        }
    }

    /// The state after the step of this state went well (`succeeded`) or did
    /// not. A ready state stays ready and a failed one stays failed.
    pub open spec fn after(self, succeeded: bool) -> Startup {
        match self {
            Startup::Ready => Startup::Ready,
            Startup::Failed(error) => Startup::Failed(error),
            _ => if !succeeded {
                Startup::Failed(self.failure())
            } else {
                match self {
                    Startup::ResolvingHome => Startup::PreparingDirectory,
                    Startup::PreparingDirectory => Startup::Connecting,
                    Startup::Connecting => Startup::Migrating,
                    _ => Startup::Ready,
                }
            },
        }
    }

    /// The state after a run of steps that went as `outcomes` says, one after
    /// the other.
    pub open spec fn after_all(self, outcomes: Seq<bool>) -> Startup
        decreases outcomes.len(),
    {
        if outcomes.len() == 0 {
            self
        } else {
            self.after(outcomes[0]).after_all(outcomes.drop_first())
        }
    }

    /// How far the schema is in this state.
    pub open spec fn spec_phase(self) -> Phase {
        match self {
            Startup::Ready => Phase::Ready,
            Startup::Migrating => Phase::Migrating,
            _ => Phase::Unmigrated,
        }
    }

    /// The state in which startup begins.
    pub fn begin() -> (state: Self)
        ensures
            state == Startup::ResolvingHome,
    {
        Startup::ResolvingHome
    }

    /// Takes in how the step of this state went and gives the state that
    /// follows.
    pub fn advance(self, succeeded: bool) -> (next: Self)
        ensures
            next == self.after(succeeded),
    {
        match self {
            Startup::Ready => Startup::Ready,
            Startup::Failed(error) => Startup::Failed(error),
            Startup::ResolvingHome => if succeeded {
                Startup::PreparingDirectory
            } else {
                Startup::Failed(StartupError::NoHomeDirectory)
            },
            Startup::PreparingDirectory => if succeeded {
                Startup::Connecting
            } else {
                Startup::Failed(StartupError::DataDirectory)
            },
            Startup::Connecting => if succeeded {
                Startup::Migrating
            } else {
                Startup::Failed(StartupError::Connection)
            },
            Startup::Migrating => if succeeded {
                Startup::Ready
            } else {
                Startup::Failed(StartupError::Migration)
            },
        }
    }

    /// How far the schema is.
    pub fn phase(&self) -> (phase: Phase)
        ensures
            phase == self.spec_phase(),
    {
        match self {
            Startup::Ready => Phase::Ready,
            Startup::Migrating => Phase::Migrating,
            _ => Phase::Unmigrated,
        }
    }

    /// Whether commands may run: only once every step has succeeded.
    pub fn accepts_commands(&self) -> (ready: bool)
        ensures
            ready == (*self == Startup::Ready),
    {
        match self {
            Startup::Ready => true,
            _ => false,
        }
    }
}

/// The data directory, as a path below the home directory.
pub fn data_subdirectory() -> (path: &'static str)
    ensures
        path@ == ".tauri-seaorm-template/data"@,
{
    ".tauri-seaorm-template/data"
}

/// The address of the database in the data directory `data_dir`: the file
/// `db.sqlite` there, opened for reading and writing and created if missing.
pub open spec fn database_url_text(data_dir: Seq<char>) -> Seq<char> {
    "sqlite://"@ + data_dir + "/db.sqlite?mode=rwc"@
}

/// The address of the database in the data directory `data_dir`.
pub fn database_url(data_dir: &str) -> (url: String)
    ensures
        url@ == database_url_text(data_dir@),
{
    let mut url: String = "sqlite://".to_owned();
    url.append(data_dir);
    url.append("/db.sqlite?mode=rwc");
    url
}

} // verus!
