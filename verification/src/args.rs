//! What the command line asks the program to do.

use crate::util::time::Timestamp;
use vstd::prelude::*;

verus! {

/// For how long the record of a request is kept: seven days, in nanoseconds.
pub const HISTORICAL_REQUEST_NANOS: i128 = 604_800_000_000_000;

#[derive(Debug, Clone, Copy)]
pub struct CliArgs {
    /// If supplied, seed the database with an initial admin user instead of
    /// running the server.
    pub generate_initial_user: bool,
    /// If supplied, clean up historical requests instead of starting the
    /// server.
    pub cleanup_historical_requests: bool,
    /// Force the command, even if dangerous.
    pub force: bool,
}

/// What the program does in one run.
#[derive(Debug, Clone, Copy, PartialEq, Eq, Structural)]
pub enum Command {
    /// Seed the database with an initial admin user; with `force`, even
    /// where there is one already.
    GenerateInitialUser { force: bool },
    /// Delete the records of old requests.
    CleanupHistoricalRequests,
    /// Run the server.
    RunServer,
}

impl CliArgs {
    /// The command that the arguments ask for. Seeding takes precedence over
    /// cleaning up, and the server runs where neither is asked for.
    pub fn command(&self) -> (command: Command)
        ensures
            command == if self.generate_initial_user {
                Command::GenerateInitialUser { force: self.force }
            } else if self.cleanup_historical_requests {
                Command::CleanupHistoricalRequests
            } else {
                Command::RunServer
            },
    {
        if self.generate_initial_user {
            Command::GenerateInitialUser { force: self.force }
        } else if self.cleanup_historical_requests {
            Command::CleanupHistoricalRequests
        } else {
            Command::RunServer
        }
    }
}

/// Whether seeding the database may create an administrator: always with
/// `force`, and otherwise only where there is none yet.
pub fn may_create_admin(force: bool, admin_exists: bool) -> (allowed: bool)
    ensures
        allowed == (force || !admin_exists),
{
    force || !admin_exists
}

/// The time before which the records of requests are deleted when cleaning
/// up at the time `now`: seven days earlier. `None` where that time cannot
/// be held.
pub open spec fn cleanup_cutoff_of(now: Timestamp) -> Option<Timestamp> {
    if now.nanos - HISTORICAL_REQUEST_NANOS >= i128::MIN {
        Some(Timestamp { nanos: (now.nanos - HISTORICAL_REQUEST_NANOS) as i128 })
    } else {
        None
    }
}

/// Computes the time before which the records of requests are deleted when
/// cleaning up at the time `now`.
///
/// The window within which a request's timestamp counts as current is two
/// days, so a record that is deleted belongs to a request that would be
/// turned down for its timestamp.
pub fn cleanup_cutoff(now: Timestamp) -> (cutoff: Option<Timestamp>)
    ensures
        cutoff == cleanup_cutoff_of(now),
{
    if now.nanos < i128::MIN + HISTORICAL_REQUEST_NANOS {
        None
    } else {
        Some(Timestamp { nanos: now.nanos - HISTORICAL_REQUEST_NANOS })
    }
}

} // verus!
