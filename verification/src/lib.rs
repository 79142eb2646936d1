//! Pika Backup's core logic: identifiers of repositories and archives,
//! backup scheduling rules, disk-space reports of remote repositories,
//! repository locations entered in the setup dialog, and the actions that
//! the background monitor offers.

use vstd::prelude::*;

pub mod borg;
pub mod config;
pub mod daemon;
pub mod schedule;
pub mod text;
pub mod time;
pub mod ui;

verus! {

/// The application identifier that the project's data directory declares.
pub const APPLICATION_ID: &'static str = "org.gnome.World.PikaBackup";

/// The identifier of the application: [`APPLICATION_ID`] followed by the
/// suffix that the build may set (none by default).
pub open spec fn app_id_spec(suffix: Option<Seq<char>>) -> Seq<char> {
    APPLICATION_ID@ + match suffix {
        Some(s) => s,
        None => Seq::empty(),
    }
}

/// The identifier of the application, given the build's optional
/// identifier suffix.
pub fn app_id(suffix: Option<&str>) -> (id: String)
    ensures
        id@ == app_id_spec(
            match suffix {
                Some(s) => Some(s@),
                None => None,
            },
        ),
{
    let base = String::from_str(APPLICATION_ID);
    match suffix {
        Some(s) => base.concat(s),
        None => base,
    }
}

/// The identifier of the background monitor: the application identifier
/// followed by `.Daemon`.
pub fn daemon_app_id(suffix: Option<&str>) -> (id: String)
    ensures
        id@ == app_id_spec(
            match suffix {
                Some(s) => Some(s@),
                None => None,
            },
        ) + ".Daemon"@,
{
    app_id(suffix).concat(".Daemon")
}

} // verus!
