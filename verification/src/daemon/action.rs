//! The actions that the background monitor offers, and what each does when
//! it is activated.

use vstd::prelude::*;

use crate::config::ConfigId;

verus! {

/// What an activated action asks the application to do.
#[derive(Debug, Clone)]
pub enum Activation {
    /// Tell the user how monitoring stops: the monitor itself keeps running.
    ExplainQuit,
    StartBackup(ConfigId),
    ShowOverview,
    ShowSchedule(ConfigId),
    /// The parameter was not a configuration identifier.
    InvalidParameter,
}

/// An action of the background monitor.
pub trait Action {
    /// The action's name.
    const NAME: &'static str;

    /// Whether the action takes a configuration identifier as its parameter.
    fn takes_config_id() -> bool;

    /// What the action does, given its parameter as text (`None` where it
    /// has none or it is not text).
    fn activate(parameter: Option<String>) -> Activation;

    /// The action's name within the application: `app.` and its name.
    fn name() -> (r: String)
        ensures
            r@ == "app."@ + Self::NAME@,
    {
        String::from_str("app.").concat(Self::NAME)
    }
}

pub struct Quit;

impl Action for Quit {
    const NAME: &'static str = "quit";

    fn takes_config_id() -> (b: bool)
        ensures
            !b,
    {
        false
    }

    fn activate(parameter: Option<String>) -> (r: Activation)
        ensures
            r == Activation::ExplainQuit,
    {
        Activation::ExplainQuit
    }
}

pub struct StartBackup;

impl Action for StartBackup {
    const NAME: &'static str = "start-backup";

    fn takes_config_id() -> (b: bool)
        ensures
            b,
    {
        true
    }

    fn activate(parameter: Option<String>) -> (r: Activation)
        ensures
            match parameter {
                Some(id) => r matches Activation::StartBackup(c) && c@ == id@,
                None => r == Activation::InvalidParameter,
            },
    {
        match parameter {
            Some(id) => Activation::StartBackup(ConfigId::new(id)),
            None => Activation::InvalidParameter,
        }
    }
}

pub struct ShowOverview;

impl Action for ShowOverview {
    const NAME: &'static str = "show-overview";

    fn takes_config_id() -> (b: bool)
        ensures
            !b,
    {
        false
    }

    fn activate(parameter: Option<String>) -> (r: Activation)
        ensures
            r == Activation::ShowOverview,
    {
        Activation::ShowOverview
    }
}

pub struct ShowSchedule;

impl Action for ShowSchedule {
    const NAME: &'static str = "show-schedule";

    fn takes_config_id() -> (b: bool)
        ensures
            b,
    {
        true
    }

    fn activate(parameter: Option<String>) -> (r: Activation)
        ensures
            match parameter {
                Some(id) => r matches Activation::ShowSchedule(c) && c@ == id@,
                None => r == Activation::InvalidParameter,
            },
    {
        match parameter {
            Some(id) => Activation::ShowSchedule(ConfigId::new(id)),
            None => Activation::InvalidParameter,
        }
    }
}

/// The names of the monitor's actions, and their names within the
/// application that [`Action::name`] gives.
pub proof fn lemma_action_names()
    ensures
        Quit::NAME@ == "quit"@,
        StartBackup::NAME@ == "start-backup"@,
        ShowOverview::NAME@ == "show-overview"@,
        ShowSchedule::NAME@ == "show-schedule"@,
        "app."@ + Quit::NAME@ == "app.quit"@,
        "app."@ + StartBackup::NAME@ == "app.start-backup"@,
        "app."@ + ShowOverview::NAME@ == "app.show-overview"@,
        "app."@ + ShowSchedule::NAME@ == "app.show-schedule"@,
{
    reveal_strlit("app.");
    reveal_strlit("quit");
    reveal_strlit("start-backup");
    reveal_strlit("show-overview");
    reveal_strlit("show-schedule");
    reveal_strlit("app.quit");
    reveal_strlit("app.start-backup");
    reveal_strlit("app.show-overview");
    reveal_strlit("app.show-schedule");
    assert("app."@ + "quit"@ =~= "app.quit"@);
    assert("app."@ + "start-backup"@ =~= "app.start-backup"@);
    assert("app."@ + "show-overview"@ =~= "app.show-overview"@);
    assert("app."@ + "show-schedule"@ =~= "app.show-schedule"@);
}

} // verus!
