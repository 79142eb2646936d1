use pika_backup::borg::json::{ArchiveId, ArchiveName, RepoId};
use pika_backup::config::ConfigId;
use pika_backup::daemon::action::{
    Action, Activation, Quit, ShowOverview, ShowSchedule, StartBackup,
};
use pika_backup::ui::dialog_add_config::{
    add_repo_row, check_init_entries, config_declares_repository,
    default_init_dir, init_repo_row, is_encrypted, repo_title, AddRepoRow, InitError,
    InitLocation, InitRepoRow,
};
use pika_backup::{app_id, daemon_app_id, APPLICATION_ID};

#[test]
fn identifiers_keep_their_text() {
    let r = RepoId::new("abc".to_string());
    assert_eq!(r.as_str(), "abc");
    assert!(r.same_as(&r.clone()));
    assert!(!r.same_as(&RepoId::new("abd".to_string())));
    assert_eq!(ArchiveId::new("x".to_string()).as_str(), "x");
    assert_eq!(ArchiveName::new("n".to_string()).as_str(), "n");
    assert_eq!(ConfigId::new("c".to_string()).as_str(), "c");
}

#[test]
fn application_identifiers() {
    assert_eq!(app_id(None), APPLICATION_ID);
    assert_eq!(app_id(Some(".Devel")), "org.gnome.World.PikaBackup.Devel");
    assert_eq!(daemon_app_id(None), "org.gnome.World.PikaBackup.Daemon");
    assert_eq!(
        daemon_app_id(Some(".Devel")),
        "org.gnome.World.PikaBackup.Devel.Daemon"
    );
}

#[test]
fn daemon_action_names() {
    assert_eq!(Quit::name(), "app.quit");
    assert_eq!(StartBackup::name(), "app.start-backup");
    assert_eq!(ShowOverview::name(), "app.show-overview");
    assert_eq!(ShowSchedule::name(), "app.show-schedule");
    assert!(!Quit::takes_config_id());
    assert!(StartBackup::takes_config_id());
    assert!(ShowSchedule::takes_config_id());
    assert!(!ShowOverview::takes_config_id());
}

#[test]
fn daemon_activations() {
    assert!(matches!(Quit::activate(None), Activation::ExplainQuit));
    assert!(matches!(ShowOverview::activate(None), Activation::ShowOverview));
    match StartBackup::activate(Some("cfg".to_string())) {
        Activation::StartBackup(id) => assert_eq!(id.as_str(), "cfg"),
        other => panic!("unexpected {:?}", other),
    }
    match ShowSchedule::activate(Some("cfg".to_string())) {
        Activation::ShowSchedule(id) => assert_eq!(id.as_str(), "cfg"),
        other => panic!("unexpected {:?}", other),
    }
    assert!(matches!(StartBackup::activate(None), Activation::InvalidParameter));
    assert!(matches!(ShowSchedule::activate(None), Activation::InvalidParameter));
}

#[test]
fn repository_config_checks() {
    assert!(config_declares_repository("[repository]\nversion = 1\n"));
    assert!(config_declares_repository("x[repository]"));
    assert!(!config_declares_repository("[repositor]"));
    assert!(!config_declares_repository(""));
    assert!(config_declares_repository("ä\n[repository]"));
    // no size limit: a large config still declares a repository
    let large = format!("{}[repository]\n", "x".repeat(2 * 1024 * 1024));
    assert!(config_declares_repository(&large));
}

#[test]
fn dialog_rows() {
    assert_eq!(add_repo_row("-add-local"), AddRepoRow::AddLocal);
    assert_eq!(add_repo_row("-add-remote"), AddRepoRow::AddRemote);
    assert_eq!(
        add_repo_row("file:///media/x/repo"),
        AddRepoRow::Existing("file:///media/x/repo".to_string())
    );
    assert_eq!(init_repo_row("-init-remote"), InitRepoRow::Remote);
    assert_eq!(init_repo_row("-init-local"), InitRepoRow::ChooseLocal);
    assert_eq!(
        init_repo_row("file:///media/x"),
        InitRepoRow::Mounted("file:///media/x".to_string())
    );
}

#[test]
fn init_entries() {
    assert_eq!(
        default_init_dir(Some("host".to_string()), Some("me".to_string())),
        "backup-host-me"
    );
    assert_eq!(default_init_dir(None, None), "backup--");
    let local = InitLocation::Local {
        folder_chosen: true,
    };
    assert_eq!(check_init_entries(true, "a", "a", &local), Ok(()));
    assert_eq!(
        check_init_entries(true, "a", "b", &local),
        Err(InitError::PasswordsDiffer)
    );
    assert_eq!(check_init_entries(false, "a", "b", &local), Ok(()));
    assert_eq!(
        check_init_entries(
            false,
            "",
            "",
            &InitLocation::Local {
                folder_chosen: false
            }
        ),
        Err(InitError::NoLocalLocation)
    );
    assert_eq!(
        check_init_entries(
            false,
            "",
            "",
            &InitLocation::Remote { url: String::new() }
        ),
        Err(InitError::NoRemoteLocation)
    );
    assert_eq!(
        InitError::PasswordsDiffer.message(),
        "Entered passwords do not match. Please try again."
    );
}

#[test]
fn encryption_and_titles() {
    assert!(is_encrypted(Some(b"pw")));
    assert!(!is_encrypted(Some(b"")));
    assert!(!is_encrypted(None));
    assert_eq!(repo_title("Disk".to_string(), Some("backups/r")), "Disk / backups/r");
    assert_eq!(repo_title("Disk".to_string(), Some("")), "Disk");
    assert_eq!(repo_title("Disk".to_string(), None), "Disk");
}
