use pika_backup::ui::widget::dialog::setup::util::{
    LocationError, SetupAction, SetupCommandLineArgs, SetupLocationKind, SetupRepoLocation,
    UriParts,
};

fn url(s: &str) -> Result<String, LocationError> {
    SetupRepoLocation::borg_url(s.to_string())
}

#[test]
fn borg_syntax_becomes_ssh_url() {
    assert_eq!(url("user@host:repo").unwrap(), "ssh://user@host/./repo");
    assert_eq!(url("user@host:~/repo").unwrap(), "ssh://user@host/~/repo");
    assert_eq!(url("user@host:/srv/repo").unwrap(), "ssh://user@host/srv/repo");
    assert_eq!(url("host:").unwrap(), "ssh://host/./");
    assert_eq!(url("a:b:c").unwrap(), "ssh://a/./b:c");
}

#[test]
fn urls_are_taken_verbatim() {
    assert_eq!(url("ssh://host:22/srv").unwrap(), "ssh://host:22/srv");
    assert_eq!(url("smb://server/share").unwrap(), "smb://server/share");
}

#[test]
fn incomplete_syntax_is_refused() {
    assert_eq!(url("just-a-name"), Err(LocationError::IncompleteSyntax));
    assert_eq!(url(""), Err(LocationError::IncompleteSyntax));
}

#[test]
fn canonical_urls_are_fixed_points() {
    for input in ["user@host:repo", "h:~/x", "ssh://a/b", "x:/y"] {
        let once = url(input).unwrap();
        assert_eq!(url(&once).unwrap(), once);
    }
}

fn parts(scheme: &str, path: &str) -> Result<UriParts, String> {
    Ok(UriParts {
        scheme: scheme.to_string(),
        path: path.to_string(),
    })
}

#[test]
fn parsed_uris_give_locations() {
    match SetupRepoLocation::from_parsed_uri("ssh://h/r".to_string(), parts("ssh", "/r")) {
        Ok(SetupRepoLocation::Remote(u)) => assert_eq!(u, "ssh://h/r"),
        other => panic!("unexpected {:?}", other),
    }
    match SetupRepoLocation::from_parsed_uri("smb://h/r".to_string(), parts("smb", "/r")) {
        Ok(SetupRepoLocation::Local(u)) => assert_eq!(u, "smb://h/r"),
        other => panic!("unexpected {:?}", other),
    }
    assert_eq!(
        SetupRepoLocation::from_parsed_uri("ssh://h".to_string(), parts("ssh", "")).unwrap_err(),
        LocationError::MissingPath
    );
    assert_eq!(
        SetupRepoLocation::from_parsed_uri("x".to_string(), Err("bad".to_string())).unwrap_err(),
        LocationError::Invalid("bad".to_string())
    );
}

#[test]
fn location_texts() {
    assert_eq!(
        SetupRepoLocation::Remote("ssh://h/r".to_string()).to_string(),
        "ssh://h/r"
    );
    assert_eq!(
        SetupRepoLocation::Local("file:///m".to_string()).to_string(),
        "file:///m"
    );
    assert_eq!(
        LocationError::IncompleteSyntax.message(),
        "Incomplete URL or borg syntax"
    );
    assert_eq!(
        LocationError::MissingPath.message(),
        "The remote location must have a specified path."
    );
    assert_eq!(
        LocationError::Invalid("oops".to_string()).message(),
        "Invalid remote location: “oops”"
    );
}

#[test]
fn defaults() {
    assert_eq!(SetupAction::default(), SetupAction::Init);
    assert_eq!(SetupLocationKind::default(), SetupLocationKind::Local);
    assert!(SetupCommandLineArgs::none().into_inner().is_empty());
    assert!(SetupCommandLineArgs::default().into_inner().is_empty());
    assert_eq!(
        SetupCommandLineArgs::new(vec!["--x".to_string()]).into_inner(),
        vec!["--x".to_string()]
    );
}
