use pika_backup::ui::utils::df::{
    cached_or_lookup, needs_lookup, parse_df_output, sftp_location, Error, Space,
};

const OUTPUT: &str = "sftp> df\n        Size         Used        Avail       (Root)    %Capacity\n   102400000     51200000     51200000     51200000          50%\nsftp> exit\n";

#[test]
fn parses_sftp_df_output() {
    let space = parse_df_output(OUTPUT).unwrap();
    assert_eq!(
        space,
        Space {
            size: 102400000,
            used: 51200000,
            avail: 51200000
        }
    );
}

#[test]
fn parses_crlf_and_unicode_white_space() {
    let out = "a\r\nb\r\n\u{3000}7\t+8\u{a0}9\r\n";
    assert_eq!(
        parse_df_output(out).unwrap(),
        Space {
            size: 7,
            used: 8,
            avail: 9
        }
    );
    // a last line without a line feed counts
    assert_eq!(
        parse_df_output("x\ny\n1 2 3").unwrap(),
        Space {
            size: 1,
            used: 2,
            avail: 3
        }
    );
}

fn other(r: Result<Space, Error>) -> String {
    match r {
        Err(Error::Other(m)) => m,
        other => panic!("unexpected {:?}", other),
    }
}

#[test]
fn reports_missing_parts() {
    assert_eq!(other(parse_df_output("")), "Third line missing in output.");
    assert_eq!(other(parse_df_output("a\nb\n")), "Third line missing in output.");
    assert_eq!(other(parse_df_output("a\nb\n\n")), "First column missing.");
    assert_eq!(other(parse_df_output("a\nb\n  \t \n")), "First column missing.");
    assert_eq!(other(parse_df_output("a\nb\n12\n")), "Second column missing.");
    assert_eq!(other(parse_df_output("a\nb\n12 13\n")), "Third column missing.");
}

#[test]
fn reports_numbers_that_do_not_parse() {
    assert!(matches!(parse_df_output("a\nb\nx 1 2\n"), Err(Error::ParseInt(_))));
    assert!(matches!(parse_df_output("a\nb\n1 -2 3\n"), Err(Error::ParseInt(_))));
    // the second column is read before the third is found missing
    assert!(matches!(parse_df_output("a\nb\n1 y\n"), Err(Error::ParseInt(_))));
    assert!(matches!(
        parse_df_output("a\nb\n1 2 18446744073709551616\n"),
        Err(Error::ParseInt(_))
    ));
    assert_eq!(
        parse_df_output("a\nb\n1 2 18446744073709551615\n").unwrap().avail,
        u64::MAX
    );
}

#[test]
fn sftp_location_of_a_remote_repository() {
    assert_eq!(
        sftp_location("ssh://user@example.org:2222/~/backup").unwrap(),
        "sftp://user@example.org:2222"
    );
    assert!(matches!(sftp_location("not a url"), Err(Error::Url(_))));
}

#[test]
fn space_sources() {
    let cached = Some(Space {
        size: 1,
        used: 1,
        avail: 0,
    });
    let fresh = Some(Space {
        size: 2,
        used: 1,
        avail: 1,
    });
    assert!(needs_lookup(true, &cached));
    assert!(!needs_lookup(false, &cached));
    assert!(needs_lookup(false, &None));
    assert_eq!(cached_or_lookup(true, cached, fresh), fresh);
    assert_eq!(cached_or_lookup(true, cached, None), cached);
    assert_eq!(cached_or_lookup(false, cached, fresh), cached);
    assert_eq!(cached_or_lookup(false, None, fresh), fresh);
    assert_eq!(cached_or_lookup(false, None, None), None);
}
