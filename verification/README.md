# pika_backup

The logic of Pika Backup, a front end for borg backups, as a Verus library.

- `src/schedule/requirements.rs`: when a scheduled backup is due (hourly,
  daily, weekly, monthly rules), how long until it is, and the global
  requirements and hints that keep a backup from starting.
- `src/time.rs`: moments and calendar days as plain numbers; the two calls
  into chrono and chronoutil that shift dates.
- `src/ui/utils/df.rs`: reading `df` output from an sftp session, the sftp
  location of a repository, and whether to trust cached disk space.
- `src/ui/widget/dialog/setup/util.rs`: borg's `host:path` syntax as
  `ssh://` URLs, and what kind of location a parsed URI is.
- `src/ui/dialog_add_config.rs`: the decisions of the dialog that adds a
  configuration.
- `src/daemon/action.rs`: the background monitor's actions.
- `src/borg/json.rs`, `src/config.rs`: identifiers and configuration values.

`app/` holds what stays outside the verified library: reading the clock and
the time zone, running sftp, GIO and GLib calls, serde forms of borg's JSON
and the password meter.
