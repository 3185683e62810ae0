use anycloud::archive::{archive_outcome, has_modifications, make_app_tar_gz, ArchiveError};
use anycloud::logger::{Level, LogRecord, LogzIO, Sematext, SimpleLogger};

#[test]
fn clean_tree_is_packed() {
    let args = make_app_tar_gz("?? notes.txt\n").unwrap();
    assert_eq!(args, vec!["archive", "--format=tar.gz", "-o", "app.tar.gz", "HEAD"]);
    assert!(make_app_tar_gz("").is_ok());
}

#[test]
fn modified_tree_is_refused() {
    match make_app_tar_gz(" M src/main.rs\n") {
        Err(ArchiveError::UncommittedChanges(s)) => assert_eq!(s, " M src/main.rs\n"),
        other => panic!("unexpected {:?}", other),
    }
    assert!(has_modifications("M  staged.rs"));
    assert!(!has_modifications("M"));
    assert!(!has_modifications("A  new.rs"));
}

#[test]
fn archive_exit_status() {
    assert!(archive_outcome(0).is_ok());
    assert!(matches!(archive_outcome(128), Err(ArchiveError::NotManagedByGit(128))));
}

fn record(level: Level) -> LogRecord {
    LogRecord {
        utc_time: "2021-03-01T10:00:00.000Z".to_string(),
        level,
        env: "staging".to_string(),
        cluster: "anycloud".to_string(),
        message: "hello \"world\"".to_string(),
    }
}

#[test]
fn loggers_keep_info_and_above() {
    assert!(LogzIO.enabled(Level::Error));
    assert!(Sematext.enabled(Level::Warn));
    assert!(SimpleLogger.enabled(Level::Info));
    assert!(!LogzIO.enabled(Level::Debug));
    assert!(!SimpleLogger.enabled(Level::Trace));
}

#[test]
fn log_documents_and_lines() {
    let doc = LogzIO.document(&record(Level::Info));
    assert_eq!(
        doc,
        r#"{"utc_time":"2021-03-01T10:00:00.000Z","level":"INFO","env":"staging","cluster":"anycloud","message":"hello \"world\""}"#
    );
    assert_eq!(Sematext.document(&record(Level::Info)), doc);
    let (line, to_stderr) = SimpleLogger.line(&record(Level::Error));
    assert_eq!(line, "2021-03-01T10:00:00.000Z | ERROR | staging | anycloud | hello \"world\"");
    assert!(to_stderr);
    assert!(!SimpleLogger.line(&record(Level::Warn)).1);
}
