use service_log::Log;

#[test]
fn a_slash_is_added_where_the_directory_has_none() {
    let log = Log::new("/tmp", ".log", "app", "|");
    assert_eq!(log.create_log_path(), "/tmp/app.log");
}

#[test]
fn a_directory_that_ends_in_a_slash_is_kept() {
    let log = Log::new("/tmp/", ".log", "app", "|");
    assert_eq!(log.create_log_path(), "/tmp/app.log");
}

#[test]
fn with_and_without_slash_resolve_alike() {
    let plain = Log::new("/tmp/logs", ".txt", "billing", ",");
    let slashed = Log::new("/tmp/logs/", ".txt", "billing", ",");
    assert_eq!(plain.create_log_path(), "/tmp/logs/billing.txt");
    assert_eq!(slashed.create_log_path(), plain.create_log_path());
}

#[test]
fn only_the_last_character_decides() {
    assert_eq!(Log::new("/", ".log", "app", "|").create_log_path(), "/app.log");
    assert_eq!(Log::new("a/b", ".log", "app", "|").create_log_path(), "a/b/app.log");
    assert_eq!(Log::new("logs//", ".log", "app", "|").create_log_path(), "logs//app.log");
    assert_eq!(Log::new("/var/log\\", ".log", "app", "|").create_log_path(), "/var/log\\/app.log");
    assert_eq!(Log::new("/données", ".log", "app", "|").create_log_path(), "/données/app.log");
    assert_eq!(Log::new("é", "", "", "|").create_log_path(), "é/");
}

#[test]
fn service_and_extension_are_taken_as_they_are() {
    assert_eq!(Log::new("/tmp", "", "app", "|").create_log_path(), "/tmp/app");
    assert_eq!(Log::new("/tmp", ".log", "", "|").create_log_path(), "/tmp/.log");
    assert_eq!(Log::new("/tmp", "log", "app", "|").create_log_path(), "/tmp/applog");
    assert_eq!(Log::new("/tmp", ".log", "a/b", "|").create_log_path(), "/tmp/a/b.log");
}

#[test]
fn the_directory_is_kept_as_given() {
    assert_eq!(Log::new("/tmp/logs", ".log", "app", "|").path(), "/tmp/logs");
    assert_eq!(Log::new("", ".log", "app", "|").path(), "");
}
