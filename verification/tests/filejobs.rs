use service_log::{Action, FileJob, Log, LogLevel, Stage, Timestamp};

/// A file system of one file that refuses nothing.
struct Disk {
    file: Option<String>,
    console: Vec<String>,
    opened: usize,
    created: usize,
}

impl Disk {
    fn new(file: Option<&str>) -> Disk {
        Disk { file: file.map(String::from), console: Vec::new(), opened: 0, created: 0 }
    }

    fn run(&mut self, mut job: FileJob) -> Stage {
        let mut steps = 0;
        while !job.is_finished() {
            let ok = match job.action() {
                Action::OpenAppend { path: _ } => {
                    self.opened += 1;
                    self.file.is_some()
                }
                Action::Create { path: _ } => {
                    self.created += 1;
                    self.file = Some(String::new());
                    true
                }
                Action::WriteLine { line } => {
                    let text = self.file.as_mut().unwrap();
                    text.push_str(&line);
                    text.push('\n');
                    true
                }
                Action::PrintLine { line } => {
                    self.console.push(line);
                    true
                }
                Action::Panic | Action::Nothing => unreachable!(),
            };
            job = job.advance(ok);
            steps += 1;
            assert!(steps <= 4);
        }
        job.stage()
    }
}

fn job() -> FileJob {
    FileJob::new(String::from("/tmp/app.log"), String::from("line"))
}

#[test]
fn a_job_starts_by_opening_for_append() {
    let job = job();
    assert_eq!(job.stage(), Stage::Open);
    assert!(!job.is_finished());
    assert_eq!(job.action(), Action::OpenAppend { path: String::from("/tmp/app.log") });
    assert_eq!(job.path(), "/tmp/app.log");
    assert_eq!(job.line(), "line");
}

#[test]
fn an_opened_file_is_written_to() {
    let job = job().advance(true);
    assert_eq!(job.stage(), Stage::Write);
    assert_eq!(job.action(), Action::WriteLine { line: String::from("line") });
    let job = job.advance(true);
    assert_eq!(job.stage(), Stage::Closed);
    assert!(job.is_finished());
    assert_eq!(job.action(), Action::Nothing);
}

#[test]
fn a_file_that_does_not_open_is_created() {
    let job = job().advance(false);
    assert_eq!(job.stage(), Stage::Create);
    assert_eq!(job.action(), Action::Create { path: String::from("/tmp/app.log") });
    let job = job.advance(true);
    assert_eq!(job.stage(), Stage::Write);
    assert_eq!(job.action(), Action::WriteLine { line: String::from("line") });
}

#[test]
fn a_file_that_cannot_be_created_ends_in_a_panic() {
    let job = job().advance(false).advance(false);
    assert_eq!(job.stage(), Stage::Abort);
    assert!(job.is_finished());
    assert_eq!(job.action(), Action::Panic);
    let job = job.advance(true);
    assert_eq!(job.stage(), Stage::Abort);
}

#[test]
fn a_failed_write_is_announced_on_the_console() {
    let job = job().advance(true).advance(false);
    assert_eq!(job.stage(), Stage::Notice);
    assert!(!job.is_finished());
    assert_eq!(
        job.action(),
        Action::PrintLine { line: String::from("Failed to perform necessary steps") }
    );
    assert_eq!(job.clone().advance(true).stage(), Stage::Closed);
    assert_eq!(job.advance(false).stage(), Stage::Closed);
}

#[test]
fn a_closed_job_stays_closed() {
    let job = job().advance(true).advance(true);
    assert_eq!(job.clone().advance(true).stage(), Stage::Closed);
    assert_eq!(job.advance(false).stage(), Stage::Closed);
}

#[test]
fn every_stage_follows_the_table() {
    let table = [
        (Stage::Open, true, Stage::Write),
        (Stage::Open, false, Stage::Create),
        (Stage::Create, true, Stage::Write),
        (Stage::Create, false, Stage::Abort),
        (Stage::Write, true, Stage::Closed),
        (Stage::Write, false, Stage::Notice),
        (Stage::Notice, true, Stage::Closed),
        (Stage::Notice, false, Stage::Closed),
        (Stage::Abort, true, Stage::Abort),
        (Stage::Abort, false, Stage::Abort),
        (Stage::Closed, true, Stage::Closed),
        (Stage::Closed, false, Stage::Closed),
    ];
    for (stage, ok, next) in table {
        assert_eq!(stage.next(ok), next);
    }
}

#[test]
fn every_job_ends_within_four_reports() {
    for reports in 0u32..16 {
        let mut job = job();
        for bit in 0..4 {
            job = job.advance(reports & (1 << bit) != 0);
        }
        assert!(job.is_finished());
        assert_eq!(job.path(), "/tmp/app.log");
        assert_eq!(job.line(), "line");
    }
}

#[test]
fn a_missing_file_is_created_with_one_line() {
    let mut disk = Disk::new(None);
    assert_eq!(disk.run(job()), Stage::Closed);
    assert_eq!(disk.file.as_deref(), Some("line\n"));
    assert_eq!(disk.opened, 1);
    assert_eq!(disk.created, 1);
    assert!(disk.console.is_empty());
}

#[test]
fn an_existing_file_is_appended_to_and_never_emptied() {
    let mut disk = Disk::new(Some("first\n"));
    assert_eq!(disk.run(job()), Stage::Closed);
    assert_eq!(disk.file.as_deref(), Some("first\nline\n"));
    assert_eq!(disk.created, 0);
    let mut empty = Disk::new(Some(""));
    assert_eq!(empty.run(job()), Stage::Closed);
    assert_eq!(empty.file.as_deref(), Some("line\n"));
    assert_eq!(empty.created, 0);
}

#[test]
fn lines_are_appended_in_the_order_of_the_calls() {
    let log = Log::new("/tmp", ".log", "app", "|");
    let mut disk = Disk::new(None);
    let calls = [
        (LogLevel::INFO, "one", 1u32),
        (LogLevel::WARNING, "two", 2),
        (LogLevel::ERROR, "three", 3),
        (LogLevel::DEBUG, "four", 4),
        (LogLevel::DONE, "five", 5),
    ];
    for (level, message, second) in calls {
        let now = Timestamp::new(2024, 1, 2, 3, 4, second).unwrap();
        let dispatch = log.stamped(now, level, message);
        assert_eq!(disk.run(dispatch.file.unwrap()), Stage::Closed);
    }
    let expected = "2024-01-02 03:04:01|INFO|one\n\
                    2024-01-02 03:04:02|WARNING|two\n\
                    2024-01-02 03:04:03|ERROR|three\n\
                    2024-01-02 03:04:04|DEBUG|four\n\
                    2024-01-02 03:04:05|DONE|five\n";
    assert_eq!(disk.file.as_deref(), Some(expected));
    assert_eq!(disk.opened, 5);
    assert_eq!(disk.created, 1);
}

#[test]
fn a_fatal_record_leaves_the_file_alone() {
    let log = Log::new("/tmp", ".log", "app", "|");
    let mut disk = Disk::new(Some("kept\n"));
    let now = Timestamp::new(2024, 1, 2, 3, 4, 5).unwrap();
    let dispatch = log.stamped(now, LogLevel::FATAL, "x");
    if let Some(job) = dispatch.file {
        disk.run(job);
    }
    assert_eq!(disk.file.as_deref(), Some("kept\n"));
    assert_eq!(disk.opened, 0);
}
