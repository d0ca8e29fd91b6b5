use borgman::config::RunConfig;
use borgman::metrics::{cur_time_epoch_seconds, epoch_seconds, success_label};
use borgman::orchestrate::{Action, Orchestrator, Phase, RunError, Stage};
use borgman::output::{captured_text, process_outcome, CommandOutcome};
use borgman::validate::{check_input, validate_inputs, InputReason, PathProbe, Validation};

fn strings(v: &[&str]) -> Vec<String> {
    v.iter().map(|s| s.to_string()).collect()
}

fn config(dry_run: bool) -> RunConfig {
    RunConfig {
        inputs: strings(&["/data", "/etc"]),
        excludes: strings(&["*.tmp"]),
        keep_daily: 1,
        keep_weekly: 2,
        keep_monthly: 3,
        repo_path: "/backup/repo".to_string(),
        sync_dest: "remote:backup".to_string(),
        dry_run,
        metrics_addr: None,
    }
}

#[test]
fn file_input_passes() {
    assert!(check_input(&"/data/file.txt".to_string(), PathProbe::File).is_ok());
}

#[test]
fn empty_directory_is_rejected_by_name() {
    match check_input(&"/mnt/disk".to_string(), PathProbe::Directory { entries: 0 }) {
        Err(e) => {
            assert_eq!(e.path, "/mnt/disk");
            assert_eq!(e.reason, InputReason::EmptyDirectory);
        }
        Ok(()) => panic!("an empty directory passed"),
    }
}

#[test]
fn non_empty_directory_passes() {
    assert!(check_input(&"/data".to_string(), PathProbe::Directory { entries: 1 }).is_ok());
    assert!(check_input(&"/data".to_string(), PathProbe::Directory { entries: 4096 }).is_ok());
}

#[test]
fn missing_path_is_rejected_by_name() {
    match check_input(&"/nope".to_string(), PathProbe::Unavailable) {
        Err(e) => {
            assert_eq!(e.path, "/nope");
            assert_eq!(e.reason, InputReason::MetadataUnavailable);
        }
        Ok(()) => panic!("a missing path passed"),
    }
}

#[test]
fn validation_asks_for_each_path_in_order() {
    let paths = strings(&["/a", "/b", "/c"]);
    assert!(matches!(validate_inputs(&paths, &vec![]), Validation::Probe(0)));
    assert!(matches!(validate_inputs(&paths, &vec![PathProbe::File]), Validation::Probe(1)));
    let two = vec![PathProbe::File, PathProbe::Directory { entries: 2 }];
    assert!(matches!(validate_inputs(&paths, &two), Validation::Probe(2)));
    let all = vec![PathProbe::File, PathProbe::Directory { entries: 2 }, PathProbe::File];
    assert!(matches!(validate_inputs(&paths, &all), Validation::Passed));
}

#[test]
fn validation_stops_at_first_missing_path() {
    let paths = strings(&["/a", "/missing", "/c"]);
    let probes = vec![PathProbe::File, PathProbe::Unavailable];
    match validate_inputs(&paths, &probes) {
        Validation::Failed(e) => {
            assert_eq!(e.path, "/missing");
            assert_eq!(e.reason, InputReason::MetadataUnavailable);
        }
        _ => panic!("expected a failure at the missing path"),
    }
    let probes = vec![PathProbe::File, PathProbe::Unavailable, PathProbe::Directory { entries: 0 }];
    match validate_inputs(&paths, &probes) {
        Validation::Failed(e) => assert_eq!(e.path, "/missing"),
        _ => panic!("expected a failure at the missing path"),
    }
}

#[test]
fn validation_of_empty_directory_list_entry() {
    let paths = strings(&["/empty", "/b"]);
    match validate_inputs(&paths, &vec![PathProbe::Directory { entries: 0 }]) {
        Validation::Failed(e) => {
            assert_eq!(e.path, "/empty");
            assert_eq!(e.reason, InputReason::EmptyDirectory);
        }
        _ => panic!("expected an empty-directory failure"),
    }
}

#[test]
fn captured_text_decodes_utf8() {
    assert_eq!(captured_text("héllo wörld".as_bytes().to_vec(), "fallback"), "héllo wörld");
    assert_eq!(captured_text(Vec::new(), "fallback"), "");
}

#[test]
fn captured_text_falls_back_on_invalid_bytes() {
    assert_eq!(captured_text(vec![0x66, 0xff, 0xfe], "cant get stdout"), "cant get stdout");
}

#[test]
fn process_outcome_keeps_status_and_streams() {
    match process_outcome(false, Some(2), b"partial".to_vec(), vec![0xff]) {
        CommandOutcome::Failed { status, stdout, stderr } => {
            assert_eq!(status, Some(2));
            assert_eq!(stdout, "partial");
            assert_eq!(stderr, "cant get stderr");
        }
        _ => panic!("expected a failed outcome"),
    }
    match process_outcome(true, Some(0), vec![0xc3], Vec::new()) {
        CommandOutcome::Succeeded { stdout } => assert_eq!(stdout, "cant get stdout"),
        _ => panic!("expected a successful outcome"),
    }
}

fn expect_run(o: &Orchestrator) -> Vec<String> {
    match o.next_action() {
        Action::Run(inv) => {
            let mut v = vec![inv.program];
            v.extend(inv.args);
            v
        }
        _ => panic!("expected a command to run"),
    }
}

#[test]
fn dry_run_shows_every_stage_and_succeeds() {
    let mut o = Orchestrator::new(config(true));
    let mut shown = Vec::new();
    loop {
        match o.next_action() {
            Action::Run(_) => panic!("a dry run started a process"),
            Action::Show(inv) => {
                shown.push(inv.program.clone());
                match o.record(CommandOutcome::Skipped) {
                    Ok(text) => assert_eq!(text, "not running, in dry_run mode"),
                    Err(_) => panic!("a skipped stage failed"),
                }
            }
            Action::Finish => break,
        }
    }
    assert_eq!(shown, vec!["borg", "borg", "rclone"]);
    assert_eq!(o.phase(), Phase::Done);
}

#[test]
fn stages_run_in_order_and_finish() {
    let mut o = Orchestrator::new(config(false));
    assert_eq!(o.phase(), Phase::Running(Stage::Create));
    assert_eq!(expect_run(&o)[1], "create");
    match o.record(CommandOutcome::Succeeded { stdout: "archived".to_string() }) {
        Ok(text) => assert_eq!(text, "archived"),
        Err(_) => panic!("create failed"),
    }
    assert_eq!(o.phase(), Phase::Running(Stage::Prune));
    assert_eq!(expect_run(&o)[1], "prune");
    assert!(o.record(CommandOutcome::Succeeded { stdout: String::new() }).is_ok());
    assert_eq!(o.phase(), Phase::Running(Stage::Sync));
    assert_eq!(expect_run(&o), vec!["rclone", "sync", "/backup/repo", "remote:backup"]);
    assert!(o.record(CommandOutcome::Succeeded { stdout: String::new() }).is_ok());
    assert_eq!(o.phase(), Phase::Done);
    assert!(matches!(o.next_action(), Action::Finish));
}

#[test]
fn create_failure_stops_the_run() {
    let mut o = Orchestrator::new(config(false));
    let _ = expect_run(&o);
    let outcome = CommandOutcome::Failed {
        status: Some(2),
        stdout: "some output".to_string(),
        stderr: "Repository does not exist".to_string(),
    };
    match o.record(outcome) {
        Err(RunError::CommandFailure { command, status, stdout, stderr }) => {
            assert_eq!(status, Some(2));
            assert_eq!(stdout, "some output");
            assert_eq!(stderr, "Repository does not exist");
            assert!(command.starts_with("borg create --verbose"));
            assert!(command.ends_with("--exclude *.tmp /backup/repo::data-{now} /data /etc"));
        }
        _ => panic!("expected a command failure"),
    }
    assert_eq!(o.phase(), Phase::Failed);
    assert!(matches!(o.next_action(), Action::Finish));
}

#[test]
fn spawn_failure_names_the_command() {
    let mut o = Orchestrator::new(config(false));
    assert!(o.record(CommandOutcome::Succeeded { stdout: String::new() }).is_ok());
    match o.record(CommandOutcome::SpawnFailed { message: "No such file".to_string() }) {
        Err(RunError::CommandError { command, message }) => {
            assert_eq!(
                command,
                "borg prune --list --prefix data- --show-rc --keep-daily 1 --keep-weekly 2 --keep-monthly 3 /backup/repo"
            );
            assert_eq!(message, "No such file");
        }
        _ => panic!("expected a command error"),
    }
    assert_eq!(o.phase(), Phase::Failed);
}

#[test]
fn success_label_values() {
    assert_eq!(success_label(true), "1");
    assert_eq!(success_label(false), "0");
}

#[test]
fn clock_reads_after_the_epoch() {
    let now = cur_time_epoch_seconds().expect("clock before the epoch");
    assert!(now > 1_500_000_000);
}

#[test]
fn epoch_seconds_rounds_down_to_whole_seconds() {
    assert_eq!(epoch_seconds(Ok((0, 0))), Some(0));
    assert_eq!(epoch_seconds(Ok((1_700_000_000, 999_999_999))), Some(1_700_000_000));
    assert_eq!(epoch_seconds(Ok((u64::MAX, 5))), Some(u64::MAX));
}

#[test]
fn epoch_seconds_of_reading_before_epoch_is_none() {
    assert_eq!(epoch_seconds(Err(())), None);
}

#[test]
fn epoch_seconds_keeps_readings_in_order() {
    let a = epoch_seconds(Ok((100, 999_999_999))).unwrap();
    let b = epoch_seconds(Ok((101, 0))).unwrap();
    assert!(a <= b);
    assert_eq!(b - a, 1);
}
