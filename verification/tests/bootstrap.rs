use bootstrap_sequencer::plugin::{plugin_at, plugin_count, plugin_schedule, PluginKind};
use bootstrap_sequencer::sequencer::{initialize, InitError, Sequencer};

fn all_ok(n: usize) -> Vec<Result<(), String>> {
    let mut v: Vec<Result<(), String>> = Vec::new();
    for _ in 0..n {
        v.push(Ok(()));
    }
    v
}

#[test]
fn release_all_success() {
    let outcomes = all_ok(4);
    let report = initialize(false, &outcomes);
    assert_eq!(report.outcome, Ok(()));
    assert_eq!(
        report.attached,
        vec![
            PluginKind::Filesystem,
            PluginKind::Dialog,
            PluginKind::Shell,
            PluginKind::OsPaths,
        ]
    );
}

#[test]
fn debug_all_success() {
    let outcomes = all_ok(5);
    let report = initialize(true, &outcomes);
    assert_eq!(report.outcome, Ok(()));
    assert_eq!(
        report.attached,
        vec![
            PluginKind::Logging,
            PluginKind::Filesystem,
            PluginKind::Dialog,
            PluginKind::Shell,
            PluginKind::OsPaths,
        ]
    );
}

#[test]
fn debug_dialog_failure_stops_after_filesystem() {
    let mut outcomes = all_ok(5);
    outcomes[2] = Err(String::from("dialog attach refused"));
    let report = initialize(true, &outcomes);
    assert_eq!(
        report.outcome,
        Err(InitError {
            plugin: PluginKind::Dialog,
            cause: String::from("dialog attach refused"),
        })
    );
    assert_eq!(
        report.attached,
        vec![PluginKind::Logging, PluginKind::Filesystem]
    );
}

#[test]
fn debug_logging_failure_attaches_nothing() {
    let mut outcomes = all_ok(5);
    outcomes[0] = Err(String::from("log sink unavailable"));
    let report = initialize(true, &outcomes);
    let err = report.outcome.unwrap_err();
    assert_eq!(err.plugin, PluginKind::Logging);
    assert_eq!(err.cause, "log sink unavailable");
    assert!(report.attached.is_empty());
}

#[test]
fn debug_filesystem_failure_attaches_only_logging() {
    let mut outcomes = all_ok(5);
    outcomes[1] = Err(String::from("fs attach refused"));
    let report = initialize(true, &outcomes);
    let err = report.outcome.unwrap_err();
    assert_eq!(err.plugin, PluginKind::Filesystem);
    assert_eq!(report.attached, vec![PluginKind::Logging]);
}

#[test]
fn release_filesystem_failure_attaches_nothing() {
    let mut outcomes = all_ok(4);
    outcomes[0] = Err(String::from("fs attach refused"));
    let report = initialize(false, &outcomes);
    let err = report.outcome.unwrap_err();
    assert_eq!(err.plugin, PluginKind::Filesystem);
    assert!(report.attached.is_empty());
}

#[test]
fn release_schedule_has_no_logging() {
    let schedule = plugin_schedule(false);
    assert_eq!(
        schedule,
        vec![
            PluginKind::Filesystem,
            PluginKind::Dialog,
            PluginKind::Shell,
            PluginKind::OsPaths,
        ]
    );
    assert!(!schedule.contains(&PluginKind::Logging));
}

#[test]
fn debug_schedule_starts_with_logging() {
    let schedule = plugin_schedule(true);
    assert_eq!(schedule.len(), 5);
    assert_eq!(schedule[0], PluginKind::Logging);
}

#[test]
fn plugin_count_matches_schedule() {
    assert_eq!(plugin_count(true), 5);
    assert_eq!(plugin_count(false), 4);
    assert_eq!(plugin_count(true), plugin_schedule(true).len());
    assert_eq!(plugin_count(false), plugin_schedule(false).len());
}

#[test]
fn plugin_at_follows_the_fixed_order() {
    assert_eq!(plugin_at(true, 0), PluginKind::Logging);
    assert_eq!(plugin_at(true, 1), PluginKind::Filesystem);
    assert_eq!(plugin_at(true, 4), PluginKind::OsPaths);
    assert_eq!(plugin_at(false, 0), PluginKind::Filesystem);
    assert_eq!(plugin_at(false, 3), PluginKind::OsPaths);
}

#[test]
fn labels_name_each_plugin() {
    assert_eq!(PluginKind::Logging.label(), "logging");
    assert_eq!(PluginKind::Filesystem.label(), "filesystem");
    assert_eq!(PluginKind::Dialog.label(), "dialog");
    assert_eq!(PluginKind::Shell.label(), "shell");
    assert_eq!(PluginKind::OsPaths.label(), "os-paths");
}

#[test]
fn sequencer_drives_a_complete_release_run() {
    let mut seqr = Sequencer::new(false);
    let mut seen: Vec<PluginKind> = Vec::new();
    while let Some(kind) = seqr.next_plugin() {
        seen.push(kind);
        seqr.record_success();
    }
    assert!(!seqr.failed());
    assert_eq!(seen, plugin_schedule(false));
    let attached = seqr.into_outcome().unwrap();
    assert_eq!(attached, seen);
}

#[test]
fn sequencer_stops_at_a_recorded_failure() {
    let mut seqr = Sequencer::new(true);
    assert_eq!(seqr.next_plugin(), Some(PluginKind::Logging));
    seqr.record_success();
    assert_eq!(seqr.next_plugin(), Some(PluginKind::Filesystem));
    seqr.record_failure(String::from("volume not mounted"));
    assert!(seqr.failed());
    assert!(!seqr.pending());
    assert_eq!(seqr.next_plugin(), None);
    assert_eq!(seqr.attached_list(), &vec![PluginKind::Logging]);
    let err = seqr.into_outcome().unwrap_err();
    assert_eq!(err.plugin, PluginKind::Filesystem);
    assert_eq!(err.cause, "volume not mounted");
    assert_eq!(err.plugin.label(), "filesystem");
}
