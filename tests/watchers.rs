use std::collections::hash_map::DefaultHasher;
use std::hash::{Hash, Hasher};
use std::time::Duration;

use system_watcher::disk_space;
use system_watcher::memory;
use system_watcher::reporter::RecordingReporter;
use system_watcher::text::push_decimal;
use system_watcher::usage::used_percent;
use system_watcher::watcher::{
    ActiveAlert, Alert, AlertReporter, MultiWatcher, SerializedMultiWatcher, Watcher,
    WatcherConfiguration, WatcherEnum, WatcherKind,
};

fn disk_watcher(thresholds: &[u64]) -> MultiWatcher<disk_space::Alert> {
    MultiWatcher::new(disk_serialized(thresholds, 60))
}

fn disk_serialized(thresholds: &[u64], period_secs: u64) -> SerializedMultiWatcher<disk_space::Alert> {
    SerializedMultiWatcher {
        configuration: disk_space::Configuration { path: String::from("/"), period_secs },
        alerts: thresholds.iter().map(|t| disk_space::Alert { threshold_percent: *t }).collect(),
    }
}

fn memory_serialized(thresholds: &[u64], period_secs: u64) -> SerializedMultiWatcher<memory::Alert> {
    SerializedMultiWatcher {
        configuration: memory::Configuration { period_secs },
        alerts: thresholds.iter().map(|t| memory::Alert { threshold_percent: *t }).collect(),
    }
}

fn disk_result(usage_percent: u64) -> Result<disk_space::CheckResult, anyhow::Error> {
    Ok(disk_space::CheckResult { usage_percent })
}

fn messages(reporter: &RecordingReporter) -> Vec<String> {
    reporter.alerts.iter().map(|a| a.message.clone()).collect()
}

fn hash_of(c: &WatcherConfiguration) -> u64 {
    let mut h = DefaultHasher::new();
    c.hash(&mut h);
    h.finish()
}

#[test]
fn none_fire_reports_nothing() {
    let w = disk_watcher(&[96, 99, 100]);
    let mut reporter = RecordingReporter::new();
    assert!(w.evaluate_and_report(disk_result(95), &mut reporter).is_ok());
    assert!(reporter.alerts.is_empty());
}

#[test]
fn empty_alert_list_succeeds_trivially() {
    let w = disk_watcher(&[]);
    let mut reporter = RecordingReporter::new();
    assert!(w.evaluate_and_report(disk_result(100), &mut reporter).is_ok());
    assert!(reporter.alerts.is_empty());
}

#[test]
fn one_fires_reports_its_message_once() {
    let w = disk_watcher(&[99, 90, 97]);
    let mut reporter = RecordingReporter::new();
    assert!(w.evaluate_and_report(disk_result(95), &mut reporter).is_ok());
    assert_eq!(messages(&reporter), vec!["disk usage is 95%, over the threshold of 90%".to_string()]);
}

#[test]
fn several_fire_in_declaration_order() {
    let w = disk_watcher(&[10, 99, 50, 10]);
    let mut reporter = RecordingReporter::new();
    assert!(w.evaluate_and_report(disk_result(95), &mut reporter).is_ok());
    assert_eq!(
        messages(&reporter),
        vec![
            "disk usage is 95%, over the threshold of 10%".to_string(),
            "disk usage is 95%, over the threshold of 50%".to_string(),
            "disk usage is 95%, over the threshold of 10%".to_string(),
        ]
    );
}

#[test]
fn refused_deliveries_neither_stop_nor_fail_the_cycle() {
    let w = disk_watcher(&[10, 20, 30]);
    let mut reporter = RecordingReporter::refusing();
    assert!(w.evaluate_and_report(disk_result(95), &mut reporter).is_ok());
    assert_eq!(reporter.alerts.len(), 3);
    assert_eq!(reporter.alerts[2].message, "disk usage is 95%, over the threshold of 30%");
}

#[test]
fn refusing_reporter_answers_with_an_error() {
    let mut reporter = RecordingReporter::refusing();
    let alert = ActiveAlert { message: String::from("x") };
    assert!(reporter.report(&alert).is_err());
    let mut accepting = RecordingReporter::new();
    assert!(accepting.report(&alert).is_ok());
    assert_eq!(accepting.alerts[0].message, "x");
}

#[test]
fn failed_check_is_returned_and_nothing_reported() {
    let w = disk_watcher(&[0, 10]);
    let mut reporter = RecordingReporter::new();
    let r = w.evaluate_and_report(Err(anyhow::Error::msg("cannot read the disk")), &mut reporter);
    assert_eq!(r.unwrap_err().to_string(), "cannot read the disk");
    assert!(reporter.alerts.is_empty());
}

#[test]
fn two_cycles_report_the_same() {
    let w = disk_watcher(&[50, 99, 80]);
    let mut reporter = RecordingReporter::new();
    assert!(w.evaluate_and_report(disk_result(90), &mut reporter).is_ok());
    let first = messages(&reporter);
    assert!(w.evaluate_and_report(disk_result(90), &mut reporter).is_ok());
    let all = messages(&reporter);
    assert_eq!(first.len(), 2);
    assert_eq!(all[..2], all[2..]);
}

#[test]
fn configurations_equal_by_kind() {
    let a = WatcherConfiguration::DiskSpace(disk_serialized(&[90], 60));
    let b = WatcherConfiguration::DiskSpace(disk_serialized(&[10, 20], 5));
    let c = WatcherConfiguration::Memory(memory_serialized(&[90], 60));
    let d = WatcherConfiguration::Memory(memory_serialized(&[], 1));
    assert!(a == b);
    assert!(c == d);
    assert!(a != c);
    assert!(d != b);
    assert_eq!(hash_of(&a), hash_of(&b));
    assert_eq!(hash_of(&c), hash_of(&d));
    assert_eq!(a.kind(), WatcherKind::DiskSpace);
    assert_eq!(d.kind(), WatcherKind::Memory);
}

#[test]
fn period_survives_conversion() {
    let disk: WatcherEnum = WatcherConfiguration::DiskSpace(disk_serialized(&[90], 300)).into();
    assert_eq!(disk.period(), Duration::from_secs(300));
    let mem: WatcherEnum = WatcherConfiguration::Memory(memory_serialized(&[90], 15)).into();
    assert_eq!(mem.period(), Duration::from_secs(15));
    assert_eq!(disk_watcher(&[]).period(), Duration::from_secs(60));
}

#[test]
fn disk_threshold_scenario() {
    let alert = disk_space::Alert { threshold_percent: 90 };
    let fired = alert.is_triggered(&disk_space::CheckResult { usage_percent: 95 });
    let message = fired.unwrap().message;
    assert!(message.contains("95%"));
    assert_eq!(message, "disk usage is 95%, over the threshold of 90%");
    assert!(alert.is_triggered(&disk_space::CheckResult { usage_percent: 50 }).is_none());
    assert!(alert.is_triggered(&disk_space::CheckResult { usage_percent: 90 }).is_none());
}

#[test]
fn memory_alert_message() {
    let alert = memory::Alert { threshold_percent: 0 };
    let fired = alert.is_triggered(&memory::CheckResult { usage_percent: 7 });
    assert_eq!(fired.unwrap().message, "memory usage is 7%, over the threshold of 0%");
    assert!(alert.is_triggered(&memory::CheckResult { usage_percent: 0 }).is_none());
}

#[test]
fn usage_from_block_counts() {
    assert_eq!(disk_space::usage_from_blocks(200, 10).unwrap(), disk_space::CheckResult { usage_percent: 95 });
    assert_eq!(disk_space::usage_from_blocks(3, 2).unwrap().usage_percent, 33);
    assert_eq!(disk_space::usage_from_blocks(5, 9).unwrap().usage_percent, 0);
    let e = disk_space::usage_from_blocks(0, 0).unwrap_err();
    assert_eq!(e.to_string(), "the file system reports no blocks");
}

#[test]
fn usage_from_memory_totals() {
    assert_eq!(memory::usage_from_totals(1000, 500).unwrap(), memory::CheckResult { usage_percent: 50 });
    assert_eq!(memory::usage_from_totals(1000, 0).unwrap().usage_percent, 100);
    let e = memory::usage_from_totals(0, 7).unwrap_err();
    assert_eq!(e.to_string(), "the system reports no memory");
}

#[test]
fn used_percent_of_largest_totals() {
    assert_eq!(used_percent(u64::MAX, 0), Some(100));
    assert_eq!(used_percent(u64::MAX, u64::MAX / 2), Some(50));
    assert_eq!(used_percent(0, 0), None);
}

#[test]
fn decimal_rendering() {
    let mut s = String::from("n=");
    push_decimal(&mut s, 0);
    assert_eq!(s, "n=0");
    let mut t = String::new();
    push_decimal(&mut t, 1204);
    assert_eq!(t, "1204");
    let mut u = String::new();
    push_decimal(&mut u, u64::MAX);
    assert_eq!(u, "18446744073709551615");
}

#[test]
fn duplicate_keeps_the_message() {
    let a = ActiveAlert { message: String::from("disk is full") };
    assert_eq!(a.duplicate().message, "disk is full");
}

#[test]
fn real_checks_run_a_cycle() {
    let disk: WatcherEnum = WatcherConfiguration::DiskSpace(disk_serialized(&[100], 60)).into();
    let mut reporter = RecordingReporter::new();
    assert!(disk.run(&mut reporter).is_ok());
    let mem: WatcherEnum = WatcherConfiguration::Memory(memory_serialized(&[100], 60)).into();
    assert!(mem.run(&mut reporter).is_ok());
    assert!(reporter.alerts.is_empty());
}

#[test]
fn missing_path_fails_the_cycle() {
    let w = MultiWatcher::<disk_space::Alert>::new(SerializedMultiWatcher {
        configuration: disk_space::Configuration { path: String::from("/no/such/path/here"), period_secs: 1 },
        alerts: vec![disk_space::Alert { threshold_percent: 0 }],
    });
    let mut reporter = RecordingReporter::new();
    assert!(w.run(&mut reporter).is_err());
    assert!(reporter.alerts.is_empty());
}

#[test]
fn deliveries_carry_the_reporters_answers() {
    let w = disk_watcher(&[10, 99, 20]);
    let mut reporter = RecordingReporter::refusing();
    let deliveries = w.evaluate_and_deliver(disk_result(95), &mut reporter).unwrap();
    assert_eq!(deliveries.len(), 2);
    assert_eq!(deliveries[0].alert.message, "disk usage is 95%, over the threshold of 10%");
    assert_eq!(deliveries[1].alert.message, "disk usage is 95%, over the threshold of 20%");
    assert!(deliveries.iter().all(|d| d.outcome.is_err()));
    assert_eq!(reporter.alerts.len(), 2);
}

#[test]
fn deliveries_of_a_failed_check() {
    let w = disk_watcher(&[10]);
    let mut reporter = RecordingReporter::new();
    let r = w.evaluate_and_deliver(Err(anyhow::Error::msg("no disk")), &mut reporter);
    assert_eq!(r.unwrap_err().to_string(), "no disk");
    assert!(reporter.alerts.is_empty());
}

#[test]
fn converted_watcher_keeps_its_alerts() {
    let w: WatcherEnum = WatcherConfiguration::DiskSpace(disk_serialized(&[90], 60)).into();
    let mut reporter = RecordingReporter::new();
    match &w {
        WatcherEnum::DiskSpace(m) => {
            assert!(m.evaluate_and_report(disk_result(95), &mut reporter).is_ok());
            assert!(m.evaluate_and_report(disk_result(50), &mut reporter).is_ok());
        }
        WatcherEnum::Memory(_) => panic!("expected a disk-space watcher"),
    }
    assert_eq!(messages(&reporter), vec!["disk usage is 95%, over the threshold of 90%".to_string()]);
    let deliveries = w.run_collecting(&mut RecordingReporter::new()).unwrap();
    assert!(deliveries.iter().all(|d| d.outcome.is_ok()));
}

#[test]
fn kind_tags_differ_by_kind() {
    assert_eq!(WatcherConfiguration::DiskSpace(disk_serialized(&[1], 1)).kind_tag(), 0);
    assert_eq!(WatcherConfiguration::Memory(memory_serialized(&[], 9)).kind_tag(), 1);
}
