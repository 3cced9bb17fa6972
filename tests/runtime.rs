use kovi::access::{is_access, AccessControl, AccessControlMode, AccessList, MessageOrigin};
use kovi::cron::{cron_decide, cron_should_fire, CronSchedule, CronStep};
use kovi::dispatch::{Dispatch, DispatchStep};
use kovi::logger::{format_line, level_label, try_set_logger, LogLevel};
use kovi::plugin::{PluginEntry, PluginShutdown, ShutdownAction, ShutdownEvent};
use serde_json::Value;

const GROUP_MSG: u64 = 3;
const NOTICE: u64 = 4;

fn policy(enabled: bool, mode: AccessControlMode, groups: &[i64], friends: &[i64]) -> AccessControl {
    let mut list = AccessList::new();
    for g in groups {
        list.add_group(*g);
    }
    for f in friends {
        list.add_friend(*f);
    }
    AccessControl { enabled, mode, list }
}

fn group(g: i64) -> MessageOrigin {
    MessageOrigin { group_id: Some(g), sender_id: 1 }
}

#[test]
fn access_truth_table() {
    let white = policy(true, AccessControlMode::WhiteList, &[100], &[7]);
    let black = policy(true, AccessControlMode::BlackList, &[100], &[7]);
    assert!(is_access(&white, &group(100)));
    assert!(!is_access(&white, &group(101)));
    assert!(!is_access(&black, &group(100)));
    assert!(is_access(&black, &group(101)));
    let private7 = MessageOrigin { group_id: None, sender_id: 7 };
    let private8 = MessageOrigin { group_id: None, sender_id: 8 };
    assert!(is_access(&white, &private7));
    assert!(!is_access(&white, &private8));
    assert!(!is_access(&black, &private7));
    assert!(is_access(&black, &private8));
    let off = policy(false, AccessControlMode::WhiteList, &[], &[]);
    assert!(is_access(&off, &group(101)));
}

#[test]
fn message_origin_from_json() {
    let v: Value = serde_json::from_str(r#"{"post_type":"message","message_type":"group","group_id":100,"user_id":5}"#).unwrap();
    assert_eq!(MessageOrigin::from_json(&v), Some(MessageOrigin { group_id: Some(100), sender_id: 5 }));
    let v: Value = serde_json::from_str(r#"{"post_type":"notice","user_id":5}"#).unwrap();
    assert_eq!(MessageOrigin::from_json(&v), None);
}

fn run_all(d: &mut Dispatch, plugins: &Vec<PluginEntry>, origin: &Option<MessageOrigin>, decodes: &mut Vec<u64>, ok: impl Fn(u64) -> bool) -> Vec<(usize, usize)> {
    let mut runs = Vec::new();
    loop {
        match d.step(plugins, origin) {
            DispatchStep::Decode(tag) => {
                decodes.push(tag);
                d.record(tag, ok(tag));
            }
            DispatchStep::Run { plugin, listener } => runs.push((plugin, listener)),
            DispatchStep::Done => return runs,
        }
    }
}

#[test]
fn whitelisted_group_listener() {
    let mut b = PluginEntry::new("b".to_string(), policy(true, AccessControlMode::WhiteList, &[100], &[]));
    b.on(GROUP_MSG);
    let plugins = vec![b];
    let mut decodes = Vec::new();
    let runs = run_all(&mut Dispatch::new(), &plugins, &Some(group(100)), &mut decodes, |_| true);
    assert_eq!(runs, vec![(0, 0)]);
    let runs = run_all(&mut Dispatch::new(), &plugins, &Some(group(101)), &mut decodes, |_| true);
    assert!(runs.is_empty());
    let private = Some(MessageOrigin { group_id: None, sender_id: 9 });
    let b2 = PluginEntry::new("b".to_string(), policy(false, AccessControlMode::WhiteList, &[], &[]));
    let mut plugins2 = vec![b2];
    plugins2[0].on(GROUP_MSG);
    let runs = run_all(&mut Dispatch::new(), &plugins2, &private, &mut decodes, |t| t != GROUP_MSG);
    assert!(runs.is_empty());
}

#[test]
fn each_type_decoded_once_per_event() {
    let mut a = PluginEntry::new("a".to_string(), policy(false, AccessControlMode::WhiteList, &[], &[]));
    a.on(GROUP_MSG);
    a.on(NOTICE);
    a.on(GROUP_MSG);
    let mut b = PluginEntry::new("b".to_string(), policy(false, AccessControlMode::WhiteList, &[], &[]));
    b.on(GROUP_MSG);
    b.on(NOTICE);
    let plugins = vec![a, b];
    let mut decodes = Vec::new();
    let runs = run_all(&mut Dispatch::new(), &plugins, &None, &mut decodes, |t| t == GROUP_MSG);
    assert_eq!(decodes, vec![GROUP_MSG, NOTICE]);
    assert_eq!(runs, vec![(0, 0), (0, 2), (1, 0)]);
}

#[test]
fn predecoded_types_are_not_decoded_again() {
    let mut a = PluginEntry::new("a".to_string(), policy(false, AccessControlMode::WhiteList, &[], &[]));
    a.on(GROUP_MSG);
    let plugins = vec![a];
    let mut d = Dispatch::new();
    assert!(d.record(GROUP_MSG, true));
    assert!(!d.record(GROUP_MSG, false));
    assert_eq!(d.lookup(GROUP_MSG), Some(true));
    let mut decodes = Vec::new();
    let runs = run_all(&mut d, &plugins, &None, &mut decodes, |_| false);
    assert!(decodes.is_empty());
    assert_eq!(runs, vec![(0, 0)]);
}

#[test]
fn disabled_plugin_gets_no_task() {
    let mut a = PluginEntry::new("a".to_string(), policy(false, AccessControlMode::WhiteList, &[], &[]));
    a.on(NOTICE);
    let mut b = a.clone();
    b.name = "b".to_string();
    a.set_enabled(false);
    let mut plugins = vec![a, b];
    let mut decodes = Vec::new();
    let runs = run_all(&mut Dispatch::new(), &plugins, &None, &mut decodes, |_| true);
    assert_eq!(runs, vec![(1, 0)]);
    plugins[0].set_enabled(true);
    let runs = run_all(&mut Dispatch::new(), &plugins, &None, &mut decodes, |_| true);
    assert_eq!(runs, vec![(0, 0), (1, 0)]);
}

#[test]
fn plugin_registration_bookkeeping() {
    let mut a = PluginEntry::new("a".to_string(), policy(false, AccessControlMode::WhiteList, &[], &[]));
    assert!(a.enabled);
    assert_eq!(a.on(1), 0);
    assert_eq!(a.on(2), 1);
    assert_eq!(a.add_drop_hook(), Some(0));
    assert_eq!(a.add_drop_hook(), Some(1));
    a.clear();
    assert!(a.listeners.is_empty());
    assert_eq!(a.drop_hooks, 0);
}

#[test]
fn shutdown_runs_hooks_after_cancellation_once() {
    let mut s = PluginShutdown::new(2);
    assert_eq!(s.step(ShutdownEvent::TasksCancelled), ShutdownAction::Ignore);
    assert_eq!(s.step(ShutdownEvent::Begin), ShutdownAction::SignalDisable);
    assert_eq!(s.step(ShutdownEvent::HookFinished), ShutdownAction::Ignore);
    assert_eq!(s.step(ShutdownEvent::Disabled), ShutdownAction::AwaitTasks);
    assert_eq!(s.step(ShutdownEvent::TasksCancelled), ShutdownAction::RunHook(0));
    assert_eq!(s.step(ShutdownEvent::HookFinished), ShutdownAction::RunHook(1));
    assert_eq!(s.step(ShutdownEvent::HookFinished), ShutdownAction::Finished);
    assert_eq!(s.step(ShutdownEvent::Begin), ShutdownAction::Ignore);
    assert_eq!(s.step(ShutdownEvent::TasksCancelled), ShutdownAction::Ignore);
}

#[test]
fn shutdown_without_hooks_finishes() {
    let mut s = PluginShutdown::new(0);
    s.step(ShutdownEvent::Begin);
    s.step(ShutdownEvent::Disabled);
    assert_eq!(s.step(ShutdownEvent::TasksCancelled), ShutdownAction::Finished);
}

#[test]
fn cron_every_five_seconds() {
    let schedule = CronSchedule::parse("*/5 * * * * *").unwrap();
    let start: i64 = 1_700_000_000_000;
    let mut now = start;
    let mut counter = 0;
    let mut enabled = true;
    loop {
        match schedule.plan(enabled, now) {
            CronStep::Sleep { until_ms, wait_ms } => {
                assert_eq!(wait_ms as i64, until_ms - now);
                if until_ms > start + 17_000 {
                    break;
                }
                now = until_ms;
                if cron_should_fire(enabled) {
                    counter += 1;
                }
            }
            CronStep::Stop => break,
        }
    }
    assert_eq!(counter, 3);
    enabled = false;
    now = start + 17_000;
    while now < start + 27_000 {
        match schedule.plan(enabled, now) {
            CronStep::Sleep { until_ms, .. } => {
                now = until_ms;
                counter += 1;
            }
            CronStep::Stop => break,
        }
    }
    assert_eq!(counter, 3);
}

#[test]
fn cron_decisions() {
    assert_eq!(cron_decide(false, 10, Some(20)), CronStep::Stop);
    assert_eq!(cron_decide(true, 10, None), CronStep::Stop);
    assert_eq!(cron_decide(true, 10, Some(25)), CronStep::Sleep { until_ms: 25, wait_ms: 15 });
    assert_eq!(cron_decide(true, 30, Some(25)), CronStep::Sleep { until_ms: 25, wait_ms: 0 });
    assert_eq!(cron_decide(true, i64::MIN, Some(i64::MAX)), CronStep::Sleep { until_ms: i64::MAX, wait_ms: u64::MAX });
    assert!(CronSchedule::parse("not a cron").is_err());
    assert!(CronSchedule::parse("0 18 * * *").is_ok());
}

#[test]
fn log_lines() {
    assert_eq!(format_line(LogLevel::Info, "", "01-02 03:04:05", "hi"), "[01-02 03:04:05] hi");
    assert_eq!(format_line(LogLevel::Warn, "Warn", "t", "x"), "[Warn] [t]: x");
    assert_eq!(level_label(LogLevel::Info), None);
    assert_eq!(level_label(LogLevel::Trace), Some("Trace"));
    assert_eq!(try_set_logger(None), None);
    assert_eq!(
        try_set_logger(Some("boom")),
        Some("Kovi init env_logger failed: boom. Very likely you've already started a logger".to_string())
    );
}
