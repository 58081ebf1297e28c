use anyhow_alert::{anyhow_alert_system, anyhow_alerts_system, Alerts, ChannelConfig, DEFAULT_CHANNEL};

const FRAME_MS: u64 = 16;

fn config(max_visible: u64, default_lifetime: u64, auto_expire: bool) -> ChannelConfig {
    ChannelConfig { max_visible, default_lifetime, auto_expire }
}

fn strings(items: &[&str]) -> Vec<String> {
    items.iter().map(|s| s.to_string()).collect()
}

fn live(alerts: &Alerts, tag: usize) -> Vec<String> {
    alerts.channel(tag).unwrap().live_messages()
}

fn pending(alerts: &Alerts, tag: usize) -> Vec<String> {
    alerts.channel(tag).unwrap().pending_messages()
}

fn alert_count(alerts: &Alerts, tag: usize) -> usize {
    live(alerts, tag).len() + pending(alerts, tag).len()
}

fn alternate_output(counter: &mut usize) -> Result<(), String> {
    *counter += 1;
    if *counter % 2 == 1 {
        Ok(())
    } else {
        Err("testing!".to_string())
    }
}

fn alternate_output_many_errors(counter: &mut usize) -> Result<(), Vec<String>> {
    *counter += 1;
    if *counter % 2 == 1 {
        Ok(())
    } else {
        Err(vec!["testing!".to_string()])
    }
}

#[test]
fn test_one_error_system() {
    let mut alerts = Alerts::new();
    let mut counter = 0usize;
    let mut step = |alerts: &mut Alerts| {
        let out = alternate_output(&mut counter);
        anyhow_alert_system(out, alerts);
        alerts.update(FRAME_MS, &vec![]);
        alert_count(alerts, DEFAULT_CHANNEL)
    };
    assert_eq!(alert_count(&alerts, DEFAULT_CHANNEL), 0);
    assert_eq!(step(&mut alerts), 0);
    assert_eq!(step(&mut alerts), 1);
    assert_eq!(step(&mut alerts), 1);
    assert_eq!(step(&mut alerts), 2);
}

#[test]
fn test_error_collecting_system() {
    let mut alerts = Alerts::new();
    let mut counter = 0usize;
    let mut step = |alerts: &mut Alerts| {
        let out = alternate_output_many_errors(&mut counter);
        anyhow_alerts_system(out, alerts);
        alerts.update(FRAME_MS, &vec![]);
        alert_count(alerts, DEFAULT_CHANNEL)
    };
    assert_eq!(alert_count(&alerts, DEFAULT_CHANNEL), 0);
    assert_eq!(step(&mut alerts), 0);
    assert_eq!(step(&mut alerts), 1);
    assert_eq!(step(&mut alerts), 1);
    assert_eq!(step(&mut alerts), 2);
}

#[test]
fn alternating_failures_leave_two_messages_after_four_ticks() {
    let mut alerts = Alerts::new();
    let mut counter = 0usize;
    for _ in 0..4 {
        let out = alternate_output(&mut counter);
        anyhow_alert_system(out, &mut alerts);
        alerts.update(FRAME_MS, &vec![]);
    }
    assert_eq!(live(&alerts, DEFAULT_CHANNEL), strings(&["testing!", "testing!"]));
    assert!(pending(&alerts, DEFAULT_CHANNEL).is_empty());
}

#[test]
fn four_messages_capacity_three_then_dismiss() {
    let mut alerts = Alerts::new();
    assert!(alerts.alert(DEFAULT_CHANNEL, strings(&["a", "b", "c", "d"])));
    assert!(live(&alerts, DEFAULT_CHANNEL).is_empty());
    alerts.update(FRAME_MS, &vec![]);
    assert_eq!(live(&alerts, DEFAULT_CHANNEL), strings(&["a", "b", "c"]));
    assert_eq!(pending(&alerts, DEFAULT_CHANNEL), strings(&["d"]));

    let ids = alerts.channel(DEFAULT_CHANNEL).unwrap().live_ids();
    alerts.update(FRAME_MS, &vec![(DEFAULT_CHANNEL, ids[0])]);
    assert_eq!(live(&alerts, DEFAULT_CHANNEL), strings(&["b", "c"]));
    assert_eq!(pending(&alerts, DEFAULT_CHANNEL), strings(&["d"]));

    alerts.update(FRAME_MS, &vec![]);
    assert_eq!(live(&alerts, DEFAULT_CHANNEL), strings(&["b", "c", "d"]));
    assert!(pending(&alerts, DEFAULT_CHANNEL).is_empty());
}

#[test]
fn capacity_is_never_exceeded() {
    let mut alerts = Alerts::with_config(config(2, 1000, false));
    for round in 0..6 {
        alerts.alert(DEFAULT_CHANNEL, vec![format!("m{round}"), format!("n{round}"), format!("o{round}")]);
        alerts.update(FRAME_MS, &vec![]);
        assert!(live(&alerts, DEFAULT_CHANNEL).len() <= 2);
        let ids = alerts.channel(DEFAULT_CHANNEL).unwrap().live_ids();
        alerts.update(FRAME_MS, &vec![(DEFAULT_CHANNEL, ids[0])]);
        assert!(live(&alerts, DEFAULT_CHANNEL).len() <= 2);
    }
    assert_eq!(live(&alerts, DEFAULT_CHANNEL).len(), 1);
    assert_eq!(pending(&alerts, DEFAULT_CHANNEL).len(), 6 * 3 - 7);
}

#[test]
fn promotion_is_first_in_first_out() {
    let mut alerts = Alerts::with_config(config(2, 1000, false));
    alerts.alert(DEFAULT_CHANNEL, strings(&["r1", "r2", "r3", "r4", "r5"]));
    alerts.update(FRAME_MS, &vec![]);
    assert_eq!(live(&alerts, DEFAULT_CHANNEL), strings(&["r1", "r2"]));
    assert_eq!(pending(&alerts, DEFAULT_CHANNEL), strings(&["r3", "r4", "r5"]));
}

#[test]
fn zero_capacity_shows_nothing() {
    let mut alerts = Alerts::with_config(config(0, 1000, false));
    alerts.alert(DEFAULT_CHANNEL, strings(&["x"]));
    alerts.update(FRAME_MS, &vec![]);
    assert!(live(&alerts, DEFAULT_CHANNEL).is_empty());
    assert_eq!(pending(&alerts, DEFAULT_CHANNEL), strings(&["x"]));
}

#[test]
fn container_follows_records_at_tick_start() {
    let mut alerts = Alerts::new();
    assert!(!alerts.channel(DEFAULT_CHANNEL).unwrap().has_container());
    alerts.update(FRAME_MS, &vec![]);
    assert!(!alerts.channel(DEFAULT_CHANNEL).unwrap().has_container());

    alerts.alert(DEFAULT_CHANNEL, strings(&["only"]));
    assert!(!alerts.channel(DEFAULT_CHANNEL).unwrap().has_container());
    alerts.update(FRAME_MS, &vec![]);
    assert!(alerts.channel(DEFAULT_CHANNEL).unwrap().has_container());

    let ids = alerts.channel(DEFAULT_CHANNEL).unwrap().live_ids();
    alerts.update(FRAME_MS, &vec![(DEFAULT_CHANNEL, ids[0])]);
    assert!(live(&alerts, DEFAULT_CHANNEL).is_empty());
    assert!(alerts.channel(DEFAULT_CHANNEL).unwrap().has_container());

    alerts.update(FRAME_MS, &vec![]);
    assert!(!alerts.channel(DEFAULT_CHANNEL).unwrap().has_container());
}

#[test]
fn channels_do_not_interfere() {
    let mut alerts = Alerts::new();
    let other = alerts.add_channel(config(1, 500, false));
    assert_eq!(other, 1);
    assert_eq!(alerts.channel_count(), 2);

    alerts.alert(other, strings(&["x", "y"]));
    alerts.update(FRAME_MS, &vec![]);
    assert!(live(&alerts, DEFAULT_CHANNEL).is_empty());
    assert!(pending(&alerts, DEFAULT_CHANNEL).is_empty());
    assert!(!alerts.channel(DEFAULT_CHANNEL).unwrap().has_container());
    assert_eq!(live(&alerts, other), strings(&["x"]));
    assert_eq!(pending(&alerts, other), strings(&["y"]));

    alerts.alert(DEFAULT_CHANNEL, strings(&["a"]));
    let other_ids = alerts.channel(other).unwrap().live_ids();
    alerts.update(FRAME_MS, &vec![(other, other_ids[0])]);
    assert!(live(&alerts, other).is_empty());
    assert_eq!(pending(&alerts, other), strings(&["y"]));
    assert_eq!(live(&alerts, DEFAULT_CHANNEL), strings(&["a"]));
    assert!(alerts.channel(DEFAULT_CHANNEL).unwrap().has_container());
}

#[test]
fn unknown_channel_is_refused() {
    let mut alerts = Alerts::new();
    assert!(!alerts.alert(7, strings(&["lost"])));
    assert!(alerts.channel(7).is_none());
    alerts.update(FRAME_MS, &vec![]);
    assert_eq!(alert_count(&alerts, DEFAULT_CHANNEL), 0);
}

#[test]
fn adapter_passes_success_through() {
    let mut alerts = Alerts::new();
    assert_eq!(anyhow_alert_system(Ok::<u32, String>(42), &mut alerts), Some(42));
    assert_eq!(anyhow_alerts_system(Ok::<&str, Vec<String>>("done"), &mut alerts), Some("done"));
    assert_eq!(alert_count(&alerts, DEFAULT_CHANNEL), 0);
}

#[test]
fn adapter_reports_each_failure_in_order() {
    let mut alerts = Alerts::new();
    let r = anyhow_alerts_system(Err::<(), Vec<String>>(strings(&["e1", "e2"])), &mut alerts);
    assert_eq!(r, None);
    assert_eq!(pending(&alerts, DEFAULT_CHANNEL), strings(&["e1", "e2"]));
    let r = anyhow_alert_system(Err::<(), String>("e3".to_string()), &mut alerts);
    assert_eq!(r, None);
    assert_eq!(pending(&alerts, DEFAULT_CHANNEL), strings(&["e1", "e2", "e3"]));
}

#[test]
fn adapter_empty_failure_collection_reports_nothing() {
    let mut alerts = Alerts::new();
    let r = anyhow_alerts_system(Err::<(), Vec<String>>(vec![]), &mut alerts);
    assert_eq!(r, None);
    assert_eq!(alert_count(&alerts, DEFAULT_CHANNEL), 0);
}

#[test]
fn clocks_run_only_for_records_shown_before_the_tick() {
    let mut alerts = Alerts::new();
    alerts.alert(DEFAULT_CHANNEL, strings(&["a"]));
    alerts.update(100, &vec![]);
    assert_eq!(alerts.channel(DEFAULT_CHANNEL).unwrap().live_elapsed(), vec![0]);
    alerts.alert(DEFAULT_CHANNEL, strings(&["b"]));
    alerts.update(100, &vec![]);
    assert_eq!(alerts.channel(DEFAULT_CHANNEL).unwrap().live_elapsed(), vec![100, 0]);
    alerts.update(u64::MAX, &vec![]);
    assert_eq!(alerts.channel(DEFAULT_CHANNEL).unwrap().live_elapsed(), vec![u64::MAX, u64::MAX]);
}

#[test]
fn expired_records_stay_by_default() {
    let mut alerts = Alerts::with_config(config(3, 50, false));
    alerts.alert(DEFAULT_CHANNEL, strings(&["a"]));
    alerts.update(FRAME_MS, &vec![]);
    alerts.update(100, &vec![]);
    alerts.update(100, &vec![]);
    assert_eq!(live(&alerts, DEFAULT_CHANNEL), strings(&["a"]));
}

#[test]
fn expiry_policy_removes_expired_records() {
    let mut alerts = Alerts::with_config(config(3, 50, true));
    alerts.alert(DEFAULT_CHANNEL, strings(&["a"]));
    alerts.update(FRAME_MS, &vec![]);
    alerts.update(50, &vec![]);
    assert_eq!(live(&alerts, DEFAULT_CHANNEL), strings(&["a"]));
    alerts.update(1, &vec![]);
    assert!(live(&alerts, DEFAULT_CHANNEL).is_empty());
}

#[test]
fn default_settings() {
    let c = ChannelConfig::new();
    assert_eq!(c.max_visible, 3);
    assert_eq!(c.default_lifetime, 10000);
    assert!(!c.auto_expire);
}

#[test]
fn handles_are_distinct_and_dismiss_only_their_record() {
    let mut alerts = Alerts::new();
    alerts.alert(DEFAULT_CHANNEL, strings(&["a", "b", "c"]));
    alerts.update(FRAME_MS, &vec![]);
    let ids = alerts.channel(DEFAULT_CHANNEL).unwrap().live_ids();
    assert_eq!(ids, vec![0, 1, 2]);
    alerts.update(FRAME_MS, &vec![(DEFAULT_CHANNEL, ids[1])]);
    assert_eq!(live(&alerts, DEFAULT_CHANNEL), strings(&["a", "c"]));
}

#[test]
fn anyhow_error_text_is_reported() {
    let mut alerts = Alerts::new();
    let error = anyhow::Error::msg("disk full");
    let r = anyhow_alert_system(Err::<(), String>(error.to_string()), &mut alerts);
    assert_eq!(r, None);
    alerts.update(FRAME_MS, &vec![]);
    assert_eq!(live(&alerts, DEFAULT_CHANNEL), strings(&["disk full"]));
}
