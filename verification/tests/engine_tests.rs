use batt_reminder::config::Config;
use batt_reminder::engine::{step, NEAR_DEAD_PERCENTAGE, SETTLE_SLEEP_SECS};
use batt_reminder::sensor::{reading_from_texts, BattReading, BattStatus};

fn test_config() -> Config {
    let mut cfg = Config::default_config();
    cfg.battery_critical = 30;
    cfg.battery_low = 45;
    cfg.bat_crit_command_to_exec = "cmd-a".to_string();
    cfg
}

#[test]
fn discharging_below_critical_with_open_latch() {
    let cfg = test_config();
    let reading = reading_from_texts("25\n", "Discharging\n");
    assert_eq!(reading.percentage, 25);
    assert_eq!(reading.status, BattStatus::Discharging);
    let d = step(&cfg, &reading, true);
    assert!(d.notify_critical);
    assert!(d.play_audio);
    assert_eq!(d.gated_command, Some("cmd-a".to_string()));
    assert!(!d.allow_execute);
    assert_eq!(d.sleep_secs, cfg.critical_sleep_time);
    assert!(!d.notify_near_dead);
    assert_eq!(d.near_dead_command, None);
}

#[test]
fn discharging_below_critical_with_closed_latch() {
    let cfg = test_config();
    let reading = reading_from_texts("25\n", "Discharging\n");
    let d = step(&cfg, &reading, false);
    assert!(d.notify_critical);
    assert!(d.play_audio);
    assert_eq!(d.gated_command, None);
    assert!(!d.allow_execute);
    assert_eq!(d.sleep_secs, cfg.critical_sleep_time);
}

#[test]
fn discharging_above_low_reopens_latch() {
    let cfg = test_config();
    let reading = reading_from_texts("80", "Discharging");
    let d = step(&cfg, &reading, false);
    assert!(!d.notify_critical);
    assert!(!d.play_audio);
    assert!(!d.notify_near_dead);
    assert_eq!(d.gated_command, None);
    assert_eq!(d.near_dead_command, None);
    assert!(d.allow_execute);
    assert_eq!(d.sleep_secs, cfg.normal_sleep_time);
}

#[test]
fn low_band_fires_low_command_once() {
    let mut cfg = test_config();
    cfg.bat_low_command_to_exec = "dim-screen".to_string();
    let reading = BattReading { percentage: 40, status: BattStatus::Discharging };
    let first = step(&cfg, &reading, true);
    assert!(!first.notify_critical);
    assert_eq!(first.gated_command, Some("dim-screen".to_string()));
    assert!(!first.allow_execute);
    assert_eq!(first.sleep_secs, cfg.fast_sleep_time);
    let second = step(&cfg, &reading, first.allow_execute);
    assert_eq!(second.gated_command, None);
    assert!(!second.allow_execute);
}

#[test]
fn low_band_without_configured_command_keeps_latch_open() {
    let cfg = test_config();
    let reading = BattReading { percentage: 40, status: BattStatus::Discharging };
    let d = step(&cfg, &reading, true);
    assert_eq!(d.gated_command, None);
    assert!(d.allow_execute);
    assert_eq!(d.sleep_secs, cfg.fast_sleep_time);
}

#[test]
fn critical_band_without_configured_command_keeps_latch_open() {
    let mut cfg = test_config();
    cfg.bat_crit_command_to_exec = String::new();
    let reading = BattReading { percentage: 25, status: BattStatus::Discharging };
    let d = step(&cfg, &reading, true);
    assert!(d.notify_critical);
    assert_eq!(d.gated_command, None);
    assert!(d.allow_execute);
}

#[test]
fn charging_and_full_change_nothing() {
    let cfg = test_config();
    for status in ["Charging", "Full"] {
        for allow in [true, false] {
            let reading = reading_from_texts("25", status);
            let d = step(&cfg, &reading, allow);
            assert!(!d.notify_critical);
            assert!(!d.play_audio);
            assert!(!d.notify_near_dead);
            assert_eq!(d.gated_command, None);
            assert_eq!(d.near_dead_command, None);
            assert_eq!(d.allow_execute, allow);
            assert_eq!(d.sleep_secs, cfg.normal_sleep_time);
        }
    }
}

#[test]
fn unknown_status_changes_nothing_and_sleeps_short() {
    let cfg = test_config();
    let reading = reading_from_texts("25", "garbled");
    assert_eq!(reading.status, BattStatus::Unknown);
    let d = step(&cfg, &reading, true);
    assert_eq!(d.gated_command, None);
    assert!(d.allow_execute);
    assert_eq!(d.sleep_secs, 0);
    assert_eq!(SETTLE_SLEEP_SECS, 5);
}

#[test]
fn near_dead_band_fires_unconditionally() {
    let cfg = test_config();
    assert!(NEAR_DEAD_PERCENTAGE == 10);
    let reading = BattReading { percentage: 5, status: BattStatus::Discharging };
    // even with the latch closed the near-death tier fires every cycle
    let d = step(&cfg, &reading, false);
    assert!(d.notify_critical);
    assert!(d.notify_near_dead);
    assert_eq!(d.near_dead_command, Some("systemctl poweroff".to_string()));
    assert_eq!(d.gated_command, None);
    assert_eq!(d.sleep_secs, cfg.critical_sleep_time);
    let again = step(&cfg, &reading, d.allow_execute);
    assert_eq!(again.near_dead_command, Some("systemctl poweroff".to_string()));
}

#[test]
fn latch_reopens_after_recovery_then_fires_once_more() {
    let mut cfg = test_config();
    cfg.bat_low_command_to_exec = "dim-screen".to_string();
    let low = BattReading { percentage: 40, status: BattStatus::Discharging };
    let recovered = BattReading { percentage: 90, status: BattStatus::Discharging };

    let first = step(&cfg, &low, true);
    assert_eq!(first.gated_command, Some("dim-screen".to_string()));
    let silent = step(&cfg, &low, first.allow_execute);
    assert_eq!(silent.gated_command, None);
    let reset = step(&cfg, &recovered, silent.allow_execute);
    assert!(reset.allow_execute);
    let fired_again = step(&cfg, &low, reset.allow_execute);
    assert_eq!(fired_again.gated_command, Some("dim-screen".to_string()));
    assert!(!fired_again.allow_execute);
}
