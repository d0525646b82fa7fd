use batt_reminder::plug::{plug_step, PlugAction};
use batt_reminder::sensor::BattStatus;

#[test]
fn discharging_to_charging_is_plug_in() {
    assert_eq!(
        plug_step(BattStatus::Discharging, BattStatus::Charging),
        PlugAction::PluggedIn
    );
    assert_eq!(plug_step(BattStatus::Discharging, BattStatus::Full), PlugAction::PluggedIn);
    assert_eq!(
        plug_step(BattStatus::Discharging, BattStatus::Unknown),
        PlugAction::PluggedIn
    );
}

#[test]
fn charging_to_discharging_is_plug_out() {
    assert_eq!(
        plug_step(BattStatus::Charging, BattStatus::Discharging),
        PlugAction::PluggedOut
    );
    assert_eq!(plug_step(BattStatus::Full, BattStatus::Discharging), PlugAction::PluggedOut);
    assert_eq!(
        plug_step(BattStatus::Unknown, BattStatus::Discharging),
        PlugAction::PluggedOut
    );
}

#[test]
fn same_side_pairs_do_nothing() {
    assert_eq!(
        plug_step(BattStatus::Discharging, BattStatus::Discharging),
        PlugAction::NoTransition
    );
    assert_eq!(plug_step(BattStatus::Charging, BattStatus::Charging), PlugAction::NoTransition);
    assert_eq!(plug_step(BattStatus::Charging, BattStatus::Full), PlugAction::NoTransition);
    assert_eq!(plug_step(BattStatus::Full, BattStatus::Unknown), PlugAction::NoTransition);
}
