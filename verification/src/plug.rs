//! The plug-transition detector's pure half: comparing two status
//! samples taken one interval apart and deciding which edge, if any,
//! they witness.
use vstd::prelude::*;
use crate::sensor::BattStatus;

verus! {

/// The edge witnessed by a pair of consecutive status samples.
#[derive(PartialEq, Eq, Structural, Clone, Copy, Debug)]
pub enum PlugAction {
    /// The charger was plugged in between the samples.
    PluggedIn,
    /// The charger was pulled between the samples.
    PluggedOut,
    /// No edge: both samples on the same side.
    NoTransition,
}

/// The edge a sample pair witnesses: discharging before and not after
/// is a plug-in, the reverse a plug-out, anything else no edge.
pub open spec fn spec_plug_action(before: BattStatus, after: BattStatus) -> PlugAction {
    if before == BattStatus::Discharging && after != BattStatus::Discharging {
        PlugAction::PluggedIn
    } else if before != BattStatus::Discharging && after == BattStatus::Discharging {
        PlugAction::PluggedOut
    } else {
        PlugAction::NoTransition
    }
}

/// Decide the edge for one pair of samples. The plug-in action fires
/// exactly on a `Discharging` to non-`Discharging` pair, the plug-out
/// action exactly on the reverse, and nothing fires on any other
/// pairing.
pub fn plug_step(before: BattStatus, after: BattStatus) -> (a: PlugAction)
    ensures
        a == spec_plug_action(before, after),
        (a == PlugAction::PluggedIn) <==> (before == BattStatus::Discharging
            && after != BattStatus::Discharging),
        (a == PlugAction::PluggedOut) <==> (before != BattStatus::Discharging
            && after == BattStatus::Discharging),
        (a == PlugAction::NoTransition) <==> ((before == BattStatus::Discharging) == (after
            == BattStatus::Discharging)),
{
    if matches!(before, BattStatus::Discharging) {
        if matches!(after, BattStatus::Discharging) {
            PlugAction::NoTransition
        } else {
            PlugAction::PluggedIn
        }
    } else {
        if matches!(after, BattStatus::Discharging) {
            PlugAction::PluggedOut
        } else {
            PlugAction::NoTransition
        }
    }
}

} // verus!
