//! The threshold engine: the state machine that turns one battery
//! reading and the one-shot command latch into the alert decision for
//! that poll cycle, together with the proofs of its alerting laws.
use vstd::prelude::*;
use crate::config::{Config, ConfigView};
use crate::sensor::{BattReading, BattStatus};

verus! {

/// Below this percentage the near-death tier fires: the most severe
/// band, below the configured critical threshold in any sensible
/// configuration.
pub const NEAR_DEAD_PERCENTAGE: u64 = 10;

/// The fixed settle delay a poll loop appends after every cycle, on
/// top of the interval the decision selects.
pub const SETTLE_SLEEP_SECS: u64 = 5;

/// Everything one poll cycle asks of the alert dispatcher, plus the
/// new latch value and the interval to sleep before the next read.
pub struct StepDecision {
    /// Show the repeating critical-tier notification.
    pub notify_critical: bool,
    /// Play the alert sound.
    pub play_audio: bool,
    /// Show the near-death warning notification.
    pub notify_near_dead: bool,
    /// The configured command the one-shot latch releases this cycle,
    /// if it releases one.
    pub gated_command: Option<String>,
    /// The near-death command, run every cycle the near-death band is
    /// reached, never gated.
    pub near_dead_command: Option<String>,
    /// The latch value for the next cycle.
    pub allow_execute: bool,
    /// The selected poll interval in seconds (the settle delay comes
    /// on top).
    pub sleep_secs: u64,
}

/// Ghost twin of `StepDecision`, commands as character sequences.
pub ghost struct StepDecisionView {
    pub notify_critical: bool,
    pub play_audio: bool,
    pub notify_near_dead: bool,
    pub gated_command: Option<Seq<char>>,
    pub near_dead_command: Option<Seq<char>>,
    pub allow_execute: bool,
    pub sleep_secs: u64,
}

impl View for StepDecision {
    type V = StepDecisionView;

    open spec fn view(&self) -> StepDecisionView {
        StepDecisionView {
            notify_critical: self.notify_critical,
            play_audio: self.play_audio,
            notify_near_dead: self.notify_near_dead,
            gated_command: self.gated_command.deep_view(),
            near_dead_command: self.near_dead_command.deep_view(),
            allow_execute: self.allow_execute,
            sleep_secs: self.sleep_secs,
        }
    }
}

/// A cycle that alerts nobody and leaves the latch at `allow`.
pub open spec fn spec_idle(allow: bool, sleep_secs: u64) -> StepDecisionView {
    StepDecisionView {
        notify_critical: false,
        play_audio: false,
        notify_near_dead: false,
        gated_command: None,
        near_dead_command: None,
        allow_execute: allow,
        sleep_secs: sleep_secs,
    }
}

/// The engine's whole behaviour for one cycle.
///
/// `Charging` and `Full` cycles are idle at the normal interval; an
/// `Unknown` status is idle with no interval of its own (only the
/// settle delay applies). A `Discharging` reading falls into the most
/// severe matching band: below critical, the repeating notification
/// and sound always fire and the latch may release the critical
/// command; within the near-death band the extra warning and its
/// ungated command fire as well. Between critical and low only the
/// latch may release the low command. At or above low the latch is
/// reset.
pub open spec fn spec_step(cfg: ConfigView, reading: BattReading, allow_execute: bool) -> StepDecisionView {
    match reading.status {
        BattStatus::Charging => spec_idle(allow_execute, cfg.normal_sleep_time),
        BattStatus::Full => spec_idle(allow_execute, cfg.normal_sleep_time),
        BattStatus::Unknown => spec_idle(allow_execute, 0),
        BattStatus::Discharging => {
            if reading.percentage < cfg.battery_critical {
                let fires = allow_execute && cfg.bat_crit_command_to_exec.len() > 0;
                let near = reading.percentage < NEAR_DEAD_PERCENTAGE;
                StepDecisionView {
                    notify_critical: true,
                    play_audio: true,
                    notify_near_dead: near,
                    gated_command: if fires {
                        Some(cfg.bat_crit_command_to_exec)
                    } else {
                        None
                    },
                    near_dead_command: if near {
                        Some(cfg.near_ded_command)
                    } else {
                        None
                    },
                    allow_execute: allow_execute && !fires,
                    sleep_secs: cfg.critical_sleep_time,
                }
            } else if reading.percentage < cfg.battery_low {
                let fires = allow_execute && cfg.bat_low_command_to_exec.len() > 0;
                StepDecisionView {
                    notify_critical: false,
                    play_audio: false,
                    notify_near_dead: false,
                    gated_command: if fires {
                        Some(cfg.bat_low_command_to_exec)
                    } else {
                        None
                    },
                    near_dead_command: None,
                    allow_execute: allow_execute && !fires,
                    sleep_secs: cfg.fast_sleep_time,
                }
            } else {
                spec_idle(true, cfg.normal_sleep_time)
            }
        },
    }
}

fn idle_decision(allow: bool, sleep_secs: u64) -> (d: StepDecision)
    ensures
        d@ == spec_idle(allow, sleep_secs),
{
    StepDecision {
        notify_critical: false,
        play_audio: false,
        notify_near_dead: false,
        gated_command: None,
        near_dead_command: None,
        allow_execute: allow,
        sleep_secs: sleep_secs,
    }
}

/// Run one cycle of the threshold engine.
pub fn step(cfg: &Config, reading: &BattReading, allow_execute: bool) -> (d: StepDecision)
    ensures
        d@ == spec_step(cfg@, *reading, allow_execute),
{
    match reading.status {
        BattStatus::Charging => idle_decision(allow_execute, cfg.normal_sleep_time),
        BattStatus::Full => idle_decision(allow_execute, cfg.normal_sleep_time),
        BattStatus::Unknown => idle_decision(allow_execute, 0),
        BattStatus::Discharging => {
            if reading.percentage < cfg.battery_critical {
                let fires = allow_execute && !cfg.bat_crit_command_to_exec.as_str().is_empty();
                let near = reading.percentage < NEAR_DEAD_PERCENTAGE;
                StepDecision {
                    notify_critical: true,
                    play_audio: true,
                    notify_near_dead: near,
                    gated_command: if fires {
                        Some(cfg.bat_crit_command_to_exec.clone())
                    } else {
                        None
                    },
                    near_dead_command: if near {
                        Some(cfg.near_ded_command.clone())
                    } else {
                        None
                    },
                    allow_execute: allow_execute && !fires,
                    sleep_secs: cfg.critical_sleep_time,
                }
            } else if reading.percentage < cfg.battery_low {
                let fires = allow_execute && !cfg.bat_low_command_to_exec.as_str().is_empty();
                StepDecision {
                    notify_critical: false,
                    play_audio: false,
                    notify_near_dead: false,
                    gated_command: if fires {
                        Some(cfg.bat_low_command_to_exec.clone())
                    } else {
                        None
                    },
                    near_dead_command: None,
                    allow_execute: allow_execute && !fires,
                    sleep_secs: cfg.fast_sleep_time,
                }
            } else {
                idle_decision(true, cfg.normal_sleep_time)
            }
        },
    }
}

/// A reading in the critical band: discharging below the critical
/// threshold.
pub open spec fn in_critical_band(cfg: ConfigView, r: BattReading) -> bool {
    r.status == BattStatus::Discharging && r.percentage < cfg.battery_critical
}

/// A reading in the low band: discharging at or above critical and
/// below low.
pub open spec fn in_low_band(cfg: ConfigView, r: BattReading) -> bool {
    r.status == BattStatus::Discharging
        && cfg.battery_critical <= r.percentage < cfg.battery_low
}

/// Whatever the latch holds, a critical-band cycle shows the critical
/// notification, plays the sound, and selects the critical interval.
pub proof fn lemma_critical_always_alerts(cfg: ConfigView, reading: BattReading, allow_execute: bool)
    requires
        in_critical_band(cfg, reading),
    ensures
        spec_step(cfg, reading, allow_execute).notify_critical,
        spec_step(cfg, reading, allow_execute).play_audio,
        spec_step(cfg, reading, allow_execute).sleep_secs == cfg.critical_sleep_time,
{
}

/// A `Charging` or `Full` cycle never touches the latch and asks
/// nothing of the alert dispatcher.
pub proof fn lemma_charging_full_idempotent(cfg: ConfigView, reading: BattReading, allow_execute: bool)
    requires
        reading.status == BattStatus::Charging || reading.status == BattStatus::Full,
    ensures
        spec_step(cfg, reading, allow_execute) == spec_idle(allow_execute, cfg.normal_sleep_time),
        spec_step(cfg, reading, allow_execute).allow_execute == allow_execute,
        spec_step(cfg, reading, allow_execute).gated_command is None,
        spec_step(cfg, reading, allow_execute).near_dead_command is None,
        !spec_step(cfg, reading, allow_execute).notify_critical,
        !spec_step(cfg, reading, allow_execute).play_audio,
        !spec_step(cfg, reading, allow_execute).notify_near_dead,
{
}

/// A recovery cycle (discharging at or above the low threshold) sets
/// the latch back to true. This needs the configured threshold
/// ordering: with inverted thresholds such a reading can still fall
/// in the critical band.
pub proof fn lemma_recovery_resets_latch(cfg: ConfigView, reading: BattReading, allow_execute: bool)
    requires
        cfg.battery_critical <= cfg.battery_low,
        reading.status == BattStatus::Discharging,
        reading.percentage >= cfg.battery_low,
    ensures
        spec_step(cfg, reading, allow_execute).allow_execute,
        spec_step(cfg, reading, allow_execute).gated_command is None,
{
}

/// The latch left after running the engine over a sequence of readings,
/// oldest first.
pub open spec fn latch_after_run(cfg: ConfigView, readings: Seq<BattReading>, allow0: bool) -> bool
    decreases readings.len(),
{
    if readings.len() == 0 {
        allow0
    } else {
        latch_after_run(cfg, readings.drop_first(), spec_step(cfg, readings[0], allow0).allow_execute)
    }
}

/// How many cycles of the run release a gated command.
pub open spec fn fire_count(cfg: ConfigView, readings: Seq<BattReading>, allow0: bool) -> nat
    decreases readings.len(),
{
    if readings.len() == 0 {
        0
    } else {
        (if spec_step(cfg, readings[0], allow0).gated_command is Some {
            1nat
        } else {
            0nat
        }) + fire_count(cfg, readings.drop_first(), spec_step(cfg, readings[0], allow0).allow_execute)
    }
}

/// Over any contiguous run of low-band readings the gated command is
/// released at most once, and never once the latch is closed: the latch
/// goes true to false exactly at the release and stays false until a
/// recovery.
pub proof fn lemma_low_band_fires_at_most_once(cfg: ConfigView, readings: Seq<BattReading>, allow0: bool)
    requires
        forall|i: int| 0 <= i < readings.len() ==> in_low_band(cfg, #[trigger] readings[i]),
    ensures
        fire_count(cfg, readings, allow0) <= 1,
        !allow0 ==> fire_count(cfg, readings, allow0) == 0 && !latch_after_run(cfg, readings, allow0),
        fire_count(cfg, readings, allow0) == 1 ==> !latch_after_run(cfg, readings, allow0),
    decreases readings.len(),
{
    if readings.len() > 0 {
        let d = spec_step(cfg, readings[0], allow0);
        assert(in_low_band(cfg, readings[0]));
        lemma_low_band_fires_at_most_once(cfg, readings.drop_first(), d.allow_execute);
    }
}

/// Once a recovery reading is observed, the latch is open again and the
/// next low-band episode with a configured low command releases it
/// exactly once, after which the latch stays closed for the rest of
/// the episode.
pub proof fn lemma_recovery_reenables_one_fire(
    cfg: ConfigView,
    recovery: BattReading,
    allow0: bool,
    episode: Seq<BattReading>,
)
    requires
        recovery.status == BattStatus::Discharging,
        recovery.percentage >= cfg.battery_low,
        episode.len() > 0,
        forall|i: int| 0 <= i < episode.len() ==> in_low_band(cfg, #[trigger] episode[i]),
        cfg.bat_low_command_to_exec.len() > 0,
    ensures
        spec_step(cfg, recovery, allow0).allow_execute,
        fire_count(cfg, episode, spec_step(cfg, recovery, allow0).allow_execute) == 1,
        !latch_after_run(cfg, episode, spec_step(cfg, recovery, allow0).allow_execute),
{
    let d0 = spec_step(cfg, episode[0], true);
    assert(in_low_band(cfg, episode[0]));
    assert(d0.gated_command is Some);
    assert(!d0.allow_execute);
    lemma_low_band_fires_at_most_once(cfg, episode.drop_first(), d0.allow_execute);
}

} // verus!
