//! The immutable configuration record shared by the poll loops, its
//! default values, and the merge of parsed configuration-file entries
//! into those defaults.
use vstd::prelude::*;
use crate::text::str_eq;

verus! {

/// One value read out of the configuration file: the scalar kinds the
/// file format offers.
#[derive(Debug, Clone)]
pub enum ConfigType {
    String(String),
    Integer(u64),
    Boolean(bool),
    StringArray(Vec<String>),
}

/// Ghost twin of `ConfigType`, over character sequences.
pub ghost enum ConfigTypeView {
    String(Seq<char>),
    Integer(u64),
    Boolean(bool),
    StringArray(Seq<Seq<char>>),
}

impl DeepView for ConfigType {
    type V = ConfigTypeView;

    open spec fn deep_view(&self) -> ConfigTypeView {
        match self {
            ConfigType::String(s) => ConfigTypeView::String(s@),
            ConfigType::Integer(n) => ConfigTypeView::Integer(*n),
            ConfigType::Boolean(b) => ConfigTypeView::Boolean(*b),
            ConfigType::StringArray(v) => ConfigTypeView::StringArray(v.deep_view()),
        }
    }
}

/// The keyed entries of a parsed configuration file, in file order.
pub struct Data {
    pub config: Vec<(String, ConfigType)>,
}

impl View for Data {
    type V = Seq<(Seq<char>, ConfigTypeView)>;

    open spec fn view(&self) -> Seq<(Seq<char>, ConfigTypeView)> {
        self.config.deep_view()
    }
}

/// A configuration record wrapped for writing a fresh file.
pub struct DataForWrite {
    pub config: Config,
}

/// The daemon's configuration, immutable after load.
#[derive(Debug, Clone)]
pub struct Config {
    pub audio_path: String,
    pub battery_critical: u64,
    pub battery_low: u64,
    pub normal_sleep_time: u64,
    pub fast_sleep_time: u64,
    pub critical_sleep_time: u64,
    pub starting_bleep: bool,
    pub target_session: Vec<String>,
    pub enable_plug_in_check: bool,
    pub plug_in_check_interval: u64,
    pub signal_check_interval: u64,
    pub path_to_capacity: String,
    pub path_to_status: String,
    pub near_ded_command: String,
    pub bat_low_command_to_exec: String,
    pub bat_crit_command_to_exec: String,
    pub plug_in_check_command_to_exec: String,
    pub plug_out_check_command_to_exec: String,
}

/// Ghost twin of `Config`: every text field as a character sequence.
pub ghost struct ConfigView {
    pub audio_path: Seq<char>,
    pub battery_critical: u64,
    pub battery_low: u64,
    pub normal_sleep_time: u64,
    pub fast_sleep_time: u64,
    pub critical_sleep_time: u64,
    pub starting_bleep: bool,
    pub target_session: Seq<Seq<char>>,
    pub enable_plug_in_check: bool,
    pub plug_in_check_interval: u64,
    pub signal_check_interval: u64,
    pub path_to_capacity: Seq<char>,
    pub path_to_status: Seq<char>,
    pub near_ded_command: Seq<char>,
    pub bat_low_command_to_exec: Seq<char>,
    pub bat_crit_command_to_exec: Seq<char>,
    pub plug_in_check_command_to_exec: Seq<char>,
    pub plug_out_check_command_to_exec: Seq<char>,
}

impl View for Config {
    type V = ConfigView;

    open spec fn view(&self) -> ConfigView {
        ConfigView {
            audio_path: self.audio_path@,
            battery_critical: self.battery_critical,
            battery_low: self.battery_low,
            normal_sleep_time: self.normal_sleep_time,
            fast_sleep_time: self.fast_sleep_time,
            critical_sleep_time: self.critical_sleep_time,
            starting_bleep: self.starting_bleep,
            target_session: self.target_session.deep_view(),
            enable_plug_in_check: self.enable_plug_in_check,
            plug_in_check_interval: self.plug_in_check_interval,
            signal_check_interval: self.signal_check_interval,
            path_to_capacity: self.path_to_capacity@,
            path_to_status: self.path_to_status@,
            near_ded_command: self.near_ded_command@,
            bat_low_command_to_exec: self.bat_low_command_to_exec@,
            bat_crit_command_to_exec: self.bat_crit_command_to_exec@,
            plug_in_check_command_to_exec: self.plug_in_check_command_to_exec@,
            plug_out_check_command_to_exec: self.plug_out_check_command_to_exec@,
        }
    }
}

/// The built-in configuration that a missing or partial file falls
/// back to.
pub open spec fn spec_default_config() -> ConfigView {
    ConfigView {
        audio_path: "none"@,
        battery_critical: 30,
        battery_low: 45,
        normal_sleep_time: 300,
        fast_sleep_time: 5,
        critical_sleep_time: 120,
        starting_bleep: false,
        target_session: seq!["any"@],
        enable_plug_in_check: true,
        plug_in_check_interval: 2,
        signal_check_interval: 1000,
        path_to_capacity: "/sys/class/power_supply/BAT1/capacity"@,
        path_to_status: "/sys/class/power_supply/BAT1/status"@,
        near_ded_command: "systemctl poweroff"@,
        bat_low_command_to_exec: ""@,
        bat_crit_command_to_exec: ""@,
        plug_in_check_command_to_exec: ""@,
        plug_out_check_command_to_exec: ""@,
    }
}

/// The effect of one configuration-file entry on the record: an entry
/// sets the field named by its key when the value has that field's
/// kind, and is ignored otherwise.
pub open spec fn spec_apply_entry(c: ConfigView, key: Seq<char>, value: ConfigTypeView) -> ConfigView {
    match value {
        ConfigTypeView::String(v) => {
            if key == "audio_path"@ {
                ConfigView { audio_path: v, ..c }
            } else if key == "path_to_capacity"@ {
                ConfigView { path_to_capacity: v, ..c }
            } else if key == "path_to_status"@ {
                ConfigView { path_to_status: v, ..c }
            } else if key == "near_ded_command"@ {
                ConfigView { near_ded_command: v, ..c }
            } else if key == "bat_low_command_to_exec"@ {
                ConfigView { bat_low_command_to_exec: v, ..c }
            } else if key == "bat_crit_command_to_exec"@ {
                ConfigView { bat_crit_command_to_exec: v, ..c }
            } else if key == "plug_in_check_command_to_exec"@ {
                ConfigView { plug_in_check_command_to_exec: v, ..c }
            } else if key == "plug_out_check_command_to_exec"@ {
                ConfigView { plug_out_check_command_to_exec: v, ..c }
            } else {
                c
            }
        },
        ConfigTypeView::Integer(v) => {
            if key == "battery_critical"@ {
                ConfigView { battery_critical: v, ..c }
            } else if key == "battery_low"@ {
                ConfigView { battery_low: v, ..c }
            } else if key == "normal_sleep_time"@ {
                ConfigView { normal_sleep_time: v, ..c }
            } else if key == "fast_sleep_time"@ {
                ConfigView { fast_sleep_time: v, ..c }
            } else if key == "critical_sleep_time"@ {
                ConfigView { critical_sleep_time: v, ..c }
            } else if key == "plug_in_check_interval"@ {
                ConfigView { plug_in_check_interval: v, ..c }
            } else if key == "signal_check_interval"@ {
                ConfigView { signal_check_interval: v, ..c }
            } else {
                c
            }
        },
        ConfigTypeView::Boolean(v) => {
            if key == "starting_bleep"@ {
                ConfigView { starting_bleep: v, ..c }
            } else if key == "enable_plug_in_check"@ {
                ConfigView { enable_plug_in_check: v, ..c }
            } else {
                c
            }
        },
        ConfigTypeView::StringArray(v) => {
            if key == "target_session"@ {
                ConfigView { target_session: v, ..c }
            } else {
                c
            }
        },
    }
}

/// The whole merge: entries applied to the record in file order, a
/// later entry overriding an earlier one with the same key.
pub open spec fn spec_convert(c: ConfigView, entries: Seq<(Seq<char>, ConfigTypeView)>) -> ConfigView
    decreases entries.len(),
{
    if entries.len() == 0 {
        c
    } else {
        spec_convert(spec_apply_entry(c, entries[0].0, entries[0].1), entries.drop_first())
    }
}

impl Config {
    /// The built-in default configuration.
    pub fn default_config() -> (r: Config)
        ensures
            r@ == spec_default_config(),
    {
        let r = Config {
            audio_path: "none".to_owned(),
            battery_critical: 30,
            battery_low: 45,
            normal_sleep_time: 300,
            fast_sleep_time: 5,
            critical_sleep_time: 120,
            starting_bleep: false,
            target_session: vec!["any".to_owned()],
            enable_plug_in_check: true,
            plug_in_check_interval: 2,
            signal_check_interval: 1000,
            path_to_status: "/sys/class/power_supply/BAT1/status".to_owned(),
            path_to_capacity: "/sys/class/power_supply/BAT1/capacity".to_owned(),
            near_ded_command: "systemctl poweroff".to_owned(),
            bat_low_command_to_exec: "".to_owned(),
            bat_crit_command_to_exec: "".to_owned(),
            plug_in_check_command_to_exec: "".to_owned(),
            plug_out_check_command_to_exec: "".to_owned(),
        };
        proof {
            assert(r.target_session.deep_view() =~= seq!["any"@]);
            assert(r@ =~= spec_default_config());
        }
        r
    }

    /// Whether the two thresholds are ordered as the alert bands
    /// expect.
    pub fn thresholds_valid(&self) -> (r: bool)
        ensures
            r == (self.battery_critical < self.battery_low && self.battery_low <= 100),
    {
        self.battery_critical < self.battery_low && self.battery_low <= 100
    }

    /// Merge parsed file entries into the default configuration, in
    /// file order. The receiver never affects the result: every field
    /// no entry sets keeps its default value.
    pub fn convert_data(&self, data: Data) -> (r: Config)
        ensures
            r@ == spec_convert(spec_default_config(), data@),
    {
        let ghost orig: Seq<(Seq<char>, ConfigTypeView)> = data@;
        let mut entries = data.config;
        let mut config = Config::default_config();
        while entries.len() > 0
            invariant
                spec_convert(config@, entries.deep_view()) == spec_convert(spec_default_config(), orig),
            decreases entries.len(),
        {
            let ghost entries_before = entries.deep_view();
            let (key, value) = entries.remove(0);
            proof {
                assert(entries.deep_view() =~= entries_before.drop_first());
                assert(entries_before[0].0 == key@);
                assert(entries_before[0].1 == value.deep_view());
            }
            let ghost config_before = config@;
            match value {
                ConfigType::String(v) => {
                    if str_eq(key.as_str(), "audio_path") {
                        config.audio_path = v;
                    } else if str_eq(key.as_str(), "path_to_capacity") {
                        config.path_to_capacity = v;
                    } else if str_eq(key.as_str(), "path_to_status") {
                        config.path_to_status = v;
                    } else if str_eq(key.as_str(), "near_ded_command") {
                        config.near_ded_command = v;
                    } else if str_eq(key.as_str(), "bat_low_command_to_exec") {
                        config.bat_low_command_to_exec = v;
                    } else if str_eq(key.as_str(), "bat_crit_command_to_exec") {
                        config.bat_crit_command_to_exec = v;
                    } else if str_eq(key.as_str(), "plug_in_check_command_to_exec") {
                        config.plug_in_check_command_to_exec = v;
                    } else if str_eq(key.as_str(), "plug_out_check_command_to_exec") {
                        config.plug_out_check_command_to_exec = v;
                    }
                },
                ConfigType::Integer(v) => {
                    if str_eq(key.as_str(), "battery_critical") {
                        config.battery_critical = v;
                    } else if str_eq(key.as_str(), "battery_low") {
                        config.battery_low = v;
                    } else if str_eq(key.as_str(), "normal_sleep_time") {
                        config.normal_sleep_time = v;
                    } else if str_eq(key.as_str(), "fast_sleep_time") {
                        config.fast_sleep_time = v;
                    } else if str_eq(key.as_str(), "critical_sleep_time") {
                        config.critical_sleep_time = v;
                    } else if str_eq(key.as_str(), "plug_in_check_interval") {
                        config.plug_in_check_interval = v;
                    } else if str_eq(key.as_str(), "signal_check_interval") {
                        config.signal_check_interval = v;
                    }
                },
                ConfigType::Boolean(v) => {
                    if str_eq(key.as_str(), "starting_bleep") {
                        config.starting_bleep = v;
                    } else if str_eq(key.as_str(), "enable_plug_in_check") {
                        config.enable_plug_in_check = v;
                    }
                },
                ConfigType::StringArray(v) => {
                    if str_eq(key.as_str(), "target_session") {
                        config.target_session = v;
                    }
                },
            }
            proof {
                assert(config@ =~= spec_apply_entry(config_before, entries_before[0].0, entries_before[0].1));
            }
        }
        config
    }
}

} // verus!
