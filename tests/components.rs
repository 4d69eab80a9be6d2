use ferristatus::components::{
    BacklightFormatSettings, BacklightState,
    Alsa, AlsaSettings, Backlight, BacklightSettings, Battery, BatterySettings, ChargingState,
    Command, CommandSettings, Component, Fault, Reading, Text, Time, TimeSettings,
};
use ferristatus::errors::MyErrors;
use ferristatus::time::LocalTime;
use ferristatus::{
    bound_components,
    collect_all_cache, matching_signal, update_check_all, update_matching_signal, ComponentVec,
};

fn backlight(interval: u64, signal: u32) -> Component {
    let mut s = BacklightSettings::default();
    s.refresh_interval = interval;
    s.signal = signal;
    Component::Backlight(Backlight::new(s))
}

#[test]
fn gate_is_strict_at_the_interval() {
    let mut c = backlight(100, 6);
    assert!(c.update_check(0));
    assert!(c.update_maybe(0, Ok(Reading::Brightness { percent: 1 })));
    assert!(!c.update_check(0));
    assert!(!c.update_check(100));
    assert!(c.update_check(101));
    assert!(!c.update_maybe(100, Ok(Reading::Brightness { percent: 2 })));
    assert_eq!(c.get_cache(), Some(" br: 1 "));
    assert!(c.update_maybe(101, Ok(Reading::Brightness { percent: 2 })));
    assert_eq!(c.get_cache(), Some(" br: 2 "));
    assert_eq!(c.get_last_updated(), Some(101));
}

#[test]
fn static_text_is_never_due() {
    let mut t = Component::Text(Text("x".to_string()));
    assert!(!t.update_check(u64::MAX));
    assert!(!t.update_maybe(5, Err(Fault::NotAcquired)));
    assert_eq!(t.get_cache(), Some("x"));
    assert_eq!(t.get_signal_value(), None);
}

#[test]
fn three_sources_acquire_per_their_intervals() {
    let mut cs = ComponentVec { vec: vec![backlight(100, 1), backlight(1000, 2), backlight(5000, 3)] };
    let mut counts = [0u32; 3];
    // ticks every 100 ms of schedule; each tick lands 1 ms late on the clock
    for k in 0..11u64 {
        let now = k * 101;
        let readings = (0..3).map(|_| Some(Ok(Reading::Brightness { percent: 50 }))).collect();
        let done = update_check_all(&mut cs, now, readings);
        for i in 0..3 {
            if done[i] {
                counts[i] += 1;
            }
        }
    }
    assert_eq!(counts, [11, 2, 1]);
}

#[test]
fn fault_in_one_source_leaves_others() {
    let mut cs = ComponentVec { vec: vec![backlight(100, 1), backlight(100, 2), backlight(100, 3)] };
    let readings = vec![
        Some(Ok(Reading::Brightness { percent: 10 })),
        Some(Err(Fault::Acquisition("no such file".to_string()))),
        Some(Ok(Reading::Brightness { percent: 30 })),
    ];
    let done = update_check_all(&mut cs, 0, readings);
    assert_eq!(done, vec![true, true, true]);
    assert_eq!(
        collect_all_cache(&cs, "|"),
        " br: 10 |N/A: (update failed)| br: 30 "
    );
    assert_eq!(cs.vec[1].get_last_updated(), None);
}

#[test]
fn missing_read_counts_as_fault() {
    let mut cs = ComponentVec { vec: vec![backlight(100, 1)] };
    update_check_all(&mut cs, 0, vec![None]);
    assert_eq!(cs.vec[0].get_cache(), Some("N/A: (update failed)"));
    let mut c = backlight(100, 1);
    assert!(matches!(c.update(Err(Fault::NotAcquired), 0), Some(Fault::NotAcquired)));
    assert_eq!(c.get_cache(), Some("N/A: (update failed)"));
}

#[test]
fn mismatched_reading_is_a_fault() {
    let mut c = backlight(100, 1);
    let r = c.update(Ok(Reading::Volume { percent: 3, is_muted: false }), 0);
    assert!(matches!(r, Some(Fault::MismatchedReading)));
    assert_eq!(c.get_cache(), Some("N/A: (update failed)"));
    assert_eq!(c.get_last_updated(), None);
}

#[test]
fn signal_forces_refresh_after_update() {
    let mut cs = ComponentVec { vec: vec![backlight(1000, 4), backlight(1000, 6)] };
    let first = vec![
        Some(Ok(Reading::Brightness { percent: 1 })),
        Some(Ok(Reading::Brightness { percent: 2 })),
    ];
    update_check_all(&mut cs, 0, first);
    let again = update_check_all(&mut cs, 0, vec![None, None]);
    assert_eq!(again, vec![false, false]);
    assert_eq!(matching_signal(6, &cs), vec![false, true]);
    let hit = update_matching_signal(6, &mut cs, 0, vec![None, Some(Ok(Reading::Brightness { percent: 9 }))]);
    assert_eq!(hit, vec![false, true]);
    assert_eq!(collect_all_cache(&cs, ","), " br: 1 , br: 9 ");
    let none = update_matching_signal(42, &mut cs, 0, vec![None, None]);
    assert_eq!(none, vec![false, false]);
}

#[test]
fn line_of_unrendered_components() {
    let cs = ComponentVec { vec: vec![backlight(1, 1), Component::Text(Text("t".to_string()))] };
    assert_eq!(collect_all_cache(&cs, "|"), "(N/A: no cache)|t");
    assert_eq!(collect_all_cache(&ComponentVec { vec: vec![] }, "|"), "");
}

#[test]
fn volume_templates() {
    let mut s = AlsaSettings::default();
    s.format.levels = Some(vec![(50, "lo {p}".to_string()), (10, "min {p}".to_string())]);
    let mut c = Component::Alsa(Alsa::new(s));
    assert!(c.update(Ok(Reading::Volume { percent: 5, is_muted: false }), 0).is_none());
    assert_eq!(c.get_cache(), Some("min 5"));
    assert!(c.update(Ok(Reading::Volume { percent: 30, is_muted: false }), 1).is_none());
    assert_eq!(c.get_cache(), Some("lo 30"));
    assert!(c.update(Ok(Reading::Volume { percent: 90, is_muted: false }), 2).is_none());
    assert_eq!(c.get_cache(), Some(" V: 90% "));
    assert!(c.update(Ok(Reading::Volume { percent: -3, is_muted: true }), 3).is_none());
    assert_eq!(c.get_cache(), Some(" MUTE(-3) "));
}

#[test]
fn battery_templates_by_charger_state() {
    let mut s = BatterySettings::default();
    s.format.discharging = Some(vec![(20, "low {p}".to_string())]);
    let mut c = Component::Battery(Battery::new(s));
    assert!(matches!(c.get_strfmt_template(), Err(Fault::MissingState)));
    let power = |p, st| Reading::Power { percent: p, time_remaining: 9425, charging_state: st };
    assert!(c.update(Ok(power(15, ChargingState::Discharging)), 0).is_none());
    assert_eq!(c.get_cache(), Some("low 15"));
    assert!(c.update(Ok(power(55, ChargingState::Discharging)), 0).is_none());
    assert_eq!(c.get_cache(), Some(" B: 55% 2h 37m "));
    assert!(c.update(Ok(power(100, ChargingState::Full)), 0).is_none());
    assert_eq!(c.get_cache(), Some(" Full(100) "));
    assert!(c.update(Ok(power(60, ChargingState::NotCharging)), 0).is_none());
    assert_eq!(c.get_cache(), Some(" ? 60% "));
    assert!(c.update(Ok(power(61, ChargingState::Charging)), 0).is_none());
    assert_eq!(c.get_cache(), Some(" \u{f0e7} 61% 2h 37m "));
}

#[test]
fn battery_time_drops_seconds() {
    let c = Component::Battery(Battery::new(BatterySettings::default()));
    let mut c2 = c.clone();
    assert!(c2.update(
        Ok(Reading::Power { percent: 1, time_remaining: 65, charging_state: ChargingState::Charging }),
        0,
    ).is_none());
    assert_eq!(c2.apply_strfmt_template("{t}"), "1m");
    assert!(c2.update(
        Ok(Reading::Power { percent: 1, time_remaining: 45, charging_state: ChargingState::Charging }),
        0,
    ).is_none());
    assert_eq!(c2.apply_strfmt_template("{t}"), "45s");
}

#[test]
fn clock_formats_time() {
    let mut s = TimeSettings::default();
    s.time = "%Y-%m-%d %H:%M".to_string();
    let mut c = Component::Time(Time::new(s));
    assert_eq!(c.apply_strfmt_template("{t}"), "N/A");
    assert!(c.update(Ok(Reading::Clock { now: LocalTime { timestamp: 86400 + 3600, utc_offset: 1800 } }), 7).is_none());
    assert_eq!(c.get_cache(), Some(" 1970-01-02 01:30 "));
}

#[test]
fn command_caches_stdout() {
    let mut c = Component::Command(Command::new(CommandSettings::default()));
    assert!(c.update(Ok(Reading::Shell { stdout: "out".to_string() }), 3).is_none());
    assert_eq!(c.get_cache(), Some("out"));
    assert_eq!(c.get_last_updated(), Some(3));
    let r = c.update(Err(Fault::Acquisition("boom".to_string())), 4);
    assert!(matches!(r, Some(Fault::Acquisition(_))));
    assert_eq!(c.get_cache(), Some("N/A: (update failed)"));
    assert_eq!(c.get_last_updated(), Some(3));
}

#[test]
fn backlight_without_reading_shows_default_output() {
    let c = backlight(1, 1);
    assert_eq!(c.render(), "N/A: (default_output)");
}

#[test]
fn poison_error_message() {
    let e = std::sync::PoisonError::new(0u8);
    let err = MyErrors::from_poison_error(e);
    assert!(matches!(err, MyErrors::MutexLockError(_)));
    assert!(err.message().starts_with("Failed to lock mutex: "));
}

#[test]
fn unsorted_ladder_in_hand_built_component() {
    let c = Component::Backlight(Backlight {
        state: BacklightState { percent: Some(5), last_updated: Some(0), cache: None },
        settings: BacklightSettings {
            refresh_interval: 1000,
            signal: 6,
            path: "/x".to_string(),
            format: BacklightFormatSettings {
                default: "def".to_string(),
                levels: Some(vec![(100, "high {p}".to_string()), (10, "low {p}".to_string())]),
            },
        },
    });
    assert!(matches!(c.get_strfmt_template(), Ok(Some(ref t)) if t == "low {p}"));
    assert_eq!(c.render(), "low 5");
}

#[test]
fn signal_bindings_are_precomputed() {
    let cs = ComponentVec {
        vec: vec![backlight(1, 4), Component::Text(Text("t".to_string())), backlight(1, 6), backlight(1, 4)],
    };
    assert_eq!(bound_components(4, &cs), vec![0, 3]);
    assert_eq!(bound_components(6, &cs), vec![2]);
    assert_eq!(bound_components(9, &cs), Vec::<usize>::new());
}

#[test]
fn battery_time_spells_units() {
    let mut c = Component::Battery(Battery::new(BatterySettings::default()));
    let power = |t| Reading::Power { percent: 1, time_remaining: t, charging_state: ChargingState::Charging };
    assert!(c.update(Ok(power(2 * 86400 + 3600)), 0).is_none());
    assert_eq!(c.apply_strfmt_template("{t}"), "2days 1h");
    assert!(c.update(Ok(power(86400 + 61)), 0).is_none());
    assert_eq!(c.apply_strfmt_template("{t}"), "1day 1m");
    assert!(c.update(Ok(power(0)), 0).is_none());
    assert_eq!(c.apply_strfmt_template("{t}"), "0s");
}
