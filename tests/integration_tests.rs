use ferristatus::components::{
    Alsa, AlsaSettings, Backlight, BacklightSettings, Battery, BatterySettings, ChargingState,
    Command, CommandSettings, Component, Fault, Reading, Text, Time, TimeSettings,
};
use ferristatus::config::Settings;
use ferristatus::time::LocalTime;
use ferristatus::{collect_all_cache, due_for_update, update_check_all, ComponentVec};

fn sample_components() -> ComponentVec {
    ComponentVec {
        vec: vec![
            Component::Alsa(Alsa::new(AlsaSettings::default())),
            Component::Backlight(Backlight::new(BacklightSettings::default())),
            Component::Battery(Battery::new(BatterySettings::default())),
            Component::Text(Text(" hi ".to_string())),
            Component::Time(Time::new(TimeSettings::default())),
            Component::Command(Command::new(CommandSettings::default())),
        ],
    }
}

fn sample_reading(c: &Component) -> Reading {
    match c {
        Component::Alsa(_) => Reading::Volume { percent: 40, is_muted: false },
        Component::Backlight(_) => Reading::Brightness { percent: 75 },
        Component::Battery(_) => Reading::Power {
            percent: 88,
            time_remaining: 9420,
            charging_state: ChargingState::Discharging,
        },
        Component::Time(_) => Reading::Clock { now: LocalTime { timestamp: 0, utc_offset: 0 } },
        Component::Command(_) => Reading::Shell { stdout: " hello world! ".to_string() },
        Component::Text(_) => unreachable!(),
    }
}

fn run_ticks(components: &mut ComponentVec, settings: &Settings, ticks: u64) -> Vec<String> {
    let mut lines = Vec::new();
    for k in 0..ticks {
        let now = k * settings.check_interval;
        let due = due_for_update(components, now);
        let readings: Vec<Option<Result<Reading, Fault>>> = components
            .vec
            .iter()
            .zip(due.iter())
            .map(|(c, d)| if *d { Some(Ok(sample_reading(c))) } else { None })
            .collect();
        update_check_all(components, now, readings);
        lines.push(collect_all_cache(components, &settings.default_separator));
    }
    lines
}

#[test]
fn config_1() {
    let settings = Settings::default();
    let mut components = sample_components();
    let lines = run_ticks(&mut components, &settings, 2);
    println!("DEBUG: {:#?}", lines);
    assert_eq!(lines.len(), 2);
    assert_eq!(
        lines[0],
        " V: 40% | br: 75 | B: 88% 2h 37m | hi | Thu 01 Jan 12:00 am | hello world! "
    );
    assert_eq!(lines[1], lines[0]);
}

#[test]
fn main() {
    let settings = Settings::default();
    let mut components = sample_components();
    let lines = run_ticks(&mut components, &settings, 11);
    assert_eq!(lines.len(), 11);
    for line in &lines {
        assert_eq!(line.matches('|').count(), 5);
    }
}
