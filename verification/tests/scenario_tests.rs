use chrono::Timelike;
use esp32_mipidsi_clock::board::Board;
use esp32_mipidsi_clock::controller::{
    request_refresh, send_action, sky_updates, Action, ActionChannel, Controller, RefreshSignal,
    Step, ACTION_CAPACITY,
};
use esp32_mipidsi_clock::sky::SolarPosition;
use esp32_mipidsi_clock::tasks::UpdateTimer;
use esp32_mipidsi_clock::time::UtcTime;
use esp32_mipidsi_clock::ui::{MonsterEnv, UiUpdate};

// The observer: Paris.
const LATITUDE: f64 = 48.866667;
const LONGITUDE: f64 = 2.333333;

fn sun_at(time: UtcTime) -> SolarPosition {
    let utc = chrono::DateTime::from_timestamp(time.timestamp(), 0).unwrap();
    let pos = spa::solar_position::<spa::StdFloatOps>(utc, LATITUDE, LONGITUDE).unwrap();
    SolarPosition::new(
        (pos.zenith_angle * 1_000_000.0).round() as i64,
        (pos.azimuth * 1_000_000.0).round() as i64,
    )
    .unwrap()
}

/// What the display shows of the monster, second by second, over a day of ticks.
fn monster_over_a_day(start: i64) -> Vec<(u32, MonsterEnv, u32)> {
    let mut controller = Controller::new(Board::new());
    let mut channel = ActionChannel::new(ACTION_CAPACITY);
    let mut signal = RefreshSignal::new();
    let mut timer = UpdateTimer::new();
    let mut env = None;
    let mut night_factor = 0;
    let mut recomputed = 0;
    let mut seen = Vec::new();
    for second in 0..86_400 {
        let now = UtcTime::new(start + second, 0).unwrap();
        assert!(send_action(&mut channel, timer.update_timer(now)));
        let mut steps = Vec::new();
        assert_eq!(controller.run(&mut channel, &mut steps), Some(Ok(())));
        for step in steps {
            match step {
                Step::SignalRefresh(action) => {
                    request_refresh(&mut signal, action);
                }
                Step::Pause(_) => {
                    // The render loop takes the refresh while the controller stands back.
                    esp32_mipidsi_clock::controller::refresh_screen(&mut signal);
                }
                Step::RefreshSky(time) => {
                    recomputed += 1;
                    for update in sky_updates(time, sun_at(time)) {
                        match update {
                            UiUpdate::MonsterPosition(place) => env = Some(place.env),
                            UiUpdate::NightFactor(factor) => night_factor = factor,
                            _ => {}
                        }
                    }
                }
                Step::Update(UiUpdate::CurrentTime(shown)) => assert_eq!(shown, start + second),
                _ => {}
            }
        }
        let hour = chrono::DateTime::from_timestamp(start + second, 0)
            .unwrap()
            .with_timezone(&chrono_tz::Europe::Paris)
            .hour();
        seen.push((hour, env.unwrap(), night_factor));
    }
    // The sky is computed once a minute, not once a second.
    assert_eq!(recomputed, 86_400 / 60);
    seen
}

fn stretches(seen: &[(u32, MonsterEnv, u32)]) -> Vec<MonsterEnv> {
    let mut runs: Vec<MonsterEnv> = Vec::new();
    for s in seen {
        if runs.last() != Some(&s.1) {
            runs.push(s.1);
        }
    }
    runs
}

const DAY_SHAPE: [MonsterEnv; 5] = [
    MonsterEnv::SLEEPING,
    MonsterEnv::HOUSE,
    MonsterEnv::OUTSIDE,
    MonsterEnv::HOUSE,
    MonsterEnv::SLEEPING,
];

fn first_second_of(seen: &[(u32, MonsterEnv, u32)], env: MonsterEnv, from: usize) -> usize {
    from + seen[from..].iter().position(|s| s.1 == env).unwrap()
}

#[test]
fn monster_over_a_winter_day() {
    // 2024-01-15 00:00:00 in Paris is 2024-01-14 23:00:00 UTC.
    let seen = monster_over_a_day(1_705_273_200);
    assert_eq!(stretches(&seen), DAY_SHAPE);
    // Asleep until 7 h, in the house until the sun is up, outside by day.
    assert!(seen[..7 * 3600].iter().all(|s| s.1 == MonsterEnv::SLEEPING));
    assert_eq!(first_second_of(&seen, MonsterEnv::HOUSE, 0), 7 * 3600);
    let out = first_second_of(&seen, MonsterEnv::OUTSIDE, 0);
    // The sun rises after 8 h in January: the night factor keeps the monster in.
    assert!(out > 8 * 3600 && out < 9 * 3600);
    assert!(seen[7 * 3600..out].iter().all(|s| s.1 == MonsterEnv::HOUSE));
    assert!(seen[out - 1].2 > 250_000 && seen[out].2 <= 250_000);
    // Back in the house when the night factor passes a quarter, before 20 h.
    let back = first_second_of(&seen, MonsterEnv::HOUSE, out);
    assert!(back > 17 * 3600 && back < 18 * 3600);
    assert!(seen[out..back].iter().all(|s| s.1 == MonsterEnv::OUTSIDE));
    assert!(seen[back - 1].2 <= 250_000 && seen[back].2 > 250_000);
    // Asleep from 21 h on.
    let asleep = first_second_of(&seen, MonsterEnv::SLEEPING, back);
    assert_eq!(asleep, 21 * 3600);
    assert!(seen[back..asleep].iter().all(|s| s.1 == MonsterEnv::HOUSE));
    assert!(seen[asleep..].iter().all(|s| s.1 == MonsterEnv::SLEEPING));
}

#[test]
fn monster_over_a_summer_day() {
    // 2024-06-21 00:00:00 in Paris is 2024-06-20 22:00:00 UTC.
    let seen = monster_over_a_day(1_718_920_800);
    assert_eq!(stretches(&seen), DAY_SHAPE);
    assert!(seen[..7 * 3600].iter().all(|s| s.1 == MonsterEnv::SLEEPING));
    // The sun is up long before 8 h: the hour keeps the monster in.
    assert!(seen[7 * 3600..8 * 3600].iter().all(|s| s.1 == MonsterEnv::HOUSE && s.2 == 0));
    assert!(seen[8 * 3600..20 * 3600].iter().all(|s| s.1 == MonsterEnv::OUTSIDE));
    // It is still light at 20 h: the hour sends the monster in.
    assert!(seen[20 * 3600..21 * 3600].iter().all(|s| s.1 == MonsterEnv::HOUSE && s.2 == 0));
    assert!(seen[21 * 3600..].iter().all(|s| s.1 == MonsterEnv::SLEEPING));
    assert!(seen[86_399].2 > 250_000);
    for (second, s) in seen.iter().enumerate() {
        assert_eq!(s.0 as usize, second / 3600);
    }
}
