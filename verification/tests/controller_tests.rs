use chrono::Timelike;
use esp32_mipidsi_clock::board::Board;
use esp32_mipidsi_clock::controller::{
    countdown, empty_refresh_screen, format_clock, format_countdown, format_time,
    monster_position, moon_updates, receive_action, refresh_screen, request_refresh, send_action,
    sky_updates, sky_updates_at, Action, ActionChannel, Controller, ControllerError,
    RefreshSignal, Step, ACTION_CAPACITY, MAX_ACTION_DEPTH, REFRESH_YIELD_MILLIS,
    SIMULATOR_ACTION_CAPACITY,
};
use esp32_mipidsi_clock::moon::Moon;
use esp32_mipidsi_clock::sky::{get_slint_gradient, SolarPosition};
use esp32_mipidsi_clock::time::{UtcTime, MAX_SECS, MIN_SECS};
use esp32_mipidsi_clock::ui::{
    Circle, MonsterEnv, MonsterPosition, MoonImage, Rgb, TimeOfDay, UiUpdate, WifiState,
};

fn new_controller() -> Controller<Board> {
    Controller::new(Board::new())
}

fn at(secs: i64, nanos: u32) -> UtcTime {
    UtcTime::new(secs, nanos).unwrap()
}

fn steps_of(controller: &mut Controller<Board>, action: Action) -> Vec<Step> {
    let mut steps = Vec::new();
    assert_eq!(controller.process_action(action, &mut steps), Ok(()));
    steps
}

fn head(action: Action) -> Vec<Step> {
    vec![Step::SignalRefresh(action), Step::Pause(1)]
}

#[test]
fn show_monster_sets_the_visibility_after_the_refresh() {
    let mut c = new_controller();
    let steps = steps_of(&mut c, Action::ShowMonster(true));
    let mut expected = head(Action::ShowMonster(true));
    expected.push(Step::Update(UiUpdate::MonsterVisibility(true)));
    assert_eq!(steps, expected);
    let steps = steps_of(&mut c, Action::ShowMonster(false));
    assert_eq!(steps[2], Step::Update(UiUpdate::MonsterVisibility(false)));
    assert_eq!(REFRESH_YIELD_MILLIS, 1);
}

#[test]
fn wifi_state_update_sets_the_link_state() {
    let mut c = new_controller();
    for state in [WifiState::STARTING, WifiState::LINKUP, WifiState::OK] {
        let steps = steps_of(&mut c, Action::WifiStateUpdate(state));
        let mut expected = head(Action::WifiStateUpdate(state));
        expected.push(Step::Update(UiUpdate::WifiState(state)));
        assert_eq!(steps, expected);
    }
}

#[test]
fn button_actions_only_ask_for_a_refresh() {
    let mut c = new_controller();
    for pressed in [false, true] {
        assert_eq!(
            steps_of(&mut c, Action::HardwareUserBtnPressed(pressed)),
            head(Action::HardwareUserBtnPressed(pressed))
        );
        assert_eq!(
            steps_of(&mut c, Action::TouchscreenToggleBtn(pressed)),
            head(Action::TouchscreenToggleBtn(pressed))
        );
    }
    assert_eq!(c.sky_version(), None);
    assert_eq!(c.moon_version(), None);
}

#[test]
fn countdown_ends_at_start_plus_duration() {
    let start = at(1_700_000_000, 250_000_000);
    assert_eq!(countdown(start, 120), Some((1_700_000_120, 120)));
    assert_eq!(countdown(start, 0), Some((1_700_000_000, 0)));
    assert_eq!(countdown(start, 255), Some((1_700_000_255, 255)));
    let mut c = new_controller();
    let steps = steps_of(&mut c, Action::StartCountDown(start, 120));
    let mut expected = head(Action::StartCountDown(start, 120));
    expected.push(Step::Update(UiUpdate::Countdown(1_700_000_120)));
    expected.push(Step::Update(UiUpdate::CountdownTotalDuration(120)));
    assert_eq!(steps, expected);
}

#[test]
fn countdown_past_the_last_instant_is_an_error() {
    let start = at(MAX_SECS - 100, 0);
    assert_eq!(countdown(start, 100), Some((MAX_SECS, 100)));
    assert_eq!(countdown(start, 101), None);
    let mut c = new_controller();
    let mut steps = Vec::new();
    let r = c.process_action(Action::StartCountDown(start, 101), &mut steps);
    assert_eq!(r, Err(ControllerError::CountdownOutOfRange));
    assert_eq!(steps, head(Action::StartCountDown(start, 101)));
    // The controller goes on with the next action.
    let steps = steps_of(&mut c, Action::ShowMonster(true));
    assert_eq!(steps.len(), 3);
}

#[test]
fn first_tick_computes_sky_and_moon() {
    let mut c = new_controller();
    let t = at(1_700_000_000, 0);
    let steps = steps_of(&mut c, Action::UpdateTime(t));
    let mut expected = head(Action::UpdateTime(t));
    expected.push(Step::Update(UiUpdate::CurrentTime(1_700_000_000)));
    expected.push(Step::RefreshSky(t));
    expected.push(Step::RefreshMoon(t));
    assert_eq!(steps, expected);
    assert_eq!(c.sky_version(), Some(t));
    assert_eq!(c.moon_version(), Some(t));
}

#[test]
fn sky_is_reused_within_a_minute_and_recomputed_after() {
    let mut c = new_controller();
    let t1 = at(1_700_000_000, 500_000_000);
    steps_of(&mut c, Action::UpdateTime(t1));
    // Just under a minute later: nothing is recomputed.
    let t2 = at(1_700_000_060, 499_999_999);
    let steps = steps_of(&mut c, Action::UpdateTime(t2));
    let mut expected = head(Action::UpdateTime(t2));
    expected.push(Step::Update(UiUpdate::CurrentTime(1_700_000_060)));
    assert_eq!(steps, expected);
    assert_eq!(c.sky_version(), Some(t1));
    // Just under a minute earlier: nothing is recomputed either.
    let t0 = at(1_699_999_940, 500_000_001);
    let steps = steps_of(&mut c, Action::UpdateTime(t0));
    assert_eq!(steps.len(), 3);
    assert_eq!(c.sky_version(), Some(t1));
    // Exactly a minute later: the sky is recomputed, the moon is not.
    let t3 = at(1_700_000_060, 500_000_000);
    let steps = steps_of(&mut c, Action::UpdateTime(t3));
    let mut expected = head(Action::UpdateTime(t3));
    expected.push(Step::Update(UiUpdate::CurrentTime(1_700_000_060)));
    expected.push(Step::RefreshSky(t3));
    assert_eq!(steps, expected);
    assert_eq!(c.sky_version(), Some(t3));
    assert_eq!(c.moon_version(), Some(t1));
    // Exactly a minute before the new version: recomputed again.
    let t4 = at(1_700_000_000, 500_000_000);
    let steps = steps_of(&mut c, Action::UpdateTime(t4));
    assert_eq!(steps[3], Step::RefreshSky(t4));
    assert_eq!(steps.len(), 4);
}

#[test]
fn moon_is_recomputed_after_an_hour() {
    let mut c = new_controller();
    let t1 = at(1_700_000_000, 900_000_000);
    steps_of(&mut c, Action::UpdateTime(t1));
    let t2 = at(1_700_003_599, 0);
    let steps = steps_of(&mut c, Action::UpdateTime(t2));
    let mut expected = head(Action::UpdateTime(t2));
    expected.push(Step::Update(UiUpdate::CurrentTime(1_700_003_599)));
    expected.push(Step::RefreshSky(t2));
    assert_eq!(steps, expected);
    assert_eq!(c.moon_version(), Some(t1));
    let t3 = at(1_700_003_600, 0);
    let steps = steps_of(&mut c, Action::UpdateTime(t3));
    let mut expected = head(Action::UpdateTime(t3));
    expected.push(Step::Update(UiUpdate::CurrentTime(1_700_003_600)));
    expected.push(Step::RefreshMoon(t3));
    assert_eq!(steps, expected);
    assert_eq!(c.moon_version(), Some(t3));
    // A clock that goes back by an hour or more has the moon computed anew as well.
    let t4 = at(1_600_000_000, 0);
    let steps = steps_of(&mut c, Action::UpdateTime(t4));
    let mut expected = head(Action::UpdateTime(t4));
    expected.push(Step::Update(UiUpdate::CurrentTime(1_600_000_000)));
    expected.push(Step::RefreshSky(t4));
    expected.push(Step::RefreshMoon(t4));
    assert_eq!(steps, expected);
    assert_eq!(c.moon_version(), Some(t4));
}

#[test]
fn moon_is_reused_within_an_hour_before_and_after() {
    let mut c = new_controller();
    let t1 = at(1_700_000_000, 0);
    steps_of(&mut c, Action::UpdateTime(t1));
    // Less than an hour before, whatever the nanoseconds: the moon is kept.
    let before = at(1_699_996_401, 0);
    let steps = steps_of(&mut c, Action::UpdateTime(before));
    assert!(!steps.contains(&Step::RefreshMoon(before)));
    assert_eq!(c.moon_version(), Some(t1));
    // Less than an hour after: kept.
    let after = at(1_700_003_599, 999_999_999);
    let steps = steps_of(&mut c, Action::UpdateTime(after));
    assert!(!steps.contains(&Step::RefreshMoon(after)));
    assert_eq!(c.moon_version(), Some(t1));
    // Exactly an hour before: computed anew, and remembered.
    let hour_before = at(1_699_996_400, 0);
    let steps = steps_of(&mut c, Action::UpdateTime(hour_before));
    assert_eq!(steps[steps.len() - 1], Step::RefreshMoon(hour_before));
    assert_eq!(c.moon_version(), Some(hour_before));
    // Exactly an hour after that: computed anew again.
    let steps = steps_of(&mut c, Action::UpdateTime(t1));
    assert_eq!(steps[steps.len() - 1], Step::RefreshMoon(t1));
    assert_eq!(c.moon_version(), Some(t1));
}

#[test]
fn time_of_day_update_sets_the_class_and_the_moon() {
    let mut c = new_controller();
    let moon = Moon { illumination: 250_000, ..Moon::test(600_000) };
    let steps = steps_of(&mut c, Action::TimeOfDayUpdate(TimeOfDay::TWILIGHT, moon));
    let mut expected = head(Action::TimeOfDayUpdate(TimeOfDay::TWILIGHT, moon));
    expected.push(Step::Update(UiUpdate::TimeOfDay(TimeOfDay::TWILIGHT)));
    expected.push(Step::Update(UiUpdate::Moon(MoonImage {
        size: 34,
        color: Rgb { red: 255, green: 246, blue: 153 },
        disc: Circle { x: 17_000_000, y: 17_000_000, radius: 17_000_000 },
        shadow: Circle { x: 25_500_000, y: 17_000_000, radius: 17_000_000 },
        rotation: -25,
    })));
    assert_eq!(steps, expected);
    assert_eq!(moon_updates(moon), vec![UiUpdate::Moon(moon.build_image())]);
}

#[test]
fn composite_action_carries_out_its_parts_in_order() {
    let mut c = new_controller();
    let t = at(1_700_000_000, 0);
    let parts = vec![
        Action::ShowMonster(false),
        Action::UpdateTime(t),
        Action::WifiStateUpdate(WifiState::OK),
    ];
    let steps = steps_of(&mut c, Action::MultipleActions(parts.clone()));
    let expected = vec![
        Step::SignalRefresh(Action::MultipleActions(parts)),
        Step::Pause(1),
        Step::SignalRefresh(Action::ShowMonster(false)),
        Step::Pause(1),
        Step::Update(UiUpdate::MonsterVisibility(false)),
        Step::SignalRefresh(Action::UpdateTime(t)),
        Step::Pause(1),
        Step::Update(UiUpdate::CurrentTime(1_700_000_000)),
        Step::RefreshSky(t),
        Step::RefreshMoon(t),
        Step::SignalRefresh(Action::WifiStateUpdate(WifiState::OK)),
        Step::Pause(1),
        Step::Update(UiUpdate::WifiState(WifiState::OK)),
    ];
    assert_eq!(steps, expected);
}

#[test]
fn empty_composite_action_only_asks_for_a_refresh() {
    let mut c = new_controller();
    let steps = steps_of(&mut c, Action::MultipleActions(Vec::new()));
    assert_eq!(steps, head(Action::MultipleActions(Vec::new())));
}

#[test]
fn failing_part_does_not_stop_the_parts_after_it() {
    let mut c = new_controller();
    let late = at(MAX_SECS, 0);
    let parts = vec![Action::StartCountDown(late, 1), Action::ShowMonster(true)];
    let steps = steps_of(&mut c, Action::MultipleActions(parts.clone()));
    let expected = vec![
        Step::SignalRefresh(Action::MultipleActions(parts)),
        Step::Pause(1),
        Step::SignalRefresh(Action::StartCountDown(late, 1)),
        Step::Pause(1),
        Step::SignalRefresh(Action::ShowMonster(true)),
        Step::Pause(1),
        Step::Update(UiUpdate::MonsterVisibility(true)),
    ];
    assert_eq!(steps, expected);
}

fn nested(levels: usize) -> Action {
    let mut action = Action::ShowMonster(true);
    for _ in 0..levels {
        action = Action::MultipleActions(vec![action]);
    }
    action
}

#[test]
fn nesting_up_to_the_bound_is_carried_out() {
    assert_eq!(MAX_ACTION_DEPTH, 8);
    let mut c = new_controller();
    let steps = steps_of(&mut c, nested(8));
    // Eight composites and the action itself ask for a refresh, then the update.
    assert_eq!(steps.len(), 2 * 9 + 1);
    assert_eq!(steps[18], Step::Update(UiUpdate::MonsterVisibility(true)));
}

#[test]
fn nesting_beyond_the_bound_is_refused_where_it_is_too_deep() {
    let mut c = new_controller();
    let mut steps = Vec::new();
    // The outermost composite succeeds: what becomes of its part is not its concern.
    assert_eq!(c.process_action(nested(9), &mut steps), Ok(()));
    // Nine composites ask for a refresh; the ninth is refused, and the action in it is
    // never reached.
    assert_eq!(steps.len(), 2 * 9);
    assert!(steps.iter().all(|s| !matches!(s, Step::Update(_))));
    assert_eq!(steps[16], Step::SignalRefresh(nested(1)));
    assert_eq!(steps[17], Step::Pause(1));
}

#[test]
fn clone_of_an_action_is_equal_to_it() {
    let t = at(5, 6);
    let action = Action::MultipleActions(vec![
        Action::MultipleActions(vec![Action::UpdateTime(t), Action::ShowMonster(true)]),
        Action::StartCountDown(t, 9),
        Action::TimeOfDayUpdate(TimeOfDay::DAY, Moon::test(1)),
        Action::WifiStateUpdate(WifiState::LINKUP),
        Action::HardwareUserBtnPressed(true),
        Action::TouchscreenToggleBtn(false),
    ]);
    assert_eq!(action.clone(), action);
    assert_ne!(action.clone(), Action::MultipleActions(Vec::new()));
}

#[test]
fn action_channel_drops_the_action_that_does_not_fit() {
    assert_eq!(ACTION_CAPACITY, 4);
    let mut channel = ActionChannel::new(ACTION_CAPACITY);
    assert_eq!(receive_action(&mut channel), None);
    for i in 0..4u8 {
        assert!(send_action(&mut channel, Action::StartCountDown(at(0, 0), i)));
    }
    // The fifth does not fit: it is dropped, and the caller goes on.
    assert!(!send_action(&mut channel, Action::ShowMonster(true)));
    assert!(!send_action(&mut channel, Action::ShowMonster(false)));
    for i in 0..4u8 {
        assert_eq!(receive_action(&mut channel), Some(Action::StartCountDown(at(0, 0), i)));
    }
    assert_eq!(receive_action(&mut channel), None);
    // Room again.
    assert!(send_action(&mut channel, Action::ShowMonster(true)));
    assert_eq!(receive_action(&mut channel), Some(Action::ShowMonster(true)));
}

#[test]
fn action_channel_keeps_the_order_across_sends_and_receives() {
    let mut channel = ActionChannel::new(ACTION_CAPACITY);
    assert!(send_action(&mut channel, Action::ShowMonster(true)));
    assert!(send_action(&mut channel, Action::ShowMonster(false)));
    assert_eq!(receive_action(&mut channel), Some(Action::ShowMonster(true)));
    assert!(send_action(&mut channel, Action::HardwareUserBtnPressed(true)));
    assert_eq!(receive_action(&mut channel), Some(Action::ShowMonster(false)));
    assert_eq!(receive_action(&mut channel), Some(Action::HardwareUserBtnPressed(true)));
    assert_eq!(receive_action(&mut channel), None);
}

#[test]
fn refresh_signal_holds_one_action() {
    let mut signal = RefreshSignal::new();
    assert_eq!(refresh_screen(&mut signal), None);
    assert!(request_refresh(&mut signal, Action::ShowMonster(true)));
    assert!(!request_refresh(&mut signal, Action::ShowMonster(false)));
    assert_eq!(refresh_screen(&mut signal), Some(Action::ShowMonster(true)));
    assert_eq!(refresh_screen(&mut signal), None);
    assert!(request_refresh(&mut signal, Action::ShowMonster(false)));
    assert_eq!(refresh_screen(&mut signal), Some(Action::ShowMonster(false)));
}

#[test]
fn empty_refresh_screen_clears_a_pending_refresh() {
    let mut signal = RefreshSignal::new();
    empty_refresh_screen(&mut signal);
    assert!(request_refresh(&mut signal, Action::ShowMonster(true)));
    empty_refresh_screen(&mut signal);
    assert_eq!(refresh_screen(&mut signal), None);
    assert!(request_refresh(&mut signal, Action::ShowMonster(false)));
}

#[test]
fn refresh_is_signalled_before_any_field_is_set() {
    // A display and a signal that record the order in which they are touched.
    let mut c = new_controller();
    let t = at(1_700_000_000, 0);
    let actions = vec![
        Action::ShowMonster(true),
        Action::WifiStateUpdate(WifiState::OK),
        Action::StartCountDown(t, 10),
        Action::UpdateTime(t),
        Action::TimeOfDayUpdate(TimeOfDay::NIGHT, Moon::test(0)),
        Action::MultipleActions(vec![Action::ShowMonster(false), Action::UpdateTime(t)]),
    ];
    for action in actions {
        let mut signal = RefreshSignal::new();
        let mut log: Vec<&str> = Vec::new();
        let mut steps = Vec::new();
        assert_eq!(c.process_action(action.clone(), &mut steps), Ok(()));
        for step in steps {
            match step {
                Step::SignalRefresh(a) => {
                    request_refresh(&mut signal, a);
                    log.push("signal");
                }
                Step::Pause(_) => log.push("pause"),
                Step::Update(_) | Step::RefreshSky(_) | Step::RefreshMoon(_) => {
                    // Whenever the display is written, a refresh is pending.
                    assert!(!request_refresh(&mut signal, Action::ShowMonster(true)));
                    log.push("write");
                }
            }
        }
        assert_eq!(log[0], "signal");
        assert_eq!(log[1], "pause");
        let first_write = log.iter().position(|e| *e == "write").unwrap();
        let first_signal = log.iter().position(|e| *e == "signal").unwrap();
        assert!(first_signal < first_write);
        // The pending refresh is the one of the action itself.
        assert_eq!(refresh_screen(&mut signal), Some(action));
    }
}

#[test]
fn one_turn_of_the_loop_takes_the_oldest_action() {
    let mut c = new_controller();
    let mut channel = ActionChannel::new(ACTION_CAPACITY);
    let mut steps = Vec::new();
    assert_eq!(c.run(&mut channel, &mut steps), None);
    assert!(steps.is_empty());
    send_action(&mut channel, Action::ShowMonster(true));
    send_action(&mut channel, Action::StartCountDown(at(MAX_SECS, 0), 1));
    assert_eq!(c.run(&mut channel, &mut steps), Some(Ok(())));
    assert_eq!(steps.len(), 3);
    assert_eq!(steps[2], Step::Update(UiUpdate::MonsterVisibility(true)));
    // A failing action is reported, and the loop goes on.
    assert_eq!(
        c.run(&mut channel, &mut steps),
        Some(Err(ControllerError::CountdownOutOfRange))
    );
    assert_eq!(steps.len(), 5);
    assert_eq!(c.run(&mut channel, &mut steps), None);
    assert_eq!(steps.len(), 5);
}

#[test]
fn installing_the_handlers_resets_the_countdown() {
    let c = new_controller();
    assert_eq!(c.set_action_event_handlers(), vec![UiUpdate::Countdown(0)]);
}

#[test]
fn countdown_text_is_minutes_and_seconds() {
    assert_eq!(format_countdown(0, 125), "02:05");
    assert_eq!(format_countdown(1_700_000_000, 1_700_000_120), "02:00");
    assert_eq!(format_countdown(0, 0), "00:00");
    assert_eq!(format_countdown(0, 59), "00:59");
    assert_eq!(format_countdown(0, 600), "10:00");
    assert_eq!(format_countdown(0, 6_000), "100:00");
    assert_eq!(format_countdown(100, 95), "00:-5");
    assert_eq!(format_countdown(100, 30), "-1:-10");
    assert_eq!(format_countdown(1_000, 0), "-16:-40");
}

#[test]
fn countdown_text_is_what_the_standard_format_writes() {
    let mut spans: Vec<i64> = (-700..700).collect();
    spans.extend([MAX_SECS, -MAX_SECS, 86_400, -86_400, 35_999, 36_000]);
    for span in spans {
        let expected = format!("{:02}:{:02}", span / 60, span % 60);
        assert_eq!(format_countdown(0, span), expected);
    }
    let widest = MAX_SECS - MIN_SECS;
    assert_eq!(
        format_countdown(MIN_SECS, MAX_SECS),
        format!("{:02}:{:02}", widest / 60, widest % 60)
    );
    assert_eq!(
        format_countdown(MAX_SECS, MIN_SECS),
        format!("{:02}:{:02}", -widest / 60, -widest % 60)
    );
}

#[test]
fn clock_text_is_hours_and_minutes() {
    assert_eq!(format_clock(0), "00:00");
    assert_eq!(format_clock(59), "00:00");
    assert_eq!(format_clock(60), "00:01");
    assert_eq!(format_clock(13 * 3600 + 7 * 60 + 59), "13:07");
    assert_eq!(format_clock(86_399), "23:59");
    for seconds in (0..86_400u32).step_by(61) {
        assert_eq!(
            format_clock(seconds),
            format!("{:02}:{:02}", seconds / 3600, seconds / 60 % 60)
        );
    }
}

#[test]
fn time_text_is_the_wall_clock_of_paris() {
    // 2024-01-15 12:00:00 UTC
    assert_eq!(format_time(1_705_320_000), "13:00");
    // 2024-07-15 12:34:56 UTC
    assert_eq!(format_time(1_721_046_896), "14:34");
    // 2024-03-31 00:59:59 UTC, the last second of winter time, and the next one.
    assert_eq!(format_time(1_711_846_799), "01:59");
    assert_eq!(format_time(1_711_846_800), "03:00");
    assert_eq!(format_time(0), "01:00");
}

#[test]
fn time_text_agrees_with_the_calendar_library() {
    let mut now: i64 = 1_600_000_000;
    while now < 1_800_000_000 {
        let local = chrono::DateTime::from_timestamp(now, 0)
            .unwrap()
            .with_timezone(&chrono_tz::Europe::Paris);
        assert_eq!(format_time(now), format!("{:02}:{:02}", local.hour(), local.minute()));
        now += 1_234_567;
    }
}

#[test]
fn monster_is_outside_by_day_and_inside_by_night() {
    let outside = MonsterPosition { env: MonsterEnv::OUTSIDE, x: 125, y: 188 };
    let house = MonsterPosition { env: MonsterEnv::HOUSE, x: 195, y: 138 };
    let sleeping = MonsterPosition { env: MonsterEnv::SLEEPING, x: 195, y: 138 };
    for hour in 0..24u32 {
        let expected = if hour >= 21 || hour < 7 {
            sleeping
        } else if hour >= 20 || hour < 8 {
            house
        } else {
            outside
        };
        assert_eq!(monster_position(hour, 0), expected);
        assert_eq!(monster_position(hour, 250_000), expected);
        let dark = if hour >= 21 || hour < 7 { sleeping } else { house };
        assert_eq!(monster_position(hour, 250_001), dark);
        assert_eq!(monster_position(hour, 1_000_000), dark);
    }
}

#[test]
fn sky_updates_set_factor_class_brush_and_monster() {
    // The sun 10 degrees below the horizon in the west.
    let sun = SolarPosition::new(100_000_000, 280_000_000).unwrap();
    let (tod, night_factor, brush) = get_slint_gradient(sun);
    assert_eq!(tod, TimeOfDay::NIGHT);
    assert_eq!(night_factor, 1_000_000);
    assert_eq!(
        sky_updates_at(15, sun),
        vec![
            UiUpdate::NightFactor(1_000_000),
            UiUpdate::TimeOfDay(TimeOfDay::NIGHT),
            UiUpdate::SkyBrush(brush),
            UiUpdate::MonsterPosition(MonsterPosition { env: MonsterEnv::HOUSE, x: 195, y: 138 }),
        ]
    );
    // 2024-01-15 12:00:00 UTC is 13 h in Paris.
    let noon = at(1_705_320_000, 0);
    assert_eq!(sky_updates(noon, sun), sky_updates_at(13, sun));
    // 2024-01-15 21:30:00 UTC is 22 h 30 in Paris.
    let night = at(1_705_354_200, 0);
    assert_eq!(sky_updates(night, sun), sky_updates_at(22, sun));
    assert_eq!(
        sky_updates(night, sun)[3],
        UiUpdate::MonsterPosition(MonsterPosition { env: MonsterEnv::SLEEPING, x: 195, y: 138 })
    );
    // The sun 30 degrees up in the east, at 13 h.
    let day = SolarPosition::new(60_000_000, 120_000_000).unwrap();
    let updates = sky_updates(noon, day);
    assert_eq!(updates[0], UiUpdate::NightFactor(0));
    assert_eq!(updates[1], UiUpdate::TimeOfDay(TimeOfDay::DAY));
    assert_eq!(
        updates[3],
        UiUpdate::MonsterPosition(MonsterPosition { env: MonsterEnv::OUTSIDE, x: 125, y: 188 })
    );
}

#[test]
fn composite_action_at_the_bound_of_the_nesting_is_too_deep() {
    let mut c = new_controller();
    let composite = Action::MultipleActions(vec![Action::ShowMonster(true)]);
    let mut steps = Vec::new();
    assert_eq!(c.process_action_at(&composite, 7, &mut steps), Ok(()));
    assert_eq!(steps.len(), 5);
    let mut steps = Vec::new();
    assert_eq!(
        c.process_action_at(&composite, 8, &mut steps),
        Err(ControllerError::TooDeep)
    );
    assert_eq!(steps, head(composite.clone()));
    let mut steps = Vec::new();
    assert_eq!(
        c.process_action_at(&composite, usize::MAX, &mut steps),
        Err(ControllerError::TooDeep)
    );
    // Other actions are carried out at any depth.
    let mut steps = Vec::new();
    assert_eq!(c.process_action_at(&Action::ShowMonster(true), 8, &mut steps), Ok(()));
    assert_eq!(steps.len(), 3);
}

#[test]
fn controller_keeps_its_hardware() {
    let c = Controller::new(Board::new());
    let board: &Board = c.hardware();
    assert_eq!(board.rtc, ());
}

#[test]
fn two_place_channel_drops_the_third_action() {
    assert_eq!(SIMULATOR_ACTION_CAPACITY, 2);
    let mut channel = ActionChannel::new(SIMULATOR_ACTION_CAPACITY);
    assert_eq!(channel.capacity(), 2);
    assert_eq!(channel.len(), 0);
    assert!(send_action(&mut channel, Action::ShowMonster(true)));
    assert!(send_action(&mut channel, Action::ShowMonster(false)));
    assert_eq!(channel.len(), 2);
    assert!(!send_action(&mut channel, Action::HardwareUserBtnPressed(true)));
    assert_eq!(channel.len(), 2);
    assert_eq!(receive_action(&mut channel), Some(Action::ShowMonster(true)));
    assert!(send_action(&mut channel, Action::HardwareUserBtnPressed(false)));
    assert!(!send_action(&mut channel, Action::HardwareUserBtnPressed(true)));
    assert_eq!(receive_action(&mut channel), Some(Action::ShowMonster(false)));
    assert_eq!(receive_action(&mut channel), Some(Action::HardwareUserBtnPressed(false)));
    assert_eq!(receive_action(&mut channel), None);
    assert_eq!(channel.capacity(), 2);
}

#[test]
fn channel_has_as_many_places_as_asked_for_and_four_at_most() {
    for asked in 0..8usize {
        let mut channel = ActionChannel::new(asked);
        let places = asked.min(4);
        assert_eq!(channel.capacity(), places);
        for i in 0..8usize {
            let accepted = send_action(&mut channel, Action::StartCountDown(at(0, 0), i as u8));
            assert_eq!(accepted, i < places);
            assert_eq!(channel.len(), (i + 1).min(places));
        }
        for i in 0..places {
            assert_eq!(
                receive_action(&mut channel),
                Some(Action::StartCountDown(at(0, 0), i as u8))
            );
        }
        assert_eq!(receive_action(&mut channel), None);
    }
    assert_eq!(ActionChannel::new(usize::MAX).capacity(), 4);
}
