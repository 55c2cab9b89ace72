//! The turns of the periodic tasks around the controller: the keys, the render
//! loop's waits, the backlight, the link state and the blinking tick.

use crate::controller::{Action, ActionView};
use crate::time::{hour_of, paris_seconds_of_day, second_of, UtcTime};
use crate::ui::WifiState;
use debouncr::{DebouncerStateful, Repeat2};
use vstd::prelude::*;

verus! {

/// Declares `debouncr::DebouncerStateful` as a type that the verifier does not
/// look into.
#[verifier::external_type_specification]
#[verifier::external_body]
#[verifier::reject_recursive_types(S)]
#[verifier::reject_recursive_types(M)]
pub struct ExDebouncerStateful<S, M>(DebouncerStateful<S, M>);

/// Declares `debouncr::Repeat2`, the mark of a debouncer that wants two
/// samples, as a type that the verifier does not look into.
#[verifier::external_type_specification]
#[verifier::external_body]
pub struct ExRepeat2(Repeat2);

/// The last two samples that a debouncer has taken, the older one first.
pub uninterp spec fn debounce_window(debouncer: DebouncerStateful<u8, Repeat2>) -> Seq<bool>;

/// Calls `debouncr::debounce_stateful_2` for a key that starts pressed.
/// Trusted: the debouncer starts as after two pressed samples.
#[verifier::external_body]
fn debouncer_new() -> (debouncer: DebouncerStateful<u8, Repeat2>)
    ensures
        debounce_window(debouncer) == seq![true, true],
{
    debouncr::debounce_stateful_2(true)
}

/// Calls `DebouncerStateful::update` and drops the edge that it reports.
/// Trusted: the sample is shifted in behind the last one, and the one before
/// that is forgotten.
#[verifier::external_body]
fn debouncer_update(debouncer: &mut DebouncerStateful<u8, Repeat2>, pressed: bool)
    ensures
        debounce_window(*final(debouncer)) == seq![debounce_window(*old(debouncer))[1], pressed],
{
    let _ = debouncer.update(pressed);
}

/// Calls `DebouncerStateful::is_high`. Trusted: the debounced state is high
/// exactly when the last two samples were both pressed.
#[verifier::external_body]
fn debouncer_is_high(debouncer: &DebouncerStateful<u8, Repeat2>) -> (high: bool)
    ensures
        high == (debounce_window(*debouncer) == seq![true, true]),
{
    debouncer.is_high()
}

/// Width of the display in pixels.
pub const DISPLAY_WIDTH: usize = 240;

/// Height of the display in pixels.
pub const DISPLAY_HEIGHT: usize = 240;

/// Frames per second that the render loop aims at while something moves.
pub const SLINT_TARGET_FPS: u64 = 25;

/// Milliseconds that one frame may take at that rate.
pub const SLINT_FRAME_DURATION_MS: u64 = 40;

/// Milliseconds for which the lines settle before the keys are read.
pub const KEY_SETTLE_MILLIS: u64 = 10;

/// Milliseconds for which the keys rest after they were read.
pub const KEY_REST_MILLIS: u64 = 100;

/// Milliseconds between two samples while no key is down.
pub const KEY_IDLE_MILLIS: u64 = 1;

/// Seconds of the countdown that the fifth key starts.
pub const COUNTDOWN_SECS: u8 = 120;

/// Seconds between two settings of the backlight.
pub const FADE_INTERVAL_SECS: u64 = 10;

/// Milliseconds between two looks at the link while the network is not
/// configured.
pub const LINK_POLL_FAST_MILLIS: u64 = 50;

/// Milliseconds between two looks at the link once the network is configured.
pub const LINK_POLL_SLOW_MILLIS: u64 = 10_000;

/// Milliseconds between two ticks of the wall clock.
pub const TICK_MILLIS: u64 = 1000;

/// What a pair of keys on one sense line reads as. The two keys of a pair
/// share the sense line; the common line tells them apart.
#[derive(Clone, Copy, Debug, PartialEq, Eq, Structural)]
pub enum KeyPair {
    /// No key of the pair is down.
    Idle,
    /// The key that leaves the sense line high is down.
    High,
    /// The key that pulls the sense line low is down.
    Low,
    /// Both keys are down.
    Both,
}

/// What the three pairs of keys read as: keys S2 and S1 on the first line, S3
/// and S4 on the second, S5 and S6 on the third, each pair as its high and its
/// low key.
#[derive(Clone, Copy, Debug, PartialEq, Eq, Structural)]
pub struct KeyReading {
    pub first: KeyPair,
    pub second: KeyPair,
    pub third: KeyPair,
}

/// What a pair reads as, from the levels of its sense line and of the common
/// line, when its debounced state is high; a pair whose debounced state is low
/// is idle.
pub open spec fn pair_of(sense_high: bool, common_high: bool, debounced: bool) -> KeyPair {
    if !debounced {
        KeyPair::Idle
    } else if sense_high && common_high {
        KeyPair::High
    } else if !sense_high && !common_high {
        KeyPair::Both
    } else if !sense_high && common_high {
        KeyPair::Low
    } else {
        KeyPair::Idle
    }
}

fn read_pair(sense_high: bool, common_high: bool, debounced: bool) -> (p: KeyPair)
    ensures
        p == pair_of(sense_high, common_high, debounced),
{
    if sense_high && common_high && debounced {
        KeyPair::High
    } else if !sense_high && !common_high && debounced {
        KeyPair::Both
    } else if !sense_high && common_high && debounced {
        KeyPair::Low
    } else {
        KeyPair::Idle
    }
}

/// Whether a window of samples reads as a key held down: both samples pressed.
pub open spec fn window_is_high(window: Seq<bool>) -> bool {
    window == seq![true, true]
}

/// A window of samples after one more sample.
pub open spec fn window_after(window: Seq<bool>, pressed: bool) -> Seq<bool> {
    seq![window[1], pressed]
}

/// The three sense lines of the keys, each behind a debouncer that wants two
/// samples in a row.
pub struct KeyPad {
    debouncer1: DebouncerStateful<u8, Repeat2>,
    debouncer2: DebouncerStateful<u8, Repeat2>,
    debouncer3: DebouncerStateful<u8, Repeat2>,
}

impl KeyPad {
    /// The last two samples of the first line.
    pub closed spec fn first(self) -> Seq<bool> {
        debounce_window(self.debouncer1)
    }

    /// The last two samples of the second line.
    pub closed spec fn second(self) -> Seq<bool> {
        debounce_window(self.debouncer2)
    }

    /// The last two samples of the third line.
    pub closed spec fn third(self) -> Seq<bool> {
        debounce_window(self.debouncer3)
    }

    /// Whether a line reads as held down.
    pub open spec fn any_high(self) -> bool {
        window_is_high(self.first()) || window_is_high(self.second()) || window_is_high(
            self.third(),
        )
    }

    /// Three lines that start as held down.
    pub fn new() -> (pad: KeyPad)
        ensures
            pad.first() == seq![true, true],
            pad.second() == seq![true, true],
            pad.third() == seq![true, true],
    {
        KeyPad {
            debouncer1: debouncer_new(),
            debouncer2: debouncer_new(),
            debouncer3: debouncer_new(),
        }
    }

    /// One turn of the keys' loop: takes a sample of each sense line, read
    /// while the common line is driven low, and tells whether a line now reads
    /// as held down, in which case the keys are to be decoded.
    pub fn poll_button(&mut self, first_low: bool, second_low: bool, third_low: bool) -> (pressed:
        bool)
        ensures
            final(self).first() == window_after(old(self).first(), first_low),
            final(self).second() == window_after(old(self).second(), second_low),
            final(self).third() == window_after(old(self).third(), third_low),
            pressed == final(self).any_high(),
    {
        debouncer_update(&mut self.debouncer1, first_low);
        debouncer_update(&mut self.debouncer2, second_low);
        debouncer_update(&mut self.debouncer3, third_low);
        debouncer_is_high(&self.debouncer1) || debouncer_is_high(&self.debouncer2)
            || debouncer_is_high(&self.debouncer3)
    }

    /// Decodes the keys from the levels of the three sense lines and of the
    /// common line, read while the common line is an input.
    pub fn decode(&self, s1: bool, common_input: bool, s3: bool, s5: bool) -> (reading: KeyReading)
        ensures
            reading == (KeyReading {
                first: pair_of(s1, common_input, window_is_high(self.first())),
                second: pair_of(s3, common_input, window_is_high(self.second())),
                third: pair_of(s5, common_input, window_is_high(self.third())),
            }),
    {
        KeyReading {
            first: read_pair(s1, common_input, debouncer_is_high(&self.debouncer1)),
            second: read_pair(s3, common_input, debouncer_is_high(&self.debouncer2)),
            third: read_pair(s5, common_input, debouncer_is_high(&self.debouncer3)),
        }
    }
}

/// What a reading of the keys asks for, before the time is known.
#[derive(Clone, Copy, Debug, PartialEq, Eq, Structural)]
pub enum KeyRequest {
    /// A countdown of the given number of seconds, from now.
    CountDown(u8),
}

/// What a reading of the keys asks for: key S5 alone asks for a countdown of
/// two minutes.
pub open spec fn key_request_of(reading: KeyReading) -> Option<KeyRequest> {
    if reading.third == KeyPair::High {
        Some(KeyRequest::CountDown(COUNTDOWN_SECS))
    } else {
        None
    }
}

/// The action that carries out a request at the instant `now`.
pub open spec fn request_at(request: KeyRequest, now: UtcTime) -> ActionView {
    match request {
        KeyRequest::CountDown(secs) => ActionView::StartCountDown(now, secs),
    }
}

/// Tells what a reading of the keys asks for.
pub fn key_request(reading: KeyReading) -> (r: Option<KeyRequest>)
    ensures
        r == key_request_of(reading),
{
    match reading.third {
        KeyPair::High => Some(KeyRequest::CountDown(COUNTDOWN_SECS)),
        _ => None,
    }
}

impl KeyRequest {
    /// The action that carries out the request at the instant `now`.
    pub fn at(self, now: UtcTime) -> (a: Action)
        ensures
            a@ == request_at(self, now),
    {
        match self {
            KeyRequest::CountDown(secs) => Action::StartCountDown(now, secs),
        }
    }
}

/// The action that a reading of the keys asks for at the instant `now`: key
/// S5 alone starts a countdown of two minutes.
pub fn key_action(reading: KeyReading, now: UtcTime) -> (r: Option<Action>)
    ensures
        r is Some <==> key_request_of(reading) is Some,
        r matches Some(a) ==> a@ == request_at(key_request_of(reading)->0, now),
{
    match key_request(reading) {
        Some(request) => Some(request.at(now)),
        None => None,
    }
}

/// What the render loop waits for after a frame.
#[derive(Clone, Copy, Debug, PartialEq, Eq, Structural)]
pub enum RenderWait {
    /// A refresh, or the given number of milliseconds, whichever comes first.
    RefreshOrTimeout(u64),
    /// A refresh, however long it takes.
    Refresh,
    /// The given number of milliseconds.
    Sleep(u64),
}

/// What the render loop waits for after a frame that took `draw_millis` to
/// draw. With nothing moving it sleeps until a refresh is asked for, or until
/// the next timer is due where there is one. While something moves it keeps
/// the frame rate: it sleeps for what is left of the frame's time, and for one
/// millisecond where nothing is left.
pub open spec fn render_wait_of(
    active_animations: bool,
    next_timer_millis: Option<u64>,
    draw_millis: u64,
) -> RenderWait {
    if !active_animations {
        match next_timer_millis {
            Some(millis) => RenderWait::RefreshOrTimeout(millis),
            None => RenderWait::Refresh,
        }
    } else if draw_millis < SLINT_FRAME_DURATION_MS {
        RenderWait::Sleep((SLINT_FRAME_DURATION_MS - draw_millis) as u64)
    } else {
        RenderWait::Sleep(1)
    }
}

/// One turn of the render loop: tells what to wait for after a frame.
pub fn render_loop(active_animations: bool, next_timer_millis: Option<u64>, draw_millis: u64) -> (w:
    RenderWait)
    ensures
        w == render_wait_of(active_animations, next_timer_millis, draw_millis),
{
    if !active_animations {
        match next_timer_millis {
            Some(millis) => RenderWait::RefreshOrTimeout(millis),
            None => RenderWait::Refresh,
        }
    } else {
        if draw_millis < SLINT_FRAME_DURATION_MS {
            RenderWait::Sleep(SLINT_FRAME_DURATION_MS - draw_millis)
        } else {
            RenderWait::Sleep(1)
        }
    }
}

/// The backlight in percent at a local hour: full from 9 h to 20 h, dimmed
/// from 20 h to 21 h, low for the rest of the day.
pub open spec fn backlight_level_of(hour: int) -> int {
    if 8 < hour < 20 {
        100
    } else if 20 <= hour < 21 {
        30
    } else {
        5
    }
}

/// Computes the backlight for a local hour.
pub fn backlight_level(hour: u32) -> (level: u8)
    ensures
        level == backlight_level_of(hour as int),
{
    let mut bl_level: u8 = 5;
    if hour > 8 && hour < 20 {
        bl_level = 100;
    } else if hour >= 20 && hour < 21 {
        bl_level = 30;
    }
    bl_level
}

/// One turn of the backlight's loop: the level for the hour that the wall
/// clock of Paris shows at `now`.
pub fn fade_screen(now: UtcTime) -> (level: u8)
    ensures
        level == backlight_level_of(hour_of(paris_seconds_of_day(now.secs()))),
{
    backlight_level(now.local_hour())
}

/// The state of the link as the display shows it.
pub open spec fn link_state_of(link_up: bool, config_up: bool) -> WifiState {
    if link_up {
        if config_up {
            WifiState::OK
        } else {
            WifiState::LINKUP
        }
    } else {
        WifiState::STARTING
    }
}

/// Milliseconds until the link is looked at again.
pub open spec fn link_poll_millis_of(config_up: bool) -> u64 {
    if config_up {
        LINK_POLL_SLOW_MILLIS
    } else {
        LINK_POLL_FAST_MILLIS
    }
}

/// One turn of the link's loop: the action that reports the state of the
/// link, and the milliseconds to wait before the next look.
pub fn wifi_status_task(link_up: bool, config_up: bool) -> (r: (Action, u64))
    ensures
        r.0@ == ActionView::WifiStateUpdate(link_state_of(link_up, config_up)),
        r.1 == link_poll_millis_of(config_up),
{
    let state = if link_up {
        if config_up {
            WifiState::OK
        } else {
            WifiState::LINKUP
        }
    } else {
        WifiState::STARTING
    };
    let wait: u64 = if !config_up {
        LINK_POLL_FAST_MILLIS
    } else {
        LINK_POLL_SLOW_MILLIS
    };
    (Action::WifiStateUpdate(state), wait)
}

/// The blinking of the monster: whether it shows, and the ten-second step of
/// the minute that was last seen.
#[derive(Clone, Copy, Debug, PartialEq, Eq, Structural)]
pub struct UpdateTimer {
    pub visible: bool,
    pub last_value: u32,
}

/// The ten-second step of the minute in which a second lies.
pub open spec fn step_of(second: int) -> int {
    second / 10 % 10
}

/// The blinking after a tick in the given second of the minute: the monster
/// shows or hides anew whenever the ten-second step has changed.
pub open spec fn blink_after(timer: UpdateTimer, second: int) -> UpdateTimer {
    UpdateTimer {
        visible: if step_of(second) != timer.last_value {
            !timer.visible
        } else {
            timer.visible
        },
        last_value: step_of(second) as u32,
    }
}

impl UpdateTimer {
    /// The blinking at the start: the monster shows, and the step is 0.
    pub fn new() -> (timer: UpdateTimer)
        ensures
            timer == (UpdateTimer { visible: true, last_value: 0 }),
    {
        UpdateTimer { visible: true, last_value: 0 }
    }

    /// Takes a tick in the given second of the minute, and tells whether the
    /// monster shows.
    pub fn advance(&mut self, second: u32) -> (visible: bool)
        ensures
            *final(self) == blink_after(*old(self), second as int),
            visible == final(self).visible,
    {
        let actual: u32 = second / 10 % 10;
        if actual != self.last_value {
            self.visible = !self.visible;
        }
        self.last_value = actual;
        self.visible
    }

    /// One turn of the tick's loop: the action that shows or hides the monster
    /// and brings the time up to `now`. The second is the one that the wall
    /// clock of Paris shows at `now`.
    pub fn update_timer(&mut self, now: UtcTime) -> (action: Action)
        ensures
            *final(self) == blink_after(*old(self), second_of(paris_seconds_of_day(now.secs()))),
            action@ == ActionView::MultipleActions(
                seq![
                    ActionView::ShowMonster(final(self).visible),
                    ActionView::UpdateTime(now),
                ],
            ),
    {
        let visible = self.advance(now.local_second());
        let mut actions: Vec<Action> = Vec::new();
        actions.push(Action::ShowMonster(visible));
        actions.push(Action::UpdateTime(now));
        let action = Action::MultipleActions(actions);
        proof {
            crate::controller::lemma_parts_view(actions@, 2);
            assert(action@->MultipleActions_0 =~= seq![
                ActionView::ShowMonster(visible),
                ActionView::UpdateTime(now),
            ]);
        }
        action
    }
}

} // verus!
