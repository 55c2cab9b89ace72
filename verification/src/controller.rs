//! The action pipeline: actions, the channel that carries them, the refresh
//! signal, and the controller that turns each action into display updates.

use crate::moon::{image_of, Moon};
use crate::sky::{get_slint_gradient, sky_of, SolarPosition};
use crate::text::{push_two_digits, string_from_chars, two_digits};
use crate::time::{
    hour_of, instants_within, minute_of, paris_seconds_of_day, UtcTime, MAX_SECS, MIN_SECS,
};
use crate::ui::{MonsterEnv, MonsterPosition, TimeOfDay, UiUpdate, WifiState};
use embassy_sync::blocking_mutex::raw::NoopRawMutex;
use embassy_sync::channel::Channel;
use vstd::prelude::*;

verus! {

/// A request to change what the display shows.
#[derive(Debug, PartialEq, Eq)]
pub enum Action {
    /// Several actions, applied in order.
    MultipleActions(Vec<Action>),
    HardwareUserBtnPressed(bool),
    TouchscreenToggleBtn(bool),
    WifiStateUpdate(WifiState),
    TimeOfDayUpdate(TimeOfDay, Moon),
    /// A tick of the wall clock.
    UpdateTime(UtcTime),
    ShowMonster(bool),
    /// Start a countdown at the given instant, for a number of seconds.
    StartCountDown(UtcTime, u8),
}

/// An action as a mathematical value.
pub enum ActionView {
    MultipleActions(Seq<ActionView>),
    HardwareUserBtnPressed(bool),
    TouchscreenToggleBtn(bool),
    WifiStateUpdate(WifiState),
    TimeOfDayUpdate(TimeOfDay, Moon),
    UpdateTime(UtcTime),
    ShowMonster(bool),
    StartCountDown(UtcTime, u8),
}

/// The mathematical value of an action.
pub open spec fn action_view(a: Action) -> ActionView
    decreases a,
{
    match a {
        Action::MultipleActions(actions) => ActionView::MultipleActions(
            parts_view(actions@, actions@.len()),
        ),
        Action::HardwareUserBtnPressed(b) => ActionView::HardwareUserBtnPressed(b),
        Action::TouchscreenToggleBtn(b) => ActionView::TouchscreenToggleBtn(b),
        Action::WifiStateUpdate(w) => ActionView::WifiStateUpdate(w),
        Action::TimeOfDayUpdate(t, m) => ActionView::TimeOfDayUpdate(t, m),
        Action::UpdateTime(t) => ActionView::UpdateTime(t),
        Action::ShowMonster(b) => ActionView::ShowMonster(b),
        Action::StartCountDown(t, d) => ActionView::StartCountDown(t, d),
    }
}

/// The mathematical values of the first `n` of `actions`.
pub open spec fn parts_view(actions: Seq<Action>, n: nat) -> Seq<ActionView>
    decreases actions, n,
{
    if n == 0 || n > actions.len() {
        Seq::empty()
    } else {
        parts_view(actions, (n - 1) as nat).push(action_view(actions[n - 1]))
    }
}

impl View for Action {
    type V = ActionView;

    open spec fn view(&self) -> ActionView {
        action_view(*self)
    }
}

/// The parts of a composite action's value are the values of its parts.
pub proof fn lemma_parts_view(actions: Seq<Action>, n: nat)
    requires
        n <= actions.len(),
    ensures
        parts_view(actions, n).len() == n,
        forall|j: int| 0 <= j < n ==> parts_view(actions, n)[j] == actions[j]@,
    decreases n,
{
    if n > 0 {
        lemma_parts_view(actions, (n - 1) as nat);
    }
}

impl Clone for Action {
    fn clone(&self) -> (r: Action)
        ensures
            r@ == self@,
        decreases self,
    {
        match self {
            Action::MultipleActions(actions) => {
                let mut copies: Vec<Action> = Vec::new();
                let mut i: usize = 0;
                while i < actions.len()
                    invariant
                        i <= actions.len(),
                        copies.len() == i,
                        forall|j: int| 0 <= j < i ==> copies[j]@ == actions[j]@,
                        *self == Action::MultipleActions(*actions),
                    decreases actions.len() - i,
                {
                    proof {
                        vstd::std_specs::vec::axiom_vec_index_decreases(*actions, i as int);
                        assert(decreases_to!(*self => self->MultipleActions_0));
                    }
                    let one = actions[i].clone();
                    copies.push(one);
                    i += 1;
                }
                let r = Action::MultipleActions(copies);
                assert(r@ == self@) by {
                    lemma_parts_view(copies@, copies@.len());
                    lemma_parts_view(actions@, actions@.len());
                    assert(r@->MultipleActions_0 =~= self@->MultipleActions_0);
                }
                r
            },
            Action::HardwareUserBtnPressed(b) => Action::HardwareUserBtnPressed(*b),
            Action::TouchscreenToggleBtn(b) => Action::TouchscreenToggleBtn(*b),
            Action::WifiStateUpdate(w) => Action::WifiStateUpdate(*w),
            Action::TimeOfDayUpdate(t, m) => Action::TimeOfDayUpdate(*t, *m),
            Action::UpdateTime(t) => Action::UpdateTime(*t),
            Action::ShowMonster(b) => Action::ShowMonster(*b),
            Action::StartCountDown(t, d) => Action::StartCountDown(*t, *d),
        }
    }
}

/// Side of the moon's picture in pixels.
pub const MOON_SIZE: usize = 34;

/// Number of actions that the action channel of the device holds, and the
/// most that any action channel can hold.
pub const ACTION_CAPACITY: usize = 4;

/// Number of actions that the action channel of the simulator holds.
pub const SIMULATOR_ACTION_CAPACITY: usize = 2;

/// Number of actions that the refresh signal holds.
pub const REFRESH_CAPACITY: usize = 1;

/// How deep composite actions may be nested.
pub const MAX_ACTION_DEPTH: usize = 8;

/// Seconds for which a computed sky stays in force.
pub const SKY_VALIDITY_SECS: u32 = 60;

/// Seconds for which a computed moon stays in force.
pub const MOON_VALIDITY_SECS: i64 = 3600;

/// Milliseconds for which the controller stands back after asking for a
/// refresh.
pub const REFRESH_YIELD_MILLIS: u64 = 1;

/// The places in which actions wait for the controller. It holds an
/// `embassy_sync::channel::Channel` of four places, which the verifier does
/// not look into: what waits in it goes by the name [`queued_actions`].
#[verifier::external_body]
pub struct ActionQueue {
    inner: Channel<NoopRawMutex, Action, 4>,
}

/// The single slot that tells the render loop of a pending change. It holds
/// an `embassy_sync::channel::Channel` of one place, which the verifier does
/// not look into: what waits in it goes by the name [`pending_refresh`].
#[verifier::external_body]
pub struct RefreshSignal {
    inner: Channel<NoopRawMutex, Action, 1>,
}

/// The actions that wait in the places of an action channel, oldest first.
pub uninterp spec fn queued_actions(queue: ActionQueue) -> Seq<ActionView>;

/// The actions that wait in a refresh signal, oldest first.
pub uninterp spec fn pending_refresh(signal: RefreshSignal) -> Seq<ActionView>;

impl View for RefreshSignal {
    type V = Seq<ActionView>;

    open spec fn view(&self) -> Seq<ActionView> {
        pending_refresh(*self)
    }
}

/// Calls `embassy_sync::channel::Channel::new`. Trusted: a new channel holds
/// nothing.
#[verifier::external_body]
fn action_queue_new() -> (queue: ActionQueue)
    ensures
        queued_actions(queue) == Seq::<ActionView>::empty(),
{
    ActionQueue { inner: Channel::new() }
}

/// Calls `Channel::len`. Trusted: the result is the number of actions that
/// wait, which is never more than the four places of the channel.
#[verifier::external_body]
fn action_queue_len(queue: &ActionQueue) -> (n: usize)
    ensures
        n == queued_actions(*queue).len(),
        n <= ACTION_CAPACITY,
{
    queue.inner.len()
}

/// Calls `Channel::try_send` and tells whether it returned `Ok`. Trusted: with
/// fewer than four actions waiting the action is queued behind them; with four
/// the channel is left as it was.
#[verifier::external_body]
fn action_queue_try_send(queue: &mut ActionQueue, a: Action) -> (sent: bool)
    ensures
        queued_actions(*final(queue)) == after_send(
            queued_actions(*old(queue)),
            a@,
            ACTION_CAPACITY as int,
        ),
        sent == (queued_actions(*old(queue)).len() < ACTION_CAPACITY),
{
    queue.inner.try_send(a).is_ok()
}

/// Calls `Channel::try_receive` and turns its result into an `Option`.
/// Trusted: the oldest waiting action is taken out and returned; an empty
/// channel gives `None` and stays empty.
#[verifier::external_body]
fn action_queue_try_receive(queue: &mut ActionQueue) -> (r: Option<Action>)
    ensures
        queued_actions(*final(queue)) == after_receive(queued_actions(*old(queue))),
        received(queued_actions(*old(queue)), r),
{
    queue.inner.try_receive().ok()
}

/// Calls `embassy_sync::channel::Channel::new`. Trusted: a new channel holds
/// nothing.
#[verifier::external_body]
fn refresh_signal_new() -> (signal: RefreshSignal)
    ensures
        pending_refresh(signal) == Seq::<ActionView>::empty(),
{
    RefreshSignal { inner: Channel::new() }
}

/// Calls `Channel::try_send` and tells whether it returned `Ok`. Trusted: an
/// empty signal takes the action; one that holds an action is left as it was.
/// A signal never holds more than the one action that it has a place for.
#[verifier::external_body]
fn refresh_signal_try_send(signal: &mut RefreshSignal, a: Action) -> (sent: bool)
    ensures
        pending_refresh(*final(signal)) == after_send(
            pending_refresh(*old(signal)),
            a@,
            REFRESH_CAPACITY as int,
        ),
        sent == (pending_refresh(*old(signal)).len() < REFRESH_CAPACITY),
        pending_refresh(*old(signal)).len() <= REFRESH_CAPACITY,
{
    signal.inner.try_send(a).is_ok()
}

/// Calls `Channel::try_receive` and turns its result into an `Option`.
/// Trusted: the oldest waiting action is taken out and returned; an empty
/// signal gives `None` and stays empty. A signal never holds more than the
/// one action that it has a place for.
#[verifier::external_body]
fn refresh_signal_try_receive(signal: &mut RefreshSignal) -> (r: Option<Action>)
    ensures
        pending_refresh(*final(signal)) == after_receive(pending_refresh(*old(signal))),
        received(pending_refresh(*old(signal)), r),
        pending_refresh(*old(signal)).len() <= REFRESH_CAPACITY,
{
    signal.inner.try_receive().ok()
}

/// Calls `Channel::clear`. Trusted: nothing waits afterwards.
#[verifier::external_body]
fn refresh_signal_clear(signal: &mut RefreshSignal)
    ensures
        pending_refresh(*final(signal)) == Seq::<ActionView>::empty(),
{
    signal.inner.clear()
}

/// A queue of the given capacity after an attempt to add `a`: the action is
/// added behind the others where there is room, and dropped where there is
/// none.
pub open spec fn after_send(queue: Seq<ActionView>, a: ActionView, capacity: int) -> Seq<
    ActionView,
> {
    if queue.len() < capacity {
        queue.push(a)
    } else {
        queue
    }
}

/// A queue after an attempt to take its oldest action.
pub open spec fn after_receive(queue: Seq<ActionView>) -> Seq<ActionView> {
    if queue.len() == 0 {
        queue
    } else {
        queue.drop_first()
    }
}

/// Whether `r` is what an attempt to take the oldest action of `queue` gives.
pub open spec fn received(queue: Seq<ActionView>, r: Option<Action>) -> bool {
    if queue.len() == 0 {
        r is None
    } else {
        r matches Some(a) && a@ == queue[0]
    }
}

/// A queue after attempts to add the first `n` of `actions`, in their order.
pub open spec fn after_sends(
    queue: Seq<ActionView>,
    actions: Seq<ActionView>,
    n: nat,
    capacity: int,
) -> Seq<ActionView>
    decreases n,
{
    if n == 0 {
        queue
    } else {
        after_send(
            after_sends(queue, actions, (n - 1) as nat, capacity),
            actions[n - 1],
            capacity,
        )
    }
}

/// The number of places that a channel asked to hold `capacity` actions has:
/// as many as asked for, and four at most.
pub open spec fn places_for(capacity: int) -> int {
    if capacity < ACTION_CAPACITY {
        capacity
    } else {
        ACTION_CAPACITY as int
    }
}

/// The bounded queue of actions on their way to the controller: a number of
/// places, and the actions that wait in them.
pub struct ActionChannel {
    queue: ActionQueue,
    capacity: usize,
}

impl View for ActionChannel {
    type V = Seq<ActionView>;

    closed spec fn view(&self) -> Seq<ActionView> {
        queued_actions(self.queue)
    }
}

impl ActionChannel {
    /// Number of places of the channel.
    pub closed spec fn spec_capacity(&self) -> usize {
        places_for(self.capacity as int) as usize
    }

    /// An empty action channel of `capacity` places, and of four where more
    /// are asked for.
    pub fn new(capacity: usize) -> (channel: ActionChannel)
        ensures
            channel@ == Seq::<ActionView>::empty(),
            channel.spec_capacity() == places_for(capacity as int),
    {
        ActionChannel { queue: action_queue_new(), capacity }
    }

    /// Number of places of the channel.
    #[verifier::when_used_as_spec(spec_capacity)]
    pub fn capacity(&self) -> (n: usize)
        ensures
            n == self.spec_capacity(),
            n <= ACTION_CAPACITY,
    {
        if self.capacity < ACTION_CAPACITY {
            self.capacity
        } else {
            ACTION_CAPACITY
        }
    }

    /// Number of actions that wait in the channel.
    pub fn len(&self) -> (n: usize)
        ensures
            n == self@.len(),
            n <= ACTION_CAPACITY,
    {
        action_queue_len(&self.queue)
    }
}

impl RefreshSignal {
    /// A refresh signal on which nothing is pending.
    pub fn new() -> (signal: RefreshSignal)
        ensures
            signal@ == Seq::<ActionView>::empty(),
    {
        refresh_signal_new()
    }
}

/// Hands an action to the controller without blocking. A full channel drops
/// the action; the caller is told, and nothing else happens. A channel that
/// held no more actions than it has places still does so afterwards.
pub fn send_action(channel: &mut ActionChannel, a: Action) -> (accepted: bool)
    ensures
        final(channel)@ == after_send(old(channel)@, a@, old(channel).spec_capacity() as int),
        accepted == (old(channel)@.len() < old(channel).spec_capacity()),
        final(channel).spec_capacity() == old(channel).spec_capacity(),
        final(channel)@.len() <= ACTION_CAPACITY,
        old(channel)@.len() <= old(channel).spec_capacity() ==> final(channel)@.len()
            <= old(channel).spec_capacity(),
{
    let places: usize = channel.capacity();
    if action_queue_len(&channel.queue) < places {
        action_queue_try_send(&mut channel.queue, a)
    } else {
        false
    }
}

/// Takes the oldest waiting action, if there is one.
pub fn receive_action(channel: &mut ActionChannel) -> (r: Option<Action>)
    ensures
        final(channel)@ == after_receive(old(channel)@),
        received(old(channel)@, r),
        final(channel).spec_capacity() == old(channel).spec_capacity(),
        final(channel)@.len() <= old(channel)@.len(),
{
    action_queue_try_receive(&mut channel.queue)
}

/// Publishes an action on the refresh signal without blocking. While a refresh
/// is pending the action is dropped: the display will be painted anyway.
/// Afterwards a refresh is pending in either case.
pub fn request_refresh(signal: &mut RefreshSignal, a: Action) -> (accepted: bool)
    ensures
        final(signal)@ == after_send(old(signal)@, a@, REFRESH_CAPACITY as int),
        accepted == (old(signal)@.len() == 0),
        final(signal)@.len() == REFRESH_CAPACITY,
{
    refresh_signal_try_send(signal, a)
}

/// Takes the pending refresh, if there is one, and leaves the signal clear.
pub fn refresh_screen(signal: &mut RefreshSignal) -> (r: Option<Action>)
    ensures
        received(old(signal)@, r),
        final(signal)@ == Seq::<ActionView>::empty(),
{
    let r = refresh_signal_try_receive(signal);
    if r.is_some() {
        refresh_signal_clear(signal);
    }
    r
}

/// Drops the pending refresh, if there is one: the signal is clear afterwards.
pub fn empty_refresh_screen(signal: &mut RefreshSignal)
    ensures
        final(signal)@ == Seq::<ActionView>::empty(),
{
    let _ = refresh_signal_try_receive(signal);
}

/// Why an action could not be carried out.
#[derive(Clone, Copy, Debug, PartialEq, Eq, Structural)]
pub enum ControllerError {
    /// Composite actions are nested deeper than [`MAX_ACTION_DEPTH`].
    TooDeep,
    /// The countdown would end past the last representable instant.
    CountdownOutOfRange,
}

/// One thing that the controller has the caller do, in the order given.
#[derive(Debug, PartialEq, Eq)]
pub enum Step {
    /// Publish the action on the refresh signal, without blocking.
    SignalRefresh(Action),
    /// Stand back for a number of milliseconds.
    Pause(u64),
    /// Assign a field of the display.
    Update(UiUpdate),
    /// Compute the sun's position at the instant and apply [`sky_updates`].
    RefreshSky(UtcTime),
    /// Compute the moon at the instant and apply [`moon_updates`].
    RefreshMoon(UtcTime),
}

/// A step as a mathematical value.
pub enum StepView {
    SignalRefresh(ActionView),
    Pause(u64),
    Update(UiUpdate),
    RefreshSky(UtcTime),
    RefreshMoon(UtcTime),
}

impl View for Step {
    type V = StepView;

    open spec fn view(&self) -> StepView {
        match self {
            Step::SignalRefresh(a) => StepView::SignalRefresh(a@),
            Step::Pause(ms) => StepView::Pause(*ms),
            Step::Update(u) => StepView::Update(*u),
            Step::RefreshSky(t) => StepView::RefreshSky(*t),
            Step::RefreshMoon(t) => StepView::RefreshMoon(*t),
        }
    }
}

/// The steps of a list as mathematical values.
pub open spec fn steps_view(steps: Seq<Step>) -> Seq<StepView> {
    steps.map_values(|s: Step| s@)
}

/// What the controller remembers: the instants for which the sky and the moon
/// were last computed.
pub struct Caches {
    pub sky: Option<UtcTime>,
    pub moon: Option<UtcTime>,
}

/// What carrying out an action comes to: the steps, what the controller
/// remembers afterwards, and whether the action could be carried out.
pub struct Run {
    pub steps: Seq<StepView>,
    pub caches: Caches,
    pub result: Result<(), ControllerError>,
}

/// Whether the sky computed for `cached` still stands at `now`: the two lie
/// less than a minute apart.
pub open spec fn sky_is_current(cached: Option<UtcTime>, now: UtcTime) -> bool {
    cached matches Some(v) && instants_within(now, v, SKY_VALIDITY_SECS as int)
}

/// Whether the moon computed for `cached` still stands at `now`: the whole
/// seconds of the two lie less than an hour apart, in either direction.
pub open spec fn moon_is_current(cached: Option<UtcTime>, now: UtcTime) -> bool {
    cached matches Some(v) && -MOON_VALIDITY_SECS < now.secs() - v.secs() < MOON_VALIDITY_SECS
}

/// The instant at which a countdown of `duration` seconds from `start` ends,
/// in seconds since the epoch.
pub open spec fn deadline_of(start: UtcTime, duration: u8) -> int {
    start.secs() + duration
}

/// The steps of a tick of the wall clock: the time is shown, and the sky and
/// the moon are computed anew where they no longer stand.
pub open spec fn run_tick(c: Caches, now: UtcTime) -> (Seq<StepView>, Caches) {
    let shown = seq![StepView::Update(UiUpdate::CurrentTime(now.secs() as i64))];
    let (with_sky, sky) = if sky_is_current(c.sky, now) {
        (shown, c.sky)
    } else {
        (shown.push(StepView::RefreshSky(now)), Some(now))
    };
    let (with_moon, moon) = if moon_is_current(c.moon, now) {
        (with_sky, c.moon)
    } else {
        (with_sky.push(StepView::RefreshMoon(now)), Some(now))
    };
    (with_moon, Caches { sky, moon })
}

/// What carrying out `a` comes to, at the given depth of nesting. Every action
/// first asks for a refresh and stands back; only then come the assignments of
/// its kind. A composite action carries out its parts in order, one level
/// deeper, whatever becomes of each; nested deeper than allowed, it is refused.
pub open spec fn run_action(c: Caches, a: ActionView, depth: nat) -> Run
    decreases MAX_ACTION_DEPTH - depth, 0nat,
{
    let head = seq![StepView::SignalRefresh(a), StepView::Pause(REFRESH_YIELD_MILLIS)];
    match a {
        ActionView::MultipleActions(parts) => {
            if depth >= MAX_ACTION_DEPTH {
                Run { steps: head, caches: c, result: Err(ControllerError::TooDeep) }
            } else {
                let rest = run_parts(c, parts, depth + 1, parts.len());
                Run { steps: head + rest.steps, caches: rest.caches, result: Ok(()) }
            }
        },
        ActionView::HardwareUserBtnPressed(_) => Run { steps: head, caches: c, result: Ok(()) },
        ActionView::TouchscreenToggleBtn(_) => Run { steps: head, caches: c, result: Ok(()) },
        ActionView::StartCountDown(start, duration) => {
            if MIN_SECS <= deadline_of(start, duration) <= MAX_SECS {
                Run {
                    steps: head.push(
                        StepView::Update(UiUpdate::Countdown(deadline_of(start, duration) as i64)),
                    ).push(StepView::Update(UiUpdate::CountdownTotalDuration(duration))),
                    caches: c,
                    result: Ok(()),
                }
            } else {
                Run { steps: head, caches: c, result: Err(ControllerError::CountdownOutOfRange) }
            }
        },
        ActionView::WifiStateUpdate(state) => Run {
            steps: head.push(StepView::Update(UiUpdate::WifiState(state))),
            caches: c,
            result: Ok(()),
        },
        ActionView::UpdateTime(now) => Run {
            steps: head + run_tick(c, now).0,
            caches: run_tick(c, now).1,
            result: Ok(()),
        },
        ActionView::ShowMonster(visible) => Run {
            steps: head.push(StepView::Update(UiUpdate::MonsterVisibility(visible))),
            caches: c,
            result: Ok(()),
        },
        ActionView::TimeOfDayUpdate(tod, moon) => Run {
            steps: head.push(StepView::Update(UiUpdate::TimeOfDay(tod))).push(
                StepView::Update(
                    UiUpdate::Moon(image_of(moon.phase as int, moon.illumination as int)),
                ),
            ),
            caches: c,
            result: Ok(()),
        },
    }
}

/// What carrying out the first `n` of `parts` comes to, one after the other.
pub open spec fn run_parts(c: Caches, parts: Seq<ActionView>, depth: nat, n: nat) -> Run
    decreases MAX_ACTION_DEPTH - depth, n,
{
    if n == 0 {
        Run { steps: Seq::empty(), caches: c, result: Ok(()) }
    } else {
        let before = run_parts(c, parts, depth, (n - 1) as nat);
        let last = run_action(before.caches, parts[n - 1], depth);
        Run { steps: before.steps + last.steps, caches: last.caches, result: Ok(()) }
    }
}

/// The capability to drive the board's hardware.
pub trait Hardware {

}

/// The single consumer of the action channel: it turns each action into the
/// steps that bring the display up to date.
pub struct Controller<H: Hardware> {
    hardware: H,
    current_sky: Option<UtcTime>,
    current_moon: Option<UtcTime>,
}

impl<H: Hardware> View for Controller<H> {
    type V = Caches;

    closed spec fn view(&self) -> Caches {
        Caches { sky: self.current_sky, moon: self.current_moon }
    }
}

proof fn lemma_steps_push(steps: Seq<Step>, s: Step)
    ensures
        steps_view(steps.push(s)) == steps_view(steps).push(s@),
{
    assert(steps_view(steps.push(s)) =~= steps_view(steps).push(s@));
}

impl<H: Hardware> Controller<H> {
    /// A controller that has computed neither sky nor moon yet.
    pub fn new(hardware: H) -> (controller: Controller<H>)
        ensures
            controller@ == (Caches { sky: None, moon: None }),
            *controller.spec_hardware() == hardware,
    {
        Controller { hardware, current_sky: None, current_moon: None }
    }

    /// The hardware that the controller was given.
    pub closed spec fn spec_hardware(&self) -> &H {
        &self.hardware
    }

    /// The hardware that the controller was given.
    #[verifier::when_used_as_spec(spec_hardware)]
    pub fn hardware(&self) -> (h: &H)
        ensures
            h == self.spec_hardware(),
    {
        &self.hardware
    }

    /// The instant for which the sky was last computed.
    pub fn sky_version(&self) -> (v: Option<UtcTime>)
        ensures
            v == self@.sky,
    {
        self.current_sky
    }

    /// The instant for which the moon was last computed.
    pub fn moon_version(&self) -> (v: Option<UtcTime>)
        ensures
            v == self@.moon,
    {
        self.current_moon
    }

    /// The assignments that go with the installation of the display's
    /// handlers for [`format_countdown`] and [`format_time`]: no countdown runs.
    pub fn set_action_event_handlers(&self) -> (updates: Vec<UiUpdate>)
        ensures
            updates@ == seq![UiUpdate::Countdown(0)],
    {
        let mut updates: Vec<UiUpdate> = Vec::new();
        updates.push(UiUpdate::Countdown(0));
        updates
    }

    /// One turn of the controller's loop: takes the oldest waiting action, if
    /// there is one, and carries it out. An action that fails leaves the
    /// controller ready for the next turn.
    pub fn run(&mut self, channel: &mut ActionChannel, steps: &mut Vec<Step>) -> (r: Option<
        Result<(), ControllerError>,
    >)
        ensures
            final(channel)@ == after_receive(old(channel)@),
            final(channel).spec_capacity() == old(channel).spec_capacity(),
            final(self).spec_hardware() == old(self).spec_hardware(),
            old(channel)@.len() == 0 ==> {
                &&& r is None
                &&& final(steps)@ == old(steps)@
                &&& final(self)@ == old(self)@
            },
            old(channel)@.len() > 0 ==> {
                &&& steps_view(final(steps)@) == steps_view(old(steps)@) + run_action(
                    old(self)@,
                    old(channel)@[0],
                    0,
                ).steps
                &&& final(self)@ == run_action(old(self)@, old(channel)@[0], 0).caches
                &&& r == Some(run_action(old(self)@, old(channel)@[0], 0).result)
            },
    {
        match receive_action(channel) {
            Some(action) => Some(self.process_action(action, steps)),
            None => None,
        }
    }

    /// Carries out one action: appends to `steps` what the caller has to do, in
    /// order, and remembers for which instants the sky and the moon are now
    /// computed. An action that cannot be carried out gives an error and leaves
    /// the controller ready for the next.
    pub fn process_action(&mut self, action: Action, steps: &mut Vec<Step>) -> (r: Result<
        (),
        ControllerError,
    >)
        ensures
            steps_view(final(steps)@) == steps_view(old(steps)@) + run_action(
                old(self)@,
                action@,
                0,
            ).steps,
            final(self)@ == run_action(old(self)@, action@, 0).caches,
            r == run_action(old(self)@, action@, 0).result,
            final(self).spec_hardware() == old(self).spec_hardware(),
    {
        self.process_action_at(&action, 0, steps)
    }

    fn process_tick(&mut self, now: UtcTime, steps: &mut Vec<Step>)
        ensures
            steps_view(final(steps)@) == steps_view(old(steps)@) + run_tick(old(self)@, now).0,
            final(self)@ == run_tick(old(self)@, now).1,
            final(self).spec_hardware() == old(self).spec_hardware(),
    {
        let ghost before = steps@;
        let shown = Step::Update(UiUpdate::CurrentTime(now.timestamp()));
        steps.push(shown);
        proof {
            lemma_steps_push(before, shown);
        }
        let up_to_date_sky = match &self.current_sky {
            Some(v) => now.within_seconds(v, SKY_VALIDITY_SECS),
            None => false,
        };
        if !up_to_date_sky {
            self.current_sky = Some(now);
            let ghost mid = steps@;
            steps.push(Step::RefreshSky(now));
            proof {
                lemma_steps_push(mid, Step::RefreshSky(now));
            }
        }
        let updated_moon = match &self.current_moon {
            Some(v) => {
                let gone_by: i64 = now.timestamp() - v.timestamp();
                -MOON_VALIDITY_SECS < gone_by && gone_by < MOON_VALIDITY_SECS
            },
            None => false,
        };
        if !updated_moon {
            self.current_moon = Some(now);
            let ghost mid = steps@;
            steps.push(Step::RefreshMoon(now));
            proof {
                lemma_steps_push(mid, Step::RefreshMoon(now));
            }
        }
        assert(steps_view(steps@) =~= steps_view(before) + run_tick(old(self)@, now).0);
    }

    /// Carries out one action that stands `depth` composite actions deep in
    /// another: a composite action at the bound of the nesting is refused, and
    /// so are its parts.
    pub fn process_action_at(
        &mut self,
        action: &Action,
        depth: usize,
        steps: &mut Vec<Step>,
    ) -> (r: Result<(), ControllerError>)
        ensures
            steps_view(final(steps)@) == steps_view(old(steps)@) + run_action(
                old(self)@,
                action@,
                depth as nat,
            ).steps,
            final(self)@ == run_action(old(self)@, action@, depth as nat).caches,
            r == run_action(old(self)@, action@, depth as nat).result,
            final(self).spec_hardware() == old(self).spec_hardware(),
        decreases MAX_ACTION_DEPTH - depth,
    {
        let ghost before = steps@;
        let ghost c0 = self@;
        let ghost head = seq![
            StepView::SignalRefresh(action@),
            StepView::Pause(REFRESH_YIELD_MILLIS),
        ];
        let copy = action.clone();
        steps.push(Step::SignalRefresh(copy));
        proof {
            lemma_steps_push(before, Step::SignalRefresh(copy));
        }
        let ghost mid = steps@;
        steps.push(Step::Pause(REFRESH_YIELD_MILLIS));
        proof {
            lemma_steps_push(mid, Step::Pause(REFRESH_YIELD_MILLIS));
            assert(steps_view(steps@) =~= steps_view(before) + head);
        }
        let ghost started = steps@;
        match action {
            Action::HardwareUserBtnPressed(_) => Ok(()),
            Action::TouchscreenToggleBtn(_) => Ok(()),
            Action::StartCountDown(current_time, duration) => {
                proof {
                    use_type_invariant(current_time);
                }
                match countdown(*current_time, *duration) {
                    Some((stops_at, total)) => {
                        let first = Step::Update(UiUpdate::Countdown(stops_at));
                        let second = Step::Update(UiUpdate::CountdownTotalDuration(total));
                        steps.push(first);
                        let ghost one = steps@;
                        steps.push(second);
                        proof {
                            lemma_steps_push(started, first);
                            lemma_steps_push(one, second);
                            assert(steps_view(steps@) =~= steps_view(before) + head.push(
                                first@,
                            ).push(second@));
                        }
                        Ok(())
                    },
                    None => Err(ControllerError::CountdownOutOfRange),
                }
            },
            Action::WifiStateUpdate(wifi_state) => {
                let s = Step::Update(UiUpdate::WifiState(*wifi_state));
                steps.push(s);
                proof {
                    lemma_steps_push(started, s);
                    assert(steps_view(steps@) =~= steps_view(before) + head.push(s@));
                }
                Ok(())
            },
            Action::UpdateTime(current_time) => {
                self.process_tick(*current_time, steps);
                proof {
                    assert(steps_view(steps@) =~= steps_view(before) + (head + run_tick(
                        c0,
                        *current_time,
                    ).0));
                }
                Ok(())
            },
            Action::ShowMonster(monster) => {
                let s = Step::Update(UiUpdate::MonsterVisibility(*monster));
                steps.push(s);
                proof {
                    lemma_steps_push(started, s);
                    assert(steps_view(steps@) =~= steps_view(before) + head.push(s@));
                }
                Ok(())
            },
            Action::TimeOfDayUpdate(tod, moon) => {
                let first = Step::Update(UiUpdate::TimeOfDay(*tod));
                let second = Step::Update(UiUpdate::Moon(moon.build_image()));
                steps.push(first);
                let ghost one = steps@;
                steps.push(second);
                proof {
                    lemma_steps_push(started, first);
                    lemma_steps_push(one, second);
                    assert(steps_view(steps@) =~= steps_view(before) + head.push(first@).push(
                        second@,
                    ));
                }
                Ok(())
            },
            Action::MultipleActions(actions) => {
                if depth >= MAX_ACTION_DEPTH {
                    return Err(ControllerError::TooDeep);
                }
                let ghost parts = action@->MultipleActions_0;
                proof {
                    lemma_parts_view(actions@, actions@.len());
                }
                let mut i: usize = 0;
                while i < actions.len()
                    invariant
                        i <= actions.len(),
                        depth < MAX_ACTION_DEPTH,
                        parts.len() == actions.len(),
                        forall|j: int| 0 <= j < actions.len() ==> parts[j] == actions[j]@,
                        self.spec_hardware() == old(self).spec_hardware(),
                        steps_view(steps@) == steps_view(before) + head + run_parts(
                            c0,
                            parts,
                            (depth + 1) as nat,
                            i as nat,
                        ).steps,
                        self@ == run_parts(c0, parts, (depth + 1) as nat, i as nat).caches,
                    decreases actions.len() - i,
                {
                    let ghost sofar = steps_view(steps@);
                    let ghost done = run_parts(c0, parts, (depth + 1) as nat, i as nat);
                    let _ = self.process_action_at(&actions[i], depth + 1, steps);
                    proof {
                        let next = run_parts(c0, parts, (depth + 1) as nat, (i + 1) as nat);
                        let last = run_action(done.caches, parts[i as int], (depth + 1) as nat);
                        assert(next.steps == done.steps + last.steps);
                        assert(steps_view(steps@) =~= steps_view(before) + head + next.steps);
                    }
                    i += 1;
                }
                proof {
                    assert(steps_view(steps@) =~= steps_view(before) + (head + run_parts(
                        c0,
                        parts,
                        (depth + 1) as nat,
                        parts.len(),
                    ).steps));
                }
                Ok(())
            },
        }
    }
}

/// Horizontal place of the monster outside, in pixels.
pub const OUTSIDE_X: i32 = 125;

/// Vertical place of the monster outside, in pixels.
pub const OUTSIDE_Y: i32 = 188;

/// Horizontal place of the monster in the house, in pixels.
pub const HOUSE_X: i32 = 195;

/// Vertical place of the monster in the house, in pixels.
pub const HOUSE_Y: i32 = 138;

/// Night factor above which the monster goes indoors, in millionths.
pub const INDOORS_NIGHT_FACTOR: u32 = 250_000;

/// Where the monster is at a local hour and a night factor: outside by day; in
/// the house from 20 h to 8 h and whenever the night factor is above a quarter;
/// asleep, in the house, from 21 h to 7 h.
pub open spec fn monster_position_of(hour: int, night_factor: int) -> MonsterPosition {
    let indoors = hour >= 20 || hour < 8 || night_factor > INDOORS_NIGHT_FACTOR;
    let asleep = hour >= 21 || hour < 7;
    if asleep {
        MonsterPosition { env: MonsterEnv::SLEEPING, x: HOUSE_X, y: HOUSE_Y }
    } else if indoors {
        MonsterPosition { env: MonsterEnv::HOUSE, x: HOUSE_X, y: HOUSE_Y }
    } else {
        MonsterPosition { env: MonsterEnv::OUTSIDE, x: OUTSIDE_X, y: OUTSIDE_Y }
    }
}

/// Places the monster for a local hour and a night factor.
pub fn monster_position(hour: u32, night_factor: u32) -> (p: MonsterPosition)
    ensures
        p == monster_position_of(hour as int, night_factor as int),
{
    let mut x: i32 = OUTSIDE_X;
    let mut y: i32 = OUTSIDE_Y;
    let mut env = MonsterEnv::OUTSIDE;
    if (hour >= 20 || hour < 8) || night_factor > INDOORS_NIGHT_FACTOR {
        x = HOUSE_X;
        y = HOUSE_Y;
        env = MonsterEnv::HOUSE;
    }
    if hour >= 21 || hour < 7 {
        env = MonsterEnv::SLEEPING;
    }
    MonsterPosition { env, x, y }
}

/// Through the day the monster is asleep before 7 h and from 21 h on, outside
/// from 8 h to 20 h while the night factor is a quarter at most, and in the
/// house for the rest of the time: from 7 h to 8 h, from 20 h to 21 h, and by
/// day whenever the night factor is above a quarter.
pub proof fn lemma_monster_through_the_day(hour: int, night_factor: int)
    requires
        0 <= hour < 24,
    ensures
        monster_position_of(hour, night_factor).env == MonsterEnv::SLEEPING <==> (hour < 7 || hour
            >= 21),
        monster_position_of(hour, night_factor).env == MonsterEnv::OUTSIDE <==> (8 <= hour < 20
            && night_factor <= INDOORS_NIGHT_FACTOR),
        monster_position_of(hour, night_factor).env == MonsterEnv::HOUSE <==> (7 <= hour < 21 && !(8
            <= hour < 20 && night_factor <= INDOORS_NIGHT_FACTOR)),
        monster_position_of(hour, night_factor).env == MonsterEnv::OUTSIDE ==> monster_position_of(
            hour,
            night_factor,
        ).x == OUTSIDE_X && monster_position_of(hour, night_factor).y == OUTSIDE_Y,
        monster_position_of(hour, night_factor).env != MonsterEnv::OUTSIDE ==> monster_position_of(
            hour,
            night_factor,
        ).x == HOUSE_X && monster_position_of(hour, night_factor).y == HOUSE_Y,
{
}

/// Where the monster is at reading `i` of a day, each reading a local hour and
/// a night factor.
pub open spec fn env_at(day: Seq<(int, int)>, i: int) -> MonsterEnv {
    monster_position_of(day[i].0, day[i].1).env
}

/// Over a day of readings in which the hours do not go back and the night
/// factor is a quarter at most in one stretch only, the monster is awake in
/// one stretch and outside in one stretch within it: asleep, in the house,
/// outside, in the house, asleep, in this order and never otherwise. It is
/// outside only between 8 h and 20 h.
pub proof fn lemma_day_shape(day: Seq<(int, int)>, i: int, j: int, k: int)
    requires
        0 <= i <= j <= k < day.len(),
        forall|a: int, b: int|
            #![trigger day[a], day[b]]
            0 <= a <= b < day.len() ==> 0 <= day[a].0 <= day[b].0 < 24,
        forall|a: int, b: int, c: int|
            #![trigger day[a], day[b], day[c]]
            0 <= a <= b <= c < day.len() && day[a].1 <= INDOORS_NIGHT_FACTOR && day[c].1
                <= INDOORS_NIGHT_FACTOR ==> day[b].1 <= INDOORS_NIGHT_FACTOR,
    ensures
        env_at(day, i) == MonsterEnv::OUTSIDE && env_at(day, k) == MonsterEnv::OUTSIDE ==> env_at(
            day,
            j,
        ) == MonsterEnv::OUTSIDE,
        env_at(day, i) != MonsterEnv::SLEEPING && env_at(day, k) != MonsterEnv::SLEEPING
            ==> env_at(day, j) != MonsterEnv::SLEEPING,
        env_at(day, j) == MonsterEnv::OUTSIDE ==> 8 <= day[j].0 < 20,
{
    assert(0 <= day[i].0 <= day[j].0 < 24);
    assert(0 <= day[j].0 <= day[k].0 < 24);
    if day[i].1 <= INDOORS_NIGHT_FACTOR && day[k].1 <= INDOORS_NIGHT_FACTOR {
        assert(day[j].1 <= INDOORS_NIGHT_FACTOR);
    }
}

/// The assignments that bring the sky up to date for a position of the sun, at
/// a local hour: the night factor, the class of the time of day, the brush of
/// the sky, and the place of the monster.
pub open spec fn sky_updates_of(hour: int, sun: SolarPosition) -> Seq<UiUpdate> {
    let (tod, night_factor, brush) = sky_of(sun);
    seq![
        UiUpdate::NightFactor(night_factor),
        UiUpdate::TimeOfDay(tod),
        UiUpdate::SkyBrush(brush),
        UiUpdate::MonsterPosition(monster_position_of(hour, night_factor as int)),
    ]
}

/// Computes the assignments that bring the sky up to date, for a local hour
/// and a position of the sun.
pub fn sky_updates_at(hour: u32, sun: SolarPosition) -> (updates: Vec<UiUpdate>)
    ensures
        updates@ == sky_updates_of(hour as int, sun),
{
    let (tod, night_factor, brush) = get_slint_gradient(sun);
    let place = monster_position(hour, night_factor);
    let mut updates: Vec<UiUpdate> = Vec::new();
    updates.push(UiUpdate::NightFactor(night_factor));
    updates.push(UiUpdate::TimeOfDay(tod));
    updates.push(UiUpdate::SkyBrush(brush));
    updates.push(UiUpdate::MonsterPosition(place));
    assert(updates@ =~= sky_updates_of(hour as int, sun));
    updates
}

/// Computes the assignments that bring the sky up to date at `time`, for the
/// position that the sun has then: the hour is the one that the wall clock of
/// Paris shows at `time`.
pub fn sky_updates(time: UtcTime, sun: SolarPosition) -> (updates: Vec<UiUpdate>)
    ensures
        updates@ == sky_updates_of(hour_of(paris_seconds_of_day(time.secs())), sun),
{
    sky_updates_at(time.local_hour(), sun)
}

/// Computes the assignment that shows the given moon.
pub fn moon_updates(moon: Moon) -> (updates: Vec<UiUpdate>)
    ensures
        updates@ == seq![
            UiUpdate::Moon(image_of(moon.phase as int, moon.illumination as int)),
        ],
{
    let mut updates: Vec<UiUpdate> = Vec::new();
    updates.push(UiUpdate::Moon(moon.build_image()));
    updates
}

/// The countdown that starts at `start` and lasts `duration` seconds: the
/// instant at which it ends, in seconds since the epoch, and its length. `None`
/// when it would end past the last representable instant.
pub fn countdown(start: UtcTime, duration: u8) -> (r: Option<(i64, u8)>)
    ensures
        r is Some <==> deadline_of(start, duration) <= MAX_SECS,
        r matches Some(c) ==> c.0 == deadline_of(start, duration) && c.1 == duration,
{
    let secs: i64 = start.timestamp();
    if secs <= MAX_SECS - duration as i64 {
        Some((secs + duration as i64, duration))
    } else {
        None
    }
}

/// Quotient of a division by sixty, rounded toward zero.
pub open spec fn minutes_of(seconds: int) -> int {
    if seconds >= 0 {
        seconds / 60
    } else {
        -((-seconds) / 60)
    }
}

/// Remainder of a division by sixty, with the sign of the dividend.
pub open spec fn seconds_left_of(seconds: int) -> int {
    if seconds >= 0 {
        seconds % 60
    } else {
        -((-seconds) % 60)
    }
}

/// The text of a span of time in seconds: minutes and seconds, each in a
/// field of two, with a colon between them.
pub open spec fn countdown_text(seconds: int) -> Seq<char> {
    two_digits(minutes_of(seconds)) + seq![':'] + two_digits(seconds_left_of(seconds))
}

/// The text of a time of day given in seconds past midnight: hours and
/// minutes, each in two digits, with a colon between them.
pub open spec fn clock_text(seconds_of_day: int) -> Seq<char> {
    two_digits(hour_of(seconds_of_day)) + seq![':'] + two_digits(minute_of(seconds_of_day))
}

/// Writes the time that is left from `now` to `stops`, both in seconds since
/// the epoch.
pub fn format_countdown(now: i64, stops: i64) -> (text: String)
    requires
        MIN_SECS <= now <= MAX_SECS,
        MIN_SECS <= stops <= MAX_SECS,
    ensures
        text@ == countdown_text(stops - now),
{
    let seconds: i64 = stops - now;
    let mut chars: Vec<char> = Vec::new();
    push_two_digits(seconds / 60, &mut chars);
    chars.push(':');
    push_two_digits(seconds % 60, &mut chars);
    assert(chars@ =~= countdown_text(stops - now));
    string_from_chars(&chars)
}

/// Writes a time of day given in seconds past midnight, as hours and minutes.
pub fn format_clock(seconds_of_day: u32) -> (text: String)
    ensures
        text@ == clock_text(seconds_of_day as int),
{
    let mut chars: Vec<char> = Vec::new();
    push_two_digits((seconds_of_day / 3600) as i64, &mut chars);
    chars.push(':');
    push_two_digits((seconds_of_day / 60 % 60) as i64, &mut chars);
    assert(chars@ =~= clock_text(seconds_of_day as int));
    string_from_chars(&chars)
}

/// Writes the time that the wall clock of Paris shows at `now`, in seconds
/// since the epoch, as hours and minutes.
pub fn format_time(now: i64) -> (text: String)
    requires
        MIN_SECS <= now <= MAX_SECS,
    ensures
        text@ == clock_text(paris_seconds_of_day(now as int)),
{
    match UtcTime::new(now, 0) {
        Some(datetime) => format_clock(datetime.local_seconds_of_day()),
        None => String::new(),
    }
}

/// The refresh is asked for before anything is assigned: whatever the action
/// and the state of the controller, the steps start with the request for a
/// refresh and the pause that follows it, and every assignment and every
/// recomputation comes after them.
pub proof fn lemma_refresh_comes_first(c: Caches, a: ActionView, depth: nat)
    ensures
        run_action(c, a, depth).steps.len() >= 2,
        run_action(c, a, depth).steps[0] == StepView::SignalRefresh(a),
        run_action(c, a, depth).steps[1] == StepView::Pause(REFRESH_YIELD_MILLIS),
        forall|i: int|
            0 <= i < run_action(c, a, depth).steps.len() && !(#[trigger] run_action(
                c,
                a,
                depth,
            ).steps[i] is SignalRefresh) && !(run_action(c, a, depth).steps[i] is Pause) ==> i
                >= 2,
{
}

/// A sky computed for `t1` is used again at every `t2` less than a minute
/// away, and computed anew at every other: the tick at `t2` asks for the sky
/// exactly when the two instants lie a minute or more apart, and the controller
/// then remembers `t2` in place of `t1`.
pub proof fn lemma_sky_reused_within_a_minute(c: Caches, t1: UtcTime, t2: UtcTime)
    requires
        c.sky == Some(t1),
    ensures
        instants_within(t2, t1, SKY_VALIDITY_SECS as int) ==> !run_tick(c, t2).0.contains(
            StepView::RefreshSky(t2),
        ) && run_tick(c, t2).1.sky == Some(t1),
        !instants_within(t2, t1, SKY_VALIDITY_SECS as int) ==> run_tick(c, t2).0.contains(
            StepView::RefreshSky(t2),
        ) && run_tick(c, t2).1.sky == Some(t2),
        run_action(c, ActionView::UpdateTime(t2), 0).caches == run_tick(c, t2).1,
{
    let shown = seq![StepView::Update(UiUpdate::CurrentTime(t2.secs() as i64))];
    if instants_within(t2, t1, SKY_VALIDITY_SECS as int) {
        if moon_is_current(c.moon, t2) {
            assert(run_tick(c, t2).0 =~= shown);
        } else {
            assert(run_tick(c, t2).0 =~= shown.push(StepView::RefreshMoon(t2)));
        }
    } else {
        assert(run_tick(c, t2).0[1] == StepView::RefreshSky(t2));
    }
}

/// A moon computed for `t1` is used again at every `t2` whose whole seconds
/// lie less than an hour from those of `t1`, before or after, and computed anew
/// at every other: the controller then remembers `t2` in place of `t1`.
pub proof fn lemma_moon_reused_within_an_hour(c: Caches, t1: UtcTime, t2: UtcTime)
    requires
        c.moon == Some(t1),
    ensures
        -MOON_VALIDITY_SECS < t2.secs() - t1.secs() < MOON_VALIDITY_SECS ==> !run_tick(
            c,
            t2,
        ).0.contains(StepView::RefreshMoon(t2)) && run_tick(c, t2).1.moon == Some(t1),
        !(-MOON_VALIDITY_SECS < t2.secs() - t1.secs() < MOON_VALIDITY_SECS) ==> run_tick(
            c,
            t2,
        ).0.contains(StepView::RefreshMoon(t2)) && run_tick(c, t2).1.moon == Some(t2),
{
    let steps = run_tick(c, t2).0;
    if moon_is_current(c.moon, t2) {
        assert forall|i: int| 0 <= i < steps.len() implies steps[i] != StepView::RefreshMoon(
            t2,
        ) by {}
    } else {
        assert(steps[steps.len() - 1] == StepView::RefreshMoon(t2));
    }
}

/// After every tick the controller remembers a sky that is less than a minute
/// from the tick and a moon that is less than an hour from it, each of them
/// the one of this tick or the one remembered before: what the display shows
/// of either is never further than that from the time of the last tick.
pub proof fn lemma_tick_leaves_nothing_stale(c: Caches, now: UtcTime)
    ensures
        sky_is_current(run_tick(c, now).1.sky, now),
        moon_is_current(run_tick(c, now).1.moon, now),
        run_tick(c, now).1.sky == Some(now) || run_tick(c, now).1.sky == c.sky,
        run_tick(c, now).1.moon == Some(now) || run_tick(c, now).1.moon == c.moon,
{
}

/// A countdown of `duration` seconds from `start` ends exactly `duration`
/// seconds after `start`, and lasts `duration` seconds: these are the two
/// values that the action assigns.
pub proof fn lemma_countdown_deadline(c: Caches, start: UtcTime, duration: u8, depth: nat)
    requires
        start.valid(),
        start.secs() + duration <= MAX_SECS,
    ensures
        run_action(c, ActionView::StartCountDown(start, duration), depth).steps == seq![
            StepView::SignalRefresh(ActionView::StartCountDown(start, duration)),
            StepView::Pause(REFRESH_YIELD_MILLIS),
            StepView::Update(UiUpdate::Countdown((start.secs() + duration) as i64)),
            StepView::Update(UiUpdate::CountdownTotalDuration(duration)),
        ],
        run_action(c, ActionView::StartCountDown(start, duration), depth).result == Ok::<
            (),
            ControllerError,
        >(()),
{
    assert(run_action(c, ActionView::StartCountDown(start, duration), depth).steps =~= seq![
        StepView::SignalRefresh(ActionView::StartCountDown(start, duration)),
        StepView::Pause(REFRESH_YIELD_MILLIS),
        StepView::Update(UiUpdate::Countdown((start.secs() + duration) as i64)),
        StepView::Update(UiUpdate::CountdownTotalDuration(duration)),
    ]);
}

/// As many actions as the queue holds are all taken, in their order, and one
/// more is dropped: the queue is then as it was before that last attempt.
pub proof fn lemma_send_beyond_capacity_is_dropped(
    actions: Seq<ActionView>,
    extra: ActionView,
    capacity: int,
)
    requires
        actions.len() == capacity,
    ensures
        after_sends(Seq::empty(), actions, actions.len(), capacity) == actions,
        after_send(after_sends(Seq::empty(), actions, actions.len(), capacity), extra, capacity)
            == actions,
{
    lemma_sends_within_capacity(actions, actions.len(), capacity);
    assert(actions.subrange(0, actions.len() as int) =~= actions);
}

proof fn lemma_sends_within_capacity(actions: Seq<ActionView>, n: nat, capacity: int)
    requires
        n <= actions.len(),
        n <= capacity,
    ensures
        after_sends(Seq::empty(), actions, n, capacity) == actions.subrange(0, n as int),
    decreases n,
{
    if n == 0 {
        assert(actions.subrange(0, 0) =~= Seq::<ActionView>::empty());
    } else {
        lemma_sends_within_capacity(actions, (n - 1) as nat, capacity);
        assert(actions.subrange(0, n as int) =~= actions.subrange(0, n - 1).push(actions[n - 1]));
    }
}

} // verus!
