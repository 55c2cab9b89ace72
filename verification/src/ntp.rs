//! The network time client: the clock that a time sample disciplines, the
//! timestamps that requests carry, and the turns of the client's loop.

use crate::time::{UtcTime, MAX_SECS};
use vstd::prelude::*;

verus! {

/// Name of the time server.
pub const NTP_SERVER: &'static str = "pool.ntp.org";

/// The number under which the time service answers.
pub const NTP_PORT: u16 = 123;

/// Milliseconds between two looks at the link, at the address, or at the name
/// service.
pub const POLL_INTERVAL_MILLIS: u64 = 500;

/// Milliseconds between two requests for the time: fifteen minutes.
pub const RESYNC_INTERVAL_MILLIS: u64 = 900_000;

/// The instant of a time sample: the server's seconds since the epoch, and its
/// binary fraction of a second turned into nanoseconds, rounded down.
pub open spec fn sample_nanos(sec_fraction: int) -> int {
    sec_fraction * 1_000_000_000 / 4_294_967_296
}

/// Converts a time sample into an instant.
pub fn sample_time(sec: u32, sec_fraction: u32) -> (t: UtcTime)
    ensures
        t.secs() == sec,
        t.subsec_nanos() == sample_nanos(sec_fraction as int),
{
    let nanos: u64 = (sec_fraction as u64) * 1_000_000_000 / 4_294_967_296;
    UtcTime::from_parts(sec as i64, nanos as u32)
}

/// The clock that time samples discipline, as the generator of the timestamps
/// that requests carry: the instant of the last sample, the reading that the
/// monotonic clock had then, and the instant captured for the request at hand.
#[derive(Clone, Copy, Debug)]
pub struct Timestamp {
    duration: u64,
    offset: UtcTime,
    baseline: u64,
}

/// Microseconds since the epoch on a clock that showed `offset` when the
/// monotonic clock read `baseline` milliseconds, now that it reads
/// `uptime_millis`.
pub open spec fn disciplined_micros(offset: UtcTime, baseline: int, uptime_millis: int) -> int {
    offset.secs() * 1_000_000 + offset.subsec_nanos() / 1000 + (uptime_millis - baseline) * 1000
}

/// Whether that clock can be read at `uptime_millis`: the monotonic clock has
/// not gone back, and the instant is neither before the epoch nor past the
/// last representable second.
pub open spec fn can_capture(offset: UtcTime, baseline: int, uptime_millis: int) -> bool {
    &&& baseline <= uptime_millis
    &&& 0 <= disciplined_micros(offset, baseline, uptime_millis)
    &&& disciplined_micros(offset, baseline, uptime_millis) / 1_000_000 <= MAX_SECS
}

impl Timestamp {
    /// The instant captured for the request at hand, in microseconds since the
    /// epoch.
    pub closed spec fn duration(self) -> int {
        self.duration as int
    }

    /// The instant of the last sample.
    pub closed spec fn offset(self) -> UtcTime {
        self.offset
    }

    /// What the monotonic clock read at the last sample, in milliseconds.
    pub closed spec fn baseline(self) -> int {
        self.baseline as int
    }

    /// A generator on a clock that showed `offset` when the monotonic clock
    /// read `baseline` milliseconds. Nothing is captured yet.
    pub fn new(offset: UtcTime, baseline: u64) -> (g: Timestamp)
        ensures
            g.duration() == 0,
            g.offset() == offset,
            g.baseline() == baseline,
    {
        Timestamp { duration: 0, offset, baseline }
    }

    /// Tells whether the clock can be read at `uptime_millis`.
    pub fn can_init(&self, uptime_millis: u64) -> (ok: bool)
        ensures
            ok == can_capture(self.offset(), self.baseline(), uptime_millis as int),
    {
        if uptime_millis < self.baseline {
            return false;
        }
        let micros: i128 = self.micros_at(uptime_millis);
        0 <= micros && micros / 1_000_000 <= MAX_SECS as i128
    }

    fn micros_at(&self, uptime_millis: u64) -> (micros: i128)
        requires
            self.baseline() <= uptime_millis,
        ensures
            micros == disciplined_micros(self.offset(), self.baseline(), uptime_millis as int),
    {
        let secs: i64 = self.offset.timestamp();
        let nanos: u32 = self.offset.timestamp_subsec_nanos();
        (secs as i128) * 1_000_000 + (nanos / 1000) as i128 + ((uptime_millis
            - self.baseline) as i128) * 1000
    }

    /// Captures the instant that the clock shows now that the monotonic clock
    /// reads `uptime_millis`.
    pub fn init(&mut self, uptime_millis: u64)
        requires
            can_capture(old(self).offset(), old(self).baseline(), uptime_millis as int),
        ensures
            final(self).duration() == disciplined_micros(
                old(self).offset(),
                old(self).baseline(),
                uptime_millis as int,
            ),
            final(self).offset() == old(self).offset(),
            final(self).baseline() == old(self).baseline(),
    {
        let micros: i128 = self.micros_at(uptime_millis);
        self.duration = micros as u64;
    }

    /// Whole seconds of the captured instant.
    pub fn timestamp_sec(&self) -> (sec: u64)
        ensures
            sec == self.duration() / 1_000_000,
    {
        self.duration / 1_000_000
    }

    /// Microseconds of the captured instant past its whole second.
    pub fn timestamp_subsec_micros(&self) -> (micros: u32)
        ensures
            micros == self.duration() % 1_000_000,
    {
        (self.duration - (self.duration / 1_000_000) * 1_000_000) as u32
    }
}

/// Where the client stands in its loop.
#[derive(Clone, Copy, Debug, PartialEq, Eq, Structural)]
pub enum NtpPhase {
    /// Waiting for the link to come up.
    WaitLink,
    /// Waiting for the network to be configured.
    WaitConfig,
    /// Waiting for an address.
    WaitAddress,
    /// Looking up the time server.
    Resolve,
    /// Asking for the time, again and again.
    Sync,
}

/// What the caller reports to the client.
#[derive(Clone, Copy, Debug, PartialEq, Eq, Structural)]
pub enum NtpEvent {
    /// The loop starts.
    Started,
    /// Whether the link is up.
    LinkStatus(bool),
    /// The network is configured.
    ConfigUp,
    /// Whether the device has an address.
    Address(bool),
    /// Whether the name service gave an address of the time server.
    Resolved(bool),
    /// A time sample, and what the monotonic clock read when it arrived, in
    /// milliseconds.
    Sample { sec: u32, sec_fraction: u32, uptime_millis: u64 },
    /// The request for the time failed.
    SampleFailed,
}

/// What the client has the caller do next. Each number is the time to wait
/// first, in milliseconds.
#[derive(Clone, Copy, Debug, PartialEq, Eq, Structural)]
pub enum NtpCommand {
    /// Look whether the link is up, and report it.
    PollLink(u64),
    /// Wait until the network is configured, and report it.
    AwaitConfig,
    /// Look whether the device has an address, and report it.
    PollAddress(u64),
    /// Look up the time server, and report whether an address came back.
    Resolve(u64),
    /// Ask the time server for the time, and report the sample or the failure.
    RequestTime(u64),
}

/// The client as a mathematical value: where it stands, the clock that the
/// last sample set, and the first sample with the reading of the monotonic
/// clock at its arrival.
pub struct NtpView {
    pub phase: NtpPhase,
    pub offset: UtcTime,
    pub baseline: int,
    pub first: Option<(UtcTime, int)>,
}

/// The client and its command after an event. The client waits for the link,
/// for the configuration and for an address, looking again after the polling
/// interval; it looks up the server, again after the polling interval where
/// that fails; then it asks for the time, at once the first time and after the
/// resync interval from then on, whether the request succeeded or not. A
/// sample sets the clock; the first one is remembered. An event that the phase
/// does not wait for changes nothing and has the phase's request made again.
pub open spec fn ntp_next(s: NtpView, event: NtpEvent) -> (NtpView, NtpCommand) {
    match s.phase {
        NtpPhase::WaitLink => match event {
            NtpEvent::Started => (s, NtpCommand::PollLink(0)),
            NtpEvent::LinkStatus(true) => (
                NtpView { phase: NtpPhase::WaitConfig, ..s },
                NtpCommand::AwaitConfig,
            ),
            _ => (s, NtpCommand::PollLink(POLL_INTERVAL_MILLIS)),
        },
        NtpPhase::WaitConfig => match event {
            NtpEvent::ConfigUp => (
                NtpView { phase: NtpPhase::WaitAddress, ..s },
                NtpCommand::PollAddress(0),
            ),
            _ => (s, NtpCommand::AwaitConfig),
        },
        NtpPhase::WaitAddress => match event {
            NtpEvent::Address(true) => (
                NtpView { phase: NtpPhase::Resolve, ..s },
                NtpCommand::Resolve(0),
            ),
            _ => (s, NtpCommand::PollAddress(POLL_INTERVAL_MILLIS)),
        },
        NtpPhase::Resolve => match event {
            NtpEvent::Resolved(true) => (
                NtpView { phase: NtpPhase::Sync, ..s },
                NtpCommand::RequestTime(0),
            ),
            _ => (s, NtpCommand::Resolve(POLL_INTERVAL_MILLIS)),
        },
        NtpPhase::Sync => match event {
            NtpEvent::Sample { sec, sec_fraction, uptime_millis } => (
                NtpView {
                    phase: NtpPhase::Sync,
                    offset: sample_instant(sec, sec_fraction),
                    baseline: uptime_millis as int,
                    first: if s.first is None {
                        Some((sample_instant(sec, sec_fraction), uptime_millis as int))
                    } else {
                        s.first
                    },
                },
                NtpCommand::RequestTime(RESYNC_INTERVAL_MILLIS),
            ),
            _ => (s, NtpCommand::RequestTime(RESYNC_INTERVAL_MILLIS)),
        },
    }
}

/// The instant of a time sample.
pub closed spec fn sample_instant(sec: u32, sec_fraction: u32) -> UtcTime {
    UtcTime::spec_from_parts(sec as int, sample_nanos(sec_fraction as int))
}

/// The instant of a time sample has the sample's seconds and the nanoseconds
/// of its fraction.
pub proof fn lemma_sample_instant(sec: u32, sec_fraction: u32)
    ensures
        sample_instant(sec, sec_fraction).secs() == sec,
        sample_instant(sec, sec_fraction).subsec_nanos() == sample_nanos(sec_fraction as int),
        sample_instant(sec, sec_fraction).valid(),
        0 <= sample_nanos(sec_fraction as int) < 1_000_000_000,
{
    UtcTime::lemma_spec_from_parts(sec as int, sample_nanos(sec_fraction as int));
}

/// The network time client.
pub struct NtpClient {
    phase: NtpPhase,
    context: Timestamp,
    first: Option<(UtcTime, u64)>,
}

impl View for NtpClient {
    type V = NtpView;

    closed spec fn view(&self) -> NtpView {
        NtpView {
            phase: self.phase,
            offset: self.context.offset(),
            baseline: self.context.baseline(),
            first: match self.first {
                Some((t, u)) => Some((t, u as int)),
                None => None,
            },
        }
    }
}

impl NtpClient {
    /// A client that waits for the link. Its clock shows the epoch at the
    /// start of the monotonic clock.
    pub fn new() -> (client: NtpClient)
        ensures
            client@.phase == NtpPhase::WaitLink,
            client@.offset.secs() == 0,
            client@.offset.subsec_nanos() == 0,
            client@.baseline == 0,
            client@.first is None,
    {
        NtpClient {
            phase: NtpPhase::WaitLink,
            context: Timestamp::new(UtcTime::epoch(), 0),
            first: None,
        }
    }

    /// Where the client stands in its loop.
    pub fn phase(&self) -> (phase: NtpPhase)
        ensures
            phase == self@.phase,
    {
        self.phase
    }

    /// One turn of the client's loop: takes what the caller reports and tells
    /// what to do next.
    pub fn run(&mut self, event: NtpEvent) -> (command: NtpCommand)
        ensures
            (final(self)@, command) == ntp_next(old(self)@, event),
    {
        match self.phase {
            NtpPhase::WaitLink => match event {
                NtpEvent::Started => NtpCommand::PollLink(0),
                NtpEvent::LinkStatus(true) => {
                    self.phase = NtpPhase::WaitConfig;
                    NtpCommand::AwaitConfig
                },
                _ => NtpCommand::PollLink(POLL_INTERVAL_MILLIS),
            },
            NtpPhase::WaitConfig => match event {
                NtpEvent::ConfigUp => {
                    self.phase = NtpPhase::WaitAddress;
                    NtpCommand::PollAddress(0)
                },
                _ => NtpCommand::AwaitConfig,
            },
            NtpPhase::WaitAddress => match event {
                NtpEvent::Address(true) => {
                    self.phase = NtpPhase::Resolve;
                    NtpCommand::Resolve(0)
                },
                _ => NtpCommand::PollAddress(POLL_INTERVAL_MILLIS),
            },
            NtpPhase::Resolve => match event {
                NtpEvent::Resolved(true) => {
                    self.phase = NtpPhase::Sync;
                    NtpCommand::RequestTime(0)
                },
                _ => NtpCommand::Resolve(POLL_INTERVAL_MILLIS),
            },
            NtpPhase::Sync => match event {
                NtpEvent::Sample { sec, sec_fraction, uptime_millis } => {
                    let datetime = sample_time(sec, sec_fraction);
                    proof {
                        lemma_sample_instant(sec, sec_fraction);
                        UtcTime::lemma_same_parts(datetime, sample_instant(sec, sec_fraction));
                    }
                    self.context = Timestamp::new(datetime, uptime_millis);
                    if self.first.is_none() {
                        self.first = Some((datetime, uptime_millis));
                    }
                    NtpCommand::RequestTime(RESYNC_INTERVAL_MILLIS)
                },
                _ => NtpCommand::RequestTime(RESYNC_INTERVAL_MILLIS),
            },
        }
    }

    /// The generator of timestamps for the next request: the clock as the
    /// last sample set it, with nothing captured yet.
    pub fn timestamp_generator(&self) -> (g: Timestamp)
        ensures
            g.offset() == self@.offset,
            g.baseline() == self@.baseline,
            g.duration() == 0,
    {
        Timestamp::new(self.context.offset, self.context.baseline)
    }

    /// Tells whether the disciplined clock can be read at `uptime_millis`.
    pub fn can_get_date_time(&self, uptime_millis: u64) -> (ok: bool)
        ensures
            ok == can_capture(self@.offset, self@.baseline, uptime_millis as int),
    {
        self.context.can_init(uptime_millis)
    }

    /// Reads the disciplined clock now that the monotonic clock reads
    /// `uptime_millis`: the instant of the last sample and the time gone by
    /// since, to the microsecond.
    pub fn get_date_time(&self, uptime_millis: u64) -> (t: UtcTime)
        requires
            can_capture(self@.offset, self@.baseline, uptime_millis as int),
        ensures
            t.secs() == disciplined_micros(self@.offset, self@.baseline, uptime_millis as int)
                / 1_000_000,
            t.subsec_nanos() == (disciplined_micros(
                self@.offset,
                self@.baseline,
                uptime_millis as int,
            ) % 1_000_000) * 1000,
    {
        let mut context = self.context;
        context.init(uptime_millis);
        let sec: u64 = context.timestamp_sec();
        let micros: u32 = context.timestamp_subsec_micros();
        UtcTime::from_parts(sec as i64, micros * 1000)
    }

    /// Time from the first sample to the last on the network clock, in
    /// nanoseconds; `None` before the first sample.
    pub fn elapsed_since_first_sample(&self) -> (r: Option<i128>)
        ensures
            r is Some <==> self@.first is Some,
            r matches Some(e) ==> self@.first matches Some(f) && e == self@.offset.total_nanos()
                - f.0.total_nanos(),
    {
        match self.first {
            Some((start, _)) => Some(self.context.offset.nanos_since(&start)),
            None => None,
        }
    }
}

} // verus!
