use vstd::prelude::*;

use crate::errors::Error;
use crate::uapi::v2::{
    LINE_FLAG_ACTIVE_LOW, LINE_FLAG_BIAS_DISABLED, LINE_FLAG_BIAS_PULL_DOWN,
    LINE_FLAG_BIAS_PULL_UP, LINE_FLAG_EDGE_FALLING, LINE_FLAG_EDGE_RISING,
    LINE_FLAG_EVENT_CLOCK_HTE, LINE_FLAG_EVENT_CLOCK_REALTIME, LINE_FLAG_INPUT,
    LINE_FLAG_OPEN_DRAIN, LINE_FLAG_OPEN_SOURCE, LINE_FLAG_OUTPUT,
};

verus! {

/// The configured direction of a line.
#[derive(Debug, Clone, Copy, PartialEq, Eq, Structural)]
pub enum Direction {
    Input,
    Output,
}

/// Which electrical level counts as logically active.
#[derive(Debug, Clone, Copy, PartialEq, Eq, Structural)]
pub enum Active {
    High,
    Low,
}

/// Which voltage transitions raise an event.
#[derive(Debug, Clone, Copy, PartialEq, Eq, Structural)]
pub enum EdgeDetect {
    Rising,
    Falling,
    Both,
}

/// The drive semantics of an open output.
#[derive(Debug, Clone, Copy, PartialEq, Eq, Structural)]
pub enum Drive {
    OpenDrain,
    OpenSource,
}

/// The bias resistor configuration of a line.
#[derive(Debug, Clone, Copy, PartialEq, Eq, Structural)]
pub enum Bias {
    Disabled,
    PullUp,
    PullDown,
}

/// The clock the kernel stamps edge events with.
#[derive(Debug, Clone, Copy, PartialEq, Eq, Structural)]
#[non_exhaustive]
pub enum EventClock {
    Default,
    HardwareTimestampEngine,
    RealTime,
}

/// A debounce period, held in microseconds as the protocol carries it.
#[derive(Debug, Clone, Copy, PartialEq, Eq, Structural)]
pub struct Debounce {
    pub micros: u32,
}

pub const MICROS_PER_SEC: u64 = 1_000_000;

pub const NANOS_PER_MICRO: u32 = 1_000;

impl Debounce {
    /// The period's total microseconds.
    pub open spec fn spec_micros(&self) -> u32 {
        self.micros
    }

    /// Build a debounce period from a duration given as whole seconds and
    /// a nanosecond remainder; a duration whose microseconds do not fit
    /// the protocol's 32-bit field is rejected.
    pub fn new(secs: u64, nanos: u32) -> (r: Result<Self, Error>)
        requires
            nanos < 1_000_000_000,
        ensures
            r is Ok <==> secs * MICROS_PER_SEC + nanos / NANOS_PER_MICRO <= u32::MAX,
            r is Ok ==> r->Ok_0.spec_micros() == secs * MICROS_PER_SEC + nanos / NANOS_PER_MICRO,
            r is Err ==> r->Err_0 == Error::CapacityExceeded,
    {
        if secs > (u32::MAX as u64) / MICROS_PER_SEC {
            proof {
                assert(secs * MICROS_PER_SEC > u32::MAX) by (nonlinear_arith)
                    requires
                        secs > (u32::MAX as u64) / MICROS_PER_SEC,
                ;
            }
            return Err(Error::CapacityExceeded);
        }
        proof {
            assert(secs * MICROS_PER_SEC <= (u32::MAX as u64) / MICROS_PER_SEC * MICROS_PER_SEC)
                by (nonlinear_arith)
                requires
                    secs <= (u32::MAX as u64) / MICROS_PER_SEC,
            ;
        }
        let micros: u64 = secs * MICROS_PER_SEC + (nanos / NANOS_PER_MICRO) as u64;
        if micros > u32::MAX as u64 {
            Err(Error::CapacityExceeded)
        } else {
            Ok(Self { micros: micros as u32 })
        }
    }

    pub fn new_micros(micros: u32) -> (r: Self)
        ensures
            r.spec_micros() == micros,
    {
        Self { micros }
    }

    /// The period as whole seconds and a nanosecond remainder.
    pub fn as_duration(&self) -> (r: (u64, u32))
        ensures
            r.0 == self.spec_micros() as u64 / MICROS_PER_SEC,
            r.1 == (self.spec_micros() as u64 % MICROS_PER_SEC) * NANOS_PER_MICRO,
    {
        let micros = self.micros as u64;
        let secs = micros / MICROS_PER_SEC;
        let rem = micros % MICROS_PER_SEC;
        proof {
            assert(rem * NANOS_PER_MICRO < 1_000_000_000) by (nonlinear_arith)
                requires
                    rem < 1_000_000,
            ;
        }
        (secs, (rem as u32) * NANOS_PER_MICRO)
    }

    pub fn as_micros(&self) -> (r: u32)
        ensures
            r == self.spec_micros(),
    {
        self.micros
    }
}

/// The flag bit an active-polarity choice contributes.
pub open spec fn active_flag_bits(active: Option<Active>) -> u64 {
    match active {
        Some(Active::Low) => LINE_FLAG_ACTIVE_LOW,
        _ => 0u64,
    }
}

/// The flag bit a bias choice contributes; an unspecified bias lowers to
/// "disabled".
pub open spec fn bias_flag_bits(bias: Option<Bias>) -> u64 {
    match bias {
        Some(Bias::PullDown) => LINE_FLAG_BIAS_PULL_DOWN,
        Some(Bias::PullUp) => LINE_FLAG_BIAS_PULL_UP,
        _ => LINE_FLAG_BIAS_DISABLED,
    }
}

/// The flag bits an edge-detection choice contributes.
pub open spec fn edge_flag_bits(edge: Option<EdgeDetect>) -> u64 {
    match edge {
        Some(EdgeDetect::Both) => LINE_FLAG_EDGE_RISING | LINE_FLAG_EDGE_FALLING,
        Some(EdgeDetect::Rising) => LINE_FLAG_EDGE_RISING,
        Some(EdgeDetect::Falling) => LINE_FLAG_EDGE_FALLING,
        None => 0u64,
    }
}

/// The flag bit a clock-source choice contributes.  Edge detection is the
/// governing feature: with no edge detection configured the clock bits
/// are omitted even when a non-default clock was requested.
pub open spec fn clock_flag_bits(edge: Option<EdgeDetect>, clock: Option<EventClock>) -> u64 {
    if edge is Some {
        match clock {
            Some(EventClock::HardwareTimestampEngine) => LINE_FLAG_EVENT_CLOCK_HTE,
            Some(EventClock::RealTime) => LINE_FLAG_EVENT_CLOCK_REALTIME,
            _ => 0u64,
        }
    } else {
        0u64
    }
}

/// The flag bit a drive choice contributes.
pub open spec fn drive_flag_bits(drive: Option<Drive>) -> u64 {
    match drive {
        Some(Drive::OpenDrain) => LINE_FLAG_OPEN_DRAIN,
        Some(Drive::OpenSource) => LINE_FLAG_OPEN_SOURCE,
        None => 0u64,
    }
}

/// The flag bitfield of an input configuration.
pub open spec fn input_flags(
    active: Option<Active>,
    bias: Option<Bias>,
    edge: Option<EdgeDetect>,
    clock: Option<EventClock>,
) -> u64 {
    LINE_FLAG_INPUT | active_flag_bits(active) | bias_flag_bits(bias) | edge_flag_bits(edge)
        | clock_flag_bits(edge, clock)
}

/// The flag bitfield of a plain driven output: direction and polarity
/// only.
pub open spec fn driven_output_flags(active: Option<Active>) -> u64 {
    LINE_FLAG_OUTPUT | active_flag_bits(active)
}

/// The flag bitfield of an open-drain or open-source output.
pub open spec fn open_output_flags(
    active: Option<Active>,
    bias: Option<Bias>,
    edge: Option<EdgeDetect>,
    drive: Option<Drive>,
    clock: Option<EventClock>,
) -> u64 {
    LINE_FLAG_OUTPUT | active_flag_bits(active) | bias_flag_bits(bias) | edge_flag_bits(edge)
        | drive_flag_bits(drive) | clock_flag_bits(edge, clock)
}

/// Anything that lowers to the protocol's flag bitfield.
pub trait AsLineOptions: Sized {
    /// The bitfield this configuration lowers to.
    spec fn spec_flags(self) -> u64;

    fn build_v2(self) -> (r: u64)
        ensures
            r == self.spec_flags(),
    ;
}

impl AsLineOptions for () {
    open spec fn spec_flags(self) -> u64 {
        0u64
    }

    fn build_v2(self) -> (r: u64) {
        0
    }
}

/// A finished line configuration, tagged by direction; the runtime
/// counterpart of the typed builder's three terminal states.
#[derive(Debug, Clone, Copy, PartialEq, Eq, Structural)]
pub enum LineOptions {
    Input { bias: Bias, active: Active, edge: Option<EdgeDetect>, clock: EventClock },
    DrivenOutput { active: Active },
    OpenOutput {
        drive: Drive,
        bias: Bias,
        active: Active,
        edge: Option<EdgeDetect>,
        clock: EventClock,
    },
}

impl LineOptions {
    /// Start a typed, capability-gated builder.
    pub fn build() -> (r: crate::line::option_builder::LineOptionBuilder<()>)
        ensures
            r.active is None,
            r.edge is None,
            r.bias is None,
            r.drive is None,
            r.clock is None,
    {
        crate::line::option_builder::LineOptionBuilder::new()
    }
}

impl AsLineOptions for LineOptions {
    open spec fn spec_flags(self) -> u64 {
        match self {
            LineOptions::Input { bias, active, edge, clock } => input_flags(
                Some(active),
                Some(bias),
                edge,
                Some(clock),
            ),
            LineOptions::DrivenOutput { active } => driven_output_flags(Some(active)),
            LineOptions::OpenOutput { drive, bias, active, edge, clock } => open_output_flags(
                Some(active),
                Some(bias),
                edge,
                Some(drive),
                Some(clock),
            ),
        }
    }

    fn build_v2(self) -> (r: u64) {
        match self {
            LineOptions::Input { bias, active, edge, clock } => {
                let b = crate::line::option_builder::LineOptionBuilder::new().input();
                let b = crate::line::option_builder::LineOptionBuilder {
                    active: Some(active),
                    edge,
                    bias: Some(bias),
                    clock: Some(clock),
                    ..b
                };
                b.build_v2()
            },
            LineOptions::DrivenOutput { active } => {
                let b = crate::line::option_builder::LineOptionBuilder::new().output();
                let b = crate::line::option_builder::LineOptionBuilder {
                    active: Some(active),
                    ..b
                };
                b.build_v2()
            },
            LineOptions::OpenOutput { drive, bias, active, edge, clock } => {
                let b = crate::line::option_builder::LineOptionBuilder::new().output().with_drive_open(
                    drive,
                );
                let b = crate::line::option_builder::LineOptionBuilder {
                    active: Some(active),
                    edge,
                    bias: Some(bias),
                    clock: Some(clock),
                    ..b
                };
                b.build_v2()
            },
        }
    }
}

} // verus!
