use vstd::prelude::*;

use crate::line::options::{
    driven_output_flags, input_flags, open_output_flags, Active, AsLineOptions, Bias, Drive,
    EdgeDetect, EventClock,
};

verus! {

/// Marker for a builder committed to the input direction.
pub struct HasInput;

/// Marker for a builder committed to an open-drain or open-source output.
pub struct HasOpenOutput;

/// Marker for a builder committed to a plain driven output.
pub struct HasDrivenOutput;

/// Marker for a builder used for event subscription.
pub struct HasEvent;

/// A partial line configuration, tagged with the direction it has
/// committed to.  Each tag exposes only the setters meaningful for that
/// direction, so a nonsensical combination cannot be built.
pub struct LineOptionBuilder<Dir> {
    pub d: core::marker::PhantomData<Dir>,
    pub active: Option<Active>,
    pub edge: Option<EdgeDetect>,
    pub bias: Option<Bias>,
    pub drive: Option<Drive>,
    pub clock: Option<EventClock>,
}

impl<D> LineOptionBuilder<D> {
    /// Re-tag the builder, carrying every chosen option over.
    fn conv<O>(self) -> (r: LineOptionBuilder<O>)
        ensures
            r.active == self.active,
            r.edge == self.edge,
            r.bias == self.bias,
            r.drive == self.drive,
            r.clock == self.clock,
    {
        let Self { d: _, active, edge, bias, drive, clock } = self;
        LineOptionBuilder { d: core::marker::PhantomData, active, edge, bias, drive, clock }
    }
}

impl LineOptionBuilder<()> {
    /// A builder with no direction and no option chosen yet.
    pub fn new() -> (r: Self)
        ensures
            r.active is None,
            r.edge is None,
            r.bias is None,
            r.drive is None,
            r.clock is None,
    {
        Self {
            d: core::marker::PhantomData,
            active: None,
            edge: None,
            bias: None,
            drive: None,
            clock: None,
        }
    }

    /// Commit to the input direction.
    pub fn input(self) -> (r: LineOptionBuilder<HasInput>)
        ensures
            r.active == self.active,
            r.edge == self.edge,
            r.bias == self.bias,
            r.drive == self.drive,
            r.clock == self.clock,
    {
        self.conv()
    }

    /// Commit to a plain driven output.
    pub fn output(self) -> (r: LineOptionBuilder<HasDrivenOutput>)
        ensures
            r.active == self.active,
            r.edge == self.edge,
            r.bias == self.bias,
            r.drive == self.drive,
            r.clock == self.clock,
    {
        self.conv()
    }
}

impl LineOptionBuilder<HasInput> {
    pub fn with_active(self, active: Active) -> (r: Self)
        ensures
            r == (Self { active: Some(active), ..self }),
    {
        Self { active: Some(active), ..self }
    }

    pub fn with_bias(self, bias: Bias) -> (r: Self)
        ensures
            r == (Self { bias: Some(bias), ..self }),
    {
        Self { bias: Some(bias), ..self }
    }

    pub fn with_edge_detect(self, edge_detect: EdgeDetect) -> (r: Self)
        ensures
            r == (Self { edge: Some(edge_detect), ..self }),
    {
        Self { edge: Some(edge_detect), ..self }
    }

    pub fn with_clock_source(self, clock: EventClock) -> (r: Self)
        ensures
            r == (Self { clock: Some(clock), ..self }),
    {
        Self { clock: Some(clock), ..self }
    }

    /// Lower the finished input configuration into the flag bitfield.
    pub fn build_v2(self) -> (r: u64)
        ensures
            r == input_flags(self.active, self.bias, self.edge, self.clock),
    {
        let flags = crate::uapi::v2::LINE_FLAG_INPUT;
        let flags = flags | active_bits(self.active);
        let flags = flags | bias_bits(self.bias);
        let flags = flags | edge_bits(self.edge);
        let flags = flags | clock_bits(self.edge, self.clock);
        flags
    }
}

impl LineOptionBuilder<HasOpenOutput> {
    pub fn with_active(self, active: Active) -> (r: Self)
        ensures
            r == (Self { active: Some(active), ..self }),
    {
        Self { active: Some(active), ..self }
    }

    pub fn with_drive(self, drive: Drive) -> (r: Self)
        ensures
            r == (Self { drive: Some(drive), ..self }),
    {
        Self { drive: Some(drive), ..self }
    }

    pub fn with_bias(self, bias: Bias) -> (r: Self)
        ensures
            r == (Self { bias: Some(bias), ..self }),
    {
        Self { bias: Some(bias), ..self }
    }

    pub fn with_edge_detect(self, edge_detect: EdgeDetect) -> (r: Self)
        ensures
            r == (Self { edge: Some(edge_detect), ..self }),
    {
        Self { edge: Some(edge_detect), ..self }
    }

    pub fn with_clock_source(self, clock: EventClock) -> (r: Self)
        ensures
            r == (Self { clock: Some(clock), ..self }),
    {
        Self { clock: Some(clock), ..self }
    }

    /// Lower the finished open-output configuration into the flag
    /// bitfield.
    pub fn build_v2(self) -> (r: u64)
        ensures
            r == open_output_flags(self.active, self.bias, self.edge, self.drive, self.clock),
    {
        let flags = crate::uapi::v2::LINE_FLAG_OUTPUT;
        let flags = flags | active_bits(self.active);
        let flags = flags | bias_bits(self.bias);
        let flags = flags | edge_bits(self.edge);
        let flags = flags | drive_bits(self.drive);
        let flags = flags | clock_bits(self.edge, self.clock);
        flags
    }
}

impl LineOptionBuilder<HasDrivenOutput> {
    pub fn with_active(self, active: Active) -> (r: Self)
        ensures
            r == (Self { active: Some(active), ..self }),
    {
        Self { active: Some(active), ..self }
    }

    /// Select open drive semantics, unlocking the full output option set.
    pub fn with_drive_open(self, drive: Drive) -> (r: LineOptionBuilder<HasOpenOutput>)
        ensures
            r.active == self.active,
            r.edge == self.edge,
            r.bias == self.bias,
            r.drive == Some(drive),
            r.clock == self.clock,
    {
        Self { drive: Some(drive), ..self }.conv()
    }

    /// Lower the finished driven-output configuration: direction and
    /// polarity only.
    pub fn build_v2(self) -> (r: u64)
        ensures
            r == driven_output_flags(self.active),
    {
        let flags = crate::uapi::v2::LINE_FLAG_OUTPUT;
        flags | active_bits(self.active)
    }
}

fn active_bits(active: Option<Active>) -> (r: u64)
    ensures
        r == crate::line::options::active_flag_bits(active),
{
    match active {
        Some(Active::Low) => crate::uapi::v2::LINE_FLAG_ACTIVE_LOW,
        _ => 0,
    }
}

fn bias_bits(bias: Option<Bias>) -> (r: u64)
    ensures
        r == crate::line::options::bias_flag_bits(bias),
{
    match bias {
        Some(Bias::PullDown) => crate::uapi::v2::LINE_FLAG_BIAS_PULL_DOWN,
        Some(Bias::PullUp) => crate::uapi::v2::LINE_FLAG_BIAS_PULL_UP,
        _ => crate::uapi::v2::LINE_FLAG_BIAS_DISABLED,
    }
}

fn edge_bits(edge: Option<EdgeDetect>) -> (r: u64)
    ensures
        r == crate::line::options::edge_flag_bits(edge),
{
    match edge {
        Some(EdgeDetect::Both) => crate::uapi::v2::LINE_FLAG_EDGE_RISING
            | crate::uapi::v2::LINE_FLAG_EDGE_FALLING,
        Some(EdgeDetect::Rising) => crate::uapi::v2::LINE_FLAG_EDGE_RISING,
        Some(EdgeDetect::Falling) => crate::uapi::v2::LINE_FLAG_EDGE_FALLING,
        None => 0,
    }
}

fn drive_bits(drive: Option<Drive>) -> (r: u64)
    ensures
        r == crate::line::options::drive_flag_bits(drive),
{
    match drive {
        Some(Drive::OpenDrain) => crate::uapi::v2::LINE_FLAG_OPEN_DRAIN,
        Some(Drive::OpenSource) => crate::uapi::v2::LINE_FLAG_OPEN_SOURCE,
        None => 0,
    }
}

fn clock_bits(edge: Option<EdgeDetect>, clock: Option<EventClock>) -> (r: u64)
    ensures
        r == crate::line::options::clock_flag_bits(edge, clock),
{
    if edge.is_some() {
        match clock {
            Some(EventClock::HardwareTimestampEngine) => crate::uapi::v2::LINE_FLAG_EVENT_CLOCK_HTE,
            Some(EventClock::RealTime) => crate::uapi::v2::LINE_FLAG_EVENT_CLOCK_REALTIME,
            _ => 0,
        }
    } else {
        0
    }
}

impl AsLineOptions for LineOptionBuilder<HasInput> {
    open spec fn spec_flags(self) -> u64 {
        input_flags(self.active, self.bias, self.edge, self.clock)
    }

    fn build_v2(self) -> (r: u64) {
        Self::build_v2(self)
    }
}

impl AsLineOptions for LineOptionBuilder<HasDrivenOutput> {
    open spec fn spec_flags(self) -> u64 {
        driven_output_flags(self.active)
    }

    fn build_v2(self) -> (r: u64) {
        Self::build_v2(self)
    }
}

impl AsLineOptions for LineOptionBuilder<HasOpenOutput> {
    open spec fn spec_flags(self) -> u64 {
        open_output_flags(self.active, self.bias, self.edge, self.drive, self.clock)
    }

    fn build_v2(self) -> (r: u64) {
        Self::build_v2(self)
    }
}


} // verus!
