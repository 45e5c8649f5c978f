use vstd::prelude::*;

use crate::errors::Error;
use crate::uapi::v2::{gpio_line_event, LINE_EVENT_ID_FALLING_EDGE, LINE_EVENT_ID_RISING_EDGE};

verus! {

/// An event timestamp, in nanoseconds.
#[derive(Debug, Clone, Copy, PartialEq, Eq, Structural)]
pub struct Timestamp(pub u64);

/// The direction of the transition an event reports.
#[derive(Debug, Clone, Copy, PartialEq, Eq, Structural)]
pub enum EventKind {
    Rising,
    Falling,
}

/// One decoded edge event on an acquired line.
#[derive(Debug, Clone, Copy, PartialEq, Eq, Structural)]
pub struct LineEvent {
    pub timestamp: Timestamp,
    pub kind: EventKind,
    pub offset: u32,
    pub sequence: u32,
    pub line_sequence: u32,
}

impl LineEvent {
    /// Decode an event record; an identifier that names neither edge is
    /// malformed.
    pub fn from_v2(event: &gpio_line_event) -> (r: Result<LineEvent, Error>)
        ensures
            r is Ok <==> (event.id == LINE_EVENT_ID_RISING_EDGE || event.id
                == LINE_EVENT_ID_FALLING_EDGE),
            r is Ok ==> r->Ok_0 == (LineEvent {
                timestamp: Timestamp(event.timestamp_ns),
                kind: if event.id == LINE_EVENT_ID_RISING_EDGE {
                    EventKind::Rising
                } else {
                    EventKind::Falling
                },
                offset: event.offset,
                sequence: event.seqno,
                line_sequence: event.line_seqno,
            }),
            r is Err ==> r->Err_0 == Error::Malformed,
    {
        let kind = if event.id == LINE_EVENT_ID_RISING_EDGE {
            EventKind::Rising
        } else if event.id == LINE_EVENT_ID_FALLING_EDGE {
            EventKind::Falling
        } else {
            return Err(Error::Malformed);
        };
        Ok(
            LineEvent {
                timestamp: Timestamp(event.timestamp_ns),
                kind,
                offset: event.offset,
                sequence: event.seqno,
                line_sequence: event.line_seqno,
            },
        )
    }
}

} // verus!
