//! The values that travel through the bridge: commands for the driver,
//! events from it, and the notifications handed on to the user interface.

use vstd::prelude::*;

verus! {

/// Width in bytes of every read that the user interface asks for.
pub const READ_WIDTH: u32 = 4;

/// A request for the driver.
#[derive(Clone, Copy, Debug, PartialEq, Eq, Structural)]
pub enum Command {
    /// Store `data` at `addr`.
    Write { addr: u32, data: u32 },
    /// Fetch `nbytes` bytes starting at `addr`.
    Read { addr: u32, nbytes: u32 },
}

/// An outcome reported by the driver.
#[derive(Clone, Copy, Debug, PartialEq, Eq, Structural)]
pub enum Event {
    /// A write of `data` at `addr` completed.
    Write { addr: u32, data: u32 },
    /// `data` was read from `addr`.
    Read { addr: u32, data: u32 },
}

/// The category of a notification, matching the command that caused it.
#[derive(Clone, Copy, Debug, PartialEq, Eq, Structural)]
pub enum EventType {
    Write,
    Read,
}

/// An event as the user interface receives it: a tag and two numbers.
#[derive(Clone, Copy, Debug, PartialEq, Eq, Structural)]
pub struct UiEvent {
    pub typ: EventType,
    pub addr: u32,
    pub data: u32,
}

/// The notification that reports the driver event `e`.
pub open spec fn ui_event_of(e: Event) -> UiEvent {
    match e {
        Event::Write { addr, data } => UiEvent { typ: EventType::Write, addr, data },
        Event::Read { addr, data } => UiEvent { typ: EventType::Read, addr, data },
    }
}

impl From<Event> for UiEvent {
    fn from(e: Event) -> (r: UiEvent)
        ensures
            r == ui_event_of(e),
    {
        match e {
            Event::Write { addr, data } => UiEvent { typ: EventType::Write, addr, data },
            Event::Read { addr, data } => UiEvent { typ: EventType::Read, addr, data },
        }
    }
}

impl vstd::std_specs::convert::FromSpecImpl<Event> for UiEvent {
    open spec fn obeys_from_spec() -> bool {
        true
    }

    open spec fn from_spec(e: Event) -> UiEvent {
        ui_event_of(e)
    }
}

/// Who echoes the characters sent on the serial line.
#[derive(Clone, Copy, Debug, PartialEq, Eq, Structural)]
pub enum Echo {
    /// The bridge side echoes them itself.
    Local,
    /// The target device echoes them.
    Remote,
}

impl Default for Echo {
    fn default() -> (r: Echo)
        ensures
            r == Echo::Remote,
    {
        Echo::Remote
    }
}

/// The line terminator used on the serial line.
#[derive(Clone, Copy, Debug, PartialEq, Eq, Structural)]
pub enum LineEnding {
    Lf,
    CrLf,
}

impl Default for LineEnding {
    fn default() -> (r: LineEnding)
        ensures
            r == LineEnding::CrLf,
    {
        LineEnding::CrLf
    }
}

} // verus!
