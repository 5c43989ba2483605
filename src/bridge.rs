//! What the invocation handlers and the event relay decide. Sending into and
//! receiving from the channels is left to the caller, which hands the
//! outcome of each receive back in.

use vstd::prelude::*;
use crate::codec::{hex_value, is_hex_u32, parse_hex, spec_parse_hex};
use crate::protocol::{ui_event_of, Command, Echo, Event, EventType, LineEnding, UiEvent, READ_WIDTH};

verus! {

/// Baud rate of the serial line unless another is configured.
pub const DEFAULT_BAUD_RATE: u32 = 115200;

/// The command that a write invocation with texts `addr` and `data` sends,
/// or `Err` when either text is not a valid `0x` literal.
pub open spec fn spec_write_command(addr: Seq<char>, data: Seq<char>) -> Result<Command, ()> {
    match (spec_parse_hex(addr), spec_parse_hex(data)) {
        (Ok(a), Ok(d)) => Ok(Command::Write { addr: a, data: d }),
        _ => Err(()),
    }
}

/// The command that a read invocation with text `addr` sends, or `Err` when
/// the text is not a valid `0x` literal.
pub open spec fn spec_read_command(addr: Seq<char>) -> Result<Command, ()> {
    match spec_parse_hex(addr) {
        Ok(a) => Ok(Command::Read { addr: a, nbytes: READ_WIDTH }),
        Err(_) => Err(()),
    }
}

/// Validates the texts of a write invocation and builds its command. On
/// `Err` nothing is to be sent.
pub fn write_command(addr: &str, data: &str) -> (r: Result<Command, ()>)
    ensures
        r == spec_write_command(addr@, data@),
{
    let addr = parse_hex(addr)?;
    let data = parse_hex(data)?;
    Ok(Command::Write { addr, data })
}

/// Validates the text of a read invocation and builds its command, which
/// always reads `READ_WIDTH` bytes. On `Err` nothing is to be sent.
pub fn read_command(addr: &str) -> (r: Result<Command, ()>)
    ensures
        r == spec_read_command(addr@),
        r is Ok ==> r->Ok_0 is Read && r->Ok_0->Read_nbytes == 4,
{
    let addr = parse_hex(addr)?;
    Ok(Command::Read { addr, nbytes: READ_WIDTH })
}

/// A write invocation with valid texts sends a write of exactly the parsed
/// address and data, and the driver's report of that write reaches the user
/// interface as a `Write` notification carrying the same two numbers.
pub proof fn lemma_write_reported(addr: Seq<char>, data: Seq<char>)
    requires
        is_hex_u32(addr),
        is_hex_u32(data),
    ensures
        ({
            let a = hex_value(addr.skip(2)) as u32;
            let d = hex_value(data.skip(2)) as u32;
            &&& spec_write_command(addr, data) == Ok::<Command, ()>(Command::Write { addr: a, data: d })
            &&& ui_event_of(Event::Write { addr: a, data: d }) == (UiEvent { typ: EventType::Write, addr: a, data: d })
        }),
{
}

/// What the event relay does next.
#[derive(Clone, Copy, Debug, PartialEq, Eq, Structural)]
pub enum RelayStep {
    /// Hand this notification to the user interface and wait for the next event.
    Publish(UiEvent),
    /// The event channel's sending end is closed: stop, without error.
    Stop,
}

/// Decides the relay's next step from the outcome of a receive on the event
/// channel: `None` when its sending end has closed.
pub fn relay_step(received: Option<Event>) -> (r: RelayStep)
    ensures
        r == (match received {
            Some(e) => RelayStep::Publish(ui_event_of(e)),
            None => RelayStep::Stop,
        }),
{
    match received {
        Some(e) => RelayStep::Publish(UiEvent::from(e)),
        None => RelayStep::Stop,
    }
}

/// How the driver is to be started. Without a serial port it is not started.
pub struct DriverConfig {
    pub serial_port: Option<String>,
    pub baud_rate: u32,
    pub echo: Echo,
    pub line_ending: LineEnding,
}

impl DriverConfig {
    /// Whether the driver service is to be started at all.
    pub fn starts_driver(&self) -> (r: bool)
        ensures
            r == self.serial_port is Some,
    {
        self.serial_port.is_some()
    }
}

impl Default for DriverConfig {
    fn default() -> (r: DriverConfig)
        ensures
            r.serial_port is None,
            r.baud_rate == DEFAULT_BAUD_RATE,
            r.echo == Echo::Remote,
            r.line_ending == LineEnding::CrLf,
    {
        DriverConfig {
            serial_port: None,
            baud_rate: DEFAULT_BAUD_RATE,
            echo: Echo::default(),
            line_ending: LineEnding::default(),
        }
    }
}

} // verus!
