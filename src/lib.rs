//! Command/event bridge between a user interface and a serial DAP driver:
//! the wire-level protocol types, the parsing of textual addresses and data,
//! and the decisions of the invocation handlers and the event relay.

pub mod bridge;
pub mod codec;
pub mod protocol;

pub use bridge::{read_command, relay_step, write_command, DriverConfig, RelayStep, DEFAULT_BAUD_RATE};
pub use codec::parse_hex;
pub use protocol::{Command, Echo, Event, EventType, LineEnding, UiEvent, READ_WIDTH};
