//! A typed, validating front-end over a command-recording stream.
//!
//! Callers build an immutable, validated "update buffer contents" command
//! (`command::CmdUpdateBuffer`) whose construction enforces the driver-level
//! preconditions (usage flag, 4-byte alignment of offset and size, 64 KiB
//! size ceiling), then inject it into a command-buffer builder
//! (`builder::CommandBufferBuilder`) through the generic injection protocol
//! (`builder::AddCommand`), receiving the builder back for further chaining.

pub mod buffer;
pub mod builder;
pub mod command;
