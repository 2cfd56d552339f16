//! A library for constructing and encoding Standard MIDI Files (SMF),
//! together with the MIDI message model such files are built from.
//!
//! The library is encoder-primary: structured tracks of timestamped events
//! are emitted as byte-exact `MThd`/`MTrk` chunks, and the wire-level status
//! byte can be parsed back into a structured message.

pub mod channel;
pub mod chunktype;
pub mod domain;
pub mod error;
pub mod event;
pub mod header;
pub mod key;
pub mod message;
pub mod meta;
pub mod real_time;
pub mod smf;
pub mod system_common;
pub mod track;

pub use channel::Channel;
pub use chunktype::ChunkType;
pub use domain::Control;
pub use domain::Note;
pub use domain::Pressure;
pub use domain::Program;
pub use domain::Velocity;
pub use error::MidiError;
pub use error::MidiValueKind;
pub use event::MidiEvent;
pub use header::Header;
pub use header::MidiFormat;
pub use message::ChannelMessage;
pub use message::MidiMessage;
pub use message::Status;
pub use meta::MetaEvent;
pub use real_time::RealTimeMessage;
pub use smf::Smf;
pub use system_common::SystemCommonEvent;
pub use track::EventType;
pub use track::Track;
pub use track::TrackEvent;
pub use track::Vql;
