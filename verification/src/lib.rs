//! Message protocol between a robot-code simulator and its frontend.
//!
//! The two peers exchange one self-describing message per line of a byte
//! stream: events flow from the simulator to the frontend, commands flow the
//! other way. This crate holds the messages, the way they are written and
//! read, and the rules of a session, each with a proved contract.
//!
//! - `framing` cuts the byte stream into lines and joins lines into a stream.
//! - `wire` is the tree that a line spells, with the readers and writers that
//!   every message is built from.
//! - `event` and `command` are the two families of messages; `geometry`,
//!   `color`, `text`, `draw`, `device`, `controller`, `competition` and
//!   `payload` hold the values that they carry.
//! - `handshake` and `session` say how a session opens and what may pass in
//!   which order; `endpoint` holds a message that arrived against both.
//! - `screen` follows what drawing events do to the pixels.

pub mod color;
pub mod command;
pub mod competition;
pub mod controller;
pub mod device;
pub mod draw;
pub mod endpoint;
pub mod event;
pub mod framing;
pub mod geometry;
pub mod handshake;
pub mod payload;
pub mod screen;
pub mod session;
pub mod text;
pub mod wire;

pub use crate::color::Color;
pub use crate::command::Command;
pub use crate::competition::{CompMode, CompetitionMode};
pub use crate::controller::{ControllerState, ControllerUpdate, TouchEvent};
pub use crate::device::{
    AdiPort, Battery, Device, DeviceStatus, LinkMode, MotorBrakeMode, MotorGearset, Port, SmartPort,
};
pub use crate::draw::DrawCommand;
pub use crate::event::{Event, LogLevel, RobotState};
pub use crate::geometry::{Point2D, Rect, Shape};
pub use crate::payload::{SerialData, VCodeSig};
pub use crate::text::{
    ScrollLocation, TextLocation, TextMetrics, V5FontFamily, V5FontSize, V5Text,
};
