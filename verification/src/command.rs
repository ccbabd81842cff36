//! Commands: what the frontend tells the simulator.

use crate::competition::CompetitionMode;
use crate::controller::{ControllerUpdate, ControllerUpdateView, TouchEvent};
use crate::device::{AdiPort, Device, LinkMode, Port, SmartPort};
use crate::geometry::Point2D;
use crate::payload::{SerialData, SerialDataView};
use crate::text::{TextMetrics, V5Text, V5TextView};
use crate::wire::{
    as_unit, as_variant, get_i32, get_member, get_number, get_optional_text, get_texts, i32_at,
    member, member_found, no_members, number_at, object, optional_text, optional_text_at,
    optional_text_json, optional_text_wire, outcome_is, put, read_unit, read_variant, same_text,
    tagged, tagged_json, text_json, texts_at, texts_json, texts_round_trip, texts_wire, whole,
    whole_json, DecodeError, Json, JsonView, Number, OpenUnion,
};
use vstd::prelude::*;

verus! {

/// A message from the frontend to the simulator.
#[derive(Clone, Debug, PartialEq, Eq)]
#[allow(inconsistent_fields)]
pub enum Command {
    /// Opens the stream: the schema revision and the extensions of the frontend.
    Handshake { version: i32, extensions: Vec<String> },
    /// A finger on the screen.
    Touch { pos: Point2D, event: TouchEvent },
    /// The reports of the primary and the partner controller.
    ControllerUpdate(Option<ControllerUpdate>, Option<ControllerUpdate>),
    /// The directory that stands for the memory card, or none to go back to the default.
    USD { root: Option<String> },
    /// The other end of a radio link has appeared.
    VEXLinkOpened { port: SmartPort, mode: LinkMode },
    /// The other end of a radio link has gone.
    VEXLinkClosed { port: SmartPort },
    /// The competition switch has changed.
    CompetitionMode(CompetitionMode),
    /// Plugs a device into a port. A later configuration of the same port replaces this one.
    ConfigureDevice { port: Port, device: Device },
    /// The voltage on a three-wire port.
    AdiInput { port: AdiPort, voltage: Number },
    /// Starts the program. Valid once, after the simulator reported `Ready`.
    StartExecution,
    /// The capacity of the battery.
    SetBatteryCapacity { capacity: Number },
    /// The answer to a `TextMetricsRequest`.
    SetTextMetrics { text: V5Text, metrics: TextMetrics },
    /// Bytes for the program to read from the serial link.
    Serial(SerialData),
}

/// What a value of `Command` holds.
#[allow(inconsistent_fields)]
pub enum CommandView {
    Handshake { version: i32, extensions: Seq<Seq<char>> },
    Touch { pos: Point2D, event: TouchEvent },
    ControllerUpdate(Option<ControllerUpdateView>, Option<ControllerUpdateView>),
    USD { root: Option<Seq<char>> },
    VEXLinkOpened { port: SmartPort, mode: LinkMode },
    VEXLinkClosed { port: SmartPort },
    CompetitionMode(CompetitionMode),
    ConfigureDevice { port: Port, device: Device },
    AdiInput { port: AdiPort, voltage: Number },
    StartExecution,
    SetBatteryCapacity { capacity: Number },
    SetTextMetrics { text: V5TextView, metrics: TextMetrics },
    Serial(SerialDataView),
}

impl View for Command {
    type V = CommandView;

    open spec fn view(&self) -> CommandView {
        match self {
            Command::Handshake { version, extensions } =>
                CommandView::Handshake { version: *version, extensions: extensions.deep_view() },
            Command::Touch { pos, event } => CommandView::Touch { pos: *pos, event: *event },
            Command::ControllerUpdate(primary, partner) => CommandView::ControllerUpdate(
                ControllerUpdate::optional(*primary),
                ControllerUpdate::optional(*partner),
            ),
            Command::USD { root } => CommandView::USD { root: optional_text(*root) },
            Command::VEXLinkOpened { port, mode } =>
                CommandView::VEXLinkOpened { port: *port, mode: *mode },
            Command::VEXLinkClosed { port } => CommandView::VEXLinkClosed { port: *port },
            Command::CompetitionMode(inner) => CommandView::CompetitionMode(*inner),
            Command::ConfigureDevice { port, device } =>
                CommandView::ConfigureDevice { port: *port, device: *device },
            Command::AdiInput { port, voltage } =>
                CommandView::AdiInput { port: *port, voltage: *voltage },
            Command::StartExecution => CommandView::StartExecution,
            Command::SetBatteryCapacity { capacity } =>
                CommandView::SetBatteryCapacity { capacity: *capacity },
            Command::SetTextMetrics { text, metrics } =>
                CommandView::SetTextMetrics { text: text@, metrics: *metrics },
            Command::Serial(inner) => CommandView::Serial(inner@),
        }
    }
}

impl CommandView {
    /// The invariant of a value: what a reader checks before it hands the
    /// value out.
    pub open spec fn well_formed(self) -> bool {
        match self {
            CommandView::Serial(inner) => inner.well_formed(),
            _ => true,
        }
    }

    /// How a value is written: a variant without a body as its bare name,
    /// any other as an object with one member, named after the variant.
    pub open spec fn wire(self) -> JsonView {
        match self {
            CommandView::Handshake { version, extensions } => tagged(
                "Handshake"@,
                CommandView::handshake_wire(version, extensions),
            ),
            CommandView::Touch { pos, event } => tagged(
                "Touch"@,
                CommandView::touch_wire(pos, event),
            ),
            CommandView::ControllerUpdate(primary, partner) => tagged(
                "ControllerUpdate"@,
                ControllerUpdateView::pair_wire(primary, partner),
            ),
            CommandView::USD { root } => tagged(
                "USD"@,
                CommandView::usd_wire(root),
            ),
            CommandView::VEXLinkOpened { port, mode } => tagged(
                "VEXLinkOpened"@,
                CommandView::vex_link_opened_wire(port, mode),
            ),
            CommandView::VEXLinkClosed { port } => tagged(
                "VEXLinkClosed"@,
                CommandView::vex_link_closed_wire(port),
            ),
            CommandView::CompetitionMode(inner) => tagged("CompetitionMode"@, inner.wire()),
            CommandView::ConfigureDevice { port, device } => tagged(
                "ConfigureDevice"@,
                CommandView::configure_device_wire(port, device),
            ),
            CommandView::AdiInput { port, voltage } => tagged(
                "AdiInput"@,
                CommandView::adi_input_wire(port, voltage),
            ),
            CommandView::StartExecution => JsonView::Text("StartExecution"@),
            CommandView::SetBatteryCapacity { capacity } => tagged(
                "SetBatteryCapacity"@,
                CommandView::set_battery_capacity_wire(capacity),
            ),
            CommandView::SetTextMetrics { text, metrics } => tagged(
                "SetTextMetrics"@,
                CommandView::set_text_metrics_wire(text, metrics),
            ),
            CommandView::Serial(inner) => tagged("Serial"@, inner.wire()),
        }
    }

    /// The body of `Handshake`: one member for each field.
    pub open spec fn handshake_wire(version: i32, extensions: Seq<Seq<char>>) -> JsonView {
        JsonView::Object(
            no_members().push(("version"@, whole(version as int))).push(
                ("extensions"@, texts_wire(extensions)),
            ),
        )
    }

    /// What the body of `Handshake` spells: the fields are read in their order,
    /// and the first that cannot be read gives the error.
    pub open spec fn read_handshake(body: JsonView) -> Result<CommandView, DecodeError> {
        let version = i32_at(body, "version"@);
        let extensions = texts_at(body, "extensions"@);
        if version is Err {
            Err(version->Err_0)
        } else if extensions is Err {
            Err(extensions->Err_0)
        } else {
            Ok(CommandView::Handshake { version: version->Ok_0, extensions: extensions->Ok_0 })
        }
    }

    /// The body of `Touch`: one member for each field.
    pub open spec fn touch_wire(pos: Point2D, event: TouchEvent) -> JsonView {
        JsonView::Object(no_members().push(("pos"@, pos.wire())).push(("event"@, event.wire())))
    }

    /// What the body of `Touch` spells: the fields are read in their order,
    /// and the first that cannot be read gives the error.
    pub open spec fn read_touch(body: JsonView) -> Result<CommandView, DecodeError> {
        let pos = Point2D::at(body, "pos"@);
        let event = TouchEvent::at(body, "event"@);
        if pos is Err {
            Err(pos->Err_0)
        } else if event is Err {
            Err(event->Err_0)
        } else {
            Ok(CommandView::Touch { pos: pos->Ok_0, event: event->Ok_0 })
        }
    }

    /// The body of `USD`: one member for each field.
    pub open spec fn usd_wire(root: Option<Seq<char>>) -> JsonView {
        JsonView::Object(no_members().push(("root"@, optional_text_wire(root))))
    }

    /// What the body of `USD` spells: the fields are read in their order,
    /// and the first that cannot be read gives the error.
    pub open spec fn read_usd(body: JsonView) -> Result<CommandView, DecodeError> {
        let root = optional_text_at(body, "root"@);
        if root is Err {
            Err(root->Err_0)
        } else {
            Ok(CommandView::USD { root: root->Ok_0 })
        }
    }

    /// The body of `VEXLinkOpened`: one member for each field.
    pub open spec fn vex_link_opened_wire(port: SmartPort, mode: LinkMode) -> JsonView {
        JsonView::Object(no_members().push(("port"@, port.wire())).push(("mode"@, mode.wire())))
    }

    /// What the body of `VEXLinkOpened` spells: the fields are read in their order,
    /// and the first that cannot be read gives the error.
    pub open spec fn read_vex_link_opened(body: JsonView) -> Result<CommandView, DecodeError> {
        let port = SmartPort::at(body, "port"@);
        let mode = LinkMode::at(body, "mode"@);
        if port is Err {
            Err(port->Err_0)
        } else if mode is Err {
            Err(mode->Err_0)
        } else {
            Ok(CommandView::VEXLinkOpened { port: port->Ok_0, mode: mode->Ok_0 })
        }
    }

    /// The body of `VEXLinkClosed`: one member for each field.
    pub open spec fn vex_link_closed_wire(port: SmartPort) -> JsonView {
        JsonView::Object(no_members().push(("port"@, port.wire())))
    }

    /// What the body of `VEXLinkClosed` spells: the fields are read in their order,
    /// and the first that cannot be read gives the error.
    pub open spec fn read_vex_link_closed(body: JsonView) -> Result<CommandView, DecodeError> {
        let port = SmartPort::at(body, "port"@);
        if port is Err {
            Err(port->Err_0)
        } else {
            Ok(CommandView::VEXLinkClosed { port: port->Ok_0 })
        }
    }

    /// The body of `ConfigureDevice`: one member for each field.
    pub open spec fn configure_device_wire(port: Port, device: Device) -> JsonView {
        JsonView::Object(no_members().push(("port"@, port.wire())).push(("device"@, device.wire())))
    }

    /// What the body of `ConfigureDevice` spells: the fields are read in their order,
    /// and the first that cannot be read gives the error.
    pub open spec fn read_configure_device(body: JsonView) -> Result<CommandView, DecodeError> {
        let port = Port::at(body, "port"@);
        let device = Device::at(body, "device"@);
        if port is Err {
            Err(port->Err_0)
        } else if device is Err {
            Err(device->Err_0)
        } else {
            Ok(CommandView::ConfigureDevice { port: port->Ok_0, device: device->Ok_0 })
        }
    }

    /// The body of `AdiInput`: one member for each field.
    pub open spec fn adi_input_wire(port: AdiPort, voltage: Number) -> JsonView {
        JsonView::Object(
            no_members().push(("port"@, port.wire())).push(("voltage"@, JsonView::Number(voltage))),
        )
    }

    /// What the body of `AdiInput` spells: the fields are read in their order,
    /// and the first that cannot be read gives the error.
    pub open spec fn read_adi_input(body: JsonView) -> Result<CommandView, DecodeError> {
        let port = AdiPort::at(body, "port"@);
        let voltage = number_at(body, "voltage"@);
        if port is Err {
            Err(port->Err_0)
        } else if voltage is Err {
            Err(voltage->Err_0)
        } else {
            Ok(CommandView::AdiInput { port: port->Ok_0, voltage: voltage->Ok_0 })
        }
    }

    /// The body of `SetBatteryCapacity`: one member for each field.
    pub open spec fn set_battery_capacity_wire(capacity: Number) -> JsonView {
        JsonView::Object(no_members().push(("capacity"@, JsonView::Number(capacity))))
    }

    /// What the body of `SetBatteryCapacity` spells: the fields are read in their order,
    /// and the first that cannot be read gives the error.
    pub open spec fn read_set_battery_capacity(body: JsonView) -> Result<CommandView, DecodeError> {
        let capacity = number_at(body, "capacity"@);
        if capacity is Err {
            Err(capacity->Err_0)
        } else {
            Ok(CommandView::SetBatteryCapacity { capacity: capacity->Ok_0 })
        }
    }

    /// The body of `SetTextMetrics`: one member for each field.
    pub open spec fn set_text_metrics_wire(text: V5TextView, metrics: TextMetrics) -> JsonView {
        JsonView::Object(
            no_members().push(("text"@, text.wire())).push(("metrics"@, metrics.wire())),
        )
    }

    /// What the body of `SetTextMetrics` spells: the fields are read in their order,
    /// and the first that cannot be read gives the error.
    pub open spec fn read_set_text_metrics(body: JsonView) -> Result<CommandView, DecodeError> {
        let text = V5TextView::at(body, "text"@);
        let metrics = TextMetrics::at(body, "metrics"@);
        if text is Err {
            Err(text->Err_0)
        } else if metrics is Err {
            Err(metrics->Err_0)
        } else {
            Ok(CommandView::SetTextMetrics { text: text->Ok_0, metrics: metrics->Ok_0 })
        }
    }

    /// The value that a tree spells, or why it spells none.
    pub open spec fn read(tree: JsonView) -> Result<CommandView, DecodeError> {
        match read_variant(tree) {
            Err(e) => Err(e),
            Ok((name, body)) => if name == "Handshake"@ {
                CommandView::read_handshake(body)
            } else if name == "Touch"@ {
                CommandView::read_touch(body)
            } else if name == "ControllerUpdate"@ {
                match ControllerUpdateView::read_pair(body) {
                    Ok((primary, partner)) => Ok(CommandView::ControllerUpdate(primary, partner)),
                    Err(e) => Err(e),
                }
            } else if name == "USD"@ {
                CommandView::read_usd(body)
            } else if name == "VEXLinkOpened"@ {
                CommandView::read_vex_link_opened(body)
            } else if name == "VEXLinkClosed"@ {
                CommandView::read_vex_link_closed(body)
            } else if name == "CompetitionMode"@ {
                match CompetitionMode::read(body) {
                    Ok(inner) => Ok(CommandView::CompetitionMode(inner)),
                    Err(e) => Err(e),
                }
            } else if name == "ConfigureDevice"@ {
                CommandView::read_configure_device(body)
            } else if name == "AdiInput"@ {
                CommandView::read_adi_input(body)
            } else if name == "StartExecution"@ {
                match read_unit(body) {
                    Ok(_) => Ok(CommandView::StartExecution),
                    Err(e) => Err(e),
                }
            } else if name == "SetBatteryCapacity"@ {
                CommandView::read_set_battery_capacity(body)
            } else if name == "SetTextMetrics"@ {
                CommandView::read_set_text_metrics(body)
            } else if name == "Serial"@ {
                match SerialDataView::read(body) {
                    Ok(inner) => Ok(CommandView::Serial(inner)),
                    Err(e) => Err(e),
                }
            } else {
                Err(DecodeError::UnrecognizedVariant(OpenUnion::Command))
            },
        }
    }

    /// The value under the member `key` of an object.
    pub open spec fn at(tree: JsonView, key: Seq<char>) -> Result<CommandView, DecodeError> {
        match member(tree, key) {
            Ok(v) => CommandView::read(v),
            Err(e) => Err(e),
        }
    }

    /// The names of the variants differ in length or in a letter.
    proof fn tags_differ()
        ensures
            "Handshake"@.len() == 9,
            "Touch"@.len() == 5,
            "ControllerUpdate"@.len() == 16,
            "USD"@.len() == 3,
            "VEXLinkOpened"@.len() == 13 && "VEXLinkOpened"@[7] == 'O',
            "VEXLinkClosed"@.len() == 13 && "VEXLinkClosed"@[7] == 'C',
            "CompetitionMode"@.len() == 15 && "CompetitionMode"@[7] == 't',
            "ConfigureDevice"@.len() == 15 && "ConfigureDevice"@[7] == 'r',
            "AdiInput"@.len() == 8,
            "StartExecution"@.len() == 14 && "StartExecution"@[7] == 'e',
            "SetBatteryCapacity"@.len() == 18,
            "SetTextMetrics"@.len() == 14 && "SetTextMetrics"@[7] == 'M',
            "Serial"@.len() == 6,
    {
        reveal_strlit("Handshake");
        reveal_strlit("Touch");
        reveal_strlit("ControllerUpdate");
        reveal_strlit("USD");
        reveal_strlit("VEXLinkOpened");
        reveal_strlit("VEXLinkClosed");
        reveal_strlit("CompetitionMode");
        reveal_strlit("ConfigureDevice");
        reveal_strlit("AdiInput");
        reveal_strlit("StartExecution");
        reveal_strlit("SetBatteryCapacity");
        reveal_strlit("SetTextMetrics");
        reveal_strlit("Serial");
    }

    /// The members of `Handshake` have different names.
    proof fn handshake_names()
        ensures
            "version"@.len() == 7,
            "extensions"@.len() == 10,
    {
        reveal_strlit("version");
        reveal_strlit("extensions");
    }

    /// The body of `Handshake` reads back as the fields that it was written from.
    proof fn handshake_reads_back(version: i32, extensions: Seq<Seq<char>>)
        ensures
            CommandView::read_handshake(CommandView::handshake_wire(version, extensions))
                == Ok::<CommandView, DecodeError>(CommandView::Handshake { version, extensions }),
    {
        CommandView::handshake_names();
        let members = CommandView::handshake_wire(version, extensions)->Object_0;
        member_found(members, 0);
        member_found(members, 1);
        texts_round_trip(extensions);
    }

    /// The members of `Touch` have different names.
    proof fn touch_names()
        ensures
            "pos"@.len() == 3,
            "event"@.len() == 5,
    {
        reveal_strlit("pos");
        reveal_strlit("event");
    }

    /// The body of `Touch` reads back as the fields that it was written from.
    proof fn touch_reads_back(pos: Point2D, event: TouchEvent)
        ensures
            CommandView::read_touch(CommandView::touch_wire(pos, event))
                == Ok::<CommandView, DecodeError>(CommandView::Touch { pos, event }),
    {
        CommandView::touch_names();
        let members = CommandView::touch_wire(pos, event)->Object_0;
        member_found(members, 0);
        member_found(members, 1);
        pos.wire_round_trip();
        event.wire_round_trip();
    }

    /// The members of `USD` have different names.
    proof fn usd_names()
        ensures
            "root"@.len() == 4,
    {
        reveal_strlit("root");
    }

    /// The body of `USD` reads back as the fields that it was written from.
    proof fn usd_reads_back(root: Option<Seq<char>>)
        ensures
            CommandView::read_usd(CommandView::usd_wire(root)) == Ok::<CommandView, DecodeError>(
                CommandView::USD { root },
            ),
    {
        CommandView::usd_names();
        let members = CommandView::usd_wire(root)->Object_0;
        member_found(members, 0);
    }

    /// The members of `VEXLinkOpened` have different names.
    proof fn vex_link_opened_names()
        ensures
            "port"@.len() == 4 && "port"@[0] == 'p',
            "mode"@.len() == 4 && "mode"@[0] == 'm',
    {
        reveal_strlit("port");
        reveal_strlit("mode");
    }

    /// The body of `VEXLinkOpened` reads back as the fields that it was written from.
    proof fn vex_link_opened_reads_back(port: SmartPort, mode: LinkMode)
        ensures
            CommandView::read_vex_link_opened(CommandView::vex_link_opened_wire(port, mode))
                == Ok::<CommandView, DecodeError>(CommandView::VEXLinkOpened { port, mode }),
    {
        CommandView::vex_link_opened_names();
        let members = CommandView::vex_link_opened_wire(port, mode)->Object_0;
        member_found(members, 0);
        member_found(members, 1);
        port.wire_round_trip();
        mode.wire_round_trip();
    }

    /// The members of `VEXLinkClosed` have different names.
    proof fn vex_link_closed_names()
        ensures
            "port"@.len() == 4,
    {
        reveal_strlit("port");
    }

    /// The body of `VEXLinkClosed` reads back as the fields that it was written from.
    proof fn vex_link_closed_reads_back(port: SmartPort)
        ensures
            CommandView::read_vex_link_closed(CommandView::vex_link_closed_wire(port))
                == Ok::<CommandView, DecodeError>(CommandView::VEXLinkClosed { port }),
    {
        CommandView::vex_link_closed_names();
        let members = CommandView::vex_link_closed_wire(port)->Object_0;
        member_found(members, 0);
        port.wire_round_trip();
    }

    /// The members of `ConfigureDevice` have different names.
    proof fn configure_device_names()
        ensures
            "port"@.len() == 4,
            "device"@.len() == 6,
    {
        reveal_strlit("port");
        reveal_strlit("device");
    }

    /// The body of `ConfigureDevice` reads back as the fields that it was written from.
    proof fn configure_device_reads_back(port: Port, device: Device)
        ensures
            CommandView::read_configure_device(CommandView::configure_device_wire(port, device))
                == Ok::<CommandView, DecodeError>(CommandView::ConfigureDevice { port, device }),
    {
        CommandView::configure_device_names();
        let members = CommandView::configure_device_wire(port, device)->Object_0;
        member_found(members, 0);
        member_found(members, 1);
        port.wire_round_trip();
        device.wire_round_trip();
    }

    /// The members of `AdiInput` have different names.
    proof fn adi_input_names()
        ensures
            "port"@.len() == 4,
            "voltage"@.len() == 7,
    {
        reveal_strlit("port");
        reveal_strlit("voltage");
    }

    /// The body of `AdiInput` reads back as the fields that it was written from.
    proof fn adi_input_reads_back(port: AdiPort, voltage: Number)
        ensures
            CommandView::read_adi_input(CommandView::adi_input_wire(port, voltage))
                == Ok::<CommandView, DecodeError>(CommandView::AdiInput { port, voltage }),
    {
        CommandView::adi_input_names();
        let members = CommandView::adi_input_wire(port, voltage)->Object_0;
        member_found(members, 0);
        member_found(members, 1);
        port.wire_round_trip();
    }

    /// The members of `SetBatteryCapacity` have different names.
    proof fn set_battery_capacity_names()
        ensures
            "capacity"@.len() == 8,
    {
        reveal_strlit("capacity");
    }

    /// The body of `SetBatteryCapacity` reads back as the fields that it was written from.
    proof fn set_battery_capacity_reads_back(capacity: Number)
        ensures
            CommandView::read_set_battery_capacity(CommandView::set_battery_capacity_wire(capacity))
                == Ok::<CommandView, DecodeError>(CommandView::SetBatteryCapacity { capacity }),
    {
        CommandView::set_battery_capacity_names();
        let members = CommandView::set_battery_capacity_wire(capacity)->Object_0;
        member_found(members, 0);
    }

    /// The members of `SetTextMetrics` have different names.
    proof fn set_text_metrics_names()
        ensures
            "text"@.len() == 4,
            "metrics"@.len() == 7,
    {
        reveal_strlit("text");
        reveal_strlit("metrics");
    }

    /// The body of `SetTextMetrics` reads back as the fields that it was written from.
    proof fn set_text_metrics_reads_back(text: V5TextView, metrics: TextMetrics)
        ensures
            CommandView::read_set_text_metrics(CommandView::set_text_metrics_wire(text, metrics))
                == Ok::<CommandView, DecodeError>(CommandView::SetTextMetrics { text, metrics }),
    {
        CommandView::set_text_metrics_names();
        let members = CommandView::set_text_metrics_wire(text, metrics)->Object_0;
        member_found(members, 0);
        member_found(members, 1);
        text.wire_round_trip();
        metrics.wire_round_trip();
    }

    /// A value that is written and read again is the same value.
    pub proof fn wire_round_trip(self)
        requires
            self.well_formed(),
        ensures
            CommandView::read(self.wire()) == Ok::<CommandView, DecodeError>(self),
    {
        CommandView::tags_differ();
        match self {
            CommandView::Handshake { version, extensions } => {
            CommandView::handshake_reads_back(version, extensions);
            },
            CommandView::Touch { pos, event } => {
            CommandView::touch_reads_back(pos, event);
            },
            CommandView::ControllerUpdate(primary, partner) => {
                ControllerUpdateView::pair_round_trip(primary, partner);
            },
            CommandView::USD { root } => {
            CommandView::usd_reads_back(root);
            },
            CommandView::VEXLinkOpened { port, mode } => {
            CommandView::vex_link_opened_reads_back(port, mode);
            },
            CommandView::VEXLinkClosed { port } => {
            CommandView::vex_link_closed_reads_back(port);
            },
            CommandView::CompetitionMode(inner) => {
            inner.wire_round_trip();
            },
            CommandView::ConfigureDevice { port, device } => {
            CommandView::configure_device_reads_back(port, device);
            },
            CommandView::AdiInput { port, voltage } => {
            CommandView::adi_input_reads_back(port, voltage);
            },
            CommandView::StartExecution => {},
            CommandView::SetBatteryCapacity { capacity } => {
            CommandView::set_battery_capacity_reads_back(capacity);
            },
            CommandView::SetTextMetrics { text, metrics } => {
            CommandView::set_text_metrics_reads_back(text, metrics);
            },
            CommandView::Serial(inner) => {
            inner.wire_round_trip();
            },
        }
    }

    /// What is read is well-formed.
    pub proof fn read_is_well_formed(tree: JsonView)
        ensures
            CommandView::read(tree) is Ok ==> CommandView::read(tree)->Ok_0.well_formed(),
    {
    }
}

impl Command {
    /// Writes the value.
    pub fn to_json(&self) -> (tree: Json)
        ensures
            tree@ == self@.wire(),
    {
        match self {
            Command::Handshake { version, extensions } => {
            let mut members: Vec<(String, Json)> = Vec::new();
            put(&mut members, "version", whole_json(*version as i128));
            put(&mut members, "extensions", texts_json(extensions));
            tagged_json("Handshake", object(members))
            },
            Command::Touch { pos, event } => {
            let mut members: Vec<(String, Json)> = Vec::new();
            put(&mut members, "pos", pos.to_json());
            put(&mut members, "event", event.to_json());
            tagged_json("Touch", object(members))
            },
            Command::ControllerUpdate(primary, partner) => tagged_json(
                "ControllerUpdate",
                ControllerUpdate::pair_to_json(primary, partner),
            ),
            Command::USD { root } => {
            let mut members: Vec<(String, Json)> = Vec::new();
            put(&mut members, "root", optional_text_json(root));
            tagged_json("USD", object(members))
            },
            Command::VEXLinkOpened { port, mode } => {
            let mut members: Vec<(String, Json)> = Vec::new();
            put(&mut members, "port", port.to_json());
            put(&mut members, "mode", mode.to_json());
            tagged_json("VEXLinkOpened", object(members))
            },
            Command::VEXLinkClosed { port } => {
            let mut members: Vec<(String, Json)> = Vec::new();
            put(&mut members, "port", port.to_json());
            tagged_json("VEXLinkClosed", object(members))
            },
            Command::CompetitionMode(inner) => tagged_json("CompetitionMode", inner.to_json()),
            Command::ConfigureDevice { port, device } => {
            let mut members: Vec<(String, Json)> = Vec::new();
            put(&mut members, "port", port.to_json());
            put(&mut members, "device", device.to_json());
            tagged_json("ConfigureDevice", object(members))
            },
            Command::AdiInput { port, voltage } => {
            let mut members: Vec<(String, Json)> = Vec::new();
            put(&mut members, "port", port.to_json());
            put(&mut members, "voltage", Json::Number(*voltage));
            tagged_json("AdiInput", object(members))
            },
            Command::StartExecution => text_json("StartExecution"),
            Command::SetBatteryCapacity { capacity } => {
            let mut members: Vec<(String, Json)> = Vec::new();
            put(&mut members, "capacity", Json::Number(*capacity));
            tagged_json("SetBatteryCapacity", object(members))
            },
            Command::SetTextMetrics { text, metrics } => {
            let mut members: Vec<(String, Json)> = Vec::new();
            put(&mut members, "text", text.to_json());
            put(&mut members, "metrics", metrics.to_json());
            tagged_json("SetTextMetrics", object(members))
            },
            Command::Serial(inner) => tagged_json("Serial", inner.to_json()),
        }
    }

    /// Reads the body of `Handshake`.
    fn handshake_from_json(body: &Json) -> (outcome: Result<Command, DecodeError>)
        ensures
            outcome_is(outcome, CommandView::read_handshake(body@)),
    {
        let version = get_i32(body, "version")?;
        let extensions = get_texts(body, "extensions")?;
        Ok(Command::Handshake { version, extensions })
    }

    /// Reads the body of `Touch`.
    fn touch_from_json(body: &Json) -> (outcome: Result<Command, DecodeError>)
        ensures
            outcome_is(outcome, CommandView::read_touch(body@)),
    {
        let pos = Point2D::get(body, "pos")?;
        let event = TouchEvent::get(body, "event")?;
        Ok(Command::Touch { pos, event })
    }

    /// Reads the body of `USD`.
    fn usd_from_json(body: &Json) -> (outcome: Result<Command, DecodeError>)
        ensures
            outcome_is(outcome, CommandView::read_usd(body@)),
    {
        let root = get_optional_text(body, "root")?;
        Ok(Command::USD { root })
    }

    /// Reads the body of `VEXLinkOpened`.
    fn vex_link_opened_from_json(body: &Json) -> (outcome: Result<Command, DecodeError>)
        ensures
            outcome_is(outcome, CommandView::read_vex_link_opened(body@)),
    {
        let port = SmartPort::get(body, "port")?;
        let mode = LinkMode::get(body, "mode")?;
        Ok(Command::VEXLinkOpened { port, mode })
    }

    /// Reads the body of `VEXLinkClosed`.
    fn vex_link_closed_from_json(body: &Json) -> (outcome: Result<Command, DecodeError>)
        ensures
            outcome_is(outcome, CommandView::read_vex_link_closed(body@)),
    {
        let port = SmartPort::get(body, "port")?;
        Ok(Command::VEXLinkClosed { port })
    }

    /// Reads the body of `ConfigureDevice`.
    fn configure_device_from_json(body: &Json) -> (outcome: Result<Command, DecodeError>)
        ensures
            outcome_is(outcome, CommandView::read_configure_device(body@)),
    {
        let port = Port::get(body, "port")?;
        let device = Device::get(body, "device")?;
        Ok(Command::ConfigureDevice { port, device })
    }

    /// Reads the body of `AdiInput`.
    fn adi_input_from_json(body: &Json) -> (outcome: Result<Command, DecodeError>)
        ensures
            outcome_is(outcome, CommandView::read_adi_input(body@)),
    {
        let port = AdiPort::get(body, "port")?;
        let voltage = get_number(body, "voltage")?;
        Ok(Command::AdiInput { port, voltage })
    }

    /// Reads the body of `SetBatteryCapacity`.
    fn set_battery_capacity_from_json(body: &Json) -> (outcome: Result<Command, DecodeError>)
        ensures
            outcome_is(outcome, CommandView::read_set_battery_capacity(body@)),
    {
        let capacity = get_number(body, "capacity")?;
        Ok(Command::SetBatteryCapacity { capacity })
    }

    /// Reads the body of `SetTextMetrics`.
    fn set_text_metrics_from_json(body: &Json) -> (outcome: Result<Command, DecodeError>)
        ensures
            outcome_is(outcome, CommandView::read_set_text_metrics(body@)),
    {
        let text = V5Text::get(body, "text")?;
        let metrics = TextMetrics::get(body, "metrics")?;
        Ok(Command::SetTextMetrics { text, metrics })
    }

    /// Reads a value.
    pub fn from_json(tree: &Json) -> (outcome: Result<Command, DecodeError>)
        ensures
            outcome_is(outcome, CommandView::read(tree@)),
    {
        let (name, given) = as_variant(tree)?;
        let absent = Json::Null;
        let body: &Json = match given {
            Some(b) => b,
            None => &absent,
        };
        if same_text(name, "Handshake") {
            Command::handshake_from_json(body)
        } else if same_text(name, "Touch") {
            Command::touch_from_json(body)
        } else if same_text(name, "ControllerUpdate") {
            let (primary, partner) = ControllerUpdate::pair_from_json(body)?;
            Ok(Command::ControllerUpdate(primary, partner))
        } else if same_text(name, "USD") {
            Command::usd_from_json(body)
        } else if same_text(name, "VEXLinkOpened") {
            Command::vex_link_opened_from_json(body)
        } else if same_text(name, "VEXLinkClosed") {
            Command::vex_link_closed_from_json(body)
        } else if same_text(name, "CompetitionMode") {
            Ok(Command::CompetitionMode(CompetitionMode::from_json(body)?))
        } else if same_text(name, "ConfigureDevice") {
            Command::configure_device_from_json(body)
        } else if same_text(name, "AdiInput") {
            Command::adi_input_from_json(body)
        } else if same_text(name, "StartExecution") {
            as_unit(given)?;
            Ok(Command::StartExecution)
        } else if same_text(name, "SetBatteryCapacity") {
            Command::set_battery_capacity_from_json(body)
        } else if same_text(name, "SetTextMetrics") {
            Command::set_text_metrics_from_json(body)
        } else if same_text(name, "Serial") {
            Ok(Command::Serial(SerialData::from_json(body)?))
        } else {
            Err(DecodeError::UnrecognizedVariant(OpenUnion::Command))
        }
    }

    /// Reads the value under the member `key` of an object.
    pub fn get(tree: &Json, key: &str) -> (outcome: Result<Command, DecodeError>)
        ensures
            outcome_is(outcome, CommandView::at(tree@, key@)),
    {
        Command::from_json(get_member(tree, key)?)
    }
}

} // verus!
