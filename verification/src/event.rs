//! Events: what the simulator tells the frontend.

use crate::color::Color;
use crate::device::{Battery, DeviceStatus, LinkMode, Port, SmartPort};
use crate::draw::{DrawCommand, DrawCommandView};
use crate::geometry::Rect;
use crate::payload::{SerialData, SerialDataView, VCodeSig, VCodeSigView};
use crate::text::{ScrollLocation, V5Text, V5TextView};
use crate::wire::{
    as_unit, as_variant, bool_at, get_bool, get_i32, get_member, get_number, get_text,
    get_texts, i32_at, member, member_found, no_members, number_at, object, outcome_is, put,
    read_unit, read_variant, same_text, tagged, tagged_json, text_at, text_json, texts_at,
    texts_json, texts_round_trip, texts_wire, whole, whole_json, DecodeError, Json, JsonView,
    Kind, Number, OpenUnion,
};
use vstd::prelude::*;

verus! {

/// How important a log message is.
#[derive(Clone, Copy, Debug, PartialEq, Eq, Structural, Hash, PartialOrd, Ord)]
pub enum LogLevel {
    Trace,
    Info,
    Warn,
    Error,
}

impl LogLevel {
    /// How a value is written: as the bare name of the variant.
    pub open spec fn wire(self) -> JsonView {
        match self {
            LogLevel::Trace => JsonView::Text("Trace"@),
            LogLevel::Info => JsonView::Text("Info"@),
            LogLevel::Warn => JsonView::Text("Warn"@),
            LogLevel::Error => JsonView::Text("Error"@),
        }
    }

    /// The value that a tree spells, or why it spells none.
    pub open spec fn read(tree: JsonView) -> Result<LogLevel, DecodeError> {
        match read_variant(tree) {
            Err(e) => Err(e),
            Ok((name, body)) => if name == "Trace"@ {
                match read_unit(body) {
                    Ok(_) => Ok(LogLevel::Trace),
                    Err(e) => Err(e),
                }
            } else if name == "Info"@ {
                match read_unit(body) {
                    Ok(_) => Ok(LogLevel::Info),
                    Err(e) => Err(e),
                }
            } else if name == "Warn"@ {
                match read_unit(body) {
                    Ok(_) => Ok(LogLevel::Warn),
                    Err(e) => Err(e),
                }
            } else if name == "Error"@ {
                match read_unit(body) {
                    Ok(_) => Ok(LogLevel::Error),
                    Err(e) => Err(e),
                }
            } else {
                Err(DecodeError::UnknownTag)
            },
        }
    }

    /// The value under the member `key` of an object.
    pub open spec fn at(tree: JsonView, key: Seq<char>) -> Result<LogLevel, DecodeError> {
        match member(tree, key) {
            Ok(v) => LogLevel::read(v),
            Err(e) => Err(e),
        }
    }

    /// The names of the variants differ in length or in a letter.
    proof fn tags_differ()
        ensures
            "Trace"@.len() == 5 && "Trace"@[0] == 'T',
            "Info"@.len() == 4 && "Info"@[0] == 'I',
            "Warn"@.len() == 4 && "Warn"@[0] == 'W',
            "Error"@.len() == 5 && "Error"@[0] == 'E',
    {
        reveal_strlit("Trace");
        reveal_strlit("Info");
        reveal_strlit("Warn");
        reveal_strlit("Error");
    }

    /// A value that is written and read again is the same value.
    pub proof fn wire_round_trip(self)
        ensures
            LogLevel::read(self.wire()) == Ok::<LogLevel, DecodeError>(self),
    {
        LogLevel::tags_differ();
        match self {
            LogLevel::Trace => {},
            LogLevel::Info => {},
            LogLevel::Warn => {},
            LogLevel::Error => {},
        }
    }

    /// Writes the value.
    pub fn to_json(&self) -> (tree: Json)
        ensures
            tree@ == self.wire(),
    {
        match self {
            LogLevel::Trace => text_json("Trace"),
            LogLevel::Info => text_json("Info"),
            LogLevel::Warn => text_json("Warn"),
            LogLevel::Error => text_json("Error"),
        }
    }

    /// Reads a value.
    pub fn from_json(tree: &Json) -> (outcome: Result<LogLevel, DecodeError>)
        ensures
            outcome == LogLevel::read(tree@),
    {
        let (name, given) = as_variant(tree)?;
        if same_text(name, "Trace") {
            as_unit(given)?;
            Ok(LogLevel::Trace)
        } else if same_text(name, "Info") {
            as_unit(given)?;
            Ok(LogLevel::Info)
        } else if same_text(name, "Warn") {
            as_unit(given)?;
            Ok(LogLevel::Warn)
        } else if same_text(name, "Error") {
            as_unit(given)?;
            Ok(LogLevel::Error)
        } else {
            Err(DecodeError::UnknownTag)
        }
    }

    /// Reads the value under the member `key` of an object.
    pub fn get(tree: &Json, key: &str) -> (outcome: Result<LogLevel, DecodeError>)
        ensures
            outcome == LogLevel::at(tree@, key@),
    {
        LogLevel::from_json(get_member(tree, key)?)
    }
}

/// The state of the robot as a whole. It holds nothing yet; later revisions
/// may give it fields.
#[derive(Clone, Copy, Debug, PartialEq, Eq, Structural, Hash, PartialOrd, Ord)]
#[non_exhaustive]
pub struct RobotState;

impl RobotState {
    /// How the state is written: as `null`.
    pub open spec fn wire(self) -> JsonView {
        JsonView::Null
    }

    /// The state that a tree spells, or why it spells none.
    pub open spec fn read(tree: JsonView) -> Result<RobotState, DecodeError> {
        match tree {
            JsonView::Null => Ok(RobotState),
            _ => Err(DecodeError::Expected(Kind::Null)),
        }
    }

    /// A state that is written and read again is the same state.
    pub proof fn wire_round_trip(self)
        ensures
            RobotState::read(self.wire()) == Ok::<RobotState, DecodeError>(self),
    {
    }

    /// Writes the state.
    pub fn to_json(&self) -> (tree: Json)
        ensures
            tree@ == self.wire(),
    {
        Json::Null
    }

    /// Reads a state.
    pub fn from_json(tree: &Json) -> (outcome: Result<RobotState, DecodeError>)
        ensures
            outcome == RobotState::read(tree@),
    {
        match tree {
            Json::Null => Ok(RobotState),
            _ => Err(DecodeError::Expected(Kind::Null)),
        }
    }
}

/// A message from the simulator to the frontend.
#[derive(Clone, Debug, PartialEq, Eq)]
#[allow(inconsistent_fields)]
pub enum Event {
    /// Opens the stream: the schema revision and the extensions of the simulator.
    Handshake { version: i32, extensions: Vec<String> },
    /// Draws to the screen. Only the pixels inside `clip_region` may change.
    ScreenDraw { command: DrawCommand, color: Color, clip_region: Rect },
    /// Scrolls a part of the screen. Only the pixels inside `clip_region` may change.
    ScreenScroll { location: ScrollLocation, lines: i32, background: Color, clip_region: Rect },
    /// Fills the screen with one color. Only the pixels inside `clip_region` may change.
    ScreenClear { color: Color, clip_region: Rect },
    /// Turns double buffering on or off.
    ScreenDoubleBufferMode { enable: bool },
    /// Presents the off-screen buffer.
    ScreenRender,
    /// The signature of the uploaded program.
    VCodeSig(VCodeSig),
    /// The simulator has finished its setup and accepts `StartExecution`.
    Ready,
    /// The last event of a session.
    Exited,
    /// Bytes that the program wrote to the serial link.
    Serial(SerialData),
    /// The state of a device has changed.
    DeviceUpdate { status: DeviceStatus, port: Port },
    /// The state of the battery has changed.
    Battery(Battery),
    /// The robot has moved.
    RobotPose { x: Number, y: Number },
    /// The state of the robot has changed.
    RobotState(RobotState),
    /// A message for the log of the frontend.
    Log { level: LogLevel, message: String },
    /// The program has opened a radio link.
    VEXLinkConnect { port: SmartPort, id: String, mode: LinkMode, override_: bool },
    /// The program has closed a radio link.
    VEXLinkDisconnect { port: SmartPort },
    /// Asks the frontend how large a text is when drawn.
    TextMetricsRequest { text: V5Text },
}

/// What a value of `Event` holds.
#[allow(inconsistent_fields)]
pub enum EventView {
    Handshake { version: i32, extensions: Seq<Seq<char>> },
    ScreenDraw { command: DrawCommandView, color: Color, clip_region: Rect },
    ScreenScroll { location: ScrollLocation, lines: i32, background: Color, clip_region: Rect },
    ScreenClear { color: Color, clip_region: Rect },
    ScreenDoubleBufferMode { enable: bool },
    ScreenRender,
    VCodeSig(VCodeSigView),
    Ready,
    Exited,
    Serial(SerialDataView),
    DeviceUpdate { status: DeviceStatus, port: Port },
    Battery(Battery),
    RobotPose { x: Number, y: Number },
    RobotState(RobotState),
    Log { level: LogLevel, message: Seq<char> },
    VEXLinkConnect { port: SmartPort, id: Seq<char>, mode: LinkMode, override_: bool },
    VEXLinkDisconnect { port: SmartPort },
    TextMetricsRequest { text: V5TextView },
}

impl View for Event {
    type V = EventView;

    open spec fn view(&self) -> EventView {
        match self {
            Event::Handshake { version, extensions } =>
                EventView::Handshake { version: *version, extensions: extensions.deep_view() },
            Event::ScreenDraw { command, color, clip_region } =>
                EventView::ScreenDraw {
                    command: command@,
                    color: *color,
                    clip_region: *clip_region,
                },
            Event::ScreenScroll { location, lines, background, clip_region } =>
                EventView::ScreenScroll {
                    location: *location,
                    lines: *lines,
                    background: *background,
                    clip_region: *clip_region,
                },
            Event::ScreenClear { color, clip_region } =>
                EventView::ScreenClear { color: *color, clip_region: *clip_region },
            Event::ScreenDoubleBufferMode { enable } =>
                EventView::ScreenDoubleBufferMode { enable: *enable },
            Event::ScreenRender => EventView::ScreenRender,
            Event::VCodeSig(inner) => EventView::VCodeSig(inner@),
            Event::Ready => EventView::Ready,
            Event::Exited => EventView::Exited,
            Event::Serial(inner) => EventView::Serial(inner@),
            Event::DeviceUpdate { status, port } =>
                EventView::DeviceUpdate { status: *status, port: *port },
            Event::Battery(inner) => EventView::Battery(*inner),
            Event::RobotPose { x, y } => EventView::RobotPose { x: *x, y: *y },
            Event::RobotState(inner) => EventView::RobotState(*inner),
            Event::Log { level, message } => EventView::Log { level: *level, message: message@ },
            Event::VEXLinkConnect { port, id, mode, override_ } =>
                EventView::VEXLinkConnect {
                    port: *port,
                    id: id@,
                    mode: *mode,
                    override_: *override_,
                },
            Event::VEXLinkDisconnect { port } => EventView::VEXLinkDisconnect { port: *port },
            Event::TextMetricsRequest { text } => EventView::TextMetricsRequest { text: text@ },
        }
    }
}

impl EventView {
    /// The invariant of a value: what a reader checks before it hands the
    /// value out.
    pub open spec fn well_formed(self) -> bool {
        match self {
            EventView::ScreenDraw { command, color, clip_region } => {
                &&& command.well_formed()
                &&& clip_region.well_formed()
            },
            EventView::ScreenScroll { location, lines, background, clip_region } => {
                &&& clip_region.well_formed()
            },
            EventView::ScreenClear { color, clip_region } => {
                &&& clip_region.well_formed()
            },
            EventView::VCodeSig(inner) => inner.well_formed(),
            EventView::Serial(inner) => inner.well_formed(),
            _ => true,
        }
    }

    /// How a value is written: a variant without a body as its bare name,
    /// any other as an object with one member, named after the variant.
    pub open spec fn wire(self) -> JsonView {
        match self {
            EventView::Handshake { version, extensions } => tagged(
                "Handshake"@,
                EventView::handshake_wire(version, extensions),
            ),
            EventView::ScreenDraw { command, color, clip_region } => tagged(
                "ScreenDraw"@,
                EventView::screen_draw_wire(command, color, clip_region),
            ),
            EventView::ScreenScroll { location, lines, background, clip_region } => tagged(
                "ScreenScroll"@,
                EventView::screen_scroll_wire(location, lines, background, clip_region),
            ),
            EventView::ScreenClear { color, clip_region } => tagged(
                "ScreenClear"@,
                EventView::screen_clear_wire(color, clip_region),
            ),
            EventView::ScreenDoubleBufferMode { enable } => tagged(
                "ScreenDoubleBufferMode"@,
                EventView::screen_double_buffer_mode_wire(enable),
            ),
            EventView::ScreenRender => JsonView::Text("ScreenRender"@),
            EventView::VCodeSig(inner) => tagged("VCodeSig"@, inner.wire()),
            EventView::Ready => JsonView::Text("Ready"@),
            EventView::Exited => JsonView::Text("Exited"@),
            EventView::Serial(inner) => tagged("Serial"@, inner.wire()),
            EventView::DeviceUpdate { status, port } => tagged(
                "DeviceUpdate"@,
                EventView::device_update_wire(status, port),
            ),
            EventView::Battery(inner) => tagged("Battery"@, inner.wire()),
            EventView::RobotPose { x, y } => tagged(
                "RobotPose"@,
                EventView::robot_pose_wire(x, y),
            ),
            EventView::RobotState(inner) => tagged("RobotState"@, inner.wire()),
            EventView::Log { level, message } => tagged(
                "Log"@,
                EventView::log_wire(level, message),
            ),
            EventView::VEXLinkConnect { port, id, mode, override_ } => tagged(
                "VEXLinkConnect"@,
                EventView::vex_link_connect_wire(port, id, mode, override_),
            ),
            EventView::VEXLinkDisconnect { port } => tagged(
                "VEXLinkDisconnect"@,
                EventView::vex_link_disconnect_wire(port),
            ),
            EventView::TextMetricsRequest { text } => tagged(
                "TextMetricsRequest"@,
                EventView::text_metrics_request_wire(text),
            ),
        }
    }

    /// The body of `Handshake`: one member for each field.
    pub open spec fn handshake_wire(version: i32, extensions: Seq<Seq<char>>) -> JsonView {
        JsonView::Object(
            no_members().push(("version"@, whole(version as int))).push(
                ("extensions"@, texts_wire(extensions)),
            ),
        )
    }

    /// What the body of `Handshake` spells: the fields are read in their order,
    /// and the first that cannot be read gives the error.
    pub open spec fn read_handshake(body: JsonView) -> Result<EventView, DecodeError> {
        let version = i32_at(body, "version"@);
        let extensions = texts_at(body, "extensions"@);
        if version is Err {
            Err(version->Err_0)
        } else if extensions is Err {
            Err(extensions->Err_0)
        } else {
            Ok(EventView::Handshake { version: version->Ok_0, extensions: extensions->Ok_0 })
        }
    }

    /// The body of `ScreenDraw`: one member for each field.
    pub open spec fn screen_draw_wire(
        command: DrawCommandView,
        color: Color,
        clip_region: Rect,
    ) -> JsonView {
        JsonView::Object(
            no_members().push(("command"@, command.wire())).push(("color"@, color.wire())).push(
                ("clip_region"@, clip_region.wire()),
            ),
        )
    }

    /// What the body of `ScreenDraw` spells: the fields are read in their order,
    /// and the first that cannot be read gives the error.
    pub open spec fn read_screen_draw(body: JsonView) -> Result<EventView, DecodeError> {
        let command = DrawCommandView::at(body, "command"@);
        let color = Color::at(body, "color"@);
        let clip_region = Rect::at(body, "clip_region"@);
        if command is Err {
            Err(command->Err_0)
        } else if color is Err {
            Err(color->Err_0)
        } else if clip_region is Err {
            Err(clip_region->Err_0)
        } else {
            Ok(
                EventView::ScreenDraw {
                    command: command->Ok_0,
                    color: color->Ok_0,
                    clip_region: clip_region->Ok_0,
                },
            )
        }
    }

    /// The body of `ScreenScroll`: one member for each field.
    pub open spec fn screen_scroll_wire(
        location: ScrollLocation,
        lines: i32,
        background: Color,
        clip_region: Rect,
    ) -> JsonView {
        JsonView::Object(
            no_members()
                .push(("location"@, location.wire()))
                .push(("lines"@, whole(lines as int)))
                .push(("background"@, background.wire()))
                .push(("clip_region"@, clip_region.wire())),
        )
    }

    /// What the body of `ScreenScroll` spells: the fields are read in their order,
    /// and the first that cannot be read gives the error.
    pub open spec fn read_screen_scroll(body: JsonView) -> Result<EventView, DecodeError> {
        let location = ScrollLocation::at(body, "location"@);
        let lines = i32_at(body, "lines"@);
        let background = Color::at(body, "background"@);
        let clip_region = Rect::at(body, "clip_region"@);
        if location is Err {
            Err(location->Err_0)
        } else if lines is Err {
            Err(lines->Err_0)
        } else if background is Err {
            Err(background->Err_0)
        } else if clip_region is Err {
            Err(clip_region->Err_0)
        } else {
            Ok(
                EventView::ScreenScroll {
                    location: location->Ok_0,
                    lines: lines->Ok_0,
                    background: background->Ok_0,
                    clip_region: clip_region->Ok_0,
                },
            )
        }
    }

    /// The body of `ScreenClear`: one member for each field.
    pub open spec fn screen_clear_wire(color: Color, clip_region: Rect) -> JsonView {
        JsonView::Object(
            no_members().push(("color"@, color.wire())).push(("clip_region"@, clip_region.wire())),
        )
    }

    /// What the body of `ScreenClear` spells: the fields are read in their order,
    /// and the first that cannot be read gives the error.
    pub open spec fn read_screen_clear(body: JsonView) -> Result<EventView, DecodeError> {
        let color = Color::at(body, "color"@);
        let clip_region = Rect::at(body, "clip_region"@);
        if color is Err {
            Err(color->Err_0)
        } else if clip_region is Err {
            Err(clip_region->Err_0)
        } else {
            Ok(EventView::ScreenClear { color: color->Ok_0, clip_region: clip_region->Ok_0 })
        }
    }

    /// The body of `ScreenDoubleBufferMode`: one member for each field.
    pub open spec fn screen_double_buffer_mode_wire(enable: bool) -> JsonView {
        JsonView::Object(no_members().push(("enable"@, JsonView::Bool(enable))))
    }

    /// What the body of `ScreenDoubleBufferMode` spells: the fields are read in their order,
    /// and the first that cannot be read gives the error.
    pub open spec fn read_screen_double_buffer_mode(
        body: JsonView,
    ) -> Result<EventView, DecodeError> {
        let enable = bool_at(body, "enable"@);
        if enable is Err {
            Err(enable->Err_0)
        } else {
            Ok(EventView::ScreenDoubleBufferMode { enable: enable->Ok_0 })
        }
    }

    /// The body of `DeviceUpdate`: one member for each field.
    pub open spec fn device_update_wire(status: DeviceStatus, port: Port) -> JsonView {
        JsonView::Object(no_members().push(("status"@, status.wire())).push(("port"@, port.wire())))
    }

    /// What the body of `DeviceUpdate` spells: the fields are read in their order,
    /// and the first that cannot be read gives the error.
    pub open spec fn read_device_update(body: JsonView) -> Result<EventView, DecodeError> {
        let status = DeviceStatus::at(body, "status"@);
        let port = Port::at(body, "port"@);
        if status is Err {
            Err(status->Err_0)
        } else if port is Err {
            Err(port->Err_0)
        } else {
            Ok(EventView::DeviceUpdate { status: status->Ok_0, port: port->Ok_0 })
        }
    }

    /// The body of `RobotPose`: one member for each field.
    pub open spec fn robot_pose_wire(x: Number, y: Number) -> JsonView {
        JsonView::Object(
            no_members().push(("x"@, JsonView::Number(x))).push(("y"@, JsonView::Number(y))),
        )
    }

    /// What the body of `RobotPose` spells: the fields are read in their order,
    /// and the first that cannot be read gives the error.
    pub open spec fn read_robot_pose(body: JsonView) -> Result<EventView, DecodeError> {
        let x = number_at(body, "x"@);
        let y = number_at(body, "y"@);
        if x is Err {
            Err(x->Err_0)
        } else if y is Err {
            Err(y->Err_0)
        } else {
            Ok(EventView::RobotPose { x: x->Ok_0, y: y->Ok_0 })
        }
    }

    /// The body of `Log`: one member for each field.
    pub open spec fn log_wire(level: LogLevel, message: Seq<char>) -> JsonView {
        JsonView::Object(
            no_members().push(("level"@, level.wire())).push(("message"@, JsonView::Text(message))),
        )
    }

    /// What the body of `Log` spells: the fields are read in their order,
    /// and the first that cannot be read gives the error.
    pub open spec fn read_log(body: JsonView) -> Result<EventView, DecodeError> {
        let level = LogLevel::at(body, "level"@);
        let message = text_at(body, "message"@);
        if level is Err {
            Err(level->Err_0)
        } else if message is Err {
            Err(message->Err_0)
        } else {
            Ok(EventView::Log { level: level->Ok_0, message: message->Ok_0 })
        }
    }

    /// The body of `VEXLinkConnect`: one member for each field.
    pub open spec fn vex_link_connect_wire(
        port: SmartPort,
        id: Seq<char>,
        mode: LinkMode,
        override_: bool,
    ) -> JsonView {
        JsonView::Object(
            no_members()
                .push(("port"@, port.wire()))
                .push(("id"@, JsonView::Text(id)))
                .push(("mode"@, mode.wire()))
                .push(("override"@, JsonView::Bool(override_))),
        )
    }

    /// What the body of `VEXLinkConnect` spells: the fields are read in their order,
    /// and the first that cannot be read gives the error.
    pub open spec fn read_vex_link_connect(body: JsonView) -> Result<EventView, DecodeError> {
        let port = SmartPort::at(body, "port"@);
        let id = text_at(body, "id"@);
        let mode = LinkMode::at(body, "mode"@);
        let override_ = bool_at(body, "override"@);
        if port is Err {
            Err(port->Err_0)
        } else if id is Err {
            Err(id->Err_0)
        } else if mode is Err {
            Err(mode->Err_0)
        } else if override_ is Err {
            Err(override_->Err_0)
        } else {
            Ok(
                EventView::VEXLinkConnect {
                    port: port->Ok_0,
                    id: id->Ok_0,
                    mode: mode->Ok_0,
                    override_: override_->Ok_0,
                },
            )
        }
    }

    /// The body of `VEXLinkDisconnect`: one member for each field.
    pub open spec fn vex_link_disconnect_wire(port: SmartPort) -> JsonView {
        JsonView::Object(no_members().push(("port"@, port.wire())))
    }

    /// What the body of `VEXLinkDisconnect` spells: the fields are read in their order,
    /// and the first that cannot be read gives the error.
    pub open spec fn read_vex_link_disconnect(body: JsonView) -> Result<EventView, DecodeError> {
        let port = SmartPort::at(body, "port"@);
        if port is Err {
            Err(port->Err_0)
        } else {
            Ok(EventView::VEXLinkDisconnect { port: port->Ok_0 })
        }
    }

    /// The body of `TextMetricsRequest`: one member for each field.
    pub open spec fn text_metrics_request_wire(text: V5TextView) -> JsonView {
        JsonView::Object(no_members().push(("text"@, text.wire())))
    }

    /// What the body of `TextMetricsRequest` spells: the fields are read in their order,
    /// and the first that cannot be read gives the error.
    pub open spec fn read_text_metrics_request(body: JsonView) -> Result<EventView, DecodeError> {
        let text = V5TextView::at(body, "text"@);
        if text is Err {
            Err(text->Err_0)
        } else {
            Ok(EventView::TextMetricsRequest { text: text->Ok_0 })
        }
    }

    /// The value that a tree spells, or why it spells none.
    pub open spec fn read(tree: JsonView) -> Result<EventView, DecodeError> {
        match read_variant(tree) {
            Err(e) => Err(e),
            Ok((name, body)) => if name == "Handshake"@ {
                EventView::read_handshake(body)
            } else if name == "ScreenDraw"@ {
                EventView::read_screen_draw(body)
            } else if name == "ScreenScroll"@ {
                EventView::read_screen_scroll(body)
            } else if name == "ScreenClear"@ {
                EventView::read_screen_clear(body)
            } else if name == "ScreenDoubleBufferMode"@ {
                EventView::read_screen_double_buffer_mode(body)
            } else if name == "ScreenRender"@ {
                match read_unit(body) {
                    Ok(_) => Ok(EventView::ScreenRender),
                    Err(e) => Err(e),
                }
            } else if name == "VCodeSig"@ {
                match VCodeSigView::read(body) {
                    Ok(inner) => Ok(EventView::VCodeSig(inner)),
                    Err(e) => Err(e),
                }
            } else if name == "Ready"@ {
                match read_unit(body) {
                    Ok(_) => Ok(EventView::Ready),
                    Err(e) => Err(e),
                }
            } else if name == "Exited"@ {
                match read_unit(body) {
                    Ok(_) => Ok(EventView::Exited),
                    Err(e) => Err(e),
                }
            } else if name == "Serial"@ {
                match SerialDataView::read(body) {
                    Ok(inner) => Ok(EventView::Serial(inner)),
                    Err(e) => Err(e),
                }
            } else if name == "DeviceUpdate"@ {
                EventView::read_device_update(body)
            } else if name == "Battery"@ {
                match Battery::read(body) {
                    Ok(inner) => Ok(EventView::Battery(inner)),
                    Err(e) => Err(e),
                }
            } else if name == "RobotPose"@ {
                EventView::read_robot_pose(body)
            } else if name == "RobotState"@ {
                match RobotState::read(body) {
                    Ok(inner) => Ok(EventView::RobotState(inner)),
                    Err(e) => Err(e),
                }
            } else if name == "Log"@ {
                EventView::read_log(body)
            } else if name == "VEXLinkConnect"@ {
                EventView::read_vex_link_connect(body)
            } else if name == "VEXLinkDisconnect"@ {
                EventView::read_vex_link_disconnect(body)
            } else if name == "TextMetricsRequest"@ {
                EventView::read_text_metrics_request(body)
            } else {
                Err(DecodeError::UnrecognizedVariant(OpenUnion::Event))
            },
        }
    }

    /// The value under the member `key` of an object.
    pub open spec fn at(tree: JsonView, key: Seq<char>) -> Result<EventView, DecodeError> {
        match member(tree, key) {
            Ok(v) => EventView::read(v),
            Err(e) => Err(e),
        }
    }

    /// The names of the variants differ in length or in a letter.
    proof fn tags_differ()
        ensures
            "Handshake"@.len() == 9 && "Handshake"@[0] == 'H' && "Handshake"@[6] == 'a',
            "ScreenDraw"@.len() == 10 && "ScreenDraw"@[0] == 'S' && "ScreenDraw"@[6] == 'D',
            "ScreenScroll"@.len() == 12 && "ScreenScroll"@[0] == 'S' && "ScreenScroll"@[6] == 'S',
            "ScreenClear"@.len() == 11,
            "ScreenDoubleBufferMode"@.len() == 22,
            "ScreenRender"@.len() == 12 && "ScreenRender"@[0] == 'S' && "ScreenRender"@[6] == 'R',
            "VCodeSig"@.len() == 8,
            "Ready"@.len() == 5,
            "Exited"@.len() == 6 && "Exited"@[0] == 'E',
            "Serial"@.len() == 6 && "Serial"@[0] == 'S',
            "DeviceUpdate"@.len() == 12 && "DeviceUpdate"@[0] == 'D' && "DeviceUpdate"@[6] == 'U',
            "Battery"@.len() == 7,
            "RobotPose"@.len() == 9 && "RobotPose"@[0] == 'R' && "RobotPose"@[6] == 'o',
            "RobotState"@.len() == 10 && "RobotState"@[0] == 'R' && "RobotState"@[6] == 't',
            "Log"@.len() == 3,
            "VEXLinkConnect"@.len() == 14,
            "VEXLinkDisconnect"@.len() == 17,
            "TextMetricsRequest"@.len() == 18,
    {
        reveal_strlit("Handshake");
        reveal_strlit("ScreenDraw");
        reveal_strlit("ScreenScroll");
        reveal_strlit("ScreenClear");
        reveal_strlit("ScreenDoubleBufferMode");
        reveal_strlit("ScreenRender");
        reveal_strlit("VCodeSig");
        reveal_strlit("Ready");
        reveal_strlit("Exited");
        reveal_strlit("Serial");
        reveal_strlit("DeviceUpdate");
        reveal_strlit("Battery");
        reveal_strlit("RobotPose");
        reveal_strlit("RobotState");
        reveal_strlit("Log");
        reveal_strlit("VEXLinkConnect");
        reveal_strlit("VEXLinkDisconnect");
        reveal_strlit("TextMetricsRequest");
    }

    /// The members of `Handshake` have different names.
    proof fn handshake_names()
        ensures
            "version"@.len() == 7,
            "extensions"@.len() == 10,
    {
        reveal_strlit("version");
        reveal_strlit("extensions");
    }

    /// The body of `Handshake` reads back as the fields that it was written from.
    proof fn handshake_reads_back(version: i32, extensions: Seq<Seq<char>>)
        ensures
            EventView::read_handshake(EventView::handshake_wire(version, extensions))
                == Ok::<EventView, DecodeError>(EventView::Handshake { version, extensions }),
    {
        EventView::handshake_names();
        let members = EventView::handshake_wire(version, extensions)->Object_0;
        member_found(members, 0);
        member_found(members, 1);
        texts_round_trip(extensions);
    }

    /// The members of `ScreenDraw` have different names.
    proof fn screen_draw_names()
        ensures
            "command"@.len() == 7,
            "color"@.len() == 5,
            "clip_region"@.len() == 11,
    {
        reveal_strlit("command");
        reveal_strlit("color");
        reveal_strlit("clip_region");
    }

    /// The body of `ScreenDraw` reads back as the fields that it was written from.
    proof fn screen_draw_reads_back(command: DrawCommandView, color: Color, clip_region: Rect)
        requires
            command.well_formed(),
            clip_region.well_formed(),
        ensures
            EventView::read_screen_draw(EventView::screen_draw_wire(command, color, clip_region))
                == Ok::<EventView, DecodeError>(
                    EventView::ScreenDraw { command, color, clip_region },
                ),
    {
        EventView::screen_draw_names();
        let members = EventView::screen_draw_wire(command, color, clip_region)->Object_0;
        member_found(members, 0);
        member_found(members, 1);
        member_found(members, 2);
        command.wire_round_trip();
        color.wire_round_trip();
        clip_region.wire_round_trip();
    }

    /// The members of `ScreenScroll` have different names.
    proof fn screen_scroll_names()
        ensures
            "location"@.len() == 8,
            "lines"@.len() == 5,
            "background"@.len() == 10,
            "clip_region"@.len() == 11,
    {
        reveal_strlit("location");
        reveal_strlit("lines");
        reveal_strlit("background");
        reveal_strlit("clip_region");
    }

    /// The body of `ScreenScroll` reads back as the fields that it was written from.
    proof fn screen_scroll_reads_back(
        location: ScrollLocation,
        lines: i32,
        background: Color,
        clip_region: Rect,
    )
        requires
            clip_region.well_formed(),
        ensures
            EventView::read_screen_scroll(
                EventView::screen_scroll_wire(location, lines, background, clip_region),
            )
                == Ok::<EventView, DecodeError>(
                    EventView::ScreenScroll { location, lines, background, clip_region },
                ),
    {
        EventView::screen_scroll_names();
        let members = EventView::screen_scroll_wire(
            location,
            lines,
            background,
            clip_region,
        )->Object_0;
        member_found(members, 0);
        member_found(members, 1);
        member_found(members, 2);
        member_found(members, 3);
        location.wire_round_trip();
        background.wire_round_trip();
        clip_region.wire_round_trip();
    }

    /// The members of `ScreenClear` have different names.
    proof fn screen_clear_names()
        ensures
            "color"@.len() == 5,
            "clip_region"@.len() == 11,
    {
        reveal_strlit("color");
        reveal_strlit("clip_region");
    }

    /// The body of `ScreenClear` reads back as the fields that it was written from.
    proof fn screen_clear_reads_back(color: Color, clip_region: Rect)
        requires
            clip_region.well_formed(),
        ensures
            EventView::read_screen_clear(EventView::screen_clear_wire(color, clip_region))
                == Ok::<EventView, DecodeError>(EventView::ScreenClear { color, clip_region }),
    {
        EventView::screen_clear_names();
        let members = EventView::screen_clear_wire(color, clip_region)->Object_0;
        member_found(members, 0);
        member_found(members, 1);
        color.wire_round_trip();
        clip_region.wire_round_trip();
    }

    /// The members of `ScreenDoubleBufferMode` have different names.
    proof fn screen_double_buffer_mode_names()
        ensures
            "enable"@.len() == 6,
    {
        reveal_strlit("enable");
    }

    /// The body of `ScreenDoubleBufferMode` reads back as the fields that it was written from.
    proof fn screen_double_buffer_mode_reads_back(enable: bool)
        ensures
            EventView::read_screen_double_buffer_mode(
                EventView::screen_double_buffer_mode_wire(enable),
            )
                == Ok::<EventView, DecodeError>(EventView::ScreenDoubleBufferMode { enable }),
    {
        EventView::screen_double_buffer_mode_names();
        let members = EventView::screen_double_buffer_mode_wire(enable)->Object_0;
        member_found(members, 0);
    }

    /// The members of `DeviceUpdate` have different names.
    proof fn device_update_names()
        ensures
            "status"@.len() == 6,
            "port"@.len() == 4,
    {
        reveal_strlit("status");
        reveal_strlit("port");
    }

    /// The body of `DeviceUpdate` reads back as the fields that it was written from.
    proof fn device_update_reads_back(status: DeviceStatus, port: Port)
        ensures
            EventView::read_device_update(EventView::device_update_wire(status, port))
                == Ok::<EventView, DecodeError>(EventView::DeviceUpdate { status, port }),
    {
        EventView::device_update_names();
        let members = EventView::device_update_wire(status, port)->Object_0;
        member_found(members, 0);
        member_found(members, 1);
        status.wire_round_trip();
        port.wire_round_trip();
    }

    /// The members of `RobotPose` have different names.
    proof fn robot_pose_names()
        ensures
            "x"@.len() == 1 && "x"@[0] == 'x',
            "y"@.len() == 1 && "y"@[0] == 'y',
    {
        reveal_strlit("x");
        reveal_strlit("y");
    }

    /// The body of `RobotPose` reads back as the fields that it was written from.
    proof fn robot_pose_reads_back(x: Number, y: Number)
        ensures
            EventView::read_robot_pose(EventView::robot_pose_wire(x, y))
                == Ok::<EventView, DecodeError>(EventView::RobotPose { x, y }),
    {
        EventView::robot_pose_names();
        let members = EventView::robot_pose_wire(x, y)->Object_0;
        member_found(members, 0);
        member_found(members, 1);
    }

    /// The members of `Log` have different names.
    proof fn log_names()
        ensures
            "level"@.len() == 5,
            "message"@.len() == 7,
    {
        reveal_strlit("level");
        reveal_strlit("message");
    }

    /// The body of `Log` reads back as the fields that it was written from.
    proof fn log_reads_back(level: LogLevel, message: Seq<char>)
        ensures
            EventView::read_log(EventView::log_wire(level, message))
                == Ok::<EventView, DecodeError>(EventView::Log { level, message }),
    {
        EventView::log_names();
        let members = EventView::log_wire(level, message)->Object_0;
        member_found(members, 0);
        member_found(members, 1);
        level.wire_round_trip();
    }

    /// The members of `VEXLinkConnect` have different names.
    proof fn vex_link_connect_names()
        ensures
            "port"@.len() == 4 && "port"@[0] == 'p',
            "id"@.len() == 2,
            "mode"@.len() == 4 && "mode"@[0] == 'm',
            "override"@.len() == 8,
    {
        reveal_strlit("port");
        reveal_strlit("id");
        reveal_strlit("mode");
        reveal_strlit("override");
    }

    /// The body of `VEXLinkConnect` reads back as the fields that it was written from.
    proof fn vex_link_connect_reads_back(
        port: SmartPort,
        id: Seq<char>,
        mode: LinkMode,
        override_: bool,
    )
        ensures
            EventView::read_vex_link_connect(
                EventView::vex_link_connect_wire(port, id, mode, override_),
            )
                == Ok::<EventView, DecodeError>(
                    EventView::VEXLinkConnect { port, id, mode, override_ },
                ),
    {
        EventView::vex_link_connect_names();
        let members = EventView::vex_link_connect_wire(port, id, mode, override_)->Object_0;
        member_found(members, 0);
        member_found(members, 1);
        member_found(members, 2);
        member_found(members, 3);
        port.wire_round_trip();
        mode.wire_round_trip();
    }

    /// The members of `VEXLinkDisconnect` have different names.
    proof fn vex_link_disconnect_names()
        ensures
            "port"@.len() == 4,
    {
        reveal_strlit("port");
    }

    /// The body of `VEXLinkDisconnect` reads back as the fields that it was written from.
    proof fn vex_link_disconnect_reads_back(port: SmartPort)
        ensures
            EventView::read_vex_link_disconnect(EventView::vex_link_disconnect_wire(port))
                == Ok::<EventView, DecodeError>(EventView::VEXLinkDisconnect { port }),
    {
        EventView::vex_link_disconnect_names();
        let members = EventView::vex_link_disconnect_wire(port)->Object_0;
        member_found(members, 0);
        port.wire_round_trip();
    }

    /// The members of `TextMetricsRequest` have different names.
    proof fn text_metrics_request_names()
        ensures
            "text"@.len() == 4,
    {
        reveal_strlit("text");
    }

    /// The body of `TextMetricsRequest` reads back as the fields that it was written from.
    proof fn text_metrics_request_reads_back(text: V5TextView)
        ensures
            EventView::read_text_metrics_request(EventView::text_metrics_request_wire(text))
                == Ok::<EventView, DecodeError>(EventView::TextMetricsRequest { text }),
    {
        EventView::text_metrics_request_names();
        let members = EventView::text_metrics_request_wire(text)->Object_0;
        member_found(members, 0);
        text.wire_round_trip();
    }

    /// A value that is written and read again is the same value.
    pub proof fn wire_round_trip(self)
        requires
            self.well_formed(),
        ensures
            EventView::read(self.wire()) == Ok::<EventView, DecodeError>(self),
    {
        EventView::tags_differ();
        match self {
            EventView::Handshake { version, extensions } => {
            EventView::handshake_reads_back(version, extensions);
            },
            EventView::ScreenDraw { command, color, clip_region } => {
            EventView::screen_draw_reads_back(command, color, clip_region);
            },
            EventView::ScreenScroll { location, lines, background, clip_region } => {
            EventView::screen_scroll_reads_back(location, lines, background, clip_region);
            },
            EventView::ScreenClear { color, clip_region } => {
            EventView::screen_clear_reads_back(color, clip_region);
            },
            EventView::ScreenDoubleBufferMode { enable } => {
            EventView::screen_double_buffer_mode_reads_back(enable);
            },
            EventView::ScreenRender => {},
            EventView::VCodeSig(inner) => {
            inner.wire_round_trip();
            },
            EventView::Ready => {},
            EventView::Exited => {},
            EventView::Serial(inner) => {
            inner.wire_round_trip();
            },
            EventView::DeviceUpdate { status, port } => {
            EventView::device_update_reads_back(status, port);
            },
            EventView::Battery(inner) => {
            inner.wire_round_trip();
            },
            EventView::RobotPose { x, y } => {
            EventView::robot_pose_reads_back(x, y);
            },
            EventView::RobotState(inner) => {
            inner.wire_round_trip();
            },
            EventView::Log { level, message } => {
            EventView::log_reads_back(level, message);
            },
            EventView::VEXLinkConnect { port, id, mode, override_ } => {
            EventView::vex_link_connect_reads_back(port, id, mode, override_);
            },
            EventView::VEXLinkDisconnect { port } => {
            EventView::vex_link_disconnect_reads_back(port);
            },
            EventView::TextMetricsRequest { text } => {
            EventView::text_metrics_request_reads_back(text);
            },
        }
    }

    /// What is read is well-formed.
    pub proof fn read_is_well_formed(tree: JsonView)
        ensures
            EventView::read(tree) is Ok ==> EventView::read(tree)->Ok_0.well_formed(),
    {
    }
}

impl Event {
    /// Writes the value.
    pub fn to_json(&self) -> (tree: Json)
        ensures
            tree@ == self@.wire(),
    {
        match self {
            Event::Handshake { version, extensions } => {
            let mut members: Vec<(String, Json)> = Vec::new();
            put(&mut members, "version", whole_json(*version as i128));
            put(&mut members, "extensions", texts_json(extensions));
            tagged_json("Handshake", object(members))
            },
            Event::ScreenDraw { command, color, clip_region } => {
            let mut members: Vec<(String, Json)> = Vec::new();
            put(&mut members, "command", command.to_json());
            put(&mut members, "color", color.to_json());
            put(&mut members, "clip_region", clip_region.to_json());
            tagged_json("ScreenDraw", object(members))
            },
            Event::ScreenScroll { location, lines, background, clip_region } => {
            let mut members: Vec<(String, Json)> = Vec::new();
            put(&mut members, "location", location.to_json());
            put(&mut members, "lines", whole_json(*lines as i128));
            put(&mut members, "background", background.to_json());
            put(&mut members, "clip_region", clip_region.to_json());
            tagged_json("ScreenScroll", object(members))
            },
            Event::ScreenClear { color, clip_region } => {
            let mut members: Vec<(String, Json)> = Vec::new();
            put(&mut members, "color", color.to_json());
            put(&mut members, "clip_region", clip_region.to_json());
            tagged_json("ScreenClear", object(members))
            },
            Event::ScreenDoubleBufferMode { enable } => {
            let mut members: Vec<(String, Json)> = Vec::new();
            put(&mut members, "enable", Json::Bool(*enable));
            tagged_json("ScreenDoubleBufferMode", object(members))
            },
            Event::ScreenRender => text_json("ScreenRender"),
            Event::VCodeSig(inner) => tagged_json("VCodeSig", inner.to_json()),
            Event::Ready => text_json("Ready"),
            Event::Exited => text_json("Exited"),
            Event::Serial(inner) => tagged_json("Serial", inner.to_json()),
            Event::DeviceUpdate { status, port } => {
            let mut members: Vec<(String, Json)> = Vec::new();
            put(&mut members, "status", status.to_json());
            put(&mut members, "port", port.to_json());
            tagged_json("DeviceUpdate", object(members))
            },
            Event::Battery(inner) => tagged_json("Battery", inner.to_json()),
            Event::RobotPose { x, y } => {
            let mut members: Vec<(String, Json)> = Vec::new();
            put(&mut members, "x", Json::Number(*x));
            put(&mut members, "y", Json::Number(*y));
            tagged_json("RobotPose", object(members))
            },
            Event::RobotState(inner) => tagged_json("RobotState", inner.to_json()),
            Event::Log { level, message } => {
            let mut members: Vec<(String, Json)> = Vec::new();
            put(&mut members, "level", level.to_json());
            put(&mut members, "message", text_json(message.as_str()));
            tagged_json("Log", object(members))
            },
            Event::VEXLinkConnect { port, id, mode, override_ } => {
            let mut members: Vec<(String, Json)> = Vec::new();
            put(&mut members, "port", port.to_json());
            put(&mut members, "id", text_json(id.as_str()));
            put(&mut members, "mode", mode.to_json());
            put(&mut members, "override", Json::Bool(*override_));
            tagged_json("VEXLinkConnect", object(members))
            },
            Event::VEXLinkDisconnect { port } => {
            let mut members: Vec<(String, Json)> = Vec::new();
            put(&mut members, "port", port.to_json());
            tagged_json("VEXLinkDisconnect", object(members))
            },
            Event::TextMetricsRequest { text } => {
            let mut members: Vec<(String, Json)> = Vec::new();
            put(&mut members, "text", text.to_json());
            tagged_json("TextMetricsRequest", object(members))
            },
        }
    }

    /// Reads the body of `Handshake`.
    fn handshake_from_json(body: &Json) -> (outcome: Result<Event, DecodeError>)
        ensures
            outcome_is(outcome, EventView::read_handshake(body@)),
    {
        let version = get_i32(body, "version")?;
        let extensions = get_texts(body, "extensions")?;
        Ok(Event::Handshake { version, extensions })
    }

    /// Reads the body of `ScreenDraw`.
    fn screen_draw_from_json(body: &Json) -> (outcome: Result<Event, DecodeError>)
        ensures
            outcome_is(outcome, EventView::read_screen_draw(body@)),
    {
        let command = DrawCommand::get(body, "command")?;
        let color = Color::get(body, "color")?;
        let clip_region = Rect::get(body, "clip_region")?;
        Ok(Event::ScreenDraw { command, color, clip_region })
    }

    /// Reads the body of `ScreenScroll`.
    fn screen_scroll_from_json(body: &Json) -> (outcome: Result<Event, DecodeError>)
        ensures
            outcome_is(outcome, EventView::read_screen_scroll(body@)),
    {
        let location = ScrollLocation::get(body, "location")?;
        let lines = get_i32(body, "lines")?;
        let background = Color::get(body, "background")?;
        let clip_region = Rect::get(body, "clip_region")?;
        Ok(Event::ScreenScroll { location, lines, background, clip_region })
    }

    /// Reads the body of `ScreenClear`.
    fn screen_clear_from_json(body: &Json) -> (outcome: Result<Event, DecodeError>)
        ensures
            outcome_is(outcome, EventView::read_screen_clear(body@)),
    {
        let color = Color::get(body, "color")?;
        let clip_region = Rect::get(body, "clip_region")?;
        Ok(Event::ScreenClear { color, clip_region })
    }

    /// Reads the body of `ScreenDoubleBufferMode`.
    fn screen_double_buffer_mode_from_json(body: &Json) -> (outcome: Result<Event, DecodeError>)
        ensures
            outcome_is(outcome, EventView::read_screen_double_buffer_mode(body@)),
    {
        let enable = get_bool(body, "enable")?;
        Ok(Event::ScreenDoubleBufferMode { enable })
    }

    /// Reads the body of `DeviceUpdate`.
    fn device_update_from_json(body: &Json) -> (outcome: Result<Event, DecodeError>)
        ensures
            outcome_is(outcome, EventView::read_device_update(body@)),
    {
        let status = DeviceStatus::get(body, "status")?;
        let port = Port::get(body, "port")?;
        Ok(Event::DeviceUpdate { status, port })
    }

    /// Reads the body of `RobotPose`.
    fn robot_pose_from_json(body: &Json) -> (outcome: Result<Event, DecodeError>)
        ensures
            outcome_is(outcome, EventView::read_robot_pose(body@)),
    {
        let x = get_number(body, "x")?;
        let y = get_number(body, "y")?;
        Ok(Event::RobotPose { x, y })
    }

    /// Reads the body of `Log`.
    fn log_from_json(body: &Json) -> (outcome: Result<Event, DecodeError>)
        ensures
            outcome_is(outcome, EventView::read_log(body@)),
    {
        let level = LogLevel::get(body, "level")?;
        let message = get_text(body, "message")?.clone();
        Ok(Event::Log { level, message })
    }

    /// Reads the body of `VEXLinkConnect`.
    fn vex_link_connect_from_json(body: &Json) -> (outcome: Result<Event, DecodeError>)
        ensures
            outcome_is(outcome, EventView::read_vex_link_connect(body@)),
    {
        let port = SmartPort::get(body, "port")?;
        let id = get_text(body, "id")?.clone();
        let mode = LinkMode::get(body, "mode")?;
        let override_ = get_bool(body, "override")?;
        Ok(Event::VEXLinkConnect { port, id, mode, override_ })
    }

    /// Reads the body of `VEXLinkDisconnect`.
    fn vex_link_disconnect_from_json(body: &Json) -> (outcome: Result<Event, DecodeError>)
        ensures
            outcome_is(outcome, EventView::read_vex_link_disconnect(body@)),
    {
        let port = SmartPort::get(body, "port")?;
        Ok(Event::VEXLinkDisconnect { port })
    }

    /// Reads the body of `TextMetricsRequest`.
    fn text_metrics_request_from_json(body: &Json) -> (outcome: Result<Event, DecodeError>)
        ensures
            outcome_is(outcome, EventView::read_text_metrics_request(body@)),
    {
        let text = V5Text::get(body, "text")?;
        Ok(Event::TextMetricsRequest { text })
    }

    /// Reads a value.
    pub fn from_json(tree: &Json) -> (outcome: Result<Event, DecodeError>)
        ensures
            outcome_is(outcome, EventView::read(tree@)),
    {
        let (name, given) = as_variant(tree)?;
        let absent = Json::Null;
        let body: &Json = match given {
            Some(b) => b,
            None => &absent,
        };
        if same_text(name, "Handshake") {
            Event::handshake_from_json(body)
        } else if same_text(name, "ScreenDraw") {
            Event::screen_draw_from_json(body)
        } else if same_text(name, "ScreenScroll") {
            Event::screen_scroll_from_json(body)
        } else if same_text(name, "ScreenClear") {
            Event::screen_clear_from_json(body)
        } else if same_text(name, "ScreenDoubleBufferMode") {
            Event::screen_double_buffer_mode_from_json(body)
        } else if same_text(name, "ScreenRender") {
            as_unit(given)?;
            Ok(Event::ScreenRender)
        } else if same_text(name, "VCodeSig") {
            Ok(Event::VCodeSig(VCodeSig::from_json(body)?))
        } else if same_text(name, "Ready") {
            as_unit(given)?;
            Ok(Event::Ready)
        } else if same_text(name, "Exited") {
            as_unit(given)?;
            Ok(Event::Exited)
        } else if same_text(name, "Serial") {
            Ok(Event::Serial(SerialData::from_json(body)?))
        } else if same_text(name, "DeviceUpdate") {
            Event::device_update_from_json(body)
        } else if same_text(name, "Battery") {
            Ok(Event::Battery(Battery::from_json(body)?))
        } else if same_text(name, "RobotPose") {
            Event::robot_pose_from_json(body)
        } else if same_text(name, "RobotState") {
            Ok(Event::RobotState(RobotState::from_json(body)?))
        } else if same_text(name, "Log") {
            Event::log_from_json(body)
        } else if same_text(name, "VEXLinkConnect") {
            Event::vex_link_connect_from_json(body)
        } else if same_text(name, "VEXLinkDisconnect") {
            Event::vex_link_disconnect_from_json(body)
        } else if same_text(name, "TextMetricsRequest") {
            Event::text_metrics_request_from_json(body)
        } else {
            Err(DecodeError::UnrecognizedVariant(OpenUnion::Event))
        }
    }

    /// Reads the value under the member `key` of an object.
    pub fn get(tree: &Json, key: &str) -> (outcome: Result<Event, DecodeError>)
        ensures
            outcome_is(outcome, EventView::at(tree@, key@)),
    {
        Event::from_json(get_member(tree, key)?)
    }
}

impl EventView {
    /// An update for a device of a later revision reads as an unrecognized
    /// variant, whatever the body of the device and whatever the port.
    pub proof fn update_of_later_device_is_unrecognized(
        name: Seq<char>,
        body: JsonView,
        port: JsonView,
    )
        requires
            name != "Motor"@,
        ensures
            EventView::read(
                tagged(
                    "DeviceUpdate"@,
                    JsonView::Object(
                        no_members().push(("status"@, tagged(name, body))).push(("port"@, port)),
                    ),
                ),
            ) == Err::<EventView, DecodeError>(
                DecodeError::UnrecognizedVariant(OpenUnion::DeviceStatus),
            ),
    {
        EventView::tags_differ();
        EventView::device_update_names();
        let members = no_members().push(("status"@, tagged(name, body))).push(("port"@, port));
        member_found(members, 0);
        crate::device::later_device_is_unrecognized(name, body);
    }
}

} // verus!
