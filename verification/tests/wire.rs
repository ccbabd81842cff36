use serde_json::Value;
use vexide_simulator_protocol::color::Color;
use vexide_simulator_protocol::command::Command;
use vexide_simulator_protocol::competition::{CompMode, CompetitionMode};
use vexide_simulator_protocol::controller::{ControllerState, ControllerUpdate, TouchEvent};
use vexide_simulator_protocol::device::{
    AdiPort, Battery, Device, DeviceStatus, LinkMode, MotorBrakeMode, MotorGearset, Port, SmartPort,
};
use vexide_simulator_protocol::draw::DrawCommand;
use vexide_simulator_protocol::event::{Event, LogLevel, RobotState};
use vexide_simulator_protocol::geometry::{Point2D, Rect, Shape};
use vexide_simulator_protocol::payload::{PayloadError, SerialData, VCodeSig};
use vexide_simulator_protocol::text::{
    ScrollLocation, TextLocation, TextMetrics, V5FontFamily, V5FontSize, V5Text,
};
use vexide_simulator_protocol::wire::{DecodeError, Json, Kind, Number, OpenUnion};

fn tree_of(value: &Value) -> Json {
    match value {
        Value::Null => Json::Null,
        Value::Bool(b) => Json::Bool(*b),
        Value::Number(n) => {
            if let Some(i) = n.as_i64() {
                Json::Number(Number::Int(i as i128))
            } else if let Some(u) = n.as_u64() {
                Json::Number(Number::Int(u as i128))
            } else {
                Json::Number(Number::Real { bits: n.as_f64().unwrap().to_bits() })
            }
        }
        Value::String(s) => Json::Text(s.clone()),
        Value::Array(items) => Json::List(items.iter().map(tree_of).collect()),
        Value::Object(members) => {
            Json::Object(members.iter().map(|(k, v)| (k.clone(), tree_of(v))).collect())
        }
    }
}

fn value_of(tree: &Json) -> Value {
    match tree {
        Json::Null => Value::Null,
        Json::Bool(b) => Value::Bool(*b),
        Json::Number(Number::Int(i)) => {
            if *i < 0 {
                Value::from(*i as i64)
            } else {
                Value::from(*i as u64)
            }
        }
        Json::Number(Number::Real { bits }) => Value::from(f64::from_bits(*bits)),
        Json::Text(s) => Value::String(s.clone()),
        Json::List(items) => Value::Array(items.iter().map(value_of).collect()),
        Json::Object(members) => {
            Value::Object(members.iter().map(|(k, v)| (k.clone(), value_of(v))).collect())
        }
    }
}

fn parse(text: &str) -> Json {
    tree_of(&serde_json::from_str::<Value>(text).unwrap())
}

fn print(tree: &Json) -> String {
    serde_json::to_string(&value_of(tree)).unwrap()
}

fn fraction(x: f64) -> Number {
    Number::Real { bits: x.to_bits() }
}

fn point(x: i32, y: i32) -> Point2D {
    Point2D { x, y }
}

fn region() -> Rect {
    Rect { top_left: point(0, 0), bottom_right: point(479, 239) }
}

fn through_text_event(event: &Event) -> Result<Event, DecodeError> {
    Event::from_json(&parse(&print(&event.to_json())))
}

fn through_text_command(command: &Command) -> Result<Command, DecodeError> {
    Command::from_json(&parse(&print(&command.to_json())))
}

fn sample_text() -> V5Text {
    V5Text {
        data: "héllo \"world\"\n".to_string(),
        font_family: V5FontFamily::TimerMono,
        font_size: V5FontSize::Large,
    }
}

fn sample_motor_status() -> DeviceStatus {
    DeviceStatus::Motor {
        velocity: fraction(12.5),
        reversed: true,
        power_draw: fraction(1.25),
        torque_output: fraction(0.5),
        flags: -3,
        position: fraction(-720.0),
        target_position: Number::Int(90),
        voltage: fraction(11.75),
        gearset: MotorGearset::Blue,
        brake_mode: MotorBrakeMode::Hold,
    }
}

fn sample_events() -> Vec<Event> {
    vec![
        Event::Handshake { version: 3, extensions: vec!["a".to_string(), "text-metrics".to_string()] },
        Event::Handshake { version: -1, extensions: vec![] },
        Event::ScreenDraw {
            command: DrawCommand::Fill {
                shape: Shape::Rectangle { top_left: point(1, 2), bottom_right: point(3, 4) },
            },
            color: Color(0x00ff_0000),
            clip_region: region(),
        },
        Event::ScreenDraw {
            command: DrawCommand::Stroke {
                shape: Shape::Circle { center: point(-5, 7), radius: 65535 },
            },
            color: Color(0),
            clip_region: region(),
        },
        Event::ScreenDraw {
            command: DrawCommand::Fill { shape: Shape::Pixel { pos: point(i32::MIN, i32::MAX) } },
            color: Color(u32::MAX),
            clip_region: region(),
        },
        Event::ScreenDraw {
            command: DrawCommand::Stroke {
                shape: Shape::Line { start: point(0, 0), end: point(10, -10) },
            },
            color: Color(0x0012_3456),
            clip_region: Rect { top_left: point(5, 5), bottom_right: point(5, 5) },
        },
        Event::ScreenDraw {
            command: DrawCommand::copy_buffer(point(0, 0), point(1, 1), 2, &[1, 2, 3, 4, 255])
                .unwrap(),
            color: Color(7),
            clip_region: region(),
        },
        Event::ScreenDraw {
            command: DrawCommand::Write {
                text: sample_text(),
                location: TextLocation::Line { line: 4 },
                opaque: true,
                background: Color(0x00ff_ffff),
            },
            color: Color(1),
            clip_region: region(),
        },
        Event::ScreenDraw {
            command: DrawCommand::Write {
                text: V5Text::default(),
                location: TextLocation::default(),
                opaque: false,
                background: Color(0),
            },
            color: Color(1),
            clip_region: region(),
        },
        Event::ScreenScroll {
            location: ScrollLocation::Line { line: 2 },
            lines: -1,
            background: Color(3),
            clip_region: region(),
        },
        Event::ScreenScroll {
            location: ScrollLocation::Rectangle { top_left: point(9, 9), bottom_right: point(1, 1) },
            lines: 12,
            background: Color(3),
            clip_region: region(),
        },
        Event::ScreenClear { color: Color(16711680), clip_region: region() },
        Event::ScreenDoubleBufferMode { enable: true },
        Event::ScreenRender,
        Event::VCodeSig(VCodeSig::new(&[0xde, 0xad, 0xbe, 0xef])),
        Event::Ready,
        Event::Exited,
        Event::Serial(SerialData::new(4_000_000_000, b"\x00\xffhello")),
        Event::DeviceUpdate { status: sample_motor_status(), port: Port::Smart(SmartPort(21)) },
        Event::DeviceUpdate { status: sample_motor_status(), port: Port::Adi(AdiPort(255)) },
        Event::Battery(Battery { voltage: fraction(12.6), current: fraction(0.0), capacity: Number::Int(1100) }),
        Event::RobotPose { x: fraction(1.5), y: fraction(-2.25) },
        Event::RobotState(RobotState::from_json(&Json::Null).unwrap()),
        Event::Log { level: LogLevel::Warn, message: "low battery".to_string() },
        Event::Log { level: LogLevel::Trace, message: String::new() },
        Event::VEXLinkConnect {
            port: SmartPort(1),
            id: "team-1234".to_string(),
            mode: LinkMode::Manager,
            override_: true,
        },
        Event::VEXLinkDisconnect { port: SmartPort(0) },
        Event::TextMetricsRequest { text: sample_text() },
    ]
}

fn sample_commands() -> Vec<Command> {
    let raw = ControllerState {
        axis1: 127,
        axis2: -127,
        axis3: 0,
        axis4: 5,
        button_l1: true,
        button_x: true,
        button_all: true,
        battery_level: 80,
        flags: 1,
        battery_capacity: 100,
        ..ControllerState::default()
    };
    vec![
        Command::Handshake { version: 3, extensions: vec!["b".to_string()] },
        Command::Touch { pos: point(10, 20), event: TouchEvent::Pressed },
        Command::Touch { pos: point(0, 0), event: TouchEvent::Released },
        Command::Touch { pos: point(1, 1), event: TouchEvent::Held },
        Command::ControllerUpdate(None, None),
        Command::ControllerUpdate(Some(ControllerUpdate::Raw(raw)), None),
        Command::ControllerUpdate(
            Some(ControllerUpdate::UUID("030000005e0400008e02000014010000".to_string())),
            Some(ControllerUpdate::Raw(ControllerState::default())),
        ),
        Command::USD { root: None },
        Command::USD { root: Some("/tmp/usd".to_string()) },
        Command::VEXLinkOpened { port: SmartPort(2), mode: LinkMode::Worker },
        Command::VEXLinkClosed { port: SmartPort(2) },
        Command::CompetitionMode(CompetitionMode::default()),
        Command::CompetitionMode(CompetitionMode {
            enabled: false,
            connected: true,
            mode: CompMode::Auto,
            is_competition: true,
        }),
        Command::ConfigureDevice {
            port: Port::Smart(SmartPort(7)),
            device: Device::Motor {
                physical_gearset: MotorGearset::Red,
                moment_of_inertia: fraction(0.003),
            },
        },
        Command::AdiInput { port: AdiPort(8), voltage: fraction(3.3) },
        Command::StartExecution,
        Command::SetBatteryCapacity { capacity: fraction(0.85) },
        Command::SetTextMetrics {
            text: sample_text(),
            metrics: TextMetrics { width: 120, height: usize::MAX },
        },
        Command::Serial(SerialData::new(0, &[])),
    ]
}

#[test]
fn every_event_survives_the_wire() {
    for event in sample_events() {
        assert_eq!(Event::from_json(&event.to_json()), Ok(event.clone()));
        assert_eq!(through_text_event(&event), Ok(event));
    }
}

#[test]
fn every_command_survives_the_wire() {
    for command in sample_commands() {
        assert_eq!(Command::from_json(&command.to_json()), Ok(command.clone()));
        assert_eq!(through_text_command(&command), Ok(command));
    }
}

#[test]
fn the_samples_cover_every_variant() {
    let mut event_tags: Vec<String> = sample_events()
        .iter()
        .map(|e| match e.to_json() {
            Json::Text(name) => name,
            Json::Object(members) => members[0].0.clone(),
            other => panic!("not a variant: {:?}", other),
        })
        .collect();
    event_tags.sort();
    event_tags.dedup();
    assert_eq!(event_tags.len(), 18);
    let mut command_tags: Vec<String> = sample_commands()
        .iter()
        .map(|c| match c.to_json() {
            Json::Text(name) => name,
            Json::Object(members) => members[0].0.clone(),
            other => panic!("not a variant: {:?}", other),
        })
        .collect();
    command_tags.sort();
    command_tags.dedup();
    assert_eq!(command_tags.len(), 13);
}

#[test]
fn value_codec_types_survive_the_wire() {
    for p in [point(0, 0), point(-1, 1), point(i32::MIN, i32::MAX)] {
        assert_eq!(Point2D::from_json(&p.to_json()), Ok(p));
    }
    for c in [Color(0), Color(0x00ab_cdef), Color(u32::MAX)] {
        assert_eq!(Color::from_json(&c.to_json()), Ok(c));
    }
    for port in [Port::Smart(SmartPort(0)), Port::Smart(SmartPort(255)), Port::Adi(AdiPort(8))] {
        assert_eq!(Port::from_json(&port.to_json()), Ok(port));
    }
    assert_eq!(Rect::from_json(&region().to_json()), Ok(region()));
    let state = ControllerState { axis3: -42, button_sel: true, ..ControllerState::default() };
    assert_eq!(ControllerState::from_json(&state.to_json()), Ok(state));
    let metrics = TextMetrics { width: 0, height: 18 };
    assert_eq!(TextMetrics::from_json(&metrics.to_json()), Ok(metrics));
    for g in [MotorGearset::Red, MotorGearset::Green, MotorGearset::Blue] {
        assert_eq!(MotorGearset::from_json(&g.to_json()), Ok(g));
    }
    for b in [MotorBrakeMode::Coast, MotorBrakeMode::Brake, MotorBrakeMode::Hold] {
        assert_eq!(MotorBrakeMode::from_json(&b.to_json()), Ok(b));
    }
    for l in [LogLevel::Trace, LogLevel::Info, LogLevel::Warn, LogLevel::Error] {
        assert_eq!(LogLevel::from_json(&l.to_json()), Ok(l));
    }
    for s in [V5FontSize::Small, V5FontSize::Normal, V5FontSize::Large] {
        assert_eq!(V5FontSize::from_json(&s.to_json()), Ok(s));
    }
    for m in [CompMode::Auto, CompMode::Driver] {
        assert_eq!(CompMode::from_json(&m.to_json()), Ok(m));
    }
}

#[test]
fn screen_clear_is_written_as_a_tagged_object() {
    let event = Event::ScreenClear {
        color: Color(16711680),
        clip_region: Rect { top_left: point(0, 0), bottom_right: point(10, 20) },
    };
    let written: Value = serde_json::from_str(&print(&event.to_json())).unwrap();
    let expected: Value = serde_json::from_str(
        r#"{"ScreenClear":{"color":16711680,"clip_region":{"top_left":{"x":0,"y":0},"bottom_right":{"x":10,"y":20}}}}"#,
    )
    .unwrap();
    assert_eq!(written, expected);
    assert_eq!(
        event.to_json(),
        Json::Object(vec![(
            "ScreenClear".to_string(),
            Json::Object(vec![
                ("color".to_string(), Json::Number(Number::Int(16711680))),
                (
                    "clip_region".to_string(),
                    Json::Object(vec![
                        (
                            "top_left".to_string(),
                            Json::Object(vec![
                                ("x".to_string(), Json::Number(Number::Int(0))),
                                ("y".to_string(), Json::Number(Number::Int(0))),
                            ])
                        ),
                        (
                            "bottom_right".to_string(),
                            Json::Object(vec![
                                ("x".to_string(), Json::Number(Number::Int(10))),
                                ("y".to_string(), Json::Number(Number::Int(20))),
                            ])
                        ),
                    ])
                ),
            ])
        )])
    );
}

#[test]
fn screen_clear_without_its_region_is_refused() {
    let tree = parse(r#"{"ScreenClear":{"color":16711680}}"#);
    assert_eq!(Event::from_json(&tree), Err(DecodeError::MissingMember));
}

#[test]
fn touch_is_read_from_its_line() {
    let tree = parse(r#"{"Touch":{"pos":{"x":10,"y":20},"event":"Pressed"}}"#);
    assert_eq!(
        Command::from_json(&tree),
        Ok(Command::Touch { pos: point(10, 20), event: TouchEvent::Pressed })
    );
    let written: Value = serde_json::from_str(
        &print(&Command::Touch { pos: point(10, 20), event: TouchEvent::Pressed }.to_json()),
    )
    .unwrap();
    let expected: Value =
        serde_json::from_str(r#"{"Touch":{"pos":{"x":10,"y":20},"event":"Pressed"}}"#).unwrap();
    assert_eq!(written, expected);
}

#[test]
fn bare_names_and_newtypes_are_written_bare() {
    assert_eq!(Event::Ready.to_json(), Json::Text("Ready".to_string()));
    assert_eq!(print(&Command::StartExecution.to_json()), r#""StartExecution""#);
    assert_eq!(print(&TouchEvent::Pressed.to_json()), r#""Pressed""#);
    assert_eq!(print(&SmartPort(7).to_json()), "7");
    assert_eq!(print(&Event::VEXLinkDisconnect { port: SmartPort(7) }.to_json()), r#"{"VEXLinkDisconnect":{"port":7}}"#);
    assert_eq!(print(&Port::Adi(AdiPort(3)).to_json()), r#"{"Adi":3}"#);
    assert_eq!(print(&Event::RobotState(RobotState::from_json(&Json::Null).unwrap()).to_json()), r#"{"RobotState":null}"#);
    assert_eq!(print(&Command::ControllerUpdate(None, None).to_json()), r#"{"ControllerUpdate":[null,null]}"#);
    assert_eq!(print(&Command::USD { root: None }.to_json()), r#"{"USD":{"root":null}}"#);
    assert_eq!(
        print(&Event::VCodeSig(VCodeSig::new(b"hi")).to_json()),
        r#"{"VCodeSig":"aGk="}"#
    );
    assert_eq!(
        print(&Event::Serial(SerialData::new(1, b"hi")).to_json()),
        r#"{"Serial":{"channel":1,"data":"aGk="}}"#
    );
}

#[test]
fn a_raw_key_is_written_under_its_plain_name() {
    let event = Event::VEXLinkConnect {
        port: SmartPort(1),
        id: "x".to_string(),
        mode: LinkMode::Worker,
        override_: false,
    };
    let written: Value = serde_json::from_str(&print(&event.to_json())).unwrap();
    let expected: Value = serde_json::from_str(
        r#"{"VEXLinkConnect":{"port":1,"id":"x","mode":"Worker","override":false}}"#,
    )
    .unwrap();
    assert_eq!(written, expected);
}

#[test]
fn members_are_found_in_any_order_and_strangers_are_ignored() {
    let tree = parse(
        r#"{"Touch":{"later":[1,2,3],"event":"Held","pos":{"y":2,"z":null,"x":1}}}"#,
    );
    assert_eq!(
        Command::from_json(&tree),
        Ok(Command::Touch { pos: point(1, 2), event: TouchEvent::Held })
    );
}

#[test]
fn a_unit_variant_may_carry_null() {
    assert_eq!(Event::from_json(&parse(r#"{"Ready":null}"#)), Ok(Event::Ready));
    assert_eq!(Event::from_json(&parse(r#"{"Ready":{}}"#)), Err(DecodeError::WrongArity));
    assert_eq!(Event::from_json(&parse(r#"{"Exited":1}"#)), Err(DecodeError::WrongArity));
}

#[test]
fn whole_numbers_are_accepted_where_a_real_is_expected() {
    let tree = parse(r#"{"AdiInput":{"port":1,"voltage":5}}"#);
    assert_eq!(
        Command::from_json(&tree),
        Ok(Command::AdiInput { port: AdiPort(1), voltage: Number::Int(5) })
    );
    let tree = parse(r#"{"AdiInput":{"port":1,"voltage":2.5}}"#);
    assert_eq!(
        Command::from_json(&tree),
        Ok(Command::AdiInput { port: AdiPort(1), voltage: fraction(2.5) })
    );
}

#[test]
fn usd_root_may_be_absent() {
    assert_eq!(Command::from_json(&parse(r#"{"USD":{}}"#)), Ok(Command::USD { root: None }));
    assert_eq!(
        Command::from_json(&parse(r#"{"USD":{"root":"/sd"}}"#)),
        Ok(Command::USD { root: Some("/sd".to_string()) })
    );
    assert_eq!(
        Command::from_json(&parse(r#"{"USD":{"root":5}}"#)),
        Err(DecodeError::Expected(Kind::Text))
    );
}

#[test]
fn unrecognized_device_is_reported_as_such() {
    let tree = parse(
        r#"{"DeviceUpdate":{"status":{"Lidar":{"range":12.5}},"port":{"Smart":4}}}"#,
    );
    let outcome = Event::from_json(&tree);
    assert_eq!(outcome, Err(DecodeError::UnrecognizedVariant(OpenUnion::DeviceStatus)));
    assert!(outcome.unwrap_err().is_unrecognized());
    let tree = parse(r#"{"ConfigureDevice":{"port":{"Smart":4},"device":{"Lidar":{}}}}"#);
    assert_eq!(
        Command::from_json(&tree),
        Err(DecodeError::UnrecognizedVariant(OpenUnion::Device))
    );
    assert_eq!(
        Device::from_json(&parse(r#""Lidar""#)),
        Err(DecodeError::UnrecognizedVariant(OpenUnion::Device))
    );
}

#[test]
fn unrecognized_message_is_reported_as_such() {
    assert_eq!(
        Event::from_json(&parse(r#"{"Hologram":{"on":true}}"#)),
        Err(DecodeError::UnrecognizedVariant(OpenUnion::Event))
    );
    assert_eq!(
        Command::from_json(&parse(r#""Reboot""#)),
        Err(DecodeError::UnrecognizedVariant(OpenUnion::Command))
    );
    assert!(!DecodeError::UnknownTag.is_unrecognized());
}

#[test]
fn unknown_tag_of_a_closed_union_is_a_decode_error() {
    assert_eq!(
        Command::from_json(&parse(r#"{"Touch":{"pos":{"x":1,"y":2},"event":"Tapped"}}"#)),
        Err(DecodeError::UnknownTag)
    );
    assert_eq!(Port::from_json(&parse(r#"{"Usb":1}"#)), Err(DecodeError::UnknownTag));
    assert_eq!(MotorGearset::from_json(&parse(r#""Purple""#)), Err(DecodeError::UnknownTag));
}

#[test]
fn malformed_rectangle_is_refused_when_read() {
    let tree = parse(
        r#"{"ScreenClear":{"color":0,"clip_region":{"top_left":{"x":5,"y":0},"bottom_right":{"x":4,"y":9}}}}"#,
    );
    assert_eq!(Event::from_json(&tree), Err(DecodeError::MalformedRectangle));
    let tree = parse(
        r#"{"Rectangle":{"top_left":{"x":0,"y":5},"bottom_right":{"x":0,"y":4}}}"#,
    );
    assert_eq!(Shape::from_json(&tree), Err(DecodeError::MalformedRectangle));
    let tree = parse(
        r#"{"Rectangle":{"top_left":{"x":3,"y":3},"bottom_right":{"x":3,"y":3}}}"#,
    );
    assert_eq!(
        Shape::from_json(&tree),
        Ok(Shape::Rectangle { top_left: point(3, 3), bottom_right: point(3, 3) })
    );
}

#[test]
fn zero_stride_is_refused_when_read() {
    let zero = parse(
        r#"{"CopyBuffer":{"top_left":{"x":0,"y":0},"bottom_right":{"x":1,"y":1},"stride":0,"buffer":"AAAA"}}"#,
    );
    assert_eq!(DrawCommand::from_json(&zero), Err(DecodeError::ZeroStride));
    let one = parse(
        r#"{"CopyBuffer":{"top_left":{"x":0,"y":0},"bottom_right":{"x":1,"y":1},"stride":1,"buffer":"AAAA"}}"#,
    );
    assert_eq!(
        DrawCommand::from_json(&one),
        Ok(DrawCommand::CopyBuffer {
            top_left: point(0, 0),
            bottom_right: point(1, 1),
            stride: 1,
            buffer: "AAAA".to_string(),
        })
    );
}

#[test]
fn bad_base64_is_a_decode_error_of_its_own() {
    let tree = parse(r#"{"Serial":{"channel":1,"data":"a!=="}}"#);
    assert_eq!(
        Event::from_json(&tree),
        Err(DecodeError::BadPayload(PayloadError::InvalidByte { offset: 1, byte: b'!' }))
    );
    assert_eq!(
        Event::from_json(&parse(r#"{"VCodeSig":"Wg"}"#)),
        Err(DecodeError::BadPayload(PayloadError::InvalidPadding))
    );
    let tree = parse(
        r#"{"CopyBuffer":{"top_left":{"x":0,"y":0},"bottom_right":{"x":1,"y":1},"stride":1,"buffer":"W"}}"#,
    );
    assert_eq!(
        DrawCommand::from_json(&tree),
        Err(DecodeError::BadPayload(PayloadError::InvalidLength { length: 1 }))
    );
    assert_eq!(
        Event::from_json(&parse(r#"{"Serial":{"channel":1,"data":7}}"#)),
        Err(DecodeError::Expected(Kind::Text))
    );
}

#[test]
fn numbers_out_of_range_are_refused() {
    assert_eq!(SmartPort::from_json(&parse("256")), Err(DecodeError::OutOfRange));
    assert_eq!(SmartPort::from_json(&parse("-1")), Err(DecodeError::OutOfRange));
    assert_eq!(SmartPort::from_json(&parse("255")), Ok(SmartPort(255)));
    assert_eq!(SmartPort::from_json(&parse("1.5")), Err(DecodeError::OutOfRange));
    assert_eq!(SmartPort::from_json(&parse("\"1\"")), Err(DecodeError::Expected(Kind::Number)));
    assert_eq!(Color::from_json(&parse("4294967296")), Err(DecodeError::OutOfRange));
    assert_eq!(Color::from_json(&parse("4294967295")), Ok(Color(u32::MAX)));
    assert_eq!(
        Point2D::from_json(&parse(r#"{"x":2147483648,"y":0}"#)),
        Err(DecodeError::OutOfRange)
    );
    assert_eq!(
        Point2D::from_json(&parse(r#"{"x":-2147483648,"y":2147483647}"#)),
        Ok(point(i32::MIN, i32::MAX))
    );
    assert_eq!(
        Shape::from_json(&parse(r#"{"Circle":{"center":{"x":0,"y":0},"radius":-1}}"#)),
        Err(DecodeError::OutOfRange)
    );
    assert_eq!(
        Shape::from_json(&parse(r#"{"Circle":{"center":{"x":0,"y":0},"radius":65536}}"#)),
        Err(DecodeError::OutOfRange)
    );
    assert_eq!(
        TextMetrics::from_json(&parse(r#"{"width":18446744073709551615,"height":0}"#)),
        Ok(TextMetrics { width: usize::MAX, height: 0 })
    );
}

#[test]
fn shapes_that_are_no_message_are_refused() {
    assert_eq!(Event::from_json(&parse("5")), Err(DecodeError::NotAVariant));
    assert_eq!(Event::from_json(&parse("{}")), Err(DecodeError::NotAVariant));
    assert_eq!(
        Event::from_json(&parse(r#"{"Ready":null,"Exited":null}"#)),
        Err(DecodeError::NotAVariant)
    );
    assert_eq!(
        Event::from_json(&parse(r#"{"ScreenDoubleBufferMode":{"enable":1}}"#)),
        Err(DecodeError::Expected(Kind::Bool))
    );
    assert_eq!(
        Event::from_json(&parse(r#"{"ScreenDoubleBufferMode":[true]}"#)),
        Err(DecodeError::Expected(Kind::Object))
    );
    assert_eq!(
        Event::from_json(&parse(r#"{"Handshake":{"version":1,"extensions":"a"}}"#)),
        Err(DecodeError::Expected(Kind::List))
    );
    assert_eq!(
        Event::from_json(&parse(r#"{"Handshake":{"version":1,"extensions":["a",2]}}"#)),
        Err(DecodeError::Expected(Kind::Text))
    );
    assert_eq!(
        Event::from_json(&parse(r#"{"RobotState":{}}"#)),
        Err(DecodeError::Expected(Kind::Null))
    );
    assert_eq!(
        Event::from_json(&parse(r#"{"RobotPose":{"x":"1","y":2}}"#)),
        Err(DecodeError::Expected(Kind::Number))
    );
    assert_eq!(
        Command::from_json(&parse(r#"{"ControllerUpdate":[null]}"#)),
        Err(DecodeError::WrongArity)
    );
    assert_eq!(
        Command::from_json(&parse(r#"{"ControllerUpdate":[null,null,null]}"#)),
        Err(DecodeError::WrongArity)
    );
}

#[test]
fn the_first_member_that_fails_gives_the_error() {
    let tree = parse(r#"{"x":"a"}"#);
    assert_eq!(Point2D::from_json(&tree), Err(DecodeError::Expected(Kind::Number)));
    let tree = parse(r#"{"y":"a"}"#);
    assert_eq!(Point2D::from_json(&tree), Err(DecodeError::MissingMember));
    let tree = parse(r#"{"x":1,"x":2,"y":3}"#);
    assert!(Point2D::from_json(&tree).is_ok());
    let twice = Json::Object(vec![
        ("x".to_string(), Json::Number(Number::Int(1))),
        ("x".to_string(), Json::Number(Number::Int(2))),
        ("y".to_string(), Json::Number(Number::Int(3))),
    ]);
    assert_eq!(Point2D::from_json(&twice), Ok(point(1, 3)));
}

#[test]
fn defaults_are_those_of_the_schema() {
    assert_eq!(
        CompetitionMode::default(),
        CompetitionMode {
            enabled: true,
            connected: false,
            mode: CompMode::Driver,
            is_competition: false
        }
    );
    assert_eq!(CompMode::default(), CompMode::Driver);
    assert_eq!(V5FontFamily::default(), V5FontFamily::UserMono);
    assert_eq!(V5FontSize::default(), V5FontSize::Normal);
    assert_eq!(
        V5Text::default(),
        V5Text {
            data: String::new(),
            font_family: V5FontFamily::UserMono,
            font_size: V5FontSize::Normal
        }
    );
    assert_eq!(TextLocation::default(), TextLocation::Coordinates { point: point(0, 0) });
    assert_eq!(TextMetrics::default(), TextMetrics { width: 0, height: 0 });
    let rest = ControllerState::default();
    assert_eq!(rest.axis1, 0);
    assert!(!rest.button_a);
    assert_eq!(rest.battery_capacity, 0);
}
