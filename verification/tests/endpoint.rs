use serde_json::Value;
use vexide_simulator_protocol::color::Color;
use vexide_simulator_protocol::command::Command;
use vexide_simulator_protocol::device::{Device, DeviceTable, MotorGearset, Port, SmartPort, AdiPort};
use vexide_simulator_protocol::endpoint::{
    names_session_control, note_devices, receive_command, receive_event, send_command,
    send_event, Failure, Reception,
};
use vexide_simulator_protocol::event::Event;
use vexide_simulator_protocol::framing::{text_of_line, write_line, LineBuffer};
use vexide_simulator_protocol::handshake::{negotiate, Handshake};
use vexide_simulator_protocol::geometry::{Point2D, Rect};
use vexide_simulator_protocol::session::{
    CommandSignal, EventSignal, Phase, ProtocolError, Session,
};
use vexide_simulator_protocol::wire::{DecodeError, Json, Kind, Number, OpenUnion};

fn tree_of(value: &Value) -> Json {
    match value {
        Value::Null => Json::Null,
        Value::Bool(b) => Json::Bool(*b),
        Value::Number(n) => {
            if let Some(i) = n.as_i64() {
                Json::Number(Number::Int(i as i128))
            } else if let Some(u) = n.as_u64() {
                Json::Number(Number::Int(u as i128))
            } else {
                Json::Number(Number::Real { bits: n.as_f64().unwrap().to_bits() })
            }
        }
        Value::String(s) => Json::Text(s.clone()),
        Value::Array(items) => Json::List(items.iter().map(tree_of).collect()),
        Value::Object(members) => {
            Json::Object(members.iter().map(|(k, v)| (k.clone(), tree_of(v))).collect())
        }
    }
}

fn parse(text: &str) -> Json {
    tree_of(&serde_json::from_str::<Value>(text).unwrap())
}

fn active(version: i32) -> Session {
    let mut session = Session::new(version);
    assert_eq!(session.on_event(EventSignal::Handshake { version }), Ok(()));
    assert_eq!(session.on_command(CommandSignal::Handshake { version }), Ok(()));
    session
}

#[test]
fn events_and_commands_tell_the_session_what_it_needs() {
    assert_eq!(
        Event::Handshake { version: 4, extensions: vec![] }.signal(),
        EventSignal::Handshake { version: 4 }
    );
    assert_eq!(Event::Ready.signal(), EventSignal::Ready);
    assert_eq!(Event::Exited.signal(), EventSignal::Exited);
    assert_eq!(Event::ScreenRender.signal(), EventSignal::Other);
    assert_eq!(
        Command::Handshake { version: -4, extensions: vec![] }.signal(),
        CommandSignal::Handshake { version: -4 }
    );
    assert_eq!(Command::StartExecution.signal(), CommandSignal::StartExecution);
    assert_eq!(Command::USD { root: None }.signal(), CommandSignal::Other);
}

#[test]
fn session_control_is_told_by_the_name() {
    assert!(names_session_control(&parse(r#"{"Handshake":{"version":"x"}}"#)));
    assert!(names_session_control(&parse(r#""StartExecution""#)));
    assert!(names_session_control(&parse(r#"{"StartExecution":5}"#)));
    assert!(!names_session_control(&parse(r#""Ready""#)));
    assert!(!names_session_control(&parse(r#"{"Handshake":1,"StartExecution":2}"#)));
    assert!(!names_session_control(&parse("[\"Handshake\"]")));
}

#[test]
fn unrecognized_device_is_passed_over_and_the_stream_goes_on() {
    let stream = [
        r#"{"ScreenClear":{"color":255,"clip_region":{"top_left":{"x":0,"y":0},"bottom_right":{"x":9,"y":9}}}}"#,
        r#"{"DeviceUpdate":{"status":{"Lidar":{"range":3}},"port":{"Smart":2}}}"#,
        r#""ScreenRender""#,
        r#""Exited""#,
        "",
    ]
    .join("\n");
    let mut buffer = LineBuffer::new();
    let lines = buffer.feed(stream.as_bytes());
    assert_eq!(lines.len(), 4);
    let mut session = active(1);
    let mut got = Vec::new();
    let mut states = Vec::new();
    for line in lines {
        let text = text_of_line(line).unwrap();
        got.push(receive_event(&mut session, &parse(&text)));
        states.push(session);
    }
    assert_eq!(
        got,
        vec![
            Reception::Delivered(Event::ScreenClear {
                color: Color(255),
                clip_region: Rect {
                    top_left: Point2D { x: 0, y: 0 },
                    bottom_right: Point2D { x: 9, y: 9 }
                },
            }),
            Reception::Skipped(DecodeError::UnrecognizedVariant(OpenUnion::DeviceStatus)),
            Reception::Delivered(Event::ScreenRender),
            Reception::Delivered(Event::Exited),
        ]
    );
    assert_eq!(states[0], states[1]);
    assert_eq!(states[1].phase(), Phase::Active);
    assert_eq!(states[3].phase(), Phase::Terminated);
    assert_eq!(buffer.finish(), Ok(()));
}

#[test]
fn a_corrupt_message_is_passed_over() {
    let mut session = active(1);
    let before = session;
    assert_eq!(
        receive_event(&mut session, &parse(r#"{"Log":{"level":"Info"}}"#)),
        Reception::Skipped(DecodeError::MissingMember)
    );
    assert_eq!(
        receive_command(&mut session, &parse(r#"{"Teleport":{}}"#)),
        Reception::Skipped(DecodeError::UnrecognizedVariant(OpenUnion::Command))
    );
    assert_eq!(session, before);
    assert_eq!(
        receive_event(&mut session, &parse(r#"{"Log":{"level":"Info","message":"m"}}"#)),
        Reception::Delivered(Event::Log {
            level: vexide_simulator_protocol::event::LogLevel::Info,
            message: "m".to_string()
        })
    );
}

#[test]
fn a_corrupt_handshake_is_fatal() {
    let mut session = Session::new(1);
    assert_eq!(
        receive_event(&mut session, &parse(r#"{"Handshake":{"version":"one","extensions":[]}}"#)),
        Reception::Fatal(Failure::Decode(DecodeError::Expected(Kind::Number)))
    );
    assert_eq!(session.phase(), Phase::Terminated);
    let mut other = active(1);
    assert_eq!(
        receive_command(&mut other, &parse(r#"{"StartExecution":{"now":true}}"#)),
        Reception::Fatal(Failure::Decode(DecodeError::WrongArity))
    );
    assert_eq!(other.phase(), Phase::Terminated);
}

#[test]
fn a_message_before_the_handshake_is_fatal() {
    let mut session = Session::new(1);
    assert_eq!(
        receive_event(&mut session, &parse(r#""Ready""#)),
        Reception::Fatal(Failure::Protocol(ProtocolError::HandshakeExpected))
    );
    assert_eq!(session.phase(), Phase::Terminated);
}

#[test]
fn a_handshake_of_another_version_is_fatal() {
    let mut session = Session::new(3);
    assert_eq!(
        receive_command(&mut session, &parse(r#"{"Handshake":{"version":2,"extensions":["a"]}}"#)),
        Reception::Fatal(Failure::Protocol(ProtocolError::IncompatibleVersion {
            local: 3,
            peer: 2
        }))
    );
    assert_eq!(session.phase(), Phase::Terminated);
    let mut same = Session::new(3);
    assert_eq!(
        receive_command(&mut same, &parse(r#"{"Handshake":{"version":3,"extensions":["a"]}}"#)),
        Reception::Delivered(Command::Handshake { version: 3, extensions: vec!["a".to_string()] })
    );
    assert_eq!(same.phase(), Phase::AwaitingPeerHandshake);
}

#[test]
fn start_execution_is_refused_out_of_order_and_the_stream_goes_on() {
    let mut session = active(1);
    let start = parse(r#""StartExecution""#);
    assert_eq!(receive_command(&mut session, &start), Reception::Refused(ProtocolError::NotReady));
    assert_eq!(receive_event(&mut session, &parse(r#""Ready""#)), Reception::Delivered(Event::Ready));
    assert_eq!(receive_command(&mut session, &start), Reception::Delivered(Command::StartExecution));
    assert_eq!(
        receive_command(&mut session, &start),
        Reception::Refused(ProtocolError::AlreadyStarted)
    );
    assert_eq!(session.phase(), Phase::Active);
    assert_eq!(receive_event(&mut session, &parse(r#""Exited""#)), Reception::Delivered(Event::Exited));
    assert_eq!(
        receive_event(&mut session, &parse(r#""ScreenRender""#)),
        Reception::Fatal(Failure::Protocol(ProtocolError::SessionTerminated))
    );
}

#[test]
fn what_one_end_sends_the_other_receives() {
    let mut backend = Session::new(2);
    let mut frontend = Session::new(2);
    let mut events_wire: Vec<u8> = Vec::new();
    let events = vec![
        Event::Handshake { version: 2, extensions: vec!["x".to_string()] },
    ];
    for event in &events {
        let tree = send_event(&mut backend, event).unwrap();
        let value = print_tree(&tree);
        assert_eq!(write_line(&mut events_wire, value.as_bytes()), Ok(()));
    }
    let hello = Command::Handshake { version: 2, extensions: vec![] };
    let tree = send_command(&mut frontend, &hello).unwrap();
    assert_eq!(receive_command(&mut backend, &tree), Reception::Delivered(hello));
    let mut buffer = LineBuffer::new();
    for line in buffer.feed(&events_wire) {
        let text = text_of_line(line).unwrap();
        assert_eq!(
            receive_event(&mut frontend, &parse(&text)),
            Reception::Delivered(events[0].clone())
        );
    }
    assert_eq!(backend, frontend);
    assert_eq!(backend.phase(), Phase::Active);
    assert_eq!(
        send_command(&mut frontend, &Command::StartExecution),
        Err(ProtocolError::NotReady)
    );
    assert_eq!(send_event(&mut backend, &Event::Ready).unwrap(), Json::Text("Ready".to_string()));
    assert_eq!(
        send_event(&mut backend, &Event::Handshake { version: 2, extensions: vec![] }),
        Err(ProtocolError::UnexpectedHandshake)
    );
    assert_eq!(backend.phase(), Phase::Terminated);
}

fn value_of(tree: &Json) -> Value {
    match tree {
        Json::Null => Value::Null,
        Json::Bool(b) => Value::Bool(*b),
        Json::Number(Number::Int(i)) => {
            if *i < 0 {
                Value::from(*i as i64)
            } else {
                Value::from(*i as u64)
            }
        }
        Json::Number(Number::Real { bits }) => Value::from(f64::from_bits(*bits)),
        Json::Text(s) => Value::String(s.clone()),
        Json::List(items) => Value::Array(items.iter().map(value_of).collect()),
        Json::Object(members) => {
            Value::Object(members.iter().map(|(k, v)| (k.clone(), value_of(v))).collect())
        }
    }
}

fn print_tree(tree: &Json) -> String {
    serde_json::to_string(&value_of(tree)).unwrap()
}

fn motor(gearset: MotorGearset, inertia: i128) -> Device {
    Device::Motor { physical_gearset: gearset, moment_of_inertia: Number::Int(inertia) }
}

#[test]
fn a_later_configuration_replaces_the_earlier() {
    let mut table = DeviceTable::new();
    assert_eq!(table.len(), 0);
    assert_eq!(table.device_at(Port::Smart(SmartPort(1))), None);
    table.configure(Port::Smart(SmartPort(1)), motor(MotorGearset::Red, 1));
    table.configure(Port::Smart(SmartPort(2)), motor(MotorGearset::Green, 2));
    table.configure(Port::Adi(AdiPort(1)), motor(MotorGearset::Blue, 3));
    assert_eq!(table.len(), 3);
    table.configure(Port::Smart(SmartPort(1)), motor(MotorGearset::Blue, 4));
    assert_eq!(table.len(), 3);
    assert_eq!(table.device_at(Port::Smart(SmartPort(1))), Some(motor(MotorGearset::Blue, 4)));
    assert_eq!(table.device_at(Port::Smart(SmartPort(2))), Some(motor(MotorGearset::Green, 2)));
    assert_eq!(table.device_at(Port::Adi(AdiPort(1))), Some(motor(MotorGearset::Blue, 3)));
    assert_eq!(table.device_at(Port::Adi(AdiPort(2))), None);
    table.configure(Port::Smart(SmartPort(1)), motor(MotorGearset::Blue, 4));
    assert_eq!(table.len(), 3);
    assert_eq!(table.device_at(Port::Smart(SmartPort(1))), Some(motor(MotorGearset::Blue, 4)));
}

#[test]
fn configure_device_commands_fill_the_table() {
    let mut table = DeviceTable::new();
    let mut session = active(1);
    for line in [
        r#"{"ConfigureDevice":{"port":{"Smart":3},"device":{"Motor":{"physical_gearset":"Red","moment_of_inertia":1}}}}"#,
        r#"{"AdiInput":{"port":1,"voltage":1.5}}"#,
        r#"{"ConfigureDevice":{"port":{"Smart":3},"device":{"Motor":{"physical_gearset":"Green","moment_of_inertia":2}}}}"#,
    ] {
        match receive_command(&mut session, &parse(line)) {
            Reception::Delivered(command) => note_devices(&mut table, &command),
            other => panic!("not delivered: {:?}", other),
        }
    }
    assert_eq!(table.len(), 1);
    assert_eq!(table.device_at(Port::Smart(SmartPort(3))), Some(motor(MotorGearset::Green, 2)));
}

#[test]
fn a_closed_stream_ends_the_session() {
    let mut session = active(1);
    session.close();
    assert_eq!(session.phase(), Phase::Terminated);
    assert_eq!(
        receive_event(&mut session, &parse(r#""Ready""#)),
        Reception::Fatal(Failure::Protocol(ProtocolError::SessionTerminated))
    );
}

#[test]
fn a_tree_is_copied_whole() {
    let tree = parse(r#"{"a":[1,2.5,"x",null,true,{"b":{}}],"c":-7}"#);
    let copy = tree.clone();
    assert_eq!(copy, tree);
    assert_eq!(print_tree(&copy), r#"{"a":[1,2.5,"x",null,true,{"b":{}}],"c":-7}"#);
}

#[test]
fn handshakes_travel_in_messages() {
    let local = Handshake { version: 3, extensions: vec!["a".to_string(), "b".to_string(), "c".to_string()] };
    assert_eq!(
        local.to_event(),
        Event::Handshake { version: 3, extensions: vec!["a".to_string(), "b".to_string(), "c".to_string()] }
    );
    assert_eq!(
        local.to_command(),
        Command::Handshake { version: 3, extensions: vec!["a".to_string(), "b".to_string(), "c".to_string()] }
    );
    assert_eq!(Handshake::of_event(&local.to_event()), Some(local.clone()));
    assert_eq!(Handshake::of_command(&local.to_command()), Some(local.clone()));
    assert_eq!(Handshake::of_event(&Event::Ready), None);
    assert_eq!(Handshake::of_command(&Command::StartExecution), None);
    let arrived = parse(r#"{"Handshake":{"version":3,"extensions":["b","c","d"]}}"#);
    let mut session = Session::new(3);
    match receive_command(&mut session, &arrived) {
        Reception::Delivered(command) => {
            let peer = Handshake::of_command(&command).unwrap();
            let agreed = negotiate(&local, &peer).unwrap();
            assert_eq!(agreed.extensions, vec!["b".to_string(), "c".to_string()]);
        }
        other => panic!("not delivered: {:?}", other),
    }
}
