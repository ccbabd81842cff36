//! Ports and the devices plugged into them.

use crate::wire::{
    as_u8, as_unit, as_variant, bool_at, get_bool, get_i32, get_member, get_number, i32_at,
    member, member_found, no_members, number_at, object, put, read_u8, read_unit, read_variant,
    same_text, tagged, tagged_json, text_json, whole, whole_json, DecodeError, Json, JsonView,
    Number, OpenUnion,
};
use vstd::prelude::*;

verus! {

/// A smart port, addressed by a number that fits in one byte.
#[derive(Clone, Copy, Debug, PartialEq, Eq, Structural, Hash, PartialOrd, Ord)]
pub struct SmartPort(pub u8);

impl SmartPort {
    /// How a smart port is written: as the bare number.
    pub open spec fn wire(self) -> JsonView {
        whole(self.0 as int)
    }

    /// The value that a tree spells, or why it spells none.
    pub open spec fn read(tree: JsonView) -> Result<SmartPort, DecodeError> {
        match read_u8(tree) {
            Ok(n) => Ok(SmartPort(n)),
            Err(e) => Err(e),
        }
    }

    /// The value under the member `key` of an object.
    pub open spec fn at(tree: JsonView, key: Seq<char>) -> Result<SmartPort, DecodeError> {
        match member(tree, key) {
            Ok(v) => SmartPort::read(v),
            Err(e) => Err(e),
        }
    }

    /// A value that is written and read again is the same value.
    pub proof fn wire_round_trip(self)
        ensures
            SmartPort::read(self.wire()) == Ok::<SmartPort, DecodeError>(self),
    {
    }

    /// Writes the value.
    pub fn to_json(&self) -> (tree: Json)
        ensures
            tree@ == self.wire(),
    {
        whole_json(self.0 as i128)
    }

    /// Reads a value.
    pub fn from_json(tree: &Json) -> (outcome: Result<SmartPort, DecodeError>)
        ensures
            outcome == SmartPort::read(tree@),
    {
        Ok(SmartPort(as_u8(tree)?))
    }

    /// Reads the value under the member `key` of an object.
    pub fn get(tree: &Json, key: &str) -> (outcome: Result<SmartPort, DecodeError>)
        ensures
            outcome == SmartPort::at(tree@, key@),
    {
        SmartPort::from_json(get_member(tree, key)?)
    }
}

/// A three-wire port for analog and digital devices, addressed by a number that fits in one byte.
#[derive(Clone, Copy, Debug, PartialEq, Eq, Structural, Hash, PartialOrd, Ord)]
pub struct AdiPort(pub u8);

impl AdiPort {
    /// How a three-wire port is written: as the bare number.
    pub open spec fn wire(self) -> JsonView {
        whole(self.0 as int)
    }

    /// The value that a tree spells, or why it spells none.
    pub open spec fn read(tree: JsonView) -> Result<AdiPort, DecodeError> {
        match read_u8(tree) {
            Ok(n) => Ok(AdiPort(n)),
            Err(e) => Err(e),
        }
    }

    /// The value under the member `key` of an object.
    pub open spec fn at(tree: JsonView, key: Seq<char>) -> Result<AdiPort, DecodeError> {
        match member(tree, key) {
            Ok(v) => AdiPort::read(v),
            Err(e) => Err(e),
        }
    }

    /// A value that is written and read again is the same value.
    pub proof fn wire_round_trip(self)
        ensures
            AdiPort::read(self.wire()) == Ok::<AdiPort, DecodeError>(self),
    {
    }

    /// Writes the value.
    pub fn to_json(&self) -> (tree: Json)
        ensures
            tree@ == self.wire(),
    {
        whole_json(self.0 as i128)
    }

    /// Reads a value.
    pub fn from_json(tree: &Json) -> (outcome: Result<AdiPort, DecodeError>)
        ensures
            outcome == AdiPort::read(tree@),
    {
        Ok(AdiPort(as_u8(tree)?))
    }

    /// Reads the value under the member `key` of an object.
    pub fn get(tree: &Json, key: &str) -> (outcome: Result<AdiPort, DecodeError>)
        ensures
            outcome == AdiPort::at(tree@, key@),
    {
        AdiPort::from_json(get_member(tree, key)?)
    }
}

/// A port of either family. The two families are addressed separately.
#[derive(Clone, Copy, Debug, PartialEq, Eq, Structural, Hash, PartialOrd, Ord)]
pub enum Port {
    Smart(SmartPort),
    Adi(AdiPort),
}

impl Port {
    /// How a value is written: a variant without a body as its bare name,
    /// any other as an object with one member, named after the variant.
    pub open spec fn wire(self) -> JsonView {
        match self {
            Port::Smart(inner) => tagged("Smart"@, inner.wire()),
            Port::Adi(inner) => tagged("Adi"@, inner.wire()),
        }
    }

    /// The value that a tree spells, or why it spells none.
    pub open spec fn read(tree: JsonView) -> Result<Port, DecodeError> {
        match read_variant(tree) {
            Err(e) => Err(e),
            Ok((name, body)) => if name == "Smart"@ {
                match SmartPort::read(body) {
                    Ok(inner) => Ok(Port::Smart(inner)),
                    Err(e) => Err(e),
                }
            } else if name == "Adi"@ {
                match AdiPort::read(body) {
                    Ok(inner) => Ok(Port::Adi(inner)),
                    Err(e) => Err(e),
                }
            } else {
                Err(DecodeError::UnknownTag)
            },
        }
    }

    /// The value under the member `key` of an object.
    pub open spec fn at(tree: JsonView, key: Seq<char>) -> Result<Port, DecodeError> {
        match member(tree, key) {
            Ok(v) => Port::read(v),
            Err(e) => Err(e),
        }
    }

    /// The names of the variants differ in length or in a letter.
    proof fn tags_differ()
        ensures
            "Smart"@.len() == 5,
            "Adi"@.len() == 3,
    {
        reveal_strlit("Smart");
        reveal_strlit("Adi");
    }

    /// A value that is written and read again is the same value.
    pub proof fn wire_round_trip(self)
        ensures
            Port::read(self.wire()) == Ok::<Port, DecodeError>(self),
    {
        Port::tags_differ();
        match self {
            Port::Smart(inner) => {
            inner.wire_round_trip();
            },
            Port::Adi(inner) => {
            inner.wire_round_trip();
            },
        }
    }

    /// Writes the value.
    pub fn to_json(&self) -> (tree: Json)
        ensures
            tree@ == self.wire(),
    {
        match self {
            Port::Smart(inner) => tagged_json("Smart", inner.to_json()),
            Port::Adi(inner) => tagged_json("Adi", inner.to_json()),
        }
    }

    /// Reads a value.
    pub fn from_json(tree: &Json) -> (outcome: Result<Port, DecodeError>)
        ensures
            outcome == Port::read(tree@),
    {
        let (name, given) = as_variant(tree)?;
        let absent = Json::Null;
        let body: &Json = match given {
            Some(b) => b,
            None => &absent,
        };
        if same_text(name, "Smart") {
            Ok(Port::Smart(SmartPort::from_json(body)?))
        } else if same_text(name, "Adi") {
            Ok(Port::Adi(AdiPort::from_json(body)?))
        } else {
            Err(DecodeError::UnknownTag)
        }
    }

    /// Reads the value under the member `key` of an object.
    pub fn get(tree: &Json, key: &str) -> (outcome: Result<Port, DecodeError>)
        ensures
            outcome == Port::at(tree@, key@),
    {
        Port::from_json(get_member(tree, key)?)
    }
}

/// The gear ratio of a motor.
#[derive(Clone, Copy, Debug, PartialEq, Eq, Structural, Hash, PartialOrd, Ord)]
pub enum MotorGearset {
    Red,
    Green,
    Blue,
}

impl MotorGearset {
    /// How a value is written: as the bare name of the variant.
    pub open spec fn wire(self) -> JsonView {
        match self {
            MotorGearset::Red => JsonView::Text("Red"@),
            MotorGearset::Green => JsonView::Text("Green"@),
            MotorGearset::Blue => JsonView::Text("Blue"@),
        }
    }

    /// The value that a tree spells, or why it spells none.
    pub open spec fn read(tree: JsonView) -> Result<MotorGearset, DecodeError> {
        match read_variant(tree) {
            Err(e) => Err(e),
            Ok((name, body)) => if name == "Red"@ {
                match read_unit(body) {
                    Ok(_) => Ok(MotorGearset::Red),
                    Err(e) => Err(e),
                }
            } else if name == "Green"@ {
                match read_unit(body) {
                    Ok(_) => Ok(MotorGearset::Green),
                    Err(e) => Err(e),
                }
            } else if name == "Blue"@ {
                match read_unit(body) {
                    Ok(_) => Ok(MotorGearset::Blue),
                    Err(e) => Err(e),
                }
            } else {
                Err(DecodeError::UnknownTag)
            },
        }
    }

    /// The value under the member `key` of an object.
    pub open spec fn at(tree: JsonView, key: Seq<char>) -> Result<MotorGearset, DecodeError> {
        match member(tree, key) {
            Ok(v) => MotorGearset::read(v),
            Err(e) => Err(e),
        }
    }

    /// The names of the variants differ in length or in a letter.
    proof fn tags_differ()
        ensures
            "Red"@.len() == 3,
            "Green"@.len() == 5,
            "Blue"@.len() == 4,
    {
        reveal_strlit("Red");
        reveal_strlit("Green");
        reveal_strlit("Blue");
    }

    /// A value that is written and read again is the same value.
    pub proof fn wire_round_trip(self)
        ensures
            MotorGearset::read(self.wire()) == Ok::<MotorGearset, DecodeError>(self),
    {
        MotorGearset::tags_differ();
        match self {
            MotorGearset::Red => {},
            MotorGearset::Green => {},
            MotorGearset::Blue => {},
        }
    }

    /// Writes the value.
    pub fn to_json(&self) -> (tree: Json)
        ensures
            tree@ == self.wire(),
    {
        match self {
            MotorGearset::Red => text_json("Red"),
            MotorGearset::Green => text_json("Green"),
            MotorGearset::Blue => text_json("Blue"),
        }
    }

    /// Reads a value.
    pub fn from_json(tree: &Json) -> (outcome: Result<MotorGearset, DecodeError>)
        ensures
            outcome == MotorGearset::read(tree@),
    {
        let (name, given) = as_variant(tree)?;
        if same_text(name, "Red") {
            as_unit(given)?;
            Ok(MotorGearset::Red)
        } else if same_text(name, "Green") {
            as_unit(given)?;
            Ok(MotorGearset::Green)
        } else if same_text(name, "Blue") {
            as_unit(given)?;
            Ok(MotorGearset::Blue)
        } else {
            Err(DecodeError::UnknownTag)
        }
    }

    /// Reads the value under the member `key` of an object.
    pub fn get(tree: &Json, key: &str) -> (outcome: Result<MotorGearset, DecodeError>)
        ensures
            outcome == MotorGearset::at(tree@, key@),
    {
        MotorGearset::from_json(get_member(tree, key)?)
    }
}

/// What a motor does when it is told to stop.
#[derive(Clone, Copy, Debug, PartialEq, Eq, Structural, Hash, PartialOrd, Ord)]
pub enum MotorBrakeMode {
    Coast,
    Brake,
    Hold,
}

impl MotorBrakeMode {
    /// How a value is written: as the bare name of the variant.
    pub open spec fn wire(self) -> JsonView {
        match self {
            MotorBrakeMode::Coast => JsonView::Text("Coast"@),
            MotorBrakeMode::Brake => JsonView::Text("Brake"@),
            MotorBrakeMode::Hold => JsonView::Text("Hold"@),
        }
    }

    /// The value that a tree spells, or why it spells none.
    pub open spec fn read(tree: JsonView) -> Result<MotorBrakeMode, DecodeError> {
        match read_variant(tree) {
            Err(e) => Err(e),
            Ok((name, body)) => if name == "Coast"@ {
                match read_unit(body) {
                    Ok(_) => Ok(MotorBrakeMode::Coast),
                    Err(e) => Err(e),
                }
            } else if name == "Brake"@ {
                match read_unit(body) {
                    Ok(_) => Ok(MotorBrakeMode::Brake),
                    Err(e) => Err(e),
                }
            } else if name == "Hold"@ {
                match read_unit(body) {
                    Ok(_) => Ok(MotorBrakeMode::Hold),
                    Err(e) => Err(e),
                }
            } else {
                Err(DecodeError::UnknownTag)
            },
        }
    }

    /// The value under the member `key` of an object.
    pub open spec fn at(tree: JsonView, key: Seq<char>) -> Result<MotorBrakeMode, DecodeError> {
        match member(tree, key) {
            Ok(v) => MotorBrakeMode::read(v),
            Err(e) => Err(e),
        }
    }

    /// The names of the variants differ in length or in a letter.
    proof fn tags_differ()
        ensures
            "Coast"@.len() == 5 && "Coast"@[0] == 'C',
            "Brake"@.len() == 5 && "Brake"@[0] == 'B',
            "Hold"@.len() == 4,
    {
        reveal_strlit("Coast");
        reveal_strlit("Brake");
        reveal_strlit("Hold");
    }

    /// A value that is written and read again is the same value.
    pub proof fn wire_round_trip(self)
        ensures
            MotorBrakeMode::read(self.wire()) == Ok::<MotorBrakeMode, DecodeError>(self),
    {
        MotorBrakeMode::tags_differ();
        match self {
            MotorBrakeMode::Coast => {},
            MotorBrakeMode::Brake => {},
            MotorBrakeMode::Hold => {},
        }
    }

    /// Writes the value.
    pub fn to_json(&self) -> (tree: Json)
        ensures
            tree@ == self.wire(),
    {
        match self {
            MotorBrakeMode::Coast => text_json("Coast"),
            MotorBrakeMode::Brake => text_json("Brake"),
            MotorBrakeMode::Hold => text_json("Hold"),
        }
    }

    /// Reads a value.
    pub fn from_json(tree: &Json) -> (outcome: Result<MotorBrakeMode, DecodeError>)
        ensures
            outcome == MotorBrakeMode::read(tree@),
    {
        let (name, given) = as_variant(tree)?;
        if same_text(name, "Coast") {
            as_unit(given)?;
            Ok(MotorBrakeMode::Coast)
        } else if same_text(name, "Brake") {
            as_unit(given)?;
            Ok(MotorBrakeMode::Brake)
        } else if same_text(name, "Hold") {
            as_unit(given)?;
            Ok(MotorBrakeMode::Hold)
        } else {
            Err(DecodeError::UnknownTag)
        }
    }

    /// Reads the value under the member `key` of an object.
    pub fn get(tree: &Json, key: &str) -> (outcome: Result<MotorBrakeMode, DecodeError>)
        ensures
            outcome == MotorBrakeMode::at(tree@, key@),
    {
        MotorBrakeMode::from_json(get_member(tree, key)?)
    }
}

/// The role of a radio in a link between two robots.
#[derive(Clone, Copy, Debug, PartialEq, Eq, Structural, Hash, PartialOrd, Ord)]
pub enum LinkMode {
    Manager,
    Worker,
}

impl LinkMode {
    /// How a value is written: as the bare name of the variant.
    pub open spec fn wire(self) -> JsonView {
        match self {
            LinkMode::Manager => JsonView::Text("Manager"@),
            LinkMode::Worker => JsonView::Text("Worker"@),
        }
    }

    /// The value that a tree spells, or why it spells none.
    pub open spec fn read(tree: JsonView) -> Result<LinkMode, DecodeError> {
        match read_variant(tree) {
            Err(e) => Err(e),
            Ok((name, body)) => if name == "Manager"@ {
                match read_unit(body) {
                    Ok(_) => Ok(LinkMode::Manager),
                    Err(e) => Err(e),
                }
            } else if name == "Worker"@ {
                match read_unit(body) {
                    Ok(_) => Ok(LinkMode::Worker),
                    Err(e) => Err(e),
                }
            } else {
                Err(DecodeError::UnknownTag)
            },
        }
    }

    /// The value under the member `key` of an object.
    pub open spec fn at(tree: JsonView, key: Seq<char>) -> Result<LinkMode, DecodeError> {
        match member(tree, key) {
            Ok(v) => LinkMode::read(v),
            Err(e) => Err(e),
        }
    }

    /// The names of the variants differ in length or in a letter.
    proof fn tags_differ()
        ensures
            "Manager"@.len() == 7,
            "Worker"@.len() == 6,
    {
        reveal_strlit("Manager");
        reveal_strlit("Worker");
    }

    /// A value that is written and read again is the same value.
    pub proof fn wire_round_trip(self)
        ensures
            LinkMode::read(self.wire()) == Ok::<LinkMode, DecodeError>(self),
    {
        LinkMode::tags_differ();
        match self {
            LinkMode::Manager => {},
            LinkMode::Worker => {},
        }
    }

    /// Writes the value.
    pub fn to_json(&self) -> (tree: Json)
        ensures
            tree@ == self.wire(),
    {
        match self {
            LinkMode::Manager => text_json("Manager"),
            LinkMode::Worker => text_json("Worker"),
        }
    }

    /// Reads a value.
    pub fn from_json(tree: &Json) -> (outcome: Result<LinkMode, DecodeError>)
        ensures
            outcome == LinkMode::read(tree@),
    {
        let (name, given) = as_variant(tree)?;
        if same_text(name, "Manager") {
            as_unit(given)?;
            Ok(LinkMode::Manager)
        } else if same_text(name, "Worker") {
            as_unit(given)?;
            Ok(LinkMode::Worker)
        } else {
            Err(DecodeError::UnknownTag)
        }
    }

    /// Reads the value under the member `key` of an object.
    pub fn get(tree: &Json, key: &str) -> (outcome: Result<LinkMode, DecodeError>)
        ensures
            outcome == LinkMode::at(tree@, key@),
    {
        LinkMode::from_json(get_member(tree, key)?)
    }
}

/// The configuration of a device. The union is open: later revisions may add devices.
#[derive(Clone, Copy, Debug, PartialEq, Eq, Structural)]
#[non_exhaustive]
pub enum Device {
    Motor { physical_gearset: MotorGearset, moment_of_inertia: Number },
}

impl Device {
    /// How a value is written: a variant without a body as its bare name,
    /// any other as an object with one member, named after the variant.
    pub open spec fn wire(self) -> JsonView {
        match self {
            Device::Motor { physical_gearset, moment_of_inertia } => tagged(
                "Motor"@,
                Device::motor_wire(physical_gearset, moment_of_inertia),
            ),
        }
    }

    /// The body of `Motor`: one member for each field.
    pub open spec fn motor_wire(
        physical_gearset: MotorGearset,
        moment_of_inertia: Number,
    ) -> JsonView {
        JsonView::Object(
            no_members().push(("physical_gearset"@, physical_gearset.wire())).push(
                ("moment_of_inertia"@, JsonView::Number(moment_of_inertia)),
            ),
        )
    }

    /// What the body of `Motor` spells: the fields are read in their order,
    /// and the first that cannot be read gives the error.
    pub open spec fn read_motor(body: JsonView) -> Result<Device, DecodeError> {
        let physical_gearset = MotorGearset::at(body, "physical_gearset"@);
        let moment_of_inertia = number_at(body, "moment_of_inertia"@);
        if physical_gearset is Err {
            Err(physical_gearset->Err_0)
        } else if moment_of_inertia is Err {
            Err(moment_of_inertia->Err_0)
        } else {
            Ok(
                Device::Motor {
                    physical_gearset: physical_gearset->Ok_0,
                    moment_of_inertia: moment_of_inertia->Ok_0,
                },
            )
        }
    }

    /// The value that a tree spells, or why it spells none.
    pub open spec fn read(tree: JsonView) -> Result<Device, DecodeError> {
        match read_variant(tree) {
            Err(e) => Err(e),
            Ok((name, body)) => if name == "Motor"@ {
                Device::read_motor(body)
            } else {
                Err(DecodeError::UnrecognizedVariant(OpenUnion::Device))
            },
        }
    }

    /// The value under the member `key` of an object.
    pub open spec fn at(tree: JsonView, key: Seq<char>) -> Result<Device, DecodeError> {
        match member(tree, key) {
            Ok(v) => Device::read(v),
            Err(e) => Err(e),
        }
    }

    /// The names of the variants differ in length or in a letter.
    proof fn tags_differ()
        ensures
            "Motor"@.len() == 5,
    {
        reveal_strlit("Motor");
    }

    /// The members of `Motor` have different names.
    proof fn motor_names()
        ensures
            "physical_gearset"@.len() == 16,
            "moment_of_inertia"@.len() == 17,
    {
        reveal_strlit("physical_gearset");
        reveal_strlit("moment_of_inertia");
    }

    /// The body of `Motor` reads back as the fields that it was written from.
    proof fn motor_reads_back(physical_gearset: MotorGearset, moment_of_inertia: Number)
        ensures
            Device::read_motor(Device::motor_wire(physical_gearset, moment_of_inertia))
                == Ok::<Device, DecodeError>(Device::Motor { physical_gearset, moment_of_inertia }),
    {
        Device::motor_names();
        let members = Device::motor_wire(physical_gearset, moment_of_inertia)->Object_0;
        member_found(members, 0);
        member_found(members, 1);
        physical_gearset.wire_round_trip();
    }

    /// A value that is written and read again is the same value.
    pub proof fn wire_round_trip(self)
        ensures
            Device::read(self.wire()) == Ok::<Device, DecodeError>(self),
    {
        Device::tags_differ();
        match self {
            Device::Motor { physical_gearset, moment_of_inertia } => {
            Device::motor_reads_back(physical_gearset, moment_of_inertia);
            },
        }
    }

    /// Writes the value.
    pub fn to_json(&self) -> (tree: Json)
        ensures
            tree@ == self.wire(),
    {
        match self {
            Device::Motor { physical_gearset, moment_of_inertia } => {
            let mut members: Vec<(String, Json)> = Vec::new();
            put(&mut members, "physical_gearset", physical_gearset.to_json());
            put(&mut members, "moment_of_inertia", Json::Number(*moment_of_inertia));
            tagged_json("Motor", object(members))
            },
        }
    }

    /// Reads the body of `Motor`.
    fn motor_from_json(body: &Json) -> (outcome: Result<Device, DecodeError>)
        ensures
            outcome == Device::read_motor(body@),
    {
        let physical_gearset = MotorGearset::get(body, "physical_gearset")?;
        let moment_of_inertia = get_number(body, "moment_of_inertia")?;
        Ok(Device::Motor { physical_gearset, moment_of_inertia })
    }

    /// Reads a value.
    pub fn from_json(tree: &Json) -> (outcome: Result<Device, DecodeError>)
        ensures
            outcome == Device::read(tree@),
    {
        let (name, given) = as_variant(tree)?;
        let absent = Json::Null;
        let body: &Json = match given {
            Some(b) => b,
            None => &absent,
        };
        if same_text(name, "Motor") {
            Device::motor_from_json(body)
        } else {
            Err(DecodeError::UnrecognizedVariant(OpenUnion::Device))
        }
    }

    /// Reads the value under the member `key` of an object.
    pub fn get(tree: &Json, key: &str) -> (outcome: Result<Device, DecodeError>)
        ensures
            outcome == Device::at(tree@, key@),
    {
        Device::from_json(get_member(tree, key)?)
    }
}

/// The state of a device. The union is open: later revisions may add devices.
#[derive(Clone, Copy, Debug, PartialEq, Eq, Structural)]
#[non_exhaustive]
pub enum DeviceStatus {
    Motor {
        velocity: Number,
        reversed: bool,
        power_draw: Number,
        torque_output: Number,
        flags: i32,
        position: Number,
        target_position: Number,
        voltage: Number,
        gearset: MotorGearset,
        brake_mode: MotorBrakeMode,
    },
}

impl DeviceStatus {
    /// How a value is written: a variant without a body as its bare name,
    /// any other as an object with one member, named after the variant.
    pub open spec fn wire(self) -> JsonView {
        match self {
            DeviceStatus::Motor {
                velocity,
                reversed,
                power_draw,
                torque_output,
                flags,
                position,
                target_position,
                voltage,
                gearset,
                brake_mode,
            } => tagged(
                "Motor"@,
                DeviceStatus::motor_wire(
                    velocity,
                    reversed,
                    power_draw,
                    torque_output,
                    flags,
                    position,
                    target_position,
                    voltage,
                    gearset,
                    brake_mode,
                ),
            ),
        }
    }

    /// The body of `Motor`: one member for each field.
    pub open spec fn motor_wire(
        velocity: Number,
        reversed: bool,
        power_draw: Number,
        torque_output: Number,
        flags: i32,
        position: Number,
        target_position: Number,
        voltage: Number,
        gearset: MotorGearset,
        brake_mode: MotorBrakeMode,
    ) -> JsonView {
        JsonView::Object(
            no_members()
                .push(("velocity"@, JsonView::Number(velocity)))
                .push(("reversed"@, JsonView::Bool(reversed)))
                .push(("power_draw"@, JsonView::Number(power_draw)))
                .push(("torque_output"@, JsonView::Number(torque_output)))
                .push(("flags"@, whole(flags as int)))
                .push(("position"@, JsonView::Number(position)))
                .push(("target_position"@, JsonView::Number(target_position)))
                .push(("voltage"@, JsonView::Number(voltage)))
                .push(("gearset"@, gearset.wire()))
                .push(("brake_mode"@, brake_mode.wire())),
        )
    }

    /// What the body of `Motor` spells: the fields are read in their order,
    /// and the first that cannot be read gives the error.
    pub open spec fn read_motor(body: JsonView) -> Result<DeviceStatus, DecodeError> {
        let velocity = number_at(body, "velocity"@);
        let reversed = bool_at(body, "reversed"@);
        let power_draw = number_at(body, "power_draw"@);
        let torque_output = number_at(body, "torque_output"@);
        let flags = i32_at(body, "flags"@);
        let position = number_at(body, "position"@);
        let target_position = number_at(body, "target_position"@);
        let voltage = number_at(body, "voltage"@);
        let gearset = MotorGearset::at(body, "gearset"@);
        let brake_mode = MotorBrakeMode::at(body, "brake_mode"@);
        if velocity is Err {
            Err(velocity->Err_0)
        } else if reversed is Err {
            Err(reversed->Err_0)
        } else if power_draw is Err {
            Err(power_draw->Err_0)
        } else if torque_output is Err {
            Err(torque_output->Err_0)
        } else if flags is Err {
            Err(flags->Err_0)
        } else if position is Err {
            Err(position->Err_0)
        } else if target_position is Err {
            Err(target_position->Err_0)
        } else if voltage is Err {
            Err(voltage->Err_0)
        } else if gearset is Err {
            Err(gearset->Err_0)
        } else if brake_mode is Err {
            Err(brake_mode->Err_0)
        } else {
            Ok(
                DeviceStatus::Motor {
                    velocity: velocity->Ok_0,
                    reversed: reversed->Ok_0,
                    power_draw: power_draw->Ok_0,
                    torque_output: torque_output->Ok_0,
                    flags: flags->Ok_0,
                    position: position->Ok_0,
                    target_position: target_position->Ok_0,
                    voltage: voltage->Ok_0,
                    gearset: gearset->Ok_0,
                    brake_mode: brake_mode->Ok_0,
                },
            )
        }
    }

    /// The value that a tree spells, or why it spells none.
    pub open spec fn read(tree: JsonView) -> Result<DeviceStatus, DecodeError> {
        match read_variant(tree) {
            Err(e) => Err(e),
            Ok((name, body)) => if name == "Motor"@ {
                DeviceStatus::read_motor(body)
            } else {
                Err(DecodeError::UnrecognizedVariant(OpenUnion::DeviceStatus))
            },
        }
    }

    /// The value under the member `key` of an object.
    pub open spec fn at(tree: JsonView, key: Seq<char>) -> Result<DeviceStatus, DecodeError> {
        match member(tree, key) {
            Ok(v) => DeviceStatus::read(v),
            Err(e) => Err(e),
        }
    }

    /// The names of the variants differ in length or in a letter.
    proof fn tags_differ()
        ensures
            "Motor"@.len() == 5,
    {
        reveal_strlit("Motor");
    }

    /// The members of `Motor` have different names.
    proof fn motor_names()
        ensures
            "velocity"@.len() == 8 && "velocity"@[0] == 'v',
            "reversed"@.len() == 8 && "reversed"@[0] == 'r',
            "power_draw"@.len() == 10 && "power_draw"@[0] == 'p',
            "torque_output"@.len() == 13,
            "flags"@.len() == 5,
            "position"@.len() == 8 && "position"@[0] == 'p',
            "target_position"@.len() == 15,
            "voltage"@.len() == 7 && "voltage"@[0] == 'v',
            "gearset"@.len() == 7 && "gearset"@[0] == 'g',
            "brake_mode"@.len() == 10 && "brake_mode"@[0] == 'b',
    {
        reveal_strlit("velocity");
        reveal_strlit("reversed");
        reveal_strlit("power_draw");
        reveal_strlit("torque_output");
        reveal_strlit("flags");
        reveal_strlit("position");
        reveal_strlit("target_position");
        reveal_strlit("voltage");
        reveal_strlit("gearset");
        reveal_strlit("brake_mode");
    }

    /// The members from `velocity` to `flags` are found under their names.
    proof fn motor_members_1(
        velocity: Number,
        reversed: bool,
        power_draw: Number,
        torque_output: Number,
        flags: i32,
        position: Number,
        target_position: Number,
        voltage: Number,
        gearset: MotorGearset,
        brake_mode: MotorBrakeMode,
    )
        ensures
            member(
                DeviceStatus::motor_wire(
                    velocity,
                    reversed,
                    power_draw,
                    torque_output,
                    flags,
                    position,
                    target_position,
                    voltage,
                    gearset,
                    brake_mode,
                ),
                "velocity"@,
            )
                == Ok::<JsonView, DecodeError>(
                JsonView::Number(velocity),
            ),
            member(
                DeviceStatus::motor_wire(
                    velocity,
                    reversed,
                    power_draw,
                    torque_output,
                    flags,
                    position,
                    target_position,
                    voltage,
                    gearset,
                    brake_mode,
                ),
                "reversed"@,
            )
                == Ok::<JsonView, DecodeError>(
                JsonView::Bool(reversed),
            ),
            member(
                DeviceStatus::motor_wire(
                    velocity,
                    reversed,
                    power_draw,
                    torque_output,
                    flags,
                    position,
                    target_position,
                    voltage,
                    gearset,
                    brake_mode,
                ),
                "power_draw"@,
            )
                == Ok::<JsonView, DecodeError>(
                JsonView::Number(power_draw),
            ),
            member(
                DeviceStatus::motor_wire(
                    velocity,
                    reversed,
                    power_draw,
                    torque_output,
                    flags,
                    position,
                    target_position,
                    voltage,
                    gearset,
                    brake_mode,
                ),
                "torque_output"@,
            )
                == Ok::<JsonView, DecodeError>(
                JsonView::Number(torque_output),
            ),
            member(
                DeviceStatus::motor_wire(
                    velocity,
                    reversed,
                    power_draw,
                    torque_output,
                    flags,
                    position,
                    target_position,
                    voltage,
                    gearset,
                    brake_mode,
                ),
                "flags"@,
            )
                == Ok::<JsonView, DecodeError>(
                whole(flags as int),
            ),
    {
        DeviceStatus::motor_names();
        let members = DeviceStatus::motor_wire(
            velocity,
            reversed,
            power_draw,
            torque_output,
            flags,
            position,
            target_position,
            voltage,
            gearset,
            brake_mode,
        )->Object_0;
        member_found(members, 0);
        member_found(members, 1);
        member_found(members, 2);
        member_found(members, 3);
        member_found(members, 4);
    }

    /// The members from `position` to `brake_mode` are found under their names.
    proof fn motor_members_2(
        velocity: Number,
        reversed: bool,
        power_draw: Number,
        torque_output: Number,
        flags: i32,
        position: Number,
        target_position: Number,
        voltage: Number,
        gearset: MotorGearset,
        brake_mode: MotorBrakeMode,
    )
        ensures
            member(
                DeviceStatus::motor_wire(
                    velocity,
                    reversed,
                    power_draw,
                    torque_output,
                    flags,
                    position,
                    target_position,
                    voltage,
                    gearset,
                    brake_mode,
                ),
                "position"@,
            )
                == Ok::<JsonView, DecodeError>(
                JsonView::Number(position),
            ),
            member(
                DeviceStatus::motor_wire(
                    velocity,
                    reversed,
                    power_draw,
                    torque_output,
                    flags,
                    position,
                    target_position,
                    voltage,
                    gearset,
                    brake_mode,
                ),
                "target_position"@,
            )
                == Ok::<JsonView, DecodeError>(
                JsonView::Number(target_position),
            ),
            member(
                DeviceStatus::motor_wire(
                    velocity,
                    reversed,
                    power_draw,
                    torque_output,
                    flags,
                    position,
                    target_position,
                    voltage,
                    gearset,
                    brake_mode,
                ),
                "voltage"@,
            )
                == Ok::<JsonView, DecodeError>(
                JsonView::Number(voltage),
            ),
            member(
                DeviceStatus::motor_wire(
                    velocity,
                    reversed,
                    power_draw,
                    torque_output,
                    flags,
                    position,
                    target_position,
                    voltage,
                    gearset,
                    brake_mode,
                ),
                "gearset"@,
            )
                == Ok::<JsonView, DecodeError>(
                gearset.wire(),
            ),
            member(
                DeviceStatus::motor_wire(
                    velocity,
                    reversed,
                    power_draw,
                    torque_output,
                    flags,
                    position,
                    target_position,
                    voltage,
                    gearset,
                    brake_mode,
                ),
                "brake_mode"@,
            )
                == Ok::<JsonView, DecodeError>(
                brake_mode.wire(),
            ),
    {
        DeviceStatus::motor_names();
        let members = DeviceStatus::motor_wire(
            velocity,
            reversed,
            power_draw,
            torque_output,
            flags,
            position,
            target_position,
            voltage,
            gearset,
            brake_mode,
        )->Object_0;
        member_found(members, 5);
        member_found(members, 6);
        member_found(members, 7);
        member_found(members, 8);
        member_found(members, 9);
    }

    /// The body of `Motor` reads back as the fields that it was written from.
    proof fn motor_reads_back(
        velocity: Number,
        reversed: bool,
        power_draw: Number,
        torque_output: Number,
        flags: i32,
        position: Number,
        target_position: Number,
        voltage: Number,
        gearset: MotorGearset,
        brake_mode: MotorBrakeMode,
    )
        ensures
            DeviceStatus::read_motor(
                DeviceStatus::motor_wire(
                    velocity,
                    reversed,
                    power_draw,
                    torque_output,
                    flags,
                    position,
                    target_position,
                    voltage,
                    gearset,
                    brake_mode,
                ),
            )
                == Ok::<DeviceStatus, DecodeError>(
                    DeviceStatus::Motor {
                        velocity,
                        reversed,
                        power_draw,
                        torque_output,
                        flags,
                        position,
                        target_position,
                        voltage,
                        gearset,
                        brake_mode,
                    },
                ),
    {
        DeviceStatus::motor_members_1(
            velocity,
            reversed,
            power_draw,
            torque_output,
            flags,
            position,
            target_position,
            voltage,
            gearset,
            brake_mode,
        );
        DeviceStatus::motor_members_2(
            velocity,
            reversed,
            power_draw,
            torque_output,
            flags,
            position,
            target_position,
            voltage,
            gearset,
            brake_mode,
        );
        gearset.wire_round_trip();
        brake_mode.wire_round_trip();
    }

    /// A value that is written and read again is the same value.
    pub proof fn wire_round_trip(self)
        ensures
            DeviceStatus::read(self.wire()) == Ok::<DeviceStatus, DecodeError>(self),
    {
        DeviceStatus::tags_differ();
        match self {
            DeviceStatus::Motor {
                velocity,
                reversed,
                power_draw,
                torque_output,
                flags,
                position,
                target_position,
                voltage,
                gearset,
                brake_mode,
            } => {
            DeviceStatus::motor_reads_back(
                velocity,
                reversed,
                power_draw,
                torque_output,
                flags,
                position,
                target_position,
                voltage,
                gearset,
                brake_mode,
            );
            },
        }
    }

    /// Writes the value.
    pub fn to_json(&self) -> (tree: Json)
        ensures
            tree@ == self.wire(),
    {
        match self {
            DeviceStatus::Motor {
                velocity,
                reversed,
                power_draw,
                torque_output,
                flags,
                position,
                target_position,
                voltage,
                gearset,
                brake_mode,
            } => {
            let mut members: Vec<(String, Json)> = Vec::new();
            put(&mut members, "velocity", Json::Number(*velocity));
            put(&mut members, "reversed", Json::Bool(*reversed));
            put(&mut members, "power_draw", Json::Number(*power_draw));
            put(&mut members, "torque_output", Json::Number(*torque_output));
            put(&mut members, "flags", whole_json(*flags as i128));
            put(&mut members, "position", Json::Number(*position));
            put(&mut members, "target_position", Json::Number(*target_position));
            put(&mut members, "voltage", Json::Number(*voltage));
            put(&mut members, "gearset", gearset.to_json());
            put(&mut members, "brake_mode", brake_mode.to_json());
            tagged_json("Motor", object(members))
            },
        }
    }

    /// Reads the body of `Motor`.
    fn motor_from_json(body: &Json) -> (outcome: Result<DeviceStatus, DecodeError>)
        ensures
            outcome == DeviceStatus::read_motor(body@),
    {
        let velocity = get_number(body, "velocity")?;
        let reversed = get_bool(body, "reversed")?;
        let power_draw = get_number(body, "power_draw")?;
        let torque_output = get_number(body, "torque_output")?;
        let flags = get_i32(body, "flags")?;
        let position = get_number(body, "position")?;
        let target_position = get_number(body, "target_position")?;
        let voltage = get_number(body, "voltage")?;
        let gearset = MotorGearset::get(body, "gearset")?;
        let brake_mode = MotorBrakeMode::get(body, "brake_mode")?;
        Ok(
            DeviceStatus::Motor {
                velocity,
                reversed,
                power_draw,
                torque_output,
                flags,
                position,
                target_position,
                voltage,
                gearset,
                brake_mode,
            },
        )
    }

    /// Reads a value.
    pub fn from_json(tree: &Json) -> (outcome: Result<DeviceStatus, DecodeError>)
        ensures
            outcome == DeviceStatus::read(tree@),
    {
        let (name, given) = as_variant(tree)?;
        let absent = Json::Null;
        let body: &Json = match given {
            Some(b) => b,
            None => &absent,
        };
        if same_text(name, "Motor") {
            DeviceStatus::motor_from_json(body)
        } else {
            Err(DecodeError::UnrecognizedVariant(OpenUnion::DeviceStatus))
        }
    }

    /// Reads the value under the member `key` of an object.
    pub fn get(tree: &Json, key: &str) -> (outcome: Result<DeviceStatus, DecodeError>)
        ensures
            outcome == DeviceStatus::at(tree@, key@),
    {
        DeviceStatus::from_json(get_member(tree, key)?)
    }
}

/// The state of the battery. No range is enforced on its numbers.
#[derive(Clone, Copy, Debug, PartialEq, Eq, Structural)]
pub struct Battery {
    pub voltage: Number,
    pub current: Number,
    pub capacity: Number,
}

impl Battery {
    /// How a value is written: an object with one member for each field, in
    /// the order of the fields.
    pub open spec fn wire(self) -> JsonView {
        JsonView::Object(
            no_members()
                .push(("voltage"@, JsonView::Number(self.voltage)))
                .push(("current"@, JsonView::Number(self.current)))
                .push(("capacity"@, JsonView::Number(self.capacity))),
        )
    }

    /// The value that a tree spells, or why it spells none: the fields are
    /// read in their order, and the first that cannot be read gives the error.
    pub open spec fn read(tree: JsonView) -> Result<Battery, DecodeError> {
        let voltage = number_at(tree, "voltage"@);
        let current = number_at(tree, "current"@);
        let capacity = number_at(tree, "capacity"@);
        if voltage is Err {
            Err(voltage->Err_0)
        } else if current is Err {
            Err(current->Err_0)
        } else if capacity is Err {
            Err(capacity->Err_0)
        } else {
            Ok(Battery { voltage: voltage->Ok_0, current: current->Ok_0, capacity: capacity->Ok_0 })
        }
    }

    /// The value under the member `key` of an object.
    pub open spec fn at(tree: JsonView, key: Seq<char>) -> Result<Battery, DecodeError> {
        match member(tree, key) {
            Ok(v) => Battery::read(v),
            Err(e) => Err(e),
        }
    }

    /// The members have different names.
    proof fn names_differ()
        ensures
            "voltage"@.len() == 7 && "voltage"@[0] == 'v',
            "current"@.len() == 7 && "current"@[0] == 'c',
            "capacity"@.len() == 8,
    {
        reveal_strlit("voltage");
        reveal_strlit("current");
        reveal_strlit("capacity");
    }

    /// A value that is written and read again is the same value.
    pub proof fn wire_round_trip(self)
        ensures
            Battery::read(self.wire()) == Ok::<Battery, DecodeError>(self),
    {
        Battery::names_differ();
        let members = self.wire()->Object_0;
        member_found(members, 0);
        member_found(members, 1);
        member_found(members, 2);
    }

    /// Writes the value.
    pub fn to_json(&self) -> (tree: Json)
        ensures
            tree@ == self.wire(),
    {
        let mut members: Vec<(String, Json)> = Vec::new();
        put(&mut members, "voltage", Json::Number(self.voltage));
        put(&mut members, "current", Json::Number(self.current));
        put(&mut members, "capacity", Json::Number(self.capacity));
        object(members)
    }

    /// Reads a value.
    pub fn from_json(tree: &Json) -> (outcome: Result<Battery, DecodeError>)
        ensures
            outcome == Battery::read(tree@),
    {
        let voltage = get_number(tree, "voltage")?;
        let current = get_number(tree, "current")?;
        let capacity = get_number(tree, "capacity")?;
        Ok(Battery { voltage, current, capacity })
    }

    /// Reads the value under the member `key` of an object.
    pub fn get(tree: &Json, key: &str) -> (outcome: Result<Battery, DecodeError>)
        ensures
            outcome == Battery::at(tree@, key@),
    {
        Battery::from_json(get_member(tree, key)?)
    }
}

/// A device of a later revision is not an error of the stream: whatever its
/// body, a variant that is not `Motor` reads as an unrecognized variant of
/// its union, both as a configuration and as a state.
pub proof fn later_device_is_unrecognized(name: Seq<char>, body: JsonView)
    requires
        name != "Motor"@,
    ensures
        Device::read(tagged(name, body)) == Err::<Device, DecodeError>(
            DecodeError::UnrecognizedVariant(OpenUnion::Device),
        ),
        DeviceStatus::read(tagged(name, body)) == Err::<DeviceStatus, DecodeError>(
            DecodeError::UnrecognizedVariant(OpenUnion::DeviceStatus),
        ),
{
}

/// The devices that were configured, port by port. Configuring a port again
/// replaces what was configured there.
pub struct DeviceTable {
    slots: Vec<(Port, Device)>,
}

impl View for DeviceTable {
    type V = Map<Port, Device>;

    /// The device of each configured port.
    closed spec fn view(&self) -> Map<Port, Device> {
        Map::new(
            |port: Port| exists|i: int| 0 <= i < self.slots@.len() && self.slots@[i].0 == port,
            |port: Port|
                {
                    let at = choose|i: int| 0 <= i < self.slots@.len() && self.slots@[i].0 == port;
                    self.slots@[at].1
                },
        )
    }
}

impl DeviceTable {
    #[verifier::type_invariant]
    spec fn no_port_twice(self) -> bool {
        forall|i: int, j: int|
            0 <= i < j < self.slots@.len() ==> self.slots@[i].0 != self.slots@[j].0
    }

    /// A table in which no port is configured.
    pub fn new() -> (table: DeviceTable)
        ensures
            table@ == Map::<Port, Device>::empty(),
    {
        let table = DeviceTable { slots: Vec::new() };
        assert(table@ =~= Map::<Port, Device>::empty());
        table
    }

    /// Takes note of a `ConfigureDevice`: `device` is now what is plugged
    /// into `port`, whatever was there before. Other ports keep their device.
    pub fn configure(&mut self, port: Port, device: Device)
        ensures
            final(self)@ == old(self)@.insert(port, device),
    {
        proof {
            use_type_invariant(&*self);
        }
        let ghost before = self.slots@;
        let ghost was = self@;
        let mut next: Vec<(Port, Device)> = Vec::new();
        let mut found = false;
        let mut i: usize = 0;
        while i < self.slots.len()
            invariant
                i <= self.slots.len(),
                self.slots@ == before,
                next@.len() == i,
                forall|k: int| 0 <= k < i ==> (#[trigger] next@[k]).0 == before[k].0,
                forall|k: int|
                    0 <= k < i ==> (#[trigger] next@[k]).1 == if before[k].0 == port {
                        device
                    } else {
                        before[k].1
                    },
                found <==> exists|k: int| 0 <= k < i && before[k].0 == port,
            decreases self.slots.len() - i,
        {
            if self.slots[i].0 == port {
                next.push((port, device));
                found = true;
            } else {
                next.push(self.slots[i]);
            }
            i += 1;
        }
        if !found {
            next.push((port, device));
        }
        proof {
            let after = next@;
            assert forall|a: int, b: int| 0 <= a < b < after.len() implies after[a].0
                != after[b].0 by {
                if b < before.len() {
                    assert(after[a].0 == before[a].0);
                    assert(after[b].0 == before[b].0);
                } else {
                    assert(after[a].0 == before[a].0);
                }
            }
        }
        self.slots = next;
        proof {
            let after = self.slots@;
            assert forall|q: Port| #[trigger] was.insert(port, device).dom().contains(q)
                <==> self@.dom().contains(q) by {
                if was.dom().contains(q) {
                    let w = choose|w: int| 0 <= w < before.len() && before[w].0 == q;
                    assert(after[w].0 == q);
                }
                if self@.dom().contains(q) && q != port {
                    let w = choose|w: int| 0 <= w < after.len() && after[w].0 == q;
                    assert(w < before.len());
                    assert(before[w].0 == q);
                }
                if found {
                    let k = choose|k: int| 0 <= k < before.len() && before[k].0 == port;
                    assert(after[k].0 == port);
                } else {
                    assert(after[after.len() - 1].0 == port);
                }
            }
            assert forall|q: Port| self@.dom().contains(q) implies #[trigger] self@[q]
                == was.insert(port, device)[q] by {
                let w = choose|w: int| 0 <= w < after.len() && after[w].0 == q;
                if q != port {
                    let v = choose|v: int| 0 <= v < before.len() && before[v].0 == q;
                    assert(w < before.len());
                    assert(before[w].0 == q);
                    assert(v == w);
                } else {
                    if w < before.len() {
                        assert(before[w].0 == port);
                    }
                }
            }
            assert(self@ =~= was.insert(port, device));
        }
    }

    /// The device that is configured at `port`, if any.
    pub fn device_at(&self, port: Port) -> (found: Option<Device>)
        ensures
            found == if self@.dom().contains(port) {
                Some(self@[port])
            } else {
                None::<Device>
            },
    {
        proof {
            use_type_invariant(self);
        }
        let mut i: usize = 0;
        while i < self.slots.len()
            invariant
                i <= self.slots.len(),
                self.no_port_twice(),
                forall|k: int| 0 <= k < i ==> self.slots@[k].0 != port,
            decreases self.slots.len() - i,
        {
            if self.slots[i].0 == port {
                proof {
                    assert(self.slots@[i as int].0 == port);
                    let w = choose|w: int| 0 <= w < self.slots@.len() && self.slots@[w].0 == port;
                    assert(w == i);
                }
                return Some(self.slots[i].1);
            }
            i += 1;
        }
        None
    }

    /// The number of configured ports.
    pub fn len(&self) -> (n: usize)
        ensures
            n == self@.dom().len(),
            self@.dom().finite(),
    {
        proof {
            use_type_invariant(self);
            ports_are_counted(self.slots@);
            assert(self@.dom() =~= ports_of(self.slots@));
        }
        self.slots.len()
    }
}

/// The ports that a list of slots names.
pub open spec fn ports_of(slots: Seq<(Port, Device)>) -> Set<Port> {
    Set::new(|port: Port| exists|i: int| 0 <= i < slots.len() && slots[i].0 == port)
}

/// A list that names no port twice names as many ports as it is long.
pub proof fn ports_are_counted(slots: Seq<(Port, Device)>)
    requires
        forall|i: int, j: int| 0 <= i < j < slots.len() ==> slots[i].0 != slots[j].0,
    ensures
        ports_of(slots).finite(),
        ports_of(slots).len() == slots.len(),
    decreases slots.len(),
{
    if slots.len() == 0 {
        assert(ports_of(slots) =~= Set::<Port>::empty());
    } else {
        let front = slots.drop_last();
        ports_are_counted(front);
        let last = slots.last().0;
        assert forall|q: Port| #[trigger] ports_of(slots).contains(q) <==> ports_of(front).insert(
            last,
        ).contains(q) by {
            if ports_of(slots).contains(q) && q != last {
                let i = choose|i: int| 0 <= i < slots.len() && slots[i].0 == q;
                assert(front[i].0 == q);
            }
            if ports_of(front).contains(q) {
                let i = choose|i: int| 0 <= i < front.len() && front[i].0 == q;
                assert(slots[i].0 == q);
            }
            assert(slots[slots.len() - 1].0 == last);
        }
        assert(ports_of(slots) =~= ports_of(front).insert(last));
        if ports_of(front).contains(last) {
            let i = choose|i: int| 0 <= i < front.len() && front[i].0 == last;
            assert(slots[i].0 == last);
        }
    }
}

/// Configuring a port is idempotent by replacement: of two configurations of
/// one port the later is the one that stands, and configuring the same
/// device twice is the same as configuring it once.
pub proof fn later_configuration_replaces(
    table: Map<Port, Device>,
    port: Port,
    first: Device,
    second: Device,
)
    ensures
        table.insert(port, first).insert(port, second) == table.insert(port, second),
        table.insert(port, second).insert(port, second) == table.insert(port, second),
        table.insert(port, first).insert(port, second)[port] == second,
{
    assert(table.insert(port, first).insert(port, second) =~= table.insert(port, second));
    assert(table.insert(port, second).insert(port, second) =~= table.insert(port, second));
}

} // verus!
