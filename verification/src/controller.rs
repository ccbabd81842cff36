//! Controller input, as the frontend reports it.

use crate::wire::{
    as_list, as_text, as_unit, as_variant, bool_at, get_bool, get_i32, get_member, i32_at,
    list_view_push, member, member_found, no_members, object, outcome_is, put, read_list,
    read_text, read_unit, read_variant, same_text, tagged, tagged_json, text_json, whole,
    whole_json, DecodeError, Json, JsonView,
};
use vstd::prelude::*;

verus! {

/// The raw state of a controller: four axes, its buttons and its battery.
#[derive(Clone, Copy, Debug, PartialEq, Eq, Structural, Hash, PartialOrd, Ord)]
pub struct ControllerState {
    pub axis1: i32,
    pub axis2: i32,
    pub axis3: i32,
    pub axis4: i32,
    pub button_l1: bool,
    pub button_l2: bool,
    pub button_r1: bool,
    pub button_r2: bool,
    pub button_up: bool,
    pub button_down: bool,
    pub button_left: bool,
    pub button_right: bool,
    pub button_x: bool,
    pub button_b: bool,
    pub button_y: bool,
    pub button_a: bool,
    pub button_sel: bool,
    pub battery_level: i32,
    pub button_all: bool,
    pub flags: i32,
    pub battery_capacity: i32,
}

impl Default for ControllerState {
    fn default() -> (state: ControllerState)
        ensures
            state == ControllerState::at_rest(),
    {
        ControllerState {
            axis1: 0,
            axis2: 0,
            axis3: 0,
            axis4: 0,
            button_l1: false,
            button_l2: false,
            button_r1: false,
            button_r2: false,
            button_up: false,
            button_down: false,
            button_left: false,
            button_right: false,
            button_x: false,
            button_b: false,
            button_y: false,
            button_a: false,
            button_sel: false,
            battery_level: 0,
            button_all: false,
            flags: 0,
            battery_capacity: 0,
        }
    }
}

impl ControllerState {
    /// The state of a controller that nobody touches: every axis centred,
    /// every button released, every number zero.
    pub open spec fn at_rest() -> ControllerState {
        ControllerState {
            axis1: 0,
            axis2: 0,
            axis3: 0,
            axis4: 0,
            button_l1: false,
            button_l2: false,
            button_r1: false,
            button_r2: false,
            button_up: false,
            button_down: false,
            button_left: false,
            button_right: false,
            button_x: false,
            button_b: false,
            button_y: false,
            button_a: false,
            button_sel: false,
            battery_level: 0,
            button_all: false,
            flags: 0,
            battery_capacity: 0,
        }
    }

    /// How a controller state is written: an object with one member for each
    /// field, in the order of the fields.
    pub open spec fn wire(self) -> JsonView {
        JsonView::Object(
            no_members().push(("axis1"@, whole(self.axis1 as int))).push(
                ("axis2"@, whole(self.axis2 as int)),
            ).push(("axis3"@, whole(self.axis3 as int))).push(
                ("axis4"@, whole(self.axis4 as int)),
            ).push(("button_l1"@, JsonView::Bool(self.button_l1))).push(
                ("button_l2"@, JsonView::Bool(self.button_l2)),
            ).push(("button_r1"@, JsonView::Bool(self.button_r1))).push(
                ("button_r2"@, JsonView::Bool(self.button_r2)),
            ).push(("button_up"@, JsonView::Bool(self.button_up))).push(
                ("button_down"@, JsonView::Bool(self.button_down)),
            ).push(("button_left"@, JsonView::Bool(self.button_left))).push(
                ("button_right"@, JsonView::Bool(self.button_right)),
            ).push(("button_x"@, JsonView::Bool(self.button_x))).push(
                ("button_b"@, JsonView::Bool(self.button_b)),
            ).push(("button_y"@, JsonView::Bool(self.button_y))).push(
                ("button_a"@, JsonView::Bool(self.button_a)),
            ).push(("button_sel"@, JsonView::Bool(self.button_sel))).push(
                ("battery_level"@, whole(self.battery_level as int)),
            ).push(("button_all"@, JsonView::Bool(self.button_all))).push(
                ("flags"@, whole(self.flags as int)),
            ).push(("battery_capacity"@, whole(self.battery_capacity as int))),
        )
    }

    /// The first member that cannot be read, if there is one: the members
    /// are read in the order of the fields.
    pub open spec fn first_fault(tree: JsonView) -> Option<DecodeError> {
        if i32_at(tree, "axis1"@) is Err {
            Some(i32_at(tree, "axis1"@)->Err_0)
        } else if i32_at(tree, "axis2"@) is Err {
            Some(i32_at(tree, "axis2"@)->Err_0)
        } else if i32_at(tree, "axis3"@) is Err {
            Some(i32_at(tree, "axis3"@)->Err_0)
        } else if i32_at(tree, "axis4"@) is Err {
            Some(i32_at(tree, "axis4"@)->Err_0)
        } else if bool_at(tree, "button_l1"@) is Err {
            Some(bool_at(tree, "button_l1"@)->Err_0)
        } else if bool_at(tree, "button_l2"@) is Err {
            Some(bool_at(tree, "button_l2"@)->Err_0)
        } else if bool_at(tree, "button_r1"@) is Err {
            Some(bool_at(tree, "button_r1"@)->Err_0)
        } else if bool_at(tree, "button_r2"@) is Err {
            Some(bool_at(tree, "button_r2"@)->Err_0)
        } else if bool_at(tree, "button_up"@) is Err {
            Some(bool_at(tree, "button_up"@)->Err_0)
        } else if bool_at(tree, "button_down"@) is Err {
            Some(bool_at(tree, "button_down"@)->Err_0)
        } else if bool_at(tree, "button_left"@) is Err {
            Some(bool_at(tree, "button_left"@)->Err_0)
        } else if bool_at(tree, "button_right"@) is Err {
            Some(bool_at(tree, "button_right"@)->Err_0)
        } else if bool_at(tree, "button_x"@) is Err {
            Some(bool_at(tree, "button_x"@)->Err_0)
        } else if bool_at(tree, "button_b"@) is Err {
            Some(bool_at(tree, "button_b"@)->Err_0)
        } else if bool_at(tree, "button_y"@) is Err {
            Some(bool_at(tree, "button_y"@)->Err_0)
        } else if bool_at(tree, "button_a"@) is Err {
            Some(bool_at(tree, "button_a"@)->Err_0)
        } else if bool_at(tree, "button_sel"@) is Err {
            Some(bool_at(tree, "button_sel"@)->Err_0)
        } else if i32_at(tree, "battery_level"@) is Err {
            Some(i32_at(tree, "battery_level"@)->Err_0)
        } else if bool_at(tree, "button_all"@) is Err {
            Some(bool_at(tree, "button_all"@)->Err_0)
        } else if i32_at(tree, "flags"@) is Err {
            Some(i32_at(tree, "flags"@)->Err_0)
        } else if i32_at(tree, "battery_capacity"@) is Err {
            Some(i32_at(tree, "battery_capacity"@)->Err_0)
        } else {
            None
        }
    }

    /// The controller state that a tree spells, or why it spells none.
    pub open spec fn read(tree: JsonView) -> Result<ControllerState, DecodeError> {
        match ControllerState::first_fault(tree) {
            Some(e) => Err(e),
            None => Ok(
                ControllerState {
                    axis1: i32_at(tree, "axis1"@)->Ok_0,
                    axis2: i32_at(tree, "axis2"@)->Ok_0,
                    axis3: i32_at(tree, "axis3"@)->Ok_0,
                    axis4: i32_at(tree, "axis4"@)->Ok_0,
                    button_l1: bool_at(tree, "button_l1"@)->Ok_0,
                    button_l2: bool_at(tree, "button_l2"@)->Ok_0,
                    button_r1: bool_at(tree, "button_r1"@)->Ok_0,
                    button_r2: bool_at(tree, "button_r2"@)->Ok_0,
                    button_up: bool_at(tree, "button_up"@)->Ok_0,
                    button_down: bool_at(tree, "button_down"@)->Ok_0,
                    button_left: bool_at(tree, "button_left"@)->Ok_0,
                    button_right: bool_at(tree, "button_right"@)->Ok_0,
                    button_x: bool_at(tree, "button_x"@)->Ok_0,
                    button_b: bool_at(tree, "button_b"@)->Ok_0,
                    button_y: bool_at(tree, "button_y"@)->Ok_0,
                    button_a: bool_at(tree, "button_a"@)->Ok_0,
                    button_sel: bool_at(tree, "button_sel"@)->Ok_0,
                    battery_level: i32_at(tree, "battery_level"@)->Ok_0,
                    button_all: bool_at(tree, "button_all"@)->Ok_0,
                    flags: i32_at(tree, "flags"@)->Ok_0,
                    battery_capacity: i32_at(tree, "battery_capacity"@)->Ok_0,
                },
            ),
        }
    }

    /// Writes the controller state.
    pub fn to_json(&self) -> (tree: Json)
        ensures
            tree@ == self.wire(),
    {
        let mut members: Vec<(String, Json)> = Vec::new();
        put(&mut members, "axis1", whole_json(self.axis1 as i128));
        put(&mut members, "axis2", whole_json(self.axis2 as i128));
        put(&mut members, "axis3", whole_json(self.axis3 as i128));
        put(&mut members, "axis4", whole_json(self.axis4 as i128));
        put(&mut members, "button_l1", Json::Bool(self.button_l1));
        put(&mut members, "button_l2", Json::Bool(self.button_l2));
        put(&mut members, "button_r1", Json::Bool(self.button_r1));
        put(&mut members, "button_r2", Json::Bool(self.button_r2));
        put(&mut members, "button_up", Json::Bool(self.button_up));
        put(&mut members, "button_down", Json::Bool(self.button_down));
        put(&mut members, "button_left", Json::Bool(self.button_left));
        put(&mut members, "button_right", Json::Bool(self.button_right));
        put(&mut members, "button_x", Json::Bool(self.button_x));
        put(&mut members, "button_b", Json::Bool(self.button_b));
        put(&mut members, "button_y", Json::Bool(self.button_y));
        put(&mut members, "button_a", Json::Bool(self.button_a));
        put(&mut members, "button_sel", Json::Bool(self.button_sel));
        put(&mut members, "battery_level", whole_json(self.battery_level as i128));
        put(&mut members, "button_all", Json::Bool(self.button_all));
        put(&mut members, "flags", whole_json(self.flags as i128));
        put(&mut members, "battery_capacity", whole_json(self.battery_capacity as i128));
        object(members)
    }

    /// Reads a controller state.
    pub fn from_json(tree: &Json) -> (outcome: Result<ControllerState, DecodeError>)
        ensures
            outcome == ControllerState::read(tree@),
    {
        let axis1 = get_i32(tree, "axis1")?;
        let axis2 = get_i32(tree, "axis2")?;
        let axis3 = get_i32(tree, "axis3")?;
        let axis4 = get_i32(tree, "axis4")?;
        let button_l1 = get_bool(tree, "button_l1")?;
        let button_l2 = get_bool(tree, "button_l2")?;
        let button_r1 = get_bool(tree, "button_r1")?;
        let button_r2 = get_bool(tree, "button_r2")?;
        let button_up = get_bool(tree, "button_up")?;
        let button_down = get_bool(tree, "button_down")?;
        let button_left = get_bool(tree, "button_left")?;
        let button_right = get_bool(tree, "button_right")?;
        let button_x = get_bool(tree, "button_x")?;
        let button_b = get_bool(tree, "button_b")?;
        let button_y = get_bool(tree, "button_y")?;
        let button_a = get_bool(tree, "button_a")?;
        let button_sel = get_bool(tree, "button_sel")?;
        let battery_level = get_i32(tree, "battery_level")?;
        let button_all = get_bool(tree, "button_all")?;
        let flags = get_i32(tree, "flags")?;
        let battery_capacity = get_i32(tree, "battery_capacity")?;
        Ok(
            ControllerState {
                axis1,
                axis2,
                axis3,
                axis4,
                button_l1,
                button_l2,
                button_r1,
                button_r2,
                button_up,
                button_down,
                button_left,
                button_right,
                button_x,
                button_b,
                button_y,
                button_a,
                button_sel,
                battery_level,
                button_all,
                flags,
                battery_capacity,
            },
        )
    }

    /// The names of the members differ in length or in one of their last
    /// letters.
    proof fn names_differ()
        ensures
            "axis1"@.len() == 5 && "axis1"@[4] == '1',
            "axis2"@.len() == 5 && "axis2"@[4] == '2',
            "axis3"@.len() == 5 && "axis3"@[4] == '3',
            "axis4"@.len() == 5 && "axis4"@[4] == '4',
            "button_l1"@.len() == 9 && "button_l1"@[7] == 'l' && "button_l1"@[8] == '1',
            "button_l2"@.len() == 9 && "button_l2"@[7] == 'l' && "button_l2"@[8] == '2',
            "button_r1"@.len() == 9 && "button_r1"@[7] == 'r' && "button_r1"@[8] == '1',
            "button_r2"@.len() == 9 && "button_r2"@[7] == 'r' && "button_r2"@[8] == '2',
            "button_up"@.len() == 9 && "button_up"@[7] == 'u' && "button_up"@[8] == 'p',
            "button_down"@.len() == 11 && "button_down"@[7] == 'd',
            "button_left"@.len() == 11 && "button_left"@[7] == 'l',
            "button_right"@.len() == 12,
            "button_x"@.len() == 8 && "button_x"@[7] == 'x',
            "button_b"@.len() == 8 && "button_b"@[7] == 'b',
            "button_y"@.len() == 8 && "button_y"@[7] == 'y',
            "button_a"@.len() == 8 && "button_a"@[7] == 'a',
            "button_sel"@.len() == 10 && "button_sel"@[7] == 's',
            "battery_level"@.len() == 13,
            "button_all"@.len() == 10 && "button_all"@[7] == 'a',
            "flags"@.len() == 5 && "flags"@[4] == 's',
            "battery_capacity"@.len() == 16,
    {
        reveal_strlit("axis1");
        reveal_strlit("axis2");
        reveal_strlit("axis3");
        reveal_strlit("axis4");
        reveal_strlit("button_l1");
        reveal_strlit("button_l2");
        reveal_strlit("button_r1");
        reveal_strlit("button_r2");
        reveal_strlit("button_up");
        reveal_strlit("button_down");
        reveal_strlit("button_left");
        reveal_strlit("button_right");
        reveal_strlit("button_x");
        reveal_strlit("button_b");
        reveal_strlit("button_y");
        reveal_strlit("button_a");
        reveal_strlit("button_sel");
        reveal_strlit("battery_level");
        reveal_strlit("button_all");
        reveal_strlit("flags");
        reveal_strlit("battery_capacity");
    }

    /// Each axis is found under its name.
    proof fn axes_read_back(self)
        ensures
            member(self.wire(), "axis1"@) == Ok::<JsonView, DecodeError>(
                whole(self.axis1 as int),
            ),
            member(self.wire(), "axis2"@) == Ok::<JsonView, DecodeError>(
                whole(self.axis2 as int),
            ),
            member(self.wire(), "axis3"@) == Ok::<JsonView, DecodeError>(
                whole(self.axis3 as int),
            ),
            member(self.wire(), "axis4"@) == Ok::<JsonView, DecodeError>(
                whole(self.axis4 as int),
            ),
    {
        ControllerState::names_differ();
        let members = self.wire()->Object_0;
        member_found(members, 0);
        member_found(members, 1);
        member_found(members, 2);
        member_found(members, 3);
    }

    /// Each shoulder button and arrow is found under its name.
    proof fn shoulder_buttons_read_back(self)
        ensures
            member(self.wire(), "button_l1"@) == Ok::<JsonView, DecodeError>(
                JsonView::Bool(self.button_l1),
            ),
            member(self.wire(), "button_l2"@) == Ok::<JsonView, DecodeError>(
                JsonView::Bool(self.button_l2),
            ),
            member(self.wire(), "button_r1"@) == Ok::<JsonView, DecodeError>(
                JsonView::Bool(self.button_r1),
            ),
            member(self.wire(), "button_r2"@) == Ok::<JsonView, DecodeError>(
                JsonView::Bool(self.button_r2),
            ),
            member(self.wire(), "button_up"@) == Ok::<JsonView, DecodeError>(
                JsonView::Bool(self.button_up),
            ),
            member(self.wire(), "button_down"@) == Ok::<JsonView, DecodeError>(
                JsonView::Bool(self.button_down),
            ),
            member(self.wire(), "button_left"@) == Ok::<JsonView, DecodeError>(
                JsonView::Bool(self.button_left),
            ),
            member(self.wire(), "button_right"@) == Ok::<JsonView, DecodeError>(
                JsonView::Bool(self.button_right),
            ),
    {
        ControllerState::names_differ();
        let members = self.wire()->Object_0;
        member_found(members, 4);
        member_found(members, 5);
        member_found(members, 6);
        member_found(members, 7);
        member_found(members, 8);
        member_found(members, 9);
        member_found(members, 10);
        member_found(members, 11);
    }

    /// Each face button is found under its name.
    proof fn face_buttons_read_back(self)
        ensures
            member(self.wire(), "button_x"@) == Ok::<JsonView, DecodeError>(
                JsonView::Bool(self.button_x),
            ),
            member(self.wire(), "button_b"@) == Ok::<JsonView, DecodeError>(
                JsonView::Bool(self.button_b),
            ),
            member(self.wire(), "button_y"@) == Ok::<JsonView, DecodeError>(
                JsonView::Bool(self.button_y),
            ),
            member(self.wire(), "button_a"@) == Ok::<JsonView, DecodeError>(
                JsonView::Bool(self.button_a),
            ),
            member(self.wire(), "button_sel"@) == Ok::<JsonView, DecodeError>(
                JsonView::Bool(self.button_sel),
            ),
    {
        ControllerState::names_differ();
        let members = self.wire()->Object_0;
        member_found(members, 12);
        member_found(members, 13);
        member_found(members, 14);
        member_found(members, 15);
        member_found(members, 16);
    }

    /// The battery, the flags and the last button are found under their names.
    proof fn status_reads_back(self)
        ensures
            member(self.wire(), "battery_level"@) == Ok::<JsonView, DecodeError>(
                whole(self.battery_level as int),
            ),
            member(self.wire(), "button_all"@) == Ok::<JsonView, DecodeError>(
                JsonView::Bool(self.button_all),
            ),
            member(self.wire(), "flags"@) == Ok::<JsonView, DecodeError>(
                whole(self.flags as int),
            ),
            member(self.wire(), "battery_capacity"@) == Ok::<JsonView, DecodeError>(
                whole(self.battery_capacity as int),
            ),
    {
        ControllerState::names_differ();
        let members = self.wire()->Object_0;
        member_found(members, 17);
        member_found(members, 18);
        member_found(members, 19);
        member_found(members, 20);
    }

    /// A controller state that is written and read again is the same state.
    pub proof fn wire_round_trip(self)
        ensures
            ControllerState::read(self.wire()) == Ok::<ControllerState, DecodeError>(self),
    {
        self.axes_read_back();
        self.shoulder_buttons_read_back();
        self.face_buttons_read_back();
        self.status_reads_back();
    }
}

impl ControllerState {
    /// The value under the member `key` of an object.
    pub open spec fn at(tree: JsonView, key: Seq<char>) -> Result<ControllerState, DecodeError> {
        match member(tree, key) {
            Ok(v) => ControllerState::read(v),
            Err(e) => Err(e),
        }
    }

    /// Reads the value under the member `key` of an object.
    pub fn get(tree: &Json, key: &str) -> (outcome: Result<ControllerState, DecodeError>)
        ensures
            outcome == ControllerState::at(tree@, key@),
    {
        ControllerState::from_json(get_member(tree, key)?)
    }
}

/// How the frontend reports a controller: its raw state, or the identifier of
/// a physical controller that the simulator reads itself.
#[derive(Clone, Debug, PartialEq, Eq, Hash, PartialOrd, Ord)]
pub enum ControllerUpdate {
    Raw(ControllerState),
    UUID(String),
}

/// What a value of `ControllerUpdate` holds.
pub enum ControllerUpdateView {
    Raw(ControllerState),
    UUID(Seq<char>),
}

impl View for ControllerUpdate {
    type V = ControllerUpdateView;

    open spec fn view(&self) -> ControllerUpdateView {
        match self {
            ControllerUpdate::Raw(inner) => ControllerUpdateView::Raw(*inner),
            ControllerUpdate::UUID(inner) => ControllerUpdateView::UUID(inner@),
        }
    }
}

impl ControllerUpdateView {
    /// How a value is written: a variant without a body as its bare name,
    /// any other as an object with one member, named after the variant.
    pub open spec fn wire(self) -> JsonView {
        match self {
            ControllerUpdateView::Raw(inner) => tagged("Raw"@, inner.wire()),
            ControllerUpdateView::UUID(inner) => tagged("UUID"@, JsonView::Text(inner)),
        }
    }

    /// The value that a tree spells, or why it spells none.
    pub open spec fn read(tree: JsonView) -> Result<ControllerUpdateView, DecodeError> {
        match read_variant(tree) {
            Err(e) => Err(e),
            Ok((name, body)) => if name == "Raw"@ {
                match ControllerState::read(body) {
                    Ok(inner) => Ok(ControllerUpdateView::Raw(inner)),
                    Err(e) => Err(e),
                }
            } else if name == "UUID"@ {
                match read_text(body) {
                    Ok(inner) => Ok(ControllerUpdateView::UUID(inner)),
                    Err(e) => Err(e),
                }
            } else {
                Err(DecodeError::UnknownTag)
            },
        }
    }

    /// The value under the member `key` of an object.
    pub open spec fn at(
        tree: JsonView,
        key: Seq<char>,
    ) -> Result<ControllerUpdateView, DecodeError> {
        match member(tree, key) {
            Ok(v) => ControllerUpdateView::read(v),
            Err(e) => Err(e),
        }
    }

    /// The names of the variants differ in length or in a letter.
    proof fn tags_differ()
        ensures
            "Raw"@.len() == 3,
            "UUID"@.len() == 4,
    {
        reveal_strlit("Raw");
        reveal_strlit("UUID");
    }

    /// A value that is written and read again is the same value.
    pub proof fn wire_round_trip(self)
        ensures
            ControllerUpdateView::read(self.wire()) == Ok::<ControllerUpdateView, DecodeError>(
                self,
            ),
    {
        ControllerUpdateView::tags_differ();
        match self {
            ControllerUpdateView::Raw(inner) => {
            inner.wire_round_trip();
            },
            ControllerUpdateView::UUID(inner) => {
            
            },
        }
    }
}

impl ControllerUpdate {
    /// Writes the value.
    pub fn to_json(&self) -> (tree: Json)
        ensures
            tree@ == self@.wire(),
    {
        match self {
            ControllerUpdate::Raw(inner) => tagged_json("Raw", inner.to_json()),
            ControllerUpdate::UUID(inner) => tagged_json("UUID", text_json(inner.as_str())),
        }
    }

    /// Reads a value.
    pub fn from_json(tree: &Json) -> (outcome: Result<ControllerUpdate, DecodeError>)
        ensures
            outcome_is(outcome, ControllerUpdateView::read(tree@)),
    {
        let (name, given) = as_variant(tree)?;
        let absent = Json::Null;
        let body: &Json = match given {
            Some(b) => b,
            None => &absent,
        };
        if same_text(name, "Raw") {
            Ok(ControllerUpdate::Raw(ControllerState::from_json(body)?))
        } else if same_text(name, "UUID") {
            Ok(ControllerUpdate::UUID(as_text(body)?.clone()))
        } else {
            Err(DecodeError::UnknownTag)
        }
    }

    /// Reads the value under the member `key` of an object.
    pub fn get(tree: &Json, key: &str) -> (outcome: Result<ControllerUpdate, DecodeError>)
        ensures
            outcome_is(outcome, ControllerUpdateView::at(tree@, key@)),
    {
        ControllerUpdate::from_json(get_member(tree, key)?)
    }
}

/// What a finger does on the screen.
#[derive(Clone, Copy, Debug, PartialEq, Eq, Structural, Hash, PartialOrd, Ord)]
pub enum TouchEvent {
    Released,
    Pressed,
    Held,
}

impl TouchEvent {
    /// How a value is written: as the bare name of the variant.
    pub open spec fn wire(self) -> JsonView {
        match self {
            TouchEvent::Released => JsonView::Text("Released"@),
            TouchEvent::Pressed => JsonView::Text("Pressed"@),
            TouchEvent::Held => JsonView::Text("Held"@),
        }
    }

    /// The value that a tree spells, or why it spells none.
    pub open spec fn read(tree: JsonView) -> Result<TouchEvent, DecodeError> {
        match read_variant(tree) {
            Err(e) => Err(e),
            Ok((name, body)) => if name == "Released"@ {
                match read_unit(body) {
                    Ok(_) => Ok(TouchEvent::Released),
                    Err(e) => Err(e),
                }
            } else if name == "Pressed"@ {
                match read_unit(body) {
                    Ok(_) => Ok(TouchEvent::Pressed),
                    Err(e) => Err(e),
                }
            } else if name == "Held"@ {
                match read_unit(body) {
                    Ok(_) => Ok(TouchEvent::Held),
                    Err(e) => Err(e),
                }
            } else {
                Err(DecodeError::UnknownTag)
            },
        }
    }

    /// The value under the member `key` of an object.
    pub open spec fn at(tree: JsonView, key: Seq<char>) -> Result<TouchEvent, DecodeError> {
        match member(tree, key) {
            Ok(v) => TouchEvent::read(v),
            Err(e) => Err(e),
        }
    }

    /// The names of the variants differ in length or in a letter.
    proof fn tags_differ()
        ensures
            "Released"@.len() == 8,
            "Pressed"@.len() == 7,
            "Held"@.len() == 4,
    {
        reveal_strlit("Released");
        reveal_strlit("Pressed");
        reveal_strlit("Held");
    }

    /// A value that is written and read again is the same value.
    pub proof fn wire_round_trip(self)
        ensures
            TouchEvent::read(self.wire()) == Ok::<TouchEvent, DecodeError>(self),
    {
        TouchEvent::tags_differ();
        match self {
            TouchEvent::Released => {},
            TouchEvent::Pressed => {},
            TouchEvent::Held => {},
        }
    }

    /// Writes the value.
    pub fn to_json(&self) -> (tree: Json)
        ensures
            tree@ == self.wire(),
    {
        match self {
            TouchEvent::Released => text_json("Released"),
            TouchEvent::Pressed => text_json("Pressed"),
            TouchEvent::Held => text_json("Held"),
        }
    }

    /// Reads a value.
    pub fn from_json(tree: &Json) -> (outcome: Result<TouchEvent, DecodeError>)
        ensures
            outcome == TouchEvent::read(tree@),
    {
        let (name, given) = as_variant(tree)?;
        if same_text(name, "Released") {
            as_unit(given)?;
            Ok(TouchEvent::Released)
        } else if same_text(name, "Pressed") {
            as_unit(given)?;
            Ok(TouchEvent::Pressed)
        } else if same_text(name, "Held") {
            as_unit(given)?;
            Ok(TouchEvent::Held)
        } else {
            Err(DecodeError::UnknownTag)
        }
    }

    /// Reads the value under the member `key` of an object.
    pub fn get(tree: &Json, key: &str) -> (outcome: Result<TouchEvent, DecodeError>)
        ensures
            outcome == TouchEvent::at(tree@, key@),
    {
        TouchEvent::from_json(get_member(tree, key)?)
    }
}

impl ControllerUpdateView {
    /// How an optional report is written: `null` where there is none.
    pub open spec fn optional_wire(update: Option<ControllerUpdateView>) -> JsonView {
        match update {
            Some(u) => u.wire(),
            None => JsonView::Null,
        }
    }

    /// The optional report that a tree spells, or why it spells none.
    pub open spec fn read_optional(tree: JsonView) -> Result<
        Option<ControllerUpdateView>,
        DecodeError,
    > {
        match tree {
            JsonView::Null => Ok(None),
            _ => match ControllerUpdateView::read(tree) {
                Ok(u) => Ok(Some(u)),
                Err(e) => Err(e),
            },
        }
    }

    /// How the reports of the two controllers are written: a list of two,
    /// the primary controller first.
    pub open spec fn pair_wire(
        primary: Option<ControllerUpdateView>,
        partner: Option<ControllerUpdateView>,
    ) -> JsonView {
        JsonView::List(
            Seq::empty().push(ControllerUpdateView::optional_wire(primary)).push(
                ControllerUpdateView::optional_wire(partner),
            ),
        )
    }

    /// The two reports that a tree spells, or why it spells none.
    pub open spec fn read_pair(tree: JsonView) -> Result<
        (Option<ControllerUpdateView>, Option<ControllerUpdateView>),
        DecodeError,
    > {
        match read_list(tree) {
            Err(e) => Err(e),
            Ok(items) => if items.len() != 2 {
                Err(DecodeError::WrongArity)
            } else {
                let primary = ControllerUpdateView::read_optional(items[0]);
                let partner = ControllerUpdateView::read_optional(items[1]);
                if primary is Err {
                    Err(primary->Err_0)
                } else if partner is Err {
                    Err(partner->Err_0)
                } else {
                    Ok((primary->Ok_0, partner->Ok_0))
                }
            },
        }
    }

    /// An optional report that is written and read again is the same.
    pub proof fn optional_round_trip(update: Option<ControllerUpdateView>)
        ensures
            ControllerUpdateView::read_optional(ControllerUpdateView::optional_wire(update))
                == Ok::<
                Option<ControllerUpdateView>,
                DecodeError,
            >(update),
    {
        match update {
            Some(u) => {
                u.wire_round_trip();
            },
            None => {},
        }
    }

    /// Two reports that are written and read again are the same.
    pub proof fn pair_round_trip(
        primary: Option<ControllerUpdateView>,
        partner: Option<ControllerUpdateView>,
    )
        ensures
            ControllerUpdateView::read_pair(ControllerUpdateView::pair_wire(primary, partner))
                == Ok::<(Option<ControllerUpdateView>, Option<ControllerUpdateView>), DecodeError>(
                (primary, partner),
            ),
    {
        ControllerUpdateView::optional_round_trip(primary);
        ControllerUpdateView::optional_round_trip(partner);
    }
}

impl ControllerUpdate {
    /// What an optional report holds.
    pub open spec fn optional(update: Option<ControllerUpdate>) -> Option<ControllerUpdateView> {
        match update {
            Some(u) => Some(u@),
            None => None,
        }
    }

    /// Writes an optional report.
    pub fn optional_to_json(update: &Option<ControllerUpdate>) -> (tree: Json)
        ensures
            tree@ == ControllerUpdateView::optional_wire(ControllerUpdate::optional(*update)),
    {
        match update {
            Some(u) => u.to_json(),
            None => Json::Null,
        }
    }

    /// Reads an optional report.
    pub fn optional_from_json(tree: &Json) -> (outcome: Result<
        Option<ControllerUpdate>,
        DecodeError,
    >)
        ensures
            match outcome {
                Ok(update) => ControllerUpdateView::read_optional(tree@) == Ok::<
                    Option<ControllerUpdateView>,
                    DecodeError,
                >(ControllerUpdate::optional(update)),
                Err(e) => ControllerUpdateView::read_optional(tree@) == Err::<
                    Option<ControllerUpdateView>,
                    DecodeError,
                >(e),
            },
    {
        match tree {
            Json::Null => Ok(None),
            _ => Ok(Some(ControllerUpdate::from_json(tree)?)),
        }
    }

    /// Writes the reports of the two controllers.
    pub fn pair_to_json(
        primary: &Option<ControllerUpdate>,
        partner: &Option<ControllerUpdate>,
    ) -> (tree: Json)
        ensures
            tree@ == ControllerUpdateView::pair_wire(
                ControllerUpdate::optional(*primary),
                ControllerUpdate::optional(*partner),
            ),
    {
        let mut items: Vec<Json> = Vec::new();
        let first = ControllerUpdate::optional_to_json(primary);
        let second = ControllerUpdate::optional_to_json(partner);
        proof {
            list_view_push(items@, first);
            list_view_push(items@.push(first), second);
        }
        items.push(first);
        items.push(second);
        Json::List(items)
    }

    /// Reads the reports of the two controllers.
    pub fn pair_from_json(tree: &Json) -> (outcome: Result<
        (Option<ControllerUpdate>, Option<ControllerUpdate>),
        DecodeError,
    >)
        ensures
            match outcome {
                Ok((primary, partner)) => ControllerUpdateView::read_pair(tree@) == Ok::<
                    (Option<ControllerUpdateView>, Option<ControllerUpdateView>),
                    DecodeError,
                >((ControllerUpdate::optional(primary), ControllerUpdate::optional(partner))),
                Err(e) => ControllerUpdateView::read_pair(tree@) == Err::<
                    (Option<ControllerUpdateView>, Option<ControllerUpdateView>),
                    DecodeError,
                >(e),
            },
    {
        let items = as_list(tree)?;
        if items.len() != 2 {
            return Err(DecodeError::WrongArity);
        }
        let primary = ControllerUpdate::optional_from_json(&items[0])?;
        let partner = ControllerUpdate::optional_from_json(&items[1])?;
        Ok((primary, partner))
    }
}

} // verus!
