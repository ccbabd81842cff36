//! The competition switch.

use crate::wire::{
    as_unit, as_variant, bool_at, get_bool, get_member, member, member_found, no_members,
    object, put, read_unit, read_variant, same_text, text_json, DecodeError, Json, JsonView,
};
use vstd::prelude::*;

verus! {

/// The stage of a match.
#[derive(Clone, Copy, Debug, PartialEq, Eq, Structural, Hash, PartialOrd, Ord)]
pub enum CompMode {
    Auto,
    Driver,
}

impl CompMode {
    /// How a value is written: as the bare name of the variant.
    pub open spec fn wire(self) -> JsonView {
        match self {
            CompMode::Auto => JsonView::Text("Auto"@),
            CompMode::Driver => JsonView::Text("Driver"@),
        }
    }

    /// The value that a tree spells, or why it spells none.
    pub open spec fn read(tree: JsonView) -> Result<CompMode, DecodeError> {
        match read_variant(tree) {
            Err(e) => Err(e),
            Ok((name, body)) => if name == "Auto"@ {
                match read_unit(body) {
                    Ok(_) => Ok(CompMode::Auto),
                    Err(e) => Err(e),
                }
            } else if name == "Driver"@ {
                match read_unit(body) {
                    Ok(_) => Ok(CompMode::Driver),
                    Err(e) => Err(e),
                }
            } else {
                Err(DecodeError::UnknownTag)
            },
        }
    }

    /// The value under the member `key` of an object.
    pub open spec fn at(tree: JsonView, key: Seq<char>) -> Result<CompMode, DecodeError> {
        match member(tree, key) {
            Ok(v) => CompMode::read(v),
            Err(e) => Err(e),
        }
    }

    /// The names of the variants differ in length or in a letter.
    proof fn tags_differ()
        ensures
            "Auto"@.len() == 4,
            "Driver"@.len() == 6,
    {
        reveal_strlit("Auto");
        reveal_strlit("Driver");
    }

    /// A value that is written and read again is the same value.
    pub proof fn wire_round_trip(self)
        ensures
            CompMode::read(self.wire()) == Ok::<CompMode, DecodeError>(self),
    {
        CompMode::tags_differ();
        match self {
            CompMode::Auto => {},
            CompMode::Driver => {},
        }
    }

    /// Writes the value.
    pub fn to_json(&self) -> (tree: Json)
        ensures
            tree@ == self.wire(),
    {
        match self {
            CompMode::Auto => text_json("Auto"),
            CompMode::Driver => text_json("Driver"),
        }
    }

    /// Reads a value.
    pub fn from_json(tree: &Json) -> (outcome: Result<CompMode, DecodeError>)
        ensures
            outcome == CompMode::read(tree@),
    {
        let (name, given) = as_variant(tree)?;
        if same_text(name, "Auto") {
            as_unit(given)?;
            Ok(CompMode::Auto)
        } else if same_text(name, "Driver") {
            as_unit(given)?;
            Ok(CompMode::Driver)
        } else {
            Err(DecodeError::UnknownTag)
        }
    }

    /// Reads the value under the member `key` of an object.
    pub fn get(tree: &Json, key: &str) -> (outcome: Result<CompMode, DecodeError>)
        ensures
            outcome == CompMode::at(tree@, key@),
    {
        CompMode::from_json(get_member(tree, key)?)
    }
}

impl Default for CompMode {
    /// Driver control.
    fn default() -> (value: CompMode)
        ensures
            value == CompMode::Driver,
    {
        CompMode::Driver
    }
}

/// The state of the competition switch.
#[derive(Clone, Copy, Debug, PartialEq, Eq, Structural, Hash, PartialOrd, Ord)]
pub struct CompetitionMode {
    pub enabled: bool,
    pub connected: bool,
    pub mode: CompMode,
    pub is_competition: bool,
}

impl CompetitionMode {
    /// How a value is written: an object with one member for each field, in
    /// the order of the fields.
    pub open spec fn wire(self) -> JsonView {
        JsonView::Object(
            no_members()
                .push(("enabled"@, JsonView::Bool(self.enabled)))
                .push(("connected"@, JsonView::Bool(self.connected)))
                .push(("mode"@, self.mode.wire()))
                .push(("is_competition"@, JsonView::Bool(self.is_competition))),
        )
    }

    /// The value that a tree spells, or why it spells none: the fields are
    /// read in their order, and the first that cannot be read gives the error.
    pub open spec fn read(tree: JsonView) -> Result<CompetitionMode, DecodeError> {
        let enabled = bool_at(tree, "enabled"@);
        let connected = bool_at(tree, "connected"@);
        let mode = CompMode::at(tree, "mode"@);
        let is_competition = bool_at(tree, "is_competition"@);
        if enabled is Err {
            Err(enabled->Err_0)
        } else if connected is Err {
            Err(connected->Err_0)
        } else if mode is Err {
            Err(mode->Err_0)
        } else if is_competition is Err {
            Err(is_competition->Err_0)
        } else {
            Ok(
                CompetitionMode {
                    enabled: enabled->Ok_0,
                    connected: connected->Ok_0,
                    mode: mode->Ok_0,
                    is_competition: is_competition->Ok_0,
                },
            )
        }
    }

    /// The value under the member `key` of an object.
    pub open spec fn at(tree: JsonView, key: Seq<char>) -> Result<CompetitionMode, DecodeError> {
        match member(tree, key) {
            Ok(v) => CompetitionMode::read(v),
            Err(e) => Err(e),
        }
    }

    /// The members have different names.
    proof fn names_differ()
        ensures
            "enabled"@.len() == 7,
            "connected"@.len() == 9,
            "mode"@.len() == 4,
            "is_competition"@.len() == 14,
    {
        reveal_strlit("enabled");
        reveal_strlit("connected");
        reveal_strlit("mode");
        reveal_strlit("is_competition");
    }

    /// A value that is written and read again is the same value.
    pub proof fn wire_round_trip(self)
        ensures
            CompetitionMode::read(self.wire()) == Ok::<CompetitionMode, DecodeError>(self),
    {
        CompetitionMode::names_differ();
        let members = self.wire()->Object_0;
        member_found(members, 0);
        member_found(members, 1);
        member_found(members, 2);
        member_found(members, 3);
        self.mode.wire_round_trip();
    }

    /// Writes the value.
    pub fn to_json(&self) -> (tree: Json)
        ensures
            tree@ == self.wire(),
    {
        let mut members: Vec<(String, Json)> = Vec::new();
        put(&mut members, "enabled", Json::Bool(self.enabled));
        put(&mut members, "connected", Json::Bool(self.connected));
        put(&mut members, "mode", self.mode.to_json());
        put(&mut members, "is_competition", Json::Bool(self.is_competition));
        object(members)
    }

    /// Reads a value.
    pub fn from_json(tree: &Json) -> (outcome: Result<CompetitionMode, DecodeError>)
        ensures
            outcome == CompetitionMode::read(tree@),
    {
        let enabled = get_bool(tree, "enabled")?;
        let connected = get_bool(tree, "connected")?;
        let mode = CompMode::get(tree, "mode")?;
        let is_competition = get_bool(tree, "is_competition")?;
        Ok(CompetitionMode { enabled, connected, mode, is_competition })
    }

    /// Reads the value under the member `key` of an object.
    pub fn get(tree: &Json, key: &str) -> (outcome: Result<CompetitionMode, DecodeError>)
        ensures
            outcome == CompetitionMode::at(tree@, key@),
    {
        CompetitionMode::from_json(get_member(tree, key)?)
    }
}

impl Default for CompetitionMode {
    /// Enabled and under driver control, with no field controller connected.
    fn default() -> (value: CompetitionMode)
        ensures
            value == (CompetitionMode {
                enabled: true,
                connected: false,
                mode: CompMode::Driver,
                is_competition: false,
            }),
    {
        CompetitionMode {
            enabled: true,
            connected: false,
            mode: CompMode::Driver,
            is_competition: false,
        }
    }
}

} // verus!
