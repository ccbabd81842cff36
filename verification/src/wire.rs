//! The tree form of a message: the JSON value that one line of the stream
//! spells.
//!
//! Messages are written to and read from this tree. Every reader says which
//! trees it accepts and names the error for each tree that it refuses.

use crate::payload::PayloadError;
use vstd::prelude::*;

verus! {

/// A number as it stands on the wire: a whole number, or the bits of an
/// IEEE 754 double for one that was written with a fraction or an exponent.
#[derive(Clone, Copy, Debug, PartialEq, Eq, Structural, Hash)]
pub enum Number {
    Int(i128),
    Real { bits: u64 },
}

/// A JSON value. The members of an object keep the order in which they were
/// written.
#[derive(Debug, PartialEq, Eq)]
pub enum Json {
    Null,
    Bool(bool),
    Number(Number),
    Text(String),
    List(Vec<Json>),
    Object(Vec<(String, Json)>),
}

impl Clone for Json {
    /// A copy that holds the same as the tree.
    fn clone(&self) -> (copy: Json)
        ensures
            copy@ == self@,
        decreases self,
    {
        match self {
            Json::Null => Json::Null,
            Json::Bool(b) => Json::Bool(*b),
            Json::Number(n) => Json::Number(*n),
            Json::Text(s) => Json::Text(s.clone()),
            Json::List(items) => {
                let mut copies: Vec<Json> = Vec::new();
                let mut i: usize = 0;
                while i < items.len()
                    invariant
                        i <= items.len(),
                        decreases_to!(*self => *items),
                        copies@.len() == i,
                        forall|k: int| 0 <= k < i ==> (#[trigger] copies@[k])@ == items@[k]@,
                    decreases items.len() - i,
                {
                    assert(decreases_to!(*items => items[i as int]));
                    let copy = items[i].clone();
                    copies.push(copy);
                    i += 1;
                }
                proof {
                    items_view_is_pointwise(items@, items@.len());
                    items_view_is_pointwise(copies@, copies@.len());
                    assert(list_view(copies@) =~= list_view(items@));
                }
                Json::List(copies)
            },
            Json::Object(members) => {
                let mut copies: Vec<(String, Json)> = Vec::new();
                let mut i: usize = 0;
                while i < members.len()
                    invariant
                        i <= members.len(),
                        decreases_to!(*self => *members),
                        copies@.len() == i,
                        forall|k: int|
                            0 <= k < i ==> (#[trigger] copies@[k]).0@ == members@[k].0@
                                && copies@[k].1@ == members@[k].1@,
                    decreases members.len() - i,
                {
                    let name = members[i].0.clone();
                    assert(decreases_to!(*members => members[i as int]));
                    assert(decreases_to!(members[i as int] => members[i as int].1));
                    let value = members[i].1.clone();
                    copies.push((name, value));
                    i += 1;
                }
                proof {
                    members_view_is_pointwise(members@, members@.len());
                    members_view_is_pointwise(copies@, copies@.len());
                    assert(object_view(copies@) =~= object_view(members@));
                }
                Json::Object(copies)
            },
        }
    }
}

/// What a JSON value holds.
pub enum JsonView {
    Null,
    Bool(bool),
    Number(Number),
    Text(Seq<char>),
    List(Seq<JsonView>),
    Object(Seq<(Seq<char>, JsonView)>),
}

impl View for Json {
    type V = JsonView;

    open spec fn view(&self) -> JsonView {
        tree_view(*self)
    }
}

/// What a tree holds: its own value and, in their order, what its items or
/// members hold.
pub open spec fn tree_view(tree: Json) -> JsonView
    decreases tree, 0nat,
{
    match tree {
        Json::Null => JsonView::Null,
        Json::Bool(b) => JsonView::Bool(b),
        Json::Number(n) => JsonView::Number(n),
        Json::Text(s) => JsonView::Text(s@),
        Json::List(items) => JsonView::List(items_view(items@, items@.len())),
        Json::Object(members) => JsonView::Object(members_view(members@, members@.len())),
    }
}

/// What the first `n` items of a list hold.
pub open spec fn items_view(items: Seq<Json>, n: nat) -> Seq<JsonView>
    decreases items, n,
{
    if n == 0 || n > items.len() {
        Seq::empty()
    } else {
        items_view(items, (n - 1) as nat).push(tree_view(items[n - 1]))
    }
}

/// What the first `n` members of an object hold.
pub open spec fn members_view(members: Seq<(String, Json)>, n: nat) -> Seq<(Seq<char>, JsonView)>
    decreases members, n,
{
    if n == 0 || n > members.len() {
        Seq::empty()
    } else {
        members_view(members, (n - 1) as nat).push(
            (members[n - 1].0@, tree_view(members[n - 1].1)),
        )
    }
}

/// The view of a list has one item for each item of the list, in order.
pub proof fn items_view_is_pointwise(items: Seq<Json>, n: nat)
    requires
        n <= items.len(),
    ensures
        items_view(items, n).len() == n,
        forall|k: int| 0 <= k < n ==> (#[trigger] items_view(items, n)[k]) == items[k]@,
    decreases n,
{
    if n > 0 {
        items_view_is_pointwise(items, (n - 1) as nat);
    }
}

/// The view of an object has one member for each member of the object, in
/// order.
pub proof fn members_view_is_pointwise(members: Seq<(String, Json)>, n: nat)
    requires
        n <= members.len(),
    ensures
        members_view(members, n).len() == n,
        forall|k: int|
            0 <= k < n ==> (#[trigger] members_view(members, n)[k]) == (
                members[k].0@,
                members[k].1@,
            ),
    decreases n,
{
    if n > 0 {
        members_view_is_pointwise(members, (n - 1) as nat);
    }
}

/// The kinds of JSON value that a reader can ask for.
#[derive(Clone, Copy, Debug, PartialEq, Eq, Structural)]
pub enum Kind {
    Null,
    Bool,
    Number,
    Text,
    List,
    Object,
}

/// The unions that are expected to grow: a tag that a reader does not know
/// may come from a later revision of the schema.
#[derive(Clone, Copy, Debug, PartialEq, Eq, Structural)]
pub enum OpenUnion {
    Event,
    Command,
    Device,
    DeviceStatus,
}

/// Why a tree is not a message.
#[derive(Clone, Copy, Debug, PartialEq, Eq, Structural)]
pub enum DecodeError {
    /// A value of another kind stands where this kind is expected.
    Expected(Kind),
    /// An object lacks a member that the message needs.
    MissingMember,
    /// A number that is not whole, or that its field cannot hold.
    OutOfRange,
    /// A union is written as a name or as an object with one member; this
    /// tree is neither.
    NotAVariant,
    /// A name that a closed union does not have.
    UnknownTag,
    /// A variant with a body where it has none, or a list of the wrong
    /// length.
    WrongArity,
    /// A binary payload that is not base64.
    BadPayload(PayloadError),
    /// A copy of a buffer with a stride of zero.
    ZeroStride,
    /// A rectangle whose corners are out of order.
    MalformedRectangle,
    /// A tag that an open union does not have yet. The message can be logged
    /// and passed over; the stream goes on.
    UnrecognizedVariant(OpenUnion),
}

impl DecodeError {
    /// The message is well-formed but from a later revision: pass it over.
    pub open spec fn unrecognized(self) -> bool {
        self is UnrecognizedVariant
    }

    /// Executable form of `unrecognized`.
    pub fn is_unrecognized(&self) -> (yes: bool)
        ensures
            yes == self.unrecognized(),
    {
        match self {
            DecodeError::UnrecognizedVariant(_) => true,
            _ => false,
        }
    }
}

/// An executable outcome holds what the model `owed` holds.
pub open spec fn outcome_is<T: View>(
    outcome: Result<T, DecodeError>,
    owed: Result<T::V, DecodeError>,
) -> bool {
    match outcome {
        Ok(value) => owed == Ok::<T::V, DecodeError>(value@),
        Err(e) => owed == Err::<T::V, DecodeError>(e),
    }
}

/// The first member of `members` that is called `key`.
pub open spec fn lookup(members: Seq<(Seq<char>, JsonView)>, key: Seq<char>) -> Option<JsonView>
    decreases members.len(),
{
    if members.len() == 0 {
        None
    } else if members[0].0 == key {
        Some(members[0].1)
    } else {
        lookup(members.subrange(1, members.len() as int), key)
    }
}

/// The member `key` of the object `tree`.
pub open spec fn member(tree: JsonView, key: Seq<char>) -> Result<JsonView, DecodeError> {
    match tree {
        JsonView::Object(members) => match lookup(members, key) {
            Some(value) => Ok(value),
            None => Err(DecodeError::MissingMember),
        },
        _ => Err(DecodeError::Expected(Kind::Object)),
    }
}

/// Looking up `key` finds nothing among the first `n` members when none of
/// them is called `key`, and goes on with the rest.
pub proof fn lookup_skips(members: Seq<(Seq<char>, JsonView)>, key: Seq<char>, n: int)
    requires
        0 <= n <= members.len(),
        forall|k: int| 0 <= k < n ==> members[k].0 != key,
    ensures
        lookup(members, key) == lookup(members.subrange(n, members.len() as int), key),
    decreases n,
{
    if n == 0 {
        assert(members.subrange(0, members.len() as int) =~= members);
    } else {
        let rest = members.subrange(1, members.len() as int);
        lookup_skips(rest, key, n - 1);
        assert(rest.subrange(n - 1, rest.len() as int) =~= members.subrange(
            n,
            members.len() as int,
        ));
    }
}

/// Reads the member `key` of an object.
pub fn get_member<'a>(tree: &'a Json, key: &str) -> (outcome: Result<&'a Json, DecodeError>)
    ensures
        outcome_is(outcome, member(tree@, key@)),
{
    match tree {
        Json::Object(members) => {
            let wanted = key.to_owned();
            let ghost all = tree@->Object_0;
            proof {
                members_view_is_pointwise(members@, members@.len());
            }
            let mut i: usize = 0;
            while i < members.len()
                invariant
                    i <= members.len(),
                    wanted@ == key@,
                    tree@ == JsonView::Object(all),
                    all.len() == members.len(),
                    forall|k: int|
                        0 <= k < members.len() ==> all[k] == (members[k].0@, members[k].1@),
                    forall|k: int| 0 <= k < i ==> all[k].0 != key@,
                decreases members.len() - i,
            {
                if members[i].0 == wanted {
                    proof {
                        lookup_skips(all, key@, i as int);
                    }
                    return Ok(&members[i].1);
                }
                i += 1;
            }
            proof {
                lookup_skips(all, key@, i as int);
                assert(all.subrange(i as int, all.len() as int) =~= Seq::empty());
            }
            Err(DecodeError::MissingMember)
        },
        _ => Err(DecodeError::Expected(Kind::Object)),
    }
}

/// The member at place `n` of an object is the one found under its key when
/// no earlier member has the same key.
pub proof fn member_found(members: Seq<(Seq<char>, JsonView)>, n: int)
    requires
        0 <= n < members.len(),
        forall|k: int| 0 <= k < n ==> members[k].0 != members[n].0,
    ensures
        member(JsonView::Object(members), members[n].0) == Ok::<JsonView, DecodeError>(
            members[n].1,
        ),
{
    lookup_skips(members, members[n].0, n);
}

/// An object without members, to which members are added with `push`.
pub open spec fn no_members() -> Seq<(Seq<char>, JsonView)> {
    Seq::empty()
}

/// The object whose members are `members`, all of them.
pub open spec fn object_view(members: Seq<(String, Json)>) -> Seq<(Seq<char>, JsonView)> {
    members_view(members, members.len())
}

/// The list whose items are `items`, all of them.
pub open spec fn list_view(items: Seq<Json>) -> Seq<JsonView> {
    items_view(items, items.len())
}

/// Appending a member to an object appends what it holds to the view.
pub proof fn object_view_push(members: Seq<(String, Json)>, key: String, value: Json)
    ensures
        object_view(members.push((key, value))) == object_view(members).push((key@, value@)),
{
    let longer = members.push((key, value));
    members_view_is_pointwise(longer, longer.len());
    members_view_is_pointwise(members, members.len());
    assert(object_view(longer) =~= object_view(members).push((key@, value@)));
}

/// Appending an item to a list appends what it holds to the view.
pub proof fn list_view_push(items: Seq<Json>, value: Json)
    ensures
        list_view(items.push(value)) == list_view(items).push(value@),
{
    let longer = items.push(value);
    items_view_is_pointwise(longer, longer.len());
    items_view_is_pointwise(items, items.len());
    assert(list_view(longer) =~= list_view(items).push(value@));
}

/// A whole number between `low` and `high`.
pub open spec fn read_whole(tree: JsonView, low: int, high: int) -> Result<int, DecodeError> {
    match tree {
        JsonView::Number(Number::Int(i)) => if low <= i <= high {
            Ok(i as int)
        } else {
            Err(DecodeError::OutOfRange)
        },
        JsonView::Number(Number::Real { .. }) => Err(DecodeError::OutOfRange),
        _ => Err(DecodeError::Expected(Kind::Number)),
    }
}

/// What a tree spells when a whole number that fits in `i32` is expected.
pub open spec fn read_i32(tree: JsonView) -> Result<i32, DecodeError> {
    match read_whole(tree, i32::MIN as int, i32::MAX as int) {
        Ok(i) => Ok(i as i32),
        Err(e) => Err(e),
    }
}

/// What a tree spells when a whole number that fits in `u8` is expected.
pub open spec fn read_u8(tree: JsonView) -> Result<u8, DecodeError> {
    match read_whole(tree, 0, u8::MAX as int) {
        Ok(i) => Ok(i as u8),
        Err(e) => Err(e),
    }
}

/// What a tree spells when a whole number that fits in `u16` is expected.
pub open spec fn read_u16(tree: JsonView) -> Result<u16, DecodeError> {
    match read_whole(tree, 0, u16::MAX as int) {
        Ok(i) => Ok(i as u16),
        Err(e) => Err(e),
    }
}

/// What a tree spells when a whole number that fits in `u32` is expected.
pub open spec fn read_u32(tree: JsonView) -> Result<u32, DecodeError> {
    match read_whole(tree, 0, u32::MAX as int) {
        Ok(i) => Ok(i as u32),
        Err(e) => Err(e),
    }
}

/// What a tree spells when a whole number that fits in `usize` is expected.
pub open spec fn read_usize(tree: JsonView) -> Result<usize, DecodeError> {
    match read_whole(tree, 0, usize::MAX as int) {
        Ok(i) => Ok(i as usize),
        Err(e) => Err(e),
    }
}

/// What a tree spells when a truth value is expected.
pub open spec fn read_bool(tree: JsonView) -> Result<bool, DecodeError> {
    match tree {
        JsonView::Bool(b) => Ok(b),
        _ => Err(DecodeError::Expected(Kind::Bool)),
    }
}

/// What a tree spells when a number, whole or real is expected.
pub open spec fn read_number(tree: JsonView) -> Result<Number, DecodeError> {
    match tree {
        JsonView::Number(n) => Ok(n),
        _ => Err(DecodeError::Expected(Kind::Number)),
    }
}

/// What a tree spells when a text is expected.
pub open spec fn read_text(tree: JsonView) -> Result<Seq<char>, DecodeError> {
    match tree {
        JsonView::Text(s) => Ok(s),
        _ => Err(DecodeError::Expected(Kind::Text)),
    }
}

/// What a tree spells when a list is expected.
pub open spec fn read_list(tree: JsonView) -> Result<Seq<JsonView>, DecodeError> {
    match tree {
        JsonView::List(items) => Ok(items),
        _ => Err(DecodeError::Expected(Kind::List)),
    }
}

/// How a union is written: a bare name for a variant without a body, or an
/// object with one member, whose key is the variant's name and whose value is
/// its body. Gives the name and the body, `Null` where there is none.
pub open spec fn read_variant(tree: JsonView) -> Result<(Seq<char>, JsonView), DecodeError> {
    match tree {
        JsonView::Text(name) => Ok((name, JsonView::Null)),
        JsonView::Object(members) => if members.len() == 1 {
            Ok(members[0])
        } else {
            Err(DecodeError::NotAVariant)
        },
        _ => Err(DecodeError::NotAVariant),
    }
}

/// The body of a variant that has none: it must be absent or `null`.
pub open spec fn read_unit(body: JsonView) -> Result<(), DecodeError> {
    match body {
        JsonView::Null => Ok(()),
        _ => Err(DecodeError::WrongArity),
    }
}

/// How a variant with a body is written.
pub open spec fn tagged(name: Seq<char>, body: JsonView) -> JsonView {
    JsonView::Object(no_members().push((name, body)))
}

/// The tree of a whole number.
pub open spec fn whole(i: int) -> JsonView {
    JsonView::Number(Number::Int(i as i128))
}

/// What the member `key` of an object spells when a whole number that fits in `i32` is expected.
pub open spec fn i32_at(tree: JsonView, key: Seq<char>) -> Result<i32, DecodeError> {
    match member(tree, key) {
        Ok(v) => read_i32(v),
        Err(e) => Err(e),
    }
}

/// What the member `key` of an object spells when a whole number that fits in `u16` is expected.
pub open spec fn u16_at(tree: JsonView, key: Seq<char>) -> Result<u16, DecodeError> {
    match member(tree, key) {
        Ok(v) => read_u16(v),
        Err(e) => Err(e),
    }
}

/// What the member `key` of an object spells when a whole number that fits in `u32` is expected.
pub open spec fn u32_at(tree: JsonView, key: Seq<char>) -> Result<u32, DecodeError> {
    match member(tree, key) {
        Ok(v) => read_u32(v),
        Err(e) => Err(e),
    }
}

/// What the member `key` of an object spells when a whole number that fits in `usize` is expected.
pub open spec fn usize_at(tree: JsonView, key: Seq<char>) -> Result<usize, DecodeError> {
    match member(tree, key) {
        Ok(v) => read_usize(v),
        Err(e) => Err(e),
    }
}

/// What the member `key` of an object spells when a truth value is expected.
pub open spec fn bool_at(tree: JsonView, key: Seq<char>) -> Result<bool, DecodeError> {
    match member(tree, key) {
        Ok(v) => read_bool(v),
        Err(e) => Err(e),
    }
}

/// What the member `key` of an object spells when a number, whole or real is expected.
pub open spec fn number_at(tree: JsonView, key: Seq<char>) -> Result<Number, DecodeError> {
    match member(tree, key) {
        Ok(v) => read_number(v),
        Err(e) => Err(e),
    }
}

/// What the member `key` of an object spells when a text is expected.
pub open spec fn text_at(tree: JsonView, key: Seq<char>) -> Result<Seq<char>, DecodeError> {
    match member(tree, key) {
        Ok(v) => read_text(v),
        Err(e) => Err(e),
    }
}

/// Whether two texts are the same.
pub fn same_text(text: &String, other: &str) -> (same: bool)
    ensures
        same == (text@ == other@),
{
    let owned = other.to_owned();
    *text == owned
}

/// Reads a whole number that fits in `i32`.
pub fn as_i32(tree: &Json) -> (outcome: Result<i32, DecodeError>)
    ensures
        outcome == read_i32(tree@),
{
    match tree {
        Json::Number(Number::Int(i)) => {
            if -0x8000_0000 <= *i && *i <= 0x7fff_ffff {
                Ok(*i as i32)
            } else {
                Err(DecodeError::OutOfRange)
            }
        },
        Json::Number(Number::Real { .. }) => Err(DecodeError::OutOfRange),
        _ => Err(DecodeError::Expected(Kind::Number)),
    }
}

/// Reads a whole number that fits in `u8`.
pub fn as_u8(tree: &Json) -> (outcome: Result<u8, DecodeError>)
    ensures
        outcome == read_u8(tree@),
{
    match tree {
        Json::Number(Number::Int(i)) => {
            if 0 <= *i && *i <= 0xff {
                Ok(*i as u8)
            } else {
                Err(DecodeError::OutOfRange)
            }
        },
        Json::Number(Number::Real { .. }) => Err(DecodeError::OutOfRange),
        _ => Err(DecodeError::Expected(Kind::Number)),
    }
}

/// Reads a whole number that fits in `u16`.
pub fn as_u16(tree: &Json) -> (outcome: Result<u16, DecodeError>)
    ensures
        outcome == read_u16(tree@),
{
    match tree {
        Json::Number(Number::Int(i)) => {
            if 0 <= *i && *i <= 0xffff {
                Ok(*i as u16)
            } else {
                Err(DecodeError::OutOfRange)
            }
        },
        Json::Number(Number::Real { .. }) => Err(DecodeError::OutOfRange),
        _ => Err(DecodeError::Expected(Kind::Number)),
    }
}

/// Reads a whole number that fits in `u32`.
pub fn as_u32(tree: &Json) -> (outcome: Result<u32, DecodeError>)
    ensures
        outcome == read_u32(tree@),
{
    match tree {
        Json::Number(Number::Int(i)) => {
            if 0 <= *i && *i <= 0xffff_ffff {
                Ok(*i as u32)
            } else {
                Err(DecodeError::OutOfRange)
            }
        },
        Json::Number(Number::Real { .. }) => Err(DecodeError::OutOfRange),
        _ => Err(DecodeError::Expected(Kind::Number)),
    }
}

/// Reads a whole number that fits in `usize`.
pub fn as_usize(tree: &Json) -> (outcome: Result<usize, DecodeError>)
    ensures
        outcome == read_usize(tree@),
{
    match tree {
        Json::Number(Number::Int(i)) => {
            if 0 <= *i && *i <= usize::MAX as i128 {
                Ok(*i as usize)
            } else {
                Err(DecodeError::OutOfRange)
            }
        },
        Json::Number(Number::Real { .. }) => Err(DecodeError::OutOfRange),
        _ => Err(DecodeError::Expected(Kind::Number)),
    }
}

/// Reads a truth value.
pub fn as_bool(tree: &Json) -> (outcome: Result<bool, DecodeError>)
    ensures
        outcome == read_bool(tree@),
{
    match tree {
        Json::Bool(b) => Ok(*b),
        _ => Err(DecodeError::Expected(Kind::Bool)),
    }
}

/// Reads a number, whole or real.
pub fn as_number(tree: &Json) -> (outcome: Result<Number, DecodeError>)
    ensures
        outcome == read_number(tree@),
{
    match tree {
        Json::Number(n) => Ok(*n),
        _ => Err(DecodeError::Expected(Kind::Number)),
    }
}

/// Reads a text.
pub fn as_text<'a>(tree: &'a Json) -> (outcome: Result<&'a String, DecodeError>)
    ensures
        outcome_is(outcome, read_text(tree@)),
{
    match tree {
        Json::Text(s) => Ok(s),
        _ => Err(DecodeError::Expected(Kind::Text)),
    }
}

/// Reads a list and hands out its items.
/// Reads a list.
pub fn as_list<'a>(tree: &'a Json) -> (outcome: Result<&'a Vec<Json>, DecodeError>)
    ensures
        match outcome {
            Ok(items) => read_list(tree@) == Ok::<Seq<JsonView>, DecodeError>(list_view(items@))
                && list_view(items@).len() == items@.len() && forall|k: int|
                0 <= k < items@.len() ==> (#[trigger] list_view(items@)[k]) == items@[k]@,
            Err(e) => read_list(tree@) == Err::<Seq<JsonView>, DecodeError>(e),
        },
{
    match tree {
        Json::List(items) => {
            proof {
                items_view_is_pointwise(items@, items@.len());
            }
            Ok(items)
        },
        _ => Err(DecodeError::Expected(Kind::List)),
    }
}

/// What a variant's body holds, `Null` where it is absent.
pub open spec fn body_view(body: Option<&Json>) -> JsonView {
    match body {
        Some(tree) => tree@,
        None => JsonView::Null,
    }
}

/// Reads how a union is written and hands out the variant's name and body.
pub fn as_variant<'a>(tree: &'a Json) -> (outcome: Result<
    (&'a String, Option<&'a Json>),
    DecodeError,
>)
    ensures
        match outcome {
            Ok((name, body)) => read_variant(tree@) == Ok::<(Seq<char>, JsonView), DecodeError>(
                (name@, body_view(body)),
            ),
            Err(e) => read_variant(tree@) == Err::<(Seq<char>, JsonView), DecodeError>(e),
        },
{
    match tree {
        Json::Text(name) => Ok((name, None)),
        Json::Object(members) => {
            proof {
                members_view_is_pointwise(members@, members@.len());
            }
            if members.len() == 1 {
                Ok((&members[0].0, Some(&members[0].1)))
            } else {
                Err(DecodeError::NotAVariant)
            }
        },
        _ => Err(DecodeError::NotAVariant),
    }
}

/// Checks that a variant without a body was written without one.
pub fn as_unit(body: Option<&Json>) -> (outcome: Result<(), DecodeError>)
    ensures
        outcome == read_unit(body_view(body)),
{
    match body {
        None => Ok(()),
        Some(Json::Null) => Ok(()),
        Some(_) => Err(DecodeError::WrongArity),
    }
}

/// Reads a whole number that fits in `i32` under the member `key` of an object.
pub fn get_i32(tree: &Json, key: &str) -> (outcome: Result<i32, DecodeError>)
    ensures
        outcome == i32_at(tree@, key@),
{
    as_i32(get_member(tree, key)?)
}

/// Reads a whole number that fits in `u16` under the member `key` of an object.
pub fn get_u16(tree: &Json, key: &str) -> (outcome: Result<u16, DecodeError>)
    ensures
        outcome == u16_at(tree@, key@),
{
    as_u16(get_member(tree, key)?)
}

/// Reads a whole number that fits in `u32` under the member `key` of an object.
pub fn get_u32(tree: &Json, key: &str) -> (outcome: Result<u32, DecodeError>)
    ensures
        outcome == u32_at(tree@, key@),
{
    as_u32(get_member(tree, key)?)
}

/// Reads a whole number that fits in `usize` under the member `key` of an object.
pub fn get_usize(tree: &Json, key: &str) -> (outcome: Result<usize, DecodeError>)
    ensures
        outcome == usize_at(tree@, key@),
{
    as_usize(get_member(tree, key)?)
}

/// Reads a truth value under the member `key` of an object.
pub fn get_bool(tree: &Json, key: &str) -> (outcome: Result<bool, DecodeError>)
    ensures
        outcome == bool_at(tree@, key@),
{
    as_bool(get_member(tree, key)?)
}

/// Reads a number, whole or real under the member `key` of an object.
pub fn get_number(tree: &Json, key: &str) -> (outcome: Result<Number, DecodeError>)
    ensures
        outcome == number_at(tree@, key@),
{
    as_number(get_member(tree, key)?)
}

/// Reads a text under the member `key` of an object.
pub fn get_text<'a>(tree: &'a Json, key: &str) -> (outcome: Result<&'a String, DecodeError>)
    ensures
        outcome_is(outcome, text_at(tree@, key@)),
{
    as_text(get_member(tree, key)?)
}

/// The tree of a whole number.
pub fn whole_json(i: i128) -> (tree: Json)
    ensures
        tree@ == whole(i as int),
{
    Json::Number(Number::Int(i))
}

/// The tree of a text.
pub fn text_json(text: &str) -> (tree: Json)
    ensures
        tree@ == JsonView::Text(text@),
{
    Json::Text(text.to_owned())
}

/// Appends a member to the members of an object under construction.
pub fn put(members: &mut Vec<(String, Json)>, key: &str, value: Json)
    ensures
        object_view(final(members)@) == object_view(old(members)@).push((key@, value@)),
{
    let name = key.to_owned();
    proof {
        object_view_push(members@, name, value);
    }
    members.push((name, value));
}

/// Closes an object under construction.
pub fn object(members: Vec<(String, Json)>) -> (tree: Json)
    ensures
        tree@ == JsonView::Object(object_view(members@)),
{
    Json::Object(members)
}

/// Writes a variant with a body.
pub fn tagged_json(name: &str, body: Json) -> (tree: Json)
    ensures
        tree@ == tagged(name@, body@),
{
    let mut members: Vec<(String, Json)> = Vec::new();
    put(&mut members, name, body);
    object(members)
}

/// The texts that the items of a list spell, read in their order: the first
/// item that is no text gives the error.
pub open spec fn read_texts(items: Seq<JsonView>) -> Result<Seq<Seq<char>>, DecodeError>
    decreases items.len(),
{
    if items.len() == 0 {
        Ok(Seq::empty())
    } else {
        match read_texts(items.drop_last()) {
            Err(e) => Err(e),
            Ok(front) => match read_text(items.last()) {
                Ok(text) => Ok(front.push(text)),
                Err(e) => Err(e),
            },
        }
    }
}

/// The list of texts under the member `key` of an object.
pub open spec fn texts_at(tree: JsonView, key: Seq<char>) -> Result<Seq<Seq<char>>, DecodeError> {
    match member(tree, key) {
        Err(e) => Err(e),
        Ok(v) => match read_list(v) {
            Err(e) => Err(e),
            Ok(items) => read_texts(items),
        },
    }
}

/// How a list of texts is written.
pub open spec fn texts_wire(texts: Seq<Seq<char>>) -> JsonView {
    JsonView::List(Seq::new(texts.len(), |i: int| JsonView::Text(texts[i])))
}

/// Once an item is no text, no longer list can be read.
pub proof fn read_texts_stays_refused(items: Seq<JsonView>, n: int)
    requires
        0 <= n <= items.len(),
        read_texts(items.take(n)) is Err,
    ensures
        read_texts(items) == read_texts(items.take(n)),
    decreases items.len(),
{
    if n < items.len() {
        assert(items.drop_last().take(n) =~= items.take(n));
        read_texts_stays_refused(items.drop_last(), n);
    } else {
        assert(items.take(n) =~= items);
    }
}

/// A list of texts that is written and read again is the same list.
pub proof fn texts_round_trip(texts: Seq<Seq<char>>)
    ensures
        read_list(texts_wire(texts)) == Ok::<Seq<JsonView>, DecodeError>(
            texts_wire(texts)->List_0,
        ),
        read_texts(texts_wire(texts)->List_0) == Ok::<Seq<Seq<char>>, DecodeError>(texts),
    decreases texts.len(),
{
    let items = texts_wire(texts)->List_0;
    if texts.len() == 0 {
        assert(texts =~= Seq::empty());
    } else {
        texts_round_trip(texts.drop_last());
        assert(items.drop_last() =~= texts_wire(texts.drop_last())->List_0);
        assert(texts.drop_last().push(texts.last()) =~= texts);
    }
}

/// Reads a list of texts.
pub fn as_texts(tree: &Json) -> (outcome: Result<Vec<String>, DecodeError>)
    ensures
        match outcome {
            Ok(texts) => read_list(tree@) is Ok && read_texts(read_list(tree@)->Ok_0) == Ok::<
                Seq<Seq<char>>,
                DecodeError,
            >(texts.deep_view()),
            Err(e) => match read_list(tree@) {
                Err(first) => e == first,
                Ok(items) => read_texts(items) == Err::<Seq<Seq<char>>, DecodeError>(e),
            },
        },
{
    let items = as_list(tree)?;
    let ghost all = list_view(items@);
    let mut texts: Vec<String> = Vec::new();
    let mut i: usize = 0;
    assert(all.take(0) =~= Seq::empty());
    assert(texts.deep_view() =~= Seq::<Seq<char>>::empty());
    while i < items.len()
        invariant
            i <= items.len(),
            all == list_view(items@),
            read_list(tree@) == Ok::<Seq<JsonView>, DecodeError>(all),
            all.len() == items@.len(),
            forall|k: int| 0 <= k < items@.len() ==> (#[trigger] all[k]) == items@[k]@,
            read_texts(all.take(i as int)) == Ok::<Seq<Seq<char>>, DecodeError>(
                texts.deep_view(),
            ),
        decreases items.len() - i,
    {
        let ghost before = texts.deep_view();
        assert(all.take(i + 1).drop_last() =~= all.take(i as int));
        assert(all.take(i + 1).last() == all[i as int]);
        match as_text(&items[i]) {
            Ok(text) => {
                texts.push(text.clone());
                assert(texts.deep_view() =~= before.push(text@));
            },
            Err(e) => {
                proof {
                    assert(read_text(all[i as int]) == Err::<Seq<char>, DecodeError>(e));
                    assert(read_texts(all.take(i + 1)) == Err::<Seq<Seq<char>>, DecodeError>(e));
                    read_texts_stays_refused(all, i + 1);
                }
                return Err(e);
            },
        }
        i += 1;
    }
    assert(all.take(i as int) =~= all);
    Ok(texts)
}

/// Reads the list of texts under the member `key` of an object.
pub fn get_texts(tree: &Json, key: &str) -> (outcome: Result<Vec<String>, DecodeError>)
    ensures
        match outcome {
            Ok(texts) => texts_at(tree@, key@) == Ok::<Seq<Seq<char>>, DecodeError>(
                texts.deep_view(),
            ),
            Err(e) => texts_at(tree@, key@) == Err::<Seq<Seq<char>>, DecodeError>(e),
        },
{
    as_texts(get_member(tree, key)?)
}

/// Writes a list of texts.
pub fn texts_json(texts: &Vec<String>) -> (tree: Json)
    ensures
        tree@ == texts_wire(texts.deep_view()),
{
    let mut items: Vec<Json> = Vec::new();
    let mut i: usize = 0;
    while i < texts.len()
        invariant
            i <= texts.len(),
            items@.len() == i,
            forall|k: int| 0 <= k < i ==> (#[trigger] items@[k])@ == JsonView::Text(texts@[k]@),
        decreases texts.len() - i,
    {
        let item = Json::Text(texts[i].clone());
        items.push(item);
        i += 1;
    }
    proof {
        items_view_is_pointwise(items@, items@.len());
        assert(list_view(items@) =~= texts_wire(texts.deep_view())->List_0);
    }
    Json::List(items)
}

/// What an optional text holds.
pub open spec fn optional_text(text: Option<String>) -> Option<Seq<char>> {
    match text {
        Some(s) => Some(s@),
        None => None,
    }
}

/// How an optional text is written: `null` where there is none.
pub open spec fn optional_text_wire(text: Option<Seq<char>>) -> JsonView {
    match text {
        Some(s) => JsonView::Text(s),
        None => JsonView::Null,
    }
}

/// The optional text under the member `key` of an object: none where the
/// member is absent or `null`.
pub open spec fn optional_text_at(tree: JsonView, key: Seq<char>) -> Result<
    Option<Seq<char>>,
    DecodeError,
> {
    match member(tree, key) {
        Ok(JsonView::Null) => Ok(None),
        Ok(JsonView::Text(s)) => Ok(Some(s)),
        Ok(_) => Err(DecodeError::Expected(Kind::Text)),
        Err(DecodeError::MissingMember) => Ok(None),
        Err(e) => Err(e),
    }
}

/// Reads the optional text under the member `key` of an object.
pub fn get_optional_text(tree: &Json, key: &str) -> (outcome: Result<Option<String>, DecodeError>)
    ensures
        match outcome {
            Ok(text) => optional_text_at(tree@, key@) == Ok::<Option<Seq<char>>, DecodeError>(
                optional_text(text),
            ),
            Err(e) => optional_text_at(tree@, key@) == Err::<Option<Seq<char>>, DecodeError>(e),
        },
{
    match get_member(tree, key) {
        Ok(Json::Null) => Ok(None),
        Ok(Json::Text(s)) => Ok(Some(s.clone())),
        Ok(_) => Err(DecodeError::Expected(Kind::Text)),
        Err(DecodeError::MissingMember) => Ok(None),
        Err(e) => Err(e),
    }
}

/// Writes an optional text.
pub fn optional_text_json(text: &Option<String>) -> (tree: Json)
    ensures
        tree@ == optional_text_wire(optional_text(*text)),
{
    match text {
        Some(s) => Json::Text(s.clone()),
        None => Json::Null,
    }
}

} // verus!
