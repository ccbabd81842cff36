//! Binary payloads, carried on the wire as standard padded base64 text.

use base64::Engine;
use crate::wire::{
    as_text, get_member, get_text, get_u32, member, member_found, no_members, object,
    outcome_is, put, read_text, text_at, text_json, u32_at, whole, whole_json, DecodeError,
    Json, JsonView,
};
use vstd::prelude::*;

verus! {

/// Why a text is not the base64 form of any byte string.
#[derive(Clone, Copy, Debug, PartialEq, Eq, Structural)]
pub enum PayloadError {
    /// A symbol outside the alphabet, or padding in the wrong place.
    InvalidByte { offset: usize, byte: u8 },
    /// The number of symbols cannot come from whole bytes.
    InvalidLength { length: usize },
    /// The last symbol carries bits that no byte would receive.
    InvalidLastSymbol { offset: usize, byte: u8 },
    /// The padding is absent or not canonical.
    InvalidPadding,
}

/// The standard padded base64 text of `bytes`, as `base64` writes it.
pub uninterp spec fn base64_text(bytes: Seq<u8>) -> Seq<char>;

/// What `base64` makes of `text` when it decodes it with the standard padded
/// alphabet: the bytes, or the reason for which it refuses the text.
pub uninterp spec fn base64_decoded(text: Seq<char>) -> Result<Seq<u8>, PayloadError>;

/// `text` decodes, and to exactly `bytes`.
pub open spec fn decodes_to(text: Seq<char>, bytes: Seq<u8>) -> bool {
    base64_decoded(text) == Ok::<Seq<u8>, PayloadError>(bytes)
}

/// The base64 text of `bytes` has a length that fits in `usize`: four
/// symbols for every three bytes, and four more for what is left over.
pub open spec fn encodable(bytes: Seq<u8>) -> bool {
    bytes.len() / 3 * 4 + (if bytes.len() % 3 == 0 {
        0int
    } else {
        4int
    }) <= usize::MAX
}

/// Calls `Engine::encode` of `base64::prelude::BASE64_STANDARD`. Its text is
/// named by `base64_text`; the second clause is the crate's promise that the
/// same engine decodes that text to the bytes it was made from. The call
/// panics when the text's length overflows, which `requires` leaves out.
#[verifier::external_body]
fn standard_encode(bytes: &[u8]) -> (text: String)
    requires
        encodable(bytes@),
    ensures
        text@ == base64_text(bytes@),
        decodes_to(text@, bytes@),
{
    base64::prelude::BASE64_STANDARD.encode(bytes)
}

/// Calls `Engine::decode` of `base64::prelude::BASE64_STANDARD` and moves the
/// fields of its error into `PayloadError`, variant by variant. The outcome is
/// named by `base64_decoded`.
#[verifier::external_body]
fn standard_decode(text: &str) -> (outcome: Result<Vec<u8>, PayloadError>)
    ensures
        decoded_as(outcome, base64_decoded(text@)),
{
    match base64::prelude::BASE64_STANDARD.decode(text) {
        Ok(bytes) => Ok(bytes),
        Err(base64::DecodeError::InvalidByte(offset, byte)) => Err(
            PayloadError::InvalidByte { offset, byte },
        ),
        Err(base64::DecodeError::InvalidLength(length)) => Err(
            PayloadError::InvalidLength { length },
        ),
        Err(base64::DecodeError::InvalidLastSymbol(offset, byte)) => Err(
            PayloadError::InvalidLastSymbol { offset, byte },
        ),
        Err(base64::DecodeError::InvalidPadding) => Err(PayloadError::InvalidPadding),
    }
}

/// An executable outcome holds what the model `expected` holds.
pub open spec fn decoded_as(
    outcome: Result<Vec<u8>, PayloadError>,
    expected: Result<Seq<u8>, PayloadError>,
) -> bool {
    match outcome {
        Ok(bytes) => expected == Ok::<Seq<u8>, PayloadError>(bytes@),
        Err(e) => expected == Err::<Seq<u8>, PayloadError>(e),
    }
}

/// Writes `bytes` as base64 text. Decoding the text gives the bytes back.
pub fn encode_bytes(bytes: &[u8]) -> (text: String)
    requires
        encodable(bytes@),
    ensures
        text@ == base64_text(bytes@),
        decodes_to(text@, bytes@),
{
    standard_encode(bytes)
}

/// What a reader makes of a payload that was decoded: it keeps no bytes, and
/// hands on the reason for which a text was refused as a decode error of its
/// own kind.
pub fn check_payload(decoded: &Result<Vec<u8>, PayloadError>) -> (verdict: Result<(), DecodeError>)
    ensures
        match *decoded {
            Ok(_) => verdict == Ok::<(), DecodeError>(()),
            Err(e) => verdict == Err::<(), DecodeError>(DecodeError::BadPayload(e)),
        },
{
    match decoded {
        Ok(_) => Ok(()),
        Err(e) => Err(DecodeError::BadPayload(*e)),
    }
}

/// Reads base64 text back into bytes, or says why the text is malformed.
pub fn decode_bytes(text: &str) -> (outcome: Result<Vec<u8>, PayloadError>)
    ensures
        decoded_as(outcome, base64_decoded(text@)),
{
    standard_decode(text)
}

/// Bytes on one channel of the serial link. `data` is base64 text.
#[derive(Clone, Debug, PartialEq, Eq, Hash, PartialOrd, Ord)]
pub struct SerialData {
    pub channel: u32,
    pub data: String,
}

/// What a value of `SerialData` holds.
pub struct SerialDataView {
    pub channel: u32,
    pub data: Seq<char>,
}

impl View for SerialData {
    type V = SerialDataView;

    open spec fn view(&self) -> SerialDataView {
        SerialDataView { channel: self.channel, data: self.data@ }
    }
}

impl SerialDataView {
    /// The invariant of a value: what a reader checks before it hands the
    /// value out.
    pub open spec fn well_formed(self) -> bool {
        &&& base64_decoded(self.data) is Ok
    }

    /// How a value is written: an object with one member for each field, in
    /// the order of the fields.
    pub open spec fn wire(self) -> JsonView {
        JsonView::Object(
            no_members().push(("channel"@, whole(self.channel as int))).push(
                ("data"@, JsonView::Text(self.data)),
            ),
        )
    }

    /// The value that a tree spells, or why it spells none: the fields are
    /// read in their order, and the first that cannot be read gives the error.
    pub open spec fn read(tree: JsonView) -> Result<SerialDataView, DecodeError> {
        let channel = u32_at(tree, "channel"@);
        let data = text_at(tree, "data"@);
        if channel is Err {
            Err(channel->Err_0)
        } else if data is Err {
            Err(data->Err_0)
        } else if !(base64_decoded(data->Ok_0) is Ok) {
            Err(DecodeError::BadPayload(base64_decoded(data->Ok_0)->Err_0))
        } else {
            Ok(SerialDataView { channel: channel->Ok_0, data: data->Ok_0 })
        }
    }

    /// The value under the member `key` of an object.
    pub open spec fn at(tree: JsonView, key: Seq<char>) -> Result<SerialDataView, DecodeError> {
        match member(tree, key) {
            Ok(v) => SerialDataView::read(v),
            Err(e) => Err(e),
        }
    }

    /// The members have different names.
    proof fn names_differ()
        ensures
            "channel"@.len() == 7,
            "data"@.len() == 4,
    {
        reveal_strlit("channel");
        reveal_strlit("data");
    }

    /// A value that is written and read again is the same value.
    pub proof fn wire_round_trip(self)
        requires
            self.well_formed(),
        ensures
            SerialDataView::read(self.wire()) == Ok::<SerialDataView, DecodeError>(self),
    {
        SerialDataView::names_differ();
        let members = self.wire()->Object_0;
        member_found(members, 0);
        member_found(members, 1);
    }

    /// What is read is well-formed.
    pub proof fn read_is_well_formed(tree: JsonView)
        ensures
            SerialDataView::read(tree) is Ok ==> SerialDataView::read(tree)->Ok_0.well_formed(),
    {
    }
}

impl SerialData {
    /// Writes the value.
    pub fn to_json(&self) -> (tree: Json)
        ensures
            tree@ == self@.wire(),
    {
        let mut members: Vec<(String, Json)> = Vec::new();
        put(&mut members, "channel", whole_json(self.channel as i128));
        put(&mut members, "data", text_json(self.data.as_str()));
        object(members)
    }

    /// Reads a value.
    pub fn from_json(tree: &Json) -> (outcome: Result<SerialData, DecodeError>)
        ensures
            outcome_is(outcome, SerialDataView::read(tree@)),
    {
        let channel = get_u32(tree, "channel")?;
        let data = get_text(tree, "data")?.clone();
        check_payload(&decode_bytes(data.as_str()))?;
        Ok(SerialData { channel, data })
    }

    /// Reads the value under the member `key` of an object.
    pub fn get(tree: &Json, key: &str) -> (outcome: Result<SerialData, DecodeError>)
        ensures
            outcome_is(outcome, SerialDataView::at(tree@, key@)),
    {
        SerialData::from_json(get_member(tree, key)?)
    }
}

impl SerialData {
    /// The message that carries `bytes` on `channel`. Its text decodes to
    /// `bytes` again.
    pub fn new(channel: u32, bytes: &[u8]) -> (message: SerialData)
        requires
            encodable(bytes@),
        ensures
            message@.channel == channel,
            message@.data == base64_text(bytes@),
            decodes_to(message@.data, bytes@),
            message@.well_formed(),
    {
        SerialData { channel, data: encode_bytes(bytes) }
    }

    /// The bytes that the message carries, or why its text is malformed.
    pub fn to_bytes(&self) -> (outcome: Result<Vec<u8>, PayloadError>)
        ensures
            decoded_as(outcome, base64_decoded(self@.data)),
            self@.well_formed() ==> outcome is Ok,
    {
        decode_bytes(self.data.as_str())
    }
}

/// The signature of the uploaded program: an opaque byte string, carried as
/// base64 text.
#[derive(Clone, Debug, PartialEq, Eq, Hash, PartialOrd, Ord)]
pub struct VCodeSig(pub String);

/// What a value of `VCodeSig` holds.
pub struct VCodeSigView(pub Seq<char>);

impl View for VCodeSig {
    type V = VCodeSigView;

    open spec fn view(&self) -> VCodeSigView {
        VCodeSigView(self.0@)
    }
}

impl VCodeSigView {
    /// The invariant of a signature: its text is base64.
    pub open spec fn well_formed(self) -> bool {
        base64_decoded(self.0) is Ok
    }

    /// How a signature is written: as the bare text.
    pub open spec fn wire(self) -> JsonView {
        JsonView::Text(self.0)
    }

    /// The signature that a tree spells, or why it spells none.
    pub open spec fn read(tree: JsonView) -> Result<VCodeSigView, DecodeError> {
        match read_text(tree) {
            Err(e) => Err(e),
            Ok(text) => if base64_decoded(text) is Ok {
                Ok(VCodeSigView(text))
            } else {
                Err(DecodeError::BadPayload(base64_decoded(text)->Err_0))
            },
        }
    }

    /// A signature that is written and read again is the same signature.
    pub proof fn wire_round_trip(self)
        requires
            self.well_formed(),
        ensures
            VCodeSigView::read(self.wire()) == Ok::<VCodeSigView, DecodeError>(self),
    {
    }

    /// What is read is well-formed.
    pub proof fn read_is_well_formed(tree: JsonView)
        ensures
            VCodeSigView::read(tree) is Ok ==> VCodeSigView::read(tree)->Ok_0.well_formed(),
    {
    }
}

impl VCodeSig {
    /// The signature that carries `bytes`. Its text decodes to `bytes` again.
    pub fn new(bytes: &[u8]) -> (signature: VCodeSig)
        requires
            encodable(bytes@),
        ensures
            signature@.0 == base64_text(bytes@),
            decodes_to(signature@.0, bytes@),
            signature@.well_formed(),
    {
        VCodeSig(encode_bytes(bytes))
    }

    /// The bytes of the signature, or why its text is malformed.
    pub fn to_bytes(&self) -> (outcome: Result<Vec<u8>, PayloadError>)
        ensures
            decoded_as(outcome, base64_decoded(self@.0)),
            self@.well_formed() ==> outcome is Ok,
    {
        decode_bytes(self.0.as_str())
    }

    /// Writes the signature.
    pub fn to_json(&self) -> (tree: Json)
        ensures
            tree@ == self@.wire(),
    {
        text_json(self.0.as_str())
    }

    /// Reads a signature.
    pub fn from_json(tree: &Json) -> (outcome: Result<VCodeSig, DecodeError>)
        ensures
            outcome_is(outcome, VCodeSigView::read(tree@)),
    {
        let text = as_text(tree)?.clone();
        check_payload(&decode_bytes(text.as_str()))?;
        Ok(VCodeSig(text))
    }
}

} // verus!
