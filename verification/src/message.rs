//! Typed message values and the raw envelopes that the host delivers.
//!
//! A numeric payload is held as the bit pattern of an IEEE 754 binary64
//! number (`f64::to_bits`), so that values compare exactly and no arithmetic
//! is ever done on them here.

use vstd::prelude::*;
use vstd::std_specs::cmp::PartialEqSpecImpl;
use crate::text::{c_text, decode_c_text};

verus! {

/// The closed set of wire types: numeric and textual.
#[derive(Clone, Copy, Debug, PartialEq, Eq, Structural)]
pub enum DataType {
    Double,
    Text,
}

/// The discriminant of a numeric envelope.
pub const DATA_TYPE_DOUBLE: u32 = 0;

/// The discriminant of a textual envelope.
pub const DATA_TYPE_STRING: u32 = 1;

impl DataType {
    /// The discriminant that stands for this type in an envelope.
    pub open spec fn spec_code(self) -> u32 {
        match self {
            DataType::Double => DATA_TYPE_DOUBLE,
            DataType::Text => DATA_TYPE_STRING,
        }
    }

    /// The type that a discriminant stands for; `None` for any other number.
    pub open spec fn spec_from_code(code: u32) -> Option<DataType> {
        if code == DATA_TYPE_DOUBLE {
            Some(DataType::Double)
        } else if code == DATA_TYPE_STRING {
            Some(DataType::Text)
        } else {
            None
        }
    }

    #[verifier::when_used_as_spec(spec_code)]
    pub fn code(self) -> (code: u32)
        ensures
            code == self.spec_code(),
            DataType::spec_from_code(code) == Some(self),
    {
        match self {
            DataType::Double => DATA_TYPE_DOUBLE,
            DataType::Text => DATA_TYPE_STRING,
        }
    }

    #[verifier::when_used_as_spec(spec_from_code)]
    pub fn from_code(code: u32) -> (data_type: Option<DataType>)
        ensures
            data_type == DataType::spec_from_code(code),
    {
        if code == DATA_TYPE_DOUBLE {
            Some(DataType::Double)
        } else if code == DATA_TYPE_STRING {
            Some(DataType::Text)
        } else {
            None
        }
    }
}

/// A message value as contracts speak of it.
pub enum MessageValue {
    /// A number, by its binary64 bit pattern.
    Double(u64),
    /// A text.
    Text(Seq<char>),
}

impl MessageValue {
    /// The wire type of the value.
    pub open spec fn data_type(self) -> DataType {
        match self {
            MessageValue::Double(_) => DataType::Double,
            MessageValue::Text(_) => DataType::Text,
        }
    }
}

/// The value of a variable, sent to the host or received from it in mail.
#[derive(Debug)]
pub enum MoosMessageData {
    /// A number, by its binary64 bit pattern.
    DOUBLE(u64),
    /// A text, owned by the value.
    STRING(String),
}

impl View for MoosMessageData {
    type V = MessageValue;

    open spec fn view(&self) -> MessageValue {
        match self {
            MoosMessageData::DOUBLE(bits) => MessageValue::Double(*bits),
            MoosMessageData::STRING(text) => MessageValue::Text(text@),
        }
    }
}

impl Clone for MoosMessageData {
    fn clone(&self) -> (copy: Self)
        ensures
            copy@ == self@,
    {
        match self {
            MoosMessageData::DOUBLE(bits) => MoosMessageData::DOUBLE(*bits),
            MoosMessageData::STRING(text) => MoosMessageData::STRING(text.clone()),
        }
    }
}

impl PartialEq for MoosMessageData {
    fn eq(&self, other: &Self) -> (equal: bool) {
        match (self, other) {
            (MoosMessageData::DOUBLE(a), MoosMessageData::DOUBLE(b)) => *a == *b,
            (MoosMessageData::STRING(a), MoosMessageData::STRING(b)) => *a == *b,
            _ => false,
        }
    }
}

impl PartialEqSpecImpl for MoosMessageData {
    open spec fn obeys_eq_spec() -> bool {
        true
    }

    open spec fn eq_spec(&self, other: &Self) -> bool {
        self@ == other@
    }
}

impl MoosMessageData {
    /// The wire type of the value: its tag.
    pub fn data_type(&self) -> (data_type: DataType)
        ensures
            data_type == self@.data_type(),
    {
        match self {
            MoosMessageData::DOUBLE(_) => DataType::Double,
            MoosMessageData::STRING(_) => DataType::Text,
        }
    }
}

/// One raw mail record, as the host lays it out. `name` and `s_value` are C
/// buffers: text closed by a NUL byte.
#[derive(Debug)]
pub struct Envelope {
    pub name: Vec<u8>,
    pub kind: u32,
    pub d_value: u64,
    pub s_value: Vec<u8>,
}

/// An envelope as contracts speak of it.
pub struct EnvelopeView {
    pub name: Seq<u8>,
    pub kind: u32,
    pub d_value: u64,
    pub s_value: Seq<u8>,
}

impl View for Envelope {
    type V = EnvelopeView;

    open spec fn view(&self) -> EnvelopeView {
        EnvelopeView {
            name: self.name@,
            kind: self.kind,
            d_value: self.d_value,
            s_value: self.s_value@,
        }
    }
}

/// Why an envelope could not be decoded.
#[derive(Clone, Copy, Debug, PartialEq, Eq, Structural)]
pub enum FaultKind {
    /// The name is not valid UTF-8.
    BadName,
    /// The discriminant is neither numeric nor textual.
    UnknownKind,
    /// The envelope is textual and its text is not valid UTF-8.
    BadText,
}

impl FaultKind {
    /// Whether the fault ends the application. Text that is not valid UTF-8
    /// breaks what the host guarantees, and nothing can be done about it; an
    /// unknown discriminant is answered to the host as a failed delivery.
    pub open spec fn spec_is_fatal(self) -> bool {
        self != FaultKind::UnknownKind
    }

    #[verifier::when_used_as_spec(spec_is_fatal)]
    pub fn is_fatal(self) -> (fatal: bool)
        ensures
            fatal == self.spec_is_fatal(),
    {
        match self {
            FaultKind::BadName => true,
            FaultKind::UnknownKind => false,
            FaultKind::BadText => true,
        }
    }
}

/// A fault met while decoding a batch of mail: the position of the first
/// envelope that could not be decoded, and why.
#[derive(Clone, Copy, Debug, PartialEq, Eq, Structural)]
pub struct DecodeFault {
    pub index: usize,
    pub kind: FaultKind,
}

/// Whether an envelope of discriminant `kind` carries a text: only then is
/// its `s_value` read.
pub fn carries_text(kind: u32) -> (textual: bool)
    ensures
        textual == (DataType::spec_from_code(kind) == Some(DataType::Text)),
{
    kind == DATA_TYPE_STRING
}

/// What an envelope decodes to: its name and its value, the tag of the value
/// being the envelope's discriminant. The name is read first, then the
/// discriminant, and the text only of a textual envelope.
pub open spec fn decoded(e: EnvelopeView) -> Result<(Seq<char>, MessageValue), FaultKind> {
    match c_text(e.name) {
        None => Err(FaultKind::BadName),
        Some(name) => match DataType::spec_from_code(e.kind) {
            None => Err(FaultKind::UnknownKind),
            Some(DataType::Double) => Ok((name, MessageValue::Double(e.d_value))),
            Some(DataType::Text) => match c_text(e.s_value) {
                None => Err(FaultKind::BadText),
                Some(text) => Ok((name, MessageValue::Text(text))),
            },
        },
    }
}

/// Decodes one envelope into the name of the variable and its typed value.
pub fn decode_envelope(e: &Envelope) -> (entry: Result<(String, MoosMessageData), FaultKind>)
    ensures
        match entry {
            Ok((name, value)) => decoded(e@) == Ok::<_, FaultKind>((name@, value@)),
            Err(kind) => decoded(e@) == Err::<(Seq<char>, MessageValue), _>(kind),
        },
{
    let name = match decode_c_text(e.name.as_slice()) {
        Some(name) => name,
        None => {
            return Err(FaultKind::BadName);
        },
    };
    match DataType::from_code(e.kind) {
        None => Err(FaultKind::UnknownKind),
        Some(DataType::Double) => Ok((name, MoosMessageData::DOUBLE(e.d_value))),
        Some(DataType::Text) => match decode_c_text(e.s_value.as_slice()) {
            None => Err(FaultKind::BadText),
            Some(text) => Ok((name, MoosMessageData::STRING(text))),
        },
    }
}

} // verus!
