//! Typed retrieval of configuration parameters.
//!
//! The caller names the type it wants. That choice alone selects the native
//! getter, and it alone decides what an answer is worth: an answer of the
//! other type is absent, as is a numeric answer not found and an empty text.

use vstd::prelude::*;
use crate::message::{DataType, MessageValue, MoosMessageData};
use crate::native::{NativeReply, NativeReplyView};
use crate::text::{c_bytes, c_encodable, c_text, decode_c_text, lemma_c_text_round_trip};

verus! {

/// Where a parameter is looked up: in the whole mission, or in the block of
/// this application.
#[derive(Clone, Copy, Debug, PartialEq, Eq, Structural)]
pub enum ParamScope {
    Global,
    App,
}

/// The worth of a numeric answer to a caller that asked for `requested`.
pub open spec fn double_param(requested: DataType, status: bool, data: u64) -> Option<MessageValue> {
    if status && requested == DataType::Double {
        Some(MessageValue::Double(data))
    } else {
        None
    }
}

/// The worth of a textual answer to a caller that asked for `requested`.
pub open spec fn text_param(requested: DataType, text: Seq<char>) -> Option<MessageValue> {
    if text.len() > 0 && requested == DataType::Text {
        Some(MessageValue::Text(text))
    } else {
        None
    }
}

/// The text of a textual reply can be read.
pub open spec fn readable(reply: NativeReplyView) -> bool {
    reply matches NativeReplyView::Text(buf) ==> c_text(buf) is Some
}

/// The result of a parameter query: what `reply` is worth to a caller that
/// asked for `requested`.
pub open spec fn param_value(requested: DataType, reply: NativeReplyView) -> Option<MessageValue> {
    match reply {
        NativeReplyView::Double { found, value } => double_param(requested, found, value),
        NativeReplyView::Text(buf) => text_param(requested, c_text(buf)->0),
        _ => None,
    }
}

/// What the host answers for a stored parameter when it is asked through the
/// getter of the parameter's own type.
pub open spec fn stored_reply(stored: MessageValue) -> NativeReplyView {
    match stored {
        MessageValue::Double(bits) => NativeReplyView::Double { found: true, value: bits },
        MessageValue::Text(text) => NativeReplyView::Text(c_bytes(text)),
    }
}

/// A stored parameter comes back unchanged to a caller that asks for its
/// type, and is absent to a caller that asks for the other type. A stored
/// text is one that the host can hold and report: not empty, and without NUL.
pub proof fn lemma_param_round_trip(requested: DataType, stored: MessageValue)
    requires
        stored matches MessageValue::Text(text) ==> text.len() > 0 && c_encodable(text),
    ensures
        readable(stored_reply(stored)),
        requested == stored.data_type() ==> param_value(requested, stored_reply(stored)) == Some(stored),
        requested != stored.data_type() ==> param_value(requested, stored_reply(stored)) is None,
{
    if let MessageValue::Text(text) = stored {
        lemma_c_text_round_trip(text);
    }
}

/// Turns the answer of a numeric getter into the value asked for: present
/// when the parameter was found and a number was asked for.
pub fn convert_f64(requested: DataType, status: bool, data: u64) -> (value: Option<MoosMessageData>)
    ensures
        match value {
            Some(v) => double_param(requested, status, data) == Some(v@),
            None => double_param(requested, status, data) is None,
        },
{
    match status {
        true => match requested {
            DataType::Double => Some(MoosMessageData::DOUBLE(data)),
            DataType::Text => None,
        },
        false => None,
    }
}

/// Turns the answer of a textual getter into the value asked for: present
/// when the text is not empty and a text was asked for.
pub fn convert_str(requested: DataType, cstr: &[u8]) -> (value: Option<MoosMessageData>)
    requires
        c_text(cstr@) is Some,
    ensures
        match value {
            Some(v) => text_param(requested, c_text(cstr@)->0) == Some(v@),
            None => text_param(requested, c_text(cstr@)->0) is None,
        },
{
    let data = decode_c_text(cstr).unwrap();
    if !data.as_str().is_empty() {
        match requested {
            DataType::Text => Some(MoosMessageData::STRING(data)),
            DataType::Double => None,
        }
    } else {
        None
    }
}

/// Whether the text of a textual reply can be read; true of every other reply.
pub fn is_readable(reply: &NativeReply) -> (ok: bool)
    ensures
        ok == readable(reply@),
{
    match reply {
        NativeReply::Text(buf) => decode_c_text(buf.as_slice()).is_some(),
        _ => true,
    }
}

/// The result of a parameter query from the host's reply: the value, of the
/// type asked for, or absent.
pub fn param_result(requested: DataType, reply: &NativeReply) -> (value: Option<MoosMessageData>)
    requires
        readable(reply@),
    ensures
        match value {
            Some(v) => param_value(requested, reply@) == Some(v@),
            None => param_value(requested, reply@) is None,
        },
{
    match reply {
        NativeReply::Double { found, value } => convert_f64(requested, *found, *value),
        NativeReply::Text(buf) => convert_str(requested, buf.as_slice()),
        _ => None,
    }
}

} // verus!
