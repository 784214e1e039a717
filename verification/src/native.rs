//! The native entry points, as values.
//!
//! The library never calls the host. It says which entry point is to be
//! called, with which arguments, as a `NativeCall`; whoever owns the native
//! handle makes the call and hands back what the host answered, as a
//! `NativeReply`. Text arguments are C buffers, ready to be passed by
//! address; numbers are binary64 bit patterns.

use vstd::prelude::*;

verus! {

/// One call of a native entry point on the application handle.
#[derive(Debug, PartialEq, Eq)]
pub enum NativeCall {
    /// Allocate the native application object.
    Create,
    /// Bind the periodic-tick trampoline.
    SetIterateCallback,
    /// Bind the start-up trampoline.
    SetOnStartUpCallback,
    /// Bind the connection trampoline.
    SetOnConnectToServerCallback,
    /// Bind the mail trampoline.
    SetOnNewMailCallback,
    /// Store the re-entry value that every trampoline is handed back.
    SetTarget { target: usize },
    /// Enter the host's run loop.
    Run { name: Vec<u8>, mission: Vec<u8> },
    /// Publish a numeric variable.
    NotifyDouble { name: Vec<u8>, value: u64 },
    /// Publish a textual variable.
    NotifyString { name: Vec<u8>, text: Vec<u8> },
    /// Subscribe to a variable.
    Register { name: Vec<u8>, interval: u64 },
    /// Look up a numeric parameter of the whole mission.
    GetDoubleGlobalConfigParam { name: Vec<u8> },
    /// Look up a textual parameter of the whole mission.
    GetStringGlobalConfigParam { name: Vec<u8> },
    /// Look up a numeric parameter of this application.
    GetDoubleAppConfigParam { name: Vec<u8> },
    /// Look up a textual parameter of this application.
    GetStringAppConfigParam { name: Vec<u8> },
    /// Release the native application object.
    Delete,
}

/// A native call as contracts speak of it.
pub enum NativeCallView {
    Create,
    SetIterateCallback,
    SetOnStartUpCallback,
    SetOnConnectToServerCallback,
    SetOnNewMailCallback,
    SetTarget { target: usize },
    Run { name: Seq<u8>, mission: Seq<u8> },
    NotifyDouble { name: Seq<u8>, value: u64 },
    NotifyString { name: Seq<u8>, text: Seq<u8> },
    Register { name: Seq<u8>, interval: u64 },
    GetDoubleGlobalConfigParam { name: Seq<u8> },
    GetStringGlobalConfigParam { name: Seq<u8> },
    GetDoubleAppConfigParam { name: Seq<u8> },
    GetStringAppConfigParam { name: Seq<u8> },
    Delete,
}

impl View for NativeCall {
    type V = NativeCallView;

    open spec fn view(&self) -> NativeCallView {
        match self {
            NativeCall::Create => NativeCallView::Create,
            NativeCall::SetIterateCallback => NativeCallView::SetIterateCallback,
            NativeCall::SetOnStartUpCallback => NativeCallView::SetOnStartUpCallback,
            NativeCall::SetOnConnectToServerCallback => NativeCallView::SetOnConnectToServerCallback,
            NativeCall::SetOnNewMailCallback => NativeCallView::SetOnNewMailCallback,
            NativeCall::SetTarget { target } => NativeCallView::SetTarget { target: *target },
            NativeCall::Run { name, mission } => NativeCallView::Run {
                name: name@,
                mission: mission@,
            },
            NativeCall::NotifyDouble { name, value } => NativeCallView::NotifyDouble {
                name: name@,
                value: *value,
            },
            NativeCall::NotifyString { name, text } => NativeCallView::NotifyString {
                name: name@,
                text: text@,
            },
            NativeCall::Register { name, interval } => NativeCallView::Register {
                name: name@,
                interval: *interval,
            },
            NativeCall::GetDoubleGlobalConfigParam { name } => NativeCallView::GetDoubleGlobalConfigParam {
                name: name@,
            },
            NativeCall::GetStringGlobalConfigParam { name } => NativeCallView::GetStringGlobalConfigParam {
                name: name@,
            },
            NativeCall::GetDoubleAppConfigParam { name } => NativeCallView::GetDoubleAppConfigParam {
                name: name@,
            },
            NativeCall::GetStringAppConfigParam { name } => NativeCallView::GetStringAppConfigParam {
                name: name@,
            },
            NativeCall::Delete => NativeCallView::Delete,
        }
    }
}

/// What the host answered to a native call.
#[derive(Debug, PartialEq, Eq)]
pub enum NativeReply {
    /// The entry point returns nothing.
    Done,
    /// The success flag of `Run`, `NotifyDouble`, `NotifyString` or `Register`.
    Status(bool),
    /// The answer of a numeric getter: whether the parameter was found, and
    /// the number written to the output slot.
    Double { found: bool, value: u64 },
    /// The answer of a textual getter: a C buffer, empty when the parameter
    /// is missing.
    Text(Vec<u8>),
}

/// A reply as contracts speak of it.
pub enum NativeReplyView {
    Done,
    Status(bool),
    Double { found: bool, value: u64 },
    Text(Seq<u8>),
}

impl View for NativeReply {
    type V = NativeReplyView;

    open spec fn view(&self) -> NativeReplyView {
        match self {
            NativeReply::Done => NativeReplyView::Done,
            NativeReply::Status(ok) => NativeReplyView::Status(*ok),
            NativeReply::Double { found, value } => NativeReplyView::Double {
                found: *found,
                value: *value,
            },
            NativeReply::Text(buf) => NativeReplyView::Text(buf@),
        }
    }
}

} // verus!
