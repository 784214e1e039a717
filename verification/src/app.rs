//! The application handle: its lifecycle, and the native calls that each
//! operation on it amounts to.
//!
//! A handle is created with its four trampolines bound, gets its re-entry
//! target once, runs once, and is destroyed once, never while it runs. Each
//! operation returns the native call to make; publishing, subscribing and
//! parameter queries leave the handle as it was.

use vstd::prelude::*;
use crate::message::{decoded, DataType, EnvelopeView, FaultKind, MessageValue, MoosMessageData};
use crate::native::{NativeCall, NativeCallView};
use crate::param::ParamScope;
use crate::text::{c_bytes, c_encodable, encode_c_text, is_c_encodable, lemma_c_text_round_trip};

verus! {

/// Where a handle stands in its life.
#[derive(Clone, Copy, Debug, PartialEq, Eq, Structural)]
pub enum Phase {
    /// Allocated, trampolines bound; the run loop has not been entered.
    Created,
    /// Inside the host's run loop.
    Running,
    /// The run loop has returned.
    Stopped,
}

/// The owner of one native application object.
pub struct MoosApp {
    phase: Phase,
    target: Option<usize>,
}

/// The calls that bring a handle into being: the allocation, then the
/// binding of the four trampolines.
pub open spec fn creation_calls() -> Seq<NativeCallView> {
    seq![
        NativeCallView::Create,
        NativeCallView::SetIterateCallback,
        NativeCallView::SetOnStartUpCallback,
        NativeCallView::SetOnConnectToServerCallback,
        NativeCallView::SetOnNewMailCallback,
    ]
}

/// A value can be published: a text only if it can be sent as a C string.
pub open spec fn sendable(value: MessageValue) -> bool {
    value matches MessageValue::Text(text) ==> c_encodable(text)
}

/// The native call that publishes `value` under `name`: the entry point is
/// chosen by the value's tag.
pub open spec fn notify_call(name: Seq<char>, value: MessageValue) -> NativeCallView {
    match value {
        MessageValue::Double(bits) => NativeCallView::NotifyDouble { name: c_bytes(name), value: bits },
        MessageValue::Text(text) => NativeCallView::NotifyString {
            name: c_bytes(name),
            text: c_bytes(text),
        },
    }
}

/// The native call that looks up the parameter `name`: the getter is chosen
/// by the scope and by the type asked for.
pub open spec fn param_call(scope: ParamScope, name: Seq<char>, requested: DataType) -> NativeCallView {
    match (scope, requested) {
        (ParamScope::Global, DataType::Double) => NativeCallView::GetDoubleGlobalConfigParam {
            name: c_bytes(name),
        },
        (ParamScope::Global, DataType::Text) => NativeCallView::GetStringGlobalConfigParam {
            name: c_bytes(name),
        },
        (ParamScope::App, DataType::Double) => NativeCallView::GetDoubleAppConfigParam {
            name: c_bytes(name),
        },
        (ParamScope::App, DataType::Text) => NativeCallView::GetStringAppConfigParam {
            name: c_bytes(name),
        },
    }
}

/// The envelope `e` reports the variable that `call` published: it has the
/// name and the payload of the call, under the discriminant of the entry
/// point.
pub open spec fn reports(e: EnvelopeView, call: NativeCallView) -> bool {
    match call {
        NativeCallView::NotifyDouble { name, value } => {
            &&& e.name == name
            &&& e.kind == DataType::Double.spec_code()
            &&& e.d_value == value
        },
        NativeCallView::NotifyString { name, text } => {
            &&& e.name == name
            &&& e.kind == DataType::Text.spec_code()
            &&& e.s_value == text
        },
        _ => false,
    }
}

/// What is published comes back as it was sent: an envelope that reports a
/// notification decodes to the name and the value that were notified, with
/// the same tag.
pub proof fn lemma_notify_readback(name: Seq<char>, value: MessageValue, e: EnvelopeView)
    requires
        c_encodable(name),
        sendable(value),
        reports(e, notify_call(name, value)),
    ensures
        decoded(e) == Ok::<_, FaultKind>((name, value)),
{
    lemma_c_text_round_trip(name);
    if let MessageValue::Text(text) = value {
        lemma_c_text_round_trip(text);
    }
}

/// Whether `value` can be published.
pub fn is_sendable(value: &MoosMessageData) -> (ok: bool)
    ensures
        ok == sendable(value@),
{
    match value {
        MoosMessageData::DOUBLE(_) => true,
        MoosMessageData::STRING(text) => is_c_encodable(text.as_str()),
    }
}

impl MoosApp {
    #[verifier::type_invariant]
    spec fn associated_before_run(self) -> bool {
        self.phase != Phase::Created ==> self.target is Some
    }

    /// Where the handle stands in its life.
    pub closed spec fn spec_phase(&self) -> Phase {
        self.phase
    }

    /// The re-entry target stored in the handle, once it has one.
    pub closed spec fn spec_target(&self) -> Option<usize> {
        self.target
    }

    /// Where the handle stands in its life.
    #[verifier::when_used_as_spec(spec_phase)]
    pub fn phase(&self) -> (phase: Phase)
        ensures
            phase == self.spec_phase(),
    {
        self.phase
    }

    /// The re-entry target. A handle that has entered the run loop has one.
    #[verifier::when_used_as_spec(spec_target)]
    pub fn target(&self) -> (target: Option<usize>)
        ensures
            target == self.spec_target(),
            self.spec_phase() != Phase::Created ==> target is Some,
    {
        proof {
            use_type_invariant(self);
        }
        self.target
    }

    /// A new handle and the calls that allocate it and bind its four
    /// trampolines, in the order in which they are to be made.
    pub fn new() -> (made: (MoosApp, Vec<NativeCall>))
        ensures
            made.0.spec_phase() == Phase::Created,
            made.0.spec_target() is None,
            made.1@.len() == creation_calls().len() == 5,
            forall|i: int| 0 <= i < 5 ==> (#[trigger] made.1@[i])@ == creation_calls()[i],
    {
        let app = MoosApp { phase: Phase::Created, target: None };
        let mut calls: Vec<NativeCall> = Vec::new();
        calls.push(NativeCall::Create);
        calls.push(NativeCall::SetIterateCallback);
        calls.push(NativeCall::SetOnStartUpCallback);
        calls.push(NativeCall::SetOnConnectToServerCallback);
        calls.push(NativeCall::SetOnNewMailCallback);
        (app, calls)
    }

    /// Associates the handle with the application state that the trampolines
    /// are to recover: once, and before the run.
    pub fn set_target(&mut self, target: usize) -> (call: NativeCall)
        requires
            old(self).spec_phase() == Phase::Created,
            old(self).spec_target() is None,
        ensures
            final(self).spec_phase() == Phase::Created,
            final(self).spec_target() == Some(target),
            call@ == (NativeCallView::SetTarget { target }),
    {
        self.target = Some(target);
        NativeCall::SetTarget { target }
    }

    /// Enters the run loop under the application name `name`, with the
    /// mission file at `mission`. The handle must have its target.
    pub fn run(&mut self, name: &str, mission: &str) -> (call: NativeCall)
        requires
            old(self).spec_phase() == Phase::Created,
            old(self).spec_target() is Some,
            c_encodable(name@),
            c_encodable(mission@),
        ensures
            final(self).spec_phase() == Phase::Running,
            final(self).spec_target() == old(self).spec_target(),
            call@ == (NativeCallView::Run { name: c_bytes(name@), mission: c_bytes(mission@) }),
    {
        let c_name = encode_c_text(name).unwrap();
        let c_mission = encode_c_text(mission).unwrap();
        self.phase = Phase::Running;
        NativeCall::Run { name: c_name, mission: c_mission }
    }

    /// Takes note that the run loop has returned, and hands its success flag
    /// on to the caller.
    pub fn run_returned(&mut self, ok: bool) -> (success: bool)
        requires
            old(self).spec_phase() == Phase::Running,
        ensures
            final(self).spec_phase() == Phase::Stopped,
            final(self).spec_target() == old(self).spec_target(),
            success == ok,
    {
        proof {
            use_type_invariant(&*self);
        }
        self.phase = Phase::Stopped;
        ok
    }

    /// Releases the handle. It is consumed, so it is released once; a handle
    /// inside its run loop cannot be released.
    pub fn destroy(self) -> (call: NativeCall)
        requires
            self.spec_phase() != Phase::Running,
        ensures
            call@ == NativeCallView::Delete,
    {
        NativeCall::Delete
    }

    /// Inserts a variable into the host's database.
    pub fn notify(&mut self, name: &str, value: &MoosMessageData) -> (call: NativeCall)
        requires
            c_encodable(name@),
            sendable(value@),
        ensures
            *final(self) == *old(self),
            call@ == notify_call(name@, value@),
    {
        let c_name = encode_c_text(name).unwrap();
        match value {
            MoosMessageData::DOUBLE(as_f64) => NativeCall::NotifyDouble { name: c_name, value: *as_f64 },
            MoosMessageData::STRING(as_string) => {
                let c_value = encode_c_text(as_string.as_str()).unwrap();
                NativeCall::NotifyString { name: c_name, text: c_value }
            },
        }
    }

    /// Registers a variable to receive mail on when it is updated in the
    /// host's database, at most every `interval` seconds (a binary64 bit
    /// pattern).
    pub fn register(&mut self, name: &str, interval: u64) -> (call: NativeCall)
        requires
            c_encodable(name@),
        ensures
            *final(self) == *old(self),
            call@ == (NativeCallView::Register { name: c_bytes(name@), interval }),
    {
        let c_name = encode_c_text(name).unwrap();
        NativeCall::Register { name: c_name, interval }
    }

    fn param_request(scope: ParamScope, name: &str, requested: DataType) -> (call: NativeCall)
        requires
            c_encodable(name@),
        ensures
            call@ == param_call(scope, name@, requested),
    {
        let c_name = encode_c_text(name).unwrap();
        match (scope, requested) {
            (ParamScope::Global, DataType::Double) => NativeCall::GetDoubleGlobalConfigParam { name: c_name },
            (ParamScope::Global, DataType::Text) => NativeCall::GetStringGlobalConfigParam { name: c_name },
            (ParamScope::App, DataType::Double) => NativeCall::GetDoubleAppConfigParam { name: c_name },
            (ParamScope::App, DataType::Text) => NativeCall::GetStringAppConfigParam { name: c_name },
        }
    }

    /// Retrieves a global configuration param: the call of the getter for
    /// the type asked for.
    pub fn global_param(&mut self, name: &str, requested: DataType) -> (call: NativeCall)
        requires
            c_encodable(name@),
        ensures
            *final(self) == *old(self),
            call@ == param_call(ParamScope::Global, name@, requested),
    {
        MoosApp::param_request(ParamScope::Global, name, requested)
    }

    /// Retrieves an app specific configuration param: the call of the getter
    /// for the type asked for.
    pub fn app_param(&mut self, name: &str, requested: DataType) -> (call: NativeCall)
        requires
            c_encodable(name@),
        ensures
            *final(self) == *old(self),
            call@ == param_call(ParamScope::App, name@, requested),
    {
        MoosApp::param_request(ParamScope::App, name, requested)
    }
}

} // verus!
