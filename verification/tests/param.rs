use moos_sys::param::is_readable;
use moos_sys::{
    convert_f64, convert_str, param_result, DataType, MoosApp, MoosMessageData, NativeCall,
    NativeReply,
};

enum Stored {
    Number(f64),
    Text(&'static str),
}

/// Stands in for the host's configuration: numeric getters find numbers
/// only, textual getters find texts only and answer the empty text for what
/// is missing.
struct Mission {
    global: Vec<(&'static str, Stored)>,
    app: Vec<(&'static str, Stored)>,
}

fn key(name: &[u8]) -> &[u8] {
    assert_eq!(name.last(), Some(&0u8));
    &name[..name.len() - 1]
}

fn number_in(block: &[(&'static str, Stored)], name: &[u8]) -> NativeReply {
    for (k, v) in block {
        if k.as_bytes() == key(name) {
            if let Stored::Number(x) = v {
                return NativeReply::Double { found: true, value: x.to_bits() };
            }
        }
    }
    NativeReply::Double { found: false, value: 0 }
}

fn text_in(block: &[(&'static str, Stored)], name: &[u8]) -> NativeReply {
    for (k, v) in block {
        if k.as_bytes() == key(name) {
            if let Stored::Text(t) = v {
                let mut buf = t.as_bytes().to_vec();
                buf.push(0);
                return NativeReply::Text(buf);
            }
        }
    }
    NativeReply::Text(vec![0])
}

impl Mission {
    fn perform(&self, call: &NativeCall) -> NativeReply {
        match call {
            NativeCall::GetDoubleGlobalConfigParam { name } => number_in(&self.global, name),
            NativeCall::GetStringGlobalConfigParam { name } => text_in(&self.global, name),
            NativeCall::GetDoubleAppConfigParam { name } => number_in(&self.app, name),
            NativeCall::GetStringAppConfigParam { name } => text_in(&self.app, name),
            _ => NativeReply::Done,
        }
    }

    fn app_param(&self, app: &mut MoosApp, name: &str, requested: DataType) -> Option<MoosMessageData> {
        let reply = self.perform(&app.app_param(name, requested));
        assert!(is_readable(&reply));
        param_result(requested, &reply)
    }

    fn global_param(&self, app: &mut MoosApp, name: &str, requested: DataType) -> Option<MoosMessageData> {
        let reply = self.perform(&app.global_param(name, requested));
        assert!(is_readable(&reply));
        param_result(requested, &reply)
    }
}

fn mission() -> Mission {
    Mission {
        global: vec![("ExampleParam", Stored::Number(12.25)), ("CoolParam", Stored::Text("cool"))],
        app: vec![("Food", Stored::Number(3.5)), ("Taste", Stored::Text("bitter"))],
    }
}

fn number(value: f64) -> MoosMessageData {
    MoosMessageData::DOUBLE(value.to_bits())
}

fn text(value: &str) -> MoosMessageData {
    MoosMessageData::STRING(value.to_string())
}

#[test]
fn start_up_with_food_and_taste() {
    let host = mission();
    let (mut app, _) = MoosApp::new();
    assert_eq!(host.app_param(&mut app, "Food", DataType::Double), Some(number(3.5)));
    assert_eq!(host.app_param(&mut app, "Taste", DataType::Double), None);
    assert_eq!(host.app_param(&mut app, "Taste", DataType::Text), Some(text("bitter")));
}

#[test]
fn a_number_asked_for_as_text_is_absent() {
    let host = mission();
    let (mut app, _) = MoosApp::new();
    assert_eq!(host.app_param(&mut app, "Food", DataType::Text), None);
}

#[test]
fn a_missing_parameter_is_absent_whatever_is_asked_for() {
    let host = mission();
    let (mut app, _) = MoosApp::new();
    assert_eq!(host.app_param(&mut app, "Drink", DataType::Double), None);
    assert_eq!(host.app_param(&mut app, "Drink", DataType::Text), None);
    assert_eq!(host.global_param(&mut app, "Drink", DataType::Double), None);
    assert_eq!(host.global_param(&mut app, "Drink", DataType::Text), None);
}

#[test]
fn global_parameters_come_from_the_global_block() {
    let host = mission();
    let (mut app, _) = MoosApp::new();
    assert_eq!(host.global_param(&mut app, "ExampleParam", DataType::Double), Some(number(12.25)));
    assert_eq!(host.global_param(&mut app, "CoolParam", DataType::Text), Some(text("cool")));
    assert_eq!(host.global_param(&mut app, "Food", DataType::Double), None);
    assert_eq!(host.app_param(&mut app, "ExampleParam", DataType::Double), None);
}

#[test]
fn the_getter_is_chosen_by_scope_and_type() {
    let (mut app, _) = MoosApp::new();
    let name = vec![b'F', b'o', b'o', b'd', 0];
    assert_eq!(
        app.global_param("Food", DataType::Double),
        NativeCall::GetDoubleGlobalConfigParam { name: name.clone() }
    );
    assert_eq!(
        app.global_param("Food", DataType::Text),
        NativeCall::GetStringGlobalConfigParam { name: name.clone() }
    );
    assert_eq!(
        app.app_param("Food", DataType::Double),
        NativeCall::GetDoubleAppConfigParam { name: name.clone() }
    );
    assert_eq!(
        app.app_param("Food", DataType::Text),
        NativeCall::GetStringAppConfigParam { name: name.clone() }
    );
}

#[test]
fn a_number_is_present_when_found_and_asked_for() {
    assert_eq!(convert_f64(DataType::Double, true, 3.5f64.to_bits()), Some(number(3.5)));
    assert_eq!(convert_f64(DataType::Double, false, 3.5f64.to_bits()), None);
    assert_eq!(convert_f64(DataType::Text, true, 3.5f64.to_bits()), None);
    assert_eq!(convert_f64(DataType::Text, false, 3.5f64.to_bits()), None);
}

#[test]
fn a_number_comes_back_bit_for_bit() {
    for x in [0.0f64, -0.0, 1.0, -1.5, f64::MAX, f64::MIN_POSITIVE, f64::INFINITY, f64::NAN] {
        assert_eq!(
            convert_f64(DataType::Double, true, x.to_bits()),
            Some(MoosMessageData::DOUBLE(x.to_bits()))
        );
    }
}

#[test]
fn a_text_is_present_when_not_empty_and_asked_for() {
    assert_eq!(convert_str(DataType::Text, &[b'b', b'i', b't', 0]), Some(text("bit")));
    assert_eq!(convert_str(DataType::Double, &[b'b', b'i', b't', 0]), None);
}

#[test]
fn an_empty_text_is_absent() {
    assert_eq!(convert_str(DataType::Text, &[0]), None);
    assert_eq!(convert_str(DataType::Text, &[]), None);
    assert_eq!(convert_str(DataType::Text, &[0, b'a', 0]), None);
    assert_eq!(convert_str(DataType::Double, &[0]), None);
}

#[test]
fn a_reply_of_the_other_type_is_absent() {
    let found = NativeReply::Double { found: true, value: 1.0f64.to_bits() };
    let bitter = NativeReply::Text(vec![b'b', 0]);
    assert_eq!(param_result(DataType::Double, &found), Some(number(1.0)));
    assert_eq!(param_result(DataType::Text, &found), None);
    assert_eq!(param_result(DataType::Text, &bitter), Some(text("b")));
    assert_eq!(param_result(DataType::Double, &bitter), None);
}

#[test]
fn a_reply_that_answers_no_query_is_absent() {
    assert_eq!(param_result(DataType::Double, &NativeReply::Done), None);
    assert_eq!(param_result(DataType::Text, &NativeReply::Status(true)), None);
}

#[test]
fn a_reply_is_readable_unless_its_text_is_broken() {
    assert!(is_readable(&NativeReply::Done));
    assert!(is_readable(&NativeReply::Status(false)));
    assert!(is_readable(&NativeReply::Double { found: false, value: 0 }));
    assert!(is_readable(&NativeReply::Text(vec![b'a', 0])));
    assert!(is_readable(&NativeReply::Text(vec![0])));
    assert!(!is_readable(&NativeReply::Text(vec![0xff, 0])));
}
