use querent_synapse::cross::clrepr::{CLRepr, CLReprObject, PythonRef, StringType};
use querent_synapse::cross::clrepr_python::{ConversionError, ExtractError, PyValue};

fn round_trip(v: CLRepr) {
    let image = v.to_py();
    assert_eq!(CLRepr::from_python_ref(&image), Ok(v));
}

#[test]
fn primitives_round_trip() {
    round_trip(CLRepr::String("".to_string(), StringType::Normal));
    round_trip(CLRepr::String("héllo 🚀".to_string(), StringType::Normal));
    round_trip(CLRepr::String("rm -rf".to_string(), StringType::Safe));
    round_trip(CLRepr::Bool(true));
    round_trip(CLRepr::Bool(false));
    round_trip(CLRepr::Int(0));
    round_trip(CLRepr::Int(i64::MIN));
    round_trip(CLRepr::Int(i64::MAX));
    round_trip(CLRepr::Float(0.0f64.to_bits()));
    round_trip(CLRepr::Float((-0.0f64).to_bits()));
    round_trip(CLRepr::Float(123.45f64.to_bits()));
    round_trip(CLRepr::Float(f64::NAN.to_bits()));
    round_trip(CLRepr::Float(f64::INFINITY.to_bits()));
    round_trip(CLRepr::Null);
}

#[test]
fn primitive_images_are_exact() {
    assert_eq!(CLRepr::Null.into_py(), PyValue::NoneValue);
    assert_eq!(CLRepr::Bool(true).into_py(), PyValue::Bool(true));
    assert_eq!(CLRepr::Int(-7).into_py(), PyValue::Int(-7));
    assert_eq!(CLRepr::Float(2.5f64.to_bits()).into_py(), PyValue::Float(2.5f64.to_bits()));
    assert_eq!(
        CLRepr::String("a".to_string(), StringType::Normal).into_py(),
        PyValue::Str("a".to_string())
    );
    assert_eq!(
        CLRepr::String("a".to_string(), StringType::Safe).into_py(),
        PyValue::SafeStr("a".to_string())
    );
    assert_eq!(
        CLRepr::PythonRef(PythonRef { handle: 4 }).into_py(),
        PyValue::Object(PythonRef { handle: 4 })
    );
}

#[test]
fn collections_round_trip_in_order() {
    round_trip(CLRepr::Tuple(vec![CLRepr::Int(1), CLRepr::Int(2), CLRepr::Int(3)]));
    round_trip(CLRepr::Array(vec![]));
    round_trip(CLRepr::Array(vec![
        CLRepr::Tuple(vec![CLRepr::Null]),
        CLRepr::Array(vec![CLRepr::Bool(true), CLRepr::Float(1)]),
    ]));
    let image = CLRepr::Tuple(vec![CLRepr::Int(1), CLRepr::Int(2)]).into_py();
    assert_eq!(image, PyValue::Tuple(vec![PyValue::Int(1), PyValue::Int(2)]));
    let image = CLRepr::Array(vec![CLRepr::Int(2), CLRepr::Int(1)]).into_py();
    assert_eq!(image, PyValue::List(vec![PyValue::Int(2), PyValue::Int(1)]));
}

#[test]
fn objects_round_trip() {
    let mut inner = CLReprObject::new();
    inner.insert("deep".to_string(), CLRepr::Array(vec![CLRepr::Int(1)]));
    let mut o = CLReprObject::new();
    o.insert("a".to_string(), CLRepr::Int(1));
    o.insert("b".to_string(), CLRepr::Object(inner));
    o.insert("c".to_string(), CLRepr::PythonRef(PythonRef { handle: 77 }));
    round_trip(CLRepr::Object(o));
    round_trip(CLRepr::Object(CLReprObject::new()));
}

#[test]
fn object_image_has_one_item_per_entry() {
    let mut o = CLReprObject::new();
    o.insert("a".to_string(), CLRepr::Int(1));
    o.insert("b".to_string(), CLRepr::Int(2));
    o.insert("a".to_string(), CLRepr::Int(3));
    match CLRepr::Object(o).into_py() {
        PyValue::Dict(items) => {
            assert_eq!(items.len(), 2);
            assert!(items.contains(&(PyValue::Str("a".to_string()), PyValue::Int(3))));
            assert!(items.contains(&(PyValue::Str("b".to_string()), PyValue::Int(2))));
        },
        other => panic!("unexpected image {:?}", other),
    }
}

#[test]
fn values_of_no_other_shape_become_references() {
    let got = CLRepr::from_python_ref(&PyValue::Object(PythonRef { handle: 12 }));
    assert!(matches!(got, Ok(CLRepr::PythonRef(PythonRef { handle: 12 }))));
}

#[test]
fn lists_become_arrays_and_tuples_stay_tuples() {
    let list = PyValue::List(vec![PyValue::Int(1), PyValue::Str("x".to_string())]);
    match CLRepr::from_python_ref(&list) {
        Ok(CLRepr::Array(items)) => {
            assert!(matches!(items[0], CLRepr::Int(1)));
            assert!(matches!(&items[1], CLRepr::String(s, StringType::Normal) if s == "x"));
        },
        other => panic!("unexpected {:?}", other),
    }
    let tuple = PyValue::Tuple(vec![PyValue::NoneValue]);
    match CLRepr::from_python_ref(&tuple) {
        Ok(CLRepr::Tuple(items)) => assert!(items[0].is_null()),
        other => panic!("unexpected {:?}", other),
    }
}

#[test]
fn dictionary_with_a_key_that_is_not_text_is_refused() {
    let bad = PyValue::Dict(vec![
        (PyValue::Str("ok".to_string()), PyValue::Int(1)),
        (PyValue::Int(2), PyValue::Int(2)),
    ]);
    assert!(matches!(CLRepr::from_python_ref(&bad), Err(ConversionError::DictKeyNotText)));
    let nested = PyValue::List(vec![PyValue::Tuple(vec![bad])]);
    assert!(matches!(CLRepr::from_python_ref(&nested), Err(ConversionError::DictKeyNotText)));
    let safe_key = PyValue::Dict(vec![(PyValue::SafeStr("k".to_string()), PyValue::Int(1))]);
    assert!(matches!(CLRepr::from_python_ref(&safe_key), Err(ConversionError::DictKeyNotText)));
}

#[test]
fn later_dictionary_item_wins() {
    let d = PyValue::Dict(vec![
        (PyValue::Str("k".to_string()), PyValue::Int(1)),
        (PyValue::Str("k".to_string()), PyValue::Int(2)),
    ]);
    match CLRepr::from_python_ref(&d) {
        Ok(CLRepr::Object(o)) => {
            assert_eq!(o.len(), 1);
            assert!(matches!(o.get("k"), Some(CLRepr::Int(2))));
        },
        other => panic!("unexpected {:?}", other),
    }
    assert_eq!(d.get_item("k"), Ok(&PyValue::Int(2)));
}

#[test]
fn get_item_reports_what_is_wrong() {
    let d = PyValue::Dict(vec![(PyValue::Str("a".to_string()), PyValue::Bool(true))]);
    assert_eq!(d.get_item("a"), Ok(&PyValue::Bool(true)));
    assert_eq!(d.get_item("b"), Err(ExtractError::MissingKey));
    assert_eq!(d.get_item("A"), Err(ExtractError::MissingKey));
    assert_eq!(PyValue::Int(1).get_item("a"), Err(ExtractError::NotADict));
    assert_eq!(PyValue::List(vec![]).get_item("a"), Err(ExtractError::NotADict));
}

#[test]
fn as_text_and_as_float_bits() {
    assert_eq!(PyValue::Str("t".to_string()).as_text(), Ok(&"t".to_string()));
    assert_eq!(PyValue::SafeStr("t".to_string()).as_text(), Err(ExtractError::WrongType));
    assert_eq!(PyValue::Int(1).as_text(), Err(ExtractError::WrongType));
    assert_eq!(PyValue::Float(7).as_float_bits(), Ok(7));
    assert_eq!(PyValue::Int(7).as_float_bits(), Err(ExtractError::WrongType));
}
