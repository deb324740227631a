//! Value model tests.

use toka::value::{Colour, Sc44, TypeTag, Value};

fn s44(fraction: i16, exponent: i16) -> Value {
    Value::S44(Sc44 { fraction, exponent })
}

#[test]
fn test_truthy() {
    assert!(s44(0x4000, 1).is_truthy());
    assert!(!s44(0, 0).is_truthy());
    assert!(Value::U32(42).is_truthy());
    assert!(!Value::U32(0).is_truthy());
    assert!(Value::Text("text".to_owned()).is_truthy());
    assert!(!Value::Text("".to_owned()).is_truthy());
}

#[test]
fn type_labels_follow_the_wire_names() {
    assert_eq!(s44(0x4000, 1).type_label(), "s44");
    assert_eq!(Value::U32(1).type_label(), "u5");
    assert_eq!(Value::Bool(true).type_label(), "u0");
    assert_eq!(Value::I64(-1).type_label(), "i6");
    assert_eq!(Value::Text(String::new()).type_label(), "x");
    assert_eq!(Value::Colour(Colour::Red).type_label(), "colour");
    assert_eq!(Value::Hash(vec![0; 32]).type_label(), "hb");
}

#[test]
fn tags_name_the_concrete_subtype() {
    assert_eq!(s44(0x4000, 2).tag(), TypeTag::S44);
    assert_eq!(Value::U8(0).tag(), TypeTag::U8);
    assert_ne!(Value::U8(0).tag(), Value::U16(0).tag());
}
