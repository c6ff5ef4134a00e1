use solaredge::json::{decode_version_current, decode_version_supported};
use solaredge::{DecodeError, JsonValue, List};

fn s(t: &str) -> JsonValue {
    JsonValue::String(t.to_string())
}

fn obj(members: Vec<(&str, JsonValue)>) -> JsonValue {
    JsonValue::Object(members.into_iter().map(|(k, v)| (k.to_string(), v)).collect())
}

fn battery(serial: &str) -> JsonValue {
    obj(vec![("serialNumber", s(serial)), ("nameplate", JsonValue::UInt(10000))])
}

#[test]
fn version_current_envelope() {
    let v = obj(vec![("version", obj(vec![("release", s("1.2.3"))]))]);
    assert_eq!(decode_version_current(v).unwrap(), "1.2.3");
}

#[test]
fn version_current_shape_errors() {
    let v = obj(vec![("release", s("1.2.3"))]);
    assert_eq!(decode_version_current(v).unwrap_err(), DecodeError::MissingField);
    let v = obj(vec![("version", obj(vec![("release", JsonValue::UInt(1))]))]);
    assert_eq!(decode_version_current(v).unwrap_err(), DecodeError::WrongType);
    let v = obj(vec![("version", obj(vec![("release", s("1")), ("release", s("2"))]))]);
    assert_eq!(decode_version_current(v).unwrap_err(), DecodeError::DuplicateField);
    assert_eq!(decode_version_current(s("1.2.3")).unwrap_err(), DecodeError::WrongType);
}

#[test]
fn version_current_ignores_other_members() {
    let v = obj(vec![
        ("other", JsonValue::Null),
        ("version", obj(vec![("extra", JsonValue::Bool(true)), ("release", s("1.0.0"))])),
    ]);
    assert_eq!(decode_version_current(v).unwrap(), "1.0.0");
}

#[test]
fn version_supported_envelope() {
    let v = obj(vec![(
        "supported",
        JsonValue::Array(vec![obj(vec![("release", s("0.9.5"))]), obj(vec![("release", s("1.0.0"))])]),
    )]);
    let r = decode_version_supported(v).unwrap();
    let releases: Vec<&str> = r.iter().map(|x| x.release.as_str()).collect();
    assert_eq!(releases, vec!["0.9.5", "1.0.0"]);
    let v = obj(vec![("supported", JsonValue::Array(vec![obj(vec![("release", s("1"))]), s("x")]))]);
    assert_eq!(decode_version_supported(v).unwrap_err(), DecodeError::WrongType);
}

#[test]
fn list_under_aliased_keys() {
    let v = obj(vec![("count", JsonValue::UInt(2)), ("batteries", JsonValue::Array(vec![battery("A"), battery("B")]))]);
    let a = List::decode(v).unwrap();
    assert_eq!(a.count, Some(2));
    assert_eq!(a.list.len(), 2);
    let v = obj(vec![("count", JsonValue::UInt(2)), ("data", JsonValue::Array(vec![battery("A"), battery("B")]))]);
    let b = List::decode(v).unwrap();
    assert_eq!(b.count, Some(2));
    assert_eq!(b.list.len(), 2);
    assert_eq!(format!("{:?}", a.list), format!("{:?}", b.list));
}

#[test]
fn list_count_aliases_and_absence() {
    let v = obj(vec![("site", JsonValue::Array(vec![])), ("total", JsonValue::UInt(0))]);
    let l = List::decode(v).unwrap();
    assert_eq!(l.count, Some(0));
    assert!(l.list.is_empty());
    let v = obj(vec![("batteryCount", JsonValue::Null), ("telemetries", JsonValue::Array(vec![JsonValue::Null]))]);
    let l = List::decode(v).unwrap();
    assert_eq!(l.count, None);
    assert_eq!(l.list.len(), 1);
    let v = obj(vec![("list", JsonValue::Array(vec![]))]);
    assert_eq!(List::decode(v).unwrap().count, None);
}

#[test]
fn list_shape_errors() {
    let v = obj(vec![("count", JsonValue::UInt(1))]);
    assert_eq!(List::decode(v).unwrap_err(), DecodeError::MissingField);
    let v = obj(vec![("data", JsonValue::Array(vec![])), ("site", JsonValue::Array(vec![]))]);
    assert_eq!(List::decode(v).unwrap_err(), DecodeError::DuplicateField);
    let v = obj(vec![("count", JsonValue::UInt(1)), ("total", JsonValue::UInt(1)), ("data", JsonValue::Array(vec![]))]);
    assert_eq!(List::decode(v).unwrap_err(), DecodeError::DuplicateField);
    let v = obj(vec![("count", s("1")), ("data", JsonValue::Array(vec![]))]);
    assert_eq!(List::decode(v).unwrap_err(), DecodeError::WrongType);
    let v = obj(vec![("count", JsonValue::Int(-1)), ("data", JsonValue::Array(vec![]))]);
    assert_eq!(List::decode(v).unwrap_err(), DecodeError::WrongType);
    let v = obj(vec![("data", JsonValue::Null)]);
    assert_eq!(List::decode(v).unwrap_err(), DecodeError::WrongType);
    assert_eq!(List::decode(JsonValue::Array(vec![])).unwrap_err(), DecodeError::WrongType);
}
