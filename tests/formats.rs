use std::fmt;

use possible::{Emission, FieldOutput, Possible, PossibleVisitor};
use serde::de::{self, Deserializer, MapAccess, Visitor};
use serde::ser::{SerializeStruct, Serializer};
use serde::{Deserialize, Serialize};

/// A structure with one `Possible` field named `test`, encoded with the
/// field left out when it is `Void` and defaulting to `Void` when missing.
#[derive(Debug, Default, PartialEq)]
struct Parse {
    test: Possible<i64>,
}

/// Writes one `Possible` through the library's encoder dispatch.
struct FieldOut<'a>(&'a Possible<i64>);

impl Serialize for FieldOut<'_> {
    fn serialize<S: Serializer>(&self, serializer: S) -> Result<S::Ok, S::Error> {
        match self.0.emission() {
            Emission::Value(value) => serializer.serialize_some(value),
            Emission::Null => serializer.serialize_none(),
            Emission::Unit => serializer.serialize_unit(),
        }
    }
}

/// Reads one `Possible` through the library's decoder dispatch.
struct FieldIn(Possible<i64>);

struct FieldVisitor;

impl<'de> Visitor<'de> for FieldVisitor {
    type Value = FieldIn;

    fn expecting(&self, formatter: &mut fmt::Formatter) -> fmt::Result {
        formatter.write_str(PossibleVisitor.expecting())
    }

    fn visit_unit<E: de::Error>(self) -> Result<FieldIn, E> {
        Ok(FieldIn(PossibleVisitor.visit_unit()))
    }

    fn visit_none<E: de::Error>(self) -> Result<FieldIn, E> {
        Ok(FieldIn(PossibleVisitor.visit_none()))
    }

    fn visit_some<D: Deserializer<'de>>(self, deserializer: D) -> Result<FieldIn, D::Error> {
        PossibleVisitor.visit_some(i64::deserialize(deserializer)).map(FieldIn)
    }
}

impl<'de> Deserialize<'de> for FieldIn {
    fn deserialize<D: Deserializer<'de>>(deserializer: D) -> Result<FieldIn, D::Error> {
        deserializer.deserialize_option(FieldVisitor)
    }
}

impl Serialize for Parse {
    fn serialize<S: Serializer>(&self, serializer: S) -> Result<S::Ok, S::Error> {
        let skip = self.test.is_void();
        let len = if skip { 0 } else { 1 };
        let mut state = serializer.serialize_struct("Parse", len)?;
        if skip {
            state.skip_field("test")?;
        } else {
            state.serialize_field("test", &FieldOut(&self.test))?;
        }
        state.end()
    }
}

/// A key of `Parse`: `test`, or any other name, which is ignored.
struct Key(bool);

struct KeyVisitor;

impl<'de> Visitor<'de> for KeyVisitor {
    type Value = Key;

    fn expecting(&self, formatter: &mut fmt::Formatter) -> fmt::Result {
        formatter.write_str("a field name")
    }

    fn visit_str<E: de::Error>(self, value: &str) -> Result<Key, E> {
        Ok(Key(value == "test"))
    }
}

impl<'de> Deserialize<'de> for Key {
    fn deserialize<D: Deserializer<'de>>(deserializer: D) -> Result<Key, D::Error> {
        deserializer.deserialize_identifier(KeyVisitor)
    }
}

struct ParseVisitor;

impl<'de> Visitor<'de> for ParseVisitor {
    type Value = Parse;

    fn expecting(&self, formatter: &mut fmt::Formatter) -> fmt::Result {
        formatter.write_str("struct Parse")
    }

    fn visit_map<A: MapAccess<'de>>(self, mut map: A) -> Result<Parse, A::Error> {
        let mut visited = None;
        while let Some(key) = map.next_key::<Key>()? {
            if key.0 {
                visited = Some(map.next_value::<FieldIn>()?.0);
            } else {
                map.next_value::<de::IgnoredAny>()?;
            }
        }
        Ok(Parse { test: Possible::from_field(visited) })
    }
}

impl<'de> Deserialize<'de> for Parse {
    fn deserialize<D: Deserializer<'de>>(deserializer: D) -> Result<Parse, D::Error> {
        deserializer.deserialize_struct("Parse", &["test"], ParseVisitor)
    }
}

fn present() -> Parse {
    Parse { test: Possible::Present(123) }
}

fn null() -> Parse {
    Parse { test: Possible::Null }
}

fn void() -> Parse {
    Parse { test: Possible::Void }
}

// JSON: null-aware, keys may be left out.

#[test]
fn serde_json_with_some_value() {
    let serialized = serde_json::to_string(&present()).unwrap();
    assert_eq!(serialized, r#"{"test":123}"#, "Failed to parse expected number value");
    let parsed: Parse = serde_json::from_str(r#"{ "test": 123 }"#).unwrap();
    assert_eq!(parsed, present(), "Failed to parse expected number value");
}

#[test]
fn serde_json_with_null_value() {
    let serialized = serde_json::to_string(&null()).unwrap();
    assert_eq!(serialized, r#"{"test":null}"#, "Failed to parse expected null value");
    let parsed: Parse = serde_json::from_str(r#"{ "test": null }"#).unwrap();
    assert_eq!(parsed, null(), "Failed to parse expected null value");
}

#[test]
fn serde_json_with_no_field() {
    let serialized = serde_json::to_string(&void()).unwrap();
    assert_eq!(serialized, r#"{}"#, "Failed to parse expected field omission");
    let parsed: Parse = serde_json::from_str(r#"{ }"#).unwrap();
    assert_eq!(parsed, void(), "Failed to parse expected field omission");
}

#[test]
fn serde_json_round_trips_each_state() {
    for data in [present(), null(), void()] {
        let text = serde_json::to_string(&data).unwrap();
        let back: Parse = serde_json::from_str(&text).unwrap();
        assert_eq!(back, data);
    }
}

#[test]
fn serde_json_decode_error_is_passed_through() {
    let parsed: Result<Parse, _> = serde_json::from_str(r#"{ "test": "abc" }"#);
    assert!(parsed.is_err());
}

// RON: explicit `Some(..)` and `None`.

#[test]
fn serde_ron_with_some_value() {
    let serialized = ron::to_string(&present()).unwrap();
    assert_eq!(serialized, "(test:Some(123))", "Failed to parse expected number value");
}

#[test]
fn serde_ron_with_null_value() {
    let serialized = ron::to_string(&null()).unwrap();
    assert_eq!(serialized, "(test:None)", "Failed to parse expected null value");
    let parsed: Parse = ron::from_str("(test: None)").unwrap();
    assert_eq!(parsed, null(), "Failed to parse expected null value");
}

#[test]
fn serde_ron_with_no_field() {
    let serialized = ron::to_string(&void()).unwrap();
    assert_eq!(serialized, "()", "Failed to parse expected field omission");
    let parsed: Parse = ron::from_str("()").unwrap();
    assert_eq!(parsed, void(), "Failed to parse expected field omission");
}

#[test]
fn with_explicit_some_value() {
    let parsed: Parse = ron::from_str("(test: Some(123))").unwrap();
    assert_eq!(parsed, present(), "Failed to parse expected number value");
}

#[test]
fn with_implicit_some_value() {
    let parsed: Parse = ron::from_str("#![enable(implicit_some)] (test: 123)").unwrap();
    assert_eq!(parsed, present(), "Failed to parse expected number value");
}

// YAML: `~`, `null` and an empty value are all null.

#[test]
fn serde_yaml_with_some_value() {
    let serialized = serde_yaml::to_string(&present()).unwrap();
    assert_eq!(serialized, "---\ntest: 123\n", "Failed to parse expected number value");
    let parsed: Parse = serde_yaml::from_str("test: 123").unwrap();
    assert_eq!(parsed, present(), "Failed to parse expected number value");
}

#[test]
fn serde_yaml_with_null_value() {
    let serialized = serde_yaml::to_string(&null()).unwrap();
    assert_eq!(serialized, "---\ntest: ~\n", "Failed to parse expected null value");
}

#[test]
fn serde_yaml_with_no_field() {
    let serialized = serde_yaml::to_string(&void()).unwrap();
    assert_eq!(serialized, "---\n{}\n", "Failed to parse expected field omission");
    let parsed: Parse = serde_yaml::from_str("{}").unwrap();
    assert_eq!(parsed, void(), "Failed to parse expected field omission");
}

#[test]
fn with_explicit_null_value() {
    let parsed: Parse = serde_yaml::from_str("test: null").unwrap();
    assert_eq!(parsed, null(), "Failed to parse expected null value");
}

#[test]
fn with_shorthand_null_value() {
    let parsed: Parse = serde_yaml::from_str("test: ~").unwrap();
    assert_eq!(parsed, null(), "Failed to parse expected null value");
}

#[test]
fn with_implicit_null_value() {
    let parsed: Parse = serde_yaml::from_str("test:").unwrap();
    assert_eq!(parsed, null(), "Failed to parse expected null value");
}

// TOML: no null, so `Null` is left out as `Void` is.

#[test]
fn serde_toml_with_some_value() {
    let serialized = toml::to_string(&present()).unwrap();
    assert_eq!(serialized.trim(), "test = 123", "Failed to parse expected number value");
    let parsed: Parse = toml::from_str("test = 123").unwrap();
    assert_eq!(parsed, present(), "Failed to parse expected number value");
}

#[test]
fn serde_toml_with_null_value() {
    let serialized = toml::to_string(&null()).unwrap();
    assert_eq!(serialized, "", "Failed to parse expected field omission");
}

#[test]
fn serde_toml_with_no_field() {
    let serialized = toml::to_string(&void()).unwrap();
    assert_eq!(serialized, "", "Failed to parse expected field omission");
    let parsed: Parse = toml::from_str("").unwrap();
    assert_eq!(parsed, void(), "Failed to parse expected field omission");
}

// Query strings: no null either.

#[test]
fn serde_url_with_some_value() {
    let serialized = serde_qs::to_string(&present()).unwrap();
    assert_eq!(serialized, "test=123", "Failed to parse expected number value");
    let parsed: Parse = serde_qs::from_str("test=123").unwrap();
    assert_eq!(parsed, present(), "Failed to parse expected number value");
}

#[test]
fn serde_url_with_null_value() {
    let serialized = serde_qs::to_string(&null()).unwrap();
    assert_eq!(serialized, "", "Failed to parse expected null value");
    let parsed: Parse = serde_qs::from_str("test=").unwrap();
    assert_eq!(parsed, null(), "Failed to parse expected null value");
}

#[test]
fn serde_url_with_no_field() {
    let serialized = serde_qs::to_string(&void()).unwrap();
    assert_eq!(serialized, "", "Failed to parse expected field omission");
    let parsed: Parse = serde_qs::from_str("").unwrap();
    assert_eq!(parsed, void(), "Failed to parse expected field omission");
}

// The field policy, as a table over format capabilities.

#[test]
fn field_output_follows_format_capabilities() {
    let p = Possible::Present(5);
    assert!(matches!(p.field_output(true, true), FieldOutput::Value(&5)));
    assert!(matches!(p.field_output(false, false), FieldOutput::Value(&5)));
    let n: Possible<i32> = Possible::Null;
    assert!(matches!(n.field_output(true, true), FieldOutput::Null));
    assert!(matches!(n.field_output(true, false), FieldOutput::Null));
    assert!(matches!(n.field_output(false, true), FieldOutput::Omitted));
    let v: Possible<i32> = Possible::Void;
    assert!(matches!(v.field_output(true, true), FieldOutput::Omitted));
    assert!(matches!(v.field_output(true, false), FieldOutput::Null));
    assert!(matches!(v.field_output(false, false), FieldOutput::Omitted));
}

#[test]
fn visitor_dispatch() {
    let unit: Possible<u8> = PossibleVisitor.visit_unit();
    assert_eq!(unit, Possible::Void);
    let none: Possible<u8> = PossibleVisitor.visit_none();
    assert_eq!(none, Possible::Null);
    assert_eq!(PossibleVisitor.visit_some::<u8, ()>(Ok(3)), Ok(Possible::Present(3)));
    assert_eq!(PossibleVisitor.visit_some::<u8, &str>(Err("bad")), Err("bad"));
    assert_eq!(PossibleVisitor.expecting(), "possible");
    assert_eq!(Possible::from_field(None::<Possible<u8>>), Possible::Void);
    assert_eq!(Possible::from_field(Some(Possible::<u8>::Null)), Possible::Null);
}
