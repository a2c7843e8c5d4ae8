//! Sections read from and written to YAML documents.
use enable::codec::DecodeError;
use enable::document::{Field, Value};
use enable::shape::DiscriminatorError;
use enable::Enable;
use serde_yaml::{Mapping, Value as Yaml};

#[derive(Debug, PartialEq, Eq)]
struct Inside {
    thing: u32,
    other: String,
}

struct Outside {
    inside: Enable<Inside>,
}

fn fields_of(mapping: &Mapping) -> Vec<Field<Yaml>> {
    let mut fields = Vec::new();
    for (key, value) in mapping.iter() {
        let name = key.as_str().expect("a field name").to_string();
        let value = match value {
            Yaml::Bool(literal) => Value::Bool(*literal),
            other => Value::Other(other.clone()),
        };
        fields.push(Field::new(name, value));
    }
    fields
}

fn mapping_of(fields: Vec<Field<Yaml>>) -> Mapping {
    let mut mapping = Mapping::new();
    for field in fields {
        let value = match field.value {
            Value::Bool(literal) => Yaml::Bool(literal),
            Value::Other(other) => other,
        };
        mapping.insert(Yaml::from(field.name), value);
    }
    mapping
}

fn decode_inside(fields: Vec<Field<Yaml>>) -> Result<Inside, String> {
    let mut thing = None;
    let mut other = None;
    for field in fields {
        match (field.name.as_str(), field.value) {
            ("thing", Value::Other(value)) => {
                let number = value.as_u64().ok_or("invalid type for field `thing`")?;
                thing = Some(u32::try_from(number).map_err(|_| "field `thing` out of range")?);
            }
            ("other", Value::Other(value)) => {
                other = Some(value.as_str().ok_or("invalid type for field `other`")?.to_string());
            }
            ("thing", Value::Bool(_)) => return Err("invalid type for field `thing`".to_string()),
            ("other", Value::Bool(_)) => return Err("invalid type for field `other`".to_string()),
            _ => {}
        }
    }
    Ok(Inside {
        thing: thing.ok_or("missing field `thing`")?,
        other: other.ok_or("missing field `other`")?,
    })
}

fn encode_inside(inside: &Inside) -> Result<Vec<Field<Yaml>>, String> {
    Ok(vec![
        Field::new("thing".to_string(), Value::Other(Yaml::from(inside.thing))),
        Field::new("other".to_string(), Value::Other(Yaml::from(inside.other.as_str()))),
    ])
}

fn decode_outside(raw: &str) -> Result<Outside, DecodeError<String>> {
    let document: Yaml = serde_yaml::from_str(raw).unwrap();
    let inside = document.get("inside").and_then(Yaml::as_mapping).expect("a section");
    let inside = Enable::decode(fields_of(inside), decode_inside)?;
    Ok(Outside { inside })
}

fn encode_outside(outside: &Outside) -> String {
    let fields = outside.inside.encode(encode_inside).unwrap();
    let mut document = Mapping::new();
    document.insert(Yaml::from("inside"), Yaml::Mapping(mapping_of(fields)));
    serde_yaml::to_string(&Yaml::Mapping(document)).unwrap()
}

#[test]
fn extra_fields_not_needed_when_struct_disabled() {
    let raw = "inside:\n    enable: false\n";

    let o: Outside = decode_outside(raw).unwrap();

    assert!(!o.inside.is_enabled());
}

#[test]
fn extra_fields_allowed_when_struct_disabled() {
    let raw = "inside:\n    enable: false\n    thing: 1\n    other: \"Great\"\n";

    let o: Outside = decode_outside(raw).unwrap();

    assert!(!o.inside.is_enabled());
}

#[test]
fn extra_fields_needed_when_struct_enabled() {
    let raw = "inside:\n    enable: true\n    thing: 1\n    other: \"Great\"\n";

    let o: Outside = decode_outside(raw).unwrap();

    assert!(o.inside.is_enabled());
    assert_eq!(
        o.inside.into_inner(),
        Some(Inside {
            thing: 1,
            other: "Great".into()
        })
    );
}

#[test]
fn serialize_an_enabled_feature() {
    let o = Outside {
        inside: Enable::On(Inside {
            thing: 1,
            other: "Great".into(),
        }),
    };
    let raw = "inside:\n  enable: true\n  thing: 1\n  other: Great\n";

    let result = encode_outside(&o);
    assert_eq!(result, raw,);
}

#[test]
fn serialize_a_disabled_feature() {
    let o = Outside {
        inside: Enable::Off,
    };
    let raw = "inside:\n  enable: false\n";

    let result = encode_outside(&o);
    assert_eq!(result, raw,);
}

#[test]
fn disabled_section_ignores_fields_of_the_wrong_type() {
    let raw = "inside:\n  thing: [not, a, number]\n  enable: false\n  other: 3\n";

    let o = decode_outside(raw).unwrap();

    assert!(!o.inside.is_enabled());
    assert_eq!(o.inside.into_inner(), None);
}

#[test]
fn enabled_section_without_its_fields_fails_with_the_inner_error() {
    let raw = "inside:\n  enable: true\n";

    let error = decode_outside(raw).err().unwrap();

    assert_eq!(error, DecodeError::InnerDecodeError("missing field `thing`".to_string()));
}

#[test]
fn enabled_section_with_a_wrong_field_fails_with_the_inner_error() {
    let raw = "inside:\n  enable: true\n  thing: many\n  other: Great\n";

    let error = decode_outside(raw).err().unwrap();

    assert_eq!(error, DecodeError::InnerDecodeError("invalid type for field `thing`".to_string()));
}

#[test]
fn textual_discriminator_is_a_type_mismatch() {
    let raw = "inside:\n  enable: \"yes\"\n";

    let error = decode_outside(raw).err().unwrap();

    assert_eq!(error, DecodeError::Discriminator(DiscriminatorError::DiscriminatorTypeMismatch));
}

#[test]
fn textual_discriminator_wins_over_missing_inner_fields() {
    let raw = "inside:\n  enable: 1\n  thing: 1\n";

    let error = decode_outside(raw).err().unwrap();

    assert_eq!(error, DecodeError::Discriminator(DiscriminatorError::DiscriminatorTypeMismatch));
}

#[test]
fn section_without_discriminator_is_refused() {
    let raw = "inside:\n  thing: 1\n  other: Great\n";

    let error = decode_outside(raw).err().unwrap();

    assert_eq!(error, DecodeError::Discriminator(DiscriminatorError::DiscriminatorMissing));
}

#[test]
fn yaml_round_trip_of_an_enabled_section() {
    let o = Outside {
        inside: Enable::on(Inside {
            thing: 42,
            other: "kept".into(),
        }),
    };

    let back = decode_outside(&encode_outside(&o)).unwrap();

    assert_eq!(
        back.inside.into_inner(),
        Some(Inside {
            thing: 42,
            other: "kept".into()
        })
    );
}

#[test]
fn yaml_round_trip_of_a_disabled_section() {
    let o = Outside {
        inside: Enable::off(),
    };

    let back = decode_outside(&encode_outside(&o)).unwrap();

    assert!(!back.inside.is_enabled());
}

#[test]
fn disabled_section_ignores_placeholder_fields() {
    let raw = "inside:\n  enable: false\n  thing: 1\n  other: \"x\"\n";

    let o = decode_outside(raw).unwrap();

    assert!(!o.inside.is_enabled());
}

#[test]
fn disabled_section_in_flow_style() {
    let raw = "inside: {enable: false}\n";

    let o = decode_outside(raw).unwrap();

    assert!(!o.inside.is_enabled());
}

#[test]
fn enabled_section_keeps_the_order_of_its_fields() {
    let o = Outside {
        inside: Enable::on(Inside {
            thing: 1,
            other: "Great".into(),
        }),
    };

    let fields = o.inside.encode(encode_inside).unwrap();

    let names: Vec<&str> = fields.iter().map(|field| field.name.as_str()).collect();
    assert_eq!(names, vec!["enable", "thing", "other"]);
    assert_eq!(fields[0].value, Value::Bool(true));
    assert_eq!(fields[1].value, Value::Other(Yaml::from(1u32)));
    assert_eq!(fields[2].value, Value::Other(Yaml::from("Great")));
}
