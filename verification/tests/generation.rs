use builder::DeriveError;
use builder::FieldShape;
use builder::RecordDescription;
use builder::decimal_string;
use builder::normalize;

fn named(name: &str, ty: &str) -> (String, String) {
    (name.to_string(), ty.to_string())
}

fn record(name: &str, shape: FieldShape) -> RecordDescription {
    RecordDescription { name: name.to_string(), shape }
}

#[test]
fn derive_simple_builder() {
    let input = record("BobThe", FieldShape::PositionalFields(vec![]));

    let actual = builder::synth::derive(&input).unwrap();

    assert_eq!(
        actual,
        "struct BobTheBuilder {\n\
         }\n\
         impl BobThe {\n\
         \x20   fn builder() -> BobTheBuilder {\n\
         \x20       BobTheBuilder {\n\
         \x20       }\n\
         \x20   }\n\
         }\n\
         impl BobTheBuilder {\n\
         \x20   pub fn build(&self) -> Result<BobThe, Box<dyn std::error::Error>> {\n\
         \x20       Ok(BobThe {\n\
         \x20       })\n\
         \x20   }\n\
         }\n"
    );
}

#[test]
fn should_derive_with_fields() {
    let input = record(
        "Test",
        FieldShape::NamedFields(vec![named("a_thing", "i32"), named("another_thing", "String")]),
    );

    let actual = builder::synth::derive(&input).unwrap();

    assert_eq!(
        actual,
        "struct TestBuilder {\n\
         \x20   a_thing: Option<i32>,\n\
         \x20   another_thing: Option<String>,\n\
         }\n\
         impl Test {\n\
         \x20   fn builder() -> TestBuilder {\n\
         \x20       TestBuilder {\n\
         \x20           a_thing: None,\n\
         \x20           another_thing: None,\n\
         \x20       }\n\
         \x20   }\n\
         }\n\
         impl TestBuilder {\n\
         \x20   fn a_thing(&mut self, a_thing: i32) -> &mut Self {\n\
         \x20       self.a_thing = Some(a_thing);\n\
         \x20       self\n\
         \x20   }\n\
         \x20   fn another_thing(&mut self, another_thing: String) -> &mut Self {\n\
         \x20       self.another_thing = Some(another_thing);\n\
         \x20       self\n\
         \x20   }\n\
         \x20   pub fn build(&self) -> Result<Test, Box<dyn std::error::Error>> {\n\
         \x20       Ok(Test {\n\
         \x20           a_thing: self.a_thing.clone().ok_or(Box::<dyn std::error::Error>::from(\"Please set a_thing\"))?,\n\
         \x20           another_thing: self.another_thing.clone().ok_or(Box::<dyn std::error::Error>::from(\"Please set another_thing\"))?,\n\
         \x20       })\n\
         \x20   }\n\
         }\n"
    );
}

#[test]
fn should_derive_with_unnamed_fields() {
    let input = record(
        "Test",
        FieldShape::PositionalFields(vec!["i32".to_string(), "String".to_string()]),
    );

    let actual = builder::synth::derive(&input).unwrap();

    assert_eq!(
        actual,
        "struct TestBuilder {\n\
         \x20   field0: Option<i32>,\n\
         \x20   field1: Option<String>,\n\
         }\n\
         impl Test {\n\
         \x20   fn builder() -> TestBuilder {\n\
         \x20       TestBuilder {\n\
         \x20           field0: None,\n\
         \x20           field1: None,\n\
         \x20       }\n\
         \x20   }\n\
         }\n\
         impl TestBuilder {\n\
         \x20   fn field0(&mut self, field0: i32) -> &mut Self {\n\
         \x20       self.field0 = Some(field0);\n\
         \x20       self\n\
         \x20   }\n\
         \x20   fn field1(&mut self, field1: String) -> &mut Self {\n\
         \x20       self.field1 = Some(field1);\n\
         \x20       self\n\
         \x20   }\n\
         \x20   pub fn build(&self) -> Result<Test, Box<dyn std::error::Error>> {\n\
         \x20       Ok(Test {\n\
         \x20           field0: self.field0.clone().ok_or(Box::<dyn std::error::Error>::from(\"Please set field0\"))?,\n\
         \x20           field1: self.field1.clone().ok_or(Box::<dyn std::error::Error>::from(\"Please set field1\"))?,\n\
         \x20       })\n\
         \x20   }\n\
         }\n"
    );
}

#[test]
fn normalization_is_idempotent() {
    let input = record(
        "Mixed",
        FieldShape::NamedFields(vec![named("alpha", "u8"), named("beta", "Vec<u32>")]),
    );

    let first = normalize(&input).unwrap();
    let second = normalize(&input).unwrap();

    assert_eq!(first, second);
}

#[test]
fn positional_names_are_deterministic() {
    let one = record(
        "A",
        FieldShape::PositionalFields(vec!["i32".to_string(), "String".to_string(), "bool".to_string()]),
    );
    let other = record(
        "B",
        FieldShape::PositionalFields(vec!["u64".to_string(), "char".to_string(), "Vec<u8>".to_string()]),
    );

    let first = normalize(&one).unwrap();
    let second = normalize(&other).unwrap();

    assert_eq!(first.len(), 3);
    for (index, field) in first.iter().enumerate() {
        assert_eq!(field.name, format!("field{}", index));
        assert_eq!(field.name, second[index].name);
    }
}

#[test]
fn positional_names_use_decimal_indices() {
    let tys: Vec<String> = (0..12).map(|_| "u8".to_string()).collect();
    let input = record("Wide", FieldShape::PositionalFields(tys));

    let fields = normalize(&input).unwrap();

    assert_eq!(fields[0].name, "field0");
    assert_eq!(fields[9].name, "field9");
    assert_eq!(fields[10].name, "field10");
    assert_eq!(fields[11].name, "field11");
}

#[test]
fn decimal_rendering() {
    assert_eq!(decimal_string(0), "0");
    assert_eq!(decimal_string(7), "7");
    assert_eq!(decimal_string(10), "10");
    assert_eq!(decimal_string(409), "409");
}

#[test]
fn unsupported_shape_is_rejected() {
    let input = record("Choice", FieldShape::Unsupported);

    assert_eq!(normalize(&input).unwrap_err(), DeriveError::UnsupportedShape);
    assert_eq!(builder::synth::derive(&input).unwrap_err(), DeriveError::UnsupportedShape);
}

#[test]
fn no_fields_record_generates_empty_members() {
    let input = record("Marker", FieldShape::NoFields);

    let fields = normalize(&input).unwrap();
    assert!(fields.is_empty());

    let bundle = builder::synth::derive(&input).unwrap();
    assert!(bundle.starts_with("struct MarkerBuilder {\n}\n"));
    assert!(!bundle.contains("Please set"));
}

#[test]
fn point_scenario_generates_optional_members() {
    let input = record(
        "Point",
        FieldShape::NamedFields(vec![named("x", "Int"), named("y", "Int")]),
    );

    let bundle = builder::synth::derive(&input).unwrap();

    assert!(bundle.contains("struct PointBuilder {\n    x: Option<Int>,\n    y: Option<Int>,\n}\n"));
    assert!(bundle.contains("x: None,\n"));
    assert!(bundle.contains("y: None,\n"));
    assert!(bundle.contains("\"Please set y\""));
}

#[test]
fn pair_scenario_names_positional_setters() {
    let input = record(
        "Pair",
        FieldShape::PositionalFields(vec!["Int".to_string(), "String".to_string()]),
    );

    let fields = normalize(&input).unwrap();
    assert_eq!(fields[0].name, "field0");
    assert_eq!(fields[0].ty, "Int");
    assert_eq!(fields[1].name, "field1");
    assert_eq!(fields[1].ty, "String");

    let bundle = builder::synth::derive(&input).unwrap();
    assert!(bundle.contains("fn field0(&mut self, field0: Int)"));
    assert!(bundle.contains("fn field1(&mut self, field1: String)"));
}
