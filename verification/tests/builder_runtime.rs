use builder::BuilderState;
use builder::FieldShape;
use builder::RecordDescription;
use builder::normalize;

fn point_fields() -> Vec<builder::NormalizedField> {
    let input = RecordDescription {
        name: "Point".to_string(),
        shape: FieldShape::NamedFields(vec![
            ("x".to_string(), "Int".to_string()),
            ("y".to_string(), "Int".to_string()),
        ]),
    };
    normalize(&input).unwrap()
}

#[test]
fn factory_starts_with_all_fields_absent() {
    let fields = point_fields();
    let state: BuilderState<i64> = BuilderState::fresh(&fields);

    assert!(!state.is_filled(0));
    assert!(!state.is_filled(1));
}

#[test]
fn setting_every_field_builds_the_record() {
    let fields = point_fields();
    let mut state: BuilderState<i64> = BuilderState::fresh(&fields);

    state.set_field(0, 3);
    state.set_field(1, 4);

    assert_eq!(state.build().unwrap(), vec![3, 4]);
}

#[test]
fn build_without_setters_reports_the_first_field() {
    let fields = point_fields();
    let state: BuilderState<i64> = BuilderState::fresh(&fields);

    let message = state.build().unwrap_err();
    assert_eq!(message, "Please set x");
}

#[test]
fn build_reports_the_first_absent_field_in_declaration_order() {
    let fields = point_fields();
    let mut state: BuilderState<i64> = BuilderState::fresh(&fields);

    state.set_field(0, 3);

    let message = state.build().unwrap_err();
    assert_eq!(message, "Please set y");
    assert!(message.contains("y"));
}

#[test]
fn build_leaves_the_builder_usable_for_a_retry() {
    let fields = point_fields();
    let mut state: BuilderState<i64> = BuilderState::fresh(&fields);

    state.set_field(1, 4);
    assert!(state.build().is_err());

    state.set_field(0, 3);
    assert_eq!(state.build().unwrap(), vec![3, 4]);
}

#[test]
fn setting_a_field_twice_overwrites() {
    let fields = point_fields();
    let mut state: BuilderState<i64> = BuilderState::fresh(&fields);

    state.set_field(0, 1);
    state.set_field(0, 2);
    state.set_field(1, 4);

    assert_eq!(state.build().unwrap(), vec![2, 4]);
}

#[test]
fn empty_record_builds_at_once() {
    let input = RecordDescription { name: "Marker".to_string(), shape: FieldShape::NoFields };
    let fields = normalize(&input).unwrap();
    let state: BuilderState<i64> = BuilderState::fresh(&fields);

    assert_eq!(state.build().unwrap(), Vec::<i64>::new());
}

#[test]
fn positional_messages_use_synthesized_names() {
    let input = RecordDescription {
        name: "Pair".to_string(),
        shape: FieldShape::PositionalFields(vec!["Int".to_string(), "String".to_string()]),
    };
    let fields = normalize(&input).unwrap();
    let mut state: BuilderState<u32> = BuilderState::fresh(&fields);

    assert_eq!(state.build().unwrap_err(), "Please set field0");

    state.set_field(0, 9);
    assert_eq!(state.build().unwrap_err(), "Please set field1");
}
