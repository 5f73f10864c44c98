use fui::fields::{format_annotation, Checkbox, FieldAny, Multiselect, Text};
use fui::feeders::FeederAny;
use fui::fields::Autocomplete;
use fui::validators::{OneOf, Required, ValidatorAny};
use fui::Value;

#[test]
fn field_validate_runs_chain_in_order() {
    let field = FieldAny::Text(
        Text::new("color")
            .validator(ValidatorAny::Required(Required))
            .validator(ValidatorAny::OneOf(OneOf(vec![
                "red".to_string(),
                "blue".to_string(),
            ]))),
    );
    assert_eq!(field.validate("red"), Ok(Value::Str("red".to_string())));
    // Both validators reject the empty string; the first listed one reports.
    assert_eq!(field.validate(""), Err("Field is required".to_string()));
    assert_eq!(field.validate("green"), Err("Value must be one of options".to_string()));
}

#[test]
fn checkbox_field_parses_boolean_literals_only() {
    let field = FieldAny::Checkbox(Checkbox::new("flag"));
    assert_eq!(field.validate("true"), Ok(Value::Bool(true)));
    assert_eq!(field.validate("false"), Ok(Value::Bool(false)));
    assert_eq!(
        field.validate("yes"),
        Err("Value can't be converted to bool".to_string())
    );
}

#[test]
fn multiselect_field_validates_each_item() {
    let feeder = FeederAny::List(vec!["a".to_string(), "b".to_string()]);
    let field = FieldAny::Multiselect(
        Multiselect::new("tags", feeder)
            .validator(ValidatorAny::OneOf(OneOf(vec!["a".to_string(), "b".to_string()]))),
    );
    assert_eq!(
        field.validate("a,b"),
        Ok(Value::List(vec!["a".to_string(), "b".to_string()]))
    );
    assert_eq!(field.validate("a,z"), Err("Value must be one of options".to_string()));
}

#[test]
fn autocomplete_field_accepts_any_text_without_validators() {
    let feeder = FeederAny::List(vec!["x".to_string()]);
    let field = FieldAny::Autocomplete(Autocomplete::new("pick", feeder));
    assert_eq!(field.validate("whatever"), Ok(Value::Str("whatever".to_string())));
    assert_eq!(field.get_label(), "pick");
}

#[test]
fn annotation_matches_rust_padding() {
    assert_eq!(format_annotation("ab", "help"), format!("{:20}: {}", "ab", "help"));
    assert_eq!(format_annotation("ab", ""), format!("{:20}", "ab"));
    let long = "a-label-longer-than-twenty-chars";
    assert_eq!(format_annotation(long, ""), long);
}
