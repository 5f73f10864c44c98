use fui::validators::{
    dir_exists_decision, file_exists_decision, path_free_decision, DirExists, FileExists, OneOf,
    PathFree, Pattern, Required, Validator, ValidatorAny,
};

#[test]
fn required_rejects_empty() {
    assert_eq!(Required.validate(""), Some("Field is required".to_string()));
    assert_eq!(Required.validate("x"), None);
    assert_eq!(Required.validate("some-data"), None);
}

#[test]
fn one_of_accepts_exact_options_only() {
    let v = OneOf(vec!["a".to_string(), "b".to_string()]);
    assert_eq!(v.validate("a"), None);
    assert_eq!(v.validate("b"), None);
    assert_eq!(v.validate("z"), Some("Value must be one of options".to_string()));
    assert_eq!(v.validate("A"), Some("Value must be one of options".to_string()));
    assert_eq!(v.validate(""), Some("Value must be one of options".to_string()));
}

#[test]
fn dir_exists_distinguishes_kind_and_absence() {
    assert_eq!(DirExists.validate("./src"), None);
    assert_eq!(DirExists.validate("."), None);
    assert_eq!(DirExists.validate("./src/lib.rs"), Some("It's not a dir".to_string()));
    assert_eq!(DirExists.validate("./missing-dir").unwrap(), "Dir doesn't exist");
}

#[test]
fn file_exists_distinguishes_kind_and_absence() {
    assert_eq!(FileExists.validate("./src/lib.rs"), None);
    assert_eq!(FileExists.validate("./missing-file"), Some("File doesn't exist".to_string()));
    assert_eq!(FileExists.validate("./src"), Some("It's not a file".to_string()));
}

#[test]
fn path_free_reports_used_paths() {
    assert_eq!(PathFree.validate("./free-path"), None);
    assert_eq!(PathFree.validate("./"), Some("Path is already used".to_string()));
}

#[test]
fn pattern_matches_its_regex() {
    let p = Pattern::new("^a+$").unwrap();
    assert_eq!(p.validate("aaa"), None);
    assert_eq!(
        p.validate("ab"),
        Some("Value \"ab\" does not match \"^a+$\" regular exp.".to_string())
    );
    assert_eq!(
        p.validate(""),
        Some("Value \"\" does not match \"^a+$\" regular exp.".to_string())
    );
}

#[test]
fn pattern_rejects_malformed_source() {
    assert!(Pattern::new("(").is_none());
}

#[test]
fn validator_any_dispatches() {
    let v = ValidatorAny::Required(Required);
    assert_eq!(v.validate(""), Some("Field is required".to_string()));
    let o = ValidatorAny::OneOf(OneOf(vec!["a".to_string()]));
    assert_eq!(o.validate("a"), None);
}

#[test]
fn decision_tables_match_the_validators() {
    assert_eq!(path_free_decision(false), None);
    assert_eq!(path_free_decision(true), Some("Path is already used".to_string()));

    assert_eq!(dir_exists_decision(true, true), None);
    assert_eq!(dir_exists_decision(true, false), Some("It's not a dir".to_string()));
    assert_eq!(dir_exists_decision(false, false), Some("Dir doesn't exist".to_string()));

    assert_eq!(file_exists_decision(true, true), None);
    assert_eq!(file_exists_decision(true, false), Some("It's not a file".to_string()));
    assert_eq!(file_exists_decision(false, false), Some("File doesn't exist".to_string()));
}
