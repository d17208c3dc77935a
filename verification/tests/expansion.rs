use datafile_test::engine::expand_data;
use datafile_test::extension::DataFormat;
use datafile_test::model::{FnParam, GenError, TargetFn};

fn target() -> TargetFn {
    TargetFn {
        name: String::from("test"),
        params: vec![FnParam::Typed {
            name: String::from("testcase"),
            ty: String::from("TestCase"),
        }],
        body: String::from(
            "{ assert!(testcase.input.a + testcase.input.b == testcase.output); }",
        ),
    }
}

const TWO_CASES: &str =
    "[{\"input\":{\"a\":1,\"b\":2},\"output\":3},{\"input\":{\"a\":2,\"b\":3},\"output\":5}]";

fn entry_sum_matches(case_json: &str) -> bool {
    let v: serde_json::Value = serde_json::from_str(case_json).unwrap();
    let a = v.get("input").unwrap().get("a").unwrap().as_i64().unwrap();
    let b = v.get("input").unwrap().get("b").unwrap().as_i64().unwrap();
    let out = v.get("output").unwrap().as_i64().unwrap();
    a + b == out
}

#[test]
fn two_entries_generate_two_units() {
    let t = target();
    let r = expand_data(&t, "cases.json", Ok(String::from(TWO_CASES)));
    let units = r.unwrap();
    assert_eq!(units.len(), 2);
    assert_eq!(units[0].name, "test_case_0");
    assert_eq!(units[1].name, "test_case_1");
    assert_eq!(units[0].param_name, "testcase");
    assert_eq!(units[0].param_ty, "TestCase");
    assert_eq!(units[0].body, t.body);
    assert!(entry_sum_matches(&units[0].case_json));
    assert!(entry_sum_matches(&units[1].case_json));
}

#[test]
fn changed_expected_value_still_generates() {
    let t = target();
    let content =
        "[{\"input\":{\"a\":1,\"b\":2},\"output\":3},{\"input\":{\"a\":2,\"b\":3},\"output\":99}]";
    let r = expand_data(&t, "cases.json", Ok(String::from(content)));
    let units = r.unwrap();
    assert_eq!(units.len(), 2);
    assert!(entry_sum_matches(&units[0].case_json));
    assert!(!entry_sum_matches(&units[1].case_json));
}

#[test]
fn txt_extension_rejected() {
    let t = target();
    let r = expand_data(&t, "cases.txt", Ok(String::from(TWO_CASES)));
    match r {
        Err(GenError::UnsupportedExtension { ext }) => {
            assert_eq!(ext, "txt");
        }
        other => panic!("expected an unsupported-extension diagnostic, got {:?}", other.is_ok()),
    }
}

#[test]
fn uppercase_extension_selects_the_format() {
    let t = target();
    let r = expand_data(&t, "CASES.JSON", Ok(String::from(TWO_CASES)));
    assert_eq!(r.unwrap().len(), 2);
    let r = expand_data(&t, "cases.YML", Ok(String::from("- 1\n- 2\n- 3\n")));
    assert_eq!(r.unwrap().len(), 3);
}

#[test]
fn empty_file_zero_units() {
    let t = target();
    let r = expand_data(&t, "cases.json", Ok(String::from("[]")));
    assert_eq!(r.unwrap().len(), 0);
    let r = expand_data(&t, "cases.yml", Ok(String::from("[]\n")));
    assert_eq!(r.unwrap().len(), 0);
}

#[test]
fn json_extension_selects_json_strictly() {
    let t = target();
    let yaml_only = "- input: 1\n- input: 2\n";
    let r = expand_data(&t, "cases.json", Ok(String::from(yaml_only)));
    match r {
        Err(GenError::DecodeFailure { format, path, cause }) => {
            assert_eq!(format, DataFormat::Json);
            assert_eq!(path, "cases.json");
            assert!(!cause.is_empty());
        }
        other => panic!("expected a decode diagnostic, got {:?}", other.is_ok()),
    }
    let r = expand_data(&t, "cases.yaml", Ok(String::from(yaml_only)));
    assert_eq!(r.unwrap().len(), 2);
}

#[test]
fn yaml_entries_are_canonicalized_to_json() {
    let t = target();
    let r = expand_data(&t, "cases.yml", Ok(String::from("- a: 1\n")));
    let units = r.unwrap();
    assert_eq!(units.len(), 1);
    assert_eq!(units[0].case_json, "{\"a\":1}");
}

#[test]
fn canonical_text_round_trips_each_entry() {
    let t = target();
    let originals: Vec<serde_json::Value> = serde_json::from_str(TWO_CASES).unwrap();
    let units = expand_data(&t, "cases.json", Ok(String::from(TWO_CASES))).unwrap();
    assert_eq!(units.len(), originals.len());
    for (unit, original) in units.iter().zip(originals.iter()) {
        let back: serde_json::Value = serde_json::from_str(&unit.case_json).unwrap();
        assert_eq!(&back, original);
    }
    let yaml = "- input:\n    a: 1\n    b: 2\n  output: 3\n- input:\n    a: 2\n    b: 3\n  output: 5\n";
    let yaml_units = expand_data(&t, "cases.yaml", Ok(String::from(yaml))).unwrap();
    assert_eq!(yaml_units.len(), originals.len());
    for (unit, original) in yaml_units.iter().zip(originals.iter()) {
        let back: serde_json::Value = serde_json::from_str(&unit.case_json).unwrap();
        assert_eq!(&back, original);
    }
}

#[test]
fn swapping_entries_swaps_contents_not_names() {
    let t = target();
    let swapped =
        "[{\"input\":{\"a\":2,\"b\":3},\"output\":5},{\"input\":{\"a\":1,\"b\":2},\"output\":3}]";
    let units = expand_data(&t, "cases.json", Ok(String::from(TWO_CASES))).unwrap();
    let swapped_units = expand_data(&t, "cases.json", Ok(String::from(swapped))).unwrap();
    assert_eq!(units[0].name, swapped_units[0].name);
    assert_eq!(units[1].name, swapped_units[1].name);
    assert_eq!(units[0].case_json, swapped_units[1].case_json);
    assert_eq!(units[1].case_json, swapped_units[0].case_json);
}

#[test]
fn read_failure_is_reported_with_path_and_cause() {
    let t = target();
    let r = expand_data(&t, "missing.json", Err(String::from("no such file")));
    match r {
        Err(e @ GenError::ReadFailure { .. }) => {
            assert_eq!(
                e.message(),
                "Failed to read data file 'missing.json': no such file"
            );
        }
        other => panic!("expected a read diagnostic, got {:?}", other.is_ok()),
    }
}

#[test]
fn malformed_json_is_a_whole_file_failure() {
    let t = target();
    let r = expand_data(&t, "cases.json", Ok(String::from("[{\"a\": ]")));
    assert!(matches!(r, Err(GenError::DecodeFailure { .. })));
    let r = expand_data(&t, "cases.json", Ok(String::from("{\"a\": 1}")));
    assert!(matches!(r, Err(GenError::DecodeFailure { .. })));
}

#[test]
fn bad_type_text_fails_at_expression_parse() {
    let mut t = target();
    t.params = vec![FnParam::Typed {
        name: String::from("testcase"),
        ty: String::from("}{"),
    }];
    let r = expand_data(&t, "cases.json", Ok(String::from("[1, 2]")));
    match r {
        Err(GenError::ExprParseFailure { index, cause }) => {
            assert_eq!(index, 0);
            assert!(!cause.is_empty());
        }
        other => panic!("expected an expression-parse diagnostic, got {:?}", other.is_ok()),
    }
}

#[test]
fn twelve_entries_get_two_digit_indices() {
    let mut t = target();
    t.params = vec![FnParam::Typed {
        name: String::from("testcase"),
        ty: String::from("u32"),
    }];
    let r = expand_data(&t, "cases.json", Ok(String::from("[1,1,1,1,1,1,1,1,1,1,1,1]")));
    let units = r.unwrap();
    assert_eq!(units.len(), 12);
    assert_eq!(units[9].name, "test_case_9");
    assert_eq!(units[10].name, "test_case_10");
    assert_eq!(units[11].name, "test_case_11");
    assert_eq!(units[11].case_json, "1");
}
