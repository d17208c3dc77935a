use datafile_test::engine::expand_data;
use datafile_test::engine::plan_expansion;
use datafile_test::extension::{data_format_of, DataFormat};
use datafile_test::model::{build_case_name, FnParam, GenError, TargetFn};
use datafile_test::model::render_all;
use datafile_test::text::usize_to_string;

fn one_param_target() -> TargetFn {
    TargetFn {
        name: String::from("test"),
        params: vec![FnParam::Typed {
            name: String::from("testcase"),
            ty: String::from("TestCase"),
        }],
        body: String::from("{ assert!(true); }"),
    }
}

#[test]
fn annotation_must_be_a_string_literal() {
    let t = one_param_target();
    let r = plan_expansion("tests/data.json", &t);
    match r {
        Err(e @ GenError::MalformedAnnotation) => {
            assert_eq!(
                e.message(),
                "datafile_test annotation must be a single string literal file path"
            );
        }
        _ => panic!("expected a malformed-annotation diagnostic"),
    }
    assert!(plan_expansion("123", &t).is_err());
    assert!(plan_expansion("\"unterminated", &t).is_err());
    assert!(plan_expansion("\"bad\\qescape\"", &t).is_err());
}

#[test]
fn well_formed_annotation_yields_the_path() {
    let t = one_param_target();
    assert_eq!(plan_expansion("\"tests/data.json\"", &t).unwrap(), "tests/data.json");
    assert_eq!(plan_expansion("\"a\\\\b\\\"c\\n\"", &t).unwrap(), "a\\b\"c\n");
}

#[test]
fn arity_errors_are_arity_specific() {
    let mut t = one_param_target();
    t.params = vec![];
    match plan_expansion("\"d.json\"", &t) {
        Err(e @ GenError::WrongArity { count: 0 }) => {
            assert_eq!(e.message(), "datafile_test function must have exactly one argument");
        }
        _ => panic!("expected an arity diagnostic for zero parameters"),
    }
    t.params = vec![
        FnParam::Typed { name: String::from("a"), ty: String::from("A") },
        FnParam::Typed { name: String::from("b"), ty: String::from("B") },
    ];
    assert!(matches!(
        plan_expansion("\"d.json\"", &t),
        Err(GenError::WrongArity { count: 2 })
    ));
}

#[test]
fn parameter_must_be_a_plain_typed_binding() {
    let mut t = one_param_target();
    t.params = vec![FnParam::Other];
    match plan_expansion("\"d.json\"", &t) {
        Err(e @ GenError::ParamNotTyped) => {
            assert_eq!(e.message(), "datafile_test function must take a structured argument");
        }
        _ => panic!("expected a parameter-shape diagnostic"),
    }
}

#[test]
fn annotation_is_checked_before_arity() {
    let mut t = one_param_target();
    t.params = vec![];
    assert!(matches!(plan_expansion("123", &t), Err(GenError::MalformedAnnotation)));
}

#[test]
fn extension_is_case_insensitive_and_positional() {
    assert_eq!(data_format_of("A.JSON"), (String::from("json"), Some(DataFormat::Json)));
    assert_eq!(data_format_of("x.YmL"), (String::from("yml"), Some(DataFormat::Yaml)));
    assert_eq!(data_format_of("x.Yaml"), (String::from("yaml"), Some(DataFormat::Yaml)));
    assert_eq!(data_format_of("noext"), (String::from(""), None));
    assert_eq!(data_format_of("dir.d/file"), (String::from(""), None));
    assert_eq!(data_format_of(".yml"), (String::from(""), None));
    assert_eq!(data_format_of("dir/.yml"), (String::from(""), None));
    assert_eq!(data_format_of("a.tar.gz"), (String::from("gz"), None));
    assert_eq!(data_format_of("a."), (String::from(""), None));
}

#[test]
fn unsupported_extension_message_names_the_extension() {
    let t = one_param_target();
    let r = expand_data(&t, "cases.csv", Ok(String::from("[]")));
    match r {
        Err(e @ GenError::UnsupportedExtension { .. }) => {
            assert_eq!(e.message(), "Unsupported file extension: 'csv'");
        }
        _ => panic!("expected an unsupported-extension diagnostic"),
    }
}

#[test]
fn decode_failure_message_names_format_and_path() {
    let t = one_param_target();
    let r = expand_data(&t, "cases.yaml", Ok(String::from(": : :")));
    match r {
        Err(e @ GenError::DecodeFailure { .. }) => {
            assert!(e.message().starts_with("Failed to parse YAML file 'cases.yaml': "));
        }
        _ => panic!("expected a decode diagnostic"),
    }
}

#[test]
fn expression_failure_message_names_the_index() {
    let mut t = one_param_target();
    t.params = vec![FnParam::Typed { name: String::from("x"), ty: String::from("}{") }];
    let r = expand_data(&t, "cases.json", Ok(String::from("[1]")));
    match r {
        Err(e @ GenError::ExprParseFailure { .. }) => {
            assert!(e.message().starts_with("Failed to parse test case 0 JSON as Rust expression: "));
        }
        _ => panic!("expected an expression-parse diagnostic"),
    }
}

#[test]
fn decimal_names_have_no_padding() {
    assert_eq!(usize_to_string(0), "0");
    assert_eq!(usize_to_string(7), "7");
    assert_eq!(usize_to_string(10), "10");
    assert_eq!(usize_to_string(409), "409");
    assert_eq!(build_case_name("check", 12), "check_case_12");
}

#[test]
fn rendered_unit_is_an_independent_test_function() {
    let t = one_param_target();
    let units = expand_data(&t, "cases.json", Ok(String::from("[{\"a\":1}]"))).unwrap();
    let expected = "#[test]\nfn test_case_0() {\n    let testcase: TestCase = serde_json::from_str::<TestCase>(\"{\\\"a\\\":1}\").unwrap();\n    { assert!(true); }\n}\n";
    assert_eq!(units[0].render(), expected);
    let whole = render_all(&units);
    assert_eq!(whole, expected);
}

#[test]
fn rendered_fragment_concatenates_units_in_order() {
    let t = one_param_target();
    let units = expand_data(&t, "cases.json", Ok(String::from("[{\"a\":1},{\"a\":2}]"))).unwrap();
    let whole = render_all(&units);
    let first = units[0].render();
    let second = units[1].render();
    assert_eq!(whole, format!("{}{}", first, second));
    assert!(whole.contains("fn test_case_0()"));
    assert!(whole.contains("fn test_case_1()"));
}

#[test]
fn generated_expression_deserializes_the_entry() {
    // The rendered expression embeds the canonical text as a string literal;
    // undoing the literal escaping must give back the exact canonical text.
    let t = one_param_target();
    let units = expand_data(
        &t,
        "cases.json",
        Ok(String::from("[{\"s\":\"a\\\"b\\\\c\"}]")),
    )
    .unwrap();
    let rendered = units[0].render();
    let open = rendered.find("from_str::<TestCase>(\"").unwrap() + "from_str::<TestCase>(\"".len();
    let close = rendered.rfind("\").unwrap()").unwrap();
    let embedded = &rendered[open..close];
    let mut unescaped = String::new();
    let mut chars = embedded.chars();
    while let Some(c) = chars.next() {
        if c == '\\' {
            match chars.next().unwrap() {
                '"' => unescaped.push('"'),
                '\\' => unescaped.push('\\'),
                'n' => unescaped.push('\n'),
                't' => unescaped.push('\t'),
                'r' => unescaped.push('\r'),
                other => panic!("unexpected escape {}", other),
            }
        } else {
            unescaped.push(c);
        }
    }
    assert_eq!(unescaped, units[0].case_json);
    let back: serde_json::Value = serde_json::from_str(&unescaped).unwrap();
    assert_eq!(back.get("s").unwrap().as_str().unwrap(), "a\"b\\c");
}
