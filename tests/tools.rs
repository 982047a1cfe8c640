use agent_conversation::tool::check_arguments;
use agent_conversation::{
    ArgumentProblem, GetCurrentTime, ParameterSchema, RegisteredTool, ToolArguments, ToolError,
    ToolOutput,
};
use chrono::{Local, NaiveDateTime};

fn args(names: &[&str]) -> ToolArguments {
    ToolArguments { names: Some(names.iter().map(|n| n.to_string()).collect()) }
}

#[test]
fn current_time_definition_is_fixed() {
    let d = GetCurrentTime.definition("What time is it?".to_string());
    assert_eq!(d.name, "get_current_time");
    assert_eq!(d.description, "Get the current local time");
    assert!(d.parameters.properties.is_empty());
    assert!(d.parameters.required.is_empty());
    assert_eq!(GetCurrentTime.name(), "get_current_time");
}

#[test]
fn describe_twice_gives_equal_definitions() {
    let tool = RegisteredTool::CurrentTime(GetCurrentTime);
    let a = tool.describe("same context".to_string());
    let b = tool.describe("same context".to_string());
    assert_eq!(a, b);
    let c = tool.describe("another context".to_string());
    assert_eq!(a, c);
}

#[test]
fn current_time_has_stated_format() {
    let out = GetCurrentTime.call(agent_conversation::GetCurrentTimeArgs {}).unwrap();
    let t = out.current_time;
    assert!(t.len() > 20, "{t}");
    assert_eq!(&t[4..5], "-");
    assert_eq!(&t[7..8], "-");
    assert_eq!(&t[10..11], " ");
    assert_eq!(&t[13..14], ":");
    assert_eq!(&t[16..17], ":");
    assert_eq!(&t[19..20], " ");
}

#[test]
fn current_time_is_close_to_the_clock() {
    for _ in 0..100 {
        let before = Local::now().naive_local();
        let out = GetCurrentTime.call(agent_conversation::GetCurrentTimeArgs {}).unwrap();
        let parsed = NaiveDateTime::parse_from_str(&out.current_time[..19], "%Y-%m-%d %H:%M:%S").unwrap();
        let diff = (parsed - before).num_milliseconds().abs();
        assert!(diff < 2000, "{} vs {}", out.current_time, before);
    }
}

#[test]
fn current_time_refuses_arguments() {
    assert!(GetCurrentTime.parse_args(&args(&[])).is_ok());
    assert_eq!(
        GetCurrentTime.parse_args(&args(&["zone"])).err(),
        Some(ToolError::ArgumentError(ArgumentProblem::Undeclared("zone".to_string())))
    );
}

#[test]
fn invoke_with_conforming_arguments_succeeds() {
    let tool = RegisteredTool::CurrentTime(GetCurrentTime);
    match tool.invoke(&args(&[])) {
        Ok(ToolOutput::CurrentTime(o)) => assert!(!o.current_time.is_empty()),
        other => panic!("unexpected {other:?}"),
    }
}

#[test]
fn invoke_with_undeclared_argument_fails() {
    let tool = RegisteredTool::CurrentTime(GetCurrentTime);
    assert_eq!(tool.invoke(&args(&["a", "b"])), Err(ToolError::ArgumentError(ArgumentProblem::Undeclared("a".to_string()))));
}

#[test]
fn check_arguments_reports_missing_required() {
    let schema = ParameterSchema {
        properties: vec!["city".to_string(), "unit".to_string()],
        required: vec!["city".to_string()],
    };
    assert_eq!(check_arguments(&schema, &args(&["city"])), Ok(()));
    assert_eq!(check_arguments(&schema, &args(&["unit", "city"])), Ok(()));
    assert_eq!(
        check_arguments(&schema, &args(&["unit"])),
        Err(ToolError::ArgumentError(ArgumentProblem::Missing("city".to_string())))
    );
    assert_eq!(
        check_arguments(&schema, &args(&["city", "date"])),
        Err(ToolError::ArgumentError(ArgumentProblem::Undeclared("date".to_string())))
    );
}

#[test]
fn check_arguments_reports_undeclared_before_missing() {
    let schema = ParameterSchema {
        properties: vec!["city".to_string()],
        required: vec!["city".to_string()],
    };
    assert_eq!(
        check_arguments(&schema, &args(&["date", "zone"])),
        Err(ToolError::ArgumentError(ArgumentProblem::Undeclared("date".to_string())))
    );
}

#[test]
fn payload_that_is_not_an_object_is_refused() {
    let not_object = ToolArguments { names: None };
    assert_eq!(
        GetCurrentTime.parse_args(&not_object).err(),
        Some(ToolError::ArgumentError(ArgumentProblem::NotAnObject))
    );
    let tool = RegisteredTool::CurrentTime(GetCurrentTime);
    assert_eq!(
        tool.invoke(&not_object),
        Err(ToolError::ArgumentError(ArgumentProblem::NotAnObject))
    );
    let schema = ParameterSchema { properties: vec![], required: vec![] };
    assert_eq!(
        check_arguments(&schema, &not_object),
        Err(ToolError::ArgumentError(ArgumentProblem::NotAnObject))
    );
}

#[test]
fn current_time_text_has_digits_and_a_zone() {
    let t = GetCurrentTime.call(agent_conversation::GetCurrentTimeArgs {}).unwrap().current_time;
    let chars: Vec<char> = t.chars().collect();
    for k in [0, 1, 2, 3, 5, 6, 8, 9, 11, 12, 14, 15, 17, 18] {
        assert!(chars[k].is_ascii_digit(), "{t}");
    }
    let zone: String = chars[20..].iter().collect();
    assert!(!zone.is_empty());
    assert!(zone.starts_with('+') || zone.starts_with('-'), "{t}");
}
