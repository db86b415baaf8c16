use thrush::errors::{Trace, WrenError, WrenErrorType};
use thrush::vm::{error_callback, WrenBuilder, WrenInterpretResult};

#[test]
fn trace_is_built_from_c_strings() {
    let trace = Trace::new(b"call()\0", b"main\0", 12);
    assert_eq!(
        trace,
        Trace { function: "call()".to_string(), module: "main".to_string(), line: 12 }
    );
    assert_eq!(Trace::new(b"f\0", b"m\0", -1).line, u32::MAX);
}

#[test]
fn error_kinds_open_the_matching_error() {
    assert_eq!(
        WrenError::new(WrenErrorType::Compile, b"main\0", 3, b"unexpected token\0"),
        WrenError::Compile {
            module: "main".to_string(),
            line: 3,
            message: "unexpected token".to_string(),
        }
    );
    assert_eq!(
        WrenError::new(WrenErrorType::Runtime, b"main\0", 3, b"boom\0"),
        WrenError::Runtime { message: "boom".to_string(), stack: vec![] }
    );
    assert_eq!(
        WrenError::new(WrenErrorType::StackTrace, b"main\0", 3, b"f()\0"),
        WrenError::Runtime { message: "f()".to_string(), stack: vec![] }
    );
}

#[test]
fn hook_turns_trace_entries_into_frames() {
    assert_eq!(
        error_callback(WrenErrorType::StackTrace, b"main\0", 9, b"inner()\0"),
        Ok(Trace { function: "inner()".to_string(), module: "main".to_string(), line: 9 })
    );
    assert_eq!(
        error_callback(WrenErrorType::Runtime, b"\0", -1, b"bad\0"),
        Err(WrenError::Runtime { message: "bad".to_string(), stack: vec![] })
    );
}

#[test]
fn compile_error_carries_line_and_message() {
    let mut vm = WrenBuilder::new().build();
    let data = vm.user_data_mut();
    let event = error_callback(WrenErrorType::Compile, b"main\0", 4, b"Error at 'var': bad\0");
    assert!(data.can_record(&event));
    data.record_event(event);
    assert!(data.has_error());
    let result = data.conclude(WrenInterpretResult::CompileError);
    match result {
        Err(WrenError::Compile { module, line, message }) => {
            assert_eq!(module, "main");
            assert_eq!(line, 4);
            assert!(!message.is_empty());
            assert_eq!(message, "Error at 'var': bad");
        }
        other => panic!("unexpected {:?}", other),
    }
    assert!(!data.has_error());
}

#[test]
fn runtime_error_collects_frames_innermost_first() {
    let mut vm = WrenBuilder::new().build();
    let data = vm.user_data_mut();
    data.record_event(error_callback(WrenErrorType::Runtime, b"\0", -1, b"boom\0"));
    data.record_event(error_callback(WrenErrorType::StackTrace, b"main\0", 2, b"c()\0"));
    data.record_event(error_callback(WrenErrorType::StackTrace, b"main\0", 5, b"b()\0"));
    data.record_event(error_callback(WrenErrorType::StackTrace, b"main\0", 8, b"a()\0"));
    let result = data.conclude(WrenInterpretResult::RuntimeError);
    assert_eq!(
        result,
        Err(WrenError::Runtime {
            message: "boom".to_string(),
            stack: vec![
                Trace { function: "c()".to_string(), module: "main".to_string(), line: 2 },
                Trace { function: "b()".to_string(), module: "main".to_string(), line: 5 },
                Trace { function: "a()".to_string(), module: "main".to_string(), line: 8 },
            ],
        })
    );
    assert!(!data.has_error());
}

#[test]
fn frame_without_runtime_error_is_not_accepted() {
    let mut vm = WrenBuilder::new().build();
    let data = vm.user_data_mut();
    let frame = error_callback(WrenErrorType::StackTrace, b"main\0", 2, b"c()\0");
    assert!(!data.can_record(&frame));
    data.record_event(error_callback(WrenErrorType::Compile, b"main\0", 1, b"bad\0"));
    assert!(!data.can_record(&frame));
    data.record_event(error_callback(WrenErrorType::Runtime, b"main\0", 1, b"worse\0"));
    assert!(data.can_record(&frame));
}

#[test]
fn later_error_replaces_the_one_held() {
    let mut vm = WrenBuilder::new().build();
    let data = vm.user_data_mut();
    data.record_event(error_callback(WrenErrorType::Runtime, b"\0", -1, b"first\0"));
    data.record_event(error_callback(WrenErrorType::StackTrace, b"main\0", 2, b"c()\0"));
    data.record_event(error_callback(WrenErrorType::Runtime, b"\0", -1, b"second\0"));
    assert_eq!(
        data.conclude(WrenInterpretResult::RuntimeError),
        Err(WrenError::Runtime { message: "second".to_string(), stack: vec![] })
    );
}

#[test]
fn success_yields_nothing_and_takes_nothing() {
    let mut vm = WrenBuilder::new().build();
    let data = vm.user_data_mut();
    assert_eq!(data.conclude(WrenInterpretResult::Success), Ok(()));
    assert!(!data.has_error());
    data.record_event(error_callback(WrenErrorType::Runtime, b"\0", -1, b"kept\0"));
    assert_eq!(data.conclude(WrenInterpretResult::Success), Ok(()));
    assert!(data.has_error());
}

#[test]
fn interpretation_with_three_nested_calls_yields_three_frames() {
    let mut vm = WrenBuilder::new().build();
    let events = vec![
        error_callback(WrenErrorType::Runtime, b"\0", -1, b"boom\0"),
        error_callback(WrenErrorType::StackTrace, b"main\0", 2, b"c()\0"),
        error_callback(WrenErrorType::StackTrace, b"main\0", 5, b"b()\0"),
        error_callback(WrenErrorType::StackTrace, b"main\0", 8, b"a()\0"),
    ];
    let result = vm.interpret(events, WrenInterpretResult::RuntimeError);
    match result {
        Err(WrenError::Runtime { message, stack }) => {
            assert_eq!(message, "boom");
            assert_eq!(stack.len(), 3);
            assert_eq!(stack[0].function, "c()");
            assert_eq!(stack[1].function, "b()");
            assert_eq!(stack[2].function, "a()");
            assert_eq!(stack[0].line, 2);
            assert_eq!(stack[2].line, 8);
        }
        other => panic!("unexpected {:?}", other),
    }
    assert!(!vm.user_data().has_error());
}

#[test]
fn interpretation_with_a_syntax_error_yields_a_compile_error() {
    let mut vm = WrenBuilder::new().build();
    let events = vec![error_callback(WrenErrorType::Compile, b"main\0", 7, b"Error at ')'\0")];
    assert_eq!(
        vm.interpret(events, WrenInterpretResult::CompileError),
        Err(WrenError::Compile {
            module: "main".to_string(),
            line: 7,
            message: "Error at ')'".to_string(),
        })
    );
    assert_eq!(vm.interpret(Vec::new(), WrenInterpretResult::Success), Ok(()));
}
