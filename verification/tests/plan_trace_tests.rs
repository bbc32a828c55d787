use waygate::plan::{format_typed_arg, infer_arg_type, plan_output_path, render_plan,
    typed_args_for_call};
use waygate::trace::{build_gdb_script, parse_arg_line, parse_function_name, parse_gdb_trace,
    parse_trace_block};
use waygate::TracedCall;

fn call(function: &str, args: &[&str]) -> TracedCall {
    TracedCall {
        function: function.to_string(),
        args: args.iter().map(|a| a.to_string()).collect(),
        backtrace: Vec::new(),
    }
}

#[test]
fn type_inference_is_precedence_ordered() {
    assert_eq!(infer_arg_type("\"0x10\""), "string");
    assert_eq!(infer_arg_type("0x10"), "pointer");
    assert_eq!(infer_arg_type("true"), "bool");
    assert_eq!(infer_arg_type("3.14"), "float");
}

#[test]
fn type_inference_covers_every_label() {
    assert_eq!(infer_arg_type(""), "unknown");
    assert_eq!(infer_arg_type("   "), "unknown");
    assert_eq!(infer_arg_type("FALSE"), "bool");
    assert_eq!(infer_arg_type("'abc'"), "string");
    assert_eq!(infer_arg_type("123"), "int");
    assert_eq!(infer_arg_type("-123"), "int");
    assert_eq!(infer_arg_type("1e3"), "float");
    assert_eq!(infer_arg_type("inf"), "float");
    assert_eq!(infer_arg_type("99999999999999999999"), "float"); // too big for i64
    assert_eq!(infer_arg_type("NULL"), "pointer");
    assert_eq!(infer_arg_type("nullptr"), "pointer");
    assert_eq!(infer_arg_type("a/b"), "path");
    assert_eq!(infer_arg_type("user32.dll"), "path");
    assert_eq!(infer_arg_type("libz.so"), "path");
    assert_eq!(infer_arg_type("word"), "unknown");
    assert_eq!(infer_arg_type("0xZZ"), "unknown");
    assert_eq!(infer_arg_type("0x"), "pointer"); // empty hex digit run
}

#[test]
fn typed_arg_carries_name_and_type() {
    assert_eq!(format_typed_arg("handle=1000"), "handle:int=1000");
    assert_eq!(format_typed_arg(" ms = 10 "), "ms:int=10");
    assert_eq!(format_typed_arg("0x10"), "value:pointer=0x10");
    assert_eq!(format_typed_arg("flag=true"), "flag:bool=true");
    assert_eq!(format_typed_arg("\"0x10\""), "value:string=\"0x10\"");
    assert_eq!(format_typed_arg("p=\"0x10\""), "p:string=\"0x10\"");
    assert_eq!(format_typed_arg("3.14"), "value:float=3.14");
}

#[test]
fn typed_args_map_each_token() {
    let c = call("SetEvent", &["handle=1000", "true"]);
    assert_eq!(
        typed_args_for_call(&c),
        vec!["handle:int=1000".to_string(), "value:bool=true".to_string()]
    );
}

#[test]
fn plan_round_trip_for_two_calls() {
    let calls = vec![call("CreateEvent", &[]), call("SetEvent", &["handle=1000"])];
    let text = render_plan(&calls);
    assert_eq!(
        text,
        "# waygate execution plan\n1\tCreateEvent\t\n2\tSetEvent\thandle:int=1000\n"
    );
}

#[test]
fn plan_joins_multiple_typed_args() {
    let calls = vec![call("SetCursorPos", &["x=3", "y=-4"])];
    let text = render_plan(&calls);
    assert_eq!(
        text,
        "# waygate execution plan\n1\tSetCursorPos\tx:int=3||y:int=-4\n"
    );
}

#[test]
fn plan_path_is_the_target_sibling() {
    assert_eq!(plan_output_path("/tmp/app.exe"), "/tmp/app.exe.waygate.plan");
    assert_eq!(plan_output_path("game"), "game.waygate.plan");
}

#[test]
fn gdb_script_follows_the_protocol() {
    let script = build_gdb_script();
    assert!(script.starts_with(
        "set pagination off\nset confirm off\nset breakpoint pending on\nset print frame-arguments all\n"
    ));
    assert!(script.contains("rbreak ^Sleep$\n"));
    assert!(script.contains("rbreak ^WM_QUIT$\n"));
    assert!(script.contains("run\nset $i = 0\nwhile $i < 128\n"));
    assert!(script.contains("printf \"===TRACE_EVENT_BEGIN===\\n\""));
    assert!(script.contains("backtrace 8"));
    assert!(script.ends_with("  set $i = $i + 1\nend"));
    assert_eq!(script.matches("rbreak ^").count(), 68);
}

#[test]
fn arg_line_splits_on_first_equals() {
    assert_eq!(
        parse_arg_line("ms = 100"),
        Some(("ms".to_string(), "100".to_string()))
    );
    assert_eq!(parse_arg_line("no equals here"), None);
    assert_eq!(parse_arg_line("#0 frame=line"), None);
    assert_eq!(parse_arg_line(" = 5"), None);
}

#[test]
fn function_name_comes_from_the_frame_line() {
    assert_eq!(
        parse_function_name("#0  Sleep (ms=100) at emu.c:10"),
        Some("Sleep".to_string())
    );
    assert_eq!(parse_function_name("not a frame"), None);
    assert_eq!(parse_function_name("#0  0x00007ffff (nothing)"), None);
    assert_eq!(
        parse_function_name("#1  0xCreateEvent ()"),
        Some("CreateEvent".to_string())
    );
}

#[test]
fn trace_block_collects_args_and_backtrace() {
    let lines = vec![
        "#0  Sleep (ms=100) at emu.c:10".to_string(),
        "ms = 100".to_string(),
        "#1  0x0000555555 in main ()".to_string(),
    ];
    let c = parse_trace_block(&lines).expect("known symbol");
    assert_eq!(c.function, "Sleep");
    assert_eq!(c.args, vec!["ms=100".to_string()]);
    assert_eq!(
        c.backtrace,
        vec![
            "#0  Sleep (ms=100) at emu.c:10".to_string(),
            "#1  0x0000555555 in main ()".to_string()
        ]
    );
}

#[test]
fn trace_block_with_unknown_symbol_is_discarded() {
    let lines = vec!["#0  helper_fn (x=1)".to_string()];
    assert!(parse_trace_block(&lines).is_none());
}

#[test]
fn trace_parse_keeps_repeated_stops() {
    let stdout = "\
junk before\n\
===TRACE_EVENT_BEGIN===\n\
#0  Sleep (ms=5)\n\
ms = 5\n\
===TRACE_EVENT_END===\n\
between\n\
===TRACE_EVENT_BEGIN===\n\
#0  Sleep (ms=5)\n\
ms = 5\n\
===TRACE_EVENT_END===\n";
    let calls = parse_gdb_trace(stdout);
    assert_eq!(calls.len(), 2);
    assert_eq!(calls[0].function, "Sleep");
    assert_eq!(calls[0].args, vec!["ms=5".to_string()]);
    assert_eq!(calls[1].function, "Sleep");
}

#[test]
fn trace_parse_ignores_text_outside_blocks() {
    let calls = parse_gdb_trace("ms = 5\n#0  Sleep (ms=5)\nno blocks at all\n");
    assert!(calls.is_empty());
}

#[test]
fn format_detection_by_magic_bytes() {
    assert_eq!(waygate::pe::detect_format(&[0x7F, b'E', b'L', b'F', 0]), "ELF");
    assert_eq!(
        waygate::pe::detect_format(&[0x4D, 0x5A, 0x90]),
        "PE/COFF (Windows)"
    );
    assert_eq!(waygate::pe::detect_format(b"hello"), "unknown");
    assert!(waygate::pe::can_run_natively(&[0x7F, b'E', b'L', b'F']));
    assert!(!waygate::pe::can_run_natively(&[0x4D, 0x5A]));
}
