use waygate::dispatch;
use waygate::state::CompatState;

fn args(tokens: &[&str]) -> Vec<String> {
    tokens.iter().map(|t| t.to_string()).collect()
}

#[test]
fn unknown_symbol_is_not_implemented() {
    let mut st = CompatState::new();
    let r = dispatch(&mut st, "TotallyUnknownFn", &args(&[]));
    assert_eq!(
        r,
        Err("waygate: symbol 'TotallyUnknownFn' is not implemented".to_string())
    );
}

#[test]
fn create_event_draws_fresh_handles() {
    let mut st = CompatState::new();
    let r1 = dispatch(&mut st, "CreateEvent", &args(&[]));
    assert_eq!(r1, Ok("[waygate::kernel32] event_handle=1000".to_string()));
    let r2 = dispatch(&mut st, "CreateEvent", &args(&[]));
    assert_eq!(r2, Ok("[waygate::kernel32] event_handle=1001".to_string()));
}

#[test]
fn handles_never_repeat_across_event_and_window_creates() {
    let mut st = CompatState::new();
    let mut seen = Vec::new();
    for i in 0..6 {
        let r = if i % 2 == 0 {
            dispatch(&mut st, "CreateEvent", &args(&[]))
        } else {
            dispatch(&mut st, "CreateWindowExW", &args(&[]))
        };
        let msg = r.unwrap();
        let after_eq = msg.split_once('=').expect("handle field").1;
        let digits: String = after_eq.chars().take_while(|c| c.is_ascii_digit()).collect();
        assert!(!seen.contains(&digits), "handle {digits} repeated");
        seen.push(digits);
    }
}

#[test]
fn set_event_then_wait_reports_signaled() {
    let mut st = CompatState::new();
    dispatch(&mut st, "CreateEvent", &args(&[])).unwrap();
    let r = dispatch(&mut st, "SetEvent", &args(&["handle=1000"]));
    assert_eq!(
        r,
        Ok("[waygate::kernel32] event_handle=1000 signaled=true".to_string())
    );
    let w = dispatch(
        &mut st,
        "WaitForSingleObject",
        &args(&["handle=1000", "timeout=50"]),
    );
    assert_eq!(
        w,
        Ok("[waygate::kernel32] wait handle=1000 signaled=true timeout_ms=50".to_string())
    );
}

#[test]
fn reset_event_clears_the_flag() {
    let mut st = CompatState::new();
    dispatch(&mut st, "CreateEvent", &args(&[])).unwrap();
    dispatch(&mut st, "SetEvent", &args(&["handle=1000"])).unwrap();
    let r = dispatch(&mut st, "ResetEvent", &args(&["handle=1000"]));
    assert_eq!(
        r,
        Ok("[waygate::kernel32] event_handle=1000 signaled=false".to_string())
    );
    let w = dispatch(&mut st, "WaitForSingleObject", &args(&["handle=1000"]));
    assert_eq!(
        w,
        Ok("[waygate::kernel32] wait handle=1000 signaled=false timeout_ms=0".to_string())
    );
}

#[test]
fn sleep_reports_parsed_duration() {
    let mut st = CompatState::new();
    let r = dispatch(&mut st, "Sleep", &args(&["ms=25"]));
    assert_eq!(r, Ok("[waygate::kernel32] slept_ms=25".to_string()));
    assert_eq!(
        waygate::kernel32::requested_sleep_ms(&st, "Sleep", &args(&["ms=25"])),
        25
    );
}

#[test]
fn wait_delay_is_bounded_by_five_ms() {
    let st = CompatState::new();
    let a = args(&["handle=1", "timeout=50"]);
    assert_eq!(
        waygate::kernel32::requested_sleep_ms(&st, "WaitForSingleObject", &a),
        5
    );
    let b = args(&["handle=1", "timeout=3"]);
    assert_eq!(
        waygate::kernel32::requested_sleep_ms(&st, "WaitForSingleObject", &b),
        3
    );
    assert_eq!(waygate::kernel32::requested_sleep_ms(&st, "GetDC", &a), 0);
}

#[test]
fn last_error_round_trip() {
    let mut st = CompatState::new();
    let r0 = dispatch(&mut st, "GetLastError", &args(&[]));
    assert_eq!(r0, Ok("[waygate::kernel32] last_error=0".to_string()));
    let r1 = dispatch(&mut st, "SetLastError", &args(&["code=7"]));
    assert_eq!(r1, Ok("[waygate::kernel32] last_error_set=7".to_string()));
    let r2 = dispatch(&mut st, "GetLastError", &args(&[]));
    assert_eq!(r2, Ok("[waygate::kernel32] last_error=7".to_string()));
}

#[test]
fn show_cursor_count_goes_negative() {
    let mut st = CompatState::new();
    let hide = args(&["show=false"]);
    assert_eq!(
        dispatch(&mut st, "ShowCursor", &hide),
        Ok("[waygate::user32] show_cursor_count=-1".to_string())
    );
    assert_eq!(
        dispatch(&mut st, "ShowCursor", &hide),
        Ok("[waygate::user32] show_cursor_count=-2".to_string())
    );
    assert_eq!(
        dispatch(&mut st, "ShowCursor", &hide),
        Ok("[waygate::user32] show_cursor_count=-3".to_string())
    );
    let show = args(&["show=true"]);
    assert_eq!(
        dispatch(&mut st, "ShowCursor", &show),
        Ok("[waygate::user32] show_cursor_count=-2".to_string())
    );
}

#[test]
fn message_queue_is_fifo() {
    let mut st = CompatState::new();
    dispatch(&mut st, "PostMessageW", &args(&["hwnd=5", "msg=16"])).unwrap();
    dispatch(&mut st, "PostMessageW", &args(&["hwnd=6", "msg=5"])).unwrap();
    let g1 = dispatch(&mut st, "GetMessageW", &args(&[]));
    assert_eq!(
        g1,
        Ok("[waygate::user32] GetMessageW hwnd=5 msg=0x0010 w=0 l=0".to_string())
    );
    let g2 = dispatch(&mut st, "GetMessageW", &args(&[]));
    assert_eq!(
        g2,
        Ok("[waygate::user32] GetMessageW hwnd=6 msg=0x0005 w=0 l=0".to_string())
    );
    let g3 = dispatch(&mut st, "GetMessageW", &args(&[]));
    assert_eq!(g3, Ok("[waygate::user32] GetMessageW empty_queue".to_string()));
}

#[test]
fn post_message_defaults_to_close_and_reports_hex() {
    let mut st = CompatState::new();
    let r = dispatch(&mut st, "PostMessageW", &args(&["hwnd=9"]));
    assert_eq!(
        r,
        Ok("[waygate::user32] posted_message hwnd=9 msg=0x0010".to_string())
    );
}

#[test]
fn create_window_reports_geometry() {
    let mut st = CompatState::new();
    let r = dispatch(
        &mut st,
        "CreateWindowExW",
        &args(&["title=L\"Demo\"", "x=10", "y=20", "w=300", "h=200"]),
    );
    assert_eq!(
        r,
        Ok("[waygate::user32] created_window hwnd=1000 10,20 300x200".to_string())
    );
}

#[test]
fn window_rect_defaults_for_unknown_handle() {
    let mut st = CompatState::new();
    let r = dispatch(&mut st, "GetClientRect", &args(&["hwnd=42"]));
    assert_eq!(
        r,
        Ok("[waygate::user32] GetClientRect hwnd=42 rect=0,0,640,480".to_string())
    );
}

#[test]
fn window_rect_reads_stored_geometry() {
    let mut st = CompatState::new();
    dispatch(
        &mut st,
        "CreateWindowExW",
        &args(&["x=1", "y=2", "w=3", "h=4"]),
    )
    .unwrap();
    let r = dispatch(&mut st, "GetWindowRect", &args(&["hwnd=1000"]));
    assert_eq!(
        r,
        Ok("[waygate::user32] GetWindowRect hwnd=1000 rect=1,2,3,4".to_string())
    );
}

#[test]
fn destroy_window_reports_whether_it_existed() {
    let mut st = CompatState::new();
    dispatch(&mut st, "CreateWindowExW", &args(&[])).unwrap();
    let r1 = dispatch(&mut st, "DestroyWindow", &args(&["hwnd=1000"]));
    assert_eq!(
        r1,
        Ok("[waygate::user32] destroy_window hwnd=1000 removed=true".to_string())
    );
    let r2 = dispatch(&mut st, "DestroyWindow", &args(&["hwnd=1000"]));
    assert_eq!(
        r2,
        Ok("[waygate::user32] destroy_window hwnd=1000 removed=false".to_string())
    );
}

#[test]
fn find_window_matches_substring_after_stripping_markers() {
    let mut st = CompatState::new();
    dispatch(&mut st, "CreateWindowExW", &args(&["title=L\"Main Window\""])).unwrap();
    let r = dispatch(&mut st, "FindWindowW", &args(&["title=L\"Main\""]));
    assert_eq!(r, Ok("[waygate::user32] found_window hwnd=1000".to_string()));
    let miss = dispatch(&mut st, "FindWindowW", &args(&["title=L\"Other\""]));
    assert_eq!(miss, Ok("[waygate::user32] found_window hwnd=0".to_string()));
    let sentinel = dispatch(&mut st, "FindWindowExW", &args(&[]));
    assert_eq!(sentinel, Ok("[waygate::user32] found_window hwnd=1000".to_string()));
}

#[test]
fn foreground_window_round_trip() {
    let mut st = CompatState::new();
    let r = dispatch(&mut st, "SetForegroundWindow", &args(&["hwnd=77"]));
    assert_eq!(r, Ok("[waygate::user32] foreground_window=77".to_string()));
    let g = dispatch(&mut st, "GetForegroundWindow", &args(&[]));
    assert_eq!(g, Ok("[waygate::user32] hwnd=77".to_string()));
}

#[test]
fn cursor_round_trip_with_negative_coordinates() {
    let mut st = CompatState::new();
    let r = dispatch(&mut st, "SetCursorPos", &args(&["x=3", "y=-4"]));
    assert_eq!(r, Ok("[waygate::user32] cursor=3,-4".to_string()));
    let g = dispatch(&mut st, "GetCursorPos", &args(&[]));
    assert_eq!(g, Ok("[waygate::user32] cursor=3,-4".to_string()));
}

#[test]
fn adjust_window_rect_reports_menu_flag() {
    let mut st = CompatState::new();
    let r = dispatch(&mut st, "AdjustWindowRectEx", &args(&["menu=true"]));
    assert_eq!(
        r,
        Ok("[waygate::user32] AdjustWindowRectEx border=8 caption=30 menu=true".to_string())
    );
}

#[test]
fn show_window_updates_visibility() {
    let mut st = CompatState::new();
    dispatch(&mut st, "CreateWindowExW", &args(&[])).unwrap();
    let r = dispatch(&mut st, "ShowWindow", &args(&["hwnd=1000", "cmd=0"]));
    assert_eq!(
        r,
        Ok("[waygate::user32] show_window hwnd=1000 visible=false".to_string())
    );
}

#[test]
fn set_window_text_echoes_the_text() {
    let mut st = CompatState::new();
    dispatch(&mut st, "CreateWindowExW", &args(&[])).unwrap();
    let r = dispatch(
        &mut st,
        "SetWindowTextW",
        &args(&["hwnd=1000", "text=L\"Hi\""]),
    );
    assert_eq!(
        r,
        Ok("[waygate::user32] set_window_text hwnd=1000 text=L\"Hi\"".to_string())
    );
    let f = dispatch(&mut st, "FindWindowW", &args(&["title=Hi"]));
    assert_eq!(f, Ok("[waygate::user32] found_window hwnd=1000".to_string()));
}

#[test]
fn passthrough_symbols_are_acknowledged() {
    let mut st = CompatState::new();
    let r = dispatch(&mut st, "LoadLibrary", &args(&["path=/x", "mode=1"]));
    assert_eq!(
        r,
        Ok("[waygate::kernel32] LoadLibrary called with args: path=/x, mode=1".to_string())
    );
    let u = dispatch(&mut st, "MessageBoxA", &args(&[]));
    assert_eq!(u, Ok("[waygate::user32] MessageBoxA called".to_string()));
}

#[test]
fn message_identifier_pseudo_symbols_report_hex_values() {
    let mut st = CompatState::new();
    assert_eq!(
        dispatch(&mut st, "WM_CLOSE", &args(&[])),
        Ok("[waygate::user32] WM_CLOSE=0x0010".to_string())
    );
    assert_eq!(
        dispatch(&mut st, "WM_CREATE", &args(&[])),
        Ok("[waygate::user32] WM_CREATE=0x0001".to_string())
    );
    assert_eq!(
        dispatch(&mut st, "WM_PAINT", &args(&[])),
        Ok("[waygate::user32] WM_PAINT=0x000f".to_string())
    );
}

#[test]
fn performance_frequency_is_fixed() {
    let mut st = CompatState::new();
    assert_eq!(
        dispatch(&mut st, "QueryPerformanceFrequency", &args(&[])),
        Ok("[waygate::kernel32] qpf=1000000".to_string())
    );
}

#[test]
fn tick_count_has_expected_shape() {
    let mut st = CompatState::new();
    let r = dispatch(&mut st, "GetTickCount", &args(&[])).unwrap();
    assert!(r.starts_with("[waygate::kernel32] tick="));
    let digits = &r["[waygate::kernel32] tick=".len()..];
    assert!(!digits.is_empty() && digits.chars().all(|c| c.is_ascii_digit()));
}

#[test]
fn quoted_argument_values_parse() {
    let mut st = CompatState::new();
    let r = dispatch(&mut st, "SetCursorPos", &args(&["x=\"15\"", "y=\"-2\""]));
    assert_eq!(r, Ok("[waygate::user32] cursor=15,-2".to_string()));
}

#[test]
fn supported_symbols_covers_both_modules() {
    let syms = waygate::supported_symbols();
    assert_eq!(syms.len(), 68);
    assert!(syms.contains(&"Sleep"));
    assert!(syms.contains(&"WM_QUIT"));
    assert!(syms.contains(&"CreateWindowExW"));
    assert_eq!(syms[0], "CreateFileA");
}

#[test]
fn system_time_has_expected_shape() {
    let mut st = CompatState::new();
    let r = dispatch(&mut st, "GetSystemTime", &args(&[])).unwrap();
    assert!(r.starts_with("[waygate::kernel32] system_time_unix_ms="));
    let l = dispatch(&mut st, "GetLocalTime", &args(&[])).unwrap();
    assert!(l.starts_with("[waygate::kernel32] local_time_unix_ms="));
}

#[test]
fn unrelated_dispatch_leaves_other_state_alone() {
    let mut st = CompatState::new();
    dispatch(&mut st, "PostMessageW", &args(&["hwnd=1"])).unwrap();
    dispatch(&mut st, "SetLastError", &args(&["code=3"])).unwrap();
    let cursor = dispatch(&mut st, "GetCursorPos", &args(&[]));
    assert_eq!(cursor, Ok("[waygate::user32] cursor=0,0".to_string()));
    let err = dispatch(&mut st, "GetLastError", &args(&[]));
    assert_eq!(err, Ok("[waygate::kernel32] last_error=3".to_string()));
    let msg = dispatch(&mut st, "GetMessageW", &args(&[])).unwrap();
    assert!(msg.contains("hwnd=1"));
}
