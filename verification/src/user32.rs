//! The windowing/input/messaging handler module: dispatches the second
//! group of recognized symbols against the synthetic OS state.

use vstd::prelude::*;
use vstd::string::*;

use crate::WaygateResult;
use crate::kernel32::{bool_spec, bool_str};
use crate::num::{
    dec_int_spec, dec_spec, hex4_spec, hex4_u32, i32_to_string, i64_to_string, u64_to_string,
};
use crate::state::{
    arg_value, arg_value_spec, assoc_get, assoc_idx, assoc_remove, assoc_set, eq_except_cursor,
    eq_except_cursor_count, eq_except_foreground, eq_except_messages, eq_except_windows,
    eq_except_windows_alloc, lemma_assoc_idx_props, lemma_assoc_remove_unique,
    lemma_assoc_set_unique, parse_bool, parse_bool_with_default, parse_i32, parse_i32_with_default,
    parse_u64, parse_u64_with_default, queue_front, queue_pop, tbl_index, tbl_remove, tbl_set,
    wrap_inc, CompatState, WindowInfo,
};
use crate::text::{contains_str, find_sub, join_strings, join_with, remove_char, remove_char_spec,
    str_eq};

verus! {

/// Message identifiers for the symbolic message pseudo-symbols.
pub const WM_CREATE: u32 = 0x0001;

pub const WM_DESTROY: u32 = 0x0002;

pub const WM_SIZE: u32 = 0x0005;

pub const WM_PAINT: u32 = 0x000F;

pub const WM_CLOSE: u32 = 0x0010;

pub const WM_QUIT: u32 = 0x0012;

/// The `key` argument parsed as `u64`, quote-stripped, with a default.
pub open spec fn arg_u64(args: Seq<String>, key: Seq<char>, d: u64) -> u64 {
    parse_u64_with_default(arg_value_spec(args, key), d)
}

/// The `key` argument parsed as `i32`, quote-stripped, with a default.
pub open spec fn arg_i32(args: Seq<String>, key: Seq<char>, d: i32) -> i32 {
    parse_i32_with_default(arg_value_spec(args, key), d)
}

/// The `key` argument parsed as a boolean, with a default.
pub open spec fn arg_bool(args: Seq<String>, key: Seq<char>, d: bool) -> bool {
    parse_bool_with_default(arg_value_spec(args, key), d)
}

/// The raw `key` argument, or a default text.
pub open spec fn arg_str_or(args: Seq<String>, key: Seq<char>, d: Seq<char>) -> Seq<char> {
    match arg_value_spec(args, key) {
        Some(v) => v,
        None => d,
    }
}

/// Whether `wi` holds exactly these field values.
pub open spec fn win_fields(
    wi: WindowInfo,
    title: Seq<char>,
    visible: bool,
    x: i32,
    y: i32,
    w: i32,
    h: i32,
) -> bool {
    wi.title@ == title && wi.visible == visible && wi.x == x && wi.y == y && wi.w == w && wi.h == h
}

/// The acknowledgement line for a symbol with no stateful emulation.
pub open spec fn ok_msg_u32(sym: Seq<char>, args: Seq<String>) -> Seq<char> {
    if args.len() == 0 {
        "[waygate::user32] "@ + sym + " called"@
    } else {
        "[waygate::user32] "@ + sym + " called with args: "@ + join_with(args, ", "@)
    }
}

/// `CreateWindowExW`: a fresh handle is bound to a new, initially hidden
/// window with the given title and geometry.
pub open spec fn create_window_post(
    pre: CompatState,
    post: CompatState,
    args: Seq<String>,
    r: Option<Result<String, String>>,
) -> bool {
    let title = arg_str_or(args, "title"@, "L\"window\""@);
    let x = arg_i32(args, "x"@, 100);
    let y = arg_i32(args, "y"@, 100);
    let w = arg_i32(args, "w"@, 640);
    let h = arg_i32(args, "h"@, 480);
    let hh = pre.next_handle;
    &&& post.next_handle == wrap_inc(hh)
    &&& eq_except_windows_alloc(pre, post)
    &&& exists|wi: WindowInfo|
        win_fields(wi, title, false, x, y, w, h) && post.windows@ == assoc_set(
            pre.windows@,
            hh,
            wi,
        )
    &&& (pre.wf() ==> post.wf())
    &&& match r {
        Some(Ok(m)) => m@ == "[waygate::user32] created_window hwnd="@ + dec_spec(hh as nat)
            + " "@ + dec_int_spec(x as int) + ","@ + dec_int_spec(y as int) + " "@ + dec_int_spec(
            w as int,
        ) + "x"@ + dec_int_spec(h as int),
        _ => false,
    }
}

/// `DestroyWindow`: removes the named window, reporting whether it existed.
pub open spec fn destroy_window_post(
    pre: CompatState,
    post: CompatState,
    args: Seq<String>,
    r: Option<Result<String, String>>,
) -> bool {
    let h = arg_u64(args, "hwnd"@, 0);
    let removed = assoc_idx(pre.windows@, h, 0) < pre.windows@.len();
    &&& post.windows@ == assoc_remove(pre.windows@, h)
    &&& eq_except_windows(pre, post)
    &&& (pre.wf() ==> post.wf())
    &&& match r {
        Some(Ok(m)) => m@ == "[waygate::user32] destroy_window hwnd="@ + dec_spec(h as nat)
            + " removed="@ + bool_spec(removed),
        _ => false,
    }
}

/// `ShowWindow`: sets the named window's visibility, if it exists.
pub open spec fn show_window_post(
    pre: CompatState,
    post: CompatState,
    args: Seq<String>,
    r: Option<Result<String, String>>,
) -> bool {
    let h = arg_u64(args, "hwnd"@, 0);
    let visible = arg_i32(args, "cmd"@, 1) != 0;
    let i = assoc_idx(pre.windows@, h, 0);
    &&& (if i < pre.windows@.len() {
        post.windows@ =~= pre.windows@.update(
            i,
            (
                h,
                WindowInfo {
                    title: pre.windows@[i].1.title,
                    visible,
                    x: pre.windows@[i].1.x,
                    y: pre.windows@[i].1.y,
                    w: pre.windows@[i].1.w,
                    h: pre.windows@[i].1.h,
                },
            ),
        )
    } else {
        post.windows == pre.windows
    })
    &&& eq_except_windows(pre, post)
    &&& (pre.wf() ==> post.wf())
    &&& match r {
        Some(Ok(m)) => m@ == "[waygate::user32] show_window hwnd="@ + dec_spec(h as nat)
            + " visible="@ + bool_spec(visible),
        _ => false,
    }
}

/// `SetWindowTextW`: replaces the named window's title, if it exists.
pub open spec fn set_window_text_post(
    pre: CompatState,
    post: CompatState,
    args: Seq<String>,
    r: Option<Result<String, String>>,
) -> bool {
    let h = arg_u64(args, "hwnd"@, 0);
    let text = arg_str_or(args, "text"@, "L\"\""@);
    let i = assoc_idx(pre.windows@, h, 0);
    &&& (if i < pre.windows@.len() {
        exists|wi: WindowInfo|
            win_fields(
                wi,
                text,
                pre.windows@[i].1.visible,
                pre.windows@[i].1.x,
                pre.windows@[i].1.y,
                pre.windows@[i].1.w,
                pre.windows@[i].1.h,
            ) && post.windows@ =~= pre.windows@.update(i, (h, wi))
    } else {
        post.windows == pre.windows
    })
    &&& eq_except_windows(pre, post)
    &&& (pre.wf() ==> post.wf())
    &&& match r {
        Some(Ok(m)) => m@ == "[waygate::user32] set_window_text hwnd="@ + dec_spec(h as nat)
            + " text="@ + text,
        _ => false,
    }
}

/// `GetClientRect` / `GetWindowRect`: reports the named window's geometry,
/// or the default rectangle for an unknown handle.
pub open spec fn get_rect_msg(pre: CompatState, name: Seq<char>, args: Seq<String>) -> Seq<char> {
    let h = arg_u64(args, "hwnd"@, 0);
    let x = match assoc_get(pre.windows@, h) {
        Some(wi) => wi.x,
        None => 0,
    };
    let y = match assoc_get(pre.windows@, h) {
        Some(wi) => wi.y,
        None => 0,
    };
    let w = match assoc_get(pre.windows@, h) {
        Some(wi) => wi.w,
        None => 640,
    };
    let hh = match assoc_get(pre.windows@, h) {
        Some(wi) => wi.h,
        None => 480,
    };
    "[waygate::user32] "@ + name + " hwnd="@ + dec_spec(h as nat) + " rect="@ + dec_int_spec(
        x as int,
    ) + ","@ + dec_int_spec(y as int) + ","@ + dec_int_spec(w as int) + ","@ + dec_int_spec(
        hh as int,
    )
}

/// Index of the first window matching the (cleaned) title query: the
/// sentinel query `0` matches the first window unconditionally; otherwise
/// a substring match on the title decides.
pub open spec fn find_window_idx(
    wins: Seq<(u64, WindowInfo)>,
    wanted: Seq<char>,
    i: int,
) -> int
    decreases wins.len() - i,
{
    if 0 <= i < wins.len() {
        if wanted == "0"@ || find_sub(wins[i].1.title@, wanted, 0) >= 0 {
            i
        } else {
            find_window_idx(wins, wanted, i + 1)
        }
    } else {
        i
    }
}

/// The query `FindWindowW` matches against: the raw `title` argument with
/// every quote and every `L` marker character removed.
pub open spec fn find_window_query(args: Seq<String>) -> Seq<char> {
    remove_char_spec(remove_char_spec(arg_str_or(args, "title"@, "0"@), '"'), 'L')
}

/// The handle `FindWindowW` reports: the first matching window, or 0.
pub open spec fn find_window_handle(pre: CompatState, args: Seq<String>) -> u64 {
    let wanted = find_window_query(args);
    let i = find_window_idx(pre.windows@, wanted, 0);
    if 0 <= i < pre.windows@.len() {
        pre.windows@[i].0
    } else {
        0
    }
}

/// `ShowCursor`'s step: the signed counter moves by one, wrapping at the
/// 32-bit limits as the register it mirrors would.
pub open spec fn cursor_step(c: i32, show: bool) -> i32 {
    if show {
        if c == i32::MAX {
            i32::MIN
        } else {
            (c + 1) as i32
        }
    } else {
        if c == i32::MIN {
            i32::MAX
        } else {
            (c - 1) as i32
        }
    }
}

/// `PostMessageW`: the parsed message is appended to the queue.
pub open spec fn post_message_post(
    pre: CompatState,
    post: CompatState,
    args: Seq<String>,
    r: Option<Result<String, String>>,
) -> bool {
    let h = arg_u64(args, "hwnd"@, 0);
    let mid = arg_u64(args, "msg"@, WM_CLOSE as u64) as u32;
    let w = arg_u64(args, "wparam"@, 0) as i64;
    let l = arg_u64(args, "lparam"@, 0) as i64;
    &&& post.messages@ == pre.messages@.push((h, mid, w, l))
    &&& eq_except_messages(pre, post)
    &&& match r {
        Some(Ok(m)) => m@ == "[waygate::user32] posted_message hwnd="@ + dec_spec(h as nat)
            + " msg="@ + hex4_spec(mid as nat),
        _ => false,
    }
}

/// `GetMessageW` / `PeekMessageW`: the oldest queued message leaves and is
/// reported; an empty queue is a valid "empty" outcome.
pub open spec fn get_message_post(
    pre: CompatState,
    post: CompatState,
    name: Seq<char>,
    r: Option<Result<String, String>>,
) -> bool {
    &&& post.messages@ == queue_pop(pre.messages@)
    &&& eq_except_messages(pre, post)
    &&& match r {
        Some(Ok(m)) => match queue_front(pre.messages@) {
            Some(ev) => m@ == "[waygate::user32] "@ + name + " hwnd="@ + dec_spec(ev.0 as nat)
                + " msg="@ + hex4_spec(ev.1 as nat) + " w="@ + dec_int_spec(ev.2 as int) + " l="@
                + dec_int_spec(ev.3 as int),
            None => m@ == "[waygate::user32] "@ + name + " empty_queue"@,
        },
        _ => false,
    }
}

/// Which symbols this module claims.
pub open spec fn u32_claims(sym: Seq<char>) -> bool {
    ||| sym == "CreateWindowExW"@
    ||| sym == "DestroyWindow"@
    ||| sym == "ShowWindow"@
    ||| sym == "SetWindowTextW"@
    ||| sym == "GetClientRect"@
    ||| sym == "GetWindowRect"@
    ||| sym == "AdjustWindowRectEx"@
    ||| sym == "FindWindowW"@
    ||| sym == "FindWindowExW"@
    ||| sym == "GetForegroundWindow"@
    ||| sym == "SetForegroundWindow"@
    ||| sym == "SetCursorPos"@
    ||| sym == "GetCursorPos"@
    ||| sym == "ShowCursor"@
    ||| sym == "PostMessageW"@
    ||| sym == "PeekMessageW"@
    ||| sym == "GetMessageW"@
    ||| sym == "DispatchMessageW"@
    ||| sym == "TranslateMessage"@
    ||| sym == "SendInput"@
    ||| sym == "mouse_event"@
    ||| sym == "keybd_event"@
    ||| sym == "ClientToScreen"@
    ||| sym == "ScreenToClient"@
    ||| sym == "GetDC"@
    ||| sym == "ReleaseDC"@
    ||| sym == "GetSystemMetrics"@
    ||| sym == "MapVirtualKey"@
    ||| sym == "GetAsyncKeyState"@
    ||| sym == "GetKeyState"@
    ||| sym == "ClipCursor"@
    ||| sym == "MessageBoxA"@
    ||| sym == "RegisterClassExW"@
    ||| sym == "DefWindowProcW"@
    ||| sym == "UpdateWindow"@
    ||| sym == "SendMessageW"@
    ||| sym == "GetDesktopWindow"@
    ||| sym == "WM_CREATE"@
    ||| sym == "WM_DESTROY"@
    ||| sym == "WM_PAINT"@
    ||| sym == "WM_SIZE"@
    ||| sym == "WM_CLOSE"@
    ||| sym == "WM_QUIT"@
}

/// What one dispatch through this module does, symbol by symbol.
pub open spec fn u32_post(
    pre: CompatState,
    post: CompatState,
    sym: Seq<char>,
    args: Seq<String>,
    r: Option<Result<String, String>>,
) -> bool {
    if sym == "CreateWindowExW"@ {
        create_window_post(pre, post, args, r)
    } else if sym == "DestroyWindow"@ {
        destroy_window_post(pre, post, args, r)
    } else if sym == "ShowWindow"@ {
        show_window_post(pre, post, args, r)
    } else if sym == "SetWindowTextW"@ {
        set_window_text_post(pre, post, args, r)
    } else if sym == "GetClientRect"@ || sym == "GetWindowRect"@ {
        post == pre && (match r {
            Some(Ok(m)) => m@ == get_rect_msg(pre, sym, args),
            _ => false,
        })
    } else if sym == "AdjustWindowRectEx"@ {
        post == pre && (match r {
            Some(Ok(m)) => m@ == "[waygate::user32] AdjustWindowRectEx border=8 caption=30 menu="@
                + bool_spec(arg_bool(args, "menu"@, false)),
            _ => false,
        })
    } else if sym == "FindWindowW"@ || sym == "FindWindowExW"@ {
        post == pre && (match r {
            Some(Ok(m)) => m@ == "[waygate::user32] found_window hwnd="@ + dec_spec(
                find_window_handle(pre, args) as nat,
            ),
            _ => false,
        })
    } else if sym == "GetForegroundWindow"@ {
        post == pre && (match r {
            Some(Ok(m)) => m@ == "[waygate::user32] hwnd="@ + dec_spec(pre.foreground as nat),
            _ => false,
        })
    } else if sym == "SetForegroundWindow"@ {
        post.foreground == arg_u64(args, "hwnd"@, 0) && eq_except_foreground(pre, post) && (match r {
            Some(Ok(m)) => m@ == "[waygate::user32] foreground_window="@ + dec_spec(
                arg_u64(args, "hwnd"@, 0) as nat,
            ),
            _ => false,
        })
    } else if sym == "SetCursorPos"@ {
        post.cursor_x == arg_i32(args, "x"@, 0) && post.cursor_y == arg_i32(args, "y"@, 0)
            && eq_except_cursor(pre, post) && (match r {
            Some(Ok(m)) => m@ == "[waygate::user32] cursor="@ + dec_int_spec(
                arg_i32(args, "x"@, 0) as int,
            ) + ","@ + dec_int_spec(arg_i32(args, "y"@, 0) as int),
            _ => false,
        })
    } else if sym == "GetCursorPos"@ {
        post == pre && (match r {
            Some(Ok(m)) => m@ == "[waygate::user32] cursor="@ + dec_int_spec(pre.cursor_x as int)
                + ","@ + dec_int_spec(pre.cursor_y as int),
            _ => false,
        })
    } else if sym == "ShowCursor"@ {
        let newc = cursor_step(pre.show_cursor_count, arg_bool(args, "show"@, true));
        post.show_cursor_count == newc && eq_except_cursor_count(pre, post) && (match r {
            Some(Ok(m)) => m@ == "[waygate::user32] show_cursor_count="@ + dec_int_spec(
                newc as int,
            ),
            _ => false,
        })
    } else if sym == "PostMessageW"@ {
        post_message_post(pre, post, args, r)
    } else if sym == "PeekMessageW"@ || sym == "GetMessageW"@ {
        get_message_post(pre, post, sym, r)
    } else if sym == "DispatchMessageW"@ || sym == "TranslateMessage"@ || sym == "SendInput"@
        || sym == "mouse_event"@ || sym == "keybd_event"@ || sym == "ClientToScreen"@ || sym
        == "ScreenToClient"@ || sym == "GetDC"@ || sym == "ReleaseDC"@ || sym
        == "GetSystemMetrics"@ || sym == "MapVirtualKey"@ || sym == "GetAsyncKeyState"@ || sym
        == "GetKeyState"@ || sym == "ClipCursor"@ || sym == "MessageBoxA"@ || sym
        == "RegisterClassExW"@ || sym == "DefWindowProcW"@ || sym == "UpdateWindow"@ || sym
        == "SendMessageW"@ || sym == "GetDesktopWindow"@ {
        post == pre && (match r {
            Some(Ok(m)) => m@ == ok_msg_u32(sym, args),
            _ => false,
        })
    } else if sym == "WM_CREATE"@ {
        post == pre && (match r {
            Some(Ok(m)) => m@ == "[waygate::user32] "@ + "WM_CREATE"@ + "="@ + hex4_spec(WM_CREATE as nat),
            _ => false,
        })
    } else if sym == "WM_DESTROY"@ {
        post == pre && (match r {
            Some(Ok(m)) => m@ == "[waygate::user32] "@ + "WM_DESTROY"@ + "="@ + hex4_spec(WM_DESTROY as nat),
            _ => false,
        })
    } else if sym == "WM_PAINT"@ {
        post == pre && (match r {
            Some(Ok(m)) => m@ == "[waygate::user32] "@ + "WM_PAINT"@ + "="@ + hex4_spec(WM_PAINT as nat),
            _ => false,
        })
    } else if sym == "WM_SIZE"@ {
        post == pre && (match r {
            Some(Ok(m)) => m@ == "[waygate::user32] "@ + "WM_SIZE"@ + "="@ + hex4_spec(WM_SIZE as nat),
            _ => false,
        })
    } else if sym == "WM_CLOSE"@ {
        post == pre && (match r {
            Some(Ok(m)) => m@ == "[waygate::user32] "@ + "WM_CLOSE"@ + "="@ + hex4_spec(WM_CLOSE as nat),
            _ => false,
        })
    } else if sym == "WM_QUIT"@ {
        post == pre && (match r {
            Some(Ok(m)) => m@ == "[waygate::user32] "@ + "WM_QUIT"@ + "="@ + hex4_spec(WM_QUIT as nat),
            _ => false,
        })
    } else {
        post == pre && r is None
    }
}

/// `CreateWindowExW`: stores a synthetic window so later calls can query
/// and update it.
pub fn create_window(state: &mut CompatState, args: &[String]) -> (r: WaygateResult)
    ensures
        create_window_post(*old(state), *final(state), args@, Some(r)),
{
    let title = match arg_value(args, "title") {
        Some(v) => v,
        None => String::from_str("L\"window\""),
    };
    let x = parse_i32(arg_value(args, "x"), 100);
    let y = parse_i32(arg_value(args, "y"), 100);
    let w = parse_i32(arg_value(args, "w"), 640);
    let h = parse_i32(arg_value(args, "h"), 480);
    let handle = state.alloc_handle();
    let wi = WindowInfo { title, visible: false, x, y, w, h };
    let ghost gwi = wi;
    tbl_set(&mut state.windows, handle, wi);
    proof {
        if old(state).wf() {
            lemma_assoc_set_unique(old(state).windows@, handle, gwi);
        }
        assert(win_fields(
            gwi,
            arg_str_or(args@, "title"@, "L\"window\""@),
            false,
            arg_i32(args@, "x"@, 100),
            arg_i32(args@, "y"@, 100),
            arg_i32(args@, "w"@, 640),
            arg_i32(args@, "h"@, 480),
        ));
    }
    let mut m = String::from_str("[waygate::user32] created_window hwnd=");
    let d = u64_to_string(handle);
    m.append(d.as_str());
    m.append(" ");
    let xs = i32_to_string(x);
    m.append(xs.as_str());
    m.append(",");
    let ys = i32_to_string(y);
    m.append(ys.as_str());
    m.append(" ");
    let ws = i32_to_string(w);
    m.append(ws.as_str());
    m.append("x");
    let hs = i32_to_string(h);
    m.append(hs.as_str());
    Ok(m)
}

/// `DestroyWindow`: removes the named window, reporting whether it existed.
pub fn destroy_window(state: &mut CompatState, args: &[String]) -> (r: WaygateResult)
    ensures
        destroy_window_post(*old(state), *final(state), args@, Some(r)),
{
    let hwnd = parse_u64(arg_value(args, "hwnd"), 0);
    let removed = tbl_remove(&mut state.windows, hwnd);
    proof {
        if old(state).wf() {
            lemma_assoc_remove_unique(old(state).windows@, hwnd);
        }
    }
    let mut m = String::from_str("[waygate::user32] destroy_window hwnd=");
    let d = u64_to_string(hwnd);
    m.append(d.as_str());
    m.append(" removed=");
    m.append(bool_str(removed));
    Ok(m)
}

/// `ShowWindow`: sets the named window's visibility, if it exists.
pub fn show_window(state: &mut CompatState, args: &[String]) -> (r: WaygateResult)
    ensures
        show_window_post(*old(state), *final(state), args@, Some(r)),
{
    let hwnd = parse_u64(arg_value(args, "hwnd"), 0);
    let visible = parse_i32(arg_value(args, "cmd"), 1) != 0;
    match tbl_index(&state.windows, hwnd) {
        Some(i) => {
            let entry = state.windows.remove(i);
            let wi_old = entry.1;
            let wi2 = WindowInfo {
                title: wi_old.title,
                visible,
                x: wi_old.x,
                y: wi_old.y,
                w: wi_old.w,
                h: wi_old.h,
            };
            state.windows.insert(i, (entry.0, wi2));
            proof {
                lemma_assoc_idx_props(old(state).windows@, hwnd, 0);
                assert(state.windows@ =~= old(state).windows@.update(
                    i as int,
                    (hwnd, wi2),
                ));
                if old(state).wf() {
                    assert(state.wf());
                }
            }
        },
        None => {},
    }
    let mut m = String::from_str("[waygate::user32] show_window hwnd=");
    let d = u64_to_string(hwnd);
    m.append(d.as_str());
    m.append(" visible=");
    m.append(bool_str(visible));
    Ok(m)
}

/// `SetWindowTextW`: replaces the named window's title, if it exists.
pub fn set_window_text(state: &mut CompatState, args: &[String]) -> (r: WaygateResult)
    ensures
        set_window_text_post(*old(state), *final(state), args@, Some(r)),
{
    let hwnd = parse_u64(arg_value(args, "hwnd"), 0);
    let text = match arg_value(args, "text") {
        Some(v) => v,
        None => String::from_str("L\"\""),
    };
    let text_copy = text.clone();
    match tbl_index(&state.windows, hwnd) {
        Some(i) => {
            let entry = state.windows.remove(i);
            let wi_old = entry.1;
            let wi2 = WindowInfo {
                title: text_copy,
                visible: wi_old.visible,
                x: wi_old.x,
                y: wi_old.y,
                w: wi_old.w,
                h: wi_old.h,
            };
            let ghost gwi = wi2;
            state.windows.insert(i, (entry.0, wi2));
            proof {
                lemma_assoc_idx_props(old(state).windows@, hwnd, 0);
                assert(win_fields(
                    gwi,
                    arg_str_or(args@, "text"@, "L\"\""@),
                    old(state).windows@[i as int].1.visible,
                    old(state).windows@[i as int].1.x,
                    old(state).windows@[i as int].1.y,
                    old(state).windows@[i as int].1.w,
                    old(state).windows@[i as int].1.h,
                ));
                assert(state.windows@ =~= old(state).windows@.update(
                    i as int,
                    (hwnd, gwi),
                ));
                if old(state).wf() {
                    assert(state.wf());
                }
            }
        },
        None => {},
    }
    let mut m = String::from_str("[waygate::user32] set_window_text hwnd=");
    let d = u64_to_string(hwnd);
    m.append(d.as_str());
    m.append(" text=");
    m.append(text.as_str());
    Ok(m)
}

/// `GetClientRect` / `GetWindowRect`: reports the named window's geometry.
pub fn get_rect(state: &CompatState, name: &str, args: &[String]) -> (r: WaygateResult)
    ensures
        match r {
            Ok(m) => m@ == get_rect_msg(*state, name@, args@),
            Err(_) => false,
        },
{
    let hwnd = parse_u64(arg_value(args, "hwnd"), 0);
    let mut x: i32 = 0;
    let mut y: i32 = 0;
    let mut w: i32 = 640;
    let mut h: i32 = 480;
    match tbl_index(&state.windows, hwnd) {
        Some(i) => {
            x = state.windows[i].1.x;
            y = state.windows[i].1.y;
            w = state.windows[i].1.w;
            h = state.windows[i].1.h;
        },
        None => {},
    }
    let mut m = String::from_str("[waygate::user32] ");
    m.append(name);
    m.append(" hwnd=");
    let d = u64_to_string(hwnd);
    m.append(d.as_str());
    m.append(" rect=");
    let xs = i32_to_string(x);
    m.append(xs.as_str());
    m.append(",");
    let ys = i32_to_string(y);
    m.append(ys.as_str());
    m.append(",");
    let ws = i32_to_string(w);
    m.append(ws.as_str());
    m.append(",");
    let hs = i32_to_string(h);
    m.append(hs.as_str());
    Ok(m)
}

/// `AdjustWindowRectEx`: reports the fixed synthetic frame metrics.
pub fn adjust_window_rect(args: &[String]) -> (r: WaygateResult)
    ensures
        match r {
            Ok(m) => m@ == "[waygate::user32] AdjustWindowRectEx border=8 caption=30 menu="@
                + bool_spec(arg_bool(args@, "menu"@, false)),
            Err(_) => false,
        },
{
    let has_menu = parse_bool(arg_value(args, "menu"), false);
    let mut m = String::from_str("[waygate::user32] AdjustWindowRectEx border=8 caption=30 menu=");
    m.append(bool_str(has_menu));
    Ok(m)
}

/// `FindWindowW` / `FindWindowExW`: linear scan for a substring title
/// match after stripping quote and wide-string marker characters; the
/// sentinel query `0` matches the first window unconditionally.
pub fn find_window(state: &CompatState, args: &[String]) -> (r: WaygateResult)
    ensures
        match r {
            Ok(m) => m@ == "[waygate::user32] found_window hwnd="@ + dec_spec(
                find_window_handle(*state, args@) as nat,
            ),
            Err(_) => false,
        },
{
    let raw = match arg_value(args, "title") {
        Some(v) => v,
        None => String::from_str("0"),
    };
    let no_quotes = remove_char(raw.as_str(), '"');
    let wanted = remove_char(no_quotes.as_str(), 'L');
    let found = find_window_lookup(state, wanted.as_str());
    let mut m = String::from_str("[waygate::user32] found_window hwnd=");
    let d = u64_to_string(found);
    m.append(d.as_str());
    Ok(m)
}

/// Scans the window table in insertion order for the first match.
fn find_window_lookup(state: &CompatState, wanted: &str) -> (h: u64)
    ensures
        ({
            let fi = find_window_idx(state.windows@, wanted@, 0);
            if 0 <= fi < state.windows@.len() {
                h == state.windows@[fi].0
            } else {
                h == 0u64
            }
        }),
{
    let mut i: usize = 0;
    while i < state.windows.len()
        invariant
            0 <= i <= state.windows@.len(),
            find_window_idx(state.windows@, wanted@, 0) == find_window_idx(
                state.windows@,
                wanted@,
                i as int,
            ),
        decreases state.windows@.len() - i,
    {
        let matches_here = if str_eq(wanted, "0") {
            true
        } else {
            contains_str(state.windows[i].1.title.as_str(), wanted)
        };
        if matches_here {
            return state.windows[i].0;
        }
        i = i + 1;
    }
    0
}

/// `SetForegroundWindow`: stores the named handle as the foreground window.
pub fn set_foreground(state: &mut CompatState, args: &[String]) -> (r: WaygateResult)
    ensures
        final(state).foreground == arg_u64(args@, "hwnd"@, 0),
        eq_except_foreground(*old(state), *final(state)),
        match r {
            Ok(m) => m@ == "[waygate::user32] foreground_window="@ + dec_spec(
                arg_u64(args@, "hwnd"@, 0) as nat,
            ),
            Err(_) => false,
        },
{
    let hwnd = parse_u64(arg_value(args, "hwnd"), 0);
    state.foreground = hwnd;
    let mut m = String::from_str("[waygate::user32] foreground_window=");
    let d = u64_to_string(hwnd);
    m.append(d.as_str());
    Ok(m)
}

/// `SetCursorPos`: moves the cursor.
pub fn set_cursor(state: &mut CompatState, args: &[String]) -> (r: WaygateResult)
    ensures
        final(state).cursor_x == arg_i32(args@, "x"@, 0),
        final(state).cursor_y == arg_i32(args@, "y"@, 0),
        eq_except_cursor(*old(state), *final(state)),
        match r {
            Ok(m) => m@ == "[waygate::user32] cursor="@ + dec_int_spec(
                arg_i32(args@, "x"@, 0) as int,
            ) + ","@ + dec_int_spec(arg_i32(args@, "y"@, 0) as int),
            Err(_) => false,
        },
{
    let x = parse_i32(arg_value(args, "x"), 0);
    let y = parse_i32(arg_value(args, "y"), 0);
    state.cursor_x = x;
    state.cursor_y = y;
    let mut m = String::from_str("[waygate::user32] cursor=");
    let xs = i32_to_string(x);
    m.append(xs.as_str());
    m.append(",");
    let ys = i32_to_string(y);
    m.append(ys.as_str());
    Ok(m)
}

/// `GetCursorPos`: reports the cursor position.
pub fn get_cursor(state: &CompatState) -> (r: WaygateResult)
    ensures
        match r {
            Ok(m) => m@ == "[waygate::user32] cursor="@ + dec_int_spec(state.cursor_x as int)
                + ","@ + dec_int_spec(state.cursor_y as int),
            Err(_) => false,
        },
{
    let mut m = String::from_str("[waygate::user32] cursor=");
    let xs = i32_to_string(state.cursor_x);
    m.append(xs.as_str());
    m.append(",");
    let ys = i32_to_string(state.cursor_y);
    m.append(ys.as_str());
    Ok(m)
}

/// `ShowCursor`: moves the signed visibility counter by one; it may go
/// below zero without bound.
pub fn show_cursor(state: &mut CompatState, args: &[String]) -> (r: WaygateResult)
    ensures
        final(state).show_cursor_count == cursor_step(
            old(state).show_cursor_count,
            arg_bool(args@, "show"@, true),
        ),
        eq_except_cursor_count(*old(state), *final(state)),
        match r {
            Ok(m) => m@ == "[waygate::user32] show_cursor_count="@ + dec_int_spec(
                cursor_step(old(state).show_cursor_count, arg_bool(args@, "show"@, true)) as int,
            ),
            Err(_) => false,
        },
{
    let show = parse_bool(arg_value(args, "show"), true);
    let count: i32 = if show {
        if state.show_cursor_count == i32::MAX {
            i32::MIN
        } else {
            state.show_cursor_count + 1
        }
    } else {
        if state.show_cursor_count == i32::MIN {
            i32::MAX
        } else {
            state.show_cursor_count - 1
        }
    };
    state.show_cursor_count = count;
    let mut m = String::from_str("[waygate::user32] show_cursor_count=");
    let cs = i32_to_string(count);
    m.append(cs.as_str());
    Ok(m)
}

/// `PostMessageW`: queues a message locally to emulate the message pump.
pub fn post_message(state: &mut CompatState, args: &[String]) -> (r: WaygateResult)
    ensures
        post_message_post(*old(state), *final(state), args@, Some(r)),
{
    let hwnd = parse_u64(arg_value(args, "hwnd"), 0);
    let m64 = parse_u64(arg_value(args, "msg"), WM_CLOSE as u64);
    let mid: u32 = #[verifier::truncate] (m64 as u32);
    let w64 = parse_u64(arg_value(args, "wparam"), 0);
    let w: i64 = #[verifier::truncate] (w64 as i64);
    let l64 = parse_u64(arg_value(args, "lparam"), 0);
    let l: i64 = #[verifier::truncate] (l64 as i64);
    state.messages.push((hwnd, mid, w, l));
    let mut m = String::from_str("[waygate::user32] posted_message hwnd=");
    let d = u64_to_string(hwnd);
    m.append(d.as_str());
    m.append(" msg=");
    let hx = hex4_u32(mid);
    m.append(hx.as_str());
    Ok(m)
}

/// `GetMessageW` / `PeekMessageW`: takes the oldest queued message, or
/// reports an empty queue.
pub fn get_message(state: &mut CompatState, name: &str) -> (r: WaygateResult)
    ensures
        get_message_post(*old(state), *final(state), name@, Some(r)),
{
    if state.messages.len() > 0 {
        let ev = state.messages.remove(0);
        let mut m = String::from_str("[waygate::user32] ");
        m.append(name);
        m.append(" hwnd=");
        let d = u64_to_string(ev.0);
        m.append(d.as_str());
        m.append(" msg=");
        let hx = hex4_u32(ev.1);
        m.append(hx.as_str());
        m.append(" w=");
        let ws = i64_to_string(ev.2);
        m.append(ws.as_str());
        m.append(" l=");
        let ls = i64_to_string(ev.3);
        m.append(ls.as_str());
        Ok(m)
    } else {
        let mut m = String::from_str("[waygate::user32] ");
        m.append(name);
        m.append(" empty_queue");
        Ok(m)
    }
}

/// Acknowledges a recognized symbol that has no stateful emulation.
pub fn ok(name: &str, args: &[String]) -> (r: WaygateResult)
    ensures
        match r {
            Ok(m) => m@ == ok_msg_u32(name@, args@),
            Err(_) => false,
        },
{
    let mut m = String::from_str("[waygate::user32] ");
    m.append(name);
    if args.len() == 0 {
        m.append(" called");
    } else {
        m.append(" called with args: ");
        let joined = join_strings(args, ", ");
        m.append(joined.as_str());
    }
    Ok(m)
}

fn wm_message(label: &str, id: u32) -> (r: WaygateResult)
    ensures
        match r {
            Ok(m) => m@ == "[waygate::user32] "@ + label@ + "="@ + hex4_spec(id as nat),
            Err(_) => false,
        },
{
    let mut m = String::from_str("[waygate::user32] ");
    m.append(label);
    m.append("=");
    let hx = hex4_u32(id);
    m.append(hx.as_str());
    Ok(m)
}

/// Routes one call to this module's handler for `symbol`, or reports that
/// the symbol is not claimed here.
pub fn dispatch(state: &mut CompatState, symbol: &str, args: &[String]) -> (r: Option<
    WaygateResult,
>)
    ensures
        u32_post(*old(state), *final(state), symbol@, args@, r),
        r is Some <==> u32_claims(symbol@),
{
    if str_eq(symbol, "CreateWindowExW") {
        Some(create_window(state, args))
    } else if str_eq(symbol, "DestroyWindow") {
        Some(destroy_window(state, args))
    } else if str_eq(symbol, "ShowWindow") {
        Some(show_window(state, args))
    } else if str_eq(symbol, "SetWindowTextW") {
        Some(set_window_text(state, args))
    } else if str_eq(symbol, "GetClientRect") || str_eq(symbol, "GetWindowRect") {
        Some(get_rect(state, symbol, args))
    } else if str_eq(symbol, "AdjustWindowRectEx") {
        Some(adjust_window_rect(args))
    } else if str_eq(symbol, "FindWindowW") || str_eq(symbol, "FindWindowExW") {
        Some(find_window(state, args))
    } else if str_eq(symbol, "GetForegroundWindow") {
        let mut m = String::from_str("[waygate::user32] hwnd=");
        let d = u64_to_string(state.foreground);
        m.append(d.as_str());
        Some(Ok(m))
    } else if str_eq(symbol, "SetForegroundWindow") {
        Some(set_foreground(state, args))
    } else if str_eq(symbol, "SetCursorPos") {
        Some(set_cursor(state, args))
    } else if str_eq(symbol, "GetCursorPos") {
        Some(get_cursor(state))
    } else if str_eq(symbol, "ShowCursor") {
        Some(show_cursor(state, args))
    } else if str_eq(symbol, "PostMessageW") {
        Some(post_message(state, args))
    } else if str_eq(symbol, "PeekMessageW") || str_eq(symbol, "GetMessageW") {
        Some(get_message(state, symbol))
    } else if str_eq(symbol, "DispatchMessageW") || str_eq(symbol, "TranslateMessage") || str_eq(
        symbol,
        "SendInput",
    ) || str_eq(symbol, "mouse_event") || str_eq(symbol, "keybd_event") || str_eq(
        symbol,
        "ClientToScreen",
    ) || str_eq(symbol, "ScreenToClient") || str_eq(symbol, "GetDC") || str_eq(
        symbol,
        "ReleaseDC",
    ) || str_eq(symbol, "GetSystemMetrics") || str_eq(symbol, "MapVirtualKey") || str_eq(
        symbol,
        "GetAsyncKeyState",
    ) || str_eq(symbol, "GetKeyState") || str_eq(symbol, "ClipCursor") || str_eq(
        symbol,
        "MessageBoxA",
    ) || str_eq(symbol, "RegisterClassExW") || str_eq(symbol, "DefWindowProcW") || str_eq(
        symbol,
        "UpdateWindow",
    ) || str_eq(symbol, "SendMessageW") || str_eq(symbol, "GetDesktopWindow") {
        Some(ok(symbol, args))
    } else if str_eq(symbol, "WM_CREATE") {
        Some(wm_message("WM_CREATE", WM_CREATE))
    } else if str_eq(symbol, "WM_DESTROY") {
        Some(wm_message("WM_DESTROY", WM_DESTROY))
    } else if str_eq(symbol, "WM_PAINT") {
        Some(wm_message("WM_PAINT", WM_PAINT))
    } else if str_eq(symbol, "WM_SIZE") {
        Some(wm_message("WM_SIZE", WM_SIZE))
    } else if str_eq(symbol, "WM_CLOSE") {
        Some(wm_message("WM_CLOSE", WM_CLOSE))
    } else if str_eq(symbol, "WM_QUIT") {
        Some(wm_message("WM_QUIT", WM_QUIT))
    } else {
        None
    }
}

} // verus!
