//! The process/thread/synchronization/time handler module: dispatches the
//! first group of recognized symbols against the synthetic OS state.

use vstd::prelude::*;
use vstd::string::*;

use crate::WaygateResult;
use crate::num::{dec_spec, parse_u32_spec, parse_u32_str, u64_to_string};
use crate::state::{
    arg_value, arg_value_spec, assoc_get, assoc_set, eq_except_error, eq_except_events,
    eq_except_events_alloc, lemma_assoc_set_unique, parse_u64, parse_u64_with_default, tbl_get_bool,
    tbl_set, wrap_inc, CompatState,
};
use crate::text::{join_strings, join_with, str_eq};

verus! {

/// The `key` argument parsed as `u64`, quote-stripped, with a default.
pub open spec fn arg_u64(args: Seq<String>, key: Seq<char>, d: u64) -> u64 {
    parse_u64_with_default(arg_value_spec(args, key), d)
}

/// The `key` argument parsed as a raw `u32` (no quote stripping), default 0.
pub open spec fn raw_arg_u32(args: Seq<String>, key: Seq<char>) -> u32 {
    match arg_value_spec(args, key) {
        Some(v) => match parse_u32_spec(v) {
            Some(c) => c,
            None => 0,
        },
        None => 0,
    }
}

/// `true` or `false`, as the diagnostic lines render booleans.
pub open spec fn bool_spec(b: bool) -> Seq<char> {
    if b {
        "true"@
    } else {
        "false"@
    }
}

/// Renders `b` as `true` or `false`.
pub fn bool_str(b: bool) -> (r: &'static str)
    ensures
        r@ == bool_spec(b),
{
    if b {
        "true"
    } else {
        "false"
    }
}

/// The acknowledgement line for a symbol that is recognized but has no
/// stateful emulation: the name, then the raw arguments if any.
pub open spec fn ok_msg_k32(sym: Seq<char>, args: Seq<String>) -> Seq<char> {
    if args.len() == 0 {
        "[waygate::kernel32] "@ + sym + " called"@
    } else {
        "[waygate::kernel32] "@ + sym + " called with args: "@ + join_with(args, ", "@)
    }
}

/// The signaled flag the wait emulation reads for `h`: the stored flag, or
/// `false` for an unknown handle.
pub open spec fn event_signaled(pre: CompatState, h: u64) -> bool {
    match assoc_get(pre.events@, h) {
        Some(b) => b,
        None => false,
    }
}

/// What one dispatch through this module does: for each claimed symbol the
/// exact new state and the exact diagnostic line (time-derived numbers are
/// pinned only in shape); for any other symbol, no claim and no change.
pub open spec fn k32_post(
    pre: CompatState,
    post: CompatState,
    sym: Seq<char>,
    args: Seq<String>,
    r: Option<Result<String, String>>,
) -> bool {
    if sym == "Sleep"@ {
        post == pre && (match r {
            Some(Ok(m)) => m@ == "[waygate::kernel32] slept_ms="@ + dec_spec(
                arg_u64(args, "ms"@, 0) as nat,
            ),
            _ => false,
        })
    } else if sym == "GetTickCount"@ {
        post == pre && (match r {
            Some(Ok(m)) => exists|t: u64|
                m@ == "[waygate::kernel32] tick="@ + dec_spec(t as nat),
            _ => false,
        })
    } else if sym == "SetLastError"@ {
        post.last_error == raw_arg_u32(args, "code"@) && eq_except_error(pre, post) && (match r {
            Some(Ok(m)) => m@ == "[waygate::kernel32] last_error_set="@ + dec_spec(
                raw_arg_u32(args, "code"@) as nat,
            ),
            _ => false,
        })
    } else if sym == "GetLastError"@ {
        post == pre && (match r {
            Some(Ok(m)) => m@ == "[waygate::kernel32] last_error="@ + dec_spec(
                pre.last_error as nat,
            ),
            _ => false,
        })
    } else if sym == "CreateEvent"@ {
        post.events@ == assoc_set(pre.events@, pre.next_handle, false) && post.next_handle
            == wrap_inc(pre.next_handle) && eq_except_events_alloc(pre, post) && (pre.wf()
            ==> post.wf()) && (match r {
            Some(Ok(m)) => m@ == "[waygate::kernel32] event_handle="@ + dec_spec(
                pre.next_handle as nat,
            ),
            _ => false,
        })
    } else if sym == "SetEvent"@ {
        set_event_post(pre, post, args, r, true)
    } else if sym == "ResetEvent"@ {
        set_event_post(pre, post, args, r, false)
    } else if sym == "WaitForSingleObject"@ {
        post == pre && (match r {
            Some(Ok(m)) => m@ == "[waygate::kernel32] wait handle="@ + dec_spec(
                arg_u64(args, "handle"@, 0) as nat,
            ) + " signaled="@ + bool_spec(event_signaled(pre, arg_u64(args, "handle"@, 0)))
                + " timeout_ms="@ + dec_spec(arg_u64(args, "timeout"@, 0) as nat),
            _ => false,
        })
    } else if sym == "QueryPerformanceCounter"@ {
        post == pre && (match r {
            Some(Ok(m)) => exists|t: u64| m@ == "[waygate::kernel32] qpc="@ + dec_spec(t as nat),
            _ => false,
        })
    } else if sym == "QueryPerformanceFrequency"@ {
        post == pre && (match r {
            Some(Ok(m)) => m@ == "[waygate::kernel32] qpf=1000000"@,
            _ => false,
        })
    } else if sym == "GetSystemTime"@ {
        post == pre && (match r {
            Some(Ok(m)) => exists|t: u64|
                m@ == "[waygate::kernel32] "@ + "system"@ + "_time_unix_ms="@ + dec_spec(t as nat),
            _ => false,
        })
    } else if sym == "GetLocalTime"@ {
        post == pre && (match r {
            Some(Ok(m)) => exists|t: u64|
                m@ == "[waygate::kernel32] "@ + "local"@ + "_time_unix_ms="@ + dec_spec(t as nat),
            _ => false,
        })
    } else if sym == "CreateThread"@ {
        post == pre && (match r {
            Some(Ok(m)) => m@ == "[waygate::kernel32] created synthetic thread handle=2000"@,
            _ => false,
        })
    } else if k32_claims(sym) {
        post == pre && (match r {
            Some(Ok(m)) => m@ == ok_msg_k32(sym, args),
            _ => false,
        })
    } else {
        post == pre && r is None
    }
}

/// `SetEvent` / `ResetEvent`: stores the flag under the named handle,
/// creating the entry if needed, exactly as the real call would signal it.
pub open spec fn set_event_post(
    pre: CompatState,
    post: CompatState,
    args: Seq<String>,
    r: Option<Result<String, String>>,
    value: bool,
) -> bool {
    let h = arg_u64(args, "handle"@, 0);
    post.events@ == assoc_set(pre.events@, h, value) && eq_except_events(pre, post) && (pre.wf()
        ==> post.wf()) && (match r {
        Some(Ok(m)) => m@ == "[waygate::kernel32] event_handle="@ + dec_spec(h as nat)
            + " signaled="@ + bool_spec(value),
        _ => false,
    })
}

/// Which symbols this module claims.
pub open spec fn k32_claims(sym: Seq<char>) -> bool {
    ||| sym == "Sleep"@
    ||| sym == "GetTickCount"@
    ||| sym == "SetLastError"@
    ||| sym == "GetLastError"@
    ||| sym == "CreateEvent"@
    ||| sym == "SetEvent"@
    ||| sym == "ResetEvent"@
    ||| sym == "WaitForSingleObject"@
    ||| sym == "QueryPerformanceCounter"@
    ||| sym == "QueryPerformanceFrequency"@
    ||| sym == "GetSystemTime"@
    ||| sym == "GetLocalTime"@
    ||| sym == "CreateThread"@
    ||| sym == "CreateFileA"@
    ||| sym == "ReadFile"@
    ||| sym == "WriteFile"@
    ||| sym == "CloseHandle"@
    ||| sym == "VirtualAlloc"@
    ||| sym == "VirtualFree"@
    ||| sym == "ExitProcess"@
    ||| sym == "GetCurrentProcess"@
    ||| sym == "GetModuleHandle"@
    ||| sym == "GetProcAddress"@
    ||| sym == "LoadLibrary"@
    ||| sym == "FreeLibrary"@
}

/// `Sleep`: reports the parsed duration. The actual delay is performed by
/// the caller of the library, which asks `requested_sleep_ms`.
pub fn sleep_impl(args: &[String]) -> (r: WaygateResult)
    ensures
        match r {
            Ok(m) => m@ == "[waygate::kernel32] slept_ms="@ + dec_spec(
                arg_u64(args@, "ms"@, 0) as nat,
            ),
            Err(_) => false,
        },
{
    let ms = parse_u64(arg_value(args, "ms"), 0);
    let mut m = String::from_str("[waygate::kernel32] slept_ms=");
    let d = u64_to_string(ms);
    m.append(d.as_str());
    Ok(m)
}

/// `SetLastError`: stores the parsed code in the error register.
pub fn set_last_error(state: &mut CompatState, args: &[String]) -> (r: WaygateResult)
    ensures
        final(state).last_error == raw_arg_u32(args@, "code"@),
        eq_except_error(*old(state), *final(state)),
        match r {
            Ok(m) => m@ == "[waygate::kernel32] last_error_set="@ + dec_spec(
                raw_arg_u32(args@, "code"@) as nat,
            ),
            Err(_) => false,
        },
{
    let code = match arg_value(args, "code") {
        Some(v) => match parse_u32_str(v.as_str()) {
            Some(c) => c,
            None => 0,
        },
        None => 0,
    };
    state.last_error = code;
    let mut m = String::from_str("[waygate::kernel32] last_error_set=");
    let d = u64_to_string(code as u64);
    m.append(d.as_str());
    Ok(m)
}

/// `GetLastError`: reports the error register.
pub fn get_last_error(state: &CompatState) -> (r: WaygateResult)
    ensures
        match r {
            Ok(m) => m@ == "[waygate::kernel32] last_error="@ + dec_spec(state.last_error as nat),
            Err(_) => false,
        },
{
    let mut m = String::from_str("[waygate::kernel32] last_error=");
    let d = u64_to_string(state.last_error as u64);
    m.append(d.as_str());
    Ok(m)
}

/// `CreateEvent`: draws a fresh handle, stores it unsignaled, reports it.
pub fn create_event(state: &mut CompatState, args: &[String]) -> (r: WaygateResult)
    ensures
        final(state).events@ == assoc_set(old(state).events@, old(state).next_handle, false),
        final(state).next_handle == wrap_inc(old(state).next_handle),
        eq_except_events_alloc(*old(state), *final(state)),
        old(state).wf() ==> final(state).wf(),
        match r {
            Ok(m) => m@ == "[waygate::kernel32] event_handle="@ + dec_spec(
                old(state).next_handle as nat,
            ),
            Err(_) => false,
        },
{
    let handle = state.alloc_handle();
    tbl_set(&mut state.events, handle, false);
    proof {
        if old(state).wf() {
            lemma_assoc_set_unique(old(state).events@, handle, false);
        }
    }
    let mut m = String::from_str("[waygate::kernel32] event_handle=");
    let d = u64_to_string(handle);
    m.append(d.as_str());
    Ok(m)
}

/// `SetEvent` / `ResetEvent`: stores `value` as the named handle's
/// signaled flag, creating the entry if needed.
pub fn set_event(state: &mut CompatState, args: &[String], value: bool) -> (r: WaygateResult)
    ensures
        set_event_post(*old(state), *final(state), args@, Some(r), value),
{
    let handle = parse_u64(arg_value(args, "handle"), 0);
    tbl_set(&mut state.events, handle, value);
    proof {
        if old(state).wf() {
            lemma_assoc_set_unique(old(state).events@, handle, value);
        }
    }
    let mut m = String::from_str("[waygate::kernel32] event_handle=");
    let d = u64_to_string(handle);
    m.append(d.as_str());
    m.append(" signaled=");
    m.append(bool_str(value));
    Ok(m)
}

/// `WaitForSingleObject`: reports the handle's (possibly unchanged)
/// signaled state; the bounded best-effort delay itself is performed by
/// the caller of the library, which asks `requested_sleep_ms`.
pub fn wait_for_single_object(state: &CompatState, args: &[String]) -> (r: WaygateResult)
    ensures
        match r {
            Ok(m) => m@ == "[waygate::kernel32] wait handle="@ + dec_spec(
                arg_u64(args@, "handle"@, 0) as nat,
            ) + " signaled="@ + bool_spec(event_signaled(*state, arg_u64(args@, "handle"@, 0)))
                + " timeout_ms="@ + dec_spec(arg_u64(args@, "timeout"@, 0) as nat),
            Err(_) => false,
        },
{
    let handle = parse_u64(arg_value(args, "handle"), 0);
    let timeout_ms = parse_u64(arg_value(args, "timeout"), 0);
    let signaled = match tbl_get_bool(&state.events, handle) {
        Some(b) => b,
        None => false,
    };
    let mut m = String::from_str("[waygate::kernel32] wait handle=");
    let d = u64_to_string(handle);
    m.append(d.as_str());
    m.append(" signaled=");
    m.append(bool_str(signaled));
    m.append(" timeout_ms=");
    let t = u64_to_string(timeout_ms);
    m.append(t.as_str());
    Ok(m)
}

/// `GetSystemTime` / `GetLocalTime`: reports a wall-clock reading.
pub fn time_now(kind: &str) -> (r: WaygateResult)
    ensures
        match r {
            Ok(m) => exists|t: u64|
                m@ == "[waygate::kernel32] "@ + kind@ + "_time_unix_ms="@ + dec_spec(t as nat),
            Err(_) => false,
        },
{
    let now = crate::shims::unix_time_ms();
    let mut m = String::from_str("[waygate::kernel32] ");
    m.append(kind);
    m.append("_time_unix_ms=");
    let d = u64_to_string(now);
    m.append(d.as_str());
    proof {
        assert(m@ == "[waygate::kernel32] "@ + kind@ + "_time_unix_ms="@ + dec_spec(now as nat));
    }
    Ok(m)
}

/// Acknowledges a recognized symbol that has no stateful emulation.
pub fn ok(name: &str, args: &[String]) -> (r: WaygateResult)
    ensures
        match r {
            Ok(m) => m@ == ok_msg_k32(name@, args@),
            Err(_) => false,
        },
{
    let mut m = String::from_str("[waygate::kernel32] ");
    m.append(name);
    if args.len() == 0 {
        m.append(" called");
    } else {
        m.append(" called with args: ");
        let joined = join_strings(args, ", ");
        m.append(joined.as_str());
    }
    Ok(m)
}

/// The bounded best-effort wait: `min(timeout, 5)` milliseconds when the
/// named handle is unsignaled and a non-zero timeout was requested.
pub open spec fn wait_delay_spec(pre: CompatState, args: Seq<String>) -> u64 {
    let t = arg_u64(args, "timeout"@, 0);
    if !event_signaled(pre, arg_u64(args, "handle"@, 0)) && t > 0 {
        if t < 5 {
            t
        } else {
            5
        }
    } else {
        0
    }
}

/// How long the caller should sleep to honour a `Sleep` call or the
/// bounded wait of `WaitForSingleObject`: the library itself never blocks.
pub fn requested_sleep_ms(state: &CompatState, symbol: &str, args: &[String]) -> (r: u64)
    ensures
        symbol@ == "Sleep"@ ==> r == arg_u64(args@, "ms"@, 0),
        symbol@ == "WaitForSingleObject"@ ==> r == wait_delay_spec(*state, args@),
        symbol@ != "Sleep"@ && symbol@ != "WaitForSingleObject"@ ==> r == 0,
{
    proof {
        reveal_strlit("Sleep");
        reveal_strlit("WaitForSingleObject");
    }
    if str_eq(symbol, "Sleep") {
        proof {
            // the two symbol literals differ already in length
            assert("Sleep"@.len() == 5);
            assert("WaitForSingleObject"@.len() == 19);
            assert(symbol@ != "WaitForSingleObject"@);
        }
        parse_u64(arg_value(args, "ms"), 0)
    } else if str_eq(symbol, "WaitForSingleObject") {
        let handle = parse_u64(arg_value(args, "handle"), 0);
        let timeout_ms = parse_u64(arg_value(args, "timeout"), 0);
        let signaled = match tbl_get_bool(&state.events, handle) {
            Some(b) => b,
            None => false,
        };
        if !signaled && timeout_ms > 0 {
            if timeout_ms < 5 {
                timeout_ms
            } else {
                5
            }
        } else {
            0
        }
    } else {
        0
    }
}

/// Routes one call to this module's handler for `symbol`, or reports that
/// the symbol is not claimed here.
pub fn dispatch(state: &mut CompatState, symbol: &str, args: &[String]) -> (r: Option<
    WaygateResult,
>)
    ensures
        k32_post(*old(state), *final(state), symbol@, args@, r),
        r is Some <==> k32_claims(symbol@),
{
    if str_eq(symbol, "Sleep") {
        Some(sleep_impl(args))
    } else if str_eq(symbol, "GetTickCount") {
        let t = state.tick_ms();
        let mut m = String::from_str("[waygate::kernel32] tick=");
        let d = u64_to_string(t);
        m.append(d.as_str());
        Some(Ok(m))
    } else if str_eq(symbol, "SetLastError") {
        Some(set_last_error(state, args))
    } else if str_eq(symbol, "GetLastError") {
        Some(get_last_error(state))
    } else if str_eq(symbol, "CreateEvent") {
        Some(create_event(state, args))
    } else if str_eq(symbol, "SetEvent") {
        Some(set_event(state, args, true))
    } else if str_eq(symbol, "ResetEvent") {
        Some(set_event(state, args, false))
    } else if str_eq(symbol, "WaitForSingleObject") {
        Some(wait_for_single_object(state, args))
    } else if str_eq(symbol, "QueryPerformanceCounter") {
        let t = state.tick_ms();
        let q: u64 = if t <= u64::MAX / 1000 {
            t * 1000
        } else {
            0
        };
        let mut m = String::from_str("[waygate::kernel32] qpc=");
        let d = u64_to_string(q);
        m.append(d.as_str());
        Some(Ok(m))
    } else if str_eq(symbol, "QueryPerformanceFrequency") {
        Some(Ok(String::from_str("[waygate::kernel32] qpf=1000000")))
    } else if str_eq(symbol, "GetSystemTime") {
        Some(time_now("system"))
    } else if str_eq(symbol, "GetLocalTime") {
        Some(time_now("local"))
    } else if str_eq(symbol, "CreateThread") {
        Some(Ok(String::from_str("[waygate::kernel32] created synthetic thread handle=2000")))
    } else if str_eq(symbol, "CreateFileA") || str_eq(symbol, "ReadFile") || str_eq(
        symbol,
        "WriteFile",
    ) || str_eq(symbol, "CloseHandle") || str_eq(symbol, "VirtualAlloc") || str_eq(
        symbol,
        "VirtualFree",
    ) || str_eq(symbol, "ExitProcess") || str_eq(symbol, "GetCurrentProcess") || str_eq(
        symbol,
        "GetModuleHandle",
    ) || str_eq(symbol, "GetProcAddress") || str_eq(symbol, "LoadLibrary") || str_eq(
        symbol,
        "FreeLibrary",
    ) {
        Some(ok(symbol, args))
    } else {
        None
    }
}

} // verus!
