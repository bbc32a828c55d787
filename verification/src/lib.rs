//! An in-process emulation shim for foreign (Windows-style) API calls.
//!
//! The crate discovers which foreign API symbols a binary references —
//! statically through its PE import table, or heuristically from text
//! fixtures — serializes the discovered call sequence as a typed plan,
//! and replays the calls against a synthetic, in-memory OS state.

use vstd::prelude::*;

pub mod fixture;
pub mod kernel32;
mod num;
pub mod pe;
pub mod plan;
pub mod registry;
mod shims;
pub mod state;
pub mod text;
pub mod trace;
pub mod user32;

verus! {

/// Outcome of dispatching one emulated call: a diagnostic line on success,
/// an error line when no handler claims the symbol.
pub type WaygateResult = Result<String, String>;

/// One discovered call: a recognized symbol, its raw `key=value` or bare
/// argument tokens in order, and optional backtrace lines. Every discovery
/// strategy produces this shape.
pub struct TracedCall {
    pub function: String,
    pub args: Vec<String>,
    pub backtrace: Vec<String>,
}

/// What a discovery pass found: the recognized calls in first-appearance
/// order, and the unresolved host libraries it noticed on the way.
pub struct Analysis {
    pub winapi_calls: Vec<TracedCall>,
    pub non_windows_libs: Vec<String>,
}

/// Every symbol the emulation layer recognizes, in catalog order: the first
/// handler module's names, then the second's.
pub fn supported_symbols() -> (v: Vec<&'static str>)
    ensures
        v@.len() == registry::all_symbol_names().len(),
        forall|i: int| 0 <= i < v@.len() ==> v@[i]@ == registry::all_symbol_names()[i],
{
    let mut v = registry::kernel32_symbols();
    let mut u = registry::user32_symbols();
    v.append(&mut u);
    v
}

/// The recognized foreign API symbols, as the discovery strategies consult
/// them.
pub fn known_winapi() -> (v: Vec<&'static str>)
    ensures
        v@.len() == registry::all_symbol_names().len(),
        forall|i: int| 0 <= i < v@.len() ==> v@[i]@ == registry::all_symbol_names()[i],
{
    supported_symbols()
}

/// Discovers the foreign calls a non-native buffer references: the PE
/// import extractor first; on any structural failure — "not a PE" — the
/// heuristic text scanner instead.
pub fn analyze_non_native(bytes: &[u8]) -> (r: Analysis)
    requires
        bytes@.len() < usize::MAX - 0x30_0000,
    ensures
        match pe::pe_imports_spec(bytes@) {
            Some(names) => {
                &&& pe::call_names(r.winapi_calls@) == names
                &&& pe::bare_calls(r.winapi_calls@)
                &&& r.non_windows_libs@.len() == 0
            },
            None => {
                &&& fixture::call_views(r.winapi_calls@) == fixture::fixture_spec(bytes@).0
                &&& text::str_views(r.non_windows_libs@) == fixture::fixture_spec(bytes@).1
                &&& forall|k: int|
                    0 <= k < r.winapi_calls@.len() ==> r.winapi_calls@[k].backtrace@.len() == 0
            },
        },
{
    match pe::parse_pe_imports(bytes) {
        Some(parsed) => parsed,
        None => fixture::parse_synthetic_fixture(bytes),
    }
}

/// Routes one `(symbol, arguments)` call to the module that claims it:
/// the first handler group is asked first, then the second; a symbol
/// neither claims resolves to a "not implemented" error naming it — never
/// a crash.
pub fn dispatch(state: &mut state::CompatState, symbol: &str, args: &[String]) -> (r:
    WaygateResult)
    ensures
        kernel32::k32_claims(symbol@) ==> kernel32::k32_post(
            *old(state),
            *final(state),
            symbol@,
            args@,
            Some(r),
        ),
        !kernel32::k32_claims(symbol@) && user32::u32_claims(symbol@) ==> user32::u32_post(
            *old(state),
            *final(state),
            symbol@,
            args@,
            Some(r),
        ),
        !kernel32::k32_claims(symbol@) && !user32::u32_claims(symbol@) ==> *final(state) == *old(
            state,
        ) && (match r {
            Err(m) => m@ == "waygate: symbol '"@ + symbol@ + "' is not implemented"@,
            Ok(_) => false,
        }),
{
    match kernel32::dispatch(state, symbol, args) {
        Some(result) => result,
        None => {
            match user32::dispatch(state, symbol, args) {
                Some(result) => result,
                None => {
                    let mut m = String::from_str("waygate: symbol '");
                    m.append(symbol);
                    m.append("' is not implemented");
                    Err(m)
                },
            }
        },
    }
}

/// Registry membership is the sole gate: a symbol is in the catalog
/// exactly when one of the two handler modules claims it at dispatch.
pub proof fn lemma_registry_is_the_gate(s: Seq<char>)
    ensures
        registry::is_known_symbol_spec(s) <==> (kernel32::k32_claims(s) || user32::u32_claims(s)),
{
    if kernel32::k32_claims(s) || user32::u32_claims(s) {
        if s == "CreateFileA"@ {
            assert(registry::all_symbol_names()[0] == s);
        } else if s == "ReadFile"@ {
            assert(registry::all_symbol_names()[1] == s);
        } else if s == "WriteFile"@ {
            assert(registry::all_symbol_names()[2] == s);
        } else if s == "CloseHandle"@ {
            assert(registry::all_symbol_names()[3] == s);
        } else if s == "VirtualAlloc"@ {
            assert(registry::all_symbol_names()[4] == s);
        } else if s == "VirtualFree"@ {
            assert(registry::all_symbol_names()[5] == s);
        } else if s == "GetLastError"@ {
            assert(registry::all_symbol_names()[6] == s);
        } else if s == "SetLastError"@ {
            assert(registry::all_symbol_names()[7] == s);
        } else if s == "ExitProcess"@ {
            assert(registry::all_symbol_names()[8] == s);
        } else if s == "GetCurrentProcess"@ {
            assert(registry::all_symbol_names()[9] == s);
        } else if s == "Sleep"@ {
            assert(registry::all_symbol_names()[10] == s);
        } else if s == "GetTickCount"@ {
            assert(registry::all_symbol_names()[11] == s);
        } else if s == "GetModuleHandle"@ {
            assert(registry::all_symbol_names()[12] == s);
        } else if s == "GetProcAddress"@ {
            assert(registry::all_symbol_names()[13] == s);
        } else if s == "LoadLibrary"@ {
            assert(registry::all_symbol_names()[14] == s);
        } else if s == "FreeLibrary"@ {
            assert(registry::all_symbol_names()[15] == s);
        } else if s == "CreateThread"@ {
            assert(registry::all_symbol_names()[16] == s);
        } else if s == "WaitForSingleObject"@ {
            assert(registry::all_symbol_names()[17] == s);
        } else if s == "CreateEvent"@ {
            assert(registry::all_symbol_names()[18] == s);
        } else if s == "SetEvent"@ {
            assert(registry::all_symbol_names()[19] == s);
        } else if s == "ResetEvent"@ {
            assert(registry::all_symbol_names()[20] == s);
        } else if s == "QueryPerformanceCounter"@ {
            assert(registry::all_symbol_names()[21] == s);
        } else if s == "QueryPerformanceFrequency"@ {
            assert(registry::all_symbol_names()[22] == s);
        } else if s == "GetSystemTime"@ {
            assert(registry::all_symbol_names()[23] == s);
        } else if s == "GetLocalTime"@ {
            assert(registry::all_symbol_names()[24] == s);
        } else if s == "MessageBoxA"@ {
            assert(registry::all_symbol_names()[25] == s);
        } else if s == "SendInput"@ {
            assert(registry::all_symbol_names()[26] == s);
        } else if s == "mouse_event"@ {
            assert(registry::all_symbol_names()[27] == s);
        } else if s == "keybd_event"@ {
            assert(registry::all_symbol_names()[28] == s);
        } else if s == "GetCursorPos"@ {
            assert(registry::all_symbol_names()[29] == s);
        } else if s == "SetCursorPos"@ {
            assert(registry::all_symbol_names()[30] == s);
        } else if s == "GetAsyncKeyState"@ {
            assert(registry::all_symbol_names()[31] == s);
        } else if s == "GetKeyState"@ {
            assert(registry::all_symbol_names()[32] == s);
        } else if s == "MapVirtualKey"@ {
            assert(registry::all_symbol_names()[33] == s);
        } else if s == "ShowCursor"@ {
            assert(registry::all_symbol_names()[34] == s);
        } else if s == "ClipCursor"@ {
            assert(registry::all_symbol_names()[35] == s);
        } else if s == "RegisterClassExW"@ {
            assert(registry::all_symbol_names()[36] == s);
        } else if s == "CreateWindowExW"@ {
            assert(registry::all_symbol_names()[37] == s);
        } else if s == "DefWindowProcW"@ {
            assert(registry::all_symbol_names()[38] == s);
        } else if s == "DestroyWindow"@ {
            assert(registry::all_symbol_names()[39] == s);
        } else if s == "ShowWindow"@ {
            assert(registry::all_symbol_names()[40] == s);
        } else if s == "UpdateWindow"@ {
            assert(registry::all_symbol_names()[41] == s);
        } else if s == "GetClientRect"@ {
            assert(registry::all_symbol_names()[42] == s);
        } else if s == "AdjustWindowRectEx"@ {
            assert(registry::all_symbol_names()[43] == s);
        } else if s == "SetWindowTextW"@ {
            assert(registry::all_symbol_names()[44] == s);
        } else if s == "GetMessageW"@ {
            assert(registry::all_symbol_names()[45] == s);
        } else if s == "PeekMessageW"@ {
            assert(registry::all_symbol_names()[46] == s);
        } else if s == "TranslateMessage"@ {
            assert(registry::all_symbol_names()[47] == s);
        } else if s == "DispatchMessageW"@ {
            assert(registry::all_symbol_names()[48] == s);
        } else if s == "PostMessageW"@ {
            assert(registry::all_symbol_names()[49] == s);
        } else if s == "SendMessageW"@ {
            assert(registry::all_symbol_names()[50] == s);
        } else if s == "FindWindowW"@ {
            assert(registry::all_symbol_names()[51] == s);
        } else if s == "FindWindowExW"@ {
            assert(registry::all_symbol_names()[52] == s);
        } else if s == "GetWindowRect"@ {
            assert(registry::all_symbol_names()[53] == s);
        } else if s == "ClientToScreen"@ {
            assert(registry::all_symbol_names()[54] == s);
        } else if s == "ScreenToClient"@ {
            assert(registry::all_symbol_names()[55] == s);
        } else if s == "GetForegroundWindow"@ {
            assert(registry::all_symbol_names()[56] == s);
        } else if s == "SetForegroundWindow"@ {
            assert(registry::all_symbol_names()[57] == s);
        } else if s == "GetDesktopWindow"@ {
            assert(registry::all_symbol_names()[58] == s);
        } else if s == "GetDC"@ {
            assert(registry::all_symbol_names()[59] == s);
        } else if s == "ReleaseDC"@ {
            assert(registry::all_symbol_names()[60] == s);
        } else if s == "GetSystemMetrics"@ {
            assert(registry::all_symbol_names()[61] == s);
        } else if s == "WM_CREATE"@ {
            assert(registry::all_symbol_names()[62] == s);
        } else if s == "WM_DESTROY"@ {
            assert(registry::all_symbol_names()[63] == s);
        } else if s == "WM_PAINT"@ {
            assert(registry::all_symbol_names()[64] == s);
        } else if s == "WM_SIZE"@ {
            assert(registry::all_symbol_names()[65] == s);
        } else if s == "WM_CLOSE"@ {
            assert(registry::all_symbol_names()[66] == s);
        } else if s == "WM_QUIT"@ {
            assert(registry::all_symbol_names()[67] == s);
        }
        assert(registry::all_symbol_names().contains(s));
    }
    if registry::is_known_symbol_spec(s) {
        let i = choose|i: int|
            0 <= i < registry::all_symbol_names().len() && registry::all_symbol_names()[i] == s;
        assert(kernel32::k32_claims(s) || user32::u32_claims(s));
    }
}



/// The two handler modules never overlap: no symbol is claimed by both,
/// so exactly one module answers for any catalog entry.
#[verifier::rlimit(100)]
pub proof fn lemma_modules_disjoint(s: Seq<char>)
    ensures
        !(kernel32::k32_claims(s) && user32::u32_claims(s)),
{
    // Every catalog entry is revealed with its length and leading
    // characters; any two entries from different modules then differ in
    // one of those facts.
        reveal_strlit("CreateFileA");
        assert("CreateFileA"@.len() == 11);
        assert("CreateFileA"@[0] == 'C');
        assert("CreateFileA"@[1] == 'r');
        assert("CreateFileA"@[2] == 'e');
        assert("CreateFileA"@[3] == 'a');
        reveal_strlit("ReadFile");
        assert("ReadFile"@.len() == 8);
        assert("ReadFile"@[0] == 'R');
        assert("ReadFile"@[1] == 'e');
        assert("ReadFile"@[2] == 'a');
        assert("ReadFile"@[3] == 'd');
        reveal_strlit("WriteFile");
        assert("WriteFile"@.len() == 9);
        assert("WriteFile"@[0] == 'W');
        assert("WriteFile"@[1] == 'r');
        assert("WriteFile"@[2] == 'i');
        assert("WriteFile"@[3] == 't');
        reveal_strlit("CloseHandle");
        assert("CloseHandle"@.len() == 11);
        assert("CloseHandle"@[0] == 'C');
        assert("CloseHandle"@[1] == 'l');
        assert("CloseHandle"@[2] == 'o');
        assert("CloseHandle"@[3] == 's');
        reveal_strlit("VirtualAlloc");
        assert("VirtualAlloc"@.len() == 12);
        assert("VirtualAlloc"@[0] == 'V');
        assert("VirtualAlloc"@[1] == 'i');
        assert("VirtualAlloc"@[2] == 'r');
        assert("VirtualAlloc"@[3] == 't');
        reveal_strlit("VirtualFree");
        assert("VirtualFree"@.len() == 11);
        assert("VirtualFree"@[0] == 'V');
        assert("VirtualFree"@[1] == 'i');
        assert("VirtualFree"@[2] == 'r');
        assert("VirtualFree"@[3] == 't');
        reveal_strlit("GetLastError");
        assert("GetLastError"@.len() == 12);
        assert("GetLastError"@[0] == 'G');
        assert("GetLastError"@[1] == 'e');
        assert("GetLastError"@[2] == 't');
        assert("GetLastError"@[3] == 'L');
        reveal_strlit("SetLastError");
        assert("SetLastError"@.len() == 12);
        assert("SetLastError"@[0] == 'S');
        assert("SetLastError"@[1] == 'e');
        assert("SetLastError"@[2] == 't');
        assert("SetLastError"@[3] == 'L');
        reveal_strlit("ExitProcess");
        assert("ExitProcess"@.len() == 11);
        assert("ExitProcess"@[0] == 'E');
        assert("ExitProcess"@[1] == 'x');
        assert("ExitProcess"@[2] == 'i');
        assert("ExitProcess"@[3] == 't');
        reveal_strlit("GetCurrentProcess");
        assert("GetCurrentProcess"@.len() == 17);
        assert("GetCurrentProcess"@[0] == 'G');
        assert("GetCurrentProcess"@[1] == 'e');
        assert("GetCurrentProcess"@[2] == 't');
        assert("GetCurrentProcess"@[3] == 'C');
        reveal_strlit("Sleep");
        assert("Sleep"@.len() == 5);
        assert("Sleep"@[0] == 'S');
        assert("Sleep"@[1] == 'l');
        assert("Sleep"@[2] == 'e');
        assert("Sleep"@[3] == 'e');
        reveal_strlit("GetTickCount");
        assert("GetTickCount"@.len() == 12);
        assert("GetTickCount"@[0] == 'G');
        assert("GetTickCount"@[1] == 'e');
        assert("GetTickCount"@[2] == 't');
        assert("GetTickCount"@[3] == 'T');
        reveal_strlit("GetModuleHandle");
        assert("GetModuleHandle"@.len() == 15);
        assert("GetModuleHandle"@[0] == 'G');
        assert("GetModuleHandle"@[1] == 'e');
        assert("GetModuleHandle"@[2] == 't');
        assert("GetModuleHandle"@[3] == 'M');
        reveal_strlit("GetProcAddress");
        assert("GetProcAddress"@.len() == 14);
        assert("GetProcAddress"@[0] == 'G');
        assert("GetProcAddress"@[1] == 'e');
        assert("GetProcAddress"@[2] == 't');
        assert("GetProcAddress"@[3] == 'P');
        reveal_strlit("LoadLibrary");
        assert("LoadLibrary"@.len() == 11);
        assert("LoadLibrary"@[0] == 'L');
        assert("LoadLibrary"@[1] == 'o');
        assert("LoadLibrary"@[2] == 'a');
        assert("LoadLibrary"@[3] == 'd');
        reveal_strlit("FreeLibrary");
        assert("FreeLibrary"@.len() == 11);
        assert("FreeLibrary"@[0] == 'F');
        assert("FreeLibrary"@[1] == 'r');
        assert("FreeLibrary"@[2] == 'e');
        assert("FreeLibrary"@[3] == 'e');
        reveal_strlit("CreateThread");
        assert("CreateThread"@.len() == 12);
        assert("CreateThread"@[0] == 'C');
        assert("CreateThread"@[1] == 'r');
        assert("CreateThread"@[2] == 'e');
        assert("CreateThread"@[3] == 'a');
        reveal_strlit("WaitForSingleObject");
        assert("WaitForSingleObject"@.len() == 19);
        assert("WaitForSingleObject"@[0] == 'W');
        assert("WaitForSingleObject"@[1] == 'a');
        assert("WaitForSingleObject"@[2] == 'i');
        assert("WaitForSingleObject"@[3] == 't');
        reveal_strlit("CreateEvent");
        assert("CreateEvent"@.len() == 11);
        assert("CreateEvent"@[0] == 'C');
        assert("CreateEvent"@[1] == 'r');
        assert("CreateEvent"@[2] == 'e');
        assert("CreateEvent"@[3] == 'a');
        reveal_strlit("SetEvent");
        assert("SetEvent"@.len() == 8);
        assert("SetEvent"@[0] == 'S');
        assert("SetEvent"@[1] == 'e');
        assert("SetEvent"@[2] == 't');
        assert("SetEvent"@[3] == 'E');
        reveal_strlit("ResetEvent");
        assert("ResetEvent"@.len() == 10);
        assert("ResetEvent"@[0] == 'R');
        assert("ResetEvent"@[1] == 'e');
        assert("ResetEvent"@[2] == 's');
        assert("ResetEvent"@[3] == 'e');
        reveal_strlit("QueryPerformanceCounter");
        assert("QueryPerformanceCounter"@.len() == 23);
        assert("QueryPerformanceCounter"@[0] == 'Q');
        assert("QueryPerformanceCounter"@[1] == 'u');
        assert("QueryPerformanceCounter"@[2] == 'e');
        assert("QueryPerformanceCounter"@[3] == 'r');
        reveal_strlit("QueryPerformanceFrequency");
        assert("QueryPerformanceFrequency"@.len() == 25);
        assert("QueryPerformanceFrequency"@[0] == 'Q');
        assert("QueryPerformanceFrequency"@[1] == 'u');
        assert("QueryPerformanceFrequency"@[2] == 'e');
        assert("QueryPerformanceFrequency"@[3] == 'r');
        reveal_strlit("GetSystemTime");
        assert("GetSystemTime"@.len() == 13);
        assert("GetSystemTime"@[0] == 'G');
        assert("GetSystemTime"@[1] == 'e');
        assert("GetSystemTime"@[2] == 't');
        assert("GetSystemTime"@[3] == 'S');
        reveal_strlit("GetLocalTime");
        assert("GetLocalTime"@.len() == 12);
        assert("GetLocalTime"@[0] == 'G');
        assert("GetLocalTime"@[1] == 'e');
        assert("GetLocalTime"@[2] == 't');
        assert("GetLocalTime"@[3] == 'L');
        reveal_strlit("MessageBoxA");
        assert("MessageBoxA"@.len() == 11);
        assert("MessageBoxA"@[0] == 'M');
        assert("MessageBoxA"@[1] == 'e');
        assert("MessageBoxA"@[2] == 's');
        assert("MessageBoxA"@[3] == 's');
        reveal_strlit("SendInput");
        assert("SendInput"@.len() == 9);
        assert("SendInput"@[0] == 'S');
        assert("SendInput"@[1] == 'e');
        assert("SendInput"@[2] == 'n');
        assert("SendInput"@[3] == 'd');
        reveal_strlit("mouse_event");
        assert("mouse_event"@.len() == 11);
        assert("mouse_event"@[0] == 'm');
        assert("mouse_event"@[1] == 'o');
        assert("mouse_event"@[2] == 'u');
        assert("mouse_event"@[3] == 's');
        reveal_strlit("keybd_event");
        assert("keybd_event"@.len() == 11);
        assert("keybd_event"@[0] == 'k');
        assert("keybd_event"@[1] == 'e');
        assert("keybd_event"@[2] == 'y');
        assert("keybd_event"@[3] == 'b');
        reveal_strlit("GetCursorPos");
        assert("GetCursorPos"@.len() == 12);
        assert("GetCursorPos"@[0] == 'G');
        assert("GetCursorPos"@[1] == 'e');
        assert("GetCursorPos"@[2] == 't');
        assert("GetCursorPos"@[3] == 'C');
        reveal_strlit("SetCursorPos");
        assert("SetCursorPos"@.len() == 12);
        assert("SetCursorPos"@[0] == 'S');
        assert("SetCursorPos"@[1] == 'e');
        assert("SetCursorPos"@[2] == 't');
        assert("SetCursorPos"@[3] == 'C');
        reveal_strlit("GetAsyncKeyState");
        assert("GetAsyncKeyState"@.len() == 16);
        assert("GetAsyncKeyState"@[0] == 'G');
        assert("GetAsyncKeyState"@[1] == 'e');
        assert("GetAsyncKeyState"@[2] == 't');
        assert("GetAsyncKeyState"@[3] == 'A');
        reveal_strlit("GetKeyState");
        assert("GetKeyState"@.len() == 11);
        assert("GetKeyState"@[0] == 'G');
        assert("GetKeyState"@[1] == 'e');
        assert("GetKeyState"@[2] == 't');
        assert("GetKeyState"@[3] == 'K');
        reveal_strlit("MapVirtualKey");
        assert("MapVirtualKey"@.len() == 13);
        assert("MapVirtualKey"@[0] == 'M');
        assert("MapVirtualKey"@[1] == 'a');
        assert("MapVirtualKey"@[2] == 'p');
        assert("MapVirtualKey"@[3] == 'V');
        reveal_strlit("ShowCursor");
        assert("ShowCursor"@.len() == 10);
        assert("ShowCursor"@[0] == 'S');
        assert("ShowCursor"@[1] == 'h');
        assert("ShowCursor"@[2] == 'o');
        assert("ShowCursor"@[3] == 'w');
        reveal_strlit("ClipCursor");
        assert("ClipCursor"@.len() == 10);
        assert("ClipCursor"@[0] == 'C');
        assert("ClipCursor"@[1] == 'l');
        assert("ClipCursor"@[2] == 'i');
        assert("ClipCursor"@[3] == 'p');
        reveal_strlit("RegisterClassExW");
        assert("RegisterClassExW"@.len() == 16);
        assert("RegisterClassExW"@[0] == 'R');
        assert("RegisterClassExW"@[1] == 'e');
        assert("RegisterClassExW"@[2] == 'g');
        assert("RegisterClassExW"@[3] == 'i');
        reveal_strlit("CreateWindowExW");
        assert("CreateWindowExW"@.len() == 15);
        assert("CreateWindowExW"@[0] == 'C');
        assert("CreateWindowExW"@[1] == 'r');
        assert("CreateWindowExW"@[2] == 'e');
        assert("CreateWindowExW"@[3] == 'a');
        reveal_strlit("DefWindowProcW");
        assert("DefWindowProcW"@.len() == 14);
        assert("DefWindowProcW"@[0] == 'D');
        assert("DefWindowProcW"@[1] == 'e');
        assert("DefWindowProcW"@[2] == 'f');
        assert("DefWindowProcW"@[3] == 'W');
        reveal_strlit("DestroyWindow");
        assert("DestroyWindow"@.len() == 13);
        assert("DestroyWindow"@[0] == 'D');
        assert("DestroyWindow"@[1] == 'e');
        assert("DestroyWindow"@[2] == 's');
        assert("DestroyWindow"@[3] == 't');
        reveal_strlit("ShowWindow");
        assert("ShowWindow"@.len() == 10);
        assert("ShowWindow"@[0] == 'S');
        assert("ShowWindow"@[1] == 'h');
        assert("ShowWindow"@[2] == 'o');
        assert("ShowWindow"@[3] == 'w');
        reveal_strlit("UpdateWindow");
        assert("UpdateWindow"@.len() == 12);
        assert("UpdateWindow"@[0] == 'U');
        assert("UpdateWindow"@[1] == 'p');
        assert("UpdateWindow"@[2] == 'd');
        assert("UpdateWindow"@[3] == 'a');
        reveal_strlit("GetClientRect");
        assert("GetClientRect"@.len() == 13);
        assert("GetClientRect"@[0] == 'G');
        assert("GetClientRect"@[1] == 'e');
        assert("GetClientRect"@[2] == 't');
        assert("GetClientRect"@[3] == 'C');
        reveal_strlit("AdjustWindowRectEx");
        assert("AdjustWindowRectEx"@.len() == 18);
        assert("AdjustWindowRectEx"@[0] == 'A');
        assert("AdjustWindowRectEx"@[1] == 'd');
        assert("AdjustWindowRectEx"@[2] == 'j');
        assert("AdjustWindowRectEx"@[3] == 'u');
        reveal_strlit("SetWindowTextW");
        assert("SetWindowTextW"@.len() == 14);
        assert("SetWindowTextW"@[0] == 'S');
        assert("SetWindowTextW"@[1] == 'e');
        assert("SetWindowTextW"@[2] == 't');
        assert("SetWindowTextW"@[3] == 'W');
        reveal_strlit("GetMessageW");
        assert("GetMessageW"@.len() == 11);
        assert("GetMessageW"@[0] == 'G');
        assert("GetMessageW"@[1] == 'e');
        assert("GetMessageW"@[2] == 't');
        assert("GetMessageW"@[3] == 'M');
        reveal_strlit("PeekMessageW");
        assert("PeekMessageW"@.len() == 12);
        assert("PeekMessageW"@[0] == 'P');
        assert("PeekMessageW"@[1] == 'e');
        assert("PeekMessageW"@[2] == 'e');
        assert("PeekMessageW"@[3] == 'k');
        reveal_strlit("TranslateMessage");
        assert("TranslateMessage"@.len() == 16);
        assert("TranslateMessage"@[0] == 'T');
        assert("TranslateMessage"@[1] == 'r');
        assert("TranslateMessage"@[2] == 'a');
        assert("TranslateMessage"@[3] == 'n');
        reveal_strlit("DispatchMessageW");
        assert("DispatchMessageW"@.len() == 16);
        assert("DispatchMessageW"@[0] == 'D');
        assert("DispatchMessageW"@[1] == 'i');
        assert("DispatchMessageW"@[2] == 's');
        assert("DispatchMessageW"@[3] == 'p');
        reveal_strlit("PostMessageW");
        assert("PostMessageW"@.len() == 12);
        assert("PostMessageW"@[0] == 'P');
        assert("PostMessageW"@[1] == 'o');
        assert("PostMessageW"@[2] == 's');
        assert("PostMessageW"@[3] == 't');
        reveal_strlit("SendMessageW");
        assert("SendMessageW"@.len() == 12);
        assert("SendMessageW"@[0] == 'S');
        assert("SendMessageW"@[1] == 'e');
        assert("SendMessageW"@[2] == 'n');
        assert("SendMessageW"@[3] == 'd');
        reveal_strlit("FindWindowW");
        assert("FindWindowW"@.len() == 11);
        assert("FindWindowW"@[0] == 'F');
        assert("FindWindowW"@[1] == 'i');
        assert("FindWindowW"@[2] == 'n');
        assert("FindWindowW"@[3] == 'd');
        reveal_strlit("FindWindowExW");
        assert("FindWindowExW"@.len() == 13);
        assert("FindWindowExW"@[0] == 'F');
        assert("FindWindowExW"@[1] == 'i');
        assert("FindWindowExW"@[2] == 'n');
        assert("FindWindowExW"@[3] == 'd');
        reveal_strlit("GetWindowRect");
        assert("GetWindowRect"@.len() == 13);
        assert("GetWindowRect"@[0] == 'G');
        assert("GetWindowRect"@[1] == 'e');
        assert("GetWindowRect"@[2] == 't');
        assert("GetWindowRect"@[3] == 'W');
        reveal_strlit("ClientToScreen");
        assert("ClientToScreen"@.len() == 14);
        assert("ClientToScreen"@[0] == 'C');
        assert("ClientToScreen"@[1] == 'l');
        assert("ClientToScreen"@[2] == 'i');
        assert("ClientToScreen"@[3] == 'e');
        reveal_strlit("ScreenToClient");
        assert("ScreenToClient"@.len() == 14);
        assert("ScreenToClient"@[0] == 'S');
        assert("ScreenToClient"@[1] == 'c');
        assert("ScreenToClient"@[2] == 'r');
        assert("ScreenToClient"@[3] == 'e');
        reveal_strlit("GetForegroundWindow");
        assert("GetForegroundWindow"@.len() == 19);
        assert("GetForegroundWindow"@[0] == 'G');
        assert("GetForegroundWindow"@[1] == 'e');
        assert("GetForegroundWindow"@[2] == 't');
        assert("GetForegroundWindow"@[3] == 'F');
        reveal_strlit("SetForegroundWindow");
        assert("SetForegroundWindow"@.len() == 19);
        assert("SetForegroundWindow"@[0] == 'S');
        assert("SetForegroundWindow"@[1] == 'e');
        assert("SetForegroundWindow"@[2] == 't');
        assert("SetForegroundWindow"@[3] == 'F');
        reveal_strlit("GetDesktopWindow");
        assert("GetDesktopWindow"@.len() == 16);
        assert("GetDesktopWindow"@[0] == 'G');
        assert("GetDesktopWindow"@[1] == 'e');
        assert("GetDesktopWindow"@[2] == 't');
        assert("GetDesktopWindow"@[3] == 'D');
        reveal_strlit("GetDC");
        assert("GetDC"@.len() == 5);
        assert("GetDC"@[0] == 'G');
        assert("GetDC"@[1] == 'e');
        assert("GetDC"@[2] == 't');
        assert("GetDC"@[3] == 'D');
        reveal_strlit("ReleaseDC");
        assert("ReleaseDC"@.len() == 9);
        assert("ReleaseDC"@[0] == 'R');
        assert("ReleaseDC"@[1] == 'e');
        assert("ReleaseDC"@[2] == 'l');
        assert("ReleaseDC"@[3] == 'e');
        reveal_strlit("GetSystemMetrics");
        assert("GetSystemMetrics"@.len() == 16);
        assert("GetSystemMetrics"@[0] == 'G');
        assert("GetSystemMetrics"@[1] == 'e');
        assert("GetSystemMetrics"@[2] == 't');
        assert("GetSystemMetrics"@[3] == 'S');
        reveal_strlit("WM_CREATE");
        assert("WM_CREATE"@.len() == 9);
        assert("WM_CREATE"@[0] == 'W');
        assert("WM_CREATE"@[1] == 'M');
        assert("WM_CREATE"@[2] == '_');
        assert("WM_CREATE"@[3] == 'C');
        reveal_strlit("WM_DESTROY");
        assert("WM_DESTROY"@.len() == 10);
        assert("WM_DESTROY"@[0] == 'W');
        assert("WM_DESTROY"@[1] == 'M');
        assert("WM_DESTROY"@[2] == '_');
        assert("WM_DESTROY"@[3] == 'D');
        reveal_strlit("WM_PAINT");
        assert("WM_PAINT"@.len() == 8);
        assert("WM_PAINT"@[0] == 'W');
        assert("WM_PAINT"@[1] == 'M');
        assert("WM_PAINT"@[2] == '_');
        assert("WM_PAINT"@[3] == 'P');
        reveal_strlit("WM_SIZE");
        assert("WM_SIZE"@.len() == 7);
        assert("WM_SIZE"@[0] == 'W');
        assert("WM_SIZE"@[1] == 'M');
        assert("WM_SIZE"@[2] == '_');
        assert("WM_SIZE"@[3] == 'S');
        reveal_strlit("WM_CLOSE");
        assert("WM_CLOSE"@.len() == 8);
        assert("WM_CLOSE"@[0] == 'W');
        assert("WM_CLOSE"@[1] == 'M');
        assert("WM_CLOSE"@[2] == '_');
        assert("WM_CLOSE"@[3] == 'C');
        reveal_strlit("WM_QUIT");
        assert("WM_QUIT"@.len() == 7);
        assert("WM_QUIT"@[0] == 'W');
        assert("WM_QUIT"@[1] == 'M');
        assert("WM_QUIT"@[2] == '_');
        assert("WM_QUIT"@[3] == 'Q');
}

} // verus!
