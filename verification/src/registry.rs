//! The immutable catalog of recognized foreign API symbols, split into the
//! two handler modules. Membership here is the sole gate deciding whether a
//! discovered name becomes a replayable call.

use vstd::prelude::*;

verus! {

/// The symbols the process/thread/synchronization/time module handles.
pub open spec fn kernel32_names() -> Seq<Seq<char>> {
    seq![
        "CreateFileA"@,
        "ReadFile"@,
        "WriteFile"@,
        "CloseHandle"@,
        "VirtualAlloc"@,
        "VirtualFree"@,
        "GetLastError"@,
        "SetLastError"@,
        "ExitProcess"@,
        "GetCurrentProcess"@,
        "Sleep"@,
        "GetTickCount"@,
        "GetModuleHandle"@,
        "GetProcAddress"@,
        "LoadLibrary"@,
        "FreeLibrary"@,
        "CreateThread"@,
        "WaitForSingleObject"@,
        "CreateEvent"@,
        "SetEvent"@,
        "ResetEvent"@,
        "QueryPerformanceCounter"@,
        "QueryPerformanceFrequency"@,
        "GetSystemTime"@,
        "GetLocalTime"@,
    ]
}

/// The symbols the windowing/input/messaging module handles.
pub open spec fn user32_names() -> Seq<Seq<char>> {
    seq![
        "MessageBoxA"@,
        "SendInput"@,
        "mouse_event"@,
        "keybd_event"@,
        "GetCursorPos"@,
        "SetCursorPos"@,
        "GetAsyncKeyState"@,
        "GetKeyState"@,
        "MapVirtualKey"@,
        "ShowCursor"@,
        "ClipCursor"@,
        "RegisterClassExW"@,
        "CreateWindowExW"@,
        "DefWindowProcW"@,
        "DestroyWindow"@,
        "ShowWindow"@,
        "UpdateWindow"@,
        "GetClientRect"@,
        "AdjustWindowRectEx"@,
        "SetWindowTextW"@,
        "GetMessageW"@,
        "PeekMessageW"@,
        "TranslateMessage"@,
        "DispatchMessageW"@,
        "PostMessageW"@,
        "SendMessageW"@,
        "FindWindowW"@,
        "FindWindowExW"@,
        "GetWindowRect"@,
        "ClientToScreen"@,
        "ScreenToClient"@,
        "GetForegroundWindow"@,
        "SetForegroundWindow"@,
        "GetDesktopWindow"@,
        "GetDC"@,
        "ReleaseDC"@,
        "GetSystemMetrics"@,
        "WM_CREATE"@,
        "WM_DESTROY"@,
        "WM_PAINT"@,
        "WM_SIZE"@,
        "WM_CLOSE"@,
        "WM_QUIT"@,
    ]
}

/// Every recognized symbol, first module first, in catalog order.
pub open spec fn all_symbol_names() -> Seq<Seq<char>> {
    kernel32_names() + user32_names()
}

/// Whether `s` is a recognized symbol name.
pub open spec fn is_known_symbol_spec(s: Seq<char>) -> bool {
    all_symbol_names().contains(s)
}

/// The first handler module's symbol list.
pub fn kernel32_symbols() -> (v: Vec<&'static str>)
    ensures
        v@.len() == kernel32_names().len(),
        forall|i: int| 0 <= i < v@.len() ==> v@[i]@ == kernel32_names()[i],
{
    let v: Vec<&'static str> = vec![
        "CreateFileA",
        "ReadFile",
        "WriteFile",
        "CloseHandle",
        "VirtualAlloc",
        "VirtualFree",
        "GetLastError",
        "SetLastError",
        "ExitProcess",
        "GetCurrentProcess",
        "Sleep",
        "GetTickCount",
        "GetModuleHandle",
        "GetProcAddress",
        "LoadLibrary",
        "FreeLibrary",
        "CreateThread",
        "WaitForSingleObject",
        "CreateEvent",
        "SetEvent",
        "ResetEvent",
        "QueryPerformanceCounter",
        "QueryPerformanceFrequency",
        "GetSystemTime",
        "GetLocalTime",
    ];
    v
}

/// The second handler module's symbol list.
pub fn user32_symbols() -> (v: Vec<&'static str>)
    ensures
        v@.len() == user32_names().len(),
        forall|i: int| 0 <= i < v@.len() ==> v@[i]@ == user32_names()[i],
{
    let v: Vec<&'static str> = vec![
        "MessageBoxA",
        "SendInput",
        "mouse_event",
        "keybd_event",
        "GetCursorPos",
        "SetCursorPos",
        "GetAsyncKeyState",
        "GetKeyState",
        "MapVirtualKey",
        "ShowCursor",
        "ClipCursor",
        "RegisterClassExW",
        "CreateWindowExW",
        "DefWindowProcW",
        "DestroyWindow",
        "ShowWindow",
        "UpdateWindow",
        "GetClientRect",
        "AdjustWindowRectEx",
        "SetWindowTextW",
        "GetMessageW",
        "PeekMessageW",
        "TranslateMessage",
        "DispatchMessageW",
        "PostMessageW",
        "SendMessageW",
        "FindWindowW",
        "FindWindowExW",
        "GetWindowRect",
        "ClientToScreen",
        "ScreenToClient",
        "GetForegroundWindow",
        "SetForegroundWindow",
        "GetDesktopWindow",
        "GetDC",
        "ReleaseDC",
        "GetSystemMetrics",
        "WM_CREATE",
        "WM_DESTROY",
        "WM_PAINT",
        "WM_SIZE",
        "WM_CLOSE",
        "WM_QUIT",
    ];
    v
}

/// Whether `s` is in the catalog of recognized symbols.
pub fn is_known_symbol(s: &str) -> (r: bool)
    ensures
        r == is_known_symbol_spec(s@),
{
    let names = crate::supported_symbols();
    let mut i: usize = 0;
    while i < names.len()
        invariant
            names@.len() == all_symbol_names().len(),
            forall|k: int| 0 <= k < names@.len() ==> names@[k]@ == all_symbol_names()[k],
            0 <= i <= names@.len(),
            forall|k: int| 0 <= k < i ==> all_symbol_names()[k] != s@,
        decreases names@.len() - i,
    {
        if crate::text::str_eq(names[i], s) {
            proof {
                assert(all_symbol_names()[i as int] == s@);
            }
            return true;
        }
        i = i + 1;
    }
    proof {
        if is_known_symbol_spec(s@) {
            let k = choose|k: int|
                0 <= k < all_symbol_names().len() && all_symbol_names()[k] == s@;
            assert(all_symbol_names()[k] == s@);
        }
    }
    false
}

} // verus!
