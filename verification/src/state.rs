//! The synthetic, process-wide OS state that the dispatch engine reads and
//! mutates, and the helpers that parse wire arguments.
//!
//! The state is created once by the caller and passed by reference into
//! every handler; it lives for the process and is never persisted. Replay
//! is strictly sequential, so the state is held behind one exclusive
//! borrow; a caller that wants concurrent readers can shard the fields
//! behind its own locks without changing any handler.

use vstd::prelude::*;
use vstd::string::*;

use crate::num::{parse_i32_spec, parse_u64_spec, parse_i32_str, parse_u64_str};
use crate::text::{
    find_char, find_char_idx, lower_spec, lower_str, str_eq, strip_char, strip_char_spec,
    trim_spec, trim_str,
};

verus! {

/// One emulated window: its title and geometry.
pub struct WindowInfo {
    pub title: String,
    pub visible: bool,
    pub x: i32,
    pub y: i32,
    pub w: i32,
    pub h: i32,
}

/// One queued window message: `(target handle, message id, wparam, lparam)`.
pub type QueuedMessage = (u64, u32, i64, i64);

/// The whole synthetic OS state. Tables are association lists keyed by
/// handle, kept in insertion order; the message queue is strict FIFO.
pub struct CompatState {
    /// Clock baseline, captured at construction, in milliseconds.
    pub started_ms: u64,
    /// The single error register.
    pub last_error: u32,
    /// Next handle to hand out; handles are never reused within a run.
    pub next_handle: u64,
    /// Event handle to signaled flag.
    pub events: Vec<(u64, bool)>,
    /// Window handle to window data.
    pub windows: Vec<(u64, WindowInfo)>,
    /// The single foreground window handle.
    pub foreground: u64,
    /// Cursor position.
    pub cursor_x: i32,
    pub cursor_y: i32,
    /// Signed cursor visibility counter, unbounded below zero.
    pub show_cursor_count: i32,
    /// Pending messages, oldest first.
    pub messages: Vec<QueuedMessage>,
}

/// Index of the first entry with key `k` at or after `i`, or the length.
pub open spec fn assoc_idx<V>(s: Seq<(u64, V)>, k: u64, i: int) -> int
    decreases s.len() - i,
{
    if 0 <= i < s.len() {
        if s[i].0 == k {
            i
        } else {
            assoc_idx(s, k, i + 1)
        }
    } else {
        i
    }
}

/// The value stored under `k`, if any.
pub open spec fn assoc_get<V>(s: Seq<(u64, V)>, k: u64) -> Option<V> {
    let i = assoc_idx(s, k, 0);
    if i < s.len() {
        Some(s[i].1)
    } else {
        None
    }
}

/// `s` with `k` bound to `v`: the existing entry is overwritten in place,
/// or a new entry is appended.
pub open spec fn assoc_set<V>(s: Seq<(u64, V)>, k: u64, v: V) -> Seq<(u64, V)> {
    let i = assoc_idx(s, k, 0);
    if i < s.len() {
        s.update(i, (k, v))
    } else {
        s.push((k, v))
    }
}

/// `s` with the first entry under `k` removed, if one exists.
pub open spec fn assoc_remove<V>(s: Seq<(u64, V)>, k: u64) -> Seq<(u64, V)> {
    let i = assoc_idx(s, k, 0);
    if i < s.len() {
        s.remove(i)
    } else {
        s
    }
}

/// Index of the first entry with key `k`, if any.
pub fn tbl_index<V>(t: &Vec<(u64, V)>, k: u64) -> (r: Option<usize>)
    ensures
        match r {
            Some(i) => i < t@.len() && t@[i as int].0 == k && assoc_idx(t@, k, 0) == i,
            None => assoc_idx(t@, k, 0) == t@.len(),
        },
{
    let mut i: usize = 0;
    while i < t.len()
        invariant
            0 <= i <= t@.len(),
            assoc_idx(t@, k, 0) == assoc_idx(t@, k, i as int),
        decreases t@.len() - i,
    {
        if t[i].0 == k {
            return Some(i);
        }
        i = i + 1;
    }
    None
}

/// Binds `k` to `v`, overwriting an existing entry or appending a new one.
pub fn tbl_set<V>(t: &mut Vec<(u64, V)>, k: u64, v: V)
    ensures
        final(t)@ == assoc_set(old(t)@, k, v),
{
    match tbl_index(t, k) {
        Some(i) => {
            t.remove(i);
            t.insert(i, (k, v));
            proof {
                assert(t@ =~= assoc_set(old(t)@, k, v));
            }
        },
        None => {
            t.push((k, v));
        },
    }
}

/// Removes the entry under `k`; reports whether one was removed.
pub fn tbl_remove<V>(t: &mut Vec<(u64, V)>, k: u64) -> (removed: bool)
    ensures
        final(t)@ == assoc_remove(old(t)@, k),
        removed == (assoc_idx(old(t)@, k, 0) < old(t)@.len()),
{
    match tbl_index(t, k) {
        Some(i) => {
            t.remove(i);
            true
        },
        None => false,
    }
}

/// The signaled flag stored under `k`, if any.
pub fn tbl_get_bool(t: &Vec<(u64, bool)>, k: u64) -> (r: Option<bool>)
    ensures
        r == assoc_get(t@, k),
{
    match tbl_index(t, k) {
        Some(i) => Some(t[i].1),
        None => None,
    }
}

/// `h + 1`, wrapping at the top of the range as the counter register would.
pub open spec fn wrap_inc(h: u64) -> u64 {
    if h == u64::MAX {
        0
    } else {
        (h + 1) as u64
    }
}

/// Whether the table binds each key at most once.
pub open spec fn keys_unique<V>(s: Seq<(u64, V)>) -> bool {
    forall|i: int, j: int| 0 <= i < j < s.len() ==> s[i].0 != s[j].0
}

/// Where `assoc_idx` lands: at the first entry with key `k`, or at the end
/// when no entry from `i` on has that key.
pub proof fn lemma_assoc_idx_props<V>(s: Seq<(u64, V)>, k: u64, i: int)
    requires
        0 <= i <= s.len(),
    ensures
        i <= assoc_idx(s, k, i) <= s.len(),
        assoc_idx(s, k, i) < s.len() ==> s[assoc_idx(s, k, i)].0 == k,
        forall|j: int| i <= j < assoc_idx(s, k, i) ==> s[j].0 != k,
        assoc_idx(s, k, i) == s.len() ==> forall|j: int| i <= j < s.len() ==> s[j].0 != k,
    decreases s.len() - i,
{
    if 0 <= i < s.len() && s[i].0 != k {
        lemma_assoc_idx_props(s, k, i + 1);
    }
}

/// Binding a key never introduces a duplicate key.
pub proof fn lemma_assoc_set_unique<V>(s: Seq<(u64, V)>, k: u64, v: V)
    requires
        keys_unique(s),
    ensures
        keys_unique(assoc_set(s, k, v)),
{
    lemma_assoc_idx_props(s, k, 0);
}

/// Removing a key never introduces a duplicate key.
pub proof fn lemma_assoc_remove_unique<V>(s: Seq<(u64, V)>, k: u64)
    requires
        keys_unique(s),
    ensures
        keys_unique(assoc_remove(s, k)),
{
    lemma_assoc_idx_props(s, k, 0);
}

impl CompatState {
    /// Both handle tables bind each handle at most once.
    pub open spec fn wf(self) -> bool {
        keys_unique(self.events@) && keys_unique(self.windows@)
    }

    /// A fresh state: empty tables, error register zero, handle counter
    /// seeded at 1000, clock baseline read from the wall clock.
    pub fn new() -> (s: CompatState)
        ensures
            s.last_error == 0,
            s.next_handle == 1000,
            s.events@.len() == 0,
            s.windows@.len() == 0,
            s.foreground == 0,
            s.cursor_x == 0,
            s.cursor_y == 0,
            s.show_cursor_count == 0,
            s.messages@.len() == 0,
            s.wf(),
    {
        CompatState {
            started_ms: crate::shims::unix_time_ms(),
            last_error: 0,
            next_handle: 1000,
            events: Vec::new(),
            windows: Vec::new(),
            foreground: 0,
            cursor_x: 0,
            cursor_y: 0,
            show_cursor_count: 0,
            messages: Vec::new(),
        }
    }

    /// Draws a fresh handle and advances the counter.
    pub fn alloc_handle(&mut self) -> (h: u64)
        ensures
            h == old(self).next_handle,
            final(self).next_handle == wrap_inc(old(self).next_handle),
            final(self).started_ms == old(self).started_ms,
            final(self).last_error == old(self).last_error,
            final(self).events == old(self).events,
            final(self).windows == old(self).windows,
            final(self).foreground == old(self).foreground,
            final(self).cursor_x == old(self).cursor_x,
            final(self).cursor_y == old(self).cursor_y,
            final(self).show_cursor_count == old(self).show_cursor_count,
            final(self).messages == old(self).messages,
    {
        let h = self.next_handle;
        if self.next_handle == u64::MAX {
            self.next_handle = 0;
        } else {
            self.next_handle = self.next_handle + 1;
        }
        h
    }

    /// Milliseconds elapsed since the state was created, as the synthetic
    /// tick counter reports them. The value depends on the wall clock.
    pub fn tick_ms(&self) -> u64 {
        let now = crate::shims::unix_time_ms();
        if now >= self.started_ms {
            now - self.started_ms
        } else {
            0
        }
    }
}

/// The handle allocator never repeats a value within one run: each
/// allocation returns the counter and advances it, so the `i`-th and `j`-th
/// handles drawn from a baseline `h0` — across any interleaving of event
/// and window creations — differ as long as the 64-bit counter has not
/// wrapped, which a process lifetime cannot reach.
pub proof fn lemma_handles_never_repeat(h0: u64, i: nat, j: nat)
    requires
        i < j,
        h0 + j <= u64::MAX,
    ensures
        (h0 + i) as u64 != (h0 + j) as u64,
        wrap_inc((h0 + i) as u64) == (h0 + i + 1) as u64,
{
}

/// What remains of the message queue after one `get`: the oldest entry
/// leaves first; an empty queue stays empty.
pub open spec fn queue_pop(q: Seq<QueuedMessage>) -> Seq<QueuedMessage> {
    if q.len() > 0 {
        q.remove(0)
    } else {
        q
    }
}

/// The message one `get` reports: the oldest entry, if any.
pub open spec fn queue_front(q: Seq<QueuedMessage>) -> Option<QueuedMessage> {
    if q.len() > 0 {
        Some(q[0])
    } else {
        None
    }
}

/// The message queue is strict FIFO: posting `m1` then `m2` onto a queue
/// and getting repeatedly yields everything already queued, then `m1`,
/// then `m2`, then an empty report. (Posting appends via `Seq::push` and
/// getting removes via `queue_pop`, exactly as the handlers' contracts
/// state.)
pub proof fn lemma_message_queue_fifo(q0: Seq<QueuedMessage>, m1: QueuedMessage, m2: QueuedMessage)
    ensures
        queue_front(q0.push(m1).push(m2)) == (if q0.len() > 0 {
            Some(q0[0])
        } else {
            Some(m1)
        }),
        q0.len() == 0 ==> {
            let q1 = queue_pop(q0.push(m1).push(m2));
            &&& queue_front(q1) == Some(m2)
            &&& queue_front(queue_pop(q1)) is None
            &&& queue_pop(queue_pop(q1)).len() == 0
        },
{
    let q = q0.push(m1).push(m2);
    if q0.len() == 0 {
        let q1 = queue_pop(q);
        assert(q1 =~= seq![m2]);
        assert(queue_pop(q1) =~= Seq::<QueuedMessage>::empty());
    }
}

/// Everything but the error register is unchanged.
pub open spec fn eq_except_error(a: CompatState, b: CompatState) -> bool {
    b.started_ms == a.started_ms && b.next_handle == a.next_handle && b.events == a.events
        && b.windows == a.windows && b.foreground == a.foreground && b.cursor_x == a.cursor_x
        && b.cursor_y == a.cursor_y && b.show_cursor_count == a.show_cursor_count && b.messages
        == a.messages
}

/// Everything but the handle counter and the event table is unchanged.
pub open spec fn eq_except_events_alloc(a: CompatState, b: CompatState) -> bool {
    b.started_ms == a.started_ms && b.last_error == a.last_error && b.windows == a.windows
        && b.foreground == a.foreground && b.cursor_x == a.cursor_x && b.cursor_y == a.cursor_y
        && b.show_cursor_count == a.show_cursor_count && b.messages == a.messages
}

/// Everything but the event table is unchanged.
pub open spec fn eq_except_events(a: CompatState, b: CompatState) -> bool {
    eq_except_events_alloc(a, b) && b.next_handle == a.next_handle
}

/// Everything but the handle counter and the window table is unchanged.
pub open spec fn eq_except_windows_alloc(a: CompatState, b: CompatState) -> bool {
    b.started_ms == a.started_ms && b.last_error == a.last_error && b.events == a.events
        && b.foreground == a.foreground && b.cursor_x == a.cursor_x && b.cursor_y == a.cursor_y
        && b.show_cursor_count == a.show_cursor_count && b.messages == a.messages
}

/// Everything but the window table is unchanged.
pub open spec fn eq_except_windows(a: CompatState, b: CompatState) -> bool {
    eq_except_windows_alloc(a, b) && b.next_handle == a.next_handle
}

/// Everything but the foreground handle is unchanged.
pub open spec fn eq_except_foreground(a: CompatState, b: CompatState) -> bool {
    b.started_ms == a.started_ms && b.last_error == a.last_error && b.next_handle == a.next_handle
        && b.events == a.events && b.windows == a.windows && b.cursor_x == a.cursor_x && b.cursor_y
        == a.cursor_y && b.show_cursor_count == a.show_cursor_count && b.messages == a.messages
}

/// Everything but the cursor position is unchanged.
pub open spec fn eq_except_cursor(a: CompatState, b: CompatState) -> bool {
    b.started_ms == a.started_ms && b.last_error == a.last_error && b.next_handle == a.next_handle
        && b.events == a.events && b.windows == a.windows && b.foreground == a.foreground
        && b.show_cursor_count == a.show_cursor_count && b.messages == a.messages
}

/// Everything but the cursor visibility counter is unchanged.
pub open spec fn eq_except_cursor_count(a: CompatState, b: CompatState) -> bool {
    b.started_ms == a.started_ms && b.last_error == a.last_error && b.next_handle == a.next_handle
        && b.events == a.events && b.windows == a.windows && b.foreground == a.foreground
        && b.cursor_x == a.cursor_x && b.cursor_y == a.cursor_y && b.messages == a.messages
}

/// Everything but the message queue is unchanged.
pub open spec fn eq_except_messages(a: CompatState, b: CompatState) -> bool {
    b.started_ms == a.started_ms && b.last_error == a.last_error && b.next_handle == a.next_handle
        && b.events == a.events && b.windows == a.windows && b.foreground == a.foreground
        && b.cursor_x == a.cursor_x && b.cursor_y == a.cursor_y && b.show_cursor_count
        == a.show_cursor_count
}

/// The value of the first `key=value` argument whose key matches, trimmed.
pub open spec fn arg_value_from(args: Seq<String>, key: Seq<char>, i: int) -> Option<Seq<char>>
    decreases args.len() - i,
{
    if 0 <= i < args.len() {
        let a = args[i]@;
        let e = find_char_idx(a, '=', 0);
        if 0 <= e < a.len() && trim_spec(a.take(e)) == key {
            Some(trim_spec(a.skip(e + 1)))
        } else {
            arg_value_from(args, key, i + 1)
        }
    } else {
        None
    }
}

/// What `arg_value` finds for `key` among the raw argument tokens.
pub open spec fn arg_value_spec(args: Seq<String>, key: Seq<char>) -> Option<Seq<char>> {
    arg_value_from(args, key, 0)
}

/// Finds the first `key=value` token whose (trimmed) key matches `key` and
/// returns its trimmed value.
pub fn arg_value(args: &[String], key: &str) -> (r: Option<String>)
    ensures
        match r {
            Some(v) => arg_value_spec(args@, key@) == Some(v@),
            None => arg_value_spec(args@, key@) is None,
        },
{
    let mut i: usize = 0;
    while i < args.len()
        invariant
            0 <= i <= args@.len(),
            arg_value_from(args@, key@, 0) == arg_value_from(args@, key@, i as int),
        decreases args@.len() - i,
    {
        let a = &args[i];
        let alen = a.as_str().unicode_len();
        match find_char(a.as_str(), '=') {
            Some(e) => {
                let kpart = a.as_str().substring_char(0, e);
                proof {
                    assert(kpart@ =~= a@.take(e as int));
                }
                if str_eq(trim_str(kpart), key) {
                    let vpart = a.as_str().substring_char(e + 1, alen);
                    proof {
                        assert(vpart@ =~= a@.skip(e + 1 as int));
                    }
                    return Some(trim_str(vpart).to_owned());
                }
            },
            None => {},
        }
        i = i + 1;
    }
    None
}

/// `parse_i32` over an optional token: strip surrounding quotes, parse as
/// a 32-bit signed decimal, fall back to the default.
pub open spec fn parse_i32_with_default(v: Option<Seq<char>>, d: i32) -> i32 {
    match v {
        Some(s) => match parse_i32_spec(strip_char_spec(s, '"')) {
            Some(n) => n,
            None => d,
        },
        None => d,
    }
}

/// The optional token's view.
pub open spec fn opt_view(v: Option<String>) -> Option<Seq<char>> {
    match v {
        Some(s) => Some(s@),
        None => None,
    }
}

/// Parses an optional argument token as a 32-bit signed decimal.
pub fn parse_i32(value: Option<String>, default: i32) -> (r: i32)
    ensures
        r == parse_i32_with_default(opt_view(value), default),
{
    match value {
        Some(s) => {
            let t = strip_char(s.as_str(), '"');
            match parse_i32_str(t) {
                Some(n) => n,
                None => default,
            }
        },
        None => default,
    }
}

/// `parse_u64` over an optional token.
pub open spec fn parse_u64_with_default(v: Option<Seq<char>>, d: u64) -> u64 {
    match v {
        Some(s) => match parse_u64_spec(strip_char_spec(s, '"')) {
            Some(n) => n,
            None => d,
        },
        None => d,
    }
}

/// Parses an optional argument token as a 64-bit unsigned decimal.
pub fn parse_u64(value: Option<String>, default: u64) -> (r: u64)
    ensures
        r == parse_u64_with_default(opt_view(value), default),
{
    match value {
        Some(s) => {
            let t = strip_char(s.as_str(), '"');
            match parse_u64_str(t) {
                Some(n) => n,
                None => default,
            }
        },
        None => default,
    }
}

/// `parse_bool` over an optional token: quote-stripped, case-folded
/// `true`/`1` and `false`/`0` are recognized.
pub open spec fn parse_bool_with_default(v: Option<Seq<char>>, d: bool) -> bool {
    match v {
        Some(s) => {
            let t = lower_spec(strip_char_spec(s, '"'));
            if t == "true"@ || t == "1"@ {
                true
            } else if t == "false"@ || t == "0"@ {
                false
            } else {
                d
            }
        },
        None => d,
    }
}

/// Parses an optional argument token as a boolean.
pub fn parse_bool(value: Option<String>, default: bool) -> (r: bool)
    ensures
        r == parse_bool_with_default(opt_view(value), default),
{
    match value {
        Some(s) => {
            let t = lower_str(strip_char(s.as_str(), '"'));
            if str_eq(t.as_str(), "true") || str_eq(t.as_str(), "1") {
                true
            } else if str_eq(t.as_str(), "false") || str_eq(t.as_str(), "0") {
                false
            } else {
                default
            }
        },
        None => default,
    }
}

} // verus!
