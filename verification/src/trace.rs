//! The dynamic tracer's text protocol: the scripted debugger session an
//! external debugger replays, and the parser for the delimited trace
//! blocks its output carries. Spawning the debugger itself is the
//! caller's job; this module only builds and reads the exact grammar.

use vstd::prelude::*;
use vstd::string::*;

use crate::TracedCall;
use crate::num::{dec_spec, is_digit, u64_to_string};
use crate::registry::{all_symbol_names, is_known_symbol, is_known_symbol_spec};
use crate::text::{
    contains_str, find_char, find_char_idx, find_sub, is_prefix_of, lines_of, lines_spec,
    starts_with_str, str_views, trim_spec, trim_str,
};

verus! {

/// How many debugger stops the scripted loop observes at most.
pub const TRACE_MAX_STOPS: usize = 128;

/// The fixed settings that open the script, each line terminated.
pub open spec fn script_head() -> Seq<char> {
    "set pagination off\nset confirm off\nset breakpoint pending on\nset print frame-arguments all\n"@
}

/// One breakpoint request per recognized symbol, exact-name anchored.
pub open spec fn rbreak_pre(k: int) -> Seq<char>
    decreases k,
{
    if k <= 0 {
        Seq::empty()
    } else {
        rbreak_pre(k - 1) + "rbreak ^"@ + all_symbol_names()[k - 1] + "$\n"@
    }
}

/// The run command and the bounded stop/continue loop that closes the
/// script.
pub open spec fn script_tail() -> Seq<char> {
    "run\nset $i = 0\nwhile $i < "@ + dec_spec(TRACE_MAX_STOPS as nat)
        + "\n  if $_isvoid($_exitcode)\n    printf \"===TRACE_EVENT_BEGIN===\\n\"\n    frame\n    info args\n    backtrace 8\n    printf \"===TRACE_EVENT_END===\\n\"\n    continue\n  else\n    loop_break\n  end\n  set $i = $i + 1\nend"@
}

/// The whole scripted session, exactly as the protocol requires it.
pub open spec fn gdb_script_spec() -> Seq<char> {
    script_head() + rbreak_pre(all_symbol_names().len() as int) + script_tail()
}

/// Builds the debugger script: settings, one breakpoint per symbol, then
/// the bounded stop loop.
pub fn build_gdb_script() -> (r: String)
    ensures
        r@ == gdb_script_spec(),
{
    let mut m = String::from_str(
        "set pagination off\nset confirm off\nset breakpoint pending on\nset print frame-arguments all\n",
    );
    let syms = crate::known_winapi();
    let mut i: usize = 0;
    proof {
        assert(m@ =~= script_head() + rbreak_pre(0));
    }
    while i < syms.len()
        invariant
            syms@.len() == all_symbol_names().len(),
            forall|k: int| 0 <= k < syms@.len() ==> syms@[k]@ == all_symbol_names()[k],
            0 <= i <= syms@.len(),
            m@ == script_head() + rbreak_pre(i as int),
        decreases syms@.len() - i,
    {
        m.append("rbreak ^");
        m.append(syms[i]);
        m.append("$\n");
        proof {
            assert(m@ =~= script_head() + rbreak_pre(i + 1 as int));
        }
        i = i + 1;
    }
    m.append("run\nset $i = 0\nwhile $i < ");
    let stops = u64_to_string(TRACE_MAX_STOPS as u64);
    m.append(stops.as_str());
    m.append(
        "\n  if $_isvoid($_exitcode)\n    printf \"===TRACE_EVENT_BEGIN===\\n\"\n    frame\n    info args\n    backtrace 8\n    printf \"===TRACE_EVENT_END===\\n\"\n    continue\n  else\n    loop_break\n  end\n  set $i = $i + 1\nend",
    );
    proof {
        assert(m@ =~= gdb_script_spec());
    }
    m
}

/// A `key=value`-shaped line: the trimmed key (non-empty, not a frame
/// marker) and the trimmed value.
pub open spec fn arg_line_spec(l: Seq<char>) -> Option<(Seq<char>, Seq<char>)> {
    let e = find_char_idx(l, '=', 0);
    if 0 <= e < l.len() {
        let key = trim_spec(l.take(e));
        if key.len() == 0 || key[0] == '#' {
            None
        } else {
            Some((key, trim_spec(l.skip(e + 1))))
        }
    } else {
        None
    }
}

/// Reads one `key=value` argument line, if the line has that shape.
pub fn parse_arg_line(line: &str) -> (r: Option<(String, String)>)
    ensures
        match r {
            Some(kv) => arg_line_spec(line@) == Some((kv.0@, kv.1@)),
            None => arg_line_spec(line@) is None,
        },
{
    let len = line.unicode_len();
    match find_char(line, '=') {
        Some(e) => {
            let name_part = line.substring_char(0, e);
            let value_part = line.substring_char(e + 1, len);
            proof {
                assert(name_part@ =~= line@.take(e as int));
                assert(value_part@ =~= line@.skip(e + 1 as int));
            }
            let key = trim_str(name_part);
            let klen = key.unicode_len();
            if klen == 0 || key.get_char(0) == '#' {
                None
            } else {
                Some((key.to_owned(), trim_str(value_part).to_owned()))
            }
        },
        None => None,
    }
}

/// `s` with every leading `0x` prefix removed, as the repeated prefix
/// strip leaves it.
pub open spec fn strip_0x(s: Seq<char>) -> Seq<char>
    decreases s.len(),
{
    if is_prefix_of("0x"@, s) && s.len() >= 2 {
        strip_0x(s.skip(2))
    } else {
        s
    }
}

fn strip_0x_exec<'a>(s: &'a str) -> (r: &'a str)
    ensures
        r@ == strip_0x(s@),
    decreases s@.len(),
{
    let len = s.unicode_len();
    if len >= 2 && s.get_char(0) == '0' && s.get_char(1) == 'x' {
        proof {
            reveal_strlit("0x");
            assert("0x"@.len() == 2);
            assert(is_prefix_of("0x"@, s@));
        }
        let rest = s.substring_char(2, len);
        proof {
            assert(rest@ =~= s@.skip(2));
        }
        strip_0x_exec(rest)
    } else {
        proof {
            reveal_strlit("0x");
            assert("0x"@.len() == 2);
            assert(!(is_prefix_of("0x"@, s@) && s@.len() >= 2));
        }
        s
    }
}

/// The called function's name on a backtrace-style line: the token after
/// the frame marker up to the first `(` or space, with any leading
/// hex-address prefix stripped; `None` when no usable name stands there.
pub open spec fn fn_name_spec(l: Seq<char>) -> Option<Seq<char>> {
    if l.len() == 0 || l[0] != '#' {
        None
    } else {
        let sp = find_char_idx(l, ' ', 0);
        if sp < l.len() {
            let wf = trim_spec(l.skip(sp + 1));
            let po = find_char_idx(wf, '(', 0);
            let so = find_char_idx(wf, ' ', 0);
            let cut = if po < so {
                po
            } else {
                so
            };
            let tok = if cut < wf.len() {
                wf.take(cut)
            } else {
                wf
            };
            let cand = strip_0x(tok);
            if cand.len() == 0 || is_digit(cand[0]) {
                None
            } else {
                Some(cand)
            }
        } else {
            None
        }
    }
}

/// Extracts the called function's name from a frame line.
pub fn parse_function_name(line: &str) -> (r: Option<String>)
    ensures
        match r {
            Some(name) => fn_name_spec(line@) == Some(name@),
            None => fn_name_spec(line@) is None,
        },
{
    let len = line.unicode_len();
    if len == 0 || line.get_char(0) != '#' {
        return None;
    }
    let sp = match find_char(line, ' ') {
        Some(i) => i,
        None => {
            return None;
        },
    };
    let after = line.substring_char(sp + 1, len);
    proof {
        assert(after@ =~= line@.skip(sp + 1 as int));
    }
    let wf = trim_str(after);
    let wlen = wf.unicode_len();
    let po = match find_char(wf, '(') {
        Some(i) => i,
        None => wlen,
    };
    let so = match find_char(wf, ' ') {
        Some(i) => i,
        None => wlen,
    };
    let cut = if po < so {
        po
    } else {
        so
    };
    let tok = if cut < wlen {
        wf.substring_char(0, cut)
    } else {
        wf
    };
    proof {
        if cut < wlen {
            assert(tok@ =~= wf@.take(cut as int));
        }
    }
    let cand = strip_0x_exec(tok);
    let clen = cand.unicode_len();
    if clen == 0 {
        return None;
    }
    match crate::num::digit_of(cand.get_char(0)) {
        Some(_) => None,
        None => Some(cand.to_owned()),
    }
}

/// The `key=value` argument tokens a block's lines carry, in order.
pub open spec fn block_args(lines: Seq<Seq<char>>, i: int) -> Seq<Seq<char>>
    decreases lines.len() - i,
{
    if 0 <= i < lines.len() {
        match arg_line_spec(lines[i]) {
            Some(kv) => seq![kv.0 + "="@ + kv.1] + block_args(lines, i + 1),
            None => block_args(lines, i + 1),
        }
    } else {
        Seq::empty()
    }
}

/// The frame-marker lines a block carries, in order.
pub open spec fn block_bt(lines: Seq<Seq<char>>, i: int) -> Seq<Seq<char>>
    decreases lines.len() - i,
{
    if 0 <= i < lines.len() {
        if lines[i].len() > 0 && lines[i][0] == '#' {
            seq![lines[i]] + block_bt(lines, i + 1)
        } else {
            block_bt(lines, i + 1)
        }
    } else {
        Seq::empty()
    }
}

/// The first resolvable function name among a block's lines.
pub open spec fn block_fn(lines: Seq<Seq<char>>, i: int) -> Option<Seq<char>>
    decreases lines.len() - i,
{
    if 0 <= i < lines.len() {
        match fn_name_spec(lines[i]) {
            Some(name) => Some(name),
            None => block_fn(lines, i + 1),
        }
    } else {
        None
    }
}

/// What one delimited block yields: the resolved name with the block's
/// arguments and backtrace — or nothing, when no name resolves or the
/// name is not in the registry.
pub open spec fn block_spec(lines: Seq<Seq<char>>) -> Option<(Seq<char>, Seq<Seq<char>>, Seq<
    Seq<char>,
>)> {
    match block_fn(lines, 0) {
        Some(f) => if is_known_symbol_spec(f) {
            Some((f, block_args(lines, 0), block_bt(lines, 0)))
        } else {
            None
        },
        None => None,
    }
}

/// Reads one trace block: the first backtrace-style line names the
/// function, every `key=value` line becomes an argument, every frame line
/// is kept as backtrace. A block whose name the registry does not know is
/// discarded.
pub fn parse_trace_block(lines: &[String]) -> (r: Option<TracedCall>)
    ensures
        match r {
            Some(c) => block_spec(str_views(lines@)) == Some(
                (c.function@, str_views(c.args@), str_views(c.backtrace@)),
            ),
            None => block_spec(str_views(lines@)) is None,
        },
{
    let ghost lv = str_views(lines@);
    let mut function: Option<String> = None;
    let mut args: Vec<String> = Vec::new();
    let mut backtrace: Vec<String> = Vec::new();
    let mut i: usize = 0;
    proof {
        assert(str_views(args@) =~= Seq::<Seq<char>>::empty());
        assert(str_views(backtrace@) =~= Seq::<Seq<char>>::empty());
    }
    while i < lines.len()
        invariant
            lv == str_views(lines@),
            0 <= i <= lv.len(),
            match function {
                Some(f) => block_fn(lv, 0) == Some(f@),
                None => block_fn(lv, 0) == block_fn(lv, i as int),
            },
            block_args(lv, 0) == str_views(args@) + block_args(lv, i as int),
            block_bt(lv, 0) == str_views(backtrace@) + block_bt(lv, i as int),
        decreases lv.len() - i,
    {
        let line = &lines[i];
        if matches!(function, None) {
            match parse_function_name(line.as_str()) {
                Some(name) => {
                    function = Some(name);
                },
                None => {},
            }
        }
        match parse_arg_line(line.as_str()) {
            Some(kv) => {
                let mut tok = kv.0;
                tok.append("=");
                tok.append(kv.1.as_str());
                let ghost pa = args@;
                args.push(tok);
                proof {
                    assert(str_views(args@) =~= str_views(pa).push(args@.last()@));
                    assert(str_views(pa).push(args@.last()@) + block_args(lv, i + 1 as int)
                        =~= str_views(pa) + block_args(lv, i as int));
                }
            },
            None => {},
        }
        if starts_with_str(line.as_str(), "#") {
            proof {
                reveal_strlit("#");
                assert("#"@.len() == 1);
                assert(lv[i as int].len() > 0 && lv[i as int][0] == '#');
            }
            let ghost pb = backtrace@;
            backtrace.push(line.clone());
            proof {
                assert(str_views(backtrace@) =~= str_views(pb).push(backtrace@.last()@));
                assert(str_views(pb).push(backtrace@.last()@) + block_bt(lv, i + 1 as int)
                    =~= str_views(pb) + block_bt(lv, i as int));
            }
        } else {
            proof {
                reveal_strlit("#");
                assert("#"@.len() == 1);
                assert(!(lv[i as int].len() > 0 && lv[i as int][0] == '#'));
            }
        }
        i = i + 1;
    }
    let f = match function {
        Some(f) => f,
        None => {
            return None;
        },
    };
    if !is_known_symbol(f.as_str()) {
        return None;
    }
    Some(TracedCall { function: f, args, backtrace })
}

/// The calls of a parsed trace, at the specification level.
pub open spec fn trace_views(calls: Seq<TracedCall>) -> Seq<(Seq<char>, Seq<Seq<char>>, Seq<
    Seq<char>,
>)> {
    calls.map_values(|c: TracedCall| (c.function@, str_views(c.args@), str_views(c.backtrace@)))
}

/// The whole output scan: an inside-a-block flag is toggled by the begin
/// and end delimiters; lines inside a block are collected trimmed; each
/// completed block that resolves to a known symbol becomes one call. No
/// de-duplication: repeated stops are repeated records.
pub open spec fn trace_scan(
    lines: Seq<Seq<char>>,
    i: int,
    inside: bool,
    block: Seq<Seq<char>>,
    acc: Seq<(Seq<char>, Seq<Seq<char>>, Seq<Seq<char>>)>,
) -> Seq<(Seq<char>, Seq<Seq<char>>, Seq<Seq<char>>)>
    decreases lines.len() - i,
{
    if 0 <= i < lines.len() {
        let l = lines[i];
        if find_sub(l, "===TRACE_EVENT_BEGIN==="@, 0) >= 0 {
            trace_scan(lines, i + 1, true, Seq::empty(), acc)
        } else if find_sub(l, "===TRACE_EVENT_END==="@, 0) >= 0 {
            let acc2 = match block_spec(block) {
                Some(c) => acc.push(c),
                None => acc,
            };
            trace_scan(lines, i + 1, false, Seq::empty(), acc2)
        } else if inside {
            trace_scan(lines, i + 1, true, block.push(trim_spec(l)), acc)
        } else {
            trace_scan(lines, i + 1, false, block, acc)
        }
    } else {
        acc
    }
}

/// Parses the debugger's whole output into the calls its trace blocks
/// describe, in order of appearance.
pub fn parse_gdb_trace(stdout: &str) -> (r: Vec<TracedCall>)
    ensures
        trace_views(r@) == trace_scan(lines_spec(stdout@), 0, false, Seq::empty(), Seq::empty()),
{
    let lines = lines_of(stdout);
    let ghost lv = lines_spec(stdout@);
    let mut calls: Vec<TracedCall> = Vec::new();
    let mut block: Vec<String> = Vec::new();
    let mut inside = false;
    let mut i: usize = 0;
    proof {
        assert(trace_views(calls@) =~= Seq::<(Seq<char>, Seq<Seq<char>>, Seq<Seq<char>>)>::empty());
        assert(str_views(block@) =~= Seq::<Seq<char>>::empty());
    }
    while i < lines.len()
        invariant
            lines@.len() == lv.len(),
            forall|k: int| 0 <= k < lv.len() ==> lines@[k]@ == lv[k],
            0 <= i <= lv.len(),
            trace_scan(lv, 0, false, Seq::empty(), Seq::empty()) == trace_scan(
                lv,
                i as int,
                inside,
                str_views(block@),
                trace_views(calls@),
            ),
        decreases lv.len() - i,
    {
        let line = &lines[i];
        if contains_str(line.as_str(), "===TRACE_EVENT_BEGIN===") {
            inside = true;
            block = Vec::new();
            proof {
                assert(str_views(block@) =~= Seq::<Seq<char>>::empty());
            }
        } else if contains_str(line.as_str(), "===TRACE_EVENT_END===") {
            inside = false;
            match parse_trace_block(block.as_slice()) {
                Some(call) => {
                    let ghost pc = calls@;
                    calls.push(call);
                    proof {
                        assert(trace_views(calls@) =~= trace_views(pc).push(
                            (
                                calls@.last().function@,
                                str_views(calls@.last().args@),
                                str_views(calls@.last().backtrace@),
                            ),
                        ));
                    }
                },
                None => {},
            }
            block = Vec::new();
            proof {
                assert(str_views(block@) =~= Seq::<Seq<char>>::empty());
            }
        } else if inside {
            let ghost pb = block@;
            block.push(trim_str(line.as_str()).to_owned());
            proof {
                assert(str_views(block@) =~= str_views(pb).push(block@.last()@));
            }
        }
        i = i + 1;
    }
    calls
}

} // verus!
