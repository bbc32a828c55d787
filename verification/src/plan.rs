//! The typed call-plan serializer: rewrites each raw argument token into
//! `name:type=value` form under a fixed, significant type-inference
//! precedence, and renders the whole call sequence as the persisted plan
//! text.

use vstd::prelude::*;
use vstd::string::*;

use crate::TracedCall;
use crate::num::{
    dec_spec, float_ok, hex_digit_check, is_float_str, is_hex_digit, parse_i64_spec, parse_i64_str,
    u64_to_string,
};
use crate::text::{
    contains_str, find_char, find_char_idx, find_sub, lower_spec, lower_str, str_eq, trim_spec,
    trim_str,
};

verus! {

/// The inferred type label for a (pre-trimmed) value token. The precedence
/// is fixed and significant: empty, boolean keywords, quoted, `0x` hex,
/// 64-bit signed integer, float, null keywords, path shapes, unknown —
/// so a quoted hex literal is a `string`, never a `pointer`.
pub open spec fn infer_spec(raw: Seq<char>) -> Seq<char> {
    let v = trim_spec(raw);
    if v.len() == 0 {
        "unknown"@
    } else if lower_spec(v) == "true"@ || lower_spec(v) == "false"@ {
        "bool"@
    } else if (v[0] == '"' && v[v.len() - 1] == '"') || (v[0] == '\'' && v[v.len() - 1] == '\'') {
        "string"@
    } else if v.len() >= 2 && v[0] == '0' && v[1] == 'x' && (forall|k: int|
        2 <= k < v.len() ==> is_hex_digit(v[k])) {
        "pointer"@
    } else if parse_i64_spec(v) is Some {
        "int"@
    } else if float_ok(v) {
        "float"@
    } else if lower_spec(v) == "null"@ || lower_spec(v) == "nullptr"@ {
        "pointer"@
    } else if find_char_idx(v, '/', 0) < v.len() || find_sub(v, ".dll"@, 0) >= 0 || find_sub(
        v,
        ".so"@,
        0,
    ) >= 0 {
        "path"@
    } else {
        "unknown"@
    }
}

/// Whether every character of `s` from `from` on is a hexadecimal digit.
fn hex_run_check(s: &str, from: usize) -> (r: bool)
    requires
        from <= s@.len(),
    ensures
        r == (forall|j: int| from <= j < s@.len() ==> is_hex_digit(s@[j])),
{
    let len = s.unicode_len();
    let mut k: usize = from;
    while k < len
        invariant
            len == s@.len(),
            from <= k <= len,
            forall|j: int| from <= j < k ==> is_hex_digit(s@[j]),
        decreases len - k,
    {
        if !hex_digit_check(s.get_char(k)) {
            return false;
        }
        k = k + 1;
    }
    true
}

/// Classifies a raw value token by the fixed precedence.
pub fn infer_arg_type(raw: &str) -> (r: &'static str)
    ensures
        r@ == infer_spec(raw@),
{
    let value = trim_str(raw);
    let len = value.unicode_len();
    if len == 0 {
        return "unknown";
    }
    let lowered = lower_str(value);
    if str_eq(lowered.as_str(), "true") || str_eq(lowered.as_str(), "false") {
        return "bool";
    }
    let first = value.get_char(0);
    let last = value.get_char(len - 1);
    if (first == '"' && last == '"') || (first == '\'' && last == '\'') {
        return "string";
    }
    if len >= 2 && first == '0' && value.get_char(1) == 'x' && hex_run_check(value, 2) {
        return "pointer";
    }
    match parse_i64_str(value) {
        Some(_) => {
            return "int";
        },
        None => {},
    }
    if is_float_str(value) {
        return "float";
    }
    if str_eq(lowered.as_str(), "null") || str_eq(lowered.as_str(), "nullptr") {
        return "pointer";
    }
    let has_slash = match find_char(value, '/') {
        Some(_) => true,
        None => false,
    };
    if has_slash || contains_str(value, ".dll") || contains_str(value, ".so") {
        return "path";
    }
    "unknown"
}

/// One raw argument token rewritten as `name:type=value`; the name
/// defaults to the literal `value` when the token carries no `=`.
pub open spec fn format_typed_arg_spec(a: Seq<char>) -> Seq<char> {
    let e = find_char_idx(a, '=', 0);
    if 0 <= e < a.len() {
        trim_spec(a.take(e)) + ":"@ + infer_spec(trim_spec(a.skip(e + 1))) + "="@ + trim_spec(
            a.skip(e + 1),
        )
    } else {
        "value:"@ + infer_spec(trim_spec(a)) + "="@ + trim_spec(a)
    }
}

/// Rewrites one raw argument token into its typed form.
pub fn format_typed_arg(arg: &str) -> (r: String)
    ensures
        r@ == format_typed_arg_spec(arg@),
{
    let len = arg.unicode_len();
    match find_char(arg, '=') {
        Some(e) => {
            let name_part = arg.substring_char(0, e);
            let value_part = arg.substring_char(e + 1, len);
            proof {
                assert(name_part@ =~= arg@.take(e as int));
                assert(value_part@ =~= arg@.skip(e + 1 as int));
            }
            let name = trim_str(name_part);
            let value = trim_str(value_part);
            let ty = infer_arg_type(value);
            let mut out = String::new();
            out.append(name);
            out.append(":");
            out.append(ty);
            out.append("=");
            out.append(value);
            proof {
                assert(out@ =~= format_typed_arg_spec(arg@));
            }
            out
        },
        None => {
            let value = trim_str(arg);
            let ty = infer_arg_type(value);
            let mut out = String::from_str("value:");
            out.append(ty);
            out.append("=");
            out.append(value);
            proof {
                assert(out@ =~= format_typed_arg_spec(arg@));
            }
            out
        },
    }
}

/// The typed rewrites of all of one call's argument tokens, in order.
pub fn typed_args_for_call(call: &TracedCall) -> (r: Vec<String>)
    ensures
        r@.len() == call.args@.len(),
        forall|i: int| 0 <= i < r@.len() ==> r@[i]@ == format_typed_arg_spec(call.args@[i]@),
{
    let mut out: Vec<String> = Vec::new();
    let mut i: usize = 0;
    while i < call.args.len()
        invariant
            0 <= i <= call.args@.len(),
            out@.len() == i,
            forall|k: int| 0 <= k < i ==> out@[k]@ == format_typed_arg_spec(call.args@[k]@),
        decreases call.args@.len() - i,
    {
        out.push(format_typed_arg(call.args[i].as_str()));
        i = i + 1;
    }
    out
}

/// The typed arguments of a call joined with `||`; an empty argument list
/// yields an empty segment.
pub open spec fn typed_join(args: Seq<String>) -> Seq<char>
    decreases args.len(),
{
    if args.len() == 0 {
        Seq::empty()
    } else if args.len() == 1 {
        format_typed_arg_spec(args[0]@)
    } else {
        typed_join(args.drop_last()) + "||"@ + format_typed_arg_spec(args.last()@)
    }
}

proof fn lemma_typed_join(p: Seq<String>, q: Seq<String>)
    requires
        p.len() == q.len(),
        forall|i: int| 0 <= i < p.len() ==> p[i]@ == format_typed_arg_spec(q[i]@),
    ensures
        crate::text::join_with(p, "||"@) == typed_join(q),
    decreases p.len(),
{
    if p.len() > 1 {
        lemma_typed_join(p.drop_last(), q.drop_last());
    }
}

/// One plan line: 1-based index, tab, function name, tab, the `||`-joined
/// typed arguments, newline.
pub open spec fn plan_line(i: int, c: TracedCall) -> Seq<char> {
    dec_spec((i + 1) as nat) + "\t"@ + c.function@ + "\t"@ + typed_join(c.args@) + "\n"@
}

/// The plan lines for `calls[i..]`.
pub open spec fn plan_body_from(calls: Seq<TracedCall>, i: int) -> Seq<char>
    decreases calls.len() - i,
{
    if 0 <= i < calls.len() {
        plan_line(i, calls[i]) + plan_body_from(calls, i + 1)
    } else {
        Seq::empty()
    }
}

/// Renders the whole plan: one header comment line, then one line per
/// call. This text is the persisted, bit-exact artifact; the caller only
/// writes it to disk.
pub fn render_plan(calls: &[TracedCall]) -> (r: String)
    ensures
        r@ == "# waygate execution plan\n"@ + plan_body_from(calls@, 0),
{
    let mut out = String::from_str("# waygate execution plan\n");
    let mut i: usize = 0;
    while i < calls.len()
        invariant
            0 <= i <= calls@.len(),
            out@ + plan_body_from(calls@, i as int) == "# waygate execution plan\n"@
                + plan_body_from(calls@, 0),
        decreases calls@.len() - i,
    {
        let ghost prev = out@;
        let idx_str = u64_to_string((i as u64) + 1);
        out.append(idx_str.as_str());
        out.append("\t");
        out.append(calls[i].function.as_str());
        out.append("\t");
        let typed = typed_args_for_call(&calls[i]);
        let joined = crate::text::join_strings(typed.as_slice(), "||");
        proof {
            lemma_typed_join(typed@, calls@[i as int].args@);
        }
        out.append(joined.as_str());
        out.append("\n");
        proof {
            assert(out@ =~= prev + plan_line(i as int, calls@[i as int]));
            assert(out@ + plan_body_from(calls@, i + 1 as int) =~= prev + plan_body_from(
                calls@,
                i as int,
            ));
        }
        i = i + 1;
    }
    proof {
        assert(out@ + plan_body_from(calls@, calls@.len() as int) =~= out@);
    }
    out
}

/// The plan file's path: the target's sibling, named after the target's
/// final path component with the fixed plan suffix appended.
pub open spec fn after_last_slash(s: Seq<char>, j: int) -> int
    decreases j,
{
    if 0 < j <= s.len() {
        if s[j - 1] == '/' {
            j
        } else {
            after_last_slash(s, j - 1)
        }
    } else {
        0
    }
}

/// Where the plan for `target` is written.
pub open spec fn plan_path_spec(t: Seq<char>) -> Seq<char> {
    let k = after_last_slash(t, t.len() as int);
    let name = t.skip(k);
    if name.len() == 0 {
        t.take(k) + "target"@ + ".waygate.plan"@
    } else {
        t.take(k) + name + ".waygate.plan"@
    }
}

/// Computes the plan file's path beside the target.
pub fn plan_output_path(target: &str) -> (r: String)
    ensures
        r@ == plan_path_spec(target@),
{
    let len = target.unicode_len();
    let mut j: usize = len;
    while j > 0 && target.get_char(j - 1) != '/'
        invariant
            len == target@.len(),
            0 <= j <= len,
            after_last_slash(target@, len as int) == after_last_slash(target@, j as int),
        decreases j,
    {
        j = j - 1;
    }
    let base = target.substring_char(0, j);
    let name = target.substring_char(j, len);
    proof {
        assert(base@ =~= target@.take(j as int));
        assert(name@ =~= target@.skip(j as int));
    }
    let mut out = base.to_owned();
    if name.unicode_len() == 0 {
        out.append("target");
    } else {
        out.append(name);
    }
    out.append(".waygate.plan");
    out
}

} // verus!
