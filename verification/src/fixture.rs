//! The heuristic text scanner: the fallback discovery strategy for input
//! that fails PE validation. It treats the bytes as text, matches every
//! known symbol case-insensitively, captures parenthesized argument
//! lists, and de-duplicates with the "richer signature wins" rule.

use vstd::prelude::*;
use vstd::string::*;

use crate::{Analysis, TracedCall};
use crate::registry::all_symbol_names;
use crate::shims::{lossy_string, utf8_lossy_of};
use crate::text::{
    contains_str, ends_with_str, find_char, find_char_idx, find_sub, is_suffix_of, join_views,
    lex_lt, lines_of, lines_spec, lower_spec, lower_str, str_eq, str_lt, str_views, trim_spec,
    trim_str, vec_contains_str,
};

verus! {

/// One scanned call at the specification level: the symbol's name and the
/// captured argument tokens.
pub type CallView = (Seq<char>, Seq<Seq<char>>);

/// The views of a call list.
pub open spec fn call_views(calls: Seq<TracedCall>) -> Seq<CallView> {
    calls.map_values(|c: TracedCall| (c.function@, str_views(c.args@)))
}

/// The argument tokens inside a captured parenthesis group: split on
/// commas, trimmed, empty tokens dropped.
pub open spec fn split_args_spec(s: Seq<char>) -> Seq<Seq<char>>
    decreases s.len(),
{
    let c = find_char_idx(s, ',', 0);
    if 0 <= c < s.len() {
        let tok = trim_spec(s.take(c));
        let rest = split_args_spec(s.skip(c + 1));
        if tok.len() > 0 {
            seq![tok] + rest
        } else {
            rest
        }
    } else {
        let tok = trim_spec(s);
        if tok.len() > 0 {
            seq![tok]
        } else {
            Seq::empty()
        }
    }
}

/// Splits a captured argument group into its tokens.
fn split_args(s: &str) -> (r: Vec<String>)
    ensures
        str_views(r@) == split_args_spec(s@),
{
    let len = s.unicode_len();
    let mut out: Vec<String> = Vec::new();
    let mut pos: usize = 0;
    let mut done = false;
    proof {
        assert(s@.skip(0) =~= s@);
        assert(str_views(out@) =~= Seq::<Seq<char>>::empty());
    }
    while !done
        invariant
            len == s@.len(),
            0 <= pos <= len,
            !done ==> split_args_spec(s@) == str_views(out@) + split_args_spec(
                s@.skip(pos as int),
            ),
            done ==> split_args_spec(s@) == str_views(out@),
        decreases len - pos, (if done {
            0int
        } else {
            1
        }),
    {
        let ghost rest = s@.skip(pos as int);
        let mut e: usize = pos;
        while e < len && s.get_char(e) != ','
            invariant
                len == s@.len(),
                pos <= e <= len,
                rest == s@.skip(pos as int),
                find_char_idx(rest, ',', 0) == find_char_idx(rest, ',', e - pos),
            decreases len - e,
        {
            proof {
                assert(rest[e - pos] == s@[e as int]);
            }
            e = e + 1;
        }
        let piece = s.substring_char(pos, e);
        proof {
            assert(piece@ =~= rest.take(e - pos));
        }
        let tok = trim_str(piece);
        let ghost prev = out@;
        if tok.unicode_len() > 0 {
            out.push(tok.to_owned());
            proof {
                assert(str_views(out@) =~= str_views(prev).push(tok@));
            }
        }
        if e < len {
            proof {
                assert(s@.skip(e + 1 as int) =~= rest.skip(e - pos + 1));
            }
            pos = e + 1;
        } else {
            done = true;
        }
        proof {
            if !done {
                assert(str_views(out@) + split_args_spec(s@.skip(pos as int))
                    =~= str_views(prev) + split_args_spec(rest));
            } else {
                assert(str_views(out@) =~= str_views(prev) + split_args_spec(rest));
            }
        }
    }
    out
}

/// What one case-insensitive symbol match yields: the symbol as the
/// function, and — when the occurrence is immediately followed by `(` and
/// a matching `)` exists — the split argument list.
pub open spec fn symbol_call_spec(line: Seq<char>, sym: Seq<char>) -> CallView {
    let low = lower_spec(line);
    let lsym = lower_spec(sym);
    let start = find_sub(low, lsym, 0);
    if start >= 0 {
        let rest = line.skip(start + sym.len());
        if rest.len() > 0 && rest[0] == '(' {
            let close = find_char_idx(rest, ')', 0);
            if close < rest.len() {
                (sym, split_args_spec(rest.subrange(1, close)))
            } else {
                (sym, Seq::empty())
            }
        } else {
            (sym, Seq::empty())
        }
    } else {
        (sym, Seq::empty())
    }
}

/// Extracts one call for a symbol that matched `line` case-insensitively.
pub fn parse_symbol_call_case_insensitive(line: &str, symbol: &str) -> (r: TracedCall)
    ensures
        r.function@ == symbol_call_spec(line@, symbol@).0,
        str_views(r.args@) == symbol_call_spec(line@, symbol@).1,
        r.backtrace@.len() == 0,
{
    let lower_line = lower_str(line);
    let lower_symbol = lower_str(symbol);
    let line_len = line.unicode_len();
    let sym_len = symbol.unicode_len();
    match crate::text::find_str(lower_line.as_str(), lower_symbol.as_str()) {
        Some(start) => {
            let rest = line.substring_char(start + sym_len, line_len);
            proof {
                assert(rest@ =~= line@.skip(start + sym_len as int));
            }
            let rest_len = rest.unicode_len();
            if rest_len > 0 && rest.get_char(0) == '(' {
                match find_char(rest, ')') {
                    Some(close) => {
                        let inner = rest.substring_char(1, close);
                        proof {
                            assert(inner@ =~= rest@.subrange(1, close as int));
                        }
                        let args = split_args(inner);
                        TracedCall {
                            function: symbol.to_owned(),
                            args,
                            backtrace: Vec::new(),
                        }
                    },
                    None => TracedCall {
                        function: symbol.to_owned(),
                        args: Vec::new(),
                        backtrace: Vec::new(),
                    },
                }
            } else {
                TracedCall {
                    function: symbol.to_owned(),
                    args: Vec::new(),
                    backtrace: Vec::new(),
                }
            }
        },
        None => TracedCall {
            function: symbol.to_owned(),
            args: Vec::new(),
            backtrace: Vec::new(),
        },
    }
}

/// The de-duplication key: `function(arg1,arg2,...)`.
pub open spec fn sig_of(f: Seq<char>, args: Seq<Seq<char>>) -> Seq<char> {
    f + "("@ + join_views(args, ","@) + ")"@
}

/// One line matched against the symbols from index `si` on, threading the
/// seen-signature set, the seen-with-arguments set and the call list.
pub open spec fn scan_syms(
    tr: Seq<char>,
    si: int,
    sigs: Seq<Seq<char>>,
    ne: Seq<Seq<char>>,
    calls: Seq<CallView>,
) -> (Seq<Seq<char>>, Seq<Seq<char>>, Seq<CallView>)
    decreases all_symbol_names().len() - si,
{
    if 0 <= si < all_symbol_names().len() {
        let sym = all_symbol_names()[si];
        if find_sub(lower_spec(tr), lower_spec(sym), 0) >= 0 {
            let fc = symbol_call_spec(tr, sym);
            let sig = sig_of(fc.0, fc.1);
            if sigs.contains(sig) {
                scan_syms(tr, si + 1, sigs, ne, calls)
            } else {
                let sigs2 = sigs.push(sig);
                if fc.1.len() == 0 && ne.contains(fc.0) {
                    scan_syms(tr, si + 1, sigs2, ne, calls)
                } else if fc.1.len() > 0 {
                    let ne2 = if ne.contains(fc.0) {
                        ne
                    } else {
                        ne.push(fc.0)
                    };
                    scan_syms(tr, si + 1, sigs2, ne2, calls.push(fc))
                } else {
                    scan_syms(tr, si + 1, sigs2, ne, calls.push(fc))
                }
            }
        } else {
            scan_syms(tr, si + 1, sigs, ne, calls)
        }
    } else {
        (sigs, ne, calls)
    }
}

/// A sorted, duplicate-free insertion, as an ordered set keeps its keys.
pub open spec fn insert_sorted(s: Seq<Seq<char>>, x: Seq<char>) -> Seq<Seq<char>>
    decreases s.len(),
{
    if s.len() == 0 {
        seq![x]
    } else if x == s[0] {
        s
    } else if lex_lt(x, s[0]) {
        seq![x] + s
    } else {
        seq![s[0]] + insert_sorted(s.drop_first(), x)
    }
}

proof fn lemma_lex_lt_irrefl(a: Seq<char>)
    ensures
        !lex_lt(a, a),
    decreases a.len(),
{
    if a.len() > 0 {
        lemma_lex_lt_irrefl(a.drop_first());
    }
}

proof fn lemma_lex_lt_asym(a: Seq<char>, b: Seq<char>)
    ensures
        !(lex_lt(a, b) && lex_lt(b, a)),
    decreases a.len(),
{
    if a.len() > 0 && b.len() > 0 && a[0] == b[0] {
        lemma_lex_lt_asym(a.drop_first(), b.drop_first());
    }
}

proof fn lemma_lex_lt_total(a: Seq<char>, b: Seq<char>)
    ensures
        a == b || lex_lt(a, b) || lex_lt(b, a),
    decreases a.len(),
{
    if a.len() > 0 && b.len() > 0 {
        if a[0] == b[0] {
            lemma_lex_lt_total(a.drop_first(), b.drop_first());
            if a.drop_first() == b.drop_first() {
                assert(a.drop_first().len() == a.len() - 1);
                assert(b.drop_first().len() == b.len() - 1);
                assert(a.len() == b.len());
                assert forall|i: int| 0 <= i < a.len() implies a[i] == b[i] by {
                    if i >= 1 {
                        assert(a[i] == a.drop_first()[i - 1]);
                        assert(b[i] == b.drop_first()[i - 1]);
                    }
                }
                assert(a =~= b);
            }
        } else {
            assert(a[0] as int != b[0] as int) by {
                if a[0] as int == b[0] as int {
                    assert(a[0] == b[0]);
                }
            }
        }
    } else if a.len() == 0 && b.len() == 0 {
        assert(a =~= b);
    }
}

/// Inserts `x` into the sorted, duplicate-free library list.
fn insert_lib(libs: &mut Vec<String>, x: String)
    ensures
        str_views(final(libs)@) == insert_sorted(str_views(old(libs)@), x@),
{
    let mut i: usize = 0;
    proof {
        assert(str_views(libs@).skip(0) =~= str_views(libs@));
        assert(str_views(libs@).take(0) + insert_sorted(str_views(libs@), x@) =~= insert_sorted(
            str_views(libs@),
            x@,
        ));
    }
    while i < libs.len() && str_lt(libs[i].as_str(), x.as_str())
        invariant
            0 <= i <= libs@.len(),
            forall|k: int| 0 <= k < i ==> lex_lt(str_views(libs@)[k], x@),
            insert_sorted(str_views(libs@), x@) == str_views(libs@).take(i as int) + insert_sorted(
                str_views(libs@).skip(i as int),
                x@,
            ),
        decreases libs@.len() - i,
    {
        proof {
            let v = str_views(libs@);
            lemma_lex_lt_irrefl(x@);
            lemma_lex_lt_asym(v[i as int], x@);
            assert(v.skip(i as int)[0] == v[i as int]);
            assert(v.skip(i as int).drop_first() =~= v.skip(i + 1 as int));
            assert(v.take(i as int).push(v[i as int]) =~= v.take(i + 1 as int));
            assert(v.take(i as int) + (seq![v[i as int]] + insert_sorted(
                v.skip(i + 1 as int),
                x@,
            )) =~= v.take(i + 1 as int) + insert_sorted(v.skip(i + 1 as int), x@));
        }
        i = i + 1;
    }
    let ghost v = str_views(libs@);
    if i < libs.len() && str_eq(libs[i].as_str(), x.as_str()) {
        proof {
            assert(v.skip(i as int)[0] == v[i as int]);
            assert(insert_sorted(v.skip(i as int), x@) == v.skip(i as int));
            assert(v.take(i as int) + v.skip(i as int) =~= v);
        }
        return ;
    }
    proof {
        if i < libs@.len() {
            let s0 = v[i as int];
            lemma_lex_lt_total(x@, s0);
            assert(v.skip(i as int)[0] == s0);
            assert(insert_sorted(v.skip(i as int), x@) == seq![x@] + v.skip(i as int));
        } else {
            assert(v.skip(i as int).len() == 0);
            assert(insert_sorted(v.skip(i as int), x@) =~= seq![x@]);
        }
    }
    libs.insert(i, x);
    proof {
        assert(str_views(libs@) =~= v.take(i as int) + (seq![x@] + v.skip(i as int)));
    }
}

/// The whole scan from line `li` on: blank lines and the fixture-header
/// marker are skipped; a line naming a foreign shared library is ignored;
/// one naming a host shared library is recorded as an unresolved-library
/// diagnostic; every other line is matched against every known symbol.
pub open spec fn scan_lines(
    lines: Seq<Seq<char>>,
    li: int,
    sigs: Seq<Seq<char>>,
    ne: Seq<Seq<char>>,
    calls: Seq<CallView>,
    libs: Seq<Seq<char>>,
) -> (Seq<CallView>, Seq<Seq<char>>)
    decreases lines.len() - li,
{
    if 0 <= li < lines.len() {
        let tr = trim_spec(lines[li]);
        if tr.len() == 0 || lower_spec(tr) == "mzfake"@ {
            scan_lines(lines, li + 1, sigs, ne, calls, libs)
        } else {
            let low = lower_spec(tr);
            if is_suffix_of(".dll"@, low) {
                scan_lines(lines, li + 1, sigs, ne, calls, libs)
            } else if is_suffix_of(".so"@, low) {
                scan_lines(lines, li + 1, sigs, ne, calls, insert_sorted(libs, low))
            } else {
                let st = scan_syms(tr, 0, sigs, ne, calls);
                scan_lines(lines, li + 1, st.0, st.1, st.2, libs)
            }
        }
    } else {
        (calls, libs)
    }
}

/// What the heuristic scanner produces for these bytes.
pub open spec fn fixture_spec(b: Seq<u8>) -> (Seq<CallView>, Seq<Seq<char>>) {
    scan_lines(
        lines_spec(utf8_lossy_of(b)),
        0,
        Seq::empty(),
        Seq::empty(),
        Seq::empty(),
        Seq::empty(),
    )
}

/// Scans the bytes as text for known-symbol mentions, deduplicated in
/// scan order under the "richer signature wins" rule, and collects
/// unresolved host libraries in sorted order.
pub fn parse_synthetic_fixture(bytes: &[u8]) -> (r: Analysis)
    ensures
        call_views(r.winapi_calls@) == fixture_spec(bytes@).0,
        str_views(r.non_windows_libs@) == fixture_spec(bytes@).1,
        forall|k: int| 0 <= k < r.winapi_calls@.len() ==> r.winapi_calls@[k].backtrace@.len() == 0,
{
    let text = lossy_string(bytes);
    let lines = lines_of(text.as_str());
    let syms = crate::supported_symbols();
    let mut calls: Vec<TracedCall> = Vec::new();
    let mut libs: Vec<String> = Vec::new();
    let mut sigs: Vec<String> = Vec::new();
    let mut nonempty: Vec<String> = Vec::new();
    let ghost lview = lines_spec(utf8_lossy_of(bytes@));
    let mut li: usize = 0;
    proof {
        assert(call_views(calls@) =~= Seq::<CallView>::empty());
        assert(str_views(libs@) =~= Seq::<Seq<char>>::empty());
        assert(str_views(sigs@) =~= Seq::<Seq<char>>::empty());
        assert(str_views(nonempty@) =~= Seq::<Seq<char>>::empty());
    }
    while li < lines.len()
        invariant
            lines@.len() == lview.len(),
            forall|k: int| 0 <= k < lview.len() ==> lines@[k]@ == lview[k],
            syms@.len() == all_symbol_names().len(),
            forall|k: int| 0 <= k < syms@.len() ==> syms@[k]@ == all_symbol_names()[k],
            0 <= li <= lview.len(),
            forall|k: int|
                0 <= k < calls@.len() ==> #[trigger] calls@[k].backtrace@.len() == 0,
            fixture_spec(bytes@) == scan_lines(
                lview,
                li as int,
                str_views(sigs@),
                str_views(nonempty@),
                call_views(calls@),
                str_views(libs@),
            ),
        decreases lview.len() - li,
    {
        let line = &lines[li];
        let tr = trim_str(line.as_str());
        let trlen = tr.unicode_len();
        let low = lower_str(tr);
        if trlen == 0 || str_eq(low.as_str(), "mzfake") {
            li = li + 1;
            continue ;
        }
        if ends_with_str(low.as_str(), ".dll") {
            li = li + 1;
            continue ;
        }
        if ends_with_str(low.as_str(), ".so") {
            insert_lib(&mut libs, low);
            li = li + 1;
            continue ;
        }
        let ghost s0 = str_views(sigs@);
        let ghost n0 = str_views(nonempty@);
        let ghost c0 = call_views(calls@);
        let ghost l0 = str_views(libs@);
        let mut si: usize = 0;
        while si < syms.len()
            invariant
                syms@.len() == all_symbol_names().len(),
                forall|k: int| 0 <= k < syms@.len() ==> syms@[k]@ == all_symbol_names()[k],
                0 <= si <= syms@.len(),
                tr@ == trim_spec(lview[li as int]),
                low@ == lower_spec(trim_spec(lview[li as int])),
                0 <= li < lview.len(),
                str_views(libs@) == l0,
                fixture_spec(bytes@) == scan_lines(lview, li as int, s0, n0, c0, l0),
                forall|k: int|
                    0 <= k < calls@.len() ==> #[trigger] calls@[k].backtrace@.len() == 0,
                scan_syms(trim_spec(lview[li as int]), 0, s0, n0, c0) == scan_syms(
                    trim_spec(lview[li as int]),
                    si as int,
                    str_views(sigs@),
                    str_views(nonempty@),
                    call_views(calls@),
                ),
            decreases syms@.len() - si,
        {
            let ghost bs = str_views(sigs@);
            let ghost bn = str_views(nonempty@);
            let ghost bc = call_views(calls@);
            let sym = syms[si];
            let low_sym = lower_str(sym);
            if contains_str(low.as_str(), low_sym.as_str()) {
                let call = parse_symbol_call_case_insensitive(tr, sym);
                let mut sig = String::new();
                sig.append(call.function.as_str());
                sig.append("(");
                let joined = crate::text::join_strings(call.args.as_slice(), ",");
                proof {
                    crate::text::lemma_join_views(call.args@, ","@);
                }
                sig.append(joined.as_str());
                sig.append(")");
                proof {
                    assert(sig@ == sig_of(call.function@, str_views(call.args@)));
                }
                if !vec_contains_str(&sigs, sig.as_str()) {
                    let ghost psigs = sigs@;
                    sigs.push(sig);
                    proof {
                        assert(str_views(sigs@) =~= str_views(psigs).push(
                            sigs@.last()@,
                        ));
                    }
                    let suppressed = call.args.len() == 0 && vec_contains_str(
                        &nonempty,
                        call.function.as_str(),
                    );
                    if !suppressed {
                        if call.args.len() > 0 && !vec_contains_str(
                            &nonempty,
                            call.function.as_str(),
                        ) {
                            let ghost pne = nonempty@;
                            nonempty.push(call.function.clone());
                            proof {
                                assert(str_views(nonempty@) =~= str_views(pne).push(
                                    nonempty@.last()@,
                                ));
                            }
                        }
                        let ghost pcalls = calls@;
                        calls.push(call);
                        proof {
                            assert(call_views(calls@) =~= call_views(pcalls).push(
                                (calls@.last().function@, str_views(calls@.last().args@)),
                            ));
                        }
                    }
                }
            }
            proof {
                assert(scan_syms(trim_spec(lview[li as int]), si as int, bs, bn, bc) == scan_syms(
                    trim_spec(lview[li as int]),
                    si + 1 as int,
                    str_views(sigs@),
                    str_views(nonempty@),
                    call_views(calls@),
                ));
            }
            si = si + 1;
        }
        li = li + 1;
    }
    proof {
        assert(fixture_spec(bytes@) == (call_views(calls@), str_views(libs@)));
    }
    Analysis { winapi_calls: calls, non_windows_libs: libs }
}

} // verus!
