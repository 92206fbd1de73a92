//! Validation and repair of tool-call / tool-result pairing.
//!
//! Vendor APIs reject histories in which a tool result answers no declared
//! call, or a declared call has no result.  The repair pass drops orphaned or
//! duplicate tool results and injects a synthetic failure result for every
//! call left unanswered, so a turn is never blocked by a missing pairing.

use vstd::prelude::*;
use crate::types::{
    clone_message, string_is, AgentMessage, ContentModel, MessageContent, MsgModel, ToolCallModel,
};

verus! {

/// The message declares tool calls (an assistant message).
pub open spec fn is_assistant(m: MsgModel) -> bool {
    m.role == "assistant"@
}

/// The message is a tool-result message.
pub open spec fn is_tool_msg(m: MsgModel) -> bool {
    m.role == "tool"@
}

/// The call ids one message declares, in declaration order.
pub open spec fn msg_declared_ids(m: MsgModel) -> Seq<Seq<char>> {
    if is_assistant(m) {
        match m.tool_calls {
            Some(tcs) => tcs.map_values(|t: ToolCallModel| t.id),
            None => Seq::<Seq<char>>::empty(),
        }
    } else {
        Seq::<Seq<char>>::empty()
    }
}

/// Every call id a history declares, in declaration order.
pub open spec fn declared_ids(h: Seq<MsgModel>) -> Seq<Seq<char>>
    decreases h.len(),
{
    if h.len() == 0 {
        Seq::<Seq<char>>::empty()
    } else {
        declared_ids(h.drop_last()) + msg_declared_ids(h.last())
    }
}

/// The message is a tool result answering `id`.
pub open spec fn is_result_for(m: MsgModel, id: Seq<char>) -> bool {
    is_tool_msg(m) && m.tool_call_id == Some(id)
}

/// How many results for `id` a history holds.
pub open spec fn result_count(h: Seq<MsgModel>, id: Seq<char>) -> nat
    decreases h.len(),
{
    if h.len() == 0 {
        0
    } else {
        result_count(h.drop_last(), id) + (if is_result_for(h.last(), id) {
            1nat
        } else {
            0nat
        })
    }
}

/// State of the scan: messages kept so far, ids declared so far, ids already
/// answered by a kept result.
pub struct ScanState {
    pub kept: Seq<MsgModel>,
    pub declared: Seq<Seq<char>>,
    pub answered: Set<Seq<char>>,
}

/// The scan state before any message.
pub open spec fn scan_init() -> ScanState {
    ScanState {
        kept: Seq::<MsgModel>::empty(),
        declared: Seq::<Seq<char>>::empty(),
        answered: Set::<Seq<char>>::empty(),
    }
}

/// One scan step.  An assistant message is kept and its call ids recorded; a
/// tool result is kept exactly when it answers a declared, not yet answered
/// call; every other message is kept verbatim.
pub open spec fn scan_step(st: ScanState, m: MsgModel) -> ScanState {
    if is_assistant(m) {
        ScanState {
            kept: st.kept.push(m),
            declared: st.declared + msg_declared_ids(m),
            answered: st.answered,
        }
    } else if is_tool_msg(m) {
        match m.tool_call_id {
            Some(id) => {
                if st.declared.contains(id) && !st.answered.contains(id) {
                    ScanState {
                        kept: st.kept.push(m),
                        declared: st.declared,
                        answered: st.answered.insert(id),
                    }
                } else {
                    st
                }
            },
            None => st,
        }
    } else {
        ScanState { kept: st.kept.push(m), declared: st.declared, answered: st.answered }
    }
}

/// The scan over a whole history.
pub open spec fn scan(h: Seq<MsgModel>) -> ScanState
    decreases h.len(),
{
    if h.len() == 0 {
        scan_init()
    } else {
        scan_step(scan(h.drop_last()), h.last())
    }
}

/// The synthetic failure result injected for an unanswered call.
pub open spec fn synthetic_result(id: Seq<char>, ts: Seq<char>) -> MsgModel {
    MsgModel {
        role: "tool"@,
        content: ContentModel::Text("execution timed out or failed"@),
        timestamp: ts,
        tool_calls: None,
        tool_call_id: Some(id),
        reasoning_content: None,
    }
}

/// Synthetic results for the declared ids not answered, in declaration order.
pub open spec fn synth_tail(d: Seq<Seq<char>>, a: Set<Seq<char>>, ts: Seq<char>) -> Seq<MsgModel>
    decreases d.len(),
{
    if d.len() == 0 {
        Seq::<MsgModel>::empty()
    } else if a.contains(d[0]) {
        synth_tail(d.skip(1), a, ts)
    } else {
        seq![synthetic_result(d[0], ts)] + synth_tail(d.skip(1), a, ts)
    }
}

/// The repaired history: the kept messages followed by a synthetic failure
/// result for every declared call left unanswered.
pub open spec fn repaired(h: Seq<MsgModel>, ts: Seq<char>) -> Seq<MsgModel> {
    scan(h).kept + synth_tail(scan(h).declared, scan(h).answered, ts)
}

/// The role literals of the model are pairwise distinct.
proof fn lemma_role_literals()
    ensures
        "assistant"@ != "tool"@,
{
    reveal_strlit("assistant");
    reveal_strlit("tool");
    assert("assistant"@.len() == 9);
    assert("tool"@.len() == 4);
}

/// Declared ids distribute over concatenation.
proof fn lemma_declared_concat(x: Seq<MsgModel>, y: Seq<MsgModel>)
    ensures
        declared_ids(x + y) == declared_ids(x) + declared_ids(y),
    decreases y.len(),
{
    if y.len() == 0 {
        assert(x + y =~= x);
        assert(declared_ids(x) + declared_ids(y) =~= declared_ids(x));
    } else {
        lemma_declared_concat(x, y.drop_last());
        assert((x + y).drop_last() =~= x + y.drop_last());
        assert((x + y).last() == y.last());
        assert(declared_ids(x) + declared_ids(y.drop_last()) + msg_declared_ids(y.last())
            =~= declared_ids(x) + (declared_ids(y.drop_last()) + msg_declared_ids(y.last())));
    }
}

/// Result counts distribute over concatenation.
proof fn lemma_count_concat(x: Seq<MsgModel>, y: Seq<MsgModel>, id: Seq<char>)
    ensures
        result_count(x + y, id) == result_count(x, id) + result_count(y, id),
    decreases y.len(),
{
    if y.len() == 0 {
        assert(x + y =~= x);
    } else {
        lemma_count_concat(x, y.drop_last(), id);
        assert((x + y).drop_last() =~= x + y.drop_last());
        assert((x + y).last() == y.last());
    }
}

/// Invariants of the scan: the declared ids are exactly the history's, the
/// kept messages declare the same ids in the same order, every answered id is
/// declared, and the kept messages hold exactly one result for each answered
/// id and none for any other.
proof fn lemma_scan_invariants(h: Seq<MsgModel>)
    ensures
        scan(h).declared == declared_ids(h),
        declared_ids(scan(h).kept) == declared_ids(h),
        forall|id: Seq<char>| scan(h).answered.contains(id) ==> scan(h).declared.contains(id),
        forall|id: Seq<char>|
            result_count(scan(h).kept, id) == (if scan(h).answered.contains(id) {
                1nat
            } else {
                0nat
            }),
    decreases h.len(),
{
    lemma_role_literals();
    if h.len() == 0 {
        assert forall|id: Seq<char>| result_count(scan(h).kept, id) == 0nat by {
            assert(scan(h).kept.len() == 0);
        }
    } else {
        lemma_scan_invariants(h.drop_last());
        let st = scan(h.drop_last());
        let m = h.last();
        let st2 = scan(h);
        assert(st2 == scan_step(st, m));
        assert forall|id: Seq<char>| st2.answered.contains(id) implies st2.declared.contains(
            id) by {
            if st.answered.contains(id) {
                assert(st.declared.contains(id));
                let i = choose|i: int| 0 <= i < st.declared.len() && st.declared[i] == id;
                assert(st2.declared.len() >= st.declared.len());
                if is_assistant(m) {
                    assert((st.declared + msg_declared_ids(m))[i] == id);
                }
                assert(st2.declared.contains(id));
            } else {
                if is_tool_msg(m) && !is_assistant(m) {
                    match m.tool_call_id {
                        Some(mid) => {
                            if st.declared.contains(mid) && !st.answered.contains(mid) {
                                assert(id == mid);
                            }
                        },
                        None => {},
                    }
                }
            }
        }
        if is_assistant(m) {
            assert(declared_ids(st.kept.push(m)) == declared_ids(st.kept) + msg_declared_ids(m))
                by {
                assert(st.kept.push(m).drop_last() =~= st.kept);
                assert(st.kept.push(m).last() == m);
            }
            assert forall|id: Seq<char>|
                result_count(st2.kept, id) == (if st2.answered.contains(id) {
                    1nat
                } else {
                    0nat
                }) by {
                assert(result_count(st.kept, id) == (if st.answered.contains(id) {
                    1nat
                } else {
                    0nat
                }));
                assert(st.kept.push(m).drop_last() =~= st.kept);
                assert(st.kept.push(m).last() == m);
                assert(result_count(st.kept.push(m), id) == result_count(st.kept, id));
                assert(!is_result_for(m, id));
            }
        } else if is_tool_msg(m) {
            match m.tool_call_id {
                Some(mid) => {
                    if st.declared.contains(mid) && !st.answered.contains(mid) {
                        assert(declared_ids(st.kept.push(m)) == declared_ids(st.kept)) by {
                            assert(st.kept.push(m).drop_last() =~= st.kept);
                            assert(st.kept.push(m).last() == m);
                            assert(msg_declared_ids(m) =~= Seq::<Seq<char>>::empty());
                            assert(declared_ids(st.kept) + Seq::<Seq<char>>::empty()
                                =~= declared_ids(st.kept));
                        }
                        assert(declared_ids(h) =~= declared_ids(h.drop_last())
                            + msg_declared_ids(m));
                        assert(declared_ids(h) =~= declared_ids(h.drop_last()));
                        assert forall|id: Seq<char>|
                            result_count(st2.kept, id) == (if st2.answered.contains(id) {
                                1nat
                            } else {
                                0nat
                            }) by {
                            assert(result_count(st.kept, id) == (if st.answered.contains(id) {
                                1nat
                            } else {
                                0nat
                            }));
                            assert(st.kept.push(m).drop_last() =~= st.kept);
                            assert(st.kept.push(m).last() == m);
                            if id == mid {
                                assert(is_result_for(m, id));
                                assert(result_count(st.kept.push(m), id) == result_count(
                                    st.kept, id) + 1nat);
                            } else {
                                assert(!is_result_for(m, id));
                                assert(result_count(st.kept.push(m), id) == result_count(
                                    st.kept, id));
                                assert(st2.answered.contains(id) == st.answered.contains(id));
                            }
                        }
                    } else {
                        assert(declared_ids(h) =~= declared_ids(h.drop_last()));
                    }
                },
                None => {
                    assert(declared_ids(h) =~= declared_ids(h.drop_last()));
                },
            }
        } else {
            assert(declared_ids(st.kept.push(m)) == declared_ids(st.kept)) by {
                assert(st.kept.push(m).drop_last() =~= st.kept);
                assert(st.kept.push(m).last() == m);
                assert(msg_declared_ids(m) =~= Seq::<Seq<char>>::empty());
                assert(declared_ids(st.kept) + Seq::<Seq<char>>::empty()
                    =~= declared_ids(st.kept));
            }
            assert(declared_ids(h) =~= declared_ids(h.drop_last()));
            assert forall|id: Seq<char>|
                result_count(st2.kept, id) == (if st2.answered.contains(id) {
                    1nat
                } else {
                    0nat
                }) by {
                assert(result_count(st.kept, id) == (if st.answered.contains(id) {
                    1nat
                } else {
                    0nat
                }));
                assert(st.kept.push(m).drop_last() =~= st.kept);
                assert(st.kept.push(m).last() == m);
                assert(result_count(st.kept.push(m), id) == result_count(st.kept, id));
                assert(!is_result_for(m, id));
            }
        }
    }
}

/// Membership in a sequence tail.
proof fn lemma_contains_skip(d: Seq<Seq<char>>, id: Seq<char>)
    requires
        d.len() > 0,
    ensures
        d.contains(id) == (id == d[0] || d.skip(1).contains(id)),
{
    if d.contains(id) {
        let i = choose|i: int| 0 <= i < d.len() && d[i] == id;
        if i > 0 {
            assert(d.skip(1)[i - 1] == id);
        }
    }
    if d.skip(1).contains(id) {
        let i = choose|i: int| 0 <= i < d.skip(1).len() && d.skip(1)[i] == id;
        assert(d[i + 1] == id);
    }
    if id == d[0] {
        assert(d.contains(id));
    }
}

/// The synthetic tail declares nothing and holds exactly one result for each
/// declared id left unanswered, and none for any other id.
proof fn lemma_synth_tail(d: Seq<Seq<char>>, a: Set<Seq<char>>, ts: Seq<char>, id: Seq<char>)
    requires
        d.no_duplicates(),
    ensures
        result_count(synth_tail(d, a, ts), id) == (if d.contains(id) && !a.contains(id) {
            1nat
        } else {
            0nat
        }),
        declared_ids(synth_tail(d, a, ts)) == Seq::<Seq<char>>::empty(),
    decreases d.len(),
{
    lemma_role_literals();
    if d.len() == 0 {
        assert(!d.contains(id));
        assert(declared_ids(synth_tail(d, a, ts)) =~= Seq::<Seq<char>>::empty());
    } else {
        assert(d.skip(1).no_duplicates()) by {
            assert(forall|i: int, j: int|
                0 <= i < d.skip(1).len() && 0 <= j < d.skip(1).len() && i != j
                    ==> d.skip(1)[i] == d[i + 1] && d.skip(1)[j] == d[j + 1]);
        }
        lemma_synth_tail(d.skip(1), a, ts, id);
        lemma_contains_skip(d, id);
        assert(!d.skip(1).contains(d[0])) by {
            if d.skip(1).contains(d[0]) {
                let i = choose|i: int| 0 <= i < d.skip(1).len() && d.skip(1)[i] == d[0];
                assert(d[i + 1] == d[0]);
            }
        }
        if a.contains(d[0]) {
            if id == d[0] {
                assert(a.contains(id));
            }
        } else {
            let s = seq![synthetic_result(d[0], ts)];
            let rest = synth_tail(d.skip(1), a, ts);
            lemma_count_concat(s, rest, id);
            lemma_declared_concat(s, rest);
            assert(result_count(s, id) == (if is_result_for(synthetic_result(d[0], ts), id) {
                1nat
            } else {
                0nat
            })) by {
                assert(s.len() == 1);
                assert(s.drop_last() =~= Seq::<MsgModel>::empty());
                assert(s.last() == synthetic_result(d[0], ts));
                assert(result_count(Seq::<MsgModel>::empty(), id) == 0nat);
                assert(result_count(s.drop_last(), id) == 0nat);
            }
            assert(is_result_for(synthetic_result(d[0], ts), id) == (id == d[0]));
            assert(declared_ids(s) =~= Seq::<Seq<char>>::empty()) by {
                lemma_role_literals();
                assert(s.len() == 1);
                assert(s.drop_last() =~= Seq::<MsgModel>::empty());
                assert(s.last() == synthetic_result(d[0], ts));
                assert(declared_ids(Seq::<MsgModel>::empty()) =~= Seq::<Seq<char>>::empty());
                assert(declared_ids(s.drop_last()) =~= Seq::<Seq<char>>::empty());
                assert(msg_declared_ids(synthetic_result(d[0], ts))
                    =~= Seq::<Seq<char>>::empty());
            }
            assert(declared_ids(synth_tail(d, a, ts)) =~= Seq::<Seq<char>>::empty());
            if id == d[0] {
                assert(!d.skip(1).contains(id));
                assert(result_count(synth_tail(d, a, ts), id) == 1nat);
            }
        }
    }
}

/// For every history whose declared call ids are distinct (they are
/// vendor-unique within a turn), the repaired history declares the same call
/// ids in the same order, holds exactly one matching result for every
/// declared call, and holds no result for any undeclared id.
pub proof fn lemma_repair_exact_pairing(h: Seq<MsgModel>, ts: Seq<char>)
    requires
        declared_ids(h).no_duplicates(),
    ensures
        declared_ids(repaired(h, ts)) == declared_ids(h),
        forall|id: Seq<char>|
            declared_ids(h).contains(id) ==> result_count(repaired(h, ts), id) == 1,
        forall|id: Seq<char>|
            !declared_ids(h).contains(id) ==> result_count(repaired(h, ts), id) == 0,
{
    lemma_scan_invariants(h);
    let st = scan(h);
    let tail = synth_tail(st.declared, st.answered, ts);
    lemma_declared_concat(st.kept, tail);
    lemma_synth_tail(st.declared, st.answered, ts, Seq::<char>::empty());
    assert(declared_ids(repaired(h, ts)) =~= declared_ids(h) + Seq::<Seq<char>>::empty());
    assert(declared_ids(h) + Seq::<Seq<char>>::empty() =~= declared_ids(h));
    assert forall|id: Seq<char>|
        declared_ids(h).contains(id) implies result_count(repaired(h, ts), id) == 1 by {
        lemma_count_concat(st.kept, tail, id);
        lemma_synth_tail(st.declared, st.answered, ts, id);
    }
    assert forall|id: Seq<char>|
        !declared_ids(h).contains(id) implies result_count(repaired(h, ts), id) == 0 by {
        lemma_count_concat(st.kept, tail, id);
        lemma_synth_tail(st.declared, st.answered, ts, id);
    }
}

/// Whether a string list holds this string, by view.
fn contains_string(v: &Vec<String>, s: &String) -> (r: bool)
    ensures
        r == v@.map_values(|x: String| x@).contains(s@),
{
    let ghost sv = v@.map_values(|x: String| x@);
    let n = v.len();
    let mut k: usize = 0;
    while k < n
        invariant
            k <= n,
            n == v@.len(),
            sv == v@.map_values(|x: String| x@),
            forall|j: int| 0 <= j < k ==> sv[j] != s@,
        decreases n - k,
    {
        if string_is(&v[k], s.as_str()) {
            proof {
                assert(sv[k as int] == s@);
            }
            return true;
        }
        k = k + 1;
    }
    proof {
        if sv.contains(s@) {
            let i = choose|i: int| 0 <= i < sv.len() && sv[i] == s@;
            assert(sv[i] != s@);
        }
    }
    false
}

/// Validates and repairs the tool pairing of a history: orphaned or duplicate
/// tool results are dropped, and every declared call left unanswered gains a
/// synthetic failure result stamped with the fallback timestamp, appended in
/// declaration order.
pub fn repair_history(history: &Vec<AgentMessage>, fallback_timestamp: &String) -> (r: Vec<
    AgentMessage,
>)
    ensures
        r@.map_values(|m: AgentMessage| m@) == repaired(
            history@.map_values(|m: AgentMessage| m@),
            fallback_timestamp@,
        ),
{
    let ghost hm = history@.map_values(|m: AgentMessage| m@);
    let mut kept: Vec<AgentMessage> = Vec::new();
    let mut declared: Vec<String> = Vec::new();
    let mut answered: Vec<String> = Vec::new();
    let ghost mut ans: Set<Seq<char>> = Set::<Seq<char>>::empty();
    let n = history.len();
    let mut k: usize = 0;
    proof {
        assert(hm.take(0) =~= Seq::<MsgModel>::empty());
        assert(kept@.map_values(|m: AgentMessage| m@) =~= scan(hm.take(0)).kept);
        assert(declared@.map_values(|x: String| x@) =~= scan(hm.take(0)).declared);
    }
    while k < n
        invariant
            k <= n,
            n == history@.len(),
            hm == history@.map_values(|m: AgentMessage| m@),
            kept@.map_values(|m: AgentMessage| m@) == scan(hm.take(k as int)).kept,
            declared@.map_values(|x: String| x@) == scan(hm.take(k as int)).declared,
            ans == scan(hm.take(k as int)).answered,
            forall|id: Seq<char>|
                #[trigger] ans.contains(id) == answered@.map_values(|x: String| x@).contains(id),
        decreases n - k,
    {
        let ghost st = scan(hm.take(k as int));
        let m = &history[k];
        proof {
            assert(hm.take(k + 1).drop_last() =~= hm.take(k as int));
            assert(hm.take(k + 1).last() == hm[k as int]);
            assert(hm[k as int] == m@);
        }
        if string_is(&m.role, "assistant") {
            if let Some(tcs) = &m.tool_calls {
                let tn = tcs.len();
                let mut j: usize = 0;
                proof {
                    assert(msg_declared_ids(m@) == tcs@.map_values(
                        |t: crate::types::ToolCall| t@).map_values(|t: ToolCallModel| t.id));
                    assert(st.declared + msg_declared_ids(m@).take(0) =~= st.declared);
                }
                while j < tn
                    invariant
                        j <= tn,
                        tn == tcs@.len(),
                        msg_declared_ids(m@) == tcs@.map_values(|t: crate::types::ToolCall| t@)
                            .map_values(|t: ToolCallModel| t.id),
                        declared@.map_values(|x: String| x@) == st.declared + msg_declared_ids(
                            m@).take(j as int),
                    decreases tn - j,
                {
                    let ghost dv0 = declared@.map_values(|x: String| x@);
                    declared.push(tcs[j].id.clone());
                    proof {
                        let dv = declared@.map_values(|x: String| x@);
                        assert(dv.drop_last() =~= dv0);
                        assert(dv[dv.len() - 1] == declared@[declared@.len() - 1]@);
                        assert(dv =~= dv0.push(tcs@[j as int].id@));
                        assert(msg_declared_ids(m@)[j as int] == tcs@[j as int]@.id);
                        assert(msg_declared_ids(m@).take(j + 1) =~= msg_declared_ids(m@).take(
                            j as int).push(tcs@[j as int]@.id));
                        assert(dv =~= st.declared + msg_declared_ids(m@).take(j + 1));
                    }
                    j = j + 1;
                }
                proof {
                    assert(msg_declared_ids(m@).take(tn as int) =~= msg_declared_ids(m@));
                }
            } else {
                proof {
                    assert(msg_declared_ids(m@) =~= Seq::<Seq<char>>::empty());
                    assert(st.declared + msg_declared_ids(m@) =~= st.declared);
                }
            }
            kept.push(clone_message(m));
            proof {
                assert(kept@.map_values(|x: AgentMessage| x@) =~= st.kept.push(m@));
                assert(scan(hm.take(k + 1)) == scan_step(st, m@));
            }
        } else if string_is(&m.role, "tool") {
            match &m.tool_call_id {
                Some(id) => {
                    let in_declared = contains_string(&declared, id);
                    let in_answered = contains_string(&answered, id);
                    if in_declared && !in_answered {
                        let ghost av0 = answered@.map_values(|x: String| x@);
                        let ghost ans0 = ans;
                        answered.push(id.clone());
                        kept.push(clone_message(m));
                        proof {
                            ans = ans.insert(id@);
                            assert(kept@.map_values(|x: AgentMessage| x@) =~= st.kept.push(m@));
                            assert(scan(hm.take(k + 1)) == scan_step(st, m@));
                            let av = answered@.map_values(|x: String| x@);
                            assert(av.drop_last() =~= av0);
                            assert(av[av.len() - 1] == answered@[answered@.len() - 1]@);
                            assert(av =~= av0.push(id@));
                            assert forall|q: Seq<char>| #[trigger] ans.contains(q)
                                == answered@.map_values(|x: String| x@).contains(q) by {
                                if q == id@ {
                                    assert(av[av.len() - 1] == id@);
                                    assert(av.contains(q));
                                } else {
                                    assert(ans.contains(q) == ans0.contains(q));
                                    assert(ans0.contains(q) == av0.contains(q));
                                    if av.contains(q) {
                                        let i = choose|i: int|
                                            0 <= i < av.len() && av[i] == q;
                                        assert(i < av.len() - 1);
                                        assert(av0[i] == q);
                                        assert(av0.contains(q));
                                    }
                                    if av0.contains(q) {
                                        let i = choose|i: int|
                                            0 <= i < av0.len() && av0[i] == q;
                                        assert(av[i] == q);
                                        assert(av.contains(q));
                                    }
                                }
                            }
                        }
                    } else {
                        proof {
                            assert(scan(hm.take(k + 1)) == scan_step(st, m@));
                            assert(scan(hm.take(k + 1)) == st);
                        }
                    }
                },
                None => {
                    proof {
                        assert(scan(hm.take(k + 1)) == scan_step(st, m@));
                        assert(scan(hm.take(k + 1)) == st);
                    }
                },
            }
        } else {
            kept.push(clone_message(m));
            proof {
                lemma_role_literals();
                assert(kept@.map_values(|x: AgentMessage| x@) =~= st.kept.push(m@));
                assert(scan(hm.take(k + 1)) == scan_step(st, m@));
            }
        }
        k = k + 1;
    }
    proof {
        assert(hm.take(n as int) =~= hm);
    }
    let ghost stf = scan(hm);
    let mut out = kept;
    let dn = declared.len();
    let mut i: usize = 0;
    proof {
        assert(stf.declared.skip(0) =~= stf.declared);
        assert(out@.map_values(|m: AgentMessage| m@) + synth_tail(stf.declared.skip(0),
            stf.answered, fallback_timestamp@) =~= stf.kept + synth_tail(stf.declared,
            stf.answered, fallback_timestamp@));
    }
    while i < dn
        invariant
            i <= dn,
            dn == declared@.len(),
            declared@.map_values(|x: String| x@) == stf.declared,
            ans == stf.answered,
            forall|id: Seq<char>|
                #[trigger] ans.contains(id) == answered@.map_values(|x: String| x@).contains(id),
            out@.map_values(|m: AgentMessage| m@) + synth_tail(stf.declared.skip(i as int),
                stf.answered, fallback_timestamp@) == repaired(hm, fallback_timestamp@),
        decreases dn - i,
    {
        let ghost d = stf.declared.skip(i as int);
        proof {
            assert(d.len() > 0);
            assert(d[0] == stf.declared[i as int]);
            assert(d[0] == declared@[i as int]@);
            assert(d.skip(1) =~= stf.declared.skip(i + 1));
        }
        let id = &declared[i];
        let in_answered = contains_string(&answered, id);
        if !in_answered {
            let synthetic = AgentMessage {
                role: String::from_str("tool"),
                content: MessageContent::Text(String::from_str("execution timed out or failed")),
                timestamp: fallback_timestamp.clone(),
                tool_calls: None,
                tool_call_id: Some(id.clone()),
                reasoning_content: None,
            };
            proof {
                assert(synthetic@ == synthetic_result(d[0], fallback_timestamp@));
            }
            out.push(synthetic);
            proof {
                assert(synth_tail(d, stf.answered, fallback_timestamp@) =~= seq![
                    synthetic_result(d[0], fallback_timestamp@)] + synth_tail(d.skip(1),
                    stf.answered, fallback_timestamp@));
                assert(out@.map_values(|m: AgentMessage| m@) + synth_tail(stf.declared.skip(
                    i + 1), stf.answered, fallback_timestamp@) =~= repaired(hm,
                    fallback_timestamp@));
            }
        } else {
            proof {
                assert(synth_tail(d, stf.answered, fallback_timestamp@) == synth_tail(d.skip(1),
                    stf.answered, fallback_timestamp@));
            }
        }
        i = i + 1;
    }
    proof {
        assert(stf.declared.skip(dn as int) =~= Seq::<Seq<char>>::empty());
        assert(synth_tail(stf.declared.skip(dn as int), stf.answered, fallback_timestamp@)
            =~= Seq::<MsgModel>::empty());
        assert(out@.map_values(|m: AgentMessage| m@) + Seq::<MsgModel>::empty()
            =~= out@.map_values(|m: AgentMessage| m@));
    }
    out
}

} // verus!
