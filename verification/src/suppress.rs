//! Sliding-window duplicate suppression for side-effecting commands.
//!
//! A bounded, age-evicted buffer records the text of recently successful
//! commands.  An identical command inside the window is short-circuited with
//! an explanatory notice and never redispatched; outside the window it runs
//! again.  The buffer evicts both by age and by a size cap.

use vstd::prelude::*;
use crate::types::string_is;

verus! {

/// Length of the suppression window, in milliseconds.
pub const DUPLICATE_WINDOW_MS: u64 = 30000;

/// Size cap of the record buffer.
pub const MAX_RECORDS: usize = 100;

/// One executed command: its text, execution instant and success flag.
#[derive(Debug, Clone)]
pub struct ExecutedCommandRecord {
    pub command: String,
    pub executed_at_ms: u64,
    pub success: bool,
}

/// Spec model of one record.
pub struct RecordModel {
    pub command: Seq<char>,
    pub executed_at_ms: u64,
    pub success: bool,
}

impl View for ExecutedCommandRecord {
    type V = RecordModel;

    open spec fn view(&self) -> RecordModel {
        RecordModel {
            command: self.command@,
            executed_at_ms: self.executed_at_ms,
            success: self.success,
        }
    }
}

/// The record is still inside the suppression window at `now`.
pub open spec fn in_window(at: u64, now: u64) -> bool {
    (now as int) < (at as int) + (DUPLICATE_WINDOW_MS as int)
}

/// The records still inside the window, in order.
pub open spec fn keep_recent(s: Seq<RecordModel>, now: u64) -> Seq<RecordModel>
    decreases s.len(),
{
    if s.len() == 0 {
        Seq::<RecordModel>::empty()
    } else {
        keep_recent(s.drop_last(), now) + (if in_window(s.last().executed_at_ms, now) {
            seq![s.last()]
        } else {
            Seq::<RecordModel>::empty()
        })
    }
}

/// The buffer holds a successful run of `cmd` still inside the window.
pub open spec fn has_recent_success(s: Seq<RecordModel>, cmd: Seq<char>, now: u64) -> bool {
    exists|i: int|
        0 <= i < s.len() && s[i].command == cmd && s[i].success && in_window(
            s[i].executed_at_ms,
            now,
        )
}

/// Age eviction keeps exactly the recent successes.
proof fn lemma_keep_recent_success(s: Seq<RecordModel>, cmd: Seq<char>, now: u64)
    ensures
        has_recent_success(keep_recent(s, now), cmd, now) == has_recent_success(s, cmd, now),
    decreases s.len(),
{
    if s.len() == 0 {
    } else {
        let front = s.drop_last();
        lemma_keep_recent_success(front, cmd, now);
        let kf = keep_recent(front, now);
        assert(forall|i: int| 0 <= i < front.len() ==> front[i] == s[i]);
        if in_window(s.last().executed_at_ms, now) {
            assert(keep_recent(s, now) =~= kf.push(s.last()));
            if has_recent_success(s, cmd, now) {
                let i = choose|i: int|
                    0 <= i < s.len() && s[i].command == cmd && s[i].success && in_window(
                        s[i].executed_at_ms,
                        now,
                    );
                if i < s.len() - 1 {
                    assert(front[i] == s[i]);
                    assert(has_recent_success(front, cmd, now));
                    let j = choose|j: int|
                        0 <= j < kf.len() && kf[j].command == cmd && kf[j].success && in_window(
                            kf[j].executed_at_ms,
                            now,
                        );
                    assert(keep_recent(s, now)[j] == kf[j]);
                    assert(has_recent_success(keep_recent(s, now), cmd, now));
                } else {
                    assert(keep_recent(s, now).last() == s.last());
                    assert(has_recent_success(keep_recent(s, now), cmd, now));
                }
            }
            if has_recent_success(keep_recent(s, now), cmd, now) {
                let j = choose|j: int|
                    0 <= j < keep_recent(s, now).len() && keep_recent(s, now)[j].command == cmd
                        && keep_recent(s, now)[j].success && in_window(
                        keep_recent(s, now)[j].executed_at_ms,
                        now,
                    );
                if j < kf.len() {
                    assert(kf[j] == keep_recent(s, now)[j]);
                    assert(has_recent_success(kf, cmd, now));
                    let i = choose|i: int|
                        0 <= i < front.len() && front[i].command == cmd && front[i].success
                            && in_window(front[i].executed_at_ms, now);
                    assert(s[i] == front[i]);
                    assert(has_recent_success(s, cmd, now));
                } else {
                    assert(keep_recent(s, now)[j] == s.last());
                    assert(s[s.len() - 1] == s.last());
                    assert(has_recent_success(s, cmd, now));
                }
            }
        } else {
            assert(keep_recent(s, now) =~= kf);
            if has_recent_success(s, cmd, now) {
                let i = choose|i: int|
                    0 <= i < s.len() && s[i].command == cmd && s[i].success && in_window(
                        s[i].executed_at_ms,
                        now,
                    );
                assert(i < s.len() - 1);
                assert(front[i] == s[i]);
                assert(has_recent_success(front, cmd, now));
            }
            if has_recent_success(kf, cmd, now) {
                let i = choose|i: int|
                    0 <= i < front.len() && front[i].command == cmd && front[i].success
                        && in_window(front[i].executed_at_ms, now);
                assert(s[i] == front[i]);
                assert(has_recent_success(s, cmd, now));
            }
        }
    }
}

/// The notice returned instead of redispatching a duplicate command.
pub open spec fn duplicate_notice() -> Seq<char> {
    "This exact command was already executed successfully within the last 30 seconds. Do NOT re-execute it. If you need to verify the result, use the term_get_scrollback tool to read the terminal output."@
}

/// The bounded, age-evicted record buffer.
#[derive(Debug)]
pub struct ExecutedLog {
    records: Vec<ExecutedCommandRecord>,
}

impl View for ExecutedLog {
    type V = Seq<RecordModel>;

    closed spec fn view(&self) -> Seq<RecordModel> {
        self.records@.map_values(|r: ExecutedCommandRecord| r@)
    }
}

impl ExecutedLog {
    /// An empty buffer.
    pub fn new() -> (r: Self)
        ensures
            r@ == Seq::<RecordModel>::empty(),
    {
        let r = ExecutedLog { records: Vec::new() };
        proof {
            assert(r@ =~= Seq::<RecordModel>::empty());
        }
        r
    }

    /// Evicts every record whose window has elapsed, then reports whether
    /// the same command text succeeded inside the window: `Some` carries the
    /// explanatory notice and the caller must short-circuit instead of
    /// dispatching; `None` means the command may be dispatched.
    pub fn check_duplicate_command(&mut self, command: &String, now_ms: u64) -> (r: Option<
        String,
    >)
        ensures
            final(self)@ == keep_recent(old(self)@, now_ms),
            r is Some <==> has_recent_success(old(self)@, command@, now_ms),
            match r {
                Some(msg) => msg@ == duplicate_notice(),
                None => true,
            },
    {
        let ghost s0 = self@;
        let mut kept: Vec<ExecutedCommandRecord> = Vec::new();
        let n = self.records.len();
        let mut k: usize = 0;
        proof {
            assert(s0.take(0) =~= Seq::<RecordModel>::empty());
            assert(kept@.map_values(|r: ExecutedCommandRecord| r@) =~= keep_recent(s0.take(0),
                now_ms));
        }
        while k < n
            invariant
                k <= n,
                n == self.records@.len(),
                s0 == self.records@.map_values(|r: ExecutedCommandRecord| r@),
                s0 == self@,
                kept@.map_values(|r: ExecutedCommandRecord| r@) == keep_recent(s0.take(k as int),
                    now_ms),
            decreases n - k,
        {
            let rec = &self.records[k];
            proof {
                assert(s0.take(k + 1).drop_last() =~= s0.take(k as int));
                assert(s0.take(k + 1).last() == s0[k as int]);
                assert(s0[k as int] == self.records@[k as int]@);
            }
            let recent = now_ms <= rec.executed_at_ms || now_ms - rec.executed_at_ms
                < DUPLICATE_WINDOW_MS;
            if recent {
                let ghost kv0 = kept@.map_values(|r: ExecutedCommandRecord| r@);
                kept.push(ExecutedCommandRecord {
                    command: rec.command.clone(),
                    executed_at_ms: rec.executed_at_ms,
                    success: rec.success,
                });
                proof {
                    let kv = kept@.map_values(|r: ExecutedCommandRecord| r@);
                    assert(kv.drop_last() =~= kv0);
                    assert(kv[kv.len() - 1] == kept@[kept@.len() - 1]@);
                    assert(in_window(s0[k as int].executed_at_ms, now_ms));
                    assert(kv =~= keep_recent(s0.take(k + 1), now_ms));
                }
            } else {
                proof {
                    assert(!in_window(s0[k as int].executed_at_ms, now_ms));
                    assert(keep_recent(s0.take(k as int), now_ms) + Seq::<RecordModel>::empty()
                        =~= keep_recent(s0.take(k as int), now_ms));
                }
            }
            k = k + 1;
        }
        proof {
            assert(s0.take(n as int) =~= s0);
        }
        self.records = kept;
        proof {
            assert(self@ == keep_recent(s0, now_ms));
        }
        let m = self.records.len();
        let mut j: usize = 0;
        let ghost sr = self@;
        while j < m
            invariant
                j <= m,
                m == self.records@.len(),
                sr == self.records@.map_values(|r: ExecutedCommandRecord| r@),
                sr == self@,
                s0 == old(self)@,
                sr == keep_recent(s0, now_ms),
                forall|i: int|
                    0 <= i < j ==> !(sr[i].command == command@ && sr[i].success),
            decreases m - j,
        {
            let rec = &self.records[j];
            if rec.success && string_is(&rec.command, command.as_str()) {
                proof {
                    assert(sr[j as int] == self.records@[j as int]@);
                    assert(sr[j as int].command == command@ && sr[j as int].success);
                    assert(in_window(sr[j as int].executed_at_ms, now_ms)) by {
                        lemma_keep_recent_in_window(s0, now_ms);
                    }
                    assert(has_recent_success(sr, command@, now_ms));
                    lemma_keep_recent_success(s0, command@, now_ms);
                }
                return Some(String::from_str(
                    "This exact command was already executed successfully within the last 30 seconds. Do NOT re-execute it. If you need to verify the result, use the term_get_scrollback tool to read the terminal output.",
                ));
            }
            proof {
                assert(sr[j as int] == self.records@[j as int]@);
            }
            j = j + 1;
        }
        proof {
            if has_recent_success(sr, command@, now_ms) {
                let i = choose|i: int|
                    0 <= i < sr.len() && sr[i].command == command@ && sr[i].success && in_window(
                        sr[i].executed_at_ms,
                        now_ms,
                    );
                assert(!(sr[i].command == command@ && sr[i].success));
            }
            lemma_keep_recent_success(s0, command@, now_ms);
        }
        None
    }

    /// Appends one execution record; when the buffer exceeds its cap the
    /// oldest record leaves.
    pub fn record_executed_command(&mut self, command: &String, success: bool, now_ms: u64)
        ensures
            final(self)@ == ({
                let p = old(self)@.push(RecordModel {
                    command: command@,
                    executed_at_ms: now_ms,
                    success: success,
                });
                if p.len() > MAX_RECORDS {
                    p.skip(1)
                } else {
                    p
                }
            }),
    {
        let ghost s0 = self@;
        self.records.push(ExecutedCommandRecord {
            command: command.clone(),
            executed_at_ms: now_ms,
            success,
        });
        proof {
            let sv = self.records@.map_values(|r: ExecutedCommandRecord| r@);
            assert(sv.drop_last() =~= s0);
            assert(sv[sv.len() - 1] == self.records@[self.records@.len() - 1]@);
            assert(sv =~= s0.push(RecordModel {
                command: command@,
                executed_at_ms: now_ms,
                success: success,
            }));
        }
        if self.records.len() > MAX_RECORDS {
            let ghost s1 = self@;
            self.records.remove(0);
            proof {
                assert(self.records@.map_values(|r: ExecutedCommandRecord| r@) =~= s1.skip(1));
            }
        }
    }

    /// Number of records held.
    pub fn record_count(&self) -> (r: usize)
        ensures
            r == self@.len(),
    {
        self.records.len()
    }
}

/// Every record kept by age eviction is inside the window.
proof fn lemma_keep_recent_in_window(s: Seq<RecordModel>, now: u64)
    ensures
        forall|i: int|
            0 <= i < keep_recent(s, now).len() ==> in_window(
                #[trigger] keep_recent(s, now)[i].executed_at_ms,
                now,
            ),
    decreases s.len(),
{
    if s.len() > 0 {
        lemma_keep_recent_in_window(s.drop_last(), now);
        let kf = keep_recent(s.drop_last(), now);
        assert forall|i: int|
            0 <= i < keep_recent(s, now).len() implies in_window(
            #[trigger] keep_recent(s, now)[i].executed_at_ms,
            now,
        ) by {
            if i < kf.len() {
                assert(keep_recent(s, now)[i] == kf[i]);
            } else {
                assert(in_window(s.last().executed_at_ms, now));
                assert(keep_recent(s, now)[i] == s.last());
            }
        }
    }
}

/// A successful run recorded at `t_run` suppresses the identical command at
/// every instant still inside the window; once the window has elapsed, and
/// no other recent success of the same text remains, the command is
/// dispatched again.
pub proof fn lemma_duplicate_suppression(
    s: Seq<RecordModel>,
    cmd: Seq<char>,
    t_run: u64,
    now: u64,
)
    ensures
        in_window(t_run, now) ==> has_recent_success(
            s.push(RecordModel { command: cmd, executed_at_ms: t_run, success: true }),
            cmd,
            now,
        ),
        (!in_window(t_run, now) && !has_recent_success(s, cmd, now)) ==> !has_recent_success(
            s.push(RecordModel { command: cmd, executed_at_ms: t_run, success: true }),
            cmd,
            now,
        ),
{
    let rec = RecordModel { command: cmd, executed_at_ms: t_run, success: true };
    let p = s.push(rec);
    if in_window(t_run, now) {
        assert(p[p.len() - 1] == rec);
        assert(has_recent_success(p, cmd, now));
    }
    if !in_window(t_run, now) && !has_recent_success(s, cmd, now) {
        if has_recent_success(p, cmd, now) {
            let i = choose|i: int|
                0 <= i < p.len() && p[i].command == cmd && p[i].success && in_window(
                    p[i].executed_at_ms,
                    now,
                );
            if i < s.len() {
                assert(p[i] == s[i]);
                assert(has_recent_success(s, cmd, now));
            } else {
                assert(p[i] == rec);
            }
        }
    }
}

} // verus!
