//! General-chat streaming shapes: the shell event stream, the send request,
//! the per-session stop flags and the chunking of a response for streaming.

use vstd::prelude::*;
use crate::types::string_is;

verus! {

/// One event of the general-chat stream.
#[derive(Debug, Clone)]
pub enum StreamEvent {
    /// Generation started for this message id.
    Start { message_id: String },
    /// One text increment.
    Delta { content: String },
    /// Generation finished with the full content.
    Done { message_id: String, content: String },
    /// Generation failed.
    Error { message: String },
}

/// A request to send one message on a session.
#[derive(Debug, Clone)]
pub struct SendMessageRequest {
    pub session_id: String,
    pub content: String,
    /// The event name the shell listens on.
    pub event_name: String,
    pub provider: Option<String>,
    pub model: Option<String>,
}

/// Per-session stop flags: a session is present while a generation runs,
/// and its flag turns true when a stop was requested.
#[derive(Debug)]
pub struct StopFlags {
    entries: Vec<(String, bool)>,
}

/// Position of the first entry with this key, -1 if none.
pub open spec fn flag_pos(s: Seq<(String, bool)>, key: Seq<char>) -> int
    decreases s.len(),
{
    if s.len() == 0 {
        -1
    } else if s[0].0@ == key {
        0
    } else if flag_pos(s.skip(1), key) < 0 {
        -1
    } else {
        flag_pos(s.skip(1), key) + 1
    }
}

/// `flag_pos` finds the first matching entry exactly.
proof fn lemma_flag_pos(s: Seq<(String, bool)>, key: Seq<char>)
    ensures
        flag_pos(s, key) < 0 ==> forall|j: int| 0 <= j < s.len() ==> s[j].0@ != key,
        flag_pos(s, key) >= 0 ==> flag_pos(s, key) < s.len() && s[flag_pos(s, key)].0@ == key,
        flag_pos(s, key) >= 0 ==> forall|j: int| 0 <= j < flag_pos(s, key) ==> s[j].0@ != key,
    decreases s.len(),
{
    if s.len() == 0 {
    } else if s[0].0@ == key {
    } else {
        lemma_flag_pos(s.skip(1), key);
        let tail = s.skip(1);
        assert(forall|j: int| 0 <= j < tail.len() ==> tail[j] == s[j + 1]);
        if flag_pos(tail, key) < 0 {
            assert forall|j: int| 0 <= j < s.len() implies s[j].0@ != key by {
                if j >= 1 {
                    assert(tail[j - 1].0@ != key);
                }
            }
        } else {
            let i = flag_pos(tail, key);
            assert(s[i + 1] == tail[i]);
            assert forall|j: int| 0 <= j < i + 1 implies s[j].0@ != key by {
                if j >= 1 {
                    assert(tail[j - 1].0@ != key);
                }
            }
        }
    }
}

/// The entries whose key differs from `key`, in order.
pub open spec fn without_key(s: Seq<(String, bool)>, key: Seq<char>) -> Seq<(String, bool)>
    decreases s.len(),
{
    if s.len() == 0 {
        Seq::<(String, bool)>::empty()
    } else {
        without_key(s.drop_last(), key) + (if s.last().0@ == key {
            Seq::<(String, bool)>::empty()
        } else {
            seq![s.last()]
        })
    }
}

/// No kept entry holds the removed key.
proof fn lemma_without_key(s: Seq<(String, bool)>, key: Seq<char>)
    ensures
        forall|j: int|
            0 <= j < without_key(s, key).len() ==> (#[trigger] without_key(s, key)[j]).0@
                != key,
    decreases s.len(),
{
    if s.len() > 0 {
        lemma_without_key(s.drop_last(), key);
        let front = without_key(s.drop_last(), key);
        assert forall|j: int|
            0 <= j < without_key(s, key).len() implies (#[trigger] without_key(s, key)[j]).0@
            != key by {
            if j < front.len() {
                assert(without_key(s, key)[j] == front[j]);
            } else {
                assert(s.last().0@ != key);
                assert(without_key(s, key)[j] == s.last());
            }
        }
    }
}

impl StopFlags {
    /// The entry list.
    pub closed spec fn entries_spec(&self) -> Seq<(String, bool)> {
        self.entries@
    }

    /// A session is tracked.
    pub open spec fn tracks(&self, key: Seq<char>) -> bool {
        flag_pos(self.entries_spec(), key) >= 0
    }

    /// No generation tracked.
    pub fn new() -> (r: Self)
        ensures
            r.entries_spec().len() == 0,
    {
        StopFlags { entries: Vec::new() }
    }

    /// Position of the first entry for this session.
    fn find(&self, session_id: &String) -> (r: Option<usize>)
        ensures
            match r {
                Some(i) => flag_pos(self.entries_spec(), session_id@) == i as int && i
                    < self.entries_spec().len(),
                None => flag_pos(self.entries_spec(), session_id@) < 0,
            },
    {
        let ghost es = self.entries@;
        let n = self.entries.len();
        let mut k: usize = 0;
        while k < n
            invariant
                k <= n,
                n == es.len(),
                es == self.entries@,
                forall|j: int| 0 <= j < k ==> es[j].0@ != session_id@,
            decreases n - k,
        {
            if string_is(&self.entries[k].0, session_id.as_str()) {
                proof {
                    lemma_flag_pos(es, session_id@);
                    let p = flag_pos(es, session_id@);
                    if p < 0 {
                        assert(es[k as int].0@ != session_id@);
                    } else if p < k as int {
                        assert(es[p].0@ != session_id@);
                        assert(es[p].0@ == session_id@);
                    } else if p > k as int {
                        assert(es[k as int].0@ != session_id@);
                    }
                }
                return Some(k);
            }
            k = k + 1;
        }
        proof {
            lemma_flag_pos(es, session_id@);
            if flag_pos(es, session_id@) >= 0 {
                assert(es[flag_pos(es, session_id@)].0@ == session_id@);
            }
        }
        None
    }

    /// Begins tracking a generation with the flag cleared; an existing
    /// entry is reset in place, every other entry stays as it was.
    pub fn begin(&mut self, session_id: &String)
        ensures
            final(self).tracks(session_id@),
            !final(self).entries_spec()[flag_pos(final(self).entries_spec(), session_id@)].1,
            old(self).tracks(session_id@) ==> ({
                let es0 = old(self).entries_spec();
                let i = flag_pos(es0, session_id@);
                final(self).entries_spec().len() == es0.len() && final(self).entries_spec()[
                    i].0@ == session_id@ && !final(self).entries_spec()[i].1 && (forall|j: int|
                    0 <= j < es0.len() && j != i ==> final(self).entries_spec()[j] == es0[j])
            }),
            !old(self).tracks(session_id@) ==> final(self).entries_spec().len() == old(
                self).entries_spec().len() + 1 && final(self).entries_spec().drop_last() == old(
                self).entries_spec() && final(self).entries_spec().last().0@ == session_id@
                && !final(self).entries_spec().last().1,
    {
        let found = self.find(session_id);
        let ghost es0 = self.entries@;
        match found {
            Some(i) => {
                let _ = self.entries.remove(i);
                let ghost s1 = self.entries@;
                self.entries.insert(i, (session_id.clone(), false));
                proof {
                    assert(flag_pos(es0, session_id@) == i as int);
                    lemma_flag_pos(es0, session_id@);
                    lemma_flag_pos(self.entries@, session_id@);
                    let p = flag_pos(self.entries@, session_id@);
                    assert(forall|j: int| 0 <= j < i ==> self.entries@[j] == es0[j]);
                    assert(self.entries@[i as int].0@ == session_id@);
                    if p < 0 {
                        assert(self.entries@[i as int].0@ != session_id@);
                    } else if p < i as int {
                        assert(es0[p].0@ != session_id@);
                        assert(self.entries@[p].0@ == session_id@);
                    } else if p > i as int {
                        assert(self.entries@[i as int].0@ != session_id@);
                    }
                    assert(p == i as int);
                    assert(!self.entries@[p].1);
                    assert forall|j: int|
                        0 <= j < es0.len() && j != i as int implies self.entries@[j]
                        == es0[j] by {
                        if j < i as int {
                            assert(self.entries@[j] == s1[j]);
                            assert(s1[j] == es0[j]);
                        } else {
                            assert(self.entries@[j] == s1[j - 1]);
                            assert(s1[j - 1] == es0[j]);
                        }
                    }
                }
            },
            None => {
                self.entries.push((session_id.clone(), false));
                proof {
                    lemma_flag_pos(es0, session_id@);
                    lemma_flag_pos(self.entries@, session_id@);
                    let p = flag_pos(self.entries@, session_id@);
                    let last = self.entries@.len() - 1;
                    assert(self.entries@.drop_last() =~= es0);
                    assert(forall|j: int| 0 <= j < last ==> self.entries@[j] == es0[j]);
                    assert(self.entries@[last].0@ == session_id@);
                    if p < 0 {
                        assert(self.entries@[last].0@ != session_id@);
                    } else if p < last {
                        assert(es0[p].0@ != session_id@);
                        assert(self.entries@[p].0@ == session_id@);
                    }
                    assert(p == last);
                    assert(!self.entries@[p].1);
                }
            },
        }
    }

    /// Whether a stop was requested for this session.
    pub fn should_stop(&self, session_id: &String) -> (r: bool)
        ensures
            r == (self.tracks(session_id@) && self.entries_spec()[flag_pos(
                self.entries_spec(),
                session_id@,
            )].1),
    {
        let found = self.find(session_id);
        match found {
            Some(i) => self.entries[i].1,
            None => false,
        }
    }

    /// Requests a stop: when the session is tracked its flag turns true in
    /// place and every other entry stays as it was; re-signalling is a
    /// harmless no-op, and an untracked session is left unchanged.
    pub fn stop_generation(&mut self, session_id: &String) -> (r: bool)
        ensures
            r == old(self).tracks(session_id@),
            !r ==> final(self).entries_spec() == old(self).entries_spec(),
            r ==> ({
                let es0 = old(self).entries_spec();
                let i = flag_pos(es0, session_id@);
                final(self).entries_spec().len() == es0.len() && final(self).entries_spec()[
                    i].0@ == session_id@ && final(self).entries_spec()[i].1 && (forall|j: int|
                    0 <= j < es0.len() && j != i ==> final(self).entries_spec()[j] == es0[j])
                    && final(self).tracks(session_id@) && final(self).entries_spec()[flag_pos(
                    final(self).entries_spec(),
                    session_id@,
                )].1
            }),
    {
        let found = self.find(session_id);
        let ghost es0 = self.entries@;
        match found {
            Some(i) => {
                let _ = self.entries.remove(i);
                let ghost s1 = self.entries@;
                self.entries.insert(i, (session_id.clone(), true));
                proof {
                    assert(flag_pos(es0, session_id@) == i as int);
                    lemma_flag_pos(es0, session_id@);
                    lemma_flag_pos(self.entries@, session_id@);
                    let p = flag_pos(self.entries@, session_id@);
                    assert(forall|j: int| 0 <= j < i ==> self.entries@[j] == es0[j]);
                    assert(self.entries@[i as int].0@ == session_id@);
                    if p < 0 {
                        assert(self.entries@[i as int].0@ != session_id@);
                    } else if p < i as int {
                        assert(es0[p].0@ != session_id@);
                        assert(self.entries@[p].0@ == session_id@);
                    } else if p > i as int {
                        assert(self.entries@[i as int].0@ != session_id@);
                    }
                    assert(p == i as int);
                    assert(self.entries@[p].1);
                    assert forall|j: int|
                        0 <= j < es0.len() && j != i as int implies self.entries@[j]
                        == es0[j] by {
                        if j < i as int {
                            assert(self.entries@[j] == s1[j]);
                            assert(s1[j] == es0[j]);
                        } else {
                            assert(self.entries@[j] == s1[j - 1]);
                            assert(s1[j - 1] == es0[j]);
                        }
                    }
                }
                true
            },
            None => false,
        }
    }

    /// Stops tracking a finished generation: every entry of the session
    /// leaves and every other entry stays, in order.
    pub fn finish(&mut self, session_id: &String)
        ensures
            final(self).entries_spec() == without_key(old(self).entries_spec(), session_id@),
            !final(self).tracks(session_id@),
    {
        let ghost es0 = self.entries@;
        let mut kept: Vec<(String, bool)> = Vec::new();
        let n = self.entries.len();
        let mut k: usize = 0;
        proof {
            assert(kept@ =~= without_key(es0.take(0), session_id@));
        }
        while k < n
            invariant
                k <= n,
                n == self.entries@.len(),
                es0 == self.entries@,
                kept@ == without_key(es0.take(k as int), session_id@),
            decreases n - k,
        {
            proof {
                assert(es0.take(k + 1).drop_last() =~= es0.take(k as int));
                assert(es0.take(k + 1).last() == es0[k as int]);
            }
            if !string_is(&self.entries[k].0, session_id.as_str()) {
                let entry = (self.entries[k].0.clone(), self.entries[k].1);
                kept.push(entry);
                proof {
                    assert(kept@.drop_last() =~= without_key(es0.take(k as int), session_id@));
                    assert(kept@.last() == es0[k as int]);
                    assert(kept@ =~= without_key(es0.take(k + 1), session_id@));
                }
            } else {
                proof {
                    assert(without_key(es0.take(k as int), session_id@) + Seq::<
                        (String, bool),
                    >::empty() =~= without_key(es0.take(k as int), session_id@));
                }
            }
            k = k + 1;
        }
        proof {
            assert(es0.take(n as int) =~= es0);
        }
        self.entries = kept;
        proof {
            lemma_without_key(es0, session_id@);
            lemma_flag_pos(self.entries@, session_id@);
            if flag_pos(self.entries@, session_id@) >= 0 {
                assert(self.entries@[flag_pos(self.entries@, session_id@)].0@ == session_id@);
            }
        }
    }
}

/// A text cut into runs of at most `n` characters, in order.
pub open spec fn chunks_of(s: Seq<char>, n: int) -> Seq<Seq<char>>
    decreases s.len(),
{
    if n <= 0 || s.len() == 0 {
        Seq::<Seq<char>>::empty()
    } else if s.len() <= n {
        seq![s]
    } else {
        seq![s.take(n)] + chunks_of(s.skip(n), n)
    }
}

/// Cuts a response into streaming chunks of at most `n` characters.
pub fn chunk_text(s: &str, n: usize) -> (r: Vec<String>)
    requires
        n >= 1,
    ensures
        r@.map_values(|c: String| c@) == chunks_of(s@, n as int),
{
    let mut out: Vec<String> = Vec::new();
    let total = s.unicode_len();
    let mut pos: usize = 0;
    let ghost whole = s@;
    proof {
        assert(whole.skip(0) =~= whole);
        assert(out@.map_values(|c: String| c@) + chunks_of(whole.skip(0), n as int)
            =~= chunks_of(whole, n as int));
    }
    while pos < total
        invariant
            pos <= total,
            total == s@.len(),
            n >= 1,
            whole == s@,
            chunks_of(whole, n as int) == out@.map_values(|c: String| c@) + chunks_of(
                whole.skip(pos as int),
                n as int,
            ),
        decreases total - pos,
    {
        let ghost tail = whole.skip(pos as int);
        let take_now: usize = if total - pos <= n {
            total - pos
        } else {
            n
        };
        let piece = s.substring_char(pos, pos + take_now).to_owned();
        let ghost ov0 = out@.map_values(|c: String| c@);
        out.push(piece);
        proof {
            let ov = out@.map_values(|c: String| c@);
            assert(ov.drop_last() =~= ov0);
            assert(ov[ov.len() - 1] == out@[out@.len() - 1]@);
            if tail.len() <= n as int {
                assert(chunks_of(tail, n as int) == seq![tail]);
                assert(out@[out@.len() - 1]@ =~= tail);
                assert(ov =~= ov0 + seq![tail]);
                assert(whole.skip(pos + take_now) =~= Seq::<char>::empty());
                assert(chunks_of(whole.skip(pos + take_now), n as int) =~= Seq::<
                    Seq<char>,
                >::empty());
                assert(ov + chunks_of(whole.skip(pos + take_now), n as int) =~= ov);
            } else {
                assert(chunks_of(tail, n as int) == seq![tail.take(n as int)] + chunks_of(
                    tail.skip(n as int), n as int));
                assert(tail.take(n as int) =~= whole.subrange(pos as int, pos + take_now));
                assert(out@[out@.len() - 1]@ =~= tail.take(n as int));
                assert(tail.skip(n as int) =~= whole.skip(pos + take_now));
                assert((ov0 + seq![tail.take(n as int)]) + chunks_of(tail.skip(n as int),
                    n as int) =~= ov0 + (seq![tail.take(n as int)] + chunks_of(tail.skip(
                    n as int), n as int)));
            }
        }
        pos = pos + take_now;
    }
    proof {
        assert(whole.skip(pos as int) =~= Seq::<char>::empty());
        assert(chunks_of(whole.skip(pos as int), n as int) =~= Seq::<Seq<char>>::empty());
        assert(out@.map_values(|c: String| c@) + Seq::<Seq<char>>::empty() =~= out@.map_values(
            |c: String| c@));
    }
    out
}

} // verus!
