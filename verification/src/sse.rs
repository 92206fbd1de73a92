//! Server-sent-event frame decoding.
//!
//! A frame is a blank-line-terminated block of bytes.  The decoder buffers raw
//! bytes until a complete frame appears; a frame may be split across reads and
//! is reassembled regardless of where the chunk boundaries fall.

use vstd::prelude::*;

verus! {

/// The byte stream holds a frame separator (`\n\n`) at position `i`.
pub open spec fn is_sep_at(s: Seq<u8>, i: int) -> bool {
    0 <= i && i + 2 <= s.len() && s[i] == 10u8 && s[i + 1] == 10u8
}

/// Index of the leftmost frame separator, or -1 when the stream holds none.
pub open spec fn first_sep(s: Seq<u8>) -> int
    decreases s.len(),
{
    if s.len() < 2 {
        -1
    } else if s[0] == 10u8 && s[1] == 10u8 {
        0
    } else if first_sep(s.skip(1)) < 0 {
        -1
    } else {
        first_sep(s.skip(1)) + 1
    }
}

/// `first_sep` finds the leftmost separator exactly.
pub proof fn lemma_first_sep_char(s: Seq<u8>)
    ensures
        first_sep(s) == -1 ==> forall|j: int| !is_sep_at(s, j),
        first_sep(s) >= 0 ==> is_sep_at(s, first_sep(s)),
        first_sep(s) >= 0 ==> forall|j: int| 0 <= j < first_sep(s) ==> !is_sep_at(s, j),
    decreases s.len(),
{
    if s.len() < 2 {
    } else if s[0] == 10u8 && s[1] == 10u8 {
    } else {
        lemma_first_sep_char(s.skip(1));
        let tail = s.skip(1);
        assert forall|j: int| 0 <= j implies #[trigger] is_sep_at(s, j + 1) == is_sep_at(tail, j) by {
            if j + 2 <= tail.len() {
                assert(tail[j] == s[j + 1]);
                assert(tail[j + 1] == s[j + 2]);
            }
        }
        if first_sep(tail) < 0 {
            assert forall|j: int| !is_sep_at(s, j) by {
                if j == 0 {
                    assert(!(s[0] == 10u8 && s[1] == 10u8));
                } else if j >= 1 {
                    assert(!is_sep_at(tail, j - 1));
                }
            }
        } else {
            let i = first_sep(tail);
            assert(is_sep_at(s, i + 1));
            assert forall|j: int| 0 <= j < i + 1 implies !is_sep_at(s, j) by {
                if j == 0 {
                } else {
                    assert(!is_sep_at(tail, j - 1));
                }
            }
        }
    }
}

/// A separator in the left part keeps its position when bytes are appended.
pub proof fn lemma_first_sep_append(s: Seq<u8>, t: Seq<u8>)
    requires
        first_sep(s) >= 0,
    ensures
        first_sep(s + t) == first_sep(s),
    decreases s.len(),
{
    let u = s + t;
    assert(u.len() >= s.len());
    if s.len() < 2 {
        // contradiction with first_sep(s) >= 0
    } else if s[0] == 10u8 && s[1] == 10u8 {
        assert(u[0] == 10u8 && u[1] == 10u8);
    } else {
        assert(u[0] == s[0] && u[1] == s[1]);
        assert(first_sep(s.skip(1)) >= 0);
        lemma_first_sep_append(s.skip(1), t);
        assert(u.skip(1) =~= s.skip(1) + t);
    }
}

/// Splits a stream into its complete frame bodies and the trailing remainder.
///
/// Each complete frame is the byte run before the leftmost remaining
/// separator; the separator itself is consumed.
pub open spec fn split_frames(s: Seq<u8>) -> (Seq<Seq<u8>>, Seq<u8>)
    decreases s.len(),
{
    let i = first_sep(s);
    if i < 0 {
        (Seq::<Seq<u8>>::empty(), s)
    } else {
        proof {
            lemma_first_sep_char(s);
        }
        let rest = split_frames(s.skip(i + 2));
        (seq![s.take(i)] + rest.0, rest.1)
    }
}

/// Incremental decoding agrees with decoding the concatenation: feeding `t`
/// after `s` is the same as feeding `s + t` at once.
pub proof fn lemma_split_frames_append(s: Seq<u8>, t: Seq<u8>)
    ensures
        split_frames(s + t).0 == split_frames(s).0 + split_frames(split_frames(s).1 + t).0,
        split_frames(s + t).1 == split_frames(split_frames(s).1 + t).1,
    decreases s.len(),
{
    let i = first_sep(s);
    if i < 0 {
        assert(split_frames(s).0 =~= Seq::<Seq<u8>>::empty());
        assert(split_frames(s).1 == s);
        assert(split_frames(s).0 + split_frames(s + t).0 =~= split_frames(s + t).0);
    } else {
        lemma_first_sep_char(s);
        lemma_first_sep_append(s, t);
        let u = s + t;
        assert(first_sep(u) == i);
        lemma_first_sep_char(u);
        assert(u.take(i) =~= s.take(i));
        assert(u.skip(i + 2) =~= s.skip(i + 2) + t);
        lemma_split_frames_append(s.skip(i + 2), t);
        let srest = split_frames(s.skip(i + 2));
        assert(split_frames(s).1 == srest.1);
        assert(split_frames(u).0 == seq![s.take(i)] + split_frames(s.skip(i + 2) + t).0);
        assert(seq![s.take(i)] + (srest.0 + split_frames(srest.1 + t).0) =~= (seq![s.take(i)]
            + srest.0) + split_frames(srest.1 + t).0);
    }
}

/// The concatenation of a sequence of byte chunks.
pub open spec fn concat_chunks(chunks: Seq<Seq<u8>>) -> Seq<u8>
    decreases chunks.len(),
{
    if chunks.len() == 0 {
        Seq::<u8>::empty()
    } else {
        concat_chunks(chunks.drop_last()) + chunks.last()
    }
}

/// The frames and remainder produced by feeding the chunks one at a time,
/// carrying the remainder of each step into the next.
pub open spec fn decode_chunks(chunks: Seq<Seq<u8>>) -> (Seq<Seq<u8>>, Seq<u8>)
    decreases chunks.len(),
{
    if chunks.len() == 0 {
        (Seq::<Seq<u8>>::empty(), Seq::<u8>::empty())
    } else {
        let prev = decode_chunks(chunks.drop_last());
        let step = split_frames(prev.1 + chunks.last());
        (prev.0 + step.0, step.1)
    }
}

/// For every fragmentation of a byte stream, feeding the chunks one at a time
/// yields exactly the frames and remainder of decoding the whole stream at
/// once.  Since the stream parser is a function of the frame sequence alone,
/// the final result of a turn does not depend on how the bytes were split.
pub proof fn lemma_fragmentation_invariant(chunks: Seq<Seq<u8>>)
    ensures
        decode_chunks(chunks).0 == split_frames(concat_chunks(chunks)).0,
        decode_chunks(chunks).1 == split_frames(concat_chunks(chunks)).1,
    decreases chunks.len(),
{
    if chunks.len() == 0 {
        assert(concat_chunks(chunks) =~= Seq::<u8>::empty());
        assert(first_sep(Seq::<u8>::empty()) == -1);
        assert(decode_chunks(chunks).0 =~= split_frames(concat_chunks(chunks)).0);
    } else {
        let front = chunks.drop_last();
        lemma_fragmentation_invariant(front);
        lemma_split_frames_append(concat_chunks(front), chunks.last());
        let prev = decode_chunks(front);
        assert(prev.0 + split_frames(prev.1 + chunks.last()).0 =~= split_frames(
            concat_chunks(front)).0 + split_frames(split_frames(concat_chunks(front)).1
            + chunks.last()).0);
    }
}

/// Locates the leftmost frame separator in a buffer.
fn find_sep(v: &Vec<u8>) -> (r: Option<usize>)
    ensures
        match r {
            Some(i) => first_sep(v@) == i as int,
            None => first_sep(v@) < 0,
        },
{
    proof {
        lemma_first_sep_char(v@);
    }
    let n = v.len();
    if n < 2 {
        return None;
    }
    let mut i: usize = 0;
    while i + 1 < n
        invariant
            n == v@.len(),
            i + 1 <= n,
            forall|j: int| 0 <= j < i ==> !is_sep_at(v@, j),
        decreases n - i,
    {
        if v[i] == 10u8 && v[i + 1] == 10u8 {
            proof {
                lemma_first_sep_char(v@);
                assert(is_sep_at(v@, i as int));
                assert(first_sep(v@) >= 0);
                assert(first_sep(v@) <= i as int) by {
                    if first_sep(v@) > i as int {
                        assert(!is_sep_at(v@, i as int));
                    }
                }
                assert(first_sep(v@) >= i as int);
            }
            return Some(i);
        }
        i = i + 1;
    }
    proof {
        assert(forall|j: int| 0 <= j < n - 1 ==> !is_sep_at(v@, j));
        assert(forall|j: int| j >= n - 1 ==> !is_sep_at(v@, j));
        lemma_first_sep_char(v@);
        if first_sep(v@) >= 0 {
            assert(is_sep_at(v@, first_sep(v@)));
        }
    }
    None
}

/// A line with its optional trailing carriage return removed.
pub open spec fn strip_cr(l: Seq<u8>) -> Seq<u8> {
    if l.len() > 0 && l.last() == 13u8 {
        l.drop_last()
    } else {
        l
    }
}

/// Index of the leftmost newline, or -1 when there is none.
pub open spec fn first_nl(s: Seq<u8>) -> int
    decreases s.len(),
{
    if s.len() == 0 {
        -1
    } else if s[0] == 10u8 {
        0
    } else if first_nl(s.skip(1)) < 0 {
        -1
    } else {
        first_nl(s.skip(1)) + 1
    }
}

/// `first_nl` finds the leftmost newline exactly.
pub proof fn lemma_first_nl_char(s: Seq<u8>)
    ensures
        first_nl(s) == -1 ==> forall|j: int| 0 <= j < s.len() ==> s[j] != 10u8,
        first_nl(s) >= 0 ==> first_nl(s) < s.len() && s[first_nl(s)] == 10u8,
        first_nl(s) >= 0 ==> forall|j: int| 0 <= j < first_nl(s) ==> s[j] != 10u8,
    decreases s.len(),
{
    if s.len() == 0 {
    } else if s[0] == 10u8 {
    } else {
        lemma_first_nl_char(s.skip(1));
        let tail = s.skip(1);
        assert(forall|j: int| 0 <= j < tail.len() ==> tail[j] == s[j + 1]);
        if first_nl(tail) < 0 {
            assert forall|j: int| 0 <= j < s.len() implies s[j] != 10u8 by {
                if j >= 1 {
                    assert(tail[j - 1] != 10u8);
                }
            }
        } else {
            let i = first_nl(tail);
            assert(s[i + 1] == tail[i]);
            assert forall|j: int| 0 <= j < i + 1 implies s[j] != 10u8 by {
                if j >= 1 {
                    assert(tail[j - 1] != 10u8);
                }
            }
        }
    }
}

/// The lines of a frame body: split at newlines, the line ending itself and a
/// trailing carriage return removed, a final empty segment dropped.
pub open spec fn split_lines(s: Seq<u8>) -> Seq<Seq<u8>>
    decreases s.len(),
{
    if s.len() == 0 {
        Seq::<Seq<u8>>::empty()
    } else {
        let i = first_nl(s);
        if i < 0 {
            seq![strip_cr(s)]
        } else {
            proof {
                lemma_first_nl_char(s);
            }
            seq![strip_cr(s.take(i))] + split_lines(s.skip(i + 1))
        }
    }
}

/// The bytes of `"event: "`.
pub open spec fn event_prefix() -> Seq<u8> {
    seq![101u8, 118u8, 101u8, 110u8, 116u8, 58u8, 32u8]
}

/// The bytes of `"data: "`.
pub open spec fn data_prefix() -> Seq<u8> {
    seq![100u8, 97u8, 116u8, 97u8, 58u8, 32u8]
}

/// `p` is a prefix of `s`.
pub open spec fn is_prefix_of(p: Seq<u8>, s: Seq<u8>) -> bool {
    p.len() <= s.len() && s.take(p.len() as int) == p
}

/// The event type and data payload named by a run of lines; a later
/// `event: ` or `data: ` line overrides an earlier one.
pub open spec fn fields_of_lines(lines: Seq<Seq<u8>>) -> (Seq<u8>, Seq<u8>)
    decreases lines.len(),
{
    if lines.len() == 0 {
        (Seq::<u8>::empty(), Seq::<u8>::empty())
    } else {
        let prev = fields_of_lines(lines.drop_last());
        let l = lines.last();
        (
            if is_prefix_of(event_prefix(), l) {
                l.skip(7)
            } else {
                prev.0
            },
            if is_prefix_of(data_prefix(), l) {
                l.skip(6)
            } else {
                prev.1
            },
        )
    }
}

/// The event type and data payload of one frame body.
pub open spec fn frame_fields(frame: Seq<u8>) -> (Seq<u8>, Seq<u8>) {
    fields_of_lines(split_lines(frame))
}

/// Locates the leftmost newline at or after `pos`.
fn find_nl_from(v: &Vec<u8>, pos: usize) -> (r: Option<usize>)
    requires
        pos <= v@.len(),
    ensures
        match r {
            Some(k) => pos <= k && first_nl(v@.skip(pos as int)) == k - pos,
            None => first_nl(v@.skip(pos as int)) < 0,
        },
{
    let ghost tail = v@.skip(pos as int);
    let n = v.len();
    let mut k: usize = pos;
    while k < n
        invariant
            pos <= k <= n,
            n == v@.len(),
            pos <= v@.len(),
            tail == v@.skip(pos as int),
            forall|j: int| pos <= j < k ==> v@[j] != 10u8,
        decreases n - k,
    {
        if v[k] == 10u8 {
            proof {
                assert(forall|j: int| 0 <= j < tail.len() ==> tail[j] == v@[pos + j]);
                assert(tail[k - pos] == 10u8);
                assert forall|j: int| 0 <= j < k - pos implies tail[j] != 10u8 by {
                    assert(v@[pos + j] != 10u8);
                }
                lemma_first_nl_char(tail);
                let i = first_nl(tail);
                if i < 0 {
                    assert(tail[k - pos] != 10u8);
                } else if i < k - pos {
                    assert(tail[i] != 10u8);
                    assert(tail[i] == 10u8);
                } else if i > k - pos {
                    assert(tail[k - pos] != 10u8);
                }
            }
            return Some(k);
        }
        k = k + 1;
    }
    proof {
        assert(forall|j: int| 0 <= j < tail.len() ==> tail[j] == v@[pos + j]);
        assert forall|j: int| 0 <= j < tail.len() implies tail[j] != 10u8 by {
            assert(v@[pos + j] != 10u8);
        }
        lemma_first_nl_char(tail);
        if first_nl(tail) >= 0 {
            assert(tail[first_nl(tail)] == 10u8);
        }
    }
    None
}

/// Removes one trailing carriage return, if present.
fn strip_cr_exec(line: Vec<u8>) -> (r: Vec<u8>)
    ensures
        r@ == strip_cr(line@),
{
    let mut line = line;
    let n = line.len();
    if n > 0 && line[n - 1] == 13u8 {
        line.pop();
        proof {
            assert(line@ =~= strip_cr(line@.push(13u8)));
        }
    }
    line
}

/// Splits a frame body into its lines.
fn split_lines_exec(s: &Vec<u8>) -> (lines: Vec<Vec<u8>>)
    ensures
        lines@.map_values(|l: Vec<u8>| l@) == split_lines(s@),
{
    let mut lines: Vec<Vec<u8>> = Vec::new();
    let mut pos: usize = 0;
    let n = s.len();
    proof {
        assert(lines@.map_values(|l: Vec<u8>| l@) + split_lines(s@.skip(0)) =~= split_lines(
            s@.skip(0)));
        assert(s@.skip(0) =~= s@);
    }
    while pos < n
        invariant
            pos <= n,
            n == s@.len(),
            split_lines(s@) == lines@.map_values(|l: Vec<u8>| l@) + split_lines(s@.skip(
                pos as int)),
        decreases n - pos,
    {
        let ghost tail = s@.skip(pos as int);
        let nl = find_nl_from(s, pos);
        match nl {
            None => {
                proof {
                    lemma_first_nl_char(tail);
                }
                let line = strip_cr_exec(vstd::slice::slice_to_vec(
                    vstd::slice::slice_subrange(s.as_slice(), pos, n)));
                lines.push(line);
                proof {
                    assert(tail.len() > 0);
                    assert(split_lines(tail) == seq![strip_cr(tail)]);
                    assert(s@.subrange(pos as int, n as int) =~= tail);
                    assert(lines@.map_values(|l: Vec<u8>| l@) =~= lines@.take(lines@.len() - 1)
                        .map_values(|l: Vec<u8>| l@) + seq![strip_cr(tail)]);
                    assert(split_lines(s@) =~= lines@.map_values(|l: Vec<u8>| l@)
                        + split_lines(s@.skip(n as int)));
                    assert(s@.skip(n as int) =~= Seq::<u8>::empty());
                }
                pos = n;
            },
            Some(k) => {
                proof {
                    lemma_first_nl_char(tail);
                    assert(first_nl(tail) == k - pos);
                    assert(k < n);
                }
                let line = strip_cr_exec(vstd::slice::slice_to_vec(
                    vstd::slice::slice_subrange(s.as_slice(), pos, k)));
                lines.push(line);
                proof {
                    let i = k - pos;
                    assert(tail.len() > 0);
                    assert(split_lines(tail) == seq![strip_cr(tail.take(i))] + split_lines(
                        tail.skip(i + 1)));
                    assert(tail.take(i) =~= s@.subrange(pos as int, k as int));
                    assert(tail.skip(i + 1) =~= s@.skip(k + 1));
                    assert(lines@.map_values(|l: Vec<u8>| l@) =~= lines@.take(lines@.len() - 1)
                        .map_values(|l: Vec<u8>| l@) + seq![strip_cr(tail.take(i))]);
                    assert((lines@.take(lines@.len() - 1).map_values(|l: Vec<u8>| l@)
                        + seq![strip_cr(tail.take(i))]) + split_lines(tail.skip(i + 1))
                        =~= lines@.take(lines@.len() - 1).map_values(|l: Vec<u8>| l@)
                        + (seq![strip_cr(tail.take(i))] + split_lines(tail.skip(i + 1))));
                }
                pos = k + 1;
            },
        }
    }
    proof {
        assert(s@.skip(pos as int) =~= Seq::<u8>::empty());
        assert(split_lines(s@.skip(pos as int)) =~= Seq::<Seq<u8>>::empty());
        assert(lines@.map_values(|l: Vec<u8>| l@) + Seq::<Seq<u8>>::empty() =~= lines@.map_values(
            |l: Vec<u8>| l@));
    }
    lines
}

/// `p` is a prefix of `s`, checked byte by byte.
fn starts_with(s: &Vec<u8>, p: &Vec<u8>) -> (r: bool)
    ensures
        r == is_prefix_of(p@, s@),
{
    let pn = p.len();
    if pn > s.len() {
        return false;
    }
    let mut j: usize = 0;
    while j < pn
        invariant
            j <= pn,
            pn == p@.len(),
            pn <= s@.len(),
            forall|t: int| 0 <= t < j ==> s@[t] == p@[t],
        decreases pn - j,
    {
        if s[j] != p[j] {
            proof {
                assert(s@.take(pn as int)[j as int] != p@[j as int]);
            }
            return false;
        }
        j = j + 1;
    }
    proof {
        assert(s@.take(pn as int) =~= p@);
    }
    true
}

/// The bytes of the `event: ` field prefix.
fn event_prefix_exec() -> (r: Vec<u8>)
    ensures
        r@ == event_prefix(),
{
    let mut v: Vec<u8> = Vec::new();
    v.push(101u8);
    v.push(118u8);
    v.push(101u8);
    v.push(110u8);
    v.push(116u8);
    v.push(58u8);
    v.push(32u8);
    proof {
        assert(v@ =~= event_prefix());
    }
    v
}

/// The bytes of the `data: ` field prefix.
fn data_prefix_exec() -> (r: Vec<u8>)
    ensures
        r@ == data_prefix(),
{
    let mut v: Vec<u8> = Vec::new();
    v.push(100u8);
    v.push(97u8);
    v.push(116u8);
    v.push(97u8);
    v.push(58u8);
    v.push(32u8);
    proof {
        assert(v@ =~= data_prefix());
    }
    v
}

/// Extracts the event type and data payload of one frame body.  A frame whose
/// data comes back empty carries no payload and is discarded by callers.
pub fn parse_frame(frame: &Vec<u8>) -> (r: (Vec<u8>, Vec<u8>))
    ensures
        r.0@ == frame_fields(frame@).0,
        r.1@ == frame_fields(frame@).1,
{
    let lines = split_lines_exec(frame);
    let ghost lv = lines@.map_values(|l: Vec<u8>| l@);
    let ep = event_prefix_exec();
    let dp = data_prefix_exec();
    let mut event: Vec<u8> = Vec::new();
    let mut data: Vec<u8> = Vec::new();
    let mut k: usize = 0;
    let n = lines.len();
    proof {
        assert(lv.take(0) =~= Seq::<Seq<u8>>::empty());
    }
    while k < n
        invariant
            k <= n,
            n == lines@.len(),
            lv == lines@.map_values(|l: Vec<u8>| l@),
            lv == split_lines(frame@),
            ep@ == event_prefix(),
            dp@ == data_prefix(),
            event@ == fields_of_lines(lv.take(k as int)).0,
            data@ == fields_of_lines(lv.take(k as int)).1,
        decreases n - k,
    {
        let line = &lines[k];
        proof {
            assert(lv.take(k + 1).drop_last() =~= lv.take(k as int));
            assert(lv.take(k + 1).last() == lv[k as int]);
            assert(lv[k as int] == line@);
        }
        if starts_with(line, &ep) {
            let rest = vstd::slice::slice_to_vec(vstd::slice::slice_subrange(line.as_slice(), 7,
                line.len()));
            proof {
                assert(rest@ =~= line@.skip(7));
            }
            event = rest;
        }
        if starts_with(line, &dp) {
            let rest = vstd::slice::slice_to_vec(vstd::slice::slice_subrange(line.as_slice(), 6,
                line.len()));
            proof {
                assert(rest@ =~= line@.skip(6));
            }
            data = rest;
        }
        k = k + 1;
    }
    proof {
        assert(lv.take(n as int) =~= lv);
    }
    (event, data)
}

/// Buffers raw bytes of one vendor stream and hands out complete frames.
pub struct SseFrameDecoder {
    buf: Vec<u8>,
}

impl View for SseFrameDecoder {
    type V = Seq<u8>;

    closed spec fn view(&self) -> Seq<u8> {
        self.buf@
    }
}

impl SseFrameDecoder {
    /// A decoder with an empty buffer.
    pub fn new() -> (r: Self)
        ensures
            r@ == Seq::<u8>::empty(),
    {
        SseFrameDecoder { buf: Vec::new() }
    }

    /// Feeds one chunk of bytes and returns every frame body that is now
    /// complete, in stream order; the incomplete trailing frame stays
    /// buffered for the next chunk.
    pub fn feed(&mut self, chunk: &[u8]) -> (frames: Vec<Vec<u8>>)
        ensures
            frames@.map_values(|f: Vec<u8>| f@) == split_frames(old(self)@ + chunk@).0,
            final(self)@ == split_frames(old(self)@ + chunk@).1,
    {
        let ghost whole: Seq<u8> = self.buf@ + chunk@;
        self.buf.extend_from_slice(chunk);
        let mut frames: Vec<Vec<u8>> = Vec::new();
        proof {
            assert(self.buf@ == whole);
            assert(frames@.map_values(|f: Vec<u8>| f@) + split_frames(whole).0 =~= split_frames(
                whole).0);
        }
        loop
            invariant
                split_frames(whole).0 == frames@.map_values(|f: Vec<u8>| f@) + split_frames(
                    self.buf@).0,
                split_frames(whole).1 == split_frames(self.buf@).1,
            ensures
                split_frames(whole).0 == frames@.map_values(|f: Vec<u8>| f@),
                split_frames(whole).1 == self.buf@,
            decreases self.buf@.len(),
        {
            let sep = find_sep(&self.buf);
            match sep {
                None => {
                    proof {
                        assert(split_frames(self.buf@).0 =~= Seq::<Seq<u8>>::empty());
                        assert(frames@.map_values(|f: Vec<u8>| f@) + split_frames(self.buf@).0
                            =~= frames@.map_values(|f: Vec<u8>| f@));
                        assert(split_frames(self.buf@).1 == self.buf@);
                    }
                    break;
                },
                Some(i) => {
                    proof {
                        lemma_first_sep_char(self.buf@);
                        assert(is_sep_at(self.buf@, i as int));
                        assert(i + 2 <= self.buf@.len());
                    }
                    let ghost before: Seq<u8> = self.buf@;
                    let blen = self.buf.len();
                    let frame = vstd::slice::slice_to_vec(vstd::slice::slice_subrange(
                        self.buf.as_slice(), 0, i));
                    let rest = vstd::slice::slice_to_vec(vstd::slice::slice_subrange(
                        self.buf.as_slice(), i + 2, blen));
                    self.buf = rest;
                    frames.push(frame);
                    proof {
                        assert(frame@ =~= before.take(i as int));
                        assert(self.buf@ =~= before.skip(i as int + 2));
                        assert(split_frames(before).0 =~= seq![before.take(i as int)]
                            + split_frames(before.skip(i as int + 2)).0);
                        assert(frames@.map_values(|f: Vec<u8>| f@) =~= frames@.take(
                            frames@.len() - 1).map_values(|f: Vec<u8>| f@) + seq![frame@]);
                        assert(frames@.take(frames@.len() - 1).map_values(|f: Vec<u8>| f@)
                            + seq![before.take(i as int)] + split_frames(before.skip(
                            i as int + 2)).0 =~= frames@.take(frames@.len() - 1).map_values(
                            |f: Vec<u8>| f@) + (seq![before.take(i as int)] + split_frames(
                            before.skip(i as int + 2)).0));
                    }
                },
            }
        }
        frames
    }
}

} // verus!
