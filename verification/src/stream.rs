//! Drives one vendor byte stream through the frame decoder, the frame
//! classifier and the stream parser.
//!
//! The whole pipeline is a function of the bytes alone: the decoder's frames
//! are invariant under fragmentation, each payload's classification is named
//! by `frame_of`, and the parser is an exact fold over the classified
//! frames.

use vstd::prelude::*;
use crate::frames::{classify_frame, frame_of, FrameModel};
use crate::parser::{
    parser_init, parser_step, parser_step_events, AnthropicSSEParser, ParserModel,
};
use crate::sse::{
    concat_chunks, decode_chunks, frame_fields, lemma_fragmentation_invariant, parse_frame,
    split_frames, SseFrameDecoder,
};
use crate::types::{StreamEvent, StreamResult};

verus! {

/// The nonempty data payloads of a run of frame bodies, in order; a frame
/// whose data comes back empty carries no payload and is discarded.
pub open spec fn data_payloads(frames: Seq<Seq<u8>>) -> Seq<Seq<u8>>
    decreases frames.len(),
{
    if frames.len() == 0 {
        Seq::<Seq<u8>>::empty()
    } else {
        data_payloads(frames.drop_last()) + (if frame_fields(frames.last()).1.len() > 0 {
            seq![frame_fields(frames.last()).1]
        } else {
            Seq::<Seq<u8>>::empty()
        })
    }
}

/// The classification of a run of payloads, in order.
pub open spec fn classified(payloads: Seq<Seq<u8>>) -> Seq<FrameModel> {
    payloads.map_values(|p: Seq<u8>| frame_of(p))
}

/// The parser state after a run of frames.
pub open spec fn parser_run(m: ParserModel, ws: Seq<FrameModel>) -> ParserModel
    decreases ws.len(),
{
    if ws.len() == 0 {
        m
    } else {
        parser_step(parser_run(m, ws.drop_last()), ws.last())
    }
}

/// The events a run of frames emits, in order.
pub open spec fn parser_run_events(m: ParserModel, ws: Seq<FrameModel>) -> Seq<
    crate::types::EventModel,
>
    decreases ws.len(),
{
    if ws.len() == 0 {
        Seq::<crate::types::EventModel>::empty()
    } else {
        parser_run_events(m, ws.drop_last()) + parser_step_events(
            parser_run(m, ws.drop_last()),
            ws.last(),
        )
    }
}

/// A frame run folds one piece at a time: running the concatenation equals
/// running the second run from where the first left off.
pub proof fn lemma_parser_run_concat(m: ParserModel, a: Seq<FrameModel>, b: Seq<FrameModel>)
    ensures
        parser_run(m, a + b) == parser_run(parser_run(m, a), b),
        parser_run_events(m, a + b) == parser_run_events(m, a) + parser_run_events(
            parser_run(m, a),
            b,
        ),
    decreases b.len(),
{
    if b.len() == 0 {
        assert(a + b =~= a);
        assert(parser_run_events(m, a) + parser_run_events(parser_run(m, a), b)
            =~= parser_run_events(m, a));
    } else {
        lemma_parser_run_concat(m, a, b.drop_last());
        assert((a + b).drop_last() =~= a + b.drop_last());
        assert((a + b).last() == b.last());
        assert(parser_run_events(m, a) + (parser_run_events(parser_run(m, a), b.drop_last())
            + parser_step_events(parser_run(parser_run(m, a), b.drop_last()), b.last()))
            =~= (parser_run_events(m, a) + parser_run_events(parser_run(m, a), b.drop_last()))
            + parser_step_events(parser_run(parser_run(m, a), b.drop_last()), b.last()));
    }
}

/// Payloads distribute over frame-run concatenation.
proof fn lemma_data_payloads_concat(x: Seq<Seq<u8>>, y: Seq<Seq<u8>>)
    ensures
        data_payloads(x + y) == data_payloads(x) + data_payloads(y),
    decreases y.len(),
{
    if y.len() == 0 {
        assert(x + y =~= x);
        assert(data_payloads(x) + data_payloads(y) =~= data_payloads(x));
    } else {
        lemma_data_payloads_concat(x, y.drop_last());
        assert((x + y).drop_last() =~= x + y.drop_last());
        assert((x + y).last() == y.last());
        assert(data_payloads(x) + (data_payloads(y.drop_last()) + (if frame_fields(
            y.last()).1.len() > 0 {
            seq![frame_fields(y.last()).1]
        } else {
            Seq::<Seq<u8>>::empty()
        })) =~= (data_payloads(x) + data_payloads(y.drop_last())) + (if frame_fields(
            y.last()).1.len() > 0 {
            seq![frame_fields(y.last()).1]
        } else {
            Seq::<Seq<u8>>::empty()
        }));
    }
}

/// For every fragmentation of a byte stream, one turn yields the same
/// parser state and the same event run: the frames, their payloads, their
/// classification and the parser's fold are all functions of the
/// concatenated bytes alone, never of the chunk boundaries.
pub proof fn lemma_turn_fragmentation(chunks: Seq<Seq<u8>>, m: ParserModel)
    ensures
        parser_run(m, classified(data_payloads(decode_chunks(chunks).0))) == parser_run(
            m,
            classified(data_payloads(split_frames(concat_chunks(chunks)).0)),
        ),
        parser_run_events(m, classified(data_payloads(decode_chunks(chunks).0)))
            == parser_run_events(
            m,
            classified(data_payloads(split_frames(concat_chunks(chunks)).0)),
        ),
{
    lemma_fragmentation_invariant(chunks);
}

/// One live turn: the frame decoder and the stream parser.
pub struct TurnStream {
    decoder: SseFrameDecoder,
    parser: AnthropicSSEParser,
}

impl TurnStream {
    /// The bytes buffered for the incomplete trailing frame.
    pub closed spec fn buffered(&self) -> Seq<u8> {
        self.decoder@
    }

    /// The parser state.
    pub closed spec fn parser_model(&self) -> ParserModel {
        self.parser@
    }

    /// A fresh turn.
    pub fn new() -> (r: Self)
        ensures
            r.buffered() == Seq::<u8>::empty(),
            r.parser_model() == parser_init(),
    {
        TurnStream { decoder: SseFrameDecoder::new(), parser: AnthropicSSEParser::new() }
    }

    /// Feeds one chunk of bytes: every frame that is now complete is
    /// classified and parsed, in stream order; the incomplete trailing
    /// frame stays buffered.  The parser moves by the fold over exactly the
    /// classified nonempty payloads of this chunk's complete frames, and
    /// the returned events are that fold's events.
    pub fn push_chunk(&mut self, chunk: &[u8]) -> (events: Vec<StreamEvent>)
        ensures
            final(self).buffered() == split_frames(old(self).buffered() + chunk@).1,
            final(self).parser_model() == parser_run(
                old(self).parser_model(),
                classified(data_payloads(split_frames(old(self).buffered() + chunk@).0)),
            ),
            events@.map_values(|e: StreamEvent| e@) == parser_run_events(
                old(self).parser_model(),
                classified(data_payloads(split_frames(old(self).buffered() + chunk@).0)),
            ),
    {
        let ghost m0 = self.parser@;
        let ghost buf0 = self.decoder@;
        let frames = self.decoder.feed(chunk);
        let ghost fv = frames@.map_values(|f: Vec<u8>| f@);
        let mut events: Vec<StreamEvent> = Vec::new();
        let n = frames.len();
        let mut k: usize = 0;
        proof {
            assert(fv.take(0) =~= Seq::<Seq<u8>>::empty());
            assert(classified(data_payloads(fv.take(0))) =~= Seq::<FrameModel>::empty());
            assert(events@.map_values(|e: StreamEvent| e@) =~= parser_run_events(m0, classified(
                data_payloads(fv.take(0)))));
        }
        while k < n
            invariant
                k <= n,
                n == frames@.len(),
                fv == frames@.map_values(|f: Vec<u8>| f@),
                fv == split_frames(buf0 + chunk@).0,
                self.decoder@ == split_frames(buf0 + chunk@).1,
                self.parser@ == parser_run(m0, classified(data_payloads(fv.take(k as int)))),
                events@.map_values(|e: StreamEvent| e@) == parser_run_events(m0, classified(
                    data_payloads(fv.take(k as int)))),
            decreases n - k,
        {
            proof {
                assert(fv.take(k + 1).drop_last() =~= fv.take(k as int));
                assert(fv.take(k + 1).last() == fv[k as int]);
                assert(fv[k as int] == frames@[k as int]@);
            }
            let (_event_field, data) = parse_frame(&frames[k]);
            let ghost ps = data_payloads(fv.take(k as int));
            if !data.is_empty() {
                let frame = classify_frame(data.as_slice());
                let ghost ev0 = events@.map_values(|e: StreamEvent| e@);
                let mut frame_events = self.parser.process_frame(&frame);
                let ghost pv = frame_events@.map_values(|e: StreamEvent| e@);
                events.append(&mut frame_events);
                proof {
                    let payload = frame_fields(fv[k as int]).1;
                    assert(data@ == payload);
                    assert(frame@ == frame_of(payload));
                    assert(data_payloads(fv.take(k + 1)) =~= ps.push(payload));
                    assert(classified(ps.push(payload)) =~= classified(ps).push(frame_of(
                        payload)));
                    assert(classified(ps.push(payload)).drop_last() =~= classified(ps));
                    assert(self.parser@ == parser_run(m0, classified(data_payloads(fv.take(
                        k + 1)))));
                    let ev = events@.map_values(|e: StreamEvent| e@);
                    assert(ev =~= ev0 + pv);
                    assert(ev =~= parser_run_events(m0, classified(data_payloads(fv.take(
                        k + 1)))));
                }
            } else {
                proof {
                    assert(frame_fields(fv[k as int]).1.len() == 0);
                    assert(data_payloads(fv.take(k + 1)) =~= ps);
                }
            }
            k = k + 1;
        }
        proof {
            assert(fv.take(n as int) =~= fv);
        }
        events
    }

    /// Whether the terminal marker of the turn has been seen.
    pub fn is_done(&self) -> (r: bool)
        ensures
            r == self.parser_model().done,
    {
        self.parser.is_done()
    }

    /// The terminal aggregate of the turn.
    pub fn finalize(&self) -> (r: StreamResult)
        ensures
            r@ == crate::parser::result_of(self.parser_model()),
    {
        self.parser.finalize()
    }
}

} // verus!
