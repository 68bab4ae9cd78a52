//! The event dispatch loop.
//!
//! The loop polls the caller-owned run flag once per iteration, reads one
//! frame, and acts on it: a text frame is classified and its event — if
//! any — delivered before the next read; ping, pong and binary frames are
//! ignored; a close frame, a decode error, or a transport error ends the
//! run with that error. A flag read as false between frames ends the run
//! cleanly.
//!
//! The decision per frame is `dispatch_step`; `run_frames` is the loop
//! itself over a sequence of frames already in hand, with the flag's poll
//! outcomes given as a sequence (a poll past its end reads true). The
//! caller that owns the socket feeds real frames one at a time through
//! `dispatch_step` and delivers each event to its consumer in order.

use vstd::prelude::*;

use crate::classify::{classify_frame, spec_classify};
use crate::errors::{WsError, WsErrorVal};
use crate::events::{EventVal, WebsocketEvent};

verus! {

/// One incoming frame, by kind.
#[derive(Debug, Clone, PartialEq)]
pub enum RawFrame {
    Text(String),
    Binary(Vec<u8>),
    Ping(Vec<u8>),
    Pong(Vec<u8>),
    /// A close frame, with the peer's stated reason if it gave one.
    Close(Option<String>),
}

/// Mathematical value of a `RawFrame`.
pub enum RawFrameVal {
    Text(Seq<char>),
    Binary(Seq<u8>),
    Ping(Seq<u8>),
    Pong(Seq<u8>),
    Close(Option<Seq<char>>),
}

impl View for RawFrame {
    type V = RawFrameVal;

    open spec fn view(&self) -> RawFrameVal {
        match self {
            RawFrame::Text(s) => RawFrameVal::Text(s@),
            RawFrame::Binary(b) => RawFrameVal::Binary(b@),
            RawFrame::Ping(b) => RawFrameVal::Ping(b@),
            RawFrame::Pong(b) => RawFrameVal::Pong(b@),
            RawFrame::Close(r) => RawFrameVal::Close(match r {
                Some(s) => Some(s@),
                None => None,
            }),
        }
    }
}

/// What the loop does with one frame.
#[derive(Debug, Clone, PartialEq)]
pub enum FrameStep {
    /// Hand this event to the consumer, then read on.
    Deliver(WebsocketEvent),
    /// Nothing to deliver; read on.
    Skip,
    /// The peer closed the connection: terminal.
    Closed(Option<String>),
    /// The frame could not be decoded: terminal.
    Fail(WsError),
}

/// Mathematical value of a `FrameStep`.
pub enum FrameStepVal {
    Deliver(EventVal),
    Skip,
    Closed(Option<Seq<char>>),
    Fail(WsErrorVal),
}

impl View for FrameStep {
    type V = FrameStepVal;

    open spec fn view(&self) -> FrameStepVal {
        match self {
            FrameStep::Deliver(e) => FrameStepVal::Deliver(e@),
            FrameStep::Skip => FrameStepVal::Skip,
            FrameStep::Closed(r) => FrameStepVal::Closed(match r {
                Some(s) => Some(s@),
                None => None,
            }),
            FrameStep::Fail(e) => FrameStepVal::Fail(e@),
        }
    }
}

/// The loop's decision on one frame.
pub open spec fn spec_step(f: RawFrameVal) -> FrameStepVal {
    match f {
        RawFrameVal::Text(s) => match spec_classify(s) {
            Err(_) => FrameStepVal::Fail(WsErrorVal::Decode),
            Ok(None) => FrameStepVal::Skip,
            Ok(Some(e)) => FrameStepVal::Deliver(e),
        },
        RawFrameVal::Binary(_) => FrameStepVal::Skip,
        RawFrameVal::Ping(_) => FrameStepVal::Skip,
        RawFrameVal::Pong(_) => FrameStepVal::Skip,
        RawFrameVal::Close(r) => FrameStepVal::Closed(r),
    }
}

/// Decide what to do with one received frame.
pub fn dispatch_step(f: &RawFrame) -> (r: FrameStep)
    ensures
        r@ == spec_step(f@),
{
    match f {
        RawFrame::Text(s) => match classify_frame(s.as_str()) {
            Err(e) => FrameStep::Fail(e),
            Ok(None) => FrameStep::Skip,
            Ok(Some(ev)) => FrameStep::Deliver(ev),
        },
        RawFrame::Binary(_) => FrameStep::Skip,
        RawFrame::Ping(_) => FrameStep::Skip,
        RawFrame::Pong(_) => FrameStep::Skip,
        RawFrame::Close(r) => FrameStep::Closed(match r {
            Some(s) => Some(s.clone()),
            None => None,
        }),
    }
}

/// The views of a sequence of frames.
pub open spec fn frames_view(fs: Seq<RawFrame>) -> Seq<RawFrameVal> {
    crate::json::elems_view(fs)
}

/// The flag value the loop's next poll reads: polls beyond the given
/// outcomes read true (the caller never cleared the flag).
pub open spec fn head_flag(flags: Seq<bool>) -> bool {
    if flags.len() == 0 {
        true
    } else {
        flags[0]
    }
}

/// The flag outcomes left for the following polls.
pub open spec fn tail_flags(flags: Seq<bool>) -> Seq<bool> {
    if flags.len() == 0 {
        flags
    } else {
        flags.drop_first()
    }
}

/// What one run delivers and how it ends.
pub struct RunVal {
    /// The events delivered to the consumer, in delivery order.
    pub events: Seq<EventVal>,
    /// How many frames were read before the run ended.
    pub consumed: int,
    /// `Ok` for a clean stop (flag cleared, or no frame left to read);
    /// otherwise the terminal error.
    pub outcome: Result<(), WsErrorVal>,
}

/// The run of the dispatch loop over a sequence of frames: one flag poll,
/// then one frame, per iteration; delivery order is arrival order; the
/// first terminal frame ends the run with no further reads.
pub open spec fn spec_run(frames: Seq<RawFrameVal>, flags: Seq<bool>) -> RunVal
    decreases frames.len(),
{
    if frames.len() == 0 || !head_flag(flags) {
        RunVal { events: Seq::empty(), consumed: 0, outcome: Ok(()) }
    } else {
        match spec_step(frames[0]) {
            FrameStepVal::Deliver(e) => {
                let rest = spec_run(frames.drop_first(), tail_flags(flags));
                RunVal {
                    events: seq![e] + rest.events,
                    consumed: 1 + rest.consumed,
                    outcome: rest.outcome,
                }
            },
            FrameStepVal::Skip => {
                let rest = spec_run(frames.drop_first(), tail_flags(flags));
                RunVal {
                    events: rest.events,
                    consumed: 1 + rest.consumed,
                    outcome: rest.outcome,
                }
            },
            FrameStepVal::Closed(reason) => RunVal {
                events: Seq::empty(),
                consumed: 1,
                outcome: Err(WsErrorVal::PeerClosed(reason)),
            },
            FrameStepVal::Fail(e) => RunVal {
                events: Seq::empty(),
                consumed: 1,
                outcome: Err(e),
            },
        }
    }
}

/// What one executed run delivered and how it ended.
pub struct RunLog {
    /// The events delivered, in delivery order.
    pub events: Vec<WebsocketEvent>,
    /// How many frames were read before the run ended.
    pub consumed: usize,
    /// `Ok` for a clean stop; otherwise the terminal error.
    pub outcome: Result<(), WsError>,
}

impl View for RunLog {
    type V = RunVal;

    open spec fn view(&self) -> RunVal {
        RunVal {
            events: crate::json::elems_view(self.events@),
            consumed: self.consumed as int,
            outcome: match self.outcome {
                Ok(_) => Ok(()),
                Err(e) => Err(e@),
            },
        }
    }
}

/// The flag outcomes left after `i` polls.
pub open spec fn flags_from(flags: Seq<bool>, i: int) -> Seq<bool> {
    if i <= flags.len() {
        flags.skip(i)
    } else {
        Seq::empty()
    }
}

/// A run combined with what an earlier prefix delivered and read.
pub open spec fn run_prepend(events: Seq<EventVal>, consumed: int, rest: RunVal) -> RunVal {
    RunVal {
        events: events + rest.events,
        consumed: consumed + rest.consumed,
        outcome: rest.outcome,
    }
}

/// Run the dispatch loop over frames already in hand. The `i`-th poll of
/// the run flag reads `flags[i]`, and reads past the end of `flags` read
/// true; the run ends cleanly when a poll reads false or the frames run
/// out, and ends with the terminal error of the first terminal frame.
pub fn run_frames(frames: &Vec<RawFrame>, flags: &Vec<bool>) -> (r: RunLog)
    ensures
        r@ == spec_run(frames_view(frames@), flags@),
{
    let ghost fv = frames_view(frames@);
    let mut events: Vec<WebsocketEvent> = Vec::new();
    let mut i: usize = 0;
    proof {
        assert(fv.skip(0) =~= fv);
        assert(flags_from(flags@, 0) =~= flags@);
        assert(Seq::<EventVal>::empty() + spec_run(fv, flags@).events =~= spec_run(
            fv,
            flags@,
        ).events);
        assert(crate::json::elems_view(events@) =~= Seq::<EventVal>::empty());
    }
    loop
        invariant
            fv == frames_view(frames@),
            fv.len() == frames@.len(),
            i <= frames@.len(),
            i <= usize::MAX,
            spec_run(fv, flags@) == run_prepend(
                crate::json::elems_view(events@),
                i as int,
                spec_run(fv.skip(i as int), flags_from(flags@, i as int)),
            ),
        decreases frames@.len() - i,
    {
        let go: bool = if i < flags.len() {
            flags[i]
        } else {
            true
        };
        proof {
            assert(head_flag(flags_from(flags@, i as int)) == go);
        }
        if !go || i == frames.len() {
            let r = RunLog { events, consumed: i, outcome: Ok(()) };
            proof {
                assert(spec_run(fv.skip(i as int), flags_from(flags@, i as int)) == RunVal {
                    events: Seq::<EventVal>::empty(),
                    consumed: 0,
                    outcome: Ok(()),
                });
                assert(crate::json::elems_view(r.events@) + Seq::<EventVal>::empty()
                    =~= crate::json::elems_view(r.events@));
            }
            return r;
        }
        proof {
            assert(fv.skip(i as int)[0] == fv[i as int]);
            assert(fv.skip(i as int).drop_first() =~= fv.skip(i + 1));
            assert(fv[i as int] == frames@[i as int]@);
            assert(tail_flags(flags_from(flags@, i as int)) =~= flags_from(flags@, i + 1));
        }
        match dispatch_step(&frames[i]) {
            FrameStep::Deliver(ev) => {
                let ghost prev = events@;
                events.push(ev);
                proof {
                    assert(crate::json::elems_view(events@) =~= crate::json::elems_view(prev)
                        + seq![ev@]);
                    assert((crate::json::elems_view(prev) + seq![ev@]) + spec_run(
                        fv.skip(i + 1),
                        flags_from(flags@, i + 1),
                    ).events =~= crate::json::elems_view(prev) + (seq![ev@] + spec_run(
                        fv.skip(i + 1),
                        flags_from(flags@, i + 1),
                    ).events));
                }
                i += 1;
            },
            FrameStep::Skip => {
                i += 1;
            },
            FrameStep::Closed(reason) => {
                let r = RunLog {
                    events,
                    consumed: i + 1,
                    outcome: Err(WsError::PeerClosed(reason)),
                };
                proof {
                    assert(crate::json::elems_view(r.events@) + Seq::<EventVal>::empty()
                        =~= crate::json::elems_view(r.events@));
                }
                return r;
            },
            FrameStep::Fail(e) => {
                let r = RunLog { events, consumed: i + 1, outcome: Err(e) };
                proof {
                    assert(crate::json::elems_view(r.events@) + Seq::<EventVal>::empty()
                        =~= crate::json::elems_view(r.events@));
                }
                return r;
            },
        }
    }
}

/// Law: order preservation. Over any frames that each yield an event,
/// with the flag held true, the run delivers exactly one event per frame,
/// in arrival order, and ends cleanly.
pub proof fn lemma_order_preserved(frames: Seq<RawFrameVal>, flags: Seq<bool>)
    requires
        forall|i: int| 0 <= i < frames.len() ==> spec_step(#[trigger] frames[i]) is Deliver,
        forall|i: int| 0 <= i < flags.len() ==> flags[i],
    ensures
        spec_run(frames, flags).outcome is Ok,
        spec_run(frames, flags).consumed == frames.len(),
        spec_run(frames, flags).events.len() == frames.len(),
        forall|i: int|
            0 <= i < frames.len() ==> spec_run(frames, flags).events[i] == spec_step(
                #[trigger] frames[i],
            )->Deliver_0,
    decreases frames.len(),
{
    if frames.len() == 0 {
    } else {
        let ft = frames.drop_first();
        let gt = tail_flags(flags);
        assert(forall|i: int| 0 <= i < ft.len() ==> #[trigger] ft[i] == frames[i + 1]);
        assert(forall|i: int| 0 <= i < gt.len() ==> #[trigger] gt[i] == flags[i + 1]);
        lemma_order_preserved(ft, gt);
        let e = spec_step(frames[0])->Deliver_0;
        let rest = spec_run(ft, gt);
        assert(spec_run(frames, flags).events == seq![e] + rest.events);
        assert forall|i: int| 0 <= i < frames.len() implies spec_run(frames, flags).events[i]
            == spec_step(#[trigger] frames[i])->Deliver_0 by {
            if i == 0 {
                assert((seq![e] + rest.events)[0] == e);
            } else {
                assert((seq![e] + rest.events)[i] == rest.events[i - 1]);
                assert(ft[i - 1] == frames[i]);
            }
        }
    }
}

/// Law: termination on peer close. A close frame after a row of
/// event-yielding frames ends the run with the peer-closed error and its
/// stated reason, after exactly as many deliveries as there were frames
/// before it, with no further frame read.
pub proof fn lemma_close_terminates(
    frames: Seq<RawFrameVal>,
    flags: Seq<bool>,
    k: int,
    reason: Option<Seq<char>>,
)
    requires
        0 <= k < frames.len(),
        frames[k] == RawFrameVal::Close(reason),
        forall|i: int| 0 <= i < k ==> spec_step(#[trigger] frames[i]) is Deliver,
        forall|i: int| 0 <= i < flags.len() ==> flags[i],
    ensures
        spec_run(frames, flags).outcome == Err::<(), WsErrorVal>(WsErrorVal::PeerClosed(reason)),
        spec_run(frames, flags).events.len() == k,
        spec_run(frames, flags).consumed == k + 1,
    decreases k,
{
    if k == 0 {
        assert(spec_step(frames[0]) == FrameStepVal::Closed(reason));
    } else {
        let ft = frames.drop_first();
        let gt = tail_flags(flags);
        assert(forall|i: int| 0 <= i < ft.len() ==> #[trigger] ft[i] == frames[i + 1]);
        assert(forall|i: int| 0 <= i < gt.len() ==> #[trigger] gt[i] == flags[i + 1]);
        assert(ft[k - 1] == frames[k]);
        lemma_close_terminates(ft, gt, k - 1, reason);
    }
}

/// Law: cooperative stop. When the flag's `k`-th poll reads false and no
/// earlier frame was terminal, the run ends cleanly after exactly `k`
/// frames: the cleared flag is seen between two reads and nothing more is
/// read or delivered.
pub proof fn lemma_flag_stops(frames: Seq<RawFrameVal>, flags: Seq<bool>, k: int)
    requires
        0 <= k <= frames.len(),
        k < flags.len(),
        !flags[k],
        forall|i: int| 0 <= i < k ==> flags[i],
        forall|i: int|
            0 <= i < k ==> (spec_step(#[trigger] frames[i]) is Deliver || spec_step(frames[i])
                is Skip),
    ensures
        spec_run(frames, flags).outcome is Ok,
        spec_run(frames, flags).consumed == k,
    decreases k,
{
    if k == 0 {
        assert(!head_flag(flags));
    } else {
        let ft = frames.drop_first();
        let gt = tail_flags(flags);
        assert(forall|i: int| 0 <= i < ft.len() ==> #[trigger] ft[i] == frames[i + 1]);
        assert(forall|i: int| 0 <= i < gt.len() ==> #[trigger] gt[i] == flags[i + 1]);
        assert(head_flag(flags));
        lemma_flag_stops(ft, gt, k - 1);
    }
}

} // verus!
