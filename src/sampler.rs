//! The RSSI sampler: rounds of ping, acknowledgement and telemetry, driven as
//! a state machine over a serial link.

use vstd::prelude::*;
use crate::command::{build_ping, ping_frame};
use crate::expect::{
    pump, pump_spec, wait_start, wait_step, wait_wf, Expectation, WaitState, MAX_ATTEMPTS,
    MAX_BLANK_RUN,
};
use crate::link::{action_view, Action, Step};
use crate::reframer::{text_of, LineBuffer};
use crate::rssi::{average, average_of, extract_samples, line_samples};

verus! {

/// `<<0`: the acknowledgement that precedes a ping's telemetry.
pub open spec fn ack_marker() -> Seq<u8> {
    seq![60u8, 60, 48]
}

/// `rssi is`: the start of a telemetry line.
pub open spec fn rssi_marker() -> Seq<u8> {
    seq![114u8, 115, 115, 105, 32, 105, 115]
}

pub fn ack_marker_bytes() -> (r: Vec<u8>)
    ensures
        r@ == ack_marker(),
{
    let r = vec![60u8, 60, 48];
    assert(r@ =~= ack_marker());
    r
}

pub fn rssi_marker_bytes() -> (r: Vec<u8>)
    ensures
        r@ == rssi_marker(),
{
    let r = vec![114u8, 115, 115, 105, 32, 105, 115];
    assert(r@ =~= rssi_marker());
    r
}

pub open spec fn fresh_wait(marker: Seq<u8>) -> WaitState {
    wait_start(marker, MAX_ATTEMPTS as nat, MAX_BLANK_RUN as nat)
}

#[derive(Debug, Clone, Copy, PartialEq, Eq, Structural)]
pub enum SamplerStage {
    /// Stale input is to be discarded first.
    Flush,
    /// The next round's ping is due, or the rounds are over.
    Ping,
    /// Waiting for the acknowledgement of this round's ping.
    AwaitAck,
    /// Waiting for this round's telemetry line.
    AwaitRssi,
    Done,
}

/// The model of a sampler: rounds asked and started, the target pinged, the
/// stage, the current wait, whether a backoff is owed, the samples so far.
pub struct SamplerModel {
    pub times: nat,
    pub target: i32,
    pub cycle: nat,
    pub stage: SamplerStage,
    pub wait: WaitState,
    pub backoff_due: bool,
    pub samples: Seq<i32>,
}

pub open spec fn sampler_start(times: nat, target: i32) -> SamplerModel {
    SamplerModel {
        times,
        target,
        cycle: 0,
        stage: SamplerStage::Flush,
        wait: fresh_wait(ack_marker()),
        backoff_due: false,
        samples: Seq::empty(),
    }
}

/// Start the next round with its ping, or finish when all rounds were run.
pub open spec fn ping_or_finish(m: SamplerModel, b: Seq<u8>) -> (SamplerModel, Seq<u8>, Step) {
    if m.cycle >= m.times {
        (SamplerModel { stage: SamplerStage::Done, ..m }, b, Step::Done)
    } else {
        (
            SamplerModel {
                cycle: m.cycle + 1,
                stage: SamplerStage::AwaitAck,
                wait: fresh_wait(ack_marker()),
                ..m
            },
            b,
            Step::Send(ping_frame(m.target)),
        )
    }
}

/// The samples a settled telemetry wait contributes: those of its matched line.
pub open spec fn wait_samples(w: WaitState) -> Seq<i32> {
    match w.outcome {
        Some(Some(line)) => line_samples(line),
        _ => Seq::empty(),
    }
}

pub open spec fn await_rssi(m: SamplerModel, b: Seq<u8>) -> (SamplerModel, Seq<u8>, Step) {
    let (w, rest) = pump_spec(m.wait, b);
    if w.outcome is None {
        (SamplerModel { wait: w, ..m }, rest, Step::Read)
    } else {
        ping_or_finish(
            SamplerModel { stage: SamplerStage::Ping, wait: w, samples: m.samples + wait_samples(w), ..m },
            rest,
        )
    }
}

/// The sampler's next action, with its new state and the bytes left held.
pub open spec fn sampler_next(m: SamplerModel, b: Seq<u8>) -> (SamplerModel, Seq<u8>, Step) {
    match m.stage {
        SamplerStage::Flush => (SamplerModel { stage: SamplerStage::Ping, ..m }, b, Step::Flush),
        SamplerStage::Ping => ping_or_finish(m, b),
        SamplerStage::Done => (m, b, Step::Done),
        _ => if m.backoff_due {
            (SamplerModel { backoff_due: false, ..m }, b, Step::Backoff)
        } else if m.stage is AwaitAck {
            let (w, rest) = pump_spec(m.wait, b);
            if w.outcome is None {
                (SamplerModel { wait: w, ..m }, rest, Step::Read)
            } else {
                await_rssi(
                    SamplerModel {
                        stage: SamplerStage::AwaitRssi,
                        wait: fresh_wait(rssi_marker()),
                        ..m
                    },
                    rest,
                )
            }
        } else {
            await_rssi(m, b)
        },
    }
}

/// The sampler after a chunk was read: its text is held, and a wait in
/// progress counts the poll as one that brought no line.
pub open spec fn sampler_on_chunk(m: SamplerModel, b: Seq<u8>, chunk: Seq<u8>) -> (
    SamplerModel,
    Seq<u8>,
) {
    let held = b + text_of(chunk);
    if (m.stage is AwaitAck || m.stage is AwaitRssi) && m.wait.outcome is None {
        (
            SamplerModel { wait: wait_step(m.wait, None), backoff_due: chunk.len() == 0, ..m },
            held,
        )
    } else {
        (m, held)
    }
}

/// Nothing held, no sample gathered, and the current wait matched nothing.
pub open spec fn silent_so_far(m: SamplerModel, b: Seq<u8>) -> bool {
    &&& b.len() == 0
    &&& m.samples.len() == 0
    &&& !(m.wait.outcome matches Some(Some(_)))
}

/// Against a board that never sends a byte, a sampler gathers no sample:
/// neither its actions nor the empty chunks it reads change that.
pub proof fn lemma_silent_board(m: SamplerModel, b: Seq<u8>)
    requires
        silent_so_far(m, b),
    ensures
        silent_so_far(sampler_next(m, b).0, sampler_next(m, b).1),
        silent_so_far(
            sampler_on_chunk(m, b, Seq::empty()).0,
            sampler_on_chunk(m, b, Seq::empty()).1,
        ),
{
    assert(text_of(Seq::<u8>::empty()) =~= Seq::<u8>::empty());
    assert(b + Seq::<u8>::empty() =~= b);
    assert(m.samples + Seq::<i32>::empty() =~= m.samples);
}

/// Runs `times` rounds against one target and averages what they measured.
pub struct Sampler {
    times: u32,
    target: i32,
    cycle: u32,
    stage: SamplerStage,
    wait: Expectation,
    backoff_due: bool,
    samples: Vec<i32>,
}

impl View for Sampler {
    type V = SamplerModel;

    closed spec fn view(&self) -> SamplerModel {
        SamplerModel {
            times: self.times as nat,
            target: self.target,
            cycle: self.cycle as nat,
            stage: self.stage,
            wait: self.wait@,
            backoff_due: self.backoff_due,
            samples: self.samples@,
        }
    }
}

impl Sampler {
    pub open spec fn wf(&self) -> bool {
        &&& wait_wf(self@.wait)
        &&& self@.cycle <= self@.times
        &&& self@.times <= u32::MAX
    }

    pub fn new(times: u32, target: i32) -> (r: Sampler)
        ensures
            r@ == sampler_start(times as nat, target),
            r.wf(),
    {
        Sampler {
            times,
            target,
            cycle: 0,
            stage: SamplerStage::Flush,
            wait: Expectation::standard(ack_marker_bytes()),
            backoff_due: false,
            samples: Vec::new(),
        }
    }

    fn ping_or_finish(&mut self) -> (a: Action)
        requires
            old(self).wf(),
        ensures
            final(self).wf(),
            (final(self)@, Seq::<u8>::empty(), action_view(a)) == ping_or_finish(
                old(self)@,
                Seq::<u8>::empty(),
            ),
    {
        if self.cycle >= self.times {
            self.stage = SamplerStage::Done;
            Action::Done
        } else {
            self.cycle = self.cycle + 1;
            self.stage = SamplerStage::AwaitAck;
            self.wait = Expectation::standard(ack_marker_bytes());
            Action::Send(build_ping(self.target))
        }
    }

    fn await_rssi(&mut self, buf: &mut LineBuffer) -> (a: Action)
        requires
            old(self).wf(),
        ensures
            final(self).wf(),
            (final(self)@, final(buf)@, action_view(a)) == await_rssi(old(self)@, old(buf)@),
    {
        pump(&mut self.wait, buf);
        if !self.wait.is_settled() {
            return Action::Read;
        }
        match self.wait.matched_line() {
            Some(line) => extract_samples(&line, &mut self.samples),
            None => {
                assert(self.samples@ =~= self.samples@ + Seq::<i32>::empty());
            },
        }
        self.stage = SamplerStage::Ping;
        self.ping_or_finish()
    }

    /// Decides what the link does next (see `sampler_next`).
    pub fn next_action(&mut self, buf: &mut LineBuffer) -> (a: Action)
        requires
            old(self).wf(),
        ensures
            final(self).wf(),
            (final(self)@, final(buf)@, action_view(a)) == sampler_next(old(self)@, old(buf)@),
    {
        match self.stage {
            SamplerStage::Flush => {
                self.stage = SamplerStage::Ping;
                Action::Flush
            },
            SamplerStage::Ping => self.ping_or_finish(),
            SamplerStage::Done => Action::Done,
            SamplerStage::AwaitAck => {
                if self.backoff_due {
                    self.backoff_due = false;
                    return Action::Backoff;
                }
                pump(&mut self.wait, buf);
                if !self.wait.is_settled() {
                    return Action::Read;
                }
                self.stage = SamplerStage::AwaitRssi;
                self.wait = Expectation::standard(rssi_marker_bytes());
                self.await_rssi(buf)
            },
            SamplerStage::AwaitRssi => {
                if self.backoff_due {
                    self.backoff_due = false;
                    return Action::Backoff;
                }
                self.await_rssi(buf)
            },
        }
    }

    /// Takes in a chunk read for the `Read` action (see `sampler_on_chunk`).
    pub fn on_chunk(&mut self, buf: &mut LineBuffer, chunk: &[u8])
        requires
            old(self).wf(),
        ensures
            final(self).wf(),
            (final(self)@, final(buf)@) == sampler_on_chunk(old(self)@, old(buf)@, chunk@),
    {
        buf.push_chunk(chunk);
        if (self.stage == SamplerStage::AwaitAck || self.stage == SamplerStage::AwaitRssi)
            && !self.wait.is_settled() {
            self.wait.observe(None);
            self.backoff_due = chunk.len() == 0;
        }
    }

    pub fn is_done(&self) -> (r: bool)
        ensures
            r == (self@.stage == SamplerStage::Done),
    {
        self.stage == SamplerStage::Done
    }

    /// Rounds started so far.
    pub fn rounds_started(&self) -> (r: u32)
        ensures
            r == self@.cycle,
    {
        self.cycle
    }

    /// The samples measured so far.
    pub fn samples(&self) -> (r: Vec<i32>)
        ensures
            r@ == self@.samples,
    {
        self.samples.clone()
    }

    /// The mean of the samples, truncated toward zero; `None` without any.
    pub fn average(&self) -> (r: Option<i32>)
        ensures
            r == average_of(self@.samples),
    {
        average(&self.samples)
    }
}

} // verus!
