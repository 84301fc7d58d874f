//! A device session: the startup handshake, the plan of a test run, and the
//! outcome record it produces.

use vstd::prelude::*;
use vstd::string::{StringExecFns, StringSliceAdditionalSpecFns};
use crate::chip::{PingTopology, SoftTypes};
use crate::expect::{pump, pump_spec, wait_start, wait_step, wait_wf, Expectation, WaitState, MAX_ATTEMPTS, MAX_BLANK_RUN};
use crate::link::{action_view, Action, Step};
use crate::numeric::{decimal_string, parse_i32, parsed_i32, signed_decimal_chars};
use crate::reframer::{text_of, LineBuffer};
use crate::rssi::average_of;
use crate::sampler::{sampler_start, Sampler};

verus! {

/// Rounds of ping and telemetry in one signal measurement.
pub const RSSI_ROUNDS: u32 = 4;

/// `i'm a master`: the banner a master prints when it starts.
pub open spec fn banner_marker() -> Seq<u8> {
    seq![105u8, 39, 109, 32, 97, 32, 109, 97, 115, 116, 101, 114]
}

pub fn banner_marker_bytes() -> (r: Vec<u8>)
    ensures
        r@ == banner_marker(),
{
    let r = vec![105u8, 39, 109, 32, 97, 32, 109, 97, 115, 116, 101, 114];
    assert(r@ =~= banner_marker());
    r
}

#[derive(Debug, Clone, Copy, PartialEq, Eq, Structural)]
pub enum HandshakeStage {
    /// Stale input is to be discarded first.
    Flush,
    /// Waiting for the banner.
    Banner,
    Done,
}

/// The model of a handshake: its stage, whether the role waits for a banner,
/// the banner wait, and whether a backoff is owed.
pub struct HandshakeModel {
    pub stage: HandshakeStage,
    pub needs_banner: bool,
    pub wait: WaitState,
    pub backoff_due: bool,
}

pub open spec fn handshake_start(role: SoftTypes) -> HandshakeModel {
    HandshakeModel {
        stage: HandshakeStage::Flush,
        needs_banner: role.spec_needs_handshake(),
        wait: wait_start(banner_marker(), MAX_ATTEMPTS as nat, MAX_BLANK_RUN as nat),
        backoff_due: false,
    }
}

/// The handshake's next action, with its new state and the bytes left held.
/// The banner wait ends the handshake however it settles.
pub open spec fn handshake_next(m: HandshakeModel, b: Seq<u8>) -> (HandshakeModel, Seq<u8>, Step) {
    match m.stage {
        HandshakeStage::Flush => if m.needs_banner {
            (HandshakeModel { stage: HandshakeStage::Banner, ..m }, b, Step::Flush)
        } else {
            (HandshakeModel { stage: HandshakeStage::Done, ..m }, b, Step::Flush)
        },
        HandshakeStage::Banner => if m.backoff_due {
            (HandshakeModel { backoff_due: false, ..m }, b, Step::Backoff)
        } else {
            let (w, rest) = pump_spec(m.wait, b);
            if w.outcome is None {
                (HandshakeModel { wait: w, ..m }, rest, Step::Read)
            } else {
                (HandshakeModel { wait: w, stage: HandshakeStage::Done, ..m }, rest, Step::Done)
            }
        },
        HandshakeStage::Done => (m, b, Step::Done),
    }
}

/// The handshake after a chunk was read (as for the sampler).
pub open spec fn handshake_on_chunk(m: HandshakeModel, b: Seq<u8>, chunk: Seq<u8>) -> (
    HandshakeModel,
    Seq<u8>,
) {
    let held = b + text_of(chunk);
    if m.stage is Banner && m.wait.outcome is None {
        (
            HandshakeModel { wait: wait_step(m.wait, None), backoff_due: chunk.len() == 0, ..m },
            held,
        )
    } else {
        (m, held)
    }
}

/// The startup of a session: discard boot noise, then, for a master, wait for
/// its banner.
pub struct Handshake {
    stage: HandshakeStage,
    needs_banner: bool,
    wait: Expectation,
    backoff_due: bool,
}

impl View for Handshake {
    type V = HandshakeModel;

    closed spec fn view(&self) -> HandshakeModel {
        HandshakeModel {
            stage: self.stage,
            needs_banner: self.needs_banner,
            wait: self.wait@,
            backoff_due: self.backoff_due,
        }
    }
}

impl Handshake {
    pub open spec fn wf(&self) -> bool {
        wait_wf(self@.wait)
    }

    pub fn new(role: SoftTypes) -> (r: Handshake)
        ensures
            r@ == handshake_start(role),
            r.wf(),
    {
        Handshake {
            stage: HandshakeStage::Flush,
            needs_banner: role.needs_handshake(),
            wait: Expectation::standard(banner_marker_bytes()),
            backoff_due: false,
        }
    }

    /// Decides what the link does next (see `handshake_next`).
    pub fn next_action(&mut self, buf: &mut LineBuffer) -> (a: Action)
        requires
            old(self).wf(),
        ensures
            final(self).wf(),
            (final(self)@, final(buf)@, action_view(a)) == handshake_next(old(self)@, old(buf)@),
    {
        match self.stage {
            HandshakeStage::Flush => {
                self.stage = if self.needs_banner {
                    HandshakeStage::Banner
                } else {
                    HandshakeStage::Done
                };
                Action::Flush
            },
            HandshakeStage::Banner => {
                if self.backoff_due {
                    self.backoff_due = false;
                    return Action::Backoff;
                }
                pump(&mut self.wait, buf);
                if !self.wait.is_settled() {
                    return Action::Read;
                }
                self.stage = HandshakeStage::Done;
                Action::Done
            },
            HandshakeStage::Done => Action::Done,
        }
    }

    /// Takes in a chunk read for the `Read` action (see `handshake_on_chunk`).
    pub fn on_chunk(&mut self, buf: &mut LineBuffer, chunk: &[u8])
        requires
            old(self).wf(),
        ensures
            final(self).wf(),
            (final(self)@, final(buf)@) == handshake_on_chunk(old(self)@, old(buf)@, chunk@),
    {
        buf.push_chunk(chunk);
        if self.stage == HandshakeStage::Banner && !self.wait.is_settled() {
            self.wait.observe(None);
            self.backoff_due = chunk.len() == 0;
        }
    }

    pub fn is_done(&self) -> (r: bool)
        ensures
            r == (self@.stage == HandshakeStage::Done),
    {
        self.stage == HandshakeStage::Done
    }

    /// Whether the banner arrived.
    pub fn banner_seen(&self) -> (r: bool)
        ensures
            r == (self@.wait.outcome matches Some(Some(_))),
    {
        self.wait.matched_line().is_some()
    }
}


/// Reads a board identifier written in decimal, as `str::parse::<i32>` does.
pub fn parse_id(text: &str) -> (r: Option<i32>)
    ensures
        r == parsed_i32(text.spec_bytes()),
{
    parse_i32(text.as_bytes())
}

/// How the signal of a board under test is measured: from where, against
/// which identifier, over how many rounds.
#[derive(Debug, Clone, Copy, PartialEq, Eq, Structural)]
pub struct Probe {
    pub topology: PingTopology,
    pub target: i32,
    pub rounds: u32,
}

impl Probe {
    /// The sampler that carries out this probe.
    pub fn sampler(&self) -> (r: Sampler)
        ensures
            r@ == sampler_start(self.rounds as nat, self.target),
            r.wf(),
    {
        Sampler::new(self.rounds, self.target)
    }
}

/// Why a test run cannot be carried out.
#[derive(Debug, Clone, Copy, PartialEq, Eq, Structural)]
pub enum PlanError {
    /// A master was flashed but no identifier to ping was given.
    MissingPingTarget,
    /// The identifier to ping is not a decimal `i32`.
    InvalidPingTarget,
    /// A relay was flashed but the session has no identifier of its own.
    MissingOwnId,
    /// A relay was flashed but no port for the companion master was given.
    MissingCompanionPort,
}

/// The plan of a test run: nothing to measure for a board that was not
/// flashed; a master pings the given target itself; a relay is pinged by a
/// companion master, against its own identifier.
pub open spec fn test_plan(
    role: SoftTypes,
    own_id: Option<i32>,
    ping_target: Option<Seq<u8>>,
    flashed: bool,
    has_companion: bool,
) -> Result<Option<Probe>, PlanError> {
    if !flashed {
        Ok(None)
    } else if role.spec_ping_topology() == PingTopology::Direct {
        match ping_target {
            None => Err(PlanError::MissingPingTarget),
            Some(text) => match parsed_i32(text) {
                None => Err(PlanError::InvalidPingTarget),
                Some(target) => Ok(
                    Some(Probe { topology: PingTopology::Direct, target, rounds: RSSI_ROUNDS }),
                ),
            },
        }
    } else if !has_companion {
        Err(PlanError::MissingCompanionPort)
    } else {
        match own_id {
            None => Err(PlanError::MissingOwnId),
            Some(id) => Ok(
                Some(Probe { topology: PingTopology::ViaCompanion, target: id, rounds: RSSI_ROUNDS }),
            ),
        }
    }
}

pub open spec fn opt_text_bytes(text: Option<&str>) -> Option<Seq<u8>> {
    match text {
        Some(t) => Some(t.spec_bytes()),
        None => None,
    }
}

/// Plans a test run (see `test_plan`).
pub fn plan_test(
    role: SoftTypes,
    own_id: Option<i32>,
    ping_target: Option<&str>,
    flashed: bool,
    has_companion: bool,
) -> (r: Result<Option<Probe>, PlanError>)
    ensures
        r == test_plan(role, own_id, opt_text_bytes(ping_target), flashed, has_companion),
{
    if !flashed {
        return Ok(None);
    }
    match role.ping_topology() {
        PingTopology::Direct => match ping_target {
            None => Err(PlanError::MissingPingTarget),
            Some(text) => match parse_id(text) {
                None => Err(PlanError::InvalidPingTarget),
                Some(target) => Ok(
                    Some(Probe { topology: PingTopology::Direct, target, rounds: RSSI_ROUNDS }),
                ),
            },
        },
        PingTopology::ViaCompanion => {
            if !has_companion {
                return Err(PlanError::MissingCompanionPort);
            }
            match own_id {
                None => Err(PlanError::MissingOwnId),
                Some(id) => Ok(
                    Some(Probe { topology: PingTopology::ViaCompanion, target: id, rounds: RSSI_ROUNDS }),
                ),
            }
        },
    }
}

/// The record a test run produces.
#[derive(Debug, Clone, Copy, PartialEq, Eq, Structural)]
pub enum TestOutcome {
    /// The board was not flashed, so it was not probed.
    Unflashed,
    /// The board was flashed and probed: the averaged signal, if any sample came.
    Measured(Option<i32>),
}

/// The text recorded for a measurement: the average in decimal, or `n/a`.
pub open spec fn rssi_text(average: Option<i32>) -> Seq<char> {
    match average {
        Some(v) => signed_decimal_chars(v as int),
        None => "n/a"@,
    }
}

/// The record as metric names and values, in order.
pub open spec fn outcome_entries(o: TestOutcome) -> Seq<(Seq<char>, Seq<char>)> {
    match o {
        TestOutcome::Unflashed => seq![("flashed"@, "false"@)],
        TestOutcome::Measured(average) => seq![("flashed"@, "true"@), ("rssi"@, rssi_text(average))],
    }
}

/// The record as a mapping from metric name to value.
pub open spec fn outcome_map(o: TestOutcome) -> Map<Seq<char>, Seq<char>> {
    match o {
        TestOutcome::Unflashed => map!["flashed"@ => "false"@],
        TestOutcome::Measured(average) => map!["flashed"@ => "true"@, "rssi"@ => rssi_text(average)],
    }
}

pub open spec fn test_outcome(flashed: bool, average: Option<i32>) -> TestOutcome {
    if flashed {
        TestOutcome::Measured(average)
    } else {
        TestOutcome::Unflashed
    }
}

impl TestOutcome {
    /// The record of a run: `flashed` always, and the measurement only for a
    /// flashed board.
    pub fn new(flashed: bool, average: Option<i32>) -> (r: TestOutcome)
        ensures
            r == test_outcome(flashed, average),
    {
        if flashed {
            TestOutcome::Measured(average)
        } else {
            TestOutcome::Unflashed
        }
    }

    /// The record's metric names and values, in order, with distinct names.
    pub fn entries(&self) -> (r: Vec<(String, String)>)
        ensures
            r@.map_values(|e: (String, String)| (e.0@, e.1@)) == outcome_entries(*self),
            forall|i: int, j: int|
                0 <= i < j < r@.len() ==> r@[i].0@ != r@[j].0@,
            forall|i: int|
                0 <= i < r@.len() ==> outcome_map(*self).contains_key(#[trigger] r@[i].0@)
                    && outcome_map(*self)[r@[i].0@] == r@[i].1@,
            outcome_map(*self).dom().len() == r@.len(),
    {
        proof {
            reveal_strlit("flashed");
            reveal_strlit("rssi");
        }
        let mut r: Vec<(String, String)> = Vec::new();
        match self {
            TestOutcome::Unflashed => {
                r.push((String::from_str("flashed"), String::from_str("false")));
            },
            TestOutcome::Measured(average) => {
                r.push((String::from_str("flashed"), String::from_str("true")));
                let value = match average {
                    Some(v) => decimal_string(*v),
                    None => String::from_str("n/a"),
                };
                r.push((String::from_str("rssi"), value));
            },
        }
        assert("flashed"@ != "rssi"@) by {
            assert("flashed"@.len() != "rssi"@.len());
        }
        assert(r@.map_values(|e: (String, String)| (e.0@, e.1@)) =~= outcome_entries(*self));
        r
    }
}


/// A board that was not flashed is not probed, whatever else is given, and
/// its record is exactly `flashed: false`, with no `rssi` entry.
pub proof fn lemma_unflashed_record(
    role: SoftTypes,
    own_id: Option<i32>,
    ping_target: Option<Seq<u8>>,
    has_companion: bool,
    average: Option<i32>,
)
    ensures
        test_plan(role, own_id, ping_target, false, has_companion) == Ok::<Option<Probe>, PlanError>(None),
        outcome_map(test_outcome(false, average)) == map!["flashed"@ => "false"@],
        !outcome_map(test_outcome(false, average)).contains_key("rssi"@),
{
    reveal_strlit("flashed");
    reveal_strlit("rssi");
    assert("flashed"@ != "rssi"@) by {
        assert("flashed"@.len() != "rssi"@.len());
    }
}

/// A flashed master whose probe gathered no sample is recorded as
/// `flashed: true` and `rssi: n/a`.
pub proof fn lemma_silent_master_record(
    own_id: Option<i32>,
    ping_target: Seq<u8>,
    has_companion: bool,
    samples: Seq<i32>,
)
    requires
        test_plan(SoftTypes::Master, own_id, Some(ping_target), true, has_companion) is Ok,
        samples.len() == 0,
    ensures
        test_plan(SoftTypes::Master, own_id, Some(ping_target), true, has_companion)->Ok_0
            matches Some(p) && p.topology == PingTopology::Direct,
        outcome_map(test_outcome(true, average_of(samples))) == map![
            "flashed"@ => "true"@,
            "rssi"@ => "n/a"@
        ],
{
}

} // verus!
