//! Waiting for a line that holds a marker, under a bound on poll cycles and a
//! bound on consecutive blank polls.

use vstd::prelude::*;
use crate::reframer::{
    first_line_len, is_complete_line, lemma_first_line_len, newline_free, LineBuffer, NEWLINE,
};

verus! {

/// Poll cycles one wait may use.
pub const MAX_ATTEMPTS: u32 = 30;

/// Consecutive blank polls after which a wait gives up.
pub const MAX_BLANK_RUN: u32 = 5;

pub const CARRIAGE_RETURN: u8 = 13;

/// `needle` occurs in `hay` as a contiguous run.
pub open spec fn contains_seq(hay: Seq<u8>, needle: Seq<u8>) -> bool {
    exists|i: int| 0 <= i <= hay.len() - needle.len() && #[trigger] hay.subrange(i, i + needle.len()) == needle
}

/// A line with no content: empty, or nothing but its terminator.
pub open spec fn is_blank_line(line: Seq<u8>) -> bool {
    line == Seq::<u8>::empty() || line == seq![NEWLINE] || line == seq![CARRIAGE_RETURN] || line
        == seq![CARRIAGE_RETURN, NEWLINE]
}

/// A poll that yielded no line, or a blank one.
pub open spec fn is_blank_poll(poll: Option<Seq<u8>>) -> bool {
    match poll {
        None => true,
        Some(line) => is_blank_line(line),
    }
}

/// The model of one wait: its marker and bounds, the poll cycles used, the
/// current run of blank polls, and how it settled (`None` while it runs;
/// `Some(None)` when it gave up; `Some(Some(line))` when `line` matched).
pub struct WaitState {
    pub marker: Seq<u8>,
    pub max_attempts: nat,
    pub max_blank_run: nat,
    pub attempts: nat,
    pub blank_run: nat,
    pub outcome: Option<Option<Seq<u8>>>,
}

pub open spec fn wait_wf(s: WaitState) -> bool {
    &&& s.attempts <= s.max_attempts
    &&& s.blank_run <= s.max_blank_run
    &&& s.blank_run <= s.attempts
    &&& s.outcome is None ==> s.attempts < s.max_attempts && s.blank_run < s.max_blank_run
}

/// A fresh wait for `marker`; one allowed no poll cycle has already given up.
pub open spec fn wait_start(marker: Seq<u8>, max_attempts: nat, max_blank_run: nat) -> WaitState {
    WaitState {
        marker,
        max_attempts,
        max_blank_run,
        attempts: 0,
        blank_run: 0,
        outcome: if max_attempts == 0 || max_blank_run == 0 {
            Some(None)
        } else {
            None
        },
    }
}

/// One poll cycle of a wait. A settled wait ignores further polls.
pub open spec fn wait_step(s: WaitState, poll: Option<Seq<u8>>) -> WaitState {
    if s.outcome is Some {
        s
    } else {
        let attempts = s.attempts + 1;
        if is_blank_poll(poll) {
            let blank_run = s.blank_run + 1;
            WaitState {
                attempts,
                blank_run,
                outcome: if blank_run >= s.max_blank_run || attempts >= s.max_attempts {
                    Some(None)
                } else {
                    None
                },
                ..s
            }
        } else {
            let line = poll->Some_0;
            WaitState {
                attempts,
                blank_run: 0,
                outcome: if contains_seq(line, s.marker) {
                    Some(Some(line))
                } else if attempts >= s.max_attempts {
                    Some(None)
                } else {
                    None
                },
                ..s
            }
        }
    }
}

/// The wait after a sequence of polls.
pub open spec fn wait_run(s: WaitState, polls: Seq<Option<Seq<u8>>>) -> WaitState
    decreases polls.len(),
{
    if polls.len() == 0 {
        s
    } else {
        wait_step(wait_run(s, polls.drop_last()), polls.last())
    }
}

proof fn lemma_wait_run_wf(s: WaitState, polls: Seq<Option<Seq<u8>>>)
    requires
        wait_wf(s),
    ensures
        wait_wf(wait_run(s, polls)),
        wait_run(s, polls).max_attempts == s.max_attempts,
        wait_run(s, polls).max_blank_run == s.max_blank_run,
        wait_run(s, polls).attempts <= s.attempts + polls.len(),
        wait_run(s, polls).outcome is None ==> wait_run(s, polls).attempts == s.attempts
            + polls.len(),
        s.outcome is Some ==> wait_run(s, polls) == s,
    decreases polls.len(),
{
    if polls.len() > 0 {
        lemma_wait_run_wf(s, polls.drop_last());
    }
}

/// A wait that started settled stays as it was; a wait in progress has its
/// blank run grow by one on each blank poll.
proof fn lemma_wait_blank_tail(s: WaitState, polls: Seq<Option<Seq<u8>>>, i: int, j: int)
    requires
        wait_wf(s),
        0 <= i <= j <= polls.len(),
        forall|k: int| i <= k < j ==> is_blank_poll(#[trigger] polls[k]),
    ensures
        wait_run(s, polls.subrange(0, j)).outcome is Some || wait_run(
            s,
            polls.subrange(0, j),
        ).blank_run >= j - i,
    decreases j - i,
{
    if i < j {
        lemma_wait_blank_tail(s, polls, i, j - 1);
        let p = polls.subrange(0, j);
        assert(p.drop_last() =~= polls.subrange(0, j - 1));
        lemma_wait_run_wf(s, polls.subrange(0, j - 1));
    }
}

/// A wait never uses more poll cycles than its bound, and settles once that
/// many cycles were polled; nor does it tolerate a run of blank polls as long
/// as its blank bound: after such a run it has settled.
pub proof fn lemma_wait_bounds(
    marker: Seq<u8>,
    max_attempts: nat,
    max_blank_run: nat,
    polls: Seq<Option<Seq<u8>>>,
)
    ensures
        ({
            let end = wait_run(wait_start(marker, max_attempts, max_blank_run), polls);
            &&& end.attempts <= max_attempts
            &&& end.attempts <= polls.len()
            &&& polls.len() >= max_attempts ==> end.outcome is Some
        }),
        forall|i: int|
            0 <= i && i + max_blank_run <= polls.len() && (forall|k: int|
                i <= k < i + max_blank_run ==> is_blank_poll(#[trigger] polls[k])) ==> (#[trigger] wait_run(
                wait_start(marker, max_attempts, max_blank_run),
                polls.subrange(0, i + max_blank_run),
            )).outcome is Some,
{
    let s = wait_start(marker, max_attempts, max_blank_run);
    lemma_wait_run_wf(s, polls);
    assert forall|i: int|
        0 <= i && i + max_blank_run <= polls.len() && (forall|k: int|
            i <= k < i + max_blank_run ==> is_blank_poll(#[trigger] polls[k])) implies (#[trigger] wait_run(
        s,
        polls.subrange(0, i + max_blank_run),
    )).outcome is Some by {
        lemma_wait_blank_tail(s, polls, i, i + max_blank_run);
        lemma_wait_run_wf(s, polls.subrange(0, i + max_blank_run));
    }
}


/// Whether `needle` occurs in `hay`.
pub fn contains(hay: &Vec<u8>, needle: &Vec<u8>) -> (r: bool)
    ensures
        r == contains_seq(hay@, needle@),
{
    if needle.len() > hay.len() {
        return false;
    }
    let n = hay.len();
    let last = n - needle.len();
    let mut i: usize = 0;
    while i <= last
        invariant
            last == hay@.len() - needle@.len(),
            needle@.len() <= hay@.len(),
            n == hay@.len(),
            forall|k: int| 0 <= k < i ==> #[trigger] hay@.subrange(k, k + needle@.len()) != needle@,
        decreases last + 1 - i,
    {
        let mut j: usize = 0;
        let mut same = true;
        while j < needle.len()
            invariant
                i <= last,
                last == hay@.len() - needle@.len(),
                needle@.len() <= hay@.len(),
                n == hay@.len(),
                0 <= j <= needle@.len(),
                same == (forall|k: int| 0 <= k < j ==> hay@[i + k] == #[trigger] needle@[k]),
            decreases needle@.len() - j,
        {
            if hay[i + j] != needle[j] {
                same = false;
            }
            j = j + 1;
        }
        if same {
            assert(hay@.subrange(i as int, i + needle@.len()) =~= needle@);
            return true;
        }
        assert(!(forall|k: int| 0 <= k < j ==> hay@[i + k] == #[trigger] needle@[k]));
        assert(hay@.subrange(i as int, i + needle@.len()) != needle@) by {
            let k = choose|k: int| 0 <= k < j && hay@[i + k] != #[trigger] needle@[k];
            assert(hay@.subrange(i as int, i + needle@.len())[k] == hay@[i + k]);
        }
        if i == last {
            return false;
        }
        i = i + 1;
    }
    false
}

pub open spec fn opt_line_view(line: Option<Vec<u8>>) -> Option<Seq<u8>> {
    match line {
        Some(l) => Some(l@),
        None => None,
    }
}

pub open spec fn outcome_view(o: Option<Option<Vec<u8>>>) -> Option<Option<Seq<u8>>> {
    match o {
        Some(m) => Some(opt_line_view(m)),
        None => None,
    }
}

/// One wait for a line holding a marker (see `WaitState`).
pub struct Expectation {
    marker: Vec<u8>,
    max_attempts: u32,
    max_blank_run: u32,
    attempts: u32,
    blank_run: u32,
    outcome: Option<Option<Vec<u8>>>,
}

impl View for Expectation {
    type V = WaitState;

    closed spec fn view(&self) -> WaitState {
        WaitState {
            marker: self.marker@,
            max_attempts: self.max_attempts as nat,
            max_blank_run: self.max_blank_run as nat,
            attempts: self.attempts as nat,
            blank_run: self.blank_run as nat,
            outcome: outcome_view(self.outcome),
        }
    }
}

impl Expectation {
    pub open spec fn wf(&self) -> bool {
        wait_wf(self@)
    }

    /// A wait for `marker` under the given bounds.
    pub fn new(marker: Vec<u8>, max_attempts: u32, max_blank_run: u32) -> (r: Expectation)
        ensures
            r@ == wait_start(marker@, max_attempts as nat, max_blank_run as nat),
            r.wf(),
    {
        let outcome = if max_attempts == 0 || max_blank_run == 0 {
            Some(None)
        } else {
            None
        };
        Expectation { marker, max_attempts, max_blank_run, attempts: 0, blank_run: 0, outcome }
    }

    /// A wait for `marker` under the standard bounds.
    pub fn standard(marker: Vec<u8>) -> (r: Expectation)
        ensures
            r@ == wait_start(marker@, MAX_ATTEMPTS as nat, MAX_BLANK_RUN as nat),
            r.wf(),
    {
        Expectation::new(marker, MAX_ATTEMPTS, MAX_BLANK_RUN)
    }

    pub fn is_settled(&self) -> (r: bool)
        ensures
            r == self@.outcome is Some,
    {
        self.outcome.is_some()
    }

    /// The matched line, once the wait matched one.
    pub fn matched_line(&self) -> (r: Option<Vec<u8>>)
        ensures
            self@.outcome matches Some(Some(line)) ==> r matches Some(l) && l@ == line,
            !(self@.outcome matches Some(Some(_))) ==> r is None,
    {
        match &self.outcome {
            Some(Some(line)) => Some(line.clone()),
            _ => None,
        }
    }

    /// Poll cycles used so far.
    pub fn attempts(&self) -> (r: u32)
        ensures
            r == self@.attempts,
    {
        self.attempts
    }

    /// Records one poll cycle: the line it yielded, or `None` for no line yet.
    pub fn observe(&mut self, poll: Option<Vec<u8>>)
        requires
            old(self).wf(),
        ensures
            final(self)@ == wait_step(old(self)@, opt_line_view(poll)),
            final(self).wf(),
    {
        if self.outcome.is_some() {
            return;
        }
        self.attempts = self.attempts + 1;
        let blank = match &poll {
            None => true,
            Some(line) => is_blank(line),
        };
        if blank {
            self.blank_run = self.blank_run + 1;
            if self.blank_run >= self.max_blank_run || self.attempts >= self.max_attempts {
                self.outcome = Some(None);
            }
        } else {
            self.blank_run = 0;
            match poll {
                Some(line) => {
                    if contains(&line, &self.marker) {
                        self.outcome = Some(Some(line));
                    } else if self.attempts >= self.max_attempts {
                        self.outcome = Some(None);
                    }
                },
                None => {},
            }
        }
    }
}

/// A wait fed with the complete lines held in `b`, one poll cycle each, until
/// it settles or no complete line is left; with what then stays held.
pub open spec fn pump_spec(s: WaitState, b: Seq<u8>) -> (WaitState, Seq<u8>)
    decreases b.len(),
{
    let k = first_line_len(b);
    if s.outcome is Some || newline_free(b) || k == 0 || k > b.len() {
        (s, b)
    } else {
        pump_spec(wait_step(s, Some(b.subrange(0, k as int))), b.subrange(k as int, b.len() as int))
    }
}

/// Feeds the complete lines held in `buf` to `wait` (see `pump_spec`).
pub fn pump(wait: &mut Expectation, buf: &mut LineBuffer)
    requires
        old(wait).wf(),
    ensures
        final(wait).wf(),
        (final(wait)@, final(buf)@) == pump_spec(old(wait)@, old(buf)@),
{
    while !wait.is_settled()
        invariant
            wait.wf(),
            pump_spec(wait@, buf@) == pump_spec(old(wait)@, old(buf)@),
        decreases buf@.len(),
    {
        let ghost b0 = buf@;
        match buf.take_line() {
            None => {
                return;
            },
            Some(line) => {
                proof {
                    lemma_first_line_len(line@, buf@);
                    assert(b0.subrange(0, line@.len() as int) =~= line@);
                    assert(b0.subrange(line@.len() as int, b0.len() as int) =~= buf@);
                    assert(!newline_free(b0)) by {
                        assert(b0[line@.len() - 1] == NEWLINE);
                    }
                }
                wait.observe(Some(line));
            },
        }
    }
}

/// Whether a line is blank.
pub fn is_blank(line: &Vec<u8>) -> (r: bool)
    ensures
        r == is_blank_line(line@),
{
    let n = line.len();
    let r = if n == 0 {
        true
    } else if n == 1 {
        line[0] == NEWLINE || line[0] == CARRIAGE_RETURN
    } else if n == 2 {
        line[0] == CARRIAGE_RETURN && line[1] == NEWLINE
    } else {
        false
    };
    proof {
        if n == 0 {
            assert(line@ =~= Seq::<u8>::empty());
        }
        if line@ == seq![NEWLINE] || line@ == seq![CARRIAGE_RETURN] {
            assert(line@[0] == seq![NEWLINE][0] || line@[0] == seq![CARRIAGE_RETURN][0]);
        }
        if line@ == seq![CARRIAGE_RETURN, NEWLINE] {
            assert(line@[0] == seq![CARRIAGE_RETURN, NEWLINE][0]);
            assert(line@[1] == seq![CARRIAGE_RETURN, NEWLINE][1]);
        }
        if n == 1 {
            if line@[0] == NEWLINE {
                assert(line@ =~= seq![NEWLINE]);
            }
            if line@[0] == CARRIAGE_RETURN {
                assert(line@ =~= seq![CARRIAGE_RETURN]);
            }
        }
        if n == 2 && r {
            assert(line@ =~= seq![CARRIAGE_RETURN, NEWLINE]);
        }
    }
    r
}

} // verus!
