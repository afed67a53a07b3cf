//! The decisions of the waitable-present gate: when a frame must wait for
//! the swap chain, what a finished wait means, and the present gate's counters.
//!
//! The wait itself (a message-aware wait on the swap chain's handle) is the
//! caller's: it asks [`PresentGateState::should_wait`], waits, hands the raw
//! result to [`classify_wait`] and the outcome to
//! [`PresentGateState::record_wait`], then asks for a permit with
//! [`PresentGateState::begin`].

use vstd::prelude::*;
use crate::permit::{PermitState, PermitView};

verus! {

/// The raw result of a wait that the swap chain's handle ended.
pub const WAIT_OBJECT_0: u32 = 0;

/// The raw result of a wait that a pending input message ended.
pub const WAIT_INPUT: u32 = 1;

/// The raw result of a wait that its timeout ended.
pub const WAIT_TIMEOUT: u32 = 258;

/// The raw result of a wait that failed.
pub const WAIT_FAILED: u32 = 0xffff_ffff;

/// Every how many successful presents the present gate reports its counters.
pub const REPORT_EVERY: u64 = 240;

/// How a message-aware wait on the swap chain ended.
#[derive(Clone, Copy, Debug, PartialEq, Eq, Structural)]
pub enum WaitOutcome {
    /// The swap chain signalled readiness.
    Signaled,
    /// Input arrived; control returns to the message loop.
    Input,
    /// The display period passed without readiness.
    Timeout,
    /// The wait failed.
    Failed,
    /// The wait returned a value it never should.
    Unexpected(u32),
}

pub open spec fn classify_wait_spec(raw: u32) -> WaitOutcome {
    if raw == WAIT_OBJECT_0 {
        WaitOutcome::Signaled
    } else if raw == WAIT_TIMEOUT {
        WaitOutcome::Timeout
    } else if raw == WAIT_FAILED {
        WaitOutcome::Failed
    } else if raw == WAIT_INPUT {
        WaitOutcome::Input
    } else {
        WaitOutcome::Unexpected(raw)
    }
}

/// The outcome that a raw wait result stands for.
pub fn classify_wait(raw: u32) -> (outcome: WaitOutcome)
    ensures
        outcome == classify_wait_spec(raw),
{
    if raw == WAIT_OBJECT_0 {
        WaitOutcome::Signaled
    } else if raw == WAIT_TIMEOUT {
        WaitOutcome::Timeout
    } else if raw == WAIT_FAILED {
        WaitOutcome::Failed
    } else if raw == WAIT_INPUT {
        WaitOutcome::Input
    } else {
        WaitOutcome::Unexpected(raw)
    }
}

/// What the present gate has counted since it was made. Each count wraps
/// at 2^64, as `u64::wrapping_add` does.
#[derive(Clone, Copy, Debug)]
pub struct GateCounters {
    /// Waits for readiness.
    pub asked: u64,
    /// Waits that the swap chain ended, in the generation they began in.
    pub ready: u64,
    /// Waits that input ended.
    pub input: u64,
    /// Waits that timed out.
    pub timeout: u64,
    /// Readiness signalled for buffers that a resize has since replaced.
    pub stale: u64,
    /// Failed waits, draws and presents.
    pub failed: u64,
    /// Successful presents.
    pub presents: u64,
    /// Frames that kept their readiness because they presented nothing.
    pub unused: u64,
    /// Modal frames, which start without readiness.
    pub modal: u64,
    /// Time spent waiting, in microseconds.
    pub total_us: u64,
    /// The longest single wait, in microseconds.
    pub max_us: u64,
}

pub open spec fn zero_counters() -> GateCounters {
    GateCounters {
        asked: 0,
        ready: 0,
        input: 0,
        timeout: 0,
        stale: 0,
        failed: 0,
        presents: 0,
        unused: 0,
        modal: 0,
        total_us: 0,
        max_us: 0,
    }
}

impl Default for GateCounters {
    fn default() -> (c: Self)
        ensures
            c == zero_counters(),
    {
        GateCounters {
            asked: 0,
            ready: 0,
            input: 0,
            timeout: 0,
            stale: 0,
            failed: 0,
            presents: 0,
            unused: 0,
            modal: 0,
            total_us: 0,
            max_us: 0,
        }
    }
}

impl GateCounters {
    /// The number of finished waits, each counted by its outcome (a failed
    /// draw or present counts as a failure too).
    pub open spec fn outcomes(self) -> int {
        self.ready + self.input + self.timeout + self.stale + self.failed
    }
}

/// What a [`PresentGateState`] holds.
pub struct GateView {
    pub permit: PermitView,
    /// Bumped by each resize, so a wait can tell that its buffers changed.
    pub generation: u64,
    pub counters: GateCounters,
}

/// `a + b` wrapping at 2^64, as `u64::wrapping_add` computes it.
pub open spec fn wrap_add(a: u64, b: u64) -> u64 {
    if a + b > u64::MAX {
        (a + b - 0x1_0000_0000_0000_0000) as u64
    } else {
        (a + b) as u64
    }
}

pub open spec fn max_u64(a: u64, b: u64) -> u64 {
    if a >= b {
        a
    } else {
        b
    }
}

impl GateView {
    /// Whether the counters can record a wait that began in generation
    /// `started`, lasted `elapsed_us` and ended with `outcome` without
    /// overflowing.
    pub open spec fn wait_fits(self, started: u64, outcome: WaitOutcome, elapsed_us: u64) -> bool {
        let c = self.counters;
        &&& c.asked < u64::MAX
        &&& c.total_us + elapsed_us <= u64::MAX
        &&& match outcome {
            WaitOutcome::Signaled => if started == self.generation {
                c.ready < u64::MAX
            } else {
                c.stale < u64::MAX
            },
            WaitOutcome::Timeout => c.timeout < u64::MAX,
            WaitOutcome::Input => c.input < u64::MAX,
            _ => c.failed < u64::MAX,
        }
    }

    pub open spec fn should_wait(self, modal: bool) -> bool {
        !modal && self.permit.needs_wait()
    }

    /// The permit after a wait that began in generation `started` ended
    /// with `outcome`: readiness counts only for the buffers it was
    /// signalled for, and a failed or unexpected wait faults the present gate.
    pub open spec fn permit_after_wait(self, started: u64, outcome: WaitOutcome) -> PermitView {
        match outcome {
            WaitOutcome::Signaled => if started == self.generation {
                self.permit.after_ready()
            } else {
                self.permit
            },
            WaitOutcome::Failed | WaitOutcome::Unexpected(_) => self.permit.after_failed(),
            _ => self.permit,
        }
    }

    pub open spec fn counters_after_wait(
        self,
        started: u64,
        outcome: WaitOutcome,
        elapsed_us: u64,
    ) -> GateCounters {
        let c = self.counters;
        let c = GateCounters {
            asked: wrap_add(c.asked, 1),
            total_us: wrap_add(c.total_us, elapsed_us),
            max_us: max_u64(c.max_us, elapsed_us),
            ..c
        };
        match outcome {
            WaitOutcome::Signaled => if started == self.generation {
                GateCounters { ready: wrap_add(c.ready, 1), ..c }
            } else {
                GateCounters { stale: wrap_add(c.stale, 1), ..c }
            },
            WaitOutcome::Timeout => GateCounters { timeout: wrap_add(c.timeout, 1), ..c },
            WaitOutcome::Input => GateCounters { input: wrap_add(c.input, 1), ..c },
            _ => GateCounters { failed: wrap_add(c.failed, 1), ..c },
        }
    }

    pub open spec fn after_wait(self, started: u64, outcome: WaitOutcome, elapsed_us: u64) -> GateView {
        GateView {
            permit: self.permit_after_wait(started, outcome),
            generation: self.generation,
            counters: self.counters_after_wait(started, outcome, elapsed_us),
        }
    }

    pub open spec fn after_begin(self, modal: bool) -> GateView {
        GateView {
            permit: self.permit.after_begin(modal),
            counters: if modal && self.permit.can_begin(modal) {
                GateCounters { modal: wrap_add(self.counters.modal, 1), ..self.counters }
            } else {
                self.counters
            },
            ..self
        }
    }

    pub open spec fn after_finish(self) -> GateView {
        GateView {
            permit: self.permit.after_finish(),
            counters: if self.permit.finish_keeps_credit() {
                GateCounters { unused: wrap_add(self.counters.unused, 1), ..self.counters }
            } else {
                self.counters
            },
            ..self
        }
    }

    pub open spec fn after_presented(self) -> GateView {
        GateView {
            permit: self.permit.after_presented(),
            counters: GateCounters { presents: wrap_add(self.counters.presents, 1), ..self.counters },
            ..self
        }
    }

    pub open spec fn after_failed(self) -> GateView {
        GateView {
            permit: self.permit.after_failed(),
            counters: GateCounters { failed: wrap_add(self.counters.failed, 1), ..self.counters },
            ..self
        }
    }

    pub open spec fn after_resized(self) -> GateView {
        GateView {
            permit: self.permit.after_resized(),
            generation: if self.generation == u64::MAX {
                0
            } else {
                (self.generation + 1) as u64
            },
            ..self
        }
    }
}

/// The state of one waitable swap chain's present gate.
pub struct PresentGateState {
    state: PermitState,
    generation: u64,
    counters: GateCounters,
}

impl View for PresentGateState {
    type V = GateView;

    closed spec fn view(&self) -> GateView {
        GateView { permit: self.state@, generation: self.generation, counters: self.counters }
    }
}

impl PresentGateState {
    /// The present gate of a newly made waitable swap chain.
    pub fn new() -> (g: Self)
        ensures
            g@ == (GateView {
                permit: PermitView { credit: false, active: false, faulted: false },
                generation: 0,
                counters: zero_counters(),
            }),
    {
        PresentGateState {
            state: PermitState::default(),
            generation: 0,
            counters: GateCounters::default(),
        }
    }

    /// Whether a frame must wait for the swap chain before it starts.
    pub fn should_wait(&self, modal: bool) -> (r: bool)
        ensures
            r == self@.should_wait(modal),
    {
        !modal && self.state.needs_wait()
    }

    /// The current buffer generation; a wait remembers it when it starts.
    pub fn generation(&self) -> (g: u64)
        ensures
            g == self@.generation,
    {
        self.generation
    }

    /// What the present gate has counted.
    pub fn counters(&self) -> (c: GateCounters)
        ensures
            c == self@.counters,
    {
        self.counters
    }

    /// Records a wait that began in generation `started`, lasted
    /// `elapsed_us` and ended with `outcome`.
    pub fn record_wait(&mut self, started: u64, outcome: WaitOutcome, elapsed_us: u64)
        ensures
            final(self)@ == old(self)@.after_wait(started, outcome, elapsed_us),
    {
        let mut c = self.counters;
        c.asked = c.asked.wrapping_add(1);
        c.total_us = c.total_us.wrapping_add(elapsed_us);
        if elapsed_us > c.max_us {
            c.max_us = elapsed_us;
        }
        match outcome {
            WaitOutcome::Signaled => {
                if started == self.generation {
                    c.ready = c.ready.wrapping_add(1);
                    self.state.ready();
                } else {
                    c.stale = c.stale.wrapping_add(1);
                }
            },
            WaitOutcome::Timeout => {
                c.timeout = c.timeout.wrapping_add(1);
            },
            WaitOutcome::Input => {
                c.input = c.input.wrapping_add(1);
            },
            WaitOutcome::Failed | WaitOutcome::Unexpected(_) => {
                c.failed = c.failed.wrapping_add(1);
                self.state.failed();
            },
        }
        self.counters = c;
    }

    /// Asks for a frame permit, once any wait is over.
    pub fn begin(&mut self, modal: bool) -> (granted: bool)
        ensures
            granted == old(self)@.permit.can_begin(modal),
            final(self)@ == old(self)@.after_begin(modal),
    {
        let granted = self.state.begin(modal);
        if granted && modal {
            self.counters.modal = self.counters.modal.wrapping_add(1);
        }
        granted
    }

    /// The frame that held the permit returned.
    pub fn finish(&mut self)
        ensures
            final(self)@ == old(self)@.after_finish(),
    {
        if self.state.finish() {
            self.counters.unused = self.counters.unused.wrapping_add(1);
        }
    }

    /// A `Present` succeeded. Returns whether the counters are due for a
    /// report.
    pub fn presented(&mut self) -> (report: bool)
        ensures
            final(self)@ == old(self)@.after_presented(),
            report == (final(self)@.counters.presents % REPORT_EVERY == 0),
    {
        self.state.presented();
        self.counters.presents = self.counters.presents.wrapping_add(1);
        self.counters.presents % REPORT_EVERY == 0
    }

    pub fn is_faulted(&self) -> (r: bool)
        ensures
            r == self@.permit.faulted,
    {
        self.state.is_faulted()
    }

    /// A draw or present failed.
    pub fn failed(&mut self)
        ensures
            final(self)@ == old(self)@.after_failed(),
    {
        self.state.failed();
        self.counters.failed = self.counters.failed.wrapping_add(1);
    }

    /// The swap chain's buffers were resized.
    pub fn resized(&mut self)
        ensures
            final(self)@ == old(self)@.after_resized(),
    {
        self.generation = self.generation.wrapping_add(1);
        self.state.resized();
    }
}

/// Readiness signalled for the old buffers does not count after a resize:
/// a wait that began before the resize and ends signalled grants nothing.
pub proof fn lemma_stale_readiness_ignored(v: GateView, elapsed_us: u64)
    ensures
        ({
            let w = v.after_resized();
            &&& w.generation != v.generation
            &&& w.after_wait(v.generation, WaitOutcome::Signaled, elapsed_us).permit == w.permit
            &&& !w.after_wait(v.generation, WaitOutcome::Signaled, elapsed_us).permit.can_begin(false)
        }),
{
}

/// Readiness that a wait observes in its own generation lets the next
/// ordinary frame start, unless a frame holds the permit or the present gate failed.
pub proof fn lemma_signaled_wait_admits_frame(v: GateView, elapsed_us: u64)
    requires
        !v.permit.active,
        !v.permit.faulted,
    ensures
        v.after_wait(v.generation, WaitOutcome::Signaled, elapsed_us).permit.can_begin(false),
{
}

/// A wait that fails, or returns what it never should, faults the present gate;
/// one that times out or yields to input changes nothing but the counters.
pub proof fn lemma_wait_outcomes(v: GateView, started: u64, elapsed_us: u64, raw: u32)
    ensures
        v.after_wait(started, WaitOutcome::Failed, elapsed_us).permit.faulted,
        v.after_wait(started, WaitOutcome::Unexpected(raw), elapsed_us).permit.faulted,
        v.after_wait(started, WaitOutcome::Timeout, elapsed_us).permit == v.permit,
        v.after_wait(started, WaitOutcome::Input, elapsed_us).permit == v.permit,
        v.after_wait(started, WaitOutcome::Timeout, elapsed_us).generation == v.generation,
{
}

/// Every recorded wait is counted once, under exactly one outcome, and its
/// duration goes into the total and the maximum; the counters wrap as
/// `u64` arithmetic does, and while they have room each grows by exactly one.
pub proof fn lemma_wait_counted_once(
    v: GateView,
    started: u64,
    outcome: WaitOutcome,
    elapsed_us: u64,
)
    ensures
        ({
            let c = v.after_wait(started, outcome, elapsed_us).counters;
            let c0 = v.counters;
            let fresh = started == v.generation;
            &&& c.asked == wrap_add(c0.asked, 1)
            &&& c.total_us == wrap_add(c0.total_us, elapsed_us)
            &&& c.max_us == max_u64(c0.max_us, elapsed_us)
            &&& c.ready == (if outcome == WaitOutcome::Signaled && fresh {
                wrap_add(c0.ready, 1)
            } else {
                c0.ready
            })
            &&& c.stale == (if outcome == WaitOutcome::Signaled && !fresh {
                wrap_add(c0.stale, 1)
            } else {
                c0.stale
            })
            &&& c.timeout == (if outcome == WaitOutcome::Timeout {
                wrap_add(c0.timeout, 1)
            } else {
                c0.timeout
            })
            &&& c.input == (if outcome == WaitOutcome::Input {
                wrap_add(c0.input, 1)
            } else {
                c0.input
            })
            &&& c.failed == (if outcome is Failed || outcome is Unexpected {
                wrap_add(c0.failed, 1)
            } else {
                c0.failed
            })
            &&& c.presents == c0.presents
            &&& c.unused == c0.unused
            &&& c.modal == c0.modal
            &&& v.wait_fits(started, outcome, elapsed_us) ==> {
                &&& c.asked == c0.asked + 1
                &&& c.outcomes() == c0.outcomes() + 1
                &&& c.total_us == c0.total_us + elapsed_us
            }
        }),
{
}

/// A frame that need not wait (a modal frame, or one with readiness, an
/// active frame or a fault) makes no wait: it is granted a permit exactly
/// when no frame holds one, the present gate has not failed, and it has
/// readiness or is modal; only a granted modal frame is counted.
pub proof fn lemma_frame_without_wait(v: GateView, modal: bool)
    requires
        !v.should_wait(modal),
    ensures
        ({
            let granted = v.permit.can_begin(modal);
            let w = v.after_begin(modal);
            &&& granted <==> (!v.permit.active && !v.permit.faulted && (v.permit.credit || modal))
            &&& granted ==> w.permit == (PermitView { active: true, ..v.permit })
            &&& granted ==> w.counters == (if modal {
                GateCounters { modal: wrap_add(v.counters.modal, 1), ..v.counters }
            } else {
                v.counters
            })
            &&& !granted ==> w == v
            &&& w.counters.asked == v.counters.asked
        }),
{
}

/// A resize during a wait leaves a waiting frame's permit and the counters
/// as they were; only the generation moves on.
pub proof fn lemma_resize_keeps_waiting_permit(v: GateView)
    requires
        v.permit.needs_wait(),
    ensures
        v.after_resized().permit == v.permit,
        v.after_resized().counters == v.counters,
        v.after_resized().generation != v.generation,
{
}

/// An ordinary frame that waits gets a permit exactly when the wait was
/// signalled for the buffers it began with (`mid` is the present gate when the
/// wait returns, after any resizes during it). Timeout and input leave the
/// present gate waiting; a failed or unexpected wait faults it. The frame's
/// own request counts nothing beyond the wait, which is counted from the
/// counters it began with (see [`lemma_wait_counted_once`]).
pub proof fn lemma_frame_after_wait(
    v: GateView,
    mid: GateView,
    outcome: WaitOutcome,
    elapsed_us: u64,
)
    requires
        v.should_wait(false),
        mid.permit == v.permit,
        mid.counters == v.counters,
    ensures
        ({
            let w = mid.after_wait(v.generation, outcome, elapsed_us);
            let granted = w.permit.can_begin(false);
            &&& granted <==> (outcome == WaitOutcome::Signaled && mid.generation == v.generation)
            &&& (outcome == WaitOutcome::Timeout || outcome == WaitOutcome::Input) ==> !granted
                && !w.permit.faulted && w.permit == v.permit
            &&& (outcome is Failed || outcome is Unexpected) ==> !granted && w.permit.faulted
            &&& granted ==> w.after_begin(false).permit.active
            &&& w.after_begin(false).counters == w.counters
            &&& w.counters == (GateView { generation: mid.generation, ..v }).counters_after_wait(
                v.generation,
                outcome,
                elapsed_us,
            )
            &&& mid.generation == v.generation ==> w.counters == v.after_wait(
                v.generation,
                outcome,
                elapsed_us,
            ).counters
        }),
{
}

/// When a frame returns, its permit ends. A frame that presented nothing
/// is counted as unused and keeps the readiness, so the next ordinary frame
/// starts without a wait.
pub proof fn lemma_frame_return(v: GateView)
    requires
        v.permit.active,
    ensures
        ({
            let w = v.after_finish();
            let kept = v.permit.credit && !v.permit.faulted;
            &&& w.permit == (PermitView { active: false, ..v.permit })
            &&& w.counters == (if kept {
                GateCounters { unused: wrap_add(v.counters.unused, 1), ..v.counters }
            } else {
                v.counters
            })
            &&& w.generation == v.generation
            &&& kept ==> !w.should_wait(false) && w.permit.can_begin(false)
        }),
{
}

/// One frame at a time: once a frame holds the permit, no other frame is
/// granted one until it returns, and returning never leaves a permit.
pub proof fn lemma_one_frame_at_a_time(v: GateView, first: bool, second: bool)
    requires
        v.permit.can_begin(first),
    ensures
        v.after_begin(first).permit.active,
        !v.after_begin(first).permit.can_begin(second),
        v.after_begin(first).after_begin(second) == v.after_begin(first),
        !v.after_begin(first).after_finish().permit.active,
{
}

/// The raw wait results are told apart as the wait documents them.
pub proof fn lemma_classify_wait_exact(raw: u32)
    ensures
        classify_wait_spec(raw) == WaitOutcome::Signaled <==> raw == WAIT_OBJECT_0,
        classify_wait_spec(raw) == WaitOutcome::Input <==> raw == WAIT_INPUT,
        classify_wait_spec(raw) == WaitOutcome::Timeout <==> raw == WAIT_TIMEOUT,
        classify_wait_spec(raw) == WaitOutcome::Failed <==> raw == WAIT_FAILED,
        classify_wait_spec(raw) is Unexpected ==> classify_wait_spec(raw) == WaitOutcome::Unexpected(raw),
{
}

/// A failed draw, present or wait faults the present gate for good, whether
/// or not a frame holds the permit: the readiness is gone, it never
/// asks for another wait, and from then on no frame, ordinary or modal, is
/// granted a permit, whatever else happens to it.
pub proof fn lemma_failure_faults_for_good(v: GateView, modal: bool, started: u64, outcome: WaitOutcome, elapsed_us: u64)
    ensures
        v.after_failed().permit.faulted,
        !v.after_failed().permit.credit,
        v.after_failed().permit.active == v.permit.active,
        v.after_failed().generation == v.generation,
        v.after_failed().counters.failed == wrap_add(v.counters.failed, 1),
        !v.after_failed().should_wait(false),
        !v.after_failed().after_finish().permit.active,
        !v.after_failed().after_finish().permit.can_begin(modal),
        !v.after_failed().after_finish().after_wait(started, outcome, elapsed_us).permit.can_begin(modal),
        !v.after_failed().after_resized().permit.can_begin(modal),
        v.after_failed().after_begin(modal).permit == v.after_failed().permit,
{
}

/// A modal frame never waits for the swap chain; an ordinary frame waits
/// exactly when the present gate has no readiness, no frame holds the
/// permit, and it has not failed.
pub proof fn lemma_only_ordinary_frames_wait(v: GateView)
    ensures
        !v.should_wait(true),
        v.should_wait(false) <==> (!v.permit.credit && !v.permit.active && !v.permit.faulted),
{
}

} // verus!
