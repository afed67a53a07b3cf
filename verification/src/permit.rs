//! The frame-permit state of a waitable swap chain, and the two small rules
//! that decide whether the present gate is on and how long one wait may block.

use vstd::prelude::*;
use vstd::string::*;

verus! {

/// What a [`PermitState`] holds, as plain booleans.
pub struct PermitView {
    /// The swap chain signalled readiness that no `Present` has used yet.
    pub credit: bool,
    /// A frame holds the permit and its callback has not returned.
    pub active: bool,
    /// A draw, present or wait failed; the present gate never grants another permit.
    pub faulted: bool,
}

impl PermitView {
    pub open spec fn needs_wait(self) -> bool {
        !self.credit && !self.active && !self.faulted
    }

    /// Whether `begin(modal)` grants a permit in this state.
    pub open spec fn can_begin(self, modal: bool) -> bool {
        !self.active && !self.faulted && (self.credit || modal)
    }

    pub open spec fn after_ready(self) -> PermitView {
        PermitView { credit: true, ..self }
    }

    pub open spec fn after_begin(self, modal: bool) -> PermitView {
        if self.can_begin(modal) {
            PermitView { active: true, ..self }
        } else {
            self
        }
    }

    pub open spec fn after_presented(self) -> PermitView {
        PermitView { credit: false, ..self }
    }

    pub open spec fn after_failed(self) -> PermitView {
        PermitView { credit: false, faulted: true, ..self }
    }

    /// What `finish` returns: the readiness outlives the frame.
    pub open spec fn finish_keeps_credit(self) -> bool {
        self.credit && !self.faulted
    }

    pub open spec fn after_finish(self) -> PermitView {
        PermitView { active: false, ..self }
    }

    pub open spec fn after_resized(self) -> PermitView {
        PermitView { credit: false, ..self }
    }
}

/// The permit of a waitable swap chain. A frame may start only with a
/// readiness credit (or as a modal frame), never while another frame holds
/// the permit, and never after a failure.
#[derive(Clone, Copy, Debug)]
pub struct PermitState {
    credit: bool,
    active: bool,
    faulted: bool,
}

impl View for PermitState {
    type V = PermitView;

    closed spec fn view(&self) -> PermitView {
        PermitView { credit: self.credit, active: self.active, faulted: self.faulted }
    }
}

impl Default for PermitState {
    /// The state of a new gate: no readiness, no frame, no fault.
    fn default() -> (s: Self)
        ensures
            s@ == (PermitView { credit: false, active: false, faulted: false }),
    {
        PermitState { credit: false, active: false, faulted: false }
    }
}

impl PermitState {
    /// Whether the next frame must wait for the swap chain first.
    pub fn needs_wait(self) -> (r: bool)
        ensures
            r == self@.needs_wait(),
    {
        !self.credit && !self.active && !self.faulted
    }

    pub fn is_faulted(self) -> (r: bool)
        ensures
            r == self@.faulted,
    {
        self.faulted
    }

    /// The swap chain signalled that it can take another frame.
    pub fn ready(&mut self)
        ensures
            final(self)@ == old(self)@.after_ready(),
    {
        self.credit = true;
    }

    /// Takes the permit for a frame; a modal frame needs no readiness.
    pub fn begin(&mut self, modal: bool) -> (granted: bool)
        ensures
            granted == old(self)@.can_begin(modal),
            final(self)@ == old(self)@.after_begin(modal),
    {
        if self.active || self.faulted || (!self.credit && !modal) {
            return false;
        }
        self.active = true;
        true
    }

    /// A `Present` succeeded: its queue entry used the readiness.
    pub fn presented(&mut self)
        ensures
            final(self)@ == old(self)@.after_presented(),
    {
        self.credit = false;
    }

    /// A draw, present or wait failed.
    pub fn failed(&mut self)
        ensures
            final(self)@ == old(self)@.after_failed(),
    {
        self.credit = false;
        self.faulted = true;
    }

    /// The frame callback returned. Without a `Present` the readiness is
    /// kept; the permit never outlives the callback. Returns whether the
    /// readiness was kept for the next frame.
    pub fn finish(&mut self) -> (kept: bool)
        ensures
            kept == old(self)@.finish_keeps_credit(),
            final(self)@ == old(self)@.after_finish(),
    {
        self.active = false;
        self.credit && !self.faulted
    }

    /// The buffers were resized: readiness from the old buffers is void.
    pub fn resized(&mut self)
        ensures
            final(self)@ == old(self)@.after_resized(),
    {
        self.credit = false;
    }
}


/// No frame starts without readiness unless it is modal.
pub proof fn lemma_no_frame_without_readiness(v: PermitView)
    requires
        !v.credit,
    ensures
        !v.can_begin(false),
        v.after_begin(false) == v,
{
}

/// A new gate must wait for the swap chain before its first ordinary frame.
pub proof fn lemma_new_gate_waits()
    ensures
        (PermitView { credit: false, active: false, faulted: false }).needs_wait(),
        !(PermitView { credit: false, active: false, faulted: false }).can_begin(false),
{
}

/// Nested frames cannot share a permit: while a frame holds it, no other
/// frame, modal or not, is granted one, and the state stays as it was.
pub proof fn lemma_permit_not_shared(v: PermitView, modal: bool)
    requires
        v.active,
    ensures
        !v.can_begin(modal),
        v.after_begin(modal) == v,
{
}

/// The permit never outlives the frame callback.
pub proof fn lemma_finish_releases_permit(v: PermitView)
    ensures
        !v.after_finish().active,
        v.after_finish().credit == v.credit,
        v.after_finish().faulted == v.faulted,
{
}

/// A failure is permanent: every transition keeps the fault, and a faulted
/// gate neither grants a permit nor asks for another wait.
pub proof fn lemma_fault_is_sticky(v: PermitView, modal: bool)
    requires
        v.faulted,
    ensures
        v.after_ready().faulted,
        v.after_begin(modal).faulted,
        v.after_presented().faulted,
        v.after_failed().faulted,
        v.after_finish().faulted,
        v.after_resized().faulted,
        !v.can_begin(modal),
        !v.needs_wait(),
        !v.finish_keeps_credit(),
{
}

/// A failure leaves no permissive gate: after it, even a fresh readiness
/// signal grants no frame, ordinary or modal.
pub proof fn lemma_failure_blocks_gate(v: PermitView, modal: bool)
    ensures
        !v.after_failed().after_ready().can_begin(modal),
        !v.after_failed().after_ready().needs_wait(),
        !v.after_failed().finish_keeps_credit(),
{
}

/// A `Present` uses the readiness: the frame that presented returns no
/// credit, and the next ordinary frame must wait again.
pub proof fn lemma_present_consumes_readiness(v: PermitView)
    ensures
        !v.after_presented().finish_keeps_credit(),
        !v.after_presented().after_finish().can_begin(false),
        !v.after_presented().after_finish().faulted ==> v.after_presented().after_finish().needs_wait(),
{
}

/// A frame that presents nothing hands its readiness back unchanged.
pub proof fn lemma_skipped_frame_keeps_readiness(v: PermitView)
    requires
        v.credit,
        !v.active,
        !v.faulted,
    ensures
        v.can_begin(false),
        v.after_begin(false).finish_keeps_credit(),
        v.after_begin(false).after_finish() == v,
{
}

/// Resizing discards readiness that the old buffers signalled.
pub proof fn lemma_resize_discards_readiness(v: PermitView)
    ensures
        !v.after_resized().credit,
        !v.after_resized().can_begin(false),
{
}

/// A modal frame bypasses readiness, but once it has presented and
/// returned it leaves no permit and no readiness behind.
pub proof fn lemma_modal_frame_leaves_no_permit(v: PermitView)
    requires
        !v.faulted,
    ensures
        !v.active ==> v.can_begin(true),
        ({
            let w = v.after_begin(true).after_presented().after_finish();
            &&& !w.active
            &&& !w.credit
            &&& !w.can_begin(false)
            &&& w.needs_wait()
        }),
{
}

/// A frame may start exactly when no frame holds the permit, the present gate has
/// not failed, and it has readiness or is modal.
pub proof fn lemma_begin_grants_exactly(v: PermitView, modal: bool)
    ensures
        v.can_begin(modal) <==> (!v.active && !v.faulted && (v.credit || modal)),
        v.can_begin(modal) ==> v.after_begin(modal).active,
        !v.can_begin(modal) ==> v.after_begin(modal) == v,
{
}

/// Whether a flag's value turns an opt-in experiment on: only the exact
/// string `"1"` does.
pub open spec fn enables(value: Option<Seq<char>>) -> bool {
    value == Some(seq!['1'])
}

pub open spec fn option_str_view(value: Option<&str>) -> Option<Seq<char>> {
    match value {
        Some(s) => Some(s@),
        None => None,
    }
}

/// Whether the flag value `value` enables the experiment.
pub fn enabled(value: Option<&str>) -> (on: bool)
    ensures
        on == enables(option_str_view(value)),
{
    match value {
        Some(s) => {
            let n = s.unicode_len();
            if n == 1 {
                let c = s.get_char(0);
                assert(c == '1' ==> s@ =~= seq!['1']);
                c == '1'
            } else {
                false
            }
        },
        None => false,
    }
}

/// The swap-chain creation flag that makes a chain waitable
/// (`DXGI_SWAP_CHAIN_FLAG_FRAME_LATENCY_WAITABLE_OBJECT`).
pub const FRAME_LATENCY_WAITABLE_OBJECT: u32 = 64;

pub open spec fn swap_chain_flags_spec(value: Option<Seq<char>>) -> u32 {
    if enables(value) {
        FRAME_LATENCY_WAITABLE_OBJECT
    } else {
        0
    }
}

/// The creation flags of every swap chain, given the waitable-present
/// flag's value: a waitable chain only when the flag is exactly `"1"`.
pub fn swap_chain_flags(value: Option<&str>) -> (flags: u32)
    ensures
        flags == swap_chain_flags_spec(option_str_view(value)),
{
    if enabled(value) {
        FRAME_LATENCY_WAITABLE_OBJECT
    } else {
        0
    }
}

/// Both opt-in flags are off when unset, and only the exact value `"1"`
/// turns the waitable swap chain on.
pub proof fn lemma_flag_off_unless_exactly_one(value: Option<Seq<char>>)
    ensures
        !enables(None),
        swap_chain_flags_spec(None) == 0,
        enables(value) <==> value == Some(seq!['1']),
        swap_chain_flags_spec(value) != 0 <==> enables(value),
{
}

/// The wait for one display period, rounded down; unknown timing (a rate of
/// zero or one) gives a nonblocking poll.
pub open spec fn wait_millis_spec(refresh_hz: u32) -> u32 {
    if refresh_hz > 1 {
        1000u32 / refresh_hz
    } else {
        0
    }
}

/// The longest wait, in milliseconds, for a display refreshing at `refresh_hz`.
pub fn wait_millis(refresh_hz: u32) -> (ms: u32)
    ensures
        ms == wait_millis_spec(refresh_hz),
        ms * refresh_hz <= 1000,
{
    if refresh_hz > 1 {
        let ms = 1000 / refresh_hz;
        assert(ms * refresh_hz <= 1000) by (nonlinear_arith)
            requires
                ms == 1000u32 / refresh_hz,
                refresh_hz > 1,
        ;
        ms
    } else {
        0
    }
}

} // verus!
