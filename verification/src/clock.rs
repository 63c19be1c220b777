//! The frame counter, kept as what the capture rule needs of it: its
//! remainder by the capture stride.

use vstd::prelude::*;

verus! {

/// Mathematical content of a [`FrameClock`].
pub struct ClockView {
    /// Every `stride`-th presented frame is selected for capture.
    pub stride: nat,
    /// Frames presented so far.
    pub frames: nat,
}

impl ClockView {
    /// The stride is positive.
    pub open spec fn wf(self) -> bool {
        self.stride > 0
    }

    /// The clock after one more presented frame.
    pub open spec fn advanced(self) -> ClockView {
        ClockView { frames: self.frames + 1, ..self }
    }

    /// Whether the frame that is presented next is selected for capture: its
    /// number, counted from 1, is a multiple of the stride.
    pub open spec fn capture_due(self) -> bool {
        (self.frames + 1) % self.stride == 0
    }

    /// Frames selected for capture so far.
    pub open spec fn selected(self) -> nat {
        self.frames / self.stride
    }
}

/// How quotient and remainder by `n` move when `f` moves on by one.
proof fn lemma_div_mod_step(f: int, n: int)
    requires
        f >= 0,
        n > 0,
    ensures
        0 <= f % n < n,
        f % n == n - 1 ==> (f + 1) % n == 0 && (f + 1) / n == f / n + 1,
        f % n != n - 1 ==> (f + 1) % n == f % n + 1 && (f + 1) / n == f / n,
{
    assert(f == n * (f / n) + f % n && 0 <= f % n < n) by (nonlinear_arith)
        requires
            n > 0,
            f >= 0,
    ;
    let q = f / n;
    let r = f % n;
    if r + 1 == n {
        assert(n * (q + 1) == n * q + n) by (nonlinear_arith);
        assert((f + 1) / n == q + 1 && (f + 1) % n == 0) by (nonlinear_arith)
            requires
                n > 0,
                f + 1 == n * (q + 1),
        ;
    } else {
        assert((f + 1) / n == q && (f + 1) % n == r + 1) by (nonlinear_arith)
            requires
                n > 0,
                f + 1 == n * q + (r + 1),
                0 <= r + 1 < n,
        ;
    }
}

/// Every presented frame either is selected for capture, and is then counted
/// once, or is not, and is then not counted.
pub proof fn lemma_selected_step(c: ClockView)
    requires
        c.wf(),
    ensures
        c.advanced().selected() == c.selected() + if c.capture_due() {
            1nat
        } else {
            0nat
        },
{
    lemma_div_mod_step(c.frames as int, c.stride as int);
}

/// Counts presented frames and says which of them are selected for capture.
#[derive(Clone, Copy)]
pub struct FrameClock {
    stride: u64,
    phase: u64,
    frames: Ghost<nat>,
}

impl View for FrameClock {
    type V = ClockView;

    closed spec fn view(&self) -> ClockView {
        ClockView { stride: self.stride as nat, frames: self.frames@ }
    }
}

impl FrameClock {
    /// Holds of every value of the type: the stride is positive and the
    /// stored phase is the frame count's remainder by it.
    #[verifier::type_invariant]
    pub closed spec fn inv(self) -> bool {
        &&& self.stride > 0
        &&& self.phase == self.frames@ % (self.stride as nat)
    }

    /// A clock that has seen no frame. A stride of 0 selects nothing and is
    /// turned down.
    pub fn new(stride: u64) -> (r: Option<FrameClock>)
        ensures
            match r {
                Some(clock) => stride > 0 && clock@ == (ClockView { stride: stride as nat, frames: 0 })
                    && clock@.wf(),
                None => stride == 0,
            },
    {
        if stride == 0 {
            None
        } else {
            Some(FrameClock { stride, phase: 0, frames: Ghost(0) })
        }
    }

    /// The capture stride.
    pub fn stride(&self) -> (n: u64)
        ensures
            n == self@.stride,
            n > 0,
    {
        proof {
            use_type_invariant(self);
        }
        self.stride
    }

    /// Whether the frame that is presented next is selected for capture.
    pub fn capture_due(&self) -> (due: bool)
        ensures
            due == self@.capture_due(),
            self@.wf(),
    {
        proof {
            use_type_invariant(self);
            lemma_phase_step(self.frames@, self.stride as nat);
        }
        self.phase == self.stride - 1
    }

    /// Counts one presented frame; returns whether it is selected for capture.
    pub fn advance(&mut self) -> (due: bool)
        ensures
            final(self)@ == old(self)@.advanced(),
            due == old(self)@.capture_due(),
            final(self)@.wf(),
    {
        proof {
            use_type_invariant(&*self);
            lemma_phase_step(self.frames@, self.stride as nat);
        }
        let due = self.phase == self.stride - 1;
        let phase = if due {
            0
        } else {
            self.phase + 1
        };
        *self = FrameClock { stride: self.stride, phase, frames: Ghost(self.frames@ + 1) };
        due
    }
}

/// A clock that meets the type's invariant has a well-formed view.
pub proof fn lemma_clock_wf(clock: FrameClock)
    requires
        clock.inv(),
    ensures
        clock@.wf(),
{
}

/// How the remainder moves when the count moves on by one.
proof fn lemma_phase_step(f: nat, n: nat)
    requires
        n > 0,
    ensures
        f % n < n,
        (f + 1) % n == if f % n == n - 1 {
            0nat
        } else {
            f % n + 1
        },
{
    lemma_div_mod_step(f as int, n as int);
}

} // verus!
