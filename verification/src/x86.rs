//! The x86 exit-status encoding for the `isa-debug-exit` device.

use vstd::prelude::*;

verus! {

/// The value written for a failed run; the device folds it to an exit
/// status of `(0 << 1) | 1 == 1`.
pub const EXIT_FAILURE: u32 = 0;

/// An abstract run outcome to be signalled to the device.
pub enum Outcome {
    /// The run succeeded: signal the handle's success sentinel.
    Success,
    /// The run failed: signal the generic failure value.
    Failure,
    /// Signal a caller-supplied raw value, written unchanged.
    Explicit(u32),
}

/// Configuration of the `isa-debug-exit` device.
pub struct X86 {
    /// Port number of the isa-debug-exit device.
    io_base: u16,
    /// The value that stands for a successful run. The device cannot
    /// report a stock exit status of 0, so the caller picks a sentinel;
    /// only an odd one survives the device's fold unchanged.
    custom_exit_success: u32,
}

/// The transform the device applies to a written value to produce its
/// own process exit status.
pub open spec fn device_fold(code: u32) -> u32 {
    (code << 1) | 1
}

impl X86 {
    /// The configured port of the device.
    pub closed spec fn io_base_spec(self) -> u16 {
        self.io_base
    }

    /// The configured success sentinel.
    pub closed spec fn success_spec(self) -> u32 {
        self.custom_exit_success
    }

    /// A handle is well formed when its success sentinel is odd.
    pub open spec fn wf(self) -> bool {
        self.success_spec() & 1 == 1
    }

    /// The pre-fold value written to the device for each outcome. The
    /// success sentinel is shifted right once so that the device's fold
    /// restores it exactly.
    pub open spec fn encode_spec(self, outcome: Outcome) -> u32 {
        match outcome {
            Outcome::Success => self.success_spec() >> 1,
            Outcome::Failure => EXIT_FAILURE,
            Outcome::Explicit(code) => code,
        }
    }

    /// Create a handle. The success sentinel must be odd: an even one
    /// is indistinguishable, after the device's fold, from a run that
    /// never signalled at all.
    pub fn new(io_base: u16, custom_exit_success: u32) -> (r: Self)
        requires
            custom_exit_success & 1 == 1,
        ensures
            r.wf(),
            r.io_base_spec() == io_base,
            r.success_spec() == custom_exit_success,
    {
        X86 { io_base, custom_exit_success }
    }

    /// Create a handle from values not known to be valid: accepts
    /// exactly the odd success sentinels and rejects every even one.
    pub fn try_new(io_base: u16, custom_exit_success: u32) -> (r: Option<Self>)
        ensures
            r is Some <==> custom_exit_success & 1 == 1,
            r matches Some(h) ==> h.wf() && h.io_base_spec() == io_base && h.success_spec()
                == custom_exit_success,
    {
        if custom_exit_success & 1 == 1 {
            Some(X86 { io_base, custom_exit_success })
        } else {
            None
        }
    }

    /// Compute the pre-fold value to write to the device for `outcome`.
    pub fn encode(&self, outcome: Outcome) -> (r: u32)
        ensures
            r == self.encode_spec(outcome),
    {
        match outcome {
            Outcome::Success => self.custom_exit_success >> 1,
            Outcome::Failure => EXIT_FAILURE,
            Outcome::Explicit(code) => code,
        }
    }

    /// The device port, for the backend that performs the write.
    pub fn io_base(&self) -> (r: u16)
        ensures
            r == self.io_base_spec(),
    {
        self.io_base
    }

    /// The configured success sentinel.
    pub fn custom_exit_success(&self) -> (r: u32)
        ensures
            r == self.success_spec(),
    {
        self.custom_exit_success
    }
}

/// For every well-formed handle, the device's fold restores the success
/// sentinel exactly from the encoded success value: no information is
/// lost by the shift, because the sentinel is odd.
pub proof fn lemma_success_round_trip(h: X86)
    requires
        h.wf(),
    ensures
        device_fold(h.encode_spec(Outcome::Success)) == h.success_spec(),
{
    let s = h.success_spec();
    assert(s & 1 == 1 ==> (((s >> 1) << 1) | 1) == s) by (bit_vector);
}

/// A failure is always encoded as 0, which the device folds to the
/// generic failure exit status 1.
pub proof fn lemma_failure_folds_to_one(h: X86)
    ensures
        h.encode_spec(Outcome::Failure) == 0,
        device_fold(0) == 1,
{
    assert(((0u32 << 1) | 1) == 1) by (bit_vector);
}

/// An explicit code passes through the encoder unchanged, for every
/// code and every handle.
pub proof fn lemma_explicit_unchanged(h: X86, code: u32)
    ensures
        h.encode_spec(Outcome::Explicit(code)) == code,
{
}

} // verus!
