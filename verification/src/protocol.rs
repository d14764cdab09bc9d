//! The aliasing contract and acknowledgment protocol.
//!
//! The peripheral raises ten logical interrupt conditions but exposes only
//! four physical lines to the host processor, so an interrupt handler
//! invoked for one line may have to check and individually clear several
//! logical conditions.  [`InterruptState`] models the host-visible interrupt
//! state of the peripheral — which conditions the driver has enabled and
//! which conditions the hardware has asserted — and states exactly when a
//! physical line is asserted.  The proof functions at the end of this module
//! state the discipline a handler must follow: a line stays asserted until
//! every enabled condition aliasing it has been cleared, and clearing a
//! condition releases its line only once it was the last one pending there.

use vstd::prelude::*;

use crate::interrupt::{
    lemma_bit_position_recognized, lemma_bit_positions_distinct, lemma_remove_contains,
    Interrupt, Interrupts, PhysicalLine,
};

verus! {

/// The register mask holding the bits of every condition that raises the
/// given physical line.
pub open spec fn spec_line_mask(line: PhysicalLine) -> u32 {
    match line {
        PhysicalLine::Tx => 0x1,
        PhysicalLine::RxFifo0 => 0xE,
        PhysicalLine::RxFifo1 => 0x70,
        PhysicalLine::StatusChange => 0x38000,
    }
}

/// The register mask holding the bits of every condition that raises the
/// given physical line.
#[verifier::when_used_as_spec(spec_line_mask)]
pub fn line_mask(line: PhysicalLine) -> (r: u32)
    ensures
        r == spec_line_mask(line),
{
    match line {
        PhysicalLine::Tx => 0x1,
        PhysicalLine::RxFifo0 => 0xE,
        PhysicalLine::RxFifo1 => 0x70,
        PhysicalLine::StatusChange => 0x38000,
    }
}

/// Law: a condition's bit lies in a line's mask exactly when the condition
/// raises that line.
pub proof fn lemma_line_mask_contains(i: Interrupt, line: PhysicalLine)
    ensures
        ((spec_line_mask(line) >> i.spec_bit_position()) & 1 == 1) <==> i.spec_physical_line()
            == line,
{
    let p = i.spec_bit_position();
    lemma_bit_position_recognized(i);
    match line {
        PhysicalLine::Tx => {
            assert(((0x1u32 >> p) & 1 == 1) == (p == 0)) by (bit_vector)
                requires
                    p < 32,
            ;
        },
        PhysicalLine::RxFifo0 => {
            assert(((0xEu32 >> p) & 1 == 1) == (p == 1 || p == 2 || p == 3)) by (bit_vector)
                requires
                    p < 32,
            ;
        },
        PhysicalLine::RxFifo1 => {
            assert(((0x70u32 >> p) & 1 == 1) == (p == 4 || p == 5 || p == 6)) by (bit_vector)
                requires
                    p < 32,
            ;
        },
        PhysicalLine::StatusChange => {
            assert(((0x38000u32 >> p) & 1 == 1) == (p == 15 || p == 16 || p == 17)) by (bit_vector)
                requires
                    p < 32,
            ;
        },
    }
}

/// The acknowledgment state of one condition, as observed from the host
/// processor.
#[derive(Debug, Copy, Clone, PartialEq, Eq, Structural)]
pub enum ConditionState {
    /// The driver has not enabled the condition.
    Idle,
    /// The driver has enabled the condition but its triggering event has not
    /// occurred, or has been acknowledged since.
    Enabled,
    /// The condition is enabled and its triggering event has occurred but
    /// has not been acknowledged: its physical line is asserted.
    Pending,
}

/// The host-visible interrupt state of the peripheral: the set of conditions
/// the driver has enabled (the interrupt-enable register) and the set of
/// conditions the hardware has asserted (the interrupt-status register).
#[derive(Debug, Copy, Clone, PartialEq, Eq, Structural)]
#[verifier::ext_equal]
pub struct InterruptState {
    enabled: Interrupts,
    asserted: Interrupts,
}

impl InterruptState {
    /// The set of conditions the driver has enabled.
    pub closed spec fn spec_enabled(self) -> Interrupts {
        self.enabled
    }

    /// The set of conditions the hardware has asserted and the driver has
    /// not yet acknowledged.
    pub closed spec fn spec_asserted(self) -> Interrupts {
        self.asserted
    }

    /// Both registers are well-formed condition sets.
    pub open spec fn wf(self) -> bool {
        self.spec_enabled().wf() && self.spec_asserted().wf()
    }

    /// A condition is pending when the driver enabled it and its triggering
    /// event has occurred and has not been acknowledged.  A pending
    /// condition asserts its physical line.
    pub open spec fn spec_condition_pending(self, i: Interrupt) -> bool {
        self.spec_enabled().spec_contains(i) && self.spec_asserted().spec_contains(i)
    }

    /// A physical line is asserted exactly when some condition aliasing it
    /// is pending.  The interrupt controller then invokes that line's
    /// handler; it keeps re-invoking it until no aliased condition is
    /// pending any more (level-triggered delivery).
    pub open spec fn spec_line_asserted(self, line: PhysicalLine) -> bool {
        exists|i: Interrupt|
            self.spec_condition_pending(i) && (#[trigger] i.spec_physical_line()) == line
    }

    /// The state after the handler acknowledges one condition: the
    /// condition's status bit is cleared, the enable register is untouched.
    pub closed spec fn spec_after_clear(self, i: Interrupt) -> InterruptState {
        InterruptState { enabled: self.enabled, asserted: self.asserted.spec_remove(i) }
    }

    /// Returns the reset state: nothing enabled, nothing asserted.
    pub fn new() -> (r: InterruptState)
        ensures
            r.spec_enabled() == Interrupts::spec_empty(),
            r.spec_asserted() == Interrupts::spec_empty(),
            r.wf(),
            forall|j: Interrupt| !r.spec_enabled().spec_contains(j),
            forall|j: Interrupt| !r.spec_asserted().spec_contains(j),
            forall|line: PhysicalLine| !r.spec_line_asserted(line),
    {
        let r = InterruptState { enabled: Interrupts::empty(), asserted: Interrupts::empty() };
        proof {
            assert forall|line: PhysicalLine| !r.spec_line_asserted(line) by {
                crate::interrupt::lemma_empty_contains();
            }
        }
        r
    }

    /// Enables one condition, as an explicit driver call; there is no
    /// implicit enabling.  The status register is untouched.
    pub fn enable_interrupt(&mut self, i: Interrupt)
        ensures
            final(self).spec_enabled() == old(self).spec_enabled().spec_insert(i),
            final(self).spec_asserted() == old(self).spec_asserted(),
            old(self).wf() ==> final(self).wf(),
            forall|j: Interrupt|
                final(self).spec_enabled().spec_contains(j) <==> old(
                    self,
                ).spec_enabled().spec_contains(j) || j == i,
    {
        self.enabled.insert(i);
    }

    /// Disables one condition.  The status register is untouched: disabling
    /// does not acknowledge anything.
    pub fn disable_interrupt(&mut self, i: Interrupt)
        ensures
            final(self).spec_enabled() == old(self).spec_enabled().spec_remove(i),
            final(self).spec_asserted() == old(self).spec_asserted(),
            old(self).wf() ==> final(self).wf(),
            forall|j: Interrupt|
                final(self).spec_enabled().spec_contains(j) <==> old(
                    self,
                ).spec_enabled().spec_contains(j) && j != i,
    {
        self.enabled.remove(i);
    }

    /// Writes the interrupt-enable register in one batch operation: the
    /// given set replaces whatever was enabled before.
    pub fn set_enabled(&mut self, s: Interrupts)
        requires
            s.wf(),
        ensures
            final(self).spec_enabled() == s,
            final(self).spec_asserted() == old(self).spec_asserted(),
            old(self).spec_asserted().wf() ==> final(self).wf(),
    {
        self.enabled = s;
    }

    /// Records that the hardware asserted one condition's status flag (a
    /// mailbox emptied, a FIFO filled, a frame was dropped).  The flag is
    /// set whether or not the condition is enabled; only an enabled
    /// condition asserts its physical line.
    pub fn raise(&mut self, i: Interrupt)
        ensures
            final(self).spec_asserted() == old(self).spec_asserted().spec_insert(i),
            final(self).spec_enabled() == old(self).spec_enabled(),
            old(self).wf() ==> final(self).wf(),
            forall|j: Interrupt|
                final(self).spec_asserted().spec_contains(j) <==> old(
                    self,
                ).spec_asserted().spec_contains(j) || j == i,
    {
        self.asserted.insert(i);
    }

    /// Reads the interrupt-status register, decoded as the set of asserted
    /// conditions.  A handler must decode this set and test membership to
    /// identify which aliased conditions it has to acknowledge.
    pub fn status(&self) -> (r: Interrupts)
        ensures
            r == self.spec_asserted(),
    {
        self.asserted
    }

    /// Acknowledges one condition, clearing its status flag.  A handler
    /// must do this for every pending condition aliasing its line before it
    /// returns; otherwise the level-triggered line stays asserted and the
    /// handler is re-invoked immediately.
    pub fn clear(&mut self, i: Interrupt)
        ensures
            *final(self) == old(self).spec_after_clear(i),
            final(self).spec_asserted() == old(self).spec_asserted().spec_remove(i),
            final(self).spec_enabled() == old(self).spec_enabled(),
            old(self).wf() ==> final(self).wf(),
            forall|j: Interrupt|
                final(self).spec_asserted().spec_contains(j) <==> old(
                    self,
                ).spec_asserted().spec_contains(j) && j != i,
            !final(self).spec_condition_pending(i),
    {
        self.asserted.remove(i);
        proof {
            lemma_remove_contains(old(self).spec_asserted(), i);
            assert(*self =~= old(self).spec_after_clear(i));
        }
    }

    /// The acknowledgment state of one condition.
    pub fn condition_state(&self, i: Interrupt) -> (r: ConditionState)
        ensures
            r == ConditionState::Pending <==> self.spec_condition_pending(i),
            r == ConditionState::Enabled <==> self.spec_enabled().spec_contains(i)
                && !self.spec_asserted().spec_contains(i),
            r == ConditionState::Idle <==> !self.spec_enabled().spec_contains(i),
    {
        if !self.enabled.contains(i) {
            ConditionState::Idle
        } else if self.asserted.contains(i) {
            ConditionState::Pending
        } else {
            ConditionState::Enabled
        }
    }

    /// Tests whether a physical interrupt line is asserted, that is,
    /// whether the interrupt controller would invoke that line's handler.
    pub fn line_asserted(&self, line: PhysicalLine) -> (r: bool)
        ensures
            r == self.spec_line_asserted(line),
    {
        proof {
            lemma_line_asserted_iff_mask(*self, line);
        }
        (self.enabled.bits() & self.asserted.bits() & line_mask(line)) != 0
    }
}

/// A word set at a recognized bit position in three masks makes their
/// intersection nonzero.
proof fn lemma_common_bit_nonzero(x: u32, y: u32, m: u32, p: u32)
    requires
        p < 32,
        (x >> p) & 1 == 1,
        (y >> p) & 1 == 1,
        (m >> p) & 1 == 1,
    ensures
        x & y & m != 0,
{
    assert(x & y & m != 0) by (bit_vector)
        requires
            p < 32 && (x >> p) & 1 == 1 && (y >> p) & 1 == 1 && (m >> p) & 1 == 1,
    ;
}

/// Law: a physical line is asserted exactly when the enable register, the
/// status register and the line's mask share a set bit.  This is the bit
/// test a handler's dispatcher performs in one register operation.
pub proof fn lemma_line_asserted_iff_mask(s: InterruptState, line: PhysicalLine)
    ensures
        s.spec_line_asserted(line) <==> (s.spec_enabled().spec_bits() & s.spec_asserted().spec_bits()
            & spec_line_mask(line)) != 0,
{
    let x = s.spec_enabled().spec_bits();
    let y = s.spec_asserted().spec_bits();
    let m = spec_line_mask(line);
    if s.spec_line_asserted(line) {
        let i = choose|i: Interrupt|
            s.spec_condition_pending(i) && (#[trigger] i.spec_physical_line()) == line;
        let p = i.spec_bit_position();
        lemma_bit_position_recognized(i);
        lemma_line_mask_contains(i, line);
        lemma_common_bit_nonzero(x, y, m, p);
    }
    if x & y & m != 0 {
        match line {
            PhysicalLine::Tx => {
                assert((x >> 0u32) & 1 == 1 && (y >> 0u32) & 1 == 1) by (bit_vector)
                    requires
                        x & y & 0x1u32 != 0,
                ;
                assert(s.spec_condition_pending(Interrupt::TransmitMailboxEmpty)
                    && Interrupt::TransmitMailboxEmpty.spec_physical_line() == line);
            },
            PhysicalLine::RxFifo0 => {
                assert(((x >> 1u32) & 1 == 1 && (y >> 1u32) & 1 == 1) || ((x >> 2u32) & 1 == 1 && (y
                    >> 2u32) & 1 == 1) || ((x >> 3u32) & 1 == 1 && (y >> 3u32) & 1
                    == 1)) by (bit_vector)
                    requires
                        x & y & 0xEu32 != 0,
                ;
                if (x >> 1u32) & 1 == 1 && (y >> 1u32) & 1 == 1 {
                    assert(s.spec_condition_pending(Interrupt::Fifo0MessagePending)
                        && Interrupt::Fifo0MessagePending.spec_physical_line() == line);
                } else if (x >> 2u32) & 1 == 1 && (y >> 2u32) & 1 == 1 {
                    assert(s.spec_condition_pending(Interrupt::Fifo0Full)
                        && Interrupt::Fifo0Full.spec_physical_line() == line);
                } else {
                    assert(s.spec_condition_pending(Interrupt::Fifo0Overrun)
                        && Interrupt::Fifo0Overrun.spec_physical_line() == line);
                }
            },
            PhysicalLine::RxFifo1 => {
                assert(((x >> 4u32) & 1 == 1 && (y >> 4u32) & 1 == 1) || ((x >> 5u32) & 1 == 1 && (y
                    >> 5u32) & 1 == 1) || ((x >> 6u32) & 1 == 1 && (y >> 6u32) & 1
                    == 1)) by (bit_vector)
                    requires
                        x & y & 0x70u32 != 0,
                ;
                if (x >> 4u32) & 1 == 1 && (y >> 4u32) & 1 == 1 {
                    assert(s.spec_condition_pending(Interrupt::Fifo1MessagePending)
                        && Interrupt::Fifo1MessagePending.spec_physical_line() == line);
                } else if (x >> 5u32) & 1 == 1 && (y >> 5u32) & 1 == 1 {
                    assert(s.spec_condition_pending(Interrupt::Fifo1Full)
                        && Interrupt::Fifo1Full.spec_physical_line() == line);
                } else {
                    assert(s.spec_condition_pending(Interrupt::Fifo1Overrun)
                        && Interrupt::Fifo1Overrun.spec_physical_line() == line);
                }
            },
            PhysicalLine::StatusChange => {
                assert(((x >> 15u32) & 1 == 1 && (y >> 15u32) & 1 == 1) || ((x >> 16u32) & 1 == 1
                    && (y >> 16u32) & 1 == 1) || ((x >> 17u32) & 1 == 1 && (y >> 17u32) & 1
                    == 1)) by (bit_vector)
                    requires
                        x & y & 0x38000u32 != 0,
                ;
                if (x >> 15u32) & 1 == 1 && (y >> 15u32) & 1 == 1 {
                    assert(s.spec_condition_pending(Interrupt::Error)
                        && Interrupt::Error.spec_physical_line() == line);
                } else if (x >> 16u32) & 1 == 1 && (y >> 16u32) & 1 == 1 {
                    assert(s.spec_condition_pending(Interrupt::Wakeup)
                        && Interrupt::Wakeup.spec_physical_line() == line);
                } else {
                    assert(s.spec_condition_pending(Interrupt::Sleep)
                        && Interrupt::Sleep.spec_physical_line() == line);
                }
            },
        }
    }
}

/// Law: acknowledging the last pending condition that aliases a line
/// releases the line.  When every condition pending on the line is the one
/// being cleared, the line is no longer asserted after the clear, so the
/// handler will not be re-invoked.
pub proof fn lemma_clear_releases_line(s: InterruptState, i: Interrupt, line: PhysicalLine)
    requires
        forall|j: Interrupt|
            s.spec_condition_pending(j) && (#[trigger] j.spec_physical_line()) == line ==> j == i,
    ensures
        !s.spec_after_clear(i).spec_line_asserted(line),
{
    lemma_remove_contains(s.spec_asserted(), i);
    if s.spec_after_clear(i).spec_line_asserted(line) {
        let j = choose|j: Interrupt|
            s.spec_after_clear(i).spec_condition_pending(j) && (#[trigger] j.spec_physical_line())
                == line;
        assert(s.spec_condition_pending(j) && j != i);
        assert(false);
    }
}

/// Law: acknowledging one condition is not enough while another condition
/// aliasing the same line is still pending — the level-triggered line stays
/// asserted and the handler is re-invoked.
pub proof fn lemma_uncleared_condition_keeps_line(
    s: InterruptState,
    i: Interrupt,
    j: Interrupt,
    line: PhysicalLine,
)
    requires
        s.spec_condition_pending(j),
        j.spec_physical_line() == line,
        j != i,
    ensures
        s.spec_after_clear(i).spec_line_asserted(line),
{
    lemma_remove_contains(s.spec_asserted(), i);
    assert(s.spec_after_clear(i).spec_condition_pending(j));
}

/// Law: acknowledging a condition can release only that condition's own
/// line; every other physical line is asserted after the clear exactly as
/// it was before.
pub proof fn lemma_clear_other_lines_unchanged(s: InterruptState, i: Interrupt, line: PhysicalLine)
    requires
        i.spec_physical_line() != line,
    ensures
        s.spec_after_clear(i).spec_line_asserted(line) == s.spec_line_asserted(line),
{
    lemma_remove_contains(s.spec_asserted(), i);
    lemma_bit_positions_distinct();
    if s.spec_line_asserted(line) {
        let j = choose|j: Interrupt|
            s.spec_condition_pending(j) && (#[trigger] j.spec_physical_line()) == line;
        assert(j != i);
        assert(s.spec_after_clear(i).spec_condition_pending(j));
    }
    if s.spec_after_clear(i).spec_line_asserted(line) {
        let j = choose|j: Interrupt|
            s.spec_after_clear(i).spec_condition_pending(j) && (#[trigger] j.spec_physical_line())
                == line;
        assert(s.spec_condition_pending(j));
    }
}

} // verus!
