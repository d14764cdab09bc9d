//! Interrupt conditions and sets of them.

use vstd::prelude::*;

verus! {

/// The mask with exactly the ten recognized interrupt bits set:
/// positions 0 through 6, 15, 16 and 17.
pub const INTERRUPT_MASK: u32 = 0x3807F;

/// bxCAN interrupt sources.
///
/// These can be individually enabled and disabled in the peripheral.  Note
/// that the peripheral exposes only four interrupt lines to the
/// microcontroller (TX, RX FIFO 0, RX FIFO 1 and SCE), so several of the
/// conditions listed here invoke the same interrupt handler; see
/// [`Interrupt::physical_line`].
#[derive(Debug, Copy, Clone, PartialEq, Eq, Structural)]
#[non_exhaustive]
pub enum Interrupt {
    /// Raises the **TX** line when a transmit mailbox returns to the empty
    /// state, because its message was either transmitted or aborted.
    ///
    /// The handler must clear the condition by acknowledging the completed
    /// transmission request.
    TransmitMailboxEmpty,
    /// Raises the **RX FIFO 0** line when FIFO 0 holds a message.
    ///
    /// The handler must clear the condition by receiving all messages from
    /// the FIFO.
    Fifo0MessagePending,
    /// Raises the **RX FIFO 0** line when FIFO 0 holds three incoming
    /// messages.
    ///
    /// The handler must clear the condition by receiving at least one
    /// message from the FIFO, so that it is no longer full.
    Fifo0Full,
    /// Raises the **RX FIFO 0** line when FIFO 0 drops an incoming message.
    ///
    /// The handler must clear the condition by receiving from the FIFO,
    /// which reports the dropped frame as an error.
    Fifo0Overrun,
    /// Raises the **RX FIFO 1** line when FIFO 1 holds a message.
    Fifo1MessagePending,
    /// Raises the **RX FIFO 1** line when FIFO 1 holds three incoming
    /// messages.
    Fifo1Full,
    /// Raises the **RX FIFO 1** line when FIFO 1 drops an incoming message.
    Fifo1Overrun,
    /// Raises the **SCE** (status change / error) line on an error
    /// condition.
    Error,
    /// Raises the **SCE** line when the peripheral wakes up from sleep.
    Wakeup,
    /// Raises the **SCE** line when the peripheral enters sleep mode.
    Sleep,
}

/// The four physical interrupt lines the peripheral exposes to the host
/// processor.  Each [`Interrupt`] condition raises exactly one of them, and
/// several conditions may alias the same line.
#[derive(Debug, Copy, Clone, PartialEq, Eq, Structural)]
pub enum PhysicalLine {
    /// The transmit line, raised by [`Interrupt::TransmitMailboxEmpty`].
    Tx,
    /// The RX FIFO 0 line, raised by the three `Fifo0*` conditions.
    RxFifo0,
    /// The RX FIFO 1 line, raised by the three `Fifo1*` conditions.
    RxFifo1,
    /// The status change / error line, raised by [`Interrupt::Error`],
    /// [`Interrupt::Wakeup`] and [`Interrupt::Sleep`].
    StatusChange,
}

impl Interrupt {
    /// The bit position of this condition in the peripheral's interrupt
    /// enable and status registers.  These positions are part of the
    /// documented register layout and are frozen forever.
    pub open spec fn spec_bit_position(self) -> u32 {
        match self {
            Interrupt::TransmitMailboxEmpty => 0,
            Interrupt::Fifo0MessagePending => 1,
            Interrupt::Fifo0Full => 2,
            Interrupt::Fifo0Overrun => 3,
            Interrupt::Fifo1MessagePending => 4,
            Interrupt::Fifo1Full => 5,
            Interrupt::Fifo1Overrun => 6,
            Interrupt::Error => 15,
            Interrupt::Wakeup => 16,
            Interrupt::Sleep => 17,
        }
    }

    /// The bit position of this condition in the peripheral's registers.
    #[verifier::when_used_as_spec(spec_bit_position)]
    pub fn bit_position(self) -> (r: u32)
        ensures
            r == self.spec_bit_position(),
            r <= 17,
    {
        match self {
            Interrupt::TransmitMailboxEmpty => 0,
            Interrupt::Fifo0MessagePending => 1,
            Interrupt::Fifo0Full => 2,
            Interrupt::Fifo0Overrun => 3,
            Interrupt::Fifo1MessagePending => 4,
            Interrupt::Fifo1Full => 5,
            Interrupt::Fifo1Overrun => 6,
            Interrupt::Error => 15,
            Interrupt::Wakeup => 16,
            Interrupt::Sleep => 17,
        }
    }

    /// The register mask with only this condition's bit set.
    pub open spec fn spec_mask(self) -> u32 {
        1u32 << self.spec_bit_position()
    }

    /// The physical interrupt line this condition raises when it is enabled
    /// and its triggering event occurs.
    pub open spec fn spec_physical_line(self) -> PhysicalLine {
        match self {
            Interrupt::TransmitMailboxEmpty => PhysicalLine::Tx,
            Interrupt::Fifo0MessagePending => PhysicalLine::RxFifo0,
            Interrupt::Fifo0Full => PhysicalLine::RxFifo0,
            Interrupt::Fifo0Overrun => PhysicalLine::RxFifo0,
            Interrupt::Fifo1MessagePending => PhysicalLine::RxFifo1,
            Interrupt::Fifo1Full => PhysicalLine::RxFifo1,
            Interrupt::Fifo1Overrun => PhysicalLine::RxFifo1,
            Interrupt::Error => PhysicalLine::StatusChange,
            Interrupt::Wakeup => PhysicalLine::StatusChange,
            Interrupt::Sleep => PhysicalLine::StatusChange,
        }
    }

    /// The physical interrupt line this condition raises.
    #[verifier::when_used_as_spec(spec_physical_line)]
    pub fn physical_line(self) -> (r: PhysicalLine)
        ensures
            r == self.spec_physical_line(),
    {
        match self {
            Interrupt::TransmitMailboxEmpty => PhysicalLine::Tx,
            Interrupt::Fifo0MessagePending => PhysicalLine::RxFifo0,
            Interrupt::Fifo0Full => PhysicalLine::RxFifo0,
            Interrupt::Fifo0Overrun => PhysicalLine::RxFifo0,
            Interrupt::Fifo1MessagePending => PhysicalLine::RxFifo1,
            Interrupt::Fifo1Full => PhysicalLine::RxFifo1,
            Interrupt::Fifo1Overrun => PhysicalLine::RxFifo1,
            Interrupt::Error => PhysicalLine::StatusChange,
            Interrupt::Wakeup => PhysicalLine::StatusChange,
            Interrupt::Sleep => PhysicalLine::StatusChange,
        }
    }
}

/// Law: every condition's bit position is one of the ten recognized
/// positions, so it lies below the register width.
pub proof fn lemma_bit_position_recognized(i: Interrupt)
    ensures
        is_recognized_position(i.spec_bit_position()),
        i.spec_bit_position() <= 17,
{
}

/// Holds exactly for the ten bit positions the peripheral's register layout
/// assigns to interrupt conditions.
pub open spec fn is_recognized_position(p: u32) -> bool {
    p == 0 || p == 1 || p == 2 || p == 3 || p == 4 || p == 5 || p == 6 || p == 15 || p == 16
        || p == 17
}

/// Law: the bit positions of the ten conditions match the peripheral's
/// documented register layout, and no two conditions share a position.
pub proof fn lemma_bit_positions_distinct()
    ensures
        Interrupt::TransmitMailboxEmpty.spec_bit_position() == 0,
        Interrupt::Fifo0MessagePending.spec_bit_position() == 1,
        Interrupt::Fifo0Full.spec_bit_position() == 2,
        Interrupt::Fifo0Overrun.spec_bit_position() == 3,
        Interrupt::Fifo1MessagePending.spec_bit_position() == 4,
        Interrupt::Fifo1Full.spec_bit_position() == 5,
        Interrupt::Fifo1Overrun.spec_bit_position() == 6,
        Interrupt::Error.spec_bit_position() == 15,
        Interrupt::Wakeup.spec_bit_position() == 16,
        Interrupt::Sleep.spec_bit_position() == 17,
        forall|a: Interrupt, b: Interrupt|
            a != b ==> a.spec_bit_position() != b.spec_bit_position(),
{
}

/// A set of bxCAN interrupt conditions, represented as a bitmask over the
/// ten recognized register bit positions.
///
/// A well-formed set never has a bit set outside those positions; every
/// constructor establishes this and every operation preserves it.  Two sets
/// are equal exactly when their masks are equal.
#[derive(Debug, Copy, Clone, PartialEq, Eq, Structural)]
#[verifier::ext_equal]
pub struct Interrupts {
    bits: u32,
}

impl Interrupts {
    /// The raw register mask this set stands for.
    pub closed spec fn spec_bits(self) -> u32 {
        self.bits
    }

    /// A set is well formed when its mask has no bit outside the ten
    /// recognized positions.
    pub open spec fn wf(self) -> bool {
        self.spec_bits() & INTERRUPT_MASK == self.spec_bits()
    }

    /// Membership: the condition's bit is set in the mask.
    pub open spec fn spec_contains(self, i: Interrupt) -> bool {
        (self.spec_bits() >> i.spec_bit_position()) & 1 == 1
    }

    /// The empty set: the zero mask.
    pub closed spec fn spec_empty() -> Interrupts {
        Interrupts { bits: 0 }
    }

    /// The set decoded from a raw register value: every bit outside the ten
    /// recognized positions is discarded.
    pub closed spec fn spec_from_raw(bits: u32) -> Interrupts {
        Interrupts { bits: bits & INTERRUPT_MASK }
    }

    /// The singleton set holding exactly one condition.
    pub closed spec fn spec_singleton(i: Interrupt) -> Interrupts {
        Interrupts { bits: i.spec_mask() }
    }

    /// The union of two sets: the bitwise OR of their masks.
    pub closed spec fn spec_union(self, other: Interrupts) -> Interrupts {
        Interrupts { bits: self.spec_bits() | other.spec_bits() }
    }

    /// The set with one condition added.
    pub closed spec fn spec_insert(self, i: Interrupt) -> Interrupts {
        Interrupts { bits: self.spec_bits() | i.spec_mask() }
    }

    /// The set with one condition removed.
    pub closed spec fn spec_remove(self, i: Interrupt) -> Interrupts {
        Interrupts { bits: self.spec_bits() & !i.spec_mask() }
    }

    /// Returns the empty set.
    pub fn empty() -> (r: Interrupts)
        ensures
            r == Interrupts::spec_empty(),
            r.spec_bits() == 0,
            r.wf(),
            forall|j: Interrupt| !r.spec_contains(j),
    {
        proof {
            lemma_empty_contains();
            assert(0u32 & INTERRUPT_MASK == 0u32) by (bit_vector);
        }
        Interrupts { bits: 0 }
    }

    /// Decodes a raw register value into a set, silently discarding any bit
    /// outside the ten recognized positions.  Unrecognized-but-set bits in a
    /// real status register must not crash a running driver, so this never
    /// fails.
    pub fn from_bits_truncate(bits: u32) -> (r: Interrupts)
        ensures
            r == Interrupts::spec_from_raw(bits),
            r.spec_bits() == bits & INTERRUPT_MASK,
            r.wf(),
            forall|j: Interrupt| r.spec_contains(j) == ((bits >> j.spec_bit_position()) & 1 == 1),
    {
        proof {
            lemma_from_raw_wf(bits);
            lemma_from_raw_contains(bits);
        }
        Interrupts { bits: bits & INTERRUPT_MASK }
    }

    /// Returns the singleton set holding exactly the given condition and no
    /// other.
    pub fn from_interrupt(i: Interrupt) -> (r: Interrupts)
        ensures
            r == Interrupts::spec_singleton(i),
            r.spec_bits() == 1u32 << i.spec_bit_position(),
            r.wf(),
            forall|j: Interrupt| r.spec_contains(j) <==> j == i,
    {
        proof {
            lemma_singleton_contains(i);
            lemma_singleton_wf(i);
        }
        Interrupts { bits: 1u32 << i.bit_position() }
    }

    /// The raw register mask of this set, for writing directly to a
    /// hardware register.
    pub fn bits(self) -> (r: u32)
        ensures
            r == self.spec_bits(),
    {
        self.bits
    }

    /// Tests whether the set holds the given condition.
    pub fn contains(self, i: Interrupt) -> (r: bool)
        ensures
            r == self.spec_contains(i),
    {
        (self.bits >> i.bit_position()) & 1 == 1
    }

    /// Returns the union of two sets: a condition is in the result exactly
    /// when it is in either operand.
    pub fn union(self, other: Interrupts) -> (r: Interrupts)
        ensures
            r == self.spec_union(other),
            r.spec_bits() == self.spec_bits() | other.spec_bits(),
            self.wf() && other.wf() ==> r.wf(),
            forall|j: Interrupt|
                r.spec_contains(j) <==> self.spec_contains(j) || other.spec_contains(j),
    {
        proof {
            lemma_union_contains(self, other);
            lemma_union_wf(self, other);
        }
        Interrupts { bits: self.bits | other.bits }
    }

    /// Adds one condition to the set in place; a no-op when the condition is
    /// already present.
    pub fn insert(&mut self, i: Interrupt)
        ensures
            *final(self) == old(self).spec_insert(i),
            final(self).spec_bits() == old(self).spec_bits() | (1u32 << i.spec_bit_position()),
            old(self).wf() ==> final(self).wf(),
            forall|j: Interrupt|
                final(self).spec_contains(j) <==> old(self).spec_contains(j) || j == i,
    {
        self.bits = self.bits | (1u32 << i.bit_position());
        proof {
            lemma_insert_contains(*old(self), i);
            lemma_insert_wf(*old(self), i);
            assert(*self == old(self).spec_insert(i));
        }
    }

    /// Returns the set with one condition added, leaving this set as it is.
    pub fn with_inserted(self, i: Interrupt) -> (r: Interrupts)
        ensures
            r == self.spec_insert(i),
            r.spec_bits() == self.spec_bits() | (1u32 << i.spec_bit_position()),
            self.wf() ==> r.wf(),
            forall|j: Interrupt| r.spec_contains(j) <==> self.spec_contains(j) || j == i,
    {
        let r = Interrupts { bits: self.bits | (1u32 << i.bit_position()) };
        proof {
            lemma_insert_contains(self, i);
            lemma_insert_wf(self, i);
            assert(r == self.spec_insert(i));
        }
        r
    }

    /// Removes one condition from the set in place; a no-op when the
    /// condition is absent.
    pub fn remove(&mut self, i: Interrupt)
        ensures
            *final(self) == old(self).spec_remove(i),
            final(self).spec_bits() == old(self).spec_bits() & !(1u32 << i.spec_bit_position()),
            old(self).wf() ==> final(self).wf(),
            forall|j: Interrupt|
                final(self).spec_contains(j) <==> old(self).spec_contains(j) && j != i,
    {
        self.bits = self.bits & !(1u32 << i.bit_position());
        proof {
            lemma_remove_contains(*old(self), i);
            lemma_remove_wf(*old(self), i);
            assert(*self == old(self).spec_remove(i));
        }
    }
}

/// Law: the empty set holds no condition.
pub proof fn lemma_empty_contains()
    ensures
        forall|j: Interrupt| !(#[trigger] Interrupts::spec_empty().spec_contains(j)),
{
    assert forall|j: Interrupt| !(#[trigger] Interrupts::spec_empty().spec_contains(j)) by {
        let p = j.spec_bit_position();
        lemma_bit_position_recognized(j);
        assert((0u32 >> p) & 1 == 0) by (bit_vector)
            requires
                p < 32,
        ;
    }
}

/// Law: decoding a raw register value keeps exactly the recognized bits, so
/// a condition is in the decoded set exactly when its bit is set in the raw
/// value.
pub proof fn lemma_from_raw_contains(bits: u32)
    ensures
        forall|j: Interrupt| #[trigger]
            Interrupts::spec_from_raw(bits).spec_contains(j) == ((bits >> j.spec_bit_position())
                & 1 == 1),
{
    assert forall|j: Interrupt| #[trigger]
        Interrupts::spec_from_raw(bits).spec_contains(j) == ((bits >> j.spec_bit_position()) & 1
            == 1) by {
        let p = j.spec_bit_position();
        lemma_bit_position_recognized(j);
        assert((((bits & INTERRUPT_MASK) >> p) & 1) == ((bits >> p) & 1)) by (bit_vector)
            requires
                is_recognized_position(p),
        ;
    }
}

/// Law: a decoded set is well formed, whatever the raw value held.
pub proof fn lemma_from_raw_wf(bits: u32)
    ensures
        Interrupts::spec_from_raw(bits).wf(),
{
    assert((bits & INTERRUPT_MASK) & INTERRUPT_MASK == bits & INTERRUPT_MASK) by (bit_vector);
}

/// Law: the singleton set of a condition holds that condition and no other.
pub proof fn lemma_singleton_contains(i: Interrupt)
    ensures
        forall|j: Interrupt| #[trigger] Interrupts::spec_singleton(i).spec_contains(j) <==> j == i,
{
    let q = i.spec_bit_position();
    lemma_bit_position_recognized(i);
    lemma_bit_positions_distinct();
    assert forall|j: Interrupt| #[trigger]
        Interrupts::spec_singleton(i).spec_contains(j) <==> j == i by {
        let p = j.spec_bit_position();
        lemma_bit_position_recognized(j);
        assert(((((1u32 << q) >> p) & 1) == 1) == (p == q)) by (bit_vector)
            requires
                p < 32 && q < 32,
        ;
    }
}

/// Law: a singleton set has exactly one bit set in its mask — the bit at
/// its condition's position.
pub proof fn lemma_singleton_one_bit(i: Interrupt, p: u32)
    requires
        p < 32,
    ensures
        ((Interrupts::spec_singleton(i).spec_bits() >> p) & 1 == 1) <==> p
            == i.spec_bit_position(),
{
    let q = i.spec_bit_position();
    lemma_bit_position_recognized(i);
    assert(((((1u32 << q) >> p) & 1) == 1) == (p == q)) by (bit_vector)
        requires
            p < 32 && q < 32,
    ;
}

/// Law: a singleton set is well formed.
pub proof fn lemma_singleton_wf(i: Interrupt)
    ensures
        Interrupts::spec_singleton(i).wf(),
{
    let q = i.spec_bit_position();
    lemma_bit_position_recognized(i);
    assert((1u32 << q) & INTERRUPT_MASK == (1u32 << q)) by (bit_vector)
        requires
            is_recognized_position(q),
    ;
}

/// Law: a condition is in a union exactly when it is in either operand.
pub proof fn lemma_union_contains(a: Interrupts, b: Interrupts)
    ensures
        forall|j: Interrupt| #[trigger]
            a.spec_union(b).spec_contains(j) <==> a.spec_contains(j) || b.spec_contains(j),
{
    let x = a.spec_bits();
    let y = b.spec_bits();
    assert forall|j: Interrupt| #[trigger]
        a.spec_union(b).spec_contains(j) <==> a.spec_contains(j) || b.spec_contains(j) by {
        let p = j.spec_bit_position();
        lemma_bit_position_recognized(j);
        assert(((((x | y) >> p) & 1) == 1) == ((((x >> p) & 1) == 1) || (((y >> p) & 1)
            == 1))) by (bit_vector)
            requires
                p < 32,
        ;
    }
}

/// Law: the union of two well-formed sets is well formed.
pub proof fn lemma_union_wf(a: Interrupts, b: Interrupts)
    ensures
        a.wf() && b.wf() ==> a.spec_union(b).wf(),
{
    let x = a.spec_bits();
    let y = b.spec_bits();
    assert(x & INTERRUPT_MASK == x && y & INTERRUPT_MASK == y ==> (x | y) & INTERRUPT_MASK == (x
        | y)) by (bit_vector);
}

/// Law: a condition is in a set after an insertion exactly when it is the
/// inserted condition or was in the set already.
pub proof fn lemma_insert_contains(s: Interrupts, i: Interrupt)
    ensures
        forall|j: Interrupt| #[trigger]
            s.spec_insert(i).spec_contains(j) <==> s.spec_contains(j) || j == i,
{
    assert(s.spec_insert(i) == s.spec_union(Interrupts::spec_singleton(i)));
    lemma_union_contains(s, Interrupts::spec_singleton(i));
    lemma_singleton_contains(i);
}

/// Law: insertion into a well-formed set keeps it well formed.
pub proof fn lemma_insert_wf(s: Interrupts, i: Interrupt)
    ensures
        s.wf() ==> s.spec_insert(i).wf(),
{
    assert(s.spec_insert(i) == s.spec_union(Interrupts::spec_singleton(i)));
    lemma_singleton_wf(i);
    lemma_union_wf(s, Interrupts::spec_singleton(i));
}

/// Law: a condition is in a set after a removal exactly when it is not the
/// removed condition and was in the set before.
pub proof fn lemma_remove_contains(s: Interrupts, i: Interrupt)
    ensures
        forall|j: Interrupt| #[trigger]
            s.spec_remove(i).spec_contains(j) <==> s.spec_contains(j) && j != i,
{
    let x = s.spec_bits();
    let q = i.spec_bit_position();
    lemma_bit_position_recognized(i);
    lemma_bit_positions_distinct();
    assert forall|j: Interrupt| #[trigger]
        s.spec_remove(i).spec_contains(j) <==> s.spec_contains(j) && j != i by {
        let p = j.spec_bit_position();
        lemma_bit_position_recognized(j);
        assert(((((x & !(1u32 << q)) >> p) & 1) == 1) == ((((x >> p) & 1) == 1) && p
            != q)) by (bit_vector)
            requires
                p < 32 && q < 32,
        ;
    }
}

/// Law: removal from a well-formed set keeps it well formed.
pub proof fn lemma_remove_wf(s: Interrupts, i: Interrupt)
    ensures
        s.wf() ==> s.spec_remove(i).wf(),
{
    let x = s.spec_bits();
    let q = i.spec_bit_position();
    assert(x & INTERRUPT_MASK == x ==> (x & !(1u32 << q)) & INTERRUPT_MASK == (x & !(1u32
        << q))) by (bit_vector);
}

/// Law: union is commutative.
pub proof fn lemma_union_commutative(a: Interrupts, b: Interrupts)
    ensures
        a.spec_union(b) == b.spec_union(a),
{
    let x = a.spec_bits();
    let y = b.spec_bits();
    assert((x | y) == (y | x)) by (bit_vector);
}

/// Law: union is associative.
pub proof fn lemma_union_associative(a: Interrupts, b: Interrupts, c: Interrupts)
    ensures
        a.spec_union(b).spec_union(c) == a.spec_union(b.spec_union(c)),
{
    let x = a.spec_bits();
    let y = b.spec_bits();
    let z = c.spec_bits();
    assert(((x | y) | z) == (x | (y | z))) by (bit_vector);
}

/// Law: the empty set is the identity of union, on either side.
pub proof fn lemma_union_identity(a: Interrupts)
    ensures
        a.spec_union(Interrupts::spec_empty()) == a,
        Interrupts::spec_empty().spec_union(a) == a,
{
    let x = a.spec_bits();
    assert((x | 0u32) == x && (0u32 | x) == x) by (bit_vector);
    assert(a.spec_union(Interrupts::spec_empty()) =~= a);
    assert(Interrupts::spec_empty().spec_union(a) =~= a);
}

/// Law: union is idempotent.
pub proof fn lemma_union_idempotent(a: Interrupts)
    ensures
        a.spec_union(a) == a,
{
    let x = a.spec_bits();
    assert((x | x) == x) by (bit_vector);
    assert(a.spec_union(a) =~= a);
}

/// Law: inserting a condition twice is the same as inserting it once.
pub proof fn lemma_insert_idempotent(s: Interrupts, i: Interrupt)
    ensures
        s.spec_insert(i).spec_insert(i) == s.spec_insert(i),
{
    let x = s.spec_bits();
    let m = i.spec_mask();
    assert(((x | m) | m) == (x | m)) by (bit_vector);
}

/// Law: decoding the all-ones register value yields exactly the OR of the
/// ten canonical bit values and nothing else.
pub proof fn lemma_from_raw_all_ones()
    ensures
        Interrupts::spec_from_raw(0xFFFF_FFFFu32).spec_bits() == (1u32 << 0 | 1u32 << 1 | 1u32 << 2
            | 1u32 << 3 | 1u32 << 4 | 1u32 << 5 | 1u32 << 6 | 1u32 << 15 | 1u32 << 16 | 1u32 << 17),
{
    assert(0xFFFF_FFFFu32 & INTERRUPT_MASK == (1u32 << 0 | 1u32 << 1 | 1u32 << 2 | 1u32 << 3
        | 1u32 << 4 | 1u32 << 5 | 1u32 << 6 | 1u32 << 15 | 1u32 << 16 | 1u32
        << 17)) by (bit_vector);
}

/// Law: decoding a raw value never yields a set bit at an unrecognized
/// position, and keeps every recognized bit of the raw value.
pub proof fn lemma_from_raw_truncates(bits: u32, p: u32)
    requires
        p < 32,
    ensures
        ((Interrupts::spec_from_raw(bits).spec_bits() >> p) & 1 == 1) <==> (((bits >> p) & 1 == 1)
            && is_recognized_position(p)),
{
    assert(((((bits & INTERRUPT_MASK) >> p) & 1) == 1) == ((((bits >> p) & 1) == 1)
        && is_recognized_position(p))) by (bit_vector)
        requires
            p < 32,
    ;
}

/// Law: decoding the raw mask of a well-formed set gives the set back
/// unchanged.  Every set built from the empty set, singletons, unions,
/// insertions and removals is well formed, so the register round trip loses
/// nothing.
pub proof fn lemma_raw_round_trip(s: Interrupts)
    requires
        s.wf(),
    ensures
        Interrupts::spec_from_raw(s.spec_bits()) == s,
{
    assert(Interrupts::spec_from_raw(s.spec_bits()) =~= s);
}

/// Law: two well-formed sets holding the same conditions are equal; in the
/// other direction, equal sets trivially hold the same conditions.
pub proof fn lemma_extensional_equality(a: Interrupts, b: Interrupts)
    requires
        a.wf(),
        b.wf(),
    ensures
        (a == b) <==> (forall|j: Interrupt| a.spec_contains(j) == b.spec_contains(j)),
{
    let x = a.spec_bits();
    let y = b.spec_bits();
    if forall|j: Interrupt| a.spec_contains(j) == b.spec_contains(j) {
        assert(a.spec_contains(Interrupt::TransmitMailboxEmpty) == b.spec_contains(
            Interrupt::TransmitMailboxEmpty,
        ));
        assert(a.spec_contains(Interrupt::Fifo0MessagePending) == b.spec_contains(
            Interrupt::Fifo0MessagePending,
        ));
        assert(a.spec_contains(Interrupt::Fifo0Full) == b.spec_contains(Interrupt::Fifo0Full));
        assert(a.spec_contains(Interrupt::Fifo0Overrun) == b.spec_contains(
            Interrupt::Fifo0Overrun,
        ));
        assert(a.spec_contains(Interrupt::Fifo1MessagePending) == b.spec_contains(
            Interrupt::Fifo1MessagePending,
        ));
        assert(a.spec_contains(Interrupt::Fifo1Full) == b.spec_contains(Interrupt::Fifo1Full));
        assert(a.spec_contains(Interrupt::Fifo1Overrun) == b.spec_contains(
            Interrupt::Fifo1Overrun,
        ));
        assert(a.spec_contains(Interrupt::Error) == b.spec_contains(Interrupt::Error));
        assert(a.spec_contains(Interrupt::Wakeup) == b.spec_contains(Interrupt::Wakeup));
        assert(a.spec_contains(Interrupt::Sleep) == b.spec_contains(Interrupt::Sleep));
        assert(x == y) by (bit_vector)
            requires
                x & INTERRUPT_MASK == x,
                y & INTERRUPT_MASK == y,
                ((x >> 0u32) & 1 == 1) == ((y >> 0u32) & 1 == 1),
                ((x >> 1u32) & 1 == 1) == ((y >> 1u32) & 1 == 1),
                ((x >> 2u32) & 1 == 1) == ((y >> 2u32) & 1 == 1),
                ((x >> 3u32) & 1 == 1) == ((y >> 3u32) & 1 == 1),
                ((x >> 4u32) & 1 == 1) == ((y >> 4u32) & 1 == 1),
                ((x >> 5u32) & 1 == 1) == ((y >> 5u32) & 1 == 1),
                ((x >> 6u32) & 1 == 1) == ((y >> 6u32) & 1 == 1),
                ((x >> 15u32) & 1 == 1) == ((y >> 15u32) & 1 == 1),
                ((x >> 16u32) & 1 == 1) == ((y >> 16u32) & 1 == 1),
                ((x >> 17u32) & 1 == 1) == ((y >> 17u32) & 1 == 1),
        ;
        assert(a =~= b);
    }
}

impl core::convert::From<Interrupt> for Interrupts {
    /// Converts a single condition into the singleton set holding it.
    fn from(i: Interrupt) -> (r: Interrupts) {
        Interrupts::from_interrupt(i)
    }
}

impl vstd::std_specs::convert::FromSpecImpl<Interrupt> for Interrupts {
    open spec fn obeys_from_spec() -> bool {
        true
    }

    open spec fn from_spec(i: Interrupt) -> Interrupts {
        Interrupts::spec_singleton(i)
    }
}

} // verus!
