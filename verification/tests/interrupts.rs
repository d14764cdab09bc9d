use bxcan::{ConditionState, Interrupt, InterruptState, Interrupts, PhysicalLine, INTERRUPT_MASK};

const ALL_CONDITIONS: [Interrupt; 10] = [
    Interrupt::TransmitMailboxEmpty,
    Interrupt::Fifo0MessagePending,
    Interrupt::Fifo0Full,
    Interrupt::Fifo0Overrun,
    Interrupt::Fifo1MessagePending,
    Interrupt::Fifo1Full,
    Interrupt::Fifo1Overrun,
    Interrupt::Error,
    Interrupt::Wakeup,
    Interrupt::Sleep,
];

/// Mirrors the acknowledgment protocol of the hardware TX-interrupt test:
/// enable `TransmitMailboxEmpty`, observe that the TX line is quiet, let a
/// transmission complete, observe that the TX handler would fire, and have
/// the handler clear the condition so the line is released.
#[test]
fn tx_interrupt() {
    let mut state = InterruptState::new();
    state.enable_interrupt(Interrupt::TransmitMailboxEmpty);

    // Nothing has been transmitted yet: no handler invocation.
    assert!(!state.line_asserted(PhysicalLine::Tx));

    // A frame round-trips: the transmit mailbox returns to the empty state.
    state.raise(Interrupt::TransmitMailboxEmpty);
    assert!(state.line_asserted(PhysicalLine::Tx));

    // The TX handler runs: it clears the interrupt condition.
    assert!(state.status().contains(Interrupt::TransmitMailboxEmpty));
    state.clear(Interrupt::TransmitMailboxEmpty);

    // The condition is gone and the level-triggered line is released.
    assert!(!state.status().contains(Interrupt::TransmitMailboxEmpty));
    assert!(!state.line_asserted(PhysicalLine::Tx));
}

/// Aliasing: `Fifo0Full` and `Fifo0Overrun` share the RX FIFO 0 line.  Only
/// an overrun occurs; the handler decodes the status set, finds the overrun
/// but not the full condition, and clearing the overrun releases the line.
#[test]
fn rx_fifo0_aliasing() {
    let mut state = InterruptState::new();
    state.enable_interrupt(Interrupt::Fifo0Full);
    state.enable_interrupt(Interrupt::Fifo0Overrun);
    assert!(!state.line_asserted(PhysicalLine::RxFifo0));

    state.raise(Interrupt::Fifo0Overrun);
    assert!(state.line_asserted(PhysicalLine::RxFifo0));

    let status = state.status();
    assert!(status.contains(Interrupt::Fifo0Overrun));
    assert!(!status.contains(Interrupt::Fifo0Full));

    state.clear(Interrupt::Fifo0Overrun);
    assert!(!state.line_asserted(PhysicalLine::RxFifo0));
}

/// Two conditions pending on one line: clearing only one of them leaves the
/// level-triggered line asserted; the handler must clear both.
#[test]
fn rx_fifo0_clear_all_pending() {
    let mut state = InterruptState::new();
    state.enable_interrupt(Interrupt::Fifo0MessagePending);
    state.enable_interrupt(Interrupt::Fifo0Overrun);
    state.raise(Interrupt::Fifo0MessagePending);
    state.raise(Interrupt::Fifo0Overrun);
    assert!(state.line_asserted(PhysicalLine::RxFifo0));

    state.clear(Interrupt::Fifo0Overrun);
    assert!(state.line_asserted(PhysicalLine::RxFifo0));

    state.clear(Interrupt::Fifo0MessagePending);
    assert!(!state.line_asserted(PhysicalLine::RxFifo0));
}

/// A condition that is asserted by the hardware but not enabled does not
/// assert its physical line, and clearing one line leaves the others alone.
#[test]
fn lines_are_independent() {
    let mut state = InterruptState::new();
    state.enable_interrupt(Interrupt::Error);
    state.raise(Interrupt::Error);
    state.raise(Interrupt::Fifo1Full); // not enabled
    assert!(state.line_asserted(PhysicalLine::StatusChange));
    assert!(!state.line_asserted(PhysicalLine::RxFifo1));
    assert!(!state.line_asserted(PhysicalLine::Tx));
    assert!(!state.line_asserted(PhysicalLine::RxFifo0));

    state.clear(Interrupt::Error);
    assert!(!state.line_asserted(PhysicalLine::StatusChange));
}

#[test]
fn bit_positions_match_register_layout() {
    assert_eq!(Interrupt::TransmitMailboxEmpty.bit_position(), 0);
    assert_eq!(Interrupt::Fifo0MessagePending.bit_position(), 1);
    assert_eq!(Interrupt::Fifo0Full.bit_position(), 2);
    assert_eq!(Interrupt::Fifo0Overrun.bit_position(), 3);
    assert_eq!(Interrupt::Fifo1MessagePending.bit_position(), 4);
    assert_eq!(Interrupt::Fifo1Full.bit_position(), 5);
    assert_eq!(Interrupt::Fifo1Overrun.bit_position(), 6);
    assert_eq!(Interrupt::Error.bit_position(), 15);
    assert_eq!(Interrupt::Wakeup.bit_position(), 16);
    assert_eq!(Interrupt::Sleep.bit_position(), 17);
}

#[test]
fn bit_positions_pairwise_distinct() {
    for (n, a) in ALL_CONDITIONS.iter().enumerate() {
        for (m, b) in ALL_CONDITIONS.iter().enumerate() {
            if n != m {
                assert_ne!(a.bit_position(), b.bit_position());
            }
        }
    }
}

#[test]
fn physical_line_table() {
    assert_eq!(Interrupt::TransmitMailboxEmpty.physical_line(), PhysicalLine::Tx);
    assert_eq!(Interrupt::Fifo0MessagePending.physical_line(), PhysicalLine::RxFifo0);
    assert_eq!(Interrupt::Fifo0Full.physical_line(), PhysicalLine::RxFifo0);
    assert_eq!(Interrupt::Fifo0Overrun.physical_line(), PhysicalLine::RxFifo0);
    assert_eq!(Interrupt::Fifo1MessagePending.physical_line(), PhysicalLine::RxFifo1);
    assert_eq!(Interrupt::Fifo1Full.physical_line(), PhysicalLine::RxFifo1);
    assert_eq!(Interrupt::Fifo1Overrun.physical_line(), PhysicalLine::RxFifo1);
    assert_eq!(Interrupt::Error.physical_line(), PhysicalLine::StatusChange);
    assert_eq!(Interrupt::Wakeup.physical_line(), PhysicalLine::StatusChange);
    assert_eq!(Interrupt::Sleep.physical_line(), PhysicalLine::StatusChange);
}

/// A singleton set holds the condition it was built from, holds no other
/// condition, and has exactly one bit set in its mask.
#[test]
fn singleton_has_exactly_one_bit() {
    for c in ALL_CONDITIONS {
        let s = Interrupts::from_interrupt(c);
        assert!(s.contains(c));
        assert_eq!(s.bits(), 1 << c.bit_position());
        assert_eq!(s.bits().count_ones(), 1);
        for other in ALL_CONDITIONS {
            if other != c {
                assert!(!s.contains(other));
            }
        }
    }
}

#[test]
fn from_trait_builds_singleton() {
    for c in ALL_CONDITIONS {
        assert_eq!(Interrupts::from(c), Interrupts::from_interrupt(c));
    }
}

#[test]
fn empty_set_contains_nothing() {
    let e = Interrupts::empty();
    assert_eq!(e.bits(), 0);
    for c in ALL_CONDITIONS {
        assert!(!e.contains(c));
    }
}

#[test]
fn union_is_commutative() {
    let a = Interrupts::from_interrupt(Interrupt::Error)
        .with_inserted(Interrupt::TransmitMailboxEmpty);
    let b = Interrupts::from_interrupt(Interrupt::Sleep).with_inserted(Interrupt::Fifo1Overrun);
    assert_eq!(a.union(b), b.union(a));
}

#[test]
fn union_is_associative() {
    let a = Interrupts::from_interrupt(Interrupt::Fifo0Full);
    let b = Interrupts::from_interrupt(Interrupt::Fifo1Full);
    let c = Interrupts::from_interrupt(Interrupt::Wakeup);
    assert_eq!(a.union(b).union(c), a.union(b.union(c)));
}

#[test]
fn union_identity_and_idempotence() {
    let a = Interrupts::from_interrupt(Interrupt::Fifo0Overrun).with_inserted(Interrupt::Sleep);
    assert_eq!(a.union(Interrupts::empty()), a);
    assert_eq!(Interrupts::empty().union(a), a);
    assert_eq!(a.union(a), a);
}

#[test]
fn insert_is_idempotent() {
    let mut s = Interrupts::from_interrupt(Interrupt::Fifo1MessagePending);
    s.insert(Interrupt::Error);
    let once = s;
    s.insert(Interrupt::Error);
    assert_eq!(s, once);
    assert_eq!(once.with_inserted(Interrupt::Error), once);
}

#[test]
fn remove_deletes_only_its_condition() {
    let mut s = Interrupts::from_interrupt(Interrupt::Fifo0Full)
        .with_inserted(Interrupt::Fifo0Overrun);
    s.remove(Interrupt::Fifo0Full);
    assert!(!s.contains(Interrupt::Fifo0Full));
    assert!(s.contains(Interrupt::Fifo0Overrun));
    s.remove(Interrupt::Fifo0Full);
    assert!(s.contains(Interrupt::Fifo0Overrun));
}

/// Decoding the all-ones register value keeps exactly the OR of the ten
/// canonical bit values and nothing else.
#[test]
fn from_raw_truncates_unrecognized_bits() {
    let all_ten: u32 = (1 << 0)
        | (1 << 1)
        | (1 << 2)
        | (1 << 3)
        | (1 << 4)
        | (1 << 5)
        | (1 << 6)
        | (1 << 15)
        | (1 << 16)
        | (1 << 17);
    assert_eq!(Interrupts::from_bits_truncate(0xFFFF_FFFF).bits(), all_ten);
    assert_eq!(all_ten, INTERRUPT_MASK);
    // Reserved bits alone decode to the empty set.
    assert_eq!(Interrupts::from_bits_truncate(!INTERRUPT_MASK), Interrupts::empty());
    // A recognized bit survives beside discarded reserved neighbours.
    let s = Interrupts::from_bits_truncate((1 << 7) | (1 << 14) | (1 << 3));
    assert_eq!(s, Interrupts::from_interrupt(Interrupt::Fifo0Overrun));
}

/// Round trip over every one of the 1024 subsets of the ten conditions:
/// re-decoding a set's raw mask gives the set back unchanged.
#[test]
fn raw_round_trip_all_subsets() {
    for choice in 0u32..1024 {
        let mut s = Interrupts::empty();
        for (n, c) in ALL_CONDITIONS.iter().enumerate() {
            if (choice >> n) & 1 == 1 {
                s.insert(*c);
            }
        }
        assert_eq!(Interrupts::from_bits_truncate(s.bits()), s);
    }
}

#[test]
fn condition_state_follows_protocol() {
    let mut state = InterruptState::new();
    let c = Interrupt::Fifo1Overrun;
    assert_eq!(state.condition_state(c), ConditionState::Idle);
    state.enable_interrupt(c);
    assert_eq!(state.condition_state(c), ConditionState::Enabled);
    state.raise(c);
    assert_eq!(state.condition_state(c), ConditionState::Pending);
    state.clear(c);
    assert_eq!(state.condition_state(c), ConditionState::Enabled);
    state.disable_interrupt(c);
    assert_eq!(state.condition_state(c), ConditionState::Idle);
}

/// Batch-programming the enable register with a set built by insertion.
#[test]
fn set_enabled_batch_write() {
    let mut wanted = Interrupts::empty();
    wanted.insert(Interrupt::Fifo0MessagePending);
    wanted.insert(Interrupt::Fifo1MessagePending);

    let mut state = InterruptState::new();
    state.set_enabled(wanted);
    state.raise(Interrupt::Fifo1MessagePending);
    assert!(state.line_asserted(PhysicalLine::RxFifo1));
    assert!(!state.line_asserted(PhysicalLine::RxFifo0));

    // Re-programming the register with the empty set disables everything,
    // but acknowledges nothing: the status flag stays set.
    state.set_enabled(Interrupts::empty());
    assert!(!state.line_asserted(PhysicalLine::RxFifo1));
    assert!(state.status().contains(Interrupt::Fifo1MessagePending));
}

#[test]
fn line_masks_cover_their_conditions() {
    for c in ALL_CONDITIONS {
        for line in [
            PhysicalLine::Tx,
            PhysicalLine::RxFifo0,
            PhysicalLine::RxFifo1,
            PhysicalLine::StatusChange,
        ] {
            let in_mask = (bxcan::protocol::line_mask(line) >> c.bit_position()) & 1 == 1;
            assert_eq!(in_mask, c.physical_line() == line);
        }
    }
}
